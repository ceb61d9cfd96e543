//! The bookkeeping of a real-time socket: for which instances it follows the
//! driver events and the specification changes.
use vstd::prelude::*;

verus! {

/// The ids in a list.
pub open spec fn id_set(ids: Seq<String>) -> Set<Seq<char>> {
    Set::new(|k: Seq<char>| exists|i: int| 0 <= i < ids.len() && (#[trigger] ids[i])@ == k)
}

proof fn lemma_id_set_push(v: Seq<String>, x: String)
    ensures
        id_set(v.push(x)) == id_set(v).insert(x@),
{
    let w = v.push(x);
    assert forall|k: Seq<char>| id_set(w).contains(k) implies id_set(v).insert(x@).contains(k) by {
        let i = choose|i: int| 0 <= i < w.len() && (#[trigger] w[i])@ == k;
        if i < v.len() {
            assert(v[i] == w[i]);
        }
    }
    assert forall|k: Seq<char>| id_set(v).insert(x@).contains(k) implies id_set(w).contains(k) by {
        if k == x@ {
            assert(w[v.len() as int] == x);
        } else {
            let i = choose|i: int| 0 <= i < v.len() && (#[trigger] v[i])@ == k;
            assert(w[i] == v[i]);
        }
    }
    assert(id_set(w) =~= id_set(v).insert(x@));
}

fn contains_id(ids: &Vec<String>, id: &String) -> (r: bool)
    ensures
        r == id_set(ids@).contains(id@),
{
    let mut i: usize = 0;
    while i < ids.len()
        invariant
            0 <= i <= ids.len(),
            forall|j: int| 0 <= j < i ==> (#[trigger] ids@[j])@ != id@,
        decreases ids.len() - i,
    {
        if ids[i] == *id {
            return true;
        }
        i += 1;
    }
    false
}

fn insert_id(ids: &mut Vec<String>, id: &String)
    ensures
        id_set(final(ids)@) == id_set(old(ids)@).insert(id@),
{
    if contains_id(ids, id) {
        assert(id_set(ids@) =~= id_set(ids@).insert(id@));
    } else {
        let ghost before = ids@;
        let c = id.clone();
        ids.push(c);
        proof {
            lemma_id_set_push(before, c);
        }
    }
}

fn without_id(ids: Vec<String>, id: &String) -> (r: (Vec<String>, bool))
    ensures
        id_set(r.0@) == id_set(ids@).remove(id@),
        r.1 == id_set(ids@).contains(id@),
{
    let ghost all = ids@;
    let mut rest = ids;
    let mut kept: Vec<String> = Vec::new();
    let mut found = false;
    while rest.len() > 0
        invariant
            rest@.len() <= all.len(),
            rest@ == all.skip(all.len() - rest@.len()),
            id_set(kept@) == id_set(all.take(all.len() - rest@.len())).remove(id@),
            found == id_set(all.take(all.len() - rest@.len())).contains(id@),
        decreases rest.len(),
    {
        let ghost c = all.len() - rest@.len();
        let ghost before = kept@;
        let x = rest.remove(0);
        proof {
            assert(x == all[c]);
            assert(rest@ =~= all.skip(c + 1));
            assert(all.take(c + 1) =~= all.take(c).push(all[c]));
            lemma_id_set_push(all.take(c), all[c]);
        }
        if x == *id {
            found = true;
            proof {
                assert(id_set(kept@) =~= id_set(all.take(c + 1)).remove(id@));
            }
        } else {
            kept.push(x);
            proof {
                lemma_id_set_push(before, x);
                assert(id_set(kept@) =~= id_set(all.take(c + 1)).remove(id@));
            }
        }
    }
    assert(all.take(all.len() as int) =~= all);
    (kept, found)
}

/// The instances whose driver events and whose specification changes a
/// socket follows.
#[derive(Debug)]
pub struct Subscriptions {
    pub events: Vec<String>,
    pub specs: Vec<String>,
}

impl Subscriptions {
    /// Following nothing.
    pub fn new() -> (s: Self)
        ensures
            s.events@ == Seq::<String>::empty(),
            s.specs@ == Seq::<String>::empty(),
    {
        Subscriptions { events: Vec::new(), specs: Vec::new() }
    }

    /// Starts following the events and the specification of `instance_id`;
    /// this always succeeds.
    pub fn subscribe(&mut self, instance_id: &String) -> (success: bool)
        ensures
            success,
            id_set(final(self).events@) == id_set(old(self).events@).insert(instance_id@),
            id_set(final(self).specs@) == id_set(old(self).specs@).insert(instance_id@),
    {
        insert_id(&mut self.events, instance_id);
        insert_id(&mut self.specs, instance_id);
        true
    }

    /// Stops following the events and the specification of `instance_id`;
    /// succeeds when either was followed.
    pub fn unsubscribe(&mut self, instance_id: &String) -> (success: bool)
        ensures
            id_set(final(self).events@) == id_set(old(self).events@).remove(instance_id@),
            id_set(final(self).specs@) == id_set(old(self).specs@).remove(instance_id@),
            success == (id_set(old(self).events@).contains(instance_id@) || id_set(
                old(self).specs@,
            ).contains(instance_id@)),
    {
        let mut events: Vec<String> = Vec::new();
        let mut specs: Vec<String> = Vec::new();
        std::mem::swap(&mut events, &mut self.events);
        std::mem::swap(&mut specs, &mut self.specs);
        let (events, events_removed) = without_id(events, instance_id);
        let (specs, specs_removed) = without_id(specs, instance_id);
        self.events = events;
        self.specs = specs;
        events_removed || specs_removed
    }
}

/// Unsubscribing after subscribing succeeds and follows the instance no
/// more; when the instance was not followed before, it gives back the
/// subscriptions as they were.
pub proof fn law_unsubscribe_after_subscribe(events: Seq<String>, specs: Seq<String>, id: Seq<char>)
    ensures
        id_set(events).insert(id).contains(id),
        !id_set(events).insert(id).remove(id).contains(id),
        !id_set(specs).insert(id).remove(id).contains(id),
        !id_set(events).contains(id) ==> id_set(events).insert(id).remove(id) == id_set(events),
        !id_set(specs).contains(id) ==> id_set(specs).insert(id).remove(id) == id_set(specs),
{
    assert(!id_set(events).contains(id) ==> id_set(events).insert(id).remove(id) =~= id_set(events));
    assert(!id_set(specs).contains(id) ==> id_set(specs).insert(id).remove(id) =~= id_set(specs));
}

} // verus!
