//! Cloud API messages about apps, media and tasks, and the filter for model
//! listings.
use vstd::prelude::*;

use crate::ids::{AppId, AppMediaObjectId, DomainId, ModelId, TaskId};
use crate::time::Timestamp;

verus! {

/// Returned information about an app
#[derive(Debug)]
pub struct GetAppResponse {
    /// App Id
    pub id: AppId,
    /// If true, the app is enabled - it may make responses to the cloud API
    pub enabled: bool,
    /// App owner/administrator email
    pub admin_email: String,
    /// The URL used to resolve object IDs to media information
    pub media_url: String,
}

/// Request to update app
#[derive(Debug)]
pub struct UpdateApp {
    /// If not null, enable or disable the app
    pub enabled: Option<bool>,
    /// If not null, overwrite the administrator's email
    pub admin_email: Option<String>,
    /// If not null, overwrite the URL used for resolving object IDs to media information
    pub media_url: Option<String>,
}

/// The App has been updated
#[derive(Debug)]
pub enum AppUpdated {
    /// Updated normally
    Updated(AppId),
}

/// Confirming upload is created
#[derive(Clone, Debug)]
pub enum UploadCreated {
    Created { media_id: AppMediaObjectId, domain_id: DomainId },
}

/// Confirming download is created
#[derive(Clone, Debug)]
pub enum DownloadCreated {
    Created { media_id: AppMediaObjectId, domain_id: DomainId },
}

/// Confirming media object is scheduled for deletion
#[derive(Clone, Debug)]
pub enum MediaObjectDeleted {
    Deleted { media_id: AppMediaObjectId },
}

/// The manufacturer and name of a model id, by which ids are told apart.
pub open spec fn model_key(m: ModelId) -> (Seq<char>, Seq<char>) {
    (m.manufacturer@, m.name@)
}

/// The keys of a list of model ids.
pub open spec fn id_keys(ids: Seq<ModelId>) -> Set<(Seq<char>, Seq<char>)> {
    Set::new(|k: (Seq<char>, Seq<char>)| exists|i: int| 0 <= i < ids.len() && model_key(#[trigger] ids[i]) == k)
}

/// No id occurs twice in the list.
pub open spec fn distinct_ids(ids: Seq<ModelId>) -> bool {
    forall|i: int, j: int| 0 <= i < j < ids.len() ==> model_key(#[trigger] ids[i]) != model_key(#[trigger] ids[j])
}

proof fn lemma_id_keys_push(v: Seq<ModelId>, x: ModelId)
    ensures
        id_keys(v.push(x)) == id_keys(v).insert(model_key(x)),
{
    let w = v.push(x);
    assert forall|k: (Seq<char>, Seq<char>)| id_keys(w).contains(k) implies id_keys(v).insert(model_key(x)).contains(k) by {
        let i = choose|i: int| 0 <= i < w.len() && model_key(#[trigger] w[i]) == k;
        if i < v.len() {
            assert(v[i] == w[i]);
        }
    }
    assert forall|k: (Seq<char>, Seq<char>)| id_keys(v).insert(model_key(x)).contains(k) implies id_keys(w).contains(k) by {
        if k == model_key(x) {
            assert(w[v.len() as int] == x);
        } else {
            let i = choose|i: int| 0 <= i < v.len() && model_key(#[trigger] v[i]) == k;
            assert(w[i] == v[i]);
        }
    }
    assert(id_keys(w) =~= id_keys(v).insert(model_key(x)));
}

fn has_model(ids: &Vec<ModelId>, m: &ModelId) -> (r: bool)
    ensures
        r == id_keys(ids@).contains(model_key(*m)),
{
    let mut i: usize = 0;
    while i < ids.len()
        invariant
            0 <= i <= ids.len(),
            forall|j: int| 0 <= j < i ==> model_key(#[trigger] ids@[j]) != model_key(*m),
        decreases ids.len() - i,
    {
        if ids[i].manufacturer == m.manufacturer && ids[i].name == m.name {
            assert(model_key(ids@[i as int]) == model_key(*m));
            return true;
        }
        i += 1;
    }
    false
}

/// Filter for listing models. The ids a model may have are kept in a list in
/// which no id occurs twice.
#[derive(Clone, Debug)]
pub struct ModelFilter {
    pub manufacturer_is: Option<String>,
    pub name_contains: Option<String>,
    pub id_one_of: Vec<ModelId>,
}

impl Default for ModelFilter {
    /// The filter that lets every model through.
    fn default() -> (f: Self)
        ensures
            f.manufacturer_is is None,
            f.name_contains is None,
            f.id_one_of@ == Seq::<ModelId>::empty(),
    {
        ModelFilter::new()
    }
}

impl ModelFilter {
    /// The filter that lets every model through.
    pub fn new() -> (f: Self)
        ensures
            f.manufacturer_is is None,
            f.name_contains is None,
            f.id_one_of@ == Seq::<ModelId>::empty(),
    {
        ModelFilter { manufacturer_is: None, name_contains: None, id_one_of: Vec::new() }
    }

    /// Adds the given ids to the ids a model may have; ids already present
    /// are not added again.
    pub fn with_id_one_of(self, ids: Vec<ModelId>) -> (f: Self)
        ensures
            f.manufacturer_is == self.manufacturer_is,
            f.name_contains == self.name_contains,
            id_keys(f.id_one_of@) == id_keys(self.id_one_of@).union(id_keys(ids@)),
            f.id_one_of@.len() >= self.id_one_of@.len(),
            f.id_one_of@.subrange(0, self.id_one_of@.len() as int) == self.id_one_of@,
            distinct_ids(self.id_one_of@) ==> distinct_ids(f.id_one_of@),
    {
        let ghost base = self.id_one_of@;
        let ghost all = ids@;
        let mut filter = self;
        let mut rest = ids;
        while rest.len() > 0
            invariant
                filter.manufacturer_is == self.manufacturer_is,
                filter.name_contains == self.name_contains,
                rest@.len() <= all.len(),
                rest@ == all.skip(all.len() - rest@.len()),
                id_keys(filter.id_one_of@) == id_keys(base).union(
                    id_keys(all.take(all.len() - rest@.len())),
                ),
                filter.id_one_of@.len() >= base.len(),
                filter.id_one_of@.subrange(0, base.len() as int) == base,
                distinct_ids(base) ==> distinct_ids(filter.id_one_of@),
            decreases rest.len(),
        {
            let ghost c = all.len() - rest@.len();
            let ghost before = filter.id_one_of@;
            let id = rest.remove(0);
            proof {
                assert(id == all[c]);
                assert(rest@ =~= all.skip(c + 1));
                assert(all.take(c + 1) =~= all.take(c).push(all[c]));
                lemma_id_keys_push(all.take(c), all[c]);
            }
            let present = has_model(&filter.id_one_of, &id);
            if !present {
                filter.id_one_of.push(id);
                proof {
                    lemma_id_keys_push(before, all[c]);
                    assert(filter.id_one_of@.subrange(0, base.len() as int) =~= before.subrange(
                        0,
                        base.len() as int,
                    ));
                    if distinct_ids(base) {
                        let w = filter.id_one_of@;
                        assert forall|i: int, j: int| 0 <= i < j < w.len() implies model_key(
                            #[trigger] w[i],
                        ) != model_key(#[trigger] w[j]) by {
                            if j == before.len() {
                                assert(w[i] == before[i]);
                                assert(id_keys(before).contains(model_key(w[i])));
                            } else {
                                assert(w[i] == before[i] && w[j] == before[j]);
                            }
                        }
                    }
                }
            }
            proof {
                assert(id_keys(filter.id_one_of@) =~= id_keys(base).union(id_keys(all.take(c + 1))));
            }
        }
        proof {
            assert(all.take(all.len() as int) =~= all);
        }
        filter
    }

    /// Requires the manufacturer to be the given one.
    pub fn with_manufacturer_is(self, manufacturer: String) -> (f: Self)
        ensures
            f.manufacturer_is == Some(manufacturer),
            f.name_contains == self.name_contains,
            f.id_one_of == self.id_one_of,
    {
        let mut filter = self;
        filter.manufacturer_is = Some(manufacturer);
        filter
    }

    /// Requires the name to contain the given text.
    pub fn with_name_contains(self, name: String) -> (f: Self)
        ensures
            f.name_contains == Some(name),
            f.manufacturer_is == self.manufacturer_is,
            f.id_one_of == self.id_one_of,
    {
        let mut filter = self;
        filter.name_contains = Some(name);
        filter
    }
}

/// Task created successfully
#[derive(Clone, Debug)]
pub enum TaskCreated {
    /// Created normally
    Created {
        /// App creating the task
        app_id: AppId,
        /// Task Id
        task_id: TaskId,
    },
    /// Validated successfully, but not created
    DryRun {
        /// App creating the task
        app_id: AppId,
        /// Task Id
        task_id: TaskId,
    },
}

/// Task was updated successfully
#[derive(Clone, Debug)]
pub enum TaskUpdated {
    /// Updated normally
    Updated {
        /// App creating the task
        app_id: AppId,
        /// Task Id
        task_id: TaskId,
        /// New version to be used with `If-Matches` when submitting further modifications
        version: u64,
    },
}

/// Task was deleted successfully
#[derive(Clone, Debug)]
pub enum TaskDeleted {
    /// Deleted normally
    Deleted {
        /// App creating the task
        app_id: AppId,
        /// Task Id
        task_id: TaskId,
        /// Version when deleted
        version: u64,
    },
}

/// Adjust the task time
#[derive(Clone, Debug)]
pub struct AdjustTaskTime {
    /// If not null, overwrite the starting time
    pub from: Option<Timestamp>,
    /// If not null, overwrite the ending time
    pub to: Option<Timestamp>,
}

} // verus!
