//! Splitting strings at a separator character and joining them again.
use vstd::prelude::*;
use vstd::string::StrSliceExecFns;
use vstd::string::StringExecFns;

verus! {

/// Splits `s` at the first `sep`: the part before it and, when there is a
/// separator, the part after it.
pub open spec fn split_at_sep(s: Seq<char>, sep: char) -> (Seq<char>, Option<Seq<char>>)
    decreases s.len(),
{
    if s.len() == 0 {
        (Seq::empty(), None)
    } else if s[0] == sep {
        (Seq::empty(), Some(s.skip(1)))
    } else {
        let (h, r) = split_at_sep(s.skip(1), sep);
        (seq![s[0]] + h, r)
    }
}

/// `sep` does not occur in `s`.
pub open spec fn lacks(s: Seq<char>, sep: char) -> bool {
    forall|i: int| 0 <= i < s.len() ==> s[i] != sep
}

/// Splitting at the first separator, stated through its position `e`.
pub proof fn lemma_split_at(t: Seq<char>, sep: char, e: int)
    requires
        0 <= e <= t.len(),
        forall|i: int| 0 <= i < e ==> t[i] != sep,
        e < t.len() ==> t[e] == sep,
    ensures
        split_at_sep(t, sep) == (t.take(e), if e < t.len() {
            Some(t.skip(e + 1))
        } else {
            None::<Seq<char>>
        }),
    decreases e,
{
    if t.len() == 0 {
        assert(t.take(e) =~= Seq::<char>::empty());
    } else if e == 0 {
        assert(t.take(e) =~= Seq::<char>::empty());
    } else {
        let u = t.skip(1);
        lemma_split_at(u, sep, e - 1);
        assert(seq![t[0]] + u.take(e - 1) =~= t.take(e));
        if e < t.len() {
            assert(u.skip(e) =~= t.skip(e + 1));
        }
    }
}

/// Splitting `a + [sep] + b` at the first separator gives `a` and `b` when
/// `a` holds no separator.
pub proof fn lemma_split_joined(a: Seq<char>, b: Seq<char>, sep: char)
    requires
        lacks(a, sep),
    ensures
        split_at_sep(a + seq![sep] + b, sep) == (a, Some(b)),
{
    let t = a + seq![sep] + b;
    lemma_split_at(t, sep, a.len() as int);
    assert(t.take(a.len() as int) =~= a);
    assert(t.skip(a.len() as int + 1) =~= b);
}

/// Splitting a string without separator gives the whole string and nothing
/// after it.
pub proof fn lemma_split_whole(a: Seq<char>, sep: char)
    requires
        lacks(a, sep),
    ensures
        split_at_sep(a, sep) == (a, None::<Seq<char>>),
{
    lemma_split_at(a, sep, a.len() as int);
    assert(a.take(a.len() as int) =~= a);
}

/// The position of the first `sep` in `s` at or after `start`, or the length
/// of `s` when there is none.
pub fn find_sep(s: &str, start: usize, sep: char) -> (end: usize)
    requires
        start <= s@.len(),
    ensures
        start <= end <= s@.len(),
        forall|i: int| start <= i < end ==> s@[i] != sep,
        end < s@.len() ==> s@[end as int] == sep,
{
    let len = s.unicode_len();
    let mut i = start;
    while i < len
        invariant
            start <= i <= len,
            len == s@.len(),
            forall|j: int| start <= j < i ==> s@[j] != sep,
        decreases len - i,
    {
        if s.get_char(i) == sep {
            return i;
        }
        i += 1;
    }
    i
}

/// The part of `s` between character positions `from` and `to`.
pub fn substring(s: &str, from: usize, to: usize) -> (r: String)
    requires
        from <= to <= s@.len(),
    ensures
        r@ == s@.subrange(from as int, to as int),
{
    String::from_str(s.substring_char(from, to))
}

/// Splits `s` at the first `sep` at or after `start`: the text before it, and
/// the position just after the separator when there is one.
pub fn split_from(s: &str, start: usize, sep: char) -> (r: (String, Option<usize>))
    requires
        start <= s@.len(),
    ensures
        split_at_sep(s@.skip(start as int), sep) == (r.0@, match r.1 {
            Some(next) => Some(s@.skip(next as int)),
            None => None::<Seq<char>>,
        }),
        r.1 matches Some(next) ==> start < next <= s@.len(),
{
    let end = find_sep(s, start, sep);
    let head = substring(s, start, end);
    let len = s.unicode_len();
    proof {
        let t = s@.skip(start as int);
        lemma_split_at(t, sep, end - start);
        assert(t.take(end - start) =~= s@.subrange(start as int, end as int));
        if end < len {
            assert(t.skip(end - start + 1) =~= s@.skip(end + 1));
        }
    }
    if end < len {
        (head, Some(end + 1))
    } else {
        (head, None)
    }
}

} // verus!
