//! Navigation history: the last directory-cursor position remembered
//! for each visited path.
//!
//! Records are kept as a list of `(path, index)` pairs; a later record
//! for the same path overwrites an earlier one, so the list denotes a
//! map.  Entries are never removed: the history grows for the life of
//! one interactive session.

use vstd::prelude::*;

use crate::paths::bytes_eq;
use crate::paths::clone_bytes;

verus! {

/// Remembered directory-cursor positions, one per visited path.
pub struct History {
    records: Vec<(Vec<u8>, usize)>,
}

/// The mapping a record list denotes: later records win.
spec fn map_of(s: Seq<(Vec<u8>, usize)>) -> Map<Seq<u8>, usize>
    decreases s.len(),
{
    if s.len() == 0 {
        Map::empty()
    } else {
        map_of(s.drop_last()).insert(s.last().0@, s.last().1)
    }
}

proof fn lemma_map_of_found(s: Seq<(Vec<u8>, usize)>, k: Seq<u8>, i: int)
    requires
        0 <= i < s.len(),
        s[i].0@ == k,
        forall|j: int| i < j < s.len() ==> s[j].0@ != k,
    ensures
        map_of(s).contains_key(k),
        map_of(s)[k] == s[i].1,
    decreases s.len(),
{
    if i == s.len() - 1 {
    } else {
        lemma_map_of_found(s.drop_last(), k, i);
    }
}

proof fn lemma_map_of_absent(s: Seq<(Vec<u8>, usize)>, k: Seq<u8>)
    requires
        forall|j: int| 0 <= j < s.len() ==> s[j].0@ != k,
    ensures
        !map_of(s).contains_key(k),
    decreases s.len(),
{
    if s.len() > 0 {
        lemma_map_of_absent(s.drop_last(), k);
    }
}

impl View for History {
    type V = Map<Seq<u8>, usize>;

    closed spec fn view(&self) -> Map<Seq<u8>, usize> {
        map_of(self.records@)
    }
}

impl History {
    /// An empty history.
    pub fn new() -> (h: History)
        ensures
            h@ == Map::<Seq<u8>, usize>::empty(),
    {
        History { records: Vec::new() }
    }

    /// Remember `index` as the directory-cursor position for `path`,
    /// overwriting any earlier record.
    pub fn record(&mut self, path: &Vec<u8>, index: usize)
        ensures
            final(self)@ == old(self)@.insert(path@, index),
    {
        let key = clone_bytes(path);
        self.records.push((key, index));
        proof {
            assert(self.records@.drop_last() =~= old(self).records@);
        }
    }

    /// The remembered position for `path`, if one was ever recorded.
    pub fn recall(&self, path: &Vec<u8>) -> (r: Option<usize>)
        ensures
            match r {
                Some(x) => self@.contains_key(path@) && self@[path@] == x,
                None => !self@.contains_key(path@),
            },
    {
        let len = self.records.len();
        let mut i: usize = len;
        while i > 0
            invariant
                len == self.records.len(),
                i <= len,
                forall|j: int| i <= j < len ==> self.records@[j].0@ != path@,
            decreases i,
        {
            let idx = i - 1;
            if bytes_eq(&self.records[idx].0, path) {
                proof {
                    lemma_map_of_found(self.records@, path@, idx as int);
                }
                return Some(self.records[idx].1);
            }
            i = idx;
        }
        proof {
            lemma_map_of_absent(self.records@, path@);
        }
        None
    }
}

} // verus!
