//! The sequential scan: starting from the resume index, visit each
//! remaining candidate once, in order.
//!
//! The loop itself performs network calls and lives outside the library;
//! it asks `next_to_check` which candidate comes next and calls `advance`
//! once that candidate's check has been recorded. `scan_from` is the
//! model of that loop: together with those two contracts it says the scan
//! visits exactly the suffix of the enumeration.

use vstd::prelude::*;

verus! {

/// The one piece of scan state: the position of the next candidate.
pub struct Runner {
    /// Position in the candidate sequence of the next check.
    pub index: usize,
}

impl Runner {
    /// A scan resuming at `start`.
    pub fn new(start: usize) -> (r: Runner)
        ensures
            r.index == start,
    {
        Runner { index: start }
    }

    /// The candidate the scan must check next; nothing once the sequence
    /// is exhausted.
    pub fn next_to_check<'a>(&self, arr: &'a Vec<String>) -> (r: Option<&'a String>)
        ensures
            (self.index as int) < arr@.len() ==> (r matches Some(s) && s@ == arr@[self.index
                as int]@),
            (self.index as int) >= arr@.len() ==> r is None,
    {
        if self.index < arr.len() {
            Some(&arr[self.index])
        } else {
            None
        }
    }

    /// Records that the current candidate has been checked: the scan
    /// moves forward by exactly one position.
    pub fn advance(&mut self)
        requires
            old(self).index < usize::MAX,
        ensures
            final(self).index == old(self).index + 1,
    {
        self.index = self.index + 1;
    }
}

/// The candidates a scan visits from position `i` on: one step yields the
/// entry at `i` and continues from `i + 1`, mirroring one
/// `next_to_check` / `advance` round.
pub open spec fn scan_from(views: Seq<Seq<char>>, i: int) -> Seq<Seq<char>>
    decreases views.len() - i,
{
    if 0 <= i < views.len() {
        seq![views[i]] + scan_from(views, i + 1)
    } else {
        Seq::empty()
    }
}

/// A scan from `start` visits exactly the suffix of the sequence from
/// `start`, in order: entry `j` of the scan is entry `start + j` of the
/// sequence, so nothing is skipped and nothing repeated; a start at or
/// past the end visits nothing at all.
pub proof fn lemma_scan_exact_suffix(views: Seq<Seq<char>>, start: int)
    requires
        0 <= start,
    ensures
        scan_from(views, start).len() == if start < views.len() {
            views.len() - start
        } else {
            0
        },
        forall|j: int|
            0 <= j < scan_from(views, start).len() ==> scan_from(views, start)[j] == views[start
                + j],
    decreases views.len() - start,
{
    if start < views.len() {
        lemma_scan_exact_suffix(views, start + 1);
    }
}

} // verus!
