//! The address mapping table: AppleTalk addresses and the Ethernet addresses
//! that were last seen answering for them, looked up from either side.
use vstd::prelude::*;

use crate::addr::{Appletalk, Mac};

verus! {

/// A filled mapping: who answered, for which address, and when (milliseconds
/// since the Unix epoch).
#[derive(Debug, Clone, Copy)]
pub struct AmtEntryCell {
    pub hw: Mac,
    pub atalk: Appletalk,
    pub set_at: i64,
}

/// One AppleTalk address that the table knows of, filled or still awaited.
#[derive(Debug, Clone, Copy)]
pub struct AmtEntry {
    pub atalk: Appletalk,
    pub cell: Option<AmtEntryCell>,
}

/// The Ethernet address an entry holds, if it is filled.
pub open spec fn entry_hw(e: AmtEntry) -> Option<Mac> {
    match e.cell {
        Some(c) => Some(c.hw),
        None => None,
    }
}

/// The AppleTalk side after gleaning `(h, t)`: `t` maps to `h`, and an entry
/// that `h` filled for another address is emptied.
pub open spec fn glean_atalk(
    av: Map<Appletalk, Option<Mac>>,
    hv: Map<Mac, Appletalk>,
    h: Mac,
    t: Appletalk,
) -> Map<Appletalk, Option<Mac>> {
    let cleared = if hv.contains_key(h) && hv[h] != t {
        av.insert(hv[h], None)
    } else {
        av
    };
    cleared.insert(t, Some(h))
}

/// The Ethernet side after gleaning `(h, t)`: `h` answers for `t`, and the
/// address that filled `t` before, if another, answers for nothing.
pub open spec fn glean_hw(
    av: Map<Appletalk, Option<Mac>>,
    hv: Map<Mac, Appletalk>,
    h: Mac,
    t: Appletalk,
) -> Map<Mac, Appletalk> {
    let cleared = if av.contains_key(t) && av[t] is Some && av[t].unwrap() != h {
        hv.remove(av[t].unwrap())
    } else {
        hv
    };
    cleared.insert(h, t)
}

/// The table. Each AppleTalk address has at most one entry and each Ethernet
/// address fills at most one entry; two ghost indexes name those entries.
///
/// Both lookups read one vector of entries, so the two sides cannot drift
/// apart, and the ghost indexes let the proofs state that they agree. Two
/// separate ordered maps would each hold a copy of every mapping; their keys
/// would have to be packed into integers for their specifications to apply,
/// and agreement between the maps would be one more invariant to keep across
/// every update. The table stays small (one entry per host on the local
/// network), so a linear scan costs little.
pub struct Amt {
    entries: Vec<AmtEntry>,
    by_atalk: Ghost<Map<Appletalk, int>>,
    by_hw: Ghost<Map<Mac, int>>,
}

impl Amt {
    pub closed spec fn wf(self) -> bool {
        let s = self.entries@;
        let ia = self.by_atalk@;
        let ih = self.by_hw@;
        &&& forall|i: int|
            0 <= i < s.len() ==> #[trigger] ia.contains_key(s[i].atalk) && ia[s[i].atalk] == i
        &&& forall|t: Appletalk|
            #[trigger] ia.contains_key(t) ==> 0 <= ia[t] < s.len() && s[ia[t]].atalk == t
        &&& forall|i: int|
            0 <= i < s.len() && (#[trigger] s[i]).cell is Some ==> {
                let c = s[i].cell.unwrap();
                c.atalk == s[i].atalk && ih.contains_key(c.hw) && ih[c.hw] == i
            }
        &&& forall|h: Mac|
            #[trigger] ih.contains_key(h) ==> 0 <= ih[h] < s.len() && entry_hw(s[ih[h]]) == Some(h)
    }

    /// AppleTalk address to the Ethernet address it maps to (`None` while awaited).
    pub closed spec fn atalk_view(self) -> Map<Appletalk, Option<Mac>> {
        Map::new(|t: Appletalk| self.by_atalk@.contains_key(t), |t: Appletalk| entry_hw(self.entries@[self.by_atalk@[t]]))
    }

    /// The filled mapping held for `t`, with its stamp.
    pub closed spec fn cell_of(self, t: Appletalk) -> Option<AmtEntryCell> {
        if self.by_atalk@.contains_key(t) {
            self.entries@[self.by_atalk@[t]].cell
        } else {
            None
        }
    }

    /// Ethernet address to the AppleTalk address it answered for.
    pub closed spec fn hw_view(self) -> Map<Mac, Appletalk> {
        Map::new(|h: Mac| self.by_hw@.contains_key(h), |h: Mac| self.entries@[self.by_hw@[h]].atalk)
    }

    /// An empty table.
    pub fn new() -> (r: Amt)
        ensures
            r.wf(),
            r.atalk_view() == Map::<Appletalk, Option<Mac>>::empty(),
            r.hw_view() == Map::<Mac, Appletalk>::empty(),
    {
        let r = Amt { entries: Vec::new(), by_atalk: Ghost(Map::empty()), by_hw: Ghost(Map::empty()) };
        assert(r.atalk_view() =~= Map::<Appletalk, Option<Mac>>::empty());
        assert(r.hw_view() =~= Map::<Mac, Appletalk>::empty());
        r
    }

    fn find_atalk(&self, t: Appletalk) -> (r: Option<usize>)
        requires
            self.wf(),
        ensures
            r is None <==> !self.by_atalk@.contains_key(t),
            r matches Some(i) ==> self.by_atalk@[t] == i && i < self.entries@.len(),
    {
        let mut i: usize = 0;
        while i < self.entries.len()
            invariant
                self.wf(),
                i <= self.entries@.len(),
                forall|j: int| 0 <= j < i ==> self.entries@[j].atalk != t,
            decreases self.entries@.len() - i,
        {
            if self.entries[i].atalk == t {
                return Some(i);
            }
            i = i + 1;
        }
        None
    }

    fn find_hw(&self, h: Mac) -> (r: Option<usize>)
        requires
            self.wf(),
        ensures
            r is None <==> !self.by_hw@.contains_key(h),
            r matches Some(i) ==> self.by_hw@[h] == i && i < self.entries@.len(),
    {
        let mut i: usize = 0;
        while i < self.entries.len()
            invariant
                self.wf(),
                i <= self.entries@.len(),
                forall|j: int| 0 <= j < i ==> entry_hw(#[trigger] self.entries@[j]) != Some(h),
            decreases self.entries@.len() - i,
        {
            match self.entries[i].cell {
                Some(c) => {
                    if c.hw == h {
                        return Some(i);
                    }
                },
                None => {},
            }
            i = i + 1;
        }
        None
    }

    /// The Ethernet address that `t` maps to, if it is known.
    pub fn lookup_atalk(&self, t: Appletalk) -> (r: Option<Mac>)
        requires
            self.wf(),
        ensures
            r == (if self.atalk_view().contains_key(t) { self.atalk_view()[t] } else { None }),
    {
        match self.find_atalk(t) {
            Some(i) => match self.entries[i].cell {
                Some(c) => Some(c.hw),
                None => None,
            },
            None => None,
        }
    }

    /// The AppleTalk address that `h` answered for, if any.
    pub fn lookup_hw(&self, h: Mac) -> (r: Option<Appletalk>)
        requires
            self.wf(),
        ensures
            r == (if self.hw_view().contains_key(h) { Some(self.hw_view()[h]) } else { None }),
    {
        match self.find_hw(h) {
            Some(i) => Some(self.entries[i].atalk),
            None => None,
        }
    }

    /// Makes sure that `t` has an entry, empty if it is new.
    pub fn ensure_entry(&mut self, t: Appletalk)
        requires
            old(self).wf(),
        ensures
            final(self).wf(),
            final(self).atalk_view() == (if old(self).atalk_view().contains_key(t) {
                old(self).atalk_view()
            } else {
                old(self).atalk_view().insert(t, None)
            }),
            final(self).hw_view() == old(self).hw_view(),
    {
        match self.find_atalk(t) {
            Some(_) => {},
            None => {
                let ghost n = self.entries@.len() as int;
                self.entries.push(AmtEntry { atalk: t, cell: None });
                self.by_atalk = Ghost(self.by_atalk@.insert(t, n));
                assert(self.atalk_view() =~= old(self).atalk_view().insert(t, None));
                assert(self.hw_view() =~= old(self).hw_view());
            },
        }
    }
    /// Records that `h` answers for `t`, stamped `now`; the last writer wins.
    pub fn insert(&mut self, h: Mac, t: Appletalk, now: i64)
        requires
            old(self).wf(),
        ensures
            final(self).wf(),
            final(self).atalk_view() == glean_atalk(old(self).atalk_view(), old(self).hw_view(), h, t),
            final(self).hw_view() == glean_hw(old(self).atalk_view(), old(self).hw_view(), h, t),
            final(self).cell_of(t) == Some(AmtEntryCell { hw: h, atalk: t, set_at: now }),
    {
        let ghost av0 = self.atalk_view();
        let ghost hv0 = self.hw_view();
        match self.find_hw(h) {
            Some(j) => {
                if !(self.entries[j].atalk == t) {
                    let a = self.entries[j].atalk;
                    self.entries[j] = AmtEntry { atalk: a, cell: None };
                    self.by_hw = Ghost(self.by_hw@.remove(h));
                    assert(self.atalk_view() =~= av0.insert(hv0[h], None));
                    assert(self.hw_view() =~= hv0.remove(h));
                }
            },
            None => {},
        }
        let ghost av1 = self.atalk_view();
        let ghost hv1 = self.hw_view();
        assert(self.wf());
        assert(av1.contains_key(t) == av0.contains_key(t));
        assert(av1.contains_key(t) ==> av1[t] == av0[t]);
        let cell = AmtEntryCell { hw: h, atalk: t, set_at: now };
        match self.find_atalk(t) {
            Some(i) => {
                match self.entries[i].cell {
                    Some(c) => {
                        if !(c.hw == h) {
                            self.by_hw = Ghost(self.by_hw@.remove(c.hw));
                        }
                    },
                    None => {},
                }
                self.entries[i] = AmtEntry { atalk: t, cell: Some(cell) };
                self.by_hw = Ghost(self.by_hw@.insert(h, i as int));
                assert(self.atalk_view() =~= av1.insert(t, Some(h)));
            },
            None => {
                let ghost n = self.entries@.len() as int;
                self.entries.push(AmtEntry { atalk: t, cell: Some(cell) });
                self.by_atalk = Ghost(self.by_atalk@.insert(t, n));
                self.by_hw = Ghost(self.by_hw@.insert(h, n));
                assert(self.atalk_view() =~= av1.insert(t, Some(h)));
            },
        }
        assert(self.atalk_view() =~= glean_atalk(av0, hv0, h, t));
        assert(self.hw_view() =~= glean_hw(av0, hv0, h, t));
    }
}

/// The two views agree: following an Ethernet address to its AppleTalk
/// address leads back to it, and so does the other way round.
pub proof fn lemma_amt_views_consistent(amt: Amt)
    requires
        amt.wf(),
    ensures
        forall|h: Mac|
            #[trigger] amt.hw_view().contains_key(h) ==> amt.atalk_view().contains_key(
                amt.hw_view()[h],
            ) && amt.atalk_view()[amt.hw_view()[h]] == Some(h),
        forall|t: Appletalk|
            #[trigger] amt.atalk_view().contains_key(t) && amt.atalk_view()[t] is Some
                ==> amt.hw_view().contains_key(amt.atalk_view()[t].unwrap())
                && amt.hw_view()[amt.atalk_view()[t].unwrap()] == t,
{
    assert forall|t: Appletalk|
        #[trigger] amt.atalk_view().contains_key(t) && amt.atalk_view()[t] is Some
            implies amt.hw_view().contains_key(amt.atalk_view()[t].unwrap())
            && amt.hw_view()[amt.atalk_view()[t].unwrap()] == t by {
        let i = amt.by_atalk@[t];
        assert(amt.entries@[i].cell is Some);
    }
}

/// After gleaning `(h, t)` each side finds the other.
pub proof fn lemma_glean_resolves(
    av: Map<Appletalk, Option<Mac>>,
    hv: Map<Mac, Appletalk>,
    h: Mac,
    t: Appletalk,
)
    ensures
        glean_atalk(av, hv, h, t).contains_key(t),
        glean_atalk(av, hv, h, t)[t] == Some(h),
        glean_hw(av, hv, h, t).contains_key(h),
        glean_hw(av, hv, h, t)[h] == t,
{
}

} // verus!
