use vstd::prelude::*;

use crate::pairs::{
    entry_for, keys_distinct, lemma_pairs_map_at, lemma_pairs_map_push, lemma_pairs_map_update,
    pairs_map,
};

verus! {

/// One jurisdiction's risk score.
pub struct RiskEntry {
    jurisdiction: String,
    score: u32,
}

/// Risk scores by jurisdiction code, one entry per jurisdiction.
pub struct RiskScoreTable {
    entries: Vec<RiskEntry>,
}

/// The (jurisdiction, score) pairs of a list of entries.
pub closed spec fn entry_pairs(s: Seq<RiskEntry>) -> Seq<(Seq<char>, u32)> {
    s.map_values(|e: RiskEntry| (e.jurisdiction@, e.score))
}

/// The (jurisdiction, score) pairs of a list of owned pairs.
pub open spec fn owned_pairs(s: Seq<(String, u32)>) -> Seq<(Seq<char>, u32)> {
    s.map_values(|e: (String, u32)| (e.0@, e.1))
}

impl RiskScoreTable {
    /// The entries as (jurisdiction, score) pairs, in storage order.
    pub closed spec fn pairs(&self) -> Seq<(Seq<char>, u32)> {
        entry_pairs(self.entries@)
    }

    /// No jurisdiction has two entries.
    pub closed spec fn wf(&self) -> bool {
        keys_distinct(self.pairs())
    }

    /// The score of each jurisdiction that has one.
    pub closed spec fn scores(&self) -> Map<Seq<char>, u32> {
        pairs_map(self.pairs())
    }

    pub fn new() -> (t: Self)
        ensures
            t.wf(),
            t.pairs() == Seq::<(Seq<char>, u32)>::empty(),
            t.scores() == Map::<Seq<char>, u32>::empty(),
    {
        let t = RiskScoreTable { entries: Vec::new() };
        assert(t.pairs() =~= Seq::<(Seq<char>, u32)>::empty());
        assert(t.scores() =~= Map::<Seq<char>, u32>::empty());
        t
    }

    /// The slot holding jurisdiction `j`, if any.
    fn find(&self, j: &String) -> (r: Option<usize>)
        requires
            self.wf(),
        ensures
            match r {
                Some(i) => entry_for(self.pairs(), i as int, j@),
                None => forall|i: int| !entry_for(self.pairs(), i, j@),
            },
    {
        let mut k: usize = 0;
        while k < self.entries.len()
            invariant
                k <= self.entries.len(),
                self.pairs().len() == self.entries.len(),
                forall|i: int| 0 <= i < k ==> !entry_for(self.pairs(), i, j@),
            decreases self.entries.len() - k,
        {
            assert(self.pairs()[k as int].0 == self.entries@[k as int].jurisdiction@);
            if self.entries[k].jurisdiction == *j {
                return Some(k);
            }
            k = k + 1;
        }
        None
    }

    /// The score recorded for jurisdiction `j`, if any.
    pub fn get(&self, j: &String) -> (r: Option<u32>)
        requires
            self.wf(),
        ensures
            r == (if self.scores().contains_key(j@) {
                Some(self.scores()[j@])
            } else {
                None
            }),
    {
        match self.find(j) {
            Some(i) => {
                proof {
                    lemma_pairs_map_at(self.pairs(), i as int);
                }
                Some(self.entries[i].score)
            },
            None => None,
        }
    }

    /// Records `score` for jurisdiction `j`, replacing any earlier score.
    pub fn set(&mut self, j: String, score: u32)
        requires
            old(self).wf(),
        ensures
            final(self).wf(),
            final(self).scores() == old(self).scores().insert(j@, score),
    {
        let ghost old_p = self.pairs();
        let ghost jv = j@;
        match self.find(&j) {
            Some(i) => {
                self.entries.set(i, RiskEntry { jurisdiction: j, score });
                proof {
                    assert(self.pairs() =~= old_p.update(i as int, (old_p[i as int].0, score)));
                    lemma_pairs_map_update(old_p, i as int, score);
                }
            },
            None => {
                self.entries.push(RiskEntry { jurisdiction: j, score });
                proof {
                    assert(self.pairs() =~= old_p.push((jv, score)));
                    lemma_pairs_map_push(old_p, jv, score);
                }
            },
        }
    }

    /// Records `score` for jurisdiction `j` unless `j` already has a score;
    /// returns whether it did.
    pub fn insert_new(&mut self, j: String, score: u32) -> (added: bool)
        requires
            old(self).wf(),
        ensures
            final(self).wf(),
            added == !old(self).scores().contains_key(j@),
            added ==> final(self).pairs() == old(self).pairs().push((j@, score)),
            !added ==> final(self).pairs() == old(self).pairs(),
            final(self).scores() == (if added {
                old(self).scores().insert(j@, score)
            } else {
                old(self).scores()
            }),
    {
        let ghost old_p = self.pairs();
        let ghost jv = j@;
        match self.find(&j) {
            Some(i) => {
                proof {
                    lemma_pairs_map_at(old_p, i as int);
                }
                false
            },
            None => {
                self.entries.push(RiskEntry { jurisdiction: j, score });
                proof {
                    assert(self.pairs() =~= old_p.push((jv, score)));
                    lemma_pairs_map_push(old_p, jv, score);
                }
                true
            },
        }
    }

    /// The table holding the given (jurisdiction, score) pairs in their
    /// order, or `None` where a jurisdiction occurs twice.
    pub fn from_pairs(v: &Vec<(String, u32)>) -> (r: Option<Self>)
        ensures
            r is Some <==> keys_distinct(owned_pairs(v@)),
            r matches Some(t) ==> t.wf() && t.pairs() == owned_pairs(v@) && t.scores() == pairs_map(
                owned_pairs(v@),
            ),
    {
        let mut t = RiskScoreTable::new();
        let mut k: usize = 0;
        proof {
            assert(t.pairs() =~= owned_pairs(v@).subrange(0, 0));
        }
        while k < v.len()
            invariant
                k <= v.len(),
                t.wf(),
                t.pairs() == owned_pairs(v@).subrange(0, k as int),
            decreases v.len() - k,
        {
            let ghost prefix = t.pairs();
            let j = v[k].0.clone();
            if !t.insert_new(j, v[k].1) {
                proof {
                    let jv = v@[k as int].0@;
                    let c = choose|c: int| entry_for(prefix, c, jv);
                    assert(owned_pairs(v@)[c].0 == owned_pairs(v@)[k as int].0);
                }
                return None;
            }
            k = k + 1;
            assert(t.pairs() =~= owned_pairs(v@).subrange(0, k as int));
        }
        assert(owned_pairs(v@).subrange(0, k as int) =~= owned_pairs(v@));
        Some(t)
    }

    /// The entries as owned (jurisdiction, score) pairs, in storage order.
    pub fn to_pairs(&self) -> (r: Vec<(String, u32)>)
        requires
            self.wf(),
        ensures
            owned_pairs(r@) == self.pairs(),
            keys_distinct(owned_pairs(r@)),
            pairs_map(owned_pairs(r@)) == self.scores(),
    {
        let mut out: Vec<(String, u32)> = Vec::new();
        let mut k: usize = 0;
        while k < self.entries.len()
            invariant
                k <= self.entries.len(),
                owned_pairs(out@) == entry_pairs(self.entries@).subrange(0, k as int),
            decreases self.entries.len() - k,
        {
            let ghost before = out@;
            out.push((self.entries[k].jurisdiction.clone(), self.entries[k].score));
            proof {
                assert(owned_pairs(out@) =~= owned_pairs(before).push(
                    (self.entries@[k as int].jurisdiction@, self.entries@[k as int].score),
                ));
            }
            k = k + 1;
            assert(owned_pairs(out@) =~= entry_pairs(self.entries@).subrange(0, k as int));
        }
        assert(entry_pairs(self.entries@).subrange(0, k as int) =~= entry_pairs(self.entries@));
        out
    }
}

} // verus!
