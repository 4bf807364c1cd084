use std::collections::HashMap;
use vstd::prelude::*;

verus! {

broadcast use vstd::std_specs::hash::group_hash_axioms;

/// The slice of a listing that page `page` of `page_size` entries covers:
/// entries `page * page_size` up to `(page + 1) * page_size`, cut at the end.
pub open spec fn page_of(s: Seq<u64>, page: u32, page_size: u32) -> Seq<u64> {
    let start = page as int * page_size as int;
    if start >= s.len() {
        Seq::empty()
    } else if start + page_size >= s.len() {
        s.subrange(start, s.len() as int)
    } else {
        s.subrange(start, start + page_size)
    }
}

/// `s` with `a` taken out: the last entry moves into the slot `a` held.
pub open spec fn without(s: Seq<u64>, a: u64) -> Seq<u64> {
    let i = choose|i: int| 0 <= i < s.len() && s[i] == a;
    s.update(i, s.last()).drop_last()
}

/// A set of account ids listed in insertion order, with a position index so
/// that membership is one lookup. Removing an entry moves the last entry into
/// the freed slot, so the listing stays dense.
pub struct AddressSet {
    entries: Vec<u64>,
    positions: HashMap<u64, usize>,
}

impl View for AddressSet {
    type V = Seq<u64>;

    closed spec fn view(&self) -> Seq<u64> {
        self.entries@
    }
}

impl AddressSet {
    /// The listing holds no id twice, and the index maps each listed id,
    /// and only those, to its slot.
    pub closed spec fn wf(&self) -> bool {
        &&& self.entries@.no_duplicates()
        &&& forall|a: u64| #[trigger]
            self.positions@.contains_key(a) <==> self.entries@.contains(a)
        &&& forall|i: int|
            0 <= i < self.entries@.len() ==> self.positions@[#[trigger] self.entries@[i]] == i
    }

    pub fn new() -> (s: Self)
        ensures
            s.wf(),
            s@ == Seq::<u64>::empty(),
    {
        AddressSet { entries: Vec::new(), positions: HashMap::new() }
    }

    pub fn len(&self) -> (n: usize)
        ensures
            n == self@.len(),
    {
        self.entries.len()
    }

    pub fn contains(&self, a: u64) -> (r: bool)
        requires
            self.wf(),
        ensures
            r == self@.contains(a),
    {
        self.positions.contains_key(&a)
    }

    /// Adds `a` at the end of the listing unless it is already there.
    pub fn insert(&mut self, a: u64) -> (inserted: bool)
        requires
            old(self).wf(),
        ensures
            final(self).wf(),
            inserted == !old(self)@.contains(a),
            final(self)@ == (if inserted { old(self)@.push(a) } else { old(self)@ }),
    {
        if self.positions.contains_key(&a) {
            return false;
        }
        let n = self.entries.len();
        let ghost old_entries = self.entries@;
        self.entries.push(a);
        self.positions.insert(a, n);
        proof {
            assert(self.entries@ == old_entries.push(a));
            assert forall|i: int, j: int|
                0 <= i < self.entries@.len() && 0 <= j < self.entries@.len() && i != j implies
                self.entries@[i] != self.entries@[j] by {
                if i < old_entries.len() && j < old_entries.len() {
                    assert(old_entries[i] != old_entries[j]);
                } else if i < old_entries.len() {
                    assert(old_entries.contains(old_entries[i]));
                } else if j < old_entries.len() {
                    assert(old_entries.contains(old_entries[j]));
                }
            }
            assert forall|b: u64| #[trigger]
                self.positions@.contains_key(b) <==> self.entries@.contains(b) by {
                if self.entries@.contains(b) && b != a {
                    let k = choose|k: int| 0 <= k < self.entries@.len() && self.entries@[k] == b;
                    assert(old_entries[k] == b);
                }
                if old_entries.contains(b) {
                    let k = choose|k: int| 0 <= k < old_entries.len() && old_entries[k] == b;
                    assert(self.entries@[k] == b);
                }
                if b == a {
                    assert(self.entries@[n as int] == a);
                }
            }
            assert forall|i: int| 0 <= i < self.entries@.len() implies
                self.positions@[#[trigger] self.entries@[i]] == i by {
                if i < old_entries.len() {
                    assert(old_entries.contains(old_entries[i]));
                }
            }
        }
        true
    }

    /// Removes `a` if it is listed; the last entry takes its slot.
    pub fn remove(&mut self, a: u64) -> (removed: bool)
        requires
            old(self).wf(),
        ensures
            final(self).wf(),
            removed == old(self)@.contains(a),
            !removed ==> final(self)@ == old(self)@,
            removed ==> final(self)@ == without(old(self)@, a),
    {
        if !self.positions.contains_key(&a) {
            return false;
        }
        let i = *self.positions.get(&a).unwrap();
        let ghost old_entries = self.entries@;
        let ghost old_positions = self.positions@;
        proof {
            let k = choose|k: int| 0 <= k < old_entries.len() && old_entries[k] == a;
            assert(old_positions[old_entries[k]] == k);
        }
        let last_index = self.entries.len() - 1;
        let last = self.entries[last_index];
        self.entries.swap_remove(i);
        if i < last_index {
            self.positions.insert(last, i);
        }
        self.positions.remove(&a);
        proof {
            let new_entries = old_entries.update(i as int, last).drop_last();
            assert(self.entries@ == new_entries);
            assert(old_entries[i as int] == a);
            assert forall|p: int, q: int|
                0 <= p < new_entries.len() && 0 <= q < new_entries.len() && p != q implies
                new_entries[p] != new_entries[q] by {
                if p == i {
                    assert(old_entries[last_index as int] != old_entries[q]);
                } else if q == i {
                    assert(old_entries[last_index as int] != old_entries[p]);
                } else {
                    assert(old_entries[p] != old_entries[q]);
                }
            }
            assert forall|b: u64| #[trigger]
                self.positions@.contains_key(b) <==> self.entries@.contains(b) by {
                if self.entries@.contains(b) {
                    let k = choose|k: int| 0 <= k < new_entries.len() && new_entries[k] == b;
                    if k == i {
                        assert(old_entries[last_index as int] == b);
                        assert(old_entries.contains(b));
                    } else {
                        assert(old_entries[k] == b);
                        assert(old_entries.contains(b));
                    }
                    assert(b != a);
                }
                if self.positions@.contains_key(b) {
                    assert(b != a);
                    if b == last {
                        assert(new_entries[i as int] == b);
                    } else {
                        assert(old_positions.contains_key(b));
                        assert(old_entries.contains(b));
                        let k = choose|k: int| 0 <= k < old_entries.len() && old_entries[k] == b;
                        assert(k != i);
                        assert(k != last_index);
                        assert(new_entries[k] == b);
                    }
                }
            }
            assert forall|p: int| 0 <= p < self.entries@.len() implies
                self.positions@[#[trigger] self.entries@[p]] == p by {
                if p == i {
                    assert(new_entries[p] == last);
                } else {
                    assert(new_entries[p] == old_entries[p]);
                    assert(old_entries[p] != a);
                    assert(old_entries[p] != old_entries[last_index as int]);
                }
            }
            assert(0 <= i < old_entries.len() && old_entries[i as int] == a
                && self.entries@ == old_entries.update(i as int, old_entries.last()).drop_last());
            let c = choose|c: int| 0 <= c < old_entries.len() && old_entries[c] == a;
            assert(old_entries[c] == old_entries[i as int]);
            assert(c == i);
            assert(old(self)@ == old_entries);
            assert(self@ == self.entries@);
        }
        true
    }

    /// The set listing `v` in its order, or `None` where `v` holds an id twice.
    pub fn from_vec(v: &Vec<u64>) -> (r: Option<Self>)
        ensures
            r is Some <==> v@.no_duplicates(),
            r matches Some(s) ==> s.wf() && s@ == v@,
    {
        let mut s = AddressSet::new();
        let mut k: usize = 0;
        while k < v.len()
            invariant
                k <= v.len(),
                s.wf(),
                s@ == v@.subrange(0, k as int),
            decreases v.len() - k,
        {
            let ghost prefix = s@;
            if !s.insert(v[k]) {
                proof {
                    let j = choose|j: int| 0 <= j < prefix.len() && prefix[j] == v@[k as int];
                    assert(v@[j] == v@[k as int]);
                }
                return None;
            }
            k = k + 1;
            assert(s@ =~= v@.subrange(0, k as int));
        }
        assert(v@.subrange(0, k as int) =~= v@);
        Some(s)
    }

    /// The whole listing.
    pub fn to_vec(&self) -> (r: Vec<u64>)
        ensures
            r@ == self@,
    {
        self.entries.clone()
    }

    /// Page `page` of the listing, `page_size` entries to a page.
    pub fn page(&self, page: u32, page_size: u32) -> (r: Vec<u64>)
        ensures
            r@ == page_of(self@, page, page_size),
    {
        let len = self.entries.len();
        proof {
            let (p, z) = (page as int, page_size as int);
            assert(p * z <= 0xffff_ffff * 0xffff_ffff) by (nonlinear_arith)
                requires
                    0 <= p <= 0xffff_ffff,
                    0 <= z <= 0xffff_ffff,
            ;
        }
        let start_wide: u64 = (page as u64) * (page_size as u64);
        let mut out: Vec<u64> = Vec::new();
        if start_wide >= len as u64 {
            return out;
        }
        let start = start_wide as usize;
        let end: usize = if start_wide + (page_size as u64) >= len as u64 {
            len
        } else {
            (start_wide + page_size as u64) as usize
        };
        let mut k = start;
        while k < end
            invariant
                start <= k <= end <= len == self.entries@.len(),
                out@ == self.entries@.subrange(start as int, k as int),
            decreases end - k,
        {
            out.push(self.entries[k]);
            k = k + 1;
            assert(out@ == self.entries@.subrange(start as int, k as int));
        }
        out
    }
}

} // verus!
