//! A small keyed table: an ordered list of slots whose keys are unique,
//! seen as a map from key to value.

use vstd::prelude::*;

verus! {

/// A value that can be copied out of a table with its view kept.
pub trait Duplicate: View + Sized {
    fn duplicate(&self) -> (r: Self)
        ensures
            r@ == self@,
    ;
}

impl Duplicate for String {
    fn duplicate(&self) -> (r: String)
        ensures
            r@ == self@,
    {
        self.clone()
    }
}

/// One key with its value.
pub struct Slot<V> {
    pub key: String,
    pub value: V,
}

/// The map that a list of slots stands for; a later slot wins, although in
/// a well-formed table no key occurs twice.
pub open spec fn slots_map<V: View>(s: Seq<Slot<V>>) -> Map<Seq<char>, V::V>
    decreases s.len(),
{
    if s.len() == 0 {
        Map::empty()
    } else {
        slots_map(s.drop_last()).insert(s.last().key@, s.last().value@)
    }
}

pub open spec fn keys_unique<V>(s: Seq<Slot<V>>) -> bool {
    forall|i: int, j: int|
        0 <= i < s.len() && 0 <= j < s.len() && i != j ==> s[i].key@ != s[j].key@
}

/// What the map of a list of slots with unique keys holds: exactly the keys
/// of the slots, each with its slot's value.
pub proof fn lemma_slots_map<V: View>(s: Seq<Slot<V>>)
    requires
        keys_unique(s),
    ensures
        forall|k: Seq<char>|
            slots_map(s).contains_key(k) <==> exists|i: int| 0 <= i < s.len() && s[i].key@ == k,
        forall|i: int| 0 <= i < s.len() ==> slots_map(s)[#[trigger] s[i].key@] == s[i].value@,
    decreases s.len(),
{
    if s.len() > 0 {
        let t = s.drop_last();
        assert(keys_unique(t));
        lemma_slots_map(t);
        assert(slots_map(s) == slots_map(t).insert(s.last().key@, s.last().value@));
        assert forall|k: Seq<char>|
            slots_map(s).contains_key(k) <==> exists|i: int| 0 <= i < s.len() && s[i].key@ == k by {
            if slots_map(s).contains_key(k) && k != s.last().key@ {
                assert(slots_map(t).contains_key(k));
                let i = choose|i: int| 0 <= i < t.len() && t[i].key@ == k;
                assert(t[i] == s[i]);
                assert(s[i].key@ == k);
            }
            if slots_map(s).contains_key(k) && k == s.last().key@ {
                assert(s[s.len() - 1].key@ == k);
            }
            if exists|i: int| 0 <= i < s.len() && s[i].key@ == k {
                let i = choose|i: int| 0 <= i < s.len() && s[i].key@ == k;
                if i < t.len() {
                    assert(t[i].key@ == k);
                }
            }
        }
        assert forall|i: int| 0 <= i < s.len() implies slots_map(s)[#[trigger] s[i].key@]
            == s[i].value@ by {
            if i < t.len() {
                assert(t[i] == s[i]);
                assert(s[i].key@ != s.last().key@);
            }
        }
    }
}

/// A keyed table in which no key occurs twice.
pub struct Table<V> {
    slots: Vec<Slot<V>>,
}

impl<V: View> View for Table<V> {
    type V = Map<Seq<char>, V::V>;

    closed spec fn view(&self) -> Map<Seq<char>, V::V> {
        slots_map(self.slots@)
    }
}

impl<V> Table<V> {
    #[verifier::type_invariant]
    spec fn wf(&self) -> bool {
        keys_unique(self.slots@)
    }
}

impl<V: View> Table<V> {
    pub fn new() -> (r: Self)
        ensures
            r@ == Map::<Seq<char>, V::V>::empty(),
    {
        Table { slots: Vec::new() }
    }

    pub fn len(&self) -> (r: usize)
        ensures
            r == self@.dom().len(),
    {
        proof { use_type_invariant(self); }
        proof { self.lemma_dom_len(); }
        self.slots.len()
    }

    proof fn lemma_dom_len(&self)
        requires
            self.wf(),
        ensures
            self@.dom().len() == self.slots@.len(),
            self@.dom().finite(),
        decreases self.slots@.len(),
    {
        lemma_len_of(self.slots@);
    }

    /// The index of the slot holding `k`, if any.
    fn find(&self, k: &String) -> (r: Option<usize>)
        ensures
            match r {
                Some(i) => i < self.slots@.len() && self.slots@[i as int].key@ == k@,
                None => !self@.contains_key(k@),
            },
    {
        proof { use_type_invariant(self); }
        proof { lemma_slots_map(self.slots@); }
        let mut i: usize = 0;
        while i < self.slots.len()
            invariant
                i <= self.slots@.len(),
                forall|j: int| 0 <= j < i ==> self.slots@[j].key@ != k@,
            decreases self.slots@.len() - i,
        {
            if self.slots[i].key == *k {
                return Some(i);
            }
            i = i + 1;
        }
        None
    }

    pub fn contains(&self, k: &String) -> (r: bool)
        ensures
            r == self@.contains_key(k@),
    {
        proof { use_type_invariant(self); }
        proof { lemma_slots_map(self.slots@); }
        self.find(k).is_some()
    }

    pub fn get(&self, k: &String) -> (r: Option<&V>)
        ensures
            match r {
                Some(v) => self@.contains_key(k@) && v@ == self@[k@],
                None => !self@.contains_key(k@),
            },
    {
        proof { use_type_invariant(self); }
        proof { lemma_slots_map(self.slots@); }
        match self.find(k) {
            Some(i) => Some(&self.slots[i].value),
            None => None,
        }
    }

    /// Sets `k` to `v`: in place where `k` is present, else as a new last slot.
    pub fn insert(&mut self, k: String, v: V)
        ensures
            final(self)@ == old(self)@.insert(k@, v@),
    {
        proof { use_type_invariant(&*self); }
        proof { lemma_slots_map(self.slots@); }
        let found = self.find(&k);
        let mut slots: Vec<Slot<V>> = Vec::new();
        std::mem::swap(&mut slots, &mut self.slots);
        match found {
            Some(i) => {
                let ghost before = slots@;
                let ghost kk = k@;
                let ghost vv = v@;
                slots.set(i, Slot { key: k, value: v });
                let ghost after = slots@;
                assert(keys_unique(after)) by {
                    assert forall|a: int, b: int|
                        0 <= a < after.len() && 0 <= b < after.len() && a != b implies after[a].key@
                        != after[b].key@ by {
                        if a != i && b != i {
                            assert(after[a] == before[a] && after[b] == before[b]);
                        } else if a == i {
                            assert(after[b] == before[b]);
                            assert(before[i as int].key@ == kk);
                        } else {
                            assert(after[a] == before[a]);
                            assert(before[i as int].key@ == kk);
                        }
                    }
                }
                proof { lemma_slots_map(after); }
                assert(slots_map(after) =~= slots_map(before).insert(kk, vv)) by {
                    assert forall|x: Seq<char>| #[trigger]
                        slots_map(after).contains_key(x) == slots_map(before).insert(
                            kk,
                            vv,
                        ).contains_key(x) by {
                        if exists|j: int| 0 <= j < before.len() && before[j].key@ == x {
                            let j = choose|j: int| 0 <= j < before.len() && before[j].key@ == x;
                            if j != i {
                                assert(after[j] == before[j]);
                            }
                            assert(after[i as int].key@ == kk);
                        }
                        if exists|j: int| 0 <= j < after.len() && after[j].key@ == x {
                            let j = choose|j: int| 0 <= j < after.len() && after[j].key@ == x;
                            if j != i {
                                assert(after[j] == before[j]);
                            }
                        }
                    }
                    assert forall|x: Seq<char>| #[trigger]
                        slots_map(after).contains_key(x) implies slots_map(after)[x]
                        == slots_map(before).insert(kk, vv)[x] by {
                        let j = choose|j: int| 0 <= j < after.len() && after[j].key@ == x;
                        if j != i {
                            assert(after[j] == before[j]);
                        } else {
                            assert(after[i as int].value@ == vv);
                        }
                    }
                }
                self.slots = slots;
            },
            None => {
                let ghost before = slots@;
                slots.push(Slot { key: k, value: v });
                assert(slots@.drop_last() =~= before);
                assert(keys_unique(slots@)) by {
                    assert forall|a: int| 0 <= a < before.len() implies before[a].key@ != k@ by {
                        assert(slots_map(before).contains_key(before[a].key@));
                    }
                }
                self.slots = slots;
            },
        }
    }

    /// Removes `k` and hands back its value, if it was present.
    pub fn remove(&mut self, k: &String) -> (r: Option<V>)
        ensures
            final(self)@ == old(self)@.remove(k@),
            match r {
                Some(v) => old(self)@.contains_key(k@) && v@ == old(self)@[k@],
                None => !old(self)@.contains_key(k@),
            },
    {
        proof { use_type_invariant(&*self); }
        proof { lemma_slots_map(self.slots@); }
        let found = self.find(k);
        let mut slots: Vec<Slot<V>> = Vec::new();
        std::mem::swap(&mut slots, &mut self.slots);
        match found {
            Some(i) => {
                let ghost before = slots@;
                let slot = slots.remove(i);
                let ghost after = slots@;
                assert(keys_unique(after)) by {
                    assert forall|a: int, b: int|
                        0 <= a < after.len() && 0 <= b < after.len() && a != b implies after[a].key@
                        != after[b].key@ by {
                        let a0 = if a < i { a } else { a + 1 };
                        let b0 = if b < i { b } else { b + 1 };
                        assert(after[a] == before[a0] && after[b] == before[b0]);
                    }
                }
                proof { lemma_slots_map(after); }
                assert(slots_map(after) =~= slots_map(before).remove(k@)) by {
                    assert forall|x: Seq<char>| #[trigger]
                        slots_map(after).contains_key(x) == slots_map(before).remove(
                            k@,
                        ).contains_key(x) by {
                        if exists|j: int| 0 <= j < before.len() && before[j].key@ == x && x != k@ {
                            let j = choose|j: int|
                                0 <= j < before.len() && before[j].key@ == x && x != k@;
                            let j1 = if j < i { j } else { j - 1 };
                            assert(after[j1] == before[j]);
                        }
                        if exists|j: int| 0 <= j < after.len() && after[j].key@ == x {
                            let j = choose|j: int| 0 <= j < after.len() && after[j].key@ == x;
                            let j0 = if j < i { j } else { j + 1 };
                            assert(after[j] == before[j0]);
                        }
                    }
                    assert forall|x: Seq<char>| #[trigger]
                        slots_map(after).contains_key(x) implies slots_map(after)[x]
                        == slots_map(before).remove(k@)[x] by {
                        let j = choose|j: int| 0 <= j < after.len() && after[j].key@ == x;
                        let j0 = if j < i { j } else { j + 1 };
                        assert(after[j] == before[j0]);
                    }
                }
                self.slots = slots;
                Some(slot.value)
            },
            None => {
                assert(slots_map(slots@).remove(k@) =~= slots_map(slots@));
                self.slots = slots;
                None
            },
        }
    }

    /// The keys in their order of insertion.
    pub fn keys(&self) -> (r: Vec<String>)
        ensures
            r@.len() == self@.dom().len(),
            forall|k: Seq<char>|
                self@.contains_key(k) <==> exists|i: int| 0 <= i < r@.len() && #[trigger] r@[i]@ == k,
    {
        proof {
            use_type_invariant(self);
            lemma_slots_map(self.slots@);
            self.lemma_dom_len();
        }
        let mut out: Vec<String> = Vec::new();
        let mut i: usize = 0;
        while i < self.slots.len()
            invariant
                i <= self.slots@.len(),
                out@.len() == i,
                forall|j: int| 0 <= j < i ==> #[trigger] out@[j]@ == self.slots@[j].key@,
            decreases self.slots@.len() - i,
        {
            out.push(self.slots[i].key.clone());
            i = i + 1;
        }
        proof {
            assert forall|k: Seq<char>|
                self@.contains_key(k) <==> exists|i: int| 0 <= i < out@.len() && #[trigger] out@[i]@ == k by {
                if self@.contains_key(k) {
                    let i = choose|i: int| 0 <= i < self.slots@.len() && self.slots@[i].key@ == k;
                    assert(out@[i]@ == k);
                }
            }
        }
        out
    }
}

impl<V: View + Duplicate> Duplicate for Table<V> {
    fn duplicate(&self) -> (r: Self)
        ensures
            r@ == self@,
    {
        proof { use_type_invariant(self); }
        let mut slots: Vec<Slot<V>> = Vec::new();
        let mut i: usize = 0;
        while i < self.slots.len()
            invariant
                i <= self.slots@.len(),
                slots@.len() == i,
                forall|j: int|
                    0 <= j < i ==> #[trigger] slots@[j].key@ == self.slots@[j].key@
                        && slots@[j].value@ == self.slots@[j].value@,
            decreases self.slots@.len() - i,
        {
            slots.push(Slot { key: self.slots[i].key.clone(), value: self.slots[i].value.duplicate() });
            i = i + 1;
        }
        proof {
            lemma_same_map(slots@, self.slots@);
            assert(keys_unique(slots@)) by {
                assert forall|a: int, b: int|
                    0 <= a < slots@.len() && 0 <= b < slots@.len() && a != b implies slots@[a].key@
                    != slots@[b].key@ by {
                    assert(slots@[a].key@ == self.slots@[a].key@);
                    assert(slots@[b].key@ == self.slots@[b].key@);
                }
            }
        }
        Table { slots }
    }
}

proof fn lemma_same_map<V: View>(a: Seq<Slot<V>>, b: Seq<Slot<V>>)
    requires
        a.len() == b.len(),
        forall|j: int|
            0 <= j < a.len() ==> #[trigger] a[j].key@ == b[j].key@ && a[j].value@ == b[j].value@,
    ensures
        slots_map(a) == slots_map(b),
    decreases a.len(),
{
    if a.len() > 0 {
        lemma_same_map(a.drop_last(), b.drop_last());
    }
}

proof fn lemma_len_of<V: View>(s: Seq<Slot<V>>)
    requires
        keys_unique(s),
    ensures
        slots_map(s).dom().len() == s.len(),
        slots_map(s).dom().finite(),
    decreases s.len(),
{
    if s.len() > 0 {
        let t = s.drop_last();
        assert(keys_unique(t));
        lemma_len_of(t);
        lemma_slots_map(t);
        assert(!slots_map(t).contains_key(s.last().key@)) by {
            if slots_map(t).contains_key(s.last().key@) {
                let i = choose|i: int| 0 <= i < t.len() && t[i].key@ == s.last().key@;
                assert(s[i].key@ == s[s.len() - 1].key@);
            }
        }
    }
}

} // verus!
