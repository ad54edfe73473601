//! Storage entries of one kind, found by their key.
use vstd::prelude::*;
use crate::keys::{DataKey2, KeyView};

verus! {

/// Entries in the order in which their keys were first written. No key occurs
/// twice.
#[derive(Debug)]
pub struct Entries<V> {
    items: Vec<(DataKey2, V)>,
}

spec fn holds_key<V>(items: Seq<(DataKey2, V)>, key: KeyView, i: int) -> bool {
    0 <= i < items.len() && items[i].0@ == key
}

spec fn distinct_keys<V>(items: Seq<(DataKey2, V)>) -> bool {
    forall|i: int, j: int|
        0 <= i < items.len() && 0 <= j < items.len() && items[i].0@ == items[j].0@ ==> i == j
}

spec fn as_map<V>(items: Seq<(DataKey2, V)>) -> Map<KeyView, V> {
    Map::new(
        |key: KeyView| exists|i: int| holds_key(items, key, i),
        |key: KeyView| items[choose|i: int| holds_key(items, key, i)].1,
    )
}

impl<V> View for Entries<V> {
    type V = Map<KeyView, V>;

    closed spec fn view(&self) -> Map<KeyView, V> {
        as_map(self.items@)
    }
}

impl<V> Entries<V> {
    #[verifier::type_invariant]
    spec fn keys_are_distinct(self) -> bool {
        distinct_keys(self.items@)
    }
}

impl<V: Copy> Entries<V> {
    /// No entries.
    pub fn new() -> (entries: Self)
        ensures
            entries@ == Map::<KeyView, V>::empty(),
    {
        let items: Vec<(DataKey2, V)> = Vec::new();
        proof {
            assert(as_map(items@) =~= Map::<KeyView, V>::empty());
        }
        Entries { items }
    }

    /// The position of the entry of `key`.
    fn position(items: &Vec<(DataKey2, V)>, key: &DataKey2) -> (found: Option<usize>)
        ensures
            match found {
                Some(i) => holds_key(items@, key@, i as int),
                None => forall|i: int| !holds_key(items@, key@, i),
            },
    {
        let mut i: usize = 0;
        while i < items.len()
            invariant
                i <= items.len(),
                forall|j: int| 0 <= j < i ==> !holds_key(items@, key@, j),
            decreases items.len() - i,
        {
            if items[i].0.same(key) {
                return Some(i);
            }
            i += 1;
        }
        None
    }

    /// The value stored under `key`, if there is one.
    pub fn get(&self, key: &DataKey2) -> (value: Option<V>)
        ensures
            value == self@.get(key@),
    {
        proof {
            use_type_invariant(self);
        }
        match Self::position(&self.items, key) {
            Some(i) => {
                assert(holds_key(self.items@, key@, i as int));
                Some(self.items[i].1)
            },
            None => None,
        }
    }

    /// Stores `value` under `key`, in place of what was there.
    pub fn set(&mut self, key: DataKey2, value: V)
        ensures
            final(self)@ == old(self)@.insert(key@, value),
    {
        proof {
            use_type_invariant(&*self);
        }
        let mut items: Vec<(DataKey2, V)> = Vec::new();
        std::mem::swap(&mut items, &mut self.items);
        let ghost before = items@;
        match Self::position(&items, &key) {
            Some(i) => {
                let ghost at = i as int;
                items.set(i, (key, value));
                proof {
                    assert forall|j: int, k: KeyView| holds_key(before, k, j) == holds_key(
                        items@,
                        k,
                        j,
                    ) by {}
                    assert(holds_key(items@, key@, at));
                }
            },
            None => {
                items.push((key, value));
                proof {
                    assert(holds_key(items@, key@, before.len() as int));
                    assert forall|j: int, k: KeyView| holds_key(before, k, j) implies holds_key(
                        items@,
                        k,
                        j,
                    ) by {}
                    assert forall|j: int| 0 <= j < before.len() implies before[j].0@ != key@ by {
                        assert(!holds_key(before, key@, j));
                    }
                }
            },
        }
        proof {
            lemma_insert(before, items@, key@, value);
        }
        self.items = items;
    }
}

/// Where two lists hold the same entries but for that of `key`, their maps
/// differ in that entry alone.
proof fn lemma_insert<V>(
    before: Seq<(DataKey2, V)>,
    after: Seq<(DataKey2, V)>,
    key: KeyView,
    value: V,
)
    requires
        distinct_keys(before),
        distinct_keys(after),
        exists|i: int| holds_key(after, key, i) && after[i].1 == value,
        forall|k: KeyView, i: int|
            k != key ==> (#[trigger] holds_key(before, k, i) <==> holds_key(after, k, i)),
        forall|i: int|
            0 <= i < before.len() && before[i].0@ != key ==> i < after.len() && after[i].1
                == before[i].1,
    ensures
        as_map(after) == as_map(before).insert(key, value),
{
    let a = as_map(after);
    let b = as_map(before).insert(key, value);
    assert forall|k: KeyView| a.contains_key(k) <==> b.contains_key(k) by {
        if k != key {
            if a.contains_key(k) {
                let i = choose|i: int| holds_key(after, k, i);
                assert(holds_key(before, k, i));
            }
            if b.contains_key(k) {
                let i = choose|i: int| holds_key(before, k, i);
                assert(holds_key(after, k, i));
            }
        }
    }
    assert forall|k: KeyView| a.contains_key(k) implies a[k] == b[k] by {
        let i = choose|i: int| holds_key(after, k, i);
        if k != key {
            let j = choose|j: int| holds_key(before, k, j);
            assert(holds_key(before, k, i));
            assert(i == j);
        } else {
            let j = choose|j: int| holds_key(after, key, j) && after[j].1 == value;
            assert(i == j);
        }
    }
    assert(a =~= b);
}

} // verus!
