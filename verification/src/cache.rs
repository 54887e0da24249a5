//! Values kept by key until they are no longer of use: rows of a list, framebuffers of a surface.
use std::collections::HashMap;
use vstd::prelude::*;
#[allow(unused_imports)]
use vstd::std_specs::iter::IteratorSpec;

verus! {

/// Values by key.
pub struct KeyedCache<T> {
    entries: HashMap<u64, T>,
}

impl<T> View for KeyedCache<T> {
    type V = Map<u64, T>;

    closed spec fn view(&self) -> Map<u64, T> {
        self.entries@
    }
}

/// `keys` are those of the set, each once.
pub open spec fn enumerates(keys: Seq<u64>, set: Set<u64>) -> bool {
    keys.no_duplicates() && forall|key: u64| keys.contains(key) <==> set.contains(key)
}

/// The keys from 64 before `start` to 64 after `end`.
pub open spec fn in_window(key: u64, start: u64, end: u64) -> bool {
    key + 64 >= start && key < end + 64
}

impl<T> KeyedCache<T> {
    /// A cache without values.
    pub fn new() -> (r: KeyedCache<T>)
        ensures
            r@ == Map::<u64, T>::empty(),
    {
        KeyedCache { entries: HashMap::new() }
    }

    /// The value of a key.
    pub fn get(&self, key: u64) -> (r: Option<&T>)
        ensures
            match r {
                Some(value) => self@.dom().contains(key) && self@[key] == *value,
                None => !self@.dom().contains(key),
            },
    {
        broadcast use vstd::std_specs::hash::group_hash_axioms;

        self.entries.get(&key)
    }

    /// Adds a value under a key that is not there yet.
    pub fn insert(&mut self, key: u64, value: T)
        requires
            !old(self)@.dom().contains(key),
        ensures
            final(self)@ == old(self)@.insert(key, value),
    {
        broadcast use vstd::std_specs::hash::group_hash_axioms;

        self.entries.insert(key, value);
    }

    /// The keys, in any order.
    fn held(&self) -> (r: Vec<u64>)
        ensures
            enumerates(r@, self@.dom()),
    {
        broadcast use vstd::std_specs::hash::group_hash_axioms;

        let mut r: Vec<u64> = Vec::new();
        let ghost all = self.entries.keys().remaining();
        for key in walk: self.entries.keys()
            invariant
                walk.seq() == all,
                r@.len() == walk.index(),
                forall|j: int| 0 <= j < r@.len() ==> r@[j] == *all[j],
        {
            r.push(*key);
        }
        proof {
            assert(r@ =~= all.unref());
            assert(all.unref().to_set() == self.entries@.dom());
            assert forall|key: u64| r@.contains(key) <==> self@.dom().contains(key) by {
                assert(r@.to_set().contains(key) <==> r@.contains(key));
            }
            assert forall|i: int, j: int| 0 <= i < r@.len() && 0 <= j < r@.len() && i != j implies
                r@[i] != r@[j] by {
                assert(all[i] != all[j]);
            }
        }
        r
    }

    /// Drops the values of the listed keys.
    fn drop_listed(&mut self, keys: &Vec<u64>)
        ensures
            final(self)@ == old(self)@.restrict(Set::new(|key: u64| !keys@.contains(key))),
    {
        broadcast use vstd::std_specs::hash::group_hash_axioms;

        let ghost before = self@;
        let mut i: usize = 0;
        assert(before.restrict(Set::new(|key: u64| !keys@.take(0).contains(key))) =~= before);
        while i < keys.len()
            invariant
                i <= keys.len(),
                self@ == before.restrict(Set::new(|key: u64| !keys@.take(i as int).contains(key))),
            decreases keys.len() - i,
        {
            let key: u64 = keys[i];
            let ghost present = self@;
            self.entries.remove(&key);
            proof {
                let (less, more) = (keys@.take(i as int), keys@.take(i + 1));
                assert forall|k: u64| more.contains(k) <==> less.contains(k) || k == key by {
                    assert(more =~= less.push(key));
                    assert(more[i as int] == key);
                    if less.contains(k) {
                        let j = less.index_of(k);
                        assert(more[j] == k);
                    }
                }
                assert(present.remove(key) =~= before.restrict(
                    Set::new(|k: u64| !more.contains(k)),
                ));
            }
            i += 1;
        }
        assert(keys@.take(i as int) =~= keys@);
    }

    /// Keeps the values whose keys `keys` lists, and drops the others.
    pub fn retain_listed(&mut self, keys: &Vec<u64>)
        ensures
            final(self)@ == old(self)@.restrict(Set::new(|key: u64| keys@.contains(key))),
    {
        let held = self.held();
        let mut gone: Vec<u64> = Vec::new();
        let mut i: usize = 0;
        while i < held.len()
            invariant
                i <= held.len(),
                forall|key: u64| #[trigger]
                    gone@.contains(key) <==> held@.take(i as int).contains(key) && !keys@.contains(
                        key,
                    ),
            decreases held.len() - i,
        {
            let key: u64 = held[i];
            proof {
                lemma_one_more(held@, i as int);
                lemma_pushed(gone@, key);
            }
            if !lists(keys, key) {
                gone.push(key);
            }
            i += 1;
        }
        assert(held@.take(i as int) =~= held@);
        self.drop_listed(&gone);
        assert(self@ =~= old(self)@.restrict(Set::new(|key: u64| keys@.contains(key))));
    }

    /// Keeps the values within 64 keys of the range from `start` to `end`, and drops the others.
    pub fn retain_window(&mut self, start: u64, end: u64)
        ensures
            final(self)@ == old(self)@.restrict(Set::new(|key: u64| in_window(key, start, end))),
    {
        let held = self.held();
        let mut gone: Vec<u64> = Vec::new();
        let mut i: usize = 0;
        while i < held.len()
            invariant
                i <= held.len(),
                forall|key: u64| #[trigger]
                    gone@.contains(key) <==> held@.take(i as int).contains(key) && !in_window(
                        key,
                        start,
                        end,
                    ),
            decreases held.len() - i,
        {
            let key: u64 = held[i];
            proof {
                lemma_one_more(held@, i as int);
                lemma_pushed(gone@, key);
            }
            let near = (start <= 64 || key >= start - 64) && (key < 64 || key - 64 < end);
            if !near {
                gone.push(key);
            }
            i += 1;
        }
        assert(held@.take(i as int) =~= held@);
        self.drop_listed(&gone);
        assert(self@ =~= old(self)@.restrict(
            Set::new(|key: u64| in_window(key, start, end)),
        ));
    }

    /// The keys of the range from `start` to `end` that have no value yet, in order.
    pub fn missing(&self, start: u64, end: u64) -> (r: Vec<u64>)
        ensures
            forall|key: u64|
                r@.contains(key) <==> start <= key < end && !self@.dom().contains(key),
            forall|i: int, j: int| 0 <= i < j < r.len() ==> r@[i] < r@[j],
    {
        let mut r: Vec<u64> = Vec::new();
        let mut key: u64 = start;
        while key < end
            invariant
                start <= key,
                start <= end ==> key <= end,
                start > end ==> key == start,
                forall|k: u64| r@.contains(k) <==> start <= k < key && !self@.dom().contains(k),
                forall|i: int, j: int| 0 <= i < j < r.len() ==> r@[i] < r@[j],
            decreases end - key,
        {
            let ghost before = r@;
            if self.get(key).is_none() {
                proof {
                    assert forall|i: int| 0 <= i < before.len() implies #[trigger] before[i]
                        < key by {
                        assert(before.contains(before[i]));
                    }
                }
                r.push(key);
                proof {
                    assert(r@[before.len() as int] == key);
                    assert forall|k: u64|
                        r@.contains(k) <==> start <= k < key + 1 && !self@.dom().contains(k) by {
                        if before.contains(k) {
                            let i = before.index_of(k);
                            assert(r@[i] == k);
                        }
                        if r@.contains(k) && k != key {
                            let i = r@.index_of(k);
                            assert(before[i] == k);
                        }
                    }
                }
            }
            key += 1;
        }
        r
    }

    /// The values, one for each key.
    pub fn into_values(self) -> (r: Vec<T>)
        ensures
            exists|keys: Seq<u64>| #[trigger]
                enumerates(keys, self@.dom()) && r@ == Seq::new(
                    keys.len(),
                    |i: int| self@[keys[i]],
                ),
    {
        broadcast use vstd::std_specs::hash::group_hash_axioms;

        let held = self.held();
        let ghost all = self@;
        let mut entries = self.entries;
        let mut r: Vec<T> = Vec::new();
        let mut i: usize = 0;
        while i < held.len()
            invariant
                i <= held.len(),
                enumerates(held@, all.dom()),
                r.len() == i,
                forall|j: int| i <= j < held.len() ==> entries@.contains_key(held@[j])
                    && entries@[held@[j]] == all[held@[j]],
                forall|j: int| 0 <= j < i ==> #[trigger] r@[j] == all[held@[j]],
            decreases held.len() - i,
        {
            let key: u64 = held[i];
            let value = entries.remove(&key);
            match value {
                Some(value) => r.push(value),
                None => {},
            }
            i += 1;
        }
        assert(r@ =~= Seq::new(held@.len(), |i: int| self@[held@[i]]));
        r
    }
}

/// Taking one item more adds that item.
proof fn lemma_one_more(items: Seq<u64>, i: int)
    requires
        0 <= i < items.len(),
    ensures
        forall|key: u64| #[trigger]
            items.take(i + 1).contains(key) <==> items.take(i).contains(key) || key == items[i],
{
    let (less, more) = (items.take(i), items.take(i + 1));
    assert(more =~= less.push(items[i]));
    lemma_pushed(less, items[i]);
}

/// A list with an item added has that item and the others.
proof fn lemma_pushed(items: Seq<u64>, item: u64)
    ensures
        forall|key: u64| #[trigger]
            items.push(item).contains(key) <==> items.contains(key) || key == item,
{
    let more = items.push(item);
    assert(more[items.len() as int] == item);
    assert forall|key: u64| #[trigger]
        more.contains(key) <==> items.contains(key) || key == item by {
        if items.contains(key) {
            let j = items.index_of(key);
            assert(more[j] == key);
        }
        if more.contains(key) && key != item {
            let j = more.index_of(key);
            assert(items[j] == key);
        }
    }
}

/// Whether the list has the key.
fn lists(keys: &Vec<u64>, key: u64) -> (r: bool)
    ensures
        r == keys@.contains(key),
{
    let mut i: usize = 0;
    while i < keys.len()
        invariant
            i <= keys.len(),
            forall|j: int| 0 <= j < i ==> keys@[j] != key,
        decreases keys.len() - i,
    {
        if keys[i] == key {
            return true;
        }
        i += 1;
    }
    false
}

/// Scrolling rebuilds nothing that is still near: after the window has moved and the missing rows
/// of the visible range were filled in, every row of the range is there, and each that was there
/// before is the same.
pub proof fn law_scrolling_keeps_rows<T>(
    before: Map<u64, T>,
    fresh: Map<u64, T>,
    start: u64,
    end: u64,
)
    requires
        start <= end,
        ({
            let near = before.restrict(Set::new(|key: u64| in_window(key, start, end)));
            forall|key: u64| #[trigger]
                fresh.dom().contains(key) <==> start <= key < end && !near.dom().contains(key)
        }),
    ensures
        ({
            let near = before.restrict(Set::new(|key: u64| in_window(key, start, end)));
            let after = near.union_prefer_right(fresh);
            &&& forall|key: u64| start <= key < end ==> #[trigger] after.dom().contains(key)
            &&& forall|key: u64| #[trigger]
                after.dom().contains(key) ==> in_window(key, start, end)
            &&& forall|key: u64|
                #![trigger after[key]]
                before.dom().contains(key) && in_window(key, start, end) ==> after[key]
                    == before[key]
        }),
{
}

/// What is put under a key is found there, and nothing else is touched; a new cache has nothing.
pub proof fn law_cache_gives_back<T>(
    empty: KeyedCache<T>,
    cache: &mut KeyedCache<T>,
    key: u64,
    value: T,
    other: u64,
    after: KeyedCache<T>,
    found: Option<&T>,
)
    requires
        call_ensures(KeyedCache::<T>::new, (), empty),
        !old(cache)@.dom().contains(key),
        call_ensures(KeyedCache::<T>::insert, (cache, key, value), ()),
        after == *final(cache),
        call_ensures(KeyedCache::<T>::get, (&after, other), found),
    ensures
        !empty@.dom().contains(other),
        other == key ==> (found matches Some(v) && *v == value),
        other != key ==> (found is Some <==> old(cache)@.dom().contains(other)),
        other != key ==> (found matches Some(v) ==> *v == old(cache)@[other]),
{
}

/// Of the values that a cache holds, those stay whose keys are in the range or up to 64 away from
/// it on either side, as they are; all others go, and none comes in.
pub proof fn law_window_keeps_near_values<T>(
    cache: &mut KeyedCache<T>,
    start: u64,
    end: u64,
    key: u64,
)
    requires
        start <= end,
        call_ensures(KeyedCache::<T>::retain_window, (cache, start, end), ()),
    ensures
        final(cache)@.dom().contains(key) <==> old(cache)@.dom().contains(key) && (if key < start {
            start - key <= 64
        } else if key < end {
            true
        } else {
            key - end < 64
        }),
        final(cache)@.dom().contains(key) ==> final(cache)@[key] == old(cache)@[key],
{
}

/// Of the values that a cache holds, exactly those stay whose keys are listed, as they are.
pub proof fn law_listed_values_stay<T>(cache: &mut KeyedCache<T>, keys: Vec<u64>, key: u64)
    requires
        call_ensures(KeyedCache::<T>::retain_listed, (cache, &keys), ()),
    ensures
        final(cache)@.dom().contains(key) <==> old(cache)@.dom().contains(key) && keys@.contains(
            key,
        ),
        final(cache)@.dom().contains(key) ==> final(cache)@[key] == old(cache)@[key],
{
}

/// The keys that are missing in a range are those of the range that the cache does not hold, in
/// order: filling them in leaves none missing.
pub proof fn law_missing_keys_fill_range<T>(
    cache: KeyedCache<T>,
    start: u64,
    end: u64,
    missing: Vec<u64>,
    key: u64,
)
    requires
        call_ensures(KeyedCache::<T>::missing, (&cache, start, end), missing),
    ensures
        missing@.contains(key) ==> start <= key < end && !cache@.dom().contains(key),
        start <= key < end ==> cache@.dom().contains(key) || missing@.contains(key),
        missing@.no_duplicates(),
{
    assert forall|i: int, j: int| 0 <= i < missing.len() && 0 <= j < missing.len() && i != j implies
        missing@[i] != missing@[j] by {
        if i < j {
            assert(missing@[i] < missing@[j]);
        } else {
            assert(missing@[j] < missing@[i]);
        }
    }
}

/// Letting a cache go gives every value that it holds, for release, and nothing else: as many as it
/// has keys, and each one from some key.
pub proof fn law_all_values_come_out<T>(cache: KeyedCache<T>, values: Vec<T>, key: u64, i: int)
    requires
        call_ensures(KeyedCache::<T>::into_values, (cache,), values),
    ensures
        cache@.dom().contains(key) ==> values@.contains(cache@[key]),
        values.len() == cache@.dom().len(),
        0 <= i < values.len() ==> exists|k: u64|
            cache@.dom().contains(k) && values@[i] == #[trigger] cache@[k],
{
    let keys = choose|keys: Seq<u64>| #[trigger]
        enumerates(keys, cache@.dom()) && values@ == Seq::new(
            keys.len(),
            |i: int| cache@[keys[i]],
        );
    assert(keys.to_set() =~= cache@.dom()) by {
        assert forall|k: u64| keys.to_set().contains(k) <==> cache@.dom().contains(k) by {
            assert(keys.to_set().contains(k) <==> keys.contains(k));
        }
    }
    keys.unique_seq_to_set();
    if cache@.dom().contains(key) {
        assert(keys.contains(key));
        let k = keys.index_of(key);
        assert(values@[k] == cache@[key]);
    }
    if 0 <= i < values.len() {
        assert(keys.contains(keys[i]));
        assert(values@[i] == cache@[keys[i]]);
    }
}

} // verus!
