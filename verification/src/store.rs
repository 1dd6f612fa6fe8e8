//! The storage contract of the vault and its volatile backend.

use crate::vault::VaultError;
use crate::vault::VaultItem;
use vstd::prelude::*;
use vstd::string::*;

verus! {

/// What a lookup of `key` in the vault `m` finds.
pub open spec fn lookup(m: Map<Seq<char>, VaultItem>, key: Seq<char>) -> Option<VaultItem> {
    if m.dom().contains(key) {
        Some(m[key])
    } else {
        None
    }
}

/// Whether `items` lists the vault `m`: it holds the item of every key once, and nothing
/// else, in some order.
pub open spec fn is_listing(items: Seq<VaultItem>, m: Map<Seq<char>, VaultItem>) -> bool {
    exists|keys: Seq<Seq<char>>| lists_by(items, keys, m)
}

/// Whether `items` holds, position by position, what `m` stores under `keys`, and `keys`
/// names every key of `m` once.
pub open spec fn lists_by(
    items: Seq<VaultItem>,
    keys: Seq<Seq<char>>,
    m: Map<Seq<char>, VaultItem>,
) -> bool {
    &&& keys.len() == items.len()
    &&& keys.no_duplicates()
    &&& keys.to_set() == m.dom()
    &&& forall|i: int| 0 <= i < keys.len() ==> #[trigger] items[i] == m[keys[i]]
}

/// A listing holds as many items as the vault has keys, and the vault is finite.
pub proof fn lemma_listing_len(items: Seq<VaultItem>, m: Map<Seq<char>, VaultItem>)
    requires
        is_listing(items, m),
    ensures
        m.dom().finite(),
        m.dom().len() == items.len(),
{
    let keys = choose|keys: Seq<Seq<char>>| lists_by(items, keys, m);
    keys.unique_seq_to_set();
    vstd::seq_lib::seq_to_set_is_finite(keys);
}

/// A backend that stores vault items under string keys.
///
/// A backend may fail with a storage error of its own; one that never does says so with
/// `dependable`, and the contract then promises success wherever the arguments allow it.
pub trait VaultStore: Send + Sync {
    /// The vault: which item is stored under which key.
    spec fn contents(&self) -> Map<Seq<char>, VaultItem>;

    /// Whether the backend itself never fails.
    spec fn dependable(&self) -> bool;

    /// Stores `item` under `key`, in place of what was there. An empty key is refused.
    fn set(&mut self, key: String, item: VaultItem) -> (r: Result<(), VaultError>)
        ensures
            final(self).dependable() == old(self).dependable(),
            key@.len() == 0 ==> r is Err && r->Err_0 is InvalidKey,
            r is Ok ==> final(self).contents() == old(self).contents().insert(key@, item),
            r is Err ==> final(self).contents() == old(self).contents(),
            old(self).dependable() && key@.len() > 0 ==> r is Ok,
    ;

    /// The item stored under `key`, if there is one.
    fn get(&self, key: &str) -> (r: Result<Option<VaultItem>, VaultError>)
        ensures
            r matches Ok(found) ==> found == lookup(self.contents(), key@),
            self.dependable() ==> r is Ok,
    ;

    /// Every stored item, in no particular order.
    fn list(&self) -> (r: Result<Vec<VaultItem>, VaultError>)
        ensures
            r matches Ok(items) ==> is_listing(items@, self.contents()),
            self.dependable() ==> r is Ok,
    ;

    /// Removes the item stored under `key`. A key that holds nothing is an error.
    fn delete(&mut self, key: &str) -> (r: Result<(), VaultError>)
        ensures
            final(self).dependable() == old(self).dependable(),
            !old(self).contents().dom().contains(key@) ==> r is Err,
            old(self).dependable() && !old(self).contents().dom().contains(key@) ==> r->Err_0
                is NotFound,
            r is Ok ==> final(self).contents() == old(self).contents().remove(key@),
            r is Err ==> final(self).contents() == old(self).contents(),
            old(self).dependable() && old(self).contents().dom().contains(key@) ==> r is Ok,
    ;

    /// Whether an item is stored under `key`. A backend that fails answers `false`.
    fn has_key(&self, key: &str) -> (r: bool)
        ensures
            r ==> self.contents().dom().contains(key@),
            self.dependable() ==> r == self.contents().dom().contains(key@),
    {
        match self.get(key) {
            Ok(found) => found.is_some(),
            Err(_) => false,
        }
    }

    /// The number of stored items. A backend that fails answers 0.
    fn len(&self) -> (r: usize)
        ensures
            r > 0 ==> self.contents().dom().finite() && r == self.contents().dom().len(),
            self.dependable() ==> self.contents().dom().finite() && r
                == self.contents().dom().len(),
    {
        match self.list() {
            Ok(items) => {
                proof {
                    lemma_listing_len(items@, self.contents());
                }
                items.len()
            },
            Err(_) => 0,
        }
    }

    /// Whether nothing is stored. A backend that fails answers `true`.
    fn is_empty(&self) -> (r: bool)
        ensures
            !r ==> self.contents().dom().finite() && self.contents().dom().len() > 0,
            self.dependable() ==> self.contents().dom().finite() && r == (
            self.contents().dom().len() == 0),
    {
        self.len() == 0
    }

    /// Removes every item.
    fn clear(&mut self) -> (r: Result<(), VaultError>)
        ensures
            final(self).dependable() == old(self).dependable(),
            r is Ok ==> final(self).contents() == Map::<Seq<char>, VaultItem>::empty(),
            r is Err ==> final(self).contents() == old(self).contents(),
            old(self).dependable() ==> r is Ok,
    ;
}

/// Whether no two entries have the same key.
pub open spec fn distinct_keys(entries: Seq<(String, VaultItem)>) -> bool {
    forall|i: int, j: int|
        0 <= i < j < entries.len() ==> (#[trigger] entries[i]).0@ != (#[trigger] entries[j]).0@
}

/// Whether `i` is the place of `key` among `entries`.
pub open spec fn is_place_of(entries: Seq<(String, VaultItem)>, key: Seq<char>, i: int) -> bool {
    0 <= i < entries.len() && entries[i].0@ == key
}

/// Whether an entry has the key `key`.
pub open spec fn stored_under(entries: Seq<(String, VaultItem)>, key: Seq<char>) -> bool {
    exists|i: int| is_place_of(entries, key, i)
}

/// The vault that `entries` stand for: each key with the item of its entry.
pub open spec fn map_of(entries: Seq<(String, VaultItem)>) -> Map<Seq<char>, VaultItem> {
    Map::new(
        |k: Seq<char>| stored_under(entries, k),
        |k: Seq<char>| entries[choose|i: int| is_place_of(entries, k, i)].1,
    )
}

/// With distinct keys, the entry at `i` is what the vault holds under its key.
pub proof fn lemma_entry_is_stored(entries: Seq<(String, VaultItem)>, i: int)
    requires
        distinct_keys(entries),
        0 <= i < entries.len(),
    ensures
        map_of(entries).dom().contains(entries[i].0@),
        map_of(entries)[entries[i].0@] == entries[i].1,
{
    let k = entries[i].0@;
    assert(is_place_of(entries, k, i));
    let c = choose|c: int| is_place_of(entries, k, c);
    assert(c == i);
}

/// The volatile backend: items kept in memory, lost when the process ends.
#[derive(Debug)]
pub struct InMemoryStore {
    items: Vec<(String, VaultItem)>,
}

impl InMemoryStore {
    #[verifier::type_invariant]
    spec fn well_formed(self) -> bool {
        distinct_keys(self.items@)
    }

    /// An empty store.
    pub fn new() -> (r: InMemoryStore)
        ensures
            r.contents() == Map::<Seq<char>, VaultItem>::empty(),
    {
        let r = InMemoryStore { items: Vec::new() };
        assert(map_of(r.items@) =~= Map::<Seq<char>, VaultItem>::empty()) by {
            assert forall|k: Seq<char>| !stored_under(r.items@, k) by {
                assert forall|i: int| !is_place_of(r.items@, k, i) by {}
            }
        }
        r
    }

    /// The place of `key` among the entries, if it is stored.
    fn place_of(&self, key: &String) -> (r: Option<usize>)
        ensures
            match r {
                Some(i) => is_place_of(self.items@, key@, i as int),
                None => !stored_under(self.items@, key@),
            },
    {
        let mut i: usize = 0;
        while i < self.items.len()
            invariant
                i <= self.items@.len(),
                forall|j: int| 0 <= j < i ==> !is_place_of(self.items@, key@, j),
            decreases self.items@.len() - i,
        {
            if self.items[i].0 == *key {
                return Some(i);
            }
            i = i + 1;
        }
        None
    }
}

impl InMemoryStore {
    /// A store that holds `items`, each under its own key. An item with an empty key is left
    /// out, and of two items with one key the later stays.
    pub fn with_items(items: Vec<VaultItem>) -> (r: InMemoryStore)
        ensures
            r.contents() == filled_with(items@),
    {
        let ghost all = items@;
        let mut store = InMemoryStore::new();
        proof {
            assert(all.subrange(0, 0) =~= Seq::<VaultItem>::empty());
        }
        for item in it: items
            invariant
                it.seq() == all,
                store.contents() == filled_with(all.subrange(0, it.index() as int)),
        {
            proof {
                let i = it.index() as int;
                assert(all.subrange(0, i + 1).drop_last() =~= all.subrange(0, i));
            }
            let key: String = item.key.clone();
            let _ = store.set(key, item);
        }
        proof {
            assert(all.subrange(0, all.len() as int) =~= all);
        }
        store
    }
}

impl Default for InMemoryStore {
    /// An empty store.
    fn default() -> (r: Self)
        ensures
            r.contents() == Map::<Seq<char>, VaultItem>::empty(),
    {
        InMemoryStore::new()
    }
}

/// The vault after a store of `item` under `key`: unchanged where the key is empty.
pub open spec fn after_set(m: Map<Seq<char>, VaultItem>, key: Seq<char>, item: VaultItem) -> Map<
    Seq<char>,
    VaultItem,
> {
    if key.len() == 0 {
        m
    } else {
        m.insert(key, item)
    }
}

/// The vault after a delete of `key`: unchanged where nothing is stored under the key.
pub open spec fn after_delete(m: Map<Seq<char>, VaultItem>, key: Seq<char>) -> Map<
    Seq<char>,
    VaultItem,
> {
    m.remove(key)
}

/// The vault that holds `items`, each stored under its own key, one after the other.
pub open spec fn filled_with(items: Seq<VaultItem>) -> Map<Seq<char>, VaultItem>
    decreases items.len(),
{
    if items.len() == 0 {
        Map::empty()
    } else {
        after_set(filled_with(items.drop_last()), items.last().key@, items.last())
    }
}

/// Storing an item under a key that is not empty and then reading that key gives the item
/// back, unchanged.
pub proof fn law_set_then_get(m: Map<Seq<char>, VaultItem>, key: Seq<char>, item: VaultItem)
    requires
        key.len() > 0,
    ensures
        lookup(after_set(m, key, item), key) == Some(item),
{
}

/// Storing under the empty key leaves the vault as it was.
pub proof fn law_empty_key_changes_nothing(m: Map<Seq<char>, VaultItem>, item: VaultItem)
    ensures
        after_set(m, Seq::<char>::empty(), item) == m,
{
}

/// After a delete of a key, a read of that key finds nothing; and a delete of a key under
/// which nothing is stored leaves the vault as it was.
pub proof fn law_delete_then_get(m: Map<Seq<char>, VaultItem>, key: Seq<char>)
    ensures
        lookup(after_delete(m, key), key) is None,
        !m.dom().contains(key) ==> after_delete(m, key) == m,
{
    if !m.dom().contains(key) {
        assert(m.remove(key) =~= m);
    }
}

impl VaultStore for InMemoryStore {
    closed spec fn contents(&self) -> Map<Seq<char>, VaultItem> {
        map_of(self.items@)
    }

    open spec fn dependable(&self) -> bool {
        true
    }

    fn set(&mut self, key: String, item: VaultItem) -> (r: Result<(), VaultError>)
        ensures
            key@.len() == 0 ==> (r matches Err(VaultError::InvalidKey(why)) && why@
                == "Key cannot be empty"@),
            final(self).contents() == after_set(old(self).contents(), key@, item),
    {
        proof {
            use_type_invariant(&*self);
        }
        if key.as_str().unicode_len() == 0 {
            return Err(VaultError::InvalidKey(String::from_str("Key cannot be empty")));
        }
        let ghost before = self.items@;
        let ghost k = key@;
        let place = self.place_of(&key);
        let mut items: Vec<(String, VaultItem)> = Vec::new();
        core::mem::swap(&mut self.items, &mut items);
        match place {
            Some(i) => {
                items[i] = (key, item);
                proof {
                    let after = items@;
                    assert(after == before.update(i as int, (key, item)));
                    assert(distinct_keys(after)) by {
                        assert forall|a: int, b: int| 0 <= a < b < after.len() implies (
                        #[trigger] after[a]).0@ != (#[trigger] after[b]).0@ by {
                            assert(before[a].0@ != before[b].0@);
                        }
                    }
                    assert forall|q: Seq<char>| stored_under(after, q) == (q == k || stored_under(
                        before,
                        q,
                    )) by {
                        if stored_under(after, q) {
                            let j = choose|j: int| is_place_of(after, q, j);
                            assert(is_place_of(before, q, j));
                        }
                        if q == k {
                            assert(is_place_of(after, q, i as int));
                        } else if stored_under(before, q) {
                            let j = choose|j: int| is_place_of(before, q, j);
                            assert(is_place_of(after, q, j));
                        }
                    }
                    assert forall|q: Seq<char>| stored_under(after, q) implies map_of(after)[q]
                        == map_of(before).insert(k, item)[q] by {
                        let j = choose|j: int| is_place_of(after, q, j);
                        lemma_entry_is_stored(after, j);
                        if q != k {
                            assert(is_place_of(before, q, j));
                            lemma_entry_is_stored(before, j);
                        }
                    }
                    assert(map_of(after) =~= map_of(before).insert(k, item));
                }
            },
            None => {
                items.push((key, item));
                proof {
                    let after = items@;
                    assert(after == before.push((key, item)));
                    assert(distinct_keys(after)) by {
                        assert forall|a: int, b: int| 0 <= a < b < after.len() implies (
                        #[trigger] after[a]).0@ != (#[trigger] after[b]).0@ by {
                            if b == before.len() {
                                assert(!is_place_of(before, k, a));
                            } else {
                                assert(before[a].0@ != before[b].0@);
                            }
                        }
                    }
                    assert forall|q: Seq<char>| stored_under(after, q) == (q == k || stored_under(
                        before,
                        q,
                    )) by {
                        if stored_under(after, q) {
                            let j = choose|j: int| is_place_of(after, q, j);
                            if j < before.len() {
                                assert(is_place_of(before, q, j));
                            }
                        }
                        if q == k {
                            assert(is_place_of(after, q, before.len() as int));
                        } else if stored_under(before, q) {
                            let j = choose|j: int| is_place_of(before, q, j);
                            assert(is_place_of(after, q, j));
                        }
                    }
                    assert forall|q: Seq<char>| stored_under(after, q) implies map_of(after)[q]
                        == map_of(before).insert(k, item)[q] by {
                        let j = choose|j: int| is_place_of(after, q, j);
                        lemma_entry_is_stored(after, j);
                        if j < before.len() {
                            assert(is_place_of(before, q, j));
                            lemma_entry_is_stored(before, j);
                        }
                    }
                    assert(map_of(after) =~= map_of(before).insert(k, item));
                }
            },
        }
        self.items = items;
        Ok(())
    }

    fn get(&self, key: &str) -> (r: Result<Option<VaultItem>, VaultError>) {
        proof {
            use_type_invariant(self);
        }
        let k: String = key.to_owned();
        match self.place_of(&k) {
            Some(i) => {
                proof {
                    lemma_entry_is_stored(self.items@, i as int);
                }
                Ok(Some(self.items[i].1.clone()))
            },
            None => Ok(None),
        }
    }

    fn list(&self) -> (r: Result<Vec<VaultItem>, VaultError>) {
        proof {
            use_type_invariant(self);
        }
        let mut out: Vec<VaultItem> = Vec::new();
        let mut i: usize = 0;
        while i < self.items.len()
            invariant
                i <= self.items@.len(),
                out@.len() == i,
                forall|j: int| 0 <= j < i ==> #[trigger] out@[j] == self.items@[j].1,
            decreases self.items@.len() - i,
        {
            out.push(self.items[i].1.clone());
            i = i + 1;
        }
        proof {
            let entries = self.items@;
            let keys = Seq::new(entries.len(), |j: int| entries[j].0@);
            assert(keys.no_duplicates());
            assert(keys.to_set() =~= map_of(entries).dom()) by {
                assert forall|q: Seq<char>| keys.to_set().contains(q) == stored_under(
                    entries,
                    q,
                ) by {
                    if keys.to_set().contains(q) {
                        let j = choose|j: int| 0 <= j < keys.len() && keys[j] == q;
                        assert(is_place_of(entries, q, j));
                    }
                    if stored_under(entries, q) {
                        let j = choose|j: int| is_place_of(entries, q, j);
                        assert(keys[j] == q);
                    }
                }
            }
            assert forall|j: int| 0 <= j < keys.len() implies #[trigger] out@[j] == map_of(
                entries,
            )[keys[j]] by {
                lemma_entry_is_stored(entries, j);
            }
            assert(lists_by(out@, keys, map_of(entries)));
        }
        Ok(out)
    }

    fn delete(&mut self, key: &str) -> (r: Result<(), VaultError>)
        ensures
            r matches Err(e) ==> (e matches VaultError::NotFound(which) && which@ == key@),
            r is Ok == old(self).contents().dom().contains(key@),
            final(self).contents() == after_delete(old(self).contents(), key@),
    {
        proof {
            use_type_invariant(&*self);
        }
        let k: String = key.to_owned();
        let ghost before = self.items@;
        match self.place_of(&k) {
            Some(i) => {
                let mut items: Vec<(String, VaultItem)> = Vec::new();
                core::mem::swap(&mut self.items, &mut items);
                let _ = items.remove(i);
                proof {
                    let after = items@;
                    assert(after == before.remove(i as int));
                    assert(distinct_keys(after)) by {
                        assert forall|a: int, b: int| 0 <= a < b < after.len() implies (
                        #[trigger] after[a]).0@ != (#[trigger] after[b]).0@ by {
                            let a0 = if a < i { a } else { a + 1 };
                            let b0 = if b < i { b } else { b + 1 };
                            assert(before[a0].0@ != before[b0].0@);
                        }
                    }
                    assert forall|q: Seq<char>| stored_under(after, q) == (q != k@
                        && stored_under(before, q)) by {
                        if stored_under(after, q) {
                            let j = choose|j: int| is_place_of(after, q, j);
                            let j0 = if j < i { j } else { j + 1 };
                            assert(is_place_of(before, q, j0));
                            assert(before[j0].0@ != before[i as int].0@);
                        }
                        if q != k@ && stored_under(before, q) {
                            let j0 = choose|j: int| is_place_of(before, q, j);
                            let j = if j0 < i { j0 } else { j0 - 1 };
                            assert(is_place_of(after, q, j));
                        }
                    }
                    assert forall|q: Seq<char>| stored_under(after, q) implies map_of(after)[q]
                        == map_of(before)[q] by {
                        let j = choose|j: int| is_place_of(after, q, j);
                        let j0 = if j < i { j } else { j + 1 };
                        lemma_entry_is_stored(after, j);
                        assert(is_place_of(before, q, j0));
                        lemma_entry_is_stored(before, j0);
                    }
                    assert(map_of(after) =~= map_of(before).remove(k@));
                }
                self.items = items;
                Ok(())
            },
            None => Err(VaultError::NotFound(k)),
        }
    }

    fn clear(&mut self) -> (r: Result<(), VaultError>) {
        self.items = Vec::new();
        proof {
            let after = self.items@;
            assert(map_of(after) =~= Map::<Seq<char>, VaultItem>::empty()) by {
                assert forall|q: Seq<char>| !stored_under(after, q) by {
                    assert forall|i: int| !is_place_of(after, q, i) by {}
                }
            }
        }
        Ok(())
    }
}

} // verus!
