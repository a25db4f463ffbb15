//! Storage keys and the two views of the key-value store that a transaction
//! is validated against: the state before it ran and the state it leaves.

use vstd::hash_map::StringHashMap;
use vstd::prelude::*;

verus! {

/// Separates the segments of a storage key. No address encoding holds it.
pub const KEY_SEGMENT_SEPARATOR: char = '/';

/// Marks the segment of a storage key that holds an address.
pub const RESERVED_ADDRESS_PREFIX: char = '#';

/// The place of a value in storage: a path of segments.
#[derive(Debug, PartialEq, Eq, Hash)]
pub struct Key {
    path: String,
}

impl View for Key {
    type V = Seq<char>;

    closed spec fn view(&self) -> Seq<char> {
        self.path@
    }
}

impl Key {
    /// The key whose text is `path`.
    pub(crate) fn from_path(path: String) -> (key: Key)
        ensures
            key@ == path@,
    {
        Key { path }
    }

    /// The text under which the store holds the value.
    pub fn to_string(&self) -> (path: String)
        ensures
            path@ == self@,
    {
        self.path.clone()
    }
}

impl Clone for Key {
    fn clone(&self) -> (copy: Self)
        ensures
            copy@ == self@,
    {
        Key { path: self.path.clone() }
    }
}

/// What a store holds, as a map from the text of a key to the bytes of its
/// value.
pub type Snapshot = Map<Seq<char>, Seq<u8>>;

/// The mathematical model of a [`Storage`].
pub struct StorageView {
    /// The state before the transaction under validation.
    pub pre: Snapshot,
    /// The state with the writes of that transaction applied.
    pub post: Snapshot,
}

impl StorageView {
    /// The model of a store that holds nothing.
    pub open spec fn empty() -> StorageView {
        StorageView { pre: Map::empty(), post: Map::empty() }
    }

    /// The model after the transaction wrote `value` at `key`: only the
    /// post-state has changed.
    pub open spec fn write(self, key: Seq<char>, value: Seq<u8>) -> StorageView {
        StorageView { pre: self.pre, post: self.post.insert(key, value) }
    }

    /// The model after the transaction was applied: what it left is the
    /// pre-state of the next one.
    pub open spec fn commit(self) -> StorageView {
        StorageView { pre: self.post, post: self.post }
    }
}

/// An in-memory key-value store with the pre-state and the post-state of one
/// transaction.
pub struct Storage {
    committed: StringHashMap<Vec<u8>>,
    pending: StringHashMap<Vec<u8>>,
}

/// The bytes of each stored value.
spec fn value_bytes(values: Map<Seq<char>, Vec<u8>>) -> Snapshot {
    values.map_values(|value: Vec<u8>| value@)
}

impl View for Storage {
    type V = StorageView;

    closed spec fn view(&self) -> StorageView {
        StorageView {
            pre: value_bytes(self.committed@),
            post: value_bytes(self.committed@.union_prefer_right(self.pending@)),
        }
    }
}

fn copy_value(found: Option<&Vec<u8>>) -> (value: Option<Vec<u8>>)
    ensures
        found is Some <==> value is Some,
        found matches Some(bytes) ==> value->0@ == bytes@,
{
    match found {
        Some(bytes) => {
            let copy = bytes.clone();
            assert(copy@ =~= bytes@);
            Some(copy)
        },
        None => None,
    }
}

impl Storage {
    /// A store that holds nothing, before and after.
    pub fn new() -> (storage: Storage)
        ensures
            storage@ == StorageView::empty(),
    {
        let storage = Storage { committed: StringHashMap::new(), pending: StringHashMap::new() };
        assert(storage@.pre =~= Map::empty());
        assert(storage@.post =~= Map::empty());
        storage
    }

    /// Records a write of the current transaction. The pre-state keeps what
    /// it held.
    pub fn write(&mut self, key: &Key, value: Vec<u8>)
        ensures
            final(self)@ == old(self)@.write(key@, value@),
    {
        self.pending.insert(key.to_string(), value);
        assert(self@.pre == old(self)@.pre);
        assert(self@.post =~= old(self)@.post.insert(key@, value@));
    }

    /// Applies the writes of the current transaction: the post-state becomes
    /// the pre-state of the next transaction.
    pub fn commit(&mut self)
        ensures
            final(self)@ == old(self)@.commit(),
    {
        let mut applied = StringHashMap::new();
        core::mem::swap(&mut self.pending, &mut applied);
        self.committed.union_prefer_right(applied);
        assert(self@.pre == old(self)@.post);
        assert(self@.post =~= old(self)@.post);
    }

    /// Reads the value at `key` as it was before the current transaction.
    pub fn read_pre(&self, key: &Key) -> (value: Option<Vec<u8>>)
        ensures
            value is Some <==> self@.pre.contains_key(key@),
            value matches Some(bytes) ==> bytes@ == self@.pre[key@],
    {
        let path = key.to_string();
        copy_value(self.committed.get(path.as_str()))
    }

    /// Reads the value at `key` as the current transaction leaves it.
    pub fn read_post(&self, key: &Key) -> (value: Option<Vec<u8>>)
        ensures
            value is Some <==> self@.post.contains_key(key@),
            value matches Some(bytes) ==> bytes@ == self@.post[key@],
    {
        let path = key.to_string();
        match self.pending.get(path.as_str()) {
            Some(bytes) => copy_value(Some(bytes)),
            None => copy_value(self.committed.get(path.as_str())),
        }
    }
}

} // verus!
