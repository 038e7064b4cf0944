//! Sized container shapes: a count-prefixed sequence and a count-prefixed
//! ordered map. Both preserve exactly the order in which their entries were
//! read; the map keeps duplicate keys instead of overwriting them, so that
//! the decoded value mirrors the stream byte for byte.

use vstd::prelude::*;

verus! {

/// A count-prefixed sequence, in read order.
#[derive(Debug)]
pub struct Array<T>(pub Vec<T>);

/// A count-prefixed ordered map: key/value pairs in read order. Duplicate
/// keys are not deduplicated and never reordered; the first occurrence keeps
/// its position and later occurrences follow in their own read positions.
#[derive(Debug)]
pub struct SizedMap<K, V>(pub Vec<(K, V)>);

impl<K, V> SizedMap<K, V> {
    /// An empty map.
    pub fn new() -> (r: Self)
        ensures
            r.0@.len() == 0,
    {
        SizedMap(Vec::new())
    }

    /// Appends one key/value pair. Existing entries keep their positions and
    /// values even when `key` repeats one of their keys: insertion order and
    /// first occurrences are preserved exactly.
    pub fn insert(&mut self, key: K, value: V)
        ensures
            final(self).0@ == old(self).0@.push((key, value)),
    {
        self.0.push((key, value));
    }

    /// The number of entries, duplicates included.
    pub fn len(&self) -> (r: usize)
        ensures
            r == self.0@.len(),
    {
        self.0.len()
    }
}

} // verus!
