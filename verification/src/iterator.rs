//! Walking the entries of a store.

use crate::table::Entry;
use vstd::prelude::*;

verus! {

/// A walk over the entries of a store. Each call of [`DocDbIterator::next`]
/// hands out the next entry.
pub struct DocDbIterator<'a> {
    entries: &'a Vec<Entry>,
    pos: usize,
}

/// One entry met on a walk: a key and the encoded value stored under it.
pub struct DocDbIteratorItem<'a> {
    key: &'a str,
    value: &'a Vec<u8>,
}

impl<'a> DocDbIterator<'a> {
    /// The entries that the walk has not handed out yet, in order.
    pub closed spec fn remaining(self) -> Seq<Entry> {
        if self.pos <= self.entries@.len() {
            self.entries@.subrange(self.pos as int, self.entries@.len() as int)
        } else {
            Seq::empty()
        }
    }

    /// A walk over all of `entries`, from the first.
    pub fn new(entries: &'a Vec<Entry>) -> (walk: Self)
        ensures
            walk.remaining() == entries@,
    {
        let walk = DocDbIterator { entries, pos: 0 };
        assert(walk.remaining() =~= entries@);
        walk
    }

    /// Hands out the first remaining entry, or `None` at the end.
    pub fn next(&mut self) -> (item: Option<DocDbIteratorItem<'a>>)
        ensures
            match item {
                Some(it) => old(self).remaining().len() > 0 && it.key() == old(
                    self,
                ).remaining()[0].key@ && it.value() == old(self).remaining()[0].value@
                    && final(self).remaining() == old(self).remaining().drop_first(),
                None => old(self).remaining().len() == 0 && final(self).remaining() == old(
                    self,
                ).remaining(),
            },
    {
        if self.pos < self.entries.len() {
            let entry = &self.entries[self.pos];
            self.pos = self.pos + 1;
            assert(self.remaining() =~= old(self).remaining().drop_first());
            Some(DocDbIteratorItem { key: entry.key.as_str(), value: &entry.value })
        } else {
            None
        }
    }
}

impl<'a> DocDbIteratorItem<'a> {
    /// The key of the entry.
    pub closed spec fn key(self) -> Seq<char> {
        self.key@
    }

    /// The encoded value of the entry.
    pub closed spec fn value(self) -> Seq<u8> {
        self.value@
    }

    pub fn get_key(&self) -> (key: &str)
        ensures
            key@ == self.key(),
    {
        self.key
    }

    /// The encoded value, as it is stored. Decoding it is the caller's part.
    pub fn get_value(&self) -> (value: &Vec<u8>)
        ensures
            value@ == self.value(),
    {
        self.value
    }
}

} // verus!
