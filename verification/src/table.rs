//! The in-memory table: string keys bound to encoded values.
//!
//! The table is a list of entries in which no key occurs twice. Its view is
//! the mathematical map from each key to its value.

use vstd::prelude::*;
use vstd::utf8::*;

verus! {

/// One binding of the table: a key and the encoded value stored under it.
pub struct Entry {
    pub key: String,
    pub value: Vec<u8>,
}

/// No key occurs twice in `s`.
pub open spec fn distinct_keys(s: Seq<Entry>) -> bool {
    forall|i: int, j: int|
        0 <= i < s.len() && 0 <= j < s.len() && i != j ==> (#[trigger] s[i]).key@ != (
        #[trigger] s[j]).key@
}

/// Some entry of `s` has the key `k`.
pub open spec fn has_key(s: Seq<Entry>, k: Seq<char>) -> bool {
    exists|i: int| 0 <= i < s.len() && (#[trigger] s[i]).key@ == k
}

/// The position of an entry of `s` with the key `k`.
pub open spec fn slot_of(s: Seq<Entry>, k: Seq<char>) -> int {
    choose|i: int| 0 <= i < s.len() && (#[trigger] s[i]).key@ == k
}

/// The map that the entries of `s` spell out: each key bound to the value
/// stored beside it.
pub open spec fn bindings(s: Seq<Entry>) -> Map<Seq<char>, Seq<u8>> {
    Map::new(|k: Seq<char>| has_key(s, k), |k: Seq<char>| s[slot_of(s, k)].value@)
}

/// In a list without repeated keys, the entry at `i` is the binding of its key.
pub proof fn lemma_entry_is_binding(s: Seq<Entry>, i: int)
    requires
        distinct_keys(s),
        0 <= i < s.len(),
    ensures
        has_key(s, s[i].key@),
        slot_of(s, s[i].key@) == i,
        bindings(s).contains_key(s[i].key@),
        bindings(s)[s[i].key@] == s[i].value@,
{
    assert(s[i].key@ == s[i].key@);
}

/// Appending a fresh key inserts its binding.
pub proof fn lemma_push_binding(s: Seq<Entry>, e: Entry)
    requires
        distinct_keys(s),
        !has_key(s, e.key@),
    ensures
        distinct_keys(s.push(e)),
        bindings(s.push(e)) == bindings(s).insert(e.key@, e.value@),
{
    let t = s.push(e);
    assert forall|i: int, j: int| 0 <= i < t.len() && 0 <= j < t.len() && i != j implies (
    #[trigger] t[i]).key@ != (#[trigger] t[j]).key@ by {
        if i < s.len() {
            assert(t[i] == s[i]);
        }
        if j < s.len() {
            assert(t[j] == s[j]);
        }
    }
    assert forall|k: Seq<char>| has_key(t, k) <==> (has_key(s, k) || k == e.key@) by {
        if has_key(s, k) {
            let i = slot_of(s, k);
            assert(t[i] == s[i]);
        }
        if k == e.key@ {
            assert(t[s.len() as int].key@ == k);
        }
        if has_key(t, k) {
            let i = slot_of(t, k);
            if i < s.len() {
                assert(s[i].key@ == k);
            }
        }
    }
    assert forall|k: Seq<char>| has_key(t, k) implies #[trigger] bindings(t)[k] == bindings(
        s,
    ).insert(e.key@, e.value@)[k] by {
        let i = slot_of(t, k);
        lemma_entry_is_binding(t, i);
        if i < s.len() {
            assert(t[i] == s[i]);
            lemma_entry_is_binding(s, i);
        }
    }
    assert(bindings(t) =~= bindings(s).insert(e.key@, e.value@));
}

/// Taking the entry at `i` out removes the binding of its key.
pub proof fn lemma_remove_binding(s: Seq<Entry>, i: int)
    requires
        distinct_keys(s),
        0 <= i < s.len(),
    ensures
        distinct_keys(s.remove(i)),
        !has_key(s.remove(i), s[i].key@),
        bindings(s.remove(i)) == bindings(s).remove(s[i].key@),
{
    let t = s.remove(i);
    let back = |j: int| if j < i { j } else { j + 1 };
    assert forall|j: int| 0 <= j < t.len() implies #[trigger] t[j] == s[back(j)] by {}
    assert forall|a: int, b: int| 0 <= a < t.len() && 0 <= b < t.len() && a != b implies (
    #[trigger] t[a]).key@ != (#[trigger] t[b]).key@ by {
        assert(t[a] == s[back(a)]);
        assert(t[b] == s[back(b)]);
    }
    assert forall|k: Seq<char>| has_key(t, k) <==> (has_key(s, k) && k != s[i].key@) by {
        if has_key(t, k) {
            let j = slot_of(t, k);
            assert(t[j] == s[back(j)]);
        }
        if has_key(s, k) && k != s[i].key@ {
            let j = slot_of(s, k);
            if j < i {
                assert(t[j] == s[j]);
            } else {
                assert(t[j - 1] == s[back(j - 1)]);
            }
        }
    }
    assert forall|k: Seq<char>| has_key(t, k) implies #[trigger] bindings(t)[k] == bindings(
        s,
    )[k] by {
        let j = slot_of(t, k);
        lemma_entry_is_binding(t, j);
        assert(t[j] == s[back(j)]);
        lemma_entry_is_binding(s, back(j));
    }
    assert(bindings(t) =~= bindings(s).remove(s[i].key@));
}

/// A list without repeated keys binds as many keys as it has entries.
pub proof fn lemma_bindings_len(s: Seq<Entry>)
    requires
        distinct_keys(s),
    ensures
        bindings(s).dom().finite(),
        bindings(s).dom().len() == s.len(),
    decreases s.len(),
{
    if s.len() == 0 {
        assert(bindings(s).dom() =~= Set::<Seq<char>>::empty());
    } else {
        let front = s.drop_last();
        let e = s.last();
        assert forall|i: int, j: int| 0 <= i < front.len() && 0 <= j < front.len() && i
            != j implies (#[trigger] front[i]).key@ != (#[trigger] front[j]).key@ by {
            assert(front[i] == s[i]);
            assert(front[j] == s[j]);
        }
        if has_key(front, e.key@) {
            let i = slot_of(front, e.key@);
            assert(front[i] == s[i]);
            assert(s[s.len() - 1] == e);
        }
        lemma_bindings_len(front);
        lemma_push_binding(front, e);
        assert(front.push(e) =~= s);
        assert(bindings(s).dom() =~= bindings(front).dom().insert(e.key@));
    }
}

/// Whether two strings hold the same text.
pub fn str_eq(a: &str, b: &str) -> (same: bool)
    ensures
        same == (a@ == b@),
{
    broadcast use encode_utf8_decode_utf8;

    let x = a.as_bytes();
    let y = b.as_bytes();
    if x.len() != y.len() {
        return false;
    }
    let mut i: usize = 0;
    while i < x.len()
        invariant
            x@ == encode_utf8(a@),
            y@ == encode_utf8(b@),
            x.len() == y.len(),
            i <= x.len(),
            forall|j: int| 0 <= j < i ==> x[j] == y[j],
        decreases x.len() - i,
    {
        if x[i] != y[i] {
            return false;
        }
        i += 1;
    }
    proof {
        assert(x@ =~= y@);
        assert(decode_utf8(encode_utf8(a@)) == a@);
        assert(decode_utf8(encode_utf8(b@)) == b@);
    }
    true
}

/// The table of the store: keys bound to encoded values, no key twice.
pub struct Table {
    entries: Vec<Entry>,
}

impl View for Table {
    type V = Map<Seq<char>, Seq<u8>>;

    /// The map from each key to the value stored under it.
    closed spec fn view(&self) -> Map<Seq<char>, Seq<u8>> {
        bindings(self.entries@)
    }
}

impl Table {
    #[verifier::type_invariant]
    spec fn well_formed(self) -> bool {
        distinct_keys(self.entries@)
    }

    /// The entries in the order in which the table keeps them.
    pub closed spec fn seq(self) -> Seq<Entry> {
        self.entries@
    }

    /// An empty table.
    pub fn new() -> (t: Table)
        ensures
            t@ == Map::<Seq<char>, Seq<u8>>::empty(),
            t.seq() == Seq::<Entry>::empty(),
    {
        let t = Table { entries: Vec::new() };
        assert(t@ =~= Map::<Seq<char>, Seq<u8>>::empty());
        t
    }

    /// A table that holds the given entries.
    pub(crate) fn from_entries(entries: Vec<Entry>) -> (t: Table)
        requires
            distinct_keys(entries@),
        ensures
            t.seq() == entries@,
            t@ == bindings(entries@),
    {
        Table { entries }
    }

    /// The entries of the table.
    pub fn entries(&self) -> (list: &Vec<Entry>)
        ensures
            list@ == self.seq(),
            distinct_keys(list@),
            self@ == bindings(list@),
    {
        proof {
            use_type_invariant(self);
        }
        &self.entries
    }

    /// The number of keys.
    pub fn len(&self) -> (n: usize)
        ensures
            n == self@.len(),
            n == self.seq().len(),
            self@.dom().finite(),
    {
        proof {
            use_type_invariant(self);
            lemma_bindings_len(self.entries@);
        }
        self.entries.len()
    }

    /// Where the entry with the given key stands, if there is one.
    pub fn position(&self, key: &str) -> (at: Option<usize>)
        ensures
            match at {
                Some(i) => i < self.seq().len() && self.seq()[i as int].key@ == key@
                    && self@.contains_key(key@) && self@[key@] == self.seq()[i as int].value@,
                None => !self@.contains_key(key@),
            },
    {
        proof {
            use_type_invariant(self);
        }
        let mut i: usize = 0;
        while i < self.entries.len()
            invariant
                i <= self.entries.len(),
                distinct_keys(self.entries@),
                forall|j: int| 0 <= j < i ==> (#[trigger] self.entries@[j]).key@ != key@,
            decreases self.entries.len() - i,
        {
            if str_eq(self.entries[i].key.as_str(), key) {
                proof {
                    lemma_entry_is_binding(self.entries@, i as int);
                }
                return Some(i);
            }
            i += 1;
        }
        None
    }

    /// The value stored under `key`, if the key is present.
    pub fn get(&self, key: &str) -> (found: Option<&Vec<u8>>)
        ensures
            match found {
                Some(value) => self@.contains_key(key@) && value@ == self@[key@],
                None => !self@.contains_key(key@),
            },
    {
        match self.position(key) {
            Some(i) => Some(&self.entries[i].value),
            None => None,
        }
    }

    /// Whether `key` is present.
    pub fn contains_key(&self, key: &str) -> (present: bool)
        ensures
            present == self@.contains_key(key@),
    {
        self.position(key).is_some()
    }

    /// Binds `key` to `value` and returns the value that was bound before.
    pub fn insert(&mut self, key: String, value: Vec<u8>) -> (previous: Option<Vec<u8>>)
        ensures
            final(self)@ == old(self)@.insert(key@, value@),
            match previous {
                Some(p) => old(self)@.contains_key(key@) && p@ == old(self)@[key@],
                None => !old(self)@.contains_key(key@),
            },
    {
        proof {
            use_type_invariant(&*self);
        }
        let at = self.position(key.as_str());
        let mut list: Vec<Entry> = Vec::new();
        std::mem::swap(&mut list, &mut self.entries);
        let ghost before = list@;
        let previous = match at {
            Some(i) => {
                let e = list.remove(i);
                proof {
                    lemma_remove_binding(before, i as int);
                }
                Some(e.value)
            },
            None => None,
        };
        let ghost middle = list@;
        let ghost fresh = Entry { key, value };
        list.push(Entry { key, value });
        proof {
            lemma_push_binding(middle, fresh);
            assert(bindings(list@) =~= bindings(before).insert(key@, value@));
        }
        self.entries = list;
        previous
    }

    /// Removes `key` and returns the value that was bound to it.
    pub fn remove(&mut self, key: &str) -> (previous: Option<Vec<u8>>)
        ensures
            final(self)@ == old(self)@.remove(key@),
            match previous {
                Some(p) => old(self)@.contains_key(key@) && p@ == old(self)@[key@],
                None => !old(self)@.contains_key(key@),
            },
    {
        proof {
            use_type_invariant(&*self);
        }
        match self.position(key) {
            Some(i) => {
                let mut list: Vec<Entry> = Vec::new();
                std::mem::swap(&mut list, &mut self.entries);
                let ghost before = list@;
                let e = list.remove(i);
                proof {
                    lemma_remove_binding(before, i as int);
                }
                self.entries = list;
                Some(e.value)
            },
            None => {
                assert(self@ =~= old(self)@.remove(key@));
                None
            },
        }
    }

    /// A copy of every key, each once.
    pub fn keys(&self) -> (keys: Vec<String>)
        ensures
            keys.len() == self@.len(),
            forall|i: int| 0 <= i < keys.len() ==> self@.contains_key(#[trigger] keys[i]@),
            forall|i: int, j: int|
                0 <= i < keys.len() && 0 <= j < keys.len() && i != j ==> keys[i]@ != keys[j]@,
            forall|k: Seq<char>|
                self@.contains_key(k) ==> exists|i: int| 0 <= i < keys.len() && keys[i]@ == k,
    {
        proof {
            use_type_invariant(self);
            lemma_bindings_len(self.entries@);
        }
        let mut keys: Vec<String> = Vec::new();
        let mut i: usize = 0;
        while i < self.entries.len()
            invariant
                i <= self.entries.len(),
                keys.len() == i,
                forall|j: int| 0 <= j < i ==> keys[j]@ == (#[trigger] self.entries@[j]).key@,
            decreases self.entries.len() - i,
        {
            keys.push(self.entries[i].key.clone());
            i += 1;
        }
        proof {
            let s = self.entries@;
            assert forall|j: int| 0 <= j < keys.len() implies self@.contains_key(
                #[trigger] keys[j]@,
            ) by {
                lemma_entry_is_binding(s, j);
                assert(keys[j]@ == s[j].key@);
            }
            assert forall|a: int, b: int|
                0 <= a < keys.len() && 0 <= b < keys.len() && a != b implies keys[a]@
                != keys[b]@ by {
                assert(keys[a]@ == s[a].key@);
                assert(keys[b]@ == s[b].key@);
            }
            assert forall|k: Seq<char>| self@.contains_key(k) implies exists|j: int|
                0 <= j < keys.len() && keys[j]@ == k by {
                let j = slot_of(s, k);
                assert(keys[j]@ == s[j].key@);
            }
        }
        keys
    }
}

} // verus!
