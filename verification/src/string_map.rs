//! A map keyed by strings, kept as a list of entries with distinct keys.

use vstd::prelude::*;
use vstd::string::StringSliceAdditionalSpecFns;
use vstd::utf8::encode_utf8_decode_utf8;

verus! {

/// Whether two string slices hold the same characters. The slices are
/// compared byte by byte: two texts have the same encoding exactly when
/// they are the same text.
pub fn str_eq(a: &str, b: &str) -> (same: bool)
    ensures
        same == (a@ == b@),
{
    let left = a.as_bytes();
    let right = b.as_bytes();
    proof {
        encode_utf8_decode_utf8(a@);
        encode_utf8_decode_utf8(b@);
    }
    if left.len() != right.len() {
        return false;
    }
    let mut i: usize = 0;
    while i < left.len()
        invariant
            i <= left@.len(),
            left@.len() == right@.len(),
            left@ == a.spec_bytes(),
            right@ == b.spec_bytes(),
            forall|j: int| 0 <= j < i ==> left@[j] == right@[j],
        decreases left@.len() - i,
    {
        if left[i] != right[i] {
            return false;
        }
        i += 1;
    }
    proof {
        assert(left@ =~= right@);
    }
    true
}

/// A finite map from strings to values of `V`.
///
/// The entries are kept in two vectors of equal length: the key of the entry
/// at a position and, at the same position, its value. No key occurs twice.
#[derive(Debug)]
pub struct StringMap<V> {
    names: Vec<String>,
    values: Vec<V>,
}

impl<V> StringMap<V> {
    #[verifier::type_invariant]
    closed spec fn well_formed(&self) -> bool {
        &&& self.names@.len() == self.values@.len()
        &&& distinct(self.names@)
    }
}

impl<V: Clone> Clone for StringMap<V> {
    fn clone(&self) -> (copy: Self) {
        proof {
            use_type_invariant(self);
        }
        let names = self.names.clone();
        let values = self.values.clone();
        proof {
            assert forall|i: int| 0 <= i < names@.len() implies names@[i]@ == self.names@[i]@ by {
                assert(cloned::<String>(self.names@[i], names@[i]));
            }
        }
        StringMap { names, values }
    }
}

impl<V: View> View for StringMap<V> {
    type V = Map<Seq<char>, V::V>;

    closed spec fn view(&self) -> Map<Seq<char>, V::V> {
        entries_map(self.names@, self.values@)
    }
}

/// The map that a list of keys and the list of their values stand for.
spec fn entries_map<V: View>(names: Seq<String>, values: Seq<V>) -> Map<Seq<char>, V::V> {
    Map::new(
        |k: Seq<char>| exists|i: int| 0 <= i < names.len() && names[i]@ == k,
        |k: Seq<char>| values[choose|i: int| 0 <= i < names.len() && names[i]@ == k]@,
    )
}

/// Whether no two positions of `names` hold the same key.
spec fn distinct(names: Seq<String>) -> bool {
    forall|i: int, j: int| 0 <= i < j < names.len() ==> names[i]@ != names[j]@
}

/// The entry at a position is filed under that position's key.
proof fn lemma_entry<V: View>(names: Seq<String>, values: Seq<V>, i: int)
    requires
        distinct(names),
        0 <= i < names.len(),
    ensures
        entries_map(names, values).contains_key(names[i]@),
        entries_map(names, values)[names[i]@] == values[i]@,
{
    let k = names[i]@;
    let j = choose|j: int| 0 <= j < names.len() && names[j]@ == k;
    assert(j == i);
}

/// Replacing the value at one position replaces the value under that
/// position's key.
proof fn lemma_update_value<V: View>(names: Seq<String>, values: Seq<V>, i: int, value: V)
    requires
        names.len() == values.len(),
        0 <= i < names.len(),
        distinct(names),
    ensures
        entries_map(names, values.update(i, value)) == entries_map(names, values).insert(
            names[i]@,
            value@,
        ),
{
    let before = entries_map(names, values);
    let after = entries_map(names, values.update(i, value));
    assert forall|k: Seq<char>| #[trigger] after.contains_key(k) implies after[k]
        == before.insert(names[i]@, value@)[k] by {
        let j = choose|j: int| 0 <= j < names.len() && names[j]@ == k;
        lemma_entry(names, values, j);
        lemma_entry(names, values.update(i, value), j);
    }
    assert(after =~= before.insert(names[i]@, value@));
}

/// Adding an entry under a new key at the end adds it to the map.
proof fn lemma_push_entry<V: View>(names: Seq<String>, values: Seq<V>, key: String, value: V)
    requires
        names.len() == values.len(),
        distinct(names),
        forall|i: int| 0 <= i < names.len() ==> names[i]@ != key@,
    ensures
        distinct(names.push(key)),
        entries_map(names.push(key), values.push(value)) == entries_map(names, values).insert(
            key@,
            value@,
        ),
{
    let before = entries_map(names, values);
    let after = entries_map(names.push(key), values.push(value));
    let n = names.len() as int;
    assert(names.push(key)[n] == key);
    assert forall|k: Seq<char>|
        before.insert(key@, value@).contains_key(k) implies #[trigger] after.contains_key(k) by {
        if k == key@ {
            assert(names.push(key)[n]@ == k);
        } else {
            let j = choose|j: int| 0 <= j < names.len() && names[j]@ == k;
            assert(names.push(key)[j]@ == k);
        }
    }
    assert forall|k: Seq<char>| #[trigger] after.contains_key(k) implies before.insert(
        key@,
        value@,
    ).contains_key(k) && after[k] == before.insert(key@, value@)[k] by {
        let j = choose|j: int| 0 <= j < names.push(key).len() && names.push(key)[j]@ == k;
        lemma_entry(names.push(key), values.push(value), j);
        if j < n {
            assert(names[j]@ == k);
            lemma_entry(names, values, j);
        }
    }
    assert(after =~= before.insert(key@, value@));
}

/// Dropping the last entry removes its key from the map.
proof fn lemma_drop_last_entry<V: View>(names: Seq<String>, values: Seq<V>)
    requires
        names.len() == values.len(),
        names.len() > 0,
        distinct(names),
    ensures
        distinct(names.drop_last()),
        entries_map(names, values).contains_key(names.last()@),
        entries_map(names, values)[names.last()@] == values.last()@,
        entries_map(names.drop_last(), values.drop_last()) == entries_map(names, values).remove(
            names.last()@,
        ),
{
    let before = entries_map(names, values);
    let after = entries_map(names.drop_last(), values.drop_last());
    let n = names.len() - 1;
    lemma_entry(names, values, n);
    assert forall|k: Seq<char>|
        before.remove(names.last()@).contains_key(k) implies #[trigger] after.contains_key(k) by {
        let j = choose|j: int| 0 <= j < names.len() && names[j]@ == k;
        assert(j != n);
        assert(names.drop_last()[j]@ == k);
    }
    assert forall|k: Seq<char>| #[trigger] after.contains_key(k) implies before.remove(
        names.last()@,
    ).contains_key(k) && after[k] == before.remove(names.last()@)[k] by {
        let j = choose|j: int| 0 <= j < names.drop_last().len() && names.drop_last()[j]@ == k;
        lemma_entry(names.drop_last(), values.drop_last(), j);
        assert(names[j]@ == k);
        lemma_entry(names, values, j);
    }
    assert(after =~= before.remove(names.last()@));
}

/// What holds of the key at every position of `keys()` holds of every key
/// of the map: each key of the map stands at some position. (That `keys()`
/// lists the domain is what a call of `len` recalls.)
pub proof fn lemma_holds_of_every_key<V: View>(
    map: &StringMap<V>,
    holds: spec_fn(Seq<char>) -> bool,
)
    requires
        map.keys().to_set() == map@.dom(),
        forall|j: int| 0 <= j < map.keys().len() ==> holds(#[trigger] map.keys()[j]),
    ensures
        forall|key: Seq<char>| #[trigger] map@.contains_key(key) ==> holds(key),
{
    assert forall|key: Seq<char>| #[trigger] map@.contains_key(key) implies holds(key) by {
        assert(map.keys().to_set().contains(key));
        let j = map.keys().index_of(key);
        assert(map.keys()[j] == key);
    }
}

impl<V: View> StringMap<V> {
    /// The keys in the order in which the entries are stored.
    pub closed spec fn keys(&self) -> Seq<Seq<char>> {
        Seq::new(self.names@.len(), |i: int| self.names@[i]@)
    }

    /// The map without entries.
    pub fn new() -> (map: Self)
        ensures
            map@ == Map::<Seq<char>, V::V>::empty(),
            map.keys() == Seq::<Seq<char>>::empty(),
    {
        let map = StringMap { names: Vec::new(), values: Vec::new() };
        assert(map@ =~= Map::<Seq<char>, V::V>::empty());
        assert(map.keys() =~= Seq::<Seq<char>>::empty());
        map
    }

    /// The number of entries. The call also recalls that `keys()` lists
    /// the domain of the map and lists no key twice.
    pub fn len(&self) -> (n: usize)
        ensures
            n == self.keys().len(),
            n == self@.dom().len(),
            self@.dom().finite(),
            self.keys().no_duplicates(),
            self.keys().to_set() == self@.dom(),
    {
        proof {
            use_type_invariant(self);
            let keys = self.keys();
            assert forall|k: Seq<char>| keys.to_set().contains(k) <==> self@.dom().contains(k) by {
                if keys.contains(k) {
                    let i = choose|i: int| 0 <= i < keys.len() && keys[i] == k;
                    assert(self.names@[i]@ == k);
                }
                if self@.dom().contains(k) {
                    let i = choose|i: int| 0 <= i < self.names@.len() && self.names@[i]@ == k;
                    assert(keys[i] == k);
                }
            }
            assert(keys.to_set() =~= self@.dom());
            keys.unique_seq_to_set();
        }
        self.names.len()
    }

    /// The key of the entry at position `index`.
    pub fn key_at(&self, index: usize) -> (key: &String)
        requires
            index < self.keys().len(),
        ensures
            key@ == self.keys()[index as int],
            self@.contains_key(key@),
    {
        &self.names[index]
    }

    /// The value of the entry at position `index`.
    pub fn value_at(&self, index: usize) -> (value: &V)
        requires
            index < self.keys().len(),
        ensures
            self@.contains_key(self.keys()[index as int]),
            value@ == self@[self.keys()[index as int]],
    {
        proof {
            use_type_invariant(self);
        }
        &self.values[index]
    }

    /// Files `value` under `key`, in place of the value that was filed
    /// there, if any.
    pub fn insert(&mut self, key: String, value: V)
        ensures
            final(self)@ == old(self)@.insert(key@, value@),
    {
        proof {
            use_type_invariant(&*self);
        }
        match self.position(key.as_str()) {
            Some(i) => {
                proof {
                    lemma_update_value(self.names@, self.values@, i as int, value);
                }
                self.values[i] = value;
            },
            None => {
                let mut taken = StringMap { names: Vec::new(), values: Vec::new() };
                core::mem::swap(self, &mut taken);
                let StringMap { mut names, mut values } = taken;
                proof {
                    lemma_push_entry(names@, values@, key, value);
                }
                names.push(key);
                values.push(value);
                *self = StringMap { names, values };
            },
        }
    }

    /// Takes the entry that was stored last out of the map.
    pub fn pop(&mut self) -> (entry: Option<(String, V)>)
        ensures
            match entry {
                Some((key, value)) => {
                    &&& old(self)@.contains_key(key@)
                    &&& value@ == old(self)@[key@]
                    &&& final(self)@ == old(self)@.remove(key@)
                    &&& final(self).keys() == old(self).keys().drop_last()
                    &&& old(self).keys().len() > 0
                },
                None => old(self).keys().len() == 0 && final(self)@ == old(self)@
                    && old(self)@ == Map::<Seq<char>, V::V>::empty(),
            },
    {
        proof {
            use_type_invariant(&*self);
        }
        let mut taken = StringMap { names: Vec::new(), values: Vec::new() };
        core::mem::swap(self, &mut taken);
        let StringMap { mut names, mut values } = taken;
        let ghost names_before = names@;
        let ghost values_before = values@;
        match names.pop() {
            Some(key) => {
                let value = values.pop().unwrap();
                proof {
                    lemma_drop_last_entry(names_before, values_before);
                    assert(names@ =~= names_before.drop_last());
                    assert(values@ =~= values_before.drop_last());
                }
                *self = StringMap { names, values };
                proof {
                    assert(self.keys() =~= old(self).keys().drop_last());
                }
                Some((key, value))
            },
            None => {
                proof {
                    assert(entries_map(names_before, values_before) =~= Map::<
                        Seq<char>,
                        V::V,
                    >::empty());
                }
                *self = StringMap { names, values };
                None
            },
        }
    }

    /// The position of the entry under `key`, if there is one.
    fn position(&self, key: &str) -> (found: Option<usize>)
        ensures
            match found {
                Some(i) => i < self.names@.len() && self.names@[i as int]@ == key@,
                None => forall|i: int| 0 <= i < self.names@.len() ==> self.names@[i]@ != key@,
            },
    {
        let mut idx: usize = 0;
        while idx < self.names.len()
            invariant
                idx <= self.names@.len(),
                forall|i: int| 0 <= i < idx ==> self.names@[i]@ != key@,
            decreases self.names@.len() - idx,
        {
            if str_eq(self.names[idx].as_str(), key) {
                return Some(idx);
            }
            idx += 1;
        }
        None
    }

    /// Whether a value is filed under `key`.
    pub fn contains_key(&self, key: &str) -> (found: bool)
        ensures
            found == self@.contains_key(key@),
    {
        self.position(key).is_some()
    }

    /// The value filed under `key`, if there is one.
    pub fn get(&self, key: &str) -> (value: Option<&V>)
        ensures
            match value {
                Some(v) => self@.contains_key(key@) && v@ == self@[key@],
                None => !self@.contains_key(key@),
            },
    {
        proof {
            use_type_invariant(self);
        }
        match self.position(key) {
            Some(i) => Some(&self.values[i]),
            None => None,
        }
    }

    /// The value filed under `key`, if there is one, for changing in place.
    /// What the map holds afterwards is what it held before, with the value
    /// under `key` as the caller leaves it.
    pub fn get_mut(&mut self, key: &str) -> (value: Option<&mut V>)
        ensures
            match value {
                Some(v) => old(self)@.contains_key(key@) && v@ == old(self)@[key@]
                    && final(self)@ == old(self)@.insert(key@, final(v)@),
                None => !old(self)@.contains_key(key@) && final(self)@ == old(self)@,
            },
    {
        proof {
            use_type_invariant(&*self);
        }
        match self.position(key) {
            Some(i) => {
                proof {
                    assert forall|value: V|
                        entries_map(self.names@, self.values@.update(i as int, value))
                            == #[trigger] entries_map(self.names@, self.values@).insert(
                            key@,
                            value@,
                        ) by {
                        lemma_update_value(self.names@, self.values@, i as int, value);
                    }
                }
                Some(&mut self.values[i])
            },
            None => None,
        }
    }
}

} // verus!
