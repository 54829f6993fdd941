use crate::value::Value;
use vstd::prelude::*;

verus! {

/// A mapping from field names to dynamic values that keeps its fields in the
/// order in which they were first inserted. No name occurs twice.
#[derive(Debug, PartialEq)]
pub struct Object {
    entries: Vec<(String, Value)>,
}

/// The mapping that pairs each name of `keys` with the value at the same
/// position of `values`.
pub open spec fn fields_of(keys: Seq<Seq<char>>, values: Seq<Value>) -> Map<Seq<char>, Value> {
    Map::new(|k: Seq<char>| keys.contains(k), |k: Seq<char>| values[keys.index_of(k)])
}

impl View for Object {
    type V = Map<Seq<char>, Value>;

    open spec fn view(&self) -> Map<Seq<char>, Value> {
        fields_of(self.keys(), self.values())
    }
}

/// Removing position `i` from a duplicate-free key sequence, and from the
/// values beside it, removes exactly the key at `i` from the mapping.
proof fn lemma_fields_remove(keys: Seq<Seq<char>>, values: Seq<Value>, i: int)
    requires
        keys.no_duplicates(),
        keys.len() == values.len(),
        0 <= i < keys.len(),
    ensures
        keys.remove(i).no_duplicates(),
        !keys.remove(i).contains(keys[i]),
        fields_of(keys.remove(i), values.remove(i)) == fields_of(keys, values).remove(keys[i]),
        fields_of(keys, values)[keys[i]] == values[i],
{
    let k2 = keys.remove(i);
    let v2 = values.remove(i);
    assert forall|a: int| 0 <= a < k2.len() implies #[trigger] k2[a] == keys[if a < i {
        a
    } else {
        a + 1
    }] by {}
    assert forall|a: int| 0 <= a < v2.len() implies #[trigger] v2[a] == values[if a < i {
        a
    } else {
        a + 1
    }] by {}
    assert(keys.contains(keys[i]));
    assert(keys.index_of(keys[i]) == i);
    let m1 = fields_of(k2, v2);
    let m2 = fields_of(keys, values).remove(keys[i]);
    assert forall|k: Seq<char>| m1.dom().contains(k) <==> m2.dom().contains(k) by {
        if k2.contains(k) {
            let a = k2.index_of(k);
            assert(keys[if a < i { a } else { a + 1 }] == k);
            assert(keys.contains(k));
        }
        if keys.contains(k) && k != keys[i] {
            let b = keys.index_of(k);
            let a = if b < i { b } else { b - 1 };
            assert(k2[a] == k);
        }
    }
    assert forall|k: Seq<char>| m1.dom().contains(k) implies m1[k] == m2[k] by {
        let a = k2.index_of(k);
        let b = if a < i { a } else { a + 1 };
        assert(keys[b] == k);
        assert(keys.index_of(k) == b);
    }
    assert(m1 =~= m2);
}

/// Appending a key that is not among `keys`, and a value beside it, keeps the
/// keys free of duplicates and inserts exactly that pair into the mapping.
proof fn lemma_fields_push(keys: Seq<Seq<char>>, values: Seq<Value>, k: Seq<char>, v: Value)
    requires
        keys.no_duplicates(),
        keys.len() == values.len(),
        !keys.contains(k),
    ensures
        keys.push(k).no_duplicates(),
        fields_of(keys.push(k), values.push(v)) == fields_of(keys, values).insert(k, v),
{
    let k2 = keys.push(k);
    let v2 = values.push(v);
    let m1 = fields_of(k2, v2);
    let m2 = fields_of(keys, values).insert(k, v);
    assert(k2[keys.len() as int] == k);
    assert forall|x: Seq<char>| m1.dom().contains(x) <==> m2.dom().contains(x) by {
        if k2.contains(x) {
            let a = k2.index_of(x);
            if a < keys.len() {
                assert(keys[a] == x);
            }
        }
        if keys.contains(x) {
            let b = keys.index_of(x);
            assert(k2[b] == x);
        }
    }
    assert forall|x: Seq<char>| m1.dom().contains(x) implies m1[x] == m2[x] by {
        let a = k2.index_of(x);
        if a < keys.len() {
            assert(keys[a] == x);
            assert(keys.index_of(x) == a);
        }
    }
    assert(m1 =~= m2);
}

/// Replacing the value at position `i` replaces exactly the value of the key
/// at `i` in the mapping.
proof fn lemma_fields_update(keys: Seq<Seq<char>>, values: Seq<Value>, i: int, v: Value)
    requires
        keys.no_duplicates(),
        keys.len() == values.len(),
        0 <= i < keys.len(),
    ensures
        fields_of(keys, values.update(i, v)) == fields_of(keys, values).insert(keys[i], v),
        fields_of(keys, values)[keys[i]] == values[i],
{
    let m1 = fields_of(keys, values.update(i, v));
    let m2 = fields_of(keys, values).insert(keys[i], v);
    assert(keys.contains(keys[i]));
    assert(keys.index_of(keys[i]) == i);
    assert forall|x: Seq<char>| m1.dom().contains(x) implies m1[x] == m2[x] by {
        let a = keys.index_of(x);
        assert(keys[a] == x);
    }
    assert(m1 =~= m2);
}

impl Object {
    /// The field names, in insertion order.
    pub closed spec fn keys(&self) -> Seq<Seq<char>> {
        self.entries@.map_values(|e: (String, Value)| e.0@)
    }

    /// The field values, each at the position of its name in `keys`.
    pub closed spec fn values(&self) -> Seq<Value> {
        self.entries@.map_values(|e: (String, Value)| e.1)
    }

    #[verifier::type_invariant]
    closed spec fn names_distinct(&self) -> bool {
        self.keys().no_duplicates()
    }

    /// An object without fields.
    pub fn new() -> (o: Object)
        ensures
            o.keys() == Seq::<Seq<char>>::empty(),
            o.values() == Seq::<Value>::empty(),
            o@ == Map::<Seq<char>, Value>::empty(),
    {
        let o = Object { entries: Vec::new() };
        assert(o@ =~= Map::<Seq<char>, Value>::empty());
        o
    }

    /// The number of fields.
    pub fn len(&self) -> (n: usize)
        ensures
            n == self.keys().len(),
            n == self.values().len(),
            self.keys().no_duplicates(),
    {
        proof {
            use_type_invariant(self);
        }
        self.entries.len()
    }

    /// The value of the field named `k`, or `None` where the object has no
    /// such field.
    pub fn get(&self, k: &str) -> (r: Option<&Value>)
        ensures
            (match r {
                Some(v) => self@.contains_key(k@) && *v == self@[k@],
                None => !self@.contains_key(k@),
            }),
    {
        proof {
            use_type_invariant(self);
        }
        let name = k.to_owned();
        let mut i: usize = 0;
        while i < self.entries.len()
            invariant
                i <= self.entries.len(),
                name@ == k@,
                self.keys().no_duplicates(),
                forall|j: int| 0 <= j < i ==> self.keys()[j] != k@,
            decreases self.entries.len() - i,
        {
            if self.entries[i].0 == name {
                proof {
                    assert(self.keys()[i as int] == k@);
                    assert(self.keys().contains(k@));
                    assert(self.keys().index_of(k@) == i);
                }
                return Some(&self.entries[i].1);
            }
            i += 1;
        }
        assert(!self.keys().contains(k@));
        None
    }

    /// Sets the field named `key` to `value` and hands back the value that
    /// the field held before, if any. A new field goes behind the others;
    /// a field that was there keeps its place.
    pub fn insert(&mut self, key: String, value: Value) -> (r: Option<Value>)
        ensures
            r == old(self)@.get(key@),
            final(self)@ == old(self)@.insert(key@, value),
            old(self)@.contains_key(key@) ==> final(self).keys() == old(self).keys(),
            old(self)@.contains_key(key@) ==> final(self).values() == old(self).values().update(
                old(self).keys().index_of(key@),
                value,
            ),
            !old(self)@.contains_key(key@) ==> final(self).keys() == old(self).keys().push(key@),
            !old(self)@.contains_key(key@) ==> final(self).values() == old(self).values().push(
                value,
            ),
    {
        proof {
            use_type_invariant(&*self);
        }
        let mut entries: Vec<(String, Value)> = Vec::new();
        std::mem::swap(&mut self.entries, &mut entries);
        let ghost keys = old(self).keys();
        let ghost values = old(self).values();
        assert(entries@ == old(self).entries@);
        let mut i: usize = 0;
        while i < entries.len()
            invariant
                i <= entries.len(),
                entries@ == old(self).entries@,
                keys == old(self).keys(),
                values == old(self).values(),
                keys.no_duplicates(),
                self.entries@.len() == 0,
                forall|j: int| 0 <= j < i ==> keys[j] != key@,
            decreases entries.len() - i,
        {
            if entries[i].0 == key {
                proof {
                    lemma_fields_update(keys, values, i as int, value);
                    assert(keys[i as int] == key@);
                    assert(keys.contains(key@));
                }
                let mut entry = (key, value);
                entries.set_and_swap(i, &mut entry);
                assert(entries@.map_values(|e: (String, Value)| e.0@) =~= keys);
                assert(entries@.map_values(|e: (String, Value)| e.1) =~= values.update(
                    i as int,
                    value,
                ));
                std::mem::swap(&mut self.entries, &mut entries);
                return Some(entry.1);
            }
            i += 1;
        }
        proof {
            assert(!keys.contains(key@));
            lemma_fields_push(keys, values, key@, value);
        }
        entries.push((key, value));
        assert(entries@.map_values(|e: (String, Value)| e.0@) =~= keys.push(key@));
        assert(entries@.map_values(|e: (String, Value)| e.1) =~= values.push(value));
        std::mem::swap(&mut self.entries, &mut entries);
        None
    }

    /// Hands out the fields as pairs of name and value, in insertion order.
    pub fn into_entries(self) -> (v: Vec<(String, Value)>)
        ensures
            v@.len() == self.keys().len(),
            v@.len() == self.values().len(),
            forall|i: int| 0 <= i < v@.len() ==> (#[trigger] v@[i]).0@ == self.keys()[i],
            forall|i: int| 0 <= i < v@.len() ==> (#[trigger] v@[i]).1 == self.values()[i],
            self.keys().no_duplicates(),
    {
        proof {
            use_type_invariant(&self);
        }
        self.entries
    }

    /// Removes the field named `k` and hands back its value, or `None` where
    /// the object has no such field. The other fields keep their order.
    pub fn remove(&mut self, k: &str) -> (r: Option<Value>)
        ensures
            r == old(self)@.get(k@),
            final(self)@ == old(self)@.remove(k@),
            old(self)@.contains_key(k@) ==> final(self).keys() == old(self).keys().remove(
                old(self).keys().index_of(k@),
            ),
            old(self)@.contains_key(k@) ==> final(self).values() == old(self).values().remove(
                old(self).keys().index_of(k@),
            ),
            !old(self)@.contains_key(k@) ==> final(self).keys() == old(self).keys(),
            !old(self)@.contains_key(k@) ==> final(self).values() == old(self).values(),
    {
        proof {
            use_type_invariant(&*self);
        }
        let name = k.to_owned();
        let mut i: usize = 0;
        while i < self.entries.len()
            invariant
                i <= self.entries.len(),
                *self == *old(self),
                name@ == k@,
                self.keys().no_duplicates(),
                forall|j: int| 0 <= j < i ==> self.keys()[j] != k@,
            decreases self.entries.len() - i,
        {
            if self.entries[i].0 == name {
                proof {
                    lemma_fields_remove(self.keys(), self.values(), i as int);
                    assert(self.keys()[i as int] == k@);
                    assert(self.keys().contains(k@));
                }
                let mut entries: Vec<(String, Value)> = Vec::new();
                std::mem::swap(&mut self.entries, &mut entries);
                let e = entries.remove(i);
                assert(entries@.map_values(|e: (String, Value)| e.0@) =~= old(self).keys().remove(
                    i as int,
                ));
                std::mem::swap(&mut self.entries, &mut entries);
                assert(self.keys() =~= old(self).keys().remove(i as int));
                assert(self.values() =~= old(self).values().remove(i as int));
                return Some(e.1);
            }
            i += 1;
        }
        assert(!self.keys().contains(k@));
        assert(self@.remove(k@) =~= self@);
        None
    }
}

} // verus!
