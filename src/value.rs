//! The structured, self-describing encoding exchanged with the host.
use vstd::prelude::*;

verus! {

/// An encoded value: maps with string keys, arrays, integers, strings,
/// booleans and null.
#[derive(Debug, PartialEq)]
pub enum Value {
    Null,
    Bool(bool),
    Int(i128),
    Str(String),
    Array(Vec<Value>),
    Object(Vec<(String, Value)>),
}

impl DeepView for Value {
    type V = Value;

    open spec fn deep_view(&self) -> Value {
        *self
    }
}

/// The value stored under `key` in a list of fields (the first such entry).
pub open spec fn lookup(fields: Seq<(String, Value)>, key: Seq<char>) -> Option<Value>
    decreases fields.len(),
{
    if fields.len() == 0 {
        None
    } else if fields[0].0@ == key {
        Some(fields[0].1)
    } else {
        lookup(fields.drop_first(), key)
    }
}

/// The field `key` of `v`, when `v` is an object holding it.
pub open spec fn field_of(v: Value, key: Seq<char>) -> Option<Value> {
    match v {
        Value::Object(fields) => lookup(fields@, key),
        _ => None,
    }
}

/// The string held by `v`, if it is one.
pub open spec fn str_of(v: Value) -> Option<Seq<char>> {
    match v {
        Value::Str(s) => Some(s@),
        _ => None,
    }
}

/// `v` is an object whose field `key` is the string `s`.
pub open spec fn has_str_field(v: Value, key: Seq<char>, s: Seq<char>) -> bool {
    field_of(v, key) matches Some(f) && str_of(f) == Some(s)
}

/// A string with the same characters as `s`.
pub fn text(s: &str) -> (r: String)
    ensures
        r@ == s@,
{
    s.to_owned()
}

impl Value {
    /// The string value `s`.
    pub fn string(s: &str) -> (r: Value)
        ensures
            str_of(r) == Some(s@),
    {
        Value::Str(text(s))
    }

    /// The field `key` of this value, when it is an object holding it.
    pub fn get(&self, key: &String) -> (r: Option<&Value>)
        ensures
            r matches Some(x) ==> field_of(*self, key@) == Some(*x),
            r is None ==> field_of(*self, key@) is None,
    {
        match self {
            Value::Object(fields) => {
                let mut i: usize = 0;
                proof {
                    assert(fields@.subrange(0, fields@.len() as int) =~= fields@);
                }
                while i < fields.len()
                    invariant
                        0 <= i <= fields@.len(),
                        field_of(*self, key@) == lookup(fields@, key@),
                        lookup(fields@, key@) == lookup(fields@.subrange(i as int, fields@.len() as int), key@),
                    decreases fields.len() - i,
                {
                    proof {
                        let rest = fields@.subrange(i as int, fields@.len() as int);
                        assert(rest.drop_first() =~= fields@.subrange(i + 1, fields@.len() as int));
                    }
                    if fields[i].0 == *key {
                        proof {
                            let rest = fields@.subrange(i as int, fields@.len() as int);
                            assert(rest[0] == fields@[i as int]);
                        }
                        return Some(&fields[i].1);
                    }
                    i = i + 1;
                }
                proof {
                    assert(fields@.subrange(i as int, fields@.len() as int).len() == 0);
                }
                None
            }
            _ => None,
        }
    }

    /// The field `key` of this value, when it is an object holding it.
    pub fn field(&self, key: &str) -> (r: Option<&Value>)
        ensures
            r matches Some(x) ==> field_of(*self, key@) == Some(*x),
            r is None ==> field_of(*self, key@) is None,
    {
        let k = text(key);
        self.get(&k)
    }

    /// The string held by this value, if it is one.
    pub fn as_str(&self) -> (r: Option<&String>)
        ensures
            r matches Some(s) ==> str_of(*self) == Some(s@),
            r is None ==> str_of(*self) is None,
    {
        match self {
            Value::Str(s) => Some(s),
            _ => None,
        }
    }

    /// Whether this value is null.
    pub fn is_null(&self) -> (r: bool)
        ensures
            r == (*self is Null),
    {
        match self {
            Value::Null => true,
            _ => false,
        }
    }
}

/// Looking a key up after appending a field finds an earlier entry first,
/// else the new one.
pub proof fn lemma_lookup_push(fields: Seq<(String, Value)>, f: (String, Value), key: Seq<char>)
    ensures
        lookup(fields.push(f), key) == (if lookup(fields, key) is Some {
            lookup(fields, key)
        } else if f.0@ == key {
            Some(f.1)
        } else {
            None
        }),
    decreases fields.len(),
{
    if fields.len() == 0 {
        assert(fields.push(f)[0] == f);
        assert(fields.push(f).drop_first().len() == 0);
        assert(lookup(fields.push(f).drop_first(), key) is None);
        assert(lookup(fields, key) is None);
    } else {
        assert(fields.push(f)[0] == fields[0]);
        assert(fields.push(f).drop_first() =~= fields.drop_first().push(f));
        lemma_lookup_push(fields.drop_first(), f, key);
        assert(lookup(fields.push(f), key) == (if fields[0].0@ == key {
            Some(fields[0].1)
        } else {
            lookup(fields.drop_first().push(f), key)
        }));
    }
}

/// Appends the field `(key, v)` to a list of fields.
pub fn push_field(fields: &mut Vec<(String, Value)>, key: &str, v: Value)
    ensures
        final(fields)@.len() == old(fields)@.len() + 1,
        forall|k: Seq<char>|
            #[trigger] lookup(final(fields)@, k) == (if lookup(old(fields)@, k) is Some {
                lookup(old(fields)@, k)
            } else if key@ == k {
                Some(v)
            } else {
                None
            }),
{
    let f = (text(key), v);
    proof {
        assert forall|k: Seq<char>| #[trigger] lookup(fields@.push(f), k) == (if lookup(fields@, k) is Some {
            lookup(fields@, k)
        } else if key@ == k {
            Some(v)
        } else {
            None
        }) by {
            lemma_lookup_push(fields@, f, k);
        }
    }
    fields.push(f);
}

/// An object with the two fields `(k1, v1)` and `(k2, v2)`.
pub fn object2(k1: &str, v1: Value, k2: &str, v2: Value) -> (r: Value)
    requires
        k1@ != k2@,
    ensures
        field_of(r, k1@) == Some(v1),
        field_of(r, k2@) == Some(v2),
        r is Object,
{
    let mut fields: Vec<(String, Value)> = Vec::new();
    push_field(&mut fields, k1, v1);
    push_field(&mut fields, k2, v2);
    Value::Object(fields)
}

} // verus!
