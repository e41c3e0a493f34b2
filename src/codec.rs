//! Typed conversion between in-process values and encoded values.
use crate::value::{Value, field_of, str_of};
use vstd::prelude::*;

verus! {

/// A type with an encoding into [`Value`] and a decoding back.
///
/// `encodes(m, v)` says that `v` is the encoding of the model `m`, and
/// `decoded(v)` says what decoding `v` gives. Every encoding is decoded back
/// to the model it came from, and no encoding is null (null is kept for an
/// absent optional value).
pub trait Codec: Sized + DeepView {
    spec fn encodes(m: Self::V, v: Value) -> bool;

    spec fn decoded(v: Value) -> Option<Self::V>;

    fn to_value(&self) -> (v: Value)
        ensures
            Self::encodes(self.deep_view(), v);

    fn from_value(v: &Value) -> (r: Option<Self>)
        ensures
            r matches Some(x) ==> Self::decoded(*v) == Some(x.deep_view()),
            r is None <==> Self::decoded(*v) is None;

    /// Decoding an encoding gives back the encoded model.
    proof fn lemma_round_trip(m: Self::V, v: Value)
        requires
            Self::encodes(m, v),
        ensures
            Self::decoded(v) == Some(m),
            !(v is Null);
}

impl Codec for bool {
    open spec fn encodes(m: bool, v: Value) -> bool {
        v == Value::Bool(m)
    }

    open spec fn decoded(v: Value) -> Option<bool> {
        match v {
            Value::Bool(b) => Some(b),
            _ => None,
        }
    }

    fn to_value(&self) -> (v: Value) {
        Value::Bool(*self)
    }

    fn from_value(v: &Value) -> (r: Option<bool>) {
        match v {
            Value::Bool(b) => Some(*b),
            _ => None,
        }
    }

    proof fn lemma_round_trip(m: bool, v: Value) {
    }
}

impl Codec for i64 {
    open spec fn encodes(m: i64, v: Value) -> bool {
        v matches Value::Int(i) && i == m
    }

    open spec fn decoded(v: Value) -> Option<i64> {
        match v {
            Value::Int(i) => if i64::MIN <= i <= i64::MAX {
                Some(i as i64)
            } else {
                None
            },
            _ => None,
        }
    }

    fn to_value(&self) -> (v: Value) {
        Value::Int(*self as i128)
    }

    fn from_value(v: &Value) -> (r: Option<i64>) {
        match v {
            Value::Int(i) => if i64::MIN as i128 <= *i && *i <= i64::MAX as i128 {
                Some(*i as i64)
            } else {
                None
            },
            _ => None,
        }
    }

    proof fn lemma_round_trip(m: i64, v: Value) {
    }
}

impl Codec for isize {
    open spec fn encodes(m: isize, v: Value) -> bool {
        v matches Value::Int(i) && i == m
    }

    open spec fn decoded(v: Value) -> Option<isize> {
        match v {
            Value::Int(i) => if isize::MIN <= i <= isize::MAX {
                Some(i as isize)
            } else {
                None
            },
            _ => None,
        }
    }

    fn to_value(&self) -> (v: Value) {
        Value::Int(*self as i128)
    }

    fn from_value(v: &Value) -> (r: Option<isize>) {
        match v {
            Value::Int(i) => if isize::MIN as i128 <= *i && *i <= isize::MAX as i128 {
                Some(*i as isize)
            } else {
                None
            },
            _ => None,
        }
    }

    proof fn lemma_round_trip(m: isize, v: Value) {
    }
}

impl Codec for u64 {
    open spec fn encodes(m: u64, v: Value) -> bool {
        v matches Value::Int(i) && i == m
    }

    open spec fn decoded(v: Value) -> Option<u64> {
        match v {
            Value::Int(i) => if 0 <= i <= u64::MAX {
                Some(i as u64)
            } else {
                None
            },
            _ => None,
        }
    }

    fn to_value(&self) -> (v: Value) {
        Value::Int(*self as i128)
    }

    fn from_value(v: &Value) -> (r: Option<u64>) {
        match v {
            Value::Int(i) => if 0 <= *i && *i <= u64::MAX as i128 {
                Some(*i as u64)
            } else {
                None
            },
            _ => None,
        }
    }

    proof fn lemma_round_trip(m: u64, v: Value) {
    }
}

impl Codec for usize {
    open spec fn encodes(m: usize, v: Value) -> bool {
        v matches Value::Int(i) && i == m
    }

    open spec fn decoded(v: Value) -> Option<usize> {
        match v {
            Value::Int(i) => if 0 <= i <= usize::MAX {
                Some(i as usize)
            } else {
                None
            },
            _ => None,
        }
    }

    fn to_value(&self) -> (v: Value) {
        Value::Int(*self as i128)
    }

    fn from_value(v: &Value) -> (r: Option<usize>) {
        match v {
            Value::Int(i) => if 0 <= *i && *i <= usize::MAX as i128 {
                Some(*i as usize)
            } else {
                None
            },
            _ => None,
        }
    }

    proof fn lemma_round_trip(m: usize, v: Value) {
    }
}

impl Codec for String {
    open spec fn encodes(m: Seq<char>, v: Value) -> bool {
        str_of(v) == Some(m)
    }

    open spec fn decoded(v: Value) -> Option<Seq<char>> {
        str_of(v)
    }

    fn to_value(&self) -> (v: Value) {
        Value::Str(self.clone())
    }

    fn from_value(v: &Value) -> (r: Option<String>) {
        match v {
            Value::Str(s) => Some(s.clone()),
            _ => None,
        }
    }

    proof fn lemma_round_trip(m: Seq<char>, v: Value) {
    }
}

/// Every item of `items` decodes.
pub open spec fn all_decode<T: Codec>(items: Seq<Value>) -> bool {
    forall|i: int| 0 <= i < items.len() ==> (#[trigger] T::decoded(items[i])) is Some
}

impl<T: Codec> Codec for Vec<T> {
    open spec fn encodes(m: Seq<T::V>, v: Value) -> bool {
        v matches Value::Array(items) && items@.len() == m.len() && forall|i: int|
            0 <= i < m.len() ==> T::encodes(#[trigger] m[i], items@[i])
    }

    open spec fn decoded(v: Value) -> Option<Seq<T::V>> {
        match v {
            Value::Array(items) => if all_decode::<T>(items@) {
                Some(Seq::new(items@.len(), |i: int| T::decoded(items@[i])->0))
            } else {
                None
            },
            _ => None,
        }
    }

    fn to_value(&self) -> (v: Value) {
        let mut items: Vec<Value> = Vec::new();
        let mut i: usize = 0;
        while i < self.len()
            invariant
                0 <= i <= self@.len(),
                items@.len() == i,
                forall|j: int| 0 <= j < i ==> T::encodes(#[trigger] self@[j].deep_view(), items@[j]),
            decreases self.len() - i,
        {
            let x = self[i].to_value();
            items.push(x);
            i = i + 1;
        }
        let v = Value::Array(items);
        proof {
            let m = self.deep_view();
            assert forall|j: int| 0 <= j < m.len() implies T::encodes(#[trigger] m[j], items@[j]) by {
                assert(m[j] == self@[j].deep_view());
            }
        }
        v
    }

    fn from_value(v: &Value) -> (r: Option<Vec<T>>) {
        match v {
            Value::Array(items) => {
                let mut out: Vec<T> = Vec::new();
                let mut i: usize = 0;
                while i < items.len()
                    invariant
                        0 <= i <= items@.len(),
                        *v == Value::Array(*items),
                        out@.len() == i,
                        forall|j: int| 0 <= j < i ==> T::decoded(items@[j]) == Some(
                            #[trigger] out@[j].deep_view(),
                        ),
                    decreases items.len() - i,
                {
                    match T::from_value(&items[i]) {
                        Some(x) => {
                            out.push(x);
                        },
                        None => {
                            proof {
                                assert(T::decoded(items@[i as int]) is None);
                            }
                            return None;
                        },
                    }
                    i = i + 1;
                }
                proof {
                    let want = Seq::new(items@.len(), |k: int| T::decoded(items@[k])->0);
                    assert forall|k: int| 0 <= k < items@.len() implies (#[trigger] T::decoded(
                        items@[k],
                    )) is Some by {
                        assert(T::decoded(items@[k]) == Some(out@[k].deep_view()));
                    }
                    assert(out.deep_view() =~= want);
                }
                Some(out)
            },
            _ => None,
        }
    }

    proof fn lemma_round_trip(m: Seq<T::V>, v: Value) {
        if let Value::Array(items) = v {
            assert forall|i: int| 0 <= i < items@.len() implies (#[trigger] T::decoded(
                items@[i],
            )) is Some by {
                T::lemma_round_trip(m[i], items@[i]);
            }
            assert forall|i: int| 0 <= i < items@.len() implies T::decoded(items@[i])->0 == m[i] by {
                T::lemma_round_trip(m[i], items@[i]);
            }
            assert(Seq::new(items@.len(), |i: int| T::decoded(items@[i])->0) =~= m);
        }
    }
}

/// `v` encodes the optional model `m`: null for none.
pub open spec fn opt_encodes<T: Codec>(m: Option<T::V>, v: Value) -> bool {
    match m {
        None => v is Null,
        Some(x) => T::encodes(x, v),
    }
}

/// Decoding `v` as an optional value: null is none.
pub open spec fn opt_decoded<T: Codec>(v: Value) -> Option<Option<T::V>> {
    match v {
        Value::Null => Some(None),
        _ => match T::decoded(v) {
            Some(x) => Some(Some(x)),
            None => None,
        },
    }
}

/// Encodes an optional value: null for none.
pub fn option_to_value<T: Codec>(x: &Option<T>) -> (v: Value)
    ensures
        opt_encodes::<T>(x.deep_view(), v),
{
    match x {
        Some(y) => y.to_value(),
        None => Value::Null,
    }
}

/// Decodes an optional value: null is none.
pub fn option_from_value<T: Codec>(v: &Value) -> (r: Option<Option<T>>)
    ensures
        r matches Some(x) ==> opt_decoded::<T>(*v) == Some(x.deep_view()),
        r is None <==> opt_decoded::<T>(*v) is None,
{
    match v {
        Value::Null => Some(None),
        _ => match T::from_value(v) {
            Some(x) => Some(Some(x)),
            None => None,
        },
    }
}

/// Decoding the encoding of an optional value gives it back.
pub proof fn lemma_option_round_trip<T: Codec>(m: Option<T::V>, v: Value)
    requires
        opt_encodes::<T>(m, v),
    ensures
        opt_decoded::<T>(v) == Some(m),
{
    if let Some(x) = m {
        T::lemma_round_trip(x, v);
    }
}

/// For every type with a codec, decoding the encoding of a value gives back
/// that value.
pub proof fn lemma_codec_round_trip<T: Codec>(x: T, v: Value)
    requires
        T::encodes(x.deep_view(), v),
    ensures
        T::decoded(v) == Some(x.deep_view()),
{
    T::lemma_round_trip(x.deep_view(), v);
}

} // verus!

verus! {

/// Decoding the optional field `key` of `v`: an absent or null field is none.
pub open spec fn opt_field<T: Codec>(v: Value, key: Seq<char>) -> Option<Option<T::V>> {
    match field_of(v, key) {
        None => Some(None),
        Some(f) => opt_decoded::<T>(f),
    }
}

/// Decodes the optional field `key` of `v`: an absent or null field is none.
pub fn option_field<T: Codec>(v: &Value, key: &str) -> (r: Option<Option<T>>)
    ensures
        r matches Some(x) ==> opt_field::<T>(*v, key@) == Some(x.deep_view()),
        r is None <==> opt_field::<T>(*v, key@) is None,
{
    match v.field(key) {
        None => Some(None),
        Some(f) => option_from_value(f),
    }
}

/// Decoding `v` as `T` once it is the encoding of `m`, wrapped as an
/// optional field.
pub proof fn lemma_opt_field<T: Codec>(m: Option<T::V>, v: Value, key: Seq<char>)
    requires
        field_of(v, key) matches Some(f) && opt_encodes::<T>(m, f),
    ensures
        opt_field::<T>(v, key) == Some(m),
{
    lemma_option_round_trip::<T>(m, field_of(v, key)->0);
}

} // verus!
