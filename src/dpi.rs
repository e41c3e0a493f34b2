//! Sizes and positions, in logical or physical pixels.
use crate::codec::Codec;
use crate::value::{Value, field_of, push_field};
use vstd::prelude::*;

verus! {

pub type PixelCount = isize;

#[derive(Debug, PartialEq, Eq, Structural)]
pub enum Kind {
    Logical,
    Physical,
}

/// `v` is an object whose fields `k1` and `k2` encode `a` and `b`.
pub open spec fn pair_encodes(k1: Seq<char>, k2: Seq<char>, a: isize, b: isize, v: Value) -> bool {
    &&& v is Object
    &&& (field_of(v, k1) matches Some(f) && isize::encodes(a, f))
    &&& (field_of(v, k2) matches Some(f) && isize::encodes(b, f))
}

/// Decoding the fields `k1` and `k2` of `v` as a pair of pixel counts.
pub open spec fn pair_decoded(k1: Seq<char>, k2: Seq<char>, v: Value) -> Option<(isize, isize)> {
    match (field_of(v, k1), field_of(v, k2)) {
        (Some(f), Some(g)) => match (isize::decoded(f), isize::decoded(g)) {
            (Some(a), Some(b)) => Some((a, b)),
            _ => None,
        },
        _ => None,
    }
}

fn pair_value(k1: &str, a: isize, k2: &str, b: isize) -> (v: Value)
    requires
        k1@ != k2@,
    ensures
        pair_encodes(k1@, k2@, a, b, v),
{
    let mut fields: Vec<(String, Value)> = Vec::new();
    push_field(&mut fields, k1, a.to_value());
    push_field(&mut fields, k2, b.to_value());
    Value::Object(fields)
}

fn pair_from_value(v: &Value, k1: &str, k2: &str) -> (r: Option<(isize, isize)>)
    ensures
        r == pair_decoded(k1@, k2@, *v),
{
    let f = match v.field(k1) {
        Some(f) => f,
        None => {
            return None;
        },
    };
    let g = match v.field(k2) {
        Some(g) => g,
        None => {
            return None;
        },
    };
    match (isize::from_value(f), isize::from_value(g)) {
        (Some(a), Some(b)) => Some((a, b)),
        _ => None,
    }
}

proof fn lemma_pair_round_trip(k1: Seq<char>, k2: Seq<char>, a: isize, b: isize, v: Value)
    requires
        pair_encodes(k1, k2, a, b, v),
    ensures
        pair_decoded(k1, k2, v) == Some((a, b)),
{
    isize::lemma_round_trip(a, field_of(v, k1)->0);
    isize::lemma_round_trip(b, field_of(v, k2)->0);
}

proof fn lemma_dpi_keys()
    ensures
        "width"@ != "height"@,
        "x"@ != "y"@,
{
    reveal_strlit("width");
    reveal_strlit("height");
    reveal_strlit("x");
    reveal_strlit("y");
    assert("width"@.len() == 5 && "height"@.len() == 6);
    assert("x"@[0] != "y"@[0]);
}

/// A size represented in logical pixels.
#[derive(Clone, Copy, Debug, PartialEq, Eq)]
pub struct LogicalSize {
    width: PixelCount,
    height: PixelCount,
}

/// A size represented in physical pixels.
#[derive(Clone, Copy, Debug, PartialEq, Eq)]
pub struct PhysicalSize {
    width: PixelCount,
    height: PixelCount,
}

/// A position represented in logical pixels.
#[derive(Clone, Copy, Debug, PartialEq, Eq)]
pub struct LogicalPosition {
    x: PixelCount,
    y: PixelCount,
}

/// A position represented in physical pixels.
#[derive(Clone, Copy, Debug, PartialEq, Eq)]
pub struct PhysicalPosition {
    x: PixelCount,
    y: PixelCount,
}

impl DeepView for LogicalSize {
    type V = (isize, isize);

    closed spec fn deep_view(&self) -> (isize, isize) {
        (self.width, self.height)
    }
}

impl DeepView for PhysicalSize {
    type V = (isize, isize);

    closed spec fn deep_view(&self) -> (isize, isize) {
        (self.width, self.height)
    }
}

impl DeepView for LogicalPosition {
    type V = (isize, isize);

    closed spec fn deep_view(&self) -> (isize, isize) {
        (self.x, self.y)
    }
}

impl DeepView for PhysicalPosition {
    type V = (isize, isize);

    closed spec fn deep_view(&self) -> (isize, isize) {
        (self.x, self.y)
    }
}

impl LogicalSize {
    pub fn new(width: PixelCount, height: PixelCount) -> (r: LogicalSize)
        ensures
            r.deep_view() == (width, height),
    {
        LogicalSize { width, height }
    }

    pub fn kind() -> (r: Kind)
        ensures
            r == Kind::Logical,
    {
        Kind::Logical
    }

    pub fn width(&self) -> (r: PixelCount)
        ensures
            r == self.deep_view().0,
    {
        self.width
    }

    pub fn height(&self) -> (r: PixelCount)
        ensures
            r == self.deep_view().1,
    {
        self.height
    }
}

impl PhysicalSize {
    pub fn new(width: PixelCount, height: PixelCount) -> (r: PhysicalSize)
        ensures
            r.deep_view() == (width, height),
    {
        PhysicalSize { width, height }
    }

    pub fn kind() -> (r: Kind)
        ensures
            r == Kind::Physical,
    {
        Kind::Physical
    }

    pub fn width(&self) -> (r: PixelCount)
        ensures
            r == self.deep_view().0,
    {
        self.width
    }

    pub fn height(&self) -> (r: PixelCount)
        ensures
            r == self.deep_view().1,
    {
        self.height
    }
}

impl LogicalPosition {
    pub fn new(x: PixelCount, y: PixelCount) -> (r: LogicalPosition)
        ensures
            r.deep_view() == (x, y),
    {
        LogicalPosition { x, y }
    }

    pub fn kind() -> (r: Kind)
        ensures
            r == Kind::Logical,
    {
        Kind::Logical
    }

    pub fn x(&self) -> (r: PixelCount)
        ensures
            r == self.deep_view().0,
    {
        self.x
    }

    pub fn y(&self) -> (r: PixelCount)
        ensures
            r == self.deep_view().1,
    {
        self.y
    }
}

impl PhysicalPosition {
    pub fn new(x: PixelCount, y: PixelCount) -> (r: PhysicalPosition)
        ensures
            r.deep_view() == (x, y),
    {
        PhysicalPosition { x, y }
    }

    pub fn kind() -> (r: Kind)
        ensures
            r == Kind::Physical,
    {
        Kind::Physical
    }

    pub fn x(&self) -> (r: PixelCount)
        ensures
            r == self.deep_view().0,
    {
        self.x
    }

    pub fn y(&self) -> (r: PixelCount)
        ensures
            r == self.deep_view().1,
    {
        self.y
    }
}

impl Codec for LogicalSize {
    open spec fn encodes(m: (isize, isize), v: Value) -> bool {
        pair_encodes("width"@, "height"@, m.0, m.1, v)
    }

    open spec fn decoded(v: Value) -> Option<(isize, isize)> {
        pair_decoded("width"@, "height"@, v)
    }

    fn to_value(&self) -> (v: Value) {
        proof {
            lemma_dpi_keys();
        }
        pair_value("width", self.width, "height", self.height)
    }

    fn from_value(v: &Value) -> (r: Option<LogicalSize>) {
        match pair_from_value(v, "width", "height") {
            Some((width, height)) => Some(LogicalSize { width, height }),
            None => None,
        }
    }

    proof fn lemma_round_trip(m: (isize, isize), v: Value) {
        lemma_pair_round_trip("width"@, "height"@, m.0, m.1, v);
    }
}

impl Codec for PhysicalSize {
    open spec fn encodes(m: (isize, isize), v: Value) -> bool {
        pair_encodes("width"@, "height"@, m.0, m.1, v)
    }

    open spec fn decoded(v: Value) -> Option<(isize, isize)> {
        pair_decoded("width"@, "height"@, v)
    }

    fn to_value(&self) -> (v: Value) {
        proof {
            lemma_dpi_keys();
        }
        pair_value("width", self.width, "height", self.height)
    }

    fn from_value(v: &Value) -> (r: Option<PhysicalSize>) {
        match pair_from_value(v, "width", "height") {
            Some((width, height)) => Some(PhysicalSize { width, height }),
            None => None,
        }
    }

    proof fn lemma_round_trip(m: (isize, isize), v: Value) {
        lemma_pair_round_trip("width"@, "height"@, m.0, m.1, v);
    }
}

impl Codec for LogicalPosition {
    open spec fn encodes(m: (isize, isize), v: Value) -> bool {
        pair_encodes("x"@, "y"@, m.0, m.1, v)
    }

    open spec fn decoded(v: Value) -> Option<(isize, isize)> {
        pair_decoded("x"@, "y"@, v)
    }

    fn to_value(&self) -> (v: Value) {
        proof {
            lemma_dpi_keys();
        }
        pair_value("x", self.x, "y", self.y)
    }

    fn from_value(v: &Value) -> (r: Option<LogicalPosition>) {
        match pair_from_value(v, "x", "y") {
            Some((x, y)) => Some(LogicalPosition { x, y }),
            None => None,
        }
    }

    proof fn lemma_round_trip(m: (isize, isize), v: Value) {
        lemma_pair_round_trip("x"@, "y"@, m.0, m.1, v);
    }
}

impl Codec for PhysicalPosition {
    open spec fn encodes(m: (isize, isize), v: Value) -> bool {
        pair_encodes("x"@, "y"@, m.0, m.1, v)
    }

    open spec fn decoded(v: Value) -> Option<(isize, isize)> {
        pair_decoded("x"@, "y"@, v)
    }

    fn to_value(&self) -> (v: Value) {
        proof {
            lemma_dpi_keys();
        }
        pair_value("x", self.x, "y", self.y)
    }

    fn from_value(v: &Value) -> (r: Option<PhysicalPosition>) {
        match pair_from_value(v, "x", "y") {
            Some((x, y)) => Some(PhysicalPosition { x, y }),
            None => None,
        }
    }

    proof fn lemma_round_trip(m: (isize, isize), v: Value) {
        lemma_pair_round_trip("x"@, "y"@, m.0, m.1, v);
    }
}

} // verus!
