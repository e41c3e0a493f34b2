//! Application-wide items: the theme and host-backed images.
use crate::codec::Codec;
use crate::error::Error;
use crate::gateway::{Invocation, invoke, rid_args, rid_value, complete_invoke};
use crate::gateway::Resource;
use crate::codec::{opt_decoded, option_from_value};
use crate::value::{Value, field_of, push_field};
use vstd::prelude::*;

verus! {

#[derive(Clone, Copy, Debug, PartialEq, Eq, Structural)]
pub enum Theme {
    Light,
    Dark,
    System,
}

impl Theme {
    /// The name the host knows the theme by; none for following the system.
    pub fn host_name(&self) -> (r: Option<&'static str>)
        ensures
            *self == Theme::Light ==> (r matches Some(s) && s@ == "light"@),
            *self == Theme::Dark ==> (r matches Some(s) && s@ == "dark"@),
            *self == Theme::System ==> r is None,
    {
        match self {
            Theme::Light => Some("light"),
            Theme::Dark => Some("dark"),
            Theme::System => None,
        }
    }
}

/// The size of an image, in pixels.
#[derive(Clone, Copy, Debug)]
pub struct ImageSize {
    width: u64,
    height: u64,
}

impl DeepView for ImageSize {
    type V = (u64, u64);

    closed spec fn deep_view(&self) -> (u64, u64) {
        (self.width, self.height)
    }
}

impl ImageSize {
    pub fn new(width: u64, height: u64) -> (r: ImageSize)
        ensures
            r.deep_view() == (width, height),
    {
        ImageSize { width, height }
    }

    pub fn width(&self) -> (r: u64)
        ensures
            r == self.deep_view().0,
    {
        self.width
    }

    pub fn height(&self) -> (r: u64)
        ensures
            r == self.deep_view().1,
    {
        self.height
    }
}

impl Codec for ImageSize {
    open spec fn encodes(m: (u64, u64), v: Value) -> bool {
        &&& v is Object
        &&& (field_of(v, "width"@) matches Some(f) && u64::encodes(m.0, f))
        &&& (field_of(v, "height"@) matches Some(f) && u64::encodes(m.1, f))
    }

    open spec fn decoded(v: Value) -> Option<(u64, u64)> {
        match (field_of(v, "width"@), field_of(v, "height"@)) {
            (Some(f), Some(g)) => match (u64::decoded(f), u64::decoded(g)) {
                (Some(a), Some(b)) => Some((a, b)),
                _ => None,
            },
            _ => None,
        }
    }

    fn to_value(&self) -> (v: Value) {
        proof {
            reveal_strlit("width");
            reveal_strlit("height");
            assert("width"@.len() == 5 && "height"@.len() == 6);
        }
        let mut fields: Vec<(String, Value)> = Vec::new();
        push_field(&mut fields, "width", self.width.to_value());
        push_field(&mut fields, "height", self.height.to_value());
        Value::Object(fields)
    }

    fn from_value(v: &Value) -> (r: Option<ImageSize>) {
        let f = match v.field("width") {
            Some(f) => f,
            None => {
                return None;
            },
        };
        let g = match v.field("height") {
            Some(g) => g,
            None => {
                return None;
            },
        };
        match (u64::from_value(f), u64::from_value(g)) {
            (Some(width), Some(height)) => Some(ImageSize { width, height }),
            _ => None,
        }
    }

    proof fn lemma_round_trip(m: (u64, u64), v: Value) {
        u64::lemma_round_trip(m.0, field_of(v, "width"@)->0);
        u64::lemma_round_trip(m.1, field_of(v, "height"@)->0);
    }
}

/// An image held by the host, addressed through its resource id.
#[derive(Clone)]
pub struct Image {
    resource: Resource,
}

impl View for Image {
    type V = u64;

    closed spec fn view(&self) -> u64 {
        self.resource@
    }
}

impl Image {
    pub fn from_rid(rid: u64) -> (r: Image)
        ensures
            r@ == rid,
    {
        Image { resource: Resource::new(rid) }
    }

    pub fn rid(&self) -> (r: u64)
        ensures
            r == self@,
    {
        self.resource.rid()
    }

    /// The invocation that fetches the RGBA data, row-major from the top.
    pub fn rgba(&self) -> (r: Invocation)
        ensures
            r.command@ == "plugin:image|rgba"@,
            rid_args(self@, r.args),
    {
        invoke("plugin:image|rgba", rid_value(self.rid()))
    }

    /// The invocation that fetches the image's size.
    pub fn size(&self) -> (r: Invocation)
        ensures
            r.command@ == "plugin:image|size"@,
            rid_args(self@, r.args),
    {
        invoke("plugin:image|size", rid_value(self.rid()))
    }
}

/// The invocation that asks for the default window icon.
pub fn default_window_icon() -> (r: Invocation)
    ensures
        r.command@ == "plugin:app|default_window_icon"@,
        r.args is Null,
{
    invoke("plugin:app|default_window_icon", Value::Null)
}

/// The default window icon for the host's reply: an image for the resource
/// id it names, none for null.
pub fn default_window_icon_from(reply: Value) -> (r: Result<Option<Image>, Error>)
    ensures
        opt_decoded::<u64>(reply) matches Some(m) ==> (r matches Ok(x) && (match m {
            Some(rid) => x matches Some(img) && img@ == rid,
            None => x is None,
        })),
        opt_decoded::<u64>(reply) is None ==> r == Err::<Option<Image>, Error>(
            Error::Decoding(reply),
        ),
{
    match option_from_value::<u64>(&reply) {
        Some(Some(rid)) => Ok(Some(Image::from_rid(rid))),
        Some(None) => Ok(None),
        None => Err(Error::Decoding(reply)),
    }
}

} // verus!
