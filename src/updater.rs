//! What the host reports about an available update.
use crate::codec::Codec;
use crate::value::{Value, field_of, push_field, str_of};
use vstd::prelude::*;

verus! {

/// The description of an update.
#[derive(Clone, Debug, PartialEq)]
pub struct UpdateManifest {
    pub available: bool,
    pub body: String,
    pub current_version: String,
    pub date: String,
    pub version: String,
}

pub struct ManifestModel {
    pub available: bool,
    pub body: Seq<char>,
    pub current_version: Seq<char>,
    pub date: Seq<char>,
    pub version: Seq<char>,
}

impl DeepView for UpdateManifest {
    type V = ManifestModel;

    open spec fn deep_view(&self) -> ManifestModel {
        ManifestModel {
            available: self.available,
            body: self.body@,
            current_version: self.current_version@,
            date: self.date@,
            version: self.version@,
        }
    }
}

proof fn lemma_manifest_keys()
    ensures
        "available"@ != "body"@,
        "available"@ != "currentVersion"@,
        "available"@ != "date"@,
        "available"@ != "version"@,
        "body"@ != "currentVersion"@,
        "body"@ != "date"@,
        "body"@ != "version"@,
        "currentVersion"@ != "date"@,
        "currentVersion"@ != "version"@,
        "date"@ != "version"@,
{
    reveal_strlit("available");
    reveal_strlit("body");
    reveal_strlit("currentVersion");
    reveal_strlit("date");
    reveal_strlit("version");
    assert("available"@.len() == 9 && "body"@.len() == 4 && "currentVersion"@.len() == 14);
    assert("date"@.len() == 4 && "version"@.len() == 7);
    assert("body"@[0] != "date"@[0]);
}

/// The string field `key` of `v`, if it holds one.
pub open spec fn text_field(v: Value, key: Seq<char>) -> Option<Seq<char>> {
    match field_of(v, key) {
        Some(f) => str_of(f),
        None => None,
    }
}

fn string_field(v: &Value, key: &str) -> (r: Option<String>)
    ensures
        r matches Some(s) ==> text_field(*v, key@) == Some(s@),
        r is None <==> text_field(*v, key@) is None,
{
    match v.field(key) {
        Some(f) => String::from_value(f),
        None => None,
    }
}

impl Codec for UpdateManifest {
    open spec fn encodes(m: ManifestModel, v: Value) -> bool {
        &&& v is Object
        &&& (field_of(v, "available"@) matches Some(f) && bool::encodes(m.available, f))
        &&& text_field(v, "body"@) == Some(m.body)
        &&& text_field(v, "currentVersion"@) == Some(m.current_version)
        &&& text_field(v, "date"@) == Some(m.date)
        &&& text_field(v, "version"@) == Some(m.version)
    }

    open spec fn decoded(v: Value) -> Option<ManifestModel> {
        match (
            field_of(v, "available"@),
            text_field(v, "body"@),
            text_field(v, "currentVersion"@),
            text_field(v, "date"@),
            text_field(v, "version"@),
        ) {
            (Some(a), Some(body), Some(current_version), Some(date), Some(version)) => match bool::decoded(a) {
                Some(available) => Some(ManifestModel { available, body, current_version, date, version }),
                None => None,
            },
            _ => None,
        }
    }

    fn to_value(&self) -> (v: Value) {
        proof {
            lemma_manifest_keys();
        }
        let mut fields: Vec<(String, Value)> = Vec::new();
        push_field(&mut fields, "available", self.available.to_value());
        push_field(&mut fields, "body", self.body.to_value());
        push_field(&mut fields, "currentVersion", self.current_version.to_value());
        push_field(&mut fields, "date", self.date.to_value());
        push_field(&mut fields, "version", self.version.to_value());
        Value::Object(fields)
    }

    fn from_value(v: &Value) -> (r: Option<UpdateManifest>) {
        let available = match v.field("available") {
            Some(f) => match bool::from_value(f) {
                Some(b) => b,
                None => {
                    return None;
                },
            },
            None => {
                return None;
            },
        };
        let body = match string_field(v, "body") {
            Some(s) => s,
            None => {
                return None;
            },
        };
        let current_version = match string_field(v, "currentVersion") {
            Some(s) => s,
            None => {
                return None;
            },
        };
        let date = match string_field(v, "date") {
            Some(s) => s,
            None => {
                return None;
            },
        };
        let version = match string_field(v, "version") {
            Some(s) => s,
            None => {
                return None;
            },
        };
        Some(UpdateManifest { available, body, current_version, date, version })
    }

    proof fn lemma_round_trip(m: ManifestModel, v: Value) {
    }
}

} // verus!
