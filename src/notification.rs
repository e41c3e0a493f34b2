//! Notifications and the permission to show them.
use crate::codec::{Codec, opt_encodes, option_to_value};
use crate::value::{Value, field_of, push_field, str_of};
use vstd::prelude::*;

verus! {

/// Whether the user lets the application show notifications.
#[derive(Clone, Copy, Debug, PartialEq, Eq, Structural)]
pub enum Permission {
    Default,
    Granted,
    Denied,
}

impl DeepView for Permission {
    type V = Permission;

    open spec fn deep_view(&self) -> Permission {
        *self
    }
}

/// The name under which the host encodes a permission.
pub open spec fn permission_name(p: Permission) -> Seq<char> {
    match p {
        Permission::Default => "default"@,
        Permission::Granted => "granted"@,
        Permission::Denied => "denied"@,
    }
}

proof fn lemma_permission_names()
    ensures
        "default"@ != "granted"@,
        "default"@ != "denied"@,
        "granted"@ != "denied"@,
{
    reveal_strlit("default");
    reveal_strlit("granted");
    reveal_strlit("denied");
    assert("default"@[0] != "granted"@[0]);
    assert("default"@.len() == 7 && "granted"@.len() == 7 && "denied"@.len() == 6);
}

impl Codec for Permission {
    open spec fn encodes(m: Permission, v: Value) -> bool {
        str_of(v) == Some(permission_name(m))
    }

    open spec fn decoded(v: Value) -> Option<Permission> {
        match str_of(v) {
            Some(s) => if s == "default"@ {
                Some(Permission::Default)
            } else if s == "granted"@ {
                Some(Permission::Granted)
            } else if s == "denied"@ {
                Some(Permission::Denied)
            } else {
                None
            },
            None => None,
        }
    }

    fn to_value(&self) -> (v: Value) {
        match self {
            Permission::Default => Value::string("default"),
            Permission::Granted => Value::string("granted"),
            Permission::Denied => Value::string("denied"),
        }
    }

    fn from_value(v: &Value) -> (r: Option<Permission>) {
        proof {
            lemma_permission_names();
        }
        match v.as_str() {
            Some(s) => if *s == crate::value::text("default") {
                Some(Permission::Default)
            } else if *s == crate::value::text("granted") {
                Some(Permission::Granted)
            } else if *s == crate::value::text("denied") {
                Some(Permission::Denied)
            } else {
                None
            },
            None => None,
        }
    }

    proof fn lemma_round_trip(m: Permission, v: Value) {
        lemma_permission_names();
    }
}

/// A notification to show: optional title, body and icon.
pub struct Notification {
    body: Option<String>,
    title: Option<String>,
    icon: Option<String>,
}

pub struct NotificationModel {
    pub body: Option<Seq<char>>,
    pub title: Option<Seq<char>>,
    pub icon: Option<Seq<char>>,
}

impl DeepView for Notification {
    type V = NotificationModel;

    closed spec fn deep_view(&self) -> NotificationModel {
        NotificationModel {
            body: self.body.deep_view(),
            title: self.title.deep_view(),
            icon: self.icon.deep_view(),
        }
    }
}

/// `v` is the encoding of the notification `m`.
pub open spec fn notification_encodes(m: NotificationModel, v: Value) -> bool {
    &&& v is Object
    &&& (field_of(v, "body"@) matches Some(f) && opt_encodes::<String>(m.body, f))
    &&& (field_of(v, "title"@) matches Some(f) && opt_encodes::<String>(m.title, f))
    &&& (field_of(v, "icon"@) matches Some(f) && opt_encodes::<String>(m.icon, f))
}

impl Notification {
    /// A notification with nothing set.
    pub fn new() -> (r: Notification)
        ensures
            r.deep_view() == (NotificationModel { body: None, title: None, icon: None }),
    {
        Notification { body: None, title: None, icon: None }
    }

    pub fn set_title(&mut self, title: &str)
        ensures
            final(self).deep_view() == (NotificationModel {
                title: Some(title@),
                ..old(self).deep_view()
            }),
    {
        self.title = Some(crate::value::text(title));
    }

    pub fn set_body(&mut self, body: &str)
        ensures
            final(self).deep_view() == (NotificationModel {
                body: Some(body@),
                ..old(self).deep_view()
            }),
    {
        self.body = Some(crate::value::text(body));
    }

    pub fn set_icon(&mut self, icon: &str)
        ensures
            final(self).deep_view() == (NotificationModel {
                icon: Some(icon@),
                ..old(self).deep_view()
            }),
    {
        self.icon = Some(crate::value::text(icon));
    }

    /// The encoded notification that the host shows.
    pub fn show(&self) -> (v: Value)
        ensures
            notification_encodes(self.deep_view(), v),
    {
        proof {
            reveal_strlit("body");
            reveal_strlit("title");
            reveal_strlit("icon");
            assert("body"@.len() == 4 && "title"@.len() == 5 && "icon"@.len() == 4);
            assert("body"@[0] != "icon"@[0]);
        }
        let mut fields: Vec<(String, Value)> = Vec::new();
        push_field(&mut fields, "body", option_to_value(&self.body));
        push_field(&mut fields, "title", option_to_value(&self.title));
        push_field(&mut fields, "icon", option_to_value(&self.icon));
        Value::Object(fields)
    }
}

} // verus!
