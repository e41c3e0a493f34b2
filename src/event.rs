//! Events: emitting them to the host, and subscriptions that turn the host's
//! "register a callback, get a token" pattern into an owned queue.
use crate::channel::Next;
use crate::codec::Codec;
use crate::error::Error;
use crate::value::{Value, field_of, push_field, str_of, text};
use vstd::prelude::*;

verus! {

pub const WINDOW_RESIZED: &'static str = "tauri://resize";
pub const WINDOW_MOVED: &'static str = "tauri://move";
pub const WINDOW_CLOSE_REQUESTED: &'static str = "tauri://close-requested";
pub const WINDOW_DESTROYED: &'static str = "tauri://destroyed";
pub const WINDOW_FOCUS: &'static str = "tauri://focus";
pub const WINDOW_BLUR: &'static str = "tauri://blur";
pub const WINDOW_SCALE_FACTOR_CHANGED: &'static str = "tauri://scale-change";
pub const WINDOW_THEME_CHANGED: &'static str = "tauri://theme-changed";
pub const WINDOW_CREATED: &'static str = "tauri://window-created";
pub const WEBVIEW_CREATED: &'static str = "tauri://webview-created";
pub const DRAG: &'static str = "tauri://drag";
pub const DROP: &'static str = "tauri://drop";
pub const DROP_OVER: &'static str = "tauri://drop-over";
pub const DROP_CANCELLED: &'static str = "tauri://drag-cancelled";
pub const DRAG_ENTER: &'static str = "tauri://drag-enter";
pub const DRAG_OVER: &'static str = "tauri://drag-over";
pub const DRAG_DROP: &'static str = "tauri://drag-drop";
pub const DRAG_LEAVE: &'static str = "tauri://drag-leave";

/// An event as the host delivers it.
#[derive(Clone, Debug, PartialEq)]
pub struct Event<T> {
    /// Event name.
    pub event: String,
    /// Event identifier used to unlisten.
    pub id: isize,
    /// Event payload.
    pub payload: T,
}

pub struct EventModel<P> {
    pub event: Seq<char>,
    pub id: isize,
    pub payload: P,
}

impl<T: DeepView> DeepView for Event<T> {
    type V = EventModel<T::V>;

    open spec fn deep_view(&self) -> EventModel<T::V> {
        EventModel { event: self.event@, id: self.id, payload: self.payload.deep_view() }
    }
}

impl<T: Codec> Codec for Event<T> {
    open spec fn encodes(m: EventModel<T::V>, v: Value) -> bool {
        &&& v is Object
        &&& (field_of(v, "event"@) matches Some(f) && str_of(f) == Some(m.event))
        &&& (field_of(v, "id"@) matches Some(f) && isize::encodes(m.id, f))
        &&& (field_of(v, "payload"@) matches Some(f) && T::encodes(m.payload, f))
    }

    open spec fn decoded(v: Value) -> Option<EventModel<T::V>> {
        match (field_of(v, "event"@), field_of(v, "id"@), field_of(v, "payload"@)) {
            (Some(e), Some(i), Some(p)) => match (str_of(e), isize::decoded(i), T::decoded(p)) {
                (Some(event), Some(id), Some(payload)) => Some(EventModel { event, id, payload }),
                _ => None,
            },
            _ => None,
        }
    }

    fn to_value(&self) -> (v: Value) {
        let mut fields: Vec<(String, Value)> = Vec::new();
        push_field(&mut fields, "event", self.event.to_value());
        push_field(&mut fields, "id", self.id.to_value());
        push_field(&mut fields, "payload", self.payload.to_value());
        proof {
            reveal_strlit("event");
            reveal_strlit("id");
            reveal_strlit("payload");
            assert("event"@.len() == 5 && "id"@.len() == 2 && "payload"@.len() == 7);
        }
        Value::Object(fields)
    }

    fn from_value(v: &Value) -> (r: Option<Event<T>>) {
        let e = match v.field("event") {
            Some(f) => f,
            None => {
                return None;
            },
        };
        let i = match v.field("id") {
            Some(f) => f,
            None => {
                return None;
            },
        };
        let p = match v.field("payload") {
            Some(f) => f,
            None => {
                return None;
            },
        };
        let event = match String::from_value(e) {
            Some(x) => x,
            None => {
                return None;
            },
        };
        let id = match isize::from_value(i) {
            Some(x) => x,
            None => {
                return None;
            },
        };
        let payload = match T::from_value(p) {
            Some(x) => x,
            None => {
                return None;
            },
        };
        Some(Event { event, id, payload })
    }

    proof fn lemma_round_trip(m: EventModel<T::V>, v: Value) {
        isize::lemma_round_trip(m.id, field_of(v, "id"@)->0);
        T::lemma_round_trip(m.payload, field_of(v, "payload"@)->0);
    }
}

/// The scope of an event: which sources a subscription hears, or which
/// targets an emitted event reaches.
#[derive(Clone, Debug, PartialEq)]
pub enum EventTarget {
    Any,
    AnyLabel(String),
    App,
    Window(String),
    Webview(String),
    WebviewWindow(String),
}

pub enum TargetModel {
    Any,
    AnyLabel(Seq<char>),
    App,
    Window(Seq<char>),
    Webview(Seq<char>),
    WebviewWindow(Seq<char>),
}

impl DeepView for EventTarget {
    type V = TargetModel;

    open spec fn deep_view(&self) -> TargetModel {
        match self {
            EventTarget::Any => TargetModel::Any,
            EventTarget::AnyLabel(l) => TargetModel::AnyLabel(l@),
            EventTarget::App => TargetModel::App,
            EventTarget::Window(l) => TargetModel::Window(l@),
            EventTarget::Webview(l) => TargetModel::Webview(l@),
            EventTarget::WebviewWindow(l) => TargetModel::WebviewWindow(l@),
        }
    }
}

/// The tag that names a target's variant in its encoding.
pub open spec fn kind_name(t: TargetModel) -> Seq<char> {
    match t {
        TargetModel::Any => "Any"@,
        TargetModel::AnyLabel(_) => "AnyLabel"@,
        TargetModel::App => "App"@,
        TargetModel::Window(_) => "Window"@,
        TargetModel::Webview(_) => "Webview"@,
        TargetModel::WebviewWindow(_) => "WebviewWindow"@,
    }
}

/// The label that a target carries, if its variant has one.
pub open spec fn label_of(t: TargetModel) -> Option<Seq<char>> {
    match t {
        TargetModel::AnyLabel(l) => Some(l),
        TargetModel::Window(l) => Some(l),
        TargetModel::Webview(l) => Some(l),
        TargetModel::WebviewWindow(l) => Some(l),
        _ => None,
    }
}

/// The target with tag `kind` and label `label`, if there is one.
pub open spec fn target_from(kind: Seq<char>, label: Option<Seq<char>>) -> Option<TargetModel> {
    if kind == "Any"@ {
        Some(TargetModel::Any)
    } else if kind == "App"@ {
        Some(TargetModel::App)
    } else {
        match label {
            Some(l) => if kind == "AnyLabel"@ {
                Some(TargetModel::AnyLabel(l))
            } else if kind == "Window"@ {
                Some(TargetModel::Window(l))
            } else if kind == "Webview"@ {
                Some(TargetModel::Webview(l))
            } else if kind == "WebviewWindow"@ {
                Some(TargetModel::WebviewWindow(l))
            } else {
                None
            },
            None => None,
        }
    }
}

proof fn lemma_kind_names_distinct()
    ensures
        "Any"@ != "App"@,
        "Any"@ != "AnyLabel"@,
        "Any"@ != "Window"@,
        "Any"@ != "Webview"@,
        "Any"@ != "WebviewWindow"@,
        "App"@ != "AnyLabel"@,
        "App"@ != "Window"@,
        "App"@ != "Webview"@,
        "App"@ != "WebviewWindow"@,
        "AnyLabel"@ != "Window"@,
        "AnyLabel"@ != "Webview"@,
        "AnyLabel"@ != "WebviewWindow"@,
        "Window"@ != "Webview"@,
        "Window"@ != "WebviewWindow"@,
        "Webview"@ != "WebviewWindow"@,
        "kind"@ != "label"@,
{
    reveal_strlit("Any");
    reveal_strlit("App");
    reveal_strlit("AnyLabel");
    reveal_strlit("Window");
    reveal_strlit("Webview");
    reveal_strlit("WebviewWindow");
    reveal_strlit("kind");
    reveal_strlit("label");
    assert("Any"@[1] != "App"@[1]);
    assert("Any"@.len() == 3 && "App"@.len() == 3 && "AnyLabel"@.len() == 8);
    assert("Window"@.len() == 6 && "Webview"@.len() == 7 && "WebviewWindow"@.len() == 13);
    assert("kind"@.len() == 4 && "label"@.len() == 5);
}

/// The string field `key` of `v`, if it holds one.
pub open spec fn str_field(v: Value, key: Seq<char>) -> Option<Seq<char>> {
    match field_of(v, key) {
        Some(f) => str_of(f),
        None => None,
    }
}

impl Codec for EventTarget {
    open spec fn encodes(m: TargetModel, v: Value) -> bool {
        &&& v is Object
        &&& str_field(v, "kind"@) == Some(kind_name(m))
        &&& (label_of(m) matches Some(l) ==> str_field(v, "label"@) == Some(l))
    }

    open spec fn decoded(v: Value) -> Option<TargetModel> {
        match str_field(v, "kind"@) {
            Some(k) => target_from(k, str_field(v, "label"@)),
            None => None,
        }
    }

    fn to_value(&self) -> (v: Value) {
        proof {
            lemma_kind_names_distinct();
        }
        let mut fields: Vec<(String, Value)> = Vec::new();
        match self {
            EventTarget::Any => {
                push_field(&mut fields, "kind", Value::string("Any"));
            },
            EventTarget::AnyLabel(l) => {
                push_field(&mut fields, "kind", Value::string("AnyLabel"));
                push_field(&mut fields, "label", l.to_value());
            },
            EventTarget::App => {
                push_field(&mut fields, "kind", Value::string("App"));
            },
            EventTarget::Window(l) => {
                push_field(&mut fields, "kind", Value::string("Window"));
                push_field(&mut fields, "label", l.to_value());
            },
            EventTarget::Webview(l) => {
                push_field(&mut fields, "kind", Value::string("Webview"));
                push_field(&mut fields, "label", l.to_value());
            },
            EventTarget::WebviewWindow(l) => {
                push_field(&mut fields, "kind", Value::string("WebviewWindow"));
                push_field(&mut fields, "label", l.to_value());
            },
        }
        Value::Object(fields)
    }

    fn from_value(v: &Value) -> (r: Option<EventTarget>) {
        proof {
            lemma_kind_names_distinct();
        }
        let kind = match v.field("kind") {
            Some(f) => match f.as_str() {
                Some(s) => s,
                None => {
                    return None;
                },
            },
            None => {
                return None;
            },
        };
        if *kind == text("Any") {
            return Some(EventTarget::Any);
        }
        if *kind == text("App") {
            return Some(EventTarget::App);
        }
        let label = match v.field("label") {
            Some(f) => match f.as_str() {
                Some(s) => s.clone(),
                None => {
                    return None;
                },
            },
            None => {
                return None;
            },
        };
        if *kind == text("AnyLabel") {
            Some(EventTarget::AnyLabel(label))
        } else if *kind == text("Window") {
            Some(EventTarget::Window(label))
        } else if *kind == text("Webview") {
            Some(EventTarget::Webview(label))
        } else if *kind == text("WebviewWindow") {
            Some(EventTarget::WebviewWindow(label))
        } else {
            None
        }
    }

    proof fn lemma_round_trip(m: TargetModel, v: Value) {
        lemma_kind_names_distinct();
    }
}

/// The registration options `{ target }` that carry a subscription's scope.
pub open spec fn options_encode(t: TargetModel, v: Value) -> bool {
    &&& v is Object
    &&& (field_of(v, "target"@) matches Some(f) && EventTarget::encodes(t, f))
}

/// The registration options for scope `target`.
pub fn options_value(target: &EventTarget) -> (v: Value)
    ensures
        options_encode(target.deep_view(), v),
{
    let mut fields: Vec<(String, Value)> = Vec::new();
    push_field(&mut fields, "target", target.to_value());
    Value::Object(fields)
}

/// A request to register a listener with the host: the event's name and the
/// options that carry the subscription's scope, for the host to filter on.
pub struct ListenRequest {
    pub event: String,
    pub options: Value,
    /// The host drops the listener itself after the first delivery.
    pub once: bool,
}

/// The request that subscribes to `event` from any source.
pub fn listen(event: &str) -> (r: ListenRequest)
    ensures
        r.event@ == event@,
        options_encode(TargetModel::Any, r.options),
        !r.once,
{
    listen_to(event, &EventTarget::Any)
}

/// The request that subscribes to `event` from the sources in `target`.
pub fn listen_to(event: &str, target: &EventTarget) -> (r: ListenRequest)
    ensures
        r.event@ == event@,
        options_encode(target.deep_view(), r.options),
        !r.once,
{
    ListenRequest { event: text(event), options: options_value(target), once: false }
}

/// The request that waits for one `event` from any source.
pub fn once(event: &str) -> (r: ListenRequest)
    ensures
        r.event@ == event@,
        options_encode(TargetModel::Any, r.options),
        r.once,
{
    once_to(event, &EventTarget::Any)
}

/// The request that waits for one `event` from the sources in `target`.
pub fn once_to(event: &str, target: &EventTarget) -> (r: ListenRequest)
    ensures
        r.event@ == event@,
        options_encode(target.deep_view(), r.options),
        r.once,
{
    ListenRequest { event: text(event), options: options_value(target), once: true }
}

/// A request to emit an event: its name, its encoded payload, and the
/// targets it is for (all, when none is given).
pub struct EmitRequest {
    pub target: Option<Value>,
    pub event: String,
    pub payload: Value,
}

/// The request that emits `event` with `payload` to every target.
pub fn emit<T: Codec>(event: &str, payload: &T) -> (r: EmitRequest)
    ensures
        r.target is None,
        r.event@ == event@,
        T::encodes(payload.deep_view(), r.payload),
{
    EmitRequest { target: None, event: text(event), payload: payload.to_value() }
}

/// The request that emits `event` with `payload` to the targets in `target`.
pub fn emit_to<T: Codec>(target: &EventTarget, event: &str, payload: &T) -> (r: EmitRequest)
    ensures
        r.target matches Some(t) && EventTarget::encodes(target.deep_view(), t),
        r.event@ == event@,
        T::encodes(payload.deep_view(), r.payload),
{
    EmitRequest { target: Some(target.to_value()), event: text(event), payload: payload.to_value() }
}

/// The single call that removes a listener from the host.
#[derive(Clone, Copy, Debug, PartialEq, Eq)]
pub struct Unlisten {
    pub token: u64,
}

/// A subscription: decoded deliveries queue up until polled, and closing it
/// (which consumes it) yields the one deregistration call for its token.
pub struct Subscription<T> {
    token: u64,
    pending: Vec<T>,
}

pub struct SubscriptionModel<P> {
    pub token: u64,
    pub pending: Seq<P>,
}

impl<T: DeepView> DeepView for Subscription<T> {
    type V = SubscriptionModel<T::V>;

    closed spec fn deep_view(&self) -> SubscriptionModel<T::V> {
        SubscriptionModel { token: self.token, pending: self.pending.deep_view() }
    }
}

/// What registering a listener gives for the host's reply: the token the
/// host handed back, or a registration failure carrying the host's error.
pub open spec fn registration_outcome(reply: Result<u64, Value>) -> Result<u64, Error> {
    match reply {
        Ok(token) => Ok(token),
        Err(e) => Err(Error::Registration(e)),
    }
}

impl<T: DeepView> Subscription<T> {
    /// The subscription for the host's reply to a registration request.
    pub fn accept(reply: Result<u64, Value>) -> (r: Result<Subscription<T>, Error>)
        ensures
            reply matches Ok(token) ==> (r matches Ok(s) && s.deep_view() == (SubscriptionModel::<
                T::V,
            > { token, pending: Seq::empty() })),
            reply matches Err(e) ==> (r matches Err(x) && x == Error::Registration(e)),
    {
        match reply {
            Ok(token) => {
                let s = Subscription { token, pending: Vec::new() };
                proof {
                    assert(s.pending.deep_view() =~= Seq::<T::V>::empty());
                }
                Ok(s)
            },
            Err(e) => Err(Error::Registration(e)),
        }
    }

    pub fn token(&self) -> (r: u64)
        ensures
            r == self.deep_view().token,
    {
        self.token
    }

    /// Queues one delivery; the producer is never refused.
    pub fn deliver(&mut self, item: T)
        ensures
            final(self).deep_view() == (SubscriptionModel {
                pending: old(self).deep_view().pending.push(item.deep_view()),
                ..old(self).deep_view()
            }),
    {
        let ghost before = self.pending;
        self.pending.push(item);
        proof {
            assert(self.pending.deep_view() =~= before.deep_view().push(item.deep_view()));
        }
    }

    /// Hands out the oldest delivery not yet handed out.
    pub fn next(&mut self) -> (r: Next<T>)
        ensures
            old(self).deep_view().pending.len() > 0 ==> (r matches Next::Item(x) && x.deep_view()
                == old(self).deep_view().pending[0] && final(self).deep_view() == (
            SubscriptionModel {
                pending: old(self).deep_view().pending.drop_first(),
                ..old(self).deep_view()
            })),
            old(self).deep_view().pending.len() == 0 ==> r is Pending && final(self).deep_view()
                == old(self).deep_view(),
    {
        if self.pending.len() > 0 {
            let ghost before = self.pending;
            let x = self.pending.remove(0);
            proof {
                assert(self.pending.deep_view() =~= before.deep_view().drop_first());
            }
            Next::Item(x)
        } else {
            Next::Pending
        }
    }

    /// Ends the subscription: the one deregistration call for its token,
    /// however much of it was consumed.
    pub fn close(self) -> (r: Unlisten)
        ensures
            r.token == self.deep_view().token,
    {
        Unlisten { token: self.token }
    }
}

impl<T: Codec> Subscription<T> {
    /// Takes in a raw delivery. One that does not decode is dropped, and the
    /// stream goes on; says whether it decoded.
    pub fn receive(&mut self, raw: &Value) -> (r: bool)
        ensures
            r == T::decoded(*raw) is Some,
            r ==> final(self).deep_view() == (SubscriptionModel {
                pending: old(self).deep_view().pending.push(T::decoded(*raw)->0),
                ..old(self).deep_view()
            }),
            !r ==> final(self).deep_view() == old(self).deep_view(),
    {
        match T::from_value(raw) {
            Some(x) => {
                self.deliver(x);
                true
            },
            None => false,
        }
    }
}

/// A one-shot wait: the first delivery is kept and every later one is
/// ignored; closing it yields the one deregistration call for its token,
/// whether or not anything arrived.
pub struct Once<T> {
    token: u64,
    value: Option<T>,
    taken: bool,
}

pub struct OnceModel<P> {
    pub token: u64,
    pub value: Option<P>,
    pub taken: bool,
}

impl<T: DeepView> DeepView for Once<T> {
    type V = OnceModel<T::V>;

    closed spec fn deep_view(&self) -> OnceModel<T::V> {
        OnceModel { token: self.token, value: self.value.deep_view(), taken: self.taken }
    }
}

/// The state of a one-shot wait after a delivery of `x`.
pub open spec fn once_after<P>(o: OnceModel<P>, x: P) -> OnceModel<P> {
    if o.taken || o.value is Some {
        o
    } else {
        OnceModel { value: Some(x), ..o }
    }
}

/// The state of a one-shot wait after the deliveries `xs`, in order.
pub open spec fn once_after_all<P>(o: OnceModel<P>, xs: Seq<P>) -> OnceModel<P>
    decreases xs.len(),
{
    if xs.len() == 0 {
        o
    } else {
        once_after_all(once_after(o, xs[0]), xs.drop_first())
    }
}

impl<T: DeepView> Once<T> {
    /// The one-shot wait for the host's reply to a registration request.
    pub fn accept(reply: Result<u64, Value>) -> (r: Result<Once<T>, Error>)
        ensures
            reply matches Ok(token) ==> (r matches Ok(o) && o.deep_view() == (OnceModel::<T::V> {
                token,
                value: None,
                taken: false,
            })),
            reply matches Err(e) ==> (r matches Err(x) && x == Error::Registration(e)),
    {
        match reply {
            Ok(token) => Ok(Once { token, value: None, taken: false }),
            Err(e) => Err(Error::Registration(e)),
        }
    }

    pub fn token(&self) -> (r: u64)
        ensures
            r == self.deep_view().token,
    {
        self.token
    }

    /// Takes in a delivery: kept only if it is the first.
    pub fn deliver(&mut self, item: T)
        ensures
            final(self).deep_view() == once_after(old(self).deep_view(), item.deep_view()),
    {
        if !self.taken && self.value.is_none() {
            self.value = Some(item);
        }
    }

    /// Hands out the first delivery, once.
    pub fn next(&mut self) -> (r: Next<T>)
        ensures
            old(self).deep_view().value matches Some(x) ==> (r matches Next::Item(y) && y.deep_view()
                == x && final(self).deep_view() == (OnceModel::<T::V> {
                value: None,
                taken: true,
                ..old(self).deep_view()
            })),
            old(self).deep_view().value is None ==> final(self).deep_view() == old(self).deep_view()
                && (if old(self).deep_view().taken {
                r is Finished
            } else {
                r is Pending
            }),
    {
        match self.value.take() {
            Some(x) => {
                self.taken = true;
                Next::Item(x)
            },
            None => {
                if self.taken {
                    Next::Finished
                } else {
                    Next::Pending
                }
            },
        }
    }

    /// What the wait resolves to when its delivery mechanism is torn down:
    /// the first delivery if one arrived, else a cancellation.
    pub fn resolve(self) -> (r: (Result<T, Error>, Unlisten))
        ensures
            r.1.token == self.deep_view().token,
            self.deep_view().value matches Some(x) ==> (r.0 matches Ok(y) && y.deep_view() == x),
            self.deep_view().value is None ==> r.0 == Err::<T, Error>(Error::Canceled),
    {
        let u = Unlisten { token: self.token };
        match self.value {
            Some(x) => (Ok(x), u),
            None => (Err(Error::Canceled), u),
        }
    }

    /// Ends the wait: the one deregistration call for its token.
    pub fn close(self) -> (r: Unlisten)
        ensures
            r.token == self.deep_view().token,
    {
        Unlisten { token: self.token }
    }
}

/// The registration options carry the scope unchanged: the host reads back
/// exactly the target the subscription was made for.
pub proof fn lemma_scope_passed_through(t: TargetModel, v: Value)
    requires
        options_encode(t, v),
    ensures
        EventTarget::decoded(field_of(v, "target"@)->0) == Some(t),
{
    EventTarget::lemma_round_trip(t, field_of(v, "target"@)->0);
}

/// A one-shot wait that has not handed anything out keeps the first of any
/// sequence of deliveries and ignores the rest.
pub proof fn lemma_once_keeps_first<P>(o: OnceModel<P>, xs: Seq<P>)
    requires
        !o.taken,
        o.value is None,
        xs.len() > 0,
    ensures
        once_after_all(o, xs) == (OnceModel { value: Some(xs[0]), ..o }),
{
    lemma_once_settled(once_after(o, xs[0]), xs.drop_first());
}

/// A one-shot wait that holds a value or has handed it out ignores every
/// further delivery.
pub proof fn lemma_once_settled<P>(o: OnceModel<P>, xs: Seq<P>)
    requires
        o.taken || o.value is Some,
    ensures
        once_after_all(o, xs) == o,
    decreases xs.len(),
{
    if xs.len() > 0 {
        lemma_once_settled(once_after(o, xs[0]), xs.drop_first());
    }
}

} // verus!
