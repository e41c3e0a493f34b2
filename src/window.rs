//! Windows: events that the window itself raises locally, events routed to
//! the host under the window's scope, and drag-and-drop notifications.
use crate::channel::Next;
use crate::codec::Codec;
use crate::dpi::PhysicalPosition;
use crate::error::Error;
use crate::event::{
    EmitRequest, Event, EventModel, EventTarget, ListenRequest, TargetModel, Unlisten, emit,
    emit_to, listen_to, options_encode, DRAG_DROP, DRAG_ENTER, DRAG_LEAVE, DRAG_OVER,
};
use crate::value::{Value, field_of, push_field, str_of, text};
use vstd::prelude::*;

verus! {

/// The events that a window raises right here rather than through the host.
pub open spec fn is_local_event(e: Seq<char>) -> bool {
    e == "tauri://created"@ || e == "tauri://error"@
}

/// Whether `event` is raised locally rather than through the host.
pub fn is_local(event: &String) -> (r: bool)
    ensures
        r == is_local_event(event@),
{
    *event == text("tauri://created") || *event == text("tauri://error")
}

/// The files of a drag-and-drop operation and where they are.
#[derive(Clone, Debug, PartialEq)]
pub struct DragDropPayload {
    paths: Vec<String>,
    position: PhysicalPosition,
}

pub struct DropModel {
    pub paths: Seq<Seq<char>>,
    pub position: (isize, isize),
}

impl DeepView for DragDropPayload {
    type V = DropModel;

    closed spec fn deep_view(&self) -> DropModel {
        DropModel { paths: self.paths.deep_view(), position: self.position.deep_view() }
    }
}

impl DragDropPayload {
    pub fn new(paths: Vec<String>, position: PhysicalPosition) -> (r: DragDropPayload)
        ensures
            r.deep_view() == (DropModel {
                paths: paths.deep_view(),
                position: position.deep_view(),
            }),
    {
        DragDropPayload { paths, position }
    }

    pub fn paths(&self) -> (r: &Vec<String>)
        ensures
            r.deep_view() == self.deep_view().paths,
    {
        &self.paths
    }

    pub fn position(&self) -> (r: &PhysicalPosition)
        ensures
            r.deep_view() == self.deep_view().position,
    {
        &self.position
    }
}

impl Codec for DragDropPayload {
    open spec fn encodes(m: DropModel, v: Value) -> bool {
        &&& v is Object
        &&& (field_of(v, "paths"@) matches Some(f) && Vec::<String>::encodes(m.paths, f))
        &&& (field_of(v, "position"@) matches Some(f) && PhysicalPosition::encodes(m.position, f))
    }

    open spec fn decoded(v: Value) -> Option<DropModel> {
        match (field_of(v, "paths"@), field_of(v, "position"@)) {
            (Some(p), Some(q)) => match (Vec::<String>::decoded(p), PhysicalPosition::decoded(q)) {
                (Some(paths), Some(position)) => Some(DropModel { paths, position }),
                _ => None,
            },
            _ => None,
        }
    }

    fn to_value(&self) -> (v: Value) {
        proof {
            reveal_strlit("paths");
            reveal_strlit("position");
            assert("paths"@.len() == 5 && "position"@.len() == 8);
        }
        let mut fields: Vec<(String, Value)> = Vec::new();
        push_field(&mut fields, "paths", self.paths.to_value());
        push_field(&mut fields, "position", self.position.to_value());
        Value::Object(fields)
    }

    fn from_value(v: &Value) -> (r: Option<DragDropPayload>) {
        let p = match v.field("paths") {
            Some(f) => f,
            None => {
                return None;
            },
        };
        let q = match v.field("position") {
            Some(f) => f,
            None => {
                return None;
            },
        };
        match (Vec::<String>::from_value(p), PhysicalPosition::from_value(q)) {
            (Some(paths), Some(position)) => Some(DragDropPayload { paths, position }),
            _ => None,
        }
    }

    proof fn lemma_round_trip(m: DropModel, v: Value) {
        Vec::<String>::lemma_round_trip(m.paths, field_of(v, "paths"@)->0);
        PhysicalPosition::lemma_round_trip(m.position, field_of(v, "position"@)->0);
    }
}

/// Where dragged files hover.
#[derive(Clone, Debug, PartialEq)]
pub struct DragOverPayload {
    position: PhysicalPosition,
}

impl DeepView for DragOverPayload {
    type V = (isize, isize);

    closed spec fn deep_view(&self) -> (isize, isize) {
        self.position.deep_view()
    }
}

impl DragOverPayload {
    pub fn new(position: PhysicalPosition) -> (r: DragOverPayload)
        ensures
            r.deep_view() == position.deep_view(),
    {
        DragOverPayload { position }
    }

    pub fn position(&self) -> (r: &PhysicalPosition)
        ensures
            r.deep_view() == self.deep_view(),
    {
        &self.position
    }
}

impl Codec for DragOverPayload {
    open spec fn encodes(m: (isize, isize), v: Value) -> bool {
        &&& v is Object
        &&& (field_of(v, "position"@) matches Some(f) && PhysicalPosition::encodes(m, f))
    }

    open spec fn decoded(v: Value) -> Option<(isize, isize)> {
        match field_of(v, "position"@) {
            Some(q) => PhysicalPosition::decoded(q),
            None => None,
        }
    }

    fn to_value(&self) -> (v: Value) {
        let mut fields: Vec<(String, Value)> = Vec::new();
        push_field(&mut fields, "position", self.position.to_value());
        Value::Object(fields)
    }

    fn from_value(v: &Value) -> (r: Option<DragOverPayload>) {
        match v.field("position") {
            Some(q) => match PhysicalPosition::from_value(q) {
                Some(position) => Some(DragOverPayload { position }),
                None => None,
            },
            None => None,
        }
    }

    proof fn lemma_round_trip(m: (isize, isize), v: Value) {
        PhysicalPosition::lemma_round_trip(m, field_of(v, "position"@)->0);
    }
}

/// A step of a drag-and-drop operation over a window.
#[derive(Clone, Debug, PartialEq)]
pub enum DragDropEvent {
    Enter(DragDropPayload),
    Over(DragOverPayload),
    Drop(DragDropPayload),
    Leave,
}

pub enum DragDropModel {
    Enter(DropModel),
    Over((isize, isize)),
    Drop(DropModel),
    Leave,
}

impl DeepView for DragDropEvent {
    type V = DragDropModel;

    open spec fn deep_view(&self) -> DragDropModel {
        match self {
            DragDropEvent::Enter(p) => DragDropModel::Enter(p.deep_view()),
            DragDropEvent::Over(p) => DragDropModel::Over(p.deep_view()),
            DragDropEvent::Drop(p) => DragDropModel::Drop(p.deep_view()),
            DragDropEvent::Leave => DragDropModel::Leave,
        }
    }
}

/// Which of the four drag-and-drop events a delivery answers.
#[derive(Clone, Copy, Debug, PartialEq, Eq, Structural)]
pub enum DragDropKind {
    Enter,
    Over,
    Drop,
    Leave,
}

/// The event name and id of `v`, whatever its payload.
pub open spec fn header_decoded(v: Value) -> Option<(Seq<char>, isize)> {
    match (field_of(v, "event"@), field_of(v, "id"@)) {
        (Some(e), Some(i)) => match (str_of(e), isize::decoded(i)) {
            (Some(event), Some(id)) => Some((event, id)),
            _ => None,
        },
        _ => None,
    }
}

/// What a raw delivery of the drag-and-drop event `kind` decodes to.
pub open spec fn drag_drop_decoded(kind: DragDropKind, v: Value) -> Option<
    EventModel<DragDropModel>,
> {
    match kind {
        DragDropKind::Enter => match Event::<DragDropPayload>::decoded(v) {
            Some(e) => Some(
                EventModel { event: e.event, id: e.id, payload: DragDropModel::Enter(e.payload) },
            ),
            None => None,
        },
        DragDropKind::Drop => match Event::<DragDropPayload>::decoded(v) {
            Some(e) => Some(
                EventModel { event: e.event, id: e.id, payload: DragDropModel::Drop(e.payload) },
            ),
            None => None,
        },
        DragDropKind::Over => match Event::<DragOverPayload>::decoded(v) {
            Some(e) => Some(
                EventModel { event: e.event, id: e.id, payload: DragDropModel::Over(e.payload) },
            ),
            None => None,
        },
        DragDropKind::Leave => match header_decoded(v) {
            Some(h) => Some(EventModel { event: h.0, id: h.1, payload: DragDropModel::Leave }),
            None => None,
        },
    }
}

/// Decodes a raw delivery of the drag-and-drop event `kind`.
pub fn decode_drag_drop(kind: DragDropKind, v: &Value) -> (r: Option<Event<DragDropEvent>>)
    ensures
        r matches Some(e) ==> drag_drop_decoded(kind, *v) == Some(e.deep_view()),
        r is None <==> drag_drop_decoded(kind, *v) is None,
{
    match kind {
        DragDropKind::Enter => match Event::<DragDropPayload>::from_value(v) {
            Some(e) => Some(Event { event: e.event, id: e.id, payload: DragDropEvent::Enter(e.payload) }),
            None => None,
        },
        DragDropKind::Drop => match Event::<DragDropPayload>::from_value(v) {
            Some(e) => Some(Event { event: e.event, id: e.id, payload: DragDropEvent::Drop(e.payload) }),
            None => None,
        },
        DragDropKind::Over => match Event::<DragOverPayload>::from_value(v) {
            Some(e) => Some(Event { event: e.event, id: e.id, payload: DragDropEvent::Over(e.payload) }),
            None => None,
        },
        DragDropKind::Leave => {
            let e = match v.field("event") {
                Some(f) => f,
                None => {
                    return None;
                },
            };
            let i = match v.field("id") {
                Some(f) => f,
                None => {
                    return None;
                },
            };
            match (String::from_value(e), isize::from_value(i)) {
                (Some(event), Some(id)) => Some(Event { event, id, payload: DragDropEvent::Leave }),
                _ => None,
            }
        },
    }
}

/// The four registrations of a drag-and-drop subscription, each scoped to
/// one window.
pub struct DragDropRequests {
    pub enter: ListenRequest,
    pub drop: ListenRequest,
    pub over: ListenRequest,
    pub leave: ListenRequest,
}

/// A drag-and-drop subscription: the four registrations' tokens and the
/// decoded events not yet handed out.
pub struct DragDropListen {
    tokens: Vec<u64>,
    pending: Vec<Event<DragDropEvent>>,
}

pub struct DragDropListenModel {
    pub tokens: Seq<u64>,
    pub pending: Seq<EventModel<DragDropModel>>,
}

impl DeepView for DragDropListen {
    type V = DragDropListenModel;

    closed spec fn deep_view(&self) -> DragDropListenModel {
        DragDropListenModel { tokens: self.tokens@, pending: self.pending.deep_view() }
    }
}

impl DragDropListen {
    /// The subscription for the host's replies to the four registrations
    /// (enter, drop, over, leave). When one failed, the error of the first
    /// failure comes back with the deregistration calls for those that
    /// succeeded, so that none is left behind.
    pub fn accept(
        enter: Result<u64, Value>,
        drop: Result<u64, Value>,
        over: Result<u64, Value>,
        leave: Result<u64, Value>,
    ) -> (r: Result<DragDropListen, (Error, Vec<Unlisten>)>)
        ensures
            (enter is Ok && drop is Ok && over is Ok && leave is Ok) <==> r is Ok,
            r matches Ok(l) ==> l.deep_view() == (DragDropListenModel {
                tokens: ok_tokens(seq![enter, drop, over, leave]),
                pending: Seq::empty(),
            }),
            r matches Err(e) ==> first_error(seq![enter, drop, over, leave]) matches Some(x)
                && e.0 == Error::Registration(x) && e.1@.map_values(|u: Unlisten| u.token)
                == ok_tokens(seq![enter, drop, over, leave]),
    {
        let mut tokens: Vec<u64> = Vec::new();
        let mut first: Option<Value> = None;
        let ghost all = seq![enter, drop, over, leave];
        let replies = vec![enter, drop, over, leave];
        let mut rest = replies;
        let mut i: usize = 0;
        while rest.len() > 0
            invariant
                0 <= i <= 4,
                rest@ == all.subrange(i as int, 4),
                all == seq![enter, drop, over, leave],
                tokens@ == ok_tokens(all.take(i as int)),
                first == first_error(all.take(i as int)),
            decreases rest.len(),
        {
            let reply = rest.remove(0);
            proof {
                assert(reply == all[i as int]);
                assert(all.take(i + 1) =~= all.take(i as int).push(reply));
                assert(all.take(i + 1).drop_last() =~= all.take(i as int));
                lemma_first_error_push(all.take(i as int), reply);
                assert(ok_tokens(all.take(i + 1)) == (match reply {
                    Ok(t) => ok_tokens(all.take(i as int)).push(t),
                    Err(_) => ok_tokens(all.take(i as int)),
                }));
            }
            match reply {
                Ok(t) => {
                    tokens.push(t);
                },
                Err(e) => {
                    if first.is_none() {
                        first = Some(e);
                    }
                },
            }
            i = i + 1;
            proof {
                assert(rest@ =~= all.subrange(i as int, 4));
            }
        }
        proof {
            assert(all.take(4) =~= all);
            lemma_all_ok(all);
        }
        match first {
            None => {
                let l = DragDropListen { tokens, pending: Vec::new() };
                proof {
                    assert(l.pending.deep_view() =~= Seq::<EventModel<DragDropModel>>::empty());
                }
                Ok(l)
            },
            Some(e) => {
                let mut unlistens: Vec<Unlisten> = Vec::new();
                let mut k: usize = 0;
                while k < tokens.len()
                    invariant
                        0 <= k <= tokens@.len(),
                        unlistens@.map_values(|u: Unlisten| u.token) == tokens@.take(k as int),
                    decreases tokens.len() - k,
                {
                    unlistens.push(Unlisten { token: tokens[k] });
                    k = k + 1;
                    proof {
                        assert(tokens@.take(k as int) =~= tokens@.take(k - 1).push(tokens@[k - 1]));
                        assert(unlistens@.map_values(|u: Unlisten| u.token) =~= tokens@.take(k as int));
                    }
                }
                proof {
                    assert(tokens@.take(tokens@.len() as int) =~= tokens@);
                }
                Err((Error::Registration(e), unlistens))
            },
        }
    }

    /// Takes in a raw delivery of the drag-and-drop event `kind`. One that
    /// does not decode is dropped; says whether it decoded.
    pub fn receive(&mut self, kind: DragDropKind, raw: &Value) -> (r: bool)
        ensures
            r == drag_drop_decoded(kind, *raw) is Some,
            r ==> final(self).deep_view() == (DragDropListenModel {
                pending: old(self).deep_view().pending.push(drag_drop_decoded(kind, *raw)->0),
                ..old(self).deep_view()
            }),
            !r ==> final(self).deep_view() == old(self).deep_view(),
    {
        match decode_drag_drop(kind, raw) {
            Some(e) => {
                let ghost before = self.pending;
                self.pending.push(e);
                proof {
                    assert(self.pending.deep_view() =~= before.deep_view().push(e.deep_view()));
                }
                true
            },
            None => false,
        }
    }

    /// Hands out the oldest event not yet handed out.
    pub fn next(&mut self) -> (r: Next<Event<DragDropEvent>>)
        ensures
            old(self).deep_view().pending.len() > 0 ==> (r matches Next::Item(x) && x.deep_view()
                == old(self).deep_view().pending[0] && final(self).deep_view() == (
            DragDropListenModel {
                pending: old(self).deep_view().pending.drop_first(),
                ..old(self).deep_view()
            })),
            old(self).deep_view().pending.len() == 0 ==> r is Pending && final(self).deep_view()
                == old(self).deep_view(),
    {
        if self.pending.len() > 0 {
            let ghost before = self.pending;
            let x = self.pending.remove(0);
            proof {
                assert(self.pending.deep_view() =~= before.deep_view().drop_first());
            }
            Next::Item(x)
        } else {
            Next::Pending
        }
    }

    /// Ends the subscription: one deregistration call per registration.
    pub fn close(self) -> (r: Vec<Unlisten>)
        ensures
            r@.map_values(|u: Unlisten| u.token) == self.deep_view().tokens,
    {
        let mut out: Vec<Unlisten> = Vec::new();
        let mut k: usize = 0;
        while k < self.tokens.len()
            invariant
                0 <= k <= self.tokens@.len(),
                out@.map_values(|u: Unlisten| u.token) == self.tokens@.take(k as int),
            decreases self.tokens.len() - k,
        {
            out.push(Unlisten { token: self.tokens[k] });
            k = k + 1;
            proof {
                assert(self.tokens@.take(k as int) =~= self.tokens@.take(k - 1).push(self.tokens@[k - 1]));
                assert(out@.map_values(|u: Unlisten| u.token) =~= self.tokens@.take(k as int));
            }
        }
        proof {
            assert(self.tokens@.take(self.tokens@.len() as int) =~= self.tokens@);
        }
        out
    }
}

/// The host's error of the first failed reply among `rs`.
pub open spec fn first_error(rs: Seq<Result<u64, Value>>) -> Option<Value>
    decreases rs.len(),
{
    if rs.len() == 0 {
        None
    } else {
        match first_error(rs.drop_last()) {
            Some(e) => Some(e),
            None => match rs.last() {
                Err(e) => Some(e),
                Ok(_) => None,
            },
        }
    }
}

/// The tokens of the successful replies among `rs`, in order.
pub open spec fn ok_tokens(rs: Seq<Result<u64, Value>>) -> Seq<u64>
    decreases rs.len(),
{
    if rs.len() == 0 {
        Seq::empty()
    } else {
        match rs.last() {
            Ok(t) => ok_tokens(rs.drop_last()).push(t),
            Err(_) => ok_tokens(rs.drop_last()),
        }
    }
}

proof fn lemma_all_ok(rs: Seq<Result<u64, Value>>)
    ensures
        first_error(rs) is None <==> forall|i: int| 0 <= i < rs.len() ==> (#[trigger] rs[i]) is Ok,
    decreases rs.len(),
{
    if rs.len() > 0 {
        lemma_all_ok(rs.drop_last());
        if first_error(rs) is None {
            assert forall|i: int| 0 <= i < rs.len() implies (#[trigger] rs[i]) is Ok by {
                if i < rs.len() - 1 {
                    assert(rs.drop_last()[i] == rs[i]);
                }
            }
        } else {
            if forall|i: int| 0 <= i < rs.len() ==> (#[trigger] rs[i]) is Ok {
                assert forall|i: int| 0 <= i < rs.drop_last().len() implies (
                #[trigger] rs.drop_last()[i]) is Ok by {
                    assert(rs.drop_last()[i] == rs[i]);
                }
                assert(rs.last() is Ok);
            }
        }
    }
}

proof fn lemma_first_error_push(rs: Seq<Result<u64, Value>>, x: Result<u64, Value>)
    ensures
        first_error(rs.push(x)) == (match first_error(rs) {
            Some(e) => Some(e),
            None => match x {
                Err(e) => Some(e),
                Ok(_) => None,
            },
        }),
{
    assert(rs.push(x).drop_last() =~= rs);
}

/// A listener for one of the events that a window raises locally.
pub struct LocalListener {
    event: String,
    pending: Vec<Event<Value>>,
}

pub struct LocalModel {
    pub event: Seq<char>,
    pub pending: Seq<EventModel<Value>>,
}

impl DeepView for LocalListener {
    type V = LocalModel;

    closed spec fn deep_view(&self) -> LocalModel {
        LocalModel { event: self.event@, pending: self.pending.deep_view() }
    }
}

/// A window, known by its label, with the listeners of its local events.
pub struct Window {
    label: String,
    listeners: Vec<LocalListener>,
}

pub struct WindowModel {
    pub label: Seq<char>,
    pub listeners: Seq<LocalModel>,
}

impl DeepView for Window {
    type V = WindowModel;

    closed spec fn deep_view(&self) -> WindowModel {
        WindowModel { label: self.label@, listeners: self.listeners.deep_view() }
    }
}

/// How a subscription to a window's event is served.
pub enum WindowListen {
    /// By the window itself: the handle of its local listener.
    Local(usize),
    /// By the host: the registration request to send, scoped to the window.
    Remote(ListenRequest),
}

/// The listeners after the locally raised event `event` reached them: each
/// listener of `event` has one more event, named `event`, with id `-1` and a
/// payload that encodes `m`; the others are unchanged.
pub open spec fn local_delivered<T: Codec>(
    before: Seq<LocalModel>,
    after: Seq<LocalModel>,
    event: Seq<char>,
    m: T::V,
) -> bool {
    &&& after.len() == before.len()
    &&& forall|i: int|
        0 <= i < before.len() ==> {
            let b = #[trigger] before[i];
            let a = after[i];
            if b.event == event {
                &&& a.event == b.event
                &&& a.pending.len() == b.pending.len() + 1
                &&& a.pending.drop_last() == b.pending
                &&& a.pending.last().event == event
                &&& a.pending.last().id == -1
                &&& T::encodes(m, a.pending.last().payload)
            } else {
                a == b
            }
        }
}

/// The window labelled `label`, from the host's description `{ label }`.
pub open spec fn label_decoded(v: Value) -> Option<Seq<char>> {
    match field_of(v, "label"@) {
        Some(f) => str_of(f),
        None => None,
    }
}

impl Window {
    /// A window with the label `label` and no local listeners.
    pub fn new(label: &str) -> (r: Window)
        ensures
            r.deep_view() == (WindowModel { label: label@, listeners: Seq::empty() }),
    {
        let r = Window { label: text(label), listeners: Vec::new() };
        proof {
            assert(r.listeners.deep_view() =~= Seq::<LocalModel>::empty());
        }
        r
    }

    pub fn label(&self) -> (r: &String)
        ensures
            r@ == self.deep_view().label,
    {
        &self.label
    }

    /// The current window, from the host's description `{ label }` of it.
    pub fn get_current(reply: Value) -> (r: Result<Window, Error>)
        ensures
            label_decoded(reply) matches Some(l) ==> (r matches Ok(w) && w.deep_view() == (
            WindowModel { label: l, listeners: Seq::empty() })),
            label_decoded(reply) is None ==> r == Err::<Window, Error>(Error::Decoding(reply)),
    {
        let label = match reply.field("label") {
            Some(f) => match f.as_str() {
                Some(l) => Some(l.clone()),
                None => None,
            },
            None => None,
        };
        match label {
            Some(l) => Ok(Window::new(l.as_str())),
            None => Err(Error::Decoding(reply)),
        }
    }

    /// Every window, from the host's array of descriptions `{ label }`. A
    /// description that does not decode is the error; a reply that is not an
    /// array is one too.
    pub fn get_all(reply: Value) -> (r: Result<Vec<Window>, Error>)
        ensures
            r matches Ok(ws) ==> (reply matches Value::Array(xs) && ws@.len() == xs@.len() && forall|
                i: int,
            |
                0 <= i < xs@.len() ==> label_decoded(#[trigger] xs@[i]) == Some(
                    ws@[i].deep_view().label,
                ) && ws@[i].deep_view().listeners.len() == 0),
            r is Err <==> !(reply matches Value::Array(xs) && forall|i: int|
                0 <= i < xs@.len() ==> (#[trigger] label_decoded(xs@[i])) is Some),
            r matches Err(e) ==> (match reply {
                Value::Array(xs) => exists|i: int|
                    0 <= i < xs@.len() && label_decoded(#[trigger] xs@[i]) is None && e
                        == Error::Decoding(xs@[i]),
                _ => e == Error::Decoding(reply),
            }),
    {
        match reply {
            Value::Array(xs) => {
                let ghost all = xs@;
                let n = xs.len();
                let mut rest = xs;
                let mut ws: Vec<Window> = Vec::new();
                let mut i: usize = 0;
                while rest.len() > 0
                    invariant
                        0 <= i <= all.len(),
                        rest@ == all.subrange(i as int, all.len() as int),
                        all.len() == n,
                        reply == Value::Array(xs),
                        xs@ == all,
                        ws@.len() == i,
                        forall|k: int|
                            0 <= k < i ==> label_decoded(#[trigger] all[k]) == Some(
                                ws@[k].deep_view().label,
                            ) && ws@[k].deep_view().listeners.len() == 0,
                    decreases rest.len(),
                {
                    let x = rest.remove(0);
                    proof {
                        assert(x == all[i as int]);
                    }
                    match Window::get_current(x) {
                        Ok(w) => {
                            ws.push(w);
                        },
                        Err(e) => {
                            proof {
                                assert(label_decoded(all[i as int]) is None);
                            }
                            return Err(e);
                        },
                    }
                    i = i + 1;
                    proof {
                        assert(rest@ =~= all.subrange(i as int, all.len() as int));
                    }
                }
                Ok(ws)
            },
            _ => Err(Error::Decoding(reply)),
        }
    }

    /// The window labelled `label` among `windows`, if there is one.
    pub fn get_by_label(windows: Vec<Window>, label: &str) -> (r: Option<Window>)
        ensures
            r matches Some(w) ==> w.deep_view().label == label@ && exists|i: int|
                0 <= i < windows@.len() && #[trigger] windows@[i].deep_view() == w.deep_view(),
            r is None ==> forall|i: int|
                0 <= i < windows@.len() ==> (#[trigger] windows@[i].deep_view()).label != label@,
    {
        let want = text(label);
        let n = windows.len();
        let mut rest = windows;
        let ghost all = rest@;
        let mut i: usize = 0;
        while rest.len() > 0
            invariant
                0 <= i <= all.len(),
                rest@ == all.subrange(i as int, all.len() as int),
                all == windows@,
                all.len() == n,
                want@ == label@,
                forall|k: int| 0 <= k < i ==> (#[trigger] all[k].deep_view()).label != label@,
            decreases rest.len(),
        {
            let w = rest.remove(0);
            proof {
                assert(w == all[i as int]);
            }
            if w.label == want {
                proof {
                    assert(windows@[i as int].deep_view() == w.deep_view());
                }
                return Some(w);
            }
            i = i + 1;
            proof {
                assert(rest@ =~= all.subrange(i as int, all.len() as int));
            }
        }
        None
    }

    /// Subscribes to `event` on this window: a local listener for an event
    /// the window raises itself, else a registration scoped to this window.
    pub fn listen(&mut self, event: &str) -> (r: WindowListen)
        ensures
            is_local_event(event@) ==> r == WindowListen::Local(old(self).deep_view().listeners.len() as usize)
                && final(self).deep_view() == (WindowModel {
                listeners: old(self).deep_view().listeners.push(
                    LocalModel { event: event@, pending: Seq::empty() },
                ),
                ..old(self).deep_view()
            }),
            !is_local_event(event@) ==> (r matches WindowListen::Remote(req) && req.event@ == event@
                && options_encode(TargetModel::Window(old(self).deep_view().label), req.options)
                && !req.once) && final(self).deep_view() == old(self).deep_view(),
    {
        let e = text(event);
        if is_local(&e) {
            let handle = self.listeners.len();
            let l = LocalListener { event: e, pending: Vec::new() };
            let ghost before = self.listeners;
            self.listeners.push(l);
            proof {
                assert(l.pending.deep_view() =~= Seq::<EventModel<Value>>::empty());
                assert(self.listeners.deep_view() =~= before.deep_view().push(l.deep_view()));
            }
            WindowListen::Local(handle)
        } else {
            let target = EventTarget::Window(self.label.clone());
            WindowListen::Remote(listen_to(event, &target))
        }
    }

    /// Hands out the oldest event not yet handed out to the local listener
    /// `handle`; an unknown handle has finished.
    pub fn next_local(&mut self, handle: usize) -> (r: Next<Event<Value>>)
        ensures
            handle >= old(self).deep_view().listeners.len() ==> r is Finished && final(self).deep_view()
                == old(self).deep_view(),
            handle < old(self).deep_view().listeners.len() ==> {
                let l = old(self).deep_view().listeners[handle as int];
                if l.pending.len() > 0 {
                    &&& r matches Next::Item(x) && x.deep_view() == l.pending[0]
                    &&& final(self).deep_view() == (WindowModel {
                        listeners: old(self).deep_view().listeners.update(
                            handle as int,
                            LocalModel { pending: l.pending.drop_first(), ..l },
                        ),
                        ..old(self).deep_view()
                    })
                } else {
                    r is Pending && final(self).deep_view() == old(self).deep_view()
                }
            },
    {
        if handle >= self.listeners.len() {
            return Next::Finished;
        }
        if self.listeners[handle].pending.len() == 0 {
            return Next::Pending;
        }
        let ghost before = self.listeners;
        let x = self.listeners[handle].pending.remove(0);
        proof {
            assert(self.listeners@[handle as int].pending.deep_view() =~= before@[handle as int].pending.deep_view().drop_first());
            assert(self.listeners.deep_view() =~= before.deep_view().update(
                handle as int,
                self.listeners@[handle as int].deep_view(),
            ));
        }
        Next::Item(x)
    }

    /// Raises the local event `event` with `payload` on every listener of it.
    fn raise_local<T: Codec>(&mut self, event: &String, payload: &T)
        ensures
            local_delivered::<T>(
                old(self).deep_view().listeners,
                final(self).deep_view().listeners,
                event@,
                payload.deep_view(),
            ),
            final(self).deep_view().label == old(self).deep_view().label,
    {
        let ghost start = self.listeners.deep_view();
        let mut i: usize = 0;
        while i < self.listeners.len()
            invariant
                0 <= i <= self.listeners@.len(),
                self.listeners.deep_view().len() == start.len(),
                self.label@ == old(self).label@,
                start == old(self).listeners.deep_view(),
                forall|k: int| i <= k < start.len() ==> #[trigger] self.listeners.deep_view()[k] == start[k],
                local_delivered::<T>(
                    start.take(i as int),
                    self.listeners.deep_view().take(i as int),
                    event@,
                    payload.deep_view(),
                ),
            decreases self.listeners.len() - i,
        {
            let ghost prev = self.listeners.deep_view();
            if self.listeners[i].event == *event {
                let ghost before = self.listeners;
                let e = Event { event: event.clone(), id: -1, payload: payload.to_value() };
                self.listeners[i].pending.push(e);
                proof {
                    assert(self.listeners@[i as int].pending.deep_view() =~= before@[i as int].pending.deep_view().push(e.deep_view()));
                    assert(self.listeners@[i as int].pending.deep_view().drop_last() =~= before@[i as int].pending.deep_view());
                    assert forall|k: int| 0 <= k < self.listeners@.len() && k != i implies self.listeners.deep_view()[k] == prev[k] by {
                        assert(self.listeners@[k] == before@[k]);
                    }
                }
            }
            proof {
                let cur = self.listeners.deep_view();
                assert(cur.len() == prev.len());
                assert forall|k: int| i < k < start.len() implies #[trigger] cur[k] == start[k] by {
                    assert(prev[k] == start[k]);
                }
                assert(prev[i as int] == start[i as int]);
                assert forall|k: int| 0 <= k < i + 1 implies {
                    let b = #[trigger] start.take(i + 1)[k];
                    let a = cur.take(i + 1)[k];
                    if b.event == event@ {
                        &&& a.event == b.event
                        &&& a.pending.len() == b.pending.len() + 1
                        &&& a.pending.drop_last() == b.pending
                        &&& a.pending.last().event == event@
                        &&& a.pending.last().id == -1
                        &&& T::encodes(payload.deep_view(), a.pending.last().payload)
                    } else {
                        a == b
                    }
                } by {
                    if k < i {
                        assert(start.take(i as int)[k] == start.take(i + 1)[k]);
                        assert(prev.take(i as int)[k] == prev[k]);
                        assert(cur[k] == prev[k]);
                    }
                }
            }
            i = i + 1;
        }
        proof {
            assert(start.take(start.len() as int) =~= start);
            assert(self.listeners.deep_view().take(start.len() as int) =~= self.listeners.deep_view());
        }
    }

    /// Emits `event` with `payload`: an event the window raises itself goes
    /// to its local listeners and nothing is sent; any other becomes a
    /// request to emit to every target.
    pub fn emit<T: Codec>(&mut self, event: &str, payload: &T) -> (r: Option<EmitRequest>)
        ensures
            is_local_event(event@) ==> r is None && local_delivered::<T>(
                old(self).deep_view().listeners,
                final(self).deep_view().listeners,
                event@,
                payload.deep_view(),
            ) && final(self).deep_view().label == old(self).deep_view().label,
            !is_local_event(event@) ==> (r matches Some(req) && req.target is None && req.event@
                == event@ && T::encodes(payload.deep_view(), req.payload)) && final(self).deep_view()
                == old(self).deep_view(),
    {
        let e = text(event);
        if is_local(&e) {
            self.raise_local(&e, payload);
            None
        } else {
            Some(emit(event, payload))
        }
    }

    /// Emits `event` with `payload` to `target`: an event the window raises
    /// itself goes to its local listeners and nothing is sent; any other
    /// becomes a request to emit to `target`.
    pub fn emit_to<T: Codec>(&mut self, target: &EventTarget, event: &str, payload: &T) -> (r:
        Option<EmitRequest>)
        ensures
            is_local_event(event@) ==> r is None && local_delivered::<T>(
                old(self).deep_view().listeners,
                final(self).deep_view().listeners,
                event@,
                payload.deep_view(),
            ) && final(self).deep_view().label == old(self).deep_view().label,
            !is_local_event(event@) ==> (r matches Some(req) && (req.target matches Some(t)
                && EventTarget::encodes(target.deep_view(), t)) && req.event@ == event@
                && T::encodes(payload.deep_view(), req.payload)) && final(self).deep_view() == old(
                self,
            ).deep_view(),
    {
        let e = text(event);
        if is_local(&e) {
            self.raise_local(&e, payload);
            None
        } else {
            Some(emit_to(target, event, payload))
        }
    }

    /// The four registrations that follow drag-and-drop over this window.
    pub fn on_drag_drop_event(&self) -> (r: DragDropRequests)
        ensures
            r.enter.event@ == DRAG_ENTER@ && r.drop.event@ == DRAG_DROP@ && r.over.event@
                == DRAG_OVER@ && r.leave.event@ == DRAG_LEAVE@,
            options_encode(TargetModel::Window(self.deep_view().label), r.enter.options),
            options_encode(TargetModel::Window(self.deep_view().label), r.drop.options),
            options_encode(TargetModel::Window(self.deep_view().label), r.over.options),
            options_encode(TargetModel::Window(self.deep_view().label), r.leave.options),
            !r.enter.once && !r.drop.once && !r.over.once && !r.leave.once,
    {
        let target = EventTarget::Window(self.label.clone());
        DragDropRequests {
            enter: listen_to(DRAG_ENTER, &target),
            drop: listen_to(DRAG_DROP, &target),
            over: listen_to(DRAG_OVER, &target),
            leave: listen_to(DRAG_LEAVE, &target),
        }
    }
}

} // verus!
