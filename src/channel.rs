//! Channels: ordered inbound streams that the host pushes to under an id
//! that an outbound command carried.
use crate::codec::{Codec, opt_encodes, opt_field, option_field, option_to_value, lemma_opt_field};
use crate::registry::CallbackRegistry;
use crate::value::{Value, field_of, push_field, text};
use vstd::prelude::*;

verus! {

/// One message pushed to a channel: its sequence index, an optional end
/// marker, and an optional payload.
#[derive(Clone, Debug, PartialEq)]
pub struct Message<T> {
    index: usize,
    end: Option<bool>,
    message: Option<T>,
}

pub struct MessageModel<T> {
    pub index: usize,
    pub end: Option<bool>,
    pub message: Option<T>,
}

impl<T> MessageModel<T> {
    /// The end marker is set.
    pub open spec fn is_end(&self) -> bool {
        self.end == Some(true)
    }
}

impl<T: DeepView> DeepView for Message<T> {
    type V = MessageModel<T::V>;

    closed spec fn deep_view(&self) -> MessageModel<T::V> {
        MessageModel { index: self.index, end: self.end, message: self.message.deep_view() }
    }
}

impl<T: DeepView> Message<T> {
    pub fn new(index: usize, end: Option<bool>, message: Option<T>) -> (r: Message<T>)
        ensures
            r.deep_view() == (MessageModel { index, end, message: message.deep_view() }),
    {
        Message { index, end, message }
    }

    pub fn index(&self) -> (r: usize)
        ensures
            r == self.deep_view().index,
    {
        self.index
    }

    /// Whether the message's end marker is set to `true`.
    pub fn end(&self) -> (r: bool)
        ensures
            r == self.deep_view().is_end(),
    {
        match self.end {
            Some(true) => true,
            _ => false,
        }
    }

    /// The payload carried, if any.
    pub fn payload(&self) -> (r: &Option<T>)
        ensures
            r.deep_view() == self.deep_view().message,
    {
        &self.message
    }
}

impl<T: Codec> Codec for Message<T> {
    open spec fn encodes(m: MessageModel<T::V>, v: Value) -> bool {
        &&& v is Object
        &&& (field_of(v, "index"@) matches Some(f) && usize::encodes(m.index, f))
        &&& (field_of(v, "end"@) matches Some(f) && opt_encodes::<bool>(m.end, f))
        &&& (field_of(v, "message"@) matches Some(f) && opt_encodes::<T>(m.message, f))
    }

    open spec fn decoded(v: Value) -> Option<MessageModel<T::V>> {
        match (field_of(v, "index"@), opt_field::<bool>(v, "end"@), opt_field::<T>(v, "message"@)) {
            (Some(i), Some(end), Some(message)) => match usize::decoded(i) {
                Some(index) => Some(MessageModel { index, end, message }),
                None => None,
            },
            _ => None,
        }
    }

    fn to_value(&self) -> (v: Value) {
        let mut fields: Vec<(String, Value)> = Vec::new();
        push_field(&mut fields, "index", self.index.to_value());
        push_field(&mut fields, "end", option_to_value(&self.end));
        push_field(&mut fields, "message", option_to_value(&self.message));
        proof {
            reveal_strlit("index");
            reveal_strlit("end");
            reveal_strlit("message");
            assert("index"@.len() == 5 && "end"@.len() == 3 && "message"@.len() == 7);
            assert(self.end.deep_view() == self.end);
        }
        Value::Object(fields)
    }

    fn from_value(v: &Value) -> (r: Option<Message<T>>) {
        let i = match v.field("index") {
            Some(f) => f,
            None => {
                return None;
            },
        };
        let index = match usize::from_value(i) {
            Some(x) => x,
            None => {
                return None;
            },
        };
        let end = match option_field::<bool>(v, "end") {
            Some(x) => x,
            None => {
                return None;
            },
        };
        let message = match option_field::<T>(v, "message") {
            Some(x) => x,
            None => {
                return None;
            },
        };
        Some(Message { index, end, message })
    }

    proof fn lemma_round_trip(m: MessageModel<T::V>, v: Value) {
        usize::lemma_round_trip(m.index, field_of(v, "index"@)->0);
        lemma_opt_field::<bool>(m.end, v, "end"@);
        lemma_opt_field::<T>(m.message, v, "message"@);
    }
}

/// The decimal digits of `n`.
pub open spec fn decimal(n: nat) -> Seq<char>
    decreases n,
{
    if n < 10 {
        seq![digit_char(n)]
    } else {
        decimal(n / 10) + seq![digit_char(n % 10)]
    }
}

pub open spec fn digit_char(d: nat) -> char {
    if d < 10 {
        (('0' as nat) + d) as char
    } else {
        '0'
    }
}

fn digit(d: usize) -> (r: &'static str)
    requires
        d < 10,
    ensures
        r@ == seq![digit_char(d as nat)],
{
    proof {
        reveal_strlit("0");
        reveal_strlit("1");
        reveal_strlit("2");
        reveal_strlit("3");
        reveal_strlit("4");
        reveal_strlit("5");
        reveal_strlit("6");
        reveal_strlit("7");
        reveal_strlit("8");
        reveal_strlit("9");
    }
    match d {
        0 => "0",
        1 => "1",
        2 => "2",
        3 => "3",
        4 => "4",
        5 => "5",
        6 => "6",
        7 => "7",
        8 => "8",
        _ => "9",
    }
}

/// The decimal representation of `n`.
pub fn decimal_string(n: usize) -> (r: String)
    ensures
        r@ == decimal(n as nat),
    decreases n,
{
    if n < 10 {
        text(digit(n))
    } else {
        let mut s = decimal_string(n / 10);
        s.append(digit(n % 10));
        s
    }
}

/// The routing token under which a command's arguments name channel `id`.
pub open spec fn channel_token(id: usize) -> Seq<char> {
    "__CHANNEL__:"@ + decimal(id as nat)
}

/// The routing token for channel `id`, as it stands in a command's arguments.
pub fn token_for(id: usize) -> (r: String)
    ensures
        r@ == channel_token(id),
{
    let mut s = text("__CHANNEL__:");
    let d = decimal_string(id);
    s.append(d.as_str());
    s
}

/// A channel: a local, ordered queue of payloads fed by messages that the
/// host pushes under the channel's id.
///
/// A message with the end marker set ends the stream: its own payload is
/// discarded, and so is every message that arrives after it. Payloads queued
/// before it are still handed out, in the order they arrived.
pub struct Channel<T> {
    id: usize,
    pending: Vec<T>,
    ended: bool,
}

pub struct ChannelModel<T> {
    pub id: usize,
    pub pending: Seq<T>,
    pub ended: bool,
}

/// What a poll of a channel gives.
#[derive(Debug, PartialEq)]
pub enum Next<T> {
    /// The oldest payload not yet handed out.
    Item(T),
    /// Nothing yet; the stream goes on.
    Pending,
    /// The stream has ended and every payload has been handed out.
    Finished,
}

impl<T: DeepView> DeepView for Channel<T> {
    type V = ChannelModel<T::V>;

    closed spec fn deep_view(&self) -> ChannelModel<T::V> {
        ChannelModel { id: self.id, pending: self.pending.deep_view(), ended: self.ended }
    }
}

/// The channel state after the message `m` arrives.
pub open spec fn after_delivery<T>(c: ChannelModel<T>, m: MessageModel<T>) -> ChannelModel<T> {
    if c.ended {
        c
    } else if m.is_end() {
        ChannelModel { ended: true, ..c }
    } else {
        match m.message {
            Some(x) => ChannelModel { pending: c.pending.push(x), ..c },
            None => c,
        }
    }
}

/// The channel state after the messages `ms` arrive, in order.
pub open spec fn deliver_all<T>(c: ChannelModel<T>, ms: Seq<MessageModel<T>>) -> ChannelModel<T>
    decreases ms.len(),
{
    if ms.len() == 0 {
        c
    } else {
        deliver_all(after_delivery(c, ms[0]), ms.drop_first())
    }
}

/// The payloads that the messages `ms` carry, in order.
pub open spec fn payloads<T>(ms: Seq<MessageModel<T>>) -> Seq<T>
    decreases ms.len(),
{
    if ms.len() == 0 {
        Seq::empty()
    } else {
        let rest = payloads(ms.drop_first());
        match ms[0].message {
            Some(x) => seq![x] + rest,
            None => rest,
        }
    }
}

/// The payloads that `k` successive polls of a channel in state `c` hand out.
pub open spec fn yields<T>(c: ChannelModel<T>, k: nat) -> Seq<T>
    decreases k,
{
    if k == 0 || c.pending.len() == 0 {
        Seq::empty()
    } else {
        seq![c.pending[0]] + yields(ChannelModel { pending: c.pending.drop_first(), ..c }, (k - 1) as nat)
    }
}

/// No message of `ms` carries the end marker.
pub open spec fn no_end<T>(ms: Seq<MessageModel<T>>) -> bool {
    forall|i: int| 0 <= i < ms.len() ==> !(#[trigger] ms[i]).is_end()
}

impl<T: DeepView> Channel<T> {
    /// A channel under a fresh id of `registry`; `None` once the registry has
    /// no id left to hand out.
    pub fn new(registry: &mut CallbackRegistry) -> (r: Option<Channel<T>>)
        requires
            old(registry).wf(),
        ensures
            final(registry).wf(),
            old(registry)@.next < usize::MAX ==> (r matches Some(c) && c.deep_view() == (
            ChannelModel::<T::V> {
                id: old(registry)@.next as usize,
                pending: Seq::empty(),
                ended: false,
            }) && final(registry)@ == (crate::registry::RegistryModel {
                next: old(registry)@.next + 1,
                live: old(registry)@.live.insert(c.deep_view().id),
            })),
            final(registry)@.next <= usize::MAX,
            old(registry)@.next >= usize::MAX ==> r is None && final(registry)@ == old(registry)@,
            r matches Some(c) ==> !old(registry)@.live.contains(c.deep_view().id),
    {
        match registry.register() {
            Some(id) => {
                let c = Channel { id, pending: Vec::new(), ended: false };
                proof {
                    assert(c.pending.deep_view() =~= Seq::<T::V>::empty());
                }
                Some(c)
            },
            None => None,
        }
    }

    pub fn id(&self) -> (r: usize)
        ensures
            r == self.deep_view().id,
    {
        self.id
    }

    /// The routing token `__CHANNEL__:<id>` that names this channel in a
    /// command's arguments.
    pub fn token(&self) -> (r: String)
        ensures
            r@ == channel_token(self.deep_view().id),
    {
        token_for(self.id)
    }

    /// The encoded form of this channel in a command's arguments: its token.
    pub fn to_value(&self) -> (v: Value)
        ensures
            v matches Value::Str(s) && s@ == channel_token(self.deep_view().id),
    {
        Value::Str(self.token())
    }

    /// Whether the stream has ended.
    pub fn is_ended(&self) -> (r: bool)
        ensures
            r == self.deep_view().ended,
    {
        self.ended
    }

    /// Takes in a message pushed by the host.
    pub fn deliver(&mut self, m: Message<T>)
        ensures
            final(self).deep_view() == after_delivery(old(self).deep_view(), m.deep_view()),
    {
        if self.ended {
            return;
        }
        if m.end() {
            self.ended = true;
            return;
        }
        match m.message {
            Some(x) => {
                let ghost before = self.pending;
                self.pending.push(x);
                proof {
                    assert(self.pending.deep_view() =~= before.deep_view().push(x.deep_view()));
                }
            },
            None => {},
        }
    }

    /// Hands out the oldest payload not yet handed out.
    pub fn next(&mut self) -> (r: Next<T>)
        ensures
            old(self).deep_view().pending.len() > 0 ==> (r matches Next::Item(x) && x.deep_view()
                == old(self).deep_view().pending[0] && final(self).deep_view() == (ChannelModel {
                pending: old(self).deep_view().pending.drop_first(),
                ..old(self).deep_view()
            })),
            old(self).deep_view().pending.len() == 0 ==> final(self).deep_view() == old(
                self,
            ).deep_view() && (if old(self).deep_view().ended {
                r is Finished
            } else {
                r is Pending
            }),
    {
        if self.pending.len() > 0 {
            let ghost before = self.pending;
            let x = self.pending.remove(0);
            proof {
                assert(self.pending.deep_view() =~= before.deep_view().drop_first());
            }
            Next::Item(x)
        } else if self.ended {
            Next::Finished
        } else {
            Next::Pending
        }
    }

    /// Releases the channel's id in `registry`; says whether it was in use.
    pub fn close(self, registry: &mut CallbackRegistry) -> (r: bool)
        requires
            old(registry).wf(),
        ensures
            final(registry).wf(),
            r == old(registry)@.live.contains(self.deep_view().id),
            final(registry)@.live == old(registry)@.live.remove(self.deep_view().id),
    {
        registry.unregister(self.id)
    }
}

impl<T: Codec> Channel<T> {
    /// Takes in a raw message pushed by the host. One that does not decode is
    /// dropped, and the stream goes on; says whether it decoded.
    pub fn receive(&mut self, raw: &Value) -> (r: bool)
        ensures
            r == Message::<T>::decoded(*raw) is Some,
            r ==> final(self).deep_view() == after_delivery(
                old(self).deep_view(),
                Message::<T>::decoded(*raw)->0,
            ),
            !r ==> final(self).deep_view() == old(self).deep_view(),
    {
        match Message::<T>::from_value(raw) {
            Some(m) => {
                self.deliver(m);
                true
            },
            None => false,
        }
    }
}

/// Messages without an end marker that reach a channel that has not ended
/// queue their payloads behind those already waiting, in the order the
/// messages arrived.
pub proof fn lemma_delivery_order<T>(c: ChannelModel<T>, ms: Seq<MessageModel<T>>)
    requires
        !c.ended,
        no_end(ms),
    ensures
        deliver_all(c, ms) == (ChannelModel { pending: c.pending + payloads(ms), ..c }),
    decreases ms.len(),
{
    if ms.len() == 0 {
        assert(c.pending + Seq::<T>::empty() =~= c.pending);
    } else {
        let d = after_delivery(c, ms[0]);
        assert(no_end(ms.drop_first())) by {
            assert forall|i: int| 0 <= i < ms.drop_first().len() implies !(
            #[trigger] ms.drop_first()[i]).is_end() by {
                assert(ms.drop_first()[i] == ms[i + 1]);
            }
        }
        assert(!ms[0].is_end());
        lemma_delivery_order(d, ms.drop_first());
        match ms[0].message {
            Some(x) => {
                assert(c.pending.push(x) + payloads(ms.drop_first()) =~= c.pending + (seq![x]
                    + payloads(ms.drop_first())));
            },
            None => {},
        }
    }
}

/// Successive polls hand out the waiting payloads front first.
pub proof fn lemma_yields_in_order<T>(c: ChannelModel<T>, k: nat)
    requires
        k <= c.pending.len(),
    ensures
        yields(c, k) == c.pending.take(k as int),
    decreases k,
{
    if k == 0 {
        assert(c.pending.take(0) =~= Seq::<T>::empty());
    } else {
        let d = ChannelModel { pending: c.pending.drop_first(), ..c };
        lemma_yields_in_order(d, (k - 1) as nat);
        assert(seq![c.pending[0]] + d.pending.take(k - 1) =~= c.pending.take(k as int));
    }
}

/// Messages delivered to a fresh channel come out of it in the order they
/// were delivered.
pub proof fn lemma_channel_order<T>(c: ChannelModel<T>, ms: Seq<MessageModel<T>>)
    requires
        !c.ended,
        c.pending.len() == 0,
        no_end(ms),
    ensures
        yields(deliver_all(c, ms), payloads(ms).len()) == payloads(ms),
{
    lemma_delivery_order(c, ms);
    let d = deliver_all(c, ms);
    assert(d.pending =~= payloads(ms));
    lemma_yields_in_order(d, payloads(ms).len());
    assert(d.pending.take(payloads(ms).len() as int) =~= payloads(ms));
}

/// Once a channel has ended, nothing that arrives changes it.
pub proof fn lemma_ended_ignores<T>(c: ChannelModel<T>, ms: Seq<MessageModel<T>>)
    requires
        c.ended,
    ensures
        deliver_all(c, ms) == c,
    decreases ms.len(),
{
    if ms.len() > 0 {
        lemma_ended_ignores(after_delivery(c, ms[0]), ms.drop_first());
    }
}

/// The first message with the end marker ends the stream: the payloads
/// before it are queued, its own and everything after it are discarded.
pub proof fn lemma_end_marker<T>(c: ChannelModel<T>, ms: Seq<MessageModel<T>>, j: int)
    requires
        !c.ended,
        0 <= j < ms.len(),
        ms[j].is_end(),
        no_end(ms.take(j)),
    ensures
        deliver_all(c, ms) == (ChannelModel {
            pending: c.pending + payloads(ms.take(j)),
            ended: true,
            ..c
        }),
    decreases ms.len(),
{
    if j == 0 {
        assert(payloads(ms.take(0)) =~= Seq::<T>::empty());
        assert(c.pending + Seq::<T>::empty() =~= c.pending);
        lemma_ended_ignores(after_delivery(c, ms[0]), ms.drop_first());
    } else {
        let d = after_delivery(c, ms[0]);
        assert(ms.take(j)[0] == ms[0]);
        assert(!ms[0].is_end());
        assert(ms.drop_first().take(j - 1) =~= ms.take(j).drop_first());
        assert(no_end(ms.drop_first().take(j - 1))) by {
            assert forall|i: int| 0 <= i < j - 1 implies !(
            #[trigger] ms.drop_first().take(j - 1)[i]).is_end() by {
                assert(ms.drop_first().take(j - 1)[i] == ms.take(j)[i + 1]);
            }
        }
        lemma_end_marker(d, ms.drop_first(), j - 1);
        match ms[0].message {
            Some(x) => {
                assert(c.pending.push(x) + payloads(ms.take(j).drop_first()) =~= c.pending + (
                seq![x] + payloads(ms.take(j).drop_first())));
            },
            None => {},
        }
    }
}

} // verus!
