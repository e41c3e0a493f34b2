use tauri_sys::channel::{decimal_string, token_for, Channel, Message, Next};
use tauri_sys::codec::Codec;
use tauri_sys::error::Error;
use tauri_sys::event::{
    listen, listen_to, once_to, EventTarget, ListenRequest, Once, Subscription, Unlisten,
};
use tauri_sys::gateway::{complete_invoke, complete_invoke_result, invoke, Invocation, Resource};
use tauri_sys::registry::CallbackRegistry;
use tauri_sys::value::{object2, Value};

/// A stand-in for the host: answers invocations and keeps listeners.
struct FakeHost {
    next_token: u64,
    listeners: Vec<(u64, String, EventTarget)>,
    unlisten_calls: Vec<u64>,
}

impl FakeHost {
    fn new() -> FakeHost {
        FakeHost { next_token: 1, listeners: Vec::new(), unlisten_calls: Vec::new() }
    }

    fn call(&self, inv: &Invocation) -> Result<Value, Value> {
        match inv.command.as_str() {
            "add" => {
                let a = i64::from_value(inv.args.field("a").unwrap()).unwrap();
                let b = i64::from_value(inv.args.field("b").unwrap()).unwrap();
                Ok((a + b).to_value())
            }
            "fail" => Err(Value::string("boom")),
            _ => Ok(Value::Null),
        }
    }

    fn register(&mut self, req: &ListenRequest) -> Result<u64, Value> {
        let target = EventTarget::from_value(req.options.field("target").unwrap()).unwrap();
        let token = self.next_token;
        self.next_token += 1;
        self.listeners.push((token, req.event.clone(), target));
        Ok(token)
    }

    fn unlisten(&mut self, u: Unlisten) {
        self.unlisten_calls.push(u.token);
        self.listeners.retain(|l| l.0 != u.token);
    }

    /// The tokens of the listeners that an event for `scope` reaches.
    fn dispatch(&self, event: &str, scope: &EventTarget) -> Vec<u64> {
        self.listeners
            .iter()
            .filter(|l| l.1 == event && (l.2 == EventTarget::Any || &l.2 == scope))
            .map(|l| l.0)
            .collect()
    }
}

fn msg(index: usize, end: Option<bool>, payload: &str) -> Message<String> {
    Message::new(index, end, Some(payload.to_string()))
}

fn drain(c: &mut Channel<String>) -> (Vec<String>, Next<String>) {
    let mut out = Vec::new();
    loop {
        match c.next() {
            Next::Item(x) => out.push(x),
            other => return (out, other),
        }
    }
}

#[test]
fn basic_invocation_add() {
    let host = FakeHost::new();
    let args = object2("a", 12i64.to_value(), "b", 15i64.to_value());
    let inv = invoke("add", args);
    assert_eq!(inv.command, "add");
    let reply = host.call(&inv).unwrap();
    let r: Result<i64, Error> = complete_invoke(reply);
    assert_eq!(r, Ok(27));
}

#[test]
fn fallible_rejection_is_command_error() {
    let host = FakeHost::new();
    let inv = invoke("fail", Value::Null);
    let r: Result<i64, Error> = complete_invoke_result(host.call(&inv));
    let err = r.unwrap_err();
    assert_eq!(err, Error::Command(Value::string("boom")));
    assert_eq!(err.command_payload::<String>(), Some("boom".to_string()));
}

#[test]
fn reply_that_does_not_decode_is_decoding_error() {
    let r: Result<i64, Error> = complete_invoke_result(Ok(Value::string("x")));
    assert_eq!(r, Err(Error::Decoding(Value::string("x"))));
    let r: Result<u64, Error> = complete_invoke(Value::Int(-1));
    assert_eq!(r, Err(Error::Decoding(Value::Int(-1))));
    assert_eq!(Error::Decoding(Value::Null).command_payload::<String>(), None);
}

#[test]
fn resource_close_addresses_its_rid() {
    let r = Resource::new(42);
    assert_eq!(r.rid(), 42);
    let inv = r.close();
    assert_eq!(inv.command, "plugin:resources|close");
    assert_eq!(inv.args.field("rid"), Some(&Value::Int(42)));
}

#[test]
fn registry_hands_out_fresh_ids_and_releases_once() {
    let mut reg = CallbackRegistry::new();
    let a = reg.register().unwrap();
    let b = reg.register().unwrap();
    assert_ne!(a, b);
    assert!(reg.is_registered(a));
    assert!(reg.unregister(a));
    assert!(!reg.unregister(a));
    assert!(!reg.is_registered(a));
    assert!(reg.is_registered(b));
    let c = reg.register().unwrap();
    assert_ne!(c, a);
}

#[test]
fn channel_token_names_the_id() {
    let mut reg = CallbackRegistry::new();
    let c0: Channel<String> = Channel::new(&mut reg).unwrap();
    assert_eq!(c0.token(), "__CHANNEL__:0");
    assert_eq!(c0.to_value(), Value::string("__CHANNEL__:0"));
    assert_eq!(token_for(1234), "__CHANNEL__:1234");
    assert_eq!(decimal_string(0), "0");
    assert_eq!(decimal_string(9), "9");
    assert_eq!(decimal_string(10), "10");
    assert_eq!(decimal_string(usize::MAX), usize::MAX.to_string());
}

#[test]
fn channel_yields_in_delivery_order() {
    let mut reg = CallbackRegistry::new();
    let mut c: Channel<String> = Channel::new(&mut reg).unwrap();
    c.deliver(msg(0, None, "m1"));
    assert_eq!(c.next(), Next::Item("m1".to_string()));
    assert_eq!(c.next(), Next::Pending);
    c.deliver(msg(1, Some(false), "m2"));
    c.deliver(msg(2, None, "m3"));
    let (items, last) = drain(&mut c);
    assert_eq!(items, vec!["m2".to_string(), "m3".to_string()]);
    assert_eq!(last, Next::Pending);
}

#[test]
fn channel_ends_on_end_marker() {
    let mut reg = CallbackRegistry::new();
    let mut c: Channel<String> = Channel::new(&mut reg).unwrap();
    c.deliver(msg(0, None, "a"));
    c.deliver(msg(1, None, "b"));
    c.deliver(msg(2, Some(true), "end payload"));
    assert!(c.is_ended());
    c.deliver(msg(3, None, "late"));
    let (items, last) = drain(&mut c);
    assert_eq!(items, vec!["a".to_string(), "b".to_string()]);
    assert_eq!(last, Next::Finished);
    assert_eq!(c.next(), Next::Finished);
}

#[test]
fn channel_receives_raw_messages_and_drops_bad_ones() {
    let mut reg = CallbackRegistry::new();
    let mut c: Channel<String> = Channel::new(&mut reg).unwrap();
    assert!(c.receive(&msg(0, None, "x").to_value()));
    assert!(!c.receive(&Value::Int(3)));
    assert!(c.receive(&Message::<String>::new(1, Some(true), None).to_value()));
    assert_eq!(c.next(), Next::Item("x".to_string()));
    assert_eq!(c.next(), Next::Finished);
    let id = c.id();
    assert!(c.close(&mut reg));
    assert!(!reg.is_registered(id));
}

#[test]
fn message_end_flag() {
    let m: Message<String> = Message::new(7, Some(true), None);
    assert!(m.end());
    assert_eq!(m.index(), 7);
    assert_eq!(m.payload(), &None);
    assert!(!Message::<String>::new(0, Some(false), None).end());
    assert!(!Message::<String>::new(0, None, None).end());
}

#[test]
fn subscription_deregisters_once_when_dropped_unused() {
    let mut host = FakeHost::new();
    let req = listen("rust-event");
    let sub: Subscription<String> = Subscription::accept(host.register(&req)).unwrap();
    host.unlisten(sub.close());
    assert_eq!(host.unlisten_calls, vec![1]);
    assert!(host.listeners.is_empty());
}

#[test]
fn subscription_deregisters_once_after_partial_consumption() {
    let mut host = FakeHost::new();
    let req = listen("rust-event");
    let mut sub: Subscription<String> = Subscription::accept(host.register(&req)).unwrap();
    assert!(sub.receive(&Value::string("one")));
    assert!(sub.receive(&Value::string("two")));
    assert!(!sub.receive(&Value::Int(3)));
    assert_eq!(sub.next(), Next::Item("one".to_string()));
    host.unlisten(sub.close());
    assert_eq!(host.unlisten_calls, vec![1]);
}

#[test]
fn subscription_registration_failure() {
    let r: Result<Subscription<String>, Error> = Subscription::accept(Err(Value::string("denied")));
    assert_eq!(r.err(), Some(Error::Registration(Value::string("denied"))));
}

#[test]
fn once_keeps_first_delivery_only() {
    let mut host = FakeHost::new();
    let req = once_to("loaded", &EventTarget::App);
    assert!(req.once);
    let mut o: Once<String> = Once::accept(host.register(&req)).unwrap();
    assert_eq!(o.next(), Next::Pending);
    o.deliver("first".to_string());
    o.deliver("second".to_string());
    assert_eq!(o.next(), Next::Item("first".to_string()));
    o.deliver("third".to_string());
    assert_eq!(o.next(), Next::Finished);
    host.unlisten(o.close());
    assert_eq!(host.unlisten_calls.len(), 1);
}

#[test]
fn once_torn_down_before_delivery_is_cancelled() {
    let o: Once<String> = Once::accept(Ok(9)).unwrap();
    let (r, u) = o.resolve();
    assert_eq!(r, Err(Error::Canceled));
    assert_eq!(u, Unlisten { token: 9 });
    let mut o: Once<String> = Once::accept(Ok(4)).unwrap();
    o.deliver("v".to_string());
    assert_eq!(o.resolve().0, Ok("v".to_string()));
}

#[test]
fn scope_filtering_window_a_not_b() {
    let mut host = FakeHost::new();
    let a = EventTarget::Window("A".to_string());
    let b = EventTarget::Window("B".to_string());
    let req = listen_to("ping", &a);
    let sub: Subscription<String> = Subscription::accept(host.register(&req)).unwrap();
    assert_eq!(host.dispatch("ping", &b), Vec::<u64>::new());
    assert_eq!(host.dispatch("ping", &a), vec![sub.token()]);
}
