use tauri_sys::channel::Message;
use tauri_sys::codec::{option_field, option_from_value, option_to_value, Codec};
use tauri_sys::dpi::{LogicalPosition, LogicalSize, PhysicalPosition, PhysicalSize};
use tauri_sys::event::{Event, EventTarget};
use tauri_sys::notification::Permission;
use tauri_sys::updater::UpdateManifest;
use tauri_sys::value::{object2, Value};
use tauri_sys::window::{DragDropPayload, DragOverPayload};

fn round_trip<T: Codec + PartialEq + std::fmt::Debug>(x: T) {
    let v = x.to_value();
    assert_ne!(v, Value::Null);
    assert_eq!(T::from_value(&v), Some(x));
}

#[test]
fn scalars_round_trip() {
    round_trip(true);
    round_trip(false);
    round_trip(i64::MIN);
    round_trip(-5i64);
    round_trip(isize::MAX);
    round_trip(u64::MAX);
    round_trip(0usize);
    round_trip(String::new());
    round_trip("héllo".to_string());
}

#[test]
fn integers_out_of_range_do_not_decode() {
    assert_eq!(u64::from_value(&Value::Int(-1)), None);
    assert_eq!(i64::from_value(&Value::Int(i64::MAX as i128 + 1)), None);
    assert_eq!(u64::from_value(&Value::Int(u64::MAX as i128 + 1)), None);
    assert_eq!(i64::from_value(&Value::string("1")), None);
    assert_eq!(12i64.to_value(), Value::Int(12));
}

#[test]
fn nested_collections_round_trip() {
    round_trip(Vec::<String>::new());
    round_trip(vec!["a".to_string(), "b".to_string()]);
    round_trip(vec![vec![1u64, 2], vec![], vec![3]]);
    assert_eq!(
        Vec::<u64>::from_value(&Value::Array(vec![Value::Int(1), Value::string("x")])),
        None
    );
}

#[test]
fn optional_values_round_trip() {
    let none: Option<u64> = None;
    assert_eq!(option_to_value(&none), Value::Null);
    assert_eq!(option_from_value::<u64>(&Value::Null), Some(None));
    assert_eq!(option_from_value::<u64>(&option_to_value(&Some(7u64))), Some(Some(7)));
    assert_eq!(option_from_value::<u64>(&Value::Bool(true)), None);
    let obj = object2("a", Value::Int(1), "b", Value::Null);
    assert_eq!(option_field::<u64>(&obj, "a"), Some(Some(1)));
    assert_eq!(option_field::<u64>(&obj, "b"), Some(None));
    assert_eq!(option_field::<u64>(&obj, "missing"), Some(None));
}

#[test]
fn records_round_trip() {
    round_trip(Message::new(3, Some(false), Some("p".to_string())));
    round_trip(Message::<u64>::new(0, None, None));
    round_trip(Event { event: "e".to_string(), id: -1, payload: vec![true, false] });
    round_trip(LogicalSize::new(1, -2));
    round_trip(PhysicalSize::new(800, 600));
    round_trip(LogicalPosition::new(-3, 4));
    round_trip(PhysicalPosition::new(5, 6));
    round_trip(DragDropPayload::new(vec!["/a".to_string()], PhysicalPosition::new(1, 2)));
    round_trip(DragOverPayload::new(PhysicalPosition::new(9, 9)));
    round_trip(UpdateManifest {
        available: true,
        body: "notes".to_string(),
        current_version: "1.0.0".to_string(),
        date: "2024-01-01".to_string(),
        version: "1.1.0".to_string(),
    });
}

#[test]
fn event_targets_round_trip() {
    round_trip(EventTarget::Any);
    round_trip(EventTarget::App);
    round_trip(EventTarget::AnyLabel("x".to_string()));
    round_trip(EventTarget::Window("main".to_string()));
    round_trip(EventTarget::Webview("w".to_string()));
    round_trip(EventTarget::WebviewWindow("ww".to_string()));
    let v = EventTarget::Window("main".to_string()).to_value();
    assert_eq!(v.field("kind"), Some(&Value::string("Window")));
    assert_eq!(v.field("label"), Some(&Value::string("main")));
    assert_eq!(EventTarget::Any.to_value().field("label"), None);
}

#[test]
fn message_wire_names() {
    let v = object2("index", Value::Int(2), "message", Value::string("hi"));
    let m = Message::<String>::from_value(&v).unwrap();
    assert_eq!(m.index(), 2);
    assert!(!m.end());
    assert_eq!(m.payload(), &Some("hi".to_string()));
    assert_eq!(Message::<String>::from_value(&Value::Null), None);
}

#[test]
fn permissions_round_trip() {
    round_trip(Permission::Default);
    round_trip(Permission::Granted);
    round_trip(Permission::Denied);
    assert_eq!(Permission::from_value(&Value::string("granted")), Some(Permission::Granted));
    assert_eq!(Permission::from_value(&Value::string("maybe")), None);
}
