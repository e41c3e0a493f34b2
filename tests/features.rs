use tauri_sys::application::{default_window_icon, default_window_icon_from, Image, ImageSize, Theme};
use tauri_sys::channel::Next;
use tauri_sys::codec::Codec;
use tauri_sys::dialog::{FileDialogBuilder, MessageCall, MessageDialogBuilder, MessageDialogKind};
use tauri_sys::dpi::{Kind, LogicalPosition, LogicalSize, PhysicalPosition, PhysicalSize};
use tauri_sys::error::Error;
use tauri_sys::event::{Event, EventTarget, DRAG_DROP, DRAG_ENTER};
use tauri_sys::gateway::complete_invoke;
use tauri_sys::menu::{ItemId, Menu, MenuItem, MenuItemOptions, NewMenuItem};
use tauri_sys::notification::Notification;
use tauri_sys::registry::CallbackRegistry;
use tauri_sys::value::Value;
use tauri_sys::window::{
    decode_drag_drop, DragDropEvent, DragDropKind, DragDropListen, DragDropPayload, Window,
    WindowListen,
};

#[test]
fn dpi_getters_and_kinds() {
    let s = LogicalSize::new(10, 20);
    assert_eq!((s.width(), s.height()), (10, 20));
    assert_eq!(LogicalSize::kind(), Kind::Logical);
    let p = PhysicalSize::new(30, 40);
    assert_eq!((p.width(), p.height()), (30, 40));
    assert_eq!(PhysicalSize::kind(), Kind::Physical);
    let q = LogicalPosition::new(-1, 2);
    assert_eq!((q.x(), q.y()), (-1, 2));
    assert_eq!(LogicalPosition::kind(), Kind::Logical);
    let r = PhysicalPosition::new(3, -4);
    assert_eq!((r.x(), r.y()), (3, -4));
    assert_eq!(PhysicalPosition::kind(), Kind::Physical);
}

#[test]
fn theme_names() {
    assert_eq!(Theme::Light.host_name(), Some("light"));
    assert_eq!(Theme::Dark.host_name(), Some("dark"));
    assert_eq!(Theme::System.host_name(), None);
}

#[test]
fn image_requests_and_size() {
    let img = Image::from_rid(5);
    assert_eq!(img.rid(), 5);
    let inv = img.rgba();
    assert_eq!(inv.command, "plugin:image|rgba");
    assert_eq!(inv.args.field("rid"), Some(&Value::Int(5)));
    assert_eq!(img.size().command, "plugin:image|size");
    let reply = ImageSize::new(64, 32).to_value();
    let size: ImageSize = complete_invoke(reply).unwrap();
    assert_eq!((size.width(), size.height()), (64, 32));
}

#[test]
fn default_window_icon_reply() {
    assert_eq!(default_window_icon().command, "plugin:app|default_window_icon");
    assert_eq!(default_window_icon_from(Value::Int(3)).unwrap().map(|i| i.rid()), Some(3));
    assert!(default_window_icon_from(Value::Null).unwrap().is_none());
    assert_eq!(
        default_window_icon_from(Value::string("x")).err(),
        Some(Error::Decoding(Value::string("x")))
    );
}

#[test]
fn file_dialog_options() {
    let mut b = FileDialogBuilder::new();
    b.set_title("Pick");
    b.set_default_path("/home");
    b.set_recursive(true);
    b.add_filter("Image", &vec!["png".to_string(), "jpeg".to_string()]);
    b.add_filters(&vec![("Video".to_string(), vec!["mp4".to_string()])]);
    let v = b.pick_folders();
    assert_eq!(v.field("title"), Some(&Value::string("Pick")));
    assert_eq!(v.field("default_path"), Some(&Value::string("/home")));
    assert_eq!(v.field("directory"), Some(&Value::Bool(true)));
    assert_eq!(v.field("multiple"), Some(&Value::Bool(true)));
    assert_eq!(v.field("recursive"), Some(&Value::Bool(true)));
    match v.field("filters") {
        Some(Value::Array(fs)) => {
            assert_eq!(fs.len(), 2);
            assert_eq!(fs[0].field("name"), Some(&Value::string("Image")));
            assert_eq!(fs[1].field("name"), Some(&Value::string("Video")));
        }
        other => panic!("filters: {:?}", other),
    }
    let plain = FileDialogBuilder::new().pick_file();
    assert_eq!(plain.field("title"), Some(&Value::Null));
    assert_eq!(plain.field("multiple"), Some(&Value::Bool(false)));
    assert_eq!(FileDialogBuilder::new().pick_files().field("multiple"), Some(&Value::Bool(true)));
    assert_eq!(FileDialogBuilder::new().pick_folder().field("directory"), Some(&Value::Bool(true)));
    assert_eq!(FileDialogBuilder::new().save().field("directory"), Some(&Value::Bool(false)));
}

#[test]
fn message_dialog_options() {
    let mut b = MessageDialogBuilder::new();
    assert_eq!(b.to_value().field("type"), Some(&Value::string("info")));
    b.set_title("Title");
    b.set_kind(MessageDialogKind::Error);
    let r = b.clone().ask("Sure?");
    assert_eq!(r.call, MessageCall::Ask);
    assert_eq!(r.message, "Sure?");
    assert_eq!(r.options.field("type"), Some(&Value::string("error")));
    assert_eq!(r.options.field("title"), Some(&Value::string("Title")));
    assert_eq!(b.clone().confirm("Ok?").call, MessageCall::Confirm);
    b.set_kind(MessageDialogKind::Warning);
    let m = b.message("Hi");
    assert_eq!(m.call, MessageCall::Message);
    assert_eq!(m.options.field("type"), Some(&Value::string("warning")));
}

#[test]
fn notification_options() {
    let mut n = Notification::new();
    assert_eq!(n.show().field("body"), Some(&Value::Null));
    n.set_title("T");
    n.set_body("B");
    n.set_icon("I");
    let v = n.show();
    assert_eq!(v.field("title"), Some(&Value::string("T")));
    assert_eq!(v.field("body"), Some(&Value::string("B")));
    assert_eq!(v.field("icon"), Some(&Value::string("I")));
}

#[test]
fn item_id_names() {
    assert_eq!(ItemId::MenuItem.as_str(), "MenuItem");
    assert_eq!(ItemId::Predefined.as_str(), "Predefined");
    assert_eq!(ItemId::Check.as_str(), "Check");
    assert_eq!(ItemId::Icon.as_str(), "Icon");
    assert_eq!(ItemId::Submenu.as_str(), "Submenu");
    assert_eq!(ItemId::Menu.as_str(), "Menu");
    assert_eq!(Menu::kind(), "Menu");
    assert_eq!(MenuItem::kind(), "MenuItem");
}

#[test]
fn menu_item_options_encoding() {
    let mut o = MenuItemOptions::new("Quit");
    o.set_id("quit");
    o.set_enabled(false);
    o.set_accelerator("Ctrl+Q");
    o.set_handler_channel_id(7);
    let v = o.to_value();
    assert_eq!(v.field("text"), Some(&Value::string("Quit")));
    assert_eq!(v.field("id"), Some(&Value::string("quit")));
    assert_eq!(v.field("enabled"), Some(&Value::Bool(false)));
    assert_eq!(v.field("accelerator"), Some(&Value::string("Ctrl+Q")));
    assert_eq!(v.field("handler"), Some(&Value::string("__CHANNEL__:7")));
}

#[test]
fn menu_creation_allocates_a_channel_per_item() {
    let mut reg = CallbackRegistry::new();
    let items = vec![
        NewMenuItem::MenuItemsOptions(MenuItemOptions::new("A")),
        NewMenuItem::MenuItemsOptions(MenuItemOptions::new("B")),
    ];
    let p = Menu::with_id_and_items("m", items, &mut reg).unwrap();
    assert_eq!(p.invocation.command, "plugin:menu|new");
    assert_eq!(p.channel.id(), 0);
    assert_eq!(p.item_channels.len(), 2);
    assert_eq!(p.item_channels[0].as_ref().unwrap().id(), 1);
    assert_eq!(p.item_channels[1].as_ref().unwrap().id(), 2);
    let args = &p.invocation.args;
    assert_eq!(args.field("kind"), Some(&Value::string("Menu")));
    assert_eq!(args.field("handler"), Some(&Value::string("__CHANNEL__:0")));
    let options = args.field("options").unwrap();
    assert_eq!(options.field("id"), Some(&Value::string("m")));
    match options.field("items") {
        Some(Value::Array(xs)) => {
            assert_eq!(xs[0].field("handler"), Some(&Value::string("__CHANNEL__:1")));
            assert_eq!(xs[1].field("text"), Some(&Value::string("B")));
            assert_eq!(xs[1].field("handler"), Some(&Value::string("__CHANNEL__:2")));
        }
        other => panic!("items: {:?}", other),
    }
    let reply = Value::Array(vec![Value::Int(11), Value::string("m")]);
    let (mut menu, chans) = p.finish(reply).unwrap();
    assert_eq!(menu.rid(), 11);
    assert_eq!(chans.len(), 2);
    assert!(menu.listen().is_some());
    assert!(reg.is_registered(2));
}

#[test]
fn menu_requests() {
    let mut reg = CallbackRegistry::new();
    let p = Menu::with_id("x", &mut reg).unwrap();
    let menu = p.finish(Value::Array(vec![Value::Int(1), Value::string("x")])).unwrap().0;
    let pi = MenuItem::with_id("Open", "open", &mut reg).unwrap();
    assert_eq!(pi.invocation.args.field("kind"), Some(&Value::string("MenuItem")));
    assert_eq!(pi.invocation.args.field("handler"), Some(&Value::string("__CHANNEL__:1")));
    let mut item = pi.finish(Value::Array(vec![Value::Int(2), Value::string("open")])).unwrap();
    assert_eq!(item.rid(), 2);
    assert_eq!(item.listen().id(), 1);
    let app = menu.append_item(&item);
    assert_eq!(app.command, "plugin:menu|append");
    assert_eq!(
        app.args.field("items"),
        Some(&Value::Array(vec![Value::Array(vec![Value::Int(2), Value::string("MenuItem")])]))
    );
    let pop = menu.popup();
    assert_eq!(pop.command, "plugin:menu|popup");
    assert_eq!(pop.args.field("window"), Some(&Value::Null));
    assert_eq!(Menu::default().command, "plugin:menu|create_default");
    let mut d = Menu::from_default_reply(Value::Array(vec![Value::Int(4), Value::string("d")])).unwrap();
    assert_eq!(d.rid(), 4);
    assert!(d.listen().is_none());
    assert!(Menu::from_default_reply(Value::Int(4)).is_err());
    let items = vec![NewMenuItem::MenuItemsOptions(MenuItemOptions::new("C"))];
    assert_eq!(Menu::with_items(items, &mut reg).unwrap().item_channels.len(), 1);
}

fn two_windows() -> Value {
    Value::Array(vec![
        Value::Object(vec![("label".to_string(), Value::string("a"))]),
        Value::Object(vec![("label".to_string(), Value::string("b"))]),
    ])
}

#[test]
fn window_lookup() {
    let w = Window::new("main");
    assert_eq!(w.label(), "main");
    let one = Value::Object(vec![("label".to_string(), Value::string("a"))]);
    assert_eq!(Window::get_current(one).unwrap().label(), "a");
    assert_eq!(Window::get_current(Value::Null).err(), Some(Error::Decoding(Value::Null)));
    let bad = Value::Array(vec![Value::Int(1)]);
    assert_eq!(Window::get_all(bad).err(), Some(Error::Decoding(Value::Int(1))));
    assert_eq!(Window::get_all(Value::Bool(true)).err(), Some(Error::Decoding(Value::Bool(true))));
    let ws = Window::get_all(two_windows()).unwrap();
    assert_eq!(ws.len(), 2);
    assert_eq!(Window::get_by_label(ws, "b").unwrap().label(), "b");
    let ws = Window::get_all(two_windows()).unwrap();
    assert!(Window::get_by_label(ws, "c").is_none());
}

#[test]
fn window_local_events_stay_local() {
    let mut w = Window::new("main");
    let h = match w.listen("tauri://created") {
        WindowListen::Local(h) => h,
        WindowListen::Remote(_) => panic!("expected a local listener"),
    };
    assert_eq!(w.next_local(h), Next::Pending);
    assert!(w.emit("tauri://created", &"hello".to_string()).is_none());
    assert!(w.emit("tauri://error", &"other".to_string()).is_none());
    match w.next_local(h) {
        Next::Item(e) => {
            assert_eq!(e.event, "tauri://created");
            assert_eq!(e.id, -1);
            assert_eq!(e.payload, Value::string("hello"));
        }
        other => panic!("{:?}", other),
    }
    assert_eq!(w.next_local(h), Next::Pending);
    assert_eq!(w.next_local(h + 1), Next::Finished);
}

#[test]
fn window_remote_events_go_to_host() {
    let mut w = Window::new("main");
    match w.listen("custom") {
        WindowListen::Remote(req) => {
            assert_eq!(req.event, "custom");
            let t = EventTarget::from_value(req.options.field("target").unwrap());
            assert_eq!(t, Some(EventTarget::Window("main".to_string())));
        }
        WindowListen::Local(_) => panic!("expected a remote listener"),
    }
    let r = w.emit("custom", &5u64).unwrap();
    assert!(r.target.is_none());
    assert_eq!(r.payload, Value::Int(5));
    let r = w.emit_to(&EventTarget::App, "custom", &5u64).unwrap();
    assert_eq!(r.target.unwrap().field("kind"), Some(&Value::string("App")));
}

#[test]
fn drag_and_drop_registrations_and_events() {
    let w = Window::new("main");
    let reqs = w.on_drag_drop_event();
    assert_eq!(reqs.enter.event, DRAG_ENTER);
    assert_eq!(reqs.drop.event, DRAG_DROP);
    let mut l = DragDropListen::accept(Ok(1), Ok(2), Ok(3), Ok(4)).unwrap();
    let payload = DragDropPayload::new(vec!["/f".to_string()], PhysicalPosition::new(1, 2));
    let raw = Event { event: DRAG_DROP.to_string(), id: 8, payload: payload.clone() }.to_value();
    assert!(l.receive(DragDropKind::Drop, &raw));
    let leave = Event { event: "x".to_string(), id: 9, payload: true }.to_value();
    assert!(l.receive(DragDropKind::Leave, &leave));
    assert!(!l.receive(DragDropKind::Over, &Value::Null));
    match l.next() {
        Next::Item(e) => assert_eq!(e.payload, DragDropEvent::Drop(payload)),
        other => panic!("{:?}", other),
    }
    match l.next() {
        Next::Item(e) => assert_eq!(e.payload, DragDropEvent::Leave),
        other => panic!("{:?}", other),
    }
    let tokens: Vec<u64> = l.close().iter().map(|u| u.token).collect();
    assert_eq!(tokens, vec![1, 2, 3, 4]);
    assert!(decode_drag_drop(DragDropKind::Enter, &Value::Null).is_none());
}

#[test]
fn drag_and_drop_partial_registration_is_undone() {
    let r = DragDropListen::accept(Ok(1), Err(Value::string("no")), Ok(3), Err(Value::Int(0)));
    let (err, undo) = r.err().unwrap();
    assert_eq!(err, Error::Registration(Value::string("no")));
    let tokens: Vec<u64> = undo.iter().map(|u| u.token).collect();
    assert_eq!(tokens, vec![1, 3]);
}
