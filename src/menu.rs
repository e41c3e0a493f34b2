//! Menus and menu items: the host creates them, and each reports clicks
//! through a channel of its own.
use crate::channel::{Channel, ChannelModel, channel_token};
use crate::codec::{Codec, opt_encodes, option_to_value};
use crate::error::Error;
use crate::gateway::{Invocation, invoke};
use crate::registry::CallbackRegistry;
use crate::value::{Value, field_of, push_field, str_of, text};
use vstd::prelude::*;

verus! {

pub type Rid = usize;

/// The id the application gives a menu or menu item.
#[derive(Clone, Debug, PartialEq)]
pub struct MenuId(pub String);

impl MenuId {
    pub fn new(id: &str) -> (r: MenuId)
        ensures
            r.0@ == id@,
    {
        MenuId(text(id))
    }
}

/// The kinds of menu item the host knows.
#[derive(Clone, Copy, Debug, PartialEq, Eq, Structural)]
pub enum ItemId {
    MenuItem,
    Predefined,
    Check,
    Icon,
    Submenu,
    Menu,
}

/// The name under which the host knows a kind of item.
pub open spec fn item_id_name(i: ItemId) -> Seq<char> {
    match i {
        ItemId::MenuItem => "MenuItem"@,
        ItemId::Predefined => "Predefined"@,
        ItemId::Check => "Check"@,
        ItemId::Icon => "Icon"@,
        ItemId::Submenu => "Submenu"@,
        ItemId::Menu => "Menu"@,
    }
}

impl ItemId {
    pub fn as_str(&self) -> (r: &'static str)
        ensures
            r@ == item_id_name(*self),
    {
        match self {
            ItemId::MenuItem => "MenuItem",
            ItemId::Predefined => "Predefined",
            ItemId::Check => "Check",
            ItemId::Icon => "Icon",
            ItemId::Submenu => "Submenu",
            ItemId::Menu => "Menu",
        }
    }
}

/// The id of a channel, as a command's arguments name it.
pub struct ChannelId {
    id: usize,
}

impl View for ChannelId {
    type V = usize;

    closed spec fn view(&self) -> usize {
        self.id
    }
}

impl ChannelId {
    pub fn from<T: DeepView>(channel: &Channel<T>) -> (r: ChannelId)
        ensures
            r@ == channel.deep_view().id,
    {
        ChannelId { id: channel.id() }
    }

    /// The routing token that stands for the channel in a command's arguments.
    pub fn to_value(&self) -> (v: Value)
        ensures
            str_of(v) == Some(channel_token(self@)),
    {
        Value::Str(crate::channel::token_for(self.id))
    }
}

/// The options of a new menu item.
pub struct MenuItemOptions {
    id: Option<MenuId>,
    text: String,
    enabled: Option<bool>,
    accelerator: Option<String>,
    handler_channel_id: Option<usize>,
}

pub struct MenuItemOptionsModel {
    pub id: Option<Seq<char>>,
    pub text: Seq<char>,
    pub enabled: Option<bool>,
    pub accelerator: Option<Seq<char>>,
    pub handler_channel_id: Option<usize>,
}

impl DeepView for MenuItemOptions {
    type V = MenuItemOptionsModel;

    closed spec fn deep_view(&self) -> MenuItemOptionsModel {
        MenuItemOptionsModel {
            id: match self.id {
                Some(i) => Some(i.0@),
                None => None,
            },
            text: self.text@,
            enabled: self.enabled,
            accelerator: self.accelerator.deep_view(),
            handler_channel_id: self.handler_channel_id,
        }
    }
}

/// `v` encodes an optional channel id as its routing token, or null.
pub open spec fn handler_encodes(h: Option<usize>, v: Value) -> bool {
    match h {
        Some(id) => str_of(v) == Some(channel_token(id)),
        None => v is Null,
    }
}

/// `v` is the encoding of the menu item options `m`.
pub open spec fn item_options_encode(m: MenuItemOptionsModel, v: Value) -> bool {
    &&& v is Object
    &&& (field_of(v, "id"@) matches Some(f) && opt_encodes::<String>(m.id, f))
    &&& (field_of(v, "text"@) matches Some(f) && str_of(f) == Some(m.text))
    &&& (field_of(v, "enabled"@) matches Some(f) && opt_encodes::<bool>(m.enabled, f))
    &&& (field_of(v, "accelerator"@) matches Some(f) && opt_encodes::<String>(m.accelerator, f))
    &&& (field_of(v, "handler"@) matches Some(f) && handler_encodes(m.handler_channel_id, f))
}

proof fn lemma_item_keys()
    ensures
        "id"@ != "text"@,
        "id"@ != "enabled"@,
        "id"@ != "accelerator"@,
        "id"@ != "handler"@,
        "text"@ != "enabled"@,
        "text"@ != "accelerator"@,
        "text"@ != "handler"@,
        "enabled"@ != "accelerator"@,
        "enabled"@ != "handler"@,
        "accelerator"@ != "handler"@,
{
    reveal_strlit("id");
    reveal_strlit("text");
    reveal_strlit("enabled");
    reveal_strlit("accelerator");
    reveal_strlit("handler");
    assert("id"@.len() == 2 && "text"@.len() == 4 && "enabled"@.len() == 7);
    assert("accelerator"@.len() == 11 && "handler"@.len() == 7);
    assert("enabled"@[0] != "handler"@[0]);
}

impl MenuItemOptions {
    /// Options with the item's text and nothing else set.
    pub fn new(text: &str) -> (r: MenuItemOptions)
        ensures
            r.deep_view() == (MenuItemOptionsModel {
                id: None,
                text: text@,
                enabled: None,
                accelerator: None,
                handler_channel_id: None,
            }),
    {
        MenuItemOptions {
            id: None,
            text: crate::value::text(text),
            enabled: None,
            accelerator: None,
            handler_channel_id: None,
        }
    }

    pub fn set_id(&mut self, id: &str)
        ensures
            final(self).deep_view() == (MenuItemOptionsModel {
                id: Some(id@),
                ..old(self).deep_view()
            }),
    {
        self.id = Some(MenuId::new(id));
    }

    pub fn set_enabled(&mut self, enabled: bool)
        ensures
            final(self).deep_view() == (MenuItemOptionsModel {
                enabled: Some(enabled),
                ..old(self).deep_view()
            }),
    {
        self.enabled = Some(enabled);
    }

    pub fn set_accelerator(&mut self, accelerator: &str)
        ensures
            final(self).deep_view() == (MenuItemOptionsModel {
                accelerator: Some(accelerator@),
                ..old(self).deep_view()
            }),
    {
        self.accelerator = Some(text(accelerator));
    }

    /// Sets the id of the channel that reports the item's clicks.
    pub fn set_handler_channel_id(&mut self, id: usize)
        ensures
            final(self).deep_view() == (MenuItemOptionsModel {
                handler_channel_id: Some(id),
                ..old(self).deep_view()
            }),
    {
        self.handler_channel_id = Some(id);
    }

    /// The encoded options.
    pub fn to_value(&self) -> (v: Value)
        ensures
            item_options_encode(self.deep_view(), v),
    {
        proof {
            lemma_item_keys();
        }
        let id = match &self.id {
            Some(i) => Value::Str(i.0.clone()),
            None => Value::Null,
        };
        let handler = match self.handler_channel_id {
            Some(h) => Value::Str(crate::channel::token_for(h)),
            None => Value::Null,
        };
        let mut fields: Vec<(String, Value)> = Vec::new();
        push_field(&mut fields, "id", id);
        push_field(&mut fields, "text", self.text.to_value());
        push_field(&mut fields, "enabled", option_to_value(&self.enabled));
        push_field(&mut fields, "accelerator", option_to_value(&self.accelerator));
        push_field(&mut fields, "handler", handler);
        Value::Object(fields)
    }
}

/// An item to create together with a new menu.
pub enum NewMenuItem {
    MenuItemsOptions(MenuItemOptions),
}

impl DeepView for NewMenuItem {
    type V = MenuItemOptionsModel;

    open spec fn deep_view(&self) -> MenuItemOptionsModel {
        match self {
            NewMenuItem::MenuItemsOptions(o) => o.deep_view(),
        }
    }
}

/// `v` is an array of pairs `[rid, id]`: the reply to a creation request.
pub open spec fn rid_and_id_decoded(v: Value) -> Option<(usize, Seq<char>)> {
    match v {
        Value::Array(items) => if items@.len() == 2 {
            match (usize::decoded(items@[0]), str_of(items@[1])) {
                (Some(rid), Some(id)) => Some((rid, id)),
                _ => None,
            }
        } else {
            None
        },
        _ => None,
    }
}

fn rid_and_id(v: &Value) -> (r: Option<(usize, String)>)
    ensures
        r matches Some(p) ==> rid_and_id_decoded(*v) == Some((p.0, p.1@)),
        r is None <==> rid_and_id_decoded(*v) is None,
{
    match v {
        Value::Array(items) => {
            if items.len() != 2 {
                return None;
            }
            match (usize::from_value(&items[0]), String::from_value(&items[1])) {
                (Some(rid), Some(id)) => Some((rid, id)),
                _ => None,
            }
        },
        _ => None,
    }
}

/// The arguments `{ kind, options, handler }` of a creation request.
pub open spec fn creation_args(kind: Seq<char>, handler: usize, v: Value) -> bool {
    &&& v is Object
    &&& (field_of(v, "kind"@) matches Some(f) && str_of(f) == Some(kind))
    &&& (field_of(v, "handler"@) matches Some(f) && str_of(f) == Some(channel_token(handler)))
}

/// The options `{ id, items }` of a new menu whose items have the options
/// `items`.
pub open spec fn menu_options_encode(
    id: Option<Seq<char>>,
    items: Seq<MenuItemOptionsModel>,
    v: Value,
) -> bool {
    &&& v is Object
    &&& (field_of(v, "id"@) matches Some(f) && opt_encodes::<String>(id, f))
    &&& (field_of(v, "items"@) matches Some(f) && (f matches Value::Array(xs) && xs@.len()
        == items.len() && forall|i: int|
        0 <= i < items.len() ==> item_options_encode(#[trigger] items[i], xs@[i])))
}

proof fn lemma_creation_keys()
    ensures
        "kind"@ != "options"@,
        "kind"@ != "handler"@,
        "options"@ != "handler"@,
        "id"@ != "items"@,
        "rid"@ != "kind"@,
        "rid"@ != "items"@,
        "kind"@ != "items"@,
        "rid"@ != "window"@,
        "rid"@ != "at"@,
        "kind"@ != "window"@,
        "kind"@ != "at"@,
        "window"@ != "at"@,
{
    reveal_strlit("kind");
    reveal_strlit("options");
    reveal_strlit("handler");
    reveal_strlit("id");
    reveal_strlit("items");
    reveal_strlit("rid");
    reveal_strlit("window");
    reveal_strlit("at");
    assert("kind"@.len() == 4 && "options"@.len() == 7 && "handler"@.len() == 7);
    assert("options"@[0] != "handler"@[0]);
    assert("id"@.len() == 2 && "items"@.len() == 5 && "rid"@.len() == 3);
    assert("window"@.len() == 6 && "at"@.len() == 2);
}

/// The arguments `{ kind, options, handler }` of a creation request.
fn creation_value(kind: &str, options: Value, handler: &ChannelId) -> (v: Value)
    ensures
        creation_args(kind@, handler@, v),
        field_of(v, "options"@) == Some(options),
{
    proof {
        lemma_creation_keys();
    }
    let mut fields: Vec<(String, Value)> = Vec::new();
    push_field(&mut fields, "kind", Value::string(kind));
    push_field(&mut fields, "options", options);
    push_field(&mut fields, "handler", handler.to_value());
    Value::Object(fields)
}

/// A menu held by the host.
pub struct Menu {
    rid: Rid,
    id: MenuId,
    channel: Option<Channel<String>>,
}

pub struct MenuModel {
    pub rid: Rid,
    pub id: Seq<char>,
    pub channel: Option<ChannelModel<Seq<char>>>,
}

impl DeepView for Menu {
    type V = MenuModel;

    closed spec fn deep_view(&self) -> MenuModel {
        MenuModel { rid: self.rid, id: self.id.0@, channel: self.channel.deep_view() }
    }
}

/// A menu whose creation request is ready to send: the request, the menu's
/// own channel, and a channel for each item, in order.
pub struct PendingMenu {
    pub invocation: Invocation,
    pub channel: Channel<String>,
    pub item_channels: Vec<Option<Channel<String>>>,
}

/// A fresh channel: the given id, nothing queued, not ended.
pub open spec fn fresh_channel(c: ChannelModel<Seq<char>>, id: int) -> bool {
    c == ChannelModel::<Seq<char>> { id: id as usize, pending: Seq::empty(), ended: false }
}

impl Menu {
    /// The creation request of a menu with id `id` and items `items`: the
    /// menu's channel takes the registry's next id and the items' channels the
    /// ids after it, and each item reports through its own channel. `None`
    /// when the registry runs out of ids.
    fn new(id: Option<MenuId>, items: Vec<NewMenuItem>, registry: &mut CallbackRegistry) -> (r:
        Option<PendingMenu>)
        requires
            old(registry).wf(),
        ensures
            final(registry).wf(),
            r is Some <==> old(registry)@.next + items@.len() < usize::MAX,
            r matches Some(p) ==> {
                let base = old(registry)@.next;
                &&& fresh_channel(p.channel.deep_view(), base as int)
                &&& p.item_channels@.len() == items@.len()
                &&& forall|i: int|
                    0 <= i < items@.len() ==> (#[trigger] p.item_channels@[i] matches Some(c)
                        && fresh_channel(c.deep_view(), base + 1 + i))
                &&& p.invocation.command@ == "plugin:menu|new"@
                &&& creation_args("Menu"@, base as usize, p.invocation.args)
                &&& (field_of(p.invocation.args, "options"@) matches Some(o) && menu_options_encode(
                    match id {
                        Some(i) => Some(i.0@),
                        None => None,
                    },
                    Seq::new(
                        items@.len(),
                        |i: int|
                            MenuItemOptionsModel {
                                handler_channel_id: Some((base + 1 + i) as usize),
                                ..items@[i].deep_view()
                            },
                    ),
                    o,
                ))
            },
    {
        let ghost base = registry@.next;
        let channel = match Channel::<String>::new(registry) {
            Some(c) => c,
            None => {
                return None;
            },
        };
        let ghost want = Seq::new(
            items@.len(),
            |i: int|
                MenuItemOptionsModel {
                    handler_channel_id: Some((base + 1 + i) as usize),
                    ..items@[i].deep_view()
                },
        );
        let mut item_channels: Vec<Option<Channel<String>>> = Vec::new();
        let mut encoded: Vec<Value> = Vec::new();
        let mut rest = items;
        let ghost all = rest@;
        let mut i: usize = 0;
        while rest.len() > 0
            invariant
                registry.wf(),
                registry@.next == base + 1 + i,
                registry@.next <= usize::MAX,
                base == old(registry)@.next,
                rest@ == all.subrange(i as int, all.len() as int),
                all.len() == items@.len(),
                0 <= i <= all.len(),
                item_channels@.len() == i,
                encoded@.len() == i,
                want.len() == all.len(),
                forall|k: int|
                    0 <= k < i ==> (#[trigger] item_channels@[k] matches Some(c) && fresh_channel(
                        c.deep_view(),
                        base + 1 + k,
                    )),
                forall|k: int| 0 <= k < i ==> item_options_encode(#[trigger] want[k], encoded@[k]),
                forall|k: int|
                    0 <= k < all.len() ==> #[trigger] want[k] == (MenuItemOptionsModel {
                        handler_channel_id: Some((base + 1 + k) as usize),
                        ..all[k].deep_view()
                    }),
            decreases rest.len(),
        {
            let item = rest.remove(0);
            proof {
                assert(item.deep_view() == all[i as int].deep_view());
            }
            let c = match Channel::<String>::new(registry) {
                Some(c) => c,
                None => {
                    return None;
                },
            };
            match item {
                NewMenuItem::MenuItemsOptions(mut o) => {
                    o.set_handler_channel_id(c.id());
                    let v = o.to_value();
                    encoded.push(v);
                },
            }
            item_channels.push(Some(c));
            i = i + 1;
            proof {
                assert(rest@ =~= all.subrange(i as int, all.len() as int));
            }
        }
        proof {
            lemma_creation_keys();
        }
        let mut options: Vec<(String, Value)> = Vec::new();
        push_field(
            &mut options,
            "id",
            match &id {
                Some(m) => Value::Str(m.0.clone()),
                None => Value::Null,
            },
        );
        push_field(&mut options, "items", Value::Array(encoded));
        let handler = ChannelId::from(&channel);
        let args = creation_value(ItemId::Menu.as_str(), Value::Object(options), &handler);
        proof {
            reveal_strlit("Menu");
        }
        Some(PendingMenu { invocation: invoke("plugin:menu|new", args), channel, item_channels })
    }

    /// The creation request of an empty menu with id `id`.
    pub fn with_id(id: &str, registry: &mut CallbackRegistry) -> (r: Option<PendingMenu>)
        requires
            old(registry).wf(),
        ensures
            final(registry).wf(),
            r is Some <==> old(registry)@.next < usize::MAX,
            r matches Some(p) ==> fresh_channel(p.channel.deep_view(), old(registry)@.next as int)
                && p.item_channels@.len() == 0 && p.invocation.command@ == "plugin:menu|new"@
                && creation_args("Menu"@, old(registry)@.next as usize, p.invocation.args),
    {
        Self::new(Some(MenuId::new(id)), Vec::new(), registry)
    }

    /// The creation request of a menu with the items `items`.
    pub fn with_items(items: Vec<NewMenuItem>, registry: &mut CallbackRegistry) -> (r: Option<
        PendingMenu,
    >)
        requires
            old(registry).wf(),
        ensures
            final(registry).wf(),
            r is Some <==> old(registry)@.next + items@.len() < usize::MAX,
            r matches Some(p) ==> fresh_channel(p.channel.deep_view(), old(registry)@.next as int)
                && p.item_channels@.len() == items@.len() && forall|i: int|
                0 <= i < items@.len() ==> (#[trigger] p.item_channels@[i] matches Some(c)
                    && fresh_channel(c.deep_view(), old(registry)@.next + 1 + i)),
    {
        Self::new(None, items, registry)
    }

    /// The creation request of a menu with id `id` and the items `items`.
    pub fn with_id_and_items(
        id: &str,
        items: Vec<NewMenuItem>,
        registry: &mut CallbackRegistry,
    ) -> (r: Option<PendingMenu>)
        requires
            old(registry).wf(),
        ensures
            final(registry).wf(),
            r is Some <==> old(registry)@.next + items@.len() < usize::MAX,
            r matches Some(p) ==> fresh_channel(p.channel.deep_view(), old(registry)@.next as int)
                && p.item_channels@.len() == items@.len() && forall|i: int|
                0 <= i < items@.len() ==> (#[trigger] p.item_channels@[i] matches Some(c)
                    && fresh_channel(c.deep_view(), old(registry)@.next + 1 + i)),
    {
        Self::new(Some(MenuId::new(id)), items, registry)
    }

    /// The request that creates the host's default menu.
    pub fn default() -> (r: Invocation)
        ensures
            r.command@ == "plugin:menu|create_default"@,
            r.args is Null,
    {
        invoke("plugin:menu|create_default", Value::Null)
    }

    /// The default menu, from the host's reply `[rid, id]`; it has no channel.
    pub fn from_default_reply(reply: Value) -> (r: Result<Menu, Error>)
        ensures
            rid_and_id_decoded(reply) matches Some(p) ==> (r matches Ok(m) && m.deep_view() == (
            MenuModel { rid: p.0, id: p.1, channel: None })),
            rid_and_id_decoded(reply) is None ==> r == Err::<Menu, Error>(Error::Decoding(reply)),
    {
        match rid_and_id(&reply) {
            Some((rid, id)) => Ok(Menu { rid, id: MenuId(id), channel: None }),
            None => Err(Error::Decoding(reply)),
        }
    }

    pub fn rid(&self) -> (r: Rid)
        ensures
            r == self.deep_view().rid,
    {
        self.rid
    }

    pub fn kind() -> (r: &'static str)
        ensures
            r@ == "Menu"@,
    {
        proof {
            reveal_strlit("Menu");
        }
        ItemId::Menu.as_str()
    }

    /// The request that appends `item` to this menu.
    pub fn append_item(&self, item: &MenuItem) -> (r: Invocation)
        ensures
            r.command@ == "plugin:menu|append"@,
            r.args is Object,
            field_of(r.args, "rid"@) matches Some(f) && usize::encodes(self.deep_view().rid, f),
            field_of(r.args, "kind"@) matches Some(f) && str_of(f) == Some("Menu"@),
            field_of(r.args, "items"@) matches Some(f) && (f matches Value::Array(xs) && xs@.len()
                == 1 && (xs@[0] matches Value::Array(pair) && pair@.len() == 2 && usize::encodes(
                item.deep_view().rid,
                pair@[0],
            ) && str_of(pair@[1]) == Some("MenuItem"@))),
    {
        proof {
            lemma_creation_keys();
        }
        let mut pair: Vec<Value> = Vec::new();
        pair.push(item.rid().to_value());
        pair.push(Value::string(MenuItem::kind()));
        let mut list: Vec<Value> = Vec::new();
        list.push(Value::Array(pair));
        let mut fields: Vec<(String, Value)> = Vec::new();
        push_field(&mut fields, "rid", self.rid.to_value());
        push_field(&mut fields, "kind", Value::string(Self::kind()));
        push_field(&mut fields, "items", Value::Array(list));
        invoke("plugin:menu|append", Value::Object(fields))
    }

    /// The request that pops this menu up as a context menu on the current
    /// window, at the cursor.
    pub fn popup(&self) -> (r: Invocation)
        ensures
            r.command@ == "plugin:menu|popup"@,
            r.args is Object,
            field_of(r.args, "rid"@) matches Some(f) && usize::encodes(self.deep_view().rid, f),
            field_of(r.args, "kind"@) matches Some(f) && str_of(f) == Some("Menu"@),
            field_of(r.args, "window"@) == Some(Value::Null),
            field_of(r.args, "at"@) == Some(Value::Null),
    {
        proof {
            lemma_creation_keys();
        }
        let mut fields: Vec<(String, Value)> = Vec::new();
        push_field(&mut fields, "rid", self.rid.to_value());
        push_field(&mut fields, "kind", Value::string(Self::kind()));
        push_field(&mut fields, "window", Value::Null);
        push_field(&mut fields, "at", Value::Null);
        invoke("plugin:menu|popup", Value::Object(fields))
    }

    /// The channel that reports this menu's events, if it has one.
    pub fn listen(&mut self) -> (r: Option<&mut Channel<String>>)
        ensures
            r is Some == old(self).deep_view().channel is Some,
            r matches Some(c) ==> Some(c.deep_view()) == old(self).deep_view().channel,
    {
        match &mut self.channel {
            Some(c) => Some(c),
            None => None,
        }
    }
}

impl PendingMenu {
    /// The menu and its items' channels, from the host's reply `[rid, id]`.
    pub fn finish(self, reply: Value) -> (r: Result<(Menu, Vec<Option<Channel<String>>>), Error>)
        ensures
            rid_and_id_decoded(reply) matches Some(p) ==> (r matches Ok(m) && m.0.deep_view() == (
            MenuModel { rid: p.0, id: p.1, channel: Some(self.channel.deep_view()) })
                && m.1 == self.item_channels),
            rid_and_id_decoded(reply) is None ==> (r matches Err(e) && e == Error::Decoding(reply)),
    {
        match rid_and_id(&reply) {
            Some((rid, id)) => Ok(
                (Menu { rid, id: MenuId(id), channel: Some(self.channel) }, self.item_channels),
            ),
            None => Err(Error::Decoding(reply)),
        }
    }
}

/// A menu item held by the host.
pub struct MenuItem {
    rid: Rid,
    id: MenuId,
    channel: Channel<String>,
}

pub struct MenuItemModel {
    pub rid: Rid,
    pub id: Seq<char>,
    pub channel: ChannelModel<Seq<char>>,
}

impl DeepView for MenuItem {
    type V = MenuItemModel;

    closed spec fn deep_view(&self) -> MenuItemModel {
        MenuItemModel { rid: self.rid, id: self.id.0@, channel: self.channel.deep_view() }
    }
}

/// A menu item whose creation request is ready to send, with its channel.
pub struct PendingMenuItem {
    pub invocation: Invocation,
    pub channel: Channel<String>,
}

impl MenuItem {
    /// The creation request of an item with text `text` and id `id`.
    pub fn with_id(text: &str, id: &str, registry: &mut CallbackRegistry) -> (r: Option<
        PendingMenuItem,
    >)
        requires
            old(registry).wf(),
        ensures
            final(registry).wf(),
            r is Some <==> old(registry)@.next < usize::MAX,
            r matches Some(p) ==> fresh_channel(p.channel.deep_view(), old(registry)@.next as int)
                && p.invocation.command@ == "plugin:menu|new"@ && creation_args(
                "MenuItem"@,
                old(registry)@.next as usize,
                p.invocation.args,
            ) && (field_of(p.invocation.args, "options"@) matches Some(o) && item_options_encode(
                MenuItemOptionsModel {
                    id: Some(id@),
                    text: text@,
                    enabled: None,
                    accelerator: None,
                    handler_channel_id: None,
                },
                o,
            )),
    {
        let mut options = MenuItemOptions::new(text);
        options.set_id(id);
        Self::with_options(options, registry)
    }

    /// The creation request of an item with the options `options`.
    pub fn with_options(options: MenuItemOptions, registry: &mut CallbackRegistry) -> (r: Option<
        PendingMenuItem,
    >)
        requires
            old(registry).wf(),
        ensures
            final(registry).wf(),
            r is Some <==> old(registry)@.next < usize::MAX,
            r matches Some(p) ==> fresh_channel(p.channel.deep_view(), old(registry)@.next as int)
                && p.invocation.command@ == "plugin:menu|new"@ && creation_args(
                "MenuItem"@,
                old(registry)@.next as usize,
                p.invocation.args,
            ) && (field_of(p.invocation.args, "options"@) matches Some(o) && item_options_encode(
                options.deep_view(),
                o,
            )),
    {
        let channel = match Channel::<String>::new(registry) {
            Some(c) => c,
            None => {
                return None;
            },
        };
        let handler = ChannelId::from(&channel);
        let args = creation_value(ItemId::MenuItem.as_str(), options.to_value(), &handler);
        proof {
            reveal_strlit("MenuItem");
        }
        Some(PendingMenuItem { invocation: invoke("plugin:menu|new", args), channel })
    }

    pub fn rid(&self) -> (r: Rid)
        ensures
            r == self.deep_view().rid,
    {
        self.rid
    }

    pub fn kind() -> (r: &'static str)
        ensures
            r@ == "MenuItem"@,
    {
        proof {
            reveal_strlit("MenuItem");
        }
        ItemId::MenuItem.as_str()
    }

    /// The channel that reports this item's clicks.
    pub fn listen(&mut self) -> (r: &mut Channel<String>)
        ensures
            r.deep_view() == old(self).deep_view().channel,
    {
        &mut self.channel
    }
}

impl PendingMenuItem {
    /// The menu item, from the host's reply `[rid, id]`.
    pub fn finish(self, reply: Value) -> (r: Result<MenuItem, Error>)
        ensures
            rid_and_id_decoded(reply) matches Some(p) ==> (r matches Ok(m) && m.deep_view() == (
            MenuItemModel { rid: p.0, id: p.1, channel: self.channel.deep_view() })),
            rid_and_id_decoded(reply) is None ==> r == Err::<MenuItem, Error>(Error::Decoding(reply)),
    {
        match rid_and_id(&reply) {
            Some((rid, id)) => Ok(MenuItem { rid, id: MenuId(id), channel: self.channel }),
            None => Err(Error::Decoding(reply)),
        }
    }
}

} // verus!
