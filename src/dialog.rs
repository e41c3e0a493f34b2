//! File and message dialogs: builders and the options the host receives.
use crate::codec::{Codec, opt_encodes, option_to_value};
use crate::value::{Value, field_of, push_field, str_of, text};
use vstd::prelude::*;

verus! {

/// A named file-extension filter.
pub struct DialogFilter {
    extensions: Vec<String>,
    name: String,
}

pub struct FilterModel {
    pub extensions: Seq<Seq<char>>,
    pub name: Seq<char>,
}

impl DeepView for DialogFilter {
    type V = FilterModel;

    closed spec fn deep_view(&self) -> FilterModel {
        FilterModel { extensions: self.extensions.deep_view(), name: self.name@ }
    }
}

impl DialogFilter {
    pub fn new(name: &str, extensions: &Vec<String>) -> (r: DialogFilter)
        ensures
            r.deep_view() == (FilterModel { extensions: extensions.deep_view(), name: name@ }),
    {
        DialogFilter { extensions: extensions.clone(), name: text(name) }
    }
}

impl Codec for DialogFilter {
    open spec fn encodes(m: FilterModel, v: Value) -> bool {
        &&& v is Object
        &&& (field_of(v, "extensions"@) matches Some(f) && Vec::<String>::encodes(m.extensions, f))
        &&& (field_of(v, "name"@) matches Some(f) && str_of(f) == Some(m.name))
    }

    open spec fn decoded(v: Value) -> Option<FilterModel> {
        match (field_of(v, "extensions"@), field_of(v, "name"@)) {
            (Some(e), Some(n)) => match (Vec::<String>::decoded(e), str_of(n)) {
                (Some(extensions), Some(name)) => Some(FilterModel { extensions, name }),
                _ => None,
            },
            _ => None,
        }
    }

    fn to_value(&self) -> (v: Value) {
        proof {
            reveal_strlit("extensions");
            reveal_strlit("name");
            assert("extensions"@.len() == 10 && "name"@.len() == 4);
        }
        let mut fields: Vec<(String, Value)> = Vec::new();
        push_field(&mut fields, "extensions", self.extensions.to_value());
        push_field(&mut fields, "name", self.name.to_value());
        Value::Object(fields)
    }

    fn from_value(v: &Value) -> (r: Option<DialogFilter>) {
        let e = match v.field("extensions") {
            Some(f) => f,
            None => {
                return None;
            },
        };
        let n = match v.field("name") {
            Some(f) => f,
            None => {
                return None;
            },
        };
        match (Vec::<String>::from_value(e), String::from_value(n)) {
            (Some(extensions), Some(name)) => Some(DialogFilter { extensions, name }),
            _ => None,
        }
    }

    proof fn lemma_round_trip(m: FilterModel, v: Value) {
        Vec::<String>::lemma_round_trip(m.extensions, field_of(v, "extensions"@)->0);
    }
}

/// The file dialog builder: picks one or several files or directories, or a
/// path to save to.
pub struct FileDialogBuilder {
    default_path: Option<String>,
    filters: Vec<DialogFilter>,
    title: Option<String>,
    directory: bool,
    multiple: bool,
    recursive: bool,
}

pub struct FileDialogModel {
    pub default_path: Option<Seq<char>>,
    pub filters: Seq<FilterModel>,
    pub title: Option<Seq<char>>,
    pub directory: bool,
    pub multiple: bool,
    pub recursive: bool,
}

impl DeepView for FileDialogBuilder {
    type V = FileDialogModel;

    closed spec fn deep_view(&self) -> FileDialogModel {
        FileDialogModel {
            default_path: self.default_path.deep_view(),
            filters: self.filters.deep_view(),
            title: self.title.deep_view(),
            directory: self.directory,
            multiple: self.multiple,
            recursive: self.recursive,
        }
    }
}

/// `v` is the encoding of the file dialog options `m`.
pub open spec fn file_dialog_encodes(m: FileDialogModel, v: Value) -> bool {
    &&& v is Object
    &&& (field_of(v, "default_path"@) matches Some(f) && opt_encodes::<String>(m.default_path, f))
    &&& (field_of(v, "filters"@) matches Some(f) && Vec::<DialogFilter>::encodes(m.filters, f))
    &&& (field_of(v, "title"@) matches Some(f) && opt_encodes::<String>(m.title, f))
    &&& (field_of(v, "directory"@) matches Some(f) && bool::encodes(m.directory, f))
    &&& (field_of(v, "multiple"@) matches Some(f) && bool::encodes(m.multiple, f))
    &&& (field_of(v, "recursive"@) matches Some(f) && bool::encodes(m.recursive, f))
}

proof fn lemma_file_dialog_keys()
    ensures
        "default_path"@ != "filters"@,
        "default_path"@ != "title"@,
        "default_path"@ != "directory"@,
        "default_path"@ != "multiple"@,
        "default_path"@ != "recursive"@,
        "filters"@ != "title"@,
        "filters"@ != "directory"@,
        "filters"@ != "multiple"@,
        "filters"@ != "recursive"@,
        "title"@ != "directory"@,
        "title"@ != "multiple"@,
        "title"@ != "recursive"@,
        "directory"@ != "multiple"@,
        "directory"@ != "recursive"@,
        "multiple"@ != "recursive"@,
{
    reveal_strlit("default_path");
    reveal_strlit("filters");
    reveal_strlit("title");
    reveal_strlit("directory");
    reveal_strlit("multiple");
    reveal_strlit("recursive");
    assert("default_path"@.len() == 12 && "filters"@.len() == 7 && "title"@.len() == 5);
    assert("directory"@.len() == 9 && "multiple"@.len() == 8 && "recursive"@.len() == 9);
    assert("directory"@[0] != "recursive"@[0]);
}

impl FileDialogBuilder {
    /// A builder with nothing set.
    pub fn new() -> (r: FileDialogBuilder)
        ensures
            r.deep_view() == (FileDialogModel {
                default_path: None,
                filters: Seq::empty(),
                title: None,
                directory: false,
                multiple: false,
                recursive: false,
            }),
    {
        let r = FileDialogBuilder {
            default_path: None,
            filters: Vec::new(),
            title: None,
            directory: false,
            multiple: false,
            recursive: false,
        };
        proof {
            assert(r.filters.deep_view() =~= Seq::<FilterModel>::empty());
        }
        r
    }

    /// Sets the starting file name or directory of the dialog.
    pub fn set_default_path(&mut self, default_path: &str)
        ensures
            final(self).deep_view() == (FileDialogModel {
                default_path: Some(default_path@),
                ..old(self).deep_view()
            }),
    {
        self.default_path = Some(text(default_path));
    }

    /// Sets whether subdirectories are allowed on the scope when a directory
    /// is read later.
    pub fn set_recursive(&mut self, recursive: bool)
        ensures
            final(self).deep_view() == (FileDialogModel { recursive, ..old(self).deep_view() }),
    {
        self.recursive = recursive;
    }

    /// Sets the title of the dialog.
    pub fn set_title(&mut self, title: &str)
        ensures
            final(self).deep_view() == (FileDialogModel {
                title: Some(title@),
                ..old(self).deep_view()
            }),
    {
        self.title = Some(text(title));
    }

    /// Adds a file-extension filter.
    pub fn add_filter(&mut self, name: &str, extensions: &Vec<String>)
        ensures
            final(self).deep_view() == (FileDialogModel {
                filters: old(self).deep_view().filters.push(
                    FilterModel { extensions: extensions.deep_view(), name: name@ },
                ),
                ..old(self).deep_view()
            }),
    {
        let ghost before = self.filters;
        let f = DialogFilter::new(name, extensions);
        self.filters.push(f);
        proof {
            assert(self.filters.deep_view() =~= before.deep_view().push(f.deep_view()));
        }
    }

    /// Adds several file-extension filters, in order.
    pub fn add_filters(&mut self, filters: &Vec<(String, Vec<String>)>)
        ensures
            final(self).deep_view() == (FileDialogModel {
                filters: old(self).deep_view().filters + Seq::new(
                    filters@.len(),
                    |i: int| FilterModel { extensions: filters@[i].1.deep_view(), name: filters@[i].0@ },
                ),
                ..old(self).deep_view()
            }),
    {
        let ghost start = self.deep_view();
        let mut i: usize = 0;
        while i < filters.len()
            invariant
                0 <= i <= filters@.len(),
                self.deep_view() == (FileDialogModel {
                    filters: start.filters + Seq::new(
                        i as nat,
                        |k: int| FilterModel { extensions: filters@[k].1.deep_view(), name: filters@[k].0@ },
                    ),
                    ..start
                }),
            decreases filters.len() - i,
        {
            let ghost before = self.deep_view();
            self.add_filter(filters[i].0.as_str(), &filters[i].1);
            proof {
                assert(start.filters + Seq::new(
                    (i + 1) as nat,
                    |k: int| FilterModel { extensions: filters@[k].1.deep_view(), name: filters@[k].0@ },
                ) =~= before.filters.push(
                    FilterModel { extensions: filters@[i as int].1.deep_view(), name: filters@[i as int].0@ },
                ));
            }
            i = i + 1;
        }
    }

    /// The encoded options of this dialog.
    pub fn to_value(&self) -> (v: Value)
        ensures
            file_dialog_encodes(self.deep_view(), v),
    {
        proof {
            lemma_file_dialog_keys();
        }
        let mut fields: Vec<(String, Value)> = Vec::new();
        push_field(&mut fields, "default_path", option_to_value(&self.default_path));
        push_field(&mut fields, "filters", self.filters.to_value());
        push_field(&mut fields, "title", option_to_value(&self.title));
        push_field(&mut fields, "directory", self.directory.to_value());
        push_field(&mut fields, "multiple", self.multiple.to_value());
        push_field(&mut fields, "recursive", self.recursive.to_value());
        Value::Object(fields)
    }

    /// The options of a dialog that selects a single file.
    pub fn pick_file(self) -> (v: Value)
        ensures
            file_dialog_encodes(self.deep_view(), v),
    {
        self.to_value()
    }

    /// The options of a dialog that selects several files.
    pub fn pick_files(self) -> (v: Value)
        ensures
            file_dialog_encodes(FileDialogModel { multiple: true, ..self.deep_view() }, v),
    {
        let mut b = self;
        b.multiple = true;
        b.to_value()
    }

    /// The options of a dialog that selects a single folder.
    pub fn pick_folder(self) -> (v: Value)
        ensures
            file_dialog_encodes(FileDialogModel { directory: true, ..self.deep_view() }, v),
    {
        let mut b = self;
        b.directory = true;
        b.to_value()
    }

    /// The options of a dialog that selects several folders.
    pub fn pick_folders(self) -> (v: Value)
        ensures
            file_dialog_encodes(
                FileDialogModel { directory: true, multiple: true, ..self.deep_view() },
                v,
            ),
    {
        let mut b = self;
        b.directory = true;
        b.multiple = true;
        b.to_value()
    }

    /// The options of a save dialog.
    pub fn save(self) -> (v: Value)
        ensures
            file_dialog_encodes(self.deep_view(), v),
    {
        self.to_value()
    }
}

/// The types of message, ask and confirm dialogs.
#[derive(Clone, Copy, Debug, PartialEq, Eq, Structural)]
pub enum MessageDialogKind {
    Info,
    Warning,
    Error,
}

/// The name under which the host knows a dialog type.
pub open spec fn dialog_kind_name(k: MessageDialogKind) -> Seq<char> {
    match k {
        MessageDialogKind::Info => "info"@,
        MessageDialogKind::Warning => "warning"@,
        MessageDialogKind::Error => "error"@,
    }
}

/// A builder for message dialogs.
#[derive(Clone, Debug)]
pub struct MessageDialogBuilder {
    title: Option<String>,
    kind: MessageDialogKind,
}

pub struct MessageDialogModel {
    pub title: Option<Seq<char>>,
    pub kind: MessageDialogKind,
}

impl DeepView for MessageDialogBuilder {
    type V = MessageDialogModel;

    closed spec fn deep_view(&self) -> MessageDialogModel {
        MessageDialogModel { title: self.title.deep_view(), kind: self.kind }
    }
}

/// `v` is the encoding of the message dialog options `m`.
pub open spec fn message_dialog_encodes(m: MessageDialogModel, v: Value) -> bool {
    &&& v is Object
    &&& (field_of(v, "title"@) matches Some(f) && opt_encodes::<String>(m.title, f))
    &&& (field_of(v, "type"@) matches Some(f) && str_of(f) == Some(dialog_kind_name(m.kind)))
}

/// Which message dialog to show.
#[derive(Clone, Copy, Debug, PartialEq, Eq, Structural)]
pub enum MessageCall {
    /// A message with an `Ok` button.
    Message,
    /// A question with `Yes` and `No` buttons.
    Ask,
    /// A question with `Ok` and `Cancel` buttons.
    Confirm,
}

/// A request to show a message dialog.
pub struct MessageRequest {
    pub call: MessageCall,
    pub message: String,
    pub options: Value,
}

impl MessageDialogBuilder {
    /// A builder with no title, of the information type.
    pub fn new() -> (r: MessageDialogBuilder)
        ensures
            r.deep_view() == (MessageDialogModel { title: None, kind: MessageDialogKind::Info }),
    {
        MessageDialogBuilder { title: None, kind: MessageDialogKind::Info }
    }

    /// Sets the title of the dialog.
    pub fn set_title(&mut self, title: &str)
        ensures
            final(self).deep_view() == (MessageDialogModel {
                title: Some(title@),
                ..old(self).deep_view()
            }),
    {
        self.title = Some(text(title));
    }

    /// Sets the type of the dialog.
    pub fn set_kind(&mut self, kind: MessageDialogKind)
        ensures
            final(self).deep_view() == (MessageDialogModel { kind, ..old(self).deep_view() }),
    {
        self.kind = kind;
    }

    /// The encoded options of this dialog.
    pub fn to_value(&self) -> (v: Value)
        ensures
            message_dialog_encodes(self.deep_view(), v),
    {
        proof {
            reveal_strlit("title");
            reveal_strlit("type");
            assert("title"@.len() == 5 && "type"@.len() == 4);
        }
        let kind = match self.kind {
            MessageDialogKind::Info => Value::string("info"),
            MessageDialogKind::Warning => Value::string("warning"),
            MessageDialogKind::Error => Value::string("error"),
        };
        let mut fields: Vec<(String, Value)> = Vec::new();
        push_field(&mut fields, "title", option_to_value(&self.title));
        push_field(&mut fields, "type", kind);
        Value::Object(fields)
    }

    fn request(self, call: MessageCall, message: &str) -> (r: MessageRequest)
        ensures
            r.call == call,
            r.message@ == message@,
            message_dialog_encodes(self.deep_view(), r.options),
    {
        MessageRequest { call, message: text(message), options: self.to_value() }
    }

    /// The request that shows `message` with an `Ok` button.
    pub fn message(self, message: &str) -> (r: MessageRequest)
        ensures
            r.call == MessageCall::Message,
            r.message@ == message@,
            message_dialog_encodes(self.deep_view(), r.options),
    {
        self.request(MessageCall::Message, message)
    }

    /// The request that asks `message` with `Yes` and `No` buttons.
    pub fn ask(self, message: &str) -> (r: MessageRequest)
        ensures
            r.call == MessageCall::Ask,
            r.message@ == message@,
            message_dialog_encodes(self.deep_view(), r.options),
    {
        self.request(MessageCall::Ask, message)
    }

    /// The request that asks `message` with `Ok` and `Cancel` buttons.
    pub fn confirm(self, message: &str) -> (r: MessageRequest)
        ensures
            r.call == MessageCall::Confirm,
            r.message@ == message@,
            message_dialog_encodes(self.deep_view(), r.options),
    {
        self.request(MessageCall::Confirm, message)
    }
}

} // verus!
