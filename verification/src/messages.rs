//! The message schema spoken on both transports.
//!
//! Every message is one JSON object whose required string field `type`
//! selects the variant; every payload field is a string.  The generic JSON
//! parsing and serialization primitive is an outside collaborator, used
//! through two trusted wrappers; the schema itself (which variants exist,
//! which fields each requires, and how a malformed object is rejected) is
//! specified and verified here.

use vstd::prelude::*;

verus! {

/// Every message a client can send to the backend.
#[derive(Debug, Clone)]
pub enum ClientMessage {
    ClientLogin { name: String },
    Disconnect { reason: String },
    Input { content: String },
}

/// Every message the host can send to the backend.
#[derive(Debug, Clone)]
pub enum HostMessage {
    Disconnect { reason: String },
    Update { content: String },
    ChangeState { content: String },
}

/// Every message the backend can send to a client or to the host.
#[derive(Debug)]
pub enum BackendMessage {
    ClientConnected { name: String, address: String },
    ClientDisconnected { name: String, address: String, reason: String },
    Disconnect { reason: String },
    Input { input: String, name: String, address: String },
    Update { content: String },
    ChangeState { content: String },
}

/// Mathematical model of a `ClientMessage`.
pub enum ClientMessageView {
    ClientLogin { name: Seq<char> },
    Disconnect { reason: Seq<char> },
    Input { content: Seq<char> },
}

/// Mathematical model of a `HostMessage`.
pub enum HostMessageView {
    Disconnect { reason: Seq<char> },
    Update { content: Seq<char> },
    ChangeState { content: Seq<char> },
}

/// Mathematical model of a `BackendMessage`.
pub enum BackendMessageView {
    ClientConnected { name: Seq<char>, address: Seq<char> },
    ClientDisconnected { name: Seq<char>, address: Seq<char>, reason: Seq<char> },
    Disconnect { reason: Seq<char> },
    Input { input: Seq<char>, name: Seq<char>, address: Seq<char> },
    Update { content: Seq<char> },
    ChangeState { content: Seq<char> },
}

impl View for ClientMessage {
    type V = ClientMessageView;

    open spec fn view(&self) -> ClientMessageView {
        match self {
            ClientMessage::ClientLogin { name } => ClientMessageView::ClientLogin { name: name@ },
            ClientMessage::Disconnect { reason } => ClientMessageView::Disconnect { reason: reason@ },
            ClientMessage::Input { content } => ClientMessageView::Input { content: content@ },
        }
    }
}

impl DeepView for ClientMessage {
    type V = ClientMessageView;

    open spec fn deep_view(&self) -> ClientMessageView {
        self.view()
    }
}

impl View for HostMessage {
    type V = HostMessageView;

    open spec fn view(&self) -> HostMessageView {
        match self {
            HostMessage::Disconnect { reason } => HostMessageView::Disconnect { reason: reason@ },
            HostMessage::Update { content } => HostMessageView::Update { content: content@ },
            HostMessage::ChangeState { content } => HostMessageView::ChangeState {
                content: content@,
            },
        }
    }
}

impl DeepView for HostMessage {
    type V = HostMessageView;

    open spec fn deep_view(&self) -> HostMessageView {
        self.view()
    }
}

impl Clone for BackendMessage {
    /// A clone carries exactly the same fields.
    fn clone(&self) -> (res: Self)
        ensures
            res@ == self@,
    {
        match self {
            BackendMessage::ClientConnected { name, address } => BackendMessage::ClientConnected {
                name: name.clone(),
                address: address.clone(),
            },
            BackendMessage::ClientDisconnected { name, address, reason } => {
                BackendMessage::ClientDisconnected {
                    name: name.clone(),
                    address: address.clone(),
                    reason: reason.clone(),
                }
            },
            BackendMessage::Disconnect { reason } => BackendMessage::Disconnect {
                reason: reason.clone(),
            },
            BackendMessage::Input { input, name, address } => BackendMessage::Input {
                input: input.clone(),
                name: name.clone(),
                address: address.clone(),
            },
            BackendMessage::Update { content } => BackendMessage::Update {
                content: content.clone(),
            },
            BackendMessage::ChangeState { content } => BackendMessage::ChangeState {
                content: content.clone(),
            },
        }
    }
}

impl View for BackendMessage {
    type V = BackendMessageView;

    open spec fn view(&self) -> BackendMessageView {
        match self {
            BackendMessage::ClientConnected { name, address } => {
                BackendMessageView::ClientConnected { name: name@, address: address@ }
            },
            BackendMessage::ClientDisconnected { name, address, reason } => {
                BackendMessageView::ClientDisconnected {
                    name: name@,
                    address: address@,
                    reason: reason@,
                }
            },
            BackendMessage::Disconnect { reason } => BackendMessageView::Disconnect {
                reason: reason@,
            },
            BackendMessage::Input { input, name, address } => BackendMessageView::Input {
                input: input@,
                name: name@,
                address: address@,
            },
            BackendMessage::Update { content } => BackendMessageView::Update { content: content@ },
            BackendMessage::ChangeState { content } => BackendMessageView::ChangeState {
                content: content@,
            },
        }
    }
}

impl DeepView for BackendMessage {
    type V = BackendMessageView;

    open spec fn deep_view(&self) -> BackendMessageView {
        self.view()
    }
}

/// The field list that the JSON primitive extracts from one message object:
/// `None` for the whole object when the text is not a JSON object at all;
/// per field, `None` when the value is not a string.
pub uninterp spec fn json_fields_of(s: Seq<char>) -> Option<Seq<(Seq<char>, Option<Seq<char>>)>>;

/// The JSON text that the serialization primitive produces for an object
/// with exactly the given string-valued fields.
pub uninterp spec fn json_text_of(fields: Seq<(Seq<char>, Seq<char>)>) -> Seq<char>;

/// Relies on `serde_json::from_str`: parses JSON text, yielding a JSON
/// object's fields or nothing; both the outcome and each field's value are
/// functions of the text alone.
#[verifier::external_body]
fn parse_json_fields(s: &str) -> (r: Option<Vec<(String, Option<String>)>>)
    ensures
        r.deep_view() == json_fields_of(s@),
{
    match serde_json::from_str::<serde_json::Value>(s) {
        Ok(serde_json::Value::Object(entries)) => Some(
            entries.into_iter().map(
                |kv: (String, serde_json::Value)| match kv.1 {
                    serde_json::Value::String(text) => (kv.0, Some(text)),
                    _ => (kv.0, None),
                },
            ).collect(),
        ),
        _ => None,
    }
}

/// Relies on `serde_json::Value::to_string` (via `Display`): serializes an
/// object with the given string fields to compact JSON text, a function of
/// the fields alone.
#[verifier::external_body]
fn json_object_to_string(fields: Vec<(String, String)>) -> (r: String)
    ensures
        r@ == json_text_of(fields.deep_view()),
{
    let entries: serde_json::Map<String, serde_json::Value> = fields.into_iter().map(
        |kv: (String, String)| (kv.0, serde_json::Value::String(kv.1)),
    ).collect();
    serde_json::Value::Object(entries).to_string()
}

/// The value under `key`, skipping over earlier fields with other keys.
pub open spec fn spec_lookup_field(
    fields: Seq<(Seq<char>, Option<Seq<char>>)>,
    key: Seq<char>,
) -> Option<Option<Seq<char>>>
    decreases fields.len(),
{
    if fields.len() == 0 {
        None
    } else if fields[0].0 == key {
        Some(fields[0].1)
    } else {
        spec_lookup_field(fields.drop_first(), key)
    }
}

/// The string under `key`: nothing when the field is absent or not a string.
pub open spec fn spec_get_string(
    fields: Seq<(Seq<char>, Option<Seq<char>>)>,
    key: Seq<char>,
) -> Option<Seq<char>> {
    match spec_lookup_field(fields, key) {
        Some(Some(v)) => Some(v),
        _ => None,
    }
}

proof fn lemma_lookup_field_skip(
    fields: Seq<(Seq<char>, Option<Seq<char>>)>,
    key: Seq<char>,
    i: int,
)
    requires
        0 <= i <= fields.len(),
        forall|k: int| 0 <= k < i ==> fields[k].0 != key,
    ensures
        spec_lookup_field(fields, key) == spec_lookup_field(fields.skip(i), key),
    decreases i,
{
    if i > 0 {
        lemma_lookup_field_skip(fields, key, i - 1);
        assert(fields.skip(i - 1).drop_first() =~= fields.skip(i));
        assert(fields.skip(i - 1)[0] == fields[i - 1]);
    } else {
        assert(fields.skip(0) =~= fields);
    }
}

/// True exactly when the string slice and the owned string read the same.
fn str_eq(a: &String, b: &str) -> (r: bool)
    ensures
        r == (a@ == b@),
{
    let owned: String = b.to_owned();
    *a == owned
}

/// Extracts the string stored under `key`, the way every required field of
/// the schema is read: absent fields and non-string values yield nothing.
pub fn get_string(fields: &Vec<(String, Option<String>)>, key: &str) -> (r: Option<String>)
    ensures
        r.deep_view() == spec_get_string(fields.deep_view(), key@),
{
    let ghost gfields = fields.deep_view();
    let mut i: usize = 0;
    while i < fields.len()
        invariant
            0 <= i <= fields.len(),
            gfields == fields.deep_view(),
            gfields.len() == fields.len(),
            forall|k: int| 0 <= k < i ==> gfields[k].0 != key@,
        decreases fields.len() - i,
    {
        assert(gfields[i as int] == (fields[i as int].0@, fields[i as int].1.deep_view()));
        if str_eq(&fields[i].0, key) {
            proof {
                lemma_lookup_field_skip(gfields, key@, i as int);
                assert(gfields.skip(i as int)[0] == gfields[i as int]);
            }
            return match &fields[i].1 {
                Some(v) => Some(v.clone()),
                None => None,
            };
        }
        i += 1;
    }
    proof {
        lemma_lookup_field_skip(gfields, key@, fields.len() as int);
        assert(gfields.skip(fields.len() as int) =~= Seq::<(Seq<char>, Option<Seq<char>>)>::empty());
    }
    None
}

/// What parsing client text yields: the variant selected by `type`, with its
/// required string fields; nothing when the text is not a JSON object, the
/// selector is absent or unknown, or a required field is missing or not a
/// string.
pub open spec fn spec_client_msg_from_fields(
    fields: Seq<(Seq<char>, Option<Seq<char>>)>,
) -> Option<ClientMessageView> {
    match spec_get_string(fields, "type"@) {
        None => None,
        Some(t) => if t == "ClientLogin"@ {
            match spec_get_string(fields, "name"@) {
                Some(name) => Some(ClientMessageView::ClientLogin { name }),
                None => None,
            }
        } else if t == "Disconnecting"@ {
            match spec_get_string(fields, "reason"@) {
                Some(reason) => Some(ClientMessageView::Disconnect { reason }),
                None => None,
            }
        } else if t == "Input"@ {
            match spec_get_string(fields, "content"@) {
                Some(content) => Some(ClientMessageView::Input { content }),
                None => None,
            }
        } else {
            None
        },
    }
}

pub open spec fn spec_parse_client_msg(s: Seq<char>) -> Option<ClientMessageView> {
    match json_fields_of(s) {
        None => None,
        Some(fields) => spec_client_msg_from_fields(fields),
    }
}

/// What parsing host text yields, under the host-side schema.
pub open spec fn spec_host_msg_from_fields(
    fields: Seq<(Seq<char>, Option<Seq<char>>)>,
) -> Option<HostMessageView> {
    match spec_get_string(fields, "type"@) {
        None => None,
        Some(t) => if t == "Disconnecting"@ {
            match spec_get_string(fields, "reason"@) {
                Some(reason) => Some(HostMessageView::Disconnect { reason }),
                None => None,
            }
        } else if t == "Update"@ {
            match spec_get_string(fields, "content"@) {
                Some(content) => Some(HostMessageView::Update { content }),
                None => None,
            }
        } else if t == "ChangeState"@ {
            match spec_get_string(fields, "content"@) {
                Some(content) => Some(HostMessageView::ChangeState { content }),
                None => None,
            }
        } else {
            None
        },
    }
}

pub open spec fn spec_parse_host_msg(s: Seq<char>) -> Option<HostMessageView> {
    match json_fields_of(s) {
        None => None,
        Some(fields) => spec_host_msg_from_fields(fields),
    }
}

/// Decodes one client text frame.  A malformed frame yields nothing, so the
/// caller can drop it and keep reading.
pub fn parse_client_msg(msg_str: &str) -> (r: Option<ClientMessage>)
    ensures
        r.deep_view() == spec_parse_client_msg(msg_str@),
{
    let fields = match parse_json_fields(msg_str) {
        None => {
            return None;
        },
        Some(f) => f,
    };
    let type_str = match get_string(&fields, "type") {
        None => {
            return None;
        },
        Some(v) => v,
    };
    if str_eq(&type_str, "ClientLogin") {
        match get_string(&fields, "name") {
            Some(name) => Some(ClientMessage::ClientLogin { name }),
            None => None,
        }
    } else if str_eq(&type_str, "Disconnecting") {
        match get_string(&fields, "reason") {
            Some(reason) => Some(ClientMessage::Disconnect { reason }),
            None => None,
        }
    } else if str_eq(&type_str, "Input") {
        match get_string(&fields, "content") {
            Some(content) => Some(ClientMessage::Input { content }),
            None => None,
        }
    } else {
        None
    }
}

/// Decodes one host frame payload, already read and checked as text.  A
/// malformed payload yields nothing, so the caller can drop the frame and
/// keep reading.
pub fn parse_host_msg(msg_str: &str) -> (r: Option<HostMessage>)
    ensures
        r.deep_view() == spec_parse_host_msg(msg_str@),
{
    let fields = match parse_json_fields(msg_str) {
        None => {
            return None;
        },
        Some(f) => f,
    };
    let type_str = match get_string(&fields, "type") {
        None => {
            return None;
        },
        Some(v) => v,
    };
    if str_eq(&type_str, "Disconnecting") {
        match get_string(&fields, "reason") {
            Some(reason) => Some(HostMessage::Disconnect { reason }),
            None => None,
        }
    } else if str_eq(&type_str, "Update") {
        match get_string(&fields, "content") {
            Some(content) => Some(HostMessage::Update { content }),
            None => None,
        }
    } else if str_eq(&type_str, "ChangeState") {
        match get_string(&fields, "content") {
            Some(content) => Some(HostMessage::ChangeState { content }),
            None => None,
        }
    } else {
        None
    }
}

/// The field list serialized for one backend message, keys in the order the
/// serialization primitive emits them.
pub open spec fn spec_backend_fields(m: BackendMessageView) -> Seq<(Seq<char>, Seq<char>)> {
    match m {
        BackendMessageView::ClientConnected { name, address } => seq![
            ("address"@, address),
            ("name"@, name),
            ("type"@, "ClientConnected"@),
        ],
        BackendMessageView::ClientDisconnected { name, address, reason } => seq![
            ("address"@, address),
            ("name"@, name),
            ("reason"@, reason),
            ("type"@, "ClientDisconnected"@),
        ],
        BackendMessageView::Disconnect { reason } => seq![
            ("reason"@, reason),
            ("type"@, "Disconnecting"@),
        ],
        BackendMessageView::Input { input, name, address } => seq![
            ("address"@, address),
            ("input"@, input),
            ("name"@, name),
            ("type"@, "Input"@),
        ],
        BackendMessageView::Update { content } => seq![
            ("content"@, content),
            ("type"@, "Update"@),
        ],
        BackendMessageView::ChangeState { content } => seq![
            ("content"@, content),
            ("type"@, "ChangeState"@),
        ],
    }
}

/// The wire text for one backend message.
pub open spec fn spec_encode_backend_msg(m: BackendMessageView) -> Seq<char> {
    json_text_of(spec_backend_fields(m))
}

fn owned(s: &str) -> (r: String)
    ensures
        r@ == s@,
{
    s.to_owned()
}

/// Encodes one backend message as the JSON text sent on the wire.
pub fn encode_backend_msg(msg: BackendMessage) -> (r: String)
    ensures
        r@ == spec_encode_backend_msg(msg@),
{
    let ghost m = msg@;
    let mut fields: Vec<(String, String)> = Vec::new();
    match msg {
        BackendMessage::ClientConnected { name, address } => {
            fields.push((owned("address"), address));
            fields.push((owned("name"), name));
            fields.push((owned("type"), owned("ClientConnected")));
        },
        BackendMessage::ClientDisconnected { name, address, reason } => {
            fields.push((owned("address"), address));
            fields.push((owned("name"), name));
            fields.push((owned("reason"), reason));
            fields.push((owned("type"), owned("ClientDisconnected")));
        },
        BackendMessage::Disconnect { reason } => {
            fields.push((owned("reason"), reason));
            fields.push((owned("type"), owned("Disconnecting")));
        },
        BackendMessage::Input { input, name, address } => {
            fields.push((owned("address"), address));
            fields.push((owned("input"), input));
            fields.push((owned("name"), name));
            fields.push((owned("type"), owned("Input")));
        },
        BackendMessage::Update { content } => {
            fields.push((owned("content"), content));
            fields.push((owned("type"), owned("Update")));
        },
        BackendMessage::ChangeState { content } => {
            fields.push((owned("content"), content));
            fields.push((owned("type"), owned("ChangeState")));
        },
    }
    assert(fields.deep_view() =~~= spec_backend_fields(m));
    json_object_to_string(fields)
}

} // verus!
