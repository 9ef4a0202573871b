//! The table of connected clients, the handles that reach them, and the
//! commands and frames that travel to them.

use std::collections::HashMap;
use tokio::sync::mpsc::{Receiver, Sender};
use vstd::prelude::*;
use vstd::std_specs::iter::IteratorSpec;
use vstd::string::*;

use crate::events::Capability;
use crate::text::{int_decimal, push_decimal};

verus! {

broadcast use vstd::std_specs::hash::group_hash_axioms;

/// tokio's `mpsc::Sender`, carried as an opaque handle on a channel.
#[verifier::external_type_specification]
#[verifier::external_body]
#[verifier::reject_recursive_types(T)]
pub struct ExSender<T>(Sender<T>);

/// tokio's `mpsc::Receiver`, carried as an opaque handle on a channel.
#[verifier::external_type_specification]
#[verifier::external_body]
#[verifier::reject_recursive_types(T)]
pub struct ExReceiver<T>(Receiver<T>);

/// serde_json's error, carried through unread.
#[verifier::external_type_specification]
#[verifier::external_body]
pub struct ExJsonError(serde_json::Error);

/// `Sender::clone` of tokio's `mpsc`: the clone is another handle on the
/// same channel. Contracts identify the handles of one channel, so the
/// clone equals the original.
pub assume_specification<T>[ <Sender<T> as Clone>::clone ](s: &Sender<T>) -> (r: Sender<T>)
    ensures
        r == *s,
;

/// How many frames may wait in one client's outbound channel.
pub const OUTBOUND_CAPACITY: usize = 8;

/// One WebSocket frame, as far as the gateway tells frames apart.
#[derive(Debug, Clone)]
pub enum WsFrame {
    Text(String),
    Binary(Vec<u8>),
    Ping(Vec<u8>),
    Pong(Vec<u8>),
    Close,
}

/// The arguments of a chat message command.
#[derive(Debug, Clone)]
pub struct MessageArgs {
    pub message: String,
}

/// A command for a Lua client. On the wire it is tagged by `name`.
#[derive(Debug, Clone)]
pub enum LuaCommand {
    Message { id: String, args: MessageArgs },
}

/// Why a frame did not reach a client's channel.
#[derive(Debug)]
pub enum ClientSendError {
    SerializeFailed(serde_json::Error),
    SendFailed(String),
}

/// A frame on its way: the channel to put it on, and for a frame addressed
/// by id, the id.
pub struct Delivery {
    pub sender: ClientSender,
    pub frame: WsFrame,
    pub target: Option<i32>,
}

/// The handle by which frames reach one client.
pub struct ClientSender {
    sender: Sender<WsFrame>,
}

/// What the table records of one client, as contracts see it.
pub struct ClientRecord {
    pub sender: ClientSender,
    pub capabilities: Seq<Capability>,
}

struct ClientEntry {
    sender: ClientSender,
    capabilities: Vec<Capability>,
}

/// The table of connected clients, keyed by client id.
pub struct ClientRegistry {
    clients: HashMap<i32, ClientEntry>,
}

/// The text that `uuid` gives a fresh random identifier: `Uuid::new_v4()`
/// rendered by `to_string`, which is the hyphenated form of 36 characters.
/// Which identifier comes out is left open.
#[verifier::external_body]
fn fresh_command_id() -> (id: String)
    ensures
        id@.len() == 36,
{
    uuid::Uuid::new_v4().to_string()
}

/// What `serde_json` makes of a text: the JSON string literal that it
/// writes for it, that is the text in double quotes with the escapes that
/// JSON asks for, or `None` where it reports an error instead.
pub uninterp spec fn json_string(s: Seq<char>) -> Option<Seq<char>>;

/// `serde_json::to_string` on a `str`. What comes back depends on the text
/// alone: the JSON string literal of the text, or an error.
#[verifier::external_body]
fn json_quote(s: &str) -> (r: Result<String, serde_json::Error>)
    ensures
        match r {
            Ok(t) => json_string(s@) == Some(t@),
            Err(_) => json_string(s@) is None,
        },
{
    serde_json::to_string(s)
}

/// The text of a `serde_json` error, by its `Display`.
#[verifier::external_body]
fn json_error_text(e: &serde_json::Error) -> String {
    e.to_string()
}

/// What `Debug` writes for a text: the text in double quotes, with Rust's
/// escapes.
pub uninterp spec fn debug_string(s: Seq<char>) -> Seq<char>;

/// std's `Debug` formatting of a `str`.
#[verifier::external_body]
fn debug_quote(s: &str) -> (r: String)
    ensures
        r@ == debug_string(s@),
{
    format!("{:?}", s)
}

/// The wire form of a chat message command, given the JSON string literals
/// of its id and of its message.
pub open spec fn message_envelope(quoted_id: Seq<char>, quoted_message: Seq<char>) -> Seq<char> {
    "{\"name\":\"message\",\"id\":"@ + quoted_id + ",\"args\":{\"message\":"@ + quoted_message
        + "}}"@
}

/// The wire form of a command: its envelope around the JSON string
/// literals of its id and of its message, or `None` where the JSON writer
/// reports an error for one of the two.
pub open spec fn lua_command_json(cmd: LuaCommand) -> Option<Seq<char>> {
    match cmd {
        LuaCommand::Message { id, args } => match (json_string(id@), json_string(args.message@)) {
            (Some(quoted_id), Some(quoted_message)) => Some(
                message_envelope(quoted_id, quoted_message),
            ),
            _ => None,
        },
    }
}

/// Puts the two quoted fields of a chat message command into its envelope.
pub fn message_envelope_text(quoted_id: &str, quoted_message: &str) -> (s: String)
    ensures
        s@ == message_envelope(quoted_id@, quoted_message@),
{
    let mut s = String::from_str("{\"name\":\"message\",\"id\":");
    s.append(quoted_id);
    s.append(",\"args\":{\"message\":");
    s.append(quoted_message);
    s.append("}}");
    s
}

/// Writes a command as the JSON text that travels to the client: the wire
/// form of the command. It fails exactly where the JSON writer reports an
/// error for the id or for the message.
pub fn serialize_lua_command(cmd: &LuaCommand) -> (r: Result<String, serde_json::Error>)
    ensures
        match r {
            Ok(s) => lua_command_json(*cmd) == Some(s@),
            Err(_) => lua_command_json(*cmd) is None,
        },
{
    match cmd {
        LuaCommand::Message { id, args } => {
            let quoted_id = match json_quote(id.as_str()) {
                Ok(q) => q,
                Err(e) => {
                    return Err(e);
                },
            };
            let quoted_message = match json_quote(args.message.as_str()) {
                Ok(q) => q,
                Err(e) => {
                    return Err(e);
                },
            };
            Ok(message_envelope_text(quoted_id.as_str(), quoted_message.as_str()))
        },
    }
}

impl LuaCommand {
    /// A chat message command that carries `message`, under a fresh id of
    /// 36 characters.
    pub fn chat_message(message: String) -> (cmd: LuaCommand)
        ensures
            cmd matches LuaCommand::Message { id, args } && args.message == message && id@.len()
                == 36,
    {
        LuaCommand::Message { id: fresh_command_id(), args: MessageArgs { message } }
    }
}

impl ClientSendError {
    /// The text that every rendering of this error starts with.
    pub open spec fn text_prefix(self) -> Seq<char> {
        match self {
            ClientSendError::SerializeFailed(_) => "serialize failed: "@,
            ClientSendError::SendFailed(e) => "send failed: "@ + e@,
        }
    }

    /// Renders the error. A send failure reads `send failed: ` and the
    /// detail; a serialize failure reads `serialize failed: ` and then what
    /// the JSON writer reported.
    pub fn to_string(&self) -> (s: String)
        ensures
            self.text_prefix().is_prefix_of(s@),
            self is SendFailed ==> s@ == self.text_prefix(),
    {
        match self {
            ClientSendError::SerializeFailed(e) => {
                let mut s = String::from_str("serialize failed: ");
                let detail = json_error_text(e);
                s.append(detail.as_str());
                s
            },
            ClientSendError::SendFailed(e) => {
                let mut s = String::from_str("send failed: ");
                s.append(e.as_str());
                s
            },
        }
    }
}

impl Clone for ClientSender {
    /// Another handle on the same channel.
    fn clone(&self) -> (r: Self)
        ensures
            r == *self,
    {
        ClientSender { sender: self.sender.clone() }
    }
}

impl ClientSender {
    /// The handle of a channel, as contracts name it.
    pub closed spec fn of(sender: Sender<WsFrame>) -> ClientSender {
        ClientSender { sender }
    }

    /// Wraps the sending end of a client's channel.
    pub fn new(sender: Sender<WsFrame>) -> (r: Self)
        ensures
            r == ClientSender::of(sender),
    {
        ClientSender { sender }
    }

    /// The sending end, for whoever performs the send.
    pub fn sender(&self) -> (r: &Sender<WsFrame>)
        ensures
            ClientSender::of(*r) == *self,
    {
        &self.sender
    }

    /// Addresses a frame to this client's channel.
    pub fn send_message(&self, message: WsFrame) -> (d: Delivery)
        ensures
            d.sender == *self,
            d.frame == message,
            d.target is None,
    {
        Delivery { sender: self.clone(), frame: message, target: None }
    }

    /// Addresses a text frame to this client's channel.
    pub fn send_text(&self, text: String) -> (d: Delivery)
        ensures
            d.sender == *self,
            d.frame == WsFrame::Text(text),
            d.target is None,
    {
        self.send_message(WsFrame::Text(text))
    }

    /// What becomes of a command once the JSON writer has answered: a text
    /// frame addressed to this client, or the writer's error.
    pub fn frame_serialized(&self, serialized: Result<String, serde_json::Error>) -> (r: Result<
        Delivery,
        ClientSendError,
    >)
        ensures
            match serialized {
                Ok(text) => r matches Ok(d) && d.sender == *self && d.frame == WsFrame::Text(text)
                    && d.target is None,
                Err(e) => r matches Err(err) && err == ClientSendError::SerializeFailed(e),
            },
    {
        match serialized {
            Ok(text) => Ok(self.send_text(text)),
            Err(e) => Err(ClientSendError::SerializeFailed(e)),
        }
    }

    /// Writes a command as JSON and addresses it, as a text frame, to this
    /// client's channel.
    pub fn send_lua_command(&self, cmd: &LuaCommand) -> (r: Result<Delivery, ClientSendError>)
        ensures
            match r {
                Ok(d) => d.sender == *self && d.target is None && (d.frame matches WsFrame::Text(
                    text,
                ) && lua_command_json(*cmd) == Some(text@)),
                Err(err) => err is SerializeFailed && lua_command_json(*cmd) is None,
            },
    {
        self.frame_serialized(serialize_lua_command(cmd))
    }
}

/// The message for an id that the table does not hold.
pub open spec fn not_registered_text(id: int) -> Seq<char> {
    "Client "@ + int_decimal(id) + " is not registered"@
}

/// The message for a frame that the channel of client `id` refused, given
/// the `Debug` form of the channel's complaint.
pub open spec fn send_to_failure_text(id: int, quoted_detail: Seq<char>) -> Seq<char> {
    "Failed to send to client "@ + int_decimal(id) + ": SendFailed("@ + quoted_detail + ")"@
}

fn not_registered(id: i32) -> (s: String)
    ensures
        s@ == not_registered_text(id as int),
{
    let mut s = String::from_str("Client ");
    push_decimal(&mut s, id);
    s.append(" is not registered");
    s
}

/// Composes the message for a frame that the channel of client `id`
/// refused, from the `Debug` form of the channel's complaint.
pub fn send_to_failure(id: i32, quoted_detail: &str) -> (s: String)
    ensures
        s@ == send_to_failure_text(id as int, quoted_detail@),
{
    let mut s = String::from_str("Failed to send to client ");
    push_decimal(&mut s, id);
    s.append(": SendFailed(");
    s.append(quoted_detail);
    s.append(")");
    s
}

impl Delivery {
    /// The error text for this delivery when the channel refused the frame
    /// with complaint `detail`.
    pub open spec fn failure_text(self, detail: Seq<char>) -> Seq<char> {
        match self.target {
            Some(id) => send_to_failure_text(id as int, debug_string(detail)),
            None => "send failed: "@ + detail,
        }
    }

    /// Composes the error text for this delivery when the channel refused
    /// the frame with complaint `detail`.
    pub fn failure(&self, detail: &str) -> (s: String)
        ensures
            s@ == self.failure_text(detail@),
    {
        match self.target {
            Some(id) => {
                let quoted = debug_quote(detail);
                send_to_failure(id, quoted.as_str())
            },
            None => {
                let err = ClientSendError::SendFailed(String::from_str(detail));
                err.to_string()
            },
        }
    }
}

impl ClientEntry {
    spec fn record(self) -> ClientRecord {
        ClientRecord { sender: self.sender, capabilities: self.capabilities@ }
    }
}

/// Whether a capability list names `wanted`.
pub fn advertises(capabilities: &Vec<Capability>, wanted: Capability) -> (b: bool)
    ensures
        b == capabilities@.contains(wanted),
{
    let mut i: usize = 0;
    while i < capabilities.len()
        invariant
            i <= capabilities.len(),
            forall|j: int| 0 <= j < i ==> capabilities@[j] != wanted,
        decreases capabilities.len() - i,
    {
        if capabilities[i] == wanted {
            return true;
        }
        i += 1;
    }
    false
}

impl View for ClientRegistry {
    type V = Map<i32, ClientRecord>;

    /// The table as a map from client id to what is recorded of the client.
    closed spec fn view(&self) -> Map<i32, ClientRecord> {
        Map::new(
            |id: i32| self.clients@.contains_key(id),
            |id: i32| self.clients@[id].record(),
        )
    }
}

impl ClientRegistry {
    /// Whether some client in the table advertises `capability`.
    pub open spec fn has_capable(self, capability: Capability) -> bool {
        exists|id: i32| self.serves(id, capability)
    }

    /// Whether client `id` is in the table and advertises `capability`.
    pub open spec fn serves(self, id: i32, capability: Capability) -> bool {
        self@.contains_key(id) && self@[id].capabilities.contains(capability)
    }

    /// An empty table.
    pub fn new() -> (r: Self)
        ensures
            r@ == Map::<i32, ClientRecord>::empty(),
    {
        let r = ClientRegistry { clients: HashMap::new() };
        assert(r@ =~= Map::<i32, ClientRecord>::empty());
        r
    }

    /// The number of clients in the table.
    pub fn len(&self) -> (n: usize)
        ensures
            n == self@.len(),
            self@.dom().finite(),
    {
        assert(self@.dom() =~= self.clients@.dom());
        self.clients.len()
    }

    /// Records client `id` with its channel and capabilities. An entry
    /// already held under `id` is replaced whole.
    pub fn register(&mut self, id: i32, sender: Sender<WsFrame>, capabilities: Vec<Capability>)
        ensures
            final(self)@ == old(self)@.insert(
                id,
                ClientRecord { sender: ClientSender::of(sender), capabilities: capabilities@ },
            ),
    {
        let entry = ClientEntry { sender: ClientSender::new(sender), capabilities };
        self.clients.insert(id, entry);
        assert(self@ =~= old(self)@.insert(
            id,
            ClientRecord { sender: ClientSender::of(sender), capabilities: capabilities@ },
        ));
    }

    /// Drops client `id` from the table. Where the table holds no such id,
    /// nothing changes.
    pub fn remove(&mut self, id: i32)
        ensures
            final(self)@ == old(self)@.remove(id),
            !old(self)@.contains_key(id) ==> final(self)@ == old(self)@,
    {
        self.clients.remove(&id);
        assert(self@ =~= old(self)@.remove(id));
        proof {
            if !old(self)@.contains_key(id) {
                assert(old(self)@.remove(id) =~= old(self)@);
            }
        }
    }

    /// Addresses a frame to client `id`: to the channel recorded for it, or
    /// the complaint that no such client is registered.
    pub fn send_to(&self, id: i32, message: WsFrame) -> (r: Result<Delivery, String>)
        ensures
            match r {
                Ok(d) => self@.contains_key(id) && d.sender == self@[id].sender && d.frame
                    == message && d.target == Some(id),
                Err(e) => !self@.contains_key(id) && e@ == not_registered_text(id as int),
            },
    {
        match self.clients.get(&id) {
            Some(entry) => Ok(
                Delivery { sender: entry.sender.clone(), frame: message, target: Some(id) },
            ),
            None => Err(not_registered(id)),
        }
    }

    /// Replaces the capabilities of client `id`, keeping its channel. An id
    /// that the table does not hold is refused and nothing changes.
    pub fn update_capabilities(&mut self, id: i32, capabilities: Vec<Capability>) -> (r: Result<
        (),
        String,
    >)
        ensures
            match r {
                Ok(()) => old(self)@.contains_key(id) && final(self)@ == old(self)@.insert(
                    id,
                    ClientRecord { sender: old(self)@[id].sender, capabilities: capabilities@ },
                ),
                Err(e) => !old(self)@.contains_key(id) && final(self)@ == old(self)@ && e@
                    == not_registered_text(id as int),
            },
    {
        match self.clients.remove(&id) {
            Some(entry) => {
                let ghost kept = entry.sender;
                self.clients.insert(id, ClientEntry { sender: entry.sender, capabilities });
                assert(self@ =~= old(self)@.insert(
                    id,
                    ClientRecord { sender: kept, capabilities: capabilities@ },
                ));
                Ok(())
            },
            None => {
                assert(self@ =~= old(self)@);
                Err(not_registered(id))
            },
        }
    }

    /// A handle on the channel of some client that advertises `capability`,
    /// or `None` where no client in the table does. Which of several such
    /// clients is picked is left open.
    pub fn find_by_capability(&self, capability: Capability) -> (r: Option<ClientSender>)
        ensures
            match r {
                Some(s) => exists|id: i32| #[trigger]
                    self.serves(id, capability) && s == self@[id].sender,
                None => !self.has_capable(capability),
            },
    {
        for (id, entry) in it: self.clients.iter()
            invariant
                it.seq() == vstd::std_specs::hash::spec_hash_map_iter(&self.clients).remaining(),
                forall|j: int|
                    0 <= j < it.index() ==> !(#[trigger] it.seq()[j]).1.capabilities@.contains(
                        capability,
                    ),
        {
            if advertises(&entry.capabilities, capability) {
                assert(self.serves(*id, capability));
                return Some(entry.sender.clone());
            }
        }
        assert forall|id: i32| !self.serves(id, capability) by {
            if self.clients@.contains_key(id) {
                let v = vstd::std_specs::hash::spec_hash_map_iter(&self.clients).remaining();
                assert(v.contains((&id, &self.clients@[id])));
                let j = choose|j: int| 0 <= j < v.len() && v[j] == (&id, &self.clients@[id]);
                assert(!v[j].1.capabilities@.contains(capability));
            }
        }
        None
    }
}

/// One change to the table.
pub enum RegistryOp {
    Register { id: i32, record: ClientRecord },
    Remove { id: i32 },
}

impl RegistryOp {
    /// The id that the change is about.
    pub open spec fn id(self) -> i32 {
        match self {
            RegistryOp::Register { id, .. } => id,
            RegistryOp::Remove { id } => id,
        }
    }
}

/// The table after one change, as `register` and `remove` make it.
pub open spec fn apply_op(table: Map<i32, ClientRecord>, op: RegistryOp) -> Map<i32, ClientRecord> {
    match op {
        RegistryOp::Register { id, record } => table.insert(id, record),
        RegistryOp::Remove { id } => table.remove(id),
    }
}

/// The table after a sequence of changes, first to last.
pub open spec fn apply_ops(table: Map<i32, ClientRecord>, ops: Seq<RegistryOp>) -> Map<
    i32,
    ClientRecord,
>
    decreases ops.len(),
{
    if ops.len() == 0 {
        table
    } else {
        apply_op(apply_ops(table, ops.drop_last()), ops.last())
    }
}

/// The last change in `ops` that is about `id`, if there is one.
pub open spec fn last_op_on(ops: Seq<RegistryOp>, id: i32) -> Option<RegistryOp>
    decreases ops.len(),
{
    if ops.len() == 0 {
        None
    } else if ops.last().id() == id {
        Some(ops.last())
    } else {
        last_op_on(ops.drop_last(), id)
    }
}

/// After any sequence of registrations and removals, what the table holds
/// under an id is decided by the last change about that id alone: the
/// record of a registration, whole; nothing after a removal; what the table
/// held before where no change was about the id. So no id is ever held
/// twice, and a later registration leaves nothing of an earlier one.
pub proof fn lemma_last_change_decides(table: Map<i32, ClientRecord>, ops: Seq<RegistryOp>, id: i32)
    ensures
        match last_op_on(ops, id) {
            Some(RegistryOp::Register { record, .. }) => apply_ops(table, ops).contains_key(id)
                && apply_ops(table, ops)[id] == record,
            Some(RegistryOp::Remove { .. }) => !apply_ops(table, ops).contains_key(id),
            None => apply_ops(table, ops).contains_key(id) == table.contains_key(id) && (
            table.contains_key(id) ==> apply_ops(table, ops)[id] == table[id]),
        },
    decreases ops.len(),
{
    if ops.len() > 0 {
        lemma_last_change_decides(table, ops.drop_last(), id);
    }
}

/// The table stays finite, and a sequence of changes makes it grow by no
/// more than the number of changes.
pub proof fn lemma_table_stays_finite(table: Map<i32, ClientRecord>, ops: Seq<RegistryOp>)
    requires
        table.dom().finite(),
    ensures
        apply_ops(table, ops).dom().finite(),
        apply_ops(table, ops).len() <= table.len() + ops.len(),
    decreases ops.len(),
{
    if ops.len() > 0 {
        lemma_table_stays_finite(table, ops.drop_last());
        let before = apply_ops(table, ops.drop_last());
        match ops.last() {
            RegistryOp::Register { id, record } => {
                assert(before.insert(id, record).dom() =~= before.dom().insert(id));
            },
            RegistryOp::Remove { id } => {
                assert(before.remove(id).dom() =~= before.dom().remove(id));
            },
        }
    }
}

/// Registering an id that the table holds replaces the entry and leaves
/// the number of entries as it was; the first registration is gone whole.
pub proof fn lemma_register_replaces(
    table: Map<i32, ClientRecord>,
    id: i32,
    first: ClientRecord,
    second: ClientRecord,
)
    requires
        table.dom().finite(),
    ensures
        table.insert(id, first).insert(id, second) == table.insert(id, second),
        table.insert(id, first).insert(id, second).len() == table.insert(id, first).len(),
        table.insert(id, first).insert(id, second)[id] == second,
{
    assert(table.insert(id, first).insert(id, second) =~= table.insert(id, second));
    assert(table.insert(id, first).dom() =~= table.insert(id, second).dom());
}

/// Removing an id that the table does not hold changes nothing, so a
/// second removal changes nothing either.
pub proof fn lemma_remove_idempotent(table: Map<i32, ClientRecord>, id: i32)
    ensures
        !table.contains_key(id) ==> table.remove(id) == table,
        table.remove(id).remove(id) == table.remove(id),
        !table.remove(id).contains_key(id),
{
    if !table.contains_key(id) {
        assert(table.remove(id) =~= table);
    }
    assert(table.remove(id).remove(id) =~= table.remove(id));
}

} // verus!
