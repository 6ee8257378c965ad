//! The orchestration core.
//!
//! A single actor owns the client registry, the single host slot, and the
//! last broadcast state.  Every verified handler here applies one internal
//! event to that state and returns the list of actions — sends, closes,
//! reader spawns — that the surrounding event loop must perform.  A send
//! failure never mutates state inside a handler: the loop reports it by
//! posting a close event, which a later handler applies.  This keeps the
//! single-writer discipline: state changes happen only here, one event at
//! a time.

use vstd::prelude::*;
use crate::messages::{BackendMessage, BackendMessageView};

verus! {

/// The reason a connection is being closed, surfaced to the peer and kept
/// apart so handlers can act on it.
#[derive(Debug, Clone, Copy, PartialEq, Eq, Structural)]
pub enum DisconnectReason {
    ClientGraceful,
    ClientForceful,
    HostGraceful,
    HostForceful,
    Superseded,
    Violation,
    SendFailed,
}

/// The reason tag put into disconnect messages and logs.
pub open spec fn spec_reason_text(r: DisconnectReason) -> Seq<char> {
    match r {
        DisconnectReason::ClientGraceful => "Connection closed gracefully by client"@,
        DisconnectReason::ClientForceful => "Connection closed forcefully by client"@,
        DisconnectReason::HostGraceful => "Connection closed gracefully by host"@,
        DisconnectReason::HostForceful => "Connection closed forcefully by host"@,
        DisconnectReason::Superseded => "superseded by another host"@,
        DisconnectReason::Violation => "Protocol violation"@,
        DisconnectReason::SendFailed => "Sending failed"@,
    }
}

impl DisconnectReason {
    /// The reason tag as a string.
    pub fn text(&self) -> (r: String)
        ensures
            r@ == spec_reason_text(*self),
    {
        match self {
            DisconnectReason::ClientGraceful => "Connection closed gracefully by client".to_owned(),
            DisconnectReason::ClientForceful => "Connection closed forcefully by client".to_owned(),
            DisconnectReason::HostGraceful => "Connection closed gracefully by host".to_owned(),
            DisconnectReason::HostForceful => "Connection closed forcefully by host".to_owned(),
            DisconnectReason::Superseded => "superseded by another host".to_owned(),
            DisconnectReason::Violation => "Protocol violation".to_owned(),
            DisconnectReason::SendFailed => "Sending failed".to_owned(),
        }
    }
}

/// A registered client: its identity, assigned once at login.  The owned
/// half of its transport lives with the event loop, keyed by the address.
#[derive(Debug, Clone)]
pub struct ClientConnection {
    pub name: String,
    pub address: String,
}

/// Mathematical model of a registered client.
pub struct ClientConnectionView {
    pub name: Seq<char>,
    pub address: Seq<char>,
}

impl View for ClientConnection {
    type V = ClientConnectionView;

    open spec fn view(&self) -> ClientConnectionView {
        ClientConnectionView { name: self.name@, address: self.address@ }
    }
}

impl DeepView for ClientConnection {
    type V = ClientConnectionView;

    open spec fn deep_view(&self) -> ClientConnectionView {
        self.view()
    }
}

impl ClientConnection {
    pub fn new(name: String, address: String) -> (c: ClientConnection)
        ensures
            c@ == (ClientConnectionView { name: name@, address: address@ }),
    {
        ClientConnection { name, address }
    }

    pub fn get_name(&self) -> (r: &String)
        ensures
            r@ == self@.name,
    {
        &self.name
    }

    pub fn get_address(&self) -> (r: String)
        ensures
            r@ == self@.address,
    {
        self.address.clone()
    }

    pub fn get_address_as_str(&self) -> (r: String)
        ensures
            r@ == self@.address,
    {
        self.address.clone()
    }
}

/// The current host: its identity.  At most one exists at any time; the
/// owned half of its transport lives with the event loop.
#[derive(Debug, Clone)]
pub struct HostConnection {
    pub address: String,
}

/// Mathematical model of the current host.
pub struct HostConnectionView {
    pub address: Seq<char>,
}

impl View for HostConnection {
    type V = HostConnectionView;

    open spec fn view(&self) -> HostConnectionView {
        HostConnectionView { address: self.address@ }
    }
}

impl DeepView for HostConnection {
    type V = HostConnectionView;

    open spec fn deep_view(&self) -> HostConnectionView {
        self.view()
    }
}

impl HostConnection {
    pub fn new(address: String) -> (h: HostConnection)
        ensures
            h@ == (HostConnectionView { address: address@ }),
    {
        HostConnection { address }
    }

    pub fn get_address(&self) -> (r: String)
        ensures
            r@ == self@.address,
    {
        self.address.clone()
    }

    pub fn get_address_as_str(&self) -> (r: String)
        ensures
            r@ == self@.address,
    {
        self.address.clone()
    }
}

/// One event on the actor's inbound queue.  Producers are the listeners and
/// the per-connection readers; the actor consumes each exactly once.
#[derive(Debug, Clone)]
pub enum InternalMessage {
    ClientConnected { name: String, address: String },
    ClientCloseConnection { address: String, reason: DisconnectReason },
    HostConnected { address: String },
    HostCloseConnection { address: String, reason: DisconnectReason },
    ClientInput { address: String, content: String },
    HostUpdate { address: String, content: String },
    HostChangeState { address: String, content: String },
}

/// Mathematical model of an internal event.
pub enum InternalMessageView {
    ClientConnected { name: Seq<char>, address: Seq<char> },
    ClientCloseConnection { address: Seq<char>, reason: DisconnectReason },
    HostConnected { address: Seq<char> },
    HostCloseConnection { address: Seq<char>, reason: DisconnectReason },
    ClientInput { address: Seq<char>, content: Seq<char> },
    HostUpdate { address: Seq<char>, content: Seq<char> },
    HostChangeState { address: Seq<char>, content: Seq<char> },
}

impl View for InternalMessage {
    type V = InternalMessageView;

    open spec fn view(&self) -> InternalMessageView {
        match self {
            InternalMessage::ClientConnected { name, address } => {
                InternalMessageView::ClientConnected { name: name@, address: address@ }
            },
            InternalMessage::ClientCloseConnection { address, reason } => {
                InternalMessageView::ClientCloseConnection { address: address@, reason: *reason }
            },
            InternalMessage::HostConnected { address } => InternalMessageView::HostConnected {
                address: address@,
            },
            InternalMessage::HostCloseConnection { address, reason } => {
                InternalMessageView::HostCloseConnection { address: address@, reason: *reason }
            },
            InternalMessage::ClientInput { address, content } => InternalMessageView::ClientInput {
                address: address@,
                content: content@,
            },
            InternalMessage::HostUpdate { address, content } => InternalMessageView::HostUpdate {
                address: address@,
                content: content@,
            },
            InternalMessage::HostChangeState { address, content } => {
                InternalMessageView::HostChangeState { address: address@, content: content@ }
            },
        }
    }
}

impl DeepView for InternalMessage {
    type V = InternalMessageView;

    open spec fn deep_view(&self) -> InternalMessageView {
        self.view()
    }
}

/// One effect a handler asks the event loop to perform.  Sends that fail
/// come back as close events; a close consumes the connection's transport.
#[derive(Debug, Clone)]
pub enum Action {
    SendToClient { address: String, message: BackendMessage },
    SendToHost { address: String, message: BackendMessage },
    CloseClient { address: String, reason: DisconnectReason },
    CloseHost { address: String, reason: DisconnectReason },
    SpawnClientReader { address: String },
    SpawnHostReader { address: String },
}

/// Mathematical model of an action.
pub enum ActionView {
    SendToClient { address: Seq<char>, message: BackendMessageView },
    SendToHost { address: Seq<char>, message: BackendMessageView },
    CloseClient { address: Seq<char>, reason: DisconnectReason },
    CloseHost { address: Seq<char>, reason: DisconnectReason },
    SpawnClientReader { address: Seq<char> },
    SpawnHostReader { address: Seq<char> },
}

impl View for Action {
    type V = ActionView;

    open spec fn view(&self) -> ActionView {
        match self {
            Action::SendToClient { address, message } => ActionView::SendToClient {
                address: address@,
                message: message@,
            },
            Action::SendToHost { address, message } => ActionView::SendToHost {
                address: address@,
                message: message@,
            },
            Action::CloseClient { address, reason } => ActionView::CloseClient {
                address: address@,
                reason: *reason,
            },
            Action::CloseHost { address, reason } => ActionView::CloseHost {
                address: address@,
                reason: *reason,
            },
            Action::SpawnClientReader { address } => ActionView::SpawnClientReader {
                address: address@,
            },
            Action::SpawnHostReader { address } => ActionView::SpawnHostReader {
                address: address@,
            },
        }
    }
}

impl DeepView for Action {
    type V = ActionView;

    open spec fn deep_view(&self) -> ActionView {
        self.view()
    }
}

/// The shared state the actor owns: the registry of logged-in clients, the
/// single host slot, and the most recent change-state message.
pub struct Server {
    pub clients: Vec<ClientConnection>,
    pub host: Option<HostConnection>,
    pub state: Option<BackendMessage>,
}

/// Mathematical model of the actor's state.
pub struct ServerView {
    pub clients: Seq<ClientConnectionView>,
    pub host: Option<HostConnectionView>,
    pub state: Option<BackendMessageView>,
}

impl View for Server {
    type V = ServerView;

    open spec fn view(&self) -> ServerView {
        ServerView {
            clients: self.clients.deep_view(),
            host: self.host.deep_view(),
            state: self.state.deep_view(),
        }
    }
}

/// No two registry entries share an address.
pub open spec fn unique_addresses(clients: Seq<ClientConnectionView>) -> bool {
    forall|i: int, j: int|
        0 <= i < j < clients.len() ==> clients[i].address != clients[j].address
}

impl ServerView {
    /// Registry well-formedness: every registered address is unique.
    pub open spec fn wf(self) -> bool {
        unique_addresses(self.clients)
    }

    /// The state at process start: no clients, no host, no retained state.
    pub open spec fn init() -> ServerView {
        ServerView { clients: Seq::empty(), host: None, state: None }
    }
}

/// True exactly when the two strings read the same.
fn string_eq(a: &String, b: &String) -> (r: bool)
    ensures
        r == (a@ == b@),
{
    *a == *b
}

/// The first registered client whose address matches, if any.
pub open spec fn spec_lookup_client(
    clients: Seq<ClientConnectionView>,
    address: Seq<char>,
) -> Option<ClientConnectionView>
    decreases clients.len(),
{
    if clients.len() == 0 {
        None
    } else if clients[0].address == address {
        Some(clients[0])
    } else {
        spec_lookup_client(clients.drop_first(), address)
    }
}

/// The registry without the first client whose address matches.
pub open spec fn spec_remove_client(
    clients: Seq<ClientConnectionView>,
    address: Seq<char>,
) -> Seq<ClientConnectionView>
    decreases clients.len(),
{
    if clients.len() == 0 {
        Seq::empty()
    } else if clients[0].address == address {
        clients.drop_first()
    } else {
        seq![clients[0]] + spec_remove_client(clients.drop_first(), address)
    }
}

proof fn lemma_lookup_client_skip(clients: Seq<ClientConnectionView>, address: Seq<char>, i: int)
    requires
        0 <= i <= clients.len(),
        forall|k: int| 0 <= k < i ==> clients[k].address != address,
    ensures
        spec_lookup_client(clients, address) == spec_lookup_client(clients.skip(i), address),
    decreases i,
{
    if i > 0 {
        lemma_lookup_client_skip(clients, address, i - 1);
        assert(clients.skip(i - 1).drop_first() =~= clients.skip(i));
        assert(clients.skip(i - 1)[0] == clients[i - 1]);
    } else {
        assert(clients.skip(0) =~= clients);
    }
}

proof fn lemma_remove_client_skip(clients: Seq<ClientConnectionView>, address: Seq<char>, i: int)
    requires
        0 <= i <= clients.len(),
        forall|k: int| 0 <= k < i ==> clients[k].address != address,
    ensures
        spec_remove_client(clients, address) =~= clients.take(i) + spec_remove_client(
            clients.skip(i),
            address,
        ),
    decreases i,
{
    if i > 0 {
        lemma_remove_client_skip(clients, address, i - 1);
        assert(clients.skip(i - 1).drop_first() =~= clients.skip(i));
        assert(clients.skip(i - 1)[0] == clients[i - 1]);
        assert(clients.take(i - 1) + seq![clients[i - 1]] =~= clients.take(i));
        assert(clients.take(i - 1) + (seq![clients[i - 1]] + spec_remove_client(
            clients.skip(i),
            address,
        )) =~= clients.take(i) + spec_remove_client(clients.skip(i), address));
    } else {
        assert(clients.skip(0) =~= clients);
        assert(clients.take(0) + spec_remove_client(clients, address) =~= spec_remove_client(
            clients,
            address,
        ));
    }
}

/// A matching address is registered exactly when the lookup finds one.
pub proof fn lemma_lookup_none_iff_absent(clients: Seq<ClientConnectionView>, address: Seq<char>)
    ensures
        spec_lookup_client(clients, address) is None <==> (forall|k: int|
            0 <= k < clients.len() ==> clients[k].address != address),
    decreases clients.len(),
{
    if clients.len() > 0 {
        let rest = clients.drop_first();
        lemma_lookup_none_iff_absent(rest, address);
        assert(forall|k: int| 0 <= k < rest.len() ==> rest[k] == clients[k + 1]);
        if clients[0].address != address {
            if spec_lookup_client(clients, address) is None {
                assert forall|k: int| 0 <= k < clients.len() implies clients[k].address
                    != address by {
                    if k > 0 {
                        assert(rest[k - 1] == clients[k]);
                    }
                }
            } else {
                let k0 = choose|k: int| 0 <= k < rest.len() && rest[k].address == address;
                assert(clients[k0 + 1].address == address);
            }
        }
    }
}

/// Removing an address from a duplicate-free registry keeps it duplicate
/// free, leaves no entry under that address, and invents no entry.
pub proof fn lemma_remove_client_props(clients: Seq<ClientConnectionView>, address: Seq<char>)
    requires
        unique_addresses(clients),
    ensures
        unique_addresses(spec_remove_client(clients, address)),
        forall|k: int|
            0 <= k < spec_remove_client(clients, address).len() ==> spec_remove_client(
                clients,
                address,
            )[k].address != address,
        forall|x: ClientConnectionView|
            spec_remove_client(clients, address).contains(x) ==> clients.contains(x),
    decreases clients.len(),
{
    if clients.len() > 0 {
        let rest = clients.drop_first();
        assert(forall|k: int| 0 <= k < rest.len() ==> rest[k] == clients[k + 1]);
        assert(unique_addresses(rest));
        if clients[0].address == address {
            assert(forall|k: int| 0 <= k < rest.len() ==> rest[k].address != address);
        } else {
            lemma_remove_client_props(rest, address);
            let result = seq![clients[0]] + spec_remove_client(rest, address);
            assert forall|x: ClientConnectionView| result.contains(x) implies clients.contains(
                x,
            ) by {
                let k = choose|k: int| 0 <= k < result.len() && result[k] == x;
                if k == 0 {
                    assert(clients[0] == x);
                } else {
                    assert(spec_remove_client(rest, address).contains(x));
                    assert(rest.contains(x));
                    let k2 = choose|k2: int| 0 <= k2 < rest.len() && rest[k2] == x;
                    assert(clients[k2 + 1] == x);
                }
            }
            assert forall|i: int, j: int| 0 <= i < j < result.len() implies result[i].address
                != result[j].address by {
                if i == 0 {
                    assert(spec_remove_client(rest, address)[j - 1] == result[j]);
                    assert(spec_remove_client(rest, address).contains(result[j]));
                    assert(rest.contains(result[j]));
                    let k2 = choose|k2: int| 0 <= k2 < rest.len() && rest[k2] == result[j];
                    assert(clients[k2 + 1] == result[j]);
                }
            }
        }
    }
}

/// One send per registered client, in registry order.
pub open spec fn spec_broadcast(
    clients: Seq<ClientConnectionView>,
    m: BackendMessageView,
) -> Seq<ActionView> {
    Seq::new(
        clients.len(),
        |i: int| ActionView::SendToClient { address: clients[i].address, message: m },
    )
}

/// A client finished its login handshake.  `delivered` reports whether the
/// retained state snapshot (if any) reached it: when it did not, the client
/// is closed and never registered; when it did, the client is registered
/// (replacing any stale entry under the same address), the host is notified,
/// and a reader is spawned for it.
pub open spec fn spec_client_connected(
    s: ServerView,
    name: Seq<char>,
    address: Seq<char>,
    delivered: bool,
) -> (ServerView, Seq<ActionView>) {
    if !delivered {
        (s, seq![ActionView::CloseClient { address, reason: DisconnectReason::SendFailed }])
    } else {
        let s2 = ServerView {
            clients: spec_remove_client(s.clients, address).push(
                ClientConnectionView { name, address },
            ),
            host: s.host,
            state: s.state,
        };
        let spawn = ActionView::SpawnClientReader { address };
        match s.host {
            Some(h) => (
                s2,
                seq![
                    ActionView::SendToHost {
                        address: h.address,
                        message: BackendMessageView::ClientConnected { name, address },
                    },
                    spawn,
                ],
            ),
            None => (s2, seq![spawn]),
        }
    }
}

/// A client connection is to be closed.  A registered address is removed,
/// the host (if any) is notified, and the connection is closed with the
/// given reason; an unknown address is a no-op.
pub open spec fn spec_client_close(
    s: ServerView,
    address: Seq<char>,
    reason: DisconnectReason,
) -> (ServerView, Seq<ActionView>) {
    match spec_lookup_client(s.clients, address) {
        None => (s, Seq::empty()),
        Some(c) => {
            let s2 = ServerView {
                clients: spec_remove_client(s.clients, address),
                host: s.host,
                state: s.state,
            };
            let close = ActionView::CloseClient { address, reason };
            match s.host {
                Some(h) => (
                    s2,
                    seq![
                        ActionView::SendToHost {
                            address: h.address,
                            message: BackendMessageView::ClientDisconnected {
                                name: c.name,
                                address,
                                reason: spec_reason_text(reason),
                            },
                        },
                        close,
                    ],
                ),
                None => (s2, seq![close]),
            }
        },
    }
}

/// A host connected.  Any previous host is first closed as superseded, so
/// that at most one host ever occupies the slot; then the new host is
/// installed and a reader spawned for it.
pub open spec fn spec_host_connected(s: ServerView, address: Seq<char>) -> (
    ServerView,
    Seq<ActionView>,
) {
    let s2 = ServerView {
        clients: s.clients,
        host: Some(HostConnectionView { address }),
        state: s.state,
    };
    let spawn = ActionView::SpawnHostReader { address };
    match s.host {
        Some(prev) => (
            s2,
            seq![
                ActionView::CloseHost { address: prev.address, reason: DisconnectReason::Superseded },
                spawn,
            ],
        ),
        None => (s2, seq![spawn]),
    }
}

/// The host connection is to be closed.  Acts only when the address names
/// the current host, so a stale close racing a newer connect is a no-op.
pub open spec fn spec_host_close(
    s: ServerView,
    address: Seq<char>,
    reason: DisconnectReason,
) -> (ServerView, Seq<ActionView>) {
    match s.host {
        Some(h) => if h.address == address {
            (
                ServerView { clients: s.clients, host: None, state: s.state },
                seq![ActionView::CloseHost { address, reason }],
            )
        } else {
            (s, Seq::empty())
        },
        None => (s, Seq::empty()),
    }
}

/// A registered client sent input: it is forwarded to the current host,
/// tagged with the sender's name and address.  Without a registered sender
/// or a host, the input is dropped.
pub open spec fn spec_client_input(s: ServerView, address: Seq<char>, content: Seq<char>) -> (
    ServerView,
    Seq<ActionView>,
) {
    match (spec_lookup_client(s.clients, address), s.host) {
        (Some(c), Some(h)) => (
            s,
            seq![
                ActionView::SendToHost {
                    address: h.address,
                    message: BackendMessageView::Input { input: content, name: c.name, address },
                },
            ],
        ),
        _ => (s, Seq::empty()),
    }
}

/// The current host sent an update: it is broadcast to every registered
/// client and the retained state is left alone.  An update from any other
/// address, or with no clients registered, does nothing.
pub open spec fn spec_host_update(s: ServerView, address: Seq<char>, content: Seq<char>) -> (
    ServerView,
    Seq<ActionView>,
) {
    match s.host {
        Some(h) => if h.address == address && s.clients.len() > 0 {
            (s, spec_broadcast(s.clients, BackendMessageView::Update { content }))
        } else {
            (s, Seq::empty())
        },
        None => (s, Seq::empty()),
    }
}

/// The current host changed the session state: the message overwrites the
/// retained state and is broadcast to every registered client.  A change
/// from any other address does nothing.
pub open spec fn spec_host_change_state(s: ServerView, address: Seq<char>, content: Seq<char>) -> (
    ServerView,
    Seq<ActionView>,
) {
    match s.host {
        Some(h) => if h.address == address {
            let m = BackendMessageView::ChangeState { content };
            let s2 = ServerView { clients: s.clients, host: s.host, state: Some(m) };
            if s.clients.len() > 0 {
                (s2, spec_broadcast(s.clients, m))
            } else {
                (s2, Seq::empty())
            }
        } else {
            (s, Seq::empty())
        },
        None => (s, Seq::empty()),
    }
}

/// One step of the actor: the state after the event and the actions the
/// event loop must perform.
pub open spec fn spec_handle(s: ServerView, m: InternalMessageView, delivered: bool) -> (
    ServerView,
    Seq<ActionView>,
) {
    match m {
        InternalMessageView::ClientConnected { name, address } => spec_client_connected(
            s,
            name,
            address,
            delivered,
        ),
        InternalMessageView::ClientCloseConnection { address, reason } => spec_client_close(
            s,
            address,
            reason,
        ),
        InternalMessageView::HostConnected { address } => spec_host_connected(s, address),
        InternalMessageView::HostCloseConnection { address, reason } => spec_host_close(
            s,
            address,
            reason,
        ),
        InternalMessageView::ClientInput { address, content } => spec_client_input(
            s,
            address,
            content,
        ),
        InternalMessageView::HostUpdate { address, content } => spec_host_update(
            s,
            address,
            content,
        ),
        InternalMessageView::HostChangeState { address, content } => spec_host_change_state(
            s,
            address,
            content,
        ),
    }
}

impl Server {
    /// A fresh actor state.
    pub fn new() -> (s: Server)
        ensures
            s@ == ServerView::init(),
            s@.wf(),
    {
        let s = Server { clients: Vec::new(), host: None, state: None };
        proof {
            assert(s@.clients =~= Seq::<ClientConnectionView>::empty());
            assert(s@ == ServerView::init());
        }
        s
    }

    /// The message a newly logged-in client must receive first, if any: the
    /// retained state of the most recent accepted change-state event.
    pub fn last_state_message(&self) -> (r: Option<BackendMessage>)
        ensures
            r.deep_view() == self@.state,
    {
        match &self.state {
            Some(m) => Some(m.clone()),
            None => None,
        }
    }

    /// The index of the registered client with this address, if any.
    fn find_client(&self, address: &String) -> (r: Option<usize>)
        ensures
            match r {
                Some(i) => {
                    &&& i < self@.clients.len()
                    &&& self@.clients[i as int].address == address@
                    &&& forall|k: int| 0 <= k < i ==> self@.clients[k].address != address@
                    &&& spec_lookup_client(self@.clients, address@) == Some(
                        self@.clients[i as int],
                    )
                    &&& spec_remove_client(self@.clients, address@) =~= self@.clients.take(
                        i as int,
                    ) + self@.clients.skip(i as int + 1)
                },
                None => {
                    &&& spec_lookup_client(self@.clients, address@) is None
                    &&& spec_remove_client(self@.clients, address@) =~= self@.clients
                },
            },
    {
        let ghost gclients = self@.clients;
        let mut i: usize = 0;
        while i < self.clients.len()
            invariant
                0 <= i <= self.clients.len(),
                gclients == self@.clients,
                gclients.len() == self.clients.len(),
                forall|k: int| 0 <= k < i ==> gclients[k].address != address@,
            decreases self.clients.len() - i,
        {
            assert(gclients[i as int] == self.clients[i as int]@);
            if string_eq(&self.clients[i].address, address) {
                proof {
                    lemma_lookup_client_skip(gclients, address@, i as int);
                    lemma_remove_client_skip(gclients, address@, i as int);
                    assert(gclients.skip(i as int)[0] == gclients[i as int]);
                    assert(gclients.skip(i as int).drop_first() =~= gclients.skip(i as int + 1));
                }
                return Some(i);
            }
            i += 1;
        }
        proof {
            lemma_lookup_client_skip(gclients, address@, gclients.len() as int);
            lemma_remove_client_skip(gclients, address@, gclients.len() as int);
            assert(gclients.skip(gclients.len() as int) =~= Seq::<ClientConnectionView>::empty());
            assert(gclients.take(gclients.len() as int) =~= gclients);
        }
        None
    }

    /// Applies a `ClientConnected` event: the client logged in as `name` at
    /// `address`, and `state_delivered` reports whether the retained state
    /// snapshot (see [`Server::last_state_message`]) reached it.
    pub fn handle_client_connected(
        &mut self,
        name: String,
        address: String,
        state_delivered: bool,
    ) -> (actions: Vec<Action>)
        requires
            old(self)@.wf(),
        ensures
            final(self)@.wf(),
            final(self)@ == spec_client_connected(
                old(self)@,
                name@,
                address@,
                state_delivered,
            ).0,
            actions.deep_view() == spec_client_connected(
                old(self)@,
                name@,
                address@,
                state_delivered,
            ).1,
    {
        let ghost s0 = self@;
        let ghost expected = spec_client_connected(s0, name@, address@, state_delivered);
        let mut actions: Vec<Action> = Vec::new();
        if !state_delivered {
            actions.push(Action::CloseClient { address, reason: DisconnectReason::SendFailed });
            assert(actions.deep_view() =~= expected.1);
            return actions;
        }
        if let Some(h) = &self.host {
            actions.push(
                Action::SendToHost {
                    address: h.address.clone(),
                    message: BackendMessage::ClientConnected {
                        name: name.clone(),
                        address: address.clone(),
                    },
                },
            );
        }
        actions.push(Action::SpawnClientReader { address: address.clone() });
        match self.find_client(&address) {
            Some(i) => {
                self.clients.remove(i);
                proof {
                    assert(self@.clients =~= spec_remove_client(s0.clients, address@));
                }
            },
            None => {},
        }
        proof {
            lemma_remove_client_props(s0.clients, address@);
        }
        self.clients.push(ClientConnection { name, address });
        proof {
            assert(self@.clients =~= expected.0.clients);
            assert(self@ == expected.0);
            assert(actions.deep_view() =~= expected.1);
        }
        actions
    }

    /// Applies a `ClientCloseConnection` event: removes the address from the
    /// registry, notifies the host, and closes the connection.  An unknown
    /// (already removed) address is a logged no-op, not an error.
    pub fn handle_client_close_connection(
        &mut self,
        address: String,
        reason: DisconnectReason,
    ) -> (actions: Vec<Action>)
        requires
            old(self)@.wf(),
        ensures
            final(self)@.wf(),
            final(self)@ == spec_client_close(old(self)@, address@, reason).0,
            actions.deep_view() == spec_client_close(old(self)@, address@, reason).1,
    {
        let ghost s0 = self@;
        let ghost expected = spec_client_close(s0, address@, reason);
        let mut actions: Vec<Action> = Vec::new();
        match self.find_client(&address) {
            None => {
                assert(actions.deep_view() =~= expected.1);
                actions
            },
            Some(i) => {
                let removed = self.clients.remove(i);
                proof {
                    assert(self@.clients =~= spec_remove_client(s0.clients, address@));
                    lemma_remove_client_props(s0.clients, address@);
                }
                if let Some(h) = &self.host {
                    actions.push(
                        Action::SendToHost {
                            address: h.address.clone(),
                            message: BackendMessage::ClientDisconnected {
                                name: removed.name,
                                address: address.clone(),
                                reason: reason.text(),
                            },
                        },
                    );
                }
                actions.push(Action::CloseClient { address, reason });
                proof {
                    assert(self@ == expected.0);
                    assert(actions.deep_view() =~= expected.1);
                }
                actions
            },
        }
    }

    /// Applies a `HostConnected` event: any previous host is closed as
    /// superseded before the slot is overwritten, so the slot never holds
    /// two hosts; then a reader is spawned for the new host.
    pub fn handle_host_connected(&mut self, address: String) -> (actions: Vec<Action>)
        requires
            old(self)@.wf(),
        ensures
            final(self)@.wf(),
            final(self)@ == spec_host_connected(old(self)@, address@).0,
            actions.deep_view() == spec_host_connected(old(self)@, address@).1,
    {
        let ghost s0 = self@;
        let ghost expected = spec_host_connected(s0, address@);
        let mut actions: Vec<Action> = Vec::new();
        if let Some(prev) = self.host.take() {
            actions.push(
                Action::CloseHost { address: prev.address, reason: DisconnectReason::Superseded },
            );
        }
        actions.push(Action::SpawnHostReader { address: address.clone() });
        self.host = Some(HostConnection::new(address));
        proof {
            assert(self@ == expected.0);
            assert(actions.deep_view() =~= expected.1);
        }
        actions
    }

    /// Applies a `HostCloseConnection` event: closes the host slot only when
    /// the address names the current host, so a stale close event racing a
    /// newer host's connect mutates nothing.
    pub fn handle_host_close_connection(
        &mut self,
        address: String,
        reason: DisconnectReason,
    ) -> (actions: Vec<Action>)
        requires
            old(self)@.wf(),
        ensures
            final(self)@.wf(),
            final(self)@ == spec_host_close(old(self)@, address@, reason).0,
            actions.deep_view() == spec_host_close(old(self)@, address@, reason).1,
    {
        let ghost s0 = self@;
        let ghost expected = spec_host_close(s0, address@, reason);
        let mut actions: Vec<Action> = Vec::new();
        let matches_current = match &self.host {
            Some(h) => string_eq(&h.address, &address),
            None => false,
        };
        if matches_current {
            self.host = None;
            actions.push(Action::CloseHost { address, reason });
        }
        proof {
            assert(self@ == expected.0);
            assert(actions.deep_view() =~= expected.1);
        }
        actions
    }

    /// Applies a `ClientInput` event: input from a registered client is
    /// forwarded to the current host with the sender's identity; input from
    /// an unknown address, or with no host connected, is dropped.
    pub fn handle_client_input(&mut self, address: String, content: String) -> (actions: Vec<
        Action,
    >)
        requires
            old(self)@.wf(),
        ensures
            final(self)@.wf(),
            final(self)@ == spec_client_input(old(self)@, address@, content@).0,
            actions.deep_view() == spec_client_input(old(self)@, address@, content@).1,
    {
        let ghost s0 = self@;
        let ghost expected = spec_client_input(s0, address@, content@);
        let mut actions: Vec<Action> = Vec::new();
        if let Some(i) = self.find_client(&address) {
            if let Some(h) = &self.host {
                actions.push(
                    Action::SendToHost {
                        address: h.address.clone(),
                        message: BackendMessage::Input {
                            input: content,
                            name: self.clients[i].name.clone(),
                            address,
                        },
                    },
                );
            }
        }
        proof {
            assert(self@ == expected.0);
            assert(actions.deep_view() =~= expected.1);
        }
        actions
    }

    /// The broadcast helper: one send action per registered client, in
    /// registry order.  No send is conditioned on any other, so one
    /// client's failure cannot cost another its delivery.
    pub fn write_to_all_clients(&self, msg: &BackendMessage) -> (actions: Vec<Action>)
        ensures
            actions.deep_view() == spec_broadcast(self@.clients, msg@),
    {
        let ghost expected = spec_broadcast(self@.clients, msg@);
        let mut actions: Vec<Action> = Vec::new();
        let mut i: usize = 0;
        while i < self.clients.len()
            invariant
                0 <= i <= self.clients.len(),
                expected == spec_broadcast(self@.clients, msg@),
                self@.clients.len() == self.clients.len(),
                actions.deep_view() =~= expected.take(i as int),
            decreases self.clients.len() - i,
        {
            actions.push(
                Action::SendToClient {
                    address: self.clients[i].address.clone(),
                    message: msg.clone(),
                },
            );
            proof {
                assert(expected.take(i as int + 1) =~= expected.take(i as int).push(
                    expected[i as int],
                ));
                assert(expected[i as int] == (ActionView::SendToClient {
                    address: self@.clients[i as int].address,
                    message: msg@,
                }));
            }
            assert(actions.deep_view() =~= expected.take(i as int + 1));
            i += 1;
        }
        proof {
            assert(expected.take(self.clients.len() as int) =~= expected);
        }
        actions
    }

    /// Applies a `HostUpdate` event: an update from the current host is
    /// broadcast to every registered client; the retained state is not
    /// touched.  An update from any other address, or with no clients
    /// registered, does nothing.
    pub fn handle_host_update(&mut self, address: String, content: String) -> (actions: Vec<
        Action,
    >)
        requires
            old(self)@.wf(),
        ensures
            final(self)@.wf(),
            final(self)@ == spec_host_update(old(self)@, address@, content@).0,
            actions.deep_view() == spec_host_update(old(self)@, address@, content@).1,
    {
        let ghost s0 = self@;
        let ghost expected = spec_host_update(s0, address@, content@);
        let matches_current = match &self.host {
            Some(h) => string_eq(&h.address, &address),
            None => false,
        };
        if matches_current && self.clients.len() > 0 {
            let msg = BackendMessage::Update { content };
            let actions = self.write_to_all_clients(&msg);
            assert(actions.deep_view() =~= expected.1);
            actions
        } else {
            let actions: Vec<Action> = Vec::new();
            assert(actions.deep_view() =~= expected.1);
            actions
        }
    }

    /// Applies a `HostChangeState` event: a change-state from the current
    /// host overwrites the retained state and is broadcast to every
    /// registered client, so late joiners converge without host replay.  A
    /// change from any other address does nothing.
    pub fn handle_host_change_state(&mut self, address: String, content: String) -> (actions: Vec<
        Action,
    >)
        requires
            old(self)@.wf(),
        ensures
            final(self)@.wf(),
            final(self)@ == spec_host_change_state(old(self)@, address@, content@).0,
            actions.deep_view() == spec_host_change_state(old(self)@, address@, content@).1,
    {
        let ghost s0 = self@;
        let ghost expected = spec_host_change_state(s0, address@, content@);
        let matches_current = match &self.host {
            Some(h) => string_eq(&h.address, &address),
            None => false,
        };
        if matches_current {
            let msg = BackendMessage::ChangeState { content };
            let actions = if self.clients.len() > 0 {
                self.write_to_all_clients(&msg)
            } else {
                Vec::new()
            };
            self.state = Some(msg);
            proof {
                assert(self@ == expected.0);
                assert(actions.deep_view() =~= expected.1);
            }
            actions
        } else {
            let actions: Vec<Action> = Vec::new();
            proof {
                assert(self@ == expected.0);
                assert(actions.deep_view() =~= expected.1);
            }
            actions
        }
    }

    /// Applies one internal event.  `state_delivered` reports, for a
    /// `ClientConnected` event, whether the retained state snapshot reached
    /// the new client before registration; every other event ignores it.
    pub fn handle_message(&mut self, message: InternalMessage, state_delivered: bool) -> (actions:
        Vec<Action>)
        requires
            old(self)@.wf(),
        ensures
            final(self)@.wf(),
            final(self)@ == spec_handle(old(self)@, message@, state_delivered).0,
            actions.deep_view() == spec_handle(old(self)@, message@, state_delivered).1,
    {
        match message {
            InternalMessage::ClientConnected { name, address } => self.handle_client_connected(
                name,
                address,
                state_delivered,
            ),
            InternalMessage::ClientCloseConnection { address, reason } => self
                .handle_client_close_connection(address, reason),
            InternalMessage::HostConnected { address } => self.handle_host_connected(address),
            InternalMessage::HostCloseConnection { address, reason } => self
                .handle_host_close_connection(address, reason),
            InternalMessage::ClientInput { address, content } => self.handle_client_input(
                address,
                content,
            ),
            InternalMessage::HostUpdate { address, content } => self.handle_host_update(
                address,
                content,
            ),
            InternalMessage::HostChangeState { address, content } => self.handle_host_change_state(
                address,
                content,
            ),
        }
    }
}

} // verus!
