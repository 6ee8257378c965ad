//! Decision logic for the per-connection reader tasks and the login
//! handshake.
//!
//! The surrounding tasks own the blocking receive loops; each decoded frame
//! (or end of stream, passed as `None`) is handed to one of these functions,
//! which decides the event to post and whether the loop terminates.  A frame
//! that merely failed to decode never reaches them: it is dropped and the
//! loop continues.

use vstd::prelude::*;
use crate::messages::{ClientMessage, ClientMessageView, HostMessage, HostMessageView};
use crate::server::{DisconnectReason, InternalMessage, InternalMessageView};

verus! {

/// What the login loop does with one received message.
pub enum LoginStep {
    /// Login succeeded under this display name: register the client.
    LoggedIn { name: String },
    /// Close the connection with this reason; the client never registers.
    Close { reason: DisconnectReason },
    /// Drop the message with a warning and keep waiting for the login.
    Continue,
}

/// Mathematical model of a login decision.
pub enum LoginStepView {
    LoggedIn { name: Seq<char> },
    Close { reason: DisconnectReason },
    Continue,
}

impl View for LoginStep {
    type V = LoginStepView;

    open spec fn view(&self) -> LoginStepView {
        match self {
            LoginStep::LoggedIn { name } => LoginStepView::LoggedIn { name: name@ },
            LoginStep::Close { reason } => LoginStepView::Close { reason: *reason },
            LoginStep::Continue => LoginStepView::Continue,
        }
    }
}

impl DeepView for LoginStep {
    type V = LoginStepView;

    open spec fn deep_view(&self) -> LoginStepView {
        self.view()
    }
}

/// The login decision: only `ClientLogin` admits the client; a `Disconnect`
/// or the end of the stream closes the connection before it was ever
/// registered; anything else is dropped and the loop keeps waiting.
pub open spec fn spec_login_step(m: Option<ClientMessageView>) -> LoginStepView {
    match m {
        None => LoginStepView::Close { reason: DisconnectReason::ClientForceful },
        Some(ClientMessageView::ClientLogin { name }) => LoginStepView::LoggedIn { name },
        Some(ClientMessageView::Disconnect { reason }) => LoginStepView::Close {
            reason: DisconnectReason::ClientGraceful,
        },
        Some(ClientMessageView::Input { content }) => LoginStepView::Continue,
    }
}

/// Decides one step of the login handshake.
pub fn login_step(msg: Option<ClientMessage>) -> (r: LoginStep)
    ensures
        r.deep_view() == spec_login_step(msg.deep_view()),
{
    match msg {
        None => LoginStep::Close { reason: DisconnectReason::ClientForceful },
        Some(ClientMessage::ClientLogin { name }) => LoginStep::LoggedIn { name },
        Some(ClientMessage::Disconnect { reason: _ }) => LoginStep::Close {
            reason: DisconnectReason::ClientGraceful,
        },
        Some(ClientMessage::Input { content: _ }) => LoginStep::Continue,
    }
}

/// What a reader loop does after one received message: the event it posts
/// to the actor, and whether the loop terminates.
pub struct ReaderStep {
    pub event: InternalMessage,
    pub stop: bool,
}

/// Mathematical model of a reader decision.
pub struct ReaderStepView {
    pub event: InternalMessageView,
    pub stop: bool,
}

impl View for ReaderStep {
    type V = ReaderStepView;

    open spec fn view(&self) -> ReaderStepView {
        ReaderStepView { event: self.event@, stop: self.stop }
    }
}

impl DeepView for ReaderStep {
    type V = ReaderStepView;

    open spec fn deep_view(&self) -> ReaderStepView {
        self.view()
    }
}

/// The decision for a logged-in client's reader: input is forwarded; a
/// `Disconnect` or the end of the stream closes the connection; a second
/// `ClientLogin` is a protocol violation and also closes it.
pub open spec fn spec_client_reader_step(
    address: Seq<char>,
    m: Option<ClientMessageView>,
) -> ReaderStepView {
    match m {
        None => ReaderStepView {
            event: InternalMessageView::ClientCloseConnection {
                address,
                reason: DisconnectReason::ClientForceful,
            },
            stop: true,
        },
        Some(ClientMessageView::ClientLogin { name }) => ReaderStepView {
            event: InternalMessageView::ClientCloseConnection {
                address,
                reason: DisconnectReason::Violation,
            },
            stop: true,
        },
        Some(ClientMessageView::Disconnect { reason }) => ReaderStepView {
            event: InternalMessageView::ClientCloseConnection {
                address,
                reason: DisconnectReason::ClientGraceful,
            },
            stop: true,
        },
        Some(ClientMessageView::Input { content }) => ReaderStepView {
            event: InternalMessageView::ClientInput { address, content },
            stop: false,
        },
    }
}

/// Decides one step of a logged-in client's reader loop.
pub fn client_reader_step(address: String, msg: Option<ClientMessage>) -> (r: ReaderStep)
    ensures
        r@ == spec_client_reader_step(address@, msg.deep_view()),
{
    match msg {
        None => ReaderStep {
            event: InternalMessage::ClientCloseConnection {
                address,
                reason: DisconnectReason::ClientForceful,
            },
            stop: true,
        },
        Some(ClientMessage::ClientLogin { name: _ }) => ReaderStep {
            event: InternalMessage::ClientCloseConnection {
                address,
                reason: DisconnectReason::Violation,
            },
            stop: true,
        },
        Some(ClientMessage::Disconnect { reason: _ }) => ReaderStep {
            event: InternalMessage::ClientCloseConnection {
                address,
                reason: DisconnectReason::ClientGraceful,
            },
            stop: true,
        },
        Some(ClientMessage::Input { content }) => ReaderStep {
            event: InternalMessage::ClientInput { address, content },
            stop: false,
        },
    }
}

/// The decision for the host's reader: updates and state changes are
/// forwarded; a `Disconnect` or the end of the stream closes the host.
pub open spec fn spec_host_reader_step(
    address: Seq<char>,
    m: Option<HostMessageView>,
) -> ReaderStepView {
    match m {
        None => ReaderStepView {
            event: InternalMessageView::HostCloseConnection {
                address,
                reason: DisconnectReason::HostForceful,
            },
            stop: true,
        },
        Some(HostMessageView::Disconnect { reason }) => ReaderStepView {
            event: InternalMessageView::HostCloseConnection {
                address,
                reason: DisconnectReason::HostGraceful,
            },
            stop: true,
        },
        Some(HostMessageView::Update { content }) => ReaderStepView {
            event: InternalMessageView::HostUpdate { address, content },
            stop: false,
        },
        Some(HostMessageView::ChangeState { content }) => ReaderStepView {
            event: InternalMessageView::HostChangeState { address, content },
            stop: false,
        },
    }
}

/// Decides one step of the host's reader loop.
pub fn host_reader_step(address: String, msg: Option<HostMessage>) -> (r: ReaderStep)
    ensures
        r@ == spec_host_reader_step(address@, msg.deep_view()),
{
    match msg {
        None => ReaderStep {
            event: InternalMessage::HostCloseConnection {
                address,
                reason: DisconnectReason::HostForceful,
            },
            stop: true,
        },
        Some(HostMessage::Disconnect { reason: _ }) => ReaderStep {
            event: InternalMessage::HostCloseConnection {
                address,
                reason: DisconnectReason::HostGraceful,
            },
            stop: true,
        },
        Some(HostMessage::Update { content }) => ReaderStep {
            event: InternalMessage::HostUpdate { address, content },
            stop: false,
        },
        Some(HostMessage::ChangeState { content }) => ReaderStep {
            event: InternalMessage::HostChangeState { address, content },
            stop: false,
        },
    }
}

} // verus!
