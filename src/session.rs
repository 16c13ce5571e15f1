use vstd::prelude::*;

use crate::error::Error;

verus! {

/// The application protocol name every secured session is pinned to.
pub const ALPN_PROTOCOL: &'static str = "nearbysend";

/// The state of the single session a manager holds.
#[derive(Clone, Copy, Debug, PartialEq, Eq, Structural)]
pub enum ConnectionStatus {
    Disconnected,
    Connecting,
    Connected,
    Failed,
}

/// The session manager's state machine. It holds at most one session; the
/// channel itself stays with the caller, which moves bytes only while the
/// status is `Connected`.
pub struct SessionManager {
    status: ConnectionStatus,
}

impl View for SessionManager {
    type V = ConnectionStatus;

    closed spec fn view(&self) -> ConnectionStatus {
        self.status
    }
}

impl SessionManager {
    pub fn new() -> (r: SessionManager)
        ensures
            r@ == ConnectionStatus::Disconnected,
    {
        SessionManager { status: ConnectionStatus::Disconnected }
    }

    /// A connect attempt supersedes whatever session was held.
    pub fn begin_connect(&mut self)
        ensures
            final(self)@ == ConnectionStatus::Connecting,
    {
        self.status = ConnectionStatus::Connecting;
    }

    /// The outcome of the attempt begun last: the secured channel is up, or
    /// the transport or the handshake failed.
    pub fn finish_connect(&mut self, established: bool)
        requires
            old(self)@ == ConnectionStatus::Connecting,
        ensures
            final(self)@ == if established { ConnectionStatus::Connected } else { ConnectionStatus::Failed },
    {
        self.status = if established { ConnectionStatus::Connected } else { ConnectionStatus::Failed };
    }

    /// An inbound connection was accepted; it supersedes the one held.
    pub fn accept_inbound(&mut self)
        ensures
            final(self)@ == ConnectionStatus::Connected,
    {
        self.status = ConnectionStatus::Connected;
    }

    /// A fatal I/O error ends the session.
    pub fn on_transport_error(&mut self)
        ensures
            final(self)@ == ConnectionStatus::Disconnected,
    {
        self.status = ConnectionStatus::Disconnected;
    }

    /// Whether bytes may be moved: only over a connected session.
    pub fn require_connection(&self) -> (r: Result<(), Error>)
        ensures
            self@ == ConnectionStatus::Connected <==> r is Ok,
            r is Err ==> r matches Err(Error::NoActiveConnection),
    {
        if self.status == ConnectionStatus::Connected {
            Ok(())
        } else {
            Err(Error::NoActiveConnection)
        }
    }
}

/// Ends the session held by `session`, if any.
pub fn disconnect(session: &mut SessionManager) -> (r: Result<(), Error>)
    ensures
        r is Ok,
        final(session)@ == ConnectionStatus::Disconnected,
{
    session.status = ConnectionStatus::Disconnected;
    Ok(())
}

pub fn get_connection_status(session: &SessionManager) -> (r: Result<ConnectionStatus, Error>)
    ensures
        r == Ok::<ConnectionStatus, Error>(session@),
{
    Ok(session.status)
}

/// The ports to try binding, in order: the one asked for, then an
/// ephemeral one (port 0) chosen by the system.
pub fn listen_ports(requested: u16) -> (r: Vec<u16>)
    ensures
        requested == 0 ==> r@ == seq![0u16],
        requested != 0 ==> r@ == seq![requested, 0u16],
{
    if requested == 0 {
        vec![0u16]
    } else {
        vec![requested, 0u16]
    }
}

} // verus!
