//! Error types, each a struct that carries its kind.
//!
//! A kind names what went wrong; `message` gives the text that is shown for
//! it.

use vstd::prelude::*;
use vstd::std_specs::convert::FromSpecImpl;

verus! {

/// The specific kind of [`HandlePacketError`].
#[derive(Clone, Copy, Debug, PartialEq, Eq, Structural)]
pub enum HandlePacketErrorKind {
    /// Send packet(s) error.
    SendTo,
    /// Server must not send this packet to client.
    MustNotSend,
    /// Invalid connection ID when handling RouteResponse.
    InvalidConnectionId,
    /// Connection ID is already linked.
    AlreadyLinked,
    /// Unexpected route response packet is received.
    UnexpectedRouteResponse,
}

impl HandlePacketErrorKind {
    /// The text shown for this kind.
    pub open spec fn text(self) -> Seq<char> {
        match self {
            HandlePacketErrorKind::SendTo => "Send packet(s) error"@,
            HandlePacketErrorKind::MustNotSend => "Server must not send this packet to client"@,
            HandlePacketErrorKind::InvalidConnectionId => "Invalid connection ID when handling RouteResponse"@,
            HandlePacketErrorKind::AlreadyLinked => "Connection ID is already linked"@,
            HandlePacketErrorKind::UnexpectedRouteResponse => "Unexpected route response packet is received"@,
        }
    }

    /// The text shown for this kind, as a string.
    pub fn message(&self) -> (s: String)
        ensures
            s@ == self.text(),
    {
        match self {
            HandlePacketErrorKind::SendTo => "Send packet(s) error".to_owned(),
            HandlePacketErrorKind::MustNotSend => "Server must not send this packet to client".to_owned(),
            HandlePacketErrorKind::InvalidConnectionId => "Invalid connection ID when handling RouteResponse".to_owned(),
            HandlePacketErrorKind::AlreadyLinked => "Connection ID is already linked".to_owned(),
            HandlePacketErrorKind::UnexpectedRouteResponse => "Unexpected route response packet is received".to_owned(),
        }
    }
}

/// Error that can happen when handling a packet received from a relay.
#[derive(Debug)]
pub struct HandlePacketError {
    kind: HandlePacketErrorKind,
}

impl HandlePacketError {
    /// The kind of this error, in specifications.
    pub closed spec fn spec_kind(&self) -> HandlePacketErrorKind {
        self.kind
    }

    /// Return the kind of this error.
    pub fn kind(&self) -> (k: &HandlePacketErrorKind)
        ensures
            *k == self.spec_kind(),
    {
        &self.kind
    }

    /// The text shown for this error: that of its kind.
    pub fn message(&self) -> (s: String)
        ensures
            s@ == self.spec_kind().text(),
    {
        self.kind.message()
    }
}

impl FromSpecImpl<HandlePacketErrorKind> for HandlePacketError {
    open spec fn obeys_from_spec() -> bool {
        true
    }

    closed spec fn from_spec(kind: HandlePacketErrorKind) -> HandlePacketError {
        HandlePacketError { kind }
    }
}

impl From<HandlePacketErrorKind> for HandlePacketError {
    fn from(kind: HandlePacketErrorKind) -> (e: HandlePacketError)
        ensures
            e.spec_kind() == kind,
    {
        HandlePacketError { kind }
    }
}

/// The specific kind of [`SendPacketError`].
#[derive(Clone, Copy, Debug, PartialEq, Eq, Structural)]
pub enum SendPacketErrorKind {
    /// Send packet(s) error.
    SendTo,
    /// Send packet(s) with wrong status.
    WrongStatus,
    /// Send packet(s) with destination_pk is not online.
    NotOnline,
    /// Send packet(s) with destination_pk is not linked.
    NotLinked,
    /// Send packet(s) to a connection but no such connection.
    NoSuchConnection,
    /// Send packet(s) to a TimeOut.
    TimeOut,
}

impl SendPacketErrorKind {
    /// The text shown for this kind.
    pub open spec fn text(self) -> Seq<char> {
        match self {
            SendPacketErrorKind::SendTo => "Send packet(s) error"@,
            SendPacketErrorKind::WrongStatus => "Send packet(s) with wrong status"@,
            SendPacketErrorKind::NotOnline => "Send packet(s) with destination_pk is not online"@,
            SendPacketErrorKind::NotLinked => "Send packet(s) with destination_pk is not linked"@,
            SendPacketErrorKind::NoSuchConnection => "Send packet(s) to a connection but no such connection"@,
            SendPacketErrorKind::TimeOut => "Send packet(s) to a TimeOut"@,
        }
    }

    /// The text shown for this kind, as a string.
    pub fn message(&self) -> (s: String)
        ensures
            s@ == self.text(),
    {
        match self {
            SendPacketErrorKind::SendTo => "Send packet(s) error".to_owned(),
            SendPacketErrorKind::WrongStatus => "Send packet(s) with wrong status".to_owned(),
            SendPacketErrorKind::NotOnline => "Send packet(s) with destination_pk is not online".to_owned(),
            SendPacketErrorKind::NotLinked => "Send packet(s) with destination_pk is not linked".to_owned(),
            SendPacketErrorKind::NoSuchConnection => "Send packet(s) to a connection but no such connection".to_owned(),
            SendPacketErrorKind::TimeOut => "Send packet(s) to a TimeOut".to_owned(),
        }
    }
}

/// Error that can happen when sending a packet.
#[derive(Debug)]
pub struct SendPacketError {
    kind: SendPacketErrorKind,
}

impl SendPacketError {
    /// The kind of this error, in specifications.
    pub closed spec fn spec_kind(&self) -> SendPacketErrorKind {
        self.kind
    }

    /// Return the kind of this error.
    pub fn kind(&self) -> (k: &SendPacketErrorKind)
        ensures
            *k == self.spec_kind(),
    {
        &self.kind
    }

    /// The text shown for this error: that of its kind.
    pub fn message(&self) -> (s: String)
        ensures
            s@ == self.spec_kind().text(),
    {
        self.kind.message()
    }
}

impl FromSpecImpl<SendPacketErrorKind> for SendPacketError {
    open spec fn obeys_from_spec() -> bool {
        true
    }

    closed spec fn from_spec(kind: SendPacketErrorKind) -> SendPacketError {
        SendPacketError { kind }
    }
}

impl From<SendPacketErrorKind> for SendPacketError {
    fn from(kind: SendPacketErrorKind) -> (e: SendPacketError)
        ensures
            e.spec_kind() == kind,
    {
        SendPacketError { kind }
    }
}

/// The specific kind of [`SpawnError`].
#[derive(Clone, Copy, Debug, PartialEq, Eq, Structural)]
pub enum SpawnErrorKind {
    /// Read socket to receive packet error.
    ReadSocket,
    /// Send packet(s) error.
    SendTo,
    /// Handle packet(s) error.
    HandlePacket,
    /// Tcp client io error.
    Io,
    /// Tcp codec encode error.
    Encode,
}

impl SpawnErrorKind {
    /// The text shown for this kind.
    pub open spec fn text(self) -> Seq<char> {
        match self {
            SpawnErrorKind::ReadSocket => "Read socket to receive packet error"@,
            SpawnErrorKind::SendTo => "Send packet(s) error"@,
            SpawnErrorKind::HandlePacket => "Handle packet(s) error"@,
            SpawnErrorKind::Io => "Tcp client io error"@,
            SpawnErrorKind::Encode => "Tcp codec encode error"@,
        }
    }

    /// The text shown for this kind, as a string.
    pub fn message(&self) -> (s: String)
        ensures
            s@ == self.text(),
    {
        match self {
            SpawnErrorKind::ReadSocket => "Read socket to receive packet error".to_owned(),
            SpawnErrorKind::SendTo => "Send packet(s) error".to_owned(),
            SpawnErrorKind::HandlePacket => "Handle packet(s) error".to_owned(),
            SpawnErrorKind::Io => "Tcp client io error".to_owned(),
            SpawnErrorKind::Encode => "Tcp codec encode error".to_owned(),
        }
    }
}

/// Error that can happen when a connection to a relay is run.
#[derive(Debug)]
pub struct SpawnError {
    kind: SpawnErrorKind,
}

impl SpawnError {
    /// The kind of this error, in specifications.
    pub closed spec fn spec_kind(&self) -> SpawnErrorKind {
        self.kind
    }

    /// Return the kind of this error.
    pub fn kind(&self) -> (k: &SpawnErrorKind)
        ensures
            *k == self.spec_kind(),
    {
        &self.kind
    }

    /// The text shown for this error: that of its kind.
    pub fn message(&self) -> (s: String)
        ensures
            s@ == self.spec_kind().text(),
    {
        self.kind.message()
    }
}

impl FromSpecImpl<SpawnErrorKind> for SpawnError {
    open spec fn obeys_from_spec() -> bool {
        true
    }

    closed spec fn from_spec(kind: SpawnErrorKind) -> SpawnError {
        SpawnError { kind }
    }
}

impl From<SpawnErrorKind> for SpawnError {
    fn from(kind: SpawnErrorKind) -> (e: SpawnError)
        ensures
            e.spec_kind() == kind,
    {
        SpawnError { kind }
    }
}

/// The specific kind of [`PacketError`].
#[derive(Clone, Copy, Debug, PartialEq, Eq, Structural)]
pub enum PacketErrorKind {
    /// to_bytes err.
    PackErr,
    /// from_bytes err.
    UnPackErr,
}

impl PacketErrorKind {
    /// The text shown for this kind.
    pub open spec fn text(self) -> Seq<char> {
        match self {
            PacketErrorKind::PackErr => "to_bytes err"@,
            PacketErrorKind::UnPackErr => "from_bytes err"@,
        }
    }

    /// The text shown for this kind, as a string.
    pub fn message(&self) -> (s: String)
        ensures
            s@ == self.text(),
    {
        match self {
            PacketErrorKind::PackErr => "to_bytes err".to_owned(),
            PacketErrorKind::UnPackErr => "from_bytes err".to_owned(),
        }
    }
}

/// Error that can happen when a packet is turned into bytes or back.
#[derive(Debug)]
pub struct PacketError {
    kind: PacketErrorKind,
}

impl PacketError {
    /// The kind of this error, in specifications.
    pub closed spec fn spec_kind(&self) -> PacketErrorKind {
        self.kind
    }

    /// Return the kind of this error.
    pub fn kind(&self) -> (k: &PacketErrorKind)
        ensures
            *k == self.spec_kind(),
    {
        &self.kind
    }

    /// The text shown for this error: that of its kind.
    pub fn message(&self) -> (s: String)
        ensures
            s@ == self.spec_kind().text(),
    {
        self.kind.message()
    }
}

impl FromSpecImpl<PacketErrorKind> for PacketError {
    open spec fn obeys_from_spec() -> bool {
        true
    }

    closed spec fn from_spec(kind: PacketErrorKind) -> PacketError {
        PacketError { kind }
    }
}

impl From<PacketErrorKind> for PacketError {
    fn from(kind: PacketErrorKind) -> (e: PacketError)
        ensures
            e.spec_kind() == kind,
    {
        PacketError { kind }
    }
}

/// The specific kind of [`ConnectionError`].
#[derive(Clone, Copy, Debug, PartialEq, Eq, Structural)]
pub enum ConnectionErrorKind {
    /// Spawing after adding global connection error.
    Spawn,
    /// Search relay by relay's PK, but no such relay.
    NoSuchRelay,
    /// Send packet(s) error.
    SendTo,
    /// No connection to the node.
    NoConnection,
    /// Relay is not connected.
    NotConnected,
    /// Tcp Connections wakeup timer error.
    Wakeup,
    /// Add connection to client error.
    AddConnection,
}

impl ConnectionErrorKind {
    /// The text shown for this kind.
    pub open spec fn text(self) -> Seq<char> {
        match self {
            ConnectionErrorKind::Spawn => "Spawing after adding global connection error"@,
            ConnectionErrorKind::NoSuchRelay => "Search relay by relay's PK, but no such relay"@,
            ConnectionErrorKind::SendTo => "Send packet(s) error"@,
            ConnectionErrorKind::NoConnection => "No connection to the node"@,
            ConnectionErrorKind::NotConnected => "Relay is not connected"@,
            ConnectionErrorKind::Wakeup => "Tcp Connections wakeup timer error"@,
            ConnectionErrorKind::AddConnection => "Add connection to client error"@,
        }
    }

    /// The text shown for this kind, as a string.
    pub fn message(&self) -> (s: String)
        ensures
            s@ == self.text(),
    {
        match self {
            ConnectionErrorKind::Spawn => "Spawing after adding global connection error".to_owned(),
            ConnectionErrorKind::NoSuchRelay => "Search relay by relay's PK, but no such relay".to_owned(),
            ConnectionErrorKind::SendTo => "Send packet(s) error".to_owned(),
            ConnectionErrorKind::NoConnection => "No connection to the node".to_owned(),
            ConnectionErrorKind::NotConnected => "Relay is not connected".to_owned(),
            ConnectionErrorKind::Wakeup => "Tcp Connections wakeup timer error".to_owned(),
            ConnectionErrorKind::AddConnection => "Add connection to client error".to_owned(),
        }
    }
}

/// Error that can happen when handling the pool of relay connections.
#[derive(Debug)]
pub struct ConnectionError {
    kind: ConnectionErrorKind,
}

impl ConnectionError {
    /// The kind of this error, in specifications.
    pub closed spec fn spec_kind(&self) -> ConnectionErrorKind {
        self.kind
    }

    /// Return the kind of this error.
    pub fn kind(&self) -> (k: &ConnectionErrorKind)
        ensures
            *k == self.spec_kind(),
    {
        &self.kind
    }

    /// The text shown for this error: that of its kind.
    pub fn message(&self) -> (s: String)
        ensures
            s@ == self.spec_kind().text(),
    {
        self.kind.message()
    }
}

impl FromSpecImpl<ConnectionErrorKind> for ConnectionError {
    open spec fn obeys_from_spec() -> bool {
        true
    }

    closed spec fn from_spec(kind: ConnectionErrorKind) -> ConnectionError {
        ConnectionError { kind }
    }
}

impl From<ConnectionErrorKind> for ConnectionError {
    fn from(kind: ConnectionErrorKind) -> (e: ConnectionError)
        ensures
            e.spec_kind() == kind,
    {
        ConnectionError { kind }
    }
}

} // verus!
