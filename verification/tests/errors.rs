use failure::{Backtrace, Context, Fail};
use rust_network::errors::{
    ConnectionError, ConnectionErrorKind, HandlePacketError, HandlePacketErrorKind, PacketError,
    PacketErrorKind, SendPacketError, SendPacketErrorKind, SpawnError, SpawnErrorKind,
};
use std::fmt;

#[derive(Clone, Debug, Eq, PartialEq)]
enum TestErrorKind {
    Variant1,
    Variant2,
}

impl fmt::Display for TestErrorKind {
    fn fmt(&self, f: &mut fmt::Formatter) -> fmt::Result {
        match self {
            TestErrorKind::Variant1 => f.write_str("Variant1"),
            TestErrorKind::Variant2 => f.write_str("Variant2"),
        }
    }
}

impl Fail for TestErrorKind {}

#[derive(Debug)]
struct TestError {
    ctx: Context<TestErrorKind>,
}

impl TestError {
    fn kind(&self) -> &TestErrorKind {
        self.ctx.get_context()
    }
}

impl Fail for TestError {
    fn cause(&self) -> Option<&dyn Fail> {
        self.ctx.cause()
    }

    fn backtrace(&self) -> Option<&Backtrace> {
        self.ctx.backtrace()
    }
}

impl fmt::Display for TestError {
    fn fmt(&self, f: &mut fmt::Formatter) -> fmt::Result {
        self.ctx.fmt(f)
    }
}

impl From<TestErrorKind> for TestError {
    fn from(kind: TestErrorKind) -> TestError {
        TestError { ctx: Context::new(kind) }
    }
}

#[test]
fn test_error() {
    assert_eq!(format!("{}", TestErrorKind::Variant1), "Variant1".to_owned());
    assert_eq!(format!("{}", TestErrorKind::Variant2), "Variant2".to_owned());
    assert_eq!(PacketErrorKind::PackErr.message(), "to_bytes err".to_owned());
    assert_eq!(PacketErrorKind::UnPackErr.message(), "from_bytes err".to_owned());
}

#[test]
fn test_error_variant_1() {
    let error = TestError::from(TestErrorKind::Variant1);
    assert_eq!(error.kind(), &TestErrorKind::Variant1);
    assert!(error.cause().is_none());
    assert!(error.backtrace().is_some());
    assert_eq!(format!("{}", error), "Variant1".to_owned());

    let error = PacketError::from(PacketErrorKind::PackErr);
    assert_eq!(error.kind(), &PacketErrorKind::PackErr);
    assert_eq!(error.message(), "to_bytes err".to_owned());
}

#[test]
fn test_error_variant_2() {
    let error = TestError::from(TestErrorKind::Variant2);
    assert_eq!(error.kind(), &TestErrorKind::Variant2);
    assert!(error.cause().is_none());
    assert!(error.backtrace().is_some());
    assert_eq!(format!("{}", error), "Variant2".to_owned());

    let error = PacketError::from(PacketErrorKind::UnPackErr);
    assert_eq!(error.kind(), &PacketErrorKind::UnPackErr);
    assert_eq!(error.message(), "from_bytes err".to_owned());
}

#[test]
fn error_carries_its_kind() {
    let error = SendPacketError::from(SendPacketErrorKind::TimeOut);
    assert_eq!(error.kind(), &SendPacketErrorKind::TimeOut);
    assert_eq!(error.message(), "Send packet(s) to a TimeOut".to_owned());
    let error = PacketError::from(PacketErrorKind::UnPackErr);
    assert_eq!(error.kind(), &PacketErrorKind::UnPackErr);
    assert_eq!(error.message(), "from_bytes err".to_owned());
    let error = SpawnError::from(SpawnErrorKind::Io);
    assert_eq!(error.kind(), &SpawnErrorKind::Io);
    let error = HandlePacketError::from(HandlePacketErrorKind::SendTo);
    assert_eq!(error.kind(), &HandlePacketErrorKind::SendTo);
    let error = ConnectionError::from(ConnectionErrorKind::Spawn);
    assert_eq!(error.kind(), &ConnectionErrorKind::Spawn);
}

#[test]
fn kind_messages() {
    assert_eq!(PacketErrorKind::PackErr.message(), "to_bytes err");
    assert_eq!(SendPacketErrorKind::WrongStatus.message(), "Send packet(s) with wrong status");
    assert_eq!(SendPacketErrorKind::SendTo.message(), "Send packet(s) error");
    assert_eq!(SpawnErrorKind::ReadSocket.message(), "Read socket to receive packet error");
    assert_eq!(SpawnErrorKind::Encode.message(), "Tcp codec encode error");
    assert_eq!(HandlePacketErrorKind::AlreadyLinked.message(), "Connection ID is already linked");
    assert_eq!(ConnectionErrorKind::NotConnected.message(), "Relay is not connected");
    assert_eq!(ConnectionErrorKind::Wakeup.message(), "Tcp Connections wakeup timer error");
}
