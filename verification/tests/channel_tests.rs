//! The channel model: connect rules, whole-message delivery, closing,
//! and the bounded connect retry.

use autopower::channel::{Client, Pipe, Read, Registry, Server, Write};
use autopower::errors::ChannelError;
use autopower::retry::ConnectRetry;

#[test]
fn server_must_exist_before_client_connects() {
    let mut reg = Registry::new();
    let r = Pipe::<Client, Read>::create_client(&mut reg, "T1");
    assert_eq!(r.err().unwrap(), ChannelError::ServerNotFound);
}

#[test]
fn create_server_rejects_name_in_use() {
    let mut reg = Registry::new();
    Pipe::<Server, Write>::create_server(&mut reg, "T1", 1024).unwrap();
    let again = Pipe::<Server, Write>::create_server(&mut reg, "T1", 1024);
    assert_eq!(again.err().unwrap(), ChannelError::NameInUse);
}

#[test]
fn single_peer_and_matching_direction() {
    let mut reg = Registry::new();
    let server = Pipe::<Server, Write>::create_server(&mut reg, "T1", 1024).unwrap();
    // Accepting before any client has connected reports no peer.
    assert_eq!(server.connect(&reg).err().unwrap(), ChannelError::NoPeer);
    // A client must take the opposite direction of the server end.
    let wrong = Pipe::<Client, Write>::create_client(&mut reg, "T1");
    assert_eq!(wrong.err().unwrap(), ChannelError::AccessDenied);
    let _client = Pipe::<Client, Read>::create_client(&mut reg, "T1").unwrap();
    assert!(server.connect(&reg).is_ok());
    // The one peer slot is taken now.
    let second = Pipe::<Client, Read>::create_client(&mut reg, "T1");
    assert_eq!(second.err().unwrap(), ChannelError::ServerBusy);
}

#[test]
fn write_requires_connected_peer_and_fitting_message() {
    let mut reg = Registry::new();
    let server = Pipe::<Server, Write>::create_server(&mut reg, "T1", 4).unwrap();
    assert_eq!(
        server.write(&mut reg, &[1, 2, 3]).err().unwrap(),
        ChannelError::NotConnected
    );
    let _client = Pipe::<Client, Read>::create_client(&mut reg, "T1").unwrap();
    assert!(server.write(&mut reg, &[1, 2, 3]).is_ok());
    assert_eq!(
        server.write(&mut reg, &[1, 2, 3, 4, 5]).err().unwrap(),
        ChannelError::MessageTooLarge
    );
}

#[test]
fn messages_arrive_whole_and_in_order() {
    let mut reg = Registry::new();
    let server = Pipe::<Server, Write>::create_server(&mut reg, "T1", 1024).unwrap();
    let client = Pipe::<Client, Read>::create_client(&mut reg, "T1").unwrap();
    server.write(&mut reg, b"first message").unwrap();
    server.write(&mut reg, b"second").unwrap();
    assert_eq!(client.pending_messages(&reg), 2);
    assert_eq!(client.read(&mut reg).unwrap(), b"first message");
    assert_eq!(client.read(&mut reg).unwrap(), b"second");
    assert_eq!(client.pending_messages(&reg), 0);
}

#[test]
fn independent_channels_do_not_interfere() {
    let mut reg = Registry::new();
    let server_a = Pipe::<Server, Write>::create_server(&mut reg, "A", 1024).unwrap();
    let server_b = Pipe::<Server, Write>::create_server(&mut reg, "B", 1024).unwrap();
    let client_a = Pipe::<Client, Read>::create_client(&mut reg, "A").unwrap();
    let client_b = Pipe::<Client, Read>::create_client(&mut reg, "B").unwrap();
    server_a.write(&mut reg, b"for A").unwrap();
    // A concurrent unrelated write on the other channel instance.
    server_b.write(&mut reg, b"noise").unwrap();
    server_b.write(&mut reg, b"more noise").unwrap();
    assert_eq!(client_a.pending_messages(&reg), 1);
    assert_eq!(client_a.read(&mut reg).unwrap(), b"for A");
    assert_eq!(client_b.pending_messages(&reg), 2);
    assert_eq!(client_b.read(&mut reg).unwrap(), b"noise");
}

#[test]
fn close_is_idempotent_and_fails_io() {
    let mut reg = Registry::new();
    let server = Pipe::<Server, Write>::create_server(&mut reg, "T1", 1024).unwrap();
    let client = Pipe::<Client, Read>::create_client(&mut reg, "T1").unwrap();
    server.close(&mut reg);
    assert!(server.is_closed(&reg));
    server.close(&mut reg);
    assert!(server.is_closed(&reg));
    assert_eq!(
        server.write(&mut reg, &[1]).err().unwrap(),
        ChannelError::Closed
    );
    assert_eq!(client.read(&mut reg).err().unwrap(), ChannelError::Closed);
}

#[test]
fn retry_performs_all_attempts_and_keeps_first_error() {
    // Against an always-failing peer, every allowed attempt is made and
    // the error reported is the first attempt's, not the last's.
    let n = 5u32;
    let mut schedule = ConnectRetry::new(n);
    let mut attempts = 0u32;
    loop {
        let e = if attempts == 0 {
            ChannelError::ServerNotFound
        } else {
            ChannelError::ServerBusy
        };
        attempts += 1;
        schedule.record_failure(e);
        if schedule.exhausted() {
            break;
        }
    }
    assert_eq!(attempts, n);
    assert_eq!(schedule.into_error(), ChannelError::ServerNotFound);
}

#[test]
fn retrying_connect_fails_with_first_error_when_no_server_appears() {
    let mut reg = Registry::new();
    let r = Pipe::<Client, Read>::create_client_retrying(&mut reg, "T1", 15);
    assert_eq!(r.err().unwrap(), ChannelError::ServerNotFound);
}

#[test]
fn client_started_before_server_succeeds_within_retry_budget() {
    // The client side begins first and its first attempt fails; the
    // server appears while the client is still within its retry budget,
    // and a later attempt succeeds.
    let mut reg = Registry::new();
    let mut schedule = ConnectRetry::new(15);
    let first = Pipe::<Client, Read>::create_client(&mut reg, "T1");
    schedule.record_failure(first.err().unwrap());
    assert!(!schedule.exhausted());
    // 200 ms later the server publishes the channel.
    let server = Pipe::<Server, Write>::create_server(&mut reg, "T1", 1024).unwrap();
    let client = Pipe::<Client, Read>::create_client_retrying(&mut reg, "T1", 14).unwrap();
    assert!(server.connect(&reg).is_ok());
    server.write(&mut reg, b"hello").unwrap();
    assert_eq!(client.read(&mut reg).unwrap(), b"hello");
}
