use muxcore::addr::Multiaddr;
use muxcore::muxing::{Connection, MuxError, MuxPoll, Shutdown};
use muxcore::yamux::{Config, Yamux};

fn connection() -> Connection {
    Connection { remote_addr: Multiaddr::new(vec![4, 127, 0, 0, 1]) }
}

fn client() -> Yamux {
    Config::new().upgrade_outbound(connection(), ())
}

fn server() -> Yamux {
    Config::new().upgrade_inbound(connection(), ())
}

#[test]
fn outbound_substreams_get_distinct_ids() {
    let mut m = client();
    let h1 = m.open_outbound();
    let h2 = m.open_outbound();
    let h3 = m.open_outbound();
    // Poll in an order other than the opens.
    let r2 = m.poll_outbound(h2);
    let r1 = m.poll_outbound(h1);
    let r3 = m.poll_outbound(h3);
    let ids: Vec<u64> = [r2, r1, r3]
        .into_iter()
        .map(|r| match r {
            MuxPoll::Ready(id) => id,
            other => panic!("expected a substream, got {:?}", other),
        })
        .collect();
    assert_eq!(ids, vec![1, 3, 5], "client identifiers are odd and fresh");
    assert!(ids[0] != ids[1] && ids[1] != ids[2] && ids[0] != ids[2]);
    // Each is independently closable.
    for id in ids {
        assert_eq!(m.shutdown_substream(id, Shutdown::Both), MuxPoll::Ready(()));
        m.destroy_substream(id);
    }
}

#[test]
fn server_outbound_ids_are_even() {
    let mut m = server();
    let h = m.open_outbound();
    assert_eq!(m.poll_outbound(h), MuxPoll::Ready(2));
}

#[test]
fn destroyed_substream_operations_fail() {
    let mut m = client();
    let h = m.open_outbound();
    let s = match m.poll_outbound(h) {
        MuxPoll::Ready(s) => s,
        other => panic!("expected a substream, got {:?}", other),
    };
    m.destroy_substream(s);
    assert_eq!(m.read_substream(s, 16), MuxPoll::Failed(MuxError::Stale));
    assert_eq!(m.write_substream(s, b"x"), MuxPoll::Failed(MuxError::Stale));
    assert_eq!(m.flush_substream(s), MuxPoll::Failed(MuxError::Stale));
    assert_eq!(m.shutdown_substream(s, Shutdown::Write), MuxPoll::Failed(MuxError::Stale));
    // An identifier this multiplexer never handed out is stale too.
    assert_eq!(m.read_substream(99, 16), MuxPoll::Failed(MuxError::Stale));
}

#[test]
fn graceful_close_yields_end_forever() {
    let mut m = server();
    m.inject_remote_open();
    m.inject_remote_close();
    // An orderly end is reported as end-of-sequence, never as an error,
    // and the terminal state is idempotent.
    assert_eq!(m.poll_inbound(), MuxPoll::End);
    assert_eq!(m.poll_inbound(), MuxPoll::End);
    // A failure arriving after the orderly end does not overwrite it.
    m.inject_error(9);
    assert_eq!(m.poll_inbound(), MuxPoll::End);
}

#[test]
fn connection_error_is_sticky() {
    let mut m = server();
    // One live inbound substream...
    m.inject_remote_open();
    let s = match m.poll_inbound() {
        MuxPoll::Ready(s) => s,
        other => panic!("expected a substream, got {:?}", other),
    };
    // ...and one outbound open still pending.
    let h = m.open_outbound();
    m.inject_error(42);
    let failure: MuxPoll<u64> = MuxPoll::Failed(MuxError::Connection(42));
    assert_eq!(m.poll_inbound(), failure);
    assert_eq!(m.poll_inbound(), failure);
    assert_eq!(m.poll_outbound(h), failure);
    assert_eq!(m.poll_outbound(h), failure);
    assert_eq!(m.read_substream(s, 16), MuxPoll::Failed(MuxError::Connection(42)));
    assert_eq!(m.write_substream(s, b"x"), MuxPoll::Failed(MuxError::Connection(42)));
    assert_eq!(m.flush_substream(s), MuxPoll::Failed(MuxError::Connection(42)));
    assert_eq!(m.shutdown_substream(s, Shutdown::Both), MuxPoll::Failed(MuxError::Connection(42)));
    assert_eq!(m.shutdown(Shutdown::Both), MuxPoll::Failed(MuxError::Connection(42)));
    assert_eq!(m.flush_all(), MuxPoll::Failed(MuxError::Connection(42)));
}

#[test]
fn substream_isolation() {
    let mut m = client();
    let h1 = m.open_outbound();
    let h2 = m.open_outbound();
    let (s1, s2) = match (m.poll_outbound(h1), m.poll_outbound(h2)) {
        (MuxPoll::Ready(a), MuxPoll::Ready(b)) => (a, b),
        other => panic!("expected two substreams, got {:?}", other),
    };
    // Writes land in the buffer of the written substream and no other.
    assert_eq!(m.write_substream(s1, b"first"), MuxPoll::Ready(5));
    assert_eq!(m.write_substream(s2, b"second"), MuxPoll::Ready(6));
    assert_eq!(m.take_outgoing(s1), b"first".to_vec());
    assert_eq!(m.take_outgoing(s2), b"second".to_vec());
    // Deliveries land in the buffer of the addressed substream and no other.
    m.inject_data(s1, b"alpha");
    m.inject_data(s2, b"beta");
    assert_eq!(m.read_substream(s2, 64), MuxPoll::Ready(b"beta".to_vec()));
    assert_eq!(m.read_substream(s1, 64), MuxPoll::Ready(b"alpha".to_vec()));
    // Both buffers are now drained independently.
    assert_eq!(m.read_substream(s1, 64), MuxPoll::Pending);
    assert_eq!(m.read_substream(s2, 64), MuxPoll::Pending);
}

#[test]
fn partial_reads_preserve_order() {
    let mut m = client();
    let h = m.open_outbound();
    let s = match m.poll_outbound(h) {
        MuxPoll::Ready(s) => s,
        other => panic!("expected a substream, got {:?}", other),
    };
    m.inject_data(s, b"abcdef");
    assert_eq!(m.read_substream(s, 2), MuxPoll::Ready(b"ab".to_vec()));
    assert_eq!(m.read_substream(s, 3), MuxPoll::Ready(b"cde".to_vec()));
    m.inject_data(s, b"gh");
    assert_eq!(m.read_substream(s, 64), MuxPoll::Ready(b"fgh".to_vec()));
    assert_eq!(m.read_substream(s, 64), MuxPoll::Pending);
}

#[test]
fn inbound_substreams_arrive_in_order() {
    let mut m = server();
    m.inject_remote_open();
    m.inject_remote_open();
    m.inject_remote_open();
    // The remote is the client end, so its identifiers are odd, and they
    // come out in the order the remote opened them.
    assert_eq!(m.poll_inbound(), MuxPoll::Ready(1));
    assert_eq!(m.poll_inbound(), MuxPoll::Ready(3));
    assert_eq!(m.poll_inbound(), MuxPoll::Ready(5));
    assert_eq!(m.poll_inbound(), MuxPoll::Pending);
}

#[test]
fn round_trip_hello_world() {
    // Dial and accept either end of one connection, upgrade both with the
    // same protocol configuration, and carry one message across; the test
    // plays the wire, moving bytes verbatim between the two ends.
    let config = Config::default();
    let mut dialer = config.clone().upgrade_outbound(connection(), ());
    let mut listener = config.upgrade_inbound(connection(), ());

    // The dialer opens one outbound substream...
    let h = dialer.open_outbound();
    let s_dial = match dialer.poll_outbound(h) {
        MuxPoll::Ready(s) => s,
        other => panic!("expected a substream, got {:?}", other),
    };
    // ...whose open frame the wire delivers to the listener.
    listener.inject_remote_open();
    let s_listen = match listener.poll_inbound() {
        MuxPoll::Ready(s) => s,
        other => panic!("expected a substream, got {:?}", other),
    };
    // Both ends name the stream alike: the client allocated it, so it is odd.
    assert_eq!(s_dial, s_listen);

    // Write on one end, carry the bytes across, read on the other.
    assert_eq!(dialer.write_substream(s_dial, b"hello world"), MuxPoll::Ready(11));
    assert_eq!(dialer.flush_substream(s_dial), MuxPoll::Ready(()));
    let wire = dialer.take_outgoing(s_dial);
    listener.inject_data(s_listen, &wire);
    assert_eq!(listener.read_substream(s_listen, 1024), MuxPoll::Ready(b"hello world".to_vec()));
    assert_eq!(listener.read_substream(s_listen, 1024), MuxPoll::Pending);
}

#[test]
fn abandoned_outbound_does_not_leak() {
    let mut m = client();
    // Abandon an outbound open without ever polling it to completion.
    let h = m.open_outbound();
    m.destroy_outbound(h);
    // Destroying it again is a harmless no-op.
    m.destroy_outbound(h);
    // A full shutdown still completes at once.
    assert_eq!(m.shutdown(Shutdown::Both), MuxPoll::Ready(()));
    assert_eq!(m.poll_inbound(), MuxPoll::End);
}

#[test]
fn shutdown_write_half_keeps_reads() {
    let mut m = client();
    let h = m.open_outbound();
    let s = match m.poll_outbound(h) {
        MuxPoll::Ready(s) => s,
        other => panic!("expected a substream, got {:?}", other),
    };
    assert_eq!(m.shutdown_substream(s, Shutdown::Write), MuxPoll::Ready(()));
    assert_eq!(m.write_substream(s, b"x"), MuxPoll::End);
    m.inject_data(s, b"still readable");
    assert_eq!(m.read_substream(s, 64), MuxPoll::Ready(b"still readable".to_vec()));
    // Closing both directions ends reading too.
    assert_eq!(m.shutdown_substream(s, Shutdown::Both), MuxPoll::Ready(()));
    assert_eq!(m.read_substream(s, 64), MuxPoll::End);
}

#[test]
fn connection_wide_write_shutdown() {
    let mut m = client();
    let h = m.open_outbound();
    let s = match m.poll_outbound(h) {
        MuxPoll::Ready(s) => s,
        other => panic!("expected a substream, got {:?}", other),
    };
    assert_eq!(m.shutdown(Shutdown::Write), MuxPoll::Ready(()));
    // Writes end everywhere, but the connection is still up for reading.
    assert_eq!(m.write_substream(s, b"x"), MuxPoll::End);
    m.inject_data(s, b"late data");
    assert_eq!(m.read_substream(s, 64), MuxPoll::Ready(b"late data".to_vec()));
}

#[test]
fn protocol_names_advertise_yamux() {
    let config = Config::new();
    let names = config.protocol_names();
    assert_eq!(names.len(), 1);
    assert_eq!(names[0].0, "/yamux/1.0.0");
}
