use secret_handshake::client::State as ClientState;
use secret_handshake::server::State as ServerState;
use secret_handshake::{
    Action, ClientHandshaker, HandshakeError, Outcome, Progress, ServerHandshaker, Transfer,
};
use sodiumoxide::crypto::{box_, sign};
use std::collections::VecDeque;

struct Keys {
    network: [u8; 32],
    client_pk: [u8; 32],
    client_sk: [u8; 64],
    client_eph_pk: [u8; 32],
    client_eph_sk: [u8; 32],
    server_pk: [u8; 32],
    server_sk: [u8; 64],
    server_eph_pk: [u8; 32],
    server_eph_sk: [u8; 32],
}

fn keys(seed: u8) -> Keys {
    sodiumoxide::init().unwrap();
    let (client_pk, client_sk) = sign::keypair_from_seed(&sign::Seed([seed; 32]));
    let (server_pk, server_sk) = sign::keypair_from_seed(&sign::Seed([seed.wrapping_add(1); 32]));
    let (client_eph_pk, client_eph_sk) =
        box_::keypair_from_seed(&box_::Seed([seed.wrapping_add(2); 32]));
    let (server_eph_pk, server_eph_sk) =
        box_::keypair_from_seed(&box_::Seed([seed.wrapping_add(3); 32]));
    Keys {
        network: [seed.wrapping_add(4); 32],
        client_pk: client_pk.0,
        client_sk: client_sk.0,
        client_eph_pk: client_eph_pk.0,
        client_eph_sk: client_eph_sk.0,
        server_pk: server_pk.0,
        server_sk: server_sk.0,
        server_eph_pk: server_eph_pk.0,
        server_eph_sk: server_eph_sk.0,
    }
}

fn client(k: &Keys) -> ClientHandshaker {
    ClientHandshaker::new(
        &k.network,
        &k.client_pk,
        &k.client_sk,
        &k.client_eph_pk,
        &k.client_eph_sk,
        &k.server_pk,
    )
}

fn server(k: &Keys) -> ServerHandshaker {
    ServerHandshaker::new(
        &k.network,
        &k.server_pk,
        &k.server_sk,
        &k.server_eph_pk,
        &k.server_eph_sk,
    )
}

/// One direction of an in-memory transport. It can flip one bit of the byte at
/// a chosen position of the stream, and it can be closed.
struct Pipe {
    queue: VecDeque<u8>,
    sent: usize,
    corrupt_at: Option<usize>,
    closed: bool,
}

impl Pipe {
    fn new(corrupt_at: Option<usize>) -> Pipe {
        Pipe { queue: VecDeque::new(), sent: 0, corrupt_at, closed: false }
    }

    fn write(&mut self, bytes: &[u8]) {
        for b in bytes {
            let b = if self.corrupt_at == Some(self.sent) { *b ^ 0x01 } else { *b };
            self.queue.push_back(b);
            self.sent += 1;
        }
    }

    fn read(&mut self, slot: &mut [u8], chunk: usize) -> usize {
        let n = slot.len().min(chunk).min(self.queue.len());
        for place in slot.iter_mut().take(n) {
            *place = self.queue.pop_front().unwrap();
        }
        n
    }
}

type End = Result<Outcome, HandshakeError<&'static str>>;

fn settle(progress: Progress<&'static str>, end: &mut Option<End>) -> bool {
    match progress {
        Progress::Continue => true,
        Progress::Suspended => false,
        Progress::Done(outcome) => {
            *end = Some(Ok(outcome));
            false
        }
        Progress::Failed(error) => {
            *end = Some(Err(error));
            false
        }
    }
}

/// Lets the client run until it ends or has to wait for the server.
fn drive_client(
    h: &mut ClientHandshaker,
    out: &mut Pipe,
    inp: &mut Pipe,
    chunk: usize,
    end: &mut Option<End>,
) {
    while end.is_none() {
        let transfer = match h.action().unwrap() {
            Action::Write => {
                let bytes = h.outgoing();
                let n = bytes.len().min(chunk);
                out.write(&bytes[..n]);
                Transfer::Ready(n)
            }
            Action::Flush => Transfer::Ready(0),
            Action::Read => {
                if inp.queue.is_empty() && !inp.closed {
                    Transfer::Pending
                } else {
                    Transfer::Ready(inp.read(h.incoming(), chunk))
                }
            }
        };
        if !settle(h.resume(transfer), end) {
            break;
        }
    }
}

/// Lets the server run until it ends or has to wait for the client.
fn drive_server(
    h: &mut ServerHandshaker,
    out: &mut Pipe,
    inp: &mut Pipe,
    chunk: usize,
    end: &mut Option<End>,
) {
    while end.is_none() {
        let transfer = match h.action().unwrap() {
            Action::Write => {
                let bytes = h.outgoing();
                let n = bytes.len().min(chunk);
                out.write(&bytes[..n]);
                Transfer::Ready(n)
            }
            Action::Flush => Transfer::Ready(0),
            Action::Read => {
                if inp.queue.is_empty() && !inp.closed {
                    Transfer::Pending
                } else {
                    Transfer::Ready(inp.read(h.incoming(), chunk))
                }
            }
        };
        if !settle(h.resume(transfer), end) {
            break;
        }
    }
}

/// Runs a client and a server against each other over two pipes that carry
/// `chunk` bytes per operation at most. A side that ends closes its pipe.
fn run(
    mut c: ClientHandshaker,
    mut s: ServerHandshaker,
    chunk: usize,
    corrupt_to_server: Option<usize>,
    corrupt_to_client: Option<usize>,
) -> (End, End) {
    let mut to_server = Pipe::new(corrupt_to_server);
    let mut to_client = Pipe::new(corrupt_to_client);
    let mut client_end: Option<End> = None;
    let mut server_end: Option<End> = None;
    for _ in 0..1000 {
        drive_client(&mut c, &mut to_server, &mut to_client, chunk, &mut client_end);
        if client_end.is_some() {
            to_server.closed = true;
        }
        drive_server(&mut s, &mut to_client, &mut to_server, chunk, &mut server_end);
        if server_end.is_some() {
            to_client.closed = true;
        }
        if client_end.is_some() && server_end.is_some() {
            break;
        }
    }
    assert!(c.is_finished());
    assert!(s.is_finished());
    assert!(c.is_wiped());
    assert!(s.is_wiped());
    (client_end.unwrap(), server_end.unwrap())
}

fn assert_matching(k: &Keys, client_end: &End, server_end: &End) {
    let c = client_end.as_ref().unwrap();
    let s = server_end.as_ref().unwrap();
    assert_eq!(c.send_key(), s.receive_key());
    assert_eq!(c.receive_key(), s.send_key());
    assert_ne!(c.send_key(), c.receive_key());
    assert_eq!(c.peer_longterm_pk(), &k.server_pk);
    assert_eq!(s.peer_longterm_pk(), &k.client_pk);
}

#[test]
fn handshake_completes_with_matching_keys() {
    for seed in [1u8, 7, 100, 250] {
        let k = keys(seed);
        let (c, s) = run(client(&k), server(&k), 112, None, None);
        assert_matching(&k, &c, &s);
    }
}

#[test]
fn handshake_completes_with_random_keys() {
    sodiumoxide::init().unwrap();
    let (client_pk, client_sk) = sign::gen_keypair();
    let (server_pk, server_sk) = sign::gen_keypair();
    let (client_eph_pk, client_eph_sk) = box_::gen_keypair();
    let (server_eph_pk, server_eph_sk) = box_::gen_keypair();
    let k = Keys {
        network: [42; 32],
        client_pk: client_pk.0,
        client_sk: client_sk.0,
        client_eph_pk: client_eph_pk.0,
        client_eph_sk: client_eph_sk.0,
        server_pk: server_pk.0,
        server_sk: server_sk.0,
        server_eph_pk: server_eph_pk.0,
        server_eph_sk: server_eph_sk.0,
    };
    let (c, s) = run(client(&k), server(&k), 112, None, None);
    assert_matching(&k, &c, &s);
}

#[test]
fn one_byte_per_operation_gives_the_same_outcome() {
    let k = keys(3);
    let (c_whole, s_whole) = run(client(&k), server(&k), 112, None, None);
    let (c_bytes, s_bytes) = run(client(&k), server(&k), 1, None, None);
    assert_matching(&k, &c_bytes, &s_bytes);
    let (c_whole, c_bytes) = (c_whole.unwrap(), c_bytes.unwrap());
    let (s_whole, s_bytes) = (s_whole.unwrap(), s_bytes.unwrap());
    assert_eq!(c_whole.send_key(), c_bytes.send_key());
    assert_eq!(c_whole.receive_key(), c_bytes.receive_key());
    assert_eq!(s_whole.send_key(), s_bytes.send_key());
    assert_eq!(s_whole.receive_key(), s_bytes.receive_key());
}

#[test]
fn uneven_chunks_give_the_same_outcome() {
    let k = keys(5);
    let (c_whole, _) = run(client(&k), server(&k), 112, None, None);
    for chunk in [2usize, 3, 7, 31, 63, 65, 111] {
        let (c, s) = run(client(&k), server(&k), chunk, None, None);
        assert_matching(&k, &c, &s);
        assert_eq!(c.unwrap().send_key(), c_whole.as_ref().unwrap().send_key());
    }
}

#[test]
fn corrupting_any_byte_of_msg1_fails_the_server() {
    let k = keys(11);
    for at in 0..64 {
        let (_, s) = run(client(&k), server(&k), 112, Some(at), None);
        assert!(matches!(s, Err(HandshakeError::CryptoError)), "byte {}", at);
    }
}

#[test]
fn corrupting_any_byte_of_msg2_fails_the_client() {
    let k = keys(12);
    for at in 0..64 {
        let (c, _) = run(client(&k), server(&k), 112, None, Some(at));
        assert!(matches!(c, Err(HandshakeError::CryptoError)), "byte {}", at);
    }
}

#[test]
fn corrupting_any_byte_of_msg3_fails_the_server() {
    let k = keys(13);
    for at in 64..176 {
        let (_, s) = run(client(&k), server(&k), 112, Some(at), None);
        assert!(matches!(s, Err(HandshakeError::CryptoError)), "byte {}", at);
    }
}

#[test]
fn corrupting_any_byte_of_msg4_fails_the_client() {
    let k = keys(14);
    for at in 64..144 {
        let (c, s) = run(client(&k), server(&k), 112, None, Some(at));
        assert!(matches!(c, Err(HandshakeError::CryptoError)), "byte {}", at);
        assert!(s.is_ok());
    }
}

#[test]
fn corruption_is_detected_under_fragmentation() {
    let k = keys(15);
    let (_, s) = run(client(&k), server(&k), 1, Some(100), None);
    assert!(matches!(s, Err(HandshakeError::CryptoError)));
    let (c, _) = run(client(&k), server(&k), 5, None, Some(70));
    assert!(matches!(c, Err(HandshakeError::CryptoError)));
}

#[test]
fn the_side_that_waits_for_a_failed_peer_sees_the_end_of_the_stream() {
    let k = keys(16);
    let (c, s) = run(client(&k), server(&k), 112, Some(0), None);
    assert!(matches!(s, Err(HandshakeError::CryptoError)));
    assert!(matches!(c, Err(HandshakeError::UnexpectedEof)));
}

#[test]
fn different_network_identifiers_fail_at_the_hello() {
    let k = keys(20);
    let mut other = keys(20);
    other.network = [0xee; 32];
    let mut s = server(&other);
    let mut c = client(&k);
    let msg1 = c.outgoing().to_vec();
    assert_eq!(msg1.len(), 64);
    s.incoming().copy_from_slice(&msg1);
    let progress: Progress<()> = s.resume(Transfer::Ready(64));
    assert!(matches!(progress, Progress::Failed(HandshakeError::CryptoError)));
    assert!(s.is_finished());

    // The other way round: the client rejects the hello of a server of another network.
    let mut s = server(&other);
    s.incoming().copy_from_slice(&secret_handshake::crypto::Client::new(
        &other.network,
        &k.client_pk,
        &k.client_sk,
        &k.client_eph_pk,
        &k.client_eph_sk,
        &k.server_pk,
    )
    .create_msg1());
    assert!(matches!(s.resume::<()>(Transfer::Ready(64)), Progress::Continue));
    let msg2 = s.outgoing().to_vec();
    assert!(matches!(c.resume::<()>(Transfer::Ready(64)), Progress::Continue));
    assert!(matches!(c.resume::<()>(Transfer::Ready(0)), Progress::Continue));
    c.incoming().copy_from_slice(&msg2);
    assert!(matches!(
        c.resume::<()>(Transfer::Ready(64)),
        Progress::Failed(HandshakeError::CryptoError)
    ));
    assert!(c.is_finished());
}

#[test]
fn a_client_that_expects_another_server_is_rejected() {
    let k = keys(21);
    let mut wrong = keys(21);
    wrong.server_pk = keys(99).server_pk;
    let (c, s) = run(client(&wrong), server(&k), 112, None, None);
    assert!(matches!(s, Err(HandshakeError::CryptoError)));
    assert!(c.is_err());
}

#[test]
fn client_walks_through_its_states_in_order() {
    let k = keys(30);
    let mut c = client(&k);
    let mut s = server(&k);
    assert!(matches!(c.action(), Some(Action::Write)));
    assert_eq!(c.outgoing().len(), 64);
    assert_eq!(c.incoming().len(), 0);
    assert_eq!(c.offset(), 0);

    // A partial write moves the offset only.
    let msg1 = c.outgoing().to_vec();
    assert!(matches!(c.resume::<()>(Transfer::Ready(10)), Progress::Continue));
    assert_eq!(c.offset(), 10);
    assert_eq!(c.outgoing(), &msg1[10..]);
    assert!(matches!(c.action(), Some(Action::Write)));
    assert!(matches!(c.resume::<()>(Transfer::Ready(54)), Progress::Continue));
    assert!(matches!(c.action(), Some(Action::Flush)));
    assert_eq!(c.offset(), 0);
    assert_eq!(c.outgoing().len(), 0);
    assert!(matches!(c.resume::<()>(Transfer::Ready(0)), Progress::Continue));
    assert!(matches!(c.action(), Some(Action::Read)));
    assert_eq!(c.incoming().len(), 64);

    s.incoming().copy_from_slice(&msg1);
    assert!(matches!(s.resume::<()>(Transfer::Ready(64)), Progress::Continue));
    assert!(matches!(s.action(), Some(Action::Write)));
    let msg2 = s.outgoing().to_vec();
    assert_eq!(msg2.len(), 64);

    // A partial read moves the offset and shrinks the slot.
    c.incoming()[..20].copy_from_slice(&msg2[..20]);
    assert!(matches!(c.resume::<()>(Transfer::Ready(20)), Progress::Continue));
    assert_eq!(c.offset(), 20);
    assert_eq!(c.incoming().len(), 44);
    c.incoming().copy_from_slice(&msg2[20..]);
    assert!(matches!(c.resume::<()>(Transfer::Ready(44)), Progress::Continue));
    assert!(matches!(c.action(), Some(Action::Write)));
    assert_eq!(c.outgoing().len(), 112);
    let msg3 = c.outgoing().to_vec();
    assert_eq!(&c.buffer()[..], &msg3[..]);

    assert!(matches!(s.resume::<()>(Transfer::Ready(64)), Progress::Continue));
    assert!(matches!(s.action(), Some(Action::Flush)));
    assert!(matches!(s.resume::<()>(Transfer::Ready(0)), Progress::Continue));
    assert!(matches!(s.action(), Some(Action::Read)));
    assert_eq!(s.incoming().len(), 112);
    s.incoming().copy_from_slice(&msg3);
    assert!(matches!(s.resume::<()>(Transfer::Ready(112)), Progress::Continue));
    assert_eq!(s.outgoing().len(), 80);
    let msg4 = s.outgoing().to_vec();
    assert!(matches!(s.resume::<()>(Transfer::Ready(80)), Progress::Continue));
    assert!(matches!(s.action(), Some(Action::Flush)));
    let server_outcome = match s.resume::<()>(Transfer::Ready(0)) {
        Progress::Done(o) => o,
        _ => panic!("server did not complete"),
    };
    assert!(s.action().is_none());
    assert!(s.is_finished());

    assert!(matches!(c.resume::<()>(Transfer::Ready(112)), Progress::Continue));
    assert!(matches!(c.resume::<()>(Transfer::Ready(7)), Progress::Continue));
    assert!(matches!(c.action(), Some(Action::Read)));
    assert_eq!(c.incoming().len(), 80);
    c.incoming().copy_from_slice(&msg4);
    let client_outcome = match c.resume::<()>(Transfer::Ready(80)) {
        Progress::Done(o) => o,
        _ => panic!("client did not complete"),
    };
    assert!(c.action().is_none());
    assert!(c.is_finished());
    assert_eq!(client_outcome.send_key(), server_outcome.receive_key());
    assert_eq!(client_outcome.receive_key(), server_outcome.send_key());
}

#[test]
fn pending_changes_nothing() {
    let k = keys(31);
    let mut c = client(&k);
    assert!(matches!(c.resume::<()>(Transfer::Ready(5)), Progress::Continue));
    let before = *c.buffer();
    assert!(matches!(c.resume::<()>(Transfer::Pending), Progress::Suspended));
    assert_eq!(c.offset(), 5);
    assert!(matches!(c.action(), Some(Action::Write)));
    assert_eq!(&before[..], &c.buffer()[..]);

    let mut s = server(&k);
    assert!(matches!(s.resume::<()>(Transfer::Pending), Progress::Suspended));
    assert!(matches!(s.action(), Some(Action::Read)));
    assert_eq!(s.incoming().len(), 64);
    assert!(!s.is_finished());
}

#[test]
fn a_write_of_no_byte_is_fatal() {
    let k = keys(32);
    let mut c = client(&k);
    assert!(matches!(
        c.resume::<()>(Transfer::Ready(0)),
        Progress::Failed(HandshakeError::WriteZero)
    ));
    assert!(c.is_finished());
    assert!(c.is_wiped());
    assert!(c.action().is_none());
    assert_eq!(c.outgoing().len(), 0);
    assert_eq!(c.incoming().len(), 0);
}

#[test]
fn a_closed_transport_in_the_middle_of_a_message_is_fatal() {
    let k = keys(33);
    let mut s = server(&k);
    let msg1 = client(&k).outgoing().to_vec();
    s.incoming()[..30].copy_from_slice(&msg1[..30]);
    assert!(matches!(s.resume::<()>(Transfer::Ready(30)), Progress::Continue));
    assert!(matches!(
        s.resume::<()>(Transfer::Ready(0)),
        Progress::Failed(HandshakeError::UnexpectedEof)
    ));
    assert!(s.is_finished());
    assert!(s.is_wiped());
    assert_eq!(&s.buffer()[..], &[0u8; 112][..]);

    let mut c = client(&k);
    assert!(matches!(c.resume::<()>(Transfer::Ready(64)), Progress::Continue));
    assert!(matches!(c.resume::<()>(Transfer::Ready(0)), Progress::Continue));
    assert!(matches!(
        c.resume::<()>(Transfer::Ready(0)),
        Progress::Failed(HandshakeError::UnexpectedEof)
    ));
    assert!(c.is_finished());
}

#[test]
fn a_transport_error_is_handed_back() {
    let k = keys(34);
    let mut c = client(&k);
    match c.resume(Transfer::Failed("broken pipe")) {
        Progress::Failed(HandshakeError::Transport(e)) => assert_eq!(e, "broken pipe"),
        _ => panic!("expected a transport error"),
    }
    assert!(c.is_finished());
    assert!(c.is_wiped());

    let mut s = server(&k);
    match s.resume(Transfer::Failed(104)) {
        Progress::Failed(HandshakeError::Transport(e)) => assert_eq!(e, 104),
        _ => panic!("expected a transport error"),
    }
    assert!(s.is_finished());
    assert!(s.is_wiped());
}

#[test]
fn a_transfer_longer_than_the_message_completes_it() {
    let k = keys(35);
    let mut c = client(&k);
    assert!(matches!(c.resume::<()>(Transfer::Ready(usize::MAX)), Progress::Continue));
    assert!(matches!(c.action(), Some(Action::Flush)));
    assert_eq!(c.offset(), 0);
}

#[test]
fn cancel_clears_the_attempt() {
    let k = keys(36);
    let mut c = client(&k);
    assert!(!c.is_wiped());
    assert!(c.buffer()[..64].iter().any(|b| *b != 0));
    c.cancel();
    assert!(c.is_finished());
    assert!(c.is_wiped());
    assert_eq!(&c.buffer()[..], &[0u8; 112][..]);

    let mut s = server(&k);
    assert!(!s.is_wiped());
    s.cancel();
    assert!(s.is_finished());
    assert!(s.is_wiped());
}

#[test]
fn states_are_named() {
    assert_eq!(format!("{:?}", ClientState::WriteMsg1), "WriteMsg1");
    assert_eq!(format!("{:?}", ServerState::Finished), "Finished");
}
