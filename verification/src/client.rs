//! The client's side of a handshake attempt: the state machine that sends the
//! first and third message and receives the second and fourth.

use crate::bytes::{is_zero, lemma_all_zero, store, window, zeros};
use crate::crypto::client::{
    spec_client_new, spec_client_outcome, spec_client_proof, spec_client_verify_msg2,
    spec_client_verify_msg4, spec_client_wiped, spec_msg1, spec_msg3, Client, ClientView,
};
use crate::crypto::{MSG1_BYTES, MSG2_BYTES, MSG3_BYTES, MSG4_BYTES, NETWORK_IDENTIFIER_BYTES};
use crate::errors::HandshakeError;
use crate::handshake::{Action, Progress, Step, Transfer};
use crate::primitives::memzero;
use vstd::prelude::*;

verus! {

/// The step of the handshake that a client's attempt is at.
#[derive(Clone, Copy, Debug)]
pub enum State {
    WriteMsg1,
    FlushMsg1,
    ReadMsg2,
    WriteMsg3,
    FlushMsg3,
    ReadMsg4,
    /// The attempt has ended, in success or in failure.
    Finished,
}

/// A client's attempt as mathematical values.
pub struct Attempt {
    /// Keys and shared secrets.
    pub engine: ClientView,
    /// The current step.
    pub state: State,
    /// The buffer, which holds the message in flight.
    pub data: Seq<u8>,
    /// How much of the message in flight has been transferred.
    pub offset: nat,
}

/// Length of the message that is written or read in `state`, and zero in the
/// states that transfer none.
pub open spec fn spec_message_len(state: State) -> nat {
    match state {
        State::WriteMsg1 => MSG1_BYTES as nat,
        State::ReadMsg2 => MSG2_BYTES as nat,
        State::WriteMsg3 => MSG3_BYTES as nat,
        State::ReadMsg4 => MSG4_BYTES as nat,
        _ => 0,
    }
}

/// The operation that an attempt in `state` waits for.
pub open spec fn spec_action(state: State) -> Option<Action> {
    match state {
        State::WriteMsg1 | State::WriteMsg3 => Some(Action::Write),
        State::FlushMsg1 | State::FlushMsg3 => Some(Action::Flush),
        State::ReadMsg2 | State::ReadMsg4 => Some(Action::Read),
        State::Finished => None,
    }
}

/// The state that follows `state` once its operation is complete.
pub open spec fn spec_next(state: State) -> State {
    match state {
        State::WriteMsg1 => State::FlushMsg1,
        State::FlushMsg1 => State::ReadMsg2,
        State::ReadMsg2 => State::WriteMsg3,
        State::WriteMsg3 => State::FlushMsg3,
        State::FlushMsg3 => State::ReadMsg4,
        _ => State::Finished,
    }
}

/// The place of `state` in the fixed sequence of steps.
pub open spec fn spec_rank(state: State) -> nat {
    match state {
        State::WriteMsg1 => 0,
        State::FlushMsg1 => 1,
        State::ReadMsg2 => 2,
        State::WriteMsg3 => 3,
        State::FlushMsg3 => 4,
        State::ReadMsg4 => 5,
        State::Finished => 6,
    }
}

impl Attempt {
    /// The offset lies inside the message in flight, and is zero where none is.
    pub open spec fn wf(self) -> bool {
        &&& self.data.len() == 112
        &&& self.offset <= spec_message_len(self.state)
        &&& spec_action(self.state) is Some && spec_action(self.state) != Some(Action::Flush)
            ==> self.offset < spec_message_len(self.state)
    }

    /// The part of the message in flight that is still to be written: empty
    /// unless the attempt waits for a write.
    pub open spec fn outgoing(self) -> Seq<u8> {
        if spec_action(self.state) == Some(Action::Write) {
            self.data.subrange(self.offset as int, spec_message_len(self.state) as int)
        } else {
            Seq::empty()
        }
    }

    /// How many bytes of the message in flight are still to be read: zero
    /// unless the attempt waits for a read.
    pub open spec fn wanted(self) -> nat {
        if spec_action(self.state) == Some(Action::Read) {
            (spec_message_len(self.state) - self.offset) as nat
        } else {
            0
        }
    }

    /// The attempt after the transport has put `bytes` into the place of the
    /// bytes that are still to be read.
    pub open spec fn filled(self, bytes: Seq<u8>) -> Attempt {
        Attempt {
            data: self.data.subrange(0, self.offset as int) + bytes + self.data.subrange(
                (self.offset + bytes.len()) as int,
                112,
            ),
            ..self
        }
    }
}

/// The attempt of a client that has just been given its keys: the first
/// message is in the buffer and nothing of it has been written.
pub open spec fn spec_begin(engine: ClientView) -> Attempt {
    Attempt { engine, state: State::WriteMsg1, data: spec_msg1(engine) + zeros(48), offset: 0 }
}

/// An attempt that has ended: no key, no secret and no message is left in it.
pub open spec fn spec_finished() -> Attempt {
    Attempt { engine: spec_client_wiped(), state: State::Finished, data: zeros(112), offset: 0 }
}

/// An attempt ends in failure.
pub open spec fn spec_fail<E>(error: HandshakeError<E>) -> (Attempt, Step<E>) {
    (spec_finished(), Step::Failed(error))
}

/// `n` more bytes of the message in flight have been transferred. The message
/// is complete when `n` reaches what was left of it.
pub open spec fn spec_message_complete(a: Attempt, n: usize) -> bool {
    a.offset + n >= spec_message_len(a.state)
}

/// What follows when the complete second message is in the buffer: the client
/// verifies it, and puts the third message into the buffer or fails.
pub open spec fn spec_msg2_received<E>(a: Attempt) -> (Attempt, Step<E>) {
    match spec_client_verify_msg2(a.engine, a.data.subrange(0, 64)) {
        None => spec_fail(HandshakeError::CryptoError),
        Some(verified) => (
            Attempt {
                engine: ClientView { proof: spec_client_proof(verified), ..verified },
                state: State::WriteMsg3,
                data: spec_msg3(verified),
                offset: 0,
            },
            Step::Continue,
        ),
    }
}

/// What follows when the complete fourth message is in the buffer: the client
/// verifies it, and ends with the outcome or fails.
pub open spec fn spec_msg4_received<E>(a: Attempt) -> (Attempt, Step<E>) {
    if spec_client_verify_msg4(a.engine, a.data.subrange(0, 80)) {
        (spec_finished(), Step::Done(spec_client_outcome(a.engine)))
    } else {
        spec_fail(HandshakeError::CryptoError)
    }
}

/// The attempt after the transport's answer `transfer`, and how to go on.
///
/// A pending operation changes nothing. A failed one ends the attempt. A write
/// or read of no byte ends it too; one of some bytes moves the offset, and once
/// the message is complete the attempt moves to its next state. A read message
/// is verified first, and a message that does not verify ends the attempt.
pub open spec fn spec_resume<E>(a: Attempt, transfer: Transfer<E>) -> (Attempt, Step<E>) {
    match transfer {
        Transfer::Pending => (a, Step::Suspended),
        Transfer::Failed(e) => spec_fail(HandshakeError::Transport(e)),
        Transfer::Ready(n) => match spec_action(a.state) {
            None => (a, Step::Suspended),
            Some(Action::Flush) => (Attempt { state: spec_next(a.state), ..a }, Step::Continue),
            Some(Action::Write) => if n == 0 {
                spec_fail(HandshakeError::WriteZero)
            } else if !spec_message_complete(a, n) {
                (Attempt { offset: a.offset + n as nat, ..a }, Step::Continue)
            } else {
                (Attempt { state: spec_next(a.state), offset: 0, ..a }, Step::Continue)
            },
            Some(Action::Read) => if n == 0 {
                spec_fail(HandshakeError::UnexpectedEof)
            } else if !spec_message_complete(a, n) {
                (Attempt { offset: a.offset + n as nat, ..a }, Step::Continue)
            } else if a.state is ReadMsg2 {
                spec_msg2_received(a)
            } else {
                spec_msg4_received(a)
            },
        },
    }
}

/// The attempt after the transport has read `bytes` into the place that the
/// attempt offered, and how to go on.
pub open spec fn spec_deliver<E>(a: Attempt, bytes: Seq<u8>) -> (Attempt, Step<E>) {
    spec_resume(a.filled(bytes), Transfer::Ready(bytes.len() as usize))
}

/// The attempt after the transport has read `bytes` one byte per operation,
/// and how to go on after the last of them.
pub open spec fn spec_deliver_each<E>(a: Attempt, bytes: Seq<u8>) -> (Attempt, Step<E>)
    decreases bytes.len(),
{
    if bytes.len() <= 1 {
        spec_deliver(a, bytes)
    } else {
        spec_deliver_each(spec_deliver::<E>(a, bytes.take(1)).0, bytes.skip(1))
    }
}

/// The attempt after the transport has accepted `count` bytes one byte per
/// operation, and how to go on after the last of them.
pub open spec fn spec_accept_each<E>(a: Attempt, count: nat) -> (Attempt, Step<E>)
    decreases count,
{
    if count <= 1 {
        spec_resume(a, Transfer::Ready(count as usize))
    } else {
        spec_accept_each(spec_resume::<E>(a, Transfer::Ready(1)).0, (count - 1) as nat)
    }
}

/// An attempt only moves forward through its steps: whatever the transport
/// answers, the attempt stays at its step, moves to the next one, or ends.
pub proof fn lemma_never_steps_back<E>(a: Attempt, transfer: Transfer<E>)
    ensures
        ({
            let after = spec_resume(a, transfer).0.state;
            after == a.state || after == spec_next(a.state) || after is Finished
        }),
        spec_rank(spec_resume(a, transfer).0.state) >= spec_rank(a.state),
        spec_rank(spec_next(a.state)) >= spec_rank(a.state),
{
}

/// Fragmentation does not matter to a write: two writes that together stay
/// within the message in flight leave the attempt where one write of their
/// sum leaves it, with the same answer.
pub proof fn lemma_writes_add_up<E>(a: Attempt, first: usize, second: usize)
    requires
        a.wf(),
        spec_action(a.state) == Some(Action::Write),
        0 < first,
        0 < second,
        a.offset + first + second <= spec_message_len(a.state),
    ensures
        spec_resume::<E>(spec_resume::<E>(a, Transfer::Ready(first)).0, Transfer::Ready(second))
            == spec_resume::<E>(a, Transfer::Ready((first + second) as usize)),
        spec_resume::<E>(a, Transfer::Ready(first)) == (
            Attempt { offset: a.offset + first as nat, ..a },
            Step::<E>::Continue,
        ),
{
}

/// Fragmentation does not matter to a read: two reads that together stay
/// within the message in flight leave the attempt where one read of all their
/// bytes leaves it, with the same answer.
pub proof fn lemma_reads_add_up<E>(a: Attempt, first: Seq<u8>, second: Seq<u8>)
    requires
        a.wf(),
        spec_action(a.state) == Some(Action::Read),
        0 < first.len(),
        0 < second.len(),
        first.len() + second.len() <= a.wanted(),
    ensures
        spec_deliver::<E>(spec_deliver::<E>(a, first).0, second) == spec_deliver::<E>(
            a,
            first + second,
        ),
        spec_deliver::<E>(a, first) == (
            Attempt { offset: a.offset + first.len(), ..a.filled(first) },
            Step::<E>::Continue,
        ),
        spec_deliver::<E>(a, first).0.wf(),
        spec_deliver::<E>(a, first).0.wanted() == a.wanted() - first.len(),
{
    let middle = spec_deliver::<E>(a, first).0;
    assert(middle.filled(second).data =~= a.filled(first + second).data);
}

/// A transport that accepts one byte per operation leaves the attempt where a
/// transport that accepts the same bytes at once leaves it.
pub proof fn lemma_bytewise_write<E>(a: Attempt, count: nat)
    requires
        a.wf(),
        spec_action(a.state) == Some(Action::Write),
        0 < count,
        a.offset + count <= spec_message_len(a.state),
    ensures
        spec_accept_each::<E>(a, count) == spec_resume::<E>(a, Transfer::Ready(count as usize)),
    decreases count,
{
    if count > 1 {
        let rest = (count - 1) as usize;
        lemma_writes_add_up::<E>(a, 1, rest);
        lemma_bytewise_write::<E>(spec_resume::<E>(a, Transfer::Ready(1)).0, (count - 1) as nat);
    }
}

/// A transport that delivers one byte per operation leaves the attempt where a
/// transport that delivers the same bytes at once leaves it: the same message
/// is verified, and the same answer follows.
pub proof fn lemma_bytewise_read<E>(a: Attempt, bytes: Seq<u8>)
    requires
        a.wf(),
        spec_action(a.state) == Some(Action::Read),
        0 < bytes.len() <= a.wanted(),
    ensures
        spec_deliver_each::<E>(a, bytes) == spec_deliver::<E>(a, bytes),
    decreases bytes.len(),
{
    if bytes.len() > 1 {
        lemma_reads_add_up::<E>(a, bytes.take(1), bytes.skip(1));
        assert(bytes.take(1) + bytes.skip(1) =~= bytes);
        lemma_bytewise_read::<E>(spec_deliver::<E>(a, bytes.take(1)).0, bytes.skip(1));
    }
}

/// Performs the client side of a handshake.
pub struct ClientHandshaker {
    client: Client,
    state: State,
    // Holds the message in flight: one made by `client`, or one read from the
    // server.
    data: [u8; 112],
    // Offset into `data` at which to read or write.
    offset: usize,
}

impl View for ClientHandshaker {
    type V = Attempt;

    closed spec fn view(&self) -> Attempt {
        Attempt {
            engine: self.client@,
            state: self.state,
            data: self.data@,
            offset: self.offset as nat,
        }
    }
}

impl ClientHandshaker {
    #[verifier::type_invariant]
    spec fn inv(&self) -> bool {
        self@.wf()
    }

    /// Creates the attempt of a client that connects to a server with known
    /// public key, within the network of the given identifier.
    pub fn new(
        network_identifier: &[u8; NETWORK_IDENTIFIER_BYTES],
        client_longterm_pk: &[u8; 32],
        client_longterm_sk: &[u8; 64],
        client_ephemeral_pk: &[u8; 32],
        client_ephemeral_sk: &[u8; 32],
        server_longterm_pk: &[u8; 32],
    ) -> (h: ClientHandshaker)
        ensures
            h@ == spec_begin(
                spec_client_new(
                    network_identifier@,
                    client_longterm_pk@,
                    client_longterm_sk@,
                    client_ephemeral_pk@,
                    client_ephemeral_sk@,
                    server_longterm_pk@,
                ),
            ),
            h@.wf(),
    {
        let client = Client::new(
            network_identifier,
            client_longterm_pk,
            client_longterm_sk,
            client_ephemeral_pk,
            client_ephemeral_sk,
            server_longterm_pk,
        );
        let msg1 = client.create_msg1();
        let mut data: [u8; 112] = [0u8; 112];
        store(&mut data, &msg1);
        assert(data@ =~= spec_msg1(client@) + zeros(48));
        ClientHandshaker { client, state: State::WriteMsg1, data, offset: 0 }
    }

    /// The operation that the attempt waits for, or `None` once it has ended.
    pub fn action(&self) -> (action: Option<Action>)
        ensures
            action == spec_action(self@.state),
    {
        match self.state {
            State::WriteMsg1 | State::WriteMsg3 => Some(Action::Write),
            State::FlushMsg1 | State::FlushMsg3 => Some(Action::Flush),
            State::ReadMsg2 | State::ReadMsg4 => Some(Action::Read),
            State::Finished => None,
        }
    }

    /// Whether the attempt has ended, in success or in failure.
    pub fn is_finished(&self) -> (finished: bool)
        ensures
            finished == (self@.state is Finished),
    {
        match self.state {
            State::Finished => true,
            _ => false,
        }
    }

    /// The whole buffer, with what is left in it of earlier messages.
    pub fn buffer(&self) -> (data: &[u8; 112])
        ensures
            data@ == self@.data,
    {
        &self.data
    }

    /// How much of the message in flight has been transferred.
    pub fn offset(&self) -> (offset: usize)
        ensures
            offset == self@.offset,
    {
        self.offset
    }

    /// Whether no key, no secret and no message is left in the attempt.
    pub fn is_wiped(&self) -> (wiped: bool)
        ensures
            wiped == (self@.engine == spec_client_wiped() && self@.data == zeros(112)),
    {
        proof {
            lemma_all_zero(self.data@);
        }
        self.client.is_wiped() && is_zero(&self.data)
    }

    // Length of the message that is written or read in the current state.
    fn message_len(&self) -> (len: usize)
        ensures
            len == spec_message_len(self@.state),
    {
        match self.state {
            State::WriteMsg1 => MSG1_BYTES,
            State::ReadMsg2 => MSG2_BYTES,
            State::WriteMsg3 => MSG3_BYTES,
            State::ReadMsg4 => MSG4_BYTES,
            _ => 0,
        }
    }

    /// The bytes to hand to the transport's next write.
    pub fn outgoing(&self) -> (out: &[u8])
        ensures
            self@.wf(),
            out@ == self@.outgoing(),
    {
        proof {
            use_type_invariant(self);
        }
        match self.state {
            State::WriteMsg1 | State::WriteMsg3 => {
                vstd::slice::slice_subrange(&self.data, self.offset, self.message_len())
            },
            _ => vstd::slice::slice_subrange(&self.data, 0, 0),
        }
    }

    /// The place for the transport's next read to put its bytes.
    pub fn incoming(&mut self) -> (slot: &mut [u8])
        ensures
            old(self)@.wf(),
            slot@.len() == old(self)@.wanted(),
            final(self)@ == old(self)@.filled(final(slot)@),
    {
        proof {
            use_type_invariant(&*self);
        }
        let end: usize = match self.state {
            State::ReadMsg2 | State::ReadMsg4 => self.message_len(),
            _ => self.offset,
        };
        let start: usize = self.offset;
        let (head, rest) = self.data.split_at_mut(start);
        let (slot, tail) = rest.split_at_mut(end - start);
        proof {
            assert(final(self)@.data =~= old(self)@.filled(final(slot)@).data);
        }
        slot
    }

    // Ends the attempt: clears the keys, the secrets and the buffer.
    fn finish(&mut self)
        ensures
            final(self)@ == spec_finished(),
    {
        proof {
            use_type_invariant(&*self);
        }
        self.client.wipe();
        memzero(&mut self.data);
        self.offset = 0;
        self.state = State::Finished;
        assert(self.data@ =~= zeros(112));
    }

    // Moves to the state that follows the current one, with nothing of its
    // message transferred.
    fn advance(&mut self)
        ensures
            final(self)@ == (Attempt {
                state: spec_next(old(self)@.state),
                offset: 0,
                ..old(self)@
            }),
    {
        self.offset = 0;
        self.state =
        match self.state {
            State::WriteMsg1 => State::FlushMsg1,
            State::FlushMsg1 => State::ReadMsg2,
            State::ReadMsg2 => State::WriteMsg3,
            State::WriteMsg3 => State::FlushMsg3,
            State::FlushMsg3 => State::ReadMsg4,
            _ => State::Finished,
        };
    }

    // Counts `n` more transferred bytes of the message in flight and says
    // whether the message is complete; the offset stays where it is if so.
    fn transferred(&mut self, n: usize) -> (complete: bool)
        requires
            spec_action(old(self)@.state) is Some,
            spec_action(old(self)@.state) != Some(Action::Flush),
        ensures
            complete == spec_message_complete(old(self)@, n),
            complete ==> final(self)@ == old(self)@,
            !complete ==> final(self)@ == (Attempt {
                offset: old(self)@.offset + n as nat,
                ..old(self)@
            }),
    {
        proof {
            use_type_invariant(&*self);
        }
        let left: usize = self.message_len() - self.offset;
        if n >= left {
            true
        } else {
            self.offset = self.offset + n;
            false
        }
    }

    // The second message is complete: verifies it and makes the third.
    fn msg2_received<E>(&mut self) -> (progress: Progress<E>)
        requires
            old(self)@.state is ReadMsg2,
        ensures
            (final(self)@, progress@) == spec_msg2_received::<E>(old(self)@),
    {
        proof {
            use_type_invariant(&*self);
        }
        let msg = window::<64>(&self.data, 0);
        match self.client.hello_secrets(&msg) {
            Some(secrets) => {
                let mut secrets = secrets;
                self.client.keep_secrets(secrets);
                memzero(&mut secrets.1);
                memzero(&mut secrets.2);
                memzero(&mut secrets.3);
                let proof = self.client.sign_proof();
                self.client.keep_proof(proof);
                let msg3 = self.client.seal_proof();
                self.offset = 0;
                self.state = State::WriteMsg3;
                self.data = msg3;
                Progress::Continue
            },
            None => {
                self.finish();
                Progress::Failed(HandshakeError::CryptoError)
            },
        }
    }

    // The fourth message is complete: verifies it and derives the outcome.
    fn msg4_received<E>(&mut self) -> (progress: Progress<E>)
        requires
            old(self)@.state is ReadMsg4,
        ensures
            (final(self)@, progress@) == spec_msg4_received::<E>(old(self)@),
    {
        let msg = window::<80>(&self.data, 0);
        if self.client.verify_msg4(&msg) {
            let outcome = self.client.outcome();
            self.finish();
            Progress::Done(outcome)
        } else {
            self.finish();
            Progress::Failed(HandshakeError::CryptoError)
        }
    }

    /// Takes the transport's answer to the operation that the attempt waited
    /// for and says how to go on. An attempt that has ended is not resumed
    /// again.
    pub fn resume<E>(&mut self, transfer: Transfer<E>) -> (progress: Progress<E>)
        requires
            !(old(self)@.state is Finished),
        ensures
            (final(self)@, progress@) == spec_resume(old(self)@, transfer),
            final(self)@.wf(),
            progress is Done || progress is Failed <==> final(self)@.state is Finished,
            final(self)@.state is Finished ==> final(self)@ == spec_finished(),
            spec_rank(final(self)@.state) >= spec_rank(old(self)@.state),
            transfer is Pending ==> progress is Suspended && final(self)@ == old(self)@,
            transfer == Transfer::<E>::Ready(0) && spec_action(old(self)@.state) == Some(
                Action::Read,
            ) ==> progress@ == Step::<E>::Failed(HandshakeError::UnexpectedEof),
            transfer == Transfer::<E>::Ready(0) && spec_action(old(self)@.state) == Some(
                Action::Write,
            ) ==> progress@ == Step::<E>::Failed(HandshakeError::WriteZero),
    {
        proof {
            use_type_invariant(&*self);
        }
        let n: usize = match transfer {
            Transfer::Pending => {
                return Progress::Suspended;
            },
            Transfer::Failed(e) => {
                self.finish();
                return Progress::Failed(HandshakeError::Transport(e));
            },
            Transfer::Ready(n) => n,
        };
        let progress = match self.state {
            State::FlushMsg1 | State::FlushMsg3 => {
                self.advance();
                Progress::Continue
            },
            State::WriteMsg1 | State::WriteMsg3 => {
                if n == 0 {
                    self.finish();
                    Progress::Failed(HandshakeError::WriteZero)
                } else {
                    if self.transferred(n) {
                        self.advance();
                    }
                    Progress::Continue
                }
            },
            State::ReadMsg2 => {
                if n == 0 {
                    self.finish();
                    Progress::Failed(HandshakeError::UnexpectedEof)
                } else if self.transferred(n) {
                    self.msg2_received()
                } else {
                    Progress::Continue
                }
            },
            _ => {
                if n == 0 {
                    self.finish();
                    Progress::Failed(HandshakeError::UnexpectedEof)
                } else if self.transferred(n) {
                    self.msg4_received()
                } else {
                    Progress::Continue
                }
            },
        };
        proof {
            use_type_invariant(&*self);
        }
        progress
    }

    /// Gives the attempt up: clears the keys, the secrets and the buffer. The
    /// attempt has ended afterwards.
    pub fn cancel(&mut self)
        ensures
            final(self)@ == spec_finished(),
    {
        self.finish();
    }
}

impl Drop for ClientHandshaker {
    /// Zeroes the keys, the secrets and the buffered handshake data.
    fn drop(&mut self)
        ensures
            final(self)@.engine == spec_client_wiped(),
            final(self)@.data == zeros(112),
        opens_invariants none
        no_unwind
    {
        proof {
            use_type_invariant(&*self);
        }
        self.client.wipe();
        memzero(&mut self.data);
    }
}

} // verus!
