//! What a handshake attempt and the driver of its transport say to each other.
//!
//! An attempt performs no I/O. It names the operation that it waits for, the
//! driver performs that operation on the stream and reports how it went, and
//! the attempt answers with how to go on.

use crate::crypto::{Outcome, OutcomeView};
use crate::errors::HandshakeError;
use vstd::prelude::*;

verus! {

/// The transport operation that an attempt waits for.
#[derive(Clone, Copy, Debug, PartialEq, Eq)]
pub enum Action {
    /// Write the bytes that `outgoing` returns.
    Write,
    /// Flush the transport.
    Flush,
    /// Read into the slice that `incoming` returns.
    Read,
}

/// How the transport answered the operation. `E` is its error type.
pub enum Transfer<E> {
    /// The operation completed: a write or a read with the number of bytes
    /// transferred, a flush with any number.
    Ready(usize),
    /// The operation would block.
    Pending,
    /// The operation failed.
    Failed(E),
}

/// How to go on after a transport operation.
pub enum Progress<E> {
    /// Perform the operation that the attempt now waits for.
    Continue,
    /// Nothing has changed: repeat the operation when the transport is ready.
    Suspended,
    /// The handshake is complete.
    Done(Outcome),
    /// The handshake has failed.
    Failed(HandshakeError<E>),
}

/// A progress with its outcome as byte sequences.
pub enum Step<E> {
    /// Perform the operation that the attempt now waits for.
    Continue,
    /// Nothing has changed.
    Suspended,
    /// The handshake is complete, with this outcome.
    Done(OutcomeView),
    /// The handshake has failed, with this error.
    Failed(HandshakeError<E>),
}

impl<E> View for Progress<E> {
    type V = Step<E>;

    open spec fn view(&self) -> Step<E> {
        match *self {
            Progress::Continue => Step::Continue,
            Progress::Suspended => Step::Suspended,
            Progress::Done(o) => Step::Done(o@),
            Progress::Failed(e) => Step::Failed(e),
        }
    }
}

} // verus!
