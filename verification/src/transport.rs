//! The connection driver's decisions: what to do after one non-blocking
//! attempt to write a frame to a stream or to read one from it.
//!
//! The caller owns the stream. It waits until the stream is ready, makes one
//! attempt, and reports how the attempt ended; the functions here say how to
//! go on. A frame travels in one write and one read: there is no reassembly.

use vstd::prelude::*;

verus! {

/// The size of the buffer that one frame is read into: one mebibyte.
pub const FRAME_CAPACITY: usize = 1_048_576;

/// A failure of the stream or of the file system, with its cause in words.
#[derive(Clone, Debug, PartialEq, Eq)]
pub struct IoError {
    pub cause: String,
}

/// How one non-blocking attempt to read or write ended.
#[derive(Clone, Debug, PartialEq, Eq)]
pub enum Attempt {
    /// The attempt moved this many bytes.
    Moved(usize),
    /// The stream was not ready after all.
    WouldBlock,
    /// The attempt failed for the given cause.
    Failed(String),
}

/// How to go on after an attempt to write a frame.
#[derive(Clone, Debug, PartialEq, Eq)]
pub enum SendStep {
    /// The frame is on its way.
    Sent,
    /// Wait until the stream is writable, then try again with the same frame.
    AwaitWritable,
    /// Give the exchange up.
    Abort(IoError),
}

/// How to go on after an attempt to read a frame.
#[derive(Clone, Debug, PartialEq, Eq)]
pub enum ReceiveStep {
    /// The frame that was read.
    Received(Vec<u8>),
    /// Wait until the stream is readable, then try again.
    AwaitReadable,
    /// Give the exchange up.
    Abort(IoError),
}

/// The part of a buffer that a read of `n` bytes filled.
pub open spec fn filled(buffer: Seq<u8>, n: int) -> Seq<u8> {
    if 0 <= n <= buffer.len() {
        buffer.take(n)
    } else {
        buffer
    }
}

/// A buffer of `capacity` zero bytes to read a frame into.
pub fn receive_buffer(capacity: usize) -> (buffer: Vec<u8>)
    ensures
        buffer@.len() == capacity,
        forall|i: int| 0 <= i < capacity ==> buffer@[i] == 0,
{
    let mut buffer: Vec<u8> = Vec::new();
    buffer.resize(capacity, 0u8);
    buffer
}

/// Decides how to go on after one attempt to write a frame: a write that
/// moved bytes has sent the frame, a stream that would block is waited for
/// and tried again, and every other failure ends the exchange with its
/// cause.
pub fn after_write(attempt: Attempt) -> (step: SendStep)
    ensures
        attempt is Moved ==> step == SendStep::Sent,
        attempt is WouldBlock ==> step == SendStep::AwaitWritable,
        attempt matches Attempt::Failed(cause) ==> step == SendStep::Abort(IoError { cause }),
{
    match attempt {
        Attempt::Moved(_) => SendStep::Sent,
        Attempt::WouldBlock => SendStep::AwaitWritable,
        Attempt::Failed(cause) => SendStep::Abort(IoError { cause }),
    }
}

/// Decides how to go on after one attempt to read a frame into `buffer`: a
/// read of `n` bytes gives the first `n` bytes of the buffer as the frame, a
/// stream that would block is waited for and tried again, and every other
/// failure ends the exchange with its cause.
pub fn after_read(buffer: Vec<u8>, attempt: Attempt) -> (step: ReceiveStep)
    ensures
        attempt matches Attempt::Moved(n) ==> step matches ReceiveStep::Received(frame)
            && frame@ == filled(buffer@, n as int),
        attempt is WouldBlock ==> step == ReceiveStep::AwaitReadable,
        attempt matches Attempt::Failed(cause) ==> step == ReceiveStep::Abort(IoError { cause }),
{
    match attempt {
        Attempt::Moved(n) => {
            let mut frame = buffer;
            frame.truncate(n);
            assert(frame@ =~= filled(buffer@, n as int));
            ReceiveStep::Received(frame)
        },
        Attempt::WouldBlock => ReceiveStep::AwaitReadable,
        Attempt::Failed(cause) => ReceiveStep::Abort(IoError { cause }),
    }
}

} // verus!
