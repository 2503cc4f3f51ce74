//! Copying from a reader to a writer until a condition holds, one decision
//! at a time.
//!
//! The copy itself reads and writes, which this crate leaves to its caller.
//! What is here is the rule that the caller follows: told what the last
//! operation gave, [`copy_until`] says what to do next. The caller keeps a
//! buffer of [`DEFAULT_BUF_SIZE`] bytes, starts with [`CopyEvent::Started`],
//! performs each step and reports back, until the step is
//! [`CopyStep::Done`].

use vstd::prelude::*;

verus! {

/// Size of the buffer that a copy goes through.
pub const DEFAULT_BUF_SIZE: usize = 8 * 1024;

/// What the last operation of a copy gave.
#[derive(Debug)]
pub enum CopyEvent<E> {
    /// Nothing has been done yet.
    Started,
    /// A read put this many bytes at the start of the buffer.
    Read(usize),
    /// A read was interrupted before it gave anything.
    Interrupted,
    /// A read failed.
    ReadFailed(E),
    /// The bytes were written out in full; `stop` tells whether the
    /// caller's condition holds now.
    Written { stop: bool },
    /// A write failed.
    WriteFailed(E),
}

/// What a copy does next.
#[derive(Debug)]
pub enum CopyStep<E> {
    /// Read into the buffer.
    Read,
    /// Write out this many bytes from the start of the buffer, then see
    /// whether the condition holds.
    Write(usize),
    /// Stop, with this result.
    Done(Result<(), E>),
}

/// The step that follows an event.
///
/// A copy reads until a read gives nothing or the condition holds after a
/// write. Every read that gave bytes is followed by a write of exactly
/// those bytes. An interrupted read is tried again. Any other failure ends
/// the copy and is its result.
pub open spec fn next_step<E>(event: CopyEvent<E>) -> CopyStep<E> {
    match event {
        CopyEvent::Started => CopyStep::Read,
        CopyEvent::Read(len) => if len == 0 {
            CopyStep::Done(Ok(()))
        } else {
            CopyStep::Write(len)
        },
        CopyEvent::Interrupted => CopyStep::Read,
        CopyEvent::ReadFailed(error) => CopyStep::Done(Err(error)),
        CopyEvent::Written { stop } => if stop {
            CopyStep::Done(Ok(()))
        } else {
            CopyStep::Read
        },
        CopyEvent::WriteFailed(error) => CopyStep::Done(Err(error)),
    }
}

/// Decides the next step of a copy from what the last one gave.
///
/// A read cannot give more than the buffer holds, so a write never reaches
/// past the buffer's end.
pub fn copy_until<E>(event: CopyEvent<E>) -> (step: CopyStep<E>)
    requires
        event matches CopyEvent::Read(len) ==> len <= DEFAULT_BUF_SIZE,
    ensures
        step == next_step(event),
        step matches CopyStep::Write(len) ==> 0 < len <= DEFAULT_BUF_SIZE,
{
    match event {
        CopyEvent::Started => CopyStep::Read,
        CopyEvent::Read(len) => {
            if len == 0 {
                CopyStep::Done(Ok(()))
            } else {
                CopyStep::Write(len)
            }
        },
        CopyEvent::Interrupted => CopyStep::Read,
        CopyEvent::ReadFailed(error) => CopyStep::Done(Err(error)),
        CopyEvent::Written { stop } => {
            if stop {
                CopyStep::Done(Ok(()))
            } else {
                CopyStep::Read
            }
        },
        CopyEvent::WriteFailed(error) => CopyStep::Done(Err(error)),
    }
}

} // verus!
