//! An open file.

use vstd::prelude::*;

use std::sync::Arc;

use crate::bridge;
use crate::bridge::{receive, FhPtr};
use crate::channel::Queueing;
use crate::client::{NfsInner, Operation};
use crate::error::Error;
use crate::event_loop;
use crate::event_loop::LoopEffect;

verus! {

/// An open file on an export.
#[verifier::reject_recursive_types(C)]
pub struct NfsFile<C, T> {
    pub client: Arc<NfsInner<C, T>>,
    pub fh: FhPtr,
}

impl<C, T> NfsFile<C, T> {
    /// Submits a command to the event loop, and gives the record of it.
    pub fn submit(&self, cmd: C) -> (r: (Result<LoopEffect, Error>, Queueing<C>))
        ensures
            event_loop::submits(self.client.event_loop, cmd, r),
            r.1.queue() == self.client.event_loop.cmd_tx,
            r.1.command() == cmd,
            r.1.unsent() is None ==> r.0 == Ok::<LoopEffect, Error>(
                LoopEffect::Write { fd: self.client.event_loop.wake_w, byte: 1 },
            ),
            r.1.unsent() is Some ==> r.0 == Err::<LoopEffect, Error>(Error::Cancelled),
    {
        self.client.event_loop.submit(cmd)
    }

    /// Reads into `buf` what the file holds from `offset` on, at most as many
    /// bytes as fit.
    pub fn read_at(&self, buf: &[u8], offset: u64) -> (r: Operation)
        ensures
            r matches Operation::Pread { fh, offset: at, count } && fh == self.fh && at == offset
                && count == buf@.len(),
    {
        Operation::Pread { fh: self.fh, offset, count: buf.len() as u64 }
    }

    /// How many bytes were read, once the read was answered.
    pub fn read_answered(&self, answer: Option<Result<usize, (i32, String)>>) -> (r: Result<
        usize,
        Error,
    >)
        ensures
            r == bridge::received(answer),
            answer matches Some(Ok(n)) ==> r == Ok::<usize, Error>(n),
            answer matches Some(Err((code, message))) ==> r == Err::<usize, Error>(
                Error::Nfs { code, message },
            ),
            answer is None ==> r == Err::<usize, Error>(Error::Cancelled),
    {
        receive(answer)
    }

    /// Asks for the attributes of the file.
    pub fn fstat(&self) -> (r: Operation)
        ensures
            r == (Operation::Fstat { fh: self.fh }),
    {
        Operation::Fstat { fh: self.fh }
    }

    /// Closes the file.
    pub fn close(&self) -> (r: Operation)
        ensures
            r == (Operation::Close { fh: self.fh }),
    {
        Operation::Close { fh: self.fh }
    }

    /// What a close comes to once it was answered. The file is gone then; only
    /// where no answer came it is still there, to be closed when it is dropped.
    pub fn close_answered(self, answer: Option<Result<(), (i32, String)>>) -> (r: (
        Result<(), Error>,
        Option<NfsFile<C, T>>,
    ))
        ensures
            r.0 == bridge::received(answer),
            answer matches Some(Ok(())) ==> r.0 is Ok,
            answer matches Some(Err((code, message))) ==> r.0 == Err::<(), Error>(
                Error::Nfs { code, message },
            ),
            answer is None ==> r.0 == Err::<(), Error>(Error::Cancelled),
            r.1 == if answer is Some {
                None
            } else {
                Some(self)
            },
    {
        match answer {
            Some(result) => (crate::error::bridge_err(result), None),
            None => (Err(Error::Cancelled), Some(self)),
        }
    }

    /// The close that a file sends when it is dropped, to which nobody waits for
    /// an answer. A null file has nothing to close.
    pub fn drop_operation(&self) -> (r: Option<Operation>)
        ensures
            r == if self.fh.0.addr != 0 {
                Some(Operation::Close { fh: self.fh })
            } else {
                None
            },
    {
        if self.fh.get().addr != 0 {
            Some(Operation::Close { fh: self.fh })
        } else {
            None
        }
    }
}

} // verus!
