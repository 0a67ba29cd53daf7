//! The channels of tokio that commands and answers go through.
//!
//! What a channel holds is shared with other threads, and nothing is said of it
//! here. But each use of one leaves a record of what was handed over and of what
//! came of it, which nothing else can make.

use vstd::prelude::*;

use tokio::sync::mpsc::{UnboundedReceiver, UnboundedSender};
use tokio::sync::oneshot::Sender;

verus! {

/// The sending half of tokio's oneshot channel.
#[verifier::external_type_specification]
#[verifier::external_body]
#[verifier::reject_recursive_types(T)]
pub struct ExSender<T>(tokio::sync::oneshot::Sender<T>);

/// The sending half of tokio's unbounded channel.
#[verifier::external_type_specification]
#[verifier::external_body]
#[verifier::reject_recursive_types(T)]
pub struct ExUnboundedSender<T>(tokio::sync::mpsc::UnboundedSender<T>);

/// The receiving half of tokio's unbounded channel.
#[verifier::external_type_specification]
#[verifier::external_body]
#[verifier::reject_recursive_types(T)]
pub struct ExUnboundedReceiver<T>(tokio::sync::mpsc::UnboundedReceiver<T>);

// ── Answers ─────────────────────────────────────────────────────────────────

/// The record of a value that was sent to the one who waits for it.
#[verifier::reject_recursive_types(T)]
pub struct Sending<T> {
    place: Ghost<Sender<T>>,
    value: Ghost<T>,
    back: Option<T>,
}

impl<T> Sending<T> {
    /// Where the value was sent to.
    pub closed spec fn place(&self) -> Sender<T> {
        self.place@
    }

    /// The value that was sent.
    pub closed spec fn value(&self) -> T {
        self.value@
    }

    /// The value again, where nobody waits for it any more.
    pub closed spec fn unsent(&self) -> Option<T> {
        self.back
    }

    /// The value again, where nobody waits for it any more.
    pub fn into_unsent(self) -> (r: Option<T>)
        ensures
            r == self.unsent(),
    {
        self.back
    }
}

/// `tokio::sync::oneshot::Sender::send`, with a record of it: of the half that it
/// was called on, of the value that it was given, and of the value that it handed
/// back. It hands the value back where the receiving half is gone, which is for
/// other threads to decide. That a value which was sent is what the receiving
/// half gets is left unsaid: that half is in other hands.
#[verifier::external_body]
pub(crate) fn send_answer<T>(tx: Sender<T>, value: T) -> (r: Sending<T>)
    ensures
        r.place() == tx,
        r.value() == value,
        r.unsent() matches Some(unsent) ==> unsent == value,
{
    Sending { place: Ghost(tx), value: Ghost(value), back: tx.send(value).err() }
}

// ── Commands ────────────────────────────────────────────────────────────────

/// The record of a command that was submitted to a queue.
#[verifier::reject_recursive_types(C)]
pub struct Queueing<C> {
    queue: Ghost<UnboundedSender<C>>,
    command: Ghost<C>,
    back: Option<C>,
}

impl<C> Queueing<C> {
    /// The queue that the command was submitted to.
    pub closed spec fn queue(&self) -> UnboundedSender<C> {
        self.queue@
    }

    /// The command that was submitted.
    pub closed spec fn command(&self) -> C {
        self.command@
    }

    /// The command again, where nobody takes commands any more.
    pub closed spec fn unsent(&self) -> Option<C> {
        self.back
    }

    /// Whether the command was queued.
    pub fn is_queued(&self) -> (r: bool)
        ensures
            r == (self.unsent() is None),
    {
        self.back.is_none()
    }
}

/// `tokio::sync::mpsc::UnboundedSender::send`, with a record of it: of the half
/// that it was called on, of the command that it was given, and of the command
/// that it handed back. It hands the command back where the receiving half is
/// closed, which is for other threads to decide. That a command which was sent is
/// now in the queue is left unsaid: the queue is shared with other threads.
#[verifier::external_body]
pub(crate) fn send_command<C>(tx: &UnboundedSender<C>, cmd: C) -> (r: Queueing<C>)
    ensures
        r.queue() == *tx,
        r.command() == cmd,
        r.unsent() matches Some(unsent) ==> unsent == cmd,
{
    Queueing { queue: Ghost(*tx), command: Ghost(cmd), back: tx.send(cmd).err().map(|e| e.0) }
}

/// The receiving half of a queue of commands, with a record of what it gave.
#[verifier::reject_recursive_types(C)]
pub struct CommandQueue<C> {
    rx: UnboundedReceiver<C>,
    answers: Ghost<Seq<Option<C>>>,
}

impl<C> CommandQueue<C> {
    /// What the queue gave each time that it was asked for a command: one, or
    /// nothing.
    pub closed spec fn answers(&self) -> Seq<Option<C>> {
        self.answers@
    }

    /// A queue that was not asked for a command yet.
    pub fn new(rx: UnboundedReceiver<C>) -> (r: CommandQueue<C>)
        ensures
            r.answers() == Seq::<Option<C>>::empty(),
    {
        CommandQueue { rx, answers: Ghost(Seq::empty()) }
    }

    /// `tokio::sync::mpsc::UnboundedReceiver::try_recv`, with a record of it: the
    /// oldest command in the queue, or nothing where there is none. Which of the
    /// two it is, and which command, is for other threads to decide, so that
    /// nothing is said of it but that what it gave is on record.
    #[verifier::external_body]
    pub(crate) fn receive_command(&mut self) -> (r: Option<C>)
        ensures
            final(self).answers() == old(self).answers().push(r),
    {
        self.rx.try_recv().ok()
    }
}

} // verus!
