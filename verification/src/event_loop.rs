//! The event loop: how it is started, how it is told things, and what it does.
//!
//! A driver thread alternates between `poll(2)` and libnfs. Each time around it
//! reads the descriptor and the wanted events anew, so that a descriptor that
//! changes during an operation of several steps needs no further care. Commands
//! reach it through a queue; a byte in a pipe wakes it up.

use vstd::prelude::*;
use vstd::string::*;

use tokio::sync::mpsc::UnboundedSender;

use crate::channel::{send_command, Queueing};
use crate::error::{Error, ErrorView, IoError};
use crate::text;
use crate::text::push_decimal;

verus! {

// ── The handle ──────────────────────────────────────────────────────────────

/// Something to be done to the driver thread from outside.
#[derive(Debug, Clone, Copy, PartialEq, Eq, Structural)]
pub enum LoopEffect {
    /// Raise the flag that tells the driver to exit.
    RaiseStop,
    /// Write that byte to that descriptor.
    Write { fd: i32, byte: u8 },
    /// Close that descriptor.
    Close { fd: i32 },
}

/// A handle to the driver thread, whose handle is of type `T`, and to its queue
/// of commands of type `C`.
#[verifier::reject_recursive_types(C)]
pub struct EventLoop<C, T> {
    /// The driver thread, until it is taken out to be joined.
    pub thread: Option<T>,
    /// The queue of commands.
    pub cmd_tx: UnboundedSender<C>,
    /// The write end of the wake pipe, negative once it is closed.
    pub wake_w: i32,
}

/// The byte in the wake pipe that makes `poll(2)` return.
pub open spec fn wake_effect(wake_w: i32) -> LoopEffect {
    LoopEffect::Write { fd: wake_w, byte: 1 }
}

/// What submitting a command comes to, given whether it could be queued.
pub open spec fn submit_result(queued: bool, wake_w: i32) -> Result<LoopEffect, Error> {
    if queued {
        Ok(wake_effect(wake_w))
    } else {
        Err(Error::Cancelled)
    }
}

/// Whether `r` is what comes of submitting the command: it was handed to the
/// loop's own queue, and the result says whether it could be queued. One that
/// could not was handed back.
pub open spec fn submits<C, T>(
    event_loop: EventLoop<C, T>,
    cmd: C,
    r: (Result<LoopEffect, Error>, Queueing<C>),
) -> bool {
    &&& r.1.queue() == event_loop.cmd_tx
    &&& r.1.command() == cmd
    &&& r.1.unsent() matches Some(unsent) ==> unsent == cmd
    &&& r.0 == submit_result(r.1.unsent() is None, event_loop.wake_w)
}

impl<C, T> EventLoop<C, T> {
    /// Begins to start an event loop.
    pub fn start() -> (r: Startup<T>)
        ensures
            r.stage is Descriptor,
            r.nonblock == 0x80 || r.nonblock == 0x800 || r.nonblock == 0x4000,
    {
        Startup { nonblock: libc_o_nonblock(), stage: StartStage::Descriptor }
    }

    /// Submits a command to the queue of the driver thread, and gives the record
    /// of it. The effect wakes the thread up. Where the thread is gone, the
    /// operation is cancelled.
    pub fn submit(&self, cmd: C) -> (r: (Result<LoopEffect, Error>, Queueing<C>))
        ensures
            submits(*self, cmd, r),
            r.1.unsent() is None ==> r.0 == Ok::<LoopEffect, Error>(
                LoopEffect::Write { fd: self.wake_w, byte: 1 },
            ),
            r.1.unsent() is Some ==> r.0 == Err::<LoopEffect, Error>(Error::Cancelled),
    {
        let record = send_command(&self.cmd_tx, cmd);
        (self.submitted(record.is_queued()), record)
    }

    /// What submitting a command comes to, given whether it could be queued.
    pub fn submitted(&self, queued: bool) -> (r: Result<LoopEffect, Error>)
        ensures
            r == submit_result(queued, self.wake_w),
            queued ==> r == Ok::<LoopEffect, Error>(
                LoopEffect::Write { fd: self.wake_w, byte: 1 },
            ),
            !queued ==> r == Err::<LoopEffect, Error>(Error::Cancelled),
    {
        if queued {
            Ok(self.wake())
        } else {
            Err(Error::Cancelled)
        }
    }

    /// Tells the driver thread to exit: the flag is raised first, so that the
    /// thread finds it once it wakes up.
    pub fn stop(&self) -> (r: Vec<LoopEffect>)
        ensures
            r@ == seq![LoopEffect::RaiseStop, wake_effect(self.wake_w)],
            r@.last() == (LoopEffect::Write { fd: self.wake_w, byte: 1 }),
    {
        let mut effects: Vec<LoopEffect> = Vec::new();
        effects.push(LoopEffect::RaiseStop);
        effects.push(self.wake());
        effects
    }

    /// Takes the thread out, to be joined.
    pub fn take_task(&mut self) -> (r: Option<T>)
        ensures
            r == old(self).thread,
            final(self).thread is None,
            final(self).cmd_tx == old(self).cmd_tx,
            final(self).wake_w == old(self).wake_w,
    {
        self.thread.take()
    }

    /// One byte for the wake pipe, so that `poll(2)` returns at once.
    pub fn wake(&self) -> (r: LoopEffect)
        ensures
            r == wake_effect(self.wake_w),
            r == (LoopEffect::Write { fd: self.wake_w, byte: 1 }),
    {
        LoopEffect::Write { fd: self.wake_w, byte: 1 }
    }

    /// Gives up the write end of the wake pipe. There is nothing left to close
    /// the next time.
    pub fn release(&mut self) -> (r: Option<LoopEffect>)
        ensures
            r == if old(self).wake_w >= 0 {
                Some(LoopEffect::Close { fd: old(self).wake_w })
            } else {
                None
            },
            final(self).wake_w < 0,
            old(self).wake_w < 0 ==> final(self).wake_w == old(self).wake_w,
            old(self).wake_w >= 0 ==> final(self).wake_w == -1,
            final(self).thread == old(self).thread,
            final(self).cmd_tx == old(self).cmd_tx,
    {
        if self.wake_w >= 0 {
            let fd: i32 = self.wake_w;
            self.wake_w = -1;
            Some(LoopEffect::Close { fd })
        } else {
            None
        }
    }
}

// ── Starting ────────────────────────────────────────────────────────────────

/// `libc::O_NONBLOCK`, which on Linux is one of three values, by architecture.
#[verifier::external_body]
fn libc_o_nonblock() -> (r: i32)
    ensures
        r == 0x80 || r == 0x800 || r == 0x4000,
{
    libc::O_NONBLOCK
}

/// The name of the driver thread.
pub const THREAD_NAME: &'static str = "libnfs-poll";

/// How far an event loop is started.
pub enum StartStage<T> {
    /// The descriptor of the context is wanted.
    Descriptor,
    /// The wake pipe is wanted.
    Pipe,
    /// The flags of the read end are wanted.
    Flags { wake_r: i32, wake_w: i32 },
    /// The read end is to get these flags.
    Nonblocking { wake_r: i32, wake_w: i32, flags: i32 },
    /// The driver thread is wanted.
    Thread { wake_r: i32, wake_w: i32 },
    /// All is there.
    Started { thread: T, wake_w: i32 },
    /// It could not be started.
    Failed(Error),
}

/// `StartStage`, the error taken as text.
pub enum StartView<T> {
    Descriptor,
    Pipe,
    Flags { wake_r: i32, wake_w: i32 },
    Nonblocking { wake_r: i32, wake_w: i32, flags: i32 },
    Thread { wake_r: i32, wake_w: i32 },
    Started { thread: T, wake_w: i32 },
    Failed(ErrorView),
}

impl<T> View for StartStage<T> {
    type V = StartView<T>;

    open spec fn view(&self) -> StartView<T> {
        match *self {
            StartStage::Descriptor => StartView::Descriptor,
            StartStage::Pipe => StartView::Pipe,
            StartStage::Flags { wake_r, wake_w } => StartView::Flags { wake_r, wake_w },
            StartStage::Nonblocking { wake_r, wake_w, flags } => StartView::Nonblocking {
                wake_r,
                wake_w,
                flags,
            },
            StartStage::Thread { wake_r, wake_w } => StartView::Thread { wake_r, wake_w },
            StartStage::Started { thread, wake_w } => StartView::Started { thread, wake_w },
            StartStage::Failed(e) => StartView::Failed(e@),
        }
    }
}

/// An event loop that is being started.
pub struct Startup<T> {
    /// The flag by which a descriptor does not block.
    pub nonblock: i32,
    pub stage: StartStage<T>,
}

/// What is to be done to start an event loop.
#[derive(Debug, Clone, Copy, PartialEq, Eq, Structural)]
pub enum StartRequest {
    /// Ask the context for its descriptor.
    GetFd,
    /// Make a pipe.
    MakePipe,
    /// Read the flags of that descriptor.
    GetFlags { fd: i32 },
    /// Set the flags of that descriptor.
    SetFlags { fd: i32, flags: i32 },
    /// Start the driver thread, of the name `THREAD_NAME`, which reads that end
    /// of the wake pipe.
    Spawn { wake_r: i32 },
    /// Nothing.
    Finish,
}

/// What came of it.
pub enum StartAnswer<T> {
    Fd(i32),
    /// The read end and the write end.
    Pipe(Result<(i32, i32), IoError>),
    Flags(i32),
    FlagsSet,
    Spawned(Result<T, IoError>),
}

/// What is to be done next to start an event loop.
pub open spec fn start_request<T>(stage: StartView<T>) -> StartRequest {
    match stage {
        StartView::Descriptor => StartRequest::GetFd,
        StartView::Pipe => StartRequest::MakePipe,
        StartView::Flags { wake_r, wake_w } => StartRequest::GetFlags { fd: wake_r },
        StartView::Nonblocking { wake_r, wake_w, flags } => StartRequest::SetFlags {
            fd: wake_r,
            flags,
        },
        StartView::Thread { wake_r, wake_w } => StartRequest::Spawn { wake_r },
        StartView::Started { thread, wake_w } => StartRequest::Finish,
        StartView::Failed(e) => StartRequest::Finish,
    }
}

/// The error of a context without a descriptor.
pub open spec fn bad_fd_error(fd: i32) -> ErrorView {
    ErrorView::Io {
        os_code: None,
        message: "nfs_get_fd returned "@ + text::decimal(fd as int),
    }
}

/// The error of an operating system that refused something.
pub open spec fn io_error(e: IoError) -> ErrorView {
    ErrorView::Io { os_code: e.code, message: e.message@ }
}

/// How far the loop is started once a request was answered. An answer to
/// something else changes nothing.
pub open spec fn start_answer<T>(
    nonblock: i32,
    stage: StartView<T>,
    answer: StartAnswer<T>,
) -> StartView<T> {
    match (stage, answer) {
        (StartView::Descriptor, StartAnswer::Fd(fd)) => if fd < 0 {
            StartView::Failed(bad_fd_error(fd))
        } else {
            StartView::Pipe
        },
        (StartView::Pipe, StartAnswer::Pipe(Ok((wake_r, wake_w)))) => StartView::Flags {
            wake_r,
            wake_w,
        },
        (StartView::Pipe, StartAnswer::Pipe(Err(e))) => StartView::Failed(io_error(e)),
        (StartView::Flags { wake_r, wake_w }, StartAnswer::Flags(flags)) =>
            StartView::Nonblocking { wake_r, wake_w, flags: flags | nonblock },
        (StartView::Nonblocking { wake_r, wake_w, flags }, StartAnswer::FlagsSet) =>
            StartView::Thread { wake_r, wake_w },
        (StartView::Thread { wake_r, wake_w }, StartAnswer::Spawned(Ok(thread))) =>
            StartView::Started { thread, wake_w },
        (StartView::Thread { wake_r, wake_w }, StartAnswer::Spawned(Err(e))) => StartView::Failed(
            io_error(e),
        ),
        _ => stage,
    }
}

impl<T> Startup<T> {
    /// What is to be done next.
    pub fn request(&self) -> (r: StartRequest)
        ensures
            r == start_request(self.stage@),
            match self.stage {
                StartStage::Descriptor => r == StartRequest::GetFd,
                StartStage::Pipe => r == StartRequest::MakePipe,
                StartStage::Flags { wake_r, .. } => r == (StartRequest::GetFlags { fd: wake_r }),
                StartStage::Nonblocking { wake_r, flags, .. } => r == (StartRequest::SetFlags {
                    fd: wake_r,
                    flags,
                }),
                StartStage::Thread { wake_r, .. } => r == (StartRequest::Spawn { wake_r }),
                StartStage::Started { .. } => r == StartRequest::Finish,
                StartStage::Failed(_) => r == StartRequest::Finish,
            },
    {
        match &self.stage {
            StartStage::Descriptor => StartRequest::GetFd,
            StartStage::Pipe => StartRequest::MakePipe,
            StartStage::Flags { wake_r, .. } => StartRequest::GetFlags { fd: *wake_r },
            StartStage::Nonblocking { wake_r, flags, .. } => StartRequest::SetFlags {
                fd: *wake_r,
                flags: *flags,
            },
            StartStage::Thread { wake_r, .. } => StartRequest::Spawn { wake_r: *wake_r },
            StartStage::Started { .. } => StartRequest::Finish,
            StartStage::Failed(_) => StartRequest::Finish,
        }
    }

    /// How far the loop is started once the request was answered.
    pub fn answer(self, answer: StartAnswer<T>) -> (r: Startup<T>)
        ensures
            r.nonblock == self.nonblock,
            r.stage@ == start_answer(self.nonblock, self.stage@, answer),
            match (self.stage, answer) {
                (StartStage::Descriptor, StartAnswer::Fd(fd)) => if fd < 0 {
                    r.stage matches StartStage::Failed(Error::Io(e)) && e.code is None && e.message@
                        == "nfs_get_fd returned "@ + text::decimal(fd as int)
                } else {
                    r.stage is Pipe
                },
                (StartStage::Pipe, StartAnswer::Pipe(Ok((wake_r, wake_w)))) => r.stage
                    == (StartStage::<T>::Flags { wake_r, wake_w }),
                (StartStage::Pipe, StartAnswer::Pipe(Err(e))) => r.stage == StartStage::<T>::Failed(
                    Error::Io(e),
                ),
                (StartStage::Flags { wake_r, wake_w }, StartAnswer::Flags(flags)) => r.stage
                    == (StartStage::<T>::Nonblocking {
                    wake_r,
                    wake_w,
                    flags: flags | self.nonblock,
                }),
                (StartStage::Nonblocking { wake_r, wake_w, .. }, StartAnswer::FlagsSet) => r.stage
                    == (StartStage::<T>::Thread { wake_r, wake_w }),
                (StartStage::Thread { wake_w, .. }, StartAnswer::Spawned(Ok(thread))) => r.stage
                    == (StartStage::<T>::Started { thread, wake_w }),
                (StartStage::Thread { .. }, StartAnswer::Spawned(Err(e))) => r.stage
                    == StartStage::<T>::Failed(Error::Io(e)),
                _ => r.stage == self.stage,
            },
    {
        let Startup { nonblock, stage } = self;
        let stage = match (stage, answer) {
            (StartStage::Descriptor, StartAnswer::Fd(fd)) => {
                if fd < 0 {
                    let mut message = String::new();
                    message.append("nfs_get_fd returned ");
                    push_decimal(&mut message, fd as i64);
                    assert(message@ =~= "nfs_get_fd returned "@ + text::decimal(fd as int));
                    StartStage::Failed(Error::Io(IoError { code: None, message }))
                } else {
                    StartStage::Pipe
                }
            },
            (StartStage::Pipe, StartAnswer::Pipe(Ok((wake_r, wake_w)))) => StartStage::Flags {
                wake_r,
                wake_w,
            },
            (StartStage::Pipe, StartAnswer::Pipe(Err(e))) => StartStage::Failed(Error::Io(e)),
            (StartStage::Flags { wake_r, wake_w }, StartAnswer::Flags(flags)) =>
                StartStage::Nonblocking { wake_r, wake_w, flags: flags | nonblock },
            (StartStage::Nonblocking { wake_r, wake_w, .. }, StartAnswer::FlagsSet) =>
                StartStage::Thread { wake_r, wake_w },
            (StartStage::Thread { wake_w, .. }, StartAnswer::Spawned(Ok(thread))) =>
                StartStage::Started { thread, wake_w },
            (StartStage::Thread { .. }, StartAnswer::Spawned(Err(e))) => StartStage::Failed(
                Error::Io(e),
            ),
            (stage, _) => stage,
        };
        Startup { nonblock, stage }
    }

    /// The handle to the event loop, or why there is none; nothing as long as
    /// something is still to be done.
    pub fn finish<C>(self, cmd_tx: UnboundedSender<C>) -> (r: Option<
        Result<EventLoop<C, T>, Error>,
    >)
        ensures
            r == match self.stage {
                StartStage::Started { thread, wake_w } => Some(
                    Ok::<EventLoop<C, T>, Error>(
                        EventLoop { thread: Some(thread), cmd_tx, wake_w },
                    ),
                ),
                StartStage::Failed(e) => Some(Err::<EventLoop<C, T>, Error>(e)),
                _ => None,
            },
    {
        match self.stage {
            StartStage::Started { thread, wake_w } => Some(
                Ok(EventLoop { thread: Some(thread), cmd_tx, wake_w }),
            ),
            StartStage::Failed(e) => Some(Err(e)),
            _ => None,
        }
    }
}

/// The stage after the answers.
pub open spec fn start_run<T>(
    nonblock: i32,
    stage: StartView<T>,
    answers: Seq<StartAnswer<T>>,
) -> StartView<T>
    decreases answers.len(),
{
    if answers.len() == 0 {
        stage
    } else {
        start_answer(
            nonblock,
            start_run(nonblock, stage, answers.drop_last()),
            answers.last(),
        )
    }
}

/// An event loop is started exactly where the context has a descriptor and the
/// pipe and the thread could be had; otherwise the first of these that was
/// missing is the error. The flags that the read end of the pipe gets are those
/// that it had, together with the one by which it does not block.
pub proof fn law_start_outcome<T>(
    nonblock: i32,
    fd: i32,
    pipe: Result<(i32, i32), IoError>,
    flags: i32,
    spawned: Result<T, IoError>,
)
    ensures
        ({
            let prepared = seq![
                StartAnswer::<T>::Fd(fd),
                StartAnswer::Pipe(pipe),
                StartAnswer::Flags(flags),
            ];
            let all = prepared + seq![StartAnswer::FlagsSet, StartAnswer::Spawned(spawned)];
            &&& start_run(nonblock, StartView::Descriptor, all) == if fd < 0 {
                StartView::Failed(bad_fd_error(fd))
            } else {
                match (pipe, spawned) {
                    (Err(e), _) => StartView::Failed(io_error(e)),
                    (Ok(_), Err(e)) => StartView::Failed(io_error(e)),
                    (Ok((wake_r, wake_w)), Ok(thread)) => StartView::Started { thread, wake_w },
                }
            }
            &&& fd >= 0 && pipe is Ok ==> start_request(
                start_run(nonblock, StartView::<T>::Descriptor, prepared),
            ) == (StartRequest::SetFlags { fd: pipe->Ok_0.0, flags: flags | nonblock })
        }),
{
    let none: Seq<StartAnswer<T>> = seq![];
    let s1 = none.push(StartAnswer::Fd(fd));
    let s2 = s1.push(StartAnswer::Pipe(pipe));
    let s3 = s2.push(StartAnswer::Flags(flags));
    let s4 = s3.push(StartAnswer::FlagsSet);
    let s5 = s4.push(StartAnswer::Spawned(spawned));
    assert(s1.drop_last() =~= none);
    assert(s2.drop_last() =~= s1);
    assert(s3.drop_last() =~= s2);
    assert(s4.drop_last() =~= s3);
    assert(s5.drop_last() =~= s4);
    let prepared = seq![
        StartAnswer::<T>::Fd(fd),
        StartAnswer::Pipe(pipe),
        StartAnswer::Flags(flags),
    ];
    assert(prepared =~= s3);
    assert(prepared + seq![StartAnswer::FlagsSet, StartAnswer::Spawned(spawned)] =~= s5);
    let d = StartView::<T>::Descriptor;
    assert(start_run(nonblock, d, none) == d);
    assert(start_run(nonblock, d, s1) == start_answer(nonblock, d, StartAnswer::Fd(fd)));
    assert(start_run(nonblock, d, s2) == start_answer(
        nonblock,
        start_run(nonblock, d, s1),
        StartAnswer::Pipe(pipe),
    ));
    assert(start_run(nonblock, d, s3) == start_answer(
        nonblock,
        start_run(nonblock, d, s2),
        StartAnswer::Flags(flags),
    ));
    assert(start_run(nonblock, d, s4) == start_answer(
        nonblock,
        start_run(nonblock, d, s3),
        StartAnswer::FlagsSet,
    ));
}

/// What a start that succeeds asks for, one thing after the other: the descriptor
/// of the context, a pipe, the flags of its read end, those flags together with
/// the one by which it does not block, and a thread that reads that end. The loop
/// that comes of it has this thread, and the write end.
pub proof fn law_start_requests<T>(
    nonblock: i32,
    fd: i32,
    wake_r: i32,
    wake_w: i32,
    flags: i32,
    thread: T,
)
    requires
        fd >= 0,
    ensures
        ({
            let s0 = StartView::<T>::Descriptor;
            let s1 = start_answer(nonblock, s0, StartAnswer::Fd(fd));
            let s2 = start_answer(nonblock, s1, StartAnswer::Pipe(Ok((wake_r, wake_w))));
            let s3 = start_answer(nonblock, s2, StartAnswer::Flags(flags));
            let s4 = start_answer(nonblock, s3, StartAnswer::FlagsSet);
            let s5 = start_answer(nonblock, s4, StartAnswer::Spawned(Ok(thread)));
            &&& start_request(s0) == StartRequest::GetFd
            &&& start_request(s1) == StartRequest::MakePipe
            &&& start_request(s2) == (StartRequest::GetFlags { fd: wake_r })
            &&& start_request(s3) == (StartRequest::SetFlags { fd: wake_r, flags: flags | nonblock })
            &&& start_request(s4) == (StartRequest::Spawn { wake_r })
            &&& start_request(s5) == StartRequest::Finish
            &&& s5 == (StartView::<T>::Started { thread, wake_w })
        }),
{
}

/// What a start that fails comes to: there is nothing more to be done, and the
/// error says what was missing. That of a context without a descriptor quotes the
/// number; the others are those of the operating system.
pub proof fn law_start_failures<T>(
    nonblock: i32,
    fd: i32,
    wake_r: i32,
    wake_w: i32,
    e: IoError,
)
    ensures
        ({
            let no_fd = start_answer(nonblock, StartView::<T>::Descriptor, StartAnswer::Fd(fd));
            let no_pipe = start_answer(nonblock, StartView::<T>::Pipe, StartAnswer::Pipe(Err(e)));
            let no_thread = start_answer(
                nonblock,
                StartView::<T>::Thread { wake_r, wake_w },
                StartAnswer::Spawned(Err(e)),
            );
            &&& fd < 0 ==> no_fd == StartView::<T>::Failed(
                ErrorView::Io {
                    os_code: None,
                    message: "nfs_get_fd returned "@ + text::decimal(fd as int),
                },
            )
            &&& no_pipe == StartView::<T>::Failed(
                ErrorView::Io { os_code: e.code, message: e.message@ },
            )
            &&& no_thread == no_pipe
            &&& start_request(no_pipe) == StartRequest::Finish
            &&& fd < 0 ==> start_request(no_fd) == StartRequest::Finish
        }),
{
}

/// Whoever submits a command that is queued, or tells the driver to exit, writes
/// one byte of value one to the write end of the wake pipe, and a command that is
/// not queued is cancelled.
pub proof fn law_wake_writes_one_byte(wake_w: i32)
    ensures
        wake_effect(wake_w) == (LoopEffect::Write { fd: wake_w, byte: 1 }),
        submit_result(true, wake_w) == Ok::<LoopEffect, Error>(
            LoopEffect::Write { fd: wake_w, byte: 1 },
        ),
        submit_result(false, wake_w) == Err::<LoopEffect, Error>(Error::Cancelled),
{
}

/// The name of the driver thread.
pub proof fn law_thread_name()
    ensures
        THREAD_NAME@ == "libnfs-poll"@,
{
}

} // verus!
