//! The loop of the driver thread.
//!
//! The driver asks for one thing at a time and is told what came of it. A round
//! begins with a look at the stop flag; then the queued commands are run, the
//! descriptor and the events that the context wants are read, and `poll(2)`
//! waits for them and for the wake pipe.

use vstd::prelude::*;

use crate::channel::CommandQueue;
use crate::poll;
use crate::poll::{libc_eintr, libc_pollin};

verus! {

/// Why the driver exited.
#[derive(Debug, Clone, Copy, PartialEq, Eq, Structural)]
pub enum Exit {
    /// It was told to.
    StopRequested,
    /// The context has no descriptor.
    InvalidFd(i32),
    /// `poll(2)` failed, with that error number.
    PollFailed(Option<i32>),
}

/// Where in a round the driver is.
#[derive(Debug, Clone, Copy, PartialEq, Eq, Structural)]
pub enum Stage {
    /// The stop flag is to be looked at.
    Checking,
    /// Queued commands are to be run.
    Draining,
    /// The descriptor of the context is wanted.
    Descriptor,
    /// The events that the context wants on its descriptor are wanted.
    Events { fd: i32 },
    /// The descriptor and the wake pipe are to be polled.
    Polling { fd: i32, events: i16 },
    /// The wake pipe is to be emptied; these events were seen on the descriptor.
    Emptying { revents: i16 },
    /// The context is to handle these events.
    Serving { revents: i16 },
    /// The driver is done.
    Exited(Exit),
}

/// The driver thread's loop.
#[derive(Debug, Clone, Copy, PartialEq, Eq, Structural)]
pub struct Driver {
    /// The read end of the wake pipe.
    pub wake_r: i32,
    pub stage: Stage,
}

/// A descriptor and the events to wait for on it.
#[derive(Debug, Clone, Copy, PartialEq, Eq, Structural)]
pub struct PollFd {
    pub fd: i32,
    pub events: i16,
}

/// What the driver asks for.
#[derive(Debug, Clone, Copy, PartialEq, Eq, Structural)]
pub enum DriverRequest {
    /// Look at the stop flag.
    CheckStop,
    /// Run the next command of the queue.
    NextCommand,
    /// Ask the context for its descriptor.
    GetFd,
    /// Ask the context which events it wants.
    WhichEvents,
    /// Poll the two descriptors, for as long as the timeout says in
    /// milliseconds; a negative one waits for ever.
    Poll { nfs: PollFd, wake: PollFd, timeout: i32 },
    /// Read up to that many bytes from that descriptor.
    Read { fd: i32, len: usize },
    /// Let the context handle those events.
    Service { revents: i32 },
    /// Nothing: the driver is done.
    Finish(Exit),
}

/// What came of it.
#[derive(Debug, Clone, Copy, PartialEq, Eq, Structural)]
pub enum DriverAnswer {
    /// Whether the stop flag is raised.
    Stop(bool),
    /// Whether there was a command, which then was run.
    Command(bool),
    Fd(i32),
    Events(i32),
    /// What `poll(2)` returned, the error number where it failed, and the events
    /// that it reported for the two descriptors.
    Polled { ret: i32, errno: Option<i32>, nfs: i16, wake: i16 },
    /// What `read(2)` returned.
    Bytes(i64),
    /// What the context returned.
    Serviced(i32),
}

/// What the driver asks for.
pub open spec fn driver_request(d: Driver) -> DriverRequest {
    match d.stage {
        Stage::Checking => DriverRequest::CheckStop,
        Stage::Draining => DriverRequest::NextCommand,
        Stage::Descriptor => DriverRequest::GetFd,
        Stage::Events { fd } => DriverRequest::WhichEvents,
        Stage::Polling { fd, events } => DriverRequest::Poll {
            nfs: PollFd { fd, events },
            wake: PollFd { fd: d.wake_r, events: poll::pollin() },
            timeout: -1i32,
        },
        Stage::Emptying { revents } => DriverRequest::Read { fd: d.wake_r, len: 64 },
        Stage::Serving { revents } => DriverRequest::Service { revents: revents as i32 },
        Stage::Exited(exit) => DriverRequest::Finish(exit),
    }
}

/// The rest of a round, in which these events were seen on the descriptor: they
/// are handled, and where there are none the round is over.
pub open spec fn serve(revents: i16) -> Stage {
    if revents != 0 {
        Stage::Serving { revents }
    } else {
        Stage::Checking
    }
}

/// Where the driver is once it is told what came of its request. An answer to
/// something else changes nothing.
pub open spec fn next_stage(stage: Stage, answer: DriverAnswer) -> Stage {
    match (stage, answer) {
        (Stage::Checking, DriverAnswer::Stop(stop)) => if stop {
            Stage::Exited(Exit::StopRequested)
        } else {
            Stage::Draining
        },
        (Stage::Draining, DriverAnswer::Command(run)) => if run {
            Stage::Draining
        } else {
            Stage::Descriptor
        },
        (Stage::Descriptor, DriverAnswer::Fd(fd)) => if fd < 0 {
            Stage::Exited(Exit::InvalidFd(fd))
        } else {
            Stage::Events { fd }
        },
        (Stage::Events { fd }, DriverAnswer::Events(events)) => Stage::Polling {
            fd,
            events: events as i16,
        },
        (Stage::Polling { fd, events }, DriverAnswer::Polled { ret, errno, nfs, wake }) => if ret
            < 0 {
            if errno == Some(poll::eintr()) {
                Stage::Checking
            } else {
                Stage::Exited(Exit::PollFailed(errno))
            }
        } else if wake != 0 {
            Stage::Emptying { revents: nfs }
        } else {
            serve(nfs)
        },
        (Stage::Emptying { revents }, DriverAnswer::Bytes(n)) => if n > 0 {
            stage
        } else {
            serve(revents)
        },
        (Stage::Serving { revents }, DriverAnswer::Serviced(rc)) => Stage::Checking,
        _ => stage,
    }
}

/// The driver once it is told what came of its request.
pub open spec fn driver_answer(d: Driver, answer: DriverAnswer) -> Driver {
    Driver { wake_r: d.wake_r, stage: next_stage(d.stage, answer) }
}

impl Driver {
    /// A driver at the beginning of its first round.
    pub fn new(wake_r: i32) -> (r: Driver)
        ensures
            r == (Driver { wake_r, stage: Stage::Checking }),
    {
        Driver { wake_r, stage: Stage::Checking }
    }

    /// What the driver asks for.
    pub fn request(&self) -> (r: DriverRequest)
        ensures
            r == driver_request(*self),
    {
        match self.stage {
            Stage::Checking => DriverRequest::CheckStop,
            Stage::Draining => DriverRequest::NextCommand,
            Stage::Descriptor => DriverRequest::GetFd,
            Stage::Events { .. } => DriverRequest::WhichEvents,
            Stage::Polling { fd, events } => DriverRequest::Poll {
                nfs: PollFd { fd, events },
                wake: PollFd { fd: self.wake_r, events: libc_pollin() },
                timeout: -1,
            },
            Stage::Emptying { .. } => DriverRequest::Read { fd: self.wake_r, len: 64 },
            Stage::Serving { revents } => DriverRequest::Service { revents: revents as i32 },
            Stage::Exited(exit) => DriverRequest::Finish(exit),
        }
    }

    fn serve(revents: i16) -> (r: Stage)
        ensures
            r == serve(revents),
    {
        if revents != 0 {
            Stage::Serving { revents }
        } else {
            Stage::Checking
        }
    }

    /// The driver once it is told what came of its request.
    pub fn answer(self, answer: DriverAnswer) -> (r: Driver)
        ensures
            r == driver_answer(self, answer),
    {
        let stage = match (self.stage, answer) {
            (Stage::Checking, DriverAnswer::Stop(stop)) => {
                if stop {
                    Stage::Exited(Exit::StopRequested)
                } else {
                    Stage::Draining
                }
            },
            (Stage::Draining, DriverAnswer::Command(run)) => {
                if run {
                    Stage::Draining
                } else {
                    Stage::Descriptor
                }
            },
            (Stage::Descriptor, DriverAnswer::Fd(fd)) => {
                if fd < 0 {
                    Stage::Exited(Exit::InvalidFd(fd))
                } else {
                    Stage::Events { fd }
                }
            },
            (Stage::Events { fd }, DriverAnswer::Events(events)) => Stage::Polling {
                fd,
                events: #[verifier::truncate] (events as i16),
            },
            (Stage::Polling { .. }, DriverAnswer::Polled { ret, errno, nfs, wake }) => {
                if ret < 0 {
                    let interrupted = match errno {
                        Some(code) => code == libc_eintr(),
                        None => false,
                    };
                    if interrupted {
                        Stage::Checking
                    } else {
                        Stage::Exited(Exit::PollFailed(errno))
                    }
                } else if wake != 0 {
                    Stage::Emptying { revents: nfs }
                } else {
                    Driver::serve(nfs)
                }
            },
            (Stage::Emptying { revents }, DriverAnswer::Bytes(n)) => {
                if n > 0 {
                    Stage::Emptying { revents }
                } else {
                    Driver::serve(revents)
                }
            },
            (Stage::Serving { .. }, DriverAnswer::Serviced(_)) => Stage::Checking,
            (stage, _) => stage,
        };
        Driver { wake_r: self.wake_r, stage }
    }

    /// Takes the next command from the queue, where commands are to be run. A
    /// queue that holds none ends that part of the round; a command that was
    /// taken is to be run before the next is asked for.
    pub fn next_command<C>(self, queue: &mut CommandQueue<C>) -> (r: (Driver, Option<C>))
        ensures
            self.stage is Draining ==> {
                &&& final(queue).answers() == old(queue).answers().push(r.1)
                &&& r.0 == driver_answer(self, DriverAnswer::Command(r.1 is Some))
                &&& r.1 is Some ==> r.0 == self
                &&& r.1 is None ==> r.0 == (Driver { stage: Stage::Descriptor, ..self })
            },
            !(self.stage is Draining) ==> {
                &&& final(queue).answers() == old(queue).answers()
                &&& r == (self, None::<C>)
            },
    {
        match self.stage {
            Stage::Draining => self.took(queue.receive_command()),
            _ => (self, None),
        }
    }

    /// The driver once it took that command from the queue, or found none.
    pub fn took<C>(self, cmd: Option<C>) -> (r: (Driver, Option<C>))
        ensures
            r == (driver_answer(self, DriverAnswer::Command(cmd is Some)), cmd),
    {
        (self.answer(DriverAnswer::Command(cmd.is_some())), cmd)
    }
}

// ── Laws ────────────────────────────────────────────────────────────────────

/// The stage that a driver is in after the answers.
pub open spec fn run(start: Stage, answers: Seq<DriverAnswer>) -> Stage
    decreases answers.len(),
{
    if answers.len() == 0 {
        start
    } else {
        next_stage(run(start, answers.drop_last()), answers.last())
    }
}

/// Whether the answer is one to what is asked for in that stage.
pub open spec fn fits(stage: Stage, answer: DriverAnswer) -> bool {
    match stage {
        Stage::Checking => answer is Stop,
        Stage::Draining => answer is Command,
        Stage::Descriptor => answer is Fd,
        Stage::Events { fd } => answer is Events,
        Stage::Polling { fd, events } => answer is Polled,
        Stage::Emptying { revents } => answer is Bytes,
        Stage::Serving { revents } => answer is Serviced,
        Stage::Exited(exit) => false,
    }
}

/// Whether each answer is one to what was asked for.
pub open spec fn all_fit(start: Stage, answers: Seq<DriverAnswer>) -> bool
    decreases answers.len(),
{
    answers.len() > 0 ==> {
        &&& all_fit(start, answers.drop_last())
        &&& fits(run(start, answers.drop_last()), answers.last())
    }
}

/// The answers of the round that the driver is in.
pub open spec fn this_round(start: Stage, answers: Seq<DriverAnswer>) -> Seq<DriverAnswer>
    decreases answers.len(),
{
    if answers.len() == 0 || run(start, answers) is Checking {
        seq![]
    } else {
        this_round(start, answers.drop_last()).push(answers.last())
    }
}

/// The answers by which a round gets to running commands: the stop flag was
/// seen not to be raised, and each answer since is that a command was run.
pub open spec fn checked(round: Seq<DriverAnswer>) -> bool {
    &&& round.len() >= 1
    &&& round[0] == DriverAnswer::Stop(false)
    &&& forall|i: int| 1 <= i < round.len() ==> round[i] == DriverAnswer::Command(true)
}

/// The answers by which a round gets past the commands: besides, the queue was
/// seen to be empty.
pub open spec fn drained(round: Seq<DriverAnswer>) -> bool {
    &&& round.len() >= 2
    &&& round.last() == DriverAnswer::Command(false)
    &&& checked(round.drop_last())
}

/// The answers by which a round gets to polling: besides, the descriptor and
/// the wanted events were read.
pub open spec fn prepared(round: Seq<DriverAnswer>, fd: i32, events: i16) -> bool {
    &&& round.len() >= 4
    &&& round.last() matches DriverAnswer::Events(wanted) && wanted as i16 == events
    &&& round.drop_last().last() == DriverAnswer::Fd(fd)
    &&& fd >= 0
    &&& drained(round.drop_last().drop_last())
}

/// The answers by which a round gets to emptying the wake pipe or to handling
/// events: besides, `poll(2)` reported those events, and whatever was answered
/// since is that bytes were read from the wake pipe.
pub open spec fn polled(round: Seq<DriverAnswer>, revents: i16) -> bool
    decreases round.len(),
{
    round.len() >= 5 && match round.last() {
        DriverAnswer::Polled { ret, errno, nfs, wake } => {
            &&& ret >= 0
            &&& nfs == revents
            &&& exists|fd: i32, events: i16| #[trigger] prepared(round.drop_last(), fd, events)
        },
        DriverAnswer::Bytes(n) => polled(round.drop_last(), revents),
        _ => false,
    }
}

/// What the answers of a round tell of the stage that it is in.
pub open spec fn round_shape(stage: Stage, round: Seq<DriverAnswer>) -> bool {
    match stage {
        Stage::Checking => round.len() == 0,
        Stage::Draining => checked(round),
        Stage::Descriptor => drained(round),
        Stage::Events { fd } => {
            &&& round.len() >= 3
            &&& round.last() == DriverAnswer::Fd(fd)
            &&& fd >= 0
            &&& drained(round.drop_last())
        },
        Stage::Polling { fd, events } => prepared(round, fd, events),
        Stage::Emptying { revents } => polled(round, revents),
        Stage::Serving { revents } => polled(round, revents) && revents != 0,
        Stage::Exited(Exit::StopRequested) => round == seq![DriverAnswer::Stop(true)],
        Stage::Exited(Exit::InvalidFd(fd)) => {
            &&& round.len() >= 3
            &&& round.last() == DriverAnswer::Fd(fd)
            &&& fd < 0
            &&& drained(round.drop_last())
        },
        Stage::Exited(Exit::PollFailed(errno)) => {
            &&& round.len() >= 5
            &&& errno != Some(poll::eintr())
            &&& round.last() matches DriverAnswer::Polled { ret, errno: code, nfs, wake }
                && ret < 0 && code == errno
            &&& exists|fd: i32, events: i16| #[trigger] prepared(round.drop_last(), fd, events)
        },
    }
}

/// Every round of the driver is the same, whatever went before it. It looks at
/// the stop flag first and exits where the flag is raised. Otherwise it runs
/// commands until the queue is empty, and then reads the descriptor and the
/// wanted events anew before it polls them. The events that the context is made
/// to handle are the ones that `poll(2)` reported in this round. The driver exits
/// only where it was told to, where the context has no descriptor, or where
/// `poll(2)` failed otherwise than by an interruption.
pub proof fn law_round(answers: Seq<DriverAnswer>)
    requires
        all_fit(Stage::Checking, answers),
    ensures
        round_shape(run(Stage::Checking, answers), this_round(Stage::Checking, answers)),
    decreases answers.len(),
{
    if answers.len() > 0 {
        let before = answers.drop_last();
        law_round(before);
        let stage = run(Stage::Checking, before);
        let round = this_round(Stage::Checking, before);
        let now = run(Stage::Checking, answers);
        if !(now is Checking) {
            let longer = round.push(answers.last());
            assert(this_round(Stage::Checking, answers) == longer);
            assert(longer.drop_last() =~= round);
            match stage {
                Stage::Checking => {
                    assert(longer =~= seq![answers.last()]);
                },
                Stage::Draining => {
                    assert(forall|i: int| 0 <= i < round.len() ==> longer[i] == round[i]);
                },
                Stage::Polling { fd, events } => {
                    assert(prepared(longer.drop_last(), fd, events));
                },
                _ => {},
            }
        }
    }
}

/// A driver that finds the stop flag raised exits there and then: it runs no
/// further command, and makes no further use of the context.
pub proof fn law_stop_is_obeyed(answers: Seq<DriverAnswer>, i: int)
    requires
        all_fit(Stage::Checking, answers),
        0 <= i < answers.len(),
        answers[i] == DriverAnswer::Stop(true),
    ensures
        i == answers.len() - 1,
        run(Stage::Checking, answers) == Stage::Exited(Exit::StopRequested),
    decreases answers.len(),
{
    if i < answers.len() - 1 {
        law_stop_is_obeyed(answers.drop_last(), i);
    }
}

/// A driver that exited asks for nothing any more.
pub proof fn law_exit_is_final(exit: Exit, answers: Seq<DriverAnswer>)
    ensures
        run(Stage::Exited(exit), answers) == Stage::Exited(exit),
    decreases answers.len(),
{
    if answers.len() > 0 {
        law_exit_is_final(exit, answers.drop_last());
    }
}

/// An interrupted poll begins a new round, and so does a context that failed
/// to handle its events.
pub proof fn law_interruptions_are_survived(
    fd: i32,
    events: i16,
    ret: i32,
    nfs: i16,
    wake: i16,
    revents: i16,
    rc: i32,
)
    requires
        ret < 0,
    ensures
        next_stage(
            Stage::Polling { fd, events },
            DriverAnswer::Polled { ret, errno: Some(poll::eintr()), nfs, wake },
        ) is Checking,
        next_stage(Stage::Serving { revents }, DriverAnswer::Serviced(rc)) is Checking,
{
}

/// The driver after the answers.
pub open spec fn told(d: Driver, answers: Seq<DriverAnswer>) -> Driver
    decreases answers.len(),
{
    if answers.len() == 0 {
        d
    } else {
        driver_answer(told(d, answers.drop_last()), answers.last())
    }
}

/// Events that `poll(2)` reports for the context's descriptor are handled, all of
/// them and before the round is over: the wake pipe is read from until there is
/// nothing in it, where anything was reported for it, and the next request is
/// that the context handle exactly the reported events. Where there are none, the
/// next request begins a new round.
pub proof fn law_reported_events_are_handled(
    d: Driver,
    ret: i32,
    errno: Option<i32>,
    nfs: i16,
    wake: i16,
    reads: Seq<DriverAnswer>,
    last: i64,
    rc: i32,
)
    requires
        d.stage is Polling,
        ret >= 0,
        forall|i: int|
            0 <= i < reads.len() ==> (#[trigger] reads[i] matches DriverAnswer::Bytes(n) && n > 0),
        last <= 0,
    ensures
        ({
            let polled = driver_answer(d, DriverAnswer::Polled { ret, errno, nfs, wake });
            let emptied = if wake != 0 {
                driver_answer(told(polled, reads), DriverAnswer::Bytes(last))
            } else {
                polled
            };
            &&& wake != 0 ==> driver_request(told(polled, reads)) == (DriverRequest::Read {
                fd: d.wake_r,
                len: 64,
            })
            &&& nfs != 0 ==> driver_request(emptied) == (DriverRequest::Service {
                revents: nfs as i32,
            })
            &&& nfs != 0 ==> driver_request(driver_answer(emptied, DriverAnswer::Serviced(rc)))
                == DriverRequest::CheckStop
            &&& nfs == 0 ==> driver_request(emptied) == DriverRequest::CheckStop
            &&& emptied.wake_r == d.wake_r
        }),
{
    let polled = driver_answer(d, DriverAnswer::Polled { ret, errno, nfs, wake });
    if wake != 0 {
        lemma_reading(polled, nfs, reads);
    }
}

proof fn lemma_reading(d: Driver, revents: i16, reads: Seq<DriverAnswer>)
    requires
        d.stage == (Stage::Emptying { revents }),
        forall|i: int|
            0 <= i < reads.len() ==> (#[trigger] reads[i] matches DriverAnswer::Bytes(n) && n > 0),
    ensures
        told(d, reads) == d,
    decreases reads.len(),
{
    if reads.len() > 0 {
        assert forall|i: int| 0 <= i < reads.drop_last().len() implies (#[trigger] reads.drop_last()[i] matches DriverAnswer::Bytes(
            n,
        ) && n > 0) by {
            assert(reads.drop_last()[i] == reads[i]);
        }
        lemma_reading(d, revents, reads.drop_last());
        assert(reads[reads.len() - 1] is Bytes);
    }
}

/// What a round asks for, from its beginning to the poll. It begins with the stop
/// flag, and a raised one ends the driver. Commands are asked for until there is
/// none. A descriptor that is negative ends the driver; any other is polled, for
/// the events that the context wants, together with the read end of the wake
/// pipe, for data to read, and for as long as it takes.
pub proof fn law_round_up_to_the_poll(
    wake_r: i32,
    commands: Seq<DriverAnswer>,
    fd: i32,
    wanted: i32,
)
    requires
        forall|i: int| 0 <= i < commands.len() ==> #[trigger] commands[i] == DriverAnswer::Command(true),
    ensures
        ({
            let begun = Driver { wake_r, stage: Stage::Checking };
            let draining = driver_answer(begun, DriverAnswer::Stop(false));
            let drained = driver_answer(told(draining, commands), DriverAnswer::Command(false));
            let known = driver_answer(drained, DriverAnswer::Fd(fd));
            let ready = driver_answer(known, DriverAnswer::Events(wanted));
            &&& driver_request(begun) == DriverRequest::CheckStop
            &&& driver_request(driver_answer(begun, DriverAnswer::Stop(true)))
                == DriverRequest::Finish(Exit::StopRequested)
            &&& driver_request(told(draining, commands)) == DriverRequest::NextCommand
            &&& driver_request(drained) == DriverRequest::GetFd
            &&& fd < 0 ==> driver_request(known) == DriverRequest::Finish(Exit::InvalidFd(fd))
            &&& fd >= 0 ==> driver_request(known) == DriverRequest::WhichEvents
            &&& fd >= 0 ==> driver_request(ready) == (DriverRequest::Poll {
                nfs: PollFd { fd, events: wanted as i16 },
                wake: PollFd { fd: wake_r, events: 1 },
                timeout: -1i32,
            })
            &&& fd >= 0 ==> ready.stage is Polling && ready.wake_r == wake_r
        }),
{
    let draining = Driver { wake_r, stage: Stage::Draining };
    lemma_draining(draining, commands);
}

proof fn lemma_draining(d: Driver, commands: Seq<DriverAnswer>)
    requires
        d.stage is Draining,
        forall|i: int| 0 <= i < commands.len() ==> #[trigger] commands[i] == DriverAnswer::Command(true),
    ensures
        told(d, commands) == d,
    decreases commands.len(),
{
    if commands.len() > 0 {
        assert forall|i: int| 0 <= i < commands.drop_last().len() implies #[trigger] commands.drop_last()[i]
            == DriverAnswer::Command(true) by {
            assert(commands.drop_last()[i] == commands[i]);
        }
        lemma_draining(d, commands.drop_last());
        assert(commands[commands.len() - 1] == DriverAnswer::Command(true));
    }
}

/// A poll that failed ends the driver with its error number, unless a signal
/// interrupted it: then a new round begins.
pub proof fn law_failed_poll(d: Driver, ret: i32, errno: Option<i32>, nfs: i16, wake: i16)
    requires
        d.stage is Polling,
        ret < 0,
    ensures
        driver_request(driver_answer(d, DriverAnswer::Polled { ret, errno, nfs, wake })) == if errno
            == Some(4i32) {
            DriverRequest::CheckStop
        } else {
            DriverRequest::Finish(Exit::PollFailed(errno))
        },
{
}

/// An answer to something that was not asked for changes nothing.
pub proof fn law_stray_answers_change_nothing(d: Driver, answer: DriverAnswer)
    requires
        !fits(d.stage, answer),
    ensures
        driver_answer(d, answer) == d,
        driver_request(d) == DriverRequest::CheckStop ==> !(answer is Stop),
        driver_request(d) == DriverRequest::NextCommand ==> !(answer is Command),
        driver_request(d) == DriverRequest::GetFd ==> !(answer is Fd),
        driver_request(d) == DriverRequest::WhichEvents ==> !(answer is Events),
        driver_request(d) is Poll ==> !(answer is Polled),
        driver_request(d) is Read ==> !(answer is Bytes),
        driver_request(d) is Service ==> !(answer is Serviced),
{
}

// ── The driver and its queue ────────────────────────────────────────────────

/// A driver together with its queue: the commands that wait, the oldest first,
/// and those that were run, in the order in which they were.
pub struct Life<C> {
    pub stage: Stage,
    pub queue: Seq<C>,
    pub ran: Seq<C>,
}

/// What happens from one request of the driver to the next: the commands that
/// were submitted meanwhile, and the answer to the request where it is not for a
/// command.
pub struct Event<C> {
    pub arriving: Seq<C>,
    pub answer: DriverAnswer,
}

/// The driver and its queue after an event. The queue hands out its oldest
/// command, and says that it is empty only where it is. A command that was
/// handed out is run before the next request.
pub open spec fn live<C>(s: Life<C>, event: Event<C>) -> Life<C> {
    let queue = s.queue + event.arriving;
    if s.stage is Draining && queue.len() > 0 {
        Life {
            stage: next_stage(s.stage, DriverAnswer::Command(true)),
            queue: queue.drop_first(),
            ran: s.ran.push(queue[0]),
        }
    } else if s.stage is Draining {
        Life { stage: next_stage(s.stage, DriverAnswer::Command(false)), queue, ran: s.ran }
    } else {
        Life { stage: next_stage(s.stage, event.answer), queue, ran: s.ran }
    }
}

/// The driver and its queue after the events.
pub open spec fn live_through<C>(s: Life<C>, events: Seq<Event<C>>) -> Life<C>
    decreases events.len(),
{
    if events.len() == 0 {
        s
    } else {
        live(live_through(s, events.drop_last()), events.last())
    }
}

/// The commands that were submitted during the events, in the order in which
/// they were.
pub open spec fn submitted_during<C>(events: Seq<Event<C>>) -> Seq<C>
    decreases events.len(),
{
    if events.len() == 0 {
        seq![]
    } else {
        submitted_during(events.drop_last()) + events.last().arriving
    }
}

/// Commands are run in the order in which they were submitted, each of them
/// once: those that were run, followed by those that wait, are at all times those
/// that were submitted. So of two commands the one that was submitted first is
/// run first, and one after the other.
pub proof fn law_commands_run_in_order<C>(s: Life<C>, events: Seq<Event<C>>)
    ensures
        ({
            let now = live_through(s, events);
            &&& now.ran + now.queue == s.ran + s.queue + submitted_during(events)
            &&& s.ran.is_prefix_of(now.ran)
            &&& forall|i: int|
                0 <= i < now.ran.len() ==> #[trigger] now.ran[i] == (s.ran + s.queue
                    + submitted_during(events))[i]
        }),
    decreases events.len(),
{
    let now = live_through(s, events);
    let all = s.ran + s.queue + submitted_during(events);
    if events.len() == 0 {
        assert(all =~= s.ran + s.queue);
    } else {
        let before = live_through(s, events.drop_last());
        let arriving = events.last().arriving;
        law_commands_run_in_order(s, events.drop_last());
        assert(all =~= (before.ran + before.queue) + arriving);
        assert(now.ran + now.queue =~= (before.ran + before.queue) + arriving);
    }
    assert forall|i: int| 0 <= i < now.ran.len() implies #[trigger] now.ran[i] == all[i] by {
        assert((now.ran + now.queue)[i] == now.ran[i]);
    }
}

/// A round that does not find the stop flag raised runs every command that was
/// submitted before it, in order, and does so before it reads the descriptor and
/// the wanted events and polls: whatever else the driver does comes after them.
pub proof fn law_round_runs_the_queue<C>(s: Life<C>, events: Seq<Event<C>>)
    requires
        s.stage is Checking,
        events.len() > 0,
        events[0].answer == DriverAnswer::Stop(false),
    ensures
        ({
            let now = live_through(s, events);
            now.stage is Draining || (s.ran + s.queue).is_prefix_of(now.ran)
        }),
    decreases events.len(),
{
    let earlier = events.drop_last();
    let before = live_through(s, earlier);
    let now = live_through(s, events);
    if events.len() == 1 {
        assert(live_through(s, earlier) == s);
    } else {
        law_round_runs_the_queue(s, earlier);
        if before.stage is Draining && !(now.stage is Draining) {
            law_commands_run_in_order(s, earlier);
            assert(before.queue.len() == 0);
            assert(before.ran + before.queue =~= before.ran);
            assert((s.ran + s.queue) =~= now.ran.subrange(0, (s.ran + s.queue).len() as int));
        }
    }
}

/// A driver that exited runs no command any more.
pub proof fn law_nothing_runs_after_the_exit<C>(s: Life<C>, events: Seq<Event<C>>)
    requires
        s.stage is Exited,
    ensures
        live_through(s, events).ran == s.ran,
        live_through(s, events).stage == s.stage,
    decreases events.len(),
{
    if events.len() > 0 {
        law_nothing_runs_after_the_exit(s, events.drop_last());
    }
}

} // verus!
