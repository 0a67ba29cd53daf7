use libnfs::channel::CommandQueue;
use libnfs::driver::{Driver, DriverAnswer, DriverRequest, Exit, PollFd, Stage};
use libnfs::error::{Error, IoError};
use libnfs::event_loop::{
    EventLoop, LoopEffect, StartAnswer, StartRequest, StartStage, Startup, THREAD_NAME,
};
use tokio::sync::mpsc::unbounded_channel;

fn start() -> Startup<&'static str> {
    EventLoop::<u8, &'static str>::start()
}

#[test]
fn loop_starts() {
    let (tx, _rx) = unbounded_channel::<u8>();
    let s = start();
    assert_eq!(s.nonblock, libc::O_NONBLOCK);
    assert_eq!(s.request(), StartRequest::GetFd);
    let s = s.answer(StartAnswer::Fd(0));
    assert_eq!(s.request(), StartRequest::MakePipe);
    let s = s.answer(StartAnswer::Pipe(Ok((5, 6))));
    assert_eq!(s.request(), StartRequest::GetFlags { fd: 5 });
    let s = s.answer(StartAnswer::Flags(2));
    assert_eq!(s.request(), StartRequest::SetFlags { fd: 5, flags: 2 | libc::O_NONBLOCK });
    let s = s.answer(StartAnswer::FlagsSet);
    assert_eq!(s.request(), StartRequest::Spawn { wake_r: 5 });
    assert_eq!(THREAD_NAME, "libnfs-poll");
    let s = s.answer(StartAnswer::Spawned(Ok("thread")));
    assert_eq!(s.request(), StartRequest::Finish);
    let event_loop = s.finish(tx).unwrap().unwrap();
    assert_eq!(event_loop.thread, Some("thread"));
    assert_eq!(event_loop.wake_w, 6);
}

#[test]
fn loop_without_descriptor() {
    let (tx, _rx) = unbounded_channel::<u8>();
    let s = start().answer(StartAnswer::Fd(-1));
    assert_eq!(s.request(), StartRequest::Finish);
    let e = s.finish(tx).unwrap().err().unwrap();
    assert_eq!(e.to_string(), "I/O error: nfs_get_fd returned -1");
}

#[test]
fn loop_without_pipe_or_thread() {
    let (tx, _rx) = unbounded_channel::<u8>();
    let refusal = || IoError { code: Some(24), message: String::from("refused") };
    let s = start().answer(StartAnswer::Fd(3)).answer(StartAnswer::Pipe(Err(refusal())));
    let e = s.finish(tx.clone()).unwrap().err().unwrap();
    assert!(matches!(e, Error::Io(IoError { code: Some(24), .. })));

    let s = start()
        .answer(StartAnswer::Fd(3))
        .answer(StartAnswer::Pipe(Ok((5, 6))))
        .answer(StartAnswer::Flags(-1))
        .answer(StartAnswer::FlagsSet)
        .answer(StartAnswer::Spawned(Err(refusal())));
    let e = s.finish(tx).unwrap().err().unwrap();
    assert_eq!(e.to_string(), "I/O error: refused");
}

#[test]
fn loop_ignores_what_was_not_asked() {
    let (tx, _rx) = unbounded_channel::<u8>();
    let s = start().answer(StartAnswer::FlagsSet);
    assert!(matches!(s.stage, StartStage::Descriptor));
    assert!(s.finish(tx).is_none());
}

#[test]
fn submitted_commands_arrive() {
    let (tx, mut rx) = unbounded_channel::<u8>();
    let event_loop: EventLoop<u8, ()> = EventLoop { thread: None, cmd_tx: tx, wake_w: 9 };
    assert_eq!(event_loop.submit(11).0.unwrap(), LoopEffect::Write { fd: 9, byte: 1 });
    assert_eq!(event_loop.submit(12).0.unwrap(), LoopEffect::Write { fd: 9, byte: 1 });
    assert_eq!(rx.try_recv(), Ok(11));
    assert_eq!(rx.try_recv(), Ok(12));
    assert!(rx.try_recv().is_err());
    drop(rx);
    assert!(matches!(event_loop.submit(13), (Err(Error::Cancelled), record) if !record.is_queued()));
    assert!(matches!(event_loop.submitted(false), Err(Error::Cancelled)));
    assert_eq!(event_loop.submitted(true).unwrap(), event_loop.wake());
}

#[test]
fn loop_is_stopped_and_released_once() {
    let (tx, _rx) = unbounded_channel::<u8>();
    let mut event_loop: EventLoop<u8, u32> =
        EventLoop { thread: Some(77), cmd_tx: tx, wake_w: 4 };
    assert_eq!(
        event_loop.stop(),
        vec![LoopEffect::RaiseStop, LoopEffect::Write { fd: 4, byte: 1 }]
    );
    assert_eq!(event_loop.take_task(), Some(77));
    assert_eq!(event_loop.take_task(), None);
    assert_eq!(event_loop.release(), Some(LoopEffect::Close { fd: 4 }));
    assert_eq!(event_loop.wake_w, -1);
    assert_eq!(event_loop.release(), None);
}

fn polling(fd: i32, events: i32) -> Driver {
    Driver::new(8)
        .answer(DriverAnswer::Stop(false))
        .answer(DriverAnswer::Command(true))
        .answer(DriverAnswer::Command(false))
        .answer(DriverAnswer::Fd(fd))
        .answer(DriverAnswer::Events(events))
}

#[test]
fn driver_round() {
    let d = Driver::new(8);
    assert_eq!(d.request(), DriverRequest::CheckStop);
    let d = d.answer(DriverAnswer::Stop(false));
    assert_eq!(d.request(), DriverRequest::NextCommand);
    let d = d.answer(DriverAnswer::Command(true));
    assert_eq!(d.request(), DriverRequest::NextCommand);
    let d = d.answer(DriverAnswer::Command(false));
    assert_eq!(d.request(), DriverRequest::GetFd);
    let d = d.answer(DriverAnswer::Fd(21));
    assert_eq!(d.request(), DriverRequest::WhichEvents);
    let d = d.answer(DriverAnswer::Events(5));
    assert_eq!(
        d.request(),
        DriverRequest::Poll {
            nfs: PollFd { fd: 21, events: 5 },
            wake: PollFd { fd: 8, events: libc::POLLIN },
            timeout: -1,
        }
    );
    let d = d.answer(DriverAnswer::Polled { ret: 2, errno: None, nfs: 1, wake: 1 });
    assert_eq!(d.request(), DriverRequest::Read { fd: 8, len: 64 });
    let d = d.answer(DriverAnswer::Bytes(64));
    assert_eq!(d.request(), DriverRequest::Read { fd: 8, len: 64 });
    let d = d.answer(DriverAnswer::Bytes(-1));
    assert_eq!(d.request(), DriverRequest::Service { revents: 1 });
    let d = d.answer(DriverAnswer::Serviced(-5));
    assert_eq!(d.request(), DriverRequest::CheckStop);
}

#[test]
fn driver_skips_what_is_not_needed() {
    let d = polling(3, 1).answer(DriverAnswer::Polled { ret: 1, errno: None, nfs: 4, wake: 0 });
    assert_eq!(d.request(), DriverRequest::Service { revents: 4 });
    let d = polling(3, 1).answer(DriverAnswer::Polled { ret: 1, errno: None, nfs: 0, wake: 1 });
    assert_eq!(d.request(), DriverRequest::Read { fd: 8, len: 64 });
    assert_eq!(d.answer(DriverAnswer::Bytes(0)).request(), DriverRequest::CheckStop);
    let d = polling(3, 1).answer(DriverAnswer::Polled { ret: 0, errno: None, nfs: 0, wake: 0 });
    assert_eq!(d.request(), DriverRequest::CheckStop);
}

#[test]
fn driver_exits() {
    let d = Driver::new(8).answer(DriverAnswer::Stop(true));
    assert_eq!(d.request(), DriverRequest::Finish(Exit::StopRequested));
    assert_eq!(d.answer(DriverAnswer::Stop(false)), d);
    let d = Driver::new(8)
        .answer(DriverAnswer::Stop(false))
        .answer(DriverAnswer::Command(false))
        .answer(DriverAnswer::Fd(-1));
    assert_eq!(d.request(), DriverRequest::Finish(Exit::InvalidFd(-1)));
    let failed = DriverAnswer::Polled { ret: -1, errno: Some(libc::EBADF), nfs: 0, wake: 0 };
    assert_eq!(
        polling(3, 1).answer(failed).request(),
        DriverRequest::Finish(Exit::PollFailed(Some(libc::EBADF)))
    );
    let interrupted = DriverAnswer::Polled { ret: -1, errno: Some(libc::EINTR), nfs: 1, wake: 1 };
    assert_eq!(polling(3, 1).answer(interrupted).request(), DriverRequest::CheckStop);
}

#[test]
fn driver_takes_commands_in_order() {
    let (tx, rx) = unbounded_channel::<u8>();
    let mut queue = CommandQueue::new(rx);
    tx.send(1).unwrap();
    tx.send(2).unwrap();
    let d = Driver::new(8);
    let (d, none) = d.next_command(&mut queue);
    assert_eq!(none, None);
    assert_eq!(d.stage, Stage::Checking);
    let d = d.answer(DriverAnswer::Stop(false));
    let (d, first) = d.next_command(&mut queue);
    let (d, second) = d.next_command(&mut queue);
    assert_eq!((first, second), (Some(1), Some(2)));
    assert_eq!(d.stage, Stage::Draining);
    let (d, none) = d.next_command(&mut queue);
    assert_eq!(none, None);
    assert_eq!(d.stage, Stage::Descriptor);
    let draining = Driver::new(8).answer(DriverAnswer::Stop(false));
    assert_eq!(draining.took(Some(3)), (draining, Some(3)));
    assert_eq!(draining.took::<u8>(None).0.stage, Stage::Descriptor);
}

#[test]
fn submitted_commands_run_in_order_before_the_poll() {
    let (tx, rx) = unbounded_channel();
    let mut queue = CommandQueue::new(rx);
    let handle = EventLoop { thread: Some(()), cmd_tx: tx, wake_w: 6 };
    handle.submit("first").0.unwrap();
    handle.submit("second").0.unwrap();
    let mut ran = Vec::new();
    let mut d = Driver::new(8).answer(DriverAnswer::Stop(false));
    while d.request() == DriverRequest::NextCommand {
        let (next, cmd) = d.next_command(&mut queue);
        d = next;
        if let Some(cmd) = cmd {
            ran.push(cmd);
            if cmd == "first" {
                handle.submit("third").0.unwrap();
            }
        }
    }
    assert_eq!(ran, ["first", "second", "third"]);
    assert_eq!(d.request(), DriverRequest::GetFd);

    handle.submit("late").0.unwrap();
    let d = Driver::new(8).answer(DriverAnswer::Stop(true));
    let (d, none) = d.next_command(&mut queue);
    assert_eq!(none, None);
    assert_eq!(d.request(), DriverRequest::Finish(Exit::StopRequested));
}
