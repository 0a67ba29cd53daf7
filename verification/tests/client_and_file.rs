use std::sync::Arc;

use libnfs::bridge::{
    deliver, dir_answer, dir_cb, fh_answer, fh_cb, get_error_string, read_into_answer,
    read_into_cb, receive, refuse, refused, stat_answer, stat_cb, void_answer, void_cb, DirBridge,
    DirPtr, FhBridge, FhPtr, ReadIntoBridge, StatBridge, VoidBridge,
};
use libnfs::channel::Sending;
use libnfs::client::{
    stat_answered, Mount, MountAnswer, MountRequest, NfsInner, Operation, TeardownStep, Wait,
};
use libnfs::dir::{DirEntry, Listing, ListingAnswer};
use libnfs::event_loop::{EventLoop, LoopEffect};
use libnfs::readdir::{Readdir, ReaddirAnswer, ReaddirRequest};
use libnfs::sys::{libc_timeval, nfs_context, nfs_stat_64, nfsdir, nfsdirent, nfsfh, DT_DIR};
use libnfs::{Error, FileStat, NfsClient, NfsFile, NfsVersion};
use tokio::sync::mpsc::{unbounded_channel, UnboundedReceiver};
use tokio::sync::oneshot;

type Client = NfsClient<u8, u8>;

fn event_loop() -> (EventLoop<u8, u8>, UnboundedReceiver<u8>) {
    let (tx, rx) = unbounded_channel();
    (EventLoop { thread: Some(3), cmd_tx: tx, wake_w: 6 }, rx)
}

fn client() -> (Client, UnboundedReceiver<u8>) {
    let (event_loop, rx) = event_loop();
    let inner = NfsInner { ctx: nfs_context { addr: 16 }, event_loop };
    (NfsClient { inner: Arc::new(inner) }, rx)
}

fn file(addr: usize) -> (NfsFile<u8, u8>, UnboundedReceiver<u8>) {
    let (client, rx) = client();
    (NfsFile { client: client.inner.clone(), fh: FhPtr(nfsfh { addr }) }, rx)
}

fn raw_stat() -> nfs_stat_64 {
    nfs_stat_64 {
        nfs_dev: 1,
        nfs_ino: 2,
        nfs_mode: 3,
        nfs_nlink: 4,
        nfs_uid: 5,
        nfs_gid: 6,
        nfs_rdev: 7,
        nfs_size: 8,
        nfs_blksize: 9,
        nfs_blocks: 10,
        nfs_atime: 11,
        nfs_mtime: 12,
        nfs_ctime: 13,
        nfs_atime_nsec: 14,
        nfs_mtime_nsec: 15,
        nfs_ctime_nsec: 16,
        nfs_used: 17,
    }
}

#[test]
fn attributes_keep_their_names() {
    assert_eq!(
        FileStat::from(&raw_stat()),
        FileStat {
            dev: 1,
            ino: 2,
            mode: 3,
            nlink: 4,
            uid: 5,
            gid: 6,
            rdev: 7,
            size: 8,
            blksize: 9,
            blocks: 10,
            atime: 11,
            atime_nsec: 14,
            mtime: 12,
            mtime_nsec: 15,
            ctime: 13,
            ctime_nsec: 16,
            used: 17,
        }
    );
}

#[test]
fn versions_have_numbers() {
    assert_eq!(NfsVersion::V3.as_raw(), 3);
    assert_eq!(NfsVersion::V4.as_raw(), 4);
}

#[test]
fn operations_of_a_client() {
    let (c, _rx) = client();
    assert!(matches!(c.stat("/a"), Ok(Operation::Stat { path }) if path == b"/a\0"));
    assert!(matches!(c.open("/a"), Ok(Operation::Open { path, flags: 0 }) if path == b"/a\0"));
    assert!(matches!(c.stat("a\0"), Err(Error::InvalidString(e)) if e.position == 1));
    assert!(matches!(c.open("\0"), Err(Error::InvalidString(e)) if e.position == 0));
}

#[test]
fn client_and_file_submit() {
    let (c, mut rx) = client();
    assert_eq!(c.submit(41).0.unwrap(), LoopEffect::Write { fd: 6, byte: 1 });
    assert_eq!(rx.try_recv(), Ok(41));
    let f = c.open_answered(Some(Ok(FhPtr(nfsfh { addr: 32 })))).unwrap();
    assert_eq!(f.submit(42).0.unwrap(), LoopEffect::Write { fd: 6, byte: 1 });
    assert_eq!(rx.try_recv(), Ok(42));
    drop(rx);
    assert!(matches!(c.submit(43).0, Err(Error::Cancelled)));
    assert!(matches!(f.submit(44).0, Err(Error::Cancelled)));
}

#[test]
fn answers_to_a_client() {
    let (c, _rx) = client();
    assert_eq!(stat_answered(Some(Ok(raw_stat()))).unwrap().size, 8);
    let e = stat_answered(Some(Err((-2, String::from("gone"))))).unwrap_err();
    assert_eq!(e.to_string(), "NFS error (code -2): gone");
    assert!(matches!(stat_answered(None), Err(Error::Cancelled)));
    let f = c.open_answered(Some(Ok(FhPtr(nfsfh { addr: 32 })))).unwrap();
    assert_eq!(f.fh.get(), nfsfh { addr: 32 });
    assert!(matches!(c.open_answered(None), Err(Error::Cancelled)));
}

#[test]
fn operations_of_a_file() {
    let (f, _rx) = file(48);
    let buf = vec![0u8; 10];
    let fh = FhPtr(nfsfh { addr: 48 });
    assert!(matches!(f.read_at(&buf, 100),
        Operation::Pread { fh: h, offset: 100, count: 10 } if h == fh));
    assert!(matches!(f.fstat(), Operation::Fstat { fh: h } if h == fh));
    assert!(matches!(f.close(), Operation::Close { fh: h } if h == fh));
    assert_eq!(f.read_answered(Some(Ok(7))).unwrap(), 7);
    assert!(matches!(f.read_answered(None), Err(Error::Cancelled)));
}

#[test]
fn closed_file_is_not_closed_again() {
    let (f, _rx) = file(48);
    let (result, left) = f.close_answered(Some(Ok(())));
    assert!(result.is_ok() && left.is_none());
    let (f, _rx) = file(48);
    let (result, left) = f.close_answered(Some(Err((-5, String::from("io")))));
    assert!(matches!(result, Err(Error::Nfs { code: -5, .. })) && left.is_none());
    let (f, _rx) = file(48);
    let (result, left) = f.close_answered(None);
    assert!(matches!(result, Err(Error::Cancelled)));
    assert!(matches!(left.unwrap().drop_operation(), Some(Operation::Close { .. })));
    let (f, _rx) = file(0);
    assert!(f.drop_operation().is_none());
}

#[test]
fn callbacks_answer() {
    assert_eq!(void_answer(VoidBridge { tx: Some('s') }, 0, None), Some(('s', Ok(()))));
    assert_eq!(
        void_answer(VoidBridge { tx: Some('s') }, -3, Some(b"bad\xff")),
        Some(('s', Err((-3, String::from("bad\u{fffd}")))))
    );
    assert_eq!(void_answer::<char>(VoidBridge { tx: None }, 0, None), None);
    assert_eq!(
        fh_answer(FhBridge { tx: Some(1) }, 0, None, nfsfh { addr: 5 }),
        Some((1, Ok(FhPtr(nfsfh { addr: 5 }))))
    );
    assert_eq!(
        fh_answer(FhBridge { tx: Some(1) }, -1, None, nfsfh { addr: 0 }),
        Some((1, Err((-1, String::from("unknown error")))))
    );
    let (_, st) = stat_answer(StatBridge { tx: Some(1) }, 0, None, Some(raw_stat())).unwrap();
    assert_eq!(st, Ok(raw_stat()));
    let (_, st) = stat_answer(StatBridge { tx: Some(1) }, -9, Some(b"no"), None).unwrap();
    assert_eq!(st, Err((-9, String::from("no"))));
    let (_, dir) = dir_answer(DirBridge { tx: Some(1) }, 0, None, nfsdir { addr: 5 }).unwrap();
    assert_eq!(dir.unwrap().get(), nfsdir { addr: 5 });
    let (_, dir) = dir_answer(DirBridge { tx: Some(1) }, -4, None, nfsdir { addr: 0 }).unwrap();
    assert!(dir.is_err());
}

#[test]
fn read_fills_the_buffer() {
    let mut buf = [9u8; 4];
    let r = read_into_answer(ReadIntoBridge { tx: Some(()) }, 2, None, b"ab", &mut buf);
    assert_eq!(r, Some(((), Ok(2))));
    assert_eq!(&buf, b"ab\x09\x09");
    let r = read_into_answer(ReadIntoBridge { tx: Some(()) }, 6, None, b"cdefgh", &mut buf);
    assert_eq!(r, Some(((), Ok(4))));
    assert_eq!(&buf, b"cdef");
    let r = read_into_answer(ReadIntoBridge { tx: Some(()) }, 9, None, b"ijkl", &mut buf);
    assert_eq!(r, Some(((), Ok(4))));
    assert_eq!(&buf, b"ijkl");
    let r = read_into_answer(ReadIntoBridge { tx: Some(()) }, 2, None, b"cdef", &mut buf);
    assert_eq!(r, Some(((), Ok(2))));
    assert_eq!(&buf, b"cdkl");
    let r = read_into_answer(ReadIntoBridge { tx: Some(()) }, 0, None, b"", &mut buf);
    assert_eq!(r, Some(((), Ok(0))));
    let r = read_into_answer(ReadIntoBridge { tx: Some(()) }, -7, Some(b"eio"), b"", &mut buf);
    assert_eq!(r, Some(((), Err((-7, String::from("eio"))))));
    assert_eq!(&buf, b"cdkl");
}

/// Nothing where nothing was sent, and otherwise the value that came back, where it
/// did.
fn outcome<T>(sending: Option<Sending<T>>) -> Option<Option<T>> {
    sending.map(|sending| sending.into_unsent())
}

#[test]
fn callbacks_answer_the_one_who_waits() {
    let (tx, mut rx) = oneshot::channel();
    assert_eq!(outcome(void_cb(VoidBridge { tx: Some(tx) }, -3, Some(b"bad"))), Some(None));
    assert_eq!(rx.try_recv(), Ok(Err((-3, String::from("bad")))));
    assert_eq!(outcome(void_cb(VoidBridge { tx: None }, 0, None)), None);

    let (tx, mut rx) = oneshot::channel();
    assert_eq!(outcome(fh_cb(FhBridge { tx: Some(tx) }, 0, None, nfsfh { addr: 5 })), Some(None));
    assert_eq!(rx.try_recv(), Ok(Ok(FhPtr(nfsfh { addr: 5 }))));

    let (tx, mut rx) = oneshot::channel();
    assert_eq!(outcome(stat_cb(StatBridge { tx: Some(tx) }, 0, None, Some(raw_stat()))), Some(None));
    assert_eq!(rx.try_recv(), Ok(Ok(raw_stat())));

    let (tx, mut rx) = oneshot::channel();
    assert_eq!(outcome(dir_cb(DirBridge { tx: Some(tx) }, -1, None, nfsdir { addr: 0 })), Some(None));
    assert_eq!(rx.try_recv(), Ok(Err((-1, String::from("unknown error")))));

    let (tx, mut rx) = oneshot::channel();
    let mut buf = [9u8; 4];
    let bridge = ReadIntoBridge { tx: Some(tx) };
    assert_eq!(outcome(read_into_cb(bridge, 2, None, b"ab", &mut buf)), Some(None));
    assert_eq!(rx.try_recv(), Ok(Ok(2)));
    assert_eq!(&buf, b"ab\x09\x09");

    let (tx, mut rx) = oneshot::channel();
    assert_eq!(outcome(refuse::<u8>(Some(tx), 7, Some(b"no"))), Some(None));
    assert_eq!(rx.try_recv(), Ok(Err((-1, String::from("no")))));
}

#[test]
fn answer_that_nobody_waits_for_comes_back() {
    let (tx, rx) = oneshot::channel();
    drop(rx);
    let back = void_cb(VoidBridge { tx: Some(tx) }, -3, Some(b"bad"));
    assert_eq!(outcome(back), Some(Some(Err((-3, String::from("bad"))))));

    let (tx, rx) = oneshot::channel();
    drop(rx);
    let back = refuse::<u8>(Some(tx), 7, None);
    assert_eq!(outcome(back), Some(Some(Err((-1, String::from("unknown error"))))));
    assert_eq!(outcome(refuse::<u8>(None, 7, None)), None);

    let (tx, rx) = oneshot::channel();
    drop(rx);
    assert_eq!(outcome(deliver(Some((tx, vec![1, 2])))), Some(Some(vec![1, 2])));
    assert_eq!(outcome(deliver::<u8>(None)), None);

    let (tx, mut rx) = oneshot::channel();
    assert_eq!(outcome(refuse::<u8>(Some(tx), 0, None)), None);
    assert!(rx.try_recv().is_err());
}

#[test]
fn refused_operations_are_answered_at_once() {
    assert_eq!(refused::<u8>(0, Some(b"x")), None);
    assert_eq!(refused::<u8>(5, Some(b"x")), Some(Err((-1, String::from("x")))));
    assert_eq!(refused::<u8>(-5, None), Some(Err((-1, String::from("unknown error")))));
    assert_eq!(get_error_string(None), "unknown error");
    assert_eq!(get_error_string(Some(b"x")), "x");
    assert!(matches!(receive::<u8>(None), Err(Error::Cancelled)));
    let e = receive(refused::<u8>(5, None)).unwrap_err();
    assert_eq!(e.to_string(), "NFS error (code -1): unknown error");
}

fn mounting() -> Mount<u8, u8> {
    Client::mount("host", "/export", NfsVersion::V4)
}

#[test]
fn mount_succeeds() {
    let ctx = nfs_context { addr: 64 };
    let m = mounting();
    assert!(matches!(m.request(), MountRequest::InitContext));
    let m = m.answer(MountAnswer::Context(ctx));
    assert!(matches!(m.request(),
        MountRequest::Configure { ctx: c, version: 4, ids: None } if c == ctx));
    let m = m.answer(MountAnswer::Configured);
    assert!(matches!(m.request(), MountRequest::MountAsync { ctx: c, server, export }
        if c == ctx && server == b"host\0" && export == b"/export\0"));
    let m = m.answer(MountAnswer::Submitted { rc: 0, message: None });
    assert!(matches!(m.request(), MountRequest::StartLoop { ctx: c } if c == ctx));
    let (event_loop, _rx) = event_loop();
    let m = m.answer(MountAnswer::Started(Ok(event_loop)));
    assert!(matches!(m.request(), MountRequest::Await { seconds: 30 }));
    let m = m.answer(MountAnswer::Waited(Wait::Answered(Ok(()))));
    assert!(matches!(m.request(), MountRequest::Finish));
    let c = m.finish().unwrap().ok().unwrap();
    assert_eq!(c.inner.ctx, ctx);
    assert_eq!(c.inner.event_loop.wake_w, 6);
}

#[test]
fn mount_as_sets_the_ids() {
    let m = Client::mount_as("h", "/", NfsVersion::V3, 1000, 0xffff_fffe)
        .answer(MountAnswer::Context(nfs_context { addr: 1 }));
    assert!(matches!(m.request(),
        MountRequest::Configure { version: 3, ids: Some((1000, -2)), .. }));
}

#[test]
fn mount_without_context() {
    let m = mounting().answer(MountAnswer::Context(nfs_context { addr: 0 }));
    assert!(matches!(m.request(), MountRequest::Finish));
    assert!(matches!(m.finish(), Some(Err(Error::ContextCreation))));
}

#[test]
fn mount_with_bad_strings() {
    let ctx = nfs_context { addr: 1 };
    let m = Client::mount("h\0", "/\0\0", NfsVersion::V3)
        .answer(MountAnswer::Context(ctx))
        .answer(MountAnswer::Configured);
    assert!(matches!(m.finish(), Some(Err(Error::InvalidString(e))) if e.position == 1
        && e.bytes == b"h\0"));
    let m = Client::mount("h", "/\0", NfsVersion::V3)
        .answer(MountAnswer::Context(ctx))
        .answer(MountAnswer::Configured);
    assert!(matches!(m.finish(), Some(Err(Error::InvalidString(e))) if e.bytes == b"/\0"));
}

#[test]
fn refused_mount_destroys_the_context() {
    let ctx = nfs_context { addr: 1 };
    let m = mounting()
        .answer(MountAnswer::Context(ctx))
        .answer(MountAnswer::Configured)
        .answer(MountAnswer::Submitted { rc: -1, message: Some(b"full".to_vec()) });
    assert!(matches!(m.request(), MountRequest::DestroyContext { ctx: c } if c == ctx));
    let m = m.answer(MountAnswer::Destroyed);
    assert!(matches!(m.request(), MountRequest::Finish));
    let e = m.finish().unwrap().err().unwrap();
    assert_eq!(e.to_string(), "failed to submit async operation: full");
}

#[test]
fn mount_without_loop() {
    let m = mounting()
        .answer(MountAnswer::Context(nfs_context { addr: 1 }))
        .answer(MountAnswer::Configured)
        .answer(MountAnswer::Submitted { rc: 0, message: None })
        .answer(MountAnswer::Started(Err(Error::Cancelled)));
    assert!(matches!(m.finish(), Some(Err(Error::Cancelled))));
}

fn waited(wait: Wait) -> Error {
    let (event_loop, _rx) = event_loop();
    let m = mounting()
        .answer(MountAnswer::Context(nfs_context { addr: 1 }))
        .answer(MountAnswer::Configured)
        .answer(MountAnswer::Submitted { rc: 0, message: None })
        .answer(MountAnswer::Started(Ok(event_loop)))
        .answer(MountAnswer::Waited(wait));
    assert!(matches!(m.request(), MountRequest::Apply(LoopEffect::Close { fd: 6 })));
    m.answer(MountAnswer::Applied).finish().unwrap().err().unwrap()
}

#[test]
fn mount_that_is_not_answered_well() {
    assert!(matches!(waited(Wait::TimedOut), Error::Timeout(30)));
    assert!(matches!(waited(Wait::Dropped), Error::Cancelled));
    let e = waited(Wait::Answered(Err((-13, String::from("denied")))));
    assert_eq!(e.to_string(), "NFS error (code -13): denied");
}

#[test]
fn context_goes_after_the_thread() {
    let (event_loop, _rx) = event_loop();
    let ctx = nfs_context { addr: 7 };
    let mut inner = NfsInner { ctx, event_loop };
    let steps = inner.teardown();
    assert_eq!(steps.len(), 6);
    assert!(matches!(steps[0], TeardownStep::Apply(LoopEffect::RaiseStop)));
    assert!(matches!(steps[1], TeardownStep::Apply(LoopEffect::Write { fd: 6, byte: 1 })));
    assert!(matches!(steps[2], TeardownStep::Join(3)));
    assert!(matches!(steps[3], TeardownStep::Pause { millis: 1 }));
    assert!(matches!(steps[4], TeardownStep::DestroyContext(c) if c == ctx));
    assert!(matches!(steps[5], TeardownStep::Apply(LoopEffect::Close { fd: 6 })));
    assert_eq!(inner.teardown().len(), 3);
}

fn entry(name: &[u8], kind: u32) -> nfsdirent {
    let time = libc_timeval { tv_sec: 0, tv_usec: 0 };
    nfsdirent {
        name: name.to_vec(),
        inode: 0,
        kind,
        mode: 0,
        size: 0,
        atime: time,
        mtime: time,
        ctime: time,
        uid: 0,
        gid: 0,
        nlink: 0,
        dev: 0,
        rdev: 0,
        blksize: 0,
        blocks: 0,
        used: 0,
        atime_nsec: 0,
        mtime_nsec: 0,
        ctime_nsec: 0,
    }
}

#[test]
fn listing_holds_all_entries() {
    let l = Listing::new()
        .answer(ListingAnswer::Entry(Some(entry(b"sub", DT_DIR))))
        .answer(ListingAnswer::Entry(Some(entry(b"f\xff", 1))));
    assert!(matches!(&l, Listing::Reading(entries) if entries.len() == 2));
    let l = l.answer(ListingAnswer::Closed).answer(ListingAnswer::Entry(None));
    assert!(matches!(&l, Listing::Closing(_)));
    match l.answer(ListingAnswer::Closed) {
        Listing::Complete(entries) => {
            assert_eq!(entries[0].name, "sub");
            assert!(entries[0].is_dir);
            assert_eq!(entries[1].name, "f\u{fffd}");
            assert!(!entries[1].is_dir);
        }
        _ => panic!("not complete"),
    }
}

#[test]
fn directory_is_opened_and_read() {
    let (c, _rx) = client();
    let dir = DirPtr(nfsdir { addr: 80 });
    let r = c.readdir_entries("/d");
    assert!(matches!(r.request(),
        ReaddirRequest::Submit(Operation::OpenDir { path }) if path == b"/d\0"));
    let r = r.answer(ReaddirAnswer::Submitted(Ok(())));
    assert!(matches!(r.request(), ReaddirRequest::AwaitDir));
    let r = r.answer(ReaddirAnswer::Dir(Some(Ok(dir))));
    assert!(matches!(r.request(),
        ReaddirRequest::Submit(Operation::List { dir: d }) if d == dir));
    let r = r.answer(ReaddirAnswer::Submitted(Ok(())));
    assert!(matches!(r.request(), ReaddirRequest::AwaitEntries));
    let entries = vec![
        DirEntry { name: String::from("."), is_dir: true },
        DirEntry { name: String::from("x"), is_dir: false },
    ];
    let r = r.answer(ReaddirAnswer::Entries(Some(entries)));
    assert!(matches!(r.request(), ReaddirRequest::Finish));
    let names = c.readdir_answered(r.finish().unwrap()).unwrap();
    assert_eq!(names, vec![String::from("."), String::from("x")]);
}

#[test]
fn directory_that_cannot_be_listed() {
    let (c, _rx) = client();
    let r = c.readdir("\0");
    assert!(matches!(r.finish(), Some(Err(Error::InvalidString(_)))));
    let r = c.readdir("/").answer(ReaddirAnswer::Submitted(Err(Error::Cancelled)));
    assert!(matches!(r.finish(), Some(Err(Error::Cancelled))));
    let opened = || Readdir::new("/").answer(ReaddirAnswer::Submitted(Ok(())));
    assert!(opened().finish().is_none());
    let r = opened().answer(ReaddirAnswer::Dir(Some(Err((-20, String::from("not a dir"))))));
    let e = c.readdir_answered(r.finish().unwrap()).unwrap_err();
    assert_eq!(e.to_string(), "NFS error (code -20): not a dir");
    let r = opened().answer(ReaddirAnswer::Dir(None));
    assert!(matches!(r.finish(), Some(Err(Error::Cancelled))));
    let reading = || opened().answer(ReaddirAnswer::Dir(Some(Ok(DirPtr(nfsdir { addr: 1 })))));
    let r = reading().answer(ReaddirAnswer::Submitted(Err(Error::Cancelled)));
    assert!(matches!(r.finish(), Some(Err(Error::Cancelled))));
    let r = reading()
        .answer(ReaddirAnswer::Submitted(Ok(())))
        .answer(ReaddirAnswer::Entries(None));
    assert!(matches!(r.finish(), Some(Err(Error::Cancelled))));
}
