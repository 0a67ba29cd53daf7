use libnfs::dir::DirEntry;
use libnfs::stat::FileStat;
use libnfs::tools::{count_line, entry_path, list_line, Fetch};
use libnfs::walk::{join_path, Walk, WalkAnswer, WalkRequest, WALK_BUFFER};
use libnfs::Error;
use tokio::sync::mpsc::channel;

fn entry(name: &str, is_dir: bool) -> DirEntry {
    DirEntry { name: String::from(name), is_dir }
}

fn list(dir: &str) -> Result<Vec<DirEntry>, Error> {
    match dir {
        "/" => Ok(vec![
            entry(".", true),
            entry("..", true),
            entry("a", true),
            entry("locked", true),
            entry("z", false),
        ]),
        "/a" => Ok(vec![entry(".", true), entry("b", true), entry("f", false), entry("..", true)]),
        "/a/b" => Ok(vec![]),
        _ => Err(Error::Nfs { code: -13, message: String::from(dir) }),
    }
}

/// The items that a consumer gets who takes `takes`, the directories that were
/// listed, and how the walk ended.
fn walked(root: &str, takes: usize) -> (Vec<String>, Vec<String>, Result<(), Error>) {
    let mut walk = Walk::new(root);
    let mut taken = Vec::new();
    let mut listed = Vec::new();
    loop {
        let answer = match walk.request() {
            WalkRequest::List(dir) => {
                listed.push(dir.clone());
                WalkAnswer::Listed(list(&dir))
            }
            WalkRequest::Send(item) => {
                let sent = taken.len() < takes;
                if sent {
                    taken.push(match item {
                        Ok(path) => path,
                        Err(e) => e.to_string(),
                    });
                }
                WalkAnswer::Sent(sent)
            }
            WalkRequest::Finish(r) => return (taken, listed, r),
        };
        walk = walk.answer(answer);
    }
}

const ALL: [&str; 6] =
    ["/a", "/a/b", "/a/f", "/locked", "NFS error (code -13): /locked", "/z"];

#[test]
fn walk_yields_all_paths_depth_first() {
    let (taken, listed, end) = walked("/", 100);
    assert_eq!(taken, ALL);
    assert_eq!(listed, ["/", "/a", "/a/b", "/locked"]);
    assert!(end.is_ok());
    assert_eq!(WALK_BUFFER, 64);
}

#[test]
fn walk_stops_with_its_consumer() {
    for takes in 0..=ALL.len() {
        let (taken, _, end) = walked("/", takes);
        assert_eq!(taken, ALL[..takes]);
        assert!(end.is_ok());
    }
    let (_, listed, _) = walked("/", 1);
    assert_eq!(listed, ["/", "/a"]);
    let (_, listed, _) = walked("/", 0);
    assert_eq!(listed, ["/"]);
}

#[test]
fn walk_of_what_cannot_be_listed() {
    let (taken, listed, end) = walked("/nowhere", 100);
    assert!(taken.is_empty());
    assert_eq!(listed, ["/nowhere"]);
    assert_eq!(end.unwrap_err().to_string(), "NFS error (code -13): /nowhere");
}

#[test]
fn walk_ignores_what_was_not_asked() {
    let walk = Walk::new("/").answer(WalkAnswer::Sent(true));
    assert!(matches!(walk.request(), WalkRequest::List(dir) if dir == "/"));
    let walk = walk.answer(WalkAnswer::Listed(list("/")));
    let walk = walk.answer(WalkAnswer::Listed(list("/a")));
    assert!(matches!(walk.request(), WalkRequest::Send(Ok(path)) if path == "/a"));
}

#[test]
fn joined_paths() {
    assert_eq!(join_path("/", "x"), "/x");
    assert_eq!(join_path("/a", "x"), "/a/x");
    assert_eq!(join_path("", "x"), "/x");
    assert_eq!(join_path("/a/", "x"), "/a//x");
}

#[test]
fn file_comes_piece_by_piece() {
    let data = b"some text";
    for step in 1..12 {
        let mut f = Fetch::new(data.len());
        while let Some(offset) = f.next_read() {
            let n = step.min(data.len() - offset);
            f.buf[offset..offset + n].copy_from_slice(&data[offset..offset + n]);
            f.advance(n);
        }
        assert_eq!(f.text(), "some text");
    }
}

#[test]
fn file_that_is_shorter_than_said() {
    let mut f = Fetch::new(5);
    assert_eq!(f.buf, vec![0; 5]);
    assert_eq!(f.next_read(), Some(0));
    f.buf[0] = b'x';
    f.advance(1);
    assert_eq!(f.next_read(), Some(1));
    f.advance(0);
    assert_eq!(f.next_read(), None);
    assert_eq!(f.text(), "x");
    assert_eq!(Fetch::new(0).next_read(), None);
}

fn stat(mode: u64, size: u64) -> FileStat {
    FileStat {
        dev: 0,
        ino: 0,
        mode,
        nlink: 0,
        uid: 0,
        gid: 0,
        rdev: 0,
        size,
        blksize: 0,
        blocks: 0,
        atime: 0,
        atime_nsec: 0,
        mtime: 0,
        mtime_nsec: 0,
        ctime: 0,
        ctime_nsec: 0,
        used: 0,
    }
}

#[test]
fn lines_of_a_listing() {
    assert_eq!(list_line(Some(&stat(0o40755, 4096)), "dir"), "d       4096  dir");
    assert_eq!(list_line(Some(&stat(0o120777, 7)), "link"), "l          7  link");
    assert_eq!(list_line(Some(&stat(0o100644, 12345678901)), "big"), "- 12345678901  big");
    assert_eq!(list_line(None, "gone"), "?          ?  gone");
    assert_eq!(count_line(0), "\n0 entries");
    assert_eq!(count_line(12), "\n12 entries");
}

#[test]
fn paths_of_a_listing() {
    assert_eq!(entry_path("/", "x"), "/x");
    assert_eq!(entry_path("/ä//", "x"), "/ä/x");
    assert_eq!(entry_path("", "x"), "/x");
}

#[test]
fn consumer_receives_all_items_through_a_channel() {
    let listing = || (0..100).map(|i| entry(&i.to_string(), false)).collect::<Vec<_>>();
    let (tx, mut rx) = channel::<String>(WALK_BUFFER);
    let mut received = Vec::new();
    let mut walk = Walk::new("/");
    loop {
        let answer = match walk.request() {
            WalkRequest::List(_) => WalkAnswer::Listed(Ok(listing())),
            WalkRequest::Send(item) => {
                if tx.capacity() == 0 {
                    received.push(rx.try_recv().unwrap());
                }
                WalkAnswer::Sent(tx.try_send(item.unwrap()).is_ok())
            }
            WalkRequest::Finish(_) => break,
        };
        walk = walk.answer(answer);
    }
    drop(tx);
    while let Ok(item) = rx.try_recv() {
        received.push(item);
    }
    assert_eq!(received, (0..100).map(|i| format!("/{i}")).collect::<Vec<_>>());
}
