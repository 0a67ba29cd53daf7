//! The depth-first walk of a directory tree.
//!
//! The walk asks for one thing at a time, that a directory be listed or that an
//! item be sent to the one who consumes the walk, and is told what came of it.

use vstd::prelude::*;
use vstd::string::*;

use crate::dir;
use crate::dir::{DirEntry, EntryView};
use crate::error::{Error, ErrorView};
use crate::text::same_text;

verus! {

/// How many items may wait for the consumer of a walk.
pub const WALK_BUFFER: usize = 64;

/// The names by which a directory lists itself and its parent.
pub open spec fn is_dot(name: Seq<char>) -> bool {
    name == "."@ || name == ".."@
}

/// The path of the entry `name` of the directory `dir`.
pub open spec fn child_path(dir: Seq<char>, name: Seq<char>) -> Seq<char> {
    if dir == "/"@ {
        "/"@ + name
    } else {
        dir + "/"@ + name
    }
}

/// A directory that the walk is inside of: its path, its entries, and the
/// index of the first entry that the walk is not done with.
pub struct FrameView {
    pub dir: Seq<char>,
    pub entries: Seq<EntryView>,
    pub next: int,
}

pub enum PhaseView {
    /// The directory of that path is to be listed.
    Reading(Seq<char>),
    /// The path of the next entry of the innermost directory is to be sent.
    SendingPath,
    /// The error that kept a directory from being listed is to be sent.
    SendingError(ErrorView),
    /// The walk is over.
    Finished(Result<(), ErrorView>),
}

/// Where a walk stands: the directories it is inside of, innermost last, and
/// what is to be done now.
pub struct WalkView {
    pub frames: Seq<FrameView>,
    pub phase: PhaseView,
}

/// An item of the walk: a path, or the error that kept a directory from being
/// listed.
pub type ItemView = Result<Seq<char>, ErrorView>;

/// What a walk asks for.
pub enum RequestView {
    List(Seq<char>),
    Send(ItemView),
    Finish(Result<(), ErrorView>),
}

/// What a walk is told.
pub enum AnswerView {
    Listed(Result<Seq<EntryView>, ErrorView>),
    Sent(bool),
}

/// The index of the first entry from `i` on that is not the directory itself
/// or its parent, or the number of entries where there is none.
pub open spec fn skip_dots(entries: Seq<EntryView>, i: int) -> int
    decreases entries.len() - i,
{
    if i < entries.len() && is_dot(entries[i].name) {
        skip_dots(entries, i + 1)
    } else {
        i
    }
}

/// The walk once what was asked of it inside of `frames` is done: it goes on
/// with the next entry of the innermost directory that has one left.
pub open spec fn settle(frames: Seq<FrameView>) -> WalkView
    decreases frames.len(),
{
    if frames.len() == 0 {
        WalkView { frames, phase: PhaseView::Finished(Ok(())) }
    } else {
        let frame = frames.last();
        let next = skip_dots(frame.entries, frame.next);
        if next < frame.entries.len() {
            WalkView {
                frames: frames.drop_last().push(FrameView { next, ..frame }),
                phase: PhaseView::SendingPath,
            }
        } else {
            settle(frames.drop_last())
        }
    }
}

/// The path of the entry that the innermost directory stands at.
pub open spec fn next_path(frame: FrameView) -> Seq<char> {
    child_path(frame.dir, frame.entries[frame.next].name)
}

/// A walk of the directory `root` that has done nothing yet.
pub open spec fn walk_start(root: Seq<char>) -> WalkView {
    WalkView { frames: seq![], phase: PhaseView::Reading(root) }
}

/// What the walk asks for.
pub open spec fn walk_request(s: WalkView) -> RequestView {
    match s.phase {
        PhaseView::Reading(dir) => RequestView::List(dir),
        PhaseView::SendingPath => RequestView::Send(Ok(next_path(s.frames.last()))),
        PhaseView::SendingError(e) => RequestView::Send(Err(e)),
        PhaseView::Finished(r) => RequestView::Finish(r),
    }
}

/// The walk once it is told what came of its request. An answer to something
/// else leaves it as it was.
pub open spec fn walk_answer(s: WalkView, answer: AnswerView) -> WalkView {
    match (s.phase, answer) {
        (PhaseView::Reading(dir), AnswerView::Listed(Ok(entries))) => settle(
            s.frames.push(FrameView { dir, entries, next: 0 }),
        ),
        (PhaseView::Reading(dir), AnswerView::Listed(Err(e))) => if s.frames.len() == 0 {
            WalkView { phase: PhaseView::Finished(Err(e)), ..s }
        } else {
            WalkView { phase: PhaseView::SendingError(e), ..s }
        },
        (PhaseView::SendingPath, AnswerView::Sent(true)) => {
            let frame = s.frames.last();
            let frames = s.frames.drop_last().push(FrameView { next: frame.next + 1, ..frame });
            if frame.entries[frame.next].is_dir {
                WalkView { frames, phase: PhaseView::Reading(next_path(frame)) }
            } else {
                settle(frames)
            }
        },
        (PhaseView::SendingError(e), AnswerView::Sent(true)) => settle(s.frames),
        (PhaseView::SendingPath, AnswerView::Sent(false)) => settle(s.frames.drop_last()),
        (PhaseView::SendingError(e), AnswerView::Sent(false)) => settle(s.frames.drop_last()),
        _ => s,
    }
}

#[derive(Debug)]
struct Frame {
    dir: String,
    entries: Vec<DirEntry>,
    next: usize,
}

impl Frame {
    spec fn view(&self) -> FrameView {
        FrameView {
            dir: self.dir@,
            entries: dir::entries_view(self.entries@),
            next: self.next as int,
        }
    }
}

#[derive(Debug)]
enum Phase {
    Reading(String),
    SendingPath,
    SendingError(Error),
    Finished(Result<(), Error>),
}

impl Phase {
    spec fn view(&self) -> PhaseView {
        match self {
            Phase::Reading(dir) => PhaseView::Reading(dir@),
            Phase::SendingPath => PhaseView::SendingPath,
            Phase::SendingError(e) => PhaseView::SendingError(e@),
            Phase::Finished(Ok(())) => PhaseView::Finished(Ok(())),
            Phase::Finished(Err(e)) => PhaseView::Finished(Err(e@)),
        }
    }
}

spec fn frames_view(frames: Seq<Frame>) -> Seq<FrameView> {
    Seq::new(frames.len(), |i: int| frames[i].view())
}

/// A depth-first walk of a directory tree.
#[derive(Debug)]
pub struct Walk {
    frames: Vec<Frame>,
    phase: Phase,
}

/// What a walk asks for.
#[derive(Debug)]
pub enum WalkRequest {
    /// List the directory of that path.
    List(String),
    /// Send that item to the consumer of the walk.
    Send(Result<String, Error>),
    /// Nothing: the walk is over. Where the directory that the walk began with
    /// could not be listed, the error says why.
    Finish(Result<(), Error>),
}

impl View for WalkRequest {
    type V = RequestView;

    open spec fn view(&self) -> RequestView {
        match self {
            WalkRequest::List(dir) => RequestView::List(dir@),
            WalkRequest::Send(Ok(path)) => RequestView::Send(Ok(path@)),
            WalkRequest::Send(Err(e)) => RequestView::Send(Err(e@)),
            WalkRequest::Finish(Ok(())) => RequestView::Finish(Ok(())),
            WalkRequest::Finish(Err(e)) => RequestView::Finish(Err(e@)),
        }
    }
}

/// What a walk is told.
#[derive(Debug)]
pub enum WalkAnswer {
    /// The entries of the directory, or why it could not be listed.
    Listed(Result<Vec<DirEntry>, Error>),
    /// Whether the consumer took the item. One who refuses an item takes no
    /// more of them.
    Sent(bool),
}

impl View for WalkAnswer {
    type V = AnswerView;

    open spec fn view(&self) -> AnswerView {
        match self {
            WalkAnswer::Listed(Ok(entries)) => AnswerView::Listed(Ok(dir::entries_view(entries@))),
            WalkAnswer::Listed(Err(e)) => AnswerView::Listed(Err(e@)),
            WalkAnswer::Sent(taken) => AnswerView::Sent(*taken),
        }
    }
}

fn dot(name: &str) -> (r: bool)
    ensures
        r == is_dot(name@),
{
    same_text(name, ".") || same_text(name, "..")
}

/// The path of the entry `name` of the directory `dir`.
pub fn join_path(dir: &str, name: &str) -> (r: String)
    ensures
        r@ == child_path(dir@, name@),
        dir@ == "/"@ ==> r@ == "/"@ + name@,
        dir@ != "/"@ ==> r@ == dir@ + "/"@ + name@,
{
    let mut path = String::new();
    if !same_text(dir, "/") {
        path.append(dir);
    }
    path.append("/");
    path.append(name);
    assert(path@ =~= child_path(dir@, name@));
    path
}

impl View for Walk {
    type V = WalkView;

    closed spec fn view(&self) -> WalkView {
        WalkView { frames: frames_view(self.frames@), phase: self.phase.view() }
    }
}

impl Walk {
    /// A walk that is about to send a path stands at an entry; one that is
    /// about to send an error is inside of a directory.
    pub closed spec fn wf(&self) -> bool {
        match self.phase {
            Phase::SendingPath => self.frames@.len() > 0 && self.frames@.last().next
                < self.frames@.last().entries@.len(),
            Phase::SendingError(_) => self.frames@.len() > 0,
            _ => true,
        }
    }

    /// A walk of the directory `root`.
    pub fn new(root: &str) -> (r: Walk)
        ensures
            r.wf(),
            r@ == walk_start(root@),
    {
        let r = Walk { frames: Vec::new(), phase: Phase::Reading(root.to_owned()) };
        assert(r@.frames =~= seq![]);
        r
    }

    fn settled(frames: Vec<Frame>) -> (r: Walk)
        ensures
            r.wf(),
            r@ == settle(frames_view(frames@)),
    {
        let mut stack = frames;
        loop
            invariant
                settle(frames_view(stack@)) == settle(frames_view(frames@)),
            decreases stack@.len(),
        {
            let ghost before = stack@;
            match stack.pop() {
                None => {
                    assert(frames_view(stack@) =~= seq![]);
                    return Walk { frames: stack, phase: Phase::Finished(Ok(())) };
                },
                Some(frame) => {
                    let mut frame = frame;
                    let ghost from = frame.view();
                    assert(frames_view(before).last() == from);
                    assert(frames_view(before).drop_last() =~= frames_view(stack@));
                    while frame.next < frame.entries.len() && dot(
                        frame.entries[frame.next].name.as_str(),
                    )
                        invariant
                            frame.view().entries == from.entries,
                            frame.view().dir == from.dir,
                            skip_dots(from.entries, frame.next as int) == skip_dots(
                                from.entries,
                                from.next,
                            ),
                        decreases frame.entries@.len() - frame.next,
                    {
                        assert(frame.view().entries[frame.next as int].name
                            == frame.entries@[frame.next as int].name@);
                        frame.next += 1;
                    }
                    if frame.next < frame.entries.len() {
                        assert(frame.view().entries[frame.next as int].name
                            == frame.entries@[frame.next as int].name@);
                        let ghost rest = stack@;
                        stack.push(frame);
                        assert(frames_view(stack@) =~= frames_view(rest).push(frame.view()));
                        return Walk { frames: stack, phase: Phase::SendingPath };
                    }
                },
            }
        }
    }

    /// What the walk asks for.
    pub fn request(&self) -> (r: WalkRequest)
        requires
            self.wf(),
        ensures
            r@ == walk_request(self@),
            match (r, walk_request(self@)) {
                (WalkRequest::List(dir), RequestView::List(path)) => dir@ == path,
                (WalkRequest::Send(Ok(item)), RequestView::Send(Ok(path))) => item@ == path,
                (WalkRequest::Send(Err(e)), RequestView::Send(Err(error))) => e@ == error,
                (WalkRequest::Finish(Ok(())), RequestView::Finish(Ok(()))) => true,
                (WalkRequest::Finish(Err(e)), RequestView::Finish(Err(error))) => e@ == error,
                _ => false,
            },
    {
        match &self.phase {
            Phase::Reading(dir) => WalkRequest::List(dir.clone()),
            Phase::SendingPath => {
                let frame = &self.frames[self.frames.len() - 1];
                assert(self@.frames.last() == frame.view());
                WalkRequest::Send(
                    Ok(
                        join_path(
                            frame.dir.as_str(),
                            frame.entries[frame.next].name.as_str(),
                        ),
                    ),
                )
            },
            Phase::SendingError(e) => WalkRequest::Send(Err(e.clone())),
            Phase::Finished(Ok(())) => WalkRequest::Finish(Ok(())),
            Phase::Finished(Err(e)) => WalkRequest::Finish(Err(e.clone())),
        }
    }

    /// The walk once it is told what came of its request.
    pub fn answer(self, answer: WalkAnswer) -> (r: Walk)
        requires
            self.wf(),
        ensures
            r.wf(),
            r@ == walk_answer(self@, answer@),
            match answer {
                WalkAnswer::Listed(Ok(entries)) => r@ == walk_answer(
                    self@,
                    AnswerView::Listed(
                        Ok(
                            Seq::new(
                                entries@.len(),
                                |i: int|
                                    EntryView {
                                        name: entries@[i].name@,
                                        is_dir: entries@[i].is_dir,
                                    },
                            ),
                        ),
                    ),
                ),
                WalkAnswer::Listed(Err(e)) => r@ == walk_answer(self@, AnswerView::Listed(Err(e@))),
                WalkAnswer::Sent(taken) => r@ == walk_answer(self@, AnswerView::Sent(taken)),
            },
    {
        let ghost told = answer;
        proof {
            if let WalkAnswer::Listed(Ok(entries)) = told {
                assert(dir::entries_view(entries@) =~= Seq::new(
                    entries@.len(),
                    |i: int| EntryView { name: entries@[i].name@, is_dir: entries@[i].is_dir },
                ));
            }
        }
        let Walk { frames, phase } = self;
        let mut frames = frames;
        let ghost before = frames@;
        match (phase, answer) {
            (Phase::Reading(dir), WalkAnswer::Listed(Ok(entries))) => {
                frames.push(Frame { dir, entries, next: 0 });
                assert(frames_view(frames@) =~= frames_view(before).push(frames@.last().view()));
                Walk::settled(frames)
            },
            (Phase::Reading(dir), WalkAnswer::Listed(Err(e))) => {
                if frames.len() == 0 {
                    Walk { frames, phase: Phase::Finished(Err(e)) }
                } else {
                    Walk { frames, phase: Phase::SendingError(e) }
                }
            },
            (Phase::SendingPath, WalkAnswer::Sent(true)) => {
                let last: usize = frames.len() - 1;
                let next: usize = frames[last].next;
                let is_dir = frames[last].entries[next].is_dir;
                let path = join_path(
                    frames[last].dir.as_str(),
                    frames[last].entries[next].name.as_str(),
                );
                assert(next < frames@.last().entries.len());
                frames[last].next = next + 1;
                assert(frames_view(frames@) =~= frames_view(before).drop_last().push(
                    frames@.last().view(),
                ));
                if is_dir {
                    Walk { frames, phase: Phase::Reading(path) }
                } else {
                    Walk::settled(frames)
                }
            },
            (Phase::SendingError(e), WalkAnswer::Sent(true)) => Walk::settled(frames),
            (Phase::SendingPath, WalkAnswer::Sent(false)) => {
                frames.pop();
                assert(frames_view(frames@) =~= frames_view(before).drop_last());
                Walk::settled(frames)
            },
            (Phase::SendingError(e), WalkAnswer::Sent(false)) => {
                frames.pop();
                assert(frames_view(frames@) =~= frames_view(before).drop_last());
                Walk::settled(frames)
            },
            (phase, _) => Walk { frames, phase },
        }
    }
}

/// The path of an entry is that of its directory, a slash and its name; the path
/// of the root directory is itself the slash.
pub proof fn law_paths_of_entries(dir: Seq<char>, name: Seq<char>)
    ensures
        child_path("/"@, name) == "/"@ + name,
        dir != "/"@ ==> child_path(dir, name) == dir + "/"@ + name,
{
}

/// The names that a walk leaves out are one dot and two dots, and no others.
pub proof fn law_names_left_out(name: Seq<char>)
    ensures
        is_dot(name) <==> name == seq!['.'] || name == seq!['.', '.'],
{
    reveal_strlit(".");
    reveal_strlit("..");
    assert("."@ =~= seq!['.']);
    assert(".."@ =~= seq!['.', '.']);
}

/// A walk begins with the request that its root be listed, and an answer to
/// something that it did not ask for leaves it as it was.
pub proof fn law_walk_asks_and_is_answered(root: Seq<char>, s: WalkView, answer: AnswerView)
    ensures
        walk_request(walk_start(root)) == RequestView::List(root),
        walk_request(s) is List && answer is Sent ==> walk_answer(s, answer) == s,
        walk_request(s) is Send && answer is Listed ==> walk_answer(s, answer) == s,
        walk_request(s) is Finish ==> walk_answer(s, answer) == s,
{
}

} // verus!
