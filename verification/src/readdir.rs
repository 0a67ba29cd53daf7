//! Listing a directory: it is opened in one round trip and read in another.

use vstd::prelude::*;
use vstd::string::*;
use vstd::utf8::*;

use crate::bridge;
use crate::bridge::{receive, DirPtr};
use crate::client::{Operation, OperationView};
use crate::dir::DirEntry;
use crate::error;
use crate::error::{c_argument, Error, ErrorView};

verus! {

/// A directory that is being listed.
#[derive(Debug)]
pub enum Readdir {
    /// The opening of the directory is to be submitted.
    Opening { path: Vec<u8> },
    /// The answer to the opening is waited for.
    AwaitingDir,
    /// The reading of its entries is to be submitted.
    Reading { dir: DirPtr },
    /// The entries are waited for.
    AwaitingEntries,
    /// The entries are there.
    Complete(Vec<DirEntry>),
    /// The directory could not be listed.
    Failed(Error),
}

/// A `Readdir`, its strings taken as text.
pub enum ReaddirView {
    Opening { path: Seq<u8> },
    AwaitingDir,
    Reading { dir: DirPtr },
    AwaitingEntries,
    Complete(Vec<DirEntry>),
    Failed(ErrorView),
}

impl View for Readdir {
    type V = ReaddirView;

    open spec fn view(&self) -> ReaddirView {
        match *self {
            Readdir::Opening { path } => ReaddirView::Opening { path: path@ },
            Readdir::AwaitingDir => ReaddirView::AwaitingDir,
            Readdir::Reading { dir } => ReaddirView::Reading { dir },
            Readdir::AwaitingEntries => ReaddirView::AwaitingEntries,
            Readdir::Complete(entries) => ReaddirView::Complete(entries),
            Readdir::Failed(e) => ReaddirView::Failed(e@),
        }
    }
}

/// What is to be done to list a directory.
#[derive(Debug)]
pub enum ReaddirRequest {
    /// Submit that operation.
    Submit(Operation),
    /// Wait for the open directory.
    AwaitDir,
    /// Wait for the entries.
    AwaitEntries,
    /// Nothing.
    Finish,
}

/// A `ReaddirRequest`, the paths taken as byte sequences.
pub enum ReaddirRequestView {
    Submit(OperationView),
    AwaitDir,
    AwaitEntries,
    Finish,
}

impl View for ReaddirRequest {
    type V = ReaddirRequestView;

    open spec fn view(&self) -> ReaddirRequestView {
        match self {
            ReaddirRequest::Submit(op) => ReaddirRequestView::Submit(op@),
            ReaddirRequest::AwaitDir => ReaddirRequestView::AwaitDir,
            ReaddirRequest::AwaitEntries => ReaddirRequestView::AwaitEntries,
            ReaddirRequest::Finish => ReaddirRequestView::Finish,
        }
    }
}

/// What came of it. The answer to an operation is missing where the place that
/// it goes to was given up.
#[derive(Debug)]
pub enum ReaddirAnswer {
    Submitted(Result<(), Error>),
    Dir(Option<Result<DirPtr, (i32, String)>>),
    Entries(Option<Vec<DirEntry>>),
}

/// The beginning of the listing of `path`.
pub open spec fn readdir_start(path: Seq<char>) -> ReaddirView {
    match error::c_argument_spec(path) {
        Ok(path) => ReaddirView::Opening { path },
        Err(e) => ReaddirView::Failed(e),
    }
}

/// What is to be done next.
pub open spec fn readdir_request(s: ReaddirView) -> ReaddirRequestView {
    match s {
        ReaddirView::Opening { path } => ReaddirRequestView::Submit(
            OperationView::OpenDir { path },
        ),
        ReaddirView::AwaitingDir => ReaddirRequestView::AwaitDir,
        ReaddirView::Reading { dir } => ReaddirRequestView::Submit(OperationView::List { dir }),
        ReaddirView::AwaitingEntries => ReaddirRequestView::AwaitEntries,
        ReaddirView::Complete(_) => ReaddirRequestView::Finish,
        ReaddirView::Failed(_) => ReaddirRequestView::Finish,
    }
}

/// The listing once a request was answered. An answer to something else changes
/// nothing.
pub open spec fn readdir_answer(s: ReaddirView, answer: ReaddirAnswer) -> ReaddirView {
    match (s, answer) {
        (ReaddirView::Opening { path }, ReaddirAnswer::Submitted(r)) => match r {
            Ok(()) => ReaddirView::AwaitingDir,
            Err(e) => ReaddirView::Failed(e@),
        },
        (ReaddirView::AwaitingDir, ReaddirAnswer::Dir(answer)) => match bridge::received(answer) {
            Ok(dir) => ReaddirView::Reading { dir },
            Err(e) => ReaddirView::Failed(e@),
        },
        (ReaddirView::Reading { dir }, ReaddirAnswer::Submitted(r)) => match r {
            Ok(()) => ReaddirView::AwaitingEntries,
            Err(e) => ReaddirView::Failed(e@),
        },
        (ReaddirView::AwaitingEntries, ReaddirAnswer::Entries(answer)) => match answer {
            Some(entries) => ReaddirView::Complete(entries),
            None => ReaddirView::Failed(ErrorView::Cancelled),
        },
        _ => s,
    }
}

impl Readdir {
    /// Begins to list the directory `path`.
    pub fn new(path: &str) -> (r: Readdir)
        ensures
            r@ == readdir_start(path@),
            !path@.contains('\0') ==> (r matches Readdir::Opening { path: bytes } && bytes@ == encode_utf8(
                path@,
            ).push(0)),
            path@.contains('\0') ==> (r matches Readdir::Failed(Error::InvalidString(e))
                && e.bytes@ == encode_utf8(path@) && e.position < e.bytes@.len()
                    && e.bytes@[e.position as int] == 0 && (forall|i: int|
                    0 <= i < e.position ==> e.bytes@[i] != 0)),
    {
        match c_argument(path) {
            Ok(path) => Readdir::Opening { path },
            Err(e) => Readdir::Failed(e),
        }
    }

    /// What is to be done next.
    pub fn request(&self) -> (r: ReaddirRequest)
        ensures
            r@ == readdir_request(self@),
            match *self {
                Readdir::Opening { path } => r matches ReaddirRequest::Submit(
                    Operation::OpenDir { path: bytes },
                ) && bytes@ == path@,
                Readdir::AwaitingDir => r is AwaitDir,
                Readdir::Reading { dir } => r == ReaddirRequest::Submit(Operation::List { dir }),
                Readdir::AwaitingEntries => r is AwaitEntries,
                Readdir::Complete(_) => r is Finish,
                Readdir::Failed(_) => r is Finish,
            },
    {
        match self {
            Readdir::Opening { path } => {
                let path_c = path.clone();
                assert(path_c@ =~= path@);
                ReaddirRequest::Submit(Operation::OpenDir { path: path_c })
            },
            Readdir::AwaitingDir => ReaddirRequest::AwaitDir,
            Readdir::Reading { dir } => ReaddirRequest::Submit(Operation::List { dir: *dir }),
            Readdir::AwaitingEntries => ReaddirRequest::AwaitEntries,
            Readdir::Complete(_) => ReaddirRequest::Finish,
            Readdir::Failed(_) => ReaddirRequest::Finish,
        }
    }

    /// The listing once the request was answered.
    pub fn answer(self, answer: ReaddirAnswer) -> (r: Readdir)
        ensures
            r@ == readdir_answer(self@, answer),
            match (self, answer) {
                (Readdir::Opening { .. }, ReaddirAnswer::Submitted(Ok(()))) => r is AwaitingDir,
                (Readdir::Opening { .. }, ReaddirAnswer::Submitted(Err(e))) => r == Readdir::Failed(e),
                (Readdir::AwaitingDir, ReaddirAnswer::Dir(Some(Ok(dir)))) => r == (Readdir::Reading {
                    dir,
                }),
                (Readdir::AwaitingDir, ReaddirAnswer::Dir(Some(Err((code, message))))) => r
                    == Readdir::Failed(Error::Nfs { code, message }),
                (Readdir::AwaitingDir, ReaddirAnswer::Dir(None)) => r == Readdir::Failed(
                    Error::Cancelled,
                ),
                (Readdir::Reading { .. }, ReaddirAnswer::Submitted(Ok(()))) => r is AwaitingEntries,
                (Readdir::Reading { .. }, ReaddirAnswer::Submitted(Err(e))) => r == Readdir::Failed(e),
                (Readdir::AwaitingEntries, ReaddirAnswer::Entries(Some(entries))) => r
                    == Readdir::Complete(entries),
                (Readdir::AwaitingEntries, ReaddirAnswer::Entries(None)) => r == Readdir::Failed(
                    Error::Cancelled,
                ),
                _ => r == self,
            },
    {
        match (self, answer) {
            (Readdir::Opening { .. }, ReaddirAnswer::Submitted(r)) => match r {
                Ok(()) => Readdir::AwaitingDir,
                Err(e) => Readdir::Failed(e),
            },
            (Readdir::AwaitingDir, ReaddirAnswer::Dir(answer)) => match receive(answer) {
                Ok(dir) => Readdir::Reading { dir },
                Err(e) => Readdir::Failed(e),
            },
            (Readdir::Reading { .. }, ReaddirAnswer::Submitted(r)) => match r {
                Ok(()) => Readdir::AwaitingEntries,
                Err(e) => Readdir::Failed(e),
            },
            (Readdir::AwaitingEntries, ReaddirAnswer::Entries(answer)) => match answer {
                Some(entries) => Readdir::Complete(entries),
                None => Readdir::Failed(Error::Cancelled),
            },
            (listing, _) => listing,
        }
    }

    /// The entries, or why there are none; nothing as long as something is still
    /// to be done.
    pub fn finish(self) -> (r: Option<Result<Vec<DirEntry>, Error>>)
        ensures
            r == match self {
                Readdir::Complete(entries) => Some(Ok::<Vec<DirEntry>, Error>(entries)),
                Readdir::Failed(e) => Some(Err::<Vec<DirEntry>, Error>(e)),
                _ => None,
            },
    {
        match self {
            Readdir::Complete(entries) => Some(Ok(entries)),
            Readdir::Failed(e) => Some(Err(e)),
            _ => None,
        }
    }
}

/// What the listing of a directory comes to, given all that is answered in the
/// course of it: the first step that fails decides.
pub open spec fn readdir_verdict(
    path: Seq<char>,
    opening: Result<(), Error>,
    dir: Option<Result<DirPtr, (i32, String)>>,
    reading: Result<(), Error>,
    entries: Option<Vec<DirEntry>>,
) -> Result<Vec<DirEntry>, ErrorView> {
    match (
        error::c_argument_spec(path),
        opening,
        bridge::received(dir),
        reading,
        entries,
    ) {
        (Err(e), _, _, _, _) => Err(e),
        (_, Err(e), _, _, _) => Err(e@),
        (_, _, Err(e), _, _) => Err(e@),
        (_, _, _, Err(e), _) => Err(e@),
        (_, _, _, _, None) => Err(ErrorView::Cancelled),
        (_, _, _, _, Some(entries)) => Ok(entries),
    }
}

/// The listing of a directory succeeds exactly where every step of it does, and
/// otherwise fails with the error of the first step that failed. The directory
/// that is read is the one that was opened.
pub proof fn law_readdir_outcome(
    path: Seq<char>,
    opening: Result<(), Error>,
    dir: Option<Result<DirPtr, (i32, String)>>,
    reading: Result<(), Error>,
    entries: Option<Vec<DirEntry>>,
)
    ensures
        ({
            let s0 = readdir_start(path);
            let s1 = readdir_answer(s0, ReaddirAnswer::Submitted(opening));
            let s2 = readdir_answer(s1, ReaddirAnswer::Dir(dir));
            let s3 = readdir_answer(s2, ReaddirAnswer::Submitted(reading));
            let s4 = readdir_answer(s3, ReaddirAnswer::Entries(entries));
            &&& s4 == match readdir_verdict(path, opening, dir, reading, entries) {
                Ok(all) => ReaddirView::Complete(all),
                Err(e) => ReaddirView::Failed(e),
            }
            &&& readdir_request(s2) matches ReaddirRequestView::Submit(op) ==> {
                &&& dir matches Some(Ok(opened)) && op == (OperationView::List { dir: opened })
            }
        }),
{
}

/// The listing of a path begins with the request that the directory of exactly
/// this path be opened: what libnfs gets is the encoding of the path and a final
/// zero byte. A path that holds the character NUL is refused, and nothing is asked
/// for.
pub proof fn law_listing_opens_its_path(path: Seq<char>)
    ensures
        !path.contains('\0') ==> readdir_request(readdir_start(path)) == ReaddirRequestView::Submit(
            OperationView::OpenDir { path: encode_utf8(path).push(0) },
        ),
        path.contains('\0') ==> readdir_request(readdir_start(path)) == ReaddirRequestView::Finish
            && (readdir_start(path) matches ReaddirView::Failed(
            ErrorView::InvalidString { position, bytes },
        ) && bytes == encode_utf8(path) && position < bytes.len() && bytes[position as int] == 0),
{
    error::law_string_arguments(path);
}

/// The listings of different paths open different directories.
pub proof fn law_listings_are_told_apart(a: Seq<char>, b: Seq<char>)
    requires
        !a.contains('\0'),
        !b.contains('\0'),
        readdir_request(readdir_start(a)) == readdir_request(readdir_start(b)),
    ensures
        a == b,
{
    law_listing_opens_its_path(a);
    law_listing_opens_its_path(b);
    assert(encode_utf8(a).push(0).drop_last() =~= encode_utf8(a));
    assert(encode_utf8(b).push(0).drop_last() =~= encode_utf8(b));
    encode_utf8_decode_utf8(a);
    encode_utf8_decode_utf8(b);
}

/// What a listing that succeeds asks for, one thing after the other: that the
/// directory be opened, its answer, that the entries of the directory that was
/// opened be read, and the entries, which are the result.
pub proof fn law_listing_requests(path: Seq<char>, dir: DirPtr, entries: Vec<DirEntry>)
    requires
        !path.contains('\0'),
    ensures
        ({
            let s0 = readdir_start(path);
            let s1 = readdir_answer(s0, ReaddirAnswer::Submitted(Ok(())));
            let s2 = readdir_answer(s1, ReaddirAnswer::Dir(Some(Ok(dir))));
            let s3 = readdir_answer(s2, ReaddirAnswer::Submitted(Ok(())));
            let s4 = readdir_answer(s3, ReaddirAnswer::Entries(Some(entries)));
            &&& readdir_request(s0) == ReaddirRequestView::Submit(
                OperationView::OpenDir { path: encode_utf8(path).push(0) },
            )
            &&& readdir_request(s1) == ReaddirRequestView::AwaitDir
            &&& readdir_request(s2) == ReaddirRequestView::Submit(OperationView::List { dir })
            &&& readdir_request(s3) == ReaddirRequestView::AwaitEntries
            &&& readdir_request(s4) == ReaddirRequestView::Finish
            &&& s4 == ReaddirView::Complete(entries)
        }),
{
    error::law_string_arguments(path);
}

/// What a listing that fails comes to: the error of the step that failed, and
/// nothing more to be asked for.
pub proof fn law_listing_failures(path: Seq<u8>, dir: DirPtr, e: Error, code: i32, message: String)
    ensures
        ({
            let opening = ReaddirView::Opening { path };
            let reading = ReaddirView::Reading { dir };
            let unsent = ReaddirAnswer::Submitted(Err(e));
            let refused = ReaddirAnswer::Dir(Some(Err((code, message))));
            &&& readdir_answer(opening, unsent) == ReaddirView::Failed(e@)
            &&& readdir_answer(reading, unsent) == ReaddirView::Failed(e@)
            &&& readdir_answer(ReaddirView::AwaitingDir, refused) == ReaddirView::Failed(
                ErrorView::Nfs { code: code as int, message: message@ },
            )
            &&& readdir_answer(ReaddirView::AwaitingDir, ReaddirAnswer::Dir(None))
                == ReaddirView::Failed(ErrorView::Cancelled)
            &&& readdir_answer(ReaddirView::AwaitingEntries, ReaddirAnswer::Entries(None))
                == ReaddirView::Failed(ErrorView::Cancelled)
            &&& readdir_request(ReaddirView::Failed(e@)) == ReaddirRequestView::Finish
        }),
{
}

} // verus!
