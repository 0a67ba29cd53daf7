//! The client: what each of its operations asks of libnfs, and what it makes of
//! the answer.

use vstd::prelude::*;
use vstd::string::*;
use vstd::utf8::*;

use std::sync::Arc;

use crate::bridge;
use crate::bridge::{receive, DirPtr, FhPtr};
use crate::channel::Queueing;
use crate::dir::{entry_names, DirEntry};
use crate::error;
use crate::error::{c_argument, Error, ErrorView};
use crate::event_loop::{EventLoop, LoopEffect};
use crate::file::NfsFile;
use crate::readdir;
use crate::readdir::Readdir;
use crate::stat;
use crate::stat::FileStat;
use crate::sys;
use crate::sys::{nfs_context, nfs_stat_64};
use crate::walk;
use crate::walk::Walk;

verus! {

/// A version of the protocol.
#[derive(Debug, Clone, Copy, PartialEq, Eq, Structural)]
pub enum NfsVersion {
    V3,
    V4,
}

impl NfsVersion {
    /// The number of the version.
    pub fn as_raw(self) -> (r: i32)
        ensures
            r == match self {
                NfsVersion::V3 => sys::NFS_V3,
                NfsVersion::V4 => sys::NFS_V4,
            },
            self is V3 ==> r == 3,
            self is V4 ==> r == 4,
    {
        match self {
            NfsVersion::V3 => sys::NFS_V3,
            NfsVersion::V4 => sys::NFS_V4,
        }
    }
}

/// An operation of libnfs, with its arguments. A path ends with a zero byte.
#[derive(Debug)]
pub enum Operation {
    /// Ask for the attributes of a path.
    Stat { path: Vec<u8> },
    /// Open a file.
    Open { path: Vec<u8>, flags: i32 },
    /// Open a directory.
    OpenDir { path: Vec<u8> },
    /// Read the entries of an open directory and close it.
    List { dir: DirPtr },
    /// Read up to `count` bytes at `offset`.
    Pread { fh: FhPtr, offset: u64, count: u64 },
    /// Ask for the attributes of an open file.
    Fstat { fh: FhPtr },
    /// Close an open file.
    Close { fh: FhPtr },
}

/// An `Operation`, its paths taken as byte sequences.
pub enum OperationView {
    Stat { path: Seq<u8> },
    Open { path: Seq<u8>, flags: i32 },
    OpenDir { path: Seq<u8> },
    List { dir: DirPtr },
    Pread { fh: FhPtr, offset: u64, count: u64 },
    Fstat { fh: FhPtr },
    Close { fh: FhPtr },
}

impl View for Operation {
    type V = OperationView;

    open spec fn view(&self) -> OperationView {
        match self {
            Operation::Stat { path } => OperationView::Stat { path: path@ },
            Operation::Open { path, flags } => OperationView::Open { path: path@, flags: *flags },
            Operation::OpenDir { path } => OperationView::OpenDir { path: path@ },
            Operation::List { dir } => OperationView::List { dir: *dir },
            Operation::Pread { fh, offset, count } => OperationView::Pread {
                fh: *fh,
                offset: *offset,
                count: *count,
            },
            Operation::Fstat { fh } => OperationView::Fstat { fh: *fh },
            Operation::Close { fh } => OperationView::Close { fh: *fh },
        }
    }
}

/// Whether `r` is the operation that `make` makes of a path, or the refusal of a
/// path that holds a zero byte.
pub open spec fn on_path(
    r: Result<Operation, Error>,
    path: Seq<char>,
    make: spec_fn(Seq<u8>) -> OperationView,
) -> bool {
    match (r, error::c_argument_spec(path)) {
        (Ok(op), Ok(bytes)) => op@ == make(bytes),
        (Err(e), Err(refusal)) => e@ == refusal,
        _ => false,
    }
}

// ── The client ──────────────────────────────────────────────────────────────

/// What a client and its open files share: the context, and the event loop that
/// alone uses it.
#[verifier::reject_recursive_types(C)]
pub struct NfsInner<C, T> {
    pub ctx: nfs_context,
    pub event_loop: EventLoop<C, T>,
}

/// A client connected to one export of one server.
#[verifier::reject_recursive_types(C)]
pub struct NfsClient<C, T> {
    pub inner: Arc<NfsInner<C, T>>,
}

/// What a question for attributes comes to.
pub open spec fn stat_result(answer: Option<Result<nfs_stat_64, (i32, String)>>) -> Result<
    FileStat,
    Error,
> {
    match bridge::received(answer) {
        Ok(st) => Ok(stat::file_stat(st)),
        Err(e) => Err(e),
    }
}

/// The attributes, once the question for them was answered.
pub fn stat_answered(answer: Option<Result<nfs_stat_64, (i32, String)>>) -> (r: Result<
    FileStat,
    Error,
>)
    ensures
        r == stat_result(answer),
        answer matches Some(Ok(st)) ==> {
            &&& r matches Ok(a)
            &&& a.dev == st.nfs_dev
            &&& a.ino == st.nfs_ino
            &&& a.mode == st.nfs_mode
            &&& a.nlink == st.nfs_nlink
            &&& a.uid == st.nfs_uid
            &&& a.gid == st.nfs_gid
            &&& a.rdev == st.nfs_rdev
            &&& a.size == st.nfs_size
            &&& a.blksize == st.nfs_blksize
            &&& a.blocks == st.nfs_blocks
            &&& a.atime == st.nfs_atime
            &&& a.atime_nsec == st.nfs_atime_nsec
            &&& a.mtime == st.nfs_mtime
            &&& a.mtime_nsec == st.nfs_mtime_nsec
            &&& a.ctime == st.nfs_ctime
            &&& a.ctime_nsec == st.nfs_ctime_nsec
            &&& a.used == st.nfs_used
        },
        answer matches Some(Err((code, message))) ==> r == Err::<FileStat, Error>(
            Error::Nfs { code, message },
        ),
        answer is None ==> r == Err::<FileStat, Error>(Error::Cancelled),
{
    match receive(answer) {
        Ok(st) => Ok(FileStat::from(&st)),
        Err(e) => Err(e),
    }
}

impl<C, T> NfsClient<C, T> {
    /// Begins to mount an export of a server.
    pub fn mount(server: &str, export: &str, version: NfsVersion) -> (r: Mount<C, T>)
        ensures
            r@ == (MountView {
                server: server@,
                export: export@,
                version,
                ids: None,
                stage: MountStageView::<C, T>::Context,
            }),
            r.server@ == server@,
            r.export@ == export@,
            r.version == version,
            r.ids == None::<(u32, u32)>,
            r.stage is Context,
    {
        Mount {
            server: server.to_owned(),
            export: export.to_owned(),
            version,
            ids: None,
            stage: MountStage::Context,
        }
    }

    /// Begins to mount an export of a server for the given user and group.
    pub fn mount_as(
        server: &str,
        export: &str,
        version: NfsVersion,
        uid: u32,
        gid: u32,
    ) -> (r: Mount<C, T>)
        ensures
            r@ == (MountView {
                server: server@,
                export: export@,
                version,
                ids: Some((uid, gid)),
                stage: MountStageView::<C, T>::Context,
            }),
            r.server@ == server@,
            r.export@ == export@,
            r.version == version,
            r.ids == Some((uid, gid)),
            r.stage is Context,
    {
        Mount {
            server: server.to_owned(),
            export: export.to_owned(),
            version,
            ids: Some((uid, gid)),
            stage: MountStage::Context,
        }
    }

    /// Submits a command to the event loop, which alone uses the context, and
    /// gives the record of it.
    pub fn submit(&self, cmd: C) -> (r: (Result<LoopEffect, Error>, Queueing<C>))
        ensures
            crate::event_loop::submits(self.inner.event_loop, cmd, r),
            r.1.queue() == self.inner.event_loop.cmd_tx,
            r.1.command() == cmd,
            r.1.unsent() is None ==> r.0 == Ok::<LoopEffect, Error>(
                LoopEffect::Write { fd: self.inner.event_loop.wake_w, byte: 1 },
            ),
            r.1.unsent() is Some ==> r.0 == Err::<LoopEffect, Error>(Error::Cancelled),
    {
        self.inner.event_loop.submit(cmd)
    }

    /// Asks for the attributes of a path.
    pub fn stat(&self, path: &str) -> (r: Result<Operation, Error>)
        ensures
            on_path(r, path@, |path: Seq<u8>| OperationView::Stat { path }),
            !path@.contains('\0') ==> (r matches Ok(Operation::Stat { path: bytes }) && bytes@ == encode_utf8(
                path@,
            ).push(0)),
            path@.contains('\0') ==> (r matches Err(Error::InvalidString(e))
                && e.bytes@ == encode_utf8(path@) && e.position < e.bytes@.len()
                    && e.bytes@[e.position as int] == 0 && (forall|i: int|
                    0 <= i < e.position ==> e.bytes@[i] != 0)),
    {
        match c_argument(path) {
            Ok(path) => Ok(Operation::Stat { path }),
            Err(e) => Err(e),
        }
    }

    /// Opens a file for reading.
    pub fn open(&self, path: &str) -> (r: Result<Operation, Error>)
        ensures
            on_path(r, path@, |path: Seq<u8>| OperationView::Open { path, flags: sys::O_RDONLY }),
            !path@.contains('\0') ==> (r matches Ok(Operation::Open { path: bytes, flags }) && bytes@ == encode_utf8(
                path@,
            ).push(0) && flags == 0),
            path@.contains('\0') ==> (r matches Err(Error::InvalidString(e))
                && e.bytes@ == encode_utf8(path@) && e.position < e.bytes@.len()
                    && e.bytes@[e.position as int] == 0 && (forall|i: int|
                    0 <= i < e.position ==> e.bytes@[i] != 0)),
    {
        match c_argument(path) {
            Ok(path) => Ok(Operation::Open { path, flags: sys::O_RDONLY }),
            Err(e) => Err(e),
        }
    }

    /// The open file, once the opening was answered.
    pub fn open_answered(&self, answer: Option<Result<FhPtr, (i32, String)>>) -> (r: Result<
        NfsFile<C, T>,
        Error,
    >)
        ensures
            r == match bridge::received(answer) {
                Ok(fh) => Ok::<NfsFile<C, T>, Error>(NfsFile { client: self.inner, fh }),
                Err(e) => Err::<NfsFile<C, T>, Error>(e),
            },
            answer matches Some(Ok(fh)) ==> (r matches Ok(file) && file.fh == fh && file.client
                == self.inner),
            answer matches Some(Err((code, message))) ==> r == Err::<NfsFile<C, T>, Error>(
                Error::Nfs { code, message },
            ),
            answer is None ==> r == Err::<NfsFile<C, T>, Error>(Error::Cancelled),
    {
        match receive(answer) {
            Ok(fh) => Ok(NfsFile { client: self.inner.clone(), fh }),
            Err(e) => Err(e),
        }
    }

    /// Begins to list the entries of a directory, names and kinds.
    pub fn readdir_entries(&self, path: &str) -> (r: Readdir)
        ensures
            r@ == readdir::readdir_start(path@),
            !path@.contains('\0') ==> (r matches Readdir::Opening { path: bytes } && bytes@ == encode_utf8(
                path@,
            ).push(0)),
            path@.contains('\0') ==> (r matches Readdir::Failed(Error::InvalidString(e))
                && e.bytes@ == encode_utf8(path@) && e.position < e.bytes@.len()
                    && e.bytes@[e.position as int] == 0 && (forall|i: int|
                    0 <= i < e.position ==> e.bytes@[i] != 0)),
    {
        Readdir::new(path)
    }

    /// Begins to list the names in a directory.
    pub fn readdir(&self, path: &str) -> (r: Readdir)
        ensures
            r@ == readdir::readdir_start(path@),
            !path@.contains('\0') ==> (r matches Readdir::Opening { path: bytes } && bytes@ == encode_utf8(
                path@,
            ).push(0)),
            path@.contains('\0') ==> (r matches Readdir::Failed(Error::InvalidString(e))
                && e.bytes@ == encode_utf8(path@) && e.position < e.bytes@.len()
                    && e.bytes@[e.position as int] == 0 && (forall|i: int|
                    0 <= i < e.position ==> e.bytes@[i] != 0)),
    {
        self.readdir_entries(path)
    }

    /// The names, once the entries were listed or could not be.
    pub fn readdir_answered(&self, entries: Result<Vec<DirEntry>, Error>) -> (r: Result<
        Vec<String>,
        Error,
    >)
        ensures
            match (entries, r) {
                (Ok(entries), Ok(names)) => {
                    &&& names@.len() == entries@.len()
                    &&& forall|i: int|
                        0 <= i < names@.len() ==> (#[trigger] names@[i])@ == entries@[i].name@
                },
                (Err(failure), Err(e)) => e == failure,
                _ => false,
            },
    {
        match entries {
            Ok(entries) => Ok(entry_names(entries)),
            Err(e) => Err(e),
        }
    }

    /// Begins a walk of all paths below `root`.
    pub fn walk(&self, root: &str) -> (r: Walk)
        ensures
            r.wf(),
            r@ == walk::walk_start(root@),
    {
        Walk::new(root)
    }
}

// ── Mounting ────────────────────────────────────────────────────────────────

/// How many seconds a mount may take.
pub const MOUNT_TIMEOUT_SECS: u64 = 30;

/// How far an export is mounted.
#[verifier::reject_recursive_types(C)]
pub enum MountStage<C, T> {
    /// A context is wanted.
    Context,
    /// The context is to be configured.
    Configuring { ctx: nfs_context },
    /// The mount is to be started.
    Submitting { ctx: nfs_context, server: Vec<u8>, export: Vec<u8> },
    /// The context, which would not start it, is to be destroyed.
    Refused { ctx: nfs_context, error: Error },
    /// The event loop is to be started.
    Starting { ctx: nfs_context },
    /// The mount's callback is waited for.
    Waiting { ctx: nfs_context, event_loop: EventLoop<C, T> },
    /// The event loop, which is no longer needed, is to be given up.
    Abandoned { effect: LoopEffect, error: Error },
    /// The export is mounted.
    Mounted(NfsInner<C, T>),
    /// It could not be mounted.
    Failed(Error),
}

/// `MountStage`, strings and errors taken as text.
#[verifier::reject_recursive_types(C)]
pub enum MountStageView<C, T> {
    Context,
    Configuring { ctx: nfs_context },
    Submitting { ctx: nfs_context, server: Seq<u8>, export: Seq<u8> },
    Refused { ctx: nfs_context, error: ErrorView },
    Starting { ctx: nfs_context },
    Waiting { ctx: nfs_context, event_loop: EventLoop<C, T> },
    Abandoned { effect: LoopEffect, error: ErrorView },
    Mounted(NfsInner<C, T>),
    Failed(ErrorView),
}

impl<C, T> View for MountStage<C, T> {
    type V = MountStageView<C, T>;

    open spec fn view(&self) -> MountStageView<C, T> {
        match *self {
            MountStage::Context => MountStageView::Context,
            MountStage::Configuring { ctx } => MountStageView::Configuring { ctx },
            MountStage::Submitting { ctx, server, export } => MountStageView::Submitting {
                ctx,
                server: server@,
                export: export@,
            },
            MountStage::Refused { ctx, error } => MountStageView::Refused { ctx, error: error@ },
            MountStage::Starting { ctx } => MountStageView::Starting { ctx },
            MountStage::Waiting { ctx, event_loop } => MountStageView::Waiting { ctx, event_loop },
            MountStage::Abandoned { effect, error } => MountStageView::Abandoned {
                effect,
                error: error@,
            },
            MountStage::Mounted(inner) => MountStageView::Mounted(inner),
            MountStage::Failed(e) => MountStageView::Failed(e@),
        }
    }
}

/// An export that is being mounted.
#[verifier::reject_recursive_types(C)]
pub struct Mount<C, T> {
    pub server: String,
    pub export: String,
    pub version: NfsVersion,
    /// The user and the group to act for, where they are given.
    pub ids: Option<(u32, u32)>,
    pub stage: MountStage<C, T>,
}

/// A `Mount`, its strings taken as text.
#[verifier::reject_recursive_types(C)]
pub struct MountView<C, T> {
    pub server: Seq<char>,
    pub export: Seq<char>,
    pub version: NfsVersion,
    pub ids: Option<(u32, u32)>,
    pub stage: MountStageView<C, T>,
}

impl<C, T> View for Mount<C, T> {
    type V = MountView<C, T>;

    open spec fn view(&self) -> MountView<C, T> {
        MountView {
            server: self.server@,
            export: self.export@,
            version: self.version,
            ids: self.ids,
            stage: self.stage@,
        }
    }
}

/// What is to be done to mount an export.
#[derive(Debug)]
pub enum MountRequest {
    /// Make a context.
    InitContext,
    /// Set the version of the context, and its user and group where they are
    /// given.
    Configure { ctx: nfs_context, version: i32, ids: Option<(i32, i32)> },
    /// Start the mount.
    MountAsync { ctx: nfs_context, server: Vec<u8>, export: Vec<u8> },
    /// Destroy the context.
    DestroyContext { ctx: nfs_context },
    /// Start the event loop.
    StartLoop { ctx: nfs_context },
    /// Wait for the callback, for so many seconds.
    Await { seconds: u64 },
    /// Do that to the event loop.
    Apply(LoopEffect),
    /// Nothing.
    Finish,
}

/// A `MountRequest`, its strings taken as byte sequences.
pub enum MountRequestView {
    InitContext,
    Configure { ctx: nfs_context, version: i32, ids: Option<(i32, i32)> },
    MountAsync { ctx: nfs_context, server: Seq<u8>, export: Seq<u8> },
    DestroyContext { ctx: nfs_context },
    StartLoop { ctx: nfs_context },
    Await { seconds: u64 },
    Apply(LoopEffect),
    Finish,
}

impl View for MountRequest {
    type V = MountRequestView;

    open spec fn view(&self) -> MountRequestView {
        match *self {
            MountRequest::InitContext => MountRequestView::InitContext,
            MountRequest::Configure { ctx, version, ids } => MountRequestView::Configure {
                ctx,
                version,
                ids,
            },
            MountRequest::MountAsync { ctx, server, export } => MountRequestView::MountAsync {
                ctx,
                server: server@,
                export: export@,
            },
            MountRequest::DestroyContext { ctx } => MountRequestView::DestroyContext { ctx },
            MountRequest::StartLoop { ctx } => MountRequestView::StartLoop { ctx },
            MountRequest::Await { seconds } => MountRequestView::Await { seconds },
            MountRequest::Apply(effect) => MountRequestView::Apply(effect),
            MountRequest::Finish => MountRequestView::Finish,
        }
    }
}

/// How the wait for the callback of a mount ended.
#[derive(Debug)]
pub enum Wait {
    /// The time was up.
    TimedOut,
    /// The place that the answer goes to was given up.
    Dropped,
    /// The callback answered.
    Answered(Result<(), (i32, String)>),
}

/// What came of a step of a mount.
#[verifier::reject_recursive_types(C)]
pub enum MountAnswer<C, T> {
    Context(nfs_context),
    Configured,
    /// What libnfs returned, and the bytes of the context's error.
    Submitted { rc: i32, message: Option<Vec<u8>> },
    Destroyed,
    Started(Result<EventLoop<C, T>, Error>),
    Waited(Wait),
    Applied,
}

/// An identifier as C takes it: the same bits, as a signed number.
pub open spec fn c_int(id: u32) -> i32 {
    if id < 0x8000_0000 {
        id as i32
    } else {
        (id - 0x1_0000_0000) as i32
    }
}

/// Whether the two numbers have the same thirty-two bits.
pub open spec fn same_bits(id: u32, n: i32) -> bool {
    n == id || n == id - 0x1_0000_0000
}

fn to_c_int(id: u32) -> (r: i32)
    ensures
        r == c_int(id),
{
    if id < 0x8000_0000 {
        id as i32
    } else {
        (id as i64 - 0x1_0000_0000) as i32
    }
}

/// What is to be done next to mount an export.
pub open spec fn mount_request<C, T>(m: MountView<C, T>) -> MountRequestView {
    match m.stage {
        MountStageView::Context => MountRequestView::InitContext,
        MountStageView::Configuring { ctx } => MountRequestView::Configure {
            ctx,
            version: match m.version {
                NfsVersion::V3 => sys::NFS_V3,
                NfsVersion::V4 => sys::NFS_V4,
            },
            ids: match m.ids {
                Some((uid, gid)) => Some((c_int(uid), c_int(gid))),
                None => None,
            },
        },
        MountStageView::Submitting { ctx, server, export } => MountRequestView::MountAsync {
            ctx,
            server,
            export,
        },
        MountStageView::Refused { ctx, error } => MountRequestView::DestroyContext { ctx },
        MountStageView::Starting { ctx } => MountRequestView::StartLoop { ctx },
        MountStageView::Waiting { ctx, event_loop } => MountRequestView::Await {
            seconds: MOUNT_TIMEOUT_SECS,
        },
        MountStageView::Abandoned { effect, error } => MountRequestView::Apply(effect),
        MountStageView::Mounted(_) => MountRequestView::Finish,
        MountStageView::Failed(_) => MountRequestView::Finish,
    }
}

/// What the wait for the callback comes to.
pub open spec fn wait_error(wait: Wait) -> Option<ErrorView> {
    match wait {
        Wait::TimedOut => Some(ErrorView::Timeout(MOUNT_TIMEOUT_SECS as nat)),
        Wait::Dropped => Some(ErrorView::Cancelled),
        Wait::Answered(Err((code, message))) => Some(
            ErrorView::Nfs { code: code as int, message: message@ },
        ),
        Wait::Answered(Ok(())) => None,
    }
}

/// The bytes of an error, where there are any.
pub open spec fn owned_message_view(message: Option<Vec<u8>>) -> Option<Seq<u8>> {
    match message {
        Some(bytes) => Some(bytes@),
        None => None,
    }
}

/// A mount that fails once the event loop was started. The loop is given up: the
/// write end of its wake pipe is closed.
pub open spec fn abandon<C, T>(event_loop: EventLoop<C, T>, error: ErrorView) -> MountStageView<
    C,
    T,
> {
    if event_loop.wake_w >= 0 {
        MountStageView::Abandoned { effect: LoopEffect::Close { fd: event_loop.wake_w }, error }
    } else {
        MountStageView::Failed(error)
    }
}

/// How far the export is mounted once a request was answered. An answer to
/// something else changes nothing.
pub open spec fn mount_answer<C, T>(
    m: MountView<C, T>,
    answer: MountAnswer<C, T>,
) -> MountStageView<C, T> {
    match (m.stage, answer) {
        (MountStageView::Context, MountAnswer::Context(ctx)) => if ctx.addr == 0 {
            MountStageView::Failed(ErrorView::ContextCreation)
        } else {
            MountStageView::Configuring { ctx }
        },
        (MountStageView::Configuring { ctx }, MountAnswer::Configured) => match (
            error::c_argument_spec(m.server),
            error::c_argument_spec(m.export),
        ) {
            (Err(e), _) => MountStageView::Failed(e),
            (Ok(_), Err(e)) => MountStageView::Failed(e),
            (Ok(server), Ok(export)) => MountStageView::Submitting { ctx, server, export },
        },
        (
            MountStageView::Submitting { ctx, server, export },
            MountAnswer::Submitted { rc, message },
        ) => if rc != 0 {
            MountStageView::Refused {
                ctx,
                error: ErrorView::Submit(bridge::error_string(owned_message_view(message))),
            }
        } else {
            MountStageView::Starting { ctx }
        },
        (MountStageView::Refused { ctx, error }, MountAnswer::Destroyed) => MountStageView::Failed(
            error,
        ),
        (MountStageView::Starting { ctx }, MountAnswer::Started(Ok(event_loop))) =>
            MountStageView::Waiting { ctx, event_loop },
        (MountStageView::Starting { ctx }, MountAnswer::Started(Err(e))) => MountStageView::Failed(
            e@,
        ),
        (MountStageView::Waiting { ctx, event_loop }, MountAnswer::Waited(wait)) => match wait_error(
            wait,
        ) {
            Some(error) => abandon(event_loop, error),
            None => MountStageView::Mounted(NfsInner { ctx, event_loop }),
        },
        (MountStageView::Abandoned { effect, error }, MountAnswer::Applied) =>
            MountStageView::Failed(error),
        _ => m.stage,
    }
}

/// Whether the stage is that of a mount that failed with that error once the event
/// loop was started: the write end of the wake pipe is closed first, where it is
/// open.
pub open spec fn gives_up<C, T>(
    stage: MountStage<C, T>,
    event_loop: EventLoop<C, T>,
    error: Error,
) -> bool {
    if event_loop.wake_w >= 0 {
        stage == (MountStage::<C, T>::Abandoned {
            effect: LoopEffect::Close { fd: event_loop.wake_w },
            error,
        })
    } else {
        stage == MountStage::<C, T>::Failed(error)
    }
}

fn give_up<C, T>(event_loop: EventLoop<C, T>, error: Error) -> (r: MountStage<C, T>)
    ensures
        r@ == abandon(event_loop, error@),
        event_loop.wake_w >= 0 ==> r == (MountStage::<C, T>::Abandoned {
            effect: LoopEffect::Close { fd: event_loop.wake_w },
            error,
        }),
        event_loop.wake_w < 0 ==> r == MountStage::<C, T>::Failed(error),
{
    let mut event_loop = event_loop;
    match event_loop.release() {
        Some(effect) => MountStage::Abandoned { effect, error },
        None => MountStage::Failed(error),
    }
}

impl<C, T> Mount<C, T> {
    /// What is to be done next.
    pub fn request(&self) -> (r: MountRequest)
        ensures
            r@ == mount_request(self@),
            match self.stage {
                MountStage::Context => r is InitContext,
                MountStage::Configuring { ctx } => {
                    &&& r matches MountRequest::Configure { ctx: c, version, ids }
                    &&& c == ctx
                    &&& self.version is V3 ==> version == 3
                    &&& self.version is V4 ==> version == 4
                    &&& match (self.ids, ids) {
                        (Some((uid, gid)), Some((u, g))) => same_bits(uid, u) && same_bits(gid, g),
                        (None, None) => true,
                        _ => false,
                    }
                },
                MountStage::Submitting { ctx, server, export } => {
                    &&& r matches MountRequest::MountAsync { ctx: c, server: s, export: e }
                    &&& c == ctx
                    &&& s@ == server@
                    &&& e@ == export@
                },
                MountStage::Refused { ctx, .. } => r == (MountRequest::DestroyContext { ctx }),
                MountStage::Starting { ctx } => r == (MountRequest::StartLoop { ctx }),
                MountStage::Waiting { .. } => r == (MountRequest::Await { seconds: 30 }),
                MountStage::Abandoned { effect, .. } => r == MountRequest::Apply(effect),
                MountStage::Mounted(_) => r is Finish,
                MountStage::Failed(_) => r is Finish,
            },
    {
        match &self.stage {
            MountStage::Context => MountRequest::InitContext,
            MountStage::Configuring { ctx } => {
                let ids = match self.ids {
                    Some((uid, gid)) => Some((to_c_int(uid), to_c_int(gid))),
                    None => None,
                };
                MountRequest::Configure { ctx: *ctx, version: self.version.as_raw(), ids }
            },
            MountStage::Submitting { ctx, server, export } => {
                let server_c = server.clone();
                let export_c = export.clone();
                assert(server_c@ =~= server@);
                assert(export_c@ =~= export@);
                MountRequest::MountAsync { ctx: *ctx, server: server_c, export: export_c }
            },
            MountStage::Refused { ctx, .. } => MountRequest::DestroyContext { ctx: *ctx },
            MountStage::Starting { ctx } => MountRequest::StartLoop { ctx: *ctx },
            MountStage::Waiting { .. } => MountRequest::Await { seconds: MOUNT_TIMEOUT_SECS },
            MountStage::Abandoned { effect, .. } => MountRequest::Apply(*effect),
            MountStage::Mounted(_) => MountRequest::Finish,
            MountStage::Failed(_) => MountRequest::Finish,
        }
    }

    /// How far the export is mounted once the request was answered.
    pub fn answer(self, answer: MountAnswer<C, T>) -> (r: Mount<C, T>)
        ensures
            r@ == (MountView { stage: mount_answer(self@, answer), ..self@ }),
            r.server == self.server,
            r.export == self.export,
            r.version == self.version,
            r.ids == self.ids,
            match (self.stage, answer) {
                (MountStage::Context, MountAnswer::Context(ctx)) => if ctx.addr == 0 {
                    r.stage == MountStage::<C, T>::Failed(Error::ContextCreation)
                } else {
                    r.stage == (MountStage::<C, T>::Configuring { ctx })
                },
                (MountStage::Configuring { ctx }, MountAnswer::Configured) => if self.server@.contains(
                    '\0',
                ) {
                    r.stage matches MountStage::Failed(Error::InvalidString(e))
                        && e.bytes@ == encode_utf8(self.server@) && e.position < e.bytes@.len()
                    && e.bytes@[e.position as int] == 0 && (forall|i: int|
                    0 <= i < e.position ==> e.bytes@[i] != 0)
                } else if self.export@.contains('\0') {
                    r.stage matches MountStage::Failed(Error::InvalidString(e))
                        && e.bytes@ == encode_utf8(self.export@) && e.position < e.bytes@.len()
                    && e.bytes@[e.position as int] == 0 && (forall|i: int|
                    0 <= i < e.position ==> e.bytes@[i] != 0)
                } else {
                    &&& r.stage matches MountStage::Submitting { ctx: c, server, export }
                    &&& c == ctx
                    &&& server@ == encode_utf8(self.server@).push(0)
                    &&& export@ == encode_utf8(self.export@).push(0)
                },
                (MountStage::Submitting { ctx, .. }, MountAnswer::Submitted { rc, message }) => if rc
                    != 0 {
                    &&& r.stage matches MountStage::Refused { ctx: c, error: Error::Submit(text) }
                    &&& c == ctx
                    &&& message is None ==> text@ == "unknown error"@
                    &&& message is Some ==> text@ == crate::text::lossy_utf8(message->0@)
                } else {
                    r.stage == (MountStage::<C, T>::Starting { ctx })
                },
                (MountStage::Refused { error, .. }, MountAnswer::Destroyed) => r.stage
                    == MountStage::<C, T>::Failed(error),
                (MountStage::Starting { ctx }, MountAnswer::Started(Ok(event_loop))) => r.stage == (
                MountStage::Waiting { ctx, event_loop }),
                (MountStage::Starting { .. }, MountAnswer::Started(Err(e))) => r.stage
                    == MountStage::<C, T>::Failed(e),
                (MountStage::Waiting { ctx, event_loop }, MountAnswer::Waited(wait)) => match wait {
                    Wait::Answered(Ok(())) => r.stage == MountStage::Mounted(
                        NfsInner { ctx, event_loop },
                    ),
                    Wait::Answered(Err((code, message))) => gives_up(
                        r.stage,
                        event_loop,
                        Error::Nfs { code, message },
                    ),
                    Wait::TimedOut => gives_up(r.stage, event_loop, Error::Timeout(30)),
                    Wait::Dropped => gives_up(r.stage, event_loop, Error::Cancelled),
                },
                (MountStage::Abandoned { error, .. }, MountAnswer::Applied) => r.stage
                    == MountStage::<C, T>::Failed(error),
                _ => r.stage == self.stage,
            },
    {
        let Mount { server, export, version, ids, stage } = self;
        let stage = match (stage, answer) {
            (MountStage::Context, MountAnswer::Context(ctx)) => {
                if ctx.addr == 0 {
                    MountStage::Failed(Error::ContextCreation)
                } else {
                    MountStage::Configuring { ctx }
                }
            },
            (MountStage::Configuring { ctx }, MountAnswer::Configured) => {
                match c_argument(server.as_str()) {
                    Err(e) => MountStage::Failed(e),
                    Ok(server_c) => match c_argument(export.as_str()) {
                        Err(e) => MountStage::Failed(e),
                        Ok(export_c) => MountStage::Submitting {
                            ctx,
                            server: server_c,
                            export: export_c,
                        },
                    },
                }
            },
            (MountStage::Submitting { ctx, .. }, MountAnswer::Submitted { rc, message }) => {
                if rc != 0 {
                    let text = match &message {
                        Some(bytes) => bridge::get_error_string(Some(bytes.as_slice())),
                        None => bridge::get_error_string(None),
                    };
                    MountStage::Refused { ctx, error: Error::Submit(text) }
                } else {
                    MountStage::Starting { ctx }
                }
            },
            (MountStage::Refused { error, .. }, MountAnswer::Destroyed) => MountStage::Failed(
                error,
            ),
            (MountStage::Starting { ctx }, MountAnswer::Started(Ok(event_loop))) =>
                MountStage::Waiting { ctx, event_loop },
            (MountStage::Starting { .. }, MountAnswer::Started(Err(e))) => MountStage::Failed(e),
            (MountStage::Waiting { ctx, event_loop }, MountAnswer::Waited(wait)) => {
                match wait {
                    Wait::TimedOut => give_up(event_loop, Error::Timeout(MOUNT_TIMEOUT_SECS)),
                    Wait::Dropped => give_up(event_loop, Error::Cancelled),
                    Wait::Answered(result) => match error::bridge_err(result) {
                        Ok(()) => MountStage::Mounted(NfsInner { ctx, event_loop }),
                        Err(e) => give_up(event_loop, e),
                    },
                }
            },
            (MountStage::Abandoned { error, .. }, MountAnswer::Applied) => MountStage::Failed(
                error,
            ),
            (stage, _) => stage,
        };
        Mount { server, export, version, ids, stage }
    }

    /// The client, or why there is none; nothing as long as something is still
    /// to be done.
    pub fn finish(self) -> (r: Option<Result<NfsClient<C, T>, Error>>)
        ensures
            match self.stage {
                MountStage::Mounted(inner) => r matches Some(Ok(client)) && *client.inner == inner,
                MountStage::Failed(e) => r == Some(Err::<NfsClient<C, T>, Error>(e)),
                _ => r is None,
            },
    {
        match self.stage {
            MountStage::Mounted(inner) => Some(Ok(NfsClient { inner: Arc::new(inner) })),
            MountStage::Failed(e) => Some(Err(e)),
            _ => None,
        }
    }
}

/// The mount after the answers.
pub open spec fn mount_run<C, T>(
    m: MountView<C, T>,
    answers: Seq<MountAnswer<C, T>>,
) -> MountView<C, T>
    decreases answers.len(),
{
    if answers.len() == 0 {
        m
    } else {
        let before = mount_run(m, answers.drop_last());
        MountView { stage: mount_answer(before, answers.last()), ..before }
    }
}

/// What a mount comes to, given all that is answered in the course of it: the
/// first step that fails decides.
pub open spec fn mount_verdict<C, T>(
    server: Seq<char>,
    export: Seq<char>,
    ctx: nfs_context,
    rc: i32,
    message: Option<Vec<u8>>,
    started: Result<EventLoop<C, T>, Error>,
    wait: Wait,
) -> Result<NfsInner<C, T>, ErrorView> {
    if ctx.addr == 0 {
        Err(ErrorView::ContextCreation)
    } else if error::c_argument_spec(server) is Err {
        Err(error::c_argument_spec(server)->Err_0)
    } else if error::c_argument_spec(export) is Err {
        Err(error::c_argument_spec(export)->Err_0)
    } else if rc != 0 {
        Err(ErrorView::Submit(bridge::error_string(owned_message_view(message))))
    } else {
        match (started, wait_error(wait)) {
            (Err(e), _) => Err(e@),
            (Ok(event_loop), Some(e)) => Err(e),
            (Ok(event_loop), None) => Ok(NfsInner { ctx, event_loop }),
        }
    }
}

/// A mount succeeds exactly where every step of it does, and otherwise fails
/// with the error of the first step that failed. It asks that the context be
/// destroyed exactly where libnfs would not start the mount.
pub proof fn law_mount_outcome<C, T>(
    server: Seq<char>,
    export: Seq<char>,
    version: NfsVersion,
    ids: Option<(u32, u32)>,
    ctx: nfs_context,
    rc: i32,
    message: Option<Vec<u8>>,
    started: Result<EventLoop<C, T>, Error>,
    wait: Wait,
)
    ensures
        ({
            let start = MountView {
                server,
                export,
                version,
                ids,
                stage: MountStageView::<C, T>::Context,
            };
            let submitted = seq![
                MountAnswer::<C, T>::Context(ctx),
                MountAnswer::Configured,
                MountAnswer::Submitted { rc, message },
            ];
            let all = submitted + seq![
                MountAnswer::Destroyed,
                MountAnswer::Started(started),
                MountAnswer::Waited(wait),
                MountAnswer::Applied,
            ];
            &&& mount_run(start, all).stage == match mount_verdict(
                server,
                export,
                ctx,
                rc,
                message,
                started,
                wait,
            ) {
                Ok(inner) => MountStageView::Mounted(inner),
                Err(e) => MountStageView::Failed(e),
            }
            &&& mount_request(mount_run(start, submitted)) is DestroyContext <==> {
                &&& ctx.addr != 0
                &&& error::c_argument_spec(server) is Ok
                &&& error::c_argument_spec(export) is Ok
                &&& rc != 0
            }
        }),
{
    let m0 = MountView {
        server,
        export,
        version,
        ids,
        stage: MountStageView::<C, T>::Context,
    };
    let none: Seq<MountAnswer<C, T>> = seq![];
    let s1 = none.push(MountAnswer::Context(ctx));
    let s2 = s1.push(MountAnswer::Configured);
    let s3 = s2.push(MountAnswer::Submitted { rc, message });
    let s4 = s3.push(MountAnswer::Destroyed);
    let s5 = s4.push(MountAnswer::Started(started));
    let s6 = s5.push(MountAnswer::Waited(wait));
    let s7 = s6.push(MountAnswer::Applied);
    assert(s1.drop_last() =~= none);
    assert(s2.drop_last() =~= s1);
    assert(s3.drop_last() =~= s2);
    assert(s4.drop_last() =~= s3);
    assert(s5.drop_last() =~= s4);
    assert(s6.drop_last() =~= s5);
    assert(s7.drop_last() =~= s6);
    let submitted = seq![
        MountAnswer::<C, T>::Context(ctx),
        MountAnswer::Configured,
        MountAnswer::Submitted { rc, message },
    ];
    assert(submitted =~= s3);
    assert(submitted + seq![
        MountAnswer::Destroyed,
        MountAnswer::Started(started),
        MountAnswer::Waited(wait),
        MountAnswer::Applied,
    ] =~= s7);
    assert(mount_run(m0, none) == m0);
    let m1 = mount_run(m0, s1);
    let m2 = mount_run(m0, s2);
    let m3 = mount_run(m0, s3);
    let m4 = mount_run(m0, s4);
    let m5 = mount_run(m0, s5);
    let m6 = mount_run(m0, s6);
    assert(m1.stage == mount_answer(m0, MountAnswer::Context(ctx)));
    assert(m2.stage == mount_answer(m1, MountAnswer::Configured));
    assert(m3.stage == mount_answer(m2, MountAnswer::Submitted { rc, message }));
    assert(m4.stage == mount_answer(m3, MountAnswer::Destroyed));
    assert(m5.stage == mount_answer(m4, MountAnswer::Started(started)));
    assert(m6.stage == mount_answer(m5, MountAnswer::Waited(wait)));
}

/// In every mount the context is configured as the caller asked, whatever the other
/// arguments: with the number of the version, three or four, and with the very
/// identifiers of the user and the group, where they are given and only there.
pub proof fn law_mount_configures_as_asked<C, T>(
    server: Seq<char>,
    export: Seq<char>,
    version: NfsVersion,
    ids: Option<(u32, u32)>,
    ctx: nfs_context,
)
    requires
        ctx.addr != 0,
    ensures
        ({
            let start = MountView {
                server,
                export,
                version,
                ids,
                stage: MountStageView::<C, T>::Context,
            };
            let m = mount_run(start, seq![MountAnswer::<C, T>::Context(ctx)]);
            &&& mount_request(start) == MountRequestView::InitContext
            &&& mount_request(m) matches MountRequestView::Configure { ctx: c, version: n, ids: given }
            &&& c == ctx
            &&& version == NfsVersion::V3 ==> n == 3
            &&& version == NfsVersion::V4 ==> n == 4
            &&& match (ids, given) {
                (Some((uid, gid)), Some((u, g))) => {
                    &&& u == uid || u == uid - 0x1_0000_0000
                    &&& g == gid || g == gid - 0x1_0000_0000
                },
                (None, None) => true,
                _ => false,
            }
        }),
{
    let start = MountView {
        server,
        export,
        version,
        ids,
        stage: MountStageView::<C, T>::Context,
    };
    let one = seq![MountAnswer::<C, T>::Context(ctx)];
    assert(one.drop_last() =~= seq![]);
    assert(mount_run(start, one.drop_last()) == start);
}

/// What a mount that succeeds asks for, one thing after the other: a context, that
/// it be configured, that libnfs mount the very export of the very server that
/// were given, that the event loop be started, and the callback, for thirty
/// seconds. The client has this context and this loop.
pub proof fn law_mount_requests<C, T>(
    server: Seq<char>,
    export: Seq<char>,
    version: NfsVersion,
    ids: Option<(u32, u32)>,
    ctx: nfs_context,
    message: Option<Vec<u8>>,
    event_loop: EventLoop<C, T>,
)
    requires
        ctx.addr != 0,
        !server.contains('\0'),
        !export.contains('\0'),
    ensures
        ({
            let m0 = MountView {
                server,
                export,
                version,
                ids,
                stage: MountStageView::<C, T>::Context,
            };
            let m1 = MountView { stage: mount_answer(m0, MountAnswer::Context(ctx)), ..m0 };
            let m2 = MountView { stage: mount_answer(m1, MountAnswer::Configured), ..m0 };
            let m3 = MountView {
                stage: mount_answer(m2, MountAnswer::Submitted { rc: 0, message }),
                ..m0
            };
            let m4 = MountView { stage: mount_answer(m3, MountAnswer::Started(Ok(event_loop))), ..m0 };
            let m5 = MountView {
                stage: mount_answer(m4, MountAnswer::Waited(Wait::Answered(Ok(())))),
                ..m0
            };
            &&& mount_request(m0) == MountRequestView::InitContext
            &&& mount_request(m1) is Configure
            &&& mount_request(m2) == (MountRequestView::MountAsync {
                ctx,
                server: encode_utf8(server).push(0),
                export: encode_utf8(export).push(0),
            })
            &&& mount_request(m3) == (MountRequestView::StartLoop { ctx })
            &&& mount_request(m4) == (MountRequestView::Await { seconds: 30 })
            &&& mount_request(m5) == MountRequestView::Finish
            &&& m5.stage == MountStageView::Mounted(NfsInner { ctx, event_loop })
        }),
{
    error::law_string_arguments(server);
    error::law_string_arguments(export);
}

/// What a mount that fails comes to. No context is the first failure. A string
/// that holds the character NUL is refused, that of the server before that of the
/// export. Where libnfs would not start the mount, its context is destroyed and
/// its error is the reason. A loop that did not start gives its own error. No
/// callback in time, none at all, and one that failed are told apart, and each
/// closes the write end of the wake pipe.
pub proof fn law_mount_failures<C, T>(
    m: MountView<C, T>,
    ctx: nfs_context,
    rc: i32,
    bytes: Vec<u8>,
    event_loop: EventLoop<C, T>,
    e: Error,
    code: i32,
    message: String,
)
    requires
        rc != 0,
        event_loop.wake_w >= 0,
    ensures
        ({
            let at = |stage: MountStageView<C, T>| MountView { stage, ..m };
            let submitting = at(
                MountStageView::Submitting { ctx, server: seq![], export: seq![] },
            );
            let waiting = at(MountStageView::Waiting { ctx, event_loop });
            let closing = |error: ErrorView|
                MountStageView::<C, T>::Abandoned {
                    effect: LoopEffect::Close { fd: event_loop.wake_w },
                    error,
                };
            let late = mount_answer(waiting, MountAnswer::Waited(Wait::TimedOut));
            let dropped = mount_answer(waiting, MountAnswer::Waited(Wait::Dropped));
            let failed = mount_answer(
                waiting,
                MountAnswer::Waited(Wait::Answered(Err((code, message)))),
            );
            let said = mount_answer(
                submitting,
                MountAnswer::Submitted { rc, message: Some(bytes) },
            );
            let silent = mount_answer(submitting, MountAnswer::Submitted { rc, message: None });
            &&& mount_answer(
                at(MountStageView::Context),
                MountAnswer::Context(nfs_context { addr: 0 }),
            ) == MountStageView::<C, T>::Failed(ErrorView::ContextCreation)
            &&& m.server.contains('\0') ==> (mount_answer(
                at(MountStageView::Configuring { ctx }),
                MountAnswer::Configured,
            ) matches MountStageView::Failed(ErrorView::InvalidString { bytes: b, .. }) && b
                == encode_utf8(m.server))
            &&& !m.server.contains('\0') && m.export.contains('\0') ==> (mount_answer(
                at(MountStageView::Configuring { ctx }),
                MountAnswer::Configured,
            ) matches MountStageView::Failed(ErrorView::InvalidString { bytes: b, .. }) && b
                == encode_utf8(m.export))
            &&& said == (MountStageView::<C, T>::Refused {
                ctx,
                error: ErrorView::Submit(crate::text::lossy_utf8(bytes@)),
            })
            &&& silent == (MountStageView::<C, T>::Refused {
                ctx,
                error: ErrorView::Submit("unknown error"@),
            })
            &&& mount_request(at(said)) == (MountRequestView::DestroyContext { ctx })
            &&& mount_answer(at(said), MountAnswer::Destroyed) == MountStageView::<C, T>::Failed(
                ErrorView::Submit(crate::text::lossy_utf8(bytes@)),
            )
            &&& mount_answer(
                at(MountStageView::Starting { ctx }),
                MountAnswer::Started(Err(e)),
            ) == MountStageView::<C, T>::Failed(e@)
            &&& late == closing(ErrorView::Timeout(30))
            &&& dropped == closing(ErrorView::Cancelled)
            &&& failed == closing(ErrorView::Nfs { code: code as int, message: message@ })
            &&& mount_request(at(late)) == MountRequestView::Apply(
                LoopEffect::Close { fd: event_loop.wake_w },
            )
            &&& mount_answer(at(late), MountAnswer::Applied) == MountStageView::<C, T>::Failed(
                ErrorView::Timeout(30),
            )
            &&& mount_answer(at(failed), MountAnswer::Applied) == MountStageView::<C, T>::Failed(
                ErrorView::Nfs { code: code as int, message: message@ },
            )
        }),
{
    error::law_string_arguments(m.server);
    error::law_string_arguments(m.export);
}

/// An operation on a path hands libnfs the encoding of exactly this path and a
/// final zero byte, so that different paths are told apart; one that holds the
/// character NUL makes no operation.
pub proof fn law_operations_keep_their_path(
    r: Result<Operation, Error>,
    path: Seq<char>,
    make: spec_fn(Seq<u8>) -> OperationView,
)
    requires
        on_path(r, path, make),
    ensures
        r is Ok <==> !path.contains('\0'),
        r matches Ok(op) ==> op@ == make(encode_utf8(path).push(0)),
        r matches Err(e) ==> (e matches Error::InvalidString(n) && n.bytes@ == encode_utf8(path)),
{
    error::law_string_arguments(path);
}

/// The attributes that someone gets who asked are the reported ones, each under
/// its own name.
pub proof fn law_stat_gives_the_reported_attributes(st: nfs_stat_64, code: i32, message: String)
    ensures
        stat_result(Some(Ok(st))) matches Ok(a) && {
            &&& a.dev == st.nfs_dev
            &&& a.ino == st.nfs_ino
            &&& a.mode == st.nfs_mode
            &&& a.nlink == st.nfs_nlink
            &&& a.uid == st.nfs_uid
            &&& a.gid == st.nfs_gid
            &&& a.rdev == st.nfs_rdev
            &&& a.size == st.nfs_size
            &&& a.blksize == st.nfs_blksize
            &&& a.blocks == st.nfs_blocks
            &&& a.atime == st.nfs_atime
            &&& a.atime_nsec == st.nfs_atime_nsec
            &&& a.mtime == st.nfs_mtime
            &&& a.mtime_nsec == st.nfs_mtime_nsec
            &&& a.ctime == st.nfs_ctime
            &&& a.ctime_nsec == st.nfs_ctime_nsec
            &&& a.used == st.nfs_used
        },
        stat_result(Some(Err((code, message)))) == Err::<FileStat, Error>(
            Error::Nfs { code, message },
        ),
        stat_result(None) == Err::<FileStat, Error>(Error::Cancelled),
{
}

/// The numbers that libnfs knows the versions of the protocol by, and the flag of
/// a file that is opened for reading only.
pub proof fn law_numbers_of_libnfs()
    ensures
        sys::NFS_V3 == 3,
        sys::NFS_V4 == 4,
        sys::O_RDONLY == 0,
        sys::DT_DIR == 2,
        MOUNT_TIMEOUT_SECS == 30,
        walk::WALK_BUFFER == 64,
{
}

// ── Unmounting ──────────────────────────────────────────────────────────────

/// A step of the end of a client, whose thread has a handle of type `T`.
#[derive(Debug)]
pub enum TeardownStep<T> {
    /// Do that to the event loop.
    Apply(LoopEffect),
    /// Wait for the thread to end.
    Join(T),
    /// Pause for so many milliseconds.
    Pause { millis: u64 },
    /// Destroy the context.
    DestroyContext(nfs_context),
}

/// The steps by which a client ends: the event loop is told to stop, its thread
/// is waited for, and only after that the context goes away, and with it what
/// is left of the loop.
pub open spec fn teardown_steps<C, T>(inner: NfsInner<C, T>) -> Seq<TeardownStep<T>> {
    let stopped = seq![
        TeardownStep::Apply(LoopEffect::RaiseStop),
        TeardownStep::Apply(crate::event_loop::wake_effect(inner.event_loop.wake_w)),
    ];
    let joined = match inner.event_loop.thread {
        Some(thread) => seq![TeardownStep::Join(thread)],
        None => seq![],
    };
    let paused = seq![TeardownStep::Pause { millis: 1 }];
    let destroyed = if inner.ctx.addr != 0 {
        seq![TeardownStep::DestroyContext(inner.ctx)]
    } else {
        seq![]
    };
    let closed = if inner.event_loop.wake_w >= 0 {
        seq![TeardownStep::Apply(LoopEffect::Close { fd: inner.event_loop.wake_w })]
    } else {
        seq![]
    };
    stopped + joined + paused + destroyed + closed
}

impl<C, T> NfsInner<C, T> {
    /// The steps by which the client ends. The context, the thread and the pipe
    /// are given up with them.
    pub fn teardown(&mut self) -> (r: Vec<TeardownStep<T>>)
        ensures
            r@ == teardown_steps(*old(self)),
            r@[0] == TeardownStep::<T>::Apply(LoopEffect::RaiseStop),
            r@[1] == TeardownStep::<T>::Apply(
                LoopEffect::Write { fd: old(self).event_loop.wake_w, byte: 1 },
            ),
            old(self).event_loop.thread matches Some(thread) ==> r@[2] == TeardownStep::Join(thread),
            old(self).ctx.addr != 0 ==> r@.contains(
                TeardownStep::<T>::DestroyContext(old(self).ctx),
            ),
            old(self).event_loop.wake_w >= 0 ==> r@.last() == TeardownStep::<T>::Apply(
                LoopEffect::Close { fd: old(self).event_loop.wake_w },
            ),
            final(self).ctx.addr == 0,
            final(self).event_loop.thread is None,
            final(self).event_loop.wake_w < 0,
            final(self).event_loop.cmd_tx == old(self).event_loop.cmd_tx,
    {
        let mut steps: Vec<TeardownStep<T>> = Vec::new();
        let effects = self.event_loop.stop();
        steps.push(TeardownStep::Apply(effects[0]));
        steps.push(TeardownStep::Apply(effects[1]));
        if let Some(thread) = self.event_loop.take_task() {
            steps.push(TeardownStep::Join(thread));
        }
        steps.push(TeardownStep::Pause { millis: 1 });
        if self.ctx.addr != 0 {
            steps.push(TeardownStep::DestroyContext(self.ctx));
            self.ctx = nfs_context { addr: 0 };
        }
        if let Some(effect) = self.event_loop.release() {
            steps.push(TeardownStep::Apply(effect));
        }
        assert(steps@ =~= teardown_steps(*old(self)));
        proof {
            law_teardown_steps(*old(self));
        }
        steps
    }
}

/// The context outlives the thread that uses it: where there is a thread and a
/// context, the thread was told to stop, and was woken up and waited for, before
/// the context is destroyed, which happens once.
pub proof fn law_context_outlives_the_loop<C, T>(inner: NfsInner<C, T>, d: int)
    requires
        0 <= d < teardown_steps(inner).len(),
        teardown_steps(inner)[d] is DestroyContext,
    ensures
        teardown_steps(inner)[d] == TeardownStep::<T>::DestroyContext(inner.ctx),
        inner.ctx.addr != 0,
        teardown_steps(inner)[0] == TeardownStep::<T>::Apply(LoopEffect::RaiseStop),
        teardown_steps(inner)[1] == TeardownStep::<T>::Apply(
            crate::event_loop::wake_effect(inner.event_loop.wake_w),
        ),
        inner.event_loop.thread matches Some(thread) ==> d > 2 && teardown_steps(inner)[2]
            == TeardownStep::Join(thread),
        forall|i: int|
            0 <= i < teardown_steps(inner).len() && i != d ==> !(#[trigger] teardown_steps(inner)[i]
                is DestroyContext),
{
}

/// All that the end of a client asks for, in its order: the stop flag and the wake
/// pipe; the thread, where there is one; a pause of a millisecond; the context,
/// where there is one; and the write end of the wake pipe, where it is open.
pub proof fn law_teardown_steps<C, T>(inner: NfsInner<C, T>)
    ensures
        ({
            let steps = teardown_steps(inner);
            let joins: int = if inner.event_loop.thread is Some {
                1
            } else {
                0
            };
            let destroys: int = if inner.ctx.addr != 0 {
                1
            } else {
                0
            };
            let closes: int = if inner.event_loop.wake_w >= 0 {
                1
            } else {
                0
            };
            &&& steps.len() == 3 + joins + destroys + closes
            &&& steps[0] == TeardownStep::<T>::Apply(LoopEffect::RaiseStop)
            &&& steps[1] == TeardownStep::<T>::Apply(
                LoopEffect::Write { fd: inner.event_loop.wake_w, byte: 1 },
            )
            &&& inner.event_loop.thread matches Some(thread) ==> steps[2] == TeardownStep::Join(thread)
            &&& steps[2 + joins] == (TeardownStep::<T>::Pause { millis: 1 })
            &&& destroys == 1 ==> steps[3 + joins] == TeardownStep::<T>::DestroyContext(inner.ctx)
            &&& destroys == 1 ==> steps.contains(TeardownStep::<T>::DestroyContext(inner.ctx))
            &&& closes == 1 ==> steps.last() == TeardownStep::<T>::Apply(
                LoopEffect::Close { fd: inner.event_loop.wake_w },
            )
        }),
{
}

} // verus!
