//! From a callback of libnfs to the answer that someone waits for.
//!
//! An operation is handed a bridge, which holds the place `S` that its answer
//! goes to, the sending half of a channel. The callback consumes the bridge and
//! sends the answer, so that an operation is answered at most once.

use vstd::prelude::*;
use vstd::string::*;

use tokio::sync::oneshot::Sender;

use crate::channel::{send_answer, Sending};
use crate::error;
use crate::error::{bridge_result, Error};
use crate::sys::{nfs_stat_64, nfsdir, nfsfh};
use crate::text;
use crate::text::lossy_text;

verus! {

/// An open file, as it passes from one thread to another.
#[derive(Debug, Clone, Copy, PartialEq, Eq, Structural)]
pub struct FhPtr(pub nfsfh);

impl FhPtr {
    /// The open file.
    pub fn get(self) -> (r: nfsfh)
        ensures
            r == self.0,
    {
        self.0
    }
}

/// An open directory, as it passes from one thread to another.
#[derive(Debug, Clone, Copy, PartialEq, Eq, Structural)]
pub struct DirPtr(pub nfsdir);

impl DirPtr {
    /// The open directory.
    pub fn get(self) -> (r: nfsdir)
        ensures
            r == self.0,
    {
        self.0
    }
}

/// The text of the error that a context has, given the bytes of it; there are
/// none where the context is null or has no error.
pub open spec fn error_string(message: Option<Seq<u8>>) -> Seq<char> {
    match message {
        Some(bytes) => text::lossy_utf8(bytes),
        None => "unknown error"@,
    }
}

/// The bytes of an error, where there are any.
pub open spec fn message_view(message: Option<&[u8]>) -> Option<Seq<u8>> {
    match message {
        Some(bytes) => Some(bytes@),
        None => None,
    }
}

/// The text of the error that a context has, given the bytes of it.
pub fn get_error_string(message: Option<&[u8]>) -> (r: String)
    ensures
        r@ == error_string(message_view(message)),
        message is None ==> r@ == "unknown error"@,
        message matches Some(bytes) ==> r@ == text::lossy_utf8(bytes@),
        forall|chars: Seq<char>|
            message is Some && message->0@ == #[trigger] vstd::utf8::encode_utf8(chars) ==> r@
                == chars,
{
    match message {
        Some(bytes) => lossy_text(bytes),
        None => "unknown error".to_owned(),
    }
}

/// What a callback answers: `value` where its code is not negative, and
/// otherwise the code and the text of the error.
pub open spec fn answers<T>(
    r: Result<T, (i32, String)>,
    err: i32,
    message: Option<Seq<u8>>,
    value: T,
) -> bool {
    match r {
        Ok(v) => err >= 0 && v == value,
        Err((code, text)) => err < 0 && code == err && text@ == error_string(message),
    }
}

fn answer<T>(err: i32, message: Option<&[u8]>, value: T) -> (r: Result<T, (i32, String)>)
    ensures
        answers(r, err, message_view(message), value),
{
    if err < 0 {
        Err((err, get_error_string(message)))
    } else {
        Ok(value)
    }
}

/// Whether `r` is an answer for the place `tx`, where there is one.
pub open spec fn delivers<S, T>(
    r: Option<(S, Result<T, (i32, String)>)>,
    tx: Option<S>,
    err: i32,
    message: Option<Seq<u8>>,
    value: T,
) -> bool {
    match r {
        Some((place, result)) => tx == Some(place) && answers(result, err, message, value),
        None => tx is None,
    }
}

/// The bridge of an operation without a value: a mount or a close.
#[derive(Debug)]
pub struct VoidBridge<S> {
    pub tx: Option<S>,
}

/// What the callback of an operation without a value sends, and where to.
pub fn void_answer<S>(bridge: VoidBridge<S>, err: i32, message: Option<&[u8]>) -> (r: Option<
    (S, Result<(), (i32, String)>),
>)
    ensures
        delivers(r, bridge.tx, err, message_view(message), ()),
        match (bridge.tx, r) {
            (Some(tx), Some((place, Ok(value)))) => place == tx && err >= 0 && value == (),
            (Some(tx), Some((place, Err((code, text))))) => {
                &&& place == tx
                &&& err < 0
                &&& code == err
                &&& message is None ==> text@ == "unknown error"@
                &&& message matches Some(bytes) ==> text@ == text::lossy_utf8(bytes@)
            },
            (None, None) => true,
            _ => false,
        },
{
    match bridge.tx {
        Some(tx) => Some((tx, answer(err, message, ()))),
        None => None,
    }
}

/// The bridge of an open.
#[derive(Debug)]
pub struct FhBridge<S> {
    pub tx: Option<S>,
}

/// What the callback of an open sends, and where to: the value is the open file.
pub fn fh_answer<S>(bridge: FhBridge<S>, err: i32, message: Option<&[u8]>, data: nfsfh) -> (r: Option<
    (S, Result<FhPtr, (i32, String)>),
>)
    ensures
        delivers(r, bridge.tx, err, message_view(message), FhPtr(data)),
        match (bridge.tx, r) {
            (Some(tx), Some((place, Ok(value)))) => place == tx && err >= 0 && value == FhPtr(data),
            (Some(tx), Some((place, Err((code, text))))) => {
                &&& place == tx
                &&& err < 0
                &&& code == err
                &&& message is None ==> text@ == "unknown error"@
                &&& message matches Some(bytes) ==> text@ == text::lossy_utf8(bytes@)
            },
            (None, None) => true,
            _ => false,
        },
{
    match bridge.tx {
        Some(tx) => Some((tx, answer(err, message, FhPtr(data)))),
        None => None,
    }
}

/// The bridge of an operation that asks for attributes.
#[derive(Debug)]
pub struct StatBridge<S> {
    pub tx: Option<S>,
}

/// What the callback of an operation that asks for attributes sends, and where
/// to. The attributes are there where the code is not negative.
pub fn stat_answer<S>(
    bridge: StatBridge<S>,
    err: i32,
    message: Option<&[u8]>,
    data: Option<nfs_stat_64>,
) -> (r: Option<(S, Result<nfs_stat_64, (i32, String)>)>)
    requires
        err >= 0 ==> data is Some,
    ensures
        delivers(r, bridge.tx, err, message_view(message), data->0),
        match (bridge.tx, r) {
            (Some(tx), Some((place, Ok(value)))) => place == tx && err >= 0 && value == data->0,
            (Some(tx), Some((place, Err((code, text))))) => {
                &&& place == tx
                &&& err < 0
                &&& code == err
                &&& message is None ==> text@ == "unknown error"@
                &&& message matches Some(bytes) ==> text@ == text::lossy_utf8(bytes@)
            },
            (None, None) => true,
            _ => false,
        },
{
    match bridge.tx {
        Some(tx) => {
            let result = match data {
                Some(st) => answer(err, message, st),
                None => Err((err, get_error_string(message))),
            };
            Some((tx, result))
        },
        None => None,
    }
}

/// The bridge of the opening of a directory.
#[derive(Debug)]
pub struct DirBridge<S> {
    pub tx: Option<S>,
}

/// What the callback of the opening of a directory sends, and where to: the
/// value is the directory.
pub fn dir_answer<S>(
    bridge: DirBridge<S>,
    err: i32,
    message: Option<&[u8]>,
    data: nfsdir,
) -> (r: Option<(S, Result<DirPtr, (i32, String)>)>)
    ensures
        delivers(r, bridge.tx, err, message_view(message), DirPtr(data)),
        match (bridge.tx, r) {
            (Some(tx), Some((place, Ok(value)))) => place == tx && err >= 0 && value == DirPtr(data),
            (Some(tx), Some((place, Err((code, text))))) => {
                &&& place == tx
                &&& err < 0
                &&& code == err
                &&& message is None ==> text@ == "unknown error"@
                &&& message matches Some(bytes) ==> text@ == text::lossy_utf8(bytes@)
            },
            (None, None) => true,
            _ => false,
        },
{
    match bridge.tx {
        Some(tx) => Some((tx, answer(err, message, DirPtr(data)))),
        None => None,
    }
}

/// The bridge of a read. The buffer is given to the callback beside it.
#[derive(Debug)]
pub struct ReadIntoBridge<S> {
    pub tx: Option<S>,
}

/// How many bytes of a read go to a buffer of length `buf_len`, where the
/// callback's code, which is not negative, says how many were read.
pub open spec fn copied(err: i32, buf_len: nat) -> nat {
    if err < 0 {
        0
    } else if err < buf_len {
        err as nat
    } else {
        buf_len
    }
}

/// What the callback of a read sends, and where to. As many of the bytes that
/// were read as fit into the buffer are at its beginning, and their number is the
/// value; the rest of the buffer is as it was, and all of it where the read
/// failed. Of the bytes that were read, only those that fit have to be there.
pub fn read_into_answer<S>(
    bridge: ReadIntoBridge<S>,
    err: i32,
    message: Option<&[u8]>,
    data: &[u8],
    buf: &mut [u8],
) -> (r: Option<(S, Result<usize, (i32, String)>)>)
    requires
        data@.len() >= copied(err, old(buf)@.len()),
    ensures
        delivers(
            r,
            bridge.tx,
            err,
            message_view(message),
            copied(err, old(buf)@.len()) as usize,
        ),
        match (bridge.tx, r) {
            (Some(tx), Some((place, Ok(value)))) => place == tx && err >= 0 && value == (if err < old(buf)@.len() {
                err as int
            } else {
                old(buf)@.len() as int
            }),
            (Some(tx), Some((place, Err((code, text))))) => {
                &&& place == tx
                &&& err < 0
                &&& code == err
                &&& message is None ==> text@ == "unknown error"@
                &&& message matches Some(bytes) ==> text@ == text::lossy_utf8(bytes@)
            },
            (None, None) => true,
            _ => false,
        },
        final(buf)@.len() == old(buf)@.len(),
        forall|i: int|
            0 <= i < final(buf)@.len() ==> #[trigger] final(buf)@[i] == if i < err {
                data@[i]
            } else {
                old(buf)@[i]
            },
        final(buf)@ == data@.take(copied(err, old(buf)@.len()) as int) + old(buf)@.skip(
            copied(err, old(buf)@.len()) as int,
        ),
{
    let buf_len: usize = buf.len();
    let mut to_copy: usize = 0;
    if err >= 0 {
        let bytes_read: usize = err as usize;
        to_copy = if bytes_read < buf_len {
            bytes_read
        } else {
            buf_len
        };
    }
    let ghost before = buf@;
    let mut i: usize = 0;
    while i < to_copy
        invariant
            i <= to_copy,
            to_copy <= data@.len(),
            to_copy <= before.len(),
            buf@ == data@.take(i as int) + before.skip(i as int),
        decreases to_copy - i,
    {
        buf[i] = data[i];
        i += 1;
        assert(buf@ =~= data@.take(i as int) + before.skip(i as int));
    }
    match bridge.tx {
        Some(tx) => Some((tx, answer(err, message, to_copy))),
        None => None,
    }
}

/// The answer to an operation that libnfs would not start: where `rc` is not
/// zero, there will be no callback, and the error is that of the context.
pub fn refused<T>(rc: i32, message: Option<&[u8]>) -> (r: Option<Result<T, (i32, String)>>)
    ensures
        match r {
            Some(Err((code, text))) => {
                &&& rc != 0
                &&& code == -1
                &&& text@ == error_string(message_view(message))
            },
            Some(Ok(_)) => false,
            None => rc == 0,
        },
        r matches Some(Err((_, text))) ==> (message is None ==> text@ == "unknown error"@) && (
        message matches Some(bytes) ==> text@ == text::lossy_utf8(bytes@)),
{
    if rc != 0 {
        Some(Err((-1, get_error_string(message))))
    } else {
        None
    }
}

// ── Sending ─────────────────────────────────────────────────────────────────

/// Sends a value to its place, exactly where there is one, and gives the record of
/// it: a value that nobody waits for any more is handed back.
pub fn deliver<T>(answer: Option<(Sender<T>, T)>) -> (r: Option<Sending<T>>)
    ensures
        match (answer, r) {
            (Some((tx, value)), Some(sending)) => {
                &&& sending.place() == tx
                &&& sending.value() == value
                &&& sending.unsent() matches Some(unsent) ==> unsent == value
            },
            (None, None) => true,
            _ => false,
        },
{
    match answer {
        Some((tx, value)) => Some(send_answer(tx, value)),
        None => None,
    }
}

/// What a callback does: it sends its answer to the place that it has, exactly
/// where it has one, and an answer that nobody waits for any more is handed back.
pub open spec fn sends<T>(
    r: Option<Sending<Result<T, (i32, String)>>>,
    tx: Option<Sender<Result<T, (i32, String)>>>,
    err: i32,
    message: Option<Seq<u8>>,
    value: T,
) -> bool {
    match r {
        Some(sending) => {
            &&& tx == Some(sending.place())
            &&& answers(sending.value(), err, message, value)
            &&& sending.unsent() matches Some(unsent) ==> unsent == sending.value()
        },
        None => tx is None,
    }
}

/// The callback of an operation without a value: it sends what `void_answer`
/// says.
pub fn void_cb(
    bridge: VoidBridge<Sender<Result<(), (i32, String)>>>,
    err: i32,
    message: Option<&[u8]>,
) -> (r: Option<Sending<Result<(), (i32, String)>>>)
    ensures
        sends(r, bridge.tx, err, message_view(message), ()),
        r is Some <==> bridge.tx is Some,
        r matches Some(sending) ==> {
            &&& bridge.tx == Some(sending.place())
            &&& err >= 0 ==> (sending.value() matches Ok(value) && value == ())
            &&& err < 0 ==> (sending.value() matches Err((code, text)) && code == err && (message is None
                ==> text@ == "unknown error"@) && (message matches Some(bytes) ==> text@
                == text::lossy_utf8(bytes@)))
        },
{
    deliver(void_answer(bridge, err, message))
}

/// The callback of an open: it sends what `fh_answer` says.
pub fn fh_cb(
    bridge: FhBridge<Sender<Result<FhPtr, (i32, String)>>>,
    err: i32,
    message: Option<&[u8]>,
    data: nfsfh,
) -> (r: Option<Sending<Result<FhPtr, (i32, String)>>>)
    ensures
        sends(r, bridge.tx, err, message_view(message), FhPtr(data)),
        r is Some <==> bridge.tx is Some,
        r matches Some(sending) ==> {
            &&& bridge.tx == Some(sending.place())
            &&& err >= 0 ==> (sending.value() matches Ok(value) && value == FhPtr(data))
            &&& err < 0 ==> (sending.value() matches Err((code, text)) && code == err && (message is None
                ==> text@ == "unknown error"@) && (message matches Some(bytes) ==> text@
                == text::lossy_utf8(bytes@)))
        },
{
    deliver(fh_answer(bridge, err, message, data))
}

/// The callback of an operation that asks for attributes: it sends what
/// `stat_answer` says.
pub fn stat_cb(
    bridge: StatBridge<Sender<Result<nfs_stat_64, (i32, String)>>>,
    err: i32,
    message: Option<&[u8]>,
    data: Option<nfs_stat_64>,
) -> (r: Option<Sending<Result<nfs_stat_64, (i32, String)>>>)
    requires
        err >= 0 ==> data is Some,
    ensures
        sends(r, bridge.tx, err, message_view(message), data->0),
        r is Some <==> bridge.tx is Some,
        r matches Some(sending) ==> {
            &&& bridge.tx == Some(sending.place())
            &&& err >= 0 ==> (sending.value() matches Ok(value) && value == data->0)
            &&& err < 0 ==> (sending.value() matches Err((code, text)) && code == err && (message is None
                ==> text@ == "unknown error"@) && (message matches Some(bytes) ==> text@
                == text::lossy_utf8(bytes@)))
        },
{
    deliver(stat_answer(bridge, err, message, data))
}

/// The callback of the opening of a directory: it sends what `dir_answer` says.
pub fn dir_cb(
    bridge: DirBridge<Sender<Result<DirPtr, (i32, String)>>>,
    err: i32,
    message: Option<&[u8]>,
    data: nfsdir,
) -> (r: Option<Sending<Result<DirPtr, (i32, String)>>>)
    ensures
        sends(r, bridge.tx, err, message_view(message), DirPtr(data)),
        r is Some <==> bridge.tx is Some,
        r matches Some(sending) ==> {
            &&& bridge.tx == Some(sending.place())
            &&& err >= 0 ==> (sending.value() matches Ok(value) && value == DirPtr(data))
            &&& err < 0 ==> (sending.value() matches Err((code, text)) && code == err && (message is None
                ==> text@ == "unknown error"@) && (message matches Some(bytes) ==> text@
                == text::lossy_utf8(bytes@)))
        },
{
    deliver(dir_answer(bridge, err, message, data))
}

/// The callback of a read: it fills the buffer and sends what `read_into_answer`
/// says.
pub fn read_into_cb(
    bridge: ReadIntoBridge<Sender<Result<usize, (i32, String)>>>,
    err: i32,
    message: Option<&[u8]>,
    data: &[u8],
    buf: &mut [u8],
) -> (r: Option<Sending<Result<usize, (i32, String)>>>)
    requires
        data@.len() >= copied(err, old(buf)@.len()),
    ensures
        sends(
            r,
            bridge.tx,
            err,
            message_view(message),
            copied(err, old(buf)@.len()) as usize,
        ),
        r is Some <==> bridge.tx is Some,
        r matches Some(sending) ==> {
            &&& bridge.tx == Some(sending.place())
            &&& err >= 0 ==> (sending.value() matches Ok(value) && value == (if err < old(buf)@.len() {
                err as int
            } else {
                old(buf)@.len() as int
            }))
            &&& err < 0 ==> (sending.value() matches Err((code, text)) && code == err && (message is None
                ==> text@ == "unknown error"@) && (message matches Some(bytes) ==> text@
                == text::lossy_utf8(bytes@)))
        },
        final(buf)@.len() == old(buf)@.len(),
        forall|i: int|
            0 <= i < final(buf)@.len() ==> #[trigger] final(buf)@[i] == if i < err {
                data@[i]
            } else {
                old(buf)@[i]
            },
        final(buf)@ == data@.take(copied(err, old(buf)@.len()) as int) + old(buf)@.skip(
            copied(err, old(buf)@.len()) as int,
        ),
{
    deliver(read_into_answer(bridge, err, message, data, buf))
}

/// Answers an operation that libnfs would not start, with what `refused` says,
/// where it has a place to answer to. Where it was started nothing is sent: there
/// will be a callback.
pub fn refuse<T>(
    tx: Option<Sender<Result<T, (i32, String)>>>,
    rc: i32,
    message: Option<&[u8]>,
) -> (r: Option<Sending<Result<T, (i32, String)>>>)
    ensures
        match r {
            Some(sending) => {
                &&& rc != 0
                &&& tx == Some(sending.place())
                &&& sending.value() matches Err((code, text)) && code == -1 && text@
                    == error_string(message_view(message))
                &&& sending.unsent() matches Some(unsent) ==> unsent == sending.value()
            },
            None => tx is None || rc == 0,
        },
        r is Some <==> tx is Some && rc != 0,
        r matches Some(sending) ==> (sending.value() matches Err((code, text)) && code == -1 && (
        message is None ==> text@ == "unknown error"@) && (message matches Some(bytes) ==> text@
            == text::lossy_utf8(bytes@))),
{
    match (tx, refused(rc, message)) {
        (Some(tx), Some(answer)) => deliver(Some((tx, answer))),
        _ => None,
    }
}

// ── Receiving ───────────────────────────────────────────────────────────────

/// What someone who waited for an answer gets: it was cancelled where the
/// answer's place was given up before an answer came.
pub open spec fn received<T>(answer: Option<Result<T, (i32, String)>>) -> Result<T, Error> {
    match answer {
        Some(r) => error::bridge_spec(r),
        None => Err(Error::Cancelled),
    }
}

/// What someone who waited for an answer gets.
pub fn receive<T>(answer: Option<Result<T, (i32, String)>>) -> (r: Result<T, Error>)
    ensures
        r == received(answer),
        answer matches Some(Ok(value)) ==> r == Ok::<T, Error>(value),
        answer matches Some(Err((code, message))) ==> r == Err::<T, Error>(
            Error::Nfs { code, message },
        ),
        answer is None ==> r == Err::<T, Error>(Error::Cancelled),
{
    match answer {
        Some(r) => bridge_result(r),
        None => Err(Error::Cancelled),
    }
}

/// What a callback answered reaches the one who waited: the value where the
/// code is not negative, and otherwise an NFS error with the code and the text
/// of the context's error.
pub proof fn law_answer_reaches_the_caller<T>(
    r: Result<T, (i32, String)>,
    err: i32,
    message: Option<Seq<u8>>,
    value: T,
)
    requires
        answers(r, err, message, value),
    ensures
        err >= 0 ==> received(Some(r)) == Ok::<T, Error>(value),
        err < 0 ==> (received(Some(r)) matches Err(Error::Nfs { code, message: text }) && code == err
            && text@ == error_string(message)),
{
}

/// A read says how many bytes it put into the buffer: never more than fit, all
/// that were read where they do, as many as fit where they do not, and none at the
/// end of the file or where the read failed.
pub proof fn law_read_fits_the_buffer(err: i32, buf_len: nat)
    ensures
        copied(err, buf_len) <= buf_len,
        0 <= err <= buf_len ==> copied(err, buf_len) == err,
        err >= buf_len ==> copied(err, buf_len) == buf_len,
        err <= 0 ==> copied(err, buf_len) == 0,
{
}

/// The text of an error is the one that the context has, or says that there is
/// none.
pub proof fn law_error_string(bytes: Seq<u8>)
    ensures
        error_string(None) == "unknown error"@,
        error_string(Some(bytes)) == text::lossy_utf8(bytes),
{
}

/// What a callback answers is decided by its code: the value where it is not
/// negative, zero included, and an error with that very code where it is. It goes
/// to the place of the bridge, and nowhere where there is none.
pub proof fn law_callback_answers<S, T>(
    r: Option<(S, Result<T, (i32, String)>)>,
    tx: Option<S>,
    err: i32,
    message: Option<Seq<u8>>,
    value: T,
)
    requires
        delivers(r, tx, err, message, value),
    ensures
        r is Some <==> tx is Some,
        r matches Some((place, _)) ==> tx == Some(place),
        err >= 0 ==> (r matches Some((_, result)) ==> result == Ok::<T, (i32, String)>(value)),
        err < 0 ==> (r matches Some((_, result)) ==> (result matches Err((code, text)) && code == err
            && (message is None ==> text@ == "unknown error"@) && (message matches Some(bytes)
            ==> text@ == text::lossy_utf8(bytes)))),
{
}

/// What someone who waited gets: the value, the NFS error that the answer stands
/// for, with its code and its text, or that the operation was cancelled.
pub proof fn law_received<T>(value: T, code: i32, message: String)
    ensures
        received(Some(Ok::<T, (i32, String)>(value))) == Ok::<T, Error>(value),
        received(Some(Err::<T, (i32, String)>((code, message)))) == Err::<T, Error>(
            Error::Nfs { code, message },
        ),
        received(None::<Result<T, (i32, String)>>) == Err::<T, Error>(Error::Cancelled),
{
}

} // verus!
