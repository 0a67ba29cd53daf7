//! The event bits of `poll(2)`.

use vstd::prelude::*;
use vstd::string::*;

use crate::text;
use crate::text::push_numeral;

verus! {

/// There is data to read.
pub open spec fn pollin() -> i16 {
    0x1
}

/// Writing would not block.
pub open spec fn pollout() -> i16 {
    0x4
}

/// An error condition.
pub open spec fn pollerr() -> i16 {
    0x8
}

/// The other end hung up.
pub open spec fn pollhup() -> i16 {
    0x10
}

/// The descriptor is not open.
pub open spec fn pollnval() -> i16 {
    0x20
}

/// The error number of a call that a signal interrupted.
pub open spec fn eintr() -> i32 {
    4
}

/// `libc::POLLIN`: its value is the one that libc gives it on Linux.
#[verifier::external_body]
pub(crate) fn libc_pollin() -> (r: i16)
    ensures
        r == pollin(),
{
    libc::POLLIN
}

/// `libc::POLLOUT`: its value is the one that libc gives it on Linux.
#[verifier::external_body]
fn libc_pollout() -> (r: i16)
    ensures
        r == pollout(),
{
    libc::POLLOUT
}

/// `libc::POLLERR`: its value is the one that libc gives it on Linux.
#[verifier::external_body]
fn libc_pollerr() -> (r: i16)
    ensures
        r == pollerr(),
{
    libc::POLLERR
}

/// `libc::POLLHUP`: its value is the one that libc gives it on Linux.
#[verifier::external_body]
fn libc_pollhup() -> (r: i16)
    ensures
        r == pollhup(),
{
    libc::POLLHUP
}

/// `libc::POLLNVAL`: its value is the one that libc gives it on Linux.
#[verifier::external_body]
fn libc_pollnval() -> (r: i16)
    ensures
        r == pollnval(),
{
    libc::POLLNVAL
}

/// `libc::EINTR`: its value is the one that libc gives it on Linux.
#[verifier::external_body]
pub(crate) fn libc_eintr() -> (r: i32)
    ensures
        r == eintr(),
{
    libc::EINTR
}

/// One name, where its bit is set.
pub open spec fn name_if_set(revents: i16, bit: i16, name: Seq<char>) -> Seq<Seq<char>> {
    if revents & bit != 0 {
        seq![name]
    } else {
        seq![]
    }
}

/// The names of the bits that are set.
pub open spec fn revent_names(revents: i16) -> Seq<Seq<char>> {
    name_if_set(revents, pollin(), "POLLIN"@) + name_if_set(revents, pollout(), "POLLOUT"@)
        + name_if_set(revents, pollerr(), "POLLERR"@) + name_if_set(revents, pollhup(), "POLLHUP"@)
        + name_if_set(revents, pollnval(), "POLLNVAL"@)
}

/// The names in order, with a bar between each two.
pub open spec fn join_names(names: Seq<Seq<char>>) -> Seq<char>
    decreases names.len(),
{
    if names.len() == 0 {
        seq![]
    } else if names.len() == 1 {
        names[0]
    } else {
        join_names(names.drop_last()) + "|"@ + names.last()
    }
}

/// The sixteen bits of `revents` as a number.
pub open spec fn bits(revents: i16) -> nat {
    if revents < 0 {
        (revents + 0x10000) as nat
    } else {
        revents as nat
    }
}

/// Event bits as text: the names of those that have one, or all sixteen bits in
/// hexadecimal where none that is set has a name.
pub open spec fn revents_text(revents: i16) -> Seq<char> {
    if revent_names(revents).len() == 0 {
        "0x"@ + text::numeral(bits(revents), 16)
    } else {
        join_names(revent_names(revents))
    }
}

fn push_name(out: &mut String, revents: i16, bit: i16, name: &str, Ghost(names): Ghost<Seq<Seq<char>>>, any: bool) -> (r: bool)
    requires
        old(out)@ == join_names(names),
        any == (names.len() > 0),
    ensures
        final(out)@ == join_names(names + name_if_set(revents, bit, name@)),
        r == ((names + name_if_set(revents, bit, name@)).len() > 0),
{
    let ghost more = names + name_if_set(revents, bit, name@);
    if revents & bit != 0 {
        assert(more =~= names.push(name@));
        assert(more.drop_last() =~= names);
        assert(more.last() == name@);
        if any {
            out.append("|");
        }
        out.append(name);
        assert(out@ =~= join_names(more));
        true
    } else {
        assert(more =~= names);
        any
    }
}

/// Formats the event bits that `poll(2)` reports.
pub fn fmt_revents(revents: i16) -> (r: String)
    ensures
        r@ == revents_text(revents),
{
    let mut out = String::new();
    let ghost n0: Seq<Seq<char>> = seq![];
    let any = push_name(&mut out, revents, libc_pollin(), "POLLIN", Ghost(n0), false);
    let ghost n1 = n0 + name_if_set(revents, pollin(), "POLLIN"@);
    let any = push_name(&mut out, revents, libc_pollout(), "POLLOUT", Ghost(n1), any);
    let ghost n2 = n1 + name_if_set(revents, pollout(), "POLLOUT"@);
    let any = push_name(&mut out, revents, libc_pollerr(), "POLLERR", Ghost(n2), any);
    let ghost n3 = n2 + name_if_set(revents, pollerr(), "POLLERR"@);
    let any = push_name(&mut out, revents, libc_pollhup(), "POLLHUP", Ghost(n3), any);
    let ghost n4 = n3 + name_if_set(revents, pollhup(), "POLLHUP"@);
    let any = push_name(&mut out, revents, libc_pollnval(), "POLLNVAL", Ghost(n4), any);
    let ghost n5 = n4 + name_if_set(revents, pollnval(), "POLLNVAL"@);
    assert(n5 =~= revent_names(revents));
    if any {
        out
    } else {
        let mut hex = String::new();
        hex.append("0x");
        let value: u64 = if revents < 0 {
            (revents as i64 + 0x10000) as u64
        } else {
            revents as u64
        };
        push_numeral(&mut hex, value, 16);
        hex
    }
}

/// Names in a row: the first stands alone, and each further one is set off by a
/// bar.
pub proof fn law_names_are_joined_by_bars(names: Seq<Seq<char>>, name: Seq<char>)
    ensures
        join_names(seq![name]) == name,
        names.len() > 0 ==> join_names(names.push(name)) == join_names(names) + "|"@ + name,
{
    assert(names.push(name).drop_last() =~= names);
}

/// Event bits of which none has a name are written as the sixteen bits in
/// hexadecimal; and where bits that have a name are set, their names are written
/// and no others, in the order of the bits, whatever else is set.
pub proof fn law_event_text(revents: i16)
    ensures
        revents & 0x3d == 0 ==> exists|n: nat|
            n < 0x10000 && (n == revents || n == revents + 0x10000) && #[trigger] ("0x"@
                + text::numeral(n, 16)) == revents_text(revents),
        revents & 0x3d == 0x01 ==> revents_text(revents) == "POLLIN"@,
        revents & 0x3d == 0x04 ==> revents_text(revents) == "POLLOUT"@,
        revents & 0x3d == 0x08 ==> revents_text(revents) == "POLLERR"@,
        revents & 0x3d == 0x10 ==> revents_text(revents) == "POLLHUP"@,
        revents & 0x3d == 0x20 ==> revents_text(revents) == "POLLNVAL"@,
        revents & 0x3d != 0 ==> revents_text(revents) == join_names(
            (if revents & 0x01 != 0 {
                seq!["POLLIN"@]
            } else {
                seq![]
            }) + (if revents & 0x04 != 0 {
                seq!["POLLOUT"@]
            } else {
                seq![]
            }) + (if revents & 0x08 != 0 {
                seq!["POLLERR"@]
            } else {
                seq![]
            }) + (if revents & 0x10 != 0 {
                seq!["POLLHUP"@]
            } else {
                seq![]
            }) + (if revents & 0x20 != 0 {
                seq!["POLLNVAL"@]
            } else {
                seq![]
            }),
        ),
{
    let named = revents & 0x3d;
    assert(named == 0 ==> revents & 0x01 == 0 && revents & 0x04 == 0 && revents & 0x08 == 0
        && revents & 0x10 == 0 && revents & 0x20 == 0) by (bit_vector)
        requires
            named == revents & 0x3d,
    ;
    assert(named == 0x01 ==> revents & 0x01 != 0 && revents & 0x04 == 0 && revents & 0x08 == 0
        && revents & 0x10 == 0 && revents & 0x20 == 0) by (bit_vector)
        requires
            named == revents & 0x3d,
    ;
    assert(named == 0x04 ==> revents & 0x01 == 0 && revents & 0x04 != 0 && revents & 0x08 == 0
        && revents & 0x10 == 0 && revents & 0x20 == 0) by (bit_vector)
        requires
            named == revents & 0x3d,
    ;
    assert(named == 0x08 ==> revents & 0x01 == 0 && revents & 0x04 == 0 && revents & 0x08 != 0
        && revents & 0x10 == 0 && revents & 0x20 == 0) by (bit_vector)
        requires
            named == revents & 0x3d,
    ;
    assert(named == 0x10 ==> revents & 0x01 == 0 && revents & 0x04 == 0 && revents & 0x08 == 0
        && revents & 0x10 != 0 && revents & 0x20 == 0) by (bit_vector)
        requires
            named == revents & 0x3d,
    ;
    assert(named == 0x20 ==> revents & 0x01 == 0 && revents & 0x04 == 0 && revents & 0x08 == 0
        && revents & 0x10 == 0 && revents & 0x20 != 0) by (bit_vector)
        requires
            named == revents & 0x3d,
    ;
    assert(named != 0 ==> revents & 0x01 != 0 || revents & 0x04 != 0 || revents & 0x08 != 0
        || revents & 0x10 != 0 || revents & 0x20 != 0) by (bit_vector)
        requires
            named == revents & 0x3d,
    ;
    if named == 0 {
        let n = bits(revents);
        assert(revents_text(revents) == "0x"@ + text::numeral(n, 16));
    }
    if named == 0x01 {
        assert(revent_names(revents) =~= seq!["POLLIN"@]);
    }
    if named == 0x04 {
        assert(revent_names(revents) =~= seq!["POLLOUT"@]);
    }
    if named == 0x08 {
        assert(revent_names(revents) =~= seq!["POLLERR"@]);
    }
    if named == 0x10 {
        assert(revent_names(revents) =~= seq!["POLLHUP"@]);
    }
    if named == 0x20 {
        assert(revent_names(revents) =~= seq!["POLLNVAL"@]);
    }
    if named != 0 {
        assert(revent_names(revents).len() > 0);
    }
}

} // verus!
