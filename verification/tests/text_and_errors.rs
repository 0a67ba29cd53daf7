use libnfs::error::{bridge_err, bridge_result, c_argument, Error, IoError};
use libnfs::poll::fmt_revents;
use libnfs::text::{c_string, lossy_text, push_decimal, push_numeral, same_text};

fn decimal(n: i64) -> String {
    let mut out = String::from("=");
    push_decimal(&mut out, n);
    out
}

fn hex(n: u64) -> String {
    let mut out = String::new();
    push_numeral(&mut out, n, 16);
    out
}

#[test]
fn decimal_numbers() {
    assert_eq!(decimal(0), "=0");
    assert_eq!(decimal(9), "=9");
    assert_eq!(decimal(10), "=10");
    assert_eq!(decimal(-1), "=-1");
    assert_eq!(decimal(2147483647), "=2147483647");
    assert_eq!(decimal(i64::MIN), "=-9223372036854775808");
    assert_eq!(decimal(i64::MAX), "=9223372036854775807");
}

#[test]
fn hexadecimal_numbers() {
    assert_eq!(hex(0), "0");
    assert_eq!(hex(0x9abcdef), "9abcdef");
    assert_eq!(hex(u64::MAX), "ffffffffffffffff");
}

#[test]
fn equal_text() {
    assert!(same_text("", ""));
    assert!(same_text("größe", "größe"));
    assert!(!same_text(".", ".."));
    assert!(!same_text("a", "b"));
}

#[test]
fn lossy_text_replaces_what_is_ill_formed() {
    assert_eq!(lossy_text(b"plain"), "plain");
    assert_eq!(lossy_text("größe".as_bytes()), "größe");
    assert_eq!(lossy_text(b"a\xffb"), "a\u{fffd}b");
    assert_eq!(lossy_text(b""), "");
}

#[test]
fn strings_for_c() {
    assert_eq!(c_string("/export").unwrap(), b"/export\0".to_vec());
    assert_eq!(c_string("").unwrap(), vec![0]);
    assert_eq!(c_string("ü").unwrap(), vec![0xc3, 0xbc, 0]);
    let e = c_string("ü\0b\0").unwrap_err();
    assert_eq!(e.position, 2);
    assert_eq!(e.bytes, "ü\0b\0".as_bytes().to_vec());
}

#[test]
fn refused_string_argument() {
    assert_eq!(c_argument("a").unwrap(), b"a\0".to_vec());
    let e = c_argument("ab\0").unwrap_err();
    assert_eq!(
        e.to_string(),
        "invalid string argument: nul byte found in provided data at position: 2"
    );
}

#[test]
fn error_messages() {
    assert_eq!(Error::ContextCreation.to_string(), "failed to create NFS context");
    assert_eq!(
        Error::Nfs { code: -2, message: String::from("no such file") }.to_string(),
        "NFS error (code -2): no such file"
    );
    assert_eq!(
        Error::Submit(String::from("no memory")).to_string(),
        "failed to submit async operation: no memory"
    );
    assert_eq!(
        Error::from(IoError { code: Some(24), message: String::from("too many open files") })
            .to_string(),
        "I/O error: too many open files"
    );
    assert_eq!(Error::Cancelled.to_string(), "operation cancelled");
    assert_eq!(Error::Timeout(30).to_string(), "operation timed out after 30 seconds");
}

#[test]
fn cloned_errors_read_the_same() {
    let errors = vec![
        Error::ContextCreation,
        Error::Nfs { code: 5, message: String::from("m") },
        Error::Submit(String::from("s")),
        c_argument("\0").unwrap_err(),
        Error::Io(IoError { code: None, message: String::from("i") }),
        Error::Cancelled,
        Error::Timeout(1),
    ];
    for e in &errors {
        assert_eq!(e.clone().to_string(), e.to_string());
    }
}

#[test]
fn bridged_answers() {
    assert_eq!(bridge_result(Ok(7u8)).unwrap(), 7);
    assert!(bridge_err(Ok(())).is_ok());
    let e = bridge_result::<u8>(Err((-13, String::from("denied")))).unwrap_err();
    assert!(matches!(e, Error::Nfs { code: -13, .. }));
    assert_eq!(e.to_string(), "NFS error (code -13): denied");
    let e = bridge_err(Err((-1, String::from("x")))).unwrap_err();
    assert_eq!(e.to_string(), "NFS error (code -1): x");
}

#[test]
fn event_bits_as_text() {
    assert_eq!(fmt_revents(libc::POLLIN), "POLLIN");
    assert_eq!(fmt_revents(libc::POLLOUT), "POLLOUT");
    assert_eq!(fmt_revents(libc::POLLERR), "POLLERR");
    assert_eq!(fmt_revents(libc::POLLHUP), "POLLHUP");
    assert_eq!(fmt_revents(libc::POLLNVAL), "POLLNVAL");
    assert_eq!(fmt_revents(libc::POLLIN | libc::POLLHUP), "POLLIN|POLLHUP");
    assert_eq!(fmt_revents(-1), "POLLIN|POLLOUT|POLLERR|POLLHUP|POLLNVAL");
    assert_eq!(fmt_revents(0), "0x0");
    assert_eq!(fmt_revents(0x40), "0x40");
    assert_eq!(fmt_revents(i16::MIN), "0x8000");
    // A bit without a name does not hide one that has a name.
    assert_eq!(fmt_revents(0x44), "POLLOUT");
}
