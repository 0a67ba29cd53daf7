//! Text: numbers in decimal and hexadecimal, comparison of strings, the bytes
//! handed to C as strings, and the bytes that come back from it.

use vstd::prelude::*;
use vstd::string::*;
use vstd::utf8::*;

verus! {

/// The digit that stands for `d`, below sixteen.
pub open spec fn digit(d: nat) -> char {
    if d == 0 {
        '0'
    } else if d == 1 {
        '1'
    } else if d == 2 {
        '2'
    } else if d == 3 {
        '3'
    } else if d == 4 {
        '4'
    } else if d == 5 {
        '5'
    } else if d == 6 {
        '6'
    } else if d == 7 {
        '7'
    } else if d == 8 {
        '8'
    } else if d == 9 {
        '9'
    } else if d == 10 {
        'a'
    } else if d == 11 {
        'b'
    } else if d == 12 {
        'c'
    } else if d == 13 {
        'd'
    } else if d == 14 {
        'e'
    } else {
        'f'
    }
}

/// `n` written in `base`, most significant digit first, without leading zeros.
pub open spec fn numeral(n: nat, base: nat) -> Seq<char>
    decreases n,
    when base >= 2
{
    if n < base {
        seq![digit(n)]
    } else {
        proof {
            assert(n / base < n) by (nonlinear_arith)
                requires
                    n >= base,
                    base >= 2,
            ;
        }
        numeral(n / base, base).push(digit(n % base))
    }
}

/// `n` in decimal, with a minus sign where it is negative.
pub open spec fn decimal(n: int) -> Seq<char> {
    if n < 0 {
        seq!['-'] + numeral((-n) as nat, 10)
    } else {
        numeral(n as nat, 10)
    }
}

fn digit_text(d: u64) -> (r: &'static str)
    requires
        d < 16,
    ensures
        r@ == seq![digit(d as nat)],
{
    proof {
        reveal_strlit("0");
        reveal_strlit("1");
        reveal_strlit("2");
        reveal_strlit("3");
        reveal_strlit("4");
        reveal_strlit("5");
        reveal_strlit("6");
        reveal_strlit("7");
        reveal_strlit("8");
        reveal_strlit("9");
        reveal_strlit("a");
        reveal_strlit("b");
        reveal_strlit("c");
        reveal_strlit("d");
        reveal_strlit("e");
        reveal_strlit("f");
    }
    if d == 0 {
        "0"
    } else if d == 1 {
        "1"
    } else if d == 2 {
        "2"
    } else if d == 3 {
        "3"
    } else if d == 4 {
        "4"
    } else if d == 5 {
        "5"
    } else if d == 6 {
        "6"
    } else if d == 7 {
        "7"
    } else if d == 8 {
        "8"
    } else if d == 9 {
        "9"
    } else if d == 10 {
        "a"
    } else if d == 11 {
        "b"
    } else if d == 12 {
        "c"
    } else if d == 13 {
        "d"
    } else if d == 14 {
        "e"
    } else {
        "f"
    }
}

/// Appends `n`, written in `base`.
pub fn push_numeral(out: &mut String, n: u64, base: u64)
    requires
        2 <= base <= 16,
    ensures
        final(out)@ == old(out)@ + numeral(n as nat, base as nat),
    decreases n,
{
    if n < base {
        out.append(digit_text(n));
    } else {
        assert(n / base < n) by (nonlinear_arith)
            requires
                n >= base,
                base >= 2,
        ;
        assert(n % base < base) by (nonlinear_arith)
            requires
                base >= 2,
        ;
        push_numeral(out, n / base, base);
        out.append(digit_text(n % base));
    }
}

/// Appends `n` in decimal.
pub fn push_decimal(out: &mut String, n: i64)
    ensures
        final(out)@ == old(out)@ + decimal(n as int),
{
    if n >= 0 {
        push_numeral(out, n as u64, 10);
    } else {
        proof {
            reveal_strlit("-");
        }
        out.append("-");
        let magnitude: u64 = (-(n + 1)) as u64 + 1;
        push_numeral(out, magnitude, 10);
    }
}

/// Whether the two strings are the same text.
pub fn same_text(a: &str, b: &str) -> (r: bool)
    ensures
        r == (a@ == b@),
{
    let x = a.as_bytes();
    let y = b.as_bytes();
    proof {
        encode_utf8_decode_utf8(a@);
        encode_utf8_decode_utf8(b@);
    }
    if x.len() != y.len() {
        return false;
    }
    let mut i: usize = 0;
    while i < x.len()
        invariant
            i <= x@.len(),
            x@.len() == y@.len(),
            x@ == encode_utf8(a@),
            y@ == encode_utf8(b@),
            forall|j: int| 0 <= j < i ==> x@[j] == y@[j],
        decreases x@.len() - i,
    {
        if x[i] != y[i] {
            return false;
        }
        i += 1;
    }
    assert(x@ =~= y@);
    true
}

/// The text that a byte string decodes to, each ill-formed part of it replaced
/// by U+FFFD, as `String::from_utf8_lossy` computes it.
pub uninterp spec fn lossy_utf8(bytes: Seq<u8>) -> Seq<char>;

/// `String::from_utf8_lossy`. Its result depends on the bytes alone, and on
/// well-formed UTF-8 it is the text that they encode. Where the replacement
/// characters fall in ill-formed input is left to the name.
#[verifier::external_body]
fn from_utf8_lossy(bytes: &[u8]) -> (r: String)
    ensures
        r@ == lossy_utf8(bytes@),
        valid_utf8(bytes@) ==> r@ == decode_utf8(bytes@),
{
    String::from_utf8_lossy(bytes).into_owned()
}

/// The text of a byte string that came from C.
pub fn lossy_text(bytes: &[u8]) -> (r: String)
    ensures
        r@ == lossy_utf8(bytes@),
        valid_utf8(bytes@) ==> r@ == decode_utf8(bytes@),
        forall|chars: Seq<char>| bytes@ == #[trigger] encode_utf8(chars) ==> r@ == chars,
{
    let r = from_utf8_lossy(bytes);
    assert forall|chars: Seq<char>| bytes@ == #[trigger] encode_utf8(chars) implies r@ == chars by {
        encode_utf8_valid_utf8(chars);
        encode_utf8_decode_utf8(chars);
    }
    r
}

/// The index of the first zero byte, or the length where there is none.
pub open spec fn first_nul(bytes: Seq<u8>) -> int
    decreases bytes.len(),
{
    if bytes.len() == 0 || bytes[0] == 0 {
        0
    } else {
        1 + first_nul(bytes.skip(1))
    }
}

/// What `first_nul` is: nothing before it is zero, and it is either the end
/// or the index of a zero byte.
pub proof fn law_first_nul(bytes: Seq<u8>)
    ensures
        0 <= first_nul(bytes) <= bytes.len(),
        first_nul(bytes) < bytes.len() ==> bytes[first_nul(bytes)] == 0,
        forall|i: int| 0 <= i < first_nul(bytes) ==> bytes[i] != 0,
    decreases bytes.len(),
{
    if bytes.len() > 0 && bytes[0] != 0 {
        law_first_nul(bytes.skip(1));
        assert forall|i: int| 0 <= i < first_nul(bytes) implies bytes[i] != 0 by {
            if i > 0 {
                assert(bytes[i] == bytes.skip(1)[i - 1]);
            }
        }
    }
}

/// A string holds a zero byte exactly where its text holds the character NUL.
pub proof fn law_nul_byte_is_nul_char(chars: Seq<char>)
    ensures
        encode_utf8(chars).contains(0) <==> chars.contains('\0'),
    decreases chars.len(),
{
    let bytes = encode_utf8(chars);
    if chars.len() == 0 {
        assert(!bytes.contains(0));
        assert(!chars.contains('\0'));
    } else {
        let rest = chars.drop_first();
        law_nul_byte_is_nul_char(rest);
        let head = encode_scalar(chars[0] as u32);
        assert(bytes =~= head + encode_utf8(rest));
        lemma_scalar_nul(chars[0]);
        if bytes.contains(0) {
            let i = choose|i: int| 0 <= i < bytes.len() && bytes[i] == 0;
            if i < head.len() {
                assert(head[i] == 0);
                assert(chars[0] == '\0');
            } else {
                assert(encode_utf8(rest)[i - head.len()] == 0);
                let j = choose|j: int| 0 <= j < rest.len() && rest[j] == '\0';
                assert(chars[j + 1] == '\0');
            }
        }
        if chars.contains('\0') {
            let j = choose|j: int| 0 <= j < chars.len() && chars[j] == '\0';
            if j == 0 {
                let i = choose|i: int| 0 <= i < head.len() && head[i] == 0;
                assert(bytes[i] == 0);
            } else {
                assert(rest[j - 1] == '\0');
                let tail = encode_utf8(rest);
                let i = choose|i: int| 0 <= i < tail.len() && tail[i] == 0;
                assert(bytes[head.len() + i] == 0);
            }
        }
    }
}

proof fn lemma_scalar_nul(c: char)
    ensures
        encode_scalar(c as u32).contains(0) <==> c == '\0',
{
    let s = c as u32;
    char_is_scalar(c);
    let b = encode_scalar(s);
    assert((s & 0x7f) as u8 == 0 && s <= 0x7f ==> s == 0) by (bit_vector);
    assert((0u32 & 0x7f) as u8 == 0) by (bit_vector);
    assert(0xC0u8 | ((s >> 6) & 0x1F) as u8 != 0) by (bit_vector);
    assert(0xE0u8 | ((s >> 12) & 0x0F) as u8 != 0) by (bit_vector);
    assert(0xF0u8 | ((s >> 18) & 0x07) as u8 != 0) by (bit_vector);
    assert(0x80u8 | (s & 0x3F) as u8 != 0) by (bit_vector);
    assert(0x80u8 | ((s >> 6) & 0x3F) as u8 != 0) by (bit_vector);
    assert(0x80u8 | ((s >> 12) & 0x3F) as u8 != 0) by (bit_vector);
    if s == 0 {
        assert(b[0] == 0);
    }
}

/// A string that cannot be handed to C: it holds a zero byte.
#[derive(Debug)]
pub struct NulError {
    /// The index of the first zero byte.
    pub position: usize,
    /// The whole string.
    pub bytes: Vec<u8>,
}

/// The bytes that C gets for `s`: its encoding and a final zero byte. A string
/// that holds a zero byte itself is refused.
pub fn c_string(s: &str) -> (r: Result<Vec<u8>, NulError>)
    ensures
        match r {
            Ok(bytes) => !s@.contains('\0') && bytes@ == encode_utf8(s@).push(0),
            Err(e) => {
                &&& s@.contains('\0')
                &&& e.position == first_nul(encode_utf8(s@))
                &&& e.bytes@ == encode_utf8(s@)
            },
        },
{
    let bytes = s.as_bytes();
    proof {
        law_first_nul(bytes@);
        law_nul_byte_is_nul_char(s@);
    }
    let mut out: Vec<u8> = Vec::new();
    let mut i: usize = 0;
    while i < bytes.len()
        invariant
            i <= bytes@.len(),
            bytes@ == encode_utf8(s@),
            out@ == bytes@.take(i as int),
            i <= first_nul(bytes@) <= bytes@.len(),
            first_nul(bytes@) < bytes@.len() ==> bytes@[first_nul(bytes@)] == 0,
            forall|j: int| 0 <= j < first_nul(bytes@) ==> bytes@[j] != 0,
            encode_utf8(s@).contains(0) <==> s@.contains('\0'),
        decreases bytes@.len() - i,
    {
        if bytes[i] == 0 {
            assert(bytes@.contains(0));
            return Err(NulError { position: i, bytes: s.as_bytes_vec() });
        }
        out.push(bytes[i]);
        i += 1;
    }
    assert(out@ =~= bytes@);
    assert(!bytes@.contains(0));
    out.push(0);
    Ok(out)
}

// ── Numbers ─────────────────────────────────────────────────────────────────

/// The number that a digit stands for; a character that is no digit stands for
/// none.
pub open spec fn digit_value(c: char) -> Option<nat> {
    if '0' <= c && c <= '9' {
        Some((c as int - '0' as int) as nat)
    } else if 'a' <= c && c <= 'f' {
        Some((c as int - 'a' as int + 10) as nat)
    } else {
        None
    }
}

/// The number that a reader of the digits, the most significant first, reads.
pub open spec fn read_number(chars: Seq<char>, base: nat) -> nat
    decreases chars.len(),
{
    if chars.len() == 0 {
        0
    } else {
        read_number(chars.drop_last(), base) * base + digit_value(chars.last()).unwrap_or(0)
    }
}

proof fn lemma_digit(d: nat)
    requires
        d < 16,
    ensures
        digit_value(digit(d)) == Some(d),
{
}

/// A numeral reads back as the number that it was written for: it consists of
/// digits of its base, in lower case, and has no leading zero but for zero
/// itself.
pub proof fn law_numeral_reads_back(n: nat, base: nat)
    requires
        2 <= base <= 16,
    ensures
        numeral(n, base).len() > 0,
        read_number(numeral(n, base), base) == n,
        forall|i: int|
            0 <= i < numeral(n, base).len() ==> (digit_value(#[trigger] numeral(n, base)[i]) matches Some(
                d,
            ) && d < base),
        numeral(n, base)[0] == '0' ==> n == 0 && numeral(n, base).len() == 1,
    decreases n,
{
    let all = numeral(n, base);
    if n < base {
        lemma_digit(n);
        assert(all =~= seq![digit(n)]);
        assert(all.drop_last() =~= seq![]);
        assert(read_number(all.drop_last(), base) == 0);
        assert(0 * base == 0) by (nonlinear_arith);
    } else {
        let head = n / base;
        let last = n % base;
        assert(head < n && head >= 1 && last < base && head * base + last == n) by (nonlinear_arith)
            requires
                n >= base,
                base >= 2,
                head == n / base,
                last == n % base,
        ;
        law_numeral_reads_back(head, base);
        lemma_digit(last);
        assert(all == numeral(head, base).push(digit(last)));
        assert(all.drop_last() =~= numeral(head, base));
        assert forall|i: int| 0 <= i < all.len() implies (digit_value(#[trigger] all[i]) matches Some(
            d,
        ) && d < base) by {
            if i < all.len() - 1 {
                assert(all[i] == numeral(head, base)[i]);
            }
        }
        assert(all[0] == numeral(head, base)[0]);
    }
}

/// A number in decimal has a minus sign exactly where it is negative, and its
/// digits read back as its magnitude.
pub proof fn law_decimal_reads_back(n: int)
    ensures
        decimal(n).len() > 0,
        n < 0 <==> decimal(n)[0] == '-',
        n >= 0 ==> read_number(decimal(n), 10) == n,
        n < 0 ==> read_number(decimal(n).skip(1), 10) == -n,
        n < 0 ==> decimal(n) == seq!['-'] + decimal(-n),
{
    let magnitude: nat = if n < 0 {
        (-n) as nat
    } else {
        n as nat
    };
    law_numeral_reads_back(magnitude, 10);
    assert(digit_value(numeral(magnitude, 10)[0]) is Some);
    if n < 0 {
        assert(decimal(n).skip(1) =~= numeral(magnitude, 10));
    }
}

/// The first zero byte is the only index at which a string that C reads can
/// end: it is there exactly where there is a zero byte at all.
pub proof fn law_first_nul_is_least(bytes: Seq<u8>, i: int)
    requires
        0 <= i < bytes.len(),
        bytes[i] == 0,
    ensures
        first_nul(bytes) <= i,
        bytes[first_nul(bytes)] == 0,
{
    law_first_nul(bytes);
}

} // verus!
