//! Text helpers shared by the codec and the error model: positional digit
//! rendering, NUL-terminated runs, and the UTF-16 / UTF-8 transcoding that the
//! standard library performs.

use vstd::prelude::*;

verus! {

/// `String::push` appends exactly one character to the end of the string.
pub assume_specification[ std::string::String::push ](s: &mut String, c: char)
    ensures
        final(s)@ == old(s)@.push(c),
;

/// The text that lossy UTF-16 decoding yields for a sequence of code units:
/// well-formed units decode to their characters and every unpaired surrogate
/// becomes U+FFFD.
pub uninterp spec fn utf16_lossy_text(units: Seq<u16>) -> Seq<char>;

/// The text that lossy UTF-8 decoding yields for a sequence of bytes, with
/// every invalid sequence replaced by U+FFFD.
pub uninterp spec fn utf8_lossy_text(bytes: Seq<u8>) -> Seq<char>;

/// The UTF-16 code units that encode a text, without a byte-order mark and
/// without a terminator.
pub uninterp spec fn utf16_encoding(text: Seq<char>) -> Seq<u16>;

/// `String::from_utf16_lossy` decodes the whole slice and never fails; its
/// result depends on the code units alone.
pub assume_specification[ std::string::String::from_utf16_lossy ](v: &[u16]) -> (s: String)
    ensures
        s@ == utf16_lossy_text(v@),
;

/// `String::from_utf8_lossy`, copied into an owned string. It decodes the
/// whole slice and never fails; its result depends on the bytes alone.
#[verifier::external_body]
pub(crate) fn decode_utf8_lossy(bytes: &[u8]) -> (s: String)
    ensures
        s@ == utf8_lossy_text(bytes@),
{
    String::from_utf8_lossy(bytes).into_owned()
}

/// `str::encode_utf16`, collected into a vector. The units depend on the
/// characters of the string alone.
#[verifier::external_body]
pub(crate) fn encode_utf16(s: &str) -> (units: Vec<u16>)
    ensures
        units@ == utf16_encoding(s@),
{
    s.encode_utf16().collect()
}

/// Number of leading elements of `s` that differ from `stop`: the length of a
/// terminated run, or the whole length where no terminator occurs.
pub open spec fn run_length<T>(s: Seq<T>, stop: T) -> nat
    decreases s.len(),
{
    if s.len() == 0 || s[0] == stop {
        0
    } else {
        1 + run_length(s.drop_first(), stop)
    }
}

/// The elements of `s` before the first occurrence of `stop`.
pub open spec fn before_terminator<T>(s: Seq<T>, stop: T) -> Seq<T> {
    s.take(run_length(s, stop) as int)
}

/// `run_length` is the first index that holds `stop`, or the length.
pub proof fn lemma_run_length<T>(s: Seq<T>, stop: T, n: int)
    requires
        0 <= n <= s.len(),
        forall|i: int| 0 <= i < n ==> s[i] != stop,
        n < s.len() ==> s[n] == stop,
    ensures
        run_length(s, stop) == n,
    decreases s.len(),
{
    if n > 0 {
        let rest = s.drop_first();
        assert forall|i: int| 0 <= i < n - 1 implies rest[i] != stop by {
            assert(rest[i] == s[i + 1]);
        }
        lemma_run_length(rest, stop, n - 1);
    }
}

/// A run ends at the first terminator: no element before its end is the
/// terminator, and the element at its end, if there is one, is.
pub proof fn lemma_before_terminator_bounds<T>(s: Seq<T>, stop: T)
    ensures
        run_length(s, stop) <= s.len(),
        forall|i: int| 0 <= i < run_length(s, stop) ==> s[i] != stop,
        run_length(s, stop) < s.len() ==> s[run_length(s, stop) as int] == stop,
    decreases s.len(),
{
    if s.len() == 0 || s[0] == stop {
    } else {
        let rest = s.drop_first();
        lemma_before_terminator_bounds(rest, stop);
        assert forall|i: int| 0 <= i < run_length(s, stop) implies s[i] != stop by {
            if i > 0 {
                assert(rest[i - 1] == s[i]);
            }
        }
        if run_length(s, stop) < s.len() {
            assert(rest[run_length(rest, stop) as int] == s[run_length(s, stop) as int]);
        }
    }
}

/// Index of the first zero code unit, or the length of the slice.
pub fn wide_run_length(units: &[u16]) -> (n: usize)
    ensures
        n == run_length(units@, 0u16),
        n <= units.len(),
{
    let mut n: usize = 0;
    while n < units.len() && units[n] != 0
        invariant
            n <= units.len(),
            forall|i: int| 0 <= i < n ==> units@[i] != 0u16,
        decreases units.len() - n,
    {
        n += 1;
    }
    proof {
        lemma_run_length(units@, 0u16, n as int);
    }
    n
}

/// Index of the first zero byte, or the length of the slice.
pub fn byte_run_length(bytes: &[u8]) -> (n: usize)
    ensures
        n == run_length(bytes@, 0u8),
        n <= bytes.len(),
{
    let mut n: usize = 0;
    while n < bytes.len() && bytes[n] != 0
        invariant
            n <= bytes.len(),
            forall|i: int| 0 <= i < n ==> bytes@[i] != 0u8,
        decreases bytes.len() - n,
    {
        n += 1;
    }
    proof {
        lemma_run_length(bytes@, 0u8, n as int);
    }
    n
}

/// The character that stands for the digit `d` in radix 10 or 16: `0`..`9`,
/// then lower-case `a`..`f`.
pub open spec fn digit_char(d: nat) -> char {
    if d < 10 {
        (48 + d) as char
    } else {
        (87 + d) as char
    }
}

/// Decimal digits of `n`, most significant first, without leading zeros, as
/// `{}` prints an unsigned integer; zero is the single digit `0`.
pub open spec fn decimal_digits(n: nat) -> Seq<char>
    decreases n,
{
    if n < 10 {
        seq![digit_char(n)]
    } else {
        decimal_digits(n / 10).push(digit_char(n % 10))
    }
}

/// Lower-case hexadecimal digits of `n`, most significant first, without
/// leading zeros, as `{:x}` prints an unsigned integer.
pub open spec fn hex_digits(n: nat) -> Seq<char>
    decreases n,
{
    if n < 16 {
        seq![digit_char(n)]
    } else {
        hex_digits(n / 16).push(digit_char(n % 16))
    }
}

/// The `width` low-order decimal digits of `n`, most significant first, with
/// leading zeros kept.
pub open spec fn padded_decimal_digits(n: nat, width: nat) -> Seq<char>
    decreases width,
{
    if width == 0 {
        Seq::empty()
    } else {
        padded_decimal_digits(n / 10, (width - 1) as nat).push(digit_char(n % 10))
    }
}

/// Ten to the power `e`.
pub open spec fn pow10(e: nat) -> nat
    decreases e,
{
    if e == 0 {
        1
    } else {
        10 * pow10((e - 1) as nat)
    }
}

fn digit(d: u8) -> (c: char)
    requires
        d < 16,
    ensures
        c == digit_char(d as nat),
{
    if d < 10 {
        (48 + d) as char
    } else {
        (87 + d) as char
    }
}

/// Appends the decimal digits of `n`.
pub fn push_decimal(s: &mut String, n: u128)
    ensures
        final(s)@ == old(s)@ + decimal_digits(n as nat),
    decreases n,
{
    if n >= 10 {
        push_decimal(s, n / 10);
    }
    let d: u8 = (n % 10) as u8;
    s.push(digit(d));
}

/// Appends the lower-case hexadecimal digits of `n`.
pub fn push_hex(s: &mut String, n: u128)
    ensures
        final(s)@ == old(s)@ + hex_digits(n as nat),
    decreases n,
{
    if n >= 16 {
        push_hex(s, n / 16);
    }
    let d: u8 = (n % 16) as u8;
    s.push(digit(d));
}

/// Appends the `width` low-order decimal digits of `n`, zero-padded.
pub fn push_padded_decimal(s: &mut String, n: u128, width: u8)
    ensures
        final(s)@ == old(s)@ + padded_decimal_digits(n as nat, width as nat),
    decreases width,
{
    if width > 0 {
        push_padded_decimal(s, n / 10, width - 1);
        let d: u8 = (n % 10) as u8;
        s.push(digit(d));
    }
}

/// Appends a string slice.
pub fn push_str(s: &mut String, part: &str)
    ensures
        final(s)@ == old(s)@ + part@,
{
    s.append(part);
}

} // verus!
