//! Unsigned 16-bit integers written as ASCII digits in a given radix.
use vstd::prelude::*;
use crate::error::FanError;
use crate::utf8::{ascii_is_utf8, utf8_error, utf8_error_of};

verus! {

/// Value of an ASCII alphanumeric byte as a digit: `0`-`9` are 0-9 and
/// letters of either case are 10-35; any other byte has no digit value,
/// which is written 36 here (larger than every accepted radix).
pub open spec fn digit_value(b: u8) -> nat {
    if 48 <= b <= 57 {
        (b - 48) as nat
    } else if 97 <= b <= 122 {
        (b - 87) as nat
    } else if 65 <= b <= 90 {
        (b - 55) as nat
    } else {
        36
    }
}

/// `b` is a digit of the given radix.
pub open spec fn is_digit(b: u8, radix: u32) -> bool {
    digit_value(b) < radix
}

/// Every byte of `s` is a digit of the given radix.
pub open spec fn all_digits(s: Seq<u8>, radix: u32) -> bool {
    forall|i: int| 0 <= i < s.len() ==> is_digit(#[trigger] s[i], radix)
}

/// The number that the digits `s` denote, most significant digit first.
pub open spec fn digits_value(s: Seq<u8>, radix: u32) -> nat
    decreases s.len(),
{
    if s.len() == 0 {
        0
    } else {
        digits_value(s.drop_last(), radix) * (radix as nat) + digit_value(s.last())
    }
}

/// The digits of an unsigned number: a leading `+` is dropped when
/// something follows it.
pub open spec fn unsigned_digits(s: Seq<u8>) -> Seq<u8> {
    if s.len() >= 2 && s[0] == 43u8 {
        s.drop_first()
    } else {
        s
    }
}

/// What reading the text `s` as a `u16` in the given radix gives: the text
/// (after an optional `+`) is one or more digits and the number fits in 16
/// bits. This is the rule of `u16::from_str_radix`.
pub open spec fn spec_parse_u16(s: Seq<u8>, radix: u32) -> Option<u16> {
    let d = unsigned_digits(s);
    if d.len() > 0 && all_digits(d, radix) && digits_value(d, radix) <= 65535 {
        Some(digits_value(d, radix) as u16)
    } else {
        None
    }
}

/// A numeric text field: an error naming the first ill-formed sequence
/// when the bytes are not UTF-8; otherwise the number, or `ParseError`
/// when the text is not a `u16` in the radix.
pub open spec fn spec_read_u16_text(s: Seq<u8>, radix: u32) -> Result<u16, FanError> {
    match utf8_error(s) {
        Some((i, l)) => Err(FanError::Utf8Error { valid_up_to: i as usize, error_len: l }),
        None => match spec_parse_u16(s, radix) {
            Some(v) => Ok(v),
            None => Err(FanError::ParseError),
        },
    }
}

/// The decimal digits of `n`, without leading zeros.
pub open spec fn decimal(n: nat) -> Seq<u8>
    decreases n,
{
    if n < 10 {
        seq![(48 + n) as u8]
    } else {
        decimal(n / 10).push((48 + n % 10) as u8)
    }
}

/// A longer run of digits never denotes a smaller number than its prefix.
proof fn lemma_prefix_value_le(d: Seq<u8>, k: int, radix: u32)
    requires
        0 <= k <= d.len(),
        radix >= 1,
    ensures
        digits_value(d.take(k), radix) <= digits_value(d, radix),
    decreases d.len(),
{
    if k == d.len() {
        assert(d.take(k) =~= d);
    } else {
        lemma_prefix_value_le(d.drop_last(), k, radix);
        assert(d.drop_last().take(k) =~= d.take(k));
        let p = digits_value(d.drop_last(), radix);
        assert(p <= p * (radix as nat)) by (nonlinear_arith)
            requires
                radix >= 1,
        ;
    }
}

/// Exec counterpart of `digit_value`.
fn digit_of(b: u8) -> (r: u32)
    ensures
        r == digit_value(b),
{
    if 48 <= b && b <= 57 {
        (b - 48) as u32
    } else if 97 <= b && b <= 122 {
        (b - 87) as u32
    } else if 65 <= b && b <= 90 {
        (b - 55) as u32
    } else {
        36
    }
}

/// Reads `s` as an unsigned 16-bit number in `radix`, the way
/// `u16::from_str_radix` reads it: `None` exactly when
/// `spec_parse_u16` says so.
pub fn parse_u16(s: &[u8], radix: u32) -> (r: Option<u16>)
    requires
        2 <= radix <= 36,
    ensures
        r == spec_parse_u16(s@, radix),
{
    let len = s.len();
    if len == 0 {
        return None;
    }
    let start: usize = if len >= 2 && s[0] == 43u8 { 1 } else { 0 };
    let ghost d = unsigned_digits(s@);
    assert(d =~= s@.subrange(start as int, len as int));
    let mut acc: u32 = 0;
    let mut i: usize = start;
    while i < len
        invariant
            2 <= radix <= 36,
            len == s.len(),
            start <= i <= len,
            start < len,
            d == s@.subrange(start as int, len as int),
            d == unsigned_digits(s@),
            all_digits(s@.subrange(start as int, i as int), radix),
            acc == digits_value(s@.subrange(start as int, i as int), radix),
            acc <= 65535,
        decreases len - i,
    {
        let v = digit_of(s[i]);
        if v >= radix {
            assert(!is_digit(d[i - start], radix));
            return None;
        }
        let ghost pre = s@.subrange(start as int, i as int);
        let ghost next_pre = s@.subrange(start as int, i + 1);
        assert(next_pre.drop_last() =~= pre);
        assert(acc * radix <= 65535 * 36) by (nonlinear_arith)
            requires
                acc <= 65535,
                radix <= 36,
        ;
        let next = acc * radix + v;
        assert(next == digits_value(next_pre, radix));
        assert(all_digits(next_pre, radix)) by {
            assert forall|j: int| 0 <= j < next_pre.len() implies is_digit(
                #[trigger] next_pre[j],
                radix,
            ) by {
                if j < pre.len() {
                    assert(next_pre[j] == pre[j]);
                }
            }
        }
        if next > 65535 {
            proof {
                if all_digits(d, radix) {
                    lemma_prefix_value_le(d, (i + 1 - start) as int, radix);
                    assert(d.take((i + 1 - start) as int) =~= next_pre);
                }
            }
            return None;
        }
        acc = next;
        i = i + 1;
    }
    assert(s@.subrange(start as int, i as int) =~= d);
    Some(acc as u16)
}

/// Reads a numeric text field (see `spec_read_u16_text`): UTF-8 first,
/// then the number.
pub fn read_u16_text(s: &[u8], radix: u32) -> (r: Result<u16, FanError>)
    requires
        2 <= radix <= 36,
    ensures
        r == spec_read_u16_text(s@, radix),
{
    match utf8_error_of(s) {
        Some((i, l)) => Err(FanError::Utf8Error { valid_up_to: i, error_len: l }),
        None => match parse_u16(s, radix) {
            Some(v) => Ok(v),
            None => Err(FanError::ParseError),
        },
    }
}

/// Law: a text field is read as a number exactly when its bytes read as a
/// number: a number is all ASCII, so it is never refused as ill-formed
/// UTF-8.
pub proof fn text_field_is_number(s: Seq<u8>, radix: u32)
    requires
        2 <= radix <= 36,
    ensures
        spec_parse_u16(s, radix) matches Some(v) ==> spec_read_u16_text(s, radix) == Ok::<u16, FanError>(v),
        spec_parse_u16(s, radix) is None ==> spec_read_u16_text(s, radix) is Err,
{
    if spec_parse_u16(s, radix) is Some {
        let d = unsigned_digits(s);
        assert forall|j: int| 0 <= j < s.len() implies s[j] < 0x80 by {
            if d.len() < s.len() {
                assert(s[0] == 43u8);
                if j > 0 {
                    assert(s[j] == d[j - 1]);
                    assert(is_digit(d[j - 1], radix));
                }
            } else {
                assert(is_digit(d[j], radix));
            }
        }
        ascii_is_utf8(s);
    }
}

/// The decimal rendering of a number is all digits and reads back as it.
proof fn lemma_decimal_digits(n: nat)
    ensures
        decimal(n).len() > 0,
        all_digits(decimal(n), 10),
        digits_value(decimal(n), 10) == n,
        decimal(n)[0] != 43u8,
    decreases n,
{
    if n >= 10 {
        lemma_decimal_digits(n / 10);
        let s = decimal(n);
        assert(s.drop_last() =~= decimal(n / 10));
        assert(s.last() == (48 + n % 10) as u8);
        assert(digit_value(s.last()) == n % 10);
        assert(digits_value(s, 10) == digits_value(decimal(n / 10), 10) * 10 + digit_value(s.last()));
        assert forall|i: int| 0 <= i < s.len() implies is_digit(#[trigger] s[i], 10) by {
            if i < s.len() - 1 {
                assert(s[i] == decimal(n / 10)[i]);
            }
        }
        assert(s[0] == decimal(n / 10)[0]);
    } else {
        assert(decimal(n).drop_last() =~= Seq::<u8>::empty());
        assert(digits_value(Seq::<u8>::empty(), 10) == 0);
    }
}

/// Law: every `u16` written in decimal is read back as itself (and its
/// rendering is made of decimal digits only).
pub proof fn decimal_round_trip(n: u16)
    ensures
        spec_parse_u16(decimal(n as nat), 10) == Some(n),
        all_digits(decimal(n as nat), 10),
{
    lemma_decimal_digits(n as nat);
}

} // verus!
