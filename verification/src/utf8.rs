//! UTF-8 well-formedness of byte strings, with the position and length of
//! the first ill-formed sequence as `std::str::from_utf8` reports them.
use vstd::prelude::*;

verus! {

/// The width of the character that a lead byte starts: 1 for ASCII, 2 to 4
/// for the lead bytes of longer characters, 0 for bytes that cannot start
/// a character.
pub open spec fn lead_width(b: u8) -> nat {
    if b < 0x80 {
        1
    } else if 0xC2 <= b <= 0xDF {
        2
    } else if 0xE0 <= b <= 0xEF {
        3
    } else if 0xF0 <= b <= 0xF4 {
        4
    } else {
        0
    }
}

/// Byte `j` (counted from 1) after the lead byte `lead` may be `b`: the
/// second byte has a range that depends on the lead byte (excluding
/// overlong forms, surrogates and code points above U+10FFFF), the others
/// are continuation bytes.
pub open spec fn accepts(lead: u8, j: nat, b: u8) -> bool {
    if j == 1 {
        if lead == 0xE0 {
            0xA0 <= b <= 0xBF
        } else if lead == 0xED {
            0x80 <= b <= 0x9F
        } else if lead == 0xF0 {
            0x90 <= b <= 0xBF
        } else if lead == 0xF4 {
            0x80 <= b <= 0x8F
        } else {
            0x80 <= b <= 0xBF
        }
    } else {
        0x80 <= b <= 0xBF
    }
}

/// How many bytes of `s`, from byte `k` on and at most `w` in all, fit the
/// character that `s[0]` starts.
pub open spec fn matched(s: Seq<u8>, w: nat, k: nat) -> nat
    decreases w - k,
{
    if k < w && k < s.len() && accepts(s[0], k, s[k as int]) {
        matched(s, w, k + 1)
    } else {
        k
    }
}

/// How many leading bytes of `s` fit the character that its first byte
/// starts (0 when the first byte cannot start one).
pub open spec fn sequence_match(s: Seq<u8>) -> nat {
    if s.len() == 0 || lead_width(s[0]) == 0 {
        0
    } else {
        matched(s, lead_width(s[0]), 1)
    }
}

/// The bytes fitting a character never outrun the character or the input.
pub proof fn lemma_matched_bounds(s: Seq<u8>, w: nat, k: nat)
    requires
        k <= w,
        k <= s.len(),
    ensures
        k <= matched(s, w, k) <= w,
        matched(s, w, k) <= s.len(),
    decreases w - k,
{
    if k < w && k < s.len() && accepts(s[0], k, s[k as int]) {
        lemma_matched_bounds(s, w, k + 1);
    }
}

/// The first ill-formed sequence of `s` at or after position `i`, when
/// decoding starts at `i`: its position, and the number of bytes that are
/// known to be wrong there, or `None` when `s` ends inside a character.
pub open spec fn utf8_error_from(s: Seq<u8>, i: int) -> Option<(int, Option<u8>)>
    decreases s.len() - i,
{
    if i < 0 || i >= s.len() {
        None
    } else {
        let r = s.skip(i);
        let w = lead_width(r[0]);
        let m = sequence_match(r);
        if w > 0 && m == w {
            proof {
                lemma_matched_bounds(r, w, 1);
            }
            utf8_error_from(s, i + w)
        } else {
            Some(
                (
                    i,
                    if w > 0 && m == r.len() {
                        None
                    } else if m == 0 {
                        Some(1u8)
                    } else {
                        Some(m as u8)
                    },
                ),
            )
        }
    }
}

/// The first ill-formed sequence of `s`, if `s` is not UTF-8.
pub open spec fn utf8_error(s: Seq<u8>) -> Option<(int, Option<u8>)> {
    utf8_error_from(s, 0)
}

/// Law: bytes that are all ASCII are well-formed UTF-8.
pub proof fn ascii_is_utf8(s: Seq<u8>)
    requires
        forall|j: int| 0 <= j < s.len() ==> s[j] < 0x80,
    ensures
        utf8_error(s) is None,
{
    lemma_ascii_from(s, 0);
}

proof fn lemma_ascii_from(s: Seq<u8>, i: int)
    requires
        forall|j: int| 0 <= j < s.len() ==> s[j] < 0x80,
    ensures
        utf8_error_from(s, i) is None,
    decreases s.len() - i,
{
    if 0 <= i < s.len() {
        assert(s.skip(i)[0] == s[i]);
        lemma_ascii_from(s, i + 1);
    }
}

/// Law: a text whose first byte cannot start a character (a continuation
/// byte 0x80-0xBF, 0xC0, 0xC1 or 0xF5-0xFF) is ill-formed right at its
/// start, with one bad byte.
pub proof fn bad_first_byte(s: Seq<u8>)
    requires
        s.len() > 0,
        0x80 <= s[0] <= 0xC1 || s[0] >= 0xF5,
    ensures
        utf8_error(s) == Some((0int, Some(1u8))),
{
    assert(s.skip(0)[0] == s[0]);
}

/// Law: a two-byte character (lead 0xC2-0xDF, then a continuation byte) is
/// well-formed, and its lead byte alone is an unfinished character.
pub proof fn two_byte_characters(lead: u8, cont: u8)
    requires
        0xC2 <= lead <= 0xDF,
        0x80 <= cont <= 0xBF,
    ensures
        utf8_error(seq![lead, cont]) is None,
        utf8_error(seq![lead]) == Some((0int, None::<u8>)),
{
    let s = seq![lead, cont];
    assert(s.skip(0) =~= s);
    assert(matched(s, 2, 2) == 2);
    assert(utf8_error_from(s, 2) is None);
    let t = seq![lead];
    assert(t.skip(0) =~= t);
}

/// Exec counterpart of `lead_width`.
fn lead_width_of(b: u8) -> (w: usize)
    ensures
        w == lead_width(b),
{
    if b < 0x80 {
        1
    } else if 0xC2 <= b && b <= 0xDF {
        2
    } else if 0xE0 <= b && b <= 0xEF {
        3
    } else if 0xF0 <= b && b <= 0xF4 {
        4
    } else {
        0
    }
}

/// Exec counterpart of `accepts`.
fn accepts_byte(lead: u8, j: usize, b: u8) -> (ok: bool)
    ensures
        ok == accepts(lead, j as nat, b),
{
    if j == 1 {
        if lead == 0xE0 {
            0xA0 <= b && b <= 0xBF
        } else if lead == 0xED {
            0x80 <= b && b <= 0x9F
        } else if lead == 0xF0 {
            0x90 <= b && b <= 0xBF
        } else if lead == 0xF4 {
            0x80 <= b && b <= 0x8F
        } else {
            0x80 <= b && b <= 0xBF
        }
    } else {
        0x80 <= b && b <= 0xBF
    }
}

/// Where `s` stops being UTF-8 (see `utf8_error`): the position of the
/// first ill-formed sequence and the length of its known-bad part, as
/// `Utf8Error::valid_up_to` and `Utf8Error::error_len` give them; `None`
/// for well-formed UTF-8.
pub fn utf8_error_of(s: &[u8]) -> (r: Option<(usize, Option<u8>)>)
    ensures
        r matches Some((i, l)) ==> utf8_error(s@) == Some((i as int, l)),
        r is None ==> utf8_error(s@) is None,
{
    let len = s.len();
    let mut i: usize = 0;
    while i < len
        invariant
            len == s.len(),
            i <= len,
            utf8_error(s@) == utf8_error_from(s@, i as int),
        decreases len - i,
    {
        let ghost r = s@.skip(i as int);
        let w = lead_width_of(s[i]);
        let mut k: usize = 1;
        if w > 0 {
            while k < w && i + k < len && accepts_byte(s[i], k, s[i + k])
                invariant
                    len == s.len(),
                    i < len,
                    r == s@.skip(i as int),
                    w == lead_width(r[0]),
                    1 <= k <= w <= 4,
                    i + k <= len,
                    matched(r, w as nat, 1) == matched(r, w as nat, k as nat),
                decreases w - k,
            {
                assert(r[k as int] == s@[i + k]);
                k = k + 1;
            }
            assert(k < r.len() ==> r[k as int] == s@[i + k]);
            assert(matched(r, w as nat, k as nat) == k);
        } else {
            k = 0;
        }
        let m = k;
        assert(m == sequence_match(r));
        if w > 0 && m == w {
            i = i + w;
        } else {
            if w > 0 && i + m == len {
                return Some((i, None));
            } else if m == 0 {
                return Some((i, Some(1)));
            } else {
                return Some((i, Some(m as u8)));
            }
        }
    }
    None
}

} // verus!
