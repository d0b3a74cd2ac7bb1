//! Structural validity and frequency weight of a window under UTF-8.
//!
//! Validity follows the strict scalar-value rules: no overlong forms, no
//! surrogates, nothing above U+10FFFF. A multi-byte sequence cut off by the
//! window end is tolerated, since the window may split a character. Complete
//! multi-byte sequences score well above plain ASCII: meeting the strict
//! continuation ranges by accident is unlikely, so each is strong evidence.
use vstd::prelude::*;

use crate::models::ascii_byte_score;

verus! {

/// Continuation byte.
pub open spec fn utf8_cont(b: u8) -> bool {
    0x80 <= b && b <= 0xbf
}

/// Legal second byte for a given lead: the lead-specific ranges exclude
/// overlong forms, surrogates and values above U+10FFFF.
pub open spec fn utf8_second_ok(lead: u8, b: u8) -> bool {
    if lead == 0xe0 {
        0xa0 <= b && b <= 0xbf
    } else if lead == 0xed {
        0x80 <= b && b <= 0x9f
    } else if lead == 0xf0 {
        0x90 <= b && b <= 0xbf
    } else if lead == 0xf4 {
        0x80 <= b && b <= 0x8f
    } else {
        utf8_cont(b)
    }
}

/// Validity of a window from position `i` on.
pub open spec fn utf8_valid_from(s: Seq<u8>, i: int) -> bool
    decreases s.len() - i,
{
    if i >= s.len() {
        true
    } else {
        let b = s[i];
        if b < 0x80 {
            utf8_valid_from(s, i + 1)
        } else if 0xc2 <= b && b <= 0xdf {
            if i + 1 >= s.len() {
                true
            } else if utf8_cont(s[i + 1]) {
                utf8_valid_from(s, i + 2)
            } else {
                false
            }
        } else if 0xe0 <= b && b <= 0xef {
            if i + 1 >= s.len() {
                true
            } else if !utf8_second_ok(b, s[i + 1]) {
                false
            } else if i + 2 >= s.len() {
                true
            } else if utf8_cont(s[i + 2]) {
                utf8_valid_from(s, i + 3)
            } else {
                false
            }
        } else if 0xf0 <= b && b <= 0xf4 {
            if i + 1 >= s.len() {
                true
            } else if !utf8_second_ok(b, s[i + 1]) {
                false
            } else if i + 2 >= s.len() {
                true
            } else if !utf8_cont(s[i + 2]) {
                false
            } else if i + 3 >= s.len() {
                true
            } else if utf8_cont(s[i + 3]) {
                utf8_valid_from(s, i + 4)
            } else {
                false
            }
        } else {
            false
        }
    }
}

/// Total weight of a window from position `i` on; meaningful only where
/// `utf8_valid_from` holds. A complete two-byte sequence weighs 14, a
/// complete three- or four-byte sequence 16, a truncated tail 0.
pub open spec fn utf8_total_from(s: Seq<u8>, i: int) -> int
    decreases s.len() - i,
{
    if i >= s.len() {
        0
    } else {
        let b = s[i];
        if b < 0x80 {
            ascii_byte_score(b) + utf8_total_from(s, i + 1)
        } else if 0xc2 <= b && b <= 0xdf {
            if i + 1 >= s.len() {
                0
            } else if utf8_cont(s[i + 1]) {
                14 + utf8_total_from(s, i + 2)
            } else {
                0
            }
        } else if 0xe0 <= b && b <= 0xef {
            if i + 2 >= s.len() {
                0
            } else if utf8_second_ok(b, s[i + 1]) && utf8_cont(s[i + 2]) {
                16 + utf8_total_from(s, i + 3)
            } else {
                0
            }
        } else if 0xf0 <= b && b <= 0xf4 {
            if i + 3 >= s.len() {
                0
            } else if utf8_second_ok(b, s[i + 1]) && utf8_cont(s[i + 2]) && utf8_cont(s[i + 3]) {
                16 + utf8_total_from(s, i + 4)
            } else {
                0
            }
        } else {
            0
        }
    }
}

fn utf8_cont_x(b: u8) -> (r: bool)
    ensures
        r == utf8_cont(b),
{
    0x80 <= b && b <= 0xbf
}

fn utf8_second_ok_x(lead: u8, b: u8) -> (r: bool)
    ensures
        r == utf8_second_ok(lead, b),
{
    if lead == 0xe0 {
        0xa0 <= b && b <= 0xbf
    } else if lead == 0xed {
        0x80 <= b && b <= 0x9f
    } else if lead == 0xf0 {
        0x90 <= b && b <= 0xbf
    } else if lead == 0xf4 {
        0x80 <= b && b <= 0x8f
    } else {
        0x80 <= b && b <= 0xbf
    }
}

/// Scans a window as UTF-8: `None` if it is not structurally well-formed,
/// else the model's total weight.
pub fn utf8_scan(bytes: &[u8], w: usize) -> (r: Option<i64>)
    requires
        w <= bytes@.len(),
        w <= crate::models::ANALYSIS_WINDOW,
    ensures
        r is Some <==> utf8_valid_from(bytes@.take(w as int), 0),
        r is Some ==> r->0 == utf8_total_from(bytes@.take(w as int), 0),
        r is Some ==> -20 * (w as int) <= r->0 <= 300 * (w as int),
{
    let ghost s = bytes@.take(w as int);
    let mut i: usize = 0;
    let mut tot: i64 = 0;
    while i < w
        invariant
            0 <= i <= w,
            w <= bytes@.len(),
            w <= crate::models::ANALYSIS_WINDOW,
            s == bytes@.take(w as int),
            utf8_valid_from(s, 0) <==> utf8_valid_from(s, i as int),
            utf8_valid_from(s, i as int) ==> utf8_total_from(s, 0) == tot + utf8_total_from(
                s,
                i as int,
            ),
            -20 * (i as int) <= tot <= 16 * (i as int),
        decreases w - i,
    {
        let b = bytes[i];
        assert(s[i as int] == b);
        if b < 0x80 {
            tot = tot + crate::models::ascii_byte_score_x(b);
            i = i + 1;
        } else if 0xc2 <= b && b <= 0xdf {
            if i + 1 >= w {
                assert(utf8_valid_from(s, i as int));
                assert(utf8_total_from(s, i as int) == 0);
                i = w;
            } else {
                let b1 = bytes[i + 1];
                assert(s[(i + 1) as int] == b1);
                if utf8_cont_x(b1) {
                    tot = tot + 14;
                    i = i + 2;
                } else {
                    assert(!utf8_valid_from(s, i as int));
                    return None;
                }
            }
        } else if 0xe0 <= b && b <= 0xef {
            if i + 1 >= w {
                assert(utf8_valid_from(s, i as int));
                assert(utf8_total_from(s, i as int) == 0);
                i = w;
            } else {
                let b1 = bytes[i + 1];
                assert(s[(i + 1) as int] == b1);
                if !utf8_second_ok_x(b, b1) {
                    assert(!utf8_valid_from(s, i as int));
                    return None;
                } else if i + 2 >= w {
                    assert(utf8_valid_from(s, i as int));
                    assert(utf8_total_from(s, i as int) == 0);
                    i = w;
                } else {
                    let b2 = bytes[i + 2];
                    assert(s[(i + 2) as int] == b2);
                    if utf8_cont_x(b2) {
                        tot = tot + 16;
                        i = i + 3;
                    } else {
                        assert(!utf8_valid_from(s, i as int));
                        return None;
                    }
                }
            }
        } else if 0xf0 <= b && b <= 0xf4 {
            if i + 1 >= w {
                assert(utf8_valid_from(s, i as int));
                assert(utf8_total_from(s, i as int) == 0);
                i = w;
            } else {
                let b1 = bytes[i + 1];
                assert(s[(i + 1) as int] == b1);
                if !utf8_second_ok_x(b, b1) {
                    assert(!utf8_valid_from(s, i as int));
                    return None;
                } else if i + 2 >= w {
                    assert(utf8_valid_from(s, i as int));
                    assert(utf8_total_from(s, i as int) == 0);
                    i = w;
                } else {
                    let b2 = bytes[i + 2];
                    assert(s[(i + 2) as int] == b2);
                    if !utf8_cont_x(b2) {
                        assert(!utf8_valid_from(s, i as int));
                        return None;
                    } else if i + 3 >= w {
                        assert(utf8_valid_from(s, i as int));
                        assert(utf8_total_from(s, i as int) == 0);
                        i = w;
                    } else {
                        let b3 = bytes[i + 3];
                        assert(s[(i + 3) as int] == b3);
                        if utf8_cont_x(b3) {
                            tot = tot + 16;
                            i = i + 4;
                        } else {
                            assert(!utf8_valid_from(s, i as int));
                            return None;
                        }
                    }
                }
            }
        } else {
            assert(!utf8_valid_from(s, i as int));
            return None;
        }
    }
    assert(utf8_valid_from(s, i as int));
    assert(utf8_total_from(s, i as int) == 0);
    Some(tot)
}

} // verus!
