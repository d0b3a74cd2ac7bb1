//! Frequency models and structural rules, keyed by encoding id.
//!
//! Every model is an immutable, process-wide table expressed as a pure
//! function from bytes (or byte pairs) to an integer log-likelihood weight,
//! so arbitrarily many detection calls may read it concurrently. Structural
//! validity is purely syntactic: it asks whether the byte stream is
//! well-formed under an encoding's lead/trail rules, never how plausible the
//! letters are. Scores are summed over the analysis window and compared
//! without normalization: all candidates of one call see the same window, so
//! comparing totals is comparing length-normalized averages.
use vstd::prelude::*;

use crate::enums::Encoding;

verus! {

/// Longest prefix, in bytes, that statistical classification looks at.
pub const ANALYSIS_WINDOW: usize = 4096;

/// Weight of a byte in the shared ASCII sub-model: whitespace and
/// alphanumerics are likely in any text, other printable bytes are neutral,
/// and control bytes are strong evidence against text.
pub open spec fn ascii_byte_score(b: u8) -> int {
    if b == 0x09 || b == 0x0a || b == 0x0d || b == 0x20 {
        4
    } else if 0x41 <= b && b <= 0x5a {
        4
    } else if 0x61 <= b && b <= 0x7a {
        4
    } else if 0x30 <= b && b <= 0x39 {
        4
    } else if b < 0x20 {
        -20
    } else {
        2
    }
}

pub(crate) fn ascii_byte_score_x(b: u8) -> (r: i64)
    ensures
        r == ascii_byte_score(b),
{
    if b == 0x09 || b == 0x0a || b == 0x0d || b == 0x20 {
        4
    } else if 0x41 <= b && b <= 0x5a {
        4
    } else if 0x61 <= b && b <= 0x7a {
        4
    } else if 0x30 <= b && b <= 0x39 {
        4
    } else if b < 0x20 {
        -20
    } else {
        2
    }
}

/// Whether a byte may appear at all under a single-byte code page.
pub open spec fn sb_allowed(e: Encoding, b: u8) -> bool {
    if e == Encoding::ASCII_7BIT {
        b < 0x80
    } else if e == Encoding::RUSSIAN_CP1251 {
        b != 0x98
    } else {
        true
    }
}

/// Per-byte weight under a single-byte code page and its dominant language:
/// the Cyrillic letter rows of each page score highest in the rows where the
/// lowercase letters of Russian text actually live.
pub open spec fn sb_score(e: Encoding, b: u8) -> int {
    if e == Encoding::ASCII_7BIT {
        ascii_byte_score(b) + 2
    } else if e == Encoding::ISO_8859_1 {
        if b < 0x80 {
            ascii_byte_score(b)
        } else if 0xc0 <= b {
            5
        } else if 0xa0 <= b {
            1
        } else {
            -15
        }
    } else if e == Encoding::RUSSIAN_CP1251 {
        if b < 0x80 {
            ascii_byte_score(b)
        } else if 0xe0 <= b {
            7
        } else if 0xc0 <= b {
            4
        } else if b == 0xa8 || b == 0xb8 {
            4
        } else if 0xa0 <= b {
            0
        } else {
            -12
        }
    } else if e == Encoding::RUSSIAN_KOI8_R {
        if b < 0x80 {
            ascii_byte_score(b)
        } else if 0xe0 <= b {
            4
        } else if 0xc0 <= b {
            7
        } else if 0xa0 <= b {
            0
        } else {
            -12
        }
    } else {
        0
    }
}

fn sb_allowed_x(e: Encoding, b: u8) -> (r: bool)
    ensures
        r == sb_allowed(e, b),
{
    if e == Encoding::ASCII_7BIT {
        b < 0x80
    } else if e == Encoding::RUSSIAN_CP1251 {
        b != 0x98
    } else {
        true
    }
}

fn sb_score_x(e: Encoding, b: u8) -> (r: i64)
    ensures
        r == sb_score(e, b),
{
    if e == Encoding::ASCII_7BIT {
        ascii_byte_score_x(b) + 2
    } else if e == Encoding::ISO_8859_1 {
        if b < 0x80 {
            ascii_byte_score_x(b)
        } else if 0xc0 <= b {
            5
        } else if 0xa0 <= b {
            1
        } else {
            -15
        }
    } else if e == Encoding::RUSSIAN_CP1251 {
        if b < 0x80 {
            ascii_byte_score_x(b)
        } else if 0xe0 <= b {
            7
        } else if 0xc0 <= b {
            4
        } else if b == 0xa8 || b == 0xb8 {
            4
        } else if 0xa0 <= b {
            0
        } else {
            -12
        }
    } else if e == Encoding::RUSSIAN_KOI8_R {
        if b < 0x80 {
            ascii_byte_score_x(b)
        } else if 0xe0 <= b {
            4
        } else if 0xc0 <= b {
            7
        } else if 0xa0 <= b {
            0
        } else {
            -12
        }
    } else {
        0
    }
}

/// Validity of a whole window under a single-byte code page.
pub open spec fn sb_valid_from(e: Encoding, s: Seq<u8>, i: int) -> bool
    decreases s.len() - i,
{
    if i >= s.len() {
        true
    } else if sb_allowed(e, s[i]) {
        sb_valid_from(e, s, i + 1)
    } else {
        false
    }
}

/// Total weight of a window under a single-byte code page.
pub open spec fn sb_total_from(e: Encoding, s: Seq<u8>, i: int) -> int
    decreases s.len() - i,
{
    if i >= s.len() {
        0
    } else {
        sb_score(e, s[i]) + sb_total_from(e, s, i + 1)
    }
}

/// Lead byte of a two-unit sequence under a double-byte (or escape-paired)
/// encoding.
pub open spec fn pm_lead(e: Encoding, b: u8) -> bool {
    if e == Encoding::CHINESE_GB || e == Encoding::KOREAN_EUC_KR {
        0x81 <= b
    } else if e == Encoding::JAPANESE_SHIFT_JIS {
        (0x81 <= b && b <= 0x9f) || (0xe0 <= b && b <= 0xfc)
    } else if e == Encoding::JAPANESE_JIS {
        b == 0x1b
    } else {
        false
    }
}

/// Legal trail byte after a lead byte.
pub open spec fn pm_trail(e: Encoding, b: u8) -> bool {
    if e == Encoding::CHINESE_GB {
        0x40 <= b && b != 0x7f
    } else if e == Encoding::KOREAN_EUC_KR {
        (0x41 <= b && b <= 0x5a) || (0x61 <= b && b <= 0x7a) || 0x81 <= b
    } else if e == Encoding::JAPANESE_SHIFT_JIS {
        0x40 <= b && b <= 0xfc && b != 0x7f
    } else if e == Encoding::JAPANESE_JIS {
        b == 0x24 || b == 0x28
    } else {
        false
    }
}

/// Weight of a complete lead/trail pair: the rows where the common letters
/// of the model's language live score highest.
pub open spec fn pm_pair_score(e: Encoding, l: u8, t: u8) -> int {
    if e == Encoding::CHINESE_GB {
        if 0xb0 <= l && l <= 0xf7 && 0xa1 <= t {
            if 0xc9 <= l {
                18
            } else {
                13
            }
        } else if 0xa1 <= l && l <= 0xa9 && 0xa1 <= t {
            8
        } else {
            2
        }
    } else if e == Encoding::KOREAN_EUC_KR {
        if 0xb0 <= l && l <= 0xc8 && 0xa1 <= t {
            18
        } else if 0xa1 <= l && l <= 0xaf && 0xa1 <= t {
            6
        } else if 0xca <= l && 0xa1 <= t {
            4
        } else {
            2
        }
    } else if e == Encoding::JAPANESE_SHIFT_JIS {
        if l == 0x82 {
            18
        } else if l == 0x83 {
            16
        } else if l == 0x81 {
            12
        } else if 0x88 <= l && l <= 0x9f {
            14
        } else if 0xe0 <= l && l <= 0xea {
            12
        } else {
            2
        }
    } else if e == Encoding::JAPANESE_JIS {
        300
    } else {
        0
    }
}

/// Bytes that may stand alone between pairs.
pub open spec fn pm_single_ok(e: Encoding, b: u8) -> bool {
    if e == Encoding::JAPANESE_SHIFT_JIS {
        b < 0x80 || (0xa1 <= b && b <= 0xdf)
    } else {
        b < 0x80
    }
}

/// Weight of a stand-alone byte.
pub open spec fn pm_single_score(e: Encoding, b: u8) -> int {
    if e == Encoding::JAPANESE_SHIFT_JIS {
        if b < 0x80 {
            ascii_byte_score(b)
        } else {
            6
        }
    } else if e == Encoding::JAPANESE_JIS {
        ascii_byte_score(b) + 1
    } else {
        ascii_byte_score(b)
    }
}

fn pm_lead_x(e: Encoding, b: u8) -> (r: bool)
    ensures
        r == pm_lead(e, b),
{
    if e == Encoding::CHINESE_GB || e == Encoding::KOREAN_EUC_KR {
        0x81 <= b
    } else if e == Encoding::JAPANESE_SHIFT_JIS {
        (0x81 <= b && b <= 0x9f) || (0xe0 <= b && b <= 0xfc)
    } else if e == Encoding::JAPANESE_JIS {
        b == 0x1b
    } else {
        false
    }
}

fn pm_trail_x(e: Encoding, b: u8) -> (r: bool)
    ensures
        r == pm_trail(e, b),
{
    if e == Encoding::CHINESE_GB {
        0x40 <= b && b != 0x7f
    } else if e == Encoding::KOREAN_EUC_KR {
        (0x41 <= b && b <= 0x5a) || (0x61 <= b && b <= 0x7a) || 0x81 <= b
    } else if e == Encoding::JAPANESE_SHIFT_JIS {
        0x40 <= b && b <= 0xfc && b != 0x7f
    } else if e == Encoding::JAPANESE_JIS {
        b == 0x24 || b == 0x28
    } else {
        false
    }
}

fn pm_pair_score_x(e: Encoding, l: u8, t: u8) -> (r: i64)
    ensures
        r == pm_pair_score(e, l, t),
{
    if e == Encoding::CHINESE_GB {
        if 0xb0 <= l && l <= 0xf7 && 0xa1 <= t {
            if 0xc9 <= l {
                18
            } else {
                13
            }
        } else if 0xa1 <= l && l <= 0xa9 && 0xa1 <= t {
            8
        } else {
            2
        }
    } else if e == Encoding::KOREAN_EUC_KR {
        if 0xb0 <= l && l <= 0xc8 && 0xa1 <= t {
            18
        } else if 0xa1 <= l && l <= 0xaf && 0xa1 <= t {
            6
        } else if 0xca <= l && 0xa1 <= t {
            4
        } else {
            2
        }
    } else if e == Encoding::JAPANESE_SHIFT_JIS {
        if l == 0x82 {
            18
        } else if l == 0x83 {
            16
        } else if l == 0x81 {
            12
        } else if 0x88 <= l && l <= 0x9f {
            14
        } else if 0xe0 <= l && l <= 0xea {
            12
        } else {
            2
        }
    } else if e == Encoding::JAPANESE_JIS {
        300
    } else {
        0
    }
}

fn pm_single_ok_x(e: Encoding, b: u8) -> (r: bool)
    ensures
        r == pm_single_ok(e, b),
{
    if e == Encoding::JAPANESE_SHIFT_JIS {
        b < 0x80 || (0xa1 <= b && b <= 0xdf)
    } else {
        b < 0x80
    }
}

fn pm_single_score_x(e: Encoding, b: u8) -> (r: i64)
    ensures
        r == pm_single_score(e, b),
{
    if e == Encoding::JAPANESE_SHIFT_JIS {
        if b < 0x80 {
            ascii_byte_score_x(b)
        } else {
            6
        }
    } else if e == Encoding::JAPANESE_JIS {
        ascii_byte_score_x(b) + 1
    } else {
        ascii_byte_score_x(b)
    }
}

/// Structural validity of a window under a paired encoding: a lead byte must
/// be followed by a legal trail byte; a lead cut off by the window end is
/// tolerated, since the window may split a character.
pub open spec fn pm_valid_from(e: Encoding, s: Seq<u8>, i: int) -> bool
    decreases s.len() - i,
{
    if i >= s.len() {
        true
    } else if pm_lead(e, s[i]) {
        if i + 1 >= s.len() {
            true
        } else if pm_trail(e, s[i + 1]) {
            pm_valid_from(e, s, i + 2)
        } else {
            false
        }
    } else if pm_single_ok(e, s[i]) {
        pm_valid_from(e, s, i + 1)
    } else {
        false
    }
}

/// Total weight of a window under a paired encoding; meaningful only where
/// `pm_valid_from` holds.
pub open spec fn pm_total_from(e: Encoding, s: Seq<u8>, i: int) -> int
    decreases s.len() - i,
{
    if i >= s.len() {
        0
    } else if pm_lead(e, s[i]) {
        if i + 1 >= s.len() {
            0
        } else if pm_trail(e, s[i + 1]) {
            pm_pair_score(e, s[i], s[i + 1]) + pm_total_from(e, s, i + 2)
        } else {
            0
        }
    } else if pm_single_ok(e, s[i]) {
        pm_single_score(e, s[i]) + pm_total_from(e, s, i + 1)
    } else {
        0
    }
}

/// Scans a window under a single-byte code page: `None` if some byte is not
/// legal there, else the model's total weight.
pub fn sb_scan(e: Encoding, bytes: &[u8], w: usize) -> (r: Option<i64>)
    requires
        w <= bytes@.len(),
        w <= ANALYSIS_WINDOW,
    ensures
        r is Some <==> sb_valid_from(e, bytes@.take(w as int), 0),
        r is Some ==> r->0 == sb_total_from(e, bytes@.take(w as int), 0),
        r is Some ==> -20 * (w as int) <= r->0 <= 300 * (w as int),
{
    let ghost s = bytes@.take(w as int);
    let mut i: usize = 0;
    let mut tot: i64 = 0;
    while i < w
        invariant
            0 <= i <= w,
            w <= bytes@.len(),
            w <= ANALYSIS_WINDOW,
            s == bytes@.take(w as int),
            sb_valid_from(e, s, 0) <==> sb_valid_from(e, s, i as int),
            sb_valid_from(e, s, i as int) ==> sb_total_from(e, s, 0) == tot + sb_total_from(
                e,
                s,
                i as int,
            ),
            -20 * (i as int) <= tot <= 8 * (i as int),
        decreases w - i,
    {
        let b = bytes[i];
        assert(s[i as int] == b);
        if !sb_allowed_x(e, b) {
            assert(!sb_valid_from(e, s, i as int));
            return None;
        }
        tot = tot + sb_score_x(e, b);
        i = i + 1;
    }
    assert(sb_valid_from(e, s, i as int));
    assert(sb_total_from(e, s, i as int) == 0);
    Some(tot)
}

/// Scans a window under a paired encoding: `None` if the window is not
/// structurally well-formed, else the model's total weight.
pub fn pm_scan(e: Encoding, bytes: &[u8], w: usize) -> (r: Option<i64>)
    requires
        w <= bytes@.len(),
        w <= ANALYSIS_WINDOW,
    ensures
        r is Some <==> pm_valid_from(e, bytes@.take(w as int), 0),
        r is Some ==> r->0 == pm_total_from(e, bytes@.take(w as int), 0),
        r is Some ==> -20 * (w as int) <= r->0 <= 300 * (w as int),
{
    let ghost s = bytes@.take(w as int);
    let mut i: usize = 0;
    let mut tot: i64 = 0;
    while i < w
        invariant
            0 <= i <= w,
            w <= bytes@.len(),
            w <= ANALYSIS_WINDOW,
            s == bytes@.take(w as int),
            pm_valid_from(e, s, 0) <==> pm_valid_from(e, s, i as int),
            pm_valid_from(e, s, i as int) ==> pm_total_from(e, s, 0) == tot + pm_total_from(
                e,
                s,
                i as int,
            ),
            -20 * (i as int) <= tot <= 300 * (i as int),
        decreases w - i,
    {
        let b = bytes[i];
        assert(s[i as int] == b);
        if pm_lead_x(e, b) {
            if i + 1 >= w {
                assert(pm_valid_from(e, s, i as int));
                assert(pm_total_from(e, s, i as int) == 0);
                i = w;
            } else {
                let t = bytes[i + 1];
                assert(s[(i + 1) as int] == t);
                if pm_trail_x(e, t) {
                    tot = tot + pm_pair_score_x(e, b, t);
                    i = i + 2;
                } else {
                    assert(!pm_valid_from(e, s, i as int));
                    return None;
                }
            }
        } else if pm_single_ok_x(e, b) {
            tot = tot + pm_single_score_x(e, b);
            i = i + 1;
        } else {
            assert(!pm_valid_from(e, s, i as int));
            return None;
        }
    }
    assert(pm_valid_from(e, s, i as int));
    assert(pm_total_from(e, s, i as int) == 0);
    Some(tot)
}

} // verus!
