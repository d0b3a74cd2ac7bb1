//! Signature scanning: byte-order marks and binary-content sniffing.
//!
//! Both checks look only at a small fixed prefix of the input. A recognized
//! BOM is authoritative and short-circuits classification; a prefix dense in
//! control bytes that no text encoding uses marks the buffer as binary,
//! which is itself a confident classification even though it is "not text".
use vstd::prelude::*;

use crate::enums::Encoding;

verus! {

/// Bytes of the prefix the binary sniff examines.
pub const BINARY_SNIFF_PREFIX: usize = 64;

/// A control byte that no common text encoding produces: anything below
/// 0x20 except tab, line feed, vertical tab, form feed, carriage return and
/// escape, and the delete byte.
pub open spec fn wild_control(b: u8) -> bool {
    (b < 0x20 && !(b == 0x09 || b == 0x0a || b == 0x0b || b == 0x0c || b == 0x0d || b == 0x1b))
        || b == 0x7f
}

fn wild_control_x(b: u8) -> (r: bool)
    ensures
        r == wild_control(b),
{
    (b < 0x20 && !(b == 0x09 || b == 0x0a || b == 0x0b || b == 0x0c || b == 0x0d || b == 0x1b))
        || b == 0x7f
}

/// Number of wild control bytes in `s` between `i` and `end`.
pub open spec fn wild_count_from(s: Seq<u8>, i: int, end: int) -> int
    decreases end - i,
{
    if i >= end || i >= s.len() {
        0
    } else if wild_control(s[i]) {
        1 + wild_count_from(s, i + 1, end)
    } else {
        wild_count_from(s, i + 1, end)
    }
}

/// The buffer reads as binary content: at least a quarter of the sniffed
/// prefix is wild control bytes.
pub open spec fn spec_binary(s: Seq<u8>) -> bool {
    let p = if s.len() > BINARY_SNIFF_PREFIX { BINARY_SNIFF_PREFIX as int } else { s.len() as int };
    s.len() > 0 && 4 * wild_count_from(s, 0, p) >= p
}

/// Exec mirror of [`spec_binary`].
pub fn is_binary(bytes: &[u8]) -> (r: bool)
    ensures
        r == spec_binary(bytes@),
{
    let n = bytes.len();
    if n == 0 {
        return false;
    }
    let p: usize = if n > BINARY_SNIFF_PREFIX {
        BINARY_SNIFF_PREFIX
    } else {
        n
    };
    let mut i: usize = 0;
    let mut count: u64 = 0;
    while i < p
        invariant
            0 <= i <= p,
            p <= bytes@.len(),
            p <= BINARY_SNIFF_PREFIX,
            count <= i,
            count + wild_count_from(bytes@, i as int, p as int) == wild_count_from(
                bytes@,
                0,
                p as int,
            ),
        decreases p - i,
    {
        if wild_control_x(bytes[i]) {
            count = count + 1;
        }
        i = i + 1;
    }
    assert(wild_count_from(bytes@, p as int, p as int) == 0);
    4 * count >= p as u64
}

/// The byte-order mark at the head of the buffer, if any, with its length.
/// The four-byte marks are tested before the two-byte marks they extend.
pub open spec fn spec_bom(s: Seq<u8>) -> Option<(Encoding, int)> {
    if s.len() >= 4 && s[0] == 0xff && s[1] == 0xfe && s[2] == 0x00 && s[3] == 0x00 {
        Some((Encoding::UTF32LE, 4))
    } else if s.len() >= 4 && s[0] == 0x00 && s[1] == 0x00 && s[2] == 0xfe && s[3] == 0xff {
        Some((Encoding::UTF32BE, 4))
    } else if s.len() >= 3 && s[0] == 0xef && s[1] == 0xbb && s[2] == 0xbf {
        Some((Encoding::UTF8, 3))
    } else if s.len() >= 2 && s[0] == 0xff && s[1] == 0xfe {
        Some((Encoding::UTF16LE, 2))
    } else if s.len() >= 2 && s[0] == 0xfe && s[1] == 0xff {
        Some((Encoding::UTF16BE, 2))
    } else {
        None
    }
}

/// Exec mirror of [`spec_bom`].
pub fn find_bom(bytes: &[u8]) -> (r: Option<(Encoding, usize)>)
    ensures
        r is Some <==> spec_bom(bytes@) is Some,
        r is Some ==> ({
            let found = r->0;
            let want = spec_bom(bytes@)->0;
            found.0 == want.0 && found.1 as int == want.1
        }),
{
    let n = bytes.len();
    if n >= 4 && bytes[0] == 0xff && bytes[1] == 0xfe && bytes[2] == 0x00 && bytes[3] == 0x00 {
        Some((Encoding::UTF32LE, 4))
    } else if n >= 4 && bytes[0] == 0x00 && bytes[1] == 0x00 && bytes[2] == 0xfe && bytes[3]
        == 0xff {
        Some((Encoding::UTF32BE, 4))
    } else if n >= 3 && bytes[0] == 0xef && bytes[1] == 0xbb && bytes[2] == 0xbf {
        Some((Encoding::UTF8, 3))
    } else if n >= 2 && bytes[0] == 0xff && bytes[1] == 0xfe {
        Some((Encoding::UTF16LE, 2))
    } else if n >= 2 && bytes[0] == 0xfe && bytes[1] == 0xff {
        Some((Encoding::UTF16BE, 2))
    } else {
        None
    }
}

} // verus!
