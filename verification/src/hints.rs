//! Hint resolution: normalizing caller-supplied charset name strings.
//!
//! Charset names arriving from a URL, an HTTP header or a meta tag are
//! matched case-insensitively against a table of known aliases and mapped to
//! an internal encoding id; unrecognized names are silently dropped, never
//! treated as errors.
use vstd::prelude::*;

use crate::enums::Encoding;
use vstd::string::StringSliceAdditionalSpecFns;

verus! {

/// ASCII lowercase of a byte.
pub open spec fn lower_byte(b: u8) -> u8 {
    if 0x41 <= b && b <= 0x5a {
        (b + 0x20) as u8
    } else {
        b
    }
}

fn lower_byte_x(b: u8) -> (r: u8)
    ensures
        r == lower_byte(b),
{
    if 0x41 <= b && b <= 0x5a {
        b + 0x20
    } else {
        b
    }
}

/// The encoding a charset name string stands for, compared without regard
/// to ASCII case; `None` for anything the alias table does not know.
pub open spec fn spec_charset_hint(s: Seq<u8>) -> Option<Encoding> {
    if s.len() == 5 && lower_byte(s[0]) == 0x75 && lower_byte(s[1]) == 0x74 && lower_byte(s[2]) == 0x66 && lower_byte(s[3]) == 0x2d && lower_byte(s[4]) == 0x38 {
        Some(Encoding::UTF8)
    } else if s.len() == 4 && lower_byte(s[0]) == 0x75 && lower_byte(s[1]) == 0x74 && lower_byte(s[2]) == 0x66 && lower_byte(s[3]) == 0x38 {
        Some(Encoding::UTF8)
    } else if s.len() == 8 && lower_byte(s[0]) == 0x75 && lower_byte(s[1]) == 0x73 && lower_byte(s[2]) == 0x2d && lower_byte(s[3]) == 0x61 && lower_byte(s[4]) == 0x73 && lower_byte(s[5]) == 0x63 && lower_byte(s[6]) == 0x69 && lower_byte(s[7]) == 0x69 {
        Some(Encoding::ASCII_7BIT)
    } else if s.len() == 5 && lower_byte(s[0]) == 0x61 && lower_byte(s[1]) == 0x73 && lower_byte(s[2]) == 0x63 && lower_byte(s[3]) == 0x69 && lower_byte(s[4]) == 0x69 {
        Some(Encoding::ASCII_7BIT)
    } else if s.len() == 10 && lower_byte(s[0]) == 0x69 && lower_byte(s[1]) == 0x73 && lower_byte(s[2]) == 0x6f && lower_byte(s[3]) == 0x2d && lower_byte(s[4]) == 0x38 && lower_byte(s[5]) == 0x38 && lower_byte(s[6]) == 0x35 && lower_byte(s[7]) == 0x39 && lower_byte(s[8]) == 0x2d && lower_byte(s[9]) == 0x31 {
        Some(Encoding::ISO_8859_1)
    } else if s.len() == 6 && lower_byte(s[0]) == 0x6c && lower_byte(s[1]) == 0x61 && lower_byte(s[2]) == 0x74 && lower_byte(s[3]) == 0x69 && lower_byte(s[4]) == 0x6e && lower_byte(s[5]) == 0x31 {
        Some(Encoding::ISO_8859_1)
    } else if s.len() == 7 && lower_byte(s[0]) == 0x6c && lower_byte(s[1]) == 0x61 && lower_byte(s[2]) == 0x74 && lower_byte(s[3]) == 0x69 && lower_byte(s[4]) == 0x6e && lower_byte(s[5]) == 0x2d && lower_byte(s[6]) == 0x31 {
        Some(Encoding::ISO_8859_1)
    } else if s.len() == 12 && lower_byte(s[0]) == 0x77 && lower_byte(s[1]) == 0x69 && lower_byte(s[2]) == 0x6e && lower_byte(s[3]) == 0x64 && lower_byte(s[4]) == 0x6f && lower_byte(s[5]) == 0x77 && lower_byte(s[6]) == 0x73 && lower_byte(s[7]) == 0x2d && lower_byte(s[8]) == 0x31 && lower_byte(s[9]) == 0x32 && lower_byte(s[10]) == 0x35 && lower_byte(s[11]) == 0x32 {
        Some(Encoding::ISO_8859_1)
    } else if s.len() == 6 && lower_byte(s[0]) == 0x63 && lower_byte(s[1]) == 0x70 && lower_byte(s[2]) == 0x31 && lower_byte(s[3]) == 0x32 && lower_byte(s[4]) == 0x35 && lower_byte(s[5]) == 0x32 {
        Some(Encoding::ISO_8859_1)
    } else if s.len() == 6 && lower_byte(s[0]) == 0x67 && lower_byte(s[1]) == 0x62 && lower_byte(s[2]) == 0x32 && lower_byte(s[3]) == 0x33 && lower_byte(s[4]) == 0x31 && lower_byte(s[5]) == 0x32 {
        Some(Encoding::CHINESE_GB)
    } else if s.len() == 3 && lower_byte(s[0]) == 0x67 && lower_byte(s[1]) == 0x62 && lower_byte(s[2]) == 0x6b {
        Some(Encoding::CHINESE_GB)
    } else if s.len() == 7 && lower_byte(s[0]) == 0x67 && lower_byte(s[1]) == 0x62 && lower_byte(s[2]) == 0x31 && lower_byte(s[3]) == 0x38 && lower_byte(s[4]) == 0x30 && lower_byte(s[5]) == 0x33 && lower_byte(s[6]) == 0x30 {
        Some(Encoding::CHINESE_GB)
    } else if s.len() == 5 && lower_byte(s[0]) == 0x78 && lower_byte(s[1]) == 0x2d && lower_byte(s[2]) == 0x67 && lower_byte(s[3]) == 0x62 && lower_byte(s[4]) == 0x6b {
        Some(Encoding::CHINESE_GB)
    } else if s.len() == 9 && lower_byte(s[0]) == 0x73 && lower_byte(s[1]) == 0x68 && lower_byte(s[2]) == 0x69 && lower_byte(s[3]) == 0x66 && lower_byte(s[4]) == 0x74 && lower_byte(s[5]) == 0x5f && lower_byte(s[6]) == 0x6a && lower_byte(s[7]) == 0x69 && lower_byte(s[8]) == 0x73 {
        Some(Encoding::JAPANESE_SHIFT_JIS)
    } else if s.len() == 9 && lower_byte(s[0]) == 0x73 && lower_byte(s[1]) == 0x68 && lower_byte(s[2]) == 0x69 && lower_byte(s[3]) == 0x66 && lower_byte(s[4]) == 0x74 && lower_byte(s[5]) == 0x2d && lower_byte(s[6]) == 0x6a && lower_byte(s[7]) == 0x69 && lower_byte(s[8]) == 0x73 {
        Some(Encoding::JAPANESE_SHIFT_JIS)
    } else if s.len() == 4 && lower_byte(s[0]) == 0x73 && lower_byte(s[1]) == 0x6a && lower_byte(s[2]) == 0x69 && lower_byte(s[3]) == 0x73 {
        Some(Encoding::JAPANESE_SHIFT_JIS)
    } else if s.len() == 6 && lower_byte(s[0]) == 0x78 && lower_byte(s[1]) == 0x2d && lower_byte(s[2]) == 0x73 && lower_byte(s[3]) == 0x6a && lower_byte(s[4]) == 0x69 && lower_byte(s[5]) == 0x73 {
        Some(Encoding::JAPANESE_SHIFT_JIS)
    } else if s.len() == 8 && lower_byte(s[0]) == 0x6d && lower_byte(s[1]) == 0x73 && lower_byte(s[2]) == 0x5f && lower_byte(s[3]) == 0x6b && lower_byte(s[4]) == 0x61 && lower_byte(s[5]) == 0x6e && lower_byte(s[6]) == 0x6a && lower_byte(s[7]) == 0x69 {
        Some(Encoding::JAPANESE_SHIFT_JIS)
    } else if s.len() == 6 && lower_byte(s[0]) == 0x65 && lower_byte(s[1]) == 0x75 && lower_byte(s[2]) == 0x63 && lower_byte(s[3]) == 0x2d && lower_byte(s[4]) == 0x6b && lower_byte(s[5]) == 0x72 {
        Some(Encoding::KOREAN_EUC_KR)
    } else if s.len() == 5 && lower_byte(s[0]) == 0x65 && lower_byte(s[1]) == 0x75 && lower_byte(s[2]) == 0x63 && lower_byte(s[3]) == 0x6b && lower_byte(s[4]) == 0x72 {
        Some(Encoding::KOREAN_EUC_KR)
    } else if s.len() == 14 && lower_byte(s[0]) == 0x6b && lower_byte(s[1]) == 0x73 && lower_byte(s[2]) == 0x5f && lower_byte(s[3]) == 0x63 && lower_byte(s[4]) == 0x5f && lower_byte(s[5]) == 0x35 && lower_byte(s[6]) == 0x36 && lower_byte(s[7]) == 0x30 && lower_byte(s[8]) == 0x31 && lower_byte(s[9]) == 0x2d && lower_byte(s[10]) == 0x31 && lower_byte(s[11]) == 0x39 && lower_byte(s[12]) == 0x38 && lower_byte(s[13]) == 0x37 {
        Some(Encoding::KOREAN_EUC_KR)
    } else if s.len() == 12 && lower_byte(s[0]) == 0x77 && lower_byte(s[1]) == 0x69 && lower_byte(s[2]) == 0x6e && lower_byte(s[3]) == 0x64 && lower_byte(s[4]) == 0x6f && lower_byte(s[5]) == 0x77 && lower_byte(s[6]) == 0x73 && lower_byte(s[7]) == 0x2d && lower_byte(s[8]) == 0x31 && lower_byte(s[9]) == 0x32 && lower_byte(s[10]) == 0x35 && lower_byte(s[11]) == 0x31 {
        Some(Encoding::RUSSIAN_CP1251)
    } else if s.len() == 6 && lower_byte(s[0]) == 0x63 && lower_byte(s[1]) == 0x70 && lower_byte(s[2]) == 0x31 && lower_byte(s[3]) == 0x32 && lower_byte(s[4]) == 0x35 && lower_byte(s[5]) == 0x31 {
        Some(Encoding::RUSSIAN_CP1251)
    } else if s.len() == 8 && lower_byte(s[0]) == 0x78 && lower_byte(s[1]) == 0x2d && lower_byte(s[2]) == 0x63 && lower_byte(s[3]) == 0x70 && lower_byte(s[4]) == 0x31 && lower_byte(s[5]) == 0x32 && lower_byte(s[6]) == 0x35 && lower_byte(s[7]) == 0x31 {
        Some(Encoding::RUSSIAN_CP1251)
    } else if s.len() == 6 && lower_byte(s[0]) == 0x6b && lower_byte(s[1]) == 0x6f && lower_byte(s[2]) == 0x69 && lower_byte(s[3]) == 0x38 && lower_byte(s[4]) == 0x2d && lower_byte(s[5]) == 0x72 {
        Some(Encoding::RUSSIAN_KOI8_R)
    } else if s.len() == 5 && lower_byte(s[0]) == 0x6b && lower_byte(s[1]) == 0x6f && lower_byte(s[2]) == 0x69 && lower_byte(s[3]) == 0x38 && lower_byte(s[4]) == 0x72 {
        Some(Encoding::RUSSIAN_KOI8_R)
    } else if s.len() == 11 && lower_byte(s[0]) == 0x69 && lower_byte(s[1]) == 0x73 && lower_byte(s[2]) == 0x6f && lower_byte(s[3]) == 0x2d && lower_byte(s[4]) == 0x32 && lower_byte(s[5]) == 0x30 && lower_byte(s[6]) == 0x32 && lower_byte(s[7]) == 0x32 && lower_byte(s[8]) == 0x2d && lower_byte(s[9]) == 0x6a && lower_byte(s[10]) == 0x70 {
        Some(Encoding::JAPANESE_JIS)
    } else {
        None
    }
}

/// Exec mirror of [`spec_charset_hint`] on a raw name string.
pub fn charset_hint(s: &str) -> (r: Option<Encoding>)
    ensures
        r == spec_charset_hint(s.spec_bytes()),
{
    let b = s.as_bytes();
    if b.len() == 5 && lower_byte_x(b[0]) == 0x75 && lower_byte_x(b[1]) == 0x74 && lower_byte_x(b[2]) == 0x66 && lower_byte_x(b[3]) == 0x2d && lower_byte_x(b[4]) == 0x38 {
        Some(Encoding::UTF8)
    } else if b.len() == 4 && lower_byte_x(b[0]) == 0x75 && lower_byte_x(b[1]) == 0x74 && lower_byte_x(b[2]) == 0x66 && lower_byte_x(b[3]) == 0x38 {
        Some(Encoding::UTF8)
    } else if b.len() == 8 && lower_byte_x(b[0]) == 0x75 && lower_byte_x(b[1]) == 0x73 && lower_byte_x(b[2]) == 0x2d && lower_byte_x(b[3]) == 0x61 && lower_byte_x(b[4]) == 0x73 && lower_byte_x(b[5]) == 0x63 && lower_byte_x(b[6]) == 0x69 && lower_byte_x(b[7]) == 0x69 {
        Some(Encoding::ASCII_7BIT)
    } else if b.len() == 5 && lower_byte_x(b[0]) == 0x61 && lower_byte_x(b[1]) == 0x73 && lower_byte_x(b[2]) == 0x63 && lower_byte_x(b[3]) == 0x69 && lower_byte_x(b[4]) == 0x69 {
        Some(Encoding::ASCII_7BIT)
    } else if b.len() == 10 && lower_byte_x(b[0]) == 0x69 && lower_byte_x(b[1]) == 0x73 && lower_byte_x(b[2]) == 0x6f && lower_byte_x(b[3]) == 0x2d && lower_byte_x(b[4]) == 0x38 && lower_byte_x(b[5]) == 0x38 && lower_byte_x(b[6]) == 0x35 && lower_byte_x(b[7]) == 0x39 && lower_byte_x(b[8]) == 0x2d && lower_byte_x(b[9]) == 0x31 {
        Some(Encoding::ISO_8859_1)
    } else if b.len() == 6 && lower_byte_x(b[0]) == 0x6c && lower_byte_x(b[1]) == 0x61 && lower_byte_x(b[2]) == 0x74 && lower_byte_x(b[3]) == 0x69 && lower_byte_x(b[4]) == 0x6e && lower_byte_x(b[5]) == 0x31 {
        Some(Encoding::ISO_8859_1)
    } else if b.len() == 7 && lower_byte_x(b[0]) == 0x6c && lower_byte_x(b[1]) == 0x61 && lower_byte_x(b[2]) == 0x74 && lower_byte_x(b[3]) == 0x69 && lower_byte_x(b[4]) == 0x6e && lower_byte_x(b[5]) == 0x2d && lower_byte_x(b[6]) == 0x31 {
        Some(Encoding::ISO_8859_1)
    } else if b.len() == 12 && lower_byte_x(b[0]) == 0x77 && lower_byte_x(b[1]) == 0x69 && lower_byte_x(b[2]) == 0x6e && lower_byte_x(b[3]) == 0x64 && lower_byte_x(b[4]) == 0x6f && lower_byte_x(b[5]) == 0x77 && lower_byte_x(b[6]) == 0x73 && lower_byte_x(b[7]) == 0x2d && lower_byte_x(b[8]) == 0x31 && lower_byte_x(b[9]) == 0x32 && lower_byte_x(b[10]) == 0x35 && lower_byte_x(b[11]) == 0x32 {
        Some(Encoding::ISO_8859_1)
    } else if b.len() == 6 && lower_byte_x(b[0]) == 0x63 && lower_byte_x(b[1]) == 0x70 && lower_byte_x(b[2]) == 0x31 && lower_byte_x(b[3]) == 0x32 && lower_byte_x(b[4]) == 0x35 && lower_byte_x(b[5]) == 0x32 {
        Some(Encoding::ISO_8859_1)
    } else if b.len() == 6 && lower_byte_x(b[0]) == 0x67 && lower_byte_x(b[1]) == 0x62 && lower_byte_x(b[2]) == 0x32 && lower_byte_x(b[3]) == 0x33 && lower_byte_x(b[4]) == 0x31 && lower_byte_x(b[5]) == 0x32 {
        Some(Encoding::CHINESE_GB)
    } else if b.len() == 3 && lower_byte_x(b[0]) == 0x67 && lower_byte_x(b[1]) == 0x62 && lower_byte_x(b[2]) == 0x6b {
        Some(Encoding::CHINESE_GB)
    } else if b.len() == 7 && lower_byte_x(b[0]) == 0x67 && lower_byte_x(b[1]) == 0x62 && lower_byte_x(b[2]) == 0x31 && lower_byte_x(b[3]) == 0x38 && lower_byte_x(b[4]) == 0x30 && lower_byte_x(b[5]) == 0x33 && lower_byte_x(b[6]) == 0x30 {
        Some(Encoding::CHINESE_GB)
    } else if b.len() == 5 && lower_byte_x(b[0]) == 0x78 && lower_byte_x(b[1]) == 0x2d && lower_byte_x(b[2]) == 0x67 && lower_byte_x(b[3]) == 0x62 && lower_byte_x(b[4]) == 0x6b {
        Some(Encoding::CHINESE_GB)
    } else if b.len() == 9 && lower_byte_x(b[0]) == 0x73 && lower_byte_x(b[1]) == 0x68 && lower_byte_x(b[2]) == 0x69 && lower_byte_x(b[3]) == 0x66 && lower_byte_x(b[4]) == 0x74 && lower_byte_x(b[5]) == 0x5f && lower_byte_x(b[6]) == 0x6a && lower_byte_x(b[7]) == 0x69 && lower_byte_x(b[8]) == 0x73 {
        Some(Encoding::JAPANESE_SHIFT_JIS)
    } else if b.len() == 9 && lower_byte_x(b[0]) == 0x73 && lower_byte_x(b[1]) == 0x68 && lower_byte_x(b[2]) == 0x69 && lower_byte_x(b[3]) == 0x66 && lower_byte_x(b[4]) == 0x74 && lower_byte_x(b[5]) == 0x2d && lower_byte_x(b[6]) == 0x6a && lower_byte_x(b[7]) == 0x69 && lower_byte_x(b[8]) == 0x73 {
        Some(Encoding::JAPANESE_SHIFT_JIS)
    } else if b.len() == 4 && lower_byte_x(b[0]) == 0x73 && lower_byte_x(b[1]) == 0x6a && lower_byte_x(b[2]) == 0x69 && lower_byte_x(b[3]) == 0x73 {
        Some(Encoding::JAPANESE_SHIFT_JIS)
    } else if b.len() == 6 && lower_byte_x(b[0]) == 0x78 && lower_byte_x(b[1]) == 0x2d && lower_byte_x(b[2]) == 0x73 && lower_byte_x(b[3]) == 0x6a && lower_byte_x(b[4]) == 0x69 && lower_byte_x(b[5]) == 0x73 {
        Some(Encoding::JAPANESE_SHIFT_JIS)
    } else if b.len() == 8 && lower_byte_x(b[0]) == 0x6d && lower_byte_x(b[1]) == 0x73 && lower_byte_x(b[2]) == 0x5f && lower_byte_x(b[3]) == 0x6b && lower_byte_x(b[4]) == 0x61 && lower_byte_x(b[5]) == 0x6e && lower_byte_x(b[6]) == 0x6a && lower_byte_x(b[7]) == 0x69 {
        Some(Encoding::JAPANESE_SHIFT_JIS)
    } else if b.len() == 6 && lower_byte_x(b[0]) == 0x65 && lower_byte_x(b[1]) == 0x75 && lower_byte_x(b[2]) == 0x63 && lower_byte_x(b[3]) == 0x2d && lower_byte_x(b[4]) == 0x6b && lower_byte_x(b[5]) == 0x72 {
        Some(Encoding::KOREAN_EUC_KR)
    } else if b.len() == 5 && lower_byte_x(b[0]) == 0x65 && lower_byte_x(b[1]) == 0x75 && lower_byte_x(b[2]) == 0x63 && lower_byte_x(b[3]) == 0x6b && lower_byte_x(b[4]) == 0x72 {
        Some(Encoding::KOREAN_EUC_KR)
    } else if b.len() == 14 && lower_byte_x(b[0]) == 0x6b && lower_byte_x(b[1]) == 0x73 && lower_byte_x(b[2]) == 0x5f && lower_byte_x(b[3]) == 0x63 && lower_byte_x(b[4]) == 0x5f && lower_byte_x(b[5]) == 0x35 && lower_byte_x(b[6]) == 0x36 && lower_byte_x(b[7]) == 0x30 && lower_byte_x(b[8]) == 0x31 && lower_byte_x(b[9]) == 0x2d && lower_byte_x(b[10]) == 0x31 && lower_byte_x(b[11]) == 0x39 && lower_byte_x(b[12]) == 0x38 && lower_byte_x(b[13]) == 0x37 {
        Some(Encoding::KOREAN_EUC_KR)
    } else if b.len() == 12 && lower_byte_x(b[0]) == 0x77 && lower_byte_x(b[1]) == 0x69 && lower_byte_x(b[2]) == 0x6e && lower_byte_x(b[3]) == 0x64 && lower_byte_x(b[4]) == 0x6f && lower_byte_x(b[5]) == 0x77 && lower_byte_x(b[6]) == 0x73 && lower_byte_x(b[7]) == 0x2d && lower_byte_x(b[8]) == 0x31 && lower_byte_x(b[9]) == 0x32 && lower_byte_x(b[10]) == 0x35 && lower_byte_x(b[11]) == 0x31 {
        Some(Encoding::RUSSIAN_CP1251)
    } else if b.len() == 6 && lower_byte_x(b[0]) == 0x63 && lower_byte_x(b[1]) == 0x70 && lower_byte_x(b[2]) == 0x31 && lower_byte_x(b[3]) == 0x32 && lower_byte_x(b[4]) == 0x35 && lower_byte_x(b[5]) == 0x31 {
        Some(Encoding::RUSSIAN_CP1251)
    } else if b.len() == 8 && lower_byte_x(b[0]) == 0x78 && lower_byte_x(b[1]) == 0x2d && lower_byte_x(b[2]) == 0x63 && lower_byte_x(b[3]) == 0x70 && lower_byte_x(b[4]) == 0x31 && lower_byte_x(b[5]) == 0x32 && lower_byte_x(b[6]) == 0x35 && lower_byte_x(b[7]) == 0x31 {
        Some(Encoding::RUSSIAN_CP1251)
    } else if b.len() == 6 && lower_byte_x(b[0]) == 0x6b && lower_byte_x(b[1]) == 0x6f && lower_byte_x(b[2]) == 0x69 && lower_byte_x(b[3]) == 0x38 && lower_byte_x(b[4]) == 0x2d && lower_byte_x(b[5]) == 0x72 {
        Some(Encoding::RUSSIAN_KOI8_R)
    } else if b.len() == 5 && lower_byte_x(b[0]) == 0x6b && lower_byte_x(b[1]) == 0x6f && lower_byte_x(b[2]) == 0x69 && lower_byte_x(b[3]) == 0x38 && lower_byte_x(b[4]) == 0x72 {
        Some(Encoding::RUSSIAN_KOI8_R)
    } else if b.len() == 11 && lower_byte_x(b[0]) == 0x69 && lower_byte_x(b[1]) == 0x73 && lower_byte_x(b[2]) == 0x6f && lower_byte_x(b[3]) == 0x2d && lower_byte_x(b[4]) == 0x32 && lower_byte_x(b[5]) == 0x30 && lower_byte_x(b[6]) == 0x32 && lower_byte_x(b[7]) == 0x32 && lower_byte_x(b[8]) == 0x2d && lower_byte_x(b[9]) == 0x6a && lower_byte_x(b[10]) == 0x70 {
        Some(Encoding::JAPANESE_JIS)
    } else {
        None
    }
}

/// The soft encoding hint of a call: the first recognized charset name, the
/// HTTP header winning over the meta tag, the meta tag over the URL.
pub open spec fn spec_soft_hint(http: Seq<u8>, meta: Seq<u8>, url: Seq<u8>) -> Option<Encoding> {
    if spec_charset_hint(http) is Some {
        spec_charset_hint(http)
    } else if spec_charset_hint(meta) is Some {
        spec_charset_hint(meta)
    } else {
        spec_charset_hint(url)
    }
}

/// Exec mirror of [`spec_soft_hint`].
pub fn soft_hint(http: &str, meta: &str, url: &str) -> (r: Option<Encoding>)
    ensures
        r == spec_soft_hint(http.spec_bytes(), meta.spec_bytes(), url.spec_bytes()),
{
    let h = charset_hint(http);
    if h.is_some() {
        return h;
    }
    let m = charset_hint(meta);
    if m.is_some() {
        return m;
    }
    charset_hint(url)
}

} // verus!
