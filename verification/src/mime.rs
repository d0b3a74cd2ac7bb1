//! The static lookup from a winning encoding id to its canonical MIME name.
//! Every id has a name, so assembling a result never fails; ids with no
//! well-known registered charset name get an x- placeholder.
use vstd::prelude::*;

use crate::enums::Encoding;

verus! {

/// Canonical MIME name of an encoding.
pub open spec fn spec_mime(e: Encoding) -> Seq<char> {
    match e {
        Encoding::ISO_8859_1 => "ISO-8859-1"@,
        Encoding::ISO_8859_2 => "ISO-8859-2"@,
        Encoding::ISO_8859_3 => "ISO-8859-3"@,
        Encoding::ISO_8859_4 => "ISO-8859-4"@,
        Encoding::ISO_8859_5 => "ISO-8859-5"@,
        Encoding::ISO_8859_6 => "ISO-8859-6"@,
        Encoding::ISO_8859_7 => "ISO-8859-7"@,
        Encoding::ISO_8859_8 => "ISO-8859-8"@,
        Encoding::ISO_8859_9 => "ISO-8859-9"@,
        Encoding::ISO_8859_10 => "ISO-8859-10"@,
        Encoding::JAPANESE_EUC_JP => "EUC-JP"@,
        Encoding::JAPANESE_SHIFT_JIS => "Shift_JIS"@,
        Encoding::JAPANESE_JIS => "ISO-2022-JP"@,
        Encoding::CHINESE_BIG5 => "Big5"@,
        Encoding::CHINESE_GB => "GB2312"@,
        Encoding::CHINESE_EUC_CN => "EUC-CN"@,
        Encoding::KOREAN_EUC_KR => "EUC-KR"@,
        Encoding::UNICODE => "UTF-16"@,
        Encoding::CHINESE_EUC_DEC => "EUC-DEC"@,
        Encoding::CHINESE_CNS => "EUC-TW"@,
        Encoding::CHINESE_BIG5_CP950 => "Big5"@,
        Encoding::JAPANESE_CP932 => "Shift_JIS"@,
        Encoding::UTF8 => "UTF-8"@,
        Encoding::UNKNOWN_ENCODING => "x-unknown"@,
        Encoding::ASCII_7BIT => "US-ASCII"@,
        Encoding::RUSSIAN_KOI8_R => "KOI8-R"@,
        Encoding::RUSSIAN_CP1251 => "windows-1251"@,
        Encoding::MSFT_CP1252 => "windows-1252"@,
        Encoding::RUSSIAN_KOI8_RU => "KOI8-U"@,
        Encoding::MSFT_CP1250 => "windows-1250"@,
        Encoding::ISO_8859_15 => "ISO-8859-15"@,
        Encoding::MSFT_CP1254 => "windows-1254"@,
        Encoding::MSFT_CP1257 => "windows-1257"@,
        Encoding::ISO_8859_11 => "ISO-8859-11"@,
        Encoding::MSFT_CP874 => "windows-874"@,
        Encoding::MSFT_CP1256 => "windows-1256"@,
        Encoding::MSFT_CP1255 => "windows-1255"@,
        Encoding::ISO_8859_8_I => "ISO-8859-8-I"@,
        Encoding::HEBREW_VISUAL => "ISO-8859-8"@,
        Encoding::CZECH_CP852 => "IBM852"@,
        Encoding::CZECH_CSN_369103 => "csn_369103"@,
        Encoding::MSFT_CP1253 => "windows-1253"@,
        Encoding::RUSSIAN_CP866 => "IBM866"@,
        Encoding::ISO_8859_13 => "ISO-8859-13"@,
        Encoding::ISO_2022_KR => "ISO-2022-KR"@,
        Encoding::GBK => "GBK"@,
        Encoding::GB18030 => "GB18030"@,
        Encoding::BIG5_HKSCS => "Big5-HKSCS"@,
        Encoding::ISO_2022_CN => "ISO-2022-CN"@,
        Encoding::TSCII => "TSCII"@,
        Encoding::TAMIL_MONO => "x-tamil-mono"@,
        Encoding::TAMIL_BI => "x-tamil-bi"@,
        Encoding::JAGRAN => "x-jagran"@,
        Encoding::MACINTOSH_ROMAN => "macintosh"@,
        Encoding::UTF7 => "UTF-7"@,
        Encoding::BHASKAR => "x-bhaskar"@,
        Encoding::HTCHANAKYA => "x-htchanakya"@,
        Encoding::UTF16BE => "UTF-16BE"@,
        Encoding::UTF16LE => "UTF-16LE"@,
        Encoding::UTF32BE => "UTF-32BE"@,
        Encoding::UTF32LE => "UTF-32LE"@,
        Encoding::BINARYENC => "x-binaryenc"@,
        Encoding::HZ_GB_2312 => "HZ-GB-2312"@,
        Encoding::UTF8UTF8 => "x-utf8utf8"@,
        Encoding::TAM_ELANGO => "x-tam-elango"@,
        Encoding::TAM_LTTMBARANI => "x-tam-lttmbarani"@,
        Encoding::TAM_SHREE => "x-tam-shree"@,
        Encoding::TAM_TBOOMIS => "x-tam-tboomis"@,
        Encoding::TAM_TMNEWS => "x-tam-tmnews"@,
        Encoding::TAM_WEBTAMIL => "x-tam-webtamil"@,
        Encoding::KDDI_SHIFT_JIS => "Shift_JIS"@,
        Encoding::DOCOMO_SHIFT_JIS => "Shift_JIS"@,
        Encoding::SOFTBANK_SHIFT_JIS => "Shift_JIS"@,
        Encoding::KDDI_ISO_2022_JP => "ISO-2022-JP"@,
        Encoding::SOFTBANK_ISO_2022_JP => "ISO-2022-JP"@,
    }
}

/// Exec mirror of [`spec_mime`].
pub fn mime_str(e: Encoding) -> (r: &'static str)
    ensures
        r@ == spec_mime(e),
{
    match e {
        Encoding::ISO_8859_1 => "ISO-8859-1",
        Encoding::ISO_8859_2 => "ISO-8859-2",
        Encoding::ISO_8859_3 => "ISO-8859-3",
        Encoding::ISO_8859_4 => "ISO-8859-4",
        Encoding::ISO_8859_5 => "ISO-8859-5",
        Encoding::ISO_8859_6 => "ISO-8859-6",
        Encoding::ISO_8859_7 => "ISO-8859-7",
        Encoding::ISO_8859_8 => "ISO-8859-8",
        Encoding::ISO_8859_9 => "ISO-8859-9",
        Encoding::ISO_8859_10 => "ISO-8859-10",
        Encoding::JAPANESE_EUC_JP => "EUC-JP",
        Encoding::JAPANESE_SHIFT_JIS => "Shift_JIS",
        Encoding::JAPANESE_JIS => "ISO-2022-JP",
        Encoding::CHINESE_BIG5 => "Big5",
        Encoding::CHINESE_GB => "GB2312",
        Encoding::CHINESE_EUC_CN => "EUC-CN",
        Encoding::KOREAN_EUC_KR => "EUC-KR",
        Encoding::UNICODE => "UTF-16",
        Encoding::CHINESE_EUC_DEC => "EUC-DEC",
        Encoding::CHINESE_CNS => "EUC-TW",
        Encoding::CHINESE_BIG5_CP950 => "Big5",
        Encoding::JAPANESE_CP932 => "Shift_JIS",
        Encoding::UTF8 => "UTF-8",
        Encoding::UNKNOWN_ENCODING => "x-unknown",
        Encoding::ASCII_7BIT => "US-ASCII",
        Encoding::RUSSIAN_KOI8_R => "KOI8-R",
        Encoding::RUSSIAN_CP1251 => "windows-1251",
        Encoding::MSFT_CP1252 => "windows-1252",
        Encoding::RUSSIAN_KOI8_RU => "KOI8-U",
        Encoding::MSFT_CP1250 => "windows-1250",
        Encoding::ISO_8859_15 => "ISO-8859-15",
        Encoding::MSFT_CP1254 => "windows-1254",
        Encoding::MSFT_CP1257 => "windows-1257",
        Encoding::ISO_8859_11 => "ISO-8859-11",
        Encoding::MSFT_CP874 => "windows-874",
        Encoding::MSFT_CP1256 => "windows-1256",
        Encoding::MSFT_CP1255 => "windows-1255",
        Encoding::ISO_8859_8_I => "ISO-8859-8-I",
        Encoding::HEBREW_VISUAL => "ISO-8859-8",
        Encoding::CZECH_CP852 => "IBM852",
        Encoding::CZECH_CSN_369103 => "csn_369103",
        Encoding::MSFT_CP1253 => "windows-1253",
        Encoding::RUSSIAN_CP866 => "IBM866",
        Encoding::ISO_8859_13 => "ISO-8859-13",
        Encoding::ISO_2022_KR => "ISO-2022-KR",
        Encoding::GBK => "GBK",
        Encoding::GB18030 => "GB18030",
        Encoding::BIG5_HKSCS => "Big5-HKSCS",
        Encoding::ISO_2022_CN => "ISO-2022-CN",
        Encoding::TSCII => "TSCII",
        Encoding::TAMIL_MONO => "x-tamil-mono",
        Encoding::TAMIL_BI => "x-tamil-bi",
        Encoding::JAGRAN => "x-jagran",
        Encoding::MACINTOSH_ROMAN => "macintosh",
        Encoding::UTF7 => "UTF-7",
        Encoding::BHASKAR => "x-bhaskar",
        Encoding::HTCHANAKYA => "x-htchanakya",
        Encoding::UTF16BE => "UTF-16BE",
        Encoding::UTF16LE => "UTF-16LE",
        Encoding::UTF32BE => "UTF-32BE",
        Encoding::UTF32LE => "UTF-32LE",
        Encoding::BINARYENC => "x-binaryenc",
        Encoding::HZ_GB_2312 => "HZ-GB-2312",
        Encoding::UTF8UTF8 => "x-utf8utf8",
        Encoding::TAM_ELANGO => "x-tam-elango",
        Encoding::TAM_LTTMBARANI => "x-tam-lttmbarani",
        Encoding::TAM_SHREE => "x-tam-shree",
        Encoding::TAM_TBOOMIS => "x-tam-tboomis",
        Encoding::TAM_TMNEWS => "x-tam-tmnews",
        Encoding::TAM_WEBTAMIL => "x-tam-webtamil",
        Encoding::KDDI_SHIFT_JIS => "Shift_JIS",
        Encoding::DOCOMO_SHIFT_JIS => "Shift_JIS",
        Encoding::SOFTBANK_SHIFT_JIS => "Shift_JIS",
        Encoding::KDDI_ISO_2022_JP => "ISO-2022-JP",
        Encoding::SOFTBANK_ISO_2022_JP => "ISO-2022-JP",
    }
}

} // verus!
