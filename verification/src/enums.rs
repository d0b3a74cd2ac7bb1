//! The closed enumerations of the detector: encodings, languages and corpus
//! types. Each is a tagged-variant type whose raw integer form is a closed
//! range; the trailing "count" value of the raw domain is not a variant, so a
//! value of one of these types always carries a valid id. Raw integers are
//! validated at the boundary by `from_raw`, which fails with
//! [`InvalidEnumValue`] on anything outside the closed range.
use vstd::prelude::*;

verus! {

/// Error raised when a raw integer cannot be converted into one of the
/// closed enumerations of this crate.
#[derive(Debug, Clone, Copy, PartialEq, Eq, Structural)]
pub struct InvalidEnumValue {
    pub raw: i32,
}

impl InvalidEnumValue {
    /// Human-readable description of the error.
    pub fn message(&self) -> (r: String)
        ensures
            r@ == "invalid enum value"@,
    {
        "invalid enum value".to_owned()
    }
}

/// Character encodings the detector can report, one per raw id 0 to 74.
#[allow(non_camel_case_types)]
#[derive(Copy, Clone, Debug, PartialEq, Eq, Hash, Structural)]
pub enum Encoding {
    ISO_8859_1,
    ISO_8859_2,
    ISO_8859_3,
    ISO_8859_4,
    ISO_8859_5,
    ISO_8859_6,
    ISO_8859_7,
    ISO_8859_8,
    ISO_8859_9,
    ISO_8859_10,
    JAPANESE_EUC_JP,
    JAPANESE_SHIFT_JIS,
    JAPANESE_JIS,
    CHINESE_BIG5,
    CHINESE_GB,
    CHINESE_EUC_CN,
    KOREAN_EUC_KR,
    UNICODE,
    CHINESE_EUC_DEC,
    CHINESE_CNS,
    CHINESE_BIG5_CP950,
    JAPANESE_CP932,
    UTF8,
    UNKNOWN_ENCODING,
    ASCII_7BIT,
    RUSSIAN_KOI8_R,
    RUSSIAN_CP1251,
    MSFT_CP1252,
    RUSSIAN_KOI8_RU,
    MSFT_CP1250,
    ISO_8859_15,
    MSFT_CP1254,
    MSFT_CP1257,
    ISO_8859_11,
    MSFT_CP874,
    MSFT_CP1256,
    MSFT_CP1255,
    ISO_8859_8_I,
    HEBREW_VISUAL,
    CZECH_CP852,
    CZECH_CSN_369103,
    MSFT_CP1253,
    RUSSIAN_CP866,
    ISO_8859_13,
    ISO_2022_KR,
    GBK,
    GB18030,
    BIG5_HKSCS,
    ISO_2022_CN,
    TSCII,
    TAMIL_MONO,
    TAMIL_BI,
    JAGRAN,
    MACINTOSH_ROMAN,
    UTF7,
    BHASKAR,
    HTCHANAKYA,
    UTF16BE,
    UTF16LE,
    UTF32BE,
    UTF32LE,
    BINARYENC,
    HZ_GB_2312,
    UTF8UTF8,
    TAM_ELANGO,
    TAM_LTTMBARANI,
    TAM_SHREE,
    TAM_TBOOMIS,
    TAM_TMNEWS,
    TAM_WEBTAMIL,
    KDDI_SHIFT_JIS,
    DOCOMO_SHIFT_JIS,
    SOFTBANK_SHIFT_JIS,
    KDDI_ISO_2022_JP,
    SOFTBANK_ISO_2022_JP,
}

impl Encoding {
    /// The raw integer id of this variant.
    pub open spec fn id(self) -> int {
        match self {
            Encoding::ISO_8859_1 => 0,
            Encoding::ISO_8859_2 => 1,
            Encoding::ISO_8859_3 => 2,
            Encoding::ISO_8859_4 => 3,
            Encoding::ISO_8859_5 => 4,
            Encoding::ISO_8859_6 => 5,
            Encoding::ISO_8859_7 => 6,
            Encoding::ISO_8859_8 => 7,
            Encoding::ISO_8859_9 => 8,
            Encoding::ISO_8859_10 => 9,
            Encoding::JAPANESE_EUC_JP => 10,
            Encoding::JAPANESE_SHIFT_JIS => 11,
            Encoding::JAPANESE_JIS => 12,
            Encoding::CHINESE_BIG5 => 13,
            Encoding::CHINESE_GB => 14,
            Encoding::CHINESE_EUC_CN => 15,
            Encoding::KOREAN_EUC_KR => 16,
            Encoding::UNICODE => 17,
            Encoding::CHINESE_EUC_DEC => 18,
            Encoding::CHINESE_CNS => 19,
            Encoding::CHINESE_BIG5_CP950 => 20,
            Encoding::JAPANESE_CP932 => 21,
            Encoding::UTF8 => 22,
            Encoding::UNKNOWN_ENCODING => 23,
            Encoding::ASCII_7BIT => 24,
            Encoding::RUSSIAN_KOI8_R => 25,
            Encoding::RUSSIAN_CP1251 => 26,
            Encoding::MSFT_CP1252 => 27,
            Encoding::RUSSIAN_KOI8_RU => 28,
            Encoding::MSFT_CP1250 => 29,
            Encoding::ISO_8859_15 => 30,
            Encoding::MSFT_CP1254 => 31,
            Encoding::MSFT_CP1257 => 32,
            Encoding::ISO_8859_11 => 33,
            Encoding::MSFT_CP874 => 34,
            Encoding::MSFT_CP1256 => 35,
            Encoding::MSFT_CP1255 => 36,
            Encoding::ISO_8859_8_I => 37,
            Encoding::HEBREW_VISUAL => 38,
            Encoding::CZECH_CP852 => 39,
            Encoding::CZECH_CSN_369103 => 40,
            Encoding::MSFT_CP1253 => 41,
            Encoding::RUSSIAN_CP866 => 42,
            Encoding::ISO_8859_13 => 43,
            Encoding::ISO_2022_KR => 44,
            Encoding::GBK => 45,
            Encoding::GB18030 => 46,
            Encoding::BIG5_HKSCS => 47,
            Encoding::ISO_2022_CN => 48,
            Encoding::TSCII => 49,
            Encoding::TAMIL_MONO => 50,
            Encoding::TAMIL_BI => 51,
            Encoding::JAGRAN => 52,
            Encoding::MACINTOSH_ROMAN => 53,
            Encoding::UTF7 => 54,
            Encoding::BHASKAR => 55,
            Encoding::HTCHANAKYA => 56,
            Encoding::UTF16BE => 57,
            Encoding::UTF16LE => 58,
            Encoding::UTF32BE => 59,
            Encoding::UTF32LE => 60,
            Encoding::BINARYENC => 61,
            Encoding::HZ_GB_2312 => 62,
            Encoding::UTF8UTF8 => 63,
            Encoding::TAM_ELANGO => 64,
            Encoding::TAM_LTTMBARANI => 65,
            Encoding::TAM_SHREE => 66,
            Encoding::TAM_TBOOMIS => 67,
            Encoding::TAM_TMNEWS => 68,
            Encoding::TAM_WEBTAMIL => 69,
            Encoding::KDDI_SHIFT_JIS => 70,
            Encoding::DOCOMO_SHIFT_JIS => 71,
            Encoding::SOFTBANK_SHIFT_JIS => 72,
            Encoding::KDDI_ISO_2022_JP => 73,
            Encoding::SOFTBANK_ISO_2022_JP => 74,
        }
    }

    /// The variant with the given raw id; the low variant for ids outside
    /// the closed range.
    pub open spec fn spec_from_id(raw: int) -> Encoding {
        if raw == 1 {
            Encoding::ISO_8859_2
        } else if raw == 2 {
            Encoding::ISO_8859_3
        } else if raw == 3 {
            Encoding::ISO_8859_4
        } else if raw == 4 {
            Encoding::ISO_8859_5
        } else if raw == 5 {
            Encoding::ISO_8859_6
        } else if raw == 6 {
            Encoding::ISO_8859_7
        } else if raw == 7 {
            Encoding::ISO_8859_8
        } else if raw == 8 {
            Encoding::ISO_8859_9
        } else if raw == 9 {
            Encoding::ISO_8859_10
        } else if raw == 10 {
            Encoding::JAPANESE_EUC_JP
        } else if raw == 11 {
            Encoding::JAPANESE_SHIFT_JIS
        } else if raw == 12 {
            Encoding::JAPANESE_JIS
        } else if raw == 13 {
            Encoding::CHINESE_BIG5
        } else if raw == 14 {
            Encoding::CHINESE_GB
        } else if raw == 15 {
            Encoding::CHINESE_EUC_CN
        } else if raw == 16 {
            Encoding::KOREAN_EUC_KR
        } else if raw == 17 {
            Encoding::UNICODE
        } else if raw == 18 {
            Encoding::CHINESE_EUC_DEC
        } else if raw == 19 {
            Encoding::CHINESE_CNS
        } else if raw == 20 {
            Encoding::CHINESE_BIG5_CP950
        } else if raw == 21 {
            Encoding::JAPANESE_CP932
        } else if raw == 22 {
            Encoding::UTF8
        } else if raw == 23 {
            Encoding::UNKNOWN_ENCODING
        } else if raw == 24 {
            Encoding::ASCII_7BIT
        } else if raw == 25 {
            Encoding::RUSSIAN_KOI8_R
        } else if raw == 26 {
            Encoding::RUSSIAN_CP1251
        } else if raw == 27 {
            Encoding::MSFT_CP1252
        } else if raw == 28 {
            Encoding::RUSSIAN_KOI8_RU
        } else if raw == 29 {
            Encoding::MSFT_CP1250
        } else if raw == 30 {
            Encoding::ISO_8859_15
        } else if raw == 31 {
            Encoding::MSFT_CP1254
        } else if raw == 32 {
            Encoding::MSFT_CP1257
        } else if raw == 33 {
            Encoding::ISO_8859_11
        } else if raw == 34 {
            Encoding::MSFT_CP874
        } else if raw == 35 {
            Encoding::MSFT_CP1256
        } else if raw == 36 {
            Encoding::MSFT_CP1255
        } else if raw == 37 {
            Encoding::ISO_8859_8_I
        } else if raw == 38 {
            Encoding::HEBREW_VISUAL
        } else if raw == 39 {
            Encoding::CZECH_CP852
        } else if raw == 40 {
            Encoding::CZECH_CSN_369103
        } else if raw == 41 {
            Encoding::MSFT_CP1253
        } else if raw == 42 {
            Encoding::RUSSIAN_CP866
        } else if raw == 43 {
            Encoding::ISO_8859_13
        } else if raw == 44 {
            Encoding::ISO_2022_KR
        } else if raw == 45 {
            Encoding::GBK
        } else if raw == 46 {
            Encoding::GB18030
        } else if raw == 47 {
            Encoding::BIG5_HKSCS
        } else if raw == 48 {
            Encoding::ISO_2022_CN
        } else if raw == 49 {
            Encoding::TSCII
        } else if raw == 50 {
            Encoding::TAMIL_MONO
        } else if raw == 51 {
            Encoding::TAMIL_BI
        } else if raw == 52 {
            Encoding::JAGRAN
        } else if raw == 53 {
            Encoding::MACINTOSH_ROMAN
        } else if raw == 54 {
            Encoding::UTF7
        } else if raw == 55 {
            Encoding::BHASKAR
        } else if raw == 56 {
            Encoding::HTCHANAKYA
        } else if raw == 57 {
            Encoding::UTF16BE
        } else if raw == 58 {
            Encoding::UTF16LE
        } else if raw == 59 {
            Encoding::UTF32BE
        } else if raw == 60 {
            Encoding::UTF32LE
        } else if raw == 61 {
            Encoding::BINARYENC
        } else if raw == 62 {
            Encoding::HZ_GB_2312
        } else if raw == 63 {
            Encoding::UTF8UTF8
        } else if raw == 64 {
            Encoding::TAM_ELANGO
        } else if raw == 65 {
            Encoding::TAM_LTTMBARANI
        } else if raw == 66 {
            Encoding::TAM_SHREE
        } else if raw == 67 {
            Encoding::TAM_TBOOMIS
        } else if raw == 68 {
            Encoding::TAM_TMNEWS
        } else if raw == 69 {
            Encoding::TAM_WEBTAMIL
        } else if raw == 70 {
            Encoding::KDDI_SHIFT_JIS
        } else if raw == 71 {
            Encoding::DOCOMO_SHIFT_JIS
        } else if raw == 72 {
            Encoding::SOFTBANK_SHIFT_JIS
        } else if raw == 73 {
            Encoding::KDDI_ISO_2022_JP
        } else if raw == 74 {
            Encoding::SOFTBANK_ISO_2022_JP
        } else {
            Encoding::ISO_8859_1
        }
    }

    /// Raw integer form of this variant; always inside the closed range.
    pub fn as_raw(self) -> (r: i32)
        ensures
            r == self.id(),
            0 <= r < 75,
    {
        match self {
            Encoding::ISO_8859_1 => 0,
            Encoding::ISO_8859_2 => 1,
            Encoding::ISO_8859_3 => 2,
            Encoding::ISO_8859_4 => 3,
            Encoding::ISO_8859_5 => 4,
            Encoding::ISO_8859_6 => 5,
            Encoding::ISO_8859_7 => 6,
            Encoding::ISO_8859_8 => 7,
            Encoding::ISO_8859_9 => 8,
            Encoding::ISO_8859_10 => 9,
            Encoding::JAPANESE_EUC_JP => 10,
            Encoding::JAPANESE_SHIFT_JIS => 11,
            Encoding::JAPANESE_JIS => 12,
            Encoding::CHINESE_BIG5 => 13,
            Encoding::CHINESE_GB => 14,
            Encoding::CHINESE_EUC_CN => 15,
            Encoding::KOREAN_EUC_KR => 16,
            Encoding::UNICODE => 17,
            Encoding::CHINESE_EUC_DEC => 18,
            Encoding::CHINESE_CNS => 19,
            Encoding::CHINESE_BIG5_CP950 => 20,
            Encoding::JAPANESE_CP932 => 21,
            Encoding::UTF8 => 22,
            Encoding::UNKNOWN_ENCODING => 23,
            Encoding::ASCII_7BIT => 24,
            Encoding::RUSSIAN_KOI8_R => 25,
            Encoding::RUSSIAN_CP1251 => 26,
            Encoding::MSFT_CP1252 => 27,
            Encoding::RUSSIAN_KOI8_RU => 28,
            Encoding::MSFT_CP1250 => 29,
            Encoding::ISO_8859_15 => 30,
            Encoding::MSFT_CP1254 => 31,
            Encoding::MSFT_CP1257 => 32,
            Encoding::ISO_8859_11 => 33,
            Encoding::MSFT_CP874 => 34,
            Encoding::MSFT_CP1256 => 35,
            Encoding::MSFT_CP1255 => 36,
            Encoding::ISO_8859_8_I => 37,
            Encoding::HEBREW_VISUAL => 38,
            Encoding::CZECH_CP852 => 39,
            Encoding::CZECH_CSN_369103 => 40,
            Encoding::MSFT_CP1253 => 41,
            Encoding::RUSSIAN_CP866 => 42,
            Encoding::ISO_8859_13 => 43,
            Encoding::ISO_2022_KR => 44,
            Encoding::GBK => 45,
            Encoding::GB18030 => 46,
            Encoding::BIG5_HKSCS => 47,
            Encoding::ISO_2022_CN => 48,
            Encoding::TSCII => 49,
            Encoding::TAMIL_MONO => 50,
            Encoding::TAMIL_BI => 51,
            Encoding::JAGRAN => 52,
            Encoding::MACINTOSH_ROMAN => 53,
            Encoding::UTF7 => 54,
            Encoding::BHASKAR => 55,
            Encoding::HTCHANAKYA => 56,
            Encoding::UTF16BE => 57,
            Encoding::UTF16LE => 58,
            Encoding::UTF32BE => 59,
            Encoding::UTF32LE => 60,
            Encoding::BINARYENC => 61,
            Encoding::HZ_GB_2312 => 62,
            Encoding::UTF8UTF8 => 63,
            Encoding::TAM_ELANGO => 64,
            Encoding::TAM_LTTMBARANI => 65,
            Encoding::TAM_SHREE => 66,
            Encoding::TAM_TBOOMIS => 67,
            Encoding::TAM_TMNEWS => 68,
            Encoding::TAM_WEBTAMIL => 69,
            Encoding::KDDI_SHIFT_JIS => 70,
            Encoding::DOCOMO_SHIFT_JIS => 71,
            Encoding::SOFTBANK_SHIFT_JIS => 72,
            Encoding::KDDI_ISO_2022_JP => 73,
            Encoding::SOFTBANK_ISO_2022_JP => 74,
        }
    }

    /// Validates a raw integer at the boundary: every id inside the closed
    /// range yields its variant, everything else (the count sentinel
    /// included) is an [`InvalidEnumValue`].
    pub fn from_raw(raw: i32) -> (r: Result<Encoding, InvalidEnumValue>)
        ensures
            0 <= raw < 75 ==> r == Ok::<Encoding, InvalidEnumValue>(Encoding::spec_from_id(raw as int)),
            !(0 <= raw < 75) ==> r == Err::<Encoding, InvalidEnumValue>(InvalidEnumValue { raw }),
    {
        match raw {
            0 => Ok(Encoding::ISO_8859_1),
            1 => Ok(Encoding::ISO_8859_2),
            2 => Ok(Encoding::ISO_8859_3),
            3 => Ok(Encoding::ISO_8859_4),
            4 => Ok(Encoding::ISO_8859_5),
            5 => Ok(Encoding::ISO_8859_6),
            6 => Ok(Encoding::ISO_8859_7),
            7 => Ok(Encoding::ISO_8859_8),
            8 => Ok(Encoding::ISO_8859_9),
            9 => Ok(Encoding::ISO_8859_10),
            10 => Ok(Encoding::JAPANESE_EUC_JP),
            11 => Ok(Encoding::JAPANESE_SHIFT_JIS),
            12 => Ok(Encoding::JAPANESE_JIS),
            13 => Ok(Encoding::CHINESE_BIG5),
            14 => Ok(Encoding::CHINESE_GB),
            15 => Ok(Encoding::CHINESE_EUC_CN),
            16 => Ok(Encoding::KOREAN_EUC_KR),
            17 => Ok(Encoding::UNICODE),
            18 => Ok(Encoding::CHINESE_EUC_DEC),
            19 => Ok(Encoding::CHINESE_CNS),
            20 => Ok(Encoding::CHINESE_BIG5_CP950),
            21 => Ok(Encoding::JAPANESE_CP932),
            22 => Ok(Encoding::UTF8),
            23 => Ok(Encoding::UNKNOWN_ENCODING),
            24 => Ok(Encoding::ASCII_7BIT),
            25 => Ok(Encoding::RUSSIAN_KOI8_R),
            26 => Ok(Encoding::RUSSIAN_CP1251),
            27 => Ok(Encoding::MSFT_CP1252),
            28 => Ok(Encoding::RUSSIAN_KOI8_RU),
            29 => Ok(Encoding::MSFT_CP1250),
            30 => Ok(Encoding::ISO_8859_15),
            31 => Ok(Encoding::MSFT_CP1254),
            32 => Ok(Encoding::MSFT_CP1257),
            33 => Ok(Encoding::ISO_8859_11),
            34 => Ok(Encoding::MSFT_CP874),
            35 => Ok(Encoding::MSFT_CP1256),
            36 => Ok(Encoding::MSFT_CP1255),
            37 => Ok(Encoding::ISO_8859_8_I),
            38 => Ok(Encoding::HEBREW_VISUAL),
            39 => Ok(Encoding::CZECH_CP852),
            40 => Ok(Encoding::CZECH_CSN_369103),
            41 => Ok(Encoding::MSFT_CP1253),
            42 => Ok(Encoding::RUSSIAN_CP866),
            43 => Ok(Encoding::ISO_8859_13),
            44 => Ok(Encoding::ISO_2022_KR),
            45 => Ok(Encoding::GBK),
            46 => Ok(Encoding::GB18030),
            47 => Ok(Encoding::BIG5_HKSCS),
            48 => Ok(Encoding::ISO_2022_CN),
            49 => Ok(Encoding::TSCII),
            50 => Ok(Encoding::TAMIL_MONO),
            51 => Ok(Encoding::TAMIL_BI),
            52 => Ok(Encoding::JAGRAN),
            53 => Ok(Encoding::MACINTOSH_ROMAN),
            54 => Ok(Encoding::UTF7),
            55 => Ok(Encoding::BHASKAR),
            56 => Ok(Encoding::HTCHANAKYA),
            57 => Ok(Encoding::UTF16BE),
            58 => Ok(Encoding::UTF16LE),
            59 => Ok(Encoding::UTF32BE),
            60 => Ok(Encoding::UTF32LE),
            61 => Ok(Encoding::BINARYENC),
            62 => Ok(Encoding::HZ_GB_2312),
            63 => Ok(Encoding::UTF8UTF8),
            64 => Ok(Encoding::TAM_ELANGO),
            65 => Ok(Encoding::TAM_LTTMBARANI),
            66 => Ok(Encoding::TAM_SHREE),
            67 => Ok(Encoding::TAM_TBOOMIS),
            68 => Ok(Encoding::TAM_TMNEWS),
            69 => Ok(Encoding::TAM_WEBTAMIL),
            70 => Ok(Encoding::KDDI_SHIFT_JIS),
            71 => Ok(Encoding::DOCOMO_SHIFT_JIS),
            72 => Ok(Encoding::SOFTBANK_SHIFT_JIS),
            73 => Ok(Encoding::KDDI_ISO_2022_JP),
            74 => Ok(Encoding::SOFTBANK_ISO_2022_JP),
            _ => Err(InvalidEnumValue { raw }),
        }
    }
}

/// Languages usable as detection hints, one per raw id 0 to 160.
#[allow(non_camel_case_types)]
#[derive(Copy, Clone, Debug, PartialEq, Eq, Hash, Structural)]
pub enum Language {
    ENGLISH,
    DANISH,
    DUTCH,
    FINNISH,
    FRENCH,
    GERMAN,
    HEBREW,
    ITALIAN,
    JAPANESE,
    KOREAN,
    NORWEGIAN,
    POLISH,
    PORTUGUESE,
    RUSSIAN,
    SPANISH,
    SWEDISH,
    CHINESE,
    CZECH,
    GREEK,
    ICELANDIC,
    LATVIAN,
    LITHUANIAN,
    ROMANIAN,
    HUNGARIAN,
    ESTONIAN,
    TG_UNKNOWN_LANGUAGE,
    UNKNOWN_LANGUAGE,
    BULGARIAN,
    CROATIAN,
    SERBIAN,
    IRISH,
    GALICIAN,
    TAGALOG,
    TURKISH,
    UKRAINIAN,
    HINDI,
    MACEDONIAN,
    BENGALI,
    INDONESIAN,
    LATIN,
    MALAY,
    MALAYALAM,
    WELSH,
    NEPALI,
    TELUGU,
    ALBANIAN,
    TAMIL,
    BELARUSIAN,
    JAVANESE,
    OCCITAN,
    URDU,
    BIHARI,
    GUJARATI,
    THAI,
    ARABIC,
    CATALAN,
    ESPERANTO,
    BASQUE,
    INTERLINGUA,
    KANNADA,
    PUNJABI,
    SCOTS_GAELIC,
    SWAHILI,
    SLOVENIAN,
    MARATHI,
    MALTESE,
    VIETNAMESE,
    FRISIAN,
    SLOVAK,
    CHINESE_T,
    FAROESE,
    SUNDANESE,
    UZBEK,
    AMHARIC,
    AZERBAIJANI,
    GEORGIAN,
    TIGRINYA,
    PERSIAN,
    BOSNIAN,
    SINHALESE,
    NORWEGIAN_N,
    PORTUGUESE_P,
    PORTUGUESE_B,
    XHOSA,
    ZULU,
    GUARANI,
    SESOTHO,
    TURKMEN,
    KYRGYZ,
    BRETON,
    TWI,
    YIDDISH,
    SERBO_CROATIAN,
    SOMALI,
    UIGHUR,
    KURDISH,
    MONGOLIAN,
    ARMENIAN,
    LAOTHIAN,
    SINDHI,
    RHAETO_ROMANCE,
    AFRIKAANS,
    LUXEMBOURGISH,
    BURMESE,
    KHMER,
    TIBETAN,
    DHIVEHI,
    CHEROKEE,
    SYRIAC,
    LIMBU,
    ORIYA,
    ASSAMESE,
    CORSICAN,
    INTERLINGUE,
    KAZAKH,
    LINGALA,
    MOLDAVIAN,
    PASHTO,
    QUECHUA,
    SHONA,
    TAJIK,
    TATAR,
    TONGA,
    YORUBA,
    CREOLES_AND_PIDGINS_ENGLISH_BASED,
    CREOLES_AND_PIDGINS_FRENCH_BASED,
    CREOLES_AND_PIDGINS_PORTUGUESE_BASED,
    CREOLES_AND_PIDGINS_OTHER,
    MAORI,
    WOLOF,
    ABKHAZIAN,
    AFAR,
    AYMARA,
    BASHKIR,
    BISLAMA,
    DZONGKHA,
    FIJIAN,
    GREENLANDIC,
    HAUSA,
    HAITIAN_CREOLE,
    INUPIAK,
    INUKTITUT,
    KASHMIRI,
    KINYARWANDA,
    MALAGASY,
    NAURU,
    OROMO,
    RUNDI,
    SAMOAN,
    SANGO,
    SANSKRIT,
    SISWANT,
    TSONGA,
    TSWANA,
    VOLAPUK,
    ZHUANG,
    KHASI,
    SCOTS,
    GANDA,
    MANX,
    MONTENEGRIN,
}

impl Language {
    /// The raw integer id of this variant.
    pub open spec fn id(self) -> int {
        match self {
            Language::ENGLISH => 0,
            Language::DANISH => 1,
            Language::DUTCH => 2,
            Language::FINNISH => 3,
            Language::FRENCH => 4,
            Language::GERMAN => 5,
            Language::HEBREW => 6,
            Language::ITALIAN => 7,
            Language::JAPANESE => 8,
            Language::KOREAN => 9,
            Language::NORWEGIAN => 10,
            Language::POLISH => 11,
            Language::PORTUGUESE => 12,
            Language::RUSSIAN => 13,
            Language::SPANISH => 14,
            Language::SWEDISH => 15,
            Language::CHINESE => 16,
            Language::CZECH => 17,
            Language::GREEK => 18,
            Language::ICELANDIC => 19,
            Language::LATVIAN => 20,
            Language::LITHUANIAN => 21,
            Language::ROMANIAN => 22,
            Language::HUNGARIAN => 23,
            Language::ESTONIAN => 24,
            Language::TG_UNKNOWN_LANGUAGE => 25,
            Language::UNKNOWN_LANGUAGE => 26,
            Language::BULGARIAN => 27,
            Language::CROATIAN => 28,
            Language::SERBIAN => 29,
            Language::IRISH => 30,
            Language::GALICIAN => 31,
            Language::TAGALOG => 32,
            Language::TURKISH => 33,
            Language::UKRAINIAN => 34,
            Language::HINDI => 35,
            Language::MACEDONIAN => 36,
            Language::BENGALI => 37,
            Language::INDONESIAN => 38,
            Language::LATIN => 39,
            Language::MALAY => 40,
            Language::MALAYALAM => 41,
            Language::WELSH => 42,
            Language::NEPALI => 43,
            Language::TELUGU => 44,
            Language::ALBANIAN => 45,
            Language::TAMIL => 46,
            Language::BELARUSIAN => 47,
            Language::JAVANESE => 48,
            Language::OCCITAN => 49,
            Language::URDU => 50,
            Language::BIHARI => 51,
            Language::GUJARATI => 52,
            Language::THAI => 53,
            Language::ARABIC => 54,
            Language::CATALAN => 55,
            Language::ESPERANTO => 56,
            Language::BASQUE => 57,
            Language::INTERLINGUA => 58,
            Language::KANNADA => 59,
            Language::PUNJABI => 60,
            Language::SCOTS_GAELIC => 61,
            Language::SWAHILI => 62,
            Language::SLOVENIAN => 63,
            Language::MARATHI => 64,
            Language::MALTESE => 65,
            Language::VIETNAMESE => 66,
            Language::FRISIAN => 67,
            Language::SLOVAK => 68,
            Language::CHINESE_T => 69,
            Language::FAROESE => 70,
            Language::SUNDANESE => 71,
            Language::UZBEK => 72,
            Language::AMHARIC => 73,
            Language::AZERBAIJANI => 74,
            Language::GEORGIAN => 75,
            Language::TIGRINYA => 76,
            Language::PERSIAN => 77,
            Language::BOSNIAN => 78,
            Language::SINHALESE => 79,
            Language::NORWEGIAN_N => 80,
            Language::PORTUGUESE_P => 81,
            Language::PORTUGUESE_B => 82,
            Language::XHOSA => 83,
            Language::ZULU => 84,
            Language::GUARANI => 85,
            Language::SESOTHO => 86,
            Language::TURKMEN => 87,
            Language::KYRGYZ => 88,
            Language::BRETON => 89,
            Language::TWI => 90,
            Language::YIDDISH => 91,
            Language::SERBO_CROATIAN => 92,
            Language::SOMALI => 93,
            Language::UIGHUR => 94,
            Language::KURDISH => 95,
            Language::MONGOLIAN => 96,
            Language::ARMENIAN => 97,
            Language::LAOTHIAN => 98,
            Language::SINDHI => 99,
            Language::RHAETO_ROMANCE => 100,
            Language::AFRIKAANS => 101,
            Language::LUXEMBOURGISH => 102,
            Language::BURMESE => 103,
            Language::KHMER => 104,
            Language::TIBETAN => 105,
            Language::DHIVEHI => 106,
            Language::CHEROKEE => 107,
            Language::SYRIAC => 108,
            Language::LIMBU => 109,
            Language::ORIYA => 110,
            Language::ASSAMESE => 111,
            Language::CORSICAN => 112,
            Language::INTERLINGUE => 113,
            Language::KAZAKH => 114,
            Language::LINGALA => 115,
            Language::MOLDAVIAN => 116,
            Language::PASHTO => 117,
            Language::QUECHUA => 118,
            Language::SHONA => 119,
            Language::TAJIK => 120,
            Language::TATAR => 121,
            Language::TONGA => 122,
            Language::YORUBA => 123,
            Language::CREOLES_AND_PIDGINS_ENGLISH_BASED => 124,
            Language::CREOLES_AND_PIDGINS_FRENCH_BASED => 125,
            Language::CREOLES_AND_PIDGINS_PORTUGUESE_BASED => 126,
            Language::CREOLES_AND_PIDGINS_OTHER => 127,
            Language::MAORI => 128,
            Language::WOLOF => 129,
            Language::ABKHAZIAN => 130,
            Language::AFAR => 131,
            Language::AYMARA => 132,
            Language::BASHKIR => 133,
            Language::BISLAMA => 134,
            Language::DZONGKHA => 135,
            Language::FIJIAN => 136,
            Language::GREENLANDIC => 137,
            Language::HAUSA => 138,
            Language::HAITIAN_CREOLE => 139,
            Language::INUPIAK => 140,
            Language::INUKTITUT => 141,
            Language::KASHMIRI => 142,
            Language::KINYARWANDA => 143,
            Language::MALAGASY => 144,
            Language::NAURU => 145,
            Language::OROMO => 146,
            Language::RUNDI => 147,
            Language::SAMOAN => 148,
            Language::SANGO => 149,
            Language::SANSKRIT => 150,
            Language::SISWANT => 151,
            Language::TSONGA => 152,
            Language::TSWANA => 153,
            Language::VOLAPUK => 154,
            Language::ZHUANG => 155,
            Language::KHASI => 156,
            Language::SCOTS => 157,
            Language::GANDA => 158,
            Language::MANX => 159,
            Language::MONTENEGRIN => 160,
        }
    }

    /// The variant with the given raw id; the low variant for ids outside
    /// the closed range.
    pub open spec fn spec_from_id(raw: int) -> Language {
        if raw == 1 {
            Language::DANISH
        } else if raw == 2 {
            Language::DUTCH
        } else if raw == 3 {
            Language::FINNISH
        } else if raw == 4 {
            Language::FRENCH
        } else if raw == 5 {
            Language::GERMAN
        } else if raw == 6 {
            Language::HEBREW
        } else if raw == 7 {
            Language::ITALIAN
        } else if raw == 8 {
            Language::JAPANESE
        } else if raw == 9 {
            Language::KOREAN
        } else if raw == 10 {
            Language::NORWEGIAN
        } else if raw == 11 {
            Language::POLISH
        } else if raw == 12 {
            Language::PORTUGUESE
        } else if raw == 13 {
            Language::RUSSIAN
        } else if raw == 14 {
            Language::SPANISH
        } else if raw == 15 {
            Language::SWEDISH
        } else if raw == 16 {
            Language::CHINESE
        } else if raw == 17 {
            Language::CZECH
        } else if raw == 18 {
            Language::GREEK
        } else if raw == 19 {
            Language::ICELANDIC
        } else if raw == 20 {
            Language::LATVIAN
        } else if raw == 21 {
            Language::LITHUANIAN
        } else if raw == 22 {
            Language::ROMANIAN
        } else if raw == 23 {
            Language::HUNGARIAN
        } else if raw == 24 {
            Language::ESTONIAN
        } else if raw == 25 {
            Language::TG_UNKNOWN_LANGUAGE
        } else if raw == 26 {
            Language::UNKNOWN_LANGUAGE
        } else if raw == 27 {
            Language::BULGARIAN
        } else if raw == 28 {
            Language::CROATIAN
        } else if raw == 29 {
            Language::SERBIAN
        } else if raw == 30 {
            Language::IRISH
        } else if raw == 31 {
            Language::GALICIAN
        } else if raw == 32 {
            Language::TAGALOG
        } else if raw == 33 {
            Language::TURKISH
        } else if raw == 34 {
            Language::UKRAINIAN
        } else if raw == 35 {
            Language::HINDI
        } else if raw == 36 {
            Language::MACEDONIAN
        } else if raw == 37 {
            Language::BENGALI
        } else if raw == 38 {
            Language::INDONESIAN
        } else if raw == 39 {
            Language::LATIN
        } else if raw == 40 {
            Language::MALAY
        } else if raw == 41 {
            Language::MALAYALAM
        } else if raw == 42 {
            Language::WELSH
        } else if raw == 43 {
            Language::NEPALI
        } else if raw == 44 {
            Language::TELUGU
        } else if raw == 45 {
            Language::ALBANIAN
        } else if raw == 46 {
            Language::TAMIL
        } else if raw == 47 {
            Language::BELARUSIAN
        } else if raw == 48 {
            Language::JAVANESE
        } else if raw == 49 {
            Language::OCCITAN
        } else if raw == 50 {
            Language::URDU
        } else if raw == 51 {
            Language::BIHARI
        } else if raw == 52 {
            Language::GUJARATI
        } else if raw == 53 {
            Language::THAI
        } else if raw == 54 {
            Language::ARABIC
        } else if raw == 55 {
            Language::CATALAN
        } else if raw == 56 {
            Language::ESPERANTO
        } else if raw == 57 {
            Language::BASQUE
        } else if raw == 58 {
            Language::INTERLINGUA
        } else if raw == 59 {
            Language::KANNADA
        } else if raw == 60 {
            Language::PUNJABI
        } else if raw == 61 {
            Language::SCOTS_GAELIC
        } else if raw == 62 {
            Language::SWAHILI
        } else if raw == 63 {
            Language::SLOVENIAN
        } else if raw == 64 {
            Language::MARATHI
        } else if raw == 65 {
            Language::MALTESE
        } else if raw == 66 {
            Language::VIETNAMESE
        } else if raw == 67 {
            Language::FRISIAN
        } else if raw == 68 {
            Language::SLOVAK
        } else if raw == 69 {
            Language::CHINESE_T
        } else if raw == 70 {
            Language::FAROESE
        } else if raw == 71 {
            Language::SUNDANESE
        } else if raw == 72 {
            Language::UZBEK
        } else if raw == 73 {
            Language::AMHARIC
        } else if raw == 74 {
            Language::AZERBAIJANI
        } else if raw == 75 {
            Language::GEORGIAN
        } else if raw == 76 {
            Language::TIGRINYA
        } else if raw == 77 {
            Language::PERSIAN
        } else if raw == 78 {
            Language::BOSNIAN
        } else if raw == 79 {
            Language::SINHALESE
        } else if raw == 80 {
            Language::NORWEGIAN_N
        } else if raw == 81 {
            Language::PORTUGUESE_P
        } else if raw == 82 {
            Language::PORTUGUESE_B
        } else if raw == 83 {
            Language::XHOSA
        } else if raw == 84 {
            Language::ZULU
        } else if raw == 85 {
            Language::GUARANI
        } else if raw == 86 {
            Language::SESOTHO
        } else if raw == 87 {
            Language::TURKMEN
        } else if raw == 88 {
            Language::KYRGYZ
        } else if raw == 89 {
            Language::BRETON
        } else if raw == 90 {
            Language::TWI
        } else if raw == 91 {
            Language::YIDDISH
        } else if raw == 92 {
            Language::SERBO_CROATIAN
        } else if raw == 93 {
            Language::SOMALI
        } else if raw == 94 {
            Language::UIGHUR
        } else if raw == 95 {
            Language::KURDISH
        } else if raw == 96 {
            Language::MONGOLIAN
        } else if raw == 97 {
            Language::ARMENIAN
        } else if raw == 98 {
            Language::LAOTHIAN
        } else if raw == 99 {
            Language::SINDHI
        } else if raw == 100 {
            Language::RHAETO_ROMANCE
        } else if raw == 101 {
            Language::AFRIKAANS
        } else if raw == 102 {
            Language::LUXEMBOURGISH
        } else if raw == 103 {
            Language::BURMESE
        } else if raw == 104 {
            Language::KHMER
        } else if raw == 105 {
            Language::TIBETAN
        } else if raw == 106 {
            Language::DHIVEHI
        } else if raw == 107 {
            Language::CHEROKEE
        } else if raw == 108 {
            Language::SYRIAC
        } else if raw == 109 {
            Language::LIMBU
        } else if raw == 110 {
            Language::ORIYA
        } else if raw == 111 {
            Language::ASSAMESE
        } else if raw == 112 {
            Language::CORSICAN
        } else if raw == 113 {
            Language::INTERLINGUE
        } else if raw == 114 {
            Language::KAZAKH
        } else if raw == 115 {
            Language::LINGALA
        } else if raw == 116 {
            Language::MOLDAVIAN
        } else if raw == 117 {
            Language::PASHTO
        } else if raw == 118 {
            Language::QUECHUA
        } else if raw == 119 {
            Language::SHONA
        } else if raw == 120 {
            Language::TAJIK
        } else if raw == 121 {
            Language::TATAR
        } else if raw == 122 {
            Language::TONGA
        } else if raw == 123 {
            Language::YORUBA
        } else if raw == 124 {
            Language::CREOLES_AND_PIDGINS_ENGLISH_BASED
        } else if raw == 125 {
            Language::CREOLES_AND_PIDGINS_FRENCH_BASED
        } else if raw == 126 {
            Language::CREOLES_AND_PIDGINS_PORTUGUESE_BASED
        } else if raw == 127 {
            Language::CREOLES_AND_PIDGINS_OTHER
        } else if raw == 128 {
            Language::MAORI
        } else if raw == 129 {
            Language::WOLOF
        } else if raw == 130 {
            Language::ABKHAZIAN
        } else if raw == 131 {
            Language::AFAR
        } else if raw == 132 {
            Language::AYMARA
        } else if raw == 133 {
            Language::BASHKIR
        } else if raw == 134 {
            Language::BISLAMA
        } else if raw == 135 {
            Language::DZONGKHA
        } else if raw == 136 {
            Language::FIJIAN
        } else if raw == 137 {
            Language::GREENLANDIC
        } else if raw == 138 {
            Language::HAUSA
        } else if raw == 139 {
            Language::HAITIAN_CREOLE
        } else if raw == 140 {
            Language::INUPIAK
        } else if raw == 141 {
            Language::INUKTITUT
        } else if raw == 142 {
            Language::KASHMIRI
        } else if raw == 143 {
            Language::KINYARWANDA
        } else if raw == 144 {
            Language::MALAGASY
        } else if raw == 145 {
            Language::NAURU
        } else if raw == 146 {
            Language::OROMO
        } else if raw == 147 {
            Language::RUNDI
        } else if raw == 148 {
            Language::SAMOAN
        } else if raw == 149 {
            Language::SANGO
        } else if raw == 150 {
            Language::SANSKRIT
        } else if raw == 151 {
            Language::SISWANT
        } else if raw == 152 {
            Language::TSONGA
        } else if raw == 153 {
            Language::TSWANA
        } else if raw == 154 {
            Language::VOLAPUK
        } else if raw == 155 {
            Language::ZHUANG
        } else if raw == 156 {
            Language::KHASI
        } else if raw == 157 {
            Language::SCOTS
        } else if raw == 158 {
            Language::GANDA
        } else if raw == 159 {
            Language::MANX
        } else if raw == 160 {
            Language::MONTENEGRIN
        } else {
            Language::ENGLISH
        }
    }

    /// Raw integer form of this variant; always inside the closed range.
    pub fn as_raw(self) -> (r: i32)
        ensures
            r == self.id(),
            0 <= r < 161,
    {
        match self {
            Language::ENGLISH => 0,
            Language::DANISH => 1,
            Language::DUTCH => 2,
            Language::FINNISH => 3,
            Language::FRENCH => 4,
            Language::GERMAN => 5,
            Language::HEBREW => 6,
            Language::ITALIAN => 7,
            Language::JAPANESE => 8,
            Language::KOREAN => 9,
            Language::NORWEGIAN => 10,
            Language::POLISH => 11,
            Language::PORTUGUESE => 12,
            Language::RUSSIAN => 13,
            Language::SPANISH => 14,
            Language::SWEDISH => 15,
            Language::CHINESE => 16,
            Language::CZECH => 17,
            Language::GREEK => 18,
            Language::ICELANDIC => 19,
            Language::LATVIAN => 20,
            Language::LITHUANIAN => 21,
            Language::ROMANIAN => 22,
            Language::HUNGARIAN => 23,
            Language::ESTONIAN => 24,
            Language::TG_UNKNOWN_LANGUAGE => 25,
            Language::UNKNOWN_LANGUAGE => 26,
            Language::BULGARIAN => 27,
            Language::CROATIAN => 28,
            Language::SERBIAN => 29,
            Language::IRISH => 30,
            Language::GALICIAN => 31,
            Language::TAGALOG => 32,
            Language::TURKISH => 33,
            Language::UKRAINIAN => 34,
            Language::HINDI => 35,
            Language::MACEDONIAN => 36,
            Language::BENGALI => 37,
            Language::INDONESIAN => 38,
            Language::LATIN => 39,
            Language::MALAY => 40,
            Language::MALAYALAM => 41,
            Language::WELSH => 42,
            Language::NEPALI => 43,
            Language::TELUGU => 44,
            Language::ALBANIAN => 45,
            Language::TAMIL => 46,
            Language::BELARUSIAN => 47,
            Language::JAVANESE => 48,
            Language::OCCITAN => 49,
            Language::URDU => 50,
            Language::BIHARI => 51,
            Language::GUJARATI => 52,
            Language::THAI => 53,
            Language::ARABIC => 54,
            Language::CATALAN => 55,
            Language::ESPERANTO => 56,
            Language::BASQUE => 57,
            Language::INTERLINGUA => 58,
            Language::KANNADA => 59,
            Language::PUNJABI => 60,
            Language::SCOTS_GAELIC => 61,
            Language::SWAHILI => 62,
            Language::SLOVENIAN => 63,
            Language::MARATHI => 64,
            Language::MALTESE => 65,
            Language::VIETNAMESE => 66,
            Language::FRISIAN => 67,
            Language::SLOVAK => 68,
            Language::CHINESE_T => 69,
            Language::FAROESE => 70,
            Language::SUNDANESE => 71,
            Language::UZBEK => 72,
            Language::AMHARIC => 73,
            Language::AZERBAIJANI => 74,
            Language::GEORGIAN => 75,
            Language::TIGRINYA => 76,
            Language::PERSIAN => 77,
            Language::BOSNIAN => 78,
            Language::SINHALESE => 79,
            Language::NORWEGIAN_N => 80,
            Language::PORTUGUESE_P => 81,
            Language::PORTUGUESE_B => 82,
            Language::XHOSA => 83,
            Language::ZULU => 84,
            Language::GUARANI => 85,
            Language::SESOTHO => 86,
            Language::TURKMEN => 87,
            Language::KYRGYZ => 88,
            Language::BRETON => 89,
            Language::TWI => 90,
            Language::YIDDISH => 91,
            Language::SERBO_CROATIAN => 92,
            Language::SOMALI => 93,
            Language::UIGHUR => 94,
            Language::KURDISH => 95,
            Language::MONGOLIAN => 96,
            Language::ARMENIAN => 97,
            Language::LAOTHIAN => 98,
            Language::SINDHI => 99,
            Language::RHAETO_ROMANCE => 100,
            Language::AFRIKAANS => 101,
            Language::LUXEMBOURGISH => 102,
            Language::BURMESE => 103,
            Language::KHMER => 104,
            Language::TIBETAN => 105,
            Language::DHIVEHI => 106,
            Language::CHEROKEE => 107,
            Language::SYRIAC => 108,
            Language::LIMBU => 109,
            Language::ORIYA => 110,
            Language::ASSAMESE => 111,
            Language::CORSICAN => 112,
            Language::INTERLINGUE => 113,
            Language::KAZAKH => 114,
            Language::LINGALA => 115,
            Language::MOLDAVIAN => 116,
            Language::PASHTO => 117,
            Language::QUECHUA => 118,
            Language::SHONA => 119,
            Language::TAJIK => 120,
            Language::TATAR => 121,
            Language::TONGA => 122,
            Language::YORUBA => 123,
            Language::CREOLES_AND_PIDGINS_ENGLISH_BASED => 124,
            Language::CREOLES_AND_PIDGINS_FRENCH_BASED => 125,
            Language::CREOLES_AND_PIDGINS_PORTUGUESE_BASED => 126,
            Language::CREOLES_AND_PIDGINS_OTHER => 127,
            Language::MAORI => 128,
            Language::WOLOF => 129,
            Language::ABKHAZIAN => 130,
            Language::AFAR => 131,
            Language::AYMARA => 132,
            Language::BASHKIR => 133,
            Language::BISLAMA => 134,
            Language::DZONGKHA => 135,
            Language::FIJIAN => 136,
            Language::GREENLANDIC => 137,
            Language::HAUSA => 138,
            Language::HAITIAN_CREOLE => 139,
            Language::INUPIAK => 140,
            Language::INUKTITUT => 141,
            Language::KASHMIRI => 142,
            Language::KINYARWANDA => 143,
            Language::MALAGASY => 144,
            Language::NAURU => 145,
            Language::OROMO => 146,
            Language::RUNDI => 147,
            Language::SAMOAN => 148,
            Language::SANGO => 149,
            Language::SANSKRIT => 150,
            Language::SISWANT => 151,
            Language::TSONGA => 152,
            Language::TSWANA => 153,
            Language::VOLAPUK => 154,
            Language::ZHUANG => 155,
            Language::KHASI => 156,
            Language::SCOTS => 157,
            Language::GANDA => 158,
            Language::MANX => 159,
            Language::MONTENEGRIN => 160,
        }
    }

    /// Validates a raw integer at the boundary: every id inside the closed
    /// range yields its variant, everything else (the count sentinel
    /// included) is an [`InvalidEnumValue`].
    pub fn from_raw(raw: i32) -> (r: Result<Language, InvalidEnumValue>)
        ensures
            0 <= raw < 161 ==> r == Ok::<Language, InvalidEnumValue>(Language::spec_from_id(raw as int)),
            !(0 <= raw < 161) ==> r == Err::<Language, InvalidEnumValue>(InvalidEnumValue { raw }),
    {
        match raw {
            0 => Ok(Language::ENGLISH),
            1 => Ok(Language::DANISH),
            2 => Ok(Language::DUTCH),
            3 => Ok(Language::FINNISH),
            4 => Ok(Language::FRENCH),
            5 => Ok(Language::GERMAN),
            6 => Ok(Language::HEBREW),
            7 => Ok(Language::ITALIAN),
            8 => Ok(Language::JAPANESE),
            9 => Ok(Language::KOREAN),
            10 => Ok(Language::NORWEGIAN),
            11 => Ok(Language::POLISH),
            12 => Ok(Language::PORTUGUESE),
            13 => Ok(Language::RUSSIAN),
            14 => Ok(Language::SPANISH),
            15 => Ok(Language::SWEDISH),
            16 => Ok(Language::CHINESE),
            17 => Ok(Language::CZECH),
            18 => Ok(Language::GREEK),
            19 => Ok(Language::ICELANDIC),
            20 => Ok(Language::LATVIAN),
            21 => Ok(Language::LITHUANIAN),
            22 => Ok(Language::ROMANIAN),
            23 => Ok(Language::HUNGARIAN),
            24 => Ok(Language::ESTONIAN),
            25 => Ok(Language::TG_UNKNOWN_LANGUAGE),
            26 => Ok(Language::UNKNOWN_LANGUAGE),
            27 => Ok(Language::BULGARIAN),
            28 => Ok(Language::CROATIAN),
            29 => Ok(Language::SERBIAN),
            30 => Ok(Language::IRISH),
            31 => Ok(Language::GALICIAN),
            32 => Ok(Language::TAGALOG),
            33 => Ok(Language::TURKISH),
            34 => Ok(Language::UKRAINIAN),
            35 => Ok(Language::HINDI),
            36 => Ok(Language::MACEDONIAN),
            37 => Ok(Language::BENGALI),
            38 => Ok(Language::INDONESIAN),
            39 => Ok(Language::LATIN),
            40 => Ok(Language::MALAY),
            41 => Ok(Language::MALAYALAM),
            42 => Ok(Language::WELSH),
            43 => Ok(Language::NEPALI),
            44 => Ok(Language::TELUGU),
            45 => Ok(Language::ALBANIAN),
            46 => Ok(Language::TAMIL),
            47 => Ok(Language::BELARUSIAN),
            48 => Ok(Language::JAVANESE),
            49 => Ok(Language::OCCITAN),
            50 => Ok(Language::URDU),
            51 => Ok(Language::BIHARI),
            52 => Ok(Language::GUJARATI),
            53 => Ok(Language::THAI),
            54 => Ok(Language::ARABIC),
            55 => Ok(Language::CATALAN),
            56 => Ok(Language::ESPERANTO),
            57 => Ok(Language::BASQUE),
            58 => Ok(Language::INTERLINGUA),
            59 => Ok(Language::KANNADA),
            60 => Ok(Language::PUNJABI),
            61 => Ok(Language::SCOTS_GAELIC),
            62 => Ok(Language::SWAHILI),
            63 => Ok(Language::SLOVENIAN),
            64 => Ok(Language::MARATHI),
            65 => Ok(Language::MALTESE),
            66 => Ok(Language::VIETNAMESE),
            67 => Ok(Language::FRISIAN),
            68 => Ok(Language::SLOVAK),
            69 => Ok(Language::CHINESE_T),
            70 => Ok(Language::FAROESE),
            71 => Ok(Language::SUNDANESE),
            72 => Ok(Language::UZBEK),
            73 => Ok(Language::AMHARIC),
            74 => Ok(Language::AZERBAIJANI),
            75 => Ok(Language::GEORGIAN),
            76 => Ok(Language::TIGRINYA),
            77 => Ok(Language::PERSIAN),
            78 => Ok(Language::BOSNIAN),
            79 => Ok(Language::SINHALESE),
            80 => Ok(Language::NORWEGIAN_N),
            81 => Ok(Language::PORTUGUESE_P),
            82 => Ok(Language::PORTUGUESE_B),
            83 => Ok(Language::XHOSA),
            84 => Ok(Language::ZULU),
            85 => Ok(Language::GUARANI),
            86 => Ok(Language::SESOTHO),
            87 => Ok(Language::TURKMEN),
            88 => Ok(Language::KYRGYZ),
            89 => Ok(Language::BRETON),
            90 => Ok(Language::TWI),
            91 => Ok(Language::YIDDISH),
            92 => Ok(Language::SERBO_CROATIAN),
            93 => Ok(Language::SOMALI),
            94 => Ok(Language::UIGHUR),
            95 => Ok(Language::KURDISH),
            96 => Ok(Language::MONGOLIAN),
            97 => Ok(Language::ARMENIAN),
            98 => Ok(Language::LAOTHIAN),
            99 => Ok(Language::SINDHI),
            100 => Ok(Language::RHAETO_ROMANCE),
            101 => Ok(Language::AFRIKAANS),
            102 => Ok(Language::LUXEMBOURGISH),
            103 => Ok(Language::BURMESE),
            104 => Ok(Language::KHMER),
            105 => Ok(Language::TIBETAN),
            106 => Ok(Language::DHIVEHI),
            107 => Ok(Language::CHEROKEE),
            108 => Ok(Language::SYRIAC),
            109 => Ok(Language::LIMBU),
            110 => Ok(Language::ORIYA),
            111 => Ok(Language::ASSAMESE),
            112 => Ok(Language::CORSICAN),
            113 => Ok(Language::INTERLINGUE),
            114 => Ok(Language::KAZAKH),
            115 => Ok(Language::LINGALA),
            116 => Ok(Language::MOLDAVIAN),
            117 => Ok(Language::PASHTO),
            118 => Ok(Language::QUECHUA),
            119 => Ok(Language::SHONA),
            120 => Ok(Language::TAJIK),
            121 => Ok(Language::TATAR),
            122 => Ok(Language::TONGA),
            123 => Ok(Language::YORUBA),
            124 => Ok(Language::CREOLES_AND_PIDGINS_ENGLISH_BASED),
            125 => Ok(Language::CREOLES_AND_PIDGINS_FRENCH_BASED),
            126 => Ok(Language::CREOLES_AND_PIDGINS_PORTUGUESE_BASED),
            127 => Ok(Language::CREOLES_AND_PIDGINS_OTHER),
            128 => Ok(Language::MAORI),
            129 => Ok(Language::WOLOF),
            130 => Ok(Language::ABKHAZIAN),
            131 => Ok(Language::AFAR),
            132 => Ok(Language::AYMARA),
            133 => Ok(Language::BASHKIR),
            134 => Ok(Language::BISLAMA),
            135 => Ok(Language::DZONGKHA),
            136 => Ok(Language::FIJIAN),
            137 => Ok(Language::GREENLANDIC),
            138 => Ok(Language::HAUSA),
            139 => Ok(Language::HAITIAN_CREOLE),
            140 => Ok(Language::INUPIAK),
            141 => Ok(Language::INUKTITUT),
            142 => Ok(Language::KASHMIRI),
            143 => Ok(Language::KINYARWANDA),
            144 => Ok(Language::MALAGASY),
            145 => Ok(Language::NAURU),
            146 => Ok(Language::OROMO),
            147 => Ok(Language::RUNDI),
            148 => Ok(Language::SAMOAN),
            149 => Ok(Language::SANGO),
            150 => Ok(Language::SANSKRIT),
            151 => Ok(Language::SISWANT),
            152 => Ok(Language::TSONGA),
            153 => Ok(Language::TSWANA),
            154 => Ok(Language::VOLAPUK),
            155 => Ok(Language::ZHUANG),
            156 => Ok(Language::KHASI),
            157 => Ok(Language::SCOTS),
            158 => Ok(Language::GANDA),
            159 => Ok(Language::MANX),
            160 => Ok(Language::MONTENEGRIN),
            _ => Err(InvalidEnumValue { raw }),
        }
    }
}

/// Caller-declared context of the text, used to bias scoring priors.
#[allow(non_camel_case_types)]
#[derive(Copy, Clone, Debug, PartialEq, Eq, Hash, Structural)]
pub enum TextCorpusType {
    WEB_CORPUS,
    XML_CORPUS,
    QUERY_CORPUS,
    EMAIL_CORPUS,
}

impl TextCorpusType {
    /// The raw integer id of this variant.
    pub open spec fn id(self) -> int {
        match self {
            TextCorpusType::WEB_CORPUS => 0,
            TextCorpusType::XML_CORPUS => 1,
            TextCorpusType::QUERY_CORPUS => 2,
            TextCorpusType::EMAIL_CORPUS => 3,
        }
    }

    /// The variant with the given raw id; the low variant for ids outside
    /// the closed range.
    pub open spec fn spec_from_id(raw: int) -> TextCorpusType {
        if raw == 1 {
            TextCorpusType::XML_CORPUS
        } else if raw == 2 {
            TextCorpusType::QUERY_CORPUS
        } else if raw == 3 {
            TextCorpusType::EMAIL_CORPUS
        } else {
            TextCorpusType::WEB_CORPUS
        }
    }

    /// Raw integer form of this variant; always inside the closed range.
    pub fn as_raw(self) -> (r: i32)
        ensures
            r == self.id(),
            0 <= r < 4,
    {
        match self {
            TextCorpusType::WEB_CORPUS => 0,
            TextCorpusType::XML_CORPUS => 1,
            TextCorpusType::QUERY_CORPUS => 2,
            TextCorpusType::EMAIL_CORPUS => 3,
        }
    }

    /// Validates a raw integer at the boundary: every id inside the closed
    /// range yields its variant, everything else (the count sentinel
    /// included) is an [`InvalidEnumValue`].
    pub fn from_raw(raw: i32) -> (r: Result<TextCorpusType, InvalidEnumValue>)
        ensures
            0 <= raw < 4 ==> r == Ok::<TextCorpusType, InvalidEnumValue>(TextCorpusType::spec_from_id(raw as int)),
            !(0 <= raw < 4) ==> r == Err::<TextCorpusType, InvalidEnumValue>(InvalidEnumValue { raw }),
    {
        match raw {
            0 => Ok(TextCorpusType::WEB_CORPUS),
            1 => Ok(TextCorpusType::XML_CORPUS),
            2 => Ok(TextCorpusType::QUERY_CORPUS),
            3 => Ok(TextCorpusType::EMAIL_CORPUS),
            _ => Err(InvalidEnumValue { raw }),
        }
    }
}


/// Every encoding comes back unchanged from its raw id.
pub proof fn lemma_encoding_from_id_roundtrip(e: Encoding)
    ensures
        Encoding::spec_from_id(e.id()) == e,
{
}

} // verus!
