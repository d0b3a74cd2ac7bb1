//! The general guarantees of the detector, each proved over [`spec_detect`].
use vstd::prelude::*;

use crate::detect::spec_adj;
use crate::detect::spec_consider;
use crate::detect::spec_corpus;
use crate::detect::spec_detect;
use crate::detect::spec_min_sample;
use crate::detect::spec_stat_winner;
use crate::detect::spec_validator_ok;
use crate::detect::spec_window;
use crate::detect::spec_window_len;
use crate::enums::Encoding;
use crate::scan::spec_binary;
use crate::scan::spec_bom;

verus! {

/// Every encoding carries a raw id inside the closed range.
pub proof fn lemma_id_in_range(e: Encoding)
    ensures
        0 <= e.id() < 75,
{
}

/// For every byte buffer and every hint set, detection returns an encoding
/// whose id lies in the closed enumerated range, the count sentinel
/// excluded.
pub proof fn lemma_detect_id_in_range(
    bytes: Seq<u8>,
    url: Seq<u8>,
    http: Seq<u8>,
    meta: Seq<u8>,
    enc_hint: int,
    lang_hint: int,
    corpus_raw: int,
    ig7: bool,
)
    ensures
        0 <= spec_detect(bytes, url, http, meta, enc_hint, lang_hint, corpus_raw, ig7).0.id() < 75,
{
    lemma_id_in_range(spec_detect(bytes, url, http, meta, enc_hint, lang_hint, corpus_raw, ig7).0);
}

/// Detection never reports having looked past the end of the input.
pub proof fn lemma_detect_consumed_bounded(
    bytes: Seq<u8>,
    url: Seq<u8>,
    http: Seq<u8>,
    meta: Seq<u8>,
    enc_hint: int,
    lang_hint: int,
    corpus_raw: int,
    ig7: bool,
)
    ensures
        ({
            let d = spec_detect(bytes, url, http, meta, enc_hint, lang_hint, corpus_raw, ig7);
            0 <= d.1 <= bytes.len()
        }),
{
}

/// A buffer that begins with the UTF-8 byte-order mark, under no forced
/// encoding hint, always yields the UTF-8 encoding, marked reliable; in
/// particular this covers every buffer of the mark followed by valid UTF-8
/// text.
pub proof fn lemma_utf8_bom_authoritative(
    bytes: Seq<u8>,
    url: Seq<u8>,
    http: Seq<u8>,
    meta: Seq<u8>,
    lang_hint: int,
    corpus_raw: int,
    ig7: bool,
)
    requires
        bytes.len() >= 3,
        bytes[0] == 0xef,
        bytes[1] == 0xbb,
        bytes[2] == 0xbf,
    ensures
        ({
            let d = spec_detect(bytes, url, http, meta, -1, lang_hint, corpus_raw, ig7);
            d.0 == Encoding::UTF8 && d.2 == true
        }),
{
}

/// An empty input yields the defined fallback: the seven-bit ASCII
/// encoding, zero bytes consumed, marked unreliable — never an error —
/// whatever the hints say.
pub proof fn lemma_empty_input_fallback(
    url: Seq<u8>,
    http: Seq<u8>,
    meta: Seq<u8>,
    enc_hint: int,
    lang_hint: int,
    corpus_raw: int,
    ig7: bool,
)
    ensures
        ({
            let d = spec_detect(Seq::<u8>::empty(), url, http, meta, enc_hint, lang_hint,
                corpus_raw, ig7);
            d.0 == Encoding::ASCII_7BIT && d.1 == 0 && d.2 == false
        }),
{
}

/// An input shorter than the minimum sample threshold is always marked
/// unreliable, however clean its statistical match, as long as no
/// authoritative signature (forced hint, byte-order mark, binary content)
/// decides first.
pub proof fn lemma_short_input_unreliable(
    bytes: Seq<u8>,
    url: Seq<u8>,
    http: Seq<u8>,
    meta: Seq<u8>,
    enc_hint: int,
    lang_hint: int,
    corpus_raw: int,
    ig7: bool,
)
    requires
        !(0 <= enc_hint < 75),
        spec_bom(bytes) is None,
        !spec_binary(bytes),
        bytes.len() < spec_min_sample(spec_corpus(corpus_raw)),
    ensures
        spec_detect(bytes, url, http, meta, enc_hint, lang_hint, corpus_raw, ig7).2 == false,
{
}

/// A forced encoding hint that is structurally compatible with the window
/// dominates: it is returned as the verdict, and on a window at least the
/// minimum sample it is marked reliable.
pub proof fn lemma_forced_hint_honored(
    bytes: Seq<u8>,
    url: Seq<u8>,
    http: Seq<u8>,
    meta: Seq<u8>,
    e: Encoding,
    lang_hint: int,
    corpus_raw: int,
    ig7: bool,
)
    requires
        bytes.len() > 0,
        spec_validator_ok(e, spec_window(bytes)),
        spec_window_len(bytes) >= spec_min_sample(spec_corpus(corpus_raw)),
    ensures
        ({
            let d = spec_detect(bytes, url, http, meta, e.id(), lang_hint, corpus_raw, ig7);
            d.0 == e && d.2 == true
        }),
{
    lemma_id_in_range(e);
    crate::enums::lemma_encoding_from_id_roundtrip(e);
}

/// A forced encoding hint that is structurally impossible for the byte
/// content is never echoed back with confidence: the pipeline falls back to
/// detection and the result is always marked unreliable — strictly below
/// the reliable verdict the same hint earns when it is compatible.
pub proof fn lemma_forced_hint_fallback_unreliable(
    bytes: Seq<u8>,
    url: Seq<u8>,
    http: Seq<u8>,
    meta: Seq<u8>,
    e: Encoding,
    lang_hint: int,
    corpus_raw: int,
    ig7: bool,
)
    requires
        bytes.len() > 0,
        !spec_validator_ok(e, spec_window(bytes)),
    ensures
        spec_detect(bytes, url, http, meta, e.id(), lang_hint, corpus_raw, ig7).2 == false,
{
    lemma_id_in_range(e);
    crate::enums::lemma_encoding_from_id_roundtrip(e);
}

/// The same forced hint earns strictly lower reliability on byte content it
/// is structurally incompatible with than on content it is compatible with:
/// unreliable on the former, reliable on the latter (given a window at
/// least the minimum sample).
pub proof fn lemma_forced_hint_reliability_strictly_lower(
    bad: Seq<u8>,
    good: Seq<u8>,
    url: Seq<u8>,
    http: Seq<u8>,
    meta: Seq<u8>,
    e: Encoding,
    lang_hint: int,
    corpus_raw: int,
    ig7: bool,
)
    requires
        bad.len() > 0,
        !spec_validator_ok(e, spec_window(bad)),
        good.len() > 0,
        spec_validator_ok(e, spec_window(good)),
        spec_window_len(good) >= spec_min_sample(spec_corpus(corpus_raw)),
    ensures
        ({
            let on_bad = spec_detect(bad, url, http, meta, e.id(), lang_hint, corpus_raw, ig7);
            let on_good = spec_detect(good, url, http, meta, e.id(), lang_hint, corpus_raw, ig7);
            on_bad.2 == false && on_good.2 == true && on_good.0 == e
        }),
{
    lemma_forced_hint_fallback_unreliable(bad, url, http, meta, e, lang_hint, corpus_raw, ig7);
    lemma_forced_hint_honored(good, url, http, meta, e, lang_hint, corpus_raw, ig7);
}

/// Where no signature decides, a structurally impossible forced hint never
/// comes back as the result at all: statistical selection picks another
/// encoding.
pub proof fn lemma_forced_hint_not_echoed(
    bytes: Seq<u8>,
    url: Seq<u8>,
    http: Seq<u8>,
    meta: Seq<u8>,
    e: Encoding,
    lang_hint: int,
    corpus_raw: int,
    ig7: bool,
)
    requires
        bytes.len() > 0,
        !spec_validator_ok(e, spec_window(bytes)),
        spec_bom(bytes) is None,
        !spec_binary(bytes),
    ensures
        spec_detect(bytes, url, http, meta, e.id(), lang_hint, corpus_raw, ig7).0 != e,
{
    lemma_id_in_range(e);
    crate::enums::lemma_encoding_from_id_roundtrip(e);
    let s = spec_window(bytes);
    let n = spec_window_len(bytes);
    let soft = crate::hints::spec_soft_hint(http, meta, url);
    let lang = crate::detect::spec_lang_clamp(lang_hint);
    let corpus = spec_corpus(corpus_raw);
    lemma_winner_from_pool(s, n, soft, lang, corpus, ig7);
    let w = spec_stat_winner(s, n, soft, lang, corpus, ig7).0;
    match w {
        Some(p) => {
            if p.0 == e {
                assert(false);
            }
        },
        None => {},
    }
}

/// The statistical winner, when there is one, is a member of the candidate
/// pool carrying its own adjusted score.
#[verifier::rlimit(100)]
pub proof fn lemma_winner_from_pool(
    s: Seq<u8>,
    n: int,
    soft: Option<Encoding>,
    lang: int,
    corpus: int,
    ig7: bool,
)
    ensures
        ({
            let w = spec_stat_winner(s, n, soft, lang, corpus, ig7).0;
            w matches Some(p) ==> ((p.0 == Encoding::UTF8 && Some(p.1) == spec_adj(Encoding::UTF8,
                s, n, soft, lang, corpus, ig7)) || (p.0 == Encoding::JAPANESE_SHIFT_JIS && Some(
                p.1,
            ) == spec_adj(Encoding::JAPANESE_SHIFT_JIS, s, n, soft, lang, corpus, ig7)) || (p.0
                == Encoding::CHINESE_GB && Some(p.1) == spec_adj(Encoding::CHINESE_GB, s, n, soft,
                lang, corpus, ig7)) || (p.0 == Encoding::KOREAN_EUC_KR && Some(p.1) == spec_adj(
                Encoding::KOREAN_EUC_KR, s, n, soft, lang, corpus, ig7)) || (p.0
                == Encoding::RUSSIAN_CP1251 && Some(p.1) == spec_adj(Encoding::RUSSIAN_CP1251, s,
                n, soft, lang, corpus, ig7)) || (p.0 == Encoding::RUSSIAN_KOI8_R && Some(p.1)
                == spec_adj(Encoding::RUSSIAN_KOI8_R, s, n, soft, lang, corpus, ig7)) || (p.0
                == Encoding::ISO_8859_1 && Some(p.1) == spec_adj(Encoding::ISO_8859_1, s, n, soft,
                lang, corpus, ig7)) || (p.0 == Encoding::ASCII_7BIT && Some(p.1) == spec_adj(
                Encoding::ASCII_7BIT, s, n, soft, lang, corpus, ig7)) || (p.0
                == Encoding::JAPANESE_JIS && Some(p.1) == spec_adj(Encoding::JAPANESE_JIS, s, n,
                soft, lang, corpus, ig7)))
        }),
{
    reveal(spec_stat_winner);
    let a1 = spec_adj(Encoding::UTF8, s, n, soft, lang, corpus, ig7);
    let a2 = spec_adj(Encoding::JAPANESE_SHIFT_JIS, s, n, soft, lang, corpus, ig7);
    let a3 = spec_adj(Encoding::CHINESE_GB, s, n, soft, lang, corpus, ig7);
    let a4 = spec_adj(Encoding::KOREAN_EUC_KR, s, n, soft, lang, corpus, ig7);
    let a5 = spec_adj(Encoding::RUSSIAN_CP1251, s, n, soft, lang, corpus, ig7);
    let a6 = spec_adj(Encoding::RUSSIAN_KOI8_R, s, n, soft, lang, corpus, ig7);
    let a7 = spec_adj(Encoding::ISO_8859_1, s, n, soft, lang, corpus, ig7);
    let a8 = spec_adj(Encoding::ASCII_7BIT, s, n, soft, lang, corpus, ig7);
    let a9 = spec_adj(Encoding::JAPANESE_JIS, s, n, soft, lang, corpus, ig7);
    let st0 = (None::<(Encoding, int)>, None::<int>);
    let st1 = spec_consider(st0, Encoding::UTF8, a1, soft);
    assert(st1.0 matches Some(p) ==> (p.0 == Encoding::UTF8 && Some(p.1) == a1));
    let st2 = spec_consider(st1, Encoding::JAPANESE_SHIFT_JIS, a2, soft);
    assert(st2.0 matches Some(p) ==> ((p.0 == Encoding::UTF8 && Some(p.1) == a1) || (p.0
        == Encoding::JAPANESE_SHIFT_JIS && Some(p.1) == a2)));
    let st3 = spec_consider(st2, Encoding::CHINESE_GB, a3, soft);
    assert(st3.0 matches Some(p) ==> ((p.0 == Encoding::UTF8 && Some(p.1) == a1) || (p.0
        == Encoding::JAPANESE_SHIFT_JIS && Some(p.1) == a2) || (p.0 == Encoding::CHINESE_GB && Some(
        p.1,
    ) == a3)));
    let st4 = spec_consider(st3, Encoding::KOREAN_EUC_KR, a4, soft);
    assert(st4.0 matches Some(p) ==> ((p.0 == Encoding::UTF8 && Some(p.1) == a1) || (p.0
        == Encoding::JAPANESE_SHIFT_JIS && Some(p.1) == a2) || (p.0 == Encoding::CHINESE_GB && Some(
        p.1,
    ) == a3) || (p.0 == Encoding::KOREAN_EUC_KR && Some(p.1) == a4)));
    let st5 = spec_consider(st4, Encoding::RUSSIAN_CP1251, a5, soft);
    assert(st5.0 matches Some(p) ==> ((p.0 == Encoding::UTF8 && Some(p.1) == a1) || (p.0
        == Encoding::JAPANESE_SHIFT_JIS && Some(p.1) == a2) || (p.0 == Encoding::CHINESE_GB && Some(
        p.1,
    ) == a3) || (p.0 == Encoding::KOREAN_EUC_KR && Some(p.1) == a4) || (p.0
        == Encoding::RUSSIAN_CP1251 && Some(p.1) == a5)));
    let st6 = spec_consider(st5, Encoding::RUSSIAN_KOI8_R, a6, soft);
    assert(st6.0 matches Some(p) ==> ((p.0 == Encoding::UTF8 && Some(p.1) == a1) || (p.0
        == Encoding::JAPANESE_SHIFT_JIS && Some(p.1) == a2) || (p.0 == Encoding::CHINESE_GB && Some(
        p.1,
    ) == a3) || (p.0 == Encoding::KOREAN_EUC_KR && Some(p.1) == a4) || (p.0
        == Encoding::RUSSIAN_CP1251 && Some(p.1) == a5) || (p.0 == Encoding::RUSSIAN_KOI8_R && Some(
        p.1,
    ) == a6)));
    let st7 = spec_consider(st6, Encoding::ISO_8859_1, a7, soft);
    assert(st7.0 matches Some(p) ==> ((p.0 == Encoding::UTF8 && Some(p.1) == a1) || (p.0
        == Encoding::JAPANESE_SHIFT_JIS && Some(p.1) == a2) || (p.0 == Encoding::CHINESE_GB && Some(
        p.1,
    ) == a3) || (p.0 == Encoding::KOREAN_EUC_KR && Some(p.1) == a4) || (p.0
        == Encoding::RUSSIAN_CP1251 && Some(p.1) == a5) || (p.0 == Encoding::RUSSIAN_KOI8_R && Some(
        p.1,
    ) == a6) || (p.0 == Encoding::ISO_8859_1 && Some(p.1) == a7)));
    let st8 = spec_consider(st7, Encoding::ASCII_7BIT, a8, soft);
    assert(st8.0 matches Some(p) ==> ((p.0 == Encoding::UTF8 && Some(p.1) == a1) || (p.0
        == Encoding::JAPANESE_SHIFT_JIS && Some(p.1) == a2) || (p.0 == Encoding::CHINESE_GB && Some(
        p.1,
    ) == a3) || (p.0 == Encoding::KOREAN_EUC_KR && Some(p.1) == a4) || (p.0
        == Encoding::RUSSIAN_CP1251 && Some(p.1) == a5) || (p.0 == Encoding::RUSSIAN_KOI8_R && Some(
        p.1,
    ) == a6) || (p.0 == Encoding::ISO_8859_1 && Some(p.1) == a7) || (p.0 == Encoding::ASCII_7BIT
        && Some(p.1) == a8)));
    let st9 = spec_consider(st8, Encoding::JAPANESE_JIS, a9, soft);
    assert(st9.0 matches Some(p) ==> ((p.0 == Encoding::UTF8 && Some(p.1) == a1) || (p.0
        == Encoding::JAPANESE_SHIFT_JIS && Some(p.1) == a2) || (p.0 == Encoding::CHINESE_GB && Some(
        p.1,
    ) == a3) || (p.0 == Encoding::KOREAN_EUC_KR && Some(p.1) == a4) || (p.0
        == Encoding::RUSSIAN_CP1251 && Some(p.1) == a5) || (p.0 == Encoding::RUSSIAN_KOI8_R && Some(
        p.1,
    ) == a6) || (p.0 == Encoding::ISO_8859_1 && Some(p.1) == a7) || (p.0 == Encoding::ASCII_7BIT
        && Some(p.1) == a8) || (p.0 == Encoding::JAPANESE_JIS && Some(p.1) == a9)));
    assert(spec_stat_winner(s, n, soft, lang, corpus, ig7) == st9);
}

} // verus!
