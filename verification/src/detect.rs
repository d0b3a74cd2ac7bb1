//! The detection pipeline: hint check, signature scan, structural filter,
//! statistical scoring, disambiguation, reliability estimate, assembly.
//!
//! The whole pipeline is specified by [`spec_detect`], a pure function from
//! the input bytes and hints to the detected encoding, the number of bytes
//! the decision looked at, and the reliability flag; the executable entry
//! points return exactly its value. Every path terminates in a result:
//! there is no failure outcome, only the unknown/ASCII fallback marked
//! unreliable.
use vstd::prelude::*;

use crate::enums::Encoding;
use crate::enums::Language;
use crate::enums::TextCorpusType;
use crate::hints::spec_soft_hint;
use crate::hints::soft_hint;
use crate::mime::mime_str;
use crate::mime::spec_mime;
use crate::models::ANALYSIS_WINDOW;
use crate::models::pm_scan;
use crate::models::pm_total_from;
use crate::models::pm_valid_from;
use crate::models::sb_scan;
use crate::models::sb_total_from;
use crate::models::sb_valid_from;
use crate::scan::find_bom;
use crate::scan::is_binary;
use crate::scan::spec_binary;
use crate::scan::spec_bom;
use crate::utf8::utf8_scan;
use crate::utf8::utf8_total_from;
use crate::utf8::utf8_valid_from;
use vstd::string::StringSliceAdditionalSpecFns;

verus! {

/// Lowest score any adjusted candidate can carry.
pub const SCORE_LO: i64 = -81920;

/// Highest score any adjusted candidate can carry.
pub const SCORE_HI: i64 = 1245184;

/// Raw engine result: the MIME name, the raw encoding id, how many bytes
/// the decision looked at, and whether the result is considered reliable.
#[derive(Debug, Clone, PartialEq)]
pub struct CedResult {
    pub mime_name: String,
    pub encoding: i32,
    pub bytes_consumed: i32,
    pub is_reliable: bool,
}

/// Typed detection result.
#[derive(Debug, Clone, PartialEq, Eq)]
pub struct Detection {
    pub mime_name: String,
    pub encoding: Encoding,
    pub bytes_consumed: usize,
    pub is_reliable: bool,
}

/// Caller-supplied hints for one detection call.
#[derive(Debug, Clone)]
pub struct DetectHints<'a> {
    pub url_hint: &'a str,
    pub http_charset_hint: &'a str,
    pub meta_charset_hint: &'a str,
    pub encoding_hint: Option<Encoding>,
    pub language_hint: Option<Language>,
    pub corpus_type: TextCorpusType,
    pub ignore_7bit_mail_encodings: bool,
}

impl<'a> Default for DetectHints<'a> {
    fn default() -> (r: Self)
        ensures
            r.url_hint@.len() == 0,
            r.http_charset_hint@.len() == 0,
            r.meta_charset_hint@.len() == 0,
            r.encoding_hint is None,
            r.language_hint is None,
            r.corpus_type == TextCorpusType::QUERY_CORPUS,
            r.ignore_7bit_mail_encodings == true,
    {
        proof {
            reveal_strlit("");
        }
        DetectHints {
            url_hint: "",
            http_charset_hint: "",
            meta_charset_hint: "",
            encoding_hint: None,
            language_hint: None,
            corpus_type: TextCorpusType::QUERY_CORPUS,
            ignore_7bit_mail_encodings: true,
        }
    }
}

/// The corpus id actually used: ids outside the closed range fall back to
/// the web corpus.
pub open spec fn spec_corpus(raw: int) -> int {
    if 0 <= raw < 4 {
        raw
    } else {
        0
    }
}

/// Smallest window, in bytes, a reliable statistical or forced-hint verdict
/// needs; the query corpus assumes short dense text and asks for less.
pub open spec fn spec_min_sample(corpus: int) -> int {
    if corpus == 2 {
        32
    } else {
        64
    }
}

fn min_sample_x(corpus: i32) -> (r: usize)
    ensures
        r as int == spec_min_sample(corpus as int),
{
    if corpus == 2 {
        32
    } else {
        64
    }
}

/// Structural validity of the window under an encoding, selected by the
/// encoding's id and checked per family: strict UTF-8, the paired rules of
/// the Shift_JIS, GB, EUC and escape families, pure seven-bit for the
/// seven-bit mail family, and the single-byte page rules; encodings with no
/// structural constraint accept anything.
pub open spec fn spec_validator_ok(e: Encoding, s: Seq<u8>) -> bool {
    let id = e.id();
    if id == 22 || id == 63 {
        utf8_valid_from(s, 0)
    } else if id == 11 || id == 21 || id == 70 || id == 71 || id == 72 {
        pm_valid_from(Encoding::JAPANESE_SHIFT_JIS, s, 0)
    } else if id == 13 || id == 14 || id == 15 || id == 20 || id == 45 || id == 46 || id == 47 {
        pm_valid_from(Encoding::CHINESE_GB, s, 0)
    } else if id == 10 || id == 16 || id == 18 {
        pm_valid_from(Encoding::KOREAN_EUC_KR, s, 0)
    } else if id == 12 {
        pm_valid_from(Encoding::JAPANESE_JIS, s, 0)
    } else if id == 24 || id == 44 || id == 48 || id == 54 || id == 62 || id == 73 || id == 74 {
        sb_valid_from(Encoding::ASCII_7BIT, s, 0)
    } else if id == 26 {
        sb_valid_from(Encoding::RUSSIAN_CP1251, s, 0)
    } else {
        true
    }
}

fn validator_ok_x(e: Encoding, bytes: &[u8], w: usize) -> (r: bool)
    requires
        w <= bytes@.len(),
        w <= ANALYSIS_WINDOW,
    ensures
        r == spec_validator_ok(e, bytes@.take(w as int)),
{
    let id = e.as_raw();
    if id == 22 || id == 63 {
        utf8_scan(bytes, w).is_some()
    } else if id == 11 || id == 21 || id == 70 || id == 71 || id == 72 {
        pm_scan(Encoding::JAPANESE_SHIFT_JIS, bytes, w).is_some()
    } else if id == 13 || id == 14 || id == 15 || id == 20 || id == 45 || id == 46 || id == 47 {
        pm_scan(Encoding::CHINESE_GB, bytes, w).is_some()
    } else if id == 10 || id == 16 || id == 18 {
        pm_scan(Encoding::KOREAN_EUC_KR, bytes, w).is_some()
    } else if id == 12 {
        pm_scan(Encoding::JAPANESE_JIS, bytes, w).is_some()
    } else if id == 24 || id == 44 || id == 48 || id == 54 || id == 62 || id == 73 || id == 74 {
        sb_scan(Encoding::ASCII_7BIT, bytes, w).is_some()
    } else if id == 26 {
        sb_scan(Encoding::RUSSIAN_CP1251, bytes, w).is_some()
    } else {
        true
    }
}

/// Raw model score of a statistical candidate over the window, or `None`
/// where the window is not structurally well-formed for it.
pub open spec fn spec_base(e: Encoding, s: Seq<u8>) -> Option<int> {
    if e == Encoding::UTF8 {
        if utf8_valid_from(s, 0) {
            Some(utf8_total_from(s, 0))
        } else {
            None
        }
    } else if e == Encoding::JAPANESE_SHIFT_JIS || e == Encoding::CHINESE_GB || e
        == Encoding::KOREAN_EUC_KR || e == Encoding::JAPANESE_JIS {
        if pm_valid_from(e, s, 0) {
            Some(pm_total_from(e, s, 0))
        } else {
            None
        }
    } else {
        if sb_valid_from(e, s, 0) {
            Some(sb_total_from(e, s, 0))
        } else {
            None
        }
    }
}

/// Whether a language hint selects an encoding's language model.
pub open spec fn spec_lang_match(e: Encoding, lang: int) -> bool {
    (lang == 13 && (e == Encoding::RUSSIAN_CP1251 || e == Encoding::RUSSIAN_KOI8_R)) || (lang == 8
        && (e == Encoding::JAPANESE_SHIFT_JIS || e == Encoding::JAPANESE_JIS)) || ((lang == 16
        || lang == 69) && e == Encoding::CHINESE_GB) || (lang == 9 && e == Encoding::KOREAN_EUC_KR)
}

fn lang_match_x(e: Encoding, lang: i32) -> (r: bool)
    ensures
        r == spec_lang_match(e, lang as int),
{
    (lang == 13 && (e == Encoding::RUSSIAN_CP1251 || e == Encoding::RUSSIAN_KOI8_R)) || (lang == 8
        && (e == Encoding::JAPANESE_SHIFT_JIS || e == Encoding::JAPANESE_JIS)) || ((lang == 16
        || lang == 69) && e == Encoding::CHINESE_GB) || (lang == 9 && e == Encoding::KOREAN_EUC_KR)
}

/// Adjusted score of a candidate: the raw score plus the soft-hint bonus
/// (two points per window byte), the language-hint bonus and the corpus
/// prior (one point per window byte each), gated by the length-normalized
/// confidence floor of one point per byte. The seven-bit mail family is
/// suppressed outright for an email corpus that asks to ignore it.
pub open spec fn spec_adj_from_base(
    base: Option<int>,
    e: Encoding,
    n: int,
    soft: Option<Encoding>,
    lang: int,
    corpus: int,
    ig7: bool,
) -> Option<int> {
    if e == Encoding::JAPANESE_JIS && ig7 && corpus == 3 {
        None
    } else {
        match base {
            None => None,
            Some(t) => {
                let a: int = t + (if soft == Some(e) {
                    2 * n
                } else {
                    0
                }) + (if spec_lang_match(e, lang) {
                    n
                } else {
                    0
                }) + (if corpus == 3 && (e == Encoding::ASCII_7BIT || e == Encoding::UTF8) {
                    n
                } else {
                    0
                });
                if a >= n {
                    Some(a)
                } else {
                    None
                }
            },
        }
    }
}

/// Adjusted score of a candidate over the window; `None` where the
/// candidate is pruned (structurally invalid, suppressed, or under the
/// confidence floor).
pub open spec fn spec_adj(
    e: Encoding,
    s: Seq<u8>,
    n: int,
    soft: Option<Encoding>,
    lang: int,
    corpus: int,
    ig7: bool,
) -> Option<int> {
    spec_adj_from_base(spec_base(e, s), e, n, soft, lang, corpus, ig7)
}

/// Spec view of an `Option<i64>` score.
pub open spec fn opt_score(o: Option<i64>) -> Option<int> {
    match o {
        None => None,
        Some(v) => Some(v as int),
    }
}

/// Spec view of a best-candidate register.
pub open spec fn opt_best(o: Option<(Encoding, i64)>) -> Option<(Encoding, int)> {
    match o {
        None => None,
        Some(p) => Some((p.0, p.1 as int)),
    }
}

fn adjust(
    e: Encoding,
    base: Option<i64>,
    n: usize,
    soft: Option<Encoding>,
    lang: i32,
    corpus: i32,
    ig7: bool,
) -> (r: Option<i64>)
    requires
        n <= ANALYSIS_WINDOW,
        base matches Some(t) ==> -20 * (n as int) <= t <= 300 * (n as int),
    ensures
        opt_score(r) == spec_adj_from_base(opt_score(base), e, n as int, soft, lang as int,
            corpus as int, ig7),
        r matches Some(v) ==> SCORE_LO <= v <= SCORE_HI,
{
    if e == Encoding::JAPANESE_JIS && ig7 && corpus == 3 {
        return None;
    }
    match base {
        None => None,
        Some(t) => {
            let is_soft = match soft {
                Some(se) => se == e,
                None => false,
            };
            let mut a: i64 = t;
            if is_soft {
                a = a + 2 * (n as i64);
            }
            if lang_match_x(e, lang) {
                a = a + n as i64;
            }
            if corpus == 3 && (e == Encoding::ASCII_7BIT || e == Encoding::UTF8) {
                a = a + n as i64;
            }
            if a >= n as i64 {
                Some(a)
            } else {
                None
            }
        },
    }
}

/// Whether a candidate beats the current best, by the deterministic order:
/// higher score first; on numerically equal scores the soft-hinted encoding
/// first, then the lower encoding id. All structurally valid candidates
/// consume the full window, so consumed length never separates them.
pub open spec fn spec_beats(
    e: Encoding,
    v: int,
    be: Encoding,
    bv: int,
    soft: Option<Encoding>,
) -> bool {
    v > bv || (v == bv && ((soft == Some(e) && soft != Some(be)) || ((soft == Some(e)) == (soft
        == Some(be)) && e.id() < be.id())))
}

/// Larger of a possibly-absent runner-up score and a new score.
pub open spec fn spec_max_opt(o: Option<int>, v: int) -> Option<int> {
    match o {
        None => Some(v),
        Some(u) => Some(
            if u >= v {
                u
            } else {
                v
            },
        ),
    }
}

/// One step of winner selection: folds one candidate with its adjusted
/// score into the (best, runner-up score) register.
pub open spec fn spec_consider(
    st: (Option<(Encoding, int)>, Option<int>),
    e: Encoding,
    sc: Option<int>,
    soft: Option<Encoding>,
) -> (Option<(Encoding, int)>, Option<int>) {
    match sc {
        None => st,
        Some(v) => match st.0 {
            None => (Some((e, v)), st.1),
            Some(b) => if spec_beats(e, v, b.0, b.1, soft) {
                (Some((e, v)), spec_max_opt(st.1, b.1))
            } else {
                (st.0, spec_max_opt(st.1, v))
            },
        },
    }
}

fn consider_step(
    best: Option<(Encoding, i64)>,
    runner: Option<i64>,
    e: Encoding,
    sc: Option<i64>,
    soft: Option<Encoding>,
) -> (r: (Option<(Encoding, i64)>, Option<i64>))
    requires
        best matches Some(b) ==> SCORE_LO <= b.1 <= SCORE_HI,
        runner matches Some(v) ==> SCORE_LO <= v <= SCORE_HI,
        sc matches Some(v) ==> SCORE_LO <= v <= SCORE_HI,
    ensures
        (opt_best(r.0), opt_score(r.1)) == spec_consider(
            (opt_best(best), opt_score(runner)),
            e,
            opt_score(sc),
            soft,
        ),
        r.0 matches Some(b) ==> SCORE_LO <= b.1 <= SCORE_HI,
        r.1 matches Some(v) ==> SCORE_LO <= v <= SCORE_HI,
{
    match sc {
        None => (best, runner),
        Some(v) => match best {
            None => (Some((e, v)), runner),
            Some(b) => {
                let e_soft = match soft {
                    Some(se) => se == e,
                    None => false,
                };
                let b_soft = match soft {
                    Some(se) => se == b.0,
                    None => false,
                };
                let beats = v > b.1 || (v == b.1 && ((e_soft && !b_soft) || (e_soft == b_soft
                    && e.as_raw() < b.0.as_raw())));
                let bumped = b.1;
                let other = if beats {
                    bumped
                } else {
                    v
                };
                let new_runner = match runner {
                    None => Some(other),
                    Some(u) => Some(
                        if u >= other {
                            u
                        } else {
                            other
                        },
                    ),
                };
                if beats {
                    (Some((e, v)), new_runner)
                } else {
                    (best, new_runner)
                }
            },
        },
    }
}

/// Winner selection over the fixed candidate pool, in a fixed fold order;
/// the comparator makes the outcome independent of that order.
#[verifier::opaque]
pub open spec fn spec_stat_winner(
    s: Seq<u8>,
    n: int,
    soft: Option<Encoding>,
    lang: int,
    corpus: int,
    ig7: bool,
) -> (Option<(Encoding, int)>, Option<int>) {
    let st0 = (None::<(Encoding, int)>, None::<int>);
    let st1 = spec_consider(st0, Encoding::UTF8, spec_adj(Encoding::UTF8, s, n, soft, lang, corpus,
        ig7), soft);
    let st2 = spec_consider(st1, Encoding::JAPANESE_SHIFT_JIS, spec_adj(
        Encoding::JAPANESE_SHIFT_JIS, s, n, soft, lang, corpus, ig7), soft);
    let st3 = spec_consider(st2, Encoding::CHINESE_GB, spec_adj(Encoding::CHINESE_GB, s, n, soft,
        lang, corpus, ig7), soft);
    let st4 = spec_consider(st3, Encoding::KOREAN_EUC_KR, spec_adj(Encoding::KOREAN_EUC_KR, s, n,
        soft, lang, corpus, ig7), soft);
    let st5 = spec_consider(st4, Encoding::RUSSIAN_CP1251, spec_adj(Encoding::RUSSIAN_CP1251, s, n,
        soft, lang, corpus, ig7), soft);
    let st6 = spec_consider(st5, Encoding::RUSSIAN_KOI8_R, spec_adj(Encoding::RUSSIAN_KOI8_R, s, n,
        soft, lang, corpus, ig7), soft);
    let st7 = spec_consider(st6, Encoding::ISO_8859_1, spec_adj(Encoding::ISO_8859_1, s, n, soft,
        lang, corpus, ig7), soft);
    let st8 = spec_consider(st7, Encoding::ASCII_7BIT, spec_adj(Encoding::ASCII_7BIT, s, n, soft,
        lang, corpus, ig7), soft);
    spec_consider(st8, Encoding::JAPANESE_JIS, spec_adj(Encoding::JAPANESE_JIS, s, n, soft, lang,
        corpus, ig7), soft)
}

/// Statistical verdict over the window: the winner of the candidate pool
/// with its reliability, or the unknown fallback where the pool is empty.
/// Reliability asks for no forced-hint fallback, a window at least the
/// minimum sample, and a margin of one point per byte over the runner-up.
pub open spec fn spec_statistical(
    s: Seq<u8>,
    n: int,
    soft: Option<Encoding>,
    lang: int,
    corpus: int,
    ig7: bool,
    fallback: bool,
) -> (Encoding, int, bool) {
    let st = spec_stat_winner(s, n, soft, lang, corpus, ig7);
    match st.0 {
        None => (Encoding::UNKNOWN_ENCODING, n, false),
        Some(w) => (
            w.0,
            n,
            !fallback && n >= spec_min_sample(corpus) && (match st.1 {
                None => true,
                Some(rv) => w.1 - rv >= n,
            }),
        ),
    }
}

/// Length of the analysis window actually evaluated: the whole buffer, up
/// to the fixed maximum prefix.
pub open spec fn spec_window_len(bytes: Seq<u8>) -> int {
    if bytes.len() > ANALYSIS_WINDOW {
        ANALYSIS_WINDOW as int
    } else {
        bytes.len() as int
    }
}

/// The analysis window itself.
pub open spec fn spec_window(bytes: Seq<u8>) -> Seq<u8> {
    bytes.take(spec_window_len(bytes))
}

/// The clamped language hint: ids outside the closed range mean "no hint".
pub open spec fn spec_lang_clamp(raw: int) -> int {
    if 0 <= raw < 161 {
        raw
    } else {
        -1
    }
}

/// The whole detection pipeline as a pure function.
///
/// An empty buffer is the ASCII fallback, unreliable. A forced encoding
/// hint inside the closed range dominates if the window is structurally
/// possible for it; otherwise the pipeline falls back to detection with the
/// reliability flag withdrawn. A byte-order mark, then binary content, are
/// authoritative signatures; otherwise the statistical verdict decides.
pub open spec fn spec_detect(
    bytes: Seq<u8>,
    url: Seq<u8>,
    http: Seq<u8>,
    meta: Seq<u8>,
    enc_hint: int,
    lang_hint: int,
    corpus_raw: int,
    ig7: bool,
) -> (Encoding, int, bool) {
    let corpus: int = spec_corpus(corpus_raw);
    let n: int = spec_window_len(bytes);
    let w = spec_window(bytes);
    if bytes.len() == 0 {
        (Encoding::ASCII_7BIT, 0, false)
    } else if 0 <= enc_hint < 75 && spec_validator_ok(Encoding::spec_from_id(enc_hint), w) {
        (Encoding::spec_from_id(enc_hint), n, n >= spec_min_sample(corpus))
    } else {
        let fallback: bool = 0 <= enc_hint < 75;
        match spec_bom(bytes) {
            Some(bm) => (
                bm.0,
                if bytes.len() > bm.1 + 16 {
                    bm.1 + 16
                } else {
                    bytes.len() as int
                },
                !fallback,
            ),
            None => if spec_binary(bytes) {
                (
                    Encoding::BINARYENC,
                    if bytes.len() > 64 {
                        64 as int
                    } else {
                        bytes.len() as int
                    },
                    !fallback,
                )
            } else {
                spec_statistical(w, n, spec_soft_hint(http, meta, url), spec_lang_clamp(lang_hint),
                    corpus, ig7, fallback)
            },
        }
    }
}

fn assemble(e: Encoding, consumed: usize, rel: bool) -> (r: CedResult)
    requires
        consumed <= ANALYSIS_WINDOW,
    ensures
        r.encoding == e.id(),
        0 <= r.encoding < 75,
        r.bytes_consumed == consumed,
        r.is_reliable == rel,
        r.mime_name@ == spec_mime(e),
{
    CedResult {
        mime_name: mime_str(e).to_owned(),
        encoding: e.as_raw(),
        bytes_consumed: consumed as i32,
        is_reliable: rel,
    }
}

/// Detects the character encoding of `bytes` from raw hint values, exactly
/// as [`spec_detect`] describes.
#[verifier::rlimit(100)]
pub fn ced_detect_encoding(
    bytes: &[u8],
    url_hint: &str,
    http_charset_hint: &str,
    meta_charset_hint: &str,
    encoding_hint: i32,
    language_hint: i32,
    corpus_type: i32,
    ignore_7bit_mail_encodings: bool,
) -> (r: CedResult)
    ensures
        ({
            let d = spec_detect(
                bytes@,
                url_hint.spec_bytes(),
                http_charset_hint.spec_bytes(),
                meta_charset_hint.spec_bytes(),
                encoding_hint as int,
                language_hint as int,
                corpus_type as int,
                ignore_7bit_mail_encodings,
            );
            r.encoding == d.0.id() && r.bytes_consumed == d.1 && r.is_reliable == d.2
                && r.mime_name@ == spec_mime(d.0)
        }),
        0 <= r.encoding < 75,
        0 <= r.bytes_consumed <= bytes@.len(),
{
    let len = bytes.len();
    let corpus: i32 = if corpus_type >= 0 && corpus_type < 4 {
        corpus_type
    } else {
        0
    };
    if len == 0 {
        return assemble(Encoding::ASCII_7BIT, 0, false);
    }
    let n: usize = if len > ANALYSIS_WINDOW {
        ANALYSIS_WINDOW
    } else {
        len
    };
    let mut fallback = false;
    if encoding_hint >= 0 && encoding_hint < 75 {
        let e = match Encoding::from_raw(encoding_hint) {
            Ok(e) => e,
            Err(_) => {
                proof {
                    assert(false);
                }
                Encoding::UNKNOWN_ENCODING
            },
        };
        if validator_ok_x(e, bytes, n) {
            let ms = min_sample_x(corpus);
            return assemble(e, n, n >= ms);
        }
        fallback = true;
    }
    if let Some(bm) = find_bom(bytes) {
        let c: usize = if len > bm.1 + 16 {
            bm.1 + 16
        } else {
            len
        };
        return assemble(bm.0, c, !fallback);
    }
    if is_binary(bytes) {
        let c: usize = if len > 64 {
            64
        } else {
            len
        };
        return assemble(Encoding::BINARYENC, c, !fallback);
    }
    let soft = soft_hint(http_charset_hint, meta_charset_hint, url_hint);
    let lang: i32 = if language_hint >= 0 && language_hint < 161 {
        language_hint
    } else {
        -1
    };
    let v = run_statistical(bytes, n, soft, lang, corpus, ignore_7bit_mail_encodings, fallback);
    assemble(v.0, n, v.1)
}

/// Runs structural filtering, statistical scoring, disambiguation and the
/// reliability estimate over the window, returning the winning encoding and
/// its reliability, exactly as [`spec_statistical`] describes.
fn run_statistical(
    bytes: &[u8],
    n: usize,
    soft: Option<Encoding>,
    lang: i32,
    corpus: i32,
    ig7: bool,
    fallback: bool,
) -> (r: (Encoding, bool))
    requires
        n <= bytes@.len(),
        n <= ANALYSIS_WINDOW,
    ensures
        ({
            let d = spec_statistical(
                bytes@.take(n as int),
                n as int,
                soft,
                lang as int,
                corpus as int,
                ig7,
                fallback,
            );
            r.0 == d.0 && r.1 == d.2 && d.1 == n as int
        }),
{
    let ghost s = bytes@.take(n as int);
    let ghost ni: int = n as int;
    let ghost li: int = lang as int;
    let ghost ci: int = corpus as int;

    let b_utf8 = utf8_scan(bytes, n);
    let b_sjis = pm_scan(Encoding::JAPANESE_SHIFT_JIS, bytes, n);
    let b_gb = pm_scan(Encoding::CHINESE_GB, bytes, n);
    let b_euckr = pm_scan(Encoding::KOREAN_EUC_KR, bytes, n);
    let b_jis = pm_scan(Encoding::JAPANESE_JIS, bytes, n);
    let b_cp1251 = sb_scan(Encoding::RUSSIAN_CP1251, bytes, n);
    let b_koi8 = sb_scan(Encoding::RUSSIAN_KOI8_R, bytes, n);
    let b_lat1 = sb_scan(Encoding::ISO_8859_1, bytes, n);
    let b_ascii = sb_scan(Encoding::ASCII_7BIT, bytes, n);

    let a_utf8 = adjust(Encoding::UTF8, b_utf8, n, soft, lang, corpus, ig7);
    let a_sjis = adjust(Encoding::JAPANESE_SHIFT_JIS, b_sjis, n, soft, lang, corpus, ig7);
    let a_gb = adjust(Encoding::CHINESE_GB, b_gb, n, soft, lang, corpus, ig7);
    let a_euckr = adjust(Encoding::KOREAN_EUC_KR, b_euckr, n, soft, lang, corpus, ig7);
    let a_jis = adjust(Encoding::JAPANESE_JIS, b_jis, n, soft, lang, corpus, ig7);
    let a_cp1251 = adjust(Encoding::RUSSIAN_CP1251, b_cp1251, n, soft, lang, corpus, ig7);
    let a_koi8 = adjust(Encoding::RUSSIAN_KOI8_R, b_koi8, n, soft, lang, corpus, ig7);
    let a_lat1 = adjust(Encoding::ISO_8859_1, b_lat1, n, soft, lang, corpus, ig7);
    let a_ascii = adjust(Encoding::ASCII_7BIT, b_ascii, n, soft, lang, corpus, ig7);

    proof {
        assert(opt_score(a_utf8) == spec_adj(Encoding::UTF8, s, ni, soft, li, ci, ig7));
        assert(opt_score(a_sjis) == spec_adj(Encoding::JAPANESE_SHIFT_JIS, s, ni, soft, li, ci,
            ig7));
        assert(opt_score(a_gb) == spec_adj(Encoding::CHINESE_GB, s, ni, soft, li, ci, ig7));
        assert(opt_score(a_euckr) == spec_adj(Encoding::KOREAN_EUC_KR, s, ni, soft, li, ci, ig7));
        assert(opt_score(a_jis) == spec_adj(Encoding::JAPANESE_JIS, s, ni, soft, li, ci, ig7));
        assert(opt_score(a_cp1251) == spec_adj(Encoding::RUSSIAN_CP1251, s, ni, soft, li, ci, ig7));
        assert(opt_score(a_koi8) == spec_adj(Encoding::RUSSIAN_KOI8_R, s, ni, soft, li, ci, ig7));
        assert(opt_score(a_lat1) == spec_adj(Encoding::ISO_8859_1, s, ni, soft, li, ci, ig7));
        assert(opt_score(a_ascii) == spec_adj(Encoding::ASCII_7BIT, s, ni, soft, li, ci, ig7));
    }

    let st = consider_step(None, None, Encoding::UTF8, a_utf8, soft);
    let st = consider_step(st.0, st.1, Encoding::JAPANESE_SHIFT_JIS, a_sjis, soft);
    let st = consider_step(st.0, st.1, Encoding::CHINESE_GB, a_gb, soft);
    let st = consider_step(st.0, st.1, Encoding::KOREAN_EUC_KR, a_euckr, soft);
    let st = consider_step(st.0, st.1, Encoding::RUSSIAN_CP1251, a_cp1251, soft);
    let st = consider_step(st.0, st.1, Encoding::RUSSIAN_KOI8_R, a_koi8, soft);
    let st = consider_step(st.0, st.1, Encoding::ISO_8859_1, a_lat1, soft);
    let st = consider_step(st.0, st.1, Encoding::ASCII_7BIT, a_ascii, soft);
    let st = consider_step(st.0, st.1, Encoding::JAPANESE_JIS, a_jis, soft);

    proof {
        reveal(spec_stat_winner);
        assert((opt_best(st.0), opt_score(st.1)) == spec_stat_winner(s, ni, soft, li, ci, ig7));
    }

    match st.0 {
        None => (Encoding::UNKNOWN_ENCODING, false),
        Some(w) => {
            let ms = min_sample_x(corpus);
            let margin_ok = match st.1 {
                None => true,
                Some(rv) => w.1 - rv >= n as i64,
            };
            (w.0, !fallback && n >= ms && margin_ok)
        },
    }
}

/// The forced encoding hint as a raw id, the sentinel for "no hint".
pub open spec fn spec_opt_enc(o: Option<Encoding>) -> int {
    match o {
        None => -1,
        Some(e) => e.id(),
    }
}

/// The language hint as a raw id, the sentinel for "no hint".
pub open spec fn spec_opt_lang(o: Option<Language>) -> int {
    match o {
        None => -1,
        Some(l) => l.id(),
    }
}

/// Detects the character encoding of `bytes` under the given hints,
/// returning exactly the verdict of [`spec_detect`] in typed form.
pub fn detect_encoding(bytes: &[u8], hints: DetectHints<'_>) -> (r: Detection)
    ensures
        ({
            let d = spec_detect(
                bytes@,
                hints.url_hint.spec_bytes(),
                hints.http_charset_hint.spec_bytes(),
                hints.meta_charset_hint.spec_bytes(),
                spec_opt_enc(hints.encoding_hint),
                spec_opt_lang(hints.language_hint),
                hints.corpus_type.id(),
                hints.ignore_7bit_mail_encodings,
            );
            r.encoding == d.0 && r.bytes_consumed == d.1 && r.is_reliable == d.2 && r.mime_name@
                == spec_mime(d.0)
        }),
        r.bytes_consumed <= bytes@.len(),
{
    let encoding_hint = match hints.encoding_hint {
        Some(e) => e.as_raw(),
        None => -1,
    };
    let language_hint = match hints.language_hint {
        Some(l) => l.as_raw(),
        None => -1,
    };

    let result = ced_detect_encoding(
        bytes,
        hints.url_hint,
        hints.http_charset_hint,
        hints.meta_charset_hint,
        encoding_hint,
        language_hint,
        hints.corpus_type.as_raw(),
        hints.ignore_7bit_mail_encodings,
    );

    let encoding = match Encoding::from_raw(result.encoding) {
        Ok(e) => e,
        Err(_) => Encoding::UNKNOWN_ENCODING,
    };
    proof {
        let d = spec_detect(
            bytes@,
            hints.url_hint.spec_bytes(),
            hints.http_charset_hint.spec_bytes(),
            hints.meta_charset_hint.spec_bytes(),
            spec_opt_enc(hints.encoding_hint),
            spec_opt_lang(hints.language_hint),
            hints.corpus_type.id(),
            hints.ignore_7bit_mail_encodings,
        );
        crate::enums::lemma_encoding_from_id_roundtrip(d.0);
    }
    Detection {
        mime_name: result.mime_name,
        encoding,
        bytes_consumed: result.bytes_consumed as usize,
        is_reliable: result.is_reliable,
    }
}

} // verus!
