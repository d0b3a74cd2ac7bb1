use compact_enc_det::ced_detect_encoding;
use compact_enc_det::detect_encoding;
use compact_enc_det::DetectHints;
use compact_enc_det::Encoding;
use compact_enc_det::InvalidEnumValue;
use compact_enc_det::Language;
use compact_enc_det::TextCorpusType;

#[test]
fn detect_utf8_plain_text() {
    let payload = "Rust makes FFI safer. 编码检测 UTF-8 mixed text.".repeat(50);
    let detection = detect_encoding(payload.as_bytes(), DetectHints::default());

    assert_eq!(detection.encoding, Encoding::UTF8);
    assert!(detection.is_reliable);
    assert!(detection.bytes_consumed > 0);
}

#[test]
fn empty_input_yields_ascii_fallback_unreliable() {
    let detection = detect_encoding(&[], DetectHints::default());
    assert_eq!(detection.encoding, Encoding::ASCII_7BIT);
    assert_eq!(detection.bytes_consumed, 0);
    assert!(!detection.is_reliable);
    assert_eq!(detection.mime_name, "US-ASCII");
}

#[test]
fn utf8_bom_is_authoritative_and_reliable() {
    let mut payload = vec![0xefu8, 0xbb, 0xbf];
    payload.extend_from_slice("short valid UTF-8 text 编码".as_bytes());
    let detection = detect_encoding(&payload, DetectHints::default());
    assert_eq!(detection.encoding, Encoding::UTF8);
    assert!(detection.is_reliable);
    assert_eq!(detection.mime_name, "UTF-8");
}

#[test]
fn utf16_and_utf32_boms_are_recognized() {
    let le16 = [0xffu8, 0xfe, 0x41, 0x00, 0x42, 0x00];
    let d = detect_encoding(&le16, DetectHints::default());
    assert_eq!(d.encoding, Encoding::UTF16LE);
    assert!(d.is_reliable);

    let be16 = [0xfeu8, 0xff, 0x00, 0x41];
    let d = detect_encoding(&be16, DetectHints::default());
    assert_eq!(d.encoding, Encoding::UTF16BE);

    let le32 = [0xffu8, 0xfe, 0x00, 0x00, 0x41, 0x00, 0x00, 0x00];
    let d = detect_encoding(&le32, DetectHints::default());
    assert_eq!(d.encoding, Encoding::UTF32LE);

    let be32 = [0x00u8, 0x00, 0xfe, 0xff, 0x00, 0x00, 0x00, 0x41];
    let d = detect_encoding(&be32, DetectHints::default());
    assert_eq!(d.encoding, Encoding::UTF32BE);
}

#[test]
fn binary_content_is_a_confident_verdict() {
    let payload = [0u8; 256];
    let d = detect_encoding(&payload, DetectHints::default());
    assert_eq!(d.encoding, Encoding::BINARYENC);
    assert!(d.is_reliable);
    assert_eq!(d.bytes_consumed, 64);
}

#[test]
fn pure_ascii_text_is_ascii() {
    let payload = "The quick brown fox jumps over the lazy dog. ".repeat(20);
    let d = detect_encoding(payload.as_bytes(), DetectHints::default());
    assert_eq!(d.encoding, Encoding::ASCII_7BIT);
    assert!(d.is_reliable);
    assert_eq!(d.mime_name, "US-ASCII");
}

#[test]
fn short_input_is_always_unreliable() {
    // A clean statistical match, but under the minimum sample threshold.
    let payload = "short ascii text";
    assert!(payload.len() < 32);
    let d = detect_encoding(payload.as_bytes(), DetectHints::default());
    assert!(!d.is_reliable);
    assert_eq!(d.encoding, Encoding::ASCII_7BIT);
}

#[test]
fn window_is_bounded_for_long_inputs() {
    let payload = "Rust makes FFI safer. 编码检测 UTF-8 mixed text.".repeat(200);
    assert!(payload.len() > 4096);
    let d = detect_encoding(payload.as_bytes(), DetectHints::default());
    assert_eq!(d.bytes_consumed, 4096);
}

#[test]
fn incompatible_forced_hint_is_not_echoed() {
    // Chinese text in a GB encoding is not structurally valid UTF-8, so a
    // forced UTF-8 hint must not be echoed back; the statistical verdict
    // takes over, with reliability withdrawn.
    let mut gb_pair_text: Vec<u8> = Vec::new();
    for _ in 0..100 {
        gb_pair_text.extend_from_slice(&[0xb5, 0xc4, 0xca, 0xec, 0x20]);
    }
    let mut hints = DetectHints::default();
    hints.encoding_hint = Some(Encoding::UTF8);
    let d = detect_encoding(&gb_pair_text, hints);
    assert_ne!(d.encoding, Encoding::UTF8);
    assert!(!d.is_reliable);

    // The same forced hint on structurally compatible bytes is echoed,
    // reliably: strictly higher reliability than the incompatible case.
    let utf8_text = "plain utf-8 text with 编码 inside. ".repeat(10);
    let mut hints = DetectHints::default();
    hints.encoding_hint = Some(Encoding::UTF8);
    let d = detect_encoding(utf8_text.as_bytes(), hints);
    assert_eq!(d.encoding, Encoding::UTF8);
    assert!(d.is_reliable);
}

#[test]
fn compatible_forced_hint_dominates() {
    let payload = "just some latin letters repeated over and over again. ".repeat(4);
    let mut hints = DetectHints::default();
    hints.encoding_hint = Some(Encoding::MACINTOSH_ROMAN);
    let d = detect_encoding(payload.as_bytes(), hints);
    assert_eq!(d.encoding, Encoding::MACINTOSH_ROMAN);
    assert_eq!(d.mime_name, "macintosh");
    assert!(d.is_reliable);
}

#[test]
fn soft_http_hint_breaks_a_near_tie() {
    let payload = "ascii text that utf-8 and ascii score the same way. ".repeat(4);
    let d = detect_encoding(payload.as_bytes(), DetectHints::default());
    assert_eq!(d.encoding, Encoding::ASCII_7BIT);

    let mut hints = DetectHints::default();
    hints.http_charset_hint = "UTF-8";
    let d = detect_encoding(payload.as_bytes(), hints);
    assert_eq!(d.encoding, Encoding::UTF8);
    assert_eq!(d.mime_name, "UTF-8");
}

#[test]
fn unrecognized_charset_names_are_dropped() {
    let payload = "ascii text under an unknown charset label. ".repeat(4);
    let mut hints = DetectHints::default();
    hints.http_charset_hint = "banana";
    hints.meta_charset_hint = "not-a-charset";
    let d = detect_encoding(payload.as_bytes(), hints);
    assert_eq!(d.encoding, Encoding::ASCII_7BIT);
}

#[test]
fn nothing_plausible_yields_unknown_fallback() {
    // 0x98 followed by a space is structurally impossible for every paired
    // candidate, illegal in windows-1251, and scores under the confidence
    // floor in the remaining single-byte models.
    let payload: Vec<u8> = [0x98u8, 0x20].iter().copied().cycle().take(80).collect();
    let d = detect_encoding(&payload, DetectHints::default());
    assert_eq!(d.encoding, Encoding::UNKNOWN_ENCODING);
    assert!(!d.is_reliable);
    assert_eq!(d.mime_name, "x-unknown");
}

#[test]
fn email_corpus_suppresses_seven_bit_mail_encodings() {
    let mut text = String::new();
    for _ in 0..8 {
        text.push_str("\u{1b}$Babcdefghijklmnopqrstuvwx\u{1b}(B plain part ");
    }
    let payload = text.as_bytes();

    let mut hints = DetectHints::default();
    hints.corpus_type = TextCorpusType::WEB_CORPUS;
    hints.ignore_7bit_mail_encodings = true;
    let d = detect_encoding(payload, hints);
    assert_eq!(d.encoding, Encoding::JAPANESE_JIS);
    assert_eq!(d.mime_name, "ISO-2022-JP");

    let mut hints = DetectHints::default();
    hints.corpus_type = TextCorpusType::EMAIL_CORPUS;
    hints.ignore_7bit_mail_encodings = true;
    let d = detect_encoding(payload, hints);
    assert_eq!(d.encoding, Encoding::ASCII_7BIT);
}

#[test]
fn raw_entry_point_clamps_out_of_range_hints() {
    let payload = "plain ascii text for the raw entry point to classify. ".repeat(4);
    // Hint ids outside the closed ranges, including the count sentinels,
    // mean "no hint" and are never an error.
    let r = ced_detect_encoding(payload.as_bytes(), "", "", "", 75, 161, 99, true);
    assert_eq!(r.encoding, 24);
    assert_eq!(r.mime_name, "US-ASCII");
    assert!(r.bytes_consumed > 0);
}

#[test]
fn detection_always_returns_a_valid_encoding_id() {
    let buffers: Vec<Vec<u8>> = vec![
        vec![],
        vec![0x00],
        vec![0xff, 0xfe],
        vec![0x80, 0x81, 0x82],
        "text".bytes().collect(),
        vec![0xef, 0xbb],
    ];
    for b in buffers {
        let r = ced_detect_encoding(&b, "", "", "", -1, -1, 2, true);
        assert!(0 <= r.encoding && r.encoding < 75);
        assert!(r.bytes_consumed >= 0 && (r.bytes_consumed as usize) <= b.len());
    }
}

#[test]
fn enum_boundary_validation() {
    assert_eq!(Encoding::from_raw(22), Ok(Encoding::UTF8));
    assert_eq!(Encoding::from_raw(0), Ok(Encoding::ISO_8859_1));
    assert_eq!(Encoding::from_raw(74), Ok(Encoding::SOFTBANK_ISO_2022_JP));
    assert_eq!(Encoding::from_raw(75), Err(InvalidEnumValue { raw: 75 }));
    assert_eq!(Encoding::from_raw(-1), Err(InvalidEnumValue { raw: -1 }));
    assert_eq!(Encoding::UTF8.as_raw(), 22);

    assert_eq!(Language::from_raw(13), Ok(Language::RUSSIAN));
    assert_eq!(Language::from_raw(161), Err(InvalidEnumValue { raw: 161 }));
    assert_eq!(Language::MONTENEGRIN.as_raw(), 160);

    assert_eq!(TextCorpusType::from_raw(2), Ok(TextCorpusType::QUERY_CORPUS));
    assert_eq!(TextCorpusType::from_raw(4), Err(InvalidEnumValue { raw: 4 }));

    let e = Encoding::from_raw(75).unwrap_err();
    assert_eq!(e.message(), "invalid enum value");
}

#[test]
fn default_hints_match_the_documented_defaults() {
    let h = DetectHints::default();
    assert_eq!(h.url_hint, "");
    assert_eq!(h.http_charset_hint, "");
    assert_eq!(h.meta_charset_hint, "");
    assert!(h.encoding_hint.is_none());
    assert!(h.language_hint.is_none());
    assert_eq!(h.corpus_type, TextCorpusType::QUERY_CORPUS);
    assert!(h.ignore_7bit_mail_encodings);
}
