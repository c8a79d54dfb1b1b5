use hyprsnap::ocr::{ocr_outcome, text_outcome, trim, white_space, OcrOutcome};

fn text_of(o: OcrOutcome) -> Option<String> {
    match o {
        OcrOutcome::Text(t) => Some(t),
        _ => None,
    }
}

#[test]
fn trim_matches_std() {
    for s in ["", "  ", "abc", "  abc  ", "\n\tline one\nline two \r\n", "\u{3000}x\u{a0}", " a b "] {
        assert_eq!(trim(s), s.trim());
    }
}

#[test]
fn white_space_matches_std() {
    for c in ['\t', '\n', '\u{b}', '\u{c}', '\r', ' ', '\u{85}', '\u{a0}', '\u{1680}', '\u{2000}', '\u{200a}', '\u{2028}', '\u{2029}', '\u{202f}', '\u{205f}', '\u{3000}', 'a', '\u{200b}', '0', '\u{feff}'] {
        assert_eq!(white_space(c), c.is_whitespace(), "{:?}", c);
    }
}

#[test]
fn missing_tool() {
    assert!(matches!(ocr_outcome(None), OcrOutcome::ToolMissing));
}

#[test]
fn blank_output_is_no_text() {
    assert!(matches!(ocr_outcome(Some(b" \n\n".to_vec())), OcrOutcome::NoText));
    assert!(matches!(ocr_outcome(Some(Vec::new())), OcrOutcome::NoText));
    assert!(matches!(text_outcome("\t"), OcrOutcome::NoText));
}

#[test]
fn text_is_trimmed() {
    assert_eq!(text_of(ocr_outcome(Some(b"  Hello world\n\x0c".to_vec()))).as_deref(), Some("Hello world"));
}

#[test]
fn invalid_utf8_is_replaced() {
    assert_eq!(text_of(ocr_outcome(Some(vec![b'a', 0xff, b'b', b'\n']))).as_deref(), Some("a\u{fffd}b"));
}
