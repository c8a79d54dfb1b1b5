//! What becomes of the text that the recogniser prints for a region.

use vstd::prelude::*;

use vstd::utf8::{decode_utf8, valid_utf8};

verus! {

/// What the editor does with the recogniser's reply.
#[derive(Debug)]
pub enum OcrOutcome {
    /// The recogniser could not be started: tell the user to install it.
    ToolMissing,
    /// It found no text: say so.
    NoText,
    /// Copy this text to the clipboard and show it.
    Text(String),
}

/// Whether `c` is white space in the sense of `char::is_whitespace`, that is
/// a character with the Unicode `White_Space` property.
pub open spec fn is_white_space(c: char) -> bool {
    let v = c as u32;
    ||| 0x09 <= v <= 0x0D
    ||| v == 0x20
    ||| v == 0x85
    ||| v == 0xA0
    ||| v == 0x1680
    ||| 0x2000 <= v <= 0x200A
    ||| v == 0x2028
    ||| v == 0x2029
    ||| v == 0x202F
    ||| v == 0x205F
    ||| v == 0x3000
}

/// `s` without its leading white space.
pub open spec fn trim_start(s: Seq<char>) -> Seq<char>
    decreases s.len(),
{
    if s.len() > 0 && is_white_space(s[0]) {
        trim_start(s.drop_first())
    } else {
        s
    }
}

/// `s` without its trailing white space.
pub open spec fn trim_end(s: Seq<char>) -> Seq<char>
    decreases s.len(),
{
    if s.len() > 0 && is_white_space(s.last()) {
        trim_end(s.drop_last())
    } else {
        s
    }
}

/// `s` without white space at either end.
pub open spec fn trimmed(s: Seq<char>) -> Seq<char> {
    trim_end(trim_start(s))
}

/// Which characters count as white space.  Among ASCII characters exactly
/// the space and tab, line feed, vertical tab, form feed and carriage return
/// do, so no visible ASCII character is ever white space; above ASCII
/// exactly the Unicode `White_Space` characters do: next line, no-break
/// space, Ogham space mark, the spaces U+2000 to U+200A, the line and
/// paragraph separators, narrow no-break space, medium mathematical space
/// and ideographic space.
pub proof fn lemma_white_space_characters(c: char)
    ensures
        (c as u32) < 0x80 ==> (is_white_space(c) <==> (c == ' ' || c == '\t' || c == '\n' || c
            == '\u{b}' || c == '\u{c}' || c == '\r')),
        0x21 <= (c as u32) <= 0x7E ==> !is_white_space(c),
        (c as u32) >= 0x80 ==> (is_white_space(c) <==> (c == '\u{85}' || c == '\u{a0}' || c
            == '\u{1680}' || ('\u{2000}' <= c && c <= '\u{200a}') || c == '\u{2028}' || c
            == '\u{2029}' || c == '\u{202f}' || c == '\u{205f}' || c == '\u{3000}')),
{
}

proof fn lemma_trim_start_shape(s: Seq<char>)
    ensures
        trim_start(s).len() <= s.len(),
        trim_start(s) == s.subrange(s.len() - trim_start(s).len(), s.len() as int),
        forall|j: int| 0 <= j < s.len() - trim_start(s).len() ==> is_white_space(s[j]),
        trim_start(s).len() > 0 ==> !is_white_space(trim_start(s)[0]),
    decreases s.len(),
{
    if s.len() > 0 && is_white_space(s[0]) {
        let rest = s.drop_first();
        lemma_trim_start_shape(rest);
        let t = trim_start(rest);
        assert(rest.subrange(rest.len() - t.len(), rest.len() as int) =~= s.subrange(
            s.len() - t.len(),
            s.len() as int,
        ));
        assert forall|j: int| 0 <= j < s.len() - t.len() implies is_white_space(s[j]) by {
            if j > 0 {
                assert(s[j] == rest[j - 1]);
            }
        }
    } else {
        assert(s.subrange(0, s.len() as int) =~= s);
    }
}

proof fn lemma_trim_end_shape(s: Seq<char>)
    ensures
        trim_end(s).len() <= s.len(),
        trim_end(s) == s.subrange(0, trim_end(s).len() as int),
        forall|j: int| trim_end(s).len() <= j < s.len() ==> is_white_space(s[j]),
        trim_end(s).len() > 0 ==> !is_white_space(trim_end(s).last()),
    decreases s.len(),
{
    if s.len() > 0 && is_white_space(s.last()) {
        let rest = s.drop_last();
        lemma_trim_end_shape(rest);
        let t = trim_end(rest);
        assert(rest.subrange(0, t.len() as int) =~= s.subrange(0, t.len() as int));
        assert forall|j: int| t.len() <= j < s.len() implies is_white_space(s[j]) by {
            if j < s.len() - 1 {
                assert(s[j] == rest[j]);
            }
        }
    } else {
        assert(s.subrange(0, s.len() as int) =~= s);
    }
}

/// `t` is the stretch of `s` that starts at `lo`, and everything in `s`
/// before and after it is white space.
pub open spec fn white_space_around(s: Seq<char>, t: Seq<char>, lo: int) -> bool {
    &&& 0 <= lo
    &&& lo + t.len() <= s.len()
    &&& t == s.subrange(lo, lo + t.len())
    &&& forall|j: int| 0 <= j < lo ==> is_white_space(#[trigger] s[j])
    &&& forall|j: int| lo + t.len() <= j < s.len() ==> is_white_space(#[trigger] s[j])
}

/// Trimming cuts a run of white space off each end and nothing else: the
/// result is an unchanged stretch of the input, everything before and after
/// it is white space, and the result neither begins nor ends with white
/// space.
pub proof fn lemma_trimmed(s: Seq<char>)
    ensures
        ({
            let t = trimmed(s);
            &&& exists|lo: int| #[trigger] white_space_around(s, t, lo)
            &&& t.len() > 0 ==> !is_white_space(t[0]) && !is_white_space(t.last())
        }),
{
    let a = trim_start(s);
    lemma_trim_start_shape(s);
    lemma_trim_end_shape(a);
    let t = trim_end(a);
    let lo = s.len() - a.len();
    assert(t =~= s.subrange(lo, lo + t.len()));
    assert forall|j: int| lo + t.len() <= j < s.len() implies is_white_space(s[j]) by {
        assert(s[j] == a[j - lo]);
    }
    if t.len() > 0 {
        assert(t[0] == a[0]);
    }
    assert(white_space_around(s, t, lo));
}

/// The outcome for the text `text` that the recogniser printed.
pub open spec fn text_outcome_spec(text: Seq<char>) -> Option<Seq<char>> {
    if trimmed(text).len() == 0 {
        None
    } else {
        Some(trimmed(text))
    }
}

/// Whether `c` is white space (see [`is_white_space`]).
pub fn white_space(c: char) -> (r: bool)
    ensures
        r == is_white_space(c),
{
    let v = c as u32;
    (0x09 <= v && v <= 0x0D) || v == 0x20 || v == 0x85 || v == 0xA0 || v == 0x1680 || (0x2000
        <= v && v <= 0x200A) || v == 0x2028 || v == 0x2029 || v == 0x202F || v == 0x205F || v
        == 0x3000
}

/// `s` without white space at either end, as `str::trim` gives it.
pub fn trim(s: &str) -> (r: String)
    ensures
        r@ == trimmed(s@),
{
    let n = s.unicode_len();
    let mut lo: usize = 0;
    assert(s@.subrange(0, n as int) =~= s@);
    while lo < n && white_space(s.get_char(lo))
        invariant
            n == s@.len(),
            lo <= n,
            trim_start(s@) == trim_start(s@.subrange(lo as int, n as int)),
        decreases n - lo,
    {
        assert(s@.subrange(lo as int, n as int).drop_first() =~= s@.subrange(
            lo + 1,
            n as int,
        ));
        lo = lo + 1;
    }
    assert(trim_start(s@) == s@.subrange(lo as int, n as int));
    let mut hi: usize = n;
    while hi > lo && white_space(s.get_char(hi - 1))
        invariant
            n == s@.len(),
            lo <= hi <= n,
            trim_start(s@) == s@.subrange(lo as int, n as int),
            trimmed(s@) == trim_end(s@.subrange(lo as int, hi as int)),
        decreases hi - lo,
    {
        assert(s@.subrange(lo as int, hi as int).drop_last() =~= s@.subrange(
            lo as int,
            hi - 1,
        ));
        hi = hi - 1;
    }
    s.substring_char(lo, hi).to_owned()
}

/// The outcome for the text that the recogniser printed: nothing but white
/// space means no text; otherwise the text without surrounding white space.
pub fn text_outcome(text: &str) -> (r: OcrOutcome)
    ensures
        match text_outcome_spec(text@) {
            None => r is NoText,
            Some(t) => r matches OcrOutcome::Text(s) && s@ == t,
        },
{
    let t = trim(text);
    if t.as_str().is_empty() {
        OcrOutcome::NoText
    } else {
        OcrOutcome::Text(t)
    }
}

/// Names the string that `String::from_utf8_lossy` makes of `bytes`.
pub uninterp spec fn utf8_lossy(bytes: Seq<u8>) -> Seq<char>;

/// Calls `String::from_utf8_lossy`.  Claimed: the result is the named
/// [`utf8_lossy`] of the bytes, and for valid UTF-8 it is the decoded text
/// itself, as the documentation says.  How invalid sequences are replaced
/// is left unstated.
#[verifier::external_body]
fn decode_lossy(bytes: &[u8]) -> (s: String)
    ensures
        s@ == utf8_lossy(bytes@),
        valid_utf8(bytes@) ==> s@ == decode_utf8(bytes@),
{
    String::from_utf8_lossy(bytes).into_owned()
}

/// What to do with the recogniser's reply: `None` when it could not be
/// started, else the bytes that it printed.
pub fn ocr_outcome(stdout: Option<Vec<u8>>) -> (r: OcrOutcome)
    ensures
        match stdout {
            None => r is ToolMissing,
            Some(bytes) => match text_outcome_spec(utf8_lossy(bytes@)) {
                None => r is NoText,
                Some(t) => r matches OcrOutcome::Text(s) && s@ == t,
            },
        },
        stdout matches Some(bytes) ==> (valid_utf8(bytes@) ==> match text_outcome_spec(
            decode_utf8(bytes@),
        ) {
            None => r is NoText,
            Some(t) => r matches OcrOutcome::Text(s) && s@ == t,
        }),
{
    match stdout {
        None => OcrOutcome::ToolMissing,
        Some(bytes) => {
            let text = decode_lossy(bytes.as_slice());
            text_outcome(text.as_str())
        },
    }
}

/// The recogniser's text counts as no text exactly when it is all white
/// space; otherwise the text kept is the input without the white space at
/// its two ends, and it begins and ends with a character that is not white
/// space.
pub proof fn lemma_text_outcome(text: Seq<char>)
    ensures
        text_outcome_spec(text) is None <==> forall|j: int|
            0 <= j < text.len() ==> is_white_space(#[trigger] text[j]),
        text_outcome_spec(text) matches Some(t) ==> {
            &&& t.len() > 0
            &&& !is_white_space(t[0])
            &&& !is_white_space(t.last())
            &&& exists|lo: int| #[trigger] white_space_around(text, t, lo)
        },
{
    lemma_trimmed(text);
    let t = trimmed(text);
    let lo = choose|lo: int| #[trigger] white_space_around(text, t, lo);
    if t.len() > 0 {
        assert(t[0] == text[lo]);
    } else {
        assert forall|j: int| 0 <= j < text.len() implies is_white_space(#[trigger] text[j]) by {
            if j < lo {
            } else {
                assert(lo + t.len() <= j);
            }
        }
    }
}

} // verus!
