//! Character sets: bytes to text by a charset's name, and the choice of one for a mail body.

use vstd::prelude::*;
use vstd::string::*;

use crate::text;
use crate::text::{
    bytes_to_string, push_char, same, same_ignore_case, to_chars, to_uppercase,
};

verus! {

broadcast use vstd::string::group_string_axioms;

/// Whether so many bytes leave room for their text: a decoder may need three bytes for one.
pub open spec fn decodable_len(n: nat) -> bool {
    n <= usize::MAX / 8
}

/// What `encoding_rs` makes of the bytes by the encoding that the label stands for, if it knows
/// the label.
pub uninterp spec fn encoding_text(label: Seq<char>, data: Seq<u8>) -> Option<Seq<char>>;

/// Labels of the Encoding Standard on which this library relies.
pub open spec fn standard_label(label: Seq<char>) -> bool {
    ||| label == "GBK"@
    ||| label == "UTF-8"@
    ||| label == "Big5"@
    ||| label == "Shift_JIS"@
    ||| label == "WINDOWS-1252"@
    ||| label == "EUC-JP"@
    ||| label == "KOI8-R"@
    ||| label == "KOI8-U"@
    ||| label == "ISO-8859-2"@
    ||| label == "ISO-8859-5"@
    ||| label == "ISO-8859-7"@
    ||| label == "ISO-8859-15"@
}

/// `encoding_rs::Encoding::for_label`, then `Encoding::decode` where there is such an encoding:
/// the text of the bytes, after a byte order mark if they begin with one, with U+FFFD for what
/// is malformed. Nothing is said of the text but that the label and the bytes decide it; the
/// labels of `standard_label` are all known.
#[verifier::external_body]
fn decode_label(label: &str, data: &[u8]) -> (r: Option<String>)
    requires
        decodable_len(data@.len()),
    ensures
        text::opt_view(r) == encoding_text(label@, data@),
        standard_label(label@) ==> r is Some,
{
    encoding_rs::Encoding::for_label(label.as_bytes()).map(|e| e.decode(data).0.into_owned())
}

/// The label of the encoding that a charset's name, in upper case, is read by.
pub open spec fn label_of(name: Seq<char>) -> Option<Seq<char>> {
    if name == "GBK"@ || name == "GB2312"@ || name == "GB18030"@ || name == "GBK-EUC"@ || name
        == "CSGB2312"@ {
        Some("GBK"@)
    } else if name == "SHIFT_JIS"@ || name == "SHIFT-JIS"@ || name == "SJIS"@ || name
        == "CSSHIFTJIS"@ {
        Some("Shift_JIS"@)
    } else if name == "EUC-JP"@ || name == "EUCJP"@ {
        Some("EUC-JP"@)
    } else if name == "BIG5"@ || name == "BIG5-HKSCS"@ || name == "CN-BIG5"@ || name == "CSBIG5"@ {
        Some("Big5"@)
    } else if name == "WINDOWS-1252"@ {
        Some("WINDOWS-1252"@)
    } else if name == "KOI8-R"@ {
        Some("KOI8-R"@)
    } else if name == "KOI8-U"@ {
        Some("KOI8-U"@)
    } else if name == "ISO-8859-2"@ {
        Some("ISO-8859-2"@)
    } else if name == "ISO-8859-5"@ {
        Some("ISO-8859-5"@)
    } else if name == "ISO-8859-7"@ {
        Some("ISO-8859-7"@)
    } else if name == "ISO-8859-15"@ {
        Some("ISO-8859-15"@)
    } else {
        None
    }
}

fn find_label(name: &str) -> (r: Option<&'static str>)
    ensures
        match r {
            Some(label) => label_of(name@) == Some(label@) && standard_label(label@),
            None => label_of(name@) is None,
        },
{
    if same(name, "GBK") || same(name, "GB2312") || same(name, "GB18030") || same(name, "GBK-EUC")
        || same(name, "CSGB2312") {
        Some("GBK")
    } else if same(name, "SHIFT_JIS") || same(name, "SHIFT-JIS") || same(name, "SJIS") || same(
        name,
        "CSSHIFTJIS",
    ) {
        Some("Shift_JIS")
    } else if same(name, "EUC-JP") || same(name, "EUCJP") {
        Some("EUC-JP")
    } else if same(name, "BIG5") || same(name, "BIG5-HKSCS") || same(name, "CN-BIG5") || same(
        name,
        "CSBIG5",
    ) {
        Some("Big5")
    } else if same(name, "WINDOWS-1252") {
        Some("WINDOWS-1252")
    } else if same(name, "KOI8-R") {
        Some("KOI8-R")
    } else if same(name, "KOI8-U") {
        Some("KOI8-U")
    } else if same(name, "ISO-8859-2") {
        Some("ISO-8859-2")
    } else if same(name, "ISO-8859-5") {
        Some("ISO-8859-5")
    } else if same(name, "ISO-8859-7") {
        Some("ISO-8859-7")
    } else if same(name, "ISO-8859-15") {
        Some("ISO-8859-15")
    } else {
        None
    }
}

/// Each byte as the character of that number.
pub open spec fn latin1_text(data: Seq<u8>) -> Seq<char> {
    Seq::new(data.len(), |i: int| data[i] as char)
}

fn decode_latin1(data: &[u8]) -> (r: String)
    ensures
        r@ == latin1_text(data@),
{
    let mut r = String::new();
    let mut i: usize = 0;
    while i < data.len()
        invariant
            i <= data.len(),
            r@ == latin1_text(data@).take(i as int),
        decreases data.len() - i,
    {
        push_char(&mut r, data[i] as char);
        i += 1;
        assert(r@ =~= latin1_text(data@).take(i as int));
    }
    assert(latin1_text(data@).take(data.len() as int) =~= latin1_text(data@));
    r
}

/// The text of the bytes in a charset: the known names first, whatever the Encoding Standard
/// knows next, and UTF-8 for everything else. The case of the name does not matter.
pub open spec fn charset_text(data: Seq<u8>, charset: Seq<char>) -> Seq<char> {
    let name = text::uppercase(charset);
    if name == "UTF-8"@ || name == "UTF8"@ {
        text::utf8_lossy(data)
    } else if name == "ISO-8859-1"@ || name == "LATIN1"@ {
        latin1_text(data)
    } else {
        match label_of(name) {
            Some(label) => encoding_text(label, data)->Some_0,
            None => match encoding_text(name, data) {
                Some(t) => t,
                None => text::utf8_lossy(data),
            },
        }
    }
}

/// The text of the bytes in a charset.
pub fn decode_charset(data: &[u8], charset: &str) -> (r: String)
    requires
        decodable_len(data@.len()),
    ensures
        r@ == charset_text(data@, charset@),
{
    let upper = to_uppercase(charset);
    let name = upper.as_str();
    if same(name, "UTF-8") || same(name, "UTF8") {
        bytes_to_string(data)
    } else if same(name, "ISO-8859-1") || same(name, "LATIN1") {
        decode_latin1(data)
    } else {
        match find_label(name) {
            Some(label) => match decode_label(label, data) {
                Some(t) => t,
                None => String::new(),
            },
            None => match decode_label(name, data) {
                Some(t) => t,
                None => bytes_to_string(data),
            },
        }
    }
}

/// The characters that text in the wrong charset is full of.
pub open spec fn suspicious(c: char) -> bool {
    '\u{80}' <= c <= '\u{9f}' || '\u{c2}' <= c <= '\u{c7}'
}

/// How many suspicious characters the text holds.
pub open spec fn suspicious_count(s: Seq<char>) -> nat
    decreases s.len(),
{
    if s.len() == 0 {
        0
    } else {
        suspicious_count(s.drop_last()) + if suspicious(s.last()) {
            1nat
        } else {
            0
        }
    }
}

/// Text of more than five characters, over a quarter of which are suspicious.
pub open spec fn garbled(s: Seq<char>) -> bool {
    s.len() > 5 && suspicious_count(s) > s.len() / 4
}

/// Whether the text seems to have been read in the wrong charset.
pub fn looks_garbled(s: &str) -> (r: bool)
    ensures
        r == garbled(s@),
{
    let v = to_chars(s);
    let mut bad_count: usize = 0;
    let mut i: usize = 0;
    while i < v.len()
        invariant
            v@ == s@,
            i <= v.len(),
            bad_count <= i,
            bad_count == suspicious_count(s@.take(i as int)),
        decreases v.len() - i,
    {
        let c = v[i];
        assert(s@.take(i + 1).drop_last() =~= s@.take(i as int));
        if (c >= '\u{80}' && c <= '\u{9f}') || (c >= '\u{c2}' && c <= '\u{c7}') {
            bad_count += 1;
        }
        i += 1;
    }
    assert(s@.take(v.len() as int) =~= s@);
    v.len() > 5 && bad_count > v.len() / 4
}

/// The encodings that are tried on a body, in this order.
pub open spec fn candidate(i: int) -> Seq<char> {
    if i == 0 {
        "GBK"@
    } else if i == 1 {
        "UTF-8"@
    } else if i == 2 {
        "Big5"@
    } else if i == 3 {
        "Shift_JIS"@
    } else {
        "WINDOWS-1252"@
    }
}

/// The text by the first candidate from `i` on, other than the declared charset, by which it is
/// not garbled; by the first candidate of all if there is none.
pub open spec fn first_clean(raw: Seq<u8>, declared: Seq<char>, i: int) -> Seq<char>
    decreases 5 - i,
{
    if i < 0 || i >= 5 {
        encoding_text("GBK"@, raw)->Some_0
    } else {
        let text = encoding_text(candidate(i), raw)->Some_0;
        if text::ascii_lowered(declared) == text::ascii_lowered(candidate(i)) || garbled(text) {
            first_clean(raw, declared, i + 1)
        } else {
            text
        }
    }
}

/// The text of a body: by its declared charset, if there is one and the text is not garbled;
/// else by the first of the candidates that does.
pub open spec fn body_text(raw: Seq<u8>, declared: Seq<char>) -> Seq<char> {
    let text = charset_text(raw, declared);
    if declared.len() > 0 && !garbled(text) {
        text
    } else {
        first_clean(raw, declared, 0)
    }
}

fn candidate_label(i: usize) -> (r: &'static str)
    requires
        i < 5,
    ensures
        r@ == candidate(i as int),
        standard_label(r@),
{
    if i == 0 {
        "GBK"
    } else if i == 1 {
        "UTF-8"
    } else if i == 2 {
        "Big5"
    } else if i == 3 {
        "Shift_JIS"
    } else {
        "WINDOWS-1252"
    }
}

/// The text of a body whose transfer encoding is undone, with the charset that it declares (or
/// an empty one).
pub fn decode_body(raw: &[u8], declared: &str) -> (r: String)
    requires
        decodable_len(raw@.len()),
    ensures
        r@ == body_text(raw@, declared@),
{
    if !declared.is_empty() {
        let text = decode_charset(raw, declared);
        if !looks_garbled(text.as_str()) {
            return text;
        }
    }
    let mut i: usize = 0;
    while i < 5
        invariant
            i <= 5,
            decodable_len(raw@.len()),
            first_clean(raw@, declared@, 0) == first_clean(raw@, declared@, i as int),
            body_text(raw@, declared@) == first_clean(raw@, declared@, 0),
        decreases 5 - i,
    {
        let label = candidate_label(i);
        if !same_ignore_case(declared, label) {
            if let Some(text) = decode_label(label, raw) {
                if !looks_garbled(text.as_str()) {
                    return text;
                }
            }
        }
        i += 1;
    }
    match decode_label("GBK", raw) {
        Some(text) => text,
        None => String::new(),
    }
}

/// A short text is never taken for garbled, and neither is plain ASCII.
pub proof fn plain_text_not_garbled(s: Seq<char>)
    ensures
        s.len() <= 5 ==> !garbled(s),
        vstd::utf8::is_ascii_chars(s) ==> !garbled(s),
{
    if vstd::utf8::is_ascii_chars(s) {
        lemma_ascii_count(s);
    }
}

proof fn lemma_ascii_count(s: Seq<char>)
    requires
        vstd::utf8::is_ascii_chars(s),
    ensures
        suspicious_count(s) == 0,
    decreases s.len(),
{
    if s.len() > 0 {
        assert(s.last() == s[s.len() - 1]);
        assert forall|i: int| 0 <= i < s.drop_last().len() implies '\0' <= #[trigger] s.drop_last()[i]
            <= '\u{7f}' by {
            assert(s.drop_last()[i] == s[i]);
        }
        lemma_ascii_count(s.drop_last());
    }
}

} // verus!
