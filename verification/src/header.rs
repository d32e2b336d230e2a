//! Mail headers: encoded words, header fields of a raw header block, address lists.

use vstd::prelude::*;
use vstd::string::*;

use crate::charset;
use crate::charset::decode_charset;
use crate::codec;
use crate::codec::{base64_decode, read_hex_pair};
use crate::text;
use crate::text::{
    index_of, lines, same, search, slice, split_list, to_chars, to_lowercase, to_text, trim_chars,
    Sep,
};

verus! {

broadcast use vstd::string::group_string_axioms;

/// The number of bytes of the text in UTF-8.
pub open spec fn byte_len(s: Seq<char>) -> nat {
    vstd::utf8::encode_utf8(s).len()
}

proof fn lemma_byte_len(s: Seq<char>)
    ensures
        s.len() <= byte_len(s),
    decreases s.len(),
{
    if s.len() > 0 {
        lemma_byte_len(s.drop_first());
    }
}

proof fn lemma_byte_len_add(a: Seq<char>, b: Seq<char>)
    ensures
        byte_len(a + b) == byte_len(a) + byte_len(b),
    decreases a.len(),
{
    if a.len() == 0 {
        assert(a + b =~= b);
    } else {
        lemma_byte_len_add(a.drop_first(), b);
        assert((a + b).drop_first() =~= a.drop_first() + b);
        assert((a + b)[0] == a[0]);
    }
}

proof fn lemma_byte_len_part(s: Seq<char>, i: int, j: int)
    requires
        0 <= i <= j <= s.len(),
    ensures
        byte_len(s.subrange(i, j)) <= byte_len(s),
{
    let a = s.subrange(0, i);
    let b = s.subrange(i, j);
    let c = s.subrange(j, s.len() as int);
    lemma_byte_len_add(a, b);
    lemma_byte_len_add(a + b, c);
    assert(a + b + c =~= s);
}

/// The bytes of the data of an encoded word in the Q encoding, from the character `i` on. An
/// underscore is a space; an equals sign with two characters behind it is a byte in hexadecimal,
/// and is left out where it is not; every other character is the low byte of its number. The
/// hexadecimal digits are those of the bytes at the equals sign's index: where these are not
/// whole characters there is no result.
pub open spec fn q_bytes(data: Seq<char>, i: int) -> Option<Seq<u8>>
    decreases data.len() - i,
{
    let bytes = vstd::utf8::encode_utf8(data);
    if i < 0 || i >= data.len() {
        Some(seq![])
    } else if data[i] == '=' && i + 2 < data.len() {
        if !vstd::utf8::is_char_boundary(bytes, i + 1) || !vstd::utf8::is_char_boundary(
            bytes,
            i + 3,
        ) {
            None
        } else {
            match codec::hex_pair(bytes[i + 1], bytes[i + 2]) {
                Ok(n) => match q_bytes(data, i + 3) {
                    Some(rest) => Some(seq![n as u8] + rest),
                    None => None,
                },
                Err(_) => q_bytes(data, i + 1),
            }
        }
    } else {
        match q_bytes(data, i + 1) {
            Some(rest) => Some(
                seq![
                    if data[i] == '_' {
                        0x20u8
                    } else {
                        (data[i] as u32 % 256) as u8
                    },
                ] + rest,
            ),
            None => None,
        }
    }
}

fn low_byte(c: char) -> (r: u8)
    ensures
        r == (c as u32 % 256) as u8,
{
    (c as u32 % 256) as u8
}

fn decode_q(data: &Vec<char>) -> (r: Option<Vec<u8>>)
    ensures
        text::opt_view(r) == q_bytes(data@, 0),
        r matches Some(v) ==> v@.len() <= data@.len(),
{
    let whole = to_text(data);
    let s = whole.as_str();
    let bytes = s.as_bytes();
    let mut out: Vec<u8> = Vec::new();
    let mut i: usize = 0;
    proof {
        lemma_byte_len(data@);
        if q_bytes(data@, 0) is Some {
            assert(out@ + q_bytes(data@, 0)->Some_0 =~= q_bytes(data@, 0)->Some_0);
        }
    }
    while i < data.len()
        invariant
            i <= data.len(),
            s@ == data@,
            bytes@ == vstd::utf8::encode_utf8(data@),
            data.len() <= bytes@.len(),
            out.len() <= i,
            q_bytes(data@, 0) is None <==> q_bytes(data@, i as int) is None,
            q_bytes(data@, i as int) is Some ==> out@ + q_bytes(data@, i as int)->Some_0 == q_bytes(
                data@,
                0,
            )->Some_0,
        decreases data.len() - i,
    {
        let ghost before = out@;
        let ghost at = i as int;
        if data[i] == '=' && data.len() - i > 2 {
            if !s.is_char_boundary(i + 1) || !s.is_char_boundary(i + 3) {
                return None;
            }
            match read_hex_pair(bytes[i + 1], bytes[i + 2]) {
                Some(n) => {
                    out.push(n);
                    i += 3;
                },
                None => {
                    i += 1;
                },
            }
        } else if data[i] == '_' {
            out.push(0x20);
            i += 1;
        } else {
            out.push(low_byte(data[i]));
            i += 1;
        }
        proof {
            if q_bytes(data@, i as int) is Some {
                let rest = q_bytes(data@, i as int)->Some_0;
                if out@.len() > before.len() {
                    assert(before + (seq![out@.last()] + rest) =~= out@ + rest);
                }
            }
        }
    }
    assert(out@ + Seq::<u8>::empty() =~= out@);
    Some(out)
}

/// What becomes of an encoded word.
pub enum Word {
    /// It is this text.
    Text(Seq<char>),
    /// It is no encoded word that can be decoded.
    Plain,
    /// Its data cuts a character in two.
    Broken,
}

/// What becomes of an encoded word of this charset, encoding and data.
pub open spec fn word(charset: Seq<char>, encoding: Seq<char>, data: Seq<char>) -> Word {
    if encoding == "B"@ || encoding == "b"@ {
        match codec::base64_bytes(vstd::utf8::encode_utf8(data)) {
            Some(v) => Word::Text(charset::charset_text(v, charset)),
            None => Word::Plain,
        }
    } else if encoding == "Q"@ || encoding == "q"@ {
        match q_bytes(data, 0) {
            Some(v) => Word::Text(charset::charset_text(v, charset)),
            None => Word::Broken,
        }
    } else {
        Word::Plain
    }
}

/// What becomes of what stands between `=?` and `?=`: charset, encoding and data, with a
/// question mark between each two.
pub open spec fn inner_word(inner: Seq<char>) -> Word {
    let a = text::find_char(inner, '?', 0);
    let b = text::find_char(inner, '?', a + 1);
    if a >= inner.len() || b >= inner.len() {
        Word::Plain
    } else {
        word(
            inner.subrange(0, a),
            inner.subrange(a + 1, b),
            inner.subrange(b + 1, inner.len() as int),
        )
    }
}

/// Where the word that begins with the `=?` at `start` has its end: at the first `?=` behind the
/// question marks that end its charset and its encoding.
pub open spec fn word_end(raw: Seq<char>, start: int) -> Option<int> {
    let a = text::find_char(raw, '?', start + 2);
    let b = text::find_char(raw, '?', a + 1);
    if a >= raw.len() || b >= raw.len() {
        None
    } else {
        text::find_from(raw, "?="@, b + 1)
    }
}

/// The header text from `pos` on with its encoded words decoded. The first `=?` that begins no
/// word that can be decoded ends the decoding: everything from there on is given as it is. There
/// is no result where a word is broken.
pub open spec fn decoded_from(raw: Seq<char>, pos: int) -> Option<Seq<char>>
    decreases raw.len() - pos,
{
    if pos < 0 || pos >= raw.len() {
        Some(seq![])
    } else {
        match text::find_from(raw, "=?"@, pos) {
            None => Some(raw.skip(pos)),
            Some(start) => match word_end(raw, start) {
                None => Some(raw.skip(pos)),
                Some(end) => match inner_word(raw.subrange(start + 2, end)) {
                    Word::Broken => None,
                    Word::Plain => Some(raw.skip(pos)),
                    Word::Text(t) => if !(pos < end + 2 <= raw.len()) {
                        None
                    } else {
                        match decoded_from(raw, end + 2) {
                            Some(rest) => Some(raw.subrange(pos, start) + t + rest),
                            None => None,
                        }
                    },
                },
            },
        }
    }
}

/// The header text with its encoded words decoded, if none of them is broken.
pub open spec fn decoded_header(raw: Seq<char>) -> Option<Seq<char>> {
    decoded_from(raw, 0)
}

/// The outcome of an encoded word, with its text as a string.
enum Outcome {
    Text(String),
    Plain,
    Broken,
}

impl Outcome {
    spec fn model(self) -> Word {
        match self {
            Outcome::Text(t) => Word::Text(t@),
            Outcome::Plain => Word::Plain,
            Outcome::Broken => Word::Broken,
        }
    }
}

fn decode_word(charset: &str, encoding: &str, data: &Vec<char>) -> (r: Outcome)
    requires
        charset::decodable_len(byte_len(data@)),
    ensures
        r.model() == word(charset@, encoding@, data@),
{
    if same(encoding, "B") || same(encoding, "b") {
        let encoded = to_text(data);
        match base64_decode(encoded.as_str().as_bytes()) {
            Some(v) => Outcome::Text(decode_charset(v.as_slice(), charset)),
            None => Outcome::Plain,
        }
    } else if same(encoding, "Q") || same(encoding, "q") {
        proof {
            lemma_byte_len(data@);
        }
        match decode_q(data) {
            Some(v) => Outcome::Text(decode_charset(v.as_slice(), charset)),
            None => Outcome::Broken,
        }
    } else {
        Outcome::Plain
    }
}

fn decode_inner(inner: &Vec<char>) -> (r: Outcome)
    requires
        charset::decodable_len(byte_len(inner@)),
    ensures
        r.model() == inner_word(inner@),
{
    let a = index_of(inner, '?', 0);
    if a >= inner.len() {
        return Outcome::Plain;
    }
    let b = index_of(inner, '?', a + 1);
    if b >= inner.len() {
        return Outcome::Plain;
    }
    proof {
        lemma_byte_len_part(inner@, b + 1, inner.len() as int);
    }
    let charset = to_text(&slice(inner, 0, a));
    let encoding = to_text(&slice(inner, a + 1, b));
    decode_word(charset.as_str(), encoding.as_str(), &slice(inner, b + 1, inner.len()))
}

fn find_end(raw: &Vec<char>, close: &Vec<char>, start: usize) -> (r: Option<usize>)
    requires
        start + 2 <= raw.len(),
        close@ == "?="@,
        close.len() == 2,
    ensures
        match r {
            Some(end) => word_end(raw@, start as int) == Some(end as int) && start + 2 < end && end
                + 2 <= raw.len(),
            None => word_end(raw@, start as int) is None,
        },
{
    let a = index_of(raw, '?', start + 2);
    if a >= raw.len() {
        return None;
    }
    let b = index_of(raw, '?', a + 1);
    if b >= raw.len() {
        return None;
    }
    search(raw, close, b + 1)
}

fn decode_words(raw: &str) -> (r: Option<String>)
    requires
        charset::decodable_len(byte_len(raw@)),
    ensures
        text::opt_view(r) == decoded_header(raw@),
{
    let v = to_chars(raw);
    let open = to_chars("=?");
    let close = to_chars("?=");
    proof {
        reveal_strlit("=?");
        reveal_strlit("?=");
    }
    let mut result = String::new();
    let mut pos: usize = 0;
    proof {
        if decoded_from(raw@, 0) is Some {
            assert(result@ + decoded_from(raw@, 0)->Some_0 =~= decoded_header(raw@)->Some_0);
        }
    }
    while pos < v.len()
        invariant
            v@ == raw@,
            open@ == "=?"@,
            close@ == "?="@,
            open.len() == 2,
            close.len() == 2,
            pos <= v.len(),
            charset::decodable_len(byte_len(raw@)),
            decoded_header(raw@) is None <==> decoded_from(raw@, pos as int) is None,
            decoded_from(raw@, pos as int) is Some ==> result@ + decoded_from(
                raw@,
                pos as int,
            )->Some_0 == decoded_header(raw@)->Some_0,
        decreases v.len() - pos,
    {
        let ghost before = result@;
        if let Some(start) = search(&v, &open, pos) {
            if let Some(end) = find_end(&v, &close, start) {
                proof {
                    lemma_byte_len_part(raw@, start + 2, end as int);
                }
                match decode_inner(&slice(&v, start + 2, end)) {
                    Outcome::Broken => {
                        return None;
                    },
                    Outcome::Plain => {},
                    Outcome::Text(t) => {
                        let lead = slice(&v, pos, start);
                        result.append(to_text(&lead).as_str());
                        result.append(t.as_str());
                        proof {
                            if decoded_from(raw@, end + 2) is Some {
                                let rest = decoded_from(raw@, end + 2)->Some_0;
                                assert(before + (lead@ + t@ + rest) =~= result@ + rest);
                            }
                        }
                        pos = end + 2;
                        continue;
                    },
                }
            }
        }
        result.append(to_text(&slice(&v, pos, v.len())).as_str());
        assert(raw@.subrange(pos as int, v.len() as int) =~= raw@.skip(pos as int));
        return Some(result);
    }
    assert(result@ + Seq::<char>::empty() =~= result@);
    Some(result)
}

/// The header text with its encoded words decoded: `=?UTF-8?B?5Lit5paH?=` becomes `中文`.
pub fn decode_mime_header(raw: &str) -> (r: String)
    requires
        charset::decodable_len(byte_len(raw@)),
        decoded_header(raw@) is Some,
    ensures
        Some(r@) == decoded_header(raw@),
{
    match decode_words(raw) {
        Some(t) => t,
        None => String::new(),
    }
}

/// The header text with its encoded words decoded, or nothing where one of them is broken.
pub fn try_decode_mime_header(raw: &str) -> (r: Option<String>)
    requires
        charset::decodable_len(byte_len(raw@)),
    ensures
        text::opt_view(r) == decoded_header(raw@),
{
    match decode_words(raw) {
        Some(_) => Some(decode_mime_header(raw)),
        None => None,
    }
}

/// A header text without `=?` is left as it is.
pub proof fn plain_header_unchanged(raw: Seq<char>)
    requires
        !text::holds(raw, "=?"@),
    ensures
        decoded_header(raw) == Some(raw),
{
    assert(raw.skip(0) =~= raw);
    if raw.len() == 0 {
        assert(raw =~= seq![]);
    }
}

/// A header text whose first `=?` begins no word that can be decoded is left as it is.
pub proof fn undecodable_header_unchanged(raw: Seq<char>, start: int)
    requires
        text::find_from(raw, "=?"@, 0) == Some(start),
        match word_end(raw, start) {
            Some(end) => inner_word(raw.subrange(start + 2, end)) is Plain,
            None => true,
        },
    ensures
        decoded_header(raw) == Some(raw),
{
    assert(raw.skip(0) =~= raw);
    if raw.len() == 0 {
        assert(raw =~= seq![]);
    }
}

proof fn lemma_char_behind(x: Seq<char>, y: Seq<char>, c: char, i: int)
    requires
        0 <= i,
    ensures
        text::find_char(x + y, c, x.len() + i) == x.len() + text::find_char(y, c, i),
    decreases y.len() - i,
{
    if i < y.len() && y[i] != c {
        lemma_char_behind(x, y, c, i + 1);
    }
}

proof fn lemma_found_behind(x: Seq<char>, y: Seq<char>, pat: Seq<char>, i: int)
    requires
        0 <= i,
    ensures
        text::find_from(x + y, pat, x.len() + i) == (match text::find_from(y, pat, i) {
            Some(k) => Some(x.len() + k),
            None => None,
        }),
    decreases y.len() + 1 - i,
{
    if i + pat.len() <= y.len() {
        assert((x + y).subrange(x.len() + i, x.len() + i + pat.len()) =~= y.subrange(
            i,
            i + pat.len(),
        ));
        if !text::occurs(y, pat, i) {
            lemma_found_behind(x, y, pat, i + 1);
        }
    }
}

proof fn lemma_found(s: Seq<char>, pat: Seq<char>, i: int)
    requires
        0 <= i,
    ensures
        match text::find_from(s, pat, i) {
            Some(k) => i <= k && text::occurs(s, pat, k),
            None => forall|j: int| i <= j ==> !#[trigger] text::occurs(s, pat, j),
        },
    decreases s.len() + 1 - i,
{
    if i + pat.len() <= s.len() && !text::occurs(s, pat, i) {
        lemma_found(s, pat, i + 1);
    }
}

proof fn lemma_first_found(s: Seq<char>, pat: Seq<char>, i: int, k: int)
    requires
        0 <= i <= k,
        text::occurs(s, pat, k),
        forall|j: int| i <= j < k ==> !#[trigger] text::occurs(s, pat, j),
    ensures
        text::find_from(s, pat, i) == Some(k),
    decreases k - i,
{
    if i < k {
        lemma_first_found(s, pat, i + 1, k);
    }
}

proof fn lemma_first_char(s: Seq<char>, c: char, i: int, k: int)
    requires
        0 <= i <= k < s.len(),
        s[k] == c,
        forall|j: int| i <= j < k ==> s[j] != c,
    ensures
        text::find_char(s, c, i) == k,
    decreases k - i,
{
    if i < k {
        lemma_first_char(s, c, i + 1, k);
    }
}

proof fn lemma_pair_found(x: Seq<char>, pat: Seq<char>, y: Seq<char>)
    requires
        !text::holds(x, pat),
        pat.len() == 2,
        pat[0] != pat[1],
    ensures
        text::find_from(x + pat + y, pat, 0) == Some(x.len() as int),
{
    let s = x + pat + y;
    let n = x.len() as int;
    assert(s.subrange(n, n + 2) =~= pat);
    assert forall|j: int| 0 <= j < x.len() implies !#[trigger] text::occurs(s, pat, j) by {
        lemma_found(x, pat, 0);
        if text::occurs(s, pat, j) {
            assert(s[j + 1] == s.subrange(j, j + 2)[1]);
            assert(j + 1 < x.len());
            assert(x.subrange(j, j + 2) =~= s.subrange(j, j + 2));
            assert(text::occurs(x, pat, j));
        }
    }
    lemma_first_found(s, pat, 0, n);
}

proof fn lemma_mark_found(x: Seq<char>, y: Seq<char>)
    requires
        !x.contains('?'),
    ensures
        text::find_char(x + "?"@ + y, '?', 0) == x.len(),
{
    reveal_strlit("?");
    let s = x + "?"@ + y;
    assert forall|j: int| 0 <= j < x.len() implies s[j] != '?' by {
        assert(x[j] == s[j]);
    }
    lemma_first_char(s, '?', 0, x.len() as int);
}

proof fn lemma_inner_word(charset: Seq<char>, encoding: Seq<char>, data: Seq<char>)
    requires
        !charset.contains('?'),
        !encoding.contains('?'),
    ensures
        inner_word(charset + "?"@ + (encoding + "?"@ + data)) == word(charset, encoding, data),
{
    reveal_strlit("?");
    let behind = encoding + "?"@ + data;
    let inner = charset + "?"@ + behind;
    let c = charset.len() as int;
    let d = c + 1 + encoding.len();
    lemma_mark_found(charset, behind);
    lemma_char_behind(charset + "?"@, behind, '?', 0);
    lemma_mark_found(encoding, data);
    assert(inner.subrange(0, c) =~= charset);
    assert(inner.subrange(c + 1, d) =~= encoding);
    assert(inner.subrange(d + 1, inner.len() as int) =~= data);
}

proof fn lemma_char_found(s: Seq<char>, c: char, i: int)
    requires
        0 <= i <= s.len(),
    ensures
        i <= text::find_char(s, c, i) <= s.len(),
    decreases s.len() - i,
{
    if i < s.len() && s[i] != c {
        lemma_char_found(s, c, i + 1);
    }
}

proof fn lemma_end_behind(x: Seq<char>, y: Seq<char>, start: int)
    requires
        0 <= start,
    ensures
        word_end(x + y, x.len() + start) == (match word_end(y, start) {
            Some(end) => Some(x.len() + end),
            None => None,
        }),
        word_end(y, start) matches Some(end) ==> start + 2 < end && end + 2 <= y.len(),
{
    reveal_strlit("?=");
    let a = text::find_char(y, '?', start + 2);
    let b = text::find_char(y, '?', a + 1);
    lemma_char_behind(x, y, '?', start + 2);
    if start + 2 <= y.len() {
        lemma_char_found(y, '?', start + 2);
    }
    lemma_char_behind(x, y, '?', a + 1);
    if a < y.len() {
        lemma_char_found(y, '?', a + 1);
        lemma_found_behind(x, y, "?="@, b + 1);
        lemma_found(y, "?="@, b + 1);
    }
}

proof fn lemma_decoded_behind(x: Seq<char>, y: Seq<char>, pos: int)
    requires
        0 <= pos,
    ensures
        decoded_from(x + y, x.len() + pos) == decoded_from(y, pos),
    decreases y.len() - pos,
{
    if pos < y.len() {
        let raw = x + y;
        assert(raw.skip(x.len() + pos) =~= y.skip(pos));
        lemma_found_behind(x, y, "=?"@, pos);
        lemma_found(y, "=?"@, pos);
        if let Some(start) = text::find_from(y, "=?"@, pos) {
            lemma_end_behind(x, y, start);
            if let Some(end) = word_end(y, start) {
                assert(raw.subrange(x.len() + start + 2, x.len() + end) =~= y.subrange(
                    start + 2,
                    end,
                ));
                assert(raw.subrange(x.len() + pos, x.len() + start) =~= y.subrange(pos, start));
                lemma_decoded_behind(x, y, end + 2);
            }
        }
    }
}

/// An encoded word as it is written.
pub open spec fn written_word(charset: Seq<char>, encoding: Seq<char>, data: Seq<char>) -> Seq<
    char,
> {
    "=?"@ + charset + "?"@ + encoding + "?"@ + data + "?="@
}

proof fn lemma_place_of_word(
    lead: Seq<char>,
    charset: Seq<char>,
    encoding: Seq<char>,
    data: Seq<char>,
    rest: Seq<char>,
)
    requires
        !text::holds(lead, "=?"@),
        !charset.contains('?'),
        !encoding.contains('?'),
        !text::holds(data, "?="@),
    ensures
        ({
            let whole = written_word(charset, encoding, data);
            let raw = lead + whole + rest;
            let start = lead.len() as int;
            let end = start + whole.len() - 2;
            &&& start < end
            &&& text::find_from(raw, "=?"@, 0) == Some(start)
            &&& word_end(raw, start) == Some(end)
            &&& raw.subrange(start + 2, end) == charset + "?"@ + (encoding + "?"@ + data)
        }),
{
    reveal_strlit("=?");
    reveal_strlit("?");
    reveal_strlit("?=");
    let raw = lead + written_word(charset, encoding, data) + rest;
    let third = data + "?="@ + rest;
    let second = encoding + "?"@ + third;
    let first = charset + "?"@ + second;
    let start = lead.len() as int;
    let a = start + 2 + charset.len();
    let b = a + 1 + encoding.len();
    let end = b + 1 + data.len();
    assert(text::find_from(raw, "=?"@, 0) == Some(start)) by {
        assert(raw =~= lead + "=?"@ + first);
        lemma_pair_found(lead, "=?"@, first);
    }
    assert(text::find_char(raw, '?', start + 2) == a) by {
        assert(raw =~= lead + "=?"@ + first);
        lemma_char_behind(lead + "=?"@, first, '?', 0);
        lemma_mark_found(charset, second);
    }
    assert(text::find_char(raw, '?', a + 1) == b) by {
        let before = lead + "=?"@ + charset + "?"@;
        assert(raw =~= before + second);
        lemma_char_behind(before, second, '?', 0);
        lemma_mark_found(encoding, third);
    }
    assert(text::find_from(raw, "?="@, b + 1) == Some(end)) by {
        let before = lead + "=?"@ + charset + "?"@ + encoding + "?"@;
        assert(raw =~= before + third);
        lemma_found_behind(before, third, "?="@, 0);
        lemma_pair_found(data, "?="@, rest);
    }
    assert(raw.subrange(start + 2, end) =~= charset + "?"@ + (encoding + "?"@ + data));
}

/// Every word that is written with its charset, encoding and data is taken for them, whatever
/// the data begins with: the text before it stays, the word becomes what its data say, and what
/// is behind it is decoded in turn. A word that cannot be decoded leaves the header as it is.
pub proof fn written_word_decoded(
    lead: Seq<char>,
    charset: Seq<char>,
    encoding: Seq<char>,
    data: Seq<char>,
    rest: Seq<char>,
)
    requires
        !text::holds(lead, "=?"@),
        !charset.contains('?'),
        !encoding.contains('?'),
        !text::holds(data, "?="@),
    ensures
        ({
            let raw = lead + written_word(charset, encoding, data) + rest;
            decoded_header(raw) == (match word(charset, encoding, data) {
                Word::Broken => None,
                Word::Plain => Some(raw),
                Word::Text(t) => match decoded_header(rest) {
                    Some(d) => Some(lead + t + d),
                    None => None,
                },
            })
        }),
{
    let raw = lead + written_word(charset, encoding, data) + rest;
    let start = lead.len() as int;
    lemma_place_of_word(lead, charset, encoding, data, rest);
    lemma_inner_word(charset, encoding, data);
    assert(raw.subrange(0, start) =~= lead);
    assert(raw.skip(0) =~= raw);
    lemma_decoded_behind(lead + written_word(charset, encoding, data), rest, 0);
}

/// The value of the first line from the line `i` on whose key, before the first colon and
/// trimmed, has this name in lower case: what is behind the colon, trimmed.
pub open spec fn field_from(rows: Seq<Seq<char>>, name: Seq<char>, i: int) -> Option<Seq<char>>
    decreases rows.len() - i,
{
    if i < 0 || i >= rows.len() {
        None
    } else {
        let row = rows[i];
        let colon = text::find_char(row, ':', 0);
        if colon < row.len() && text::lowercase(text::trimmed(row.subrange(0, colon))) == name {
            Some(text::trimmed(row.subrange(colon + 1, row.len() as int)))
        } else {
            field_from(rows, name, i + 1)
        }
    }
}

/// The value of the first field of this name in a header block.
pub open spec fn field_value(raw: Option<Seq<char>>, name: Seq<char>) -> Option<Seq<char>> {
    match raw {
        Some(block) => field_from(text::lines_of(block), text::lowercase(name), 0),
        None => None,
    }
}

/// The value of the first field of this name in a header block, if there is a block. The case
/// of the name does not matter.
pub fn parse_header_field(raw: &Option<String>, name: &str) -> (r: Option<String>)
    ensures
        text::opt_view(r) == field_value(text::opt_view(*raw), name@),
{
    match raw {
        None => None,
        Some(block) => {
            let name_lower = to_lowercase(name);
            let rows = lines(&to_chars(block.as_str()));
            let ghost all = text::views(rows@);
            let mut i: usize = 0;
            while i < rows.len()
                invariant
                    i <= rows.len(),
                    all == text::views(rows@),
                    name_lower@ == text::lowercase(name@),
                    field_from(all, name_lower@, 0) == field_from(all, name_lower@, i as int),
                    field_value(text::opt_view(*raw), name@) == field_from(all, name_lower@, 0),
                decreases rows.len() - i,
            {
                let row = &rows[i];
                assert(all[i as int] == row@);
                let colon = index_of(row, ':', 0);
                if colon < row.len() {
                    let key = to_text(&trim_chars(&slice(row, 0, colon)));
                    if same(to_lowercase(key.as_str()).as_str(), name_lower.as_str()) {
                        let value = to_text(&trim_chars(&slice(row, colon + 1, row.len())));
                        return Some(value);
                    }
                }
                i += 1;
            }
            None
        },
    }
}

/// The addresses of a list with commas between them: trimmed, and none empty.
pub open spec fn addresses(raw: Seq<char>) -> Seq<Seq<char>> {
    text::filled(text::pieces(raw, Sep::Char(',')))
}

/// The addresses of a header's list.
pub fn split_addr_list(raw: &str) -> (r: Vec<String>)
    ensures
        text::views(r@) == addresses(raw@),
{
    split_list(raw, Sep::Char(','))
}

} // verus!
