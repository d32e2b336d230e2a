//! Transfer encodings: base64 and quoted-printable.

use vstd::prelude::*;

use base64::Engine;

use crate::number;
use crate::number::{read_number, NumberError};
use crate::text;
use crate::text::{bytes_to_string, is_space, same, to_chars, to_lowercase, to_text};

verus! {

broadcast use vstd::string::group_string_axioms;

/// The bytes that a base64 text stands for, if it is one.
pub uninterp spec fn base64_bytes(text: Seq<u8>) -> Option<Seq<u8>>;

/// The base64 text of the bytes.
pub uninterp spec fn base64_text(data: Seq<u8>) -> Seq<char>;

/// `base64::Engine::decode` of the standard engine (padding is required): the bytes that the
/// text stands for, never more than it has, or nothing where it is malformed.
#[verifier::external_body]
pub(crate) fn base64_decode(text: &[u8]) -> (r: Option<Vec<u8>>)
    ensures
        text::opt_view(r) == base64_bytes(text@),
        r matches Some(v) ==> v@.len() <= text@.len(),
{
    base64::engine::general_purpose::STANDARD.decode(text).ok()
}

/// `base64::Engine::encode` of the standard engine: text in letters, digits, `+`, `/` and `=`
/// that decodes to the bytes again.
#[verifier::external_body]
pub(crate) fn base64_encode(data: &[u8]) -> (r: String)
    requires
        data@.len() <= usize::MAX / 3,
    ensures
        r@ == base64_text(data@),
        vstd::utf8::is_ascii_chars(r@),
        !r@.contains(':'),
        base64_bytes(vstd::utf8::encode_utf8(r@)) == Some(data@),
{
    base64::engine::general_purpose::STANDARD.encode(data)
}

/// Whether the two bytes are text in UTF-8.
pub open spec fn two_byte_text(a: u8, b: u8) -> bool {
    (a < 0x80 && b < 0x80) || (0xc2 <= a <= 0xdf && 0x80 <= b <= 0xbf)
}

/// The number that the two bytes are the hexadecimal notation of.
pub open spec fn hex_pair(a: u8, b: u8) -> Result<int, NumberError> {
    number::number_of(seq![a as char, b as char], 16, 255)
}

/// The number that the two bytes are the hexadecimal notation of.
pub fn read_hex_pair(a: u8, b: u8) -> (r: Option<u8>)
    ensures
        match r {
            Some(n) => hex_pair(a, b) == Ok::<int, NumberError>(n as int),
            None => hex_pair(a, b) is Err,
        },
{
    let mut v: Vec<char> = Vec::new();
    v.push(a as char);
    v.push(b as char);
    assert(v@ =~= seq![a as char, b as char]);
    match read_number(&v, 16, 255) {
        Ok(n) => Some(n as u8),
        Err(_) => None,
    }
}

/// What quoted-printable bytes from `i` on stand for. An equals sign at a line's end joins the
/// line with the next; before two hexadecimal digits it stands for the byte of that number,
/// and for a zero byte before two bytes that are no text; else it stands for itself.
pub open spec fn quoted_from(data: Seq<u8>, i: int) -> Seq<u8>
    decreases data.len() - i,
{
    if i < 0 || i >= data.len() {
        seq![]
    } else if data[i] == 0x3d && i + 1 < data.len() {
        if data[i + 1] == 0x0d && i + 2 < data.len() && data[i + 2] == 0x0a {
            quoted_from(data, i + 3)
        } else if data[i + 1] == 0x0a {
            quoted_from(data, i + 2)
        } else if i + 2 < data.len() {
            if !two_byte_text(data[i + 1], data[i + 2]) {
                seq![0u8] + quoted_from(data, i + 3)
            } else {
                match hex_pair(data[i + 1], data[i + 2]) {
                    Ok(n) => seq![n as u8] + quoted_from(data, i + 3),
                    Err(_) => seq![0x3du8] + quoted_from(data, i + 1),
                }
            }
        } else {
            seq![0x3du8] + quoted_from(data, i + 1)
        }
    } else {
        seq![data[i]] + quoted_from(data, i + 1)
    }
}

/// What quoted-printable bytes stand for.
pub open spec fn quoted_bytes(data: Seq<u8>) -> Seq<u8> {
    quoted_from(data, 0)
}

/// What quoted-printable bytes stand for.
pub fn quoted_printable_decode(data: &[u8]) -> (r: Vec<u8>)
    ensures
        r@ == quoted_bytes(data@),
{
    let mut result: Vec<u8> = Vec::new();
    let mut i: usize = 0;
    let len: usize = data.len();
    assert(result@ + quoted_from(data@, 0) =~= quoted_bytes(data@));
    while i < len
        invariant
            len == data@.len(),
            i <= len,
            result@ + quoted_from(data@, i as int) == quoted_bytes(data@),
        decreases len - i,
    {
        let ghost before = result@;
        let ghost at = i as int;
        if data[i] == 0x3d && i + 1 < len {
            if data[i + 1] == 0x0d && i + 2 < len && data[i + 2] == 0x0a {
                i += 3;
            } else if data[i + 1] == 0x0a {
                i += 2;
            } else if i + 2 < len {
                let a = data[i + 1];
                let b = data[i + 2];
                if !((a < 0x80 && b < 0x80) || (a >= 0xc2 && a <= 0xdf && b >= 0x80 && b <= 0xbf)) {
                    result.push(0);
                    i += 3;
                } else {
                    match read_hex_pair(a, b) {
                        Some(n) => {
                            result.push(n);
                            i += 3;
                        },
                        None => {
                            result.push(data[i]);
                            i += 1;
                        },
                    }
                }
            } else {
                result.push(data[i]);
                i += 1;
            }
        } else {
            result.push(data[i]);
            i += 1;
        }
        proof {
            let rest = quoted_from(data@, i as int);
            if result@.len() > before.len() {
                assert(before + (seq![result@.last()] + rest) =~= result@ + rest);
            }
        }
    }
    assert(result@ + Seq::<u8>::empty() =~= result@);
    result
}

/// The characters that are not white space.
pub open spec fn without_space(s: Seq<char>) -> Seq<char>
    decreases s.len(),
{
    if s.len() == 0 {
        seq![]
    } else if text::space(s.last()) {
        without_space(s.drop_last())
    } else {
        without_space(s.drop_last()).push(s.last())
    }
}

fn drop_spaces(s: &Vec<char>) -> (r: Vec<char>)
    ensures
        r@ == without_space(s@),
{
    let mut r: Vec<char> = Vec::new();
    let mut i: usize = 0;
    while i < s.len()
        invariant
            i <= s.len(),
            r@ == without_space(s@.take(i as int)),
        decreases s.len() - i,
    {
        assert(s@.take(i + 1).drop_last() =~= s@.take(i as int));
        if !is_space(s[i]) {
            r.push(s[i]);
        }
        i += 1;
    }
    assert(s@.take(s.len() as int) =~= s@);
    r
}

/// The bytes with their transfer encoding undone: base64 without regard to white space, if it
/// is well-formed; quoted-printable; and every other encoding as it stands.
pub open spec fn transfer_bytes(data: Seq<u8>, encoding: Option<Seq<char>>) -> Seq<u8> {
    match encoding {
        Some(e) => if text::lowercase(e) == "base64"@ {
            match base64_bytes(vstd::utf8::encode_utf8(without_space(text::utf8_lossy(data)))) {
                Some(v) => v,
                None => data,
            }
        } else if text::lowercase(e) == "quoted-printable"@ {
            quoted_bytes(data)
        } else {
            data
        },
        None => data,
    }
}

/// The optional text, by the characters that it holds.
pub open spec fn opt_str(o: Option<&str>) -> Option<Seq<char>> {
    match o {
        Some(s) => Some(s@),
        None => None,
    }
}

/// The bytes, copied.
pub fn copy_bytes(data: &[u8]) -> (r: Vec<u8>)
    ensures
        r@ == data@,
{
    let mut r: Vec<u8> = Vec::new();
    let mut i: usize = 0;
    while i < data.len()
        invariant
            i <= data.len(),
            r@ == data@.take(i as int),
        decreases data.len() - i,
    {
        r.push(data[i]);
        i += 1;
    }
    assert(data@.take(data.len() as int) =~= data@);
    r
}

/// The bytes with their transfer encoding undone.
pub fn decode_transfer_encoding(data: &[u8], encoding: Option<&str>) -> (r: Vec<u8>)
    ensures
        r@ == transfer_bytes(data@, opt_str(encoding)),
{
    match encoding {
        Some(e) => {
            let name = to_lowercase(e);
            if same(name.as_str(), "base64") {
                let clean = to_text(&drop_spaces(&to_chars(bytes_to_string(data).as_str())));
                match base64_decode(clean.as_str().as_bytes()) {
                    Some(v) => v,
                    None => copy_bytes(data),
                }
            } else if same(name.as_str(), "quoted-printable") {
                quoted_printable_decode(data)
            } else {
                copy_bytes(data)
            }
        },
        None => copy_bytes(data),
    }
}

proof fn lemma_quoted_from(data: Seq<u8>, i: int)
    requires
        0 <= i <= data.len(),
    ensures
        quoted_from(data, i).len() <= data.len() - i,
        !data.contains(0x3d) ==> quoted_from(data, i) == data.skip(i),
    decreases data.len() - i,
{
    if i < data.len() {
        if i + 1 <= data.len() {
            lemma_quoted_from(data, i + 1);
        }
        if i + 2 <= data.len() {
            lemma_quoted_from(data, i + 2);
        }
        if i + 3 <= data.len() {
            lemma_quoted_from(data, i + 3);
        }
        if !data.contains(0x3d) {
            assert(data[i] != 0x3d);
            assert(seq![data[i]] + data.skip(i + 1) =~= data.skip(i));
        }
    } else {
        assert(data.skip(i) =~= seq![]);
    }
}

/// Decoding quoted-printable never makes more bytes than there were, and bytes without an
/// equals sign stand for themselves.
pub proof fn quoted_bytes_shrink(data: Seq<u8>)
    ensures
        quoted_bytes(data).len() <= data.len(),
        !data.contains(0x3d) ==> quoted_bytes(data) == data,
{
    lemma_quoted_from(data, 0);
    assert(data.skip(0) =~= data);
}

proof fn lemma_quoted_behind(a: Seq<u8>, b: Seq<u8>, i: int)
    requires
        0 <= i,
    ensures
        quoted_from(a + b, a.len() + i) == quoted_from(b, i),
    decreases b.len() - i,
{
    if i < b.len() {
        lemma_quoted_behind(a, b, i + 1);
        if i + 1 < b.len() {
            lemma_quoted_behind(a, b, i + 2);
        }
        if i + 2 < b.len() {
            lemma_quoted_behind(a, b, i + 3);
        }
    }
}

/// Whether neither of the last two bytes is an equals sign, so that what an equals sign stands
/// for does not depend on what comes behind the bytes.
pub open spec fn ends_whole(data: Seq<u8>) -> bool {
    forall|i: int| data.len() - 2 <= i < data.len() && 0 <= i ==> #[trigger] data[i] != 0x3d
}

proof fn lemma_prepended(x: u8, a: Seq<u8>, b: Seq<u8>)
    ensures
        (seq![x] + a) + b == seq![x] + (a + b),
{
    assert((seq![x] + a) + b =~= seq![x] + (a + b));
}

proof fn lemma_quoted_before(a: Seq<u8>, b: Seq<u8>, i: int)
    requires
        0 <= i <= a.len(),
        ends_whole(a),
    ensures
        quoted_from(a + b, i) == quoted_from(a, i) + quoted_bytes(b),
    decreases a.len() - i,
{
    let all = a + b;
    if i < a.len() {
        assert(all[i] == a[i]);
        lemma_quoted_before(a, b, i + 1);
        if a[i] == 0x3d {
            assert(i + 2 < a.len());
            assert(all[i + 1] == a[i + 1]);
            assert(all[i + 2] == a[i + 2]);
            lemma_quoted_before(a, b, i + 2);
            lemma_quoted_before(a, b, i + 3);
            lemma_prepended(0, quoted_from(a, i + 3), quoted_bytes(b));
            if let Ok(n) = hex_pair(a[i + 1], a[i + 2]) {
                lemma_prepended(n as u8, quoted_from(a, i + 3), quoted_bytes(b));
            }
        }
        lemma_prepended(a[i], quoted_from(a, i + 1), quoted_bytes(b));
    } else {
        lemma_quoted_behind(a, b, 0);
        assert(quoted_from(a, i) + quoted_bytes(b) =~= quoted_bytes(b));
    }
}

/// Quoted-printable bytes that are joined stand for what each of them stands for, joined, unless
/// the first end with an equals sign or one byte behind one.
pub proof fn quoted_bytes_join(a: Seq<u8>, b: Seq<u8>)
    requires
        ends_whole(a),
    ensures
        quoted_bytes(a + b) == quoted_bytes(a) + quoted_bytes(b),
{
    lemma_quoted_before(a, b, 0);
}

/// An equals sign with two hexadecimal digits behind it stands for the byte that they are the
/// notation of, whatever the case of the digits.
pub proof fn quoted_byte_reads_back(c: u8, d: u8)
    requires
        number::digit_value(c as char, 16) is Some,
        number::digit_value(d as char, 16) is Some,
    ensures
        quoted_bytes(seq![0x3du8, c, d]) == seq![
            (number::digit_value(c as char, 16)->Some_0 * 16 + number::digit_value(
                d as char,
                16,
            )->Some_0) as u8,
        ],
{
    let data = seq![0x3du8, c, d];
    let pair = seq![c as char, d as char];
    let x = number::digit_value(c as char, 16)->Some_0;
    let y = number::digit_value(d as char, 16)->Some_0;
    assert(0 <= x < 16 && 0 <= y < 16);
    assert(c < 0x80 && d < 0x80);
    assert(number::digits_from(pair, 16, 255, 2, x * 16 + y) == Ok::<int, NumberError>(x * 16 + y));
    assert(number::digits_from(pair, 16, 255, 1, x) == Ok::<int, NumberError>(x * 16 + y));
    assert(number::digits_from(pair, 16, 255, 0, 0) == Ok::<int, NumberError>(x * 16 + y));
    assert(hex_pair(c, d) == Ok::<int, NumberError>(x * 16 + y));
    assert(quoted_from(data, 3) =~= seq![]);
    assert(quoted_from(data, 0) =~= seq![(x * 16 + y) as u8]);
}

/// The hexadecimal digit of a number below sixteen.
pub open spec fn hex_digit(n: int) -> u8 {
    if n < 10 {
        (48 + n) as u8
    } else {
        (55 + n) as u8
    }
}

/// The two hexadecimal digits of a byte are the notation of it.
pub proof fn hex_digits_read_back(n: u8)
    ensures
        hex_pair(hex_digit(n as int / 16), hex_digit(n as int % 16)) == Ok::<int, NumberError>(
            n as int,
        ),
        hex_digit(n as int / 16) < 0x80,
        hex_digit(n as int % 16) < 0x80,
{
    let c = hex_digit(n as int / 16);
    let d = hex_digit(n as int % 16);
    let pair = seq![c as char, d as char];
    let x = n as int / 16;
    assert(number::digit_value(c as char, 16) == Some(x));
    assert(number::digit_value(d as char, 16) == Some(n as int % 16));
    assert(number::digits_from(pair, 16, 255, 2, n as int) == Ok::<int, NumberError>(n as int));
    assert(number::digits_from(pair, 16, 255, 1, x) == Ok::<int, NumberError>(n as int));
    assert(number::digits_from(pair, 16, 255, 0, 0) == Ok::<int, NumberError>(n as int));
}

/// The bytes, each written as an equals sign and its two hexadecimal digits.
pub open spec fn escaped(data: Seq<u8>) -> Seq<u8>
    decreases data.len(),
{
    if data.len() == 0 {
        seq![]
    } else {
        escaped(data.drop_last()) + seq![
            0x3du8,
            hex_digit(data.last() as int / 16),
            hex_digit(data.last() as int % 16),
        ]
    }
}

/// Bytes that are each written as an equals sign and two hexadecimal digits are given back.
pub proof fn escaped_bytes_read_back(data: Seq<u8>)
    ensures
        quoted_bytes(escaped(data)) == data,
        ends_whole(escaped(data)),
    decreases data.len(),
{
    if data.len() == 0 {
        assert(quoted_bytes(escaped(data)) =~= data);
    } else {
        let front = data.drop_last();
        let n = data.last();
        let c = hex_digit(n as int / 16);
        let d = hex_digit(n as int % 16);
        let last = seq![0x3du8, c, d];
        escaped_bytes_read_back(front);
        quoted_bytes_join(escaped(front), last);
        assert(number::digit_value(c as char, 16) == Some(n as int / 16));
        assert(number::digit_value(d as char, 16) == Some(n as int % 16));
        quoted_byte_reads_back(c, d);
        assert(front + seq![n] =~= data);
        let all = escaped(data);
        assert(all =~= escaped(front) + last);
        assert(all[all.len() - 1] == d && all[all.len() - 2] == c);
    }
}

/// Without an encoding, or with one that is not known, the bytes stay as they are.
pub proof fn transfer_bytes_identity(data: Seq<u8>, encoding: Option<Seq<char>>)
    requires
        encoding matches Some(e) ==> text::lowercase(e) != "base64"@ && text::lowercase(e)
            != "quoted-printable"@,
    ensures
        transfer_bytes(data, encoding) == data,
{
}

} // verus!
