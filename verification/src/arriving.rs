//! What arrives: the summaries of messages, the fields of a header block, encoded words, and which
//! messages are listed.

use vstd::prelude::*;

use crate::charset;
use crate::codec;
use crate::header;
use crate::header::Word;
use crate::imap;
use crate::requests;
use crate::summary;
use crate::summary::{Address, Envelope, ListedModel};
use crate::text;
use crate::types::SummaryModel;

verus! {

broadcast use vstd::string::group_string_axioms;

/// An address is shown as its name and, in angle brackets, the mailbox at the host; without a name as
/// the mailbox at the host alone; and without a mailbox or a host as the name alone.
pub proof fn address_is_shown(a: Address<Seq<u8>>, name: Seq<char>)
    requires
        name == match a.name {
            Some(n) => match header::decoded_header(text::utf8_lossy(n)) {
                Some(t) => t,
                None => seq![],
            },
            None => seq![],
        },
    ensures
        ({
            let mailbox = match a.mailbox {
                Some(b) => text::utf8_lossy(b),
                None => seq![],
            };
            let host = match a.host {
                Some(b) => text::utf8_lossy(b),
                None => seq![],
            };
            let t = summary::address_text(a);
            &&& mailbox.len() > 0 && host.len() > 0 && name.len() > 0 ==> t == name + " <"@ + mailbox
                + "@"@ + host + ">"@
            &&& mailbox.len() > 0 && host.len() > 0 && name.len() == 0 ==> t == mailbox + "@"@ + host
            &&& mailbox.len() == 0 || host.len() == 0 ==> t == name
        }),
{
}

/// Addresses of an envelope are shown in their order, with commas between them.
pub proof fn addresses_are_shown_in_order(list: Seq<Address<Seq<u8>>>)
    ensures
        summary::list_text(list) == text::joined(
            Seq::new(list.len(), |i: int| summary::address_text(list[i])),
            ", "@,
        ),
{
    assert(list.map_values(|a: Address<Seq<u8>>| summary::address_text(a)) =~= Seq::new(
        list.len(),
        |i: int| summary::address_text(list[i]),
    ));
}

/// What an envelope says goes into the summary: sender, recipients and copies each from its own list,
/// and subject, date and identifier each from its own field, the subject with its encoded words
/// decoded.
pub proof fn summary_comes_from_the_envelope(
    item: ListedModel,
    e: Envelope<Seq<u8>, Seq<Address<Seq<u8>>>>,
)
    requires
        item.envelope == Some(e),
    ensures
        ({
            let m = summary::summary_of(item);
            &&& e.from is Some && summary::list_text(e.from->Some_0).len() > 0 ==> m.from
                == summary::list_text(e.from->Some_0)
            &&& e.to is Some && summary::list_text(e.to->Some_0).len() > 0 ==> m.to
                == summary::list_text(e.to->Some_0)
            &&& e.cc is Some && e.cc->Some_0.len() > 0 ==> m.cc == Some(
                summary::list_text(e.cc->Some_0),
            )
            &&& e.subject is Some && header::decoded_header(text::utf8_lossy(e.subject->Some_0))
                is Some ==> Some(m.subject) == header::decoded_header(
                text::utf8_lossy(e.subject->Some_0),
            )
            &&& e.date is Some ==> m.date == text::utf8_lossy(e.date->Some_0)
            &&& e.message_id is Some ==> m.message_id == Some(
                text::utf8_lossy(e.message_id->Some_0),
            )
        }),
{
}

/// Whether the text is the value, or is empty where there is none.
pub open spec fn is_value(s: Seq<char>, value: Option<Seq<char>>) -> bool {
    &&& value is Some ==> s == value->Some_0
    &&& value is None ==> s.len() == 0
}

/// Without an envelope every field of the summary comes from the header field of its own name.
pub proof fn summary_comes_from_the_header_fields(item: ListedModel, block: Seq<u8>)
    requires
        item.envelope is None,
        item.header == Some(block),
    ensures
        ({
            let m = summary::summary_of(item);
            let h = Some(text::utf8_lossy(block));
            &&& is_value(m.from, header::field_value(h, "from"@))
            &&& is_value(m.to, header::field_value(h, "to"@))
            &&& m.cc == header::field_value(h, "cc"@)
            &&& is_value(m.subject, header::field_value(h, "subject"@))
            &&& is_value(m.date, header::field_value(h, "date"@))
            &&& m.message_id == header::field_value(h, "message-id"@)
        }),
{
}

/// Identifier, size and flags of the summary are those that the server gives, or none.
pub proof fn summary_has_what_the_server_gives(item: ListedModel, i: int)
    ensures
        ({
            let m = summary::summary_of(item);
            &&& item.uid is Some ==> m.uid == item.uid->Some_0
            &&& item.uid is None ==> m.uid == 0
            &&& item.size is Some ==> m.size == item.size->Some_0
            &&& item.size is None ==> m.size == 0
            &&& m.flags.len() == item.flags.len()
            &&& 0 <= i < m.flags.len() ==> requests::stands_for(m.flags[i], item.flags[i])
            &&& !m.has_attachments
        }),
{
    if 0 <= i < item.flags.len() {
        assert(summary::flags_of(item.flags)[i] == summary::flag_of(item.flags[i]));
    }
}

/// Whether the row is a field of this name, which is given in lower case, with this value.
pub open spec fn is_field(row: Seq<char>, name: Seq<char>, value: Seq<char>) -> bool {
    exists|key: Seq<char>, behind: Seq<char>|
        row == #[trigger] (key + seq![':'] + behind) && !key.contains(':') && text::lowercase(
            text::trimmed(key),
        ) == name && value == text::trimmed(behind)
}

proof fn lemma_field(row: Seq<char>, name: Seq<char>, value: Seq<char>)
    requires
        is_field(row, name, value),
    ensures
        ({
            let colon = text::find_char(row, ':', 0);
            &&& colon < row.len()
            &&& text::lowercase(text::trimmed(row.subrange(0, colon))) == name
            &&& text::trimmed(row.subrange(colon + 1, row.len() as int)) == value
        }),
{
    let (key, behind) = choose|key: Seq<char>, behind: Seq<char>|
        row == #[trigger] (key + seq![':'] + behind) && !key.contains(':') && text::lowercase(
            text::trimmed(key),
        ) == name && value == text::trimmed(behind);
    let n = key.len() as int;
    assert forall|j: int| 0 <= j < n implies row[j] != ':' by {
        assert(key.contains(key[j]));
        assert(row[j] == key[j]);
    }
    assert(row[n] == ':');
    lemma_char_at(row, ':', 0, n);
    assert(row.subrange(0, n) =~= key);
    assert(row.subrange(n + 1, row.len() as int) =~= behind);
}

proof fn lemma_char_at(s: Seq<char>, c: char, i: int, k: int)
    requires
        0 <= i <= k < s.len(),
        s[k] == c,
        forall|j: int| i <= j < k ==> s[j] != c,
    ensures
        text::find_char(s, c, i) == k,
    decreases k - i,
{
    if i < k {
        lemma_char_at(s, c, i + 1, k);
    }
}

proof fn lemma_no_field(row: Seq<char>, name: Seq<char>)
    requires
        forall|value: Seq<char>| !#[trigger] is_field(row, name, value),
    ensures
        ({
            let colon = text::find_char(row, ':', 0);
            colon < row.len() ==> text::lowercase(text::trimmed(row.subrange(0, colon))) != name
        }),
{
    let colon = text::find_char(row, ':', 0);
    lemma_char_found(row, ':', 0);
    if colon < row.len() && text::lowercase(text::trimmed(row.subrange(0, colon))) == name {
        let key = row.subrange(0, colon);
        let behind = row.subrange(colon + 1, row.len() as int);
        assert(row =~= key + seq![':'] + behind);
        assert(!key.contains(':')) by {
            assert forall|j: int| 0 <= j < key.len() implies key[j] != ':' by {
                assert(key[j] == row[j]);
            }
        }
        assert(is_field(row, name, text::trimmed(behind)));
    }
}

proof fn lemma_char_found(s: Seq<char>, c: char, i: int)
    requires
        0 <= i <= s.len(),
    ensures
        i <= text::find_char(s, c, i) <= s.len(),
        forall|j: int| i <= j < text::find_char(s, c, i) ==> s[j] != c,
        text::find_char(s, c, i) < s.len() ==> s[text::find_char(s, c, i)] == c,
    decreases s.len() - i,
{
    if i < s.len() && s[i] != c {
        lemma_char_found(s, c, i + 1);
    }
}

proof fn lemma_field_from(
    rows: Seq<Seq<char>>,
    name: Seq<char>,
    i: int,
    j: int,
    value: Seq<char>,
)
    requires
        0 <= i <= j < rows.len(),
        is_field(rows[j], name, value),
        forall|k: int, v: Seq<char>|
            0 <= k < j ==> !#[trigger] is_field(rows[k], name, v),
    ensures
        header::field_from(rows, name, i) == Some(value),
    decreases j - i,
{
    if i < j {
        assert forall|v: Seq<char>| !#[trigger] is_field(rows[i], name, v) by {
            assert(!is_field(rows[i], name, v));
        }
        lemma_no_field(rows[i], name);
        lemma_field_from(rows, name, i + 1, j, value);
    } else {
        lemma_field(rows[j], name, value);
    }
}

proof fn lemma_no_field_from(rows: Seq<Seq<char>>, name: Seq<char>, i: int)
    requires
        0 <= i,
        forall|k: int, v: Seq<char>|
            0 <= k < rows.len() ==> !#[trigger] is_field(rows[k], name, v),
    ensures
        header::field_from(rows, name, i) is None,
    decreases rows.len() - i,
{
    if i < rows.len() {
        assert forall|v: Seq<char>| !#[trigger] is_field(rows[i], name, v) by {
            assert(!is_field(rows[i], name, v));
        }
        lemma_no_field(rows[i], name);
        lemma_no_field_from(rows, name, i + 1);
    }
}

/// The value of a field in a header block is what stands behind the colon in the first line of that
/// name, without space at its ends; the case of the name does not matter. Where no line has the name,
/// there is none.
pub proof fn field_is_the_first_of_its_name(
    block: Seq<char>,
    name: Seq<char>,
    j: int,
    value: Seq<char>,
)
    ensures
        ({
            let rows = text::lines_of(block);
            let lower = text::lowercase(name);
            &&& 0 <= j < rows.len() && is_field(rows[j], lower, value) && (forall|
                k: int,
                v: Seq<char>,
            | 0 <= k < j ==> !#[trigger] is_field(rows[k], lower, v)) ==> header::field_value(
                Some(block),
                name,
            ) == Some(value)
            &&& (forall|k: int, v: Seq<char>|
                0 <= k < rows.len() ==> !#[trigger] is_field(rows[k], lower, v))
                ==> header::field_value(Some(block), name) is None
        }),
        header::field_value(None, name) is None,
{
    let rows = text::lines_of(block);
    let lower = text::lowercase(name);
    if 0 <= j < rows.len() && is_field(rows[j], lower, value) && (forall|k: int, v: Seq<char>|
        0 <= k < j ==> !#[trigger] is_field(rows[k], lower, v)) {
        lemma_field_from(rows, lower, 0, j, value);
    }
    if forall|k: int, v: Seq<char>|
        0 <= k < rows.len() ==> !#[trigger] is_field(rows[k], lower, v) {
        lemma_no_field_from(rows, lower, 0);
    }
}

/// The lines of a text are those between its line feeds, each without a carriage return before the
/// line feed.
pub proof fn lines_end_with_line_feeds(line: Seq<char>, rest: Seq<char>)
    requires
        !line.contains('\n'),
        line.len() == 0 || line.last() != '\r',
    ensures
        text::lines_of(line + seq!['\n'] + rest) == seq![line] + text::lines_of(rest),
        text::lines_of(line + seq!['\r', '\n'] + rest) == seq![line] + text::lines_of(rest),
        line.len() > 0 ==> text::lines_of(line) == seq![line],
        text::lines_of(seq![]).len() == 0,
{
    let n = line.len() as int;
    let a = line + seq!['\n'] + rest;
    assert forall|j: int| 0 <= j < n implies a[j] != '\n' by {
        assert(line.contains(line[j]));
        assert(a[j] == line[j]);
    }
    assert(a[n] == '\n');
    lemma_char_at(a, '\n', 0, n);
    assert(a.subrange(0, n) =~= line);
    if n > 0 {
        assert(a[n - 1] == line.last());
    }
    lemma_lines_behind(line + seq!['\n'], rest, 0);
    assert(a =~= (line + seq!['\n']) + rest);
    let b = line + seq!['\r', '\n'] + rest;
    assert forall|j: int| 0 <= j < n + 1 implies b[j] != '\n' by {
        if j < n {
            assert(line.contains(line[j]));
            assert(b[j] == line[j]);
        }
    }
    assert(b[n] == '\r');
    assert(b[n + 1] == '\n');
    lemma_char_at(b, '\n', 0, n + 1);
    assert(b.subrange(0, n) =~= line);
    lemma_lines_behind(line + seq!['\r', '\n'], rest, 0);
    assert(b =~= (line + seq!['\r', '\n']) + rest);
    if n > 0 {
        assert forall|j: int| 0 <= j < n implies line[j] != '\n' by {
            assert(line.contains(line[j]));
        }
        lemma_char_found(line, '\n', 0);
        assert(line.subrange(0, n) =~= line);
    }
}

proof fn lemma_char_behind(x: Seq<char>, y: Seq<char>, c: char, i: int)
    requires
        0 <= i,
    ensures
        text::find_char(x + y, c, x.len() + i) == x.len() + text::find_char(y, c, i),
    decreases y.len() - i,
{
    if i < y.len() && y[i] != c {
        lemma_char_behind(x, y, c, i + 1);
    }
}

proof fn lemma_lines_behind(x: Seq<char>, y: Seq<char>, i: int)
    requires
        0 <= i <= y.len(),
        x.len() > 0,
        i > 0 || x.last() == '\n',
    ensures
        text::lines_from(x + y, x.len() + i) == text::lines_from(y, i),
    decreases y.len() - i,
{
    let s = x + y;
    let k = x.len() as int;
    if i < y.len() {
        let n = text::find_char(y, '\n', i);
        lemma_char_found(y, '\n', i);
        lemma_char_behind(x, y, '\n', i);
        if n < y.len() {
            lemma_lines_behind(x, y, n + 1);
            assert(s.subrange(k + i, k + n) =~= y.subrange(i, n));
            if n > i {
                assert(s[k + n - 1] == y[n - 1]);
                assert(s.subrange(k + i, k + n - 1) =~= y.subrange(i, n - 1));
            }
        } else {
            assert(s.subrange(k + i, s.len() as int) =~= y.subrange(i, y.len() as int));
        }
    }
}

/// An encoded word is read by base64 where it says `B` and by the Q encoding where it says `Q`, in
/// upper or lower case, and then by its charset; any other is no encoded word.
pub proof fn encodings_of_words(charset: Seq<char>, encoding: Seq<char>, data: Seq<char>)
    ensures
        encoding == "B"@ || encoding == "b"@ ==> match codec::base64_bytes(
            vstd::utf8::encode_utf8(data),
        ) {
            Some(v) => header::word(charset, encoding, data) == Word::Text(
                charset::charset_text(v, charset),
            ),
            None => header::word(charset, encoding, data) is Plain,
        },
        encoding == "Q"@ || encoding == "q"@ ==> match header::q_bytes(data, 0) {
            Some(v) => header::word(charset, encoding, data) == Word::Text(
                charset::charset_text(v, charset),
            ),
            None => header::word(charset, encoding, data) is Broken,
        },
        encoding != "B"@ && encoding != "b"@ && encoding != "Q"@ && encoding != "q"@
            ==> header::word(charset, encoding, data) is Plain,
{
    reveal_strlit("B");
    reveal_strlit("b");
    reveal_strlit("Q");
    reveal_strlit("q");
    assert("B"@[0] == 'B' && "b"@[0] == 'b' && "Q"@[0] == 'Q' && "q"@[0] == 'q');
}

/// In the Q encoding a character is its own byte and an underscore is a space.
pub proof fn q_text_is_its_own_bytes(data: Seq<char>)
    requires
        !data.contains('='),
    ensures
        header::q_bytes(data, 0) == Some(
            Seq::new(
                data.len(),
                |i: int|
                    if data[i] == '_' {
                        0x20u8
                    } else {
                        (data[i] as u32 % 256) as u8
                    },
            ),
        ),
{
    lemma_q_plain(data, 0);
    let bytes = Seq::new(
        data.len(),
        |i: int|
            if data[i] == '_' {
                0x20u8
            } else {
                (data[i] as u32 % 256) as u8
            },
    );
    assert(bytes.skip(0) =~= bytes);
}

proof fn lemma_q_plain(data: Seq<char>, i: int)
    requires
        !data.contains('='),
        0 <= i <= data.len(),
    ensures
        header::q_bytes(data, i) == Some(
            Seq::new(
                data.len(),
                |k: int|
                    if data[k] == '_' {
                        0x20u8
                    } else {
                        (data[k] as u32 % 256) as u8
                    },
            ).skip(i),
        ),
    decreases data.len() - i,
{
    let bytes = Seq::new(
        data.len(),
        |k: int|
            if data[k] == '_' {
                0x20u8
            } else {
                (data[k] as u32 % 256) as u8
            },
    );
    if i < data.len() {
        assert(data.contains(data[i]));
        lemma_q_plain(data, i + 1);
        assert(bytes.skip(i) =~= seq![bytes[i]] + bytes.skip(i + 1));
    } else {
        assert(bytes.skip(i) =~= seq![]);
    }
}

/// The bytes in the Q encoding, each as an equals sign and its two hexadecimal digits.
pub open spec fn q_written(bytes: Seq<u8>) -> Seq<char> {
    Seq::new(
        3 * bytes.len(),
        |i: int|
            if i % 3 == 0 {
                '='
            } else if i % 3 == 1 {
                codec::hex_digit(bytes[i / 3] as int / 16) as char
            } else {
                codec::hex_digit(bytes[i / 3] as int % 16) as char
            },
    )
}

proof fn lemma_q_ascii(bytes: Seq<u8>)
    ensures
        vstd::utf8::is_ascii_chars(q_written(bytes)),
{
    let data = q_written(bytes);
    assert forall|i: int| 0 <= i < data.len() implies (#[trigger] data[i] as nat) < 128 by {
        codec::hex_digits_read_back(bytes[i / 3]);
    }
}

proof fn lemma_boundary(utf: Seq<u8>, i: int)
    requires
        vstd::utf8::valid_utf8(utf),
        0 <= i <= utf.len(),
        i < utf.len() ==> utf[i] < 0x80,
    ensures
        vstd::utf8::is_char_boundary(utf, i),
{
    if i < utf.len() {
        vstd::utf8::is_char_boundary_iff_is_leading_byte(utf, i);
        assert(vstd::utf8::is_leading_byte_width_1(utf[i]));
    } else {
        vstd::utf8::is_char_boundary_start_end_of_seq(utf);
    }
}

proof fn lemma_q_written(bytes: Seq<u8>, k: int)
    requires
        0 <= k <= bytes.len(),
    ensures
        header::q_bytes(q_written(bytes), 3 * k) == Some(bytes.skip(k)),
    decreases bytes.len() - k,
{
    let data = q_written(bytes);
    if k < bytes.len() {
        let i = 3 * k;
        let n = bytes[k];
        let c = codec::hex_digit(n as int / 16);
        let d = codec::hex_digit(n as int % 16);
        codec::hex_digits_read_back(n);
        assert(i % 3 == 0 && (i + 1) % 3 == 1 && (i + 2) % 3 == 2);
        assert((i + 1) / 3 == k && (i + 2) / 3 == k);
        assert(data[i] == '=' && data[i + 1] == c as char && data[i + 2] == d as char);
        let utf = vstd::utf8::encode_utf8(data);
        lemma_q_ascii(bytes);
        vstd::utf8::is_ascii_chars_encode_utf8(data);
        vstd::utf8::encode_utf8_valid_utf8(data);
        assert(data[i + 1] as u8 == utf[i + 1] && data[i + 2] as u8 == utf[i + 2]);
        assert(utf[i + 1] == c && utf[i + 2] == d);
        lemma_boundary(utf, i + 1);
        if i + 3 < utf.len() {
            assert((i + 3) % 3 == 0);
            assert(data[i + 3] == '=');
            assert(data[i + 3] as u8 == utf[i + 3]);
        }
        lemma_boundary(utf, i + 3);
        lemma_q_written(bytes, k + 1);
        assert(bytes.skip(k) =~= seq![n] + bytes.skip(k + 1));
    } else {
        assert(bytes.skip(k) =~= seq![]);
    }
}

/// Bytes that are written in the Q encoding are read back, and a header that is a word of them in a
/// charset is the text that the charset makes of them.
pub proof fn q_words_are_read_back(charset: Seq<char>, bytes: Seq<u8>)
    requires
        !charset.contains('?'),
    ensures
        header::q_bytes(q_written(bytes), 0) == Some(bytes),
        header::decoded_header("=?"@ + charset + "?"@ + "Q"@ + "?"@ + q_written(bytes) + "?="@)
            == Some(charset::charset_text(bytes, charset)),
{
    let data = q_written(bytes);
    lemma_q_written(bytes, 0);
    assert(bytes.skip(0) =~= bytes);
    reveal_strlit("Q");
    reveal_strlit("?=");
    let none = Seq::<char>::empty();
    assert(!text::holds(none, "=?"@)) by {
        reveal_strlit("=?");
    }
    assert(!"Q"@.contains('?'));
    assert forall|i: int| 0 <= i < data.len() implies data[i] != '?' by {
        codec::hex_digits_read_back(bytes[i / 3]);
    }
    lemma_not_inside(data, "?="@, 0);
    header::written_word_decoded(none, charset, "Q"@, data, none);
    encodings_of_words(charset, "Q"@, data);
    assert(none + header::written_word(charset, "Q"@, data) + none =~= header::written_word(
        charset,
        "Q"@,
        data,
    ));
    let t = charset::charset_text(bytes, charset);
    assert(header::decoded_header(none) == Some(none));
    assert(none + t + none =~= t);
}

proof fn lemma_not_inside(s: Seq<char>, pat: Seq<char>, i: int)
    requires
        0 <= i,
        pat.len() > 0,
        forall|j: int| 0 <= j < s.len() ==> s[j] != pat[0],
    ensures
        text::find_from(s, pat, i) is None,
    decreases s.len() + 1 - i,
{
    if i + pat.len() <= s.len() {
        assert(s.subrange(i, i + pat.len())[0] == s[i]);
        lemma_not_inside(s, pat, i + 1);
    }
}

proof fn lemma_below_holds(s: Seq<SummaryModel>, limit: u32, m: SummaryModel)
    requires
        s.contains(m),
        m.uid < limit,
    ensures
        imap::below(s, Some(limit)).contains(m),
    decreases s.len(),
{
    let j = choose|j: int| 0 <= j < s.len() && s[j] == m;
    let rest = imap::below(s.drop_first(), Some(limit));
    let all = imap::below(s, Some(limit));
    if j == 0 {
        assert(all[0] == m);
    } else {
        assert(s.drop_first()[j - 1] == m);
        lemma_below_holds(s.drop_first(), limit, m);
        let k = choose|k: int| 0 <= k < rest.len() && rest[k] == m;
        if s[0].uid >= limit {
            assert(all[k] == m);
        } else {
            assert(all[k + 1] == m);
        }
    }
}

proof fn lemma_place(s: Seq<SummaryModel>, uid: u32, i: int)
    requires
        0 <= i <= s.len(),
    ensures
        i <= imap::place_from(s, uid, i) <= s.len(),
    decreases s.len() - i,
{
    if i < s.len() && s[i].uid > uid {
        lemma_place(s, uid, i + 1);
    }
}

proof fn lemma_sorted_holds(s: Seq<SummaryModel>, m: SummaryModel)
    ensures
        imap::by_uid_down(s).contains(m) <==> s.contains(m),
    decreases s.len(),
{
    if s.len() > 0 {
        let tail = s.drop_first();
        let rest = imap::by_uid_down(tail);
        lemma_sorted_holds(tail, m);
        let p = imap::place_from(rest, s[0].uid, 0);
        lemma_place(rest, s[0].uid, 0);
        let out = imap::by_uid_down(s);
        if s.contains(m) {
            let j = choose|j: int| 0 <= j < s.len() && s[j] == m;
            if j == 0 {
                assert(out[p] == m);
            } else {
                assert(tail[j - 1] == m);
                let k = choose|k: int| 0 <= k < rest.len() && rest[k] == m;
                assert(out[if k < p {
                    k
                } else {
                    k + 1
                }] == m);
            }
        }
        if out.contains(m) {
            let k = choose|k: int| 0 <= k < out.len() && out[k] == m;
            if k == p {
                assert(s[0] == m);
            } else {
                assert(rest[if k < p {
                    k
                } else {
                    k - 1
                }] == m);
                let j = choose|j: int| 0 <= j < tail.len() && tail[j] == m;
                assert(s[j + 1] == m);
            }
        }
    }
}

/// The summaries that come back are those that came, in another order at most: none is lost and none
/// is added.
pub proof fn no_summary_is_lost(s: Seq<SummaryModel>, m: SummaryModel)
    ensures
        imap::by_uid_down(s).contains(m) <==> s.contains(m),
        imap::by_uid_down(s).len() == s.len(),
{
    lemma_sorted_holds(s, m);
    imap::sorted_by_uid(s, 0);
}

/// Of the messages before another one the newest are given: one that is left out is before all that
/// are given, and is left out only where as many are given as were asked for.
pub proof fn newest_before_are_given(
    s: Seq<SummaryModel>,
    before_uid: u32,
    count: u32,
    m: SummaryModel,
)
    requires
        s.contains(m),
        m.uid < before_uid,
    ensures
        ({
            let given = imap::newest_before(s, before_uid, count);
            given.contains(m) || given.len() == count && forall|i: int|
                0 <= i < given.len() ==> (#[trigger] given[i]).uid >= m.uid
        }),
{
    let kept = imap::below(s, Some(before_uid));
    lemma_below_holds(s, before_uid, m);
    lemma_sorted_holds(kept, m);
    imap::sorted_by_uid(kept, 0);
    let sorted = imap::by_uid_down(kept);
    let given = imap::newest_before(s, before_uid, count);
    let k = choose|k: int| 0 <= k < sorted.len() && sorted[k] == m;
    if k < given.len() {
        assert(given[k] == m);
    } else {
        assert forall|i: int| 0 <= i < given.len() implies (#[trigger] given[i]).uid >= m.uid by {
            assert(given[i] == sorted[i]);
        }
    }
}

} // verus!
