//! Which encoding the names of charsets stand for, name by name.

use vstd::prelude::*;

use crate::charset;
use crate::text;

verus! {

broadcast use vstd::string::group_string_axioms;

/// Whether the charset has this name, in upper or lower case.
pub open spec fn named(charset: Seq<char>, name: Seq<char>) -> bool {
    text::uppercase(charset) == name
}

proof fn lemma_letters()
    ensures
        "UTF-8"@.len() == 5,
        "UTF8"@.len() == 4,
        "ISO-8859-1"@.len() == 10,
        "LATIN1"@.len() == 6,
        "GBK"@.len() == 3,
        "GB2312"@.len() == 6,
        "GB18030"@.len() == 7,
        "GBK-EUC"@.len() == 7,
        "CSGB2312"@.len() == 8,
        "SHIFT_JIS"@.len() == 9,
        "SHIFT-JIS"@.len() == 9,
        "SJIS"@.len() == 4,
        "CSSHIFTJIS"@.len() == 10,
        "EUC-JP"@.len() == 6,
        "EUCJP"@.len() == 5,
        "BIG5"@.len() == 4,
        "BIG5-HKSCS"@.len() == 10,
        "CN-BIG5"@.len() == 7,
        "CSBIG5"@.len() == 6,
        "WINDOWS-1252"@.len() == 12,
        "KOI8-R"@.len() == 6,
        "KOI8-U"@.len() == 6,
        "ISO-8859-2"@.len() == 10,
        "ISO-8859-5"@.len() == 10,
        "ISO-8859-7"@.len() == 10,
        "ISO-8859-15"@.len() == 11,
        "UTF-8"@[0] == 'U',
        "EUCJP"@[0] == 'E',
        "UTF8"@[0] == 'U',
        "SJIS"@[0] == 'S',
        "BIG5"@[0] == 'B',
        "ISO-8859-1"@[9] == '1',
        "ISO-8859-1"@[0] == 'I',
        "CSSHIFTJIS"@[9] == 'S',
        "CSSHIFTJIS"@[0] == 'C',
        "BIG5-HKSCS"@[9] == 'S',
        "BIG5-HKSCS"@[0] == 'B',
        "ISO-8859-2"@[9] == '2',
        "ISO-8859-2"@[0] == 'I',
        "ISO-8859-5"@[9] == '5',
        "ISO-8859-5"@[0] == 'I',
        "ISO-8859-7"@[9] == '7',
        "ISO-8859-7"@[0] == 'I',
        "LATIN1"@[5] == '1',
        "GB2312"@[5] == '2',
        "EUC-JP"@[5] == 'P',
        "CSBIG5"@[5] == '5',
        "KOI8-R"@[5] == 'R',
        "KOI8-U"@[5] == 'U',
        "GB18030"@[2] == '1',
        "GBK-EUC"@[2] == 'K',
        "CN-BIG5"@[2] == '-',
        "SHIFT_JIS"@[5] == '_',
        "SHIFT-JIS"@[5] == '-',
{
    reveal_strlit("UTF-8");
    reveal_strlit("UTF8");
    reveal_strlit("ISO-8859-1");
    reveal_strlit("LATIN1");
    reveal_strlit("GBK");
    reveal_strlit("GB2312");
    reveal_strlit("GB18030");
    reveal_strlit("GBK-EUC");
    reveal_strlit("CSGB2312");
    reveal_strlit("SHIFT_JIS");
    reveal_strlit("SHIFT-JIS");
    reveal_strlit("SJIS");
    reveal_strlit("CSSHIFTJIS");
    reveal_strlit("EUC-JP");
    reveal_strlit("EUCJP");
    reveal_strlit("BIG5");
    reveal_strlit("BIG5-HKSCS");
    reveal_strlit("CN-BIG5");
    reveal_strlit("CSBIG5");
    reveal_strlit("WINDOWS-1252");
    reveal_strlit("KOI8-R");
    reveal_strlit("KOI8-U");
    reveal_strlit("ISO-8859-2");
    reveal_strlit("ISO-8859-5");
    reveal_strlit("ISO-8859-7");
    reveal_strlit("ISO-8859-15");
}

/// Names of the simplified Chinese charsets are read by GBK.
pub proof fn chinese_names_are_read_by_gbk(charset: Seq<char>, data: Seq<u8>)
    requires
        named(charset, "GBK"@)
            || named(charset, "GB2312"@)
            || named(charset, "GB18030"@)
            || named(charset, "GBK-EUC"@)
            || named(charset, "CSGB2312"@),
    ensures
        charset::charset_text(data, charset) == charset::encoding_text("GBK"@, data)->Some_0,
{
    lemma_letters();
}

/// Names of Shift_JIS are read by it.
pub proof fn japanese_names_are_read_by_shift_jis(charset: Seq<char>, data: Seq<u8>)
    requires
        named(charset, "SHIFT_JIS"@)
            || named(charset, "SHIFT-JIS"@)
            || named(charset, "SJIS"@)
            || named(charset, "CSSHIFTJIS"@),
    ensures
        charset::charset_text(data, charset) == charset::encoding_text("Shift_JIS"@, data)->Some_0,
{
    lemma_letters();
}

/// Names of EUC-JP are read by it.
pub proof fn japanese_names_are_read_by_euc_jp(charset: Seq<char>, data: Seq<u8>)
    requires
        named(charset, "EUC-JP"@)
            || named(charset, "EUCJP"@),
    ensures
        charset::charset_text(data, charset) == charset::encoding_text("EUC-JP"@, data)->Some_0,
{
    lemma_letters();
}

/// Names of the traditional Chinese charset Big5 are read by it.
pub proof fn traditional_names_are_read_by_big5(charset: Seq<char>, data: Seq<u8>)
    requires
        named(charset, "BIG5"@)
            || named(charset, "BIG5-HKSCS"@)
            || named(charset, "CN-BIG5"@)
            || named(charset, "CSBIG5"@),
    ensures
        charset::charset_text(data, charset) == charset::encoding_text("Big5"@, data)->Some_0,
{
    lemma_letters();
}

/// Every other name that is known is read by the encoding of that name.
pub proof fn other_names_are_read_by_their_own(charset: Seq<char>, data: Seq<u8>)
    ensures
        named(charset, "WINDOWS-1252"@) ==> charset::charset_text(data, charset) == charset::encoding_text(
            "WINDOWS-1252"@,
            data,
        )->Some_0,
        named(charset, "KOI8-R"@) ==> charset::charset_text(data, charset) == charset::encoding_text(
            "KOI8-R"@,
            data,
        )->Some_0,
        named(charset, "KOI8-U"@) ==> charset::charset_text(data, charset) == charset::encoding_text(
            "KOI8-U"@,
            data,
        )->Some_0,
        named(charset, "ISO-8859-2"@) ==> charset::charset_text(data, charset) == charset::encoding_text(
            "ISO-8859-2"@,
            data,
        )->Some_0,
        named(charset, "ISO-8859-5"@) ==> charset::charset_text(data, charset) == charset::encoding_text(
            "ISO-8859-5"@,
            data,
        )->Some_0,
        named(charset, "ISO-8859-7"@) ==> charset::charset_text(data, charset) == charset::encoding_text(
            "ISO-8859-7"@,
            data,
        )->Some_0,
        named(charset, "ISO-8859-15"@) ==> charset::charset_text(data, charset) == charset::encoding_text(
            "ISO-8859-15"@,
            data,
        )->Some_0,
{
    lemma_letters();
}

/// UTF-8 is read as such, and Latin-1 gives for every byte the character of its number.
pub proof fn plain_names_are_read_directly(charset: Seq<char>, data: Seq<u8>, i: int)
    ensures
        named(charset, "UTF-8"@) || named(charset, "UTF8"@) ==> charset::charset_text(data, charset)
            == text::utf8_lossy(data),
        named(charset, "ISO-8859-1"@) || named(charset, "LATIN1"@) ==> {
            let t = charset::charset_text(data, charset);
            t.len() == data.len() && (0 <= i < data.len() ==> t[i] as int == data[i] as int)
        },
{
    lemma_letters();
}

/// A name that is none of these is read by the encoding that the Encoding Standard knows by it,
/// and as UTF-8 where it knows none.
pub proof fn unknown_names_are_looked_up(charset: Seq<char>, data: Seq<u8>)
    requires
        !named(charset, "UTF-8"@),
        !named(charset, "UTF8"@),
        !named(charset, "ISO-8859-1"@),
        !named(charset, "LATIN1"@),
        !named(charset, "GBK"@),
        !named(charset, "GB2312"@),
        !named(charset, "GB18030"@),
        !named(charset, "GBK-EUC"@),
        !named(charset, "CSGB2312"@),
        !named(charset, "SHIFT_JIS"@),
        !named(charset, "SHIFT-JIS"@),
        !named(charset, "SJIS"@),
        !named(charset, "CSSHIFTJIS"@),
        !named(charset, "EUC-JP"@),
        !named(charset, "EUCJP"@),
        !named(charset, "BIG5"@),
        !named(charset, "BIG5-HKSCS"@),
        !named(charset, "CN-BIG5"@),
        !named(charset, "CSBIG5"@),
        !named(charset, "WINDOWS-1252"@),
        !named(charset, "KOI8-R"@),
        !named(charset, "KOI8-U"@),
        !named(charset, "ISO-8859-2"@),
        !named(charset, "ISO-8859-5"@),
        !named(charset, "ISO-8859-7"@),
        !named(charset, "ISO-8859-15"@),
    ensures
        charset::charset_text(data, charset) == match charset::encoding_text(
            text::uppercase(charset),
            data,
        ) {
            Some(t) => t,
            None => text::utf8_lossy(data),
        },
{
}

/// Two names of the same case-insensitive spelling are the same charset.
pub proof fn case_of_a_name_does_not_matter(a: Seq<char>, b: Seq<char>, data: Seq<u8>)
    requires
        text::uppercase(a) == text::uppercase(b),
    ensures
        charset::charset_text(data, a) == charset::charset_text(data, b),
{
}

/// A character that text in the wrong charset is full of: a control character above ASCII, or one
/// of the accented capitals by which the bytes of other charsets show.
pub open spec fn foreign(c: char) -> bool {
    0x80 <= c as int <= 0x9f || 0xc2 <= c as int <= 0xc7
}

proof fn lemma_foreign_count(s: Seq<char>)
    ensures
        (forall|i: int| 0 <= i < s.len() ==> !foreign(#[trigger] s[i])) ==> charset::suspicious_count(s)
            == 0,
        (forall|i: int| 0 <= i < s.len() ==> foreign(#[trigger] s[i])) ==> charset::suspicious_count(s)
            == s.len(),
        charset::suspicious_count(s) <= s.len(),
    decreases s.len(),
{
    if s.len() > 0 {
        let front = s.drop_last();
        lemma_foreign_count(front);
        assert(forall|i: int| 0 <= i < front.len() ==> front[i] == s[i]);
        assert(foreign(s.last()) <==> charset::suspicious(s.last()));
        if forall|i: int| 0 <= i < s.len() ==> !foreign(#[trigger] s[i]) {
            assert forall|i: int| 0 <= i < front.len() implies !foreign(#[trigger] front[i]) by {
                assert(front[i] == s[i]);
            }
            assert(!foreign(s[s.len() - 1]));
        }
        if forall|i: int| 0 <= i < s.len() ==> foreign(#[trigger] s[i]) {
            assert forall|i: int| 0 <= i < front.len() implies foreign(#[trigger] front[i]) by {
                assert(front[i] == s[i]);
            }
            assert(foreign(s[s.len() - 1]));
        }
    }
}

/// The count of foreign characters grows by each of them and by nothing else.
pub proof fn foreign_characters_are_counted(s: Seq<char>, c: char)
    ensures
        charset::suspicious_count(seq![]) == 0,
        charset::suspicious_count(s.push(c)) == charset::suspicious_count(s) + if foreign(c) {
            1int
        } else {
            0
        },
{
    assert(s.push(c).drop_last() =~= s);
}

/// Text counts as garbled where more than a quarter of its characters are foreign, and never where
/// it has five characters or fewer.
pub proof fn garbled_text_is_known(s: Seq<char>)
    ensures
        s.len() <= 5 ==> !charset::garbled(s),
        (forall|i: int| 0 <= i < s.len() ==> !foreign(#[trigger] s[i])) ==> !charset::garbled(s),
        s.len() > 5 && (forall|i: int| 0 <= i < s.len() ==> foreign(#[trigger] s[i]))
            ==> charset::garbled(s),
        s.len() > 5 ==> (charset::garbled(s) <==> charset::suspicious_count(s) > s.len() / 4),
{
    lemma_foreign_count(s);
}

/// A body is read by the charset that it declares, unless that gives garbled text.
pub proof fn declared_charset_comes_first(raw: Seq<u8>, declared: Seq<char>)
    requires
        declared.len() > 0,
        !charset::garbled(charset::charset_text(raw, declared)),
    ensures
        charset::body_text(raw, declared) == charset::charset_text(raw, declared),
{
}

/// Whether a body is to be read by this encoding: it is not the one that failed, and the text is
/// not garbled.
pub open spec fn reads_well(raw: Seq<u8>, declared: Seq<char>, label: Seq<char>) -> bool {
    text::ascii_lowered(declared) != text::ascii_lowered(label) && !charset::garbled(
        charset::encoding_text(label, raw)->Some_0,
    )
}

/// A body that declares no charset, or one that gives garbled text, is read by the first that reads
/// it well of GBK, UTF-8, Big5, Shift_JIS and Windows-1252, in this order, and by GBK where none
/// does.
pub proof fn common_charsets_are_tried(raw: Seq<u8>, declared: Seq<char>)
    requires
        declared.len() == 0 || charset::garbled(charset::charset_text(raw, declared)),
    ensures
        charset::body_text(raw, declared) == charset::encoding_text(
            if reads_well(raw, declared, "GBK"@) {
                "GBK"@
            } else if reads_well(raw, declared, "UTF-8"@) {
                "UTF-8"@
            } else if reads_well(raw, declared, "Big5"@) {
                "Big5"@
            } else if reads_well(raw, declared, "Shift_JIS"@) {
                "Shift_JIS"@
            } else if reads_well(raw, declared, "WINDOWS-1252"@) {
                "WINDOWS-1252"@
            } else {
                "GBK"@
            },
            raw,
        )->Some_0,
{
    reveal_with_fuel(charset::first_clean, 7);
}

} // verus!
