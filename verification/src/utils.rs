//! Folder names: decoded from the modified UTF-7 of IMAP, and shown in Chinese where they are
//! well known.

use vstd::prelude::*;
use vstd::string::*;

use crate::header;
use crate::text;
use crate::text::{index_of, same, slice, to_chars};

verus! {

broadcast use vstd::string::group_string_axioms;

/// The value of a character of the base64 alphabet of modified UTF-7, which has a comma in place
/// of the slash but also takes the slash.
pub open spec fn symbol_value(c: char) -> Option<int> {
    if 'A' <= c <= 'Z' {
        Some(c as u32 - 65)
    } else if 'a' <= c <= 'z' {
        Some(c as u32 - 71)
    } else if '0' <= c <= '9' {
        Some(c as u32 + 4)
    } else if c == '+' {
        Some(62)
    } else if c == '/' || c == ',' {
        Some(63)
    } else {
        None
    }
}

fn value_of_symbol(c: char) -> (r: Option<u32>)
    ensures
        match r {
            Some(n) => symbol_value(c) == Some(n as int),
            None => symbol_value(c) is None,
        },
{
    if c >= 'A' && c <= 'Z' {
        Some(c as u32 - 65)
    } else if c >= 'a' && c <= 'z' {
        Some(c as u32 - 71)
    } else if c >= '0' && c <= '9' {
        Some(c as u32 + 4)
    } else if c == '+' {
        Some(62)
    } else if c == '/' || c == ',' {
        Some(63)
    } else {
        None
    }
}

/// Where the characters of the alphabet end that stand at `i`.
pub open spec fn symbols_end(s: Seq<char>, i: int) -> int
    decreases s.len() - i,
{
    if i < 0 || i >= s.len() || symbol_value(s[i]) is None {
        i
    } else {
        symbols_end(s, i + 1)
    }
}

/// Whether the text is base64, perhaps without some of its padding, in which no bit is left over.
pub open spec fn base64_like(s: Seq<char>) -> bool {
    let n = symbols_end(s, 0);
    &&& forall|i: int| n <= i < s.len() ==> s[i] == '='
    &&& n % 4 != 1
    &&& n % 4 == 0 ==> s.len() == n
    &&& n % 4 == 2 ==> s.len() - n <= 2 && symbol_value(s[n - 1])->Some_0 % 16 == 0
    &&& n % 4 == 3 ==> s.len() - n <= 1 && symbol_value(s[n - 1])->Some_0 % 4 == 0
}

/// Whether what stands from `i` on between each ampersand and the hyphen behind it is base64.
pub open spec fn sections_sound(s: Seq<char>, i: int) -> bool
    decreases s.len() - i,
{
    let a = text::find_char(s, '&', i);
    let b = text::find_char(s, '-', a + 1);
    if i < 0 || i > a || a >= s.len() || b <= a || b >= s.len() {
        true
    } else {
        base64_like(s.subrange(a + 1, b)) && sections_sound(s, b + 1)
    }
}

/// Whether the text can be decoded as modified UTF-7.
pub open spec fn sound_name(s: Seq<char>) -> bool {
    &&& header::byte_len(s) <= usize::MAX / 16
    &&& sections_sound(s, 0)
}

fn is_base64_like(s: &Vec<char>) -> (r: bool)
    ensures
        r == base64_like(s@),
{
    let mut n: usize = 0;
    while n < s.len() && value_of_symbol(s[n]).is_some()
        invariant
            n <= s.len(),
            symbols_end(s@, 0) == symbols_end(s@, n as int),
            n > 0 ==> symbol_value(s[n - 1]) is Some,
        decreases s.len() - n,
    {
        n += 1;
    }
    let last: u32 = if n > 0 {
        match value_of_symbol(s[n - 1]) {
            Some(v) => v,
            None => 0,
        }
    } else {
        0
    };
    let mut i: usize = n;
    while i < s.len()
        invariant
            n <= i <= s.len(),
            n == symbols_end(s@, 0),
            forall|j: int| n <= j < i ==> s[j] == '=',
        decreases s.len() - i,
    {
        if s[i] != '=' {
            return false;
        }
        i += 1;
    }
    let pads: usize = s.len() - n;
    if n % 4 == 0 {
        pads == 0
    } else if n % 4 == 2 {
        pads <= 2 && last % 16 == 0
    } else if n % 4 == 3 {
        pads <= 1 && last % 4 == 0
    } else {
        false
    }
}

/// Whether the name can be decoded as modified UTF-7.
pub fn is_sound_name(name: &str) -> (r: bool)
    ensures
        r == sound_name(name@),
{
    if name.as_bytes().len() > usize::MAX / 16 {
        return false;
    }
    let v = to_chars(name);
    let mut i: usize = 0;
    while i < v.len()
        invariant
            v@ == name@,
            i <= v.len(),
            sections_sound(name@, 0) == sections_sound(name@, i as int),
            header::byte_len(name@) <= usize::MAX / 16,
        decreases v.len() - i,
    {
        let a = index_of(&v, '&', i);
        if a >= v.len() {
            return true;
        }
        let b = index_of(&v, '-', a + 1);
        if b >= v.len() {
            return true;
        }
        if !is_base64_like(&slice(&v, a + 1, b)) {
            return false;
        }
        i = b + 1;
    }
    proof {
        assert(text::find_char(name@, '&', i as int) == name@.len());
    }
    true
}

/// The text that the modified UTF-7 stands for.
pub uninterp spec fn utf7_text(s: Seq<char>) -> Seq<char>;

/// `utf7_imap::decode_utf7_imap`: what stands between an ampersand and a hyphen is decoded, and
/// the rest is left as it is. Where that is not base64 it panics.
#[verifier::external_body]
pub(crate) fn decode_utf7(name: &str) -> (r: String)
    requires
        sound_name(name@),
    ensures
        r@ == utf7_text(name@),
        !name@.contains('&') ==> r@ == name@,
{
    utf7_imap::decode_utf7_imap(name.to_string())
}

/// The Chinese name of a well-known folder; any other name itself.
pub open spec fn shown_name(name: Seq<char>) -> Seq<char> {
    if name == "INBOX"@ {
        "收件箱"@
    } else if name == "Sent"@ || name == "Sent Messages"@ || name == "Sent Items"@ {
        "已发送"@
    } else if name == "Drafts"@ {
        "草稿箱"@
    } else if name == "Trash"@ || name == "Deleted Messages"@ || name == "Deleted Items"@ {
        "垃圾箱"@
    } else if name == "Junk"@ || name == "Spam"@ || name == "Junk Email"@ {
        "垃圾邮件"@
    } else if name == "Archive"@ || name == "Archives"@ {
        "归档"@
    } else if name == "Outbox"@ {
        "发件箱"@
    } else if name == "Important"@ {
        "重要邮件"@
    } else if name == "Flagged"@ || name == "Starred"@ {
        "星标邮件"@
    } else {
        name
    }
}

/// The Chinese name of a well-known folder; any other name itself.
pub fn translate_folder(name: &str) -> (r: String)
    ensures
        r@ == shown_name(name@),
{
    if same(name, "INBOX") {
        "收件箱".to_owned()
    } else if same(name, "Sent") || same(name, "Sent Messages") || same(name, "Sent Items") {
        "已发送".to_owned()
    } else if same(name, "Drafts") {
        "草稿箱".to_owned()
    } else if same(name, "Trash") || same(name, "Deleted Messages") || same(name, "Deleted Items") {
        "垃圾箱".to_owned()
    } else if same(name, "Junk") || same(name, "Spam") || same(name, "Junk Email") {
        "垃圾邮件".to_owned()
    } else if same(name, "Archive") || same(name, "Archives") {
        "归档".to_owned()
    } else if same(name, "Outbox") {
        "发件箱".to_owned()
    } else if same(name, "Important") {
        "重要邮件".to_owned()
    } else if same(name, "Flagged") || same(name, "Starred") {
        "星标邮件".to_owned()
    } else {
        name.to_owned()
    }
}

/// What is shown for a folder: its name decoded, in Chinese where it is well known.
pub fn folder_display_name(name: &str) -> (r: String)
    requires
        sound_name(name@),
    ensures
        r@ == shown_name(utf7_text(name@)),
        !name@.contains('&') ==> r@ == shown_name(name@),
{
    let decoded = decode_utf7(name);
    translate_folder(decoded.as_str())
}

/// A name in Chinese is shown as it is: to translate twice is to translate once.
pub proof fn shown_name_stays(name: Seq<char>)
    ensures
        shown_name(shown_name(name)) == shown_name(name),
{
    lemma_shown_not_known("收件箱"@);
    lemma_shown_not_known("已发送"@);
    lemma_shown_not_known("草稿箱"@);
    lemma_shown_not_known("垃圾箱"@);
    lemma_shown_not_known("垃圾邮件"@);
    lemma_shown_not_known("归档"@);
    lemma_shown_not_known("发件箱"@);
    lemma_shown_not_known("重要邮件"@);
    lemma_shown_not_known("星标邮件"@);
    reveal_strlit("收件箱");
    reveal_strlit("已发送");
    reveal_strlit("草稿箱");
    reveal_strlit("垃圾箱");
    reveal_strlit("垃圾邮件");
    reveal_strlit("归档");
    reveal_strlit("发件箱");
    reveal_strlit("重要邮件");
    reveal_strlit("星标邮件");
}

proof fn lemma_shown_not_known(s: Seq<char>)
    ensures
        s.len() > 0 && s[0] as u32 > 127 ==> shown_name(s) == s,
{
    reveal_strlit("INBOX");
    reveal_strlit("Sent");
    reveal_strlit("Sent Messages");
    reveal_strlit("Sent Items");
    reveal_strlit("Drafts");
    reveal_strlit("Trash");
    reveal_strlit("Deleted Messages");
    reveal_strlit("Deleted Items");
    reveal_strlit("Junk");
    reveal_strlit("Spam");
    reveal_strlit("Junk Email");
    reveal_strlit("Archive");
    reveal_strlit("Archives");
    reveal_strlit("Outbox");
    reveal_strlit("Important");
    reveal_strlit("Flagged");
    reveal_strlit("Starred");
}

} // verus!
