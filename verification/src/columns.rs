//! Text in the columns of a terminal, where a Chinese character takes two.

use vstd::prelude::*;
use vstd::string::*;

use crate::header;
use crate::text;
use crate::text::{index_of, push_char, repeat, slice, to_chars, to_text, trim_chars};

verus! {

broadcast use vstd::string::group_string_axioms;

/// Whether the character takes two columns.
pub open spec fn wide(c: char) -> bool {
    ||| '\u{4E00}' <= c <= '\u{9FFF}'
    ||| '\u{3400}' <= c <= '\u{4DBF}'
    ||| '\u{2E80}' <= c <= '\u{2EFF}'
    ||| '\u{3000}' <= c <= '\u{303F}'
    ||| '\u{FF00}' <= c <= '\u{FFEF}'
}

/// Whether the character takes two columns.
pub fn is_cjk(c: char) -> (r: bool)
    ensures
        r == wide(c),
{
    c >= '\u{4E00}' && c <= '\u{9FFF}' || c >= '\u{3400}' && c <= '\u{4DBF}' || c >= '\u{2E80}' && c
        <= '\u{2EFF}' || c >= '\u{3000}' && c <= '\u{303F}' || c >= '\u{FF00}' && c <= '\u{FFEF}'
}

/// How many columns the character takes.
pub open spec fn columns(c: char) -> nat {
    if wide(c) {
        2
    } else {
        1
    }
}

/// How many columns the text takes.
pub open spec fn width(s: Seq<char>) -> nat
    decreases s.len(),
{
    if s.len() == 0 {
        0
    } else {
        columns(s[0]) + width(s.drop_first())
    }
}

proof fn lemma_width_bytes(s: Seq<char>)
    ensures
        width(s) <= header::byte_len(s),
    decreases s.len(),
{
    if s.len() > 0 {
        lemma_width_bytes(s.drop_first());
        let c = s[0];
        assert(vstd::utf8::encode_scalar(c as u32).len() >= columns(c));
    }
}

/// The columns of two texts, one behind the other, add up.
pub proof fn width_add(a: Seq<char>, b: Seq<char>)
    ensures
        width(a + b) == width(a) + width(b),
    decreases a.len(),
{
    if a.len() == 0 {
        assert(a + b =~= b);
    } else {
        width_add(a.drop_first(), b);
        assert((a + b).drop_first() =~= a.drop_first() + b);
        assert((a + b)[0] == a[0]);
    }
}

/// How many columns the text takes.
pub fn display_width(s: &str) -> (r: usize)
    ensures
        r == width(s@),
{
    let total = s.as_bytes().len();
    let v = to_chars(s);
    let mut n: usize = 0;
    let mut i: usize = 0;
    proof {
        lemma_width_bytes(s@);
        assert(s@.skip(0) =~= s@);
    }
    while i < v.len()
        invariant
            v@ == s@,
            i <= v.len(),
            n + width(s@.skip(i as int)) == width(s@),
            width(s@) <= total,
        decreases v.len() - i,
    {
        assert(s@.skip(i as int).drop_first() =~= s@.skip(i + 1));
        if is_cjk(v[i]) {
            n += 2;
        } else {
            n += 1;
        }
        i += 1;
    }
    n
}

/// The text from `i` on as far as it fits behind `used` of `room` columns; where it does not fit,
/// an ellipsis ends it.
pub open spec fn cut_from(s: Seq<char>, room: int, i: int, used: int) -> Seq<char>
    decreases s.len() - i,
{
    if i < 0 || i >= s.len() {
        seq![]
    } else if used + columns(s[i]) > room {
        seq!['…']
    } else {
        seq![s[i]] + cut_from(s, room, i + 1, used + columns(s[i]))
    }
}

/// The text cut to this many columns, the last of which is kept for an ellipsis.
pub open spec fn truncated(s: Seq<char>, max: nat) -> Seq<char> {
    if max < 2 {
        seq![]
    } else {
        cut_from(s, max - 1, 0, 0)
    }
}

/// The text cut to this many columns.
pub fn truncate_cols(s: &str, max_cols: usize) -> (r: String)
    ensures
        r@ == truncated(s@, max_cols as nat),
{
    let mut result = String::new();
    if max_cols < 2 {
        return result;
    }
    let v = to_chars(s);
    let room: usize = max_cols - 1;
    let mut cols: usize = 0;
    let mut i: usize = 0;
    assert(result@ + cut_from(s@, room as int, 0, 0) =~= truncated(s@, max_cols as nat));
    while i < v.len()
        invariant
            v@ == s@,
            i <= v.len(),
            cols <= room,
            result@ + cut_from(s@, room as int, i as int, cols as int) == truncated(
                s@,
                max_cols as nat,
            ),
        decreases v.len() - i,
    {
        let ghost before = result@;
        let w: usize = if is_cjk(v[i]) {
            2
        } else {
            1
        };
        if w > room - cols {
            push_char(&mut result, '…');
            assert(result@ =~= before + seq!['…']);
            return result;
        }
        push_char(&mut result, v[i]);
        proof {
            let rest = cut_from(s@, room as int, i + 1, cols + w);
            assert(before + (seq![s@[i as int]] + rest) =~= result@ + rest);
        }
        cols += w;
        i += 1;
    }
    assert(result@ + Seq::<char>::empty() =~= result@);
    result
}

proof fn lemma_cut(s: Seq<char>, room: int, i: int, used: int)
    requires
        0 <= i <= s.len(),
        used <= room,
    ensures
        used + width(cut_from(s, room, i, used)) <= room + 1,
        used + width(s.skip(i)) <= room ==> cut_from(s, room, i, used) == s.skip(i),
    decreases s.len() - i,
{
    if i < s.len() {
        let c = s[i];
        assert(s.skip(i).drop_first() =~= s.skip(i + 1));
        if used + columns(c) > room {
            assert(width(seq!['…'].drop_first()) == 0);
            assert(columns('…') == 1);
        } else {
            lemma_cut(s, room, i + 1, used + columns(c));
            let rest = cut_from(s, room, i + 1, used + columns(c));
            assert((seq![c] + rest).drop_first() =~= rest);
            assert(seq![c] + s.skip(i + 1) =~= s.skip(i));
        }
    } else {
        assert(s.skip(i) =~= seq![]);
    }
}

/// Cut text takes no more columns than there are, and text that leaves the last column free is
/// not cut.
pub proof fn truncated_fits(s: Seq<char>, max: nat)
    ensures
        width(truncated(s, max)) <= max,
        width(s) < max ==> truncated(s, max) == s,
{
    if max >= 2 {
        lemma_cut(s, max - 1, 0, 0);
        assert(s.skip(0) =~= s);
    } else if width(s) < max {
        if s.len() > 0 {
            assert(width(s) >= 1);
        }
        assert(s =~= seq![]);
    }
}

/// As many spaces as are missing to this many columns.
pub open spec fn filling(s: Seq<char>, total: nat) -> Seq<char> {
    text::repeated(
        ' ',
        if width(s) >= total {
            0
        } else {
            (total - width(s)) as nat
        },
    )
}

/// The text, with spaces behind it up to this many columns.
pub fn pad_right(s: &str, total_cols: usize) -> (r: String)
    ensures
        r@ == s@ + filling(s@, total_cols as nat),
{
    let w = display_width(s);
    let mut r = s.to_owned();
    if w >= total_cols {
        assert(s@ + filling(s@, total_cols as nat) =~= s@);
        return r;
    }
    r.append(repeat(' ', total_cols - w).as_str());
    r
}

/// The text, with spaces before it up to this many columns.
pub fn pad_left(s: &str, total_cols: usize) -> (r: String)
    ensures
        r@ == filling(s@, total_cols as nat) + s@,
{
    let w = display_width(s);
    if w >= total_cols {
        assert(filling(s@, total_cols as nat) + s@ =~= s@);
        return s.to_owned();
    }
    let mut r = repeat(' ', total_cols - w);
    r.append(s);
    r
}

proof fn lemma_spaces(n: nat)
    ensures
        width(text::repeated(' ', n)) == n,
    decreases n,
{
    if n > 0 {
        lemma_spaces((n - 1) as nat);
        assert(text::repeated(' ', n).drop_first() =~= text::repeated(' ', (n - 1) as nat));
    }
}

/// Padded text takes the columns that were asked for, or its own where it needs more.
pub proof fn padded_width(s: Seq<char>, total: nat)
    ensures
        width(s + filling(s, total)) == if width(s) < total {
            total
        } else {
            width(s)
        },
        width(filling(s, total) + s) == width(s + filling(s, total)),
{
    let f = filling(s, total);
    lemma_spaces(f.len());
    assert(text::repeated(' ', f.len()) =~= f);
    width_add(s, f);
    width_add(f, s);
}

/// Text that is cut and then padded takes exactly the columns that there are.
pub proof fn cell_width(s: Seq<char>, total: nat)
    ensures
        width(truncated(s, total) + filling(truncated(s, total), total)) == total,
{
    truncated_fits(s, total);
    padded_width(truncated(s, total), total);
}

/// The name of a sender that is written `name <address>`; without a name, the whole text.
pub open spec fn sender_name(s: Seq<char>) -> Seq<char> {
    let open = text::find_char(s, '<', 0);
    let name = text::trimmed(s.subrange(0, open));
    if open < s.len() && name.len() > 0 {
        name
    } else {
        s
    }
}

/// The name of a sender that is written `name <address>`; without a name, the whole text.
pub fn shorten_sender(s: &str) -> (r: String)
    ensures
        r@ == sender_name(s@),
{
    let v = to_chars(s);
    let open = index_of(&v, '<', 0);
    if open < v.len() {
        let name = trim_chars(&slice(&v, 0, open));
        if name.len() > 0 {
            return to_text(&name);
        }
    }
    s.to_owned()
}

} // verus!
