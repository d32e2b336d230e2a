//! Text as sequences of characters: trimming, splitting, joining, searching and replacing.

use vstd::prelude::*;
use vstd::string::*;

verus! {

broadcast use vstd::string::group_string_axioms;

/// The views of the elements of a sequence.
pub open spec fn views<T: View>(s: Seq<T>) -> Seq<T::V> {
    Seq::new(s.len(), |i: int| s[i]@)
}

/// Pushing an element pushes its view.
pub broadcast proof fn views_push<T: View>(s: Seq<T>, x: T)
    ensures
        #[trigger] views(s.push(x)) == views(s).push(x@),
{
    assert(views(s.push(x)) =~= views(s).push(x@));
}

/// No elements, no views.
pub broadcast proof fn views_empty<T: View>()
    ensures
        #[trigger] views(Seq::<T>::empty()) == Seq::<T::V>::empty(),
{
    assert(views(Seq::<T>::empty()) =~= Seq::<T::V>::empty());
}

/// The view of an optional value.
pub open spec fn opt_view<T: View>(o: Option<T>) -> Option<T::V> {
    match o {
        Some(x) => Some(x@),
        None => None,
    }
}

/// The characters with the Unicode `White_Space` property.
pub open spec fn space(c: char) -> bool {
    ||| '\u{9}' <= c <= '\u{d}'
    ||| c == '\u{20}'
    ||| c == '\u{85}'
    ||| c == '\u{a0}'
    ||| c == '\u{1680}'
    ||| '\u{2000}' <= c <= '\u{200a}'
    ||| c == '\u{2028}'
    ||| c == '\u{2029}'
    ||| c == '\u{202f}'
    ||| c == '\u{205f}'
    ||| c == '\u{3000}'
}

/// Whether a character is white space.
pub fn is_space(c: char) -> (r: bool)
    ensures
        r == space(c),
{
    (c >= '\u{9}' && c <= '\u{d}') || c == '\u{20}' || c == '\u{85}' || c == '\u{a0}' || c
        == '\u{1680}' || (c >= '\u{2000}' && c <= '\u{200a}') || c == '\u{2028}' || c == '\u{2029}'
        || c == '\u{202f}' || c == '\u{205f}' || c == '\u{3000}'
}

/// `String::push`: the character becomes the last one of the string.
#[verifier::external_body]
pub(crate) fn push_char(s: &mut String, c: char)
    ensures
        final(s)@ == old(s)@.push(c),
{
    s.push(c);
}

/// `String::pop`: the last character leaves the string, if there is one.
#[verifier::external_body]
pub(crate) fn pop_char(s: &mut String) -> (r: Option<char>)
    ensures
        old(s)@.len() == 0 ==> r is None && final(s)@ == old(s)@,
        old(s)@.len() > 0 ==> r == Some(old(s)@.last()) && final(s)@ == old(s)@.drop_last(),
{
    s.pop()
}

/// The characters of a string.
pub fn to_chars(s: &str) -> (r: Vec<char>)
    ensures
        r@ == s@,
{
    let mut r: Vec<char> = Vec::new();
    for c in it: s.chars()
        invariant
            r@ == s@.take(it.index() as int),
            it.seq() == s@,
    {
        r.push(c);
    }
    r
}

/// The string of the characters.
pub fn to_text(s: &Vec<char>) -> (r: String)
    ensures
        r@ == s@,
{
    let mut r = String::new();
    let mut i: usize = 0;
    while i < s.len()
        invariant
            i <= s.len(),
            r@ == s@.take(i as int),
        decreases s.len() - i,
    {
        push_char(&mut r, s[i]);
        i += 1;
    }
    assert(s@.take(s.len() as int) =~= s@);
    r
}

/// Whether two strings hold the same characters.
pub fn same(a: &str, b: &str) -> (r: bool)
    ensures
        r == (a@ == b@),
{
    let x = to_chars(a);
    let y = to_chars(b);
    if x.len() != y.len() {
        return false;
    }
    let mut i: usize = 0;
    while i < x.len()
        invariant
            x@ == a@,
            y@ == b@,
            x.len() == y.len(),
            i <= x.len(),
            forall|j: int| 0 <= j < i ==> a@[j] == b@[j],
        decreases x.len() - i,
    {
        if x[i] != y[i] {
            assert(a@[i as int] != b@[i as int]);
            return false;
        }
        i += 1;
    }
    assert(a@ =~= b@);
    true
}

/// The characters from `from` up to `to`.
pub fn slice(s: &Vec<char>, from: usize, to: usize) -> (r: Vec<char>)
    requires
        from <= to <= s.len(),
    ensures
        r@ == s@.subrange(from as int, to as int),
{
    let mut r: Vec<char> = Vec::new();
    let mut i: usize = from;
    while i < to
        invariant
            from <= i <= to <= s.len(),
            r@ == s@.subrange(from as int, i as int),
        decreases to - i,
    {
        r.push(s[i]);
        i += 1;
    }
    r
}

/// Appends the characters of a string.
pub fn add_text(out: &mut Vec<char>, s: &str)
    ensures
        final(out)@ == old(out)@ + s@,
{
    let mut more = to_chars(s);
    out.append(&mut more);
}

/// The index of the first character at or after `i` that is not white space.
pub open spec fn skip_space(s: Seq<char>, i: int) -> int
    decreases s.len() - i,
{
    if i < 0 || i >= s.len() {
        s.len() as int
    } else if space(s[i]) {
        skip_space(s, i + 1)
    } else {
        i
    }
}

/// The end of what is left of `s[lo..hi]` once the white space at its end is gone.
pub open spec fn drop_space(s: Seq<char>, lo: int, hi: int) -> int
    decreases hi - lo,
{
    if hi <= lo {
        lo
    } else if space(s[hi - 1]) {
        drop_space(s, lo, hi - 1)
    } else {
        hi
    }
}

/// The text without the white space at its start and its end.
pub open spec fn trimmed(s: Seq<char>) -> Seq<char> {
    s.subrange(skip_space(s, 0), drop_space(s, skip_space(s, 0), s.len() as int))
}

pub proof fn lemma_skip_space(s: Seq<char>, i: int)
    requires
        0 <= i <= s.len(),
    ensures
        i <= skip_space(s, i) <= s.len(),
        forall|j: int| i <= j < skip_space(s, i) ==> space(s[j]),
        skip_space(s, i) < s.len() ==> !space(s[skip_space(s, i)]),
    decreases s.len() - i,
{
    if i < s.len() && space(s[i]) {
        lemma_skip_space(s, i + 1);
    }
}

pub proof fn lemma_drop_space(s: Seq<char>, lo: int, hi: int)
    requires
        0 <= lo <= hi <= s.len(),
    ensures
        lo <= drop_space(s, lo, hi) <= hi,
        forall|j: int| drop_space(s, lo, hi) <= j < hi ==> space(s[j]),
        drop_space(s, lo, hi) > lo ==> !space(s[drop_space(s, lo, hi) - 1]),
    decreases hi - lo,
{
    if hi > lo && space(s[hi - 1]) {
        lemma_drop_space(s, lo, hi - 1);
    }
}

/// Trimming leaves no white space at either end, and text that has none there is left alone.
pub proof fn trimmed_ends(s: Seq<char>)
    ensures
        trimmed(s).len() <= s.len(),
        trimmed(s).len() > 0 ==> !space(trimmed(s)[0]) && !space(trimmed(s).last()),
        trimmed(trimmed(s)) == trimmed(s),
        s.len() == 0 || (!space(s[0]) && !space(s.last())) ==> trimmed(s) == s,
{
    let a = skip_space(s, 0);
    lemma_skip_space(s, 0);
    lemma_drop_space(s, a, s.len() as int);
    let b = drop_space(s, a, s.len() as int);
    let t = trimmed(s);
    if t.len() > 0 {
        assert(t[0] == s[a]);
        assert(t.last() == s[b - 1]);
        assert(skip_space(t, 0) == 0);
        assert(drop_space(t, 0, t.len() as int) == t.len());
    } else {
        assert(skip_space(t, 0) == 0);
        assert(drop_space(t, 0, 0) == 0);
    }
    assert(trimmed(t) =~= t);
    if s.len() == 0 || (!space(s[0]) && !space(s.last())) {
        assert(a == 0);
        assert(trimmed(s) =~= s);
    }
}

/// The text without white space at its ends.
pub fn trim_chars(s: &Vec<char>) -> (r: Vec<char>)
    ensures
        r@ == trimmed(s@),
{
    let mut a: usize = 0;
    while a < s.len() && is_space(s[a])
        invariant
            a <= s.len(),
            skip_space(s@, 0) == skip_space(s@, a as int),
        decreases s.len() - a,
    {
        a += 1;
    }
    let mut b: usize = s.len();
    while b > a && is_space(s[b - 1])
        invariant
            a <= b <= s.len(),
            drop_space(s@, a as int, s.len() as int) == drop_space(s@, a as int, b as int),
        decreases b,
    {
        b -= 1;
    }
    slice(s, a, b)
}

/// The text without white space at its ends.
pub fn trim(s: &str) -> (r: String)
    ensures
        r@ == trimmed(s@),
{
    to_text(&trim_chars(&to_chars(s)))
}

/// What separates the pieces of a text.
#[derive(Clone, Copy, Debug, PartialEq, Eq, Structural)]
pub enum Sep {
    /// This character.
    Char(char),
    /// Either of the two characters.
    Either(char, char),
    /// Any white space.
    Space,
}

impl Sep {
    /// Whether `c` is a separator.
    pub open spec fn at(self, c: char) -> bool {
        match self {
            Sep::Char(a) => c == a,
            Sep::Either(a, b) => c == a || c == b,
            Sep::Space => space(c),
        }
    }

    /// Whether `c` is a separator.
    pub fn is_at(&self, c: char) -> (r: bool)
        ensures
            r == self.at(c),
    {
        match *self {
            Sep::Char(a) => c == a,
            Sep::Either(a, b) => c == a || c == b,
            Sep::Space => is_space(c),
        }
    }
}

/// The pieces of `s[start..]` between separators, when `s[start..i]` holds none.
pub open spec fn pieces_from(s: Seq<char>, sep: Sep, start: int, i: int) -> Seq<Seq<char>>
    decreases s.len() - i,
{
    if i >= s.len() {
        seq![s.subrange(start, s.len() as int)]
    } else if sep.at(s[i]) {
        seq![s.subrange(start, i)] + pieces_from(s, sep, i + 1, i + 1)
    } else {
        pieces_from(s, sep, start, i + 1)
    }
}

/// The pieces of the text between separators: one more than there are separators.
pub open spec fn pieces(s: Seq<char>, sep: Sep) -> Seq<Seq<char>> {
    pieces_from(s, sep, 0, 0)
}

/// The pieces of the text between separators.
pub fn split(s: &Vec<char>, sep: Sep) -> (r: Vec<Vec<char>>)
    ensures
        views(r@) == pieces(s@, sep),
        r.len() > 0,
{
    let mut r: Vec<Vec<char>> = Vec::new();
    let mut start: usize = 0;
    let mut i: usize = 0;
    assert(views(r@) + pieces_from(s@, sep, 0, 0) =~= pieces(s@, sep));
    while i < s.len()
        invariant
            start <= i <= s.len(),
            views(r@) + pieces_from(s@, sep, start as int, i as int) == pieces(s@, sep),
        decreases s.len() - i,
    {
        if sep.is_at(s[i]) {
            let piece = slice(s, start, i);
            let ghost before = r@;
            r.push(piece);
            proof {
                views_push(before, piece);
                assert(views(r@) + pieces_from(s@, sep, i + 1, i + 1) =~= views(before) + (seq![
                    s@.subrange(start as int, i as int),
                ] + pieces_from(s@, sep, i + 1, i + 1)));
            }
            start = i + 1;
        }
        i += 1;
    }
    let piece = slice(s, start, s.len());
    let ghost before = r@;
    r.push(piece);
    proof {
        views_push(before, piece);
        assert(views(r@) =~= views(before) + seq![s@.subrange(start as int, s.len() as int)]);
    }
    r
}

/// The pieces, trimmed, without those that are then empty.
pub open spec fn filled(parts: Seq<Seq<char>>) -> Seq<Seq<char>>
    decreases parts.len(),
{
    if parts.len() == 0 {
        seq![]
    } else {
        let rest = filled(parts.drop_last());
        let last = trimmed(parts.last());
        if last.len() == 0 {
            rest
        } else {
            rest.push(last)
        }
    }
}

/// The pieces of a list that is written with separators: trimmed, and none empty.
pub fn split_list(s: &str, sep: Sep) -> (r: Vec<String>)
    ensures
        views(r@) == filled(pieces(s@, sep)),
{
    let parts = split(&to_chars(s), sep);
    let ghost all = views(parts@);
    let mut r: Vec<String> = Vec::new();
    let mut i: usize = 0;
    assert(views(r@) =~= filled(all.take(0)));
    while i < parts.len()
        invariant
            i <= parts.len(),
            all == views(parts@),
            views(r@) == filled(all.take(i as int)),
        decreases parts.len() - i,
    {
        let t = trim_chars(&parts[i]);
        proof {
            assert(all.take(i + 1).drop_last() =~= all.take(i as int));
        }
        if t.len() > 0 {
            let piece = to_text(&t);
            proof {
                views_push(r@, piece);
            }
            r.push(piece);
        }
        i += 1;
    }
    assert(all.take(parts.len() as int) =~= all);
    r
}

/// The parts in order, with `sep` between each two.
pub open spec fn joined(parts: Seq<Seq<char>>, sep: Seq<char>) -> Seq<char>
    decreases parts.len(),
{
    if parts.len() == 0 {
        seq![]
    } else if parts.len() == 1 {
        parts[0]
    } else {
        joined(parts.drop_last(), sep) + sep + parts.last()
    }
}

/// The strings in order, with `sep` between each two.
pub fn join(parts: &Vec<String>, sep: &str) -> (r: String)
    ensures
        r@ == joined(views(parts@), sep@),
{
    let ghost all = views(parts@);
    let mut r = String::new();
    let mut i: usize = 0;
    while i < parts.len()
        invariant
            i <= parts.len(),
            all == views(parts@),
            r@ == joined(all.take(i as int), sep@),
        decreases parts.len() - i,
    {
        if i > 0 {
            r.append(sep);
        }
        r.append(parts[i].as_str());
        proof {
            let next = all.take(i + 1);
            assert(next.drop_last() =~= all.take(i as int));
            assert(next.last() == parts[i as int]@);
            if i == 0 {
                assert(r@ =~= joined(next, sep@));
            }
        }
        i += 1;
    }
    assert(all.take(parts.len() as int) =~= all);
    r
}

/// Some parts that are joined are the first of them, the separator, and the others joined.
pub proof fn joined_first(first: Seq<char>, rest: Seq<Seq<char>>, sep: Seq<char>)
    requires
        rest.len() > 0,
    ensures
        joined(seq![first] + rest, sep) == first + sep + joined(rest, sep),
    decreases rest.len(),
{
    let all = seq![first] + rest;
    assert(all.drop_last() =~= seq![first] + rest.drop_last());
    assert(all.last() == rest.last());
    if rest.len() == 1 {
        assert(all.drop_last() =~= seq![first]);
        assert(joined(all.drop_last(), sep) == first);
        assert(rest[0] == rest.last());
    } else {
        joined_first(first, rest.drop_last(), sep);
        let m = joined(rest.drop_last(), sep);
        assert((first + sep + m) + sep + rest.last() =~= first + sep + (m + sep + rest.last()));
    }
}

/// The index of the first `c` at or after `i`, or the length of the text.
pub open spec fn find_char(s: Seq<char>, c: char, i: int) -> int
    decreases s.len() - i,
{
    if i < 0 || i >= s.len() {
        s.len() as int
    } else if s[i] == c {
        i
    } else {
        find_char(s, c, i + 1)
    }
}

proof fn lemma_find_char(s: Seq<char>, c: char, i: int)
    requires
        0 <= i <= s.len(),
    ensures
        i <= find_char(s, c, i) <= s.len(),
        forall|j: int| i <= j < find_char(s, c, i) ==> s[j] != c,
        find_char(s, c, i) < s.len() ==> s[find_char(s, c, i)] == c,
    decreases s.len() - i,
{
    if i < s.len() && s[i] != c {
        lemma_find_char(s, c, i + 1);
    }
}

/// The index of the first `c` at or after `from`, or the length of the text.
pub fn index_of(s: &Vec<char>, c: char, from: usize) -> (r: usize)
    requires
        from <= s.len(),
    ensures
        r == find_char(s@, c, from as int),
        from <= r <= s.len(),
        r < s.len() ==> s[r as int] == c,
{
    let mut i: usize = from;
    while i < s.len() && s[i] != c
        invariant
            from <= i <= s.len(),
            find_char(s@, c, from as int) == find_char(s@, c, i as int),
        decreases s.len() - i,
    {
        i += 1;
    }
    i
}

/// Whether `pat` stands in the text at `i`.
pub open spec fn occurs(s: Seq<char>, pat: Seq<char>, i: int) -> bool {
    &&& 0 <= i
    &&& i + pat.len() <= s.len()
    &&& s.subrange(i, i + pat.len()) == pat
}

/// The index of the first `pat` at or after `i`.
pub open spec fn find_from(s: Seq<char>, pat: Seq<char>, i: int) -> Option<int>
    decreases s.len() + 1 - i,
{
    if i + pat.len() > s.len() {
        None
    } else if occurs(s, pat, i) {
        Some(i)
    } else {
        find_from(s, pat, i + 1)
    }
}

/// Whether `pat` stands in the text at `i`.
pub fn occurs_at(s: &Vec<char>, pat: &Vec<char>, i: usize) -> (r: bool)
    requires
        i <= s.len(),
    ensures
        r == occurs(s@, pat@, i as int),
{
    if pat.len() > s.len() - i {
        return false;
    }
    let mut j: usize = 0;
    while j < pat.len()
        invariant
            i + pat.len() <= s.len(),
            j <= pat.len(),
            forall|k: int| 0 <= k < j ==> s[i + k] == pat[k],
        decreases pat.len() - j,
    {
        if s[i + j] != pat[j] {
            assert(s@.subrange(i as int, i + pat.len())[j as int] != pat@[j as int]);
            return false;
        }
        j += 1;
    }
    assert(s@.subrange(i as int, i + pat.len()) =~= pat@);
    true
}

/// The index of the first `pat` at or after `from`.
pub fn search(s: &Vec<char>, pat: &Vec<char>, from: usize) -> (r: Option<usize>)
    requires
        from <= s.len(),
    ensures
        match r {
            Some(i) => find_from(s@, pat@, from as int) == Some(i as int) && from <= i && i
                + pat.len() <= s.len() && occurs(s@, pat@, i as int),
            None => find_from(s@, pat@, from as int) is None,
        },
{
    let mut i: usize = from;
    while pat.len() <= s.len() - i
        invariant
            from <= i <= s.len(),
            find_from(s@, pat@, from as int) == find_from(s@, pat@, i as int),
        decreases s.len() - i,
    {
        if occurs_at(s, pat, i) {
            return Some(i);
        }
        proof {
            if i == s.len() {
                assert(s@.subrange(i as int, i + pat.len()) =~= pat@);
            }
        }
        i += 1;
    }
    None
}

/// Whether `pat` stands anywhere in the text.
pub open spec fn holds(s: Seq<char>, pat: Seq<char>) -> bool {
    find_from(s, pat, 0) is Some
}

/// Whether `pat` stands anywhere in the text.
pub fn contains(s: &str, pat: &str) -> (r: bool)
    ensures
        r == holds(s@, pat@),
{
    match search(&to_chars(s), &to_chars(pat), 0) {
        Some(_) => true,
        None => false,
    }
}

/// Whether the text begins with `pat`.
pub fn starts_with(s: &str, pat: &str) -> (r: bool)
    ensures
        r == occurs(s@, pat@, 0),
{
    occurs_at(&to_chars(s), &to_chars(pat), 0)
}

/// Whether the character stands in the text.
pub fn has_char(s: &str, c: char) -> (r: bool)
    ensures
        r == s@.contains(c),
{
    let v = to_chars(s);
    let i = index_of(&v, c, 0);
    proof {
        lemma_find_char(v@, c, 0);
    }
    i < v.len()
}

/// `s[i..]` with each `from` replaced by `to`, from the left.
pub open spec fn replace_from(s: Seq<char>, from: Seq<char>, to: Seq<char>, i: int) -> Seq<char>
    decreases s.len() - i,
{
    if i < 0 || i >= s.len() || from.len() == 0 {
        seq![]
    } else if occurs(s, from, i) {
        to + replace_from(s, from, to, i + from.len())
    } else {
        seq![s[i]] + replace_from(s, from, to, i + 1)
    }
}

/// The text with each `from` replaced by `to`, from the left.
pub open spec fn replaced(s: Seq<char>, from: Seq<char>, to: Seq<char>) -> Seq<char> {
    replace_from(s, from, to, 0)
}

/// The text with each `from` replaced by `to`, from the left.
pub fn replace(s: &Vec<char>, from: &str, to: &str) -> (r: Vec<char>)
    requires
        from@.len() > 0,
    ensures
        r@ == replaced(s@, from@, to@),
{
    let pat = to_chars(from);
    let mut r: Vec<char> = Vec::new();
    let mut i: usize = 0;
    assert(r@ + replace_from(s@, from@, to@, 0) =~= replaced(s@, from@, to@));
    while i < s.len()
        invariant
            i <= s.len(),
            pat@ == from@,
            pat.len() > 0,
            r@ + replace_from(s@, from@, to@, i as int) == replaced(s@, from@, to@),
        decreases s.len() - i,
    {
        let ghost before = r@;
        if occurs_at(s, &pat, i) {
            add_text(&mut r, to);
            proof {
                let rest = replace_from(s@, from@, to@, i + from@.len());
                assert(before + (to@ + rest) =~= r@ + rest);
            }
            i += pat.len();
        } else {
            r.push(s[i]);
            proof {
                let rest = replace_from(s@, from@, to@, i + 1);
                assert(before + (seq![s@[i as int]] + rest) =~= r@ + rest);
            }
            i += 1;
        }
    }
    assert(r@ + Seq::<char>::empty() =~= r@);
    r
}

/// Where the text goes on after every `pat` that stands at its start, one behind the other.
pub open spec fn skip_all(s: Seq<char>, pat: Seq<char>, i: int) -> int
    decreases s.len() - i,
{
    if pat.len() > 0 && occurs(s, pat, i) {
        skip_all(s, pat, i + pat.len())
    } else {
        i
    }
}

/// The text without any `pat` at its start.
pub fn trim_start_matches(s: &str, pat: &str) -> (r: String)
    requires
        pat@.len() > 0,
    ensures
        0 <= skip_all(s@, pat@, 0) <= s@.len(),
        r@ == s@.skip(skip_all(s@, pat@, 0)),
{
    let v = to_chars(s);
    let p = to_chars(pat);
    let mut i: usize = 0;
    while occurs_at(&v, &p, i)
        invariant
            v@ == s@,
            p@ == pat@,
            p.len() > 0,
            i <= v.len(),
            skip_all(s@, pat@, 0) == skip_all(s@, pat@, i as int),
        decreases v.len() - i,
    {
        i += p.len();
    }
    to_text(&slice(&v, i, v.len()))
}

/// The ASCII lower-case letter of an ASCII upper-case one; any other character itself.
pub open spec fn ascii_lower(c: char) -> char {
    if 'A' <= c <= 'Z' {
        ((c as u32 + 32) as u8) as char
    } else {
        c
    }
}

/// The text with its ASCII letters in lower case.
pub open spec fn ascii_lowered(s: Seq<char>) -> Seq<char> {
    s.map_values(|c: char| ascii_lower(c))
}

/// The ASCII lower-case letter of an ASCII upper-case one; any other character itself.
pub fn to_ascii_lower(c: char) -> (r: char)
    ensures
        r == ascii_lower(c),
{
    if c >= 'A' && c <= 'Z' {
        ((c as u32 + 32) as u8) as char
    } else {
        c
    }
}

/// Whether the texts are equal up to the case of ASCII letters.
pub fn same_ignore_case(a: &str, b: &str) -> (r: bool)
    ensures
        r == (ascii_lowered(a@) == ascii_lowered(b@)),
{
    let x = to_chars(a);
    let y = to_chars(b);
    assert(ascii_lowered(a@).len() == a@.len());
    assert(ascii_lowered(b@).len() == b@.len());
    if x.len() != y.len() {
        return false;
    }
    let mut i: usize = 0;
    while i < x.len()
        invariant
            x@ == a@,
            y@ == b@,
            x.len() == y.len(),
            i <= x.len(),
            forall|j: int| 0 <= j < i ==> ascii_lower(a@[j]) == ascii_lower(b@[j]),
        decreases x.len() - i,
    {
        if to_ascii_lower(x[i]) != to_ascii_lower(y[i]) {
            assert(ascii_lowered(a@)[i as int] != ascii_lowered(b@)[i as int]);
            return false;
        }
        i += 1;
    }
    assert(ascii_lowered(a@) =~= ascii_lowered(b@));
    true
}

/// The ASCII upper-case letter of an ASCII lower-case one; any other character itself.
pub open spec fn ascii_upper(c: char) -> char {
    if 'a' <= c <= 'z' {
        ((c as u32 - 32) as u8) as char
    } else {
        c
    }
}

/// The text with its ASCII letters in upper case.
pub open spec fn ascii_uppered(s: Seq<char>) -> Seq<char> {
    s.map_values(|c: char| ascii_upper(c))
}

/// What `str::to_lowercase` makes of a text.
pub uninterp spec fn lowercase(s: Seq<char>) -> Seq<char>;

/// `str::to_lowercase`: the lower-case mapping of Unicode, which on ASCII text is the ASCII one.
#[verifier::external_body]
pub(crate) fn to_lowercase(s: &str) -> (r: String)
    ensures
        r@ == lowercase(s@),
        vstd::utf8::is_ascii_chars(s@) ==> r@ == ascii_lowered(s@),
{
    s.to_lowercase()
}

/// What `str::to_uppercase` makes of a text.
pub uninterp spec fn uppercase(s: Seq<char>) -> Seq<char>;

/// `str::to_uppercase`: the upper-case mapping of Unicode, which on ASCII text is the ASCII one.
#[verifier::external_body]
pub(crate) fn to_uppercase(s: &str) -> (r: String)
    ensures
        r@ == uppercase(s@),
        vstd::utf8::is_ascii_chars(s@) ==> r@ == ascii_uppered(s@),
{
    s.to_uppercase()
}

/// What `String::from_utf8_lossy` makes of bytes.
pub uninterp spec fn utf8_lossy(b: Seq<u8>) -> Seq<char>;

/// `String::from_utf8_lossy`: the bytes read as UTF-8, with U+FFFD in place of what is not UTF-8.
/// Bytes that are valid UTF-8 are decoded as they stand, and what is put in place of one or more
/// bytes takes three.
#[verifier::external_body]
fn read_lossy(bytes: &[u8]) -> (r: String)
    ensures
        r@ == utf8_lossy(bytes@),
        vstd::utf8::valid_utf8(bytes@) ==> r@ == vstd::utf8::decode_utf8(bytes@),
        vstd::utf8::encode_utf8(r@).len() <= 3 * bytes@.len(),
{
    String::from_utf8_lossy(bytes).into_owned()
}

/// The bytes read as UTF-8, with U+FFFD in place of what is not UTF-8.
pub fn bytes_to_string(bytes: &[u8]) -> (r: String)
    ensures
        r@ == utf8_lossy(bytes@),
        vstd::utf8::valid_utf8(bytes@) ==> r@ == vstd::utf8::decode_utf8(bytes@),
        vstd::utf8::encode_utf8(r@).len() <= 3 * bytes@.len(),
{
    read_lossy(bytes)
}

/// The lines that end in a line feed, from `start` on, then what stands behind the last one.
/// A carriage return before the line feed belongs to the line's end.
pub open spec fn lines_from(s: Seq<char>, start: int) -> Seq<Seq<char>>
    decreases s.len() - start,
{
    if start < 0 || start >= s.len() {
        seq![]
    } else {
        let n = find_char(s, '\n', start);
        if n >= s.len() || n < start {
            seq![s.subrange(start, s.len() as int)]
        } else if n > start && s[n - 1] == '\r' {
            seq![s.subrange(start, n - 1)] + lines_from(s, n + 1)
        } else {
            seq![s.subrange(start, n)] + lines_from(s, n + 1)
        }
    }
}

/// The lines of the text, without their ends.
pub open spec fn lines_of(s: Seq<char>) -> Seq<Seq<char>> {
    lines_from(s, 0)
}

/// The lines of the text, without their ends.
pub fn lines(s: &Vec<char>) -> (r: Vec<Vec<char>>)
    ensures
        views(r@) == lines_of(s@),
{
    let mut r: Vec<Vec<char>> = Vec::new();
    let mut start: usize = 0;
    assert(views(r@) + lines_from(s@, 0) =~= lines_of(s@));
    while start < s.len()
        invariant
            start <= s.len(),
            views(r@) + lines_from(s@, start as int) == lines_of(s@),
        decreases s.len() - start,
    {
        let n = index_of(s, '\n', start);
        let ghost before = r@;
        let end: usize = if n < s.len() && n > start && s[n - 1] == '\r' {
            n - 1
        } else {
            n
        };
        let line = slice(s, start, end);
        r.push(line);
        proof {
            views_push(before, line);
            let rest = if n < s.len() {
                lines_from(s@, n + 1)
            } else {
                seq![]
            };
            assert(lines_from(s@, start as int) =~= seq![line@] + rest);
            assert(views(before) + (seq![line@] + rest) =~= views(r@) + rest);
        }
        start = if n < s.len() {
            n + 1
        } else {
            s.len()
        };
    }
    assert(views(r@) + Seq::<Seq<char>>::empty() =~= views(r@));
    r
}

/// `n` copies of the character.
pub open spec fn repeated(c: char, n: nat) -> Seq<char> {
    Seq::new(n, |i: int| c)
}

/// `n` copies of the character.
pub fn repeat(c: char, n: usize) -> (r: String)
    ensures
        r@ == repeated(c, n as nat),
{
    let mut r = String::new();
    let mut i: usize = 0;
    while i < n
        invariant
            i <= n,
            r@ == repeated(c, i as nat),
        decreases n - i,
    {
        push_char(&mut r, c);
        i += 1;
        assert(r@ =~= repeated(c, i as nat));
    }
    r
}

/// The text, with spaces behind it up to `n` characters.
pub open spec fn left_aligned(s: Seq<char>, n: nat) -> Seq<char> {
    if s.len() >= n {
        s
    } else {
        s + repeated(' ', (n - s.len()) as nat)
    }
}

/// The text, with spaces behind it up to `n` characters.
pub fn left_align(s: &str, n: usize) -> (r: String)
    ensures
        r@ == left_aligned(s@, n as nat),
{
    let len = to_chars(s).len();
    let mut r = s.to_owned();
    if len < n {
        r.append(repeat(' ', n - len).as_str());
    }
    r
}

/// Two texts, one behind the other.
pub fn concat(a: &str, b: &str) -> (r: String)
    ensures
        r@ == a@ + b@,
{
    let mut r = a.to_owned();
    r.append(b);
    r
}

proof fn lemma_pieces_shift(p: Seq<char>, b: Seq<char>, sep: Sep, start: int, i: int)
    requires
        0 <= start <= i <= b.len(),
    ensures
        pieces_from(p + b, sep, p.len() + start, p.len() + i) == pieces_from(b, sep, start, i),
    decreases b.len() - i,
{
    let s = p + b;
    let k = p.len() as int;
    if i >= b.len() {
        assert(s.subrange(k + start, s.len() as int) =~= b.subrange(start, b.len() as int));
    } else {
        assert(s[k + i] == b[i]);
        if sep.at(b[i]) {
            lemma_pieces_shift(p, b, sep, i + 1, i + 1);
            assert(s.subrange(k + start, k + i) =~= b.subrange(start, i));
        } else {
            lemma_pieces_shift(p, b, sep, start, i + 1);
        }
    }
}

/// Whether the text holds no separator.
pub open spec fn unparted(s: Seq<char>, sep: Sep) -> bool {
    forall|i: int| 0 <= i < s.len() ==> !sep.at(#[trigger] s[i])
}

/// Text without a separator is one piece.
pub proof fn pieces_of_one(s: Seq<char>, sep: Sep)
    requires
        unparted(s, sep),
    ensures
        pieces(s, sep) == seq![s],
{
    lemma_pieces_none(s, sep, 0);
    assert(s.subrange(0, s.len() as int) =~= s);
}

proof fn lemma_pieces_none(s: Seq<char>, sep: Sep, i: int)
    requires
        unparted(s, sep),
        0 <= i <= s.len(),
    ensures
        pieces_from(s, sep, 0, i) == seq![s.subrange(0, s.len() as int)],
    decreases s.len() - i,
{
    if i < s.len() {
        assert(!sep.at(s[i]));
        lemma_pieces_none(s, sep, i + 1);
    }
}

proof fn lemma_pieces_lead(a: Seq<char>, c: char, b: Seq<char>, sep: Sep, i: int)
    requires
        unparted(a, sep),
        sep.at(c),
        0 <= i <= a.len(),
    ensures
        pieces_from(a.push(c) + b, sep, 0, i) == seq![a] + pieces(b, sep),
    decreases a.len() - i,
{
    let s = a.push(c) + b;
    if i < a.len() {
        assert(s[i] == a[i]);
        assert(!sep.at(a[i]));
        lemma_pieces_lead(a, c, b, sep, i + 1);
    } else {
        assert(s[i] == c);
        lemma_pieces_shift(a.push(c), b, sep, 0, 0);
        assert(s.subrange(0, i) =~= a);
    }
}

/// The pieces of a text that begins with one and a separator are that one and those of the rest.
pub proof fn pieces_of_more(a: Seq<char>, c: char, b: Seq<char>, sep: Sep)
    requires
        unparted(a, sep),
        sep.at(c),
    ensures
        pieces(a.push(c) + b, sep) == seq![a] + pieces(b, sep),
{
    lemma_pieces_lead(a, c, b, sep, 0);
}

proof fn lemma_filled_add(a: Seq<Seq<char>>, b: Seq<Seq<char>>)
    ensures
        filled(a + b) == filled(a) + filled(b),
    decreases b.len(),
{
    if b.len() == 0 {
        assert(a + b =~= a);
        assert(filled(a) + Seq::<Seq<char>>::empty() =~= filled(a));
    } else {
        assert((a + b).drop_last() =~= a + b.drop_last());
        lemma_filled_add(a, b.drop_last());
        let last = trimmed(b.last());
        if last.len() > 0 {
            assert(filled(a) + filled(b.drop_last()).push(last) =~= (filled(a) + filled(
                b.drop_last(),
            )).push(last));
        }
    }
}

/// Whether a text can stand in a list: it is not empty, no space stands at its ends, and it holds
/// no separator.
pub open spec fn entry(s: Seq<char>, sep: Sep) -> bool {
    s.len() > 0 && trimmed(s) == s && unparted(s, sep)
}

proof fn lemma_space_before(s: Seq<char>, sep: Sep)
    requires
        entry(s, sep),
        !sep.at(' '),
    ensures
        trimmed(seq![' '] + s) == s,
        unparted(seq![' '] + s, sep),
{
    let t = seq![' '] + s;
    trimmed_ends(s);
    assert(!space(s[0]) && !space(s.last()));
    assert(t[0] == ' ');
    assert(t[1] == s[0]);
    assert(t.last() == s.last());
    assert(skip_space(t, 1) == 1);
    assert(skip_space(t, 0) == 1);
    assert(drop_space(t, 1, t.len() as int) == t.len());
    assert(t.subrange(1, t.len() as int) =~= s);
    assert forall|j: int| 0 <= j < t.len() implies !sep.at(#[trigger] t[j]) by {
        if j > 0 {
            assert(t[j] == s[j - 1]);
        }
    }
}

proof fn lemma_joined_pieces(lead: Seq<char>, list: Seq<Seq<char>>, c: char, sep: Sep)
    requires
        list.len() > 0,
        forall|k: int| 0 <= k < list.len() ==> entry(#[trigger] list[k], sep),
        lead == seq![' '] || lead == Seq::<char>::empty(),
        sep.at(c),
        !sep.at(' '),
    ensures
        filled(pieces(lead + joined(list, seq![c, ' ']), sep)) == list,
    decreases list.len(),
{
    let between = seq![c, ' '];
    let first = list[0];
    assert(entry(first, sep));
    lemma_space_before(first, sep);
    let own = lead + first;
    assert(trimmed(own) == first && unparted(own, sep)) by {
        if lead.len() == 0 {
            assert(own =~= first);
        }
    }
    assert(filled(seq![own]) =~= seq![first]) by {
        assert(seq![own].drop_last() =~= Seq::<Seq<char>>::empty());
        assert(filled(Seq::<Seq<char>>::empty()) =~= Seq::<Seq<char>>::empty());
        assert(seq![own].last() == own);
    }
    if list.len() == 1 {
        assert(lead + joined(list, between) =~= own);
        pieces_of_one(own, sep);
        assert(list =~= seq![first]);
    } else {
        let rest = list.drop_first();
        assert(list =~= seq![first] + rest);
        joined_first(first, rest, between);
        let tail = seq![' '] + joined(rest, between);
        assert(lead + joined(list, between) =~= own.push(c) + tail);
        pieces_of_more(own, c, tail, sep);
        assert forall|k: int| 0 <= k < rest.len() implies entry(#[trigger] rest[k], sep) by {
            assert(rest[k] == list[k + 1]);
        }
        lemma_joined_pieces(seq![' '], rest, c, sep);
        lemma_filled_add(seq![own], pieces(tail, sep));
    }
}

/// A list that is written with a separator and a space between each two is read back, in its
/// order and with nothing lost.
pub proof fn list_reads_back(list: Seq<Seq<char>>, c: char, sep: Sep)
    requires
        forall|k: int| 0 <= k < list.len() ==> entry(#[trigger] list[k], sep),
        sep.at(c),
        !sep.at(' '),
    ensures
        filled(pieces(joined(list, seq![c, ' ']), sep)) == list,
{
    let whole = joined(list, seq![c, ' ']);
    if list.len() == 0 {
        assert(whole =~= seq![]);
        pieces_of_one(whole, sep);
        assert(trimmed(whole) =~= seq![]) by {
            trimmed_ends(whole);
        }
        let one = seq![whole];
        assert(one.drop_last() =~= Seq::<Seq<char>>::empty());
        assert(one.last() == whole);
        assert(filled(Seq::<Seq<char>>::empty()) =~= Seq::<Seq<char>>::empty());
        assert(filled(one) =~= list);
    } else {
        lemma_joined_pieces(Seq::<char>::empty(), list, c, sep);
        assert(Seq::<char>::empty() + whole =~= whole);
    }
}

/// Texts that hold no separator are read back where they are written with one between each two.
pub proof fn joined_parts(list: Seq<Seq<char>>, c: char, sep: Sep)
    requires
        list.len() > 0,
        forall|k: int| 0 <= k < list.len() ==> unparted(#[trigger] list[k], sep),
        sep.at(c),
    ensures
        pieces(joined(list, seq![c]), sep) == list,
    decreases list.len(),
{
    let first = list[0];
    assert(unparted(first, sep));
    if list.len() == 1 {
        pieces_of_one(first, sep);
        assert(list =~= seq![first]);
    } else {
        let rest = list.drop_first();
        assert(list =~= seq![first] + rest);
        joined_first(first, rest, seq![c]);
        assert(joined(list, seq![c]) =~= first.push(c) + joined(rest, seq![c]));
        pieces_of_more(first, c, joined(rest, seq![c]), sep);
        assert forall|k: int| 0 <= k < rest.len() implies unparted(#[trigger] rest[k], sep) by {
            assert(rest[k] == list[k + 1]);
        }
        joined_parts(rest, c, sep);
    }
}

} // verus!
