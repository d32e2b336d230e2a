//! What stands for other characters in the text of a message: the named entities, the numeric ones,
//! and line breaks.

use vstd::prelude::*;

use crate::mail_view;
use crate::number;
use crate::number::NumberError;
use crate::text;

verus! {

broadcast use vstd::string::group_string_axioms;

/// Whether the text holds none of the characters that entities and line breaks are made with.
pub open spec fn calm(s: Seq<char>) -> bool {
    !s.contains('&') && !s.contains('<') && !s.contains('>') && !s.contains(';')
}

proof fn lemma_kept(s: Seq<char>, from: Seq<char>, to: Seq<char>, i: int)
    requires
        0 <= i <= s.len(),
        from.len() > 0,
        forall|k: int| i <= k ==> !#[trigger] text::occurs(s, from, k),
    ensures
        text::replace_from(s, from, to, i) == s.skip(i),
    decreases s.len() - i,
{
    if i < s.len() {
        assert(!text::occurs(s, from, i));
        lemma_kept(s, from, to, i + 1);
        assert(s.skip(i) =~= seq![s[i]] + s.skip(i + 1));
    } else {
        assert(s.skip(i) =~= seq![]);
    }
}

proof fn lemma_replaced(s: Seq<char>, from: Seq<char>, to: Seq<char>, i: int, k: int)
    requires
        0 <= i <= k,
        from.len() > 0,
        text::occurs(s, from, k),
        forall|j: int| i <= j && j != k ==> !#[trigger] text::occurs(s, from, j),
    ensures
        text::replace_from(s, from, to, i) == s.subrange(i, k) + to + s.skip(k + from.len()),
    decreases k - i,
{
    if i < k {
        assert(!text::occurs(s, from, i));
        lemma_replaced(s, from, to, i + 1, k);
        assert(s.subrange(i, k) =~= seq![s[i]] + s.subrange(i + 1, k));
        assert(seq![s[i]] + (s.subrange(i + 1, k) + to + s.skip(k + from.len())) =~= s.subrange(i, k)
            + to + s.skip(k + from.len()));
    } else {
        lemma_kept(s, from, to, k + from.len());
        assert(s.subrange(i, k) =~= seq![]);
        assert(s.subrange(i, k) + to + s.skip(k + from.len()) =~= to + s.skip(k + from.len()));
    }
}

proof fn lemma_other(a: Seq<char>, e: Seq<char>, b: Seq<char>, from: Seq<char>, t: int)
    requires
        !a.contains(from[0]),
        !b.contains(from[0]),
        forall|j: int| 1 <= j < e.len() ==> e[j] != from[0],
        0 <= t < from.len(),
        t < e.len(),
        from[t] != e[t],
    ensures
        forall|k: int| !#[trigger] text::occurs(a + e + b, from, k),
{
    let s = a + e + b;
    assert forall|k: int| !#[trigger] text::occurs(s, from, k) by {
        if text::occurs(s, from, k) {
            let part = s.subrange(k, k + from.len());
            assert(part[0] == s[k]);
            lemma_place(a, e, b, from[0], k);
            assert(k == a.len());
            assert(part[t] == s[k + t]);
            assert(s[k + t] == e[t]);
        }
    }
}

proof fn lemma_place(a: Seq<char>, e: Seq<char>, b: Seq<char>, c: char, k: int)
    requires
        !a.contains(c),
        !b.contains(c),
        forall|j: int| 1 <= j < e.len() ==> e[j] != c,
        0 <= k < (a + e + b).len(),
        (a + e + b)[k] == c,
    ensures
        k == a.len(),
{
    let s = a + e + b;
    if k < a.len() {
        assert(a.contains(a[k]));
    } else if k >= a.len() + e.len() {
        assert(b.contains(b[k - a.len() - e.len()]));
    }
}

proof fn lemma_missing(s: Seq<char>, from: Seq<char>, t: int)
    requires
        0 <= t < from.len(),
        !s.contains(from[t]),
    ensures
        forall|k: int| !#[trigger] text::occurs(s, from, k),
{
    assert forall|k: int| !#[trigger] text::occurs(s, from, k) by {
        if text::occurs(s, from, k) {
            assert(s.subrange(k, k + from.len())[t] == s[k + t]);
            assert(s.contains(s[k + t]));
        }
    }
}

proof fn lemma_itself(a: Seq<char>, e: Seq<char>, b: Seq<char>, to: Seq<char>)
    requires
        e.len() > 0,
        !a.contains(e[0]),
        !b.contains(e[0]),
        forall|j: int| 1 <= j < e.len() ==> #[trigger] e[j] != e[0],
    ensures
        text::replaced(a + e + b, e, to) == a + to + b,
{
    let s = a + e + b;
    let n = a.len() as int;
    assert(s.subrange(n, n + e.len()) =~= e);
    assert forall|j: int| 0 <= j && j != n implies !#[trigger] text::occurs(s, e, j) by {
        if text::occurs(s, e, j) {
            assert(s.subrange(j, j + e.len())[0] == s[j]);
            lemma_place(a, e, b, e[0], j);
        }
    }
    lemma_replaced(s, e, to, 0, n);
    assert(s.subrange(0, n) =~= a);
    assert(s.skip(n + e.len()) =~= b);
}

proof fn lemma_unreplaced(s: Seq<char>, from: Seq<char>, to: Seq<char>)
    requires
        from.len() > 0,
        forall|k: int| !#[trigger] text::occurs(s, from, k),
    ensures
        text::replaced(s, from, to) == s,
{
    lemma_kept(s, from, to, 0);
    assert(s.skip(0) =~= s);
}

proof fn lemma_no_numbers(s: Seq<char>, i: int)
    requires
        0 <= i <= s.len(),
        forall|j: int| i <= j < s.len() ==> s[j] != ';',
    ensures
        mail_view::numeric_from(s, i) == s.skip(i),
    decreases s.len() - i,
{
    if i < s.len() {
        lemma_no_numbers(s, i + 1);
        lemma_no_end(s, i + 2);
        lemma_no_end(s, i + 3);
        assert(s.skip(i) =~= seq![s[i]] + s.skip(i + 1));
    } else {
        assert(s.skip(i) =~= seq![]);
    }
}

proof fn lemma_no_end(s: Seq<char>, i: int)
    requires
        0 <= i,
        forall|j: int| i <= j < s.len() ==> s[j] != ';',
    ensures
        text::find_char(s, ';', i) == s.len(),
    decreases s.len() - i,
{
    if i < s.len() {
        lemma_no_end(s, i + 1);
    }
}

proof fn lemma_letters()
    ensures
        "&amp;"@ == seq!['&', 'a', 'm', 'p', ';'],
        "&lt;"@ == seq!['&', 'l', 't', ';'],
        "&gt;"@ == seq!['&', 'g', 't', ';'],
        "&quot;"@ == seq!['&', 'q', 'u', 'o', 't', ';'],
        "&apos;"@ == seq!['&', 'a', 'p', 'o', 's', ';'],
        "&#39;"@ == seq!['&', '#', '3', '9', ';'],
        "&#x27;"@ == seq!['&', '#', 'x', '2', '7', ';'],
        "&nbsp;"@ == seq!['&', 'n', 'b', 's', 'p', ';'],
        "<br>"@ == seq!['<', 'b', 'r', '>'],
        "<br/>"@ == seq!['<', 'b', 'r', '/', '>'],
        "<br />"@ == seq!['<', 'b', 'r', ' ', '/', '>'],
        "&"@ == seq!['&'],
        "<"@ == seq!['<'],
        ">"@ == seq!['>'],
        "\""@ == seq!['"'],
        "'"@ == seq!['\''],
        "\u{00a0}"@ == seq!['\u{a0}'],
        "\n"@ == seq!['\n'],
{
    reveal_strlit("&amp;");
    reveal_strlit("&lt;");
    reveal_strlit("&gt;");
    reveal_strlit("&quot;");
    reveal_strlit("&apos;");
    reveal_strlit("&#39;");
    reveal_strlit("&#x27;");
    reveal_strlit("&nbsp;");
    reveal_strlit("<br>");
    reveal_strlit("<br/>");
    reveal_strlit("<br />");
    reveal_strlit("&");
    reveal_strlit("<");
    reveal_strlit(">");
    reveal_strlit("\"");
    reveal_strlit("'");
    reveal_strlit("\u{00a0}");
    reveal_strlit("\n");
    assert("&amp;"@ =~= seq!['&', 'a', 'm', 'p', ';']);
    assert("&lt;"@ =~= seq!['&', 'l', 't', ';']);
    assert("&gt;"@ =~= seq!['&', 'g', 't', ';']);
    assert("&quot;"@ =~= seq!['&', 'q', 'u', 'o', 't', ';']);
    assert("&apos;"@ =~= seq!['&', 'a', 'p', 'o', 's', ';']);
    assert("&#39;"@ =~= seq!['&', '#', '3', '9', ';']);
    assert("&#x27;"@ =~= seq!['&', '#', 'x', '2', '7', ';']);
    assert("&nbsp;"@ =~= seq!['&', 'n', 'b', 's', 'p', ';']);
    assert("<br>"@ =~= seq!['<', 'b', 'r', '>']);
    assert("<br/>"@ =~= seq!['<', 'b', 'r', '/', '>']);
    assert("<br />"@ =~= seq!['<', 'b', 'r', ' ', '/', '>']);
    assert("&"@ =~= seq!['&']);
    assert("<"@ =~= seq!['<']);
    assert(">"@ =~= seq!['>']);
    assert("\""@ =~= seq!['"']);
    assert("'"@ =~= seq!['\'']);
    assert("\u{00a0}"@ =~= seq!['\u{a0}']);
    assert("\n"@ =~= seq!['\n']);
}

#[verifier::spinoff_prover]
proof fn lemma_ampersand(a: Seq<char>, b: Seq<char>)
    requires
        calm(a),
        calm(b),
    ensures
        mail_view::entities_decoded(a + "&amp;"@ + b) == a + "&"@ + b,
{
    lemma_letters();
    let s = a + "&amp;"@ + b;
    let r = a + "&"@ + b;
    assert forall|j: int| 0 <= j < s.len() && j != a.len() implies s[j] != '&' && s[j] != '<' by {
        if j < a.len() {
            assert(a.contains(a[j]));
        } else if j >= a.len() + "&amp;"@.len() {
            assert(b.contains(b[j - a.len() - "&amp;"@.len()]));
        }
    }
    assert forall|j: int| 0 <= j < r.len() && j != a.len() implies calm(seq![#[trigger] r[j]]) by {
        if j < a.len() {
            assert(a.contains(a[j]));
            assert(r[j] == a[j]);
        } else {
            assert(b.contains(b[j - a.len() - 1]));
            assert(r[j] == b[j - a.len() - 1]);
        }
        let c = r[j];
        assert(c != '&' && c != '<' && c != '>' && c != ';');
        assert(seq![c][0] == c);
    }
    assert(r[a.len() as int] == "&"@[0]);
    assert forall|j: int| 0 <= j < r.len() implies r[j] != ';' by {
        if j != a.len() {
            assert(calm(seq![r[j]]));
            assert(seq![r[j]].contains(r[j])) by {
                assert(seq![r[j]][0] == r[j]);
            }
        }
    }
    assert(!r.contains(';'));
    lemma_holds_once(r, a.len() as int, "&"@[0]);
    lemma_first_missing(s, a.len() as int);
    lemma_itself(a, "&amp;"@, b, "&"@);
    lemma_missing(r, "&lt;"@, 3);
    lemma_unreplaced(r, "&lt;"@, "<"@);
    lemma_missing(r, "&gt;"@, 3);
    lemma_unreplaced(r, "&gt;"@, ">"@);
    lemma_missing(r, "&quot;"@, 5);
    lemma_unreplaced(r, "&quot;"@, "\""@);
    lemma_missing(r, "&apos;"@, 5);
    lemma_unreplaced(r, "&apos;"@, "'"@);
    lemma_missing(r, "&#39;"@, 4);
    lemma_unreplaced(r, "&#39;"@, "'"@);
    lemma_missing(r, "&#x27;"@, 5);
    lemma_unreplaced(r, "&#x27;"@, "'"@);
    lemma_missing(r, "&nbsp;"@, 5);
    lemma_unreplaced(r, "&nbsp;"@, "\u{00a0}"@);
    lemma_missing(r, "<br>"@, 0);
    lemma_unreplaced(r, "<br>"@, "\n"@);
    lemma_missing(r, "<br/>"@, 0);
    lemma_unreplaced(r, "<br/>"@, "\n"@);
    lemma_missing(r, "<br />"@, 0);
    lemma_unreplaced(r, "<br />"@, "\n"@);
    lemma_no_numbers(r, 0);
    assert(r.skip(0) =~= r);
}

#[verifier::spinoff_prover]
proof fn lemma_less(a: Seq<char>, b: Seq<char>)
    requires
        calm(a),
        calm(b),
    ensures
        mail_view::entities_decoded(a + "&lt;"@ + b) == a + "<"@ + b,
{
    lemma_letters();
    let s = a + "&lt;"@ + b;
    let r = a + "<"@ + b;
    assert forall|j: int| 0 <= j < s.len() && j != a.len() implies s[j] != '&' && s[j] != '<' by {
        if j < a.len() {
            assert(a.contains(a[j]));
        } else if j >= a.len() + "&lt;"@.len() {
            assert(b.contains(b[j - a.len() - "&lt;"@.len()]));
        }
    }
    assert forall|j: int| 0 <= j < r.len() && j != a.len() implies calm(seq![#[trigger] r[j]]) by {
        if j < a.len() {
            assert(a.contains(a[j]));
            assert(r[j] == a[j]);
        } else {
            assert(b.contains(b[j - a.len() - 1]));
            assert(r[j] == b[j - a.len() - 1]);
        }
        let c = r[j];
        assert(c != '&' && c != '<' && c != '>' && c != ';');
        assert(seq![c][0] == c);
    }
    assert(r[a.len() as int] == "<"@[0]);
    assert forall|j: int| 0 <= j < r.len() implies r[j] != ';' by {
        if j != a.len() {
            assert(calm(seq![r[j]]));
            assert(seq![r[j]].contains(r[j])) by {
                assert(seq![r[j]][0] == r[j]);
            }
        }
    }
    assert(!r.contains(';'));
    lemma_holds_once(r, a.len() as int, "<"@[0]);
    lemma_first_missing(s, a.len() as int);
    lemma_other(a, "&lt;"@, b, "&amp;"@, 1);
    lemma_unreplaced(s, "&amp;"@, "&"@);
    lemma_itself(a, "&lt;"@, b, "<"@);
    lemma_missing(r, "&gt;"@, 3);
    lemma_unreplaced(r, "&gt;"@, ">"@);
    lemma_missing(r, "&quot;"@, 5);
    lemma_unreplaced(r, "&quot;"@, "\""@);
    lemma_missing(r, "&apos;"@, 5);
    lemma_unreplaced(r, "&apos;"@, "'"@);
    lemma_missing(r, "&#39;"@, 4);
    lemma_unreplaced(r, "&#39;"@, "'"@);
    lemma_missing(r, "&#x27;"@, 5);
    lemma_unreplaced(r, "&#x27;"@, "'"@);
    lemma_missing(r, "&nbsp;"@, 5);
    lemma_unreplaced(r, "&nbsp;"@, "\u{00a0}"@);
    lemma_missing(r, "<br>"@, 3);
    lemma_unreplaced(r, "<br>"@, "\n"@);
    lemma_missing(r, "<br/>"@, 4);
    lemma_unreplaced(r, "<br/>"@, "\n"@);
    lemma_missing(r, "<br />"@, 5);
    lemma_unreplaced(r, "<br />"@, "\n"@);
    lemma_no_numbers(r, 0);
    assert(r.skip(0) =~= r);
}

#[verifier::spinoff_prover]
proof fn lemma_greater(a: Seq<char>, b: Seq<char>)
    requires
        calm(a),
        calm(b),
    ensures
        mail_view::entities_decoded(a + "&gt;"@ + b) == a + ">"@ + b,
{
    lemma_letters();
    let s = a + "&gt;"@ + b;
    let r = a + ">"@ + b;
    assert forall|j: int| 0 <= j < s.len() && j != a.len() implies s[j] != '&' && s[j] != '<' by {
        if j < a.len() {
            assert(a.contains(a[j]));
        } else if j >= a.len() + "&gt;"@.len() {
            assert(b.contains(b[j - a.len() - "&gt;"@.len()]));
        }
    }
    assert forall|j: int| 0 <= j < r.len() && j != a.len() implies calm(seq![#[trigger] r[j]]) by {
        if j < a.len() {
            assert(a.contains(a[j]));
            assert(r[j] == a[j]);
        } else {
            assert(b.contains(b[j - a.len() - 1]));
            assert(r[j] == b[j - a.len() - 1]);
        }
        let c = r[j];
        assert(c != '&' && c != '<' && c != '>' && c != ';');
        assert(seq![c][0] == c);
    }
    assert(r[a.len() as int] == ">"@[0]);
    assert forall|j: int| 0 <= j < r.len() implies r[j] != ';' by {
        if j != a.len() {
            assert(calm(seq![r[j]]));
            assert(seq![r[j]].contains(r[j])) by {
                assert(seq![r[j]][0] == r[j]);
            }
        }
    }
    assert(!r.contains(';'));
    lemma_holds_once(r, a.len() as int, ">"@[0]);
    lemma_first_missing(s, a.len() as int);
    lemma_other(a, "&gt;"@, b, "&amp;"@, 1);
    lemma_unreplaced(s, "&amp;"@, "&"@);
    lemma_other(a, "&gt;"@, b, "&lt;"@, 1);
    lemma_unreplaced(s, "&lt;"@, "<"@);
    lemma_itself(a, "&gt;"@, b, ">"@);
    lemma_missing(r, "&quot;"@, 5);
    lemma_unreplaced(r, "&quot;"@, "\""@);
    lemma_missing(r, "&apos;"@, 5);
    lemma_unreplaced(r, "&apos;"@, "'"@);
    lemma_missing(r, "&#39;"@, 4);
    lemma_unreplaced(r, "&#39;"@, "'"@);
    lemma_missing(r, "&#x27;"@, 5);
    lemma_unreplaced(r, "&#x27;"@, "'"@);
    lemma_missing(r, "&nbsp;"@, 5);
    lemma_unreplaced(r, "&nbsp;"@, "\u{00a0}"@);
    lemma_missing(r, "<br>"@, 0);
    lemma_unreplaced(r, "<br>"@, "\n"@);
    lemma_missing(r, "<br/>"@, 0);
    lemma_unreplaced(r, "<br/>"@, "\n"@);
    lemma_missing(r, "<br />"@, 0);
    lemma_unreplaced(r, "<br />"@, "\n"@);
    lemma_no_numbers(r, 0);
    assert(r.skip(0) =~= r);
}

#[verifier::spinoff_prover]
proof fn lemma_quote(a: Seq<char>, b: Seq<char>)
    requires
        calm(a),
        calm(b),
    ensures
        mail_view::entities_decoded(a + "&quot;"@ + b) == a + "\""@ + b,
{
    lemma_letters();
    let s = a + "&quot;"@ + b;
    let r = a + "\""@ + b;
    assert forall|j: int| 0 <= j < s.len() && j != a.len() implies s[j] != '&' && s[j] != '<' by {
        if j < a.len() {
            assert(a.contains(a[j]));
        } else if j >= a.len() + "&quot;"@.len() {
            assert(b.contains(b[j - a.len() - "&quot;"@.len()]));
        }
    }
    assert forall|j: int| 0 <= j < r.len() && j != a.len() implies calm(seq![#[trigger] r[j]]) by {
        if j < a.len() {
            assert(a.contains(a[j]));
            assert(r[j] == a[j]);
        } else {
            assert(b.contains(b[j - a.len() - 1]));
            assert(r[j] == b[j - a.len() - 1]);
        }
        let c = r[j];
        assert(c != '&' && c != '<' && c != '>' && c != ';');
        assert(seq![c][0] == c);
    }
    assert(r[a.len() as int] == "\""@[0]);
    assert forall|j: int| 0 <= j < r.len() implies r[j] != ';' by {
        if j != a.len() {
            assert(calm(seq![r[j]]));
            assert(seq![r[j]].contains(r[j])) by {
                assert(seq![r[j]][0] == r[j]);
            }
        }
    }
    assert(!r.contains(';'));
    lemma_holds_once(r, a.len() as int, "\""@[0]);
    lemma_first_missing(s, a.len() as int);
    lemma_other(a, "&quot;"@, b, "&amp;"@, 1);
    lemma_unreplaced(s, "&amp;"@, "&"@);
    lemma_other(a, "&quot;"@, b, "&lt;"@, 1);
    lemma_unreplaced(s, "&lt;"@, "<"@);
    lemma_other(a, "&quot;"@, b, "&gt;"@, 1);
    lemma_unreplaced(s, "&gt;"@, ">"@);
    lemma_itself(a, "&quot;"@, b, "\""@);
    lemma_missing(r, "&apos;"@, 5);
    lemma_unreplaced(r, "&apos;"@, "'"@);
    lemma_missing(r, "&#39;"@, 4);
    lemma_unreplaced(r, "&#39;"@, "'"@);
    lemma_missing(r, "&#x27;"@, 5);
    lemma_unreplaced(r, "&#x27;"@, "'"@);
    lemma_missing(r, "&nbsp;"@, 5);
    lemma_unreplaced(r, "&nbsp;"@, "\u{00a0}"@);
    lemma_missing(r, "<br>"@, 0);
    lemma_unreplaced(r, "<br>"@, "\n"@);
    lemma_missing(r, "<br/>"@, 0);
    lemma_unreplaced(r, "<br/>"@, "\n"@);
    lemma_missing(r, "<br />"@, 0);
    lemma_unreplaced(r, "<br />"@, "\n"@);
    lemma_no_numbers(r, 0);
    assert(r.skip(0) =~= r);
}

#[verifier::spinoff_prover]
proof fn lemma_apostrophe(a: Seq<char>, b: Seq<char>)
    requires
        calm(a),
        calm(b),
    ensures
        mail_view::entities_decoded(a + "&apos;"@ + b) == a + "'"@ + b,
{
    lemma_letters();
    let s = a + "&apos;"@ + b;
    let r = a + "'"@ + b;
    assert forall|j: int| 0 <= j < s.len() && j != a.len() implies s[j] != '&' && s[j] != '<' by {
        if j < a.len() {
            assert(a.contains(a[j]));
        } else if j >= a.len() + "&apos;"@.len() {
            assert(b.contains(b[j - a.len() - "&apos;"@.len()]));
        }
    }
    assert forall|j: int| 0 <= j < r.len() && j != a.len() implies calm(seq![#[trigger] r[j]]) by {
        if j < a.len() {
            assert(a.contains(a[j]));
            assert(r[j] == a[j]);
        } else {
            assert(b.contains(b[j - a.len() - 1]));
            assert(r[j] == b[j - a.len() - 1]);
        }
        let c = r[j];
        assert(c != '&' && c != '<' && c != '>' && c != ';');
        assert(seq![c][0] == c);
    }
    assert(r[a.len() as int] == "'"@[0]);
    assert forall|j: int| 0 <= j < r.len() implies r[j] != ';' by {
        if j != a.len() {
            assert(calm(seq![r[j]]));
            assert(seq![r[j]].contains(r[j])) by {
                assert(seq![r[j]][0] == r[j]);
            }
        }
    }
    assert(!r.contains(';'));
    lemma_holds_once(r, a.len() as int, "'"@[0]);
    lemma_first_missing(s, a.len() as int);
    lemma_other(a, "&apos;"@, b, "&amp;"@, 2);
    lemma_unreplaced(s, "&amp;"@, "&"@);
    lemma_other(a, "&apos;"@, b, "&lt;"@, 1);
    lemma_unreplaced(s, "&lt;"@, "<"@);
    lemma_other(a, "&apos;"@, b, "&gt;"@, 1);
    lemma_unreplaced(s, "&gt;"@, ">"@);
    lemma_other(a, "&apos;"@, b, "&quot;"@, 1);
    lemma_unreplaced(s, "&quot;"@, "\""@);
    lemma_itself(a, "&apos;"@, b, "'"@);
    lemma_missing(r, "&#39;"@, 4);
    lemma_unreplaced(r, "&#39;"@, "'"@);
    lemma_missing(r, "&#x27;"@, 5);
    lemma_unreplaced(r, "&#x27;"@, "'"@);
    lemma_missing(r, "&nbsp;"@, 5);
    lemma_unreplaced(r, "&nbsp;"@, "\u{00a0}"@);
    lemma_missing(r, "<br>"@, 0);
    lemma_unreplaced(r, "<br>"@, "\n"@);
    lemma_missing(r, "<br/>"@, 0);
    lemma_unreplaced(r, "<br/>"@, "\n"@);
    lemma_missing(r, "<br />"@, 0);
    lemma_unreplaced(r, "<br />"@, "\n"@);
    lemma_no_numbers(r, 0);
    assert(r.skip(0) =~= r);
}

#[verifier::spinoff_prover]
proof fn lemma_numbered_apostrophe(a: Seq<char>, b: Seq<char>)
    requires
        calm(a),
        calm(b),
    ensures
        mail_view::entities_decoded(a + "&#39;"@ + b) == a + "'"@ + b,
{
    lemma_letters();
    let s = a + "&#39;"@ + b;
    let r = a + "'"@ + b;
    assert forall|j: int| 0 <= j < s.len() && j != a.len() implies s[j] != '&' && s[j] != '<' by {
        if j < a.len() {
            assert(a.contains(a[j]));
        } else if j >= a.len() + "&#39;"@.len() {
            assert(b.contains(b[j - a.len() - "&#39;"@.len()]));
        }
    }
    assert forall|j: int| 0 <= j < r.len() && j != a.len() implies calm(seq![#[trigger] r[j]]) by {
        if j < a.len() {
            assert(a.contains(a[j]));
            assert(r[j] == a[j]);
        } else {
            assert(b.contains(b[j - a.len() - 1]));
            assert(r[j] == b[j - a.len() - 1]);
        }
        let c = r[j];
        assert(c != '&' && c != '<' && c != '>' && c != ';');
        assert(seq![c][0] == c);
    }
    assert(r[a.len() as int] == "'"@[0]);
    assert forall|j: int| 0 <= j < r.len() implies r[j] != ';' by {
        if j != a.len() {
            assert(calm(seq![r[j]]));
            assert(seq![r[j]].contains(r[j])) by {
                assert(seq![r[j]][0] == r[j]);
            }
        }
    }
    assert(!r.contains(';'));
    lemma_holds_once(r, a.len() as int, "'"@[0]);
    lemma_first_missing(s, a.len() as int);
    lemma_other(a, "&#39;"@, b, "&amp;"@, 1);
    lemma_unreplaced(s, "&amp;"@, "&"@);
    lemma_other(a, "&#39;"@, b, "&lt;"@, 1);
    lemma_unreplaced(s, "&lt;"@, "<"@);
    lemma_other(a, "&#39;"@, b, "&gt;"@, 1);
    lemma_unreplaced(s, "&gt;"@, ">"@);
    lemma_other(a, "&#39;"@, b, "&quot;"@, 1);
    lemma_unreplaced(s, "&quot;"@, "\""@);
    lemma_other(a, "&#39;"@, b, "&apos;"@, 1);
    lemma_unreplaced(s, "&apos;"@, "'"@);
    lemma_itself(a, "&#39;"@, b, "'"@);
    lemma_missing(r, "&#x27;"@, 5);
    lemma_unreplaced(r, "&#x27;"@, "'"@);
    lemma_missing(r, "&nbsp;"@, 5);
    lemma_unreplaced(r, "&nbsp;"@, "\u{00a0}"@);
    lemma_missing(r, "<br>"@, 0);
    lemma_unreplaced(r, "<br>"@, "\n"@);
    lemma_missing(r, "<br/>"@, 0);
    lemma_unreplaced(r, "<br/>"@, "\n"@);
    lemma_missing(r, "<br />"@, 0);
    lemma_unreplaced(r, "<br />"@, "\n"@);
    lemma_no_numbers(r, 0);
    assert(r.skip(0) =~= r);
}

#[verifier::spinoff_prover]
proof fn lemma_hexadecimal_apostrophe(a: Seq<char>, b: Seq<char>)
    requires
        calm(a),
        calm(b),
    ensures
        mail_view::entities_decoded(a + "&#x27;"@ + b) == a + "'"@ + b,
{
    lemma_letters();
    let s = a + "&#x27;"@ + b;
    let r = a + "'"@ + b;
    assert forall|j: int| 0 <= j < s.len() && j != a.len() implies s[j] != '&' && s[j] != '<' by {
        if j < a.len() {
            assert(a.contains(a[j]));
        } else if j >= a.len() + "&#x27;"@.len() {
            assert(b.contains(b[j - a.len() - "&#x27;"@.len()]));
        }
    }
    assert forall|j: int| 0 <= j < r.len() && j != a.len() implies calm(seq![#[trigger] r[j]]) by {
        if j < a.len() {
            assert(a.contains(a[j]));
            assert(r[j] == a[j]);
        } else {
            assert(b.contains(b[j - a.len() - 1]));
            assert(r[j] == b[j - a.len() - 1]);
        }
        let c = r[j];
        assert(c != '&' && c != '<' && c != '>' && c != ';');
        assert(seq![c][0] == c);
    }
    assert(r[a.len() as int] == "'"@[0]);
    assert forall|j: int| 0 <= j < r.len() implies r[j] != ';' by {
        if j != a.len() {
            assert(calm(seq![r[j]]));
            assert(seq![r[j]].contains(r[j])) by {
                assert(seq![r[j]][0] == r[j]);
            }
        }
    }
    assert(!r.contains(';'));
    lemma_holds_once(r, a.len() as int, "'"@[0]);
    lemma_first_missing(s, a.len() as int);
    lemma_other(a, "&#x27;"@, b, "&amp;"@, 1);
    lemma_unreplaced(s, "&amp;"@, "&"@);
    lemma_other(a, "&#x27;"@, b, "&lt;"@, 1);
    lemma_unreplaced(s, "&lt;"@, "<"@);
    lemma_other(a, "&#x27;"@, b, "&gt;"@, 1);
    lemma_unreplaced(s, "&gt;"@, ">"@);
    lemma_other(a, "&#x27;"@, b, "&quot;"@, 1);
    lemma_unreplaced(s, "&quot;"@, "\""@);
    lemma_other(a, "&#x27;"@, b, "&apos;"@, 1);
    lemma_unreplaced(s, "&apos;"@, "'"@);
    lemma_other(a, "&#x27;"@, b, "&#39;"@, 2);
    lemma_unreplaced(s, "&#39;"@, "'"@);
    lemma_itself(a, "&#x27;"@, b, "'"@);
    lemma_missing(r, "&nbsp;"@, 5);
    lemma_unreplaced(r, "&nbsp;"@, "\u{00a0}"@);
    lemma_missing(r, "<br>"@, 0);
    lemma_unreplaced(r, "<br>"@, "\n"@);
    lemma_missing(r, "<br/>"@, 0);
    lemma_unreplaced(r, "<br/>"@, "\n"@);
    lemma_missing(r, "<br />"@, 0);
    lemma_unreplaced(r, "<br />"@, "\n"@);
    lemma_no_numbers(r, 0);
    assert(r.skip(0) =~= r);
}

#[verifier::spinoff_prover]
proof fn lemma_space(a: Seq<char>, b: Seq<char>)
    requires
        calm(a),
        calm(b),
    ensures
        mail_view::entities_decoded(a + "&nbsp;"@ + b) == a + "\u{00a0}"@ + b,
{
    lemma_letters();
    let s = a + "&nbsp;"@ + b;
    let r = a + "\u{00a0}"@ + b;
    assert forall|j: int| 0 <= j < s.len() && j != a.len() implies s[j] != '&' && s[j] != '<' by {
        if j < a.len() {
            assert(a.contains(a[j]));
        } else if j >= a.len() + "&nbsp;"@.len() {
            assert(b.contains(b[j - a.len() - "&nbsp;"@.len()]));
        }
    }
    assert forall|j: int| 0 <= j < r.len() && j != a.len() implies calm(seq![#[trigger] r[j]]) by {
        if j < a.len() {
            assert(a.contains(a[j]));
            assert(r[j] == a[j]);
        } else {
            assert(b.contains(b[j - a.len() - 1]));
            assert(r[j] == b[j - a.len() - 1]);
        }
        let c = r[j];
        assert(c != '&' && c != '<' && c != '>' && c != ';');
        assert(seq![c][0] == c);
    }
    assert(r[a.len() as int] == "\u{00a0}"@[0]);
    assert forall|j: int| 0 <= j < r.len() implies r[j] != ';' by {
        if j != a.len() {
            assert(calm(seq![r[j]]));
            assert(seq![r[j]].contains(r[j])) by {
                assert(seq![r[j]][0] == r[j]);
            }
        }
    }
    assert(!r.contains(';'));
    lemma_holds_once(r, a.len() as int, "\u{00a0}"@[0]);
    lemma_first_missing(s, a.len() as int);
    lemma_other(a, "&nbsp;"@, b, "&amp;"@, 1);
    lemma_unreplaced(s, "&amp;"@, "&"@);
    lemma_other(a, "&nbsp;"@, b, "&lt;"@, 1);
    lemma_unreplaced(s, "&lt;"@, "<"@);
    lemma_other(a, "&nbsp;"@, b, "&gt;"@, 1);
    lemma_unreplaced(s, "&gt;"@, ">"@);
    lemma_other(a, "&nbsp;"@, b, "&quot;"@, 1);
    lemma_unreplaced(s, "&quot;"@, "\""@);
    lemma_other(a, "&nbsp;"@, b, "&apos;"@, 1);
    lemma_unreplaced(s, "&apos;"@, "'"@);
    lemma_other(a, "&nbsp;"@, b, "&#39;"@, 1);
    lemma_unreplaced(s, "&#39;"@, "'"@);
    lemma_other(a, "&nbsp;"@, b, "&#x27;"@, 1);
    lemma_unreplaced(s, "&#x27;"@, "'"@);
    lemma_itself(a, "&nbsp;"@, b, "\u{00a0}"@);
    lemma_missing(r, "<br>"@, 0);
    lemma_unreplaced(r, "<br>"@, "\n"@);
    lemma_missing(r, "<br/>"@, 0);
    lemma_unreplaced(r, "<br/>"@, "\n"@);
    lemma_missing(r, "<br />"@, 0);
    lemma_unreplaced(r, "<br />"@, "\n"@);
    lemma_no_numbers(r, 0);
    assert(r.skip(0) =~= r);
}

#[verifier::spinoff_prover]
proof fn lemma_line_break(a: Seq<char>, b: Seq<char>)
    requires
        calm(a),
        calm(b),
    ensures
        mail_view::entities_decoded(a + "<br>"@ + b) == a + "\n"@ + b,
{
    lemma_letters();
    let s = a + "<br>"@ + b;
    let r = a + "\n"@ + b;
    assert forall|j: int| 0 <= j < s.len() && j != a.len() implies s[j] != '&' && s[j] != '<' by {
        if j < a.len() {
            assert(a.contains(a[j]));
        } else if j >= a.len() + "<br>"@.len() {
            assert(b.contains(b[j - a.len() - "<br>"@.len()]));
        }
    }
    assert forall|j: int| 0 <= j < r.len() && j != a.len() implies calm(seq![#[trigger] r[j]]) by {
        if j < a.len() {
            assert(a.contains(a[j]));
            assert(r[j] == a[j]);
        } else {
            assert(b.contains(b[j - a.len() - 1]));
            assert(r[j] == b[j - a.len() - 1]);
        }
        let c = r[j];
        assert(c != '&' && c != '<' && c != '>' && c != ';');
        assert(seq![c][0] == c);
    }
    assert(r[a.len() as int] == "\n"@[0]);
    assert forall|j: int| 0 <= j < r.len() implies r[j] != ';' by {
        if j != a.len() {
            assert(calm(seq![r[j]]));
            assert(seq![r[j]].contains(r[j])) by {
                assert(seq![r[j]][0] == r[j]);
            }
        }
    }
    assert(!r.contains(';'));
    lemma_holds_once(r, a.len() as int, "\n"@[0]);
    lemma_first_missing(s, a.len() as int);
    lemma_missing(s, "&amp;"@, 0);
    lemma_unreplaced(s, "&amp;"@, "&"@);
    lemma_missing(s, "&lt;"@, 0);
    lemma_unreplaced(s, "&lt;"@, "<"@);
    lemma_missing(s, "&gt;"@, 0);
    lemma_unreplaced(s, "&gt;"@, ">"@);
    lemma_missing(s, "&quot;"@, 0);
    lemma_unreplaced(s, "&quot;"@, "\""@);
    lemma_missing(s, "&apos;"@, 0);
    lemma_unreplaced(s, "&apos;"@, "'"@);
    lemma_missing(s, "&#39;"@, 0);
    lemma_unreplaced(s, "&#39;"@, "'"@);
    lemma_missing(s, "&#x27;"@, 0);
    lemma_unreplaced(s, "&#x27;"@, "'"@);
    lemma_missing(s, "&nbsp;"@, 0);
    lemma_unreplaced(s, "&nbsp;"@, "\u{00a0}"@);
    lemma_itself(a, "<br>"@, b, "\n"@);
    lemma_missing(r, "<br/>"@, 0);
    lemma_unreplaced(r, "<br/>"@, "\n"@);
    lemma_missing(r, "<br />"@, 0);
    lemma_unreplaced(r, "<br />"@, "\n"@);
    lemma_no_numbers(r, 0);
    assert(r.skip(0) =~= r);
}

#[verifier::spinoff_prover]
proof fn lemma_closed_line_break(a: Seq<char>, b: Seq<char>)
    requires
        calm(a),
        calm(b),
    ensures
        mail_view::entities_decoded(a + "<br/>"@ + b) == a + "\n"@ + b,
{
    lemma_letters();
    let s = a + "<br/>"@ + b;
    let r = a + "\n"@ + b;
    assert forall|j: int| 0 <= j < s.len() && j != a.len() implies s[j] != '&' && s[j] != '<' by {
        if j < a.len() {
            assert(a.contains(a[j]));
        } else if j >= a.len() + "<br/>"@.len() {
            assert(b.contains(b[j - a.len() - "<br/>"@.len()]));
        }
    }
    assert forall|j: int| 0 <= j < r.len() && j != a.len() implies calm(seq![#[trigger] r[j]]) by {
        if j < a.len() {
            assert(a.contains(a[j]));
            assert(r[j] == a[j]);
        } else {
            assert(b.contains(b[j - a.len() - 1]));
            assert(r[j] == b[j - a.len() - 1]);
        }
        let c = r[j];
        assert(c != '&' && c != '<' && c != '>' && c != ';');
        assert(seq![c][0] == c);
    }
    assert(r[a.len() as int] == "\n"@[0]);
    assert forall|j: int| 0 <= j < r.len() implies r[j] != ';' by {
        if j != a.len() {
            assert(calm(seq![r[j]]));
            assert(seq![r[j]].contains(r[j])) by {
                assert(seq![r[j]][0] == r[j]);
            }
        }
    }
    assert(!r.contains(';'));
    lemma_holds_once(r, a.len() as int, "\n"@[0]);
    lemma_first_missing(s, a.len() as int);
    lemma_missing(s, "&amp;"@, 0);
    lemma_unreplaced(s, "&amp;"@, "&"@);
    lemma_missing(s, "&lt;"@, 0);
    lemma_unreplaced(s, "&lt;"@, "<"@);
    lemma_missing(s, "&gt;"@, 0);
    lemma_unreplaced(s, "&gt;"@, ">"@);
    lemma_missing(s, "&quot;"@, 0);
    lemma_unreplaced(s, "&quot;"@, "\""@);
    lemma_missing(s, "&apos;"@, 0);
    lemma_unreplaced(s, "&apos;"@, "'"@);
    lemma_missing(s, "&#39;"@, 0);
    lemma_unreplaced(s, "&#39;"@, "'"@);
    lemma_missing(s, "&#x27;"@, 0);
    lemma_unreplaced(s, "&#x27;"@, "'"@);
    lemma_missing(s, "&nbsp;"@, 0);
    lemma_unreplaced(s, "&nbsp;"@, "\u{00a0}"@);
    lemma_other(a, "<br/>"@, b, "<br>"@, 3);
    lemma_unreplaced(s, "<br>"@, "\n"@);
    lemma_itself(a, "<br/>"@, b, "\n"@);
    lemma_missing(r, "<br />"@, 0);
    lemma_unreplaced(r, "<br />"@, "\n"@);
    lemma_no_numbers(r, 0);
    assert(r.skip(0) =~= r);
}

#[verifier::spinoff_prover]
proof fn lemma_spaced_line_break(a: Seq<char>, b: Seq<char>)
    requires
        calm(a),
        calm(b),
    ensures
        mail_view::entities_decoded(a + "<br />"@ + b) == a + "\n"@ + b,
{
    lemma_letters();
    let s = a + "<br />"@ + b;
    let r = a + "\n"@ + b;
    assert forall|j: int| 0 <= j < s.len() && j != a.len() implies s[j] != '&' && s[j] != '<' by {
        if j < a.len() {
            assert(a.contains(a[j]));
        } else if j >= a.len() + "<br />"@.len() {
            assert(b.contains(b[j - a.len() - "<br />"@.len()]));
        }
    }
    assert forall|j: int| 0 <= j < r.len() && j != a.len() implies calm(seq![#[trigger] r[j]]) by {
        if j < a.len() {
            assert(a.contains(a[j]));
            assert(r[j] == a[j]);
        } else {
            assert(b.contains(b[j - a.len() - 1]));
            assert(r[j] == b[j - a.len() - 1]);
        }
        let c = r[j];
        assert(c != '&' && c != '<' && c != '>' && c != ';');
        assert(seq![c][0] == c);
    }
    assert(r[a.len() as int] == "\n"@[0]);
    assert forall|j: int| 0 <= j < r.len() implies r[j] != ';' by {
        if j != a.len() {
            assert(calm(seq![r[j]]));
            assert(seq![r[j]].contains(r[j])) by {
                assert(seq![r[j]][0] == r[j]);
            }
        }
    }
    assert(!r.contains(';'));
    lemma_holds_once(r, a.len() as int, "\n"@[0]);
    lemma_first_missing(s, a.len() as int);
    lemma_missing(s, "&amp;"@, 0);
    lemma_unreplaced(s, "&amp;"@, "&"@);
    lemma_missing(s, "&lt;"@, 0);
    lemma_unreplaced(s, "&lt;"@, "<"@);
    lemma_missing(s, "&gt;"@, 0);
    lemma_unreplaced(s, "&gt;"@, ">"@);
    lemma_missing(s, "&quot;"@, 0);
    lemma_unreplaced(s, "&quot;"@, "\""@);
    lemma_missing(s, "&apos;"@, 0);
    lemma_unreplaced(s, "&apos;"@, "'"@);
    lemma_missing(s, "&#39;"@, 0);
    lemma_unreplaced(s, "&#39;"@, "'"@);
    lemma_missing(s, "&#x27;"@, 0);
    lemma_unreplaced(s, "&#x27;"@, "'"@);
    lemma_missing(s, "&nbsp;"@, 0);
    lemma_unreplaced(s, "&nbsp;"@, "\u{00a0}"@);
    lemma_other(a, "<br />"@, b, "<br>"@, 3);
    lemma_unreplaced(s, "<br>"@, "\n"@);
    lemma_other(a, "<br />"@, b, "<br/>"@, 3);
    lemma_unreplaced(s, "<br/>"@, "\n"@);
    lemma_itself(a, "<br />"@, b, "\n"@);
    lemma_no_numbers(r, 0);
    assert(r.skip(0) =~= r);
}

proof fn lemma_holds_once(r: Seq<char>, n: int, c: char)
    requires
        0 <= n < r.len(),
        r[n] == c,
        forall|j: int| 0 <= j < r.len() && j != n ==> calm(seq![#[trigger] r[j]]),
    ensures
        c != '<' ==> !r.contains('<'),
        c != '>' ==> !r.contains('>'),
        c != '&' ==> !r.contains('&'),
{
    assert forall|j: int| 0 <= j < r.len() && j != n implies #[trigger] r[j] != '<' && r[j] != '>'
        && r[j] != '&' by {
        let one = seq![r[j]];
        assert(calm(one));
        assert(one[0] == r[j]);
        assert(one.contains(r[j]));
    }
}

proof fn lemma_first_missing(s: Seq<char>, n: int)
    requires
        0 <= n < s.len(),
        forall|j: int| 0 <= j < s.len() && j != n ==> s[j] != '&' && s[j] != '<',
    ensures
        s[n] != '&' ==> !s.contains('&'),
        s[n] != '<' ==> !s.contains('<'),
{
}

/// Every named entity, each of those of the apostrophe, and every line break in a text is replaced by
/// what it stands for, and the rest of the text stays as it is.
pub proof fn entities_stand_for_their_characters(a: Seq<char>, b: Seq<char>)
    requires
        calm(a),
        calm(b),
    ensures
        mail_view::entities_decoded(a + "&amp;"@ + b) == a + seq!['&'] + b,
        mail_view::entities_decoded(a + "&lt;"@ + b) == a + seq!['<'] + b,
        mail_view::entities_decoded(a + "&gt;"@ + b) == a + seq!['>'] + b,
        mail_view::entities_decoded(a + "&quot;"@ + b) == a + seq!['"'] + b,
        mail_view::entities_decoded(a + "&apos;"@ + b) == a + seq!['\''] + b,
        mail_view::entities_decoded(a + "&#39;"@ + b) == a + seq!['\''] + b,
        mail_view::entities_decoded(a + "&#x27;"@ + b) == a + seq!['\''] + b,
        mail_view::entities_decoded(a + "&nbsp;"@ + b) == a + seq!['\u{a0}'] + b,
        mail_view::entities_decoded(a + "<br>"@ + b) == a + seq!['\n'] + b,
        mail_view::entities_decoded(a + "<br/>"@ + b) == a + seq!['\n'] + b,
        mail_view::entities_decoded(a + "<br />"@ + b) == a + seq!['\n'] + b,
{
    lemma_letters();
    lemma_ampersand(a, b);
    lemma_less(a, b);
    lemma_greater(a, b);
    lemma_quote(a, b);
    lemma_apostrophe(a, b);
    lemma_numbered_apostrophe(a, b);
    lemma_hexadecimal_apostrophe(a, b);
    lemma_space(a, b);
    lemma_line_break(a, b);
    lemma_closed_line_break(a, b);
    lemma_spaced_line_break(a, b);
}

proof fn lemma_not_this(a: Seq<char>, e: Seq<char>, b: Seq<char>, from: Seq<char>)
    requires
        calm(a),
        calm(b),
        e.len() > 0,
        from.len() > 0,
        from[0] == '&',
        from.last() == ';',
        e.last() == ';',
        e != from,
        forall|j: int| 1 <= j < e.len() ==> e[j] != '&',
        forall|j: int| 0 <= j < e.len() - 1 ==> e[j] != ';',
        forall|j: int| 0 <= j < from.len() - 1 ==> from[j] != ';',
    ensures
        forall|k: int| !#[trigger] text::occurs(a + e + b, from, k),
{
    let s = a + e + b;
    assert forall|k: int| !#[trigger] text::occurs(s, from, k) by {
        if text::occurs(s, from, k) {
            let part = s.subrange(k, k + from.len());
            assert(part[0] == s[k]);
            lemma_place(a, e, b, '&', k);
            let n = a.len() as int;
            assert forall|j: int| 0 <= j < from.len() implies from[j] == s[n + j] by {
                assert(part[j] == s[n + j]);
            }
            if from.len() < e.len() {
                assert(s[n + from.len() - 1] == e[from.len() - 1]);
            } else if from.len() > e.len() {
                assert(s[n + e.len() - 1] == e[e.len() - 1]);
                assert(from[e.len() - 1] == ';');
            } else {
                assert(e =~= from);
            }
        }
    }
}

proof fn lemma_semicolon(s: Seq<char>, i: int, k: int)
    requires
        0 <= i <= k < s.len(),
        s[k] == ';',
        forall|j: int| i <= j < k ==> s[j] != ';',
    ensures
        text::find_char(s, ';', i) == k,
    decreases k - i,
{
    if i < k {
        lemma_semicolon(s, i + 1, k);
    }
}

proof fn lemma_up_to(s: Seq<char>, i: int, n: int)
    requires
        0 <= i <= n < s.len(),
        forall|j: int| i <= j < n ==> s[j] != '&',
    ensures
        mail_view::numeric_from(s, i) == s.subrange(i, n) + mail_view::numeric_from(s, n),
    decreases n - i,
{
    let rest = mail_view::numeric_from(s, n);
    if i < n {
        lemma_up_to(s, i + 1, n);
        assert(mail_view::entity_at(s, i) is None);
        assert(s.subrange(i, n) =~= seq![s[i]] + s.subrange(i + 1, n));
        assert(seq![s[i]] + (s.subrange(i + 1, n) + rest) =~= s.subrange(i, n) + rest);
    } else {
        assert(s.subrange(i, n) =~= seq![]);
        assert(s.subrange(i, n) + rest =~= rest);
    }
}

/// A numeric entity stands for the character of its number, which is decimal, or hexadecimal behind an
/// `x`. (The two notations of the apostrophe that are replaced by name are left out here.)
pub proof fn numbers_stand_for_their_characters(
    a: Seq<char>,
    digits: Seq<char>,
    b: Seq<char>,
    hex: bool,
    code: int,
)
    requires
        calm(a),
        calm(b),
        calm(digits),
        digits.len() > 0,
        !hex ==> digits[0] != 'x',
        number::number_of(
            digits,
            if hex {
                16
            } else {
                10
            },
            u32::MAX as int,
        ) == Ok::<int, NumberError>(code),
        0 <= code <= 0xD7FF || 0xE000 <= code <= 0x10FFFF,
        !hex ==> digits != seq!['3', '9'],
        hex ==> digits != seq!['2', '7'],
    ensures
        ({
            let mark = if hex {
                seq!['&', '#', 'x']
            } else {
                seq!['&', '#']
            };
            mail_view::entities_decoded(a + (mark + digits + seq![';']) + b) == a + seq![code as char]
                + b
        }),
{
    lemma_letters();
    let mark = if hex {
        seq!['&', '#', 'x']
    } else {
        seq!['&', '#']
    };
    let e = mark + digits + seq![';'];
    let s = a + e + b;
    let n = a.len() as int;
    let m = mark.len() as int;
    assert(e[0] == '&' && e[1] == '#');
    assert forall|j: int| 0 <= j < digits.len() implies digits[j] != '&' && digits[j] != ';'
        && digits[j] != '<' by {
        assert(digits.contains(digits[j]));
    }
    assert forall|j: int| 1 <= j < e.len() implies e[j] != '&' by {
        if m <= j < m + digits.len() {
            assert(e[j] == digits[j - m]);
        }
    }
    assert forall|j: int| 0 <= j < e.len() - 1 implies e[j] != ';' by {
        if j >= m {
            assert(e[j] == digits[j - m]);
        }
    }
    assert(e.last() == ';');
    assert forall|j: int| 0 <= j < s.len() implies s[j] != '<' by {
        if j < n {
            assert(a.contains(a[j]));
        } else if j < n + e.len() {
            assert(s[j] == e[j - n]);
            if m <= j - n < m + digits.len() {
                assert(e[j - n] == digits[j - n - m]);
            }
        } else {
            assert(b.contains(b[j - n - e.len()]));
        }
    }
    assert(!s.contains('<'));
    assert(e != "&#39;"@) by {
        if e == "&#39;"@ {
            if hex {
                assert(e[2] == 'x');
            } else {
                assert(digits.len() == 2);
                assert(e[2] == digits[0] && e[3] == digits[1]);
                assert(digits =~= seq!['3', '9']);
            }
        }
    }
    assert(e != "&#x27;"@) by {
        if e == "&#x27;"@ {
            if hex {
                assert(digits.len() == 2);
                assert(e[3] == digits[0] && e[4] == digits[1]);
                assert(digits =~= seq!['2', '7']);
            } else {
                assert(e[2] == digits[0]);
            }
        }
    }
    lemma_other(a, e, b, "&amp;"@, 1);
    lemma_unreplaced(s, "&amp;"@, "&"@);
    lemma_other(a, e, b, "&lt;"@, 1);
    lemma_unreplaced(s, "&lt;"@, "<"@);
    lemma_other(a, e, b, "&gt;"@, 1);
    lemma_unreplaced(s, "&gt;"@, ">"@);
    lemma_other(a, e, b, "&quot;"@, 1);
    lemma_unreplaced(s, "&quot;"@, "\""@);
    lemma_other(a, e, b, "&apos;"@, 1);
    lemma_unreplaced(s, "&apos;"@, "'"@);
    lemma_not_this(a, e, b, "&#39;"@);
    lemma_unreplaced(s, "&#39;"@, "'"@);
    lemma_not_this(a, e, b, "&#x27;"@);
    lemma_unreplaced(s, "&#x27;"@, "'"@);
    lemma_other(a, e, b, "&nbsp;"@, 1);
    lemma_unreplaced(s, "&nbsp;"@, "\u{00a0}"@);
    lemma_missing(s, "<br>"@, 0);
    lemma_unreplaced(s, "<br>"@, "\n"@);
    lemma_missing(s, "<br/>"@, 0);
    lemma_unreplaced(s, "<br/>"@, "\n"@);
    lemma_missing(s, "<br />"@, 0);
    lemma_unreplaced(s, "<br />"@, "\n"@);
    assert(mail_view::names_replaced(s) == s);
    assert forall|j: int| 0 <= j < n implies s[j] != '&' by {
        assert(a.contains(a[j]));
        assert(s[j] == a[j]);
    }
    lemma_up_to(s, 0, n);
    assert(s.subrange(0, n) =~= a);
    let end = n + m + digits.len();
    assert(s[n] == '&' && s[n + 1] == '#');
    assert(s[n + m] == digits[0]);
    assert(s[end] == ';');
    assert forall|j: int| n <= j < end implies s[j] != ';' by {
        assert(s[j] == e[j - n]);
    }
    lemma_semicolon(s, n + m, end);
    assert(s.subrange(n + m, end) =~= digits);
    if hex {
        assert(s[n + 2] == 'x');
    }
    assert(mail_view::entity_at(s, n) == Some((code as char, end + 1)));
    assert forall|j: int| end + 1 <= j < s.len() implies s[j] != ';' by {
        assert(b.contains(b[j - end - 1]));
        assert(s[j] == b[j - end - 1]);
    }
    lemma_no_numbers(s, end + 1);
    assert(s.skip(end + 1) =~= b);
    assert(a + (seq![code as char] + b) =~= a + seq![code as char] + b);
}

} // verus!
