//! The numbers of the parts of a message: an attachment that was found can be fetched by its
//! number, and no other one has it.

use vstd::prelude::*;

use crate::client;
use crate::client::{Command, First, Next};
use crate::mime;
use crate::mime::PartModel;
use crate::number;
use crate::number::NumberError;
use crate::text;
use crate::text::Sep;
use crate::types::AttachmentMeta;

verus! {

broadcast use vstd::string::group_string_axioms;

/// Places with dots between them.
pub open spec fn dotted(path: Seq<nat>) -> Seq<char> {
    text::joined(path.map_values(|n: nat| number::decimal(n)), "."@)
}

/// The notation of a part's number: the places of the part and of those that it belongs to, with
/// dots between them.
pub open spec fn part_text(path: Seq<u32>) -> Seq<char> {
    dotted(path.map_values(|n: u32| n as nat))
}

/// The number of the part that is reached from the part of this number by these places: that of
/// the subpart at the first place, of its subpart at the second, and so on.
pub open spec fn number_below(id: Seq<char>, path: Seq<nat>) -> Seq<char> {
    if path.len() == 0 {
        id
    } else if id.len() == 0 {
        dotted(path)
    } else {
        id + "."@ + dotted(path)
    }
}

proof fn lemma_decimal_unparted(n: nat)
    ensures
        text::unparted(number::decimal(n), Sep::Char('.')),
        number::decimal(n).len() > 0,
{
    number::decimal_digits(n);
}

proof fn lemma_pieces(path: Seq<nat>)
    requires
        path.len() > 0,
    ensures
        text::pieces(dotted(path), Sep::Char('.')) == path.map_values(
            |n: nat| number::decimal(n),
        ),
        dotted(path).len() > 0,
    decreases path.len(),
{
    reveal_strlit(".");
    let sep = Sep::Char('.');
    let words = path.map_values(|n: nat| number::decimal(n));
    let first = number::decimal(path[0]);
    lemma_decimal_unparted(path[0]);
    if path.len() == 1 {
        assert(dotted(path) == first);
        text::pieces_of_one(first, sep);
        assert(words =~= seq![first]);
    } else {
        let rest = path.drop_first();
        let more = rest.map_values(|n: nat| number::decimal(n));
        assert(words =~= seq![first] + more);
        text::joined_first(first, more, "."@);
        assert(dotted(path) =~= first.push('.') + dotted(rest));
        text::pieces_of_more(first, '.', dotted(rest), sep);
        lemma_pieces(rest);
    }
}

proof fn lemma_numbers(path: Seq<u32>, i: int)
    requires
        0 <= i <= path.len(),
    ensures
        client::numbers_from(path.map_values(|n: u32| number::decimal(n as nat)), i) == Ok::<
            Seq<u32>,
            NumberError,
        >(path.skip(i)),
    decreases path.len() - i,
{
    let words = path.map_values(|n: u32| number::decimal(n as nat));
    if i < path.len() {
        lemma_numbers(path, i + 1);
        number::decimal_reads_back(path[i] as nat, u32::MAX as int);
        assert(words[i] == number::decimal(path[i] as nat));
        assert(seq![path[i]] + path.skip(i + 1) =~= path.skip(i));
    } else {
        assert(path.skip(i) =~= seq![]);
    }
}

/// The number of a part is read back from its notation.
pub proof fn part_number_reads_back(path: Seq<u32>)
    requires
        path.len() > 0,
    ensures
        client::part_path(part_text(path)) == Ok::<Seq<u32>, NumberError>(path),
{
    let places = path.map_values(|n: u32| n as nat);
    lemma_pieces(places);
    assert(places.map_values(|n: nat| number::decimal(n)) =~= path.map_values(
        |n: u32| number::decimal(n as nat),
    ));
    lemma_numbers(path, 0);
    assert(path.skip(0) =~= path);
}

proof fn lemma_dotted_differ(p: Seq<nat>, q: Seq<nat>)
    requires
        p.len() > 0,
        q.len() > 0,
        dotted(p) == dotted(q),
    ensures
        p == q,
{
    let a = p.map_values(|n: nat| number::decimal(n));
    let b = q.map_values(|n: nat| number::decimal(n));
    lemma_pieces(p);
    lemma_pieces(q);
    assert(a == b);
    assert(a.len() == p.len() && b.len() == q.len());
    assert forall|i: int| 0 <= i < p.len() implies p[i] == q[i] by {
        assert(a[i] == number::decimal(p[i]));
        assert(b[i] == number::decimal(q[i]));
        number::decimal_injective(p[i], q[i]);
    }
    assert(p =~= q);
}

/// Different places below a part have different numbers.
pub proof fn numbers_below_differ(id: Seq<char>, p: Seq<nat>, q: Seq<nat>)
    requires
        number_below(id, p) == number_below(id, q),
    ensures
        p == q,
{
    reveal_strlit(".");
    if p.len() > 0 {
        lemma_pieces(p);
    }
    if q.len() > 0 {
        lemma_pieces(q);
    }
    if p.len() == 0 || q.len() == 0 {
        assert(number_below(id, p).len() == number_below(id, q).len());
        assert(p =~= q);
    } else {
        if id.len() > 0 {
            let n = id.len() as int + 1;
            assert(number_below(id, p).skip(n) =~= dotted(p));
            assert(number_below(id, q).skip(n) =~= dotted(q));
        }
        lemma_dotted_differ(p, q);
    }
}

proof fn lemma_child(id: Seq<char>, path: Seq<nat>, k: nat)
    ensures
        mime::child_number(number_below(id, path), k) == number_below(id, path.push(k + 1)),
{
    let words = path.map_values(|n: nat| number::decimal(n));
    let more = path.push(k + 1).map_values(|n: nat| number::decimal(n));
    assert(more =~= words.push(number::decimal(k + 1)));
    assert(more.drop_last() =~= words);
    if path.len() == 0 {
        assert(more =~= seq![number::decimal(k + 1)]);
        assert(dotted(path.push(k + 1)) == number::decimal(k + 1));
    } else {
        lemma_pieces(path);
        assert(dotted(path.push(k + 1)) == dotted(path) + "."@ + number::decimal(k + 1));
        if id.len() > 0 {
            assert(id + "."@ + dotted(path) + "."@ + number::decimal(k + 1) =~= id + "."@ + (dotted(
                path,
            ) + "."@ + number::decimal(k + 1)));
        }
    }
}

/// Whether `p` goes on from `path`, with places from one to `most`.
pub open spec fn goes_on(p: Seq<nat>, path: Seq<nat>, most: nat) -> bool {
    &&& path.len() <= p.len()
    &&& p.take(path.len() as int) == path
    &&& forall|i: int| path.len() <= i < p.len() ==> 1 <= #[trigger] p[i] <= most
}

/// Whether the number of the attachment is that of the part of the number `id` or of a part below
/// it, by places of which none is above `most`.
pub open spec fn at_or_below(a: AttachmentMeta<Seq<char>>, id: Seq<char>, most: nat) -> bool {
    exists|p: Seq<nat>| goes_on(p, seq![], most) && a.part_id == #[trigger] number_below(id, p)
}

spec fn belongs(a: AttachmentMeta<Seq<char>>, id: Seq<char>, path: Seq<nat>, most: nat) -> bool {
    exists|p: Seq<nat>| goes_on(p, path, most) && a.part_id == #[trigger] number_below(id, p)
}

spec fn belongs_behind(
    a: AttachmentMeta<Seq<char>>,
    id: Seq<char>,
    path: Seq<nat>,
    place: nat,
    most: nat,
) -> bool {
    exists|p: Seq<nat>|
        goes_on(p, path, most) && path.len() < p.len() && p[path.len() as int] >= place && a.part_id
            == #[trigger] number_below(id, p)
}

/// Whether no two of the attachments have the same number.
pub open spec fn all_differ(list: Seq<AttachmentMeta<Seq<char>>>) -> bool {
    forall|i: int, j: int|
        0 <= i < j < list.len() ==> (#[trigger] list[i]).part_id != (#[trigger] list[j]).part_id
}

proof fn lemma_at(parts: Seq<PartModel>, i: int, id: Seq<char>, path: Seq<nat>, most: nat)
    requires
        0 <= i,
        parts.len() <= most,
    ensures
        ({
            let all = mime::attachments_at(parts, i, number_below(id, path));
            &&& forall|j: int| 0 <= j < all.len() ==> belongs(#[trigger] all[j], id, path, most)
            &&& all_differ(all)
        }),
    decreases parts.len() - i, 0int,
{
    let all = mime::attachments_at(parts, i, number_below(id, path));
    if i < parts.len() {
        if mime::looked_through(parts[i]) {
            lemma_among(parts, i + 1, parts[i].subparts as nat, 0, id, path, most);
            assert forall|j: int| 0 <= j < all.len() implies belongs(
                #[trigger] all[j],
                id,
                path,
                most,
            ) by {
                assert(belongs_behind(all[j], id, path, 1, most));
            }
        } else {
            assert(path.take(path.len() as int) =~= path);
            assert(goes_on(path, path, most));
            assert(all[0].part_id == number_below(id, path));
        }
    }
}

proof fn lemma_among(
    parts: Seq<PartModel>,
    i: int,
    n: nat,
    k: nat,
    id: Seq<char>,
    path: Seq<nat>,
    most: nat,
)
    requires
        0 <= i <= parts.len() <= most,
        k + parts.len() - i <= most,
    ensures
        ({
            let all = mime::attachments_among(parts, i, n, k, number_below(id, path));
            &&& forall|j: int|
                0 <= j < all.len() ==> belongs_behind(#[trigger] all[j], id, path, k + 1, most)
            &&& all_differ(all)
        }),
    decreases parts.len() - i, n + 1,
{
    let own = number_below(id, path);
    let all = mime::attachments_among(parts, i, n, k, own);
    if n > 0 && i < parts.len() {
        mime::lemma_part_end(parts, i);
        let at = path.len() as int;
        let child = path.push(k + 1);
        lemma_child(id, path, k);
        lemma_at(parts, i, id, child, most);
        let end = mime::part_end(parts, i);
        lemma_among(parts, end, (n - 1) as nat, k + 1, id, path, most);
        let first = mime::attachments_at(parts, i, number_below(id, child));
        let rest = mime::attachments_among(parts, end, (n - 1) as nat, k + 1, own);
        assert(all =~= first + rest);
        assert forall|j: int, p: Seq<nat>|
            0 <= j < first.len() && goes_on(p, child, most) && first[j].part_id
                == #[trigger] number_below(id, p) implies (#[trigger] first[j]).part_id
            == number_below(id, p) && goes_on(p, path, most) && p.len() > at && p[at] == k + 1 by {
            assert(p.take(at) =~= child.take(at));
            assert(child.take(at) =~= path);
            assert(p[at] == p.take(at + 1)[at]);
        }
        assert forall|j: int| 0 <= j < all.len() implies belongs_behind(
            #[trigger] all[j],
            id,
            path,
            k + 1,
            most,
        ) by {
            if j < first.len() {
                assert(all[j] == first[j]);
                assert(belongs(first[j], id, child, most));
            } else {
                assert(all[j] == rest[j - first.len()]);
                assert(belongs_behind(rest[j - first.len()], id, path, k + 2, most));
            }
        }
        assert forall|a: int, b: int| 0 <= a < b < all.len() implies (#[trigger] all[a]).part_id
            != (#[trigger] all[b]).part_id by {
            if b < first.len() {
                assert(all[a] == first[a] && all[b] == first[b]);
            } else if a >= first.len() {
                assert(all[a] == rest[a - first.len()] && all[b] == rest[b - first.len()]);
            } else {
                let c = rest[b - first.len()];
                assert(all[a] == first[a] && all[b] == c);
                assert(belongs(first[a], id, child, most));
                let p = choose|p: Seq<nat>|
                    goes_on(p, child, most) && first[a].part_id == #[trigger] number_below(id, p);
                assert(p[at] == k + 1);
                assert(belongs_behind(c, id, path, k + 2, most));
                let q = choose|q: Seq<nat>|
                    goes_on(q, path, most) && at < q.len() && q[at] >= k + 2 && c.part_id
                        == #[trigger] number_below(id, q);
                if c.part_id == first[a].part_id {
                    numbers_below_differ(id, p, q);
                }
            }
        }
    }
}

/// No two attachments at or below a part have the same number, whatever the number of the part,
/// and the number of each is that of the part or lies below it. The number of a whole message is
/// empty.
pub proof fn attachment_numbers_differ(parts: Seq<PartModel>, i: int, id: Seq<char>)
    ensures
        all_differ(mime::attachments_at(parts, i, id)),
        forall|j: int|
            0 <= j < mime::attachments_at(parts, i, id).len() ==> at_or_below(
                #[trigger] mime::attachments_at(parts, i, id)[j],
                id,
                parts.len(),
            ),
{
    let none: Seq<nat> = seq![];
    if i >= 0 {
        lemma_at(parts, i, id, none, parts.len());
        assert forall|j: int| 0 <= j < mime::attachments_at(parts, i, id).len() implies at_or_below(
            #[trigger] mime::attachments_at(parts, i, id)[j],
            id,
            parts.len(),
        ) by {
            assert(belongs(mime::attachments_at(parts, i, id)[j], id, none, parts.len()));
        }
    }
}

/// An attachment that was found among the parts of a message can be fetched: its number leads to
/// its place. (A message that is an attachment itself has no number.)
pub proof fn found_attachment_has_place(parts: Seq<PartModel>, j: int, uid: u32)
    requires
        0 < parts.len() <= u32::MAX,
        mime::looked_through(parts[0]),
        0 <= j < mime::attachments_at(parts, 0, seq![]).len(),
    ensures
        ({
            let id = mime::attachments_at(parts, 0, seq![])[j].part_id;
            client::attachment_next(uid, id, First::Found(())) matches Next::Send(
                Command::Section(path),
            ) && part_text(path) == id
        }),
{
    let none: Seq<nat> = seq![];
    let a = mime::attachments_at(parts, 0, seq![])[j];
    lemma_among(parts, 1, parts[0].subparts as nat, 0, seq![], none, parts.len());
    assert(belongs_behind(a, seq![], none, 1, parts.len()));
    let p = choose|p: Seq<nat>|
        goes_on(p, none, parts.len()) && none.len() < p.len() && p[none.len() as int] >= 1
            && a.part_id == #[trigger] number_below(seq![], p);
    let path = p.map_values(|n: nat| n as u32);
    assert(path.map_values(|n: u32| n as nat) =~= p);
    part_number_reads_back(path);
}

} // verus!
