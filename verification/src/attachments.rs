//! What is found in a message: which of its parts are attachments, what is known of each, which
//! part is its body, and which header each of its fields comes from.

use vstd::prelude::*;

use crate::charset;
use crate::header;
use crate::mime;
use crate::mime::PartModel;
use crate::numbering;
use crate::text;
use crate::text::Sep;
use crate::types::{AttachmentMeta, MailFlag};

verus! {

broadcast use vstd::string::group_string_axioms;

/// Whether the text holds the other at some place.
pub open spec fn has_inside(s: Seq<char>, word: Seq<char>) -> bool {
    exists|k: int| #[trigger] text::occurs(s, word, k)
}

proof fn lemma_inside(s: Seq<char>, word: Seq<char>, i: int)
    requires
        0 <= i,
    ensures
        text::find_from(s, word, i) is Some <==> exists|k: int|
            i <= k && #[trigger] text::occurs(s, word, k),
    decreases s.len() + 1 - i,
{
    if i + word.len() <= s.len() && !text::occurs(s, word, i) {
        lemma_inside(s, word, i + 1);
    }
}

/// Whether the header fields have a `Content-Disposition` that speaks of an attachment. The case
/// of neither matters.
pub open spec fn says_attachment(headers: Seq<(Seq<char>, Seq<char>)>) -> bool {
    exists|j: int|
        0 <= j < headers.len() && text::ascii_lowered((#[trigger] headers[j]).0)
            == "content-disposition"@ && has_inside(text::lowercase(headers[j].1), "attachment"@)
}

/// Whether the type of the part begins like this, in upper or lower case.
pub open spec fn is_kind(part: PartModel, kind: Seq<char>) -> bool {
    text::occurs(text::lowercase(part.mimetype), kind, 0)
}

/// Whether the part is text that is shown with the message.
pub open spec fn inline_text(part: PartModel) -> bool {
    (is_kind(part, "text/plain"@) || is_kind(part, "text/html"@)) && !says_attachment(part.headers)
}

/// Whether the part is a file: neither a container nor text that is shown with the message.
pub open spec fn is_file(part: PartModel) -> bool {
    !is_kind(part, "multipart/"@) && !inline_text(part)
}

proof fn lemma_marked(headers: Seq<(Seq<char>, Seq<char>)>, i: int)
    requires
        0 <= i <= headers.len(),
    ensures
        mime::marked_from(headers, i) <==> exists|j: int|
            i <= j < headers.len() && text::ascii_lowered((#[trigger] headers[j]).0)
                == "content-disposition"@ && has_inside(
                text::lowercase(headers[j].1),
                "attachment"@,
            ),
    decreases headers.len() - i,
{
    lemma_names();
    if i < headers.len() {
        lemma_marked(headers, i + 1);
        lemma_inside(text::lowercase(headers[i].1), "attachment"@, 0);
        assert(has_inside(text::lowercase(headers[i].1), "attachment"@) <==> text::holds(
            text::lowercase(headers[i].1),
            "attachment"@,
        ));
    }
}

proof fn lemma_file(part: PartModel)
    ensures
        mime::looked_through(part) <==> !is_file(part),
{
    lemma_marked(part.headers, 0);
    assert(mime::marked_from(part.headers, 0) <==> says_attachment(part.headers));
}

/// A part that says that it is an attachment is one, even if it is text, unless it is a container:
/// it is listed alone, with its own number and its own type.
pub proof fn marked_part_is_an_attachment(parts: Seq<PartModel>, i: int, id: Seq<char>)
    requires
        0 <= i < parts.len(),
        says_attachment(parts[i].headers),
        !is_kind(parts[i], "multipart/"@),
    ensures
        mime::attachments_at(parts, i, id).len() == 1,
        mime::attachments_at(parts, i, id)[0].part_id == id,
        mime::attachments_at(parts, i, id)[0].mime_type == parts[i].mimetype,
{
    lemma_file(parts[i]);
}

/// A part that is neither text nor a container is an attachment, whatever its headers say.
pub proof fn other_part_is_an_attachment(parts: Seq<PartModel>, i: int, id: Seq<char>)
    requires
        0 <= i < parts.len(),
        !is_kind(parts[i], "multipart/"@),
        !is_kind(parts[i], "text/plain"@),
        !is_kind(parts[i], "text/html"@),
    ensures
        mime::attachments_at(parts, i, id).len() == 1,
        mime::attachments_at(parts, i, id)[0].part_id == id,
        mime::attachments_at(parts, i, id)[0].mime_type == parts[i].mimetype,
{
    lemma_file(parts[i]);
}

proof fn lemma_nothing_listed(parts: Seq<PartModel>, i: int, n: nat, k: nat, id: Seq<char>, end: int)
    requires
        0 <= i,
        mime::parts_end(parts, i, n) <= end,
        forall|j: int| 0 <= i <= j < end && j < parts.len() ==> !is_file(#[trigger] parts[j]),
    ensures
        mime::attachments_among(parts, i, n, k, id).len() == 0,
    decreases parts.len() - i, n + 1, 1int,
{
    if n > 0 && i < parts.len() {
        mime::lemma_part_end(parts, i);
        let next = mime::part_end(parts, i);
        lemma_ends_grow(parts, next, (n - 1) as nat);
        lemma_file(parts[i]);
        assert(!is_file(parts[i]));
        lemma_nothing_listed(parts, i + 1, parts[i].subparts as nat, 0, mime::child_number(id, k), end);
        lemma_nothing_listed(parts, next, (n - 1) as nat, k + 1, id, end);
        let own = mime::child_number(id, k);
        assert(mime::attachments_at(parts, i, own) == mime::attachments_among(
            parts,
            i + 1,
            parts[i].subparts as nat,
            0,
            own,
        ));
        assert(mime::attachments_among(parts, i, n, k, id) == mime::attachments_at(parts, i, own)
            + mime::attachments_among(parts, next, (n - 1) as nat, k + 1, id));
    }
}

proof fn lemma_ends_grow(parts: Seq<PartModel>, i: int, n: nat)
    requires
        0 <= i <= parts.len(),
    ensures
        i <= mime::parts_end(parts, i, n) <= parts.len(),
    decreases parts.len() - i, n,
{
    if n > 0 && i < parts.len() {
        mime::lemma_part_end(parts, i);
        lemma_ends_grow(parts, mime::part_end(parts, i), (n - 1) as nat);
    }
}

/// Nothing else is an attachment: where a part and all that belongs to it are containers and text
/// that is shown, there is none.
pub proof fn shown_text_is_no_attachment(parts: Seq<PartModel>, i: int, id: Seq<char>)
    requires
        0 <= i < parts.len(),
        forall|j: int| i <= j < mime::part_end(parts, i) ==> !is_file(#[trigger] parts[j]),
    ensures
        mime::attachments_at(parts, i, id).len() == 0,
{
    mime::lemma_part_end(parts, i);
    lemma_file(parts[i]);
    assert(!is_file(parts[i]));
    lemma_nothing_listed(
        parts,
        i + 1,
        parts[i].subparts as nat,
        0,
        id,
        mime::part_end(parts, i),
    );
}

/// Where the part stands that is reached from the part at `i` by these places, through containers:
/// the subpart at the first place, of it the subpart at the second, and so on.
pub open spec fn reached(parts: Seq<PartModel>, i: int, path: Seq<nat>) -> Option<int>
    decreases path.len(),
{
    if !(0 <= i < parts.len()) {
        None
    } else if path.len() == 0 {
        Some(i)
    } else if is_kind(parts[i], "multipart/"@) && 1 <= path[0] <= parts[i].subparts {
        reached(parts, mime::parts_end(parts, i + 1, (path[0] - 1) as nat), path.drop_first())
    } else {
        None
    }
}

proof fn lemma_child_listed(
    parts: Seq<PartModel>,
    i: int,
    n: nat,
    k: nat,
    id: Seq<char>,
    d: nat,
    a: AttachmentMeta<Seq<char>>,
)
    requires
        0 <= i,
        d < n,
        mime::parts_end(parts, i, d) < parts.len(),
        mime::attachments_at(
            parts,
            mime::parts_end(parts, i, d),
            mime::child_number(id, k + d),
        ).contains(a),
    ensures
        mime::attachments_among(parts, i, n, k, id).contains(a),
    decreases d,
{
    assert(i < parts.len());
    mime::lemma_part_end(parts, i);
    let next = mime::part_end(parts, i);
    let first = mime::attachments_at(parts, i, mime::child_number(id, k));
    let rest = mime::attachments_among(parts, next, (n - 1) as nat, k + 1, id);
    let all = mime::attachments_among(parts, i, n, k, id);
    assert(all =~= first + rest);
    if d == 0 {
        let j = choose|j: int| 0 <= j < first.len() && first[j] == a;
        assert(all[j] == a);
    } else {
        lemma_child_listed(parts, next, (n - 1) as nat, k + 1, id, (d - 1) as nat, a);
        let j = choose|j: int| 0 <= j < rest.len() && rest[j] == a;
        assert(all[first.len() + j] == a);
    }
}

proof fn lemma_number_step(id: Seq<char>, place: nat, rest: Seq<nat>)
    requires
        place >= 1,
    ensures
        numbering::number_below(mime::child_number(id, (place - 1) as nat), rest)
            == numbering::number_below(id, seq![place] + rest),
{
    let path = seq![place] + rest;
    let words = path.map_values(|n: nat| crate::number::decimal(n));
    let more = rest.map_values(|n: nat| crate::number::decimal(n));
    let own = crate::number::decimal(place);
    crate::number::decimal_digits(place);
    reveal_strlit(".");
    assert(words =~= seq![own] + more);
    if rest.len() == 0 {
        assert(words =~= seq![own]);
        assert(numbering::dotted(path) == own);
    } else {
        text::joined_first(own, more, "."@);
        assert(numbering::dotted(path) == own + "."@ + numbering::dotted(rest));
        if id.len() > 0 {
            assert(id + "."@ + own + "."@ + numbering::dotted(rest) =~= id + "."@ + (own + "."@
                + numbering::dotted(rest)));
        }
    }
}

/// Every file in a message is an attachment: one that is reached through containers is listed, by
/// its type and by the number of its place.
pub proof fn every_file_is_listed(parts: Seq<PartModel>, i: int, id: Seq<char>, path: Seq<nat>)
    requires
        reached(parts, i, path) matches Some(j) && is_file(parts[j]),
    ensures
        exists|a: AttachmentMeta<Seq<char>>| #[trigger]
            mime::attachments_at(parts, i, id).contains(a) && a.part_id == numbering::number_below(
                id,
                path,
            ) && a.mime_type == parts[reached(parts, i, path)->Some_0].mimetype,
    decreases path.len(),
{
    let all = mime::attachments_at(parts, i, id);
    if path.len() == 0 {
        lemma_file(parts[i]);
        assert(all[0].part_id == id);
        assert(all.contains(all[0]));
    } else {
        let place = path[0];
        let rest = path.drop_first();
        let child = mime::parts_end(parts, i + 1, (place - 1) as nat);
        let own = mime::child_number(id, (place - 1) as nat);
        every_file_is_listed(parts, child, own, rest);
        let a = choose|a: AttachmentMeta<Seq<char>>| #[trigger]
            mime::attachments_at(parts, child, own).contains(a) && a.part_id
                == numbering::number_below(own, rest) && a.mime_type == parts[reached(
                parts,
                child,
                rest,
            )->Some_0].mimetype;
        lemma_file(parts[i]);
        lemma_child_listed(
            parts,
            i + 1,
            parts[i].subparts as nat,
            0,
            id,
            (place - 1) as nat,
            a,
        );
        lemma_number_step(id, place, rest);
        assert(seq![place] + rest =~= path);
        assert(all.contains(a));
    }
}

/// Whether the field at `j` is the first of this name, which is given in lower case.
pub open spec fn first_named(
    fields: Seq<(Seq<char>, Seq<char>)>,
    name: Seq<char>,
    j: int,
) -> bool {
    &&& 0 <= j < fields.len()
    &&& text::ascii_lowered(fields[j].0) == name
    &&& forall|k: int| 0 <= k < j ==> text::ascii_lowered((#[trigger] fields[k]).0) != name
}

/// Whether no field has this name, which is given in lower case.
pub open spec fn not_named(fields: Seq<(Seq<char>, Seq<char>)>, name: Seq<char>) -> bool {
    forall|k: int| 0 <= k < fields.len() ==> text::ascii_lowered((#[trigger] fields[k]).0) != name
}

proof fn lemma_first(fields: Seq<(Seq<char>, Seq<char>)>, name: Seq<char>, i: int, j: int)
    requires
        first_named(fields, text::ascii_lowered(name), j),
        0 <= i <= j,
    ensures
        mime::value_from(fields, name, i) == Some(fields[j].1),
    decreases j - i,
{
    if i < j {
        lemma_first(fields, name, i + 1, j);
    }
}

proof fn lemma_none(fields: Seq<(Seq<char>, Seq<char>)>, name: Seq<char>, i: int)
    requires
        not_named(fields, text::ascii_lowered(name)),
        0 <= i,
    ensures
        mime::value_from(fields, name, i) is None,
    decreases fields.len() - i,
{
    if i < fields.len() {
        lemma_none(fields, name, i + 1);
    }
}

/// The value of a field is looked up by its name, whatever the case of either, and the first field
/// of the name counts.
pub proof fn field_is_found_by_name(fields: Seq<(Seq<char>, Seq<char>)>, name: Seq<char>, j: int)
    ensures
        first_named(fields, text::ascii_lowered(name), j) ==> mime::value_of(fields, name) == Some(
            fields[j].1,
        ),
        not_named(fields, text::ascii_lowered(name)) ==> mime::value_of(fields, name) is None,
{
    if first_named(fields, text::ascii_lowered(name), j) {
        lemma_first(fields, name, 0, j);
    }
    if not_named(fields, text::ascii_lowered(name)) {
        lemma_none(fields, name, 0);
    }
}

proof fn lemma_names()
    ensures
        text::ascii_lowered("Content-Disposition"@) == "content-disposition"@,
        text::ascii_lowered("Content-Type"@) == "content-type"@,
        text::ascii_lowered("Content-ID"@) == "content-id"@,
        text::ascii_lowered("Content-Transfer-Encoding"@) == "content-transfer-encoding"@,
        text::ascii_lowered("Message-ID"@) == "message-id"@,
        text::ascii_lowered("From"@) == "from"@,
        text::ascii_lowered("To"@) == "to"@,
        text::ascii_lowered("Cc"@) == "cc"@,
        text::ascii_lowered("Bcc"@) == "bcc"@,
        text::ascii_lowered("Reply-To"@) == "reply-to"@,
        text::ascii_lowered("Date"@) == "date"@,
        text::ascii_lowered("Subject"@) == "subject"@,
        text::ascii_lowered("In-Reply-To"@) == "in-reply-to"@,
        text::ascii_lowered("References"@) == "references"@,
        text::ascii_lowered("charset"@) == "charset"@,
{
    reveal_strlit("Content-Disposition");
    reveal_strlit("content-disposition");
    reveal_strlit("Content-Type");
    reveal_strlit("content-type");
    reveal_strlit("Content-ID");
    reveal_strlit("content-id");
    reveal_strlit("Content-Transfer-Encoding");
    reveal_strlit("content-transfer-encoding");
    reveal_strlit("Message-ID");
    reveal_strlit("message-id");
    reveal_strlit("From");
    reveal_strlit("from");
    reveal_strlit("To");
    reveal_strlit("to");
    reveal_strlit("Cc");
    reveal_strlit("cc");
    reveal_strlit("Bcc");
    reveal_strlit("bcc");
    reveal_strlit("Reply-To");
    reveal_strlit("reply-to");
    reveal_strlit("Date");
    reveal_strlit("date");
    reveal_strlit("Subject");
    reveal_strlit("subject");
    reveal_strlit("In-Reply-To");
    reveal_strlit("in-reply-to");
    reveal_strlit("References");
    reveal_strlit("references");
    reveal_strlit("charset");
    assert(text::ascii_lowered("Content-Disposition"@) =~= "content-disposition"@);
    assert(text::ascii_lowered("Content-Type"@) =~= "content-type"@);
    assert(text::ascii_lowered("Content-ID"@) =~= "content-id"@);
    assert(text::ascii_lowered("Content-Transfer-Encoding"@) =~= "content-transfer-encoding"@);
    assert(text::ascii_lowered("Message-ID"@) =~= "message-id"@);
    assert(text::ascii_lowered("From"@) =~= "from"@);
    assert(text::ascii_lowered("To"@) =~= "to"@);
    assert(text::ascii_lowered("Cc"@) =~= "cc"@);
    assert(text::ascii_lowered("Bcc"@) =~= "bcc"@);
    assert(text::ascii_lowered("Reply-To"@) =~= "reply-to"@);
    assert(text::ascii_lowered("Date"@) =~= "date"@);
    assert(text::ascii_lowered("Subject"@) =~= "subject"@);
    assert(text::ascii_lowered("In-Reply-To"@) =~= "in-reply-to"@);
    assert(text::ascii_lowered("References"@) =~= "references"@);
    assert(text::ascii_lowered("charset"@) =~= "charset"@);
}

/// Of an attachment its type, its size, its identifier and its transfer encoding are known from its
/// own part: from the headers `Content-ID` and `Content-Transfer-Encoding`, or not at all.
pub proof fn attachment_is_described(parts: Seq<PartModel>, i: int, id: Seq<char>, j: int)
    requires
        0 <= i < parts.len(),
        is_file(parts[i]),
    ensures
        ({
            let part = parts[i];
            let a = mime::attachments_at(parts, i, id)[0];
            &&& mime::attachments_at(parts, i, id).len() == 1
            &&& a.part_id == id
            &&& a.mime_type == part.mimetype
            &&& part.body_size matches Some(n) ==> a.size == n
            &&& part.body_size is None ==> a.size == 0
            &&& first_named(part.headers, "content-id"@, j) ==> a.content_id == Some(
                part.headers[j].1,
            )
            &&& not_named(part.headers, "content-id"@) ==> a.content_id is None
            &&& first_named(part.headers, "content-transfer-encoding"@, j) ==> a.transfer_encoding
                == Some(part.headers[j].1)
            &&& not_named(part.headers, "content-transfer-encoding"@) ==> a.transfer_encoding is None
        }),
{
    lemma_file(parts[i]);
    lemma_names();
    field_is_found_by_name(parts[i].headers, "Content-ID"@, j);
    field_is_found_by_name(parts[i].headers, "Content-Transfer-Encoding"@, j);
}

/// Whether the parameter at `j` is the first of exactly this name.
pub open spec fn first_exact(pairs: Seq<(Seq<char>, Seq<char>)>, name: Seq<char>, j: int) -> bool {
    &&& 0 <= j < pairs.len()
    &&& pairs[j].0 == name
    &&& forall|k: int| 0 <= k < j ==> (#[trigger] pairs[k]).0 != name
}

/// Whether no parameter has exactly this name.
pub open spec fn no_exact(pairs: Seq<(Seq<char>, Seq<char>)>, name: Seq<char>) -> bool {
    forall|k: int| 0 <= k < pairs.len() ==> (#[trigger] pairs[k]).0 != name
}

proof fn lemma_exact(pairs: Seq<(Seq<char>, Seq<char>)>, name: Seq<char>, i: int, j: int)
    requires
        0 <= i,
    ensures
        first_exact(pairs, name, j) && i <= j ==> mime::exact_from(pairs, name, i) == Some(
            pairs[j].1,
        ),
        no_exact(pairs, name) ==> mime::exact_from(pairs, name, i) is None,
    decreases pairs.len() - i,
{
    if i < pairs.len() {
        lemma_exact(pairs, name, i + 1, j);
    }
}

/// Whether the file name is this one, with an extension added where it has no dot.
pub open spec fn is_name(filename: Seq<char>, name: Seq<char>, mimetype: Seq<char>) -> bool {
    &&& name.contains('.') ==> filename == name
    &&& !name.contains('.') ==> filename == name + "."@ + mime::extension(text::lowercase(mimetype))
}

/// The name of an attachment is the one that its `Content-Disposition` gives as `filename`; where
/// that gives none, the one that its `Content-Type` gives as `name`; and else it is made of its
/// number.
pub proof fn attachment_is_named(
    parts: Seq<PartModel>,
    i: int,
    id: Seq<char>,
    d: int,
    t: int,
    p: int,
)
    requires
        0 <= i < parts.len(),
        is_file(parts[i]),
    ensures
        ({
            let headers = parts[i].headers;
            let a = mime::attachments_at(parts, i, id)[0];
            let by_disposition = first_named(headers, "content-disposition"@, d);
            let by_type = first_named(headers, "content-type"@, t);
            let given = mime::disposition_params(headers[d].1);
            let named = mime::content_type_params(headers[t].1);
            let unnamed = not_named(headers, "content-disposition"@) || by_disposition && no_exact(
                given,
                "filename"@,
            );
            &&& by_disposition && first_exact(given, "filename"@, p) ==> is_name(
                a.filename,
                given[p].1,
                parts[i].mimetype,
            )
            &&& unnamed && by_type && first_exact(named, "name"@, p) ==> is_name(
                a.filename,
                named[p].1,
                parts[i].mimetype,
            )
            &&& unnamed && (not_named(headers, "content-type"@) || by_type && no_exact(
                named,
                "name"@,
            )) ==> is_name(a.filename, "part_"@ + id, parts[i].mimetype)
        }),
{
    let headers = parts[i].headers;
    lemma_file(parts[i]);
    lemma_names();
    field_is_found_by_name(headers, "Content-Disposition"@, d);
    field_is_found_by_name(headers, "Content-Type"@, t);
    lemma_exact(mime::disposition_params(headers[d].1), "filename"@, 0, p);
    lemma_exact(mime::content_type_params(headers[t].1), "name"@, 0, p);
}

proof fn lemma_kinds()
    ensures
        "application/pdf"@.len() == 15,
        "application/zip"@.len() == 15,
        "application/x-rar-compressed"@.len() == 28,
        "application/x-7z-compressed"@.len() == 27,
        "application/gzip"@.len() == 16,
        "application/x-tar"@.len() == 17,
        "application/msword"@.len() == 18,
        "application/vnd.openxmlformats-officedocument.wordprocessingml.document"@.len() == 71,
        "application/vnd.ms-excel"@.len() == 24,
        "application/vnd.openxmlformats-officedocument.spreadsheetml.sheet"@.len() == 65,
        "application/vnd.ms-powerpoint"@.len() == 29,
        "application/vnd.openxmlformats-officedocument.presentationml.presentation"@.len() == 73,
        "image/jpeg"@.len() == 10,
        "image/png"@.len() == 9,
        "image/gif"@.len() == 9,
        "image/webp"@.len() == 10,
        "image/svg+xml"@.len() == 13,
        "image/bmp"@.len() == 9,
        "image/tiff"@.len() == 10,
        "text/plain"@.len() == 10,
        "text/html"@.len() == 9,
        "text/csv"@.len() == 8,
        "text/calendar"@.len() == 13,
        "application/json"@.len() == 16,
        "application/xml"@.len() == 15,
        "text/xml"@.len() == 8,
        "application/pdf"@[12] == 'p',
        "application/zip"@[12] == 'z',
        "application/xml"@[12] == 'x',
        "application/gzip"@[12] == 'g',
        "application/json"@[12] == 'j',
        "image/jpeg"@[6] == 'j',
        "image/webp"@[6] == 'w',
        "image/tiff"@[6] == 't',
        "text/plain"@[6] == 'l',
        "image/png"@[6] == 'p',
        "image/gif"@[6] == 'g',
        "image/bmp"@[6] == 'b',
        "text/html"@[6] == 't',
        "image/svg+xml"@[0] == 'i',
        "text/calendar"@[0] == 't',
        "text/csv"@[5] == 'c',
        "text/xml"@[5] == 'x',
{
    reveal_strlit("application/pdf");
    reveal_strlit("application/zip");
    reveal_strlit("application/x-rar-compressed");
    reveal_strlit("application/x-7z-compressed");
    reveal_strlit("application/gzip");
    reveal_strlit("application/x-tar");
    reveal_strlit("application/msword");
    reveal_strlit("application/vnd.openxmlformats-officedocument.wordprocessingml.document");
    reveal_strlit("application/vnd.ms-excel");
    reveal_strlit("application/vnd.openxmlformats-officedocument.spreadsheetml.sheet");
    reveal_strlit("application/vnd.ms-powerpoint");
    reveal_strlit("application/vnd.openxmlformats-officedocument.presentationml.presentation");
    reveal_strlit("image/jpeg");
    reveal_strlit("image/png");
    reveal_strlit("image/gif");
    reveal_strlit("image/webp");
    reveal_strlit("image/svg+xml");
    reveal_strlit("image/bmp");
    reveal_strlit("image/tiff");
    reveal_strlit("text/plain");
    reveal_strlit("text/html");
    reveal_strlit("text/csv");
    reveal_strlit("text/calendar");
    reveal_strlit("application/json");
    reveal_strlit("application/xml");
    reveal_strlit("text/xml");
}

/// Files get the usual extension of their type, type by type, and any other type gets `bin`.
#[verifier::rlimit(40)]
pub proof fn files_get_the_extension_of_their_type(kind: Seq<char>)
    ensures
        kind == "application/pdf"@ ==> mime::extension(kind) == "pdf"@,
        kind == "application/zip"@ ==> mime::extension(kind) == "zip"@,
        kind == "application/x-rar-compressed"@ ==> mime::extension(kind) == "rar"@,
        kind == "application/x-7z-compressed"@ ==> mime::extension(kind) == "7z"@,
        kind == "application/gzip"@ ==> mime::extension(kind) == "gz"@,
        kind == "application/x-tar"@ ==> mime::extension(kind) == "tar"@,
        kind == "application/msword"@ ==> mime::extension(kind) == "doc"@,
        kind == "application/vnd.openxmlformats-officedocument.wordprocessingml.document"@ ==> mime::extension(kind) == "docx"@,
        kind == "application/vnd.ms-excel"@ ==> mime::extension(kind) == "xls"@,
        kind == "application/vnd.openxmlformats-officedocument.spreadsheetml.sheet"@ ==> mime::extension(kind) == "xlsx"@,
        kind == "application/vnd.ms-powerpoint"@ ==> mime::extension(kind) == "ppt"@,
        kind == "application/vnd.openxmlformats-officedocument.presentationml.presentation"@ ==> mime::extension(kind) == "pptx"@,
        kind == "image/jpeg"@ ==> mime::extension(kind) == "jpg"@,
        kind == "image/png"@ ==> mime::extension(kind) == "png"@,
        kind == "image/gif"@ ==> mime::extension(kind) == "gif"@,
        kind == "image/webp"@ ==> mime::extension(kind) == "webp"@,
        kind == "image/svg+xml"@ ==> mime::extension(kind) == "svg"@,
        kind == "image/bmp"@ ==> mime::extension(kind) == "bmp"@,
        kind == "image/tiff"@ ==> mime::extension(kind) == "tiff"@,
        kind == "text/plain"@ ==> mime::extension(kind) == "txt"@,
        kind == "text/html"@ ==> mime::extension(kind) == "html"@,
        kind == "text/csv"@ ==> mime::extension(kind) == "csv"@,
        kind == "text/calendar"@ ==> mime::extension(kind) == "ics"@,
        kind == "application/json"@ ==> mime::extension(kind) == "json"@,
        kind == "application/xml"@ ==> mime::extension(kind) == "xml"@,
        kind == "text/xml"@ ==> mime::extension(kind) == "xml"@,
        kind != "application/pdf"@
            && kind != "application/zip"@
            && kind != "application/x-rar-compressed"@
            && kind != "application/x-7z-compressed"@
            && kind != "application/gzip"@
            && kind != "application/x-tar"@
            && kind != "application/msword"@
            && kind != "application/vnd.openxmlformats-officedocument.wordprocessingml.document"@
            && kind != "application/vnd.ms-excel"@
            && kind != "application/vnd.openxmlformats-officedocument.spreadsheetml.sheet"@
            && kind != "application/vnd.ms-powerpoint"@
            && kind != "application/vnd.openxmlformats-officedocument.presentationml.presentation"@
            && kind != "image/jpeg"@
            && kind != "image/png"@
            && kind != "image/gif"@
            && kind != "image/webp"@
            && kind != "image/svg+xml"@
            && kind != "image/bmp"@
            && kind != "image/tiff"@
            && kind != "text/plain"@
            && kind != "text/html"@
            && kind != "text/csv"@
            && kind != "text/calendar"@
            && kind != "application/json"@
            && kind != "application/xml"@
            && kind != "text/xml"@ ==> mime::extension(kind) == "bin"@,
{
    lemma_kinds();
}

/// Every field of a message comes from the header of its own name: sender, subject and date as they
/// stand, the identifiers if there are any, and each list of addresses from its own header, so that
/// recipients, copies and hidden copies are told apart.
pub proof fn fields_come_from_their_headers(
    parts: Seq<PartModel>,
    folder: Seq<char>,
    uid: u32,
    flags: Seq<MailFlag<Seq<char>>>,
    j: int,
)
    requires
        parts.len() > 0,
    ensures
        ({
            let h = parts[0].headers;
            let m = mime::email_of(parts, folder, uid, flags);
            &&& m.uid == uid
            &&& m.folder == folder
            &&& m.flags == flags
            &&& first_named(h, "message-id"@, j) ==> m.message_id == Some(h[j].1)
            &&& not_named(h, "message-id"@) ==> m.message_id is None
            &&& first_named(h, "reply-to"@, j) ==> m.reply_to == Some(h[j].1)
            &&& not_named(h, "reply-to"@) ==> m.reply_to is None
            &&& first_named(h, "in-reply-to"@, j) ==> m.in_reply_to == Some(h[j].1)
            &&& not_named(h, "in-reply-to"@) ==> m.in_reply_to is None
            &&& first_named(h, "from"@, j) ==> m.from == h[j].1
            &&& not_named(h, "from"@) ==> m.from == Seq::<char>::empty()
            &&& first_named(h, "date"@, j) ==> m.date == h[j].1
            &&& not_named(h, "date"@) ==> m.date == Seq::<char>::empty()
            &&& first_named(h, "subject"@, j) ==> m.subject == h[j].1
            &&& not_named(h, "subject"@) ==> m.subject == Seq::<char>::empty()
            &&& first_named(h, "to"@, j) ==> m.to == header::addresses(h[j].1)
            &&& not_named(h, "to"@) ==> m.to.len() == 0
            &&& first_named(h, "cc"@, j) ==> m.cc == header::addresses(h[j].1)
            &&& not_named(h, "cc"@) ==> m.cc.len() == 0
            &&& first_named(h, "bcc"@, j) ==> m.bcc == header::addresses(h[j].1)
            &&& not_named(h, "bcc"@) ==> m.bcc.len() == 0
            &&& first_named(h, "references"@, j) ==> m.references == mime::bare(
                text::pieces(h[j].1, Sep::Space),
            )
            &&& not_named(h, "references"@) ==> m.references.len() == 0
        }),
{
    let h = parts[0].headers;
    lemma_names();
    lemma_no_addresses();
    field_is_found_by_name(h, "Message-ID"@, j);
    field_is_found_by_name(h, "Reply-To"@, j);
    field_is_found_by_name(h, "In-Reply-To"@, j);
    field_is_found_by_name(h, "From"@, j);
    field_is_found_by_name(h, "Date"@, j);
    field_is_found_by_name(h, "Subject"@, j);
    field_is_found_by_name(h, "To"@, j);
    field_is_found_by_name(h, "Cc"@, j);
    field_is_found_by_name(h, "Bcc"@, j);
    field_is_found_by_name(h, "References"@, j);
}

proof fn lemma_no_addresses()
    ensures
        header::addresses(seq![]).len() == 0,
{
    let none = Seq::<Seq<char>>::empty();
    text::list_reads_back(none, ',', Sep::Char(','));
    assert(text::joined(none, seq![',', ' ']) =~= seq![]);
}

/// Addresses that a header gives with a comma and a space between each two come out as they are, in
/// their order.
pub proof fn addresses_come_out_in_order(list: Seq<Seq<char>>)
    requires
        forall|k: int| 0 <= k < list.len() ==> text::entry(#[trigger] list[k], Sep::Char(',')),
    ensures
        header::addresses(text::joined(list, ", "@)) == list,
{
    reveal_strlit(", ");
    assert(", "@ =~= seq![',', ' ']);
    text::list_reads_back(list, ',', Sep::Char(','));
}

/// An identifier that stands in angle brackets comes out without them.
pub proof fn brackets_are_taken_off(id: Seq<char>)
    requires
        id.len() > 0,
        id[0] != '<' && id[0] != '>',
        id.last() != '<' && id.last() != '>',
    ensures
        mime::without_brackets(id) == id,
        mime::without_brackets(seq!['<'] + id + seq!['>']) == id,
{
    let s = seq!['<'] + id + seq!['>'];
    let t = s.drop_first();
    assert(t =~= id + seq!['>']);
    assert(t.drop_last() =~= id);
    assert(t[0] == id[0]);
    assert(mime::without_brackets(t) == mime::without_brackets(id));
}

/// The type that a part is searched by, in upper or lower case.
pub open spec fn of_type(part: PartModel, kind: Seq<char>) -> bool {
    text::ascii_lowered(part.mimetype) == text::ascii_lowered(kind)
}

proof fn lemma_body_at(parts: Seq<PartModel>, kind: Seq<char>, i: int)
    requires
        0 <= i < parts.len(),
        forall|j: int| 0 <= j < parts.len() && of_type(#[trigger] parts[j], kind) ==> parts[j].body
            is Some,
    ensures
        match mime::body_at(parts, kind, i) {
            Some(t) => exists|j: int|
                #![trigger parts[j]]
                i <= j < mime::part_end(parts, i) && of_type(parts[j], kind) && mime::part_text(
                    parts[j],
                ) == Some(t) && forall|k: int| i <= k < j ==> !of_type(#[trigger] parts[k], kind),
            None => forall|k: int|
                i <= k < mime::part_end(parts, i) ==> !of_type(#[trigger] parts[k], kind),
        },
    decreases parts.len() - i, 0int,
{
    mime::lemma_part_end(parts, i);
    if !of_type(parts[i], kind) {
        lemma_body_among(parts, kind, i + 1, parts[i].subparts as nat);
    } else {
        assert(parts[i].body is Some);
    }
}

proof fn lemma_body_among(parts: Seq<PartModel>, kind: Seq<char>, i: int, n: nat)
    requires
        0 <= i <= parts.len(),
        forall|j: int| 0 <= j < parts.len() && of_type(#[trigger] parts[j], kind) ==> parts[j].body
            is Some,
    ensures
        match mime::body_among(parts, kind, i, n) {
            Some(t) => exists|j: int|
                #![trigger parts[j]]
                i <= j < mime::parts_end(parts, i, n) && of_type(parts[j], kind) && mime::part_text(
                    parts[j],
                ) == Some(t) && forall|k: int| i <= k < j ==> !of_type(#[trigger] parts[k], kind),
            None => forall|k: int|
                i <= k < mime::parts_end(parts, i, n) ==> !of_type(#[trigger] parts[k], kind),
        },
    decreases parts.len() - i, n + 1,
{
    if n > 0 && i < parts.len() {
        mime::lemma_part_end(parts, i);
        let next = mime::part_end(parts, i);
        lemma_ends_grow(parts, next, (n - 1) as nat);
        lemma_body_at(parts, kind, i);
        if of_type(parts[i], kind) {
            assert(parts[i].body is Some);
        } else if mime::body_at(parts, kind, i) is None {
            lemma_body_among(parts, kind, next, (n - 1) as nat);
        }
    }
}

/// The text of a message is that of the first of its parts that is plain text, and its HTML that of
/// the first that is HTML; there is none only where no part is. (A text whose transfer encoding
/// cannot be undone is left out here.)
pub proof fn first_text_is_the_body(
    parts: Seq<PartModel>,
    folder: Seq<char>,
    uid: u32,
    flags: Seq<MailFlag<Seq<char>>>,
)
    requires
        parts.len() > 0,
        mime::part_end(parts, 0) == parts.len(),
        forall|j: int| 0 <= j < parts.len() ==> (#[trigger] parts[j]).body is Some,
    ensures
        ({
            let m = mime::email_of(parts, folder, uid, flags);
            &&& match m.body_text {
                Some(t) => exists|j: int|
                    #![trigger parts[j]]
                    0 <= j < parts.len() && of_type(parts[j], "text/plain"@) && mime::part_text(
                        parts[j],
                    ) == Some(t) && forall|k: int|
                        0 <= k < j ==> !of_type(#[trigger] parts[k], "text/plain"@),
                None => forall|k: int|
                    0 <= k < parts.len() ==> !of_type(#[trigger] parts[k], "text/plain"@),
            }
            &&& match m.body_html {
                Some(t) => exists|j: int|
                    #![trigger parts[j]]
                    0 <= j < parts.len() && of_type(parts[j], "text/html"@) && mime::part_text(
                        parts[j],
                    ) == Some(t) && forall|k: int|
                        0 <= k < j ==> !of_type(#[trigger] parts[k], "text/html"@),
                None => forall|k: int|
                    0 <= k < parts.len() ==> !of_type(#[trigger] parts[k], "text/html"@),
            }
        }),
{
    lemma_body_at(parts, "text/plain"@, 0);
    lemma_body_at(parts, "text/html"@, 0);
}

/// The text of a part is read by the charset that its content type gives, if it gives one.
pub proof fn text_is_read_by_its_charset(part: PartModel, j: int)
    ensures
        part.body is None ==> mime::part_text(part) is None,
        part.body is Some && first_named(part.params, "charset"@, j) ==> mime::part_text(part)
            == Some(charset::body_text(part.body->Some_0, part.params[j].1)),
        part.body is Some && not_named(part.params, "charset"@) ==> mime::part_text(part) == Some(
            charset::body_text(part.body->Some_0, Seq::<char>::empty()),
        ),
{
    lemma_names();
    field_is_found_by_name(part.params, "charset"@, j);
}

/// A message as it was fetched is the one that its parts make up, or an error that says why it has
/// none.
pub proof fn message_is_read_from_its_parts(
    raw: Seq<u8>,
    folder: Seq<char>,
    uid: u32,
    flags: Seq<MailFlag<Seq<char>>>,
)
    ensures
        mime::mail_parts(raw) matches Ok(parts) ==> mime::read_email(raw, folder, uid, flags)
            matches Ok(m) && m.attachments == mime::attachments_at(parts, 0, seq![]) && m.folder
            == folder && m.uid == uid && m.flags == flags,
        mime::mail_parts(raw) matches Err(e) ==> mime::read_email(raw, folder, uid, flags)
            matches Err(w) && w == crate::types::MailError::Parse("MIME parse: "@ + e),
{
}

} // verus!
