//! The parts of a message: bodies, attachments and the message that is put together from them.

use vstd::prelude::*;
use vstd::string::*;

use crate::charset;
use crate::charset::decode_body;
use crate::header;
use crate::header::split_addr_list;
use crate::number;
use crate::number::decimal_text;
use crate::text;
use crate::text::{
    contains, has_char, same, same_ignore_case, slice, split, starts_with, to_chars, to_lowercase,
    to_text, Sep,
};
use crate::types::{AttachmentMeta, Email, EmailModel, MailError, MailFlag};

verus! {

broadcast use vstd::string::group_string_axioms;

/// A part of a message. A message is the list of its parts in the order of a depth-first walk:
/// the message itself first, and behind each part its own subparts, of which it gives the
/// number. `T` is text, `H` a list of names with values, `B` bytes.
#[derive(Clone, Debug, PartialEq, Eq)]
pub struct Part<T = String, H = Vec<(String, String)>, B = Vec<u8>> {
    /// The header fields with their values decoded.
    pub headers: H,
    /// The type of the content, such as `text/plain`.
    pub mimetype: T,
    /// The parameters of the content type.
    pub params: H,
    /// The body without its transfer encoding, if that could be taken off.
    pub body: Option<B>,
    /// How many bytes the body has as text in UTF-8, if it could be read.
    pub body_size: Option<u64>,
    /// How many subparts follow.
    pub subparts: usize,
}

/// The model of a part.
pub type PartModel = Part<Seq<char>, Seq<(Seq<char>, Seq<char>)>, Seq<u8>>;

impl View for Part<String, Vec<(String, String)>, Vec<u8>> {
    type V = PartModel;

    open spec fn view(&self) -> PartModel {
        Part {
            headers: text::views(self.headers@),
            mimetype: self.mimetype@,
            params: text::views(self.params@),
            body: text::opt_view(self.body),
            body_size: self.body_size,
            subparts: self.subparts,
        }
    }
}

/// The parts of the message that `mailparse` finds in the bytes, or the text of its error.
pub uninterp spec fn mail_parts(raw: Seq<u8>) -> Result<Seq<PartModel>, Seq<char>>;

/// The model of what the parser gave.
pub open spec fn parsed_view(r: Result<Vec<Part>, String>) -> Result<Seq<PartModel>, Seq<char>> {
    match r {
        Ok(parts) => Ok(text::views(parts@)),
        Err(e) => Err(e@),
    }
}

/// Whether every body is short enough to be decoded.
pub open spec fn decodable(parts: Seq<PartModel>) -> bool {
    forall|i: int|
        0 <= i < parts.len() ==> ((#[trigger] parts[i]).body matches Some(b)
            ==> charset::decodable_len(b.len()))
}

/// `mailparse::parse_mail` and `ParsedMail::parts`: the message first, then its subparts in a
/// depth-first walk, each with its header fields, content type, number of subparts, and what
/// `get_body_raw` and `get_body` make of its body. There is at least one part, and no body is
/// longer than twice the message, as taking off a transfer encoding at most doubles it.
#[verifier::external_body]
pub(crate) fn parse_parts(raw: &[u8]) -> (r: Result<Vec<Part>, String>)
    requires
        raw@.len() <= usize::MAX / 16,
    ensures
        parsed_view(r) == mail_parts(raw@),
        r matches Ok(parts) ==> parts@.len() > 0 && decodable(text::views(parts@)),
{
    let mail = mailparse::parse_mail(raw).map_err(|e| e.to_string())?;
    let copy = |p: &mailparse::ParsedMail| Part {
        headers: p.headers.iter().map(|h| (h.get_key(), h.get_value())).collect(),
        mimetype: p.ctype.mimetype.clone(),
        params: p.ctype.params.clone().into_iter().collect(),
        body: p.get_body_raw().ok(),
        body_size: p.get_body().ok().map(|b| b.len() as u64),
        subparts: p.subparts.len(),
    };
    Ok(mail.parts().map(copy).collect())
}

/// The parameters that `mailparse` finds in a `Content-Disposition` value.
pub uninterp spec fn disposition_params(value: Seq<char>) -> Seq<(Seq<char>, Seq<char>)>;

/// `mailparse::parse_content_disposition`: the parameters of the value with their names.
#[verifier::external_body]
fn parse_disposition(value: &str) -> (r: Vec<(String, String)>)
    ensures
        text::views(r@) == disposition_params(value@),
{
    mailparse::parse_content_disposition(value).params.into_iter().collect()
}

/// The parameters that `mailparse` finds in a `Content-Type` value.
pub uninterp spec fn content_type_params(value: Seq<char>) -> Seq<(Seq<char>, Seq<char>)>;

/// `mailparse::parse_content_type`: the parameters of the value with their names.
#[verifier::external_body]
fn parse_type(value: &str) -> (r: Vec<(String, String)>)
    ensures
        text::views(r@) == content_type_params(value@),
{
    mailparse::parse_content_type(value).params.into_iter().collect()
}

/// The value of the first pair from the pair `i` on that has this name, up to the case of ASCII
/// letters.
pub open spec fn value_from(
    pairs: Seq<(Seq<char>, Seq<char>)>,
    name: Seq<char>,
    i: int,
) -> Option<Seq<char>>
    decreases pairs.len() - i,
{
    if i < 0 || i >= pairs.len() {
        None
    } else if text::ascii_lowered(pairs[i].0) == text::ascii_lowered(name) {
        Some(pairs[i].1)
    } else {
        value_from(pairs, name, i + 1)
    }
}

/// The value of the first pair of this name, up to the case of ASCII letters.
pub open spec fn value_of(pairs: Seq<(Seq<char>, Seq<char>)>, name: Seq<char>) -> Option<
    Seq<char>,
> {
    value_from(pairs, name, 0)
}

fn find_value(pairs: &Vec<(String, String)>, name: &str) -> (r: Option<String>)
    ensures
        text::opt_view(r) == value_of(text::views(pairs@), name@),
{
    let ghost all = text::views(pairs@);
    let mut i: usize = 0;
    while i < pairs.len()
        invariant
            i <= pairs.len(),
            all == text::views(pairs@),
            value_of(all, name@) == value_from(all, name@, i as int),
        decreases pairs.len() - i,
    {
        assert(all[i as int] == pairs[i as int]@);
        if same_ignore_case(pairs[i].0.as_str(), name) {
            return Some(pairs[i].1.clone());
        }
        i += 1;
    }
    None
}

/// The value of the first pair from the pair `i` on that has exactly this name.
pub open spec fn exact_from(
    pairs: Seq<(Seq<char>, Seq<char>)>,
    name: Seq<char>,
    i: int,
) -> Option<Seq<char>>
    decreases pairs.len() - i,
{
    if i < 0 || i >= pairs.len() {
        None
    } else if pairs[i].0 == name {
        Some(pairs[i].1)
    } else {
        exact_from(pairs, name, i + 1)
    }
}

fn find_exact(pairs: &Vec<(String, String)>, name: &str) -> (r: Option<String>)
    ensures
        text::opt_view(r) == exact_from(text::views(pairs@), name@, 0),
{
    let ghost all = text::views(pairs@);
    let mut i: usize = 0;
    while i < pairs.len()
        invariant
            i <= pairs.len(),
            all == text::views(pairs@),
            exact_from(all, name@, 0) == exact_from(all, name@, i as int),
        decreases pairs.len() - i,
    {
        assert(all[i as int] == pairs[i as int]@);
        if same(pairs[i].0.as_str(), name) {
            return Some(pairs[i].1.clone());
        }
        i += 1;
    }
    None
}

/// The value of the first header field of this name, up to the case of ASCII letters.
pub fn get_header(part: &Part, name: &str) -> (r: Option<String>)
    ensures
        text::opt_view(r) == value_of(part@.headers, name@),
{
    find_value(&part.headers, name)
}

/// Whether the part has this content type, up to the case of ASCII letters.
pub open spec fn has_type(part: PartModel, kind: Seq<char>) -> bool {
    text::ascii_lowered(part.mimetype) == text::ascii_lowered(kind)
}

/// Whether the part is plain text.
pub fn is_text_plain(part: &Part) -> (r: bool)
    ensures
        r == has_type(part@, "text/plain"@),
{
    same_ignore_case(part.mimetype.as_str(), "text/plain")
}

/// Whether the part is HTML.
pub fn is_text_html(part: &Part) -> (r: bool)
    ensures
        r == has_type(part@, "text/html"@),
{
    same_ignore_case(part.mimetype.as_str(), "text/html")
}

/// The charset that the part declares, or nothing.
pub open spec fn declared_charset(part: PartModel) -> Seq<char> {
    match value_of(part.params, "charset"@) {
        Some(v) => v,
        None => seq![],
    }
}

/// The text of the part's body, if it has one.
pub open spec fn part_text(part: PartModel) -> Option<Seq<char>> {
    match part.body {
        Some(raw) => Some(charset::body_text(raw, declared_charset(part))),
        None => None,
    }
}

/// The text of the part's body: by the declared charset, or, where that gives garbled text, by
/// the first common charset that does not.
pub fn decode_body_part(part: &Part) -> (r: Option<String>)
    requires
        part@.body matches Some(b) ==> charset::decodable_len(b.len()),
    ensures
        text::opt_view(r) == part_text(part@),
{
    match &part.body {
        Some(raw) => {
            let declared = match find_value(&part.params, "charset") {
                Some(v) => v,
                None => String::new(),
            };
            assert(declared@ == declared_charset(part@));
            Some(decode_body(raw.as_slice(), declared.as_str()))
        },
        None => None,
    }
}

/// Where the part behind `parts[i]` and all that belongs to it stands.
pub open spec fn part_end(parts: Seq<PartModel>, i: int) -> int
    decreases parts.len() - i, 0int,
{
    if i < 0 || i >= parts.len() {
        parts.len() as int
    } else {
        parts_end(parts, i + 1, parts[i].subparts as nat)
    }
}

/// Where the part behind `n` parts from `i` on and all that belongs to them stands.
pub open spec fn parts_end(parts: Seq<PartModel>, i: int, n: nat) -> int
    decreases parts.len() - i, n + 1,
{
    if n == 0 || i < 0 || i >= parts.len() {
        i
    } else {
        let next = part_end(parts, i);
        if !(i < next <= parts.len()) {
            parts.len() as int
        } else {
            parts_end(parts, next, (n - 1) as nat)
        }
    }
}

/// A part ends behind itself and within the message.
pub proof fn lemma_part_end(parts: Seq<PartModel>, i: int)
    requires
        0 <= i < parts.len(),
    ensures
        i < part_end(parts, i) <= parts.len(),
    decreases parts.len() - i, 0int,
{
    lemma_parts_end(parts, i + 1, parts[i].subparts as nat);
}

proof fn lemma_parts_end(parts: Seq<PartModel>, i: int, n: nat)
    requires
        0 <= i <= parts.len(),
    ensures
        i <= parts_end(parts, i, n) <= parts.len(),
    decreases parts.len() - i, n + 1,
{
    if n > 0 && i < parts.len() {
        lemma_part_end(parts, i);
        lemma_parts_end(parts, part_end(parts, i), (n - 1) as nat);
    }
}

fn end_of_part(parts: &Vec<Part>, i: usize) -> (r: usize)
    requires
        i < parts.len(),
    ensures
        r == part_end(text::views(parts@), i as int),
        i < r <= parts.len(),
    decreases parts.len() - i,
{
    let ghost all = text::views(parts@);
    let mut next: usize = i + 1;
    let mut left: usize = parts[i].subparts;
    proof {
        lemma_part_end(all, i as int);
    }
    while left > 0 && next < parts.len()
        invariant
            i < next <= parts.len(),
            all == text::views(parts@),
            part_end(all, i as int) == parts_end(all, next as int, left as nat),
        decreases left,
    {
        proof {
            lemma_part_end(all, next as int);
        }
        next = end_of_part(parts, next);
        left -= 1;
    }
    next
}

/// The text of the first part of this content type among `parts[i]` and its subparts. A part of
/// this type that stands directly under the one looked at ends the search even if it has no body.
pub open spec fn body_at(parts: Seq<PartModel>, kind: Seq<char>, i: int) -> Option<Seq<char>>
    decreases parts.len() - i, 0int,
{
    if i < 0 || i >= parts.len() {
        None
    } else if has_type(parts[i], kind) {
        part_text(parts[i])
    } else {
        body_among(parts, kind, i + 1, parts[i].subparts as nat)
    }
}

/// The text that is found among `n` parts from `i` on.
pub open spec fn body_among(
    parts: Seq<PartModel>,
    kind: Seq<char>,
    i: int,
    n: nat,
) -> Option<Seq<char>>
    decreases parts.len() - i, n + 1,
{
    if n == 0 || i < 0 || i >= parts.len() {
        None
    } else if has_type(parts[i], kind) {
        part_text(parts[i])
    } else {
        match body_at(parts, kind, i) {
            Some(t) => Some(t),
            None => {
                proof {
                    lemma_part_end(parts, i);
                }
                body_among(parts, kind, part_end(parts, i), (n - 1) as nat)
            },
        }
    }
}

fn find_body(parts: &Vec<Part>, kind: &str, i: usize) -> (r: Option<String>)
    requires
        i < parts.len(),
        decodable(text::views(parts@)),
    ensures
        text::opt_view(r) == body_at(text::views(parts@), kind@, i as int),
    decreases parts.len() - i,
{
    let ghost all = text::views(parts@);
    assert(all[i as int] == parts[i as int]@);
    if same_ignore_case(parts[i].mimetype.as_str(), kind) {
        return decode_body_part(&parts[i]);
    }
    let mut next: usize = i + 1;
    let mut left: usize = parts[i].subparts;
    while left > 0 && next < parts.len()
        invariant
            i < next <= parts.len(),
            all == text::views(parts@),
            decodable(all),
            body_at(all, kind@, i as int) == body_among(all, kind@, next as int, left as nat),
        decreases left,
    {
        assert(all[next as int] == parts[next as int]@);
        if same_ignore_case(parts[next].mimetype.as_str(), kind) {
            return decode_body_part(&parts[next]);
        }
        if let Some(t) = find_body(parts, kind, next) {
            return Some(t);
        }
        next = end_of_part(parts, next);
        left -= 1;
    }
    None
}

/// The text of the first plain text of the message.
pub fn extract_body_text(parts: &Vec<Part>) -> (r: Option<String>)
    requires
        parts.len() > 0,
        decodable(text::views(parts@)),
    ensures
        text::opt_view(r) == body_at(text::views(parts@), "text/plain"@, 0),
{
    find_body(parts, "text/plain", 0)
}

/// The text of the first HTML of the message.
pub fn extract_body_html(parts: &Vec<Part>) -> (r: Option<String>)
    requires
        parts.len() > 0,
        decodable(text::views(parts@)),
    ensures
        text::opt_view(r) == body_at(text::views(parts@), "text/html"@, 0),
{
    find_body(parts, "text/html", 0)
}

/// The usual extension of files of a content type, which is given in lower case.
pub open spec fn extension(kind: Seq<char>) -> Seq<char> {
    if kind == "application/pdf"@ {
        "pdf"@
    } else if kind == "application/zip"@ {
        "zip"@
    } else if kind == "application/x-rar-compressed"@ {
        "rar"@
    } else if kind == "application/x-7z-compressed"@ {
        "7z"@
    } else if kind == "application/gzip"@ {
        "gz"@
    } else if kind == "application/x-tar"@ {
        "tar"@
    } else if kind == "application/msword"@ {
        "doc"@
    } else if kind == "application/vnd.openxmlformats-officedocument.wordprocessingml.document"@ {
        "docx"@
    } else if kind == "application/vnd.ms-excel"@ {
        "xls"@
    } else if kind == "application/vnd.openxmlformats-officedocument.spreadsheetml.sheet"@ {
        "xlsx"@
    } else if kind == "application/vnd.ms-powerpoint"@ {
        "ppt"@
    } else if kind == "application/vnd.openxmlformats-officedocument.presentationml.presentation"@ {
        "pptx"@
    } else if kind == "image/jpeg"@ {
        "jpg"@
    } else if kind == "image/png"@ {
        "png"@
    } else if kind == "image/gif"@ {
        "gif"@
    } else if kind == "image/webp"@ {
        "webp"@
    } else if kind == "image/svg+xml"@ {
        "svg"@
    } else if kind == "image/bmp"@ {
        "bmp"@
    } else if kind == "image/tiff"@ {
        "tiff"@
    } else if kind == "text/plain"@ {
        "txt"@
    } else if kind == "text/html"@ {
        "html"@
    } else if kind == "text/csv"@ {
        "csv"@
    } else if kind == "text/calendar"@ {
        "ics"@
    } else if kind == "application/json"@ {
        "json"@
    } else if kind == "application/xml"@ {
        "xml"@
    } else if kind == "text/xml"@ {
        "xml"@
    } else {
        "bin"@
    }
}

/// The usual extension of files of this content type.
pub fn mime_to_ext(mime: &str) -> (r: &'static str)
    ensures
        r@ == extension(text::lowercase(mime@)),
{
    let lower = to_lowercase(mime);
    let kind = lower.as_str();
    if same(kind, "application/pdf") {
        "pdf"
    } else if same(kind, "application/zip") {
        "zip"
    } else if same(kind, "application/x-rar-compressed") {
        "rar"
    } else if same(kind, "application/x-7z-compressed") {
        "7z"
    } else if same(kind, "application/gzip") {
        "gz"
    } else if same(kind, "application/x-tar") {
        "tar"
    } else if same(kind, "application/msword") {
        "doc"
    } else if same(kind, "application/vnd.openxmlformats-officedocument.wordprocessingml.document") {
        "docx"
    } else if same(kind, "application/vnd.ms-excel") {
        "xls"
    } else if same(kind, "application/vnd.openxmlformats-officedocument.spreadsheetml.sheet") {
        "xlsx"
    } else if same(kind, "application/vnd.ms-powerpoint") {
        "ppt"
    } else if same(kind, "application/vnd.openxmlformats-officedocument.presentationml.presentation") {
        "pptx"
    } else if same(kind, "image/jpeg") {
        "jpg"
    } else if same(kind, "image/png") {
        "png"
    } else if same(kind, "image/gif") {
        "gif"
    } else if same(kind, "image/webp") {
        "webp"
    } else if same(kind, "image/svg+xml") {
        "svg"
    } else if same(kind, "image/bmp") {
        "bmp"
    } else if same(kind, "image/tiff") {
        "tiff"
    } else if same(kind, "text/plain") {
        "txt"
    } else if same(kind, "text/html") {
        "html"
    } else if same(kind, "text/csv") {
        "csv"
    } else if same(kind, "text/calendar") {
        "ics"
    } else if same(kind, "application/json") {
        "json"
    } else if same(kind, "application/xml") {
        "xml"
    } else if same(kind, "text/xml") {
        "xml"
    } else {
        "bin"
    }
}

/// The number of a subpart: that of its parent, a dot and its own, which counts from one.
pub open spec fn child_number(parent: Seq<char>, index: nat) -> Seq<char> {
    if parent.len() == 0 {
        number::decimal(index + 1)
    } else {
        parent + "."@ + number::decimal(index + 1)
    }
}

/// The number of the subpart with this index, counted from zero.
pub fn child_prefix(parent: &str, index: usize) -> (r: String)
    requires
        index < usize::MAX,
    ensures
        r@ == child_number(parent@, index as nat),
{
    let own = decimal_text((index + 1) as u64);
    if parent.is_empty() {
        own
    } else {
        let mut r = parent.to_owned();
        r.append(".");
        r.append(own.as_str());
        r
    }
}

/// Whether a header field from the field `i` on says that the part is an attachment.
pub open spec fn marked_from(headers: Seq<(Seq<char>, Seq<char>)>, i: int) -> bool
    decreases headers.len() - i,
{
    if i < 0 || i >= headers.len() {
        false
    } else {
        ||| text::ascii_lowered(headers[i].0) == text::ascii_lowered("Content-Disposition"@)
            && text::holds(text::lowercase(headers[i].1), "attachment"@)
        ||| marked_from(headers, i + 1)
    }
}

fn is_marked(part: &Part) -> (r: bool)
    ensures
        r == marked_from(part@.headers, 0),
{
    let ghost all = part@.headers;
    let mut i: usize = 0;
    while i < part.headers.len()
        invariant
            i <= part.headers.len(),
            all == text::views(part.headers@),
            marked_from(all, 0) == marked_from(all, i as int),
        decreases part.headers.len() - i,
    {
        assert(all[i as int] == part.headers[i as int]@);
        if same_ignore_case(part.headers[i].0.as_str(), "Content-Disposition") && contains(
            to_lowercase(part.headers[i].1.as_str()).as_str(),
            "attachment",
        ) {
            return true;
        }
        i += 1;
    }
    false
}

/// Whether the part is looked through for attachments rather than being one: text that is not
/// marked as an attachment, or a container.
pub open spec fn looked_through(part: PartModel) -> bool {
    let kind = text::lowercase(part.mimetype);
    ||| (text::occurs(kind, "text/plain"@, 0) || text::occurs(kind, "text/html"@, 0))
        && !marked_from(part.headers, 0)
    ||| text::occurs(kind, "multipart/"@, 0)
}

fn is_looked_through(part: &Part) -> (r: bool)
    ensures
        r == looked_through(part@),
{
    let lower = to_lowercase(part.mimetype.as_str());
    let kind = lower.as_str();
    if starts_with(kind, "text/plain") || starts_with(kind, "text/html") {
        if !is_marked(part) {
            return true;
        }
    }
    starts_with(kind, "multipart/")
}

/// The file name that the part's headers give.
pub open spec fn given_name(part: PartModel) -> Option<Seq<char>> {
    let disposition = match value_of(part.headers, "Content-Disposition"@) {
        Some(v) => exact_from(disposition_params(v), "filename"@, 0),
        None => None,
    };
    match disposition {
        Some(n) => Some(n),
        None => match value_of(part.headers, "Content-Type"@) {
            Some(v) => exact_from(content_type_params(v), "name"@, 0),
            None => None,
        },
    }
}

fn find_name(part: &Part) -> (r: Option<String>)
    ensures
        text::opt_view(r) == given_name(part@),
{
    if let Some(v) = get_header(part, "Content-Disposition") {
        if let Some(n) = find_exact(&parse_disposition(v.as_str()), "filename") {
            return Some(n);
        }
    }
    match get_header(part, "Content-Type") {
        Some(v) => find_exact(&parse_type(v.as_str()), "name"),
        None => None,
    }
}

/// A file name, with the usual extension of the content type added where it has none.
pub open spec fn with_extension(name: Seq<char>, mimetype: Seq<char>) -> Seq<char> {
    if name.contains('.') {
        name
    } else {
        name + "."@ + extension(text::lowercase(mimetype))
    }
}

/// What is known of the attachment that the part is.
pub open spec fn attachment_of(part: PartModel, id: Seq<char>) -> AttachmentMeta<Seq<char>> {
    let name = match given_name(part) {
        Some(n) => n,
        None => "part_"@ + id,
    };
    AttachmentMeta {
        filename: with_extension(name, part.mimetype),
        mime_type: part.mimetype,
        size: match part.body_size {
            Some(n) => n,
            None => 0,
        },
        content_id: value_of(part.headers, "Content-ID"@),
        part_id: id,
        transfer_encoding: value_of(part.headers, "Content-Transfer-Encoding"@),
    }
}

fn describe_attachment(part: &Part, id: &str) -> (r: AttachmentMeta)
    ensures
        r@ == attachment_of(part@, id@),
{
    let name = match find_name(part) {
        Some(n) => n,
        None => {
            let mut n = "part_".to_owned();
            n.append(id);
            n
        },
    };
    let filename = if has_char(name.as_str(), '.') {
        name
    } else {
        let mut n = name;
        n.append(".");
        n.append(mime_to_ext(part.mimetype.as_str()));
        n
    };
    AttachmentMeta {
        filename,
        mime_type: part.mimetype.clone(),
        size: match part.body_size {
            Some(n) => n,
            None => 0,
        },
        content_id: get_header(part, "Content-ID"),
        part_id: id.to_owned(),
        transfer_encoding: get_header(part, "Content-Transfer-Encoding"),
    }
}

/// The attachments among `parts[i]`, which has the number `id`, and its subparts.
pub open spec fn attachments_at(parts: Seq<PartModel>, i: int, id: Seq<char>) -> Seq<
    AttachmentMeta<Seq<char>>,
>
    decreases parts.len() - i, 0int,
{
    if i < 0 || i >= parts.len() {
        seq![]
    } else if looked_through(parts[i]) {
        attachments_among(parts, i + 1, parts[i].subparts as nat, 0, id)
    } else {
        seq![attachment_of(parts[i], id)]
    }
}

/// The attachments among `n` parts from `i` on, which are the subparts from the `k`-th on of the
/// part with the number `id`.
pub open spec fn attachments_among(
    parts: Seq<PartModel>,
    i: int,
    n: nat,
    k: nat,
    id: Seq<char>,
) -> Seq<AttachmentMeta<Seq<char>>>
    decreases parts.len() - i, n + 1,
{
    if n == 0 || i < 0 || i >= parts.len() {
        seq![]
    } else {
        proof {
            lemma_part_end(parts, i);
        }
        attachments_at(parts, i, child_number(id, k)) + attachments_among(
            parts,
            part_end(parts, i),
            (n - 1) as nat,
            k + 1,
            id,
        )
    }
}

/// Adds the attachments among `parts[i]`, which has the number `id`, and its subparts.
pub fn collect_attachments(parts: &Vec<Part>, i: usize, id: &str, out: &mut Vec<AttachmentMeta>)
    requires
        i < parts.len(),
    ensures
        text::views(final(out)@) == text::views(old(out)@) + attachments_at(
            text::views(parts@),
            i as int,
            id@,
        ),
    decreases parts.len() - i,
{
    let ghost all = text::views(parts@);
    let ghost start = text::views(out@);
    assert(all[i as int] == parts[i as int]@);
    if !is_looked_through(&parts[i]) {
        let found = describe_attachment(&parts[i], id);
        proof {
            text::views_push(out@, found);
            assert(start + seq![found@] =~= start.push(found@));
        }
        out.push(found);
        return;
    }
    let total: usize = parts[i].subparts;
    let mut next: usize = i + 1;
    let mut k: usize = 0;
    let ghost wanted = start + attachments_at(all, i as int, id@);
    while k < total && next < parts.len()
        invariant
            i < next <= parts.len(),
            k <= total,
            all == text::views(parts@),
            text::views(out@) + attachments_among(
                all,
                next as int,
                (total - k) as nat,
                k as nat,
                id@,
            ) == wanted,
        decreases total - k,
    {
        let ghost before = text::views(out@);
        let child = child_prefix(id, k);
        collect_attachments(parts, next, child.as_str(), out);
        proof {
            let found = attachments_at(all, next as int, child@);
            let rest = attachments_among(
                all,
                part_end(all, next as int),
                (total - k - 1) as nat,
                k as nat + 1,
                id@,
            );
            assert(before + (found + rest) =~= text::views(out@) + rest);
        }
        next = end_of_part(parts, next);
        k += 1;
    }
    assert(text::views(out@) + Seq::<AttachmentMeta<Seq<char>>>::empty() =~= text::views(out@));
}

/// The attachments of the message.
pub fn extract_attachments(parts: &Vec<Part>) -> (r: Vec<AttachmentMeta>)
    requires
        parts.len() > 0,
    ensures
        text::views(r@) == attachments_at(text::views(parts@), 0, seq![]),
{
    let mut attachments: Vec<AttachmentMeta> = Vec::new();
    proof {
        reveal_strlit("");
        assert(""@ =~= seq![]);
    }
    collect_attachments(parts, 0, "", &mut attachments);
    assert(text::views(attachments@) =~= attachments_at(text::views(parts@), 0, seq![]));
    attachments
}

/// Whether `c` is an angle bracket.
pub open spec fn bracket(c: char) -> bool {
    c == '<' || c == '>'
}

/// The text without the angle brackets at its start and its end.
pub open spec fn without_brackets(s: Seq<char>) -> Seq<char>
    decreases s.len(),
{
    if s.len() == 0 {
        s
    } else if bracket(s[0]) {
        without_brackets(s.drop_first())
    } else if bracket(s.last()) {
        without_brackets(s.drop_last())
    } else {
        s
    }
}

fn strip_brackets(s: &Vec<char>) -> (r: Vec<char>)
    ensures
        r@ == without_brackets(s@),
{
    let mut a: usize = 0;
    let mut b: usize = s.len();
    assert(s@.subrange(0, s.len() as int) =~= s@);
    while a < b && (s[a] == '<' || s[a] == '>')
        invariant
            a <= b == s.len(),
            without_brackets(s@) == without_brackets(s@.subrange(a as int, b as int)),
        decreases b - a,
    {
        proof {
            let t = s@.subrange(a as int, b as int);
            assert(t.drop_first() =~= s@.subrange(a + 1, b as int));
        }
        a += 1;
    }
    while a < b && (s[b - 1] == '<' || s[b - 1] == '>')
        invariant
            a <= b <= s.len(),
            a < b ==> !bracket(s[a as int]),
            without_brackets(s@) == without_brackets(s@.subrange(a as int, b as int)),
        decreases b - a,
    {
        proof {
            let t = s@.subrange(a as int, b as int);
            assert(t.drop_last() =~= s@.subrange(a as int, b - 1));
        }
        b -= 1;
    }
    slice(s, a, b)
}

/// The pieces that are not empty, each without the angle brackets at its ends.
pub open spec fn bare(pieces: Seq<Seq<char>>) -> Seq<Seq<char>>
    decreases pieces.len(),
{
    if pieces.len() == 0 {
        seq![]
    } else {
        let rest = bare(pieces.drop_last());
        if pieces.last().len() == 0 {
            rest
        } else {
            rest.push(without_brackets(pieces.last()))
        }
    }
}

/// The message identifiers of a `References` value: what white space separates, without angle
/// brackets.
pub open spec fn reference_ids(value: Option<Seq<char>>) -> Seq<Seq<char>> {
    match value {
        Some(v) => bare(text::pieces(v, Sep::Space)),
        None => seq![],
    }
}

/// The identifiers of the messages that the message refers to.
pub fn parse_references(part: &Part) -> (r: Vec<String>)
    ensures
        text::views(r@) == reference_ids(value_of(part@.headers, "References"@)),
{
    let mut r: Vec<String> = Vec::new();
    assert(text::views(r@) =~= seq![]);
    match get_header(part, "References") {
        None => r,
        Some(raw) => {
            let pieces = split(&to_chars(raw.as_str()), Sep::Space);
            let ghost all = text::views(pieces@);
            let mut i: usize = 0;
            assert(text::views(r@) =~= bare(all.take(0)));
            while i < pieces.len()
                invariant
                    i <= pieces.len(),
                    all == text::views(pieces@),
                    text::views(r@) == bare(all.take(i as int)),
                decreases pieces.len() - i,
            {
                proof {
                    assert(all.take(i + 1).drop_last() =~= all.take(i as int));
                }
                if pieces[i].len() > 0 {
                    let id = to_text(&strip_brackets(&pieces[i]));
                    proof {
                        text::views_push(r@, id);
                    }
                    r.push(id);
                }
                i += 1;
            }
            assert(all.take(pieces.len() as int) =~= all);
            r
        },
    }
}

/// The value, or empty text.
pub open spec fn or_empty(o: Option<Seq<char>>) -> Seq<char> {
    match o {
        Some(s) => s,
        None => seq![],
    }
}

fn header_or_empty(part: &Part, name: &str) -> (r: String)
    ensures
        r@ == or_empty(value_of(part@.headers, name@)),
{
    match get_header(part, name) {
        Some(s) => s,
        None => String::new(),
    }
}

/// The message that the parts make up.
pub open spec fn email_of(
    parts: Seq<PartModel>,
    folder: Seq<char>,
    uid: u32,
    flags: Seq<MailFlag<Seq<char>>>,
) -> EmailModel {
    let headers = parts[0].headers;
    Email {
        uid,
        folder,
        message_id: value_of(headers, "Message-ID"@),
        from: or_empty(value_of(headers, "From"@)),
        to: header::addresses(or_empty(value_of(headers, "To"@))),
        cc: header::addresses(or_empty(value_of(headers, "Cc"@))),
        bcc: header::addresses(or_empty(value_of(headers, "Bcc"@))),
        reply_to: value_of(headers, "Reply-To"@),
        date: or_empty(value_of(headers, "Date"@)),
        subject: or_empty(value_of(headers, "Subject"@)),
        body_text: body_at(parts, "text/plain"@, 0),
        body_html: body_at(parts, "text/html"@, 0),
        attachments: attachments_at(parts, 0, seq![]),
        in_reply_to: value_of(headers, "In-Reply-To"@),
        references: reference_ids(value_of(headers, "References"@)),
        flags,
    }
}

/// Puts the message together from its parts.
pub fn build_email(parts: &Vec<Part>, folder: &str, uid: u32, flags: Vec<MailFlag>) -> (r: Email)
    requires
        parts.len() > 0,
        decodable(text::views(parts@)),
    ensures
        r@ == email_of(text::views(parts@), folder@, uid, text::views(flags@)),
{
    let main = &parts[0];
    assert(text::views(parts@)[0] == main@);
    Email {
        uid,
        folder: folder.to_owned(),
        message_id: get_header(main, "Message-ID"),
        from: header_or_empty(main, "From"),
        to: split_addr_list(header_or_empty(main, "To").as_str()),
        cc: split_addr_list(header_or_empty(main, "Cc").as_str()),
        bcc: split_addr_list(header_or_empty(main, "Bcc").as_str()),
        reply_to: get_header(main, "Reply-To"),
        date: header_or_empty(main, "Date"),
        subject: header_or_empty(main, "Subject"),
        body_text: extract_body_text(parts),
        body_html: extract_body_html(parts),
        attachments: extract_attachments(parts),
        in_reply_to: get_header(main, "In-Reply-To"),
        references: parse_references(main),
        flags,
    }
}

/// The message in the bytes, or the error where there is none.
pub open spec fn read_email(
    raw: Seq<u8>,
    folder: Seq<char>,
    uid: u32,
    flags: Seq<MailFlag<Seq<char>>>,
) -> Result<EmailModel, MailError<Seq<char>>> {
    match mail_parts(raw) {
        Ok(parts) => Ok(email_of(parts, folder, uid, flags)),
        Err(e) => Err(MailError::Parse("MIME parse: "@ + e)),
    }
}

/// The model of a message or an error.
pub open spec fn email_view(r: Result<Email, MailError>) -> Result<
    EmailModel,
    MailError<Seq<char>>,
> {
    match r {
        Ok(m) => Ok(m@),
        Err(e) => Err(e@),
    }
}

/// Reads the message in the bytes.
pub fn parse_email(raw: &[u8], folder: &str, uid: u32, flags: Vec<MailFlag>) -> (r: Result<
    Email,
    MailError,
>)
    requires
        raw@.len() <= usize::MAX / 16,
    ensures
        email_view(r) == read_email(raw@, folder@, uid, text::views(flags@)),
{
    match parse_parts(raw) {
        Ok(parts) => Ok(build_email(&parts, folder, uid, flags)),
        Err(e) => {
            let mut m = "MIME parse: ".to_owned();
            m.append(e.as_str());
            Err(MailError::Parse(m))
        },
    }
}

/// The name of every attachment has an extension.
pub proof fn attachment_names_have_extension(parts: Seq<PartModel>, i: int, id: Seq<char>)
    ensures
        forall|j: int|
            0 <= j < attachments_at(parts, i, id).len() ==> (#[trigger] attachments_at(
                parts,
                i,
                id,
            )[j]).filename.contains('.'),
    decreases parts.len() - i, 0int,
{
    if 0 <= i < parts.len() {
        if looked_through(parts[i]) {
            lemma_names_among(parts, i + 1, parts[i].subparts as nat, 0, id);
        } else {
            let name = match given_name(parts[i]) {
                Some(n) => n,
                None => "part_"@ + id,
            };
            if !name.contains('.') {
                reveal_strlit(".");
                let full = with_extension(name, parts[i].mimetype);
                assert(full[name.len() as int] == '.');
            }
        }
    }
}

proof fn lemma_names_among(parts: Seq<PartModel>, i: int, n: nat, k: nat, id: Seq<char>)
    ensures
        forall|j: int|
            0 <= j < attachments_among(parts, i, n, k, id).len() ==> (#[trigger] attachments_among(
                parts,
                i,
                n,
                k,
                id,
            )[j]).filename.contains('.'),
    decreases parts.len() - i, n + 1,
{
    if n > 0 && 0 <= i < parts.len() {
        lemma_part_end(parts, i);
        attachment_names_have_extension(parts, i, child_number(id, k));
        lemma_names_among(parts, part_end(parts, i), (n - 1) as nat, k + 1, id);
        let first = attachments_at(parts, i, child_number(id, k));
        let all = attachments_among(parts, i, n, k, id);
        assert forall|j: int| 0 <= j < all.len() implies (#[trigger] all[j]).filename.contains(
            '.',
        ) by {
            if j < first.len() {
                assert(all[j] == first[j]);
            } else {
                assert(all[j] == attachments_among(
                    parts,
                    part_end(parts, i),
                    (n - 1) as nat,
                    k + 1,
                    id,
                )[j - first.len()]);
            }
        }
    }
}

} // verus!
