//! Summaries of messages, from what a mail server sends when messages are listed.

use vstd::prelude::*;
use vstd::string::*;

use crate::header;
use crate::header::{decode_mime_header, parse_header_field, try_decode_mime_header};
use crate::mime;
use crate::text;
use crate::text::{bytes_to_string, join};
use crate::types::{EmailSummary, MailFlag, SummaryModel};

verus! {

broadcast use vstd::string::group_string_axioms;

/// A flag as the server sends it; `T` is text.
#[derive(Clone, Debug, PartialEq, Eq)]
pub enum ServerFlag<T = String> {
    Seen,
    Answered,
    Flagged,
    Deleted,
    Draft,
    Recent,
    /// New flags may be made.
    MayCreate,
    Custom(T),
}

impl View for ServerFlag<String> {
    type V = ServerFlag<Seq<char>>;

    open spec fn view(&self) -> ServerFlag<Seq<char>> {
        match *self {
            ServerFlag::Seen => ServerFlag::Seen,
            ServerFlag::Answered => ServerFlag::Answered,
            ServerFlag::Flagged => ServerFlag::Flagged,
            ServerFlag::Deleted => ServerFlag::Deleted,
            ServerFlag::Draft => ServerFlag::Draft,
            ServerFlag::Recent => ServerFlag::Recent,
            ServerFlag::MayCreate => ServerFlag::MayCreate,
            ServerFlag::Custom(s) => ServerFlag::Custom(s@),
        }
    }
}

/// The flag of the message that the server's flag stands for.
pub open spec fn flag_of(flag: ServerFlag<Seq<char>>) -> MailFlag<Seq<char>> {
    match flag {
        ServerFlag::Seen => MailFlag::Seen,
        ServerFlag::Answered => MailFlag::Answered,
        ServerFlag::Flagged => MailFlag::Flagged,
        ServerFlag::Deleted => MailFlag::Deleted,
        ServerFlag::Draft => MailFlag::Draft,
        ServerFlag::Recent => MailFlag::Recent,
        ServerFlag::MayCreate => MailFlag::Custom("\\*"@),
        ServerFlag::Custom(s) => MailFlag::Custom(s),
    }
}

/// The flag of the message that the server's flag stands for.
pub fn parse_flag(flag: &ServerFlag) -> (r: MailFlag)
    ensures
        r@ == flag_of(flag@),
{
    match flag {
        ServerFlag::Seen => MailFlag::Seen,
        ServerFlag::Answered => MailFlag::Answered,
        ServerFlag::Flagged => MailFlag::Flagged,
        ServerFlag::Deleted => MailFlag::Deleted,
        ServerFlag::Draft => MailFlag::Draft,
        ServerFlag::Recent => MailFlag::Recent,
        ServerFlag::MayCreate => MailFlag::Custom("\\*".to_owned()),
        ServerFlag::Custom(s) => MailFlag::Custom(s.clone()),
    }
}

/// The flags of the message that the server's flags stand for.
pub open spec fn flags_of(flags: Seq<ServerFlag<Seq<char>>>) -> Seq<MailFlag<Seq<char>>> {
    flags.map_values(|f: ServerFlag<Seq<char>>| flag_of(f))
}

/// The flags of the message that the server's flags stand for.
pub fn parse_flags(flags: &Vec<ServerFlag>) -> (r: Vec<MailFlag>)
    ensures
        text::views(r@) == flags_of(text::views(flags@)),
{
    let mut r: Vec<MailFlag> = Vec::new();
    let mut i: usize = 0;
    while i < flags.len()
        invariant
            i <= flags.len(),
            r.len() == i,
            forall|j: int| 0 <= j < i ==> (#[trigger] r[j])@ == flag_of(flags[j]@),
        decreases flags.len() - i,
    {
        r.push(parse_flag(&flags[i]));
        i += 1;
    }
    assert(text::views(r@) =~= flags_of(text::views(flags@)));
    r
}

/// An address of an envelope; `B` is bytes.
#[derive(Clone, Debug, PartialEq, Eq)]
pub struct Address<B = Vec<u8>> {
    pub name: Option<B>,
    pub mailbox: Option<B>,
    pub host: Option<B>,
}

impl View for Address<Vec<u8>> {
    type V = Address<Seq<u8>>;

    open spec fn view(&self) -> Address<Seq<u8>> {
        Address {
            name: text::opt_view(self.name),
            mailbox: text::opt_view(self.mailbox),
            host: text::opt_view(self.host),
        }
    }
}

/// The envelope of a message; `B` is bytes, `L` a list of addresses.
#[derive(Clone, Debug, PartialEq, Eq)]
pub struct Envelope<B = Vec<u8>, L = Vec<Address>> {
    pub date: Option<B>,
    pub subject: Option<B>,
    pub from: Option<L>,
    pub to: Option<L>,
    pub cc: Option<L>,
    pub message_id: Option<B>,
}

/// The views of an optional list.
pub open spec fn opt_views(o: Option<Vec<Address>>) -> Option<Seq<Address<Seq<u8>>>> {
    match o {
        Some(v) => Some(text::views(v@)),
        None => None,
    }
}

impl View for Envelope<Vec<u8>, Vec<Address>> {
    type V = Envelope<Seq<u8>, Seq<Address<Seq<u8>>>>;

    open spec fn view(&self) -> Envelope<Seq<u8>, Seq<Address<Seq<u8>>>> {
        Envelope {
            date: text::opt_view(self.date),
            subject: text::opt_view(self.subject),
            from: opt_views(self.from),
            to: opt_views(self.to),
            cc: opt_views(self.cc),
            message_id: text::opt_view(self.message_id),
        }
    }
}

/// What the server sends of one message when messages are listed; `B` is bytes, `E` an envelope,
/// `F` a list of flags.
#[derive(Clone, Debug, PartialEq, Eq)]
pub struct Listed<B = Vec<u8>, E = Envelope, F = Vec<ServerFlag>> {
    pub uid: Option<u32>,
    pub size: Option<u32>,
    pub flags: F,
    pub envelope: Option<E>,
    /// The header block, where the header fields were asked for.
    pub header: Option<B>,
}

/// The model of what the server sends of one message.
pub type ListedModel = Listed<
    Seq<u8>,
    Envelope<Seq<u8>, Seq<Address<Seq<u8>>>>,
    Seq<ServerFlag<Seq<char>>>,
>;

impl View for Listed<Vec<u8>, Envelope, Vec<ServerFlag>> {
    type V = ListedModel;

    open spec fn view(&self) -> ListedModel {
        Listed {
            uid: self.uid,
            size: self.size,
            flags: text::views(self.flags@),
            envelope: text::opt_view(self.envelope),
            header: text::opt_view(self.header),
        }
    }
}

/// The bytes as text, or empty text where there are none.
pub open spec fn text_or_empty(b: Option<Seq<u8>>) -> Seq<char> {
    match b {
        Some(b) => text::utf8_lossy(b),
        None => seq![],
    }
}

fn read_or_empty(b: &Option<Vec<u8>>) -> (r: String)
    ensures
        r@ == text_or_empty(text::opt_view(*b)),
{
    match b {
        Some(b) => bytes_to_string(b.as_slice()),
        None => String::new(),
    }
}

/// The bytes as text.
pub open spec fn text_of(b: Option<Seq<u8>>) -> Option<Seq<char>> {
    match b {
        Some(b) => Some(text::utf8_lossy(b)),
        None => None,
    }
}

fn read_text(b: &Option<Vec<u8>>) -> (r: Option<String>)
    ensures
        text::opt_view(r) == text_of(text::opt_view(*b)),
{
    match b {
        Some(b) => Some(bytes_to_string(b.as_slice())),
        None => None,
    }
}

/// Whether the bytes are few enough to be read as a header text.
pub open spec fn short(b: Option<Seq<u8>>) -> bool {
    b matches Some(b) ==> b.len() <= usize::MAX / 24
}

/// Whether the bytes are a header text of which no encoded word is broken.
pub open spec fn sound_header(b: Option<Seq<u8>>) -> bool {
    b matches Some(b) ==> header::decoded_header(text::utf8_lossy(b)) is Some
}

/// The bytes as header text with its encoded words decoded.
pub open spec fn header_of(b: Option<Seq<u8>>) -> Option<Seq<char>> {
    match b {
        Some(b) => header::decoded_header(text::utf8_lossy(b)),
        None => None,
    }
}

fn read_header(b: &Option<Vec<u8>>) -> (r: Option<String>)
    requires
        short(text::opt_view(*b)),
        sound_header(text::opt_view(*b)),
    ensures
        text::opt_view(r) == header_of(text::opt_view(*b)),
{
    match b {
        Some(b) => Some(decode_mime_header(bytes_to_string(b.as_slice()).as_str())),
        None => None,
    }
}

fn is_sound_header(b: &Option<Vec<u8>>) -> (r: bool)
    requires
        short(text::opt_view(*b)),
    ensures
        r == sound_header(text::opt_view(*b)),
{
    match b {
        Some(b) => try_decode_mime_header(bytes_to_string(b.as_slice()).as_str()).is_some(),
        None => true,
    }
}

/// An address as text: `name <mailbox@host>`, without the name where there is none, or the name
/// alone where the mailbox or the host is missing.
pub open spec fn address_text(a: Address<Seq<u8>>) -> Seq<char> {
    let name = mime::or_empty(header_of(a.name));
    let mailbox = text_or_empty(a.mailbox);
    let host = text_or_empty(a.host);
    if mailbox.len() > 0 && host.len() > 0 {
        if name.len() > 0 {
            name + " <"@ + mailbox + "@"@ + host + ">"@
        } else {
            mailbox + "@"@ + host
        }
    } else {
        name
    }
}

/// An address as text.
pub fn format_addr(a: &Address) -> (r: String)
    requires
        short(a@.name),
        sound_header(a@.name),
    ensures
        r@ == address_text(a@),
{
    let name = match read_header(&a.name) {
        Some(n) => n,
        None => String::new(),
    };
    let mailbox = read_or_empty(&a.mailbox);
    let host = read_or_empty(&a.host);
    if !mailbox.as_str().is_empty() && !host.as_str().is_empty() {
        if !name.as_str().is_empty() {
            let mut r = name;
            r.append(" <");
            r.append(mailbox.as_str());
            r.append("@");
            r.append(host.as_str());
            r.append(">");
            r
        } else {
            let mut r = mailbox;
            r.append("@");
            r.append(host.as_str());
            r
        }
    } else {
        name
    }
}

/// Whether every name of the addresses is a header text that can be read.
pub open spec fn sound_list(list: Option<Seq<Address<Seq<u8>>>>) -> bool {
    list matches Some(l) ==> forall|i: int| 0 <= i < l.len() ==> sound_header((#[trigger] l[i]).name)
}

/// Whether every name of the addresses is short enough to be read.
pub open spec fn short_list(list: Option<Seq<Address<Seq<u8>>>>) -> bool {
    list matches Some(l) ==> forall|i: int| 0 <= i < l.len() ==> short((#[trigger] l[i]).name)
}

/// The addresses as text, with a comma and a space between each two.
pub open spec fn list_text(list: Seq<Address<Seq<u8>>>) -> Seq<char> {
    text::joined(list.map_values(|a: Address<Seq<u8>>| address_text(a)), ", "@)
}

fn format_list(list: &Vec<Address>) -> (r: String)
    requires
        short_list(Some(text::views(list@))),
        sound_list(Some(text::views(list@))),
    ensures
        r@ == list_text(text::views(list@)),
{
    let ghost all = text::views(list@);
    let mut parts: Vec<String> = Vec::new();
    let mut i: usize = 0;
    while i < list.len()
        invariant
            i <= list.len(),
            all == text::views(list@),
            short_list(Some(all)),
            sound_list(Some(all)),
            parts.len() == i,
            forall|j: int| 0 <= j < i ==> (#[trigger] parts[j])@ == address_text(all[j]),
        decreases list.len() - i,
    {
        assert(all[i as int] == list[i as int]@);
        parts.push(format_addr(&list[i]));
        i += 1;
    }
    assert(text::views(parts@) =~= all.map_values(|a: Address<Seq<u8>>| address_text(a)));
    join(&parts, ", ")
}

fn is_sound_list(list: &Option<Vec<Address>>) -> (r: bool)
    requires
        short_list(opt_views(*list)),
    ensures
        r == sound_list(opt_views(*list)),
{
    match list {
        None => true,
        Some(l) => {
            let ghost all = text::views(l@);
            let mut i: usize = 0;
            while i < l.len()
                invariant
                    i <= l.len(),
                    all == text::views(l@),
                    opt_views(*list) == Some(all),
                    short_list(Some(all)),
                    forall|j: int| 0 <= j < i ==> sound_header((#[trigger] all[j]).name),
                decreases l.len() - i,
            {
                assert(all[i as int] == l[i as int]@);
                if !is_sound_header(&l[i].name) {
                    return false;
                }
                i += 1;
            }
            true
        },
    }
}

/// The addresses as text, if there are any and the text is not empty.
pub open spec fn filled_list(list: Option<Seq<Address<Seq<u8>>>>) -> Option<Seq<char>> {
    match list {
        Some(l) => if list_text(l).len() == 0 {
            None
        } else {
            Some(list_text(l))
        },
        None => None,
    }
}

/// The addresses as text, if there are any.
pub open spec fn given_list(list: Option<Seq<Address<Seq<u8>>>>) -> Option<Seq<char>> {
    match list {
        Some(l) => if l.len() == 0 {
            None
        } else {
            Some(list_text(l))
        },
        None => None,
    }
}

fn read_filled_list(list: &Option<Vec<Address>>) -> (r: Option<String>)
    requires
        short_list(opt_views(*list)),
        sound_list(opt_views(*list)),
    ensures
        text::opt_view(r) == filled_list(opt_views(*list)),
{
    match list {
        Some(l) => {
            let s = format_list(l);
            if s.as_str().is_empty() {
                None
            } else {
                Some(s)
            }
        },
        None => None,
    }
}

/// The model of an optional envelope's part.
pub open spec fn from_list(e: Option<Envelope<Seq<u8>, Seq<Address<Seq<u8>>>>>) -> Option<
    Seq<Address<Seq<u8>>>,
> {
    match e {
        Some(e) => e.from,
        None => None,
    }
}

/// The model of an optional envelope's part.
pub open spec fn to_list(e: Option<Envelope<Seq<u8>, Seq<Address<Seq<u8>>>>>) -> Option<
    Seq<Address<Seq<u8>>>,
> {
    match e {
        Some(e) => e.to,
        None => None,
    }
}

/// The model of an optional envelope's part.
pub open spec fn cc_list(e: Option<Envelope<Seq<u8>, Seq<Address<Seq<u8>>>>>) -> Option<
    Seq<Address<Seq<u8>>>,
> {
    match e {
        Some(e) => e.cc,
        None => None,
    }
}

/// The senders that the envelope gives.
pub fn envelope_from(envelope: &Option<Envelope>) -> (r: Option<String>)
    requires
        short_list(from_list(text::opt_view(*envelope))),
        sound_list(from_list(text::opt_view(*envelope))),
    ensures
        text::opt_view(r) == filled_list(from_list(text::opt_view(*envelope))),
{
    match envelope {
        Some(e) => read_filled_list(&e.from),
        None => None,
    }
}

/// The recipients that the envelope gives.
pub fn envelope_to(envelope: &Option<Envelope>) -> (r: Option<String>)
    requires
        short_list(to_list(text::opt_view(*envelope))),
        sound_list(to_list(text::opt_view(*envelope))),
    ensures
        text::opt_view(r) == filled_list(to_list(text::opt_view(*envelope))),
{
    match envelope {
        Some(e) => read_filled_list(&e.to),
        None => None,
    }
}

/// The recipients of copies that the envelope gives.
pub fn envelope_cc(envelope: &Option<Envelope>) -> (r: Option<String>)
    requires
        short_list(cc_list(text::opt_view(*envelope))),
        sound_list(cc_list(text::opt_view(*envelope))),
    ensures
        text::opt_view(r) == given_list(cc_list(text::opt_view(*envelope))),
{
    match envelope {
        Some(e) => match &e.cc {
            Some(l) => if l.len() == 0 {
                None
            } else {
                Some(format_list(l))
            },
            None => None,
        },
        None => None,
    }
}

/// Whether the header texts of the envelope can be read.
pub open spec fn sound(item: ListedModel) -> bool {
    item.envelope matches Some(e) ==> sound_header(e.subject) && sound_list(e.from) && sound_list(
        e.to,
    ) && sound_list(e.cc)
}

/// Whether the header texts of the envelope are short enough to be read.
pub open spec fn brief(item: ListedModel) -> bool {
    item.envelope matches Some(e) ==> short(e.subject) && short_list(e.from) && short_list(e.to)
        && short_list(e.cc)
}

/// The first of the two, or else the field of this name of the header block.
pub open spec fn or_field(
    first: Option<Seq<char>>,
    header: Option<Seq<char>>,
    name: Seq<char>,
) -> Option<Seq<char>> {
    match first {
        Some(s) => Some(s),
        None => header::field_value(header, name),
    }
}

fn or_header_field(first: Option<String>, header: &Option<String>, name: &str) -> (r: Option<
    String,
>)
    ensures
        text::opt_view(r) == or_field(text::opt_view(first), text::opt_view(*header), name@),
{
    match first {
        Some(s) => Some(s),
        None => parse_header_field(header, name),
    }
}

fn or_header_field_or_empty(first: Option<String>, header: &Option<String>, name: &str) -> (r:
    String)
    ensures
        r@ == mime::or_empty(or_field(text::opt_view(first), text::opt_view(*header), name@)),
{
    match or_header_field(first, header, name) {
        Some(s) => s,
        None => String::new(),
    }
}

/// The summary of the message: from the envelope where it says something, else from the header
/// block.
pub open spec fn summary_of(item: ListedModel) -> SummaryModel {
    let header = text_of(item.header);
    let env = item.envelope;
    let subject = match env {
        Some(e) => header_of(e.subject),
        None => None,
    };
    let message_id = match env {
        Some(e) => text_of(e.message_id),
        None => None,
    };
    let date = match env {
        Some(e) => text_of(e.date),
        None => None,
    };
    EmailSummary {
        uid: match item.uid {
            Some(n) => n,
            None => 0,
        },
        message_id: or_field(message_id, header, "message-id"@),
        from: mime::or_empty(or_field(filled_list(from_list(env)), header, "from"@)),
        to: mime::or_empty(or_field(filled_list(to_list(env)), header, "to"@)),
        cc: or_field(given_list(cc_list(env)), header, "cc"@),
        subject: mime::or_empty(or_field(subject, header, "subject"@)),
        date: mime::or_empty(or_field(date, header, "date"@)),
        size: match item.size {
            Some(n) => n as u64,
            None => 0,
        },
        flags: flags_of(item.flags),
        has_attachments: false,
    }
}

/// The summary of the message.
pub fn build_summary(item: &Listed) -> (r: EmailSummary)
    requires
        brief(item@),
        sound(item@),
    ensures
        r@ == summary_of(item@),
{
    let header = read_text(&item.header);
    let envelope = &item.envelope;
    let (message_id, subject, date) = match envelope {
        Some(e) => (read_text(&e.message_id), read_header(&e.subject), read_text(&e.date)),
        None => (None, None, None),
    };
    EmailSummary {
        uid: match item.uid {
            Some(n) => n,
            None => 0,
        },
        message_id: or_header_field(message_id, &header, "message-id"),
        from: or_header_field_or_empty(envelope_from(envelope), &header, "from"),
        to: or_header_field_or_empty(envelope_to(envelope), &header, "to"),
        cc: or_header_field(envelope_cc(envelope), &header, "cc"),
        subject: or_header_field_or_empty(subject, &header, "subject"),
        date: or_header_field_or_empty(date, &header, "date"),
        size: match item.size {
            Some(n) => n as u64,
            None => 0,
        },
        flags: parse_flags(&item.flags),
        has_attachments: false,
    }
}

/// The summary of the message, or nothing where a header text of the envelope cannot be read.
pub fn try_build_summary(item: &Listed) -> (r: Option<EmailSummary>)
    requires
        brief(item@),
    ensures
        match r {
            Some(s) => sound(item@) && s@ == summary_of(item@),
            None => !sound(item@),
        },
{
    if let Some(e) = &item.envelope {
        if !is_sound_header(&e.subject) || !is_sound_list(&e.from) || !is_sound_list(&e.to)
            || !is_sound_list(&e.cc) {
            return None;
        }
    }
    Some(build_summary(item))
}

} // verus!
