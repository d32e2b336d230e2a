//! What is said to an IMAP server, and what is made of its answers.

use vstd::prelude::*;
use vstd::string::*;

use crate::mime;
use crate::number;
use crate::number::decimal_text;
use crate::text;
use crate::text::{concat, join};
use crate::types::{EmailSummary, Folder, MailFlag, SummaryModel};

verus! {

broadcast use vstd::string::group_string_axioms;

/// An attribute of a folder as the server sends it; `T` is text.
#[derive(Clone, Debug, PartialEq, Eq)]
pub enum NameAttribute<T = String> {
    NoInferiors,
    NoSelect,
    Marked,
    Unmarked,
    All,
    Archive,
    Drafts,
    Flagged,
    Junk,
    Sent,
    Trash,
    Extension(T),
    /// Any other attribute, in the notation of its kind.
    Other(T),
}

impl View for NameAttribute<String> {
    type V = NameAttribute<Seq<char>>;

    open spec fn view(&self) -> NameAttribute<Seq<char>> {
        match *self {
            NameAttribute::NoInferiors => NameAttribute::NoInferiors,
            NameAttribute::NoSelect => NameAttribute::NoSelect,
            NameAttribute::Marked => NameAttribute::Marked,
            NameAttribute::Unmarked => NameAttribute::Unmarked,
            NameAttribute::All => NameAttribute::All,
            NameAttribute::Archive => NameAttribute::Archive,
            NameAttribute::Drafts => NameAttribute::Drafts,
            NameAttribute::Flagged => NameAttribute::Flagged,
            NameAttribute::Junk => NameAttribute::Junk,
            NameAttribute::Sent => NameAttribute::Sent,
            NameAttribute::Trash => NameAttribute::Trash,
            NameAttribute::Extension(s) => NameAttribute::Extension(s@),
            NameAttribute::Other(s) => NameAttribute::Other(s@),
        }
    }
}

/// The notation of the attribute in the protocol.
pub open spec fn attribute_text(attr: NameAttribute<Seq<char>>) -> Seq<char> {
    match attr {
        NameAttribute::NoInferiors => "\\NoInferiors"@,
        NameAttribute::NoSelect => "\\NoSelect"@,
        NameAttribute::Marked => "\\Marked"@,
        NameAttribute::Unmarked => "\\Unmarked"@,
        NameAttribute::All => "\\All"@,
        NameAttribute::Archive => "\\Archive"@,
        NameAttribute::Drafts => "\\Drafts"@,
        NameAttribute::Flagged => "\\Flagged"@,
        NameAttribute::Junk => "\\Junk"@,
        NameAttribute::Sent => "\\Sent"@,
        NameAttribute::Trash => "\\Trash"@,
        NameAttribute::Extension(s) => s,
        NameAttribute::Other(s) => s,
    }
}

/// The notation of the attribute in the protocol.
pub fn name_attr_to_string(attr: &NameAttribute) -> (r: String)
    ensures
        r@ == attribute_text(attr@),
{
    match attr {
        NameAttribute::NoInferiors => "\\NoInferiors".to_owned(),
        NameAttribute::NoSelect => "\\NoSelect".to_owned(),
        NameAttribute::Marked => "\\Marked".to_owned(),
        NameAttribute::Unmarked => "\\Unmarked".to_owned(),
        NameAttribute::All => "\\All".to_owned(),
        NameAttribute::Archive => "\\Archive".to_owned(),
        NameAttribute::Drafts => "\\Drafts".to_owned(),
        NameAttribute::Flagged => "\\Flagged".to_owned(),
        NameAttribute::Junk => "\\Junk".to_owned(),
        NameAttribute::Sent => "\\Sent".to_owned(),
        NameAttribute::Trash => "\\Trash".to_owned(),
        NameAttribute::Extension(s) => s.clone(),
        NameAttribute::Other(s) => s.clone(),
    }
}

/// A folder as the server lists it; `T` is text, `A` a list of attributes.
#[derive(Clone, Debug, PartialEq, Eq)]
pub struct ListedFolder<T = String, A = Vec<NameAttribute>> {
    pub name: T,
    pub delimiter: Option<T>,
    pub attributes: A,
}

/// The model of a folder as the server lists it.
pub type ListedFolderModel = ListedFolder<Seq<char>, Seq<NameAttribute<Seq<char>>>>;

/// The model of a folder.
pub type FolderModel = Folder<Seq<char>, Seq<Seq<char>>>;

impl View for ListedFolder<String, Vec<NameAttribute>> {
    type V = ListedFolderModel;

    open spec fn view(&self) -> ListedFolderModel {
        ListedFolder {
            name: self.name@,
            delimiter: text::opt_view(self.delimiter),
            attributes: text::views(self.attributes@),
        }
    }
}

/// The folder, with its attributes as text.
pub open spec fn folder_of(f: ListedFolderModel) -> FolderModel {
    Folder {
        name: f.name,
        delimiter: mime::or_empty(f.delimiter),
        attributes: f.attributes.map_values(|a: NameAttribute<Seq<char>>| attribute_text(a)),
    }
}

/// The folder, with its attributes as text.
pub fn build_folder(f: &ListedFolder) -> (r: Folder)
    ensures
        r@ == folder_of(f@),
{
    let mut attributes: Vec<String> = Vec::new();
    let mut i: usize = 0;
    while i < f.attributes.len()
        invariant
            i <= f.attributes.len(),
            attributes.len() == i,
            forall|j: int|
                0 <= j < i ==> (#[trigger] attributes[j])@ == attribute_text(f.attributes[j]@),
        decreases f.attributes.len() - i,
    {
        attributes.push(name_attr_to_string(&f.attributes[i]));
        i += 1;
    }
    assert(text::views(attributes@) =~= folder_of(f@).attributes);
    Folder {
        name: f.name.clone(),
        delimiter: match &f.delimiter {
            Some(d) => d.clone(),
            None => String::new(),
        },
        attributes,
    }
}

/// The folders, with their attributes as text.
pub open spec fn folders_of(v: Seq<ListedFolderModel>) -> Seq<FolderModel> {
    v.map_values(|f: ListedFolderModel| folder_of(f))
}

/// The folders, with their attributes as text.
pub fn build_folders(v: &Vec<ListedFolder>) -> (r: Vec<Folder>)
    ensures
        text::views(r@) == folders_of(text::views(v@)),
{
    let mut r: Vec<Folder> = Vec::new();
    let mut i: usize = 0;
    while i < v.len()
        invariant
            i <= v.len(),
            r.len() == i,
            forall|j: int| 0 <= j < i ==> (#[trigger] r[j])@ == folder_of(v[j]@),
        decreases v.len() - i,
    {
        r.push(build_folder(&v[i]));
        i += 1;
    }
    assert(text::views(r@) =~= folders_of(text::views(v@)));
    r
}

/// The notation of the flag in the protocol.
pub open spec fn flag_text(flag: MailFlag<Seq<char>>) -> Seq<char> {
    match flag {
        MailFlag::Seen => "\\Seen"@,
        MailFlag::Answered => "\\Answered"@,
        MailFlag::Flagged => "\\Flagged"@,
        MailFlag::Deleted => "\\Deleted"@,
        MailFlag::Draft => "\\Draft"@,
        MailFlag::Recent => "\\Recent"@,
        MailFlag::Custom(s) => s,
    }
}

/// The notation of the flag in the protocol.
pub fn mail_flag_to_imap(flag: &MailFlag) -> (r: String)
    ensures
        r@ == flag_text(flag@),
{
    match flag {
        MailFlag::Seen => "\\Seen".to_owned(),
        MailFlag::Answered => "\\Answered".to_owned(),
        MailFlag::Flagged => "\\Flagged".to_owned(),
        MailFlag::Deleted => "\\Deleted".to_owned(),
        MailFlag::Draft => "\\Draft".to_owned(),
        MailFlag::Recent => "\\Recent".to_owned(),
        MailFlag::Custom(s) => s.clone(),
    }
}

/// The flags in the notation of the protocol, with a space between each two.
pub open spec fn flags_text(flags: Seq<MailFlag<Seq<char>>>) -> Seq<char> {
    text::joined(flags.map_values(|f: MailFlag<Seq<char>>| flag_text(f)), " "@)
}

fn join_flags(flags: &Vec<MailFlag>) -> (r: String)
    ensures
        r@ == flags_text(text::views(flags@)),
{
    let mut parts: Vec<String> = Vec::new();
    let mut i: usize = 0;
    while i < flags.len()
        invariant
            i <= flags.len(),
            parts.len() == i,
            forall|j: int| 0 <= j < i ==> (#[trigger] parts[j])@ == flag_text(flags[j]@),
        decreases flags.len() - i,
    {
        parts.push(mail_flag_to_imap(&flags[i]));
        i += 1;
    }
    assert(text::views(parts@) =~= text::views(flags@).map_values(
        |f: MailFlag<Seq<char>>| flag_text(f),
    ));
    join(&parts, " ")
}

/// The numbers in decimal notation, with a comma between each two.
pub open spec fn uids_text(uids: Seq<u32>) -> Seq<char> {
    text::joined(uids.map_values(|u: u32| number::decimal(u as nat)), ","@)
}

/// The numbers in decimal notation, with a comma between each two.
pub fn join_uids(uids: &[u32]) -> (r: String)
    ensures
        r@ == uids_text(uids@),
{
    let mut parts: Vec<String> = Vec::new();
    let mut i: usize = 0;
    while i < uids.len()
        invariant
            i <= uids.len(),
            parts.len() == i,
            forall|j: int| 0 <= j < i ==> (#[trigger] parts[j])@ == number::decimal(uids[j] as nat),
        decreases uids.len() - i,
    {
        parts.push(decimal_text(uids[i] as u64));
        i += 1;
    }
    assert(text::views(parts@) =~= uids@.map_values(|u: u32| number::decimal(u as nat)));
    join(&parts, ",")
}

/// What changes flags: it adds them or takes them away.
pub open spec fn store_query(adding: bool, flags: Seq<MailFlag<Seq<char>>>) -> Seq<char> {
    (if adding {
        "+FLAGS ("@
    } else {
        "-FLAGS ("@
    }) + flags_text(flags) + ")"@
}

/// What changes flags: it adds them or takes them away.
pub fn build_store_query(adding: bool, flags: &Vec<MailFlag>) -> (r: String)
    ensures
        r@ == store_query(adding, text::views(flags@)),
{
    let mut r = if adding {
        "+FLAGS (".to_owned()
    } else {
        "-FLAGS (".to_owned()
    };
    r.append(join_flags(flags).as_str());
    r.append(")");
    r
}

/// The numbers of the last `count` of `total` messages: from this one to the last.
pub open spec fn latest_sequence(total: u32, count: u32) -> Option<Seq<char>> {
    if total == 0 || count == 0 {
        None
    } else {
        let first = if count < total {
            total - count + 1
        } else {
            1
        };
        Some(number::decimal(first as nat) + ":*"@)
    }
}

/// The numbers of the last `count` of `total` messages, if there are any.
pub fn plan_latest(total: u32, count: u32) -> (r: Option<String>)
    ensures
        text::opt_view(r) == latest_sequence(total, count),
{
    if total == 0 || count == 0 {
        return None;
    }
    let first: u32 = if count < total {
        total - count + 1
    } else {
        1
    };
    Some(concat(decimal_text(first as u64).as_str(), ":*"))
}

/// The identifiers from twice as many before `before_uid` as are wanted, but from one on, up to
/// it.
pub open spec fn before_sequence(before_uid: u32, count: u32) -> Seq<char> {
    let first = if before_uid > count * 2 {
        before_uid - count * 2
    } else {
        1
    };
    number::decimal(first as nat) + ":"@ + number::decimal(before_uid as nat)
}

/// The identifiers to look through for messages before `before_uid`.
pub fn plan_before(before_uid: u32, count: u32) -> (r: String)
    requires
        count * 2 <= u32::MAX,
    ensures
        r@ == before_sequence(before_uid, count),
{
    let first: u32 = if before_uid > count * 2 {
        before_uid - count * 2
    } else {
        1
    };
    let mut r = decimal_text(first as u64);
    r.append(":");
    r.append(decimal_text(before_uid as u64).as_str());
    r
}

/// The identifiers behind `since_uid`.
pub open spec fn new_sequence(since_uid: u32) -> Seq<char> {
    number::decimal((since_uid + 1) as nat) + ":*"@
}

/// The identifiers behind `since_uid`.
pub fn plan_new(since_uid: u32) -> (r: String)
    requires
        since_uid < u32::MAX,
    ensures
        r@ == new_sequence(since_uid),
{
    concat(decimal_text((since_uid + 1) as u64).as_str(), ":*")
}

/// How many summaries from `i` on stand before those whose identifier is not greater.
pub open spec fn place_from(s: Seq<SummaryModel>, uid: u32, i: int) -> int
    decreases s.len() - i,
{
    if i < 0 || i >= s.len() || s[i].uid <= uid {
        i
    } else {
        place_from(s, uid, i + 1)
    }
}

/// The summaries from the greatest identifier to the least; those with equal ones keep their
/// order.
pub open spec fn by_uid_down(s: Seq<SummaryModel>) -> Seq<SummaryModel>
    decreases s.len(),
{
    if s.len() == 0 {
        seq![]
    } else {
        let rest = by_uid_down(s.drop_first());
        rest.insert(place_from(rest, s[0].uid, 0), s[0])
    }
}

/// The summaries whose identifier is less than `limit`, or all of them.
pub open spec fn below(s: Seq<SummaryModel>, limit: Option<u32>) -> Seq<SummaryModel>
    decreases s.len(),
{
    if s.len() == 0 {
        seq![]
    } else {
        let rest = below(s.drop_first(), limit);
        if limit matches Some(n) && s[0].uid >= n {
            rest
        } else {
            seq![s[0]] + rest
        }
    }
}

fn insert_by_uid(v: &mut Vec<EmailSummary>, m: EmailSummary)
    requires
        old(v).len() < usize::MAX,
    ensures
        text::views(final(v)@) == text::views(old(v)@).insert(
            place_from(text::views(old(v)@), m.uid, 0),
            m@,
        ),
        final(v).len() == old(v).len() + 1,
{
    let ghost all = text::views(v@);
    let uid: u32 = m.uid;
    let mut i: usize = 0;
    while i < v.len() && v[i].uid > uid
        invariant
            i <= v.len(),
            all == text::views(v@),
            place_from(all, uid, 0) == place_from(all, uid, i as int),
        decreases v.len() - i,
    {
        assert(all[i as int].uid == v[i as int].uid);
        i += 1;
    }
    proof {
        if i < v.len() {
            assert(all[i as int].uid == v[i as int].uid);
        }
    }
    v.insert(i, m);
    assert(text::views(v@) =~= all.insert(i as int, m@));
}

proof fn lemma_place(s: Seq<SummaryModel>, uid: u32, i: int)
    requires
        0 <= i <= s.len(),
    ensures
        i <= place_from(s, uid, i) <= s.len(),
        forall|j: int| i <= j < place_from(s, uid, i) ==> s[j].uid > uid,
        place_from(s, uid, i) < s.len() ==> s[place_from(s, uid, i)].uid <= uid,
    decreases s.len() - i,
{
    if i < s.len() && s[i].uid > uid {
        lemma_place(s, uid, i + 1);
    }
}

/// Sorts those summaries whose identifier is less than `limit`, if there is one, from the
/// greatest to the least.
pub fn sort_down(mails: Vec<EmailSummary>, limit: Option<u32>) -> (r: Vec<EmailSummary>)
    ensures
        text::views(r@) == by_uid_down(below(text::views(mails@), limit)),
{
    let ghost all = text::views(mails@);
    let mut left = mails;
    let mut r: Vec<EmailSummary> = Vec::new();
    proof {
        assert(all.skip(left.len() as int) =~= seq![]);
        assert(text::views(r@) =~= by_uid_down(below(all.skip(left.len() as int), limit)));
    }
    while left.len() > 0
        invariant
            left.len() <= all.len(),
            all.len() <= usize::MAX,
            r.len() <= all.len() - left.len(),
            text::views(left@) == all.take(left.len() as int),
            text::views(r@) == by_uid_down(below(all.skip(left.len() as int), limit)),
        decreases left.len(),
    {
        let ghost n = left.len() as int;
        let ghost tail = all.skip(n);
        match left.pop() {
            None => {},
            Some(m) => {
                proof {
                    let now = all.skip(n - 1);
                    assert(m@ == all.take(n)[n - 1]);
                    assert(now[0] == m@);
                    assert(now.drop_first() =~= tail);
                    assert(text::views(left@) =~= all.take(n - 1));
                    let kept = seq![m@] + below(tail, limit);
                    assert(kept.drop_first() =~= below(tail, limit));
                }
                let keep = match limit {
                    Some(top) => m.uid < top,
                    None => true,
                };
                if keep {
                    insert_by_uid(&mut r, m);
                }
            },
        }
    }
    assert(all.skip(0) =~= all);
    r
}

/// The summaries with this identifier, in their order.
pub open spec fn with_uid(s: Seq<SummaryModel>, uid: u32) -> Seq<SummaryModel>
    decreases s.len(),
{
    if s.len() == 0 {
        seq![]
    } else if s[0].uid == uid {
        seq![s[0]] + with_uid(s.drop_first(), uid)
    } else {
        with_uid(s.drop_first(), uid)
    }
}

/// Whether the identifiers go from the greatest to the least.
pub open spec fn goes_down(s: Seq<SummaryModel>) -> bool {
    forall|i: int, j: int| 0 <= i <= j < s.len() ==> s[i].uid >= s[j].uid
}

/// Sorting puts the identifiers in order, loses and adds nothing, and keeps the order of
/// summaries with equal identifiers.
pub proof fn sorted_by_uid(s: Seq<SummaryModel>, uid: u32)
    ensures
        goes_down(by_uid_down(s)),
        by_uid_down(s).len() == s.len(),
        with_uid(by_uid_down(s), uid) == with_uid(s, uid),
    decreases s.len(),
{
    if s.len() > 0 {
        let rest = by_uid_down(s.drop_first());
        sorted_by_uid(s.drop_first(), uid);
        let p = place_from(rest, s[0].uid, 0);
        lemma_place(rest, s[0].uid, 0);
        let out = rest.insert(p, s[0]);
        assert(goes_down(out)) by {
            assert forall|i: int, j: int| 0 <= i <= j < out.len() implies out[i].uid
                >= out[j].uid by {
                assert(out[i] == if i < p {
                    rest[i]
                } else if i == p {
                    s[0]
                } else {
                    rest[i - 1]
                });
                assert(out[j] == if j < p {
                    rest[j]
                } else if j == p {
                    s[0]
                } else {
                    rest[j - 1]
                });
                if p < rest.len() {
                    assert(rest[p].uid <= s[0].uid);
                }
            }
        }
        lemma_with_uid_insert(rest, p, s[0], uid);
    }
}

proof fn lemma_with_uid_insert(s: Seq<SummaryModel>, p: int, m: SummaryModel, uid: u32)
    requires
        0 <= p <= s.len(),
        forall|j: int| 0 <= j < p ==> s[j].uid != m.uid,
    ensures
        with_uid(s.insert(p, m), uid) == if m.uid == uid {
            seq![m] + with_uid(s, uid)
        } else {
            with_uid(s, uid)
        },
    decreases s.len(),
{
    let out = s.insert(p, m);
    if p == 0 {
        assert(out.drop_first() =~= s);
        assert(out[0] == m);
    } else {
        assert(out[0] == s[0]);
        assert(out.drop_first() =~= s.drop_first().insert(p - 1, m));
        lemma_with_uid_insert(s.drop_first(), p - 1, m, uid);
    }
}

/// The summaries before `before_uid`, from the greatest identifier down, at most `count`.
pub open spec fn newest_before(s: Seq<SummaryModel>, before_uid: u32, count: u32) -> Seq<
    SummaryModel,
> {
    let sorted = by_uid_down(below(s, Some(before_uid)));
    if sorted.len() <= count {
        sorted
    } else {
        sorted.take(count as int)
    }
}

/// The summaries before `before_uid`, from the greatest identifier down, at most `count`.
pub fn keep_before(mails: Vec<EmailSummary>, before_uid: u32, count: u32) -> (r: Vec<EmailSummary>)
    ensures
        text::views(r@) == newest_before(text::views(mails@), before_uid, count),
{
    let mut r = sort_down(mails, Some(before_uid));
    let ghost all = r@;
    if r.len() as u64 > count as u64 {
        r.truncate(count as usize);
        assert(text::views(r@) =~= text::views(all).take(count as int));
    }
    r
}

proof fn lemma_below(s: Seq<SummaryModel>, limit: u32)
    ensures
        forall|i: int|
            0 <= i < below(s, Some(limit)).len() ==> (#[trigger] below(s, Some(limit))[i]).uid
                < limit,
    decreases s.len(),
{
    if s.len() > 0 {
        lemma_below(s.drop_first(), limit);
        let rest = below(s.drop_first(), Some(limit));
        let all = below(s, Some(limit));
        assert forall|i: int| 0 <= i < all.len() implies (#[trigger] all[i]).uid < limit by {
            if s[0].uid < limit {
                if i > 0 {
                    assert(all[i] == rest[i - 1]);
                }
            } else {
                assert(all[i] == rest[i]);
            }
        }
    }
}

proof fn lemma_sorted_members(s: Seq<SummaryModel>, limit: u32)
    requires
        forall|i: int| 0 <= i < s.len() ==> (#[trigger] s[i]).uid < limit,
    ensures
        forall|i: int|
            0 <= i < by_uid_down(s).len() ==> (#[trigger] by_uid_down(s)[i]).uid < limit,
    decreases s.len(),
{
    if s.len() > 0 {
        let tail = s.drop_first();
        assert forall|i: int| 0 <= i < tail.len() implies (#[trigger] tail[i]).uid < limit by {
            assert(tail[i] == s[i + 1]);
        }
        lemma_sorted_members(tail, limit);
        let rest = by_uid_down(tail);
        let p = place_from(rest, s[0].uid, 0);
        lemma_place(rest, s[0].uid, 0);
        let out = by_uid_down(s);
        assert forall|i: int| 0 <= i < out.len() implies (#[trigger] out[i]).uid < limit by {
            if i < p {
                assert(out[i] == rest[i]);
            } else if i > p {
                assert(out[i] == rest[i - 1]);
            }
        }
    }
}

/// What is fetched before a message are at most as many as wanted, all before it, from the
/// newest down.
pub proof fn newest_before_bounds(s: Seq<SummaryModel>, before_uid: u32, count: u32)
    ensures
        newest_before(s, before_uid, count).len() <= count,
        goes_down(newest_before(s, before_uid, count)),
        forall|i: int|
            0 <= i < newest_before(s, before_uid, count).len() ==> (#[trigger] newest_before(
                s,
                before_uid,
                count,
            )[i]).uid < before_uid,
{
    let kept = below(s, Some(before_uid));
    lemma_below(s, before_uid);
    lemma_sorted_members(kept, before_uid);
    sorted_by_uid(kept, 0);
}

} // verus!
