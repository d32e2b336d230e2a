//! What a request to the server is for: the folder in which its work is done, the messages that it
//! names, and what it asks to be done with them.

use vstd::prelude::*;

use crate::client;
use crate::client::{
    ClientModel, Command, FetchedModel, First, Next, NextModel, Outcome, Query,
    Request, RequestModel, Streamed,
};
use crate::imap;
use crate::imap::{ListedFolderModel, NameAttribute};
use crate::mime;
use crate::number;
use crate::number::NumberError;
use crate::summary;
use crate::summary::ServerFlag;
use crate::text;
use crate::text::Sep;
use crate::types::{MailError, MailFlag, SummaryModel};

verus! {

broadcast use vstd::string::group_string_axioms;

/// The work of a request is done in the folder that the request names first, whatever the server
/// said before: messages are listed, read, marked, moved and copied from there.
pub proof fn work_is_done_in_its_folder(
    f: Seq<char>,
    other: Seq<char>,
    uid: u32,
    count: u32,
    uids: Seq<u32>,
    flags: Seq<MailFlag<Seq<char>>>,
    encoding: Option<Seq<char>>,
    said: Result<(), Seq<char>>,
)
    ensures
        client::noop_next(Request::Latest(f, count), said) == NextModel::Send(Command::Select(f)),
        client::noop_next(Request::Before(f, uid, count), said) == NextModel::Send(Command::Select(f)),
        client::noop_next(Request::Since(f, uid), said) == NextModel::Send(Command::Select(f)),
        client::noop_next(Request::Message(f, uid), said) == NextModel::Send(Command::Select(f)),
        client::noop_next(Request::Attachment(f, uid, other, encoding), said) == NextModel::Send(
            Command::Select(f),
        ),
        client::noop_next(Request::AddFlags(f, uids, flags), said) == NextModel::Send(
            Command::Select(f),
        ),
        client::noop_next(Request::RemoveFlags(f, uids, flags), said) == NextModel::Send(
            Command::Select(f),
        ),
        client::noop_next(Request::Move(f, other, uids), said) == NextModel::Send(Command::Select(f)),
        client::noop_next(Request::Copy(f, other, uids), said) == NextModel::Send(Command::Select(f)),
{
}

/// Where the folder of a request cannot be selected, the request fails, and the error names the
/// folder and the reason.
pub proof fn missing_folder_is_named(
    f: Seq<char>,
    other: Seq<char>,
    uid: u32,
    count: u32,
    uids: Seq<u32>,
    flags: Seq<MailFlag<Seq<char>>>,
    encoding: Option<Seq<char>>,
    e: Seq<char>,
)
    ensures
        ({
            let failed: NextModel = Next::Fail(
                MailError::FolderNotFound("select '"@ + f + "': "@ + e),
            );
            &&& client::select_next(Request::Latest(f, count), Err(e)) == failed
            &&& client::select_next(Request::Before(f, uid, count), Err(e)) == failed
            &&& client::select_next(Request::Since(f, uid), Err(e)) == failed
            &&& client::select_next(Request::Message(f, uid), Err(e)) == failed
            &&& client::select_next(Request::Attachment(f, uid, other, encoding), Err(e)) == failed
            &&& client::select_next(Request::AddFlags(f, uids, flags), Err(e)) == failed
            &&& client::select_next(Request::RemoveFlags(f, uids, flags), Err(e)) == failed
            &&& client::select_next(Request::Move(f, other, uids), Err(e)) == failed
            &&& client::select_next(Request::Copy(f, other, uids), Err(e)) == failed
        }),
{
}

/// Whether the text names these messages and no others: their identifiers in decimal notation, in
/// their order, with commas between them.
pub open spec fn names_messages(s: Seq<char>, uids: Seq<u32>) -> bool {
    let words = text::pieces(s, Sep::Char(','));
    &&& uids.len() == 0 ==> s.len() == 0
    &&& uids.len() > 0 ==> words.len() == uids.len()
    &&& uids.len() > 0 ==> forall|i: int|
        0 <= i < uids.len() ==> number::number_of(#[trigger] words[i], 10, u32::MAX as int) == Ok::<
            int,
            NumberError,
        >(uids[i] as int)
}

proof fn lemma_names(uids: Seq<u32>)
    ensures
        names_messages(imap::uids_text(uids), uids),
{
    reveal_strlit(",");
    assert(","@ =~= seq![',']);
    let words = uids.map_values(|u: u32| number::decimal(u as nat));
    if uids.len() > 0 {
        assert forall|k: int| 0 <= k < words.len() implies text::unparted(
            #[trigger] words[k],
            Sep::Char(','),
        ) by {
            number::decimal_digits(uids[k] as nat);
        }
        text::joined_parts(words, ',', Sep::Char(','));
        assert forall|i: int| 0 <= i < uids.len() implies number::number_of(
            #[trigger] words[i],
            10,
            u32::MAX as int,
        ) == Ok::<int, NumberError>(uids[i] as int) by {
            number::decimal_reads_back(uids[i] as nat, u32::MAX as int);
        }
    }
}

/// Messages that are to be moved or copied go to the other folder: the command behind the
/// selection names it, and the messages that were asked for.
pub proof fn messages_go_to_the_other_folder(
    from: Seq<char>,
    to: Seq<char>,
    uids: Seq<u32>,
    total: u32,
)
    ensures
        client::select_next(Request::Move(from, to, uids), Ok(total)) matches Next::Send(
            Command::Move { uids: named, folder },
        ) && folder == to && names_messages(named, uids),
        client::select_next(Request::Copy(from, to, uids), Ok(total)) matches Next::Send(
            Command::Copy { uids: named, folder },
        ) && folder == to && names_messages(named, uids),
{
    lemma_names(uids);
}

/// Whether the text is the notation of this flag in the protocol.
pub open spec fn writes_flag(s: Seq<char>, flag: MailFlag<Seq<char>>) -> bool {
    &&& flag is Seen ==> s == "\\Seen"@
    &&& flag is Answered ==> s == "\\Answered"@
    &&& flag is Flagged ==> s == "\\Flagged"@
    &&& flag is Deleted ==> s == "\\Deleted"@
    &&& flag is Draft ==> s == "\\Draft"@
    &&& flag is Recent ==> s == "\\Recent"@
    &&& flag matches MailFlag::Custom(name) ==> s == name
}

/// Whether a change of flags begins with this sign and is one of these flags, in their order.
pub open spec fn changes_flags(
    query: Seq<char>,
    sign: char,
    flags: Seq<MailFlag<Seq<char>>>,
) -> bool {
    &&& query.len() >= 9
    &&& query[0] == sign
    &&& query.subrange(1, 8) == "FLAGS ("@
    &&& query.last() == ')'
    &&& exists|words: Seq<Seq<char>>|
        words.len() == flags.len() && query.subrange(8, query.len() - 1) == #[trigger] text::joined(
            words,
            " "@,
        ) && forall|i: int| 0 <= i < words.len() ==> writes_flag(#[trigger] words[i], flags[i])
}

proof fn lemma_changes(adding: bool, flags: Seq<MailFlag<Seq<char>>>)
    ensures
        changes_flags(
            imap::store_query(adding, flags),
            if adding {
                '+'
            } else {
                '-'
            },
            flags,
        ),
{
    reveal_strlit("+FLAGS (");
    reveal_strlit("-FLAGS (");
    reveal_strlit("FLAGS (");
    reveal_strlit(")");
    let query = imap::store_query(adding, flags);
    let words = flags.map_values(|f: MailFlag<Seq<char>>| imap::flag_text(f));
    let inside = text::joined(words, " "@);
    assert(query.subrange(1, 8) =~= "FLAGS ("@);
    assert(query.subrange(8, query.len() - 1) =~= inside);
    assert forall|i: int| 0 <= i < words.len() implies writes_flag(#[trigger] words[i], flags[i]) by {
        assert(words[i] == imap::flag_text(flags[i]));
    }
}

/// To add flags adds them, and to remove them takes them away: the command has a plus sign in the
/// one case and a minus sign in the other, and it is of the messages and the flags that were asked
/// for.
pub proof fn flags_are_added_and_removed(
    f: Seq<char>,
    uids: Seq<u32>,
    flags: Seq<MailFlag<Seq<char>>>,
    total: u32,
)
    ensures
        client::select_next(Request::AddFlags(f, uids, flags), Ok(total)) matches Next::Send(
            Command::Store { uids: named, query },
        ) && names_messages(named, uids) && changes_flags(query, '+', flags),
        client::select_next(Request::RemoveFlags(f, uids, flags), Ok(total)) matches Next::Send(
            Command::Store { uids: named, query },
        ) && names_messages(named, uids) && changes_flags(query, '-', flags),
{
    lemma_names(uids);
    lemma_changes(true, flags);
    lemma_changes(false, flags);
}

/// What a request that selects no folder begins with, where there is a session: the command of its
/// own name, with the names that the request gives in their order.
pub proof fn folders_are_managed_by_name(
    client: ClientModel,
    a: Seq<char>,
    b: Seq<char>,
)
    requires
        client.session,
    ensures
        client::begun(client, Request::ListFolders) == NextModel::Send(Command::List),
        client::begun(client, Request::CreateFolder(a)) == NextModel::Send(Command::Create(a)),
        client::begun(client, Request::DeleteFolder(a)) == NextModel::Send(Command::Delete(a)),
        client::begun(client, Request::RenameFolder(a, b)) == NextModel::Send(Command::Rename(a, b)),
        client::begun(client, Request::MessageCount(a)) == NextModel::Send(
            Command::Status { folder: a, items: "(MESSAGES)"@ },
        ),
        client::begun(client, Request::UnreadCount(a)) == NextModel::Send(
            Command::Status { folder: a, items: "(UNSEEN)"@ },
        ),
        client::begun(client, Request::Noop) == NextModel::Send(Command::Noop),
{
}

/// Before a folder is selected the server is asked whether it is still there, and nothing else.
pub proof fn server_is_asked_first(client: ClientModel, r: RequestModel)
    requires
        client.session,
        client::noop_next(r, Ok(())) is Send,
    ensures
        client::begun(client, r) == NextModel::Send(Command::Noop),
{
}

/// A change of a folder and a move or copy is done where the server says so, and fails with what
/// the server says where it does not.
pub proof fn change_ends_as_the_server_says(a: Seq<char>, b: Seq<char>, uids: Seq<u32>, e: Seq<char>)
    ensures
        ({
            let done: NextModel = Next::Finish(Outcome::Nothing);
            &&& client::change_next(Request::CreateFolder(a), Ok(())) == done
            &&& client::change_next(Request::DeleteFolder(a), Ok(())) == done
            &&& client::change_next(Request::RenameFolder(a, b), Ok(())) == done
            &&& client::change_next(Request::Move(a, b, uids), Ok(())) == done
            &&& client::change_next(Request::Copy(a, b, uids), Ok(())) == done
            &&& client::noop_next(Request::Noop, Ok(())) == done
            &&& client::change_next(Request::CreateFolder(a), Err(e)) == NextModel::Fail(
                MailError::Protocol("CREATE: "@ + e),
            )
            &&& client::change_next(Request::DeleteFolder(a), Err(e)) == NextModel::Fail(
                MailError::Protocol("DELETE: "@ + e),
            )
            &&& client::change_next(Request::RenameFolder(a, b), Err(e)) == NextModel::Fail(
                MailError::Protocol("RENAME: "@ + e),
            )
            &&& client::change_next(Request::Move(a, b, uids), Err(e)) == NextModel::Fail(
                MailError::Protocol("UID MOVE: "@ + e),
            )
            &&& client::change_next(Request::Copy(a, b, uids), Err(e)) == NextModel::Fail(
                MailError::Protocol("UID COPY: "@ + e),
            )
            &&& client::noop_next(Request::Noop, Err(e)) == NextModel::Fail(
                MailError::Protocol("NOOP: "@ + e),
            )
        }),
{
}

/// The count of a folder is the number of its messages, and the count of unread ones the number of
/// those that were not seen, or none where the server gives no such number.
pub proof fn counts_are_told_apart(f: Seq<char>, messages: u32, unseen: u32, e: Seq<char>)
    ensures
        client::status_next(Request::MessageCount(f), Ok((messages, Some(unseen)))) == NextModel::Finish(
            Outcome::Count(messages),
        ),
        client::status_next(Request::MessageCount(f), Ok((messages, None))) == NextModel::Finish(
            Outcome::Count(messages),
        ),
        client::status_next(Request::UnreadCount(f), Ok((messages, Some(unseen)))) == NextModel::Finish(
            Outcome::Count(unseen),
        ),
        client::status_next(Request::UnreadCount(f), Ok((messages, None))) == NextModel::Finish(
            Outcome::Count(0),
        ),
        client::status_next(Request::MessageCount(f), Err(e)) == NextModel::Fail(
            MailError::Protocol("STATUS: "@ + e),
        ),
        client::status_next(Request::UnreadCount(f), Err(e)) == NextModel::Fail(
            MailError::Protocol("STATUS: "@ + e),
        ),
{
}

/// Whether the text is the notation of this number.
pub open spec fn writes_number(s: Seq<char>, n: int) -> bool {
    number::number_of(s, 10, u32::MAX as int) == Ok::<int, NumberError>(n)
}

/// A message is fetched whole, by its identifier, with its flags, and an attachment by the
/// identifier of its message and its own number in brackets.
pub proof fn one_message_is_fetched(
    f: Seq<char>,
    uid: u32,
    part: Seq<char>,
    encoding: Option<Seq<char>>,
    total: u32,
)
    ensures
        client::select_next(Request::Message(f, uid), Ok(total)) matches Next::Send(
            Command::Fetch { sequence, query, by_uid },
        ) && by_uid && writes_number(sequence, uid as int) && query == "(UID FLAGS BODY[])"@,
        client::select_next(Request::Attachment(f, uid, part, encoding), Ok(total)) matches Next::Send(
            Command::Fetch { sequence, query, by_uid },
        ) && by_uid && writes_number(sequence, uid as int) && query == "BODY["@ + part + "]"@,
{
    number::decimal_reads_back(uid as nat, u32::MAX as int);
}

/// The last messages of a folder are fetched by their place: from a place behind which, with it,
/// there are as many as were asked for, or all where there are fewer, to the end. From an empty
/// folder, or where none are asked for, nothing is fetched.
pub proof fn last_messages_are_fetched(f: Seq<char>, count: u32, total: u32)
    ensures
        total == 0 || count == 0 ==> client::select_next(Request::Latest(f, count), Ok(total))
            == NextModel::Finish(Outcome::Summaries(seq![])),
        total > 0 && count > 0 ==> (client::select_next(Request::Latest(f, count), Ok(total)) matches Next::Send(
            Command::Fetch { sequence, query, by_uid },
        ) && !by_uid && query == "(UID FLAGS RFC822.SIZE ENVELOPE)"@ && exists|first: Seq<char>|
            sequence == #[trigger] (first + ":*"@) && writes_number(
                first,
                if count < total {
                    total - count + 1
                } else {
                    1
                },
            )),
{
    if total > 0 && count > 0 {
        let first = if count < total {
            total - count + 1
        } else {
            1
        };
        number::decimal_reads_back(first as nat, u32::MAX as int);
        let word = number::decimal(first as nat);
        assert(client::select_next(Request::Latest(f, count), Ok(total))->Send_0->sequence == word
            + ":*"@);
    }
}

/// Messages before a message are fetched by identifier, from below it up to it, and messages behind
/// a message from the identifier that follows its own to the end.
pub proof fn messages_around_one_are_fetched(f: Seq<char>, uid: u32, count: u32, total: u32)
    requires
        count * 2 <= u32::MAX,
        uid < u32::MAX,
    ensures
        client::select_next(Request::Before(f, uid, count), Ok(total)) matches Next::Send(
            Command::Fetch { sequence, query, by_uid },
        ) && by_uid && query == "(UID FLAGS RFC822.SIZE ENVELOPE)"@ && exists|
            first: Seq<char>,
            last: Seq<char>,
        |
            sequence == #[trigger] (first + ":"@ + last) && writes_number(last, uid as int)
                && writes_number(
                first,
                if uid > count * 2 {
                    uid - count * 2
                } else {
                    1
                },
            ),
        client::select_next(Request::Since(f, uid), Ok(total)) matches Next::Send(
            Command::Fetch { sequence, query, by_uid },
        ) && by_uid && query == "(UID FLAGS RFC822.SIZE ENVELOPE)"@ && exists|first: Seq<char>|
            sequence == #[trigger] (first + ":*"@) && writes_number(first, uid + 1),
{
    let first = if uid > count * 2 {
        uid - count * 2
    } else {
        1
    };
    number::decimal_reads_back(first as nat, u32::MAX as int);
    number::decimal_reads_back(uid as nat, u32::MAX as int);
    number::decimal_reads_back((uid + 1) as nat, u32::MAX as int);
    let a = number::decimal(first as nat);
    let b = number::decimal(uid as nat);
    let c = number::decimal((uid + 1) as nat);
    assert(client::select_next(Request::Before(f, uid, count), Ok(total))->Send_0->sequence == a
        + ":"@ + b);
    assert(client::select_next(Request::Since(f, uid), Ok(total))->Send_0->sequence == c + ":*"@);
}

/// What is asked for again where a fetch of summaries failed is asked for of the same messages, in
/// the same way: the header fields first, and then no more than every message has. What it fails
/// with in the end says how the messages were named.
pub proof fn summaries_are_asked_for_again(
    r: RequestModel,
    sequence: Seq<char>,
    items: Seq<SummaryModel>,
    e: Seq<char>,
)
    ensures
        ({
            let by_uid = !(r is Latest);
            let fields: NextModel = Next::Send(
                Command::Fetch {
                    sequence,
                    query: "(UID FLAGS RFC822.SIZE BODY.PEEK[HEADER.FIELDS (FROM TO CC SUBJECT DATE MESSAGE-ID)])"@,
                    by_uid,
                },
            );
            let basic: NextModel = Next::Send(
                Command::Fetch { sequence, query: "(UID FLAGS RFC822.SIZE)"@, by_uid },
            );
            let refused: Streamed<Seq<SummaryModel>, Seq<char>> = Streamed::Refused(e);
            let broken = Streamed::Items(items, Some(e));
            &&& client::summaries_next(r, sequence, Query::Envelope, refused) == fields
            &&& client::summaries_next(r, sequence, Query::Envelope, broken) == fields
            &&& client::summaries_next(r, sequence, Query::Header, refused) == basic
            &&& client::summaries_next(r, sequence, Query::Header, broken) == basic
            &&& client::summaries_next(r, sequence, Query::Basic, refused) == NextModel::Fail(
                MailError::Protocol(
                    (if by_uid {
                        "UID FETCH: "@
                    } else {
                        "FETCH: "@
                    }) + e,
                ),
            )
            &&& client::summaries_next(r, sequence, Query::Basic, broken) == NextModel::Fail(
                MailError::Protocol("fetch: "@ + e),
            )
        }),
{
}

/// Whether the texts are the notation of the attributes in the protocol.
pub open spec fn writes_attribute(s: Seq<char>, a: NameAttribute<Seq<char>>) -> bool {
    &&& a is NoInferiors ==> s == "\\NoInferiors"@
    &&& a is NoSelect ==> s == "\\NoSelect"@
    &&& a is Marked ==> s == "\\Marked"@
    &&& a is Unmarked ==> s == "\\Unmarked"@
    &&& a is All ==> s == "\\All"@
    &&& a is Archive ==> s == "\\Archive"@
    &&& a is Drafts ==> s == "\\Drafts"@
    &&& a is Flagged ==> s == "\\Flagged"@
    &&& a is Junk ==> s == "\\Junk"@
    &&& a is Sent ==> s == "\\Sent"@
    &&& a is Trash ==> s == "\\Trash"@
    &&& a matches NameAttribute::Extension(name) ==> s == name
    &&& a matches NameAttribute::Other(name) ==> s == name
}

/// The folders that the server lists come back in their order, each with its name, its delimiter
/// and its attributes, and none is lost. Where the server fails, the request fails.
pub proof fn listed_folders_come_back(listed: Seq<ListedFolderModel>, e: Seq<char>)
    ensures
        client::folders_next(Streamed::Items(listed, None)) matches Next::Finish(
            Outcome::Folders(found),
        ) && found.len() == listed.len() && forall|i: int|
            0 <= i < listed.len() ==> {
                let f = #[trigger] found[i];
                &&& f.name == listed[i].name
                &&& listed[i].delimiter matches Some(d) ==> f.delimiter == d
                &&& listed[i].delimiter is None ==> f.delimiter.len() == 0
                &&& f.attributes.len() == listed[i].attributes.len()
                &&& forall|k: int|
                    0 <= k < f.attributes.len() ==> writes_attribute(
                        #[trigger] f.attributes[k],
                        listed[i].attributes[k],
                    )
            },
        client::folders_next(Streamed::Refused(e)) == NextModel::Fail(
            MailError::Protocol("LIST: "@ + e),
        ),
        client::folders_next(Streamed::Items(listed, Some(e))) == NextModel::Fail(
            MailError::Protocol("LIST stream: "@ + e),
        ),
{
    let found = imap::folders_of(listed);
    assert forall|i: int| 0 <= i < listed.len() implies {
        let f = #[trigger] found[i];
        &&& f.name == listed[i].name
        &&& listed[i].delimiter matches Some(d) ==> f.delimiter == d
        &&& listed[i].delimiter is None ==> f.delimiter.len() == 0
        &&& f.attributes.len() == listed[i].attributes.len()
        &&& forall|k: int|
            0 <= k < f.attributes.len() ==> writes_attribute(
                #[trigger] f.attributes[k],
                listed[i].attributes[k],
            )
    } by {
        let f = found[i];
        assert forall|k: int| 0 <= k < f.attributes.len() implies writes_attribute(
            #[trigger] f.attributes[k],
            listed[i].attributes[k],
        ) by {
            assert(f.attributes[k] == imap::attribute_text(listed[i].attributes[k]));
        }
    }
}

/// Whether the flag of a message is the one that the server's flag stands for.
pub open spec fn stands_for(flag: MailFlag<Seq<char>>, server: ServerFlag<Seq<char>>) -> bool {
    &&& server is Seen <==> flag is Seen
    &&& server is Answered <==> flag is Answered
    &&& server is Flagged <==> flag is Flagged
    &&& server is Deleted <==> flag is Deleted
    &&& server is Draft <==> flag is Draft
    &&& server is Recent <==> flag is Recent
    &&& server matches ServerFlag::Custom(name) ==> flag == MailFlag::Custom(name)
    &&& server is MayCreate ==> flag == MailFlag::Custom("\\*"@)
}

/// A message that was fetched comes back as the message of the folder and the identifier that it
/// was asked for (or of the identifier that the server gives), with the flags that the server
/// gives, in their order.
pub proof fn fetched_message_is_the_one_asked_for(
    folder: Seq<char>,
    uid: u32,
    m: FetchedModel,
)
    ensures
        client::message_next(folder, uid, First::Found(m)) matches Next::Finish(o) ==> o matches Outcome::Message(
            mail,
        ) && mail.folder == folder && (m.uid is None ==> mail.uid == uid) && (m.uid matches Some(n)
            ==> mail.uid == n) && mail.flags.len() == m.flags.len() && forall|i: int|
            0 <= i < m.flags.len() ==> stands_for(#[trigger] mail.flags[i], m.flags[i]),
        !(client::message_next(folder, uid, First::Found(m)) is Send),
        m.body is None ==> client::message_next(folder, uid, First::Found(m)) is Fail,
{
    let flags = crate::summary::flags_of(m.flags);
    assert forall|i: int| 0 <= i < m.flags.len() implies stands_for(
        #[trigger] flags[i],
        m.flags[i],
    ) by {
        assert(flags[i] == crate::summary::flag_of(m.flags[i]));
    }
}

/// A change of flags is done where the server takes it to its end, and the error says where it did
/// not.
pub proof fn change_of_flags_ends(said: Seq<()>, e: Seq<char>)
    ensures
        client::store_next(Streamed::Items(said, None)) == NextModel::Finish(Outcome::Nothing),
        client::store_next(Streamed::Items(said, Some(e))) == NextModel::Fail(
            MailError::Protocol("STORE stream: "@ + e),
        ),
        client::store_next(Streamed::Refused(e)) == NextModel::Fail(
            MailError::Protocol("UID STORE: "@ + e),
        ),
{
}

/// A message that does not come is told of by its number and its folder, or with what the server
/// said.
pub proof fn missing_message_is_told(
    folder: Seq<char>,
    uid: u32,
    e: Seq<char>,
    none: FetchedModel,
)
    requires
        none.body is None,
    ensures
        client::message_next(folder, uid, First::Refused(e)) == NextModel::Fail(
            MailError::Protocol("UID FETCH: "@ + e),
        ),
        client::message_next(folder, uid, First::Missing) == NextModel::Fail(
            MailError::MessageNotFound(
                "message "@ + number::decimal(uid as nat) + " not found in "@ + folder,
            ),
        ),
        client::message_next(folder, uid, First::Broken(e)) == NextModel::Fail(
            MailError::Protocol("fetch: "@ + e),
        ),
        client::message_next(folder, uid, First::Found(none)) == NextModel::Fail(
            MailError::Parse("empty message body"@),
        ),
{
}

/// A message that comes is read in its folder, under the number that the server gives or else the
/// one that was asked for, and with the flags that the server gives; and what is wrong with it is
/// told.
pub proof fn message_that_comes_is_read(
    folder: Seq<char>,
    uid: u32,
    m: FetchedModel,
    raw: Seq<u8>,
    n: u32,
)
    requires
        m.body == Some(raw),
        m.uid == Some(n) || m.uid is None && n == uid,
    ensures
        ({
            let read = mime::read_email(raw, folder, n, summary::flags_of(m.flags));
            let next = client::message_next(folder, uid, First::Found(m));
            &&& read is Ok ==> next == NextModel::Finish(Outcome::Message(read->Ok_0))
            &&& read is Err ==> next == NextModel::Fail(read->Err_0)
        }),
{
}

} // verus!
