//! A mail client as a machine: it says which command goes to the server next, and what the
//! server's answers make of the request.

use vstd::prelude::*;
use vstd::string::*;

use crate::codec;
use crate::codec::decode_transfer_encoding;
use crate::imap;
use crate::imap::{
    build_folders, build_store_query, join_uids, keep_before, plan_before, plan_latest,
    plan_new, sort_down, FolderModel, ListedFolder, ListedFolderModel,
};
use crate::mime;
use crate::mime::parse_email;
use crate::number;
use crate::number::{decimal_text, read_number, NumberError};
use crate::summary;
use crate::summary::{parse_flags, ServerFlag};
use crate::text;
use crate::text::{concat, split, to_chars, Sep};
use crate::types::{
    AccountConfig, Duplicate, Email, EmailModel, EmailSummary, Folder, MailError, MailFlag,
    SecurityMode, SummaryModel,
};

verus! {

broadcast use vstd::string::group_string_axioms;

/// A step on the way to a session.
#[derive(Clone, Copy, Debug, PartialEq, Eq, Structural)]
pub enum Stage {
    /// Log out of the session before.
    Logout,
    /// Connect to the server.
    Tcp,
    /// Ask for TLS on the open connection.
    StartTls,
    /// Shake hands for TLS.
    Handshake,
    /// Say which client this is.
    Identify,
    /// Log in.
    Login,
    /// Select the inbox, to see that the session works.
    Inbox,
}

/// What comes after a step: another one, a session, or the error.
#[derive(Clone, Debug, PartialEq, Eq)]
pub enum Connecting<E = MailError> {
    Do(Stage),
    Connected,
    Failed(E),
}

impl View for Connecting<MailError> {
    type V = Connecting<MailError<Seq<char>>>;

    open spec fn view(&self) -> Connecting<MailError<Seq<char>>> {
        match *self {
            Connecting::Do(s) => Connecting::Do(s),
            Connecting::Connected => Connecting::Connected,
            Connecting::Failed(e) => Connecting::Failed(e@),
        }
    }
}

/// The model of an outcome that holds nothing.
pub open spec fn done_view(r: Result<(), String>) -> Result<(), Seq<char>> {
    match r {
        Ok(_) => Ok(()),
        Err(e) => Err(e@),
    }
}

/// The first step of a connection of this security.
pub open spec fn first_stage(security: SecurityMode) -> Connecting<MailError<Seq<char>>> {
    match security {
        SecurityMode::Unencrypted => Connecting::Failed(
            MailError::Connection("unencrypted IMAP not supported"@),
        ),
        _ => Connecting::Do(Stage::Tcp),
    }
}

/// What comes after a step. Neither a failed logout nor a failed selection of the inbox stops
/// the connection.
pub open spec fn next_stage(
    security: SecurityMode,
    stage: Stage,
    result: Result<(), Seq<char>>,
) -> Connecting<MailError<Seq<char>>> {
    match stage {
        Stage::Logout => first_stage(security),
        Stage::Tcp => match result {
            Err(e) => Connecting::Failed(MailError::Connection("TCP connect: "@ + e)),
            Ok(_) => if security == SecurityMode::StartTls {
                Connecting::Do(Stage::StartTls)
            } else {
                Connecting::Do(Stage::Handshake)
            },
        },
        Stage::StartTls => match result {
            Err(e) => Connecting::Failed(MailError::Tls("STARTTLS: "@ + e)),
            Ok(_) => Connecting::Do(Stage::Handshake),
        },
        Stage::Handshake => match result {
            Err(e) => Connecting::Failed(MailError::Tls("TLS handshake: "@ + e)),
            Ok(_) => Connecting::Do(Stage::Identify),
        },
        Stage::Identify => match result {
            Err(e) => Connecting::Failed(MailError::Protocol("ID: "@ + e)),
            Ok(_) => Connecting::Do(Stage::Login),
        },
        Stage::Login => match result {
            Err(e) => Connecting::Failed(MailError::Authentication("login failed: "@ + e)),
            Ok(_) => Connecting::Do(Stage::Inbox),
        },
        Stage::Inbox => Connecting::Connected,
    }
}

fn begin_stage(security: SecurityMode) -> (r: Connecting)
    ensures
        r@ == first_stage(security),
{
    match security {
        SecurityMode::Unencrypted => Connecting::Failed(
            MailError::Connection("unencrypted IMAP not supported".to_owned()),
        ),
        _ => Connecting::Do(Stage::Tcp),
    }
}

fn after_stage(security: SecurityMode, stage: Stage, result: &Result<(), String>) -> (r: Connecting)
    ensures
        r@ == next_stage(security, stage, done_view(*result)),
{
    match stage {
        Stage::Logout => begin_stage(security),
        Stage::Tcp => match result {
            Err(e) => Connecting::Failed(
                MailError::Connection(concat("TCP connect: ", e.as_str())),
            ),
            Ok(_) => if security == SecurityMode::StartTls {
                Connecting::Do(Stage::StartTls)
            } else {
                Connecting::Do(Stage::Handshake)
            },
        },
        Stage::StartTls => match result {
            Err(e) => Connecting::Failed(MailError::Tls(concat("STARTTLS: ", e.as_str()))),
            Ok(_) => Connecting::Do(Stage::Handshake),
        },
        Stage::Handshake => match result {
            Err(e) => Connecting::Failed(MailError::Tls(concat("TLS handshake: ", e.as_str()))),
            Ok(_) => Connecting::Do(Stage::Identify),
        },
        Stage::Identify => match result {
            Err(e) => Connecting::Failed(MailError::Protocol(concat("ID: ", e.as_str()))),
            Ok(_) => Connecting::Do(Stage::Login),
        },
        Stage::Login => match result {
            Err(e) => Connecting::Failed(
                MailError::Authentication(concat("login failed: ", e.as_str())),
            ),
            Ok(_) => Connecting::Do(Stage::Inbox),
        },
        Stage::Inbox => Connecting::Connected,
    }
}

/// The steps of a connection, each of which follows from the one before, whatever came of it.
pub open spec fn possible(security: SecurityMode, steps: Seq<Stage>) -> bool {
    &&& steps.len() > 0 ==> steps[0] == Stage::Logout || first_stage(security) == Connecting::Do::<
        MailError<Seq<char>>,
    >(steps[0])
    &&& forall|i: int|
        0 <= i < steps.len() - 1 ==> exists|r: Result<(), Seq<char>>| #[trigger]
            next_stage(security, #[trigger] steps[i], r) == Connecting::Do::<MailError<Seq<char>>>(
                steps[i + 1],
            )
}

/// No name and password are sent before TLS protects the connection, whatever the server says.
pub proof fn login_after_handshake(security: SecurityMode, steps: Seq<Stage>, i: int)
    requires
        possible(security, steps),
        0 <= i < steps.len(),
        steps[i] == Stage::Login,
    ensures
        i >= 2,
        steps[i - 2] == Stage::Handshake,
{
    assert(steps[i - 1] == steps[i - 1]);
    let r = choose|r: Result<(), Seq<char>>| #[trigger]
        next_stage(security, steps[i - 1], r) == Connecting::Do::<MailError<Seq<char>>>(steps[i]);
    assert(steps[i - 1] == Stage::Identify);
    let q = choose|r: Result<(), Seq<char>>| #[trigger]
        next_stage(security, steps[i - 2], r) == Connecting::Do::<MailError<Seq<char>>>(
            steps[i - 1],
        );
    assert(steps[i - 2] == Stage::Handshake);
}

/// A connection without protection is refused before anything goes over the network, but for
/// the logout of the session before.
pub proof fn unencrypted_refused(steps: Seq<Stage>)
    requires
        possible(SecurityMode::Unencrypted, steps),
    ensures
        steps.len() <= 1,
        steps.len() == 1 ==> steps[0] == Stage::Logout,
{
    if steps.len() > 1 {
        assert(steps[0] == Stage::Logout);
        let r = choose|r: Result<(), Seq<char>>| #[trigger]
            next_stage(SecurityMode::Unencrypted, steps[0], r) == Connecting::Do::<
                MailError<Seq<char>>,
            >(steps[1]);
        assert(false);
    }
}

/// How far a step is on the way.
pub open spec fn distance(stage: Stage) -> nat {
    match stage {
        Stage::Logout => 0,
        Stage::Tcp => 1,
        Stage::StartTls => 2,
        Stage::Handshake => 3,
        Stage::Identify => 4,
        Stage::Login => 5,
        Stage::Inbox => 6,
    }
}

/// Every step leads further, so that a connection comes to an end, and the only step after which
/// there is a session is the last one.
pub proof fn steps_lead_further(
    security: SecurityMode,
    stage: Stage,
    result: Result<(), Seq<char>>,
)
    ensures
        next_stage(security, stage, result) matches Connecting::Do(next) ==> distance(next)
            > distance(stage),
        next_stage(security, stage, result) is Connected <==> stage == Stage::Inbox,
{
}

/// A mail client: the account that it was last connected to, and whether it has a session.
/// `C` is the account.
#[derive(Clone, Debug, PartialEq, Eq)]
pub struct MailClient<C = AccountConfig> {
    pub config: Option<C>,
    pub session: bool,
}

/// The model of a mail client.
pub type ClientModel = MailClient<AccountConfig<Seq<char>>>;

impl View for MailClient<AccountConfig> {
    type V = ClientModel;

    open spec fn view(&self) -> ClientModel {
        MailClient { config: text::opt_view(self.config), session: self.session }
    }
}

/// The model of a result that holds nothing or an error.
pub open spec fn unit_view(r: Result<(), MailError>) -> Result<(), MailError<Seq<char>>> {
    match r {
        Ok(_) => Ok(()),
        Err(e) => Err(e@),
    }
}

impl MailClient<AccountConfig> {
    /// A client that is not connected.
    pub fn new() -> (r: Self)
        ensures
            r@ == (ClientModel { config: None, session: false }),
    {
        MailClient { config: None, session: false }
    }

    /// Whether there is a session.
    pub fn is_connected(&self) -> (r: bool)
        ensures
            r == self@.session,
    {
        self.session
    }

    /// Begins to connect: the session that there was is given up.
    pub fn connect(&mut self, config: &AccountConfig) -> (r: Connecting)
        ensures
            final(self)@ == (MailClient { session: false, ..old(self)@ }),
            r@ == if old(self)@.session {
                Connecting::Do(Stage::Logout)
            } else {
                first_stage(config@.security)
            },
    {
        if self.session {
            self.session = false;
            Connecting::Do(Stage::Logout)
        } else {
            begin_stage(config.security)
        }
    }

    /// Goes on after a step. With the last one there is a session of this account; a connection
    /// that fails leaves the account of the one before.
    pub fn connect_next(
        &mut self,
        config: &AccountConfig,
        stage: Stage,
        result: &Result<(), String>,
    ) -> (r: Connecting)
        ensures
            r@ == next_stage(config@.security, stage, done_view(*result)),
            final(self)@ == if r@ is Connected {
                MailClient { config: Some(config@), session: true }
            } else {
                old(self)@
            },
    {
        let next = after_stage(config.security, stage, result);
        if let Connecting::Connected = next {
            self.config = Some(config.duplicate());
            self.session = true;
        }
        next
    }

    /// Begins to disconnect. The result says whether the server is to be told.
    pub fn disconnect(&mut self) -> (r: bool)
        ensures
            r == old(self)@.session,
            final(self)@ == if r {
                MailClient { session: false, ..old(self)@ }
            } else {
                MailClient { config: None, session: false }
            },
    {
        if self.session {
            self.session = false;
            true
        } else {
            self.config = None;
            false
        }
    }

    /// Ends the disconnection once the server was told. The account stays where that failed.
    pub fn disconnected(&mut self, result: &Result<(), String>) -> (r: Result<(), MailError>)
        ensures
            match *result {
                Ok(_) => unit_view(r) == Ok::<(), MailError<Seq<char>>>(()) && final(self)@ == (
                MailClient { config: None, ..old(self)@ }),
                Err(e) => unit_view(r) == Err::<(), MailError<Seq<char>>>(
                    MailError::Protocol("logout: "@ + e@),
                ) && final(self)@ == old(self)@,
            },
    {
        match result {
            Ok(_) => {
                self.config = None;
                Ok(())
            },
            Err(e) => Err(MailError::Protocol(concat("logout: ", e.as_str()))),
        }
    }

    /// The account by which mail is sent: the one that the client is, or was, connected to.
    pub fn sending_account(&self) -> (r: Result<AccountConfig, MailError>)
        ensures
            match self@.config {
                Some(c) => r matches Ok(k) && k@ == c,
                None => r matches Err(e) && e@ == MailError::<Seq<char>>::NotConnected,
            },
    {
        match &self.config {
            Some(c) => Ok(c.duplicate()),
            None => Err(MailError::NotConnected),
        }
    }
}

impl Default for MailClient<AccountConfig> {
    fn default() -> (r: Self)
        ensures
            r@ == (ClientModel { config: None, session: false }),
    {
        MailClient::new()
    }
}

/// What is asked of the server; `T` is text, `U` a list of identifiers, `F` a list of flags.
#[derive(Clone, Debug, PartialEq, Eq)]
pub enum Request<T = String, U = Vec<u32>, F = Vec<MailFlag>> {
    ListFolders,
    CreateFolder(T),
    DeleteFolder(T),
    /// From this name to that one.
    RenameFolder(T, T),
    /// The last messages of a folder, at most so many.
    Latest(T, u32),
    /// The messages of a folder before an identifier, at most so many.
    Before(T, u32, u32),
    /// The messages of a folder behind an identifier.
    Since(T, u32),
    Message(T, u32),
    /// Of a folder and a message the part of this number, which has this transfer encoding.
    Attachment(T, u32, T, Option<T>),
    AddFlags(T, U, F),
    RemoveFlags(T, U, F),
    /// From this folder to that one.
    Move(T, T, U),
    /// From this folder to that one.
    Copy(T, T, U),
    MessageCount(T),
    UnreadCount(T),
    Noop,
}

/// The model of a request.
pub type RequestModel = Request<Seq<char>, Seq<u32>, Seq<MailFlag<Seq<char>>>>;

impl View for Request<String, Vec<u32>, Vec<MailFlag>> {
    type V = RequestModel;

    open spec fn view(&self) -> RequestModel {
        match *self {
            Request::ListFolders => Request::ListFolders,
            Request::CreateFolder(n) => Request::CreateFolder(n@),
            Request::DeleteFolder(n) => Request::DeleteFolder(n@),
            Request::RenameFolder(a, b) => Request::RenameFolder(a@, b@),
            Request::Latest(f, n) => Request::Latest(f@, n),
            Request::Before(f, u, n) => Request::Before(f@, u, n),
            Request::Since(f, u) => Request::Since(f@, u),
            Request::Message(f, u) => Request::Message(f@, u),
            Request::Attachment(f, u, p, e) => Request::Attachment(f@, u, p@, text::opt_view(e)),
            Request::AddFlags(f, u, l) => Request::AddFlags(f@, u@, text::views(l@)),
            Request::RemoveFlags(f, u, l) => Request::RemoveFlags(f@, u@, text::views(l@)),
            Request::Move(a, b, u) => Request::Move(a@, b@, u@),
            Request::Copy(a, b, u) => Request::Copy(a@, b@, u@),
            Request::MessageCount(f) => Request::MessageCount(f@),
            Request::UnreadCount(f) => Request::UnreadCount(f@),
            Request::Noop => Request::Noop,
        }
    }
}

/// A command for the server; `T` is text, `P` a list of numbers.
#[derive(Clone, Debug, PartialEq, Eq)]
pub enum Command<T = String, P = Vec<u32>> {
    Noop,
    Select(T),
    /// List all folders.
    List,
    Create(T),
    Delete(T),
    Rename(T, T),
    /// Fetch these items of these messages, which are numbers or identifiers.
    Fetch { sequence: T, query: T, by_uid: bool },
    Store { uids: T, query: T },
    Move { uids: T, folder: T },
    Copy { uids: T, folder: T },
    Status { folder: T, items: T },
    /// Look up the part of this number in what was fetched.
    Section(P),
}

/// The model of a command.
pub type CommandModel = Command<Seq<char>, Seq<u32>>;

impl View for Command<String, Vec<u32>> {
    type V = CommandModel;

    open spec fn view(&self) -> CommandModel {
        match *self {
            Command::Noop => Command::Noop,
            Command::Select(f) => Command::Select(f@),
            Command::List => Command::List,
            Command::Create(f) => Command::Create(f@),
            Command::Delete(f) => Command::Delete(f@),
            Command::Rename(a, b) => Command::Rename(a@, b@),
            Command::Fetch { sequence, query, by_uid } => Command::Fetch {
                sequence: sequence@,
                query: query@,
                by_uid,
            },
            Command::Store { uids, query } => Command::Store { uids: uids@, query: query@ },
            Command::Move { uids, folder } => Command::Move { uids: uids@, folder: folder@ },
            Command::Copy { uids, folder } => Command::Copy { uids: uids@, folder: folder@ },
            Command::Status { folder, items } => Command::Status {
                folder: folder@,
                items: items@,
            },
            Command::Section(p) => Command::Section(p@),
        }
    }
}

/// What a request comes to; `D` is a list of folders, `S` one of summaries, `M` a message, `B`
/// bytes.
#[derive(Clone, Debug, PartialEq, Eq)]
pub enum Outcome<D = Vec<Folder>, S = Vec<EmailSummary>, M = Email, B = Vec<u8>> {
    Nothing,
    Folders(D),
    Summaries(S),
    Message(M),
    Bytes(B),
    Count(u32),
}

/// The model of an outcome.
pub type OutcomeModel = Outcome<Seq<FolderModel>, Seq<SummaryModel>, EmailModel, Seq<u8>>;

impl View for Outcome<Vec<Folder>, Vec<EmailSummary>, Email, Vec<u8>> {
    type V = OutcomeModel;

    open spec fn view(&self) -> OutcomeModel {
        match *self {
            Outcome::Nothing => Outcome::Nothing,
            Outcome::Folders(v) => Outcome::Folders(text::views(v@)),
            Outcome::Summaries(v) => Outcome::Summaries(text::views(v@)),
            Outcome::Message(m) => Outcome::Message(m@),
            Outcome::Bytes(b) => Outcome::Bytes(b@),
            Outcome::Count(n) => Outcome::Count(n),
        }
    }
}

/// What comes next: a command, or the end of the request.
#[derive(Clone, Debug, PartialEq, Eq)]
pub enum Next<C = Command, O = Outcome, E = MailError> {
    Send(C),
    Finish(O),
    Fail(E),
}

/// The model of what comes next.
pub type NextModel = Next<CommandModel, OutcomeModel, MailError<Seq<char>>>;

impl View for Next<Command, Outcome, MailError> {
    type V = NextModel;

    open spec fn view(&self) -> NextModel {
        match *self {
            Next::Send(c) => Next::Send(c@),
            Next::Finish(o) => Next::Finish(o@),
            Next::Fail(e) => Next::Fail(e@),
        }
    }
}

/// A list that the server sends piece by piece: the command was refused, or these pieces came,
/// and then perhaps an error. `X` is the list, `T` text.
#[derive(Clone, Debug, PartialEq, Eq)]
pub enum Streamed<X, T = String> {
    Refused(T),
    Items(X, Option<T>),
}

impl<X: View> View for Streamed<Vec<X>, String> {
    type V = Streamed<Seq<X::V>, Seq<char>>;

    open spec fn view(&self) -> Streamed<Seq<X::V>, Seq<char>> {
        match *self {
            Streamed::Refused(e) => Streamed::Refused(e@),
            Streamed::Items(v, e) => Streamed::Items(text::views(v@), text::opt_view(e)),
        }
    }
}

/// The first thing that the server sends when one is wanted; `M` is the thing, `T` text.
#[derive(Clone, Debug, PartialEq, Eq)]
pub enum First<M, T = String> {
    Refused(T),
    Missing,
    Broken(T),
    Found(M),
}

/// What the server sends of one message; `F` is a list of flags, `B` bytes.
#[derive(Clone, Debug, PartialEq, Eq)]
pub struct Fetched<F = Vec<ServerFlag>, B = Vec<u8>> {
    pub uid: Option<u32>,
    pub flags: F,
    pub body: Option<B>,
}

/// The model of what the server sends of one message.
pub type FetchedModel = Fetched<Seq<ServerFlag<Seq<char>>>, Seq<u8>>;

impl View for First<Fetched, String> {
    type V = First<FetchedModel, Seq<char>>;

    open spec fn view(&self) -> First<FetchedModel, Seq<char>> {
        match *self {
            First::Refused(e) => First::Refused(e@),
            First::Missing => First::Missing,
            First::Broken(e) => First::Broken(e@),
            First::Found(m) => First::Found(
                Fetched {
                    uid: m.uid,
                    flags: text::views(m.flags@),
                    body: text::opt_view(m.body),
                },
            ),
        }
    }
}

impl View for First<(), String> {
    type V = First<(), Seq<char>>;

    open spec fn view(&self) -> First<(), Seq<char>> {
        match *self {
            First::Refused(e) => First::Refused(e@),
            First::Missing => First::Missing,
            First::Broken(e) => First::Broken(e@),
            First::Found(_) => First::Found(()),
        }
    }
}

/// The folder that is selected for the request, if one is.
pub open spec fn selects(r: RequestModel) -> Option<Seq<char>> {
    match r {
        Request::Latest(f, _) => Some(f),
        Request::Before(f, _, _) => Some(f),
        Request::Since(f, _) => Some(f),
        Request::Message(f, _) => Some(f),
        Request::Attachment(f, _, _, _) => Some(f),
        Request::AddFlags(f, _, _) => Some(f),
        Request::RemoveFlags(f, _, _) => Some(f),
        Request::Move(f, _, _) => Some(f),
        Request::Copy(f, _, _) => Some(f),
        _ => None,
    }
}

fn selected_folder(r: &Request) -> (f: Option<String>)
    ensures
        text::opt_view(f) == selects(r@),
{
    match r {
        Request::Latest(f, _) => Some(f.clone()),
        Request::Before(f, _, _) => Some(f.clone()),
        Request::Since(f, _) => Some(f.clone()),
        Request::Message(f, _) => Some(f.clone()),
        Request::Attachment(f, _, _, _) => Some(f.clone()),
        Request::AddFlags(f, _, _) => Some(f.clone()),
        Request::RemoveFlags(f, _, _) => Some(f.clone()),
        Request::Move(f, _, _) => Some(f.clone()),
        Request::Copy(f, _, _) => Some(f.clone()),
        _ => None,
    }
}

/// The first command of the request. Before a folder is selected the server is asked whether it
/// is still there.
pub open spec fn first_command(r: RequestModel) -> CommandModel {
    match r {
        Request::ListFolders => Command::List,
        Request::CreateFolder(n) => Command::Create(n),
        Request::DeleteFolder(n) => Command::Delete(n),
        Request::RenameFolder(a, b) => Command::Rename(a, b),
        Request::MessageCount(f) => Command::Status { folder: f, items: "(MESSAGES)"@ },
        Request::UnreadCount(f) => Command::Status { folder: f, items: "(UNSEEN)"@ },
        _ => Command::Noop,
    }
}

/// What a request begins with: nothing is asked of the server without a session.
pub open spec fn begun(client: ClientModel, r: RequestModel) -> NextModel {
    if client.session {
        Next::Send(first_command(r))
    } else {
        Next::Fail(MailError::NotConnected)
    }
}

/// What the request comes to where nothing but success or an error comes back.
pub open spec fn plain_outcome(prefix: Seq<char>, result: Result<(), Seq<char>>) -> NextModel {
    match result {
        Ok(_) => Next::Finish(Outcome::Nothing),
        Err(e) => Next::Fail(MailError::Protocol(prefix + e)),
    }
}

fn plain_next(prefix: &str, result: &Result<(), String>) -> (r: Next)
    ensures
        r@ == plain_outcome(prefix@, done_view(*result)),
{
    match result {
        Ok(_) => Next::Finish(Outcome::Nothing),
        Err(e) => Next::Fail(MailError::Protocol(concat(prefix, e.as_str()))),
    }
}

/// What comes after the answer to the question whether the server is still there. If it is asked
/// before a folder is selected, the answer does not matter.
pub open spec fn noop_next(r: RequestModel, result: Result<(), Seq<char>>) -> NextModel {
    match selects(r) {
        Some(f) => Next::Send(Command::Select(f)),
        None => plain_outcome("NOOP: "@, result),
    }
}

/// What a fetch of summaries asks for.
#[derive(Clone, Copy, Debug, PartialEq, Eq, Structural)]
pub enum Query {
    /// The envelope.
    Envelope,
    /// The header fields.
    Header,
    /// Neither: only what every message has.
    Basic,
}

/// The notation of what a fetch of summaries asks for.
pub open spec fn summary_query(query: Query) -> Seq<char> {
    match query {
        Query::Envelope => "(UID FLAGS RFC822.SIZE ENVELOPE)"@,
        Query::Header =>
            "(UID FLAGS RFC822.SIZE BODY.PEEK[HEADER.FIELDS (FROM TO CC SUBJECT DATE MESSAGE-ID)])"@,
        Query::Basic => "(UID FLAGS RFC822.SIZE)"@,
    }
}

/// What is asked for where this fetch failed: the header fields in place of the envelope, and
/// only what every message has in place of the header fields.
pub open spec fn query_after(query: Query) -> Option<Query> {
    match query {
        Query::Envelope => Some(Query::Header),
        Query::Header => Some(Query::Basic),
        Query::Basic => None,
    }
}

impl Query {
    /// What is asked for where this fetch failed.
    pub fn fallback(self) -> (r: Option<Query>)
        ensures
            r == query_after(self),
    {
        match self {
            Query::Envelope => Some(Query::Header),
            Query::Header => Some(Query::Basic),
            Query::Basic => None,
        }
    }
}

/// Whether the messages are fetched by identifier.
pub open spec fn fetches_by_uid(r: RequestModel) -> bool {
    !(r is Latest)
}

/// The fetch of summaries.
pub open spec fn summary_fetch(r: RequestModel, sequence: Seq<char>, query: Query) -> CommandModel {
    Command::Fetch { sequence, query: summary_query(query), by_uid: fetches_by_uid(r) }
}

/// Whether the numbers of the request are in the range of their type.
pub open spec fn in_range(r: RequestModel) -> bool {
    match r {
        Request::Before(_, _, count) => count * 2 <= u32::MAX,
        Request::Since(_, uid) => uid < u32::MAX,
        _ => true,
    }
}

/// What comes after the selection of the folder, which holds so many messages.
pub open spec fn select_next(r: RequestModel, result: Result<u32, Seq<char>>) -> NextModel {
    match result {
        Err(e) => Next::Fail(
            MailError::FolderNotFound("select '"@ + selects(r)->Some_0 + "': "@ + e),
        ),
        Ok(total) => match r {
            Request::Latest(_, count) => match imap::latest_sequence(total, count) {
                Some(seq) => Next::Send(summary_fetch(r, seq, Query::Envelope)),
                None => Next::Finish(Outcome::Summaries(seq![])),
            },
            Request::Before(_, uid, count) => Next::Send(
                summary_fetch(r, imap::before_sequence(uid, count), Query::Envelope),
            ),
            Request::Since(_, uid) => Next::Send(
                summary_fetch(r, imap::new_sequence(uid), Query::Envelope),
            ),
            Request::Message(_, uid) => Next::Send(
                Command::Fetch {
                    sequence: number::decimal(uid as nat),
                    query: "(UID FLAGS BODY[])"@,
                    by_uid: true,
                },
            ),
            Request::Attachment(_, uid, part, _) => Next::Send(
                Command::Fetch {
                    sequence: number::decimal(uid as nat),
                    query: "BODY["@ + part + "]"@,
                    by_uid: true,
                },
            ),
            Request::AddFlags(_, uids, flags) => Next::Send(
                Command::Store {
                    uids: imap::uids_text(uids),
                    query: imap::store_query(true, flags),
                },
            ),
            Request::RemoveFlags(_, uids, flags) => Next::Send(
                Command::Store {
                    uids: imap::uids_text(uids),
                    query: imap::store_query(false, flags),
                },
            ),
            Request::Move(_, to, uids) => Next::Send(
                Command::Move { uids: imap::uids_text(uids), folder: to },
            ),
            Request::Copy(_, to, uids) => Next::Send(
                Command::Copy { uids: imap::uids_text(uids), folder: to },
            ),
            _ => Next::Finish(Outcome::Nothing),
        },
    }
}

/// The model of the answer to the selection of a folder.
pub open spec fn number_view(r: Result<u32, String>) -> Result<u32, Seq<char>> {
    match r {
        Ok(n) => Ok(n),
        Err(e) => Err(e@),
    }
}

/// What comes after a fetch of summaries. If the fetch of the envelopes fails, the header fields
/// are fetched; if that fails too, only what every message has; and if that fails, the request
/// fails.
pub open spec fn summaries_next(
    r: RequestModel,
    sequence: Seq<char>,
    query: Query,
    answer: Streamed<Seq<SummaryModel>, Seq<char>>,
) -> NextModel {
    let error = match answer {
        Streamed::Refused(e) => Some(
            MailError::Protocol(
                (if fetches_by_uid(r) {
                    "UID FETCH: "@
                } else {
                    "FETCH: "@
                }) + e,
            ),
        ),
        Streamed::Items(_, Some(e)) => Some(MailError::Protocol("fetch: "@ + e)),
        Streamed::Items(_, None) => None,
    };
    match error {
        Some(e) => match query_after(query) {
            Some(q) => Next::Send(summary_fetch(r, sequence, q)),
            None => Next::Fail(e),
        },
        None => {
            let sorted = imap::by_uid_down(answer->Items_0);
            match r {
                Request::Before(_, uid, count) => Next::Finish(
                    Outcome::Summaries(imap::newest_before(sorted, uid, count)),
                ),
                _ => Next::Finish(Outcome::Summaries(sorted)),
            }
        },
    }
}

/// What the list of folders comes to.
pub open spec fn folders_next(answer: Streamed<Seq<ListedFolderModel>, Seq<char>>) -> NextModel {
    match answer {
        Streamed::Refused(e) => Next::Fail(MailError::Protocol("LIST: "@ + e)),
        Streamed::Items(_, Some(e)) => Next::Fail(MailError::Protocol("LIST stream: "@ + e)),
        Streamed::Items(v, None) => Next::Finish(Outcome::Folders(imap::folders_of(v))),
    }
}

/// What a change of flags comes to.
pub open spec fn store_next(answer: Streamed<Seq<()>, Seq<char>>) -> NextModel {
    match answer {
        Streamed::Refused(e) => Next::Fail(MailError::Protocol("UID STORE: "@ + e)),
        Streamed::Items(_, Some(e)) => Next::Fail(MailError::Protocol("STORE stream: "@ + e)),
        Streamed::Items(_, None) => Next::Finish(Outcome::Nothing),
    }
}

/// What the change of a folder, or the move or copy of messages comes to.
pub open spec fn change_next(r: RequestModel, result: Result<(), Seq<char>>) -> NextModel {
    plain_outcome(
        match r {
            Request::CreateFolder(_) => "CREATE: "@,
            Request::DeleteFolder(_) => "DELETE: "@,
            Request::RenameFolder(_, _) => "RENAME: "@,
            Request::Move(_, _, _) => "UID MOVE: "@,
            _ => "UID COPY: "@,
        },
        result,
    )
}

/// What the fetch of a message comes to.
pub open spec fn message_next(
    folder: Seq<char>,
    uid: u32,
    answer: First<FetchedModel, Seq<char>>,
) -> NextModel {
    match answer {
        First::Refused(e) => Next::Fail(MailError::Protocol("UID FETCH: "@ + e)),
        First::Missing => Next::Fail(
            MailError::MessageNotFound(
                "message "@ + number::decimal(uid as nat) + " not found in "@ + folder,
            ),
        ),
        First::Broken(e) => Next::Fail(MailError::Protocol("fetch: "@ + e)),
        First::Found(m) => match m.body {
            None => Next::Fail(MailError::Parse("empty message body"@)),
            Some(raw) => {
                let own = match m.uid {
                    Some(n) => n,
                    None => uid,
                };
                match mime::read_email(raw, folder, own, summary::flags_of(m.flags)) {
                    Ok(mail) => Next::Finish(Outcome::Message(mail)),
                    Err(e) => Next::Fail(e),
                }
            },
        },
    }
}

/// The numbers that are the pieces from the piece `i` on, or the error of the first that is none.
pub open spec fn numbers_from(pieces: Seq<Seq<char>>, i: int) -> Result<Seq<u32>, NumberError>
    decreases pieces.len() - i,
{
    if i < 0 || i >= pieces.len() {
        Ok(seq![])
    } else {
        match number::number_of(pieces[i], 10, u32::MAX as int) {
            Err(e) => Err(e),
            Ok(n) => match numbers_from(pieces, i + 1) {
                Err(e) => Err(e),
                Ok(rest) => Ok(seq![n as u32] + rest),
            },
        }
    }
}

/// The numbers of a part's number, between which there are dots.
pub open spec fn part_path(part: Seq<char>) -> Result<Seq<u32>, NumberError> {
    numbers_from(text::pieces(part, Sep::Char('.')), 0)
}

/// What comes after the fetch of an attachment: its place in what was fetched.
pub open spec fn attachment_next(
    uid: u32,
    part: Seq<char>,
    answer: First<(), Seq<char>>,
) -> NextModel {
    match answer {
        First::Refused(e) => Next::Fail(MailError::Protocol("UID FETCH attachment: "@ + e)),
        First::Missing => Next::Fail(
            MailError::MessageNotFound(
                "attachment "@ + part + " not found in message "@ + number::decimal(uid as nat),
            ),
        ),
        First::Broken(e) => Next::Fail(MailError::Protocol("fetch: "@ + e)),
        First::Found(_) => match part_path(part) {
            Ok(path) => Next::Send(Command::Section(path)),
            Err(e) => Next::Fail(
                MailError::Protocol("invalid part_id "@ + part + ": "@ + e.text()),
            ),
        },
    }
}

/// The bytes of the attachment; where the part was not found there are none.
pub open spec fn section_bytes(raw: Option<Seq<u8>>, encoding: Option<Seq<char>>) -> Seq<u8> {
    codec::transfer_bytes(
        match raw {
            Some(b) => b,
            None => seq![],
        },
        encoding,
    )
}

/// What the status of a folder comes to: the number of its messages, or of those not seen.
pub open spec fn status_next(r: RequestModel, answer: Result<(u32, Option<u32>), Seq<char>>) -> NextModel {
    match answer {
        Err(e) => Next::Fail(MailError::Protocol("STATUS: "@ + e)),
        Ok((messages, unseen)) => Next::Finish(
            Outcome::Count(
                match r {
                    Request::UnreadCount(_) => match unseen {
                        Some(n) => n,
                        None => 0,
                    },
                    _ => messages,
                },
            ),
        ),
    }
}

/// The model of the answer to the question for the status of a folder.
pub open spec fn status_view(r: Result<(u32, Option<u32>), String>) -> Result<
    (u32, Option<u32>),
    Seq<char>,
> {
    match r {
        Ok(n) => Ok(n),
        Err(e) => Err(e@),
    }
}

fn read_path(part: &str) -> (r: Result<Vec<u32>, NumberError>)
    ensures
        match r {
            Ok(v) => part_path(part@) == Ok::<Seq<u32>, NumberError>(v@),
            Err(e) => part_path(part@) == Err::<Seq<u32>, NumberError>(e),
        },
{
    let pieces = split(&to_chars(part), Sep::Char('.'));
    let ghost all = text::views(pieces@);
    let mut v: Vec<u32> = Vec::new();
    let mut i: usize = 0;
    proof {
        if part_path(part@) is Ok {
            assert(v@ + numbers_from(all, 0)->Ok_0 =~= part_path(part@)->Ok_0);
        }
    }
    while i < pieces.len()
        invariant
            i <= pieces.len(),
            all == text::views(pieces@),
            match numbers_from(all, i as int) {
                Ok(rest) => part_path(part@) == Ok::<Seq<u32>, NumberError>(v@ + rest),
                Err(e) => part_path(part@) == Err::<Seq<u32>, NumberError>(e),
            },
        decreases pieces.len() - i,
    {
        assert(all[i as int] == pieces[i as int]@);
        match read_number(&pieces[i], 10, u32::MAX) {
            Err(e) => {
                return Err(e);
            },
            Ok(n) => {
                let ghost before = v@;
                v.push(n);
                proof {
                    if numbers_from(all, i + 1) is Ok {
                        let rest = numbers_from(all, i + 1)->Ok_0;
                        assert(before + (seq![n] + rest) =~= v@ + rest);
                    }
                }
            },
        }
        i += 1;
    }
    assert(v@ + Seq::<u32>::empty() =~= v@);
    Ok(v)
}

impl Request<String, Vec<u32>, Vec<MailFlag>> {
    /// Begins the request, which needs a session.
    pub fn begin(&self, client: &MailClient) -> (r: Next)
        ensures
            r@ == begun(client@, self@),
    {
        if !client.session {
            return Next::Fail(MailError::NotConnected);
        }
        Next::Send(
            match self {
                Request::ListFolders => Command::List,
                Request::CreateFolder(n) => Command::Create(n.clone()),
                Request::DeleteFolder(n) => Command::Delete(n.clone()),
                Request::RenameFolder(a, b) => Command::Rename(a.clone(), b.clone()),
                Request::MessageCount(f) => Command::Status {
                    folder: f.clone(),
                    items: "(MESSAGES)".to_owned(),
                },
                Request::UnreadCount(f) => Command::Status {
                    folder: f.clone(),
                    items: "(UNSEEN)".to_owned(),
                },
                _ => Command::Noop,
            },
        )
    }

    /// Goes on after the question whether the server is still there.
    pub fn after_noop(&self, result: &Result<(), String>) -> (r: Next)
        ensures
            r@ == noop_next(self@, done_view(*result)),
    {
        match selected_folder(self) {
            Some(f) => Next::Send(Command::Select(f)),
            None => plain_next("NOOP: ", result),
        }
    }

    fn fetch_summaries(&self, sequence: String, query: Query) -> (r: Command)
        ensures
            r@ == summary_fetch(self@, sequence@, query),
    {
        Command::Fetch {
            sequence,
            query: match query {
                Query::Envelope => "(UID FLAGS RFC822.SIZE ENVELOPE)".to_owned(),
                Query::Header =>
                    "(UID FLAGS RFC822.SIZE BODY.PEEK[HEADER.FIELDS (FROM TO CC SUBJECT DATE MESSAGE-ID)])".to_owned(),
                Query::Basic => "(UID FLAGS RFC822.SIZE)".to_owned(),
            },
            by_uid: match self {
                Request::Latest(_, _) => false,
                _ => true,
            },
        }
    }

    /// Goes on after the selection of the folder, which holds so many messages.
    pub fn after_select(&self, result: &Result<u32, String>) -> (r: Next)
        requires
            selects(self@) is Some,
            in_range(self@),
        ensures
            r@ == select_next(self@, number_view(*result)),
    {
        let total: u32 = match result {
            Err(e) => {
                let mut m = "select '".to_owned();
                if let Some(f) = selected_folder(self) {
                    m.append(f.as_str());
                }
                m.append("': ");
                m.append(e.as_str());
                return Next::Fail(MailError::FolderNotFound(m));
            },
            Ok(n) => *n,
        };
        match self {
            Request::Latest(_, count) => match plan_latest(total, *count) {
                Some(sequence) => Next::Send(self.fetch_summaries(sequence, Query::Envelope)),
                None => {
                    let none: Vec<EmailSummary> = Vec::new();
                    assert(text::views(none@) =~= seq![]);
                    Next::Finish(Outcome::Summaries(none))
                },
            },
            Request::Before(_, uid, count) => Next::Send(
                self.fetch_summaries(plan_before(*uid, *count), Query::Envelope),
            ),
            Request::Since(_, uid) => Next::Send(
                self.fetch_summaries(plan_new(*uid), Query::Envelope),
            ),
            Request::Message(_, uid) => Next::Send(
                Command::Fetch {
                    sequence: decimal_text(*uid as u64),
                    query: "(UID FLAGS BODY[])".to_owned(),
                    by_uid: true,
                },
            ),
            Request::Attachment(_, uid, part, _) => {
                let mut query = concat("BODY[", part.as_str());
                query.append("]");
                Next::Send(
                    Command::Fetch { sequence: decimal_text(*uid as u64), query, by_uid: true },
                )
            },
            Request::AddFlags(_, uids, flags) => Next::Send(
                Command::Store {
                    uids: join_uids(uids.as_slice()),
                    query: build_store_query(true, flags),
                },
            ),
            Request::RemoveFlags(_, uids, flags) => Next::Send(
                Command::Store {
                    uids: join_uids(uids.as_slice()),
                    query: build_store_query(false, flags),
                },
            ),
            Request::Move(_, to, uids) => Next::Send(
                Command::Move { uids: join_uids(uids.as_slice()), folder: to.clone() },
            ),
            Request::Copy(_, to, uids) => Next::Send(
                Command::Copy { uids: join_uids(uids.as_slice()), folder: to.clone() },
            ),
            _ => Next::Finish(Outcome::Nothing),
        }
    }

    /// Goes on after a fetch of summaries by this sequence, which asked for this.
    pub fn after_summaries(
        &self,
        sequence: &str,
        query: Query,
        answer: Streamed<Vec<EmailSummary>>,
    ) -> (r: Next)
        ensures
            r@ == summaries_next(self@, sequence@, query, answer@),
    {
        let error = match &answer {
            Streamed::Items(_, None) => None,
            Streamed::Items(_, Some(e)) => Some(concat("fetch: ", e.as_str())),
            Streamed::Refused(e) => {
                let prefix = match self {
                    Request::Latest(_, _) => "FETCH: ",
                    _ => "UID FETCH: ",
                };
                Some(concat(prefix, e.as_str()))
            },
        };
        if let Some(e) = error {
            return match query.fallback() {
                Some(q) => Next::Send(self.fetch_summaries(sequence.to_owned(), q)),
                None => Next::Fail(MailError::Protocol(e)),
            };
        }
        let mails = match answer {
            Streamed::Items(v, _) => v,
            Streamed::Refused(_) => Vec::new(),
        };
        proof {
            lemma_below_all(text::views(mails@));
        }
        let sorted = sort_down(mails, None);
        match self {
            Request::Before(_, uid, count) => Next::Finish(
                Outcome::Summaries(keep_before(sorted, *uid, *count)),
            ),
            _ => Next::Finish(Outcome::Summaries(sorted)),
        }
    }

    /// Ends the change of a folder, or the move or copy of messages.
    pub fn after_change(&self, result: &Result<(), String>) -> (r: Next)
        ensures
            r@ == change_next(self@, done_view(*result)),
    {
        let prefix = match self {
            Request::CreateFolder(_) => "CREATE: ",
            Request::DeleteFolder(_) => "DELETE: ",
            Request::RenameFolder(_, _) => "RENAME: ",
            Request::Move(_, _, _) => "UID MOVE: ",
            _ => "UID COPY: ",
        };
        plain_next(prefix, result)
    }

    /// Ends the request for the number of messages.
    pub fn after_status(&self, answer: &Result<(u32, Option<u32>), String>) -> (r: Next)
        ensures
            r@ == status_next(self@, status_view(*answer)),
    {
        match answer {
            Err(e) => Next::Fail(MailError::Protocol(concat("STATUS: ", e.as_str()))),
            Ok((messages, unseen)) => Next::Finish(
                Outcome::Count(
                    match self {
                        Request::UnreadCount(_) => match unseen {
                            Some(n) => *n,
                            None => 0,
                        },
                        _ => *messages,
                    },
                ),
            ),
        }
    }
}

proof fn lemma_below_all(s: Seq<SummaryModel>)
    ensures
        imap::below(s, None) == s,
    decreases s.len(),
{
    if s.len() > 0 {
        lemma_below_all(s.drop_first());
        assert(seq![s[0]] + s.drop_first() =~= s);
    } else {
        assert(s =~= seq![]);
    }
}

/// Ends the request for the folders.
pub fn after_folders(answer: &Streamed<Vec<ListedFolder>>) -> (r: Next)
    ensures
        r@ == folders_next(answer@),
{
    match answer {
        Streamed::Refused(e) => Next::Fail(MailError::Protocol(concat("LIST: ", e.as_str()))),
        Streamed::Items(_, Some(e)) => Next::Fail(
            MailError::Protocol(concat("LIST stream: ", e.as_str())),
        ),
        Streamed::Items(v, None) => Next::Finish(Outcome::Folders(build_folders(v))),
    }
}

/// Ends a change of flags.
pub fn after_store(answer: &Streamed<Vec<()>>) -> (r: Next)
    ensures
        r@ == store_next(answer@),
{
    match answer {
        Streamed::Refused(e) => Next::Fail(MailError::Protocol(concat("UID STORE: ", e.as_str()))),
        Streamed::Items(_, Some(e)) => Next::Fail(
            MailError::Protocol(concat("STORE stream: ", e.as_str())),
        ),
        Streamed::Items(_, None) => Next::Finish(Outcome::Nothing),
    }
}

/// Ends the request for a message.
pub fn after_message(folder: &str, uid: u32, answer: &First<Fetched>) -> (r: Next)
    requires
        answer@ matches First::Found(m) ==> (m.body matches Some(b) ==> b.len() <= usize::MAX
            / 16),
    ensures
        r@ == message_next(folder@, uid, answer@),
{
    match answer {
        First::Refused(e) => Next::Fail(MailError::Protocol(concat("UID FETCH: ", e.as_str()))),
        First::Missing => {
            let mut m = concat("message ", decimal_text(uid as u64).as_str());
            m.append(" not found in ");
            m.append(folder);
            Next::Fail(MailError::MessageNotFound(m))
        },
        First::Broken(e) => Next::Fail(MailError::Protocol(concat("fetch: ", e.as_str()))),
        First::Found(m) => match &m.body {
            None => Next::Fail(MailError::Parse("empty message body".to_owned())),
            Some(raw) => {
                let own: u32 = match m.uid {
                    Some(n) => n,
                    None => uid,
                };
                match parse_email(raw.as_slice(), folder, own, parse_flags(&m.flags)) {
                    Ok(mail) => Next::Finish(Outcome::Message(mail)),
                    Err(e) => Next::Fail(e),
                }
            },
        },
    }
}

/// Goes on after the fetch of an attachment.
pub fn after_attachment(uid: u32, part: &str, answer: &First<()>) -> (r: Next)
    ensures
        r@ == attachment_next(uid, part@, answer@),
{
    match answer {
        First::Refused(e) => Next::Fail(
            MailError::Protocol(concat("UID FETCH attachment: ", e.as_str())),
        ),
        First::Missing => {
            let mut m = concat("attachment ", part);
            m.append(" not found in message ");
            m.append(decimal_text(uid as u64).as_str());
            Next::Fail(MailError::MessageNotFound(m))
        },
        First::Broken(e) => Next::Fail(MailError::Protocol(concat("fetch: ", e.as_str()))),
        First::Found(_) => match read_path(part) {
            Ok(path) => Next::Send(Command::Section(path)),
            Err(e) => {
                let mut m = concat("invalid part_id ", part);
                m.append(": ");
                m.append(e.message().as_str());
                Next::Fail(MailError::Protocol(m))
            },
        },
    }
}

/// Ends the request for an attachment with what was found at its place.
pub fn after_section(raw: &Option<Vec<u8>>, encoding: Option<&str>) -> (r: Vec<u8>)
    ensures
        r@ == section_bytes(text::opt_view(*raw), codec::opt_str(encoding)),
{
    match raw {
        Some(b) => decode_transfer_encoding(b.as_slice(), encoding),
        None => {
            let none: Vec<u8> = Vec::new();
            assert(none@ =~= seq![]);
            decode_transfer_encoding(none.as_slice(), encoding)
        },
    }
}

/// The summaries that come back for a request are in order, from the newest down.
pub proof fn summaries_in_order(
    r: RequestModel,
    sequence: Seq<char>,
    query: Query,
    answer: Streamed<Seq<SummaryModel>, Seq<char>>,
)
    ensures
        summaries_next(r, sequence, query, answer) matches Next::Finish(Outcome::Summaries(s))
            ==> imap::goes_down(s),
{
    if answer is Items {
        imap::sorted_by_uid(answer->Items_0, 0);
        if let Request::Before(_, uid, count) = r {
            imap::newest_before_bounds(imap::by_uid_down(answer->Items_0), uid, count);
        }
    }
}

/// Summaries are asked for three times at most: by the envelope, by the header fields, and by
/// what every message has. The request fails only where the last of them failed, and whichever of
/// them is answered gives its summaries.
pub proof fn summaries_asked_thrice(
    r: RequestModel,
    sequence: Seq<char>,
    query: Query,
    answer: Streamed<Seq<SummaryModel>, Seq<char>>,
)
    ensures
        summaries_next(r, sequence, Query::Envelope, answer) matches Next::Send(c) ==> c
            == summary_fetch(r, sequence, Query::Header),
        summaries_next(r, sequence, Query::Header, answer) matches Next::Send(c) ==> c
            == summary_fetch(r, sequence, Query::Basic),
        !(summaries_next(r, sequence, Query::Basic, answer) is Send),
        summaries_next(r, sequence, query, answer) is Fail ==> query is Basic,
        answer matches Streamed::Items(_, None) <==> summaries_next(
            r,
            sequence,
            query,
            answer,
        ) is Finish,
{
}

/// How many commands of a request are left at most, this one among them. Of a fetch it counts
/// what it asks for.
pub open spec fn commands_left(command: CommandModel, query: Query) -> nat {
    match command {
        Command::Noop => 6,
        Command::Select(_) => 5,
        Command::Fetch { .. } => match query {
            Query::Envelope => 4,
            Query::Header => 3,
            Query::Basic => 2,
        },
        _ => 1,
    }
}

/// Every answer brings a request nearer to its end, which comes after at most six commands.
pub proof fn requests_run_out(
    r: RequestModel,
    done: Result<(), Seq<char>>,
    selected: Result<u32, Seq<char>>,
    sequence: Seq<char>,
    query: Query,
    listed: Streamed<Seq<SummaryModel>, Seq<char>>,
    uid: u32,
    part: Seq<char>,
    first: First<(), Seq<char>>,
)
    ensures
        commands_left(first_command(r), Query::Envelope) <= 6,
        noop_next(r, done) matches Next::Send(c) ==> commands_left(c, Query::Envelope) < 6,
        select_next(r, selected) matches Next::Send(c) ==> commands_left(c, Query::Envelope) < 5,
        summaries_next(r, sequence, query, listed) matches Next::Send(c) ==> query_after(
            query,
        ) is Some && commands_left(c, query_after(query)->Some_0) < commands_left(
            summary_fetch(r, sequence, query),
            query,
        ),
        attachment_next(uid, part, first) matches Next::Send(c) ==> commands_left(
            c,
            Query::Envelope,
        ) < 2,
        !(change_next(r, done) is Send),
{
}

/// Without a session nothing is asked of the server, and with one every request begins.
pub proof fn session_needed(client: ClientModel, r: RequestModel)
    ensures
        begun(client, r) is Send <==> client.session,
        !client.session ==> begun(client, r) == NextModel::Fail(MailError::NotConnected),
{
}

} // verus!
