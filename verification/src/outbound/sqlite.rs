//! The transactional create of the SQLite adapter.
//!
//! One create runs `Started → Inserting → Committing` and ends, from any of
//! the three, in a failure, from the second also in a conflict, and from the
//! last in the committed row. The adapter performs each [`Command`] against
//! the store and hands what came of it to [`Transaction::step`]; nothing is
//! kept from one create to the next, and no statement is ever issued twice.
//! How a create ended is then translated into the terms of the domain.

use crate::common::failure::{contextualized, with_context};
use crate::common::identifier::fresh_id;
use crate::domain::blog::models::author::{
    Author, AuthorView, CreateAuthorError, CreateAuthorErrorView, CreateAuthorRequest,
    CreateAuthorRequestView,
};
use uuid::Uuid;
use vstd::prelude::*;

pub mod laws;

verus! {

/// The code by which SQLite reports that a statement broke a uniqueness
/// constraint.
pub const UNIQUE_CONSTRAINT_VIOLATION_CODE: &'static str = "2067";

/// Any error of the database driver, carried through as it is.
#[verifier::external_type_specification]
#[verifier::external_body]
pub struct ExDriverError(sqlx::Error);

/// What the adapter reads of a failed statement: the store's own code for
/// the failure, where the store gave one, and the failure itself.
#[derive(Debug)]
pub struct StoreError {
    code: Option<String>,
    cause: anyhow::Error,
}

/// What came of a command: it succeeded, or it failed with the store's code,
/// if there is one.
pub type Outcome = Result<(), Option<Seq<char>>>;

/// What the adapter must do next against the store.
#[derive(Debug, PartialEq, Eq)]
pub enum Command {
    /// Open a transaction.
    Begin,
    /// Insert the row of a new author within the open transaction.
    Insert { id: Uuid, name: String, email: Option<String> },
    /// Commit the open transaction.
    Commit,
}

/// A command as contracts speak of it.
pub ghost enum CommandView {
    Begin,
    Insert { id: Uuid, name: Seq<char>, email: Option<Seq<char>> },
    Commit,
}

/// The command at which a create failed.
#[derive(Clone, Copy, Debug, PartialEq, Eq, Structural)]
pub enum Phase {
    Begin,
    Insert,
    Commit,
}

/// How a create ended.
#[derive(Debug)]
pub enum Ending {
    /// The row is inserted under `id` and the transaction is committed.
    Committed { id: Uuid },
    /// The store refused the row because its name is taken. Nothing was
    /// committed.
    Conflict,
    /// A command failed for any other reason. After a failed commit it is
    /// not known whether the row is there.
    Failed { during: Phase, cause: anyhow::Error },
}

/// An ending as contracts speak of it: the cause of a failure is opaque.
pub ghost enum EndingView {
    Committed { id: Uuid },
    Conflict,
    Failed { during: Phase },
}

/// The fields of a row apart from its identifier.
pub ghost struct RowView {
    pub name: Seq<char>,
    pub email: Option<Seq<char>>,
}

#[derive(Debug)]
enum Stage {
    Started,
    Inserting { id: Uuid },
    Committing { id: Uuid },
}

/// One create that has not ended yet: the row it is to insert and how far
/// it has come.
#[derive(Debug)]
pub struct Transaction {
    name: String,
    email: Option<String>,
    stage: Stage,
}

/// A create that has not ended yet, as contracts speak of it. From
/// `Inserting` on it holds the identifier that it gave the row.
pub ghost enum TransactionView {
    /// The command to open a transaction is out.
    Started { row: RowView },
    /// The transaction is open and the insert is out.
    Inserting { row: RowView, id: Uuid },
    /// The row is inserted and the commit is out.
    Committing { row: RowView, id: Uuid },
}

/// Where a create stands after a step: it goes on with another command, or
/// it has ended.
#[derive(Debug)]
pub enum Progress {
    Next(Transaction, Command),
    Done(Ending),
}

/// A step's result as contracts speak of it.
pub ghost enum ProgressView {
    Next(TransactionView, CommandView),
    Done(EndingView),
}

/// Text in double quotes, escaped as std's `Debug` for `str` escapes it.
pub uninterp spec fn debug_quoted(text: Seq<char>) -> Seq<char>;

/// Calls `format!` with `{:?}` on a string slice, which is std's `Debug` for
/// `str`: the text in double quotes, with what cannot be printed as it is
/// escaped.
#[verifier::external_body]
fn quote(text: &str) -> (quoted: String)
    ensures
        quoted@ == debug_quoted(text@),
{
    format!("{:?}", text)
}

/// The code that the database gave with `error`: none where the error is
/// not one that the database returned, or where the database gave none.
pub uninterp spec fn database_code(error: sqlx::Error) -> Option<Seq<char>>;

/// Reads the code of a database error: `sqlx::Error::as_database_error`
/// tells the errors that the database returned from all others, and
/// `DatabaseError::code` gives the code of such an error where it has one.
/// Which code that is, is the driver's to say; it depends on the error
/// alone.
#[verifier::external_body]
fn database_error_code(error: &sqlx::Error) -> (code: Option<String>)
    ensures
        text_view(code) == database_code(*error),
{
    match error.as_database_error() {
        Some(returned) => match returned.code() {
            Some(code) => Some(code.into_owned()),
            None => None,
        },
        None => None,
    }
}

/// Calls `anyhow::Error::new`, which boxes the driver's error as an opaque
/// cause. Nothing is claimed of the result: with the error it may hold a
/// backtrace, which is taken where the process asks for one.
#[verifier::external_body]
fn into_cause(error: sqlx::Error) -> (cause: anyhow::Error) {
    anyhow::Error::new(error)
}

/// The view of a text that may be missing.
pub open spec fn text_view(text: Option<String>) -> Option<Seq<char>> {
    match text {
        Some(text) => Some(text@),
        None => None,
    }
}

/// Whether `code` is the store's code for a broken uniqueness constraint.
pub open spec fn is_unique_violation(code: Option<Seq<char>>) -> bool {
    code == Some(UNIQUE_CONSTRAINT_VIOLATION_CODE@)
}

/// An outcome as contracts speak of it.
pub open spec fn outcome_view(outcome: Result<(), StoreError>) -> Outcome {
    match outcome {
        Ok(_) => Ok(()),
        Err(error) => Err(error@),
    }
}

/// What a step decides. In `state`, the command that led there has come to
/// `outcome`; `id` is the identifier that a create about to insert gives its
/// row.
///
/// - A transaction that cannot be opened ends the create as failed.
/// - A failed insert ends it in a conflict where the store's code says that
///   a uniqueness constraint was broken, and as failed else. Nothing is
///   committed in either case.
/// - A failed commit ends it as failed; the insert is not tried again.
/// - A successful commit ends it with the identifier of the inserted row.
pub open spec fn step_spec(state: TransactionView, outcome: Outcome, id: Uuid) -> ProgressView {
    match state {
        TransactionView::Started { row } => match outcome {
            Ok(_) => ProgressView::Next(
                TransactionView::Inserting { row, id },
                CommandView::Insert { id, name: row.name, email: row.email },
            ),
            Err(_) => ProgressView::Done(EndingView::Failed { during: Phase::Begin }),
        },
        TransactionView::Inserting { row, id: inserted } => match outcome {
            Ok(_) => ProgressView::Next(
                TransactionView::Committing { row, id: inserted },
                CommandView::Commit,
            ),
            Err(code) => if is_unique_violation(code) {
                ProgressView::Done(EndingView::Conflict)
            } else {
                ProgressView::Done(EndingView::Failed { during: Phase::Insert })
            },
        },
        TransactionView::Committing { row, id: inserted } => match outcome {
            Ok(_) => ProgressView::Done(EndingView::Committed { id: inserted }),
            Err(_) => ProgressView::Done(EndingView::Failed { during: Phase::Commit }),
        },
    }
}

/// What the context of a failed insert for `name` reads.
pub open spec fn save_failure_context(name: Seq<char>) -> Seq<char> {
    "failed to save blog with name AuthorName("@ + debug_quoted(name) + ")"@
}

/// What is put before the cause of a create for `name` that failed at the
/// command `during`.
pub open spec fn failure_context(during: Phase, name: Seq<char>) -> Seq<char> {
    match during {
        Phase::Begin => "failed to start SQLite transaction"@,
        Phase::Insert => save_failure_context(name),
        Phase::Commit => "failed to commit SQLite transaction"@,
    }
}

/// Whether `ending` is a failure with nothing but the cause of `outcome`.
pub open spec fn keeps_cause(ending: Ending, outcome: Result<(), StoreError>) -> bool {
    ending matches Ending::Failed { cause, .. } ==> outcome matches Err(error) && cause
        == error.cause()
}

/// The row that creating an author for `request` inserts.
pub open spec fn row_of(request: CreateAuthorRequestView) -> RowView {
    RowView { name: request.name, email: Some(request.email) }
}

/// An ending in the terms of the domain: the committed row is the author
/// that was asked for, under the identifier of the row; a conflict is a
/// duplicate of the requested name; every other failure is unknown, at
/// whichever command it came.
pub open spec fn translate_spec(request: CreateAuthorRequestView, ending: EndingView) -> Result<
    AuthorView,
    CreateAuthorErrorView,
> {
    match ending {
        EndingView::Committed { id } => Ok(
            AuthorView { id, name: request.name, email: request.email },
        ),
        EndingView::Conflict => Err(CreateAuthorErrorView::Duplicate { name: request.name }),
        EndingView::Failed { .. } => Err(CreateAuthorErrorView::Unknown),
    }
}

/// A result of the domain as contracts speak of it.
pub open spec fn result_view(result: Result<Author, CreateAuthorError>) -> Result<
    AuthorView,
    CreateAuthorErrorView,
> {
    match result {
        Ok(author) => Ok(author@),
        Err(error) => Err(error@),
    }
}

impl View for StoreError {
    type V = Option<Seq<char>>;

    closed spec fn view(&self) -> Option<Seq<char>> {
        text_view(self.code)
    }
}

impl View for Command {
    type V = CommandView;

    open spec fn view(&self) -> CommandView {
        match *self {
            Command::Begin => CommandView::Begin,
            Command::Insert { id, name, email } => CommandView::Insert {
                id,
                name: name@,
                email: text_view(email),
            },
            Command::Commit => CommandView::Commit,
        }
    }
}

impl View for Ending {
    type V = EndingView;

    open spec fn view(&self) -> EndingView {
        match *self {
            Ending::Committed { id } => EndingView::Committed { id },
            Ending::Conflict => EndingView::Conflict,
            Ending::Failed { during, .. } => EndingView::Failed { during },
        }
    }
}

impl View for Transaction {
    type V = TransactionView;

    closed spec fn view(&self) -> TransactionView {
        let row = RowView { name: self.name@, email: text_view(self.email) };
        match self.stage {
            Stage::Started => TransactionView::Started { row },
            Stage::Inserting { id } => TransactionView::Inserting { row, id },
            Stage::Committing { id } => TransactionView::Committing { row, id },
        }
    }
}

impl View for Progress {
    type V = ProgressView;

    open spec fn view(&self) -> ProgressView {
        match *self {
            Progress::Next(transaction, command) => ProgressView::Next(transaction@, command@),
            Progress::Done(ending) => ProgressView::Done(ending@),
        }
    }
}

impl StoreError {
    /// The failure itself.
    pub closed spec fn cause(&self) -> anyhow::Error {
        self.cause
    }

    /// A failure with the store's code for it, if the store gave one.
    pub fn new(code: Option<String>, cause: anyhow::Error) -> (error: Self)
        ensures
            error@ == text_view(code),
            error.cause() == cause,
    {
        StoreError { code, cause }
    }

    /// What the adapter reads of an error of the driver: the code that the
    /// database gave with it, and the error itself as the cause.
    pub fn from_sqlx(error: sqlx::Error) -> (read: Self)
        ensures
            read@ == database_code(error),
    {
        let code = database_error_code(&error);
        StoreError { code, cause: into_cause(error) }
    }
}

/// Whether `error` reports that the statement broke a uniqueness constraint.
pub fn is_unique_constraint_violation(error: &StoreError) -> (conflict: bool)
    ensures
        conflict == is_unique_violation(error@),
{
    match &error.code {
        Some(code) => *code == UNIQUE_CONSTRAINT_VIOLATION_CODE.to_owned(),
        None => false,
    }
}

impl Transaction {
    /// A create of a row with the given fields, with the command that opens
    /// its transaction.
    pub(crate) fn start(name: String, email: Option<String>) -> (started: (Transaction, Command))
        ensures
            started.0@ == (TransactionView::Started {
                row: RowView { name: name@, email: text_view(email) },
            }),
            started.1@ == CommandView::Begin,
    {
        (Transaction { name, email, stage: Stage::Started }, Command::Begin)
    }

    /// A create of the row of the author that `request` asks for.
    pub fn for_request(request: &CreateAuthorRequest) -> (started: (Transaction, Command))
        ensures
            started.0@ == (TransactionView::Started { row: row_of(request@) }),
            started.1@ == CommandView::Begin,
    {
        Self::start(request.name().to_string(), Some(request.email().to_string()))
    }

    /// Takes what came of the last command and decides how the create goes
    /// on. The identifier of the row is drawn when the insert is due; a
    /// create that is past that point keeps the one it has. A create that
    /// fails ends with the cause of the outcome it was handed.
    pub fn step(self, outcome: Result<(), StoreError>) -> (progress: Progress)
        ensures
            exists|id: Uuid| progress@ == step_spec(self@, outcome_view(outcome), id),
            progress matches Progress::Done(ending) ==> keeps_cause(ending, outcome),
    {
        let id = match self.stage {
            Stage::Started => fresh_id(),
            Stage::Inserting { id } => id,
            Stage::Committing { id } => id,
        };
        let progress = self.step_with(outcome, id);
        assert(progress@ == step_spec(self@, outcome_view(outcome), id));
        progress
    }

    /// [`Transaction::step`] for a given identifier: a create about to
    /// insert gives `id` to its row.
    pub fn step_with(self, outcome: Result<(), StoreError>, id: Uuid) -> (progress: Progress)
        ensures
            progress@ == step_spec(self@, outcome_view(outcome), id),
            progress matches Progress::Done(ending) ==> keeps_cause(ending, outcome),
    {
        let Transaction { name, email, stage } = self;
        match stage {
            Stage::Started => match outcome {
                Ok(()) => {
                    let command = Command::Insert { id, name: name.clone(), email: email.clone() };
                    Progress::Next(Transaction { name, email, stage: Stage::Inserting { id } }, command)
                },
                Err(error) => Progress::Done(
                    Ending::Failed { during: Phase::Begin, cause: error.cause },
                ),
            },
            Stage::Inserting { id: inserted } => match outcome {
                Ok(()) => Progress::Next(
                    Transaction { name, email, stage: Stage::Committing { id: inserted } },
                    Command::Commit,
                ),
                Err(error) => if is_unique_constraint_violation(&error) {
                    Progress::Done(Ending::Conflict)
                } else {
                    Progress::Done(Ending::Failed { during: Phase::Insert, cause: error.cause })
                },
            },
            Stage::Committing { id: inserted } => match outcome {
                Ok(()) => Progress::Done(Ending::Committed { id: inserted }),
                Err(error) => Progress::Done(
                    Ending::Failed { during: Phase::Commit, cause: error.cause },
                ),
            },
        }
    }
}

/// The context of a failed insert for `name`.
pub fn save_failure(name: &str) -> (context: String)
    ensures
        context@ == save_failure_context(name@),
{
    let mut context = "failed to save blog with name AuthorName(".to_owned();
    let quoted = quote(name);
    context.append(quoted.as_str());
    context.append(")");
    context
}

/// Tells how the create for `request` ended in the terms of the domain. The
/// cause of a failure is kept as the source of the unknown error, under a
/// message that says which command failed.
pub fn translate(request: &CreateAuthorRequest, ending: Ending) -> (result: Result<
    Author,
    CreateAuthorError,
>)
    ensures
        result_view(result) == translate_spec(request@, ending@),
        ending matches Ending::Failed { during, cause } ==> result matches Err(
            CreateAuthorError::Unknown(wrapped),
        ) && wrapped == contextualized(cause, failure_context(during, request@.name)),
{
    match ending {
        Ending::Committed { id } => Ok(
            Author::new(id, request.name().clone(), request.email().clone()),
        ),
        Ending::Conflict => Err(CreateAuthorError::Duplicate { name: request.name().clone() }),
        Ending::Failed { during, cause } => {
            let context = match during {
                Phase::Begin => "failed to start SQLite transaction".to_owned(),
                Phase::Insert => save_failure(request.name().as_str()),
                Phase::Commit => "failed to commit SQLite transaction".to_owned(),
            };
            Err(CreateAuthorError::Unknown(with_context(cause, context)))
        },
    }
}

} // verus!
