//! What holds of every create, whatever the store answers, and what holds
//! of creates against a store that keeps names unique: there the adapter
//! gives what the repository port asks for.

use crate::domain::blog::models::author::{AuthorView, CreateAuthorErrorView, CreateAuthorRequestView};
use crate::domain::blog::ports;
use crate::domain::blog::ports::{count_named, create_author_ensures};
use crate::outbound::sqlite::{
    is_unique_violation, step_spec, translate_spec, CommandView, EndingView, Outcome, Phase,
    ProgressView, RowView, TransactionView, UNIQUE_CONSTRAINT_VIOLATION_CODE,
};
use uuid::Uuid;
use vstd::prelude::*;

verus! {

/// How a create in `state` ends when the store answers its commands with
/// `outcomes`, in turn; `None` where these run out before it has ended.
pub open spec fn run(state: TransactionView, outcomes: Seq<Outcome>, id: Uuid) -> Option<
    EndingView,
>
    decreases outcomes.len(),
{
    if outcomes.len() == 0 {
        None
    } else {
        match step_spec(state, outcomes[0], id) {
            ProgressView::Done(ending) => Some(ending),
            ProgressView::Next(next, _) => run(next, outcomes.drop_first(), id),
        }
    }
}

/// The commands that a create in `state` issues, in order, while the store
/// answers with `outcomes`.
pub open spec fn issued(state: TransactionView, outcomes: Seq<Outcome>, id: Uuid) -> Seq<
    CommandView,
>
    decreases outcomes.len(),
{
    if outcomes.len() == 0 {
        seq![]
    } else {
        match step_spec(state, outcomes[0], id) {
            ProgressView::Done(_) => seq![],
            ProgressView::Next(next, command) => seq![command] + issued(
                next,
                outcomes.drop_first(),
                id,
            ),
        }
    }
}

/// The transactional create in one piece: how it ends when opening the
/// transaction, the insert and the commit have the given outcomes. An
/// outcome behind the first failure is never asked for.
pub open spec fn create_spec(begin: Outcome, insert: Outcome, commit: Outcome, id: Uuid) -> EndingView {
    if begin is Err {
        EndingView::Failed { during: Phase::Begin }
    } else if insert is Err {
        if is_unique_violation(insert->Err_0) {
            EndingView::Conflict
        } else {
            EndingView::Failed { during: Phase::Insert }
        }
    } else if commit is Err {
        EndingView::Failed { during: Phase::Commit }
    } else {
        EndingView::Committed { id }
    }
}

/// Creating an author in one piece: what the create for `request` returns
/// when the three commands have the given outcomes.
pub open spec fn create_author_spec(
    request: CreateAuthorRequestView,
    begin: Outcome,
    insert: Outcome,
    commit: Outcome,
    id: Uuid,
) -> Result<AuthorView, CreateAuthorErrorView> {
    translate_spec(request, create_spec(begin, insert, commit, id))
}

/// Every create ends within three steps, and ends as [`create_spec`] says.
pub proof fn lemma_create_ends_within_three_steps(row: RowView, outcomes: Seq<Outcome>, id: Uuid)
    requires
        outcomes.len() >= 3,
    ensures
        run(TransactionView::Started { row }, outcomes, id) == Some(
            create_spec(outcomes[0], outcomes[1], outcomes[2], id),
        ),
{
    let second = outcomes.drop_first();
    let third = second.drop_first();
    assert(second[0] == outcomes[1]);
    assert(third[0] == outcomes[2]);
    reveal_with_fuel(run, 4);
}

/// A create ends at the first command that fails: what the store would
/// have answered to a later one makes no difference.
pub proof fn lemma_create_ends_at_first_failure(row: RowView, outcomes: Seq<Outcome>, id: Uuid)
    requires
        outcomes.len() >= 1,
    ensures
        outcomes[0] is Err ==> run(TransactionView::Started { row }, outcomes, id) == Some(
            EndingView::Failed { during: Phase::Begin },
        ),
        outcomes.len() >= 2 && outcomes[0] is Ok && outcomes[1] is Err ==> run(
            TransactionView::Started { row },
            outcomes,
            id,
        ) == Some(create_spec(outcomes[0], outcomes[1], Ok(()), id)),
{
    let second = outcomes.drop_first();
    if outcomes.len() >= 2 {
        assert(second[0] == outcomes[1]);
    }
    reveal_with_fuel(run, 3);
}

/// No statement is issued twice and none out of turn: behind the command
/// that opens the transaction a create issues one insert, of its own
/// identifier and its row's fields, and then one commit, or stops before
/// either.
pub proof fn lemma_no_statement_twice(row: RowView, outcomes: Seq<Outcome>, id: Uuid)
    ensures
        issued(TransactionView::Started { row }, outcomes, id).len() <= 2,
        issued(TransactionView::Started { row }, outcomes, id).len() >= 1 ==> issued(
            TransactionView::Started { row },
            outcomes,
            id,
        )[0] == (CommandView::Insert { id, name: row.name, email: row.email }),
        issued(TransactionView::Started { row }, outcomes, id).len() == 2 ==> issued(
            TransactionView::Started { row },
            outcomes,
            id,
        )[1] == CommandView::Commit,
{
    reveal_with_fuel(issued, 4);
}

/// Nothing is committed unless the insert succeeded: a create whose insert
/// failed, by a conflict or otherwise, never issues the commit, so the store
/// keeps what it held before.
pub proof fn lemma_failed_insert_commits_nothing(row: RowView, outcomes: Seq<Outcome>, id: Uuid)
    requires
        outcomes.len() >= 2,
        outcomes[1] is Err,
    ensures
        !issued(TransactionView::Started { row }, outcomes, id).contains(CommandView::Commit),
{
    let second = outcomes.drop_first();
    assert(second[0] == outcomes[1]);
    reveal_with_fuel(issued, 4);
}

/// Creating an author fails with `Duplicate` exactly when the transaction
/// was opened and the insert failed with the store's code for a broken
/// uniqueness constraint; the name it then tells is the request's. Any other
/// failure, at whatever command, is `Unknown`, never `Duplicate`.
pub proof fn lemma_duplicate_exactly_on_conflict(
    request: CreateAuthorRequestView,
    begin: Outcome,
    insert: Outcome,
    commit: Outcome,
    id: Uuid,
)
    ensures
        create_author_spec(request, begin, insert, commit, id) is Err <==> begin is Err
            || insert is Err || commit is Err,
        create_author_spec(request, begin, insert, commit, id) matches Err(
            CreateAuthorErrorView::Duplicate { name },
        ) ==> name == request.name,
        create_author_spec(request, begin, insert, commit, id) matches Err(
            CreateAuthorErrorView::Duplicate { .. },
        ) <==> begin is Ok && insert is Err && is_unique_violation(insert->Err_0),
{
}

/// Creating an author succeeds exactly when all three commands did, and the
/// author it then returns holds the identifier that was inserted, and the
/// name and the email address of the request.
pub proof fn lemma_created_author_is_the_inserted_one(
    request: CreateAuthorRequestView,
    begin: Outcome,
    insert: Outcome,
    commit: Outcome,
    id: Uuid,
)
    ensures
        create_author_spec(request, begin, insert, commit, id) is Ok <==> begin is Ok
            && insert is Ok && commit is Ok,
        create_author_spec(request, begin, insert, commit, id) matches Ok(author) ==> author == (
            AuthorView { id, name: request.name, email: request.email }
        ),
{
}

/// What a store that keeps the names of its authors unique, as the table
/// of authors is declared to, answers to the insert of an author named
/// `name` when it holds `authors` and fails for no other reason.
pub open spec fn insert_outcome(authors: Seq<AuthorView>, name: Seq<char>) -> Outcome {
    if count_named(authors, name) > 0 {
        Err(Some(UNIQUE_CONSTRAINT_VIOLATION_CODE@))
    } else {
        Ok(())
    }
}

/// A create for `request` against such a store: what it returns, and the
/// authors that the store holds afterwards. What was inserted is there once
/// it is committed, and only then.
pub open spec fn create_author_in(
    authors: Seq<AuthorView>,
    request: CreateAuthorRequestView,
    id: Uuid,
) -> (Result<AuthorView, CreateAuthorErrorView>, Seq<AuthorView>) {
    let returned = create_author_spec(
        request,
        Ok(()),
        insert_outcome(authors, request.name),
        Ok(()),
        id,
    );
    match returned {
        Ok(author) => (returned, authors.push(author)),
        Err(_) => (returned, authors),
    }
}

/// Creates for `request`, one for each of `ids` and in their order, against
/// such a store: what each returns, and the authors that the store holds
/// after the last. A store that isolates its transactions runs those of
/// simultaneous callers in some such order.
pub open spec fn create_each_in(
    authors: Seq<AuthorView>,
    request: CreateAuthorRequestView,
    ids: Seq<Uuid>,
) -> (Seq<Result<AuthorView, CreateAuthorErrorView>>, Seq<AuthorView>)
    decreases ids.len(),
{
    if ids.len() == 0 {
        (seq![], authors)
    } else {
        let (earlier, held) = create_each_in(authors, request, ids.drop_last());
        let (returned, left) = create_author_in(held, request, ids.last());
        (earlier.push(returned), left)
    }
}

/// Against a store that keeps names unique, the create gives what the
/// repository port asks for. It succeeds exactly when no author bears the
/// name yet, with the identifier it was given, and fails with `Duplicate`
/// otherwise.
pub proof fn lemma_create_meets_the_port(
    authors: Seq<AuthorView>,
    request: CreateAuthorRequestView,
    id: Uuid,
)
    ensures
        create_author_ensures(
            authors,
            request,
            create_author_in(authors, request, id).0,
            create_author_in(authors, request, id).1,
        ),
        create_author_in(authors, request, id).0 is Ok <==> count_named(authors, request.name)
            == 0,
        create_author_in(authors, request, id).0 matches Ok(author) ==> author.id == id,
        create_author_in(authors, request, id).0 != Err::<AuthorView, _>(
            CreateAuthorErrorView::Unknown,
        ),
{
}

/// Two creates with one name, one after the other, against a store that
/// keeps names unique and holds no author of that name: the first succeeds,
/// the second fails with `Duplicate` of that name and changes nothing, and
/// the store then holds exactly one author of that name.
pub proof fn lemma_second_create_is_duplicate(
    authors: Seq<AuthorView>,
    first: CreateAuthorRequestView,
    second: CreateAuthorRequestView,
    first_id: Uuid,
    second_id: Uuid,
)
    requires
        first.name == second.name,
        count_named(authors, first.name) == 0,
    ensures
        create_author_in(authors, first, first_id).0 is Ok,
        create_author_in(create_author_in(authors, first, first_id).1, second, second_id).0
            == Err::<AuthorView, _>(CreateAuthorErrorView::Duplicate { name: first.name }),
        create_author_in(create_author_in(authors, first, first_id).1, second, second_id).1
            == create_author_in(authors, first, first_id).1,
        count_named(create_author_in(authors, first, first_id).1, first.name) == 1,
{
    let (created, between) = create_author_in(authors, first, first_id);
    let (refused, after) = create_author_in(between, second, second_id);
    lemma_create_meets_the_port(authors, first, first_id);
    lemma_create_meets_the_port(between, second, second_id);
    ports::lemma_second_create_is_duplicate(authors, first, created, between, second, refused, after);
}

/// Any number of creates with one name, in whatever order a store that
/// isolates its transactions and keeps names unique runs them: if no author
/// bears the name before, exactly the first succeeds, every other fails with
/// `Duplicate` of that name, and the store then holds exactly one author of
/// that name.
pub proof fn lemma_exactly_one_create_succeeds(
    authors: Seq<AuthorView>,
    request: CreateAuthorRequestView,
    ids: Seq<Uuid>,
)
    requires
        ids.len() >= 1,
        count_named(authors, request.name) == 0,
    ensures
        create_each_in(authors, request, ids).0.len() == ids.len(),
        create_each_in(authors, request, ids).0[0] is Ok,
        forall|i: int|
            1 <= i < ids.len() ==> #[trigger] create_each_in(authors, request, ids).0[i] == Err::<
                AuthorView,
                _,
            >(CreateAuthorErrorView::Duplicate { name: request.name }),
        count_named(create_each_in(authors, request, ids).1, request.name) == 1,
    decreases ids.len(),
{
    let earlier_ids = ids.drop_last();
    let (earlier, held) = create_each_in(authors, request, earlier_ids);
    if earlier_ids.len() == 0 {
        assert(earlier =~= seq![]);
        assert(held == authors);
        lemma_second_create_is_duplicate(authors, request, request, ids.last(), ids.last());
    } else {
        lemma_exactly_one_create_succeeds(authors, request, earlier_ids);
        lemma_create_meets_the_port(held, request, ids.last());
    }
}

} // verus!
