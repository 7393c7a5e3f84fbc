//! What the blog domain asks of a repository, stated over the authors that
//! the store behind it holds.
//!
//! A repository creates an author in one piece: callers see the store
//! either with the new author or as it was before, never in between. That
//! no two authors share a name is the store's own duty, kept by a
//! constraint of the store and not by a look before the insert, so that it
//! holds for simultaneous callers too.

use crate::domain::blog::models::author::{AuthorView, CreateAuthorErrorView, CreateAuthorRequestView};
use vstd::prelude::*;

verus! {

/// How many of `authors` bear `name`.
pub open spec fn count_named(authors: Seq<AuthorView>, name: Seq<char>) -> nat
    decreases authors.len(),
{
    if authors.len() == 0 {
        0
    } else if authors.last().name == name {
        count_named(authors.drop_last(), name) + 1
    } else {
        count_named(authors.drop_last(), name)
    }
}

/// What a repository owes for one create: the store held `before` when it
/// was asked for `request`, it returned `returned`, and the store holds
/// `after`.
///
/// - After a success the returned author is in the store, with the fields
///   of the request, and no author of that name was there before.
/// - After `Duplicate` an author of the requested name was there before,
///   and the store is unchanged.
/// - After `Unknown` the author may be in the store or not: the caller
///   cannot tell, and must not take either for granted. It is there only
///   if no author of that name was there before.
pub open spec fn create_author_ensures(
    before: Seq<AuthorView>,
    request: CreateAuthorRequestView,
    returned: Result<AuthorView, CreateAuthorErrorView>,
    after: Seq<AuthorView>,
) -> bool {
    match returned {
        Ok(author) => {
            &&& author.name == request.name
            &&& author.email == request.email
            &&& count_named(before, request.name) == 0
            &&& after == before.push(author)
        },
        Err(CreateAuthorErrorView::Duplicate { name }) => {
            &&& name == request.name
            &&& count_named(before, name) > 0
            &&& after == before
        },
        Err(CreateAuthorErrorView::Unknown) => {
            ||| after == before
            ||| count_named(before, request.name) == 0 && exists|author: AuthorView|
                author.name == request.name && author.email == request.email && after
                    == #[trigger] before.push(author)
        },
    }
}

/// One more author adds one to the count of its own name and nothing to
/// that of any other.
pub proof fn lemma_count_named_push(authors: Seq<AuthorView>, author: AuthorView, name: Seq<char>)
    ensures
        count_named(authors.push(author), name) == count_named(authors, name) + if author.name
            == name {
            1nat
        } else {
            0nat
        },
{
    assert(authors.push(author).drop_last() =~= authors);
}

/// The author that a successful create returns is in the store afterwards,
/// under the name of the request, and is the only one of that name.
pub proof fn lemma_created_author_is_stored(
    before: Seq<AuthorView>,
    request: CreateAuthorRequestView,
    returned: Result<AuthorView, CreateAuthorErrorView>,
    after: Seq<AuthorView>,
)
    requires
        create_author_ensures(before, request, returned, after),
        returned is Ok,
    ensures
        after.contains(returned->Ok_0),
        returned->Ok_0.name == request.name,
        count_named(after, request.name) == 1,
{
    let author = returned->Ok_0;
    assert(before.push(author)[before.len() as int] == author);
    lemma_count_named_push(before, author, request.name);
}

/// A create never makes a name occur twice, however it ends: if no name
/// occurred twice before, the requested name occurs at most once
/// afterwards, and so does every other.
pub proof fn lemma_names_stay_unique(
    before: Seq<AuthorView>,
    request: CreateAuthorRequestView,
    returned: Result<AuthorView, CreateAuthorErrorView>,
    after: Seq<AuthorView>,
    name: Seq<char>,
)
    requires
        create_author_ensures(before, request, returned, after),
        count_named(before, name) <= 1,
    ensures
        count_named(after, name) <= 1,
{
    if after != before {
        let author = choose|author: AuthorView|
            author.name == request.name && after == #[trigger] before.push(author);
        lemma_count_named_push(before, author, name);
    }
}

/// Two creates with one name, one after the other: once the first has
/// succeeded the second does not. Unless it fails for an unknown reason it
/// ends with `Duplicate` of that name and leaves the store as it was, with
/// exactly one author of that name.
pub proof fn lemma_second_create_is_duplicate(
    before: Seq<AuthorView>,
    first: CreateAuthorRequestView,
    first_returned: Result<AuthorView, CreateAuthorErrorView>,
    between: Seq<AuthorView>,
    second: CreateAuthorRequestView,
    second_returned: Result<AuthorView, CreateAuthorErrorView>,
    after: Seq<AuthorView>,
)
    requires
        first.name == second.name,
        create_author_ensures(before, first, first_returned, between),
        create_author_ensures(between, second, second_returned, after),
        first_returned is Ok,
    ensures
        second_returned is Err,
        second_returned != Err::<AuthorView, _>(CreateAuthorErrorView::Unknown) ==> {
            &&& second_returned == Err::<AuthorView, _>(
                CreateAuthorErrorView::Duplicate { name: first.name },
            )
            &&& after == between
            &&& count_named(after, first.name) == 1
        },
{
    lemma_created_author_is_stored(before, first, first_returned, between);
}

} // verus!
