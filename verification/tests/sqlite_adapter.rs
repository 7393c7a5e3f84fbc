use hexarch::domain::blog::models::author::{
    Author, AuthorName, CreateAuthorError, CreateAuthorRequest, EmailAddress,
};
use hexarch::outbound::sqlite::{
    is_unique_constraint_violation, save_failure, translate, Command, Ending, Phase, Progress,
    StoreError, Transaction, UNIQUE_CONSTRAINT_VIOLATION_CODE,
};
use hexarch::domain::author::models::author as author_domain;
use hexarch::routes::save_author;
use uuid::{Uuid, Version};

fn request(name: &str) -> CreateAuthorRequest {
    CreateAuthorRequest::new(
        AuthorName::new(name).unwrap(),
        EmailAddress::new("angus@howtocodeit.com").unwrap(),
    )
}

fn failure(code: Option<&str>, message: &'static str) -> StoreError {
    StoreError::new(code.map(str::to_string), anyhow::Error::msg(message))
}

fn next(progress: Progress) -> (Transaction, Command) {
    match progress {
        Progress::Next(transaction, command) => (transaction, command),
        Progress::Done(ending) => panic!("expected the create to go on, but it ended: {:?}", ending),
    }
}

fn done(progress: Progress) -> Ending {
    match progress {
        Progress::Done(ending) => ending,
        Progress::Next(_, command) => panic!("expected the create to end, but got {:?}", command),
    }
}

fn unknown(result: Result<Author, CreateAuthorError>) -> anyhow::Error {
    match result {
        Err(CreateAuthorError::Unknown(cause)) => cause,
        other => panic!("expected an unknown failure, but got {:?}", other),
    }
}

#[test]
fn the_code_of_a_unique_violation_is_2067() {
    assert_eq!(UNIQUE_CONSTRAINT_VIOLATION_CODE, "2067");
}

#[test]
fn create_starts_by_opening_a_transaction() {
    let (_, command) = Transaction::for_request(&request("Angus"));
    assert_eq!(command, Command::Begin);
    let (_, command) = save_author(&author_domain::AuthorName::new("Angus").unwrap());
    assert_eq!(command, Command::Begin);
}

#[test]
fn create_inserts_then_commits_then_returns_the_author() {
    let request = request("  Angus ");
    let id = Uuid::from_u128(0x67e55044_10b1_426f_9247_bb680e5fe0c8);
    let (transaction, _) = Transaction::for_request(&request);
    let (transaction, command) = next(transaction.step_with(Ok(()), id));
    assert_eq!(
        command,
        Command::Insert {
            id,
            name: "Angus".to_string(),
            email: Some("angus@howtocodeit.com".to_string()),
        }
    );
    let other = Uuid::from_u128(1);
    let (transaction, command) = next(transaction.step_with(Ok(()), other));
    assert_eq!(command, Command::Commit);
    let ending = done(transaction.step_with(Ok(()), other));
    assert!(matches!(ending, Ending::Committed { id: committed } if committed == id));
    let author = translate(&request, ending).unwrap();
    assert_eq!(
        author,
        Author::new(id, request.name().clone(), request.email().clone())
    );
    assert_eq!(author.name().as_str(), "Angus");
}

#[test]
fn create_without_an_email_address_inserts_none() {
    let id = Uuid::from_u128(7);
    let (transaction, _) = save_author(&author_domain::AuthorName::new(" Angus ").unwrap());
    let (_, command) = next(transaction.step_with(Ok(()), id));
    assert_eq!(command, Command::Insert { id, name: "Angus".to_string(), email: None });
}

#[test]
fn create_draws_a_random_identifier_for_the_insert() {
    let request = request("Angus");
    let mut drawn = Vec::new();
    for _ in 0..8 {
        let (transaction, _) = Transaction::for_request(&request);
        let (transaction, command) = next(transaction.step(Ok(())));
        let id = match command {
            Command::Insert { id, .. } => id,
            other => panic!("expected an insert, but got {:?}", other),
        };
        assert_eq!(id.get_version(), Some(Version::Random));
        assert!(!drawn.contains(&id));
        drawn.push(id);
        let (transaction, command) = next(transaction.step(Ok(())));
        assert_eq!(command, Command::Commit);
        let author = translate(&request, done(transaction.step(Ok(())))).unwrap();
        assert_eq!(author.id(), &id);
    }
}

#[test]
fn unique_violation_on_insert_is_a_duplicate_of_the_name() {
    let request = request("Angus");
    let (transaction, _) = Transaction::for_request(&request);
    let (transaction, _) = next(transaction.step(Ok(())));
    let ending = done(transaction.step(Err(failure(Some("2067"), "UNIQUE constraint failed"))));
    assert!(matches!(ending, Ending::Conflict));
    match translate(&request, ending) {
        Err(CreateAuthorError::Duplicate { name }) => assert_eq!(&name, request.name()),
        other => panic!("expected a duplicate, but got {:?}", other),
    }
}

#[test]
fn any_other_failure_of_the_insert_is_unknown() {
    let request = request("Angus");
    for code in [None, Some("1555"), Some("2067 "), Some("02067"), Some("206"), Some(""), Some("787")] {
        let (transaction, _) = Transaction::for_request(&request);
        let (transaction, _) = next(transaction.step(Ok(())));
        let ending = done(transaction.step(Err(failure(code, "connection reset"))));
        assert!(matches!(ending, Ending::Failed { during: Phase::Insert, .. }), "{:?}", code);
        let cause = unknown(translate(&request, ending));
        assert_eq!(cause.to_string(), "failed to save blog with name AuthorName(\"Angus\")");
        assert_eq!(
            format!("{:#}", cause),
            "failed to save blog with name AuthorName(\"Angus\"): connection reset"
        );
    }
}

#[test]
fn failure_to_open_the_transaction_is_unknown_whatever_its_code() {
    let request = request("Angus");
    for code in [None, Some("2067"), Some("14")] {
        let (transaction, _) = Transaction::for_request(&request);
        let ending = done(transaction.step(Err(failure(code, "unable to open database file"))));
        assert!(matches!(ending, Ending::Failed { during: Phase::Begin, .. }));
        let cause = unknown(translate(&request, ending));
        assert_eq!(cause.to_string(), "failed to start SQLite transaction");
        assert_eq!(
            format!("{:#}", cause),
            "failed to start SQLite transaction: unable to open database file"
        );
    }
}

#[test]
fn failure_to_commit_is_unknown_whatever_its_code() {
    let request = request("Angus");
    for code in [None, Some("2067"), Some("5")] {
        let (transaction, _) = Transaction::for_request(&request);
        let (transaction, _) = next(transaction.step(Ok(())));
        let (transaction, _) = next(transaction.step(Ok(())));
        let ending = done(transaction.step(Err(failure(code, "database is locked"))));
        assert!(matches!(ending, Ending::Failed { during: Phase::Commit, .. }));
        let cause = unknown(translate(&request, ending));
        assert_eq!(cause.to_string(), "failed to commit SQLite transaction");
        assert_eq!(
            format!("{:#}", cause),
            "failed to commit SQLite transaction: database is locked"
        );
    }
}

#[test]
fn only_the_code_2067_is_a_unique_violation() {
    assert!(is_unique_constraint_violation(&failure(Some("2067"), "x")));
    for code in [None, Some("2067\n"), Some(" 2067"), Some("1555"), Some("19"), Some("")] {
        assert!(!is_unique_constraint_violation(&failure(code, "x")), "{:?}", code);
    }
}

#[test]
fn errors_that_the_database_did_not_return_have_no_code() {
    for error in [sqlx::Error::RowNotFound, sqlx::Error::PoolTimedOut, sqlx::Error::PoolClosed] {
        let text = error.to_string();
        let read = StoreError::from_sqlx(error);
        assert!(!is_unique_constraint_violation(&read));
        let request = request("Angus");
        let (transaction, _) = Transaction::for_request(&request);
        let (transaction, _) = next(transaction.step(Ok(())));
        let cause = unknown(translate(&request, done(transaction.step(Err(read)))));
        assert_eq!(cause.root_cause().to_string(), text);
    }
}

#[test]
fn the_context_of_a_failed_insert_quotes_the_name() {
    assert_eq!(save_failure("Angus"), "failed to save blog with name AuthorName(\"Angus\")");
    assert_eq!(
        save_failure("An\"gus\\Young"),
        "failed to save blog with name AuthorName(\"An\\\"gus\\\\Young\")"
    );
    assert_eq!(save_failure("a\tb"), "failed to save blog with name AuthorName(\"a\\tb\")");
    assert_eq!(save_failure(""), "failed to save blog with name AuthorName(\"\")");
}

#[test]
fn a_failed_create_ends_with_the_cause_it_was_handed() {
    let request = request("Angus");
    let (transaction, _) = Transaction::for_request(&request);
    let (transaction, _) = next(transaction.step(Ok(())));
    let handed = StoreError::new(None, anyhow::Error::msg("connection reset"));
    match done(transaction.step(Err(handed))) {
        Ending::Failed { during, cause } => {
            assert_eq!(during, Phase::Insert);
            assert_eq!(cause.to_string(), "connection reset");
            assert_eq!(cause.chain().count(), 1);
        }
        other => panic!("expected a failure, but got {:?}", other),
    }
}

#[test]
fn an_unknown_error_holds_the_driver_error_as_its_root_cause() {
    let request = request("Angus");
    let (transaction, _) = Transaction::for_request(&request);
    let (transaction, _) = next(transaction.step(Ok(())));
    let dropped = sqlx::Error::Io(std::io::Error::new(
        std::io::ErrorKind::ConnectionAborted,
        "connection dropped",
    ));
    let ending = done(transaction.step(Err(StoreError::from_sqlx(dropped))));
    let cause = unknown(translate(&request, ending));
    assert_eq!(cause.chain().count(), 3);
    assert!(matches!(cause.downcast_ref::<sqlx::Error>(), Some(sqlx::Error::Io(_))));
    assert_eq!(cause.root_cause().to_string(), "connection dropped");
}
