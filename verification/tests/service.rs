use hexarch::domain::blog::models::author::{
    Author, AuthorName, CreateAuthorError, EmailAddress,
};
use hexarch::domain::service::{complete, SideEffect};
use uuid::Uuid;

fn angus() -> Author {
    Author::new(
        Uuid::new_v4(),
        AuthorName::new("Angus").unwrap(),
        EmailAddress::new("angus@howtocodeit.com").unwrap(),
    )
}

#[test]
fn success_is_counted_and_then_notified() {
    let author = angus();
    let (result, effects) = complete::<Author, CreateAuthorError>(Ok(author.clone()));
    assert_eq!(result.unwrap(), author);
    assert_eq!(effects, vec![SideEffect::RecordSuccess, SideEffect::Notify]);
}

#[test]
fn duplicate_is_counted_as_a_failure_and_returned_unchanged() {
    let error = CreateAuthorError::Duplicate { name: AuthorName::new("Angus").unwrap() };
    let (result, effects) = complete::<Author, CreateAuthorError>(Err(error));
    assert_eq!(effects, vec![SideEffect::RecordFailure]);
    match result {
        Err(CreateAuthorError::Duplicate { name }) => assert_eq!(name.as_str(), "Angus"),
        other => panic!("expected the duplicate, but got {:?}", other),
    }
}

#[test]
fn unknown_failure_is_counted_and_returned_with_its_cause() {
    let error = CreateAuthorError::Unknown(anyhow::Error::msg("connection reset"));
    let (result, effects) = complete::<Author, CreateAuthorError>(Err(error));
    assert_eq!(effects, vec![SideEffect::RecordFailure]);
    match result {
        Err(CreateAuthorError::Unknown(cause)) => assert_eq!(cause.to_string(), "connection reset"),
        other => panic!("expected the unknown failure, but got {:?}", other),
    }
}

#[test]
fn a_failure_is_never_notified() {
    let (_, effects) = complete::<u8, &str>(Err("no"));
    assert!(!effects.contains(&SideEffect::Notify));
    assert!(!effects.contains(&SideEffect::RecordSuccess));
    let (result, effects) = complete::<u8, &str>(Ok(7));
    assert_eq!(result, Ok(7));
    assert!(!effects.contains(&SideEffect::RecordFailure));
}
