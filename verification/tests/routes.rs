use hexarch::domain::author::models::author::AuthorName;
use hexarch::outbound::sqlite::{Command, Ending, Phase, Progress, StoreError};
use hexarch::inbound::http::StatusCode;
use hexarch::routes::{
    author_name, create_author, save_author, ApiError, ApiErrorData, ApiResponseBody, ApiSuccess,
    CreateAuthorRequestBody, CreateAuthorResponseData, ErrorResponse,
};
use uuid::Uuid;

fn angus() -> AuthorName {
    AuthorName::new("Angus").unwrap()
}

#[test]
fn name_of_the_body_is_trimmed() {
    let body = CreateAuthorRequestBody { name: " Angus ".to_string() };
    assert_eq!(author_name(&body).unwrap().as_str(), "Angus");
}

#[test]
fn blank_name_is_unprocessable() {
    for name in ["", "   "] {
        let body = CreateAuthorRequestBody { name: name.to_string() };
        match author_name(&body) {
            Err(ApiError::UnprocessableEntity(message)) => {
                assert_eq!(message, "author name cannot be empty")
            }
            other => panic!("expected the name to be refused, but got {:?}", other),
        }
    }
}

#[test]
fn saving_inserts_the_name_alone() {
    let id = Uuid::from_u128(9);
    let (transaction, command) = save_author(&angus());
    assert_eq!(command, Command::Begin);
    match transaction.step_with(Ok(()), id) {
        Progress::Next(_, command) => {
            assert_eq!(command, Command::Insert { id, name: "Angus".to_string(), email: None })
        }
        Progress::Done(ending) => panic!("expected an insert, but got {:?}", ending),
    }
}

#[test]
fn committed_row_is_answered_with_its_identifier() {
    let id = Uuid::from_u128(0x67e55044_10b1_426f_9247_bb680e5fe0c8);
    let response = create_author(&angus(), Ending::Committed { id }).unwrap();
    assert_eq!(
        response,
        ApiSuccess::new(
            StatusCode::Created,
            CreateAuthorResponseData { id: "67e55044-10b1-426f-9247-bb680e5fe0c8".to_string() }
        )
    );
    assert_eq!(response.1.status_code, 201);
}

#[test]
fn conflict_is_unprocessable_and_names_the_author() {
    match create_author(&angus(), Ending::Conflict) {
        Err(ApiError::UnprocessableEntity(message)) => {
            assert_eq!(message, "author with name Angus already exists")
        }
        other => panic!("expected a conflict, but got {:?}", other),
    }
}

#[test]
fn failure_is_internal_and_keeps_its_cause_for_the_log() {
    let cases = [
        (Phase::Begin, "failed to start transaction: boom"),
        (Phase::Insert, "boom"),
        (Phase::Commit, "failed to commit transaction: boom"),
    ];
    for (during, logged) in cases {
        let ending = Ending::Failed { during, cause: anyhow::Error::msg("boom") };
        let told = create_author(&angus(), ending).unwrap_err();
        match &told {
            ApiError::InternalServerError(cause) => assert_eq!(format!("{:#}", cause), logged),
            other => panic!("expected an internal error, but got {:?}", other),
        }
        let (status, body): ErrorResponse = told.into_response();
        assert_eq!(status, StatusCode::InternalServerError);
        assert_eq!(
            body,
            ApiResponseBody {
                status_code: 500,
                data: ApiErrorData { message: "Internal server error".to_string() }
            }
        );
    }
}

#[test]
fn unprocessable_entity_answers_with_its_message() {
    let (status, body) = ApiError::UnprocessableEntity("no".to_string()).into_response();
    assert_eq!(status, StatusCode::UnprocessableEntity);
    assert_eq!(body, ApiResponseBody::new_error(StatusCode::UnprocessableEntity, "no".to_string()));
}

#[test]
fn any_cause_becomes_an_internal_error() {
    match ApiError::from(anyhow::Error::msg("boom")) {
        ApiError::InternalServerError(cause) => assert_eq!(cause.to_string(), "boom"),
        other => panic!("expected an internal error, but got {:?}", other),
    }
}

#[test]
fn conflict_of_the_store_ends_the_saving_without_a_commit() {
    let (transaction, _) = save_author(&angus());
    let transaction = match transaction.step(Ok(())) {
        Progress::Next(transaction, _) => transaction,
        Progress::Done(ending) => panic!("expected an insert, but got {:?}", ending),
    };
    let taken = StoreError::new(Some("2067".to_string()), anyhow::Error::msg("UNIQUE"));
    match transaction.step(Err(taken)) {
        Progress::Done(Ending::Conflict) => {}
        other => panic!("expected a conflict, but got {:?}", other),
    }
}
