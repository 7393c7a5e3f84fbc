use hexarch::common::newtypes::TrimmedString;
use hexarch::domain::author::models::author as author_domain;
use hexarch::domain::blog::models::author::{
    Author, AuthorName, AuthorNameEmptyError, CreateAuthorError, CreateAuthorRequest, EmailAddress,
    EmailAddressError,
};
use hexarch::domain::posts::models::author as posts_domain;
use hexarch::domain::posts::models::errors as posts_errors;
use hexarch::domain::posts::models::errors::CreatePostError;
use hexarch::domain::posts::models::post::{CreatePostRequest, PostTitle};
use uuid::Uuid;

/// The code points that carry Unicode's `White_Space`.
const WHITE_SPACE: [u32; 25] = [
    0x09, 0x0A, 0x0B, 0x0C, 0x0D, 0x20, 0x85, 0xA0, 0x1680, 0x2000, 0x2001, 0x2002, 0x2003, 0x2004,
    0x2005, 0x2006, 0x2007, 0x2008, 0x2009, 0x200A, 0x2028, 0x2029, 0x202F, 0x205F, 0x3000,
];

#[test]
fn author_name_is_trimmed() {
    let name = AuthorName::new("  Angus  ").unwrap();
    assert_eq!(name.to_string(), "Angus");
    assert_eq!(name.as_str(), "Angus");
}

#[test]
fn author_name_of_blanks_is_refused() {
    assert!(AuthorName::new("   ").is_err());
    assert!(AuthorName::new("").is_err());
    assert!(AuthorName::new("\t\r\n").is_err());
    assert!(AuthorName::new("\u{3000}\u{a0} \u{2028}").is_err());
}

#[test]
fn author_name_keeps_what_is_inside() {
    let name = AuthorName::new("\n Angus \t Young\u{2003}").unwrap();
    assert_eq!(name.as_str(), "Angus \t Young");
}

#[test]
fn author_name_without_outer_whitespace_is_kept_whole() {
    assert_eq!(AuthorName::new("Angus").unwrap().as_str(), "Angus");
    assert_eq!(AuthorName::new("a").unwrap().as_str(), "a");
    assert_eq!(AuthorName::new("Ångström 🎸").unwrap().as_str(), "Ångström 🎸");
}

#[test]
fn every_white_space_code_point_is_trimmed() {
    for number in WHITE_SPACE {
        let space = char::from_u32(number).unwrap();
        let raw = format!("{space}x{space}");
        assert_eq!(AuthorName::new(&raw).unwrap().as_str(), "x", "U+{number:04X}");
        assert!(AuthorName::new(&space.to_string()).is_err(), "U+{number:04X}");
    }
}

#[test]
fn no_other_code_point_is_trimmed() {
    let mut refused = Vec::new();
    for number in 0..=0x10FFFF_u32 {
        if let Some(c) = char::from_u32(number) {
            let made = AuthorName::new(&c.to_string());
            assert_eq!(made.is_err(), c.is_whitespace(), "U+{number:04X}");
            match made {
                Ok(name) => assert_eq!(name.as_str(), c.to_string()),
                Err(_) => refused.push(number),
            }
        }
    }
    assert_eq!(refused, WHITE_SPACE);
}

#[test]
fn characters_that_look_blank_but_are_not_white_space_stay() {
    for raw in ["\u{200B}", "\u{180E}", "\u{FEFF}", "\u{1F}", "\u{2060}"] {
        assert_eq!(AuthorName::new(raw).unwrap().as_str(), raw);
    }
}

#[test]
fn trimming_twice_changes_nothing() {
    for raw in ["  Angus  ", "Angus", " a b ", "\u{2003}x\u{85}"] {
        let once = AuthorName::new(raw).unwrap();
        let twice = AuthorName::new(once.as_str()).unwrap();
        assert_eq!(once, twice);
    }
    let once = TrimmedString::new("   ");
    assert_eq!(TrimmedString::new(once.as_str()), once);
}

#[test]
fn author_name_agrees_with_trim_of_std() {
    for raw in ["", " ", "x", " x", "x ", "  x  y  ", "\u{a0}x\u{a0}", "x\u{200B} ", "\r\n"] {
        match AuthorName::new(raw) {
            Ok(name) => assert_eq!(name.as_str(), raw.trim()),
            Err(_) => assert!(raw.trim().is_empty()),
        }
    }
}

#[test]
fn author_names_compare_by_their_text() {
    let angus = AuthorName::new("Angus").unwrap();
    let malcolm = AuthorName::new(" Malcolm").unwrap();
    assert!(angus < malcolm);
    assert_eq!(angus, AuthorName::new("Angus ").unwrap());
    assert_ne!(angus, malcolm);
    assert_eq!(angus.clone(), angus);
}

#[test]
fn empty_name_error_says_so() {
    let refused: AuthorNameEmptyError = AuthorName::new("   ").unwrap_err();
    assert_eq!(refused.to_string(), "blog name cannot be empty");
    assert_eq!(refused.clone().to_string(), "blog name cannot be empty");
    let refused = author_domain::AuthorName::new(" ").unwrap_err();
    assert_eq!(refused.to_string(), "author name cannot be empty");
}

#[test]
fn email_address_is_trimmed() {
    let email = EmailAddress::new("  angus@howtocodeit.com \n").unwrap();
    assert_eq!(email.to_string(), "angus@howtocodeit.com");
    assert_eq!(email.as_str(), "angus@howtocodeit.com");
    assert_eq!(email.clone(), email);
}

#[test]
fn every_text_is_accepted_as_an_email_address() {
    assert_eq!(EmailAddress::new("").unwrap().as_str(), "");
    assert_eq!(EmailAddress::new("   ").unwrap().as_str(), "");
    assert_eq!(EmailAddress::new("not an address").unwrap().as_str(), "not an address");
}

#[test]
fn email_address_error_names_the_text() {
    let refused = EmailAddressError { invalid_email: "angus".to_string() };
    assert_eq!(refused.to_string(), "angus is not a valid email address");
    assert_eq!(refused.clone().invalid_email, "angus");
}

#[test]
fn trimmed_string_is_trimmed() {
    let title = TrimmedString::new("  Hexagonal architecture \t");
    assert_eq!(title.as_str(), "Hexagonal architecture");
    assert_eq!(title.to_string(), "Hexagonal architecture");
    assert_eq!(title.clone(), title);
    assert_eq!(title.into_string(), "Hexagonal architecture");
    assert_eq!(TrimmedString::new(" \n ").into_string(), "");
    assert_eq!(TrimmedString::new("").into_string(), "");
}

#[test]
fn author_holds_what_it_was_made_of() {
    let id = Uuid::new_v4();
    let name = AuthorName::new("Angus").unwrap();
    let email = EmailAddress::new("angus@howtocodeit.com").unwrap();
    let author = Author::new(id, name.clone(), email.clone());
    assert_eq!(author.id(), &id);
    assert_eq!(author.name(), &name);
    assert_eq!(author.email(), &email);
    assert_eq!(author.clone(), author);
    assert_ne!(author, Author::new(Uuid::new_v4(), name, email));
}

#[test]
fn author_of_the_author_domain_holds_what_it_was_made_of() {
    let id = Uuid::new_v4();
    let name = author_domain::AuthorName::new(" Angus ").unwrap();
    let author = author_domain::Author::new(id, name.clone());
    assert_eq!(author.id(), &id);
    assert_eq!(author.name().as_str(), "Angus");
    assert_eq!(author.clone(), author);
    let request = author_domain::CreateAuthorRequest::new(name.clone());
    assert_eq!(request.name(), &name);
    assert_eq!(request.clone(), request);
}

#[test]
fn request_holds_what_it_was_made_of() {
    let name = AuthorName::new("Angus").unwrap();
    let email = EmailAddress::new("angus@howtocodeit.com").unwrap();
    let request = CreateAuthorRequest::new(name.clone(), email.clone());
    assert_eq!(request.name(), &name);
    assert_eq!(request.email(), &email);
    assert_eq!(request.clone(), request);
}

#[test]
fn duplicate_error_names_the_author() {
    let error = CreateAuthorError::Duplicate { name: AuthorName::new("Angus").unwrap() };
    assert_eq!(error.to_string(), "blog with name Angus already exists");
    let error = author_domain::CreateAuthorError::Duplicate {
        name: author_domain::AuthorName::new("Angus").unwrap(),
    };
    assert_eq!(error.to_string(), "author with name Angus already exists");
}

#[test]
fn unknown_error_reads_as_its_cause() {
    let error = CreateAuthorError::Unknown(anyhow::Error::msg("connection reset"));
    assert_eq!(error.to_string(), "connection reset");
    let error = author_domain::CreateAuthorError::Unknown(anyhow::Error::msg("disk full"));
    assert_eq!(error.to_string(), "disk full");
}

#[test]
fn post_error_names_the_author_it_missed() {
    let id = Uuid::from_u128(0x67e55044_10b1_426f_9247_bb680e5fe0c8);
    let error = CreatePostError::AuthorNotFound { id };
    assert_eq!(
        error.to_string(),
        "author with id 67e55044-10b1-426f-9247-bb680e5fe0c8 was not found"
    );
    assert_eq!(error.clone(), error);
}

#[test]
fn post_request_is_made_of_a_trimmed_title() {
    let author_id = Uuid::new_v4();
    let title: PostTitle = TrimmedString::new(" On ports ");
    let request = CreatePostRequest::new(title.clone(), "...".to_string(), author_id);
    assert_eq!(request, CreatePostRequest::new(title, "...".to_string(), author_id));
}

#[test]
fn any_cause_becomes_an_unknown_error() {
    match CreateAuthorError::from(anyhow::Error::msg("boom")) {
        CreateAuthorError::Unknown(cause) => assert_eq!(cause.to_string(), "boom"),
        other => panic!("expected an unknown failure, but got {:?}", other),
    }
    match author_domain::CreateAuthorError::from(anyhow::Error::msg("boom")) {
        author_domain::CreateAuthorError::Unknown(cause) => assert_eq!(cause.to_string(), "boom"),
        other => panic!("expected an unknown failure, but got {:?}", other),
    }
    match posts_errors::CreateAuthorError::from(anyhow::Error::msg("boom")) {
        posts_errors::CreateAuthorError::Unknown(cause) => assert_eq!(cause.to_string(), "boom"),
        other => panic!("expected an unknown failure, but got {:?}", other),
    }
}

#[test]
fn author_of_the_posts_domain_holds_what_it_was_made_of() {
    let id = Uuid::new_v4();
    let name = posts_domain::AuthorName::new(" Angus ").unwrap();
    assert_eq!(name.as_str(), "Angus");
    let author = posts_domain::Author::new(id, name.clone());
    assert_eq!(author.id(), &id);
    assert_eq!(author.name(), &name);
    let request = posts_domain::CreateAuthorRequest::new(name.clone());
    assert_eq!(request.name(), &name);
    let refused = posts_domain::AuthorName::new("  ").unwrap_err();
    assert_eq!(refused.to_string(), "author name cannot be empty");
    let error = posts_errors::CreateAuthorError::Duplicate { name };
    assert_eq!(error.to_string(), "author with name Angus already exists");
}

#[test]
fn email_addresses_and_trimmed_strings_compare_by_their_text() {
    assert_eq!(EmailAddress::new(" a@b.c ").unwrap(), EmailAddress::new("a@b.c").unwrap());
    assert_ne!(EmailAddress::new("a@b.c").unwrap(), EmailAddress::new("A@b.c").unwrap());
    assert_eq!(TrimmedString::new(" x "), TrimmedString::new("x"));
    assert_ne!(TrimmedString::new("x y"), TrimmedString::new("xy"));
    assert!(TrimmedString::new("a") < TrimmedString::new(" b"));
}
