//! Authors, the values they are made of, and the ways creating one fails.

use crate::common::text::{is_blank, is_trimmed, lemma_trimmed, lemma_trimmed_empty_iff_blank, trim, trimmed};
use uuid::Uuid;
use vstd::prelude::*;
use vstd::std_specs::cmp::PartialEqSpecImpl;
use vstd::std_specs::convert::FromSpecImpl;
use vstd::string::to_string_from_display_ensures;

verus! {

/// A valid author name: never empty, never with whitespace at either end.
#[derive(Debug, Eq, PartialOrd, Ord, Hash)]
pub struct AuthorName(String);

/// The reason a name is refused: nothing is left of it once trimmed.
#[derive(Debug)]
pub struct AuthorNameEmptyError;

/// A valid email address, without whitespace at either end.
#[derive(Debug, Eq, PartialOrd, Ord, Hash)]
pub struct EmailAddress(String);

/// The reason an email address is refused, with the text that was refused.
#[derive(Debug)]
pub struct EmailAddressError {
    pub invalid_email: String,
}

/// A uniquely identifiable author.
#[derive(Debug, PartialEq, Eq, PartialOrd, Ord, Hash)]
pub struct Author {
    id: Uuid,
    name: AuthorName,
    email: EmailAddress,
}

/// What an author is, as contracts speak of one.
pub ghost struct AuthorView {
    pub id: Uuid,
    pub name: Seq<char>,
    pub email: Seq<char>,
}

/// The fields the domain needs to create an [`Author`].
#[derive(Debug, PartialEq, Eq, PartialOrd, Ord, Hash)]
pub struct CreateAuthorRequest {
    name: AuthorName,
    email: EmailAddress,
}

/// What a request asks for, as contracts speak of it.
pub ghost struct CreateAuthorRequestView {
    pub name: Seq<char>,
    pub email: Seq<char>,
}

/// Every way creating an author fails. A name that is taken is told apart;
/// the cause of any other failure is opaque.
#[derive(Debug)]
pub enum CreateAuthorError {
    Duplicate { name: AuthorName },
    Unknown(anyhow::Error),
}

/// A failure as contracts speak of it: the cause of an unknown failure is
/// opaque, so nothing of it is told.
pub ghost enum CreateAuthorErrorView {
    Duplicate { name: Seq<char> },
    Unknown,
}

/// The format an email address must have. Every text has it: the rule that
/// tells addresses apart is not decided yet, and this is where it goes.
pub open spec fn is_valid_email_address(text: Seq<char>) -> bool {
    true
}

/// What a caller is told when `name` is taken.
pub open spec fn duplicate_message(name: Seq<char>) -> Seq<char> {
    "blog with name "@ + name + " already exists"@
}

/// What a caller is told when `text` is no email address.
pub open spec fn invalid_email_message(text: Seq<char>) -> Seq<char> {
    text + " is not a valid email address"@
}

impl View for AuthorName {
    type V = Seq<char>;

    closed spec fn view(&self) -> Seq<char> {
        self.0@
    }
}

impl PartialEq for AuthorName {
    /// Names are equal where their texts are.
    fn eq(&self, other: &Self) -> (equal: bool) {
        self.0 == other.0
    }
}

impl PartialEqSpecImpl for AuthorName {
    open spec fn obeys_eq_spec() -> bool {
        true
    }

    open spec fn eq_spec(&self, other: &Self) -> bool {
        self@ == other@
    }
}

impl Clone for AuthorName {
    fn clone(&self) -> (copy: Self)
        ensures
            copy == *self,
    {
        proof {
            use_type_invariant(self);
        }
        AuthorName(self.0.clone())
    }
}

impl AuthorName {
    #[verifier::type_invariant]
    spec fn well_formed(&self) -> bool {
        self.0@.len() > 0 && is_trimmed(self.0@)
    }

    /// Trims `raw` and accepts what is left unless it is empty.
    pub fn new(raw: &str) -> (made: Result<Self, AuthorNameEmptyError>)
        ensures
            made is Err <==> is_blank(raw@),
            made matches Ok(name) ==> name@ == trimmed(raw@),
    {
        let kept = trim(raw);
        proof {
            lemma_trimmed(raw@);
            lemma_trimmed_empty_iff_blank(raw@);
        }
        if kept.is_empty() {
            Err(AuthorNameEmptyError)
        } else {
            Ok(AuthorName(kept.to_owned()))
        }
    }

    /// The name as text: not empty, and trimmed.
    pub fn as_str(&self) -> (text: &str)
        ensures
            text@ == self@,
            text@.len() > 0,
            is_trimmed(text@),
    {
        proof {
            use_type_invariant(self);
        }
        self.0.as_str()
    }

    /// The name as an owned string.
    pub fn to_string(&self) -> (text: String)
        ensures
            text@ == self@,
    {
        self.0.clone()
    }
}

impl Clone for AuthorNameEmptyError {
    fn clone(&self) -> (copy: Self)
        ensures
            copy == *self,
    {
        AuthorNameEmptyError
    }
}

impl AuthorNameEmptyError {
    /// What the caller is told.
    pub fn to_string(&self) -> (text: String)
        ensures
            text@ == "blog name cannot be empty"@,
    {
        "blog name cannot be empty".to_owned()
    }
}

impl View for EmailAddress {
    type V = Seq<char>;

    closed spec fn view(&self) -> Seq<char> {
        self.0@
    }
}

impl PartialEq for EmailAddress {
    /// Addresses are equal where their texts are.
    fn eq(&self, other: &Self) -> (equal: bool) {
        self.0 == other.0
    }
}

impl PartialEqSpecImpl for EmailAddress {
    open spec fn obeys_eq_spec() -> bool {
        true
    }

    open spec fn eq_spec(&self, other: &Self) -> bool {
        self@ == other@
    }
}

impl Clone for EmailAddress {
    fn clone(&self) -> (copy: Self)
        ensures
            copy == *self,
    {
        proof {
            use_type_invariant(self);
        }
        EmailAddress(self.0.clone())
    }
}

impl EmailAddress {
    #[verifier::type_invariant]
    spec fn well_formed(&self) -> bool {
        is_trimmed(self.0@) && is_valid_email_address(self.0@)
    }

    /// Trims `raw` and accepts what is left if it has the format of an email
    /// address.
    pub fn new(raw: &str) -> (made: Result<Self, EmailAddressError>)
        ensures
            made is Ok <==> is_valid_email_address(trimmed(raw@)),
            made matches Ok(email) ==> email@ == trimmed(raw@),
            made matches Err(refused) ==> refused.invalid_email@ == trimmed(raw@),
    {
        let kept = trim(raw);
        proof {
            lemma_trimmed(raw@);
        }
        match Self::validate_email_address(kept) {
            Ok(()) => Ok(EmailAddress(kept.to_owned())),
            Err(refused) => Err(refused),
        }
    }

    fn validate_email_address(text: &str) -> (checked: Result<(), EmailAddressError>)
        ensures
            checked is Ok <==> is_valid_email_address(text@),
            checked matches Err(refused) ==> refused.invalid_email@ == text@,
    {
        Ok(())
    }

    /// The address as text: trimmed, and of the format of an email address.
    pub fn as_str(&self) -> (text: &str)
        ensures
            text@ == self@,
            is_trimmed(text@),
            is_valid_email_address(text@),
    {
        proof {
            use_type_invariant(self);
        }
        self.0.as_str()
    }

    /// The address as an owned string.
    pub fn to_string(&self) -> (text: String)
        ensures
            text@ == self@,
    {
        self.0.clone()
    }
}

impl Clone for EmailAddressError {
    fn clone(&self) -> (copy: Self)
        ensures
            copy == *self,
    {
        EmailAddressError { invalid_email: self.invalid_email.clone() }
    }
}

impl EmailAddressError {
    /// What the caller is told.
    pub fn to_string(&self) -> (text: String)
        ensures
            text@ == invalid_email_message(self.invalid_email@),
    {
        let mut text = self.invalid_email.clone();
        text.append(" is not a valid email address");
        text
    }
}

impl View for Author {
    type V = AuthorView;

    closed spec fn view(&self) -> AuthorView {
        AuthorView { id: self.id, name: self.name@, email: self.email@ }
    }
}

impl Clone for Author {
    fn clone(&self) -> (copy: Self)
        ensures
            copy == *self,
    {
        Author { id: self.id, name: self.name.clone(), email: self.email.clone() }
    }
}

impl Author {
    pub fn new(id: Uuid, name: AuthorName, email: EmailAddress) -> (author: Self)
        ensures
            author@ == (AuthorView { id, name: name@, email: email@ }),
    {
        Self { id, name, email }
    }

    pub fn id(&self) -> (id: &Uuid)
        ensures
            *id == self@.id,
    {
        &self.id
    }

    pub fn name(&self) -> (name: &AuthorName)
        ensures
            name@ == self@.name,
    {
        &self.name
    }

    pub fn email(&self) -> (email: &EmailAddress)
        ensures
            email@ == self@.email,
    {
        &self.email
    }
}

impl View for CreateAuthorRequest {
    type V = CreateAuthorRequestView;

    closed spec fn view(&self) -> CreateAuthorRequestView {
        CreateAuthorRequestView { name: self.name@, email: self.email@ }
    }
}

impl Clone for CreateAuthorRequest {
    fn clone(&self) -> (copy: Self)
        ensures
            copy == *self,
    {
        CreateAuthorRequest { name: self.name.clone(), email: self.email.clone() }
    }
}

impl CreateAuthorRequest {
    pub fn new(name: AuthorName, email: EmailAddress) -> (request: Self)
        ensures
            request@ == (CreateAuthorRequestView { name: name@, email: email@ }),
    {
        Self { name, email }
    }

    pub fn name(&self) -> (name: &AuthorName)
        ensures
            name@ == self@.name,
    {
        &self.name
    }

    pub fn email(&self) -> (email: &EmailAddress)
        ensures
            email@ == self@.email,
    {
        &self.email
    }
}

impl View for CreateAuthorError {
    type V = CreateAuthorErrorView;

    open spec fn view(&self) -> CreateAuthorErrorView {
        match *self {
            CreateAuthorError::Duplicate { name } => CreateAuthorErrorView::Duplicate { name: name@ },
            CreateAuthorError::Unknown(_) => CreateAuthorErrorView::Unknown,
        }
    }
}

impl FromSpecImpl<anyhow::Error> for CreateAuthorError {
    open spec fn obeys_from_spec() -> bool {
        true
    }

    open spec fn from_spec(cause: anyhow::Error) -> Self {
        CreateAuthorError::Unknown(cause)
    }
}

impl From<anyhow::Error> for CreateAuthorError {
    /// Any failure that has no variant of its own is unknown.
    fn from(cause: anyhow::Error) -> (error: Self) {
        CreateAuthorError::Unknown(cause)
    }
}

impl CreateAuthorError {
    /// What the failure reads as: for a name that is taken, the sentence that
    /// says so; for any other failure, what its cause displays.
    pub fn to_string(&self) -> (text: String)
        ensures
            match *self {
                CreateAuthorError::Duplicate { name } => text@ == duplicate_message(name@),
                CreateAuthorError::Unknown(cause) => to_string_from_display_ensures::<anyhow::Error>(
                    &cause,
                    text,
                ),
            },
    {
        match self {
            CreateAuthorError::Duplicate { name } => {
                let mut text = "blog with name ".to_owned();
                text.append(name.as_str());
                text.append(" already exists");
                text
            },
            CreateAuthorError::Unknown(cause) => cause.to_string(),
        }
    }
}

} // verus!
