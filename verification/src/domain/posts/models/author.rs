//! The authors of posts and the values they are made of.

use crate::common::text::{is_blank, is_trimmed, lemma_trimmed, lemma_trimmed_empty_iff_blank, trim, trimmed};
use uuid::Uuid;
use vstd::prelude::*;
use vstd::std_specs::cmp::PartialEqSpecImpl;

verus! {

/// A valid author name: never empty, never with whitespace at either end.
#[derive(Debug, Eq, PartialOrd, Ord, Hash)]
pub struct AuthorName(String);

/// The reason a name is refused: nothing is left of it once trimmed.
#[derive(Debug)]
pub struct AuthorNameEmptyError;

/// A uniquely identifiable author of blog posts.
#[derive(Debug, PartialEq, Eq, PartialOrd, Ord, Hash)]
pub struct Author {
    id: Uuid,
    name: AuthorName,
}

/// What an author is, as contracts speak of one.
pub ghost struct AuthorView {
    pub id: Uuid,
    pub name: Seq<char>,
}

/// The fields the domain needs to create an [`Author`].
#[derive(Debug, PartialEq, Eq, PartialOrd, Ord, Hash)]
pub struct CreateAuthorRequest {
    name: AuthorName,
}

impl View for AuthorName {
    type V = Seq<char>;

    closed spec fn view(&self) -> Seq<char> {
        self.0@
    }
}

impl PartialEq for AuthorName {
    /// Names are equal where their texts are.
    fn eq(&self, other: &Self) -> (equal: bool) {
        self.0 == other.0
    }
}

impl PartialEqSpecImpl for AuthorName {
    open spec fn obeys_eq_spec() -> bool {
        true
    }

    open spec fn eq_spec(&self, other: &Self) -> bool {
        self@ == other@
    }
}

impl Clone for AuthorName {
    fn clone(&self) -> (copy: Self)
        ensures
            copy == *self,
    {
        proof {
            use_type_invariant(self);
        }
        AuthorName(self.0.clone())
    }
}

impl AuthorName {
    #[verifier::type_invariant]
    spec fn well_formed(&self) -> bool {
        self.0@.len() > 0 && is_trimmed(self.0@)
    }

    /// Trims `raw` and accepts what is left unless it is empty.
    pub fn new(raw: &str) -> (made: Result<Self, AuthorNameEmptyError>)
        ensures
            made is Err <==> is_blank(raw@),
            made matches Ok(name) ==> name@ == trimmed(raw@),
    {
        let kept = trim(raw);
        proof {
            lemma_trimmed(raw@);
            lemma_trimmed_empty_iff_blank(raw@);
        }
        if kept.is_empty() {
            Err(AuthorNameEmptyError)
        } else {
            Ok(AuthorName(kept.to_owned()))
        }
    }

    /// The name as text: not empty, and trimmed.
    pub fn as_str(&self) -> (text: &str)
        ensures
            text@ == self@,
            text@.len() > 0,
            is_trimmed(text@),
    {
        proof {
            use_type_invariant(self);
        }
        self.0.as_str()
    }

    /// The name as an owned string.
    pub fn to_string(&self) -> (text: String)
        ensures
            text@ == self@,
    {
        self.0.clone()
    }
}

impl Clone for AuthorNameEmptyError {
    fn clone(&self) -> (copy: Self)
        ensures
            copy == *self,
    {
        AuthorNameEmptyError
    }
}

impl AuthorNameEmptyError {
    /// What the caller is told.
    pub fn to_string(&self) -> (text: String)
        ensures
            text@ == "author name cannot be empty"@,
    {
        "author name cannot be empty".to_owned()
    }
}

impl View for Author {
    type V = AuthorView;

    closed spec fn view(&self) -> AuthorView {
        AuthorView { id: self.id, name: self.name@ }
    }
}

impl Clone for Author {
    fn clone(&self) -> (copy: Self)
        ensures
            copy == *self,
    {
        Author { id: self.id, name: self.name.clone() }
    }
}

impl Author {
    pub fn new(id: Uuid, name: AuthorName) -> (author: Self)
        ensures
            author@ == (AuthorView { id, name: name@ }),
    {
        Self { id, name }
    }

    pub fn id(&self) -> (id: &Uuid)
        ensures
            *id == self@.id,
    {
        &self.id
    }

    pub fn name(&self) -> (name: &AuthorName)
        ensures
            name@ == self@.name,
    {
        &self.name
    }
}

impl View for CreateAuthorRequest {
    type V = Seq<char>;

    closed spec fn view(&self) -> Seq<char> {
        self.name@
    }
}

impl Clone for CreateAuthorRequest {
    fn clone(&self) -> (copy: Self)
        ensures
            copy == *self,
    {
        CreateAuthorRequest { name: self.name.clone() }
    }
}

impl CreateAuthorRequest {
    pub fn new(name: AuthorName) -> (request: Self)
        ensures
            request@ == name@,
    {
        Self { name }
    }

    pub fn name(&self) -> (name: &AuthorName)
        ensures
            name@ == self@,
    {
        &self.name
    }
}

} // verus!
