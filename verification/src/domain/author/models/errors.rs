//! The errors that adapters of the author domain may return, and that its
//! callers must be prepared to handle. The list is closed: a failure that
//! needs handling of its own gets a variant of its own.

use crate::domain::author::models::author::AuthorName;
use vstd::prelude::*;
use vstd::std_specs::convert::FromSpecImpl;
use vstd::string::to_string_from_display_ensures;

verus! {

/// Every way creating an author fails. A name that is taken is told apart;
/// the cause of any other failure is opaque.
#[derive(Debug)]
pub enum CreateAuthorError {
    Duplicate { name: AuthorName },
    Unknown(anyhow::Error),
}

/// A failure as contracts speak of it: the cause of an unknown failure is
/// opaque, so nothing of it is told.
pub ghost enum CreateAuthorErrorView {
    Duplicate { name: Seq<char> },
    Unknown,
}

/// What a caller is told when `name` is taken.
pub open spec fn duplicate_message(name: Seq<char>) -> Seq<char> {
    "author with name "@ + name + " already exists"@
}

impl View for CreateAuthorError {
    type V = CreateAuthorErrorView;

    open spec fn view(&self) -> CreateAuthorErrorView {
        match *self {
            CreateAuthorError::Duplicate { name } => CreateAuthorErrorView::Duplicate { name: name@ },
            CreateAuthorError::Unknown(_) => CreateAuthorErrorView::Unknown,
        }
    }
}

impl FromSpecImpl<anyhow::Error> for CreateAuthorError {
    open spec fn obeys_from_spec() -> bool {
        true
    }

    open spec fn from_spec(cause: anyhow::Error) -> Self {
        CreateAuthorError::Unknown(cause)
    }
}

impl From<anyhow::Error> for CreateAuthorError {
    /// Any failure that has no variant of its own is unknown.
    fn from(cause: anyhow::Error) -> (error: Self) {
        CreateAuthorError::Unknown(cause)
    }
}

impl CreateAuthorError {
    /// What the failure reads as: for a name that is taken, the sentence that
    /// says so; for any other failure, what its cause displays.
    pub fn to_string(&self) -> (text: String)
        ensures
            match *self {
                CreateAuthorError::Duplicate { name } => text@ == duplicate_message(name@),
                CreateAuthorError::Unknown(cause) => to_string_from_display_ensures::<anyhow::Error>(
                    &cause,
                    text,
                ),
            },
    {
        match self {
            CreateAuthorError::Duplicate { name } => {
                let mut text = "author with name ".to_owned();
                text.append(name.as_str());
                text.append(" already exists");
                text
            },
            CreateAuthorError::Unknown(cause) => cause.to_string(),
        }
    }
}

} // verus!
