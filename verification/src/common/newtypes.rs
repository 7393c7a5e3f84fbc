//! Newtypes shared throughout the application.

use crate::common::text::{is_trimmed, lemma_trimmed, trim, trimmed};
use vstd::prelude::*;
use vstd::std_specs::cmp::PartialEqSpecImpl;

verus! {

/// A [`String`] with leading and trailing whitespace removed.
#[derive(Debug, Eq, PartialOrd, Ord)]
pub struct TrimmedString(String);

impl View for TrimmedString {
    type V = Seq<char>;

    closed spec fn view(&self) -> Seq<char> {
        self.0@
    }
}

impl PartialEq for TrimmedString {
    /// Trimmed strings are equal where their texts are.
    fn eq(&self, other: &Self) -> (equal: bool) {
        self.0 == other.0
    }
}

impl PartialEqSpecImpl for TrimmedString {
    open spec fn obeys_eq_spec() -> bool {
        true
    }

    open spec fn eq_spec(&self, other: &Self) -> bool {
        self@ == other@
    }
}

impl Clone for TrimmedString {
    fn clone(&self) -> (copy: Self)
        ensures
            copy == *self,
    {
        proof {
            use_type_invariant(self);
        }
        TrimmedString(self.0.clone())
    }
}

impl TrimmedString {
    #[verifier::type_invariant]
    spec fn well_formed(&self) -> bool {
        is_trimmed(self.0@)
    }

    pub fn new(raw: &str) -> (made: Self)
        ensures
            made@ == trimmed(raw@),
    {
        proof {
            lemma_trimmed(raw@);
        }
        Self(trim(raw).to_owned())
    }

    pub fn into_string(self) -> (text: String)
        ensures
            text@ == self@,
            is_trimmed(text@),
    {
        proof {
            use_type_invariant(&self);
        }
        self.0
    }

    /// The text, which neither starts nor ends with whitespace.
    pub fn as_str(&self) -> (text: &str)
        ensures
            text@ == self@,
            is_trimmed(text@),
    {
        proof {
            use_type_invariant(self);
        }
        self.0.as_str()
    }

    /// The text as an owned string.
    pub fn to_string(&self) -> (text: String)
        ensures
            text@ == self@,
    {
        self.0.clone()
    }
}

} // verus!
