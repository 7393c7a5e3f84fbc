//! Posts.

use crate::common::newtypes::TrimmedString;
use uuid::Uuid;
use vstd::prelude::*;

verus! {

/// A blog post.
#[derive(Debug, PartialEq, Eq, PartialOrd, Ord)]
pub struct Post {
    id: Uuid,
    title: PostTitle,
    content: String,
    author_id: Uuid,
}

/// The validated, formatted title of a blog post.
pub type PostTitle = TrimmedString;

/// The fields required by the domain to create a [`Post`].
#[derive(Debug, PartialEq, Eq, PartialOrd, Ord)]
pub struct CreatePostRequest {
    title: PostTitle,
    content: String,
    author_id: Uuid,
}

/// What a request for a post asks for, as contracts speak of it.
pub ghost struct CreatePostRequestView {
    pub title: Seq<char>,
    pub content: Seq<char>,
    pub author_id: Uuid,
}

impl View for CreatePostRequest {
    type V = CreatePostRequestView;

    closed spec fn view(&self) -> CreatePostRequestView {
        CreatePostRequestView {
            title: self.title@,
            content: self.content@,
            author_id: self.author_id,
        }
    }
}

impl CreatePostRequest {
    pub fn new(title: PostTitle, content: String, author_id: Uuid) -> (request: Self)
        ensures
            request@ == (CreatePostRequestView { title: title@, content: content@, author_id }),
    {
        Self { title, content, author_id }
    }
}

} // verus!
