//! Opaque causes of unexpected failures.

use vstd::prelude::*;

verus! {

/// An error of any kind together with the context it was given, carried
/// through as it is.
#[verifier::external_type_specification]
#[verifier::external_body]
pub struct ExCause(anyhow::Error);

/// The error that has `context` as its outermost message and `cause` as its
/// source.
pub uninterp spec fn contextualized(cause: anyhow::Error, context: Seq<char>) -> anyhow::Error;

/// Calls `anyhow::Error::context`, which wraps `cause` so that `context`
/// becomes the outermost message and `cause` its source. The wrapped error
/// is made of these two alone: no backtrace is taken for it.
#[verifier::external_body]
pub(crate) fn with_context(cause: anyhow::Error, context: String) -> (wrapped: anyhow::Error)
    ensures
        wrapped == contextualized(cause, context@),
{
    cause.context(context)
}

} // verus!
