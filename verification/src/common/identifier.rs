//! Identifiers of stored entities.

use uuid::Uuid;
use vstd::prelude::*;
use vstd::string::to_string_from_display_ensures;

verus! {

/// A 128-bit universally unique identifier, carried through as it is.
#[verifier::external_type_specification]
#[verifier::external_body]
pub struct ExUuid(Uuid);

/// Calls `Uuid::new_v4`, which draws a random version 4 identifier. Nothing
/// is claimed of the value: two calls may give any two identifiers.
#[verifier::external_body]
pub(crate) fn fresh_id() -> (id: Uuid) {
    Uuid::new_v4()
}

/// Whether `text` is what formatting `id` for display gave.
pub open spec fn is_text_of(id: Uuid, text: Seq<char>) -> bool {
    exists|s: String| s@ == text && #[trigger] to_string_from_display_ensures::<Uuid>(&id, s)
}

/// The text of `id`, as statements and responses carry it.
pub fn id_text(id: &Uuid) -> (text: String)
    ensures
        is_text_of(*id, text@),
{
    id.to_string()
}

} // verus!
