//! Names in lower snake case.

use vstd::prelude::*;

verus! {

/// The lower snake case form of `name`, as `ra_ap_stdx::to_lower_snake_case`
/// gives it: `CompletionKind` becomes `completion_kind`.
pub uninterp spec fn lower_snake_case(name: Seq<char>) -> Seq<char>;

/// Calls `ra_ap_stdx::to_lower_snake_case`.
///
/// Not proved: that the call returns, does not panic, and gives a string that
/// depends on nothing but the characters of `name`. The function splits the
/// name into words and joins their lower-case forms with underscores; what
/// it gives on a name is not stated here.
#[verifier::external_body]
pub(crate) fn to_lower_snake_case(name: &str) -> (snake: String)
    ensures
        snake@ == lower_snake_case(name@),
{
    ra_ap_stdx::to_lower_snake_case(name)
}

} // verus!
