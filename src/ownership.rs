use vstd::prelude::*;

use crate::error::ApiError;
use crate::text::str_eq;

verus! {

/// Verdict on a mutation of an owned resource. `owner` is the owner column of
/// the row loaded by id, `None` when no row was found. A missing row and a row
/// owned by someone else are both refused as forbidden, so the answer does not
/// tell a non-owner whether the id exists.
pub open spec fn ownership_verdict(owner: Option<Seq<char>>, caller: Seq<char>) -> Result<(), ApiError> {
    match owner {
        Some(o) => if o == caller {
            Ok(())
        } else {
            Err(ApiError::Forbidden)
        },
        None => Err(ApiError::Forbidden),
    }
}

/// Decides whether `caller` (the token subject) may update or delete a
/// resource whose owner column holds `owner`.
pub fn check_ownership(owner: Option<&str>, caller: &str) -> (r: Result<(), ApiError>)
    ensures
        r == ownership_verdict(
            match owner {
                Some(o) => Some(o@),
                None => None,
            },
            caller@,
        ),
{
    match owner {
        Some(o) => if str_eq(o, caller) {
            Ok(())
        } else {
            Err(ApiError::Forbidden)
        },
        None => Err(ApiError::Forbidden),
    }
}

/// A resource owned by `a` can be mutated by `a` and by nobody else: any other
/// authenticated caller gets `Forbidden`.
pub proof fn lemma_only_owner_mutates(a: Seq<char>, b: Seq<char>)
    ensures
        ownership_verdict(Some(a), a) == Ok::<(), ApiError>(()),
        b != a ==> ownership_verdict(Some(a), b) == Err::<(), ApiError>(ApiError::Forbidden),
{
}

/// Mutating an id that no row holds is refused as forbidden, whoever asks.
pub proof fn lemma_missing_resource_forbidden(caller: Seq<char>)
    ensures
        ownership_verdict(None, caller) == Err::<(), ApiError>(ApiError::Forbidden),
{
}

/// Verdict of the creator upgrade: the caller's user row must exist, and the
/// update must have touched it.
pub fn creator_upgrade_verdict(user_exists: bool, rows_updated: u64) -> (r: Result<(), ApiError>)
    ensures
        (user_exists && rows_updated > 0) ==> r == Ok::<(), ApiError>(()),
        !(user_exists && rows_updated > 0) ==> r == Err::<(), ApiError>(ApiError::NotFound),
{
    if !user_exists || rows_updated == 0 {
        Err(ApiError::NotFound)
    } else {
        Ok(())
    }
}

} // verus!
