//! What the gateway needs to be told before it can serve.

use crate::error::ApiError;
use crate::text::{trim, trimmed};
use vstd::prelude::*;

verus! {

/// Whether `raw` can serve as the access credential: there is more to it
/// than white space.
pub open spec fn is_usable_token(raw: Seq<char>) -> bool {
    trimmed(raw).len() > 0
}

/// The access credential for the snippet upstream, as configured. A
/// credential that is missing or holds nothing but white space is refused;
/// one that is accepted is handed on as it was given.
pub fn access_token(raw: Option<String>) -> (token: Result<String, ApiError>)
    ensures
        match raw {
            Some(given) => if is_usable_token(given@) {
                token == Ok::<String, ApiError>(given)
            } else {
                token == Err::<String, ApiError>(ApiError::MissingToken)
            },
            None => token == Err::<String, ApiError>(ApiError::MissingToken),
        },
{
    match raw {
        Some(given) => {
            if trim(given.as_str()).is_empty() {
                Err(ApiError::MissingToken)
            } else {
                Ok(given)
            }
        },
        None => Err(ApiError::MissingToken),
    }
}

} // verus!
