//! Reading a user id from its text form.

use crate::model::UserId;
use vstd::prelude::*;

verus! {

/// What `Uuid::parse_str` of `uuid` makes of a text: the 128-bit value of the
/// UUID that it reads, or the message of the error with which it rejects the
/// text. The parser looks at the text alone.
pub uninterp spec fn uuid_reading(text: Seq<char>) -> Result<u128, Seq<char>>;

/// Calls `Uuid::parse_str` and converts what comes back: a UUID by
/// `as_u128`, an error by its `Display` text. Trusted: the result is the one
/// that `uuid_reading` names for this text.
#[verifier::external_body]
pub(crate) fn read_uuid(text: &str) -> (r: Result<UserId, String>)
    ensures
        match r {
            Ok(id) => uuid_reading(text@) == Ok::<u128, Seq<char>>(id),
            Err(message) => uuid_reading(text@) == Err::<u128, Seq<char>>(message@),
        },
{
    match uuid::Uuid::parse_str(text) {
        Ok(id) => Ok(id.as_u128()),
        Err(e) => Err(e.to_string()),
    }
}

} // verus!
