use vstd::prelude::*;

use crate::errors::CmdError;
use crate::token::{remove_token, DeleteOutcome};

verus! {

/// The message a successful logout prints.
pub open spec fn logout_message(username: Seq<char>) -> Seq<char> {
    "Logged out of "@ + username
}

/// Decide what logout reports from what removing the credential came to:
/// a removed credential yields the farewell message, a store holding none
/// means the caller was never authenticated, and a store failure is a local
/// error.
pub fn logout_conclude(o: DeleteOutcome, username: &str) -> (r: Result<String, CmdError>)
    ensures
        o is Deleted ==> (r matches Ok(m) && m@ == logout_message(username@)),
        o is NoEntry ==> r == Err::<String, CmdError>(CmdError::NotAuthenticated),
        o matches DeleteOutcome::Failure(m) ==> r == Err::<String, CmdError>(CmdError::LocalIo(m)),
{
    match o {
        DeleteOutcome::Deleted => Ok(String::from_str("Logged out of ").concat(username)),
        DeleteOutcome::NoEntry => Err(CmdError::NotAuthenticated),
        DeleteOutcome::Failure(m) => Err(CmdError::LocalIo(m)),
    }
}

/// Log the user out: remove the stored credential. Fails with
/// NotAuthenticated when no credential is stored. The caller clears the
/// locally saved username afterwards.
pub fn logout(service: &str, username: &str) -> (r: Result<String, CmdError>)
    ensures
        r matches Ok(m) ==> m@ == logout_message(username@),
        r matches Err(e) ==> (e is NotAuthenticated || e is LocalIo),
{
    logout_conclude(remove_token(service, username), username)
}

} // verus!
