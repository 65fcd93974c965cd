use vstd::prelude::*;

use crate::errors::CmdError;

verus! {

/// How a blocking HTTP call ended, as the transport reports it:
/// a timeout, a failure to connect, or a response with its status and body.
#[derive(Debug)]
pub enum HttpOutcome {
    /// The request timed out.
    TimedOut,
    /// No connection to the server could be made.
    ConnectFailed,
    /// The server answered: status code and raw body text.
    Response(u16, String),
}

/// Classify an outcome from which nothing but success (status 200) is
/// expected: a timeout becomes NetworkTimeout, a connection failure
/// NetworkUnreachable, and any other status UpstreamError with that status.
pub fn require_ok(outcome: &HttpOutcome) -> (r: Result<(), CmdError>)
    ensures
        outcome is TimedOut ==> r == Err::<(), CmdError>(CmdError::NetworkTimeout),
        outcome is ConnectFailed ==> r == Err::<(), CmdError>(CmdError::NetworkUnreachable),
        outcome matches HttpOutcome::Response(status, _) ==> {
            if *status == 200 {
                r == Ok::<(), CmdError>(())
            } else {
                r == Err::<(), CmdError>(CmdError::UpstreamError(*status))
            }
        },
{
    match outcome {
        HttpOutcome::TimedOut => Err(CmdError::NetworkTimeout),
        HttpOutcome::ConnectFailed => Err(CmdError::NetworkUnreachable),
        HttpOutcome::Response(status, _) => {
            if *status == 200 {
                Ok(())
            } else {
                Err(CmdError::UpstreamError(*status))
            }
        },
    }
}

} // verus!
