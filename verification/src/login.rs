use vstd::prelude::*;

use crate::errors::CmdError;
use crate::http::HttpOutcome;
use crate::token::Lookup;

verus! {

/// The request a login makes: POST {base}/api/login with body {"code": code}.
pub struct LoginCall {
    pub code: String,
}

/// What a successful login yields: the credential to store under
/// (service, username), the username to persist locally, and the message
/// to print.
pub struct LoginOk {
    pub username: String,
    pub token: String,
    pub message: String,
}

/// The userName and userToken fields of a login response body, when the body
/// is a JSON object carrying both as strings.
pub uninterp spec fn login_fields_of(body: Seq<char>) -> Option<(Seq<char>, Seq<char>)>;

/// Relies on serde_json::from_str and Value::get/as_str: reads the userName
/// and userToken string fields of the response body; the result depends on
/// the body alone.
#[verifier::external_body]
fn parse_login_body(body: &str) -> (r: Option<(String, String)>)
    ensures
        r is Some <==> login_fields_of(body@) is Some,
        r matches Some(f) ==> login_fields_of(body@) == Some((f.0@, f.1@)),
{
    let v: serde_json::Value = serde_json::from_str(body).ok()?;
    let name = v.get("userName")?.as_str()?;
    let token = v.get("userToken")?.as_str()?;
    Some((name.to_string(), token.to_string()))
}

/// The message a successful login prints.
pub open spec fn login_message(username: Seq<char>) -> Seq<char> {
    "Logged in as "@ + username
}

/// Decide whether a login may proceed: with a credential already stored it
/// fails with AlreadyAuthenticated and no network call is made; with none
/// stored it yields the call to post.
pub fn login_begin(lookup: Lookup, code: &str) -> (r: Result<LoginCall, CmdError>)
    ensures
        lookup is Found ==> r == Err::<LoginCall, CmdError>(CmdError::AlreadyAuthenticated),
        lookup is Missing ==> (r matches Ok(c) && c.code@ == code@),
        lookup matches Lookup::StoreError(m) ==> (r matches Err(e) && e matches CmdError::LocalIo(
            d,
        ) && d@ == "Error getting current user: "@ + m@),
{
    match lookup {
        Lookup::Found(_) => Err(CmdError::AlreadyAuthenticated),
        Lookup::Missing => Ok(LoginCall { code: String::from_str(code) }),
        Lookup::StoreError(m) => Err(CmdError::LocalIo(
            String::from_str("Error getting current user: ").concat(m.as_str()),
        )),
    }
}

/// Judge the login response: 200 with a well-formed body succeeds and names
/// the credential to store, 404 means the code was invalid, any other status
/// is an upstream error, and transport failures are classified by kind.
pub fn login_conclude(outcome: HttpOutcome) -> (r: Result<LoginOk, CmdError>)
    ensures
        outcome is TimedOut ==> r == Err::<LoginOk, CmdError>(CmdError::NetworkTimeout),
        outcome is ConnectFailed ==> r == Err::<LoginOk, CmdError>(CmdError::NetworkUnreachable),
        outcome matches HttpOutcome::Response(status, body) ==> {
            if status == 200 {
                match login_fields_of(body@) {
                    Some(f) => r matches Ok(ok) && ok.username@ == f.0 && ok.token@ == f.1
                        && ok.message@ == login_message(f.0),
                    None => r == Err::<LoginOk, CmdError>(CmdError::Serialization),
                }
            } else if status == 404 {
                r == Err::<LoginOk, CmdError>(CmdError::InvalidCredentials)
            } else {
                r == Err::<LoginOk, CmdError>(CmdError::UpstreamError(status))
            }
        },
{
    match outcome {
        HttpOutcome::TimedOut => Err(CmdError::NetworkTimeout),
        HttpOutcome::ConnectFailed => Err(CmdError::NetworkUnreachable),
        HttpOutcome::Response(status, body) => {
            if status == 200 {
                match parse_login_body(body.as_str()) {
                    Some((username, token)) => {
                        let message = String::from_str("Logged in as ").concat(username.as_str());
                        Ok(LoginOk { username, token, message })
                    },
                    None => Err(CmdError::Serialization),
                }
            } else if status == 404 {
                Err(CmdError::InvalidCredentials)
            } else {
                Err(CmdError::UpstreamError(status))
            }
        },
    }
}

} // verus!
