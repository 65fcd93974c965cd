use vstd::prelude::*;

verus! {

/// The failure kinds a command can report. Every remote or local failure is
/// mapped to one of these at the point of occurrence and handed back to the
/// top-level handler unchanged; nothing is retried.
#[derive(Debug)]
pub enum CmdError {
    /// Login was attempted while a credential is already stored.
    AlreadyAuthenticated,
    /// No credential is stored, but the command needs one.
    NotAuthenticated,
    /// The login code was rejected by the service.
    InvalidCredentials,
    /// A network call timed out.
    NetworkTimeout,
    /// A network connection could not be established.
    NetworkUnreachable,
    /// The service answered with an unexpected HTTP status.
    UpstreamError(u16),
    /// A local filesystem or credential-store failure, with its description.
    LocalIo(String),
    /// The media tool failed or produced unusable output, with a description.
    MediaTool(String),
    /// A response body could not be decoded.
    Serialization,
}

/// The character for a single decimal digit.
pub open spec fn dec_digit_char(d: nat) -> char {
    if d == 0 {
        '0'
    } else if d == 1 {
        '1'
    } else if d == 2 {
        '2'
    } else if d == 3 {
        '3'
    } else if d == 4 {
        '4'
    } else if d == 5 {
        '5'
    } else if d == 6 {
        '6'
    } else if d == 7 {
        '7'
    } else if d == 8 {
        '8'
    } else {
        '9'
    }
}

/// The decimal rendering of a number, most significant digit first.
pub open spec fn dec_rep(n: nat) -> Seq<char>
    decreases n,
{
    if n < 10 {
        seq![dec_digit_char(n)]
    } else {
        dec_rep(n / 10) + seq![dec_digit_char(n % 10)]
    }
}

fn digit_str(d: u64) -> (r: &'static str)
    requires
        d < 10,
    ensures
        r@ == seq![dec_digit_char(d as nat)],
{
    if d == 0 {
        proof {
            reveal_strlit("0");
            assert("0"@ =~= seq![dec_digit_char(0)]);
        }
        "0"
    } else if d == 1 {
        proof {
            reveal_strlit("1");
            assert("1"@ =~= seq![dec_digit_char(1)]);
        }
        "1"
    } else if d == 2 {
        proof {
            reveal_strlit("2");
            assert("2"@ =~= seq![dec_digit_char(2)]);
        }
        "2"
    } else if d == 3 {
        proof {
            reveal_strlit("3");
            assert("3"@ =~= seq![dec_digit_char(3)]);
        }
        "3"
    } else if d == 4 {
        proof {
            reveal_strlit("4");
            assert("4"@ =~= seq![dec_digit_char(4)]);
        }
        "4"
    } else if d == 5 {
        proof {
            reveal_strlit("5");
            assert("5"@ =~= seq![dec_digit_char(5)]);
        }
        "5"
    } else if d == 6 {
        proof {
            reveal_strlit("6");
            assert("6"@ =~= seq![dec_digit_char(6)]);
        }
        "6"
    } else if d == 7 {
        proof {
            reveal_strlit("7");
            assert("7"@ =~= seq![dec_digit_char(7)]);
        }
        "7"
    } else if d == 8 {
        proof {
            reveal_strlit("8");
            assert("8"@ =~= seq![dec_digit_char(8)]);
        }
        "8"
    } else {
        proof {
            reveal_strlit("9");
            assert("9"@ =~= seq![dec_digit_char(d as nat)]);
        }
        "9"
    }
}

/// Render a number in decimal, most significant digit first.
pub fn u64_dec(n: u64) -> (r: String)
    ensures
        r@ == dec_rep(n as nat),
    decreases n,
{
    if n < 10 {
        String::from_str(digit_str(n))
    } else {
        let mut s = u64_dec(n / 10);
        s.append(digit_str(n % 10));
        proof {
            assert(s@ =~= dec_rep(n as nat));
        }
        s
    }
}

impl CmdError {
    /// The human-readable description that the top level prints after "Error: ".
    pub open spec fn spec_message(&self) -> Seq<char> {
        match self {
            CmdError::AlreadyAuthenticated => "Already logged in"@,
            CmdError::NotAuthenticated => "Token not found, try logging in first with login command"@,
            CmdError::InvalidCredentials => "Invalid credentials"@,
            CmdError::NetworkTimeout => "Request timed out"@,
            CmdError::NetworkUnreachable => "Cannot connect to server"@,
            CmdError::UpstreamError(status) => "Upstream error: status "@ + dec_rep(*status as nat),
            CmdError::LocalIo(m) => m@,
            CmdError::MediaTool(m) => m@,
            CmdError::Serialization => "Malformed response body"@,
        }
    }

    /// The human-readable description of this error.
    pub fn message(&self) -> (r: String)
        ensures
            r@ == self.spec_message(),
    {
        match self {
            CmdError::AlreadyAuthenticated => String::from_str("Already logged in"),
            CmdError::NotAuthenticated => String::from_str(
                "Token not found, try logging in first with login command",
            ),
            CmdError::InvalidCredentials => String::from_str("Invalid credentials"),
            CmdError::NetworkTimeout => String::from_str("Request timed out"),
            CmdError::NetworkUnreachable => String::from_str("Cannot connect to server"),
            CmdError::UpstreamError(status) => String::from_str("Upstream error: status ").concat(
                u64_dec(*status as u64).as_str(),
            ),
            CmdError::LocalIo(m) => m.clone(),
            CmdError::MediaTool(m) => m.clone(),
            CmdError::Serialization => String::from_str("Malformed response body"),
        }
    }
}

} // verus!
