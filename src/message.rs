use vstd::prelude::*;
use vstd::string::StringExecFns;
use crate::fetch::{AttemptError, FetchError};

verus! {

/// The text of one decimal digit.
pub open spec fn digit_text(d: nat) -> Seq<char> {
    if d == 0 {
        "0"@
    } else if d == 1 {
        "1"@
    } else if d == 2 {
        "2"@
    } else if d == 3 {
        "3"@
    } else if d == 4 {
        "4"@
    } else if d == 5 {
        "5"@
    } else if d == 6 {
        "6"@
    } else if d == 7 {
        "7"@
    } else if d == 8 {
        "8"@
    } else {
        "9"@
    }
}

/// `n` written in decimal, without leading zeros.
pub open spec fn decimal(n: nat) -> Seq<char>
    decreases n,
{
    if n < 10 {
        digit_text(n)
    } else {
        decimal(n / 10) + digit_text(n % 10)
    }
}

fn digit_str(d: usize) -> (r: &'static str)
    requires
        d < 10,
    ensures
        r@ == digit_text(d as nat),
{
    if d == 0 {
        "0"
    } else if d == 1 {
        "1"
    } else if d == 2 {
        "2"
    } else if d == 3 {
        "3"
    } else if d == 4 {
        "4"
    } else if d == 5 {
        "5"
    } else if d == 6 {
        "6"
    } else if d == 7 {
        "7"
    } else if d == 8 {
        "8"
    } else {
        "9"
    }
}

/// `n` in decimal.
pub fn decimal_string(n: usize) -> (r: String)
    ensures
        r@ == decimal(n as nat),
    decreases n,
{
    if n < 10 {
        String::from_str(digit_str(n))
    } else {
        let mut s = decimal_string(n / 10);
        s.append(digit_str(n % 10));
        s
    }
}

impl AttemptError {
    /// The text shown for this cause.
    pub open spec fn spec_message(&self) -> Seq<char> {
        match self {
            AttemptError::Client(e) => "Failed to create HTTP client: "@ + e@,
            AttemptError::Timeout => "Request timed out after 30 seconds"@,
            AttemptError::Connect => "Failed to connect to server"@,
            AttemptError::Dns => "DNS resolution failed"@,
            AttemptError::Network(e) => "Network error: "@ + e@,
            AttemptError::Status(s) => "Server returned error "@ + s@,
            AttemptError::Decode(e) => "Failed to parse JSON: "@ + e@,
        }
    }

    pub fn message(&self) -> (r: String)
        ensures
            r@ == self.spec_message(),
    {
        match self {
            AttemptError::Client(e) => String::from_str("Failed to create HTTP client: ").concat(
                e.as_str(),
            ),
            AttemptError::Timeout => String::from_str("Request timed out after 30 seconds"),
            AttemptError::Connect => String::from_str("Failed to connect to server"),
            AttemptError::Dns => String::from_str("DNS resolution failed"),
            AttemptError::Network(e) => String::from_str("Network error: ").concat(e.as_str()),
            AttemptError::Status(s) => String::from_str("Server returned error ").concat(
                s.as_str(),
            ),
            AttemptError::Decode(e) => String::from_str("Failed to parse JSON: ").concat(
                e.as_str(),
            ),
        }
    }
}

impl FetchError {
    /// The text shown for this failure; the last cause is empty when no
    /// mirror was tried.
    pub open spec fn spec_message(&self) -> Seq<char> {
        match self {
            FetchError::InvalidCategory => "Invalid category name"@,
            FetchError::AllMirrorsFailed { attempts, last } => "Failed to fetch app list after trying "@
                + decimal(*attempts as nat) + " mirror(s). Last error: "@ + match last {
                Some(e) => e.spec_message(),
                None => Seq::empty(),
            } + ". Check your internet connection and firewall settings."@,
        }
    }

    pub fn message(&self) -> (r: String)
        ensures
            r@ == self.spec_message(),
    {
        match self {
            FetchError::InvalidCategory => String::from_str("Invalid category name"),
            FetchError::AllMirrorsFailed { attempts, last } => {
                let mut s = String::from_str("Failed to fetch app list after trying ");
                let count = decimal_string(*attempts);
                s.append(count.as_str());
                s.append(" mirror(s). Last error: ");
                match last {
                    Some(e) => {
                        let cause = e.message();
                        s.append(cause.as_str());
                    },
                    None => {},
                }
                s.append(". Check your internet connection and firewall settings.");
                proof {
                    assert(s@ =~= self.spec_message());
                }
                s
            },
        }
    }
}

} // verus!
