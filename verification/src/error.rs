//! Error conditions reported while serving requests.
//!
//! Every failure while serving a request is recovered locally and
//! mapped to one response shape carrying a short human-readable
//! message; the transport draws no distinction between client-input
//! errors and primitive-internal errors.

use crate::b64::decode_error_message;
use crate::oprf::pprf_error_message;
use vstd::prelude::*;
use vstd::string::StringExecFns;

verus! {

/// Server error conditions.
#[derive(Debug)]
pub enum Error {
    /// Shared state guard could not be acquired (a prior holder died).
    LockFailure,
    /// A point had the right length but was rejected by the primitive.
    BadPoint,
    /// The batch exceeded the maximum number of points.
    TooManyPoints,
    /// The requested epoch is not the active one.
    BadEpoch(u8),
    /// A point was not valid base64.
    Base64(base64::DecodeError),
    /// The primitive reported a failure.
    Oprf(ppoprf::PPRFError),
}

/// The decimal digits of a byte value, most significant first.
pub open spec fn decimal_of(v: u8) -> Seq<char> {
    if v < 10 {
        seq![digit_char(v as nat)]
    } else if v < 100 {
        seq![digit_char((v / 10) as nat), digit_char((v % 10) as nat)]
    } else {
        seq![
            digit_char((v / 100) as nat),
            digit_char(((v / 10) % 10) as nat),
            digit_char((v % 10) as nat),
        ]
    }
}

/// The character for a single decimal digit.
pub open spec fn digit_char(d: nat) -> char {
    if d == 0 {
        '0'
    } else if d == 1 {
        '1'
    } else if d == 2 {
        '2'
    } else if d == 3 {
        '3'
    } else if d == 4 {
        '4'
    } else if d == 5 {
        '5'
    } else if d == 6 {
        '6'
    } else if d == 7 {
        '7'
    } else if d == 8 {
        '8'
    } else {
        '9'
    }
}

fn digit_str(d: u8) -> (r: &'static str)
    requires
        d < 10,
    ensures
        r@ == seq![digit_char(d as nat)],
{
    proof {
        reveal_strlit("0");
        reveal_strlit("1");
        reveal_strlit("2");
        reveal_strlit("3");
        reveal_strlit("4");
        reveal_strlit("5");
        reveal_strlit("6");
        reveal_strlit("7");
        reveal_strlit("8");
        reveal_strlit("9");
    }
    let r: &'static str = match d {
        0 => "0",
        1 => "1",
        2 => "2",
        3 => "3",
        4 => "4",
        5 => "5",
        6 => "6",
        7 => "7",
        8 => "8",
        _ => "9",
    };
    proof {
        assert(r@ =~= seq![digit_char(d as nat)]);
    }
    r
}

/// The decimal rendering of a byte value.
pub fn u8_decimal(v: u8) -> (r: String)
    ensures
        r@ == decimal_of(v),
{
    let mut s = String::new();
    if v >= 100 {
        s.append(digit_str(v / 100));
    }
    if v >= 10 {
        s.append(digit_str((v / 10) % 10));
    }
    s.append(digit_str(v % 10));
    proof {
        assert(s@ =~= decimal_of(v));
    }
    s
}

impl Error {
    /// Human-readable description of the error, as reported to clients.
    pub fn message(&self) -> (r: String)
        ensures
            self is LockFailure ==> r@ == "Couldn't lock state: RwLock poisoned"@,
            self is BadPoint ==> r@ == "Invalid point"@,
            self is TooManyPoints ==> r@ == "Too many points for a single request"@,
            self matches Error::BadEpoch(e) ==> r@ == "Invalid epoch "@ + decimal_of(*e) + "`"@,
            self is Base64 ==> exists|detail: Seq<char>|
                r@ == #[trigger] ("Invalid base64 encoding: "@ + detail),
            self is Oprf ==> exists|detail: Seq<char>| r@ == #[trigger] ("PPOPRF error: "@ + detail),
    {
        match self {
            Error::LockFailure => String::from_str("Couldn't lock state: RwLock poisoned"),
            Error::BadPoint => String::from_str("Invalid point"),
            Error::TooManyPoints => String::from_str("Too many points for a single request"),
            Error::BadEpoch(epoch) => {
                let mut s = String::from_str("Invalid epoch ");
                let digits = u8_decimal(*epoch);
                s.append(digits.as_str());
                s.append("`");
                s
            },
            Error::Base64(e) => {
                let mut s = String::from_str("Invalid base64 encoding: ");
                let detail = decode_error_message(e);
                s.append(detail.as_str());
                proof {
                    assert(s@ == "Invalid base64 encoding: "@ + detail@);
                }
                s
            },
            Error::Oprf(e) => {
                let mut s = String::from_str("PPOPRF error: ");
                let detail = pprf_error_message(e);
                s.append(detail.as_str());
                proof {
                    assert(s@ == "PPOPRF error: "@ + detail@);
                }
                s
            },
        }
    }
}

} // verus!
