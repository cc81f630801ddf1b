//! The rate limiter's error type.

use vstd::prelude::*;
use vstd::string::StringExecFns;
use crate::decimal::dec_str;
use crate::decimal::u64_to_dec_string;

verus! {

/// The decision pipeline's error: the limit has been reached. It carries the
/// instant (milliseconds since the Unix epoch) at which the limit lifts, when
/// the store knows it.
#[derive(Debug, Clone, Copy, PartialEq, Eq, Structural)]
pub enum Error {
    RateLimited(Option<u64>),
}

impl Error {
    /// The human-readable description of the error: the instant is reported
    /// in whole seconds since the Unix epoch.
    pub open spec fn spec_message(self) -> Seq<char> {
        match self {
            Error::RateLimited(until) => match until {
                Some(u) => "rate limited, until "@ + dec_str(u as int / 1000),
                None => "rate limited"@,
            },
        }
    }

    /// Render the error's description.
    pub fn message(&self) -> (r: String)
        ensures
            r@ == self.spec_message(),
    {
        match self {
            Error::RateLimited(until) => match until {
                Some(u) => {
                    let mut r = "rate limited, until ".to_owned();
                    let secs = u64_to_dec_string(*u / 1000);
                    r.append(secs.as_str());
                    r
                },
                None => "rate limited".to_owned(),
            },
        }
    }

    /// The instant at which the limit lifts, if known.
    pub fn until(&self) -> (r: Option<u64>)
        ensures
            r == (match *self {
                Error::RateLimited(u) => u,
            }),
    {
        match self {
            Error::RateLimited(u) => *u,
        }
    }
}

} // verus!
