//! Failures the library reports.
use vstd::prelude::*;
use vstd::string::*;

verus! {

/// A configuration failure, with the text that was refused.
#[derive(Debug)]
pub enum PigletError {
    UnknownEasing(String),
    UnknownEffect(String),
    InvalidDuration(String),
    InvalidColor(String),
    InvalidGradient(String),
}

impl PigletError {
    /// A sentence naming the failure and the text that was refused.
    pub fn message(&self) -> (r: String)
        ensures
            r@ == match self {
                PigletError::UnknownEasing(s) => "Unknown easing function: "@ + s@,
                PigletError::UnknownEffect(s) => "Unknown effect: "@ + s@,
                PigletError::InvalidDuration(s) => "Invalid duration: "@ + s@,
                PigletError::InvalidColor(s) => "Invalid color: "@ + s@,
                PigletError::InvalidGradient(s) => "Invalid gradient: "@ + s@,
            },
    {
        let (prefix, s) = match self {
            PigletError::UnknownEasing(s) => ("Unknown easing function: ", s),
            PigletError::UnknownEffect(s) => ("Unknown effect: ", s),
            PigletError::InvalidDuration(s) => ("Invalid duration: ", s),
            PigletError::InvalidColor(s) => ("Invalid color: ", s),
            PigletError::InvalidGradient(s) => ("Invalid gradient: ", s),
        };
        let mut m = String::from_str(prefix);
        m.append(s.as_str());
        m
    }
}

} // verus!
