//! Errors that a rejected move reports.
use vstd::prelude::*;
use vstd::string::StringExecFns;

verus! {

/// The kinds of failure.
#[derive(Debug, Clone, Copy, PartialEq, Eq, Structural)]
pub enum ErrorType {
    /// Everything worked fine.
    NoError,
    /// The selected field can not be an attacker.
    InvalidAttacker,
    /// The selected field can not be attacked.
    InvalidTarget,
    /// An unspecific error occurred.
    Other,
}

impl ErrorType {
    /// The variant's name.
    pub open spec fn spec_name(self) -> Seq<char> {
        match self {
            ErrorType::NoError => "NoError"@,
            ErrorType::InvalidAttacker => "InvalidAttacker"@,
            ErrorType::InvalidTarget => "InvalidTarget"@,
            ErrorType::Other => "Other"@,
        }
    }

    /// The variant's name.
    pub fn name(&self) -> (r: &'static str)
        ensures
            r@ == self.spec_name(),
    {
        match self {
            ErrorType::NoError => "NoError",
            ErrorType::InvalidAttacker => "InvalidAttacker",
            ErrorType::InvalidTarget => "InvalidTarget",
            ErrorType::Other => "Other",
        }
    }
}

/// The game's error: a kind and a description for humans.
#[derive(Debug)]
pub struct GameError {
    /// The kind of the error.
    pub code: ErrorType,
    /// A further description of the error.
    pub description: String,
}

/// Result of a game operation.
pub type GameResult<T> = Result<T, GameError>;

impl GameError {
    /// Creates a new `GameError`.
    pub fn new(code: ErrorType, description: &str) -> (r: GameError)
        ensures
            r.code == code,
            r.description@ == description@,
    {
        GameError { code: code, description: description.to_owned() }
    }

    /// The error for humans: its kind in brackets, then its description.
    pub fn to_string(&self) -> (r: String)
        ensures
            r@ == "["@ + self.code.spec_name() + "] "@ + self.description@,
    {
        let mut r = String::from_str("[");
        r.append(self.code.name());
        r.append("] ");
        r.append(self.description.as_str());
        r
    }
}

} // verus!
