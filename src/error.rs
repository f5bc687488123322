//! The failures that the library reports.
use vstd::prelude::*;

verus! {

/// A failure of an invocation, reported to the user as `Error: <message>`.
#[derive(Debug)]
pub enum CliError {
    /// A flag that needs a value was given without one; holds the action's name.
    MissingParameter(String),
    /// The first argument names no known flag, or there is none.
    InvalidOption,
    /// An install reference is not of the form `owner/project`: it holds no
    /// `/`, or more than one.
    BadReference,
    /// The search returned no items.
    NoMatches,
}

/// The message of a missing value for the action named `action`.
pub open spec fn missing_message(action: Seq<char>) -> Seq<char> {
    "`--"@ + action + "` requires a parameter"@
}

/// The message shown for `e`.
pub open spec fn message_of(e: CliError) -> Seq<char> {
    match e {
        CliError::MissingParameter(a) => missing_message(a@),
        CliError::InvalidOption => "invalid option, pass `--help` to see all available commands"@,
        CliError::BadReference => "use format `copr_username/copr_projectname` to reference copr project"@,
        CliError::NoMatches => "No matches found."@,
    }
}

impl CliError {
    /// The human-readable message for this error.
    pub fn message(&self) -> (r: String)
        ensures
            r@ == message_of(*self),
    {
        match self {
            CliError::MissingParameter(a) => {
                let mut s = String::new();
                s.append("`--");
                s.append(a.as_str());
                s.append("` requires a parameter");
                s
            },
            CliError::InvalidOption => {
                "invalid option, pass `--help` to see all available commands".to_owned()
            },
            CliError::BadReference => {
                "use format `copr_username/copr_projectname` to reference copr project".to_owned()
            },
            CliError::NoMatches => "No matches found.".to_owned(),
        }
    }
}

} // verus!
