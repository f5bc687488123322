//! Deciding what an action does: the one effect of an invocation.
use crate::action::Action;
use crate::error::CliError;
use crate::install::{install_commands, install_plan, invocation_views, Invocation};
use vstd::prelude::*;

verus! {

/// The one effect of an invocation, for the caller to carry out.
#[derive(Debug)]
pub enum Step {
    /// Fetch the search results from this address, then render them.
    Fetch(String),
    /// Run these commands, in order.
    Run(Vec<Invocation>),
    /// Write this text to standard output.
    Print(String),
    /// Fail with this error.
    Fail(CliError),
}

/// The search service's address for `query`, which is put in as it is.
pub open spec fn search_url_text(query: Seq<char>) -> Seq<char> {
    "https://copr.fedorainfracloud.org/api_3/project/search?query="@ + query
}

/// The usage text of the program `name`, described by `description`.
pub open spec fn usage_text(name: Seq<char>, description: Seq<char>) -> Seq<char> {
    name + " - "@ + description + "\n\nUSAGE:\n    "@ + name + " [FLAG]\n    "@ + name
        + " [OPTION] <QUERY>\n\n"@ + flags_text()
}

/// The table of flags and options in the usage text.
pub open spec fn flags_text() -> Seq<char> {
    "FLAGS:\n    -h, --help       Prints help information\n    -v, --version    Prints version information\n\nOPTIONS:\n    -i, --install <QUERY>   Install a package on your system\n    -s, --search <QUERY>    Search package details for the given string"@
}

/// The version line for `version`.
pub open spec fn version_text(version: Seq<char>) -> Seq<char> {
    "v"@ + version
}

/// The search service's address for `query`.
pub fn search_url(query: &str) -> (r: String)
    ensures
        r@ == search_url_text(query@),
{
    let mut url = "https://copr.fedorainfracloud.org/api_3/project/search?query=".to_owned();
    url.append(query);
    url
}

/// The usage text of the program `name`, described by `description`.
pub fn usage(name: &str, description: &str) -> (r: String)
    ensures
        r@ == usage_text(name@, description@),
{
    let mut s = String::new();
    s.append(name);
    s.append(" - ");
    s.append(description);
    s.append("\n\nUSAGE:\n    ");
    s.append(name);
    s.append(" [FLAG]\n    ");
    s.append(name);
    s.append(" [OPTION] <QUERY>\n\n");
    s.append(
        "FLAGS:\n    -h, --help       Prints help information\n    -v, --version    Prints version information\n\nOPTIONS:\n    -i, --install <QUERY>   Install a package on your system\n    -s, --search <QUERY>    Search package details for the given string",
    );
    assert(s@ =~= usage_text(name@, description@));
    s
}

/// The version line for `version`.
pub fn version_line(version: &str) -> (r: String)
    ensures
        r@ == version_text(version@),
{
    let mut s = "v".to_owned();
    s.append(version);
    s
}

/// The effect of `action` for the program `name`, described by `description`,
/// at version `version`.
pub fn decide(action: Action, name: &str, description: &str, version: &str) -> (r: Step)
    ensures
        match action {
            Action::Search(q) => r matches Step::Fetch(url) && url@ == search_url_text(q@),
            Action::Install(p) => match install_commands(p@) {
                Some(cmds) => r matches Step::Run(v) && invocation_views(v@) == cmds,
                None => r matches Step::Fail(e) && e is BadReference,
            },
            Action::MissingArgument(a) => r matches Step::Fail(e) && e matches CliError::MissingParameter(b)
                && b@ == a@,
            Action::Help => r matches Step::Print(s) && s@ == usage_text(name@, description@),
            Action::Version => r matches Step::Print(s) && s@ == version_text(version@),
            Action::Invalid => r matches Step::Fail(e) && e is InvalidOption,
        },
{
    match action {
        Action::Search(q) => Step::Fetch(search_url(q.as_str())),
        Action::Install(p) => match install_plan(p.as_str()) {
            Ok(cmds) => Step::Run(cmds),
            Err(e) => Step::Fail(e),
        },
        Action::MissingArgument(a) => Step::Fail(CliError::MissingParameter(a)),
        Action::Help => Step::Print(usage(name, description)),
        Action::Version => Step::Print(version_line(version)),
        Action::Invalid => Step::Fail(CliError::InvalidOption),
    }
}

} // verus!
