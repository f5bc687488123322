//! Reading the process's arguments into the action to perform.
use vstd::prelude::*;

verus! {

/// What an invocation asks for.
#[derive(Debug)]
pub enum Action {
    /// Search the hosting service for the query.
    Search(String),
    /// Install the project named by the reference.
    Install(String),
    /// A flag that needs a value came without one; holds the action's name.
    MissingArgument(String),
    Help,
    Version,
    /// No argument, or an unknown first argument.
    Invalid,
}

/// The mathematical model of an `Action`.
pub enum ActionView {
    Search(Seq<char>),
    Install(Seq<char>),
    MissingArgument(Seq<char>),
    Help,
    Version,
    Invalid,
}

impl View for Action {
    type V = ActionView;

    open spec fn view(&self) -> ActionView {
        match self {
            Action::Search(q) => ActionView::Search(q@),
            Action::Install(q) => ActionView::Install(q@),
            Action::MissingArgument(a) => ActionView::MissingArgument(a@),
            Action::Help => ActionView::Help,
            Action::Version => ActionView::Version,
            Action::Invalid => ActionView::Invalid,
        }
    }
}

/// The action of a flag that takes a value (a search when `search`, else an
/// install): that action with the value when there is one, else its missing value.
pub open spec fn with_value(args: Seq<Seq<char>>, search: bool) -> ActionView {
    if args.len() >= 3 {
        if search {
            ActionView::Search(args[2])
        } else {
            ActionView::Install(args[2])
        }
    } else if search {
        ActionView::MissingArgument("search"@)
    } else {
        ActionView::MissingArgument("install"@)
    }
}

/// The action that the argument list `args` (the program's name first) asks for.
pub open spec fn action_of(args: Seq<Seq<char>>) -> ActionView {
    if args.len() < 2 {
        ActionView::Invalid
    } else {
        let cmd = args[1];
        if cmd == "--search"@ || cmd == "-s"@ {
            with_value(args, true)
        } else if cmd == "--install"@ || cmd == "-i"@ {
            with_value(args, false)
        } else if cmd == "--help"@ || cmd == "-h"@ {
            ActionView::Help
        } else if cmd == "--version"@ || cmd == "-v"@ {
            ActionView::Version
        } else {
            ActionView::Invalid
        }
    }
}

/// Whether `arg` is the flag `long` or its short form `short`.
fn is_flag(arg: &String, long: &str, short: &str) -> (r: bool)
    ensures
        r == (arg@ == long@ || arg@ == short@),
{
    *arg == long.to_owned() || *arg == short.to_owned()
}

impl Action {
    /// Reads the action from the argument list `args`, whose first element is
    /// the program's name.
    pub fn parse(args: &Vec<String>) -> (r: Action)
        ensures
            r@ == action_of(args.deep_view()),
    {
        let ghost a = args.deep_view();
        if args.len() < 2 {
            return Action::Invalid;
        }
        let cmd = &args[1];
        assert(cmd@ == a[1]);
        if is_flag(cmd, "--search", "-s") {
            if args.len() >= 3 {
                assert(args[2]@ == a[2]);
                Action::Search(args[2].clone())
            } else {
                Action::MissingArgument("search".to_owned())
            }
        } else if is_flag(cmd, "--install", "-i") {
            if args.len() >= 3 {
                assert(args[2]@ == a[2]);
                Action::Install(args[2].clone())
            } else {
                Action::MissingArgument("install".to_owned())
            }
        } else if is_flag(cmd, "--help", "-h") {
            Action::Help
        } else if is_flag(cmd, "--version", "-v") {
            Action::Version
        } else {
            Action::Invalid
        }
    }
}

} // verus!
