use copr_cli::action::Action;
use copr_cli::dispatch::{decide, search_url, usage, version_line, Step};
use copr_cli::error::CliError;
use copr_cli::install::{install_plan, parse_reference};

fn args(list: &[&str]) -> Vec<String> {
    list.iter().map(|s| s.to_string()).collect()
}

#[test]
fn parse_search_and_install() {
    assert!(matches!(Action::parse(&args(&["p", "--search", "vim"])), Action::Search(q) if q == "vim"));
    assert!(matches!(Action::parse(&args(&["p", "-s", ""])), Action::Search(q) if q.is_empty()));
    assert!(matches!(Action::parse(&args(&["p", "-i", "a/b"])), Action::Install(q) if q == "a/b"));
    assert!(matches!(Action::parse(&args(&["p", "--install", "x", "y"])), Action::Install(q) if q == "x"));
}

#[test]
fn parse_missing_values() {
    assert!(matches!(Action::parse(&args(&["p", "-s"])), Action::MissingArgument(a) if a == "search"));
    assert!(matches!(Action::parse(&args(&["p", "--install"])), Action::MissingArgument(a) if a == "install"));
}

#[test]
fn parse_flags_and_invalid() {
    assert!(matches!(Action::parse(&args(&["p", "-h"])), Action::Help));
    assert!(matches!(Action::parse(&args(&["p", "--help"])), Action::Help));
    assert!(matches!(Action::parse(&args(&["p", "-v"])), Action::Version));
    assert!(matches!(Action::parse(&args(&["p", "--version"])), Action::Version));
    assert!(matches!(Action::parse(&args(&["p", "-V"])), Action::Invalid));
    assert!(matches!(Action::parse(&args(&["p", "--frob"])), Action::Invalid));
    assert!(matches!(Action::parse(&args(&["p"])), Action::Invalid));
    assert!(matches!(Action::parse(&args(&[])), Action::Invalid));
}

#[test]
fn install_without_slash_fails_before_any_command() {
    let r = install_plan("foo");
    assert!(matches!(r, Err(CliError::BadReference)));
    assert_eq!(
        r.unwrap_err().message(),
        "use format `copr_username/copr_projectname` to reference copr project"
    );
    assert!(matches!(
        decide(Action::Install("foo".to_string()), "p", "d", "1"),
        Step::Fail(CliError::BadReference)
    ));
}

#[test]
fn install_runs_two_commands_in_order() {
    let cmds = install_plan("owner/project").unwrap();
    assert_eq!(cmds.len(), 2);
    assert_eq!(cmds[0].program, "sudo");
    assert_eq!(cmds[0].args, args(&["dnf", "copr", "enable", "owner/project"]));
    assert_eq!(cmds[1].program, "sudo");
    assert_eq!(cmds[1].args, args(&["dnf", "install", "project"]));
}

#[test]
fn reference_needs_exactly_one_slash_between_segments() {
    assert_eq!(parse_reference("owner/project"), Some("project".to_string()));
    assert_eq!(parse_reference("a/b/c"), None);
    assert_eq!(parse_reference("a/"), Some(String::new()));
    assert_eq!(parse_reference("/b"), Some("b".to_string()));
    assert_eq!(parse_reference("/"), Some(String::new()));
    assert_eq!(parse_reference("//"), None);
    assert_eq!(parse_reference("ab"), None);
    assert_eq!(parse_reference(""), None);
}

#[test]
fn install_with_two_slashes_fails() {
    assert!(matches!(install_plan("a/b/c"), Err(CliError::BadReference)));
    assert!(matches!(install_plan("a//"), Err(CliError::BadReference)));
}

#[test]
fn install_accepts_empty_segments() {
    let cmds = install_plan("o/").unwrap();
    assert_eq!(cmds[0].args, args(&["dnf", "copr", "enable", "o/"]));
    assert_eq!(cmds[1].args, args(&["dnf", "install", ""]));
    let cmds = install_plan("/p").unwrap();
    assert_eq!(cmds.len(), 2);
    assert_eq!(cmds[0].args, args(&["dnf", "copr", "enable", "/p"]));
    assert_eq!(cmds[1].args, args(&["dnf", "install", "p"]));
}

#[test]
fn search_url_embeds_query_as_is() {
    assert_eq!(
        search_url("a b"),
        "https://copr.fedorainfracloud.org/api_3/project/search?query=a b"
    );
    match decide(Action::Search("vim".to_string()), "p", "d", "1") {
        Step::Fetch(url) => {
            assert_eq!(url, "https://copr.fedorainfracloud.org/api_3/project/search?query=vim")
        }
        _ => panic!("expected a fetch"),
    }
}

#[test]
fn help_and_version_text() {
    let text = usage("copr", "search copr");
    assert!(text.starts_with("copr - search copr\n\nUSAGE:\n    copr [FLAG]\n    copr [OPTION] <QUERY>\n\nFLAGS:\n"));
    assert!(text.contains("    -v, --version    Prints version information\n"));
    assert!(text.ends_with("    -s, --search <QUERY>    Search package details for the given string"));
    assert_eq!(version_line("0.3.1"), "v0.3.1");
    assert!(matches!(decide(Action::Help, "copr", "search copr", "1"), Step::Print(s) if s == text));
    assert!(matches!(decide(Action::Version, "copr", "d", "2.0"), Step::Print(s) if s == "v2.0"));
}

#[test]
fn error_messages() {
    match decide(Action::MissingArgument("search".to_string()), "p", "d", "1") {
        Step::Fail(e) => assert_eq!(e.message(), "`--search` requires a parameter"),
        _ => panic!("expected a failure"),
    }
    match decide(Action::Invalid, "p", "d", "1") {
        Step::Fail(e) => assert_eq!(
            e.message(),
            "invalid option, pass `--help` to see all available commands"
        ),
        _ => panic!("expected a failure"),
    }
}
