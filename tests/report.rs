use copr_cli::error::CliError;
use copr_cli::text::trim_text;
use copr_cli::report::{render_block, render_item, render_results, Headings, SearchItem};

fn plain_output() {
    colored::control::set_override(false);
}

fn item(
    description: &str,
    full_name: &str,
    contact: Option<&str>,
    homepage: Option<&str>,
    instructions: &str,
) -> SearchItem {
    SearchItem {
        description: description.to_string(),
        full_name: full_name.to_string(),
        contact: contact.map(|s| s.to_string()),
        homepage: homepage.map(|s| s.to_string()),
        instructions: instructions.to_string(),
    }
}

#[test]
fn blank_description_with_homepage_only() {
    plain_output();
    let items = vec![item(" ", "alice/tool", None, Some("https://x.io"), "")];
    let out = render_results(&items, &Headings::styled()).unwrap();
    assert!(out.contains("(copr) alice/tool"));
    assert_eq!(
        out,
        "(copr) alice/tool\n\nDescription N/A\n\nSupport\n  Project - https://copr.fedorainfracloud.org/coprs/alice/tool\n  Homepage - https://x.io\n\n"
    );
    assert!(!out.contains("Contact"));
}

#[test]
fn empty_response_is_no_matches() {
    let items: Vec<SearchItem> = Vec::new();
    let r = render_results(&items, &Headings::plain());
    assert!(matches!(r, Err(CliError::NoMatches)));
    assert_eq!(r.unwrap_err().message(), "No matches found.");
}

#[test]
fn one_block_per_item_in_order() {
    plain_output();
    let items = vec![
        item("first", "a/one", None, None, ""),
        item("second", "b/two", None, None, ""),
        item("third", "c/three", None, None, ""),
    ];
    let out = render_results(&items, &Headings::plain()).unwrap();
    assert_eq!(out.matches("(copr) ").count(), 3);
    let one = out.find("(copr) a/one").unwrap();
    let two = out.find("(copr) b/two").unwrap();
    let three = out.find("(copr) c/three").unwrap();
    assert!(one < two && two < three);
    let blocks: Vec<String> = items.iter().map(|i| render_item(i, &Headings::plain())).collect();
    assert_eq!(out, blocks.concat());
    for (b, i) in blocks.iter().zip(items.iter()) {
        assert!(b.contains(&i.full_name));
    }
}

#[test]
fn description_and_instructions_are_trimmed() {
    plain_output();
    let it = item("  hello world \n", "o/p", None, None, "\t dnf it\u{a0}\u{3000}");
    let out = render_item(&it, &Headings::plain());
    assert_eq!(
        out,
        "(copr) o/p\n\nDescription \nhello world\n\nInstruction\ndnf it\n\nSupport\n  Project - https://copr.fedorainfracloud.org/coprs/o/p\n\n"
    );
    assert!(!out.contains("N/A"));
}

#[test]
fn empty_description_shows_placeholder() {
    let it = item("ignored", "o/p", None, None, "ignored");
    let out = render_block(&it, &Headings::plain(), "o/p", "", "");
    assert!(out.starts_with("(copr) o/p\n\nDescription N/A\n\nSupport"));
}

#[test]
fn homepage_line_comes_before_contact_line() {
    let it = item("d", "o/p", Some("someone@x.io"), Some("https://p.io"), "");
    let out = render_block(&it, &Headings::plain(), "o/p", "d", "");
    let home = out.find("  Homepage - https://p.io\n").unwrap();
    let contact = out.find("  Contact - someone@x.io\n").unwrap();
    assert!(home < contact);
    assert!(out.ends_with("  Homepage - https://p.io\n  Contact - someone@x.io\n\n"));
}

#[test]
fn contact_only() {
    let it = item("d", "o/p", Some("me"), None, "");
    let out = render_block(&it, &Headings::plain(), "o/p", "d", "");
    assert!(out.ends_with("coprs/o/p\n  Contact - me\n\n"));
    assert!(!out.contains("Homepage"));
}

#[test]
fn block_takes_description_and_instructions_as_given() {
    let it = item("unused", "o/p", None, None, "unused");
    let out = render_block(&it, &Headings::plain(), "N", " d ", "i");
    assert_eq!(
        out,
        "(copr) N\n\nDescription \n d \n\nInstruction\ni\n\nSupport\n  Project - https://copr.fedorainfracloud.org/coprs/o/p\n\n"
    );
}

#[test]
fn name_is_trimmed_in_title() {
    plain_output();
    let it = item("d", "  o/p  ", None, None, "");
    let out = render_item(&it, &Headings::plain());
    assert!(out.starts_with("(copr) o/p\n\n"));
}

#[test]
fn trim_removes_unicode_whitespace_at_both_ends() {
    assert_eq!(trim_text(" \t\u{3000}a b\u{a0}\n"), "a b");
    assert_eq!(trim_text("   "), "");
    assert_eq!(trim_text(""), "");
    assert_eq!(trim_text("x"), "x");
    assert_eq!(trim_text("\u{200b}x"), "\u{200b}x");
}
