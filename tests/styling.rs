use copr_cli::report::{render_item, Headings, SearchItem};

#[test]
fn styled_headings_are_decorated_when_colour_is_on() {
    colored::control::set_override(true);
    let h = Headings::styled();
    assert_ne!(h.tag, "(copr)");
    assert!(h.tag.contains("(copr)"));
    assert_eq!(h.tag, "\x1b[1;94m(copr)\x1b[0m");
    assert_eq!(h.description, "\x1b[1;4mDescription\x1b[0m");
    assert_eq!(h.instruction, "\x1b[1;4mInstruction\x1b[0m");
    assert_eq!(h.support, "\x1b[1;4mSupport\x1b[0m");
    let it = SearchItem {
        description: String::new(),
        full_name: "o/p".to_string(),
        contact: None,
        homepage: None,
        instructions: String::new(),
    };
    let out = render_item(&it, &Headings::plain());
    assert!(out.starts_with("(copr) \x1b[1;92mo/p\x1b[0m\n\nDescription N/A"));
}
