//! Rendering of search results into a human-readable report.
use crate::error::CliError;
use crate::text::{
    decorated, has_text, heading_style, name_style, occurs_at, paint_heading, paint_name, paint_tag,
    tag_style, trim_text, trimmed,
};
use vstd::prelude::*;

verus! {

/// One repository entry of a search response.
#[derive(Debug)]
pub struct SearchItem {
    pub description: String,
    pub full_name: String,
    pub contact: Option<String>,
    pub homepage: Option<String>,
    pub instructions: String,
}

/// The mathematical model of a `SearchItem`.
pub struct ItemView {
    pub description: Seq<char>,
    pub full_name: Seq<char>,
    pub contact: Option<Seq<char>>,
    pub homepage: Option<Seq<char>>,
    pub instructions: Seq<char>,
}

/// The text of an optional string.
pub open spec fn text_of(o: Option<String>) -> Option<Seq<char>> {
    match o {
        Some(s) => Some(s@),
        None => None,
    }
}

impl View for SearchItem {
    type V = ItemView;

    open spec fn view(&self) -> ItemView {
        ItemView {
            description: self.description@,
            full_name: self.full_name@,
            contact: text_of(self.contact),
            homepage: text_of(self.homepage),
            instructions: self.instructions@,
        }
    }
}

/// The fixed, possibly decorated, pieces of text that frame every block.
#[derive(Debug)]
pub struct Headings {
    pub tag: String,
    pub description: String,
    pub instruction: String,
    pub support: String,
}

/// The mathematical model of `Headings`.
pub struct HeadingsView {
    pub tag: Seq<char>,
    pub description: Seq<char>,
    pub instruction: Seq<char>,
    pub support: Seq<char>,
}

impl View for Headings {
    type V = HeadingsView;

    open spec fn view(&self) -> HeadingsView {
        HeadingsView {
            tag: self.tag@,
            description: self.description@,
            instruction: self.instruction@,
            support: self.support@,
        }
    }
}

/// The undecorated headings.
pub open spec fn plain_headings() -> HeadingsView {
    HeadingsView {
        tag: "(copr)"@,
        description: "Description"@,
        instruction: "Instruction"@,
        support: "Support"@,
    }
}

/// `h` is the plain headings as the terminal decoration may render them.
pub open spec fn decorated_headings(h: HeadingsView) -> bool {
    let p = plain_headings();
    &&& decorated(p.tag, tag_style(), h.tag)
    &&& decorated(p.description, heading_style(), h.description)
    &&& decorated(p.instruction, heading_style(), h.instruction)
    &&& decorated(p.support, heading_style(), h.support)
}

/// The text shown in place of an empty description.
pub open spec fn placeholder() -> Seq<char> {
    "N/A"@
}

/// The address of a project's page on the hosting service, up to its name.
pub open spec fn project_link_prefix() -> Seq<char> {
    "https://copr.fedorainfracloud.org/coprs/"@
}

/// The title line: the tag, then the item's name as shown.
pub open spec fn title_text(h: HeadingsView, name: Seq<char>) -> Seq<char> {
    h.tag + " "@ + name
}

/// The description section of the trimmed description `desc` and trimmed
/// instructions `instr`: the placeholder when `desc` is empty, and the
/// instructions when there are any.
pub open spec fn description_section(h: HeadingsView, desc: Seq<char>, instr: Seq<char>) -> Seq<char> {
    "\n\n"@ + h.description + " "@ + (if desc.len() == 0 {
        placeholder()
    } else {
        "\n"@ + desc
    }) + (if instr.len() == 0 {
        Seq::empty()
    } else {
        "\n\n"@ + h.instruction + "\n"@ + instr
    })
}

/// The description section of `item`.
pub open spec fn description_text(item: ItemView, h: HeadingsView) -> Seq<char> {
    description_section(h, trimmed(item.description), trimmed(item.instructions))
}

/// The homepage line, if the item has a homepage.
pub open spec fn homepage_text(item: ItemView) -> Seq<char> {
    match item.homepage {
        Some(p) => "  Homepage - "@ + p + "\n"@,
        None => Seq::empty(),
    }
}

/// The contact line, if the item has a contact.
pub open spec fn contact_text(item: ItemView) -> Seq<char> {
    match item.contact {
        Some(c) => "  Contact - "@ + c + "\n"@,
        None => Seq::empty(),
    }
}

/// The support section up to and including the project's name in its link.
pub open spec fn support_head(item: ItemView, h: HeadingsView) -> Seq<char> {
    "\n\n"@ + h.support + "\n  Project - "@ + project_link_prefix() + item.full_name
}

/// The support section: the project link, then homepage, then contact.
pub open spec fn support_text(item: ItemView, h: HeadingsView) -> Seq<char> {
    support_head(item, h) + "\n"@ + homepage_text(item) + contact_text(item)
}

/// The block of one item, whose name is shown as `name`, with the trimmed
/// description `desc` and trimmed instructions `instr`.
pub open spec fn block_with(
    item: ItemView,
    h: HeadingsView,
    name: Seq<char>,
    desc: Seq<char>,
    instr: Seq<char>,
) -> Seq<char> {
    title_text(h, name) + description_section(h, desc, instr) + support_text(item, h) + "\n"@
}

/// The block of one item, whose name is shown as `name`.
pub open spec fn block_text(item: ItemView, h: HeadingsView, name: Seq<char>) -> Seq<char> {
    block_with(item, h, name, trimmed(item.description), trimmed(item.instructions))
}

/// The blocks of `items`, in order, the i-th showing its name as `names[i]`.
pub open spec fn report_text(items: Seq<ItemView>, h: HeadingsView, names: Seq<Seq<char>>) -> Seq<char>
    decreases items.len(),
{
    if items.len() == 0 {
        Seq::empty()
    } else {
        report_text(items.drop_last(), h, names) + block_text(
            items.last(),
            h,
            names[items.len() - 1],
        )
    }
}

/// The models of a list of items.
pub open spec fn views_of(items: Seq<SearchItem>) -> Seq<ItemView> {
    items.map_values(|it: SearchItem| it@)
}

/// `names` holds, for each item, its trimmed name as the decoration may render it.
pub open spec fn shown_names(items: Seq<ItemView>, names: Seq<Seq<char>>) -> bool {
    &&& names.len() == items.len()
    &&& forall|i: int| 0 <= i < items.len() ==> #[trigger] decorated(
        trimmed(items[i].full_name),
        name_style(),
        names[i],
    )
}

impl Headings {
    /// The headings without any decoration.
    pub fn plain() -> (r: Headings)
        ensures
            r@ == plain_headings(),
    {
        Headings {
            tag: "(copr)".to_owned(),
            description: "Description".to_owned(),
            instruction: "Instruction".to_owned(),
            support: "Support".to_owned(),
        }
    }

    /// The headings as the terminal decoration renders them: the tag in bold
    /// bright blue, the section headers bold and underlined.
    pub fn styled() -> (r: Headings)
        ensures
            decorated_headings(r@),
    {
        Headings {
            tag: paint_tag("(copr)"),
            description: paint_heading("Description"),
            instruction: paint_heading("Instruction"),
            support: paint_heading("Support"),
        }
    }
}

/// Appends the description section of the trimmed `desc` and `instr` to `out`.
fn push_description(out: &mut String, h: &Headings, desc: &str, instr: &str)
    ensures
        final(out)@ == old(out)@ + description_section(h@, desc@, instr@),
{
    let ghost start = out@;
    out.append("\n\n");
    out.append(h.description.as_str());
    out.append(" ");
    if desc.is_empty() {
        out.append("N/A");
    } else {
        out.append("\n");
        out.append(desc);
    }
    if !instr.is_empty() {
        out.append("\n\n");
        out.append(h.instruction.as_str());
        out.append("\n");
        out.append(instr);
    }
    assert(out@ =~= start + description_section(h@, desc@, instr@));
}

/// Appends `label`, `value` and a line break to `out`.
fn push_line(out: &mut String, label: &str, value: &str)
    ensures
        final(out)@ == old(out)@ + label@ + value@ + "\n"@,
{
    let ghost start = out@;
    out.append(label);
    out.append(value);
    out.append("\n");
    assert(out@ =~= start + label@ + value@ + "\n"@);
}

/// Appends the support section of `item` to `out`.
fn push_support(out: &mut String, item: &SearchItem, h: &Headings)
    ensures
        final(out)@ == old(out)@ + support_text(item@, h@),
{
    let ghost start = out@;
    out.append("\n\n");
    out.append(h.support.as_str());
    out.append("\n  Project - ");
    out.append("https://copr.fedorainfracloud.org/coprs/");
    out.append(item.full_name.as_str());
    out.append("\n");
    let ghost head = out@;
    assert(head =~= start + support_head(item@, h@) + "\n"@);
    match &item.homepage {
        Some(p) => push_line(out, "  Homepage - ", p.as_str()),
        None => {},
    }
    let ghost with_home = out@;
    assert(with_home =~= head + homepage_text(item@));
    match &item.contact {
        Some(c) => push_line(out, "  Contact - ", c.as_str()),
        None => {},
    }
    assert(out@ =~= with_home + contact_text(item@));
    assert(out@ =~= start + support_text(item@, h@));
}

/// Renders the block of `item`, showing its name as `name`, with the
/// already trimmed `description` and `instructions`.
pub fn render_block(
    item: &SearchItem,
    h: &Headings,
    name: &str,
    description: &str,
    instructions: &str,
) -> (r: String)
    ensures
        r@ == block_with(item@, h@, name@, description@, instructions@),
{
    let mut out = String::new();
    out.append(h.tag.as_str());
    out.append(" ");
    out.append(name);
    assert(out@ =~= title_text(h@, name@));
    push_description(&mut out, h, description, instructions);
    push_support(&mut out, item, h);
    out.append("\n");
    out
}

/// Renders the block of `item`: its trimmed name decorated in bold bright
/// green, its description and instructions trimmed.
pub fn render_item(item: &SearchItem, h: &Headings) -> (r: String)
    ensures
        exists|name: Seq<char>|
            decorated(trimmed(item@.full_name), name_style(), name) && r@ == block_text(
                item@,
                h@,
                name,
            ),
{
    let name = paint_name(trim_text(item.full_name.as_str()));
    let description = trim_text(item.description.as_str());
    let instructions = trim_text(item.instructions.as_str());
    let r = render_block(item, h, name.as_str(), description, instructions);
    assert(decorated(trimmed(item@.full_name), name_style(), name@) && r@ == block_text(
        item@,
        h@,
        name@,
    ));
    r
}

/// Renders the report of a search: one block per item, in order. A search
/// that found nothing is a failure.
pub fn render_results(items: &Vec<SearchItem>, h: &Headings) -> (r: Result<String, CliError>)
    ensures
        match r {
            Ok(s) => items@.len() > 0 && exists|names: Seq<Seq<char>>|
                shown_names(views_of(items@), names) && s@ == report_text(
                    views_of(items@),
                    h@,
                    names,
                ),
            Err(e) => items@.len() == 0 && e is NoMatches,
        },
{
    if items.len() == 0 {
        return Err(CliError::NoMatches);
    }
    let mut out = String::new();
    let ghost mut names: Seq<Seq<char>> = Seq::empty();
    let mut i: usize = 0;
    while i < items.len()
        invariant
            i <= items@.len(),
            shown_names(views_of(items@).take(i as int), names),
            out@ == report_text(views_of(items@).take(i as int), h@, names),
        decreases items@.len() - i,
    {
        let block = render_item(&items[i], h);
        let ghost name = choose|name: Seq<char>|
            decorated(trimmed(items@[i as int]@.full_name), name_style(), name) && block@ == block_text(
                items@[i as int]@,
                h@,
                name,
            );
        out.append(block.as_str());
        proof {
            let vs = views_of(items@);
            let prev = vs.take(i as int);
            let next = vs.take(i + 1);
            let prev_names = names;
            names = names.push(name);
            assert(next.drop_last() =~= prev);
            assert(next.last() == items@[i as int]@);
            assert(names[i as int] == name);
            lemma_report_prefix_any(prev, h@, prev_names, names);
            assert(report_text(next, h@, names) == report_text(prev, h@, names) + block_text(
                items@[i as int]@,
                h@,
                name,
            ));
            assert(shown_names(next, names)) by {
                assert forall|k: int| 0 <= k < next.len() implies #[trigger] decorated(
                    trimmed(next[k].full_name),
                    name_style(),
                    names[k],
                ) by {
                    if k < i {
                        assert(next[k] == prev[k]);
                    }
                }
            }
        }
        i = i + 1;
    }
    assert(views_of(items@).take(items@.len() as int) =~= views_of(items@));
    Ok(out)
}

/// The report of `items` depends only on the first `items.len()` names.
proof fn lemma_report_prefix_any(
    items: Seq<ItemView>,
    h: HeadingsView,
    a: Seq<Seq<char>>,
    b: Seq<Seq<char>>,
)
    requires
        a.len() >= items.len(),
        b.len() >= items.len(),
        forall|i: int| 0 <= i < items.len() ==> a[i] == b[i],
    ensures
        report_text(items, h, a) == report_text(items, h, b),
    decreases items.len(),
{
    if items.len() > 0 {
        lemma_report_prefix_any(items.drop_last(), h, a, b);
    }
}

/// The blocks of `items`, the i-th showing its name as `names[i]`.
pub open spec fn blocks_of(items: Seq<ItemView>, h: HeadingsView, names: Seq<Seq<char>>) -> Seq<Seq<char>> {
    Seq::new(items.len(), |i: int| block_text(items[i], h, names[i]))
}

/// The homepage line of an item whose homepage is `p`.
pub open spec fn homepage_line(p: Seq<char>) -> Seq<char> {
    "  Homepage - "@ + p + "\n"@
}

/// The contact line of an item whose contact is `c`.
pub open spec fn contact_line(c: Seq<char>) -> Seq<char> {
    "  Contact - "@ + c + "\n"@
}

/// Every block holds its item's full name, in the project link.
pub proof fn lemma_block_holds_name(item: ItemView, h: HeadingsView, name: Seq<char>)
    ensures
        has_text(block_text(item, h, name), item.full_name),
{
    let pre = title_text(h, name) + description_text(item, h) + "\n\n"@ + h.support
        + "\n  Project - "@ + project_link_prefix();
    let post = "\n"@ + homepage_text(item) + contact_text(item) + "\n"@;
    let n = item.full_name;
    assert(block_text(item, h, name) =~= pre + n + post);
    let at: int = pre.len() as int;
    assert((pre + n + post).subrange(at, at + n.len()) =~= n);
    assert(occurs_at(block_text(item, h, name), n, at));
}

/// A report is made of exactly one block per item, in the items' order, and
/// every block holds its item's full name.
pub proof fn lemma_one_block_per_item(items: Seq<ItemView>, h: HeadingsView, names: Seq<Seq<char>>)
    requires
        names.len() == items.len(),
    ensures
        blocks_of(items, h, names).len() == items.len(),
        report_text(items, h, names) == blocks_of(items, h, names).flatten_alt(),
        forall|i: int|
            0 <= i < items.len() ==> has_text(#[trigger] blocks_of(items, h, names)[i], items[i].full_name),
{
    lemma_report_is_blocks(items, h, names);
    assert forall|i: int| 0 <= i < items.len() implies has_text(
        #[trigger] blocks_of(items, h, names)[i],
        items[i].full_name,
    ) by {
        lemma_block_holds_name(items[i], h, names[i]);
    }
}

/// A report is the concatenation of the blocks of its items.
proof fn lemma_report_is_blocks(items: Seq<ItemView>, h: HeadingsView, names: Seq<Seq<char>>)
    requires
        names.len() >= items.len(),
    ensures
        report_text(items, h, names) == blocks_of(items, h, names).flatten_alt(),
    decreases items.len(),
{
    if items.len() > 0 {
        lemma_report_is_blocks(items.drop_last(), h, names);
        assert(blocks_of(items, h, names).drop_last() =~= blocks_of(items.drop_last(), h, names));
    }
}

/// An item whose description is blank after trimming is shown with the
/// placeholder in its description section.
pub proof fn lemma_blank_description_placeholder(item: ItemView, h: HeadingsView, name: Seq<char>)
    requires
        trimmed(item.description).len() == 0,
    ensures
        occurs_at(description_text(item, h), placeholder(), 3 + h.description.len() as int),
        has_text(block_text(item, h, name), placeholder()),
{
    reveal_strlit("\n\n");
    reveal_strlit(" ");
    let pre = "\n\n"@ + h.description + " "@;
    let ph = placeholder();
    let at: int = pre.len() as int;
    let instr = description_text(item, h).subrange(at + ph.len(), description_text(item, h).len() as int);
    assert(description_text(item, h) =~= pre + ph + instr);
    assert((pre + ph + instr).subrange(at, at + ph.len()) =~= ph);
    let before = title_text(h, name) + pre;
    let rest = instr + support_text(item, h) + "\n"@;
    assert(block_text(item, h, name) =~= before + ph + rest);
    let b: int = before.len() as int;
    assert((before + ph + rest).subrange(b, b + ph.len()) =~= ph);
    assert(occurs_at(block_text(item, h, name), ph, b));
}

/// An item with both a homepage and a contact has, in its support section, the
/// homepage line before the contact line.
pub proof fn lemma_homepage_before_contact(item: ItemView, h: HeadingsView)
    requires
        item.homepage is Some,
        item.contact is Some,
    ensures
        exists|i: int, j: int|
            #![trigger occurs_at(support_text(item, h), homepage_line(item.homepage->0), i), occurs_at(support_text(item, h), contact_line(item.contact->0), j)]
            i < j && occurs_at(support_text(item, h), homepage_line(item.homepage->0), i)
                && occurs_at(support_text(item, h), contact_line(item.contact->0), j),
{
    reveal_strlit("\n");
    let pre = support_head(item, h) + "\n"@;
    let hl = homepage_line(item.homepage->0);
    let cl = contact_line(item.contact->0);
    let st = support_text(item, h);
    assert(st =~= pre + hl + cl);
    let i: int = pre.len() as int;
    let j: int = i + hl.len();
    assert((pre + hl + cl).subrange(i, j) =~= hl);
    assert((pre + hl + cl).subrange(j, j + cl.len()) =~= cl);
    assert(occurs_at(st, hl, i));
    assert(occurs_at(st, cl, j));
}

} // verus!
