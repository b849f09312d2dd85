//! The draft changelog as markdown bytes: a level-2 heading linking "Draft Version" to the
//! compare page and showing the date, then each section as a level-3 heading and a bulleted
//! list of `summary ([short id](link))` items.

use vstd::prelude::*;
use crate::changelog::{Changelog, Entry, EntryView, Section, SectionView, ChangelogView, entry_views};

verus! {

/// The bytes that markdown_gen writes for a heading of `level` holding `text`.
pub uninterp spec fn markdown_heading(level: int, text: Seq<char>) -> Seq<u8>;

/// The bytes that markdown_gen writes for a heading of `level` holding a link to `address`
/// labelled `label`, then `suffix`.
pub uninterp spec fn markdown_linked_heading(
    level: int,
    label: Seq<char>,
    address: Seq<char>,
    suffix: Seq<char>,
) -> Seq<u8>;

/// The bytes that markdown_gen writes for a bulleted list whose items each hold a text, a
/// link (label, address) and a closing text.
pub uninterp spec fn markdown_link_list(
    items: Seq<(Seq<char>, Seq<char>, Seq<char>, Seq<char>)>,
) -> Seq<u8>;

pub open spec fn item_views(items: Seq<(String, String, String, String)>) -> Seq<
    (Seq<char>, Seq<char>, Seq<char>, Seq<char>),
> {
    items.map_values(|t: (String, String, String, String)| (t.0@, t.1@, t.2@, t.3@))
}

/// Relies on markdown_gen's Markdown::write of a Heading holding text, into a Vec<u8>: the
/// bytes depend on the level and the text alone. Heading::new panics outside levels 1 to 6.
#[verifier::external_body]
fn heading_bytes(level: usize, text: &str) -> (r: Vec<u8>)
    requires
        1 <= level <= 6,
    ensures
        r@ == markdown_heading(level as int, text@),
{
    let mut md = markdown_gen::markdown::Markdown::new(Vec::<u8>::new());
    md.write(markdown_gen::markdown::Heading::new(level).append(text)).expect("a Vec accepts every write");
    md.into_inner()
}

/// Relies on markdown_gen's Markdown::write of a Heading holding a Link and a text, into a
/// Vec<u8>: the bytes depend on the arguments alone.
#[verifier::external_body]
fn linked_heading_bytes(level: usize, label: &str, address: &str, suffix: &str) -> (r: Vec<u8>)
    requires
        1 <= level <= 6,
    ensures
        r@ == markdown_linked_heading(level as int, label@, address@, suffix@),
{
    let link = markdown_gen::markdown::Link::new(address).append(label);
    let mut md = markdown_gen::markdown::Markdown::new(Vec::<u8>::new());
    md.write(markdown_gen::markdown::Heading::new(level).append(link).append(suffix)).expect("a Vec accepts every write");
    md.into_inner()
}

/// Relies on markdown_gen's Markdown::write of a bulleted List of Paragraphs, each a text, a
/// Link and a text, into a Vec<u8>: the bytes depend on the items alone.
#[verifier::external_body]
fn link_list_bytes(items: &Vec<(String, String, String, String)>) -> (r: Vec<u8>)
    ensures
        r@ == markdown_link_list(item_views(items@)),
{
    let mut list = markdown_gen::markdown::List::new(false);
    for (before, label, address, after) in items.iter() {
        let link = markdown_gen::markdown::Link::new(address).append(label.as_str());
        list = list.item(markdown_gen::markdown::Paragraph::new().append(before.as_str()).append(link).append(after.as_str()));
    }
    let mut md = markdown_gen::markdown::Markdown::new(Vec::<u8>::new());
    md.write(list).expect("a Vec accepts every write");
    md.into_inner()
}

pub const DRAFT_LABEL: &'static str = "Draft Version";

pub const OPEN_PAREN: &'static str = " (";

pub const CLOSE_PAREN: &'static str = ")";

/// A list item: the summary and an opening parenthesis, the short identifier linked to the
/// commit, and a closing parenthesis.
pub open spec fn entry_item(e: EntryView) -> (Seq<char>, Seq<char>, Seq<char>, Seq<char>) {
    (e.summary + OPEN_PAREN@, e.short_id, e.link, CLOSE_PAREN@)
}

/// The blank line that ends a list, which markdown_gen leaves open.
pub open spec fn list_end() -> Seq<u8> {
    seq![10u8, 10u8]
}

/// A section: its level-3 heading, then its list and a blank line where it has entries.
pub open spec fn section_markdown(s: SectionView) -> Seq<u8> {
    markdown_heading(3, s.title) + if s.entries.len() == 0 {
        Seq::empty()
    } else {
        markdown_link_list(s.entries.map_values(|e: EntryView| entry_item(e))) + list_end()
    }
}

pub open spec fn sections_markdown(ss: Seq<SectionView>) -> Seq<u8>
    decreases ss.len(),
{
    if ss.len() == 0 {
        Seq::empty()
    } else {
        sections_markdown(ss.drop_last()) + section_markdown(ss.last())
    }
}

/// The whole document: the heading `## [Draft Version](<diff link>) (<date>)`, then the
/// sections in order.
pub open spec fn changelog_markdown(c: ChangelogView) -> Seq<u8> {
    markdown_linked_heading(2, DRAFT_LABEL@, c.diff_link, OPEN_PAREN@ + c.date + CLOSE_PAREN@)
        + sections_markdown(c.sections)
}

fn section_bytes(section: &Section) -> (r: Vec<u8>)
    ensures
        r@ == section_markdown(section@),
{
    let mut out = heading_bytes(3, section.title.as_str());
    if section.entries.len() == 0 {
        assert(out@ =~= section_markdown(section@));
        return out;
    }
    let ghost es = entry_views(section.entries@);
    let mut items: Vec<(String, String, String, String)> = Vec::new();
    let mut i: usize = 0;
    while i < section.entries.len()
        invariant
            i <= section.entries.len(),
            es == entry_views(section.entries@),
            item_views(items@) =~= es.subrange(0, i as int).map_values(|e: EntryView| entry_item(e)),
        decreases section.entries.len() - i,
    {
        let entry: &Entry = &section.entries[i];
        let mut before = entry.summary.clone();
        before.append(OPEN_PAREN);
        let ghost old_items = items@;
        let item = (before, entry.short_id.clone(), entry.link.clone(), String::from_str(CLOSE_PAREN));
        assert(es[i as int] == entry@);
        assert((item.0@, item.1@, item.2@, item.3@) == entry_item(es[i as int]));
        items.push(item);
        assert(items@ =~= old_items.push(item));
        assert(item_views(items@) =~= item_views(old_items).push(entry_item(es[i as int])));
        assert(es.subrange(0, i + 1).map_values(|e: EntryView| entry_item(e)) =~= es.subrange(
            0,
            i as int,
        ).map_values(|e: EntryView| entry_item(e)).push(entry_item(es[i as int])));
        i = i + 1;
    }
    assert(es.subrange(0, i as int) =~= es);
    let mut list = link_list_bytes(&items);
    out.append(&mut list);
    out.push(10u8);
    out.push(10u8);
    assert(out@ =~= section_markdown(section@));
    out
}

/// The draft changelog as markdown bytes.
pub fn render_markdown(changelog: &Changelog) -> (r: Vec<u8>)
    ensures
        r@ == changelog_markdown(changelog@),
{
    let mut suffix = String::from_str(OPEN_PAREN);
    suffix.append(changelog.date.as_str());
    suffix.append(CLOSE_PAREN);
    let mut out = linked_heading_bytes(2, DRAFT_LABEL, changelog.diff_link.as_str(), suffix.as_str());
    let ghost ss = changelog@.sections;
    let ghost head = out@;
    let mut i: usize = 0;
    assert(ss.subrange(0, 0) =~= Seq::<SectionView>::empty());
    assert(out@ =~= head + sections_markdown(ss.subrange(0, 0)));
    while i < changelog.sections.len()
        invariant
            i <= changelog.sections.len(),
            ss == changelog@.sections,
            ss.len() == changelog.sections@.len(),
            out@ == head + sections_markdown(ss.subrange(0, i as int)),
        decreases changelog.sections.len() - i,
    {
        let mut piece = section_bytes(&changelog.sections[i]);
        assert(ss[i as int] == changelog.sections@[i as int]@);
        assert(ss.subrange(0, i + 1).drop_last() =~= ss.subrange(0, i as int));
        out.append(&mut piece);
        assert(out@ =~= head + sections_markdown(ss.subrange(0, i + 1)));
        i = i + 1;
    }
    assert(ss.subrange(0, i as int) =~= ss);
    out
}

} // verus!
