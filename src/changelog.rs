//! Assembly of a draft changelog: a heading with the compare link and the date, then the
//! breaking changes, the features and the bug fixes, one entry per commit.

use vstd::prelude::*;
use crate::classify::ConventionalType;
use crate::configuration::Configuration;
use crate::repository::{Commit, CommitView, commit_views};
use crate::template::{
    chrono_utc_format, format_utc, handlebars_rendering, is_plain_template, is_simple_template,
    render_template,
};
use crate::text::{char_prefix, prefix_of_len};

verus! {

pub const REPOSITORY_URI_KEY: &'static str = "repositoryUri";

pub const BASE_KEY: &'static str = "base";

pub const LATEST_KEY: &'static str = "latest";

pub const COMMIT_KEY: &'static str = "commit";

pub const BREAKING_TITLE: &'static str = "BREAKING CHANGES";

pub const FEATURES_TITLE: &'static str = "Features";

pub const FIXES_TITLE: &'static str = "Bug Fixes";

/// The number of characters of a commit identifier that a link shows.
pub const SHORT_ID_LEN: usize = 7;

/// One list item: the commit's summary and a link to it, labelled with its short identifier.
pub struct Entry {
    pub summary: String,
    pub short_id: String,
    pub link: String,
}

pub struct EntryView {
    pub summary: Seq<char>,
    pub short_id: Seq<char>,
    pub link: Seq<char>,
}

impl View for Entry {
    type V = EntryView;

    open spec fn view(&self) -> EntryView {
        EntryView { summary: self.summary@, short_id: self.short_id@, link: self.link@ }
    }
}

pub open spec fn entry_views(es: Seq<Entry>) -> Seq<EntryView> {
    es.map_values(|e: Entry| e@)
}

/// A level-3 heading and its list.
pub struct Section {
    pub title: String,
    pub entries: Vec<Entry>,
}

pub struct SectionView {
    pub title: Seq<char>,
    pub entries: Seq<EntryView>,
}

impl View for Section {
    type V = SectionView;

    open spec fn view(&self) -> SectionView {
        SectionView { title: self.title@, entries: entry_views(self.entries@) }
    }
}

/// The draft document: its heading links "Draft Version" to `diff_link` and shows `date`.
pub struct Changelog {
    pub diff_link: String,
    pub date: String,
    pub sections: Vec<Section>,
}

pub struct ChangelogView {
    pub diff_link: Seq<char>,
    pub date: Seq<char>,
    pub sections: Seq<SectionView>,
}

impl View for Changelog {
    type V = ChangelogView;

    open spec fn view(&self) -> ChangelogView {
        ChangelogView {
            diff_link: self.diff_link@,
            date: self.date@,
            sections: self.sections@.map_values(|s: Section| s@),
        }
    }
}

/// Why no changelog could be assembled.
#[derive(Debug, Clone, Copy, PartialEq, Eq, Structural)]
pub enum ChangelogError {
    /// There is no commit, so no base or latest commit to compare.
    EmptyHistory,
    /// The compare-link template holds more than plain text and placeholders, could not be
    /// rendered, or names an undefined placeholder.
    DiffTemplate,
    /// The date could not be printed in the configured format.
    DateFormat,
    /// The commit-link template holds more than plain text and placeholders, could not be
    /// rendered for a listed commit, or names an undefined placeholder.
    CommitTemplate,
}

/// The commit link; `None` where the template is not plain text and placeholders, or does not
/// render.
pub open spec fn commit_link_of(template: Seq<char>, remote: Seq<char>, id: Seq<char>) -> Option<
    Seq<char>,
> {
    if is_simple_template(template) {
        handlebars_rendering(template, seq![REPOSITORY_URI_KEY@, COMMIT_KEY@], seq![remote, id])
    } else {
        None
    }
}

/// The compare link from the oldest commit (the last) to the newest (the first); `None` where
/// the template is not plain text and placeholders, or does not render.
pub open spec fn diff_link_of(template: Seq<char>, remote: Seq<char>, cs: Seq<CommitView>) -> Option<
    Seq<char>,
> {
    if is_simple_template(template) {
        handlebars_rendering(
            template,
            seq![REPOSITORY_URI_KEY@, BASE_KEY@, LATEST_KEY@],
            seq![remote, cs.last().id, cs[0].id],
        )
    } else {
        None
    }
}

/// Every commit of category `t` gets a commit link.
pub open spec fn links_render(
    template: Seq<char>,
    remote: Seq<char>,
    cs: Seq<CommitView>,
    t: ConventionalType,
) -> bool {
    forall|i: int|
        0 <= i < cs.len() && #[trigger] cs[i].conventional_type == t ==> commit_link_of(
            template,
            remote,
            cs[i].id,
        ) is Some
}

/// The entries for the commits of category `t`, in their order.
pub open spec fn entries_of(
    template: Seq<char>,
    remote: Seq<char>,
    cs: Seq<CommitView>,
    t: ConventionalType,
) -> Seq<EntryView>
    decreases cs.len(),
{
    if cs.len() == 0 {
        Seq::empty()
    } else {
        let rest = entries_of(template, remote, cs.drop_last(), t);
        let c = cs.last();
        if c.conventional_type == t {
            rest.push(
                EntryView {
                    summary: c.summary,
                    short_id: prefix_of_len(c.id, SHORT_ID_LEN as int),
                    link: commit_link_of(template, remote, c.id)->Some_0,
                },
            )
        } else {
            rest
        }
    }
}

pub open spec fn has_type(cs: Seq<CommitView>, t: ConventionalType) -> bool {
    exists|i: int| 0 <= i < cs.len() && #[trigger] cs[i].conventional_type == t
}

pub open spec fn section_of(
    title: Seq<char>,
    template: Seq<char>,
    remote: Seq<char>,
    cs: Seq<CommitView>,
    t: ConventionalType,
) -> SectionView {
    SectionView { title, entries: entries_of(template, remote, cs, t) }
}

/// The breaking changes where there are any, then the features and the bug fixes, always.
pub open spec fn sections_of(template: Seq<char>, remote: Seq<char>, cs: Seq<CommitView>) -> Seq<
    SectionView,
> {
    let features = section_of(FEATURES_TITLE@, template, remote, cs, ConventionalType::Feat);
    let fixes = section_of(FIXES_TITLE@, template, remote, cs, ConventionalType::Fix);
    if has_type(cs, ConventionalType::Breaking) {
        seq![
            section_of(BREAKING_TITLE@, template, remote, cs, ConventionalType::Breaking),
            features,
            fixes,
        ]
    } else {
        seq![features, fixes]
    }
}

pub open spec fn listed_links_render(template: Seq<char>, remote: Seq<char>, cs: Seq<CommitView>) -> bool {
    &&& links_render(template, remote, cs, ConventionalType::Breaking)
    &&& links_render(template, remote, cs, ConventionalType::Feat)
    &&& links_render(template, remote, cs, ConventionalType::Fix)
}

/// The changelog for commits `cs` (newest first), or why there is none.
pub open spec fn changelog_outcome(
    c: Configuration,
    remote: Seq<char>,
    cs: Seq<CommitView>,
    secs: int,
    nanos: int,
) -> Result<ChangelogView, ChangelogError> {
    if cs.len() == 0 {
        Err(ChangelogError::EmptyHistory)
    } else if diff_link_of(c.diff_format@, remote, cs) is None {
        Err(ChangelogError::DiffTemplate)
    } else if chrono_utc_format(secs, nanos, c.date_format@) is None {
        Err(ChangelogError::DateFormat)
    } else if !listed_links_render(c.commit_detail_page_format@, remote, cs) {
        Err(ChangelogError::CommitTemplate)
    } else {
        Ok(
            ChangelogView {
                diff_link: diff_link_of(c.diff_format@, remote, cs)->Some_0,
                date: chrono_utc_format(secs, nanos, c.date_format@)->Some_0,
                sections: sections_of(c.commit_detail_page_format@, remote, cs),
            },
        )
    }
}

/// Whether some commit has category `t`.
pub fn contains_type(commits: &Vec<Commit>, t: ConventionalType) -> (r: bool)
    ensures
        r == has_type(commit_views(commits@), t),
{
    let ghost cs = commit_views(commits@);
    let mut i: usize = 0;
    while i < commits.len()
        invariant
            i <= commits.len(),
            cs == commit_views(commits@),
            forall|j: int| 0 <= j < i ==> cs[j].conventional_type != t,
        decreases commits.len() - i,
    {
        if commits[i].conventional_type == t {
            assert(cs[i as int].conventional_type == t);
            return true;
        }
        i = i + 1;
    }
    false
}

/// The entries for the commits of category `t`, each linked through the commit-link
/// template; fails where that template cannot be rendered for one of them.
pub fn section_entries(
    commits: &Vec<Commit>,
    t: ConventionalType,
    template: &str,
    remote_uri: &str,
) -> (r: Result<Vec<Entry>, ChangelogError>)
    ensures
        match r {
            Ok(es) => links_render(template@, remote_uri@, commit_views(commits@), t)
                && entry_views(es@) == entries_of(
                template@,
                remote_uri@,
                commit_views(commits@),
                t,
            ),
            Err(e) => !links_render(template@, remote_uri@, commit_views(commits@), t) && e
                == ChangelogError::CommitTemplate,
        },
{
    let ghost cs = commit_views(commits@);
    let simple = is_plain_template(template);
    let mut entries: Vec<Entry> = Vec::new();
    let mut i: usize = 0;
    assert(cs.subrange(0, 0) =~= Seq::<CommitView>::empty());
    while i < commits.len()
        invariant
            i <= commits.len(),
            cs == commit_views(commits@),
            simple == is_simple_template(template@),
            links_render(template@, remote_uri@, cs.subrange(0, i as int), t),
            entry_views(entries@) == entries_of(template@, remote_uri@, cs.subrange(0, i as int), t),
        decreases commits.len() - i,
    {
        let commit = &commits[i];
        let ghost prefix = cs.subrange(0, i as int);
        let ghost next = cs.subrange(0, i + 1);
        assert(next.drop_last() =~= prefix);
        assert(next.last() == commit@);
        if commit.conventional_type == t {
            if !simple {
                assert(cs[i as int] == commit@);
                assert(!is_simple_template(template@));
                assert(commit_link_of(template@, remote_uri@, cs[i as int].id) is None);
                assert(cs[i as int].conventional_type == t);
                assert(!links_render(template@, remote_uri@, cs, t));
                return Err(ChangelogError::CommitTemplate);
            }
            let mut names: Vec<String> = Vec::new();
            names.push(String::from_str(REPOSITORY_URI_KEY));
            names.push(String::from_str(COMMIT_KEY));
            let mut values: Vec<String> = Vec::new();
            values.push(String::from_str(remote_uri));
            values.push(commit.id.clone());
            assert(crate::template::string_views(names@) =~= seq![REPOSITORY_URI_KEY@, COMMIT_KEY@]);
            assert(crate::template::string_views(values@) =~= seq![remote_uri@, commit.id@]);
            match render_template(template, &names, &values) {
                Ok(link) => {
                    let entry = Entry {
                        summary: commit.summary.clone(),
                        short_id: char_prefix(commit.id.as_str(), SHORT_ID_LEN),
                        link,
                    };
                    entries.push(entry);
                    assert(entry_views(entries@) =~= entries_of(template@, remote_uri@, next, t));
                },
                Err(_) => {
                    assert(cs[i as int] == commit@);
                    return Err(ChangelogError::CommitTemplate);
                },
            }
        }
        assert forall|j: int| 0 <= j < next.len() && #[trigger] next[j].conventional_type == t implies commit_link_of(
            template@,
            remote_uri@,
            next[j].id,
        ) is Some by {
            if j < i {
                assert(next[j] == prefix[j]);
            }
        }
        i = i + 1;
    }
    assert(cs.subrange(0, commits.len() as int) =~= cs);
    Ok(entries)
}

/// Assembles the draft changelog for `commits` (newest first): the compare link from the
/// oldest to the newest commit, the date of the instant given, and the sections.
pub fn generate_changelog(
    commits: &Vec<Commit>,
    configuration: &Configuration,
    remote_uri: &str,
    now_secs: i64,
    now_nanos: u32,
) -> (r: Result<Changelog, ChangelogError>)
    ensures
        match r {
            Ok(changelog) => changelog_outcome(
                *configuration,
                remote_uri@,
                commit_views(commits@),
                now_secs as int,
                now_nanos as int,
            ) == Ok::<ChangelogView, ChangelogError>(changelog@),
            Err(e) => changelog_outcome(
                *configuration,
                remote_uri@,
                commit_views(commits@),
                now_secs as int,
                now_nanos as int,
            ) == Err::<ChangelogView, ChangelogError>(e),
        },
{
    let ghost cs = commit_views(commits@);
    if commits.len() == 0 {
        return Err(ChangelogError::EmptyHistory);
    }
    let first_commit = &commits[commits.len() - 1];
    let latest_commit = &commits[0];
    let mut names: Vec<String> = Vec::new();
    names.push(String::from_str(REPOSITORY_URI_KEY));
    names.push(String::from_str(BASE_KEY));
    names.push(String::from_str(LATEST_KEY));
    let mut values: Vec<String> = Vec::new();
    values.push(String::from_str(remote_uri));
    values.push(first_commit.id.clone());
    values.push(latest_commit.id.clone());
    assert(crate::template::string_views(names@) =~= seq![REPOSITORY_URI_KEY@, BASE_KEY@, LATEST_KEY@]);
    assert(crate::template::string_views(values@) =~= seq![remote_uri@, cs.last().id, cs[0].id]);
    if !is_plain_template(configuration.diff_format.as_str()) {
        return Err(ChangelogError::DiffTemplate);
    }
    let diff_link = match render_template(configuration.diff_format.as_str(), &names, &values) {
        Ok(link) => link,
        Err(_) => {
            return Err(ChangelogError::DiffTemplate);
        },
    };
    let date = match format_utc(now_secs, now_nanos, configuration.date_format.as_str()) {
        Some(text) => text,
        None => {
            return Err(ChangelogError::DateFormat);
        },
    };
    let template = configuration.commit_detail_page_format.as_str();
    let mut sections: Vec<Section> = Vec::new();
    let has_breaking = contains_type(commits, ConventionalType::Breaking);
    if has_breaking {
        let entries = match section_entries(commits, ConventionalType::Breaking, template, remote_uri) {
            Ok(es) => es,
            Err(e) => {
                return Err(e);
            },
        };
        sections.push(Section { title: String::from_str(BREAKING_TITLE), entries });
    }
    let feature_entries = match section_entries(commits, ConventionalType::Feat, template, remote_uri) {
        Ok(es) => es,
        Err(e) => {
            return Err(e);
        },
    };
    sections.push(Section { title: String::from_str(FEATURES_TITLE), entries: feature_entries });
    let fix_entries = match section_entries(commits, ConventionalType::Fix, template, remote_uri) {
        Ok(es) => es,
        Err(e) => {
            return Err(e);
        },
    };
    sections.push(Section { title: String::from_str(FIXES_TITLE), entries: fix_entries });
    let changelog = Changelog { diff_link, date, sections };
    assert(changelog@.sections =~= sections_of(template@, remote_uri@, cs));
    Ok(changelog)
}

} // verus!
