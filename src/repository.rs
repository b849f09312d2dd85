//! The commit model, built from the entries of a history with merge commits left out.

use vstd::prelude::*;
use crate::classify::{ConventionalType, commit_type_of, get_commit_type, category_name};
use crate::text::{cleaned_summary, clean_summary};

verus! {

/// A non-merge commit: its identifier, its cleaned summary and its category.
pub struct Commit {
    pub id: String,
    pub summary: String,
    pub conventional_type: ConventionalType,
}

pub struct CommitView {
    pub id: Seq<char>,
    pub summary: Seq<char>,
    pub conventional_type: ConventionalType,
}

impl View for Commit {
    type V = CommitView;

    open spec fn view(&self) -> CommitView {
        CommitView { id: self.id@, summary: self.summary@, conventional_type: self.conventional_type }
    }
}

/// One entry of a history as the version-control system hands it over.
pub struct RawCommit {
    pub id: String,
    pub parent_count: usize,
    pub summary: String,
    pub message: String,
}

pub struct RawCommitView {
    pub id: Seq<char>,
    pub parent_count: nat,
    pub summary: Seq<char>,
    pub message: Seq<char>,
}

impl View for RawCommit {
    type V = RawCommitView;

    open spec fn view(&self) -> RawCommitView {
        RawCommitView {
            id: self.id@,
            parent_count: self.parent_count as nat,
            summary: self.summary@,
            message: self.message@,
        }
    }
}

/// The commit built from an identifier, a raw summary line and a full message.
pub open spec fn commit_model(id: Seq<char>, summary: Seq<char>, message: Seq<char>) -> CommitView {
    CommitView {
        id,
        summary: cleaned_summary(summary),
        conventional_type: commit_type_of(summary, message),
    }
}

pub open spec fn is_merge(e: RawCommitView) -> bool {
    e.parent_count > 1
}

/// The commits of a history, in its order, with merge commits left out.
pub open spec fn classified_history(h: Seq<RawCommitView>) -> Seq<CommitView>
    decreases h.len(),
{
    if h.len() == 0 {
        Seq::empty()
    } else {
        let rest = classified_history(h.drop_last());
        let e = h.last();
        if is_merge(e) {
            rest
        } else {
            rest.push(commit_model(e.id, e.summary, e.message))
        }
    }
}

pub open spec fn commit_views(cs: Seq<Commit>) -> Seq<CommitView> {
    cs.map_values(|c: Commit| c@)
}

pub open spec fn raw_views(h: Seq<RawCommit>) -> Seq<RawCommitView> {
    h.map_values(|e: RawCommit| e@)
}

impl Commit {
    /// Builds a commit: classified by the raw summary and the message, and keeping the
    /// summary without its conventional prefix.
    pub fn new(id: String, summary: String, message: String) -> (r: Self)
        ensures
            r@ == commit_model(id@, summary@, message@),
    {
        let conventional_type = get_commit_type(summary.as_str(), message.as_str());
        let summary_text = clean_summary(summary.as_str());
        Commit { id, summary: summary_text, conventional_type }
    }

    /// A one-line description: `id=<id>,summary=<summary>,type=<type>`.
    pub fn describe(&self) -> (r: String)
        ensures
            r@ == "id="@ + self.id@ + ",summary="@ + self.summary@ + ",type="@ + category_name(
                self.conventional_type,
            ),
    {
        let mut out = String::from_str("id=");
        out.append(self.id.as_str());
        out.append(",summary=");
        out.append(self.summary.as_str());
        out.append(",type=");
        out.append(self.conventional_type.name());
        out
    }

    /// A commit with more than one parent is a merge commit.
    pub fn is_merge_commit(parent_count: usize) -> (r: bool)
        ensures
            r == (parent_count > 1),
    {
        parent_count > 1
    }
}

/// The URI used where the repository has no remote of the name asked for.
pub const PLACEHOLDER_REMOTE_URI: &'static str = "http://git.localhost";

/// The URI of a remote as found, or the placeholder where there is none.
pub fn remote_uri_or_placeholder(found: Option<String>) -> (r: String)
    ensures
        found is Some ==> r == found->Some_0,
        found is None ==> r@ == PLACEHOLDER_REMOTE_URI@,
{
    match found {
        Some(uri) => uri,
        None => String::from_str(PLACEHOLDER_REMOTE_URI),
    }
}

/// The commits of a history, in its order, with merge commits left out.
pub fn commits_from_history(history: &Vec<RawCommit>) -> (r: Vec<Commit>)
    ensures
        commit_views(r@) == classified_history(raw_views(history@)),
{
    let ghost h = raw_views(history@);
    let mut commits: Vec<Commit> = Vec::new();
    let mut i: usize = 0;
    assert(h.subrange(0, 0) =~= Seq::<RawCommitView>::empty());
    while i < history.len()
        invariant
            i <= history.len(),
            h == raw_views(history@),
            commit_views(commits@) == classified_history(h.subrange(0, i as int)),
        decreases history.len() - i,
    {
        let entry = &history[i];
        assert(h.subrange(0, i + 1).drop_last() =~= h.subrange(0, i as int));
        assert(h.subrange(0, i + 1).last() == entry@);
        if !Commit::is_merge_commit(entry.parent_count) {
            let commit = Commit::new(entry.id.clone(), entry.summary.clone(), entry.message.clone());
            commits.push(commit);
            assert(commit_views(commits@) =~= classified_history(h.subrange(0, i + 1)));
        }
        i = i + 1;
    }
    assert(h.subrange(0, history.len() as int) =~= h);
    commits
}

proof fn lemma_merge_dropped(h1: Seq<RawCommitView>, m: RawCommitView, h2: Seq<RawCommitView>)
    requires
        is_merge(m),
    ensures
        classified_history(h1 + seq![m] + h2) == classified_history(h1 + h2),
    decreases h2.len(),
{
    if h2.len() == 0 {
        assert((h1 + seq![m] + h2).drop_last() =~= h1);
        assert(h1 + h2 =~= h1);
    } else {
        let h2s = h2.drop_last();
        lemma_merge_dropped(h1, m, h2s);
        assert((h1 + seq![m] + h2).drop_last() =~= h1 + seq![m] + h2s);
        assert((h1 + h2).drop_last() =~= h1 + h2s);
    }
}

proof fn lemma_from_non_merge(h: Seq<RawCommitView>, k: int)
    requires
        0 <= k < classified_history(h).len(),
    ensures
        exists|j: int|
            0 <= j < h.len() && !is_merge(h[j]) && classified_history(h)[k] == commit_model(
                h[j].id,
                h[j].summary,
                h[j].message,
            ),
    decreases h.len(),
{
    let rest = classified_history(h.drop_last());
    if k < rest.len() {
        lemma_from_non_merge(h.drop_last(), k);
        let j = choose|j: int|
            0 <= j < h.drop_last().len() && !is_merge(h.drop_last()[j])
                && rest[k] == commit_model(
                h.drop_last()[j].id,
                h.drop_last()[j].summary,
                h.drop_last()[j].message,
            );
        assert(h[j] == h.drop_last()[j]);
    } else {
        assert(h[h.len() - 1] == h.last());
    }
}

/// Merge commits never reach the commit list: each listed commit is built from a non-merge
/// entry of the history, and a merge entry inserted anywhere in a history leaves the list
/// unchanged.
pub proof fn merge_commits_never_listed(
    h1: Seq<RawCommitView>,
    m: RawCommitView,
    h2: Seq<RawCommitView>,
)
    requires
        is_merge(m),
    ensures
        classified_history(h1 + seq![m] + h2) == classified_history(h1 + h2),
        forall|k: int|
            0 <= k < classified_history(h1 + seq![m] + h2).len() ==> exists|j: int|
                0 <= j < (h1 + seq![m] + h2).len() && !is_merge((h1 + seq![m] + h2)[j])
                    && #[trigger] classified_history(h1 + seq![m] + h2)[k] == commit_model(
                    (h1 + seq![m] + h2)[j].id,
                    (h1 + seq![m] + h2)[j].summary,
                    (h1 + seq![m] + h2)[j].message,
                ),
{
    lemma_merge_dropped(h1, m, h2);
    assert forall|k: int| 0 <= k < classified_history(h1 + seq![m] + h2).len() implies exists|j: int|
        0 <= j < (h1 + seq![m] + h2).len() && !is_merge((h1 + seq![m] + h2)[j])
            && #[trigger] classified_history(h1 + seq![m] + h2)[k] == commit_model(
            (h1 + seq![m] + h2)[j].id,
            (h1 + seq![m] + h2)[j].summary,
            (h1 + seq![m] + h2)[j].message,
        ) by {
        lemma_from_non_merge(h1 + seq![m] + h2, k);
    }
}

} // verus!
