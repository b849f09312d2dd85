//! Classification of a commit against the Conventional Commits convention.

use vstd::prelude::*;
use crate::text::is_white_space_spec;

verus! {

/// The category of a commit.
#[derive(Debug, Clone, Copy, PartialEq, Eq, Structural)]
pub enum ConventionalType {
    Feat,
    Fix,
    Breaking,
    Other,
}

impl ConventionalType {
    /// The variant's name.
    pub fn name(&self) -> (r: &'static str)
        ensures
            r@ == category_name(*self),
    {
        match self {
            ConventionalType::Feat => "Feat",
            ConventionalType::Fix => "Fix",
            ConventionalType::Breaking => "Breaking",
            ConventionalType::Other => "Other",
        }
    }
}

pub open spec fn category_name(t: ConventionalType) -> Seq<char> {
    match t {
        ConventionalType::Feat => "Feat"@,
        ConventionalType::Fix => "Fix"@,
        ConventionalType::Breaking => "Breaking"@,
        ConventionalType::Other => "Other"@,
    }
}

/// A summary whose first token, without white space, ends in `!:` marks a breaking change.
pub const BREAKING_SUMMARY_PATTERN: &'static str = "^\\S+!:.*$";

/// A summary of type `feat`: an optional scope, an optional `!`, then a colon.
pub const FEAT_PATTERN: &'static str = "^feat(\\([^)]*\\))?!?:.*$";

/// A summary of type `fix`: an optional scope, an optional `!`, then a colon.
pub const FIX_PATTERN: &'static str = "^fix(\\([^)]*\\))?!?:.*$";

/// A message line that starts with `BREAKING CHANGE:`, in any case.
pub const BREAKING_FOOTER_PATTERN: &'static str = "(?mi)^breaking change:.*";

pub open spec fn has_no_newline(s: Seq<char>) -> bool {
    forall|i: int| 0 <= i < s.len() ==> s[i] != '\n'
}

/// The two characters `!:` stand at position `i` of `s`, after at least one character.
pub open spec fn bang_colon_at(s: Seq<char>, i: int) -> bool {
    1 <= i && i + 1 < s.len() && s[i] == '!' && s[i + 1] == ':'
}

/// `s` starts with characters other than white space, then `!:` at position `i`, then the
/// rest of one line.
pub open spec fn breaking_marker_at(s: Seq<char>, i: int) -> bool {
    &&& bang_colon_at(s, i)
    &&& forall|k: int| 0 <= k < i ==> !is_white_space_spec(#[trigger] s[k])
    &&& forall|k: int| i + 2 <= k < s.len() ==> #[trigger] s[k] != '\n'
}

/// What `^\S+!:.*$` matches.
pub open spec fn summary_marks_breaking(s: Seq<char>) -> bool {
    exists|i: int| breaking_marker_at(s, i)
}

pub open spec fn feat_word() -> Seq<char> {
    seq!['f', 'e', 'a', 't']
}

pub open spec fn fix_word() -> Seq<char> {
    seq!['f', 'i', 'x']
}

/// The optional scope of a summary: nothing, or `scope` in parentheses.
pub open spec fn scope_part(scope: Option<Seq<char>>) -> Seq<char> {
    match scope {
        Some(inner) => seq!['('] + inner + seq![')'],
        None => Seq::empty(),
    }
}

/// A scope holds no closing parenthesis.
pub open spec fn scope_is_valid(scope: Option<Seq<char>>) -> bool {
    match scope {
        Some(inner) => forall|k: int| 0 <= k < inner.len() ==> inner[k] != ')',
        None => true,
    }
}

pub open spec fn bang_part(bang: bool) -> Seq<char> {
    if bang {
        seq!['!']
    } else {
        Seq::empty()
    }
}

/// The summary `<word>[(<scope>)][!]:<rest>`.
pub open spec fn typed_summary(
    word: Seq<char>,
    scope: Option<Seq<char>>,
    bang: bool,
    rest: Seq<char>,
) -> Seq<char> {
    word + scope_part(scope) + bang_part(bang) + seq![':'] + rest
}

/// What `^<word>(\([^)]*\))?!?:.*$` matches: the word, an optional scope without `)`, an
/// optional `!`, a colon, and the rest of one line.
pub open spec fn summary_has_type(s: Seq<char>, word: Seq<char>) -> bool {
    exists|scope: Option<Seq<char>>, bang: bool, rest: Seq<char>|
        scope_is_valid(scope) && has_no_newline(rest) && #[trigger] typed_summary(
            word,
            scope,
            bang,
            rest,
        ) == s
}

pub open spec fn footer_lower() -> Seq<char> {
    seq!['b', 'r', 'e', 'a', 'k', 'i', 'n', 'g', ' ', 'c', 'h', 'a', 'n', 'g', 'e', ':']
}

pub open spec fn footer_upper() -> Seq<char> {
    seq!['B', 'R', 'E', 'A', 'K', 'I', 'N', 'G', ' ', 'C', 'H', 'A', 'N', 'G', 'E', ':']
}

/// Case-insensitive equality with the `k`-th character of the footer, as Unicode simple case
/// folding has it (the KELVIN SIGN folds to `k`).
pub open spec fn footer_char_matches(c: char, k: int) -> bool {
    ||| c == footer_lower()[k]
    ||| c == footer_upper()[k]
    ||| (footer_lower()[k] == 'k' && c == '\u{212A}')
}

/// The footer starts at position `i` of `m`, and `i` starts a line.
pub open spec fn footer_at(m: Seq<char>, i: int) -> bool {
    &&& 0 <= i
    &&& i + 16 <= m.len()
    &&& (i == 0 || m[i - 1] == '\n')
    &&& forall|k: int| 0 <= k < 16 ==> footer_char_matches(#[trigger] m[i + k], k)
}

/// What `(?mi)^breaking change:.*` matches: some line of `m` starts with the footer.
pub open spec fn message_has_breaking_footer(m: Seq<char>) -> bool {
    exists|i: int| footer_at(m, i)
}

/// The category of a commit from its raw summary and its full message.
pub open spec fn commit_type_of(summary: Seq<char>, message: Seq<char>) -> ConventionalType {
    if summary_marks_breaking(summary) || message_has_breaking_footer(message) {
        ConventionalType::Breaking
    } else if summary_has_type(summary, feat_word()) {
        ConventionalType::Feat
    } else if summary_has_type(summary, fix_word()) {
        ConventionalType::Fix
    } else {
        ConventionalType::Other
    }
}

/// Relies on regex::Regex::new and regex::Regex::is_match: each of the four patterns above
/// compiles, and matches exactly the texts that the spec function beside it describes.
#[verifier::external_body]
fn regex_is_match(pattern: &str, text: &str) -> (r: bool)
    requires
        pattern@ == BREAKING_SUMMARY_PATTERN@ || pattern@ == FEAT_PATTERN@ || pattern@
            == FIX_PATTERN@ || pattern@ == BREAKING_FOOTER_PATTERN@,
    ensures
        pattern@ == BREAKING_SUMMARY_PATTERN@ ==> r == summary_marks_breaking(text@),
        pattern@ == FEAT_PATTERN@ ==> r == summary_has_type(text@, feat_word()),
        pattern@ == FIX_PATTERN@ ==> r == summary_has_type(text@, fix_word()),
        pattern@ == BREAKING_FOOTER_PATTERN@ ==> r == message_has_breaking_footer(text@),
{
    regex::Regex::new(pattern).unwrap().is_match(text)
}

/// Classifies a commit by its raw summary line and its full message.
pub fn get_commit_type(summary: &str, message: &str) -> (r: ConventionalType)
    ensures
        r == commit_type_of(summary@, message@),
{
    let mut commit_type = ConventionalType::Other;
    if regex_is_match(BREAKING_SUMMARY_PATTERN, summary) {
        commit_type = ConventionalType::Breaking;
    } else if regex_is_match(FEAT_PATTERN, summary) {
        commit_type = ConventionalType::Feat;
    } else if regex_is_match(FIX_PATTERN, summary) {
        commit_type = ConventionalType::Fix;
    }
    if regex_is_match(BREAKING_FOOTER_PATTERN, message) {
        commit_type = ConventionalType::Breaking;
    }
    commit_type
}

/// The summary is one line without an exclamation mark.
pub open spec fn is_plain_line(s: Seq<char>) -> bool {
    forall|i: int| 0 <= i < s.len() ==> s[i] != '\n' && s[i] != '!'
}

proof fn lemma_typed_summary_matches(word: Seq<char>, scope: Option<Seq<char>>, rest: Seq<char>)
    requires
        scope_is_valid(scope),
        is_plain_line(typed_summary(word, scope, false, rest)),
    ensures
        summary_has_type(typed_summary(word, scope, false, rest), word),
        !summary_marks_breaking(typed_summary(word, scope, false, rest)),
{
    let s = typed_summary(word, scope, false, rest);
    let head = word + scope_part(scope) + bang_part(false) + seq![':'];
    assert(s == head + rest);
    assert(has_no_newline(rest)) by {
        assert forall|k: int| 0 <= k < rest.len() implies rest[k] != '\n' by {
            assert(s[head.len() + k] == rest[k]);
        }
    }
    if exists|i: int| breaking_marker_at(s, i) {
        let i = choose|i: int| breaking_marker_at(s, i);
        assert(s[i] == '!');
    }
}

/// A summary whose first token ends in `!:` is breaking, whatever the message says.
pub proof fn breaking_summary_is_breaking(summary: Seq<char>, message: Seq<char>)
    requires
        summary_marks_breaking(summary),
    ensures
        commit_type_of(summary, message) == ConventionalType::Breaking,
{
}

/// A summary `feat:` or `feat(scope):` without `!`, its scope free of `)`, is a feature,
/// unless the message has a `BREAKING CHANGE:` line, in which case it is breaking.
pub proof fn feat_summary_is_feature(
    scope: Option<Seq<char>>,
    rest: Seq<char>,
    message: Seq<char>,
)
    requires
        scope_is_valid(scope),
        is_plain_line(typed_summary(feat_word(), scope, false, rest)),
    ensures
        commit_type_of(typed_summary(feat_word(), scope, false, rest), message) == if message_has_breaking_footer(
            message,
        ) {
            ConventionalType::Breaking
        } else {
            ConventionalType::Feat
        },
{
    lemma_typed_summary_matches(feat_word(), scope, rest);
}

/// A summary `fix:` or `fix(scope):` without `!`, its scope free of `)`, is a fix, unless
/// the message has a `BREAKING CHANGE:` line, in which case it is breaking.
pub proof fn fix_summary_is_fix(scope: Option<Seq<char>>, rest: Seq<char>, message: Seq<char>)
    requires
        scope_is_valid(scope),
        is_plain_line(typed_summary(fix_word(), scope, false, rest)),
    ensures
        commit_type_of(typed_summary(fix_word(), scope, false, rest), message) == if message_has_breaking_footer(
            message,
        ) {
            ConventionalType::Breaking
        } else {
            ConventionalType::Fix
        },
{
    let s = typed_summary(fix_word(), scope, false, rest);
    lemma_typed_summary_matches(fix_word(), scope, rest);
    assert(s[1] == 'i');
    if summary_has_type(s, feat_word()) {
        let (sc, b, r) = choose|sc: Option<Seq<char>>, b: bool, r: Seq<char>|
            scope_is_valid(sc) && has_no_newline(r) && #[trigger] typed_summary(
                feat_word(),
                sc,
                b,
                r,
            ) == s;
        assert(typed_summary(feat_word(), sc, b, r)[1] == 'e');
    }
}

/// A summary that matches none of the breaking, `feat` and `fix` patterns, with a message
/// without a `BREAKING CHANGE:` line, is classified as other.
pub proof fn unmatched_commit_is_other(summary: Seq<char>, message: Seq<char>)
    requires
        !summary_marks_breaking(summary),
        !summary_has_type(summary, feat_word()),
        !summary_has_type(summary, fix_word()),
        !message_has_breaking_footer(message),
    ensures
        commit_type_of(summary, message) == ConventionalType::Other,
{
}

} // verus!
