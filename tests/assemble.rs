use changelog::changelog::{generate_changelog, ChangelogError};
use changelog::template::is_plain_template;
use changelog::markdown::render_markdown;
use changelog::configuration::Configuration;
use changelog::repository::Commit;

const REMOTE: &str = "https://example.com/repo";

fn commit(id: &str, summary: &str, message: &str) -> Commit {
    Commit::new(id.to_string(), summary.to_string(), message.to_string())
}

fn titles(c: &changelog::changelog::Changelog) -> Vec<&str> {
    c.sections.iter().map(|s| s.title.as_str()).collect()
}

#[test]
fn feature_fix_other_scenario() {
    let commits = vec![
        commit("aaaaaaaaaa", "feat: add widget", ""),
        commit("bbbbbbbbbb", "fix: mend widget", ""),
        commit("cccccccccc", "chore: tidy up", ""),
    ];
    let c = generate_changelog(&commits, &Configuration::defaults(), REMOTE, 0, 0).unwrap();
    assert_eq!(titles(&c), vec!["Features", "Bug Fixes"]);
    assert_eq!(c.sections[0].entries.len(), 1);
    assert_eq!(c.sections[1].entries.len(), 1);
    assert_eq!(c.sections[0].entries[0].summary, "add widget");
    assert_eq!(c.sections[1].entries[0].summary, "mend widget");
    for s in &c.sections {
        for e in &s.entries {
            assert_ne!(e.summary, "tidy up");
            assert!(!e.link.contains("cccccccccc"));
        }
    }
}

#[test]
fn empty_history_fails() {
    let r = generate_changelog(&vec![], &Configuration::defaults(), REMOTE, 0, 0);
    assert_eq!(r.err(), Some(ChangelogError::EmptyHistory));
}

#[test]
fn links_and_date() {
    let commits = vec![
        commit("0123456789abcdef", "fix(core): crash", ""),
        commit("fedcba9876543210", "feat: start", ""),
    ];
    let c = generate_changelog(&commits, &Configuration::defaults(), REMOTE, 1_700_000_000, 0).unwrap();
    assert_eq!(
        c.diff_link,
        "https://example.com/repo/branchCompare?baseVersion=GCfedcba9876543210&targetVersion=GC0123456789abcdef&_a=files"
    );
    assert_eq!(c.date, "2023-11-14");
    let fix = &c.sections[1].entries[0];
    assert_eq!(fix.short_id, "0123456");
    assert_eq!(fix.link, "https://example.com/repo/commit/0123456789abcdef");
    assert_eq!(fix.summary, "crash");
}

#[test]
fn breaking_section_comes_first() {
    let commits = vec![
        commit("1111111111", "feat!: new api", ""),
        commit("2222222222", "chore: deps", "chore: deps\n\nBREAKING CHANGE: node 20"),
        commit("3333333333", "feat: extra", ""),
    ];
    let c = generate_changelog(&commits, &Configuration::defaults(), REMOTE, 0, 0).unwrap();
    assert_eq!(titles(&c), vec!["BREAKING CHANGES", "Features", "Bug Fixes"]);
    let breaking: Vec<&str> = c.sections[0].entries.iter().map(|e| e.summary.as_str()).collect();
    assert_eq!(breaking, vec!["new api", "deps"]);
    assert_eq!(c.sections[1].entries.len(), 1);
    assert_eq!(c.sections[2].entries.len(), 0);
    assert_eq!(c.date, "1970-01-01");
}

#[test]
fn bad_diff_template_fails() {
    let mut config = Configuration::defaults();
    config.diff_format = "{{#if base}}unclosed".to_string();
    let r = generate_changelog(&vec![commit("1111111111", "feat: a", "")], &config, REMOTE, 0, 0);
    assert_eq!(r.err(), Some(ChangelogError::DiffTemplate));
}

#[test]
fn bad_date_format_fails() {
    let mut config = Configuration::defaults();
    config.date_format = "%Q".to_string();
    let r = generate_changelog(&vec![commit("1111111111", "feat: a", "")], &config, REMOTE, 0, 0);
    assert_eq!(r.err(), Some(ChangelogError::DateFormat));
}

#[test]
fn bad_commit_template_fails() {
    let mut config = Configuration::defaults();
    config.commit_detail_page_format = "{{#each commit}}".to_string();
    let r = generate_changelog(&vec![commit("1111111111", "fix: a", "")], &config, REMOTE, 0, 0);
    assert_eq!(r.err(), Some(ChangelogError::CommitTemplate));
}

#[test]
fn commit_template_unused_without_listed_commits() {
    let mut config = Configuration::defaults();
    config.commit_detail_page_format = "{{#each commit}}".to_string();
    let c = generate_changelog(&vec![commit("1111111111", "docs: a", "")], &config, REMOTE, 0, 0).unwrap();
    assert_eq!(titles(&c), vec!["Features", "Bug Fixes"]);
}

#[test]
fn undefined_placeholder_fails() {
    let mut config = Configuration::defaults();
    config.diff_format = "{{repositoryUri}}/compare/{{from}}..{{latest}}".to_string();
    let r = generate_changelog(&vec![commit("1111111111", "feat: a", "")], &config, REMOTE, 0, 0);
    assert_eq!(r.err(), Some(ChangelogError::DiffTemplate));
    let mut config = Configuration::defaults();
    config.commit_detail_page_format = "{{repositoryUri}}/c/{{hash}}".to_string();
    let r = generate_changelog(&vec![commit("1111111111", "feat: a", "")], &config, REMOTE, 0, 0);
    assert_eq!(r.err(), Some(ChangelogError::CommitTemplate));
}

#[test]
fn plain_templates_only() {
    assert!(is_plain_template("{{repositoryUri}}/commit/{{commit}}"));
    assert!(is_plain_template(
        "{{repositoryUri}}/branchCompare?baseVersion=GC{{base}}&targetVersion=GC{{latest}}&_a=files"
    ));
    assert!(is_plain_template("no placeholder at all"));
    assert!(is_plain_template(""));
    assert!(!is_plain_template("{{#if base}}x{{/if}}"));
    assert!(!is_plain_template("{{> self}}"));
    assert!(!is_plain_template("{{}}"));
    assert!(!is_plain_template("{single}"));
    assert!(!is_plain_template("{{open"));
    assert!(!is_plain_template("a}b"));
    assert!(!is_plain_template("\\{{commit}}"));
    assert!(!is_plain_template("{{ commit }}"));
}

#[test]
fn recursive_partial_template_is_refused() {
    let mut config = Configuration::defaults();
    config.diff_format = "{{#*inline \"p\"}}{{> p}}{{/inline}}{{> p}}".to_string();
    let r = generate_changelog(&vec![commit("1111111111", "feat: a", "")], &config, REMOTE, 0, 0);
    assert_eq!(r.err(), Some(ChangelogError::DiffTemplate));
    let mut config = Configuration::defaults();
    config.commit_detail_page_format = "{{#*inline \"p\"}}{{> p}}{{/inline}}{{> p}}".to_string();
    let r = generate_changelog(&vec![commit("1111111111", "fix: a", "")], &config, REMOTE, 0, 0);
    assert_eq!(r.err(), Some(ChangelogError::CommitTemplate));
}

#[test]
fn markdown_of_feature_fix_other_scenario() {
    let commits = vec![
        commit("aaaaaaaaaa", "feat: add widget", ""),
        commit("bbbbbbbbbb", "fix: mend widget", ""),
        commit("cccccccccc", "chore: tidy up", ""),
    ];
    let c = generate_changelog(&commits, &Configuration::defaults(), REMOTE, 0, 0).unwrap();
    let text = String::from_utf8(render_markdown(&c)).unwrap();
    println!("{}", text);
    assert!(text.starts_with("## [Draft Version]("));
    assert!(text.contains("1970\\-01\\-01"));
    assert!(text.contains("### Features\n"));
    assert!(text.contains("### Bug Fixes\n"));
    assert!(!text.contains("BREAKING"));
    assert_eq!(text.matches("\n   * ").count(), 2);
    assert!(text.contains(")\\)\n\n### Bug Fixes"));
    assert!(text.contains("add widget \\([aaaaaaa]("));
    assert!(text.contains("mend widget \\([bbbbbbb]("));
    assert!(!text.contains("tidy up"));
    assert!(!text.contains("ccccccc]"));
    let features = text.find("### Features").unwrap();
    let fixes = text.find("### Bug Fixes").unwrap();
    let feature_item = text.find("add widget").unwrap();
    let fix_item = text.find("mend widget").unwrap();
    assert!(features < feature_item && feature_item < fixes && fixes < fix_item);
}
