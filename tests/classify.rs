use changelog::classify::{get_commit_type, ConventionalType};

#[test]
fn test_map_commit_type_feat() {
    assert_eq!(get_commit_type("feat: normal", ""), ConventionalType::Feat);
}

#[test]
fn test_map_commit_type_feat_scope() {
    assert_eq!(get_commit_type("feat(scope): normal", ""), ConventionalType::Feat);
}

#[test]
fn test_map_commit_type_fix() {
    assert_eq!(get_commit_type("fix: normal", ""), ConventionalType::Fix);
}

#[test]
fn test_map_commit_type_fix_scope() {
    assert_eq!(get_commit_type("fix(scope): normal", ""), ConventionalType::Fix);
}

#[test]
fn test_map_commit_type_fix_bc() {
    assert_eq!(get_commit_type("fix!: normal", ""), ConventionalType::Breaking);
}

#[test]
fn test_map_commit_type_fix_bc_scope() {
    assert_eq!(get_commit_type("fix(scope)!: normal", ""), ConventionalType::Breaking);
}

#[test]
fn test_map_commit_type_feat_bc() {
    assert_eq!(get_commit_type("feat!: normal", ""), ConventionalType::Breaking);
}

#[test]
fn test_map_commit_type_feat_bc_scope() {
    assert_eq!(get_commit_type("feat(scope)!: normal", ""), ConventionalType::Breaking);
}

#[test]
fn test_map_commit_type_message_bc() {
    assert_eq!(
        get_commit_type("feat: normal", "Loren\nBREAKING CHANGE: bla\nsome other text"),
        ConventionalType::Breaking
    );
}

#[test]
fn test_map_commit_type_message_bc_as_end() {
    assert_eq!(
        get_commit_type("chore: normal", "Loren\nBREAKING CHANGE: bla"),
        ConventionalType::Breaking
    );
}

#[test]
fn breaking_summary_with_plain_message() {
    assert_eq!(get_commit_type("refactor!: drop api", "refactor!: drop api\n\nbody"), ConventionalType::Breaking);
}

#[test]
fn fix_with_footer_is_breaking() {
    assert_eq!(get_commit_type("fix: x", "fix: x\n\nBREAKING CHANGE: y"), ConventionalType::Breaking);
}

#[test]
fn footer_is_case_insensitive() {
    assert_eq!(get_commit_type("docs: x", "breaking change: y"), ConventionalType::Breaking);
    assert_eq!(get_commit_type("docs: x", "Breaking Change: y"), ConventionalType::Breaking);
    assert_eq!(get_commit_type("docs: x", "brea\u{212A}ing change: y"), ConventionalType::Breaking);
}

#[test]
fn footer_must_start_a_line() {
    assert_eq!(get_commit_type("docs: x", "see BREAKING CHANGE: y"), ConventionalType::Other);
}

#[test]
fn summary_matching_is_case_sensitive() {
    assert_eq!(get_commit_type("Feat: x", ""), ConventionalType::Other);
    assert_eq!(get_commit_type("FIX: x", ""), ConventionalType::Other);
}

#[test]
fn unconventional_summary_is_other() {
    assert_eq!(get_commit_type("chore: normal", ""), ConventionalType::Other);
    assert_eq!(get_commit_type("no colon here", "just text"), ConventionalType::Other);
    assert_eq!(get_commit_type("", ""), ConventionalType::Other);
}

#[test]
fn bang_needs_a_token_before_it() {
    assert_eq!(get_commit_type("!: x", ""), ConventionalType::Other);
}

#[test]
fn type_names() {
    assert_eq!(ConventionalType::Feat.name(), "Feat");
    assert_eq!(ConventionalType::Fix.name(), "Fix");
    assert_eq!(ConventionalType::Breaking.name(), "Breaking");
    assert_eq!(ConventionalType::Other.name(), "Other");
}

#[test]
fn longer_type_word_is_other() {
    assert_eq!(get_commit_type("feature: x", ""), ConventionalType::Other);
    assert_eq!(get_commit_type("fixup: x", ""), ConventionalType::Other);
    assert_eq!(get_commit_type("feat x: y", ""), ConventionalType::Other);
}

#[test]
fn breaking_marker_needs_token_without_white_space() {
    assert_eq!(get_commit_type("a b!: c", ""), ConventionalType::Other);
    assert_eq!(get_commit_type("revert!: c", ""), ConventionalType::Breaking);
}

#[test]
fn scope_must_close_once() {
    assert_eq!(get_commit_type("feat(a)b): x", ""), ConventionalType::Other);
    assert_eq!(get_commit_type("fix(): x", ""), ConventionalType::Fix);
    assert_eq!(get_commit_type("feat(a b): x", ""), ConventionalType::Feat);
}
