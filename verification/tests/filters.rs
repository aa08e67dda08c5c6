use github_notifier::filters::{allowed_repo, hit, is_dep_bump, retain, retained, DEP_BUMP_PATTERN};
use github_notifier::github::{Notification, Repository, Subject};

fn notification(id: &str, title: &str) -> Notification {
    Notification {
        id: id.to_owned(),
        repository: Repository {
            id: "42".to_owned(),
            name: "vector".to_owned(),
            full_name: "acme/vector".to_owned(),
            html_url: "https://github.com/acme/vector".to_owned(),
            description: None,
        },
        subject: Subject { title: title.to_owned(), category: "PullRequest".to_owned() },
    }
}

#[test]
fn the_pattern_is_the_conventional_commit_marker() {
    assert_eq!(DEP_BUMP_PATTERN, r"chore\((deps?(-dev)?)\)");
}

#[test]
fn dep_bump_matches_chore_dep() {
    assert!(is_dep_bump(&notification("1", "chore(dep): bump serde from 1.0.1 to 1.0.2")));
}

#[test]
fn dep_bump_matches_chore_deps() {
    assert!(is_dep_bump(&notification("1", "chore(deps): bump serde from 1.0.1 to 1.0.2")));
}

#[test]
fn dep_bump_matches_chore_dep_dev() {
    assert!(is_dep_bump(&notification("1", "chore(dep-dev): bump eslint")));
}

#[test]
fn dep_bump_matches_chore_deps_dev() {
    assert!(is_dep_bump(&notification("1", "chore(deps-dev): bump eslint")));
}

#[test]
fn dep_bump_matches_anywhere_in_the_title() {
    assert!(is_dep_bump(&notification("1", "[backport] chore(deps): bump tokio")));
    assert!(is_dep_bump(&notification("1", "chore(deps)")));
}

#[test]
fn dep_bump_does_not_match_feat_deps() {
    assert!(!is_dep_bump(&notification("1", "feat(deps): allow newer serde")));
}

#[test]
fn dep_bump_does_not_match_chore_core() {
    assert!(!is_dep_bump(&notification("1", "chore(core): tidy up")));
}

#[test]
fn dep_bump_is_case_sensitive_and_exact() {
    assert!(!is_dep_bump(&notification("1", "Chore(deps): bump serde")));
    assert!(!is_dep_bump(&notification("1", "chore(dev): bump serde")));
    assert!(!is_dep_bump(&notification("1", "chore(depss): bump serde")));
    assert!(!is_dep_bump(&notification("1", "chore(deps-dev"))); 
    assert!(!is_dep_bump(&notification("1", "chore deps")));
    assert!(!is_dep_bump(&notification("1", "")));
}

#[test]
fn dep_bump_reads_the_title_not_the_category() {
    let mut n = notification("1", "a plain title");
    n.subject.category = "chore(deps)".to_owned();
    assert!(!is_dep_bump(&n));
}

#[test]
fn dep_bump_takes_titles_beyond_ascii() {
    assert!(is_dep_bump(&notification("1", "\u{1F916} chore(deps): bump caf\u{e9}")));
    assert!(!is_dep_bump(&notification("1", "\u{1F916} caf\u{e9}")));
}

#[test]
fn every_repository_is_allowed() {
    assert!(allowed_repo(&notification("1", "anything")));
    let mut other = notification("2", "chore(deps): bump");
    other.repository.full_name = "someone/else".to_owned();
    assert!(allowed_repo(&other));
}

#[test]
fn a_hit_needs_a_pattern_that_was_taken_and_a_match() {
    assert!(hit(Some(true)));
    assert!(!hit(Some(false)));
    assert!(!hit(None));
}

#[test]
fn retain_is_not_a_bump_and_allowed() {
    let titles = [
        "chore(dep): a",
        "chore(deps): b",
        "chore(dep-dev): c",
        "chore(deps-dev): d",
        "feat(deps): e",
        "chore(core): f",
        "fix: g",
        "",
    ];
    for title in titles {
        let n = notification("1", title);
        assert_eq!(retain(&n), !is_dep_bump(&n) && allowed_repo(&n));
    }
    assert!(retain(&notification("1", "fix: g")));
    assert!(!retain(&notification("1", "chore(deps): b")));
}

#[test]
fn retained_keeps_fetch_order() {
    let fetched = vec![
        notification("a", "fix: first"),
        notification("b", "chore(deps): bump x"),
        notification("c", "feat: third"),
        notification("d", "chore(dep-dev): bump y"),
        notification("e", "docs: fifth"),
    ];
    let kept = retained(fetched);
    let ids: Vec<&str> = kept.iter().map(|n| n.id.as_str()).collect();
    assert_eq!(ids, vec!["a", "c", "e"]);
    assert_eq!(kept[1].subject.title, "feat: third");
}

#[test]
fn retained_of_nothing_is_nothing() {
    assert!(retained(Vec::new()).is_empty());
    assert!(retained(vec![notification("b", "chore(deps): bump x")]).is_empty());
}
