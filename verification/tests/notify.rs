use github_notifier::github::{Notification, Repository, Subject};
use github_notifier::notify::{
    display_notification, maybe_init_notifications, APPLICATION_NAME, NEVER_EXPIRES,
};

fn notification(full_name: &str, category: &str, title: &str) -> Notification {
    Notification {
        id: "1".to_owned(),
        repository: Repository {
            id: "42".to_owned(),
            name: "short".to_owned(),
            full_name: full_name.to_owned(),
            html_url: "https://example.org".to_owned(),
            description: None,
        },
        subject: Subject { title: title.to_owned(), category: category.to_owned() },
    }
}

#[test]
fn the_alert_names_the_repository_and_joins_category_and_title() {
    let alert = display_notification(&notification("acme/vector", "PullRequest", "fix: a bug"));
    assert_eq!(alert.summary, "acme/vector");
    assert_eq!(alert.body, "PullRequest: fix: a bug");
    assert_eq!(alert.timeout, 0);
    assert_eq!(alert.timeout, NEVER_EXPIRES);
}

#[test]
fn the_alert_of_empty_texts() {
    let alert = display_notification(&notification("", "", ""));
    assert_eq!(alert.summary, "");
    assert_eq!(alert.body, ": ");
    assert_eq!(alert.timeout, 0);
}

#[test]
fn the_alert_keeps_texts_beyond_ascii() {
    let alert = display_notification(&notification("caf\u{e9}/\u{1F916}", "Issue", "na\u{ef}ve"));
    assert_eq!(alert.summary, "caf\u{e9}/\u{1F916}");
    assert_eq!(alert.body, "Issue: na\u{ef}ve");
}

#[test]
fn the_desktop_is_set_up_once() {
    let mut ready = false;
    assert!(maybe_init_notifications(&mut ready));
    assert!(ready);
    assert!(!maybe_init_notifications(&mut ready));
    assert!(!maybe_init_notifications(&mut ready));
    assert!(ready);
}

#[test]
fn the_application_name() {
    assert_eq!(APPLICATION_NAME, "Github Desktop");
}
