use change_shelf::card::{card, Card, Message};
use change_shelf::repo::{FetchError, RepoSource, StatusDigest};
use change_shelf::select::Message as SelectMessage;
use change_shelf::select::SelectOption;

fn digest(name: &str) -> StatusDigest {
    StatusDigest {
        repo_name: name.to_string(),
        current_branch: "main".to_string(),
        last_commit_summary: "tidy the docs".to_string(),
        last_commit_timestamp_secs: 1_431_648_000,
        last_commit_timestamp_nanos: 0,
    }
}

#[test]
fn builder_numbers_the_branch_options_in_order() {
    let source = RepoSource {
        path: "/work/alpha".to_string(),
        status_digest: Some(digest("alpha")),
        local_branches: Ok(vec!["main".to_string(), "develop".to_string()]),
    };
    let c = card(7, source);
    assert_eq!(c.id, 7);
    assert_eq!(c.path, "/work/alpha".to_string());
    let selector = c.branch_selector.as_ref().expect("branch selector");
    assert_eq!(
        selector.options,
        vec![
            SelectOption { id: 0, label: "main".to_string() },
            SelectOption { id: 1, label: "develop".to_string() },
        ]
    );
    assert!(selector.selected_item.is_none());
    assert_eq!(selector.input_value, "".to_string());
}

#[test]
fn builder_keeps_the_branch_listing_error() {
    let source = RepoSource {
        path: "/work/alpha".to_string(),
        status_digest: None,
        local_branches: Err(FetchError { message: "branch walk failed".to_string() }),
    };
    let c = card(0, source);
    let err = c.branch_selector.as_ref().err().expect("error kept");
    assert_eq!(err.message, "branch walk failed".to_string());
    let view = c.view();
    assert_eq!(view.branch_selector.err(), Some("branch walk failed".to_string()));
}

#[test]
fn card_without_digest_is_titled_by_the_base_name() {
    let source = RepoSource {
        path: "/work/alpha".to_string(),
        status_digest: None,
        local_branches: Ok(vec![]),
    };
    let c = card(0, source);
    let view = c.view();
    assert_eq!(view.title, "alpha".to_string());
    assert!(view.current_branch.is_none());
    assert!(view.last_commit_summary.is_none());
    assert!(view.last_commit_time.is_none());
}

#[test]
fn card_with_matching_repo_name_shows_it_plain() {
    let source = RepoSource {
        path: "/work/alpha".to_string(),
        status_digest: Some(digest("alpha")),
        local_branches: Ok(vec!["main".to_string()]),
    };
    let view = card(0, source).view();
    assert_eq!(view.title, "alpha".to_string());
    assert_eq!(view.current_branch, Some("main".to_string()));
    assert_eq!(view.last_commit_summary, Some("tidy the docs".to_string()));
    assert!(view.last_commit_time.is_some());
}

#[test]
fn card_with_differing_repo_name_shows_both_names() {
    let source = RepoSource {
        path: "/work/alpha".to_string(),
        status_digest: Some(digest("old-alpha")),
        local_branches: Ok(vec![]),
    };
    let view = card(0, source).view();
    assert_eq!(view.title, "old-alpha (Dir: alpha)".to_string());
}

#[test]
fn select_events_reach_the_selector_and_detail_does_not_touch_it() {
    let source = RepoSource {
        path: "/work/alpha".to_string(),
        status_digest: None,
        local_branches: Ok(vec!["main".to_string()]),
    };
    let mut c = card(3, source);
    c.update(Message::SelectMessage(SelectMessage::OptionSelected(SelectOption {
        id: 0,
        label: "main".to_string(),
    })));
    assert_eq!(
        c.branch_selector.as_ref().unwrap().selected_item,
        Some(SelectOption { id: 0, label: "main".to_string() })
    );
    c.update(Message::DetailRequested);
    assert_eq!(
        c.branch_selector.as_ref().unwrap().selected_item,
        Some(SelectOption { id: 0, label: "main".to_string() })
    );
}

#[test]
fn new_assembles_the_given_parts() {
    let c = Card::new(
        5,
        "/work/beta".to_string(),
        None,
        Err(FetchError { message: "unreachable".to_string() }),
    );
    assert_eq!(c.id, 5);
    assert_eq!(c.path, "/work/beta".to_string());
    assert!(c.status_digest.is_none());
}
