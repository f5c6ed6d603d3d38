use watchers::backend::{Repo, Request};
use watchers::git::{
    create_commit, get_changed_files, get_commit_message, open_or_create_repo, stage_changes,
    ChangeEntry, StageOp,
};
use watchers::text::{decimal_string, join, to_chars};

fn entry(path: &str, deleted: bool, modified: bool, added: bool) -> ChangeEntry {
    ChangeEntry { path: Some(path.to_string()), deleted, modified, added }
}

#[test]
fn message_lists_deleted_and_modified() {
    let status = vec![
        entry("a", true, false, false),
        entry("b", false, true, false),
        entry("c", false, true, false),
    ];
    assert_eq!(
        get_commit_message(&status),
        "Deleted 1, Modified 2\n\nDeleted:\n  a\nModified:\n  b\n  c"
    );
}

#[test]
fn message_skips_empty_categories() {
    let status = vec![
        entry("gone", true, false, false),
        entry("x", false, false, true),
        entry("y", false, false, true),
    ];
    assert_eq!(
        get_commit_message(&status),
        "Deleted 1, Added 2\n\nDeleted:\n  gone\nAdded:\n  x\n  y"
    );
}

#[test]
fn message_keeps_fixed_order_of_categories() {
    let status = vec![
        entry("new", false, false, true),
        entry("changed", false, true, false),
        entry("gone", true, false, false),
    ];
    assert_eq!(
        get_commit_message(&status),
        "Deleted 1, Modified 1, Added 1\n\nDeleted:\n  gone\nModified:\n  changed\nAdded:\n  new"
    );
}

#[test]
fn message_for_one_added_file() {
    let status = vec![entry("notes/a.txt", false, false, true)];
    assert_eq!(get_commit_message(&status), "Added 1\n\nAdded:\n  notes/a.txt");
}

#[test]
fn message_counts_more_than_nine() {
    let mut status = Vec::new();
    for i in 0..12 {
        status.push(entry(&format!("f{}", i), false, true, false));
    }
    let message = get_commit_message(&status);
    assert!(message.starts_with("Modified 12\n\nModified:\n  f0\n  f1\n"));
    assert!(message.ends_with("\n  f11"));
}

#[test]
fn message_shows_unknown_file_for_missing_path() {
    let status = vec![ChangeEntry { path: None, deleted: false, modified: true, added: false }];
    assert_eq!(get_commit_message(&status), "Modified 1\n\nModified:\n  Unknown file");
}

#[test]
fn message_without_reported_changes_is_blank() {
    let status = vec![entry("t", false, false, false)];
    assert_eq!(get_commit_message(&status), "\n\n");
    assert_eq!(get_commit_message(&Vec::new()), "\n\n");
}

#[test]
fn entry_with_two_flags_is_listed_twice() {
    let status = vec![entry("both", true, true, false)];
    assert_eq!(
        get_commit_message(&status),
        "Deleted 1, Modified 1\n\nDeleted:\n  both\nModified:\n  both"
    );
}

#[test]
fn decimal_notation() {
    assert_eq!(decimal_string(0), "0");
    assert_eq!(decimal_string(7), "7");
    assert_eq!(decimal_string(10), "10");
    assert_eq!(decimal_string(409), "409");
    assert_eq!(decimal_string(1234567890), "1234567890");
}

#[test]
fn joining_parts() {
    let none: Vec<String> = Vec::new();
    assert_eq!(join(&none, ", "), "");
    assert_eq!(join(&vec!["a".to_string()], ", "), "a");
    assert_eq!(join(&vec!["a".to_string(), "".to_string(), "c".to_string()], "-"), "a--c");
}

#[test]
fn characters_of_text() {
    assert_eq!(to_chars("a/é"), vec!['a', '/', 'é']);
    assert_eq!(to_chars(""), Vec::<char>::new());
}

#[test]
fn staging_tells_files_deletions_and_submodules_apart() {
    let status = vec![
        entry("kept.txt", false, true, false),
        entry("gone.txt", true, false, false),
        entry("vendor/lib", false, true, false),
        ChangeEntry { path: None, deleted: false, modified: true, added: false },
        entry("new.txt", false, false, true),
    ];
    let submodules = vec!["vendor/lib".to_string()];
    assert_eq!(
        stage_changes(&status, &submodules),
        vec![
            StageOp::Add("kept.txt".to_string()),
            StageOp::Remove("gone.txt".to_string()),
            StageOp::Submodule("vendor/lib".to_string()),
            StageOp::Add("new.txt".to_string()),
        ]
    );
}

#[test]
fn deleted_submodule_is_staged_as_submodule() {
    let status = vec![entry("sub", true, false, false)];
    assert_eq!(
        stage_changes(&status, &vec!["other".to_string(), "sub".to_string()]),
        vec![StageOp::Submodule("sub".to_string())]
    );
    assert_eq!(stage_changes(&status, &Vec::new()), vec![StageOp::Remove("sub".to_string())]);
}

#[test]
fn first_commit_has_no_parent_and_second_has_the_first() {
    let first = create_commit(Repo::Root, Some("Added 1".to_string()), &None, &None, &None);
    assert_eq!(
        first,
        Request::Commit {
            repo: Repo::Root,
            message: "Added 1".to_string(),
            name: "Watchers".to_string(),
            email: "Watchers".to_string(),
            parent: None,
        }
    );
    let second = create_commit(
        Repo::Root,
        Some("Modified 1".to_string()),
        &Some("Ada".to_string()),
        &Some("ada@example.org".to_string()),
        &Some("1f3a".to_string()),
    );
    assert_eq!(
        second,
        Request::Commit {
            repo: Repo::Root,
            message: "Modified 1".to_string(),
            name: "Ada".to_string(),
            email: "ada@example.org".to_string(),
            parent: Some("1f3a".to_string()),
        }
    );
}

#[test]
fn commit_without_message_gets_default() {
    let request = create_commit(
        Repo::Submodule("sub".to_string()),
        None,
        &Some("Ada".to_string()),
        &None,
        &None,
    );
    assert_eq!(
        request,
        Request::Commit {
            repo: Repo::Submodule("sub".to_string()),
            message: "Autocommit".to_string(),
            name: "Ada".to_string(),
            email: "Watchers".to_string(),
            parent: None,
        }
    );
}

#[test]
fn status_read_covers_new_files_only_in_working_tree() {
    match get_changed_files(Repo::Root) {
        Request::Status { repo, query } => {
            assert_eq!(repo, Repo::Root);
            assert!(query.workdir_only);
            assert!(query.include_untracked);
            assert!(!query.include_ignored);
            assert!(!query.include_unmodified);
            assert!(!query.include_unreadable);
        }
        other => panic!("unexpected request {:?}", other),
    }
}

#[test]
fn opening_asks_for_open_or_init() {
    assert_eq!(
        open_or_create_repo("/tmp/repo"),
        Request::OpenOrInit { path: "/tmp/repo".to_string() }
    );
}
