use watchers::cli::Commands;
use watchers::config::{default_true, get_watcher_config, Config, DEFAULT_COMMIT_DELAY_SECS};
use watchers::debouncer::Debouncer;
use watchers::file_utils::{FsEvent, FsEventKind, FsModifyKind};
use watchers::git::{get_commit_message, ChangeEntry, EventContext};
use watchers::systemd::{get_systemd_unit_path, get_unit_executable, get_unit_name};
use watchers::watcher::{
    create_watcher, delete_watcher, expand_watch_dir, list_watchers, watch_repo, CreateStep,
    FileKind, Received, WatchStep, Watcher,
};

fn config(delay: u32) -> Config {
    Config {
        name: "notes".to_string(),
        config_path: None,
        watch_dir: "/work/notes".to_string(),
        commit_delay_secs: delay,
        auto_push: true,
    }
}

fn event(kind: FsEventKind, path: &str) -> Received {
    Received::Event(FsEvent { kind, paths: vec![path.to_string()] })
}

#[test]
fn auto_push_default_is_true() {
    assert!(default_true());
}

#[test]
fn unit_names() {
    assert_eq!(get_unit_name("notes"), "watchers@notes.service");
    assert_eq!(get_unit_name(""), "watchers@.service");
    assert_eq!(
        get_systemd_unit_path("/home/ada/.config"),
        "/home/ada/.config/systemd/user/watchers@.service"
    );
    assert_eq!(get_unit_executable(Some("/opt/bin/watchers")), "/opt/bin/watchers");
    assert_eq!(get_unit_executable(None), "/usr/bin/local/watchers");
}

#[test]
fn watcher_config_lookup() {
    assert_eq!(get_watcher_config("notes", Some(config(3))), Ok(config(3)));
    assert_eq!(
        get_watcher_config("notes", None),
        Err("Could not find config for 'notes'".to_string())
    );
}

#[test]
fn config_clone_is_equal() {
    let c = Config { config_path: Some("/etc/watchers.yml".to_string()), ..config(10) };
    assert_eq!(c.clone(), c);
    let context = EventContext { repo_path: "/r".to_string(), config: c };
    assert_eq!(context.clone(), context);
}

#[test]
fn watcher_delay_is_in_milliseconds() {
    let c = config(3);
    let watcher = Watcher::new(&c);
    assert_eq!(watcher.debouncer.delay(), 3000);
    assert!(!watcher.debouncer.is_armed());
    let c = config(u32::MAX);
    assert_eq!(Watcher::new(&c).debouncer.delay(), 4294967295000);
}

#[test]
fn trigger_hands_context_of_config() {
    let c = config(1);
    let mut watcher = Watcher::new(&c);
    assert!(!watcher.trigger_debouncer(0));
    assert!(watcher.trigger_debouncer(10));
    assert_eq!(
        watcher.debouncer.on_timeout(1010),
        Some(EventContext { repo_path: "/work/notes".to_string(), config: config(1) })
    );
}

#[test]
fn two_quick_events_make_one_commit_with_one_added_entry() {
    let c = config(1);
    let mut watcher = Watcher::new(&c);
    let mut fired = Vec::new();
    let first = watch_repo(&mut watcher, event(FsEventKind::Create, "notes/a.txt"), Ok(vec![false]), 0);
    assert_eq!(first, WatchStep::Triggered { superseded: false });
    let second = watch_repo(
        &mut watcher,
        event(FsEventKind::Modify(FsModifyKind::Data), "notes/a.txt"),
        Ok(vec![false]),
        500,
    );
    assert_eq!(second, WatchStep::Triggered { superseded: true });
    for now in [1000u64, 1499, 1500, 2500] {
        if let Some(context) = watcher.debouncer.on_timeout(now) {
            fired.push((now, context));
        }
    }
    assert_eq!(fired.len(), 1);
    assert_eq!(fired[0].0, 1500);
    assert_eq!(fired[0].1.repo_path, "/work/notes");
    let status = vec![ChangeEntry {
        path: Some("notes/a.txt".to_string()),
        deleted: false,
        modified: false,
        added: true,
    }];
    assert_eq!(get_commit_message(&status), "Added 1\n\nAdded:\n  notes/a.txt");
}

#[test]
fn watch_loop_skips_noise() {
    let c = config(1);
    let mut watcher = Watcher::new(&c);
    assert_eq!(
        watch_repo(&mut watcher, event(FsEventKind::Access, "a"), Ok(vec![false]), 0),
        WatchStep::Skipped
    );
    assert_eq!(
        watch_repo(&mut watcher, event(FsEventKind::Create, ".git/index"), Ok(vec![false]), 0),
        WatchStep::Skipped
    );
    assert_eq!(
        watch_repo(&mut watcher, event(FsEventKind::Create, "target/x"), Ok(vec![true]), 0),
        WatchStep::Skipped
    );
    assert!(!watcher.debouncer.is_armed());
}

#[test]
fn watch_loop_stops_on_stream_end_or_error() {
    let c = config(1);
    let mut watcher = Watcher::new(&c);
    assert_eq!(watch_repo(&mut watcher, Received::Closed, Ok(vec![]), 0), WatchStep::Stopped(None));
    assert_eq!(
        watch_repo(&mut watcher, Received::Failed("overflow".to_string()), Ok(vec![]), 0),
        WatchStep::Stopped(Some("overflow".to_string()))
    );
}

#[test]
fn failed_ignore_check_is_fatal_only_where_needed() {
    let c = config(1);
    let mut watcher = Watcher::new(&c);
    assert_eq!(
        watch_repo(
            &mut watcher,
            event(FsEventKind::Create, "/elsewhere/a"),
            Err("not a repository".to_string()),
            0
        ),
        WatchStep::Stopped(Some("not a repository".to_string()))
    );
    assert_eq!(
        watch_repo(
            &mut watcher,
            event(FsEventKind::Access, "/elsewhere/a"),
            Err("not a repository".to_string()),
            0
        ),
        WatchStep::Skipped
    );
    assert!(!watcher.debouncer.is_armed());
}

#[test]
fn tilde_is_expanded_by_home() {
    assert_eq!(expand_watch_dir("~/notes", Some("/home/ada")), "/home/ada/notes");
    assert_eq!(expand_watch_dir("~", Some("/home/ada")), "/home/ada");
    assert_eq!(expand_watch_dir("~bob/notes", Some("/home/ada")), "~bob/notes");
    assert_eq!(expand_watch_dir("/srv/~/notes", Some("/home/ada")), "/srv/~/notes");
    assert_eq!(expand_watch_dir("~/notes", None), "~/notes");
    assert_eq!(expand_watch_dir("", Some("/home/ada")), "");
    assert_eq!(expand_watch_dir("~\\notes", Some("/home/ada")), "~\\notes");
}

#[test]
fn creating_a_watcher_step_by_step() {
    assert_eq!(
        create_watcher("/nowhere", false, "/c/n.yml", FileKind::Missing, None),
        CreateStep::Fail("Path '/nowhere' is not a directory".to_string())
    );
    assert_eq!(
        create_watcher("/work", true, "/c/n.yml", FileKind::Missing, None),
        CreateStep::Write
    );
    assert_eq!(
        create_watcher("/work", true, "/c/n.yml", FileKind::Other, None),
        CreateStep::Fail("'/c/n.yml' is not a regular file.".to_string())
    );
    assert_eq!(
        create_watcher("/work", true, "/c/n.yml", FileKind::Regular, None),
        CreateStep::Confirm("'/c/n.yml' already exists, do you want to overwrite it?".to_string())
    );
    assert_eq!(
        create_watcher("/work", true, "/c/n.yml", FileKind::Regular, Some(true)),
        CreateStep::Write
    );
    assert_eq!(
        create_watcher("/work", true, "/c/n.yml", FileKind::Regular, Some(false)),
        CreateStep::Keep
    );
}

#[test]
fn deleting_a_watcher() {
    assert_eq!(delete_watcher("notes", true), Ok(()));
    assert_eq!(delete_watcher("notes", false), Err("Couldn't find watcher 'notes'".to_string()));
}

#[test]
fn listing_watchers() {
    assert_eq!(list_watchers(&vec![]), Ok(vec!["Watchers:".to_string()]));
    assert_eq!(
        list_watchers(&vec![Some("notes".to_string()), Some("conf".to_string())]),
        Ok(vec!["Watchers:".to_string(), "  notes".to_string(), "  conf".to_string()])
    );
    assert_eq!(
        list_watchers(&vec![Some("notes".to_string()), None, Some("conf".to_string())]),
        Err((
            vec!["Watchers:".to_string(), "  notes".to_string()],
            "Failed to read config directory".to_string()
        ))
    );
}

#[test]
fn remaining_time_until_firing() {
    let mut d = Debouncer::new(50);
    assert_eq!(d.remaining(0), None);
    d.on_event(EventContext { repo_path: "/r".to_string(), config: config(1) }, 100);
    assert_eq!(d.remaining(100), Some(50));
    assert_eq!(d.remaining(120), Some(30));
    assert_eq!(d.remaining(150), Some(0));
    assert_eq!(d.remaining(1000), Some(0));
    assert_eq!(d.remaining(90), Some(60));
    let mut late = Debouncer::new(u64::MAX);
    late.on_event(EventContext { repo_path: "/r".to_string(), config: config(1) }, 10);
    assert_eq!(late.remaining(0), Some(u64::MAX));
    assert_eq!(late.remaining(11), Some(u64::MAX - 1));
}

#[test]
fn new_watcher_settings() {
    let c = Config::new("notes", "/work/notes");
    assert_eq!(
        c,
        Config {
            name: "notes".to_string(),
            config_path: None,
            watch_dir: "/work/notes".to_string(),
            commit_delay_secs: 3,
            auto_push: true,
        }
    );
    assert_eq!(DEFAULT_COMMIT_DELAY_SECS, 3);
    assert_eq!(
        Config::get_watcher_config_path("/home/ada/.config/watchers", "notes"),
        "/home/ada/.config/watchers/notes.yml"
    );
}

#[test]
fn commands_announce_success() {
    let name = "notes".to_string();
    assert_eq!(
        Commands::Start { name: name.clone() }.success_message(),
        Some("Successfully started watcher 'notes'".to_string())
    );
    assert_eq!(
        Commands::Stop { name: name.clone() }.success_message(),
        Some("Successfully stopped watcher 'notes'".to_string())
    );
    assert_eq!(
        Commands::Create { name: name.clone() }.success_message(),
        Some("Successfully created watcher 'notes', start it with: 'watchers start notes".to_string())
    );
    assert_eq!(
        Commands::Delete { name: name.clone() }.success_message(),
        Some("Successfully deleted watcher 'notes'".to_string())
    );
    assert_eq!(Commands::Logs { name: name.clone() }.success_message(), None);
    assert_eq!(Commands::List {}.success_message(), None);
    assert_eq!(Commands::Daemon { name }.success_message(), None);
}
