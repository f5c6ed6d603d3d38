use watchers::config::Config;
use watchers::debouncer::Debouncer;
use watchers::git::EventContext;

fn context(tag: &str) -> EventContext {
    EventContext {
        repo_path: "/tmp/test".to_string(),
        config: Config {
            name: tag.to_string(),
            config_path: None,
            watch_dir: "/tmp/test".to_string(),
            commit_delay_secs: 1,
            auto_push: false,
        },
    }
}

#[test]
fn debouncer_executes_callback_after_delay() {
    let mut debouncer = Debouncer::new(50);
    assert!(!debouncer.on_event(context("a"), 0));
    assert!(debouncer.is_armed());
    assert_eq!(debouncer.on_timeout(49), None);
    assert_eq!(debouncer.on_timeout(100), Some(context("a")));
    assert!(!debouncer.is_armed());
}

#[test]
fn debouncer_cancels_previous_timer() {
    let mut debouncer = Debouncer::new(100);
    let mut calls = 0;
    assert!(!debouncer.on_event(context("first"), 0));
    assert!(debouncer.on_event(context("second"), 50));
    // the timer of the first event wakes up, but the deadline has moved
    if debouncer.on_timeout(100).is_some() {
        calls += 1;
    }
    let fired = debouncer.on_timeout(150);
    if fired.is_some() {
        calls += 1;
    }
    assert_eq!(fired, Some(context("second")));
    if debouncer.on_timeout(200).is_some() {
        calls += 1;
    }
    assert_eq!(calls, 1);
}

#[test]
fn debouncer_handles_rapid_events() {
    let mut debouncer = Debouncer::new(50);
    let mut calls = 0;
    let mut now = 0;
    for i in 0..10 {
        if debouncer.is_due(now) && debouncer.on_timeout(now).is_some() {
            calls += 1;
        }
        assert_eq!(debouncer.on_event(context(&format!("e{}", i)), now), i > 0);
        now += 5;
    }
    let fired = debouncer.on_timeout(45 + 50);
    assert_eq!(fired, Some(context("e9")));
    calls += 1;
    assert_eq!(debouncer.on_timeout(45 + 100), None);
    assert_eq!(calls, 1);
}

#[test]
fn spaced_events_fire_once_each() {
    let mut debouncer = Debouncer::new(10);
    let mut fired = Vec::new();
    for (i, at) in [0u64, 11, 30, 100].iter().enumerate() {
        if let Some(c) = debouncer.on_timeout(*at) {
            fired.push(c.config.name);
        }
        debouncer.on_event(context(&format!("e{}", i)), *at);
    }
    if let Some(c) = debouncer.on_timeout(110) {
        fired.push(c.config.name);
    }
    assert_eq!(fired, vec!["e0", "e1", "e2", "e3"]);
}

#[test]
fn timeout_without_event_fires_nothing() {
    let mut debouncer = Debouncer::new(10);
    assert!(!debouncer.is_armed());
    assert!(!debouncer.is_due(1000));
    assert_eq!(debouncer.on_timeout(1000), None);
}

#[test]
fn timer_is_due_exactly_at_deadline() {
    let mut debouncer = Debouncer::new(10);
    debouncer.on_event(context("a"), 5);
    assert!(!debouncer.is_due(14));
    assert!(debouncer.is_due(15));
    assert_eq!(debouncer.delay(), 10);
}

#[test]
fn clock_going_back_fires_nothing() {
    let mut debouncer = Debouncer::new(10);
    debouncer.on_event(context("a"), 100);
    assert_eq!(debouncer.on_timeout(3), None);
    assert!(debouncer.is_armed());
}

#[test]
fn late_event_time_does_not_overflow() {
    let mut debouncer = Debouncer::new(u64::MAX);
    debouncer.on_event(context("a"), u64::MAX - 1);
    assert_eq!(debouncer.on_timeout(u64::MAX), None);
    let mut zero = Debouncer::new(0);
    zero.on_event(context("b"), u64::MAX);
    assert_eq!(zero.on_timeout(u64::MAX), Some(context("b")));
}

#[test]
fn cancel_stops_timer_and_keeps_payload_unfired() {
    let mut debouncer = Debouncer::new(10);
    assert!(!debouncer.cancel());
    debouncer.on_event(context("a"), 0);
    assert!(debouncer.cancel());
    assert!(!debouncer.is_armed());
    assert_eq!(debouncer.on_timeout(100), None);
    // the next event arms afresh and supersedes nothing
    assert!(!debouncer.on_event(context("b"), 200));
    assert_eq!(debouncer.on_timeout(210), Some(context("b")));
}
