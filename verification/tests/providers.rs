use plasma_keepawaked::inhibitor::{inhibit_request, reconcile_action, Inhibitor, ReconcileAction};
use plasma_keepawaked::providers::dbus::logind_manager;
use plasma_keepawaked::providers::ssh::{any_session, host_count, hosts_from_replies, session_property_query};
use plasma_keepawaked::providers::dbus::Bus;
use plasma_keepawaked::providers::mpris::{playback_status_query, player_bus_name, status_is_playing};
use plasma_keepawaked::providers::power::{battery_from_reply, on_battery_query};
use plasma_keepawaked::providers::process::{cmdline_text, cmdline_verdict, comm_matches, is_pid_name};
use plasma_keepawaked::providers::signal::{
    is_fresh, is_signal_dir, removed_count, should_remove, signal_is_set, stale_entries,
    SignalEntry, MAX_AGE_SECS,
};
use plasma_keepawaked::providers::stub::shout;
use plasma_keepawaked::text::contains;

#[test]
fn mpris_status_and_bus_name() {
    assert_eq!(player_bus_name("cliamp"), "org.mpris.MediaPlayer2.cliamp");
    assert!(status_is_playing(&Some("Playing".to_string())));
    assert!(!status_is_playing(&Some("Paused".to_string())));
    assert!(!status_is_playing(&Some("playing".to_string())));
    assert!(!status_is_playing(&None));
}

#[test]
fn battery_reply_defaults_to_ac() {
    assert!(battery_from_reply(Some(true)));
    assert!(!battery_from_reply(Some(false)));
    assert!(!battery_from_reply(None));
}

#[test]
fn process_matching() {
    assert!(is_pid_name("1234"));
    assert!(!is_pid_name("self"));
    assert!(!is_pid_name("12a"));
    assert_eq!(cmdline_verdict(&Some("/usr/bin/cliamp --play x".to_string()), "cliamp"), Some(true));
    assert_eq!(cmdline_verdict(&Some("/usr/bin/vim notes".to_string()), "cliamp"), Some(false));
    assert_eq!(cmdline_verdict(&Some(String::new()), "cliamp"), None);
    assert_eq!(cmdline_verdict(&None, "cliamp"), None);
    assert!(comm_matches(&Some("kworker/0:1".to_string()), "kworker"));
    assert!(!comm_matches(&Some("kworker/0:1".to_string()), "cliamp"));
    assert!(!comm_matches(&None, "x"));
}

#[test]
fn substring_search() {
    assert!(contains("hello world", "o w"));
    assert!(contains("hello", ""));
    assert!(contains("", ""));
    assert!(!contains("", "a"));
    assert!(!contains("abc", "abcd"));
    assert!(contains("ääbä", "bä"));
    assert!(!contains("aab", "abb"));
}

#[test]
fn signal_freshness_rules() {
    assert_eq!(MAX_AGE_SECS, 600);
    assert!(is_fresh(Some(0)));
    assert!(is_fresh(Some(599)));
    assert!(!is_fresh(Some(600)));
    assert!(!is_fresh(None));

    let fresh = SignalEntry { is_file: true, age_secs: Some(5) };
    let stale = SignalEntry { is_file: true, age_secs: Some(MAX_AGE_SECS + 60) };
    let dir = SignalEntry { is_file: false, age_secs: Some(1) };
    assert!(signal_is_set(true, &[]));
    assert!(!signal_is_set(false, &[]));
    assert!(signal_is_set(false, &[
        SignalEntry { is_file: true, age_secs: Some(MAX_AGE_SECS + 60) },
        SignalEntry { is_file: true, age_secs: Some(5) },
    ]));
    assert!(!signal_is_set(false, &[
        SignalEntry { is_file: true, age_secs: Some(MAX_AGE_SECS + 60) },
        SignalEntry { is_file: false, age_secs: Some(1) },
    ]));
    assert!(!should_remove(&fresh));
    assert!(should_remove(&stale));
    assert!(!should_remove(&dir));
    assert!(should_remove(&SignalEntry { is_file: true, age_secs: None }));
}

#[test]
fn shout_mangles_names() {
    assert_eq!(shout("cliamp"), "CLIAMP");
    assert_eq!(shout("build-running"), "BUILD_RUNNING");
    assert_eq!(shout("Ab9 é."), "AB9___");
    assert_eq!(shout(""), "");
}

#[test]
fn inhibitor_release_without_hold_is_no_change() {
    let mut inhibitor = Inhibitor::new();
    assert!(!inhibitor.is_held());
    assert!(!inhibitor.reconcile(false, "nothing"));
    assert!(!inhibitor.is_held());
}

#[test]
fn provider_queries_name_the_right_objects() {
    let q = playback_status_query("cliamp");
    assert!(matches!(q.bus, Bus::Session));
    assert_eq!(q.destination, "org.mpris.MediaPlayer2.cliamp");
    assert_eq!(q.path, "/org/mpris/MediaPlayer2");
    assert_eq!(q.interface, "org.mpris.MediaPlayer2.Player");
    assert_eq!(q.property, "PlaybackStatus");

    let q = on_battery_query();
    assert!(matches!(q.bus, Bus::System));
    assert_eq!(q.destination, "org.freedesktop.UPower");
    assert_eq!(q.path, "/org/freedesktop/UPower");
    assert_eq!(q.interface, "org.freedesktop.UPower");
    assert_eq!(q.property, "OnBattery");
}

#[test]
fn inhibit_request_and_reconcile_action() {
    let r = inhibit_request("cliamp-playing, build");
    assert_eq!(r.what, "sleep");
    assert_eq!(r.who, "plasma-keepawaked");
    assert_eq!(r.why, "cliamp-playing, build");
    assert_eq!(r.mode, "block");
    assert!(matches!(reconcile_action(false, true), ReconcileAction::Acquire));
    assert!(matches!(reconcile_action(true, false), ReconcileAction::Release));
    assert!(matches!(reconcile_action(true, true), ReconcileAction::Keep));
    assert!(matches!(reconcile_action(false, false), ReconcileAction::Keep));
}

#[test]
fn logind_objects_and_host_helpers() {
    let m = logind_manager();
    assert!(matches!(m.bus, Bus::System));
    assert_eq!(m.destination, "org.freedesktop.login1");
    assert_eq!(m.path, "/org/freedesktop/login1");
    assert_eq!(m.interface, "org.freedesktop.login1.Manager");
    let q = session_property_query("/org/freedesktop/login1/session/_32", "Service");
    assert!(matches!(q.bus, Bus::System));
    assert_eq!(q.destination, "org.freedesktop.login1");
    assert_eq!(q.path, "/org/freedesktop/login1/session/_32");
    assert_eq!(q.interface, "org.freedesktop.login1.Session");
    assert_eq!(q.property, "Service");

    assert!(hosts_from_replies(None).is_empty());
    let hosts = hosts_from_replies(Some(vec![
        (Some("sshd".to_string()), Some("10.0.0.5".to_string())),
        (Some("gdm".to_string()), Some("".to_string())),
    ]));
    assert_eq!(hosts, vec!["10.0.0.5"]);
    assert_eq!(host_count(&hosts), 1);
    assert!(any_session(1));
    assert!(!any_session(0));
}

#[test]
fn cmdline_fields_are_joined_with_spaces() {
    assert_eq!(cmdline_text(b"/usr/bin/cliamp\0--play\0song.mp3\0"), "/usr/bin/cliamp --play song.mp3 ");
    assert_eq!(cmdline_text(b""), "");
    assert_eq!(cmdline_text(b"a\0\0b"), "a  b");
    assert_eq!(cmdline_text(b"x\xffy"), "x\u{FFFD}y");
}

#[test]
fn cleanup_selection_and_count() {
    assert!(is_signal_dir(true, "thinking.d"));
    assert!(is_signal_dir(true, "a.b.d"));
    assert!(!is_signal_dir(true, ".d"));
    assert!(!is_signal_dir(true, "thinking"));
    assert!(!is_signal_dir(true, "thinking.dd"));
    assert!(!is_signal_dir(false, "thinking.d"));
    let entries = [
        SignalEntry { is_file: true, age_secs: Some(5) },
        SignalEntry { is_file: true, age_secs: Some(MAX_AGE_SECS + 60) },
        SignalEntry { is_file: false, age_secs: Some(MAX_AGE_SECS + 60) },
        SignalEntry { is_file: true, age_secs: None },
    ];
    assert_eq!(stale_entries(&entries), vec![1, 3]);
    assert_eq!(removed_count(&[true, false, true]), 2);
    assert_eq!(removed_count(&[]), 0);
}

#[test]
fn inhibitor_starts_without_reason() {
    let inhibitor = Inhibitor::new();
    assert!(inhibitor.held_reason().is_none());
}
