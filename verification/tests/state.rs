use plasma_keepawaked::config::{Config, Rule};
use plasma_keepawaked::state::{DaemonState, RuleEdit};
use std::path::PathBuf;

fn scratch_state(rule_names: &[&str]) -> DaemonState {
    let path = PathBuf::from(format!("plasma-keepawake-test-{}.json", rule_names.join("-")));
    let config = Config {
        version: 1,
        rules: rule_names
            .iter()
            .map(|name| Rule {
                name: name.to_string(),
                enabled: true,
                expr: "true".to_string(),
            })
            .collect(),
    };
    DaemonState::new(path, config)
}

fn names(state: &DaemonState) -> Vec<String> {
    state.config().rules.iter().map(|r| r.name.clone()).collect()
}

#[test]
fn rename_rule_updates_name_in_config_and_rules() {
    let mut state = scratch_state(&["a", "b"]);
    state.rename_rule("a", "renamed").unwrap();
    assert!(state.config().rules.iter().any(|r| r.name == "renamed"));
    assert!(!state.config().rules.iter().any(|r| r.name == "a"));
    // The live rules follow the edited config.
    assert!(state.rule_engine.rules().iter().any(|r| r.name == "renamed"));
}

#[test]
fn rename_rule_rejects_unknown_source() {
    let mut state = scratch_state(&["a"]);
    assert!(state.rename_rule("nope", "renamed").is_err());
}

#[test]
fn rename_rule_rejects_name_collision() {
    let mut state = scratch_state(&["a", "b"]);
    assert!(state.rename_rule("a", "b").is_err());
    // Unchanged on failure.
    assert!(state.config().rules.iter().any(|r| r.name == "a"));
}

#[test]
fn rename_rule_same_name_is_a_noop_success() {
    let mut state = scratch_state(&["a"]);
    assert!(state.rename_rule("a", "a").is_ok());
}

#[test]
fn rename_rule_error_messages() {
    let mut state = scratch_state(&["a", "b"]);
    assert_eq!(state.rename_rule("nope", "x"), Err("no rule named \"nope\"".to_string()));
    assert_eq!(
        state.rename_rule("a", "b"),
        Err("a rule named \"b\" already exists".to_string())
    );
    assert_eq!(names(&state), vec!["a", "b"]);
}

#[test]
fn rename_round_trip_restores_config() {
    let mut state = scratch_state(&["a", "b"]);
    state.rename_rule("a", "c").unwrap();
    assert_eq!(names(&state), vec!["c", "b"]);
    state.rename_rule("c", "a").unwrap();
    assert_eq!(names(&state), vec!["a", "b"]);
}

#[test]
fn add_rule_appends_and_rejects_duplicates_and_bad_exprs() {
    let mut state = scratch_state(&["a"]);
    assert_eq!(
        state.add_rule("a".to_string(), "true".to_string(), true),
        Err("a rule named \"a\" already exists".to_string())
    );
    let bad = state.add_rule("b".to_string(), "1 +".to_string(), true);
    assert!(bad.is_err());
    assert!(!bad.unwrap_err().is_empty());
    assert_eq!(names(&state), vec!["a"]);

    state.add_rule("b".to_string(), "false".to_string(), false).unwrap();
    assert_eq!(names(&state), vec!["a", "b"]);
    let added = &state.config().rules[1];
    assert_eq!(added.expr, "false");
    assert!(!added.enabled);
    assert_eq!(state.rule_engine.rules().len(), 2);
}

#[test]
fn add_then_remove_restores_config() {
    let mut state = scratch_state(&["a"]);
    state.add_rule("quote\"d".to_string(), "true".to_string(), true).unwrap();
    state.remove_rule("quote\"d").unwrap();
    assert_eq!(names(&state), vec!["a"]);
    assert_eq!(
        state.remove_rule("quote\"d"),
        Err("no rule named \"quote\\\"d\"".to_string())
    );
}

#[test]
fn update_rule_changes_only_the_expression() {
    let mut state = scratch_state(&["a", "b"]);
    assert_eq!(
        state.update_rule("zzz", "true".to_string()),
        Err("no rule named \"zzz\"".to_string())
    );
    assert!(state.update_rule("a", "(".to_string()).is_err());
    assert_eq!(state.config().rules[0].expr, "true");
    state.update_rule("a", "1 == 2".to_string()).unwrap();
    assert_eq!(state.config().rules[0].expr, "1 == 2");
    assert!(state.config().rules[0].enabled);
    assert_eq!(state.config().rules[1].expr, "true");
}

#[test]
fn remove_rule_removes_every_rule_with_that_name() {
    let mut state = scratch_state(&["a", "b", "a"]);
    state.remove_rule("a").unwrap();
    assert_eq!(names(&state), vec!["b"]);
}

#[test]
fn refresh_decides_inhibition_and_reason() {
    let mut state = scratch_state(&[]);
    state.add_rule("yes".to_string(), "true".to_string(), true).unwrap();
    state.add_rule("no".to_string(), "false".to_string(), true).unwrap();
    state.add_rule("off".to_string(), "true".to_string(), false).unwrap();
    state.add_rule("also".to_string(), "1 < 2".to_string(), true).unwrap();
    assert!(state.refresh());
    assert!(state.inhibiting);
    assert_eq!(state.reason, "yes, also");

    assert!(state.set_rule_enabled("yes", false));
    assert!(!state.set_rule_enabled("missing", true));
    assert!(state.refresh());
    assert_eq!(state.reason, "also");

    state.update_rule("also", "false".to_string()).unwrap();
    // The rebuild restored "yes" to its configured `enabled` flag.
    assert!(state.refresh());
    assert_eq!(state.reason, "yes");
    state.remove_rule("yes").unwrap();
    assert!(!state.refresh());
    assert!(!state.inhibiting);
    assert_eq!(state.reason, "");
}

#[test]
fn rule_rows_report_values_and_errors() {
    let mut state = scratch_state(&["a"]);
    state.add_rule("num".to_string(), "1 + 1".to_string(), true).unwrap();
    let before = state.rule_rows();
    assert_eq!(before.len(), 2);
    assert!(!before[0].currently_true);
    assert_eq!(before[0].last_error, "");

    state.refresh();
    let rows = state.rule_rows();
    assert_eq!(rows[0].name, "a");
    assert!(rows[0].currently_true);
    assert_eq!(rows[0].last_error, "");
    assert_eq!(rows[0].expr, "true");
    assert_eq!(rows[1].name, "num");
    assert!(!rows[1].currently_true);
    assert!(!rows[1].last_error.is_empty());
}

#[test]
fn reload_replaces_or_records_error() {
    let mut state = scratch_state(&["a"]);
    state.set_rule_enabled("a", false);
    state.reload(Err("could not parse config: bad".to_string()));
    assert_eq!(state.reload_error.as_deref(), Some("could not parse config: bad"));
    assert_eq!(names(&state), vec!["a"]);
    assert!(!state.rule_engine.rules()[0].enabled);

    // A loaded config with a rule that does not compile is not adopted.
    state.reload(Ok(Config {
        version: 1,
        rules: vec![
            Rule { name: "ok".to_string(), enabled: true, expr: "true".to_string() },
            Rule { name: "bad".to_string(), enabled: true, expr: "1 +".to_string() },
        ],
    }));
    let err = state.reload_error().clone().unwrap();
    assert!(!err.is_empty());
    assert_eq!(names(&state), vec!["a"]);
    assert!(!state.rule_engine.rules()[0].enabled);

    state.reload(Ok(Config {
        version: 1,
        rules: vec![Rule { name: "x".to_string(), enabled: true, expr: "true".to_string() }],
    }));
    assert_eq!(state.reload_error, None);
    assert_eq!(names(&state), vec!["x"]);
    assert!(state.rule_engine.rules()[0].enabled);
}

#[test]
fn rename_keeps_live_value_and_override() {
    let mut state = scratch_state(&["a", "b"]);
    assert!(state.refresh());
    assert!(state.set_rule_enabled("b", false));
    state.rename_rule("b", "c").unwrap();
    assert_eq!(names(&state), vec!["a", "c"]);
    let live = state.rule_engine.rules();
    assert_eq!(live[1].name, "c");
    assert!(!live[1].enabled);
    assert_eq!(state.statuses().len(), 2);
    assert_eq!(state.statuses()[1].name, "c");
    assert_eq!(state.statuses()[1].value, Ok(true));
    let rows = state.rule_rows();
    assert_eq!(rows[1].name, "c");
    assert!(rows[1].currently_true);
    assert!(state.is_inhibiting());
    assert_eq!(state.reason(), "a, b");
}

#[test]
fn planned_config_previews_without_applying() {
    let mut state = scratch_state(&["a"]);
    let add = RuleEdit::Add { name: "b".to_string(), expr: "true".to_string(), enabled: false };
    let planned = state.planned_config(&add).unwrap().unwrap();
    assert_eq!(planned.rules.len(), 2);
    assert_eq!(names(&state), vec!["a"]);
    state.apply_edit(add).unwrap();
    assert_eq!(names(&state), vec!["a", "b"]);

    let same = RuleEdit::Rename { old_name: "a".to_string(), new_name: "a".to_string() };
    assert!(state.planned_config(&same).unwrap().is_none());
    let clash = RuleEdit::Rename { old_name: "a".to_string(), new_name: "b".to_string() };
    assert_eq!(
        state.planned_config(&clash).err(),
        Some("a rule named \"b\" already exists".to_string())
    );
    let gone = RuleEdit::Remove { name: "zzz".to_string() };
    assert_eq!(state.planned_config(&gone).err(), Some("no rule named \"zzz\"".to_string()));
    let bad = RuleEdit::Update { name: "a".to_string(), expr: "(".to_string() };
    assert!(state.planned_config(&bad).is_err());
    assert!(state.apply_edit(bad).is_err());
    let upd = RuleEdit::Update { name: "a".to_string(), expr: "false".to_string() };
    let planned = state.planned_config(&upd).unwrap().unwrap();
    assert_eq!(planned.rules[0].expr, "false");
    assert_eq!(state.config().rules[0].expr, "true");
    let rm = RuleEdit::Remove { name: "b".to_string() };
    assert_eq!(state.planned_config(&rm).unwrap().unwrap().rules.len(), 1);
}
