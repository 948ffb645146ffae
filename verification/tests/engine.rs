use plasma_keepawaked::config::{default_true, Config, Rule};
use plasma_keepawaked::engine::{
    active_rule_names, inhibit_reason, should_inhibit, RuleEngine, RuleStatus,
};

fn status(name: &str, enabled: bool, value: Result<bool, String>) -> RuleStatus {
    RuleStatus { name: name.to_string(), enabled, value }
}

fn rule(name: &str, expr: &str, enabled: bool) -> Rule {
    Rule { name: name.to_string(), enabled, expr: expr.to_string() }
}

#[test]
fn should_inhibit_needs_an_enabled_true_rule() {
    assert!(!should_inhibit(&[]));
    assert!(!should_inhibit(&[status("a", false, Ok(true))]));
    assert!(!should_inhibit(&[status("a", true, Ok(false))]));
    assert!(!should_inhibit(&[status("a", true, Err("boom".to_string()))]));
    assert!(should_inhibit(&[status("a", true, Ok(false)), status("b", true, Ok(true))]));
}

#[test]
fn active_names_and_reason() {
    let statuses = [
        status("a", true, Ok(true)),
        status("b", false, Ok(true)),
        status("c", true, Err("x".to_string())),
        status("d", true, Ok(true)),
    ];
    assert_eq!(active_rule_names(&statuses), vec!["a", "d"]);
    assert_eq!(inhibit_reason(&statuses), "a, d");
    assert_eq!(inhibit_reason(&statuses[..1]), "a");
    assert_eq!(inhibit_reason(&statuses[1..3]), "");
    assert!(active_rule_names(&statuses[1..3]).is_empty());
}

#[test]
fn engine_evaluates_each_rule_and_isolates_errors() {
    let config = Config {
        version: 1,
        rules: vec![
            rule("t", "true", true),
            rule("f", "1 > 2", true),
            rule("broken", "(", true),
            rule("not-bool", "42", false),
        ],
    };
    let engine = RuleEngine::new(&config);
    let statuses = engine.evaluate();
    assert_eq!(statuses.len(), 4);
    assert_eq!(statuses[0].name, "t");
    assert_eq!(statuses[0].value, Ok(true));
    assert_eq!(statuses[1].value, Ok(false));
    assert!(statuses[2].value.is_err());
    assert!(statuses[3].value.is_err());
    assert!(!statuses[3].enabled);
    assert!(should_inhibit(&statuses));
}

#[test]
fn validate_expr_reports_parse_errors() {
    let engine = RuleEngine::new(&Config { version: 1, rules: vec![] });
    assert_eq!(engine.validate_expr("true && !false"), Ok(()));
    let err = engine.validate_expr("true &&").unwrap_err();
    assert!(!err.is_empty());
}

#[test]
fn set_enabled_overrides_every_matching_rule() {
    let config = Config {
        version: 1,
        rules: vec![rule("a", "true", true), rule("b", "true", true), rule("a", "false", true)],
    };
    let mut engine = RuleEngine::new(&config);
    assert!(engine.set_enabled("a", false));
    let flags: Vec<bool> = engine.rules().iter().map(|r| r.enabled).collect();
    assert_eq!(flags, vec![false, true, false]);
    assert!(!engine.set_enabled("zzz", false));
    engine.rebuild(&config);
    assert!(engine.rules().iter().all(|r| r.enabled));
}

#[test]
fn config_version_check() {
    let ok = Config { version: 1, rules: vec![rule("a", "true", true)] }.check_version();
    assert_eq!(ok.unwrap().rules.len(), 1);
    assert_eq!(Config { version: 2, rules: vec![] }.check_version().err(), Some(2));
    assert!(default_true());
}

#[test]
fn registered_providers_are_called_and_survive_rebuild() {
    let config = Config { version: 1, rules: vec![rule("p", "probe(\"yes\") && flag()", true)] };
    let mut engine = RuleEngine::new(&config);
    let before = engine.evaluate();
    assert!(before[0].value.is_err());
    engine.register_name_provider("probe", |s: &str| s == "yes");
    engine.register_flag_provider("flag", || true);
    assert_eq!(engine.evaluate()[0].value, Ok(true));
    engine.rebuild(&config);
    assert_eq!(engine.evaluate()[0].value, Ok(true));
}

#[test]
fn first_compile_error_finds_the_first_failing_rule() {
    let engine = RuleEngine::new(&Config { version: 1, rules: vec![] });
    let ok = Config { version: 1, rules: vec![rule("a", "true", true)] };
    assert_eq!(engine.first_compile_error(&ok), None);
    let bad = Config {
        version: 1,
        rules: vec![rule("a", "true", true), rule("b", "(", true), rule("c", "1 +", true)],
    };
    let first = engine.first_compile_error(&bad).unwrap();
    assert_eq!(Err(first), engine.validate_expr("("));
}

#[test]
fn desktop_providers_are_registered() {
    let mut engine = RuleEngine::new(&Config {
        version: 1,
        rules: vec![rule("ac", "on_ac() || !on_ac()", true)],
    });
    assert!(engine.evaluate()[0].value.is_err());
    engine.register_desktop_providers();
    assert_eq!(engine.evaluate()[0].value, Ok(true));
}
