//! Everything the poll loop and the D-Bus service both touch. A rule edit
//! either changes the config and rebuilds the rule engine from it, or
//! changes nothing and reports why; a caller that gets `Ok` writes the
//! config back to disk.

use crate::config::{Config, ConfigView, Rule, RuleView};
use crate::engine::{
    inhibit_reason, should_inhibit, CompiledRuleView, RuleEngine, RuleRow, RuleStatus,
    RuleStatusView,
};
use rhai::Engine;
use std::path::PathBuf;
use vstd::prelude::*;

verus! {

#[verifier::external_type_specification]
#[verifier::external_body]
pub struct ExPathBuf(std::path::PathBuf);

/// What std's `Debug` formatting (`format!("{:?}", s)`) makes of a string:
/// the string quoted, with special characters escaped.
pub uninterp spec fn debug_str(s: Seq<char>) -> Seq<char>;

/// Formats `s` with std's `Debug` for `str`. Claimed: the text depends on
/// `s` alone.
#[verifier::external_body]
fn debug_quote(s: &str) -> (q: String)
    ensures
        q@ == debug_str(s@),
{
    format!("{s:?}")
}

/// The error reported when a rule name is already taken.
pub open spec fn rule_exists_message(name: Seq<char>) -> Seq<char> {
    "a rule named "@ + debug_str(name) + " already exists"@
}

/// The error reported when no rule has the given name.
pub open spec fn no_rule_message(name: Seq<char>) -> Seq<char> {
    "no rule named "@ + debug_str(name)
}

fn rule_exists_error(name: &str) -> (m: String)
    ensures
        m@ == rule_exists_message(name@),
{
    let mut m = "a rule named ".to_string();
    let q = debug_quote(name);
    m.append(q.as_str());
    m.append(" already exists");
    m
}

fn no_rule_error(name: &str) -> (m: String)
    ensures
        m@ == no_rule_message(name@),
{
    let mut m = "no rule named ".to_string();
    let q = debug_quote(name);
    m.append(q.as_str());
    m
}

/// The model of a [`DaemonState`].
pub struct DaemonStateView {
    /// Where the config is read from and written back to.
    pub config_path: PathBuf,
    /// The config as last loaded or edited.
    pub config: ConfigView,
    /// The live compiled rules (their `enabled` flags may be overridden).
    pub rules: Seq<CompiledRuleView>,
    /// The Rhai engine the rules run on, with its registered providers.
    pub engine: Engine,
    /// The outcome of the last evaluation pass since the rules were built.
    pub statuses: Seq<RuleStatusView>,
    pub inhibiting: bool,
    pub reason: Seq<char>,
    pub reload_error: Option<Seq<char>>,
}

impl DaemonStateView {
    /// The state after `cfg` became the config and the rules were rebuilt
    /// from it (which drops the previous evaluation's outcome).
    pub open spec fn committed(self, cfg: ConfigView) -> DaemonStateView {
        DaemonStateView { config: cfg, rules: crate::engine::compile_config(cfg), statuses: Seq::empty(), ..self }
    }

    /// The state after every rule named `old_name` was renamed `new_name`:
    /// in the config, in the live rules (keeping their position, compile
    /// outcome and `enabled` override) and in the last evaluation's
    /// outcome (keeping each rule's value).
    pub open spec fn renamed(self, old_name: Seq<char>, new_name: Seq<char>) -> DaemonStateView {
        DaemonStateView {
            config: self.config.renamed(old_name, new_name),
            rules: crate::engine::renamed_rules(self.rules, old_name, new_name),
            statuses: renamed_statuses(self.statuses, old_name, new_name),
            ..self
        }
    }

    /// The live rules are exactly those compiled from the config.
    pub open spec fn in_sync(self) -> bool {
        self.rules == crate::engine::compile_config(self.config)
    }
}

/// Evaluation outcomes with every outcome of a rule named `old_name`
/// renamed `new_name`.
pub open spec fn renamed_statuses(
    statuses: Seq<RuleStatusView>,
    old_name: Seq<char>,
    new_name: Seq<char>,
) -> Seq<RuleStatusView> {
    statuses.map_values(
        |s: RuleStatusView|
            if s.name == old_name {
                RuleStatusView { name: new_name, ..s }
            } else {
                s
            },
    )
}

/// One edit of the rule set, as the D-Bus service requests it.
pub enum RuleEdit {
    Add { name: String, expr: String, enabled: bool },
    Update { name: String, expr: String },
    Rename { old_name: String, new_name: String },
    Remove { name: String },
}

pub enum RuleEditView {
    Add { name: Seq<char>, expr: Seq<char>, enabled: bool },
    Update { name: Seq<char>, expr: Seq<char> },
    Rename { old_name: Seq<char>, new_name: Seq<char> },
    Remove { name: Seq<char> },
}

impl View for RuleEdit {
    type V = RuleEditView;

    open spec fn view(&self) -> RuleEditView {
        match self {
            RuleEdit::Add { name, expr, enabled } => RuleEditView::Add {
                name: name@,
                expr: expr@,
                enabled: *enabled,
            },
            RuleEdit::Update { name, expr } => RuleEditView::Update { name: name@, expr: expr@ },
            RuleEdit::Rename { old_name, new_name } => RuleEditView::Rename {
                old_name: old_name@,
                new_name: new_name@,
            },
            RuleEdit::Remove { name } => RuleEditView::Remove { name: name@ },
        }
    }
}

/// What an edit does to `cfg`: the config to write and apply (`None` when
/// the edit changes nothing), or the error it is refused with.
pub open spec fn edit_outcome(cfg: ConfigView, edit: RuleEditView) -> Result<
    Option<ConfigView>,
    Seq<char>,
> {
    match edit {
        RuleEditView::Add { name, expr, enabled } => if cfg.has_rule(name) {
            Err(rule_exists_message(name))
        } else if crate::engine::rhai_compile_error(expr) is Some {
            Err(crate::engine::rhai_compile_error(expr)->0)
        } else {
            Ok(Some(cfg.with_rule(RuleView { name, enabled, expr })))
        },
        RuleEditView::Update { name, expr } => if !cfg.has_rule(name) {
            Err(no_rule_message(name))
        } else if crate::engine::rhai_compile_error(expr) is Some {
            Err(crate::engine::rhai_compile_error(expr)->0)
        } else {
            Ok(Some(cfg.with_expr(name, expr)))
        },
        RuleEditView::Rename { old_name, new_name } => if old_name == new_name {
            Ok(None)
        } else if !cfg.has_rule(old_name) {
            Err(no_rule_message(old_name))
        } else if cfg.has_rule(new_name) {
            Err(rule_exists_message(new_name))
        } else {
            Ok(Some(cfg.renamed(old_name, new_name)))
        },
        RuleEditView::Remove { name } => if !cfg.has_rule(name) {
            Err(no_rule_message(name))
        } else {
            Ok(Some(cfg.without_rule(name)))
        },
    }
}

/// The daemon's state: its config, the rule engine built from it, and the
/// outcome of the last evaluation.
pub struct DaemonState {
    pub config_path: PathBuf,
    /// The config as last loaded (or edited). Source of truth for the rule
    /// edits; separate from the engine's live `enabled` flags, which
    /// `set_rule_enabled` overrides in memory until the next rebuild.
    config: Config,
    pub rule_engine: RuleEngine,
    pub statuses: Vec<RuleStatus>,
    pub inhibiting: bool,
    pub reason: String,
    /// Set when the last reload attempt failed.
    pub reload_error: Option<String>,
}

impl View for DaemonState {
    type V = DaemonStateView;

    closed spec fn view(&self) -> DaemonStateView {
        DaemonStateView {
            config_path: self.config_path,
            config: self.config@,
            rules: self.rule_engine@,
            engine: self.rule_engine.rhai_engine(),
            statuses: crate::engine::statuses_view(self.statuses@),
            inhibiting: self.inhibiting,
            reason: self.reason@,
            reload_error: match self.reload_error {
                Some(e) => Some(e@),
                None => None,
            },
        }
    }
}

impl DaemonState {
    /// Builds the state for `config`, with its rules compiled. The provider
    /// functions are registered on `rule_engine` afterwards.
    pub fn new(config_path: PathBuf, config: Config) -> (res: Self)
        ensures
            res@.config_path == config_path,
            res@.config == config@,
            res@.in_sync(),
            res@.statuses.len() == 0,
            !res@.inhibiting,
            res@.reason.len() == 0,
            res@.reload_error is None,
    {
        let rule_engine = RuleEngine::new(&config);
        let res = DaemonState {
            config_path,
            rule_engine,
            config,
            statuses: Vec::new(),
            inhibiting: false,
            reason: String::new(),
            reload_error: None,
        };
        assert(crate::engine::statuses_view(res.statuses@) =~= Seq::<RuleStatusView>::empty());
        res
    }

    /// The config as last loaded or edited, for writing back to disk.
    pub fn config(&self) -> (c: &Config)
        ensures
            c@ == self@.config,
    {
        &self.config
    }

    /// Makes `self.config` the source of the live rules, on the same engine.
    fn commit(&mut self)
        ensures
            final(self)@ == old(self)@.committed(old(self)@.config),
    {
        self.rule_engine.rebuild(&self.config);
        self.statuses = Vec::new();
        assert(crate::engine::statuses_view(self.statuses@) =~= Seq::<RuleStatusView>::empty());
    }

    /// Takes the outcome of reading the config file again. A loaded config
    /// whose rules all compile replaces the current one and rebuilds the
    /// rules (dropping in-memory `enabled` overrides). A read or parse
    /// failure, or a loaded rule that does not compile, keeps the last
    /// known-good config and rules and records why: the failure's text, or
    /// the first failing rule's compile error.
    pub fn reload(&mut self, loaded: Result<Config, String>)
        ensures
            match loaded {
                Ok(c) => match crate::engine::first_rule_error(c@.rules) {
                    None => final(self)@ == (DaemonStateView {
                        reload_error: None,
                        ..old(self)@.committed(c@)
                    }),
                    Some(e) => final(self)@ == (DaemonStateView {
                        reload_error: Some(e),
                        ..old(self)@
                    }),
                },
                Err(e) => final(self)@ == (DaemonStateView {
                    reload_error: Some(e@),
                    ..old(self)@
                }),
            },
    {
        match loaded {
            Ok(config) => {
                match self.rule_engine.first_compile_error(&config) {
                    Some(e) => {
                        self.reload_error = Some(e);
                    },
                    None => {
                        self.config = config;
                        self.commit();
                        self.reload_error = None;
                    },
                }
            },
            Err(e) => {
                self.reload_error = Some(e);
            },
        }
    }

    /// Adds a rule, unless its name is taken or its expression does not
    /// compile.
    pub fn add_rule(&mut self, name: String, expr: String, enabled: bool) -> (res: Result<
        (),
        String,
    >)
        ensures
            old(self)@.config.has_rule(name@) ==> (final(self)@ == old(self)@ && (res matches Err(e) && e@ == rule_exists_message(name@))),
            !old(self)@.config.has_rule(name@) && crate::engine::rhai_compile_error(expr@) is Some ==> (final(self)@ == old(self)@ && (res matches Err(e) && Some(e@) == crate::engine::rhai_compile_error(expr@))),
            !old(self)@.config.has_rule(name@) && crate::engine::rhai_compile_error(expr@) is None ==> res is Ok
                && final(self)@ == old(self)@.committed(
                old(self)@.config.with_rule(RuleView { name: name@, enabled, expr: expr@ }),
            ),
    {
        if self.config.has_rule(&name) {
            return Err(rule_exists_error(name.as_str()));
        }
        match self.rule_engine.validate_expr(expr.as_str()) {
            Ok(()) => {},
            Err(e) => {
                return Err(e);
            },
        }
        let ghost before = self.config@;
        let ghost added = RuleView { name: name@, enabled, expr: expr@ };
        self.config.rules.push(Rule { name, enabled, expr });
        assert(self.config@.rules =~= before.with_rule(added).rules);
        self.commit();
        Ok(())
    }

    /// Gives every rule named `name` the expression `expr`, unless no rule
    /// has that name or `expr` does not compile. Leaves `enabled` alone.
    pub fn update_rule(&mut self, name: &str, expr: String) -> (res: Result<(), String>)
        ensures
            !old(self)@.config.has_rule(name@) ==> (final(self)@ == old(self)@ && (res matches Err(e) && e@ == no_rule_message(name@))),
            old(self)@.config.has_rule(name@) && crate::engine::rhai_compile_error(expr@) is Some ==> (final(self)@ == old(self)@ && (res matches Err(e) && Some(e@) == crate::engine::rhai_compile_error(expr@))),
            old(self)@.config.has_rule(name@) && crate::engine::rhai_compile_error(expr@) is None ==> res is Ok
                && final(self)@ == old(self)@.committed(
                old(self)@.config.with_expr(name@, expr@),
            ),
    {
        let target = name.to_string();
        if !self.config.has_rule(&target) {
            return Err(no_rule_error(name));
        }
        match self.rule_engine.validate_expr(expr.as_str()) {
            Ok(()) => {},
            Err(e) => {
                return Err(e);
            },
        }
        self.config.set_expr(&target, &expr);
        self.commit();
        Ok(())
    }

    /// Renames a rule in place, keeping its expression and `enabled` flag.
    /// Renaming a rule to its own name changes nothing and succeeds.
    pub fn rename_rule(&mut self, old_name: &str, new_name: &str) -> (res: Result<(), String>)
        ensures
            old_name@ == new_name@ ==> res is Ok && final(self)@ == old(self)@,
            old_name@ != new_name@ && !old(self)@.config.has_rule(old_name@) ==> (final(self)@
                == old(self)@ && (res matches Err(e) && e@ == no_rule_message(old_name@))),
            old_name@ != new_name@ && old(self)@.config.has_rule(old_name@) && old(self)@.config.has_rule(new_name@) ==> (final(self)@ == old(self)@ && (res matches Err(e)
                && e@ == rule_exists_message(new_name@))),
            old_name@ != new_name@ && old(self)@.config.has_rule(old_name@) && !old(self)@.config.has_rule(new_name@) ==> res is Ok && final(self)@ == old(self)@.renamed(
                old_name@,
                new_name@,
            ),
    {
        let from = old_name.to_string();
        let to = new_name.to_string();
        if from == to {
            return Ok(());
        }
        if !self.config.has_rule(&from) {
            return Err(no_rule_error(old_name));
        }
        if self.config.has_rule(&to) {
            return Err(rule_exists_error(new_name));
        }
        self.config.rename(&from, &to);
        self.rule_engine.rename_rules(&from, &to);
        self.rename_statuses(&from, &to);
        Ok(())
    }

    /// The config an edit would leave, without applying it, so that the
    /// caller can write it to disk first and apply the edit only once the
    /// write succeeded: `Ok(None)` when the edit changes nothing, the
    /// refusal otherwise, exactly as the edit itself decides.
    pub fn planned_config(&self, edit: &RuleEdit) -> (res: Result<Option<Config>, String>)
        ensures
            match edit_outcome(self@.config, edit@) {
                Ok(None) => res matches Ok(None),
                Ok(Some(c)) => res matches Ok(Some(p)) && p@ == c,
                Err(m) => res matches Err(e) && e@ == m,
            },
    {
        match edit {
            RuleEdit::Add { name, expr, enabled } => {
                if self.config.has_rule(name) {
                    return Err(rule_exists_error(name.as_str()));
                }
                match self.rule_engine.validate_expr(expr.as_str()) {
                    Ok(()) => {},
                    Err(e) => {
                        return Err(e);
                    },
                }
                let mut planned = self.config.clone();
                let ghost before = planned@;
                let ghost added = RuleView { name: name@, enabled: *enabled, expr: expr@ };
                planned.rules.push(Rule { name: name.clone(), enabled: *enabled, expr: expr.clone() });
                assert(planned@.rules =~= before.with_rule(added).rules);
                Ok(Some(planned))
            },
            RuleEdit::Update { name, expr } => {
                if !self.config.has_rule(name) {
                    return Err(no_rule_error(name.as_str()));
                }
                match self.rule_engine.validate_expr(expr.as_str()) {
                    Ok(()) => {},
                    Err(e) => {
                        return Err(e);
                    },
                }
                let mut planned = self.config.clone();
                planned.set_expr(name, expr);
                Ok(Some(planned))
            },
            RuleEdit::Rename { old_name, new_name } => {
                if *old_name == *new_name {
                    return Ok(None);
                }
                if !self.config.has_rule(old_name) {
                    return Err(no_rule_error(old_name.as_str()));
                }
                if self.config.has_rule(new_name) {
                    return Err(rule_exists_error(new_name.as_str()));
                }
                let mut planned = self.config.clone();
                planned.rename(old_name, new_name);
                Ok(Some(planned))
            },
            RuleEdit::Remove { name } => {
                if !self.config.has_rule(name) {
                    return Err(no_rule_error(name.as_str()));
                }
                let mut planned = self.config.clone();
                planned.remove_named(name);
                Ok(Some(planned))
            },
        }
    }

    /// Applies an edit with [`DaemonState::add_rule`],
    /// [`DaemonState::update_rule`], [`DaemonState::rename_rule`] or
    /// [`DaemonState::remove_rule`]. It is refused exactly as
    /// [`DaemonState::planned_config`] says, changing nothing; applied, the
    /// config becomes the planned one.
    pub fn apply_edit(&mut self, edit: RuleEdit) -> (res: Result<(), String>)
        ensures
            match edit_outcome(old(self)@.config, edit@) {
                Ok(None) => res is Ok && final(self)@ == old(self)@,
                Ok(Some(c)) => res is Ok && final(self)@.config == c,
                Err(m) => (res matches Err(e) && e@ == m) && final(self)@ == old(self)@,
            },
            edit@ is Rename && edit@->old_name != edit@->new_name && res is Ok ==> final(self)@
                == old(self)@.renamed(
                edit@->old_name,
                edit@->new_name,
            ),
            !(edit@ is Rename) && res is Ok ==> final(self)@ == old(self)@.committed(
                final(self)@.config,
            ),
    {
        match edit {
            RuleEdit::Add { name, expr, enabled } => self.add_rule(name, expr, enabled),
            RuleEdit::Update { name, expr } => self.update_rule(name.as_str(), expr),
            RuleEdit::Rename { old_name, new_name } => self.rename_rule(
                old_name.as_str(),
                new_name.as_str(),
            ),
            RuleEdit::Remove { name } => self.remove_rule(name.as_str()),
        }
    }

    /// Whether the last evaluation pass decided to inhibit sleep.
    pub fn is_inhibiting(&self) -> (inhibiting: bool)
        ensures
            inhibiting == self@.inhibiting,
    {
        self.inhibiting
    }

    /// The reason of the last evaluation pass: the active rules' names.
    pub fn reason(&self) -> (reason: &String)
        ensures
            reason@ == self@.reason,
    {
        &self.reason
    }

    /// The outcome of the last evaluation pass, one per live rule (empty
    /// before the first pass after a rebuild).
    pub fn statuses(&self) -> (statuses: &Vec<RuleStatus>)
        ensures
            crate::engine::statuses_view(statuses@) == self@.statuses,
    {
        &self.statuses
    }

    /// Why the last reload failed, if it did.
    pub fn reload_error(&self) -> (err: &Option<String>)
        ensures
            match err {
                Some(e) => self@.reload_error == Some(e@),
                None => self@.reload_error is None,
            },
    {
        &self.reload_error
    }

    /// Renames every evaluation outcome of a rule named `old_name`.
    fn rename_statuses(&mut self, old_name: &String, new_name: &String)
        ensures
            final(self)@ == (DaemonStateView {
                statuses: renamed_statuses(old(self)@.statuses, old_name@, new_name@),
                ..old(self)@
            }),
    {
        let ghost before = self@;
        let n = self.statuses.len();
        for i in 0..n
            invariant
                n == self.statuses@.len(),
                n == old(self).statuses@.len(),
                self@ == (DaemonStateView { statuses: self@.statuses, ..before }),
                before == old(self)@,
                forall|j: int|
                    0 <= j < n ==> (#[trigger] self.statuses@[j])@ == (if j < i && old(self).statuses@[j]@.name == old_name@ {
                        RuleStatusView { name: new_name@, ..old(self).statuses@[j]@ }
                    } else {
                        old(self).statuses@[j]@
                    }),
        {
            if self.statuses[i].name == *old_name {
                self.statuses[i].name = new_name.clone();
            }
            assert(self@ == (DaemonStateView { statuses: self@.statuses, ..before }));
        }
        assert(self@.statuses =~= renamed_statuses(before.statuses, old_name@, new_name@));
    }

    /// Removes every rule named `name`; an error if there is none.
    pub fn remove_rule(&mut self, name: &str) -> (res: Result<(), String>)
        ensures
            !old(self)@.config.has_rule(name@) ==> (final(self)@ == old(self)@ && (res matches Err(e) && e@ == no_rule_message(name@))),
            old(self)@.config.has_rule(name@) ==> res is Ok && final(self)@ == old(self)@.committed(old(self)@.config.without_rule(name@)),
    {
        let target = name.to_string();
        let removed = self.config.remove_named(&target);
        if !removed {
            proof {
                crate::config::lemma_rules_without_keeps_all(old(self)@.config.rules, name@);
                assert(self.config@ =~= old(self)@.config);
            }
            return Err(no_rule_error(name));
        }
        self.commit();
        Ok(())
    }

    /// Overrides the live `enabled` flag of every rule named `name`, in
    /// memory only: the config keeps its value, and the next rebuild
    /// restores it. Returns whether any rule has that name.
    pub fn set_rule_enabled(&mut self, name: &str, enabled: bool) -> (found: bool)
        ensures
            found == exists|i: int| 0 <= i < old(self)@.rules.len() && old(self)@.rules[i].name == name@,
            final(self)@.rules.len() == old(self)@.rules.len(),
            forall|i: int|
                0 <= i < old(self)@.rules.len() ==> (#[trigger] final(self)@.rules[i]) == (if old(self)@.rules[i].name == name@ {
                    CompiledRuleView { enabled, ..old(self)@.rules[i] }
                } else {
                    old(self)@.rules[i]
                }),
            final(self)@ == (DaemonStateView { rules: final(self)@.rules, ..old(self)@ }),
    {
        self.rule_engine.set_enabled(name, enabled)
    }

    /// One evaluation pass: evaluates every rule, keeps the outcome, and
    /// decides whether to inhibit sleep and why. Returns that decision.
    pub fn refresh(&mut self) -> (inhibit: bool)
        ensures
            final(self)@ == (DaemonStateView {
                statuses: final(self)@.statuses,
                inhibiting: inhibit,
                reason: crate::engine::reason_of(final(self)@.statuses),
                ..old(self)@
            }),
            final(self)@.statuses.len() == old(self)@.rules.len(),
            forall|i: int|
                0 <= i < old(self)@.rules.len() ==> {
                    &&& (#[trigger] final(self)@.statuses[i]).name == old(self)@.rules[i].name
                    &&& final(self)@.statuses[i].enabled == old(self)@.rules[i].enabled
                    &&& (old(self)@.rules[i].error matches Some(e) ==> final(self)@.statuses[i].value
                        == Err::<bool, Seq<char>>(e))
                },
            inhibit == exists|i: int|
                0 <= i < final(self)@.statuses.len() && crate::engine::is_active(#[trigger] final(self)@.statuses[i]),
    {
        let statuses = self.rule_engine.evaluate();
        let inhibit = should_inhibit(statuses.as_slice());
        let reason = inhibit_reason(statuses.as_slice());
        proof {
            let sv = crate::engine::statuses_view(statuses@);
            if inhibit {
                let i = choose|i: int| 0 <= i < statuses@.len() && crate::engine::is_active(#[trigger] statuses@[i]@);
                assert(crate::engine::is_active(sv[i]));
            }
            if exists|i: int| 0 <= i < sv.len() && crate::engine::is_active(#[trigger] sv[i]) {
                let i = choose|i: int| 0 <= i < sv.len() && crate::engine::is_active(#[trigger] sv[i]);
                assert(crate::engine::is_active(statuses@[i]@));
            }
        }
        self.statuses = statuses;
        self.inhibiting = inhibit;
        self.reason = reason;
        inhibit
    }

    /// The rule listing: every live rule with its last evaluated value.
    pub fn rule_rows(&self) -> (rows: Vec<RuleRow>)
        ensures
            rows@.len() == self@.rules.len(),
            forall|i: int|
                0 <= i < self@.rules.len() ==> (#[trigger] rows@[i])@ == crate::engine::row_of(
                    self@.rules[i],
                    if i < self@.statuses.len() {
                        Some(self@.statuses[i])
                    } else {
                        None
                    },
                ),
    {
        self.rule_engine.rows(self.statuses.as_slice())
    }
}

/// Every successful edit and every successful reload leaves the live
/// rules exactly those compiled from the config: in-memory `enabled`
/// overrides do not survive them.
pub proof fn lemma_commit_syncs(v: DaemonStateView, cfg: ConfigView)
    ensures
        v.committed(cfg).in_sync(),
        v.committed(cfg).config == cfg,
{
}

/// Adding a rule under a fresh name and then removing it gives the same
/// state as rebuilding from the original config.
pub proof fn lemma_state_add_then_remove(v: DaemonStateView, rule: RuleView)
    requires
        !v.config.has_rule(rule.name),
    ensures
        v.committed(v.config.with_rule(rule)).committed(
            v.config.with_rule(rule).without_rule(rule.name),
        ) == v.committed(v.config),
{
    crate::config::lemma_add_then_remove(v.config, rule);
}

/// Renaming a rule to a name nothing uses and back restores the whole
/// state, live values and `enabled` overrides included.
pub proof fn lemma_state_rename_round_trip(v: DaemonStateView, a: Seq<char>, b: Seq<char>)
    requires
        !v.config.has_rule(b),
        forall|i: int| 0 <= i < v.rules.len() ==> (#[trigger] v.rules[i]).name != b,
        forall|i: int| 0 <= i < v.statuses.len() ==> (#[trigger] v.statuses[i]).name != b,
    ensures
        v.renamed(a, b).renamed(b, a) == v,
{
    crate::config::lemma_rename_round_trip(v.config, a, b);
    let back = v.renamed(a, b).renamed(b, a);
    assert(back.rules =~= v.rules);
    assert(back.statuses =~= v.statuses);
}

} // verus!
