//! The rule engine: each rule's Rhai expression is compiled once, then
//! evaluated on demand against the providers' current state.

use crate::config::{Config, ConfigView, RuleView};
use rhai::{Engine, AST};
use vstd::prelude::*;

verus! {

#[verifier::external_type_specification]
#[verifier::external_body]
pub struct ExEngine(rhai::Engine);

#[verifier::external_type_specification]
#[verifier::external_body]
pub struct ExAst(rhai::AST);

/// What `rhai::Engine::compile_expression` makes of an expression:
/// `None` when it parses, `Some(message)` with the parse error's text
/// otherwise.
pub uninterp spec fn rhai_compile_error(expr: Seq<char>) -> Option<Seq<char>>;

/// Calls `rhai::Engine::compile_expression` and turns a parse error into
/// its display text. Claimed: whether the expression compiles, and the
/// error text when it does not, depend on the expression alone. That holds
/// for the only engines this library has: a default `Engine::new()` that
/// stays inside [`RuleEngine`], to which only plain functions are ever
/// registered ([`RuleEngine::register_name_provider`],
/// [`RuleEngine::register_flag_provider`]); registering functions does not
/// change how an expression parses, and no language option is ever changed.
/// Left unsaid: that the error text is never empty (rhai's source leaves
/// room for an empty message in a few rare variants).
#[verifier::external_body]
fn compile_expression(engine: &Engine, expr: &str) -> (res: Result<AST, String>)
    ensures
        match res {
            Ok(_) => rhai_compile_error(expr@) is None,
            Err(e) => rhai_compile_error(expr@) == Some(e@),
        },
{
    engine.compile_expression(expr).map_err(|e| e.to_string())
}

/// The names under which functions are registered on a Rhai engine (its
/// global namespace of native functions, built-in packages included).
pub uninterp spec fn registered_functions(engine: Engine) -> Set<Seq<char>>;

/// `rhai::Engine::new()`: a default engine. Nothing is claimed of it.
#[verifier::external_body]
fn new_rhai_engine() -> Engine {
    Engine::new()
}

/// Calls `rhai::Engine::eval_ast::<bool>` and turns an evaluation error
/// into its display text. Nothing is claimed of the outcome: the
/// registered provider functions read the live system.
#[verifier::external_body]
fn eval_bool(engine: &Engine, ast: &AST) -> (res: Result<bool, String>) {
    engine.eval_ast::<bool>(ast).map_err(|e| e.to_string())
}

/// A rule with its expression compiled (or the compile error kept).
pub struct CompiledRule {
    pub name: String,
    pub enabled: bool,
    pub expr: String,
    ast: Result<AST, String>,
}

/// The model of a [`CompiledRule`]: its compile error, if any, in place of
/// the opaque syntax tree.
pub struct CompiledRuleView {
    pub name: Seq<char>,
    pub enabled: bool,
    pub expr: Seq<char>,
    pub error: Option<Seq<char>>,
}

impl CompiledRule {
    /// The compile error held by this rule, if its expression did not parse.
    pub closed spec fn parse_error(&self) -> Option<Seq<char>> {
        match self.ast {
            Ok(_) => None,
            Err(e) => Some(e@),
        }
    }
}

impl View for CompiledRule {
    type V = CompiledRuleView;

    closed spec fn view(&self) -> CompiledRuleView {
        CompiledRuleView {
            name: self.name@,
            enabled: self.enabled,
            expr: self.expr@,
            error: self.parse_error(),
        }
    }
}

/// What compiling a configured rule gives.
pub open spec fn compile_rule(r: RuleView) -> CompiledRuleView {
    CompiledRuleView {
        name: r.name,
        enabled: r.enabled,
        expr: r.expr,
        error: rhai_compile_error(r.expr),
    }
}

/// What compiling a whole configuration gives, rule by rule, in order.
pub open spec fn compile_config(cfg: ConfigView) -> Seq<CompiledRuleView> {
    cfg.rules.map_values(|r: RuleView| compile_rule(r))
}

/// One rule's outcome of an evaluation pass.
pub struct RuleStatus {
    pub name: String,
    pub enabled: bool,
    pub value: Result<bool, String>,
}

pub struct RuleStatusView {
    pub name: Seq<char>,
    pub enabled: bool,
    pub value: Result<bool, Seq<char>>,
}

impl View for RuleStatus {
    type V = RuleStatusView;

    open spec fn view(&self) -> RuleStatusView {
        RuleStatusView {
            name: self.name@,
            enabled: self.enabled,
            value: match self.value {
                Ok(b) => Ok(b),
                Err(e) => Err(e@),
            },
        }
    }
}

/// The compiled rules together with the Rhai engine that runs them.
pub struct RuleEngine {
    engine: Engine,
    rules: Vec<CompiledRule>,
}

impl View for RuleEngine {
    type V = Seq<CompiledRuleView>;

    closed spec fn view(&self) -> Seq<CompiledRuleView> {
        self.rules@.map_values(|r: CompiledRule| r@)
    }
}

impl RuleEngine {
    /// Compiles one rule per configured rule, in order, each with its own
    /// compile error kept rather than failing the whole set.
    fn compile_all(engine: &Engine, config: &Config) -> (rules: Vec<CompiledRule>)
        ensures
            rules@.map_values(|r: CompiledRule| r@) == compile_config(config@),
    {
        let mut rules: Vec<CompiledRule> = Vec::new();
        let n = config.rules.len();
        for i in 0..n
            invariant
                n == config.rules@.len(),
                rules@.len() == i,
                forall|j: int|
                    0 <= j < i ==> (#[trigger] rules@[j])@ == compile_rule(config.rules@[j]@),
        {
            let rule = &config.rules[i];
            let ast = compile_expression(engine, rule.expr.as_str());
            rules.push(
                CompiledRule {
                    name: rule.name.clone(),
                    enabled: rule.enabled,
                    expr: rule.expr.clone(),
                    ast,
                },
            );
        }
        assert(rules@.map_values(|r: CompiledRule| r@) =~= compile_config(config@));
        rules
    }

    /// Compiles the rule set of `config` on a fresh default engine. The
    /// provider functions the expressions call are registered on it
    /// afterwards, before evaluating.
    pub fn new(config: &Config) -> (res: Self)
        ensures
            res@ == compile_config(config@),
    {
        let engine = new_rhai_engine();
        let rules = Self::compile_all(&engine, config);
        RuleEngine { engine, rules }
    }

    /// The Rhai engine the rules are evaluated on.
    pub closed spec fn rhai_engine(&self) -> Engine {
        self.engine
    }

    /// Registers `f` as the rule function `name`, taking one string
    /// argument, with `rhai::Engine::register_fn`, which adds it to the
    /// engine's global namespace under `name`. The rules are untouched.
    #[verifier::external_body]
    pub fn register_name_provider<F>(&mut self, name: &str, f: F)
        where
            F: Fn(&str) -> bool + Send + Sync + 'static,
        ensures
            final(self)@ == old(self)@,
            registered_functions(final(self).rhai_engine()) == registered_functions(
                old(self).rhai_engine(),
            ).insert(name@),
    {
        self.engine.register_fn(name.to_string(), f);
    }

    /// Registers `f` as the rule function `name`, taking no argument, with
    /// `rhai::Engine::register_fn`, which adds it to the engine's global
    /// namespace under `name`. The rules are untouched.
    #[verifier::external_body]
    pub fn register_flag_provider<F>(&mut self, name: &str, f: F)
        where
            F: Fn() -> bool + Send + Sync + 'static,
        ensures
            final(self)@ == old(self)@,
            registered_functions(final(self).rhai_engine()) == registered_functions(
                old(self).rhai_engine(),
            ).insert(name@),
    {
        self.engine.register_fn(name.to_string(), f);
    }

    /// Registers the providers that query the desktop over D-Bus:
    /// `mpris_playing(name)`, `on_battery()` and `on_ac()`.
    pub fn register_desktop_providers(&mut self)
        ensures
            final(self)@ == old(self)@,
            registered_functions(final(self).rhai_engine()) == registered_functions(
                old(self).rhai_engine(),
            ).insert("mpris_playing"@).insert("on_battery"@).insert("on_ac"@),
    {
        self.register_name_provider("mpris_playing", crate::providers::mpris::playing);
        self.register_flag_provider("on_battery", crate::providers::power::on_battery);
        self.register_flag_provider("on_ac", crate::providers::power::on_ac);
    }

    /// Replaces the whole rule set with that of `config`, keeping the engine.
    pub fn rebuild(&mut self, config: &Config)
        ensures
            final(self)@ == compile_config(config@),
            final(self).rhai_engine() == old(self).rhai_engine(),
    {
        let rules = Self::compile_all(&self.engine, config);
        self.rules = rules;
    }

    /// The compile error of the first rule of `config`, in order, whose
    /// expression does not compile; `None` when they all compile.
    pub fn first_compile_error(&self, config: &Config) -> (err: Option<String>)
        ensures
            match err {
                Some(e) => first_rule_error(config@.rules) == Some(e@),
                None => first_rule_error(config@.rules) is None,
            },
    {
        let ghost rules = config@.rules;
        let n = config.rules.len();
        for i in 0..n
            invariant
                n == config.rules@.len(),
                rules == config@.rules,
                first_rule_error(rules.take(i as int)) is None,
        {
            assert(rules.take(i + 1).drop_last() =~= rules.take(i as int));
            assert(rules.take(i + 1).last() == config.rules@[i as int]@);
            match compile_expression(&self.engine, config.rules[i].expr.as_str()) {
                Ok(_) => {},
                Err(e) => {
                    proof {
                        lemma_first_rule_error_prefix(rules, i + 1);
                    }
                    return Some(e);
                },
            }
        }
        assert(rules.take(n as int) =~= rules);
        None
    }

    /// Renames every compiled rule named `old_name` to `new_name`, keeping
    /// its position, expression, compile outcome and (possibly overridden)
    /// `enabled` flag.
    pub fn rename_rules(&mut self, old_name: &String, new_name: &String)
        ensures
            final(self)@ == renamed_rules(old(self)@, old_name@, new_name@),
            final(self).rhai_engine() == old(self).rhai_engine(),
    {
        let n = self.rules.len();
        for i in 0..n
            invariant
                self.engine == old(self).engine,
                n == self.rules@.len(),
                n == old(self).rules@.len(),
                forall|j: int|
                    0 <= j < n ==> (#[trigger] self.rules@[j])@ == (if j < i && old(self).rules@[j]@.name == old_name@ {
                        CompiledRuleView { name: new_name@, ..old(self).rules@[j]@ }
                    } else {
                        old(self).rules@[j]@
                    }),
        {
            if self.rules[i].name == *old_name {
                self.rules[i].name = new_name.clone();
            }
        }
        assert(self@ =~= renamed_rules(old(self)@, old_name@, new_name@));
    }

    /// The compiled rules, in configuration order.
    pub fn rules(&self) -> (rules: &Vec<CompiledRule>)
        ensures
            rules@.map_values(|r: CompiledRule| r@) == self@,
    {
        &self.rules
    }

    /// Checks that `expr` compiles, reporting the compile error if not.
    pub fn validate_expr(&self, expr: &str) -> (res: Result<(), String>)
        ensures
            res is Ok <==> rhai_compile_error(expr@) is None,
            res matches Err(e) ==> rhai_compile_error(expr@) == Some(e@),
    {
        match compile_expression(&self.engine, expr) {
            Ok(_) => Ok(()),
            Err(e) => Err(e),
        }
    }

    /// Evaluates every rule against the providers' current state. A rule
    /// that did not compile reports its compile error; the others report
    /// what evaluation gave.
    pub fn evaluate(&self) -> (statuses: Vec<RuleStatus>)
        ensures
            statuses@.len() == self@.len(),
            forall|i: int|
                0 <= i < self@.len() ==> {
                    &&& (#[trigger] statuses@[i])@.name == self@[i].name
                    &&& statuses@[i]@.enabled == self@[i].enabled
                    &&& (self@[i].error matches Some(e) ==> statuses@[i]@.value == Err::<
                        bool,
                        Seq<char>,
                    >(e))
                },
    {
        let mut statuses: Vec<RuleStatus> = Vec::new();
        let n = self.rules.len();
        for i in 0..n
            invariant
                n == self.rules@.len(),
                statuses@.len() == i,
                forall|j: int|
                    0 <= j < i ==> {
                        &&& (#[trigger] statuses@[j])@.name == self.rules@[j]@.name
                        &&& statuses@[j]@.enabled == self.rules@[j]@.enabled
                        &&& (self.rules@[j]@.error matches Some(e) ==> statuses@[j]@.value
                            == Err::<bool, Seq<char>>(e))
                    },
        {
            let rule = &self.rules[i];
            let value = match &rule.ast {
                Ok(ast) => eval_bool(&self.engine, ast),
                Err(e) => Err(e.clone()),
            };
            statuses.push(RuleStatus { name: rule.name.clone(), enabled: rule.enabled, value });
        }
        statuses
    }

    /// Overrides the `enabled` flag of every rule named `name`, in memory
    /// only. Returns whether any rule has that name.
    pub fn set_enabled(&mut self, name: &str, enabled: bool) -> (found: bool)
        ensures
            found == exists|i: int| 0 <= i < old(self)@.len() && old(self)@[i].name == name@,
            final(self)@.len() == old(self)@.len(),
            forall|i: int|
                0 <= i < old(self)@.len() ==> (#[trigger] final(self)@[i]) == (if old(self)@[i].name == name@ {
                    CompiledRuleView { enabled, ..old(self)@[i] }
                } else {
                    old(self)@[i]
                }),
            final(self).rhai_engine() == old(self).rhai_engine(),
    {
        let target = name.to_string();
        let mut found = false;
        let n = self.rules.len();
        for i in 0..n
            invariant
                self.engine == old(self).engine,
                n == self.rules@.len(),
                n == old(self).rules@.len(),
                target@ == name@,
                old(self)@ == old(self).rules@.map_values(|r: CompiledRule| r@),
                found == exists|j: int| 0 <= j < i && old(self)@[j].name == name@,
                forall|j: int|
                    0 <= j < n ==> (#[trigger] self.rules@[j])@ == (if j < i && old(self).rules@[j]@.name == name@ {
                        CompiledRuleView { enabled, ..old(self).rules@[j]@ }
                    } else {
                        old(self).rules@[j]@
                    }),
        {
            assert(old(self)@[i as int] == old(self).rules@[i as int]@);
            if self.rules[i].name == target {
                self.rules[i].enabled = enabled;
                found = true;
            }
        }
        found
    }
}

/// One row of the service's rule listing.
pub struct RuleRow {
    pub name: String,
    pub enabled: bool,
    pub currently_true: bool,
    /// Empty when the rule last evaluated cleanly.
    pub last_error: String,
    pub expr: String,
}

pub struct RuleRowView {
    pub name: Seq<char>,
    pub enabled: bool,
    pub currently_true: bool,
    pub last_error: Seq<char>,
    pub expr: Seq<char>,
}

impl View for RuleRow {
    type V = RuleRowView;

    open spec fn view(&self) -> RuleRowView {
        RuleRowView {
            name: self.name@,
            enabled: self.enabled,
            currently_true: self.currently_true,
            last_error: self.last_error@,
            expr: self.expr@,
        }
    }
}

/// The listing row of a rule, given its last evaluation outcome if there
/// is one: its value and an empty error when it evaluated cleanly, `false`
/// and the error otherwise; `false` and no error before any evaluation.
pub open spec fn row_of(rule: CompiledRuleView, status: Option<RuleStatusView>) -> RuleRowView {
    let (currently_true, last_error) = match status {
        Some(s) => match s.value {
            Ok(v) => (v, Seq::<char>::empty()),
            Err(e) => (false, e),
        },
        None => (false, Seq::<char>::empty()),
    };
    RuleRowView { name: rule.name, enabled: rule.enabled, currently_true, last_error, expr: rule.expr }
}

impl RuleEngine {
    /// Lists every rule with the outcome at the same position of the last
    /// evaluation pass, if that pass covered it.
    pub fn rows(&self, statuses: &[RuleStatus]) -> (rows: Vec<RuleRow>)
        ensures
            rows@.len() == self@.len(),
            forall|i: int|
                0 <= i < self@.len() ==> (#[trigger] rows@[i])@ == row_of(
                    self@[i],
                    if i < statuses@.len() {
                        Some(statuses@[i]@)
                    } else {
                        None
                    },
                ),
    {
        let mut rows: Vec<RuleRow> = Vec::new();
        let n = self.rules.len();
        for i in 0..n
            invariant
                n == self.rules@.len(),
                rows@.len() == i,
                forall|j: int|
                    0 <= j < i ==> (#[trigger] rows@[j])@ == row_of(
                        self.rules@[j]@,
                        if j < statuses@.len() {
                            Some(statuses@[j]@)
                        } else {
                            None
                        },
                    ),
        {
            let rule = &self.rules[i];
            let (currently_true, last_error) = if i < statuses.len() {
                match &statuses[i].value {
                    Ok(v) => (*v, String::new()),
                    Err(e) => (false, e.clone()),
                }
            } else {
                (false, String::new())
            };
            rows.push(
                RuleRow {
                    name: rule.name.clone(),
                    enabled: rule.enabled,
                    currently_true,
                    last_error,
                    expr: rule.expr.clone(),
                },
            );
        }
        rows
    }
}

/// The compile error of the first rule, in order, whose expression does not
/// compile; `None` when every rule compiles.
pub open spec fn first_rule_error(rules: Seq<RuleView>) -> Option<Seq<char>>
    decreases rules.len(),
{
    if rules.len() == 0 {
        None
    } else {
        match first_rule_error(rules.drop_last()) {
            Some(e) => Some(e),
            None => rhai_compile_error(rules.last().expr),
        }
    }
}

/// A first error found in a prefix is the first error of the whole.
proof fn lemma_first_rule_error_prefix(rules: Seq<RuleView>, k: int)
    requires
        0 <= k <= rules.len(),
        first_rule_error(rules.take(k)) is Some,
    ensures
        first_rule_error(rules) == first_rule_error(rules.take(k)),
    decreases rules.len() - k,
{
    if k < rules.len() {
        assert(rules.take(k + 1).drop_last() =~= rules.take(k));
        lemma_first_rule_error_prefix(rules, k + 1);
    } else {
        assert(rules.take(k) =~= rules);
    }
}

/// A config has no first compile error exactly when every one of its rules
/// compiles.
pub proof fn lemma_first_rule_error_none(rules: Seq<RuleView>)
    ensures
        first_rule_error(rules) is None <==> forall|i: int|
            0 <= i < rules.len() ==> (#[trigger] rhai_compile_error(rules[i].expr)) is None,
    decreases rules.len(),
{
    if rules.len() > 0 {
        let init = rules.drop_last();
        lemma_first_rule_error_none(init);
        if first_rule_error(rules) is None {
            assert forall|i: int| 0 <= i < rules.len() implies (#[trigger] rhai_compile_error(
                rules[i].expr,
            )) is None by {
                if i < init.len() {
                    assert(init[i] == rules[i]);
                }
            }
        }
        if forall|i: int|
            0 <= i < rules.len() ==> (#[trigger] rhai_compile_error(rules[i].expr)) is None {
            assert forall|i: int| 0 <= i < init.len() implies (#[trigger] rhai_compile_error(
                init[i].expr,
            )) is None by {
                assert(init[i] == rules[i]);
            }
            assert(rhai_compile_error(rules[rules.len() - 1].expr) is None);
        }
    }
}

/// The compiled rules with every rule named `old_name` renamed `new_name`.
pub open spec fn renamed_rules(
    rules: Seq<CompiledRuleView>,
    old_name: Seq<char>,
    new_name: Seq<char>,
) -> Seq<CompiledRuleView> {
    rules.map_values(
        |r: CompiledRuleView|
            if r.name == old_name {
                CompiledRuleView { name: new_name, ..r }
            } else {
                r
            },
    )
}

/// A rule counts toward inhibition when it is enabled and evaluated to `true`.
pub open spec fn is_active(s: RuleStatusView) -> bool {
    s.enabled && s.value == Ok::<bool, Seq<char>>(true)
}

/// True while any enabled rule evaluates to `true`. A rule with a compile
/// or eval error is treated as false.
pub fn should_inhibit(statuses: &[RuleStatus]) -> (res: bool)
    ensures
        res == exists|i: int| 0 <= i < statuses@.len() && is_active(#[trigger] statuses@[i]@),
        res == exists|i: int|
            0 <= i < statuses@.len() && (#[trigger] statuses@[i]).enabled && statuses@[i].value
                == Ok::<bool, String>(true),
{
    let n = statuses.len();
    for i in 0..n
        invariant
            n == statuses@.len(),
            forall|j: int| 0 <= j < i ==> !is_active(#[trigger] statuses@[j]@),
            forall|j: int|
                0 <= j < i ==> !((#[trigger] statuses@[j]).enabled && statuses@[j].value == Ok::<
                    bool,
                    String,
                >(true)),
    {
        let s = &statuses[i];
        if s.enabled {
            match &s.value {
                Ok(true) => {
                    assert(is_active(statuses@[i as int]@));
                    assert(statuses@[i as int].value == Ok::<bool, String>(true));
                    return true;
                },
                _ => {},
            }
        }
        assert(!(statuses@[i as int].enabled && statuses@[i as int].value == Ok::<bool, String>(
            true,
        )));
    }
    false
}


/// The model of a slice of statuses.
pub open spec fn statuses_view(statuses: Seq<RuleStatus>) -> Seq<RuleStatusView> {
    statuses.map_values(|s: RuleStatus| s@)
}

/// The names of the active rules, in evaluation order.
pub open spec fn active_names(s: Seq<RuleStatusView>) -> Seq<Seq<char>>
    decreases s.len(),
{
    if s.len() == 0 {
        Seq::empty()
    } else {
        let rest = active_names(s.drop_last());
        if is_active(s.last()) {
            rest.push(s.last().name)
        } else {
            rest
        }
    }
}

/// `parts` joined with `sep` between each two neighbours.
pub open spec fn join_with(parts: Seq<Seq<char>>, sep: Seq<char>) -> Seq<char>
    decreases parts.len(),
{
    if parts.len() == 0 {
        Seq::empty()
    } else if parts.len() == 1 {
        parts[0]
    } else {
        join_with(parts.drop_last(), sep) + sep + parts.last()
    }
}

/// The separator between rule names in the inhibition reason.
pub open spec fn reason_separator() -> Seq<char> {
    seq![',', ' ']
}

/// The inhibition reason: the active rules' names, comma-separated.
pub open spec fn reason_of(s: Seq<RuleStatusView>) -> Seq<char> {
    join_with(active_names(s), reason_separator())
}

proof fn lemma_take_step<A>(s: Seq<A>, i: int)
    requires
        0 <= i < s.len(),
    ensures
        s.take(i + 1).drop_last() == s.take(i),
        s.take(i + 1).last() == s[i],
        s.take(i + 1).len() == i + 1,
{
    assert(s.take(i + 1).drop_last() =~= s.take(i));
}

/// The names of the enabled rules that evaluated to `true`, in order.
pub fn active_rule_names(statuses: &[RuleStatus]) -> (names: Vec<String>)
    ensures
        names@.map_values(|n: String| n@) == active_names(statuses_view(statuses@)),
{
    let ghost sv = statuses_view(statuses@);
    let mut names: Vec<String> = Vec::new();
    let n = statuses.len();
    for i in 0..n
        invariant
            n == statuses@.len(),
            sv == statuses_view(statuses@),
            names@.map_values(|n: String| n@) == active_names(sv.take(i as int)),
    {
        proof {
            lemma_take_step(sv, i as int);
        }
        let s = &statuses[i];
        let active = s.enabled && match &s.value {
            Ok(true) => true,
            _ => false,
        };
        assert(active == is_active(sv[i as int]));
        if active {
            names.push(s.name.clone());
        }
        assert(names@.map_values(|n: String| n@) =~= active_names(sv.take(i + 1)));
    }
    assert(sv.take(n as int) =~= sv);
    names
}

/// The active rules' names joined by ", ": the reason handed to logind
/// while inhibiting.
pub fn inhibit_reason(statuses: &[RuleStatus]) -> (reason: String)
    ensures
        reason@ == reason_of(statuses_view(statuses@)),
{
    let ghost sv = statuses_view(statuses@);
    let mut reason = String::new();
    let mut any = false;
    let n = statuses.len();
    for i in 0..n
        invariant
            n == statuses@.len(),
            sv == statuses_view(statuses@),
            any == (active_names(sv.take(i as int)).len() > 0),
            reason@ == join_with(active_names(sv.take(i as int)), reason_separator()),
    {
        proof {
            lemma_take_step(sv, i as int);
        }
        let s = &statuses[i];
        let active = s.enabled && match &s.value {
            Ok(true) => true,
            _ => false,
        };
        assert(active == is_active(sv[i as int]));
        if active {
            let ghost before = active_names(sv.take(i as int));
            if any {
                reason.append(", ");
                proof {
                    reveal_strlit(", ");
                }
            }
            reason.append(s.name.as_str());
            assert(active_names(sv.take(i + 1)) == before.push(s.name@));
            assert(before.push(s.name@).drop_last() =~= before);
        }
        any = any || active;
    }
    assert(sv.take(n as int) =~= sv);
    reason
}

/// An inhibition is owed exactly when some rule is active, that is when
/// the list of active rule names is not empty.
pub proof fn lemma_inhibit_iff_active_names(s: Seq<RuleStatusView>)
    ensures
        (exists|i: int| 0 <= i < s.len() && is_active(#[trigger] s[i])) <==> active_names(s).len()
            > 0,
    decreases s.len(),
{
    if s.len() > 0 {
        lemma_inhibit_iff_active_names(s.drop_last());
        if exists|i: int| 0 <= i < s.len() && is_active(#[trigger] s[i]) {
            let i = choose|i: int| 0 <= i < s.len() && is_active(#[trigger] s[i]);
            if i < s.len() - 1 {
                assert(is_active(s.drop_last()[i]));
            }
        }
        if exists|i: int| 0 <= i < s.len() - 1 && is_active(#[trigger] s.drop_last()[i]) {
            let i = choose|i: int| 0 <= i < s.len() - 1 && is_active(#[trigger] s.drop_last()[i]);
            assert(is_active(s[i]));
        }
    }
}

/// A status counts toward inhibition exactly when its rule is enabled and
/// evaluated to `true`, whatever the rule is called.
pub proof fn lemma_active_means_enabled_and_true(s: RuleStatusView)
    ensures
        is_active(s) <==> (s.enabled && s.value == Ok::<bool, Seq<char>>(true)),
{
}

/// A name is among the active names exactly when some enabled status with
/// that name evaluated to `true`; every active name comes from such a status.
pub proof fn lemma_active_names_members(s: Seq<RuleStatusView>)
    ensures
        forall|n: Seq<char>|
            active_names(s).contains(n) <==> exists|i: int|
                0 <= i < s.len() && (#[trigger] s[i]).name == n && s[i].enabled && s[i].value
                    == Ok::<bool, Seq<char>>(true),
        active_names(s).len() <= s.len(),
    decreases s.len(),
{
    if s.len() > 0 {
        let init = s.drop_last();
        lemma_active_names_members(init);
        let rest = active_names(init);
        assert forall|n: Seq<char>|
            active_names(s).contains(n) <==> exists|i: int|
                0 <= i < s.len() && (#[trigger] s[i]).name == n && s[i].enabled && s[i].value
                    == Ok::<bool, Seq<char>>(true) by {
            if active_names(s).contains(n) {
                let k = choose|k: int| 0 <= k < active_names(s).len() && active_names(s)[k] == n;
                if k < rest.len() {
                    assert(rest[k] == active_names(s)[k]);
                    assert(rest.contains(n));
                    let i = choose|i: int|
                        0 <= i < init.len() && (#[trigger] init[i]).name == n && init[i].enabled
                            && init[i].value == Ok::<bool, Seq<char>>(true);
                    assert(s[i] == init[i]);
                } else {
                    assert(s[s.len() - 1].name == n);
                }
            }
            if exists|i: int|
                0 <= i < s.len() && (#[trigger] s[i]).name == n && s[i].enabled && s[i].value
                    == Ok::<bool, Seq<char>>(true) {
                let i = choose|i: int|
                    0 <= i < s.len() && (#[trigger] s[i]).name == n && s[i].enabled && s[i].value
                        == Ok::<bool, Seq<char>>(true);
                if i < s.len() - 1 {
                    assert(init[i] == s[i]);
                    assert(rest.contains(n));
                    let k = choose|k: int| 0 <= k < rest.len() && rest[k] == n;
                    if is_active(s.last()) {
                        assert(active_names(s)[k] == n);
                    }
                } else {
                    assert(active_names(s)[active_names(s).len() - 1] == n);
                }
            }
        }
    }
}

/// With a single active rule the reason is exactly that rule's name; with
/// none it is empty.
pub proof fn lemma_reason_of_single_or_none(s: Seq<RuleStatusView>)
    ensures
        active_names(s).len() == 0 ==> reason_of(s) == Seq::<char>::empty(),
        active_names(s).len() == 1 ==> reason_of(s) == active_names(s)[0],
{
}

} // verus!
