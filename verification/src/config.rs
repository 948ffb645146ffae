//! The on-disk rule configuration, as plain values.

use vstd::prelude::*;

verus! {

/// The only config schema version this daemon understands.
pub const SUPPORTED_VERSION: u32 = 1;

/// One rule: a name plus a boolean Rhai expression.
pub struct Rule {
    pub name: String,
    pub enabled: bool,
    pub expr: String,
}

/// The mathematical model of a [`Rule`].
pub struct RuleView {
    pub name: Seq<char>,
    pub enabled: bool,
    pub expr: Seq<char>,
}

impl View for Rule {
    type V = RuleView;

    open spec fn view(&self) -> RuleView {
        RuleView { name: self.name@, enabled: self.enabled, expr: self.expr@ }
    }
}

impl Clone for Rule {
    fn clone(&self) -> (res: Self)
        ensures
            res@ == self@,
    {
        Rule { name: self.name.clone(), enabled: self.enabled, expr: self.expr.clone() }
    }
}

/// The whole configuration file.
pub struct Config {
    pub version: u32,
    pub rules: Vec<Rule>,
}

/// The mathematical model of a [`Config`].
pub struct ConfigView {
    pub version: u32,
    pub rules: Seq<RuleView>,
}

impl View for Config {
    type V = ConfigView;

    open spec fn view(&self) -> ConfigView {
        ConfigView { version: self.version, rules: self.rules@.map_values(|r: Rule| r@) }
    }
}

impl Clone for Config {
    fn clone(&self) -> (res: Self)
        ensures
            res@ == self@,
    {
        let mut rules: Vec<Rule> = Vec::new();
        let n = self.rules.len();
        for i in 0..n
            invariant
                n == self.rules@.len(),
                rules@.len() == i,
                forall|j: int| 0 <= j < i ==> (#[trigger] rules@[j])@ == self.rules@[j]@,
        {
            rules.push(self.rules[i].clone());
        }
        let res = Config { version: self.version, rules };
        assert(res@.rules =~= self@.rules);
        res
    }
}

/// The value `enabled` takes when a rule in the file leaves it out.
pub fn default_true() -> (b: bool)
    ensures
        b,
{
    true
}

impl Config {
    /// Accepts a freshly parsed config only if it has the supported schema
    /// version; otherwise hands back the version it found.
    pub fn check_version(self) -> (res: Result<Config, u32>)
        ensures
            self.version == SUPPORTED_VERSION ==> (res matches Ok(c) && c@ == self@),
            self.version != SUPPORTED_VERSION ==> res == Err::<Config, u32>(self.version),
    {
        if self.version != SUPPORTED_VERSION {
            return Err(self.version);
        }
        Ok(self)
    }
}

impl RuleView {
    pub open spec fn with_expr(self, expr: Seq<char>) -> RuleView {
        RuleView { expr, ..self }
    }

    pub open spec fn with_name(self, name: Seq<char>) -> RuleView {
        RuleView { name, ..self }
    }
}

/// No two of `rules` share a name.
pub open spec fn unique_names(rules: Seq<RuleView>) -> bool {
    forall|i: int, j: int|
        0 <= i < rules.len() && 0 <= j < rules.len() && i != j ==> (#[trigger] rules[i]).name != (
        #[trigger] rules[j]).name
}

/// `rules` without every rule named `name`, the rest in their order.
pub open spec fn rules_without(rules: Seq<RuleView>, name: Seq<char>) -> Seq<RuleView>
    decreases rules.len(),
{
    if rules.len() == 0 {
        rules
    } else {
        let rest = rules_without(rules.drop_last(), name);
        if rules.last().name == name {
            rest
        } else {
            rest.push(rules.last())
        }
    }
}

impl ConfigView {
    /// Whether some rule is named `name`.
    pub open spec fn has_rule(self, name: Seq<char>) -> bool {
        exists|i: int| 0 <= i < self.rules.len() && (#[trigger] self.rules[i]).name == name
    }

    /// No two rules share a name.
    pub open spec fn names_unique(self) -> bool {
        unique_names(self.rules)
    }

    /// The config with `rule` appended.
    pub open spec fn with_rule(self, rule: RuleView) -> ConfigView {
        ConfigView { rules: self.rules.push(rule), ..self }
    }

    /// The config with every rule named `name` given the expression `expr`.
    pub open spec fn with_expr(self, name: Seq<char>, expr: Seq<char>) -> ConfigView {
        ConfigView {
            rules: self.rules.map_values(
                |r: RuleView|
                    if r.name == name {
                        r.with_expr(expr)
                    } else {
                        r
                    },
            ),
            ..self
        }
    }

    /// The config with every rule named `old_name` renamed to `new_name`.
    pub open spec fn renamed(self, old_name: Seq<char>, new_name: Seq<char>) -> ConfigView {
        ConfigView {
            rules: self.rules.map_values(
                |r: RuleView|
                    if r.name == old_name {
                        r.with_name(new_name)
                    } else {
                        r
                    },
            ),
            ..self
        }
    }

    /// The config without any rule named `name`.
    pub open spec fn without_rule(self, name: Seq<char>) -> ConfigView {
        ConfigView { rules: rules_without(self.rules, name), ..self }
    }
}

/// Removing every rule named `name` shortens the rules exactly when one
/// has that name, and never lengthens them.
pub proof fn lemma_rules_without_len(rules: Seq<RuleView>, name: Seq<char>)
    ensures
        rules_without(rules, name).len() <= rules.len(),
        rules_without(rules, name).len() < rules.len() <==> exists|i: int|
            0 <= i < rules.len() && (#[trigger] rules[i]).name == name,
    decreases rules.len(),
{
    if rules.len() > 0 {
        let init = rules.drop_last();
        lemma_rules_without_len(init, name);
        if exists|i: int| 0 <= i < rules.len() && (#[trigger] rules[i]).name == name {
            let i = choose|i: int| 0 <= i < rules.len() && (#[trigger] rules[i]).name == name;
            if i < rules.len() - 1 {
                assert(init[i].name == name);
            }
        }
        if exists|i: int| 0 <= i < init.len() && (#[trigger] init[i]).name == name {
            let i = choose|i: int| 0 <= i < init.len() && (#[trigger] init[i]).name == name;
            assert(rules[i].name == name);
        }
    }
}

impl Config {
    /// Whether some rule is named `name`.
    pub fn has_rule(&self, name: &String) -> (found: bool)
        ensures
            found == self@.has_rule(name@),
    {
        let n = self.rules.len();
        for i in 0..n
            invariant
                n == self.rules@.len(),
                forall|j: int| 0 <= j < i ==> (#[trigger] self@.rules[j]).name != name@,
        {
            if self.rules[i].name == *name {
                assert(self@.rules[i as int].name == name@);
                return true;
            }
        }
        false
    }

    /// Gives every rule named `name` the expression `expr`.
    pub fn set_expr(&mut self, name: &String, expr: &String)
        ensures
            final(self)@ == old(self)@.with_expr(name@, expr@),
    {
        let n = self.rules.len();
        for i in 0..n
            invariant
                n == self.rules@.len(),
                n == old(self).rules@.len(),
                self.version == old(self).version,
                forall|j: int|
                    0 <= j < n ==> (#[trigger] self.rules@[j])@ == (if j < i && old(self).rules@[j]@.name == name@ {
                        old(self).rules@[j]@.with_expr(expr@)
                    } else {
                        old(self).rules@[j]@
                    }),
        {
            if self.rules[i].name == *name {
                self.rules[i].expr = expr.clone();
            }
        }
        assert(self@.rules =~= old(self)@.with_expr(name@, expr@).rules);
    }

    /// Renames every rule named `old_name` to `new_name`.
    pub fn rename(&mut self, old_name: &String, new_name: &String)
        ensures
            final(self)@ == old(self)@.renamed(old_name@, new_name@),
    {
        let n = self.rules.len();
        for i in 0..n
            invariant
                n == self.rules@.len(),
                n == old(self).rules@.len(),
                self.version == old(self).version,
                forall|j: int|
                    0 <= j < n ==> (#[trigger] self.rules@[j])@ == (if j < i && old(self).rules@[j]@.name == old_name@ {
                        old(self).rules@[j]@.with_name(new_name@)
                    } else {
                        old(self).rules@[j]@
                    }),
        {
            if self.rules[i].name == *old_name {
                self.rules[i].name = new_name.clone();
            }
        }
        assert(self@.rules =~= old(self)@.renamed(old_name@, new_name@).rules);
    }

    /// Removes every rule named `name`; returns whether any was removed.
    pub fn remove_named(&mut self, name: &String) -> (removed: bool)
        ensures
            final(self)@ == old(self)@.without_rule(name@),
            removed == old(self)@.has_rule(name@),
    {
        let ghost old_rules = self@.rules;
        let mut kept: Vec<Rule> = Vec::new();
        let n = self.rules.len();
        for i in 0..n
            invariant
                n == self.rules@.len(),
                old_rules == self@.rules,
                kept@.map_values(|r: Rule| r@) == rules_without(old_rules.take(i as int), name@),
        {
            assert(old_rules.take(i + 1).drop_last() =~= old_rules.take(i as int));
            assert(old_rules.take(i + 1).last() == old_rules[i as int]);
            if self.rules[i].name != *name {
                kept.push(self.rules[i].clone());
            }
            assert(kept@.map_values(|r: Rule| r@) =~= rules_without(
                old_rules.take(i + 1),
                name@,
            ));
        }
        assert(old_rules.take(n as int) =~= old_rules);
        let removed = kept.len() < n;
        proof {
            lemma_rules_without_len(old_rules, name@);
        }
        self.rules = kept;
        assert(self@ =~= old(self)@.without_rule(name@));
        removed
    }
}

/// Every rule kept by `rules_without` is a rule of the input, in order:
/// position `j` of the result comes from some position of the input, and
/// no kept rule is named `name`.
pub proof fn lemma_rules_without_members(rules: Seq<RuleView>, name: Seq<char>)
    ensures
        forall|j: int|
            0 <= j < rules_without(rules, name).len() ==> (#[trigger] rules_without(
                rules,
                name,
            )[j]).name != name,
        forall|j: int|
            0 <= j < rules_without(rules, name).len() ==> exists|k: int|
                0 <= k < rules.len() && rules[k] == #[trigger] rules_without(rules, name)[j],
    decreases rules.len(),
{
    if rules.len() > 0 {
        let init = rules.drop_last();
        lemma_rules_without_members(init, name);
        let out = rules_without(rules, name);
        let rest = rules_without(init, name);
        assert forall|j: int| 0 <= j < out.len() implies exists|k: int|
            0 <= k < rules.len() && rules[k] == #[trigger] out[j] by {
            if j < rest.len() {
                let k = choose|k: int| 0 <= k < init.len() && init[k] == #[trigger] rest[j];
                assert(rules[k] == out[j]);
            } else {
                assert(rules[rules.len() - 1] == out[j]);
            }
        }
        assert forall|j: int| 0 <= j < out.len() implies (#[trigger] out[j]).name != name by {
            if j < rest.len() {
                assert(rest[j] == out[j]);
            }
        }
    }
}

/// Removing a rule by name keeps the names unique, if they were.
proof fn lemma_rules_without_unique(rules: Seq<RuleView>, name: Seq<char>)
    requires
        unique_names(rules),
    ensures
        unique_names(rules_without(rules, name)),
    decreases rules.len(),
{
    if rules.len() > 0 {
        let init = rules.drop_last();
        assert(unique_names(init)) by {
            assert forall|i: int, j: int|
                0 <= i < init.len() && 0 <= j < init.len() && i != j implies (
            #[trigger] init[i]).name != (#[trigger] init[j]).name by {
                assert(rules[i] == init[i] && rules[j] == init[j]);
            }
        }
        lemma_rules_without_unique(init, name);
        lemma_rules_without_members(init, name);
        let rest = rules_without(init, name);
        let last = rules.last();
        if last.name != name {
            let out = rest.push(last);
            assert forall|i: int, j: int|
                0 <= i < out.len() && 0 <= j < out.len() && i != j implies (
            #[trigger] out[i]).name != (#[trigger] out[j]).name by {
                if i < rest.len() && j < rest.len() {
                    assert(out[i] == rest[i] && out[j] == rest[j]);
                } else if i < rest.len() {
                    let k = choose|k: int| 0 <= k < init.len() && init[k] == #[trigger] rest[i];
                    assert(rules[k] == out[i]);
                    assert(rules[rules.len() - 1] == out[j]);
                } else {
                    let k = choose|k: int| 0 <= k < init.len() && init[k] == #[trigger] rest[j];
                    assert(rules[k] == out[j]);
                    assert(rules[rules.len() - 1] == out[i]);
                }
            }
        }
    }
}

/// A rule added under a fresh name and then removed by that name leaves
/// the config as it was.
pub proof fn lemma_add_then_remove(cfg: ConfigView, rule: RuleView)
    requires
        !cfg.has_rule(rule.name),
    ensures
        cfg.with_rule(rule).without_rule(rule.name) == cfg,
{
    lemma_rules_without_keeps_all(cfg.rules, rule.name);
    let pushed = cfg.rules.push(rule);
    assert(pushed.drop_last() =~= cfg.rules);
    assert(cfg.with_rule(rule).without_rule(rule.name).rules =~= cfg.rules);
}

/// Removing a name no rule has changes nothing.
pub proof fn lemma_rules_without_keeps_all(rules: Seq<RuleView>, name: Seq<char>)
    requires
        forall|i: int| 0 <= i < rules.len() ==> (#[trigger] rules[i]).name != name,
    ensures
        rules_without(rules, name) == rules,
    decreases rules.len(),
{
    if rules.len() > 0 {
        let init = rules.drop_last();
        assert forall|i: int| 0 <= i < init.len() implies (#[trigger] init[i]).name != name by {
            assert(rules[i] == init[i]);
        }
        lemma_rules_without_keeps_all(init, name);
        assert(init.push(rules.last()) =~= rules);
    }
}

/// Renaming `a` to a name `b` that no rule has, then `b` back to `a`,
/// restores the config.
pub proof fn lemma_rename_round_trip(cfg: ConfigView, a: Seq<char>, b: Seq<char>)
    requires
        !cfg.has_rule(b),
    ensures
        cfg.renamed(a, b).renamed(b, a) == cfg,
{
    let there = cfg.renamed(a, b);
    let back = there.renamed(b, a);
    assert forall|i: int| 0 <= i < cfg.rules.len() implies #[trigger] back.rules[i] == cfg.rules[i] by {
        assert(cfg.rules[i].name != b);
    }
    assert(back.rules =~= cfg.rules);
}

/// After a successful add the rule's name is taken; after a removal by
/// name it is free; after a rename from a taken name to a new one, the new
/// name is taken and the old one free.
pub proof fn lemma_edits_names(cfg: ConfigView, rule: RuleView, a: Seq<char>, b: Seq<char>)
    ensures
        cfg.with_rule(rule).has_rule(rule.name),
        !cfg.without_rule(a).has_rule(a),
        cfg.has_rule(a) && a != b ==> cfg.renamed(a, b).has_rule(b) && !cfg.renamed(
            a,
            b,
        ).has_rule(a),
{
    assert(cfg.with_rule(rule).rules[cfg.rules.len() as int] == rule);
    lemma_rules_without_members(cfg.rules, a);
    if cfg.has_rule(a) && a != b {
        let i = choose|i: int| 0 <= i < cfg.rules.len() && (#[trigger] cfg.rules[i]).name == a;
        assert(cfg.renamed(a, b).rules[i].name == b);
    }
}

/// Changing expressions keeps every rule's name, flag and position.
pub proof fn lemma_set_expr_keeps_names(cfg: ConfigView, name: Seq<char>, expr: Seq<char>)
    ensures
        cfg.with_expr(name, expr).rules.len() == cfg.rules.len(),
        forall|i: int|
            0 <= i < cfg.rules.len() ==> (#[trigger] cfg.with_expr(name, expr).rules[i]).name
                == cfg.rules[i].name && cfg.with_expr(name, expr).rules[i].enabled
                == cfg.rules[i].enabled,
{
}

/// The rule edits keep rule names unique: an add under a fresh name, an
/// expression update, a rename to a fresh name and a removal.
pub proof fn lemma_edits_keep_names_unique(
    cfg: ConfigView,
    rule: RuleView,
    name: Seq<char>,
    expr: Seq<char>,
    a: Seq<char>,
    b: Seq<char>,
)
    requires
        cfg.names_unique(),
    ensures
        !cfg.has_rule(rule.name) ==> cfg.with_rule(rule).names_unique(),
        cfg.with_expr(name, expr).names_unique(),
        !cfg.has_rule(b) ==> cfg.renamed(a, b).names_unique(),
        cfg.without_rule(name).names_unique(),
{
    if !cfg.has_rule(rule.name) {
        let out = cfg.with_rule(rule);
        assert forall|i: int, j: int|
            0 <= i < out.rules.len() && 0 <= j < out.rules.len() && i != j implies (
        #[trigger] out.rules[i]).name != (#[trigger] out.rules[j]).name by {
            if i < cfg.rules.len() && j < cfg.rules.len() {
                assert(out.rules[i] == cfg.rules[i] && out.rules[j] == cfg.rules[j]);
            } else if i < cfg.rules.len() {
                assert(out.rules[i] == cfg.rules[i]);
            } else {
                assert(out.rules[j] == cfg.rules[j]);
            }
        }
    }
    let upd = cfg.with_expr(name, expr);
    assert forall|i: int, j: int|
        0 <= i < upd.rules.len() && 0 <= j < upd.rules.len() && i != j implies (
    #[trigger] upd.rules[i]).name != (#[trigger] upd.rules[j]).name by {
        assert(upd.rules[i].name == cfg.rules[i].name && upd.rules[j].name == cfg.rules[j].name);
    }
    if !cfg.has_rule(b) {
        let ren = cfg.renamed(a, b);
        assert forall|i: int, j: int|
            0 <= i < ren.rules.len() && 0 <= j < ren.rules.len() && i != j implies (
        #[trigger] ren.rules[i]).name != (#[trigger] ren.rules[j]).name by {
            assert(cfg.rules[i].name != b);
            assert(cfg.rules[j].name != b);
        }
    }
    lemma_rules_without_unique(cfg.rules, name);
}

/// A rename changes names only: every rule keeps its position, `enabled`
/// flag and expression; a rule named `old_name` is afterwards named
/// `new_name`, and every other rule keeps its name.
pub proof fn lemma_rename_changes_only_names(cfg: ConfigView, old_name: Seq<char>, new_name: Seq<char>)
    ensures
        cfg.renamed(old_name, new_name).version == cfg.version,
        cfg.renamed(old_name, new_name).rules.len() == cfg.rules.len(),
        forall|i: int|
            0 <= i < cfg.rules.len() ==> {
                &&& (#[trigger] cfg.renamed(old_name, new_name).rules[i]).enabled
                    == cfg.rules[i].enabled
                &&& cfg.renamed(old_name, new_name).rules[i].expr == cfg.rules[i].expr
                &&& cfg.renamed(old_name, new_name).rules[i].name == if cfg.rules[i].name
                    == old_name {
                    new_name
                } else {
                    cfg.rules[i].name
                }
            },
{
}

/// An expression update changes expressions only: every rule keeps its
/// position, name and `enabled` flag, and only rules named `name` take
/// `expr`.
pub proof fn lemma_update_changes_only_exprs(cfg: ConfigView, name: Seq<char>, expr: Seq<char>)
    ensures
        cfg.with_expr(name, expr).rules.len() == cfg.rules.len(),
        forall|i: int|
            0 <= i < cfg.rules.len() ==> {
                &&& (#[trigger] cfg.with_expr(name, expr).rules[i]).name == cfg.rules[i].name
                &&& cfg.with_expr(name, expr).rules[i].enabled == cfg.rules[i].enabled
                &&& cfg.with_expr(name, expr).rules[i].expr == if cfg.rules[i].name == name {
                    expr
                } else {
                    cfg.rules[i].expr
                }
            },
{
}

} // verus!
