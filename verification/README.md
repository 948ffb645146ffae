# plasma_keepawaked

The logic of a rule-driven "keep the system awake" daemon for KDE Plasma,
verified with Verus. Rules are named boolean Rhai expressions over condition
providers (MPRIS playback, UPower battery state, running processes, signal
files, SSH sessions); while any enabled rule is true the daemon holds a
systemd-logind sleep inhibitor.

- `src/config.rs` — the rule configuration as plain values, its edits
  (add, change expression, rename, remove) and their laws.
- `src/engine.rs` — compiling and evaluating rules with Rhai, the inhibit
  decision and its reason string.
- `src/state.rs` — the daemon's editable state: every edit either applies
  and rebuilds the rules, or changes nothing and says why.
- `src/inhibitor.rs` — holding and releasing the logind inhibitor.
- `src/providers/` — the condition providers and their decision rules;
  `src/text.rs` — character-level string helpers.
- `app/` — the daemon program: arguments, config file I/O, `/proc` and
  signal-file scanning, the D-Bus service and the poll loop.
