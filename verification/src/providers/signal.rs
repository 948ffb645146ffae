//! The rules of `signal(name)`: a plain flag file asserts the signal
//! outright, and a `<name>.d` directory asserts it while it holds at least
//! one fresh file. Finding and reading those files stands outside the
//! library; these functions decide on what was read.

use vstd::prelude::*;

verus! {

/// How long, in seconds, a `.d` entry is trusted without being re-touched.
pub const MAX_AGE_SECS: u64 = 600;

/// One file found in a `<name>.d` directory: whether it is a regular file,
/// and its age in whole seconds since it was last modified (`None` when
/// that could not be read, or lies in the future).
pub struct SignalEntry {
    pub is_file: bool,
    pub age_secs: Option<u64>,
}

/// An age counts as fresh while it is under [`MAX_AGE_SECS`]; an unknown
/// age counts as stale.
pub open spec fn fresh_age(age_secs: Option<u64>) -> bool {
    age_secs matches Some(a) && a < MAX_AGE_SECS
}

/// An entry that keeps a `.d` signal asserted.
pub open spec fn live_entry(e: SignalEntry) -> bool {
    e.is_file && fresh_age(e.age_secs)
}

/// An entry that an eager cleanup removes: a regular file that is not fresh.
pub open spec fn stale_entry(e: SignalEntry) -> bool {
    e.is_file && !fresh_age(e.age_secs)
}

/// Whether a signal is set, given whether its plain flag file exists and
/// the entries of its `.d` directory.
pub open spec fn signal_set(plain_file: bool, entries: Seq<SignalEntry>) -> bool {
    plain_file || exists|i: int| 0 <= i < entries.len() && live_entry(#[trigger] entries[i])
}

/// A directory name with the extension `d` (as `Path::extension` reads
/// it: a final `.d` after a non-empty stem).
pub open spec fn dot_d_name(name: Seq<char>) -> bool {
    name.len() >= 3 && name[name.len() - 2] == '.' && name[name.len() - 1] == 'd'
}

/// The positions of the stale entries, in order.
pub open spec fn stale_positions(entries: Seq<SignalEntry>) -> Seq<int>
    decreases entries.len(),
{
    if entries.len() == 0 {
        Seq::empty()
    } else {
        let rest = stale_positions(entries.drop_last());
        if stale_entry(entries.last()) {
            rest.push(entries.len() - 1)
        } else {
            rest
        }
    }
}

/// How many of `results` are `true`.
pub open spec fn count_true(results: Seq<bool>) -> nat
    decreases results.len(),
{
    if results.len() == 0 {
        0
    } else {
        count_true(results.drop_last()) + if results.last() {
            1nat
        } else {
            0nat
        }
    }
}

/// Whether a cleanup pass looks into a directory entry of the signals
/// directory: only directories named `<name>.d`.
pub fn is_signal_dir(is_dir: bool, name: &str) -> (selected: bool)
    ensures
        selected == (is_dir && dot_d_name(name@)),
{
    if !is_dir {
        return false;
    }
    let n = name.unicode_len();
    if n < 3 {
        return false;
    }
    name.get_char(n - 2) == '.' && name.get_char(n - 1) == 'd'
}

/// The positions, in order, of the entries of a `.d` directory that a
/// cleanup pass removes.
pub fn stale_entries(entries: &[SignalEntry]) -> (positions: Vec<usize>)
    ensures
        positions@.map_values(|p: usize| p as int) == stale_positions(entries@),
        forall|i: int|
            0 <= i < entries@.len() ==> (positions@.map_values(|p: usize| p as int).contains(i)
                <==> ((#[trigger] entries@[i]).is_file && !(entries@[i].age_secs matches Some(a)
                && a < MAX_AGE_SECS))),
        forall|k: int|
            0 <= k < positions@.len() ==> (#[trigger] positions@[k]) < entries@.len(),
{
    let mut positions: Vec<usize> = Vec::new();
    let n = entries.len();
    for i in 0..n
        invariant
            n == entries@.len(),
            positions@.map_values(|p: usize| p as int) == stale_positions(entries@.take(i as int)),
    {
        assert(entries@.take(i + 1).drop_last() =~= entries@.take(i as int));
        assert(entries@.take(i + 1).last() == entries@[i as int]);
        if should_remove(&entries[i]) {
            positions.push(i);
        }
        assert(positions@.map_values(|p: usize| p as int) =~= stale_positions(
            entries@.take(i + 1),
        ));
    }
    assert(entries@.take(n as int) =~= entries@);
    proof {
        lemma_stale_positions_exact(entries@);
        assert forall|k: int| 0 <= k < positions@.len() implies (#[trigger] positions@[k])
            < entries@.len() by {
            assert(positions@.map_values(|p: usize| p as int)[k] == positions@[k] as int);
        }
    }
    positions
}

/// How many removals succeeded: the count a cleanup pass reports.
pub fn removed_count(removals: &[bool]) -> (count: usize)
    ensures
        count == count_true(removals@),
{
    let mut count: usize = 0;
    let n = removals.len();
    for i in 0..n
        invariant
            n == removals@.len(),
            count == count_true(removals@.take(i as int)),
            count <= i,
    {
        assert(removals@.take(i + 1).drop_last() =~= removals@.take(i as int));
        if removals[i] {
            count = count + 1;
        }
    }
    assert(removals@.take(n as int) =~= removals@);
    count
}

/// Whether an entry's age is fresh.
pub fn is_fresh(age_secs: Option<u64>) -> (fresh: bool)
    ensures
        fresh == fresh_age(age_secs),
{
    match age_secs {
        Some(a) => a < MAX_AGE_SECS,
        None => false,
    }
}

/// Whether a signal is set, given whether its plain flag file exists and
/// the entries of its `.d` directory (none when that cannot be read).
pub fn signal_is_set(plain_file: bool, entries: &[SignalEntry]) -> (set: bool)
    ensures
        set == signal_set(plain_file, entries@),
{
    if plain_file {
        return true;
    }
    let n = entries.len();
    for i in 0..n
        invariant
            n == entries@.len(),
            forall|k: int| 0 <= k < i ==> !live_entry(#[trigger] entries@[k]),
    {
        let e = &entries[i];
        if e.is_file && is_fresh(e.age_secs) {
            assert(live_entry(entries@[i as int]));
            return true;
        }
    }
    false
}

/// Whether an eager cleanup removes an entry: only stale regular files,
/// never a fresh one.
pub fn should_remove(entry: &SignalEntry) -> (remove: bool)
    ensures
        remove == stale_entry(*entry),
{
    entry.is_file && !is_fresh(entry.age_secs)
}

/// Cleanup never clears a signal that is still asserted through a fresh
/// entry: an entry that keeps a signal set is never one cleanup removes.
pub proof fn lemma_cleanup_keeps_live(e: SignalEntry)
    ensures
        live_entry(e) ==> !(e.is_file && !fresh_age(e.age_secs)),
{
}

/// A cleanup pass leaves every signal's answer unchanged: removing any of
/// the stale entries of a `.d` directory (all of them, or only those whose
/// removal succeeded), and nothing else, never turns a signal on or off.
/// Plain flag files are never touched by a cleanup.
pub proof fn lemma_cleanup_keeps_signals(
    plain_file: bool,
    before: Seq<SignalEntry>,
    after: Seq<SignalEntry>,
)
    requires
        forall|i: int|
            0 <= i < before.len() && !stale_entry(before[i]) ==> after.contains(
                #[trigger] before[i],
            ),
        forall|j: int| 0 <= j < after.len() ==> before.contains(#[trigger] after[j]),
    ensures
        signal_set(plain_file, before) == signal_set(plain_file, after),
{
    if exists|i: int| 0 <= i < before.len() && live_entry(#[trigger] before[i]) {
        let i = choose|i: int| 0 <= i < before.len() && live_entry(#[trigger] before[i]);
        assert(after.contains(before[i]));
        let j = choose|j: int| 0 <= j < after.len() && after[j] == before[i];
        assert(live_entry(after[j]));
    }
    if exists|j: int| 0 <= j < after.len() && live_entry(#[trigger] after[j]) {
        let j = choose|j: int| 0 <= j < after.len() && live_entry(#[trigger] after[j]);
        assert(before.contains(after[j]));
        let i = choose|i: int| 0 <= i < before.len() && before[i] == after[j];
        assert(live_entry(before[i]));
    }
}

/// A position is selected for removal exactly when it holds a regular
/// file that is not fresh (younger than [`MAX_AGE_SECS`]); positions come
/// in increasing order, each within the entries.
pub proof fn lemma_stale_positions_exact(entries: Seq<SignalEntry>)
    ensures
        forall|i: int|
            0 <= i < entries.len() ==> (stale_positions(entries).contains(i) <==> ((
            #[trigger] entries[i]).is_file && !(entries[i].age_secs matches Some(a) && a
                < MAX_AGE_SECS))),
        forall|k: int|
            0 <= k < stale_positions(entries).len() ==> 0 <= #[trigger] stale_positions(
                entries,
            )[k] < entries.len(),
        forall|k: int, l: int|
            0 <= k < l < stale_positions(entries).len() ==> #[trigger] stale_positions(entries)[k]
                < #[trigger] stale_positions(entries)[l],
    decreases entries.len(),
{
    if entries.len() > 0 {
        let init = entries.drop_last();
        lemma_stale_positions_exact(init);
        let rest = stale_positions(init);
        let all = stale_positions(entries);
        let last = entries.len() - 1;
        assert forall|k: int| 0 <= k < all.len() implies 0 <= #[trigger] all[k] < entries.len() by {
            if k < rest.len() {
                assert(all[k] == rest[k]);
            }
        }
        assert forall|k: int, l: int| 0 <= k < l < all.len() implies #[trigger] all[k]
            < #[trigger] all[l] by {
            assert(all[k] == rest[k]);
            if l < rest.len() {
                assert(all[l] == rest[l]);
            }
        }
        assert forall|i: int| 0 <= i < entries.len() implies (all.contains(i) <==> ((
        #[trigger] entries[i]).is_file && !(entries[i].age_secs matches Some(a) && a
            < MAX_AGE_SECS))) by {
            if i < last {
                assert(init[i] == entries[i]);
                if all.contains(i) {
                    let k = choose|k: int| 0 <= k < all.len() && all[k] == i;
                    if k < rest.len() {
                        assert(rest[k] == i);
                        assert(rest.contains(i));
                    }
                }
                if rest.contains(i) {
                    let k = choose|k: int| 0 <= k < rest.len() && rest[k] == i;
                    assert(all[k] == i);
                }
            } else {
                if all.contains(i) {
                    let k = choose|k: int| 0 <= k < all.len() && all[k] == i;
                    if k < rest.len() {
                        assert(rest[k] < init.len());
                    }
                }
                if stale_entry(entries.last()) {
                    assert(all[all.len() - 1] == i);
                }
            }
        }
    }
}

} // verus!
