//! Sleep inhibition via systemd-logind. `Inhibit()` hands back a file
//! descriptor; holding it open is the inhibition, and dropping it
//! releases the lock (the kernel also closes it when the process dies).

use crate::providers::dbus::{call_inhibit, connect, logind_manager, object_proxy};
use vstd::prelude::*;
use zbus::zvariant::OwnedFd;

verus! {

/// The arguments of logind's `Inhibit(what, who, why, mode)`.
pub struct InhibitRequest {
    pub what: String,
    pub who: String,
    pub why: String,
    pub mode: String,
}

/// The model of an [`InhibitRequest`].
pub struct InhibitRequestView {
    pub what: Seq<char>,
    pub who: Seq<char>,
    pub why: Seq<char>,
    pub mode: Seq<char>,
}

impl View for InhibitRequest {
    type V = InhibitRequestView;

    open spec fn view(&self) -> InhibitRequestView {
        InhibitRequestView { what: self.what@, who: self.who@, why: self.why@, mode: self.mode@ }
    }
}

/// The request made for `reason`: block sleep, as `plasma-keepawaked`.
pub open spec fn request_for(reason: Seq<char>) -> InhibitRequestView {
    InhibitRequestView {
        what: "sleep"@,
        who: "plasma-keepawaked"@,
        why: reason,
        mode: "block"@,
    }
}

/// The request this daemon makes: block sleep, as `plasma-keepawaked`,
/// for `reason`.
pub fn inhibit_request(reason: &str) -> (request: InhibitRequest)
    ensures
        request@ == request_for(reason@),
{
    InhibitRequest {
        what: "sleep".to_string(),
        who: "plasma-keepawaked".to_string(),
        why: reason.to_string(),
        mode: "block".to_string(),
    }
}

/// Sends `request` to [`logind_manager`]'s `Inhibit`; the returned file
/// descriptor holds the inhibitor. `None` when logind cannot be reached
/// or refuses.
pub fn acquire(request: &InhibitRequest) -> Option<OwnedFd> {
    let manager = logind_manager();
    let conn = connect(manager.bus)?;
    let proxy = object_proxy(&conn, &manager)?;
    call_inhibit(
        &proxy,
        request.what.as_str(),
        request.who.as_str(),
        request.why.as_str(),
        request.mode.as_str(),
    )
}

/// What a reconcile does.
pub enum ReconcileAction {
    Acquire,
    Release,
    Keep,
}

/// The action for holding `held` when asked `should`: acquire exactly when
/// released and asked to inhibit, release exactly when held and not asked,
/// keep otherwise.
pub open spec fn action_for(held: bool, should: bool) -> ReconcileAction {
    if !held && should {
        ReconcileAction::Acquire
    } else if held && !should {
        ReconcileAction::Release
    } else {
        ReconcileAction::Keep
    }
}

/// Decides what a reconcile does.
pub fn reconcile_action(held: bool, should: bool) -> (action: ReconcileAction)
    ensures
        action == action_for(held, should),
{
    if !held && should {
        ReconcileAction::Acquire
    } else if held && !should {
        ReconcileAction::Release
    } else {
        ReconcileAction::Keep
    }
}

/// The held logind inhibitor, if any, with the request it was granted for.
pub struct Inhibitor {
    held: Option<(OwnedFd, InhibitRequest)>,
}

impl Inhibitor {
    /// Whether an inhibitor is currently held.
    pub closed spec fn holding(&self) -> bool {
        self.held is Some
    }

    /// The request the held inhibitor was granted for.
    pub closed spec fn held_request(&self) -> Option<InhibitRequestView> {
        match self.held {
            Some((_, request)) => Some(request@),
            None => None,
        }
    }

    /// Starts out holding nothing.
    pub fn new() -> (res: Self)
        ensures
            !res.holding(),
            res.held_request() is None,
    {
        Inhibitor { held: None }
    }

    /// Whether an inhibitor is currently held.
    pub fn is_held(&self) -> (held: bool)
        ensures
            held == self.holding(),
    {
        self.held.is_some()
    }

    /// The reason the held inhibitor was granted for, if one is held.
    pub fn held_reason(&self) -> (reason: Option<&String>)
        ensures
            match reason {
                Some(r) => self.held_request() matches Some(q) && q.why == r@,
                None => !self.holding(),
            },
    {
        match &self.held {
            Some((_, request)) => Some(&request.why),
            None => None,
        }
    }

    /// Takes logind's answer to `request`: a granted descriptor is held,
    /// together with the request, from then on (any previously held one is
    /// dropped); a refusal changes nothing. Returns whether holding
    /// changed: a grant to a released inhibitor always is a change.
    pub fn take_grant(&mut self, request: InhibitRequest, granted: Option<OwnedFd>) -> (changed: bool)
        ensures
            granted is Some ==> final(self).holding() && final(self).held_request() == Some(request@)
                && changed == !old(self).holding(),
            granted is None ==> *final(self) == *old(self) && !changed,
    {
        match granted {
            Some(fd) => {
                let was_held = self.held.is_some();
                self.held = Some((fd, request));
                !was_held
            },
            None => false,
        }
    }

    /// Acquires the inhibitor if `should_inhibit` and none is held yet, or
    /// releases it if one is held and `should_inhibit` is now false.
    /// Returns whether the held/released state actually changed. When
    /// logind cannot be reached the inhibitor stays released. A held
    /// inhibitor that is still wanted is left exactly as it is (its reason
    /// is not refreshed).
    pub fn reconcile(&mut self, should_inhibit: bool, reason: &str) -> (changed: bool)
        ensures
            reconcile_step(old(self).holding(), final(self).holding(), should_inhibit, changed),
            action_for(old(self).holding(), should_inhibit) == ReconcileAction::Keep ==> !changed
                && *final(self) == *old(self),
            action_for(old(self).holding(), should_inhibit) == ReconcileAction::Release ==> changed
                && !final(self).holding() && final(self).held_request() is None,
            action_for(old(self).holding(), should_inhibit) == ReconcileAction::Acquire ==> (if final(self).holding() {
                final(self).held_request() == Some(request_for(reason@))
            } else {
                *final(self) == *old(self)
            }),
            action_for(old(self).holding(), should_inhibit) == ReconcileAction::Acquire ==> exists|
                request: InhibitRequest,
                granted: Option<OwnedFd>,
            |
                request@ == request_for(reason@) && call_ensures(acquire, (&request,), granted) && (
                granted is Some <==> final(self).holding()) && (granted is Some <==> changed),
    {
        match reconcile_action(self.held.is_some(), should_inhibit) {
            ReconcileAction::Acquire => {
                let request = inhibit_request(reason);
                let granted = acquire(&request);
                let ghost sent = request;
                let ghost answer = granted;
                let changed = self.take_grant(request, granted);
                assert(call_ensures(acquire, (&sent,), answer));
                changed
            },
            ReconcileAction::Release => {
                self.held = None;
                true
            },
            ReconcileAction::Keep => false,
        }
    }
}

/// What one reconcile may do, from holding `before` to holding `after`
/// when asked `should`: it reports a change exactly when holding changed,
/// always ends released when not asked to inhibit, and keeps a held
/// inhibitor while asked to inhibit. (Acquiring may fail, so a request to
/// inhibit from released may leave it released.)
pub open spec fn reconcile_step(before: bool, after: bool, should: bool, changed: bool) -> bool {
    &&& changed == (after != before)
    &&& !should ==> !after
    &&& before && should ==> after
}

/// A reconcile that is asked for what is already the case changes nothing
/// and reports no change, so the caller logs transitions only.
pub proof fn lemma_reconcile_settled(before: bool, after: bool, should: bool, changed: bool)
    requires
        reconcile_step(before, after, should, changed),
        before == should,
    ensures
        !changed,
        after == before,
{
}

/// Releasing always succeeds, and a second release reports no change.
pub proof fn lemma_release_idempotent(
    h0: bool,
    h1: bool,
    c1: bool,
    h2: bool,
    c2: bool,
)
    requires
        reconcile_step(h0, h1, false, c1),
        reconcile_step(h1, h2, false, c2),
    ensures
        !h1,
        !h2,
        c1 == h0,
        !c2,
{
}

/// An inhibitor is held after a reconcile only if that reconcile was asked
/// to inhibit: sleep is never blocked once no enabled rule is true.
pub proof fn lemma_held_only_when_asked(before: bool, after: bool, should: bool, changed: bool)
    requires
        reconcile_step(before, after, should, changed),
        after,
    ensures
        should,
{
}

/// A reconcile right after one that got what it asked for has nothing to
/// do: it keeps the inhibitor exactly as it is, whatever its reason.
pub proof fn lemma_second_reconcile_keeps(before: bool, after: bool, should: bool, changed: bool)
    requires
        reconcile_step(before, after, should, changed),
        after == should,
    ensures
        action_for(after, should) == ReconcileAction::Keep,
{
}

} // verus!
