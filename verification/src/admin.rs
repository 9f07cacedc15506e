use vstd::prelude::*;

use crate::constants::{MAX_DISPUTE_PAUSE_DURATION_SECS, MAX_INVESTOR_ALLOWLIST_BATCH, MAX_LEGAL_HOLD_REASON_LEN, SCHEMA_VERSION};
use crate::error::EscrowError;
use crate::buckets::{bucket_of, investor_bucket_index};
use crate::escrow::LiquifactEscrow;
use crate::hashing::sha256_of;
use soroban_sdk::Env;
use crate::events::{
    AdminChangeKind, AdminChanged, AdminProposedEvent, AdminTransferredEvent, AllowlistEnabledChanged,
    BeneficiaryRotated, DisputePausedEvt, EscrowArchived, EscrowPaused, Event, FundingCancelled,
    FundingResumedEvent, FundingTargetUpdated, InvestorAllowlistChanged, InvestorRefundedEvt,
    LegalHoldChanged, LegalHoldClearRequested, LegalHoldSet, MaturityUpdatedEvent,
    MaxUniqueInvestorsCapLowered, MigrationDiagnosticEmitted, TokenCacheRevalidated, YieldAutoDistributionDisabled,
    YieldAutoDistributionEnabled,
};
use crate::init::{admin_roles_error, validate_admin_roles};
use crate::math::{clamp_i128, sat_add};
use crate::types::{AccountId, AdminRole, DisputePauseState, InvestorPosition, InvoiceEscrow, Invocation, TokenMetadataCache, Transfer};

verus! {

broadcast use vstd::std_specs::hash::group_hash_axioms;

/// A flag as events carry it: 1 for set, 0 for clear.
pub open spec fn flag(b: bool) -> u32 {
    if b { 1 } else { 0 }
}

pub(crate) fn flag_of(b: bool) -> (r: u32)
    ensures
        r == flag(b),
{
    if b { 1 } else { 0 }
}

impl LiquifactEscrow {
    /// The events of an accepted `set_legal_hold(active, reason)` at `now`: the hold
    /// change with its reason, then the same change with its actor and time.
    pub open spec fn hold_events(self, active: bool, reason: String, now: u64) -> Seq<Event> {
        seq![
            Event::LegalHoldChanged(LegalHoldChanged { invoice_id: self.esc().invoice_id, active: flag(active), reason }),
            Event::LegalHoldSet(LegalHoldSet { invoice_id: self.esc().invoice_id, actor: self.esc().admin, timestamp: now, active: flag(active) }),
        ]
    }

    /// Why the admin gate refuses: the escrow must be initialized and its admin must
    /// hold the full role.
    pub open spec fn admin_gate_error(self) -> Option<EscrowError> {
        if self.escrow is None {
            Some(EscrowError::EscrowNotInitialized)
        } else if !self.has_role(self.esc().admin, AdminRole::Full) {
            Some(EscrowError::InsufficientAdminRole)
        } else {
            None
        }
    }

    /// Pass the admin gate; on success return the admin, whose authorization the
    /// operation then demands.
    pub(crate) fn admin_gate(&self) -> (r: Result<AccountId, EscrowError>)
        ensures
            match r {
                Ok(a) => self.admin_gate_error() is None && a == self.esc().admin,
                Err(e) => self.admin_gate_error() == Some(e),
            },
    {
        let admin = match &self.escrow {
            Some(e) => e.admin,
            None => {
                return Err(EscrowError::EscrowNotInitialized);
            },
        };
        match self.effective_admin_role(admin) {
            Some(role) => if role.level() >= AdminRole::Full.level() {
                Ok(admin)
            } else {
                Err(EscrowError::InsufficientAdminRole)
            },
            None => Err(EscrowError::InsufficientAdminRole),
        }
    }

    /// Whether lifting an active hold is still gated by the clear delay at `now`, and
    /// why: no clear request, or one not yet due.
    pub open spec fn hold_clear_error(self, active: bool, now: u64) -> Option<EscrowError> {
        if !active && self.legal_hold && self.legal_hold_clear_delay > 0 {
            match self.legal_hold_clearable_at {
                None => Some(EscrowError::LegalHoldClearRequestMissing),
                Some(c) => if now < c {
                    Some(EscrowError::LegalHoldClearNotReady)
                } else {
                    None
                },
            }
        } else {
            None
        }
    }

    fn check_hold_clear(&self, active: bool, now: u64) -> (r: Result<(), EscrowError>)
        ensures
            match r {
                Ok(()) => self.hold_clear_error(active, now) is None,
                Err(e) => self.hold_clear_error(active, now) == Some(e),
            },
    {
        if !active && self.legal_hold && self.legal_hold_clear_delay > 0 {
            match self.legal_hold_clearable_at {
                None => {
                    return Err(EscrowError::LegalHoldClearRequestMissing);
                },
                Some(c) => if now < c {
                    return Err(EscrowError::LegalHoldClearNotReady);
                },
            }
        }
        Ok(())
    }

    /// The first guard that refuses `set_legal_hold(active, reason)` at `now`.
    pub open spec fn set_legal_hold_error(self, active: bool, reason: Seq<char>, now: u64) -> Option<EscrowError> {
        if self.admin_gate_error() is Some {
            self.admin_gate_error()
        } else if self.esc().status >= 2 {
            Some(EscrowError::LegalHoldSetOnTerminalEscrow)
        } else if vstd::utf8::encode_utf8(reason).len() > MAX_LEGAL_HOLD_REASON_LEN {
            Some(EscrowError::LegalHoldReasonTooLong)
        } else {
            self.hold_clear_error(active, now)
        }
    }

    /// Set or clear the compliance hold (admin-authorized) on an open or funded escrow.
    /// Lifting an active hold while a clear delay is configured requires a due clear
    /// request. Any pending clear request is consumed; a non-empty reason is kept
    /// while the hold is set.
    pub fn set_legal_hold(&mut self, call: &mut Invocation, active: bool, reason: String) -> (r: Result<(), EscrowError>)
        ensures
            match r {
                Ok(()) => old(self).set_legal_hold_error(active, reason@, old(call).timestamp) is None
                    && *final(self) == (LiquifactEscrow {
                        legal_hold: active,
                        legal_hold_clearable_at: None,
                        legal_hold_reason: if active && reason@.len() > 0 { Some(reason) } else { None },
                        ..*old(self)
                    })
                    && final(call).emits(*old(call), seq![old(self).esc().admin], seq![], old(self).hold_events(active, reason, old(call).timestamp)),
                Err(e) => old(self).set_legal_hold_error(active, reason@, old(call).timestamp) == Some(e)
                    && *final(self) == *old(self) && *final(call) == *old(call),
            },
    {
        let admin = match self.admin_gate() {
            Ok(a) => a,
            Err(e) => {
                return Err(e);
            },
        };
        let e = self.escrow_record();
        if e.status >= 2 {
            return Err(EscrowError::LegalHoldSetOnTerminalEscrow);
        }
        if reason.as_str().as_bytes().len() > MAX_LEGAL_HOLD_REASON_LEN as usize {
            return Err(EscrowError::LegalHoldReasonTooLong);
        }
        match self.check_hold_clear(active, call.timestamp) {
            Ok(()) => {},
            Err(e) => {
                return Err(e);
            },
        }
        let ev1 = Event::LegalHoldChanged(LegalHoldChanged { invoice_id: e.invoice_id.clone(), active: flag_of(active), reason: reason.clone() });
        let ev2 = Event::LegalHoldSet(LegalHoldSet { invoice_id: e.invoice_id.clone(), actor: admin, timestamp: call.timestamp, active: flag_of(active) });
        self.legal_hold_clearable_at = None;
        self.legal_hold = active;
        let keep = active && !reason.as_str().is_empty();
        self.legal_hold_reason = if keep {
            Some(reason)
        } else {
            None
        };
        call.require_auth(admin);
        call.emit(ev1);
        call.emit(ev2);
        assert(call.events@ =~= old(call).events@ + seq![call.events@[old(call).events@.len() as int], call.events@[old(call).events@.len() + 1 as int]]);
        Ok(())
    }

    /// Lift the compliance hold: [`Self::set_legal_hold`] with `active = false` and
    /// an empty reason.
    pub fn clear_legal_hold(&mut self, call: &mut Invocation) -> (r: Result<(), EscrowError>)
        ensures
            match r {
                Ok(()) => old(self).set_legal_hold_error(false, Seq::empty(), old(call).timestamp) is None
                    && *final(self) == (LiquifactEscrow {
                        legal_hold: false,
                        legal_hold_clearable_at: None,
                        legal_hold_reason: None,
                        ..*old(self)
                    })
                    && exists|reason: String| reason@ == Seq::<char>::empty()
                        && final(call).emits(*old(call), seq![old(self).esc().admin], seq![], old(self).hold_events(false, reason, old(call).timestamp)),
                Err(e) => old(self).set_legal_hold_error(false, Seq::empty(), old(call).timestamp) == Some(e)
                    && *final(self) == *old(self) && *final(call) == *old(call),
            },
    {
        let reason = String::new();
        let ghost rg = reason;
        let r = self.set_legal_hold(call, false, reason);
        assert(rg@ =~= Seq::<char>::empty());
        r
    }

    /// The first guard that refuses `request_clear_legal_hold` at `now`.
    pub open spec fn request_clear_error(self, now: u64) -> Option<EscrowError> {
        if self.admin_gate_error() is Some {
            self.admin_gate_error()
        } else if self.legal_hold_clear_delay > 0 && now + self.legal_hold_clear_delay > u64::MAX {
            Some(EscrowError::LegalHoldClearDelayOverflow)
        } else {
            None
        }
    }

    /// Schedule a clear window (admin-authorized): the hold may be lifted from
    /// `now + legal_hold_clear_delay` on.
    pub fn request_clear_legal_hold(&mut self, call: &mut Invocation) -> (r: Result<(), EscrowError>)
        ensures
            match r {
                Ok(()) => old(self).request_clear_error(old(call).timestamp) is None
                    && *final(self) == (LiquifactEscrow {
                        legal_hold_clearable_at: Some((old(call).timestamp + old(self).legal_hold_clear_delay) as u64),
                        ..*old(self)
                    })
                    && (final(call).emits(*old(call), seq![old(self).esc().admin], seq![],
                        seq![Event::LegalHoldClearRequested(LegalHoldClearRequested {
                            invoice_id: old(self).esc().invoice_id,
                            clearable_at: (old(call).timestamp + old(self).legal_hold_clear_delay) as u64,
                        })])),
                Err(e) => old(self).request_clear_error(old(call).timestamp) == Some(e)
                    && *final(self) == *old(self) && *final(call) == *old(call),
            },
    {
        let admin = match self.admin_gate() {
            Ok(a) => a,
            Err(e) => {
                return Err(e);
            },
        };
        let now = call.timestamp;
        let at = if self.legal_hold_clear_delay == 0 {
            now
        } else {
            match now.checked_add(self.legal_hold_clear_delay) {
                Some(t) => t,
                None => {
                    return Err(EscrowError::LegalHoldClearDelayOverflow);
                },
            }
        };
        self.legal_hold_clearable_at = Some(at);
        call.require_auth(admin);
        let e = self.escrow_record();
        call.emit(Event::LegalHoldClearRequested(LegalHoldClearRequested { invoice_id: e.invoice_id, clearable_at: at }));
        Ok(())
    }

    /// Pause or unpause the escrow (admin-authorized). While paused, funding,
    /// settlement, withdrawal, claims, cancellation, refunds, dust sweeps, beneficiary
    /// rotation and the open-escrow updates are refused.
    pub fn set_escrow_paused(&mut self, call: &mut Invocation, paused: bool) -> (r: Result<(), EscrowError>)
        ensures
            match r {
                Ok(()) => old(self).admin_gate_error() is None
                    && *final(self) == (LiquifactEscrow { escrow_paused: paused, ..*old(self) })
                    && (final(call).emits(*old(call), seq![old(self).esc().admin], seq![],
                        seq![Event::EscrowPaused(EscrowPaused {
                            invoice_id: old(self).esc().invoice_id,
                            actor: old(self).esc().admin,
                            timestamp: old(call).timestamp,
                            paused: flag(paused),
                        })])),
                Err(e) => old(self).admin_gate_error() == Some(e)
                    && *final(self) == *old(self) && *final(call) == *old(call),
            },
    {
        let admin = match self.admin_gate() {
            Ok(a) => a,
            Err(e) => {
                return Err(e);
            },
        };
        self.escrow_paused = paused;
        call.require_auth(admin);
        let e = self.escrow_record();
        call.emit(Event::EscrowPaused(EscrowPaused { invoice_id: e.invoice_id, actor: admin, timestamp: call.timestamp, paused: flag_of(paused) }));
        Ok(())
    }

    /// Turn the investor allowlist on or off (admin-authorized).
    pub fn set_allowlist_active(&mut self, call: &mut Invocation, active: bool) -> (r: Result<(), EscrowError>)
        ensures
            match r {
                Ok(()) => old(self).admin_gate_error() is None
                    && *final(self) == (LiquifactEscrow { allowlist_active: active, ..*old(self) })
                    && (final(call).emits(*old(call), seq![old(self).esc().admin], seq![],
                        seq![Event::AllowlistEnabledChanged(AllowlistEnabledChanged { invoice_id: old(self).esc().invoice_id, active: flag(active) })])),
                Err(e) => old(self).admin_gate_error() == Some(e)
                    && *final(self) == *old(self) && *final(call) == *old(call),
            },
    {
        let admin = match self.admin_gate() {
            Ok(a) => a,
            Err(e) => {
                return Err(e);
            },
        };
        self.allowlist_active = active;
        call.require_auth(admin);
        let e = self.escrow_record();
        call.emit(Event::AllowlistEnabledChanged(AllowlistEnabledChanged { invoice_id: e.invoice_id, active: flag_of(active) }));
        Ok(())
    }

    /// The event of turning automatic yield distribution on or off at `now`.
    pub open spec fn auto_distribution_events(self, enabled: bool, now: u64) -> Seq<Event> {
        if enabled {
            seq![Event::YieldAutoDistributionEnabled(YieldAutoDistributionEnabled { invoice_id: self.esc().invoice_id, enabled: true, timestamp: now })]
        } else {
            seq![Event::YieldAutoDistributionDisabled(YieldAutoDistributionDisabled { invoice_id: self.esc().invoice_id, timestamp: now })]
        }
    }

    /// Turn automatic yield distribution on or off (admin-authorized).
    fn set_yield_auto_distribution(&mut self, call: &mut Invocation, enabled: bool) -> (r: Result<(), EscrowError>)
        ensures
            match r {
                Ok(()) => old(self).admin_gate_error() is None
                    && *final(self) == (LiquifactEscrow { yield_auto_distribution: enabled, ..*old(self) })
                    && final(call).emits(*old(call), seq![old(self).esc().admin], seq![], old(self).auto_distribution_events(enabled, old(call).timestamp)),
                Err(e) => old(self).admin_gate_error() == Some(e)
                    && *final(self) == *old(self) && *final(call) == *old(call),
            },
    {
        let admin = match self.admin_gate() {
            Ok(a) => a,
            Err(e) => {
                return Err(e);
            },
        };
        self.yield_auto_distribution = enabled;
        call.require_auth(admin);
        let e = self.escrow_record();
        if enabled {
            call.emit(Event::YieldAutoDistributionEnabled(YieldAutoDistributionEnabled { invoice_id: e.invoice_id, enabled: true, timestamp: call.timestamp }));
        } else {
            call.emit(Event::YieldAutoDistributionDisabled(YieldAutoDistributionDisabled { invoice_id: e.invoice_id, timestamp: call.timestamp }));
        }
        Ok(())
    }

    /// Enable automatic yield distribution (admin-authorized).
    pub fn enable_yield_auto_distribution(&mut self, call: &mut Invocation) -> (r: Result<(), EscrowError>)
        ensures
            match r {
                Ok(()) => old(self).admin_gate_error() is None
                    && *final(self) == (LiquifactEscrow { yield_auto_distribution: true, ..*old(self) })
                    && final(call).emits(*old(call), seq![old(self).esc().admin], seq![], old(self).auto_distribution_events(true, old(call).timestamp)),
                Err(e) => old(self).admin_gate_error() == Some(e)
                    && *final(self) == *old(self) && *final(call) == *old(call),
            },
    {
        self.set_yield_auto_distribution(call, true)
    }

    /// Disable automatic yield distribution (admin-authorized).
    pub fn disable_yield_auto_distribution(&mut self, call: &mut Invocation) -> (r: Result<(), EscrowError>)
        ensures
            match r {
                Ok(()) => old(self).admin_gate_error() is None
                    && *final(self) == (LiquifactEscrow { yield_auto_distribution: false, ..*old(self) })
                    && final(call).emits(*old(call), seq![old(self).esc().admin], seq![], old(self).auto_distribution_events(false, old(call).timestamp)),
                Err(e) => old(self).admin_gate_error() == Some(e)
                    && *final(self) == *old(self) && *final(call) == *old(call),
            },
    {
        self.set_yield_auto_distribution(call, false)
    }

    /// Lift a funding pause (automatic or manual), admin-authorized.
    pub fn resume_funding(&mut self, call: &mut Invocation) -> (r: Result<(), EscrowError>)
        ensures
            match r {
                Ok(()) => old(self).admin_gate_error() is None
                    && *final(self) == (LiquifactEscrow { funding_paused: false, ..*old(self) })
                    && (final(call).emits(*old(call), seq![old(self).esc().admin], seq![],
                        seq![Event::FundingResumedEvent(FundingResumedEvent {
                            invoice_id: old(self).esc().invoice_id,
                            max_funding_rate: match old(self).max_funding_rate {
                                Some(r) => r,
                                None => 0,
                            },
                        })])),
                Err(e) => old(self).admin_gate_error() == Some(e)
                    && *final(self) == *old(self) && *final(call) == *old(call),
            },
    {
        let admin = match self.admin_gate() {
            Ok(a) => a,
            Err(e) => {
                return Err(e);
            },
        };
        self.funding_paused = false;
        call.require_auth(admin);
        let e = self.escrow_record();
        let rate: u64 = match self.max_funding_rate {
            Some(r) => r,
            None => 0,
        };
        call.emit(Event::FundingResumedEvent(FundingResumedEvent { invoice_id: e.invoice_id, max_funding_rate: rate }));
        Ok(())
    }

    /// Set the per-ledger funding cap (admin-authorized); the running total restarts
    /// in the current ledger.
    pub fn set_max_funding_rate(&mut self, call: &mut Invocation, new_rate: u64) -> (r: Result<(), EscrowError>)
        ensures
            match r {
                Ok(()) => old(self).admin_gate_error() is None
                    && *final(self) == (LiquifactEscrow {
                        max_funding_rate: Some(new_rate),
                        last_fund_ledger: old(call).sequence,
                        current_ledger_funded: 0,
                        ..*old(self)
                    })
                    && (final(call).emits(*old(call), seq![old(self).esc().admin], seq![],
                        seq![Event::FundingResumedEvent(FundingResumedEvent { invoice_id: old(self).esc().invoice_id, max_funding_rate: new_rate })])),
                Err(e) => old(self).admin_gate_error() == Some(e)
                    && *final(self) == *old(self) && *final(call) == *old(call),
            },
    {
        let admin = match self.admin_gate() {
            Ok(a) => a,
            Err(e) => {
                return Err(e);
            },
        };
        self.max_funding_rate = Some(new_rate);
        self.last_fund_ledger = call.sequence;
        self.current_ledger_funded = 0;
        call.require_auth(admin);
        let e = self.escrow_record();
        call.emit(Event::FundingResumedEvent(FundingResumedEvent { invoice_id: e.invoice_id, max_funding_rate: new_rate }));
        Ok(())
    }

    /// Allow or disallow `investor` (admin-authorized).
    pub fn set_investor_allowlisted(&mut self, call: &mut Invocation, investor: AccountId, allowed: bool) -> (r: Result<(), EscrowError>)
        ensures
            match r {
                Ok(()) => old(self).admin_gate_error() is None
                    && *final(self) == (LiquifactEscrow { investors: final(self).investors, ..*old(self) })
                    && final(self).investors@ == old(self).investors@.insert(investor, InvestorPosition { allowlisted: allowed, ..old(self).pos(investor) })
                    && (final(call).emits(*old(call), seq![old(self).esc().admin], seq![],
                        seq![Event::InvestorAllowlistChanged(InvestorAllowlistChanged { invoice_id: old(self).esc().invoice_id, investor, allowed: flag(allowed) })])),
                Err(e) => old(self).admin_gate_error() == Some(e)
                    && *final(self) == *old(self) && *final(call) == *old(call),
            },
    {
        let admin = match self.admin_gate() {
            Ok(a) => a,
            Err(e) => {
                return Err(e);
            },
        };
        let mut p = self.investor_position(investor);
        p.allowlisted = allowed;
        self.set_position(investor, p);
        call.require_auth(admin);
        let e = self.escrow_record();
        call.emit(Event::InvestorAllowlistChanged(InvestorAllowlistChanged { invoice_id: e.invoice_id, investor, allowed: flag_of(allowed) }));
        Ok(())
    }

    /// The first guard that refuses an allowlist batch of `n` addresses.
    pub open spec fn allowlist_batch_error(self, n: int) -> Option<EscrowError> {
        if self.admin_gate_error() is Some {
            self.admin_gate_error()
        } else if n == 0 {
            Some(EscrowError::InvestorBatchEmpty)
        } else if n > MAX_INVESTOR_ALLOWLIST_BATCH {
            Some(EscrowError::InvestorBatchTooLarge)
        } else {
            None
        }
    }

    /// `new`'s investor positions are this escrow's with every address of `xs` allowed
    /// (or disallowed): such an address gains a position if it had none.
    pub open spec fn allowlist_batch_applied(self, new: Self, xs: Seq<AccountId>, allowed: bool) -> bool {
        &&& forall|x: AccountId| #[trigger] new.investors@.contains_key(x) <==> self.investors@.contains_key(x) || xs.contains(x)
        &&& forall|x: AccountId| #[trigger] new.pos(x) == if xs.contains(x) {
            InvestorPosition { allowlisted: allowed, ..self.pos(x) }
        } else {
            self.pos(x)
        }
    }

    /// One allowlist change event per address of `xs`, in order.
    pub open spec fn allowlist_events(self, xs: Seq<AccountId>, allowed: bool) -> Seq<Event> {
        xs.map_values(|x: AccountId| Event::InvestorAllowlistChanged(InvestorAllowlistChanged { invoice_id: self.esc().invoice_id, investor: x, allowed: flag(allowed) }))
    }

    /// Allow or disallow every address of `investors` (admin-authorized), with the
    /// same end state as one [`Self::set_investor_allowlisted`] call per address.
    pub fn set_investors_allowlisted(&mut self, call: &mut Invocation, investors: &Vec<AccountId>, allowed: bool) -> (r: Result<(), EscrowError>)
        ensures
            match r {
                Ok(()) => old(self).allowlist_batch_error(investors@.len() as int) is None
                    && *final(self) == (LiquifactEscrow { investors: final(self).investors, ..*old(self) })
                    && old(self).allowlist_batch_applied(*final(self), investors@, allowed)
                    && final(call).emits(*old(call), seq![old(self).esc().admin], seq![], old(self).allowlist_events(investors@, allowed)),
                Err(e) => old(self).allowlist_batch_error(investors@.len() as int) == Some(e)
                    && *final(self) == *old(self) && *final(call) == *old(call),
            },
    {
        let admin = match self.admin_gate() {
            Ok(a) => a,
            Err(e) => {
                return Err(e);
            },
        };
        let n = investors.len();
        if n == 0 {
            return Err(EscrowError::InvestorBatchEmpty);
        }
        if n > MAX_INVESTOR_ALLOWLIST_BATCH as usize {
            return Err(EscrowError::InvestorBatchTooLarge);
        }
        let ghost g = *self;
        let e = self.escrow_record();
        let fl = flag_of(allowed);
        let mut evs: Vec<Event> = Vec::new();
        let mut i: usize = 0;
        while i < n
            invariant
                n == investors@.len(),
                0 <= i <= n,
                e == g.esc(),
                fl == flag(allowed),
                evs@ == g.allowlist_events(investors@.take(i as int), allowed),
                *self == (LiquifactEscrow { investors: self.investors, ..g }),
                forall|x: AccountId| #[trigger] self.investors@.contains_key(x) <==> g.investors@.contains_key(x) || investors@.take(i as int).contains(x),
                forall|x: AccountId| #[trigger] self.pos(x) == if investors@.take(i as int).contains(x) {
                    InvestorPosition { allowlisted: allowed, ..g.pos(x) }
                } else {
                    g.pos(x)
                },
            decreases n - i,
        {
            let x = investors[i];
            let ghost pre = *self;
            evs.push(Event::InvestorAllowlistChanged(InvestorAllowlistChanged { invoice_id: e.invoice_id.clone(), investor: x, allowed: fl }));
            assert(evs@ =~= g.allowlist_events(investors@.take(i + 1), allowed));
            let mut p = self.investor_position(x);
            p.allowlisted = allowed;
            self.set_position(x, p);
            proof {
                let t0 = investors@.take(i as int);
                let t1 = investors@.take(i + 1);
                assert(t1 =~= t0.push(x));
                assert forall|y: AccountId| t1.contains(y) <==> t0.contains(y) || y == x by {
                    if t0.contains(y) {
                        let k = choose|k: int| 0 <= k < t0.len() && t0[k] == y;
                        assert(t1[k] == y);
                    }
                    if y == x {
                        assert(t1[i as int] == x);
                    }
                    if t1.contains(y) && y != x {
                        let k = choose|k: int| 0 <= k < t1.len() && t1[k] == y;
                        assert(t0[k] == y);
                    }
                }
                assert forall|y: AccountId| #[trigger] self.pos(y) == if t1.contains(y) {
                    InvestorPosition { allowlisted: allowed, ..g.pos(y) }
                } else {
                    g.pos(y)
                } by {
                    assert(pre.pos(y) == if t0.contains(y) {
                        InvestorPosition { allowlisted: allowed, ..g.pos(y) }
                    } else {
                        g.pos(y)
                    });
                }
                assert forall|y: AccountId| #[trigger] self.investors@.contains_key(y) <==> g.investors@.contains_key(y) || t1.contains(y) by {
                    assert(pre.investors@.contains_key(y) <==> g.investors@.contains_key(y) || t0.contains(y));
                }
            }
            i += 1;
        }
        assert(investors@.take(n as int) =~= investors@);
        call.require_auth(admin);
        call.emit_all(evs);
        Ok(())
    }

    /// The first guard that refuses `update_funding_target(new_target)`.
    pub open spec fn update_target_error(self, new_target: i128) -> Option<EscrowError> {
        if self.escrow_paused {
            Some(EscrowError::EscrowIsPaused)
        } else if self.admin_gate_error() is Some {
            self.admin_gate_error()
        } else if new_target <= 0 {
            Some(EscrowError::TargetNotPositive)
        } else if self.esc().status != 0 {
            Some(EscrowError::TargetUpdateNotOpen)
        } else if new_target < self.esc().funded_amount {
            Some(EscrowError::TargetBelowFundedAmount)
        } else {
            None
        }
    }

    /// Change the funding target of an open escrow (admin-authorized); it may not drop
    /// below the principal already funded.
    pub fn update_funding_target(&mut self, call: &mut Invocation, new_target: i128) -> (r: Result<InvoiceEscrow, EscrowError>)
        ensures
            match r {
                Ok(e) => old(self).update_target_error(new_target) is None
                    && *final(self) == (LiquifactEscrow {
                        escrow: Some(InvoiceEscrow { funding_target: new_target, ..old(self).esc() }),
                        ..*old(self)
                    })
                    && e == final(self).esc()
                    && (final(call).emits(*old(call), seq![old(self).esc().admin], seq![],
                        seq![Event::FundingTargetUpdated(FundingTargetUpdated {
                            invoice_id: e.invoice_id,
                            old_target: old(self).esc().funding_target,
                            new_target,
                        })])),
                Err(e) => old(self).update_target_error(new_target) == Some(e)
                    && *final(self) == *old(self) && *final(call) == *old(call),
            },
    {
        if self.escrow_paused {
            return Err(EscrowError::EscrowIsPaused);
        }
        let admin = match self.admin_gate() {
            Ok(a) => a,
            Err(e) => {
                return Err(e);
            },
        };
        let mut e = self.escrow_record();
        if new_target <= 0 {
            return Err(EscrowError::TargetNotPositive);
        }
        if e.status != 0 {
            return Err(EscrowError::TargetUpdateNotOpen);
        }
        if new_target < e.funded_amount {
            return Err(EscrowError::TargetBelowFundedAmount);
        }
        let old_target = e.funding_target;
        e.funding_target = new_target;
        let ev = Event::FundingTargetUpdated(FundingTargetUpdated { invoice_id: e.invoice_id.clone(), old_target, new_target });
        self.escrow = Some(e);
        call.require_auth(admin);
        call.emit(ev);
        Ok(self.escrow_record())
    }

    /// The first guard that refuses `lower_max_unique_investors(new_cap)`.
    pub open spec fn lower_cap_error(self, new_cap: u32) -> Option<EscrowError> {
        if self.escrow_paused {
            Some(EscrowError::EscrowIsPaused)
        } else if self.admin_gate_error() is Some {
            self.admin_gate_error()
        } else if self.esc().status != 0 {
            Some(EscrowError::CapLowerNotOpen)
        } else if self.max_unique_investors_cap is None {
            Some(EscrowError::NoInvestorCapConfigured)
        } else if new_cap >= self.max_unique_investors_cap->Some_0 {
            Some(EscrowError::NewCapNotLower)
        } else if new_cap < self.unique_funder_count {
            Some(EscrowError::NewCapBelowCurrentFunderCount)
        } else {
            None
        }
    }

    /// Lower the distinct-investor cap of an open escrow (admin-authorized). It can
    /// neither be raised nor imposed where none was configured, nor go below the number
    /// of investors already funded. Returns the new cap.
    pub fn lower_max_unique_investors(&mut self, call: &mut Invocation, new_cap: u32) -> (r: Result<u32, EscrowError>)
        ensures
            match r {
                Ok(c) => old(self).lower_cap_error(new_cap) is None && c == new_cap
                    && *final(self) == (LiquifactEscrow { max_unique_investors_cap: Some(new_cap), ..*old(self) })
                    && (final(call).emits(*old(call), seq![old(self).esc().admin], seq![],
                        seq![Event::MaxUniqueInvestorsCapLowered(MaxUniqueInvestorsCapLowered {
                            invoice_id: old(self).esc().invoice_id,
                            old_cap: old(self).max_unique_investors_cap->Some_0,
                            new_cap,
                        })])),
                Err(e) => old(self).lower_cap_error(new_cap) == Some(e)
                    && *final(self) == *old(self) && *final(call) == *old(call),
            },
    {
        if self.escrow_paused {
            return Err(EscrowError::EscrowIsPaused);
        }
        let admin = match self.admin_gate() {
            Ok(a) => a,
            Err(e) => {
                return Err(e);
            },
        };
        let e = self.escrow_record();
        if e.status != 0 {
            return Err(EscrowError::CapLowerNotOpen);
        }
        let old_cap = match self.max_unique_investors_cap {
            Some(c) => c,
            None => {
                return Err(EscrowError::NoInvestorCapConfigured);
            },
        };
        if new_cap >= old_cap {
            return Err(EscrowError::NewCapNotLower);
        }
        if new_cap < self.unique_funder_count {
            return Err(EscrowError::NewCapBelowCurrentFunderCount);
        }
        self.max_unique_investors_cap = Some(new_cap);
        call.require_auth(admin);
        call.emit(Event::MaxUniqueInvestorsCapLowered(MaxUniqueInvestorsCapLowered { invoice_id: e.invoice_id, old_cap, new_cap }));
        Ok(new_cap)
    }

    /// The first guard that refuses `update_maturity`.
    pub open spec fn update_maturity_error(self) -> Option<EscrowError> {
        if self.escrow_paused {
            Some(EscrowError::EscrowIsPaused)
        } else if self.admin_gate_error() is Some {
            self.admin_gate_error()
        } else if self.esc().status != 0 {
            Some(EscrowError::MaturityUpdateNotOpen)
        } else {
            None
        }
    }

    /// Change the maturity of an open escrow (admin-authorized); 0 removes the lock.
    pub fn update_maturity(&mut self, call: &mut Invocation, new_maturity: u64) -> (r: Result<InvoiceEscrow, EscrowError>)
        ensures
            match r {
                Ok(e) => old(self).update_maturity_error() is None
                    && *final(self) == (LiquifactEscrow {
                        escrow: Some(InvoiceEscrow { maturity: new_maturity, ..old(self).esc() }),
                        ..*old(self)
                    })
                    && e == final(self).esc()
                    && (final(call).emits(*old(call), seq![old(self).esc().admin], seq![],
                        seq![Event::MaturityUpdatedEvent(MaturityUpdatedEvent {
                            invoice_id: e.invoice_id,
                            old_maturity: old(self).esc().maturity,
                            new_maturity,
                        })])),
                Err(e) => old(self).update_maturity_error() == Some(e)
                    && *final(self) == *old(self) && *final(call) == *old(call),
            },
    {
        if self.escrow_paused {
            return Err(EscrowError::EscrowIsPaused);
        }
        let admin = match self.admin_gate() {
            Ok(a) => a,
            Err(e) => {
                return Err(e);
            },
        };
        let mut e = self.escrow_record();
        if e.status != 0 {
            return Err(EscrowError::MaturityUpdateNotOpen);
        }
        let old_maturity = e.maturity;
        e.maturity = new_maturity;
        let ev = Event::MaturityUpdatedEvent(MaturityUpdatedEvent { invoice_id: e.invoice_id.clone(), old_maturity, new_maturity });
        self.escrow = Some(e);
        call.require_auth(admin);
        call.emit(ev);
        Ok(self.escrow_record())
    }

    /// The first guard that refuses `cancel_funding`.
    pub open spec fn cancel_error(self) -> Option<EscrowError> {
        if self.legal_hold {
            Some(EscrowError::LegalHoldBlocksCancelFunding)
        } else if self.escrow_paused {
            Some(EscrowError::EscrowIsPaused)
        } else if self.admin_gate_error() is Some {
            self.admin_gate_error()
        } else if self.esc().status != 0 {
            Some(EscrowError::CancelFundingNotOpen)
        } else {
            None
        }
    }

    /// Cancel an open escrow (admin-authorized): status becomes cancelled (4) and
    /// investors may then recover their principal with [`Self::refund`].
    pub fn cancel_funding(&mut self, call: &mut Invocation) -> (r: Result<InvoiceEscrow, EscrowError>)
        ensures
            match r {
                Ok(e) => old(self).cancel_error() is None
                    && *final(self) == (LiquifactEscrow {
                        escrow: Some(InvoiceEscrow { status: 4, ..old(self).esc() }),
                        ..*old(self)
                    })
                    && e == final(self).esc()
                    && (final(call).emits(*old(call), seq![old(self).esc().admin], seq![],
                        seq![Event::FundingCancelled(FundingCancelled { invoice_id: e.invoice_id, funded_amount: e.funded_amount })])),
                Err(e) => old(self).cancel_error() == Some(e)
                    && *final(self) == *old(self) && *final(call) == *old(call),
            },
    {
        if self.legal_hold {
            return Err(EscrowError::LegalHoldBlocksCancelFunding);
        }
        if self.escrow_paused {
            return Err(EscrowError::EscrowIsPaused);
        }
        let admin = match self.admin_gate() {
            Ok(a) => a,
            Err(e) => {
                return Err(e);
            },
        };
        let mut e = self.escrow_record();
        if e.status != 0 {
            return Err(EscrowError::CancelFundingNotOpen);
        }
        e.status = 4;
        let ev = Event::FundingCancelled(FundingCancelled { invoice_id: e.invoice_id.clone(), funded_amount: e.funded_amount });
        self.escrow = Some(e);
        call.require_auth(admin);
        call.emit(ev);
        Ok(self.escrow_record())
    }

    /// The first guard that refuses `refund(investor)`.
    pub open spec fn refund_error(self, investor: AccountId) -> Option<EscrowError> {
        if self.escrow_paused {
            Some(EscrowError::EscrowIsPaused)
        } else if self.escrow is None {
            Some(EscrowError::EscrowNotInitialized)
        } else if self.esc().status != 4 {
            Some(EscrowError::RefundNotCancelled)
        } else if self.pos(investor).contribution <= 0 {
            Some(EscrowError::NoContributionToRefund)
        } else if self.funding_token is None {
            Some(EscrowError::FundingTokenNotSet)
        } else {
            None
        }
    }

    /// The state after `investor` is refunded: its contribution is zeroed, it is marked
    /// refunded, and the amount counts as distributed principal. The contribution
    /// buckets are stated apart (see [`Self::bucket_debited`]).
    pub open spec fn refunded_state(self, new: Self, investor: AccountId) -> bool {
        let p = self.pos(investor);
        &&& new == (LiquifactEscrow {
            investors: new.investors,
            buckets: new.buckets,
            distributed_principal: clamp_i128(self.distributed_principal + p.contribution),
            ..self
        })
        &&& new.investors@ == self.investors@.insert(investor, InvestorPosition { contribution: 0, refunded: true, ..p })
    }

    /// Return `investor`'s principal from a cancelled escrow (investor-authorized):
    /// the whole contribution is transferred back and zeroed, so a second refund is
    /// refused; it leaves the bucket of the investor, whose address bytes are
    /// `investor_key`.
    pub fn refund(&mut self, call: &mut Invocation, investor: AccountId, investor_key: &Vec<u8>, env: &Env) -> (r: Result<(), EscrowError>)
        ensures
            match r {
                Ok(()) => old(self).refund_error(investor) is None
                    && old(self).refunded_state(*final(self), investor)
                    && old(self).bucket_debited(*final(self), bucket_of(sha256_of(investor_key@)), old(self).pos(investor).contribution)
                    && (final(call).emits(*old(call), seq![investor], seq![Transfer { to: investor, amount: old(self).pos(investor).contribution }],
                        seq![Event::InvestorRefundedEvt(InvestorRefundedEvt {
                            investor,
                            invoice_id: old(self).esc().invoice_id,
                            amount: old(self).pos(investor).contribution,
                        })])),
                Err(e) => old(self).refund_error(investor) == Some(e)
                    && *final(self) == *old(self) && *final(call) == *old(call),
            },
    {
        if self.escrow_paused {
            return Err(EscrowError::EscrowIsPaused);
        }
        if self.escrow.is_none() {
            return Err(EscrowError::EscrowNotInitialized);
        }
        let e = self.escrow_record();
        if e.status != 4 {
            return Err(EscrowError::RefundNotCancelled);
        }
        let mut p = self.investor_position(investor);
        let amount = p.contribution;
        if amount <= 0 {
            return Err(EscrowError::NoContributionToRefund);
        }
        if self.funding_token.is_none() {
            return Err(EscrowError::FundingTokenNotSet);
        }
        let bucket = investor_bucket_index(env, investor_key);
        p.contribution = 0;
        p.refunded = true;
        self.set_position(investor, p);
        self.distributed_principal = sat_add(self.distributed_principal, amount);
        let ghost mid = *self;
        self.debit_bucket(bucket, amount);
        assert(self.investors == mid.investors);
        call.require_auth(investor);
        call.push_transfer(investor, amount);
        assert(call.auths@ =~= old(call).auths@ + seq![investor]);
        call.emit(Event::InvestorRefundedEvt(InvestorRefundedEvt { investor, invoice_id: e.invoice_id, amount }));
        Ok(())
    }

    /// The first guard that refuses `propose_admin(new_admin)`.
    pub open spec fn propose_admin_error(self, new_admin: AccountId) -> Option<EscrowError> {
        if self.admin_gate_error() is Some {
            self.admin_gate_error()
        } else if self.esc().admin == new_admin {
            Some(EscrowError::NewAdminSameAsCurrent)
        } else {
            None
        }
    }

    /// The events of proposing `new_admin` at `now`: the proposal, then the handover
    /// record.
    pub open spec fn propose_events(self, new_admin: AccountId, now: u64) -> Seq<Event> {
        let e = self.esc();
        seq![
            Event::AdminProposedEvent(AdminProposedEvent { invoice_id: e.invoice_id, current_admin: e.admin, pending_admin: new_admin }),
            Event::AdminChanged(AdminChanged {
                invoice_id: e.invoice_id,
                actor: e.admin,
                timestamp: now,
                kind: AdminChangeKind::Proposed,
                old_admin: e.admin,
                new_admin,
            }),
        ]
    }

    /// Propose `new_admin` as successor (current admin-authorized); authority moves
    /// only once the successor calls [`Self::accept_admin`]. Returns `new_admin`.
    pub fn propose_admin(&mut self, call: &mut Invocation, new_admin: AccountId) -> (r: Result<AccountId, EscrowError>)
        ensures
            match r {
                Ok(a) => old(self).propose_admin_error(new_admin) is None && a == new_admin
                    && *final(self) == (LiquifactEscrow { pending_admin: Some(new_admin), ..*old(self) })
                    && final(call).emits(*old(call), seq![old(self).esc().admin], seq![], old(self).propose_events(new_admin, old(call).timestamp)),
                Err(e) => old(self).propose_admin_error(new_admin) == Some(e)
                    && *final(self) == *old(self) && *final(call) == *old(call),
            },
    {
        let admin = match self.admin_gate() {
            Ok(a) => a,
            Err(e) => {
                return Err(e);
            },
        };
        if admin == new_admin {
            return Err(EscrowError::NewAdminSameAsCurrent);
        }
        self.pending_admin = Some(new_admin);
        call.require_auth(admin);
        let e = self.escrow_record();
        call.emit(Event::AdminProposedEvent(AdminProposedEvent { invoice_id: e.invoice_id.clone(), current_admin: admin, pending_admin: new_admin }));
        call.emit(Event::AdminChanged(AdminChanged {
            invoice_id: e.invoice_id,
            actor: admin,
            timestamp: call.timestamp,
            kind: AdminChangeKind::Proposed,
            old_admin: admin,
            new_admin,
        }));
        assert(call.events@ =~= old(call).events@ + seq![call.events@[old(call).events@.len() as int], call.events@[old(call).events@.len() + 1 as int]]);
        Ok(new_admin)
    }

    /// Former one-step transfer: now only proposes `new_admin` (see
    /// [`Self::propose_admin`]) and returns the unchanged escrow record.
    pub fn transfer_admin(&mut self, call: &mut Invocation, new_admin: AccountId) -> (r: Result<InvoiceEscrow, EscrowError>)
        ensures
            match r {
                Ok(e) => old(self).propose_admin_error(new_admin) is None
                    && *final(self) == (LiquifactEscrow { pending_admin: Some(new_admin), ..*old(self) })
                    && e == final(self).esc()
                    && final(call).emits(*old(call), seq![old(self).esc().admin], seq![], old(self).propose_events(new_admin, old(call).timestamp)),
                Err(e) => old(self).propose_admin_error(new_admin) == Some(e)
                    && *final(self) == *old(self) && *final(call) == *old(call),
            },
    {
        match self.propose_admin(call, new_admin) {
            Ok(_) => Ok(self.escrow_record()),
            Err(e) => Err(e),
        }
    }

    /// The first guard that refuses `accept_admin`.
    pub open spec fn accept_admin_error(self) -> Option<EscrowError> {
        if self.pending_admin is None {
            Some(EscrowError::NoPendingAdmin)
        } else if self.escrow is None {
            Some(EscrowError::EscrowNotInitialized)
        } else {
            None
        }
    }

    /// The proposed successor accepts (successor-authorized): it becomes the admin and
    /// the proposal is cleared.
    pub fn accept_admin(&mut self, call: &mut Invocation) -> (r: Result<InvoiceEscrow, EscrowError>)
        ensures
            match r {
                Ok(e) => old(self).accept_admin_error() is None
                    && *final(self) == (LiquifactEscrow {
                        escrow: Some(InvoiceEscrow { admin: old(self).pending_admin->Some_0, ..old(self).esc() }),
                        pending_admin: None,
                        ..*old(self)
                    })
                    && e == final(self).esc()
                    && (final(call).emits(*old(call), seq![old(self).pending_admin->Some_0], seq![], seq![
                        Event::AdminTransferredEvent(AdminTransferredEvent { invoice_id: e.invoice_id, new_admin: e.admin }),
                        Event::AdminChanged(AdminChanged {
                            invoice_id: e.invoice_id,
                            actor: e.admin,
                            timestamp: old(call).timestamp,
                            kind: AdminChangeKind::Accepted,
                            old_admin: old(self).esc().admin,
                            new_admin: e.admin,
                        }),
                    ])),
                Err(e) => old(self).accept_admin_error() == Some(e)
                    && *final(self) == *old(self) && *final(call) == *old(call),
            },
    {
        let pending = match self.pending_admin {
            Some(p) => p,
            None => {
                return Err(EscrowError::NoPendingAdmin);
            },
        };
        if self.escrow.is_none() {
            return Err(EscrowError::EscrowNotInitialized);
        }
        let mut e = self.escrow_record();
        let prior = e.admin;
        e.admin = pending;
        let ev1 = Event::AdminTransferredEvent(AdminTransferredEvent { invoice_id: e.invoice_id.clone(), new_admin: pending });
        let ev2 = Event::AdminChanged(AdminChanged {
            invoice_id: e.invoice_id.clone(),
            actor: pending,
            timestamp: call.timestamp,
            kind: AdminChangeKind::Accepted,
            old_admin: prior,
            new_admin: pending,
        });
        self.escrow = Some(e);
        self.pending_admin = None;
        call.require_auth(pending);
        call.emit(ev1);
        call.emit(ev2);
        assert(call.events@ =~= old(call).events@ + seq![call.events@[old(call).events@.len() as int], call.events@[old(call).events@.len() + 1 as int]]);
        Ok(self.escrow_record())
    }

    /// The first guard that refuses `pause_dispute(ticket_id, duration_secs)` at `now`.
    pub open spec fn pause_dispute_error(self, ticket_id: Seq<char>, duration_secs: u64, now: u64) -> Option<EscrowError> {
        if ticket_id.len() == 0 {
            Some(EscrowError::DisputeTicketIdEmpty)
        } else if duration_secs == 0 {
            Some(EscrowError::DisputePauseDurationNotPositive)
        } else if duration_secs > MAX_DISPUTE_PAUSE_DURATION_SECS {
            Some(EscrowError::DisputePauseDurationExceedsMax)
        } else if self.admin_gate_error() is Some {
            self.admin_gate_error()
        } else if now + duration_secs > u64::MAX {
            Some(EscrowError::LedgerTimestampOverflow)
        } else {
            None
        }
    }

    /// Pause the escrow for a dispute (admin-authorized) for `duration_secs`: funding,
    /// settlement, withdrawal and claims are refused until it expires or is resumed.
    pub fn pause_dispute(&mut self, call: &mut Invocation, ticket_id: String, duration_secs: u64) -> (r: Result<(), EscrowError>)
        ensures
            match r {
                Ok(()) => old(self).pause_dispute_error(ticket_id@, duration_secs, old(call).timestamp) is None
                    && *final(self) == (LiquifactEscrow {
                        dispute_pause: Some(DisputePauseState {
                            ticket_id,
                            paused_at_ledger_timestamp: old(call).timestamp,
                            expires_at_ledger_timestamp: (old(call).timestamp + duration_secs) as u64,
                        }),
                        ..*old(self)
                    })
                    && (final(call).emits(*old(call), seq![old(self).esc().admin], seq![],
                        seq![Event::DisputePausedEvt(DisputePausedEvt {
                            invoice_id: old(self).esc().invoice_id,
                            ticket_id,
                            action: 1,
                            paused_at: old(call).timestamp,
                            expires_at: (old(call).timestamp + duration_secs) as u64,
                        })])),
                Err(e) => old(self).pause_dispute_error(ticket_id@, duration_secs, old(call).timestamp) == Some(e)
                    && *final(self) == *old(self) && *final(call) == *old(call),
            },
    {
        if ticket_id.as_str().is_empty() {
            return Err(EscrowError::DisputeTicketIdEmpty);
        }
        if duration_secs == 0 {
            return Err(EscrowError::DisputePauseDurationNotPositive);
        }
        if duration_secs > MAX_DISPUTE_PAUSE_DURATION_SECS {
            return Err(EscrowError::DisputePauseDurationExceedsMax);
        }
        let admin = match self.admin_gate() {
            Ok(a) => a,
            Err(e) => {
                return Err(e);
            },
        };
        let now = call.timestamp;
        let expires = match now.checked_add(duration_secs) {
            Some(t) => t,
            None => {
                return Err(EscrowError::LedgerTimestampOverflow);
            },
        };
        let e = self.escrow_record();
        let ev = Event::DisputePausedEvt(DisputePausedEvt {
            invoice_id: e.invoice_id,
            ticket_id: ticket_id.clone(),
            action: 1,
            paused_at: now,
            expires_at: expires,
        });
        self.dispute_pause = Some(DisputePauseState {
            ticket_id,
            paused_at_ledger_timestamp: now,
            expires_at_ledger_timestamp: expires,
        });
        call.require_auth(admin);
        call.emit(ev);
        Ok(())
    }

    /// The first guard that refuses `resume_dispute`.
    pub open spec fn resume_dispute_error(self) -> Option<EscrowError> {
        if self.admin_gate_error() is Some {
            self.admin_gate_error()
        } else if self.dispute_pause is None {
            Some(EscrowError::NoPauseActive)
        } else {
            None
        }
    }

    /// Lift a dispute pause (admin-authorized).
    pub fn resume_dispute(&mut self, call: &mut Invocation) -> (r: Result<(), EscrowError>)
        ensures
            match r {
                Ok(()) => old(self).resume_dispute_error() is None
                    && *final(self) == (LiquifactEscrow { dispute_pause: None, ..*old(self) })
                    && (final(call).emits(*old(call), seq![old(self).esc().admin], seq![],
                        seq![Event::DisputePausedEvt(DisputePausedEvt {
                            invoice_id: old(self).esc().invoice_id,
                            ticket_id: old(self).dispute_pause->Some_0.ticket_id,
                            action: 0,
                            paused_at: old(self).dispute_pause->Some_0.paused_at_ledger_timestamp,
                            expires_at: old(call).timestamp,
                        })])),
                Err(e) => old(self).resume_dispute_error() == Some(e)
                    && *final(self) == *old(self) && *final(call) == *old(call),
            },
    {
        let admin = match self.admin_gate() {
            Ok(a) => a,
            Err(e) => {
                return Err(e);
            },
        };
        let ev = match &self.dispute_pause {
            Some(st) => {
                let e = self.escrow_record();
                Event::DisputePausedEvt(DisputePausedEvt {
                    invoice_id: e.invoice_id,
                    ticket_id: st.ticket_id.clone(),
                    action: 0,
                    paused_at: st.paused_at_ledger_timestamp,
                    expires_at: call.timestamp,
                })
            },
            None => {
                return Err(EscrowError::NoPauseActive);
            },
        };
        self.dispute_pause = None;
        call.require_auth(admin);
        call.emit(ev);
        Ok(())
    }

    /// The first guard that refuses `rotate_beneficiary(new_sme)`.
    pub open spec fn rotate_error(self, new_sme: AccountId) -> Option<EscrowError> {
        if self.legal_hold {
            Some(EscrowError::LegalHoldBlocksBeneficiaryRotation)
        } else if self.escrow_paused {
            Some(EscrowError::EscrowIsPaused)
        } else if self.escrow is None {
            Some(EscrowError::EscrowNotInitialized)
        } else if !(self.esc().status == 0 || self.esc().status == 1) {
            Some(EscrowError::RotationNotOpen)
        } else if new_sme == self.esc().sme_address {
            Some(EscrowError::NewSmeSameAsCurrent)
        } else {
            None
        }
    }

    /// Replace the SME (beneficiary) before settlement; both the current SME and the
    /// admin must authorize.
    pub fn rotate_beneficiary(&mut self, call: &mut Invocation, new_sme_address: AccountId) -> (r: Result<InvoiceEscrow, EscrowError>)
        ensures
            match r {
                Ok(e) => old(self).rotate_error(new_sme_address) is None
                    && *final(self) == (LiquifactEscrow {
                        escrow: Some(InvoiceEscrow { sme_address: new_sme_address, ..old(self).esc() }),
                        ..*old(self)
                    })
                    && e == final(self).esc()
                    && (final(call).emits(*old(call), seq![old(self).esc().sme_address, old(self).esc().admin], seq![],
                        seq![Event::BeneficiaryRotated(BeneficiaryRotated {
                            invoice_id: e.invoice_id,
                            prior_sme: old(self).esc().sme_address,
                            new_sme: new_sme_address,
                        })])),
                Err(e) => old(self).rotate_error(new_sme_address) == Some(e)
                    && *final(self) == *old(self) && *final(call) == *old(call),
            },
    {
        if self.legal_hold {
            return Err(EscrowError::LegalHoldBlocksBeneficiaryRotation);
        }
        if self.escrow_paused {
            return Err(EscrowError::EscrowIsPaused);
        }
        if self.escrow.is_none() {
            return Err(EscrowError::EscrowNotInitialized);
        }
        let mut e = self.escrow_record();
        if !(e.status == 0 || e.status == 1) {
            return Err(EscrowError::RotationNotOpen);
        }
        if new_sme_address == e.sme_address {
            return Err(EscrowError::NewSmeSameAsCurrent);
        }
        let sme = e.sme_address;
        let admin = e.admin;
        e.sme_address = new_sme_address;
        let ev = Event::BeneficiaryRotated(BeneficiaryRotated { invoice_id: e.invoice_id.clone(), prior_sme: sme, new_sme: new_sme_address });
        self.escrow = Some(e);
        call.require_auth(sme);
        call.require_auth(admin);
        assert(call.auths@ =~= old(call).auths@ + seq![sme, admin]);
        assert(call.transfers@ =~= old(call).transfers@ + Seq::<Transfer>::empty());
        call.emit(ev);
        Ok(self.escrow_record())
    }

    /// Replace the admin role table (admin-authorized); the table must hold 1 to
    /// `MAX_ADMIN_ROLES` entries with distinct addresses.
    pub fn set_admin_roles(&mut self, call: &mut Invocation, roles: Vec<(AccountId, AdminRole)>) -> (r: Result<(), EscrowError>)
        ensures
            match r {
                Ok(()) => old(self).admin_gate_error() is None && admin_roles_error(roles@) is None
                    && *final(self) == (LiquifactEscrow { admin_roles: Some(roles), ..*old(self) })
                    && final(call).extends(*old(call), seq![old(self).esc().admin], seq![]),
                Err(e) => (if old(self).admin_gate_error() is Some {
                        old(self).admin_gate_error() == Some(e)
                    } else {
                        admin_roles_error(roles@) == Some(e)
                    })
                    && *final(self) == *old(self) && *final(call) == *old(call),
            },
    {
        let admin = match self.admin_gate() {
            Ok(a) => a,
            Err(e) => {
                return Err(e);
            },
        };
        match validate_admin_roles(&roles) {
            Ok(()) => {},
            Err(e) => {
                return Err(e);
            },
        }
        self.admin_roles = Some(roles);
        call.require_auth(admin);
        Ok(())
    }

    /// Set or clear the sanctions screening provider (admin-authorized).
    pub fn set_sanctions_provider(&mut self, call: &mut Invocation, provider: Option<AccountId>) -> (r: Result<(), EscrowError>)
        ensures
            match r {
                Ok(()) => old(self).admin_gate_error() is None
                    && *final(self) == (LiquifactEscrow { sanctions_provider: provider, ..*old(self) })
                    && final(call).extends(*old(call), seq![old(self).esc().admin], seq![]),
                Err(e) => old(self).admin_gate_error() == Some(e)
                    && *final(self) == *old(self) && *final(call) == *old(call),
            },
    {
        let admin = match self.admin_gate() {
            Ok(a) => a,
            Err(e) => {
                return Err(e);
            },
        };
        self.sanctions_provider = provider;
        call.require_auth(admin);
        Ok(())
    }

    /// The first guard that refuses `revalidate_token_cache`.
    pub open spec fn revalidate_error(self) -> Option<EscrowError> {
        if self.admin_gate_error() is Some {
            self.admin_gate_error()
        } else if self.funding_token is None {
            Some(EscrowError::FundingTokenNotSet)
        } else {
            None
        }
    }

    /// Refresh the cached token metadata (admin-authorized) with `decimals`, as the
    /// host read them from the funding token now.
    pub fn revalidate_token_cache(&mut self, call: &mut Invocation, decimals: u32) -> (r: Result<TokenMetadataCache, EscrowError>)
        ensures
            match r {
                Ok(c) => old(self).revalidate_error() is None
                    && c == (TokenMetadataCache { decimals, cached_at_ledger_timestamp: old(call).timestamp, cached_at_ledger_sequence: old(call).sequence })
                    && *final(self) == (LiquifactEscrow { token_cache: Some(c), ..*old(self) })
                    && (final(call).emits(*old(call), seq![old(self).esc().admin], seq![],
                        seq![Event::TokenCacheRevalidated(TokenCacheRevalidated {
                            invoice_id: old(self).esc().invoice_id,
                            decimals,
                            revalidated_ledger_timestamp: old(call).timestamp,
                        })])),
                Err(e) => old(self).revalidate_error() == Some(e)
                    && *final(self) == *old(self) && *final(call) == *old(call),
            },
    {
        let admin = match self.admin_gate() {
            Ok(a) => a,
            Err(e) => {
                return Err(e);
            },
        };
        if self.funding_token.is_none() {
            return Err(EscrowError::FundingTokenNotSet);
        }
        let c = TokenMetadataCache { decimals, cached_at_ledger_timestamp: call.timestamp, cached_at_ledger_sequence: call.sequence };
        self.token_cache = Some(c);
        call.require_auth(admin);
        let e = self.escrow_record();
        call.emit(Event::TokenCacheRevalidated(TokenCacheRevalidated { invoice_id: e.invoice_id, decimals, revalidated_ledger_timestamp: c.cached_at_ledger_timestamp }));
        Ok(c)
    }

    /// The first guard that refuses `archive_escrow`.
    pub open spec fn archive_error(self) -> Option<EscrowError> {
        if self.admin_gate_error() is Some {
            self.admin_gate_error()
        } else if self.esc().status == 5 {
            None
        } else if !(self.esc().status == 2 || self.esc().status == 3 || self.esc().status == 4) {
            Some(EscrowError::ArchiveNotTerminal)
        } else {
            None
        }
    }

    /// Archive a terminal escrow (admin-authorized): status becomes archived (5);
    /// archiving again changes nothing.
    pub fn archive_escrow(&mut self, call: &mut Invocation) -> (r: Result<InvoiceEscrow, EscrowError>)
        ensures
            match r {
                Ok(e) => old(self).archive_error() is None
                    && *final(self) == (LiquifactEscrow {
                        escrow: Some(InvoiceEscrow { status: 5, ..old(self).esc() }),
                        ..*old(self)
                    })
                    && e == final(self).esc()
                    && final(call).emits(*old(call), seq![old(self).esc().admin], seq![], if old(self).esc().status == 5 {
                        seq![]
                    } else {
                        seq![Event::EscrowArchived(EscrowArchived {
                            invoice_id: e.invoice_id,
                            prior_status: old(self).esc().status,
                            archived_at_ledger_timestamp: old(call).timestamp,
                        })]
                    }),
                Err(e) => old(self).archive_error() == Some(e)
                    && *final(self) == *old(self) && *final(call) == *old(call),
            },
    {
        let admin = match self.admin_gate() {
            Ok(a) => a,
            Err(e) => {
                return Err(e);
            },
        };
        let mut e = self.escrow_record();
        let mut evs: Vec<Event> = Vec::new();
        if e.status != 5 {
            if !(e.status == 2 || e.status == 3 || e.status == 4) {
                return Err(EscrowError::ArchiveNotTerminal);
            }
            let prior_status = e.status;
            e.status = 5;
            evs.push(Event::EscrowArchived(EscrowArchived {
                invoice_id: e.invoice_id.clone(),
                prior_status,
                archived_at_ledger_timestamp: call.timestamp,
            }));
            self.escrow = Some(e);
        }
        call.require_auth(admin);
        call.emit_all(evs);
        Ok(self.escrow_record())
    }

    /// Why `migrate(from_version)` is refused: no migration path is implemented, so
    /// every call is refused once the admin gate passes.
    pub open spec fn migrate_error(self, from_version: u32) -> EscrowError {
        if self.admin_gate_error() is Some {
            self.admin_gate_error()->Some_0
        } else if self.version != from_version {
            EscrowError::MigrationVersionMismatch
        } else if from_version >= SCHEMA_VERSION {
            EscrowError::AlreadyCurrentSchemaVersion
        } else {
            EscrowError::NoMigrationPath
        }
    }

    /// What `migrate(from_version)` publishes before it is refused: once the admin gate
    /// passes, the stored, requested and target schema versions.
    pub open spec fn migrate_diagnostics(self, from_version: u32) -> Seq<Event> {
        if self.admin_gate_error() is None {
            seq![Event::MigrationDiagnosticEmitted(MigrationDiagnosticEmitted {
                invoice_id: self.esc().invoice_id,
                stored_version: self.version,
                from_version,
                target_version: SCHEMA_VERSION,
            })]
        } else {
            seq![]
        }
    }

    /// Validate the stored schema version against `from_version`. No migration is
    /// implemented, so the call always ends in a typed error and changes nothing; once
    /// the admin gate passes it first publishes the version diagnostic.
    pub fn migrate(&mut self, call: &mut Invocation, from_version: u32) -> (r: Result<u32, EscrowError>)
        ensures
            r == Err::<u32, EscrowError>(old(self).migrate_error(from_version)),
            *final(self) == *old(self),
            final(call).emits(*old(call), seq![], seq![], old(self).migrate_diagnostics(from_version)),
    {
        let mut evs: Vec<Event> = Vec::new();
        match self.admin_gate() {
            Ok(_) => {},
            Err(e) => {
                call.emit_all(evs);
                return Err(e);
            },
        }
        let e = self.escrow_record();
        evs.push(Event::MigrationDiagnosticEmitted(MigrationDiagnosticEmitted {
            invoice_id: e.invoice_id,
            stored_version: self.version,
            from_version,
            target_version: SCHEMA_VERSION,
        }));
        call.emit_all(evs);
        if self.version != from_version {
            Err(EscrowError::MigrationVersionMismatch)
        } else if from_version >= SCHEMA_VERSION {
            Err(EscrowError::AlreadyCurrentSchemaVersion)
        } else {
            Err(EscrowError::NoMigrationPath)
        }
    }
}

} // verus!
