use vstd::prelude::*;

use crate::constants::{MAX_INVESTOR_HISTORY_ENTRIES, MAX_REINVESTMENT_AUDIT_ENTRIES};
use crate::error::EscrowError;
use crate::escrow::LiquifactEscrow;
use crate::events::{
    BatchInvestorPayoutsClaimed, DiagnosticContext, ErrorDiagnosticEmitted, Event, InvestorPayoutClaimed, YieldClaimDelegationRevoked,
    YieldClaimDelegationSet, YieldReinvested, YieldSlippageWarning,
};
use crate::math::{clamp_i128, coupon_split, sat_add, sat_sub, split_coupon};
use crate::reports::{clamp_i64, health_events, health_events_of};
use crate::types::{
    AccountId, Checkpoint, Deposit, InvestorFundingRecord, InvestorPosition, Invocation, InvoiceEscrow,
    ReinvestmentAuditEntry,
};

verus! {

broadcast use vstd::std_specs::hash::group_hash_axioms;

/// The index of the last entry of `log[..n]` recorded for `who`, if any.
pub open spec fn last_entry_of(log: Seq<ReinvestmentAuditEntry>, who: AccountId, n: int) -> Option<int>
    decreases n,
{
    if n <= 0 {
        None
    } else if log[n - 1].investor == who {
        Some(n - 1)
    } else {
        last_entry_of(log, who, n - 1)
    }
}

proof fn lemma_last_entry_bounds(log: Seq<ReinvestmentAuditEntry>, who: AccountId, n: int)
    ensures
        last_entry_of(log, who, n) matches Some(j) ==> 0 <= j < n && log[j].investor == who,
    decreases n,
{
    if n > 0 && log[n - 1].investor != who {
        lemma_last_entry_bounds(log, who, n - 1);
    }
}

impl LiquifactEscrow {
    /// Pro-rata gross payout of `investor`, or the error that computing it raises:
    ///
    /// ```text
    /// coupon       = total_principal * yield_bps / 10_000         (truncated)
    /// fee          = coupon * fee_percentage / 10_000             (only when both > 0)
    /// settle_pool  = total_principal + (coupon - fee)
    /// gross_payout = contribution * settle_pool / total_principal (truncated)
    /// ```
    ///
    /// `total_principal` comes from the funding-close snapshot and `yield_bps` is the
    /// investor's fixed yield (else the base yield). The payout is 0 for a zero
    /// contribution, without a snapshot or a positive total, or for a non-positive
    /// pool.
    pub open spec fn payout_result(self, investor: AccountId) -> Result<i128, EscrowError> {
        let p = self.pos(investor);
        let c = p.contribution;
        if c == 0 {
            Ok(0)
        } else if c + p.reinvested_amount > i128::MAX || c + p.reinvested_amount < i128::MIN {
            Err(EscrowError::ComputePayoutArithmeticOverflow)
        } else {
            match self.funding_close_snapshot {
                None => Ok(0),
                Some(s) => if s.total_principal <= 0 {
                    Ok(0)
                } else if self.escrow is None {
                    Err(EscrowError::EscrowNotInitialized)
                } else {
                    let y = match p.effective_yield_bps {
                        Some(y) => y,
                        None => self.esc().yield_bps,
                    };
                    match coupon_split(s.total_principal, y, self.fee_percentage) {
                        None => Err(EscrowError::ComputePayoutArithmeticOverflow),
                        Some(gf) => {
                            let pool = s.total_principal + clamp_i128(gf.0 - gf.1);
                            if pool > i128::MAX || pool < i128::MIN {
                                Err(EscrowError::ComputePayoutArithmeticOverflow)
                            } else if pool <= 0 {
                                Ok(0)
                            } else {
                                match c.checked_mul(pool as i128) {
                                    None => Err(EscrowError::ComputePayoutArithmeticOverflow),
                                    Some(m) => match m.checked_div(s.total_principal) {
                                        Some(q) => Ok(q),
                                        None => Err(EscrowError::ComputePayoutArithmeticOverflow),
                                    },
                                }
                            }
                        }
                    }
                }
            }
        }
    }

    /// Pro-rata gross payout of `investor` (see [`Self::payout_result`]).
    pub fn compute_investor_payout(&self, investor: AccountId) -> (r: Result<i128, EscrowError>)
        ensures
            r == self.payout_result(investor),
    {
        let p = self.investor_position(investor);
        let c = p.contribution;
        if c == 0 {
            return Ok(0);
        }
        if c.checked_add(p.reinvested_amount).is_none() {
            return Err(EscrowError::ComputePayoutArithmeticOverflow);
        }
        let s = match self.funding_close_snapshot {
            Some(s) => s,
            None => {
                return Ok(0);
            },
        };
        if s.total_principal <= 0 {
            return Ok(0);
        }
        let base = match &self.escrow {
            Some(e) => e.yield_bps,
            None => {
                return Err(EscrowError::EscrowNotInitialized);
            },
        };
        let y = match p.effective_yield_bps {
            Some(y) => y,
            None => base,
        };
        let (gross, fee) = match split_coupon(s.total_principal, y, self.fee_percentage) {
            Some(gf) => gf,
            None => {
                return Err(EscrowError::ComputePayoutArithmeticOverflow);
            },
        };
        let pool = match s.total_principal.checked_add(sat_sub(gross, fee)) {
            Some(v) => v,
            None => {
                return Err(EscrowError::ComputePayoutArithmeticOverflow);
            },
        };
        if pool <= 0 {
            return Ok(0);
        }
        match c.checked_mul(pool) {
            None => Err(EscrowError::ComputePayoutArithmeticOverflow),
            Some(m) => match m.checked_div(s.total_principal) {
                Some(q) => Ok(q),
                None => Err(EscrowError::ComputePayoutArithmeticOverflow),
            },
        }
    }

    /// Whether the escrow accepts payout claims: settled (2), or funded (1) with some
    /// principal already settled.
    pub open spec fn claims_open(self) -> bool {
        self.esc().status == 2 || (self.esc().status == 1 && self.settled_amount > 0)
    }

    /// Yield that a claim of `investor` folds into reinvested principal (0 unless the
    /// investor elected reinvestment and the payout exceeds the contribution).
    pub open spec fn claim_reinvest_yield(self, investor: AccountId) -> i128 {
        let p = self.pos(investor);
        match self.payout_result(investor) {
            Ok(payout) => if p.reinvest_elected && clamp_i128(payout - p.contribution) > 0 {
                clamp_i128(payout - p.contribution)
            } else {
                0
            },
            Err(_) => 0,
        }
    }

    /// `investor`'s yield (its fixed yield, else the base yield).
    pub open spec fn actual_yield(self, investor: AccountId) -> i64 {
        match self.pos(investor).effective_yield_bps {
            Some(v) => v,
            None => self.esc().yield_bps,
        }
    }

    /// How far `investor`'s yield lies from the base yield, in bps (saturated).
    pub open spec fn yield_deviation(self, investor: AccountId) -> i64 {
        let d = self.actual_yield(investor) - self.esc().yield_bps;
        clamp_i64(if d < 0 { -d } else { d })
    }

    /// The slippage warning published when a claim of `investor` finds its yield
    /// further from the base yield than the configured threshold (none when the
    /// threshold is 0).
    pub open spec fn slippage_events(self, investor: AccountId) -> Seq<Event> {
        let t = self.yield_slippage_threshold;
        if t != 0 && self.yield_deviation(investor) > t {
            seq![Event::YieldSlippageWarning(YieldSlippageWarning {
                investor,
                invoice_id: self.esc().invoice_id,
                expected_yield_bps: self.esc().yield_bps,
                actual_yield_bps: self.actual_yield(investor),
                slippage_threshold_bps: t,
                deviation_bps: self.yield_deviation(investor),
            })]
        } else {
            seq![]
        }
    }

    /// Build [`Self::slippage_events`].
    fn slippage_events_of(&self, investor: AccountId) -> (r: Vec<Event>)
        requires
            self.escrow is Some,
        ensures
            r@ == self.slippage_events(investor),
    {
        let mut r: Vec<Event> = Vec::new();
        let t = self.yield_slippage_threshold;
        if t == 0 {
            return r;
        }
        let e = match &self.escrow {
            Some(e) => e,
            None => {
                return r;
            },
        };
        let actual = match self.investor_position(investor).effective_yield_bps {
            Some(v) => v,
            None => e.yield_bps,
        };
        let d: i128 = actual as i128 - e.yield_bps as i128;
        let ad: i128 = if d < 0 { -d } else { d };
        let dev: i64 = if ad > i64::MAX as i128 { i64::MAX } else { ad as i64 };
        if dev > t {
            r.push(Event::YieldSlippageWarning(YieldSlippageWarning {
                investor,
                invoice_id: e.invoice_id.clone(),
                expected_yield_bps: e.yield_bps,
                actual_yield_bps: actual,
                slippage_threshold_bps: t,
                deviation_bps: dev,
            }));
            assert(r@ =~= self.slippage_events(investor));
        }
        r
    }

    /// The events of an accepted claim of `investor` at `now`: none for a repeated
    /// claim; otherwise the reinvestment record when yield is folded into principal,
    /// the slippage warning, the claim record, then the escrow's health warning.
    pub open spec fn claim_events(self, investor: AccountId, now: u64) -> Seq<Event> {
        let p = self.pos(investor);
        let e = self.esc();
        let y = self.claim_reinvest_yield(investor);
        if p.claimed {
            seq![]
        } else {
            (if y > 0 {
                seq![Event::YieldReinvested(YieldReinvested {
                    investor,
                    invoice_id: e.invoice_id,
                    reinvested_amount: y,
                    new_total_principal: clamp_i128(p.reinvested_amount + y + p.contribution),
                })]
            } else {
                seq![]
            }) + self.slippage_events(investor) + seq![Event::InvestorPayoutClaimed(InvestorPayoutClaimed { investor, invoice_id: e.invoice_id })]
                + health_events(e, now)
        }
    }

    /// The first guard that refuses `claim_investor_payout(investor)` at ledger time
    /// `now`. An already-claimed investor is accepted and nothing changes.
    pub open spec fn claim_error(self, investor: AccountId, now: u64) -> Option<EscrowError> {
        let p = self.pos(investor);
        if self.legal_hold {
            Some(EscrowError::LegalHoldBlocksInvestorClaims)
        } else if self.escrow_paused {
            Some(EscrowError::EscrowIsPaused)
        } else if self.dispute_active(now) {
            Some(EscrowError::DisputePausedBlocksInvestorClaims)
        } else if p.contribution <= 0 {
            Some(EscrowError::NoContributionToClaim)
        } else if self.escrow is None {
            Some(EscrowError::EscrowNotInitialized)
        } else if !self.claims_open() {
            Some(EscrowError::InvestorClaimNotSettled)
        } else if p.lock_in_until > 0 && now < p.lock_in_until {
            Some(EscrowError::InvestorStillInLockIn)
        } else if now < p.claim_not_before {
            Some(EscrowError::InvestorCommitmentLockNotExpired)
        } else if p.claimed {
            None
        } else if self.payout_result(investor) is Err {
            Some(self.payout_result(investor)->Err_0)
        } else if self.claim_reinvest_yield(investor) > 0 && p.reinvested_amount
            + self.claim_reinvest_yield(investor) > i128::MAX {
            Some(EscrowError::ComputePayoutArithmeticOverflow)
        } else {
            None
        }
    }

    /// What a refused claim publishes before it fails: the time left when the investor
    /// is still in the lock-in period or before the end of the commitment lock, nothing
    /// for any other refusal.
    pub open spec fn claim_diagnostics(self, investor: AccountId, now: u64) -> Seq<Event> {
        let p = self.pos(investor);
        let err = self.claim_error(investor, now);
        if err == Some(EscrowError::InvestorStillInLockIn) {
            seq![Event::ErrorDiagnosticEmitted(ErrorDiagnosticEmitted {
                error_code: EscrowError::InvestorStillInLockIn.spec_code(),
                context: DiagnosticContext::LockIn { seconds_remaining: (p.lock_in_until - now) as u64 },
            })]
        } else if err == Some(EscrowError::InvestorCommitmentLockNotExpired) {
            seq![Event::ErrorDiagnosticEmitted(ErrorDiagnosticEmitted {
                error_code: EscrowError::InvestorCommitmentLockNotExpired.spec_code(),
                context: DiagnosticContext::CommitmentLock {
                    not_before: p.claim_not_before,
                    seconds_remaining: (p.claim_not_before - now) as u64,
                },
            })]
        } else {
            seq![]
        }
    }

    /// The state after an accepted claim of `investor`: the investor is marked claimed;
    /// reinvestable yield (see [`Self::claim_reinvest_yield`]) is added to the
    /// investor's reinvested principal and recorded in the audit log. A repeated claim
    /// changes nothing.
    pub open spec fn claimed_state(self, new: Self, investor: AccountId, now: u64, seq: u32) -> bool {
        let p = self.pos(investor);
        let y = self.claim_reinvest_yield(investor);
        if p.claimed {
            new == self
        } else {
            &&& new == (LiquifactEscrow {
                investors: new.investors,
                reinvestment_audit_log: new.reinvestment_audit_log,
                ..self
            })
            &&& new.investors@ == self.investors@.insert(
                investor,
                InvestorPosition { claimed: true, reinvested_amount: (p.reinvested_amount + y) as i128, ..p },
            )
            &&& new.reinvestment_audit_log@ == if y > 0 {
                self.claim_audit_log(investor, y, now, seq)
            } else {
                self.reinvestment_audit_log@
            }
        }
    }

    /// The audit log after a claim folds `y` of reinvested yield for `investor`: the
    /// investor's latest entry records `y`; without one, a new entry is appended while
    /// the log has room.
    pub open spec fn claim_audit_log(self, investor: AccountId, y: i128, now: u64, seq: u32) -> Seq<ReinvestmentAuditEntry> {
        let log = self.reinvestment_audit_log@;
        match last_entry_of(log, investor, log.len() as int) {
            Some(j) => log.update(j, ReinvestmentAuditEntry { reinvested_amount: y, ..log[j] }),
            None => if log.len() < MAX_REINVESTMENT_AUDIT_ENTRIES {
                log.push(
                    ReinvestmentAuditEntry {
                        investor,
                        invoice_id: self.esc().invoice_id,
                        target_escrow: None,
                        reinvested_amount: y,
                        elected_at_ledger_timestamp: now,
                        elected_at_ledger_sequence: seq,
                    },
                )
            } else {
                log
            },
        }
    }

    /// Record the reinvested yield `y` of `investor` in the audit log.
    fn fold_into_audit_log(&mut self, investor: AccountId, y: i128, now: u64, seq: u32)
        requires
            old(self).escrow is Some,
        ensures
            *final(self) == (LiquifactEscrow { reinvestment_audit_log: final(self).reinvestment_audit_log, ..*old(self) }),
            final(self).reinvestment_audit_log@ == old(self).claim_audit_log(investor, y, now, seq),
    {
        let n = self.reinvestment_audit_log.len();
        let mut k: usize = n;
        let mut found: Option<usize> = None;
        while k > 0 && found.is_none()
            invariant
                k <= n,
                n == self.reinvestment_audit_log@.len(),
                found is None ==> last_entry_of(self.reinvestment_audit_log@, investor, n as int)
                    == last_entry_of(self.reinvestment_audit_log@, investor, k as int),
                found matches Some(j) ==> last_entry_of(self.reinvestment_audit_log@, investor, n as int) == Some(j as int),
            decreases k,
        {
            if self.reinvestment_audit_log[k - 1].investor == investor {
                found = Some(k - 1);
            }
            k -= 1;
        }
        proof {
            lemma_last_entry_bounds(self.reinvestment_audit_log@, investor, n as int);
        }
        match found {
            Some(j) => {
                self.reinvestment_audit_log[j].reinvested_amount = y;
            },
            None => {
                if n < MAX_REINVESTMENT_AUDIT_ENTRIES as usize {
                    let e = self.escrow_record();
                    self.reinvestment_audit_log.push(
                        ReinvestmentAuditEntry {
                            investor,
                            invoice_id: e.invoice_id,
                            target_escrow: None,
                            reinvested_amount: y,
                            elected_at_ledger_timestamp: now,
                            elected_at_ledger_sequence: seq,
                        },
                    );
                }
            },
        }
    }

    fn claim_check(&self, investor: AccountId, now: u64) -> (r: Result<Option<i128>, EscrowError>)
        ensures
            match r {
                Ok(None) => self.claim_error(investor, now) is None && self.pos(investor).claimed,
                Ok(Some(y)) => self.claim_error(investor, now) is None && !self.pos(investor).claimed
                    && y == self.claim_reinvest_yield(investor),
                Err(e) => self.claim_error(investor, now) == Some(e),
            },
    {
        if self.legal_hold {
            return Err(EscrowError::LegalHoldBlocksInvestorClaims);
        }
        if self.escrow_paused {
            return Err(EscrowError::EscrowIsPaused);
        }
        if self.is_dispute_paused(now) {
            return Err(EscrowError::DisputePausedBlocksInvestorClaims);
        }
        let p = self.investor_position(investor);
        if p.contribution <= 0 {
            return Err(EscrowError::NoContributionToClaim);
        }
        let status = match &self.escrow {
            Some(e) => e.status,
            None => {
                return Err(EscrowError::EscrowNotInitialized);
            },
        };
        if !(status == 2 || (status == 1 && self.settled_amount > 0)) {
            return Err(EscrowError::InvestorClaimNotSettled);
        }
        if p.lock_in_until > 0 && now < p.lock_in_until {
            return Err(EscrowError::InvestorStillInLockIn);
        }
        if now < p.claim_not_before {
            return Err(EscrowError::InvestorCommitmentLockNotExpired);
        }
        if p.claimed {
            return Ok(None);
        }
        let payout = match self.compute_investor_payout(investor) {
            Ok(v) => v,
            Err(e) => {
                return Err(e);
            },
        };
        let mut y: i128 = 0;
        if p.reinvest_elected {
            let d = sat_sub(payout, p.contribution);
            if d > 0 {
                y = d;
                if p.reinvested_amount.checked_add(d).is_none() {
                    return Err(EscrowError::ComputePayoutArithmeticOverflow);
                }
            }
        }
        Ok(Some(y))
    }

    /// Record `investor`'s payout claim after settlement (investor-authorized).
    ///
    /// Marks the investor claimed, once: a repeated claim is accepted and changes
    /// nothing. When the investor elected reinvestment, the yield part of the payout
    /// becomes reinvested principal. A refusal changes nothing; one that comes inside
    /// the lock-in period or the commitment lock publishes its diagnostic first.
    pub fn claim_investor_payout(&mut self, call: &mut Invocation, investor: AccountId) -> (r: Result<(), EscrowError>)
        ensures
            match r {
                Ok(()) => old(self).claim_error(investor, old(call).timestamp) is None
                    && old(self).claimed_state(*final(self), investor, old(call).timestamp, old(call).sequence)
                    && final(call).emits(*old(call), seq![investor], seq![], old(self).claim_events(investor, old(call).timestamp)),
                Err(e) => old(self).claim_error(investor, old(call).timestamp) == Some(e)
                    && *final(self) == *old(self)
                    && final(call).emits(*old(call), seq![], seq![], old(self).claim_diagnostics(investor, old(call).timestamp)),
            },
    {
        let now = call.timestamp;
        let mut evs: Vec<Event> = Vec::new();
        match self.claim_check(investor, now) {
            Err(e) => {
                let p = self.investor_position(investor);
                if e == EscrowError::InvestorStillInLockIn {
                    evs.push(Event::ErrorDiagnosticEmitted(ErrorDiagnosticEmitted {
                        error_code: e.code(),
                        context: DiagnosticContext::LockIn { seconds_remaining: p.lock_in_until - now },
                    }));
                } else if e == EscrowError::InvestorCommitmentLockNotExpired {
                    evs.push(Event::ErrorDiagnosticEmitted(ErrorDiagnosticEmitted {
                        error_code: e.code(),
                        context: DiagnosticContext::CommitmentLock {
                            not_before: p.claim_not_before,
                            seconds_remaining: p.claim_not_before - now,
                        },
                    }));
                }
                call.emit_all(evs);
                return Err(e);
            },
            Ok(None) => {},
            Ok(Some(y)) => {
                let ghost g = *self;
                let e = self.escrow_record();
                let mut p = self.investor_position(investor);
                if y > 0 {
                    evs.push(Event::YieldReinvested(YieldReinvested {
                        investor,
                        invoice_id: e.invoice_id.clone(),
                        reinvested_amount: y,
                        new_total_principal: sat_add(p.reinvested_amount + y, p.contribution),
                    }));
                }
                let ghost e1 = evs@;
                let mut slip = self.slippage_events_of(investor);
                evs.append(&mut slip);
                let ghost e2 = evs@;
                evs.push(Event::InvestorPayoutClaimed(InvestorPayoutClaimed { investor, invoice_id: e.invoice_id.clone() }));
                let ghost e3 = evs@;
                let mut hw = health_events_of(&e, now);
                evs.append(&mut hw);
                proof {
                    assert(e3 =~= e2 + seq![e3[e2.len() as int]]);
                    assert(evs@ =~= g.claim_events(investor, now));
                }
                p.claimed = true;
                p.reinvested_amount = p.reinvested_amount + y;
                self.set_position(investor, p);
                if y > 0 {
                    self.fold_into_audit_log(investor, y, now, call.sequence);
                }
            },
        }
        call.require_auth(investor);
        call.emit_all(evs);
        Ok(())
    }

    /// The settlement checkpoint recorded when `investor` is claimed at `now`.
    pub open spec fn settle_record(self, investor: AccountId, now: u64) -> InvestorFundingRecord {
        InvestorFundingRecord {
            checkpoint: Checkpoint::Settle,
            timestamp: now,
            amount: self.payout_result(investor)->Ok_0,
            cumulative_total: self.pos(investor).contribution,
        }
    }

    /// `h` with `rec` appended, unless it already holds the most records kept.
    pub open spec fn capped_push(h: Seq<InvestorFundingRecord>, rec: InvestorFundingRecord) -> Seq<InvestorFundingRecord> {
        if h.len() < MAX_INVESTOR_HISTORY_ENTRIES {
            h.push(rec)
        } else {
            h
        }
    }

    /// `new` is `self` with `investor` marked claimed and its settlement checkpoint
    /// appended to its history.
    pub open spec fn claim_recorded(self, new: Self, investor: AccountId, now: u64) -> bool {
        &&& new == (LiquifactEscrow { investors: new.investors, histories: new.histories, ..self })
        &&& new.investors@ == self.investors@.insert(investor, InvestorPosition { claimed: true, ..self.pos(investor) })
        &&& forall|o: AccountId| o != investor ==> #[trigger] new.history(o) == self.history(o)
        &&& new.history(investor) == Self::capped_push(self.history(investor), self.settle_record(investor, now))
    }

    /// The first guard that refuses `claim_payout_as_delegate(investor, delegate)` at
    /// ledger time `now`. An already-claimed investor is accepted and nothing changes.
    pub open spec fn delegate_claim_error(self, investor: AccountId, delegate: AccountId, now: u64) -> Option<EscrowError> {
        let p = self.pos(investor);
        if self.legal_hold {
            Some(EscrowError::LegalHoldBlocksInvestorClaims)
        } else if self.dispute_active(now) {
            Some(EscrowError::DisputePausedBlocksInvestorClaims)
        } else if p.contribution <= 0 {
            Some(EscrowError::NoContributionToClaim)
        } else if p.delegate is None {
            Some(EscrowError::NoDelegationSet)
        } else if p.delegate_revoked {
            Some(EscrowError::DelegationRevoked)
        } else if p.delegate != Some(delegate) {
            Some(EscrowError::NoDelegationSet)
        } else if self.escrow is None {
            Some(EscrowError::EscrowNotInitialized)
        } else if !self.claims_open() {
            Some(EscrowError::InvestorClaimNotSettled)
        } else if now < p.claim_not_before {
            Some(EscrowError::InvestorCommitmentLockNotExpired)
        } else if p.claimed {
            None
        } else if self.payout_result(investor) is Err {
            Some(self.payout_result(investor)->Err_0)
        } else {
            None
        }
    }

    /// `new` is `self` with `investor` marked claimed and the settlement checkpoint
    /// of `payout` appended to its history.
    pub open spec fn marked_claimed(self, new: Self, investor: AccountId, payout: i128, now: u64) -> bool {
        &&& new == (LiquifactEscrow { investors: new.investors, histories: new.histories, ..self })
        &&& new.investors@ == self.investors@.insert(investor, InvestorPosition { claimed: true, ..self.pos(investor) })
        &&& forall|o: AccountId| o != investor ==> #[trigger] new.history(o) == self.history(o)
        &&& new.history(investor) == Self::capped_push(
            self.history(investor),
            InvestorFundingRecord { checkpoint: Checkpoint::Settle, timestamp: now, amount: payout, cumulative_total: self.pos(investor).contribution },
        )
    }

    /// Mark `investor` claimed and record the settlement checkpoint of `payout`.
    fn mark_claimed(&mut self, investor: AccountId, payout: i128, now: u64)
        ensures
            old(self).marked_claimed(*final(self), investor, payout, now),
    {
        let mut p = self.investor_position(investor);
        let c = p.contribution;
        p.claimed = true;
        self.set_position(investor, p);
        self.append_history(investor, InvestorFundingRecord { checkpoint: Checkpoint::Settle, timestamp: now, amount: payout, cumulative_total: c });
    }

    /// Mark `investor` claimed and record its settlement checkpoint.
    pub(crate) fn record_claim(&mut self, investor: AccountId, payout: i128, now: u64)
        requires
            old(self).payout_result(investor) == Ok::<i128, EscrowError>(payout),
        ensures
            old(self).claim_recorded(*final(self), investor, now),
    {
        let mut p = self.investor_position(investor);
        let c = p.contribution;
        p.claimed = true;
        self.set_position(investor, p);
        self.append_history(investor, InvestorFundingRecord { checkpoint: Checkpoint::Settle, timestamp: now, amount: payout, cumulative_total: c });
    }

    /// The investor's delegate claims the payout on the investor's behalf
    /// (delegate-authorized). The delegation must be set and not revoked. Marks the
    /// investor claimed, once, and records the settlement checkpoint in its history.
    pub fn claim_payout_as_delegate(&mut self, call: &mut Invocation, investor: AccountId, delegate: AccountId) -> (r: Result<(), EscrowError>)
        ensures
            match r {
                Ok(()) => old(self).delegate_claim_error(investor, delegate, old(call).timestamp) is None
                    && (if old(self).pos(investor).claimed {
                        *final(self) == *old(self)
                    } else {
                        old(self).claim_recorded(*final(self), investor, old(call).timestamp)
                    })
                    && final(call).emits(*old(call), seq![delegate], seq![], if old(self).pos(investor).claimed {
                        seq![]
                    } else {
                        seq![Event::InvestorPayoutClaimed(InvestorPayoutClaimed { investor, invoice_id: old(self).esc().invoice_id })]
                    }),
                Err(e) => old(self).delegate_claim_error(investor, delegate, old(call).timestamp) == Some(e)
                    && *final(self) == *old(self) && *final(call) == *old(call),
            },
    {
        let now = call.timestamp;
        if self.legal_hold {
            return Err(EscrowError::LegalHoldBlocksInvestorClaims);
        }
        if self.is_dispute_paused(now) {
            return Err(EscrowError::DisputePausedBlocksInvestorClaims);
        }
        let p = self.investor_position(investor);
        if p.contribution <= 0 {
            return Err(EscrowError::NoContributionToClaim);
        }
        let stored = match p.delegate {
            Some(d) => d,
            None => {
                return Err(EscrowError::NoDelegationSet);
            },
        };
        if p.delegate_revoked {
            return Err(EscrowError::DelegationRevoked);
        }
        if stored != delegate {
            return Err(EscrowError::NoDelegationSet);
        }
        let status = match &self.escrow {
            Some(e) => e.status,
            None => {
                return Err(EscrowError::EscrowNotInitialized);
            },
        };
        if !(status == 2 || (status == 1 && self.settled_amount > 0)) {
            return Err(EscrowError::InvestorClaimNotSettled);
        }
        if now < p.claim_not_before {
            return Err(EscrowError::InvestorCommitmentLockNotExpired);
        }
        let mut evs: Vec<Event> = Vec::new();
        if !p.claimed {
            let payout = match self.compute_investor_payout(investor) {
                Ok(v) => v,
                Err(e) => {
                    return Err(e);
                },
            };
            let e = self.escrow_record();
            evs.push(Event::InvestorPayoutClaimed(InvestorPayoutClaimed { investor, invoice_id: e.invoice_id }));
            assert(evs@ =~= seq![Event::InvestorPayoutClaimed(InvestorPayoutClaimed { investor, invoice_id: old(self).esc().invoice_id })]);
            self.record_claim(investor, payout, now);
        }
        call.require_auth(delegate);
        call.emit_all(evs);
        Ok(())
    }

    /// `new` is `self` with `investor`'s position replaced by `np`.
    pub open spec fn position_set(self, new: Self, investor: AccountId, np: InvestorPosition) -> bool {
        &&& new == (LiquifactEscrow { investors: new.investors, ..self })
        &&& new.investors@ == self.investors@.insert(investor, np)
    }

    /// Delegate `investor`'s claim rights to `delegate` (investor-authorized),
    /// replacing any previous delegation and clearing a revocation.
    pub fn set_yield_claim_delegate(&mut self, call: &mut Invocation, investor: AccountId, delegate: AccountId) -> (r: Result<(), EscrowError>)
        ensures
            match r {
                Ok(()) => investor != delegate
                    && old(self).position_set(*final(self), investor, InvestorPosition { delegate: Some(delegate), delegate_revoked: false, ..old(self).pos(investor) })
                    && (final(call).emits(*old(call), seq![investor], seq![],
                        seq![Event::YieldClaimDelegationSet(YieldClaimDelegationSet { investor, delegate })])),
                Err(e) => investor == delegate && e == EscrowError::DelegateAddressSameAsInvestor
                    && *final(self) == *old(self) && *final(call) == *old(call),
            },
    {
        if investor == delegate {
            return Err(EscrowError::DelegateAddressSameAsInvestor);
        }
        let mut p = self.investor_position(investor);
        p.delegate = Some(delegate);
        p.delegate_revoked = false;
        self.set_position(investor, p);
        call.require_auth(investor);
        call.emit(Event::YieldClaimDelegationSet(YieldClaimDelegationSet { investor, delegate }));
        Ok(())
    }

    /// Revoke `investor`'s active delegation (investor-authorized); the delegate
    /// address is kept for the record.
    pub fn revoke_yield_claim_delegate(&mut self, call: &mut Invocation, investor: AccountId) -> (r: Result<(), EscrowError>)
        ensures
            match r {
                Ok(()) => old(self).pos(investor).delegate is Some && !old(self).pos(investor).delegate_revoked
                    && old(self).position_set(*final(self), investor, InvestorPosition { delegate_revoked: true, ..old(self).pos(investor) })
                    && (final(call).emits(*old(call), seq![investor], seq![],
                        seq![Event::YieldClaimDelegationRevoked(YieldClaimDelegationRevoked { investor })])),
                Err(e) => !(old(self).pos(investor).delegate is Some && !old(self).pos(investor).delegate_revoked)
                    && e == EscrowError::NoActiveDelegation
                    && *final(self) == *old(self) && *final(call) == *old(call),
            },
    {
        let mut p = self.investor_position(investor);
        if !(p.delegate.is_some() && !p.delegate_revoked) {
            return Err(EscrowError::NoActiveDelegation);
        }
        p.delegate_revoked = true;
        self.set_position(investor, p);
        call.require_auth(investor);
        call.emit(Event::YieldClaimDelegationRevoked(YieldClaimDelegationRevoked { investor }));
        Ok(())
    }

    /// The first guard that refuses `reinvest_yield(investor, .., amount)` into an
    /// escrow whose record reads `target`.
    pub open spec fn reinvest_error(self, investor: AccountId, amount: i128, target: InvoiceEscrow) -> Option<EscrowError> {
        let p = self.pos(investor);
        if amount <= 0 {
            Some(EscrowError::ReinvestAmountNotPositive)
        } else if self.escrow is None {
            Some(EscrowError::EscrowNotInitialized)
        } else if self.esc().status != 2 {
            Some(EscrowError::ReinvestSourceEscrowNotSettled)
        } else if !(target.status == 0 || target.status == 1) {
            Some(EscrowError::ReinvestTargetEscrowNotFunding)
        } else if self.payout_result(investor) is Err {
            Some(self.payout_result(investor)->Err_0)
        } else if clamp_i128(self.payout_result(investor)->Ok_0 - p.contribution) < amount {
            Some(EscrowError::ReinvestYieldInsufficient)
        } else if p.reinvested_amount + amount > i128::MAX || p.reinvested_amount + amount < i128::MIN {
            Some(EscrowError::ComputePayoutArithmeticOverflow)
        } else if target.funded_amount + amount > i128::MAX || target.funded_amount + amount < i128::MIN {
            Some(EscrowError::FundedAmountOverflow)
        } else {
            None
        }
    }

    /// The state after an accepted reinvestment of `amount` into `target_escrow`: the
    /// amount joins the investor's reinvested principal, the election and target are
    /// recorded, and an audit entry is appended while the log has room.
    pub open spec fn reinvested_state(self, new: Self, investor: AccountId, target_escrow: AccountId, amount: i128, now: u64, seq: u32) -> bool {
        let p = self.pos(investor);
        let log = self.reinvestment_audit_log@;
        &&& new == (LiquifactEscrow { investors: new.investors, reinvestment_audit_log: new.reinvestment_audit_log, ..self })
        &&& new.investors@ == self.investors@.insert(investor, InvestorPosition {
            reinvested_amount: (p.reinvested_amount + amount) as i128,
            reinvest_elected: true,
            reinvest_target: Some(target_escrow),
            ..p
        })
        &&& new.reinvestment_audit_log@ == if log.len() < MAX_REINVESTMENT_AUDIT_ENTRIES {
            log.push(ReinvestmentAuditEntry {
                investor,
                invoice_id: self.esc().invoice_id,
                target_escrow: Some(target_escrow),
                reinvested_amount: amount,
                elected_at_ledger_timestamp: now,
                elected_at_ledger_sequence: seq,
            })
        } else {
            log
        }
    }

    /// Roll `amount` of `investor`'s accrued yield in this settled escrow into the
    /// escrow at `target_escrow` (investor-authorized), whose record the host read as
    /// `target` (open or funded). The host must then deposit `amount` for `investor`
    /// into `target_escrow` (the call's one deposit); the result is the funded amount
    /// the target must reach once that deposit is made (see [`check_reinvest_credited`]).
    pub fn reinvest_yield(&mut self, call: &mut Invocation, investor: AccountId, target_escrow: AccountId, amount: i128, target: &InvoiceEscrow) -> (r: Result<i128, EscrowError>)
        ensures
            match r {
                Ok(total) => old(self).reinvest_error(investor, amount, *target) is None
                    && old(self).reinvested_state(*final(self), investor, target_escrow, amount, old(call).timestamp, old(call).sequence)
                    && total == target.funded_amount + amount
                    && (final(call).acts(*old(call), seq![investor], seq![],
                        seq![Event::YieldReinvested(YieldReinvested {
                            investor,
                            invoice_id: old(self).esc().invoice_id,
                            reinvested_amount: amount,
                            new_total_principal: clamp_i128(old(self).pos(investor).reinvested_amount + amount + old(self).pos(investor).contribution),
                        })],
                        seq![Deposit { escrow: target_escrow, investor, amount }])),
                Err(e) => old(self).reinvest_error(investor, amount, *target) == Some(e)
                    && *final(self) == *old(self) && *final(call) == *old(call),
            },
    {
        if amount <= 0 {
            return Err(EscrowError::ReinvestAmountNotPositive);
        }
        if self.escrow.is_none() {
            return Err(EscrowError::EscrowNotInitialized);
        }
        let source = self.escrow_record();
        if source.status != 2 {
            return Err(EscrowError::ReinvestSourceEscrowNotSettled);
        }
        if !(target.status == 0 || target.status == 1) {
            return Err(EscrowError::ReinvestTargetEscrowNotFunding);
        }
        let mut p = self.investor_position(investor);
        let payout = match self.compute_investor_payout(investor) {
            Ok(v) => v,
            Err(e) => {
                return Err(e);
            },
        };
        if sat_sub(payout, p.contribution) < amount {
            return Err(EscrowError::ReinvestYieldInsufficient);
        }
        let new_reinvested = match p.reinvested_amount.checked_add(amount) {
            Some(v) => v,
            None => {
                return Err(EscrowError::ComputePayoutArithmeticOverflow);
            },
        };
        let total = match target.funded_amount.checked_add(amount) {
            Some(v) => v,
            None => {
                return Err(EscrowError::FundedAmountOverflow);
            },
        };
        let ev = Event::YieldReinvested(YieldReinvested {
            investor,
            invoice_id: source.invoice_id.clone(),
            reinvested_amount: amount,
            new_total_principal: sat_add(new_reinvested, p.contribution),
        });
        p.reinvested_amount = new_reinvested;
        p.reinvest_elected = true;
        p.reinvest_target = Some(target_escrow);
        self.set_position(investor, p);
        if self.reinvestment_audit_log.len() < MAX_REINVESTMENT_AUDIT_ENTRIES as usize {
            self.reinvestment_audit_log.push(ReinvestmentAuditEntry {
                investor,
                invoice_id: source.invoice_id,
                target_escrow: Some(target_escrow),
                reinvested_amount: amount,
                elected_at_ledger_timestamp: call.timestamp,
                elected_at_ledger_sequence: call.sequence,
            });
        }
        call.require_auth(investor);
        call.push_deposit(target_escrow, investor, amount);
        call.emit(ev);
        Ok(total)
    }

    /// Whether a batch claim at `now` claims `investor`: it has a contribution, its
    /// claim gate has passed and it is not yet claimed.
    pub open spec fn batch_claims(self, investor: AccountId, now: u64) -> bool {
        let p = self.pos(investor);
        p.contribution != 0 && now >= p.claim_not_before && !p.claimed
    }

    /// The payout error of the first of `list[..n]` that the batch would claim and
    /// whose payout cannot be computed, if any.
    pub open spec fn batch_payout_error(self, list: Seq<AccountId>, now: u64, n: int) -> Option<EscrowError>
        decreases n,
    {
        if n <= 0 {
            None
        } else if self.batch_payout_error(list, now, n - 1) is Some {
            self.batch_payout_error(list, now, n - 1)
        } else if self.batch_claims(list[n - 1], now) && self.payout_result(list[n - 1]) is Err {
            Some(self.payout_result(list[n - 1])->Err_0)
        } else {
            None
        }
    }

    /// Number of distinct investors of `list[..n]` that the batch claims.
    pub open spec fn batch_claim_count(self, list: Seq<AccountId>, now: u64, n: int) -> int
        decreases n,
    {
        if n <= 0 {
            0
        } else if self.batch_claims(list[n - 1], now) && !list.take(n - 1).contains(list[n - 1]) {
            self.batch_claim_count(list, now, n - 1) + 1
        } else {
            self.batch_claim_count(list, now, n - 1)
        }
    }

    /// The events of the claims the batch makes among `list[..n]`, in order: for each
    /// newly claimed investor its slippage warning, then its claim record.
    pub open spec fn batch_claim_events(self, list: Seq<AccountId>, now: u64, n: int) -> Seq<Event>
        decreases n,
    {
        if n <= 0 {
            seq![]
        } else if self.batch_claims(list[n - 1], now) && !list.take(n - 1).contains(list[n - 1]) {
            self.batch_claim_events(list, now, n - 1) + self.slippage_events(list[n - 1]) + seq![
                Event::InvestorPayoutClaimed(InvestorPayoutClaimed { investor: list[n - 1], invoice_id: self.esc().invoice_id }),
            ]
        } else {
            self.batch_claim_events(list, now, n - 1)
        }
    }

    /// The first guard that refuses `batch_claim_investor_payouts(caller, list)` at
    /// `now`; `caller` must be the admin or the treasury.
    pub open spec fn batch_claim_error(self, caller: AccountId, list: Seq<AccountId>, now: u64) -> Option<EscrowError> {
        if list.len() == 0 {
            Some(EscrowError::BatchClaimEmpty)
        } else if list.len() > crate::constants::MAX_BATCH_CLAIM {
            Some(EscrowError::BatchClaimTooLarge)
        } else if self.legal_hold {
            Some(EscrowError::LegalHoldBlocksInvestorClaims)
        } else if self.dispute_active(now) {
            Some(EscrowError::DisputePausedBlocksInvestorClaims)
        } else if self.escrow is None {
            Some(EscrowError::EscrowNotInitialized)
        } else if self.esc().status != 2 {
            Some(EscrowError::InvestorClaimNotSettled)
        } else if !(caller == self.esc().admin || self.treasury == Some(caller)) {
            Some(EscrowError::UnauthorizedBatchClaimer)
        } else {
            self.batch_payout_error(list, now, list.len() as int)
        }
    }

    /// The state after the batch claims the investors of `list` at `now`.
    pub open spec fn batch_claimed_state(self, new: Self, list: Seq<AccountId>, now: u64) -> bool {
        &&& new == (LiquifactEscrow { investors: new.investors, histories: new.histories, ..self })
        &&& new.investors@.dom() == self.investors@.dom()
        &&& forall|x: AccountId| #[trigger] new.pos(x) == if list.contains(x) && self.batch_claims(x, now) {
            InvestorPosition { claimed: true, ..self.pos(x) }
        } else {
            self.pos(x)
        }
        &&& forall|x: AccountId| #[trigger] new.history(x) == if list.contains(x) && self.batch_claims(x, now) {
            Self::capped_push(self.history(x), InvestorFundingRecord {
                checkpoint: Checkpoint::Settle,
                timestamp: now,
                amount: self.payout_result(x)->Ok_0,
                cumulative_total: self.pos(x).contribution,
            })
        } else {
            self.history(x)
        }
    }

    /// Claim the payouts of `investors` in one call on a settled escrow; `caller`, the
    /// admin or the treasury, must authorize. Investors without a contribution, still gated, or already
    /// claimed are skipped; each claimed investor gets its settlement checkpoint.
    /// Either every claim is applied or, when a payout cannot be computed, nothing
    /// changes. Returns the number of investors claimed.
    pub fn batch_claim_investor_payouts(&mut self, call: &mut Invocation, caller: AccountId, investors: &Vec<AccountId>) -> (r: Result<u32, EscrowError>)
        ensures
            match r {
                Ok(count) => old(self).batch_claim_error(caller, investors@, old(call).timestamp) is None
                    && old(self).batch_claimed_state(*final(self), investors@, old(call).timestamp)
                    && count == old(self).batch_claim_count(investors@, old(call).timestamp, investors@.len() as int)
                    && (final(call).emits(*old(call), seq![caller], seq![],
                        old(self).batch_claim_events(investors@, old(call).timestamp, investors@.len() as int)
                        + seq![Event::BatchInvestorPayoutsClaimed(BatchInvestorPayoutsClaimed { invoice_id: old(self).esc().invoice_id, claimed_count: count })])),
                Err(e) => old(self).batch_claim_error(caller, investors@, old(call).timestamp) == Some(e)
                    && *final(self) == *old(self) && *final(call) == *old(call),
            },
    {
        let now = call.timestamp;
        let n = investors.len();
        if n == 0 {
            return Err(EscrowError::BatchClaimEmpty);
        }
        if n > crate::constants::MAX_BATCH_CLAIM as usize {
            return Err(EscrowError::BatchClaimTooLarge);
        }
        if self.legal_hold {
            return Err(EscrowError::LegalHoldBlocksInvestorClaims);
        }
        if self.is_dispute_paused(now) {
            return Err(EscrowError::DisputePausedBlocksInvestorClaims);
        }
        if self.escrow.is_none() {
            return Err(EscrowError::EscrowNotInitialized);
        }
        let e = self.escrow_record();
        if e.status != 2 {
            return Err(EscrowError::InvestorClaimNotSettled);
        }
        if !(caller == e.admin || self.treasury == Some(caller)) {
            return Err(EscrowError::UnauthorizedBatchClaimer);
        }
        let ghost g = *self;
        let list = investors;
        assert(g.batch_claim_error(caller, list@, now) == g.batch_payout_error(list@, now, n as int));
        // First pass: every payout the batch needs must be computable.
        let mut payouts: Vec<i128> = Vec::new();
        let mut i: usize = 0;
        while i < n
            invariant
                n == list@.len(),
                0 <= i <= n,
                *self == g,
                g == *old(self),
                list == investors,
                *call == *old(call),
                now == call.timestamp,
                g.batch_claim_error(caller, list@, now) == g.batch_payout_error(list@, now, n as int),
                payouts@.len() == i,
                g.batch_payout_error(list@, now, i as int) is None,
                forall|k: int| 0 <= k < i && #[trigger] g.batch_claims(list@[k], now) ==> g.payout_result(list@[k]) == Ok::<i128, EscrowError>(payouts@[k]),
            decreases n - i,
        {
            let x = list[i];
            let p = self.investor_position(x);
            let mut v: i128 = 0;
            if p.contribution != 0 && now >= p.claim_not_before && !p.claimed {
                v = match self.compute_investor_payout(x) {
                    Ok(v) => v,
                    Err(err) => {
                        assert(g.batch_payout_error(list@, now, i + 1) == Some(err));
                        proof {
                            lemma_batch_error_stable(g, list@, now, i + 1, n as int);
                        }
                        return Err(err);
                    },
                };
            }
            payouts.push(v);
            i += 1;
        }
        // Second pass: apply.
        let mut count: u32 = 0;
        let mut evs: Vec<Event> = Vec::new();
        let mut j: usize = 0;
        while j < n
            invariant
                evs@ == g.batch_claim_events(list@, now, j as int),
                g.escrow is Some,
                e == g.esc(),
                n == list@.len(),
                n <= crate::constants::MAX_BATCH_CLAIM,
                0 <= j <= n,
                payouts@.len() == n,
                forall|k: int| 0 <= k < n && #[trigger] g.batch_claims(list@[k], now) ==> g.payout_result(list@[k]) == Ok::<i128, EscrowError>(payouts@[k]),
                batch_inv(g, *self, list@, now, j as int),
                count == g.batch_claim_count(list@, now, j as int),
                count <= j,
            decreases n - j,
        {
            let x = list[j];
            let ghost pre = *self;
            proof {
                lemma_batch_current(g, pre, list@, now, j as int);
            }
            let p = self.investor_position(x);
            if p.contribution != 0 && now >= p.claim_not_before && !p.claimed {
                let payout = payouts[j];
                let mut slip = self.slippage_events_of(x);
                assert(pre.slippage_events(x) == g.slippage_events(x));
                evs.append(&mut slip);
                let ghost e2 = evs@;
                evs.push(Event::InvestorPayoutClaimed(InvestorPayoutClaimed { investor: x, invoice_id: e.invoice_id.clone() }));
                assert(evs@ =~= e2 + seq![evs@[e2.len() as int]]);
                self.mark_claimed(x, payout, now);
                count = count + 1;
            }
            proof {
                lemma_batch_step(g, pre, *self, list@, now, j as int, payouts@[j as int]);
            }
            j += 1;
        }
        assert(list@.take(n as int) =~= list@);
        call.require_auth(caller);
        let ghost mid = evs@;
        evs.push(Event::BatchInvestorPayoutsClaimed(BatchInvestorPayoutsClaimed { invoice_id: e.invoice_id.clone(), claimed_count: count }));
        assert(evs@ =~= mid + seq![evs@[mid.len() as int]]);
        call.emit_all(evs);
        Ok(count)
    }
}

/// Whether the batch over `list` has claimed `x` after its first `j` entries.
pub open spec fn claimed_in(g: LiquifactEscrow, list: Seq<AccountId>, now: u64, j: int, x: AccountId) -> bool {
    list.take(j).contains(x) && g.batch_claims(x, now)
}

/// State `s` is `g` after the batch over `list` processed its first `j` entries.
pub open spec fn batch_inv(g: LiquifactEscrow, s: LiquifactEscrow, list: Seq<AccountId>, now: u64, j: int) -> bool {
    &&& s == (LiquifactEscrow { investors: s.investors, histories: s.histories, ..g })
    &&& s.investors@.dom() == g.investors@.dom()
    &&& forall|x: AccountId| #[trigger] s.pos(x) == if claimed_in(g, list, now, j, x) {
        InvestorPosition { claimed: true, ..g.pos(x) }
    } else {
        g.pos(x)
    }
    &&& forall|x: AccountId| #[trigger] s.history(x) == if claimed_in(g, list, now, j, x) {
        LiquifactEscrow::capped_push(g.history(x), InvestorFundingRecord {
            checkpoint: Checkpoint::Settle,
            timestamp: now,
            amount: g.payout_result(x)->Ok_0,
            cumulative_total: g.pos(x).contribution,
        })
    } else {
        g.history(x)
    }
}

proof fn lemma_take_push(list: Seq<AccountId>, j: int)
    requires
        0 <= j < list.len(),
    ensures
        forall|y: AccountId| list.take(j + 1).contains(y) <==> list.take(j).contains(y) || y == list[j],
{
    let t0 = list.take(j);
    let t1 = list.take(j + 1);
    assert forall|y: AccountId| t1.contains(y) <==> t0.contains(y) || y == list[j] by {
        if t0.contains(y) {
            let k = choose|k: int| 0 <= k < t0.len() && t0[k] == y;
            assert(t1[k] == y);
        }
        if y == list[j] {
            assert(t1[j] == y);
        }
        if t1.contains(y) && y != list[j] {
            let k = choose|k: int| 0 <= k < t1.len() && t1[k] == y;
            assert(t0[k] == y);
        }
    }
}

/// Whether the batch claims entry `j` is decided on the state before the batch.
proof fn lemma_batch_current(g: LiquifactEscrow, pre: LiquifactEscrow, list: Seq<AccountId>, now: u64, j: int)
    requires
        0 <= j < list.len(),
        batch_inv(g, pre, list, now, j),
    ensures
        pre.batch_claims(list[j], now) == (g.batch_claims(list[j], now) && !list.take(j).contains(list[j])),
        !list.take(j).contains(list[j]) ==> pre.pos(list[j]) == g.pos(list[j]) && pre.history(list[j]) == g.history(list[j]),
{
    let x = list[j];
    assert(pre.pos(x) == if claimed_in(g, list, now, j, x) {
        InvestorPosition { claimed: true, ..g.pos(x) }
    } else {
        g.pos(x)
    });
    assert(pre.history(x) == if claimed_in(g, list, now, j, x) {
        LiquifactEscrow::capped_push(g.history(x), InvestorFundingRecord {
            checkpoint: Checkpoint::Settle,
            timestamp: now,
            amount: g.payout_result(x)->Ok_0,
            cumulative_total: g.pos(x).contribution,
        })
    } else {
        g.history(x)
    });
}

/// One entry of the batch keeps [`batch_inv`].
proof fn lemma_batch_step(g: LiquifactEscrow, pre: LiquifactEscrow, post: LiquifactEscrow, list: Seq<AccountId>, now: u64, j: int, payout: i128)
    requires
        0 <= j < list.len(),
        batch_inv(g, pre, list, now, j),
        g.batch_claims(list[j], now) ==> g.payout_result(list[j]) == Ok::<i128, EscrowError>(payout),
        if pre.batch_claims(list[j], now) {
            pre.marked_claimed(post, list[j], payout, now)
        } else {
            post == pre
        },
    ensures
        batch_inv(g, post, list, now, j + 1),
{
    let x = list[j];
    lemma_batch_current(g, pre, list, now, j);
    lemma_take_push(list, j);
    assert forall|y: AccountId| claimed_in(g, list, now, j + 1, y) <==> claimed_in(g, list, now, j, y) || (y == x && g.batch_claims(x, now)) by {}
    assert forall|y: AccountId| #[trigger] post.pos(y) == if claimed_in(g, list, now, j + 1, y) {
        InvestorPosition { claimed: true, ..g.pos(y) }
    } else {
        g.pos(y)
    } by {
        assert(pre.pos(y) == if claimed_in(g, list, now, j, y) {
            InvestorPosition { claimed: true, ..g.pos(y) }
        } else {
            g.pos(y)
        });
    }
    assert forall|y: AccountId| #[trigger] post.history(y) == if claimed_in(g, list, now, j + 1, y) {
        LiquifactEscrow::capped_push(g.history(y), InvestorFundingRecord {
            checkpoint: Checkpoint::Settle,
            timestamp: now,
            amount: g.payout_result(y)->Ok_0,
            cumulative_total: g.pos(y).contribution,
        })
    } else {
        g.history(y)
    } by {
        assert(pre.history(y) == if claimed_in(g, list, now, j, y) {
            LiquifactEscrow::capped_push(g.history(y), InvestorFundingRecord {
                checkpoint: Checkpoint::Settle,
                timestamp: now,
                amount: g.payout_result(y)->Ok_0,
                cumulative_total: g.pos(y).contribution,
            })
        } else {
            g.history(y)
        });
    }
    assert forall|y: AccountId| post.investors@.contains_key(y) <==> g.investors@.contains_key(y) by {
        if y == x && pre.batch_claims(x, now) {
            assert(pre.pos(x).contribution != 0);
        }
    }
    assert(post.investors@.dom() =~= g.investors@.dom());
}

/// Once some prefix of a batch holds a payout error, every longer prefix reports it.
proof fn lemma_batch_error_stable(s: LiquifactEscrow, list: Seq<AccountId>, now: u64, k: int, n: int)
    requires
        0 <= k <= n,
        s.batch_payout_error(list, now, k) is Some,
    ensures
        s.batch_payout_error(list, now, n) == s.batch_payout_error(list, now, k),
    decreases n - k,
{
    if n > k {
        lemma_batch_error_stable(s, list, now, k, n - 1);
    }
}

/// Whether the target escrow credited a reinvestment: its funded amount, read after the
/// deposit, reaches `expected_total - amount` (saturating).
pub fn check_reinvest_credited(expected_total: i128, amount: i128, updated_funded: i128) -> (r: Result<(), EscrowError>)
    ensures
        r is Ok <==> updated_funded >= clamp_i128(expected_total - amount),
        r matches Err(e) ==> e == EscrowError::ReinvestTargetEscrowNotFunding,
{
    if updated_funded >= sat_sub(expected_total, amount) {
        Ok(())
    } else {
        Err(EscrowError::ReinvestTargetEscrowNotFunding)
    }
}

} // verus!
