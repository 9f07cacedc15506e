use vstd::prelude::*;

use crate::error::EscrowError;
use crate::buckets::{bucket_of, investor_bucket_index};
use crate::escrow::LiquifactEscrow;
use crate::hashing::sha256_of;
use crate::events::{
    BatchFundCompleted, DiagnosticContext, ErrorDiagnosticEmitted, EscrowFunded, Event, FundReceived,
    FundingCloseMerkleRootBound, FundingPausedEvent,
};
use crate::types::{
    AccountId, Checkpoint, FundingCloseSnapshot, InvestorFundingRecord, InvestorPosition,
    InvoiceEscrow, Invocation, Screening, Transfer,
};
use crate::validation::{effective_yield, effective_yield_for_commitment, tiers_view};
use soroban_sdk::Env;

verus! {

broadcast use vstd::std_specs::hash::group_hash_axioms;

/// Share of `contribution` in `funded`, in whole percent, truncated; an overflowing
/// product or a zero divisor counts as 0.
pub open spec fn concentration_pct(contribution: i128, funded: i128) -> i128 {
    match contribution.checked_mul(100) {
        Some(m) => match m.checked_div(funded) {
            Some(q) => q,
            None => 0,
        },
        None => 0,
    }
}

impl LiquifactEscrow {
    /// Principal counted against the per-ledger velocity cap once `amount` is added in
    /// ledger `seq` (the running total restarts in a new ledger).
    pub open spec fn velocity_total(self, amount: i128, seq: u32) -> int {
        (if seq == self.last_fund_ledger {
            self.current_ledger_funded as int
        } else {
            0
        }) + amount
    }

    /// The first guard that refuses a deposit of `amount` by `investor` at ledger time
    /// `now` and sequence `seq`; `simple` is a plain deposit, otherwise a first deposit
    /// committing `committed` seconds.
    pub open spec fn fund_error(
        self,
        investor: AccountId,
        amount: i128,
        simple: bool,
        committed: u64,
        now: u64,
        seq: u32,
        scr: Screening,
    ) -> Option<EscrowError> {
        let p = self.pos(investor);
        let e = self.esc();
        let new_c = p.contribution + amount;
        let new_funded = e.funded_amount + amount;
        if amount <= 0 {
            Some(EscrowError::FundingAmountNotPositive)
        } else if self.min_contribution_floor > 0 && amount < self.min_contribution_floor {
            Some(EscrowError::FundingBelowMinContribution)
        } else if self.escrow is None {
            Some(EscrowError::EscrowNotInitialized)
        } else if self.legal_hold {
            Some(EscrowError::LegalHoldBlocksFunding)
        } else if self.escrow_paused {
            Some(EscrowError::EscrowIsPaused)
        } else if self.dispute_active(now) {
            Some(EscrowError::DisputePausedBlocksFunding)
        } else if e.status != 0 {
            Some(EscrowError::EscrowNotOpenForFunding)
        } else if self.funding_deadline matches Some(d) && now > d {
            Some(EscrowError::FundingDeadlinePassed)
        } else if self.funding_paused {
            Some(EscrowError::FundingIsPaused)
        } else if self.max_funding_rate is Some && self.velocity_total(amount, seq) > i128::MAX {
            Some(EscrowError::InvestorContributionOverflow)
        } else if self.max_funding_rate matches Some(r) && self.velocity_total(amount, seq) > r {
            Some(EscrowError::FundingVelocityExceeded)
        } else if self.allowlist_active && !p.allowlisted {
            Some(EscrowError::InvestorNotAllowlisted)
        } else if self.sanctions_provider is Some && !scr.sanctions_cleared {
            Some(EscrowError::SanctionsScreeningFailed)
        } else if self.kyc_provider is Some && !scr.kyc_verified {
            Some(EscrowError::InvestorNotVerified)
        } else if new_c > i128::MAX || new_c < i128::MIN {
            Some(EscrowError::InvestorContributionOverflow)
        } else if self.max_per_investor_cap matches Some(cap) && new_c > cap {
            Some(EscrowError::InvestorContributionExceedsCap)
        } else if p.contribution == 0 && (self.max_unique_investors_cap matches Some(cap)
            && self.unique_funder_count >= cap) {
            Some(EscrowError::UniqueInvestorCapReached)
        } else if !simple && p.contribution != 0 {
            Some(EscrowError::TieredSecondDeposit)
        } else if !simple && committed != 0 && now + committed > u64::MAX {
            Some(EscrowError::InvestorClaimTimeOverflow)
        } else if !simple && committed != 0 && e.maturity > 0 && now + committed > e.maturity {
            Some(EscrowError::CommitmentLockExceedsMaturity)
        } else if !simple && self.investor_lock_in_secs > 0 && now + self.investor_lock_in_secs
            > u64::MAX {
            Some(EscrowError::InvestorClaimTimeOverflow)
        } else if new_funded > i128::MAX || new_funded < i128::MIN {
            Some(EscrowError::FundedAmountOverflow)
        } else if (self.max_investor_concentration matches Some(c) && new_funded > 0
            && concentration_pct(new_c as i128, new_funded as i128) > c) {
            Some(EscrowError::ConcentrationLimitExceeded)
        } else if p.contribution == 0 && self.unique_funder_count == u32::MAX {
            Some(EscrowError::FunderCountOverflow)
        } else {
            None
        }
    }

    /// Principal already counted against the velocity cap in ledger `seq`.
    pub open spec fn ledger_funded(self, seq: u32) -> i128 {
        if seq == self.last_fund_ledger {
            self.current_ledger_funded
        } else {
            0
        }
    }

    /// What a refused deposit publishes before it fails: the pause notice when it
    /// breaks the per-ledger rate limit, the concentration figures when it breaks the
    /// concentration cap, nothing for any other refusal.
    pub open spec fn fund_diagnostics(
        self,
        investor: AccountId,
        amount: i128,
        simple: bool,
        committed: u64,
        now: u64,
        seq: u32,
        scr: Screening,
    ) -> Seq<Event> {
        let err = self.fund_error(investor, amount, simple, committed, now, seq, scr);
        if err == Some(EscrowError::FundingVelocityExceeded) {
            seq![Event::FundingPausedEvent(FundingPausedEvent {
                invoice_id: self.esc().invoice_id,
                paused_at_ledger: seq,
                max_funding_rate: self.max_funding_rate->Some_0,
                ledger_funded: self.ledger_funded(seq),
            })]
        } else if err == Some(EscrowError::ConcentrationLimitExceeded) {
            seq![Event::ErrorDiagnosticEmitted(ErrorDiagnosticEmitted {
                error_code: EscrowError::ConcentrationLimitExceeded.spec_code(),
                context: DiagnosticContext::Concentration {
                    current_pct: concentration_pct(
                        (self.pos(investor).contribution + amount) as i128,
                        (self.esc().funded_amount + amount) as i128,
                    ),
                    limit_pct: self.max_investor_concentration->Some_0,
                },
            })]
        } else {
            seq![]
        }
    }

    /// The diagnostic events of a deposit refused with `e` (see [`Self::fund_diagnostics`]).
    fn fund_diagnostics_of(
        &self,
        e: EscrowError,
        investor: AccountId,
        amount: i128,
        simple: bool,
        committed: u64,
        now: u64,
        seq: u32,
        scr: Screening,
    ) -> (r: Vec<Event>)
        requires
            self.fund_error(investor, amount, simple, committed, now, seq, scr) == Some(e),
        ensures
            r@ == self.fund_diagnostics(investor, amount, simple, committed, now, seq, scr),
    {
        let mut r: Vec<Event> = Vec::new();
        let es: &InvoiceEscrow = match &self.escrow {
            Some(es) => es,
            None => {
                return r;
            },
        };
        match e {
            EscrowError::FundingVelocityExceeded => {
                let rate: u64 = match self.max_funding_rate {
                    Some(rate) => rate,
                    None => 0,
                };
                let ledger_funded: i128 = if seq == self.last_fund_ledger {
                    self.current_ledger_funded
                } else {
                    0
                };
                r.push(
                    Event::FundingPausedEvent(
                        FundingPausedEvent {
                            invoice_id: es.invoice_id.clone(),
                            paused_at_ledger: seq,
                            max_funding_rate: rate,
                            ledger_funded,
                        },
                    ),
                );
            },
            EscrowError::ConcentrationLimitExceeded => {
                let p = self.investor_position(investor);
                let new_c: i128 = p.contribution + amount;
                let new_funded: i128 = es.funded_amount + amount;
                let pct: i128 = match new_c.checked_mul(100) {
                    Some(m) => match m.checked_div(new_funded) {
                        Some(q) => q,
                        None => 0,
                    },
                    None => 0,
                };
                let limit: i64 = match self.max_investor_concentration {
                    Some(c) => c,
                    None => 0,
                };
                r.push(
                    Event::ErrorDiagnosticEmitted(
                        ErrorDiagnosticEmitted {
                            error_code: EscrowError::ConcentrationLimitExceeded.code(),
                            context: DiagnosticContext::Concentration { current_pct: pct, limit_pct: limit },
                        },
                    ),
                );
            },
            _ => {},
        }
        r
    }

    /// `investor`'s position after an accepted deposit: the contribution grows by
    /// `amount`; a plain first deposit fixes the base yield and no claim gate; a committed
    /// first deposit fixes the tier yield, the claim gate `now + committed` (none for 0)
    /// and, when configured, the lock-in end `now + investor_lock_in_secs`. Later plain
    /// deposits keep what the first one fixed.
    pub open spec fn funded_position(
        self,
        investor: AccountId,
        amount: i128,
        simple: bool,
        committed: u64,
        now: u64,
    ) -> InvestorPosition {
        let p = self.pos(investor);
        let e = self.esc();
        let new_c = (p.contribution + amount) as i128;
        if simple {
            if p.contribution == 0 {
                InvestorPosition {
                    contribution: new_c,
                    effective_yield_bps: Some(e.yield_bps),
                    claim_not_before: 0,
                    ..p
                }
            } else {
                InvestorPosition { contribution: new_c, ..p }
            }
        } else {
            InvestorPosition {
                contribution: new_c,
                effective_yield_bps: Some(
                    effective_yield(tiers_view(self.yield_tiers), e.yield_bps, committed).0,
                ),
                claim_not_before: if committed == 0 {
                    0
                } else {
                    (now + committed) as u64
                },
                lock_in_until: if self.investor_lock_in_secs > 0 {
                    (now + self.investor_lock_in_secs) as u64
                } else {
                    p.lock_in_until
                },
                ..p
            }
        }
    }

    /// The escrow record after an accepted deposit of `amount`: funded amount grows and
    /// the status becomes funded (1) once the target is reached.
    pub open spec fn funded_escrow(self, amount: i128) -> InvoiceEscrow {
        let e = self.esc();
        let nf = (e.funded_amount + amount) as i128;
        InvoiceEscrow {
            funded_amount: nf,
            status: if nf >= e.funding_target {
                1
            } else {
                e.status
            },
            ..e
        }
    }

    /// `new` is `self` after an accepted deposit (see [`Self::fund_error`] for the
    /// arguments). Funding closes when the target is reached; the close snapshot is
    /// written only if none exists. Every other field but the contribution buckets (see
    /// [`Self::bucket_credited`]) is unchanged.
    pub open spec fn fund_applied(
        self,
        new: Self,
        investor: AccountId,
        amount: i128,
        simple: bool,
        committed: u64,
        now: u64,
        seq: u32,
    ) -> bool {
        let p = self.pos(investor);
        let e = self.esc();
        let ne = self.funded_escrow(amount);
        let closes = ne.status == 1;
        let first = p.contribution == 0;
        let rec = InvestorFundingRecord {
            checkpoint: if closes {
                Checkpoint::FundingClose
            } else {
                Checkpoint::Deposit
            },
            timestamp: now,
            amount,
            cumulative_total: (p.contribution + amount) as i128,
        };
        &&& new == (LiquifactEscrow {
            escrow: Some(ne),
            last_fund_ledger: if self.max_funding_rate is Some {
                seq
            } else {
                self.last_fund_ledger
            },
            current_ledger_funded: if self.max_funding_rate is Some {
                self.velocity_total(amount, seq) as i128
            } else {
                self.current_ledger_funded
            },
            funding_close_snapshot: if closes && self.funding_close_snapshot is None {
                Some(
                    FundingCloseSnapshot {
                        total_principal: ne.funded_amount,
                        funding_target: e.funding_target,
                        closed_at_ledger_timestamp: now,
                        closed_at_ledger_sequence: seq,
                    },
                )
            } else {
                self.funding_close_snapshot
            },
            funding_close_merkle_root: if closes && self.funding_close_snapshot is None {
                self.empty_merkle_root
            } else {
                self.funding_close_merkle_root
            },
            unique_funder_count: if first {
                (self.unique_funder_count + 1) as u32
            } else {
                self.unique_funder_count
            },
            investor_index: new.investor_index,
            investors: new.investors,
            histories: new.histories,
            buckets: new.buckets,
            ..self
        })
        &&& new.investor_index@ == if first {
            self.investor_index@.push(investor)
        } else {
            self.investor_index@
        }
        &&& new.investors@ == self.investors@.insert(
            investor,
            self.funded_position(investor, amount, simple, committed, now),
        )
        &&& forall|o: AccountId| o != investor ==> #[trigger] new.history(o) == self.history(o)
        &&& new.history(investor) == if self.history(investor).len()
            < crate::constants::MAX_INVESTOR_HISTORY_ENTRIES {
            self.history(investor).push(rec)
        } else {
            self.history(investor)
        }
    }

    /// Check a deposit against every guard; on acceptance return the investor's new
    /// position.
    #[verifier::spinoff_prover]
    #[verifier::rlimit(40)]
    fn fund_check(
        &self,
        investor: AccountId,
        amount: i128,
        simple: bool,
        committed: u64,
        now: u64,
        seq: u32,
        scr: Screening,
    ) -> (r: Result<InvestorPosition, EscrowError>)
        ensures
            match r {
                Ok(np) => self.fund_error(investor, amount, simple, committed, now, seq, scr)
                    is None && np == self.funded_position(investor, amount, simple, committed, now),
                Err(e) => self.fund_error(investor, amount, simple, committed, now, seq, scr)
                    == Some(e),
            },
    {
        if amount <= 0 {
            return Err(EscrowError::FundingAmountNotPositive);
        }
        if self.min_contribution_floor > 0 && amount < self.min_contribution_floor {
            return Err(EscrowError::FundingBelowMinContribution);
        }
        let e: &InvoiceEscrow = match &self.escrow {
            Some(e) => e,
            None => {
                return Err(EscrowError::EscrowNotInitialized);
            },
        };
        if self.legal_hold {
            return Err(EscrowError::LegalHoldBlocksFunding);
        }
        if self.escrow_paused {
            return Err(EscrowError::EscrowIsPaused);
        }
        if self.is_dispute_paused(now) {
            return Err(EscrowError::DisputePausedBlocksFunding);
        }
        if e.status != 0 {
            return Err(EscrowError::EscrowNotOpenForFunding);
        }
        match self.funding_deadline {
            Some(d) => if now > d {
                return Err(EscrowError::FundingDeadlinePassed);
            },
            None => {},
        }
        if self.funding_paused {
            return Err(EscrowError::FundingIsPaused);
        }
        match self.max_funding_rate {
            Some(rate) => {
                let ledger_funded: i128 = if seq == self.last_fund_ledger {
                    self.current_ledger_funded
                } else {
                    0
                };
                match ledger_funded.checked_add(amount) {
                    Some(t) => if t > rate as i128 {
                        return Err(EscrowError::FundingVelocityExceeded);
                    },
                    None => {
                        return Err(EscrowError::InvestorContributionOverflow);
                    },
                }
            },
            None => {},
        }
        let p = self.investor_position(investor);
        if self.allowlist_active && !p.allowlisted {
            return Err(EscrowError::InvestorNotAllowlisted);
        }
        if self.sanctions_provider.is_some() && !scr.sanctions_cleared {
            return Err(EscrowError::SanctionsScreeningFailed);
        }
        if self.kyc_provider.is_some() && !scr.kyc_verified {
            return Err(EscrowError::InvestorNotVerified);
        }
        let new_c: i128 = match p.contribution.checked_add(amount) {
            Some(c) => c,
            None => {
                return Err(EscrowError::InvestorContributionOverflow);
            },
        };
        match self.max_per_investor_cap {
            Some(cap) => if new_c > cap {
                return Err(EscrowError::InvestorContributionExceedsCap);
            },
            None => {},
        }
        let first = p.contribution == 0;
        if first {
            match self.max_unique_investors_cap {
                Some(cap) => if self.unique_funder_count >= cap {
                    return Err(EscrowError::UniqueInvestorCapReached);
                },
                None => {},
            }
        }
        let mut np = p;
        np.contribution = new_c;
        if simple {
            if first {
                np.effective_yield_bps = Some(e.yield_bps);
                np.claim_not_before = 0;
            }
        } else {
            if !first {
                return Err(EscrowError::TieredSecondDeposit);
            }
            let (eff, _lock) = effective_yield_for_commitment(&self.yield_tiers, e.yield_bps, committed);
            np.effective_yield_bps = Some(eff);
            let claim_nb: u64 = if committed == 0 {
                0
            } else {
                match now.checked_add(committed) {
                    Some(t) => t,
                    None => {
                        return Err(EscrowError::InvestorClaimTimeOverflow);
                    },
                }
            };
            if claim_nb > 0 && e.maturity > 0 && claim_nb > e.maturity {
                return Err(EscrowError::CommitmentLockExceedsMaturity);
            }
            np.claim_not_before = claim_nb;
            if self.investor_lock_in_secs > 0 {
                np.lock_in_until = match now.checked_add(self.investor_lock_in_secs) {
                    Some(t) => t,
                    None => {
                        return Err(EscrowError::InvestorClaimTimeOverflow);
                    },
                };
            }
        }
        let new_funded: i128 = match e.funded_amount.checked_add(amount) {
            Some(f) => f,
            None => {
                return Err(EscrowError::FundedAmountOverflow);
            },
        };
        match self.max_investor_concentration {
            Some(cap) => if new_funded > 0 {
                let pct: i128 = match new_c.checked_mul(100) {
                    Some(m) => match m.checked_div(new_funded) {
                        Some(q) => q,
                        None => 0,
                    },
                    None => 0,
                };
                if pct > cap as i128 {
                    return Err(EscrowError::ConcentrationLimitExceeded);
                }
            },
            None => {},
        }
        if first && self.unique_funder_count == u32::MAX {
            return Err(EscrowError::FunderCountOverflow);
        }
        Ok(np)
    }

    /// The yield reported for a deposit: the investor's stored yield after it (the
    /// base yield when none is stored).
    pub open spec fn reported_yield(self, investor: AccountId, amount: i128, simple: bool, committed: u64, now: u64) -> i64 {
        match self.funded_position(investor, amount, simple, committed, now).effective_yield_bps {
            Some(y) => y,
            None => self.esc().yield_bps,
        }
    }

    /// The tier lock reported for a deposit: the lock of the tier that a commitment
    /// met, 0 for a plain deposit.
    pub open spec fn reported_lock(self, committed: u64, simple: bool) -> u64 {
        if simple {
            0
        } else {
            effective_yield(tiers_view(self.yield_tiers), self.esc().yield_bps, committed).1
        }
    }

    /// The events of an accepted deposit from `self`: the Merkle root bound when this
    /// deposit first closes funding, then the deposit record in its two forms.
    pub open spec fn fund_events(self, investor: AccountId, amount: i128, simple: bool, committed: u64, now: u64) -> Seq<Event> {
        let ne = self.funded_escrow(amount);
        let y = self.reported_yield(investor, amount, simple, committed, now);
        let lock = self.reported_lock(committed, simple);
        let bound = match self.empty_merkle_root {
            Some(root) => if ne.status == 1 && self.funding_close_snapshot is None {
                seq![Event::FundingCloseMerkleRootBound(FundingCloseMerkleRootBound { invoice_id: ne.invoice_id, merkle_root: root })]
            } else {
                seq![]
            },
            None => seq![],
        };
        bound + seq![
            Event::EscrowFunded(EscrowFunded {
                invoice_id: ne.invoice_id,
                investor,
                amount,
                funded_amount: ne.funded_amount,
                status: ne.status,
                investor_effective_yield_bps: y,
                tier_lock_secs: lock,
            }),
            Event::FundReceived(FundReceived {
                invoice_id: ne.invoice_id,
                actor: investor,
                timestamp: now,
                amount,
                funded_amount: ne.funded_amount,
                status: ne.status,
                investor_effective_yield_bps: y,
                tier_lock_secs: lock,
            }),
        ]
    }

    /// Build [`Self::fund_events`] for a deposit that passed every guard.
    fn fund_events_of(&self, np: &InvestorPosition, investor: AccountId, amount: i128, simple: bool, committed: u64, now: u64) -> (r: Vec<Event>)
        requires
            self.escrow is Some,
            *np == self.funded_position(investor, amount, simple, committed, now),
            i128::MIN <= self.esc().funded_amount + amount <= i128::MAX,
        ensures
            r@ == self.fund_events(investor, amount, simple, committed, now),
    {
        let e = match &self.escrow {
            Some(e) => e,
            None => {
                return Vec::new();
            },
        };
        let nf: i128 = e.funded_amount + amount;
        let status: u32 = if nf >= e.funding_target { 1 } else { e.status };
        let y: i64 = match np.effective_yield_bps {
            Some(y) => y,
            None => e.yield_bps,
        };
        let lock: u64 = if simple {
            0
        } else {
            effective_yield_for_commitment(&self.yield_tiers, e.yield_bps, committed).1
        };
        let mut r: Vec<Event> = Vec::new();
        match self.empty_merkle_root {
            Some(root) => if status == 1 && self.funding_close_snapshot.is_none() {
                r.push(Event::FundingCloseMerkleRootBound(FundingCloseMerkleRootBound { invoice_id: e.invoice_id.clone(), merkle_root: root }));
            },
            None => {},
        }
        let ghost pre = r@;
        r.push(Event::EscrowFunded(EscrowFunded {
            invoice_id: e.invoice_id.clone(),
            investor,
            amount,
            funded_amount: nf,
            status,
            investor_effective_yield_bps: y,
            tier_lock_secs: lock,
        }));
        r.push(Event::FundReceived(FundReceived {
            invoice_id: e.invoice_id.clone(),
            actor: investor,
            timestamp: now,
            amount,
            funded_amount: nf,
            status,
            investor_effective_yield_bps: y,
            tier_lock_secs: lock,
        }));
        assert(r@ =~= pre + seq![r@[pre.len() as int], r@[pre.len() + 1 as int]]);
        r
    }

    /// Apply a deposit that passed every guard.
    fn fund_apply(
        &mut self,
        np: InvestorPosition,
        investor: AccountId,
        amount: i128,
        simple: bool,
        committed: u64,
        now: u64,
        seq: u32,
        scr: Screening,
        bucket: u32,
    )
        requires
            old(self).fund_error(investor, amount, simple, committed, now, seq, scr) is None,
            np == old(self).funded_position(investor, amount, simple, committed, now),
        ensures
            old(self).fund_applied(*final(self), investor, amount, simple, committed, now, seq),
            old(self).bucket_credited(*final(self), bucket, amount),
    {
        let ghost g = *self;
        let first = self.investor_position(investor).contribution == 0;
        let mut ne = match &self.escrow {
            Some(e) => e.clone(),
            None => {
                return;
            },
        };
        let new_funded: i128 = ne.funded_amount + amount;
        let closes = new_funded >= ne.funding_target;
        ne.funded_amount = new_funded;
        if closes {
            ne.status = 1;
        }
        assert(ne == g.funded_escrow(amount));
        if self.max_funding_rate.is_some() {
            let ledger_funded: i128 = if seq == self.last_fund_ledger {
                self.current_ledger_funded
            } else {
                0
            };
            self.last_fund_ledger = seq;
            self.current_ledger_funded = ledger_funded + amount;
        }
        if closes && self.funding_close_snapshot.is_none() {
            self.funding_close_merkle_root = self.empty_merkle_root;
            self.funding_close_snapshot = Some(
                FundingCloseSnapshot {
                    total_principal: new_funded,
                    funding_target: ne.funding_target,
                    closed_at_ledger_timestamp: now,
                    closed_at_ledger_sequence: seq,
                },
            );
        }
        self.escrow = Some(ne);
        let new_c = np.contribution;
        self.set_position(investor, np);
        let rec = InvestorFundingRecord {
            checkpoint: if closes {
                Checkpoint::FundingClose
            } else {
                Checkpoint::Deposit
            },
            timestamp: now,
            amount,
            cumulative_total: new_c,
        };
        if first {
            self.unique_funder_count = self.unique_funder_count + 1;
            self.investor_index.push(investor);
        }
        self.append_history(investor, rec);
        let ghost mid = *self;
        assert(g.fund_applied(mid, investor, amount, simple, committed, now, seq));
        self.credit_bucket(bucket, amount);
        assert(self.histories == mid.histories);
        assert(forall|o: AccountId| #[trigger] self.history(o) == mid.history(o));
        assert(self.pos(investor) == mid.pos(investor));
        assert(g.bucket_total(bucket) == mid.bucket_total(bucket));
    }

    /// One deposit, checked and applied; on refusal nothing changes.
    pub(crate) fn fund_step(
        &mut self,
        investor: AccountId,
        amount: i128,
        simple: bool,
        committed: u64,
        now: u64,
        seq: u32,
        scr: Screening,
        bucket: u32,
    ) -> (r: Result<Vec<Event>, EscrowError>)
        ensures
            match r {
                Ok(evs) => evs@ == old(self).fund_events(investor, amount, simple, committed, now)
                    && old(self).fund_error(investor, amount, simple, committed, now, seq, scr)
                    is None && old(self).fund_applied(
                    *final(self),
                    investor,
                    amount,
                    simple,
                    committed,
                    now,
                    seq,
                ) && old(self).bucket_credited(*final(self), bucket, amount),
                Err(e) => old(self).fund_error(investor, amount, simple, committed, now, seq, scr)
                    == Some(e) && *final(self) == *old(self),
            },
    {
        match self.fund_check(investor, amount, simple, committed, now, seq, scr) {
            Ok(np) => {
                let evs = self.fund_events_of(&np, investor, amount, simple, committed, now);
                self.fund_apply(np, investor, amount, simple, committed, now, seq, scr, bucket);
                Ok(evs)
            },
            Err(e) => Err(e),
        }
    }

    /// Record `amount` of principal from `investor` while the escrow is open (status 0).
    ///
    /// The first deposit fixes the investor's yield at the escrow's base yield; later
    /// deposits keep it. Reaching the target closes funding (status 1) and writes the
    /// funding-close snapshot once; the amount joins the bucket of the investor, whose
    /// address bytes are `investor_key`. Requires `investor`'s authorization. A refused
    /// deposit changes nothing and publishes only its diagnostic, if it has one (see
    /// [`Self::fund_diagnostics`]).
    pub fn fund(&mut self, call: &mut Invocation, investor: AccountId, amount: i128, screening: Screening, investor_key: &Vec<u8>, env: &Env) -> (r: Result<InvoiceEscrow, EscrowError>)
        ensures
            match r {
                Ok(e) => old(self).fund_error(investor, amount, true, 0, old(call).timestamp, old(call).sequence, screening) is None
                    && old(self).fund_applied(*final(self), investor, amount, true, 0, old(call).timestamp, old(call).sequence)
                    && old(self).bucket_credited(*final(self), bucket_of(sha256_of(investor_key@)), amount)
                    && e == final(self).esc()
                    && final(call).emits(*old(call), seq![investor], seq![], old(self).fund_events(investor, amount, true, 0, old(call).timestamp)),
                Err(e) => old(self).fund_error(investor, amount, true, 0, old(call).timestamp, old(call).sequence, screening) == Some(e)
                    && *final(self) == *old(self)
                    && final(call).emits(*old(call), seq![], seq![], old(self).fund_diagnostics(investor, amount, true, 0, old(call).timestamp, old(call).sequence, screening)),
            },
    {
        let bucket = investor_bucket_index(env, investor_key);
        match self.fund_step(investor, amount, true, 0, call.timestamp, call.sequence, screening, bucket) {
            Ok(evs) => {
                call.require_auth(investor);
                call.emit_all(evs);
                Ok(self.escrow_record())
            },
            Err(e) => {
                let d = self.fund_diagnostics_of(e, investor, amount, true, 0, call.timestamp, call.sequence, screening);
                call.emit_all(d);
                Err(e)
            },
        }
    }

    /// First deposit of `investor` with a claim lock of `committed_lock_secs`: the best
    /// tier of the ladder that the commitment meets fixes the investor's yield, and
    /// claims are gated until `now + committed_lock_secs` (no gate for 0). Further
    /// principal from the same investor goes through [`Self::fund`].
    pub fn fund_with_commitment(&mut self, call: &mut Invocation, investor: AccountId, amount: i128, committed_lock_secs: u64, screening: Screening, investor_key: &Vec<u8>, env: &Env) -> (r: Result<InvoiceEscrow, EscrowError>)
        ensures
            match r {
                Ok(e) => old(self).fund_error(investor, amount, false, committed_lock_secs, old(call).timestamp, old(call).sequence, screening) is None
                    && old(self).fund_applied(*final(self), investor, amount, false, committed_lock_secs, old(call).timestamp, old(call).sequence)
                    && old(self).bucket_credited(*final(self), bucket_of(sha256_of(investor_key@)), amount)
                    && e == final(self).esc()
                    && final(call).emits(*old(call), seq![investor], seq![], old(self).fund_events(investor, amount, false, committed_lock_secs, old(call).timestamp)),
                Err(e) => old(self).fund_error(investor, amount, false, committed_lock_secs, old(call).timestamp, old(call).sequence, screening) == Some(e)
                    && *final(self) == *old(self)
                    && final(call).emits(*old(call), seq![], seq![], old(self).fund_diagnostics(investor, amount, false, committed_lock_secs, old(call).timestamp, old(call).sequence, screening)),
            },
    {
        let bucket = investor_bucket_index(env, investor_key);
        match self.fund_step(investor, amount, false, committed_lock_secs, call.timestamp, call.sequence, screening, bucket) {
            Ok(evs) => {
                call.require_auth(investor);
                call.emit_all(evs);
                Ok(self.escrow_record())
            },
            Err(e) => {
                let d = self.fund_diagnostics_of(e, investor, amount, false, committed_lock_secs, call.timestamp, call.sequence, screening);
                call.emit_all(d);
                Err(e)
            },
        }
    }

    /// `self` and `o` hold the same state: they differ at most in which collection
    /// objects represent the investor table, the histories, the investor index and
    /// the buckets, whose contents agree.
    pub open spec fn agrees(self, o: Self) -> bool {
        &&& (LiquifactEscrow {
            investors: o.investors,
            histories: o.histories,
            investor_index: o.investor_index,
            buckets: o.buckets,
            ..self
        }) == o
        &&& self.investors@ == o.investors@
        &&& self.histories@ == o.histories@
        &&& self.investor_index@ == o.investor_index@
        &&& self.buckets@ == o.buckets@
    }

    /// Deposits are judged and applied alike on states that agree.
    pub proof fn lemma_fund_agrees(
        a: Self,
        b: Self,
        n: Self,
        investor: AccountId,
        amount: i128,
        simple: bool,
        committed: u64,
        now: u64,
        seq: u32,
        scr: Screening,
        bucket: u32,
    )
        requires
            a.agrees(b),
        ensures
            a.bucket_credited(n, bucket, amount) == b.bucket_credited(n, bucket, amount),
            a.fund_error(investor, amount, simple, committed, now, seq, scr) == b.fund_error(
                investor,
                amount,
                simple,
                committed,
                now,
                seq,
                scr,
            ),
            a.fund_applied(n, investor, amount, simple, committed, now, seq) == b.fund_applied(
                n,
                investor,
                amount,
                simple,
                committed,
                now,
                seq,
            ),            a.fund_diagnostics(investor, amount, simple, committed, now, seq, scr) == b.fund_diagnostics(
                investor,
                amount,
                simple,
                committed,
                now,
                seq,
                scr,
            ),
    {
        assert(a.pos(investor) == b.pos(investor));
        assert(a.history(investor) == b.history(investor));
        assert(forall|o: AccountId| #[trigger] a.history(o) == b.history(o));
        assert(a.bucket_total(bucket) == b.bucket_total(bucket));
    }

    /// `states` runs the first `k` plain deposits of `entries` from `self`: each one is
    /// accepted and applied to the state before it, its amount joining bucket `bks[i]`.
    pub open spec fn batch_chain(
        self,
        entries: Seq<(AccountId, i128)>,
        scr: Seq<Screening>,
        bks: Seq<u32>,
        now: u64,
        seq: u32,
        states: Seq<Self>,
        k: int,
    ) -> bool {
        &&& 0 <= k <= entries.len()
        &&& states.len() == k + 1
        &&& states[0] == self
        &&& forall|i: int|
            0 <= i < k ==> (#[trigger] states[i].fund_error(
                entries[i].0,
                entries[i].1,
                true,
                0,
                now,
                seq,
                scr[i],
            )) is None && states[i].fund_applied(
                states[i + 1],
                entries[i].0,
                entries[i].1,
                true,
                0,
                now,
                seq,
            ) && states[i].bucket_credited(states[i + 1], bks[i], entries[i].1)
    }

    /// The events of the first `k` deposits of a batch run through `states`, in order.
    pub open spec fn batch_events(entries: Seq<(AccountId, i128)>, now: u64, states: Seq<Self>, k: int) -> Seq<Event>
        decreases k,
    {
        if k <= 0 {
            seq![]
        } else {
            Self::batch_events(entries, now, states, k - 1) + states[k - 1].fund_events(
                entries[k - 1].0,
                entries[k - 1].1,
                true,
                0,
                now,
            )
        }
    }

    /// The events of the first `k` deposits depend only on the first `k` states.
    proof fn lemma_batch_events_prefix(entries: Seq<(AccountId, i128)>, now: u64, a: Seq<Self>, b: Seq<Self>, k: int)
        requires
            0 <= k <= a.len(),
            k <= b.len(),
            forall|j: int| 0 <= j < k ==> a[j] == b[j],
        ensures
            Self::batch_events(entries, now, a, k) == Self::batch_events(entries, now, b, k),
        decreases k,
    {
        if k > 0 {
            Self::lemma_batch_events_prefix(entries, now, a, b, k - 1);
        }
    }

    /// The bucket of each address whose bytes `keys` lists.
    pub open spec fn key_buckets(keys: Seq<Vec<u8>>) -> Seq<u32> {
        keys.map_values(|k: Vec<u8>| bucket_of(sha256_of(k@)))
    }

    /// Why a funding batch is refused before any entry is looked at, if it is.
    pub open spec fn batch_shape_error(self, n: int) -> Option<EscrowError> {
        if n == 0 {
            Some(EscrowError::FundingBatchEmpty)
        } else if n > crate::constants::MAX_FUND_BATCH {
            Some(EscrowError::FundingBatchTooLarge)
        } else if self.escrow is None {
            Some(EscrowError::EscrowNotInitialized)
        } else {
            None
        }
    }

    /// Plain deposits for every `(investor, amount)` entry, in order, as one atomic call:
    /// either every entry is accepted and applied, or the first refused entry's error
    /// is returned and the state is left as it was; what the entries before it and the
    /// refused entry published stays in `call` as the failed call's events.
    /// `screenings[i]` answers for `entries[i].0`, and
    /// `keys[i]` holds its address bytes. Requires each investor's authorization.
    pub fn fund_batch(&mut self, call: &mut Invocation, entries: &Vec<(AccountId, i128)>, screenings: &Vec<Screening>, keys: &Vec<Vec<u8>>, env: &Env) -> (r: Result<InvoiceEscrow, EscrowError>)
        requires
            screenings@.len() == entries@.len(),
            keys@.len() == entries@.len(),
        ensures
            match r {
                Ok(e) => old(self).batch_shape_error(entries@.len() as int) is None
                    && (exists|states: Seq<LiquifactEscrow>|
                    old(self).batch_chain(entries@, screenings@, Self::key_buckets(keys@), old(call).timestamp, old(call).sequence, states, entries@.len() as int)
                    && *final(self) == states.last()
                    && final(call).emits(*old(call), entries@.map_values(|x: (AccountId, i128)| x.0), seq![],
                        Self::batch_events(entries@, old(call).timestamp, states, entries@.len() as int)))
                    && e == final(self).esc(),
                Err(e) => *final(self) == *old(self) && (
                    (old(self).batch_shape_error(entries@.len() as int) == Some(e) && *final(call) == *old(call))
                    || (old(self).batch_shape_error(entries@.len() as int) is None
                    && exists|k: int, states: Seq<LiquifactEscrow>|
                    old(self).batch_chain(entries@, screenings@, Self::key_buckets(keys@), old(call).timestamp, old(call).sequence, states, k)
                    && k < entries@.len()
                    && states[k].fund_error(entries@[k].0, entries@[k].1, true, 0, old(call).timestamp, old(call).sequence, screenings@[k]) == Some(e)
                    && final(call).emits(*old(call), seq![], seq![], Self::batch_events(entries@, old(call).timestamp, states, k)
                        + states[k].fund_diagnostics(entries@[k].0, entries@[k].1, true, 0, old(call).timestamp, old(call).sequence, screenings@[k])))),
            },
    {
        let n = entries.len();
        if n == 0 {
            return Err(EscrowError::FundingBatchEmpty);
        }
        if n > crate::constants::MAX_FUND_BATCH as usize {
            return Err(EscrowError::FundingBatchTooLarge);
        }
        if self.escrow.is_none() {
            return Err(EscrowError::EscrowNotInitialized);
        }
        let ghost g = *self;
        let now = call.timestamp;
        let seq = call.sequence;
        // Keep the collections as they were so a refused entry can restore them.
        let mut saved_investors = std::collections::HashMap::new();
        std::mem::swap(&mut saved_investors, &mut self.investors);
        self.investors = saved_investors.clone();
        let mut saved_histories = std::collections::HashMap::new();
        std::mem::swap(&mut saved_histories, &mut self.histories);
        self.histories = saved_histories.clone();
        let mut saved_index: Vec<AccountId> = Vec::new();
        std::mem::swap(&mut saved_index, &mut self.investor_index);
        self.investor_index = saved_index.clone();
        let mut saved_buckets = std::collections::HashMap::new();
        std::mem::swap(&mut saved_buckets, &mut self.buckets);
        self.buckets = saved_buckets.clone();
        assert(self.investor_index@ =~= g.investor_index@);
        let saved_escrow = self.escrow_record();
        let saved_last = self.last_fund_ledger;
        let saved_current = self.current_ledger_funded;
        let saved_snapshot = self.funding_close_snapshot;
        let saved_root = self.funding_close_merkle_root;
        let saved_count = self.unique_funder_count;
        assert(g.agrees(*self));
        let ghost mut states: Seq<LiquifactEscrow> = seq![g];
        let mut all: Vec<Event> = Vec::new();
        let mut i: usize = 0;
        while i < n
            invariant
                n == entries@.len(),
                screenings@.len() == n,
                keys@.len() == n,
                0 < n <= crate::constants::MAX_FUND_BATCH,
                0 <= i <= n,
                g.batch_chain(entries@, screenings@, Self::key_buckets(keys@), now, seq, states, i as int),
                all@ == Self::batch_events(entries@, now, states, i as int),
                i == 0 ==> g.agrees(*self),
                i > 0 ==> *self == states.last(),
                g.escrow is Some,
                g == *old(self),
                saved_investors == g.investors,
                saved_histories == g.histories,
                saved_index == g.investor_index,
                saved_buckets == g.buckets,
                saved_escrow == g.esc(),
                saved_last == g.last_fund_ledger,
                saved_current == g.current_ledger_funded,
                saved_snapshot == g.funding_close_snapshot,
                saved_root == g.funding_close_merkle_root,
                saved_count == g.unique_funder_count,
                (LiquifactEscrow {
                    escrow: g.escrow,
                    last_fund_ledger: g.last_fund_ledger,
                    current_ledger_funded: g.current_ledger_funded,
                    funding_close_snapshot: g.funding_close_snapshot,
                    funding_close_merkle_root: g.funding_close_merkle_root,
                    unique_funder_count: g.unique_funder_count,
                    investors: g.investors,
                    histories: g.histories,
                    investor_index: g.investor_index,
                    buckets: g.buckets,
                    ..*self
                }) == g,
                call.timestamp == now,
                call.sequence == seq,
                *call == *old(call),
            decreases n - i,
        {
            let (investor, amount) = entries[i];
            let scr = screenings[i];
            let bucket = investor_bucket_index(env, &keys[i]);
            assert(bucket == Self::key_buckets(keys@)[i as int]);
            let ghost pre = *self;
            match self.fund_step(investor, amount, true, 0, now, seq, scr, bucket) {
                Ok(evs) => {
                    let ghost old_states = states;
                    proof {
                        if i == 0 {
                            Self::lemma_fund_agrees(g, pre, *self, investor, amount, true, 0, now, seq, scr, bucket);
                        }
                        states = states.push(*self);
                        Self::lemma_batch_events_prefix(entries@, now, old_states, states, i as int);
                        if i == 0 {
                            assert(pre.fund_events(investor, amount, true, 0, now) == g.fund_events(investor, amount, true, 0, now));
                        }
                    }
                    let mut evs = evs;
                    all.append(&mut evs);
                },
                Err(e) => {
                    proof {
                        if i == 0 {
                            Self::lemma_fund_agrees(g, pre, *self, investor, amount, true, 0, now, seq, scr, bucket);
                        }
                    }
                    let mut d = self.fund_diagnostics_of(e, investor, amount, true, 0, now, seq, scr);
                    all.append(&mut d);
                    self.investors = saved_investors;
                    self.histories = saved_histories;
                    self.investor_index = saved_index;
                    self.buckets = saved_buckets;
                    self.escrow = Some(saved_escrow);
                    self.last_fund_ledger = saved_last;
                    self.current_ledger_funded = saved_current;
                    self.funding_close_snapshot = saved_snapshot;
                    self.funding_close_merkle_root = saved_root;
                    self.unique_funder_count = saved_count;
                    assert(*self == g);
                    assert(states[i as int].fund_error(investor, amount, true, 0, now, seq, scr) == Some(e));
                    assert(g.batch_chain(entries@, screenings@, Self::key_buckets(keys@), now, seq, states, i as int));
                    call.emit_all(all);
                    return Err(e);
                },
            }
            i += 1;
        }
        assert(*self == states.last());
        assert(states[n - 1].fund_error(entries@[n - 1].0, entries@[n - 1].1, true, 0, now, seq, screenings@[n - 1]) is None);
        assert(self.escrow is Some);
        let res = self.escrow_record();
        let mut j: usize = 0;
        assert(entries@.take(0).map_values(|x: (AccountId, i128)| x.0) =~= Seq::<AccountId>::empty());
        assert(call.auths@ =~= old(call).auths@ + Seq::<AccountId>::empty());
        assert(call.transfers@ =~= old(call).transfers@ + Seq::<Transfer>::empty());
        while j < n
            invariant
                n == entries@.len(),
                0 <= j <= n,
                call.extends(*old(call), entries@.take(j as int).map_values(|x: (AccountId, i128)| x.0), seq![]),
            decreases n - j,
        {
            let ghost before = *call;
            call.require_auth(entries[j].0);
            assert(entries@.take(j + 1).map_values(|x: (AccountId, i128)| x.0) =~= entries@.take(j as int).map_values(|x: (AccountId, i128)| x.0).push(entries@[j as int].0));
            assert(call.auths@ =~= old(call).auths@ + entries@.take(j + 1).map_values(|x: (AccountId, i128)| x.0));
            assert(call.transfers@ =~= old(call).transfers@ + Seq::<Transfer>::empty());
            j += 1;
        }
        assert(entries@.take(n as int) =~= entries@);
        let ghost mid = *call;
        call.emit_all(all);
        assert(call.auths@ =~= old(call).auths@ + entries@.map_values(|x: (AccountId, i128)| x.0));
        assert(call.transfers@ =~= old(call).transfers@ + Seq::<Transfer>::empty());
        assert(call.emits(*old(call), entries@.map_values(|x: (AccountId, i128)| x.0), seq![], Self::batch_events(entries@, now, states, n as int)));
        Ok(res)
    }

    /// The batch summary: principal the batch added (the whole funded amount should
    /// the difference overflow), entry count, and the escrow after it.
    pub open spec fn batch_completed(e: InvoiceEscrow, funded_before: i128, n: int) -> Event {
        Event::BatchFundCompleted(BatchFundCompleted {
            invoice_id: e.invoice_id,
            total_funded_amount: match e.funded_amount.checked_sub(funded_before) {
                Some(d) => d,
                None => e.funded_amount,
            },
            investor_count: n as u32,
            escrow_funded_amount: e.funded_amount,
            status: e.status,
        })
    }

    /// The same atomic batch of plain deposits as [`Self::fund_batch`], followed by one
    /// summary event.
    pub fn batch_fund(&mut self, call: &mut Invocation, contributions: &Vec<(AccountId, i128)>, screenings: &Vec<Screening>, keys: &Vec<Vec<u8>>, env: &Env) -> (r: Result<InvoiceEscrow, EscrowError>)
        requires
            screenings@.len() == contributions@.len(),
            keys@.len() == contributions@.len(),
        ensures
            match r {
                Ok(e) => old(self).batch_shape_error(contributions@.len() as int) is None
                    && (exists|states: Seq<LiquifactEscrow>|
                    old(self).batch_chain(contributions@, screenings@, Self::key_buckets(keys@), old(call).timestamp, old(call).sequence, states, contributions@.len() as int)
                    && *final(self) == states.last()
                    && final(call).emits(*old(call), contributions@.map_values(|x: (AccountId, i128)| x.0), seq![],
                        Self::batch_events(contributions@, old(call).timestamp, states, contributions@.len() as int)
                        + seq![Self::batch_completed(e, old(self).esc().funded_amount, contributions@.len() as int)]))
                    && e == final(self).esc(),
                Err(e) => *final(self) == *old(self) && (
                    (old(self).batch_shape_error(contributions@.len() as int) == Some(e) && *final(call) == *old(call))
                    || (old(self).batch_shape_error(contributions@.len() as int) is None
                    && exists|k: int, states: Seq<LiquifactEscrow>|
                    old(self).batch_chain(contributions@, screenings@, Self::key_buckets(keys@), old(call).timestamp, old(call).sequence, states, k)
                    && k < contributions@.len()
                    && states[k].fund_error(contributions@[k].0, contributions@[k].1, true, 0, old(call).timestamp, old(call).sequence, screenings@[k]) == Some(e)
                    && final(call).emits(*old(call), seq![], seq![], Self::batch_events(contributions@, old(call).timestamp, states, k)
                        + states[k].fund_diagnostics(contributions@[k].0, contributions@[k].1, true, 0, old(call).timestamp, old(call).sequence, screenings@[k])))),
            },
    {
        let funded_before: i128 = match &self.escrow {
            Some(e) => e.funded_amount,
            None => 0,
        };
        let n = contributions.len();
        match self.fund_batch(call, contributions, screenings, keys, env) {
            Ok(e) => {
                let ghost mid = *call;
                let total: i128 = match e.funded_amount.checked_sub(funded_before) {
                    Some(d) => d,
                    None => e.funded_amount,
                };
                call.emit(Event::BatchFundCompleted(BatchFundCompleted {
                    invoice_id: e.invoice_id.clone(),
                    total_funded_amount: total,
                    investor_count: n as u32,
                    escrow_funded_amount: e.funded_amount,
                    status: e.status,
                }));
                proof {
                    let states = choose|states: Seq<LiquifactEscrow>|
                        old(self).batch_chain(contributions@, screenings@, Self::key_buckets(keys@), old(call).timestamp, old(call).sequence, states, contributions@.len() as int)
                        && *self == states.last()
                        && mid.emits(*old(call), contributions@.map_values(|x: (AccountId, i128)| x.0), seq![],
                            Self::batch_events(contributions@, old(call).timestamp, states, contributions@.len() as int));
                    assert(call.events@ =~= old(call).events@ + (Self::batch_events(contributions@, old(call).timestamp, states, contributions@.len() as int)
                        + seq![Self::batch_completed(e, old(self).esc().funded_amount, contributions@.len() as int)]));
                }
                Ok(e)
            },
            Err(e) => Err(e),
        }
    }
}

} // verus!
