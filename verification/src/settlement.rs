use vstd::prelude::*;

use crate::error::EscrowError;
use crate::escrow::LiquifactEscrow;
use crate::events::{
    AssetCustodyVerified, CollateralRecordedEvt, DiagnosticContext, ErrorDiagnosticEmitted, EscrowPartialSettle, EscrowPartiallySettled,
    EscrowSettled, Event, FundingCloseMerkleRootBound, ProtocolFeeCollected, SmeWithdrew,
    TreasuryDustSwept, YieldDistSnapshotCreated,
};
use crate::reports::{health_events, health_events_of};
use crate::math::{clamp_i128, coupon_split, sat_add, sat_sub, split_coupon};
use crate::constants::MAX_DUST_SWEEP_AMOUNT;
use crate::types::{AccountId, AdminRole, FundingCloseSnapshot, InvoiceEscrow, Invocation, Screening, SmeCollateralCommitment, Transfer};

verus! {

impl LiquifactEscrow {
    /// Settled principal after a settlement of `partial` (`None` settles everything).
    pub open spec fn settle_new_amount(self, partial: Option<i128>) -> int {
        match partial {
            Some(a) => self.settled_amount + a,
            None => self.esc().funded_amount as int,
        }
    }

    /// Whether a settlement of `partial` completes the settlement.
    pub open spec fn settle_is_full(self, partial: Option<i128>) -> bool {
        self.settle_new_amount(partial) == self.esc().funded_amount
    }

    /// Principal on which the protocol fee of a settlement is computed: the whole funded
    /// amount when the settlement completes, else the newly settled part.
    pub open spec fn settle_basis(self, partial: Option<i128>) -> int {
        if self.settle_is_full(partial) {
            self.esc().funded_amount as int
        } else {
            self.settle_new_amount(partial) - self.settled_amount
        }
    }

    /// Whether a settlement of `partial` computes a protocol fee.
    pub open spec fn settle_charges_fee(self, partial: Option<i128>) -> bool {
        self.fee_percentage > 0 && self.settle_basis(partial) > 0
    }

    /// The fee transferred to the treasury by a settlement of `partial` (0 when none).
    pub open spec fn settle_fee(self, partial: Option<i128>) -> i128 {
        if self.settle_charges_fee(partial) {
            match coupon_split(self.settle_basis(partial) as i128, self.esc().yield_bps, self.fee_percentage) {
                Some(gf) => gf.1,
                None => 0,
            }
        } else {
            0
        }
    }

    /// Whether a settlement of `partial` computes the auto-distribution pool.
    pub open spec fn settle_sizes_pool(self, partial: Option<i128>) -> bool {
        &&& self.yield_auto_distribution
        &&& self.settle_is_full(partial)
        &&& self.funding_close_snapshot matches Some(s) && s.total_principal > 0
    }

    /// Whether sizing the auto-distribution pool of a settlement of `partial`
    /// overflows.
    pub open spec fn settle_pool_overflows(self, partial: Option<i128>) -> bool {
        let new = self.settle_new_amount(partial);
        match coupon_split(new as i128, self.esc().yield_bps, self.fee_percentage) {
            Some(gf) => new + clamp_i128(gf.0 - gf.1) > i128::MAX || new + clamp_i128(gf.0 - gf.1) < i128::MIN,
            None => true,
        }
    }

    /// The first guard that refuses `settle(partial)` at ledger time `now`;
    /// `sme_cleared` is the sanctions provider's answer for the SME.
    pub open spec fn settle_error(self, partial: Option<i128>, now: u64, sme_cleared: bool) -> Option<EscrowError> {
        let e = self.esc();
        if self.legal_hold {
            Some(EscrowError::LegalHoldBlocksSettlement)
        } else if self.escrow_paused {
            Some(EscrowError::EscrowIsPaused)
        } else if self.dispute_active(now) {
            Some(EscrowError::DisputePausedBlocksSettlement)
        } else if self.escrow is None {
            Some(EscrowError::EscrowNotInitialized)
        } else if self.sanctions_provider is Some && !sme_cleared {
            Some(EscrowError::SanctionsScreeningFailed)
        } else if e.status != 1 {
            Some(EscrowError::SettlementNotFunded)
        } else if e.maturity > 0 && now < e.maturity {
            Some(EscrowError::MaturityNotReached)
        } else if (partial matches Some(a) && a <= 0) {
            Some(EscrowError::SettlementNotPositive)
        } else if (partial matches Some(a) && (a > e.funded_amount || a + self.settled_amount > e.funded_amount)) {
            Some(EscrowError::SettlementExceedsFunded)
        } else if self.settle_charges_fee(partial) && coupon_split(
            self.settle_basis(partial) as i128,
            e.yield_bps,
            self.fee_percentage,
        ) is None {
            Some(EscrowError::ComputePayoutArithmeticOverflow)
        } else if self.settle_fee(partial) > 0 && self.treasury is None {
            Some(EscrowError::TreasuryNotSet)
        } else if self.settle_fee(partial) > 0 && self.funding_token is None {
            Some(EscrowError::FundingTokenNotSet)
        } else if self.settle_sizes_pool(partial) && self.settle_pool_overflows(partial) {
            Some(EscrowError::ComputePayoutArithmeticOverflow)
        } else {
            None
        }
    }

    /// What a refused settlement publishes before it fails: the maturity figures when
    /// it comes before maturity, nothing for any other refusal.
    pub open spec fn settle_diagnostics(self, partial: Option<i128>, now: u64, sme_cleared: bool) -> Seq<Event> {
        if self.settle_error(partial, now, sme_cleared) == Some(EscrowError::MaturityNotReached) {
            seq![Event::ErrorDiagnosticEmitted(ErrorDiagnosticEmitted {
                error_code: EscrowError::MaturityNotReached.spec_code(),
                context: DiagnosticContext::MaturityNotReached {
                    maturity: self.esc().maturity,
                    seconds_remaining: (self.esc().maturity - now) as u64,
                },
            })]
        } else {
            seq![]
        }
    }

    /// The state after an accepted `settle(partial)`: the settled amount advances and
    /// the status becomes settled (2) once everything is settled.
    pub open spec fn settled_state(self, new: Self, partial: Option<i128>) -> bool {
        new == (LiquifactEscrow {
            escrow: Some(
                InvoiceEscrow {
                    status: if self.settle_is_full(partial) {
                        2
                    } else {
                        self.esc().status
                    },
                    ..self.esc()
                },
            ),
            settled_amount: self.settle_new_amount(partial) as i128,
            ..self
        })
    }

    /// The gross coupon on which the fee of a settlement of `partial` is computed (0
    /// when no fee is computed).
    pub open spec fn settle_gross(self, partial: Option<i128>) -> i128 {
        if self.settle_charges_fee(partial) {
            match coupon_split(self.settle_basis(partial) as i128, self.esc().yield_bps, self.fee_percentage) {
                Some(gf) => gf.0,
                None => 0,
            }
        } else {
            0
        }
    }

    /// The escrow record after an accepted `settle(partial)`.
    pub open spec fn settled_escrow(self, partial: Option<i128>) -> InvoiceEscrow {
        InvoiceEscrow {
            status: if self.settle_is_full(partial) {
                2
            } else {
                self.esc().status
            },
            ..self.esc()
        }
    }

    /// The events of an accepted `settle(partial)` at `now`: the protocol fee when one
    /// is collected, the distribution snapshot when the pool is sized, the settlement
    /// record (full or partial), then the health warning of the settled escrow.
    pub open spec fn settle_events(self, partial: Option<i128>, now: u64) -> Seq<Event> {
        let ne = self.settled_escrow(partial);
        let new = self.settle_new_amount(partial) as i128;
        let fee = self.settle_fee(partial);
        let gross = self.settle_gross(partial);
        let fee_ev = if fee > 0 {
            seq![Event::ProtocolFeeCollected(ProtocolFeeCollected {
                invoice_id: ne.invoice_id,
                gross_coupon: gross,
                fee_percentage: self.fee_percentage,
                fee_amount: fee,
                net_coupon: clamp_i128(gross - fee),
            })]
        } else {
            seq![]
        };
        let snap_ev = if self.settle_sizes_pool(partial) {
            seq![Event::YieldDistSnapshotCreated(YieldDistSnapshotCreated {
                invoice_id: ne.invoice_id,
                settled_amount: new,
                investor_count: self.unique_funder_count,
                captured_at_ledger_timestamp: now,
            })]
        } else {
            seq![]
        };
        let main = if self.settle_is_full(partial) {
            Event::EscrowSettled(EscrowSettled {
                invoice_id: ne.invoice_id,
                funded_amount: ne.funded_amount,
                yield_bps: ne.yield_bps,
                maturity: ne.maturity,
                settled_at_ledger_timestamp: now,
            })
        } else {
            Event::EscrowPartiallySettled(EscrowPartiallySettled {
                invoice_id: ne.invoice_id,
                funded_amount: ne.funded_amount,
                settled_amount: new,
                yield_bps: ne.yield_bps,
                maturity: ne.maturity,
                settled_at_ledger_timestamp: now,
            })
        };
        fee_ev + snap_ev + seq![main] + health_events(ne, now)
    }

    /// The transfers of an accepted `settle(partial)`: the protocol fee, if positive,
    /// to the treasury.
    pub open spec fn settle_transfers(self, partial: Option<i128>) -> Seq<Transfer> {
        if self.settle_fee(partial) > 0 {
            seq![Transfer { to: self.treasury->Some_0, amount: self.settle_fee(partial) }]
        } else {
            seq![]
        }
    }

    fn settle_check(&self, partial_amount: Option<i128>, now: u64, sme_cleared: bool) -> (r: Result<(i128, i128, i128), EscrowError>)
        ensures
            match r {
                Ok((new_amount, fee, gross)) => self.settle_error(partial_amount, now, sme_cleared) is None
                    && new_amount == self.settle_new_amount(partial_amount)
                    && fee == self.settle_fee(partial_amount)
                    && gross == self.settle_gross(partial_amount),
                Err(e) => self.settle_error(partial_amount, now, sme_cleared) == Some(e),
            },
    {
        if self.legal_hold {
            return Err(EscrowError::LegalHoldBlocksSettlement);
        }
        if self.escrow_paused {
            return Err(EscrowError::EscrowIsPaused);
        }
        if self.is_dispute_paused(now) {
            return Err(EscrowError::DisputePausedBlocksSettlement);
        }
        let e: &InvoiceEscrow = match &self.escrow {
            Some(e) => e,
            None => {
                return Err(EscrowError::EscrowNotInitialized);
            },
        };
        if self.sanctions_provider.is_some() && !sme_cleared {
            return Err(EscrowError::SanctionsScreeningFailed);
        }
        if e.status != 1 {
            return Err(EscrowError::SettlementNotFunded);
        }
        if e.maturity > 0 && now < e.maturity {
            return Err(EscrowError::MaturityNotReached);
        }
        let current = self.settled_amount;
        let new_amount: i128 = match partial_amount {
            Some(a) => {
                if a <= 0 {
                    return Err(EscrowError::SettlementNotPositive);
                }
                if a > e.funded_amount {
                    return Err(EscrowError::SettlementExceedsFunded);
                }
                if current > e.funded_amount - a {
                    return Err(EscrowError::SettlementExceedsFunded);
                }
                current + a
            },
            None => e.funded_amount,
        };
        let full = new_amount == e.funded_amount;
        let mut fee: i128 = 0;
        let mut gross_coupon: i128 = 0;
        if self.fee_percentage > 0 {
            let basis: i128 = if full {
                e.funded_amount
            } else {
                new_amount - current
            };
            if basis > 0 {
                match split_coupon(basis, e.yield_bps, self.fee_percentage) {
                    Some((g, f)) => {
                        fee = f;
                        gross_coupon = g;
                    },
                    None => {
                        return Err(EscrowError::ComputePayoutArithmeticOverflow);
                    },
                }
            }
        }
        if fee > 0 {
            if self.treasury.is_none() {
                return Err(EscrowError::TreasuryNotSet);
            }
            if self.funding_token.is_none() {
                return Err(EscrowError::FundingTokenNotSet);
            }
        }
        if self.yield_auto_distribution && full {
            match self.funding_close_snapshot {
                Some(s) => if s.total_principal > 0 {
                    match split_coupon(new_amount, e.yield_bps, self.fee_percentage) {
                        Some((gross, f)) => {
                            let net = sat_sub(gross, f);
                            if new_amount.checked_add(net).is_none() {
                                return Err(EscrowError::ComputePayoutArithmeticOverflow);
                            }
                        },
                        None => {
                            return Err(EscrowError::ComputePayoutArithmeticOverflow);
                        },
                    }
                },
                None => {},
            }
        }
        Ok((new_amount, fee, gross_coupon))
    }

    /// Settle the escrow (SME-authorized), fully or by `partial_amount`.
    ///
    /// Requires status funded (1) and, when a maturity is set, that it has been reached.
    /// Partial amounts accumulate in `settled_amount`; the status becomes settled (2)
    /// once the whole funded amount is settled. A positive protocol fee on the settled
    /// coupon is transferred to the treasury. `sme_screening` answers the sanctions
    /// screening of the SME. A refusal changes nothing; one that comes before maturity
    /// publishes the maturity diagnostic first.
    pub fn settle(&mut self, call: &mut Invocation, partial_amount: Option<i128>, sme_screening: Screening) -> (r: Result<InvoiceEscrow, EscrowError>)
        ensures
            match r {
                Ok(e) => old(self).settle_error(partial_amount, old(call).timestamp, sme_screening.sanctions_cleared) is None
                    && old(self).settled_state(*final(self), partial_amount)
                    && e == final(self).esc()
                    && final(call).emits(*old(call), seq![old(self).esc().sme_address], old(self).settle_transfers(partial_amount),
                        old(self).settle_events(partial_amount, old(call).timestamp)),
                Err(e) => old(self).settle_error(partial_amount, old(call).timestamp, sme_screening.sanctions_cleared) == Some(e)
                    && *final(self) == *old(self)
                    && final(call).emits(*old(call), seq![], seq![], old(self).settle_diagnostics(partial_amount, old(call).timestamp, sme_screening.sanctions_cleared)),
            },
    {
        let (new_amount, fee, gross) = match self.settle_check(partial_amount, call.timestamp, sme_screening.sanctions_cleared) {
            Ok(v) => v,
            Err(e) => {
                let mut d: Vec<Event> = Vec::new();
                if e == EscrowError::MaturityNotReached {
                    let es = self.escrow_record();
                    d.push(Event::ErrorDiagnosticEmitted(ErrorDiagnosticEmitted {
                        error_code: e.code(),
                        context: DiagnosticContext::MaturityNotReached {
                            maturity: es.maturity,
                            seconds_remaining: es.maturity - call.timestamp,
                        },
                    }));
                }
                call.emit_all(d);
                return Err(e);
            },
        };
        let ghost g = *self;
        let now = call.timestamp;
        let mut e = self.escrow_record();
        let sme = e.sme_address;
        let full = new_amount == e.funded_amount;
        if full {
            e.status = 2;
        }
        let mut evs: Vec<Event> = Vec::new();
        if fee > 0 {
            evs.push(Event::ProtocolFeeCollected(ProtocolFeeCollected {
                invoice_id: e.invoice_id.clone(),
                gross_coupon: gross,
                fee_percentage: self.fee_percentage,
                fee_amount: fee,
                net_coupon: sat_sub(gross, fee),
            }));
        }
        let ghost e1 = evs@;
        let sizes_pool = self.yield_auto_distribution && full && match self.funding_close_snapshot {
            Some(snap) => snap.total_principal > 0,
            None => false,
        };
        if sizes_pool {
            evs.push(Event::YieldDistSnapshotCreated(YieldDistSnapshotCreated {
                invoice_id: e.invoice_id.clone(),
                settled_amount: new_amount,
                investor_count: self.unique_funder_count,
                captured_at_ledger_timestamp: now,
            }));
        }
        let ghost e2 = evs@;
        if full {
            evs.push(Event::EscrowSettled(EscrowSettled {
                invoice_id: e.invoice_id.clone(),
                funded_amount: e.funded_amount,
                yield_bps: e.yield_bps,
                maturity: e.maturity,
                settled_at_ledger_timestamp: now,
            }));
        } else {
            evs.push(Event::EscrowPartiallySettled(EscrowPartiallySettled {
                invoice_id: e.invoice_id.clone(),
                funded_amount: e.funded_amount,
                settled_amount: new_amount,
                yield_bps: e.yield_bps,
                maturity: e.maturity,
                settled_at_ledger_timestamp: now,
            }));
        }
        let ghost e3 = evs@;
        let mut hw = health_events_of(&e, now);
        let ghost hws = hw@;
        evs.append(&mut hw);
        proof {
            assert(e == g.settled_escrow(partial_amount));
            assert(e3 =~= e2 + seq![e3[e2.len() as int]]);
            assert(evs@ =~= e1 + (e2.skip(e1.len() as int)) + seq![e3[e2.len() as int]] + hws);
            assert(evs@ =~= g.settle_events(partial_amount, now));
        }
        self.settled_amount = new_amount;
        self.escrow = Some(e);
        call.require_auth(sme);
        if fee > 0 {
            let treasury = match self.treasury {
                Some(t) => t,
                None => 0,
            };
            let ghost mid = *call;
            call.push_transfer(treasury, fee);
            assert(call.auths@ =~= old(call).auths@ + seq![sme]);
        } else {
            assert(call.transfers@ =~= old(call).transfers@ + Seq::<Transfer>::empty());
        }
        call.emit_all(evs);
        Ok(self.escrow_record())
    }

    /// The first guard that refuses `partial_settle` by `caller`.
    pub open spec fn partial_settle_error(self, caller: AccountId) -> Option<EscrowError> {
        let e = self.esc();
        if self.legal_hold {
            Some(EscrowError::LegalHoldBlocksSettlement)
        } else if self.escrow is None {
            Some(EscrowError::EscrowNotInitialized)
        } else if !(caller == e.sme_address || caller == e.admin || self.has_role(caller, AdminRole::SettlementOnly)) {
            Some(EscrowError::UnauthorizedPartialSettlement)
        } else if e.status != 0 {
            Some(EscrowError::PartialSettlementNotOpen)
        } else {
            None
        }
    }

    /// The state after an accepted `partial_settle`: funding closes early (status 1)
    /// and the close snapshot records the principal raised so far, if none exists.
    pub open spec fn partially_settled_state(self, new: Self, now: u64, seq: u32) -> bool {
        let e = self.esc();
        new == (LiquifactEscrow {
            escrow: Some(InvoiceEscrow { status: 1, ..e }),
            funding_close_snapshot: if self.funding_close_snapshot is None {
                Some(
                    FundingCloseSnapshot {
                        total_principal: e.funded_amount,
                        funding_target: e.funding_target,
                        closed_at_ledger_timestamp: now,
                        closed_at_ledger_sequence: seq,
                    },
                )
            } else {
                self.funding_close_snapshot
            },
            funding_close_merkle_root: if self.funding_close_snapshot is None {
                self.empty_merkle_root
            } else {
                self.funding_close_merkle_root
            },
            ..self
        })
    }

    /// The events of an accepted `partial_settle`: the Merkle root bound when this call
    /// closes funding first, then the early-close record.
    pub open spec fn partial_settle_events(self) -> Seq<Event> {
        let e = self.esc();
        let bound = match self.empty_merkle_root {
            Some(root) => if self.funding_close_snapshot is None {
                seq![Event::FundingCloseMerkleRootBound(FundingCloseMerkleRootBound { invoice_id: e.invoice_id, merkle_root: root })]
            } else {
                seq![]
            },
            None => seq![],
        };
        bound + seq![Event::EscrowPartialSettle(EscrowPartialSettle { invoice_id: e.invoice_id, funded_amount: e.funded_amount })]
    }

    /// Close funding early for an under-funded escrow (status 0 to 1) so that it can be
    /// settled. `caller` (the SME, the admin, or a holder of at least the settlement
    /// role) must authorize.
    pub fn partial_settle(&mut self, call: &mut Invocation, caller: AccountId) -> (r: Result<InvoiceEscrow, EscrowError>)
        ensures
            match r {
                Ok(e) => old(self).partial_settle_error(caller) is None
                    && old(self).partially_settled_state(*final(self), old(call).timestamp, old(call).sequence)
                    && e == final(self).esc()
                    && final(call).emits(*old(call), seq![caller], seq![], old(self).partial_settle_events()),
                Err(e) => old(self).partial_settle_error(caller) == Some(e)
                    && *final(self) == *old(self) && *final(call) == *old(call),
            },
    {
        if self.legal_hold {
            return Err(EscrowError::LegalHoldBlocksSettlement);
        }
        if self.escrow.is_none() {
            return Err(EscrowError::EscrowNotInitialized);
        }
        let mut e = self.escrow_record();
        let role_ok = match self.effective_admin_role(caller) {
            Some(role) => role.level() >= AdminRole::SettlementOnly.level(),
            None => false,
        };
        if !(caller == e.sme_address || caller == e.admin || role_ok) {
            return Err(EscrowError::UnauthorizedPartialSettlement);
        }
        if e.status != 0 {
            return Err(EscrowError::PartialSettlementNotOpen);
        }
        e.status = 1;
        let mut evs: Vec<Event> = Vec::new();
        if self.funding_close_snapshot.is_none() {
            match self.empty_merkle_root {
                Some(root) => {
                    evs.push(Event::FundingCloseMerkleRootBound(FundingCloseMerkleRootBound { invoice_id: e.invoice_id.clone(), merkle_root: root }));
                },
                None => {},
            }
        }
        let ghost pre = evs@;
        evs.push(Event::EscrowPartialSettle(EscrowPartialSettle { invoice_id: e.invoice_id.clone(), funded_amount: e.funded_amount }));
        assert(evs@ =~= pre + seq![evs@[pre.len() as int]]);
        assert(evs@ =~= old(self).partial_settle_events());
        if self.funding_close_snapshot.is_none() {
            self.funding_close_merkle_root = self.empty_merkle_root;
            self.funding_close_snapshot = Some(
                FundingCloseSnapshot {
                    total_principal: e.funded_amount,
                    funding_target: e.funding_target,
                    closed_at_ledger_timestamp: call.timestamp,
                    closed_at_ledger_sequence: call.sequence,
                },
            );
        }
        self.escrow = Some(e);
        call.require_auth(caller);
        call.emit_all(evs);
        Ok(self.escrow_record())
    }

    /// The first guard that refuses `withdraw` by `caller` at ledger time `now`, given
    /// the contract's funding-token balance `balance`.
    pub open spec fn withdraw_error(self, caller: AccountId, now: u64, balance: i128) -> Option<EscrowError> {
        let e = self.esc();
        if self.legal_hold {
            Some(EscrowError::LegalHoldBlocksWithdrawal)
        } else if self.escrow_paused {
            Some(EscrowError::EscrowIsPaused)
        } else if self.dispute_active(now) {
            Some(EscrowError::DisputePausedBlocksWithdrawal)
        } else if self.escrow is None {
            Some(EscrowError::EscrowNotInitialized)
        } else if caller != e.sme_address {
            Some(EscrowError::UnauthorizedWithdrawer)
        } else if e.status != 1 {
            Some(EscrowError::WithdrawalNotFunded)
        } else if self.funding_token is None {
            Some(EscrowError::FundingTokenNotSet)
        } else if balance < e.funded_amount {
            Some(EscrowError::InsufficientContractBalance)
        } else {
            None
        }
    }

    /// The state after an accepted `withdraw`: status withdrawn (3) and the funded
    /// amount counted as distributed principal.
    pub open spec fn withdrawn_state(self, new: Self) -> bool {
        new == (LiquifactEscrow {
            escrow: Some(InvoiceEscrow { status: 3, ..self.esc() }),
            distributed_principal: clamp_i128(self.distributed_principal + self.esc().funded_amount),
            ..self
        })
    }

    /// The SME pulls the funded liquidity: the whole funded amount is transferred to the
    /// SME and the status becomes withdrawn (3). `caller` must be the SME and authorize;
    /// `contract_balance` is the contract's funding-token balance.
    pub fn withdraw(&mut self, call: &mut Invocation, caller: AccountId, contract_balance: i128) -> (r: Result<InvoiceEscrow, EscrowError>)
        ensures
            match r {
                Ok(e) => old(self).withdraw_error(caller, old(call).timestamp, contract_balance) is None
                    && old(self).withdrawn_state(*final(self))
                    && e == final(self).esc()
                    && (final(call).emits(*old(call), seq![caller], seq![Transfer { to: caller, amount: old(self).esc().funded_amount }],
                        seq![Event::SmeWithdrew(SmeWithdrew { invoice_id: e.invoice_id, amount: old(self).esc().funded_amount, recipient: caller })])),
                Err(e) => old(self).withdraw_error(caller, old(call).timestamp, contract_balance) == Some(e)
                    && *final(self) == *old(self) && *final(call) == *old(call),
            },
    {
        if self.legal_hold {
            return Err(EscrowError::LegalHoldBlocksWithdrawal);
        }
        if self.escrow_paused {
            return Err(EscrowError::EscrowIsPaused);
        }
        if self.is_dispute_paused(call.timestamp) {
            return Err(EscrowError::DisputePausedBlocksWithdrawal);
        }
        if self.escrow.is_none() {
            return Err(EscrowError::EscrowNotInitialized);
        }
        let mut e = self.escrow_record();
        if caller != e.sme_address {
            return Err(EscrowError::UnauthorizedWithdrawer);
        }
        if e.status != 1 {
            return Err(EscrowError::WithdrawalNotFunded);
        }
        if self.funding_token.is_none() {
            return Err(EscrowError::FundingTokenNotSet);
        }
        let amount = e.funded_amount;
        if contract_balance < amount {
            return Err(EscrowError::InsufficientContractBalance);
        }
        e.status = 3;
        let ev = Event::SmeWithdrew(SmeWithdrew { invoice_id: e.invoice_id.clone(), amount, recipient: caller });
        self.escrow = Some(e);
        self.distributed_principal = sat_add(self.distributed_principal, amount);
        call.require_auth(caller);
        call.push_transfer(caller, amount);
        assert(call.auths@ =~= old(call).auths@ + seq![caller]);
        call.emit(ev);
        Ok(self.escrow_record())
    }

    /// The amount a dust sweep of `amount` moves when the contract holds `balance`.
    pub open spec fn sweep_amount(amount: i128, balance: i128) -> i128 {
        if amount < balance { amount } else { balance }
    }

    /// The first guard that refuses `sweep_terminal_dust(amount)` when the contract
    /// holds `balance` of the funding token.
    pub open spec fn sweep_error(self, amount: i128, balance: i128) -> Option<EscrowError> {
        let e = self.esc();
        let s = Self::sweep_amount(amount, balance);
        if self.legal_hold {
            Some(EscrowError::LegalHoldBlocksTreasuryDustSweep)
        } else if self.escrow_paused {
            Some(EscrowError::EscrowIsPaused)
        } else if amount <= 0 {
            Some(EscrowError::SweepAmountNotPositive)
        } else if amount > MAX_DUST_SWEEP_AMOUNT {
            Some(EscrowError::SweepAmountExceedsMax)
        } else if self.escrow is None {
            Some(EscrowError::EscrowNotInitialized)
        } else if !(e.status == 2 || e.status == 3 || e.status == 4) {
            Some(EscrowError::DustSweepNotTerminal)
        } else if self.treasury is None {
            Some(EscrowError::TreasuryNotSet)
        } else if self.funding_token is None {
            Some(EscrowError::FundingTokenNotSet)
        } else if balance <= 0 {
            Some(EscrowError::NoFundingTokenBalanceToSweep)
        } else if s <= 0 {
            Some(EscrowError::EffectiveSweepAmountZero)
        } else if e.status == 4 && balance - s < clamp_i128(e.funded_amount - self.distributed_principal) {
            Some(EscrowError::SweepExceedsLiabilityFloor)
        } else {
            None
        }
    }

    /// Sweep up to `amount` (at most [`MAX_DUST_SWEEP_AMOUNT`] and the contract's
    /// funding-token balance `balance`) to the treasury from a settled, withdrawn or cancelled escrow
    /// (treasury-authorized). In a cancelled escrow the balance left must still cover
    /// the principal not yet refunded. Returns the swept amount; the state is unchanged.
    pub fn sweep_terminal_dust(&mut self, call: &mut Invocation, amount: i128, balance: i128) -> (r: Result<i128, EscrowError>)
        ensures
            *final(self) == *old(self),
            match r {
                Ok(s) => old(self).sweep_error(amount, balance) is None && s == Self::sweep_amount(amount, balance)
                    && (final(call).emits(*old(call), seq![old(self).treasury->Some_0], seq![Transfer { to: old(self).treasury->Some_0, amount: s }],
                        seq![Event::TreasuryDustSwept(TreasuryDustSwept { invoice_id: old(self).esc().invoice_id, token: old(self).funding_token->Some_0, amount: s })])),
                Err(e) => old(self).sweep_error(amount, balance) == Some(e) && *final(call) == *old(call),
            },
    {
        if self.legal_hold {
            return Err(EscrowError::LegalHoldBlocksTreasuryDustSweep);
        }
        if self.escrow_paused {
            return Err(EscrowError::EscrowIsPaused);
        }
        if amount <= 0 {
            return Err(EscrowError::SweepAmountNotPositive);
        }
        if amount > MAX_DUST_SWEEP_AMOUNT {
            return Err(EscrowError::SweepAmountExceedsMax);
        }
        if self.escrow.is_none() {
            return Err(EscrowError::EscrowNotInitialized);
        }
        let e = self.escrow_record();
        if !(e.status == 2 || e.status == 3 || e.status == 4) {
            return Err(EscrowError::DustSweepNotTerminal);
        }
        let treasury = match self.treasury {
            Some(t) => t,
            None => {
                return Err(EscrowError::TreasuryNotSet);
            },
        };
        let token = match self.funding_token {
            Some(t) => t,
            None => {
                return Err(EscrowError::FundingTokenNotSet);
            },
        };
        if balance <= 0 {
            return Err(EscrowError::NoFundingTokenBalanceToSweep);
        }
        let s = if amount < balance { amount } else { balance };
        if s <= 0 {
            return Err(EscrowError::EffectiveSweepAmountZero);
        }
        if e.status == 4 {
            let outstanding = sat_sub(e.funded_amount, self.distributed_principal);
            if balance - s < outstanding {
                return Err(EscrowError::SweepExceedsLiabilityFloor);
            }
        }
        call.require_auth(treasury);
        call.push_transfer(treasury, s);
        assert(call.auths@ =~= old(call).auths@ + seq![treasury]);
        call.emit(Event::TreasuryDustSwept(TreasuryDustSwept { invoice_id: e.invoice_id.clone(), token, amount: s }));
        Ok(s)
    }

    /// The first guard that refuses `record_sme_collateral_commitment(asset, amount)` at
    /// `now`.
    pub open spec fn collateral_error(self, asset: Seq<char>, amount: i128, now: u64) -> Option<EscrowError> {
        if amount <= 0 {
            Some(EscrowError::CollateralAmountNotPositive)
        } else if asset.len() == 0 {
            Some(EscrowError::CollateralAssetEmpty)
        } else if self.escrow_paused {
            Some(EscrowError::EscrowIsPaused)
        } else if self.escrow is None {
            Some(EscrowError::EscrowNotInitialized)
        } else if self.collateral is Some && self.esc().status >= 2 {
            Some(EscrowError::CollateralUpdateAfterSettlement)
        } else if (self.collateral matches Some(c) && now < c.updated_at) {
            Some(EscrowError::CollateralTimestampBackwards)
        } else {
            None
        }
    }

    /// Record or replace the SME's collateral commitment metadata (SME-authorized);
    /// nothing is moved or locked. A replacement keeps the first record time and is
    /// refused once the escrow is settled, withdrawn or cancelled.
    pub fn record_sme_collateral_commitment(&mut self, call: &mut Invocation, asset: String, amount: i128) -> (r: Result<SmeCollateralCommitment, EscrowError>)
        ensures
            match r {
                Ok(c) => old(self).collateral_error(asset@, amount, old(call).timestamp) is None
                    && c == (SmeCollateralCommitment {
                        asset,
                        amount,
                        recorded_at: match old(self).collateral {
                            Some(p) => p.recorded_at,
                            None => old(call).timestamp,
                        },
                        updated_at: old(call).timestamp,
                    })
                    && *final(self) == (LiquifactEscrow { collateral: Some(c), ..*old(self) })
                    && (final(call).emits(*old(call), seq![old(self).esc().sme_address], seq![],
                        seq![Event::CollateralRecordedEvt(CollateralRecordedEvt {
                            invoice_id: old(self).esc().invoice_id,
                            amount,
                            prior_amount: match old(self).collateral {
                                Some(p) => p.amount,
                                None => 0,
                            },
                        })])),
                Err(e) => old(self).collateral_error(asset@, amount, old(call).timestamp) == Some(e)
                    && *final(self) == *old(self) && *final(call) == *old(call),
            },
    {
        let now = call.timestamp;
        if amount <= 0 {
            return Err(EscrowError::CollateralAmountNotPositive);
        }
        if asset.as_str().is_empty() {
            return Err(EscrowError::CollateralAssetEmpty);
        }
        if self.escrow_paused {
            return Err(EscrowError::EscrowIsPaused);
        }
        if self.escrow.is_none() {
            return Err(EscrowError::EscrowNotInitialized);
        }
        let e = self.escrow_record();
        let prior_amount: i128 = match &self.collateral {
            Some(p) => p.amount,
            None => 0,
        };
        let recorded_at = match &self.collateral {
            Some(p) => {
                if e.status >= 2 {
                    return Err(EscrowError::CollateralUpdateAfterSettlement);
                }
                if now < p.updated_at {
                    return Err(EscrowError::CollateralTimestampBackwards);
                }
                p.recorded_at
            },
            None => now,
        };
        let c = SmeCollateralCommitment { asset, amount, recorded_at, updated_at: now };
        self.collateral = Some(c.clone());
        call.require_auth(e.sme_address);
        call.emit(Event::CollateralRecordedEvt(CollateralRecordedEvt { invoice_id: e.invoice_id.clone(), amount, prior_amount }));
        Ok(c)
    }

    /// The contract's funding-token balance `balance` (read by the host) minus the
    /// recorded funded amount (admin-authorized): positive for a surplus, negative for
    /// a shortfall. The state is unchanged.
    pub fn verify_asset_custody(&mut self, call: &mut Invocation, balance: i128) -> (r: Result<i128, EscrowError>)
        requires
            old(self).escrow is Some ==> i128::MIN <= balance - old(self).esc().funded_amount <= i128::MAX,
        ensures
            *final(self) == *old(self),
            match r {
                Ok(d) => old(self).admin_gate_error() is None && old(self).funding_token is Some
                    && d == balance - old(self).esc().funded_amount
                    && (final(call).emits(*old(call), seq![old(self).esc().admin], seq![],
                        seq![Event::AssetCustodyVerified(AssetCustodyVerified {
                            invoice_id: old(self).esc().invoice_id,
                            recorded_funded_amount: old(self).esc().funded_amount,
                            contract_balance: balance,
                            discrepancy: d,
                        })])),
                Err(e) => *final(call) == *old(call) && (if old(self).admin_gate_error() is Some {
                        old(self).admin_gate_error() == Some(e)
                    } else {
                        old(self).funding_token is None && e == EscrowError::FundingTokenNotSet
                    }),
            },
    {
        let admin = match self.admin_gate() {
            Ok(a) => a,
            Err(e) => {
                return Err(e);
            },
        };
        if self.funding_token.is_none() {
            return Err(EscrowError::FundingTokenNotSet);
        }
        let e = self.escrow_record();
        let funded = e.funded_amount;
        call.require_auth(admin);
        let d = balance - funded;
        call.emit(Event::AssetCustodyVerified(AssetCustodyVerified {
            invoice_id: e.invoice_id.clone(),
            recorded_funded_amount: funded,
            contract_balance: balance,
            discrepancy: d,
        }));
        Ok(d)
    }
}

} // verus!
