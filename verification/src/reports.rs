use vstd::prelude::*;

use crate::error::EscrowError;
use crate::escrow::LiquifactEscrow;
use crate::events::{EscrowHealthWarning, Event, StateInconsistenciesDetected};
use crate::types::{FundingCloseSnapshot, Invocation, InvoiceEscrow};

verus! {

/// The funding-close snapshot as reported in summaries.
#[derive(Copy, Clone, Debug, PartialEq, Eq, Structural)]
pub enum EscrowCloseSnapshot {
    /// Funding has not closed yet.
    Absent,
    /// The snapshot written when funding closed.
    Present(FundingCloseSnapshot),
}

/// Findings of [`LiquifactEscrow::detect_state_inconsistencies`]; all `false` means the
/// state is consistent.
#[derive(Copy, Clone, Debug, PartialEq, Eq, Structural)]
pub struct StateInconsistencyReport {
    /// Funded beyond the target but still open.
    pub funded_exceeds_target_stale: bool,
    /// Principal received but still open.
    pub funded_positive_status_open: bool,
    /// Past open with no principal.
    pub funded_zero_status_advanced: bool,
    /// Investors recorded but still open.
    pub funders_exist_status_open: bool,
    /// Past open with no investor recorded.
    pub no_funders_advanced_status: bool,
    /// A funding-close snapshot while still open.
    pub snapshot_exists_not_funded: bool,
    /// Settled or later without a funding-close snapshot.
    pub snapshot_missing_post_funded: bool,
    /// Settled while the maturity lock is still running.
    pub settled_before_maturity_lock: bool,
    /// Non-positive target or amount.
    pub invalid_funding_amounts: bool,
    /// A status above 4.
    pub invalid_status_value: bool,
}

/// Dashboard metrics of an escrow.
#[derive(Copy, Clone, Debug, PartialEq, Eq, Structural)]
pub struct EscrowHealthMetrics {
    /// `funded * 100 / target` (truncated), at most 100; 0 without a positive target.
    pub funding_progress_percent: u32,
    /// Whole days (truncated) from now to maturity; negative once passed, 0 without
    /// maturity.
    pub days_to_maturity: i64,
    pub unique_investor_count: u32,
    /// Funded amount per investor (truncated); 0 without investors.
    pub average_contribution_size: i128,
    /// Flat coupon on the whole funded amount (truncated).
    pub estimated_yield_payout: i128,
}

/// A per-investor payout fixed at settlement time.
#[derive(Copy, Clone, Debug, PartialEq, Eq, Structural)]
pub struct YieldDistributionSnapshot {
    pub payout_amount: i128,
    pub captured_at_ledger_timestamp: u64,
    pub captured_at_ledger_sequence: u32,
}

/// Metadata of a settlement NFT.
#[derive(Copy, Clone, Debug, PartialEq, Eq, Structural)]
pub struct SettlementNftMetadata {
    pub token_id: u32,
    pub minted_at_ledger_timestamp: u64,
}

/// A settlement NFT as reported in summaries.
#[derive(Copy, Clone, Debug, PartialEq, Eq, Structural)]
pub enum SettlementNftSnapshot {
    /// No settlement NFT was minted.
    Absent,
    /// The minted NFT.
    Present(SettlementNftMetadata),
}

/// `x` reinterpreted as a two's-complement `i64`.
pub open spec fn wrap_i64(x: u64) -> int {
    if x <= i64::MAX {
        x as int
    } else {
        x - 0x1_0000_0000_0000_0000
    }
}

/// Compute [`wrap_i64`].
pub fn to_i64_wrapping(x: u64) -> (r: i64)
    ensures
        r == wrap_i64(x),
{
    if x <= 0x7fff_ffff_ffff_ffff {
        x as i64
    } else {
        let low = (x - 0x8000_0000_0000_0000) as i64;
        low + i64::MIN
    }
}

/// `x` clamped into the range of `i64`.
pub open spec fn clamp_i64(x: int) -> i64 {
    if x < i64::MIN {
        i64::MIN
    } else if x > i64::MAX {
        i64::MAX
    } else {
        x as i64
    }
}

/// Funded share of the target in basis points, for health checks: 10 000 without a
/// positive target; otherwise the (saturated) product truncated by the target and
/// clamped to `0..=i64::MAX`.
pub open spec fn funded_ratio_bps(e: InvoiceEscrow) -> i64 {
    if e.funding_target > 0 {
        let num = crate::math::clamp_i128(e.funded_amount * 10_000);
        let ratio = num.checked_div(e.funding_target)->Some_0;
        if ratio > i64::MAX {
            i64::MAX
        } else if ratio < 0 {
            0
        } else {
            ratio as i64
        }
    } else {
        10_000
    }
}

/// Seconds from `now` to maturity (both read as `i64`, saturated), or `i64::MAX`
/// without maturity.
pub open spec fn time_to_maturity(e: InvoiceEscrow, now: u64) -> i64 {
    if e.maturity > 0 {
        clamp_i64(wrap_i64(e.maturity) - wrap_i64(now))
    } else {
        i64::MAX
    }
}

/// The health warning code at `now`: 4003 past maturity while still open and under
/// target; 4001 under half funded (within a day of maturity, or while open); 4002
/// within a day of maturity otherwise; 0 for none.
pub open spec fn health_warning(e: InvoiceEscrow, now: u64) -> u32 {
    let ratio = funded_ratio_bps(e);
    let ttm = time_to_maturity(e, now);
    if ttm < 0 && e.status == 0 && e.funded_amount < e.funding_target {
        4003
    } else if ttm >= 0 && ttm < 86400 {
        if ratio < 5000 {
            4001
        } else {
            4002
        }
    } else if ratio < 5000 && e.status == 0 {
        4001
    } else {
        0
    }
}

/// The health warning published for `e` at `now`: one event when a warning applies,
/// none otherwise.
pub open spec fn health_events(e: InvoiceEscrow, now: u64) -> Seq<Event> {
    if health_warning(e, now) != 0 {
        seq![
            Event::EscrowHealthWarning(EscrowHealthWarning {
                invoice_id: e.invoice_id,
                warning_type: health_warning(e, now),
                funded_amount: e.funded_amount,
                funding_target: e.funding_target,
                funded_ratio_bps: funded_ratio_bps(e),
                time_to_maturity_secs: time_to_maturity(e, now),
                recorded_at_ledger_timestamp: now,
            }),
        ]
    } else {
        seq![]
    }
}

/// Build [`health_events`].
pub fn health_events_of(e: &InvoiceEscrow, now: u64) -> (r: Vec<Event>)
    ensures
        r@ == health_events(*e, now),
{
    let (w, ratio, ttm) = compute_health_warning(e, now);
    let mut r: Vec<Event> = Vec::new();
    if w != 0 {
        r.push(Event::EscrowHealthWarning(EscrowHealthWarning {
            invoice_id: e.invoice_id.clone(),
            warning_type: w,
            funded_amount: e.funded_amount,
            funding_target: e.funding_target,
            funded_ratio_bps: ratio,
            time_to_maturity_secs: ttm,
            recorded_at_ledger_timestamp: now,
        }));
        assert(r@ =~= health_events(*e, now));
    }
    r
}

/// Compute `(health_warning, funded_ratio_bps, time_to_maturity)` of `e` at `now`.
pub fn compute_health_warning(e: &InvoiceEscrow, now: u64) -> (r: (u32, i64, i64))
    ensures
        r == (health_warning(*e, now), funded_ratio_bps(*e), time_to_maturity(*e, now)),
{
    let ratio: i64 = if e.funding_target > 0 {
        let num: i128 = match e.funded_amount.checked_mul(10_000) {
            Some(v) => v,
            None => if e.funded_amount > 0 {
                i128::MAX
            } else {
                i128::MIN
            },
        };
        let q: i128 = match num.checked_div(e.funding_target) {
            Some(q) => q,
            None => 0,
        };
        if q > i64::MAX as i128 {
            i64::MAX
        } else if q < 0 {
            0
        } else {
            q as i64
        }
    } else {
        10_000
    };
    let ttm: i64 = if e.maturity > 0 {
        let m = to_i64_wrapping(e.maturity);
        let n = to_i64_wrapping(now);
        match m.checked_sub(n) {
            Some(d) => d,
            None => if n > 0 {
                i64::MIN
            } else {
                i64::MAX
            },
        }
    } else {
        i64::MAX
    };
    let w: u32 = if ttm < 0 && e.status == 0 && e.funded_amount < e.funding_target {
        4003
    } else if ttm >= 0 && ttm < 86400 {
        if ratio < 5000 {
            4001
        } else {
            4002
        }
    } else if ratio < 5000 && e.status == 0 {
        4001
    } else {
        0
    };
    (w, ratio, ttm)
}

impl LiquifactEscrow {
    /// `(warning code, funded ratio in bps, seconds to maturity)` at ledger time `now`
    /// (see [`health_warning`]).
    pub fn check_escrow_health(&self, now: u64) -> (r: Result<(u32, i64, i64), EscrowError>)
        ensures
            match r {
                Ok(h) => self.escrow is Some && h == (health_warning(self.esc(), now), funded_ratio_bps(self.esc()), time_to_maturity(self.esc(), now)),
                Err(e) => self.escrow is None && e == EscrowError::EscrowNotInitialized,
            },
    {
        match &self.escrow {
            Some(e) => Ok(compute_health_warning(e, now)),
            None => Err(EscrowError::EscrowNotInitialized),
        }
    }

    /// The inconsistencies of the stored state at `now` (see
    /// [`StateInconsistencyReport`]).
    pub open spec fn inconsistencies(self, now: u64) -> StateInconsistencyReport {
        let e = self.esc();
        StateInconsistencyReport {
            funded_exceeds_target_stale: e.funded_amount > e.funding_target && e.status < 1,
            funded_positive_status_open: e.funded_amount > 0 && e.status == 0,
            funded_zero_status_advanced: e.funded_amount == 0 && e.status >= 1,
            funders_exist_status_open: self.unique_funder_count > 0 && e.status == 0,
            no_funders_advanced_status: self.unique_funder_count == 0 && e.status >= 1,
            snapshot_exists_not_funded: self.funding_close_snapshot is Some && e.status < 1,
            snapshot_missing_post_funded: self.funding_close_snapshot is None && e.status >= 2,
            settled_before_maturity_lock: e.status == 2 && e.maturity > 0 && now < e.maturity,
            invalid_funding_amounts: e.funding_target <= 0 || e.amount <= 0,
            invalid_status_value: e.status > 4,
        }
    }

    /// Whether `r` reports any inconsistency.
    pub open spec fn any_inconsistency(r: StateInconsistencyReport) -> bool {
        r.funded_exceeds_target_stale || r.funded_positive_status_open || r.funded_zero_status_advanced
            || r.funders_exist_status_open || r.no_funders_advanced_status || r.snapshot_exists_not_funded
            || r.snapshot_missing_post_funded || r.settled_before_maturity_lock || r.invalid_funding_amounts
            || r.invalid_status_value
    }

    /// Scan the stored state at the ledger time of `call` for logical
    /// inconsistencies. The state is unchanged; when anything is found, the report is
    /// also published as an event.
    pub fn detect_state_inconsistencies(&self, call: &mut Invocation) -> (r: Result<StateInconsistencyReport, EscrowError>)
        ensures
            match r {
                Ok(rep) => self.escrow is Some && rep == self.inconsistencies(old(call).timestamp)
                    && (final(call).emits(*old(call), seq![], seq![], if Self::any_inconsistency(rep) {
                        seq![Event::StateInconsistenciesDetected(StateInconsistenciesDetected { invoice_id: self.esc().invoice_id, report: rep })]
                    } else {
                        seq![]
                    })),
                Err(e) => self.escrow is None && e == EscrowError::EscrowNotInitialized && *final(call) == *old(call),
            },
    {
        let now = call.timestamp;
        let e = match &self.escrow {
            Some(e) => e,
            None => {
                return Err(EscrowError::EscrowNotInitialized);
            },
        };
        let snap = self.funding_close_snapshot.is_some();
        let rep = StateInconsistencyReport {
            funded_exceeds_target_stale: e.funded_amount > e.funding_target && e.status < 1,
            funded_positive_status_open: e.funded_amount > 0 && e.status == 0,
            funded_zero_status_advanced: e.funded_amount == 0 && e.status >= 1,
            funders_exist_status_open: self.unique_funder_count > 0 && e.status == 0,
            no_funders_advanced_status: self.unique_funder_count == 0 && e.status >= 1,
            snapshot_exists_not_funded: snap && e.status < 1,
            snapshot_missing_post_funded: !snap && e.status >= 2,
            settled_before_maturity_lock: e.status == 2 && e.maturity > 0 && now < e.maturity,
            invalid_funding_amounts: e.funding_target <= 0 || e.amount <= 0,
            invalid_status_value: e.status > 4,
        };
        let found = rep.funded_exceeds_target_stale || rep.funded_positive_status_open || rep.funded_zero_status_advanced
            || rep.funders_exist_status_open || rep.no_funders_advanced_status || rep.snapshot_exists_not_funded
            || rep.snapshot_missing_post_funded || rep.settled_before_maturity_lock || rep.invalid_funding_amounts
            || rep.invalid_status_value;
        let mut evs: Vec<Event> = Vec::new();
        if found {
            evs.push(Event::StateInconsistenciesDetected(StateInconsistenciesDetected { invoice_id: e.invoice_id.clone(), report: rep }));
        }
        call.emit_all(evs);
        Ok(rep)
    }

    /// Whether the dashboard metrics at `now` can be computed without overflow.
    pub open spec fn metrics_in_range(self, now: u64) -> bool {
        let e = self.esc();
        &&& (e.funding_target > 0 ==> i128::MIN <= e.funded_amount * 100 <= i128::MAX)
        &&& (e.maturity != 0 ==> i64::MIN <= wrap_i64(e.maturity) - wrap_i64(now) <= i64::MAX)
        &&& i128::MIN <= e.funded_amount * e.yield_bps <= i128::MAX
    }

    /// The dashboard metrics at `now`.
    pub open spec fn metrics(self, now: u64) -> EscrowHealthMetrics {
        let e = self.esc();
        let n = self.unique_funder_count;
        EscrowHealthMetrics {
            funding_progress_percent: if e.funding_target > 0 {
                let pct = ((e.funded_amount * 100) as i128).checked_div(e.funding_target)->Some_0;
                (if pct < 100 { pct } else { 100 }) as u32
            } else {
                0
            },
            days_to_maturity: if e.maturity == 0 {
                0
            } else {
                ((wrap_i64(e.maturity) - wrap_i64(now)) as i64).checked_div(86_400)->Some_0
            },
            unique_investor_count: n,
            average_contribution_size: if n > 0 {
                e.funded_amount.checked_div(n as i128)->Some_0
            } else {
                0
            },
            estimated_yield_payout: ((e.funded_amount * e.yield_bps) as i128).checked_div(10_000)->Some_0,
        }
    }

    /// Dashboard metrics at ledger time `now`; read only.
    pub fn get_escrow_health_metrics(&self, now: u64) -> (r: Result<EscrowHealthMetrics, EscrowError>)
        requires
            self.escrow is Some ==> self.metrics_in_range(now),
        ensures
            match r {
                Ok(m) => self.escrow is Some && m == self.metrics(now),
                Err(e) => self.escrow is None && e == EscrowError::EscrowNotInitialized,
            },
    {
        let e = match &self.escrow {
            Some(e) => e,
            None => {
                return Err(EscrowError::EscrowNotInitialized);
            },
        };
        let n = self.unique_funder_count;
        let pct_u: u32 = if e.funding_target > 0 {
            let pct: i128 = match (e.funded_amount * 100).checked_div(e.funding_target) {
                Some(q) => q,
                None => 0,
            };
            let capped: i128 = if pct < 100 { pct } else { 100 };
            #[verifier::truncate]
            let out = capped as u32;
            out
        } else {
            0
        };
        let days: i64 = if e.maturity == 0 {
            0
        } else {
            let d: i64 = to_i64_wrapping(e.maturity) - to_i64_wrapping(now);
            match d.checked_div(86_400) {
                Some(q) => q,
                None => 0,
            }
        };
        let avg: i128 = if n > 0 {
            match e.funded_amount.checked_div(n as i128) {
                Some(q) => q,
                None => 0,
            }
        } else {
            0
        };
        let est: i128 = match (e.funded_amount * (e.yield_bps as i128)).checked_div(10_000) {
            Some(q) => q,
            None => 0,
        };
        Ok(EscrowHealthMetrics {
            funding_progress_percent: pct_u,
            days_to_maturity: days,
            unique_investor_count: n,
            average_contribution_size: avg,
            estimated_yield_payout: est,
        })
    }
}

} // verus!
