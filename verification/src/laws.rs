use vstd::prelude::*;

use crate::constants::INVESTOR_BUCKET_COUNT;
use crate::error::EscrowError;
use crate::escrow::LiquifactEscrow;
use crate::init::InitArgs;
use crate::init_params::{init_params_error, InitParams};
use crate::math::{clamp_i128, coupon_split};
use crate::reports::{health_events, health_warning, time_to_maturity};
use crate::events::{Event, ProtocolFeeCollected, YieldReinvested};
use crate::types::{AccountId, InvestorPosition, InvoiceEscrow, Screening, Transfer};

verus! {

broadcast use vstd::std_specs::hash::group_hash_axioms;

/// The status of an initialized escrow never goes back, and an initialized escrow
/// stays initialized, from `old` to `new`.
pub open spec fn status_progresses(old: LiquifactEscrow, new: LiquifactEscrow) -> bool {
    old.escrow is Some ==> new.escrow is Some && new.esc().status >= old.esc().status
}

/// Accepted deposits, early closes, settlements, withdrawals, cancellations and
/// archiving only move the status forward.
pub proof fn law_status_only_moves_forward(
    s: LiquifactEscrow,
    n: LiquifactEscrow,
    investor: AccountId,
    amount: i128,
    simple: bool,
    committed: u64,
    now: u64,
    seq: u32,
    scr: Screening,
    partial: Option<i128>,
)
    ensures
        s.fund_error(investor, amount, simple, committed, now, seq, scr) is None
            && s.fund_applied(n, investor, amount, simple, committed, now, seq) ==> status_progresses(s, n),
        s.partial_settle_error(investor) is None && s.partially_settled_state(n, now, seq) ==> status_progresses(s, n),
        s.settle_error(partial, now, scr.sanctions_cleared) is None && s.settled_state(n, partial) ==> status_progresses(s, n),
        s.withdraw_error(investor, now, amount) is None && s.withdrawn_state(n) ==> status_progresses(s, n),
        s.cancel_error() is None && n == (LiquifactEscrow { escrow: Some(InvoiceEscrow { status: 4, ..s.esc() }), ..s })
            ==> status_progresses(s, n),
        s.archive_error() is None && n == (LiquifactEscrow { escrow: Some(InvoiceEscrow { status: 5, ..s.esc() }), ..s })
            ==> status_progresses(s, n),
{
}

/// `init` succeeds at most once: on an initialized escrow it is always refused.
pub proof fn law_init_only_once(s: LiquifactEscrow, a: InitArgs, now: u64)
    requires
        s.escrow is Some,
    ensures
        s.init_error(a, now) is Some,
{
}

/// The funding-close snapshot is written once: an accepted deposit or early close
/// keeps an existing snapshot (and the Merkle root bound with it).
pub proof fn law_close_snapshot_written_once(
    s: LiquifactEscrow,
    n: LiquifactEscrow,
    investor: AccountId,
    amount: i128,
    simple: bool,
    committed: u64,
    now: u64,
    seq: u32,
)
    requires
        s.funding_close_snapshot is Some,
    ensures
        s.fund_applied(n, investor, amount, simple, committed, now, seq) ==> n.funding_close_snapshot
            == s.funding_close_snapshot && n.funding_close_merkle_root == s.funding_close_merkle_root,
        s.partially_settled_state(n, now, seq) ==> n.funding_close_snapshot == s.funding_close_snapshot
            && n.funding_close_merkle_root == s.funding_close_merkle_root,
{
}

/// Funding closes exactly when a deposit brings the funded amount to the target: the
/// status becomes funded and, if it was the first close, the snapshot records the
/// funded principal.
pub proof fn law_funding_closes_at_target(
    s: LiquifactEscrow,
    n: LiquifactEscrow,
    investor: AccountId,
    amount: i128,
    simple: bool,
    committed: u64,
    now: u64,
    seq: u32,
    scr: Screening,
)
    requires
        s.fund_error(investor, amount, simple, committed, now, seq, scr) is None,
        s.fund_applied(n, investor, amount, simple, committed, now, seq),
    ensures
        n.esc().funded_amount == s.esc().funded_amount + amount,
        (n.esc().status == 1) == (s.esc().funded_amount + amount >= s.esc().funding_target),
        n.esc().status == 0 || n.esc().status == 1,
        n.esc().status == 1 && s.funding_close_snapshot is None ==> (n.funding_close_snapshot
            matches Some(c) && c.total_principal == n.esc().funded_amount),
{
}

/// The funding token, the treasury and the tier ladder never change once bound:
/// no accepted deposit, settlement, withdrawal or claim touches them.
pub proof fn law_bindings_immutable(
    s: LiquifactEscrow,
    n: LiquifactEscrow,
    investor: AccountId,
    amount: i128,
    simple: bool,
    committed: u64,
    now: u64,
    seq: u32,
    partial: Option<i128>,
)
    ensures
        s.fund_applied(n, investor, amount, simple, committed, now, seq) ==> n.funding_token == s.funding_token
            && n.treasury == s.treasury && n.yield_tiers == s.yield_tiers,
        s.settled_state(n, partial) ==> n.funding_token == s.funding_token && n.treasury == s.treasury,
        s.withdrawn_state(n) ==> n.funding_token == s.funding_token && n.treasury == s.treasury,
        s.claimed_state(n, investor, now, seq) ==> n.funding_token == s.funding_token && n.treasury == s.treasury,
        s.refunded_state(n, investor) ==> n.funding_token == s.funding_token && n.treasury == s.treasury,
{
}

/// While a legal hold is set, funding, settlement, withdrawal, cancellation, claims,
/// dust sweeps and beneficiary rotation are all refused.
pub proof fn law_legal_hold_blocks_movement(
    s: LiquifactEscrow,
    investor: AccountId,
    amount: i128,
    simple: bool,
    committed: u64,
    now: u64,
    seq: u32,
    scr: Screening,
    partial: Option<i128>,
    balance: i128,
)
    requires
        s.legal_hold,
    ensures
        amount > 0 && (s.min_contribution_floor <= 0 || amount >= s.min_contribution_floor) && s.escrow is Some
            ==> s.fund_error(investor, amount, simple, committed, now, seq, scr) == Some(EscrowError::LegalHoldBlocksFunding),
        s.settle_error(partial, now, scr.sanctions_cleared) == Some(EscrowError::LegalHoldBlocksSettlement),
        s.partial_settle_error(investor) == Some(EscrowError::LegalHoldBlocksSettlement),
        s.withdraw_error(investor, now, balance) == Some(EscrowError::LegalHoldBlocksWithdrawal),
        s.cancel_error() == Some(EscrowError::LegalHoldBlocksCancelFunding),
        s.claim_error(investor, now) == Some(EscrowError::LegalHoldBlocksInvestorClaims),
        s.sweep_error(amount, balance) == Some(EscrowError::LegalHoldBlocksTreasuryDustSweep),
        s.rotate_error(investor) == Some(EscrowError::LegalHoldBlocksBeneficiaryRotation),
{
}

/// A legal hold set with `set_legal_hold` leaves the escrow open or funded, and no
/// operation that the hold does not block moves it to settled or beyond; so the
/// admin can always lift it again (once any clear delay has run).
pub proof fn law_hold_set_on_live_escrow(s: LiquifactEscrow, active: bool, reason: Seq<char>, now: u64)
    requires
        s.set_legal_hold_error(active, reason, now) is None,
    ensures
        s.esc().status < 2,
        s.set_legal_hold_error(false, Seq::empty(), now) is None || s.set_legal_hold_error(false, Seq::empty(), now)
            == Some(EscrowError::LegalHoldClearRequestMissing) || s.set_legal_hold_error(false, Seq::empty(), now)
            == Some(EscrowError::LegalHoldClearNotReady),
{
    assert(vstd::utf8::encode_utf8(Seq::<char>::empty()) =~= Seq::<u8>::empty()) by {
        reveal_with_fuel(vstd::utf8::encode_utf8, 2);
    }
}

/// A claim marks the investor claimed; claiming again changes nothing and publishes
/// nothing, at any later time.
pub proof fn law_claim_is_idempotent(
    s0: LiquifactEscrow,
    s1: LiquifactEscrow,
    s2: LiquifactEscrow,
    investor: AccountId,
    now: u64,
    later: u64,
    seq: u32,
)
    requires
        s0.claim_error(investor, now) is None,
        s0.claimed_state(s1, investor, now, seq),
        s1.claimed_state(s2, investor, later, seq),
    ensures
        s1.pos(investor).claimed,
        s2 == s1,
        s1.claim_events(investor, later) == Seq::<crate::events::Event>::empty(),
{
}

/// A refund returns the whole contribution once: afterwards the contribution is zero,
/// the investor is marked refunded, the amount counts as distributed principal, and a
/// second refund is refused.
pub proof fn law_refund_once(s0: LiquifactEscrow, s1: LiquifactEscrow, investor: AccountId)
    requires
        s0.refund_error(investor) is None,
        s0.refunded_state(s1, investor),
    ensures
        s1.pos(investor).contribution == 0,
        s1.pos(investor).refunded,
        s1.distributed_principal == clamp_i128(s0.distributed_principal + s0.pos(investor).contribution),
        s1.refund_error(investor) == Some(EscrowError::NoContributionToRefund),
{
}

/// A dust sweep on a cancelled escrow leaves at least the principal not yet refunded
/// in the contract.
pub proof fn law_sweep_keeps_liability_floor(s: LiquifactEscrow, amount: i128, balance: i128)
    requires
        s.sweep_error(amount, balance) is None,
        s.esc().status == 4,
    ensures
        balance - LiquifactEscrow::sweep_amount(amount, balance) >= clamp_i128(s.esc().funded_amount - s.distributed_principal),
        0 < LiquifactEscrow::sweep_amount(amount, balance) <= amount,
        LiquifactEscrow::sweep_amount(amount, balance) <= balance,
{
}

/// Admin authority moves only by a proposal of the current admin followed by the
/// successor's acceptance.
pub proof fn law_admin_handover(s0: LiquifactEscrow, s1: LiquifactEscrow, s2: LiquifactEscrow, new_admin: AccountId)
    requires
        s0.propose_admin_error(new_admin) is None,
        s1 == (LiquifactEscrow { pending_admin: Some(new_admin), ..s0 }),
        s1.accept_admin_error() is None,
        s2 == (LiquifactEscrow {
            escrow: Some(InvoiceEscrow { admin: s1.pending_admin->Some_0, ..s1.esc() }),
            pending_admin: None,
            ..s1
        }),
    ensures
        s1.esc().admin == s0.esc().admin,
        s2.esc().admin == new_admin,
        s2.pending_admin is None,
        s2.accept_admin_error() == Some(EscrowError::NoPendingAdmin),
{
}

/// The yield and claim gate of an investor are fixed by its first deposit: later plain
/// deposits keep them, and a committed deposit after the first is refused.
pub proof fn law_yield_fixed_by_first_deposit(
    s: LiquifactEscrow,
    investor: AccountId,
    amount: i128,
    committed: u64,
    now: u64,
    seq: u32,
    scr: Screening,
)
    requires
        s.pos(investor).contribution != 0,
    ensures
        s.funded_position(investor, amount, true, 0, now).effective_yield_bps == s.pos(investor).effective_yield_bps,
        s.funded_position(investor, amount, true, 0, now).claim_not_before == s.pos(investor).claim_not_before,
        s.fund_error(investor, amount, false, committed, now, seq, scr) is Some,
{
}

/// A dispute pause lapses on its own: from its expiry on it no longer blocks
/// anything.
pub proof fn law_dispute_pause_expires(s: LiquifactEscrow, now: u64)
    requires
        (s.dispute_pause matches Some(p) && now >= p.expires_at_ledger_timestamp),
    ensures
        !s.dispute_active(now),
{
}

/// The settlement pool of investors at yield `y`: the snapshot principal plus its
/// coupon net of the protocol fee.
pub open spec fn pool_at(s: LiquifactEscrow, y: i64) -> int {
    match coupon_split(s.funding_close_snapshot->Some_0.total_principal, y, s.fee_percentage) {
        Some(gf) => s.funding_close_snapshot->Some_0.total_principal + clamp_i128(gf.0 - gf.1),
        None => 0,
    }
}

/// The yield an investor's payout uses.
pub open spec fn yield_of(s: LiquifactEscrow, x: AccountId) -> i64 {
    match s.pos(x).effective_yield_bps {
        Some(v) => v,
        None => s.esc().yield_bps,
    }
}

/// Sum of the contributions of `xs[..n]`.
pub open spec fn contribution_sum(s: LiquifactEscrow, xs: Seq<AccountId>, n: int) -> int
    decreases n,
{
    if n <= 0 {
        0
    } else {
        contribution_sum(s, xs, n - 1) + s.pos(xs[n - 1]).contribution
    }
}

/// Sum of the payouts of `xs[..n]`.
pub open spec fn payout_sum(s: LiquifactEscrow, xs: Seq<AccountId>, n: int) -> int
    decreases n,
{
    if n <= 0 {
        0
    } else {
        payout_sum(s, xs, n - 1) + s.payout_result(xs[n - 1])->Ok_0
    }
}

proof fn lemma_floor_add(x: int, y: int, t: int)
    by (nonlinear_arith)
    requires
        x >= 0,
        y >= 0,
        t > 0,
    ensures
        x / t + y / t <= (x + y) / t,
{
}

proof fn lemma_share_mul(a: int, c: int, p: int)
    by (nonlinear_arith)
    requires
        a >= 0,
        c >= 0,
        p >= 0,
    ensures
        a * p + c * p == (a + c) * p,
        a * p >= 0,
{
}

proof fn lemma_share_bound(c: int, p: int, t: int)
    by (nonlinear_arith)
    requires
        0 <= c <= t,
        p >= 0,
        t > 0,
    ensures
        (c * p) / t <= p,
{
    assert(c * p <= t * p);
    assert((t * p) / t == p);
}

proof fn lemma_payout_sum_bound(s: LiquifactEscrow, xs: Seq<AccountId>, y: i64, n: int)
    requires
        0 <= n <= xs.len(),
        s.escrow is Some,
        s.funding_close_snapshot matches Some(c) && c.total_principal > 0,
        pool_at(s, y) > 0,
        forall|i: int| 0 <= i < xs.len() ==> #[trigger] s.pos(xs[i]).contribution >= 0,
        forall|i: int| 0 <= i < xs.len() ==> yield_of(s, #[trigger] xs[i]) == y,
        forall|i: int| 0 <= i < xs.len() ==> (#[trigger] s.payout_result(xs[i])) is Ok,
    ensures
        contribution_sum(s, xs, n) >= 0,
        payout_sum(s, xs, n) <= (contribution_sum(s, xs, n) * pool_at(s, y)) / (s.funding_close_snapshot->Some_0.total_principal as int),
    decreases n,
{
    if n > 0 {
        lemma_payout_sum_bound(s, xs, y, n - 1);
        let t = s.funding_close_snapshot->Some_0.total_principal as int;
        let p = pool_at(s, y);
        let a = contribution_sum(s, xs, n - 1);
        let x = xs[n - 1];
        let c = s.pos(x).contribution as int;
        assert(s.pos(xs[n - 1]).contribution >= 0);
        assert(yield_of(s, xs[n - 1]) == y);
        assert(s.payout_result(xs[n - 1]) is Ok);
        if c == 0 {
            assert(s.payout_result(x) == Ok::<i128, EscrowError>(0));
        } else {
            assert(s.payout_result(x)->Ok_0 == (c * p) / t);
        }
        lemma_share_mul(a, c, p);
        lemma_floor_add(a * p, c * p, t);
    }
}

/// Pro-rata payouts never exceed the pool: for distinct investors that share the
/// pool's yield and whose contributions add up to at most the snapshot principal, the
/// payouts add up to at most the snapshot principal plus the net coupon. What rounding
/// leaves behind is dust for the treasury sweep.
pub proof fn law_payouts_within_pool(s: LiquifactEscrow, xs: Seq<AccountId>, y: i64)
    requires
        s.escrow is Some,
        s.funding_close_snapshot matches Some(c) && c.total_principal > 0,
        pool_at(s, y) > 0,
        xs.no_duplicates(),
        forall|i: int| 0 <= i < xs.len() ==> #[trigger] s.pos(xs[i]).contribution >= 0,
        forall|i: int| 0 <= i < xs.len() ==> yield_of(s, #[trigger] xs[i]) == y,
        forall|i: int| 0 <= i < xs.len() ==> (#[trigger] s.payout_result(xs[i])) is Ok,
        contribution_sum(s, xs, xs.len() as int) <= s.funding_close_snapshot->Some_0.total_principal,
    ensures
        payout_sum(s, xs, xs.len() as int) <= pool_at(s, y),
{
    lemma_payout_sum_bound(s, xs, y, xs.len() as int);
    lemma_share_bound(
        contribution_sum(s, xs, xs.len() as int),
        pool_at(s, y),
        s.funding_close_snapshot->Some_0.total_principal as int,
    );
}

proof fn lemma_floor_lower(a: int, t: int)
    by (nonlinear_arith)
    requires
        a >= 0,
        t > 0,
    ensures
        t * (a / t) + t >= a + 1,
{
}

proof fn lemma_payout_sum_lower(s: LiquifactEscrow, xs: Seq<AccountId>, y: i64, n: int)
    requires
        0 <= n <= xs.len(),
        s.escrow is Some,
        s.funding_close_snapshot matches Some(c) && c.total_principal > 0,
        pool_at(s, y) > 0,
        forall|i: int| 0 <= i < xs.len() ==> #[trigger] s.pos(xs[i]).contribution >= 0,
        forall|i: int| 0 <= i < xs.len() ==> yield_of(s, #[trigger] xs[i]) == y,
        forall|i: int| 0 <= i < xs.len() ==> (#[trigger] s.payout_result(xs[i])) is Ok,
    ensures
        ({
            let t = s.funding_close_snapshot->Some_0.total_principal as int;
            t * payout_sum(s, xs, n) + n * t >= contribution_sum(s, xs, n) * pool_at(s, y) + n
        }),
    decreases n,
{
    if n > 0 {
        lemma_payout_sum_lower(s, xs, y, n - 1);
        let t = s.funding_close_snapshot->Some_0.total_principal as int;
        let p = pool_at(s, y);
        let a = contribution_sum(s, xs, n - 1);
        let q = payout_sum(s, xs, n - 1);
        let x = xs[n - 1];
        let c = s.pos(x).contribution as int;
        assert(s.pos(xs[n - 1]).contribution >= 0);
        assert(yield_of(s, xs[n - 1]) == y);
        assert(s.payout_result(xs[n - 1]) is Ok);
        let r = s.payout_result(x)->Ok_0 as int;
        if c == 0 {
            assert(s.payout_result(x) == Ok::<i128, EscrowError>(0));
            assert(r == (c * p) / t) by (nonlinear_arith)
                requires
                    r == 0,
                    c == 0,
                    t > 0,
            ;
        } else {
            assert(r == (c * p) / t);
        }
        assert(c * p >= 0) by (nonlinear_arith)
            requires
                c >= 0,
                p > 0,
        ;
        lemma_floor_lower(c * p, t);
        assert(t * (q + r) + n * t >= (a + c) * p + n) by (nonlinear_arith)
            requires
                t * q + (n - 1) * t >= a * p + (n - 1),
                t * r + t >= c * p + 1,
        ;
    }
}

/// The rounding residue of pro-rata payouts is less than one unit per investor: when
/// the contributions of distinct investors sharing the pool's yield add up to the
/// snapshot principal, the pool minus their payouts is below the number of investors
/// (and, by [`law_payouts_within_pool`], not negative).
pub proof fn law_payout_residue_below_investor_count(s: LiquifactEscrow, xs: Seq<AccountId>, y: i64)
    requires
        s.escrow is Some,
        s.funding_close_snapshot matches Some(c) && c.total_principal > 0,
        pool_at(s, y) > 0,
        xs.no_duplicates(),
        forall|i: int| 0 <= i < xs.len() ==> #[trigger] s.pos(xs[i]).contribution >= 0,
        forall|i: int| 0 <= i < xs.len() ==> yield_of(s, #[trigger] xs[i]) == y,
        forall|i: int| 0 <= i < xs.len() ==> (#[trigger] s.payout_result(xs[i])) is Ok,
        contribution_sum(s, xs, xs.len() as int) == s.funding_close_snapshot->Some_0.total_principal,
    ensures
        0 <= pool_at(s, y) - payout_sum(s, xs, xs.len() as int) < xs.len(),
{
    let n = xs.len() as int;
    let t = s.funding_close_snapshot->Some_0.total_principal as int;
    let p = pool_at(s, y);
    let q = payout_sum(s, xs, n);
    law_payouts_within_pool(s, xs, y);
    lemma_payout_sum_lower(s, xs, y, n);
    assert(t * q + n * t >= t * p + n);
    assert(n > 0) by {
        if n == 0 {
            assert(contribution_sum(s, xs, 0) == 0);
        }
    }
    assert(q + n > p) by (nonlinear_arith)
        requires
            t * q + n * t >= t * p + n,
            t > 0,
            n > 0,
    {
        if q + n <= p {
            assert(t * (q + n) <= t * p);
        }
    }
}

/// An address's position in a position table (empty when absent).
pub open spec fn position_in(m: Map<AccountId, InvestorPosition>, x: AccountId) -> InvestorPosition {
    if m.contains_key(x) {
        m[x]
    } else {
        InvestorPosition::empty()
    }
}

/// The position table after `set_investor_allowlisted(xs[i], allowed)` for each
/// `i < n` in turn.
pub open spec fn allowlisted_one_by_one(
    m: Map<AccountId, InvestorPosition>,
    xs: Seq<AccountId>,
    allowed: bool,
    n: nat,
) -> Map<AccountId, InvestorPosition>
    decreases n,
{
    if n == 0 {
        m
    } else {
        let prev = allowlisted_one_by_one(m, xs, allowed, (n - 1) as nat);
        let x = xs[n - 1];
        prev.insert(x, InvestorPosition { allowlisted: allowed, ..position_in(prev, x) })
    }
}

proof fn lemma_allowlisted_one_by_one(m: Map<AccountId, InvestorPosition>, xs: Seq<AccountId>, allowed: bool, n: nat)
    requires
        n <= xs.len(),
    ensures
        forall|x: AccountId| #[trigger] allowlisted_one_by_one(m, xs, allowed, n).contains_key(x)
            <==> m.contains_key(x) || xs.take(n as int).contains(x),
        forall|x: AccountId| #[trigger] position_in(allowlisted_one_by_one(m, xs, allowed, n), x)
            == if xs.take(n as int).contains(x) {
                InvestorPosition { allowlisted: allowed, ..position_in(m, x) }
            } else {
                position_in(m, x)
            },
    decreases n,
{
    if n > 0 {
        lemma_allowlisted_one_by_one(m, xs, allowed, (n - 1) as nat);
        let t0 = xs.take(n - 1);
        let t1 = xs.take(n as int);
        let y = xs[n - 1];
        assert(t1 =~= t0.push(y));
        assert forall|x: AccountId| t1.contains(x) <==> t0.contains(x) || x == y by {
            if t0.contains(x) {
                let k = choose|k: int| 0 <= k < t0.len() && t0[k] == x;
                assert(t1[k] == x);
            }
            if x == y {
                assert(t1[n - 1] == x);
            }
            if t1.contains(x) && x != y {
                let k = choose|k: int| 0 <= k < t1.len() && t1[k] == x;
                assert(t0[k] == x);
            }
        }
        let prev = allowlisted_one_by_one(m, xs, allowed, (n - 1) as nat);
        let cur = allowlisted_one_by_one(m, xs, allowed, n);
        assert(cur == prev.insert(y, InvestorPosition { allowlisted: allowed, ..position_in(prev, y) }));
        assert forall|x: AccountId| #[trigger] position_in(cur, x) == if t1.contains(x) {
            InvestorPosition { allowlisted: allowed, ..position_in(m, x) }
        } else {
            position_in(m, x)
        } by {
            if x != y {
                assert(position_in(cur, x) == position_in(prev, x));
            }
        }
    }
}

/// Allowing or disallowing a batch of addresses leaves the investor positions exactly
/// as allowing or disallowing the addresses one at a time would.
pub proof fn law_allowlist_batch_is_one_by_one(
    s0: LiquifactEscrow,
    s1: LiquifactEscrow,
    xs: Seq<AccountId>,
    allowed: bool,
)
    requires
        s0.allowlist_batch_applied(s1, xs, allowed),
    ensures
        s1.investors@ == allowlisted_one_by_one(s0.investors@, xs, allowed, xs.len()),
{
    let m = allowlisted_one_by_one(s0.investors@, xs, allowed, xs.len());
    lemma_allowlisted_one_by_one(s0.investors@, xs, allowed, xs.len());
    assert(xs.take(xs.len() as int) =~= xs);
    assert forall|x: AccountId| #[trigger] s1.investors@.contains_key(x) implies s1.investors@[x] == m[x] by {
        assert(s1.pos(x) == s1.investors@[x]);
        assert(position_in(m, x) == m[x]);
        assert(position_in(s0.investors@, x) == s0.pos(x));
    }
    assert(s1.investors@ =~= m);
}

/// The principal ledger: the investor index lists each funder once, every address
/// holding principal is listed with a positive contribution, and the listed
/// contributions add up to the funded amount.
pub open spec fn principal_ledger_ok(s: LiquifactEscrow) -> bool {
    let idx = s.investor_index@;
    &&& idx.no_duplicates()
    &&& forall|i: int| 0 <= i < idx.len() ==> #[trigger] s.pos(idx[i]).contribution > 0
    &&& forall|x: AccountId| #[trigger] s.pos(x).contribution != 0 ==> idx.contains(x)
    &&& contribution_sum(s, idx, idx.len() as int) == s.esc().funded_amount
}

proof fn lemma_sum_one_changed(
    s0: LiquifactEscrow,
    s1: LiquifactEscrow,
    xs: Seq<AccountId>,
    who: AccountId,
    delta: int,
    n: int,
)
    requires
        0 <= n <= xs.len(),
        xs.no_duplicates(),
        forall|x: AccountId| x != who ==> #[trigger] s1.pos(x).contribution == s0.pos(x).contribution,
        s1.pos(who).contribution == s0.pos(who).contribution + delta,
    ensures
        contribution_sum(s1, xs, n) == contribution_sum(s0, xs, n) + if xs.take(n).contains(who) {
            delta
        } else {
            0
        },
    decreases n,
{
    if n > 0 {
        lemma_sum_one_changed(s0, s1, xs, who, delta, n - 1);
        let t0 = xs.take(n - 1);
        let t1 = xs.take(n);
        assert(t1 =~= t0.push(xs[n - 1]));
        if xs[n - 1] == who {
            assert(t1[n - 1] == who);
            assert(!t0.contains(who)) by {
                if t0.contains(who) {
                    let k = choose|k: int| 0 <= k < t0.len() && t0[k] == who;
                    assert(xs[k] == xs[n - 1]);
                }
            }
        } else {
            assert(t1.contains(who) == t0.contains(who)) by {
                if t1.contains(who) {
                    let k = choose|k: int| 0 <= k < t1.len() && t1[k] == who;
                    assert(t0[k] == who);
                }
                if t0.contains(who) {
                    let k = choose|k: int| 0 <= k < t0.len() && t0[k] == who;
                    assert(t1[k] == who);
                }
            }
        }
    }
}

proof fn lemma_sum_prefix_stable(s: LiquifactEscrow, xs: Seq<AccountId>, ys: Seq<AccountId>, n: int)
    requires
        0 <= n <= xs.len(),
        n <= ys.len(),
        forall|i: int| 0 <= i < n ==> xs[i] == ys[i],
    ensures
        contribution_sum(s, xs, n) == contribution_sum(s, ys, n),
    decreases n,
{
    if n > 0 {
        lemma_sum_prefix_stable(s, xs, ys, n - 1);
    }
}

/// An accepted deposit keeps the principal ledger: the depositor's contribution and
/// the funded amount grow by the same amount, and a first depositor joins the index.
pub proof fn law_deposit_keeps_principal_ledger(
    s0: LiquifactEscrow,
    s1: LiquifactEscrow,
    investor: AccountId,
    amount: i128,
    simple: bool,
    committed: u64,
    now: u64,
    seq: u32,
    scr: Screening,
)
    requires
        principal_ledger_ok(s0),
        s0.fund_error(investor, amount, simple, committed, now, seq, scr) is None,
        s0.fund_applied(s1, investor, amount, simple, committed, now, seq),
    ensures
        principal_ledger_ok(s1),
        s1.esc().funded_amount == s0.esc().funded_amount + amount,
{
    let idx0 = s0.investor_index@;
    let idx1 = s1.investor_index@;
    let p = s0.pos(investor);
    assert(s1.pos(investor).contribution == p.contribution + amount);
    assert forall|x: AccountId| x != investor implies #[trigger] s1.pos(x) == s0.pos(x) by {
        assert(s1.investors@ == s0.investors@.insert(investor, s0.funded_position(investor, amount, simple, committed, now)));
    }
    if p.contribution == 0 {
        assert(!idx0.contains(investor)) by {
            if idx0.contains(investor) {
                let k = choose|k: int| 0 <= k < idx0.len() && idx0[k] == investor;
                assert(s0.pos(idx0[k]).contribution > 0);
            }
        }
        assert(idx1 == idx0.push(investor));
        lemma_sum_one_changed(s0, s1, idx0, investor, amount as int, idx0.len() as int);
        assert(idx0.take(idx0.len() as int) =~= idx0);
        lemma_sum_prefix_stable(s1, idx1, idx0, idx0.len() as int);
        assert(idx1.no_duplicates()) by {
            assert forall|i: int, j: int| 0 <= i < idx1.len() && 0 <= j < idx1.len() && i != j implies idx1[i] != idx1[j] by {
                if i < idx0.len() && j < idx0.len() {
                } else if i == idx0.len() {
                    assert(idx0[j] != investor);
                } else {
                    assert(idx0[i] != investor);
                }
            }
        }
        assert forall|x: AccountId| #[trigger] s1.pos(x).contribution != 0 implies idx1.contains(x) by {
            if x == investor {
                assert(idx1[idx0.len() as int] == investor);
            } else {
                assert(idx0.contains(x));
                let k = choose|k: int| 0 <= k < idx0.len() && idx0[k] == x;
                assert(idx1[k] == x);
            }
        }
        assert forall|i: int| 0 <= i < idx1.len() implies #[trigger] s1.pos(idx1[i]).contribution > 0 by {
            if i < idx0.len() {
                assert(s0.pos(idx0[i]).contribution > 0);
            }
        }
    } else {
        assert(idx1 == idx0);
        assert(idx0.contains(investor));
        lemma_sum_one_changed(s0, s1, idx0, investor, amount as int, idx0.len() as int);
        assert(idx0.take(idx0.len() as int) =~= idx0);
        assert forall|i: int| 0 <= i < idx1.len() implies #[trigger] s1.pos(idx1[i]).contribution > 0 by {
            assert(s0.pos(idx0[i]).contribution > 0);
        }
        assert forall|x: AccountId| #[trigger] s1.pos(x).contribution != 0 implies idx1.contains(x) by {
            if x != investor {
                assert(s0.pos(x).contribution != 0);
            }
        }
    }
}

/// With the principal ledger in order and the funding-close snapshot recording the
/// funded amount, the payouts of all listed investors (sharing one yield) fit in the
/// settlement pool.
pub proof fn law_ledger_payouts_within_pool(s: LiquifactEscrow, y: i64)
    requires
        principal_ledger_ok(s),
        s.escrow is Some,
        s.funding_close_snapshot matches Some(c) && c.total_principal > 0 && c.total_principal == s.esc().funded_amount,
        pool_at(s, y) > 0,
        forall|i: int| 0 <= i < s.investor_index@.len() ==> yield_of(s, #[trigger] s.investor_index@[i]) == y,
        forall|i: int| 0 <= i < s.investor_index@.len() ==> (#[trigger] s.payout_result(s.investor_index@[i])) is Ok,
    ensures
        payout_sum(s, s.investor_index@, s.investor_index@.len() as int) <= pool_at(s, y),
{
    let idx = s.investor_index@;
    assert forall|i: int| 0 <= i < idx.len() implies #[trigger] s.pos(idx[i]).contribution >= 0 by {
        assert(s.pos(idx[i]).contribution > 0);
    }
    law_payouts_within_pool(s, idx, y);
}

/// The invoice terms (id, parties, amount, target, yield, maturity) of an escrow record.
pub open spec fn same_terms(a: InvoiceEscrow, b: InvoiceEscrow) -> bool {
    &&& a.invoice_id == b.invoice_id
    &&& a.admin == b.admin
    &&& a.sme_address == b.sme_address
    &&& a.amount == b.amount
    &&& a.funding_target == b.funding_target
    &&& a.yield_bps == b.yield_bps
    &&& a.maturity == b.maturity
}

/// Deposits, settlements and claims never touch the invoice terms; a settlement and a
/// claim leave the funded amount as it was, and a completed settlement leaves the
/// escrow settled.
pub proof fn law_operations_keep_invoice_terms(
    s: LiquifactEscrow,
    n: LiquifactEscrow,
    investor: AccountId,
    amount: i128,
    simple: bool,
    committed: u64,
    now: u64,
    seq: u32,
    partial: Option<i128>,
)
    requires
        s.escrow is Some,
    ensures
        s.fund_applied(n, investor, amount, simple, committed, now, seq) ==> same_terms(n.esc(), s.esc()),
        s.settled_state(n, partial) ==> same_terms(n.esc(), s.esc()) && n.esc().funded_amount == s.esc().funded_amount
            && (s.settle_is_full(partial) ==> n.esc().status == 2),
        s.claimed_state(n, investor, now, seq) ==> n.esc() == s.esc(),
{
}

/// A funded escrow always carries its funding-close snapshot: the deposit or early
/// close that makes it funded writes the snapshot if none exists, and settlement
/// keeps it.
pub proof fn law_funded_escrow_has_close_snapshot(
    s: LiquifactEscrow,
    n: LiquifactEscrow,
    investor: AccountId,
    amount: i128,
    simple: bool,
    committed: u64,
    now: u64,
    seq: u32,
    partial: Option<i128>,
)
    requires
        s.escrow is Some,
    ensures
        s.fund_applied(n, investor, amount, simple, committed, now, seq) && n.esc().status == 1
            ==> n.funding_close_snapshot is Some,
        s.partially_settled_state(n, now, seq) ==> n.funding_close_snapshot is Some,
        s.settled_state(n, partial) ==> n.funding_close_snapshot == s.funding_close_snapshot,
{
}

/// A completed settlement happens once: every later settlement attempt is refused,
/// and a refused settlement changes nothing.
pub proof fn law_settle_once(
    s: LiquifactEscrow,
    n: LiquifactEscrow,
    partial: Option<i128>,
    now: u64,
    cleared: bool,
    later: Option<i128>,
    later_now: u64,
    later_cleared: bool,
)
    requires
        s.escrow is Some,
        s.settle_error(partial, now, cleared) is None,
        s.settled_state(n, partial),
        s.settle_is_full(partial),
    ensures
        n.settle_error(later, later_now, later_cleared) is Some,
{
}

/// Settlements and claims keep the principal ledger: neither moves principal between
/// investors nor changes the funded amount.
pub proof fn law_settle_and_claim_keep_principal_ledger(
    s: LiquifactEscrow,
    n: LiquifactEscrow,
    partial: Option<i128>,
    investor: AccountId,
    now: u64,
    seq: u32,
)
    requires
        principal_ledger_ok(s),
        s.escrow is Some,
        s.settled_state(n, partial) || s.claimed_state(n, investor, now, seq),
    ensures
        principal_ledger_ok(n),
{
    let idx = s.investor_index@;
    assert(n.investor_index@ == idx);
    assert(n.esc().funded_amount == s.esc().funded_amount);
    assert forall|x: AccountId| #[trigger] n.pos(x).contribution == s.pos(x).contribution by {
        if s.claimed_state(n, investor, now, seq) && !s.pos(investor).claimed && x == investor {
            assert(n.investors@[investor].contribution == s.pos(investor).contribution);
        }
    }
    lemma_sum_one_changed(s, n, idx, investor, 0, idx.len() as int);
    assert forall|i: int| 0 <= i < idx.len() implies #[trigger] n.pos(idx[i]).contribution > 0 by {
        assert(n.pos(idx[i]).contribution == s.pos(idx[i]).contribution);
    }
}

/// Sum of the contribution buckets `0..k`.
pub open spec fn bucket_sum(s: LiquifactEscrow, k: int) -> int
    decreases k,
{
    if k <= 0 {
        0
    } else {
        bucket_sum(s, k - 1) + s.bucket_total((k - 1) as u32)
    }
}

proof fn lemma_bucket_sum_update(s: LiquifactEscrow, t: LiquifactEscrow, b: u32, d: int, k: int)
    requires
        0 <= k <= INVESTOR_BUCKET_COUNT,
        forall|x: u32| x != b ==> #[trigger] t.bucket_total(x) == s.bucket_total(x),
        t.bucket_total(b) == s.bucket_total(b) + d,
    ensures
        bucket_sum(t, k) == bucket_sum(s, k) + if (b as int) < k { d } else { 0 },
    decreases k,
{
    if k > 0 {
        lemma_bucket_sum_update(s, t, b, d, k - 1);
        let x = (k - 1) as u32;
        assert(t.bucket_total(x) == s.bucket_total(x) + if x == b { d } else { 0 });
    }
}

/// An accepted deposit adds its amount to the contribution buckets: when the buckets
/// summed to the funded principal before, they still do after (the bucket does not
/// saturate).
pub proof fn law_deposit_keeps_buckets_summing_to_funded(
    s: LiquifactEscrow,
    n: LiquifactEscrow,
    investor: AccountId,
    amount: i128,
    simple: bool,
    committed: u64,
    now: u64,
    seq: u32,
    scr: Screening,
    b: u32,
)
    requires
        s.fund_error(investor, amount, simple, committed, now, seq, scr) is None,
        s.fund_applied(n, investor, amount, simple, committed, now, seq),
        s.bucket_credited(n, b, amount),
        b < INVESTOR_BUCKET_COUNT,
        s.bucket_total(b) + amount <= i128::MAX,
        bucket_sum(s, INVESTOR_BUCKET_COUNT as int) == s.esc().funded_amount,
    ensures
        bucket_sum(n, INVESTOR_BUCKET_COUNT as int) == n.esc().funded_amount,
{
    assert forall|x: u32| x != b implies #[trigger] n.bucket_total(x) == s.bucket_total(x) by {
        assert(n.buckets@.contains_key(x) == s.buckets@.contains_key(x));
    }
    lemma_bucket_sum_update(s, n, b, amount as int, INVESTOR_BUCKET_COUNT as int);
}

/// A refund takes the refunded contribution out of the buckets (the bucket does not
/// saturate).
pub proof fn law_refund_takes_contribution_from_buckets(s: LiquifactEscrow, n: LiquifactEscrow, investor: AccountId, b: u32)
    requires
        s.refund_error(investor) is None,
        s.refunded_state(n, investor),
        s.bucket_debited(n, b, s.pos(investor).contribution),
        b < INVESTOR_BUCKET_COUNT,
        s.bucket_total(b) - s.pos(investor).contribution >= i128::MIN,
    ensures
        bucket_sum(n, INVESTOR_BUCKET_COUNT as int) == bucket_sum(s, INVESTOR_BUCKET_COUNT as int) - s.pos(investor).contribution,
{
    assert forall|x: u32| x != b implies #[trigger] n.bucket_total(x) == s.bucket_total(x) by {
        assert(n.buckets@.contains_key(x) == s.buckets@.contains_key(x));
    }
    lemma_bucket_sum_update(s, n, b, -s.pos(investor).contribution, INVESTOR_BUCKET_COUNT as int);
}

/// The health warning in the plain formula: with a non-negative funded amount whose
/// product by 10 000 fits `i128`, the ratio is `funded * 10_000 / target` (floor,
/// capped at `i64::MAX`; 10 000 without a positive target), and the code is 4003 past
/// maturity while open and under target, 4001 or 4002 (by ratio) within a day of
/// maturity, 4001 while open under half funded, and 0 otherwise. The published warning
/// ([`crate::reports::health_events`]) is this code at the ledger time, one event
/// exactly when it is not 0.
pub proof fn law_health_warning_formula(e: InvoiceEscrow, now: u64)
    requires
        0 <= e.funded_amount,
        e.funded_amount * 10_000 <= i128::MAX,
    ensures
        ({
            let r: int = if e.funding_target > 0 {
                let q = (e.funded_amount * 10_000) / (e.funding_target as int);
                if q > i64::MAX { i64::MAX as int } else { q }
            } else {
                10_000
            };
            let m = time_to_maturity(e, now);
            health_warning(e, now) == if m < 0 && e.status == 0 && e.funded_amount < e.funding_target {
                4003
            } else if 0 <= m < 86_400 {
                if r < 5_000 { 4001u32 } else { 4002u32 }
            } else if r < 5_000 && e.status == 0 {
                4001
            } else {
                0
            }
        }),
        (health_events(e, now).len() == 1) == (health_warning(e, now) != 0),
        health_events(e, now).len() <= 1,
{
    if e.funding_target > 0 {
        let num = e.funded_amount * 10_000;
        assert(clamp_i128(num) == num);
        assert(0 <= num / (e.funding_target as int));
    }
}

/// `validate_init` accepts an init request exactly when `init` accepts the same
/// invoice id, amount, yield and maturity, with no tiers and no other option, on a
/// contract that holds no escrow yet.
pub proof fn law_validator_agrees_with_init(s: LiquifactEscrow, p: InitParams, a: InitArgs, now: u64)
    requires
        s.escrow is None,
        p.yield_tiers@.len() == 0,
        a.invoice_id@ == p.invoice_id@,
        a.amount == p.funding_target,
        a.yield_bps == p.yield_bps as i64,
        a.maturity == p.maturity_date,
        a.yield_tiers is None,
        !a.admin_is_contract,
        a.funding_deadline is None,
        a.admin_roles is None,
        a.min_contribution is None,
        a.max_per_investor is None,
        a.max_unique_investors is None,
        a.yield_slippage_threshold is None,
    ensures
        (init_params_error(p) is None) == (s.init_error(a, now) is None),
{
}

/// The protocol fee of a settlement is the fee rate applied, rounded down, to the gross
/// coupon, itself the yield applied, rounded down, to the settled basis: the whole
/// funded amount when the settlement completes it, else the newly settled part. A
/// positive fee is the settlement's one transfer, to the treasury, and is published
/// first with the coupon it was taken from and what remains of it. The fee is at most
/// the coupon times the rate, so below the whole coupon while the rate is under 100%.
pub proof fn law_settlement_fee(s: LiquifactEscrow, partial: Option<i128>, now: u64, cleared: bool)
    requires
        s.settle_error(partial, now, cleared) is None,
        0 <= s.esc().yield_bps,
        0 <= s.fee_percentage,
        0 <= s.esc().funded_amount,
    ensures
        ({
            let basis: int = match partial {
                None => s.esc().funded_amount as int,
                Some(a) => if s.settled_amount + a == s.esc().funded_amount {
                    s.esc().funded_amount as int
                } else {
                    a as int
                },
            };
            let gross: int = basis * s.esc().yield_bps / 10_000;
            let fee: int = gross * s.fee_percentage / 10_000;
            &&& 0 <= fee
            &&& fee * 10_000 <= gross * s.fee_percentage
            &&& (s.fee_percentage < 10_000 && gross > 0 ==> fee < gross)
            &&& s.settle_transfers(partial) == if fee > 0 {
                seq![Transfer { to: s.treasury->Some_0, amount: fee as i128 }]
            } else {
                Seq::<Transfer>::empty()
            }
            &&& (fee > 0 ==> s.settle_events(partial, now)[0] == Event::ProtocolFeeCollected(ProtocolFeeCollected {
                invoice_id: s.esc().invoice_id,
                gross_coupon: gross as i128,
                fee_percentage: s.fee_percentage,
                fee_amount: fee as i128,
                net_coupon: (gross - fee) as i128,
            }))
        }),
{
    let basis: int = match partial {
        None => s.esc().funded_amount as int,
        Some(a) => if s.settled_amount + a == s.esc().funded_amount {
            s.esc().funded_amount as int
        } else {
            a as int
        },
    };
    assert(basis == s.settle_basis(partial));
    assert(basis >= 0);
    let y = s.esc().yield_bps as int;
    let f = s.fee_percentage as int;
    let gross: int = basis * y / 10_000;
    let fee: int = gross * f / 10_000;
    assert(basis * y >= 0) by (nonlinear_arith)
        requires basis >= 0, y >= 0;
    assert(0 <= gross <= basis * y) by (nonlinear_arith)
        requires basis * y >= 0, gross == basis * y / 10_000;
    assert(gross * f >= 0) by (nonlinear_arith)
        requires gross >= 0, f >= 0;
    assert(0 <= fee && fee * 10_000 <= gross * f) by (nonlinear_arith)
        requires gross * f >= 0, fee == gross * f / 10_000;
    if f < 10_000 && gross > 0 {
        assert(gross * f < gross * 10_000) by (nonlinear_arith)
            requires gross > 0, f < 10_000;
        assert(fee < gross) by (nonlinear_arith)
            requires gross * f < gross * 10_000, gross * f >= 0, fee == gross * f / 10_000;
    }
    if f == 0 || gross == 0 {
        assert(gross * f == 0) by (nonlinear_arith)
            requires f == 0 || gross == 0;
    }
    if basis == 0 {
        assert(basis * y == 0) by (nonlinear_arith)
            requires basis == 0;
    }
    if s.settle_charges_fee(partial) {
        let b = basis as i128;
        let cs = coupon_split(b, s.esc().yield_bps, s.fee_percentage);
        assert(cs is Some);
        assert(b * (s.esc().yield_bps as i128) == basis * y);
        assert(gross <= i128::MAX);
        assert(cs->Some_0.0 == gross);
        if gross > 0 {
            assert(gross * f <= i128::MAX);
            assert(cs->Some_0.1 == fee);
        } else {
            assert(cs->Some_0.1 == 0);
        }
        assert(s.settle_fee(partial) == fee);
        assert(s.settle_gross(partial) == gross);
    } else {
        assert(f == 0 || basis == 0);
        assert(fee == 0);
        assert(s.settle_fee(partial) == 0);
    }
}

/// Each investor's cumulative contribution stays within the per-investor cap: an
/// accepted deposit adds exactly its amount to the investor's contribution, which is
/// then at most the cap when one is set; a deposit that would lift the contribution
/// above the cap is refused.
pub proof fn law_deposit_respects_investor_cap(
    s: LiquifactEscrow,
    n: LiquifactEscrow,
    investor: AccountId,
    amount: i128,
    simple: bool,
    committed: u64,
    now: u64,
    seq: u32,
    scr: Screening,
)
    ensures
        s.fund_error(investor, amount, simple, committed, now, seq, scr) is None
            && s.fund_applied(n, investor, amount, simple, committed, now, seq)
            ==> n.pos(investor).contribution == s.pos(investor).contribution + amount,
        s.fund_error(investor, amount, simple, committed, now, seq, scr) is None
            && s.fund_applied(n, investor, amount, simple, committed, now, seq)
            && s.max_per_investor_cap is Some
            ==> n.pos(investor).contribution <= s.max_per_investor_cap->Some_0,
        s.max_per_investor_cap is Some && s.pos(investor).contribution + amount > s.max_per_investor_cap->Some_0
            ==> s.fund_error(investor, amount, simple, committed, now, seq, scr) is Some,
{
}

/// A health check reports the plain seconds left to maturity: with both times within
/// `i64`, the time to maturity is `maturity - now` when a maturity is set (positive
/// before maturity, negative after it) and `i64::MAX` when none is; the past-maturity
/// warning 4003 is raised only once `now` is past a set maturity.
pub proof fn law_health_time_to_maturity(e: InvoiceEscrow, now: u64)
    requires
        e.maturity <= i64::MAX,
        now <= i64::MAX,
    ensures
        e.maturity > 0 ==> time_to_maturity(e, now) == e.maturity - now,
        e.maturity == 0 ==> time_to_maturity(e, now) == i64::MAX,
        0 < e.maturity && now < e.maturity ==> time_to_maturity(e, now) > 0,
        health_warning(e, now) == 4003 ==> 0 < e.maturity && e.maturity < now,
{
}

/// A claim folds only yield into reinvested principal: for an investor who elected
/// reinvestment, exactly the part of the payout above the contribution (nothing when
/// the payout does not exceed it), and nothing for any other investor; a positive
/// amount is published first, with the investor's new total principal.
pub proof fn law_claim_folds_only_yield(s: LiquifactEscrow, n: LiquifactEscrow, investor: AccountId, now: u64, seq: u32)
    requires
        s.claim_error(investor, now) is None,
        s.claimed_state(n, investor, now, seq),
        !s.pos(investor).claimed,
    ensures
        s.payout_result(investor) is Ok,
        ({
            let p = s.pos(investor);
            let payout = s.payout_result(investor)->Ok_0;
            let y: int = if p.reinvest_elected && payout > p.contribution {
                payout - p.contribution
            } else {
                0
            };
            &&& 0 <= y
            &&& y <= if payout > p.contribution { payout - p.contribution } else { 0 }
            &&& n.pos(investor).claimed
            &&& n.pos(investor).contribution == p.contribution
            &&& n.pos(investor).reinvested_amount == p.reinvested_amount + y
            &&& (y > 0 ==> s.claim_events(investor, now)[0] == Event::YieldReinvested(YieldReinvested {
                investor,
                invoice_id: s.esc().invoice_id,
                reinvested_amount: y as i128,
                new_total_principal: clamp_i128(p.reinvested_amount + y + p.contribution),
            }))
        }),
{
    assert(n.investors@.contains_key(investor));
}
} // verus!
