#![allow(dead_code)]

use std::collections::HashMap;

use karis_ky_escrow::{
    AccountId, AdminRole, EscrowError, Event, Invocation, InvoiceEscrow, LiquifactEscrow, Screening, YieldTier,
};

const CONTRACT: AccountId = 900;
const TARGET: i128 = 100_000_000_000;
const CLEAR: Screening = Screening { kyc_verified: true, sanctions_cleared: true };
/// Keccak-256 of no bytes.
const EMPTY_ROOT: [u8; 32] = [
    0xc5, 0xd2, 0x46, 0x01, 0x86, 0xf7, 0x23, 0x3c, 0x92, 0x7e, 0x7d, 0xb2, 0xdc, 0xc7, 0x03, 0xc0,
    0xe5, 0x00, 0xb6, 0x53, 0xca, 0x82, 0x27, 0x3b, 0x7b, 0xfa, 0xd8, 0x04, 0x5d, 0x85, 0xa4, 0x70,
];

/// The address bytes of account `id`, as the host hands them to the library (a
/// 56-character strkey-shaped string).
fn key(id: AccountId) -> Vec<u8> {
    format!("G{:055}", id).into_bytes()
}

/// Optional `init` arguments, all absent by default.
#[derive(Default)]
struct Opts {
    registry: Option<AccountId>,
    tiers: Option<Vec<YieldTier>>,
    min_contribution: Option<i128>,
    max_unique: Option<u32>,
    max_per: Option<i128>,
    hold_delay: Option<u64>,
    deadline: Option<u64>,
    max_rate: Option<u64>,
    slippage: Option<i64>,
    notifier: Option<AccountId>,
    kyc: Option<AccountId>,
    roles: Option<Vec<(AccountId, AdminRole)>>,
    reject_contract_admin: Option<bool>,
}

/// One escrow contract, the ledger it runs on and a token ledger.
struct Net {
    env: soroban_sdk::Env,
    esc: LiquifactEscrow,
    now: u64,
    seq: u32,
    next: AccountId,
    admin: AccountId,
    sme: AccountId,
    token: AccountId,
    treasury: AccountId,
    balances: HashMap<AccountId, i128>,
    auths: Vec<AccountId>,
    /// Every event published so far, in order.
    events: Vec<Event>,
    /// The events of the last successful call.
    last_events: Vec<Event>,
    /// The events that the last refused call published before it failed.
    failed_events: Vec<Event>,
}

impl Net {
    fn new() -> Net {
        let mut n = Net {
            env: soroban_sdk::Env::default(),
            esc: LiquifactEscrow::new(),
            now: 12_345,
            seq: 100,
            next: 1_000,
            admin: 0,
            sme: 0,
            token: 0,
            treasury: 0,
            balances: HashMap::new(),
            auths: Vec::new(),
            events: Vec::new(),
            last_events: Vec::new(),
            failed_events: Vec::new(),
        };
        n.admin = n.addr();
        n.sme = n.addr();
        n.token = n.addr();
        n.treasury = n.addr();
        n
    }

    fn addr(&mut self) -> AccountId {
        self.next += 1;
        self.next
    }

    fn set_time(&mut self, t: u64) {
        self.now = t;
    }

    fn call(&mut self) -> Invocation {
        self.seq += 1;
        Invocation::new(self.now, self.seq, CONTRACT)
    }

    /// Carry out the effects of a call that succeeded.
    fn finish<T>(&mut self, c: Invocation, r: Result<T, EscrowError>) -> Result<T, EscrowError> {
        if r.is_ok() {
            self.auths.extend(c.auths.iter().copied());
            for t in c.transfers.iter() {
                *self.balances.entry(CONTRACT).or_insert(0) -= t.amount;
                *self.balances.entry(t.to).or_insert(0) += t.amount;
            }
            self.events.extend(c.events.iter().cloned());
            self.last_events = c.events;
        } else {
            self.failed_events = c.events;
        }
        r
    }

    fn mint(&mut self, who: AccountId, amount: i128) {
        *self.balances.entry(who).or_insert(0) += amount;
    }

    fn balance(&self, who: AccountId) -> i128 {
        *self.balances.get(&who).unwrap_or(&0)
    }

    fn try_init_with(&mut self, id: &str, amount: i128, yield_bps: i64, maturity: u64, o: Opts) -> Result<InvoiceEscrow, EscrowError> {
        let mut c = self.call();
        let (admin, sme, token, treasury) = (self.admin, self.sme, self.token, self.treasury);
        let r = self.esc.init(
            &mut c, admin, id.to_string(), sme, amount, yield_bps, maturity, token, o.registry, treasury, o.tiers,
            o.min_contribution, o.max_unique, o.max_per, o.hold_delay, o.deadline, o.max_rate, o.slippage,
            o.notifier, o.kyc, o.roles, o.reject_contract_admin, false, 7, &self.env,
        );
        self.finish(c, r)
    }

    fn init_with(&mut self, id: &str, amount: i128, yield_bps: i64, maturity: u64, o: Opts) -> InvoiceEscrow {
        self.try_init_with(id, amount, yield_bps, maturity, o).unwrap()
    }

    fn init(&mut self, id: &str, amount: i128, yield_bps: i64, maturity: u64) -> InvoiceEscrow {
        self.init_with(id, amount, yield_bps, maturity, Opts::default())
    }

    /// The standard escrow: target `TARGET`, 8% yield, maturity 1000.
    fn default_init(&mut self) -> InvoiceEscrow {
        self.init("INV001", TARGET, 800, 1000)
    }

    fn fund(&mut self, investor: AccountId, amount: i128) -> Result<InvoiceEscrow, EscrowError> {
        let mut c = self.call();
        let r = self.esc.fund(&mut c, investor, amount, CLEAR, &key(investor), &self.env);
        self.finish(c, r)
    }

    fn fund_with_commitment(&mut self, investor: AccountId, amount: i128, lock: u64) -> Result<InvoiceEscrow, EscrowError> {
        let mut c = self.call();
        let r = self.esc.fund_with_commitment(&mut c, investor, amount, lock, CLEAR, &key(investor), &self.env);
        self.finish(c, r)
    }

    fn settle(&mut self) -> Result<InvoiceEscrow, EscrowError> {
        let mut c = self.call();
        let r = self.esc.settle(&mut c, None, CLEAR);
        self.finish(c, r)
    }

    fn withdraw(&mut self) -> Result<InvoiceEscrow, EscrowError> {
        let mut c = self.call();
        let sme = self.esc.get_escrow().map(|e| e.sme_address).unwrap_or(self.sme);
        let balance = self.balance(CONTRACT);
        let r = self.esc.withdraw(&mut c, sme, balance);
        self.finish(c, r)
    }

    fn claim(&mut self, investor: AccountId) -> Result<(), EscrowError> {
        let mut c = self.call();
        let r = self.esc.claim_investor_payout(&mut c, investor);
        self.finish(c, r)
    }

    fn refund(&mut self, investor: AccountId) -> Result<(), EscrowError> {
        let mut c = self.call();
        let r = self.esc.refund(&mut c, investor, &key(investor), &self.env);
        self.finish(c, r)
    }

    fn cancel(&mut self) -> Result<InvoiceEscrow, EscrowError> {
        let mut c = self.call();
        let r = self.esc.cancel_funding(&mut c);
        self.finish(c, r)
    }

    fn sweep(&mut self, amount: i128) -> Result<i128, EscrowError> {
        let mut c = self.call();
        let balance = self.balance(CONTRACT);
        let r = self.esc.sweep_terminal_dust(&mut c, amount, balance);
        self.finish(c, r)
    }

    fn set_legal_hold(&mut self, active: bool, reason: &str) -> Result<(), EscrowError> {
        let mut c = self.call();
        let r = self.esc.set_legal_hold(&mut c, active, reason.to_string());
        self.finish(c, r)
    }

    fn clear_legal_hold(&mut self) -> Result<(), EscrowError> {
        let mut c = self.call();
        let r = self.esc.clear_legal_hold(&mut c);
        self.finish(c, r)
    }

    fn pause_dispute(&mut self, ticket: &str, secs: u64) -> Result<(), EscrowError> {
        let mut c = self.call();
        let r = self.esc.pause_dispute(&mut c, ticket.to_string(), secs);
        self.finish(c, r)
    }

    fn resume_dispute(&mut self) -> Result<(), EscrowError> {
        let mut c = self.call();
        let r = self.esc.resume_dispute(&mut c);
        self.finish(c, r)
    }

    fn is_dispute_paused(&self) -> bool {
        self.esc.is_dispute_paused(self.now)
    }

    fn escrow(&self) -> InvoiceEscrow {
        self.esc.get_escrow().unwrap()
    }
}

fn same_escrow(a: &InvoiceEscrow, b: &InvoiceEscrow) -> bool {
    a.invoice_id == b.invoice_id
        && a.admin == b.admin
        && a.sme_address == b.sme_address
        && a.amount == b.amount
        && a.funding_target == b.funding_target
        && a.funded_amount == b.funded_amount
        && a.yield_bps == b.yield_bps
        && a.maturity == b.maturity
        && a.status == b.status
}

use karis_ky_escrow::math::{apply_bps, sat_add, sat_sub, split_coupon};

#[test]
fn status_moves_forward_through_the_lifecycle() {
    let mut n = Net::new();
    let investor = n.addr();
    let mut seen = vec![n.init("FWD001", 1_000, 500, 0).status];
    seen.push(n.fund(investor, 400).unwrap().status);
    seen.push(n.fund(investor, 600).unwrap().status);
    seen.push(n.settle().unwrap().status);
    assert_eq!(seen, vec![0, 0, 1, 2]);
    // Nothing brings a settled escrow back to open or funded.
    assert_eq!(n.fund(investor, 1).unwrap_err(), EscrowError::EscrowNotOpenForFunding);
    assert_eq!(n.cancel().unwrap_err(), EscrowError::CancelFundingNotOpen);
    assert_eq!(n.withdraw().unwrap_err(), EscrowError::WithdrawalNotFunded);
    assert_eq!(n.escrow().status, 2);
}

#[test]
fn init_succeeds_only_once() {
    let mut n = Net::new();
    n.init("ONCE01", 1_000, 500, 0);
    let again = n.try_init_with("ONCE02", 2_000, 500, 0, Opts::default());
    assert_eq!(again.unwrap_err(), EscrowError::EscrowAlreadyInitialized);
    assert_eq!(n.escrow().invoice_id, "ONCE01");
    assert_eq!(n.escrow().amount, 1_000);
}

#[test]
fn funding_closes_exactly_at_target_and_snapshots_principal() {
    let mut n = Net::new();
    let (a, b) = (n.addr(), n.addr());
    n.init("CLOSE1", 1_000, 500, 0);
    n.fund(a, 999).unwrap();
    assert_eq!(n.escrow().status, 0);
    assert!(n.esc.get_funding_close_snapshot().is_none());
    // The deposit that crosses the target may over-fund; the snapshot keeps it all.
    n.fund(b, 11).unwrap();
    assert_eq!(n.escrow().status, 1);
    let snap = n.esc.get_funding_close_snapshot().unwrap();
    assert_eq!(snap.total_principal, 1_010);
    assert_eq!(snap.funding_target, 1_000);
    assert_eq!(snap.closed_at_ledger_timestamp, n.now);
    assert_eq!(n.esc.get_funding_close_merkle_root(), Some(EMPTY_ROOT));
}

#[test]
fn close_snapshot_is_never_rewritten() {
    let mut n = Net::new();
    let a = n.addr();
    n.init("SNAP01", 1_000, 500, 0);
    n.fund(a, 1_000).unwrap();
    let first = n.esc.get_funding_close_snapshot().unwrap();
    n.set_time(n.now + 500);
    n.settle().unwrap();
    n.claim(a).unwrap();
    assert_eq!(n.esc.get_funding_close_snapshot().unwrap(), first);
    assert_eq!(n.esc.get_funding_close_merkle_root(), Some(EMPTY_ROOT));
}

#[test]
fn token_treasury_and_tiers_stay_bound() {
    let mut n = Net::new();
    let a = n.addr();
    let tiers = vec![YieldTier { min_lock_secs: 10, yield_bps: 900 }];
    n.init_with("BIND01", 1_000, 500, 0, Opts { tiers: Some(tiers.clone()), ..Opts::default() });
    let (token, treasury) = (n.esc.get_funding_token(), n.esc.get_treasury());
    n.fund_with_commitment(a, 1_000, 10).unwrap();
    n.set_time(n.now + 10);
    n.settle().unwrap();
    n.claim(a).unwrap();
    assert_eq!(n.esc.get_funding_token(), token);
    assert_eq!(n.esc.get_treasury(), treasury);
    assert_eq!(n.esc.get_yield_tier_table(), Some(tiers));
}

#[test]
fn legal_hold_blocks_every_movement_of_funds() {
    let mut n = Net::new();
    let (a, new_sme) = (n.addr(), n.addr());
    n.init("HOLD01", 1_000, 500, 0);
    n.fund(a, 400).unwrap();
    n.set_legal_hold(true, "review").unwrap();
    assert_eq!(n.fund(a, 100).unwrap_err(), EscrowError::LegalHoldBlocksFunding);
    assert_eq!(n.cancel().unwrap_err(), EscrowError::LegalHoldBlocksCancelFunding);
    let mut c = n.call();
    let r = n.esc.rotate_beneficiary(&mut c, new_sme);
    assert_eq!(n.finish(c, r).unwrap_err(), EscrowError::LegalHoldBlocksBeneficiaryRotation);
    n.clear_legal_hold().unwrap();
    n.fund(a, 600).unwrap();
    n.set_legal_hold(true, "review").unwrap();
    assert_eq!(n.settle().unwrap_err(), EscrowError::LegalHoldBlocksSettlement);
    assert_eq!(n.withdraw().unwrap_err(), EscrowError::LegalHoldBlocksWithdrawal);
    n.clear_legal_hold().unwrap();
    n.settle().unwrap();
    // The admin lifts the hold before the escrow turns terminal, so claims and sweeps
    // can only be blocked by a hold set earlier.
    assert_eq!(n.set_legal_hold(true, "late").unwrap_err(), EscrowError::LegalHoldSetOnTerminalEscrow);
    n.claim(a).unwrap();
    n.mint(CONTRACT, 5);
    assert_eq!(n.sweep(5).unwrap(), 5);
}

#[test]
fn claiming_twice_changes_nothing() {
    let mut n = Net::new();
    let a = n.addr();
    n.init("IDEM01", 1_000, 500, 0);
    n.fund(a, 1_000).unwrap();
    n.settle().unwrap();
    n.claim(a).unwrap();
    let payout = n.esc.compute_investor_payout(a).unwrap();
    let auths = n.auths.len();
    n.claim(a).unwrap();
    assert!(n.esc.is_investor_claimed(a));
    assert_eq!(n.esc.compute_investor_payout(a).unwrap(), payout);
    assert_eq!(payout, 1_050);
    // The repeated claim still needed the investor's authorization, and moved nothing.
    assert_eq!(n.auths.len(), auths + 1);
    assert_eq!(n.balance(a), 0);
}

#[test]
fn refund_returns_the_contribution_once() {
    let mut n = Net::new();
    let (a, b) = (n.addr(), n.addr());
    n.init("REF001", 1_000, 500, 0);
    n.fund(a, 300).unwrap();
    n.fund(b, 200).unwrap();
    n.cancel().unwrap();
    n.mint(CONTRACT, 500);
    n.refund(a).unwrap();
    assert_eq!(n.balance(a), 300);
    assert_eq!(n.esc.get_contribution(a), 0);
    assert!(n.esc.is_investor_refunded(a));
    assert_eq!(n.esc.get_distributed_principal(), 300);
    assert_eq!(n.refund(a).unwrap_err(), EscrowError::NoContributionToRefund);
    n.refund(b).unwrap();
    assert_eq!(n.esc.get_distributed_principal(), 500);
    assert_eq!(n.balance(CONTRACT), 0);
}

#[test]
fn sweep_keeps_unrefunded_principal_in_a_cancelled_escrow() {
    let mut n = Net::new();
    let (a, b) = (n.addr(), n.addr());
    n.init("FLOOR1", 1_000, 500, 0);
    n.fund(a, 300).unwrap();
    n.fund(b, 200).unwrap();
    n.cancel().unwrap();
    n.mint(CONTRACT, 500 + 7);
    n.refund(a).unwrap();
    // 200 still owed to b: only the 7 of dust may leave.
    assert_eq!(n.sweep(8).unwrap_err(), EscrowError::SweepExceedsLiabilityFloor);
    assert_eq!(n.sweep(7).unwrap(), 7);
    assert_eq!(n.balance(CONTRACT), 200);
    n.refund(b).unwrap();
    assert_eq!(n.balance(b), 200);
}

#[test]
fn admin_authority_moves_by_proposal_and_acceptance() {
    let mut n = Net::new();
    let successor = n.addr();
    n.default_init();
    let mut c = n.call();
    let r = n.esc.accept_admin(&mut c);
    assert_eq!(n.finish(c, r).unwrap_err(), EscrowError::NoPendingAdmin);
    let mut c = n.call();
    let r = n.esc.propose_admin(&mut c, n.admin);
    assert_eq!(n.finish(c, r).unwrap_err(), EscrowError::NewAdminSameAsCurrent);
    let before = n.auths.len();
    let mut c = n.call();
    let r = n.esc.propose_admin(&mut c, successor);
    n.finish(c, r).unwrap();
    assert_eq!(n.escrow().admin, n.admin);
    let mut c = n.call();
    let r = n.esc.accept_admin(&mut c);
    n.finish(c, r).unwrap();
    assert_eq!(n.escrow().admin, successor);
    assert_eq!(n.auths[before..].to_vec(), vec![n.admin, successor]);
}

#[test]
fn first_deposit_fixes_yield_and_claim_gate() {
    let mut n = Net::new();
    let a = n.addr();
    let tiers = vec![YieldTier { min_lock_secs: 100, yield_bps: 700 }, YieldTier { min_lock_secs: 200, yield_bps: 900 }];
    n.init_with("TIER01", 10_000, 500, 0, Opts { tiers: Some(tiers), ..Opts::default() });
    n.fund_with_commitment(a, 1_000, 150).unwrap();
    assert_eq!(n.esc.get_investor_yield_bps(a).unwrap(), 700);
    assert_eq!(n.esc.get_investor_claim_not_before(a), n.now + 150);
    n.fund(a, 1_000).unwrap();
    assert_eq!(n.esc.get_investor_yield_bps(a).unwrap(), 700);
    assert_eq!(n.esc.get_investor_claim_not_before(a), n.now + 150);
    assert_eq!(n.fund_with_commitment(a, 1_000, 200).unwrap_err(), EscrowError::TieredSecondDeposit);
    assert_eq!(n.esc.get_contribution(a), 2_000);
}

#[test]
fn payouts_share_the_pool_pro_rata() {
    let mut n = Net::new();
    let (a, b, c) = (n.addr(), n.addr(), n.addr());
    n.init("POOL01", 1_000_000, 500, 0);
    n.fund(a, 400_000).unwrap();
    n.fund(b, 350_000).unwrap();
    n.fund(c, 250_001).unwrap();
    n.settle().unwrap();
    // pool = 1_000_001 principal + 50_000 coupon (5% of 1_000_001, truncated).
    let pa = n.esc.compute_investor_payout(a).unwrap();
    let pb = n.esc.compute_investor_payout(b).unwrap();
    let pc = n.esc.compute_investor_payout(c).unwrap();
    assert_eq!(pa, 400_000i128 * 1_050_001 / 1_000_001);
    assert_eq!(pb, 350_000i128 * 1_050_001 / 1_000_001);
    assert_eq!(pc, 250_001i128 * 1_050_001 / 1_000_001);
    assert!(pa + pb + pc <= 1_050_001);
    assert!(1_050_001 - (pa + pb + pc) < 3);
}

#[test]
fn payout_is_zero_until_funding_closes() {
    let mut n = Net::new();
    let a = n.addr();
    let b = n.addr();
    n.init("PAY000", 1_000, 500, 0);
    assert_eq!(n.esc.compute_investor_payout(a).unwrap(), 0);
    n.fund(a, 400).unwrap();
    assert_eq!(n.esc.compute_investor_payout(a).unwrap(), 0);
    n.fund(b, 600).unwrap();
    // Funding has closed: the pool is the snapshot principal plus its coupon.
    assert_eq!(n.esc.compute_investor_payout(a).unwrap(), 420);
    n.settle().unwrap();
    assert_eq!(n.esc.compute_investor_payout(a).unwrap(), 420);
    assert_eq!(n.esc.compute_investor_payout(b).unwrap(), 630);
}

#[test]
fn bps_arithmetic_is_exact_and_saturating() {
    assert_eq!(apply_bps(1_000_000, 800), Some(80_000));
    assert_eq!(apply_bps(999, 1), Some(0));
    assert_eq!(apply_bps(-10_001, 1), Some(-1));
    assert_eq!(apply_bps(i128::MAX, 2), None);
    assert_eq!(split_coupon(1_000_000, 800, 1_000), Some((80_000, 8_000)));
    assert_eq!(split_coupon(1_000_000, 800, 0), Some((80_000, 0)));
    assert_eq!(split_coupon(i128::MAX, 800, 0), None);
    assert_eq!(sat_add(i128::MAX, 1), i128::MAX);
    assert_eq!(sat_sub(i128::MIN, 1), i128::MIN);
    assert_eq!(sat_add(2, 3), 5);
    assert_eq!(sat_sub(2, 3), -1);
}

#[test]
fn allowlist_batch_matches_one_by_one() {
    let build = || {
        let mut n = Net::new();
        n.init("ALB001", 1_000, 500, 0);
        n
    };
    let (mut batch, mut single) = (build(), build());
    let xs: Vec<AccountId> = vec![5_001, 5_002, 5_001, 5_003];
    // One address already has a position.
    for n in [&mut batch, &mut single] {
        n.fund(5_002, 100).unwrap();
    }
    let mut c = batch.call();
    let r = batch.esc.set_investors_allowlisted(&mut c, &xs, true);
    batch.finish(c, r).unwrap();
    for x in &xs {
        let mut c = single.call();
        let r = single.esc.set_investor_allowlisted(&mut c, *x, true);
        single.finish(c, r).unwrap();
    }
    assert_eq!(batch.esc.investors, single.esc.investors);
    for x in [5_001, 5_002, 5_003] {
        assert!(batch.esc.is_investor_allowlisted(x));
    }
    assert_eq!(batch.esc.get_contribution(5_002), 100);
    assert!(!batch.esc.is_investor_allowlisted(5_004));
}

#[test]
fn deposits_keep_the_principal_ledger() {
    let mut n = Net::new();
    let (a, b) = (n.addr(), n.addr());
    n.init("LEDG01", 10_000, 500, 0);
    n.fund(a, 1_000).unwrap();
    n.fund(b, 2_500).unwrap();
    n.fund(a, 500).unwrap();
    assert_eq!(n.esc.investor_index, vec![a, b]);
    let listed: i128 = n.esc.investor_index.iter().map(|x| n.esc.get_contribution(*x)).sum();
    assert_eq!(listed, n.escrow().funded_amount);
    assert_eq!(listed, 4_000);
}

#[test]
fn settlement_happens_once_and_keeps_the_terms() {
    let mut n = Net::new();
    let a = n.addr();
    let before = n.init("ONCE10", 1_000, 700, 0);
    n.fund(a, 1_000).unwrap();
    assert!(n.esc.get_funding_close_snapshot().is_some());
    let settled = n.settle().unwrap();
    assert_eq!(settled.status, 2);
    assert_eq!(n.settle().unwrap_err(), EscrowError::SettlementNotFunded);
    n.set_time(n.now + 10_000);
    assert_eq!(n.settle().unwrap_err(), EscrowError::SettlementNotFunded);
    n.claim(a).unwrap();
    let after = n.escrow();
    assert_eq!(
        (after.invoice_id.clone(), after.admin, after.sme_address, after.amount, after.funding_target, after.yield_bps, after.maturity),
        (before.invoice_id.clone(), before.admin, before.sme_address, before.amount, before.funding_target, before.yield_bps, before.maturity)
    );
    assert_eq!(after.funded_amount, 1_000);
    assert_eq!(after.status, 2);
}
