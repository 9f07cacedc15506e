#![allow(dead_code)]

use std::collections::HashMap;

use karis_ky_escrow::{
    AccountId, AdminRole, EscrowError, Event, Invocation, InvoiceEscrow, LiquifactEscrow, Screening, YieldTier,
};

const CONTRACT: AccountId = 900;
const TARGET: i128 = 100_000_000_000;
const CLEAR: Screening = Screening { kyc_verified: true, sanctions_cleared: true };
/// Keccak-256 of no bytes.
const EMPTY_ROOT: [u8; 32] = [
    0xc5, 0xd2, 0x46, 0x01, 0x86, 0xf7, 0x23, 0x3c, 0x92, 0x7e, 0x7d, 0xb2, 0xdc, 0xc7, 0x03, 0xc0,
    0xe5, 0x00, 0xb6, 0x53, 0xca, 0x82, 0x27, 0x3b, 0x7b, 0xfa, 0xd8, 0x04, 0x5d, 0x85, 0xa4, 0x70,
];

/// The address bytes of account `id`, as the host hands them to the library (a
/// 56-character strkey-shaped string).
fn key(id: AccountId) -> Vec<u8> {
    format!("G{:055}", id).into_bytes()
}

/// Optional `init` arguments, all absent by default.
#[derive(Default)]
struct Opts {
    registry: Option<AccountId>,
    tiers: Option<Vec<YieldTier>>,
    min_contribution: Option<i128>,
    max_unique: Option<u32>,
    max_per: Option<i128>,
    hold_delay: Option<u64>,
    deadline: Option<u64>,
    max_rate: Option<u64>,
    slippage: Option<i64>,
    notifier: Option<AccountId>,
    kyc: Option<AccountId>,
    roles: Option<Vec<(AccountId, AdminRole)>>,
    reject_contract_admin: Option<bool>,
}

/// One escrow contract, the ledger it runs on and a token ledger.
struct Net {
    env: soroban_sdk::Env,
    esc: LiquifactEscrow,
    now: u64,
    seq: u32,
    next: AccountId,
    admin: AccountId,
    sme: AccountId,
    token: AccountId,
    treasury: AccountId,
    balances: HashMap<AccountId, i128>,
    auths: Vec<AccountId>,
    /// Every event published so far, in order.
    events: Vec<Event>,
    /// The events of the last successful call.
    last_events: Vec<Event>,
    /// The events that the last refused call published before it failed.
    failed_events: Vec<Event>,
}

impl Net {
    fn new() -> Net {
        let mut n = Net {
            env: soroban_sdk::Env::default(),
            esc: LiquifactEscrow::new(),
            now: 12_345,
            seq: 100,
            next: 1_000,
            admin: 0,
            sme: 0,
            token: 0,
            treasury: 0,
            balances: HashMap::new(),
            auths: Vec::new(),
            events: Vec::new(),
            last_events: Vec::new(),
            failed_events: Vec::new(),
        };
        n.admin = n.addr();
        n.sme = n.addr();
        n.token = n.addr();
        n.treasury = n.addr();
        n
    }

    fn addr(&mut self) -> AccountId {
        self.next += 1;
        self.next
    }

    fn set_time(&mut self, t: u64) {
        self.now = t;
    }

    fn call(&mut self) -> Invocation {
        self.seq += 1;
        Invocation::new(self.now, self.seq, CONTRACT)
    }

    /// Carry out the effects of a call that succeeded.
    fn finish<T>(&mut self, c: Invocation, r: Result<T, EscrowError>) -> Result<T, EscrowError> {
        if r.is_ok() {
            self.auths.extend(c.auths.iter().copied());
            for t in c.transfers.iter() {
                *self.balances.entry(CONTRACT).or_insert(0) -= t.amount;
                *self.balances.entry(t.to).or_insert(0) += t.amount;
            }
            self.events.extend(c.events.iter().cloned());
            self.last_events = c.events;
        } else {
            self.failed_events = c.events;
        }
        r
    }

    fn mint(&mut self, who: AccountId, amount: i128) {
        *self.balances.entry(who).or_insert(0) += amount;
    }

    fn balance(&self, who: AccountId) -> i128 {
        *self.balances.get(&who).unwrap_or(&0)
    }

    fn try_init_with(&mut self, id: &str, amount: i128, yield_bps: i64, maturity: u64, o: Opts) -> Result<InvoiceEscrow, EscrowError> {
        let mut c = self.call();
        let (admin, sme, token, treasury) = (self.admin, self.sme, self.token, self.treasury);
        let r = self.esc.init(
            &mut c, admin, id.to_string(), sme, amount, yield_bps, maturity, token, o.registry, treasury, o.tiers,
            o.min_contribution, o.max_unique, o.max_per, o.hold_delay, o.deadline, o.max_rate, o.slippage,
            o.notifier, o.kyc, o.roles, o.reject_contract_admin, false, 7, &self.env,
        );
        self.finish(c, r)
    }

    fn init_with(&mut self, id: &str, amount: i128, yield_bps: i64, maturity: u64, o: Opts) -> InvoiceEscrow {
        self.try_init_with(id, amount, yield_bps, maturity, o).unwrap()
    }

    fn init(&mut self, id: &str, amount: i128, yield_bps: i64, maturity: u64) -> InvoiceEscrow {
        self.init_with(id, amount, yield_bps, maturity, Opts::default())
    }

    /// The standard escrow: target `TARGET`, 8% yield, maturity 1000.
    fn default_init(&mut self) -> InvoiceEscrow {
        self.init("INV001", TARGET, 800, 1000)
    }

    fn fund(&mut self, investor: AccountId, amount: i128) -> Result<InvoiceEscrow, EscrowError> {
        let mut c = self.call();
        let r = self.esc.fund(&mut c, investor, amount, CLEAR, &key(investor), &self.env);
        self.finish(c, r)
    }

    fn fund_with_commitment(&mut self, investor: AccountId, amount: i128, lock: u64) -> Result<InvoiceEscrow, EscrowError> {
        let mut c = self.call();
        let r = self.esc.fund_with_commitment(&mut c, investor, amount, lock, CLEAR, &key(investor), &self.env);
        self.finish(c, r)
    }

    fn settle(&mut self) -> Result<InvoiceEscrow, EscrowError> {
        let mut c = self.call();
        let r = self.esc.settle(&mut c, None, CLEAR);
        self.finish(c, r)
    }

    fn withdraw(&mut self) -> Result<InvoiceEscrow, EscrowError> {
        let mut c = self.call();
        let sme = self.esc.get_escrow().map(|e| e.sme_address).unwrap_or(self.sme);
        let balance = self.balance(CONTRACT);
        let r = self.esc.withdraw(&mut c, sme, balance);
        self.finish(c, r)
    }

    fn claim(&mut self, investor: AccountId) -> Result<(), EscrowError> {
        let mut c = self.call();
        let r = self.esc.claim_investor_payout(&mut c, investor);
        self.finish(c, r)
    }

    fn refund(&mut self, investor: AccountId) -> Result<(), EscrowError> {
        let mut c = self.call();
        let r = self.esc.refund(&mut c, investor, &key(investor), &self.env);
        self.finish(c, r)
    }

    fn cancel(&mut self) -> Result<InvoiceEscrow, EscrowError> {
        let mut c = self.call();
        let r = self.esc.cancel_funding(&mut c);
        self.finish(c, r)
    }

    fn sweep(&mut self, amount: i128) -> Result<i128, EscrowError> {
        let mut c = self.call();
        let balance = self.balance(CONTRACT);
        let r = self.esc.sweep_terminal_dust(&mut c, amount, balance);
        self.finish(c, r)
    }

    fn set_legal_hold(&mut self, active: bool, reason: &str) -> Result<(), EscrowError> {
        let mut c = self.call();
        let r = self.esc.set_legal_hold(&mut c, active, reason.to_string());
        self.finish(c, r)
    }

    fn clear_legal_hold(&mut self) -> Result<(), EscrowError> {
        let mut c = self.call();
        let r = self.esc.clear_legal_hold(&mut c);
        self.finish(c, r)
    }

    fn pause_dispute(&mut self, ticket: &str, secs: u64) -> Result<(), EscrowError> {
        let mut c = self.call();
        let r = self.esc.pause_dispute(&mut c, ticket.to_string(), secs);
        self.finish(c, r)
    }

    fn resume_dispute(&mut self) -> Result<(), EscrowError> {
        let mut c = self.call();
        let r = self.esc.resume_dispute(&mut c);
        self.finish(c, r)
    }

    fn is_dispute_paused(&self) -> bool {
        self.esc.is_dispute_paused(self.now)
    }

    fn escrow(&self) -> InvoiceEscrow {
        self.esc.get_escrow().unwrap()
    }
}

fn same_escrow(a: &InvoiceEscrow, b: &InvoiceEscrow) -> bool {
    a.invoice_id == b.invoice_id
        && a.admin == b.admin
        && a.sme_address == b.sme_address
        && a.amount == b.amount
        && a.funding_target == b.funding_target
        && a.funded_amount == b.funded_amount
        && a.yield_bps == b.yield_bps
        && a.maturity == b.maturity
        && a.status == b.status
}

use karis_ky_escrow::transfer::{check_transfer_deltas, check_transfer_start};

fn init_err(id: &str, amount: i128, yield_bps: i64, o: Opts) -> EscrowError {
    let mut n = Net::new();
    n.try_init_with(id, amount, yield_bps, 0, o).unwrap_err()
}

#[test]
fn init_rejects_each_bad_argument() {
    assert_eq!(init_err("E1", 0, 500, Opts::default()), EscrowError::AmountMustBePositive);
    assert_eq!(init_err("E1", 1_000, 10_001, Opts::default()), EscrowError::YieldBpsOutOfRange);
    assert_eq!(init_err("E1", 1_000, -1, Opts::default()), EscrowError::YieldBpsOutOfRange);
    assert_eq!(init_err("", 1_000, 500, Opts::default()), EscrowError::InvoiceIdInvalidLength);
    assert_eq!(init_err(&"A".repeat(33), 1_000, 500, Opts::default()), EscrowError::InvoiceIdInvalidLength);
    assert_eq!(init_err("BAD-ID", 1_000, 500, Opts::default()), EscrowError::InvoiceIdInvalidCharset);
    assert_eq!(init_err("E1", 1_000, 500, Opts { min_contribution: Some(0), ..Opts::default() }), EscrowError::MinContributionNotPositive);
    assert_eq!(init_err("E1", 1_000, 500, Opts { min_contribution: Some(1_001), ..Opts::default() }), EscrowError::MinContributionExceedsAmount);
    assert_eq!(init_err("E1", 1_000, 500, Opts { max_per: Some(0), ..Opts::default() }), EscrowError::MaxPerInvestorNotPositive);
    assert_eq!(init_err("E1", 1_000, 500, Opts { max_unique: Some(0), ..Opts::default() }), EscrowError::MaxUniqueInvestorsNotPositive);
    assert_eq!(init_err("E1", 1_000, 500, Opts { slippage: Some(10_001), ..Opts::default() }), EscrowError::YieldSlippageThresholdOutOfRange);
    assert_eq!(init_err("E1", 1_000, 500, Opts { deadline: Some(12_345), ..Opts::default() }), EscrowError::FundingDeadlinePassed);
    assert_eq!(init_err("E1", 1_000, 500, Opts { roles: Some(vec![]), ..Opts::default() }), EscrowError::InvalidAdminRoleList);
    assert_eq!(
        init_err("E1", 1_000, 500, Opts { roles: Some(vec![(7, AdminRole::Full), (7, AdminRole::AuditOnly)]), ..Opts::default() }),
        EscrowError::InvalidAdminRoleList
    );
}

#[test]
fn init_rejects_bad_tier_ladders() {
    let t = |a: u64, ya: i64, b: u64, yb: i64| Opts { tiers: Some(vec![YieldTier { min_lock_secs: a, yield_bps: ya }, YieldTier { min_lock_secs: b, yield_bps: yb }]), ..Opts::default() };
    assert_eq!(init_err("E1", 1_000, 500, t(10, 600, 20, 10_001)), EscrowError::TierYieldOutOfRange);
    assert_eq!(init_err("E1", 1_000, 500, t(10, 400, 20, 600)), EscrowError::TierYieldBelowBase);
    assert_eq!(init_err("E1", 1_000, 500, t(20, 600, 20, 700)), EscrowError::TierLockNotIncreasing);
    assert_eq!(init_err("E1", 1_000, 500, t(10, 700, 20, 600)), EscrowError::TierYieldNotNonDecreasing);
}

#[test]
fn init_can_refuse_a_contract_admin() {
    let mut n = Net::new();
    let mut c = n.call();
    let r = n.esc.init(
        &mut c, n.admin, "CADM".to_string(), n.sme, 1_000, 500, 0, n.token, None, n.treasury, None, None, None, None,
        None, None, None, None, None, None, None, Some(true), true, 7, &n.env,
    );
    assert_eq!(r.unwrap_err(), EscrowError::ContractAdminRejected);
    assert!(n.esc.get_escrow().is_err());
}

#[test]
fn uninitialized_escrow_refuses_operations() {
    let mut n = Net::new();
    let a = n.addr();
    assert_eq!(n.esc.get_escrow().unwrap_err(), EscrowError::EscrowNotInitialized);
    assert_eq!(n.fund(a, 10).unwrap_err(), EscrowError::EscrowNotInitialized);
    assert_eq!(n.settle().unwrap_err(), EscrowError::EscrowNotInitialized);
    assert_eq!(n.cancel().unwrap_err(), EscrowError::EscrowNotInitialized);
}

#[test]
fn funding_guards() {
    let mut n = Net::new();
    let (a, b, c) = (n.addr(), n.addr(), n.addr());
    let o = Opts { min_contribution: Some(10), max_per: Some(500), max_unique: Some(2), max_rate: Some(800), ..Opts::default() };
    n.init_with("FG001", 1_000, 500, 20_000, o);
    assert_eq!(n.fund(a, 0).unwrap_err(), EscrowError::FundingAmountNotPositive);
    assert_eq!(n.fund(a, 9).unwrap_err(), EscrowError::FundingBelowMinContribution);
    assert_eq!(n.fund(a, 501).unwrap_err(), EscrowError::InvestorContributionExceedsCap);
    assert_eq!(n.fund(b, 801).unwrap_err(), EscrowError::FundingVelocityExceeded);
    n.fund(a, 400).unwrap();
    n.fund(b, 400).unwrap();
    assert_eq!(n.fund(c, 100).unwrap_err(), EscrowError::UniqueInvestorCapReached);
    assert_eq!(n.fund_with_commitment(a, 10, 0).unwrap_err(), EscrowError::TieredSecondDeposit);
    let d = n.addr();
    assert_eq!(n.fund_with_commitment(d, 10, 8_000).unwrap_err(), EscrowError::UniqueInvestorCapReached);
}

#[test]
fn commitment_may_not_outlast_maturity() {
    let mut n = Net::new();
    let a = n.addr();
    n.init("CM001", 1_000, 500, 13_000);
    assert_eq!(n.fund_with_commitment(a, 100, 700).unwrap_err(), EscrowError::CommitmentLockExceedsMaturity);
    n.fund_with_commitment(a, 100, 655).unwrap();
}

#[test]
fn screening_providers_gate_funding() {
    let mut n = Net::new();
    let (kyc, a) = (n.addr(), n.addr());
    n.init_with("KYC001", 1_000, 500, 0, Opts { kyc: Some(kyc), ..Opts::default() });
    let mut c = n.call();
    let r = n.esc.fund(&mut c, a, 100, Screening { kyc_verified: false, sanctions_cleared: true }, &key(a), &n.env);
    assert_eq!(n.finish(c, r).unwrap_err(), EscrowError::InvestorNotVerified);
    let mut c = n.call();
    let r = n.esc.set_sanctions_provider(&mut c, Some(kyc));
    n.finish(c, r).unwrap();
    let mut c = n.call();
    let r = n.esc.fund(&mut c, a, 100, Screening { kyc_verified: true, sanctions_cleared: false }, &key(a), &n.env);
    assert_eq!(n.finish(c, r).unwrap_err(), EscrowError::SanctionsScreeningFailed);
    n.fund(a, 100).unwrap();
}

#[test]
fn paused_escrow_refuses_funding() {
    let mut n = Net::new();
    let a = n.addr();
    n.init("PAUSE1", 1_000, 500, 0);
    let mut c = n.call();
    let r = n.esc.set_escrow_paused(&mut c, true);
    n.finish(c, r).unwrap();
    assert_eq!(n.fund(a, 100).unwrap_err(), EscrowError::EscrowIsPaused);
    let mut c = n.call();
    let r = n.esc.set_escrow_paused(&mut c, false);
    n.finish(c, r).unwrap();
    n.fund(a, 100).unwrap();
}

#[test]
fn settlement_withdrawal_and_claim_guards() {
    let mut n = Net::new();
    let (a, stranger) = (n.addr(), n.addr());
    n.init("SWC001", 1_000, 500, 20_000);
    assert_eq!(n.settle().unwrap_err(), EscrowError::SettlementNotFunded);
    assert_eq!(n.claim(a).unwrap_err(), EscrowError::NoContributionToClaim);
    n.fund(a, 1_000).unwrap();
    assert_eq!(n.claim(a).unwrap_err(), EscrowError::InvestorClaimNotSettled);
    assert_eq!(n.settle().unwrap_err(), EscrowError::MaturityNotReached);
    let mut c = n.call();
    let r = n.esc.withdraw(&mut c, stranger, 1_000);
    assert_eq!(n.finish(c, r).unwrap_err(), EscrowError::UnauthorizedWithdrawer);
    assert_eq!(n.withdraw().unwrap_err(), EscrowError::InsufficientContractBalance);
    assert_eq!(n.refund(a).unwrap_err(), EscrowError::RefundNotCancelled);
    assert_eq!(n.sweep(1).unwrap_err(), EscrowError::DustSweepNotTerminal);
    n.set_time(20_000);
    n.settle().unwrap();
    assert_eq!(n.sweep(0).unwrap_err(), EscrowError::SweepAmountNotPositive);
    assert_eq!(n.sweep(1).unwrap_err(), EscrowError::NoFundingTokenBalanceToSweep);
}

#[test]
fn committed_claims_wait_for_the_lock() {
    let mut n = Net::new();
    let a = n.addr();
    n.init_with("LOCK01", 1_000, 500, 0, Opts { tiers: Some(vec![YieldTier { min_lock_secs: 50, yield_bps: 600 }]), ..Opts::default() });
    n.fund_with_commitment(a, 1_000, 50).unwrap();
    n.settle().unwrap();
    assert_eq!(n.claim(a).unwrap_err(), EscrowError::InvestorCommitmentLockNotExpired);
    n.set_time(n.now + 50);
    n.claim(a).unwrap();
    assert_eq!(n.esc.compute_investor_payout(a).unwrap(), 1_060);
}

#[test]
fn admin_update_guards() {
    let mut n = Net::new();
    let a = n.addr();
    n.init_with("UPD001", 1_000, 500, 0, Opts { max_unique: Some(3), ..Opts::default() });
    let mut c = n.call();
    let r = n.esc.update_funding_target(&mut c, 0);
    assert_eq!(n.finish(c, r).unwrap_err(), EscrowError::TargetNotPositive);
    n.fund(a, 400).unwrap();
    let mut c = n.call();
    let r = n.esc.update_funding_target(&mut c, 399);
    assert_eq!(n.finish(c, r).unwrap_err(), EscrowError::TargetBelowFundedAmount);
    let mut c = n.call();
    let r = n.esc.lower_max_unique_investors(&mut c, 3);
    assert_eq!(n.finish(c, r).unwrap_err(), EscrowError::NewCapNotLower);
    let mut c = n.call();
    let r = n.esc.lower_max_unique_investors(&mut c, 0);
    assert_eq!(n.finish(c, r).unwrap_err(), EscrowError::NewCapBelowCurrentFunderCount);
    let mut c = n.call();
    let r = n.esc.lower_max_unique_investors(&mut c, 1);
    assert_eq!(n.finish(c, r).unwrap(), 1);
    n.fund(a, 600).unwrap();
    let mut c = n.call();
    let r = n.esc.update_funding_target(&mut c, 2_000);
    assert_eq!(n.finish(c, r).unwrap_err(), EscrowError::TargetUpdateNotOpen);
    let mut c = n.call();
    let r = n.esc.update_maturity(&mut c, 5);
    assert_eq!(n.finish(c, r).unwrap_err(), EscrowError::MaturityUpdateNotOpen);
    let mut c = n.call();
    let r = n.esc.lower_max_unique_investors(&mut c, 1);
    assert_eq!(n.finish(c, r).unwrap_err(), EscrowError::CapLowerNotOpen);
}

#[test]
fn lowering_a_cap_needs_a_cap() {
    let mut n = Net::new();
    n.init("NOCAP1", 1_000, 500, 0);
    let mut c = n.call();
    let r = n.esc.lower_max_unique_investors(&mut c, 1);
    assert_eq!(n.finish(c, r).unwrap_err(), EscrowError::NoInvestorCapConfigured);
}

#[test]
fn migration_always_ends_in_a_typed_error() {
    let mut n = Net::new();
    n.init("MIG001", 1_000, 500, 0);
    let v = n.esc.get_version();
    let mut c = n.call();
    assert_eq!(n.esc.migrate(&mut c, v + 1).unwrap_err(), EscrowError::MigrationVersionMismatch);
    let mut c = n.call();
    assert_eq!(n.esc.migrate(&mut c, v).unwrap_err(), EscrowError::AlreadyCurrentSchemaVersion);
    n.esc.version = 2;
    let mut c = n.call();
    assert_eq!(n.esc.migrate(&mut c, 2).unwrap_err(), EscrowError::NoMigrationPath);
}

#[test]
fn attestation_guards() {
    let mut n = Net::new();
    n.default_init();
    let mut c = n.call();
    let r = n.esc.bind_primary_attestation_hash(&mut c, &vec![1u8; 31]);
    assert_eq!(n.finish(c, r).unwrap_err(), EscrowError::InvalidAttestationHashLength);
    let mut c = n.call();
    let r = n.esc.bind_primary_attestation_hash(&mut c, &vec![1u8; 32]);
    n.finish(c, r).unwrap();
    assert_eq!(n.esc.get_primary_attestation_hash(), Some([1u8; 32]));
    let mut c = n.call();
    let r = n.esc.bind_primary_attestation_hash(&mut c, &vec![2u8; 32]);
    assert_eq!(n.finish(c, r).unwrap_err(), EscrowError::PrimaryAttestationAlreadyBound);
    let mut c = n.call();
    let r = n.esc.revoke_attestation_digest(&mut c, 0);
    assert_eq!(n.finish(c, r).unwrap_err(), EscrowError::AttestationIndexOutOfRange);
    let mut c = n.call();
    let r = n.esc.append_attestation_digest(&mut c, [3u8; 32], "audit".to_string());
    n.finish(c, r).unwrap();
    let mut c = n.call();
    let r = n.esc.revoke_attestation_digest(&mut c, 0);
    n.finish(c, r).unwrap();
    let mut c = n.call();
    let r = n.esc.revoke_attestation_digest(&mut c, 0);
    assert_eq!(n.finish(c, r).unwrap_err(), EscrowError::AttestationAlreadyRevoked);
}

#[test]
fn collateral_guards() {
    let mut n = Net::new();
    n.default_init();
    let mut c = n.call();
    let r = n.esc.record_sme_collateral_commitment(&mut c, "USDC".to_string(), 0);
    assert_eq!(n.finish(c, r).unwrap_err(), EscrowError::CollateralAmountNotPositive);
    let mut c = n.call();
    let r = n.esc.record_sme_collateral_commitment(&mut c, String::new(), 5);
    assert_eq!(n.finish(c, r).unwrap_err(), EscrowError::CollateralAssetEmpty);
    let mut c = n.call();
    let r = n.esc.record_sme_collateral_commitment(&mut c, "USDC".to_string(), 5);
    n.finish(c, r).unwrap();
    n.set_time(n.now - 1);
    let mut c = n.call();
    let r = n.esc.record_sme_collateral_commitment(&mut c, "USDC".to_string(), 6);
    assert_eq!(n.finish(c, r).unwrap_err(), EscrowError::CollateralTimestampBackwards);
}

#[test]
fn dispute_pause_guards() {
    let mut n = Net::new();
    n.default_init();
    assert_eq!(n.pause_dispute("", 10).unwrap_err(), EscrowError::DisputeTicketIdEmpty);
    assert_eq!(n.pause_dispute("T1", 0).unwrap_err(), EscrowError::DisputePauseDurationNotPositive);
    assert_eq!(n.pause_dispute("T1", 14 * 24 * 3600 + 1).unwrap_err(), EscrowError::DisputePauseDurationExceedsMax);
    assert_eq!(n.resume_dispute().unwrap_err(), EscrowError::NoPauseActive);
    n.pause_dispute("T1", 14 * 24 * 3600).unwrap();
    n.resume_dispute().unwrap();
}

#[test]
fn legal_hold_clear_delay_guards() {
    let mut n = Net::new();
    n.init_with("DELAY1", 1_000, 500, 0, Opts { hold_delay: Some(100), ..Opts::default() });
    n.set_legal_hold(true, "r").unwrap();
    assert_eq!(n.clear_legal_hold().unwrap_err(), EscrowError::LegalHoldClearRequestMissing);
    let mut c = n.call();
    let r = n.esc.request_clear_legal_hold(&mut c);
    n.finish(c, r).unwrap();
    assert_eq!(n.esc.get_legal_hold_clearable_at(), Some(n.now + 100));
    assert_eq!(n.clear_legal_hold().unwrap_err(), EscrowError::LegalHoldClearNotReady);
    n.set_time(n.now + 100);
    n.clear_legal_hold().unwrap();
    assert!(!n.esc.get_legal_hold());
    assert_eq!(n.set_legal_hold(true, &"x".repeat(257)).unwrap_err(), EscrowError::LegalHoldReasonTooLong);
}

#[test]
fn rotation_guards() {
    let mut n = Net::new();
    let (a, new_sme) = (n.addr(), n.addr());
    n.init("ROT001", 1_000, 500, 0);
    let sme = n.sme;
    let mut c = n.call();
    let r = n.esc.rotate_beneficiary(&mut c, sme);
    assert_eq!(n.finish(c, r).unwrap_err(), EscrowError::NewSmeSameAsCurrent);
    n.fund(a, 1_000).unwrap();
    n.settle().unwrap();
    let mut c = n.call();
    let r = n.esc.rotate_beneficiary(&mut c, new_sme);
    assert_eq!(n.finish(c, r).unwrap_err(), EscrowError::RotationNotOpen);
}

#[test]
fn role_table_gates_admin_operations() {
    let mut n = Net::new();
    n.default_init();
    let admin = n.admin;
    assert_eq!(n.esc.get_admin_role(admin).unwrap(), Some(AdminRole::Full));
    let mut c = n.call();
    let r = n.esc.set_admin_roles(&mut c, vec![(admin, AdminRole::AuditOnly)]);
    n.finish(c, r).unwrap();
    assert_eq!(n.esc.get_admin_role(admin).unwrap(), Some(AdminRole::AuditOnly));
    assert_eq!(n.set_legal_hold(true, "r").unwrap_err(), EscrowError::InsufficientAdminRole);
    let mut c = n.call();
    let r = n.esc.set_admin_roles(&mut c, vec![(admin, AdminRole::Full)]);
    assert_eq!(n.finish(c, r).unwrap_err(), EscrowError::InsufficientAdminRole);
}

#[test]
fn multisig_policy_guards() {
    let mut n = Net::new();
    let (s1, s2, s3, outsider) = (n.addr(), n.addr(), n.addr(), n.addr());
    n.default_init();
    let policy = |n: &mut Net, ops: Vec<&str>, signers: Vec<AccountId>, t: u32| {
        let mut c = n.call();
        let r = n.esc.init_multisig_policy(&mut c, ops.iter().map(|s| s.to_string()).collect(), signers, t);
        n.finish(c, r)
    };
    assert_eq!(policy(&mut n, vec![], vec![s1], 1).unwrap_err(), EscrowError::MultisigOperationsListEmpty);
    assert_eq!(policy(&mut n, vec!["legal_hold"], vec![], 1).unwrap_err(), EscrowError::MultisigSignerListInvalid);
    assert_eq!(policy(&mut n, vec!["legal_hold"], vec![s1, s1], 1).unwrap_err(), EscrowError::MultisigSignerListInvalid);
    assert_eq!(policy(&mut n, vec!["legal_hold"], vec![s1, s2], 3).unwrap_err(), EscrowError::MultisigThresholdInvalid);
    policy(&mut n, vec!["legal_hold"], vec![s1, s2, s3], 2).unwrap();
    let hold = |n: &mut Net, signers: Vec<AccountId>, on: bool| {
        let mut c = n.call();
        let r = n.esc.set_legal_hold_multisig(&mut c, signers, on, "r".to_string());
        n.finish(c, r)
    };
    assert_eq!(hold(&mut n, vec![s1], true).unwrap_err(), EscrowError::MultisigInsufficientSigners);
    assert_eq!(hold(&mut n, vec![s1, outsider], true).unwrap_err(), EscrowError::MultisigSignerNotAuthorized);
    assert_eq!(hold(&mut n, vec![s1, s1], true).unwrap_err(), EscrowError::MultisigSignerNotAuthorized);
    let before = n.auths.len();
    hold(&mut n, vec![s1, s3], true).unwrap();
    assert!(n.esc.get_legal_hold());
    assert_eq!(n.auths[before..].to_vec(), vec![s1, s3]);
}

#[test]
fn archive_and_partial_settlement_guards() {
    let mut n = Net::new();
    let (a, stranger) = (n.addr(), n.addr());
    n.init("ARC001", 1_000, 500, 0);
    let mut c = n.call();
    let r = n.esc.archive_escrow(&mut c);
    assert_eq!(n.finish(c, r).unwrap_err(), EscrowError::ArchiveNotTerminal);
    let mut c = n.call();
    let r = n.esc.partial_settle(&mut c, stranger);
    assert_eq!(n.finish(c, r).unwrap_err(), EscrowError::UnauthorizedPartialSettlement);
    n.fund(a, 600).unwrap();
    let sme = n.sme;
    let mut c = n.call();
    let r = n.esc.partial_settle(&mut c, sme);
    let closed = n.finish(c, r).unwrap();
    assert_eq!(closed.status, 1);
    assert_eq!(n.esc.get_funding_close_snapshot().unwrap().total_principal, 600);
    let mut c = n.call();
    let r = n.esc.partial_settle(&mut c, sme);
    assert_eq!(n.finish(c, r).unwrap_err(), EscrowError::PartialSettlementNotOpen);
    n.settle().unwrap();
    let mut c = n.call();
    let r = n.esc.archive_escrow(&mut c);
    assert_eq!(n.finish(c, r).unwrap().status, 5);
}

#[test]
fn notifier_and_ttl_guards() {
    let mut n = Net::new();
    let a = n.addr();
    n.init("NOTE01", 1_000, 500, 0);
    assert_eq!(n.esc.notify_settlement(n.now).unwrap_err(), EscrowError::InvestorClaimNotSettled);
    n.fund(a, 1_000).unwrap();
    n.settle().unwrap();
    assert_eq!(n.esc.notify_settlement(n.now).unwrap_err(), EscrowError::SettlementNotifierNotSet);
    let many: Vec<AccountId> = (0..33).collect();
    assert_eq!(n.esc.bump_ttl(&many).unwrap_err(), EscrowError::TtlBumpBatchTooLarge);
    assert!(n.esc.bump_ttl(&(0..32).collect()).is_ok());
}

#[test]
fn reinvestment_guards_and_amounts() {
    let mut n = Net::new();
    let a = n.addr();
    n.init("RNV001", 1_000, 500, 0);
    let target = InvoiceEscrow {
        invoice_id: "TGT".to_string(),
        admin: 1,
        sme_address: 2,
        amount: 10_000,
        funding_target: 10_000,
        funded_amount: 2_000,
        yield_bps: 500,
        maturity: 0,
        status: 0,
    };
    let reinvest = |n: &mut Net, amount: i128, t: &InvoiceEscrow| {
        let mut c = n.call();
        let r = n.esc.reinvest_yield(&mut c, a, 77, amount, t);
        n.finish(c, r)
    };
    assert_eq!(reinvest(&mut n, 0, &target).unwrap_err(), EscrowError::ReinvestAmountNotPositive);
    n.fund(a, 1_000).unwrap();
    assert_eq!(reinvest(&mut n, 10, &target).unwrap_err(), EscrowError::ReinvestSourceEscrowNotSettled);
    n.settle().unwrap();
    let closed = InvoiceEscrow { status: 2, ..target.clone() };
    assert_eq!(reinvest(&mut n, 10, &closed).unwrap_err(), EscrowError::ReinvestTargetEscrowNotFunding);
    assert_eq!(reinvest(&mut n, 51, &target).unwrap_err(), EscrowError::ReinvestYieldInsufficient);
    // The yield is 50; reinvesting 30 returns the total the target must then show.
    assert_eq!(reinvest(&mut n, 30, &target).unwrap(), 2_030);
    assert_eq!(karis_ky_escrow::claims::check_reinvest_credited(2_030, 30, 2_030), Ok(()));
    assert!(karis_ky_escrow::claims::check_reinvest_credited(2_030, 30, 1_999).is_err());
}

#[test]
fn transfer_balance_checks() {
    assert_eq!(check_transfer_start(0, 10), Err(EscrowError::TransferAmountNotPositive));
    assert_eq!(check_transfer_start(11, 10), Err(EscrowError::InsufficientTokenBalanceBeforeTransfer));
    assert_eq!(check_transfer_start(10, 10), Ok(()));
    assert_eq!(check_transfer_deltas(10, 10, 0, 0, 10), Ok(()));
    assert_eq!(check_transfer_deltas(10, 10, 0, 1, 10), Err(EscrowError::SenderBalanceDeltaMismatch));
    assert_eq!(check_transfer_deltas(10, 10, 0, 0, 9), Err(EscrowError::RecipientBalanceDeltaMismatch));
}

#[test]
fn error_codes_are_stable() {
    assert_eq!(EscrowError::AmountMustBePositive.code(), 1);
    assert_eq!(EscrowError::YieldBpsOutOfRange.code(), 2);
    assert_eq!(EscrowError::LegalHoldSetOnTerminalEscrow.code(), 154);
}
