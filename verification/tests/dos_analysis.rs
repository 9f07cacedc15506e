#![allow(dead_code)]

use std::collections::HashMap;

use karis_ky_escrow::{
    AccountId, AdminRole, EscrowError, Event, Invocation, InvoiceEscrow, LiquifactEscrow, Screening, YieldTier,
};

const CONTRACT: AccountId = 900;
const TARGET: i128 = 100_000_000_000;
const CLEAR: Screening = Screening { kyc_verified: true, sanctions_cleared: true };
/// Keccak-256 of no bytes.
const EMPTY_ROOT: [u8; 32] = [
    0xc5, 0xd2, 0x46, 0x01, 0x86, 0xf7, 0x23, 0x3c, 0x92, 0x7e, 0x7d, 0xb2, 0xdc, 0xc7, 0x03, 0xc0,
    0xe5, 0x00, 0xb6, 0x53, 0xca, 0x82, 0x27, 0x3b, 0x7b, 0xfa, 0xd8, 0x04, 0x5d, 0x85, 0xa4, 0x70,
];

/// The address bytes of account `id`, as the host hands them to the library (a
/// 56-character strkey-shaped string).
fn key(id: AccountId) -> Vec<u8> {
    format!("G{:055}", id).into_bytes()
}

/// Optional `init` arguments, all absent by default.
#[derive(Default)]
struct Opts {
    registry: Option<AccountId>,
    tiers: Option<Vec<YieldTier>>,
    min_contribution: Option<i128>,
    max_unique: Option<u32>,
    max_per: Option<i128>,
    hold_delay: Option<u64>,
    deadline: Option<u64>,
    max_rate: Option<u64>,
    slippage: Option<i64>,
    notifier: Option<AccountId>,
    kyc: Option<AccountId>,
    roles: Option<Vec<(AccountId, AdminRole)>>,
    reject_contract_admin: Option<bool>,
}

/// One escrow contract, the ledger it runs on and a token ledger.
struct Net {
    env: soroban_sdk::Env,
    esc: LiquifactEscrow,
    now: u64,
    seq: u32,
    next: AccountId,
    admin: AccountId,
    sme: AccountId,
    token: AccountId,
    treasury: AccountId,
    balances: HashMap<AccountId, i128>,
    auths: Vec<AccountId>,
    /// Every event published so far, in order.
    events: Vec<Event>,
    /// The events of the last successful call.
    last_events: Vec<Event>,
    /// The events that the last refused call published before it failed.
    failed_events: Vec<Event>,
}

impl Net {
    fn new() -> Net {
        let mut n = Net {
            env: soroban_sdk::Env::default(),
            esc: LiquifactEscrow::new(),
            now: 12_345,
            seq: 100,
            next: 1_000,
            admin: 0,
            sme: 0,
            token: 0,
            treasury: 0,
            balances: HashMap::new(),
            auths: Vec::new(),
            events: Vec::new(),
            last_events: Vec::new(),
            failed_events: Vec::new(),
        };
        n.admin = n.addr();
        n.sme = n.addr();
        n.token = n.addr();
        n.treasury = n.addr();
        n
    }

    fn addr(&mut self) -> AccountId {
        self.next += 1;
        self.next
    }

    fn set_time(&mut self, t: u64) {
        self.now = t;
    }

    fn call(&mut self) -> Invocation {
        self.seq += 1;
        Invocation::new(self.now, self.seq, CONTRACT)
    }

    /// Carry out the effects of a call that succeeded.
    fn finish<T>(&mut self, c: Invocation, r: Result<T, EscrowError>) -> Result<T, EscrowError> {
        if r.is_ok() {
            self.auths.extend(c.auths.iter().copied());
            for t in c.transfers.iter() {
                *self.balances.entry(CONTRACT).or_insert(0) -= t.amount;
                *self.balances.entry(t.to).or_insert(0) += t.amount;
            }
            self.events.extend(c.events.iter().cloned());
            self.last_events = c.events;
        } else {
            self.failed_events = c.events;
        }
        r
    }

    fn mint(&mut self, who: AccountId, amount: i128) {
        *self.balances.entry(who).or_insert(0) += amount;
    }

    fn balance(&self, who: AccountId) -> i128 {
        *self.balances.get(&who).unwrap_or(&0)
    }

    fn try_init_with(&mut self, id: &str, amount: i128, yield_bps: i64, maturity: u64, o: Opts) -> Result<InvoiceEscrow, EscrowError> {
        let mut c = self.call();
        let (admin, sme, token, treasury) = (self.admin, self.sme, self.token, self.treasury);
        let r = self.esc.init(
            &mut c, admin, id.to_string(), sme, amount, yield_bps, maturity, token, o.registry, treasury, o.tiers,
            o.min_contribution, o.max_unique, o.max_per, o.hold_delay, o.deadline, o.max_rate, o.slippage,
            o.notifier, o.kyc, o.roles, o.reject_contract_admin, false, 7, &self.env,
        );
        self.finish(c, r)
    }

    fn init_with(&mut self, id: &str, amount: i128, yield_bps: i64, maturity: u64, o: Opts) -> InvoiceEscrow {
        self.try_init_with(id, amount, yield_bps, maturity, o).unwrap()
    }

    fn init(&mut self, id: &str, amount: i128, yield_bps: i64, maturity: u64) -> InvoiceEscrow {
        self.init_with(id, amount, yield_bps, maturity, Opts::default())
    }

    /// The standard escrow: target `TARGET`, 8% yield, maturity 1000.
    fn default_init(&mut self) -> InvoiceEscrow {
        self.init("INV001", TARGET, 800, 1000)
    }

    fn fund(&mut self, investor: AccountId, amount: i128) -> Result<InvoiceEscrow, EscrowError> {
        let mut c = self.call();
        let r = self.esc.fund(&mut c, investor, amount, CLEAR, &key(investor), &self.env);
        self.finish(c, r)
    }

    fn fund_with_commitment(&mut self, investor: AccountId, amount: i128, lock: u64) -> Result<InvoiceEscrow, EscrowError> {
        let mut c = self.call();
        let r = self.esc.fund_with_commitment(&mut c, investor, amount, lock, CLEAR, &key(investor), &self.env);
        self.finish(c, r)
    }

    fn settle(&mut self) -> Result<InvoiceEscrow, EscrowError> {
        let mut c = self.call();
        let r = self.esc.settle(&mut c, None, CLEAR);
        self.finish(c, r)
    }

    fn withdraw(&mut self) -> Result<InvoiceEscrow, EscrowError> {
        let mut c = self.call();
        let sme = self.esc.get_escrow().map(|e| e.sme_address).unwrap_or(self.sme);
        let balance = self.balance(CONTRACT);
        let r = self.esc.withdraw(&mut c, sme, balance);
        self.finish(c, r)
    }

    fn claim(&mut self, investor: AccountId) -> Result<(), EscrowError> {
        let mut c = self.call();
        let r = self.esc.claim_investor_payout(&mut c, investor);
        self.finish(c, r)
    }

    fn refund(&mut self, investor: AccountId) -> Result<(), EscrowError> {
        let mut c = self.call();
        let r = self.esc.refund(&mut c, investor, &key(investor), &self.env);
        self.finish(c, r)
    }

    fn cancel(&mut self) -> Result<InvoiceEscrow, EscrowError> {
        let mut c = self.call();
        let r = self.esc.cancel_funding(&mut c);
        self.finish(c, r)
    }

    fn sweep(&mut self, amount: i128) -> Result<i128, EscrowError> {
        let mut c = self.call();
        let balance = self.balance(CONTRACT);
        let r = self.esc.sweep_terminal_dust(&mut c, amount, balance);
        self.finish(c, r)
    }

    fn set_legal_hold(&mut self, active: bool, reason: &str) -> Result<(), EscrowError> {
        let mut c = self.call();
        let r = self.esc.set_legal_hold(&mut c, active, reason.to_string());
        self.finish(c, r)
    }

    fn clear_legal_hold(&mut self) -> Result<(), EscrowError> {
        let mut c = self.call();
        let r = self.esc.clear_legal_hold(&mut c);
        self.finish(c, r)
    }

    fn pause_dispute(&mut self, ticket: &str, secs: u64) -> Result<(), EscrowError> {
        let mut c = self.call();
        let r = self.esc.pause_dispute(&mut c, ticket.to_string(), secs);
        self.finish(c, r)
    }

    fn resume_dispute(&mut self) -> Result<(), EscrowError> {
        let mut c = self.call();
        let r = self.esc.resume_dispute(&mut c);
        self.finish(c, r)
    }

    fn is_dispute_paused(&self) -> bool {
        self.esc.is_dispute_paused(self.now)
    }

    fn escrow(&self) -> InvoiceEscrow {
        self.esc.get_escrow().unwrap()
    }
}

fn same_escrow(a: &InvoiceEscrow, b: &InvoiceEscrow) -> bool {
    a.invoice_id == b.invoice_id
        && a.admin == b.admin
        && a.sme_address == b.sme_address
        && a.amount == b.amount
        && a.funding_target == b.funding_target
        && a.funded_amount == b.funded_amount
        && a.yield_bps == b.yield_bps
        && a.maturity == b.maturity
        && a.status == b.status
}

use karis_ky_escrow::constants::{
    MAX_ATTESTATION_APPEND_ENTRIES, MAX_DUST_SWEEP_AMOUNT, MAX_FUND_BATCH, MAX_INVESTOR_ALLOWLIST_BATCH,
};

#[test]
fn test_fund_batch_has_bounded_iteration() {
    assert!(MAX_FUND_BATCH > 0, "MAX_FUND_BATCH must be positive");
    assert!(MAX_FUND_BATCH <= 100, "MAX_FUND_BATCH should be reasonable (≤ 100 entries)");
}

#[test]
fn test_attestation_append_log_has_bounded_capacity() {
    assert!(MAX_ATTESTATION_APPEND_ENTRIES > 0, "MAX_ATTESTATION_APPEND_ENTRIES must be positive");
    assert!(
        MAX_ATTESTATION_APPEND_ENTRIES <= 100,
        "MAX_ATTESTATION_APPEND_ENTRIES should be reasonable (≤ 100 entries)"
    );
}

#[test]
fn test_dust_sweep_has_bounded_amount() {
    assert!(MAX_DUST_SWEEP_AMOUNT > 0, "MAX_DUST_SWEEP_AMOUNT must be positive");
    assert!(
        MAX_DUST_SWEEP_AMOUNT <= 1_000_000_000_000i128,
        "MAX_DUST_SWEEP_AMOUNT should be reasonable (≤ 1T base units)"
    );
}

fn fund_batch(n: &mut Net, batch: &Vec<(AccountId, i128)>) -> Result<InvoiceEscrow, EscrowError> {
    let screenings: Vec<Screening> = batch.iter().map(|_| CLEAR).collect();
    let mut c = n.call();
    let keys: Vec<Vec<u8>> = batch.iter().map(|(a, _)| key(*a)).collect();
    let r = n.esc.fund_batch(&mut c, batch, &screenings, &keys, &n.env);
    n.finish(c, r)
}

#[test]
fn test_fund_batch_enforces_size_limit() {
    let mut n = Net::new();
    n.init("BATCH", (MAX_FUND_BATCH as i128 + 1) * 1_000, 800, 0);
    let mut batch = Vec::new();
    for _ in 0..=(MAX_FUND_BATCH as usize) {
        let a = n.addr();
        batch.push((a, 1_000i128));
    }
    assert_eq!(fund_batch(&mut n, &batch).unwrap_err(), EscrowError::FundingBatchTooLarge);
}

#[test]
fn test_fund_batch_accepts_max_entries() {
    let mut n = Net::new();
    let target = (MAX_FUND_BATCH as i128) * 1_000;
    n.init("BATCHMAX", target, 800, 0);
    let mut batch = Vec::new();
    for _ in 0..MAX_FUND_BATCH {
        let a = n.addr();
        batch.push((a, 1_000i128));
    }
    assert!(fund_batch(&mut n, &batch).is_ok(), "fund_batch with MAX_FUND_BATCH entries should succeed");
    assert_eq!(n.escrow().funded_amount, target, "all entries should be funded");
}

#[test]
fn test_attestation_append_enforces_log_capacity() {
    let mut n = Net::new();
    n.init("ATTLOG", 100_000, 800, 0);
    for i in 0..MAX_ATTESTATION_APPEND_ENTRIES {
        let mut c = n.call();
        let r = n.esc.append_attestation_digest(&mut c, [i as u8; 32], String::new());
        n.finish(c, r).unwrap();
    }
    let log = n.esc.get_attestation_append_log();
    assert_eq!(log.len(), MAX_ATTESTATION_APPEND_ENTRIES as usize, "log should be at capacity");
    let mut c = n.call();
    let r = n.esc.append_attestation_digest(&mut c, [99; 32], String::new());
    assert_eq!(n.finish(c, r).unwrap_err(), EscrowError::AttestationAppendLogCapacityReached);
}

#[test]
fn test_dust_sweep_enforces_amount_limit() {
    let mut n = Net::new();
    n.init("DUST", 100_000, 800, 0);
    let investor = n.addr();
    n.fund(investor, 100_000).unwrap();
    n.settle().unwrap();
    assert!(MAX_DUST_SWEEP_AMOUNT > 0, "MAX_DUST_SWEEP_AMOUNT should be positive");
    assert_eq!(n.sweep(MAX_DUST_SWEEP_AMOUNT + 1).unwrap_err(), EscrowError::SweepAmountExceedsMax);
}

#[test]
fn test_allowlist_batch_enforces_size_limit() {
    let mut n = Net::new();
    n.init("ALLOW", 100_000, 800, 0);
    let mut c = n.call();
    let r = n.esc.set_allowlist_active(&mut c, true);
    n.finish(c, r).unwrap();
    let mut batch = Vec::new();
    for _ in 0..=(MAX_INVESTOR_ALLOWLIST_BATCH as usize) {
        let a = n.addr();
        batch.push(a);
    }
    let mut c = n.call();
    let r = n.esc.set_investors_allowlisted(&mut c, &batch, true);
    assert_eq!(n.finish(c, r).unwrap_err(), EscrowError::InvestorBatchTooLarge);
}

#[test]
fn test_per_investor_storage_no_unbounded_enumeration() {
    let mut n = Net::new();
    n.init("NOENUM", 1_000_000, 800, 0);
    for _ in 0..100 {
        let investor = n.addr();
        n.fund(investor, 10_000).unwrap();
    }
    assert_eq!(n.esc.get_unique_funder_count(), 100);
    assert_eq!(n.escrow().status, 1);
}

#[test]
fn test_per_investor_storage_cardinality_bounded_by_cap() {
    let mut n = Net::new();
    let max_investors = 10u32;
    n.init_with("INVARCAP", 100_000, 800, 0, Opts { max_unique: Some(max_investors), ..Opts::default() });
    // Fund up to the cap, staying under the target so funding stays open.
    for _ in 0..max_investors {
        let investor = n.addr();
        n.fund(investor, 5_000).unwrap();
    }
    assert_eq!(n.esc.get_unique_funder_count(), max_investors, "unique funder count should be at cap");
    assert_eq!(n.escrow().status, 0);
    // The next new investor is refused.
    let extra = n.addr();
    assert_eq!(n.fund(extra, 5_000).unwrap_err(), EscrowError::UniqueInvestorCapReached);
}
