#![allow(dead_code)]

use std::collections::HashMap;

use karis_ky_escrow::{
    AccountId, AdminRole, EscrowError, Event, Invocation, InvoiceEscrow, LiquifactEscrow, Screening, YieldTier,
};

const CONTRACT: AccountId = 900;
const TARGET: i128 = 100_000_000_000;
const CLEAR: Screening = Screening { kyc_verified: true, sanctions_cleared: true };
/// Keccak-256 of no bytes.
const EMPTY_ROOT: [u8; 32] = [
    0xc5, 0xd2, 0x46, 0x01, 0x86, 0xf7, 0x23, 0x3c, 0x92, 0x7e, 0x7d, 0xb2, 0xdc, 0xc7, 0x03, 0xc0,
    0xe5, 0x00, 0xb6, 0x53, 0xca, 0x82, 0x27, 0x3b, 0x7b, 0xfa, 0xd8, 0x04, 0x5d, 0x85, 0xa4, 0x70,
];

/// The address bytes of account `id`, as the host hands them to the library (a
/// 56-character strkey-shaped string).
fn key(id: AccountId) -> Vec<u8> {
    format!("G{:055}", id).into_bytes()
}

/// Optional `init` arguments, all absent by default.
#[derive(Default)]
struct Opts {
    registry: Option<AccountId>,
    tiers: Option<Vec<YieldTier>>,
    min_contribution: Option<i128>,
    max_unique: Option<u32>,
    max_per: Option<i128>,
    hold_delay: Option<u64>,
    deadline: Option<u64>,
    max_rate: Option<u64>,
    slippage: Option<i64>,
    notifier: Option<AccountId>,
    kyc: Option<AccountId>,
    roles: Option<Vec<(AccountId, AdminRole)>>,
    reject_contract_admin: Option<bool>,
}

/// One escrow contract, the ledger it runs on and a token ledger.
struct Net {
    env: soroban_sdk::Env,
    esc: LiquifactEscrow,
    now: u64,
    seq: u32,
    next: AccountId,
    admin: AccountId,
    sme: AccountId,
    token: AccountId,
    treasury: AccountId,
    balances: HashMap<AccountId, i128>,
    auths: Vec<AccountId>,
    /// Every event published so far, in order.
    events: Vec<Event>,
    /// The events of the last successful call.
    last_events: Vec<Event>,
    /// The events that the last refused call published before it failed.
    failed_events: Vec<Event>,
}

impl Net {
    fn new() -> Net {
        let mut n = Net {
            env: soroban_sdk::Env::default(),
            esc: LiquifactEscrow::new(),
            now: 12_345,
            seq: 100,
            next: 1_000,
            admin: 0,
            sme: 0,
            token: 0,
            treasury: 0,
            balances: HashMap::new(),
            auths: Vec::new(),
            events: Vec::new(),
            last_events: Vec::new(),
            failed_events: Vec::new(),
        };
        n.admin = n.addr();
        n.sme = n.addr();
        n.token = n.addr();
        n.treasury = n.addr();
        n
    }

    fn addr(&mut self) -> AccountId {
        self.next += 1;
        self.next
    }

    fn set_time(&mut self, t: u64) {
        self.now = t;
    }

    fn call(&mut self) -> Invocation {
        self.seq += 1;
        Invocation::new(self.now, self.seq, CONTRACT)
    }

    /// Carry out the effects of a call that succeeded.
    fn finish<T>(&mut self, c: Invocation, r: Result<T, EscrowError>) -> Result<T, EscrowError> {
        if r.is_ok() {
            self.auths.extend(c.auths.iter().copied());
            for t in c.transfers.iter() {
                *self.balances.entry(CONTRACT).or_insert(0) -= t.amount;
                *self.balances.entry(t.to).or_insert(0) += t.amount;
            }
            self.events.extend(c.events.iter().cloned());
            self.last_events = c.events;
        } else {
            self.failed_events = c.events;
        }
        r
    }

    fn mint(&mut self, who: AccountId, amount: i128) {
        *self.balances.entry(who).or_insert(0) += amount;
    }

    fn balance(&self, who: AccountId) -> i128 {
        *self.balances.get(&who).unwrap_or(&0)
    }

    fn try_init_with(&mut self, id: &str, amount: i128, yield_bps: i64, maturity: u64, o: Opts) -> Result<InvoiceEscrow, EscrowError> {
        let mut c = self.call();
        let (admin, sme, token, treasury) = (self.admin, self.sme, self.token, self.treasury);
        let r = self.esc.init(
            &mut c, admin, id.to_string(), sme, amount, yield_bps, maturity, token, o.registry, treasury, o.tiers,
            o.min_contribution, o.max_unique, o.max_per, o.hold_delay, o.deadline, o.max_rate, o.slippage,
            o.notifier, o.kyc, o.roles, o.reject_contract_admin, false, 7, &self.env,
        );
        self.finish(c, r)
    }

    fn init_with(&mut self, id: &str, amount: i128, yield_bps: i64, maturity: u64, o: Opts) -> InvoiceEscrow {
        self.try_init_with(id, amount, yield_bps, maturity, o).unwrap()
    }

    fn init(&mut self, id: &str, amount: i128, yield_bps: i64, maturity: u64) -> InvoiceEscrow {
        self.init_with(id, amount, yield_bps, maturity, Opts::default())
    }

    /// The standard escrow: target `TARGET`, 8% yield, maturity 1000.
    fn default_init(&mut self) -> InvoiceEscrow {
        self.init("INV001", TARGET, 800, 1000)
    }

    fn fund(&mut self, investor: AccountId, amount: i128) -> Result<InvoiceEscrow, EscrowError> {
        let mut c = self.call();
        let r = self.esc.fund(&mut c, investor, amount, CLEAR, &key(investor), &self.env);
        self.finish(c, r)
    }

    fn fund_with_commitment(&mut self, investor: AccountId, amount: i128, lock: u64) -> Result<InvoiceEscrow, EscrowError> {
        let mut c = self.call();
        let r = self.esc.fund_with_commitment(&mut c, investor, amount, lock, CLEAR, &key(investor), &self.env);
        self.finish(c, r)
    }

    fn settle(&mut self) -> Result<InvoiceEscrow, EscrowError> {
        let mut c = self.call();
        let r = self.esc.settle(&mut c, None, CLEAR);
        self.finish(c, r)
    }

    fn withdraw(&mut self) -> Result<InvoiceEscrow, EscrowError> {
        let mut c = self.call();
        let sme = self.esc.get_escrow().map(|e| e.sme_address).unwrap_or(self.sme);
        let balance = self.balance(CONTRACT);
        let r = self.esc.withdraw(&mut c, sme, balance);
        self.finish(c, r)
    }

    fn claim(&mut self, investor: AccountId) -> Result<(), EscrowError> {
        let mut c = self.call();
        let r = self.esc.claim_investor_payout(&mut c, investor);
        self.finish(c, r)
    }

    fn refund(&mut self, investor: AccountId) -> Result<(), EscrowError> {
        let mut c = self.call();
        let r = self.esc.refund(&mut c, investor, &key(investor), &self.env);
        self.finish(c, r)
    }

    fn cancel(&mut self) -> Result<InvoiceEscrow, EscrowError> {
        let mut c = self.call();
        let r = self.esc.cancel_funding(&mut c);
        self.finish(c, r)
    }

    fn sweep(&mut self, amount: i128) -> Result<i128, EscrowError> {
        let mut c = self.call();
        let balance = self.balance(CONTRACT);
        let r = self.esc.sweep_terminal_dust(&mut c, amount, balance);
        self.finish(c, r)
    }

    fn set_legal_hold(&mut self, active: bool, reason: &str) -> Result<(), EscrowError> {
        let mut c = self.call();
        let r = self.esc.set_legal_hold(&mut c, active, reason.to_string());
        self.finish(c, r)
    }

    fn clear_legal_hold(&mut self) -> Result<(), EscrowError> {
        let mut c = self.call();
        let r = self.esc.clear_legal_hold(&mut c);
        self.finish(c, r)
    }

    fn pause_dispute(&mut self, ticket: &str, secs: u64) -> Result<(), EscrowError> {
        let mut c = self.call();
        let r = self.esc.pause_dispute(&mut c, ticket.to_string(), secs);
        self.finish(c, r)
    }

    fn resume_dispute(&mut self) -> Result<(), EscrowError> {
        let mut c = self.call();
        let r = self.esc.resume_dispute(&mut c);
        self.finish(c, r)
    }

    fn is_dispute_paused(&self) -> bool {
        self.esc.is_dispute_paused(self.now)
    }

    fn escrow(&self) -> InvoiceEscrow {
        self.esc.get_escrow().unwrap()
    }
}

fn same_escrow(a: &InvoiceEscrow, b: &InvoiceEscrow) -> bool {
    a.invoice_id == b.invoice_id
        && a.admin == b.admin
        && a.sme_address == b.sme_address
        && a.amount == b.amount
        && a.funding_target == b.funding_target
        && a.funded_amount == b.funded_amount
        && a.yield_bps == b.yield_bps
        && a.maturity == b.maturity
        && a.status == b.status
}

use karis_ky_escrow::constants::MAX_ATTESTATION_APPEND_ENTRIES;

fn digest(seed: u8) -> [u8; 32] {
    [seed; 32]
}

/// A settled escrow funded by `num_investors` investors with `amount_per` each.
fn setup_multi_investor_settled(num_investors: u32, amount_per: i128) -> (Net, Vec<AccountId>) {
    let mut n = Net::new();
    let total = amount_per.checked_mul(num_investors as i128).unwrap_or(amount_per);
    n.init("BATCH01", total, 400, 0);
    let mut investors = Vec::new();
    for _ in 0..num_investors {
        let inv = n.addr();
        n.fund(inv, amount_per).unwrap();
        investors.push(inv);
    }
    n.settle().unwrap();
    (n, investors)
}

fn batch_claim(n: &mut Net, investors: &Vec<AccountId>) -> Result<u32, EscrowError> {
    let mut c = n.call();
    let admin = n.admin;
    let r = n.esc.batch_claim_investor_payouts(&mut c, admin, investors);
    n.finish(c, r)
}

fn append(n: &mut Net, d: [u8; 32]) -> Result<(), EscrowError> {
    let mut c = n.call();
    let r = n.esc.append_attestation_digest(&mut c, d, String::new());
    n.finish(c, r)
}

#[test]
fn batch_claim_single_investor_succeeds() {
    let (mut n, investors) = setup_multi_investor_settled(1, 100_000_000_000);
    let claimed = batch_claim(&mut n, &investors).unwrap();
    assert_eq!(claimed, 1);
    assert!(n.esc.is_investor_claimed(investors[0]));
}

#[test]
fn batch_claim_multiple_investors_succeeds() {
    let (mut n, investors) = setup_multi_investor_settled(5, 20_000_000_000);
    let claimed = batch_claim(&mut n, &investors).unwrap();
    assert_eq!(claimed, 5u32);
    for i in 0..5 {
        assert!(n.esc.is_investor_claimed(investors[i]));
    }
}

#[test]
fn batch_claim_is_idempotent() {
    let (mut n, investors) = setup_multi_investor_settled(3, 30_000_000_000);
    assert_eq!(batch_claim(&mut n, &investors).unwrap(), 3u32);
    assert_eq!(batch_claim(&mut n, &investors).unwrap(), 0u32);
}

#[test]
fn batch_claim_partial_already_claimed() {
    let (mut n, investors) = setup_multi_investor_settled(4, 25_000_000_000);
    n.claim(investors[0]).unwrap();
    assert!(n.esc.is_investor_claimed(investors[0]));
    assert_eq!(batch_claim(&mut n, &investors).unwrap(), 3u32);
    for i in 0..4 {
        assert!(n.esc.is_investor_claimed(investors[i]));
    }
}

#[test]
fn merkle_root_stored_at_funding_close() {
    let mut n = Net::new();
    n.init("MRK001", 100_000_000_000, 400, 0);
    assert!(n.esc.get_funding_close_merkle_root().is_none());
    let investor = n.addr();
    n.fund(investor, 100_000_000_000).unwrap();
    assert!(n.esc.get_funding_close_merkle_root().is_some());
}

#[test]
fn merkle_root_absent_before_funding_close() {
    let mut n = Net::new();
    n.init("MRK002", 100_000_000_000, 400, 0);
    assert!(n.esc.get_funding_close_merkle_root().is_none());
}

#[test]
fn verify_investor_proof_fails_without_root() {
    let mut n = Net::new();
    n.init("MRK003", 100_000_000_000, 400, 0);
    let investor = b"GINVESTOR".to_vec();
    assert!(!n.esc.verify_investor_proof(&n.env, &investor, 100, &Vec::new()));
    assert!(!n.esc.close_root_matches(EMPTY_ROOT));
}

#[test]
fn merkle_root_survives_settle() {
    let mut n = Net::new();
    n.init("MRK004", 100_000_000_000, 400, 0);
    let investor = n.addr();
    n.fund(investor, 100_000_000_000).unwrap();
    let root_before = n.esc.get_funding_close_merkle_root();
    n.settle().unwrap();
    let root_after = n.esc.get_funding_close_merkle_root();
    assert_eq!(root_before, root_after);
}

#[test]
fn attestation_append_uses_individual_entries() {
    let mut n = Net::new();
    n.default_init();
    let d1 = digest(0x10);
    let d2 = digest(0x20);
    append(&mut n, d1).unwrap();
    append(&mut n, d2).unwrap();
    let log = n.esc.get_attestation_append_log();
    assert_eq!(log.len(), 2);
    assert_eq!(log[0], d1);
    assert_eq!(log[1], d2);
}

#[test]
fn attestation_append_respects_max_entries() {
    let mut n = Net::new();
    n.default_init();
    for i in 0u8..(MAX_ATTESTATION_APPEND_ENTRIES as u8) {
        append(&mut n, digest(i)).unwrap();
    }
    let log = n.esc.get_attestation_append_log();
    assert_eq!(log.len() as u32, MAX_ATTESTATION_APPEND_ENTRIES);
    for i in 0u32..MAX_ATTESTATION_APPEND_ENTRIES {
        assert_eq!(log[i as usize], digest(i as u8));
    }
}

#[test]
fn attestation_revoke_works_with_individual_entries() {
    let mut n = Net::new();
    n.default_init();
    append(&mut n, digest(0xAA)).unwrap();
    append(&mut n, digest(0xBB)).unwrap();
    let mut c = n.call();
    let r = n.esc.revoke_attestation_digest(&mut c, 0);
    n.finish(c, r).unwrap();
    assert!(n.esc.is_attestation_revoked(0));
    assert!(!n.esc.is_attestation_revoked(1));
}

#[test]
fn attestation_log_empty_before_first_append_with_new_format() {
    let mut n = Net::new();
    n.default_init();
    assert_eq!(n.esc.get_attestation_append_log().len(), 0);
}

#[test]
fn batch_claim_verifies_all_investors_independently() {
    let (mut n, investors) = setup_multi_investor_settled(10, 10_000_000_000);
    assert_eq!(batch_claim(&mut n, &investors).unwrap(), 10u32);
    for i in 0..10 {
        assert!(n.esc.is_investor_claimed(investors[i]));
    }
}

#[test]
fn batch_claim_mixed_claimed_and_unclaimed() {
    let (mut n, investors) = setup_multi_investor_settled(6, 15_000_000_000);
    n.claim(investors[0]).unwrap();
    n.claim(investors[2]).unwrap();
    n.claim(investors[4]).unwrap();
    assert_eq!(batch_claim(&mut n, &investors).unwrap(), 3u32);
    for i in 0..6 {
        assert!(n.esc.is_investor_claimed(investors[i]));
    }
}

#[test]
fn benchmark_snapshot_size_scaling() {
    let mut n = Net::new();
    let total_target: i128 = 1_000_000_000_000;
    let per_investor: i128 = 1_000_000_000;
    n.init("BENCH01", total_target, 400, 0);
    let mut count: u32 = 0;
    for _ in 0..50 {
        let inv = n.addr();
        n.fund(inv, per_investor).unwrap();
        count += 1;
    }
    if let Some(snap) = n.esc.get_funding_close_snapshot() {
        assert!(snap.total_principal > 0);
    }
    assert_eq!(n.esc.get_unique_funder_count(), count);
}

#[test]
fn batch_claim_rejects_empty_and_oversized_lists() {
    let (mut n, _) = setup_multi_investor_settled(1, 100_000_000_000);
    assert_eq!(batch_claim(&mut n, &Vec::new()).unwrap_err(), EscrowError::BatchClaimEmpty);
    let many: Vec<AccountId> = (0..51).map(|i| 50_000 + i).collect();
    assert_eq!(batch_claim(&mut n, &many).unwrap_err(), EscrowError::BatchClaimTooLarge);
}
