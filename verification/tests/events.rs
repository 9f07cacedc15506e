#![allow(dead_code)]

use std::collections::HashMap;

use karis_ky_escrow::{
    AccountId, AdminRole, EscrowError, Event, Invocation, InvoiceEscrow, LiquifactEscrow, Screening, YieldTier,
};

const CONTRACT: AccountId = 900;
const TARGET: i128 = 100_000_000_000;
const CLEAR: Screening = Screening { kyc_verified: true, sanctions_cleared: true };
/// Keccak-256 of no bytes.
const EMPTY_ROOT: [u8; 32] = [
    0xc5, 0xd2, 0x46, 0x01, 0x86, 0xf7, 0x23, 0x3c, 0x92, 0x7e, 0x7d, 0xb2, 0xdc, 0xc7, 0x03, 0xc0,
    0xe5, 0x00, 0xb6, 0x53, 0xca, 0x82, 0x27, 0x3b, 0x7b, 0xfa, 0xd8, 0x04, 0x5d, 0x85, 0xa4, 0x70,
];

/// The address bytes of account `id`, as the host hands them to the library (a
/// 56-character strkey-shaped string).
fn key(id: AccountId) -> Vec<u8> {
    format!("G{:055}", id).into_bytes()
}

/// Optional `init` arguments, all absent by default.
#[derive(Default)]
struct Opts {
    registry: Option<AccountId>,
    tiers: Option<Vec<YieldTier>>,
    min_contribution: Option<i128>,
    max_unique: Option<u32>,
    max_per: Option<i128>,
    hold_delay: Option<u64>,
    deadline: Option<u64>,
    max_rate: Option<u64>,
    slippage: Option<i64>,
    notifier: Option<AccountId>,
    kyc: Option<AccountId>,
    roles: Option<Vec<(AccountId, AdminRole)>>,
    reject_contract_admin: Option<bool>,
}

/// One escrow contract, the ledger it runs on and a token ledger.
struct Net {
    env: soroban_sdk::Env,
    esc: LiquifactEscrow,
    now: u64,
    seq: u32,
    next: AccountId,
    admin: AccountId,
    sme: AccountId,
    token: AccountId,
    treasury: AccountId,
    balances: HashMap<AccountId, i128>,
    auths: Vec<AccountId>,
    /// Every event published so far, in order.
    events: Vec<Event>,
    /// The events of the last successful call.
    last_events: Vec<Event>,
    /// The events that the last refused call published before it failed.
    failed_events: Vec<Event>,
}

impl Net {
    fn new() -> Net {
        let mut n = Net {
            env: soroban_sdk::Env::default(),
            esc: LiquifactEscrow::new(),
            now: 12_345,
            seq: 100,
            next: 1_000,
            admin: 0,
            sme: 0,
            token: 0,
            treasury: 0,
            balances: HashMap::new(),
            auths: Vec::new(),
            events: Vec::new(),
            last_events: Vec::new(),
            failed_events: Vec::new(),
        };
        n.admin = n.addr();
        n.sme = n.addr();
        n.token = n.addr();
        n.treasury = n.addr();
        n
    }

    fn addr(&mut self) -> AccountId {
        self.next += 1;
        self.next
    }

    fn set_time(&mut self, t: u64) {
        self.now = t;
    }

    fn call(&mut self) -> Invocation {
        self.seq += 1;
        Invocation::new(self.now, self.seq, CONTRACT)
    }

    /// Carry out the effects of a call that succeeded.
    fn finish<T>(&mut self, c: Invocation, r: Result<T, EscrowError>) -> Result<T, EscrowError> {
        if r.is_ok() {
            self.auths.extend(c.auths.iter().copied());
            for t in c.transfers.iter() {
                *self.balances.entry(CONTRACT).or_insert(0) -= t.amount;
                *self.balances.entry(t.to).or_insert(0) += t.amount;
            }
            self.events.extend(c.events.iter().cloned());
            self.last_events = c.events;
        } else {
            self.failed_events = c.events;
        }
        r
    }

    fn mint(&mut self, who: AccountId, amount: i128) {
        *self.balances.entry(who).or_insert(0) += amount;
    }

    fn balance(&self, who: AccountId) -> i128 {
        *self.balances.get(&who).unwrap_or(&0)
    }

    fn try_init_with(&mut self, id: &str, amount: i128, yield_bps: i64, maturity: u64, o: Opts) -> Result<InvoiceEscrow, EscrowError> {
        let mut c = self.call();
        let (admin, sme, token, treasury) = (self.admin, self.sme, self.token, self.treasury);
        let r = self.esc.init(
            &mut c, admin, id.to_string(), sme, amount, yield_bps, maturity, token, o.registry, treasury, o.tiers,
            o.min_contribution, o.max_unique, o.max_per, o.hold_delay, o.deadline, o.max_rate, o.slippage,
            o.notifier, o.kyc, o.roles, o.reject_contract_admin, false, 7, &self.env,
        );
        self.finish(c, r)
    }

    fn init_with(&mut self, id: &str, amount: i128, yield_bps: i64, maturity: u64, o: Opts) -> InvoiceEscrow {
        self.try_init_with(id, amount, yield_bps, maturity, o).unwrap()
    }

    fn init(&mut self, id: &str, amount: i128, yield_bps: i64, maturity: u64) -> InvoiceEscrow {
        self.init_with(id, amount, yield_bps, maturity, Opts::default())
    }

    /// The standard escrow: target `TARGET`, 8% yield, maturity 1000.
    fn default_init(&mut self) -> InvoiceEscrow {
        self.init("INV001", TARGET, 800, 1000)
    }

    fn fund(&mut self, investor: AccountId, amount: i128) -> Result<InvoiceEscrow, EscrowError> {
        let mut c = self.call();
        let r = self.esc.fund(&mut c, investor, amount, CLEAR, &key(investor), &self.env);
        self.finish(c, r)
    }

    fn fund_with_commitment(&mut self, investor: AccountId, amount: i128, lock: u64) -> Result<InvoiceEscrow, EscrowError> {
        let mut c = self.call();
        let r = self.esc.fund_with_commitment(&mut c, investor, amount, lock, CLEAR, &key(investor), &self.env);
        self.finish(c, r)
    }

    fn settle(&mut self) -> Result<InvoiceEscrow, EscrowError> {
        let mut c = self.call();
        let r = self.esc.settle(&mut c, None, CLEAR);
        self.finish(c, r)
    }

    fn withdraw(&mut self) -> Result<InvoiceEscrow, EscrowError> {
        let mut c = self.call();
        let sme = self.esc.get_escrow().map(|e| e.sme_address).unwrap_or(self.sme);
        let balance = self.balance(CONTRACT);
        let r = self.esc.withdraw(&mut c, sme, balance);
        self.finish(c, r)
    }

    fn claim(&mut self, investor: AccountId) -> Result<(), EscrowError> {
        let mut c = self.call();
        let r = self.esc.claim_investor_payout(&mut c, investor);
        self.finish(c, r)
    }

    fn refund(&mut self, investor: AccountId) -> Result<(), EscrowError> {
        let mut c = self.call();
        let r = self.esc.refund(&mut c, investor, &key(investor), &self.env);
        self.finish(c, r)
    }

    fn cancel(&mut self) -> Result<InvoiceEscrow, EscrowError> {
        let mut c = self.call();
        let r = self.esc.cancel_funding(&mut c);
        self.finish(c, r)
    }

    fn sweep(&mut self, amount: i128) -> Result<i128, EscrowError> {
        let mut c = self.call();
        let balance = self.balance(CONTRACT);
        let r = self.esc.sweep_terminal_dust(&mut c, amount, balance);
        self.finish(c, r)
    }

    fn set_legal_hold(&mut self, active: bool, reason: &str) -> Result<(), EscrowError> {
        let mut c = self.call();
        let r = self.esc.set_legal_hold(&mut c, active, reason.to_string());
        self.finish(c, r)
    }

    fn clear_legal_hold(&mut self) -> Result<(), EscrowError> {
        let mut c = self.call();
        let r = self.esc.clear_legal_hold(&mut c);
        self.finish(c, r)
    }

    fn pause_dispute(&mut self, ticket: &str, secs: u64) -> Result<(), EscrowError> {
        let mut c = self.call();
        let r = self.esc.pause_dispute(&mut c, ticket.to_string(), secs);
        self.finish(c, r)
    }

    fn resume_dispute(&mut self) -> Result<(), EscrowError> {
        let mut c = self.call();
        let r = self.esc.resume_dispute(&mut c);
        self.finish(c, r)
    }

    fn is_dispute_paused(&self) -> bool {
        self.esc.is_dispute_paused(self.now)
    }

    fn escrow(&self) -> InvoiceEscrow {
        self.esc.get_escrow().unwrap()
    }
}

fn same_escrow(a: &InvoiceEscrow, b: &InvoiceEscrow) -> bool {
    a.invoice_id == b.invoice_id
        && a.admin == b.admin
        && a.sme_address == b.sme_address
        && a.amount == b.amount
        && a.funding_target == b.funding_target
        && a.funded_amount == b.funded_amount
        && a.yield_bps == b.yield_bps
        && a.maturity == b.maturity
        && a.status == b.status
}

#[test]
fn closing_deposit_binds_the_root_before_the_deposit_records() {
    let mut n = Net::new();
    let investor = n.addr();
    n.init("EVCLOSE", 1_000, 800, 0);
    n.fund(investor, 1_000).unwrap();
    assert_eq!(n.last_events.len(), 3);
    match &n.last_events[0] {
        Event::FundingCloseMerkleRootBound(e) => {
            assert_eq!(e.invoice_id, "EVCLOSE");
            assert_eq!(e.merkle_root, EMPTY_ROOT);
        },
        other => panic!("unexpected event {:?}", other),
    }
    match &n.last_events[1] {
        Event::EscrowFunded(e) => {
            assert_eq!(e.investor, investor);
            assert_eq!(e.amount, 1_000);
            assert_eq!(e.funded_amount, 1_000);
            assert_eq!(e.status, 1);
            assert_eq!(e.investor_effective_yield_bps, 800);
            assert_eq!(e.tier_lock_secs, 0);
        },
        other => panic!("unexpected event {:?}", other),
    }
    match &n.last_events[2] {
        Event::FundReceived(e) => {
            assert_eq!(e.actor, investor);
            assert_eq!(e.timestamp, n.now);
            assert_eq!(e.status, 1);
        },
        other => panic!("unexpected event {:?}", other),
    }
}

#[test]
fn deposit_below_target_records_only_the_deposit() {
    let mut n = Net::new();
    let investor = n.addr();
    n.init("EVOPEN", 1_000, 800, 0);
    n.fund(investor, 400).unwrap();
    assert_eq!(n.last_events.len(), 2);
    assert!(matches!(n.last_events[0], Event::EscrowFunded(_)));
    assert!(matches!(n.last_events[1], Event::FundReceived(_)));
}

#[test]
fn refused_call_publishes_nothing() {
    let mut n = Net::new();
    let investor = n.addr();
    n.init("EVREF", 1_000, 800, 0);
    let before = n.events.len();
    assert_eq!(n.fund(investor, 0).unwrap_err(), EscrowError::FundingAmountNotPositive);
    assert_eq!(n.events.len(), before);
}

#[test]
fn batch_fund_ends_with_its_summary() {
    let mut n = Net::new();
    let a = n.addr();
    let b = n.addr();
    n.init("EVBATCH", 1_000, 800, 0);
    n.fund(a, 100).unwrap();
    let mut c = n.call();
    let entries = vec![(a, 200i128), (b, 300i128)];
    let screenings = vec![CLEAR, CLEAR];
    let keys = vec![key(a), key(b)];
    let r = n.esc.batch_fund(&mut c, &entries, &screenings, &keys, &n.env);
    n.finish(c, r).unwrap();
    assert_eq!(n.last_events.len(), 5);
    match n.last_events.last() {
        Some(Event::BatchFundCompleted(e)) => {
            assert_eq!(e.invoice_id, "EVBATCH");
            assert_eq!(e.total_funded_amount, 500);
            assert_eq!(e.investor_count, 2);
            assert_eq!(e.escrow_funded_amount, 600);
            assert_eq!(e.status, 0);
        },
        other => panic!("unexpected event {:?}", other),
    }
}

#[test]
fn full_settlement_records_the_settlement() {
    let mut n = Net::new();
    let investor = n.addr();
    n.init("EVSET", 1_000, 800, 0);
    n.fund(investor, 1_000).unwrap();
    n.settle().unwrap();
    assert_eq!(n.last_events.len(), 1);
    match &n.last_events[0] {
        Event::EscrowSettled(e) => {
            assert_eq!(e.funded_amount, 1_000);
            assert_eq!(e.yield_bps, 800);
            assert_eq!(e.maturity, 0);
            assert_eq!(e.settled_at_ledger_timestamp, n.now);
        },
        other => panic!("unexpected event {:?}", other),
    }
}

#[test]
fn partial_settlement_records_the_settled_amount() {
    let mut n = Net::new();
    let investor = n.addr();
    n.init("EVPART", 1_000, 800, 0);
    n.fund(investor, 1_000).unwrap();
    let mut c = n.call();
    let r = n.esc.settle(&mut c, Some(400), CLEAR);
    n.finish(c, r).unwrap();
    match n.last_events.last() {
        Some(Event::EscrowPartiallySettled(e)) => {
            assert_eq!(e.funded_amount, 1_000);
            assert_eq!(e.settled_amount, 400);
        },
        other => panic!("unexpected event {:?}", other),
    }
}

#[test]
fn settlement_on_the_maturity_day_warns_about_health() {
    let mut n = Net::new();
    let investor = n.addr();
    n.init("EVHLTH", 1_000, 800, 20_000);
    n.fund(investor, 1_000).unwrap();
    n.set_time(20_000);
    n.settle().unwrap();
    assert_eq!(n.last_events.len(), 2);
    match &n.last_events[1] {
        Event::EscrowHealthWarning(e) => {
            assert_eq!(e.warning_type, 4002);
            assert_eq!(e.funded_ratio_bps, 10_000);
            assert_eq!(e.time_to_maturity_secs, 0);
            assert_eq!(e.recorded_at_ledger_timestamp, 20_000);
        },
        other => panic!("unexpected event {:?}", other),
    }
}

#[test]
fn claim_warns_about_yield_slippage_once() {
    let mut n = Net::new();
    let investor = n.addr();
    let tiers = vec![YieldTier { min_lock_secs: 100, yield_bps: 1_000 }];
    n.init_with("EVSLIP", 1_000, 800, 0, Opts { tiers: Some(tiers), slippage: Some(100), ..Opts::default() });
    n.fund_with_commitment(investor, 1_000, 100).unwrap();
    n.settle().unwrap();
    let t = n.now + 100;
    n.set_time(t);
    n.claim(investor).unwrap();
    assert_eq!(n.last_events.len(), 2);
    match &n.last_events[0] {
        Event::YieldSlippageWarning(e) => {
            assert_eq!(e.investor, investor);
            assert_eq!(e.expected_yield_bps, 800);
            assert_eq!(e.actual_yield_bps, 1_000);
            assert_eq!(e.slippage_threshold_bps, 100);
            assert_eq!(e.deviation_bps, 200);
        },
        other => panic!("unexpected event {:?}", other),
    }
    match &n.last_events[1] {
        Event::InvestorPayoutClaimed(e) => assert_eq!(e.investor, investor),
        other => panic!("unexpected event {:?}", other),
    }
    let before = n.events.len();
    n.claim(investor).unwrap();
    assert_eq!(n.events.len(), before);
}

#[test]
fn withdrawal_records_the_sme_payout() {
    let mut n = Net::new();
    let investor = n.addr();
    n.init("EVWD", 1_000, 800, 0);
    n.mint(investor, 1_000);
    n.fund(investor, 1_000).unwrap();
    n.mint(CONTRACT, 1_000);
    n.withdraw().unwrap();
    match n.last_events.last() {
        Some(Event::SmeWithdrew(e)) => {
            assert_eq!(e.amount, 1_000);
            assert_eq!(e.recipient, n.sme);
        },
        other => panic!("unexpected event {:?}", other),
    }
}

#[test]
fn inconsistency_scan_publishes_only_findings() {
    let mut n = Net::new();
    let investor = n.addr();
    n.init("EVSCAN", 1_000, 800, 0);
    let mut c = n.call();
    let r = n.esc.detect_state_inconsistencies(&mut c);
    let rep = n.finish(c, r).unwrap();
    assert!(!rep.funded_positive_status_open);
    assert!(n.last_events.is_empty());
    n.fund(investor, 400).unwrap();
    let mut c = n.call();
    let r = n.esc.detect_state_inconsistencies(&mut c);
    let rep = n.finish(c, r).unwrap();
    assert!(rep.funded_positive_status_open);
    assert!(rep.funders_exist_status_open);
    match &n.last_events[..] {
        [Event::StateInconsistenciesDetected(e)] => {
            assert_eq!(e.invoice_id, "EVSCAN");
            assert_eq!(e.report, rep);
        },
        other => panic!("unexpected events {:?}", other),
    }
}
