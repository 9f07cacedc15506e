use vstd::prelude::*;

use crate::events::Event;

verus! {

/// An account or contract address. Addresses are compared for equality only.
pub type AccountId = u64;

/// A 32-byte digest (attestation hashes, Merkle roots).
pub type Digest = [u8; 32];

/// Full state of an invoice escrow.
///
/// `status`: 0 = open, 1 = funded, 2 = settled, 3 = withdrawn (SME pulled liquidity),
/// 4 = cancelled (investors may refund), 5 = archived (read-only terminal).
#[derive(Debug)]
pub struct InvoiceEscrow {
    pub invoice_id: String,
    pub admin: AccountId,
    pub sme_address: AccountId,
    pub amount: i128,
    pub funding_target: i128,
    pub funded_amount: i128,
    pub yield_bps: i64,
    pub maturity: u64,
    pub status: u32,
}

impl Clone for InvoiceEscrow {
    fn clone(&self) -> (r: Self)
        ensures
            r == *self,
    {
        InvoiceEscrow {
            invoice_id: self.invoice_id.clone(),
            admin: self.admin,
            sme_address: self.sme_address,
            amount: self.amount,
            funding_target: self.funding_target,
            funded_amount: self.funded_amount,
            yield_bps: self.yield_bps,
            maturity: self.maturity,
            status: self.status,
        }
    }
}

/// One step of the optional tier ladder: an investor committing to at least
/// `min_lock_secs` on the first deposit may receive `yield_bps`.
#[derive(Copy, Clone, Debug, PartialEq, Eq, Structural)]
pub struct YieldTier {
    pub min_lock_secs: u64,
    pub yield_bps: i64,
}

/// Captured once when the escrow first becomes funded: the pro-rata denominator
/// (`total_principal`, including over-funding), the target and the ledger time.
#[derive(Copy, Clone, Debug, PartialEq, Eq, Structural)]
pub struct FundingCloseSnapshot {
    pub total_principal: i128,
    pub funding_target: i128,
    pub closed_at_ledger_timestamp: u64,
    pub closed_at_ledger_sequence: u32,
}

/// Token metadata cached at init (decimals and when they were read).
#[derive(Copy, Clone, Debug, PartialEq, Eq, Structural)]
pub struct TokenMetadataCache {
    pub decimals: u32,
    pub cached_at_ledger_timestamp: u64,
    pub cached_at_ledger_sequence: u32,
}

/// SME-reported collateral metadata (record only; it moves or locks nothing).
#[derive(Debug)]
pub struct SmeCollateralCommitment {
    pub asset: String,
    pub amount: i128,
    /// Ledger time of the first record; preserved by later updates.
    pub recorded_at: u64,
    /// Ledger time of the latest write.
    pub updated_at: u64,
}

impl Clone for SmeCollateralCommitment {
    fn clone(&self) -> (r: Self)
        ensures
            r == *self,
    {
        SmeCollateralCommitment {
            asset: self.asset.clone(),
            amount: self.amount,
            recorded_at: self.recorded_at,
            updated_at: self.updated_at,
        }
    }
}

/// An active dispute pause: blocks funding, settlement, withdrawal and claims until
/// `expires_at_ledger_timestamp` or a manual resume.
#[derive(Debug)]
pub struct DisputePauseState {
    pub ticket_id: String,
    pub paused_at_ledger_timestamp: u64,
    pub expires_at_ledger_timestamp: u64,
}

impl Clone for DisputePauseState {
    fn clone(&self) -> (r: Self)
        ensures
            r == *self,
    {
        DisputePauseState {
            ticket_id: self.ticket_id.clone(),
            paused_at_ledger_timestamp: self.paused_at_ledger_timestamp,
            expires_at_ledger_timestamp: self.expires_at_ledger_timestamp,
        }
    }
}

/// Tiered admin roles; a higher level includes the capabilities of the lower ones.
#[derive(Copy, Clone, Debug, PartialEq, Eq, Structural)]
pub enum AdminRole {
    AuditOnly,
    SettlementOnly,
    Full,
}

impl AdminRole {
    pub open spec fn spec_level(self) -> u32 {
        match self {
            AdminRole::AuditOnly => 1,
            AdminRole::SettlementOnly => 2,
            AdminRole::Full => 3,
        }
    }

    /// Numeric level: AuditOnly 1, SettlementOnly 2, Full 3.
    pub fn level(&self) -> (l: u32)
        ensures
            l == self.spec_level(),
    {
        match self {
            AdminRole::AuditOnly => 1,
            AdminRole::SettlementOnly => 2,
            AdminRole::Full => 3,
        }
    }
}

/// Multisig policy: the listed operations need `threshold` distinct signers out of
/// `signers`.
#[derive(Debug)]
pub struct MultisigPolicy {
    pub operations: Vec<String>,
    pub signers: Vec<AccountId>,
    pub threshold: u32,
}

/// Kind of a funding-history checkpoint.
#[derive(Copy, Clone, Debug, PartialEq, Eq, Structural)]
pub enum Checkpoint {
    /// A deposit that left the escrow open.
    Deposit,
    /// The deposit that closed funding (status became funded).
    FundingClose,
    /// A settlement claim.
    Settle,
}

/// One checkpoint of an investor's funding history.
#[derive(Copy, Clone, Debug, PartialEq, Eq, Structural)]
pub struct InvestorFundingRecord {
    pub checkpoint: Checkpoint,
    pub timestamp: u64,
    pub amount: i128,
    pub cumulative_total: i128,
}

/// Everything recorded about one investor address.
#[derive(Copy, Clone, Debug, PartialEq, Eq, Structural)]
pub struct InvestorPosition {
    /// Principal credited by funding (zeroed by a refund).
    pub contribution: i128,
    /// Yield fixed at the first deposit; `None` falls back to the escrow's base yield.
    pub effective_yield_bps: Option<i64>,
    /// Earliest claim time from a tier commitment (0 = no gate).
    pub claim_not_before: u64,
    /// Lock-in end after funding (0 = none).
    pub lock_in_until: u64,
    pub claimed: bool,
    pub allowlisted: bool,
    pub refunded: bool,
    pub delegate: Option<AccountId>,
    pub delegate_revoked: bool,
    pub reinvest_elected: bool,
    pub reinvest_target: Option<AccountId>,
    pub reinvested_amount: i128,
}

impl InvestorPosition {
    /// The position of an address the escrow has never recorded.
    pub open spec fn empty() -> Self {
        InvestorPosition {
            contribution: 0,
            effective_yield_bps: None,
            claim_not_before: 0,
            lock_in_until: 0,
            claimed: false,
            allowlisted: false,
            refunded: false,
            delegate: None,
            delegate_revoked: false,
            reinvest_elected: false,
            reinvest_target: None,
            reinvested_amount: 0,
        }
    }

    pub fn new() -> (p: Self)
        ensures
            p == Self::empty(),
    {
        InvestorPosition {
            contribution: 0,
            effective_yield_bps: None,
            claim_not_before: 0,
            lock_in_until: 0,
            claimed: false,
            allowlisted: false,
            refunded: false,
            delegate: None,
            delegate_revoked: false,
            reinvest_elected: false,
            reinvest_target: None,
            reinvested_amount: 0,
        }
    }
}

/// One entry of the bounded attestation append log.
#[derive(Debug)]
pub struct AttestationRecord {
    pub digest: Digest,
    /// Ledger time of the append.
    pub timestamp: u64,
    /// Caller-supplied tag; empty when none was given.
    pub tag: String,
    pub revoked: bool,
}

/// Filters of an attestation-log query: entries at or after a ledger time, and with
/// exactly a given tag.
#[derive(Debug)]
pub struct AuditLogFilter {
    pub after_timestamp: Option<u64>,
    pub tag_prefix: Option<String>,
}

/// One attestation-log entry as returned by a query.
#[derive(Debug)]
pub struct AttestationLogEntry {
    pub digest: Digest,
    pub index: u32,
    pub timestamp: u64,
    pub tag: String,
    pub revoked: bool,
}

/// One page of an attestation-log query, with the number of matching entries.
#[derive(Debug)]
pub struct AuditLogPage {
    pub entries: Vec<AttestationLogEntry>,
    pub total_count: u32,
}

/// Audit entry for a yield reinvestment.
#[derive(Debug)]
pub struct ReinvestmentAuditEntry {
    pub investor: AccountId,
    pub invoice_id: String,
    pub target_escrow: Option<AccountId>,
    pub reinvested_amount: i128,
    pub elected_at_ledger_timestamp: u64,
    pub elected_at_ledger_sequence: u32,
}

impl Clone for ReinvestmentAuditEntry {
    fn clone(&self) -> (r: Self)
        ensures
            r == *self,
    {
        ReinvestmentAuditEntry {
            investor: self.investor,
            invoice_id: self.invoice_id.clone(),
            target_escrow: self.target_escrow,
            reinvested_amount: self.reinvested_amount,
            elected_at_ledger_timestamp: self.elected_at_ledger_timestamp,
            elected_at_ledger_sequence: self.elected_at_ledger_sequence,
        }
    }
}

/// Answers of the configured screening providers for one address, obtained by the
/// host before the call. An answer is only consulted when its provider is configured.
#[derive(Copy, Clone, Debug, PartialEq, Eq, Structural)]
pub struct Screening {
    /// The KYC provider's `is_verified` answer.
    pub kyc_verified: bool,
    /// The sanctions provider's `is_verified` answer.
    pub sanctions_cleared: bool,
}

/// A token transfer out of the escrow contract that the host must perform.
#[derive(Copy, Clone, Debug, PartialEq, Eq, Structural)]
pub struct Transfer {
    pub to: AccountId,
    pub amount: i128,
}

/// A deposit that the host must make, once the call succeeds, into another escrow
/// contract: `amount` for `investor` into the escrow at `escrow`.
#[derive(Copy, Clone, Debug, PartialEq, Eq, Structural)]
pub struct Deposit {
    pub escrow: AccountId,
    pub investor: AccountId,
    pub amount: i128,
}

/// The context of one contract invocation: the ledger it runs in, and the effects
/// that the host must carry out once the call succeeds (authorizations to demand,
/// token transfers to perform, events to publish and deposits into other escrows to
/// make, each in order).
#[derive(Debug)]
pub struct Invocation {
    pub timestamp: u64,
    pub sequence: u32,
    /// The escrow contract's own address.
    pub contract: AccountId,
    pub auths: Vec<AccountId>,
    pub transfers: Vec<Transfer>,
    pub events: Vec<Event>,
    pub deposits: Vec<Deposit>,
}

impl Invocation {
    /// A fresh invocation at the given ledger time and sequence.
    pub fn new(timestamp: u64, sequence: u32, contract: AccountId) -> (r: Self)
        ensures
            r.timestamp == timestamp,
            r.sequence == sequence,
            r.contract == contract,
            r.auths@ == Seq::<AccountId>::empty(),
            r.transfers@ == Seq::<Transfer>::empty(),
            r.events@ == Seq::<Event>::empty(),
            r.deposits@ == Seq::<Deposit>::empty(),
    {
        Invocation { timestamp, sequence, contract, auths: Vec::new(), transfers: Vec::new(), events: Vec::new(), deposits: Vec::new() }
    }

    /// `self` is `old` with the given authorizations and transfers appended, and no
    /// event or deposit.
    pub open spec fn extends(self, old: Self, auths: Seq<AccountId>, transfers: Seq<Transfer>) -> bool {
        &&& self.timestamp == old.timestamp
        &&& self.sequence == old.sequence
        &&& self.contract == old.contract
        &&& self.auths@ == old.auths@ + auths
        &&& self.transfers@ == old.transfers@ + transfers
        &&& self.events@ == old.events@
        &&& self.deposits@ == old.deposits@
    }

    /// `self` is `old` with the given authorizations, transfers and events appended,
    /// and no deposit.
    pub open spec fn emits(self, old: Self, auths: Seq<AccountId>, transfers: Seq<Transfer>, events: Seq<Event>) -> bool {
        self.acts(old, auths, transfers, events, seq![])
    }

    /// `self` is `old` with the given authorizations, transfers, events and deposits
    /// appended.
    pub open spec fn acts(self, old: Self, auths: Seq<AccountId>, transfers: Seq<Transfer>, events: Seq<Event>, deposits: Seq<Deposit>) -> bool {
        &&& self.timestamp == old.timestamp
        &&& self.sequence == old.sequence
        &&& self.contract == old.contract
        &&& self.auths@ == old.auths@ + auths
        &&& self.transfers@ == old.transfers@ + transfers
        &&& self.events@ == old.events@ + events
        &&& self.deposits@ == old.deposits@ + deposits
    }

    /// Publish `e` once the call succeeds.
    pub fn emit(&mut self, e: Event)
        ensures
            final(self).timestamp == old(self).timestamp,
            final(self).sequence == old(self).sequence,
            final(self).contract == old(self).contract,
            final(self).auths == old(self).auths,
            final(self).transfers == old(self).transfers,
            final(self).deposits == old(self).deposits,
            final(self).events@ == old(self).events@ + seq![e],
    {
        self.events.push(e);
        assert(self.events@ =~= old(self).events@ + seq![e]);
    }

    /// Schedule a deposit of `amount` for `investor` into the escrow at `escrow`.
    pub fn push_deposit(&mut self, escrow: AccountId, investor: AccountId, amount: i128)
        ensures
            final(self).acts(*old(self), seq![], seq![], seq![], seq![Deposit { escrow, investor, amount }]),
    {
        self.deposits.push(Deposit { escrow, investor, amount });
        assert(self.deposits@ =~= old(self).deposits@ + seq![Deposit { escrow, investor, amount }]);
        assert(self.auths@ =~= old(self).auths@ + Seq::<AccountId>::empty());
        assert(self.transfers@ =~= old(self).transfers@ + Seq::<Transfer>::empty());
        assert(self.events@ =~= old(self).events@ + Seq::<Event>::empty());
    }

    /// Publish each of `evs`, in order, once the call succeeds.
    pub fn emit_all(&mut self, evs: Vec<Event>)
        ensures
            final(self).emits(*old(self), seq![], seq![], evs@),
    {
        let mut evs = evs;
        self.events.append(&mut evs);
        assert(self.deposits@ =~= old(self).deposits@ + Seq::<Deposit>::empty());
        assert(self.auths@ =~= old(self).auths@ + Seq::<AccountId>::empty());
        assert(self.transfers@ =~= old(self).transfers@ + Seq::<Transfer>::empty());
    }

    /// Demand the authorization of `who`.
    pub fn require_auth(&mut self, who: AccountId)
        ensures
            final(self).extends(*old(self), seq![who], seq![]),
    {
        self.auths.push(who);
        assert(self.auths@ =~= old(self).auths@ + seq![who]);
        assert(self.transfers@ =~= old(self).transfers@ + Seq::<Transfer>::empty());
    }

    /// Schedule a transfer of `amount` from the escrow contract to `to`.
    pub fn push_transfer(&mut self, to: AccountId, amount: i128)
        ensures
            final(self).extends(*old(self), seq![], seq![Transfer { to, amount }]),
    {
        self.transfers.push(Transfer { to, amount });
        assert(self.transfers@ =~= old(self).transfers@ + seq![Transfer { to, amount }]);
        assert(self.auths@ =~= old(self).auths@ + Seq::<AccountId>::empty());
    }
}

} // verus!
