use std::collections::HashMap;
use vstd::prelude::*;

use crate::constants::MAX_INVESTOR_HISTORY_ENTRIES;
use crate::error::EscrowError;
use crate::reports::SettlementNftMetadata;
use crate::types::{
    AccountId, AdminRole, AttestationRecord, Digest, DisputePauseState, FundingCloseSnapshot,
    InvestorFundingRecord, InvestorPosition, InvoiceEscrow, MultisigPolicy,
    ReinvestmentAuditEntry, SmeCollateralCommitment, TokenMetadataCache, YieldTier,
};

verus! {

broadcast use vstd::std_specs::hash::group_hash_axioms;

/// The complete storage of one escrow contract instance.
///
/// Absent optional keys are `None`, `false` or `0`, exactly as a fresh deployment
/// reads them. Per-investor records live in `investors` (an absent address has
/// [`InvestorPosition::empty`]) and `histories`.
#[derive(Debug)]
pub struct LiquifactEscrow {
    /// The escrow record; `None` until `init`.
    pub escrow: Option<InvoiceEscrow>,
    /// Stored schema version (0 before init).
    pub version: u32,
    /// `(schema version, ledger time)` entries, one per schema write.
    pub version_history: Vec<(u32, u64)>,
    pub funding_token: Option<AccountId>,
    pub treasury: Option<AccountId>,
    pub registry: Option<AccountId>,
    pub token_cache: Option<TokenMetadataCache>,
    pub kyc_provider: Option<AccountId>,
    pub sanctions_provider: Option<AccountId>,
    /// Explicit admin roles; absent means the escrow admin is implicitly `Full`.
    pub admin_roles: Option<Vec<(AccountId, AdminRole)>>,
    pub multisig_policy: Option<MultisigPolicy>,
    /// Immutable tier ladder; absent when tiering is off.
    pub yield_tiers: Option<Vec<YieldTier>>,
    /// Minimum principal per funding call (0 = no floor).
    pub min_contribution_floor: i128,
    /// Distinct addresses that received principal.
    pub unique_funder_count: u32,
    /// Investor addresses in the order of their first deposit.
    pub investor_index: Vec<AccountId>,
    pub max_per_investor_cap: Option<i128>,
    pub max_unique_investors_cap: Option<u32>,
    /// Minimum delay between a clear request and lifting a legal hold.
    pub legal_hold_clear_delay: u64,
    /// Yield slippage threshold in bps (0 = detection off).
    pub yield_slippage_threshold: i64,
    pub settlement_notifier: Option<AccountId>,
    pub created_at: u64,
    pub funding_deadline: Option<u64>,
    pub legal_hold: bool,
    pub legal_hold_reason: Option<String>,
    pub legal_hold_clearable_at: Option<u64>,
    pub escrow_paused: bool,
    pub collateral: Option<SmeCollateralCommitment>,
    pub primary_attestation_hash: Option<Digest>,
    pub attestations: Vec<AttestationRecord>,
    pub funding_close_snapshot: Option<FundingCloseSnapshot>,
    /// Merkle root bound at funding close.
    pub funding_close_merkle_root: Option<Digest>,
    /// Root of the empty investor tree, computed by the host at init; bound as the
    /// funding-close root until the full tree is anchored.
    pub empty_merkle_root: Option<Digest>,
    /// Settlement NFT metadata, once minted.
    pub settlement_nft: Option<SettlementNftMetadata>,
    /// Protocol fee on the gross coupon, in bps (0 = no fee).
    pub fee_percentage: i64,
    /// Per-ledger funding cap; absent = unlimited.
    pub max_funding_rate: Option<u64>,
    pub funding_paused: bool,
    pub last_fund_ledger: u32,
    pub current_ledger_funded: i128,
    /// Lock-in applied to committed first deposits (0 = none).
    pub investor_lock_in_secs: u64,
    /// Largest share of the funded amount, in percent, that one investor may hold.
    pub max_investor_concentration: Option<i64>,
    pub pending_admin: Option<AccountId>,
    pub allowlist_active: bool,
    /// Principal already paid out (refunds and the SME withdrawal).
    pub distributed_principal: i128,
    pub dispute_pause: Option<DisputePauseState>,
    /// Principal settled so far (partial settlements accumulate).
    pub settled_amount: i128,
    pub reinvestment_audit_log: Vec<ReinvestmentAuditEntry>,
    pub yield_auto_distribution: bool,
    pub investors: HashMap<AccountId, InvestorPosition>,
    pub histories: HashMap<AccountId, Vec<InvestorFundingRecord>>,
    /// Contributions aggregated per investor bucket (see
    /// [`crate::buckets::investor_bucket_index`]); an absent bucket holds 0.
    pub buckets: HashMap<u32, i128>,
}

/// The role recorded for `who` among the first `n` entries of a role table.
pub open spec fn role_in_prefix(roles: Seq<(AccountId, AdminRole)>, who: AccountId, n: int) -> Option<AdminRole>
    decreases n,
{
    if n <= 0 {
        None
    } else {
        match role_in_prefix(roles, who, n - 1) {
            Some(r) => Some(r),
            None => if roles[n - 1].0 == who {
                Some(roles[n - 1].1)
            } else {
                None
            },
        }
    }
}

/// The role recorded for `who` in a role table.
pub open spec fn role_in(roles: Seq<(AccountId, AdminRole)>, who: AccountId) -> Option<AdminRole> {
    role_in_prefix(roles, who, roles.len() as int)
}

impl LiquifactEscrow {
    /// The storage of a freshly deployed, uninitialized contract.
    pub open spec fn fresh(self) -> bool {
        &&& self.escrow is None
        &&& self.version == 0
        &&& self.version_history@.len() == 0
        &&& self.funding_token is None
        &&& self.treasury is None
        &&& self.registry is None
        &&& self.token_cache is None
        &&& self.kyc_provider is None
        &&& self.sanctions_provider is None
        &&& self.admin_roles is None
        &&& self.multisig_policy is None
        &&& self.yield_tiers is None
        &&& self.min_contribution_floor == 0
        &&& self.unique_funder_count == 0
        &&& self.investor_index@.len() == 0
        &&& self.max_per_investor_cap is None
        &&& self.max_unique_investors_cap is None
        &&& self.legal_hold_clear_delay == 0
        &&& self.yield_slippage_threshold == 0
        &&& self.settlement_notifier is None
        &&& self.created_at == 0
        &&& self.funding_deadline is None
        &&& !self.legal_hold
        &&& self.legal_hold_reason is None
        &&& self.legal_hold_clearable_at is None
        &&& !self.escrow_paused
        &&& self.collateral is None
        &&& self.primary_attestation_hash is None
        &&& self.attestations@.len() == 0
        &&& self.funding_close_snapshot is None
        &&& self.funding_close_merkle_root is None
        &&& self.empty_merkle_root is None
        &&& self.settlement_nft is None
        &&& self.fee_percentage == 0
        &&& self.max_funding_rate is None
        &&& !self.funding_paused
        &&& self.last_fund_ledger == 0
        &&& self.current_ledger_funded == 0
        &&& self.investor_lock_in_secs == 0
        &&& self.max_investor_concentration is None
        &&& self.pending_admin is None
        &&& !self.allowlist_active
        &&& self.distributed_principal == 0
        &&& self.dispute_pause is None
        &&& self.settled_amount == 0
        &&& self.reinvestment_audit_log@.len() == 0
        &&& !self.yield_auto_distribution
        &&& self.investors@ == Map::<AccountId, InvestorPosition>::empty()
        &&& self.histories@ == Map::<AccountId, Vec<InvestorFundingRecord>>::empty()
        &&& self.buckets@ == Map::<u32, i128>::empty()
    }

    /// Empty storage of a contract that has not been initialized.
    pub fn new() -> (s: Self)
        ensures
            s.fresh(),
    {
        LiquifactEscrow {
            escrow: None,
            version: 0,
            version_history: Vec::new(),
            funding_token: None,
            treasury: None,
            registry: None,
            token_cache: None,
            kyc_provider: None,
            sanctions_provider: None,
            admin_roles: None,
            multisig_policy: None,
            yield_tiers: None,
            min_contribution_floor: 0,
            unique_funder_count: 0,
            investor_index: Vec::new(),
            max_per_investor_cap: None,
            max_unique_investors_cap: None,
            legal_hold_clear_delay: 0,
            yield_slippage_threshold: 0,
            settlement_notifier: None,
            created_at: 0,
            funding_deadline: None,
            legal_hold: false,
            legal_hold_reason: None,
            legal_hold_clearable_at: None,
            escrow_paused: false,
            collateral: None,
            primary_attestation_hash: None,
            attestations: Vec::new(),
            funding_close_snapshot: None,
            funding_close_merkle_root: None,
            empty_merkle_root: None,
            settlement_nft: None,
            fee_percentage: 0,
            max_funding_rate: None,
            funding_paused: false,
            last_fund_ledger: 0,
            current_ledger_funded: 0,
            investor_lock_in_secs: 0,
            max_investor_concentration: None,
            pending_admin: None,
            allowlist_active: false,
            distributed_principal: 0,
            dispute_pause: None,
            settled_amount: 0,
            reinvestment_audit_log: Vec::new(),
            yield_auto_distribution: false,
            investors: HashMap::new(),
            histories: HashMap::new(),
            buckets: HashMap::new(),
        }
    }

    /// The recorded position of `who` (empty for unknown addresses).
    pub open spec fn pos(self, who: AccountId) -> InvestorPosition {
        if self.investors@.contains_key(who) {
            self.investors@[who]
        } else {
            InvestorPosition::empty()
        }
    }

    /// The funding history of `who` (empty for unknown addresses).
    pub open spec fn history(self, who: AccountId) -> Seq<InvestorFundingRecord> {
        if self.histories@.contains_key(who) {
            self.histories@[who]@
        } else {
            Seq::empty()
        }
    }

    /// The escrow record; only meaningful when initialized.
    pub open spec fn esc(self) -> InvoiceEscrow {
        self.escrow->Some_0
    }

    /// Whether a dispute pause is in force at ledger time `now`.
    pub open spec fn dispute_active(self, now: u64) -> bool {
        match self.dispute_pause {
            Some(p) => now < p.expires_at_ledger_timestamp,
            None => false,
        }
    }

    /// `who`'s effective admin role: an explicit table entry, else `Full` for the
    /// escrow admin, else none.
    pub open spec fn role_of(self, who: AccountId) -> Option<AdminRole> {
        let explicit = match self.admin_roles {
            Some(t) => role_in(t@, who),
            None => None,
        };
        match explicit {
            Some(r) => Some(r),
            None => if self.escrow is Some && who == self.esc().admin {
                Some(AdminRole::Full)
            } else {
                None
            },
        }
    }

    /// Whether `who` holds at least the level of `min`.
    pub open spec fn has_role(self, who: AccountId, min: AdminRole) -> bool {
        match self.role_of(who) {
            Some(r) => r.spec_level() >= min.spec_level(),
            None => false,
        }
    }

    /// Read the position of `who`.
    pub fn investor_position(&self, who: AccountId) -> (p: InvestorPosition)
        ensures
            p == self.pos(who),
    {
        match self.investors.get(&who) {
            Some(p) => *p,
            None => InvestorPosition::new(),
        }
    }

    /// Replace the position of `who`.
    pub(crate) fn set_position(&mut self, who: AccountId, p: InvestorPosition)
        ensures
            *final(self) == (LiquifactEscrow { investors: final(self).investors, ..*old(self) }),
            final(self).investors@ == old(self).investors@.insert(who, p),
    {
        self.investors.insert(who, p);
    }

    /// Append a checkpoint to `who`'s history unless it already holds
    /// [`MAX_INVESTOR_HISTORY_ENTRIES`] records.
    pub(crate) fn append_history(&mut self, who: AccountId, rec: InvestorFundingRecord)
        ensures
            *final(self) == (LiquifactEscrow { histories: final(self).histories, ..*old(self) }),
            forall|other: AccountId| other != who ==> final(self).history(other) == old(self).history(other),
            final(self).history(who) == if old(self).history(who).len() < MAX_INVESTOR_HISTORY_ENTRIES {
                old(self).history(who).push(rec)
            } else {
                old(self).history(who)
            },
    {
        let mut h = match self.histories.remove(&who) {
            Some(v) => v,
            None => Vec::new(),
        };
        if h.len() < MAX_INVESTOR_HISTORY_ENTRIES as usize {
            h.push(rec);
        }
        self.histories.insert(who, h);
    }

    /// `who`'s effective admin role.
    pub fn effective_admin_role(&self, who: AccountId) -> (r: Option<AdminRole>)
        ensures
            r == self.role_of(who),
    {
        let mut explicit: Option<AdminRole> = None;
        match &self.admin_roles {
            Some(t) => {
                let n = t.len();
                let mut i: usize = 0;
                while i < n
                    invariant
                        n == t@.len(),
                        i <= n,
                        explicit == role_in_prefix(t@, who, i as int),
                    decreases n - i,
                {
                    if explicit.is_none() && t[i].0 == who {
                        explicit = Some(t[i].1);
                    }
                    i += 1;
                }
            },
            None => {},
        }
        match explicit {
            Some(r) => Some(r),
            None => match &self.escrow {
                Some(e) => if who == e.admin {
                    Some(AdminRole::Full)
                } else {
                    None
                },
                None => None,
            },
        }
    }

    /// A copy of the escrow record.
    pub(crate) fn escrow_record(&self) -> (e: InvoiceEscrow)
        requires
            self.escrow is Some,
        ensures
            e == self.esc(),
    {
        match &self.escrow {
            Some(e) => e.clone(),
            None => {
                assert(false);
                InvoiceEscrow {
                    invoice_id: String::new(),
                    admin: 0,
                    sme_address: 0,
                    amount: 0,
                    funding_target: 0,
                    funded_amount: 0,
                    yield_bps: 0,
                    maturity: 0,
                    status: 0,
                }
            },
        }
    }

    /// Whether a dispute pause is in force at `now`.
    pub fn is_dispute_paused(&self, now: u64) -> (r: bool)
        ensures
            r == self.dispute_active(now),
    {
        match &self.dispute_pause {
            Some(p) => now < p.expires_at_ledger_timestamp,
            None => false,
        }
    }
}

} // verus!
