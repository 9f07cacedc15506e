use soroban_sdk::Env;
use vstd::prelude::*;

use crate::constants::{CONTRACT_INTERFACE_VERSION, MAX_TTL_BUMP_BATCH, SCHEMA_VERSION};
use crate::error::EscrowError;
use crate::escrow::LiquifactEscrow;
use crate::events::{ContractUpgraded, Event};
use crate::merkle::{merkle_root_from_proof, merkle_root_of};
use crate::reports::{EscrowCloseSnapshot, SettlementNftMetadata};
use crate::types::{
    AccountId, AdminRole, Digest, DisputePauseState, FundingCloseSnapshot, InvestorFundingRecord,
    InvoiceEscrow, Invocation, SmeCollateralCommitment, TokenMetadataCache, YieldTier,
};
use crate::validation::tiers_view;

verus! {

broadcast use vstd::std_specs::hash::group_hash_axioms;

/// The stamps of one build of the contract, as the build records them: the source
/// commit (short and full), the build time, the package version and the compiler
/// version.
#[derive(Debug, Clone)]
pub struct BuildStamps {
    pub git_commit: String,
    pub git_full_commit: String,
    pub build_timestamp: String,
    pub pkg_version: String,
    pub rust_version: String,
}

/// What a build of the contract reports about itself: the schema and interface
/// versions of this source, and the build's stamps.
#[derive(Debug, Clone, PartialEq, Eq)]
pub struct BuildMetadata {
    pub schema_version: u32,
    pub interface_version: u32,
    pub git_commit: String,
    pub git_full_commit: String,
    pub build_timestamp: String,
    pub pkg_version: String,
    pub rust_version: String,
}

/// The SME collateral commitment as reported in snapshots.
#[derive(Debug)]
pub enum CollateralCommitmentSnapshot {
    /// No commitment was recorded.
    Absent,
    /// The recorded commitment.
    Present(SmeCollateralCommitment),
}

/// Several read-only values of the escrow in one call.
#[derive(Debug)]
pub struct EscrowSummary {
    pub escrow: InvoiceEscrow,
    pub has_maturity_lock: bool,
    pub legal_hold: bool,
    pub funding_close_snapshot: EscrowCloseSnapshot,
    pub unique_funder_count: u32,
    pub is_allowlist_active: bool,
    pub schema_version: u32,
    pub sme_collateral_commitment: CollateralCommitmentSnapshot,
    pub has_primary_attestation: bool,
    pub attestation_log_length: u32,
    pub settlement_nft: Option<SettlementNftMetadata>,
}

/// The escrow's instance state for archival and audit (per-investor records are not
/// included).
#[derive(Debug)]
pub struct EscrowSnapshot {
    pub escrow: InvoiceEscrow,
    pub schema_version: u32,
    pub legal_hold: bool,
    pub funding_close_snapshot: EscrowCloseSnapshot,
    pub unique_funder_count: u32,
    pub is_allowlist_active: bool,
    pub sme_collateral_commitment: CollateralCommitmentSnapshot,
    pub primary_attestation_hash: Option<Digest>,
    pub attestation_log_length: u32,
    pub sanctions_provider: Option<AccountId>,
    pub funding_token: AccountId,
    pub treasury: AccountId,
    pub registry: Option<AccountId>,
    pub version_history: Vec<(u32, u64)>,
}

/// Discovery metadata of the escrow for registries and indexers.
#[derive(Debug)]
pub struct RegistryListing {
    pub escrow_address: AccountId,
    pub invoice_id: String,
    pub sme_address: AccountId,
    pub created_at: u64,
    pub status: u32,
    pub funding_target: i128,
}

/// What a settlement notifier is sent.
#[derive(Debug)]
pub struct SettlementNotice {
    pub notifier: AccountId,
    pub invoice_id: String,
    pub funded_amount: i128,
    pub yield_bps: i64,
    pub settled_at_ledger_timestamp: u64,
}

/// The funding-close snapshot as reported.
pub open spec fn close_snapshot_of(s: Option<FundingCloseSnapshot>) -> EscrowCloseSnapshot {
    match s {
        Some(x) => EscrowCloseSnapshot::Present(x),
        None => EscrowCloseSnapshot::Absent,
    }
}

/// Report the funding-close snapshot.
fn report_close_snapshot(s: Option<FundingCloseSnapshot>) -> (r: EscrowCloseSnapshot)
    ensures
        r == close_snapshot_of(s),
{
    match s {
        Some(x) => EscrowCloseSnapshot::Present(x),
        None => EscrowCloseSnapshot::Absent,
    }
}

/// Whether `r` reports the collateral commitment `c`.
pub open spec fn reports_collateral(r: CollateralCommitmentSnapshot, c: Option<SmeCollateralCommitment>) -> bool {
    match c {
        Some(x) => r == CollateralCommitmentSnapshot::Present(x),
        None => r == CollateralCommitmentSnapshot::Absent,
    }
}

impl LiquifactEscrow {
    fn report_collateral(&self) -> (r: CollateralCommitmentSnapshot)
        ensures
            reports_collateral(r, self.collateral),
    {
        match &self.collateral {
            Some(c) => CollateralCommitmentSnapshot::Present(c.clone()),
            None => CollateralCommitmentSnapshot::Absent,
        }
    }

    /// The escrow record.
    pub fn get_escrow(&self) -> (r: Result<InvoiceEscrow, EscrowError>)
        ensures
            match r {
                Ok(e) => self.escrow is Some && e == self.esc(),
                Err(e) => self.escrow is None && e == EscrowError::EscrowNotInitialized,
            },
    {
        match &self.escrow {
            Some(e) => Ok(e.clone()),
            None => Err(EscrowError::EscrowNotInitialized),
        }
    }

    /// The funding token bound at init.
    pub fn get_funding_token(&self) -> (r: Result<AccountId, EscrowError>)
        ensures
            match r {
                Ok(t) => self.funding_token == Some(t),
                Err(e) => self.funding_token is None && e == EscrowError::FundingTokenNotSet,
            },
    {
        match self.funding_token {
            Some(t) => Ok(t),
            None => Err(EscrowError::FundingTokenNotSet),
        }
    }

    /// The treasury bound at init.
    pub fn get_treasury(&self) -> (r: Result<AccountId, EscrowError>)
        ensures
            match r {
                Ok(t) => self.treasury == Some(t),
                Err(e) => self.treasury is None && e == EscrowError::TreasuryNotSet,
            },
    {
        match self.treasury {
            Some(t) => Ok(t),
            None => Err(EscrowError::TreasuryNotSet),
        }
    }

    /// The registry reference, if one was bound.
    pub fn get_registry_ref(&self) -> (r: Option<AccountId>)
        ensures
            r == self.registry,
    {
        self.registry
    }

    /// The cached token metadata.
    pub fn get_token_metadata_cache(&self) -> (r: Option<TokenMetadataCache>)
        ensures
            r == self.token_cache,
    {
        self.token_cache
    }

    /// The proposed successor admin, if a handover is pending.
    pub fn get_pending_admin(&self) -> (r: Option<AccountId>)
        ensures
            r == self.pending_admin,
    {
        self.pending_admin
    }

    /// Whether settlement waits for a maturity time.
    pub fn has_maturity_lock(&self) -> (r: Result<bool, EscrowError>)
        ensures
            match r {
                Ok(b) => self.escrow is Some && b == (self.esc().maturity > 0),
                Err(e) => self.escrow is None && e == EscrowError::EscrowNotInitialized,
            },
    {
        match &self.escrow {
            Some(e) => Ok(e.maturity > 0),
            None => Err(EscrowError::EscrowNotInitialized),
        }
    }

    /// The stored schema version (0 before init).
    pub fn get_version(&self) -> (r: u32)
        ensures
            r == self.version,
    {
        self.version
    }

    /// The entrypoint interface version.
    pub fn get_interface_version() -> (r: u32)
        ensures
            r == CONTRACT_INTERFACE_VERSION,
    {
        CONTRACT_INTERFACE_VERSION
    }

    /// The build metadata of an artifact built with `stamps`: the schema version
    /// ([`SCHEMA_VERSION`]) and the interface version ([`CONTRACT_INTERFACE_VERSION`])
    /// of this source, with the build's stamps. It reads no state, so it is available
    /// before `init`.
    pub fn get_build_metadata(stamps: BuildStamps) -> (r: BuildMetadata)
        ensures
            r.schema_version == SCHEMA_VERSION,
            r.interface_version == CONTRACT_INTERFACE_VERSION,
            r.git_commit == stamps.git_commit,
            r.git_full_commit == stamps.git_full_commit,
            r.build_timestamp == stamps.build_timestamp,
            r.pkg_version == stamps.pkg_version,
            r.rust_version == stamps.rust_version,
    {
        BuildMetadata {
            schema_version: SCHEMA_VERSION,
            interface_version: CONTRACT_INTERFACE_VERSION,
            git_commit: stamps.git_commit,
            git_full_commit: stamps.git_full_commit,
            build_timestamp: stamps.build_timestamp,
            pkg_version: stamps.pkg_version,
            rust_version: stamps.rust_version,
        }
    }

    /// The funding deadline, if any.
    pub fn get_funding_deadline(&self) -> (r: Option<u64>)
        ensures
            r == self.funding_deadline,
    {
        self.funding_deadline
    }

    /// Whether the funding deadline has passed at `now`.
    pub fn is_funding_expired(&self, now: u64) -> (r: bool)
        ensures
            r == (self.funding_deadline matches Some(d) && now > d),
    {
        match self.funding_deadline {
            Some(d) => now > d,
            None => false,
        }
    }

    /// Whether the compliance hold is set.
    pub fn get_legal_hold(&self) -> (r: bool)
        ensures
            r == self.legal_hold,
    {
        self.legal_hold
    }

    /// The reason kept with the compliance hold, if any.
    pub fn get_legal_hold_reason(&self) -> (r: Option<String>)
        ensures
            r == self.legal_hold_reason,
    {
        match &self.legal_hold_reason {
            Some(s) => Some(s.clone()),
            None => None,
        }
    }

    /// The delay between a clear request and lifting the hold.
    pub fn get_legal_hold_clear_delay(&self) -> (r: u64)
        ensures
            r == self.legal_hold_clear_delay,
    {
        self.legal_hold_clear_delay
    }

    /// When the hold may be lifted, if a clear was requested.
    pub fn get_legal_hold_clearable_at(&self) -> (r: Option<u64>)
        ensures
            r == self.legal_hold_clearable_at,
    {
        self.legal_hold_clearable_at
    }

    /// The minimum principal per funding call (0 for none).
    pub fn get_min_contribution_floor(&self) -> (r: i128)
        ensures
            r == self.min_contribution_floor,
    {
        self.min_contribution_floor
    }

    /// The distinct-investor cap, if any.
    pub fn get_max_unique_investors_cap(&self) -> (r: Option<u32>)
        ensures
            r == self.max_unique_investors_cap,
    {
        self.max_unique_investors_cap
    }

    /// The per-investor principal cap, if any.
    pub fn get_max_per_investor_cap(&self) -> (r: Option<i128>)
        ensures
            r == self.max_per_investor_cap,
    {
        self.max_per_investor_cap
    }

    /// The tier ladder, if one is configured.
    pub fn get_yield_tier_table(&self) -> (r: Option<Vec<YieldTier>>)
        ensures
            tiers_view(r) == tiers_view(self.yield_tiers),
    {
        match &self.yield_tiers {
            Some(t) => {
                let c = t.clone();
                assert(c@ =~= t@);
                Some(c)
            },
            None => None,
        }
    }

    /// The number of distinct funded investors.
    pub fn get_unique_funder_count(&self) -> (r: u32)
        ensures
            r == self.unique_funder_count,
    {
        self.unique_funder_count
    }

    /// The primary attestation digest, if bound.
    pub fn get_primary_attestation_hash(&self) -> (r: Option<Digest>)
        ensures
            r == self.primary_attestation_hash,
    {
        self.primary_attestation_hash
    }

    /// `addr`'s effective admin role (see [`LiquifactEscrow::role_of`]).
    pub fn get_admin_role(&self, addr: AccountId) -> (r: Result<Option<AdminRole>, EscrowError>)
        ensures
            match r {
                Ok(role) => self.escrow is Some && role == self.role_of(addr),
                Err(e) => self.escrow is None && e == EscrowError::EscrowNotInitialized,
            },
    {
        if self.escrow.is_none() {
            return Err(EscrowError::EscrowNotInitialized);
        }
        Ok(self.effective_admin_role(addr))
    }

    /// `investor`'s claim delegate, if one was set.
    pub fn get_yield_claim_delegate(&self, investor: AccountId) -> (r: Option<AccountId>)
        ensures
            r == self.pos(investor).delegate,
    {
        self.investor_position(investor).delegate
    }

    /// Whether `investor`'s delegation was revoked.
    pub fn is_yield_claim_delegate_revoked(&self, investor: AccountId) -> (r: bool)
        ensures
            r == self.pos(investor).delegate_revoked,
    {
        self.investor_position(investor).delegate_revoked
    }

    /// `investor`'s recorded principal.
    pub fn get_contribution(&self, investor: AccountId) -> (r: i128)
        ensures
            r == self.pos(investor).contribution,
    {
        self.investor_position(investor).contribution
    }

    /// `investor`'s funding checkpoints.
    pub fn get_investor_history(&self, investor: AccountId) -> (r: Vec<InvestorFundingRecord>)
        ensures
            r@ == self.history(investor),
    {
        match self.histories.get(&investor) {
            Some(h) => {
                let c = h.clone();
                assert(c@ =~= h@);
                c
            },
            None => Vec::new(),
        }
    }

    /// The funding-close snapshot, once funding closed.
    pub fn get_funding_close_snapshot(&self) -> (r: Option<FundingCloseSnapshot>)
        ensures
            r == self.funding_close_snapshot,
    {
        self.funding_close_snapshot
    }

    /// The Merkle root bound at funding close, if any.
    pub fn get_funding_close_merkle_root(&self) -> (r: Option<Digest>)
        ensures
            r == self.funding_close_merkle_root,
    {
        self.funding_close_merkle_root
    }

    /// Whether the leaf of an investor (its address bytes `address` and
    /// `contribution`) and the sibling digests `proof` lead to the root bound at
    /// funding close (false when none is bound).
    pub fn verify_investor_proof(&self, env: &Env, address: &Vec<u8>, contribution: i128, proof: &Vec<Digest>) -> (r: bool)
        ensures
            r == (self.funding_close_merkle_root matches Some(root) && root@ == merkle_root_of(address@, contribution, proof@)),
    {
        let computed = merkle_root_from_proof(env, address, contribution, proof);
        let r = self.close_root_matches(computed);
        proof {
            if let Some(root) = self.funding_close_merkle_root {
                if root@ == computed@ {
                    assert(root =~= computed);
                }
            }
        }
        r
    }

    /// Whether `computed_root` is the root bound at funding close (false when none is
    /// bound).
    pub fn close_root_matches(&self, computed_root: Digest) -> (r: bool)
        ensures
            r == (self.funding_close_merkle_root == Some(computed_root)),
    {
        match self.funding_close_merkle_root {
            Some(root) => {
                let mut same = true;
                let mut i: usize = 0;
                while i < 32
                    invariant
                        0 <= i <= 32,
                        same == forall|k: int| 0 <= k < i ==> root@[k] == computed_root@[k],
                    decreases 32 - i,
                {
                    if root[i] != computed_root[i] {
                        same = false;
                    }
                    i += 1;
                }
                proof {
                    if same {
                        assert(root =~= computed_root);
                    }
                }
                same
            },
            None => false,
        }
    }

    /// `investor`'s yield: the tier fixed at its first deposit, else the base yield.
    pub fn get_investor_yield_bps(&self, investor: AccountId) -> (r: Result<i64, EscrowError>)
        ensures
            match r {
                Ok(y) => self.escrow is Some && y == match self.pos(investor).effective_yield_bps {
                    Some(v) => v,
                    None => self.esc().yield_bps,
                },
                Err(e) => self.escrow is None && e == EscrowError::EscrowNotInitialized,
            },
    {
        let base = match &self.escrow {
            Some(e) => e.yield_bps,
            None => {
                return Err(EscrowError::EscrowNotInitialized);
            },
        };
        match self.investor_position(investor).effective_yield_bps {
            Some(v) => Ok(v),
            None => Ok(base),
        }
    }

    /// `(expected, actual, |actual - expected|)` yield of `investor`, in bps.
    pub fn get_investor_yield_slippage(&self, investor: AccountId) -> (r: Result<(i64, i64, i64), EscrowError>)
        requires
            self.escrow is Some ==> ({
                let a = match self.pos(investor).effective_yield_bps {
                    Some(v) => v,
                    None => self.esc().yield_bps,
                };
                -i64::MAX <= a - self.esc().yield_bps <= i64::MAX
            }),
        ensures
            match r {
                Ok(t) => self.escrow is Some && ({
                    let a = match self.pos(investor).effective_yield_bps {
                        Some(v) => v,
                        None => self.esc().yield_bps,
                    };
                    let d = a - self.esc().yield_bps;
                    t == (self.esc().yield_bps, a, (if d < 0 { -d } else { d }) as i64)
                }),
                Err(e) => self.escrow is None && e == EscrowError::EscrowNotInitialized,
            },
    {
        let expected = match &self.escrow {
            Some(e) => e.yield_bps,
            None => {
                return Err(EscrowError::EscrowNotInitialized);
            },
        };
        let actual = match self.investor_position(investor).effective_yield_bps {
            Some(v) => v,
            None => expected,
        };
        let d = actual - expected;
        let dev = if d < 0 { -d } else { d };
        Ok((expected, actual, dev))
    }

    /// `investor`'s earliest claim time (0 for none).
    pub fn get_investor_claim_not_before(&self, investor: AccountId) -> (r: u64)
        ensures
            r == self.pos(investor).claim_not_before,
    {
        self.investor_position(investor).claim_not_before
    }

    /// The yield slippage threshold in bps (0 = off).
    pub fn get_yield_slippage_threshold(&self) -> (r: i64)
        ensures
            r == self.yield_slippage_threshold,
    {
        self.yield_slippage_threshold
    }

    /// The protocol fee in bps (0 = none).
    pub fn get_fee_percentage(&self) -> (r: i64)
        ensures
            r == self.fee_percentage,
    {
        self.fee_percentage
    }

    /// The per-ledger funding cap (0 when unlimited).
    pub fn get_max_funding_rate(&self) -> (r: u64)
        ensures
            r == match self.max_funding_rate {
                Some(v) => v,
                None => 0,
            },
    {
        match self.max_funding_rate {
            Some(v) => v,
            None => 0,
        }
    }

    /// Whether funding is paused.
    pub fn is_funding_paused(&self) -> (r: bool)
        ensures
            r == self.funding_paused,
    {
        self.funding_paused
    }

    /// The SME collateral commitment, if recorded.
    pub fn get_sme_collateral_commitment(&self) -> (r: Option<SmeCollateralCommitment>)
        ensures
            r == self.collateral,
    {
        match &self.collateral {
            Some(c) => Some(c.clone()),
            None => None,
        }
    }

    /// Whether `investor` was marked claimed.
    pub fn is_investor_claimed(&self, investor: AccountId) -> (r: bool)
        ensures
            r == self.pos(investor).claimed,
    {
        self.investor_position(investor).claimed
    }

    /// `investor`'s lock-in end (0 for none).
    pub fn get_investor_lock_in_until(&self, investor: AccountId) -> (r: u64)
        ensures
            r == self.pos(investor).lock_in_until,
    {
        self.investor_position(investor).lock_in_until
    }

    /// Whether the escrow is paused.
    pub fn is_escrow_paused(&self) -> (r: bool)
        ensures
            r == self.escrow_paused,
    {
        self.escrow_paused
    }

    /// Whether automatic yield distribution is on.
    pub fn is_yield_auto_dist_enabled(&self) -> (r: bool)
        ensures
            r == self.yield_auto_distribution,
    {
        self.yield_auto_distribution
    }

    /// Whether the investor allowlist is on.
    pub fn is_allowlist_active(&self) -> (r: bool)
        ensures
            r == self.allowlist_active,
    {
        self.allowlist_active
    }

    /// Whether `investor` is allowlisted.
    pub fn is_investor_allowlisted(&self, investor: AccountId) -> (r: bool)
        ensures
            r == self.pos(investor).allowlisted,
    {
        self.investor_position(investor).allowlisted
    }

    /// The schema versions written, with their ledger times.
    pub fn get_version_history(&self) -> (r: Vec<(u32, u64)>)
        ensures
            r@ == self.version_history@,
    {
        let mut c: Vec<(u32, u64)> = Vec::new();
        let n = self.version_history.len();
        let mut i: usize = 0;
        while i < n
            invariant
                n == self.version_history@.len(),
                0 <= i <= n,
                c@ == self.version_history@.take(i as int),
            decreases n - i,
        {
            c.push(self.version_history[i]);
            assert(self.version_history@.take(i + 1) =~= self.version_history@.take(i as int).push(self.version_history@[i as int]));
            i += 1;
        }
        assert(self.version_history@.take(n as int) =~= self.version_history@);
        c
    }

    /// Whether `investor` was refunded.
    pub fn is_investor_refunded(&self, investor: AccountId) -> (r: bool)
        ensures
            r == self.pos(investor).refunded,
    {
        self.investor_position(investor).refunded
    }

    /// Principal already paid out (refunds and the SME withdrawal).
    pub fn get_distributed_principal(&self) -> (r: i128)
        ensures
            r == self.distributed_principal,
    {
        self.distributed_principal
    }

    /// The dispute pause in force at `now`, if any (an expired pause reads as none).
    pub fn get_dispute_pause(&self, now: u64) -> (r: Option<DisputePauseState>)
        ensures
            r == if self.dispute_active(now) {
                self.dispute_pause
            } else {
                None
            },
    {
        match &self.dispute_pause {
            Some(p) => if now < p.expires_at_ledger_timestamp {
                Some(p.clone())
            } else {
                None
            },
            None => None,
        }
    }

    /// Discovery metadata of the escrow at contract address `call.contract`.
    pub fn get_registry_listing(&self, call: &Invocation) -> (r: Result<RegistryListing, EscrowError>)
        ensures
            match r {
                Ok(l) => self.escrow is Some && l == (RegistryListing {
                    escrow_address: call.contract,
                    invoice_id: self.esc().invoice_id,
                    sme_address: self.esc().sme_address,
                    created_at: self.created_at,
                    status: self.esc().status,
                    funding_target: self.esc().funding_target,
                }),
                Err(e) => self.escrow is None && e == EscrowError::EscrowNotInitialized,
            },
    {
        match &self.escrow {
            Some(e) => Ok(RegistryListing {
                escrow_address: call.contract,
                invoice_id: e.invoice_id.clone(),
                sme_address: e.sme_address,
                created_at: self.created_at,
                status: e.status,
                funding_target: e.funding_target,
            }),
            None => Err(EscrowError::EscrowNotInitialized),
        }
    }

    /// A summary of several read-only values.
    pub fn get_escrow_summary(&self) -> (r: Result<EscrowSummary, EscrowError>)
        requires
            self.attestations@.len() <= u32::MAX,
        ensures
            match r {
                Ok(s) => self.escrow is Some && s.escrow == self.esc()
                    && s.has_maturity_lock == (self.esc().maturity > 0)
                    && s.legal_hold == self.legal_hold
                    && s.funding_close_snapshot == close_snapshot_of(self.funding_close_snapshot)
                    && s.unique_funder_count == self.unique_funder_count
                    && s.is_allowlist_active == self.allowlist_active
                    && s.schema_version == self.version
                    && reports_collateral(s.sme_collateral_commitment, self.collateral)
                    && s.has_primary_attestation == self.primary_attestation_hash is Some
                    && s.attestation_log_length == self.attestations@.len()
                    && s.settlement_nft == self.settlement_nft,
                Err(e) => self.escrow is None && e == EscrowError::EscrowNotInitialized,
            },
    {
        let e = match &self.escrow {
            Some(e) => e.clone(),
            None => {
                return Err(EscrowError::EscrowNotInitialized);
            },
        };
        let lock = e.maturity > 0;
        Ok(EscrowSummary {
            escrow: e,
            has_maturity_lock: lock,
            legal_hold: self.legal_hold,
            funding_close_snapshot: report_close_snapshot(self.funding_close_snapshot),
            unique_funder_count: self.unique_funder_count,
            is_allowlist_active: self.allowlist_active,
            schema_version: self.version,
            sme_collateral_commitment: self.report_collateral(),
            has_primary_attestation: self.primary_attestation_hash.is_some(),
            attestation_log_length: self.attestations.len() as u32,
            settlement_nft: self.settlement_nft,
        })
    }

    /// The instance state for archival and audit.
    pub fn export_escrow_snapshot(&self) -> (r: Result<EscrowSnapshot, EscrowError>)
        requires
            self.attestations@.len() <= u32::MAX,
        ensures
            match r {
                Ok(s) => self.escrow is Some && self.funding_token is Some && self.treasury is Some
                    && s.escrow == self.esc()
                    && s.schema_version == self.version
                    && s.legal_hold == self.legal_hold
                    && s.funding_close_snapshot == close_snapshot_of(self.funding_close_snapshot)
                    && s.unique_funder_count == self.unique_funder_count
                    && s.is_allowlist_active == self.allowlist_active
                    && reports_collateral(s.sme_collateral_commitment, self.collateral)
                    && s.primary_attestation_hash == self.primary_attestation_hash
                    && s.attestation_log_length == self.attestations@.len()
                    && s.sanctions_provider == self.sanctions_provider
                    && s.funding_token == self.funding_token->Some_0
                    && s.treasury == self.treasury->Some_0
                    && s.registry == self.registry
                    && s.version_history@ == self.version_history@,
                Err(e) => e == (if self.escrow is None {
                        EscrowError::EscrowNotInitialized
                    } else if self.funding_token is None {
                        EscrowError::FundingTokenNotSet
                    } else {
                        EscrowError::TreasuryNotSet
                    }) && !(self.escrow is Some && self.funding_token is Some && self.treasury is Some),
            },
    {
        let e = match &self.escrow {
            Some(e) => e.clone(),
            None => {
                return Err(EscrowError::EscrowNotInitialized);
            },
        };
        let token = match self.funding_token {
            Some(t) => t,
            None => {
                return Err(EscrowError::FundingTokenNotSet);
            },
        };
        let treasury = match self.treasury {
            Some(t) => t,
            None => {
                return Err(EscrowError::TreasuryNotSet);
            },
        };
        Ok(EscrowSnapshot {
            escrow: e,
            schema_version: self.version,
            legal_hold: self.legal_hold,
            funding_close_snapshot: report_close_snapshot(self.funding_close_snapshot),
            unique_funder_count: self.unique_funder_count,
            is_allowlist_active: self.allowlist_active,
            sme_collateral_commitment: self.report_collateral(),
            primary_attestation_hash: self.primary_attestation_hash,
            attestation_log_length: self.attestations.len() as u32,
            sanctions_provider: self.sanctions_provider,
            funding_token: token,
            treasury,
            registry: self.registry,
            version_history: self.get_version_history(),
        })
    }

    /// What the settlement notifier must be sent at `now` (the host makes the call);
    /// the escrow must be settled and a notifier configured.
    pub fn notify_settlement(&self, now: u64) -> (r: Result<SettlementNotice, EscrowError>)
        ensures
            match r {
                Ok(n) => self.escrow is Some && self.esc().status == 2 && self.settlement_notifier is Some
                    && n == (SettlementNotice {
                        notifier: self.settlement_notifier->Some_0,
                        invoice_id: self.esc().invoice_id,
                        funded_amount: self.esc().funded_amount,
                        yield_bps: self.esc().yield_bps,
                        settled_at_ledger_timestamp: now,
                    }),
                Err(e) => e == (if self.escrow is None {
                        EscrowError::EscrowNotInitialized
                    } else if self.esc().status != 2 {
                        EscrowError::InvestorClaimNotSettled
                    } else {
                        EscrowError::SettlementNotifierNotSet
                    }) && !(self.escrow is Some && self.esc().status == 2 && self.settlement_notifier is Some),
            },
    {
        let e = match &self.escrow {
            Some(e) => e,
            None => {
                return Err(EscrowError::EscrowNotInitialized);
            },
        };
        if e.status != 2 {
            return Err(EscrowError::InvestorClaimNotSettled);
        }
        let notifier = match self.settlement_notifier {
            Some(n) => n,
            None => {
                return Err(EscrowError::SettlementNotifierNotSet);
            },
        };
        Ok(SettlementNotice {
            notifier,
            invoice_id: e.invoice_id.clone(),
            funded_amount: e.funded_amount,
            yield_bps: e.yield_bps,
            settled_at_ledger_timestamp: now,
        })
    }

    /// Admin-authorized registration: returns the registry the host must register
    /// this escrow with, or `None` when no registry is bound. The state is unchanged.
    pub fn register_with_registry(&self, call: &mut Invocation) -> (r: Result<Option<AccountId>, EscrowError>)
        ensures
            match r {
                Ok(reg) => self.admin_gate_error() is None && reg == self.registry
                    && final(call).extends(*old(call), seq![self.esc().admin], seq![]),
                Err(e) => self.admin_gate_error() == Some(e) && *final(call) == *old(call),
            },
    {
        let admin = match self.admin_gate() {
            Ok(a) => a,
            Err(e) => {
                return Err(e);
            },
        };
        call.require_auth(admin);
        Ok(self.registry)
    }

    /// Admin-authorized code upgrade: returns the code hash the host must install;
    /// the state is unchanged.
    pub fn upgrade(&self, call: &mut Invocation, new_wasm_hash: Digest) -> (r: Result<Digest, EscrowError>)
        ensures
            match r {
                Ok(h) => self.admin_gate_error() is None && h == new_wasm_hash
                    && (final(call).emits(*old(call), seq![self.esc().admin], seq![],
                        seq![Event::ContractUpgraded(ContractUpgraded { invoice_id: self.esc().invoice_id, new_wasm_hash })])),
                Err(e) => self.admin_gate_error() == Some(e) && *final(call) == *old(call),
            },
    {
        let admin = match self.admin_gate() {
            Ok(a) => a,
            Err(e) => {
                return Err(e);
            },
        };
        call.require_auth(admin);
        let e = self.escrow_record();
        call.emit(Event::ContractUpgraded(ContractUpgraded { invoice_id: e.invoice_id, new_wasm_hash }));
        Ok(new_wasm_hash)
    }

    /// Permissionless storage-lifetime extension for the instance and for the
    /// per-investor records of `allowlisted`; the host performs the extension. At most
    /// [`MAX_TTL_BUMP_BATCH`] addresses.
    pub fn bump_ttl(&self, allowlisted: &Vec<AccountId>) -> (r: Result<(), EscrowError>)
        ensures
            r is Ok <==> allowlisted@.len() <= MAX_TTL_BUMP_BATCH,
            r matches Err(e) ==> e == EscrowError::TtlBumpBatchTooLarge,
    {
        if allowlisted.len() > MAX_TTL_BUMP_BATCH as usize {
            Err(EscrowError::TtlBumpBatchTooLarge)
        } else {
            Ok(())
        }
    }
}

} // verus!
