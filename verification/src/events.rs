use vstd::prelude::*;

use crate::reports::StateInconsistencyReport;
use crate::types::{AccountId, Digest, InvoiceEscrow};

verus! {

/// The escrow was initialized.
#[derive(Debug, Clone)]
pub struct EscrowInitialized {
    pub escrow: InvoiceEscrow,
    pub funding_token: AccountId,
    pub treasury: AccountId,
    pub registry: Option<AccountId>,
    pub has_maturity_lock: bool,
}

/// The admin is a deployed contract (emitted before the id is validated, with a placeholder id).
#[derive(Debug, Clone)]
pub struct AdminIsContractWarning {
    pub invoice_id: String,
    pub admin: AccountId,
}

/// The unique-investor cap was lowered.
#[derive(Debug, Clone)]
pub struct MaxUniqueInvestorsCapLowered {
    pub invoice_id: String,
    pub old_cap: u32,
    pub new_cap: u32,
}

/// A deposit was accepted.
#[derive(Debug, Clone)]
pub struct EscrowFunded {
    pub invoice_id: String,
    pub investor: AccountId,
    pub amount: i128,
    pub funded_amount: i128,
    pub status: u32,
    pub investor_effective_yield_bps: i64,
    pub tier_lock_secs: u64,
}

/// A deposit was received (indexer form of [`EscrowFunded`]).
#[derive(Debug, Clone)]
pub struct FundReceived {
    pub invoice_id: String,
    pub actor: AccountId,
    pub timestamp: u64,
    pub amount: i128,
    pub funded_amount: i128,
    pub status: u32,
    pub investor_effective_yield_bps: i64,
    pub tier_lock_secs: u64,
}

/// A funding batch was applied.
#[derive(Debug, Clone)]
pub struct BatchFundCompleted {
    pub invoice_id: String,
    pub total_funded_amount: i128,
    pub investor_count: u32,
    pub escrow_funded_amount: i128,
    pub status: u32,
}

/// The escrow was archived.
#[derive(Debug, Clone)]
pub struct EscrowArchived {
    pub invoice_id: String,
    pub prior_status: u32,
    pub archived_at_ledger_timestamp: u64,
}

/// The SME beneficiary was replaced.
#[derive(Debug, Clone)]
pub struct BeneficiaryRotated {
    pub invoice_id: String,
    pub prior_sme: AccountId,
    pub new_sme: AccountId,
}

/// Funding was closed early.
#[derive(Debug, Clone)]
pub struct EscrowPartialSettle {
    pub invoice_id: String,
    pub funded_amount: i128,
}

/// The escrow was fully settled.
#[derive(Debug, Clone)]
pub struct EscrowSettled {
    pub invoice_id: String,
    pub funded_amount: i128,
    pub yield_bps: i64,
    pub maturity: u64,
    pub settled_at_ledger_timestamp: u64,
}

/// Part of the principal was settled.
#[derive(Debug, Clone)]
pub struct EscrowPartiallySettled {
    pub invoice_id: String,
    pub funded_amount: i128,
    pub settled_amount: i128,
    pub yield_bps: i64,
    pub maturity: u64,
    pub settled_at_ledger_timestamp: u64,
}

/// The maturity was changed.
#[derive(Debug, Clone)]
pub struct MaturityUpdatedEvent {
    pub invoice_id: String,
    pub old_maturity: u64,
    pub new_maturity: u64,
}

/// The pending admin accepted the role.
#[derive(Debug, Clone)]
pub struct AdminTransferredEvent {
    pub invoice_id: String,
    pub new_admin: AccountId,
}

/// A successor admin was proposed.
#[derive(Debug, Clone)]
pub struct AdminProposedEvent {
    pub invoice_id: String,
    pub current_admin: AccountId,
    pub pending_admin: AccountId,
}

/// The funding target was changed.
#[derive(Debug, Clone)]
pub struct FundingTargetUpdated {
    pub invoice_id: String,
    pub old_target: i128,
    pub new_target: i128,
}

/// The legal hold was set (1) or lifted (0).
#[derive(Debug, Clone)]
pub struct LegalHoldChanged {
    pub invoice_id: String,
    pub active: u32,
    pub reason: String,
}

/// The legal hold was set or lifted under the multisig gate.
#[derive(Debug, Clone)]
pub struct LegalHoldChangedMultisig {
    pub invoice_id: String,
    pub active: u32,
    pub reason: String,
    pub signer_count: u32,
}

/// A legal-hold clear window was scheduled.
#[derive(Debug, Clone)]
pub struct LegalHoldClearRequested {
    pub invoice_id: String,
    pub clearable_at: u64,
}

/// A dispute pause was started (action 1) or lifted (action 0).
#[derive(Debug, Clone)]
pub struct DisputePausedEvt {
    pub invoice_id: String,
    pub ticket_id: String,
    pub action: u32,
    pub paused_at: u64,
    pub expires_at: u64,
}

/// The SME collateral commitment was recorded.
#[derive(Debug, Clone)]
pub struct CollateralRecordedEvt {
    pub invoice_id: String,
    pub amount: i128,
    pub prior_amount: i128,
}

/// The SME withdrew the funded principal.
#[derive(Debug, Clone)]
pub struct SmeWithdrew {
    pub invoice_id: String,
    pub amount: i128,
    pub recipient: AccountId,
}

/// An investor's payout was claimed.
#[derive(Debug, Clone)]
pub struct InvestorPayoutClaimed {
    pub investor: AccountId,
    pub invoice_id: String,
}

/// A batch of payouts was claimed.
#[derive(Debug, Clone)]
pub struct BatchInvestorPayoutsClaimed {
    pub invoice_id: String,
    pub claimed_count: u32,
}

/// A full settlement with automatic distribution sized the payout pool.
#[derive(Debug, Clone)]
pub struct YieldDistSnapshotCreated {
    pub invoice_id: String,
    pub settled_amount: i128,
    pub investor_count: u32,
    pub captured_at_ledger_timestamp: u64,
}

/// Automatic yield distribution was enabled.
#[derive(Debug, Clone)]
pub struct YieldAutoDistributionEnabled {
    pub invoice_id: String,
    pub enabled: bool,
    pub timestamp: u64,
}

/// Automatic yield distribution was disabled.
#[derive(Debug, Clone)]
pub struct YieldAutoDistributionDisabled {
    pub invoice_id: String,
    pub timestamp: u64,
}

/// The token metadata cache was refreshed.
#[derive(Debug, Clone)]
pub struct TokenCacheRevalidated {
    pub invoice_id: String,
    pub decimals: u32,
    pub revalidated_ledger_timestamp: u64,
}

/// The Merkle root was bound at funding close.
#[derive(Debug, Clone)]
pub struct FundingCloseMerkleRootBound {
    pub invoice_id: String,
    pub merkle_root: Digest,
}

/// An investor's yield deviates from the base yield by more than the threshold.
#[derive(Debug, Clone)]
pub struct YieldSlippageWarning {
    pub investor: AccountId,
    pub invoice_id: String,
    pub expected_yield_bps: i64,
    pub actual_yield_bps: i64,
    pub slippage_threshold_bps: i64,
    pub deviation_bps: i64,
}

/// Funding was cancelled.
#[derive(Debug, Clone)]
pub struct FundingCancelled {
    pub invoice_id: String,
    pub funded_amount: i128,
}

/// An investor was refunded.
#[derive(Debug, Clone)]
pub struct InvestorRefundedEvt {
    pub investor: AccountId,
    pub invoice_id: String,
    pub amount: i128,
}

/// Dust was swept to the treasury.
#[derive(Debug, Clone)]
pub struct TreasuryDustSwept {
    pub invoice_id: String,
    pub token: AccountId,
    pub amount: i128,
}

/// The custody check compared the funded amount with the contract's balance.
#[derive(Debug, Clone)]
pub struct AssetCustodyVerified {
    pub invoice_id: String,
    pub recorded_funded_amount: i128,
    pub contract_balance: i128,
    pub discrepancy: i128,
}

/// The primary attestation hash was bound.
#[derive(Debug, Clone)]
pub struct PrimaryAttestationBound {
    pub invoice_id: String,
    pub digest: Digest,
}

/// An attestation digest was appended.
#[derive(Debug, Clone)]
pub struct AttestationDigestAppended {
    pub invoice_id: String,
    pub index: u32,
    pub digest: Digest,
}

/// An attestation digest was revoked.
#[derive(Debug, Clone)]
pub struct AttestationDigestRevoked {
    pub invoice_id: String,
    pub index: u32,
}

/// The allowlist was switched on (1) or off (0).
#[derive(Debug, Clone)]
pub struct AllowlistEnabledChanged {
    pub invoice_id: String,
    pub active: u32,
}

/// An investor was allowed (1) or disallowed (0).
#[derive(Debug, Clone)]
pub struct InvestorAllowlistChanged {
    pub invoice_id: String,
    pub investor: AccountId,
    pub allowed: u32,
}

/// A settlement charged the protocol fee.
#[derive(Debug, Clone)]
pub struct ProtocolFeeCollected {
    pub invoice_id: String,
    pub gross_coupon: i128,
    pub fee_percentage: i64,
    pub fee_amount: i128,
    pub net_coupon: i128,
}

/// Yield was reinvested.
#[derive(Debug, Clone)]
pub struct YieldReinvested {
    pub investor: AccountId,
    pub invoice_id: String,
    pub reinvested_amount: i128,
    pub new_total_principal: i128,
}

/// Funding was resumed or its rate limit changed.
#[derive(Debug, Clone)]
pub struct FundingResumedEvent {
    pub invoice_id: String,
    pub max_funding_rate: u64,
}

/// Funding was paused because a deposit broke the per-ledger rate limit. It is
/// published before the deposit is refused.
#[derive(Debug, Clone)]
pub struct FundingPausedEvent {
    pub invoice_id: String,
    pub paused_at_ledger: u32,
    pub max_funding_rate: u64,
    /// Principal already counted in this ledger before the refused deposit.
    pub ledger_funded: i128,
}

/// What an error diagnostic explains, with the figures that it reports.
#[derive(Debug, Clone, Copy, PartialEq, Eq, Structural)]
pub enum DiagnosticContext {
    /// A deposit would lift the investor's share of the funded amount above the cap
    /// (both in whole percent).
    Concentration { current_pct: i128, limit_pct: i64 },
    /// Settlement was asked for before the maturity timestamp.
    MaturityNotReached { maturity: u64, seconds_remaining: u64 },
    /// A claim was made inside the investor's lock-in period.
    LockIn { seconds_remaining: u64 },
    /// A claim was made before the investor's commitment lock ends at `not_before`.
    CommitmentLock { not_before: u64, seconds_remaining: u64 },
}

/// A diagnosable refusal, explained for integrators; published before the call fails
/// with the error whose code it carries.
#[derive(Debug, Clone)]
pub struct ErrorDiagnosticEmitted {
    pub error_code: u32,
    pub context: DiagnosticContext,
}

/// The schema versions seen by a migration request, published before it is refused.
#[derive(Debug, Clone)]
pub struct MigrationDiagnosticEmitted {
    pub invoice_id: String,
    pub stored_version: u32,
    pub from_version: u32,
    pub target_version: u32,
}

/// Admin authority moved (kind `propose` or `accept`).
#[derive(Debug, Clone)]
pub struct AdminChanged {
    pub invoice_id: String,
    pub actor: AccountId,
    pub timestamp: u64,
    pub kind: AdminChangeKind,
    pub old_admin: AccountId,
    pub new_admin: AccountId,
}

/// The legal hold was set (1) or lifted (0) (indexer form).
#[derive(Debug, Clone)]
pub struct LegalHoldSet {
    pub invoice_id: String,
    pub actor: AccountId,
    pub timestamp: u64,
    pub active: u32,
}

/// The escrow was paused (1) or unpaused (0).
#[derive(Debug, Clone)]
pub struct EscrowPaused {
    pub invoice_id: String,
    pub actor: AccountId,
    pub timestamp: u64,
    pub paused: u32,
}

/// The escrow's health check raised a warning.
#[derive(Debug, Clone)]
pub struct EscrowHealthWarning {
    pub invoice_id: String,
    pub warning_type: u32,
    pub funded_amount: i128,
    pub funding_target: i128,
    pub funded_ratio_bps: i64,
    pub time_to_maturity_secs: i64,
    pub recorded_at_ledger_timestamp: u64,
}

/// An investor named a claim delegate.
#[derive(Debug, Clone)]
pub struct YieldClaimDelegationSet {
    pub investor: AccountId,
    pub delegate: AccountId,
}

/// An investor revoked its claim delegate.
#[derive(Debug, Clone)]
pub struct YieldClaimDelegationRevoked {
    pub investor: AccountId,
}

/// The contract code was upgraded.
#[derive(Debug, Clone)]
pub struct ContractUpgraded {
    pub invoice_id: String,
    pub new_wasm_hash: Digest,
}

/// The escrow was initialized as a clone of a settled template.
#[derive(Debug, Clone)]
pub struct EscrowCloned {
    pub template_invoice_id: String,
    pub new_invoice_id: String,
    pub admin: AccountId,
    pub sme_address: AccountId,
    pub yield_bps: i64,
    pub maturity: u64,
    pub new_amount: i128,
}

/// A scan found the stored state inconsistent.
#[derive(Debug, Clone)]
pub struct StateInconsistenciesDetected {
    pub invoice_id: String,
    pub report: StateInconsistencyReport,
}

/// The step of an admin handover that an [`AdminChanged`] event records.
#[derive(Copy, Clone, Debug, PartialEq, Eq, Structural)]
pub enum AdminChangeKind {
    /// A successor was proposed.
    Proposed,
    /// The successor accepted.
    Accepted,
}

/// An event the host publishes once the call that produced it succeeds.
#[derive(Debug, Clone)]
pub enum Event {
    EscrowInitialized(EscrowInitialized),
    AdminIsContractWarning(AdminIsContractWarning),
    MaxUniqueInvestorsCapLowered(MaxUniqueInvestorsCapLowered),
    EscrowFunded(EscrowFunded),
    FundReceived(FundReceived),
    BatchFundCompleted(BatchFundCompleted),
    EscrowArchived(EscrowArchived),
    BeneficiaryRotated(BeneficiaryRotated),
    EscrowPartialSettle(EscrowPartialSettle),
    EscrowSettled(EscrowSettled),
    EscrowPartiallySettled(EscrowPartiallySettled),
    MaturityUpdatedEvent(MaturityUpdatedEvent),
    AdminTransferredEvent(AdminTransferredEvent),
    AdminProposedEvent(AdminProposedEvent),
    FundingTargetUpdated(FundingTargetUpdated),
    LegalHoldChanged(LegalHoldChanged),
    LegalHoldChangedMultisig(LegalHoldChangedMultisig),
    LegalHoldClearRequested(LegalHoldClearRequested),
    DisputePausedEvt(DisputePausedEvt),
    CollateralRecordedEvt(CollateralRecordedEvt),
    SmeWithdrew(SmeWithdrew),
    InvestorPayoutClaimed(InvestorPayoutClaimed),
    BatchInvestorPayoutsClaimed(BatchInvestorPayoutsClaimed),
    YieldDistSnapshotCreated(YieldDistSnapshotCreated),
    YieldAutoDistributionEnabled(YieldAutoDistributionEnabled),
    YieldAutoDistributionDisabled(YieldAutoDistributionDisabled),
    TokenCacheRevalidated(TokenCacheRevalidated),
    FundingCloseMerkleRootBound(FundingCloseMerkleRootBound),
    YieldSlippageWarning(YieldSlippageWarning),
    FundingCancelled(FundingCancelled),
    InvestorRefundedEvt(InvestorRefundedEvt),
    TreasuryDustSwept(TreasuryDustSwept),
    AssetCustodyVerified(AssetCustodyVerified),
    PrimaryAttestationBound(PrimaryAttestationBound),
    AttestationDigestAppended(AttestationDigestAppended),
    AttestationDigestRevoked(AttestationDigestRevoked),
    AllowlistEnabledChanged(AllowlistEnabledChanged),
    InvestorAllowlistChanged(InvestorAllowlistChanged),
    ProtocolFeeCollected(ProtocolFeeCollected),
    YieldReinvested(YieldReinvested),
    FundingResumedEvent(FundingResumedEvent),
    AdminChanged(AdminChanged),
    LegalHoldSet(LegalHoldSet),
    EscrowPaused(EscrowPaused),
    EscrowHealthWarning(EscrowHealthWarning),
    YieldClaimDelegationSet(YieldClaimDelegationSet),
    YieldClaimDelegationRevoked(YieldClaimDelegationRevoked),
    ContractUpgraded(ContractUpgraded),
    EscrowCloned(EscrowCloned),
    StateInconsistenciesDetected(StateInconsistenciesDetected),
    FundingPausedEvent(FundingPausedEvent),
    ErrorDiagnosticEmitted(ErrorDiagnosticEmitted),
    MigrationDiagnosticEmitted(MigrationDiagnosticEmitted),
}

} // verus!
