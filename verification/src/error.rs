use vstd::prelude::*;

verus! {

/// Stable typed errors of the escrow entrypoints.
///
/// Codes are append-only; client SDKs branch on [`EscrowError::code`] rather than on
/// variant names. A few historical codes are shared by two variants.
#[derive(Copy, Clone, Debug, PartialEq, Eq, Structural)]
pub enum EscrowError {
    AmountMustBePositive,
    YieldBpsOutOfRange,
    EscrowAlreadyInitialized,
    InvoiceIdInvalidLength,
    InvoiceIdInvalidCharset,
    MinContributionNotPositive,
    MinContributionExceedsAmount,
    MaxUniqueInvestorsNotPositive,
    MaxPerInvestorNotPositive,
    TierYieldOutOfRange,
    TierYieldBelowBase,
    TierLockNotIncreasing,
    TierYieldNotNonDecreasing,
    EscrowNotInitialized,
    FundingTokenNotSet,
    TreasuryNotSet,
    LegalHoldBlocksTreasuryDustSweep,
    SweepAmountNotPositive,
    SweepAmountExceedsMax,
    DustSweepNotTerminal,
    NoFundingTokenBalanceToSweep,
    EffectiveSweepAmountZero,
    TransferAmountNotPositive,
    InsufficientTokenBalanceBeforeTransfer,
    SenderBalanceUnderflow,
    RecipientBalanceUnderflow,
    SenderBalanceDeltaMismatch,
    RecipientBalanceDeltaMismatch,
    SweepExceedsLiabilityFloor,
    PrimaryAttestationAlreadyBound,
    AttestationAppendLogCapacityReached,
    InvalidAttestationHashLength,
    CollateralAmountNotPositive,
    CollateralAssetEmpty,
    CollateralTimestampBackwards,
    CollateralUpdateAfterSettlement,
    InvestorBatchEmpty,
    InvestorBatchTooLarge,
    FundingBatchEmpty,
    FundingBatchTooLarge,
    TargetNotPositive,
    TargetUpdateNotOpen,
    TargetBelowFundedAmount,
    CapLowerNotOpen,
    NoInvestorCapConfigured,
    NewCapNotLower,
    NewCapBelowCurrentFunderCount,
    MaturityUpdateNotOpen,
    NewAdminSameAsCurrent,
    MigrationVersionMismatch,
    AlreadyCurrentSchemaVersion,
    NoMigrationPath,
    FundingAmountNotPositive,
    FundingBelowMinContribution,
    LegalHoldBlocksFunding,
    EscrowNotOpenForFunding,
    InvestorNotAllowlisted,
    InvestorContributionOverflow,
    InvestorContributionExceedsCap,
    UniqueInvestorCapReached,
    TieredSecondDeposit,
    InvestorClaimTimeOverflow,
    FundedAmountOverflow,
    CommitmentLockExceedsMaturity,
    LegalHoldBlocksSettlement,
    SettlementNotFunded,
    MaturityNotReached,
    LegalHoldBlocksWithdrawal,
    WithdrawalNotFunded,
    LegalHoldBlocksInvestorClaims,
    NoContributionToClaim,
    InvestorClaimNotSettled,
    InvestorCommitmentLockNotExpired,
    ComputePayoutArithmeticOverflow,
    LegalHoldBlocksCancelFunding,
    CancelFundingNotOpen,
    RefundNotCancelled,
    NoContributionToRefund,
    LegalHoldClearRequestMissing,
    LegalHoldClearNotReady,
    LegalHoldClearDelayOverflow,
    FundingDeadlinePassed,
    LegalHoldSetOnTerminalEscrow,
    LegalHoldBlocksBeneficiaryRotation,
    RotationNotOpen,
    YieldSlippageDetected,
    YieldSlippageThresholdOutOfRange,
    NewSmeSameAsCurrent,
    NoPendingAdmin,
    InsufficientContractBalance,
    DisputePausedBlocksFunding,
    DisputePausedBlocksSettlement,
    DisputePausedBlocksWithdrawal,
    DisputePausedBlocksInvestorClaims,
    DisputePauseDurationNotPositive,
    DisputePauseDurationExceedsMax,
    DisputeTicketIdEmpty,
    NoPauseActive,
    LedgerTimestampOverflow,
    InvestorNotVerified,
    SanctionsScreeningFailed,
    InsufficientAdminRole,
    InvalidAdminRoleList,
    MultisigThresholdInvalid,
    MultisigSignerListInvalid,
    MultisigOperationsListEmpty,
    MultisigInsufficientSigners,
    MultisigSignerNotAuthorized,
    ReinvestSourceEscrowNotSettled,
    ReinvestTargetEscrowNotFunding,
    ReinvestAmountNotPositive,
    ReinvestYieldInsufficient,
    UnauthorizedWithdrawer,
    EscrowIsPaused,
    FundingIsPaused,
    FundingVelocityExceeded,
    ConcentrationLimitExceeded,
    InvestorStillInLockIn,
    SettlementNotPositive,
    SettlementExceedsFunded,
    SettlementNotifierNotSet,
    CloneNotSettled,
    CloneAmountNotPositive,
    ArchiveNotTerminal,
    BatchClaimEmpty,
    BatchClaimTooLarge,
    NoDelegationSet,
    DelegationRevoked,
    DelegateAddressSameAsInvestor,
    NoActiveDelegation,
    TtlBumpBatchTooLarge,
    LegalHoldReasonTooLong,
    ContractAdminRejected,
    AttestationIndexOutOfRange,
    AttestationAlreadyRevoked,
    UnauthorizedPartialSettlement,
    PartialSettlementNotOpen,
    FunderCountOverflow,
    UnauthorizedBatchClaimer,
}

impl EscrowError {
    /// The numeric code of each variant.
    pub open spec fn spec_code(self) -> u32 {
        match self {
            EscrowError::AmountMustBePositive => 1,
            EscrowError::YieldBpsOutOfRange => 2,
            EscrowError::EscrowAlreadyInitialized => 3,
            EscrowError::InvoiceIdInvalidLength => 4,
            EscrowError::InvoiceIdInvalidCharset => 5,
            EscrowError::MinContributionNotPositive => 6,
            EscrowError::MinContributionExceedsAmount => 7,
            EscrowError::MaxUniqueInvestorsNotPositive => 8,
            EscrowError::MaxPerInvestorNotPositive => 9,
            EscrowError::TierYieldOutOfRange => 10,
            EscrowError::TierYieldBelowBase => 11,
            EscrowError::TierLockNotIncreasing => 12,
            EscrowError::TierYieldNotNonDecreasing => 13,
            EscrowError::EscrowNotInitialized => 20,
            EscrowError::FundingTokenNotSet => 21,
            EscrowError::TreasuryNotSet => 22,
            EscrowError::LegalHoldBlocksTreasuryDustSweep => 30,
            EscrowError::SweepAmountNotPositive => 31,
            EscrowError::SweepAmountExceedsMax => 32,
            EscrowError::DustSweepNotTerminal => 33,
            EscrowError::NoFundingTokenBalanceToSweep => 34,
            EscrowError::EffectiveSweepAmountZero => 35,
            EscrowError::TransferAmountNotPositive => 36,
            EscrowError::InsufficientTokenBalanceBeforeTransfer => 37,
            EscrowError::SenderBalanceUnderflow => 38,
            EscrowError::RecipientBalanceUnderflow => 39,
            EscrowError::SenderBalanceDeltaMismatch => 40,
            EscrowError::RecipientBalanceDeltaMismatch => 41,
            EscrowError::SweepExceedsLiabilityFloor => 42,
            EscrowError::PrimaryAttestationAlreadyBound => 50,
            EscrowError::AttestationAppendLogCapacityReached => 51,
            EscrowError::InvalidAttestationHashLength => 52,
            EscrowError::CollateralAmountNotPositive => 60,
            EscrowError::CollateralAssetEmpty => 61,
            EscrowError::CollateralTimestampBackwards => 62,
            EscrowError::CollateralUpdateAfterSettlement => 63,
            EscrowError::InvestorBatchEmpty => 70,
            EscrowError::InvestorBatchTooLarge => 71,
            EscrowError::FundingBatchEmpty => 82,
            EscrowError::FundingBatchTooLarge => 83,
            EscrowError::TargetNotPositive => 72,
            EscrowError::TargetUpdateNotOpen => 73,
            EscrowError::TargetBelowFundedAmount => 74,
            EscrowError::CapLowerNotOpen => 75,
            EscrowError::NoInvestorCapConfigured => 76,
            EscrowError::NewCapNotLower => 77,
            EscrowError::NewCapBelowCurrentFunderCount => 78,
            EscrowError::MaturityUpdateNotOpen => 79,
            EscrowError::NewAdminSameAsCurrent => 80,
            EscrowError::MigrationVersionMismatch => 90,
            EscrowError::AlreadyCurrentSchemaVersion => 91,
            EscrowError::NoMigrationPath => 92,
            EscrowError::FundingAmountNotPositive => 100,
            EscrowError::FundingBelowMinContribution => 101,
            EscrowError::LegalHoldBlocksFunding => 102,
            EscrowError::EscrowNotOpenForFunding => 103,
            EscrowError::InvestorNotAllowlisted => 104,
            EscrowError::InvestorContributionOverflow => 105,
            EscrowError::InvestorContributionExceedsCap => 106,
            EscrowError::UniqueInvestorCapReached => 107,
            EscrowError::TieredSecondDeposit => 108,
            EscrowError::InvestorClaimTimeOverflow => 109,
            EscrowError::FundedAmountOverflow => 110,
            EscrowError::CommitmentLockExceedsMaturity => 111,
            EscrowError::LegalHoldBlocksSettlement => 120,
            EscrowError::SettlementNotFunded => 121,
            EscrowError::MaturityNotReached => 122,
            EscrowError::LegalHoldBlocksWithdrawal => 123,
            EscrowError::WithdrawalNotFunded => 124,
            EscrowError::LegalHoldBlocksInvestorClaims => 125,
            EscrowError::NoContributionToClaim => 126,
            EscrowError::InvestorClaimNotSettled => 127,
            EscrowError::InvestorCommitmentLockNotExpired => 128,
            EscrowError::ComputePayoutArithmeticOverflow => 129,
            EscrowError::LegalHoldBlocksCancelFunding => 140,
            EscrowError::CancelFundingNotOpen => 141,
            EscrowError::RefundNotCancelled => 142,
            EscrowError::NoContributionToRefund => 143,
            EscrowError::LegalHoldClearRequestMissing => 150,
            EscrowError::LegalHoldClearNotReady => 151,
            EscrowError::LegalHoldClearDelayOverflow => 152,
            EscrowError::FundingDeadlinePassed => 153,
            EscrowError::LegalHoldSetOnTerminalEscrow => 154,
            EscrowError::LegalHoldBlocksBeneficiaryRotation => 160,
            EscrowError::RotationNotOpen => 161,
            EscrowError::YieldSlippageDetected => 162,
            EscrowError::YieldSlippageThresholdOutOfRange => 163,
            EscrowError::NewSmeSameAsCurrent => 181,
            EscrowError::NoPendingAdmin => 182,
            EscrowError::InsufficientContractBalance => 183,
            EscrowError::DisputePausedBlocksFunding => 165,
            EscrowError::DisputePausedBlocksSettlement => 166,
            EscrowError::DisputePausedBlocksWithdrawal => 167,
            EscrowError::DisputePausedBlocksInvestorClaims => 168,
            EscrowError::DisputePauseDurationNotPositive => 169,
            EscrowError::DisputePauseDurationExceedsMax => 181,
            EscrowError::DisputeTicketIdEmpty => 170,
            EscrowError::NoPauseActive => 171,
            EscrowError::LedgerTimestampOverflow => 172,
            EscrowError::InvestorNotVerified => 173,
            EscrowError::SanctionsScreeningFailed => 205,
            EscrowError::InsufficientAdminRole => 174,
            EscrowError::InvalidAdminRoleList => 175,
            EscrowError::MultisigThresholdInvalid => 176,
            EscrowError::MultisigSignerListInvalid => 177,
            EscrowError::MultisigOperationsListEmpty => 178,
            EscrowError::MultisigInsufficientSigners => 179,
            EscrowError::MultisigSignerNotAuthorized => 180,
            EscrowError::ReinvestSourceEscrowNotSettled => 181,
            EscrowError::ReinvestTargetEscrowNotFunding => 182,
            EscrowError::ReinvestAmountNotPositive => 183,
            EscrowError::ReinvestYieldInsufficient => 184,
            EscrowError::UnauthorizedWithdrawer => 185,
            EscrowError::EscrowIsPaused => 186,
            EscrowError::FundingIsPaused => 187,
            EscrowError::FundingVelocityExceeded => 188,
            EscrowError::ConcentrationLimitExceeded => 189,
            EscrowError::InvestorStillInLockIn => 190,
            EscrowError::SettlementNotPositive => 191,
            EscrowError::SettlementExceedsFunded => 192,
            EscrowError::SettlementNotifierNotSet => 193,
            EscrowError::CloneNotSettled => 194,
            EscrowError::CloneAmountNotPositive => 195,
            EscrowError::ArchiveNotTerminal => 196,
            EscrowError::BatchClaimEmpty => 197,
            EscrowError::BatchClaimTooLarge => 198,
            EscrowError::NoDelegationSet => 199,
            EscrowError::DelegationRevoked => 200,
            EscrowError::DelegateAddressSameAsInvestor => 201,
            EscrowError::NoActiveDelegation => 202,
            EscrowError::TtlBumpBatchTooLarge => 203,
            EscrowError::LegalHoldReasonTooLong => 204,
            EscrowError::ContractAdminRejected => 206,
            EscrowError::AttestationIndexOutOfRange => 207,
            EscrowError::AttestationAlreadyRevoked => 208,
            EscrowError::UnauthorizedPartialSettlement => 209,
            EscrowError::PartialSettlementNotOpen => 210,
            EscrowError::FunderCountOverflow => 211,
            EscrowError::UnauthorizedBatchClaimer => 212,
        }
    }

    /// Numeric error code, as exposed to clients.
    pub fn code(&self) -> (c: u32)
        ensures
            c == self.spec_code(),
    {
        match self {
            EscrowError::AmountMustBePositive => 1,
            EscrowError::YieldBpsOutOfRange => 2,
            EscrowError::EscrowAlreadyInitialized => 3,
            EscrowError::InvoiceIdInvalidLength => 4,
            EscrowError::InvoiceIdInvalidCharset => 5,
            EscrowError::MinContributionNotPositive => 6,
            EscrowError::MinContributionExceedsAmount => 7,
            EscrowError::MaxUniqueInvestorsNotPositive => 8,
            EscrowError::MaxPerInvestorNotPositive => 9,
            EscrowError::TierYieldOutOfRange => 10,
            EscrowError::TierYieldBelowBase => 11,
            EscrowError::TierLockNotIncreasing => 12,
            EscrowError::TierYieldNotNonDecreasing => 13,
            EscrowError::EscrowNotInitialized => 20,
            EscrowError::FundingTokenNotSet => 21,
            EscrowError::TreasuryNotSet => 22,
            EscrowError::LegalHoldBlocksTreasuryDustSweep => 30,
            EscrowError::SweepAmountNotPositive => 31,
            EscrowError::SweepAmountExceedsMax => 32,
            EscrowError::DustSweepNotTerminal => 33,
            EscrowError::NoFundingTokenBalanceToSweep => 34,
            EscrowError::EffectiveSweepAmountZero => 35,
            EscrowError::TransferAmountNotPositive => 36,
            EscrowError::InsufficientTokenBalanceBeforeTransfer => 37,
            EscrowError::SenderBalanceUnderflow => 38,
            EscrowError::RecipientBalanceUnderflow => 39,
            EscrowError::SenderBalanceDeltaMismatch => 40,
            EscrowError::RecipientBalanceDeltaMismatch => 41,
            EscrowError::SweepExceedsLiabilityFloor => 42,
            EscrowError::PrimaryAttestationAlreadyBound => 50,
            EscrowError::AttestationAppendLogCapacityReached => 51,
            EscrowError::InvalidAttestationHashLength => 52,
            EscrowError::CollateralAmountNotPositive => 60,
            EscrowError::CollateralAssetEmpty => 61,
            EscrowError::CollateralTimestampBackwards => 62,
            EscrowError::CollateralUpdateAfterSettlement => 63,
            EscrowError::InvestorBatchEmpty => 70,
            EscrowError::InvestorBatchTooLarge => 71,
            EscrowError::FundingBatchEmpty => 82,
            EscrowError::FundingBatchTooLarge => 83,
            EscrowError::TargetNotPositive => 72,
            EscrowError::TargetUpdateNotOpen => 73,
            EscrowError::TargetBelowFundedAmount => 74,
            EscrowError::CapLowerNotOpen => 75,
            EscrowError::NoInvestorCapConfigured => 76,
            EscrowError::NewCapNotLower => 77,
            EscrowError::NewCapBelowCurrentFunderCount => 78,
            EscrowError::MaturityUpdateNotOpen => 79,
            EscrowError::NewAdminSameAsCurrent => 80,
            EscrowError::MigrationVersionMismatch => 90,
            EscrowError::AlreadyCurrentSchemaVersion => 91,
            EscrowError::NoMigrationPath => 92,
            EscrowError::FundingAmountNotPositive => 100,
            EscrowError::FundingBelowMinContribution => 101,
            EscrowError::LegalHoldBlocksFunding => 102,
            EscrowError::EscrowNotOpenForFunding => 103,
            EscrowError::InvestorNotAllowlisted => 104,
            EscrowError::InvestorContributionOverflow => 105,
            EscrowError::InvestorContributionExceedsCap => 106,
            EscrowError::UniqueInvestorCapReached => 107,
            EscrowError::TieredSecondDeposit => 108,
            EscrowError::InvestorClaimTimeOverflow => 109,
            EscrowError::FundedAmountOverflow => 110,
            EscrowError::CommitmentLockExceedsMaturity => 111,
            EscrowError::LegalHoldBlocksSettlement => 120,
            EscrowError::SettlementNotFunded => 121,
            EscrowError::MaturityNotReached => 122,
            EscrowError::LegalHoldBlocksWithdrawal => 123,
            EscrowError::WithdrawalNotFunded => 124,
            EscrowError::LegalHoldBlocksInvestorClaims => 125,
            EscrowError::NoContributionToClaim => 126,
            EscrowError::InvestorClaimNotSettled => 127,
            EscrowError::InvestorCommitmentLockNotExpired => 128,
            EscrowError::ComputePayoutArithmeticOverflow => 129,
            EscrowError::LegalHoldBlocksCancelFunding => 140,
            EscrowError::CancelFundingNotOpen => 141,
            EscrowError::RefundNotCancelled => 142,
            EscrowError::NoContributionToRefund => 143,
            EscrowError::LegalHoldClearRequestMissing => 150,
            EscrowError::LegalHoldClearNotReady => 151,
            EscrowError::LegalHoldClearDelayOverflow => 152,
            EscrowError::FundingDeadlinePassed => 153,
            EscrowError::LegalHoldSetOnTerminalEscrow => 154,
            EscrowError::LegalHoldBlocksBeneficiaryRotation => 160,
            EscrowError::RotationNotOpen => 161,
            EscrowError::YieldSlippageDetected => 162,
            EscrowError::YieldSlippageThresholdOutOfRange => 163,
            EscrowError::NewSmeSameAsCurrent => 181,
            EscrowError::NoPendingAdmin => 182,
            EscrowError::InsufficientContractBalance => 183,
            EscrowError::DisputePausedBlocksFunding => 165,
            EscrowError::DisputePausedBlocksSettlement => 166,
            EscrowError::DisputePausedBlocksWithdrawal => 167,
            EscrowError::DisputePausedBlocksInvestorClaims => 168,
            EscrowError::DisputePauseDurationNotPositive => 169,
            EscrowError::DisputePauseDurationExceedsMax => 181,
            EscrowError::DisputeTicketIdEmpty => 170,
            EscrowError::NoPauseActive => 171,
            EscrowError::LedgerTimestampOverflow => 172,
            EscrowError::InvestorNotVerified => 173,
            EscrowError::SanctionsScreeningFailed => 205,
            EscrowError::InsufficientAdminRole => 174,
            EscrowError::InvalidAdminRoleList => 175,
            EscrowError::MultisigThresholdInvalid => 176,
            EscrowError::MultisigSignerListInvalid => 177,
            EscrowError::MultisigOperationsListEmpty => 178,
            EscrowError::MultisigInsufficientSigners => 179,
            EscrowError::MultisigSignerNotAuthorized => 180,
            EscrowError::ReinvestSourceEscrowNotSettled => 181,
            EscrowError::ReinvestTargetEscrowNotFunding => 182,
            EscrowError::ReinvestAmountNotPositive => 183,
            EscrowError::ReinvestYieldInsufficient => 184,
            EscrowError::UnauthorizedWithdrawer => 185,
            EscrowError::EscrowIsPaused => 186,
            EscrowError::FundingIsPaused => 187,
            EscrowError::FundingVelocityExceeded => 188,
            EscrowError::ConcentrationLimitExceeded => 189,
            EscrowError::InvestorStillInLockIn => 190,
            EscrowError::SettlementNotPositive => 191,
            EscrowError::SettlementExceedsFunded => 192,
            EscrowError::SettlementNotifierNotSet => 193,
            EscrowError::CloneNotSettled => 194,
            EscrowError::CloneAmountNotPositive => 195,
            EscrowError::ArchiveNotTerminal => 196,
            EscrowError::BatchClaimEmpty => 197,
            EscrowError::BatchClaimTooLarge => 198,
            EscrowError::NoDelegationSet => 199,
            EscrowError::DelegationRevoked => 200,
            EscrowError::DelegateAddressSameAsInvestor => 201,
            EscrowError::NoActiveDelegation => 202,
            EscrowError::TtlBumpBatchTooLarge => 203,
            EscrowError::LegalHoldReasonTooLong => 204,
            EscrowError::ContractAdminRejected => 206,
            EscrowError::AttestationIndexOutOfRange => 207,
            EscrowError::AttestationAlreadyRevoked => 208,
            EscrowError::UnauthorizedPartialSettlement => 209,
            EscrowError::PartialSettlementNotOpen => 210,
            EscrowError::FunderCountOverflow => 211,
            EscrowError::UnauthorizedBatchClaimer => 212,
        }
    }
}

} // verus!
