//! Verified state machine of a single-invoice escrow: investors fund an invoice,
//! the SME settles or withdraws, investors claim pro-rata payouts, and admins run
//! compliance controls (legal hold, dispute pause, allowlist, roles, multisig).
pub mod admin;
pub mod attestation;
pub mod buckets;
pub mod claims;
pub mod constants;
pub mod error;
pub mod escrow;
pub mod events;
pub mod funding;
pub mod hashing;
pub mod init;
pub mod init_params;
pub mod laws;
pub mod math;
pub mod merkle;
pub mod multisig;
pub mod reports;
pub mod settlement;
pub mod sharding;
pub mod transfer;
pub mod types;
pub mod validation;
pub mod views;

pub use error::EscrowError;
pub use escrow::LiquifactEscrow;
pub use events::Event;
pub use types::{
    AccountId, AdminRole, AttestationRecord, Checkpoint, Digest, DisputePauseState,
    FundingCloseSnapshot, InvestorFundingRecord, InvestorPosition, Invocation, InvoiceEscrow,
    MultisigPolicy, ReinvestmentAuditEntry, Screening, SmeCollateralCommitment, TokenMetadataCache,
    Transfer, YieldTier,
};
