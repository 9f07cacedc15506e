use vstd::prelude::*;

verus! {

/// Storage schema version written at init.
pub const SCHEMA_VERSION: u32 = 7;

/// Interface (entrypoint ABI) version.
pub const CONTRACT_INTERFACE_VERSION: u32 = 1;

/// Upper bound on attestation append-log entries; revocation does not consume a slot.
pub const MAX_ATTESTATION_APPEND_ENTRIES: u32 = 32;

/// Upper bound on reinvestment audit-log entries.
pub const MAX_REINVESTMENT_AUDIT_ENTRIES: u32 = 100;

/// Upper bound on funding-history checkpoints kept per investor; later ones are dropped.
pub const MAX_INVESTOR_HISTORY_ENTRIES: u32 = 128;

/// Upper bound on entries of the admin role table.
pub const MAX_ADMIN_ROLES: u32 = 16;

/// Upper bound on multisig signers.
pub const MAX_MULTISIG_SIGNERS: u32 = 16;

/// Upper bound on multisig-covered operations.
pub const MAX_MULTISIG_OPERATIONS: u32 = 16;

/// Upper bound on one allowlist batch.
pub const MAX_INVESTOR_ALLOWLIST_BATCH: u32 = 32;

/// Upper bound on one funding batch.
pub const MAX_FUND_BATCH: u32 = 50;

/// Upper bound on one batch of investor claims.
pub const MAX_BATCH_CLAIM: u32 = 50;

/// Number of dashboard buckets for investor contribution aggregates.
pub const INVESTOR_BUCKET_COUNT: u32 = 256;

/// Upper bound on one terminal dust sweep, in base units of the funding token.
pub const MAX_DUST_SWEEP_AMOUNT: i128 = 100_000_000;

/// Longest dispute pause, in seconds (14 days).
pub const MAX_DISPUTE_PAUSE_DURATION_SECS: u64 = 14 * 24 * 60 * 60;

/// Longest invoice id, in bytes.
pub const MAX_INVOICE_ID_STRING_LEN: u32 = 32;

/// Longest legal-hold reason, in bytes.
pub const MAX_LEGAL_HOLD_REASON_LEN: u32 = 256;

/// Instance-storage TTL extension horizon, in ledgers (about one hour).
pub const INSTANCE_TTL_MIN_EXTENSION_LEDGERS: u32 = 60 * 60;

/// Persistent-storage TTL extension horizon, in ledgers (about one hour).
pub const PERSISTENT_TTL_MIN_EXTENSION_LEDGERS: u32 = 60 * 60;

/// Upper bound on the addresses of one TTL bump.
pub const MAX_TTL_BUMP_BATCH: u32 = 32;

/// Longest snapshot name, in bytes.
pub const MAX_SNAPSHOT_NAME_LEN: u32 = 32;

/// Upper bound on named state snapshots.
pub const MAX_STATE_SNAPSHOTS: u32 = 16;

} // verus!
