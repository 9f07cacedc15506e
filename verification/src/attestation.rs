use vstd::prelude::*;

use crate::constants::MAX_ATTESTATION_APPEND_ENTRIES;
use crate::error::EscrowError;
use crate::escrow::LiquifactEscrow;
use crate::events::{AttestationDigestAppended, AttestationDigestRevoked, Event, PrimaryAttestationBound};
use crate::types::{AttestationLogEntry, AttestationRecord, AuditLogFilter, AuditLogPage, Digest, Invocation};

verus! {

/// Whether log entry `r` passes `f`: at or after its time bound, and with exactly its
/// tag.
pub open spec fn passes_filter(r: AttestationRecord, f: AuditLogFilter) -> bool {
    &&& (f.after_timestamp matches Some(after) ==> r.timestamp >= after)
    &&& (f.tag_prefix matches Some(t) ==> r.tag@ == t@)
}

/// The entry that a query reports for record `r` at position `i`.
pub open spec fn log_entry(r: AttestationRecord, i: int) -> AttestationLogEntry {
    AttestationLogEntry { digest: r.digest, index: i as u32, timestamp: r.timestamp, tag: r.tag, revoked: r.revoked }
}

/// The entries of `log[..n]` that pass `f`, in log order.
pub open spec fn matching_entries(log: Seq<AttestationRecord>, f: AuditLogFilter, n: int) -> Seq<AttestationLogEntry>
    decreases n,
{
    if n <= 0 {
        Seq::empty()
    } else if passes_filter(log[n - 1], f) {
        matching_entries(log, f, n - 1).push(log_entry(log[n - 1], n - 1))
    } else {
        matching_entries(log, f, n - 1)
    }
}

proof fn lemma_matching_len(log: Seq<AttestationRecord>, f: AuditLogFilter, n: int)
    requires
        n >= 0,
    ensures
        matching_entries(log, f, n).len() <= n,
    decreases n,
{
    if n > 0 {
        lemma_matching_len(log, f, n - 1);
    }
}

/// Whether `a` and `b` report the same entry.
pub open spec fn same_entry(a: AttestationLogEntry, b: AttestationLogEntry) -> bool {
    a.digest == b.digest && a.index == b.index && a.timestamp == b.timestamp && a.tag@ == b.tag@ && a.revoked == b.revoked
}

impl LiquifactEscrow {
    /// Bind the primary 32-byte attestation digest (admin-authorized); it can be set
    /// only once.
    pub fn bind_primary_attestation_hash(&mut self, call: &mut Invocation, digest: &Vec<u8>) -> (r: Result<(), EscrowError>)
        ensures
            match r {
                Ok(()) => digest@.len() == 32 && old(self).admin_gate_error() is None
                    && old(self).primary_attestation_hash is None
                    && (final(self).primary_attestation_hash matches Some(d) && d@ == digest@)
                    && *final(self) == (LiquifactEscrow { primary_attestation_hash: final(self).primary_attestation_hash, ..*old(self) })
                    && (final(call).emits(*old(call), seq![old(self).esc().admin], seq![],
                        seq![Event::PrimaryAttestationBound(PrimaryAttestationBound {
                            invoice_id: old(self).esc().invoice_id,
                            digest: final(self).primary_attestation_hash->Some_0,
                        })])),
                Err(e) => e == (if digest@.len() != 32 {
                        EscrowError::InvalidAttestationHashLength
                    } else if old(self).admin_gate_error() is Some {
                        old(self).admin_gate_error()->Some_0
                    } else {
                        EscrowError::PrimaryAttestationAlreadyBound
                    })
                    && !(digest@.len() == 32 && old(self).admin_gate_error() is None && old(self).primary_attestation_hash is None)
                    && *final(self) == *old(self) && *final(call) == *old(call),
            },
    {
        if digest.len() != 32 {
            return Err(EscrowError::InvalidAttestationHashLength);
        }
        let admin = match self.admin_gate() {
            Ok(a) => a,
            Err(e) => {
                return Err(e);
            },
        };
        if self.primary_attestation_hash.is_some() {
            return Err(EscrowError::PrimaryAttestationAlreadyBound);
        }
        let mut d: Digest = [0u8; 32];
        let mut i: usize = 0;
        while i < 32
            invariant
                0 <= i <= 32,
                digest@.len() == 32,
                forall|k: int| 0 <= k < i ==> d@[k] == digest@[k],
            decreases 32 - i,
        {
            d.set(i, digest[i]);
            i += 1;
        }
        assert(d@ =~= digest@);
        self.primary_attestation_hash = Some(d);
        call.require_auth(admin);
        let e = self.escrow_record();
        call.emit(Event::PrimaryAttestationBound(PrimaryAttestationBound { invoice_id: e.invoice_id, digest: d }));
        Ok(())
    }

    /// The first guard that refuses `append_attestation_digest`.
    pub open spec fn append_attestation_error(self) -> Option<EscrowError> {
        if self.admin_gate_error() is Some {
            self.admin_gate_error()
        } else if self.attestations@.len() >= MAX_ATTESTATION_APPEND_ENTRIES {
            Some(EscrowError::AttestationAppendLogCapacityReached)
        } else {
            None
        }
    }

    /// Append `digest` to the bounded attestation log (admin-authorized), stamped with
    /// the ledger time and `tag` (empty for none).
    pub fn append_attestation_digest(&mut self, call: &mut Invocation, digest: Digest, tag: String) -> (r: Result<(), EscrowError>)
        ensures
            match r {
                Ok(()) => old(self).append_attestation_error() is None
                    && *final(self) == (LiquifactEscrow { attestations: final(self).attestations, ..*old(self) })
                    && final(self).attestations@ == old(self).attestations@.push(AttestationRecord { digest, timestamp: old(call).timestamp, tag, revoked: false })
                    && (final(call).emits(*old(call), seq![old(self).esc().admin], seq![],
                        seq![Event::AttestationDigestAppended(AttestationDigestAppended {
                            invoice_id: old(self).esc().invoice_id,
                            index: old(self).attestations@.len() as u32,
                            digest,
                        })])),
                Err(e) => old(self).append_attestation_error() == Some(e)
                    && *final(self) == *old(self) && *final(call) == *old(call),
            },
    {
        let admin = match self.admin_gate() {
            Ok(a) => a,
            Err(e) => {
                return Err(e);
            },
        };
        if self.attestations.len() >= MAX_ATTESTATION_APPEND_ENTRIES as usize {
            return Err(EscrowError::AttestationAppendLogCapacityReached);
        }
        let idx = self.attestations.len() as u32;
        self.attestations.push(AttestationRecord { digest, timestamp: call.timestamp, tag, revoked: false });
        call.require_auth(admin);
        let e = self.escrow_record();
        call.emit(Event::AttestationDigestAppended(AttestationDigestAppended { invoice_id: e.invoice_id, index: idx, digest }));
        Ok(())
    }

    /// The first guard that refuses `revoke_attestation_digest(index)`.
    pub open spec fn revoke_attestation_error(self, index: u32) -> Option<EscrowError> {
        if self.escrow is None {
            Some(EscrowError::EscrowNotInitialized)
        } else if index >= self.attestations@.len() {
            Some(EscrowError::AttestationIndexOutOfRange)
        } else if self.attestations@[index as int].revoked {
            Some(EscrowError::AttestationAlreadyRevoked)
        } else {
            None
        }
    }

    /// Mark log entry `index` revoked (admin-authorized); the entry stays in the log
    /// and keeps its slot.
    pub fn revoke_attestation_digest(&mut self, call: &mut Invocation, index: u32) -> (r: Result<(), EscrowError>)
        ensures
            match r {
                Ok(()) => old(self).revoke_attestation_error(index) is None
                    && *final(self) == (LiquifactEscrow { attestations: final(self).attestations, ..*old(self) })
                    && final(self).attestations@ == old(self).attestations@.update(
                        index as int,
                        AttestationRecord { revoked: true, ..old(self).attestations@[index as int] },
                    )
                    && (final(call).emits(*old(call), seq![old(self).esc().admin], seq![],
                        seq![Event::AttestationDigestRevoked(AttestationDigestRevoked { invoice_id: old(self).esc().invoice_id, index })])),
                Err(e) => old(self).revoke_attestation_error(index) == Some(e)
                    && *final(self) == *old(self) && *final(call) == *old(call),
            },
    {
        let admin = match &self.escrow {
            Some(e) => e.admin,
            None => {
                return Err(EscrowError::EscrowNotInitialized);
            },
        };
        let i = index as usize;
        if i >= self.attestations.len() {
            return Err(EscrowError::AttestationIndexOutOfRange);
        }
        if self.attestations[i].revoked {
            return Err(EscrowError::AttestationAlreadyRevoked);
        }
        self.attestations[i].revoked = true;
        call.require_auth(admin);
        let e = self.escrow_record();
        call.emit(Event::AttestationDigestRevoked(AttestationDigestRevoked { invoice_id: e.invoice_id, index }));
        Ok(())
    }

    /// Whether log entry `index` is revoked (false for an index past the log).
    pub fn is_attestation_revoked(&self, index: u32) -> (r: bool)
        ensures
            r == (index < self.attestations@.len() && self.attestations@[index as int].revoked),
    {
        let i = index as usize;
        i < self.attestations.len() && self.attestations[i].revoked
    }

    /// The digests of the attestation log, in append order.
    pub fn get_attestation_append_log(&self) -> (r: Vec<Digest>)
        ensures
            r@.len() == self.attestations@.len(),
            forall|i: int| 0 <= i < r@.len() ==> r@[i] == self.attestations@[i].digest,
    {
        let mut out: Vec<Digest> = Vec::new();
        let n = self.attestations.len();
        let mut i: usize = 0;
        while i < n
            invariant
                n == self.attestations@.len(),
                0 <= i <= n,
                out@.len() == i,
                forall|k: int| 0 <= k < i ==> out@[k] == self.attestations@[k].digest,
            decreases n - i,
        {
            out.push(self.attestations[i].digest);
            i += 1;
        }
        out
    }

    /// One page of the attestation log entries that pass `filters`: the matching
    /// entries, in log order, skipping `offset` of them and keeping at most `limit`,
    /// with the number of matching entries.
    pub fn query_attestation_logs(&self, filters: &AuditLogFilter, limit: u32, offset: u32) -> (r: AuditLogPage)
        requires
            self.attestations@.len() <= u32::MAX,
        ensures
            ({
                let all = matching_entries(self.attestations@, *filters, self.attestations@.len() as int);
                let start = if offset < all.len() { offset as int } else { all.len() as int };
                let end = if offset + limit < all.len() { offset + limit } else { all.len() as int };
                &&& r.total_count == all.len()
                &&& r.entries@.len() == if end > start { end - start } else { 0 }
                &&& forall|k: int| 0 <= k < r.entries@.len() ==> same_entry(#[trigger] r.entries@[k], all[start + k])
            }),
    {
        let n = self.attestations.len();
        let ghost log = self.attestations@;
        let mut all: Vec<AttestationLogEntry> = Vec::new();
        let mut i: usize = 0;
        while i < n
            invariant
                n == log.len(),
                log == self.attestations@,
                n <= u32::MAX,
                0 <= i <= n,
                all@.len() == matching_entries(log, *filters, i as int).len(),
                forall|k: int| 0 <= k < all@.len() ==> same_entry(#[trigger] all@[k], matching_entries(log, *filters, i as int)[k]),
            decreases n - i,
        {
            let rec = &self.attestations[i];
            let mut pass = true;
            match filters.after_timestamp {
                Some(after) => if rec.timestamp < after {
                    pass = false;
                },
                None => {},
            }
            match &filters.tag_prefix {
                Some(t) => if rec.tag != *t {
                    pass = false;
                },
                None => {},
            }
            if pass {
                all.push(AttestationLogEntry {
                    digest: rec.digest,
                    index: i as u32,
                    timestamp: rec.timestamp,
                    tag: rec.tag.clone(),
                    revoked: rec.revoked,
                });
            }
            i += 1;
        }
        proof {
            lemma_matching_len(log, *filters, n as int);
        }
        let total = all.len() as u32;
        let start: u32 = if offset < total { offset } else { total };
        let sum: u32 = match offset.checked_add(limit) {
            Some(v) => v,
            None => u32::MAX,
        };
        let end: u32 = if sum < total { sum } else { total };
        let mut page: Vec<AttestationLogEntry> = Vec::new();
        let mut j: u32 = start;
        while j < end
            invariant
                start <= j <= end,
                end <= total,
                total == all@.len(),
                page@.len() == j - start,
                forall|k: int| 0 <= k < page@.len() ==> same_entry(#[trigger] page@[k], all@[start + k]),
            decreases end - j,
        {
            let e = &all[j as usize];
            page.push(AttestationLogEntry {
                digest: e.digest,
                index: e.index,
                timestamp: e.timestamp,
                tag: e.tag.clone(),
                revoked: e.revoked,
            });
            j += 1;
        }
        AuditLogPage { entries: page, total_count: total }
    }
}

} // verus!
