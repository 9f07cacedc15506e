use vstd::prelude::*;

use crate::constants::MAX_INVOICE_ID_STRING_LEN;
use crate::error::EscrowError;
use crate::types::YieldTier;

verus! {

/// Bytes allowed in an invoice id: ASCII letters, digits and `_`.
pub open spec fn is_invoice_id_byte(b: u8) -> bool {
    (48 <= b <= 57) || (65 <= b <= 90) || (97 <= b <= 122) || b == 95
}

/// Why an invoice id (as UTF-8 bytes) is rejected, if it is.
pub open spec fn invoice_id_error(bytes: Seq<u8>) -> Option<EscrowError> {
    if bytes.len() == 0 || bytes.len() > MAX_INVOICE_ID_STRING_LEN {
        Some(EscrowError::InvoiceIdInvalidLength)
    } else if exists|i: int| 0 <= i < bytes.len() && !is_invoice_id_byte(#[trigger] bytes[i]) {
        Some(EscrowError::InvoiceIdInvalidCharset)
    } else {
        None
    }
}

/// Validate an invoice id: 1 to [`MAX_INVOICE_ID_STRING_LEN`] bytes of ASCII letters,
/// digits and `_`.
pub fn validate_invoice_id(id: &str) -> (r: Result<String, EscrowError>)
    ensures
        match r {
            Ok(s) => invoice_id_error(vstd::utf8::encode_utf8(id@)) is None && s@ == id@,
            Err(e) => invoice_id_error(vstd::utf8::encode_utf8(id@)) == Some(e),
        },
{
    let bytes = id.as_bytes();
    let n = bytes.len();
    if n == 0 || n > MAX_INVOICE_ID_STRING_LEN as usize {
        return Err(EscrowError::InvoiceIdInvalidLength);
    }
    let mut i: usize = 0;
    while i < n
        invariant
            n == bytes@.len(),
            0 < n <= MAX_INVOICE_ID_STRING_LEN,
            bytes@ == vstd::utf8::encode_utf8(id@),
            i <= n,
            forall|j: int| 0 <= j < i ==> is_invoice_id_byte(#[trigger] bytes@[j]),
        decreases n - i,
    {
        let b = bytes[i];
        if !((48 <= b && b <= 57) || (65 <= b && b <= 90) || (97 <= b && b <= 122) || b == 95) {
            assert(!is_invoice_id_byte(bytes@[i as int]));
            return Err(EscrowError::InvoiceIdInvalidCharset);
        }
        i += 1;
    }
    Ok(id.to_owned())
}

/// The ladder as a sequence, when one is configured.
pub open spec fn tiers_view(tiers: Option<Vec<YieldTier>>) -> Option<Seq<YieldTier>> {
    match tiers {
        Some(v) => Some(v@),
        None => None,
    }
}

/// The rule that tier `i` of a ladder breaks, if any.
pub open spec fn tier_error_at(t: Seq<YieldTier>, base: i64, i: int) -> Option<EscrowError> {
    if !(0 <= t[i].yield_bps <= 10_000) {
        Some(EscrowError::TierYieldOutOfRange)
    } else if t[i].yield_bps < base {
        Some(EscrowError::TierYieldBelowBase)
    } else if i > 0 && t[i].min_lock_secs <= t[i - 1].min_lock_secs {
        Some(EscrowError::TierLockNotIncreasing)
    } else if i > 0 && t[i].yield_bps < t[i - 1].yield_bps {
        Some(EscrowError::TierYieldNotNonDecreasing)
    } else {
        None
    }
}

/// The first rule broken among the first `n` tiers.
pub open spec fn tiers_error_prefix(t: Seq<YieldTier>, base: i64, n: int) -> Option<EscrowError>
    decreases n,
{
    if n <= 0 {
        None
    } else {
        match tiers_error_prefix(t, base, n - 1) {
            Some(e) => Some(e),
            None => tier_error_at(t, base, n - 1),
        }
    }
}

/// Once some prefix of a ladder breaks a rule, every longer prefix reports that rule.
proof fn lemma_tiers_error_stable(t: Seq<YieldTier>, base: i64, k: int, n: int)
    requires
        0 <= k <= n,
        tiers_error_prefix(t, base, k) is Some,
    ensures
        tiers_error_prefix(t, base, n) == tiers_error_prefix(t, base, k),
    decreases n - k,
{
    if n > k {
        lemma_tiers_error_stable(t, base, k, n - 1);
    }
}

/// Why a tier ladder is rejected against base yield `base`, if it is: every tier's
/// yield lies in `0..=10_000` and is at least `base`; lock times strictly increase
/// and yields never decrease along the ladder.
pub open spec fn tiers_error(tiers: Option<Seq<YieldTier>>, base: i64) -> Option<EscrowError> {
    match tiers {
        Some(t) => tiers_error_prefix(t, base, t.len() as int),
        None => None,
    }
}

/// Validate a tier ladder (see [`tiers_error`]).
pub fn validate_yield_tiers_table(tiers: &Option<Vec<YieldTier>>, base_yield: i64) -> (r: Result<(), EscrowError>)
    ensures
        match r {
            Ok(()) => tiers_error(tiers_view(*tiers), base_yield) is None,
            Err(e) => tiers_error(tiers_view(*tiers), base_yield) == Some(e),
        },
{
    match tiers {
        None => Ok(()),
        Some(t) => {
            let n = t.len();
            let mut i: usize = 0;
            while i < n
                invariant
                    n == t@.len(),
                    i <= n,
                    tiers_view(*tiers) == Some(t@),
                    tiers_error_prefix(t@, base_yield, i as int) is None,
                decreases n - i,
            {
                let x = t[i];
                if !(0 <= x.yield_bps && x.yield_bps <= 10_000) {
                    proof {
                        assert(tier_error_at(t@, base_yield, i as int) == Some(EscrowError::TierYieldOutOfRange));
                        assert(tiers_error_prefix(t@, base_yield, i + 1) == Some(EscrowError::TierYieldOutOfRange));
                        lemma_tiers_error_stable(t@, base_yield, i + 1, n as int);
                    }
                    return Err(EscrowError::TierYieldOutOfRange);
                }
                if x.yield_bps < base_yield {
                    proof {
                        assert(tier_error_at(t@, base_yield, i as int) == Some(EscrowError::TierYieldBelowBase));
                        assert(tiers_error_prefix(t@, base_yield, i + 1) == Some(EscrowError::TierYieldBelowBase));
                        lemma_tiers_error_stable(t@, base_yield, i + 1, n as int);
                    }
                    return Err(EscrowError::TierYieldBelowBase);
                }
                if i > 0 {
                    let p = t[i - 1];
                    if x.min_lock_secs <= p.min_lock_secs {
                        proof {
                        lemma_tiers_error_stable(t@, base_yield, i + 1, n as int);
                    }
                    return Err(EscrowError::TierLockNotIncreasing);
                    }
                    if x.yield_bps < p.yield_bps {
                        proof {
                        lemma_tiers_error_stable(t@, base_yield, i + 1, n as int);
                    }
                    return Err(EscrowError::TierYieldNotNonDecreasing);
                    }
                }
                i += 1;
            }
            Ok(())
        },
    }
}

/// Best `(yield, lock)` among the first `n` tiers whose lock the commitment meets,
/// starting from `(base, 0)`; a tier replaces the best only with a strictly higher
/// yield.
pub open spec fn best_tier_prefix(t: Seq<YieldTier>, committed: u64, base: i64, n: int) -> (i64, u64)
    decreases n,
{
    if n <= 0 {
        (base, 0)
    } else {
        let prev = best_tier_prefix(t, committed, base, n - 1);
        if committed >= t[n - 1].min_lock_secs && t[n - 1].yield_bps > prev.0 {
            (t[n - 1].yield_bps, t[n - 1].min_lock_secs)
        } else {
            prev
        }
    }
}

/// `(effective yield, matched lock)` for a first deposit committing
/// `committed` seconds: the base yield with lock 0 when nothing is committed or no
/// ladder exists, else the best matching tier.
pub open spec fn effective_yield(tiers: Option<Seq<YieldTier>>, base: i64, committed: u64) -> (i64, u64) {
    if committed == 0 {
        (base, 0)
    } else {
        match tiers {
            Some(t) => best_tier_prefix(t, committed, base, t.len() as int),
            None => (base, 0),
        }
    }
}

/// Compute [`effective_yield`].
pub fn effective_yield_for_commitment(tiers: &Option<Vec<YieldTier>>, base_yield: i64, committed_lock_secs: u64) -> (r: (i64, u64))
    ensures
        r == effective_yield(tiers_view(*tiers), base_yield, committed_lock_secs),
{
    if committed_lock_secs == 0 {
        return (base_yield, 0);
    }
    match tiers {
        None => (base_yield, 0),
        Some(t) => {
            let n = t.len();
            let mut best = base_yield;
            let mut best_lock: u64 = 0;
            let mut i: usize = 0;
            while i < n
                invariant
                    n == t@.len(),
                    i <= n,
                    (best, best_lock) == best_tier_prefix(t@, committed_lock_secs, base_yield, i as int),
                decreases n - i,
            {
                let x = t[i];
                if committed_lock_secs >= x.min_lock_secs && x.yield_bps > best {
                    best = x.yield_bps;
                    best_lock = x.min_lock_secs;
                }
                i += 1;
            }
            (best, best_lock)
        },
    }
}

} // verus!
