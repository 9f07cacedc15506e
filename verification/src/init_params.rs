use vstd::prelude::*;

use crate::error::EscrowError;
use crate::validation::{invoice_id_error, validate_invoice_id};

verus! {

/// Upper bound for basis points (100% = 10 000 bps).
pub const MAX_BPS: u32 = 10_000;

/// One tier of an init request: a minimum amount and its rate.
#[derive(Copy, Clone, Debug, PartialEq, Eq, Structural)]
pub struct TierParams {
    pub min_amount: i128,
    pub bps: u32,
}

/// The parameters of an init request checked by [`validate_init`].
#[derive(Debug)]
pub struct InitParams {
    pub invoice_id: String,
    pub funding_target: i128,
    pub maturity_date: u64,
    pub yield_bps: u32,
    pub yield_tiers: Vec<TierParams>,
}

/// The first rule broken by `t[..n]`: positive minimum amounts, rates within
/// [`MAX_BPS`], strictly ascending minimum amounts.
pub open spec fn tier_params_error(t: Seq<TierParams>, n: int) -> Option<&'static str>
    decreases n,
{
    if n <= 0 {
        None
    } else if tier_params_error(t, n - 1) is Some {
        tier_params_error(t, n - 1)
    } else if t[n - 1].min_amount <= 0 {
        Some("yield tier min_amount must be positive")
    } else if t[n - 1].bps > MAX_BPS {
        Some("yield tier bps out of range")
    } else if n >= 2 && t[n - 1].min_amount <= t[n - 2].min_amount {
        Some("yield tiers must be strictly ascending")
    } else {
        None
    }
}

proof fn lemma_tier_params_error_stable(t: Seq<TierParams>, k: int, n: int)
    requires
        0 <= k <= n,
        tier_params_error(t, k) is Some,
    ensures
        tier_params_error(t, n) == tier_params_error(t, k),
    decreases n - k,
{
    if n > k {
        lemma_tier_params_error_stable(t, k, n - 1);
    }
}

/// The message for an invoice id that `init` refuses with `e`.
pub open spec fn id_message(e: EscrowError, empty: bool) -> &'static str {
    if e == EscrowError::InvoiceIdInvalidCharset {
        "invoice_id contains invalid characters"
    } else if empty {
        "invoice_id must not be empty"
    } else {
        "invoice_id exceeds maximum length"
    }
}

/// The first rule an init request breaks, if any, with its message. The invoice id,
/// target and yield are judged by the rules of `init` itself (see
/// [`crate::validation::invoice_id_error`]); a maturity of 0 means no maturity lock and
/// is accepted, as `init` accepts it.
pub open spec fn init_params_error(p: InitParams) -> Option<&'static str> {
    let bytes = vstd::utf8::encode_utf8(p.invoice_id@);
    if invoice_id_error(bytes) is Some {
        Some(id_message(invoice_id_error(bytes)->Some_0, bytes.len() == 0))
    } else if p.funding_target <= 0 {
        Some("funding_target must be positive")
    } else if p.yield_bps > MAX_BPS {
        Some("yield_bps out of range")
    } else {
        tier_params_error(p.yield_tiers@, p.yield_tiers@.len() as int)
    }
}

/// Validate an init request the way `init` validates it: the invoice id, the target
/// (the invoice amount) and the yield as `init` checks them, and well-formed ascending
/// tiers.
pub fn validate_init(params: &InitParams) -> (r: Result<(), &'static str>)
    ensures
        match r {
            Ok(()) => init_params_error(*params) is None,
            Err(m) => init_params_error(*params) == Some(m),
        },
{
    let id = params.invoice_id.as_str();
    match validate_invoice_id(id) {
        Ok(_) => {},
        Err(e) => {
            return Err(
                if e == EscrowError::InvoiceIdInvalidCharset {
                    "invoice_id contains invalid characters"
                } else if id.as_bytes().len() == 0 {
                    "invoice_id must not be empty"
                } else {
                    "invoice_id exceeds maximum length"
                },
            );
        },
    }
    if params.funding_target <= 0 {
        return Err("funding_target must be positive");
    }
    if params.yield_bps > MAX_BPS {
        return Err("yield_bps out of range");
    }
    let t = &params.yield_tiers;
    let m = t.len();
    let mut k: usize = 0;
    assert(init_params_error(*params) == tier_params_error(t@, m as int));
    while k < m
        invariant
            m == t@.len(),
            init_params_error(*params) == tier_params_error(t@, m as int),
            0 <= k <= m,
            tier_params_error(t@, k as int) is None,
        decreases m - k,
    {
        let tier = t[k];
        if tier.min_amount <= 0 {
            assert(tier_params_error(t@, k + 1) == Some("yield tier min_amount must be positive"));
            proof {
                lemma_tier_params_error_stable(t@, k + 1, m as int);
            }
            return Err("yield tier min_amount must be positive");
        }
        if tier.bps > MAX_BPS {
            assert(tier_params_error(t@, k + 1) == Some("yield tier bps out of range"));
            proof {
                lemma_tier_params_error_stable(t@, k + 1, m as int);
            }
            return Err("yield tier bps out of range");
        }
        if k > 0 && tier.min_amount <= t[k - 1].min_amount {
            proof {
                lemma_tier_params_error_stable(t@, k + 1, m as int);
            }
            return Err("yield tiers must be strictly ascending");
        }
        k += 1;
    }
    Ok(())
}

} // verus!
