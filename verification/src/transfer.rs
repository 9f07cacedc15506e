use vstd::prelude::*;

use crate::error::EscrowError;

verus! {

/// Why a transfer of `amount` may not start when the sender holds `from_before`.
pub open spec fn transfer_start_error(amount: i128, from_before: i128) -> Option<EscrowError> {
    if amount <= 0 {
        Some(EscrowError::TransferAmountNotPositive)
    } else if from_before < amount {
        Some(EscrowError::InsufficientTokenBalanceBeforeTransfer)
    } else {
        None
    }
}

/// Check a funding-token transfer of `amount` before it is made: the amount is
/// positive and the sender's balance `from_before` covers it.
pub fn check_transfer_start(amount: i128, from_before: i128) -> (r: Result<(), EscrowError>)
    ensures
        match r {
            Ok(()) => transfer_start_error(amount, from_before) is None,
            Err(e) => transfer_start_error(amount, from_before) == Some(e),
        },
{
    if amount <= 0 {
        return Err(EscrowError::TransferAmountNotPositive);
    }
    if from_before < amount {
        return Err(EscrowError::InsufficientTokenBalanceBeforeTransfer);
    }
    Ok(())
}

/// Why the balances read around a transfer of `amount` do not show exactly that
/// amount moving from sender to recipient.
pub open spec fn transfer_delta_error(amount: i128, from_before: i128, to_before: i128, from_after: i128, to_after: i128) -> Option<EscrowError> {
    if from_before - from_after < i128::MIN || from_before - from_after > i128::MAX {
        Some(EscrowError::SenderBalanceUnderflow)
    } else if to_after - to_before < i128::MIN || to_after - to_before > i128::MAX {
        Some(EscrowError::RecipientBalanceUnderflow)
    } else if from_before - from_after != amount {
        Some(EscrowError::SenderBalanceDeltaMismatch)
    } else if to_after - to_before != amount {
        Some(EscrowError::RecipientBalanceDeltaMismatch)
    } else {
        None
    }
}

/// Check the balances read after a transfer of `amount`: the sender's balance fell
/// by exactly `amount` and the recipient's rose by exactly `amount`.
pub fn check_transfer_deltas(amount: i128, from_before: i128, to_before: i128, from_after: i128, to_after: i128) -> (r: Result<(), EscrowError>)
    ensures
        match r {
            Ok(()) => transfer_delta_error(amount, from_before, to_before, from_after, to_after) is None,
            Err(e) => transfer_delta_error(amount, from_before, to_before, from_after, to_after) == Some(e),
        },
{
    let spent = match from_before.checked_sub(from_after) {
        Some(v) => v,
        None => {
            return Err(EscrowError::SenderBalanceUnderflow);
        },
    };
    let received = match to_after.checked_sub(to_before) {
        Some(v) => v,
        None => {
            return Err(EscrowError::RecipientBalanceUnderflow);
        },
    };
    if spent != amount {
        return Err(EscrowError::SenderBalanceDeltaMismatch);
    }
    if received != amount {
        return Err(EscrowError::RecipientBalanceDeltaMismatch);
    }
    Ok(())
}

} // verus!
