//! The cancellation engine: terminates a live order and returns every
//! remaining committed unit to the client.

use crate::accounts::CancelOrder;
use crate::order::{
    Address, ErrorCode, OrdStatus, Side, StoplossState, TokenTransfer, primary_leaves_qty,
};
use vstd::prelude::*;

verus! {

/// Why a cancellation request is rejected, if it is: wrong principal first,
/// then a terminal status.
pub open spec fn cancel_error(s: StoplossState, authority: Address) -> Option<ErrorCode> {
    if authority != s.amend_authority {
        Some(ErrorCode::IncorrectAmendAccount)
    } else if s.ord_status == OrdStatus::Filled {
        Some(ErrorCode::OrderAlreadyFilled)
    } else if s.ord_status == OrdStatus::Cancelled {
        Some(ErrorCode::OrderAlreadyCancelled)
    } else {
        None
    }
}

/// The refund a cancellation owes the client: the primary leg's remaining
/// quantity, moved from the custody vault back to that leg's client wallet.
pub open spec fn cancel_refund(s: StoplossState, accounts: CancelOrder) -> TokenTransfer {
    TokenTransfer {
        from: accounts.stoploss_paying_vault,
        to: match s.side {
            Side::Ask => accounts.coin_wallet,
            Side::Bid => accounts.pc_wallet,
        },
        authority: accounts.vault_owner,
        amount: primary_leaves_qty(s),
    }
}

/// Cancels a live parent order: zeroes the remaining quantity on both legs,
/// marks the ledger `Cancelled` and returns the refund the host runtime must
/// perform. The caller performs the refund and keeps the mutated ledger only
/// if the refund succeeded; cancellation of an already terminal order fails
/// and leaves the ledger unchanged.
pub fn cancel_order(state: &mut StoplossState, accounts: &CancelOrder) -> (r: Result<
    TokenTransfer,
    ErrorCode,
>)
    ensures
        r is Err <==> cancel_error(*old(state), accounts.authority) is Some,
        r matches Err(e) ==> Some(e) == cancel_error(*old(state), accounts.authority)
            && *final(state) == *old(state),
        r matches Ok(refund) ==> refund == cancel_refund(*old(state), *accounts) && *final(state)
            == (StoplossState {
            coin_leaves_qty: 0,
            pc_leaves_qty: 0,
            ord_status: OrdStatus::Cancelled,
            ..*old(state)
        }),
        r is Ok ==> final(state).coin_leaves_qty == 0 && final(state).pc_leaves_qty == 0,
{
    if accounts.authority != state.amend_authority {
        return Err(ErrorCode::IncorrectAmendAccount);
    }
    if state.ord_status == OrdStatus::Filled {
        return Err(ErrorCode::OrderAlreadyFilled);
    }
    if state.ord_status == OrdStatus::Cancelled {
        return Err(ErrorCode::OrderAlreadyCancelled);
    }

    let (amount, receiving_wallet) = match state.side {
        Side::Ask => (state.coin_leaves_qty, accounts.coin_wallet),
        Side::Bid => (state.pc_leaves_qty, accounts.pc_wallet),
    };

    let refund = TokenTransfer {
        from: accounts.stoploss_paying_vault,
        to: receiving_wallet,
        authority: accounts.vault_owner,
        amount,
    };

    state.coin_leaves_qty = 0;
    state.pc_leaves_qty = 0;
    state.ord_status = OrdStatus::Cancelled;

    Ok(refund)
}

} // verus!
