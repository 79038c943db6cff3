//! The amendment engine: resizes the outstanding quantity of a live order
//! and retargets its limit and trigger prices.
//!
//! A size reduction refunds the difference from the custody vault to the
//! client; an increase deposits it from the client into the vault. The
//! amendment redefines the committed maximum, so the quantity invariant
//! `leaves + cum == max` is preserved on both legs.

use crate::accounts::AmendOrder;
use crate::order::{
    Address, ErrorCode, OrdStatus, Side, StoplossState, TokenTransfer, quantities_consistent,
};
use vstd::prelude::*;

verus! {

/// The already-filled quantity on the order's primary leg.
pub open spec fn primary_cum_qty(s: StoplossState) -> u64 {
    match s.side {
        Side::Bid => s.pc_cum_qty,
        Side::Ask => s.coin_cum_qty,
    }
}

/// The committed maximum on the order's primary leg.
pub open spec fn primary_max_qty(s: StoplossState) -> u64 {
    match s.side {
        Side::Bid => s.max_pc_qty,
        Side::Ask => s.max_coin_qty,
    }
}

/// Why an amendment request is rejected, if it is: wrong principal first,
/// then a terminal status, then a size below what has already filled.
pub open spec fn amend_error(s: StoplossState, authority: Address, new_quantity: u64) -> Option<
    ErrorCode,
> {
    if authority != s.amend_authority {
        Some(ErrorCode::IncorrectAmendAccount)
    } else if s.ord_status == OrdStatus::Filled {
        Some(ErrorCode::OrderAlreadyFilled)
    } else if s.ord_status == OrdStatus::Cancelled {
        Some(ErrorCode::OrderAlreadyCancelled)
    } else if new_quantity < primary_cum_qty(s) {
        Some(ErrorCode::AlreadyFilledMoreThanRequestedAmendSize)
    } else {
        None
    }
}

/// The ledger after a successful amendment: the primary leg's maximum is
/// redefined to the new quantity and its remaining quantity moves by the
/// same difference; limit and trigger prices are replaced; the order is
/// `Filled` once nothing remains on either leg.
pub open spec fn amended_ledger(
    s: StoplossState,
    limit_price: u64,
    new_quantity: u64,
    trigger_price: u64,
) -> StoplossState
    recommends
        quantities_consistent(s),
        new_quantity >= primary_cum_qty(s),
{
    let resized = match s.side {
        Side::Bid => StoplossState {
            pc_leaves_qty: (s.pc_leaves_qty + new_quantity - s.max_pc_qty) as u64,
            max_pc_qty: new_quantity,
            limit_price,
            trigger_price,
            ..s
        },
        Side::Ask => StoplossState {
            coin_leaves_qty: (s.coin_leaves_qty + new_quantity - s.max_coin_qty) as u64,
            max_coin_qty: new_quantity,
            limit_price,
            trigger_price,
            ..s
        },
    };
    if resized.coin_leaves_qty == 0 && resized.pc_leaves_qty == 0 {
        StoplossState { ord_status: OrdStatus::Filled, ..resized }
    } else {
        resized
    }
}

/// The fund movement a successful amendment owes: a refund of the size
/// reduction from the custody vault to the primary leg's client wallet, or a
/// deposit of the size increase from that wallet into the vault; none when
/// the size is unchanged.
pub open spec fn amend_transfer(s: StoplossState, accounts: AmendOrder, new_quantity: u64) -> Option<
    TokenTransfer,
> {
    let wallet = match s.side {
        Side::Bid => accounts.pc_wallet,
        Side::Ask => accounts.coin_wallet,
    };
    if new_quantity < primary_max_qty(s) {
        Some(
            TokenTransfer {
                from: accounts.stoploss_paying_vault,
                to: wallet,
                authority: accounts.vault_owner,
                amount: (primary_max_qty(s) - new_quantity) as u64,
            },
        )
    } else if new_quantity > primary_max_qty(s) {
        Some(
            TokenTransfer {
                from: wallet,
                to: accounts.stoploss_paying_vault,
                authority: accounts.authority,
                amount: (new_quantity - primary_max_qty(s)) as u64,
            },
        )
    } else {
        None
    }
}

/// Amends a live parent order to a new primary-leg quantity, limit price and
/// trigger price, and returns the refund or deposit the host runtime must
/// perform. An amendment below the already-filled quantity fails and leaves
/// the ledger unchanged; one that reduces the remaining quantity to zero on
/// both legs fills the order.
pub fn amend_order(
    state: &mut StoplossState,
    accounts: &AmendOrder,
    limit_price: u64,
    _client_order_id: u64,
    new_quantity: u64,
    trigger_price: u64,
) -> (r: Result<Option<TokenTransfer>, ErrorCode>)
    requires
        quantities_consistent(*old(state)),
    ensures
        r is Err <==> amend_error(*old(state), accounts.authority, new_quantity) is Some,
        r matches Err(e) ==> Some(e) == amend_error(*old(state), accounts.authority, new_quantity)
            && *final(state) == *old(state),
        r matches Ok(movement) ==> *final(state) == amended_ledger(
            *old(state),
            limit_price,
            new_quantity,
            trigger_price,
        ) && movement == amend_transfer(*old(state), *accounts, new_quantity),
        r is Ok ==> quantities_consistent(*final(state)),
        r is Ok && final(state).ord_status == OrdStatus::Filled ==> final(state).coin_leaves_qty
            == 0 && final(state).pc_leaves_qty == 0,
{
    if accounts.authority != state.amend_authority {
        return Err(ErrorCode::IncorrectAmendAccount);
    }
    if state.ord_status == OrdStatus::Filled {
        return Err(ErrorCode::OrderAlreadyFilled);
    }
    if state.ord_status == OrdStatus::Cancelled {
        return Err(ErrorCode::OrderAlreadyCancelled);
    }

    let movement: Option<TokenTransfer> = match state.side {
        Side::Bid => {
            if new_quantity < state.pc_cum_qty {
                return Err(ErrorCode::AlreadyFilledMoreThanRequestedAmendSize);
            } else if state.max_pc_qty > new_quantity {
                let delta = state.max_pc_qty - new_quantity;
                state.pc_leaves_qty = state.pc_leaves_qty - delta;
                state.max_pc_qty = new_quantity;
                Some(
                    TokenTransfer {
                        from: accounts.stoploss_paying_vault,
                        to: accounts.pc_wallet,
                        authority: accounts.vault_owner,
                        amount: delta,
                    },
                )
            } else if state.max_pc_qty < new_quantity {
                let delta = new_quantity - state.max_pc_qty;
                state.pc_leaves_qty = state.pc_leaves_qty + delta;
                state.max_pc_qty = new_quantity;
                Some(
                    TokenTransfer {
                        from: accounts.pc_wallet,
                        to: accounts.stoploss_paying_vault,
                        authority: accounts.authority,
                        amount: delta,
                    },
                )
            } else {
                None
            }
        },
        Side::Ask => {
            if new_quantity < state.coin_cum_qty {
                return Err(ErrorCode::AlreadyFilledMoreThanRequestedAmendSize);
            } else if state.max_coin_qty > new_quantity {
                let delta = state.max_coin_qty - new_quantity;
                state.coin_leaves_qty = state.coin_leaves_qty - delta;
                state.max_coin_qty = new_quantity;
                Some(
                    TokenTransfer {
                        from: accounts.stoploss_paying_vault,
                        to: accounts.coin_wallet,
                        authority: accounts.vault_owner,
                        amount: delta,
                    },
                )
            } else if state.max_coin_qty < new_quantity {
                let delta = new_quantity - state.max_coin_qty;
                state.coin_leaves_qty = state.coin_leaves_qty + delta;
                state.max_coin_qty = new_quantity;
                Some(
                    TokenTransfer {
                        from: accounts.coin_wallet,
                        to: accounts.stoploss_paying_vault,
                        authority: accounts.authority,
                        amount: delta,
                    },
                )
            } else {
                None
            }
        },
    };

    state.limit_price = limit_price;
    state.trigger_price = trigger_price;

    if state.coin_leaves_qty == 0 && state.pc_leaves_qty == 0 {
        state.ord_status = OrdStatus::Filled;
    }

    Ok(movement)
}

} // verus!
