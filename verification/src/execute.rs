//! The execution engine: validates a child execution request, plans the
//! immediate-or-cancel child order for the venue, and — once the host
//! runtime has placed the order, settled the proceeds and re-read the
//! balances — reconciles the fill into the ledger.
//!
//! The venue call itself stands between the two halves: `execute_order`
//! decides everything before it, `settle_execution` everything after it.
//! What filled is never reported directly; it is inferred from the balance
//! deltas the host runtime snapshots around the call.

use crate::accounts::ExecuteOrder;
use crate::order::{
    Address, ErrorCode, OrdStatus, OrderType, Side, StoplossCreatedChildOrder, StoplossOrderUpdate,
    StoplossState, TokenTransfer, primary_leaves_qty, quantities_consistent,
};
use crate::position::{
    PositionChanges, client_coin_delta_of, client_pc_delta_of, sl_coin_delta_of, sl_pc_delta_of,
};
use crate::pricing::{calculate_price_lots, coin_lots, lots_of, price_of};
use vstd::prelude::*;

verus! {

/// The immediate-or-cancel child order the host runtime is to submit to the
/// venue, with the account that funds it.
#[derive(Clone, Copy, Debug, PartialEq, Eq, Structural)]
pub struct ChildOrderPlan {
    pub side: Side,
    /// The parent's limit price; the child never trades outside it.
    pub limit_price: u64,
    /// Cap on the base leg: the execution size in venue lots for an ask,
    /// unconstrained for a bid.
    pub max_coin_qty: u64,
    /// Cap on the quote leg including fees: the execution size for a bid,
    /// unconstrained for an ask.
    pub max_pc_qty: u64,
    /// The composite (parent, child) identifier the venue sees.
    pub client_order_id: u64,
    pub order_type: OrderType,
    /// Self-trades decrement the taker side rather than matching.
    pub self_trade_decrement_take: bool,
    /// Cap on the number of matching iterations at the venue.
    pub max_matches: u16,
    /// The custody vault that funds the child order.
    pub paying_account: Address,
}

/// Everything a settled execution attempt hands back to the host runtime:
/// the reconciled fill quantities, the onward transfer of proceeds (when the
/// unfilled remainder is kept for reuse), and the notification contents.
/// A no-op attempt carries no transfer and no notifications.
#[derive(Clone, Copy, Debug, PartialEq, Eq, Structural)]
pub struct ExecutionOutcome {
    pub pc_qty_filled: u64,
    pub coin_qty_filled: u64,
    pub proceeds_transfer: Option<TokenTransfer>,
    pub parent_update: Option<StoplossOrderUpdate>,
    pub child_update: Option<StoplossCreatedChildOrder>,
}

/// Whether a child execution's limit lies outside the parent's bound: above
/// it for a bid, below it for an ask.
pub open spec fn limit_violated(s: StoplossState, execute_limit: u64) -> bool {
    ||| s.side == Side::Bid && execute_limit > s.limit_price
    ||| s.side == Side::Ask && execute_limit < s.limit_price
}

/// Why an execution request is rejected, if it is: a terminal status first,
/// then a missing signature, a wrong principal, and last a limit violation.
pub open spec fn execute_error(
    s: StoplossState,
    authority: Address,
    authority_is_signer: bool,
    execute_limit: u64,
) -> Option<ErrorCode> {
    if s.ord_status == OrdStatus::Cancelled {
        Some(ErrorCode::AttemptingToExecuteCancelledOrder)
    } else if s.ord_status == OrdStatus::Filled {
        Some(ErrorCode::AttemptingToExecuteFilledOrder)
    } else if !authority_is_signer {
        Some(ErrorCode::MissingSignalProviderSignature)
    } else if authority != s.signal_provider {
        Some(ErrorCode::IncorrectSignalProviderAccount)
    } else if limit_violated(s, execute_limit) {
        Some(ErrorCode::AttemptingToExecuteOutsideParentLimit)
    } else {
        None
    }
}

/// The composite identifier of the next child order: the parent's order id
/// shifted one decimal digit, plus the child counter.
pub open spec fn composite_order_id(parent_order_id: u64, child_order_count: u64) -> int {
    parent_order_id * 10 + child_order_count
}

/// The child order a valid execution request plans: capped by the execution
/// size on the order's primary leg, unconstrained on the other, funded from
/// the primary leg's custody vault.
pub open spec fn child_order_plan(
    s: StoplossState,
    accounts: ExecuteOrder,
    execute_qty: u64,
    coin_lot_size: u64,
) -> ChildOrderPlan
    recommends
        s.side == Side::Ask ==> coin_lot_size != 0,
{
    ChildOrderPlan {
        side: s.side,
        limit_price: s.limit_price,
        max_coin_qty: match s.side {
            Side::Bid => u64::MAX,
            Side::Ask => lots_of(execute_qty, coin_lot_size) as u64,
        },
        max_pc_qty: match s.side {
            Side::Bid => execute_qty,
            Side::Ask => u64::MAX,
        },
        client_order_id: composite_order_id(s.client_order_id, s.child_order_count) as u64,
        order_type: OrderType::ImmediateOrCancel,
        self_trade_decrement_take: true,
        max_matches: 65535,
        paying_account: match s.side {
            Side::Bid => accounts.stoploss_quote_vault,
            Side::Ask => accounts.stoploss_base_vault,
        },
    }
}

/// The quote quantity that genuinely executed, inferred from the balance
/// deltas: for a bid, what left custody net of what settlement returned to
/// the client; for an ask, what the client received.
pub open spec fn pc_qty_filled_of(side: Side, p: PositionChanges) -> int {
    match side {
        Side::Bid => sl_pc_delta_of(p) - client_pc_delta_of(p),
        Side::Ask => client_pc_delta_of(p),
    }
}

/// The base quantity that genuinely executed, inferred from the balance
/// deltas: for a bid, what the client received; for an ask, what left
/// custody net of what settlement returned to the client.
pub open spec fn coin_qty_filled_of(side: Side, p: PositionChanges) -> int {
    match side {
        Side::Bid => client_coin_delta_of(p),
        Side::Ask => sl_coin_delta_of(p) - client_coin_delta_of(p),
    }
}

/// Whether the attempt moved nothing on either leg.
pub open spec fn no_fill(side: Side, p: PositionChanges) -> bool {
    pc_qty_filled_of(side, p) == 0 && coin_qty_filled_of(side, p) == 0
}

/// The quote fill the ledger is charged with. When the unfilled remainder is
/// kept for reuse, the leftover custody base-vault delta is folded in — into
/// both legs alike; that settlement policy is known to be incomplete and is
/// kept as designed.
pub open spec fn settled_pc_fill(side: Side, p: PositionChanges, reuse_unfilled: bool) -> int {
    if reuse_unfilled {
        pc_qty_filled_of(side, p) + sl_coin_delta_of(p)
    } else {
        pc_qty_filled_of(side, p)
    }
}

/// The base fill the ledger is charged with; see `settled_pc_fill`.
pub open spec fn settled_coin_fill(side: Side, p: PositionChanges, reuse_unfilled: bool) -> int {
    if reuse_unfilled {
        coin_qty_filled_of(side, p) + sl_coin_delta_of(p)
    } else {
        coin_qty_filled_of(side, p)
    }
}

/// The ledger after one settled execution attempt. The child counter always
/// advances. A no-op attempt with the remainder kept changes nothing else; a
/// no-op without it abandons the order, zeroing all quantities. A genuine
/// fill moves quantities from remaining to filled and re-derives the prices;
/// the order is then `Filled` once the primary leg is exhausted, `Cancelled`
/// on a partial immediate-or-cancel fill, and `PartiallyFilled` when the
/// remainder is kept for reuse.
pub open spec fn executed_ledger(
    s: StoplossState,
    p: PositionChanges,
    reuse_unfilled: bool,
    coin_lot_size: u64,
) -> StoplossState
    recommends
        quantities_consistent(s),
        s.child_order_count < u64::MAX,
{
    let counted = StoplossState { child_order_count: (s.child_order_count + 1) as u64, ..s };
    if no_fill(s.side, p) {
        if reuse_unfilled {
            counted
        } else {
            StoplossState {
                pc_leaves_qty: 0,
                coin_leaves_qty: 0,
                pc_cum_qty: 0,
                coin_cum_qty: 0,
                ord_status: OrdStatus::Cancelled,
                ..counted
            }
        }
    } else {
        let pc_f = settled_pc_fill(s.side, p, reuse_unfilled);
        let coin_f = settled_coin_fill(s.side, p, reuse_unfilled);
        let pc_cum = s.pc_cum_qty + pc_f;
        let coin_cum = s.coin_cum_qty + coin_f;
        let updated = StoplossState {
            pc_leaves_qty: (s.pc_leaves_qty - pc_f) as u64,
            coin_leaves_qty: (s.coin_leaves_qty - coin_f) as u64,
            pc_cum_qty: pc_cum as u64,
            coin_cum_qty: coin_cum as u64,
            last_price: price_of(pc_f as u64, coin_f as u64, coin_lot_size) as u64,
            avg_price: price_of(pc_cum as u64, coin_cum as u64, coin_lot_size) as u64,
            ..counted
        };
        let status = if reuse_unfilled {
            OrdStatus::PartiallyFilled
        } else if primary_leaves_qty(updated) == 0 {
            OrdStatus::Filled
        } else {
            OrdStatus::Cancelled
        };
        StoplossState { ord_status: status, ..updated }
    }
}

/// The onward transfer a reuse-path fill owes the client: the primary
/// proceeds, moved from the custody vault that received them to the client's
/// wallet on that leg, under the program's signing authority.
pub open spec fn proceeds_transfer_of(
    s: StoplossState,
    p: PositionChanges,
    reuse_unfilled: bool,
) -> TokenTransfer {
    match s.side {
        Side::Bid => TokenTransfer {
            from: s.stoploss_base_vault,
            to: s.client_coin_wallet,
            authority: s.pda,
            amount: settled_coin_fill(s.side, p, reuse_unfilled) as u64,
        },
        Side::Ask => TokenTransfer {
            from: s.stoploss_quote_vault,
            to: s.client_pc_wallet,
            authority: s.pda,
            amount: settled_pc_fill(s.side, p, reuse_unfilled) as u64,
        },
    }
}

/// The child-order notification one settled attempt emits, built over the
/// ledger as it stood before the attempt.
pub open spec fn child_order_notice(
    s: StoplossState,
    p: PositionChanges,
    reuse_unfilled: bool,
    filled_time: i64,
) -> StoplossCreatedChildOrder
    recommends
        s.side == Side::Bid ==> s.limit_price != 0,
{
    let pc_f = settled_pc_fill(s.side, p, reuse_unfilled);
    let coin_f = settled_coin_fill(s.side, p, reuse_unfilled);
    StoplossCreatedChildOrder {
        parent_address: s.own_address,
        parent_order_id: s.client_order_id,
        child_order_id: (s.child_order_count + 1) as u64,
        parent_child_composite_id: composite_order_id(
            s.client_order_id,
            s.child_order_count,
        ) as u64,
        market: s.market,
        side: s.side,
        requested_qty: match s.side {
            Side::Ask => s.max_coin_qty,
            Side::Bid => (s.max_pc_qty as int / s.limit_price as int) as u64,
        },
        limit_price: s.limit_price,
        base_filled_qty: coin_f as u64,
        quote_filled_qty: pc_f as u64,
        filled_time,
        ord_status: if pc_f == 0 && coin_f == 0 {
            OrdStatus::Cancelled
        } else {
            OrdStatus::PartiallyFilled
        },
        order_type: OrderType::ImmediateOrCancel,
    }
}

/// Validates a child execution request against the ledger and plans the
/// child order. Nothing is mutated here: a rejected request — a terminal
/// order, a missing or wrong signal-provider signature, or a limit outside
/// the parent's bound — fails before any side effect, and in particular a
/// limit violation always fails with the limit-violation error whatever the
/// venue's state.
pub fn execute_order(
    state: &StoplossState,
    accounts: &ExecuteOrder,
    authority_is_signer: bool,
    execute_qty: u64,
    execute_limit: u64,
    coin_lot_size: u64,
) -> (r: Result<ChildOrderPlan, ErrorCode>)
    requires
        execute_error(*state, accounts.authority, authority_is_signer, execute_limit) is None
            ==> {
            &&& state.limit_price != 0
            &&& composite_order_id(state.client_order_id, state.child_order_count) <= u64::MAX
            &&& state.side == Side::Bid ==> execute_qty != 0
            &&& state.side == Side::Ask ==> coin_lot_size != 0 && lots_of(
                execute_qty,
                coin_lot_size,
            ) != 0
        },
    ensures
        r is Err <==> execute_error(
            *state,
            accounts.authority,
            authority_is_signer,
            execute_limit,
        ) is Some,
        r matches Err(e) ==> Some(e) == execute_error(
            *state,
            accounts.authority,
            authority_is_signer,
            execute_limit,
        ),
        r matches Ok(plan) ==> plan == child_order_plan(
            *state,
            *accounts,
            execute_qty,
            coin_lot_size,
        ),
        limit_violated(*state, execute_limit) ==> r is Err,
{
    if state.ord_status == OrdStatus::Cancelled {
        return Err(ErrorCode::AttemptingToExecuteCancelledOrder);
    }
    if state.ord_status == OrdStatus::Filled {
        return Err(ErrorCode::AttemptingToExecuteFilledOrder);
    }
    if !authority_is_signer {
        return Err(ErrorCode::MissingSignalProviderSignature);
    }
    if accounts.authority != state.signal_provider {
        return Err(ErrorCode::IncorrectSignalProviderAccount);
    }
    if (state.side == Side::Bid && execute_limit > state.limit_price) || (state.side == Side::Ask
        && execute_limit < state.limit_price) {
        return Err(ErrorCode::AttemptingToExecuteOutsideParentLimit);
    }

    let (max_coin_qty, max_pc_qty, paying_account) = match state.side {
        Side::Bid => (u64::MAX, execute_qty, accounts.stoploss_quote_vault),
        Side::Ask => (
            coin_lots(execute_qty, coin_lot_size),
            u64::MAX,
            accounts.stoploss_base_vault,
        ),
    };

    let composite = state.client_order_id * 10 + state.child_order_count;

    Ok(
        ChildOrderPlan {
            side: state.side,
            limit_price: state.limit_price,
            max_coin_qty,
            max_pc_qty,
            client_order_id: composite,
            order_type: OrderType::ImmediateOrCancel,
            self_trade_decrement_take: true,
            max_matches: 65535,
            paying_account,
        },
    )
}

/// Reconciles one execution attempt into the ledger from the balance deltas
/// snapshotted around the venue call, advances the child counter, and
/// derives the transfer and notifications the host runtime still owes.
///
/// Settlement only ever follows a successful `execute_order` validation, so
/// the ledger is not terminal at entry. The remaining preconditions bound
/// the deltas by what the ledger still carries and keep the price
/// arithmetic in range; under sane venue behaviour they always hold, and
/// the host runtime checks them before calling, treating a violation as
/// fatal.
pub fn settle_execution(
    state: &mut StoplossState,
    pos: &PositionChanges,
    reuse_unfilled: bool,
    coin_lot_size: u64,
    filled_time: i64,
) -> (outcome: ExecutionOutcome)
    requires
        old(state).ord_status != OrdStatus::Filled,
        old(state).ord_status != OrdStatus::Cancelled,
        quantities_consistent(*old(state)),
        old(state).child_order_count < u64::MAX,
        pc_qty_filled_of(old(state).side, *pos) >= 0,
        coin_qty_filled_of(old(state).side, *pos) >= 0,
        !no_fill(old(state).side, *pos) ==> {
            &&& settled_pc_fill(old(state).side, *pos, reuse_unfilled)
                <= old(state).pc_leaves_qty
            &&& settled_coin_fill(old(state).side, *pos, reuse_unfilled)
                <= old(state).coin_leaves_qty
            &&& (settled_coin_fill(old(state).side, *pos, reuse_unfilled) != 0 ==> settled_pc_fill(
                old(state).side,
                *pos,
                reuse_unfilled,
            ) * coin_lot_size <= u64::MAX)
            &&& (old(state).coin_cum_qty + settled_coin_fill(old(state).side, *pos, reuse_unfilled)
                != 0 ==> (old(state).pc_cum_qty + settled_pc_fill(
                old(state).side,
                *pos,
                reuse_unfilled,
            )) * coin_lot_size <= u64::MAX)
        },
        !(reuse_unfilled && no_fill(old(state).side, *pos)) ==> {
            &&& composite_order_id(old(state).client_order_id, old(state).child_order_count)
                <= u64::MAX
            &&& (old(state).side == Side::Bid ==> old(state).limit_price != 0)
        },
    ensures
        *final(state) == executed_ledger(*old(state), *pos, reuse_unfilled, coin_lot_size),
        final(state).child_order_count == old(state).child_order_count + 1,
        outcome.pc_qty_filled == if no_fill(old(state).side, *pos) {
            0int
        } else {
            settled_pc_fill(old(state).side, *pos, reuse_unfilled)
        },
        outcome.coin_qty_filled == if no_fill(old(state).side, *pos) {
            0int
        } else {
            settled_coin_fill(old(state).side, *pos, reuse_unfilled)
        },
        outcome.proceeds_transfer == if reuse_unfilled && !no_fill(old(state).side, *pos) {
            Some(proceeds_transfer_of(*old(state), *pos, reuse_unfilled))
        } else {
            None::<TokenTransfer>
        },
        outcome.parent_update == if reuse_unfilled && no_fill(old(state).side, *pos) {
            None::<StoplossOrderUpdate>
        } else {
            Some(StoplossOrderUpdate { own_address: old(state).own_address })
        },
        outcome.child_update == if reuse_unfilled && no_fill(old(state).side, *pos) {
            None::<StoplossCreatedChildOrder>
        } else {
            Some(child_order_notice(*old(state), *pos, reuse_unfilled, filled_time))
        },
        reuse_unfilled || !no_fill(old(state).side, *pos) ==> quantities_consistent(
            *final(state),
        ),
        final(state).ord_status == OrdStatus::Filled ==> primary_leaves_qty(*final(state)) == 0,
        !reuse_unfilled && no_fill(old(state).side, *pos) ==> final(state).coin_leaves_qty == 0
            && final(state).pc_leaves_qty == 0 && final(state).coin_cum_qty == 0
            && final(state).pc_cum_qty == 0 && final(state).ord_status == OrdStatus::Cancelled,
{
    let (mut pc_qty_filled, mut coin_qty_filled) = match state.side {
        Side::Bid => (pos.sl_pc_delta() - pos.client_pc_delta(), pos.client_coin_delta()),
        Side::Ask => (pos.client_pc_delta(), pos.sl_coin_delta() - pos.client_coin_delta()),
    };

    if reuse_unfilled && pc_qty_filled == 0 && coin_qty_filled == 0 {
        state.child_order_count = state.child_order_count + 1;
        return ExecutionOutcome {
            pc_qty_filled: 0,
            coin_qty_filled: 0,
            proceeds_transfer: None,
            parent_update: None,
            child_update: None,
        };
    }

    let composite = state.client_order_id * 10 + state.child_order_count;
    let parent_order_id = state.client_order_id;
    let child_order_id = state.child_order_count + 1;
    state.child_order_count = state.child_order_count + 1;

    let mut proceeds_transfer: Option<TokenTransfer> = None;

    if !reuse_unfilled && pc_qty_filled == 0 && coin_qty_filled == 0 {
        state.pc_leaves_qty = 0;
        state.coin_leaves_qty = 0;
        state.pc_cum_qty = 0;
        state.coin_cum_qty = 0;
        state.ord_status = OrdStatus::Cancelled;
    } else {
        if reuse_unfilled {
            coin_qty_filled = coin_qty_filled + pos.sl_coin_delta();
            pc_qty_filled = pc_qty_filled + pos.sl_coin_delta();
        }

        state.pc_leaves_qty = state.pc_leaves_qty - pc_qty_filled;
        state.coin_leaves_qty = state.coin_leaves_qty - coin_qty_filled;
        state.pc_cum_qty = state.pc_cum_qty + pc_qty_filled;
        state.coin_cum_qty = state.coin_cum_qty + coin_qty_filled;

        state.last_price = calculate_price_lots(pc_qty_filled, coin_qty_filled, coin_lot_size);
        state.avg_price = calculate_price_lots(
            state.pc_cum_qty,
            state.coin_cum_qty,
            coin_lot_size,
        );

        if reuse_unfilled {
            proceeds_transfer = Some(
                match state.side {
                    Side::Bid => TokenTransfer {
                        from: state.stoploss_base_vault,
                        to: state.client_coin_wallet,
                        authority: state.pda,
                        amount: coin_qty_filled,
                    },
                    Side::Ask => TokenTransfer {
                        from: state.stoploss_quote_vault,
                        to: state.client_pc_wallet,
                        authority: state.pda,
                        amount: pc_qty_filled,
                    },
                },
            );
            state.ord_status = OrdStatus::PartiallyFilled;
        } else {
            if (state.side == Side::Bid && state.pc_leaves_qty == 0) || (state.side == Side::Ask
                && state.coin_leaves_qty == 0) {
                state.ord_status = OrdStatus::Filled;
            } else {
                state.ord_status = OrdStatus::Cancelled;
            }
        }
    }

    let requested_qty = match state.side {
        Side::Ask => state.max_coin_qty,
        Side::Bid => state.max_pc_qty / state.limit_price,
    };

    let notice_status = if pc_qty_filled == 0 && coin_qty_filled == 0 {
        OrdStatus::Cancelled
    } else {
        OrdStatus::PartiallyFilled
    };

    let child_update = StoplossCreatedChildOrder {
        parent_address: state.own_address,
        parent_order_id,
        child_order_id,
        parent_child_composite_id: composite,
        market: state.market,
        side: state.side,
        requested_qty,
        limit_price: state.limit_price,
        base_filled_qty: coin_qty_filled,
        quote_filled_qty: pc_qty_filled,
        filled_time,
        ord_status: notice_status,
        order_type: OrderType::ImmediateOrCancel,
    };

    ExecutionOutcome {
        pc_qty_filled,
        coin_qty_filled,
        proceeds_transfer,
        parent_update: Some(StoplossOrderUpdate { own_address: state.own_address }),
        child_update: Some(child_update),
    }
}

} // verus!
