//! The creation engine and the routing-record initialization step.
//!
//! Creation moves the committed leg's maximum quantity from the client's
//! wallet into the matching custody vault and writes a fresh ledger record.
//! The host runtime performs the returned transfer before persisting the
//! record; a failed transfer aborts the whole operation.

use crate::accounts::{InitialiseOpenOrders, NewOrder};
use crate::order::{
    ErrorCode, OrdStatus, Side, StoplossOrderUpdate, StoplossState, TokenTransfer,
    UNSET_ADDRESS,
};
use vstd::prelude::*;

verus! {

/// The ledger record a creation request produces: quantities fully un-filled,
/// prices and the child counter at zero, and status `PendingInit` when the
/// supplied routing record is still the unset sentinel, `New` otherwise.
pub open spec fn created_ledger(
    accounts: NewOrder,
    side: Side,
    limit_price: u64,
    client_order_id: u64,
    trigger_price: u64,
    max_coin_qty: u64,
    max_pc_qty: u64,
    should_create_open_orders: bool,
) -> StoplossState {
    StoplossState {
        own_address: accounts.stoploss_state,
        market: accounts.market.market,
        stoploss_open_orders: UNSET_ADDRESS,
        request_queue: accounts.market.request_queue,
        event_queue: accounts.market.event_queue,
        bids: accounts.market.bids,
        asks: accounts.market.asks,
        payer: accounts.market.order_payer_token_account,
        client_coin_wallet: accounts.market.coin_wallet,
        client_pc_wallet: accounts.market.pc_wallet,
        stoploss_base_vault: accounts.stoploss_base_vault,
        stoploss_quote_vault: accounts.stoploss_quote_vault,
        dex_program: accounts.dex_program,
        pda: accounts.pda,
        stoploss_program: accounts.stoploss_program,
        vault_signer: accounts.market.vault_signer,
        token_program: accounts.token_program,
        amend_authority: accounts.authority,
        max_coin_qty,
        max_pc_qty,
        trigger_price,
        side,
        limit_price,
        client_order_id,
        coin_leaves_qty: max_coin_qty,
        pc_leaves_qty: max_pc_qty,
        coin_cum_qty: 0,
        pc_cum_qty: 0,
        last_price: 0,
        avg_price: 0,
        ord_status: if accounts.market.open_orders == UNSET_ADDRESS {
            OrdStatus::PendingInit
        } else {
            OrdStatus::New
        },
        signal_provider: accounts.signal_provider,
        child_order_count: 0,
        client_paying_account: match side {
            Side::Bid => accounts.market.pc_wallet,
            Side::Ask => accounts.market.coin_wallet,
        },
        coin_mint: accounts.market.coin_mint,
        pc_mint: accounts.market.pc_mint,
        should_create_open_orders,
    }
}

/// The up-front transfer that commits the client's funds: the quote leg's
/// maximum for a bid, the base leg's maximum for an ask, moved from the
/// client wallet into the matching custody vault under the creator's
/// authority.
pub open spec fn commitment_transfer(
    accounts: NewOrder,
    side: Side,
    max_coin_qty: u64,
    max_pc_qty: u64,
) -> TokenTransfer {
    match side {
        Side::Bid => TokenTransfer {
            from: accounts.market.pc_wallet,
            to: accounts.stoploss_quote_vault,
            authority: accounts.authority,
            amount: max_pc_qty,
        },
        Side::Ask => TokenTransfer {
            from: accounts.market.coin_wallet,
            to: accounts.stoploss_base_vault,
            authority: accounts.authority,
            amount: max_coin_qty,
        },
    }
}

/// Opens a parent order: derives the up-front commitment transfer, writes a
/// fresh ledger record and the order-created notification. The caller
/// performs the transfer first and keeps the record only if it succeeded.
pub fn new_order(
    accounts: &NewOrder,
    side: Side,
    limit_price: u64,
    client_order_id: u64,
    trigger_price: u64,
    max_coin_qty: u64,
    max_pc_qty: u64,
    should_create_open_orders: bool,
) -> (r: (StoplossState, TokenTransfer, StoplossOrderUpdate))
    ensures
        r.0 == created_ledger(
            *accounts,
            side,
            limit_price,
            client_order_id,
            trigger_price,
            max_coin_qty,
            max_pc_qty,
            should_create_open_orders,
        ),
        r.1 == commitment_transfer(*accounts, side, max_coin_qty, max_pc_qty),
        r.2 == (StoplossOrderUpdate { own_address: accounts.stoploss_state }),
{
    let commit = match side {
        Side::Bid => TokenTransfer {
            from: accounts.market.pc_wallet,
            to: accounts.stoploss_quote_vault,
            authority: accounts.authority,
            amount: max_pc_qty,
        },
        Side::Ask => TokenTransfer {
            from: accounts.market.coin_wallet,
            to: accounts.stoploss_base_vault,
            authority: accounts.authority,
            amount: max_coin_qty,
        },
    };

    let ord_status = if accounts.market.open_orders == UNSET_ADDRESS {
        OrdStatus::PendingInit
    } else {
        OrdStatus::New
    };

    let client_paying_account = match side {
        Side::Bid => accounts.market.pc_wallet,
        Side::Ask => accounts.market.coin_wallet,
    };

    let state = StoplossState {
        own_address: accounts.stoploss_state,
        market: accounts.market.market,
        stoploss_open_orders: UNSET_ADDRESS,
        request_queue: accounts.market.request_queue,
        event_queue: accounts.market.event_queue,
        bids: accounts.market.bids,
        asks: accounts.market.asks,
        payer: accounts.market.order_payer_token_account,
        client_coin_wallet: accounts.market.coin_wallet,
        client_pc_wallet: accounts.market.pc_wallet,
        stoploss_base_vault: accounts.stoploss_base_vault,
        stoploss_quote_vault: accounts.stoploss_quote_vault,
        dex_program: accounts.dex_program,
        pda: accounts.pda,
        stoploss_program: accounts.stoploss_program,
        vault_signer: accounts.market.vault_signer,
        token_program: accounts.token_program,
        amend_authority: accounts.authority,
        max_coin_qty,
        max_pc_qty,
        trigger_price,
        side,
        limit_price,
        client_order_id,
        coin_leaves_qty: max_coin_qty,
        pc_leaves_qty: max_pc_qty,
        coin_cum_qty: 0,
        pc_cum_qty: 0,
        last_price: 0,
        avg_price: 0,
        ord_status,
        signal_provider: accounts.signal_provider,
        child_order_count: 0,
        client_paying_account,
        coin_mint: accounts.market.coin_mint,
        pc_mint: accounts.market.pc_mint,
        should_create_open_orders,
    };

    let update = StoplossOrderUpdate { own_address: accounts.stoploss_state };

    (state, commit, update)
}

/// Records the provisioned order-routing record and moves the order out of
/// `PendingInit`. Only the stored signal provider may invoke it; it does not
/// enforce idempotency, so a re-invocation silently overwrites the stored
/// address.
pub fn initialise_open_orders(state: &mut StoplossState, accounts: &InitialiseOpenOrders) -> (r:
    Result<StoplossOrderUpdate, ErrorCode>)
    ensures
        r is Err <==> accounts.authority != old(state).signal_provider,
        r is Err ==> r == Err::<StoplossOrderUpdate, ErrorCode>(
            ErrorCode::IncorrectSignalProviderAccount,
        ) && *final(state) == *old(state),
        r matches Ok(update) ==> *final(state) == (StoplossState {
            stoploss_open_orders: accounts.stoploss_open_orders,
            ord_status: OrdStatus::New,
            ..*old(state)
        }) && update == (StoplossOrderUpdate { own_address: old(state).own_address }),
{
    if accounts.authority != state.signal_provider {
        return Err(ErrorCode::IncorrectSignalProviderAccount);
    }

    state.stoploss_open_orders = accounts.stoploss_open_orders;
    state.ord_status = OrdStatus::New;

    Ok(StoplossOrderUpdate { own_address: state.own_address })
}

} // verus!
