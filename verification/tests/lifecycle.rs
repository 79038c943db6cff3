use stoploss::{
    AmendOrder, CancelOrder, ErrorCode, ExecuteOrder, MarketAccounts, NewOrder, OrdStatus,
    OrderType, Side, StoplossState, amend_order, cancel_order, execute_order,
    initialise_open_orders, new_order, settle_execution,
};
use stoploss::InitialiseOpenOrders;
use stoploss::position::PositionChanges;

const SIGNAL_PROVIDER: u64 = 30;
const AMEND_AUTHORITY: u64 = 31;

fn market_accounts() -> MarketAccounts {
    MarketAccounts {
        market: 1,
        open_orders: 2,
        request_queue: 3,
        event_queue: 4,
        bids: 5,
        asks: 6,
        order_payer_token_account: 7,
        coin_vault: 8,
        pc_vault: 9,
        vault_signer: 10,
        coin_wallet: 11,
        pc_wallet: 12,
        coin_mint: 13,
        pc_mint: 14,
    }
}

fn new_order_accounts() -> NewOrder {
    NewOrder {
        market: market_accounts(),
        stoploss_base_vault: 20,
        stoploss_quote_vault: 21,
        stoploss_open_orders: 22,
        signal_provider: SIGNAL_PROVIDER,
        authority: AMEND_AUTHORITY,
        stoploss_state: 32,
        stoploss_program: 33,
        dex_program: 34,
        pda: 35,
        token_program: 36,
    }
}

fn exec_accounts() -> ExecuteOrder {
    ExecuteOrder {
        market: market_accounts(),
        stoploss_base_vault: 20,
        stoploss_quote_vault: 21,
        authority: SIGNAL_PROVIDER,
        stoploss_state: 32,
        stoploss_open_orders: 22,
        stoploss_program: 33,
        dex_program: 34,
        pda: 35,
        token_program: 36,
    }
}

fn cancel_accounts() -> CancelOrder {
    CancelOrder {
        stoploss_state: 32,
        authority: AMEND_AUTHORITY,
        coin_wallet: 11,
        pc_wallet: 12,
        stoploss_paying_vault: 40,
        vault_owner: 41,
        token_program: 36,
    }
}

fn amend_accounts() -> AmendOrder {
    AmendOrder {
        stoploss_state: 32,
        authority: AMEND_AUTHORITY,
        coin_wallet: 11,
        pc_wallet: 12,
        stoploss_paying_vault: 40,
        vault_owner: 41,
        token_program: 36,
    }
}

/// A live buy order: limit 10, trigger 9, max 100 base / 1000 quote.
fn buy_order() -> StoplossState {
    let (state, _, _) = new_order(&new_order_accounts(), Side::Bid, 10, 7, 9, 100, 1000, false);
    state
}

/// A live sell order: limit 10, trigger 9, max 100 base / 1000 quote.
fn sell_order() -> StoplossState {
    let (state, _, _) = new_order(&new_order_accounts(), Side::Ask, 10, 7, 9, 100, 1000, false);
    state
}

#[test]
fn new_buy_order_commits_quote_leg() {
    let (state, commit, update) =
        new_order(&new_order_accounts(), Side::Bid, 10, 7, 9, 100, 1000, false);
    assert_eq!(commit.from, 12);
    assert_eq!(commit.to, 21);
    assert_eq!(commit.authority, AMEND_AUTHORITY);
    assert_eq!(commit.amount, 1000);
    assert_eq!(state.ord_status, OrdStatus::New);
    assert_eq!(state.max_coin_qty, 100);
    assert_eq!(state.max_pc_qty, 1000);
    assert_eq!(state.coin_leaves_qty, 100);
    assert_eq!(state.pc_leaves_qty, 1000);
    assert_eq!(state.coin_cum_qty, 0);
    assert_eq!(state.pc_cum_qty, 0);
    assert_eq!(state.child_order_count, 0);
    assert_eq!(state.signal_provider, SIGNAL_PROVIDER);
    assert_eq!(state.amend_authority, AMEND_AUTHORITY);
    assert_eq!(state.client_paying_account, 12);
    assert_eq!(update.own_address, 32);
}

#[test]
fn new_sell_order_commits_base_leg() {
    let (state, commit, _) =
        new_order(&new_order_accounts(), Side::Ask, 10, 7, 9, 100, 1000, false);
    assert_eq!(commit.from, 11);
    assert_eq!(commit.to, 20);
    assert_eq!(commit.amount, 100);
    assert_eq!(state.client_paying_account, 11);
}

#[test]
fn new_order_without_routing_record_pends_initialisation() {
    let mut accounts = new_order_accounts();
    accounts.market.open_orders = 0;
    let (state, _, _) = new_order(&accounts, Side::Bid, 10, 7, 9, 100, 1000, true);
    assert_eq!(state.ord_status, OrdStatus::PendingInit);
    assert!(state.should_create_open_orders);
}

#[test]
fn initialise_open_orders_records_address_and_activates() {
    let mut accounts = new_order_accounts();
    accounts.market.open_orders = 0;
    let (mut state, _, _) = new_order(&accounts, Side::Bid, 10, 7, 9, 100, 1000, true);
    let init = InitialiseOpenOrders {
        authority: SIGNAL_PROVIDER,
        stoploss_state: 32,
        stoploss_open_orders: 55,
    };
    let update = initialise_open_orders(&mut state, &init).unwrap();
    assert_eq!(state.stoploss_open_orders, 55);
    assert_eq!(state.ord_status, OrdStatus::New);
    assert_eq!(update.own_address, 32);
}

#[test]
fn initialise_open_orders_rejects_wrong_signal_provider() {
    let mut state = buy_order();
    let snapshot = state;
    let init = InitialiseOpenOrders {
        authority: 99,
        stoploss_state: 32,
        stoploss_open_orders: 55,
    };
    let r = initialise_open_orders(&mut state, &init);
    assert_eq!(r, Err(ErrorCode::IncorrectSignalProviderAccount));
    assert_eq!(state, snapshot);
}

#[test]
fn execute_outside_parent_limit_fails_for_buy() {
    let state = buy_order();
    let r = execute_order(&state, &exec_accounts(), true, 500, 11, 1);
    assert_eq!(r, Err(ErrorCode::AttemptingToExecuteOutsideParentLimit));
}

#[test]
fn execute_outside_parent_limit_fails_for_sell() {
    let state = sell_order();
    let r = execute_order(&state, &exec_accounts(), true, 500, 9, 1);
    assert_eq!(r, Err(ErrorCode::AttemptingToExecuteOutsideParentLimit));
}

#[test]
fn execute_requires_signal_provider_signature() {
    let state = buy_order();
    let r = execute_order(&state, &exec_accounts(), false, 500, 10, 1);
    assert_eq!(r, Err(ErrorCode::MissingSignalProviderSignature));
}

#[test]
fn execute_rejects_wrong_signal_provider() {
    let state = buy_order();
    let mut accounts = exec_accounts();
    accounts.authority = 99;
    let r = execute_order(&state, &accounts, true, 500, 10, 1);
    assert_eq!(r, Err(ErrorCode::IncorrectSignalProviderAccount));
}

#[test]
fn execute_rejects_filled_order() {
    let mut state = buy_order();
    state.ord_status = OrdStatus::Filled;
    let r = execute_order(&state, &exec_accounts(), true, 500, 10, 1);
    assert_eq!(r, Err(ErrorCode::AttemptingToExecuteFilledOrder));
}

#[test]
fn execute_plans_ioc_child_order_for_buy() {
    let state = buy_order();
    let plan = execute_order(&state, &exec_accounts(), true, 500, 10, 1).unwrap();
    assert_eq!(plan.side, Side::Bid);
    assert_eq!(plan.limit_price, 10);
    assert_eq!(plan.max_coin_qty, u64::MAX);
    assert_eq!(plan.max_pc_qty, 500);
    assert_eq!(plan.client_order_id, 70);
    assert_eq!(plan.order_type, OrderType::ImmediateOrCancel);
    assert!(plan.self_trade_decrement_take);
    assert_eq!(plan.max_matches, 65535);
    assert_eq!(plan.paying_account, 21);
}

#[test]
fn execute_plans_ioc_child_order_for_sell_in_lot_units() {
    let state = sell_order();
    let plan = execute_order(&state, &exec_accounts(), true, 500, 10, 10).unwrap();
    assert_eq!(plan.max_coin_qty, 50);
    assert_eq!(plan.max_pc_qty, u64::MAX);
    assert_eq!(plan.paying_account, 20);
}

#[test]
fn buy_execution_partial_fill_updates_ledger() {
    let mut state = buy_order();
    let mut pos = PositionChanges::default();
    pos.record_before(Side::Bid, 0, 0, 0, 1000);
    pos.record_after(50, 0, 0, 500);

    let outcome = settle_execution(&mut state, &pos, false, 1, 111);

    assert_eq!(outcome.pc_qty_filled, 500);
    assert_eq!(outcome.coin_qty_filled, 50);
    assert!(outcome.proceeds_transfer.is_none());
    assert_eq!(state.pc_cum_qty, 500);
    assert_eq!(state.pc_leaves_qty, 500);
    assert_eq!(state.coin_cum_qty, 50);
    assert_eq!(state.coin_leaves_qty, 50);
    assert_eq!(state.last_price, 10);
    assert_eq!(state.avg_price, 10);
    assert_eq!(state.child_order_count, 1);
    // A partial immediate-or-cancel fill terminates the parent order.
    assert_eq!(state.ord_status, OrdStatus::Cancelled);

    let child = outcome.child_update.unwrap();
    assert_eq!(child.parent_address, 32);
    assert_eq!(child.parent_order_id, 7);
    assert_eq!(child.child_order_id, 1);
    assert_eq!(child.parent_child_composite_id, 70);
    assert_eq!(child.side, Side::Bid);
    assert_eq!(child.requested_qty, 100);
    assert_eq!(child.base_filled_qty, 50);
    assert_eq!(child.quote_filled_qty, 500);
    assert_eq!(child.filled_time, 111);
    assert_eq!(child.ord_status, OrdStatus::PartiallyFilled);
    assert_eq!(outcome.parent_update.unwrap().own_address, 32);
}

#[test]
fn buy_execution_full_fill_sets_filled() {
    let mut state = buy_order();
    let mut pos = PositionChanges::default();
    pos.record_before(Side::Bid, 0, 0, 0, 1000);
    pos.record_after(100, 0, 0, 0);

    settle_execution(&mut state, &pos, false, 1, 111);

    assert_eq!(state.pc_leaves_qty, 0);
    assert_eq!(state.pc_cum_qty, 1000);
    assert_eq!(state.ord_status, OrdStatus::Filled);
}

#[test]
fn no_fill_without_reuse_abandons_order() {
    let mut state = buy_order();
    let mut pos = PositionChanges::default();
    pos.record_before(Side::Bid, 0, 0, 0, 1000);
    pos.record_after(0, 0, 0, 1000);

    let outcome = settle_execution(&mut state, &pos, false, 1, 111);

    assert_eq!(state.pc_leaves_qty, 0);
    assert_eq!(state.coin_leaves_qty, 0);
    assert_eq!(state.pc_cum_qty, 0);
    assert_eq!(state.coin_cum_qty, 0);
    assert_eq!(state.ord_status, OrdStatus::Cancelled);
    assert_eq!(state.child_order_count, 1);
    assert_eq!(outcome.child_update.unwrap().ord_status, OrdStatus::Cancelled);

    let r = execute_order(&state, &exec_accounts(), true, 500, 10, 1);
    assert_eq!(r, Err(ErrorCode::AttemptingToExecuteCancelledOrder));
}

#[test]
fn no_fill_with_reuse_only_advances_counter() {
    let mut state = buy_order();
    let mut expected = state;
    let mut pos = PositionChanges::default();
    pos.record_before(Side::Bid, 0, 0, 0, 1000);
    pos.record_after(0, 0, 0, 1000);

    let outcome = settle_execution(&mut state, &pos, true, 1, 111);

    expected.child_order_count = 1;
    assert_eq!(state, expected);
    assert!(outcome.proceeds_transfer.is_none());
    assert!(outcome.parent_update.is_none());
    assert!(outcome.child_update.is_none());
    assert_eq!(outcome.pc_qty_filled, 0);
    assert_eq!(outcome.coin_qty_filled, 0);
}

#[test]
fn reuse_fill_folds_custody_delta_and_transfers_proceeds() {
    let mut state = buy_order();
    let mut pos = PositionChanges::default();
    // Settlement went back into the custody vaults: the base vault gained
    // the fill, the quote vault paid for it, the client saw nothing yet.
    pos.record_before(Side::Bid, 0, 0, 0, 1000);
    pos.record_after(0, 0, 50, 500);

    let outcome = settle_execution(&mut state, &pos, true, 1, 111);

    // The custody base delta is folded into both legs' fills.
    assert_eq!(outcome.pc_qty_filled, 550);
    assert_eq!(outcome.coin_qty_filled, 50);
    assert_eq!(state.pc_leaves_qty, 450);
    assert_eq!(state.pc_cum_qty, 550);
    assert_eq!(state.coin_leaves_qty, 50);
    assert_eq!(state.coin_cum_qty, 50);
    assert_eq!(state.last_price, 11);
    assert_eq!(state.ord_status, OrdStatus::PartiallyFilled);

    let onward = outcome.proceeds_transfer.unwrap();
    assert_eq!(onward.from, 20);
    assert_eq!(onward.to, 11);
    assert_eq!(onward.authority, 35);
    assert_eq!(onward.amount, 50);
}

#[test]
fn consecutive_executions_have_increasing_counters_and_distinct_ids() {
    let mut state = buy_order();

    let plan1 = execute_order(&state, &exec_accounts(), true, 100, 10, 1).unwrap();
    let mut pos = PositionChanges::default();
    pos.record_before(Side::Bid, 0, 0, 0, 1000);
    pos.record_after(0, 0, 10, 900);
    settle_execution(&mut state, &pos, true, 1, 111);
    let count1 = state.child_order_count;

    let plan2 = execute_order(&state, &exec_accounts(), true, 100, 10, 1).unwrap();
    let mut pos2 = PositionChanges::default();
    pos2.record_before(Side::Bid, 0, 0, 10, 900);
    pos2.record_after(0, 0, 20, 800);
    settle_execution(&mut state, &pos2, true, 1, 222);
    let count2 = state.child_order_count;

    assert!(count1 < count2);
    assert_eq!(count1, 1);
    assert_eq!(count2, 2);
    assert_eq!(plan1.client_order_id, 70);
    assert_eq!(plan2.client_order_id, 71);
    assert_ne!(plan1.client_order_id, plan2.client_order_id);
}

#[test]
fn amend_reduction_refunds_client() {
    let mut state = sell_order();
    let movement = amend_order(&mut state, &amend_accounts(), 12, 7, 40, 9)
        .unwrap()
        .unwrap();
    assert_eq!(movement.from, 40);
    assert_eq!(movement.to, 11);
    assert_eq!(movement.authority, 41);
    assert_eq!(movement.amount, 60);
    assert_eq!(state.max_coin_qty, 40);
    assert_eq!(state.coin_leaves_qty, 40);
    assert_eq!(state.limit_price, 12);
    assert_eq!(state.trigger_price, 9);
    assert_eq!(state.ord_status, OrdStatus::New);
}

#[test]
fn amend_increase_deposits_from_client() {
    let mut state = buy_order();
    let movement = amend_order(&mut state, &amend_accounts(), 10, 7, 1500, 9)
        .unwrap()
        .unwrap();
    assert_eq!(movement.from, 12);
    assert_eq!(movement.to, 40);
    assert_eq!(movement.authority, AMEND_AUTHORITY);
    assert_eq!(movement.amount, 500);
    assert_eq!(state.max_pc_qty, 1500);
    assert_eq!(state.pc_leaves_qty, 1500);
}

#[test]
fn amend_to_unchanged_quantity_moves_nothing() {
    let mut state = buy_order();
    let movement = amend_order(&mut state, &amend_accounts(), 11, 7, 1000, 8).unwrap();
    assert!(movement.is_none());
    assert_eq!(state.max_pc_qty, 1000);
    assert_eq!(state.limit_price, 11);
    assert_eq!(state.trigger_price, 8);
}

#[test]
fn amend_below_filled_quantity_fails_and_changes_nothing() {
    let mut state = buy_order();
    state.pc_cum_qty = 600;
    state.pc_leaves_qty = 400;
    state.ord_status = OrdStatus::PartiallyFilled;
    let snapshot = state;

    let r = amend_order(&mut state, &amend_accounts(), 10, 7, 500, 9);
    assert_eq!(r, Err(ErrorCode::AlreadyFilledMoreThanRequestedAmendSize));
    assert_eq!(state, snapshot);
}

#[test]
fn amend_down_to_filled_quantity_fills_order() {
    let mut state = buy_order();
    state.max_coin_qty = 0;
    state.coin_leaves_qty = 0;
    state.pc_cum_qty = 400;
    state.pc_leaves_qty = 600;
    state.ord_status = OrdStatus::PartiallyFilled;

    let movement = amend_order(&mut state, &amend_accounts(), 10, 7, 400, 9)
        .unwrap()
        .unwrap();
    assert_eq!(movement.amount, 600);
    assert_eq!(state.pc_leaves_qty, 0);
    assert_eq!(state.max_pc_qty, 400);
    assert_eq!(state.ord_status, OrdStatus::Filled);
}

#[test]
fn amend_rejects_wrong_authority() {
    let mut state = buy_order();
    let mut accounts = amend_accounts();
    accounts.authority = 99;
    let r = amend_order(&mut state, &accounts, 10, 7, 500, 9);
    assert_eq!(r, Err(ErrorCode::IncorrectAmendAccount));
}

#[test]
fn amend_rejects_terminal_orders() {
    let mut state = buy_order();
    state.ord_status = OrdStatus::Filled;
    let r = amend_order(&mut state, &amend_accounts(), 10, 7, 500, 9);
    assert_eq!(r, Err(ErrorCode::OrderAlreadyFilled));

    let mut state = buy_order();
    state.ord_status = OrdStatus::Cancelled;
    state.pc_leaves_qty = 0;
    state.coin_leaves_qty = 0;
    state.max_pc_qty = 0;
    state.max_coin_qty = 0;
    let r = amend_order(&mut state, &amend_accounts(), 10, 7, 500, 9);
    assert_eq!(r, Err(ErrorCode::OrderAlreadyCancelled));
}

#[test]
fn cancel_refunds_remaining_and_terminates() {
    let mut state = sell_order();
    let refund = cancel_order(&mut state, &cancel_accounts()).unwrap();
    assert_eq!(refund.from, 40);
    assert_eq!(refund.to, 11);
    assert_eq!(refund.authority, 41);
    assert_eq!(refund.amount, 100);
    assert_eq!(state.coin_leaves_qty, 0);
    assert_eq!(state.pc_leaves_qty, 0);
    assert_eq!(state.ord_status, OrdStatus::Cancelled);
}

#[test]
fn cancel_of_buy_refunds_quote_leg() {
    let mut state = buy_order();
    let refund = cancel_order(&mut state, &cancel_accounts()).unwrap();
    assert_eq!(refund.to, 12);
    assert_eq!(refund.amount, 1000);
}

#[test]
fn repeated_cancel_fails_and_is_noop() {
    let mut state = sell_order();
    cancel_order(&mut state, &cancel_accounts()).unwrap();
    let snapshot = state;

    let r = cancel_order(&mut state, &cancel_accounts());
    assert_eq!(r, Err(ErrorCode::OrderAlreadyCancelled));
    assert_eq!(state, snapshot);
}

#[test]
fn cancel_rejects_filled_order() {
    let mut state = buy_order();
    state.ord_status = OrdStatus::Filled;
    let snapshot = state;
    let r = cancel_order(&mut state, &cancel_accounts());
    assert_eq!(r, Err(ErrorCode::OrderAlreadyFilled));
    assert_eq!(state, snapshot);
}

#[test]
fn cancel_rejects_wrong_authority() {
    let mut state = buy_order();
    let mut accounts = cancel_accounts();
    accounts.authority = 99;
    let r = cancel_order(&mut state, &accounts);
    assert_eq!(r, Err(ErrorCode::IncorrectAmendAccount));
}

#[test]
fn initialise_open_orders_overwrites_silently_on_reinvocation() {
    let mut state = buy_order();
    let mut init = InitialiseOpenOrders {
        authority: SIGNAL_PROVIDER,
        stoploss_state: 32,
        stoploss_open_orders: 55,
    };
    initialise_open_orders(&mut state, &init).unwrap();
    init.stoploss_open_orders = 66;
    initialise_open_orders(&mut state, &init).unwrap();
    assert_eq!(state.stoploss_open_orders, 66);
    assert_eq!(state.ord_status, OrdStatus::New);
}

#[test]
fn sell_reuse_fill_transfers_quote_proceeds_onward() {
    let mut state = sell_order();
    let mut pos = PositionChanges::default();
    // Settlement went back into custody: the base vault paid 30 units out,
    // the quote vault received 300; the client saw nothing yet.
    pos.record_before(Side::Ask, 0, 0, 100, 0);
    pos.record_after(0, 0, 70, 300);

    let outcome = settle_execution(&mut state, &pos, true, 1, 99);

    // The custody base delta is folded into both legs' fills.
    assert_eq!(outcome.pc_qty_filled, 30);
    assert_eq!(outcome.coin_qty_filled, 60);
    assert_eq!(state.pc_leaves_qty, 970);
    assert_eq!(state.coin_leaves_qty, 40);
    assert_eq!(state.ord_status, OrdStatus::PartiallyFilled);

    let onward = outcome.proceeds_transfer.unwrap();
    assert_eq!(onward.from, 21);
    assert_eq!(onward.to, 12);
    assert_eq!(onward.authority, 35);
    assert_eq!(onward.amount, 30);
}

#[test]
fn sell_execution_fills_from_client_quote_delta() {
    let mut state = sell_order();
    let mut pos = PositionChanges::default();
    // The client received 300 quote units; custody paid out 30 base units,
    // none of which came back to the client.
    pos.record_before(Side::Ask, 0, 0, 100, 0);
    pos.record_after(0, 300, 70, 0);

    let outcome = settle_execution(&mut state, &pos, false, 1, 99);

    assert_eq!(outcome.pc_qty_filled, 300);
    assert_eq!(outcome.coin_qty_filled, 30);
    assert_eq!(state.coin_cum_qty, 30);
    assert_eq!(state.coin_leaves_qty, 70);
    assert_eq!(state.pc_cum_qty, 300);
    assert_eq!(state.pc_leaves_qty, 700);
    assert_eq!(state.last_price, 10);
    assert_eq!(state.ord_status, OrdStatus::Cancelled);
    assert_eq!(outcome.child_update.unwrap().requested_qty, 100);
}
