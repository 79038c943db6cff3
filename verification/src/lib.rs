//! A conditional (stop-loss) order controller.
//!
//! A client commits funds up front for a parent order with a trigger
//! condition, a limit price and a maximum quantity per asset leg. An
//! authorized signal provider later submits child executions against an
//! external matching venue; the client's amend authority may resize or cancel
//! the outstanding quantity while the order is live.
//!
//! This crate holds the verified core: the order ledger and its status state
//! machine, the per-leg quantity bookkeeping, the derivation of fill
//! quantities from custodial balance deltas, and the price/lot conversion
//! arithmetic. The host runtime around it performs the fund transfers, the
//! venue calls and the balance snapshots, and hands their results in as plain
//! values.

pub mod accounts;
pub mod amend;
pub mod cancel;
pub mod create;
pub mod execute;
pub mod laws;
pub mod order;
pub mod position;
pub mod pricing;

pub use accounts::{
    AmendOrder, CancelOrder, ExecuteOrder, InitialiseOpenOrders, MarketAccounts, NewOrder,
};
pub use amend::amend_order;
pub use cancel::cancel_order;
pub use create::{initialise_open_orders, new_order};
pub use execute::{ChildOrderPlan, ExecutionOutcome, execute_order, settle_execution};
pub use order::{
    Address, ErrorCode, OrdStatus, OrderType, Side, StoplossCreatedChildOrder, StoplossOrderUpdate,
    StoplossState, TokenTransfer, UNSET_ADDRESS,
};
pub use position::PositionChanges;
pub use pricing::{calculate_price_lots, coin_lots, concat_ids};
