//! The order ledger: identities, terms, per-leg quantity state and the
//! lifecycle status of one parent order.

use vstd::prelude::*;

verus! {

/// An account or principal at the host runtime, reduced to the plain value
/// that the ledger stores and that authorization checks compare.
pub type Address = u64;

/// The well-known sentinel for an account address that has not been set:
/// a freshly created order whose routing record address equals this value
/// still needs the record provisioned.
pub const UNSET_ADDRESS: Address = 0;

/// Which side of the market the parent order trades: a bid buys the base
/// leg with the quote leg, an ask sells the base leg for the quote leg.
#[derive(Clone, Copy, Debug, PartialEq, Eq, Structural)]
pub enum Side {
    Bid,
    Ask,
}

/// The lifecycle status of a parent order. `Filled` and `Cancelled` are
/// terminal: no execution, amendment or cancellation may follow them.
#[derive(Clone, Copy, Debug, PartialEq, Eq, Structural)]
pub enum OrdStatus {
    New,
    PartiallyFilled,
    Filled,
    Cancelled,
    Rejected,
    Suspended,
    PendingInit,
}

/// The order type a child execution carries to the venue. Child orders are
/// always submitted immediate-or-cancel.
#[derive(Clone, Copy, Debug, PartialEq, Eq, Structural)]
pub enum OrderType {
    Limit,
    ImmediateOrCancel,
    PostOnly,
}

/// The distinguishable failure conditions of the five operations.
#[derive(Clone, Copy, Debug, PartialEq, Eq, Structural)]
pub enum ErrorCode {
    /// The order is in cancelled state. Cannot execute.
    AttemptingToExecuteCancelledOrder,
    /// The order is in fully filled state. Cannot execute.
    AttemptingToExecuteFilledOrder,
    /// The order is in filled state. Cannot cancel or amend.
    OrderAlreadyFilled,
    /// The order is in cancelled state. Cannot cancel or amend.
    OrderAlreadyCancelled,
    /// The signal provider's signature is required.
    MissingSignalProviderSignature,
    /// A principal other than the stored signal provider was supplied.
    IncorrectSignalProviderAccount,
    /// A principal other than the stored amend authority was supplied.
    IncorrectAmendAccount,
    /// The order has already filled more than the requested amend size.
    AlreadyFilledMoreThanRequestedAmendSize,
    /// The child execution's limit lies outside the parent's limit price.
    AttemptingToExecuteOutsideParentLimit,
    /// A token refund back to the sender account failed.
    TransferFailed,
    /// The routing record was already initialised.
    AlreadyInitialised,
}

/// One invocation of the atomic transfer primitive that the host runtime
/// must perform: move `amount` units from `from` to `to` under `authority`.
#[derive(Clone, Copy, Debug, PartialEq, Eq, Structural)]
pub struct TokenTransfer {
    pub from: Address,
    pub to: Address,
    pub authority: Address,
    pub amount: u64,
}

/// The ledger record of one parent order: the single source of truth for its
/// identities, terms, quantity state and status.
#[derive(Clone, Copy, Debug, PartialEq, Eq, Structural)]
pub struct StoplossState {
    /// The ledger record's own account address.
    pub own_address: Address,
    /// The venue market the order trades on.
    pub market: Address,
    /// The per-client order-routing record at the venue.
    pub stoploss_open_orders: Address,
    pub request_queue: Address,
    pub event_queue: Address,
    pub bids: Address,
    pub asks: Address,
    pub payer: Address,
    /// The client's wallet on the base leg.
    pub client_coin_wallet: Address,
    /// The client's wallet on the quote leg.
    pub client_pc_wallet: Address,
    /// The custody vault holding committed base-leg funds.
    pub stoploss_base_vault: Address,
    /// The custody vault holding committed quote-leg funds.
    pub stoploss_quote_vault: Address,
    pub dex_program: Address,
    pub pda: Address,
    pub stoploss_program: Address,
    pub vault_signer: Address,
    pub token_program: Address,
    /// The sole principal permitted to amend or cancel the order.
    pub amend_authority: Address,
    /// The base-leg quantity originally committed (redefined by amendment).
    pub max_coin_qty: u64,
    /// The quote-leg quantity originally committed (redefined by amendment).
    pub max_pc_qty: u64,
    /// The price at which the external signal process triggers executions.
    pub trigger_price: u64,
    pub side: Side,
    /// The bound no child execution may trade outside of.
    pub limit_price: u64,
    /// The client's identifier for the parent order.
    pub client_order_id: u64,
    /// Remaining un-filled base-leg quantity.
    pub coin_leaves_qty: u64,
    /// Remaining un-filled quote-leg quantity.
    pub pc_leaves_qty: u64,
    /// Cumulative filled base-leg quantity.
    pub coin_cum_qty: u64,
    /// Cumulative filled quote-leg quantity.
    pub pc_cum_qty: u64,
    /// Price of the most recent fill, in venue lot terms.
    pub last_price: u64,
    /// Average price over all fills, in venue lot terms.
    pub avg_price: u64,
    pub ord_status: OrdStatus,
    /// The sole principal permitted to submit child executions.
    pub signal_provider: Address,
    /// Incremented once per execution attempt, fill or no fill.
    pub child_order_count: u64,
    /// The client wallet that funded the order: the quote wallet for a bid,
    /// the base wallet for an ask.
    pub client_paying_account: Address,
    pub coin_mint: Address,
    pub pc_mint: Address,
    pub should_create_open_orders: bool,
}

/// The central quantity invariant of a live ledger: on each leg, what remains
/// plus what has filled equals what was committed.
pub open spec fn quantities_consistent(s: StoplossState) -> bool {
    &&& s.coin_leaves_qty + s.coin_cum_qty == s.max_coin_qty
    &&& s.pc_leaves_qty + s.pc_cum_qty == s.max_pc_qty
}

/// The remaining quantity on the order's primary leg: the quote leg for a
/// bid, the base leg for an ask.
pub open spec fn primary_leaves_qty(s: StoplossState) -> u64 {
    match s.side {
        Side::Bid => s.pc_leaves_qty,
        Side::Ask => s.coin_leaves_qty,
    }
}

/// The notification content emitted whenever a ledger record is created or
/// mutated: observers refresh their snapshot of the named order.
#[derive(Clone, Copy, Debug, PartialEq, Eq, Structural)]
pub struct StoplossOrderUpdate {
    pub own_address: Address,
}

impl From<StoplossState> for StoplossOrderUpdate {
    fn from(s: StoplossState) -> (r: Self) {
        StoplossOrderUpdate { own_address: s.own_address }
    }
}

impl vstd::std_specs::convert::FromSpecImpl<StoplossState> for StoplossOrderUpdate {
    open spec fn obeys_from_spec() -> bool {
        true
    }

    open spec fn from_spec(s: StoplossState) -> Self {
        StoplossOrderUpdate { own_address: s.own_address }
    }
}

/// The notification content emitted after a child execution attempt: the
/// requested and filled quantities, the derived fill price's inputs, the
/// fill time and the resulting status. The host runtime renders and encodes
/// it for the wire.
#[derive(Clone, Copy, Debug, PartialEq, Eq, Structural)]
pub struct StoplossCreatedChildOrder {
    pub parent_address: Address,
    pub parent_order_id: u64,
    pub child_order_id: u64,
    pub parent_child_composite_id: u64,
    pub market: Address,
    pub side: Side,
    pub requested_qty: u64,
    pub limit_price: u64,
    pub base_filled_qty: u64,
    pub quote_filled_qty: u64,
    pub filled_time: i64,
    pub ord_status: OrdStatus,
    pub order_type: OrderType,
}

} // verus!
