//! The account records each operation is invoked with: the addresses of the
//! venue's market accounts, the custody vaults, the client wallets and the
//! programs involved, reduced to the plain values the ledger stores and
//! compares. The host runtime resolves them and checks signatures; the
//! signer flags it established are passed alongside as arguments.

use crate::order::Address;
use vstd::prelude::*;

verus! {

/// The venue market accounts an order trades against, minus program ids,
/// sysvars and other common accounts.
#[derive(Clone, Copy, Debug, PartialEq, Eq, Structural)]
pub struct MarketAccounts {
    pub market: Address,
    pub open_orders: Address,
    pub request_queue: Address,
    pub event_queue: Address,
    pub bids: Address,
    pub asks: Address,
    /// The account funds are taken from when placing a child order: the
    /// quote side for bids, the base side for asks.
    pub order_payer_token_account: Address,
    /// The venue's vault for the base currency.
    pub coin_vault: Address,
    /// The venue's vault for the quote currency.
    pub pc_vault: Address,
    /// Owner of the venue's token vaults for both legs.
    pub vault_signer: Address,
    /// The client's base-leg wallet, used on settlement.
    pub coin_wallet: Address,
    /// The client's quote-leg wallet, used on settlement.
    pub pc_wallet: Address,
    pub coin_mint: Address,
    pub pc_mint: Address,
}

/// Accounts for provisioning the per-client order-routing record.
#[derive(Clone, Copy, Debug, PartialEq, Eq, Structural)]
pub struct InitialiseOpenOrders {
    pub authority: Address,
    pub stoploss_state: Address,
    pub stoploss_open_orders: Address,
}

/// Accounts for creating a parent order.
#[derive(Clone, Copy, Debug, PartialEq, Eq, Structural)]
pub struct NewOrder {
    pub market: MarketAccounts,
    /// Custody vault that will hold committed base-leg funds.
    pub stoploss_base_vault: Address,
    /// Custody vault that will hold committed quote-leg funds.
    pub stoploss_quote_vault: Address,
    pub stoploss_open_orders: Address,
    /// The principal that will be permitted to submit child executions.
    pub signal_provider: Address,
    /// The creating principal; becomes the order's amend authority.
    pub authority: Address,
    /// The address of the ledger record being created.
    pub stoploss_state: Address,
    pub stoploss_program: Address,
    pub dex_program: Address,
    pub pda: Address,
    pub token_program: Address,
}

/// Accounts for executing a child order against the venue.
#[derive(Clone, Copy, Debug, PartialEq, Eq, Structural)]
pub struct ExecuteOrder {
    pub market: MarketAccounts,
    pub stoploss_base_vault: Address,
    pub stoploss_quote_vault: Address,
    /// The invoking principal; must be the stored signal provider.
    pub authority: Address,
    pub stoploss_state: Address,
    pub stoploss_open_orders: Address,
    pub stoploss_program: Address,
    pub dex_program: Address,
    pub pda: Address,
    pub token_program: Address,
}

/// Accounts for cancelling a parent order.
#[derive(Clone, Copy, Debug, PartialEq, Eq, Structural)]
pub struct CancelOrder {
    pub stoploss_state: Address,
    /// The invoking principal; must be the stored amend authority.
    pub authority: Address,
    pub coin_wallet: Address,
    pub pc_wallet: Address,
    /// The custody vault the client is refunded from.
    pub stoploss_paying_vault: Address,
    pub vault_owner: Address,
    pub token_program: Address,
}

/// Accounts for amending a parent order.
#[derive(Clone, Copy, Debug, PartialEq, Eq, Structural)]
pub struct AmendOrder {
    pub stoploss_state: Address,
    /// The invoking principal; must be the stored amend authority.
    pub authority: Address,
    pub coin_wallet: Address,
    pub pc_wallet: Address,
    /// The custody vault a size reduction is refunded from, and a size
    /// increase deposited into.
    pub stoploss_paying_vault: Address,
    pub vault_owner: Address,
    pub token_program: Address,
}

} // verus!
