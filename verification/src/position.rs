//! The balance delta tracker: four account balances snapshotted before and
//! after an execution attempt, and the unsigned deltas derived from them.
//!
//! The venue does not report a reliable fill quantity to this component, so
//! the execution engine infers what filled by diffing the client's and the
//! custody vaults' balances across the venue call. Direction is inferred
//! from the order side, so every delta is an absolute difference.

use crate::order::Side;
use vstd::prelude::*;

verus! {

/// The unsigned difference between a balance before and after an execution
/// attempt.
pub open spec fn delta_of(before: u64, after: u64) -> int {
    if before >= after {
        before - after
    } else {
        after - before
    }
}

/// Balances of the client's wallets and the custody vaults on both legs,
/// before and after one execution attempt.
#[derive(Clone, Copy, Debug, PartialEq, Eq, Structural)]
pub struct PositionChanges {
    pub side: Side,
    pub client_coin_bal_before: u64,
    pub client_pc_bal_before: u64,
    pub sl_coin_bal_before: u64,
    pub sl_pc_bal_before: u64,
    pub client_coin_bal_after: u64,
    pub client_pc_bal_after: u64,
    pub sl_coin_bal_after: u64,
    pub sl_pc_bal_after: u64,
}

/// The change in the client's base-leg wallet across the attempt.
pub open spec fn client_coin_delta_of(p: PositionChanges) -> int {
    delta_of(p.client_coin_bal_before, p.client_coin_bal_after)
}

/// The change in the client's quote-leg wallet across the attempt.
pub open spec fn client_pc_delta_of(p: PositionChanges) -> int {
    delta_of(p.client_pc_bal_before, p.client_pc_bal_after)
}

/// The change in the custody base-leg vault across the attempt.
pub open spec fn sl_coin_delta_of(p: PositionChanges) -> int {
    delta_of(p.sl_coin_bal_before, p.sl_coin_bal_after)
}

/// The change in the custody quote-leg vault across the attempt.
pub open spec fn sl_pc_delta_of(p: PositionChanges) -> int {
    delta_of(p.sl_pc_bal_before, p.sl_pc_bal_after)
}

/// The aggregate fill price over both owners' balance changes: quote moved
/// net of the client's quote change, divided by the total base change; zero
/// when no base moved.
pub open spec fn fill_price_of(p: PositionChanges) -> int
    recommends
        client_pc_delta_of(p) <= sl_pc_delta_of(p),
{
    let coin_delta = client_coin_delta_of(p) + sl_coin_delta_of(p);
    if coin_delta == 0 {
        0
    } else {
        (sl_pc_delta_of(p) - client_pc_delta_of(p)) / coin_delta
    }
}

impl Default for PositionChanges {
    /// A tracker with every balance at zero, sided as a bid until recorded.
    fn default() -> (p: PositionChanges)
        ensures
            p == (PositionChanges {
                side: Side::Bid,
                client_coin_bal_before: 0,
                client_pc_bal_before: 0,
                sl_coin_bal_before: 0,
                sl_pc_bal_before: 0,
                client_coin_bal_after: 0,
                client_pc_bal_after: 0,
                sl_coin_bal_after: 0,
                sl_pc_bal_after: 0,
            }),
    {
        PositionChanges {
            side: Side::Bid,
            client_coin_bal_before: 0,
            client_pc_bal_before: 0,
            sl_coin_bal_before: 0,
            sl_pc_bal_before: 0,
            client_coin_bal_after: 0,
            client_pc_bal_after: 0,
            sl_coin_bal_after: 0,
            sl_pc_bal_after: 0,
        }
    }
}

impl PositionChanges {
    /// Records the order side and all four balances as they stand before the
    /// venue call.
    pub fn record_before(
        &mut self,
        side: Side,
        client_coin: u64,
        client_pc: u64,
        sl_coin: u64,
        sl_pc: u64,
    )
        ensures
            *final(self) == (PositionChanges {
                side,
                client_coin_bal_before: client_coin,
                client_pc_bal_before: client_pc,
                sl_coin_bal_before: sl_coin,
                sl_pc_bal_before: sl_pc,
                ..*old(self)
            }),
    {
        self.side = side;
        self.client_coin_bal_before = client_coin;
        self.client_pc_bal_before = client_pc;
        self.sl_coin_bal_before = sl_coin;
        self.sl_pc_bal_before = sl_pc;
    }

    /// Records all four balances as they stand after the venue call and the
    /// settlement of proceeds.
    pub fn record_after(&mut self, client_coin: u64, client_pc: u64, sl_coin: u64, sl_pc: u64)
        ensures
            *final(self) == (PositionChanges {
                client_coin_bal_after: client_coin,
                client_pc_bal_after: client_pc,
                sl_coin_bal_after: sl_coin,
                sl_pc_bal_after: sl_pc,
                ..*old(self)
            }),
    {
        self.client_coin_bal_after = client_coin;
        self.client_pc_bal_after = client_pc;
        self.sl_coin_bal_after = sl_coin;
        self.sl_pc_bal_after = sl_pc;
    }

    /// The aggregate fill price across both owners' balance changes.
    pub fn calc_fill_price(&self) -> (price: u64)
        requires
            client_coin_delta_of(*self) + sl_coin_delta_of(*self) <= u64::MAX,
            client_coin_delta_of(*self) + sl_coin_delta_of(*self) != 0 ==> client_pc_delta_of(
                *self,
            ) <= sl_pc_delta_of(*self),
        ensures
            price == fill_price_of(*self),
    {
        let sl_coin_delta = self.sl_coin_delta();
        let sl_pc_delta = self.sl_pc_delta();
        let client_coin_delta = self.client_coin_delta();
        let client_pc_delta = self.client_pc_delta();

        let coin_delta = client_coin_delta + sl_coin_delta;

        if coin_delta == 0 {
            return 0;
        }

        (sl_pc_delta - client_pc_delta) / coin_delta
    }

    /// The change in the client's base-leg wallet.
    pub fn client_coin_delta(&self) -> (d: u64)
        ensures
            d == client_coin_delta_of(*self),
    {
        self.delta(self.client_coin_bal_before, self.client_coin_bal_after)
    }

    /// The change in the client's quote-leg wallet.
    pub fn client_pc_delta(&self) -> (d: u64)
        ensures
            d == client_pc_delta_of(*self),
    {
        self.delta(self.client_pc_bal_before, self.client_pc_bal_after)
    }

    /// The change in the custody base-leg vault.
    pub fn sl_coin_delta(&self) -> (d: u64)
        ensures
            d == sl_coin_delta_of(*self),
    {
        self.delta(self.sl_coin_bal_before, self.sl_coin_bal_after)
    }

    /// The change in the custody quote-leg vault.
    pub fn sl_pc_delta(&self) -> (d: u64)
        ensures
            d == sl_pc_delta_of(*self),
    {
        self.delta(self.sl_pc_bal_before, self.sl_pc_bal_after)
    }

    /// The unsigned difference between a balance before and after.
    pub fn delta(&self, before: u64, after: u64) -> (d: u64)
        ensures
            d == delta_of(before, after),
    {
        if before >= after {
            before - after
        } else {
            after - before
        }
    }
}

} // verus!
