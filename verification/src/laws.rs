//! The library-wide laws, stated over the same spec-level models the
//! operations' own contracts use and proved once for all inputs.

use crate::amend::{amended_ledger, primary_cum_qty};
use crate::create::created_ledger;
use crate::execute::{
    coin_qty_filled_of, composite_order_id, executed_ledger, no_fill, pc_qty_filled_of,
    settled_coin_fill, settled_pc_fill,
};
use crate::order::{OrdStatus, Side, StoplossState, primary_leaves_qty, quantities_consistent};
use crate::position::PositionChanges;
use crate::pricing::concat_value;
use crate::accounts::NewOrder;
use vstd::prelude::*;

verus! {

/// A freshly created ledger satisfies the quantity invariant on both legs:
/// everything committed remains, nothing has filled.
pub proof fn lemma_creation_establishes_quantities(
    accounts: NewOrder,
    side: Side,
    limit_price: u64,
    client_order_id: u64,
    trigger_price: u64,
    max_coin_qty: u64,
    max_pc_qty: u64,
    should_create_open_orders: bool,
)
    ensures
        quantities_consistent(
            created_ledger(
                accounts,
                side,
                limit_price,
                client_order_id,
                trigger_price,
                max_coin_qty,
                max_pc_qty,
                should_create_open_orders,
            ),
        ),
{
}

/// A successful amendment preserves the quantity invariant on both legs:
/// redefining the committed maximum moves the remaining quantity by the
/// same difference.
pub proof fn lemma_amend_preserves_quantities(
    s: StoplossState,
    limit_price: u64,
    new_quantity: u64,
    trigger_price: u64,
)
    requires
        quantities_consistent(s),
        new_quantity >= primary_cum_qty(s),
    ensures
        quantities_consistent(amended_ledger(s, limit_price, new_quantity, trigger_price)),
{
}

/// An amendment of a live order that leaves the order `Filled` has reduced
/// the remaining quantity to zero on both legs.
pub proof fn lemma_amend_fill_exhausts_both_legs(
    s: StoplossState,
    limit_price: u64,
    new_quantity: u64,
    trigger_price: u64,
)
    requires
        s.ord_status != OrdStatus::Filled,
        amended_ledger(s, limit_price, new_quantity, trigger_price).ord_status
            == OrdStatus::Filled,
    ensures
        amended_ledger(s, limit_price, new_quantity, trigger_price).coin_leaves_qty == 0,
        amended_ledger(s, limit_price, new_quantity, trigger_price).pc_leaves_qty == 0,
{
}

/// A settled execution attempt that does not abandon the order preserves
/// the quantity invariant on both legs: each leg's fill moves from the
/// remaining to the cumulative quantity.
pub proof fn lemma_execution_preserves_quantities(
    s: StoplossState,
    p: PositionChanges,
    reuse_unfilled: bool,
    coin_lot_size: u64,
)
    requires
        quantities_consistent(s),
        s.child_order_count < u64::MAX,
        pc_qty_filled_of(s.side, p) >= 0,
        coin_qty_filled_of(s.side, p) >= 0,
        !no_fill(s.side, p) ==> settled_pc_fill(s.side, p, reuse_unfilled) <= s.pc_leaves_qty
            && settled_coin_fill(s.side, p, reuse_unfilled) <= s.coin_leaves_qty,
        reuse_unfilled || !no_fill(s.side, p),
    ensures
        quantities_consistent(executed_ledger(s, p, reuse_unfilled, coin_lot_size)),
{
}

/// A settled execution attempt that leaves the order `Filled` has exhausted
/// the remaining quantity on the order's primary leg.
pub proof fn lemma_execution_fill_exhausts_primary_leg(
    s: StoplossState,
    p: PositionChanges,
    reuse_unfilled: bool,
    coin_lot_size: u64,
)
    requires
        s.ord_status != OrdStatus::Filled,
        s.child_order_count < u64::MAX,
        executed_ledger(s, p, reuse_unfilled, coin_lot_size).ord_status == OrdStatus::Filled,
    ensures
        primary_leaves_qty(executed_ledger(s, p, reuse_unfilled, coin_lot_size)) == 0,
{
}

/// The composite child identifier is exactly the decimal concatenation of
/// the parent's order id and the child counter.
pub proof fn lemma_composite_is_decimal_concat(parent_order_id: u64, child_order_count: u64)
    ensures
        composite_order_id(parent_order_id, child_order_count) == concat_value(
            seq![parent_order_id, child_order_count],
        ),
{
    let s = seq![parent_order_id, child_order_count];
    let t = seq![parent_order_id];
    assert(s.drop_last() =~= t);
    assert(t.drop_last() =~= Seq::<u64>::empty());
    assert(concat_value(Seq::<u64>::empty()) == 0);
    assert(concat_value(t) == concat_value(t.drop_last()) * 10 + t.last());
    assert(concat_value(s) == concat_value(s.drop_last()) * 10 + s.last());
}

/// Composite child identifiers of one parent order grow strictly with the
/// child counter, so consecutive execution attempts can never hand the
/// venue the same identifier.
pub proof fn lemma_composite_ids_distinct(parent_order_id: u64, count1: u64, count2: u64)
    requires
        count1 < count2,
    ensures
        composite_order_id(parent_order_id, count1) < composite_order_id(
            parent_order_id,
            count2,
        ),
{
}

} // verus!
