//! Price and lot-size conversion over venue-supplied market metadata.
//!
//! The venue reports quantities in raw token units; its market metadata gives
//! a lot size per leg. The fill price of a child order is the quote quantity
//! scaled by the base lot size and divided by the base quantity, truncating.

use vstd::prelude::*;

verus! {

/// The price derived from a quote quantity, a base quantity and the market's
/// base lot size. A fill with no base quantity has a defined price of zero,
/// never a division fault.
pub open spec fn price_of(pc_qty: u64, coin_qty: u64, coin_lot_size: u64) -> int {
    if coin_qty == 0 {
        0
    } else {
        (pc_qty * coin_lot_size) / (coin_qty as int)
    }
}

/// A raw base quantity converted to venue lot units, truncating.
pub open spec fn lots_of(size: u64, coin_lot_size: u64) -> int
    recommends
        coin_lot_size != 0,
{
    (size as int) / (coin_lot_size as int)
}

/// The decimal concatenation of a sequence of identifiers: each step shifts
/// the accumulator one decimal digit and adds the next element.
pub open spec fn concat_value(ids: Seq<u64>) -> int
    decreases ids.len(),
{
    if ids.len() == 0 {
        0
    } else {
        concat_value(ids.drop_last()) * 10 + ids.last()
    }
}

/// Derives the fill price from the filled quote quantity, the filled base
/// quantity and the market's base lot size: `pc_qty * coin_lot_size / coin_qty`,
/// truncating; zero when nothing of the base leg filled.
pub fn calculate_price_lots(pc_qty: u64, coin_qty: u64, coin_lot_size: u64) -> (price: u64)
    requires
        coin_qty != 0 ==> pc_qty * coin_lot_size <= u64::MAX,
    ensures
        price == price_of(pc_qty, coin_qty, coin_lot_size),
        coin_qty == 0 ==> price == 0,
{
    if coin_qty == 0 {
        return 0;
    }
    let scaled_pc_qty = pc_qty * coin_lot_size;
    scaled_pc_qty / coin_qty
}

/// Converts a raw base quantity to venue lot units.
pub fn coin_lots(size: u64, coin_lot_size: u64) -> (lots: u64)
    requires
        coin_lot_size != 0,
    ensures
        lots == lots_of(size, coin_lot_size),
{
    size / coin_lot_size
}

/// Folds a list of identifiers into one by decimal concatenation. Used to
/// build the composite (parent, child) identifier the venue sees.
pub fn concat_ids(ids: &[u64]) -> (acc: u64)
    requires
        forall|i: int| 0 <= i <= ids@.len() ==> concat_value(#[trigger] ids@.take(i)) <= u64::MAX,
    ensures
        acc == concat_value(ids@),
{
    let mut acc: u64 = 0;
    let mut k: usize = 0;
    while k < ids.len()
        invariant
            0 <= k <= ids@.len(),
            acc == concat_value(ids@.take(k as int)),
            forall|i: int| 0 <= i <= ids@.len() ==> concat_value(#[trigger] ids@.take(i)) <= u64::MAX,
        decreases ids@.len() - k,
    {
        proof {
            assert(ids@.take(k + 1).drop_last() =~= ids@.take(k as int));
            assert(ids@.take(k + 1).last() == ids@[k as int]);
            assert(concat_value(ids@.take(k + 1)) <= u64::MAX);
        }
        acc = acc * 10 + ids[k];
        k = k + 1;
    }
    proof {
        assert(ids@.take(ids@.len() as int) =~= ids@);
    }
    acc
}

} // verus!
