use vstd::prelude::*;

use crate::address::Address;

verus! {

/// One side of a movement of value or of the item.
#[derive(Clone, Copy, Debug, PartialEq, Eq)]
pub enum Holder {
    /// The custodial account of the entity that the operation acts on. Only
    /// that entity's own operations move anything out of it.
    Custody,
    /// An account outside the entity.
    Account(Address),
}

/// A transfer that an operation asks the host to perform. The operations of
/// this library decide; the host moves. A list of movements is performed in
/// order, all or nothing.
#[derive(Clone, Copy, Debug, PartialEq, Eq)]
pub enum Movement {
    /// `amount` units of the fungible balance.
    Value { from: Holder, to: Holder, amount: u64 },
    /// The single, indivisible item.
    Item { from: Holder, to: Holder },
}

/// A movement of `amount` from `from` to `to`.
pub open spec fn value(from: Holder, to: Holder, amount: u64) -> Movement {
    Movement::Value { from, to, amount }
}

/// A movement of the item from `from` to `to`.
pub open spec fn item(from: Holder, to: Holder) -> Movement {
    Movement::Item { from, to }
}

/// What one movement brings into custody.
pub open spec fn inflow_of(m: Movement) -> int {
    match m {
        Movement::Value { from, to, amount } => if to == Holder::Custody && from != Holder::Custody {
            amount as int
        } else {
            0
        },
        Movement::Item { .. } => 0,
    }
}

/// What one movement takes out of custody.
pub open spec fn outflow_of(m: Movement) -> int {
    match m {
        Movement::Value { from, to, amount } => if from == Holder::Custody && to != Holder::Custody {
            amount as int
        } else {
            0
        },
        Movement::Item { .. } => 0,
    }
}

/// The total value that a list of movements brings into custody.
pub open spec fn custody_inflow(mvs: Seq<Movement>) -> int
    decreases mvs.len(),
{
    if mvs.len() == 0 {
        0
    } else {
        custody_inflow(mvs.drop_last()) + inflow_of(mvs.last())
    }
}

/// The total value that a list of movements takes out of custody.
pub open spec fn custody_outflow(mvs: Seq<Movement>) -> int
    decreases mvs.len(),
{
    if mvs.len() == 0 {
        0
    } else {
        custody_outflow(mvs.drop_last()) + outflow_of(mvs.last())
    }
}

/// The flows of a single movement.
pub proof fn lemma_flows_single(m: Movement)
    ensures
        custody_inflow(seq![m]) == inflow_of(m),
        custody_outflow(seq![m]) == outflow_of(m),
{
    let empty = Seq::<Movement>::empty();
    assert(seq![m].drop_last() =~= empty);
    assert(custody_inflow(empty) == 0);
    assert(custody_outflow(empty) == 0);
    assert(seq![m].last() == m);
}

/// Inflow and outflow add up over consecutive lists of movements.
pub proof fn lemma_flows_concat(a: Seq<Movement>, b: Seq<Movement>)
    ensures
        custody_inflow(a + b) == custody_inflow(a) + custody_inflow(b),
        custody_outflow(a + b) == custody_outflow(a) + custody_outflow(b),
    decreases b.len(),
{
    if b.len() == 0 {
        assert(a + b =~= a);
    } else {
        lemma_flows_concat(a, b.drop_last());
        assert((a + b).drop_last() =~= a + b.drop_last());
        assert((a + b).last() == b.last());
    }
}

} // verus!
