use crate::bar::{Bar, DatasetRef};
use crate::errors::PositionError;
use crate::instrument::instrument_id_eq;
use crate::order::Order;
use crate::position::{in_i128, on_bar_fits, on_bar_post, Position};
use crate::profit::Profit;
use crate::ratio::Ratio;
use crate::strategy::Strategy;
use vstd::prelude::*;

verus! {

/// Sum of the positions' cumulative traded notionals.
pub open spec fn volume_sum(s: Seq<Position>) -> int
    decreases s.len(),
{
    if s.len() == 0 {
        0
    } else {
        volume_sum(s.drop_last()) + s.last().traded_volume_usd
    }
}

/// Every position of the book is well formed.
pub open spec fn positions_wf(s: Seq<Position>) -> bool {
    forall|i: int| 0 <= i < s.len() ==> (#[trigger] s[i]).wf()
}

/// Every profit record's amount is a well-formed ratio.
pub open spec fn profits_wf(rows: Seq<Profit>) -> bool {
    forall|l: int| 0 <= l < rows.len() ==> (#[trigger] rows[l]).profit.wf()
}

/// The bars' timestamps never decrease.
pub open spec fn timestamps_non_decreasing(bars: Seq<Bar>) -> bool {
    forall|i: int, j: int|
        #![trigger bars[i].timestamp, bars[j].timestamp]
        0 <= i <= j < bars.len() ==> bars[i].timestamp <= bars[j].timestamp
}

/// Effect of one bar on one position: untouched when its queue was empty,
/// else exactly one order executed per `on_bar_post` (which also requires
/// the exact bookkeeping to fit).
pub open spec fn settle_pos_post(p: Position, bar: Bar, q: Position) -> bool {
    if p.orders@.len() == 0 {
        q == p
    } else {
        on_bar_fits(p, bar) && on_bar_post(p, bar, q)
    }
}

/// This bar's execution realized a close that left the position flat: an
/// order was executed, the position ended flat, and a profit record was
/// appended.
pub open spec fn emits_profit(p: Position, q: Position) -> bool {
    &&& p.orders@.len() > 0
    &&& q.position == 0
    &&& q.realized_profits@.len() > p.realized_profits@.len()
}

/// Route the strategy's decision for one bar: no decision does nothing;
/// an order goes to its instrument's position queue. Rejected exactly
/// when the order names an instrument index with no position
/// (`UnknownInstrument`) or an identity differing from that position's
/// (`InstrumentMismatch`); nothing changes on rejection.
pub fn submit_order(positions: &mut Vec<Position>, decision: Option<Order>) -> (r: Result<
    (),
    PositionError,
>)
    requires
        positions_wf(old(positions)@),
    ensures
        positions_wf(final(positions)@),
        final(positions)@.len() == old(positions)@.len(),
        decision is None ==> r == Ok::<(), PositionError>(()) && final(positions)@ == old(positions)@,
        decision matches Some(order) ==> {
            let idx = order.instrument_id.index as int;
            if idx >= old(positions)@.len() {
                r == Err::<(), PositionError>(PositionError::UnknownInstrument) && final(positions)@ == old(positions)@
            } else if !instrument_id_eq(order.instrument_id, old(positions)@[idx].instrument_id) {
                r == Err::<(), PositionError>(PositionError::InstrumentMismatch) && final(positions)@ == old(positions)@
            } else {
                &&& r == Ok::<(), PositionError>(())
                &&& final(positions)@[idx].orders@ == old(positions)@[idx].orders@.push(order)
                &&& old(positions)@[idx].same_but_orders(final(positions)@[idx])
                &&& (forall|j: int|
                    0 <= j < old(positions)@.len() && j != idx ==> final(positions)@[j] == old(positions)@[j])
            }
        },
{
    match decision {
        None => Ok(()),
        Some(order) => {
            let idx: usize = order.instrument_id.index;
            if idx >= positions.len() {
                return Err(PositionError::UnknownInstrument);
            }
            match positions[idx].on_order(order) {
                Ok(()) => Ok(()),
                Err(e) => Err(e),
            }
        },
    }
}

/// Execute one bar against one position: pop and fill at most one queued
/// order; when that execution realizes a close leaving the position flat,
/// hand back that position's latest realized profit, which carries this
/// bar's timestamp.
fn settle_one(p: &mut Position, bar: &Bar) -> (r: Result<Option<Profit>, PositionError>)
    requires
        old(p).wf(),
    ensures
        final(p).wf(),
        r matches Ok(opt) ==> {
            &&& settle_pos_post(*old(p), *bar, *final(p))
            &&& (opt is Some <==> emits_profit(*old(p), *final(p)))
            &&& (opt matches Some(row) ==> row == final(p).realized_profits@.last()
                && row.timestamp == bar.timestamp && row.profit.wf())
        },
        r is Err ==> r == Err::<Option<Profit>, PositionError>(PositionError::Overflow) && *final(p) == *old(p) && old(p).orders@.len() > 0 && !on_bar_fits(*old(p), *bar),
{
    let before_profits: usize = p.realized_profits.len();
    let trade_made: bool = match p.on_bar(bar) {
        Ok(b) => b,
        Err(e) => { return Err(e) },
    };
    if trade_made && p.position() == 0 && p.realized_profits.len() > before_profits {
        let row: Profit = match p.last_realized_profit() {
            Some(profit) => profit,
            None => {
                proof {
                    assert(false);
                }
                Profit { timestamp: 0, profit: Ratio { num: 0, den: 1 } }
            },
        };
        proof {
            let p0 = *old(p);
            let q = *p;
            assert(on_bar_post(p0, *bar, q));
            assert(crate::position::on_bar_is_closing(p0)) by {
                if !crate::position::on_bar_is_closing(p0) {
                    assert(q.realized_profits@ == p0.realized_profits@);
                }
            }
            assert(q.realized_profits@.last().timestamp == bar.timestamp);
        }
        Ok(Some(row))
    } else {
        proof {
            let p0 = *old(p);
            let q = *p;
            if !trade_made {
                assert(q == p0);
            } else {
                assert(on_bar_post(p0, *bar, q));
            }
            assert(!emits_profit(p0, q));
        }
        Ok(None)
    }
}

/// Execute one bar against every position in index order: each position
/// pops and fills at most one queued order, and whenever that execution
/// realizes a close leaving the position flat, that position's latest
/// realized profit — carrying this bar's timestamp — is appended to the
/// profit record. Stops at the first position whose exact bookkeeping
/// leaves `i128`, leaving that and the following positions untouched.
#[verifier::rlimit(80)]
pub fn settle_bar(positions: &mut Vec<Position>, bar: &Bar, realized: &mut Vec<Profit>) -> (r:
    Result<(), PositionError>)
    requires
        positions_wf(old(positions)@),
        profits_wf(old(realized)@),
    ensures
        positions_wf(final(positions)@),
        final(positions)@.len() == old(positions)@.len(),
        old(realized)@.is_prefix_of(final(realized)@),
        profits_wf(final(realized)@),
        forall|l: int|
            old(realized)@.len() <= l < final(realized)@.len() ==> (#[trigger] final(realized)@[l]).timestamp == bar.timestamp && (exists|i: int|
                0 <= i < old(positions)@.len() && #[trigger] emits_profit(
                    old(positions)@[i],
                    final(positions)@[i],
                ) && final(realized)@[l] == final(positions)@[i].realized_profits@.last()),
        r is Ok ==> (forall|i: int|
            0 <= i < old(positions)@.len() ==> settle_pos_post(
                #[trigger] old(positions)@[i],
                *bar,
                final(positions)@[i],
            )),
        r is Ok ==> (forall|i: int|
            0 <= i < old(positions)@.len() && #[trigger] emits_profit(
                old(positions)@[i],
                final(positions)@[i],
            ) ==> (exists|l: int|
                old(realized)@.len() <= l < final(realized)@.len() && final(realized)@[l] == final(positions)@[i].realized_profits@.last())),
        r is Err ==> r == Err::<(), PositionError>(PositionError::Overflow) && (exists|i: int|
            0 <= i < old(positions)@.len() && (#[trigger] old(positions)@[i]).orders@.len() > 0
                && !on_bar_fits(old(positions)@[i], *bar) && (forall|j: int|
                0 <= j < i ==> settle_pos_post(old(positions)@[j], *bar, final(positions)@[j]))
                && (forall|j: int|
                i <= j < old(positions)@.len() ==> final(positions)@[j] == old(positions)@[j])),
{
    let n: usize = positions.len();
    let mut i: usize = 0;
    while i < n
        invariant
            n == positions@.len(),
            positions@.len() == old(positions)@.len(),
            i <= n,
            positions_wf(positions@),
            profits_wf(realized@),
            old(realized)@.is_prefix_of(realized@),
            forall|j: int| i <= j < n ==> positions@[j] == old(positions)@[j],
            forall|j: int|
                0 <= j < i ==> settle_pos_post(#[trigger] old(positions)@[j], *bar, positions@[j]),
            forall|l: int|
                old(realized)@.len() <= l < realized@.len() ==> (#[trigger] realized@[l]).timestamp
                    == bar.timestamp && (exists|ii: int|
                    0 <= ii < i && #[trigger] emits_profit(old(positions)@[ii], positions@[ii])
                        && realized@[l] == positions@[ii].realized_profits@.last()),
            forall|j: int|
                0 <= j < i && #[trigger] emits_profit(old(positions)@[j], positions@[j]) ==> (
                exists|l: int|
                    old(realized)@.len() <= l < realized@.len() && realized@[l]
                        == positions@[j].realized_profits@.last()),
        decreases n - i,
    {
        let ghost pos_before = positions@;
        let ghost rows_before = realized@;
        let step: Result<Option<Profit>, PositionError> = {
            let p: &mut Position = &mut positions[i];
            settle_one(p, bar)
        };
        proof {
            assert(positions@ == pos_before.update(i as int, positions@[i as int]));
        }
        let emitted: Option<Profit> = match step {
            Ok(opt) => opt,
            Err(e) => {
                proof {
                    assert(positions@ =~= pos_before);
                }
                return Err(e);
            },
        };
        match emitted {
            Some(row) => {
                realized.push(row);
                proof {
                    assert forall|l: int|
                        old(realized)@.len() <= l < realized@.len() implies (
                    #[trigger] realized@[l]).timestamp == bar.timestamp && (exists|ii: int|
                        0 <= ii < i + 1 && #[trigger] emits_profit(
                            old(positions)@[ii],
                            positions@[ii],
                        ) && realized@[l] == positions@[ii].realized_profits@.last()) by {
                        if l < rows_before.len() {
                            assert(realized@[l] == rows_before[l]);
                            let ii = choose|ii: int|
                                0 <= ii < i && #[trigger] emits_profit(
                                    old(positions)@[ii],
                                    pos_before[ii],
                                ) && rows_before[l] == pos_before[ii].realized_profits@.last();
                            assert(positions@[ii] == pos_before[ii]);
                        } else {
                            assert(realized@[l] == row);
                            assert(emits_profit(old(positions)@[i as int], positions@[i as int]));
                        }
                    }
                    assert forall|j: int|
                        0 <= j < i + 1 && #[trigger] emits_profit(
                            old(positions)@[j],
                            positions@[j],
                        ) implies (exists|l: int|
                        old(realized)@.len() <= l < realized@.len() && realized@[l]
                            == positions@[j].realized_profits@.last()) by {
                        if j < i {
                            assert(positions@[j] == pos_before[j]);
                            let l = choose|l: int|
                                old(realized)@.len() <= l < rows_before.len() && rows_before[l]
                                    == pos_before[j].realized_profits@.last();
                            assert(realized@[l] == rows_before[l]);
                        } else {
                            assert(realized@[rows_before.len() as int] == row);
                        }
                    }
                }
            },
            None => {
                proof {
                    assert forall|l: int|
                        old(realized)@.len() <= l < realized@.len() implies (
                    #[trigger] realized@[l]).timestamp == bar.timestamp && (exists|ii: int|
                        0 <= ii < i + 1 && #[trigger] emits_profit(
                            old(positions)@[ii],
                            positions@[ii],
                        ) && realized@[l] == positions@[ii].realized_profits@.last()) by {
                        assert(realized@[l] == rows_before[l]);
                        let ii = choose|ii: int|
                            0 <= ii < i && #[trigger] emits_profit(
                                old(positions)@[ii],
                                pos_before[ii],
                            ) && rows_before[l] == pos_before[ii].realized_profits@.last();
                        assert(positions@[ii] == pos_before[ii]);
                    }
                    assert forall|j: int|
                        0 <= j < i + 1 && #[trigger] emits_profit(
                            old(positions)@[j],
                            positions@[j],
                        ) implies (exists|l: int|
                        old(realized)@.len() <= l < realized@.len() && realized@[l]
                            == positions@[j].realized_profits@.last()) by {
                        if j < i {
                            assert(positions@[j] == pos_before[j]);
                            let l = choose|l: int|
                                old(realized)@.len() <= l < rows_before.len() && rows_before[l]
                                    == pos_before[j].realized_profits@.last();
                            assert(realized@[l] == rows_before[l]);
                        }
                    }
                }
            },
        }
        i = i + 1;
    }
        Ok(())
}

/// Replays a strategy over the whole dataset: each bar, the strategy may
/// submit one order to its instrument's position (`submit_order`), then
/// every position executes at most one queued order against the bar and
/// flatten events append profit rows (`settle_bar`).
pub struct Backtester<S: Strategy> {
    pub positions: Vec<Position>,
    pub dataset: DatasetRef,
    pub strategy: S,
    pub realized_profits: Vec<Profit>,
}

impl<S: Strategy> Backtester<S> {
    pub open spec fn wf(self) -> bool {
        &&& positions_wf(self.positions@)
        &&& profits_wf(self.realized_profits@)
    }

    pub fn new(positions: Vec<Position>, dataset: DatasetRef, strategy: S) -> (r: Backtester<S>)
        requires
            positions_wf(positions@),
        ensures
            r.wf(),
            r.positions == positions,
            r.dataset == dataset,
            r.strategy == strategy,
            r.realized_profits@.len() == 0,
    {
        Backtester { positions, dataset, strategy, realized_profits: Vec::new() }
    }

    /// Run the whole dataset, one `submit_order` and one `settle_bar` per
    /// bar in order; those two carry the exact per-bar semantics. Stops
    /// with the strategy's order rejected or with the exact bookkeeping
    /// out of range; otherwise every bar was processed. Every appended
    /// profit row carries the timestamp of the bar that realized it, so
    /// on a dataset with non-decreasing timestamps the appended rows are
    /// chronological.
    pub fn run(&mut self) -> (r: Result<(), PositionError>)
        requires
            old(self).wf(),
        ensures
            final(self).wf(),
            final(self).dataset == old(self).dataset,
            final(self).positions@.len() == old(self).positions@.len(),
            old(self).realized_profits@.is_prefix_of(final(self).realized_profits@),
            forall|l: int|
                old(self).realized_profits@.len() <= l < final(self).realized_profits@.len() ==> (
                exists|j: int|
                    0 <= j < old(self).dataset@.len() && (#[trigger] final(self).realized_profits@[l]).timestamp == old(self).dataset@[j].timestamp),
            timestamps_non_decreasing(old(self).dataset@) ==> (forall|l1: int, l2: int|
                old(self).realized_profits@.len() <= l1 <= l2 < final(self).realized_profits@.len() ==> (#[trigger] final(self).realized_profits@[l1]).timestamp <= (#[trigger] final(self).realized_profits@[l2]).timestamp),
    {
        let dlen: usize = self.dataset.len();
        let mut bar_index: usize = 0;
        while bar_index < dlen
            invariant
                self.wf(),
                dlen == self.dataset@.len(),
                bar_index <= dlen,
                self.positions@.len() == old(self).positions@.len(),
                self.dataset == old(self).dataset,
                old(self).realized_profits@.is_prefix_of(self.realized_profits@),
                forall|l: int|
                    old(self).realized_profits@.len() <= l < self.realized_profits@.len() ==> (
                    exists|j: int|
                        0 <= j < bar_index && (#[trigger] self.realized_profits@[l]).timestamp
                            == self.dataset@[j].timestamp),
                timestamps_non_decreasing(self.dataset@) ==> (forall|l1: int, l2: int|
                    old(self).realized_profits@.len() <= l1 <= l2 < self.realized_profits@.len()
                        ==> (#[trigger] self.realized_profits@[l1]).timestamp <= (#[trigger] self.realized_profits@[l2]).timestamp),
            decreases dlen - bar_index,
        {
            let bar: Bar = {
                let bars: &Vec<Bar> = &self.dataset;
                bars[bar_index]
            };
            let decision: Option<Order> = self.strategy.trade_decision(
                bar_index,
                &bar,
                &self.positions,
            );
            match submit_order(&mut self.positions, decision) {
                Ok(()) => {
                },
                Err(e) => { return Err(e) },
            }
            let ghost rows_before = self.realized_profits@;
            let settle_result: Result<(), PositionError> = settle_bar(
                &mut self.positions,
                &bar,
                &mut self.realized_profits,
            );
            proof {
                assert forall|l: int|
                    old(self).realized_profits@.len() <= l
                        < self.realized_profits@.len() implies (exists|j: int|
                    0 <= j < bar_index + 1 && (#[trigger] self.realized_profits@[l]).timestamp
                        == self.dataset@[j].timestamp) by {
                    if l < rows_before.len() {
                        assert(self.realized_profits@[l] == rows_before[l]);
                        let j0 = choose|j: int|
                            0 <= j < bar_index && (#[trigger] rows_before[l]).timestamp
                                == self.dataset@[j].timestamp;
                        assert(self.realized_profits@[l].timestamp == self.dataset@[j0].timestamp);
                    } else {
                        assert(self.realized_profits@[l].timestamp == bar.timestamp);
                        assert(bar == self.dataset@[bar_index as int]);
                        assert(self.realized_profits@[l].timestamp == self.dataset@[bar_index as int].timestamp);
                    }
                }
                if timestamps_non_decreasing(self.dataset@) {
                    assert forall|l1: int, l2: int|
                        old(self).realized_profits@.len() <= l1 <= l2
                            < self.realized_profits@.len() implies (
                    #[trigger] self.realized_profits@[l1]).timestamp <= (
                    #[trigger] self.realized_profits@[l2]).timestamp by {
                        if l2 < rows_before.len() {
                            assert(self.realized_profits@[l1] == rows_before[l1]);
                            assert(self.realized_profits@[l2] == rows_before[l2]);
                        } else if l1 < rows_before.len() {
                            assert(self.realized_profits@[l1] == rows_before[l1]);
                            let j = choose|j: int|
                                0 <= j < bar_index && (#[trigger] rows_before[l1]).timestamp
                                    == self.dataset@[j].timestamp;
                            assert(self.dataset@[j].timestamp
                                <= self.dataset@[bar_index as int].timestamp);
                            assert(self.realized_profits@[l2].timestamp == bar.timestamp);
                        } else {
                            assert(self.realized_profits@[l1].timestamp == bar.timestamp);
                            assert(self.realized_profits@[l2].timestamp == bar.timestamp);
                        }
                    }
                }
            }
            match settle_result {
                Ok(()) => {
                },
                Err(e) => { return Err(e) },
            }
            bar_index = bar_index + 1;
        }
        Ok(())
    }

    /// The record of profits realized at flatten events, in order of
    /// occurrence.
    pub fn realized_profits(&self) -> (r: &Vec<Profit>)
        ensures
            r@ == self.realized_profits@,
    {
        &self.realized_profits
    }

    /// Total traded notional over all positions, or `None` when a partial
    /// sum leaves `i128`.
    pub fn traded_volume_usd(&self) -> (r: Option<i128>)
        ensures
            r matches Some(v) ==> v == volume_sum(self.positions@),
            r is None ==> exists|i: int|
                1 <= i <= self.positions@.len() && !in_i128(
                    volume_sum(#[trigger] self.positions@.take(i)),
                ),
    {
        let n: usize = self.positions.len();
        let mut total: i128 = 0;
        let mut i: usize = 0;
        while i < n
            invariant
                n == self.positions@.len(),
                i <= n,
                total == volume_sum(self.positions@.take(i as int)),
            decreases n - i,
        {
            let next: i128 = match total.checked_add(self.positions[i].traded_volume_usd()) {
                Some(v) => v,
                None => {
                    proof {
                        assert(self.positions@.take(i as int + 1).drop_last()
                            =~= self.positions@.take(i as int));
                        assert(self.positions@.take(i as int + 1).last()
                            == self.positions@[i as int]);
                        assert(!in_i128(volume_sum(self.positions@.take(i as int + 1))));
                    }
                    return None;
                },
            };
            proof {
                assert(self.positions@.take(i as int + 1).drop_last() =~= self.positions@.take(
                    i as int,
                ));
                assert(self.positions@.take(i as int + 1).last() == self.positions@[i as int]);
            }
            total = next;
            i = i + 1;
        }
        proof {
            assert(self.positions@.take(n as int) =~= self.positions@);
        }
        Some(total)
    }
}

} // verus!
