use crate::bar::Bar;
use crate::errors::PositionError;
use crate::instrument::{instrument_id_eq, InstrumentId, InstrumentSpec};
use crate::order::Order;
use crate::profit::Profit;
use crate::ratio::Ratio;
use std::collections::VecDeque;
use vstd::math::abs;
use vstd::prelude::*;

verus! {

/// The value `x` fits in an `i128`.
pub open spec fn in_i128(x: int) -> bool {
    i128::MIN <= x <= i128::MAX
}

/// Per-instrument accounting state machine. Orders are queued first-in
/// first-out and executed one per bar against the bar's mid price; closes
/// realize exact rational profit against the size-weighted average entry
/// price.
pub struct Position {
    pub instrument_id: InstrumentId,
    pub instrument_spec: InstrumentSpec,
    pub orders: VecDeque<Order>,
    pub avg_price: Ratio,
    pub position: i32,
    pub realized_profits: Vec<Profit>,
    pub realized_profit: Ratio,
    pub traded_volume_usd: i128,
}

impl Position {
    /// Accounting invariant: rationals are well formed, and the average
    /// price is exactly zero whenever the position is flat.
    pub open spec fn wf(self) -> bool {
        &&& self.avg_price.wf()
        &&& self.realized_profit.wf()
        &&& (self.position == 0 ==> self.avg_price.num == 0 && self.avg_price.den == 1)
        &&& forall|i: int|
            0 <= i < self.realized_profits@.len()
                ==> (#[trigger] self.realized_profits@[i]).profit.wf()
    }

    /// All fields other than the order queue agree.
    pub open spec fn same_but_orders(self, t: Position) -> bool {
        &&& t.instrument_id == self.instrument_id
        &&& t.instrument_spec == self.instrument_spec
        &&& t.avg_price == self.avg_price
        &&& t.position == self.position
        &&& t.realized_profits == self.realized_profits
        &&& t.realized_profit == self.realized_profit
        &&& t.traded_volume_usd == self.traded_volume_usd
    }

    pub fn new(instrument_id: InstrumentId, instrument_spec: InstrumentSpec) -> (r: Position)
        ensures
            r.wf(),
            r.instrument_id == instrument_id,
            r.instrument_spec == instrument_spec,
            r.orders@.len() == 0,
            r.avg_price.num == 0 && r.avg_price.den == 1,
            r.position == 0,
            r.realized_profits@.len() == 0,
            r.realized_profit.num == 0 && r.realized_profit.den == 1,
            r.traded_volume_usd == 0,
    {
        Position {
            instrument_id,
            instrument_spec,
            orders: VecDeque::new(),
            avg_price: Ratio { num: 0, den: 1 },
            position: 0,
            realized_profits: Vec::new(),
            realized_profit: Ratio { num: 0, den: 1 },
            traded_volume_usd: 0,
        }
    }

    /// Enqueue an order at the tail of the FIFO queue; nothing executes yet.
    /// Submitting an order for another instrument is a programmer error and
    /// is rejected without touching any state.
    pub fn on_order(&mut self, order: Order) -> (r: Result<(), PositionError>)
        requires
            old(self).wf(),
        ensures
            final(self).wf(),
            instrument_id_eq(order.instrument_id, old(self).instrument_id) ==> {
                &&& r == Ok::<(), PositionError>(())
                &&& final(self).orders@ == old(self).orders@.push(order)
                &&& old(self).same_but_orders(*final(self))
            },
            !instrument_id_eq(order.instrument_id, old(self).instrument_id) ==> {
                &&& r == Err::<(), PositionError>(PositionError::InstrumentMismatch)
                &&& *final(self) == *old(self)
            },
    {
        if !order.instrument_id.matches(&self.instrument_id) {
            return Err(PositionError::InstrumentMismatch);
        }
        self.orders.push_back(order);
        Ok(())
    }

    pub fn position(&self) -> (r: i32)
        ensures
            r == self.position,
    {
        self.position
    }

    pub fn realized_profits(&self) -> (r: &Vec<Profit>)
        ensures
            r@ == self.realized_profits@,
    {
        &self.realized_profits
    }

    /// Cumulative realized profit over all close events, as an exact ratio.
    pub fn realized_profit(&self) -> (r: Ratio)
        ensures
            r == self.realized_profit,
    {
        self.realized_profit
    }

    pub fn last_realized_profit(&self) -> (r: Option<Profit>)
        ensures
            self.realized_profits@.len() == 0 ==> r is None,
            self.realized_profits@.len() > 0 ==> r == Some(
                self.realized_profits@[self.realized_profits@.len() - 1],
            ),
    {
        let n: usize = self.realized_profits.len();
        if n == 0 {
            None
        } else {
            Some(self.realized_profits[n - 1])
        }
    }

    pub fn instrument_id(&self) -> (r: &InstrumentId)
        ensures
            r == &self.instrument_id,
    {
        &self.instrument_id
    }

    /// Cumulative traded notional, `sum |size| * fill_price * multiplier`.
    pub fn traded_volume_usd(&self) -> (r: i128)
        ensures
            r == self.traded_volume_usd,
    {
        self.traded_volume_usd
    }
}

/// A flat book carries no entry price: whenever the position is zero the
/// average price is exactly zero. Holds of every state the accounting
/// methods produce, over any sequence of orders and bars.
pub proof fn lemma_flat_position_has_zero_average(p: Position)
    requires
        p.wf(),
        p.position == 0,
    ensures
        p.avg_price.is_int(0),
        p.avg_price.num == 0,
{
}

/// The order that the next `on_bar` call executes: the head of the queue.
pub open spec fn next_order(s: Position) -> Order {
    s.orders@[0]
}

/// The next order closes: the position is open and the order's sign is
/// opposite to the position's sign. A flat position is never closed, and a
/// zero-size order has no sign.
pub open spec fn on_bar_is_closing(s: Position) -> bool {
    &&& s.position != 0
    &&& next_order(s).size != 0
    &&& ((s.position > 0) != (next_order(s).size > 0))
}

/// Lots actually closed: the smaller of the open size and the order size.
pub open spec fn closed_lots(s: Position) -> int {
    vstd::math::min(abs(s.position as int) as int, abs(next_order(s).size as int) as int)
}

/// Sign of the open position; meaningful only when it is not flat.
pub open spec fn position_sign(s: Position) -> int {
    if s.position > 0 {
        1
    } else {
        -1
    }
}

/// Notional traded by the next order at this bar's price.
pub open spec fn on_bar_volume(s: Position, bar: Bar) -> int {
    (abs(next_order(s).size as int) * bar.mid_price) * s.instrument_spec.multiplier
}

/// Numerator of the realized profit of a close, over denominator
/// `avg_price.den`:
/// `multiplier * closed * sign(position) * (fill - avg) - fee * closed`.
pub open spec fn closing_profit_num(s: Position, bar: Bar) -> int {
    ((closed_lots(s) * position_sign(s)) * s.instrument_spec.multiplier) * (bar.mid_price
        * s.avg_price.den - s.avg_price.num) - (s.instrument_spec.fee * closed_lots(s))
        * s.avg_price.den
}

/// Every intermediate of the exact `on_bar` bookkeeping stays inside the
/// fixed-width integer types; when this fails `on_bar` reports `Overflow`
/// and leaves the state untouched.
pub open spec fn on_bar_fits(s: Position, bar: Bar) -> bool {
    let o = next_order(s);
    let p = bar.mid_price as int;
    let q = abs(o.size as int) as int;
    let a_num = s.avg_price.num as int;
    let a_den = s.avg_price.den as int;
    let m = s.instrument_spec.multiplier as int;
    let f = s.instrument_spec.fee as int;
    &&& in_i128(q * p)
    &&& in_i128((q * p) * m)
    &&& in_i128(s.traded_volume_usd + (q * p) * m)
    &&& if on_bar_is_closing(s) {
        let c = closed_lots(s);
        let sgn = position_sign(s);
        let w2 = p * a_den - a_num;
        let w4 = (c * sgn) * m;
        let w5 = w4 * w2;
        let w7 = (f * c) * a_den;
        let pn = w5 - w7;
        &&& in_i128(p * a_den)
        &&& in_i128(w2)
        &&& in_i128(c * sgn)
        &&& in_i128(w4)
        &&& in_i128(w5)
        &&& in_i128(f * c)
        &&& in_i128(w7)
        &&& in_i128(pn)
        &&& in_i128(s.realized_profit.num * a_den)
        &&& in_i128(pn * s.realized_profit.den)
        &&& in_i128(s.realized_profit.num * a_den + pn * s.realized_profit.den)
        &&& in_i128(s.realized_profit.den * a_den)
    } else {
        let pos2 = s.position + o.size;
        let pa = abs(s.position as int) as int;
        &&& i32::MIN <= pos2 <= i32::MAX
        &&& (pos2 != 0 ==> {
            &&& in_i128(a_num * pa)
            &&& in_i128(p * q)
            &&& in_i128((p * q) * a_den)
            &&& in_i128(a_num * pa + (p * q) * a_den)
            &&& in_i128(a_den * (pa + q))
        })
    }
}

/// State after a close: the head order pops, profit is realized at this
/// bar's timestamp, and the position shrinks, flips, or flattens.
pub open spec fn on_bar_close_post(s: Position, bar: Bar, t: Position) -> bool {
    let o = next_order(s);
    let c = closed_lots(s);
    let sgn = position_sign(s);
    let pn = closing_profit_num(s, bar);
    let pos_after = s.position - sgn * c;
    let open_size = s.position + o.size;
    &&& t.realized_profits@ == s.realized_profits@.push(
        Profit {
            timestamp: bar.timestamp,
            profit: Ratio { num: pn as i128, den: s.avg_price.den },
        },
    )
    &&& t.realized_profit.num == s.realized_profit.num * s.avg_price.den + pn
        * s.realized_profit.den
    &&& t.realized_profit.den == s.realized_profit.den * s.avg_price.den
    &&& if pos_after == 0 {
        if open_size == 0 {
            &&& t.position == 0
            &&& t.avg_price.num == 0
            &&& t.avg_price.den == 1
        } else {
            &&& t.position == open_size
            &&& t.avg_price.num == bar.mid_price
            &&& t.avg_price.den == 1
        }
    } else {
        &&& t.position == pos_after
        &&& t.avg_price == s.avg_price
    }
}

/// State after an open or add: the head order pops, the average price
/// becomes the size-weighted mean of the prior average and the fill price.
pub open spec fn on_bar_open_post(s: Position, bar: Bar, t: Position) -> bool {
    let o = next_order(s);
    let pos2 = s.position + o.size;
    let pa = abs(s.position as int) as int;
    let q = abs(o.size as int) as int;
    &&& t.realized_profits@ == s.realized_profits@
    &&& t.realized_profit == s.realized_profit
    &&& t.position == pos2
    &&& if pos2 == 0 {
        &&& t.avg_price.num == 0
        &&& t.avg_price.den == 1
    } else {
        &&& t.avg_price.num == s.avg_price.num * pa + (bar.mid_price * q) * s.avg_price.den
        &&& t.avg_price.den == s.avg_price.den * (pa + q)
    }
}

/// Full effect of executing the head order against a bar.
pub open spec fn on_bar_post(s: Position, bar: Bar, t: Position) -> bool {
    &&& t.orders@ == s.orders@.subrange(1, s.orders@.len() as int)
    &&& t.instrument_id == s.instrument_id
    &&& t.instrument_spec == s.instrument_spec
    &&& t.traded_volume_usd == s.traded_volume_usd + on_bar_volume(s, bar)
    &&& if on_bar_is_closing(s) {
        on_bar_close_post(s, bar, t)
    } else {
        on_bar_open_post(s, bar, t)
    }
}

/// First-in, first-out execution: with orders queued in the order `o1`,
/// `o2`, each successful `on_bar` call executes exactly one order, in
/// submission order, never more than one per call — the first call
/// executes `o1` and leaves only `o2` queued, the second executes `o2`
/// and empties the queue.
pub proof fn lemma_fifo_two_orders(s0: Position, o1: Order, o2: Order, b1: Bar, s1: Position, b2: Bar, s2: Position)
    requires
        s0.orders@ == seq![o1, o2],
        on_bar_post(s0, b1, s1),
        on_bar_post(s1, b2, s2),
    ensures
        next_order(s0) == o1,
        s1.orders@ == seq![o2],
        next_order(s1) == o2,
        s2.orders@.len() == 0,
{
    assert(s1.orders@ =~= seq![o2]);
    assert(s2.orders@ =~= Seq::<Order>::empty());
}

impl Position {
    /// Execute at most one queued order against this bar's mid price.
    ///
    /// Returns `Ok(true)` exactly when an order was popped and executed,
    /// `Ok(false)` when the queue was empty, and `Err(Overflow)` (with the
    /// state untouched) when the exact bookkeeping would leave `i128`.
    pub fn on_bar(&mut self, bar: &Bar) -> (r: Result<bool, PositionError>)
        requires
            old(self).wf(),
        ensures
            final(self).wf(),
            old(self).orders@.len() == 0 ==> r == Ok::<bool, PositionError>(false) && *final(self)
                == *old(self),
            old(self).orders@.len() > 0 && on_bar_fits(*old(self), *bar) ==> r == Ok::<
                bool,
                PositionError,
            >(true) && on_bar_post(*old(self), *bar, *final(self)),
            old(self).orders@.len() > 0 && !on_bar_fits(*old(self), *bar) ==> r == Err::<
                bool,
                PositionError,
            >(PositionError::Overflow) && *final(self) == *old(self),
    {
        if self.orders.len() == 0 {
            return Ok(false);
        }
        let order_size: i32 = self.orders[0].size;
        let p128: i128 = bar.mid_price as i128;
        let q_i64: i64 = if order_size < 0 {
            -(order_size as i64)
        } else {
            order_size as i64
        };
        let q128: i128 = q_i64 as i128;
        let m128: i128 = self.instrument_spec.multiplier as i128;
        let fee128: i128 = self.instrument_spec.fee as i128;
        let a_num: i128 = self.avg_price.num;
        let a_den: i128 = self.avg_price.den;
        let pos_i64: i64 = self.position as i64;
        let pabs_i64: i64 = if pos_i64 < 0 {
            -pos_i64
        } else {
            pos_i64
        };

        let v1: i128 = match q128.checked_mul(p128) {
            Some(x) => x,
            None => { return Err(PositionError::Overflow) },
        };
        let v2: i128 = match v1.checked_mul(m128) {
            Some(x) => x,
            None => { return Err(PositionError::Overflow) },
        };
        let tv2: i128 = match self.traded_volume_usd.checked_add(v2) {
            Some(x) => x,
            None => { return Err(PositionError::Overflow) },
        };

        let is_closing: bool = self.position != 0 && order_size != 0 && ((self.position > 0) != (
        order_size > 0));
        if is_closing {
            let c_i64: i64 = if pabs_i64 <= q_i64 {
                pabs_i64
            } else {
                q_i64
            };
            let c128: i128 = c_i64 as i128;
            let sgn: i128 = if self.position > 0 {
                1
            } else {
                -1
            };
            let w1: i128 = match p128.checked_mul(a_den) {
                Some(x) => x,
                None => { return Err(PositionError::Overflow) },
            };
            let w2: i128 = match w1.checked_sub(a_num) {
                Some(x) => x,
                None => { return Err(PositionError::Overflow) },
            };
            let w3: i128 = match c128.checked_mul(sgn) {
                Some(x) => x,
                None => { return Err(PositionError::Overflow) },
            };
            let w4: i128 = match w3.checked_mul(m128) {
                Some(x) => x,
                None => { return Err(PositionError::Overflow) },
            };
            let w5: i128 = match w4.checked_mul(w2) {
                Some(x) => x,
                None => { return Err(PositionError::Overflow) },
            };
            let w6: i128 = match fee128.checked_mul(c128) {
                Some(x) => x,
                None => { return Err(PositionError::Overflow) },
            };
            let w7: i128 = match w6.checked_mul(a_den) {
                Some(x) => x,
                None => { return Err(PositionError::Overflow) },
            };
            let pn: i128 = match w5.checked_sub(w7) {
                Some(x) => x,
                None => { return Err(PositionError::Overflow) },
            };
            let u1: i128 = match self.realized_profit.num.checked_mul(a_den) {
                Some(x) => x,
                None => { return Err(PositionError::Overflow) },
            };
            let u2: i128 = match pn.checked_mul(self.realized_profit.den) {
                Some(x) => x,
                None => { return Err(PositionError::Overflow) },
            };
            let rn2: i128 = match u1.checked_add(u2) {
                Some(x) => x,
                None => { return Err(PositionError::Overflow) },
            };
            let rd2: i128 = match self.realized_profit.den.checked_mul(a_den) {
                Some(x) => x,
                None => { return Err(PositionError::Overflow) },
            };

            proof {
                vstd::arithmetic::mul::lemma_mul_strictly_positive(
                    self.realized_profit.den as int,
                    a_den as int,
                );
            }
            let popped: Option<Order> = self.orders.pop_front();
            self.traded_volume_usd = tv2;
            self.realized_profit = Ratio { num: rn2, den: rd2 };
            self.realized_profits.push(
                Profit { timestamp: bar.timestamp, profit: Ratio { num: pn, den: a_den } },
            );
            let pos_after_i64: i64 = if self.position > 0 {
                pos_i64 - c_i64
            } else {
                pos_i64 + c_i64
            };
            let open_size_i64: i64 = pos_i64 + (order_size as i64);
            if pos_after_i64 == 0 {
                if open_size_i64 == 0 {
                    self.position = 0;
                    self.avg_price = Ratio { num: 0, den: 1 };
                } else {
                    self.position = open_size_i64 as i32;
                    self.avg_price = Ratio { num: p128, den: 1 };
                }
            } else {
                self.position = pos_after_i64 as i32;
            }
            Ok(true)
        } else {
            let pos2_i64: i64 = pos_i64 + (order_size as i64);
            if pos2_i64 > i32::MAX as i64 || pos2_i64 < i32::MIN as i64 {
                return Err(PositionError::Overflow);
            }
            if pos2_i64 == 0 {
                let popped: Option<Order> = self.orders.pop_front();
                self.traded_volume_usd = tv2;
                self.position = 0;
                self.avg_price = Ratio { num: 0, den: 1 };
                Ok(true)
            } else {
                let a1: i128 = match a_num.checked_mul(pabs_i64 as i128) {
                    Some(x) => x,
                    None => { return Err(PositionError::Overflow) },
                };
                let a2: i128 = match p128.checked_mul(q128) {
                    Some(x) => x,
                    None => { return Err(PositionError::Overflow) },
                };
                let a3: i128 = match a2.checked_mul(a_den) {
                    Some(x) => x,
                    None => { return Err(PositionError::Overflow) },
                };
                let a4: i128 = match a1.checked_add(a3) {
                    Some(x) => x,
                    None => { return Err(PositionError::Overflow) },
                };
                let d1: i128 = (pabs_i64 as i128) + q128;
                let d2: i128 = match a_den.checked_mul(d1) {
                    Some(x) => x,
                    None => { return Err(PositionError::Overflow) },
                };
                proof {
                    vstd::arithmetic::mul::lemma_mul_strictly_positive(a_den as int, d1 as int);
                }
                let popped: Option<Order> = self.orders.pop_front();
                self.traded_volume_usd = tv2;
                self.position = pos2_i64 as i32;
                self.avg_price = Ratio { num: a4, den: d2 };
                Ok(true)
            }
        }
    }
}

} // verus!
