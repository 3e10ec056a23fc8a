use cfr_proto::{Bar, InstrumentId, InstrumentSpec, Order, Position, PositionError, Ratio};

fn id0() -> InstrumentId {
    InstrumentId { index: 0, symbol: "".to_string() }
}

fn bar(ts: i64, price_tenths: i64) -> Bar {
    Bar { timestamp: ts, mid_price: price_tenths, point_is_finite: true }
}

// Worked example of the accounting engine: multiplier 20, fee 1.5 per lot,
// buys at 100 and 101, a close of both lots at 102; realized profit must
// be exactly 57.0. Money is in tenths of a currency unit, so 1.5 is 15 and
// 57.0 is 570.
#[test]
fn test() {
    let bars = [bar(0, 1000), bar(1, 1010), bar(2, 1020)];
    let instrument_id = id0();
    let instrument_spec = InstrumentSpec { multiplier: 20, fee: 15 };
    let mut position = Position::new(instrument_id.clone(), instrument_spec);
    let order1 = Order { instrument_id: instrument_id.clone(), size: 1 };
    let order2 = Order { instrument_id: instrument_id.clone(), size: -2 };
    position.on_order(order1.clone()).unwrap();
    position.on_bar(&bars[0]).unwrap();
    position.on_order(order1.clone()).unwrap();
    position.on_bar(&bars[1]).unwrap();
    position.on_order(order2.clone()).unwrap();
    position.on_bar(&bars[2]).unwrap();
    let expected_profit_tenths: i128 = 570;
    let profit: Ratio = position.realized_profit();
    println!("profit: {:?}", profit);
    assert!(profit.num == expected_profit_tenths * profit.den);
}

#[test]
fn average_price_is_size_weighted() {
    let spec = InstrumentSpec { multiplier: 20, fee: 15 };
    let mut p = Position::new(id0(), spec);
    p.on_order(Order { instrument_id: id0(), size: 1 }).unwrap();
    assert_eq!(p.on_bar(&bar(0, 1000)).unwrap(), true);
    assert_eq!(p.avg_price, Ratio { num: 1000, den: 1 });
    p.on_order(Order { instrument_id: id0(), size: 1 }).unwrap();
    p.on_bar(&bar(1, 1010)).unwrap();
    // average 100.5 held exactly as 2010/2
    assert_eq!(p.avg_price, Ratio { num: 2010, den: 2 });
    assert_eq!(p.position, 2);
}

#[test]
fn flat_position_has_zero_average_price() {
    let spec = InstrumentSpec { multiplier: 20, fee: 0 };
    let mut p = Position::new(id0(), spec);
    p.on_order(Order { instrument_id: id0(), size: 3 }).unwrap();
    p.on_bar(&bar(0, 1000)).unwrap();
    p.on_order(Order { instrument_id: id0(), size: -3 }).unwrap();
    p.on_bar(&bar(1, 1020)).unwrap();
    assert_eq!(p.position, 0);
    assert_eq!(p.avg_price, Ratio { num: 0, den: 1 });
}

#[test]
fn fifo_executes_one_order_per_bar_in_submission_order() {
    let spec = InstrumentSpec { multiplier: 1, fee: 0 };
    let mut p = Position::new(id0(), spec);
    p.on_order(Order { instrument_id: id0(), size: 2 }).unwrap();
    p.on_order(Order { instrument_id: id0(), size: 5 }).unwrap();
    assert_eq!(p.orders.len(), 2);
    assert_eq!(p.on_bar(&bar(0, 100)).unwrap(), true);
    // first submitted order executed first: position grew by 2, one left
    assert_eq!(p.position, 2);
    assert_eq!(p.orders.len(), 1);
    assert_eq!(p.on_bar(&bar(1, 100)).unwrap(), true);
    assert_eq!(p.position, 7);
    assert_eq!(p.orders.len(), 0);
    // empty queue: no trade
    assert_eq!(p.on_bar(&bar(2, 100)).unwrap(), false);
    assert_eq!(p.position, 7);
}

#[test]
fn instrument_mismatch_is_rejected() {
    let spec = InstrumentSpec { multiplier: 1, fee: 0 };
    let mut p = Position::new(id0(), spec);
    let other = InstrumentId { index: 1, symbol: "".to_string() };
    let r = p.on_order(Order { instrument_id: other, size: 1 });
    assert_eq!(r, Err(PositionError::InstrumentMismatch));
    assert_eq!(p.orders.len(), 0);
}

#[test]
fn position_flip_reopens_at_fill_price() {
    let spec = InstrumentSpec { multiplier: 20, fee: 15 };
    let mut p = Position::new(id0(), spec);
    p.on_order(Order { instrument_id: id0(), size: 1 }).unwrap();
    p.on_bar(&bar(0, 1000)).unwrap();
    p.on_order(Order { instrument_id: id0(), size: -2 }).unwrap();
    p.on_bar(&bar(1, 1010)).unwrap();
    // one lot closed: 20 * 1 * (101 - 100) - 1.5, in tenths: 200 - 15 = 185
    let last = p.last_realized_profit().unwrap();
    assert_eq!(last.timestamp, 1);
    assert!(last.profit.num == 185 * last.profit.den);
    // remaining lot flipped short at the fill price
    assert_eq!(p.position, -1);
    assert_eq!(p.avg_price, Ratio { num: 1010, den: 1 });
}

#[test]
fn zero_size_order_at_flat_realizes_nothing() {
    let spec = InstrumentSpec { multiplier: 20, fee: 15 };
    let mut p = Position::new(id0(), spec);
    p.on_order(Order { instrument_id: id0(), size: 0 }).unwrap();
    // the order is consumed but a flat position is never a close
    assert_eq!(p.on_bar(&bar(0, 1000)).unwrap(), true);
    assert_eq!(p.realized_profits.len(), 0);
    assert_eq!(p.position, 0);
    assert_eq!(p.avg_price, Ratio { num: 0, den: 1 });
}

#[test]
fn partial_close_keeps_average_price() {
    let spec = InstrumentSpec { multiplier: 10, fee: 0 };
    let mut p = Position::new(id0(), spec);
    p.on_order(Order { instrument_id: id0(), size: 4 }).unwrap();
    p.on_bar(&bar(0, 500)).unwrap();
    p.on_order(Order { instrument_id: id0(), size: -1 }).unwrap();
    p.on_bar(&bar(1, 520)).unwrap();
    assert_eq!(p.position, 3);
    assert_eq!(p.avg_price, Ratio { num: 2000, den: 4 });
    // profit of the one closed lot: 10 * 1 * (52 - 50) = 20 units in tenths: 200
    let last = p.last_realized_profit().unwrap();
    assert!(last.profit.num == 200 * last.profit.den);
}

#[test]
fn overflow_reports_error_and_leaves_state() {
    let spec = InstrumentSpec { multiplier: 2, fee: 0 };
    let mut p = Position::new(id0(), spec);
    p.avg_price = Ratio { num: 1, den: i128::MAX };
    p.position = 1;
    p.on_order(Order { instrument_id: id0(), size: -1 }).unwrap();
    let before_volume = p.traded_volume_usd;
    let r = p.on_bar(&bar(0, 1000));
    assert_eq!(r, Err(PositionError::Overflow));
    assert_eq!(p.orders.len(), 1);
    assert_eq!(p.traded_volume_usd, before_volume);
    assert_eq!(p.position, 1);
}

#[test]
fn traded_volume_accumulates_unconditionally() {
    let spec = InstrumentSpec { multiplier: 20, fee: 15 };
    let mut p = Position::new(id0(), spec);
    p.on_order(Order { instrument_id: id0(), size: 1 }).unwrap();
    p.on_bar(&bar(0, 1000)).unwrap();
    p.on_order(Order { instrument_id: id0(), size: -1 }).unwrap();
    p.on_bar(&bar(1, 1010)).unwrap();
    assert_eq!(p.traded_volume_usd, 1 * 1000 * 20 + 1 * 1010 * 20);
}
