use binance::api::{Api, FuturesCM, Method};
use binance::futures_cm::{cell_of, Cell, FuturesCMMarket, KlineError, KlineSummary};
use serde_json::Value;

fn row() -> Vec<Value> {
    vec![
        Value::from(1499040000000i64),
        Value::from("0.01634790"),
        Value::from("0.80000000"),
        Value::from("0.01575800"),
        Value::from("0.01577100"),
        Value::from("148976.11427815"),
        Value::from(1499644799999i64),
        Value::from("2434.19055334"),
        Value::from(308i64),
        Value::from("1756.87402397"),
        Value::from("28.46694368"),
        Value::from("17928899.62484339"),
    ]
}

#[test]
fn klines_request_with_all_parameters() {
    let m = FuturesCMMarket { recv_window: 5000 };
    let r = m.get_klines("BTCUSD_PERP", "1m", Some(500), Some(1), Some(65535));
    assert_eq!(r.method, Method::Get);
    assert!(!r.signed);
    assert_eq!(r.api, Api::FuturesCM(FuturesCM::Klines));
    assert_eq!(r.query, "endTime=65535&interval=1m&limit=500&startTime=1&symbol=BTCUSD_PERP");
}

#[test]
fn klines_request_without_options() {
    let m = FuturesCMMarket { recv_window: 5000 };
    let r = m.get_klines("BTCUSD_PERP", "5m", None, None, None);
    assert_eq!(r.query, "interval=5m&symbol=BTCUSD_PERP");
}

#[test]
fn kline_from_row() {
    let k = KlineSummary::from_row(&row()).unwrap();
    assert_eq!(k.open_time, 1499040000000);
    assert_eq!(k.open, "0.01634790");
    assert_eq!(k.high, "0.80000000");
    assert_eq!(k.low, "0.01575800");
    assert_eq!(k.close, "0.01577100");
    assert_eq!(k.volume, "148976.11427815");
    assert_eq!(k.close_time, 1499644799999);
    assert_eq!(k.quote_asset_volume, "2434.19055334");
    assert_eq!(k.number_of_trades, 308);
    assert_eq!(k.taker_buy_base_asset_volume, "1756.87402397");
    assert_eq!(k.taker_buy_quote_asset_volume, "28.46694368");
}

#[test]
fn kline_short_row() {
    let mut r = row();
    r.truncate(7);
    assert_eq!(KlineSummary::from_row(&r).unwrap_err(), KlineError::MissingValue(7));
    assert_eq!(KlineSummary::from_row(&Vec::new()).unwrap_err(), KlineError::MissingValue(0));
}

#[test]
fn kline_wrong_kinds() {
    let mut r = row();
    r[0] = Value::from("1499040000000");
    assert_eq!(KlineSummary::from_row(&r).unwrap_err(), KlineError::NotAnInteger(0));
    let mut r = row();
    r[4] = Value::from(1.5f64);
    assert_eq!(KlineSummary::from_row(&r).unwrap_err(), KlineError::NotAString(4));
    let mut r = row();
    r[8] = Value::Null;
    r.truncate(9);
    assert_eq!(KlineSummary::from_row(&r).unwrap_err(), KlineError::NotAnInteger(8));
}

#[test]
fn kline_from_cells_direct() {
    let mut cells = Vec::new();
    for i in 0..11 {
        if i == 0 || i == 6 || i == 8 {
            cells.push(Cell::Int(i as i64));
        } else {
            cells.push(Cell::Text(format!("{}", i)));
        }
    }
    let k = KlineSummary::from_cells(&cells).unwrap();
    assert_eq!(k.close_time, 6);
    assert_eq!(k.taker_buy_quote_asset_volume, "10");
    cells[3] = Cell::Other;
    assert_eq!(KlineSummary::from_cells(&cells).unwrap_err(), KlineError::NotAString(3));
}

#[test]
fn cell_of_reads_values() {
    assert!(matches!(cell_of(&Value::from(-3i64)), Cell::Int(-3)));
    assert!(matches!(cell_of(&Value::from("1.5")), Cell::Text(ref t) if t == "1.5"));
    assert!(matches!(cell_of(&Value::from(2.5f64)), Cell::Other));
    assert!(matches!(cell_of(&Value::Null), Cell::Other));
    assert!(matches!(cell_of(&Value::from(u64::MAX)), Cell::Other));
}

#[test]
fn klines_from_rows_in_order() {
    let mut second = row();
    second[0] = Value::from(2i64);
    let ks = KlineSummary::from_rows(&vec![row(), second]).unwrap();
    assert_eq!(ks.len(), 2);
    assert_eq!(ks[0].open_time, 1499040000000);
    assert_eq!(ks[1].open_time, 2);
    assert_eq!(KlineSummary::from_rows(&Vec::new()).unwrap().len(), 0);
}

#[test]
fn klines_from_rows_first_error() {
    let mut bad1 = row();
    bad1[2] = Value::Null;
    let mut bad2 = row();
    bad2.truncate(3);
    let rows = vec![row(), bad1, bad2];
    assert_eq!(KlineSummary::from_rows(&rows).unwrap_err(), KlineError::NotAString(2));
}
