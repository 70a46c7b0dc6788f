//! Coin-margined futures market data: kline requests and the rows that
//! answer them.

use vstd::prelude::*;
use crate::text::owned;
use crate::params::{Parameters, ParamView, inserted, put, query_of, decimal, u64_text};
use crate::api::{Api, FuturesCM, Method, Request};

verus! {

#[verifier::external_type_specification]
#[verifier::external_body]
pub struct ExValue(serde_json::Value);

/// What `serde_json::Value::as_i64` gives for a value.
pub uninterp spec fn int_of(v: serde_json::Value) -> Option<i64>;

/// What `serde_json::Value::as_str` gives for a value, as characters.
pub uninterp spec fn str_of(v: serde_json::Value) -> Option<Seq<char>>;

/// Relies on `serde_json::Value::as_i64`, which gives the integer that a
/// number holds when it fits in `i64`; the result depends on the value alone.
pub assume_specification[ serde_json::Value::as_i64 ](v: &serde_json::Value) -> (r: Option<i64>)
    ensures
        r == int_of(*v),
;

/// Relies on `serde_json::Value::as_str`, which gives the text of a string
/// value; the result depends on the value alone.
pub assume_specification<'a>[ serde_json::Value::as_str ](v: &'a serde_json::Value) -> (r: Option<&'a str>)
    ensures
        match r {
            Some(t) => str_of(*v) == Some(t@),
            None => str_of(*v) is None,
        },
;

/// Market data requests for coin-margined futures.
#[derive(Clone, Debug)]
pub struct FuturesCMMarket {
    pub recv_window: u64,
}

/// The parameters of a kline request.
pub open spec fn kline_params(
    symbol: Seq<char>,
    interval: Seq<char>,
    limit: Option<u16>,
    start_time: Option<u64>,
    end_time: Option<u64>,
) -> Seq<ParamView> {
    let s = inserted(inserted(Seq::empty(), "symbol"@, symbol), "interval"@, interval);
    let s = put(s, "limit"@, match limit { Some(l) => Some(decimal(l as nat)), None => None });
    let s = put(s, "startTime"@, match start_time { Some(t) => Some(decimal(t as nat)), None => None });
    put(s, "endTime"@, match end_time { Some(t) => Some(decimal(t as nat)), None => None })
}

fn put_number(p: &mut Parameters, key: &str, value: Option<u64>)
    requires
        old(p).wf(),
    ensures
        final(p)@ == put(old(p)@, key@, match value { Some(t) => Some(decimal(t as nat)), None => None }),
        final(p).wf(),
{
    if let Some(t) = value {
        let text = u64_text(t);
        p.insert(key, text.as_str());
    }
}

impl FuturesCMMarket {
    /// Up to `limit` klines of `symbol` at `interval` ("1m", "5m", ...),
    /// optionally bounded by start and end times; an unsigned request.
    pub fn get_klines(
        &self,
        symbol: &str,
        interval: &str,
        limit: Option<u16>,
        start_time: Option<u64>,
        end_time: Option<u64>,
    ) -> (r: Request)
        ensures
            r.method == Method::Get,
            !r.signed,
            r.api == Api::FuturesCM(FuturesCM::Klines),
            r.query@ == query_of(kline_params(symbol@, interval@, limit, start_time, end_time)),
    {
        let mut p = Parameters::with_symbol(symbol);
        p.insert("interval", interval);
        let l = match limit {
            Some(l) => Some(l as u64),
            None => None,
        };
        put_number(&mut p, "limit", l);
        put_number(&mut p, "startTime", start_time);
        put_number(&mut p, "endTime", end_time);
        Request { method: Method::Get, api: Api::FuturesCM(FuturesCM::Klines), query: p.build_request(), signed: false }
    }
}

/// What a kline row holds at one place, as far as a kline reads it.
#[derive(Clone, Debug)]
pub enum Cell {
    Int(i64),
    Text(String),
    Other,
}

/// `c` is what `v` holds as far as a kline reads it: its integer when it
/// has one, else its text when it is a string, else nothing of use.
pub open spec fn cell_matches(c: Cell, v: serde_json::Value) -> bool {
    match int_of(v) {
        Some(n) => c == Cell::Int(n),
        None => match str_of(v) {
            Some(t) => c is Text && c->Text_0@ == t,
            None => c is Other,
        },
    }
}

/// Reads one value of a kline row.
pub fn cell_of(v: &serde_json::Value) -> (r: Cell)
    ensures
        cell_matches(r, *v),
{
    match v.as_i64() {
        Some(n) => Cell::Int(n),
        None => match v.as_str() {
            Some(s) => Cell::Text(owned(s)),
            None => Cell::Other,
        },
    }
}

/// One candlestick: times in milliseconds, prices and volumes as the
/// exchange's decimal text.
#[derive(Clone, Debug)]
pub struct KlineSummary {
    pub open_time: i64,
    pub open: String,
    pub high: String,
    pub low: String,
    pub close: String,
    pub volume: String,
    pub close_time: i64,
    pub quote_asset_volume: String,
    pub number_of_trades: i64,
    pub taker_buy_base_asset_volume: String,
    pub taker_buy_quote_asset_volume: String,
}

/// Why a row is not a kline; each carries the place in the row.
#[derive(Clone, Copy, Debug, PartialEq, Eq, Structural)]
pub enum KlineError {
    MissingValue(usize),
    NotAnInteger(usize),
    NotAString(usize),
}

/// The number of values a kline row is read from.
pub const KLINE_WIDTH: usize = 11;

/// The places of a row that hold integers (the two times and the trade
/// count); the others hold decimal text.
pub open spec fn int_slot(i: int) -> bool {
    i == 0 || i == 6 || i == 8
}

pub open spec fn cell_fits(c: Cell, i: int) -> bool {
    if int_slot(i) { c is Int } else { c is Text }
}

/// The places before `n` are present and of the kind a kline reads there.
pub open spec fn fits_before(cells: Seq<Cell>, n: int) -> bool {
    n <= cells.len() && forall|j: int| 0 <= j < n ==> cell_fits(#[trigger] cells[j], j)
}

pub open spec fn int_at(cells: Seq<Cell>, i: int) -> i64 {
    match cells[i] {
        Cell::Int(n) => n,
        _ => 0,
    }
}

pub open spec fn text_at(cells: Seq<Cell>, i: int) -> Seq<char> {
    match cells[i] {
        Cell::Text(s) => s@,
        _ => Seq::empty(),
    }
}

/// The kind of value a kline reads at place `i` of a row.
pub open spec fn value_fits(v: serde_json::Value, i: int) -> bool {
    if int_slot(i) {
        int_of(v) is Some
    } else {
        int_of(v) is None && str_of(v) is Some
    }
}

/// The places of `row` before `n` are present and of the kind a kline reads.
pub open spec fn values_fit_before(row: Seq<serde_json::Value>, n: int) -> bool {
    n <= row.len() && forall|j: int| 0 <= j < n ==> value_fits(#[trigger] row[j], j)
}

/// `k` is the kline that `row` describes.
pub open spec fn kline_of_row(row: Seq<serde_json::Value>, k: KlineSummary) -> bool {
    &&& int_of(row[0]) == Some(k.open_time)
    &&& str_of(row[1]) == Some(k.open@)
    &&& str_of(row[2]) == Some(k.high@)
    &&& str_of(row[3]) == Some(k.low@)
    &&& str_of(row[4]) == Some(k.close@)
    &&& str_of(row[5]) == Some(k.volume@)
    &&& int_of(row[6]) == Some(k.close_time)
    &&& str_of(row[7]) == Some(k.quote_asset_volume@)
    &&& int_of(row[8]) == Some(k.number_of_trades)
    &&& str_of(row[9]) == Some(k.taker_buy_base_asset_volume@)
    &&& str_of(row[10]) == Some(k.taker_buy_quote_asset_volume@)
}

/// `e` is the error for `row`: the first place that is missing or holds a
/// value of the wrong kind.
pub open spec fn kline_error_of(row: Seq<serde_json::Value>, e: KlineError) -> bool {
    match e {
        KlineError::MissingValue(i) => i == row.len() && i < KLINE_WIDTH && values_fit_before(row, i as int),
        KlineError::NotAnInteger(i) => i < row.len() && i < KLINE_WIDTH && int_slot(i as int)
            && !value_fits(row[i as int], i as int) && values_fit_before(row, i as int),
        KlineError::NotAString(i) => i < row.len() && i < KLINE_WIDTH && !int_slot(i as int)
            && !value_fits(row[i as int], i as int) && values_fit_before(row, i as int),
    }
}

proof fn lemma_fits_agree(cells: Seq<Cell>, row: Seq<serde_json::Value>, n: int)
    requires
        cells.len() == row.len(),
        forall|j: int| 0 <= j < cells.len() ==> cell_matches(#[trigger] cells[j], row[j]),
    ensures
        fits_before(cells, n) == values_fit_before(row, n),
{
    if fits_before(cells, n) {
        assert forall|j: int| 0 <= j < n implies value_fits(#[trigger] row[j], j) by {
            assert(cell_fits(cells[j], j));
            assert(cell_matches(cells[j], row[j]));
        }
    }
    if values_fit_before(row, n) {
        assert forall|j: int| 0 <= j < n implies cell_fits(#[trigger] cells[j], j) by {
            assert(value_fits(row[j], j));
            assert(cell_matches(cells[j], row[j]));
        }
    }
}

fn read_int(cells: &Vec<Cell>, i: usize) -> (r: Result<i64, KlineError>)
    ensures
        i >= cells.len() ==> r == Err::<i64, KlineError>(KlineError::MissingValue(i)),
        i < cells.len() ==> match cells[i as int] {
            Cell::Int(n) => r == Ok::<i64, KlineError>(n),
            _ => r == Err::<i64, KlineError>(KlineError::NotAnInteger(i)),
        },
{
    if i >= cells.len() {
        return Err(KlineError::MissingValue(i));
    }
    match &cells[i] {
        Cell::Int(n) => Ok(*n),
        _ => Err(KlineError::NotAnInteger(i)),
    }
}

fn read_text(cells: &Vec<Cell>, i: usize) -> (r: Result<String, KlineError>)
    ensures
        i >= cells.len() ==> r == Err::<String, KlineError>(KlineError::MissingValue(i)),
        i < cells.len() ==> match cells[i as int] {
            Cell::Text(s) => r is Ok && r->Ok_0@ == s@,
            _ => r == Err::<String, KlineError>(KlineError::NotAString(i)),
        },
{
    if i >= cells.len() {
        return Err(KlineError::MissingValue(i));
    }
    match &cells[i] {
        Cell::Text(s) => Ok(s.clone()),
        _ => Err(KlineError::NotAString(i)),
    }
}

impl KlineSummary {
    /// The kline a row's values make. The places are read in order and the
    /// first that is missing or of the wrong kind gives the error.
    pub fn from_cells(cells: &Vec<Cell>) -> (r: Result<KlineSummary, KlineError>)
        ensures
            r is Ok <==> fits_before(cells@, KLINE_WIDTH as int),
            r matches Ok(k) ==> {
                &&& k.open_time == int_at(cells@, 0)
                &&& k.open@ == text_at(cells@, 1)
                &&& k.high@ == text_at(cells@, 2)
                &&& k.low@ == text_at(cells@, 3)
                &&& k.close@ == text_at(cells@, 4)
                &&& k.volume@ == text_at(cells@, 5)
                &&& k.close_time == int_at(cells@, 6)
                &&& k.quote_asset_volume@ == text_at(cells@, 7)
                &&& k.number_of_trades == int_at(cells@, 8)
                &&& k.taker_buy_base_asset_volume@ == text_at(cells@, 9)
                &&& k.taker_buy_quote_asset_volume@ == text_at(cells@, 10)
            },
            r matches Err(e) ==> match e {
                KlineError::MissingValue(i) => i == cells.len() && i < KLINE_WIDTH && fits_before(cells@, i as int),
                KlineError::NotAnInteger(i) => i < cells.len() && i < KLINE_WIDTH && int_slot(i as int)
                    && !(cells@[i as int] is Int) && fits_before(cells@, i as int),
                KlineError::NotAString(i) => i < cells.len() && i < KLINE_WIDTH && !int_slot(i as int)
                    && !(cells@[i as int] is Text) && fits_before(cells@, i as int),
            },
    {
        let open_time = match read_int(cells, 0) {
            Ok(v) => v,
            Err(e) => {
                assert(fits_before(cells@, 0));
                return Err(e);
            },
        };
        let open = match read_text(cells, 1) {
            Ok(v) => v,
            Err(e) => {
                assert(fits_before(cells@, 1));
                return Err(e);
            },
        };
        let high = match read_text(cells, 2) {
            Ok(v) => v,
            Err(e) => {
                assert(fits_before(cells@, 2));
                return Err(e);
            },
        };
        let low = match read_text(cells, 3) {
            Ok(v) => v,
            Err(e) => {
                assert(fits_before(cells@, 3));
                return Err(e);
            },
        };
        let close = match read_text(cells, 4) {
            Ok(v) => v,
            Err(e) => {
                assert(fits_before(cells@, 4));
                return Err(e);
            },
        };
        let volume = match read_text(cells, 5) {
            Ok(v) => v,
            Err(e) => {
                assert(fits_before(cells@, 5));
                return Err(e);
            },
        };
        let close_time = match read_int(cells, 6) {
            Ok(v) => v,
            Err(e) => {
                assert(fits_before(cells@, 6));
                return Err(e);
            },
        };
        let quote_asset_volume = match read_text(cells, 7) {
            Ok(v) => v,
            Err(e) => {
                assert(fits_before(cells@, 7));
                return Err(e);
            },
        };
        let number_of_trades = match read_int(cells, 8) {
            Ok(v) => v,
            Err(e) => {
                assert(fits_before(cells@, 8));
                return Err(e);
            },
        };
        let taker_buy_base_asset_volume = match read_text(cells, 9) {
            Ok(v) => v,
            Err(e) => {
                assert(fits_before(cells@, 9));
                return Err(e);
            },
        };
        let taker_buy_quote_asset_volume = match read_text(cells, 10) {
            Ok(v) => v,
            Err(e) => {
                assert(fits_before(cells@, 10));
                return Err(e);
            },
        };
        Ok(KlineSummary {
            open_time,
            open,
            high,
            low,
            close,
            volume,
            close_time,
            quote_asset_volume,
            number_of_trades,
            taker_buy_base_asset_volume,
            taker_buy_quote_asset_volume,
        })
    }

    /// The kline that a row of the exchange's answer describes.
    pub fn from_row(row: &Vec<serde_json::Value>) -> (r: Result<KlineSummary, KlineError>)
        ensures
            r is Ok <==> values_fit_before(row@, KLINE_WIDTH as int),
            r matches Ok(k) ==> kline_of_row(row@, k),
            r matches Err(e) ==> kline_error_of(row@, e),
    {
        let mut cells: Vec<Cell> = Vec::new();
        let mut i: usize = 0;
        while i < row.len()
            invariant
                i <= row.len(),
                cells.len() == i,
                forall|j: int| 0 <= j < i ==> cell_matches(#[trigger] cells@[j], row@[j]),
            decreases row.len() - i,
        {
            cells.push(cell_of(&row[i]));
            i = i + 1;
        }
        proof {
            lemma_fits_agree(cells@, row@, KLINE_WIDTH as int);
        }
        assert(cells.len() == row.len());
        let r = KlineSummary::from_cells(&cells);
        proof {
            if let Err(e) = r {
                match e {
                    KlineError::MissingValue(i) => { lemma_fits_agree(cells@, row@, i as int); },
                    KlineError::NotAnInteger(i) => {
                        lemma_fits_agree(cells@, row@, i as int);
                        assert(cell_matches(cells@[i as int], row@[i as int]));
                    },
                    KlineError::NotAString(i) => {
                        lemma_fits_agree(cells@, row@, i as int);
                        assert(cell_matches(cells@[i as int], row@[i as int]));
                    },
                }
            } else {
                assert(fits_before(cells@, KLINE_WIDTH as int));
                assert(cell_matches(cells@[0], row@[0]));
                assert(cell_matches(cells@[1], row@[1]));
                assert(cell_matches(cells@[2], row@[2]));
                assert(cell_matches(cells@[3], row@[3]));
                assert(cell_matches(cells@[4], row@[4]));
                assert(cell_matches(cells@[5], row@[5]));
                assert(cell_matches(cells@[6], row@[6]));
                assert(cell_matches(cells@[7], row@[7]));
                assert(cell_matches(cells@[8], row@[8]));
                assert(cell_matches(cells@[9], row@[9]));
                assert(cell_matches(cells@[10], row@[10]));
            }
        }
        r
    }

    /// The klines that the rows of the exchange's answer describe, in order;
    /// the first row that is not a kline gives the error.
    pub fn from_rows(rows: &Vec<Vec<serde_json::Value>>) -> (r: Result<Vec<KlineSummary>, KlineError>)
        ensures
            r is Ok <==> forall|i: int| 0 <= i < rows.len() ==> values_fit_before(#[trigger] rows@[i]@, KLINE_WIDTH as int),
            r matches Ok(ks) ==> ks.len() == rows.len() && forall|i: int| 0 <= i < rows.len() ==> kline_of_row(#[trigger] rows@[i]@, ks@[i]),
            r matches Err(e) ==> exists|i: int| 0 <= i < rows.len() && kline_error_of(#[trigger] rows@[i]@, e)
                && forall|j: int| 0 <= j < i ==> values_fit_before(#[trigger] rows@[j]@, KLINE_WIDTH as int),
    {
        let mut ks: Vec<KlineSummary> = Vec::new();
        let mut i: usize = 0;
        while i < rows.len()
            invariant
                i <= rows.len(),
                ks.len() == i,
                forall|j: int| 0 <= j < i ==> values_fit_before(#[trigger] rows@[j]@, KLINE_WIDTH as int),
                forall|j: int| 0 <= j < i ==> kline_of_row(#[trigger] rows@[j]@, ks@[j]),
            decreases rows.len() - i,
        {
            match KlineSummary::from_row(&rows[i]) {
                Ok(k) => ks.push(k),
                Err(e) => {
                    proof {
                        match e {
                            KlineError::MissingValue(_) => {},
                            KlineError::NotAnInteger(m) => { assert(!values_fit_before(rows@[i as int]@, KLINE_WIDTH as int)) by { assert(!value_fits(rows@[i as int]@[m as int], m as int)); } },
                            KlineError::NotAString(m) => { assert(!values_fit_before(rows@[i as int]@, KLINE_WIDTH as int)) by { assert(!value_fits(rows@[i as int]@[m as int], m as int)); } },
                        }
                    }
                    return Err(e);
                },
            }
            i = i + 1;
        }
        Ok(ks)
    }
}

} // verus!
