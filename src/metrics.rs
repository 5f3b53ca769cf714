//! The tick-dependent dashboard figures, in fixed point.
//!
//! Every figure that the dashboard shows with two decimals is held as an
//! integer count of hundredths (cents for money, hundredths of a percentage
//! point for shares and changes), so a value here is already rounded to two
//! decimals and sums over it are exact.
use vstd::prelude::*;

verus! {

/// Portfolio value at the middle of the cycle, in cents.
pub const PORTFOLIO_BASE_CENTS: i64 = 12845632;

/// Lowest portfolio value ever reported, in cents.
pub const PORTFOLIO_FLOOR_CENTS: i64 = 5000000;

/// Fixed dominance shares of the three smaller assets, in hundredths of a point.
pub const USDT_SHARE: i64 = 580;
pub const BNB_SHARE: i64 = 390;
pub const SOL_SHARE: i64 = 330;

/// One hundred percent, in hundredths of a point.
pub const FULL_SHARE: i64 = 10000;

/// One entry of the market dominance map.
pub struct DominanceShare {
    pub symbol: String,
    /// Share of total market capitalisation, in hundredths of a point.
    pub share: i64,
}

/// The figures of one snapshot that depend on its tick.
pub struct Metrics {
    /// In cents.
    pub portfolio_value: i64,
    /// In hundredths of a percentage point.
    pub portfolio_change_percent: i64,
    /// In cents.
    pub portfolio_change_value: i64,
    pub altseason_index: u32,
    pub altseason_trend: Vec<u32>,
    /// In hundredths of a percentage point.
    pub btc_dominance: i64,
    /// In hundredths of a percentage point.
    pub eth_dominance: i64,
    pub dominance_map: Vec<DominanceShare>,
    /// In cents.
    pub total_market_cap: i64,
    /// In hundredths of a percentage point.
    pub market_cap_change_percent: i64,
    /// In hundredths of a trillion dollars.
    pub market_cap_trend: Vec<i64>,
    pub fear_greed_index: u32,
}

pub open spec fn clamp(x: int, lo: int, hi: int) -> int {
    if x < lo {
        lo
    } else if x > hi {
        hi
    } else {
        x
    }
}

pub open spec fn max_int(a: int, b: int) -> int {
    if a >= b {
        a
    } else {
        b
    }
}

/// `n / d` rounded to the nearest integer, halves away from zero.
pub open spec fn round_div(n: int, d: int) -> int
    recommends
        d > 0,
{
    if n >= 0 {
        (n + d / 2) / d
    } else {
        -((-n + d / 2) / d)
    }
}

/// Position of the tick in the forty-tick portfolio cycle, centred on zero.
pub open spec fn phase_offset(tick: u64) -> int {
    (tick % 40) as int - 20
}

pub open spec fn portfolio_value_of(tick: u64) -> int {
    max_int(PORTFOLIO_BASE_CENTS + phase_offset(tick) * 21500, PORTFOLIO_FLOOR_CENTS as int)
}

pub open spec fn portfolio_change_percent_of(tick: u64) -> int {
    phase_offset(tick) * 24
}

/// The value times the percentage, in cents (cents times hundredths of a
/// percent, over ten thousand).
pub open spec fn portfolio_change_value_of(tick: u64) -> int {
    round_div(portfolio_value_of(tick) * portfolio_change_percent_of(tick), 10000)
}

pub open spec fn altseason_of(tick: u64) -> int {
    clamp(67 + (tick % 8) as int - 4, 0, 100)
}

pub open spec fn fear_greed_of(tick: u64) -> int {
    clamp(72 + (tick % 10) as int - 5, 0, 100)
}

pub open spec fn btc_dominance_of(tick: u64) -> int {
    5120 + ((tick % 6) as int - 3) * 12
}

pub open spec fn eth_dominance_of(tick: u64) -> int {
    1870 + ((tick % 5) as int - 2) * 10
}

/// What the five named assets leave of the whole market, never negative.
pub open spec fn others_dominance_of(tick: u64) -> int {
    max_int(
        FULL_SHARE - (btc_dominance_of(tick) + eth_dominance_of(tick) + USDT_SHARE + BNB_SHARE
            + SOL_SHARE),
        0,
    )
}

/// The shares of the dominance map, in the order BTC, ETH, USDT, BNB, SOL, OTHERS.
pub open spec fn dominance_shares_of(tick: u64) -> Seq<int> {
    seq![
        btc_dominance_of(tick),
        eth_dominance_of(tick),
        USDT_SHARE as int,
        BNB_SHARE as int,
        SOL_SHARE as int,
        others_dominance_of(tick),
    ]
}

pub open spec fn total_market_cap_of(tick: u64) -> int {
    241_000_000_000_000 + ((tick % 12) as int - 6) * 850_000_000_000
}

pub open spec fn market_cap_change_of(tick: u64) -> int {
    ((tick % 10) as int - 5) * 36
}

/// The total market capitalisation in hundredths of a trillion dollars,
/// rounded (cents over ten to the twelfth).
pub open spec fn market_cap_trillions_of(tick: u64) -> int {
    round_div(total_market_cap_of(tick), 1_000_000_000_000)
}

pub open spec fn altseason_trend_of(tick: u64) -> Seq<u32> {
    seq![42u32, 45, 48, 52, 57, 60, 63, altseason_of(tick) as u32]
}

pub open spec fn market_cap_trend_of(tick: u64) -> Seq<i64> {
    seq![222i64, 224, 227, 231, 228, 235, 239, market_cap_trillions_of(tick) as i64]
}

/// Sum of a sequence of shares.
pub open spec fn share_total(s: Seq<DominanceShare>) -> int
    decreases s.len(),
{
    if s.len() == 0 {
        0
    } else {
        share_total(s.drop_last()) + s.last().share
    }
}

impl Metrics {
    /// The metrics are exactly the figures of `tick`.
    pub open spec fn figures_of(&self, tick: u64) -> bool {
        &&& self.portfolio_value == portfolio_value_of(tick)
        &&& self.portfolio_change_percent == portfolio_change_percent_of(tick)
        &&& self.portfolio_change_value == portfolio_change_value_of(tick)
        &&& self.altseason_index == altseason_of(tick)
        &&& self.altseason_trend@ == altseason_trend_of(tick)
        &&& self.btc_dominance == btc_dominance_of(tick)
        &&& self.eth_dominance == eth_dominance_of(tick)
        &&& self.dominance_map@.len() == 6
        &&& forall|i: int|
            0 <= i < 6 ==> #[trigger] self.dominance_map@[i].share == dominance_shares_of(tick)[i]
        &&& self.dominance_map@[0].symbol@ == "BTC"@
        &&& self.dominance_map@[1].symbol@ == "ETH"@
        &&& self.dominance_map@[2].symbol@ == "USDT"@
        &&& self.dominance_map@[3].symbol@ == "BNB"@
        &&& self.dominance_map@[4].symbol@ == "SOL"@
        &&& self.dominance_map@[5].symbol@ == "OTHERS"@
        &&& self.total_market_cap == total_market_cap_of(tick)
        &&& self.market_cap_change_percent == market_cap_change_of(tick)
        &&& self.market_cap_trend@ == market_cap_trend_of(tick)
        &&& self.fear_greed_index == fear_greed_of(tick)
    }
}

/// `n / d` rounded half away from zero, on integers.
pub fn round_div_i64(n: i64, d: i64) -> (r: i64)
    requires
        d > 0,
        n > i64::MIN,
        n + d / 2 <= i64::MAX,
        -n + d / 2 <= i64::MAX,
    ensures
        r == round_div(n as int, d as int),
{
    if n >= 0 {
        (n + d / 2) / d
    } else {
        let q: i64 = (-n + d / 2) / d;
        -q
    }
}

/// Computes the tick-dependent figures of the snapshot for `tick`.
pub fn build_metrics(tick: u64) -> (m: Metrics)
    ensures
        m.figures_of(tick),
{
    let offset: i64 = (tick % 40) as i64 - 20;
    let raw_value: i64 = PORTFOLIO_BASE_CENTS + offset * 21500;
    let portfolio_value: i64 = if raw_value >= PORTFOLIO_FLOOR_CENTS {
        raw_value
    } else {
        PORTFOLIO_FLOOR_CENTS
    };
    let portfolio_change_percent: i64 = offset * 24;
    assert(0 <= portfolio_value <= 14_000_000);
    assert(-20 * 24 <= portfolio_change_percent <= 19 * 24);
    assert(-6_720_000_000 <= portfolio_value * portfolio_change_percent <= 6_384_000_000)
        by (nonlinear_arith)
        requires
            0 <= portfolio_value <= 14_000_000,
            -480 <= portfolio_change_percent <= 456,
    ;
    let portfolio_change_value = round_div_i64(portfolio_value * portfolio_change_percent, 10000);

    let altseason_raw: i64 = 67 + (tick % 8) as i64 - 4;
    let altseason_index: u32 = if altseason_raw < 0 {
        0
    } else if altseason_raw > 100 {
        100
    } else {
        altseason_raw as u32
    };
    let fear_raw: i64 = 72 + (tick % 10) as i64 - 5;
    let fear_greed_index: u32 = if fear_raw < 0 {
        0
    } else if fear_raw > 100 {
        100
    } else {
        fear_raw as u32
    };

    let btc_dominance: i64 = 5120 + ((tick % 6) as i64 - 3) * 12;
    let eth_dominance: i64 = 1870 + ((tick % 5) as i64 - 2) * 10;
    let others_raw: i64 = FULL_SHARE - (btc_dominance + eth_dominance + USDT_SHARE + BNB_SHARE
        + SOL_SHARE);
    let others: i64 = if others_raw >= 0 {
        others_raw
    } else {
        0
    };

    let total_market_cap: i64 = 241_000_000_000_000 + ((tick % 12) as i64 - 6) * 850_000_000_000;
    let market_cap_change_percent: i64 = ((tick % 10) as i64 - 5) * 36;
    let market_cap_trillions: i64 = round_div_i64(total_market_cap, 1_000_000_000_000);

    let dominance_map = vec![
        DominanceShare { symbol: "BTC".to_owned(), share: btc_dominance },
        DominanceShare { symbol: "ETH".to_owned(), share: eth_dominance },
        DominanceShare { symbol: "USDT".to_owned(), share: USDT_SHARE },
        DominanceShare { symbol: "BNB".to_owned(), share: BNB_SHARE },
        DominanceShare { symbol: "SOL".to_owned(), share: SOL_SHARE },
        DominanceShare { symbol: "OTHERS".to_owned(), share: others },
    ];
    let altseason_trend = vec![42u32, 45, 48, 52, 57, 60, 63, altseason_index];
    let market_cap_trend = vec![222i64, 224, 227, 231, 228, 235, 239, market_cap_trillions];
    let m = Metrics {
        portfolio_value,
        portfolio_change_percent,
        portfolio_change_value,
        altseason_index,
        altseason_trend,
        btc_dominance,
        eth_dominance,
        dominance_map,
        total_market_cap,
        market_cap_change_percent,
        market_cap_trend,
        fear_greed_index,
    };
    assert(m.altseason_trend@ =~= altseason_trend_of(tick));
    assert(m.market_cap_trend@ =~= market_cap_trend_of(tick));
    m
}

} // verus!
