//! The snapshot value: one immutable, fully populated dashboard state tied to
//! a tick.
use crate::metrics::{build_metrics, Metrics};
use vstd::prelude::*;

verus! {

/// One line of the recent-activity list.
pub struct RecentActivity {
    pub action: String,
    pub amount: String,
    pub value: String,
    pub time: String,
    pub chain: String,
    pub chain_color: String,
    pub kind: String,
}

/// One holding in an asset group.
pub struct AssetItem {
    pub name: String,
    pub symbol: String,
    pub chain: String,
    pub amount: String,
    pub value: String,
    /// Change over the last day, in hundredths of a percentage point.
    pub change24h: i64,
}

/// The holdings, grouped.
pub struct Assets {
    pub tokens: Vec<AssetItem>,
    pub defi: Vec<AssetItem>,
    pub nfts: Vec<AssetItem>,
}

/// One dashboard state, produced once for its tick.
pub struct Snapshot {
    pub tick: u64,
    pub metrics: Metrics,
    pub recent_activities: Vec<RecentActivity>,
    pub assets: Assets,
    /// The moment of production, as an RFC 3339 timestamp.
    pub updated_at: String,
}

pub open spec fn token_changes() -> Seq<int> {
    seq![240int, 610, -120, 0]
}

pub open spec fn defi_changes() -> Seq<int> {
    seq![490int, 160]
}

pub open spec fn nft_changes() -> Seq<int> {
    seq![1220int, -230]
}

/// The text of an activity line: action, amount, value, time, chain, chain
/// colour and kind.
pub open spec fn activity_text(a: RecentActivity) -> Seq<Seq<char>> {
    seq![a.action@, a.amount@, a.value@, a.time@, a.chain@, a.chain_color@, a.kind@]
}

pub open spec fn activities_text(items: Seq<RecentActivity>) -> Seq<Seq<Seq<char>>> {
    items.map_values(|a: RecentActivity| activity_text(a))
}

/// The recent-activity list, line by line.
pub open spec fn activity_table() -> Seq<Seq<Seq<char>>> {
    seq![
        seq!["Bought ETH"@, "+2.456 ETH"@, "$4,856.78"@, "just now"@, "ETH"@, "bg-blue-500"@, "buy"@],
        seq!["Staked SOL"@, "125 SOL"@, "$9,234.56"@, "2 mins ago"@, "SOL"@, "bg-purple-500"@, "stake"@],
        seq!["Sold BNB"@, "-12.5 BNB"@, "$3,456.78"@, "5 mins ago"@, "BNB"@, "bg-yellow-500"@, "sell"@],
        seq![
            "Swapped USDT"@,
            "500 USDT \u{2192} TON"@,
            "$500.00"@,
            "12 mins ago"@,
            "TON"@,
            "bg-blue-600"@,
            "swap"@,
        ],
        seq![
            "Received NFT"@,
            "Mad Lad #8234"@,
            "$9,234.50"@,
            "26 mins ago"@,
            "SOL"@,
            "bg-purple-500"@,
            "receive"@,
        ],
        seq![
            "Claimed Rewards"@,
            "+45.67 CAKE"@,
            "$234.56"@,
            "44 mins ago"@,
            "BNB"@,
            "bg-yellow-500"@,
            "claim"@,
        ],
    ]
}

/// The text of a holding: name, symbol, chain, amount and value.
pub open spec fn asset_text(a: AssetItem) -> Seq<Seq<char>> {
    seq![a.name@, a.symbol@, a.chain@, a.amount@, a.value@]
}

pub open spec fn assets_text(items: Seq<AssetItem>) -> Seq<Seq<Seq<char>>> {
    items.map_values(|a: AssetItem| asset_text(a))
}

pub open spec fn token_table() -> Seq<Seq<Seq<char>>> {
    seq![
        seq!["Ethereum"@, "ETH"@, "ETH"@, "12.84"@, "$25,217.31"@],
        seq!["Solana"@, "SOL"@, "SOL"@, "326.1"@, "$61,492.20"@],
        seq!["BNB"@, "BNB"@, "BNB"@, "54.7"@, "$17,231.53"@],
        seq!["Tether"@, "USDT"@, "ETH"@, "4,500"@, "$4,500.00"@],
    ]
}

pub open spec fn defi_table() -> Seq<Seq<Seq<char>>> {
    seq![
        seq!["Jito Staked SOL"@, "JITOSOL"@, "SOL"@, "18.2"@, "$3,410.74"@],
        seq!["Pancake LP"@, "CAKE-LP"@, "BNB"@, "11.7"@, "$2,107.33"@],
    ]
}

pub open spec fn nft_table() -> Seq<Seq<Seq<char>>> {
    seq![
        seq!["Mad Lads"@, "MADLAD"@, "SOL"@, "1"@, "$9,234.50"@],
        seq!["Azuki"@, "AZUKI"@, "ETH"@, "1"@, "$14,122.00"@],
    ]
}

pub open spec fn changes_of(items: Seq<AssetItem>) -> Seq<int> {
    items.map_values(|a: AssetItem| a.change24h as int)
}

impl Assets {
    /// The fixed holdings that every snapshot shows.
    pub open spec fn is_catalog(&self) -> bool {
        &&& changes_of(self.tokens@) == token_changes()
        &&& assets_text(self.tokens@) == token_table()
        &&& assets_text(self.defi@) == defi_table()
        &&& assets_text(self.nfts@) == nft_table()
        &&& changes_of(self.defi@) == defi_changes()
        &&& changes_of(self.nfts@) == nft_changes()
    }
}

impl Snapshot {
    /// Every field is set, and every tick-dependent figure belongs to the
    /// snapshot's own tick: the snapshot was produced whole for one tick.
    pub open spec fn consistent(&self) -> bool {
        &&& self.metrics.figures_of(self.tick)
        &&& activities_text(self.recent_activities@) == activity_table()
        &&& self.assets.is_catalog()
    }

    /// This is the snapshot of `tick`, stamped with `updated_at`.
    pub open spec fn is_built_for(&self, tick: u64, updated_at: Seq<char>) -> bool {
        &&& self.tick == tick
        &&& self.consistent()
        &&& self.updated_at@ == updated_at
    }
}

fn activity(
    action: &str,
    amount: &str,
    value: &str,
    time: &str,
    chain: &str,
    chain_color: &str,
    kind: &str,
) -> (r: RecentActivity)
    ensures
        activity_text(r) == seq![action@, amount@, value@, time@, chain@, chain_color@, kind@],
{
    RecentActivity {
        action: action.to_owned(),
        amount: amount.to_owned(),
        value: value.to_owned(),
        time: time.to_owned(),
        chain: chain.to_owned(),
        chain_color: chain_color.to_owned(),
        kind: kind.to_owned(),
    }
}

fn asset(name: &str, symbol: &str, chain: &str, amount: &str, value: &str, change24h: i64) -> (r:
    AssetItem)
    ensures
        asset_text(r) == seq![name@, symbol@, chain@, amount@, value@],
        r.change24h == change24h,
{
    AssetItem {
        name: name.to_owned(),
        symbol: symbol.to_owned(),
        chain: chain.to_owned(),
        amount: amount.to_owned(),
        value: value.to_owned(),
        change24h,
    }
}

/// The recent-activity list shown with every snapshot.
pub fn recent_activities() -> (r: Vec<RecentActivity>)
    ensures
        activities_text(r@) == activity_table(),
{
    let r = vec![
        activity("Bought ETH", "+2.456 ETH", "$4,856.78", "just now", "ETH", "bg-blue-500", "buy"),
        activity("Staked SOL", "125 SOL", "$9,234.56", "2 mins ago", "SOL", "bg-purple-500", "stake"),
        activity("Sold BNB", "-12.5 BNB", "$3,456.78", "5 mins ago", "BNB", "bg-yellow-500", "sell"),
        activity(
            "Swapped USDT",
            "500 USDT \u{2192} TON",
            "$500.00",
            "12 mins ago",
            "TON",
            "bg-blue-600",
            "swap",
        ),
        activity(
            "Received NFT",
            "Mad Lad #8234",
            "$9,234.50",
            "26 mins ago",
            "SOL",
            "bg-purple-500",
            "receive",
        ),
        activity(
            "Claimed Rewards",
            "+45.67 CAKE",
            "$234.56",
            "44 mins ago",
            "BNB",
            "bg-yellow-500",
            "claim",
        ),
    ];
    assert(activities_text(r@) =~= activity_table());
    r
}

/// The holdings shown with every snapshot.
pub fn asset_catalog() -> (r: Assets)
    ensures
        r.is_catalog(),
{
    let tokens = vec![
        asset("Ethereum", "ETH", "ETH", "12.84", "$25,217.31", 240),
        asset("Solana", "SOL", "SOL", "326.1", "$61,492.20", 610),
        asset("BNB", "BNB", "BNB", "54.7", "$17,231.53", -120),
        asset("Tether", "USDT", "ETH", "4,500", "$4,500.00", 0),
    ];
    let defi = vec![
        asset("Jito Staked SOL", "JITOSOL", "SOL", "18.2", "$3,410.74", 490),
        asset("Pancake LP", "CAKE-LP", "BNB", "11.7", "$2,107.33", 160),
    ];
    let nfts = vec![
        asset("Mad Lads", "MADLAD", "SOL", "1", "$9,234.50", 1220),
        asset("Azuki", "AZUKI", "ETH", "1", "$14,122.00", -230),
    ];
    let r = Assets { tokens, defi, nfts };
    assert(changes_of(r.tokens@) =~= token_changes());
    assert(assets_text(r.tokens@) =~= token_table());
    assert(assets_text(r.defi@) =~= defi_table());
    assert(assets_text(r.nfts@) =~= nft_table());
    assert(changes_of(r.defi@) =~= defi_changes());
    assert(changes_of(r.nfts@) =~= nft_changes());
    r
}

/// Builds the snapshot of `tick`, stamped with `updated_at`.
pub fn build_snapshot(tick: u64, updated_at: String) -> (s: Snapshot)
    ensures
        s.is_built_for(tick, updated_at@),
{
    Snapshot {
        tick,
        metrics: build_metrics(tick),
        recent_activities: recent_activities(),
        assets: asset_catalog(),
        updated_at,
    }
}

/// Relies on chrono's `From<SystemTime> for DateTime<Utc>`, which also takes
/// clock readings before the Unix epoch, and on `DateTime::to_rfc3339`, which
/// always writes a full date and time. Nothing is promised of which moment it
/// is.
#[verifier::external_body]
fn now_rfc3339() -> (r: String)
    ensures
        r@.len() > 0,
{
    chrono::DateTime::<chrono::Utc>::from(std::time::SystemTime::now()).to_rfc3339()
}

/// Builds the snapshot of `tick`, stamped with the current time.
pub fn compute_snapshot(tick: u64) -> (s: Snapshot)
    ensures
        s.tick == tick,
        s.consistent(),
        s.updated_at@.len() > 0,
{
    build_snapshot(tick, now_rfc3339())
}

} // verus!
