//! Properties of the broadcaster that hold over several calls.
use crate::fanout::{
    Delivery,
    MailboxView,
    deliver,
    deliver_all,
    fresh_mailbox,
    publish_all,
    registered,
    take,
};
use crate::hub::{Hub, connected, disconnected, produced};
use crate::metrics::{
    FULL_SHARE,
    Metrics,
    altseason_of,
    btc_dominance_of,
    eth_dominance_of,
    fear_greed_of,
    market_cap_change_of,
    phase_offset,
    share_total,
    total_market_cap_of,
};
use crate::snapshot::{activities_text, assets_text, changes_of};
use crate::snapshot::Snapshot;
use std::sync::Arc;
use vstd::arithmetic::div_mod::lemma_mod_multiples_vanish;
use vstd::prelude::*;

verus! {

/// After a producer cycle the store holds exactly the snapshot computed for
/// the tick that cycle processed.
pub proof fn store_reflects_processed_tick(a: Hub, b: Hub)
    requires
        a.wf(),
        produced(a, b),
    ensures
        b.current().tick == a.next_tick(),
        b.current().metrics.figures_of(a.next_tick()),
        b.mailboxes() == publish_all(a.mailboxes(), b.current(), a.capacity()),
{
}

/// A subscriber that joins between two cycles is handed the snapshot in the
/// store first; after the next cycle exactly that cycle's snapshot waits for
/// it, with nothing repeated and nothing skipped.
pub proof fn late_joiner_receives_next_tick(
    a: Hub,
    b: Hub,
    c: Hub,
    first: Arc<Snapshot>,
    id: u64,
)
    requires
        a.wf(),
        connected(a, b, first, id),
        produced(b, c),
    ensures
        first == a.current(),
        c.current().tick == a.next_tick(),
        c.mailboxes()[a.mailboxes().len() as int] == (MailboxView {
            id,
            pending: seq![c.current()],
            closed: false,
        }),
        take(c.mailboxes()[a.mailboxes().len() as int]).0 == Delivery::Item(c.current()),
{
    b.lemma_wf();
    let k = a.mailboxes().len() as int;
    assert(b.mailboxes()[k] == fresh_mailbox(id));
    assert(c.mailboxes()[k] == deliver(fresh_mailbox(id), c.current(), b.capacity()));
    assert(c.mailboxes()[k].pending =~= seq![c.current()]);
}

/// Two mailboxes that agree go on agreeing: the same publications reach
/// them alike and in the same order.
pub proof fn subscribers_observe_same_sequence(
    x: MailboxView,
    y: MailboxView,
    shots: Seq<Arc<Snapshot>>,
    capacity: nat,
)
    requires
        x.pending == y.pending,
        x.closed == y.closed,
    ensures
        deliver_all(x, shots, capacity).pending == deliver_all(y, shots, capacity).pending,
        deliver_all(x, shots, capacity).closed == deliver_all(y, shots, capacity).closed,
    decreases shots.len(),
{
    if shots.len() > 0 {
        subscribers_observe_same_sequence(x, y, shots.drop_last(), capacity);
    }
}

/// `hubs` is a run of consecutive producer cycles, each from the state the
/// previous one left.
pub open spec fn cycle_run(hubs: Seq<Hub>) -> bool {
    forall|i: int| 0 <= i < hubs.len() - 1 ==> #[trigger] produced(hubs[i], hubs[i + 1])
}

/// The snapshots that a run of cycles published, in publish order.
pub open spec fn run_published(hubs: Seq<Hub>) -> Seq<Arc<Snapshot>> {
    hubs.drop_first().map_values(|h: Hub| h.current())
}

/// Over a run of cycles that does not overflow it, a subscriber's mailbox
/// gains exactly the snapshots the run published, each once, in publish order.
pub proof fn run_delivers_in_publish_order(hubs: Seq<Hub>, k: int)
    requires
        hubs.len() >= 1,
        cycle_run(hubs),
        0 <= k < hubs[0].mailboxes().len(),
        !hubs[0].mailboxes()[k].closed,
        hubs[0].mailboxes()[k].pending.len() + hubs.len() - 1 <= hubs[0].capacity(),
    ensures
        hubs.last().mailboxes().len() == hubs[0].mailboxes().len(),
        hubs.last().capacity() == hubs[0].capacity(),
        hubs.last().mailboxes()[k] == (MailboxView {
            pending: hubs[0].mailboxes()[k].pending + run_published(hubs),
            ..hubs[0].mailboxes()[k]
        }),
    decreases hubs.len(),
{
    let b0 = hubs[0].mailboxes()[k];
    if hubs.len() == 1 {
        assert(run_published(hubs) =~= Seq::<Arc<Snapshot>>::empty());
        assert(b0.pending + run_published(hubs) =~= b0.pending);
    } else {
        let prev = hubs.drop_last();
        assert forall|i: int| 0 <= i < prev.len() - 1 implies #[trigger] produced(
            prev[i],
            prev[i + 1],
        ) by {
            assert(produced(hubs[i], hubs[i + 1]));
        }
        run_delivers_in_publish_order(prev, k);
        let n = hubs.len() - 1;
        let m = n - 1;
        assert(produced(hubs[m], hubs[m + 1]));
        let a = hubs[m];
        let b = hubs[m + 1];
        assert(a == prev.last());
        assert(run_published(hubs) =~= run_published(prev).push(b.current()));
        assert(b.mailboxes()[k] == deliver(a.mailboxes()[k], b.current(), a.capacity()));
        assert((b0.pending + run_published(prev)).push(b.current()) =~= b0.pending
            + run_published(hubs));
    }
}

/// Two subscribers registered with empty mailboxes before a run of cycles
/// that overflows neither hold the same snapshots afterwards: exactly those
/// the run published, in the one global publish order.
pub proof fn subscribers_share_publish_order(hubs: Seq<Hub>, j: int, k: int)
    requires
        hubs.len() >= 1,
        cycle_run(hubs),
        0 <= j < hubs[0].mailboxes().len(),
        0 <= k < hubs[0].mailboxes().len(),
        !hubs[0].mailboxes()[j].closed && hubs[0].mailboxes()[j].pending.len() == 0,
        !hubs[0].mailboxes()[k].closed && hubs[0].mailboxes()[k].pending.len() == 0,
        hubs.len() - 1 <= hubs[0].capacity(),
    ensures
        hubs.last().mailboxes()[j].pending == run_published(hubs),
        hubs.last().mailboxes()[k].pending == run_published(hubs),
        !hubs.last().mailboxes()[j].closed && !hubs.last().mailboxes()[k].closed,
{
    run_delivers_in_publish_order(hubs, j);
    run_delivers_in_publish_order(hubs, k);
    assert(hubs[0].mailboxes()[j].pending + run_published(hubs) =~= run_published(hubs));
    assert(hubs[0].mailboxes()[k].pending + run_published(hubs) =~= run_published(hubs));
}

/// What `shots` do to a mailbox that holds at most `capacity` snapshots:
/// while the bound holds they queue up behind its backlog in publish order;
/// past it the mailbox is disconnected and holds nothing.
pub proof fn mailbox_after_publications(b: MailboxView, shots: Seq<Arc<Snapshot>>, capacity: nat)
    requires
        b.pending.len() <= capacity,
        b.closed ==> b.pending.len() == 0,
    ensures
        !b.closed && b.pending.len() + shots.len() <= capacity ==> deliver_all(
            b,
            shots,
            capacity,
        ) == (MailboxView { pending: b.pending + shots, ..b }),
        b.closed || b.pending.len() + shots.len() > capacity ==> deliver_all(
            b,
            shots,
            capacity,
        ).closed && deliver_all(b, shots, capacity).pending.len() == 0,
        deliver_all(b, shots, capacity).id == b.id,
    decreases shots.len(),
{
    if shots.len() == 0 {
        assert(b.pending + shots =~= b.pending);
    } else {
        let rest = shots.drop_last();
        mailbox_after_publications(b, rest, capacity);
        if !b.closed && b.pending.len() + rest.len() <= capacity {
            assert(b.pending + rest + seq![shots.last()] =~= b.pending + shots);
            assert((b.pending + rest).push(shots.last()) =~= b.pending + shots);
        }
    }
}

/// A subscriber that joined before a run of publications no longer than the
/// bound holds exactly those snapshots, in publish order.
pub proof fn fresh_subscriber_sees_publish_order(
    id: u64,
    shots: Seq<Arc<Snapshot>>,
    capacity: nat,
)
    requires
        shots.len() <= capacity,
    ensures
        deliver_all(fresh_mailbox(id), shots, capacity) == (MailboxView {
            id,
            pending: shots,
            closed: false,
        }),
{
    mailbox_after_publications(fresh_mailbox(id), shots, capacity);
    assert(Seq::<Arc<Snapshot>>::empty() + shots =~= shots);
}

/// A subscriber that never receives is disconnected, its backlog dropped,
/// once more snapshots than its bound have been published after it joined;
/// the publications themselves never wait on it.
pub proof fn stalled_subscriber_is_disconnected(
    b: MailboxView,
    shots: Seq<Arc<Snapshot>>,
    capacity: nat,
)
    requires
        !b.closed,
        b.pending.len() <= capacity,
        b.pending.len() + shots.len() > capacity,
    ensures
        deliver_all(b, shots, capacity).closed,
        deliver_all(b, shots, capacity).pending.len() == 0,
{
    mailbox_after_publications(b, shots, capacity);
}

/// A producer cycle that finds a subscriber's mailbox full disconnects that
/// subscriber and drops its backlog, and still commits: the store holds the
/// snapshot of the tick just processed.
pub proof fn full_mailbox_disconnected_by_cycle(a: Hub, b: Hub, k: int)
    requires
        a.wf(),
        produced(a, b),
        0 <= k < a.mailboxes().len(),
        !a.mailboxes()[k].closed,
        a.mailboxes()[k].pending.len() == a.capacity(),
    ensures
        b.mailboxes().len() == a.mailboxes().len(),
        b.mailboxes()[k].id == a.mailboxes()[k].id,
        b.mailboxes()[k].closed,
        b.mailboxes()[k].pending.len() == 0,
        b.current().tick == a.next_tick(),
{
}

/// A subscriber that leaves, even after a publication reached it, gives its
/// registration back: the registry has the size it had before it joined.
pub proof fn leaving_restores_registry(
    a: Hub,
    b: Hub,
    c: Hub,
    d: Hub,
    first: Arc<Snapshot>,
    id: u64,
)
    requires
        a.wf(),
        connected(a, b, first, id),
        produced(b, c),
        disconnected(c, d, id),
    ensures
        d.mailboxes().len() == a.mailboxes().len(),
        !registered(d.mailboxes(), id),
{
    let k = a.mailboxes().len() as int;
    assert(c.mailboxes()[k].id == id);
}

/// Whatever happens between two pulls (a producer cycle, a subscriber joining
/// or leaving), the store holds a whole snapshot of a single tick.
pub proof fn pull_returns_whole_snapshot(a: Hub, b: Hub, first: Arc<Snapshot>, id: u64)
    requires
        a.current().consistent(),
        produced(a, b) || connected(a, b, first, id) || disconnected(a, b, id),
    ensures
        b.current().consistent(),
{
}

/// In every cycle both indices lie in [0, 100] and the dominance shares add
/// up to one hundred percent, exactly.
pub proof fn cycle_figures_in_range(m: Metrics, tick: u64)
    requires
        m.figures_of(tick),
    ensures
        0 <= m.altseason_index <= 100,
        0 <= m.fear_greed_index <= 100,
        share_total(m.dominance_map@) == FULL_SHARE,
        forall|i: int| 0 <= i < m.dominance_map@.len() ==> 0 <= #[trigger] m.dominance_map@[i].share,
{
    let d = m.dominance_map@;
    assert(d[0].share == crate::metrics::dominance_shares_of(tick)[0]);
    assert(d[1].share == crate::metrics::dominance_shares_of(tick)[1]);
    assert(d[2].share == crate::metrics::dominance_shares_of(tick)[2]);
    assert(d[3].share == crate::metrics::dominance_shares_of(tick)[3]);
    assert(d[4].share == crate::metrics::dominance_shares_of(tick)[4]);
    assert(d[5].share == crate::metrics::dominance_shares_of(tick)[5]);
    reveal_with_fuel(share_total, 7);
    assert(d.drop_last().drop_last().drop_last().drop_last().drop_last().drop_last().len() == 0);
}

/// Two snapshots built whole for the same tick agree in every figure and
/// every line of text; only their time stamps may differ.
pub proof fn snapshots_of_one_tick_agree(a: Snapshot, b: Snapshot)
    requires
        a.consistent(),
        b.consistent(),
        a.tick == b.tick,
    ensures
        a.metrics.portfolio_value == b.metrics.portfolio_value,
        a.metrics.portfolio_change_percent == b.metrics.portfolio_change_percent,
        a.metrics.portfolio_change_value == b.metrics.portfolio_change_value,
        a.metrics.altseason_index == b.metrics.altseason_index,
        a.metrics.altseason_trend@ == b.metrics.altseason_trend@,
        a.metrics.btc_dominance == b.metrics.btc_dominance,
        a.metrics.eth_dominance == b.metrics.eth_dominance,
        a.metrics.dominance_map@.len() == b.metrics.dominance_map@.len(),
        forall|i: int|
            0 <= i < a.metrics.dominance_map@.len() ==> (#[trigger] a.metrics.dominance_map@[i]).share
                == b.metrics.dominance_map@[i].share && a.metrics.dominance_map@[i].symbol@
                == b.metrics.dominance_map@[i].symbol@,
        a.metrics.total_market_cap == b.metrics.total_market_cap,
        a.metrics.market_cap_change_percent == b.metrics.market_cap_change_percent,
        a.metrics.market_cap_trend@ == b.metrics.market_cap_trend@,
        a.metrics.fear_greed_index == b.metrics.fear_greed_index,
        activities_text(a.recent_activities@) == activities_text(b.recent_activities@),
        assets_text(a.assets.tokens@) == assets_text(b.assets.tokens@),
        assets_text(a.assets.defi@) == assets_text(b.assets.defi@),
        assets_text(a.assets.nfts@) == assets_text(b.assets.nfts@),
        changes_of(a.assets.tokens@) == changes_of(b.assets.tokens@),
        changes_of(a.assets.defi@) == changes_of(b.assets.defi@),
        changes_of(a.assets.nfts@) == changes_of(b.assets.nfts@),
{
    assert forall|i: int| 0 <= i < a.metrics.dominance_map@.len() implies (
    #[trigger] a.metrics.dominance_map@[i]).share == b.metrics.dominance_map@[i].share by {
        assert(0 <= i < 6);
    }
}

/// The figures repeat every 120 ticks, the least common multiple of the
/// cycles they follow: a snapshot of `tick + 120` agrees with one of `tick`
/// in everything but its tick and time stamp.
pub proof fn figures_repeat_every_120_ticks(tick: u64)
    requires
        tick + 120 <= u64::MAX,
    ensures
        phase_offset(tick) == phase_offset((tick + 120) as u64),
        altseason_of(tick) == altseason_of((tick + 120) as u64),
        fear_greed_of(tick) == fear_greed_of((tick + 120) as u64),
        btc_dominance_of(tick) == btc_dominance_of((tick + 120) as u64),
        eth_dominance_of(tick) == eth_dominance_of((tick + 120) as u64),
        total_market_cap_of(tick) == total_market_cap_of((tick + 120) as u64),
        market_cap_change_of(tick) == market_cap_change_of((tick + 120) as u64),
        forall|m: Metrics, n: Metrics|
            m.figures_of(tick) && n.figures_of((tick + 120) as u64) ==> m.portfolio_value
                == n.portfolio_value && m.portfolio_change_value == n.portfolio_change_value
                && m.altseason_trend@ == n.altseason_trend@ && m.market_cap_trend@
                == n.market_cap_trend@ && m.dominance_map@.len() == n.dominance_map@.len(),
{
    let t = tick as int;
    let u = (tick + 120) as u64;
    assert(u as int == 40 * 3 + t);
    lemma_mod_multiples_vanish(3, t, 40);
    assert(u as int == 8 * 15 + t);
    lemma_mod_multiples_vanish(15, t, 8);
    assert(u as int == 10 * 12 + t);
    lemma_mod_multiples_vanish(12, t, 10);
    assert(u as int == 6 * 20 + t);
    lemma_mod_multiples_vanish(20, t, 6);
    assert(u as int == 5 * 24 + t);
    lemma_mod_multiples_vanish(24, t, 5);
    assert(u as int == 12 * 10 + t);
    lemma_mod_multiples_vanish(10, t, 12);
}

} // verus!
