use arctos_live::fanout::{Delivery, FanOut};
use arctos_live::hub::{Hub, SnapshotStore, BACKLOG};
use arctos_live::metrics::{build_metrics, round_div_i64, Metrics, FULL_SHARE};
use arctos_live::session::{session_step, Inbound, SessionAction, SessionEvent, SessionPhase};
use arctos_live::snapshot::{asset_catalog, build_snapshot, compute_snapshot, recent_activities, Snapshot};
use std::sync::Arc;

fn share_sum(m: &Metrics) -> i64 {
    m.dominance_map.iter().map(|d| d.share).sum()
}

fn assert_consistent(s: &Snapshot) {
    let m = build_metrics(s.tick);
    assert_eq!(s.metrics.portfolio_value, m.portfolio_value);
    assert_eq!(s.metrics.portfolio_change_value, m.portfolio_change_value);
    assert_eq!(s.metrics.altseason_index, m.altseason_index);
    assert_eq!(s.metrics.fear_greed_index, m.fear_greed_index);
    assert_eq!(s.metrics.total_market_cap, m.total_market_cap);
    assert_eq!(s.metrics.altseason_trend, m.altseason_trend);
    assert_eq!(s.metrics.market_cap_trend, m.market_cap_trend);
    assert_eq!(s.recent_activities.len(), 6);
    assert_eq!(s.assets.tokens.len(), 4);
}

fn expect_item(d: Delivery) -> Arc<Snapshot> {
    match d {
        Delivery::Item(s) => s,
        Delivery::Empty => panic!("expected a snapshot, got nothing"),
        Delivery::Closed => panic!("expected a snapshot, got a closed subscription"),
    }
}

#[test]
fn metrics_of_tick_one() {
    let m = build_metrics(1);
    assert_eq!(m.portfolio_value, 12437132);
    assert_eq!(m.portfolio_change_percent, -456);
    assert_eq!(m.portfolio_change_value, -567133);
    assert_eq!(m.altseason_index, 64);
    assert_eq!(m.fear_greed_index, 68);
    assert_eq!(m.btc_dominance, 5096);
    assert_eq!(m.eth_dominance, 1860);
    assert_eq!(m.total_market_cap, 236_750_000_000_000);
    assert_eq!(m.market_cap_change_percent, -144);
    assert_eq!(m.market_cap_trend, vec![222, 224, 227, 231, 228, 235, 239, 237]);
    assert_eq!(m.altseason_trend, vec![42, 45, 48, 52, 57, 60, 63, 64]);
    let symbols: Vec<&str> = m.dominance_map.iter().map(|d| d.symbol.as_str()).collect();
    assert_eq!(symbols, vec!["BTC", "ETH", "USDT", "BNB", "SOL", "OTHERS"]);
    let shares: Vec<i64> = m.dominance_map.iter().map(|d| d.share).collect();
    assert_eq!(shares, vec![5096, 1860, 580, 390, 330, 1744]);
}

#[test]
fn metrics_at_cycle_middle() {
    let m = build_metrics(20);
    assert_eq!(m.portfolio_value, 12845632);
    assert_eq!(m.portfolio_change_percent, 0);
    assert_eq!(m.portfolio_change_value, 0);
    let m0 = build_metrics(0);
    assert_eq!(m0.portfolio_value, 12415632);
    assert_eq!(m0.portfolio_change_percent, -480);
    assert_eq!(m0.portfolio_change_value, -595950);
}

#[test]
fn rounding_is_half_away_from_zero() {
    assert_eq!(round_div_i64(5, 10), 1);
    assert_eq!(round_div_i64(-5, 10), -1);
    assert_eq!(round_div_i64(4, 10), 0);
    assert_eq!(round_div_i64(-15, 10), -2);
    assert_eq!(round_div_i64(14, 10), 1);
}

#[test]
fn indices_and_shares_in_range_for_many_ticks() {
    for t in (0u64..200).chain([u64::MAX - 1, u64::MAX]) {
        let m = build_metrics(t);
        assert!(m.altseason_index <= 100);
        assert!(m.fear_greed_index <= 100);
        assert!(share_sum(&m) <= FULL_SHARE);
        assert!(m.dominance_map.iter().all(|d| d.share >= 0));
    }
}

#[test]
fn catalog_is_fixed() {
    let a = asset_catalog();
    let changes: Vec<i64> = a.tokens.iter().chain(&a.defi).chain(&a.nfts).map(|i| i.change24h).collect();
    assert_eq!(changes, vec![240, 610, -120, 0, 490, 160, 1220, -230]);
    let r = recent_activities();
    assert_eq!(r[0].action, "Bought ETH");
    assert_eq!(r[3].amount, "500 USDT \u{2192} TON");
    assert_eq!(r[5].kind, "claim");
}

#[test]
fn build_snapshot_keeps_tick_and_stamp() {
    let s = build_snapshot(7, "2024-01-01T00:00:00+00:00".to_string());
    assert_eq!(s.tick, 7);
    assert_eq!(s.updated_at, "2024-01-01T00:00:00+00:00");
    assert_consistent(&s);
}

#[test]
fn computed_snapshot_is_stamped_with_rfc3339_time() {
    let s = compute_snapshot(3);
    assert_eq!(s.tick, 3);
    assert!(chrono::DateTime::parse_from_rfc3339(&s.updated_at).is_ok());
    assert_consistent(&s);
}

#[test]
fn end_to_end_first_cycle() {
    let mut seed = build_snapshot(0, "2024-01-01T00:00:00+00:00".to_string());
    seed.metrics.portfolio_value = 12845632;
    let mut hub = Hub::new(seed, BACKLOG);
    assert_eq!(hub.snapshot().metrics.portfolio_value, 12845632);
    hub.produce();
    let s = hub.snapshot();
    assert_eq!(s.tick, 1);
    assert!(s.metrics.altseason_index <= 100);
    assert!(s.metrics.fear_greed_index <= 100);
    assert!(share_sum(&s.metrics) <= FULL_SHARE);
    assert_eq!(hub.upcoming_tick(), 2);
}

#[test]
fn store_reflects_each_processed_tick() {
    let mut hub = Hub::start();
    assert_eq!(hub.snapshot().tick, 0);
    for t in 1u64..=10 {
        hub.produce();
        let s = hub.snapshot();
        assert_eq!(s.tick, t);
        assert_consistent(&s);
    }
}

#[test]
fn late_joiner_gets_current_then_next() {
    let mut hub = Hub::start();
    hub.produce();
    let (first, id) = hub.connect().unwrap();
    assert_eq!(first.tick, 1);
    assert!(matches!(hub.poll(id), Delivery::Empty));
    hub.produce();
    let next = expect_item(hub.poll(id));
    assert_eq!(next.tick, 2);
    assert!(Arc::ptr_eq(&next, &hub.snapshot()));
    assert!(matches!(hub.poll(id), Delivery::Empty));
}

#[test]
fn two_subscribers_see_same_order() {
    let mut hub = Hub::start();
    let (_, a) = hub.connect().unwrap();
    let (_, b) = hub.connect().unwrap();
    assert_ne!(a, b);
    for _ in 0..5 {
        hub.produce();
    }
    let mut seen_a = Vec::new();
    let mut seen_b = Vec::new();
    for _ in 0..5 {
        seen_a.push(expect_item(hub.poll(a)).tick);
    }
    for _ in 0..5 {
        seen_b.push(expect_item(hub.poll(b)).tick);
    }
    assert_eq!(seen_a, vec![1, 2, 3, 4, 5]);
    assert_eq!(seen_a, seen_b);
}

#[test]
fn stalled_subscriber_is_disconnected_without_stalling_producer() {
    let mut hub = Hub::start();
    let (_, stalled) = hub.connect().unwrap();
    let (_, reader) = hub.connect().unwrap();
    for t in 1..=(BACKLOG as u64 + 1) {
        hub.produce();
        assert_eq!(expect_item(hub.poll(reader)).tick, t);
    }
    assert_eq!(hub.snapshot().tick, BACKLOG as u64 + 1);
    assert!(matches!(hub.poll(stalled), Delivery::Closed));
    hub.produce();
    assert!(matches!(hub.poll(stalled), Delivery::Closed));
    assert_eq!(expect_item(hub.poll(reader)).tick, BACKLOG as u64 + 2);
}

#[test]
fn full_backlog_is_kept_up_to_the_bound() {
    let mut hub = Hub::start();
    let (_, id) = hub.connect().unwrap();
    for _ in 0..BACKLOG {
        hub.produce();
    }
    for t in 1..=(BACKLOG as u64) {
        assert_eq!(expect_item(hub.poll(id)).tick, t);
    }
    assert!(matches!(hub.poll(id), Delivery::Empty));
}

#[test]
fn disconnect_restores_registry_size() {
    let mut hub = Hub::start();
    let (_, keep) = hub.connect().unwrap();
    let baseline = hub.subscriber_count();
    let (_, id) = hub.connect().unwrap();
    assert_eq!(hub.subscriber_count(), baseline + 1);
    hub.produce();
    hub.disconnect(id);
    assert_eq!(hub.subscriber_count(), baseline);
    assert!(matches!(hub.poll(id), Delivery::Closed));
    assert_eq!(expect_item(hub.poll(keep)).tick, 1);
    hub.disconnect(id);
    assert_eq!(hub.subscriber_count(), baseline);
}

#[test]
fn pull_returns_consistent_snapshot() {
    let mut hub = Hub::start();
    assert_consistent(&hub.snapshot());
    for _ in 0..3 {
        hub.produce();
        let (_, id) = hub.connect().unwrap();
        assert_consistent(&hub.snapshot());
        hub.disconnect(id);
        assert_consistent(&hub.snapshot());
    }
}

#[test]
fn fanout_without_subscribers_accepts_publish() {
    let mut f = FanOut::new(2);
    f.publish(Arc::new(compute_snapshot(1)));
    assert_eq!(f.subscriber_count(), 0);
    assert!(matches!(f.receive(9), Delivery::Closed));
    let id = f.subscribe().unwrap();
    assert!(matches!(f.receive(id), Delivery::Empty));
    f.publish(Arc::new(compute_snapshot(2)));
    f.publish(Arc::new(compute_snapshot(3)));
    f.publish(Arc::new(compute_snapshot(4)));
    assert!(matches!(f.receive(id), Delivery::Closed));
    f.unsubscribe(id);
    assert_eq!(f.subscriber_count(), 0);
}

#[test]
fn session_greeting_then_streaming() {
    let (p, a) = session_step(SessionPhase::Greeting, SessionEvent::Pushed(true));
    assert!(matches!(p, SessionPhase::Streaming));
    assert!(matches!(a, SessionAction::Wait));
    let s = Arc::new(compute_snapshot(1));
    let (p, a) = session_step(SessionPhase::Streaming, SessionEvent::Channel(Delivery::Item(s.clone())));
    assert!(matches!(p, SessionPhase::Streaming));
    match a {
        SessionAction::Push(x) => assert!(Arc::ptr_eq(&x, &s)),
        _ => panic!("expected a push"),
    }
    let (p, a) = session_step(SessionPhase::Streaming, SessionEvent::Channel(Delivery::Empty));
    assert!(matches!(p, SessionPhase::Streaming));
    assert!(matches!(a, SessionAction::Wait));
    let (p, a) = session_step(SessionPhase::Streaming, SessionEvent::Inbound(Inbound::Message));
    assert!(matches!(p, SessionPhase::Streaming));
    assert!(matches!(a, SessionAction::Wait));
}

#[test]
fn session_ends_on_failures_and_close() {
    let ending = vec![
        SessionEvent::Pushed(false),
        SessionEvent::Channel(Delivery::Closed),
        SessionEvent::Inbound(Inbound::Close),
        SessionEvent::Inbound(Inbound::Finished),
        SessionEvent::Inbound(Inbound::Failed),
    ];
    for e in ending {
        let (p, a) = session_step(SessionPhase::Streaming, e);
        assert!(matches!(p, SessionPhase::Ended));
        assert!(matches!(a, SessionAction::Release));
    }
    let (p, a) = session_step(SessionPhase::Greeting, SessionEvent::Pushed(false));
    assert!(matches!(p, SessionPhase::Ended));
    assert!(matches!(a, SessionAction::Release));
    let (p, a) = session_step(SessionPhase::Ended, SessionEvent::Inbound(Inbound::Close));
    assert!(matches!(p, SessionPhase::Ended));
    assert!(matches!(a, SessionAction::Wait));
}

#[test]
fn store_replaces_whole_value() {
    let mut store = SnapshotStore::new(build_snapshot(0, "a".to_string()));
    assert_eq!(store.get().tick, 0);
    let next = Arc::new(build_snapshot(5, "b".to_string()));
    store.set(next.clone());
    assert!(Arc::ptr_eq(&store.get(), &next));
    assert_eq!(store.get().updated_at, "b");
}

#[test]
fn commit_publishes_given_snapshot_and_advances_tick() {
    let mut hub = Hub::new(build_snapshot(0, "a".to_string()), 4);
    let (first, id) = hub.connect().unwrap();
    assert_eq!(first.updated_at, "a");
    hub.commit(build_snapshot(1, "b".to_string()));
    assert_eq!(hub.snapshot().tick, 1);
    assert_eq!(hub.upcoming_tick(), 2);
    let got = expect_item(hub.poll(id));
    assert!(Arc::ptr_eq(&got, &hub.snapshot()));
    assert_eq!(got.updated_at, "b");
}

fn texts(s: &Snapshot) -> Vec<String> {
    let mut out = Vec::new();
    for a in &s.recent_activities {
        out.extend([&a.action, &a.amount, &a.value, &a.time, &a.chain, &a.chain_color, &a.kind].map(|x| x.clone()));
    }
    for i in s.assets.tokens.iter().chain(&s.assets.defi).chain(&s.assets.nfts) {
        out.extend([&i.name, &i.symbol, &i.chain, &i.amount, &i.value].map(|x| x.clone()));
        out.push(i.change24h.to_string());
    }
    out
}

fn figures(m: &Metrics) -> Vec<i64> {
    let mut out = vec![
        m.portfolio_value,
        m.portfolio_change_percent,
        m.portfolio_change_value,
        m.altseason_index as i64,
        m.btc_dominance,
        m.eth_dominance,
        m.total_market_cap,
        m.market_cap_change_percent,
        m.fear_greed_index as i64,
    ];
    out.extend(m.altseason_trend.iter().map(|v| *v as i64));
    out.extend(m.market_cap_trend.iter().copied());
    out.extend(m.dominance_map.iter().map(|d| d.share));
    out
}

#[test]
fn market_cap_trend_ends_with_rounded_trillions() {
    assert_eq!(*build_metrics(0).market_cap_trend.last().unwrap(), 236);
    assert_eq!(*build_metrics(1).market_cap_trend.last().unwrap(), 237);
    assert_eq!(*build_metrics(6).market_cap_trend.last().unwrap(), 241);
    assert_eq!(*build_metrics(11).market_cap_trend.last().unwrap(), 245);
}

#[test]
fn builds_of_one_tick_agree_but_for_stamp() {
    let a = build_snapshot(13, "x".to_string());
    let b = compute_snapshot(13);
    assert_eq!(figures(&a.metrics), figures(&b.metrics));
    assert_eq!(texts(&a), texts(&b));
    assert_eq!(texts(&a)[0], "Bought ETH");
    assert!(!b.updated_at.is_empty());
}

#[test]
fn figures_repeat_every_120_ticks() {
    for t in 0u64..130 {
        assert_eq!(figures(&build_metrics(t)), figures(&build_metrics(t + 120)));
    }
}
