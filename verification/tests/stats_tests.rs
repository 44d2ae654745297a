use std::time::Duration;
use tls_tunnel::client_stats::{ClientStatsManager, ClientStatsTracker};
use tls_tunnel::config::ProxyType;
use tls_tunnel::connection_pool::{pool_config_for, Acquire, AddressPool, PoolConfig, PooledConnection};
use tls_tunnel::dashboard::{
    html_answer, json_answer, not_found_answer, stats_page, stats_row, Dashboard, StatsPage,
};
use tls_tunnel::stats::{ProxyStatsTracker, StatsManager};

#[test]
fn test_stats_tracker_creation() {
    let tracker = ClientStatsTracker::new(
        "test-proxy".to_string(),
        ProxyType::Tcp,
        "127.0.0.1".to_string(),
        8080,
        "server.example.com".to_string(),
        3080,
    );

    let stats = tracker.snapshot();
    assert_eq!(stats.name, "test-proxy");
    assert_eq!(stats.bind_port, 8080);
    assert_eq!(stats.target_port, 3080);
    assert_eq!(stats.active_connections, 0);
    assert_eq!(stats.total_connections, 0);
}

#[test]
fn test_connection_tracking() {
    let mut tracker = ClientStatsTracker::new(
        "test".to_string(),
        ProxyType::Tcp,
        "127.0.0.1".to_string(),
        8080,
        "server".to_string(),
        3080,
    );

    tracker.connection_started();
    let stats = tracker.snapshot();
    assert_eq!(stats.active_connections, 1);
    assert_eq!(stats.total_connections, 1);

    tracker.connection_started();
    let stats = tracker.snapshot();
    assert_eq!(stats.active_connections, 2);
    assert_eq!(stats.total_connections, 2);

    tracker.connection_ended();
    let stats = tracker.snapshot();
    assert_eq!(stats.active_connections, 1);
    assert_eq!(stats.total_connections, 2);
}

#[test]
fn test_bytes_tracking() {
    let mut tracker = ClientStatsTracker::new(
        "test".to_string(),
        ProxyType::Tcp,
        "127.0.0.1".to_string(),
        8080,
        "server".to_string(),
        3080,
    );

    tracker.record_bytes_sent(1024);
    tracker.record_bytes_received(2048);

    let stats = tracker.snapshot();
    assert_eq!(stats.bytes_sent, 1024);
    assert_eq!(stats.bytes_received, 2048);
}

#[test]
fn test_stats_manager() {
    let mut manager = ClientStatsManager::new();

    let tracker1 = ClientStatsTracker::new(
        "proxy1".to_string(),
        ProxyType::Tcp,
        "127.0.0.1".to_string(),
        8080,
        "server".to_string(),
        3080,
    );

    let tracker2 = ClientStatsTracker::new(
        "proxy2".to_string(),
        ProxyType::Tcp,
        "127.0.0.1".to_string(),
        8081,
        "server".to_string(),
        3081,
    );

    manager.add_tracker(tracker1);
    manager.add_tracker(tracker2);

    let stats = manager.get_all_stats();
    assert_eq!(stats.len(), 2);

    let found = manager.get_tracker("proxy1");
    assert!(found.is_some());
    assert_eq!(found.unwrap().name, "proxy1");
}

#[test]
fn client_tracker_status_follows_connections() {
    let mut tracker = ClientStatsTracker::new_at(
        "web".to_string(),
        ProxyType::Http11,
        "127.0.0.1".to_string(),
        80,
        "srv".to_string(),
        8080,
        1000,
    );
    assert_eq!(tracker.snapshot().status, "Idle");
    assert_eq!(tracker.snapshot().proxy_type, "Http11");
    tracker.connection_started();
    assert_eq!(tracker.snapshot().status, "Connected");
    tracker.connection_ended();
    assert_eq!(tracker.snapshot().status, "Idle");
    tracker.record_bytes_sent(5);
    tracker.reset();
    let s = tracker.snapshot();
    assert_eq!(s.status, "Reset");
    assert_eq!(s.bytes_sent, 0);
    assert_eq!(s.start_time, 1000);
}

#[test]
fn client_manager_replaces_by_name() {
    let mut manager = ClientStatsManager::new();
    let a = ClientStatsTracker::new_at("a".into(), ProxyType::Tcp, "x".into(), 1, "s".into(), 2, 5);
    let b = ClientStatsTracker::new_at("a".into(), ProxyType::Tcp, "y".into(), 3, "s".into(), 4, 6);
    manager.add_or_update_tracker(a);
    manager.add_or_update_tracker(b);
    let all = manager.get_all_stats();
    assert_eq!(all.len(), 1);
    assert_eq!(all[0].bind_port, 3);
    manager.connection_started("a");
    manager.record_bytes_received("a", 7);
    let s = &manager.get_all_stats()[0];
    assert_eq!(s.active_connections, 1);
    assert_eq!(s.bytes_received, 7);
    manager.reset_all();
    assert_eq!(manager.get_all_stats()[0].active_connections, 0);
}

#[test]
fn server_tracker_counts() {
    let mut t = ProxyStatsTracker::new_at("web".into(), "0.0.0.0".into(), 8080, 3000, 42);
    t.connection_started();
    t.connection_started();
    t.connection_ended();
    t.add_bytes_sent(10);
    t.add_bytes_received(20);
    let s = t.get_stats();
    assert_eq!(s.total_connections, 2);
    assert_eq!(s.active_connections, 1);
    assert_eq!(s.bytes_sent, 10);
    assert_eq!(s.bytes_received, 20);
    assert_eq!(s.start_time, 42);
}

#[test]
fn server_tracker_counters_wrap() {
    let mut t = ProxyStatsTracker::new_at("w".into(), "a".into(), 1, 2, 0);
    t.connection_ended();
    assert_eq!(t.get_stats().active_connections, u64::MAX);
    t.add_bytes_sent(u64::MAX);
    t.add_bytes_sent(2);
    assert_eq!(t.get_stats().bytes_sent, 1);
}

#[test]
fn stats_manager_register_lookup_unregister() {
    let mut m = StatsManager::new();
    let t = m.register_proxy("web".into(), "0.0.0.0".into(), 8080, 3000);
    assert_eq!(t.name, "web");
    assert_eq!(t.total_connections, 0);
    m.register_proxy("api".into(), "0.0.0.0".into(), 8081, 3001);
    assert_eq!(m.get_all_stats().len(), 2);
    m.connection_started("web");
    m.add_bytes_sent("web", 100);
    let s = m.get_proxy_stats("web").unwrap();
    assert_eq!(s.active_connections, 1);
    assert_eq!(s.bytes_sent, 100);
    // Registering the same name again starts from zero in place.
    m.register_proxy("web".into(), "0.0.0.0".into(), 9090, 3000);
    assert_eq!(m.get_all_stats().len(), 2);
    assert_eq!(m.get_proxy_stats("web").unwrap().publish_port, 9090);
    assert_eq!(m.get_proxy_stats("web").unwrap().active_connections, 0);
    m.unregister_proxy("web");
    assert!(m.get_proxy_stats("web").is_none());
    m.clear();
    assert!(m.get_all_stats().is_empty());
}

#[test]
fn test_connection_pool_config_default() {
    let config = PoolConfig::default();
    assert_eq!(config.min_idle, 2);
    assert_eq!(config.max_size, 10);
}

#[test]
fn pool_config_default_durations() {
    let config = PoolConfig::default();
    assert_eq!(config.max_idle_time, Duration::from_secs(60));
    assert_eq!(config.connect_timeout, Duration::from_millis(5000));
    assert_eq!(config.keepalive_time, Some(Duration::from_secs(30)));
    assert_eq!(config.keepalive_interval, Some(Duration::from_secs(10)));
    assert!(!config.reuse_connections);
}

#[test]
fn pool_config_per_proxy_type() {
    let base = PoolConfig::default();
    let h2 = pool_config_for(base, ProxyType::Http2);
    assert!(h2.reuse_connections);
    assert_eq!(h2.max_size, 1);
    assert_eq!(h2.min_idle, 1);
    let tcp = pool_config_for(base, ProxyType::Tcp);
    assert!(!tcp.reuse_connections);
    assert_eq!(tcp.max_size, 10);
    let h11 = pool_config_for(base, ProxyType::Http11);
    assert!(h11.reuse_connections);
}

const SEC: u128 = 1_000_000_000;

#[test]
fn test_pooled_connection_expiry() {
    let now = 1000 * SEC;
    let conn = PooledConnection { stream: (), created_at: now, last_used: now - 120 * SEC };

    assert!(conn.is_expired(now, 60 * SEC));
    assert!(!conn.is_expired(now, 180 * SEC));
}

#[test]
fn address_pool_reuses_and_exhausts() {
    let mut config = PoolConfig::default();
    config.reuse_connections = true;
    config.max_size = 2;
    let mut pool: AddressPool<u32> = AddressPool::new("127.0.0.1:80".to_string(), config);
    assert!(matches!(pool.get_connection(0), Acquire::Connect));
    pool.connection_opened();
    assert!(matches!(pool.get_connection(0), Acquire::Connect));
    pool.connection_opened();
    match pool.get_connection(0) {
        Acquire::Exhausted(m) => assert_eq!(m, "Connection pool exhausted for 127.0.0.1:80 (max: 2)"),
        _ => panic!("expected exhaustion"),
    }
    pool.return_connection(7, true, 5);
    let s = pool.stats();
    assert_eq!(s.active, 1);
    assert_eq!(s.idle, 1);
    assert_eq!(s.total, 2);
    match pool.get_connection(10) {
        Acquire::Reused(c) => assert_eq!(c, 7),
        _ => panic!("expected reuse"),
    }
}

#[test]
fn address_pool_drops_stale_and_unhealthy() {
    let mut config = PoolConfig::default();
    config.reuse_connections = true;
    let mut pool: AddressPool<u32> = AddressPool::new("a".to_string(), config);
    pool.connection_opened();
    pool.return_connection(1, false, 0);
    assert_eq!(pool.stats().idle, 0);
    pool.add_warm_connection(2, 0);
    // 61 seconds later the idle connection is stale.
    assert!(matches!(pool.get_connection(61 * SEC), Acquire::Connect));
    assert_eq!(pool.stats().idle, 0);
    assert_eq!(pool.warmup_target(), 2);
}

#[test]
fn address_pool_without_reuse_discards() {
    let config = PoolConfig::default();
    let mut pool: AddressPool<u32> = AddressPool::new("a".to_string(), config);
    pool.connection_opened();
    pool.return_connection(1, true, 0);
    assert_eq!(pool.stats().idle, 0);
    assert_eq!(pool.stats().active, 0);
    pool.discard_connection();
    assert_eq!(pool.stats().active, 0);
}

#[test]
fn stats_pages_by_path() {
    assert_eq!(stats_page(b"GET /stats HTTP/1.1\r\n\r\n"), StatsPage::Json);
    assert_eq!(stats_page(b"GET /stats/ HTTP/1.1\r\n"), StatsPage::Json);
    assert_eq!(stats_page(b"GET / HTTP/1.1\r\n"), StatsPage::Html);
    assert_eq!(stats_page(b"GET /?x=1 HTTP/1.1\r\n"), StatsPage::Html);
    assert_eq!(stats_page(b"GET /other HTTP/1.1\r\n"), StatsPage::NotFound);
    assert_eq!(stats_page(b""), StatsPage::Html);
    assert_eq!(stats_page(b"GET"), StatsPage::Html);
}

#[test]
fn stats_answers_carry_lengths() {
    assert_eq!(
        not_found_answer(),
        "HTTP/1.1 404 Not Found\r\nContent-Type: text/plain\r\nContent-Length: 13\r\n\r\n404 Not Found"
    );
    assert_eq!(
        json_answer("[]"),
        "HTTP/1.1 200 OK\r\nContent-Type: application/json\r\nContent-Length: 2\r\n\r\n[]"
    );
    assert_eq!(
        html_answer("é"),
        "HTTP/1.1 200 OK\r\nContent-Type: text/html; charset=utf-8\r\nContent-Length: 2\r\n\r\né"
    );
}

#[test]
fn dashboard_state_and_rows() {
    let mut d = Dashboard::new("http://127.0.0.1:9000".to_string(), 2);
    assert_eq!(d.interval(), Duration::from_secs(2));
    assert_eq!(d.stats_url(), "http://127.0.0.1:9000/api/stats");
    assert_eq!(
        d.header_title(100),
        "TLS Tunnel Statistics - http://127.0.0.1:9000 - Waiting for data..."
    );
    let t = ProxyStatsTracker::new_at("web".into(), "0.0.0.0".into(), 8080, 3000, 10);
    d.record_stats(vec![t.get_stats()], 95);
    assert_eq!(
        d.header_title(100),
        "TLS Tunnel Statistics - http://127.0.0.1:9000 - Last update: 5s ago"
    );
    let rows = d.table_rows(100);
    assert_eq!(
        rows[0],
        vec!["web", "0.0.0.0:8080", "3000", "0", "0", "0 B", "0 B", "1m 30s"]
    );
    assert!(d.error_text().is_none());
    d.record_error("refused".to_string());
    assert_eq!(d.error_text(), Some("Error: refused".to_string()));
    let row = stats_row(&t.get_stats(), 5);
    assert_eq!(row[7], "0s");
}

#[test]
fn connection_round_trip_keeps_active_count() {
    let mut t = ProxyStatsTracker::new_at("web".to_string(), "0.0.0.0".to_string(), 8080, 3000, 10);
    t.connection_started();
    t.connection_ended();
    let s = t.get_stats();
    assert_eq!(s.active_connections, 0);
    assert_eq!(s.total_connections, 1);

    let mut c = ClientStatsTracker::new_at(
        "web".to_string(),
        ProxyType::Tcp,
        "127.0.0.1".to_string(),
        8080,
        "server".to_string(),
        3080,
        10,
    );
    c.connection_started();
    c.connection_started();
    c.connection_ended();
    assert_eq!(c.snapshot().status, "Connected");
    c.connection_ended();
    let s = c.snapshot();
    assert_eq!(s.active_connections, 0);
    assert_eq!(s.total_connections, 2);
    assert_eq!(s.status, "Idle");
}

#[test]
fn counting_goes_through_the_manager() {
    let mut m = StatsManager::new();
    let snapshot = m.register_proxy("web".into(), "0.0.0.0".into(), 8080, 3000);
    m.connection_started("web");
    assert_eq!(snapshot.active_connections, 0);
    assert_eq!(m.get_proxy_stats("web").unwrap().active_connections, 1);

    let mut c = ClientStatsManager::new();
    c.add_tracker(ClientStatsTracker::new_at(
        "p".into(),
        ProxyType::Tcp,
        "127.0.0.1".into(),
        1,
        "s".into(),
        2,
        0,
    ));
    c.connection_started("p");
    assert_eq!(c.get_tracker("p").unwrap().active_connections, 1);
}

#[test]
fn trackers_start_at_the_current_time() {
    let t = ProxyStatsTracker::new("web".into(), "0.0.0.0".into(), 8080, 3000);
    let now = std::time::SystemTime::now()
        .duration_since(std::time::UNIX_EPOCH)
        .unwrap()
        .as_secs();
    let start = t.get_stats().start_time;
    assert!(start <= now && now - start < 60);
}
