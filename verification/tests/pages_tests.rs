use tls_tunnel::client_session::{
    get_local_retries, get_local_retry_delay, get_reconnect_delay, ClientConfigMessage,
};
use tls_tunnel::client_stats::{ClientStatsManager, ClientStatsTracker};
use tls_tunnel::config::{default_routing_strategy, ProxyConfig, ProxyType, RoutingStrategy, VisitorConfig};
use tls_tunnel::connection_pool::{get_pool_config, Acquire, AddressPool, PoolConfig};
use tls_tunnel::forwarder::{ConnectionPool, FailedTargetManager};
use tls_tunnel::stats::StatsManager;
use tls_tunnel::stats_page::{generate_client_stats_html, generate_stats_html};
use tls_tunnel::validator::ConfigValidator;

#[test]
fn server_page_without_proxies() {
    let m = StatsManager::new();
    let html = generate_stats_html(&m, 100);
    assert!(html.starts_with("<!DOCTYPE html>\n<html lang=\"en\">"));
    assert!(html.ends_with("</html>"));
    assert!(html.contains("<span class=\"info-label\">Total Proxies:</span>\n                <span class=\"info-value\">0</span>"));
    assert!(html.contains("No Proxies Connected"));
    assert!(!html.contains("<table>"));
    // Style braces come out single.
    assert!(html.contains("* {\n            margin: 0;"));
}

#[test]
fn server_page_lists_proxies() {
    let mut m = StatsManager::new();
    m.register_proxy("web".into(), "0.0.0.0".into(), 8080, 3000);
    m.register_proxy("api".into(), "1.2.3.4".into(), 9000, 3001);
    m.connection_started("web");
    m.connection_started("web");
    m.connection_ended("web");
    m.connection_started("api");
    m.add_bytes_sent("web", 2048);
    let start = m.get_proxy_stats("web").unwrap().start_time;
    let html = generate_stats_html(&m, start + 3700);
    assert!(html.contains("<span class=\"info-value\">2</span>"));
    // Active: web 1 + api 1; total: web 2 + api 1.
    assert!(html.contains("Total Active Connections:</span>\n                <span class=\"info-value\">2</span>"));
    assert!(html.contains("Total Connections:</span>\n                <span class=\"info-value\">3</span>"));
    assert!(html.contains("<th>Proxy Name</th>"));
    assert!(html.contains(
        "\n            <tr>\n                <td>web</td>\n                <td>0.0.0.0:8080</td>\n                <td>3000</td>\n                <td>1</td>\n                <td>2</td>\n                <td>2.00 KB</td>\n                <td>0 B</td>\n                <td>1h 1m</td>\n            </tr>\n            "
    ));
    // Rows come in registration order.
    let web = html.find("<td>web</td>").unwrap();
    let api = html.find("<td>api</td>").unwrap();
    assert!(web < api);
    assert!(!html.contains("No Proxies Connected"));
}

#[test]
fn client_page_lists_proxies() {
    let mut m = ClientStatsManager::new();
    m.add_tracker(ClientStatsTracker::new_at(
        "ssh".into(),
        ProxyType::Tcp,
        "127.0.0.1".into(),
        2222,
        "srv".into(),
        22,
        1000,
    ));
    m.connection_started("ssh");
    m.record_bytes_received("ssh", 5);
    let html = generate_client_stats_html(&m, 1065);
    assert!(html.starts_with("<!DOCTYPE html>\n<html lang=\"zh-CN\">"));
    assert!(html.ends_with("</html>"));
    assert!(html.contains(
        "\n            <tr>\n                <td>ssh</td>\n                <td>Tcp</td>\n                <td>127.0.0.1:2222</td>\n                <td>srv:22</td>\n                <td>1</td>\n                <td>1</td>\n                <td>0 B</td>\n                <td>5 B</td>\n                <td>1m 5s</td>\n                <td>Connected</td>\n            </tr>\n            "
    ));
    assert!(html.contains("<h3>总代理数</h3>\n                <p>1</p>"));
}

#[test]
fn client_page_without_proxies() {
    let m = ClientStatsManager::new();
    let html = generate_client_stats_html(&m, 0);
    assert!(html.contains("<h3>活跃连接数</h3>\n                <p>0</p>"));
    assert!(html.contains("<tbody>\n                    \n                </tbody>"));
}

#[test]
fn forwarder_security_warning() {
    assert!(ConfigValidator::check_forwarder_security("f", "127.0.0.1").is_none());
    assert!(ConfigValidator::check_forwarder_security("f", "localhost").is_none());
    assert!(ConfigValidator::check_forwarder_security("f", "::1").is_none());
    let w = ConfigValidator::check_forwarder_security("web", "0.0.0.0").unwrap();
    assert_eq!(
        w,
        "⚠️  SECURITY WARNING: Forwarder 'web' is binding to '0.0.0.0' which exposes the proxy to your network!\n\
         This allows anyone on the network to use your proxy, which may lead to:\n\
         - Abuse of your IP address\n\
         - Your IP being blacklisted\n\
         - Unauthorized use of your bandwidth\n\
         RECOMMENDATION: Use bind_addr = '127.0.0.1' for localhost-only access."
    );
}

#[test]
fn settings_from_environment_values() {
    assert_eq!(get_reconnect_delay(None), 5);
    assert_eq!(get_reconnect_delay(Some("12")), 12);
    assert_eq!(get_reconnect_delay(Some("x")), 5);
    assert_eq!(get_local_retry_delay(None), 1000);
    assert_eq!(get_local_retry_delay(Some("250")), 250);
    assert_eq!(get_local_retries(None), 3);
    assert_eq!(get_local_retries(Some("7")), 7);
    assert_eq!(get_local_retries(Some("4294967295")), u32::MAX);
    assert_eq!(get_local_retries(Some("4294967296")), 3);
    assert_eq!(get_local_retries(Some("-1")), 3);
}

#[test]
fn config_message_carries_version() {
    let p = ProxyConfig {
        name: "web".into(),
        proxy_type: ProxyType::Tcp,
        publish_addr: "0.0.0.0".into(),
        publish_port: 8080,
        local_port: 3000,
    };
    let v = VisitorConfig {
        name: "ssh".into(),
        proxy_type: ProxyType::Tcp,
        bind_addr: "127.0.0.1".into(),
        bind_port: 2222,
        publish_port: 22,
    };
    let m = ClientConfigMessage::new(vec![p], vec![v]);
    assert_eq!(m.version, 1);
    assert_eq!(m.proxies.len(), 1);
    assert_eq!(m.proxies[0].name, "web");
    assert_eq!(m.visitors[0].bind_port, 2222);
}

#[test]
fn routing_defaults_to_proxy() {
    assert_eq!(default_routing_strategy(), RoutingStrategy::Proxy);
}

#[test]
fn failure_refuses_for_the_timeout() {
    let mut m = FailedTargetManager::new();
    m.record_failure_at("a:1", 100);
    assert!(m.is_blacklisted_at("a:1", 100));
    assert!(m.is_blacklisted_at("a:1", 1899));
    assert!(!m.is_blacklisted_at("a:1", 1900));
    // The second failure keeps the first refusal's start.
    m.record_failure_at("a:1", 2000);
    assert!(!m.is_blacklisted_at("a:1", 2000));
    // The third failure restarts the refusal.
    m.record_failure_at("a:1", 3000);
    assert!(m.is_blacklisted_at("a:1", 3000));
    assert!(m.is_blacklisted_at("a:1", 4799));
    assert!(!m.is_blacklisted_at("a:1", 4800));
}

#[test]
fn failure_of_one_target_leaves_others() {
    let mut m = FailedTargetManager::new();
    m.record_failure_at("b:2", 50);
    let before = m.is_blacklisted_at("b:2", 60);
    m.record_failure_at("c:3", 55);
    assert_eq!(m.is_blacklisted_at("b:2", 60), before);
    assert!(!m.is_blacklisted_at("d:4", 60));
}

#[test]
fn cleanup_keeps_answers() {
    let mut m = FailedTargetManager::new();
    m.record_failure_at("old", 0);
    m.record_failure_at("new", 1000);
    let at = 2000;
    let old_answer = m.is_blacklisted_at("old", at);
    let new_answer = m.is_blacklisted_at("new", at);
    m.cleanup_expired_targets_at(1900);
    assert_eq!(m.failed_targets_count_at(1900), 1);
    assert_eq!(m.is_blacklisted_at("old", at), old_answer);
    assert_eq!(m.is_blacklisted_at("new", at), new_answer);
    assert!(new_answer);
    assert!(!old_answer);
}

#[test]
fn registered_counters_found_by_name() {
    let mut m = StatsManager::new();
    m.register_proxy("a".into(), "h".into(), 1, 2);
    m.add_bytes_sent("a", 9);
    m.register_proxy("a".into(), "h".into(), 3, 4);
    let s = m.get_proxy_stats("a").unwrap();
    assert_eq!(s.publish_port, 3);
    assert_eq!(s.bytes_sent, 0);
    m.unregister_proxy("a");
    assert!(m.get_proxy_stats("a").is_none());
}

#[test]
fn returned_connection_lent_next() {
    let mut config = PoolConfig::default();
    config.reuse_connections = true;
    let mut pool: AddressPool<u8> = AddressPool::new("x".to_string(), config);
    pool.connection_opened();
    pool.return_connection(42, true, 1_000);
    match pool.get_connection(1_000 + 60_000_000_000) {
        Acquire::Reused(c) => assert_eq!(c, 42),
        _ => panic!("expected the returned connection"),
    }
}

#[test]
fn test_connection_pool() {
    let _pool: ConnectionPool<u32> = ConnectionPool::new(5, 60_000_000_000);
}

const SEC: u128 = 1_000_000_000;

#[test]
fn target_pool_reuses_newest_fresh() {
    let mut pool: ConnectionPool<u32> = ConnectionPool::new(2, 300 * SEC);
    pool.return_connection("a:1".to_string(), 1, 0);
    pool.return_connection("a:1".to_string(), 2, 10 * SEC);
    // A third connection to the same target is dropped.
    pool.return_connection("a:1".to_string(), 3, 20 * SEC);
    pool.return_connection("b:2".to_string(), 4, 20 * SEC);
    assert_eq!(pool.take_fresh("a:1", 30 * SEC), Some(2));
    assert_eq!(pool.take_fresh("a:1", 30 * SEC), Some(1));
    assert_eq!(pool.take_fresh("a:1", 30 * SEC), None);
    assert_eq!(pool.take_fresh("b:2", 30 * SEC), Some(4));
}

#[test]
fn target_pool_drops_stale() {
    let mut pool: ConnectionPool<u32> = ConnectionPool::new(5, 300 * SEC);
    pool.return_connection("a:1".to_string(), 1, 0);
    pool.return_connection("a:1".to_string(), 2, 100 * SEC);
    pool.return_connection("a:1".to_string(), 3, 200 * SEC);
    // At 350 s the first one has waited 350 s: stale; the third and second are fresh.
    assert_eq!(pool.take_fresh("a:1", 350 * SEC), Some(3));
    // At 450 s the second one has waited 350 s: stale; so is the first.
    assert_eq!(pool.take_fresh("a:1", 450 * SEC), None);
    pool.return_connection("c:3".to_string(), 7, 0);
    pool.return_connection("c:3".to_string(), 8, 400 * SEC);
    pool.cleanup_expired(450 * SEC);
    assert_eq!(pool.take_fresh("c:3", 450 * SEC), Some(8));
    assert_eq!(pool.take_fresh("c:3", 450 * SEC), None);
}

struct TestHandler {
    name: String,
    port: u16,
}

impl tls_tunnel::manager::ProxyHandler for TestHandler {
    fn status(&self) -> tls_tunnel::manager::HandlerStatus {
        tls_tunnel::manager::HandlerStatus::Running
    }
    fn name(&self) -> &str {
        &self.name
    }
    fn proxy_type(&self) -> ProxyType {
        ProxyType::Socks5Proxy
    }
    fn bind_address(&self) -> String {
        format!("127.0.0.1:{}", self.port)
    }
}

#[test]
fn proxy_manager_lists_handlers() {
    let mut m = tls_tunnel::manager::ProxyManager::new();
    assert_eq!(m.handler_count(), 0);
    m.add_handler(TestHandler { name: "a".into(), port: 1080 });
    m.add_handler(TestHandler { name: "b".into(), port: 1081 });
    let list = m.list_handlers();
    assert_eq!(list.len(), 2);
    assert_eq!(list[0].0, "a");
    assert_eq!(list[1].2, "127.0.0.1:1081");
    assert!(list[0].3.is_healthy());
    assert!(!tls_tunnel::manager::HandlerStatus::Failed("x".into()).is_healthy());
}

#[test]
fn pool_counts_fit_and_lend() {
    let config = PoolConfig::default();
    let mut pool: AddressPool<u8> = AddressPool::new("x".to_string(), config);
    assert!(pool.can_lend());
    assert!(pool.counts_fit());
    pool.connection_opened();
    assert!(pool.can_lend());
    assert!(pool.counts_fit());
}

#[test]
fn pool_config_defaults_without_overrides() {
    let c = get_pool_config(None, None, None, None, None, None);
    assert_eq!(c.min_idle, 2);
    assert_eq!(c.max_size, 10);
    assert_eq!(c.max_idle_time, std::time::Duration::from_secs(60));
    assert_eq!(c.connect_timeout, std::time::Duration::from_millis(5000));
    assert_eq!(c.keepalive_time, Some(std::time::Duration::from_secs(30)));
    assert_eq!(c.keepalive_interval, Some(std::time::Duration::from_secs(10)));
    assert!(c.reuse_connections);
}

#[test]
fn pool_config_overrides_that_parse() {
    let c = get_pool_config(Some("4"), Some("many"), Some("120"), Some("250"), Some("x"), Some("5"));
    assert_eq!(c.min_idle, 4);
    assert_eq!(c.max_size, 10);
    assert_eq!(c.max_idle_time, std::time::Duration::from_secs(120));
    assert_eq!(c.connect_timeout, std::time::Duration::from_millis(250));
    assert_eq!(c.keepalive_time, Some(std::time::Duration::from_secs(30)));
    assert_eq!(c.keepalive_interval, Some(std::time::Duration::from_secs(5)));
}
