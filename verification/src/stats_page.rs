//! The HTML overview of the server's statistics page.
use vstd::prelude::*;

use crate::dashboard::uptime;
use crate::format::{format_bytes, format_duration};
use crate::client_stats::{snapshot_of, ClientProxyStats, ClientStatsManager, ClientStatsView};
use crate::config::proxy_type_debug_name;
use crate::format::{human_bytes, human_duration};
use crate::stats::{ProxyStats, ProxyStatsView, StatsManager};
use crate::text::{decimal, push_decimal, push_text, text};

verus! {

/// The page up to the number of proxies.
pub const STATS_PAGE_HEAD: &'static str = r#"<!DOCTYPE html>
<html lang="en">
<head>
    <meta charset="UTF-8">
    <meta name="viewport" content="width=device-width, initial-scale=1.0">
    <meta http-equiv="refresh" content="5">
    <title>TLS Tunnel - Statistics</title>
    <style>
        * {
            margin: 0;
            padding: 0;
            box-sizing: border-box;
        }
        body {
            font-family: -apple-system, BlinkMacSystemFont, "Segoe UI", Roboto, "Helvetica Neue", Arial, sans-serif;
            background: linear-gradient(135deg, #667eea 0%, #764ba2 100%);
            min-height: 100vh;
            padding: 20px;
        }
        .container {
            max-width: 1400px;
            margin: 0 auto;
            background: white;
            border-radius: 12px;
            box-shadow: 0 20px 60px rgba(0,0,0,0.3);
            overflow: hidden;
        }
        header {
            background: linear-gradient(135deg, #667eea 0%, #764ba2 100%);
            color: white;
            padding: 30px;
            text-align: center;
        }
        h1 {
            font-size: 2.5em;
            font-weight: 600;
            margin-bottom: 10px;
        }
        .subtitle {
            font-size: 1.1em;
            opacity: 0.9;
        }
        .info {
            background: #f8f9fa;
            padding: 20px 30px;
            border-bottom: 2px solid #e9ecef;
            display: flex;
            justify-content: space-between;
            align-items: center;
            flex-wrap: wrap;
        }
        .info-item {
            display: flex;
            align-items: center;
            margin: 5px 15px;
        }
        .info-label {
            font-weight: 600;
            color: #495057;
            margin-right: 8px;
        }
        .info-value {
            color: #667eea;
            font-weight: 500;
        }
        .content {
            padding: 30px;
        }
        table {
            width: 100%;
            border-collapse: collapse;
            margin-top: 10px;
        }
        th {
            background: linear-gradient(135deg, #667eea 0%, #764ba2 100%);
            color: white;
            padding: 15px;
            text-align: left;
            font-weight: 600;
            font-size: 0.95em;
            text-transform: uppercase;
            letter-spacing: 0.5px;
        }
        td {
            padding: 15px;
            border-bottom: 1px solid #e9ecef;
        }
        tr:hover {
            background: #f8f9fa;
        }
        .badge {
            display: inline-block;
            padding: 4px 12px;
            border-radius: 20px;
            font-size: 0.85em;
            font-weight: 600;
        }
        .badge-success {
            background: #d4edda;
            color: #155724;
        }
        .empty {
            text-align: center;
            padding: 60px;
            color: #6c757d;
        }
        .empty-icon {
            font-size: 4em;
            margin-bottom: 20px;
            opacity: 0.3;
        }
        footer {
            text-align: center;
            padding: 20px;
            color: #6c757d;
            font-size: 0.9em;
            border-top: 1px solid #e9ecef;
        }
        .refresh-note {
            color: #6c757d;
            font-size: 0.85em;
            font-style: italic;
        }
    </style>
</head>
<body>
    <div class="container">
        <header>
            <h1>🔐 TLS Tunnel Statistics</h1>
            <p class="subtitle">Real-time proxy monitoring dashboard</p>
        </header>
        
        <div class="info">
            <div class="info-item">
                <span class="info-label">Total Proxies:</span>
                <span class="info-value">"#;

/// The page between the number of proxies and the active connections.
pub const STATS_PAGE_AFTER_COUNT: &'static str = r#"</span>
            </div>
            <div class="info-item">
                <span class="info-label">Total Active Connections:</span>
                <span class="info-value">"#;

/// The page between the active connections and the total connections.
pub const STATS_PAGE_AFTER_ACTIVE: &'static str = r#"</span>
            </div>
            <div class="info-item">
                <span class="info-label">Total Connections:</span>
                <span class="info-value">"#;

/// The page between the total connections and its content.
pub const STATS_PAGE_AFTER_TOTAL: &'static str = r#"</span>
            </div>
            <div class="info-item refresh-note">
                Auto-refresh: 5 seconds
            </div>
        </div>

        <div class="content">
            "#;

/// The page after its content.
pub const STATS_PAGE_TAIL: &'static str = r#"
        </div>

        <footer>
            <p>TLS Tunnel Server · Powered by Rust & Tokio</p>
            <p style="margin-top: 8px;"><a href="/stats" style="color: #667eea; text-decoration: none;">View JSON API</a></p>
        </footer>
    </div>
</body>
</html>"#;

/// The content when no proxy is registered.
pub const STATS_PAGE_EMPTY: &'static str = r#"<div class="empty">
                <div class="empty-icon">📊</div>
                <h2 style="color: #495057; margin-bottom: 10px;">No Proxies Connected</h2>
                <p>Waiting for clients to connect...</p>
            </div>"#;

/// The table up to its rows.
pub const STATS_TABLE_HEAD: &'static str = r#"<table>
                <thead>
                    <tr>
                        <th>Proxy Name</th>
                        <th>Published Address</th>
                        <th>Client Port</th>
                        <th>Active</th>
                        <th>Total</th>
                        <th>Sent</th>
                        <th>Received</th>
                        <th>Uptime</th>
                    </tr>
                </thead>
                <tbody>
                    "#;

/// The table after its rows.
pub const STATS_TABLE_TAIL: &'static str = r#"
                </tbody>
            </table>"#;

/// A row up to its first cell.
pub const STATS_ROW_OPEN: &'static str = r#"
            <tr>
                <td>"#;

/// Between two cells of a row.
pub const STATS_CELL_SEP: &'static str = r#"</td>
                <td>"#;

/// A row after its last cell.
pub const STATS_ROW_CLOSE: &'static str = r#"</td>
            </tr>
            "#;

/// One proxy's row of the table, read at Unix time `now`: name, published
/// address, local port, active, total, sent, received, uptime.
pub open spec fn stats_row_html(s: ProxyStatsView, now: u64) -> Seq<char> {
    STATS_ROW_OPEN@ + s.name + STATS_CELL_SEP@ + (s.publish_addr + ":"@ + decimal(s.publish_port as nat))
        + STATS_CELL_SEP@ + decimal(s.local_port as nat) + STATS_CELL_SEP@ + decimal(
        s.active_connections as nat,
    ) + STATS_CELL_SEP@ + decimal(s.total_connections as nat) + STATS_CELL_SEP@ + human_bytes(
        s.bytes_sent as nat,
    ) + STATS_CELL_SEP@ + human_bytes(s.bytes_received as nat) + STATS_CELL_SEP@ + human_duration(
        uptime(now, s.start_time) as nat,
    ) + STATS_ROW_CLOSE@
}

/// The rows of every proxy, in order.
pub open spec fn stats_rows_html(stats: Seq<ProxyStatsView>, now: u64) -> Seq<char>
    decreases stats.len(),
{
    if stats.len() == 0 {
        Seq::empty()
    } else {
        stats_rows_html(stats.drop_last(), now) + stats_row_html(stats.last(), now)
    }
}

/// The active connections of all proxies together.
pub open spec fn active_sum(stats: Seq<ProxyStatsView>) -> nat
    decreases stats.len(),
{
    if stats.len() == 0 {
        0
    } else {
        active_sum(stats.drop_last()) + stats.last().active_connections as nat
    }
}

/// The connections ever accepted by all proxies together.
pub open spec fn total_sum(stats: Seq<ProxyStatsView>) -> nat
    decreases stats.len(),
{
    if stats.len() == 0 {
        0
    } else {
        total_sum(stats.drop_last()) + stats.last().total_connections as nat
    }
}

/// A sum as a `u64` shows it: modulo 2^64.
pub open spec fn wrapped(n: nat) -> nat {
    n % 0x1_0000_0000_0000_0000
}

/// The whole page for the proxies' counters at Unix time `now`.
pub open spec fn stats_html(stats: Seq<ProxyStatsView>, now: u64) -> Seq<char> {
    STATS_PAGE_HEAD@ + decimal(stats.len()) + STATS_PAGE_AFTER_COUNT@ + decimal(
        wrapped(active_sum(stats)),
    ) + STATS_PAGE_AFTER_ACTIVE@ + decimal(wrapped(total_sum(stats))) + STATS_PAGE_AFTER_TOTAL@ + (
    if stats.len() == 0 {
        STATS_PAGE_EMPTY@
    } else {
        STATS_TABLE_HEAD@ + stats_rows_html(stats, now) + STATS_TABLE_TAIL@
    }) + STATS_PAGE_TAIL@
}

/// A sum of `n` counters is below `n * 2^64`.
proof fn lemma_sums_bounded(stats: Seq<ProxyStatsView>)
    ensures
        active_sum(stats) <= stats.len() * 0xffff_ffff_ffff_ffff,
        total_sum(stats) <= stats.len() * 0xffff_ffff_ffff_ffff,
    decreases stats.len(),
{
    if stats.len() > 0 {
        lemma_sums_bounded(stats.drop_last());
        let n = stats.len();
        assert((n - 1) * 0xffff_ffff_ffff_ffff + 0xffff_ffff_ffff_ffff == n * 0xffff_ffff_ffff_ffff)
            by (nonlinear_arith);
    }
}

/// One proxy's row.
fn stats_row_text(s: &ProxyStats, now: u64) -> (r: String)
    ensures
        r@ == stats_row_html(s@, now),
{
    let mut publish = s.publish_addr.clone();
    push_text(&mut publish, ":");
    push_decimal(&mut publish, s.publish_port as u128);
    let up = if now >= s.start_time {
        now - s.start_time
    } else {
        0
    };
    let sent = format_bytes(s.bytes_sent);
    let received = format_bytes(s.bytes_received);
    let up_text = format_duration(up);
    let mut r = text(STATS_ROW_OPEN);
    push_text(&mut r, s.name.as_str());
    push_text(&mut r, STATS_CELL_SEP);
    push_text(&mut r, publish.as_str());
    push_text(&mut r, STATS_CELL_SEP);
    push_decimal(&mut r, s.local_port as u128);
    push_text(&mut r, STATS_CELL_SEP);
    push_decimal(&mut r, s.active_connections as u128);
    push_text(&mut r, STATS_CELL_SEP);
    push_decimal(&mut r, s.total_connections as u128);
    push_text(&mut r, STATS_CELL_SEP);
    push_text(&mut r, sent.as_str());
    push_text(&mut r, STATS_CELL_SEP);
    push_text(&mut r, received.as_str());
    push_text(&mut r, STATS_CELL_SEP);
    push_text(&mut r, up_text.as_str());
    push_text(&mut r, STATS_ROW_CLOSE);
    r
}

/// The HTML overview of every registered proxy's counters, read at Unix
/// time `now`.
pub fn generate_stats_html(stats_manager: &StatsManager, now: u64) -> (html: String)
    ensures
        html@ == stats_html(stats_manager@, now),
{
    let stats = stats_manager.get_all_stats();
    let ghost sv = stats@.map_values(|s: ProxyStats| s@);
    let mut rows = String::new();
    let mut active: u128 = 0;
    let mut total: u128 = 0;
    let mut i: usize = 0;
    proof {
        assert(sv.subrange(0, 0) =~= Seq::<ProxyStatsView>::empty());
    }
    while i < stats.len()
        invariant
            0 <= i <= stats@.len(),
            sv == stats@.map_values(|s: ProxyStats| s@),
            rows@ == stats_rows_html(sv.subrange(0, i as int), now),
            active == active_sum(sv.subrange(0, i as int)),
            total == total_sum(sv.subrange(0, i as int)),
        decreases stats@.len() - i,
    {
        let ghost pre = sv.subrange(0, i as int);
        let ghost next = sv.subrange(0, i + 1);
        proof {
            assert(next.drop_last() =~= pre);
            assert(next.last() == stats@[i as int]@);
            lemma_sums_bounded(pre);
            assert(i * 0xffff_ffff_ffff_ffff <= 0xffff_ffff_ffff_ffff * 0xffff_ffff_ffff_ffff)
                by (nonlinear_arith)
                requires
                    i <= 0xffff_ffff_ffff_ffff,
            ;
        }
        let row = stats_row_text(&stats[i], now);
        push_text(&mut rows, row.as_str());
        active = active + stats[i].active_connections as u128;
        total = total + stats[i].total_connections as u128;
        i = i + 1;
    }
    proof {
        assert(sv.subrange(0, stats@.len() as int) =~= sv);
    }
    let mut html = String::new();
    push_text(&mut html, STATS_PAGE_HEAD);
    push_decimal(&mut html, stats.len() as u128);
    push_text(&mut html, STATS_PAGE_AFTER_COUNT);
    push_decimal(&mut html, active % 0x1_0000_0000_0000_0000u128);
    push_text(&mut html, STATS_PAGE_AFTER_ACTIVE);
    push_decimal(&mut html, total % 0x1_0000_0000_0000_0000u128);
    push_text(&mut html, STATS_PAGE_AFTER_TOTAL);
    if stats.len() == 0 {
        push_text(&mut html, STATS_PAGE_EMPTY);
    } else {
        push_text(&mut html, STATS_TABLE_HEAD);
        push_text(&mut html, rows.as_str());
        push_text(&mut html, STATS_TABLE_TAIL);
    }
    push_text(&mut html, STATS_PAGE_TAIL);
    proof {
        assert(html@ =~= stats_html(stats_manager@, now));
    }
    html
}

/// The page up to the number of proxies.
pub const CLIENT_PAGE_HEAD: &'static str = r#"<!DOCTYPE html>
<html lang="zh-CN">
<head>
    <meta charset="UTF-8">
    <meta name="viewport" content="width=device-width, initial-scale=1.0">
    <meta http-equiv="refresh" content="5">
    <title>TLS Tunnel - 客户端统计</title>
    <style>
        * {
            margin: 0;
            padding: 0;
            box-sizing: border-box;
        }
        body {
            font-family: -apple-system, BlinkMacSystemFont, "Segoe UI", Roboto, "Helvetica Neue", Arial, sans-serif;
            background: linear-gradient(135deg, #667eea 0%, #764ba2 100%);
            min-height: 100vh;
            padding: 20px;
        }
        .container {
            max-width: 1400px;
            margin: 0 auto;
        }
        .header {
            background: white;
            border-radius: 10px;
            padding: 30px;
            margin-bottom: 20px;
            box-shadow: 0 2px 10px rgba(0,0,0,0.1);
        }
        h1 {
            color: #333;
            font-size: 28px;
            margin-bottom: 10px;
        }
        .subtitle {
            color: #666;
            font-size: 14px;
        }
        .stats-table {
            background: white;
            border-radius: 10px;
            padding: 20px;
            box-shadow: 0 2px 10px rgba(0,0,0,0.1);
            overflow-x: auto;
        }
        table {
            width: 100%;
            border-collapse: collapse;
        }
        th {
            background: linear-gradient(135deg, #667eea 0%, #764ba2 100%);
            color: white;
            padding: 15px;
            text-align: left;
            font-weight: 600;
        }
        td {
            padding: 12px 15px;
            border-bottom: 1px solid #eee;
        }
        tr:hover {
            background-color: #f5f5f5;
        }
        .badge {
            display: inline-block;
            padding: 4px 8px;
            border-radius: 4px;
            font-size: 12px;
            font-weight: 600;
        }
        .badge-success {
            background-color: #d4edda;
            color: #155724;
        }
        .badge-warning {
            background-color: #fff3cd;
            color: #856404;
        }
        .badge-info {
            background-color: #d1ecf1;
            color: #0c5460;
        }
        .summary {
            display: grid;
            grid-template-columns: repeat(auto-fit, minmax(200px, 1fr));
            gap: 15px;
            margin-bottom: 20px;
        }
        .summary-card {
            background: white;
            border-radius: 10px;
            padding: 20px;
            box-shadow: 0 2px 10px rgba(0,0,0,0.1);
        }
        .summary-card h3 {
            color: #666;
            font-size: 14px;
            margin-bottom: 10px;
        }
        .summary-card p {
            color: #333;
            font-size: 24px;
            font-weight: 600;
        }
    </style>
</head>
<body>
    <div class="container">
        <div class="header">
            <h1>🚀 TLS Tunnel - 客户端统计面板</h1>
            <p class="subtitle">实时监控客户端代理连接状态和流量统计 (每 5 秒自动刷新)</p>
        </div>
        
        <div class="summary">
            <div class="summary-card">
                <h3>总代理数</h3>
                <p>"#;

/// The page between the number of proxies and the active connections.
pub const CLIENT_PAGE_AFTER_COUNT: &'static str = r#"</p>
            </div>
            <div class="summary-card">
                <h3>活跃连接数</h3>
                <p>"#;

/// The page between the active connections and the total connections.
pub const CLIENT_PAGE_AFTER_ACTIVE: &'static str = r#"</p>
            </div>
            <div class="summary-card">
                <h3>总连接数</h3>
                <p>"#;

/// The page between the total connections and the rows.
pub const CLIENT_PAGE_AFTER_TOTAL: &'static str = r#"</p>
            </div>
        </div>

        <div class="stats-table">
            <table>
                <thead>
                    <tr>
                        <th>代理名称</th>
                        <th>代理类型</th>
                        <th>本地地址</th>
                        <th>目标地址</th>
                        <th>活跃连接</th>
                        <th>总连接数</th>
                        <th>发送流量</th>
                        <th>接收流量</th>
                        <th>运行时长</th>
                        <th>状态</th>
                    </tr>
                </thead>
                <tbody>
                    "#;

/// The page after the rows.
pub const CLIENT_PAGE_TAIL: &'static str = r#"
                </tbody>
            </table>
        </div>
    </div>
</body>
</html>"#;
/// One client proxy's row, read at Unix time `now`: name, type, local
/// address, target address, active, total, sent, received, uptime, status.
pub open spec fn client_row_html(t: ClientStatsView, now: u64) -> Seq<char> {
    STATS_ROW_OPEN@ + t.name + STATS_CELL_SEP@ + proxy_type_debug_name(t.proxy_type) + STATS_CELL_SEP@
        + (t.bind_addr + ":"@ + decimal(t.bind_port as nat)) + STATS_CELL_SEP@ + (t.target_addr + ":"@
        + decimal(t.target_port as nat)) + STATS_CELL_SEP@ + decimal(t.active_connections as nat)
        + STATS_CELL_SEP@ + decimal(t.total_connections as nat) + STATS_CELL_SEP@ + human_bytes(
        t.bytes_sent as nat,
    ) + STATS_CELL_SEP@ + human_bytes(t.bytes_received as nat) + STATS_CELL_SEP@ + human_duration(
        uptime(now, t.start_time) as nat,
    ) + STATS_CELL_SEP@ + t.status + STATS_ROW_CLOSE@
}

/// The rows of every client proxy, in order.
pub open spec fn client_rows_html(ts: Seq<ClientStatsView>, now: u64) -> Seq<char>
    decreases ts.len(),
{
    if ts.len() == 0 {
        Seq::empty()
    } else {
        client_rows_html(ts.drop_last(), now) + client_row_html(ts.last(), now)
    }
}

/// The active connections of all client proxies together.
pub open spec fn client_active_sum(ts: Seq<ClientStatsView>) -> nat
    decreases ts.len(),
{
    if ts.len() == 0 {
        0
    } else {
        client_active_sum(ts.drop_last()) + ts.last().active_connections as nat
    }
}

/// The connections ever made by all client proxies together.
pub open spec fn client_total_sum(ts: Seq<ClientStatsView>) -> nat
    decreases ts.len(),
{
    if ts.len() == 0 {
        0
    } else {
        client_total_sum(ts.drop_last()) + ts.last().total_connections as nat
    }
}

/// The client's whole page for its proxies' counters at Unix time `now`;
/// the sums show as a `usize` and a `u64` show them.
pub open spec fn client_stats_html(ts: Seq<ClientStatsView>, now: u64) -> Seq<char> {
    CLIENT_PAGE_HEAD@ + decimal(ts.len()) + CLIENT_PAGE_AFTER_COUNT@ + decimal(
        client_active_sum(ts) % (usize::MAX as nat + 1),
    ) + CLIENT_PAGE_AFTER_ACTIVE@ + decimal(wrapped(client_total_sum(ts)))
        + CLIENT_PAGE_AFTER_TOTAL@ + client_rows_html(ts, now) + CLIENT_PAGE_TAIL@
}

/// A sum of `n` client counters is below `n * 2^64`.
proof fn lemma_client_sums_bounded(ts: Seq<ClientStatsView>)
    ensures
        client_active_sum(ts) <= ts.len() * 0xffff_ffff_ffff_ffff,
        client_total_sum(ts) <= ts.len() * 0xffff_ffff_ffff_ffff,
    decreases ts.len(),
{
    if ts.len() > 0 {
        lemma_client_sums_bounded(ts.drop_last());
        let n = ts.len();
        assert((n - 1) * 0xffff_ffff_ffff_ffff + 0xffff_ffff_ffff_ffff == n * 0xffff_ffff_ffff_ffff)
            by (nonlinear_arith);
    }
}

/// One client proxy's row from its snapshot.
fn client_row_text(s: &ClientProxyStats, now: u64, Ghost(t): Ghost<ClientStatsView>) -> (r: String)
    requires
        snapshot_of(*s, t),
    ensures
        r@ == client_row_html(t, now),
{
    let mut local = s.bind_addr.clone();
    push_text(&mut local, ":");
    push_decimal(&mut local, s.bind_port as u128);
    let mut target = s.target_addr.clone();
    push_text(&mut target, ":");
    push_decimal(&mut target, s.target_port as u128);
    let up = if now >= s.start_time {
        now - s.start_time
    } else {
        0
    };
    let sent = format_bytes(s.bytes_sent);
    let received = format_bytes(s.bytes_received);
    let up_text = format_duration(up);
    let mut r = text(STATS_ROW_OPEN);
    push_text(&mut r, s.name.as_str());
    push_text(&mut r, STATS_CELL_SEP);
    push_text(&mut r, s.proxy_type.as_str());
    push_text(&mut r, STATS_CELL_SEP);
    push_text(&mut r, local.as_str());
    push_text(&mut r, STATS_CELL_SEP);
    push_text(&mut r, target.as_str());
    push_text(&mut r, STATS_CELL_SEP);
    push_decimal(&mut r, s.active_connections as u128);
    push_text(&mut r, STATS_CELL_SEP);
    push_decimal(&mut r, s.total_connections as u128);
    push_text(&mut r, STATS_CELL_SEP);
    push_text(&mut r, sent.as_str());
    push_text(&mut r, STATS_CELL_SEP);
    push_text(&mut r, received.as_str());
    push_text(&mut r, STATS_CELL_SEP);
    push_text(&mut r, up_text.as_str());
    push_text(&mut r, STATS_CELL_SEP);
    push_text(&mut r, s.status.as_str());
    push_text(&mut r, STATS_ROW_CLOSE);
    r
}

/// The client's HTML page of every tracked proxy's counters, read at Unix
/// time `now`.
pub fn generate_client_stats_html(manager: &ClientStatsManager, now: u64) -> (html: String)
    ensures
        html@ == client_stats_html(manager@, now),
{
    let stats = manager.get_all_stats();
    let ghost tv = manager@;
    let mut rows = String::new();
    let mut active: u128 = 0;
    let mut total: u128 = 0;
    let mut i: usize = 0;
    proof {
        assert(tv.subrange(0, 0) =~= Seq::<ClientStatsView>::empty());
    }
    while i < stats.len()
        invariant
            0 <= i <= stats@.len(),
            tv == manager@,
            stats@.len() == tv.len(),
            forall|j: int| 0 <= j < stats@.len() ==> snapshot_of(#[trigger] stats@[j], tv[j]),
            rows@ == client_rows_html(tv.subrange(0, i as int), now),
            active == client_active_sum(tv.subrange(0, i as int)),
            total == client_total_sum(tv.subrange(0, i as int)),
        decreases stats@.len() - i,
    {
        let ghost pre = tv.subrange(0, i as int);
        let ghost next = tv.subrange(0, i + 1);
        proof {
            assert(next.drop_last() =~= pre);
            assert(snapshot_of(stats@[i as int], tv[i as int]));
            lemma_client_sums_bounded(pre);
            assert(i * 0xffff_ffff_ffff_ffff <= 0xffff_ffff_ffff_ffff * 0xffff_ffff_ffff_ffff)
                by (nonlinear_arith)
                requires
                    i <= 0xffff_ffff_ffff_ffff,
            ;
        }
        let row = client_row_text(&stats[i], now, Ghost(tv[i as int]));
        push_text(&mut rows, row.as_str());
        active = active + stats[i].active_connections as u128;
        total = total + stats[i].total_connections as u128;
        i = i + 1;
    }
    proof {
        assert(tv.subrange(0, stats@.len() as int) =~= tv);
    }
    let mut html = String::new();
    push_text(&mut html, CLIENT_PAGE_HEAD);
    push_decimal(&mut html, stats.len() as u128);
    push_text(&mut html, CLIENT_PAGE_AFTER_COUNT);
    push_decimal(&mut html, active % (usize::MAX as u128 + 1));
    push_text(&mut html, CLIENT_PAGE_AFTER_ACTIVE);
    push_decimal(&mut html, total % 0x1_0000_0000_0000_0000u128);
    push_text(&mut html, CLIENT_PAGE_AFTER_TOTAL);
    push_text(&mut html, rows.as_str());
    push_text(&mut html, CLIENT_PAGE_TAIL);
    proof {
        assert(html@ =~= client_stats_html(manager@, now));
    }
    html
}

} // verus!

