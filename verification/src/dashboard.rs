//! The statistics pages: which page a request asks for, how answers are
//! framed, and the state and table of the terminal dashboard.
use vstd::prelude::*;

use crate::format::{format_bytes, format_duration_padded, human_bytes, padded_duration};
use crate::http::{lossy_text, split_lines, split_words, str_starts_with, text_lines, utf8_lossy, words, starts_with};
use crate::stats::{ProxyStats, ProxyStatsView};
use crate::text::{byte_len, decimal, push_decimal, push_text, str_byte_len, str_eq, text};

verus! {

/// The pages of a statistics server.
#[derive(Debug, Clone, Copy, PartialEq, Eq, Structural)]
pub enum StatsPage {
    /// The counters as JSON.
    Json,
    /// The HTML overview.
    Html,
    /// Anything else.
    NotFound,
}

/// The path that a request asks for: the second word of its first line,
/// or `/`.
pub open spec fn request_path(request: Seq<u8>) -> Seq<char> {
    let ls = text_lines(utf8_lossy(request));
    if ls.len() > 0 && words(ls[0]).len() > 1 {
        words(ls[0])[1]
    } else {
        "/"@
    }
}

/// The page for a path: `/stats` (or `/stats/`) is the JSON, `/` or a
/// query on it is the HTML page, anything else is not found.
pub open spec fn page_for(path: Seq<char>) -> StatsPage {
    if path == "/stats"@ || path == "/stats/"@ {
        StatsPage::Json
    } else if path == "/"@ || starts_with(path, "/?"@) {
        StatsPage::Html
    } else {
        StatsPage::NotFound
    }
}

/// The page that the first bytes of a request ask for.
pub fn stats_page(request: &[u8]) -> (p: StatsPage)
    ensures
        p == page_for(request_path(request@)),
{
    let text_req = lossy_text(request);
    let lines = split_lines(text_req.as_str());
    let ghost ls = lines@.map_values(|l: String| l@);
    let path = if lines.len() > 0 {
        assert(ls[0] == lines@[0]@);
        let ws = split_words(lines[0].as_str());
        let ghost wv = ws@.map_values(|w: String| w@);
        if ws.len() > 1 {
            assert(wv[1] == ws@[1]@);
            ws[1].clone()
        } else {
            text("/")
        }
    } else {
        text("/")
    };
    proof {
        reveal_strlit("/stats");
        reveal_strlit("/stats/");
        reveal_strlit("/");
        reveal_strlit("/?");
    }
    if str_eq(path.as_str(), "/stats") || str_eq(path.as_str(), "/stats/") {
        StatsPage::Json
    } else if str_eq(path.as_str(), "/") || str_starts_with(path.as_str(), "/?") {
        StatsPage::Html
    } else {
        StatsPage::NotFound
    }
}

/// An HTTP answer with a body; the length is the body's byte length.
pub open spec fn http_answer(status: Seq<char>, content_type: Seq<char>, body: Seq<char>) -> Seq<char> {
    "HTTP/1.1 "@ + status + "\r\nContent-Type: "@ + content_type + "\r\nContent-Length: "@
        + decimal(byte_len(body) as nat) + "\r\n\r\n"@ + body
}

/// Frames a body as an HTTP answer.
pub fn http_answer_text(status: &str, content_type: &str, body: &str) -> (s: String)
    ensures
        s@ == http_answer(status@, content_type@, body@),
{
    let mut s = text("HTTP/1.1 ");
    push_text(&mut s, status);
    push_text(&mut s, "\r\nContent-Type: ");
    push_text(&mut s, content_type);
    push_text(&mut s, "\r\nContent-Length: ");
    push_decimal(&mut s, str_byte_len(body) as u128);
    push_text(&mut s, "\r\n\r\n");
    push_text(&mut s, body);
    s
}

/// The answer for the JSON page.
pub fn json_answer(json: &str) -> (s: String)
    ensures
        s@ == http_answer("200 OK"@, "application/json"@, json@),
{
    proof {
        reveal_strlit("200 OK");
        reveal_strlit("application/json");
    }
    http_answer_text("200 OK", "application/json", json)
}

/// The answer for the HTML page.
pub fn html_answer(html: &str) -> (s: String)
    ensures
        s@ == http_answer("200 OK"@, "text/html; charset=utf-8"@, html@),
{
    proof {
        reveal_strlit("200 OK");
        reveal_strlit("text/html; charset=utf-8");
    }
    http_answer_text("200 OK", "text/html; charset=utf-8", html)
}

/// The answer for any other path.
pub fn not_found_answer() -> (s: String)
    ensures
        s@ == http_answer("404 Not Found"@, "text/plain"@, "404 Not Found"@),
{
    proof {
        reveal_strlit("404 Not Found");
        reveal_strlit("text/plain");
    }
    http_answer_text("404 Not Found", "text/plain", "404 Not Found")
}

/// How long a proxy registered at `start` has run at `now`, in seconds.
pub open spec fn uptime(now: u64, start: u64) -> u64 {
    if now >= start {
        (now - start) as u64
    } else {
        0
    }
}

/// The cells of a proxy's row in the terminal dashboard: name,
/// `addr:port`, local port, active, total, sent, received, uptime.
pub open spec fn row_cells(s: ProxyStatsView, now: u64) -> Seq<Seq<char>> {
    seq![
        s.name,
        s.publish_addr + ":"@ + decimal(s.publish_port as nat),
        decimal(s.local_port as nat),
        decimal(s.active_connections as nat),
        decimal(s.total_connections as nat),
        human_bytes(s.bytes_sent as nat),
        human_bytes(s.bytes_received as nat),
        padded_duration(uptime(now, s.start_time) as nat),
    ]
}

/// The cells of a proxy's row in the dashboard's table.
pub fn stats_row(s: &ProxyStats, now: u64) -> (v: Vec<String>)
    ensures
        v@.map_values(|c: String| c@) == row_cells(s@, now),
{
    let mut v: Vec<String> = Vec::new();
    v.push(s.name.clone());
    let mut publish = s.publish_addr.clone();
    push_text(&mut publish, ":");
    push_decimal(&mut publish, s.publish_port as u128);
    v.push(publish);
    let mut local = String::new();
    push_decimal(&mut local, s.local_port as u128);
    v.push(local);
    let mut active = String::new();
    push_decimal(&mut active, s.active_connections as u128);
    v.push(active);
    let mut total = String::new();
    push_decimal(&mut total, s.total_connections as u128);
    v.push(total);
    v.push(format_bytes(s.bytes_sent));
    v.push(format_bytes(s.bytes_received));
    let up = if now >= s.start_time {
        now - s.start_time
    } else {
        0
    };
    v.push(format_duration_padded(up));
    proof {
        assert(v@.map_values(|c: String| c@) =~= row_cells(s@, now));
    }
    v
}

/// The state of the terminal dashboard.
#[derive(Debug)]
pub struct Dashboard {
    url: String,
    interval: std::time::Duration,
    stats: Vec<ProxyStats>,
    last_update: Option<u64>,
    error_message: Option<String>,
}

impl Dashboard {
    /// The base URL of the statistics server.
    pub closed spec fn url_view(&self) -> Seq<char> {
        self.url@
    }

    /// The refresh interval.
    pub closed spec fn interval_view(&self) -> std::time::Duration {
        self.interval
    }

    /// The last counters read.
    pub closed spec fn stats_view(&self) -> Seq<ProxyStatsView> {
        self.stats@.map_values(|s: ProxyStats| s@)
    }

    /// Unix time, in seconds, of the last successful read.
    pub closed spec fn last_update_view(&self) -> Option<u64> {
        self.last_update
    }

    /// The message of the last failed read, if the last read failed.
    pub closed spec fn error_view(&self) -> Option<Seq<char>> {
        crate::validator::opt_text(self.error_message)
    }

    /// A dashboard for the server at `url`, refreshed every `interval`
    /// seconds, with nothing read yet.
    pub fn new(url: String, interval: u64) -> (d: Self)
        ensures
            d.url_view() == url@,
            d.interval_view() == crate::connection_pool::secs_duration(interval),
            d.stats_view() == Seq::<ProxyStatsView>::empty(),
            d.last_update_view() is None,
            d.error_view() is None,
    {
        let d = Dashboard {
            url,
            interval: crate::connection_pool::duration_from_secs(interval),
            stats: Vec::new(),
            last_update: None,
            error_message: None,
        };
        assert(d.stats_view() =~= Seq::<ProxyStatsView>::empty());
        d
    }

    /// The refresh interval.
    pub fn interval(&self) -> (d: std::time::Duration)
        ensures
            d == self.interval_view(),
    {
        self.interval
    }

    /// The address that the counters are read from.
    pub fn stats_url(&self) -> (s: String)
        ensures
            s@ == self.url_view() + "/api/stats"@,
    {
        let mut s = self.url.clone();
        push_text(&mut s, "/api/stats");
        s
    }

    /// Records counters read at `now`; a former error is forgotten.
    pub fn record_stats(&mut self, stats: Vec<ProxyStats>, now: u64)
        ensures
            final(self).stats_view() == stats@.map_values(|s: ProxyStats| s@),
            final(self).last_update_view() == Some(now),
            final(self).error_view() is None,
            final(self).url_view() == old(self).url_view(),
            final(self).interval_view() == old(self).interval_view(),
    {
        self.stats = stats;
        self.last_update = Some(now);
        self.error_message = None;
    }

    /// Records a failed read; the last counters stay.
    pub fn record_error(&mut self, message: String)
        ensures
            final(self).error_view() == Some(message@),
            final(self).stats_view() == old(self).stats_view(),
            final(self).last_update_view() == old(self).last_update_view(),
            final(self).url_view() == old(self).url_view(),
            final(self).interval_view() == old(self).interval_view(),
    {
        self.error_message = Some(message);
    }

    /// The title line, given the Unix time `now`.
    pub fn header_title(&self, now: u64) -> (s: String)
        ensures
            s@ == match self.last_update_view() {
                Some(t) => "TLS Tunnel Statistics - "@ + self.url_view() + " - Last update: "@
                    + decimal(uptime(now, t) as nat) + "s ago"@,
                None => "TLS Tunnel Statistics - "@ + self.url_view() + " - Waiting for data..."@,
            },
    {
        let mut s = text("TLS Tunnel Statistics - ");
        push_text(&mut s, self.url.as_str());
        match self.last_update {
            Some(t) => {
                push_text(&mut s, " - Last update: ");
                let e = if now >= t {
                    now - t
                } else {
                    0
                };
                push_decimal(&mut s, e as u128);
                push_text(&mut s, "s ago");
            },
            None => {
                push_text(&mut s, " - Waiting for data...");
            },
        }
        s
    }

    /// The rows of the table, in the order the counters came.
    pub fn table_rows(&self, now: u64) -> (v: Vec<Vec<String>>)
        ensures
            v@.len() == self.stats_view().len(),
            forall|i: int|
                0 <= i < v@.len() ==> (#[trigger] v@[i])@.map_values(|c: String| c@) == row_cells(
                    self.stats_view()[i],
                    now,
                ),
    {
        let mut v: Vec<Vec<String>> = Vec::new();
        let mut i: usize = 0;
        while i < self.stats.len()
            invariant
                0 <= i <= self.stats@.len(),
                v@.len() == i,
                forall|j: int|
                    0 <= j < i ==> (#[trigger] v@[j])@.map_values(|c: String| c@) == row_cells(
                        self.stats@[j]@,
                        now,
                    ),
            decreases self.stats@.len() - i,
        {
            v.push(stats_row(&self.stats[i], now));
            i = i + 1;
        }
        v
    }

    /// The message shown in place of the table after a failed read.
    pub fn error_text(&self) -> (r: Option<String>)
        ensures
            match self.error_view() {
                Some(m) => r matches Some(s) && s@ == "Error: "@ + m,
                None => r is None,
            },
    {
        match &self.error_message {
            Some(m) => {
                let mut s = text("Error: ");
                push_text(&mut s, m.as_str());
                Some(s)
            },
            None => None,
        }
    }
}

} // verus!
