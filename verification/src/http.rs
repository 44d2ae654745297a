//! The HTTP side of a forwarder: finding the end of a request head,
//! reading its request line and headers, and rewriting a proxied request
//! for its origin server.
use vstd::prelude::*;

use crate::text::{
    decimal, is_space, char_is_space, lowercase, push_char, push_decimal, push_text, str_eq, text,
    to_lowercase,
};
use vstd::utf8::{decode_utf8, valid_utf8};

verus! {

/// The most bytes read while looking for the end of a request head.
pub const HTTP_PARSE_BUFFER_SIZE: usize = 16384;

/// Whether the four bytes at `i` are `\r\n\r\n`.
pub open spec fn blank_line_at(b: Seq<u8>, i: int) -> bool {
    b[i] == 13 && b[i + 1] == 10 && b[i + 2] == 13 && b[i + 3] == 10
}

/// The end of the request head within the first `pos` bytes: just past
/// the first `\r\n\r\n`, if any.
pub open spec fn head_end(b: Seq<u8>, pos: int) -> Option<int> {
    if exists|i: int| 0 <= i && i + 4 <= pos && blank_line_at(b, i) {
        Some(
            (choose|i: int|
                0 <= i && i + 4 <= pos && blank_line_at(b, i) && forall|j: int|
                    0 <= j < i ==> !blank_line_at(b, j)) + 4,
        )
    } else {
        None
    }
}

/// Where reading a request head stands.
#[derive(Debug, Clone, Copy, PartialEq, Eq, Structural)]
pub enum HeadStatus {
    /// The head ends before this byte.
    Complete(usize),
    /// More bytes are needed.
    NeedMore,
    /// The buffer is full and holds no complete head.
    TooLong,
}

/// Looks at the first `pos` bytes read so far: the head is complete, more
/// bytes are needed, or the buffer of 16384 bytes is full.
pub fn head_status(b: &[u8], pos: usize) -> (r: HeadStatus)
    requires
        pos <= b@.len(),
    ensures
        match head_end(b@, pos as int) {
            Some(e) => r == HeadStatus::Complete(e as usize),
            None => if pos >= HTTP_PARSE_BUFFER_SIZE {
                r == HeadStatus::TooLong
            } else {
                r == HeadStatus::NeedMore
            },
        },
{
    if pos >= 4 {
        let mut i: usize = 0;
        while i <= pos - 4
            invariant
                pos <= b@.len(),
                pos >= 4,
                0 <= i <= pos - 3,
                forall|j: int| 0 <= j < i ==> !blank_line_at(b@, j),
            decreases pos - 3 - i,
        {
            if b[i] == 13 && b[i + 1] == 10 && b[i + 2] == 13 && b[i + 3] == 10 {
                proof {
                    assert(blank_line_at(b@, i as int));
                    let w = choose|w: int|
                        0 <= w && w + 4 <= pos && blank_line_at(b@, w) && forall|j: int|
                            0 <= j < w ==> !blank_line_at(b@, j);
                    if w < i {
                    } else if w > i {
                        assert(!blank_line_at(b@, i as int));
                    }
                    assert(w == i);
                }
                return HeadStatus::Complete(i + 4);
            }
            i = i + 1;
        }
    }
    if pos >= HTTP_PARSE_BUFFER_SIZE {
        HeadStatus::TooLong
    } else {
        HeadStatus::NeedMore
    }
}

/// What `String::from_utf8_lossy` makes of some bytes: valid UTF-8 decoded,
/// each invalid sequence replaced by U+FFFD.
pub uninterp spec fn utf8_lossy(b: Seq<u8>) -> Seq<char>;

/// The text of some bytes, by `String::from_utf8_lossy`.
///
/// Trusted: the result is named `utf8_lossy` of the bytes; std documents
/// that valid UTF-8 comes back as the characters it encodes.
#[verifier::external_body]
pub(crate) fn lossy_text(b: &[u8]) -> (s: String)
    ensures
        s@ == utf8_lossy(b@),
        valid_utf8(b@) ==> s@ == decode_utf8(b@),
{
    String::from_utf8_lossy(b).into_owned()
}

/// A line without the carriage return that ended it, if any.
pub open spec fn strip_cr(l: Seq<char>) -> Seq<char> {
    if l.len() > 0 && l.last() == '\r' {
        l.drop_last()
    } else {
        l
    }
}

/// The finished lines and the line being read, after reading `s`.
pub open spec fn scan_lines(s: Seq<char>) -> (Seq<Seq<char>>, Seq<char>)
    decreases s.len(),
{
    if s.len() == 0 {
        (Seq::empty(), Seq::empty())
    } else {
        let (done, cur) = scan_lines(s.drop_last());
        if s.last() == '\n' {
            (done.push(strip_cr(cur)), Seq::empty())
        } else {
            (done, cur.push(s.last()))
        }
    }
}

/// The lines of a text as `str::lines` gives them: split at `\n`, a `\r`
/// before it dropped, and no empty line after a final `\n`.
pub open spec fn text_lines(s: Seq<char>) -> Seq<Seq<char>> {
    let (done, cur) = scan_lines(s);
    if cur.len() > 0 {
        done.push(cur)
    } else {
        done
    }
}

/// The words found and the word being read, after reading `s`.
pub open spec fn scan_words(s: Seq<char>) -> (Seq<Seq<char>>, Seq<char>)
    decreases s.len(),
{
    if s.len() == 0 {
        (Seq::empty(), Seq::empty())
    } else {
        let (done, cur) = scan_words(s.drop_last());
        if is_space(s.last()) {
            if cur.len() > 0 {
                (done.push(cur), Seq::empty())
            } else {
                (done, cur)
            }
        } else {
            (done, cur.push(s.last()))
        }
    }
}

/// The words of a text as `str::split_whitespace` gives them.
pub open spec fn words(s: Seq<char>) -> Seq<Seq<char>> {
    let (done, cur) = scan_words(s);
    if cur.len() > 0 {
        done.push(cur)
    } else {
        done
    }
}

/// A text without leading white space.
pub open spec fn trim_start(s: Seq<char>) -> Seq<char>
    decreases s.len(),
{
    if s.len() > 0 && is_space(s[0]) {
        trim_start(s.subrange(1, s.len() as int))
    } else {
        s
    }
}

/// A text without trailing white space.
pub open spec fn trim_end(s: Seq<char>) -> Seq<char>
    decreases s.len(),
{
    if s.len() > 0 && is_space(s.last()) {
        trim_end(s.drop_last())
    } else {
        s
    }
}

/// A text without leading or trailing white space, as `str::trim` gives.
pub open spec fn trim(s: Seq<char>) -> Seq<char> {
    trim_end(trim_start(s))
}

/// The position of the first `:` in a text, if any.
pub open spec fn first_colon(s: Seq<char>) -> Option<int> {
    if exists|i: int| 0 <= i < s.len() && s[i] == ':' {
        Some(choose|i: int| 0 <= i < s.len() && s[i] == ':' && forall|j: int| 0 <= j < i ==> s[j] != ':')
    } else {
        None
    }
}

/// The headers after reading lines `ls`: each line with a colon gives a
/// lowercased, trimmed name and a trimmed value; a name seen before keeps
/// its place and takes the new value.
pub open spec fn headers_of(ls: Seq<Seq<char>>) -> Seq<(Seq<char>, Seq<char>)>
    decreases ls.len(),
{
    if ls.len() == 0 {
        Seq::empty()
    } else {
        let hs = headers_of(ls.drop_last());
        let l = ls.last();
        match first_colon(l) {
            Some(c) => {
                let key = lowercase(trim(l.subrange(0, c)));
                let value = trim(l.subrange(c + 1, l.len() as int));
                match header_index(hs, key) {
                    Some(i) => hs.update(i, (key, value)),
                    None => hs.push((key, value)),
                }
            },
            None => hs,
        }
    }
}

/// The position of the header named `key`, if any.
pub open spec fn header_index(hs: Seq<(Seq<char>, Seq<char>)>, key: Seq<char>) -> Option<int> {
    if exists|i: int| 0 <= i < hs.len() && hs[i].0 == key {
        Some(
            choose|i: int|
                0 <= i < hs.len() && hs[i].0 == key && forall|j: int| 0 <= j < i ==> hs[j].0 != key,
        )
    } else {
        None
    }
}

/// A parsed request head.
#[derive(Debug)]
pub struct HttpRequest {
    pub method: String,
    pub target: String,
    /// Lowercased names and values, in the order the names first appear.
    pub headers: Vec<(String, String)>,
    pub raw_request: Vec<u8>,
}

/// What an [`HttpRequest`] holds, as plain values.
pub struct HttpRequestView {
    pub method: Seq<char>,
    pub target: Seq<char>,
    pub headers: Seq<(Seq<char>, Seq<char>)>,
    pub raw_request: Seq<u8>,
}

/// The views of some header pairs.
pub open spec fn header_views(hs: Seq<(String, String)>) -> Seq<(Seq<char>, Seq<char>)> {
    hs.map_values(|h: (String, String)| (h.0@, h.1@))
}

impl View for HttpRequest {
    type V = HttpRequestView;

    open spec fn view(&self) -> HttpRequestView {
        HttpRequestView {
            method: self.method@,
            target: self.target@,
            headers: header_views(self.headers@),
            raw_request: self.raw_request@,
        }
    }
}

/// Why a request head is refused.
#[derive(Debug, Clone, Copy, PartialEq, Eq, Structural)]
pub enum HttpParseError {
    /// No line at all.
    EmptyRequest,
    /// The request line has fewer than two words.
    InvalidRequestLine,
}

impl HttpParseError {
    /// The error's message.
    pub fn message(&self) -> (s: String)
        ensures
            *self == HttpParseError::EmptyRequest ==> s@ == "Empty HTTP request"@,
            *self == HttpParseError::InvalidRequestLine ==> s@ == "Invalid HTTP request line"@,
    {
        match self {
            HttpParseError::EmptyRequest => text("Empty HTTP request"),
            HttpParseError::InvalidRequestLine => text("Invalid HTTP request line"),
        }
    }
}

/// What a request head (its bytes, up to and including the blank line)
/// reads as.
pub open spec fn parse_head_spec(head: Seq<u8>) -> Result<HttpRequestView, HttpParseError> {
    let ls = text_lines(utf8_lossy(head));
    if ls.len() == 0 {
        Err(HttpParseError::EmptyRequest)
    } else {
        let ws = words(ls[0]);
        if ws.len() < 2 {
            Err(HttpParseError::InvalidRequestLine)
        } else {
            Ok(
                HttpRequestView {
                    method: ws[0],
                    target: ws[1],
                    headers: headers_of(ls.subrange(1, ls.len() as int)),
                    raw_request: head,
                },
            )
        }
    }
}

/// The lines of a text.
pub fn split_lines(s: &str) -> (v: Vec<String>)
    ensures
        v@.map_values(|l: String| l@) == text_lines(s@),
{
    let n = s.unicode_len();
    let mut done: Vec<String> = Vec::new();
    let mut cur = String::new();
    let mut i: usize = 0;
    while i < n
        invariant
            0 <= i <= n,
            n == s@.len(),
            (done@.map_values(|l: String| l@), cur@) == scan_lines(s@.subrange(0, i as int)),
        decreases n - i,
    {
        let c = s.get_char(i);
        proof {
            assert(s@.subrange(0, i + 1).drop_last() =~= s@.subrange(0, i as int));
        }
        if c == '\n' {
            let line = strip_trailing_cr(&cur);
            done.push(line);
            cur = String::new();
            proof {
                assert(cur@ =~= Seq::<char>::empty());
            }
        } else {
            push_char(&mut cur, c);
        }
        proof {
            let (d, k) = scan_lines(s@.subrange(0, i + 1));
            assert(done@.map_values(|l: String| l@) =~= d);
            assert(cur@ =~= k);
        }
        i = i + 1;
    }
    proof {
        assert(s@.subrange(0, n as int) =~= s@);
    }
    if cur.unicode_len() > 0 {
        done.push(cur);
    }
    proof {
        assert(done@.map_values(|l: String| l@) =~= text_lines(s@));
    }
    done
}

/// A copy of a line without the carriage return that ends it, if any.
fn strip_trailing_cr(l: &String) -> (r: String)
    ensures
        r@ == strip_cr(l@),
{
    let n = l.unicode_len();
    if n > 0 && l.get_char(n - 1) == '\r' {
        text(l.as_str().substring_char(0, n - 1))
    } else {
        l.clone()
    }
}

/// The words of a text.
pub fn split_words(s: &str) -> (v: Vec<String>)
    ensures
        v@.map_values(|w: String| w@) == words(s@),
{
    let n = s.unicode_len();
    let mut done: Vec<String> = Vec::new();
    let mut cur = String::new();
    let mut i: usize = 0;
    while i < n
        invariant
            0 <= i <= n,
            n == s@.len(),
            (done@.map_values(|w: String| w@), cur@) == scan_words(s@.subrange(0, i as int)),
        decreases n - i,
    {
        let c = s.get_char(i);
        proof {
            assert(s@.subrange(0, i + 1).drop_last() =~= s@.subrange(0, i as int));
        }
        if char_is_space(c) {
            if cur.unicode_len() > 0 {
                done.push(cur);
                cur = String::new();
                proof {
                    assert(cur@ =~= Seq::<char>::empty());
                }
            }
        } else {
            push_char(&mut cur, c);
        }
        proof {
            let (d, k) = scan_words(s@.subrange(0, i + 1));
            assert(done@.map_values(|w: String| w@) =~= d);
            assert(cur@ =~= k);
        }
        i = i + 1;
    }
    proof {
        assert(s@.subrange(0, n as int) =~= s@);
    }
    if cur.unicode_len() > 0 {
        done.push(cur);
    }
    proof {
        assert(done@.map_values(|w: String| w@) =~= words(s@));
    }
    done
}

proof fn lemma_trim_start_suffix(s: Seq<char>, k: int)
    requires
        0 <= k <= s.len(),
        forall|j: int| 0 <= j < k ==> is_space(s[j]),
    ensures
        trim_start(s) == trim_start(s.subrange(k, s.len() as int)),
    decreases k,
{
    if k > 0 {
        assert(is_space(s[0]));
        let t = s.subrange(1, s.len() as int);
        assert forall|j: int| 0 <= j < k - 1 implies is_space(t[j]) by {
            assert(t[j] == s[j + 1]);
        }
        lemma_trim_start_suffix(t, k - 1);
        assert(t.subrange(k - 1, t.len() as int) =~= s.subrange(k, s.len() as int));
    } else {
        assert(s.subrange(0, s.len() as int) =~= s);
    }
}

proof fn lemma_trim_end_prefix(s: Seq<char>, k: int)
    requires
        0 <= k <= s.len(),
        forall|j: int| k <= j < s.len() ==> is_space(s[j]),
    ensures
        trim_end(s) == trim_end(s.subrange(0, k)),
    decreases s.len() - k,
{
    if k < s.len() {
        assert(is_space(s.last()));
        let t = s.drop_last();
        assert forall|j: int| k <= j < t.len() implies is_space(t[j]) by {
            assert(t[j] == s[j]);
        }
        lemma_trim_end_prefix(t, k);
        assert(t.subrange(0, k) =~= s.subrange(0, k));
    } else {
        assert(s.subrange(0, k) =~= s);
    }
}

/// A text without leading or trailing white space.
pub fn trim_text(s: &str) -> (r: String)
    ensures
        r@ == trim(s@),
{
    let n = s.unicode_len();
    let mut a: usize = 0;
    while a < n && char_is_space(s.get_char(a))
        invariant
            0 <= a <= n,
            n == s@.len(),
            forall|j: int| 0 <= j < a ==> is_space(s@[j]),
        decreases n - a,
    {
        a = a + 1;
    }
    proof {
        lemma_trim_start_suffix(s@, a as int);
        let t = s@.subrange(a as int, n as int);
        if t.len() > 0 {
            assert(t[0] == s@[a as int]);
        }
        assert(trim_start(t) == t);
    }
    let mut b: usize = n;
    while b > a && char_is_space(s.get_char(b - 1))
        invariant
            a <= b <= n,
            n == s@.len(),
            forall|j: int| b <= j < n ==> is_space(s@[j]),
        decreases b - a,
    {
        b = b - 1;
    }
    proof {
        let t = s@.subrange(a as int, n as int);
        lemma_trim_end_prefix(t, (b - a) as int);
        assert(t.subrange(0, (b - a) as int) =~= s@.subrange(a as int, b as int));
        let u = s@.subrange(a as int, b as int);
        if u.len() > 0 {
            assert(u.last() == s@[b - 1]);
        }
        assert(trim_end(u) == u);
    }
    text(s.substring_char(a, b))
}

/// The position of the first `:`, if any.
fn find_colon(s: &str) -> (r: Option<usize>)
    ensures
        match r {
            Some(i) => first_colon(s@) == Some(i as int),
            None => first_colon(s@) is None,
        },
        r matches Some(i) ==> i < s@.len(),
{
    let n = s.unicode_len();
    let mut i: usize = 0;
    while i < n
        invariant
            0 <= i <= n,
            n == s@.len(),
            forall|j: int| 0 <= j < i ==> s@[j] != ':',
        decreases n - i,
    {
        if s.get_char(i) == ':' {
            proof {
                let w = choose|w: int|
                    0 <= w < s@.len() && s@[w] == ':' && forall|j: int| 0 <= j < w ==> s@[j] != ':';
                assert(w == i);
            }
            return Some(i);
        }
        i = i + 1;
    }
    None
}

/// The position of the header named `key`, if any.
fn find_header(hs: &Vec<(String, String)>, key: &String) -> (r: Option<usize>)
    ensures
        match r {
            Some(k) => header_index(header_views(hs@), key@) == Some(k as int),
            None => header_index(header_views(hs@), key@) is None,
        },
        r matches Some(k) ==> k < hs@.len(),
{
    let ghost hv = header_views(hs@);
    let mut k: usize = 0;
    while k < hs.len()
        invariant
            0 <= k <= hs@.len(),
            hv == header_views(hs@),
            forall|j: int| 0 <= j < k ==> (#[trigger] hv[j]).0 != key@,
        decreases hs@.len() - k,
    {
        if hs[k].0 == *key {
            proof {
                assert(hv[k as int].0 == key@);
                let w = choose|w: int|
                    0 <= w < hv.len() && hv[w].0 == key@ && forall|j: int| 0 <= j < w ==> hv[j].0 != key@;
                if w < k {
                    assert(hv[w].0 != key@);
                }
                assert(w == k);
            }
            return Some(k);
        }
        k = k + 1;
    }
    None
}

/// Reads the headers from the lines after the request line.
fn parse_headers(lines: &[String], from: usize) -> (hs: Vec<(String, String)>)
    requires
        from <= lines@.len(),
    ensures
        header_views(hs@) == headers_of(
            lines@.map_values(|l: String| l@).subrange(from as int, lines@.len() as int),
        ),
{
    let ghost ls = lines@.map_values(|l: String| l@);
    let mut hs: Vec<(String, String)> = Vec::new();
    let mut i: usize = from;
    proof {
        assert(ls.subrange(from as int, from as int) =~= Seq::<Seq<char>>::empty());
        assert(header_views(hs@) =~= Seq::<(Seq<char>, Seq<char>)>::empty());
    }
    while i < lines.len()
        invariant
            from <= i <= lines@.len(),
            ls == lines@.map_values(|l: String| l@),
            header_views(hs@) == headers_of(ls.subrange(from as int, i as int)),
        decreases lines@.len() - i,
    {
        let l = &lines[i];
        let ghost sub = ls.subrange(from as int, i + 1);
        proof {
            assert(sub.drop_last() =~= ls.subrange(from as int, i as int));
            assert(sub.last() == l@);
        }
        match find_colon(l.as_str()) {
            Some(c) => {
                let n = l.unicode_len();
                let key = to_lowercase(trim_text(l.as_str().substring_char(0, c)).as_str());
                let value = trim_text(l.as_str().substring_char(c + 1, n));
                let ghost hv = header_views(hs@);
                match find_header(&hs, &key) {
                    Some(k) => {
                        hs.set(k, (key, value));
                    },
                    None => {
                        hs.push((key, value));
                    },
                }
                proof {
                    assert(header_views(hs@) =~= headers_of(sub));
                }
            },
            None => {},
        }
        i = i + 1;
    }
    hs
}

/// Reads a request head: the request line's first two words (method and
/// target) and the headers of the following lines.
pub fn parse_http_head(head: &[u8]) -> (r: Result<HttpRequest, HttpParseError>)
    ensures
        match (r, parse_head_spec(head@)) {
            (Ok(req), Ok(v)) => req@ == v,
            (Err(e), Err(f)) => e == f,
            _ => false,
        },
{
    let request = lossy_text(head);
    let lines = split_lines(request.as_str());
    let ghost ls = lines@.map_values(|l: String| l@);
    if lines.len() == 0 {
        return Err(HttpParseError::EmptyRequest);
    }
    assert(ls[0] == lines@[0]@);
    let parts = split_words(lines[0].as_str());
    if parts.len() < 2 {
        return Err(HttpParseError::InvalidRequestLine);
    }
    let ghost ps = parts@.map_values(|w: String| w@);
    assert(ps[0] == parts@[0]@);
    assert(ps[1] == parts@[1]@);
    let method = parts[0].clone();
    let target = parts[1].clone();
    let headers = parse_headers(lines.as_slice(), 1);
    let mut raw: Vec<u8> = Vec::new();
    crate::frames::push_bytes(&mut raw, head);
    assert(raw@ =~= head@);
    Ok(HttpRequest { method, target, headers, raw_request: raw })
}


/// Whether `s` starts with `p`.
pub open spec fn starts_with(s: Seq<char>, p: Seq<char>) -> bool {
    s.len() >= p.len() && s.subrange(0, p.len() as int) == p
}

/// Whether a text starts with a prefix.
pub fn str_starts_with(s: &str, p: &str) -> (b: bool)
    ensures
        b == starts_with(s@, p@),
{
    let n = s.unicode_len();
    let m = p.unicode_len();
    if n < m {
        return false;
    }
    let mut i: usize = 0;
    while i < m
        invariant
            0 <= i <= m,
            m <= n,
            n == s@.len(),
            m == p@.len(),
            forall|j: int| 0 <= j < i ==> s@[j] == p@[j],
        decreases m - i,
    {
        if s.get_char(i) != p.get_char(i) {
            proof {
                assert(s@.subrange(0, m as int)[i as int] != p@[i as int]);
            }
            return false;
        }
        i = i + 1;
    }
    assert(s@.subrange(0, m as int) =~= p@);
    true
}

/// The parts of an absolute URL that a forwarder uses.
#[derive(Debug)]
pub struct UrlParts {
    pub scheme: String,
    pub host: Option<String>,
    pub port: Option<u16>,
    pub path: String,
    pub query: Option<String>,
}

/// What a [`UrlParts`] holds, as plain values.
pub struct UrlPartsView {
    pub scheme: Seq<char>,
    pub host: Option<Seq<char>>,
    pub port: Option<u16>,
    pub path: Seq<char>,
    pub query: Option<Seq<char>>,
}

/// The views of optional texts.
pub open spec fn opt_view(o: Option<String>) -> Option<Seq<char>> {
    match o {
        Some(s) => Some(s@),
        None => None,
    }
}

impl View for UrlParts {
    type V = UrlPartsView;

    open spec fn view(&self) -> UrlPartsView {
        UrlPartsView {
            scheme: self.scheme@,
            host: opt_view(self.host),
            port: self.port,
            path: self.path@,
            query: opt_view(self.query),
        }
    }
}

/// What `url::Url::parse` makes of a text: the parts of the URL (its
/// `scheme`, `host_str`, `port`, `path` and `query`), or the text of the
/// parse error.
pub uninterp spec fn url_parse(s: Seq<char>) -> Result<UrlPartsView, Seq<char>>;

/// The view of a parse result.
pub open spec fn url_result_view(r: Result<UrlParts, String>) -> Result<UrlPartsView, Seq<char>> {
    match r {
        Ok(u) => Ok(u@),
        Err(e) => Err(e@),
    }
}

/// Parses an absolute URL with `url::Url::parse`.
///
/// Trusted: the result is named `url_parse` of the text, which is all that
/// is claimed of the url crate here.
#[verifier::external_body]
fn parse_url(s: &str) -> (r: Result<UrlParts, String>)
    ensures
        url_result_view(r) == url_parse(s@),
{
    match url::Url::parse(s) {
        Ok(u) => Ok(UrlParts {
            scheme: u.scheme().to_string(),
            host: u.host_str().map(|h| h.to_string()),
            port: u.port(),
            path: u.path().to_string(),
            query: u.query().map(|q| q.to_string()),
        }),
        Err(e) => Err(e.to_string()),
    }
}

/// Why a plain HTTP request cannot be forwarded.
#[derive(Debug, Clone, PartialEq, Eq)]
pub enum DirectRequestError {
    /// The absolute URL does not parse; the parser's message.
    InvalidUrl(String),
    /// The absolute URL has no host.
    NoHost,
    /// Neither an absolute URL nor a `host` header.
    NoTarget,
}

/// What a [`DirectRequestError`] holds, as plain values.
pub enum DirectRequestErrorView {
    InvalidUrl(Seq<char>),
    NoHost,
    NoTarget,
}

impl View for DirectRequestError {
    type V = DirectRequestErrorView;

    open spec fn view(&self) -> DirectRequestErrorView {
        match self {
            DirectRequestError::InvalidUrl(m) => DirectRequestErrorView::InvalidUrl(m@),
            DirectRequestError::NoHost => DirectRequestErrorView::NoHost,
            DirectRequestError::NoTarget => DirectRequestErrorView::NoTarget,
        }
    }
}

impl DirectRequestError {
    /// The error's message.
    pub fn message(&self) -> (s: String)
        ensures
            s@ == match self@ {
                DirectRequestErrorView::InvalidUrl(m) => "Invalid URL: "@ + m,
                DirectRequestErrorView::NoHost => "No host in URL"@,
                DirectRequestErrorView::NoTarget => "Cannot determine target from HTTP request"@,
            },
    {
        match self {
            DirectRequestError::InvalidUrl(m) => {
                let mut s = text("Invalid URL: ");
                push_text(&mut s, m.as_str());
                s
            },
            DirectRequestError::NoHost => text("No host in URL"),
            DirectRequestError::NoTarget => text("Cannot determine target from HTTP request"),
        }
    }
}

/// The `host:port` that a plain HTTP request goes to: from its absolute
/// URL (port 443 for https and 80 otherwise when none is given), or from
/// its `host` header.
pub open spec fn direct_target(req: HttpRequestView) -> Result<Seq<char>, DirectRequestErrorView> {
    if starts_with(req.target, "http://"@) || starts_with(req.target, "https://"@) {
        match url_parse(req.target) {
            Err(e) => Err(DirectRequestErrorView::InvalidUrl(e)),
            Ok(u) => match u.host {
                None => Err(DirectRequestErrorView::NoHost),
                Some(h) => Ok(
                    h + ":"@ + decimal(
                        match u.port {
                            Some(p) => p as nat,
                            None => if u.scheme == "https"@ {
                                443nat
                            } else {
                                80nat
                            },
                        },
                    ),
                ),
            },
        }
    } else {
        match header_index(req.headers, "host"@) {
            Some(i) => Ok(req.headers[i].1),
            None => Err(DirectRequestErrorView::NoTarget),
        }
    }
}

/// A plain HTTP request whose target is an absolute URL with a host goes
/// to that host, on the port that the URL names, or else on the scheme's
/// usual port: 80 for `http`, 443 for `https`.
pub proof fn law_direct_target_port(req: HttpRequestView, u: UrlPartsView, h: Seq<char>)
    requires
        starts_with(req.target, "http://"@) || starts_with(req.target, "https://"@),
        url_parse(req.target) == Ok::<UrlPartsView, Seq<char>>(u),
        u.host == Some(h),
    ensures
        u.port matches Some(p) ==> direct_target(req) == Ok::<Seq<char>, DirectRequestErrorView>(
            h + ":"@ + decimal(p as nat),
        ),
        u.port is None && u.scheme == "http"@ ==> direct_target(req) == Ok::<
            Seq<char>,
            DirectRequestErrorView,
        >(h + ":80"@),
        u.port is None && u.scheme == "https"@ ==> direct_target(req) == Ok::<
            Seq<char>,
            DirectRequestErrorView,
        >(h + ":443"@),
{
    reveal_strlit("http");
    reveal_strlit("https");
    reveal_strlit(":");
    reveal_strlit(":80");
    reveal_strlit(":443");
    reveal_with_fuel(decimal, 4);
    assert("http"@ != "https"@) by {
        assert("http"@.len() != "https"@.len());
    }
    assert(decimal(80) =~= seq!['8', '0']);
    assert(decimal(443) =~= seq!['4', '4', '3']);
    assert(":"@ + decimal(80) =~= ":80"@);
    assert(":"@ + decimal(443) =~= ":443"@);
    assert(h + ":"@ + decimal(80) =~= h + ":80"@);
    assert(h + ":"@ + decimal(443) =~= h + ":443"@);
}

/// The path that a rewritten request asks for: the path and query of an
/// absolute URL (`/` if it does not parse), or the target as it was.
pub open spec fn direct_path(target: Seq<char>) -> Seq<char> {
    if starts_with(target, "http"@) {
        match url_parse(target) {
            Ok(u) => u.path + match u.query {
                Some(q) => "?"@ + q,
                None => Seq::empty(),
            },
            Err(_) => "/"@,
        }
    } else {
        target
    }
}

/// Headers that are not passed on.
pub open spec fn hop_header(name: Seq<char>) -> bool {
    name == "proxy-connection"@ || name == "connection"@ || name == "keep-alive"@
}

/// The header lines passed on, in order.
pub open spec fn kept_header_lines(hs: Seq<(Seq<char>, Seq<char>)>) -> Seq<char>
    decreases hs.len(),
{
    if hs.len() == 0 {
        Seq::empty()
    } else {
        let rest = kept_header_lines(hs.drop_last());
        let h = hs.last();
        if hop_header(h.0) {
            rest
        } else {
            rest + h.0 + ": "@ + h.1 + "\r\n"@
        }
    }
}

/// The text of a rewritten request.
pub open spec fn rewritten_request(req: HttpRequestView) -> Seq<char> {
    req.method + " "@ + direct_path(req.target) + " HTTP/1.1\r\n"@ + kept_header_lines(req.headers)
        + "Connection: close\r\n\r\n"@
}

/// The target of a plain HTTP request.
pub fn http_direct_target(req: &HttpRequest) -> (r: Result<String, DirectRequestError>)
    ensures
        match (r, direct_target(req@)) {
            (Ok(t), Ok(u)) => t@ == u,
            (Err(e), Err(f)) => e@ == f,
            _ => false,
        },
{
    proof {
        reveal_strlit("http://");
        reveal_strlit("https://");
        reveal_strlit("https");
        reveal_strlit("host");
    }
    if str_starts_with(req.target.as_str(), "http://") || str_starts_with(req.target.as_str(), "https://") {
        match parse_url(req.target.as_str()) {
            Err(e) => Err(DirectRequestError::InvalidUrl(e)),
            Ok(u) => match u.host {
                None => Err(DirectRequestError::NoHost),
                Some(h) => {
                    let port: u16 = match u.port {
                        Some(p) => p,
                        None => if str_eq(u.scheme.as_str(), "https") {
                            443
                        } else {
                            80
                        },
                    };
                    let mut t = h;
                    push_text(&mut t, ":");
                    push_decimal(&mut t, port as u128);
                    Ok(t)
                },
            },
        }
    } else {
        let key = text("host");
        match find_header(&req.headers, &key) {
            Some(i) => {
                proof {
                    assert(header_views(req.headers@)[i as int].1 == req.headers@[i as int].1@);
                }
                Ok(req.headers[i].1.clone())
            },
            None => Err(DirectRequestError::NoTarget),
        }
    }
}

/// The path that a rewritten request asks for.
pub fn http_direct_path(target: &str) -> (p: String)
    ensures
        p@ == direct_path(target@),
{
    proof {
        reveal_strlit("http");
    }
    if str_starts_with(target, "http") {
        match parse_url(target) {
            Ok(u) => {
                let mut p = u.path;
                match u.query {
                    Some(q) => {
                        push_text(&mut p, "?");
                        push_text(&mut p, q.as_str());
                    },
                    None => {
                        assert(p@ =~= p@ + Seq::<char>::empty());
                    },
                }
                p
            },
            Err(_) => text("/"),
        }
    } else {
        text(target)
    }
}

/// Whether a header is not passed on.
fn is_hop_header(name: &str) -> (b: bool)
    ensures
        b == hop_header(name@),
{
    str_eq(name, "proxy-connection") || str_eq(name, "connection") || str_eq(name, "keep-alive")
}

/// Appends the header lines that are passed on.
fn append_kept_headers(s: &mut String, hs: &[(String, String)])
    ensures
        final(s)@ == old(s)@ + kept_header_lines(header_views(hs@)),
{
    let ghost start = s@;
    let mut i: usize = 0;
    while i < hs.len()
        invariant
            0 <= i <= hs@.len(),
            s@ == start + kept_header_lines(header_views(hs@).subrange(0, i as int)),
        decreases hs@.len() - i,
    {
        let h = &hs[i];
        proof {
            let hv = header_views(hs@);
            assert(hv.subrange(0, i + 1).drop_last() =~= hv.subrange(0, i as int));
            assert(hv.subrange(0, i + 1).last() == (h.0@, h.1@));
        }
        if !is_hop_header(h.0.as_str()) {
            push_text(s, h.0.as_str());
            push_text(s, ": ");
            push_text(s, h.1.as_str());
            push_text(s, "\r\n");
        }
        proof {
            let hv = header_views(hs@);
            assert(s@ =~= start + kept_header_lines(hv.subrange(0, i + 1)));
        }
        i = i + 1;
    }
    proof {
        assert(header_views(hs@).subrange(0, hs@.len() as int) =~= header_views(hs@));
    }
}

/// Rewrites a plain HTTP request for its origin server: the method, the
/// path (not the absolute URL), HTTP/1.1, the headers except the
/// hop-by-hop ones, and `Connection: close`. Gives the request's bytes and
/// its `host:port` target.
pub fn handle_http_direct(req: &HttpRequest) -> (r: Result<(Vec<u8>, String), DirectRequestError>)
    ensures
        match (r, direct_target(req@)) {
            (Ok((bytes, t)), Ok(u)) => t@ == u && bytes@ == vstd::utf8::encode_utf8(
                rewritten_request(req@),
            ),
            (Err(e), Err(f)) => e@ == f,
            _ => false,
        },
{
    let target = match http_direct_target(req) {
        Ok(t) => t,
        Err(e) => {
            return Err(e);
        },
    };
    let path = http_direct_path(req.target.as_str());
    let mut s = req.method.clone();
    push_text(&mut s, " ");
    push_text(&mut s, path.as_str());
    push_text(&mut s, " HTTP/1.1\r\n");
    append_kept_headers(&mut s, req.headers.as_slice());
    push_text(&mut s, "Connection: close\r\n\r\n");
    let mut bytes: Vec<u8> = Vec::new();
    crate::frames::push_bytes(&mut bytes, s.as_str().as_bytes());
    proof {
        assert(s@ =~= rewritten_request(req@));
        assert(bytes@ =~= vstd::utf8::encode_utf8(s@));
    }
    Ok((bytes, target))
}

} // verus!
