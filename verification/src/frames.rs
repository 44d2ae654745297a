//! The small binary frames exchanged on tunnel streams: stream requests,
//! confirmations, error messages and length-prefixed messages.
use vstd::prelude::*;
use vstd::string::*;
use vstd::utf8::*;

use crate::text::{decimal, push_decimal, push_text, text};

verus! {

broadcast use {vstd::utf8::encode_utf8_valid_utf8, vstd::utf8::encode_utf8_decode_utf8};

/// Two bytes, most significant first.
pub open spec fn be16(n: u16) -> Seq<u8> {
    seq![(n / 256) as u8, (n % 256) as u8]
}

/// The number that two bytes, most significant first, stand for.
pub open spec fn be16_value(hi: u8, lo: u8) -> u16 {
    (hi as int * 256 + lo as int) as u16
}

/// Four bytes, most significant first.
pub open spec fn be32(n: u32) -> Seq<u8> {
    seq![
        (n / 0x100_0000) as u8,
        ((n / 0x1_0000) % 256) as u8,
        ((n / 256) % 256) as u8,
        (n % 256) as u8,
    ]
}

/// The number that four bytes, most significant first, stand for.
pub open spec fn be32_value(b0: u8, b1: u8, b2: u8, b3: u8) -> u32 {
    (b0 as int * 0x100_0000 + b1 as int * 0x1_0000 + b2 as int * 256 + b3 as int) as u32
}

/// Appends `n` as two bytes, most significant first.
pub fn push_be16(v: &mut Vec<u8>, n: u16)
    ensures
        final(v)@ == old(v)@ + be16(n),
{
    v.push((n / 256) as u8);
    v.push((n % 256) as u8);
    assert(final(v)@ =~= old(v)@ + be16(n));
}

/// Appends `n` as four bytes, most significant first.
pub fn push_be32(v: &mut Vec<u8>, n: u32)
    ensures
        final(v)@ == old(v)@ + be32(n),
{
    v.push((n / 0x100_0000) as u8);
    v.push(((n / 0x1_0000) % 256) as u8);
    v.push(((n / 256) % 256) as u8);
    v.push((n % 256) as u8);
    assert(final(v)@ =~= old(v)@ + be32(n));
}

/// Appends bytes.
pub fn push_bytes(v: &mut Vec<u8>, b: &[u8])
    ensures
        final(v)@ == old(v)@ + b@,
{
    let mut i: usize = 0;
    while i < b.len()
        invariant
            0 <= i <= b@.len(),
            v@ == old(v)@ + b@.subrange(0, i as int),
        decreases b@.len() - i,
    {
        v.push(b[i]);
        proof {
            assert(b@.subrange(0, i + 1) == b@.subrange(0, i as int).push(b@[i as int]));
        }
        i = i + 1;
    }
    assert(b@.subrange(0, b@.len() as int) =~= b@);
}

/// Decodes two bytes, most significant first.
pub fn from_be16(hi: u8, lo: u8) -> (n: u16)
    ensures
        n == be16_value(hi, lo),
{
    (hi as u16) * 256 + (lo as u16)
}

/// Decoding the two bytes of a number gives it back.
pub proof fn lemma_be16_round_trip(n: u16)
    ensures
        be16_value(be16(n)[0], be16(n)[1]) == n,
{
}

/// Decoding the four bytes of a number gives it back.
pub proof fn lemma_be32_round_trip(n: u32)
    ensures
        be32_value(be32(n)[0], be32(n)[1], be32(n)[2], be32(n)[3]) == n,
{
}

/// A text decoded from bytes, by `String::from_utf8`.
///
/// Trusted: std documents that it succeeds exactly on valid UTF-8 and then
/// holds the characters that the bytes encode; `valid_utf8` and
/// `decode_utf8` are vstd's statement of the UTF-8 standard.
#[verifier::external_body]
pub(crate) fn utf8_to_string(bytes: &[u8]) -> (r: Option<String>)
    ensures
        r is Some <==> valid_utf8(bytes@),
        r matches Some(s) ==> s@ == decode_utf8(bytes@),
{
    String::from_utf8(bytes.to_vec()).ok()
}

/// The request that opens a stream to a published proxy: the name's UTF-8
/// length in two bytes (only its low 16 bits are sent), the name, then the
/// publish port in two bytes.
pub open spec fn stream_request(name: Seq<char>, port: u16) -> Seq<u8> {
    be16((encode_utf8(name).len() % 0x1_0000) as u16) + encode_utf8(name) + be16(port)
}

/// The prefix that marks a stream request for an outside target.
pub open spec fn forward_marker() -> Seq<char> {
    "@forward:"@
}

/// The request that asks the server to connect to an outside `target`.
pub open spec fn forward_request(target: Seq<char>) -> Seq<u8> {
    stream_request(forward_marker() + target, 0)
}

/// The bytes of a stream request for `name` and `port`.
pub fn stream_request_frame(name: &str, port: u16) -> (v: Vec<u8>)
    ensures
        v@ == stream_request(name@, port),
{
    let bytes = name.as_bytes();
    let len = bytes.len();
    let mut v: Vec<u8> = Vec::new();
    push_be16(&mut v, (len % 65536) as u16);
    push_bytes(&mut v, bytes);
    push_be16(&mut v, port);
    v
}

/// The bytes of a request to connect to the outside `target`; the port
/// field is 0 and unused.
pub fn forward_request_frame(target: &str) -> (v: Vec<u8>)
    ensures
        v@ == forward_request(target@),
{
    let mut name = text("@forward:");
    push_text(&mut name, target);
    proof {
        reveal_strlit("@forward:");
    }
    stream_request_frame(name.as_str(), 0)
}

/// Why a stream request is refused.
#[derive(Debug, Clone, Copy, PartialEq, Eq, Structural)]
pub enum StreamRequestError {
    /// Fewer bytes than the request needs.
    Incomplete,
    /// The name's length is 0 or above 255 bytes.
    InvalidNameLength,
    /// The name is not UTF-8.
    InvalidUtf8,
}

/// What the server makes of the bytes that start a stream: the name, the
/// port and the number of bytes the request took, or why it is refused.
pub open spec fn parse_stream_request_spec(b: Seq<u8>) -> Result<
    (Seq<char>, u16, int),
    StreamRequestError,
> {
    if b.len() < 2 {
        Err(StreamRequestError::Incomplete)
    } else {
        let n = be16_value(b[0], b[1]) as int;
        if n == 0 || n > 255 {
            Err(StreamRequestError::InvalidNameLength)
        } else if b.len() < n + 4 {
            Err(StreamRequestError::Incomplete)
        } else if !valid_utf8(b.subrange(2, n + 2)) {
            Err(StreamRequestError::InvalidUtf8)
        } else {
            Ok((decode_utf8(b.subrange(2, n + 2)), be16_value(b[n + 2], b[n + 3]), n + 4))
        }
    }
}

/// Whether a name length read from a stream request is allowed.
pub fn name_length_ok(len: u16) -> (b: bool)
    ensures
        b == (1 <= len <= 255),
{
    len >= 1 && len <= 255
}

/// Reads a stream request from the bytes at the start of a stream.
pub fn parse_stream_request(b: &[u8]) -> (r: Result<(String, u16, usize), StreamRequestError>)
    ensures
        match (r, parse_stream_request_spec(b@)) {
            (Ok((name, port, used)), Ok((n, p, u))) => name@ == n && port == p && used == u,
            (Err(e), Err(f)) => e == f,
            _ => false,
        },
{
    if b.len() < 2 {
        return Err(StreamRequestError::Incomplete);
    }
    let n = from_be16(b[0], b[1]) as usize;
    if n == 0 || n > 255 {
        return Err(StreamRequestError::InvalidNameLength);
    }
    if b.len() < n + 4 {
        return Err(StreamRequestError::Incomplete);
    }
    let mut name_bytes: Vec<u8> = Vec::new();
    let mut i: usize = 2;
    while i < n + 2
        invariant
            2 <= i <= n + 2,
            n <= 255,
            n + 4 <= b@.len(),
            name_bytes@ == b@.subrange(2, i as int),
        decreases n + 2 - i,
    {
        name_bytes.push(b[i]);
        proof {
            assert(b@.subrange(2, i + 1) == b@.subrange(2, i as int).push(b@[i as int]));
        }
        i = i + 1;
    }
    match utf8_to_string(name_bytes.as_slice()) {
        Some(name) => {
            let port = from_be16(b[n + 2], b[n + 3]);
            Ok((name, port, n + 4))
        },
        None => Err(StreamRequestError::InvalidUtf8),
    }
}

/// The server reads back what the client sent: a stream request for a
/// name of 1 to 255 bytes gives the name and port back, whatever follows.
pub proof fn law_stream_request_round_trip(name: Seq<char>, port: u16, rest: Seq<u8>)
    requires
        1 <= encode_utf8(name).len() <= 255,
    ensures
        parse_stream_request_spec(stream_request(name, port) + rest) == Ok::<
            (Seq<char>, u16, int),
            StreamRequestError,
        >((name, port, encode_utf8(name).len() + 4int)),
{
    let e = encode_utf8(name);
    let n = e.len() as int;
    let b = stream_request(name, port) + rest;
    assert((n % 0x1_0000) == n);
    lemma_be16_round_trip(n as u16);
    lemma_be16_round_trip(port);
    assert(b[0] == be16(n as u16)[0]);
    assert(b[1] == be16(n as u16)[1]);
    assert(b.subrange(2, n + 2) =~= e);
    assert(b[n + 2] == be16(port)[0]);
    assert(b[n + 3] == be16(port)[1]);
}

/// What a stream request names: an outside target (after the `@forward:`
/// marker) or a published proxy.
#[derive(Debug)]
pub enum StreamTarget {
    Forward(String),
    Proxy(String),
}

/// Sorts a requested name by the `@forward:` marker.
pub fn classify_stream_request(name: &str) -> (t: StreamTarget)
    ensures
        match t {
            StreamTarget::Forward(target) => name@.len() >= 9 && name@.subrange(0, 9)
                == forward_marker() && target@ == name@.subrange(9, name@.len() as int),
            StreamTarget::Proxy(p) => !(name@.len() >= 9 && name@.subrange(0, 9)
                == forward_marker()) && p@ == name@,
        },
{
    proof {
        reveal_strlit("@forward:");
    }
    let marker = "@forward:";
    let len = name.unicode_len();
    if len >= 9 {
        let mut i: usize = 0;
        let mut same = true;
        assert(name@.subrange(0, 0) =~= marker@.subrange(0, 0));
        while i < 9
            invariant
                0 <= i <= 9,
                len == name@.len(),
                len >= 9,
                marker@ == forward_marker(),
                marker@.len() == 9,
                same == (name@.subrange(0, i as int) == marker@.subrange(0, i as int)),
            decreases 9 - i,
        {
            let c = name.get_char(i);
            let m = marker.get_char(i);
            proof {
                assert(name@.subrange(0, i + 1) == name@.subrange(0, i as int).push(name@[i as int]));
                assert(marker@.subrange(0, i + 1) == marker@.subrange(0, i as int).push(
                    marker@[i as int],
                ));
                if !same {
                    assert(name@.subrange(0, i + 1) != marker@.subrange(0, i + 1)) by {
                        if name@.subrange(0, i + 1) == marker@.subrange(0, i + 1) {
                            assert(name@.subrange(0, i as int) =~= name@.subrange(0, i + 1).drop_last());
                            assert(marker@.subrange(0, i as int) =~= marker@.subrange(0, i + 1).drop_last());
                        }
                    }
                }
                if same && c != m {
                    assert(name@.subrange(0, i + 1)[i as int] != marker@.subrange(0, i + 1)[i as int]);
                }
            }
            same = same && c == m;
            i = i + 1;
        }
        assert(marker@.subrange(0, 9) =~= marker@);
        if same {
            let rest = name.substring_char(9, len);
            return StreamTarget::Forward(text(rest));
        }
    }
    StreamTarget::Proxy(text(name))
}

/// The byte that confirms a stream request.
pub open spec fn confirmation() -> Seq<u8> {
    seq![1u8]
}

/// The confirmation of a stream request, as sent.
pub fn confirmation_frame() -> (v: Vec<u8>)
    ensures
        v@ == confirmation(),
{
    let v: Vec<u8> = vec![1u8];
    assert(v@ =~= confirmation());
    v
}

/// Whether the first byte of an answer to a stream request confirms it;
/// any other byte starts a refusal.
pub fn is_confirmation(first: u8) -> (b: bool)
    ensures
        b == (first == confirmation()[0]),
{
    first == 1
}

/// The refusal of a stream request: a 0 byte, then the message's UTF-8
/// length in two bytes (only its low 16 bits are sent), then the message.
pub open spec fn refusal(msg: Seq<char>) -> Seq<u8> {
    seq![0u8] + be16((encode_utf8(msg).len() % 0x1_0000) as u16) + encode_utf8(msg)
}

/// The bytes that refuse a stream request with `msg`.
pub fn refusal_frame(msg: &str) -> (v: Vec<u8>)
    ensures
        v@ == refusal(msg@),
{
    let bytes = msg.as_bytes();
    let mut v: Vec<u8> = Vec::new();
    v.push(0u8);
    push_be16(&mut v, (bytes.len() % 65536) as u16);
    push_bytes(&mut v, bytes);
    assert(v@ =~= refusal(msg@));
    v
}

/// The longest error message a peer accepts, in bytes.
pub const MAX_ERROR_MESSAGE_LEN: usize = 4096;

/// Why an error message could not be read.
#[derive(Debug, Clone, Copy, PartialEq, Eq, Structural)]
pub enum ErrorMessageError {
    Incomplete,
    TooLong,
    InvalidUtf8,
}

/// What a peer makes of the bytes after a refusal's 0 byte: the message and
/// the bytes it took, or why it could not be read.
pub open spec fn parse_error_message_spec(b: Seq<u8>) -> Result<(Seq<char>, int), ErrorMessageError> {
    if b.len() < 2 {
        Err(ErrorMessageError::Incomplete)
    } else {
        let n = be16_value(b[0], b[1]) as int;
        if n > 4096 {
            Err(ErrorMessageError::TooLong)
        } else if b.len() < n + 2 {
            Err(ErrorMessageError::Incomplete)
        } else if !valid_utf8(b.subrange(2, n + 2)) {
            Err(ErrorMessageError::InvalidUtf8)
        } else {
            Ok((decode_utf8(b.subrange(2, n + 2)), n + 2))
        }
    }
}

/// Reads the error message that follows a refusal's 0 byte.
pub fn parse_error_message(b: &[u8]) -> (r: Result<(String, usize), ErrorMessageError>)
    ensures
        match (r, parse_error_message_spec(b@)) {
            (Ok((msg, used)), Ok((m, u))) => msg@ == m && used == u,
            (Err(e), Err(f)) => e == f,
            _ => false,
        },
{
    if b.len() < 2 {
        return Err(ErrorMessageError::Incomplete);
    }
    let n = from_be16(b[0], b[1]) as usize;
    if n > MAX_ERROR_MESSAGE_LEN {
        return Err(ErrorMessageError::TooLong);
    }
    if b.len() < n + 2 {
        return Err(ErrorMessageError::Incomplete);
    }
    let mut bytes: Vec<u8> = Vec::new();
    let mut i: usize = 2;
    while i < n + 2
        invariant
            2 <= i <= n + 2,
            n <= 4096,
            n + 2 <= b@.len(),
            bytes@ == b@.subrange(2, i as int),
        decreases n + 2 - i,
    {
        bytes.push(b[i]);
        proof {
            assert(b@.subrange(2, i + 1) == b@.subrange(2, i as int).push(b@[i as int]));
        }
        i = i + 1;
    }
    match utf8_to_string(bytes.as_slice()) {
        Some(msg) => Ok((msg, n + 2)),
        None => Err(ErrorMessageError::InvalidUtf8),
    }
}

/// A peer tells a refusal from a confirmation by its first byte, and reads
/// back the message of a refusal, if it is at most 4096 bytes long.
pub proof fn law_refusal_round_trip(msg: Seq<char>, rest: Seq<u8>)
    requires
        encode_utf8(msg).len() <= 4096,
    ensures
        refusal(msg)[0] == 0,
        !(refusal(msg)[0] == confirmation()[0]),
        parse_error_message_spec(refusal(msg).subrange(1, refusal(msg).len() as int) + rest)
            == Ok::<(Seq<char>, int), ErrorMessageError>((msg, encode_utf8(msg).len() + 2int)),
{
    let e = encode_utf8(msg);
    let n = e.len() as int;
    let b = refusal(msg).subrange(1, refusal(msg).len() as int) + rest;
    lemma_be16_round_trip(n as u16);
    assert(b[0] == be16(n as u16)[0]);
    assert(b[1] == be16(n as u16)[1]);
    assert(b.subrange(2, n + 2) =~= e);
}

/// The error message sent when the requested name is empty or too long.
pub open spec fn invalid_name_length_message() -> Seq<char> {
    "Invalid proxy name length (must be 1-255 bytes)"@
}

/// The error message sent when the server does not forward.
pub open spec fn forward_disabled_message() -> Seq<char> {
    "Forward feature is not enabled on server"@
}

/// The error message sent when the forward target is local or private.
pub open spec fn forward_denied_message(target: Seq<char>) -> Seq<char> {
    "Access denied: cannot forward to local or private address '"@ + target + "'"@
}

/// The error message sent when no proxy has this name and port.
pub open spec fn proxy_missing_message(name: Seq<char>, port: u16) -> Seq<char> {
    "Proxy '"@ + name + "' with publish_port "@ + decimal(port as nat)
        + " not found or client not connected"@
}

/// The message for a name of bad length.
pub fn invalid_name_length_text() -> (s: String)
    ensures
        s@ == invalid_name_length_message(),
{
    text("Invalid proxy name length (must be 1-255 bytes)")
}

/// How the server answers a request for an outside target: `None` to go
/// on and connect, or the message that refuses it (forwarding disabled
/// first, then a local or private target).
pub fn forward_refusal(allow_forward: bool, target: &str, target_is_local: bool) -> (r: Option<
    String,
>)
    ensures
        !allow_forward ==> (r matches Some(m) && m@ == forward_disabled_message()),
        allow_forward && target_is_local ==> (r matches Some(m) && m@ == forward_denied_message(
            target@,
        )),
        allow_forward && !target_is_local ==> r is None,
{
    if !allow_forward {
        Some(text("Forward feature is not enabled on server"))
    } else if target_is_local {
        let mut s = text("Access denied: cannot forward to local or private address '");
        push_text(&mut s, target);
        push_text(&mut s, "'");
        Some(s)
    } else {
        None
    }
}

/// The message when no proxy has this name and port.
pub fn proxy_missing_text(name: &str, port: u16) -> (s: String)
    ensures
        s@ == proxy_missing_message(name@, port),
{
    let mut s = text("Proxy '");
    push_text(&mut s, name);
    push_text(&mut s, "' with publish_port ");
    push_decimal(&mut s, port as u128);
    push_text(&mut s, " not found or client not connected");
    s
}

/// The largest control message accepted, in bytes: 10 MiB.
pub const MAX_CONTROL_MESSAGE_LEN: u32 = 10485760;

/// A length-prefixed message: its length in four bytes, then the bytes.
pub open spec fn length_prefixed(body: Seq<u8>) -> Seq<u8> {
    be32((body.len() % 0x1_0000_0000) as u32) + body
}

/// The bytes of a length-prefixed message (only the low 32 bits of the
/// length are sent).
pub fn length_prefixed_frame(body: &[u8]) -> (v: Vec<u8>)
    ensures
        v@ == length_prefixed(body@),
{
    let mut v: Vec<u8> = Vec::new();
    push_be32(&mut v, (body.len() as u64 % 0x1_0000_0000) as u32);
    push_bytes(&mut v, body);
    v
}

/// Whether a control message of `len` bytes is read: at most 10 MiB.
pub fn control_length_ok(len: u32) -> (b: bool)
    ensures
        b == (len <= 10485760),
{
    len <= MAX_CONTROL_MESSAGE_LEN
}

/// The error when a control message is too large.
pub fn message_too_large_text(len: u32) -> (s: String)
    ensures
        s@ == "Message too large: "@ + decimal(len as nat) + " bytes"@,
{
    let mut s = text("Message too large: ");
    push_decimal(&mut s, len as u128);
    push_text(&mut s, " bytes");
    s
}

/// The version of the client configuration message.
pub const PROTOCOL_VERSION: u8 = 1;

/// Why a client configuration message is refused.
#[derive(Debug, Clone, Copy, PartialEq, Eq, Structural)]
pub enum ConfigMessageError {
    /// The length prefix is 0.
    EmptyMessage,
    /// The message has another version.
    UnsupportedVersion { version: u8 },
}

impl ConfigMessageError {
    /// The error's message.
    pub fn message(&self) -> (s: String)
        ensures
            *self == ConfigMessageError::EmptyMessage ==> s@ == "Client config message length cannot be 0"@,
            forall|v: u8|
                *self == (ConfigMessageError::UnsupportedVersion { version: v }) ==> s@
                    == "Unsupported protocol version "@ + decimal(v as nat),
    {
        match self {
            ConfigMessageError::EmptyMessage => text("Client config message length cannot be 0"),
            ConfigMessageError::UnsupportedVersion { version } => {
                let mut s = text("Unsupported protocol version ");
                push_decimal(&mut s, *version as u128);
                s
            },
        }
    }
}

/// Checks the length prefix of a client configuration message.
pub fn check_config_message_len(len: u32) -> (r: Result<(), ConfigMessageError>)
    ensures
        r is Ok <==> len != 0,
        r matches Err(e) ==> e == ConfigMessageError::EmptyMessage,
{
    if len == 0 {
        Err(ConfigMessageError::EmptyMessage)
    } else {
        Ok(())
    }
}

/// Checks the version of a client configuration message.
pub fn check_config_message_version(version: u8) -> (r: Result<(), ConfigMessageError>)
    ensures
        r is Ok <==> version == PROTOCOL_VERSION,
        r matches Err(e) ==> e == (ConfigMessageError::UnsupportedVersion { version }),
{
    if version != PROTOCOL_VERSION {
        Err(ConfigMessageError::UnsupportedVersion { version })
    } else {
        Ok(())
    }
}

} // verus!
