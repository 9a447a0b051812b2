//! The wire protocol: JSON frames over the persistent connection.
//!
//! Inbound text frames are `{"type":"audio","data":"<base64>"}` or
//! `{"type":"ping"}`; anything else is unrecognized and ignored. Outbound
//! frames are `transcription`, `pong` and `error` messages. Both
//! directions are handled by a verified parser and serializer for this
//! fixed grammar: objects of one or two string-valued members, with
//! whitespace allowed between tokens and no escape sequences in strings
//! (a frame using them is treated as unrecognized).

use vstd::prelude::*;

use crate::chars::{append_chars, chars_eq, chars_to_string, is_space, is_space_char, str_to_chars};

verus! {

/// A message from a client.
pub enum ClientMessage {
    /// An audio frame: base64-encoded PCM16LE samples.
    AudioData { data: String },
    /// A liveness probe.
    Ping,
}

/// A message to a client.
pub enum ServerMessage {
    /// A transcription result (or a human-readable error text in place of
    /// one; individual request failures do not close the connection).
    Transcription { text: String },
    /// The answer to a ping.
    Pong,
    /// A connection-level error report.
    Error { message: String },
}

// ---------------------------------------------------------------------
// Serialization
// ---------------------------------------------------------------------
/// The lowercase hexadecimal digit of a value below 16.
pub open spec fn hex_digit(d: int) -> char {
    if d == 0 {
        '0'
    } else if d == 1 {
        '1'
    } else if d == 2 {
        '2'
    } else if d == 3 {
        '3'
    } else if d == 4 {
        '4'
    } else if d == 5 {
        '5'
    } else if d == 6 {
        '6'
    } else if d == 7 {
        '7'
    } else if d == 8 {
        '8'
    } else if d == 9 {
        '9'
    } else if d == 10 {
        'a'
    } else if d == 11 {
        'b'
    } else if d == 12 {
        'c'
    } else if d == 13 {
        'd'
    } else if d == 14 {
        'e'
    } else {
        'f'
    }
}

/// How one character is written inside a JSON string: quotes, backslashes
/// and control characters are escaped, everything else stands as itself.
pub open spec fn escape_char(c: char) -> Seq<char> {
    if c == '"' {
        seq!['\\', '"']
    } else if c == '\\' {
        seq!['\\', '\\']
    } else if c == '\n' {
        seq!['\\', 'n']
    } else if c == '\r' {
        seq!['\\', 'r']
    } else if c == '\t' {
        seq!['\\', 't']
    } else if (c as u32) < 0x20 {
        seq!['\\', 'u', '0', '0', hex_digit(c as u32 as int / 16), hex_digit(c as u32 as int % 16)]
    } else {
        seq![c]
    }
}

/// A text as it is written inside a JSON string.
pub open spec fn json_escaped(s: Seq<char>) -> Seq<char>
    decreases s.len(),
{
    if s.len() == 0 {
        Seq::empty()
    } else {
        escape_char(s[0]) + json_escaped(s.drop_first())
    }
}

/// The JSON frame for a transcription reply.
pub open spec fn spec_transcription_json(text: Seq<char>) -> Seq<char> {
    "{\"type\":\"transcription\",\"text\":\""@ + json_escaped(text) + "\"}"@
}

/// The JSON frame for a pong reply.
pub open spec fn spec_pong_json() -> Seq<char> {
    "{\"type\":\"pong\"}"@
}

/// The JSON frame for an error report.
pub open spec fn spec_error_json(message: Seq<char>) -> Seq<char> {
    "{\"type\":\"error\",\"message\":\""@ + json_escaped(message) + "\"}"@
}

/// The frame a server message is sent as.
pub open spec fn spec_server_message_json(msg: ServerMessage) -> Seq<char> {
    match msg {
        ServerMessage::Transcription { text } => spec_transcription_json(text@),
        ServerMessage::Pong => spec_pong_json(),
        ServerMessage::Error { message } => spec_error_json(message@),
    }
}

/// The lowercase hexadecimal digit of a value below 16.
fn hex_digit_char(d: u32) -> (r: char)
    requires
        d < 16,
    ensures
        r == hex_digit(d as int),
{
    if d == 0 {
        '0'
    } else if d == 1 {
        '1'
    } else if d == 2 {
        '2'
    } else if d == 3 {
        '3'
    } else if d == 4 {
        '4'
    } else if d == 5 {
        '5'
    } else if d == 6 {
        '6'
    } else if d == 7 {
        '7'
    } else if d == 8 {
        '8'
    } else if d == 9 {
        '9'
    } else if d == 10 {
        'a'
    } else if d == 11 {
        'b'
    } else if d == 12 {
        'c'
    } else if d == 13 {
        'd'
    } else if d == 14 {
        'e'
    } else {
        'f'
    }
}

/// Writes a text with JSON string escaping.
fn escape_json_chars(v: &Vec<char>) -> (r: Vec<char>)
    ensures
        r@ == json_escaped(v@),
{
    let n = v.len();
    let mut out: Vec<char> = Vec::new();
    let mut i: usize = 0;
    proof {
        assert(v@.skip(0) =~= v@);
        assert(Seq::<char>::empty() + json_escaped(v@) =~= json_escaped(v@));
    }
    while i < n
        invariant
            n == v@.len(),
            i <= n,
            json_escaped(v@) == out@ + json_escaped(v@.skip(i as int)),
        decreases n - i,
    {
        let ghost rest = v@.skip(i as int);
        proof {
            assert(rest[0] == v@[i as int]);
            assert(rest.drop_first() =~= v@.skip(i as int + 1));
            assert(json_escaped(rest) == escape_char(rest[0]) + json_escaped(rest.drop_first()));
        }
        let ghost prev = out@;
        let c = v[i];
        if c == '"' {
            out.push('\\');
            out.push('"');
        } else if c == '\\' {
            out.push('\\');
            out.push('\\');
        } else if c == '\n' {
            out.push('\\');
            out.push('n');
        } else if c == '\r' {
            out.push('\\');
            out.push('r');
        } else if c == '\t' {
            out.push('\\');
            out.push('t');
        } else if (c as u32) < 0x20 {
            let u = c as u32;
            out.push('\\');
            out.push('u');
            out.push('0');
            out.push('0');
            out.push(hex_digit_char(u / 16));
            out.push(hex_digit_char(u % 16));
        } else {
            out.push(c);
        }
        proof {
            assert(out@ =~= prev + escape_char(rest[0]));
        }
        i = i + 1;
    }
    proof {
        assert(v@.skip(n as int) =~= Seq::<char>::empty());
        assert(out@ + Seq::<char>::empty() =~= out@);
    }
    out
}

/// Serializes a server message as its JSON frame.
pub fn server_message_json(msg: &ServerMessage) -> (r: String)
    ensures
        r@ == spec_server_message_json(*msg),
{
    match msg {
        ServerMessage::Transcription { text } => {
            let mut out = str_to_chars("{\"type\":\"transcription\",\"text\":\"");
            let body = str_to_chars(text.as_str());
            let escaped = escape_json_chars(&body);
            append_chars(&mut out, &escaped);
            let tail = str_to_chars("\"}");
            append_chars(&mut out, &tail);
            proof {
                assert(out@ =~= spec_transcription_json(text@));
            }
            chars_to_string(&out)
        },
        ServerMessage::Pong => "{\"type\":\"pong\"}".to_owned(),
        ServerMessage::Error { message } => {
            let mut out = str_to_chars("{\"type\":\"error\",\"message\":\"");
            let body = str_to_chars(message.as_str());
            let escaped = escape_json_chars(&body);
            append_chars(&mut out, &escaped);
            let tail = str_to_chars("\"}");
            append_chars(&mut out, &tail);
            proof {
                assert(out@ =~= spec_error_json(message@));
            }
            chars_to_string(&out)
        },
    }
}

// ---------------------------------------------------------------------
// Parsing
// ---------------------------------------------------------------------
/// The first position at or after `i` that does not hold whitespace.
pub open spec fn skip_ws_at(s: Seq<char>, i: int) -> int
    decreases s.len() - i,
    when 0 <= i <= s.len()
{
    if i < s.len() && is_space_char(s[i]) {
        skip_ws_at(s, i + 1)
    } else {
        i
    }
}

/// The first position at or after `i` that ends a string body: a quote or
/// a backslash, or the end of the text.
pub open spec fn string_body_end(s: Seq<char>, i: int) -> int
    decreases s.len() - i,
    when 0 <= i <= s.len()
{
    if i < s.len() && s[i] != '"' && s[i] != '\\' {
        string_body_end(s, i + 1)
    } else {
        i
    }
}

/// Scans a string literal starting at `i`: the content between the quotes
/// (which may hold no quote and no backslash) and the position after the
/// closing quote.
pub open spec fn spec_scan_string(s: Seq<char>, i: int) -> Option<(Seq<char>, int)> {
    if 0 <= i < s.len() && s[i] == '"' {
        let j = string_body_end(s, i + 1);
        if j < s.len() && s[j] == '"' {
            Some((s.subrange(i + 1, j), j + 1))
        } else {
            None
        }
    } else {
        None
    }
}

/// Scans one `"key" : "value"` member starting at `i` (whitespace allowed
/// around the tokens): the pair and the position after the value.
pub open spec fn spec_scan_member(s: Seq<char>, i: int) -> Option<((Seq<char>, Seq<char>), int)>
    recommends
        0 <= i <= s.len(),
{
    match spec_scan_string(s, skip_ws_at(s, i)) {
        Some((k, i2)) => {
            let i3 = skip_ws_at(s, i2);
            if i3 < s.len() && s[i3] == ':' {
                match spec_scan_string(s, skip_ws_at(s, i3 + 1)) {
                    Some((v, i5)) => Some(((k, v), i5)),
                    None => None,
                }
            } else {
                None
            }
        },
        None => None,
    }
}

/// The members of a frame that is an object of one or two string-valued
/// members, or `None` where the text is not of that shape.
pub open spec fn spec_frame_members(s: Seq<char>) -> Option<Seq<(Seq<char>, Seq<char>)>> {
    let i0 = skip_ws_at(s, 0);
    if i0 < s.len() && s[i0] == '{' {
        match spec_scan_member(s, i0 + 1) {
            Some((m1, i1)) => {
                let i2 = skip_ws_at(s, i1);
                if i2 < s.len() && s[i2] == '}' {
                    if skip_ws_at(s, i2 + 1) == s.len() {
                        Some(seq![m1])
                    } else {
                        None
                    }
                } else if i2 < s.len() && s[i2] == ',' {
                    match spec_scan_member(s, i2 + 1) {
                        Some((m2, i3)) => {
                            let i4 = skip_ws_at(s, i3);
                            if i4 < s.len() && s[i4] == '}' && skip_ws_at(s, i4 + 1) == s.len() {
                                Some(seq![m1, m2])
                            } else {
                                None
                            }
                        },
                        None => None,
                    }
                } else {
                    None
                }
            },
            None => None,
        }
    } else {
        None
    }
}

/// Whether a frame is the ping message.
pub open spec fn spec_is_ping(s: Seq<char>) -> bool {
    match spec_frame_members(s) {
        Some(ms) => ms.len() == 1 && ms[0].0 == "type"@ && ms[0].1 == "ping"@,
        None => false,
    }
}

/// The payload of a frame that is the audio message, or `None`.
pub open spec fn spec_audio_payload(s: Seq<char>) -> Option<Seq<char>> {
    match spec_frame_members(s) {
        Some(ms) => {
            if ms.len() == 2 && ms[0].0 == "type"@ && ms[0].1 == "audio"@ && ms[1].0 == "data"@ {
                Some(ms[1].1)
            } else if ms.len() == 2 && ms[1].0 == "type"@ && ms[1].1 == "audio"@ && ms[0].0
                == "data"@ {
                Some(ms[0].1)
            } else {
                None
            }
        },
        None => None,
    }
}

/// The first position at or after `i` that does not hold whitespace.
fn skip_ws(v: &Vec<char>, i: usize) -> (r: usize)
    requires
        i <= v@.len(),
    ensures
        i <= r <= v@.len(),
        r == skip_ws_at(v@, i as int),
{
    let n = v.len();
    let mut j = i;
    while j < n && is_space(v[j])
        invariant
            n == v@.len(),
            i <= j <= n,
            skip_ws_at(v@, i as int) == skip_ws_at(v@, j as int),
        decreases n - j,
    {
        j = j + 1;
    }
    j
}

/// Scans a string literal starting at `i`.
fn scan_string(v: &Vec<char>, i: usize) -> (r: Option<(Vec<char>, usize)>)
    requires
        i <= v@.len(),
    ensures
        match r {
            Some((content, next)) => spec_scan_string(v@, i as int) matches Some(p) && p.0
                == content@ && p.1 == next && i < next <= v@.len(),
            None => spec_scan_string(v@, i as int) is None,
        },
{
    let n = v.len();
    if i >= n || v[i] != '"' {
        return None;
    }
    let mut j = i + 1;
    while j < n && v[j] != '"' && v[j] != '\\'
        invariant
            n == v@.len(),
            i + 1 <= j <= n,
            string_body_end(v@, i as int + 1) == string_body_end(v@, j as int),
        decreases n - j,
    {
        j = j + 1;
    }
    if j >= n || v[j] != '"' {
        return None;
    }
    let mut content: Vec<char> = Vec::new();
    let mut k = i + 1;
    while k < j
        invariant
            i + 1 <= k <= j < n,
            n == v@.len(),
            content@ == v@.subrange(i as int + 1, k as int),
        decreases j - k,
    {
        content.push(v[k]);
        k = k + 1;
        proof {
            assert(content@ =~= v@.subrange(i as int + 1, k as int));
        }
    }
    Some((content, j + 1))
}

/// Scans one `"key" : "value"` member starting at `i`.
fn scan_member(v: &Vec<char>, i: usize) -> (r: Option<((Vec<char>, Vec<char>), usize)>)
    requires
        i <= v@.len(),
    ensures
        match r {
            Some(((k, val), next)) => spec_scan_member(v@, i as int) matches Some(p) && p.0.0
                == k@ && p.0.1 == val@ && p.1 == next && next <= v@.len(),
            None => spec_scan_member(v@, i as int) is None,
        },
{
    let i1 = skip_ws(v, i);
    let key = match scan_string(v, i1) {
        Some(kv) => kv,
        None => {
            return None;
        },
    };
    let (k, i2) = key;
    let i3 = skip_ws(v, i2);
    if i3 >= v.len() || v[i3] != ':' {
        return None;
    }
    let i4 = skip_ws(v, i3 + 1);
    let val = match scan_string(v, i4) {
        Some(vv) => vv,
        None => {
            return None;
        },
    };
    let (value, i5) = val;
    Some(((k, value), i5))
}

/// Parses an inbound text frame. `None` is an unrecognized frame, which
/// the session ignores.
pub fn parse_client_message(text: &str) -> (r: Option<ClientMessage>)
    ensures
        (r matches Some(ClientMessage::Ping)) <==> spec_is_ping(text@),
        r matches Some(ClientMessage::AudioData { data }) ==> spec_audio_payload(text@) == Some(
            data@,
        ),
        spec_audio_payload(text@) matches Some(d) ==> (r matches Some(
            ClientMessage::AudioData { data },
        ) && data@ == d),
        r is None <==> (!spec_is_ping(text@) && spec_audio_payload(text@) is None),
{
    let v = str_to_chars(text);
    let i0 = skip_ws(&v, 0);
    if i0 >= v.len() || v[i0] != '{' {
        return None;
    }
    let first = match scan_member(&v, i0 + 1) {
        Some(m) => m,
        None => {
            return None;
        },
    };
    let ((k1, v1), i1) = first;
    let i2 = skip_ws(&v, i1);
    if i2 < v.len() && v[i2] == '}' {
        // an object of one member
        if skip_ws(&v, i2 + 1) != v.len() {
            return None;
        }
        let type_key = str_to_chars("type");
        let ping_val = str_to_chars("ping");
        if chars_eq(&k1, &type_key) && chars_eq(&v1, &ping_val) {
            return Some(ClientMessage::Ping);
        }
        return None;
    }
    if i2 >= v.len() || v[i2] != ',' {
        return None;
    }
    let second = match scan_member(&v, i2 + 1) {
        Some(m) => m,
        None => {
            return None;
        },
    };
    let ((k2, v2), i3) = second;
    let i4 = skip_ws(&v, i3);
    if i4 >= v.len() || v[i4] != '}' {
        return None;
    }
    if skip_ws(&v, i4 + 1) != v.len() {
        return None;
    }
    let type_key = str_to_chars("type");
    let audio_val = str_to_chars("audio");
    let data_key = str_to_chars("data");
    if chars_eq(&k1, &type_key) && chars_eq(&v1, &audio_val) && chars_eq(&k2, &data_key) {
        return Some(ClientMessage::AudioData { data: chars_to_string(&v2) });
    }
    if chars_eq(&k2, &type_key) && chars_eq(&v2, &audio_val) && chars_eq(&k1, &data_key) {
        return Some(ClientMessage::AudioData { data: chars_to_string(&v1) });
    }
    None
}

} // verus!
