//! Line-delimited JSON protocol for the warm-daemon unix socket.
//!
//! Each message is a single JSON line terminated by `\n`. The maximum line
//! length is 64 MiB, to prevent unbounded allocations.

use vstd::prelude::*;

use crate::error::VisionError;
use crate::text::{is_ws_spec, push_char, trim_end, trim_end_spec};

verus! {

/// Maximum allowed frame size in bytes (64 MiB).
pub const MAX_FRAME_BYTES: usize = 67108864;

/// Request sent from a CLI client to the daemon over the unix socket.
#[derive(Debug, Clone)]
pub enum SocketRequest {
    Infer {
        prompt: String,
        /// Primary image, base64-encoded.
        image: String,
        /// Optional second image, base64-encoded.
        image_b: Option<String>,
        max_tokens: u32,
        /// Sampling temperature, as the bit pattern of an `f32`.
        temperature_bits: u32,
        timeout_ms: u64,
        format: String,
        preset: Option<String>,
    },
    Health,
    Stop,
}

/// Response sent from the daemon back to the CLI client.
#[derive(Debug, Clone)]
pub enum SocketResponse {
    Success { text: String, tokens: u32, time_ms: u64, model: String },
    Health { status: String, backend: String },
    Stopped,
    Error { error: String, code: String },
}

/// The byte length of a text in UTF-8.
pub open spec fn utf8_len(s: Seq<char>) -> nat {
    vstd::utf8::encode_utf8(s).len()
}

/// What reading one line gives, by the number of bytes read and the line: the
/// peer closed the connection, the line is over the size limit, or the message
/// with its line ending (and any trailing white space) removed.
pub enum FrameOutcome {
    Closed,
    TooLarge(nat),
    Message(Seq<char>),
}

/// How a read line is taken apart.
pub open spec fn frame_outcome(bytes_read: nat, line: Seq<char>, limit: nat) -> FrameOutcome {
    if bytes_read == 0 {
        FrameOutcome::Closed
    } else if utf8_len(line) > limit {
        FrameOutcome::TooLarge(utf8_len(line))
    } else {
        FrameOutcome::Message(trim_end_spec(line))
    }
}

/// The line that carries `json`: the message and a line feed.
pub fn frame_message(json: &str) -> (r: String)
    ensures
        r@ == json@.push('\n'),
{
    let mut r = String::from_str(json);
    push_char(&mut r, '\n');
    r
}

/// The message in a line read from the socket, given how many bytes the read
/// returned. A read of no bytes means the peer closed the connection.
pub fn read_frame(bytes_read: usize, line: &str) -> (r: Result<String, VisionError>)
    ensures
        (match frame_outcome(bytes_read as nat, line@, MAX_FRAME_BYTES as nat) {
            FrameOutcome::Closed => r matches Err(VisionError::Daemon(m)) && m@
                == "connection closed by peer"@,
            FrameOutcome::TooLarge(n) => r matches Err(VisionError::PayloadTooLarge(a, b)) && a
                == n && b == MAX_FRAME_BYTES,
            FrameOutcome::Message(m) => r matches Ok(s) && s@ == m,
        }),
{
    if bytes_read == 0 {
        return Err(VisionError::Daemon(String::from_str("connection closed by peer")));
    }
    let n = line.as_bytes().len();
    if n > MAX_FRAME_BYTES {
        return Err(VisionError::PayloadTooLarge(n, MAX_FRAME_BYTES));
    }
    Ok(trim_end(line))
}

/// What is written comes back: a line framed from a message that does not end in
/// white space (as JSON text never does) reads back as that message, when it is
/// within the size limit.
pub proof fn law_frame_roundtrip(json: Seq<char>, bytes_read: nat)
    requires
        json.len() == 0 || !is_ws_spec(json.last()),
        bytes_read > 0,
        utf8_len(json.push('\n')) <= MAX_FRAME_BYTES,
    ensures
        frame_outcome(bytes_read, json.push('\n'), MAX_FRAME_BYTES as nat) == FrameOutcome::Message(
            json,
        ),
{
    let line = json.push('\n');
    assert(is_ws_spec('\n'));
    assert(line.drop_last() =~= json);
    assert(trim_end_spec(line) == trim_end_spec(json));
}

/// Reading a line: no bytes means the peer closed the connection; a line over the
/// limit in UTF-8 bytes is refused with its size; any other line is its message
/// with the trailing line ending and white space removed.
pub proof fn law_frame_reading(bytes_read: nat, line: Seq<char>, limit: nat)
    ensures
        bytes_read == 0 ==> frame_outcome(bytes_read, line, limit) == FrameOutcome::Closed,
        bytes_read > 0 && utf8_len(line) > limit ==> frame_outcome(bytes_read, line, limit)
            == FrameOutcome::TooLarge(utf8_len(line)),
        bytes_read > 0 && utf8_len(line) <= limit ==> frame_outcome(bytes_read, line, limit)
            == FrameOutcome::Message(trim_end_spec(line)),
{
}

} // verus!
