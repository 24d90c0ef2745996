//! The event vocabulary: a closed, bidirectional mapping between the
//! textual wire tokens and the typed event categories.

use vstd::prelude::*;
use vstd::utf8::{decode_utf8, valid_utf8};

verus! {

/// A socket lifecycle transition reported by a monitor worker.
#[derive(Debug, Clone, Copy, PartialEq, Eq, Structural)]
pub enum ZMonitorEvents {
    Connected,
    ConnectDelayed,
    ConnectRetried,
    Listening,
    BindFailed,
    Accepted,
    AcceptFailed,
    Closed,
    CloseFailed,
    Disconnected,
    MonitorStopped,
    All,
    Unknown,
}

/// The wire token that names an event category.
pub open spec fn token_of(e: ZMonitorEvents) -> Seq<char> {
    match e {
        ZMonitorEvents::Connected => "CONNECTED"@,
        ZMonitorEvents::ConnectDelayed => "CONNECT_DELAYED"@,
        ZMonitorEvents::ConnectRetried => "CONNECT_RETRIED"@,
        ZMonitorEvents::Listening => "LISTENING"@,
        ZMonitorEvents::BindFailed => "BIND_FAILED"@,
        ZMonitorEvents::Accepted => "ACCEPTED"@,
        ZMonitorEvents::AcceptFailed => "ACCEPT_FAILED"@,
        ZMonitorEvents::Closed => "CLOSED"@,
        ZMonitorEvents::CloseFailed => "CLOSE_FAILED"@,
        ZMonitorEvents::Disconnected => "DISCONNECTED"@,
        ZMonitorEvents::MonitorStopped => "MONITOR_STOPPED"@,
        ZMonitorEvents::All => "ALL"@,
        ZMonitorEvents::Unknown => "UNKNOWN"@,
    }
}

/// The event category that a wire token decodes to; every token outside
/// the known set decodes to `Unknown`.
pub open spec fn event_of(s: Seq<char>) -> ZMonitorEvents {
    if s == "CONNECTED"@ {
        ZMonitorEvents::Connected
    } else if s == "CONNECT_DELAYED"@ {
        ZMonitorEvents::ConnectDelayed
    } else if s == "CONNECT_RETRIED"@ {
        ZMonitorEvents::ConnectRetried
    } else if s == "LISTENING"@ {
        ZMonitorEvents::Listening
    } else if s == "BIND_FAILED"@ {
        ZMonitorEvents::BindFailed
    } else if s == "ACCEPTED"@ {
        ZMonitorEvents::Accepted
    } else if s == "ACCEPT_FAILED"@ {
        ZMonitorEvents::AcceptFailed
    } else if s == "CLOSED"@ {
        ZMonitorEvents::Closed
    } else if s == "CLOSE_FAILED"@ {
        ZMonitorEvents::CloseFailed
    } else if s == "DISCONNECTED"@ {
        ZMonitorEvents::Disconnected
    } else if s == "MONITOR_STOPPED"@ {
        ZMonitorEvents::MonitorStopped
    } else if s == "ALL"@ {
        ZMonitorEvents::All
    } else {
        ZMonitorEvents::Unknown
    }
}

/// The tokens that decode to a category other than `Unknown`.
pub open spec fn is_known_token(s: Seq<char>) -> bool {
    ||| s == "CONNECTED"@
    ||| s == "CONNECT_DELAYED"@
    ||| s == "CONNECT_RETRIED"@
    ||| s == "LISTENING"@
    ||| s == "BIND_FAILED"@
    ||| s == "ACCEPTED"@
    ||| s == "ACCEPT_FAILED"@
    ||| s == "CLOSED"@
    ||| s == "CLOSE_FAILED"@
    ||| s == "DISCONNECTED"@
    ||| s == "MONITOR_STOPPED"@
    ||| s == "ALL"@
}

/// Decoding the token of any category other than `Unknown` gives that
/// category back.
pub proof fn lemma_wire_round_trip(e: ZMonitorEvents)
    requires
        e != ZMonitorEvents::Unknown,
    ensures
        event_of(token_of(e)) == e,
        is_known_token(token_of(e)),
{
    reveal_strlit("CONNECTED");
    reveal_strlit("CONNECT_DELAYED");
    reveal_strlit("CONNECT_RETRIED");
    reveal_strlit("LISTENING");
    reveal_strlit("BIND_FAILED");
    reveal_strlit("ACCEPTED");
    reveal_strlit("ACCEPT_FAILED");
    reveal_strlit("CLOSED");
    reveal_strlit("CLOSE_FAILED");
    reveal_strlit("DISCONNECTED");
    reveal_strlit("MONITOR_STOPPED");
    reveal_strlit("ALL");
    match e {
        ZMonitorEvents::Connected => {

        },
        ZMonitorEvents::ConnectDelayed => {
            assert("CONNECT_DELAYED"@.len() != "CONNECTED"@.len());
        },
        ZMonitorEvents::ConnectRetried => {
            assert("CONNECT_RETRIED"@.len() != "CONNECTED"@.len());
            assert("CONNECT_RETRIED"@[8] != "CONNECT_DELAYED"@[8]);
        },
        ZMonitorEvents::Listening => {
            assert("LISTENING"@[0] != "CONNECTED"@[0]);
            assert("LISTENING"@.len() != "CONNECT_DELAYED"@.len());
            assert("LISTENING"@.len() != "CONNECT_RETRIED"@.len());
        },
        ZMonitorEvents::BindFailed => {
            assert("BIND_FAILED"@.len() != "CONNECTED"@.len());
            assert("BIND_FAILED"@.len() != "CONNECT_DELAYED"@.len());
            assert("BIND_FAILED"@.len() != "CONNECT_RETRIED"@.len());
            assert("BIND_FAILED"@.len() != "LISTENING"@.len());
        },
        ZMonitorEvents::Accepted => {
            assert("ACCEPTED"@.len() != "CONNECTED"@.len());
            assert("ACCEPTED"@.len() != "CONNECT_DELAYED"@.len());
            assert("ACCEPTED"@.len() != "CONNECT_RETRIED"@.len());
            assert("ACCEPTED"@.len() != "LISTENING"@.len());
            assert("ACCEPTED"@.len() != "BIND_FAILED"@.len());
        },
        ZMonitorEvents::AcceptFailed => {
            assert("ACCEPT_FAILED"@.len() != "CONNECTED"@.len());
            assert("ACCEPT_FAILED"@.len() != "CONNECT_DELAYED"@.len());
            assert("ACCEPT_FAILED"@.len() != "CONNECT_RETRIED"@.len());
            assert("ACCEPT_FAILED"@.len() != "LISTENING"@.len());
            assert("ACCEPT_FAILED"@.len() != "BIND_FAILED"@.len());
            assert("ACCEPT_FAILED"@.len() != "ACCEPTED"@.len());
        },
        ZMonitorEvents::Closed => {
            assert("CLOSED"@.len() != "CONNECTED"@.len());
            assert("CLOSED"@.len() != "CONNECT_DELAYED"@.len());
            assert("CLOSED"@.len() != "CONNECT_RETRIED"@.len());
            assert("CLOSED"@.len() != "LISTENING"@.len());
            assert("CLOSED"@.len() != "BIND_FAILED"@.len());
            assert("CLOSED"@.len() != "ACCEPTED"@.len());
            assert("CLOSED"@.len() != "ACCEPT_FAILED"@.len());
        },
        ZMonitorEvents::CloseFailed => {
            assert("CLOSE_FAILED"@.len() != "CONNECTED"@.len());
            assert("CLOSE_FAILED"@.len() != "CONNECT_DELAYED"@.len());
            assert("CLOSE_FAILED"@.len() != "CONNECT_RETRIED"@.len());
            assert("CLOSE_FAILED"@.len() != "LISTENING"@.len());
            assert("CLOSE_FAILED"@.len() != "BIND_FAILED"@.len());
            assert("CLOSE_FAILED"@.len() != "ACCEPTED"@.len());
            assert("CLOSE_FAILED"@.len() != "ACCEPT_FAILED"@.len());
            assert("CLOSE_FAILED"@.len() != "CLOSED"@.len());
        },
        ZMonitorEvents::Disconnected => {
            assert("DISCONNECTED"@.len() != "CONNECTED"@.len());
            assert("DISCONNECTED"@.len() != "CONNECT_DELAYED"@.len());
            assert("DISCONNECTED"@.len() != "CONNECT_RETRIED"@.len());
            assert("DISCONNECTED"@.len() != "LISTENING"@.len());
            assert("DISCONNECTED"@.len() != "BIND_FAILED"@.len());
            assert("DISCONNECTED"@.len() != "ACCEPTED"@.len());
            assert("DISCONNECTED"@.len() != "ACCEPT_FAILED"@.len());
            assert("DISCONNECTED"@.len() != "CLOSED"@.len());
            assert("DISCONNECTED"@[0] != "CLOSE_FAILED"@[0]);
        },
        ZMonitorEvents::MonitorStopped => {
            assert("MONITOR_STOPPED"@.len() != "CONNECTED"@.len());
            assert("MONITOR_STOPPED"@[0] != "CONNECT_DELAYED"@[0]);
            assert("MONITOR_STOPPED"@[0] != "CONNECT_RETRIED"@[0]);
            assert("MONITOR_STOPPED"@.len() != "LISTENING"@.len());
            assert("MONITOR_STOPPED"@.len() != "BIND_FAILED"@.len());
            assert("MONITOR_STOPPED"@.len() != "ACCEPTED"@.len());
            assert("MONITOR_STOPPED"@.len() != "ACCEPT_FAILED"@.len());
            assert("MONITOR_STOPPED"@.len() != "CLOSED"@.len());
            assert("MONITOR_STOPPED"@.len() != "CLOSE_FAILED"@.len());
            assert("MONITOR_STOPPED"@.len() != "DISCONNECTED"@.len());
        },
        ZMonitorEvents::All => {
            assert("ALL"@.len() != "CONNECTED"@.len());
            assert("ALL"@.len() != "CONNECT_DELAYED"@.len());
            assert("ALL"@.len() != "CONNECT_RETRIED"@.len());
            assert("ALL"@.len() != "LISTENING"@.len());
            assert("ALL"@.len() != "BIND_FAILED"@.len());
            assert("ALL"@.len() != "ACCEPTED"@.len());
            assert("ALL"@.len() != "ACCEPT_FAILED"@.len());
            assert("ALL"@.len() != "CLOSED"@.len());
            assert("ALL"@.len() != "CLOSE_FAILED"@.len());
            assert("ALL"@.len() != "DISCONNECTED"@.len());
            assert("ALL"@.len() != "MONITOR_STOPPED"@.len());
        },
        ZMonitorEvents::Unknown => {},
    }
}

/// Every string outside the known token set decodes to `Unknown`.
pub proof fn lemma_unrecognized_is_unknown(s: Seq<char>)
    requires
        !is_known_token(s),
    ensures
        event_of(s) == ZMonitorEvents::Unknown,
{
}

/// Character-wise equality of two string slices.
pub fn same_text(a: &str, b: &str) -> (r: bool)
    ensures
        r == (a@ == b@),
{
    let n = a.unicode_len();
    if n != b.unicode_len() {
        return false;
    }
    let mut i: usize = 0;
    while i < n
        invariant
            n == a@.len(),
            n == b@.len(),
            i <= n,
            a@.subrange(0, i as int) == b@.subrange(0, i as int),
        decreases n - i,
    {
        if a.get_char(i) != b.get_char(i) {
            return false;
        }
        assert(a@.subrange(0, i + 1) == a@.subrange(0, i as int).push(a@[i as int]));
        assert(b@.subrange(0, i + 1) == b@.subrange(0, i as int).push(b@[i as int]));
        i = i + 1;
    }
    assert(a@ == a@.subrange(0, n as int));
    assert(b@ == b@.subrange(0, n as int));
    true
}

impl ZMonitorEvents {
    /// The wire token of this category.
    pub fn to_str(&self) -> (r: &'static str)
        ensures
            r@ == token_of(*self),
    {
        match self {
            ZMonitorEvents::Connected => "CONNECTED",
            ZMonitorEvents::ConnectDelayed => "CONNECT_DELAYED",
            ZMonitorEvents::ConnectRetried => "CONNECT_RETRIED",
            ZMonitorEvents::Listening => "LISTENING",
            ZMonitorEvents::BindFailed => "BIND_FAILED",
            ZMonitorEvents::Accepted => "ACCEPTED",
            ZMonitorEvents::AcceptFailed => "ACCEPT_FAILED",
            ZMonitorEvents::Closed => "CLOSED",
            ZMonitorEvents::CloseFailed => "CLOSE_FAILED",
            ZMonitorEvents::Disconnected => "DISCONNECTED",
            ZMonitorEvents::MonitorStopped => "MONITOR_STOPPED",
            ZMonitorEvents::All => "ALL",
            ZMonitorEvents::Unknown => "UNKNOWN",
        }
    }

    /// Decodes a wire token; anything unrecognised becomes `Unknown`.
    pub fn from_str(event: &str) -> (r: ZMonitorEvents)
        ensures
            r == event_of(event@),
    {
        if same_text(event, "CONNECTED") {
            ZMonitorEvents::Connected
        } else if same_text(event, "CONNECT_DELAYED") {
            ZMonitorEvents::ConnectDelayed
        } else if same_text(event, "CONNECT_RETRIED") {
            ZMonitorEvents::ConnectRetried
        } else if same_text(event, "LISTENING") {
            ZMonitorEvents::Listening
        } else if same_text(event, "BIND_FAILED") {
            ZMonitorEvents::BindFailed
        } else if same_text(event, "ACCEPTED") {
            ZMonitorEvents::Accepted
        } else if same_text(event, "ACCEPT_FAILED") {
            ZMonitorEvents::AcceptFailed
        } else if same_text(event, "CLOSED") {
            ZMonitorEvents::Closed
        } else if same_text(event, "CLOSE_FAILED") {
            ZMonitorEvents::CloseFailed
        } else if same_text(event, "DISCONNECTED") {
            ZMonitorEvents::Disconnected
        } else if same_text(event, "MONITOR_STOPPED") {
            ZMonitorEvents::MonitorStopped
        } else if same_text(event, "ALL") {
            ZMonitorEvents::All
        } else {
            ZMonitorEvents::Unknown
        }
    }
    /// A human-readable description of this category.
    pub fn to_string(&self) -> (r: String)
        ensures
            r@ == "ZMonitorEvent: "@ + token_of(*self),
    {
        let mut out = String::from_str("ZMonitorEvent: ");
        out.append(self.to_str());
        out
    }
}

/// What an event frame holding the bytes `frame` yields: its category when
/// the bytes are text, the bytes themselves otherwise.
pub open spec fn event_frame_outcome(r: Result<ZMonitorEvents, Vec<u8>>, frame: Seq<u8>) -> bool {
    match r {
        Ok(e) => valid_utf8(frame) && e == event_of(decode_utf8(frame)),
        Err(raw) => !valid_utf8(frame) && raw@ == frame,
    }
}

/// Relies on String::from_utf8: it succeeds exactly on valid UTF-8, with the
/// decoded text, and its error gives the same bytes back through
/// FromUtf8Error::into_bytes.
#[verifier::external_body]
fn decode_text(bytes: Vec<u8>) -> (r: Result<String, Vec<u8>>)
    ensures
        match r {
            Ok(s) => valid_utf8(bytes@) && s@ == decode_utf8(bytes@),
            Err(raw) => !valid_utf8(bytes@) && raw@ == bytes@,
        },
{
    match String::from_utf8(bytes) {
        Ok(s) => Ok(s),
        Err(e) => Err(e.into_bytes()),
    }
}

/// Classifies an event frame that has already been decoded as text or kept
/// as raw bytes.
pub fn event_from_text(decoded: Result<String, Vec<u8>>) -> (r: Result<ZMonitorEvents, Vec<u8>>)
    ensures
        match decoded {
            Ok(s) => r == Ok::<ZMonitorEvents, Vec<u8>>(event_of(s@)),
            Err(raw) => r is Err && r->Err_0@ == raw@,
        },
{
    match decoded {
        Ok(s) => Ok(ZMonitorEvents::from_str(s.as_str())),
        Err(raw) => Err(raw),
    }
}

/// Classifies the first frame of an event message: text frames map to a
/// category (unrecognised text to `Unknown`), anything else is returned
/// verbatim.
pub fn decode_event(frame: Vec<u8>) -> (r: Result<ZMonitorEvents, Vec<u8>>)
    ensures
        event_frame_outcome(r, frame@),
{
    event_from_text(decode_text(frame))
}

/// A text frame outside the known token set yields `Unknown`, and a frame
/// that is not text yields its own bytes, never a failure.
pub proof fn lemma_event_frame_fallback(r: Result<ZMonitorEvents, Vec<u8>>, frame: Seq<u8>)
    requires
        event_frame_outcome(r, frame),
    ensures
        valid_utf8(frame) && !is_known_token(decode_utf8(frame)) ==> r == Ok::<
            ZMonitorEvents,
            Vec<u8>,
        >(ZMonitorEvents::Unknown),
        !valid_utf8(frame) ==> r is Err && r->Err_0@ == frame,
{
}

} // verus!
