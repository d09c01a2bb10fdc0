//! The session bridge's decision logic: admission of at most one live
//! bridge session, and the handling of each inbound transport frame.
//!
//! The surrounding actor runs two pumps — process output to transport,
//! transport input to process — and consults this module for what each
//! frame requires: what to write to the process's stdin, what to hand the
//! intercept pipeline, and what to send straight back over the transport.

use vstd::prelude::*;
use vstd::string::*;
use crate::codec::{byte_len_chars, wrap_lsp_message, wrapped_chars};

verus! {

/// Process-wide admission state: whether a bridge session is live.
pub struct SessionGuard {
    active: bool,
}

/// How one admission attempt relates the guard's states and its outcome:
/// the attempt succeeds exactly when no session was active, and afterwards
/// a session is active either way.
pub open spec fn try_open_transition(pre: SessionGuard, post: SessionGuard, granted: bool) -> bool {
    &&& granted == !pre.is_active()
    &&& post.is_active()
}

impl SessionGuard {
    /// Whether a bridge session is currently admitted.
    pub closed spec fn is_active(&self) -> bool {
        self.active
    }

    /// A fresh guard with no session admitted.
    pub fn new() -> (g: SessionGuard)
        ensures
            !g.is_active(),
    {
        SessionGuard { active: false }
    }

    /// Attempts to admit a new bridge session.  Succeeds exactly when no
    /// session is active; a rejected attempt changes nothing observable and
    /// the caller must close the new connection without side effects.
    pub fn try_open(&mut self) -> (granted: bool)
        ensures
            try_open_transition(*old(self), *final(self), granted),
            granted == !old(self).is_active(),
            final(self).is_active(),
    {
        if self.active {
            false
        } else {
            self.active = true;
            true
        }
    }

    /// Releases the guard when the admitted session closes, so a later
    /// connection attempt can be admitted again.  (The flag is reset here
    /// deliberately: leaving it set forever would turn the one-session rule
    /// into a one-session-per-process-lifetime rule.)
    pub fn close(&mut self)
        ensures
            !final(self).is_active(),
    {
        self.active = false;
    }
}

/// At most one admission ever succeeds while a session is active: of two
/// consecutive attempts, the second always fails, and no attempt succeeds
/// while the guard is already active.
pub proof fn lemma_single_active_session(
    g0: SessionGuard,
    g1: SessionGuard,
    g2: SessionGuard,
    granted1: bool,
    granted2: bool,
)
    requires
        try_open_transition(g0, g1, granted1),
        try_open_transition(g1, g2, granted2),
    ensures
        !granted2,
        !(granted1 && granted2),
        g0.is_active() ==> !granted1,
{
}

/// One inbound transport frame, as the bridge sees it.
pub enum TransportMessage {
    /// A text frame carrying one complete logical message.
    Text(String),
    /// A binary frame; echoed back unchanged.
    Binary(Vec<u8>),
    /// A ping control frame; answered with a pong.
    Ping(Vec<u8>),
    /// Anything else; ignored.
    Other,
}

/// What the bridge must do with one inbound frame.  Forwarding and
/// interception are independent actions run concurrently; neither may wait
/// for the other.
pub struct BridgeDirective {
    /// The framed bytes to write to the process's stdin, if any.
    pub forward: Option<String>,
    /// The raw text to hand the intercept pipeline, if any.
    pub intercept: Option<String>,
    /// A binary payload to echo back over the transport, if any.
    pub echo: Option<Vec<u8>>,
    /// A pong payload to answer a ping with, if any.
    pub pong: Option<Vec<u8>>,
}

/// Decides what one inbound frame requires.  A text frame is always both
/// forwarded (in wire framing) and offered to interception; whether the
/// text parses as a protocol message plays no part here, so a malformed
/// message still reaches the process byte for byte.
pub fn handle_transport_message(msg: TransportMessage) -> (d: BridgeDirective)
    requires
        msg matches TransportMessage::Text(t) ==> byte_len_chars(t@) <= usize::MAX,
    ensures
        match msg {
            TransportMessage::Text(t) => {
                &&& d.forward matches Some(f) && f@ == wrapped_chars(t@)
                &&& d.intercept matches Some(s) && s@ == t@
                &&& d.echo is None
                &&& d.pong is None
            },
            TransportMessage::Binary(b) => {
                &&& d.echo matches Some(e) && e@ == b@
                &&& d.forward is None
                &&& d.intercept is None
                &&& d.pong is None
            },
            TransportMessage::Ping(p) => {
                &&& d.pong matches Some(q) && q@ == p@
                &&& d.forward is None
                &&& d.intercept is None
                &&& d.echo is None
            },
            TransportMessage::Other => {
                &&& d.forward is None
                &&& d.intercept is None
                &&& d.echo is None
                &&& d.pong is None
            },
        },
{
    match msg {
        TransportMessage::Text(t) => {
            let framed = wrap_lsp_message(t.as_str());
            BridgeDirective { forward: Some(framed), intercept: Some(t), echo: None, pong: None }
        },
        TransportMessage::Binary(b) => BridgeDirective {
            forward: None,
            intercept: None,
            echo: Some(b),
            pong: None,
        },
        TransportMessage::Ping(p) => BridgeDirective {
            forward: None,
            intercept: None,
            echo: None,
            pong: Some(p),
        },
        TransportMessage::Other => BridgeDirective {
            forward: None,
            intercept: None,
            echo: None,
            pong: None,
        },
    }
}

/// Turns one read from the process's output into the outbound transport
/// text: a line read successfully is relayed unchanged, a failed read
/// becomes the given diagnostic instead of being dropped.
pub fn relay_line(line: Option<String>, read_error_text: &str) -> (out: String)
    ensures
        match line {
            Some(l) => out@ == l@,
            None => out@ == read_error_text@,
        },
{
    match line {
        Some(l) => l,
        None => String::from_str(read_error_text),
    }
}

} // verus!
