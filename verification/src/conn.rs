//! The state of one BiDi connection, and the decisions of its command loop.
//!
//! The connection itself (runtime, socket, timeouts) is driven from outside
//! the library; what it decides stands here: which identifier a command gets
//! and what its text is, what each incoming message means for the command
//! being awaited, and what the session handshake reads from its replies.

use crate::caps::CapSet;
use crate::demux::{step, step_log, step_result, Step};
use crate::logbuf::{drain_count, drained, effective_cap, log_wf, Drained, LogBuffer, LogState};
use crate::proto::{command, command_text, proto_error_text, Frame, ProtoError};
use crate::reply::{first_context, reply_first_context, reply_str_member, str_member};
use crate::tools::Request;
use vstd::prelude::*;

verus! {

/// How a session is opened: the endpoint, the per-command timeout, the bound
/// of the console buffer, and the capability classes granted.
pub struct ConnConfig {
    pub host: String,
    pub port: u16,
    pub path: String,
    pub timeout_ms: u32,
    pub log_buffer_cap: u32,
    pub caps: CapSet,
}

/// One message as the socket delivered it, reduced to what the command loop
/// decides on.
pub enum Incoming {
    /// A text or binary message, classified as a frame.
    Frame(Result<Frame, ProtoError>),
    /// The peer closed the socket, or the stream ended.
    Closed,
    /// A control message (ping, pong, raw frame): nothing to decide.
    Ignored,
}

/// The abstract state of a connection.
pub struct ConnView {
    pub next_id: nat,
    pub log: LogState,
    pub caps: Seq<crate::caps::BrowserCap>,
    pub session_id: Seq<char>,
    pub context: Seq<char>,
}

/// The message with which a command fails when the socket closes under it.
pub open spec fn closed_message() -> Seq<char> {
    "websocket closed by peer"@
}

/// The message with which the handshake fails when the endpoint names no
/// browsing context.
pub open spec fn no_context_message() -> Seq<char> {
    "BiDi endpoint returned no browsing context"@
}

/// The per-connection state: the identifier of the next command, the buffer
/// of events, the granted capabilities, the BiDi session identifier and the
/// browsing context that commands address.
pub struct ConnState {
    next_id: u64,
    log: LogBuffer,
    caps: CapSet,
    bidi_session_id: String,
    context: String,
}

impl View for ConnState {
    type V = ConnView;

    closed spec fn view(&self) -> ConnView {
        ConnView {
            next_id: self.next_id as nat,
            log: self.log@,
            caps: self.caps@,
            session_id: self.bidi_session_id@,
            context: self.context@,
        }
    }
}

impl ConnState {
    /// A fresh connection state: the first command gets identifier 1, the
    /// event buffer is empty and bounded by `log_buffer_cap` (at least one),
    /// and neither a session nor a browsing context is known yet.
    pub fn new(log_buffer_cap: u32, caps: CapSet) -> (r: ConnState)
        ensures
            r@.next_id == 1,
            r@.log.entries.len() == 0,
            r@.log.cap == effective_cap(log_buffer_cap as nat),
            r@.log.dropped == 0,
            log_wf(r@.log),
            r@.caps == caps@,
            r@.session_id.len() == 0,
            r@.context.len() == 0,
    {
        ConnState {
            next_id: 1,
            log: LogBuffer::new(log_buffer_cap as usize),
            caps,
            bidi_session_id: String::new(),
            context: String::new(),
        }
    }

    /// The capability classes granted to this session.
    pub fn caps(&self) -> (r: &CapSet)
        ensures
            r@ == self@.caps,
    {
        &self.caps
    }

    /// The browsing context that commands address.
    pub fn context(&self) -> (r: &str)
        ensures
            r@ == self@.context,
    {
        self.context.as_str()
    }

    /// The BiDi session identifier from the handshake (empty when the
    /// endpoint named none).
    pub fn session_id(&self) -> (r: &str)
        ensures
            r@ == self@.session_id,
    {
        self.bidi_session_id.as_str()
    }

    /// The identifier that the next command will get.
    pub fn next_id(&self) -> (r: u64)
        ensures
            r == self@.next_id,
    {
        self.next_id
    }

    /// Makes `ctx` the browsing context that commands address.
    pub fn set_context(&mut self, ctx: String)
        ensures
            final(self)@ == (ConnView { context: ctx@, ..old(self)@ }),
    {
        self.context = ctx;
    }

    /// Takes buffered events, as `LogBuffer::drain` does.
    pub fn drain_log(&mut self, max: Option<usize>) -> (r: Drained)
        ensures
            final(self)@ == (ConnView { log: drained(old(self)@.log, max), ..old(self)@ }),
            r.entries@ == old(self)@.log.entries.take(drain_count(old(self)@.log, max) as int),
            r.dropped == old(self)@.log.dropped,
    {
        self.log.drain(max)
    }

    /// Starts a command: hands out the next identifier and the text to send.
    /// Identifiers count up from 1, so no two commands of a connection share one.
    pub fn begin_command(&mut self, req: &Request) -> (r: (u64, String))
        requires
            old(self)@.next_id < u64::MAX,
        ensures
            r.0 == old(self)@.next_id,
            r.1@ == command_text(r.0 as nat, req.method@, req.params@),
            final(self)@ == (ConnView { next_id: old(self)@.next_id + 1, ..old(self)@ }),
    {
        let id = self.next_id;
        self.next_id = self.next_id + 1;
        let payload = command(id, req.method.as_str(), req.params.as_str());
        (id, payload)
    }

    /// Decides what one incoming message means while command `want`, sent as
    /// `method`, is awaited. `None` means "keep reading"; `Some` ends the wait
    /// with the command's result or the failure to report.
    pub fn on_incoming(&mut self, want: u64, method: &str, msg: Incoming) -> (r: Option<
        Result<serde_json::Value, String>,
    >)
        ensures
            match msg {
                Incoming::Ignored => r is None && final(self)@ == old(self)@,
                Incoming::Closed => r matches Some(Err(m)) && m@ == closed_message()
                    && final(self)@ == old(self)@,
                Incoming::Frame(Err(e)) => r matches Some(Err(m)) && m@ == proto_error_text(e)
                    && final(self)@ == old(self)@,
                Incoming::Frame(Ok(frame)) => final(self)@ == (ConnView {
                    log: step_log(frame, old(self)@.log),
                    ..old(self)@
                }) && match step_result(frame, want) {
                    Step::Resolved(v) => r == Some(Ok::<serde_json::Value, String>(v)),
                    Step::Failed(m) => r matches Some(Err(t)) && t@ == method@ + ": "@ + m@,
                    Step::Continue => r is None,
                },
            },
    {
        proof {
            reveal_strlit("websocket closed by peer");
            reveal_strlit(": ");
        }
        match msg {
            Incoming::Ignored => None,
            Incoming::Closed => Some(Err(String::from_str("websocket closed by peer"))),
            Incoming::Frame(Err(e)) => Some(Err(e.message())),
            Incoming::Frame(Ok(frame)) => {
                match step(frame, want, &mut self.log) {
                    Step::Resolved(v) => Some(Ok(v)),
                    Step::Failed(m) => {
                        let text = String::from_str(method).concat(": ").concat(m.as_str());
                        Some(Err(text))
                    },
                    Step::Continue => None,
                }
            },
        }
    }

    /// Records the session identifier that `session.new` answered with, or
    /// the empty string when the reply names none.
    pub fn set_session_id(&mut self, session_id: Option<String>)
        ensures
            final(self)@ == (ConnView {
                session_id: match session_id {
                    Some(s) => s@,
                    None => Seq::<char>::empty(),
                },
                ..old(self)@
            }),
    {
        self.bidi_session_id = match session_id {
            Some(s) => s,
            None => String::new(),
        };
    }

    /// Makes the first browsing context of the endpoint's tree the one that
    /// commands address; fails when the tree names none.
    pub fn adopt_first_context(&mut self, first: Option<String>) -> (r: Result<(), String>)
        ensures
            match first {
                Some(c) => r is Ok && final(self)@ == (ConnView { context: c@, ..old(self)@ }),
                None => r matches Err(m) && m@ == no_context_message() && final(self)@
                    == old(self)@,
            },
    {
        match first {
            Some(c) => {
                self.context = c;
                Ok(())
            },
            None => {
                proof {
                    reveal_strlit("BiDi endpoint returned no browsing context");
                }
                Err(String::from_str("BiDi endpoint returned no browsing context"))
            },
        }
    }

    /// Makes a newly created browsing context current, when the reply to
    /// `browsingContext.create` names one; otherwise keeps the current one.
    pub fn adopt_created_context(&mut self, created: Option<String>)
        ensures
            match created {
                Some(c) => final(self)@ == (ConnView { context: c@, ..old(self)@ }),
                None => final(self)@ == old(self)@,
            },
    {
        if let Some(c) = created {
            self.context = c;
        }
    }
}

/// The arguments with which a session is opened. Absent arguments take the
/// defaults below; an absent `allow` grants every capability class.
pub struct OpenArgs {
    pub host: String,
    pub port: u16,
    pub path: String,
    pub timeout_ms: u32,
    pub log_buffer_cap: u32,
    pub allow: Option<Vec<crate::caps::BrowserCap>>,
}

/// The host dialled when none is given.
pub fn default_host() -> (r: String)
    ensures
        r@ == "127.0.0.1"@,
{
    String::from_str("127.0.0.1")
}

/// The WebSocket path used when none is given.
pub fn default_path() -> (r: String)
    ensures
        r@ == "/session"@,
{
    String::from_str("/session")
}

/// The per-command timeout, in milliseconds, used when none is given.
pub fn default_timeout() -> (r: u32)
    ensures
        r == 30_000,
{
    30_000
}

/// The bound of the console buffer used when none is given.
pub fn default_log_cap() -> (r: u32)
    ensures
        r == 1000,
{
    1000
}

impl ConnConfig {
    /// The configuration that opening a session with `args` uses: the
    /// endpoint and bounds as given, and the listed capability classes, or
    /// all of them when none are listed.
    pub fn from_open_args(args: OpenArgs) -> (r: ConnConfig)
        ensures
            r.host == args.host,
            r.port == args.port,
            r.path == args.path,
            r.timeout_ms == args.timeout_ms,
            r.log_buffer_cap == args.log_buffer_cap,
            r.caps@ == match args.allow {
                Some(list) => list@,
                None => crate::caps::all_caps(),
            },
    {
        let caps = match args.allow {
            Some(list) => CapSet::from_list(list),
            None => CapSet::all(),
        };
        ConnConfig {
            host: args.host,
            port: args.port,
            path: args.path,
            timeout_ms: args.timeout_ms,
            log_buffer_cap: args.log_buffer_cap,
            caps,
        }
    }
}

/// The budget a command has left, in milliseconds, `elapsed` after it
/// started under a timeout of `timeout`: `None` once it has run out.
pub open spec fn budget_left(timeout: nat, elapsed: nat) -> Option<nat> {
    if elapsed < timeout {
        Some((timeout - elapsed) as nat)
    } else {
        None
    }
}

/// How long a command may still wait, in milliseconds, when `elapsed_ms`
/// have passed since it was started under a per-command timeout of
/// `timeout_ms`: the rest of the timeout, or `None` once it has run out.
/// Every wait of one command (sending it, and each read until its reply)
/// draws on the same budget, so frames for other commands cannot keep a
/// command waiting past its timeout.
pub fn time_left(timeout_ms: u32, elapsed_ms: u64) -> (r: Option<u64>)
    ensures
        match r {
            Some(left) => budget_left(timeout_ms as nat, elapsed_ms as nat) == Some(left as nat),
            None => budget_left(timeout_ms as nat, elapsed_ms as nat) is None,
        },
{
    if elapsed_ms < timeout_ms as u64 {
        Some(timeout_ms as u64 - elapsed_ms)
    } else {
        None
    }
}

/// The message with which a command fails when its timeout runs out before
/// it has been sent.
pub fn send_timeout_message(method: &str) -> (r: String)
    ensures
        r@ == "timed out sending "@ + method@,
{
    proof {
        reveal_strlit("timed out sending ");
    }
    String::from_str("timed out sending ").concat(method)
}

/// The message with which a command fails when its timeout runs out before
/// its reply arrives.
pub fn reply_timeout_message(method: &str) -> (r: String)
    ensures
        r@ == "timed out awaiting response to "@ + method@,
{
    proof {
        reveal_strlit("timed out awaiting response to ");
    }
    String::from_str("timed out awaiting response to ").concat(method)
}

/// A command's waits never outlast its timeout: as time passes the budget
/// left only shrinks, and once it is gone it stays gone.
pub proof fn lemma_budget_only_shrinks(timeout: nat, earlier: nat, later: nat)
    requires
        earlier <= later,
    ensures
        budget_left(timeout, later) matches Some(l) ==> budget_left(timeout, earlier) matches Some(
            e,
        ) && l <= e,
        budget_left(timeout, earlier) is None ==> budget_left(timeout, later) is None,
        budget_left(timeout, earlier + timeout) is None,
{
}

impl ConnState {
    /// Records the session identifier from the reply to `session.new`: its
    /// `sessionId` member, or the empty string when it has none.
    pub fn adopt_session_reply(&mut self, reply: &serde_json::Value)
        ensures
            final(self)@ == (ConnView {
                session_id: match reply_str_member(*reply, "sessionId"@) {
                    Some(s) => s,
                    None => Seq::<char>::empty(),
                },
                ..old(self)@
            }),
    {
        let id = str_member(reply, "sessionId");
        self.set_session_id(id);
    }

    /// Makes the first browsing context of a `browsingContext.getTree` reply
    /// the one that commands address; fails when the reply names none.
    pub fn adopt_tree_reply(&mut self, reply: &serde_json::Value) -> (r: Result<(), String>)
        ensures
            match reply_first_context(*reply) {
                Some(c) => r is Ok && final(self)@ == (ConnView { context: c, ..old(self)@ }),
                None => r is Err && r->Err_0@ == no_context_message() && final(self)@ == old(
                    self,
                )@,
            },
    {
        let first = first_context(reply);
        self.adopt_first_context(first)
    }

    /// Makes the context named by a `browsingContext.create` reply current,
    /// when the reply's `context` member names one.
    pub fn adopt_create_reply(&mut self, reply: &serde_json::Value)
        ensures
            match reply_str_member(*reply, "context"@) {
                Some(c) => final(self)@ == (ConnView { context: c, ..old(self)@ }),
                None => final(self)@ == old(self)@,
            },
    {
        let created = str_member(reply, "context");
        self.adopt_created_context(created);
    }
}

/// A command may wait until exactly its timeout: before then the budget left
/// is the timeout less the time already spent; from then on nothing is left.
pub proof fn lemma_budget_runs_out_exactly_at_timeout(timeout: nat, elapsed: nat)
    ensures
        elapsed < timeout ==> budget_left(timeout, elapsed) == Some((timeout - elapsed) as nat),
        elapsed >= timeout ==> budget_left(timeout, elapsed) is None,
        budget_left(timeout, 0) == (if timeout > 0 { Some(timeout) } else { None::<nat> }),
{
}

} // verus!
