//! Correlation of incoming frames with the command being awaited.
//!
//! The connection feeds every classified frame in; this decides what it
//! means: the awaited response, the awaited failure, or something to set
//! aside (an event, which is buffered, or a stale response, which is dropped).

use crate::logbuf::{pushed, pushed_all, LogBuffer, LogEntry, LogState};
use crate::proto::Frame;
use vstd::prelude::*;

verus! {

/// What one frame means for the command being awaited.
#[derive(Debug)]
pub enum Step {
    /// The awaited command succeeded with this body.
    Resolved(serde_json::Value),
    /// The awaited command failed with this message.
    Failed(String),
    /// Not the awaited command's frame: keep reading.
    Continue,
}

/// What stepping `frame` while awaiting command `want` returns.
pub open spec fn step_result(frame: Frame, want: u64) -> Step {
    match frame {
        Frame::Response { id, body } => if id == want {
            Step::Resolved(body)
        } else {
            Step::Continue
        },
        Frame::Error { id, message } => if id == want {
            Step::Failed(message)
        } else {
            Step::Continue
        },
        Frame::Event { .. } => Step::Continue,
    }
}

/// The event buffer after stepping `frame`: an event is appended, any other
/// frame leaves it as it was.
pub open spec fn step_log(frame: Frame, log: LogState) -> LogState {
    match frame {
        Frame::Event { method, params } => pushed(log, LogEntry { method, params }),
        _ => log,
    }
}

/// Decides what `frame` means while command `want` is awaited, buffering it
/// in `log` when it is an event.
pub fn step(frame: Frame, want: u64, log: &mut LogBuffer) -> (r: Step)
    ensures
        r == step_result(frame, want),
        final(log)@ == step_log(frame, old(log)@),
{
    match frame {
        Frame::Response { id, body } => {
            if id == want {
                Step::Resolved(body)
            } else {
                Step::Continue
            }
        },
        Frame::Error { id, message } => {
            if id == want {
                Step::Failed(message)
            } else {
                Step::Continue
            }
        },
        Frame::Event { method, params } => {
            log.push(LogEntry { method, params });
            Step::Continue
        },
    }
}

/// Only the awaited command's own response or error ends the wait: every
/// other frame, whatever it holds, means "keep reading".
pub proof fn lemma_only_awaited_frames_end_the_wait(frame: Frame, want: u64)
    ensures
        !(step_result(frame, want) is Continue) ==> match frame {
            Frame::Response { id, .. } => id == want,
            Frame::Error { id, .. } => id == want,
            Frame::Event { .. } => false,
        },
        step_result(frame, want) is Resolved ==> frame is Response,
        step_result(frame, want) is Failed ==> frame is Error,
{
}

/// Frames that are not events never touch the event buffer, and an event is
/// always buffered.
pub proof fn lemma_only_events_are_buffered(frame: Frame, log: LogState)
    ensures
        !(frame is Event) ==> step_log(frame, log) == log,
        frame matches Frame::Event { method, params } ==> step_log(frame, log) == pushed(
            log,
            LogEntry { method, params },
        ),
{
}

/// An event that arrives before the awaited response does not take its
/// place: the event is buffered and the wait goes on, and the response that
/// follows still resolves the command.
pub proof fn lemma_event_does_not_steal_response(
    event: Frame,
    response: Frame,
    want: u64,
    log: LogState,
)
    requires
        event is Event,
        response matches Frame::Response { id, .. } && id == want,
    ensures
        step_result(event, want) is Continue,
        step_result(response, want) is Resolved,
        step_log(response, step_log(event, log)) == step_log(event, log),
        step_log(event, log).entries.len() > 0,
{
}

/// The events among `frames`, in arrival order, as buffer entries.
pub open spec fn events_of(frames: Seq<Frame>) -> Seq<LogEntry>
    decreases frames.len(),
{
    if frames.len() == 0 {
        Seq::empty()
    } else {
        events_of(frames.drop_last()) + match frames.last() {
            Frame::Event { method, params } => seq![LogEntry { method, params }],
            _ => Seq::empty(),
        }
    }
}

/// The event buffer after stepping every frame of `frames`, in order.
pub open spec fn log_after(frames: Seq<Frame>, log: LogState) -> LogState
    decreases frames.len(),
{
    if frames.len() == 0 {
        log
    } else {
        step_log(frames.last(), log_after(frames.drop_last(), log))
    }
}

/// However frames interleave while a command is awaited, the buffer ends up
/// as if exactly the events among them had been pushed, in arrival order;
/// responses and errors, awaited or stale, leave no trace in it.
pub proof fn lemma_buffer_holds_events_in_order(frames: Seq<Frame>, log: LogState)
    ensures
        log_after(frames, log) == pushed_all(log, events_of(frames)),
    decreases frames.len(),
{
    if frames.len() > 0 {
        let init = frames.drop_last();
        lemma_buffer_holds_events_in_order(init, log);
        match frames.last() {
            Frame::Event { method, params } => {
                let es = events_of(frames);
                assert(es.drop_last() =~= events_of(init));
                assert(es.last() == LogEntry { method, params });
            },
            _ => {
                assert(events_of(frames) =~= events_of(init));
            },
        }
    }
}

/// The wait for command `want` ends at the first frame that is its response
/// or error, and at no earlier one: every frame before it, whatever it is,
/// leaves the wait going.
pub proof fn lemma_wait_ends_at_first_awaited_frame(frames: Seq<Frame>, want: u64, k: int)
    requires
        0 <= k < frames.len(),
        forall|i: int| 0 <= i < k ==> match #[trigger] frames[i] {
            Frame::Response { id, .. } => id != want,
            Frame::Error { id, .. } => id != want,
            Frame::Event { .. } => true,
        },
        match frames[k] {
            Frame::Response { id, .. } => id == want,
            Frame::Error { id, .. } => id == want,
            Frame::Event { .. } => false,
        },
    ensures
        forall|i: int| 0 <= i < k ==> #[trigger] step_result(frames[i], want) is Continue,
        !(step_result(frames[k], want) is Continue),
{
    assert forall|i: int| 0 <= i < k implies #[trigger] step_result(frames[i], want) is Continue by {
        match frames[i] {
            Frame::Response { id, .. } => {},
            Frame::Error { id, .. } => {},
            Frame::Event { .. } => {},
        }
    }
}

/// The awaited command's own frame ends the wait with what it carries: its
/// response resolves with the response body, its error fails with the error
/// message; the same frames for any other command leave the wait going.
pub proof fn lemma_awaited_frame_ends_the_wait_with_its_content(frame: Frame, want: u64)
    ensures
        frame matches Frame::Response { id, body } ==> (id == want ==> step_result(frame, want)
            == Step::Resolved(body)) && (id != want ==> step_result(frame, want) is Continue),
        frame matches Frame::Error { id, message } ==> (id == want ==> step_result(frame, want)
            == Step::Failed(message)) && (id != want ==> step_result(frame, want) is Continue),
        frame is Event ==> step_result(frame, want) is Continue,
{
}

} // verus!
