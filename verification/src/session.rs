use crate::client_message::{ClientMessage, MessageModel};
use vstd::prelude::*;

verus! {

/// Delay, in milliseconds, between a framebuffer update request and the frame
/// sent in answer to it.
pub const FRAME_DELAY_MS: u64 = 1000;

/// What the session asks the connection to do after an event.
#[derive(Debug, Clone, Copy, PartialEq, Eq, Structural)]
pub enum SessionAction {
    /// End the session: the client broke the protocol or went away.
    Stop,
    /// Note the time of the client's latest input event.
    RecordActivity,
    /// Send a frame once `delay_ms` milliseconds have passed, replacing any
    /// deadline set before.
    ScheduleFrame { delay_ms: u64 },
    /// Send a framebuffer update now and note the time of sending.
    SendFrame { incremental: bool },
    /// Nothing to do.
    Ignore,
}

/// What the reader of the client's stream does after one read.
#[derive(Debug, Clone, Copy, PartialEq, Eq, Structural)]
pub enum ReaderAction {
    /// Append the `usize` bytes just read to the buffer and decode what it holds.
    Decode(usize),
    /// Report an `Unknown` message to the session and stop reading.
    Disconnect,
}

/// The reader's decision after a read that returned `bytes_read` bytes, or
/// failed when `None`: the end of the stream and a failed read both end it.
pub open spec fn on_read_spec(bytes_read: Option<usize>) -> ReaderAction {
    match bytes_read {
        Some(n) => if n == 0 {
            ReaderAction::Disconnect
        } else {
            ReaderAction::Decode(n)
        },
        None => ReaderAction::Disconnect,
    }
}

/// Decides what the reader does after a read: see [`on_read_spec`].
pub fn on_read(bytes_read: Option<usize>) -> (a: ReaderAction)
    ensures
        a == on_read_spec(bytes_read),
{
    match bytes_read {
        Some(0) => ReaderAction::Disconnect,
        Some(n) => ReaderAction::Decode(n),
        None => ReaderAction::Disconnect,
    }
}

/// An event of a running session.
pub enum SessionEvent {
    /// A message from the client's reader, `None` once the reader is gone.
    Message(Option<MessageModel>),
    /// The deadline of a scheduled frame has passed.
    FrameDue,
}

/// The state of a running session: whether a frame has been scheduled and not
/// yet sent.
pub struct Session {
    frame_pending: bool,
}

/// The state and action that follow the message `msg` when a frame is pending
/// exactly when `pending`.
pub open spec fn on_message_spec(pending: bool, msg: Option<MessageModel>) -> (bool, SessionAction) {
    match msg {
        Some(MessageModel::Unknown) => (pending, SessionAction::Stop),
        Some(MessageModel::KeyEvent { .. }) => (pending, SessionAction::RecordActivity),
        Some(MessageModel::PointerEvent { .. }) => (pending, SessionAction::RecordActivity),
        Some(MessageModel::FramebufferUpdateRequest { .. }) => (
            true,
            SessionAction::ScheduleFrame { delay_ms: FRAME_DELAY_MS },
        ),
        _ => (pending, SessionAction::Ignore),
    }
}

/// The state and action that follow the passing of a frame's deadline.
pub open spec fn on_frame_due_spec(pending: bool) -> (bool, SessionAction) {
    if pending {
        (false, SessionAction::SendFrame { incremental: false })
    } else {
        (false, SessionAction::Ignore)
    }
}

/// The state and action that follow `event`.
pub open spec fn on_event_spec(pending: bool, event: SessionEvent) -> (bool, SessionAction) {
    match event {
        SessionEvent::Message(m) => on_message_spec(pending, m),
        SessionEvent::FrameDue => on_frame_due_spec(pending),
    }
}

/// Runs a session from `pending` through `events`: the final pending flag and
/// the actions taken, one per event.
pub open spec fn run_session(pending: bool, events: Seq<SessionEvent>) -> (bool, Seq<SessionAction>)
    decreases events.len(),
{
    if events.len() == 0 {
        (pending, Seq::empty())
    } else {
        let (next, action) = on_event_spec(pending, events[0]);
        let (last, actions) = run_session(next, events.drop_first());
        (last, seq![action] + actions)
    }
}

/// How many of `actions` send a frame.
pub open spec fn frames_sent(actions: Seq<SessionAction>) -> nat
    decreases actions.len(),
{
    if actions.len() == 0 {
        0
    } else {
        (if actions[0] is SendFrame {
            1nat
        } else {
            0nat
        }) + frames_sent(actions.drop_first())
    }
}

/// How many of `events` are framebuffer update requests.
pub open spec fn frames_requested(events: Seq<SessionEvent>) -> nat
    decreases events.len(),
{
    if events.len() == 0 {
        0
    } else {
        (if events[0] matches SessionEvent::Message(Some(MessageModel::FramebufferUpdateRequest { .. })) {
            1nat
        } else {
            0nat
        }) + frames_requested(events.drop_first())
    }
}

/// The value of a message that may be absent.
pub open spec fn received_view(msg: Option<&ClientMessage>) -> Option<MessageModel> {
    match msg {
        Some(m) => Some(m@),
        None => None,
    }
}

/// 1 for `true`, 0 for `false`.
pub open spec fn flag(b: bool) -> nat {
    if b {
        1
    } else {
        0
    }
}

impl Session {
    /// Whether a frame has been scheduled and not yet sent.
    pub closed spec fn pending(&self) -> bool {
        self.frame_pending
    }

    /// A session that has nothing scheduled.
    pub fn new() -> (s: Session)
        ensures
            !s.pending(),
    {
        Session { frame_pending: false }
    }

    /// Whether a frame has been scheduled and not yet sent.
    pub fn frame_pending(&self) -> (b: bool)
        ensures
            b == self.pending(),
    {
        self.frame_pending
    }

    /// Acts on a message from the client's reader: an unknown message ends the
    /// session, an input event is noted, a framebuffer update request schedules
    /// a frame, and anything else, a closed reader included, is ignored.
    pub fn on_message(&mut self, msg: Option<&ClientMessage>) -> (a: SessionAction)
        ensures
            (final(self).pending(), a) == on_message_spec(old(self).pending(), received_view(msg)),
    {
        match msg {
            Some(ClientMessage::Unknown) => SessionAction::Stop,
            Some(ClientMessage::KeyEvent { .. }) => SessionAction::RecordActivity,
            Some(ClientMessage::PointerEvent { .. }) => SessionAction::RecordActivity,
            Some(ClientMessage::FramebufferUpdateRequest { .. }) => {
                self.frame_pending = true;
                SessionAction::ScheduleFrame { delay_ms: FRAME_DELAY_MS }
            },
            _ => SessionAction::Ignore,
        }
    }

    /// Acts on the passing of a frame's deadline: a pending frame is sent in
    /// full and nothing stays pending.
    pub fn on_frame_due(&mut self) -> (a: SessionAction)
        ensures
            (final(self).pending(), a) == on_frame_due_spec(old(self).pending()),
    {
        if self.frame_pending {
            self.frame_pending = false;
            SessionAction::SendFrame { incremental: false }
        } else {
            SessionAction::Ignore
        }
    }
}

/// Frames are sent only in answer to requests: over any run of events, the
/// frames sent plus the one still pending never outnumber the requests
/// received plus the one pending at the start.
pub proof fn lemma_frames_follow_requests(pending: bool, events: Seq<SessionEvent>)
    ensures
        frames_sent(run_session(pending, events).1) + flag(run_session(pending, events).0)
            <= frames_requested(events) + flag(pending),
    decreases events.len(),
{
    if events.len() > 0 {
        let (next, action) = on_event_spec(pending, events[0]);
        lemma_frames_follow_requests(next, events.drop_first());
        let (last, actions) = run_session(next, events.drop_first());
        assert((seq![action] + actions)[0] == action);
        assert((seq![action] + actions).drop_first() =~= actions);
    }
}

/// A run takes one action per event.
proof fn lemma_run_session_len(pending: bool, events: Seq<SessionEvent>)
    ensures
        run_session(pending, events).1.len() == events.len(),
    decreases events.len(),
{
    if events.len() > 0 {
        let (next, action) = on_event_spec(pending, events[0]);
        lemma_run_session_len(next, events.drop_first());
    }
}

/// A message the session takes no step on beyond noting it: an input event, a
/// SetEncodings, a SetPixelFormat or a ClientCutText.
pub open spec fn is_passive(m: MessageModel) -> bool {
    !(m is Unknown) && !(m is FramebufferUpdateRequest)
}

/// Messages that cause no reply change nothing the session does: inserting an
/// input event, SetEncodings, SetPixelFormat or ClientCutText anywhere into a
/// run of events leaves the final pending flag and the frames sent as they
/// were; the actions of the other events are the same, and the inserted
/// message only records activity or is ignored.
pub proof fn lemma_passive_messages_change_nothing(
    pending: bool,
    events: Seq<SessionEvent>,
    i: int,
    m: MessageModel,
)
    requires
        0 <= i <= events.len(),
        is_passive(m),
    ensures
        run_session(pending, events.insert(i, SessionEvent::Message(Some(m)))).0 == run_session(
            pending,
            events,
        ).0,
        run_session(pending, events.insert(i, SessionEvent::Message(Some(m)))).1.remove(i)
            == run_session(pending, events).1,
        run_session(pending, events.insert(i, SessionEvent::Message(Some(m)))).1[i]
            == SessionAction::RecordActivity || run_session(
            pending,
            events.insert(i, SessionEvent::Message(Some(m))),
        ).1[i] == SessionAction::Ignore,
        frames_sent(run_session(pending, events.insert(i, SessionEvent::Message(Some(m)))).1)
            == frames_sent(run_session(pending, events).1),
    decreases events.len(),
{
    let e = SessionEvent::Message(Some(m));
    let ins = events.insert(i, e);
    let (next, action) = on_event_spec(pending, ins[0]);
    let (last, actions) = run_session(next, ins.drop_first());
    lemma_run_session_len(next, ins.drop_first());
    assert((seq![action] + actions)[0] == action);
    assert((seq![action] + actions).drop_first() =~= actions);
    if i == 0 {
        assert(ins.drop_first() =~= events);
        assert((seq![action] + actions).remove(0) =~= actions);
    } else {
        assert(ins[0] == events[0]);
        assert(ins.drop_first() =~= events.drop_first().insert(i - 1, e));
        lemma_passive_messages_change_nothing(next, events.drop_first(), i - 1, m);
        let (last0, actions0) = run_session(next, events.drop_first());
        assert((seq![action] + actions).remove(i) =~= seq![action] + actions.remove(i - 1));
        assert((seq![action] + actions0)[0] == action);
        assert((seq![action] + actions0).drop_first() =~= actions0);
        assert((seq![action] + actions)[i] == actions[i - 1]);
    }
}

/// Whether `e` is a message the session takes no step on.
pub open spec fn is_passive_event(e: SessionEvent) -> bool {
    e matches SessionEvent::Message(Some(m)) && is_passive(m)
}

/// `events` with every passive message left out.
pub open spec fn strip_passive(events: Seq<SessionEvent>) -> Seq<SessionEvent>
    decreases events.len(),
{
    if events.len() == 0 {
        Seq::empty()
    } else if is_passive_event(events[0]) {
        strip_passive(events.drop_first())
    } else {
        seq![events[0]] + strip_passive(events.drop_first())
    }
}

/// The actions taken on the events of `events` that are not passive messages,
/// in order, `actions` holding one action per event.
pub open spec fn active_actions(events: Seq<SessionEvent>, actions: Seq<SessionAction>) -> Seq<
    SessionAction,
>
    decreases events.len(),
{
    if events.len() == 0 || actions.len() == 0 {
        Seq::empty()
    } else if is_passive_event(events[0]) {
        active_actions(events.drop_first(), actions.drop_first())
    } else {
        seq![actions[0]] + active_actions(events.drop_first(), actions.drop_first())
    }
}

/// Messages that cause no reply change nothing the session does, however many
/// there are and wherever they stand: a run of events and the same run with
/// every input event, SetEncodings, SetPixelFormat and ClientCutText left out
/// end with the same pending flag, send the same number of frames, and take
/// the same actions on the other events, in the same order; each passive
/// message itself only records activity or is ignored.
pub proof fn lemma_passive_messages_are_invisible(pending: bool, events: Seq<SessionEvent>)
    ensures
        run_session(pending, events).0 == run_session(pending, strip_passive(events)).0,
        frames_sent(run_session(pending, events).1) == frames_sent(
            run_session(pending, strip_passive(events)).1,
        ),
        active_actions(events, run_session(pending, events).1) == run_session(
            pending,
            strip_passive(events),
        ).1,
        forall|k: int|
            0 <= k < events.len() && is_passive_event(#[trigger] events[k]) ==> (run_session(
                pending,
                events,
            ).1[k] == SessionAction::RecordActivity || run_session(pending, events).1[k]
                == SessionAction::Ignore),
    decreases events.len(),
{
    if events.len() > 0 {
        let rest = events.drop_first();
        let (next, action) = on_event_spec(pending, events[0]);
        let (last, actions) = run_session(next, rest);
        lemma_run_session_len(next, rest);
        lemma_passive_messages_are_invisible(next, rest);
        assert((seq![action] + actions)[0] == action);
        assert((seq![action] + actions).drop_first() =~= actions);
        assert forall|k: int|
            0 <= k < events.len() && is_passive_event(#[trigger] events[k]) implies (run_session(
                pending,
                events,
            ).1[k] == SessionAction::RecordActivity || run_session(pending, events).1[k]
                == SessionAction::Ignore) by {
            if k > 0 {
                assert(events[k] == rest[k - 1]);
                assert((seq![action] + actions)[k] == actions[k - 1]);
            }
        }
        if !is_passive_event(events[0]) {
            let stripped = seq![events[0]] + strip_passive(rest);
            assert(stripped[0] == events[0]);
            assert(stripped.drop_first() =~= strip_passive(rest));
            let (n2, a2) = run_session(next, strip_passive(rest));
            assert((seq![action] + a2)[0] == action);
            assert((seq![action] + a2).drop_first() =~= a2);
        }
    }
}

/// Every frame the session sends is a full, non-incremental update, and after
/// it no frame is pending.
pub proof fn lemma_sent_frames_are_full(pending: bool, event: SessionEvent)
    ensures
        on_event_spec(pending, event).1 is SendFrame ==> (on_event_spec(pending, event).1
            == (SessionAction::SendFrame { incremental: false })) && !on_event_spec(pending, event).0,
{
}


/// A key or pointer event is always noted, whether or not a frame is pending,
/// and leaves the pending flag as it was.
pub proof fn lemma_input_events_are_recorded(pending: bool, m: MessageModel)
    requires
        m is KeyEvent || m is PointerEvent,
    ensures
        on_message_spec(pending, Some(m)) == (pending, SessionAction::RecordActivity),
{
}

/// A framebuffer update request, incremental or not and whatever its area,
/// makes a frame pending and schedules it one second ahead.
pub proof fn lemma_request_schedules_frame(pending: bool, m: MessageModel)
    requires
        m is FramebufferUpdateRequest,
    ensures
        on_message_spec(pending, Some(m)) == (true, SessionAction::ScheduleFrame { delay_ms: 1000 }),
{
}

/// An unknown message ends the session; SetEncodings, SetPixelFormat,
/// ClientCutText and a closed reader are ignored; none of them touches the
/// pending flag.
pub proof fn lemma_other_messages(pending: bool, m: MessageModel)
    ensures
        on_message_spec(pending, Some(MessageModel::Unknown)) == (pending, SessionAction::Stop),
        on_message_spec(pending, None) == (pending, SessionAction::Ignore),
        m is SetEncodings || m is SetPixelFormat || m is ClientCutText ==> on_message_spec(
            pending,
            Some(m),
        ) == (pending, SessionAction::Ignore),
{
}

/// When a frame's deadline passes, a pending frame is sent in full and nothing
/// stays pending; with no frame pending nothing is sent.
pub proof fn lemma_frame_due(pending: bool)
    ensures
        pending ==> on_frame_due_spec(pending) == (false, SessionAction::SendFrame { incremental: false }),
        !pending ==> on_frame_due_spec(pending) == (false, SessionAction::Ignore),
{
}

/// Every read of one byte or more is decoded, whatever its size; only the end
/// of the stream (a read of zero bytes) and a failed read disconnect.
pub proof fn lemma_read_outcomes(n: usize)
    ensures
        n > 0 ==> on_read_spec(Some(n)) == ReaderAction::Decode(n),
        on_read_spec(Some(0)) == ReaderAction::Disconnect,
        on_read_spec(None) == ReaderAction::Disconnect,
{
}

} // verus!
