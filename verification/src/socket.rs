//! The reload relay of one browser connection.
//!
//! Each open socket waits on two things at once: the reload broadcaster and
//! the client. A reload signal becomes one text frame to the client; whatever
//! the client sends is ignored, except that a close frame, an error or the end
//! of the stream ends the connection. Nothing is retried: a connection that has
//! ended stays ended.

use vstd::prelude::*;

verus! {

/// The kinds of frame a client can send.
#[derive(Clone, Copy, Debug, PartialEq, Eq, Structural)]
pub enum FrameKind {
    Text,
    Binary,
    Ping,
    Pong,
    Close,
}

/// One thing that happens on a connection.
#[derive(Clone, Copy, Debug, PartialEq, Eq, Structural)]
pub enum SocketEvent {
    /// The broadcaster delivered a reload signal.
    ReloadSignal,
    /// The broadcaster says this subscriber fell behind and missed `skipped`
    /// signals.
    Lagged { skipped: u64 },
    /// The broadcaster is gone: its sender was dropped.
    BroadcasterClosed,
    /// The frame that the relay asked for could not be sent.
    SendFailed,
    /// The client sent a frame.
    Frame { kind: FrameKind },
    /// Reading from the client failed.
    ReceiveFailed,
    /// The client's stream ended.
    Disconnected,
}

/// What the driver does next.
#[derive(Clone, Copy, Debug, PartialEq, Eq, Structural)]
pub enum SocketAction {
    /// Send one text frame that holds [`reload_message`].
    SendReload,
    /// Nothing; keep waiting.
    Continue,
    /// Leave the loop and drop the connection.
    Close,
}

/// Whether the connection is still served.
#[derive(Clone, Copy, Debug, PartialEq, Eq, Structural)]
pub enum SocketState {
    Open,
    Closed,
}

impl SocketEvent {
    /// An event that ends the connection.
    pub open spec fn is_terminal(self) -> bool {
        match self {
            SocketEvent::BroadcasterClosed
            | SocketEvent::SendFailed
            | SocketEvent::ReceiveFailed
            | SocketEvent::Disconnected => true,
            SocketEvent::Frame { kind } => kind is Close,
            SocketEvent::ReloadSignal | SocketEvent::Lagged { .. } => false,
        }
    }
}

/// The relay's transition: the state after `event` and the action it calls
/// for.
pub open spec fn next(state: SocketState, event: SocketEvent) -> (SocketState, SocketAction) {
    match state {
        SocketState::Closed => (SocketState::Closed, SocketAction::Close),
        SocketState::Open => if event.is_terminal() {
            (SocketState::Closed, SocketAction::Close)
        } else if event is ReloadSignal {
            (SocketState::Open, SocketAction::SendReload)
        } else {
            (SocketState::Open, SocketAction::Continue)
        },
    }
}

/// The text that tells a browser to reload.
pub fn reload_message() -> (text: &'static str)
    ensures
        text@ == "reload"@,
{
    "reload"
}

impl SocketState {
    /// The state of a connection that was just accepted.
    pub fn new() -> (state: SocketState)
        ensures
            state == SocketState::Open,
    {
        SocketState::Open
    }

    /// Takes in one event: returns the state that follows and what to do.
    pub fn step(self, event: SocketEvent) -> (out: (SocketState, SocketAction))
        ensures
            out == next(self, event),
    {
        match self {
            SocketState::Closed => (SocketState::Closed, SocketAction::Close),
            SocketState::Open => match event {
                SocketEvent::ReloadSignal => (SocketState::Open, SocketAction::SendReload),
                SocketEvent::Lagged { .. } => (SocketState::Open, SocketAction::Continue),
                SocketEvent::Frame { kind } => match kind {
                    FrameKind::Close => (SocketState::Closed, SocketAction::Close),
                    _ => (SocketState::Open, SocketAction::Continue),
                },
                SocketEvent::BroadcasterClosed
                | SocketEvent::SendFailed
                | SocketEvent::ReceiveFailed
                | SocketEvent::Disconnected => (SocketState::Closed, SocketAction::Close),
            },
        }
    }
}

/// The state of a relay that started open and has taken `events` in order.
pub open spec fn state_after(events: Seq<SocketEvent>) -> SocketState
    decreases events.len(),
{
    if events.len() == 0 {
        SocketState::Open
    } else {
        next(state_after(events.drop_last()), events.last()).0
    }
}

/// The action that the `i`-th of `events` calls for, in a relay that started
/// open.
pub open spec fn action_at(events: Seq<SocketEvent>, i: int) -> SocketAction
    recommends
        0 <= i < events.len(),
{
    next(state_after(events.take(i)), events[i]).1
}

/// The relay is open after `events` exactly when none of them is terminal.
pub proof fn lemma_open_until_terminal(events: Seq<SocketEvent>)
    ensures
        state_after(events) is Open <==> forall|i: int|
            0 <= i < events.len() ==> !(#[trigger] events[i]).is_terminal(),
    decreases events.len(),
{
    if events.len() > 0 {
        let earlier = events.drop_last();
        lemma_open_until_terminal(earlier);
        if state_after(events) is Open {
            assert forall|i: int| 0 <= i < events.len() implies !(#[trigger] events[i]).is_terminal() by {
                if i < earlier.len() {
                    assert(events[i] == earlier[i]);
                }
            }
        } else if state_after(earlier) is Open {
            assert(events.last().is_terminal());
        } else {
            let i = choose|i: int| 0 <= i < earlier.len() && (#[trigger] earlier[i]).is_terminal();
            assert(events[i] == earlier[i]);
        }
    }
}

/// The relay sends one frame for each reload signal that reaches it before the
/// connection ends, and none after.
///
/// The `i`-th event calls for a frame exactly when it is a reload signal and
/// no earlier event was terminal. A subscriber that lagged is no exception:
/// the lag itself is passed over, and the signals after it are relayed.
pub proof fn lemma_frame_per_signal(events: Seq<SocketEvent>, i: int)
    requires
        0 <= i < events.len(),
    ensures
        action_at(events, i) == SocketAction::SendReload <==> events[i] is ReloadSignal && forall|
            k: int,
        | 0 <= k < i ==> !(#[trigger] events[k]).is_terminal(),
{
    let earlier = events.take(i);
    lemma_open_until_terminal(earlier);
    if state_after(earlier) is Open {
        assert forall|k: int| 0 <= k < i implies !(#[trigger] events[k]).is_terminal() by {
            assert(events[k] == earlier[k]);
        }
    } else {
        let k = choose|k: int| 0 <= k < earlier.len() && (#[trigger] earlier[k]).is_terminal();
        assert(events[k] == earlier[k]);
    }
}

} // verus!
