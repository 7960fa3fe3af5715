//! Event dispatcher: the reactor's state machine.  One step takes the
//! dispatcher's state and one decoded read, routes by event kind, and says
//! which command to send and whether to shut down.
//!
//! Handler-level absences (no container, no dimensions) are skipped
//! silently; only an `application_exiting` event moves the machine to its
//! terminal state.  The surrounding process owns the socket and performs the
//! sends this machine asks for.

use vstd::prelude::*;
use crate::container::spec_dimensions;
use crate::event::{DecodeError, Event, EventKind};
use crate::policy::{decide, spec_decide, Direction};
use crate::resolver::{find_focused_window, spec_find_focused};

verus! {

/// The dispatcher's persistent states.  The transient decoding and routing
/// stages live inside one `dispatch` call; `Shutdown` is terminal.
#[derive(Clone, Copy, Debug, PartialEq, Eq, Structural)]
pub enum ReactorState {
    AwaitingMessage,
    Shutdown,
}

/// What one dispatch step asks of its surroundings: the state to continue
/// in, and the tiling direction to request, if any.
pub struct StepOutcome {
    /// The dispatcher's next state.
    pub next: ReactorState,
    /// The command to send, if the step decided on one.  A failed send is
    /// non-fatal: the command is simply not delivered for that event.
    pub command: Option<Direction>,
}

/// The command one event asks for.  A `focus_changed` event carries the
/// focused window itself, so its dimensions are read directly; a
/// `focused_container_moved` event carries a broader subtree, so the focused
/// window is resolved inside it first.  Missing containers or dimensions ask
/// for nothing.
pub open spec fn spec_command_for(e: Event) -> Option<Direction> {
    match e.kind {
        EventKind::FocusChanged => match e.focused {
            Some(c) => match spec_dimensions(c) {
                Some(d) => spec_decide(d.0, d.1),
                None => None,
            },
            None => None,
        },
        EventKind::FocusedContainerMoved => match e.focused {
            Some(c) => match spec_find_focused(c) {
                Some(w) => match spec_dimensions(w) {
                    Some(d) => spec_decide(d.0, d.1),
                    None => None,
                },
                None => None,
            },
            None => None,
        },
        _ => None,
    }
}

/// The state after one step: only `application_exiting` shuts the reactor
/// down, and `Shutdown` is final.
pub open spec fn spec_next_state(s: ReactorState, d: Result<Event, DecodeError>) -> ReactorState {
    if s is Shutdown {
        ReactorState::Shutdown
    } else {
        match d {
            Ok(e) => if e.kind is ApplicationExiting {
                ReactorState::Shutdown
            } else {
                ReactorState::AwaitingMessage
            },
            Err(_) => ReactorState::AwaitingMessage,
        }
    }
}

/// The command one step emits: nothing once shut down, nothing on a decode
/// error, else what the event asks for.
pub open spec fn spec_step_command(s: ReactorState, d: Result<Event, DecodeError>) -> Option<
    Direction,
> {
    if s is Shutdown {
        None
    } else {
        match d {
            Ok(e) => spec_command_for(e),
            Err(_) => None,
        }
    }
}

/// Routes one decoded event: reads the focused window's dimensions (for
/// `focus_changed` directly, for `focused_container_moved` through the
/// resolver) and applies the direction policy; `application_exiting` is
/// terminal; anything else is left alone.
pub fn handle_event(event: Event) -> (r: StepOutcome)
    ensures
        r.command == spec_command_for(event),
        r.next == spec_next_state(ReactorState::AwaitingMessage, Ok::<Event, DecodeError>(event)),
{
    match event.kind {
        EventKind::ApplicationExiting => StepOutcome {
            next: ReactorState::Shutdown,
            command: None,
        },
        EventKind::FocusChanged => {
            let command = match event.focused {
                Some(c) => match c.dimensions() {
                    Some(d) => decide(d.0, d.1),
                    None => None,
                },
                None => None,
            };
            StepOutcome { next: ReactorState::AwaitingMessage, command }
        },
        EventKind::FocusedContainerMoved => {
            let command = match event.focused {
                Some(c) => match find_focused_window(c) {
                    Some(w) => match w.dimensions() {
                        Some(d) => decide(d.0, d.1),
                        None => None,
                    },
                    None => None,
                },
                None => None,
            };
            StepOutcome { next: ReactorState::AwaitingMessage, command }
        },
        EventKind::Other => StepOutcome { next: ReactorState::AwaitingMessage, command: None },
    }
}

/// One full dispatcher step on one decoded read.  Decode errors are
/// contained here: they emit nothing and leave the state as it was, so the
/// loop goes on to the next message.
pub fn dispatch(state: ReactorState, decoded: Result<Event, DecodeError>) -> (r: StepOutcome)
    ensures
        r.next == spec_next_state(state, decoded),
        r.command == spec_step_command(state, decoded),
{
    match state {
        ReactorState::Shutdown => StepOutcome { next: ReactorState::Shutdown, command: None },
        ReactorState::AwaitingMessage => match decoded {
            Ok(e) => handle_event(e),
            Err(_) => StepOutcome { next: ReactorState::AwaitingMessage, command: None },
        },
    }
}

/// A malformed payload never ends the loop: it is skipped without a
/// command, and the message after it is handled exactly as it would have
/// been had the malformed one never arrived.
pub proof fn lemma_malformed_payload_is_skipped(
    bad: Result<Event, DecodeError>,
    next: Result<Event, DecodeError>,
)
    requires
        bad is Err,
    ensures
        spec_next_state(ReactorState::AwaitingMessage, bad) == ReactorState::AwaitingMessage,
        spec_step_command(ReactorState::AwaitingMessage, bad) is None,
        spec_next_state(spec_next_state(ReactorState::AwaitingMessage, bad), next)
            == spec_next_state(ReactorState::AwaitingMessage, next),
        spec_step_command(spec_next_state(ReactorState::AwaitingMessage, bad), next)
            == spec_step_command(ReactorState::AwaitingMessage, next),
{
}

} // verus!
