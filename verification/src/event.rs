//! Events: the structured form of one inbound message from the window
//! manager, and the error a malformed message decodes to.

use vstd::prelude::*;
use crate::container::Container;

verus! {

/// The tag of an inbound event.  Tags the reactor does not react to are all
/// `Other`, which the dispatcher leaves alone.
#[derive(Clone, Copy, Debug, PartialEq, Eq, Structural)]
pub enum EventKind {
    FocusChanged,
    FocusedContainerMoved,
    ApplicationExiting,
    Other,
}

/// One decoded inbound event: its tag, and the container payload under the
/// event's focused-container field when one was present.
pub struct Event {
    /// The event's tag.
    pub kind: EventKind,
    /// For focus events, the tree under the focused-container field; `None`
    /// when the field is absent or the event carries none.
    pub focused: Option<Container>,
}

/// The recoverable error a malformed payload decodes to: it is logged and
/// the offending message skipped, never fatal.
#[derive(Clone, Copy, Debug, PartialEq, Eq, Structural)]
pub enum DecodeError {
    MalformedPayload,
}

impl DecodeError {
    /// A short diagnostic text for logging.
    pub fn message(&self) -> (r: &'static str)
        ensures
            r@ == "malformed event payload"@,
    {
        "malformed event payload"
    }
}

/// The event kind a raw tag stands for.
pub open spec fn spec_event_kind_of_tag(tag: Seq<char>) -> EventKind {
    if tag == "focus_changed"@ {
        EventKind::FocusChanged
    } else if tag == "focused_container_moved"@ {
        EventKind::FocusedContainerMoved
    } else if tag == "application_exiting"@ {
        EventKind::ApplicationExiting
    } else {
        EventKind::Other
    }
}

/// Maps a raw event-type tag to the event kind.
pub fn event_kind_of_tag(tag: &String) -> (k: EventKind)
    ensures
        k == spec_event_kind_of_tag(tag@),
{
    if *tag == "focus_changed".to_owned() {
        EventKind::FocusChanged
    } else if *tag == "focused_container_moved".to_owned() {
        EventKind::FocusedContainerMoved
    } else if *tag == "application_exiting".to_owned() {
        EventKind::ApplicationExiting
    } else {
        EventKind::Other
    }
}

} // verus!
