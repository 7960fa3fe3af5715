//! Event decoder: turns one raw inbound text message into a structured
//! event.  The JSON syntax itself is serde_json's work, taken on trust
//! through the declarations below; everything read out of the parsed value
//! is assembled into the typed container model by verified code.

use vstd::prelude::*;
use crate::container::{kind_of_tag, Container, Kind};
use crate::event::{event_kind_of_tag, spec_event_kind_of_tag, DecodeError, Event, EventKind};

verus! {

/// serde_json's JSON value.  Opaque here: payload nodes are carried through
/// it and read only by the trusted accessors below.
#[verifier::external_type_specification]
#[verifier::external_body]
pub struct ExValue(serde_json::Value);

/// serde_json's parse error, opaque; mapped to `DecodeError` right away.
#[verifier::external_type_specification]
#[verifier::external_body]
pub struct ExJsonError(serde_json::Error);

/// Whether a text parses as JSON; a function of the text alone.
pub uninterp spec fn json_parse_ok(s: Seq<char>) -> bool;

/// The string under the payload's `data.eventType`, or `None` when the text
/// is not valid JSON or no string stands at that path; a function of the
/// text alone.
pub uninterp spec fn json_event_tag(s: Seq<char>) -> Option<Seq<char>>;

/// Whether the payload is valid JSON with a `data.focusedContainer` field; a
/// function of the text alone.
pub uninterp spec fn json_has_focused_container(s: Seq<char>) -> bool;

/// Relies on serde_json::from_str: parsing into a JSON value succeeds or
/// fails on the text alone.
#[verifier::external_body]
fn parse_json(text: &str) -> (r: Result<serde_json::Value, serde_json::Error>)
    ensures
        r is Ok <==> json_parse_ok(text@),
{
    serde_json::from_str(text)
}

/// Relies on serde_json::from_str, Value::get and Value::as_str: the string
/// under `data.eventType` depends on the text alone.
#[verifier::external_body]
fn event_tag_of(text: &str) -> (r: Option<String>)
    ensures
        r is Some <==> json_event_tag(text@) is Some,
        r matches Some(tag) ==> json_event_tag(text@) == Some(tag@),
{
    match serde_json::from_str::<serde_json::Value>(text) {
        Ok(v) => match v.get("data") {
            Some(d) => match d.get("eventType") {
                Some(t) => t.as_str().map(|s| s.to_owned()),
                None => None,
            },
            None => None,
        },
        Err(_) => None,
    }
}

/// Relies on serde_json::from_str and Value::get: whether the payload holds
/// a `data.focusedContainer` field depends on the text alone.
#[verifier::external_body]
fn focused_container_field(text: &str) -> (r: Option<serde_json::Value>)
    ensures
        r is Some <==> json_has_focused_container(text@),
{
    match serde_json::from_str::<serde_json::Value>(text) {
        Ok(v) => match v.get("data") {
            Some(d) => d.get("focusedContainer").cloned(),
            None => None,
        },
        Err(_) => None,
    }
}

/// Relies on serde_json::Value::get: looks a key up in a JSON object,
/// `None` on anything that is not an object or lacks the key.
#[verifier::external_body]
fn get_field<'a>(v: &'a serde_json::Value, key: &str) -> (r: Option<&'a serde_json::Value>) {
    v.get(key)
}

/// Relies on serde_json::Value::as_str: the content of a JSON string node.
pub assume_specification<'a>[ serde_json::Value::as_str ](v: &'a serde_json::Value) -> (r: Option<
    &'a str,
>);

/// Relies on serde_json::Value::as_bool: the content of a JSON boolean node.
pub assume_specification[ serde_json::Value::as_bool ](v: &serde_json::Value) -> (r: Option<bool>);

/// Relies on serde_json::Value::as_f64 and f64::to_bits: a JSON number node
/// read as a dimension key.  Every number the protocol can carry — integer
/// or float formatted — yields a key, and for non-negative dimensions the
/// keys order and compare equal exactly as the dimensions do (the bit
/// pattern of a non-negative IEEE double is monotone in its value).  NaN
/// and negative numbers are read as absent, on which the policy then stays
/// silent.
#[verifier::external_body]
fn as_dimension_key(v: &serde_json::Value) -> (r: Option<u64>) {
    match v.as_f64() {
        Some(x) => {
            if x.is_nan() || x.is_sign_negative() {
                None
            } else {
                Some(x.to_bits())
            }
        },
        None => None,
    }
}

/// Relies on serde_json::Value::as_array: the elements of a JSON array node.
pub assume_specification<'a>[ serde_json::Value::as_array ](v: &'a serde_json::Value) -> (r:
    Option<&'a Vec<serde_json::Value>>);

/// Relies on serde_json::Value's Clone: duplicates a JSON value.
pub assume_specification[ <serde_json::Value as Clone>::clone ](v: &serde_json::Value) -> (r:
    serde_json::Value);

/// Reads a string field out of a JSON object node.
fn string_field(v: &serde_json::Value, key: &str) -> Option<String> {
    match get_field(v, key) {
        Some(f) => match f.as_str() {
            Some(s) => Some(s.to_owned()),
            None => None,
        },
        None => None,
    }
}

/// One node of the payload mid-conversion: its own fields already read,
/// children partly still to convert (`pending`, last next) and partly
/// converted (`built`, in order).
struct BuildFrame {
    kind: Kind,
    kind_tag: Option<String>,
    has_focus: Option<bool>,
    width: Option<u64>,
    height: Option<u64>,
    pending: Vec<serde_json::Value>,
    built: Vec<Container>,
}

/// Reads the scalar fields of one payload node and queues its children,
/// reversed so that popping yields them in order.
fn frame_of_value(v: &serde_json::Value) -> BuildFrame {
    let kind_tag = string_field(v, "type");
    let kind = match &kind_tag {
        Some(t) => kind_of_tag(t),
        None => Kind::Other,
    };
    let has_focus = match get_field(v, "hasFocus") {
        Some(f) => f.as_bool(),
        None => None,
    };
    let width = match get_field(v, "width") {
        Some(f) => as_dimension_key(f),
        None => None,
    };
    let height = match get_field(v, "height") {
        Some(f) => as_dimension_key(f),
        None => None,
    };
    let mut pending: Vec<serde_json::Value> = Vec::new();
    match get_field(v, "children") {
        Some(f) => match f.as_array() {
            Some(arr) => {
                let n = arr.len();
                let mut i: usize = 0;
                while i < n
                    invariant
                        i <= n,
                        n == arr@.len(),
                    decreases n - i,
                {
                    pending.push(arr[n - 1 - i].clone());
                    i = i + 1;
                }
            },
            None => {},
        },
        None => {},
    }
    BuildFrame { kind, kind_tag, has_focus, width, height, pending, built: Vec::new() }
}

/// Materialises the typed container tree for one payload node.  Iterative
/// over an explicit frame stack, so depth costs no call stack; the step
/// budget is far beyond any payload a socket could carry, and a payload
/// that somehow spent it has its unconverted children dropped rather than
/// looping on.
fn container_of_value(v: &serde_json::Value) -> Container {
    let mut stack: Vec<BuildFrame> = Vec::new();
    stack.push(frame_of_value(v));
    let mut fuel: u64 = u64::MAX;
    while fuel > 0
        invariant
            stack@.len() >= 1,
        decreases fuel,
    {
        fuel = fuel - 1;
        let mut frame = match stack.pop() {
            Some(f) => f,
            None => vstd::pervasive::unreached(),
        };
        match frame.pending.pop() {
            Some(child) => {
                let child_frame = frame_of_value(&child);
                stack.push(frame);
                stack.push(child_frame);
            },
            None => {
                let done = Container {
                    kind: frame.kind,
                    kind_tag: frame.kind_tag,
                    has_focus: frame.has_focus,
                    width: frame.width,
                    height: frame.height,
                    children: frame.built,
                };
                match stack.pop() {
                    Some(mut parent) => {
                        parent.built.push(done);
                        stack.push(parent);
                    },
                    None => {
                        return done;
                    },
                }
            },
        }
    }
    while stack.len() > 1
        invariant
            stack@.len() >= 1,
        decreases stack@.len(),
    {
        let frame = match stack.pop() {
            Some(f) => f,
            None => vstd::pervasive::unreached(),
        };
        let done = Container {
            kind: frame.kind,
            kind_tag: frame.kind_tag,
            has_focus: frame.has_focus,
            width: frame.width,
            height: frame.height,
            children: frame.built,
        };
        let mut parent = match stack.pop() {
            Some(f) => f,
            None => vstd::pervasive::unreached(),
        };
        parent.built.push(done);
        stack.push(parent);
    }
    let frame = match stack.pop() {
        Some(f) => f,
        None => vstd::pervasive::unreached(),
    };
    Container {
        kind: frame.kind,
        kind_tag: frame.kind_tag,
        has_focus: frame.has_focus,
        width: frame.width,
        height: frame.height,
        children: frame.built,
    }
}

/// The kind a payload decodes to: the kind its `data.eventType` tag stands
/// for, or `Other` when no such tag is present.
pub open spec fn spec_decoded_kind(s: Seq<char>) -> EventKind {
    match json_event_tag(s) {
        Some(tag) => spec_event_kind_of_tag(tag),
        None => EventKind::Other,
    }
}

/// Whether a payload's event is one whose container field is read: the two
/// focus events are, everything else is not.
pub open spec fn spec_wants_container(s: Seq<char>) -> bool {
    spec_decoded_kind(s) is FocusChanged || spec_decoded_kind(s) is FocusedContainerMoved
}

/// Decodes one inbound text message.  A text that is not valid JSON is the
/// one decode error, and it is recoverable; a valid payload always decodes:
/// its kind is the one its `data.eventType` tag stands for (`Other` when the
/// tag is absent or unknown), and it carries a container exactly when it is
/// a focus event whose `data.focusedContainer` field is present.
pub fn decode_event(text: &str) -> (r: Result<Event, DecodeError>)
    ensures
        r is Err <==> !json_parse_ok(text@),
        r matches Err(e) ==> e == DecodeError::MalformedPayload,
        r matches Ok(e) ==> e.kind == spec_decoded_kind(text@),
        r matches Ok(e) ==> (e.focused is Some <==> (json_has_focused_container(text@)
            && spec_wants_container(text@))),
{
    match parse_json(text) {
        Ok(_) => {},
        Err(_) => {
            return Err(DecodeError::MalformedPayload);
        },
    }
    let kind = match event_tag_of(text) {
        Some(tag) => event_kind_of_tag(&tag),
        None => EventKind::Other,
    };
    let wants_container = matches!(kind, EventKind::FocusChanged | EventKind::FocusedContainerMoved);
    let focused = if wants_container {
        match focused_container_field(text) {
            Some(fc) => Some(container_of_value(&fc)),
            None => None,
        }
    } else {
        None
    };
    Ok(Event { kind, focused })
}

} // verus!
