//! Container tree model: a node of the window manager's layout tree.
//!
//! A subtree is materialised fresh from each inbound event payload; it is
//! never cached or mutated, so every event carries a complete, independent
//! snapshot.

use vstd::prelude::*;

verus! {

/// The recognised node kinds of the layout tree.  A tag that the protocol
/// does not name is kept opaquely: the node's kind becomes `Other` and the
/// raw tag stays on the node, so unrecognised nodes are preserved rather
/// than rejected.
#[derive(Clone, Copy, Debug, PartialEq, Eq, Structural)]
pub enum Kind {
    Workspace,
    Window,
    SplitContainer,
    Other,
}

/// A node in the window manager's layout tree.
pub struct Container {
    /// Recognised node kind, derived from the raw tag.
    pub kind: Kind,
    /// The raw kind tag exactly as received; `None` when the payload carried
    /// no tag at all.
    pub kind_tag: Option<String>,
    /// Whether this node holds input focus; `None` when the payload did not
    /// say (only some node kinds carry it).
    pub has_focus: Option<bool>,
    /// Width, as an order- and equality-preserving key of the protocol's
    /// floating-point dimension: keys compare exactly as the dimensions they
    /// encode.  `None` when the field is absent, not a number, negative or
    /// NaN.
    pub width: Option<u64>,
    /// Height, encoded as `width` is.
    pub height: Option<u64>,
    /// Ordered child nodes; empty for leaves.
    pub children: Vec<Container>,
}

/// The kind a raw tag stands for: only the three tags the protocol names are
/// recognised; everything else is `Other`.
pub open spec fn spec_kind_of_tag(tag: Seq<char>) -> Kind {
    if tag == "workspace"@ {
        Kind::Workspace
    } else if tag == "window"@ {
        Kind::Window
    } else if tag == "split"@ {
        Kind::SplitContainer
    } else {
        Kind::Other
    }
}

/// Maps a raw kind tag to the recognised kind.
pub fn kind_of_tag(tag: &String) -> (k: Kind)
    ensures
        k == spec_kind_of_tag(tag@),
{
    if *tag == "workspace".to_owned() {
        Kind::Workspace
    } else if *tag == "window".to_owned() {
        Kind::Window
    } else if *tag == "split".to_owned() {
        Kind::SplitContainer
    } else {
        Kind::Other
    }
}

/// A node is the focused window when it is a window node that carries
/// `has_focus = true`.
pub open spec fn is_focused_window(c: Container) -> bool {
    c.kind == Kind::Window && c.has_focus == Some(true)
}

/// The dimensions a node offers to the direction policy: both width and
/// height, and only when both are present.
pub open spec fn spec_dimensions(c: Container) -> Option<(u64, u64)> {
    match (c.width, c.height) {
        (Some(w), Some(h)) => Some((w, h)),
        _ => None,
    }
}

impl Container {
    /// Whether this node is the focused window.
    pub fn focused_window(&self) -> (r: bool)
        ensures
            r == is_focused_window(*self),
    {
        match (self.kind, self.has_focus) {
            (Kind::Window, Some(true)) => true,
            _ => false,
        }
    }

    /// Returns the node's width and height when both are present, and
    /// nothing when either is missing.
    pub fn dimensions(&self) -> (r: Option<(u64, u64)>)
        ensures
            r == spec_dimensions(*self),
    {
        match (self.width, self.height) {
            (Some(w), Some(h)) => Some((w, h)),
            _ => None,
        }
    }
}

} // verus!
