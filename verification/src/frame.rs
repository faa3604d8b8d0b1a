//! The replacement window frame object: a single boolean property that
//! tells whether the frame tracks the active toplevel.

use vstd::prelude::*;

verus! {

/// Property id of `is-focused`.
pub const PROP_IS_FOCUSED: usize = 1;

/// Description of the one property the frame class installs.
#[derive(PartialEq, Eq, Clone, Copy, Debug)]
pub struct FramePropertySpec {
    pub id: usize,
    pub name: &'static str,
    pub nick: &'static str,
    pub blurb: &'static str,
    pub default_value: bool,
    pub readable: bool,
    pub writable: bool,
}

/// State of a replacement window frame.
#[derive(PartialEq, Eq, Structural, Clone, Copy, Debug)]
pub struct HazeWindowFrame {
    pub is_focused: bool,
}

impl HazeWindowFrame {
    /// A frame that does not track an active toplevel.
    pub fn new() -> (frame: Self)
        ensures
            !frame.is_focused,
    {
        HazeWindowFrame { is_focused: false }
    }

    /// The properties of the frame class: the readable and writable
    /// boolean `is-focused`, false by default.
    pub fn properties() -> (specs: Vec<FramePropertySpec>)
        ensures
            specs@.len() == 1,
            specs@[0].id == PROP_IS_FOCUSED,
            specs@[0].name@ == "is-focused"@,
            specs@[0].nick@ == "Is focused"@,
            specs@[0].blurb@ == "Whether the unmanaged Haze frame tracks an active toplevel"@,
            !specs@[0].default_value,
            specs@[0].readable,
            specs@[0].writable,
    {
        let mut specs: Vec<FramePropertySpec> = Vec::new();
        specs.push(
            FramePropertySpec {
                id: PROP_IS_FOCUSED,
                name: "is-focused",
                nick: "Is focused",
                blurb: "Whether the unmanaged Haze frame tracks an active toplevel",
                default_value: false,
                readable: true,
                writable: true,
            },
        );
        specs
    }

    /// The frame after writing `value` to property `id`: only `is-focused`
    /// written with a boolean changes it.
    pub open spec fn with_property(self, id: usize, value: Option<bool>) -> HazeWindowFrame {
        if id == PROP_IS_FOCUSED && value is Some {
            HazeWindowFrame { is_focused: value->0 }
        } else {
            self
        }
    }

    /// The value property `id` reads: the flag for `is-focused`, false for
    /// any other id.
    pub open spec fn property_value(self, id: usize) -> bool {
        id == PROP_IS_FOCUSED && self.is_focused
    }

    /// Writes property `id`.  `value` is the written value when it holds a
    /// boolean, `None` otherwise.
    pub fn set_property(&mut self, id: usize, value: Option<bool>)
        ensures
            *final(self) == old(self).with_property(id, value),
    {
        if id == PROP_IS_FOCUSED {
            if let Some(is_focused) = value {
                self.is_focused = is_focused;
            }
        }
    }

    /// Reads property `id`.
    pub fn property(&self, id: usize) -> (value: bool)
        ensures
            value == self.property_value(id),
    {
        if id == PROP_IS_FOCUSED {
            self.is_focused
        } else {
            false
        }
    }
}

/// Reading `is-focused` right after writing a boolean to it gives that
/// boolean back; a write that is not a boolean to `is-focused` changes no
/// reading.
pub proof fn lemma_frame_reads_back_focus(frame: HazeWindowFrame, id: usize, value: Option<bool>)
    ensures
        frame.with_property(PROP_IS_FOCUSED, Some(true)).property_value(PROP_IS_FOCUSED),
        !frame.with_property(PROP_IS_FOCUSED, Some(false)).property_value(PROP_IS_FOCUSED),
        !(id == PROP_IS_FOCUSED && value is Some) ==> frame.with_property(id, value) == frame,
{
}

} // verus!
