//! The state that survives between frames, and what is derived from it.

use vstd::prelude::*;

use crate::input::{action_for, actions_of, InputAction, InputEvent};

verus! {

/// The signed extent that a graphics API sees when it is handed an unsigned
/// surface extent reinterpreted as a 32-bit two's-complement number.
pub open spec fn signed_extent(extent: u32) -> int {
    if extent <= i32::MAX {
        extent as int
    } else {
        extent - 0x1_0000_0000
    }
}

/// A rectangle of the surface, in pixels, with its origin at the lower left.
#[derive(Clone, Copy, Debug, PartialEq, Eq, Structural)]
pub struct Viewport {
    pub x: i32,
    pub y: i32,
    pub width: i32,
    pub height: i32,
}

/// The demo's per-surface state: the resolution last reported by the
/// window system.
#[derive(Debug)]
pub struct ExampleRunner {
    resolution: (i32, i32),
}

impl View for ExampleRunner {
    type V = (int, int);

    /// Width and height of the surface, as signed extents.
    closed spec fn view(&self) -> (int, int) {
        (self.resolution.0 as int, self.resolution.1 as int)
    }
}

impl ExampleRunner {
    /// A runner that has not seen a surface yet: its resolution is 0 x 0.
    pub fn new() -> (runner: Self)
        ensures
            runner@ == (0int, 0int),
    {
        ExampleRunner { resolution: (0, 0) }
    }

    /// The resolution as stored, width first.
    pub fn resolution(&self) -> (res: (i32, i32))
        ensures
            res.0 == self@.0,
            res.1 == self@.1,
    {
        self.resolution
    }

    /// Records the new size of the surface. Each extent is stored as the
    /// signed number with the same 32 bits, so extents up to `i32::MAX`
    /// are kept as they are and larger ones become negative.
    pub fn resize_device(&mut self, width: u32, height: u32)
        ensures
            final(self)@ == (signed_extent(width), signed_extent(height)),
    {
        let w: i32 = width as i32;
        let h: i32 = height as i32;
        assert(w == signed_extent(width)) by (bit_vector)
            requires
                w == width as i32,
        ;
        assert(h == signed_extent(height)) by (bit_vector)
            requires
                h == height as i32,
        ;
        self.resolution = (w, h);
    }

    /// Decides what to do about each event of a frame's batch. The runner
    /// itself is not changed by input.
    pub fn input(&self, input_events: &[InputEvent]) -> (actions: Vec<InputAction>)
        ensures
            actions@ == actions_of(input_events@),
    {
        let mut actions: Vec<InputAction> = Vec::new();
        let mut i: usize = 0;
        while i < input_events.len()
            invariant
                i <= input_events@.len(),
                actions@.len() == i,
                forall|j: int| 0 <= j < i ==> actions@[j] == (#[trigger] input_events@[j]).action(),
            decreases input_events@.len() - i,
        {
            actions.push(action_for(input_events[i]));
            i += 1;
        }
        assert(actions@ =~= actions_of(input_events@));
        actions
    }

    /// The viewport to draw into: the whole surface, from the origin.
    pub fn viewport(&self) -> (vp: Viewport)
        ensures
            vp.x == 0,
            vp.y == 0,
            vp.width == self@.0,
            vp.height == self@.1,
    {
        Viewport { x: 0, y: 0, width: self.resolution.0, height: self.resolution.1 }
    }
}

impl Default for ExampleRunner {
    fn default() -> (runner: Self)
        ensures
            runner@ == (0int, 0int),
    {
        ExampleRunner::new()
    }
}

} // verus!
