//! GUI focus tracking.
//!
//! The host's GUI layer reports, once per frame, whether it wants the
//! pointer or keyboard. Because a click that lands in the GUI can be
//! reported one frame late, the previous frame's answer is kept
//! alongside the current one, and input is suppressed while either
//! holds.

use vstd::prelude::*;

verus! {

/// Whether the GUI wanted input focus on the previous and current
/// frames. The camera controllers take input only while both are
/// false.
#[derive(Debug, Clone, Copy, Default, PartialEq, Eq, Structural)]
pub struct EguiWantsFocus {
    /// Whether the GUI wanted focus on the previous frame.
    pub prev: bool,
    /// Whether the GUI wants focus on the current frame.
    pub curr: bool,
}

impl EguiWantsFocus {
    /// The focus state one frame later, given this frame's answer from
    /// the GUI layer.
    pub fn advanced(self, new_wants_focus: bool) -> (r: EguiWantsFocus)
        ensures
            r == (EguiWantsFocus { prev: self.curr, curr: new_wants_focus }),
    {
        EguiWantsFocus { prev: self.curr, curr: new_wants_focus }
    }

    /// Input is suppressed while the GUI wanted focus this frame or the
    /// last.
    pub open spec fn spec_suppresses_input(self) -> bool {
        self.prev || self.curr
    }

    pub fn suppresses_input(self) -> (r: bool)
        ensures
            r == self.spec_suppresses_input(),
    {
        self.prev || self.curr
    }
}

} // verus!
