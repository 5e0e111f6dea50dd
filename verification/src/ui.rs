//! The progress indicator: which frame it shows, and which comes next.
//! Drawing and timing are the caller's.

use vstd::prelude::*;

verus! {

/// The number of frames of the indicator.
pub const FRAME_COUNT: usize = 10;

/// What wipes the indicator off the line.
pub const CLEAR_LINE: &'static str = "\r                                          \r";

/// What the indicator says beside its frame.
pub const THINKING: &'static str = " thinking...";

/// The frames of the indicator, in order.
pub open spec fn frames() -> Seq<Seq<char>> {
    seq!["⠋"@, "⠙"@, "⠹"@, "⠸"@, "⠼"@, "⠴"@, "⠦"@, "⠧"@, "⠇"@, "⠏"@]
}

/// The frames of a progress indicator, one after the other and round again.
pub struct SpinnerFrames {
    index: usize,
}

impl SpinnerFrames {
    #[verifier::type_invariant]
    closed spec fn in_range(&self) -> bool {
        self.index < FRAME_COUNT
    }

    /// The place of the frame that is shown.
    pub closed spec fn index(&self) -> int {
        self.index as int
    }

    /// An indicator at its first frame.
    pub fn new() -> (s: SpinnerFrames)
        ensures
            s.index() == 0,
    {
        SpinnerFrames { index: 0 }
    }

    /// The frame that is shown.
    pub fn current(&self) -> (r: &'static str)
        ensures
            0 <= self.index() < FRAME_COUNT,
            r@ == frames()[self.index()],
    {
        proof {
            use_type_invariant(self);
        }
        match self.index {
            0 => "⠋",
            1 => "⠙",
            2 => "⠹",
            3 => "⠸",
            4 => "⠼",
            5 => "⠴",
            6 => "⠦",
            7 => "⠧",
            8 => "⠇",
            _ => "⠏",
        }
    }

    /// Goes on to the next frame; after the last comes the first.
    pub fn advance(&mut self)
        ensures
            final(self).index() == (old(self).index() + 1) % (FRAME_COUNT as int),
    {
        proof {
            use_type_invariant(&*self);
        }
        self.index = (self.index + 1) % FRAME_COUNT;
    }
}

} // verus!
