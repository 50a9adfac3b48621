use vstd::prelude::*;

verus! {

/// The number of frames in the spinner's animation cycle.
pub const FRAME_COUNT: usize = 4;

/// The animation cycle of the spinner, one frame per index.
pub open spec fn spec_frame(i: int) -> Seq<char> {
    if i == 0 {
        seq!['|']
    } else if i == 1 {
        seq!['/']
    } else if i == 2 {
        seq!['-']
    } else {
        seq!['\\']
    }
}

/// The cosmetic progress spinner: it renders one frame per tick while the
/// run goes on, and a terminal marker once the run is over. It holds no
/// statistics and takes no part in them.
#[derive(Debug)]
pub struct ProgressReporter {
    pub frame_index: usize,
}

impl ProgressReporter {
    /// The frame index stays inside the animation cycle.
    pub open spec fn wf(self) -> bool {
        self.frame_index < 4
    }

    /// A reporter at the start of its cycle.
    pub fn new() -> (p: Self)
        ensures
            p.frame_index == 0,
            p.wf(),
    {
        ProgressReporter { frame_index: 0 }
    }

    /// One tick of the animation, polled on the shared running flag: while
    /// the flag holds, the current frame comes out and the cycle advances by
    /// one; once the flag has fallen, the terminal marker comes out and the
    /// cycle stands still.
    pub fn tick(&mut self, running: bool) -> (s: &'static str)
        requires
            old(self).wf(),
        ensures
            final(self).wf(),
            running ==> s@ == spec_frame(old(self).frame_index as int) && final(self).frame_index
                == (old(self).frame_index + 1) % 4,
            !running ==> s@ == "Done."@ && *final(self) == *old(self),
    {
        if running {
            let s = frame_str(self.frame_index);
            self.frame_index = (self.frame_index + 1) % 4;
            s
        } else {
            "Done."
        }
    }
}

fn frame_str(i: usize) -> (s: &'static str)
    requires
        i < 4,
    ensures
        s@ == spec_frame(i as int),
{
    proof {
        reveal_strlit("|");
        reveal_strlit("/");
        reveal_strlit("-");
        reveal_strlit("\\");
    }
    if i == 0 {
        "|"
    } else if i == 1 {
        "/"
    } else if i == 2 {
        "-"
    } else {
        "\\"
    }
}

} // verus!
