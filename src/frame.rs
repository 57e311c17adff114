//! The decisions of the per-frame loop: which frame slot comes next, and
//! what to do after acquiring and presenting a swapchain image.
use vstd::prelude::*;

verus! {

/// Frames that may be in flight on the device at once.
pub const MAX_FRAMES_IN_FLIGHT: usize = 2;

/// What acquiring the next swapchain image returned.
#[derive(Clone, Copy, Debug, PartialEq, Eq)]
pub enum AcquireResult {
    Acquired(u32),
    /// The surface changed and the swapchain no longer matches it.
    OutOfDate,
    /// Any other failure.
    Failed,
}

/// What the frame loop does after acquiring.
#[derive(Clone, Copy, Debug, PartialEq, Eq)]
pub enum AcquireAction {
    /// Record and submit the frame for this image.
    Render(u32),
    /// Rebuild the swapchain and skip this frame.
    RecreateSwapchain,
    /// Stop: the failure cannot be recovered.
    Fatal,
}

/// What presenting the frame returned.
#[derive(Clone, Copy, Debug, PartialEq, Eq)]
pub enum PresentResult {
    Presented,
    OutOfDate,
    Suboptimal,
    Failed,
}

/// What the frame loop does after presenting.
#[derive(Clone, Copy, Debug, PartialEq, Eq)]
pub enum PresentAction {
    Continue,
    RecreateSwapchain,
    Fatal,
}

/// The loop's state between frames.
#[derive(Clone, Copy, Debug, PartialEq, Eq)]
pub struct FrameState {
    /// Slot of the frame being recorded, below `MAX_FRAMES_IN_FLIGHT`.
    pub current_frame: usize,
    /// The window was resized since the swapchain was last built.
    pub framebuffer_resized: bool,
}

impl FrameState {
    /// The state before the first frame.
    pub fn new() -> (r: FrameState)
        ensures
            r.current_frame == 0,
            !r.framebuffer_resized,
    {
        FrameState { current_frame: 0, framebuffer_resized: false }
    }

    /// The slot is in range.
    pub open spec fn wf(self) -> bool {
        self.current_frame < MAX_FRAMES_IN_FLIGHT
    }

    /// Notes that the window was resized.
    pub fn resize_framebuffer(&mut self)
        ensures
            final(self).framebuffer_resized,
            final(self).current_frame == old(self).current_frame,
    {
        self.framebuffer_resized = true;
    }

    /// Decides what follows an acquire: an out-of-date swapchain is
    /// rebuilt, any other failure is fatal.
    pub fn on_acquire(&self, result: AcquireResult) -> (r: AcquireAction)
        ensures
            r == (match result {
                AcquireResult::Acquired(i) => AcquireAction::Render(i),
                AcquireResult::OutOfDate => AcquireAction::RecreateSwapchain,
                AcquireResult::Failed => AcquireAction::Fatal,
            }),
    {
        match result {
            AcquireResult::Acquired(i) => AcquireAction::Render(i),
            AcquireResult::OutOfDate => AcquireAction::RecreateSwapchain,
            AcquireResult::Failed => AcquireAction::Fatal,
        }
    }

    /// Decides what follows a present, and moves to the next frame slot.
    /// An out-of-date or suboptimal swapchain, or a resized window, has the
    /// swapchain rebuilt and clears the resize note; any other failure is
    /// fatal.
    pub fn on_present(&mut self, result: PresentResult) -> (r: PresentAction)
        requires
            old(self).wf(),
        ensures
            r == (match result {
                PresentResult::Presented => if old(self).framebuffer_resized {
                    PresentAction::RecreateSwapchain
                } else {
                    PresentAction::Continue
                },
                PresentResult::OutOfDate => PresentAction::RecreateSwapchain,
                PresentResult::Suboptimal => PresentAction::RecreateSwapchain,
                PresentResult::Failed => PresentAction::Fatal,
            }),
            r == PresentAction::RecreateSwapchain ==> !final(self).framebuffer_resized,
            r == PresentAction::Continue ==> final(self).framebuffer_resized
                == old(self).framebuffer_resized,
            r != PresentAction::Fatal ==> final(self).current_frame == (old(self).current_frame + 1)
                % (MAX_FRAMES_IN_FLIGHT as int),
            r == PresentAction::Fatal ==> *final(self) == *old(self),
            final(self).wf(),
    {
        let action = match result {
            PresentResult::Presented => if self.framebuffer_resized {
                PresentAction::RecreateSwapchain
            } else {
                PresentAction::Continue
            },
            PresentResult::OutOfDate => PresentAction::RecreateSwapchain,
            PresentResult::Suboptimal => PresentAction::RecreateSwapchain,
            PresentResult::Failed => PresentAction::Fatal,
        };
        match action {
            PresentAction::Fatal => {},
            PresentAction::RecreateSwapchain => {
                self.framebuffer_resized = false;
                self.current_frame = next_frame(self.current_frame);
            },
            PresentAction::Continue => {
                self.current_frame = next_frame(self.current_frame);
            },
        }
        action
    }
}

/// The frame slot after `current`, wrapping after the last.
pub fn next_frame(current: usize) -> (r: usize)
    requires
        current < MAX_FRAMES_IN_FLIGHT,
    ensures
        r == (current + 1) % (MAX_FRAMES_IN_FLIGHT as int),
        r < MAX_FRAMES_IN_FLIGHT,
{
    (current + 1) % MAX_FRAMES_IN_FLIGHT
}

} // verus!
