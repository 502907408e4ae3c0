//! The decisions of the render loop: when a frame is drawn or skipped, when
//! the swapchain is rebuilt, and when the loop ends. The window system and
//! the GPU are driven elsewhere; they report here and are told what to do.

use vstd::prelude::*;

use crate::engine_render::Extent2D;

verus! {

/// What the window system reports that bears on presentation.
#[derive(Debug, Clone, Copy, PartialEq, Eq, Structural)]
pub enum WindowSignal {
    /// The window's drawable size changed.
    Resized(Extent2D),
    /// The window moved to a display with another scale factor.
    ScaleFactorChanged,
    /// The window became hidden or visible.
    Occluded(bool),
}

/// How the attempt to take the next swapchain image ended.
#[derive(Debug, Clone, Copy, PartialEq, Eq, Structural)]
pub enum AcquireOutcome {
    /// An image was taken; the swapchain may no longer match the surface.
    Acquired { suboptimal: bool },
    /// The swapchain no longer matches the surface.
    OutOfDate,
    /// Another error.
    Failed,
}

/// How presenting a drawn image ended.
#[derive(Debug, Clone, Copy, PartialEq, Eq, Structural)]
pub enum PresentOutcome {
    /// The image was presented; the swapchain may no longer match the surface.
    Presented { suboptimal: bool },
    /// The swapchain no longer matches the surface.
    OutOfDate,
    /// Another error.
    Failed,
}

/// What to do when a frame is due.
#[derive(Debug, Clone, Copy, PartialEq, Eq, Structural)]
pub enum FrameStart {
    /// Draw nothing this time.
    Skip,
    /// Draw, after rebuilding the swapchain when `rebuild_first` holds.
    Draw { rebuild_first: bool },
}

/// What to do once the next swapchain image was asked for.
#[derive(Debug, Clone, Copy, PartialEq, Eq, Structural)]
pub enum AfterAcquire {
    /// Record and submit the frame.
    Record,
    /// Rebuild the swapchain and end the frame without drawing.
    RebuildAndEnd,
    /// End the frame with the error.
    Fail,
}

/// What to do once the frame was presented.
#[derive(Debug, Clone, Copy, PartialEq, Eq, Structural)]
pub enum AfterPresent {
    /// The frame is done.
    Done,
    /// Rebuild the swapchain; then the frame is done.
    Rebuild,
    /// End the frame with the error.
    Fail,
}

/// Whether a window size has no drawable area.
pub open spec fn is_empty_extent(size: Extent2D) -> bool {
    size.width == 0 || size.height == 0
}

/// The presentation state the render loop keeps between frames.
#[derive(Debug, Clone, Copy, PartialEq, Eq, Structural)]
pub struct PresentationState {
    /// The swapchain no longer matches the window and is to be rebuilt.
    pub framebuffer_resized: bool,
    /// The window is hidden.
    pub occluded: bool,
    /// How many frames were presented.
    pub presented_frames: u64,
}

/// The state after a window signal: a resize to an empty size is put off;
/// any other resize, and a change of scale factor, mark the swapchain for a
/// rebuild; occlusion is remembered.
pub open spec fn signal_applied(state: PresentationState, signal: WindowSignal) -> PresentationState {
    match signal {
        WindowSignal::Resized(size) => PresentationState {
            framebuffer_resized: state.framebuffer_resized || !is_empty_extent(size),
            ..state
        },
        WindowSignal::ScaleFactorChanged => PresentationState { framebuffer_resized: true, ..state },
        WindowSignal::Occluded(occluded) => PresentationState { occluded, ..state },
    }
}

/// What a due frame does: nothing while the window is hidden or has no
/// area; otherwise it is drawn, after a rebuild when the swapchain is marked.
pub open spec fn frame_start(state: PresentationState, window: Extent2D) -> FrameStart {
    if state.occluded || is_empty_extent(window) {
        FrameStart::Skip
    } else {
        FrameStart::Draw { rebuild_first: state.framebuffer_resized }
    }
}

/// The state after a rebuild of the swapchain was asked for: the mark is
/// cleared unless the window has no area, in which case nothing is rebuilt.
pub open spec fn rebuild_applied(state: PresentationState, window: Extent2D) -> PresentationState {
    if is_empty_extent(window) {
        state
    } else {
        PresentationState { framebuffer_resized: false, ..state }
    }
}

impl PresentationState {
    /// A fresh state: nothing presented, the swapchain current, the window
    /// visible.
    pub fn new() -> (state: Self)
        ensures
            state == (PresentationState {
                framebuffer_resized: false,
                occluded: false,
                presented_frames: 0,
            }),
    {
        PresentationState { framebuffer_resized: false, occluded: false, presented_frames: 0 }
    }

    /// Takes in a window signal. A resize to an empty size is put off; any
    /// other resize, and a change of scale factor, mark the swapchain for a
    /// rebuild; occlusion is remembered.
    pub fn apply_window_signal(&mut self, signal: WindowSignal)
        ensures
            *final(self) == signal_applied(*old(self), signal),
    {
        match signal {
            WindowSignal::Resized(size) => {
                if size.width != 0 && size.height != 0 {
                    self.framebuffer_resized = true;
                }
            },
            WindowSignal::ScaleFactorChanged => {
                self.framebuffer_resized = true;
            },
            WindowSignal::Occluded(occluded) => {
                self.occluded = occluded;
            },
        }
    }

    /// Decides whether a due frame is drawn: not while the window is hidden
    /// or has no area; after a rebuild of the swapchain when it was marked.
    pub fn begin_frame(&self, window: Extent2D) -> (start: FrameStart)
        ensures
            start == frame_start(*self, window),
    {
        if self.occluded || window.width == 0 || window.height == 0 {
            FrameStart::Skip
        } else {
            FrameStart::Draw { rebuild_first: self.framebuffer_resized }
        }
    }

    /// Takes in how acquiring the next image ended: a suboptimal image is
    /// drawn and the swapchain marked; an out-of-date swapchain is rebuilt
    /// and nothing drawn.
    pub fn after_acquire(&mut self, outcome: AcquireOutcome) -> (step: AfterAcquire)
        ensures
            final(self).occluded == old(self).occluded,
            final(self).presented_frames == old(self).presented_frames,
            match outcome {
                AcquireOutcome::Acquired { suboptimal } => {
                    &&& step == AfterAcquire::Record
                    &&& final(self).framebuffer_resized == (old(self).framebuffer_resized
                        || suboptimal)
                },
                AcquireOutcome::OutOfDate => {
                    &&& step == AfterAcquire::RebuildAndEnd
                    &&& final(self).framebuffer_resized == old(self).framebuffer_resized
                },
                AcquireOutcome::Failed => {
                    &&& step == AfterAcquire::Fail
                    &&& final(self).framebuffer_resized == old(self).framebuffer_resized
                },
            },
    {
        match outcome {
            AcquireOutcome::Acquired { suboptimal } => {
                if suboptimal {
                    self.framebuffer_resized = true;
                }
                AfterAcquire::Record
            },
            AcquireOutcome::OutOfDate => AfterAcquire::RebuildAndEnd,
            AcquireOutcome::Failed => AfterAcquire::Fail,
        }
    }

    /// Decides what follows a present: a rebuild when the swapchain was
    /// suboptimal, out of date or marked.
    pub fn after_present(&self, outcome: PresentOutcome) -> (step: AfterPresent)
        ensures
            step == (match outcome {
                PresentOutcome::Presented { suboptimal } => if suboptimal
                    || self.framebuffer_resized {
                    AfterPresent::Rebuild
                } else {
                    AfterPresent::Done
                },
                PresentOutcome::OutOfDate => AfterPresent::Rebuild,
                PresentOutcome::Failed => AfterPresent::Fail,
            }),
    {
        match outcome {
            PresentOutcome::Presented { suboptimal } => {
                if suboptimal || self.framebuffer_resized {
                    AfterPresent::Rebuild
                } else {
                    AfterPresent::Done
                }
            },
            PresentOutcome::OutOfDate => AfterPresent::Rebuild,
            PresentOutcome::Failed => AfterPresent::Fail,
        }
    }

    /// Decides whether the swapchain is rebuilt now: not while the window has
    /// no area. A rebuild clears the mark.
    pub fn rebuild_swapchain(&mut self, window: Extent2D) -> (rebuilt: bool)
        ensures
            rebuilt == !is_empty_extent(window),
            *final(self) == rebuild_applied(*old(self), window),
    {
        if window.width == 0 || window.height == 0 {
            return false;
        }
        self.framebuffer_resized = false;
        true
    }

    /// Counts a presented frame and says whether the loop ends: when a frame
    /// limit is set and reached.
    pub fn frame_presented(&mut self, max_frames: Option<u64>) -> (exit: bool)
        requires
            old(self).presented_frames < u64::MAX,
        ensures
            final(self).presented_frames == old(self).presented_frames + 1,
            final(self).framebuffer_resized == old(self).framebuffer_resized,
            final(self).occluded == old(self).occluded,
            exit == (match max_frames {
                Some(limit) => final(self).presented_frames >= limit,
                None => false,
            }),
    {
        self.presented_frames = self.presented_frames + 1;
        match max_frames {
            Some(limit) => self.presented_frames >= limit,
            None => false,
        }
    }
}

/// Nothing is drawn while the window is hidden or has no area, whatever
/// else the state holds.
pub proof fn law_hidden_or_empty_window_is_not_drawn(state: PresentationState, window: Extent2D)
    requires
        state.occluded || is_empty_extent(window),
    ensures
        frame_start(state, window) == FrameStart::Skip,
{
}

/// After a resize to a non-empty size, the next frame drawn to a visible
/// window rebuilds the swapchain first.
pub proof fn law_resize_rebuilds_before_next_frame(
    state: PresentationState,
    size: Extent2D,
    window: Extent2D,
)
    requires
        !is_empty_extent(size),
        !state.occluded,
        !is_empty_extent(window),
    ensures
        frame_start(signal_applied(state, WindowSignal::Resized(size)), window)
            == (FrameStart::Draw { rebuild_first: true }),
{
}

/// A rebuild for a window with area clears the mark: the next frame is drawn
/// without another rebuild, unless a signal marks the swapchain again.
pub proof fn law_rebuild_clears_the_mark(state: PresentationState, window: Extent2D)
    requires
        !state.occluded,
        !is_empty_extent(window),
    ensures
        frame_start(rebuild_applied(state, window), window) == (FrameStart::Draw {
            rebuild_first: false,
        }),
{
}

} // verus!
