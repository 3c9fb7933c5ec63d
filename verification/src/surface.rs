//! Surface bookkeeping: choice of the surface format, resizing, and what a
//! frame does with the texture the surface hands out.

use vstd::prelude::*;

verus! {

/// Index of the surface format to use: the first sRGB format the surface
/// offers, else the first format offered.
pub fn choose_format(is_srgb: &[bool]) -> (i: usize)
    requires
        is_srgb@.len() > 0,
    ensures
        i < is_srgb@.len(),
        (exists|j: int| 0 <= j < is_srgb@.len() && is_srgb@[j]) ==> is_srgb@[i as int],
        (forall|j: int| 0 <= j < is_srgb@.len() ==> !is_srgb@[j]) ==> i == 0,
        forall|j: int| 0 <= j < i ==> !is_srgb@[j],
{
    let mut k: usize = 0;
    while k < is_srgb.len()
        invariant
            k <= is_srgb@.len(),
            forall|j: int| 0 <= j < k ==> !is_srgb@[j],
        decreases is_srgb@.len() - k,
    {
        if is_srgb[k] {
            return k;
        }
        k = k + 1;
    }
    0
}

/// The size the surface is configured with, and whether it has been
/// configured at all.
#[derive(Debug, Clone, Copy, PartialEq, Eq, Structural)]
pub struct SurfaceState {
    pub width: u32,
    pub height: u32,
    pub configured: bool,
}

/// The state after a window resize to `width` x `height`: a resize to a
/// non-empty size configures the surface with that size; an empty one is
/// ignored.
pub open spec fn resized(s: SurfaceState, width: u32, height: u32) -> SurfaceState {
    if width > 0 && height > 0 {
        SurfaceState { width, height, configured: true }
    } else {
        s
    }
}

/// The state after a sequence of resizes, first to last.
pub open spec fn after_resizes(s: SurfaceState, sizes: Seq<(u32, u32)>) -> SurfaceState
    decreases sizes.len(),
{
    if sizes.len() == 0 {
        s
    } else {
        resized(after_resizes(s, sizes.drop_last()), sizes.last().0, sizes.last().1)
    }
}

impl SurfaceState {
    /// The state of a surface created for a window of the given size: not yet
    /// configured.
    pub fn new(width: u32, height: u32) -> (s: SurfaceState)
        ensures
            s == (SurfaceState { width, height, configured: false }),
    {
        SurfaceState { width, height, configured: false }
    }

    /// Records a window resize; returns whether the surface (and the depth
    /// texture and projection) must be reconfigured for the new size.
    pub fn resize(&mut self, width: u32, height: u32) -> (reconfigure: bool)
        ensures
            reconfigure == (width > 0 && height > 0),
            *final(self) == resized(*old(self), width, height),
            reconfigure ==> final(self).width == width && final(self).height == height && final(self).configured,
            !reconfigure ==> *final(self) == *old(self),
    {
        if width > 0 && height > 0 {
            self.width = width;
            self.height = height;
            self.configured = true;
            true
        } else {
            false
        }
    }

    /// Whether a frame may be rendered: only once the surface is configured.
    pub fn can_render(&self) -> (b: bool)
        ensures
            b == self.configured,
    {
        self.configured
    }
}

/// What the surface handed out when asked for the next texture.
#[derive(Debug, Clone, Copy, PartialEq, Eq, Structural)]
pub enum SurfaceStatus {
    Success,
    Suboptimal,
    Timeout,
    Occluded,
    Outdated,
    Lost,
    Validation,
}

/// How the frame goes on after the texture was requested.
#[derive(Debug, Clone, Copy, PartialEq, Eq, Structural)]
pub enum FrameOutcome {
    /// Draw into the texture and present it.
    Draw,
    /// Render nothing this frame; not an error.
    Skip,
    /// The device is lost: the frame fails.
    DeviceLost,
    /// A validation error occurred: the frame fails with it.
    ValidationError,
}

/// The decision for one texture request.
#[derive(Debug, Clone, Copy, PartialEq, Eq, Structural)]
pub struct AcquirePlan {
    /// Reconfigure the surface before going on.
    pub reconfigure: bool,
    pub outcome: FrameOutcome,
}

/// Decides what to do with the surface's answer: draw into a good or merely
/// suboptimal texture, reconfiguring for the latter; skip a timed-out,
/// occluded or outdated frame, reconfiguring for the latter; fail on a lost
/// device or a validation error.
pub fn plan_acquire(status: SurfaceStatus) -> (p: AcquirePlan)
    ensures
        p.reconfigure <==> (status == SurfaceStatus::Suboptimal || status == SurfaceStatus::Outdated),
        p.outcome == FrameOutcome::Draw <==> (status == SurfaceStatus::Success || status == SurfaceStatus::Suboptimal),
        p.outcome == FrameOutcome::Skip <==> (status == SurfaceStatus::Timeout || status == SurfaceStatus::Occluded
            || status == SurfaceStatus::Outdated),
        p.outcome == FrameOutcome::DeviceLost <==> status == SurfaceStatus::Lost,
        p.outcome == FrameOutcome::ValidationError <==> status == SurfaceStatus::Validation,
{
    match status {
        SurfaceStatus::Success => AcquirePlan { reconfigure: false, outcome: FrameOutcome::Draw },
        SurfaceStatus::Suboptimal => AcquirePlan { reconfigure: true, outcome: FrameOutcome::Draw },
        SurfaceStatus::Timeout => AcquirePlan { reconfigure: false, outcome: FrameOutcome::Skip },
        SurfaceStatus::Occluded => AcquirePlan { reconfigure: false, outcome: FrameOutcome::Skip },
        SurfaceStatus::Outdated => AcquirePlan { reconfigure: true, outcome: FrameOutcome::Skip },
        SurfaceStatus::Lost => AcquirePlan { reconfigure: false, outcome: FrameOutcome::DeviceLost },
        SurfaceStatus::Validation => AcquirePlan { reconfigure: false, outcome: FrameOutcome::ValidationError },
    }
}

/// A surface created unconfigured renders nothing until a resize to a
/// non-empty size; after any sequence of resizes it is configured exactly
/// when one of them was non-empty, and then it has the size of the last
/// non-empty one.
pub proof fn configured_by_last_nonempty_resize(width: u32, height: u32, sizes: Seq<(u32, u32)>)
    ensures
        after_resizes(SurfaceState { width, height, configured: false }, sizes).configured
            <==> exists|i: int| 0 <= i < sizes.len() && sizes[i].0 > 0 && sizes[i].1 > 0,
        forall|i: int|
            #![trigger sizes[i]]
            0 <= i < sizes.len() && sizes[i].0 > 0 && sizes[i].1 > 0
            && (forall|j: int| i < j < sizes.len() ==> !(sizes[j].0 > 0 && sizes[j].1 > 0))
            ==> after_resizes(SurfaceState { width, height, configured: false }, sizes)
                == (SurfaceState { width: sizes[i].0, height: sizes[i].1, configured: true }),
    decreases sizes.len(),
{
    let s0 = SurfaceState { width, height, configured: false };
    if sizes.len() > 0 {
        let prefix = sizes.drop_last();
        configured_by_last_nonempty_resize(width, height, prefix);
        let last = sizes.last();
        if last.0 > 0 && last.1 > 0 {
            assert(sizes[sizes.len() - 1] == last);
        } else {
            assert forall|i: int| 0 <= i < sizes.len() && sizes[i].0 > 0 && sizes[i].1 > 0
                implies 0 <= i < prefix.len() && prefix[i] == sizes[i] by {
                if i == sizes.len() - 1 {
                    assert(sizes[i] == last);
                }
            }
            if exists|i: int| 0 <= i < prefix.len() && prefix[i].0 > 0 && prefix[i].1 > 0 {
                let i = choose|i: int| 0 <= i < prefix.len() && prefix[i].0 > 0 && prefix[i].1 > 0;
                assert(sizes[i] == prefix[i]);
            }
            assert forall|i: int|
                #![trigger sizes[i]]
                0 <= i < sizes.len() && sizes[i].0 > 0 && sizes[i].1 > 0
                && (forall|j: int| i < j < sizes.len() ==> !(sizes[j].0 > 0 && sizes[j].1 > 0))
                implies after_resizes(s0, sizes) == (SurfaceState { width: sizes[i].0, height: sizes[i].1, configured: true }) by {
                assert(i < sizes.len() - 1) by {
                    if i == sizes.len() - 1 {
                        assert(sizes[i] == last);
                    }
                }
                assert(prefix[i] == sizes[i]);
                assert forall|j: int| i < j < prefix.len() implies !(prefix[j].0 > 0 && prefix[j].1 > 0) by {
                    assert(prefix[j] == sizes[j]);
                }
            }
        }
    }
}

} // verus!
