//! The GPU resource manager: a state machine over the configured surface and
//! its multisampled color and depth targets.
//!
//! The surface starts unconfigured, is configured once at startup, and is
//! reconfigured on every non-degenerate resize; a resize request with a zero
//! dimension (a minimized window) is a no-op that leaves the prior resources
//! intact. Whenever the surface is (re)configured, the color and depth
//! targets are recreated together at the new size, so their dimensions and
//! sample count always match each other and the configured surface size.

use vstd::prelude::*;

verus! {

/// The size and sample count a frame target (color or depth) was created
/// with. The device-side texture itself lives outside the library; this
/// record is what the renderer's invariants speak of.
#[derive(Clone, Copy, PartialEq, Eq, Structural, Debug)]
pub struct TargetSpec {
    pub width: u32,
    pub height: u32,
    pub sample_count: u32,
}

/// The resource manager's state: whether the surface is configured, at what
/// size, and the specs of the two multisampled frame targets derived from it.
///
/// The transient resizing step of the machine is the body of
/// [`SurfaceTargets::request_resize`]: it never ends in anything but an
/// unchanged or a freshly configured state.
#[derive(Clone, Copy, PartialEq, Eq, Structural, Debug)]
pub struct SurfaceTargets {
    /// False until the first successful `configure`.
    pub configured: bool,
    /// Width of the presentable surface, in pixels; meaningful only when
    /// configured.
    pub surface_width: u32,
    /// Height of the presentable surface, in pixels; meaningful only when
    /// configured.
    pub surface_height: u32,
    /// The multisample count every frame target is created with; fixed at
    /// construction.
    pub sample_count: u32,
    /// The multisampled color target resolved into the presentable frame.
    pub color: TargetSpec,
    /// The multisampled depth target.
    pub depth: TargetSpec,
}

impl SurfaceTargets {
    /// Well-formedness: once configured, the surface size is non-degenerate
    /// and both frame targets match it, and each other, in dimensions and
    /// sample count.
    pub open spec fn wf(self) -> bool {
        self.configured ==> {
            &&& self.surface_width > 0
            &&& self.surface_height > 0
            &&& self.color == (TargetSpec {
                width: self.surface_width,
                height: self.surface_height,
                sample_count: self.sample_count,
            })
            &&& self.depth == (TargetSpec {
                width: self.surface_width,
                height: self.surface_height,
                sample_count: self.sample_count,
            })
        }
    }

    /// The state after configuring `self` at `width` x `height`: surface and
    /// both targets take the new size, the sample count is kept.
    pub open spec fn configured_at(self, width: u32, height: u32) -> SurfaceTargets {
        SurfaceTargets {
            configured: true,
            surface_width: width,
            surface_height: height,
            sample_count: self.sample_count,
            color: TargetSpec { width, height, sample_count: self.sample_count },
            depth: TargetSpec { width, height, sample_count: self.sample_count },
        }
    }

    /// The state after a resize request: applied when non-degenerate,
    /// a no-op otherwise.
    pub open spec fn resize_transition(self, width: u32, height: u32) -> SurfaceTargets {
        if width > 0 && height > 0 {
            self.configured_at(width, height)
        } else {
            self
        }
    }

    /// A fresh, unconfigured manager that will create every frame target
    /// with `sample_count` samples.
    pub fn new(sample_count: u32) -> (r: SurfaceTargets)
        ensures
            r == (SurfaceTargets {
                configured: false,
                surface_width: 0,
                surface_height: 0,
                sample_count,
                color: TargetSpec { width: 0, height: 0, sample_count: 0 },
                depth: TargetSpec { width: 0, height: 0, sample_count: 0 },
            }),
            r.wf(),
            !r.configured,
    {
        SurfaceTargets {
            configured: false,
            surface_width: 0,
            surface_height: 0,
            sample_count,
            color: TargetSpec { width: 0, height: 0, sample_count: 0 },
            depth: TargetSpec { width: 0, height: 0, sample_count: 0 },
        }
    }

    /// Establishes or reconfigures the surface at a non-degenerate size and
    /// recreates both frame targets to match it. Valid only for positive
    /// dimensions; degenerate sizes are the caller's no-op case (see
    /// [`SurfaceTargets::request_resize`]).
    pub fn configure(&mut self, width: u32, height: u32)
        requires
            old(self).wf(),
            width > 0,
            height > 0,
        ensures
            *final(self) == old(self).configured_at(width, height),
            final(self).wf(),
            final(self).configured,
    {
        self.configured = true;
        self.surface_width = width;
        self.surface_height = height;
        self.color = TargetSpec { width, height, sample_count: self.sample_count };
        self.depth = TargetSpec { width, height, sample_count: self.sample_count };
    }

    /// Handles a resize event: a non-degenerate request reconfigures the
    /// surface and recreates both frame targets at the new size; a request
    /// with a zero dimension is ignored and every prior resource is kept.
    /// Returns whether the request was applied, so the caller knows whether
    /// to recreate the device-side textures.
    pub fn request_resize(&mut self, width: u32, height: u32) -> (applied: bool)
        requires
            old(self).wf(),
            old(self).configured,
        ensures
            *final(self) == old(self).resize_transition(width, height),
            final(self).wf(),
            final(self).configured,
            applied <==> (width > 0 && height > 0),
            !applied ==> *final(self) == *old(self),
    {
        if width > 0 && height > 0 {
            self.configure(width, height);
            true
        } else {
            false
        }
    }
}

/// The state after a whole sequence of resize requests, applied in order.
pub open spec fn apply_resize_requests(s: SurfaceTargets, reqs: Seq<(u32, u32)>) -> SurfaceTargets
    decreases reqs.len(),
{
    if reqs.len() == 0 {
        s
    } else {
        apply_resize_requests(s, reqs.drop_last()).resize_transition(reqs.last().0, reqs.last().1)
    }
}

/// The most recent non-degenerate size among `reqs`, or `initial` when every
/// request was degenerate.
pub open spec fn last_applied_size(initial: (u32, u32), reqs: Seq<(u32, u32)>) -> (u32, u32)
    decreases reqs.len(),
{
    if reqs.len() == 0 {
        initial
    } else if reqs.last().0 > 0 && reqs.last().1 > 0 {
        reqs.last()
    } else {
        last_applied_size(initial, reqs.drop_last())
    }
}

/// Law: for every sequence of resize requests applied to a configured,
/// well-formed manager, the color and depth target dimensions equal the most
/// recently applied non-degenerate size (the initial size when none was
/// applied), and both targets share the manager's one sample count.
pub proof fn lemma_resize_sequence(s: SurfaceTargets, reqs: Seq<(u32, u32)>)
    requires
        s.wf(),
        s.configured,
    ensures
        ({
            let t = apply_resize_requests(s, reqs);
            let size = last_applied_size((s.surface_width, s.surface_height), reqs);
            &&& t.wf()
            &&& t.configured
            &&& t.sample_count == s.sample_count
            &&& (t.color.width, t.color.height) == size
            &&& (t.depth.width, t.depth.height) == size
            &&& (t.surface_width, t.surface_height) == size
            &&& t.color.sample_count == s.sample_count
            &&& t.depth.sample_count == s.sample_count
        }),
    decreases reqs.len(),
{
    if reqs.len() > 0 {
        lemma_resize_sequence(s, reqs.drop_last());
    }
}

} // verus!
