//! Classification of surface-acquisition failures.
//!
//! Acquiring a presentable frame is the one operation of the render loop
//! where partial failure is anticipated rather than treated as a crash. The
//! three-way classification here is the core failure-handling contract of
//! the renderer: lost or outdated surfaces are reconfigured and the tick is
//! skipped, timeouts are logged and retried next tick, and out-of-memory is
//! fatal.

use crate::targets::SurfaceTargets;
use vstd::prelude::*;

verus! {

/// The vertex-input slot the shared per-instance transform buffer is bound
/// at, distinct from the mesh's own per-vertex slot so one mesh can be drawn
/// many times without duplicating vertex data.
pub const INSTANCE_BUFFER_SLOT: u32 = 1;

/// Why acquiring a presentable frame failed, as the surface reports it.
#[derive(Clone, Copy, PartialEq, Eq, Structural, Debug)]
pub enum SurfaceError {
    /// The surface was lost and must be reconfigured before the next acquire.
    Lost,
    /// The surface no longer matches the window and must be reconfigured.
    Outdated,
    /// The device is out of memory; the process must terminate.
    OutOfMemory,
    /// The acquire timed out; retry next tick without reconfiguring.
    Timeout,
}

/// How the frame orchestrator must react to a failed acquisition.
#[derive(Clone, Copy, PartialEq, Eq, Structural, Debug)]
pub enum ErrorClass {
    /// Reconfigure at the last known size and retry on the next tick.
    Recoverable,
    /// Surface the error and terminate the process.
    Fatal,
    /// Log and retry next tick; no reconfiguration.
    Transient,
}

/// Classifies a surface-acquisition failure: `Lost` and `Outdated` are
/// recoverable, `OutOfMemory` is fatal, `Timeout` is transient.
pub fn classify_surface_error(e: SurfaceError) -> (c: ErrorClass)
    ensures
        c == ErrorClass::Recoverable <==> (e == SurfaceError::Lost || e == SurfaceError::Outdated),
        c == ErrorClass::Fatal <==> e == SurfaceError::OutOfMemory,
        c == ErrorClass::Transient <==> e == SurfaceError::Timeout,
{
    match e {
        SurfaceError::Lost | SurfaceError::Outdated => ErrorClass::Recoverable,
        SurfaceError::OutOfMemory => ErrorClass::Fatal,
        SurfaceError::Timeout => ErrorClass::Transient,
    }
}

/// Whether the frame orchestrator got a presentable frame this tick.
#[derive(Clone, Copy, PartialEq, Eq, Structural, Debug)]
pub enum AcquireResult {
    /// A presentable frame is in hand; the tick renders.
    Acquired,
    /// Acquisition failed; the tick reacts per the error's class.
    Failed(SurfaceError),
}

/// The two fixed pipelines of the renderer.
#[derive(Clone, Copy, PartialEq, Eq, Structural, Debug)]
pub enum PipelineKind {
    /// The light-marker pipeline drawing the light's mesh once.
    LightMarker,
    /// The main lit, textured, instanced pipeline.
    Main,
}

/// One recorded step of the single per-tick render pass.
#[derive(Clone, Copy, PartialEq, Eq, Structural, Debug)]
pub enum PassCommand {
    /// Bind the shared per-instance transform buffer at a vertex-input slot.
    BindInstanceBuffer { slot: u32 },
    /// Switch to one of the two fixed pipelines.
    BindPipeline { pipeline: PipelineKind },
    /// Draw the light-marker mesh once.
    DrawLightMarker,
    /// Draw the main mesh once per instance in the given range.
    DrawInstanced { first_instance: u32, instance_count: u32 },
}

/// The ordered command sequence of one frame: bind the instance buffer at
/// its reserved slot, draw the light marker with its pipeline, then draw the
/// main mesh instanced over all live instances.
pub open spec fn render_pass_commands(instance_count: u32) -> Seq<PassCommand> {
    seq![
        PassCommand::BindInstanceBuffer { slot: INSTANCE_BUFFER_SLOT },
        PassCommand::BindPipeline { pipeline: PipelineKind::LightMarker },
        PassCommand::DrawLightMarker,
        PassCommand::BindPipeline { pipeline: PipelineKind::Main },
        PassCommand::DrawInstanced { first_instance: 0, instance_count },
    ]
}

/// Whether a pass command submits draw work.
pub open spec fn is_draw(c: PassCommand) -> bool {
    c is DrawLightMarker || c is DrawInstanced
}

/// How many draw commands a pass records.
pub open spec fn draw_count(cmds: Seq<PassCommand>) -> nat
    decreases cmds.len(),
{
    if cmds.len() == 0 {
        0
    } else {
        draw_count(cmds.drop_last()) + if is_draw(cmds.last()) {
            1nat
        } else {
            0nat
        }
    }
}

/// Records the one render pass of a tick: exactly the commands of
/// [`render_pass_commands`], two of them draws.
pub fn render_plan(instance_count: u32) -> (plan: Vec<PassCommand>)
    ensures
        plan@ == render_pass_commands(instance_count),
        draw_count(plan@) == 2,
{
    let plan = vec![
        PassCommand::BindInstanceBuffer { slot: INSTANCE_BUFFER_SLOT },
        PassCommand::BindPipeline { pipeline: PipelineKind::LightMarker },
        PassCommand::DrawLightMarker,
        PassCommand::BindPipeline { pipeline: PipelineKind::Main },
        PassCommand::DrawInstanced { first_instance: 0, instance_count },
    ];
    proof {
        assert(plan@ =~= render_pass_commands(instance_count));
        reveal_with_fuel(draw_count, 6);
    }
    plan
}

/// What the shell must do for the rest of a tick, decided from the
/// acquisition outcome.
#[derive(Debug)]
pub enum TickAction {
    /// Record and submit this pass, then present the acquired frame.
    Render { plan: Vec<PassCommand> },
    /// Reconfigure the surface at this size, skip rendering this tick.
    Reconfigure { width: u32, height: u32 },
    /// Log the timeout and retry next tick; nothing is reconfigured.
    SkipFrame,
    /// Out of memory: surface the error and terminate the process.
    Terminate,
}

/// How many draws a tick action submits.
pub open spec fn draws_of(a: TickAction) -> nat {
    match a {
        TickAction::Render { plan } => draw_count(plan@),
        _ => 0,
    }
}

/// How many surface reconfigurations a tick action performs.
pub open spec fn reconfigures_of(a: TickAction) -> nat {
    match a {
        TickAction::Reconfigure { .. } => 1,
        _ => 0,
    }
}

/// The render phase of one tick, after frame acquisition: a frame in hand is
/// rendered with the full pass; a recoverable failure (`Lost`/`Outdated`)
/// yields exactly one reconfigure at the last successfully configured size
/// and zero draws for the tick; a timeout skips the tick; out of memory
/// terminates.
pub fn handle_acquire(targets: &SurfaceTargets, outcome: AcquireResult, instance_count: u32) -> (action: TickAction)
    requires
        targets.wf(),
        targets.configured,
    ensures
        outcome == AcquireResult::Acquired ==> (action matches TickAction::Render { plan }
            && plan@ == render_pass_commands(instance_count) && draws_of(action) == 2
            && reconfigures_of(action) == 0),
        (outcome == AcquireResult::Failed(SurfaceError::Lost) || outcome
            == AcquireResult::Failed(SurfaceError::Outdated)) ==> (action
            matches TickAction::Reconfigure { width, height } && width == targets.surface_width
            && height == targets.surface_height && reconfigures_of(action) == 1),
        outcome == AcquireResult::Failed(SurfaceError::OutOfMemory) ==> action
            is Terminate && reconfigures_of(action) == 0,
        outcome == AcquireResult::Failed(SurfaceError::Timeout) ==> action is SkipFrame
            && reconfigures_of(action) == 0,
        outcome is Failed ==> draws_of(action) == 0,
{
    match outcome {
        AcquireResult::Acquired => TickAction::Render { plan: render_plan(instance_count) },
        AcquireResult::Failed(e) => match classify_surface_error(e) {
            ErrorClass::Recoverable => TickAction::Reconfigure {
                width: targets.surface_width,
                height: targets.surface_height,
            },
            ErrorClass::Fatal => TickAction::Terminate,
            ErrorClass::Transient => TickAction::SkipFrame,
        },
    }
}

} // verus!
