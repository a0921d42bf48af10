//! Surface presentation outcomes and what a host does about each, plus the device-loss report
//! slot that a driver thread fills and the UI thread drains.
use vstd::prelude::*;

verus! {

/// Outcome of one surface presentation attempt.
#[derive(Clone, Copy, Debug, PartialEq, Eq, Structural)]
pub enum RenderOutcome {
    /// A frame was presented; `suboptimal` requests an immediate surface reconfiguration.
    Presented {
        /// Whether the presentation happened on a suboptimal configuration.
        suboptimal: bool,
    },
    /// The surface is outdated and must be reconfigured before the next present.
    Outdated,
    /// The surface was lost and must be recreated.
    Lost,
    /// The acquire timed out; the host should retry shortly.
    Timeout,
    /// The surface was occluded; the present is skipped.
    Occluded,
    /// The surface configuration failed validation.
    Validation,
}

/// What to do with the surface after a presentation attempt.
#[derive(Clone, Copy, Debug, PartialEq, Eq, Structural)]
pub enum SurfaceRepair {
    /// Leave the surface as it is.
    Keep,
    /// Reconfigure it for the current client size.
    Reconfigure,
    /// Recreate it from the window.
    Recreate,
}

/// What to do with the delayed surface retry after a presentation attempt.
#[derive(Clone, Copy, Debug, PartialEq, Eq, Structural)]
pub enum SurfaceRetry {
    /// Leave any pending retry as it is.
    Keep,
    /// Cancel a pending retry: the surface works again.
    Cancel,
    /// Schedule a retry shortly.
    Schedule,
}

/// A host's response to one presentation outcome.
#[derive(Clone, Copy, Debug, PartialEq, Eq, Structural)]
pub struct PresentResponse {
    /// The candidate frame became the presented one.
    pub frame_presented: bool,
    /// The presented frame no longer stands on screen, so input routed by it must wait.
    pub invalidate_presented: bool,
    /// Surface repair to perform.
    pub repair: SurfaceRepair,
    /// Whether to request another redraw.
    pub redraw: bool,
    /// Delayed retry handling.
    pub retry: SurfaceRetry,
    /// Whether the outcome is a terminal error.
    pub fails: bool,
}

/// The response the hosts give to each outcome: a present commits the frame and cancels retries
/// (reconfiguring and redrawing when suboptimal); an outdated or lost surface drops the
/// presented frame, is repaired and redrawn; a timeout schedules a retry; an occluded surface
/// is left alone; a validation failure is an error.
pub open spec fn response_to(outcome: RenderOutcome) -> PresentResponse {
    let none = PresentResponse {
        frame_presented: false,
        invalidate_presented: false,
        repair: SurfaceRepair::Keep,
        redraw: false,
        retry: SurfaceRetry::Keep,
        fails: false,
    };
    match outcome {
        RenderOutcome::Presented { suboptimal } => PresentResponse {
            frame_presented: true,
            repair: if suboptimal { SurfaceRepair::Reconfigure } else { SurfaceRepair::Keep },
            redraw: suboptimal,
            retry: SurfaceRetry::Cancel,
            ..none
        },
        RenderOutcome::Outdated => PresentResponse {
            invalidate_presented: true,
            repair: SurfaceRepair::Reconfigure,
            redraw: true,
            ..none
        },
        RenderOutcome::Lost => PresentResponse {
            invalidate_presented: true,
            repair: SurfaceRepair::Recreate,
            redraw: true,
            ..none
        },
        RenderOutcome::Timeout => PresentResponse { retry: SurfaceRetry::Schedule, ..none },
        RenderOutcome::Occluded => none,
        RenderOutcome::Validation => PresentResponse { fails: true, ..none },
    }
}

/// What a host does follows from what an outcome leaves on screen: an outdated or lost surface
/// leaves no frame there, so the presented frame is dropped, the surface repaired and a redraw
/// requested; a lost surface is answered as an outdated one, but recreated where that one is
/// reconfigured. Only a present commits the frame, only a timeout schedules a retry, only a
/// validation failure is an error, and a redraw comes exactly with a surface repair.
pub proof fn lemma_response_follows_outcome(outcome: RenderOutcome)
    ensures
        response_to(outcome).invalidate_presented <==> (outcome == RenderOutcome::Outdated
            || outcome == RenderOutcome::Lost),
        outcome == RenderOutcome::Outdated || outcome == RenderOutcome::Lost ==> {
            &&& response_to(outcome).redraw
            &&& response_to(outcome).repair != SurfaceRepair::Keep
            &&& !response_to(outcome).frame_presented
            &&& !response_to(outcome).fails
            &&& response_to(outcome).retry == SurfaceRetry::Keep
        },
        response_to(RenderOutcome::Outdated).repair == SurfaceRepair::Reconfigure,
        response_to(RenderOutcome::Lost) == (PresentResponse {
            repair: SurfaceRepair::Recreate,
            ..response_to(RenderOutcome::Outdated)
        }),
        response_to(outcome).frame_presented <==> outcome is Presented,
        response_to(outcome).retry == SurfaceRetry::Schedule <==> outcome == RenderOutcome::Timeout,
        response_to(outcome).retry == SurfaceRetry::Cancel <==> outcome is Presented,
        response_to(outcome).fails <==> outcome == RenderOutcome::Validation,
        response_to(outcome).redraw <==> response_to(outcome).repair != SurfaceRepair::Keep,
{
}

/// Decides the host's response to a presentation outcome.
pub fn respond_to_outcome(outcome: RenderOutcome) -> (response: PresentResponse)
    ensures
        response == response_to(outcome),
        response.invalidate_presented <==> (outcome == RenderOutcome::Outdated || outcome
            == RenderOutcome::Lost),
        response.redraw <==> response.repair != SurfaceRepair::Keep,
{
    let none = PresentResponse {
        frame_presented: false,
        invalidate_presented: false,
        repair: SurfaceRepair::Keep,
        redraw: false,
        retry: SurfaceRetry::Keep,
        fails: false,
    };
    match outcome {
        RenderOutcome::Presented { suboptimal } => PresentResponse {
            frame_presented: true,
            repair: if suboptimal { SurfaceRepair::Reconfigure } else { SurfaceRepair::Keep },
            redraw: suboptimal,
            retry: SurfaceRetry::Cancel,
            ..none
        },
        RenderOutcome::Outdated => PresentResponse {
            invalidate_presented: true,
            repair: SurfaceRepair::Reconfigure,
            redraw: true,
            ..none
        },
        RenderOutcome::Lost => PresentResponse {
            invalidate_presented: true,
            repair: SurfaceRepair::Recreate,
            redraw: true,
            ..none
        },
        RenderOutcome::Timeout => PresentResponse { retry: SurfaceRetry::Schedule, ..none },
        RenderOutcome::Occluded => none,
        RenderOutcome::Validation => PresentResponse { fails: true, ..none },
    }
}

/// Consecutive failed presentations after which a host stops requesting redraws on its own and
/// waits for the next viewport or input event.
pub const MAX_RENDER_RETRIES: u32 = 5;

/// What a host that backs off after repeated failures does after one render attempt.
#[derive(Clone, Copy, Debug, PartialEq, Eq, Structural)]
pub struct BackoffStep {
    /// Consecutive failures after this attempt.
    pub retries: u32,
    /// A frame was presented.
    pub presented: bool,
    /// Surface repair to perform.
    pub repair: SurfaceRepair,
    /// Whether to request another redraw.
    pub redraw: bool,
}

/// Failure count after one more failure (saturating at `u32::MAX`).
pub open spec fn one_more(retries: u32) -> u32 {
    if retries < u32::MAX {
        (retries + 1) as u32
    } else {
        u32::MAX
    }
}

/// The step after a render attempt with `retries` consecutive failures before it; `None` is a
/// render error. A clean present resets the count; a suboptimal present counts as one failure
/// and reconfigures; an outdated or lost surface counts and is reconfigured or recreated; a
/// timeout counts; an occluded surface changes nothing; a validation or render error counts.
/// A redraw is requested after a counted retry only while fewer than `MAX_RENDER_RETRIES`
/// failures have accumulated.
pub open spec fn backoff_step(retries: u32, outcome: Option<RenderOutcome>) -> BackoffStep {
    match outcome {
        Some(RenderOutcome::Occluded) => BackoffStep {
            retries,
            presented: false,
            repair: SurfaceRepair::Keep,
            redraw: false,
        },
        Some(RenderOutcome::Presented { suboptimal }) => if suboptimal {
            BackoffStep {
                retries: 1,
                presented: true,
                repair: SurfaceRepair::Reconfigure,
                redraw: 1 < MAX_RENDER_RETRIES,
            }
        } else {
            BackoffStep { retries: 0, presented: true, repair: SurfaceRepair::Keep, redraw: false }
        },
        Some(RenderOutcome::Outdated) => BackoffStep {
            retries: one_more(retries),
            presented: false,
            repair: SurfaceRepair::Reconfigure,
            redraw: one_more(retries) < MAX_RENDER_RETRIES,
        },
        Some(RenderOutcome::Lost) => BackoffStep {
            retries: one_more(retries),
            presented: false,
            repair: SurfaceRepair::Recreate,
            redraw: one_more(retries) < MAX_RENDER_RETRIES,
        },
        Some(RenderOutcome::Timeout) => BackoffStep {
            retries: one_more(retries),
            presented: false,
            repair: SurfaceRepair::Keep,
            redraw: one_more(retries) < MAX_RENDER_RETRIES,
        },
        Some(RenderOutcome::Validation) | None => BackoffStep {
            retries: one_more(retries),
            presented: false,
            repair: SurfaceRepair::Keep,
            redraw: false,
        },
    }
}

/// Decides the step of a host that backs off after repeated presentation failures.
pub fn backoff_after_render(retries: u32, outcome: Option<RenderOutcome>) -> (step: BackoffStep)
    ensures
        step == backoff_step(retries, outcome),
{
    let failed: u32 = retries.saturating_add(1);
    match outcome {
        Some(RenderOutcome::Occluded) => BackoffStep {
            retries,
            presented: false,
            repair: SurfaceRepair::Keep,
            redraw: false,
        },
        Some(RenderOutcome::Presented { suboptimal }) => if suboptimal {
            BackoffStep {
                retries: 1,
                presented: true,
                repair: SurfaceRepair::Reconfigure,
                redraw: 1 < MAX_RENDER_RETRIES,
            }
        } else {
            BackoffStep { retries: 0, presented: true, repair: SurfaceRepair::Keep, redraw: false }
        },
        Some(RenderOutcome::Outdated) => BackoffStep {
            retries: failed,
            presented: false,
            repair: SurfaceRepair::Reconfigure,
            redraw: failed < MAX_RENDER_RETRIES,
        },
        Some(RenderOutcome::Lost) => BackoffStep {
            retries: failed,
            presented: false,
            repair: SurfaceRepair::Recreate,
            redraw: failed < MAX_RENDER_RETRIES,
        },
        Some(RenderOutcome::Timeout) => BackoffStep {
            retries: failed,
            presented: false,
            repair: SurfaceRepair::Keep,
            redraw: failed < MAX_RENDER_RETRIES,
        },
        Some(RenderOutcome::Validation) | None => BackoffStep {
            retries: failed,
            presented: false,
            repair: SurfaceRepair::Keep,
            redraw: false,
        },
    }
}

/// Repeated failures stop the redraw loop: once `MAX_RENDER_RETRIES` failures accumulated, no
/// outcome but a present requests a redraw, and a clean present always resets the count.
pub proof fn lemma_backoff_stops_busy_loop(retries: u32, outcome: Option<RenderOutcome>)
    requires
        retries + 1 >= MAX_RENDER_RETRIES,
    ensures
        !(outcome matches Some(RenderOutcome::Presented { .. })) ==> !backoff_step(retries, outcome).redraw,
        backoff_step(retries, Some(RenderOutcome::Presented { suboptimal: false })).retries == 0,
{
}

/// A backing-off host repairs the surface as the plain response does and commits a frame
/// exactly when it does. An occlusion leaves the count alone, a clean present clears it, a
/// suboptimal present restarts it at one, and every other outcome, a render error too, adds one
/// failure (saturating); an outdated, lost or timed-out surface is redrawn while the failures
/// stay below `MAX_RENDER_RETRIES`, a validation or render error never.
pub proof fn lemma_backoff_agrees_with_response(retries: u32, outcome: Option<RenderOutcome>)
    ensures
        outcome matches Some(o) ==> backoff_step(retries, outcome).repair == response_to(o).repair
            && backoff_step(retries, outcome).presented == response_to(o).frame_presented,
        outcome is None ==> !backoff_step(retries, outcome).presented && backoff_step(
            retries,
            outcome,
        ).repair == SurfaceRepair::Keep,
        outcome == Some(RenderOutcome::Occluded) ==> backoff_step(retries, outcome).retries
            == retries && !backoff_step(retries, outcome).redraw,
        outcome == Some(RenderOutcome::Presented { suboptimal: true }) ==> backoff_step(
            retries,
            outcome,
        ).retries == 1,
        outcome == Some(RenderOutcome::Presented { suboptimal: false }) ==> backoff_step(
            retries,
            outcome,
        ).retries == 0,
        outcome is None || outcome == Some(RenderOutcome::Outdated) || outcome == Some(
            RenderOutcome::Lost,
        ) || outcome == Some(RenderOutcome::Timeout) || outcome == Some(RenderOutcome::Validation)
            ==> backoff_step(retries, outcome).retries as int == (if retries == u32::MAX {
            retries as int
        } else {
            retries + 1
        }),
        outcome == Some(RenderOutcome::Outdated) || outcome == Some(RenderOutcome::Lost) || outcome
            == Some(RenderOutcome::Timeout) ==> (backoff_step(retries, outcome).redraw <==> retries
            + 1 < MAX_RENDER_RETRIES),
        outcome is None || outcome == Some(RenderOutcome::Validation) ==> !backoff_step(
            retries,
            outcome,
        ).redraw,
{
}

/// A device-loss notification; `generation` tells late callbacks of an older GPU session apart.
#[derive(Clone, Debug)]
pub struct DeviceLossReport {
    /// GPU session generation whose device was lost.
    pub generation: u64,
    /// Driver diagnostic.
    pub detail: String,
}

/// Whether a report of `generation` replaces what the slot holds: an empty slot, or one holding
/// a report of the same or an older generation.
pub open spec fn replaces(slot: Option<DeviceLossReport>, generation: u64) -> bool {
    match slot {
        None => true,
        Some(current) => current.generation <= generation,
    }
}

/// Files a device-loss report into the shared slot, unless the slot holds a report of a newer
/// generation; returns whether the report was stored.
pub fn file_device_loss(slot: &mut Option<DeviceLossReport>, report: DeviceLossReport) -> (stored: bool)
    ensures
        stored == replaces(*old(slot), report.generation),
        *final(slot) == after_filing(*old(slot), report),
{
    let replace = match slot {
        None => true,
        Some(current) => current.generation <= report.generation,
    };
    if replace {
        *slot = Some(report);
    }
    replace
}

/// Whether a drained report concerns the live GPU session: it must come from the live
/// session's generation while a session exists.
pub fn report_concerns_live_session(report: &DeviceLossReport, live_generation: u64, has_session: bool) -> (concerns: bool)
    ensures
        concerns == (has_session && report.generation == live_generation),
{
    has_session && report.generation == live_generation
}

/// The slot after filing `report` into it.
pub open spec fn after_filing(slot: Option<DeviceLossReport>, report: DeviceLossReport) -> Option<DeviceLossReport> {
    if replaces(slot, report.generation) {
        Some(report)
    } else {
        slot
    }
}

/// Whatever order two reports are filed in, the slot ends up holding one of the newest
/// generation, and a later report of an older generation never displaces a newer one.
pub proof fn lemma_newest_generation_wins(
    slot: Option<DeviceLossReport>,
    first: DeviceLossReport,
    second: DeviceLossReport,
)
    ensures
        after_filing(after_filing(None, first), second) matches Some(kept) && kept.generation == (
        if first.generation >= second.generation {
            first.generation
        } else {
            second.generation
        }),
        slot matches Some(current) && second.generation < current.generation ==> after_filing(
            slot,
            second,
        ) == slot,
{
}

} // verus!
