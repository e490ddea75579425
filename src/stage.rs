use vstd::prelude::*;

verus! {

/// Lifecycle stage of a fabric.
#[derive(Clone, Copy, Debug, PartialEq, Eq, Structural)]
pub enum Stage {
    Busy,
    Growing,
    Shaping,
    Slack,
    Realizing,
    Realized,
}

/// Whether a connector resists compression or tension.
#[derive(Clone, Copy, Debug, PartialEq, Eq, Structural)]
pub enum IntervalRole {
    Push,
    Pull,
}

impl IntervalRole {
    pub fn is_push(&self) -> (r: bool)
        ensures
            r == (*self == IntervalRole::Push),
    {
        match self {
            IntervalRole::Push => true,
            IntervalRole::Pull => false,
        }
    }
}


/// The persisted stage after the requests of steps one to four of a frame.
pub open spec fn requested_stage_after(stage: Stage, requested: Stage) -> Stage {
    let s1 = if stage == Stage::Busy && requested == Stage::Growing {
        Stage::Growing
    } else {
        stage
    };
    let s3 = if s1 == Stage::Shaping && (requested == Stage::Realizing || requested
        == Stage::Slack) {
        requested
    } else {
        s1
    };
    if s3 == Stage::Slack && (requested == Stage::Realizing || requested == Stage::Shaping) {
        requested
    } else {
        s3
    }
}

/// Whether a frame puts the lowest joint back at altitude zero.
pub open spec fn grounds(stage: Stage, requested: Stage) -> bool {
    let s1 = if stage == Stage::Busy && requested == Stage::Growing {
        Stage::Growing
    } else {
        stage
    };
    s1 == Stage::Growing || s1 == Stage::Shaping
}

/// Whether a frame enters Realizing, which restarts the fabric's busy countdown.
pub open spec fn starts_realizing(stage: Stage, requested: Stage) -> bool {
    (stage == Stage::Shaping || stage == Stage::Slack) && requested == Stage::Realizing
}

/// Whether a frame goes from Slack to Shaping, which ramps the push connectors.
pub open spec fn starts_shaping(stage: Stage, requested: Stage) -> bool {
    stage == Stage::Slack && requested == Stage::Shaping
}

/// `a - b`, or 0 where `b` exceeds `a`.
pub open spec fn clamped_sub(a: nat, b: nat) -> nat {
    if a >= b { (a - b) as nat } else { 0 }
}

/// The persisted stage, fabric busy countdown and reported stage that the busy
/// gate gives, from the persisted stage and countdown after the requests, whether
/// any connector is still ramping, and the frame's substep count.
pub open spec fn busy_gate(stage: Stage, busy: nat, settling: bool, substeps: nat) -> (
    Stage,
    nat,
    Stage,
) {
    if settling {
        (stage, busy, Stage::Busy)
    } else if busy > 0 {
        let next = clamped_sub(busy, substeps);
        if next == 0 {
            let promoted = if stage == Stage::Realizing {
                Stage::Realized
            } else {
                stage
            };
            (promoted, 0, promoted)
        } else {
            (stage, next, Stage::Busy)
        }
    } else {
        (stage, 0, stage)
    }
}


/// A frame that finds the fabric Growing always asks for the lowest joint to
/// be put back at altitude zero, whatever stage is requested.
pub proof fn lemma_growing_stays_grounded(requested: Stage)
    ensures
        grounds(Stage::Growing, requested),
        requested_stage_after(Stage::Growing, requested) == Stage::Growing,
{
}

/// From Slack, a request for Realizing enters Realizing and restarts the
/// fabric's busy countdown.
pub proof fn lemma_slack_enters_realizing()
    ensures
        requested_stage_after(Stage::Slack, Stage::Realizing) == Stage::Realizing,
        starts_realizing(Stage::Slack, Stage::Realizing),
        !starts_shaping(Stage::Slack, Stage::Realizing),
{
}

/// While Realizing, requests change nothing; a frame reports Busy as long as
/// the fabric's busy countdown stays above zero after it, and the frame on
/// which the countdown reaches zero makes the stage Realized and reports it.
pub proof fn lemma_realizing_reports_busy_until_realized(
    requested: Stage,
    busy: nat,
    settling: bool,
    substeps: nat,
)
    requires
        busy > 0,
    ensures
        requested_stage_after(Stage::Realizing, requested) == Stage::Realizing,
        !starts_realizing(Stage::Realizing, requested),
        !starts_shaping(Stage::Realizing, requested),
        ({
            let (stage, next, reported) = busy_gate(Stage::Realizing, busy, settling, substeps);
            &&& next > 0 ==> stage == Stage::Realizing && reported == Stage::Busy
            &&& next == 0 ==> stage == Stage::Realized && reported == Stage::Realized
            &&& next == if settling { busy } else { clamped_sub(busy, substeps) }
        }),
{
}

} // verus!
