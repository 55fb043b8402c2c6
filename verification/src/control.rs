use vstd::prelude::*;

verus! {

/// The stage of a shot. The continuous data that goes with each stage
/// (aim direction, power, swing timers) is held by the caller.
#[derive(Debug, Clone, Copy, PartialEq, Eq, Structural)]
pub enum ControlPhase {
    /// The ball is moving; the player cannot act.
    Disabled,
    /// The ball rests and the player chooses a direction.
    Direction,
    /// The power gauge oscillates until the player confirms it.
    Power,
    /// The precision gauge oscillates until the player confirms it.
    Precision,
    /// The club swings towards the ball.
    Hitting,
}

/// What a click of the shooting button does.
#[derive(Debug, Clone, Copy, PartialEq, Eq, Structural)]
pub enum ClickOutcome {
    /// Nothing happens.
    Ignore,
    /// Fix the aim direction and start the power gauge.
    BeginPower,
    /// Confirm the current gauge after a delay, in milliseconds, equal to the fatigue.
    DelayConfirm(u32),
}

/// How fast the ball moves, as compared with the rest threshold.
#[derive(Debug, Clone, Copy, PartialEq, Eq, Structural)]
pub enum Motion {
    /// Speed below the threshold.
    Resting,
    /// Speed exactly at the threshold.
    AtThreshold,
    /// Speed above the threshold.
    Moving,
}

/// What one simulation step does to the shot control.
#[derive(Debug, Clone, Copy, PartialEq, Eq, Structural)]
pub enum TickOutcome {
    /// The control stays as it is.
    Stay,
    /// The ball came to rest: the player may aim.
    Enable,
    /// The ball moves: the control is disabled.
    Disable,
    /// The gauge of the current stage advances by the elapsed time.
    AdvanceGauge,
    /// The swing advances but has not reached the ball yet.
    AdvanceSwing,
    /// The swing reaches the ball: the shot is applied and the control is disabled.
    Strike,
}

/// Which aiming aids are drawn around the ball.
#[derive(Debug, Clone, Copy, PartialEq, Eq, Structural)]
pub struct AimMarkers {
    pub arrow: bool,
    pub club: bool,
}

pub open spec fn spec_click_outcome(
    phase: ControlPhase,
    finished: bool,
    confirm_pending: bool,
    fatigue_ms: u32,
) -> ClickOutcome {
    match phase {
        ControlPhase::Disabled | ControlPhase::Hitting => ClickOutcome::Ignore,
        ControlPhase::Direction => if finished {
            ClickOutcome::Ignore
        } else {
            ClickOutcome::BeginPower
        },
        ControlPhase::Power | ControlPhase::Precision => if confirm_pending {
            ClickOutcome::Ignore
        } else {
            ClickOutcome::DelayConfirm(fatigue_ms)
        },
    }
}

/// Decides what a click does, given the stage of the shot, whether the course
/// is finished, whether a confirmation is already pending, and the fatigue.
pub fn click_outcome(
    phase: ControlPhase,
    finished: bool,
    confirm_pending: bool,
    fatigue_ms: u32,
) -> (r: ClickOutcome)
    ensures
        r == spec_click_outcome(phase, finished, confirm_pending, fatigue_ms),
        (phase == ControlPhase::Disabled || phase == ControlPhase::Hitting) ==> r
            == ClickOutcome::Ignore,
        phase == ControlPhase::Direction ==> r == (if finished {
            ClickOutcome::Ignore
        } else {
            ClickOutcome::BeginPower
        }),
        (phase == ControlPhase::Power || phase == ControlPhase::Precision) ==> r == (if confirm_pending {
            ClickOutcome::Ignore
        } else {
            ClickOutcome::DelayConfirm(fatigue_ms)
        }),
{
    match phase {
        ControlPhase::Disabled | ControlPhase::Hitting => ClickOutcome::Ignore,
        ControlPhase::Direction => {
            if finished {
                ClickOutcome::Ignore
            } else {
                ClickOutcome::BeginPower
            }
        },
        ControlPhase::Power | ControlPhase::Precision => {
            if confirm_pending {
                ClickOutcome::Ignore
            } else {
                ClickOutcome::DelayConfirm(fatigue_ms)
            }
        },
    }
}

pub open spec fn spec_phase_after_confirm(phase: ControlPhase) -> ControlPhase {
    match phase {
        ControlPhase::Power => ControlPhase::Precision,
        ControlPhase::Precision => ControlPhase::Hitting,
        _ => phase,
    }
}

/// The stage that a confirmed gauge leads to: power leads to precision,
/// precision to the swing; any other stage is left unchanged.
pub fn phase_after_confirm(phase: ControlPhase) -> (r: ControlPhase)
    ensures
        r == spec_phase_after_confirm(phase),
        phase == ControlPhase::Power ==> r == ControlPhase::Precision,
        phase == ControlPhase::Precision ==> r == ControlPhase::Hitting,
        (phase != ControlPhase::Power && phase != ControlPhase::Precision) ==> r == phase,
{
    match phase {
        ControlPhase::Power => ControlPhase::Precision,
        ControlPhase::Precision => ControlPhase::Hitting,
        _ => phase,
    }
}

pub open spec fn spec_tick_outcome(phase: ControlPhase, motion: Motion, swing_done: bool) -> TickOutcome {
    match phase {
        ControlPhase::Disabled => if motion == Motion::Resting {
            TickOutcome::Enable
        } else {
            TickOutcome::Stay
        },
        _ => if motion == Motion::Moving {
            TickOutcome::Disable
        } else {
            match phase {
                ControlPhase::Power | ControlPhase::Precision => TickOutcome::AdvanceGauge,
                ControlPhase::Hitting => if swing_done {
                    TickOutcome::Strike
                } else {
                    TickOutcome::AdvanceSwing
                },
                _ => TickOutcome::Stay,
            }
        },
    }
}

/// Decides what a simulation step does to the shot control. `swing_done`
/// tells whether the swing, once advanced by this step, reaches the ball.
pub fn tick_outcome(phase: ControlPhase, motion: Motion, swing_done: bool) -> (r: TickOutcome)
    ensures
        r == spec_tick_outcome(phase, motion, swing_done),
        phase == ControlPhase::Disabled ==> r == (if motion == Motion::Resting {
            TickOutcome::Enable
        } else {
            TickOutcome::Stay
        }),
        (phase != ControlPhase::Disabled && motion == Motion::Moving) ==> r == TickOutcome::Disable,
        (phase == ControlPhase::Direction && motion != Motion::Moving) ==> r == TickOutcome::Stay,
        ((phase == ControlPhase::Power || phase == ControlPhase::Precision) && motion != Motion::Moving)
            ==> r == TickOutcome::AdvanceGauge,
        (phase == ControlPhase::Hitting && motion != Motion::Moving) ==> r == (if swing_done {
            TickOutcome::Strike
        } else {
            TickOutcome::AdvanceSwing
        }),
{
    match phase {
        ControlPhase::Disabled => {
            if motion == Motion::Resting {
                TickOutcome::Enable
            } else {
                TickOutcome::Stay
            }
        },
        _ => {
            if motion == Motion::Moving {
                TickOutcome::Disable
            } else {
                match phase {
                    ControlPhase::Power | ControlPhase::Precision => TickOutcome::AdvanceGauge,
                    ControlPhase::Hitting => {
                        if swing_done {
                            TickOutcome::Strike
                        } else {
                            TickOutcome::AdvanceSwing
                        }
                    },
                    _ => TickOutcome::Stay,
                }
            }
        },
    }
}

pub open spec fn spec_phase_after_tick(phase: ControlPhase, outcome: TickOutcome) -> ControlPhase {
    match outcome {
        TickOutcome::Enable => ControlPhase::Direction,
        TickOutcome::Disable | TickOutcome::Strike => ControlPhase::Disabled,
        _ => phase,
    }
}

/// The stage of the shot after a step with the given outcome.
pub fn phase_after_tick(phase: ControlPhase, outcome: TickOutcome) -> (r: ControlPhase)
    ensures
        r == spec_phase_after_tick(phase, outcome),
        outcome == TickOutcome::Enable ==> r == ControlPhase::Direction,
        (outcome == TickOutcome::Disable || outcome == TickOutcome::Strike) ==> r
            == ControlPhase::Disabled,
        (outcome == TickOutcome::Stay || outcome == TickOutcome::AdvanceGauge || outcome
            == TickOutcome::AdvanceSwing) ==> r == phase,
{
    match outcome {
        TickOutcome::Enable => ControlPhase::Direction,
        TickOutcome::Disable | TickOutcome::Strike => ControlPhase::Disabled,
        _ => phase,
    }
}

pub open spec fn spec_countdown(remaining_ms: u32, elapsed_ms: u32) -> Option<u32> {
    if remaining_ms <= elapsed_ms {
        None
    } else {
        Some((remaining_ms - elapsed_ms) as u32)
    }
}

/// Counts a pending confirmation down by the elapsed time. `None` means the
/// delay has run out and the confirmation happens now.
pub fn countdown(remaining_ms: u32, elapsed_ms: u32) -> (r: Option<u32>)
    ensures
        r == spec_countdown(remaining_ms, elapsed_ms),
        remaining_ms > elapsed_ms ==> r == Some((remaining_ms - elapsed_ms) as u32),
        remaining_ms <= elapsed_ms ==> r is None,
        r matches Some(left) ==> left + elapsed_ms == remaining_ms,
{
    if remaining_ms <= elapsed_ms {
        None
    } else {
        Some(remaining_ms - elapsed_ms)
    }
}

/// How long the club takes to reach the ball, in milliseconds.
pub const SWING_MS: u32 = 300;

/// Advances a swing that has run `swing_ms` milliseconds by `elapsed_ms`;
/// returns the new swing time and whether the club has reached the ball.
pub fn advance_swing(swing_ms: u32, elapsed_ms: u32) -> (r: (u32, bool))
    requires
        swing_ms + elapsed_ms <= u32::MAX,
    ensures
        r.0 == swing_ms + elapsed_ms,
        r.1 == (swing_ms + elapsed_ms >= SWING_MS),
{
    let t = swing_ms + elapsed_ms;
    (t, t >= SWING_MS)
}

pub open spec fn spec_aim_markers(phase: ControlPhase, finished: bool) -> AimMarkers {
    if finished {
        AimMarkers { arrow: false, club: false }
    } else {
        match phase {
            ControlPhase::Disabled => AimMarkers { arrow: false, club: false },
            ControlPhase::Hitting => AimMarkers { arrow: false, club: true },
            _ => AimMarkers { arrow: true, club: true },
        }
    }
}

/// Which aiming aids are drawn for the given stage: none once the course is
/// finished or while the ball moves, only the club during the swing, and the
/// arrow with the club while aiming.
pub fn aim_markers(phase: ControlPhase, finished: bool) -> (r: AimMarkers)
    ensures
        r == spec_aim_markers(phase, finished),
        (finished || phase == ControlPhase::Disabled) ==> !r.arrow && !r.club,
        (!finished && phase == ControlPhase::Hitting) ==> !r.arrow && r.club,
        (!finished && (phase == ControlPhase::Direction || phase == ControlPhase::Power || phase
            == ControlPhase::Precision)) ==> r.arrow && r.club,
{
    if finished {
        AimMarkers { arrow: false, club: false }
    } else {
        match phase {
            ControlPhase::Disabled => AimMarkers { arrow: false, club: false },
            ControlPhase::Hitting => AimMarkers { arrow: false, club: true },
            _ => AimMarkers { arrow: true, club: true },
        }
    }
}

/// A full shot: from rest, a click starts the power gauge, a click schedules
/// its confirmation after the fatigue delay, the confirmation moves on to the
/// precision gauge, the same again moves on to the swing, and the swing ends
/// in a strike that disables the control.
pub proof fn law_shot_sequence(fatigue_ms: u32)
    ensures
        spec_click_outcome(ControlPhase::Direction, false, false, fatigue_ms)
            == ClickOutcome::BeginPower,
        spec_click_outcome(ControlPhase::Power, false, false, fatigue_ms) == ClickOutcome::DelayConfirm(
            fatigue_ms,
        ),
        spec_phase_after_confirm(ControlPhase::Power) == ControlPhase::Precision,
        spec_click_outcome(ControlPhase::Precision, false, false, fatigue_ms)
            == ClickOutcome::DelayConfirm(fatigue_ms),
        spec_phase_after_confirm(ControlPhase::Precision) == ControlPhase::Hitting,
        spec_tick_outcome(ControlPhase::Hitting, Motion::Resting, true) == TickOutcome::Strike,
        spec_phase_after_tick(ControlPhase::Hitting, TickOutcome::Strike) == ControlPhase::Disabled,
{
}

/// A strike happens only at the end of a swing, with the ball not moving.
pub proof fn law_strike_only_from_swing(phase: ControlPhase, motion: Motion, swing_done: bool)
    ensures
        spec_tick_outcome(phase, motion, swing_done) == TickOutcome::Strike ==> {
            &&& phase == ControlPhase::Hitting
            &&& swing_done
            &&& motion != Motion::Moving
        },
{
}

/// Whatever the stage, a moving ball leaves the control disabled after the step.
pub proof fn law_moving_ball_disables(phase: ControlPhase, swing_done: bool)
    ensures
        spec_phase_after_tick(phase, spec_tick_outcome(phase, Motion::Moving, swing_done))
            == ControlPhase::Disabled,
{
}

/// A resting ball with the control disabled lets the player aim after the step.
pub proof fn law_resting_ball_enables(swing_done: bool)
    ensures
        spec_phase_after_tick(
            ControlPhase::Disabled,
            spec_tick_outcome(ControlPhase::Disabled, Motion::Resting, swing_done),
        ) == ControlPhase::Direction,
{
}

/// Clicks do nothing while the control is disabled or the club swings,
/// nor once the course is finished unless a gauge is running, nor while a
/// confirmation is already pending.
pub proof fn law_ignored_clicks(phase: ControlPhase, finished: bool, confirm_pending: bool, fatigue_ms: u32)
    ensures
        (phase == ControlPhase::Disabled || phase == ControlPhase::Hitting)
            ==> spec_click_outcome(phase, finished, confirm_pending, fatigue_ms) == ClickOutcome::Ignore,
        (phase == ControlPhase::Direction && finished) ==> spec_click_outcome(
            phase,
            finished,
            confirm_pending,
            fatigue_ms,
        ) == ClickOutcome::Ignore,
        ((phase == ControlPhase::Power || phase == ControlPhase::Precision) && confirm_pending)
            ==> spec_click_outcome(phase, finished, confirm_pending, fatigue_ms) == ClickOutcome::Ignore,
{
}

/// Confirming changes only a running gauge, and two confirmations lead from
/// the power gauge to the swing.
pub proof fn law_confirm_only_moves_gauges(phase: ControlPhase)
    ensures
        (phase != ControlPhase::Power && phase != ControlPhase::Precision) ==> spec_phase_after_confirm(
            phase,
        ) == phase,
        spec_phase_after_confirm(spec_phase_after_confirm(ControlPhase::Power)) == ControlPhase::Hitting,
{
}

/// Counting a delay down in two steps is the same as counting it down once by
/// the sum of the two steps.
pub proof fn law_countdown_composes(remaining_ms: u32, first_ms: u32, second_ms: u32)
    requires
        first_ms + second_ms <= u32::MAX,
    ensures
        spec_countdown(remaining_ms, (first_ms + second_ms) as u32) == match spec_countdown(
            remaining_ms,
            first_ms,
        ) {
            None => None,
            Some(left) => spec_countdown(left, second_ms),
        },
{
}

/// While the ball does not move, a running gauge keeps advancing and stays
/// in its stage, whatever the swing reports.
pub proof fn law_gauges_advance_while_ball_still(phase: ControlPhase, motion: Motion, swing_done: bool)
    requires
        phase == ControlPhase::Power || phase == ControlPhase::Precision,
        motion != Motion::Moving,
    ensures
        spec_tick_outcome(phase, motion, swing_done) == TickOutcome::AdvanceGauge,
        spec_phase_after_tick(phase, spec_tick_outcome(phase, motion, swing_done)) == phase,
{
}

/// Outcomes that only advance a timer, or change nothing, keep the stage.
pub proof fn law_non_transition_outcomes_keep_phase(phase: ControlPhase, outcome: TickOutcome)
    requires
        outcome == TickOutcome::Stay || outcome == TickOutcome::AdvanceGauge || outcome
            == TickOutcome::AdvanceSwing,
    ensures
        spec_phase_after_tick(phase, outcome) == phase,
{
}

/// A pending delay that has not run out is reduced by exactly the elapsed
/// time; one that has run out fires.
pub proof fn law_countdown_subtracts(remaining_ms: u32, elapsed_ms: u32)
    ensures
        remaining_ms > elapsed_ms ==> spec_countdown(remaining_ms, elapsed_ms) == Some(
            (remaining_ms - elapsed_ms) as u32,
        ),
        remaining_ms <= elapsed_ms ==> spec_countdown(remaining_ms, elapsed_ms) is None,
        spec_countdown(remaining_ms, 0) == if remaining_ms == 0 {
            None::<u32>
        } else {
            Some(remaining_ms)
        },
{
}

/// No aiming aid is drawn once the hole is reached or while the ball moves;
/// the club alone during the swing; arrow and club while aiming.
pub proof fn law_aim_markers(phase: ControlPhase, finished: bool)
    ensures
        (finished || phase == ControlPhase::Disabled) ==> spec_aim_markers(phase, finished)
            == (AimMarkers { arrow: false, club: false }),
        (!finished && phase == ControlPhase::Hitting) ==> spec_aim_markers(phase, finished)
            == (AimMarkers { arrow: false, club: true }),
        (!finished && phase != ControlPhase::Disabled && phase != ControlPhase::Hitting)
            ==> spec_aim_markers(phase, finished) == (AimMarkers { arrow: true, club: true }),
{
}

} // verus!
