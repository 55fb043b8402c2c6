use golf::clock::time;
use golf::control::{
    advance_swing, aim_markers, SWING_MS, click_outcome, countdown, phase_after_confirm, phase_after_tick, tick_outcome,
    AimMarkers, ClickOutcome, ControlPhase, Motion, TickOutcome,
};
use golf::id::{Id, IdGenerator};
use golf::input::{controlling_after, decide_input, Input, InputAction, Key, MouseButton};
use golf::mesh::{expand_indices, triangles};
use golf::progress::{Progress, FATIGUE_MAX_MS, FATIGUE_STEP_MS};

#[test]
fn ids_are_handed_out_in_order() {
    let mut g = IdGenerator::new();
    assert_eq!(g.gen(), Id(0));
    assert_eq!(g.gen(), Id(1));
    let mut copy = g.clone();
    assert_eq!(g.gen(), Id(2));
    assert_eq!(copy.gen(), Id(2));
    let mut d = IdGenerator::default();
    assert_eq!(d.gen(), Id(0));
}

#[test]
fn ids_are_distinct_and_increasing() {
    let mut g = IdGenerator::new();
    let mut last = g.gen();
    for _ in 0..100 {
        let next = g.gen();
        assert!(last < next);
        assert_ne!(last, next);
        last = next;
    }
}

#[test]
fn new_progress_is_empty() {
    let p = Progress::new();
    assert_eq!(p.hits(), 0);
    assert_eq!(p.deaths(), 0);
    assert_eq!(p.fatigue_ms(), 0);
    assert!(!p.finished());
    assert_eq!(p.run_ms(), 0);
    let d = Progress::default();
    assert_eq!(d.hits(), 0);
    assert_eq!(d.fatigue_ms(), 0);
}

#[test]
fn fatigue_grows_by_steps_and_saturates() {
    let mut p = Progress::new();
    let expected = [200u32, 400, 600, 800, 1000, 1000, 1000];
    for (i, want) in expected.iter().enumerate() {
        p.record_hit();
        assert_eq!(p.hits(), i + 1);
        assert_eq!(p.fatigue_ms(), *want);
    }
    assert_eq!(FATIGUE_STEP_MS, 200);
    assert_eq!(FATIGUE_MAX_MS, 1000);
}

#[test]
fn death_resets_fatigue_and_counts_loss() {
    let mut p = Progress::new();
    p.record_hit();
    p.record_hit();
    assert_eq!(p.fatigue_ms(), 400);
    p.record_death();
    assert_eq!(p.deaths(), 1);
    assert_eq!(p.fatigue_ms(), 0);
    assert_eq!(p.hits(), 2);
    p.record_death();
    assert_eq!(p.deaths(), 2);
}

#[test]
fn clock_stops_when_finished() {
    let mut p = Progress::new();
    p.advance_clock(5);
    p.advance_clock(5);
    assert_eq!(p.run_ms(), 10);
    p.finish();
    assert!(p.finished());
    p.advance_clock(5);
    assert_eq!(p.run_ms(), 10);
    p.record_hit();
    assert!(p.finished());
}

#[test]
fn reset_starts_over() {
    let mut p = Progress::new();
    p.record_hit();
    p.record_death();
    p.advance_clock(1234);
    p.finish();
    let copy = p.clone();
    p.reset();
    assert_eq!(p.hits(), 0);
    assert_eq!(p.deaths(), 0);
    assert_eq!(p.fatigue_ms(), 0);
    assert!(!p.finished());
    assert_eq!(p.run_ms(), 0);
    assert_eq!(copy.hits(), 1);
    assert_eq!(copy.deaths(), 1);
    assert_eq!(copy.run_ms(), 1234);
    assert!(copy.finished());
}

#[test]
fn clicks_by_phase() {
    assert_eq!(click_outcome(ControlPhase::Disabled, false, false, 400), ClickOutcome::Ignore);
    assert_eq!(click_outcome(ControlPhase::Hitting, false, false, 400), ClickOutcome::Ignore);
    assert_eq!(click_outcome(ControlPhase::Direction, false, false, 400), ClickOutcome::BeginPower);
    assert_eq!(click_outcome(ControlPhase::Direction, true, false, 400), ClickOutcome::Ignore);
    assert_eq!(click_outcome(ControlPhase::Power, false, false, 400), ClickOutcome::DelayConfirm(400));
    assert_eq!(click_outcome(ControlPhase::Power, true, false, 0), ClickOutcome::DelayConfirm(0));
    assert_eq!(click_outcome(ControlPhase::Precision, false, false, 600), ClickOutcome::DelayConfirm(600));
    assert_eq!(click_outcome(ControlPhase::Precision, false, true, 600), ClickOutcome::Ignore);
    assert_eq!(click_outcome(ControlPhase::Power, false, true, 600), ClickOutcome::Ignore);
}

#[test]
fn confirm_moves_gauges_only() {
    assert_eq!(phase_after_confirm(ControlPhase::Power), ControlPhase::Precision);
    assert_eq!(phase_after_confirm(ControlPhase::Precision), ControlPhase::Hitting);
    assert_eq!(phase_after_confirm(ControlPhase::Disabled), ControlPhase::Disabled);
    assert_eq!(phase_after_confirm(ControlPhase::Direction), ControlPhase::Direction);
    assert_eq!(phase_after_confirm(ControlPhase::Hitting), ControlPhase::Hitting);
}

#[test]
fn ticks_by_phase_and_motion() {
    assert_eq!(tick_outcome(ControlPhase::Disabled, Motion::Resting, false), TickOutcome::Enable);
    assert_eq!(tick_outcome(ControlPhase::Disabled, Motion::AtThreshold, false), TickOutcome::Stay);
    assert_eq!(tick_outcome(ControlPhase::Disabled, Motion::Moving, false), TickOutcome::Stay);
    assert_eq!(tick_outcome(ControlPhase::Direction, Motion::Moving, false), TickOutcome::Disable);
    assert_eq!(tick_outcome(ControlPhase::Direction, Motion::Resting, false), TickOutcome::Stay);
    assert_eq!(tick_outcome(ControlPhase::Power, Motion::Resting, false), TickOutcome::AdvanceGauge);
    assert_eq!(tick_outcome(ControlPhase::Precision, Motion::AtThreshold, true), TickOutcome::AdvanceGauge);
    assert_eq!(tick_outcome(ControlPhase::Precision, Motion::Moving, false), TickOutcome::Disable);
    assert_eq!(tick_outcome(ControlPhase::Hitting, Motion::Resting, false), TickOutcome::AdvanceSwing);
    assert_eq!(tick_outcome(ControlPhase::Hitting, Motion::Resting, true), TickOutcome::Strike);
    assert_eq!(tick_outcome(ControlPhase::Hitting, Motion::Moving, true), TickOutcome::Disable);
}

#[test]
fn phase_after_each_tick_outcome() {
    assert_eq!(phase_after_tick(ControlPhase::Disabled, TickOutcome::Enable), ControlPhase::Direction);
    assert_eq!(phase_after_tick(ControlPhase::Power, TickOutcome::Disable), ControlPhase::Disabled);
    assert_eq!(phase_after_tick(ControlPhase::Hitting, TickOutcome::Strike), ControlPhase::Disabled);
    assert_eq!(phase_after_tick(ControlPhase::Power, TickOutcome::AdvanceGauge), ControlPhase::Power);
    assert_eq!(phase_after_tick(ControlPhase::Hitting, TickOutcome::AdvanceSwing), ControlPhase::Hitting);
    assert_eq!(phase_after_tick(ControlPhase::Direction, TickOutcome::Stay), ControlPhase::Direction);
}

#[test]
fn moving_ball_disables_every_phase() {
    for phase in [
        ControlPhase::Disabled,
        ControlPhase::Direction,
        ControlPhase::Power,
        ControlPhase::Precision,
        ControlPhase::Hitting,
    ] {
        let outcome = tick_outcome(phase, Motion::Moving, true);
        assert_eq!(phase_after_tick(phase, outcome), ControlPhase::Disabled);
    }
}

#[test]
fn countdown_runs_out() {
    assert_eq!(countdown(400, 5), Some(395));
    assert_eq!(countdown(5, 5), None);
    assert_eq!(countdown(3, 5), None);
    assert_eq!(countdown(0, 5), None);
    assert_eq!(countdown(10, 0), Some(10));
    let mut left = Some(200u32);
    let mut steps = 0;
    while let Some(ms) = left {
        left = countdown(ms, 5);
        steps += 1;
    }
    assert_eq!(steps, 40);
    assert_eq!(countdown(400, 12), countdown(393, 5));
}

#[test]
fn markers_by_phase() {
    let none = AimMarkers { arrow: false, club: false };
    let both = AimMarkers { arrow: true, club: true };
    let club = AimMarkers { arrow: false, club: true };
    assert_eq!(aim_markers(ControlPhase::Disabled, false), none);
    assert_eq!(aim_markers(ControlPhase::Direction, false), both);
    assert_eq!(aim_markers(ControlPhase::Power, false), both);
    assert_eq!(aim_markers(ControlPhase::Precision, false), both);
    assert_eq!(aim_markers(ControlPhase::Hitting, false), club);
    assert_eq!(aim_markers(ControlPhase::Direction, true), none);
    assert_eq!(aim_markers(ControlPhase::Hitting, true), none);
}

#[test]
fn full_shot_sequence() {
    let mut progress = Progress::new();
    let mut phase = ControlPhase::Disabled;
    phase = phase_after_tick(phase, tick_outcome(phase, Motion::Resting, false));
    assert_eq!(phase, ControlPhase::Direction);
    assert_eq!(click_outcome(phase, progress.finished(), false, progress.fatigue_ms()), ClickOutcome::BeginPower);
    phase = ControlPhase::Power;
    assert_eq!(click_outcome(phase, progress.finished(), false, progress.fatigue_ms()), ClickOutcome::DelayConfirm(0));
    assert_eq!(countdown(0, 5), None);
    phase = phase_after_confirm(phase);
    assert_eq!(phase, ControlPhase::Precision);
    phase = phase_after_confirm(phase);
    assert_eq!(phase, ControlPhase::Hitting);
    let outcome = tick_outcome(phase, Motion::Resting, true);
    assert_eq!(outcome, TickOutcome::Strike);
    progress.record_hit();
    phase = phase_after_tick(phase, outcome);
    assert_eq!(phase, ControlPhase::Disabled);
    assert_eq!(progress.hits(), 1);
    assert_eq!(progress.fatigue_ms(), 200);
}

#[test]
fn input_dispatch() {
    assert_eq!(decide_input(Input::MouseDown(MouseButton::Left), false), InputAction::Click);
    assert_eq!(decide_input(Input::MouseDown(MouseButton::Left), true), InputAction::Nothing);
    assert_eq!(decide_input(Input::MouseDown(MouseButton::Middle), false), InputAction::Teleport);
    assert_eq!(decide_input(Input::MouseDown(MouseButton::Right), false), InputAction::StartCameraControl);
    assert_eq!(decide_input(Input::MouseUp(MouseButton::Right), true), InputAction::StopCameraControl);
    assert_eq!(decide_input(Input::MouseUp(MouseButton::Left), true), InputAction::Nothing);
    assert_eq!(decide_input(Input::MouseMove, true), InputAction::RotateCamera);
    assert_eq!(decide_input(Input::MouseMove, false), InputAction::Nothing);
    assert_eq!(decide_input(Input::Wheel, false), InputAction::Zoom);
    assert_eq!(decide_input(Input::KeyDown { key: Key::R, ctrl_held: true }, false), InputAction::Reset);
    assert_eq!(decide_input(Input::KeyDown { key: Key::R, ctrl_held: false }, false), InputAction::Nothing);
    assert_eq!(decide_input(Input::KeyDown { key: Key::T, ctrl_held: false }, true), InputAction::Teleport);
    assert_eq!(decide_input(Input::KeyDown { key: Key::P, ctrl_held: false }, false), InputAction::PrintPosition);
    assert_eq!(decide_input(Input::KeyDown { key: Key::F2, ctrl_held: true }, false), InputAction::ToggleTimer);
    assert_eq!(decide_input(Input::KeyDown { key: Key::Other, ctrl_held: true }, false), InputAction::Nothing);
    assert_eq!(decide_input(Input::Other, false), InputAction::Nothing);
}

#[test]
fn camera_control_flag() {
    let start = decide_input(Input::MouseDown(MouseButton::Right), false);
    assert!(controlling_after(start, false));
    let stop = decide_input(Input::MouseUp(MouseButton::Right), true);
    assert!(!controlling_after(stop, true));
    assert!(controlling_after(InputAction::Zoom, true));
    assert!(!controlling_after(InputAction::Click, false));
    assert_ne!(decide_input(Input::MouseDown(MouseButton::Left), true), InputAction::Click);
}

#[test]
fn clock_split() {
    assert_eq!(time(0), (0, 0, 0));
    assert_eq!(time(999), (0, 0, 999));
    assert_eq!(time(59_999), (0, 59, 999));
    assert_eq!(time(60_000), (0, 60, 0));
    assert_eq!(time(60_001), (1, 0, 1));
    assert_eq!(time(61_234), (1, 1, 234));
    assert_eq!(time(125_500), (2, 5, 500));
    assert_eq!(time(180_000), (2, 60, 0));
}

#[test]
fn clock_recomposes_and_never_runs_backwards() {
    let mut prev = time(0);
    for ms in (0u64..400_000).step_by(777) {
        let (m, s, l) = time(ms);
        assert_eq!(m as u64 * 60_000 + s as u64 * 1000 + l as u64, ms);
        assert!(s <= 60 && l < 1000);
        assert!((m, s, l) >= prev);
        prev = (m, s, l);
    }
}

#[test]
fn index_expansion() {
    let items = vec![10u32, 20, 30];
    let indices = vec![2u32, 0, 1, 1, 2, 0];
    let flat = expand_indices(&items, &indices);
    assert_eq!(flat, vec![30, 10, 20, 20, 30, 10]);
    assert!(expand_indices(&items, &Vec::new()).is_empty());
}

#[test]
fn triangle_grouping() {
    let flat = vec![1u8, 2, 3, 4, 5, 6];
    assert_eq!(triangles(&flat), vec![(1, 2, 3), (4, 5, 6)]);
    assert!(triangles::<u8>(&Vec::new()).is_empty());
}

#[test]
fn swing_reaches_ball_after_its_length() {
    assert_eq!(SWING_MS, 300);
    assert_eq!(advance_swing(0, 5), (5, false));
    assert_eq!(advance_swing(290, 5), (295, false));
    assert_eq!(advance_swing(295, 5), (300, true));
    assert_eq!(advance_swing(299, 5), (304, true));
    let mut t = 0;
    let mut steps = 0;
    loop {
        let (next, done) = advance_swing(t, 5);
        steps += 1;
        if done {
            break;
        }
        t = next;
    }
    assert_eq!(steps, 60);
}
