use padpointer::fixed::VELOCITY_LIMIT;
use padpointer::mouse::{
    Handoff, LoopAction, LoopEvent, MotionAxis, MouseMover, MouseMoverHandle,
    DEFAULT_MAX_CHANGE_PER_MILLI,
};

fn mover_with(target_x: i64, current_x: i64, target_y: i64, current_y: i64) -> MouseMover {
    MouseMover {
        max_change_per_milli: 300_000,
        last_tick: 1_000,
        target_vel_x: target_x,
        current_vel_x: current_x,
        target_vel_y: target_y,
        current_vel_y: current_y,
    }
}

#[test]
fn new_smoother_rests_with_defaults() {
    let mover = MouseMover::new(42);
    assert!(mover.is_at_rest());
    assert_eq!(mover.last_tick, 42);
    assert_eq!(mover.max_change_per_milli, 300_000);
    assert_eq!(DEFAULT_MAX_CHANGE_PER_MILLI, 300_000);
}

#[test]
fn set_target_overwrites_one_axis_only() {
    let mut mover = mover_with(1, 2, 3, 4);
    mover.set_target_velocity(MotionAxis::X, 700_000);
    assert_eq!(mover.target_vel_x, 700_000);
    assert_eq!(mover.target_vel_y, 3);
    mover.set_target_velocity(MotionAxis::Y, -900_000);
    assert_eq!(mover.target_vel_x, 700_000);
    assert_eq!(mover.target_vel_y, -900_000);
    assert_eq!(mover.current_vel_x, 2);
    assert_eq!(mover.current_vel_y, 4);
    assert_eq!(mover.last_tick, 1_000);
}

#[test]
fn set_target_holds_to_the_velocity_limit() {
    let mut mover = mover_with(0, 0, 0, 0);
    mover.set_target_velocity(MotionAxis::X, i64::MAX);
    mover.set_target_velocity(MotionAxis::Y, i64::MIN);
    assert_eq!(mover.target_vel_x, VELOCITY_LIMIT);
    assert_eq!(mover.target_vel_y, -VELOCITY_LIMIT);
}

#[test]
fn receive_overwrites_both_targets_with_the_pair() {
    let mut mover = mover_with(1, 2, 3, 4);
    mover.receive(300_000, -150_000);
    assert_eq!(mover.target_vel_x, 300_000);
    assert_eq!(mover.target_vel_y, -150_000);
    assert_eq!(mover.current_vel_x, 2);
    assert_eq!(mover.current_vel_y, 4);
    assert_eq!(mover.last_tick, 1_000);
    mover.receive(3, -3);
    assert_eq!(mover.target_vel_x, 3);
    assert_eq!(mover.target_vel_y, -3);
    mover.receive(i64::MAX, i64::MIN);
    assert_eq!(mover.target_vel_x, VELOCITY_LIMIT);
    assert_eq!(mover.target_vel_y, -VELOCITY_LIMIT);
    mover.receive(0, 0);
    assert_eq!(mover.target_vel_x, 0);
    assert_eq!(mover.target_vel_y, 0);
}

#[test]
fn received_pair_is_the_target_whether_ticking_or_waiting() {
    let mut waiting = MouseMover::new(0);
    assert!(waiting.is_at_rest());
    assert_eq!(waiting.on_event(LoopEvent::Target(400_000, -700_000)), LoopAction::Poll);
    assert_eq!((waiting.target_vel_x, waiting.target_vel_y), (400_000, -700_000));
    assert_eq!((waiting.current_vel_x, waiting.current_vel_y), (0, 0));
    let mut ticking = mover_with(900_000, 650_000, 0, -20_000);
    assert_eq!(ticking.on_event(LoopEvent::Target(400_000, -700_000)), LoopAction::Poll);
    assert_eq!((ticking.target_vel_x, ticking.target_vel_y), (400_000, -700_000));
    assert_eq!((ticking.current_vel_x, ticking.current_vel_y), (650_000, -20_000));
}

#[test]
fn raw_half_deflection_through_handle_and_loop_ends_at_half() {
    let mut handle = MouseMoverHandle::new();
    let mut mover = MouseMover::new(0);
    let mut moves: Vec<LoopAction> = Vec::new();
    for now in 1..=5u64 {
        let (x, y) = handle.move_x(500_000);
        assert_eq!((x, y), (500_000, 0));
        assert_eq!(mover.on_event(LoopEvent::Target(x, y)), LoopAction::Poll);
        assert_eq!(mover.target_vel_x, 500_000);
        moves.push(mover.on_event(LoopEvent::Tick(now)));
    }
    assert_eq!(mover.current_vel_x, 500_000);
    assert_eq!(mover.current_vel_y, 0);
    assert_eq!(
        moves,
        vec![
            LoopAction::Move(0, 0),
            LoopAction::Move(1, 0),
            LoopAction::Move(1, 0),
            LoopAction::Move(1, 0),
            LoopAction::Move(1, 0),
        ]
    );
}

#[test]
fn tick_moves_by_at_most_limit_times_elapsed() {
    let mut mover = mover_with(5_000_000, 0, -5_000_000, 0);
    assert_eq!(mover.tick(1_001), Some((0, 0)));
    assert_eq!(mover.current_vel_x, 300_000);
    assert_eq!(mover.current_vel_y, -300_000);
    assert_eq!(mover.last_tick, 1_001);
    assert_eq!(mover.tick(1_004), Some((1, -1)));
    assert_eq!(mover.current_vel_x, 1_200_000);
    assert_eq!(mover.current_vel_y, -1_200_000);
    assert_eq!(mover.tick(1_014), Some((4, -4)));
    assert_eq!(mover.current_vel_x, 4_200_000);
    assert_eq!(mover.tick(1_114), Some((5, -5)));
    assert_eq!(mover.current_vel_x, 5_000_000);
    assert_eq!(mover.current_vel_y, -5_000_000);
}

#[test]
fn tick_with_no_time_elapsed_keeps_a_moving_axis() {
    let mut mover = mover_with(5_000_000, 1_000_000, 0, 0);
    assert_eq!(mover.tick(1_000), Some((1, 0)));
    assert_eq!(mover.current_vel_x, 1_000_000);
    assert_eq!(mover.tick(900), Some((1, 0)));
    assert_eq!(mover.current_vel_x, 1_000_000);
    assert_eq!(mover.last_tick, 900);
}

#[test]
fn tick_after_a_very_long_time_lands_on_the_target() {
    let mut mover = mover_with(VELOCITY_LIMIT, -VELOCITY_LIMIT, -7, 9);
    mover.last_tick = 0;
    mover.max_change_per_milli = i64::MAX;
    assert_eq!(mover.tick(u64::MAX), Some((1_000_000, 0)));
    assert_eq!(mover.current_vel_x, VELOCITY_LIMIT);
    assert_eq!(mover.current_vel_y, -7);
}

#[test]
fn sustained_half_deflection_ramps_up_and_stays() {
    let mut mover = MouseMover::new(0);
    mover.set_target_velocity(MotionAxis::X, 500_000);
    let mut travelled: i64 = 0;
    let mut velocities: Vec<i64> = Vec::new();
    for now in 1..=6u64 {
        if let Some((dx, dy)) = mover.tick(now) {
            assert_eq!(dy, 0);
            travelled += dx as i64;
        }
        velocities.push(mover.current_vel_x);
    }
    assert_eq!(velocities, vec![300_000, 500_000, 500_000, 500_000, 500_000, 500_000]);
    assert_eq!(travelled, 5);
}

#[test]
fn same_target_sent_again_never_overshoots() {
    let mut mover = MouseMover::new(0);
    let mut previous: i64 = 0;
    for now in 1..=20u64 {
        mover.set_target_velocity(MotionAxis::Y, -2_000_000);
        mover.tick(now);
        assert!(mover.current_vel_y <= previous);
        assert!(mover.current_vel_y >= -2_000_000);
        assert!(previous - mover.current_vel_y <= 300_000);
        previous = mover.current_vel_y;
    }
    assert_eq!(mover.current_vel_y, -2_000_000);
}

#[test]
fn zero_target_halves_even_without_elapsed_time() {
    let mut mover = mover_with(0, 500_000, 0, 0);
    let mut ticks: u32 = 0;
    while !mover.is_at_rest() {
        mover.tick(1_000);
        ticks += 1;
        assert!(ticks <= 19);
    }
    assert_eq!(ticks, 19);
    assert_eq!(mover.current_vel_x, 0);
}

#[test]
fn zero_target_stops_faster_than_the_acceleration_limit() {
    let mut mover = mover_with(0, 500_000, 0, -500_000);
    assert_eq!(mover.tick(1_001), Some((0, 0)));
    assert_eq!(mover.current_vel_x, 100_000);
    assert_eq!(mover.current_vel_y, -100_000);
    assert_eq!(mover.tick(1_002), None);
    assert!(mover.is_at_rest());
}

#[test]
fn zero_target_can_change_velocity_by_more_than_the_limit() {
    let mut mover = mover_with(0, 4_000_000, 0, 0);
    mover.tick(1_001);
    assert_eq!(mover.current_vel_x, 1_850_000);
    assert!(4_000_000 - mover.current_vel_x > 300_000);
}

#[test]
fn resting_smoother_asks_for_no_motion() {
    let mut mover = MouseMover::new(0);
    for now in 1..50u64 {
        assert_eq!(mover.tick(now), None);
        assert!(mover.is_at_rest());
        assert_eq!(mover.last_tick, now);
    }
    assert_eq!(mover.on_event(LoopEvent::Target(0, 0)), LoopAction::Suspend);
    assert_eq!(mover.on_event(LoopEvent::Tick(60)), LoopAction::Suspend);
    assert!(mover.is_at_rest());
    assert_eq!(mover.on_event(LoopEvent::Target(500_000, 0)), LoopAction::Poll);
    assert_eq!(mover.on_event(LoopEvent::Tick(61)), LoopAction::Move(0, 0));
    assert_eq!(mover.on_event(LoopEvent::Tick(62)), LoopAction::Move(1, 0));
}

#[test]
fn control_loop_runs_from_target_to_rest() {
    let mut mover = MouseMover::new(0);
    assert_eq!(mover.on_event(LoopEvent::Target(0, -1_000_000)), LoopAction::Poll);
    assert_eq!(mover.target_vel_y, -1_000_000);
    let mut actions: Vec<LoopAction> = Vec::new();
    for now in 1..=3u64 {
        actions.push(mover.on_event(LoopEvent::Tick(now)));
    }
    assert_eq!(
        actions,
        vec![LoopAction::Move(0, 0), LoopAction::Move(0, -1), LoopAction::Move(0, -1)]
    );
    assert_eq!(mover.on_event(LoopEvent::Target(0, 0)), LoopAction::Poll);
    assert_eq!(mover.on_event(LoopEvent::Tick(4)), LoopAction::Move(0, 0));
    assert_eq!(mover.current_vel_y, -300_000);
    assert_eq!(mover.on_event(LoopEvent::Tick(5)), LoopAction::Suspend);
    assert!(mover.is_at_rest());
}

#[test]
fn closed_handle_stops_the_loop_and_changes_nothing() {
    let mut mover = mover_with(5, 6, 7, 8);
    assert_eq!(mover.on_event(LoopEvent::Closed), LoopAction::Stop);
    assert_eq!(mover.target_vel_x, 5);
    assert_eq!(mover.current_vel_x, 6);
    assert_eq!(mover.target_vel_y, 7);
    assert_eq!(mover.current_vel_y, 8);
    assert_eq!(mover.last_tick, 1_000);
}

#[test]
fn new_handle_has_sent_nothing() {
    let handle = MouseMoverHandle::new();
    assert_eq!(handle.last_x, 0);
    assert_eq!(handle.last_y, 0);
}

#[test]
fn handle_passes_samples_through_and_turns_the_vertical_sign() {
    let mut handle = MouseMoverHandle::new();
    assert_eq!(handle.move_x(500_000), (500_000, 0));
    assert_eq!(handle.move_y(500_000), (500_000, -500_000));
    assert_eq!(handle.move_x(-1_000_000), (-1_000_000, -500_000));
    assert_eq!(handle.move_y(-50_000), (-1_000_000, 50_000));
    assert_eq!(handle.move_y(-7), (-1_000_000, 0));
    assert_eq!(handle.last_x, -1_000_000);
    assert_eq!(handle.last_y, 0);
}

#[test]
fn falling_sample_after_a_passed_one_hands_over_zero() {
    let mut handle = MouseMoverHandle::new();
    assert_eq!(handle.move_x(40_000), (40_000, 0));
    assert_eq!(handle.move_x(30_000), (0, 0));
    assert_eq!(handle.last_x, 0);
    assert_eq!(handle.move_y(-40_000), (0, 40_000));
    assert_eq!(handle.move_y(30_000), (0, 0));
    assert_eq!(handle.last_y, 0);
}

#[test]
fn handle_debounces_against_what_it_last_sent() {
    let mut handle = MouseMoverHandle::new();
    assert_eq!(handle.move_x(80_000), (80_000, 0));
    assert_eq!(handle.move_x(45_000), (0, 0));
    assert_eq!(handle.move_x(40_000), (40_000, 0));
    assert_eq!(handle.move_x(40_000), (40_000, 0));
    assert_eq!(handle.move_x(20_000), (0, 0));
    assert_eq!(handle.move_x(4_999), (0, 0));
    assert_eq!(handle.move_y(i64::MIN), (0, i64::MAX));
    assert_eq!(handle.move_y(i64::MAX), (0, -i64::MAX));
}

#[test]
fn well_formedness_is_checked_field_by_field() {
    assert!(MouseMover::new(0).is_well_formed());
    assert!(mover_with(VELOCITY_LIMIT, -VELOCITY_LIMIT, 0, 0).is_well_formed());
    assert!(!mover_with(VELOCITY_LIMIT + 1, 0, 0, 0).is_well_formed());
    assert!(!mover_with(0, 0, 0, i64::MIN).is_well_formed());
    let mut mover = MouseMover::new(0);
    mover.max_change_per_milli = 0;
    assert!(!mover.is_well_formed());
    mover.max_change_per_milli = 1;
    assert!(mover.is_well_formed());
}

#[test]
fn slot_keeps_only_the_newest_pair() {
    let mut slot = Handoff::new();
    assert_eq!(slot.take(), None);
    slot.put(1, 2);
    slot.put(3, 4);
    slot.put(-5, 6);
    assert_eq!(slot.take(), Some(LoopEvent::Target(-5, 6)));
    assert_eq!(slot.take(), None);
}

#[test]
fn closed_slot_hands_out_what_waits_before_the_closure() {
    let mut slot = Handoff::new();
    slot.put(7, 8);
    slot.close();
    assert!(slot.closed);
    assert_eq!(slot.take(), Some(LoopEvent::Target(7, 8)));
    assert_eq!(slot.take(), Some(LoopEvent::Closed));
    assert_eq!(slot.take(), Some(LoopEvent::Closed));
}

#[test]
fn several_targets_between_ticks_leave_only_the_last() {
    let mut mover = MouseMover::new(0);
    mover.receive(100_000, 100_000);
    mover.receive(-250_000, 0);
    assert_eq!(mover.target_vel_x, -250_000);
    assert_eq!(mover.target_vel_y, 0);
}

#[test]
fn offer_is_taken_only_by_an_open_slot() {
    let mut slot = Handoff::new();
    assert!(slot.offer(1, 2));
    assert!(slot.offer(3, 4));
    assert_eq!(slot.pending, Some((3, 4)));
    slot.close();
    assert!(!slot.offer(5, 6));
    assert_eq!(slot.pending, Some((3, 4)));
    assert!(slot.closed);
    assert_eq!(slot.take(), Some(LoopEvent::Target(3, 4)));
    assert!(!slot.offer(7, 8));
    assert_eq!(slot.take(), Some(LoopEvent::Closed));
}
