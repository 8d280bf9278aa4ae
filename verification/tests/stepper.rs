use lib::stepper::{next_level, Direction, Oscillation, OscillationTick, PointMove, TickError, DEFAULT_POS};

#[test]
fn it_works() {
    assert_eq!(2 + 2, 4);
}

#[test]
fn default_oscillation_rests_at_default_position() {
    let o = Oscillation::default();
    assert_eq!(o.dir, Direction::CW);
    assert_eq!(o.position, DEFAULT_POS);
    assert!(!o.oscillation_enable);
    assert_eq!(o.range, None);
}

#[test]
fn direction_gpio_values() {
    assert_eq!(Direction::CW.gpio_value(), 0);
    assert_eq!(Direction::CCW.gpio_value(), 1);
}

#[test]
fn point_moves_clockwise_up_to_target() {
    let mut o = Oscillation::default();
    let mv = o.point(600);
    assert_eq!(mv, PointMove { direction: Direction::CW, steps: 200 });
    assert_eq!(o.position, 600);
    assert_eq!(o.dir, Direction::CW);
}

#[test]
fn point_moves_counter_clockwise_down_to_target() {
    let mut o = Oscillation::default();
    let mv = o.point(450);
    assert_eq!(mv.steps, 50);
    let mv = o.point(400);
    assert_eq!(mv, PointMove { direction: Direction::CCW, steps: 50 });
    assert_eq!(o.position, 400);
}

#[test]
fn pointing_twice_moves_once() {
    let mut o = Oscillation::default();
    let first = o.point(777);
    let second = o.point(777);
    assert_eq!(first.steps, 377);
    assert_eq!(second, PointMove { direction: Direction::CCW, steps: 0 });
    assert_eq!(o.position, 777);
}

#[test]
fn set_direction_keeps_position() {
    let mut o = Oscillation::default();
    o.set_direction(Direction::CCW);
    assert_eq!(o.dir, Direction::CCW);
    assert_eq!(o.position, DEFAULT_POS);
}

#[test]
fn tick_does_nothing_while_disabled() {
    let mut o = Oscillation::default();
    assert_eq!(o.oscillation_tick(Some(400)), Ok(None));
    assert_eq!(o.position, DEFAULT_POS);
}

#[test]
fn tick_without_range_steps_in_current_direction() {
    let mut o = Oscillation::default();
    o.oscillation_enable = true;
    o.set_direction(Direction::CCW);
    let t = o.oscillation_tick(None);
    assert_eq!(t, Ok(Some(OscillationTick { direction_writes: 0, stepped: Direction::CCW })));
    assert_eq!(o.position, DEFAULT_POS - 1);
}

#[test]
fn tick_at_both_limits_turns_clockwise_twice() {
    // A range whose half spans no whole step: both limits are 800 and 0.
    let mut o = Oscillation::default();
    o.oscillation_enable = true;
    o.range = Some(1);
    o.point(0);
    assert_eq!(o.dir, Direction::CCW);
    let t = o.oscillation_tick(Some(400));
    assert_eq!(t, Ok(Some(OscillationTick { direction_writes: 1, stepped: Direction::CW })));
    assert_eq!(o.position, 1);
    let t = o.oscillation_tick(Some(400));
    assert_eq!(t, Ok(Some(OscillationTick { direction_writes: 0, stepped: Direction::CW })));
    assert_eq!(o.position, 2);
}

#[test]
fn tick_at_clockwise_limit_keeps_clockwise() {
    let mut o = Oscillation::default();
    o.oscillation_enable = true;
    o.point(800);
    let t = o.oscillation_tick(Some(400));
    assert_eq!(t, Ok(Some(OscillationTick { direction_writes: 1, stepped: Direction::CW })));
    assert_eq!(o.position, 801);
}

#[test]
fn pulse_levels_alternate() {
    assert_eq!(next_level(1), 0);
    assert_eq!(next_level(0), 1);
    let mut level = 1u8;
    let mut ones = 0;
    for _ in 0..800 {
        if level == 1 {
            ones += 1;
        }
        level = next_level(level);
    }
    assert_eq!(ones, 400);
    assert_eq!(level, 1);
}

#[test]
fn tick_refuses_limits_outside_u16() {
    let mut o = Oscillation::default();
    o.oscillation_enable = true;
    o.range = Some(90);
    assert_eq!(o.oscillation_tick(Some(450)), Err(TickError::LimitOverflow));
    assert_eq!(o.position, DEFAULT_POS);
    assert_eq!(o.dir, Direction::CW);
}

#[test]
fn tick_refuses_to_step_past_zero() {
    let mut o = Oscillation::default();
    o.oscillation_enable = true;
    o.point(0);
    o.set_direction(Direction::CCW);
    assert_eq!(o.oscillation_tick(None), Err(TickError::PositionOverflow));
    assert_eq!(o.position, 0);
    assert_eq!(o.dir, Direction::CCW);
}

#[test]
fn tick_on_a_point_range_counts_both_limits() {
    let mut o = Oscillation::default();
    o.oscillation_enable = true;
    let t = o.oscillation_tick(Some(0));
    assert_eq!(t, Ok(Some(OscillationTick { direction_writes: 2, stepped: Direction::CW })));
    assert_eq!(o.position, DEFAULT_POS + 1);
}

#[test]
fn one_step_twice_is_two_steps() {
    let mut a = Oscillation::default();
    a.oscillation_enable = true;
    a.oscillation_tick(None).unwrap();
    a.oscillation_tick(None).unwrap();
    let mut b = Oscillation::default();
    b.point(DEFAULT_POS + 2);
    assert_eq!(a.position, b.position);
    assert_eq!(a.dir, b.dir);
}

#[test]
fn two_step_runs_add_up() {
    for dir in [Direction::CW, Direction::CCW] {
        let mut a = Oscillation::default();
        a.set_direction(dir);
        a.step(30);
        a.step(45);
        let mut b = Oscillation::default();
        b.set_direction(dir);
        b.step(75);
        assert_eq!(a.position, b.position);
        assert_eq!(a.dir, b.dir);
    }
    let mut c = Oscillation::default();
    c.set_direction(Direction::CCW);
    c.step(400);
    assert_eq!(c.position, 0);
}
