use turingmachine_rs::{Bit, BoundaryViolation, TuringTape};

#[test]
fn fetch_cursor() {
    assert_eq!(TuringTape::new(Bit::Delta, Bit::Zero, vec![]).get_cursor(), Bit::Zero);
    assert_eq!(TuringTape::new(Bit::Delta, Bit::One, vec![]).get_cursor(), Bit::One);
    assert_eq!(TuringTape::new(Bit::Delta, Bit::Delta, vec![]).get_cursor(), Bit::Delta);
    assert_eq!(TuringTape::new(Bit::Delta, Bit::Zero, vec![Bit::Delta]).get_cursor(), Bit::Zero);
    assert_eq!(TuringTape::new(Bit::Delta, Bit::One, vec![Bit::Delta]).get_cursor(), Bit::One);
    assert_eq!(
        TuringTape::new(Bit::Delta, Bit::Delta, vec![Bit::Delta]).get_cursor(),
        Bit::Delta
    );
}

#[test]
fn set_cursor() {
    let mut tape = TuringTape::new(Bit::Delta, Bit::Delta, vec![Bit::Zero, Bit::One, Bit::Zero]);
    assert_eq!(tape.get_cursor(), Bit::Delta);
    tape.set_cursor(Bit::One);
    assert_eq!(tape.get_cursor(), Bit::One);
    tape.set_cursor(Bit::Zero);
    assert_eq!(tape.get_cursor(), Bit::Zero);
}

#[test]
fn turing_tape_new() {
    TuringTape::new(
        Bit::Delta,
        Bit::Delta,
        vec![Bit::Zero, Bit::One, Bit::One, Bit::One, Bit::Zero, Bit::One, Bit::One, Bit::One, Bit::Zero],
    );
}

#[test]
fn turing_into_vec() {
    let tape = TuringTape::new(
        Bit::Delta,
        Bit::Delta,
        vec![Bit::Zero, Bit::One, Bit::One, Bit::One, Bit::Zero, Bit::One, Bit::One, Bit::One, Bit::Zero],
    );
    assert_eq!(
        <Vec<Bit>>::from(tape),
        vec![Bit::Delta, Bit::Zero, Bit::One, Bit::One, Bit::One, Bit::Zero, Bit::One, Bit::One, Bit::One, Bit::Zero]
    );
}

#[test]
fn turing_stepping() {
    let mut tape = TuringTape::new(
        Bit::Delta,
        Bit::Delta,
        vec![Bit::Zero, Bit::One, Bit::One, Bit::One, Bit::Zero, Bit::One, Bit::One, Bit::One, Bit::Zero],
    );

    assert_eq!(tape.get_cursor(), Bit::Delta);
    tape.step_right();
    assert_eq!(tape.get_cursor(), Bit::Zero);
    tape.step_left().unwrap();
    assert_eq!(tape.get_cursor(), Bit::Delta);

    tape.step_right();
    tape.step_right();
    assert_eq!(tape.get_cursor(), Bit::One);
    tape.step_right();
    assert_eq!(tape.get_cursor(), Bit::One);
    tape.step_right();
    assert_eq!(tape.get_cursor(), Bit::One);
    tape.step_right();
    assert_eq!(tape.get_cursor(), Bit::Zero);

    assert_eq!(tape.step_right(), tape.get_cursor());
    assert_eq!(tape.step_right(), tape.get_cursor());
    assert_eq!(tape.step_right(), tape.get_cursor());
    assert_eq!(tape.step_right(), tape.get_cursor());
}

#[test]
fn fresh_tape_sequence_is_start_then_initial() {
    let tape = TuringTape::new(Bit::Delta, Bit::One, vec![Bit::Zero, Bit::Zero, Bit::One]);
    assert_eq!(tape.to_sequence(), vec![Bit::One, Bit::Zero, Bit::Zero, Bit::One]);
    let empty = TuringTape::new(Bit::Delta, Bit::Zero, vec![]);
    assert_eq!(empty.to_sequence(), vec![Bit::Zero]);
}

#[test]
fn set_cursor_returns_replaced_symbol() {
    let mut tape = TuringTape::new(Bit::Delta, Bit::Zero, vec![Bit::One]);
    assert_eq!(tape.set_cursor(Bit::One), Bit::Zero);
    assert_eq!(tape.set_cursor(Bit::Delta), Bit::One);
    assert_eq!(tape.to_sequence(), vec![Bit::Delta, Bit::One]);
}

#[test]
fn step_right_then_left_round_trip() {
    let mut tape = TuringTape::new(Bit::Delta, Bit::Zero, vec![Bit::One, Bit::Zero]);
    tape.step_right();
    assert_eq!(tape.get_cursor(), Bit::One);
    tape.step_right();
    tape.step_left().unwrap();
    assert_eq!(tape.get_cursor(), Bit::One);
    assert_eq!(tape.to_sequence(), vec![Bit::Zero, Bit::One, Bit::Zero]);

    // Past the right end a blank cell is created, then the cursor returns.
    tape.step_right();
    assert_eq!(tape.step_right(), Bit::Delta);
    assert_eq!(tape.step_left(), Ok(Bit::Zero));
    assert_eq!(tape.to_sequence(), vec![Bit::Zero, Bit::One, Bit::Zero, Bit::Delta]);
}

#[test]
fn step_right_past_end_creates_blank() {
    let mut tape = TuringTape::new(Bit::Zero, Bit::One, vec![]);
    assert_eq!(tape.step_right(), Bit::Zero);
    assert_eq!(tape.step_right(), Bit::Zero);
    assert_eq!(tape.to_sequence(), vec![Bit::One, Bit::Zero, Bit::Zero]);
}

#[test]
fn to_sequence_keeps_cursor() {
    let mut tape = TuringTape::new(Bit::Delta, Bit::Delta, vec![Bit::Zero, Bit::One, Bit::Zero]);
    tape.step_right();
    tape.step_right();
    let first = tape.to_sequence();
    let second = tape.to_sequence();
    assert_eq!(first, second);
    assert_eq!(first, vec![Bit::Delta, Bit::Zero, Bit::One, Bit::Zero]);
    assert_eq!(tape.get_cursor(), Bit::One);
    assert_eq!(tape.cursor_position(), 2);
    assert_eq!(tape.step_right(), Bit::Zero);
}

#[test]
fn step_left_at_start_is_refused() {
    let mut tape = TuringTape::new(Bit::Delta, Bit::Zero, vec![Bit::One]);
    assert_eq!(tape.step_left(), Err(BoundaryViolation));
    assert_eq!(tape.get_cursor(), Bit::Zero);
    assert_eq!(tape.step_left(), Err(BoundaryViolation));
    tape.step_right();
    assert_eq!(tape.step_left(), Ok(Bit::Zero));
    assert_eq!(tape.step_left(), Err(BoundaryViolation));
    assert_eq!(tape.to_sequence(), vec![Bit::Zero, Bit::One]);
}
