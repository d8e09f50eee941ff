use turingmachine_rs::divisibility::{divisibility_input, DivState, DivSymbol};
use turingmachine_rs::engine::{run_until_end, step};
use turingmachine_rs::exactly_two::CountState;
use turingmachine_rs::replace_ones::ReplaceState;
use turingmachine_rs::{Bit, Move, RunError, TuringStates, TuringTape};

#[test]
fn exactly_two_proper_output() {
    assert_eq!(
        run_until_end(
            CountState::Start,
            vec![CountState::FoundMore, CountState::InvalidEnd, CountState::ValidEnd],
            Bit::Delta,
            Bit::Delta,
            vec![Bit::Zero, Bit::Zero, Bit::Zero, Bit::One, Bit::One]
        ),
        Ok((CountState::ValidEnd, vec![Bit::Delta, Bit::Zero, Bit::Zero, Bit::Zero, Bit::One, Bit::One, Bit::Delta]))
    );
}

#[test]
fn exactly_two_rejects_three_ones() {
    assert_eq!(
        run_until_end(
            CountState::Start,
            vec![CountState::FoundMore, CountState::InvalidEnd, CountState::ValidEnd],
            Bit::Delta,
            Bit::Delta,
            vec![Bit::Zero, Bit::Zero, Bit::Zero, Bit::One, Bit::One, Bit::One]
        ),
        Ok((CountState::FoundMore, vec![Bit::Delta, Bit::Zero, Bit::Zero, Bit::Zero, Bit::One, Bit::One, Bit::One, Bit::Delta]))
    );
}

#[test]
fn exactly_two_rejects_one_one() {
    assert_eq!(
        run_until_end(
            CountState::Start,
            vec![CountState::FoundMore, CountState::InvalidEnd, CountState::ValidEnd],
            Bit::Delta,
            Bit::Delta,
            vec![Bit::One, Bit::Zero]
        ),
        Ok((CountState::InvalidEnd, vec![Bit::Delta, Bit::One, Bit::Zero, Bit::Delta]))
    );
}

#[test]
fn replace_ones_proper_output() {
    assert_eq!(
        run_until_end(
            ReplaceState::Start,
            vec![ReplaceState::ValidEnd],
            Bit::Delta,
            Bit::Delta,
            vec![Bit::Zero, Bit::Zero, Bit::Zero, Bit::One, Bit::One]
        ),
        Ok((ReplaceState::ValidEnd, vec![Bit::Delta, Bit::Zero, Bit::Zero, Bit::Zero, Bit::Zero, Bit::Zero, Bit::Delta]))
    );
}

#[test]
fn run_states_leaves_cursor_on_last_read_cell() {
    let mut tape = TuringTape::new(Bit::Delta, Bit::Delta, vec![Bit::One, Bit::Zero, Bit::One]);
    let end = tape.run_states(ReplaceState::Start, vec![ReplaceState::ValidEnd]);
    assert_eq!(end, Ok(ReplaceState::ValidEnd));
    assert_eq!(tape.get_cursor(), Bit::Delta);
    assert_eq!(tape.to_sequence(), vec![Bit::Delta, Bit::Zero, Bit::Zero, Bit::Zero, Bit::Delta]);
}

#[test]
fn run_from_terminal_state_takes_no_step() {
    let mut tape = TuringTape::new(Bit::Delta, Bit::One, vec![Bit::One]);
    let end = tape.run_states(ReplaceState::ValidEnd, vec![ReplaceState::ValidEnd]);
    assert_eq!(end, Ok(ReplaceState::ValidEnd));
    assert_eq!(tape.to_sequence(), vec![Bit::One, Bit::One]);
    assert_eq!(tape.get_cursor(), Bit::One);
}

#[test]
fn undefined_transition_is_reported() {
    // With no terminal state the replacing machine reaches ValidEnd and asks
    // for a transition it does not define.
    let mut tape = TuringTape::new(Bit::Delta, Bit::Delta, vec![Bit::One]);
    let end = tape.run_states(ReplaceState::Start, vec![]);
    assert_eq!(
        end,
        Err(RunError::UndefinedTransition { state: ReplaceState::ValidEnd, symbol: Bit::Delta })
    );
    assert_eq!(tape.to_sequence(), vec![Bit::Delta, Bit::Zero, Bit::Delta]);
}

#[test]
fn boundary_violation_is_reported() {
    // CheckingDivByNull moves left from the start cell when it does not read
    // a blank there.
    let mut tape = TuringTape::new(DivSymbol::Delta, DivSymbol::One, vec![]);
    let end = tape.run_states(DivState::CheckingDivByNull, vec![DivState::Done]);
    assert_eq!(end, Err(RunError::BoundaryViolation { state: DivState::CheckingDivByNull }));
    assert_eq!(tape.to_sequence(), vec![DivSymbol::One]);
    assert_eq!(tape.get_cursor(), DivSymbol::One);
}

#[test]
fn single_step_applies_write_and_move() {
    let mut tape = TuringTape::new(Bit::Delta, Bit::Delta, vec![Bit::One, Bit::One]);
    tape.step_right();
    assert_eq!(step(&ReplaceState::Started, &mut tape), Ok(ReplaceState::Started));
    assert_eq!(tape.get_cursor(), Bit::One);
    assert_eq!(tape.to_sequence(), vec![Bit::Delta, Bit::Zero, Bit::One]);
}

#[test]
fn transitions_of_replacing_machine() {
    assert_eq!(ReplaceState::Started.int_step(Bit::One), Some((ReplaceState::Started, Bit::Zero, Move::Right)));
    assert_eq!(ReplaceState::Started.int_step(Bit::Delta), Some((ReplaceState::ValidEnd, Bit::Delta, Move::Stay)));
    assert_eq!(ReplaceState::ValidEnd.int_step(Bit::Zero), None);
    assert!(ReplaceState::Start.same_state(&ReplaceState::Start));
    assert!(!ReplaceState::Start.same_state(&ReplaceState::Started));
}

#[test]
fn same_run_twice_gives_same_result() {
    let input = vec![Bit::One, Bit::Zero, Bit::One, Bit::Zero];
    let first = run_until_end(CountState::Start, vec![CountState::FoundMore, CountState::InvalidEnd, CountState::ValidEnd], Bit::Delta, Bit::Delta, input.clone());
    let second = run_until_end(CountState::Start, vec![CountState::FoundMore, CountState::InvalidEnd, CountState::ValidEnd], Bit::Delta, Bit::Delta, input);
    assert_eq!(first, second);
    assert_eq!(first, Ok((CountState::ValidEnd, vec![Bit::Delta, Bit::One, Bit::Zero, Bit::One, Bit::Zero, Bit::Delta])));
}

fn div_expected(n: usize, k: usize, answer: DivSymbol) -> Vec<DivSymbol> {
    let mut v = vec![DivSymbol::StartToken, DivSymbol::Delta];
    v.extend(std::iter::repeat(DivSymbol::One).take(n));
    v.push(DivSymbol::Delta);
    v.extend(std::iter::repeat(DivSymbol::One).take(k));
    v.extend([DivSymbol::Delta, DivSymbol::Halt, DivSymbol::Delta, answer, DivSymbol::Delta]);
    v
}

#[test]
fn divisibility_input_shape() {
    assert_eq!(divisibility_input(2, 1), vec![DivSymbol::Delta, DivSymbol::One, DivSymbol::One, DivSymbol::Delta, DivSymbol::One, DivSymbol::Delta]);
    assert_eq!(divisibility_input(0, 0), vec![DivSymbol::Delta, DivSymbol::Delta, DivSymbol::Delta]);
}

#[test]
fn divisibility_six_by_three() {
    let result = run_until_end(
        DivState::Start,
        vec![DivState::InvalidSyntax, DivState::DivByNull, DivState::Done],
        DivSymbol::Delta,
        DivSymbol::StartToken,
        divisibility_input(6, 3),
    );
    assert_eq!(result, Ok((DivState::Done, div_expected(6, 3, DivSymbol::One))));
}

#[test]
fn divisibility_six_by_four() {
    let result = run_until_end(
        DivState::Start,
        vec![DivState::InvalidSyntax, DivState::DivByNull, DivState::Done],
        DivSymbol::Delta,
        DivSymbol::StartToken,
        divisibility_input(6, 4),
    );
    assert_eq!(result, Ok((DivState::Done, div_expected(6, 4, DivSymbol::Zero))));
}

#[test]
fn divisibility_by_zero() {
    let result = run_until_end(
        DivState::Start,
        vec![DivState::InvalidSyntax, DivState::DivByNull, DivState::Done],
        DivSymbol::Delta,
        DivSymbol::StartToken,
        divisibility_input(3, 0),
    );
    assert_eq!(result, Ok((DivState::DivByNull, vec![DivSymbol::StartToken, DivSymbol::Delta, DivSymbol::One, DivSymbol::One, DivSymbol::One, DivSymbol::Delta, DivSymbol::Delta])));
}
