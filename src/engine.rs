//! The execution engine: a transition contract supplied by the machine's author,
//! its meaning as spec functions, and the loop that applies it to a tape.
use vstd::prelude::*;

use crate::tape::{TapeModel, TuringTape};

verus! {

/// The cursor displacement chosen by one transition.
#[derive(Clone, Copy, Debug, PartialEq, Eq)]
pub enum Move {
    /// Move left one cell.
    Left,
    /// Move right one cell.
    Right,
    /// Keep the cursor where it is.
    Stay,
}

/// Why a run stopped before reaching a terminal state.
#[derive(Clone, Copy, Debug, PartialEq, Eq)]
pub enum RunError<S, A> {
    /// In `state` the machine asked to move left of the start cell.
    BoundaryViolation { state: S },
    /// The machine defines no transition for `state` reading `symbol`.
    UndefinedTransition { state: S, symbol: A },
}

/// The states of a machine over the alphabet `A`, with its transition function.
pub trait TuringStates<A: Copy>: Sized + Copy {
    /// What the machine does in this state on reading `symbol`: the next
    /// state, the symbol to write back and the move; `None` where the machine
    /// leaves the pair undefined.
    spec fn transition(&self, symbol: A) -> Option<(Self, A, Move)>;

    /// Computes `transition`.
    fn int_step(&self, symbol: A) -> (r: Option<(Self, A, Move)>)
        ensures
            r == self.transition(symbol),
    ;

    /// Tells whether two states are the same state.
    fn same_state(&self, other: &Self) -> (r: bool)
        ensures
            r == (*self == *other),
    ;
}

/// Executes one step on `tape`: reads the cursor, writes back the chosen
/// symbol, moves the cursor, and returns the next state.
pub fn step<A: Copy, S: TuringStates<A>>(state: &S, tape: &mut TuringTape<A>) -> (r: Result<S, RunError<S, A>>)
    requires
        old(tape).wf(),
    ensures
        final(tape).wf(),
        (r, final(tape)@) == step_spec(*state, old(tape)@),
{
    let symbol = tape.get_cursor();
    match state.int_step(symbol) {
        None => Err(RunError::UndefinedTransition { state: *state, symbol }),
        Some((next, write, mv)) => {
            tape.set_cursor(write);
            match mv {
                Move::Left => match tape.step_left() {
                    Ok(_) => Ok(next),
                    Err(_) => Err(RunError::BoundaryViolation { state: *state }),
                },
                Move::Right => {
                    tape.step_right();
                    Ok(next)
                },
                Move::Stay => Ok(next),
            }
        },
    }
}

/// Builds a tape from `empty_token`, `start_token` and `initial_state`, runs
/// the machine on it from `start_state` until a state of `end_states` is
/// reached, and returns that state with the symbols left on the tape.
pub fn run_until_end<A: Copy, S: TuringStates<A>>(
    start_state: S,
    end_states: Vec<S>,
    empty_token: A,
    start_token: A,
    initial_state: Vec<A>,
) -> (r: Result<(S, Vec<A>), RunError<S, A>>)
    requires
        halts(start_state, TapeModel::initial(empty_token, start_token, initial_state@), end_states@),
    ensures
        ({
            let (outcome, tape) = run_outcome(
                start_state,
                TapeModel::initial(empty_token, start_token, initial_state@),
                end_states@,
            );
            match r {
                Ok((state, cells)) => outcome == Ok::<S, RunError<S, A>>(state) && cells@ == tape.cells,
                Err(e) => outcome == Err::<S, RunError<S, A>>(e),
            }
        }),
{
    let mut tape = TuringTape::new(empty_token, start_token, initial_state);
    match tape.run_states(start_state, end_states) {
        Ok(state) => Ok((state, tape.to_sequence())),
        Err(e) => Err(e),
    }
}

/// One step of `state` on `tape`: the outcome and the tape afterwards.
pub open spec fn step_spec<A: Copy, S: TuringStates<A>>(state: S, tape: TapeModel<A>) -> (
    Result<S, RunError<S, A>>,
    TapeModel<A>,
) {
    match state.transition(tape.current()) {
        None => (Err(RunError::UndefinedTransition { state, symbol: tape.current() }), tape),
        Some((next, write, mv)) => {
            let t = tape.written(write);
            match mv {
                Move::Right => (Ok(next), t.moved_right()),
                Move::Stay => (Ok(next), t),
                Move::Left => match t.moved_left() {
                    Some(l) => (Ok(next), l),
                    None => (Err(RunError::BoundaryViolation { state }), t),
                },
            }
        },
    }
}

/// The outcome of running from `state` on `tape` until a state of `ends` is
/// reached or a step fails, and the tape then; `None` when that takes more
/// than `fuel` steps.
pub open spec fn run_spec<A: Copy, S: TuringStates<A>>(
    state: S,
    tape: TapeModel<A>,
    ends: Seq<S>,
    fuel: nat,
) -> Option<(Result<S, RunError<S, A>>, TapeModel<A>)>
    decreases fuel,
{
    if ends.contains(state) {
        Some((Ok(state), tape))
    } else if fuel == 0 {
        None
    } else {
        let (r, t) = step_spec(state, tape);
        match r {
            Ok(next) => run_spec(next, t, ends, (fuel - 1) as nat),
            Err(e) => Some((Err(e), t)),
        }
    }
}

/// The run from `state` on `tape` stops after finitely many steps.
pub open spec fn halts<A: Copy, S: TuringStates<A>>(state: S, tape: TapeModel<A>, ends: Seq<S>) -> bool {
    exists|fuel: nat| (#[trigger] run_spec(state, tape, ends, fuel)) is Some
}

/// The outcome of a run that halts, and the tape it leaves.
pub open spec fn run_outcome<A: Copy, S: TuringStates<A>>(state: S, tape: TapeModel<A>, ends: Seq<S>) -> (
    Result<S, RunError<S, A>>,
    TapeModel<A>,
) {
    run_spec(state, tape, ends, choose|fuel: nat| (#[trigger] run_spec(state, tape, ends, fuel)) is Some)->0
}

/// Once a run has finished within some fuel, more fuel changes nothing.
proof fn lemma_run_fuel_monotone<A: Copy, S: TuringStates<A>>(
    state: S,
    tape: TapeModel<A>,
    ends: Seq<S>,
    f1: nat,
    f2: nat,
)
    requires
        run_spec(state, tape, ends, f1) is Some,
        f1 <= f2,
    ensures
        run_spec(state, tape, ends, f2) == run_spec(state, tape, ends, f1),
    decreases f1,
{
    if !ends.contains(state) && f1 > 0 {
        let (r, t) = step_spec(state, tape);
        if let Ok(next) = r {
            lemma_run_fuel_monotone(next, t, ends, (f1 - 1) as nat, (f2 - 1) as nat);
        }
    }
}

/// Runs are deterministic: the same machine from the same state on two equal
/// tapes ends in the same outcome with the same tape, however many steps each
/// was granted, and that is the outcome `run_states` reports.
pub proof fn lemma_run_deterministic<A: Copy, S: TuringStates<A>>(
    state: S,
    t1: TapeModel<A>,
    t2: TapeModel<A>,
    ends: Seq<S>,
    f1: nat,
    f2: nat,
)
    requires
        t1 == t2,
        run_spec(state, t1, ends, f1) is Some,
        run_spec(state, t2, ends, f2) is Some,
    ensures
        run_spec(state, t1, ends, f1) == run_spec(state, t2, ends, f2),
        run_spec(state, t1, ends, f1) == Some(run_outcome(state, t1, ends)),
{
    if f1 <= f2 {
        lemma_run_fuel_monotone(state, t1, ends, f1, f2);
    } else {
        lemma_run_fuel_monotone(state, t2, ends, f2, f1);
    }
    let f = choose|fuel: nat| (#[trigger] run_spec(state, t1, ends, fuel)) is Some;
    if f1 <= f {
        lemma_run_fuel_monotone(state, t1, ends, f1, f);
    } else {
        lemma_run_fuel_monotone(state, t1, ends, f, f1);
    }
}

/// Two halting runs of the same machine from the same state on equal tapes
/// (same cells, cursor and blank) give the same outcome and leave equal tapes;
/// this is what `run_states` and `run_until_end` return.
pub proof fn lemma_equal_tapes_equal_runs<A: Copy, S: TuringStates<A>>(
    state: S,
    t1: TapeModel<A>,
    t2: TapeModel<A>,
    ends: Seq<S>,
)
    requires
        t1 == t2,
        halts(state, t1, ends),
    ensures
        halts(state, t2, ends),
        run_outcome(state, t1, ends) == run_outcome(state, t2, ends),
{
    let f = choose|fuel: nat| (#[trigger] run_spec(state, t1, ends, fuel)) is Some;
    lemma_run_deterministic(state, t1, t2, ends, f, f);
}

/// Whether `state` is one of `ends`.
fn is_terminal<A: Copy, S: TuringStates<A>>(state: &S, ends: &Vec<S>) -> (r: bool)
    ensures
        r == ends@.contains(*state),
{
    let mut i: usize = 0;
    while i < ends.len()
        invariant
            i <= ends@.len(),
            forall|j: int| 0 <= j < i ==> ends@[j] != *state,
        decreases ends@.len() - i,
    {
        if ends[i].same_state(state) {
            return true;
        }
        i = i + 1;
    }
    false
}

impl<A: Copy> TuringTape<A> {
    /// Runs the machine from `start_state` until one of `end_states` is
    /// reached and returns that state, or the error that stopped the run.
    pub fn run_states<S: TuringStates<A>>(&mut self, start_state: S, end_states: Vec<S>) -> (r: Result<S, RunError<S, A>>)
        requires
            old(self).wf(),
            halts(start_state, old(self)@, end_states@),
        ensures
            final(self).wf(),
            (r, final(self)@) == run_outcome(start_state, old(self)@, end_states@),
    {
        let ghost fuel = choose|fuel: nat| (#[trigger] run_spec(start_state, self@, end_states@, fuel)) is Some;
        let ghost goal = run_spec(start_state, self@, end_states@, fuel);
        let ghost mut left: nat = fuel;
        let mut state = start_state;
        assert(goal == Some(run_outcome(start_state, self@, end_states@)));
        loop
            invariant
                self.wf(),
                goal == Some(run_outcome(start_state, old(self)@, end_states@)),
                run_spec(state, self@, end_states@, left) == goal,
            decreases left,
        {
            if is_terminal::<A, S>(&state, &end_states) {
                return Ok(state);
            }
            match step(&state, self) {
                Ok(next) => {
                    state = next;
                    proof {
                        left = (left - 1) as nat;
                    }
                },
                Err(e) => {
                    return Err(e);
                },
            }
        }
    }
}

} // verus!
