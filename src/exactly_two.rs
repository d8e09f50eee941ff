//! A machine that decides whether its input holds exactly two `One`s.
use vstd::prelude::*;

use crate::bit::Bit;
use crate::engine::{halts, run_spec, step_spec, Move, TuringStates};
use crate::tape::TapeModel;

verus! {

/// The states of the counting machine.
#[derive(Clone, Copy, Debug, PartialEq, Eq, Structural)]
pub enum CountState {
    /// On the start cell, before the input.
    Start,
    /// No `One` seen yet.
    FoundNone,
    /// One `One` seen.
    FoundFirst,
    /// Two `One`s seen.
    FoundSecond,
    /// More than two `One`s seen: the input is rejected.
    FoundMore,
    /// The input ended with a count other than two.
    InvalidEnd,
    /// The input ended with exactly two `One`s.
    ValidEnd,
}

/// The count after reading one more `One`; `None` where no count is kept.
pub open spec fn count_after_one(s: CountState) -> Option<CountState> {
    match s {
        CountState::FoundNone => Some(CountState::FoundFirst),
        CountState::FoundFirst => Some(CountState::FoundSecond),
        CountState::FoundSecond => Some(CountState::FoundMore),
        CountState::FoundMore => Some(CountState::FoundMore),
        _ => None,
    }
}

impl TuringStates<Bit> for CountState {
    open spec fn transition(&self, symbol: Bit) -> Option<(CountState, Bit, Move)> {
        match *self {
            CountState::Start => Some((CountState::FoundNone, symbol, Move::Right)),
            CountState::InvalidEnd => None,
            s => match symbol {
                Bit::Zero => Some((s, Bit::Zero, Move::Right)),
                Bit::One => match count_after_one(s) {
                    Some(next) => Some((next, Bit::One, Move::Right)),
                    None => None,
                },
                Bit::Delta => if s == CountState::FoundSecond {
                    Some((CountState::ValidEnd, Bit::Delta, Move::Stay))
                } else {
                    Some((CountState::InvalidEnd, Bit::Delta, Move::Stay))
                },
            },
        }
    }

    fn int_step(&self, symbol: Bit) -> (r: Option<(CountState, Bit, Move)>) {
        match *self {
            CountState::Start => Some((CountState::FoundNone, symbol, Move::Right)),
            CountState::InvalidEnd => None,
            s => match symbol {
                Bit::Zero => Some((s, Bit::Zero, Move::Right)),
                Bit::One => {
                    let next = match s {
                        CountState::FoundNone => CountState::FoundFirst,
                        CountState::FoundFirst => CountState::FoundSecond,
                        CountState::FoundSecond => CountState::FoundMore,
                        CountState::FoundMore => CountState::FoundMore,
                        _ => {
                            return None;
                        },
                    };
                    Some((next, Bit::One, Move::Right))
                },
                Bit::Delta => {
                    if s == CountState::FoundSecond {
                        Some((CountState::ValidEnd, Bit::Delta, Move::Stay))
                    } else {
                        Some((CountState::InvalidEnd, Bit::Delta, Move::Stay))
                    }
                },
            },
        }
    }

    fn same_state(&self, other: &CountState) -> (r: bool) {
        *self == *other
    }
}

/// The terminal states of the counting machine.
pub open spec fn count_ends() -> Seq<CountState> {
    seq![CountState::FoundMore, CountState::InvalidEnd, CountState::ValidEnd]
}

/// `s` holds no blank.
pub open spec fn no_blank(s: Seq<Bit>) -> bool {
    forall|i: int| 0 <= i < s.len() ==> s[i] != Bit::Delta
}

proof fn lemma_count_ends(s: CountState)
    ensures
        count_ends().contains(s) <==> (s == CountState::FoundMore || s == CountState::InvalidEnd || s
            == CountState::ValidEnd),
{
    let e = count_ends();
    if s == CountState::FoundMore || s == CountState::InvalidEnd || s == CountState::ValidEnd {
        let i: int = if s == CountState::FoundMore { 0 } else if s == CountState::InvalidEnd { 1 } else { 2 };
        assert(e[i] == s);
    }
}

/// While counting, with `done` read and `rest` still to read (and a blank
/// after it once the cursor has reached past the input), the machine stops
/// within `rest.len() + 1` steps.
proof fn lemma_count_walk(s: CountState, done: Seq<Bit>, rest: Seq<Bit>, trailing: bool)
    requires
        s == CountState::FoundNone || s == CountState::FoundFirst || s == CountState::FoundSecond || s
            == CountState::FoundMore,
        no_blank(rest),
        trailing || rest.len() > 0,
    ensures
        run_spec(
            s,
            TapeModel {
                cells: seq![Bit::Delta] + done + rest + (if trailing { seq![Bit::Delta] } else { Seq::empty() }),
                pos: 1 + done.len(),
                blank: Bit::Delta,
            },
            count_ends(),
            rest.len() + 1,
        ) is Some,
    decreases rest.len(),
{
    let ends = count_ends();
    let tail: Seq<Bit> = if trailing { seq![Bit::Delta] } else { Seq::empty() };
    let t = TapeModel { cells: seq![Bit::Delta] + done + rest + tail, pos: 1 + done.len(), blank: Bit::Delta };
    lemma_count_ends(s);
    if s == CountState::FoundMore {
        return;
    }
    if rest.len() == 0 {
        assert(t.cells =~= seq![Bit::Delta] + done + seq![Bit::Delta]);
        assert(t.current() == Bit::Delta);
        let (r, t2) = step_spec(s, t);
        let next = if s == CountState::FoundSecond { CountState::ValidEnd } else { CountState::InvalidEnd };
        assert(r == Ok::<CountState, crate::engine::RunError<CountState, Bit>>(next));
        lemma_count_ends(next);
        assert(run_spec(s, t, ends, 1) == run_spec(next, t2, ends, 0));
    } else {
        let b = rest[0];
        assert(t.current() == b) by {
            assert(t.cells[1 + done.len() as int] == rest[0]);
        }
        let next = if b == Bit::One { count_after_one(s)->0 } else { s };
        let done2 = done.push(b);
        let rest2 = rest.drop_first();
        let trailing2 = trailing || rest.len() == 1;
        let tail2: Seq<Bit> = if trailing2 { seq![Bit::Delta] } else { Seq::empty() };
        let t2 = TapeModel { cells: seq![Bit::Delta] + done2 + rest2 + tail2, pos: 1 + done2.len(), blank: Bit::Delta };
        let wt = t.written(b);
        assert(wt.cells =~= seq![Bit::Delta] + done2 + rest2 + tail);
        assert(wt.moved_right() == t2) by {
            if rest.len() == 1 && !trailing {
                assert(wt.cells.push(Bit::Delta) =~= t2.cells);
            } else {
                assert(wt.cells =~= t2.cells);
            }
        }
        assert(step_spec(s, t) == (Ok::<CountState, crate::engine::RunError<CountState, Bit>>(next), t2));
        lemma_count_walk(next, done2, rest2, trailing2);
        assert(run_spec(s, t, ends, rest.len() + 1) == run_spec(next, t2, ends, rest2.len() + 1));
    }
}

/// The counting machine halts on every input without blanks, so a verified
/// caller can run it with `run_states` or `run_until_end`.
pub proof fn lemma_exactly_two_halts(input: Seq<Bit>)
    requires
        no_blank(input),
    ensures
        halts(CountState::Start, TapeModel::initial(Bit::Delta, Bit::Delta, input), count_ends()),
{
    let ends = count_ends();
    let t0 = TapeModel::initial(Bit::Delta, Bit::Delta, input);
    lemma_count_ends(CountState::Start);
    let trailing = input.len() == 0;
    let tail: Seq<Bit> = if trailing { seq![Bit::Delta] } else { Seq::empty() };
    let t1 = TapeModel {
        cells: seq![Bit::Delta] + Seq::<Bit>::empty() + input + tail,
        pos: 1,
        blank: Bit::Delta,
    };
    assert(t0.current() == Bit::Delta);
    assert(t0.written(Bit::Delta).cells =~= t0.cells);
    assert(t0.moved_right() == t1) by {
        if trailing {
            assert(t0.cells.push(Bit::Delta) =~= t1.cells);
        } else {
            assert(t0.cells =~= t1.cells);
        }
    }
    assert(step_spec(CountState::Start, t0) == (
        Ok::<CountState, crate::engine::RunError<CountState, Bit>>(CountState::FoundNone),
        t1,
    ));
    lemma_count_walk(CountState::FoundNone, Seq::empty(), input, trailing);
    let fuel = input.len() + 2;
    assert(run_spec(CountState::Start, t0, ends, fuel) == run_spec(CountState::FoundNone, t1, ends, input.len() + 1));
    assert(run_spec(CountState::Start, t0, ends, fuel) is Some);
}

} // verus!
