//! A machine that makes one pass to the right over its input and replaces
//! every `One` by a `Zero`, halting on the first blank.
use vstd::prelude::*;

use crate::bit::Bit;
use crate::engine::{halts, lemma_run_deterministic, run_outcome, run_spec, step_spec, Move, TuringStates};
use crate::tape::TapeModel;

verus! {

/// The states of the replacing machine.
#[derive(Clone, Copy, Debug, PartialEq, Eq, Structural)]
pub enum ReplaceState {
    /// On the start cell, before the input.
    Start,
    /// Walking over the input.
    Started,
    /// The blank after the input was reached.
    ValidEnd,
}

impl TuringStates<Bit> for ReplaceState {
    open spec fn transition(&self, symbol: Bit) -> Option<(ReplaceState, Bit, Move)> {
        match *self {
            ReplaceState::Start => Some((ReplaceState::Started, symbol, Move::Right)),
            ReplaceState::ValidEnd => None,
            ReplaceState::Started => match symbol {
                Bit::Zero => Some((ReplaceState::Started, Bit::Zero, Move::Right)),
                Bit::One => Some((ReplaceState::Started, Bit::Zero, Move::Right)),
                Bit::Delta => Some((ReplaceState::ValidEnd, Bit::Delta, Move::Stay)),
            },
        }
    }

    fn int_step(&self, symbol: Bit) -> (r: Option<(ReplaceState, Bit, Move)>) {
        match *self {
            ReplaceState::Start => Some((ReplaceState::Started, symbol, Move::Right)),
            ReplaceState::ValidEnd => None,
            ReplaceState::Started => match symbol {
                Bit::Zero => Some((ReplaceState::Started, Bit::Zero, Move::Right)),
                Bit::One => Some((ReplaceState::Started, Bit::Zero, Move::Right)),
                Bit::Delta => Some((ReplaceState::ValidEnd, Bit::Delta, Move::Stay)),
            },
        }
    }

    fn same_state(&self, other: &ReplaceState) -> (r: bool) {
        *self == *other
    }
}

/// `s` with every `One` replaced by `Zero`.
pub open spec fn replaced(s: Seq<Bit>) -> Seq<Bit> {
    s.map_values(|b: Bit| if b == Bit::One { Bit::Zero } else { b })
}

/// `s` holds no blank.
pub open spec fn no_blank(s: Seq<Bit>) -> bool {
    forall|i: int| 0 <= i < s.len() ==> s[i] != Bit::Delta
}

/// In `Started`, with `done` already replaced and `rest` still to read (and a
/// blank after it once the cursor has reached past the input), the machine
/// halts after `rest.len() + 1` steps with all of `rest` replaced.
proof fn lemma_walk(done: Seq<Bit>, rest: Seq<Bit>, trailing: bool)
    requires
        no_blank(rest),
        trailing || rest.len() > 0,
    ensures
        run_spec(
            ReplaceState::Started,
            TapeModel {
                cells: seq![Bit::Delta] + done + rest + (if trailing { seq![Bit::Delta] } else { Seq::empty() }),
                pos: 1 + done.len(),
                blank: Bit::Delta,
            },
            seq![ReplaceState::ValidEnd],
            rest.len() + 1,
        ) == Some((
            Ok::<ReplaceState, crate::engine::RunError<ReplaceState, Bit>>(ReplaceState::ValidEnd),
            TapeModel {
                cells: seq![Bit::Delta] + done + replaced(rest) + seq![Bit::Delta],
                pos: 1 + done.len() + rest.len(),
                blank: Bit::Delta,
            },
        )),
    decreases rest.len(),
{
    let ends = seq![ReplaceState::ValidEnd];
    let tail: Seq<Bit> = if trailing { seq![Bit::Delta] } else { Seq::empty() };
    let t = TapeModel { cells: seq![Bit::Delta] + done + rest + tail, pos: 1 + done.len(), blank: Bit::Delta };
    assert(!ends.contains(ReplaceState::Started)) by {
        if ends.contains(ReplaceState::Started) {
            let i = choose|i: int| 0 <= i < ends.len() && ends[i] == ReplaceState::Started;
            assert(ends[i] == ReplaceState::ValidEnd);
        }
    }
    assert(ends.contains(ReplaceState::ValidEnd)) by {
        assert(ends[0] == ReplaceState::ValidEnd);
    }
    if rest.len() == 0 {
        assert(t.cells =~= seq![Bit::Delta] + done + seq![Bit::Delta]);
        assert(replaced(rest) =~= Seq::<Bit>::empty());
        assert(seq![Bit::Delta] + done + replaced(rest) + seq![Bit::Delta] =~= t.cells);
        assert(t.current() == Bit::Delta);
        let (r, t2) = step_spec(ReplaceState::Started, t);
        assert(r == Ok::<ReplaceState, crate::engine::RunError<ReplaceState, Bit>>(ReplaceState::ValidEnd));
        assert(t2 == t.written(Bit::Delta));
        assert(t.cells.update(t.pos as int, Bit::Delta) =~= t.cells);
        assert(run_spec(ReplaceState::ValidEnd, t2, ends, 0) == Some((
            Ok::<ReplaceState, crate::engine::RunError<ReplaceState, Bit>>(ReplaceState::ValidEnd),
            t2,
        )));
        assert(run_spec(ReplaceState::Started, t, ends, 1) == run_spec(ReplaceState::ValidEnd, t2, ends, 0));
    } else {
        let b = rest[0];
        assert(t.current() == b) by {
            assert(t.cells[1 + done.len() as int] == rest[0]);
        }
        let w = if b == Bit::One { Bit::Zero } else { b };
        let done2 = done.push(w);
        let rest2 = rest.drop_first();
        let trailing2 = trailing || rest.len() == 1;
        let tail2: Seq<Bit> = if trailing2 { seq![Bit::Delta] } else { Seq::empty() };
        let t2 = TapeModel { cells: seq![Bit::Delta] + done2 + rest2 + tail2, pos: 1 + done2.len(), blank: Bit::Delta };
        let wt = t.written(w);
        assert(wt.cells =~= seq![Bit::Delta] + done2 + rest2 + tail);
        assert(wt.moved_right() == t2) by {
            if rest.len() == 1 && !trailing {
                assert(wt.cells.push(Bit::Delta) =~= t2.cells);
            } else {
                assert(wt.cells =~= t2.cells);
            }
        }
        assert(step_spec(ReplaceState::Started, t) == (
            Ok::<ReplaceState, crate::engine::RunError<ReplaceState, Bit>>(ReplaceState::Started),
            t2,
        ));
        lemma_walk(done2, rest2, trailing2);
        assert(run_spec(ReplaceState::Started, t, ends, rest.len() + 1) == run_spec(
            ReplaceState::Started,
            t2,
            ends,
            rest2.len() + 1,
        ));
        assert(seq![Bit::Delta] + done2 + replaced(rest2) + seq![Bit::Delta] =~= seq![Bit::Delta] + done
            + replaced(rest) + seq![Bit::Delta]);
    }
}

/// The replacing machine halts on every input without blanks, in
/// `ValidEnd`, having replaced every `One` of the input by a `Zero` and left
/// one blank after it.
pub proof fn lemma_replace_ones_halts(input: Seq<Bit>)
    requires
        no_blank(input),
    ensures
        halts(ReplaceState::Start, TapeModel::initial(Bit::Delta, Bit::Delta, input), seq![ReplaceState::ValidEnd]),
        run_outcome(ReplaceState::Start, TapeModel::initial(Bit::Delta, Bit::Delta, input), seq![ReplaceState::ValidEnd])
            == (
            Ok::<ReplaceState, crate::engine::RunError<ReplaceState, Bit>>(ReplaceState::ValidEnd),
            TapeModel {
                cells: seq![Bit::Delta] + replaced(input) + seq![Bit::Delta],
                pos: input.len() + 1,
                blank: Bit::Delta,
            },
        ),
{
    let ends = seq![ReplaceState::ValidEnd];
    let t0 = TapeModel::initial(Bit::Delta, Bit::Delta, input);
    assert(!ends.contains(ReplaceState::Start)) by {
        if ends.contains(ReplaceState::Start) {
            let i = choose|i: int| 0 <= i < ends.len() && ends[i] == ReplaceState::Start;
            assert(ends[i] == ReplaceState::ValidEnd);
        }
    }
    let trailing = input.len() == 0;
    let tail: Seq<Bit> = if trailing { seq![Bit::Delta] } else { Seq::empty() };
    let t1 = TapeModel {
        cells: seq![Bit::Delta] + Seq::<Bit>::empty() + input + tail,
        pos: 1,
        blank: Bit::Delta,
    };
    assert(t0.current() == Bit::Delta);
    assert(t0.written(Bit::Delta).cells =~= t0.cells);
    assert(t0.moved_right() == t1) by {
        if trailing {
            assert(t0.cells.push(Bit::Delta) =~= t1.cells);
        } else {
            assert(t0.cells =~= t1.cells);
        }
    }
    assert(step_spec(ReplaceState::Start, t0) == (
        Ok::<ReplaceState, crate::engine::RunError<ReplaceState, Bit>>(ReplaceState::Started),
        t1,
    ));
    lemma_walk(Seq::empty(), input, trailing);
    let fuel = input.len() + 2;
    assert(seq![Bit::Delta] + Seq::<Bit>::empty() + replaced(input) =~= seq![Bit::Delta] + replaced(input));
    assert(run_spec(ReplaceState::Start, t0, ends, fuel) is Some);
    lemma_run_deterministic(ReplaceState::Start, t0, t0, ends, fuel, fuel);
}

} // verus!
