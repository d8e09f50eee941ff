//! A machine that decides whether `k` divides `n`. Its input is
//! `_ 1^n _ 1^k _` after the start cell; it appends `h _ 1` when `k` divides
//! `n` and `h _ 0` when it does not, leaving the input as it found it.
use vstd::prelude::*;

use crate::engine::{Move, TuringStates};

verus! {

/// The alphabet of the divisibility machine.
#[derive(Clone, Copy, Debug, PartialEq, Eq, Structural)]
pub enum DivSymbol {
    /// The symbol of the start cell.
    StartToken,
    /// The blank.
    Delta,
    Zero,
    One,
    /// A `One` already paired in the current cycle.
    MarkedOne,
    /// Marks the start of the answer.
    Halt,
}

/// The states of the divisibility machine.
#[derive(Clone, Copy, Debug, PartialEq, Eq, Structural)]
pub enum DivState {
    Start,
    MovingToCenter,
    CycleStart,
    CycleEnd,
    DivisibleReturn,
    NonDivisibleReturn,
    DivHalt,
    DivDelta,
    DivOutput,
    NonDivHalt,
    NonDivDelta,
    NonDivOutput,
    SearchingDen,
    SearchingNum,
    Found1InDenominator,
    Found1InNumerator,
    CheckingDivByNull,
    CheckingLeftovers,
    FoundLeftovers,
    NoLeftoversP1,
    NoLeftoversP2,
    LeftOverP1,
    LeftOverP2,
    /// `k` is zero.
    DivByNull,
    /// The input does not have the expected shape.
    InvalidSyntax,
    /// The answer has been written.
    Done,
}

/// `count` copies of `s`.
pub open spec fn repeated(s: DivSymbol, count: nat) -> Seq<DivSymbol> {
    Seq::new(count, |i: int| s)
}

/// The input for `n` and `k`: `_ 1^n _ 1^k _`.
pub open spec fn div_input(n: nat, k: nat) -> Seq<DivSymbol> {
    seq![DivSymbol::Delta] + repeated(DivSymbol::One, n) + seq![DivSymbol::Delta] + repeated(DivSymbol::One, k)
        + seq![DivSymbol::Delta]
}

/// Appends `count` copies of `s` to `v`.
fn push_repeated(v: &mut Vec<DivSymbol>, s: DivSymbol, count: usize)
    ensures
        final(v)@ == old(v)@ + repeated(s, count as nat),
{
    let mut i: usize = 0;
    while i < count
        invariant
            i <= count,
            v@ == old(v)@ + repeated(s, i as nat),
        decreases count - i,
    {
        v.push(s);
        i = i + 1;
        assert(repeated(s, i as nat) == repeated(s, (i - 1) as nat).push(s));
    }
}

/// Builds the input tape contents for `n` and `k`: `_ 1^n _ 1^k _`.
pub fn divisibility_input(n: usize, k: usize) -> (r: Vec<DivSymbol>)
    ensures
        r@ == div_input(n as nat, k as nat),
{
    let mut v: Vec<DivSymbol> = Vec::new();
    v.push(DivSymbol::Delta);
    push_repeated(&mut v, DivSymbol::One, n);
    v.push(DivSymbol::Delta);
    push_repeated(&mut v, DivSymbol::One, k);
    v.push(DivSymbol::Delta);
    assert(v@ == div_input(n as nat, k as nat));
    v
}

impl TuringStates<DivSymbol> for DivState {
    open spec fn transition(&self, t: DivSymbol) -> Option<(DivState, DivSymbol, Move)> {
        match *self {
            DivState::Start => match t {
                DivSymbol::Delta => Some((DivState::MovingToCenter, t, Move::Right)),
                _ => Some((DivState::Start, t, Move::Right)),
            },
            DivState::MovingToCenter => match t {
                DivSymbol::One => Some((DivState::MovingToCenter, t, Move::Right)),
                DivSymbol::Delta => Some((DivState::CheckingDivByNull, t, Move::Right)),
                _ => Some((DivState::InvalidSyntax, t, Move::Stay)),
            },
            DivState::CheckingDivByNull => match t {
                DivSymbol::Delta => Some((DivState::DivByNull, t, Move::Stay)),
                _ => Some((DivState::CycleStart, t, Move::Left)),
            },
            DivState::CycleStart => Some((DivState::CheckingLeftovers, t, Move::Left)),
            DivState::CheckingLeftovers => match t {
                DivSymbol::Delta => Some((DivState::NoLeftoversP1, t, Move::Right)),
                DivSymbol::One => Some((DivState::FoundLeftovers, t, Move::Right)),
                _ => Some((DivState::CheckingLeftovers, t, Move::Left)),
            },
            DivState::FoundLeftovers => match t {
                DivSymbol::Delta => Some((DivState::SearchingDen, t, Move::Right)),
                _ => Some((DivState::FoundLeftovers, t, Move::Right)),
            },
            DivState::SearchingDen => match t {
                DivSymbol::Delta => Some((DivState::CycleEnd, t, Move::Left)),
                DivSymbol::One => Some((DivState::Found1InDenominator, DivSymbol::MarkedOne, Move::Left)),
                _ => Some((DivState::SearchingDen, t, Move::Right)),
            },
            DivState::Found1InDenominator => match t {
                DivSymbol::Delta => Some((DivState::SearchingNum, t, Move::Left)),
                _ => Some((DivState::Found1InDenominator, t, Move::Left)),
            },
            DivState::SearchingNum => match t {
                DivSymbol::Delta => Some((DivState::LeftOverP1, t, Move::Right)),
                DivSymbol::One => Some((DivState::Found1InNumerator, DivSymbol::MarkedOne, Move::Right)),
                _ => Some((DivState::SearchingNum, t, Move::Left)),
            },
            DivState::Found1InNumerator => match t {
                DivSymbol::Delta => Some((DivState::SearchingDen, t, Move::Right)),
                _ => Some((DivState::Found1InNumerator, t, Move::Right)),
            },
            DivState::CycleEnd => match t {
                DivSymbol::Delta => Some((DivState::CycleStart, t, Move::Stay)),
                DivSymbol::MarkedOne => Some((DivState::CycleEnd, DivSymbol::One, Move::Left)),
                _ => None,
            },
            DivState::LeftOverP1 => match t {
                DivSymbol::Delta => Some((DivState::LeftOverP2, t, Move::Right)),
                DivSymbol::MarkedOne => Some((DivState::LeftOverP1, DivSymbol::One, Move::Right)),
                _ => Some((DivState::LeftOverP1, t, Move::Right)),
            },
            DivState::LeftOverP2 => match t {
                DivSymbol::Delta => Some((DivState::NonDivisibleReturn, t, Move::Right)),
                DivSymbol::MarkedOne => Some((DivState::LeftOverP2, DivSymbol::One, Move::Right)),
                _ => Some((DivState::LeftOverP2, t, Move::Right)),
            },
            DivState::NoLeftoversP1 => match t {
                DivSymbol::Delta => Some((DivState::NoLeftoversP2, t, Move::Right)),
                DivSymbol::MarkedOne => Some((DivState::NoLeftoversP1, DivSymbol::One, Move::Right)),
                _ => Some((DivState::NoLeftoversP1, t, Move::Right)),
            },
            DivState::NoLeftoversP2 => match t {
                DivSymbol::Delta => Some((DivState::DivisibleReturn, t, Move::Right)),
                DivSymbol::MarkedOne => Some((DivState::NoLeftoversP2, DivSymbol::One, Move::Right)),
                _ => Some((DivState::NoLeftoversP2, t, Move::Right)),
            },
            DivState::DivisibleReturn => Some((DivState::DivHalt, t, Move::Stay)),
            DivState::DivHalt => Some((DivState::DivDelta, DivSymbol::Halt, Move::Right)),
            DivState::DivDelta => Some((DivState::DivOutput, DivSymbol::Delta, Move::Right)),
            DivState::DivOutput => Some((DivState::Done, DivSymbol::One, Move::Right)),
            DivState::NonDivisibleReturn => Some((DivState::NonDivHalt, t, Move::Stay)),
            DivState::NonDivHalt => Some((DivState::NonDivDelta, DivSymbol::Halt, Move::Right)),
            DivState::NonDivDelta => Some((DivState::NonDivOutput, DivSymbol::Delta, Move::Right)),
            DivState::NonDivOutput => Some((DivState::Done, DivSymbol::Zero, Move::Right)),
            _ => Some((DivState::InvalidSyntax, t, Move::Stay)),
        }
    }

    fn int_step(&self, t: DivSymbol) -> (r: Option<(DivState, DivSymbol, Move)>) {
        match *self {
            DivState::Start => match t {
                DivSymbol::Delta => Some((DivState::MovingToCenter, t, Move::Right)),
                _ => Some((DivState::Start, t, Move::Right)),
            },
            DivState::MovingToCenter => match t {
                DivSymbol::One => Some((DivState::MovingToCenter, t, Move::Right)),
                DivSymbol::Delta => Some((DivState::CheckingDivByNull, t, Move::Right)),
                _ => Some((DivState::InvalidSyntax, t, Move::Stay)),
            },
            DivState::CheckingDivByNull => match t {
                DivSymbol::Delta => Some((DivState::DivByNull, t, Move::Stay)),
                _ => Some((DivState::CycleStart, t, Move::Left)),
            },
            DivState::CycleStart => Some((DivState::CheckingLeftovers, t, Move::Left)),
            DivState::CheckingLeftovers => match t {
                DivSymbol::Delta => Some((DivState::NoLeftoversP1, t, Move::Right)),
                DivSymbol::One => Some((DivState::FoundLeftovers, t, Move::Right)),
                _ => Some((DivState::CheckingLeftovers, t, Move::Left)),
            },
            DivState::FoundLeftovers => match t {
                DivSymbol::Delta => Some((DivState::SearchingDen, t, Move::Right)),
                _ => Some((DivState::FoundLeftovers, t, Move::Right)),
            },
            DivState::SearchingDen => match t {
                DivSymbol::Delta => Some((DivState::CycleEnd, t, Move::Left)),
                DivSymbol::One => Some((DivState::Found1InDenominator, DivSymbol::MarkedOne, Move::Left)),
                _ => Some((DivState::SearchingDen, t, Move::Right)),
            },
            DivState::Found1InDenominator => match t {
                DivSymbol::Delta => Some((DivState::SearchingNum, t, Move::Left)),
                _ => Some((DivState::Found1InDenominator, t, Move::Left)),
            },
            DivState::SearchingNum => match t {
                DivSymbol::Delta => Some((DivState::LeftOverP1, t, Move::Right)),
                DivSymbol::One => Some((DivState::Found1InNumerator, DivSymbol::MarkedOne, Move::Right)),
                _ => Some((DivState::SearchingNum, t, Move::Left)),
            },
            DivState::Found1InNumerator => match t {
                DivSymbol::Delta => Some((DivState::SearchingDen, t, Move::Right)),
                _ => Some((DivState::Found1InNumerator, t, Move::Right)),
            },
            DivState::CycleEnd => match t {
                DivSymbol::Delta => Some((DivState::CycleStart, t, Move::Stay)),
                DivSymbol::MarkedOne => Some((DivState::CycleEnd, DivSymbol::One, Move::Left)),
                _ => None,
            },
            DivState::LeftOverP1 => match t {
                DivSymbol::Delta => Some((DivState::LeftOverP2, t, Move::Right)),
                DivSymbol::MarkedOne => Some((DivState::LeftOverP1, DivSymbol::One, Move::Right)),
                _ => Some((DivState::LeftOverP1, t, Move::Right)),
            },
            DivState::LeftOverP2 => match t {
                DivSymbol::Delta => Some((DivState::NonDivisibleReturn, t, Move::Right)),
                DivSymbol::MarkedOne => Some((DivState::LeftOverP2, DivSymbol::One, Move::Right)),
                _ => Some((DivState::LeftOverP2, t, Move::Right)),
            },
            DivState::NoLeftoversP1 => match t {
                DivSymbol::Delta => Some((DivState::NoLeftoversP2, t, Move::Right)),
                DivSymbol::MarkedOne => Some((DivState::NoLeftoversP1, DivSymbol::One, Move::Right)),
                _ => Some((DivState::NoLeftoversP1, t, Move::Right)),
            },
            DivState::NoLeftoversP2 => match t {
                DivSymbol::Delta => Some((DivState::DivisibleReturn, t, Move::Right)),
                DivSymbol::MarkedOne => Some((DivState::NoLeftoversP2, DivSymbol::One, Move::Right)),
                _ => Some((DivState::NoLeftoversP2, t, Move::Right)),
            },
            DivState::DivisibleReturn => Some((DivState::DivHalt, t, Move::Stay)),
            DivState::DivHalt => Some((DivState::DivDelta, DivSymbol::Halt, Move::Right)),
            DivState::DivDelta => Some((DivState::DivOutput, DivSymbol::Delta, Move::Right)),
            DivState::DivOutput => Some((DivState::Done, DivSymbol::One, Move::Right)),
            DivState::NonDivisibleReturn => Some((DivState::NonDivHalt, t, Move::Stay)),
            DivState::NonDivHalt => Some((DivState::NonDivDelta, DivSymbol::Halt, Move::Right)),
            DivState::NonDivDelta => Some((DivState::NonDivOutput, DivSymbol::Delta, Move::Right)),
            DivState::NonDivOutput => Some((DivState::Done, DivSymbol::Zero, Move::Right)),
            _ => Some((DivState::InvalidSyntax, t, Move::Stay)),
        }
    }

    fn same_state(&self, other: &DivState) -> (r: bool) {
        *self == *other
    }
}

} // verus!
