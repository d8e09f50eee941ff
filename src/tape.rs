//! The tape: a sequence of cells held in one vector, a cursor index into it, and
//! the symbol that fills cells created by stepping past the right end.
use vstd::prelude::*;

verus! {

/// The mathematical content of a tape: every materialised cell from the start
/// cell (index 0) to the rightmost one, the cursor index, and the blank symbol.
pub struct TapeModel<A> {
    pub cells: Seq<A>,
    pub pos: nat,
    pub blank: A,
}

impl<A> TapeModel<A> {
    /// A fresh tape: `start` in the start cell, then `initial`, the cursor on
    /// the start cell.
    pub open spec fn initial(empty: A, start: A, initial: Seq<A>) -> TapeModel<A> {
        TapeModel { cells: seq![start] + initial, pos: 0, blank: empty }
    }

    /// The cursor stands on a materialised cell.
    pub open spec fn wf(self) -> bool {
        self.pos < self.cells.len()
    }

    /// The symbol under the cursor.
    pub open spec fn current(self) -> A {
        self.cells[self.pos as int]
    }

    /// The tape after writing `a` under the cursor.
    pub open spec fn written(self, a: A) -> TapeModel<A> {
        TapeModel { cells: self.cells.update(self.pos as int, a), ..self }
    }

    /// The tape after one step to the right; a blank cell is created when the
    /// cursor stood on the rightmost cell.
    pub open spec fn moved_right(self) -> TapeModel<A> {
        if self.pos + 1 < self.cells.len() {
            TapeModel { pos: self.pos + 1, ..self }
        } else {
            TapeModel { cells: self.cells.push(self.blank), pos: self.pos + 1, ..self }
        }
    }

    /// The tape after one step to the left; `None` at the start cell.
    pub open spec fn moved_left(self) -> Option<TapeModel<A>> {
        if self.pos == 0 {
            None
        } else {
            Some(TapeModel { pos: (self.pos - 1) as nat, ..self })
        }
    }
}

/// A fresh tape holds the start symbol followed by the initial symbols, and
/// nothing else, with the cursor on the start cell.
pub proof fn lemma_initial_contents<A>(empty: A, start: A, initial: Seq<A>)
    ensures
        TapeModel::initial(empty, start, initial).wf(),
        TapeModel::initial(empty, start, initial).cells == seq![start] + initial,
        TapeModel::initial(empty, start, initial).current() == start,
{
}

/// A step right followed by a step left brings the cursor back to the cell it
/// stood on, which still holds the same symbol; the only other possible change
/// is one blank cell created at the right end.
pub proof fn lemma_step_right_then_left<A>(t: TapeModel<A>)
    requires
        t.wf(),
    ensures
        t.moved_right().moved_left() is Some,
        t.moved_right().moved_left()->0.pos == t.pos,
        t.moved_right().moved_left()->0.current() == t.current(),
        t.moved_right().moved_left()->0 == t || t.moved_right().moved_left()->0 == (TapeModel {
            cells: t.cells.push(t.blank),
            ..t
        }),
{
}

/// At the start cell a step left is always refused: the cursor neither stays
/// silently nor wraps around.
pub proof fn lemma_no_step_left_of_start<A>(t: TapeModel<A>)
    requires
        t.pos == 0,
    ensures
        t.moved_left() is None,
{
}

/// The cursor was asked to move left of the start cell.
#[derive(Clone, Copy, Debug, PartialEq, Eq)]
pub struct BoundaryViolation;

/// A tape that is bounded on the left by its start cell and conceptually
/// infinite to the right: cells are materialised lazily, holding `empty`.
pub struct TuringTape<A> {
    /// The symbol put into newly created cells.
    empty: A,
    /// All materialised cells, the start cell first.
    cells: Vec<A>,
    /// Index of the cell under the cursor.
    cursor: usize,
}

impl<A> View for TuringTape<A> {
    type V = TapeModel<A>;

    closed spec fn view(&self) -> TapeModel<A> {
        TapeModel { cells: self.cells@, pos: self.cursor as nat, blank: self.empty }
    }
}

impl<A: Copy> TuringTape<A> {
    /// The cursor stands on a materialised cell.
    pub open spec fn wf(&self) -> bool {
        self@.wf()
    }

    /// Creates a tape whose start cell holds `start`, followed by the symbols
    /// of `initial` in order, with the cursor on the start cell.
    pub fn new(empty: A, start: A, initial: Vec<A>) -> (r: TuringTape<A>)
        ensures
            r.wf(),
            r@ == TapeModel::initial(empty, start, initial@),
    {
        let mut tape = TuringTape { empty, cells: vec![start], cursor: 0 };
        let mut i: usize = 0;
        while i < initial.len()
            invariant
                i <= initial@.len(),
                tape.wf(),
                tape@.cells == seq![start] + initial@.subrange(0, i as int),
                tape@.pos == 0,
                tape@.blank == empty,
            decreases initial@.len() - i,
        {
            tape.append(initial[i]);
            assert(initial@.subrange(0, i + 1) == initial@.subrange(0, i as int).push(initial@[i as int]));
            i = i + 1;
        }
        assert(initial@.subrange(0, initial@.len() as int) == initial@);
        tape
    }

    /// Adds a cell holding `token` after the rightmost cell.
    fn append(&mut self, token: A)
        requires
            old(self).wf(),
        ensures
            final(self).wf(),
            final(self)@ == (TapeModel { cells: old(self)@.cells.push(token), ..old(self)@ }),
    {
        self.cells.push(token);
    }

    /// The symbol under the cursor.
    pub fn get_cursor(&self) -> (r: A)
        requires
            self.wf(),
        ensures
            r == self@.current(),
    {
        self.cells[self.cursor]
    }

    /// The index of the cell under the cursor, the start cell being 0.
    pub fn cursor_position(&self) -> (r: usize)
        ensures
            r == self@.pos,
    {
        self.cursor
    }

    /// Writes `value` under the cursor and returns the symbol it replaced.
    pub fn set_cursor(&mut self, value: A) -> (r: A)
        requires
            old(self).wf(),
        ensures
            final(self).wf(),
            r == old(self)@.current(),
            final(self)@ == old(self)@.written(value),
    {
        let prev = self.cells[self.cursor];
        self.cells.set(self.cursor, value);
        prev
    }

    /// Moves the cursor one cell to the right, creating a blank cell when it
    /// stood on the rightmost one, and returns the symbol now under it.
    pub fn step_right(&mut self) -> (r: A)
        requires
            old(self).wf(),
        ensures
            final(self).wf(),
            final(self)@ == old(self)@.moved_right(),
            r == final(self)@.current(),
    {
        if self.cursor == self.cells.len() - 1 {
            let blank = self.empty;
            self.append(blank);
        }
        self.cursor = self.cursor + 1;
        self.cells[self.cursor]
    }

    /// Moves the cursor one cell to the left and returns the symbol now under
    /// it; at the start cell the cursor stays and the move is refused.
    pub fn step_left(&mut self) -> (r: Result<A, BoundaryViolation>)
        requires
            old(self).wf(),
        ensures
            final(self).wf(),
            match old(self)@.moved_left() {
                Some(t) => final(self)@ == t && r == Ok::<A, BoundaryViolation>(t.current()),
                None => final(self)@ == old(self)@ && r == Err::<A, BoundaryViolation>(BoundaryViolation),
            },
    {
        if self.cursor == 0 {
            Err(BoundaryViolation)
        } else {
            self.cursor = self.cursor - 1;
            Ok(self.cells[self.cursor])
        }
    }

    /// Every symbol from the start cell to the rightmost materialised cell,
    /// left to right. The tape, cursor included, is left as it was.
    pub fn to_sequence(&self) -> (r: Vec<A>)
        ensures
            r@ == self@.cells,
    {
        let mut out: Vec<A> = Vec::new();
        let mut i: usize = 0;
        while i < self.cells.len()
            invariant
                i <= self@.cells.len(),
                out@ == self@.cells.subrange(0, i as int),
            decreases self@.cells.len() - i,
        {
            out.push(self.cells[i]);
            i = i + 1;
        }
        out
    }
}

impl<A: Copy> From<TuringTape<A>> for Vec<A> {
    /// The symbols of the tape, as `to_sequence` gives them.
    fn from(tape: TuringTape<A>) -> (r: Vec<A>)
        ensures
            r@ == tape@.cells,
    {
        tape.to_sequence()
    }
}

impl<A: Copy> vstd::std_specs::convert::FromSpecImpl<TuringTape<A>> for Vec<A> {
    open spec fn obeys_from_spec() -> bool {
        false
    }

    open spec fn from_spec(tape: TuringTape<A>) -> Vec<A> {
        arbitrary()
    }
}

} // verus!
