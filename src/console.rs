//! A scrolling text console of `MAX_ROWS` rows by `MAX_COLUMNS` columns:
//! which character stands in each cell and where the cursor is. Drawing the
//! cells is left to the caller.
use vstd::prelude::*;

verus! {

pub const MAX_ROWS: usize = 25;

pub const MAX_COLUMNS: usize = 80;

/// Number of cells, row after row.
pub const CELLS: usize = 2000;

/// Content of an empty cell.
pub const BLANK: char = '\0';

pub struct ConsoleWriter {
    screen: Vec<char>,
    cursor_row: usize,
    cursor_column: usize,
}

pub struct ConsoleModel {
    /// The cell of column `x` in row `y` is at `y * MAX_COLUMNS + x`.
    pub screen: Seq<char>,
    pub cursor_row: int,
    pub cursor_column: int,
}

impl View for ConsoleWriter {
    type V = ConsoleModel;

    closed spec fn view(&self) -> ConsoleModel {
        ConsoleModel {
            screen: self.screen@,
            cursor_row: self.cursor_row as int,
            cursor_column: self.cursor_column as int,
        }
    }
}

pub open spec fn console_wf(m: ConsoleModel) -> bool {
    &&& m.screen.len() == CELLS
    &&& 0 <= m.cursor_row < MAX_ROWS
    &&& 0 <= m.cursor_column <= MAX_COLUMNS
}

/// The screen moved up one row, the bottom row blank.
pub open spec fn scrolled(screen: Seq<char>) -> Seq<char> {
    Seq::new(
        CELLS as nat,
        |i: int|
            if i < CELLS - MAX_COLUMNS {
                screen[i + MAX_COLUMNS]
            } else {
                BLANK
            },
    )
}

/// Cursor to the start of the next row, scrolling at the bottom.
pub open spec fn new_line_of(m: ConsoleModel) -> ConsoleModel {
    if m.cursor_row < MAX_ROWS - 1 {
        ConsoleModel { cursor_row: m.cursor_row + 1, cursor_column: 0, ..m }
    } else {
        ConsoleModel { screen: scrolled(m.screen), cursor_column: 0, ..m }
    }
}

/// A newline moves to the next row; any other character goes to the cursor
/// cell, after wrapping to the next row when the current one is full.
pub open spec fn write_character_of(m: ConsoleModel, c: char) -> ConsoleModel {
    if c == '\n' {
        new_line_of(m)
    } else {
        let n = if m.cursor_column >= MAX_COLUMNS {
            new_line_of(m)
        } else {
            m
        };
        ConsoleModel {
            screen: n.screen.update(n.cursor_row * MAX_COLUMNS + n.cursor_column, c),
            cursor_column: n.cursor_column + 1,
            ..n
        }
    }
}

pub open spec fn write_of(m: ConsoleModel, s: Seq<char>) -> ConsoleModel
    decreases s.len(),
{
    if s.len() == 0 {
        m
    } else {
        write_character_of(write_of(m, s.drop_last()), s.last())
    }
}

impl ConsoleWriter {
    /// A blank console with the cursor at the top left.
    pub fn new() -> (r: ConsoleWriter)
        ensures
            console_wf(r@),
            r@.screen == Seq::new(CELLS as nat, |i: int| BLANK),
            r@.cursor_row == 0 && r@.cursor_column == 0,
    {
        let mut screen: Vec<char> = Vec::new();
        let mut i: usize = 0;
        while i < CELLS
            invariant
                i <= CELLS,
                screen@ == Seq::new(i as nat, |j: int| BLANK),
            decreases CELLS - i,
        {
            screen.push(BLANK);
            i = i + 1;
            assert(screen@ =~= Seq::new(i as nat, |j: int| BLANK));
        }
        ConsoleWriter { screen, cursor_row: 0, cursor_column: 0 }
    }

    /// The character in column `column` of row `row`.
    pub fn character_at(&self, column: usize, row: usize) -> (r: char)
        requires
            console_wf(self@),
            column < MAX_COLUMNS,
            row < MAX_ROWS,
        ensures
            r == self@.screen[row * MAX_COLUMNS + column],
    {
        self.screen[row * MAX_COLUMNS + column]
    }

    /// Row and column of the cursor.
    pub fn cursor(&self) -> (r: (usize, usize))
        ensures
            r.0 == self@.cursor_row && r.1 == self@.cursor_column,
    {
        (self.cursor_row, self.cursor_column)
    }

    pub fn write(&mut self, string: &str)
        requires
            console_wf(old(self)@),
        ensures
            console_wf(final(self)@),
            final(self)@ == write_of(old(self)@, string@),
    {
        let ghost start = self@;
        for c in it: string.chars()
            invariant
                console_wf(self@),
                it.seq() == string@,
                self@ == write_of(start, string@.take(it.index() as int)),
        {
            proof {
                assert(string@.take(it.index() + 1).drop_last() =~= string@.take(
                    it.index() as int,
                ));
            }
            self.write_character(c);
        }
        proof {
            assert(string@.take(string@.len() as int) =~= string@);
        }
    }

    pub fn write_character(&mut self, c: char)
        requires
            console_wf(old(self)@),
        ensures
            console_wf(final(self)@),
            final(self)@ == write_character_of(old(self)@, c),
    {
        if c == '\n' {
            self.new_line();
        } else {
            if self.cursor_column >= MAX_COLUMNS {
                self.new_line();
            }
            let index = self.cursor_row * MAX_COLUMNS + self.cursor_column;
            self.screen.set(index, c);
            self.cursor_column = self.cursor_column + 1;
        }
    }

    pub fn new_line(&mut self)
        requires
            console_wf(old(self)@),
        ensures
            console_wf(final(self)@),
            final(self)@ == new_line_of(old(self)@),
    {
        self.cursor_column = 0;
        if self.cursor_row < MAX_ROWS - 1 {
            self.cursor_row = self.cursor_row + 1;
        } else {
            let ghost before = self.screen@;
            let mut i: usize = 0;
            while i < CELLS - MAX_COLUMNS
                invariant
                    i <= CELLS - MAX_COLUMNS,
                    self.screen@.len() == CELLS,
                    before.len() == CELLS,
                    self.cursor_row == old(self).cursor_row,
                    self.cursor_column == 0,
                    forall|j: int| 0 <= j < i ==> self.screen@[j] == before[j + MAX_COLUMNS],
                    forall|j: int| i <= j < CELLS ==> self.screen@[j] == before[j],
                decreases CELLS - MAX_COLUMNS - i,
            {
                let moved = self.screen[i + MAX_COLUMNS];
                self.screen.set(i, moved);
                i = i + 1;
            }
            while i < CELLS
                invariant
                    CELLS - MAX_COLUMNS <= i <= CELLS,
                    self.screen@.len() == CELLS,
                    before.len() == CELLS,
                    self.cursor_row == old(self).cursor_row,
                    self.cursor_column == 0,
                    forall|j: int|
                        0 <= j < CELLS - MAX_COLUMNS ==> self.screen@[j] == before[j
                            + MAX_COLUMNS],
                    forall|j: int| CELLS - MAX_COLUMNS <= j < i ==> self.screen@[j] == BLANK,
                decreases CELLS - i,
            {
                self.screen.set(i, BLANK);
                i = i + 1;
            }
            assert(self.screen@ =~= scrolled(before));
        }
    }
}

} // verus!
