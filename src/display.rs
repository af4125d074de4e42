use vstd::prelude::*;

verus! {

/// Width of the grid, in pixels.
pub const COLUMNS: usize = 64;

/// Height of the grid, in pixels.
pub const ROWS: usize = 32;

/// Number of cells in the grid.
pub const PIXEL_COUNT: usize = 2048;

/// Linear index of the logical coordinate `(x, y)`: both coordinates wrap
/// around the edges of the grid, and cells are laid out row after row.
pub open spec fn index_of(x: int, y: int) -> int {
    (x % COLUMNS as int) + (y % ROWS as int) * COLUMNS as int
}

/// A point of the unbounded logical coordinate space.
#[derive(Clone, Copy, Debug)]
pub struct PixelLocation {
    pub x: usize,
    pub y: usize,
}

impl PixelLocation {
    pub open spec fn index(&self) -> int {
        index_of(self.x as int, self.y as int)
    }

    /// Position of this point in the flat, row-major grid.
    pub fn to_array_index(&self) -> (r: usize)
        ensures
            r as int == self.index(),
            r < PIXEL_COUNT,
    {
        let wrapped_y = self.y % ROWS;
        let wrapped_x = self.x % COLUMNS;
        wrapped_x + (wrapped_y * COLUMNS)
    }
}

/// Failures of the framebuffer's mutation path. No operation produces one
/// today (each contract says so); the type keeps the signatures stable for
/// failure kinds added later.
#[derive(Debug, PartialEq, Eq)]
pub enum DisplayError {
    /// Held back for a later failure kind; never returned.
    Reserved,
}

/// The value of the cell that the coordinate `(x, y)` maps to.
pub open spec fn pixel_value(cells: Seq<bool>, x: int, y: int) -> bool {
    cells[index_of(x, y)]
}

/// The state of a grid whose cells are all off.
pub open spec fn blank_cells() -> Seq<bool> {
    Seq::new(PIXEL_COUNT as nat, |i: int| false)
}

/// The character that shows an on cell.
pub open spec fn cell_char(on: bool) -> char {
    if on {
        '\u{25A0}'
    } else {
        ' '
    }
}

/// The first `k` characters of the text of `row`: each cell as its
/// character followed by a space.
pub open spec fn row_prefix(cells: Seq<bool>, row: int, k: int) -> Seq<char> {
    Seq::new(
        k as nat,
        |j: int|
            if j % 2 == 0 {
                cell_char(cells[row * COLUMNS as int + j / 2])
            } else {
                ' '
            },
    )
}

/// The text of `row`: its cells left to right, then a line break.
pub open spec fn row_text(cells: Seq<bool>, row: int) -> Seq<char> {
    row_prefix(cells, row, 2 * COLUMNS as int).push('\n')
}

/// The text of the first `n` rows, top to bottom.
pub open spec fn rows_text(cells: Seq<bool>, n: nat) -> Seq<char>
    decreases n,
{
    if n == 0 {
        Seq::empty()
    } else {
        rows_text(cells, (n - 1) as nat) + row_text(cells, n - 1)
    }
}

/// The text that shows the whole grid.
pub open spec fn grid_text(cells: Seq<bool>) -> Seq<char> {
    rows_text(cells, ROWS as nat)
}

/// Relies on `String::push`: appends one character.
#[verifier::external_body]
fn push_char(s: &mut String, c: char)
    ensures
        final(s)@ == old(s)@.push(c),
{
    s.push(c);
}

/// A fixed grid of `COLUMNS` x `ROWS` on/off cells, stored row after row.
pub struct Chip8Display {
    pixels: [bool; PIXEL_COUNT],
}

impl View for Chip8Display {
    type V = Seq<bool>;

    closed spec fn view(&self) -> Seq<bool> {
        self.pixels@
    }
}

impl Chip8Display {
    /// A grid with every cell off.
    pub fn new() -> (r: Self)
        ensures
            r@ == blank_cells(),
    {
        let r = Chip8Display { pixels: [false; PIXEL_COUNT] };
        assert(r@ =~= blank_cells());
        r
    }

    /// Set the cell that `pixel` maps to; every coordinate is accepted.
    pub fn set_pixel(&mut self, pixel: PixelLocation, value: bool) -> (r: Result<(), DisplayError>)
        ensures
            r is Ok,
            final(self)@ == old(self)@.update(pixel.index(), value),
    {
        let idx = pixel.to_array_index();
        self.pixels[idx] = value;
        Ok(())
    }

    /// All cells, row after row.
    pub fn get_state(&self) -> (r: &[bool])
        ensures
            r@ == self@,
    {
        &self.pixels
    }

    /// All cells, row after row, for bulk changes.
    pub fn get_state_mut(&mut self) -> (r: &mut [bool])
        ensures
            r@ == old(self)@,
            final(r)@ == final(self)@,
    {
        &mut self.pixels
    }

    /// The value (on or off) of the cell that `point` maps to.
    pub fn pixel_at_location(&self, point: PixelLocation) -> (r: bool)
        ensures
            r == pixel_value(self@, point.x as int, point.y as int),
    {
        let idx = point.to_array_index();
        self.pixels[idx]
    }

    /// The grid as text: one line per row, top to bottom; each cell is its
    /// character followed by a space.
    pub fn render_text(&self) -> (r: String)
        ensures
            r@ == grid_text(self@),
    {
        let mut s = String::new();
        let mut row: usize = 0;
        while row < ROWS
            invariant
                row <= ROWS,
                self@.len() == PIXEL_COUNT,
                s@ == rows_text(self@, row as nat),
            decreases ROWS - row,
        {
            let ghost start = s@;
            let mut col: usize = 0;
            while col < COLUMNS
                invariant
                    row < ROWS,
                    col <= COLUMNS,
                    self@.len() == PIXEL_COUNT,
                    start == rows_text(self@, row as nat),
                    s@ == start + row_prefix(self@, row as int, 2 * col as int),
                decreases COLUMNS - col,
            {
                let on = self.pixels[row * COLUMNS + col];
                if on {
                    push_char(&mut s, '\u{25A0}');
                } else {
                    push_char(&mut s, ' ');
                }
                push_char(&mut s, ' ');
                proof {
                    assert(row_prefix(self@, row as int, 2 * col as int).push(cell_char(on)).push(' ')
                        =~= row_prefix(self@, row as int, 2 * (col + 1) as int));
                }
                col = col + 1;
            }
            push_char(&mut s, '\n');
            row = row + 1;
        }
        s
    }
}

/// Every grid holds exactly `PIXEL_COUNT` cells.
pub proof fn lemma_cell_count(d: &Chip8Display)
    ensures
        d@.len() == PIXEL_COUNT,
{
}

/// A non-negative coordinate maps to a cell of the grid.
pub proof fn lemma_index_in_grid(x: int, y: int)
    requires
        x >= 0,
        y >= 0,
    ensures
        0 <= index_of(x, y) < PIXEL_COUNT,
{
}

/// Wrapping is idempotent: a coordinate maps to the same cell as its
/// remainders by the grid's width and height.
pub proof fn lemma_index_wraps(x: int, y: int)
    requires
        x >= 0,
        y >= 0,
    ensures
        index_of(x, y) == index_of(x % COLUMNS as int, y % ROWS as int),
{
}

/// Within one period the mapping is one-to-one: two in-grid coordinates
/// share a cell only when they are equal.
pub proof fn lemma_index_injective(x1: int, y1: int, x2: int, y2: int)
    requires
        0 <= x1 < COLUMNS,
        0 <= y1 < ROWS,
        0 <= x2 < COLUMNS,
        0 <= y2 < ROWS,
        index_of(x1, y1) == index_of(x2, y2),
    ensures
        x1 == x2,
        y1 == y2,
{
}

/// Within one period the mapping is onto: every cell is the image of an
/// in-grid coordinate, which is returned.
pub proof fn lemma_index_onto(i: int) -> (r: (int, int))
    requires
        0 <= i < PIXEL_COUNT,
    ensures
        0 <= r.0 < COLUMNS,
        0 <= r.1 < ROWS,
        index_of(r.0, r.1) == i,
{
    (i % COLUMNS as int, i / COLUMNS as int)
}

/// Reading a coordinate after writing `value` to it gives `value`, and the
/// write leaves every other cell as it was.
pub proof fn lemma_write_then_read(cells: Seq<bool>, c: PixelLocation, value: bool, other: PixelLocation)
    requires
        cells.len() == PIXEL_COUNT,
    ensures
        pixel_value(cells.update(c.index(), value), c.x as int, c.y as int) == value,
        other.index() != c.index() ==> pixel_value(cells.update(c.index(), value), other.x as int, other.y as int)
            == pixel_value(cells, other.x as int, other.y as int),
{
    lemma_index_in_grid(c.x as int, c.y as int);
    lemma_index_in_grid(other.x as int, other.y as int);
}

/// A new grid reads off at every coordinate.
pub proof fn lemma_blank_reads_off(x: int, y: int)
    requires
        x >= 0,
        y >= 0,
    ensures
        !pixel_value(blank_cells(), x, y),
{
    lemma_index_in_grid(x, y);
}

/// Rendering depends on the cells alone: two renders of the same cells,
/// with no write between them, give the same text.
pub proof fn lemma_render_deterministic(a: &Chip8Display, b: &Chip8Display)
    requires
        a@ == b@,
    ensures
        grid_text(a@) == grid_text(b@),
{
}

} // verus!
