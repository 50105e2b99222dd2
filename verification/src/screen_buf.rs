//! The double-buffered virtual screen: a buffer of cells that callers draw
//! into, and a second one that remembers what the terminal shows.

pub use crate::cell::{Cell, Color};
pub use crate::emit::{apply_patches, Command};
use crate::emit::{redraw, Pen};
pub use crate::grid::{Grid, Patch};
use crate::grid::{
    lemma_blank_at, lemma_changed_below_step, lemma_diff_empty, lemma_index_in_range,
};
use vstd::prelude::*;
use vstd::std_specs::iter::IteratorSpec;

verus! {

/// Makes `cells` hold `n` blank cells, in the storage that it has.
fn blank(cells: &mut Vec<Cell>, n: usize)
    ensures
        final(cells)@ == Seq::new(n as nat, |i: int| Cell::blank()),
{
    cells.clear();
    cells.resize(n, Cell::default());
    assert(cells@ =~= Seq::new(n as nat, |i: int| Cell::blank()));
}

/// A fixed-size grid of cells.
#[derive(Debug)]
pub struct Buffer {
    cells: Vec<Cell>,
    width: usize,
    height: usize,
}

impl View for Buffer {
    type V = Grid;

    closed spec fn view(&self) -> Grid {
        Grid { width: self.width as nat, height: self.height as nat, cells: self.cells@ }
    }
}

impl Buffer {
    /// The buffer holds exactly one cell for each coordinate.
    pub open spec fn wf(&self) -> bool {
        self@.wf()
    }

    /// The dimensions and the number of cells of a buffer are machine
    /// integers.
    pub proof fn lemma_view_fits(&self)
        requires
            self.wf(),
        ensures
            self@.width <= usize::MAX,
            self@.height <= usize::MAX,
            self@.cells.len() <= usize::MAX,
    {
        assert(self.cells.len() == self@.cells.len());
    }

    /// A buffer of `width` by `height` blank cells.
    pub fn new(width: usize, height: usize) -> (buffer: Self)
        requires
            width * height <= usize::MAX,
        ensures
            buffer.wf(),
            buffer@ == Grid::blank(width as nat, height as nat),
    {
        let cells = vec![Cell::default(); width * height];
        assert(cells@ =~= Grid::blank(width as nat, height as nat).cells);
        Self { cells, width, height }
    }

    /// Gives the buffer new dimensions and blanks every cell: nothing of the
    /// old content is kept.
    pub fn resize(&mut self, width: usize, height: usize)
        requires
            width * height <= usize::MAX,
        ensures
            final(self).wf(),
            final(self)@ == Grid::blank(width as nat, height as nat),
            forall|x: int, y: int|
                0 <= x < width && 0 <= y < height ==> #[trigger] final(self)@.at(x, y)
                    == Cell::blank(),
    {
        blank(&mut self.cells, width * height);
        self.width = width;
        self.height = height;
        assert(self@.cells =~= Grid::blank(width as nat, height as nat).cells);
        assert forall|x: int, y: int|
            0 <= x < width && 0 <= y < height implies #[trigger] self@.at(x, y) == Cell::blank() by {
            lemma_blank_at(width as nat, height as nat, x, y);
        }
    }

    /// Blanks every cell and keeps the dimensions.
    pub fn clear(&mut self)
        requires
            old(self).wf(),
        ensures
            final(self).wf(),
            final(self)@ == Grid::blank(old(self)@.width, old(self)@.height),
    {
        let n = self.cells.len();
        blank(&mut self.cells, n);
        assert(self@.cells =~= Grid::blank(self@.width, self@.height).cells);
    }

    /// Overwrites the cell at column `x` of row `y`; outside the grid it does
    /// nothing.
    pub fn put_cell(&mut self, x: usize, y: usize, ch: char, fg: Color, bg: Color)
        requires
            old(self).wf(),
        ensures
            final(self).wf(),
            final(self)@ == old(self)@.put_cell(x as int, y as int, Cell::new(ch, fg, bg)),
    {
        if x < self.width && y < self.height {
            proof {
                lemma_index_in_range(x as int, y as int, self.width as int, self.height as int);
                assert(self.cells.len() == self.width * self.height);
            }
            let index = y * self.width + x;
            self.cells.set(index, Cell::new(ch, fg, bg));
        }
    }

    /// Writes `chs` from column `x` of row `y` rightwards, one character per
    /// column, and stops without complaint at the right edge of the grid.
    pub fn put_cells(&mut self, x: usize, y: usize, chs: &str, fg: Color, bg: Color)
        requires
            old(self).wf(),
        ensures
            final(self).wf(),
            final(self)@ == old(self)@.put_cells(x as int, y as int, chs@, fg, bg),
    {
        if x < self.width && y < self.height {
            proof {
                lemma_index_in_range(x as int, y as int, self.width as int, self.height as int);
                assert(self.cells.len() == self.width * self.height);
            }
            let start = y * self.width + x;
            let room = self.width - x;
            let mut offset: usize = 0;
            let mut chars = chs.chars();
            while offset < room
                invariant_except_break
                    chars.remaining() == chs@.skip(offset as int),
                invariant
                    old(self).wf(),
                    x < self.width,
                    y < self.height,
                    room == self.width - x,
                    offset <= room,
                    offset <= chs@.len(),
                    start + room <= self.cells@.len(),
                    self.cells@.len() == old(self).cells@.len(),
                    self.width == old(self).width,
                    self.height == old(self).height,
                    self.cells@ == Seq::new(
                        old(self).cells@.len(),
                        |i: int|
                            if start <= i < start + offset {
                                Cell::new(chs@[i - start], fg, bg)
                            } else {
                                old(self).cells@[i]
                            },
                    ),
                ensures
                    offset == old(self)@.visible_len(x as int, y as int, chs@.len()),
                decreases room - offset,
            {
                match chars.next() {
                    Some(ch) => {
                        assert(chs@.skip(offset as int).len() > 0);
                        assert(ch == chs@[offset as int]);
                        assert(chs@.skip(offset as int).drop_first() =~= chs@.skip(offset + 1));
                        assert(start + offset < self.cells.len());
                        self.cells.set(start + offset, Cell::new(ch, fg, bg));
                        offset += 1;
                    },
                    None => {
                        assert(chs@.skip(offset as int).len() == 0);
                        break ;
                    },
                }
            }
        } else {
            assert(self@.cells =~= old(self)@.put_cells(x as int, y as int, chs@, fg, bg).cells);
        }
    }

    /// The patches that turn this buffer into `other`: one for each cell
    /// that differs, in row-major order, each with the cell of `other`.
    pub fn diff(&self, other: &Self) -> (patches: Vec<Patch>)
        requires
            self.wf(),
            other.wf(),
            self@.width == other@.width,
            self@.height == other@.height,
        ensures
            patches@ == self@.diff(other@),
    {
        let n = self.cells.len();
        let mut patches: Vec<Patch> = Vec::new();
        let mut i: usize = 0;
        proof {
            reveal(Seq::filter);
            assert(self@.changed_below(other@, 0) =~= Seq::<int>::empty());
        }
        while i < n
            invariant
                self.wf(),
                other.wf(),
                self.width == other.width,
                self.height == other.height,
                n == self.cells@.len(),
                i <= n,
                patches@ == self@.diff_below(other@, i as nat),
            decreases n - i,
        {
            proof {
                lemma_changed_below_step(self@, other@, i as nat);
                assert(self.width != 0) by (nonlinear_arith)
                    requires
                        self.width * self.height > 0,
                ;
            }
            if self.cells[i] != other.cells[i] {
                let patch = Patch { cell: other.cells[i], x: i % self.width, y: i / self.width };
                assert(patch == other@.patch_at(i as int));
                patches.push(patch);
            }
            i += 1;
        }
        patches
    }

    /// The commands that draw the whole buffer on a terminal in an unknown
    /// state.
    pub fn flush(&self) -> (queue: Vec<Command>)
        requires
            self.wf(),
        ensures
            queue@ == redraw(self@),
    {
        let n = self.cells.len();
        let mut queue: Vec<Command> = Vec::new();
        queue.push(Command::Clear);
        queue.push(Command::SetForegroundColor(Color::White));
        queue.push(Command::SetBackgroundColor(Color::Black));
        let mut pen = Pen { last: None, fg: Color::White, bg: Color::Black };
        let ghost head = queue@;
        let ghost all = self@.all_patches();
        assert(Pen::unplaced().emit_below(all, 0) =~= Seq::<Command>::empty());
        let mut i: usize = 0;
        while i < n
            invariant
                self.wf(),
                n == self.cells@.len(),
                all == self@.all_patches(),
                i <= n,
                pen == Pen::unplaced().before(all, i as int),
                queue@ == head + Pen::unplaced().emit_below(all, i as nat),
            decreases n - i,
        {
            proof {
                Pen::unplaced().lemma_emit_step(all, i as nat);
                assert(self.width != 0) by (nonlinear_arith)
                    requires
                        self.width * self.height > 0,
                ;
            }
            let patch = Patch { cell: self.cells[i], x: i % self.width, y: i / self.width };
            assert(patch == all[i as int]);
            pen.put(&patch, &mut queue);
            i += 1;
        }
        queue.push(Command::Flush);
        assert(queue@ =~= redraw(self@));
        queue
    }

    /// The number of columns.
    pub fn width(&self) -> (width: usize)
        ensures
            width == self@.width,
    {
        self.width
    }

    /// The number of rows.
    pub fn height(&self) -> (height: usize)
        ensures
            height == self@.height,
    {
        self.height
    }

    /// The cell at column `x` of row `y`, if the grid has one there.
    pub fn cell_at(&self, x: usize, y: usize) -> (cell: Option<Cell>)
        requires
            self.wf(),
        ensures
            cell == if self@.in_bounds(x as int, y as int) {
                Some(self@.at(x as int, y as int))
            } else {
                None
            },
    {
        if x < self.width && y < self.height {
            proof {
                lemma_index_in_range(x as int, y as int, self.width as int, self.height as int);
                assert(self.cells.len() == self.width * self.height);
            }
            Some(self.cells[y * self.width + x])
        } else {
            None
        }
    }
}

impl Clone for Buffer {
    fn clone(&self) -> (copy: Self)
        ensures
            copy@ == self@,
    {
        let copy = Buffer { cells: self.cells.clone(), width: self.width, height: self.height };
        assert(copy.cells@ =~= self.cells@);
        copy
    }
}

impl Default for Buffer {
    /// The buffer without cells.
    fn default() -> (buffer: Self)
        ensures
            buffer.wf(),
            buffer@ == Grid::blank(0, 0),
    {
        Buffer::new(0, 0)
    }
}

/// The mathematical model of a virtual screen: the grid that is drawn into
/// and the grid that the terminal is taken to show.
pub struct Screen {
    pub current: Grid,
    pub previous: Grid,
}

impl Screen {
    /// Both grids are well formed and have the same dimensions.
    pub open spec fn wf(self) -> bool {
        &&& self.current.wf()
        &&& self.previous.wf()
        &&& self.current.width == self.previous.width
        &&& self.current.height == self.previous.height
    }

    /// The screen with the roles of its two grids exchanged.
    pub open spec fn swapped(self) -> Screen {
        Screen { current: self.previous, previous: self.current }
    }

    /// The patches that turn what the terminal shows into what was drawn.
    pub open spec fn diff(self) -> Seq<Patch> {
        self.previous.diff(self.current)
    }
}

/// A screen whose frame needed no patch needs none after its buffers have
/// been exchanged either, as long as nothing is drawn.
pub proof fn lemma_steady_state(screen: Screen)
    requires
        screen.wf(),
        screen.diff().len() == 0,
    ensures
        screen.swapped().diff() == Seq::<Patch>::empty(),
{
    lemma_diff_empty(screen.previous, screen.current);
    lemma_diff_empty(screen.current, screen.previous);
    assert(screen.swapped().diff() =~= Seq::<Patch>::empty());
}

/// Two buffers of the same dimensions: callers draw into the current one,
/// the previous one holds the frame before.
#[derive(Debug)]
pub struct VirtualScreen {
    buf_curr: Buffer,
    buf_prev: Buffer,
}

impl View for VirtualScreen {
    type V = Screen;

    closed spec fn view(&self) -> Screen {
        Screen { current: self.buf_curr@, previous: self.buf_prev@ }
    }
}

impl VirtualScreen {
    /// Both buffers hold one cell for each coordinate and have the same
    /// dimensions.
    pub open spec fn wf(&self) -> bool {
        self@.wf()
    }

    /// The dimensions of a screen are machine integers.
    pub proof fn lemma_view_fits(&self)
        requires
            self.wf(),
        ensures
            self@.current.width <= usize::MAX,
            self@.current.height <= usize::MAX,
    {
    }

    /// A screen of `w` by `h` cells, blank in both buffers.
    pub fn new(w: usize, h: usize) -> (screen: Self)
        requires
            w * h <= usize::MAX,
        ensures
            screen.wf(),
            screen@.current == Grid::blank(w as nat, h as nat),
            screen@.previous == Grid::blank(w as nat, h as nat),
    {
        Self { buf_curr: Buffer::new(w, h), buf_prev: Buffer::new(w, h) }
    }

    /// The commands that draw the previous buffer on a terminal in an
    /// unknown state.
    pub fn flush(&self) -> (queue: Vec<Command>)
        requires
            self.wf(),
        ensures
            queue@ == redraw(self@.previous),
    {
        self.buf_prev.flush()
    }

    /// Gives both buffers the new dimensions and blanks them.
    pub fn resize(&mut self, width: usize, height: usize)
        requires
            width * height <= usize::MAX,
        ensures
            final(self).wf(),
            final(self)@.current == Grid::blank(width as nat, height as nat),
            final(self)@.previous == Grid::blank(width as nat, height as nat),
    {
        self.buf_curr.resize(width, height);
        self.buf_prev.resize(width, height);
    }

    /// The patches that turn the previous buffer into the current one.
    pub fn diff(&self) -> (patches: Vec<Patch>)
        requires
            self.wf(),
        ensures
            patches@ == self@.diff(),
    {
        self.buf_prev.diff(&self.buf_curr)
    }

    /// Overwrites one cell of the current buffer; the previous buffer is
    /// not touched.
    pub fn put_cell(&mut self, x: usize, y: usize, ch: char, fg: Color, bg: Color)
        requires
            old(self).wf(),
        ensures
            final(self).wf(),
            final(self)@.current == old(self)@.current.put_cell(
                x as int,
                y as int,
                Cell::new(ch, fg, bg),
            ),
            final(self)@.previous == old(self)@.previous,
    {
        self.buf_curr.put_cell(x, y, ch, fg, bg)
    }

    /// Writes a text into the current buffer; the previous buffer is not
    /// touched.
    pub fn put_cells(&mut self, x: usize, y: usize, chs: &str, fg: Color, bg: Color)
        requires
            old(self).wf(),
        ensures
            final(self).wf(),
            final(self)@.current == old(self)@.current.put_cells(x as int, y as int, chs@, fg, bg),
            final(self)@.previous == old(self)@.previous,
    {
        self.buf_curr.put_cells(x, y, chs, fg, bg)
    }

    /// Exchanges the two buffers: what was drawn becomes the previous frame.
    pub fn swap(&mut self)
        requires
            old(self).wf(),
        ensures
            final(self).wf(),
            final(self)@ == old(self)@.swapped(),
    {
        std::mem::swap(&mut self.buf_curr, &mut self.buf_prev);
    }

    /// The buffer that callers draw into.
    pub fn current(&self) -> (buffer: &Buffer)
        ensures
            buffer@ == self@.current,
    {
        &self.buf_curr
    }

    /// The buffer that holds the frame before.
    pub fn previous(&self) -> (buffer: &Buffer)
        ensures
            buffer@ == self@.previous,
    {
        &self.buf_prev
    }
}

impl Default for VirtualScreen {
    /// The screen without cells.
    fn default() -> (screen: Self)
        ensures
            screen.wf(),
            screen@.current == Grid::blank(0, 0),
            screen@.previous == Grid::blank(0, 0),
    {
        VirtualScreen::new(0, 0)
    }
}

} // verus!
