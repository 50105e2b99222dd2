//! The mathematical model of a grid of cells: what a write does to it and
//! which patches lead from one grid to another.

use crate::cell::{Cell, Color};
use vstd::prelude::*;

verus! {

/// A changed cell: where it is and what it has to show.
#[derive(Clone, Copy, Debug, PartialEq, Eq, Structural)]
pub struct Patch {
    pub cell: Cell,
    pub x: usize,
    pub y: usize,
}

impl Patch {
    /// Row-major order: this patch lies in an earlier row than `other`, or
    /// in the same row further left.
    pub open spec fn precedes(self, other: Patch) -> bool {
        self.y < other.y || (self.y == other.y && self.x < other.x)
    }
}

/// Whether one of the patches is at column `x` of row `y`.
pub open spec fn patched(patches: Seq<Patch>, x: int, y: int) -> bool {
    exists|k: int| 0 <= k < patches.len() && #[trigger] patches[k].x == x && patches[k].y == y
}

/// The mathematical model of a cell grid: its dimensions and its cells in
/// row-major order.
pub struct Grid {
    pub width: nat,
    pub height: nat,
    pub cells: Seq<Cell>,
}

impl Grid {
    /// There is exactly one cell for each coordinate.
    pub open spec fn wf(self) -> bool {
        self.cells.len() == self.width * self.height
    }

    /// A grid of the given dimensions in which every cell is blank.
    pub open spec fn blank(width: nat, height: nat) -> Grid {
        Grid { width, height, cells: Seq::new(width * height, |i: int| Cell::blank()) }
    }

    /// Whether the grid has a cell at column `x` of row `y`.
    pub open spec fn in_bounds(self, x: int, y: int) -> bool {
        0 <= x < self.width && 0 <= y < self.height
    }

    /// The place of the cell at column `x` of row `y` among `cells`.
    pub open spec fn index_of(self, x: int, y: int) -> int {
        y * self.width + x
    }

    /// The cell at column `x` of row `y`.
    pub open spec fn at(self, x: int, y: int) -> Cell
        recommends
            self.in_bounds(x, y),
    {
        self.cells[self.index_of(x, y)]
    }

    /// The grid with one cell overwritten; a coordinate outside the grid
    /// changes nothing.
    pub open spec fn put_cell(self, x: int, y: int, cell: Cell) -> Grid {
        if self.in_bounds(x, y) {
            Grid { cells: self.cells.update(self.index_of(x, y), cell), ..self }
        } else {
            self
        }
    }

    /// How many characters of a text of `len` characters that starts at
    /// column `x` of row `y` land inside the grid: none if the start lies
    /// outside, otherwise as many as fit before the right edge.
    pub open spec fn visible_len(self, x: int, y: int, len: nat) -> nat {
        if !self.in_bounds(x, y) {
            0
        } else if x + len <= self.width {
            len
        } else {
            (self.width - x) as nat
        }
    }

    /// The grid with `text` written from column `x` of row `y` rightwards,
    /// one character per column, cut off at the right edge.
    pub open spec fn put_cells(
        self,
        x: int,
        y: int,
        text: Seq<char>,
        fg: Color,
        bg: Color,
    ) -> Grid {
        let start = self.index_of(x, y);
        let count = self.visible_len(x, y, text.len());
        Grid {
            cells: Seq::new(
                self.cells.len(),
                |i: int|
                    if start <= i < start + count {
                        Cell::new(text[i - start], fg, bg)
                    } else {
                        self.cells[i]
                    },
            ),
            ..self
        }
    }

    /// The patch that makes the cell with flat index `i` show what this grid
    /// has there.
    pub open spec fn patch_at(self, i: int) -> Patch {
        Patch {
            cell: self.cells[i],
            x: (i % self.width as int) as usize,
            y: (i / self.width as int) as usize,
        }
    }

    /// The flat indices below `n` at which the two grids hold different
    /// cells, in ascending order.
    pub open spec fn changed_below(self, other: Grid, n: nat) -> Seq<int> {
        Seq::new(n, |i: int| i).filter(|i: int| self.cells[i] != other.cells[i])
    }

    /// The patches for the changed cells with a flat index below `n`, in
    /// row-major order, each with the cell of `other`.
    pub open spec fn diff_below(self, other: Grid, n: nat) -> Seq<Patch> {
        self.changed_below(other, n).map_values(|i: int| other.patch_at(i))
    }

    /// The patches that turn this grid into `other`, which has the same
    /// dimensions: one for each cell that differs, in row-major order, each
    /// with the cell of `other`.
    pub open spec fn diff(self, other: Grid) -> Seq<Patch> {
        self.diff_below(other, self.cells.len())
    }

    /// The grid with each of `patches` written into it, in the order given.
    pub open spec fn with_patches(self, patches: Seq<Patch>) -> Grid
        decreases patches.len(),
    {
        if patches.len() == 0 {
            self
        } else {
            let last = patches.last();
            self.with_patches(patches.drop_last()).put_cell(last.x as int, last.y as int, last.cell)
        }
    }

    /// Every cell of the grid as a patch, in row-major order.
    pub open spec fn all_patches(self) -> Seq<Patch> {
        Seq::new(self.cells.len(), |i: int| self.patch_at(i))
    }
}

/// Inside a grid of `width` by `height` cells the row-major index of a
/// coordinate is smaller than the number of cells.
pub(crate) proof fn lemma_index_in_range(x: int, y: int, width: int, height: int)
    requires
        0 <= x < width,
        0 <= y < height,
    ensures
        0 <= y * width + x < width * height,
        y * width + width <= width * height,
{
    assert(0 <= y * width) by (nonlinear_arith)
        requires
            0 <= y,
            0 <= width,
    ;
    assert((y + 1) * width <= height * width) by (nonlinear_arith)
        requires
            y + 1 <= height,
            0 <= width,
    ;
    assert((y + 1) * width == y * width + width) by (nonlinear_arith);
    assert(height * width == width * height) by (nonlinear_arith);
}

/// In a grid of positive width, a flat index and its coordinate determine
/// each other.
proof fn lemma_index_coordinate(i: int, width: int, height: int)
    requires
        0 <= i < width * height,
        0 <= height,
        0 <= width,
    ensures
        0 < width,
        0 <= i % width < width,
        0 <= i / width < height,
        (i / width) * width + i % width == i,
{
    assert(0 < width) by (nonlinear_arith)
        requires
            0 <= i < width * height,
            0 <= width,
    ;
    vstd::arithmetic::div_mod::lemma_fundamental_div_mod(i, width);
    let q = i / width;
    let r = i % width;
    assert(width * q == q * width) by (nonlinear_arith);
    if q >= height {
        assert(q * width >= height * width) by (nonlinear_arith)
            requires
                q >= height,
                0 <= width,
        ;
        assert(height * width == width * height) by (nonlinear_arith);
    }
}

/// Two coordinates inside a grid share a flat index only if they are equal.
proof fn lemma_index_injective(g: Grid, x: int, y: int, cx: int, cy: int)
    requires
        g.in_bounds(x, y),
        g.in_bounds(cx, cy),
        g.index_of(x, y) == g.index_of(cx, cy),
    ensures
        x == cx,
        y == cy,
{
    let w = g.width as int;
    vstd::arithmetic::div_mod::lemma_fundamental_div_mod_converse(g.index_of(x, y), w, y, x);
    vstd::arithmetic::div_mod::lemma_fundamental_div_mod_converse(g.index_of(x, y), w, cy, cx);
}

/// Every cell of a blank grid is blank.
pub proof fn lemma_blank_at(width: nat, height: nat, x: int, y: int)
    requires
        0 <= x < width,
        0 <= y < height,
    ensures
        Grid::blank(width, height).wf(),
        Grid::blank(width, height).at(x, y) == Cell::blank(),
{
    lemma_index_in_range(x, y, width as int, height as int);
}

/// A single write changes the cell at its coordinate and no other.
pub proof fn lemma_put_cell_at(g: Grid, x: int, y: int, cell: Cell, cx: int, cy: int)
    requires
        g.wf(),
        g.in_bounds(cx, cy),
    ensures
        g.put_cell(x, y, cell).at(cx, cy) == if cx == x && cy == y {
            cell
        } else {
            g.at(cx, cy)
        },
{
    lemma_index_in_range(cx, cy, g.width as int, g.height as int);
    if g.in_bounds(x, y) {
        lemma_index_in_range(x, y, g.width as int, g.height as int);
        if g.index_of(x, y) == g.index_of(cx, cy) {
            lemma_index_injective(g, x, y, cx, cy);
        }
    }
}

/// A text written at a coordinate inside the grid puts its `k`-th character
/// `k` columns to the right, as long as that column exists; what would lie
/// beyond the right edge is dropped and every other cell stays as it was.
pub proof fn lemma_put_cells_at(
    g: Grid,
    x: int,
    y: int,
    text: Seq<char>,
    fg: Color,
    bg: Color,
    cx: int,
    cy: int,
)
    requires
        g.wf(),
        g.in_bounds(cx, cy),
    ensures
        g.put_cells(x, y, text, fg, bg).at(cx, cy) == if g.in_bounds(x, y) && cy == y
            && x <= cx < x + text.len() {
            Cell::new(text[cx - x], fg, bg)
        } else {
            g.at(cx, cy)
        },
{
    let w = g.width as int;
    let i = g.index_of(cx, cy);
    lemma_index_in_range(cx, cy, w, g.height as int);
    if g.in_bounds(x, y) {
        let start = g.index_of(x, y);
        let count = g.visible_len(x, y, text.len());
        if start <= i < start + count {
            // the index lies in row `y`, `i - start` columns right of `x`
            vstd::arithmetic::div_mod::lemma_fundamental_div_mod_converse(i, w, cy, cx);
            vstd::arithmetic::div_mod::lemma_fundamental_div_mod_converse(i, w, y, x + (i - start));
        } else if cy == y && x <= cx < x + text.len() {
            assert(i == start + (cx - x));
        }
    }
}

/// One more index either joins the changed indices or leaves them as they are.
pub(crate) proof fn lemma_changed_below_step(a: Grid, b: Grid, n: nat)
    ensures
        a.changed_below(b, n + 1) == if a.cells[n as int] != b.cells[n as int] {
            a.changed_below(b, n).push(n as int)
        } else {
            a.changed_below(b, n)
        },
{
    let below = Seq::new(n, |i: int| i);
    assert(Seq::new(n + 1, |i: int| i) =~= below.push(n as int));
    below.lemma_filter_push(n as int, |i: int| a.cells[i] != b.cells[i]);
}

/// The changed indices below `n` are exactly the indices below `n` at which
/// the cells differ, each once, in ascending order.
proof fn lemma_changed_below(a: Grid, b: Grid, n: nat)
    ensures
        forall|k: int|
            0 <= k < a.changed_below(b, n).len() ==> {
                let i = #[trigger] a.changed_below(b, n)[k];
                0 <= i < n && a.cells[i] != b.cells[i]
            },
        forall|j: int, k: int|
            0 <= j < k < a.changed_below(b, n).len() ==> a.changed_below(b, n)[j]
                < a.changed_below(b, n)[k],
        forall|i: int|
            0 <= i < n && a.cells[i] != b.cells[i] ==> a.changed_below(b, n).contains(i),
    decreases n,
{
    if n == 0 {
        reveal(Seq::filter);
        assert(a.changed_below(b, 0) =~= Seq::<int>::empty());
    } else {
        let m = (n - 1) as nat;
        let before = a.changed_below(b, m);
        let now = a.changed_below(b, n);
        lemma_changed_below(a, b, m);
        lemma_changed_below_step(a, b, m);
        assert forall|i: int| 0 <= i < n && a.cells[i] != b.cells[i] implies now.contains(i) by {
            if i < m {
                let k = choose|k: int| 0 <= k < before.len() && before[k] == i;
                assert(now[k] == i);
            } else {
                assert(now[now.len() - 1] == i);
            }
        }
    }
}

/// Where no cell below `n` differs, there is no changed index below `n`.
proof fn lemma_unchanged_below(a: Grid, b: Grid, n: nat)
    requires
        forall|i: int| 0 <= i < n ==> a.cells[i] == b.cells[i],
    ensures
        a.changed_below(b, n) == Seq::<int>::empty(),
{
    lemma_changed_below(a, b, n);
    let c = a.changed_below(b, n);
    if c.len() > 0 {
        let i = c[0];
        assert(a.cells[i] != b.cells[i]);
    }
    assert(c =~= Seq::<int>::empty());
}

/// A grid needs no patch to become itself.
pub proof fn lemma_diff_self(a: Grid)
    ensures
        a.diff(a) == Seq::<Patch>::empty(),
{
    lemma_unchanged_below(a, a, a.cells.len());
    assert(a.diff(a) =~= Seq::<Patch>::empty());
}

/// Nothing is left to patch exactly where the first grid agrees with the
/// second in every cell it has.
pub proof fn lemma_diff_empty(a: Grid, b: Grid)
    ensures
        a.diff(b).len() == 0 <==> (forall|i: int|
            0 <= i < a.cells.len() ==> a.cells[i] == b.cells[i]),
{
    let n = a.cells.len();
    lemma_changed_below(a, b, n);
    if forall|i: int| 0 <= i < n ==> a.cells[i] == b.cells[i] {
        lemma_unchanged_below(a, b, n);
    }
    if a.diff(b).len() == 0 {
        assert forall|i: int| 0 <= i < n implies a.cells[i] == b.cells[i] by {
            if a.cells[i] != b.cells[i] {
                assert(a.changed_below(b, n).contains(i));
            }
        }
    }
}

/// The patches between two grids of the same dimensions name exactly the
/// coordinates at which the grids differ, each once and in row-major order,
/// and carry the cells of the second grid.
pub proof fn lemma_diff_exact(a: Grid, b: Grid)
    requires
        a.wf(),
        b.wf(),
        a.width == b.width,
        a.height == b.height,
        a.cells.len() <= usize::MAX,
    ensures
        forall|k: int|
            0 <= k < a.diff(b).len() ==> {
                let p = #[trigger] a.diff(b)[k];
                &&& a.in_bounds(p.x as int, p.y as int)
                &&& a.at(p.x as int, p.y as int) != b.at(p.x as int, p.y as int)
                &&& p.cell == b.at(p.x as int, p.y as int)
            },
        forall|j: int, k: int|
            0 <= j < k < a.diff(b).len() ==> (#[trigger] a.diff(b)[j]).precedes(
                #[trigger] a.diff(b)[k],
            ),
        forall|j: int, k: int|
            0 <= j < k < a.diff(b).len() ==> {
                let p = #[trigger] a.diff(b)[j];
                let q = #[trigger] a.diff(b)[k];
                p.x != q.x || p.y != q.y
            },
        forall|x: int, y: int|
            a.in_bounds(x, y) && a.at(x, y) != b.at(x, y) ==> #[trigger] patched(a.diff(b), x, y),
        forall|x: int, y: int|
            a.in_bounds(x, y) && a.at(x, y) == b.at(x, y) ==> !#[trigger] patched(a.diff(b), x, y),
{
    let n = a.cells.len();
    let w = a.width as int;
    let h = a.height as int;
    let c = a.changed_below(b, n);
    let d = a.diff(b);
    lemma_changed_below(a, b, n);
    assert(d.len() == c.len());
    assert forall|k: int| 0 <= k < d.len() implies {
        let p = #[trigger] d[k];
        &&& a.in_bounds(p.x as int, p.y as int)
        &&& a.at(p.x as int, p.y as int) != b.at(p.x as int, p.y as int)
        &&& p.cell == b.at(p.x as int, p.y as int)
        &&& a.index_of(p.x as int, p.y as int) == c[k]
    } by {
        let i = c[k];
        assert(d[k] == b.patch_at(i));
        lemma_index_coordinate(i, w, h);
    }
    assert forall|j: int, k: int| 0 <= j < k < d.len() implies (#[trigger] d[j]).precedes(
        #[trigger] d[k],
    ) by {
        assert(a.index_of(d[j].x as int, d[j].y as int) == c[j]);
        assert(a.index_of(d[k].x as int, d[k].y as int) == c[k]);
        assert(c[j] < c[k]);
        lemma_index_coordinate(c[j], w, h);
        lemma_index_coordinate(c[k], w, h);
        vstd::arithmetic::div_mod::lemma_div_is_ordered(c[j], c[k], w);
    }
    assert forall|x: int, y: int|
        a.in_bounds(x, y) && a.at(x, y) != b.at(x, y) implies #[trigger] patched(d, x, y) by {
        let i = a.index_of(x, y);
        lemma_index_in_range(x, y, w, h);
        assert(c.contains(i));
        let k = choose|k: int| 0 <= k < c.len() && c[k] == i;
        vstd::arithmetic::div_mod::lemma_fundamental_div_mod_converse(i, w, y, x);
        assert(d[k] == b.patch_at(i));
        assert(d[k].x == x && d[k].y == y);
    }
    assert forall|x: int, y: int|
        a.in_bounds(x, y) && a.at(x, y) == b.at(x, y) implies !#[trigger] patched(d, x, y) by {
        if patched(d, x, y) {
            let k = choose|k: int| 0 <= k < d.len() && #[trigger] d[k].x == x && d[k].y == y;
            let p = d[k];
            assert(a.at(p.x as int, p.y as int) != b.at(p.x as int, p.y as int));
        }
    }
}

/// Writing the patches for the changed cells below `n` into the first grid
/// makes it agree with the second in every cell below `n` and leaves the
/// others as they were.
proof fn lemma_patches_below(a: Grid, b: Grid, n: nat)
    requires
        a.wf(),
        b.wf(),
        a.width == b.width,
        a.height == b.height,
        a.cells.len() <= usize::MAX,
        n <= a.cells.len(),
    ensures
        a.with_patches(a.diff_below(b, n)).width == a.width,
        a.with_patches(a.diff_below(b, n)).height == a.height,
        a.with_patches(a.diff_below(b, n)).cells.len() == a.cells.len(),
        forall|i: int|
            0 <= i < a.cells.len() ==> #[trigger] a.with_patches(a.diff_below(b, n)).cells[i]
                == if i < n {
                b.cells[i]
            } else {
                a.cells[i]
            },
    decreases n,
{
    let now = a.diff_below(b, n);
    if n == 0 {
        reveal(Seq::filter);
        assert(a.changed_below(b, 0) =~= Seq::<int>::empty());
        assert(now =~= Seq::<Patch>::empty());
    } else {
        let m = (n - 1) as nat;
        let before = a.diff_below(b, m);
        lemma_patches_below(a, b, m);
        lemma_changed_below_step(a, b, m);
        lemma_index_coordinate(m as int, a.width as int, a.height as int);
        if a.cells[m as int] != b.cells[m as int] {
            assert(now =~= before.push(b.patch_at(m as int)));
            assert(now.drop_last() =~= before);
            assert(now.last() == b.patch_at(m as int));
        } else {
            assert(now =~= before);
        }
    }
}

/// The patches between two grids of the same dimensions lead from the
/// first to the second: written into the first, they make it the second.
pub proof fn lemma_diff_leads_there(a: Grid, b: Grid)
    requires
        a.wf(),
        b.wf(),
        a.width == b.width,
        a.height == b.height,
        a.cells.len() <= usize::MAX,
    ensures
        a.with_patches(a.diff(b)) == b,
{
    lemma_patches_below(a, b, a.cells.len());
    assert(a.with_patches(a.diff(b)).cells =~= b.cells);
    assert(a.with_patches(a.diff(b)) == b);
}

} // verus!
