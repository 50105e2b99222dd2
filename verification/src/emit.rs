//! From patches to terminal commands: the emitter moves the cursor for the
//! first patch and wherever a patch does not follow its predecessor in the
//! same row, and sets a colour only where it differs from the one in force.

use crate::cell::Color;
use crate::grid::{Grid, Patch};
use vstd::prelude::*;

verus! {

/// What a terminal is asked to do.
#[derive(Clone, Copy, Debug, PartialEq, Eq, Structural)]
pub enum Command {
    /// Clear the whole screen.
    Clear,
    /// Put the cursor at column `x` of row `y`.
    MoveTo { x: usize, y: usize },
    SetForegroundColor(Color),
    SetBackgroundColor(Color),
    /// Show a glyph at the cursor, which then advances by one column.
    Print(char),
    /// Hand everything queued so far to the terminal.
    Flush,
}

/// What the emitter remembers from one patch to the next: where it last
/// printed, if anywhere, and the colours in force.
#[derive(Clone, Copy, Debug)]
pub struct Pen {
    pub last: Option<(usize, usize)>,
    pub fg: Color,
    pub bg: Color,
}

impl Pen {
    /// White on black, with nothing printed yet: wherever the terminal's
    /// cursor stands, whatever is drawn first is preceded by a cursor move.
    pub open spec fn unplaced() -> Pen {
        Pen { last: None, fg: Color::White, bg: Color::Black }
    }

    /// The pen once `patch` has been drawn.
    pub open spec fn after(patch: Patch) -> Pen {
        Pen { last: Some((patch.x, patch.y)), fg: patch.cell.fg, bg: patch.cell.bg }
    }

    /// Whether `patch` lies directly right of what was printed last, where
    /// the terminal's cursor already stands.
    pub open spec fn adjoins(self, patch: Patch) -> bool {
        match self.last {
            Some((x, y)) => y == patch.y && x + 1 == patch.x,
            None => false,
        }
    }

    /// The commands that draw `patch`: a cursor move unless the patch adjoins
    /// the last one, each colour if it differs from the one in force, and the
    /// glyph.
    pub open spec fn draw(self, patch: Patch) -> Seq<Command> {
        let moved = if self.adjoins(patch) {
            Seq::<Command>::empty()
        } else {
            seq![Command::MoveTo { x: patch.x, y: patch.y }]
        };
        let fg = if self.fg == patch.cell.fg {
            Seq::<Command>::empty()
        } else {
            seq![Command::SetForegroundColor(patch.cell.fg)]
        };
        let bg = if self.bg == patch.cell.bg {
            Seq::<Command>::empty()
        } else {
            seq![Command::SetBackgroundColor(patch.cell.bg)]
        };
        moved + fg + bg + seq![Command::Print(patch.cell.ch)]
    }

    /// The pen that draws the `k`-th of `patches`, when `self` draws the
    /// first: it is left behind by the patch before.
    pub open spec fn before(self, patches: Seq<Patch>, k: int) -> Pen {
        if k <= 0 {
            self
        } else {
            Pen::after(patches[k - 1])
        }
    }

    /// The commands that draw the first `n` of `patches` in order.
    pub open spec fn emit_below(self, patches: Seq<Patch>, n: nat) -> Seq<Command> {
        Seq::new(n, |k: int| self.before(patches, k).draw(patches[k])).flatten()
    }

    /// The commands that draw all of `patches` in order.
    pub open spec fn emit(self, patches: Seq<Patch>) -> Seq<Command> {
        self.emit_below(patches, patches.len())
    }

    /// Drawing one patch more appends the commands of that patch.
    pub(crate) proof fn lemma_emit_step(self, patches: Seq<Patch>, n: nat)
        ensures
            self.emit_below(patches, n + 1) == self.emit_below(patches, n) + self.before(
                patches,
                n as int,
            ).draw(patches[n as int]),
    {
        let each = |k: int| self.before(patches, k).draw(patches[k]);
        let below = Seq::new(n, each);
        assert(Seq::new(n + 1, each) =~= below.push(each(n as int)));
        below.lemma_flatten_push(each(n as int));
    }

    /// Queues the commands that draw `patch` and remembers it.
    pub fn put(&mut self, patch: &Patch, queue: &mut Vec<Command>)
        ensures
            final(queue)@ == old(queue)@ + old(self).draw(*patch),
            *final(self) == Pen::after(*patch),
    {
        let adjoins = match self.last {
            Some((x, y)) => y == patch.y && patch.x > 0 && x == patch.x - 1,
            None => false,
        };
        if !adjoins {
            queue.push(Command::MoveTo { x: patch.x, y: patch.y });
        }
        self.last = Some((patch.x, patch.y));
        if self.fg != patch.cell.fg {
            self.fg = patch.cell.fg;
            queue.push(Command::SetForegroundColor(self.fg));
        }
        if self.bg != patch.cell.bg {
            self.bg = patch.cell.bg;
            queue.push(Command::SetBackgroundColor(self.bg));
        }
        queue.push(Command::Print(patch.cell.ch));
        assert(queue@ =~= old(queue)@ + old(self).draw(*patch));
    }
}

/// The commands that bring a terminal up to date with `patches`, taken in
/// the order given: both colours are set to white on black first, and the
/// cursor is moved for the first patch, wherever it lies, since nothing has
/// been printed before it.
pub open spec fn update(patches: Seq<Patch>) -> Seq<Command> {
    seq![
        Command::SetForegroundColor(Color::White),
        Command::SetBackgroundColor(Color::Black),
    ] + Pen::unplaced().emit(patches)
}

/// The commands that draw a whole grid on a terminal in an unknown state:
/// the screen is cleared, every cell is drawn as a patch, in row-major
/// order, and the queue is flushed.
pub open spec fn redraw(grid: Grid) -> Seq<Command> {
    seq![Command::Clear] + update(grid.all_patches()) + seq![Command::Flush]
}

/// Queues the commands that bring a terminal up to date with `patches`.
pub fn apply_patches(patches: &[Patch]) -> (queue: Vec<Command>)
    ensures
        queue@ == update(patches@),
{
    let mut queue: Vec<Command> = Vec::new();
    queue.push(Command::SetForegroundColor(Color::White));
    queue.push(Command::SetBackgroundColor(Color::Black));
    let mut pen = Pen { last: None, fg: Color::White, bg: Color::Black };
    let ghost head = queue@;
    assert(Pen::unplaced().emit_below(patches@, 0) =~= Seq::<Command>::empty());
    let mut k: usize = 0;
    while k < patches.len()
        invariant
            k <= patches@.len(),
            pen == Pen::unplaced().before(patches@, k as int),
            queue@ == head + Pen::unplaced().emit_below(patches@, k as nat),
        decreases patches@.len() - k,
    {
        proof {
            Pen::unplaced().lemma_emit_step(patches@, k as nat);
        }
        pen.put(&patches[k], &mut queue);
        k += 1;
    }
    queue
}

} // verus!
