//! One falling character: its spawn at the top row and its step per frame.

use vstd::prelude::*;
use crate::policy::{
    char_choice, palette, pick_char_from, pick_color_from, pick_speed_from, pick_volatility, Shade,
    MAX_SPEED, PALETTE_LEN,
};
use crate::window::Window;

verus! {

/// The draws that decide one step of a cell.
#[derive(Clone, Copy, Debug)]
pub struct StepDraws {
    /// Compared with the volatility: the cell moves only when this is larger.
    pub settle: u32,
    /// The glyph changes when this is a multiple of ten.
    pub mutate: usize,
    /// Blank draw for the new glyph.
    pub blank: usize,
    /// Index draw for the new glyph.
    pub index: usize,
    /// Draw for the next speed.
    pub speed: usize,
    /// Draw for the next shade.
    pub color: usize,
    /// The next volatility.
    pub volatility: u32,
}

/// The draws that decide a newly spawned cell.
#[derive(Clone, Copy, Debug)]
pub struct SpawnDraws {
    /// Draw for the column.
    pub column: usize,
    /// Draw for the speed.
    pub speed: usize,
    /// Draw for the shade.
    pub color: usize,
    /// The volatility.
    pub volatility: u32,
    /// Blank draw for the glyph.
    pub blank: usize,
    /// Index draw for the glyph.
    pub index: usize,
}

/// Fresh draws for one step, from the process-wide generator.
pub fn random_step_draws() -> StepDraws {
    StepDraws {
        settle: rand::random::<u32>(),
        mutate: rand::random::<usize>(),
        blank: rand::random::<usize>(),
        index: rand::random::<usize>(),
        speed: rand::random::<usize>(),
        color: rand::random::<usize>(),
        volatility: pick_volatility(),
    }
}

/// Fresh draws for one spawn, from the process-wide generator.
pub fn random_spawn_draws() -> SpawnDraws {
    SpawnDraws {
        column: rand::random::<usize>(),
        speed: rand::random::<usize>(),
        color: rand::random::<usize>(),
        volatility: pick_volatility(),
        blank: rand::random::<usize>(),
        index: rand::random::<usize>(),
    }
}

/// What a cell is, mathematically. `volatility` is a fraction of `2^32`.
pub struct CellView {
    pub glyph: char,
    pub shade: Shade,
    pub speed: nat,
    pub volatility: nat,
    pub column: nat,
    pub row: nat,
    pub ceiling: nat,
}

/// A falling character.
#[derive(Clone, Copy, Debug)]
pub struct Cell {
    glyph: char,
    shade: Shade,
    speed: usize,
    volatility: u32,
    column: u16,
    row: u16,
    ceiling: u16,
}

impl View for Cell {
    type V = CellView;

    closed spec fn view(&self) -> CellView {
        CellView {
            glyph: self.glyph,
            shade: self.shade,
            speed: self.speed as nat,
            volatility: self.volatility as nat,
            column: self.column as nat,
            row: self.row as nat,
            ceiling: self.ceiling as nat,
        }
    }
}

/// A live cell lies above its ceiling and moves less than `MAX_SPEED` rows.
pub open spec fn cell_ok(c: CellView) -> bool {
    &&& c.row < c.ceiling
    &&& c.speed < MAX_SPEED
    &&& c.ceiling <= u16::MAX
    &&& c.volatility <= u32::MAX
}

/// The cell spawned with glyph `glyph` on a grid of `columns` by `rows`.
pub open spec fn spawned(glyph: char, d: SpawnDraws, columns: nat, rows: nat) -> CellView
    recommends
        columns > 0,
{
    CellView {
        glyph,
        shade: palette((d.color % PALETTE_LEN) as int),
        speed: (d.speed % MAX_SPEED) as nat,
        volatility: d.volatility as nat,
        column: (d.column as nat % columns) as nat,
        row: 0,
        ceiling: rows,
    }
}

/// Whether a cell that moves this step would reach its last row or beyond.
pub open spec fn hits_bottom(c: CellView) -> bool {
    c.row + c.speed + 1 >= c.ceiling
}

/// One step of a cell: `None` when it dies, else the cell after the step.
///
/// The cell stays frozen unless the settle draw exceeds its volatility. When
/// it moves, it dies if its next row reaches `ceiling - 1`; otherwise it
/// advances by its speed, its glyph changes one time in ten, and its speed,
/// shade and volatility are drawn afresh.
pub open spec fn stepped(c: CellView, d: StepDraws, corpus: Seq<char>) -> Option<CellView> {
    if d.settle as nat <= c.volatility {
        Some(c)
    } else if hits_bottom(c) {
        None
    } else {
        Some(
            CellView {
                glyph: if d.mutate % 10 == 0 {
                    char_choice(d.blank as nat, d.index as nat, corpus)
                } else {
                    c.glyph
                },
                shade: palette((d.color % PALETTE_LEN) as int),
                speed: (d.speed % MAX_SPEED) as nat,
                volatility: d.volatility as nat,
                row: c.row + c.speed,
                ..c
            },
        )
    }
}

/// The cell after a run of steps, `ds[i]` deciding step `i`; `None` once it
/// has died.
pub open spec fn run(c: CellView, ds: Seq<StepDraws>, corpus: Seq<char>) -> Option<CellView>
    decreases ds.len(),
{
    if ds.len() == 0 {
        Some(c)
    } else {
        match run(c, ds.drop_last(), corpus) {
            Some(m) => stepped(m, ds.last(), corpus),
            None => None,
        }
    }
}

/// A run one step longer is the shorter run followed by that step, so the
/// run is what repeated calls of `Cell::step` produce.
pub proof fn run_extends(c: CellView, ds: Seq<StepDraws>, d: StepDraws, corpus: Seq<char>)
    ensures
        run(c, ds.push(d), corpus) == (match run(c, ds, corpus) {
            Some(m) => stepped(m, d, corpus),
            None => None,
        }),
{
    assert(ds.push(d).drop_last() =~= ds);
}

/// A step keeps a live cell in its column and above its ceiling, and never
/// moves it up.
pub proof fn step_stays_in_bounds(c: CellView, d: StepDraws, corpus: Seq<char>)
    requires
        cell_ok(c),
    ensures
        stepped(c, d, corpus) matches Some(n) ==> cell_ok(n) && n.column == c.column && n.ceiling
            == c.ceiling && n.row >= c.row,
{
}

/// A cell that moves and whose next row would reach `ceiling - 1` or beyond
/// dies on that step.
pub proof fn bottom_removes(c: CellView, d: StepDraws, corpus: Seq<char>)
    requires
        c.ceiling >= 1,
        d.settle as nat > c.volatility,
        c.row + c.speed >= c.ceiling - 1,
    ensures
        stepped(c, d, corpus) is None,
{
}

/// A cell of speed zero that is drawn speed zero again at every move never
/// dies and never leaves its row, however many steps it takes, as long as
/// it starts above its last row.
pub proof fn stalled_cell_stays(c: CellView, ds: Seq<StepDraws>, corpus: Seq<char>)
    requires
        cell_ok(c),
        c.speed == 0,
        c.row + 1 < c.ceiling,
        forall|i: int| 0 <= i < ds.len() ==> (#[trigger] ds[i]).speed % MAX_SPEED == 0,
    ensures
        run(c, ds, corpus) matches Some(e) && e.row == c.row && e.speed == 0 && e.column
            == c.column && e.ceiling == c.ceiling,
    decreases ds.len(),
{
    if ds.len() > 0 {
        let prefix = ds.drop_last();
        assert forall|i: int| 0 <= i < prefix.len() implies (#[trigger] prefix[i]).speed % MAX_SPEED
            == 0 by {
            assert(prefix[i] == ds[i]);
        }
        stalled_cell_stays(c, prefix, corpus);
        assert(ds.last() == ds[ds.len() - 1]);
    }
}

impl Cell {
    /// The cell is well formed.
    pub open spec fn inv(&self) -> bool {
        cell_ok(self@)
    }

    /// Spawns a cell with glyph `c` at the top row of a grid of `columns`
    /// by `rows`, its column, speed, shade and volatility given by `d`.
    pub fn spawn(c: char, d: &SpawnDraws, columns: u16, rows: u16) -> (r: Cell)
        requires
            columns > 0,
            rows > 0,
        ensures
            r@ == spawned(c, *d, columns as nat, rows as nat),
            r.inv(),
    {
        let column = (d.column % (columns as usize)) as u16;
        Cell {
            glyph: c,
            shade: pick_color_from(d.color),
            speed: pick_speed_from(d.speed),
            volatility: d.volatility,
            column,
            row: 0,
            ceiling: rows,
        }
    }

    /// Spawns a cell with glyph `c` at the top row of the window's grid, in a
    /// random column, with random speed, shade and volatility.
    pub fn new(c: char, window: &Window) -> (r: Cell)
        requires
            window.inv(),
        ensures
            r.inv(),
            r@.glyph == c,
            r@.row == 0,
            r@.column < window@.columns,
            r@.ceiling == window@.rows,
            exists|i: int| 0 <= i < PALETTE_LEN && r@.shade == palette(i),
    {
        let d = random_spawn_draws();
        let r = Cell::spawn(c, &d, window.columns(), window.rows());
        assert(r@.shade == palette((d.color % PALETTE_LEN) as int));
        r
    }

    /// Advances the cell by one step decided by `d`; returns whether it is
    /// still alive. A cell that dies is left as it was.
    pub fn step(&mut self, d: &StepDraws, corpus: &Vec<char>) -> (alive: bool)
        requires
            old(self).inv(),
            corpus@.len() > 0,
        ensures
            alive == stepped(old(self)@, *d, corpus@) is Some,
            alive ==> Some(final(self)@) == stepped(old(self)@, *d, corpus@),
            !alive ==> final(self)@ == old(self)@,
            final(self).inv(),
    {
        if d.settle > self.volatility {
            let next: usize = self.row as usize + self.speed;
            if next + 1 >= self.ceiling as usize {
                return false;
            }
            self.row = next as u16;
            if d.mutate % 10 == 0 {
                self.glyph = pick_char_from(d.blank, d.index, corpus);
            }
            self.speed = pick_speed_from(d.speed);
            self.shade = pick_color_from(d.color);
            self.volatility = d.volatility;
        }
        true
    }

    /// Advances the cell by one random step; returns whether it is still
    /// alive. A cell that dies is left as it was.
    pub fn iterate(&mut self, corpus: &Vec<char>) -> (alive: bool)
        requires
            old(self).inv(),
            corpus@.len() > 0,
        ensures
            exists|d: StepDraws|
                #![trigger stepped(old(self)@, d, corpus@)]
                if alive {
                    Some(final(self)@) == stepped(old(self)@, d, corpus@)
                } else {
                    stepped(old(self)@, d, corpus@) is None && final(self)@ == old(self)@
                },
            final(self).inv(),
    {
        let d = random_step_draws();
        self.step(&d, corpus)
    }

    /// The glyph shown.
    pub fn glyph(&self) -> (r: char)
        ensures
            r == self@.glyph,
    {
        self.glyph
    }

    /// The foreground shade.
    pub fn shade(&self) -> (r: Shade)
        ensures
            r == self@.shade,
    {
        self.shade
    }

    /// Rows advanced per step.
    pub fn speed(&self) -> (r: usize)
        ensures
            r == self@.speed,
    {
        self.speed
    }

    /// The volatility, a fraction of `2^32`.
    pub fn volatility(&self) -> (r: u32)
        ensures
            r == self@.volatility,
    {
        self.volatility
    }

    /// The column, fixed for the cell's life.
    pub fn column(&self) -> (r: u16)
        ensures
            r == self@.column,
    {
        self.column
    }

    /// The current row.
    pub fn row(&self) -> (r: u16)
        ensures
            r == self@.row,
    {
        self.row
    }

    /// The row count of the grid the cell was spawned on.
    pub fn ceiling(&self) -> (r: u16)
        ensures
            r == self@.ceiling,
    {
        self.ceiling
    }
}

} // verus!
