//! The rain engine: the grid, the corpus and the live cells, and the frame
//! step that draws every live cell, advances it, and spawns a new batch.

use vstd::prelude::*;
use crate::cell::{
    cell_ok, random_spawn_draws, random_step_draws, spawned, step_stays_in_bounds, stepped, Cell,
    CellView, SpawnDraws, StepDraws,
};
use crate::policy::{char_choice, pick_char_from, Shade};

verus! {

/// Why a window cannot be set up.
#[derive(Clone, Copy, Debug, PartialEq, Eq, Structural)]
pub enum SetupError {
    /// The grid has no column or no row.
    EmptyGrid,
    /// There is no character to show.
    EmptyCorpus,
}

/// One draw command: put `glyph` in `shade` at (`column`, `row`).
///
/// The coordinates are a live cell's, which lie inside a grid whose size
/// is itself given in terminal coordinates, so they always fit.
#[derive(Clone, Copy, Debug, PartialEq, Eq, Structural)]
pub struct Draw {
    pub column: u16,
    pub row: u16,
    pub shade: Shade,
    pub glyph: char,
}

/// What a window is, mathematically.
pub struct WindowView {
    pub cells: Seq<CellView>,
    pub columns: nat,
    pub rows: nat,
    pub corpus: Seq<char>,
}

/// The grid, the corpus, and the live cells in the order they are drawn.
#[derive(Clone, Debug)]
pub struct Window {
    cells: Vec<Cell>,
    columns: u16,
    rows: u16,
    corpus: Vec<char>,
}

impl View for Window {
    type V = WindowView;

    closed spec fn view(&self) -> WindowView {
        WindowView {
            cells: self.cells@.map_values(|c: Cell| c@),
            columns: self.columns as nat,
            rows: self.rows as nat,
            corpus: self.corpus@,
        }
    }
}

/// A live cell of a grid of `columns` by `rows`: inside the grid, and dying
/// at the grid's bottom.
pub open spec fn in_grid(c: CellView, columns: nat, rows: nat) -> bool {
    &&& cell_ok(c)
    &&& c.column < columns
    &&& c.ceiling == rows
}

/// A well-formed window: a non-empty grid that fits terminal coordinates, a
/// non-empty corpus, and every live cell inside the grid.
pub open spec fn window_ok(w: WindowView) -> bool {
    &&& 0 < w.columns <= u16::MAX
    &&& 0 < w.rows <= u16::MAX
    &&& w.corpus.len() > 0
    &&& forall|i: int| 0 <= i < w.cells.len() ==> in_grid(#[trigger] w.cells[i], w.columns, w.rows)
}

/// The draw command for a cell, at its current place.
pub open spec fn drawn(c: CellView) -> Draw {
    Draw { column: c.column as u16, row: c.row as u16, shade: c.shade, glyph: c.glyph }
}

/// The draw commands of one frame: one per live cell, in order.
pub open spec fn frame_draws(w: WindowView) -> Seq<Draw> {
    w.cells.map_values(|c: CellView| drawn(c))
}

/// The cells that survive their step, in order; cell `i` steps by `ds[i]`.
pub open spec fn survivors(cells: Seq<CellView>, ds: Seq<StepDraws>, corpus: Seq<char>) -> Seq<
    CellView,
>
    decreases cells.len(),
{
    if cells.len() == 0 {
        seq![]
    } else {
        let k = cells.len() - 1;
        let prev = survivors(cells.take(k), ds, corpus);
        match stepped(cells[k], ds[k], corpus) {
            Some(c) => prev.push(c),
            None => prev,
        }
    }
}

/// The glyph a spawn draw picks from the corpus.
pub open spec fn spawn_glyph(d: SpawnDraws, corpus: Seq<char>) -> char {
    char_choice(d.blank as nat, d.index as nat, corpus)
}

/// The cells spawned by a batch of draws.
pub open spec fn spawned_batch(spawns: Seq<SpawnDraws>, w: WindowView) -> Seq<CellView> {
    spawns.map_values(|d: SpawnDraws| spawned(spawn_glyph(d, w.corpus), d, w.columns, w.rows))
}

/// The window after a frame: the survivors of the steps, then the spawned
/// batch.
pub open spec fn frame_next(w: WindowView, ds: Seq<StepDraws>, spawns: Seq<SpawnDraws>) -> WindowView {
    WindowView { cells: survivors(w.cells, ds, w.corpus) + spawned_batch(spawns, w), ..w }
}

/// The size of a spawn batch for a grid `columns` wide: the draw taken
/// modulo `columns / 10`, and none on a grid narrower than ten columns.
pub open spec fn batch_of(columns: nat, draw: nat) -> nat {
    if columns / 10 == 0 {
        0
    } else {
        draw % (columns / 10)
    }
}

/// The size of a spawn batch for a grid `columns` wide, given a draw.
pub fn batch_size(columns: u16, draw: usize) -> (r: usize)
    ensures
        r == batch_of(columns as nat, draw as nat),
{
    let limit: usize = columns as usize / 10;
    if limit == 0 {
        0
    } else {
        draw % limit
    }
}

/// The pause after a frame, in nanoseconds: ten milliseconds and a jitter
/// below a tenth of a millisecond.
pub fn frame_pause_nanos(draw: u32) -> (r: u32)
    ensures
        r == 10_000_000 + draw % 100_000,
{
    10_000_000 + draw % 100_000
}

/// Every survivor of a frame is the step of a live cell, so it stays inside
/// the grid.
proof fn survivors_in_grid(cells: Seq<CellView>, ds: Seq<StepDraws>, corpus: Seq<char>, columns: nat, rows: nat)
    requires
        forall|i: int| 0 <= i < cells.len() ==> in_grid(#[trigger] cells[i], columns, rows),
    ensures
        forall|i: int|
            0 <= i < survivors(cells, ds, corpus).len() ==> in_grid(
                #[trigger] survivors(cells, ds, corpus)[i],
                columns,
                rows,
            ),
    decreases cells.len(),
{
    if cells.len() > 0 {
        let k = cells.len() - 1;
        let front = cells.take(k);
        assert forall|i: int| 0 <= i < front.len() implies in_grid(#[trigger] front[i], columns, rows) by {
            assert(front[i] == cells[i]);
        }
        survivors_in_grid(front, ds, corpus, columns, rows);
        step_stays_in_bounds(cells[k], ds[k], corpus);
        let prev = survivors(front, ds, corpus);
        let all = survivors(cells, ds, corpus);
        assert forall|i: int| 0 <= i < all.len() implies in_grid(#[trigger] all[i], columns, rows) by {
            if i < prev.len() {
                assert(all[i] == prev[i]);
            }
        }
    }
}

/// A frame keeps every live cell inside the grid: in a column of the grid
/// and above its ceiling, which is the grid's row count.
pub proof fn frame_keeps_cells_in_grid(w: WindowView, ds: Seq<StepDraws>, spawns: Seq<SpawnDraws>)
    requires
        window_ok(w),
        ds.len() == w.cells.len(),
    ensures
        window_ok(frame_next(w, ds, spawns)),
{
    survivors_in_grid(w.cells, ds, w.corpus, w.columns, w.rows);
    let kept = survivors(w.cells, ds, w.corpus);
    let born = spawned_batch(spawns, w);
    let next = frame_next(w, ds, spawns);
    assert forall|i: int| 0 <= i < next.cells.len() implies in_grid(#[trigger] next.cells[i], w.columns, w.rows) by {
        if i < kept.len() {
            assert(next.cells[i] == kept[i]);
        } else {
            assert(next.cells[i] == born[i - kept.len()]);
        }
    }
}

/// A spawn batch is smaller than a tenth of the grid's width, and empty on
/// a grid narrower than ten columns.
pub proof fn batch_below_tenth(columns: nat, draw: nat)
    ensures
        columns >= 10 ==> batch_of(columns, draw) < columns / 10,
        columns < 10 ==> batch_of(columns, draw) == 0,
{
}

/// A frame over no live cell draws nothing; with a spawn draw of zero it
/// spawns nothing, so the window stays empty.
pub proof fn empty_frame_stays_empty(w: WindowView, spawns: Seq<SpawnDraws>)
    requires
        window_ok(w),
        w.cells.len() == 0,
        spawns.len() == batch_of(w.columns, 0),
    ensures
        frame_draws(w) == Seq::<Draw>::empty(),
        frame_next(w, seq![], spawns).cells == Seq::<CellView>::empty(),
{
    assert(frame_draws(w) =~= Seq::<Draw>::empty());
    assert(frame_next(w, seq![], spawns).cells =~= Seq::<CellView>::empty());
}

impl Window {
    /// The window is well formed.
    pub open spec fn inv(&self) -> bool {
        window_ok(self@)
    }

    /// A window over a grid of `columns` by `rows` showing characters of
    /// `corpus`, with no live cell yet.
    pub fn new(columns: u16, rows: u16, corpus: Vec<char>) -> (r: Result<Window, SetupError>)
        ensures
            r is Ok <==> (columns > 0 && rows > 0 && corpus@.len() > 0),
            (columns == 0 || rows == 0) <==> r == Err::<Window, SetupError>(SetupError::EmptyGrid),
            (columns > 0 && rows > 0 && corpus@.len() == 0) <==> r == Err::<Window, SetupError>(
                SetupError::EmptyCorpus,
            ),
            r matches Ok(w) ==> w.inv() && w@ == (WindowView {
                cells: seq![],
                columns: columns as nat,
                rows: rows as nat,
                corpus: corpus@,
            }),
    {
        if columns == 0 || rows == 0 {
            return Err(SetupError::EmptyGrid);
        }
        if corpus.len() == 0 {
            return Err(SetupError::EmptyCorpus);
        }
        let w = Window { cells: Vec::new(), columns, rows, corpus };
        assert(w@.cells =~= seq![]);
        Ok(w)
    }

    /// The cells spawned by a batch of draws, in order: each takes its glyph
    /// from the corpus and its place and motion from its draw.
    pub fn spawn_cells(&self, spawns: &Vec<SpawnDraws>) -> (r: Vec<Cell>)
        requires
            self.inv(),
        ensures
            r@.map_values(|c: Cell| c@) == spawned_batch(spawns@, self@),
            forall|i: int| 0 <= i < r@.len() ==> in_grid(#[trigger] r@[i]@, self@.columns, self@.rows),
    {
        let mut v: Vec<Cell> = Vec::new();
        let mut i: usize = 0;
        while i < spawns.len()
            invariant
                self.inv(),
                i <= spawns@.len(),
                v@.map_values(|c: Cell| c@) == spawned_batch(spawns@.take(i as int), self@),
                forall|j: int| 0 <= j < v@.len() ==> in_grid(#[trigger] v@[j]@, self@.columns, self@.rows),
            decreases spawns@.len() - i,
        {
            let d = spawns[i];
            let glyph = pick_char_from(d.blank, d.index, &self.corpus);
            let c = Cell::spawn(glyph, &d, self.columns, self.rows);
            let ghost before = v@;
            v.push(c);
            proof {
                assert(spawns@.take(i + 1) =~= spawns@.take(i as int).push(d));
                assert(v@.map_values(|c: Cell| c@) =~= before.map_values(|c: Cell| c@).push(c@));
                assert(spawned_batch(spawns@.take(i + 1), self@) =~= spawned_batch(
                    spawns@.take(i as int),
                    self@,
                ).push(c@));
            }
            i += 1;
        }
        assert(spawns@.take(spawns@.len() as int) =~= spawns@);
        v
    }

    /// A random batch of new cells: its size is drawn by `batch_size`, and
    /// each cell has a random glyph, column, speed, shade and volatility.
    pub fn generate_cells(&self) -> (r: Vec<Cell>)
        requires
            self.inv(),
        ensures
            exists|spawns: Seq<SpawnDraws>, draw: nat|
                #![trigger spawned_batch(spawns, self@), batch_of(self@.columns, draw)]
                spawns.len() == batch_of(self@.columns, draw) && r@.map_values(|c: Cell| c@)
                    == spawned_batch(spawns, self@),
            forall|i: int| 0 <= i < r@.len() ==> in_grid(#[trigger] r@[i]@, self@.columns, self@.rows),
    {
        let draw: usize = rand::random::<usize>();
        let n = batch_size(self.columns, draw);
        let spawns = random_spawns(n);
        let r = self.spawn_cells(&spawns);
        assert(spawns@.len() == batch_of(self@.columns, draw as nat));
        r
    }

    /// One frame decided by explicit draws: returns a draw command for every
    /// live cell at its current place, in order; then steps cell `i` by
    /// `ds[i]`, keeps the survivors in order, and appends the cells spawned
    /// by `spawns`.
    pub fn frame(&mut self, ds: &Vec<StepDraws>, spawns: &Vec<SpawnDraws>) -> (draws: Vec<Draw>)
        requires
            old(self).inv(),
            ds@.len() == old(self)@.cells.len(),
        ensures
            draws@ == frame_draws(old(self)@),
            final(self)@ == frame_next(old(self)@, ds@, spawns@),
            final(self).inv(),
    {
        let ghost w = self@;
        let mut next: Vec<Cell> = Vec::new();
        let mut draws: Vec<Draw> = Vec::new();
        let n = self.cells.len();
        let mut i: usize = 0;
        while i < n
            invariant
                self@ == w,
                window_ok(w),
                n == w.cells.len(),
                ds@.len() == n,
                i <= n,
                next@.map_values(|c: Cell| c@) == survivors(w.cells.take(i as int), ds@, w.corpus),
                forall|j: int| 0 <= j < next@.len() ==> in_grid(#[trigger] next@[j]@, w.columns, w.rows),
                draws@ == frame_draws(WindowView { cells: w.cells.take(i as int), ..w }),
            decreases n - i,
        {
            let mut cell = self.cells[i];
            assert(cell@ == w.cells[i as int]);
            assert(in_grid(w.cells[i as int], w.columns, w.rows));
            let ghost before_draws = draws@;
            draws.push(Draw { column: cell.column(), row: cell.row(), shade: cell.shade(), glyph: cell.glyph() });
            let ghost before = next@;
            let ghost old_cell = cell@;
            let alive = cell.step(&ds[i], &self.corpus);
            if alive {
                next.push(cell);
                assert(next@.map_values(|c: Cell| c@) =~= before.map_values(|c: Cell| c@).push(cell@));
            }
            proof {
                let t = w.cells.take(i + 1);
                assert(t.take(i as int) =~= w.cells.take(i as int));
                assert(t[i as int] == old_cell);
                assert(frame_draws(WindowView { cells: t, ..w }) =~= before_draws.push(drawn(old_cell)));
            }
            i += 1;
        }
        assert(w.cells.take(n as int) =~= w.cells);
        let mut born = self.spawn_cells(spawns);
        let ghost kept = next@;
        let ghost fresh = born@;
        next.append(&mut born);
        proof {
            assert(next@ =~= kept + fresh);
            assert(next@.map_values(|c: Cell| c@) =~= kept.map_values(|c: Cell| c@) + fresh.map_values(
                |c: Cell| c@,
            ));
            assert forall|j: int| 0 <= j < next@.len() implies in_grid(
                #[trigger] next@[j]@,
                w.columns,
                w.rows,
            ) by {
                if j >= kept.len() {
                    assert(next@[j] == fresh[j - kept.len()]);
                }
            }
        }
        self.cells = next;
        proof {
            assert forall|j: int| 0 <= j < self@.cells.len() implies in_grid(
                #[trigger] self@.cells[j],
                self@.columns,
                self@.rows,
            ) by {
                assert(self@.cells[j] == next@[j]@);
            }
        }
        draws
    }

    /// One random frame: returns a draw command for every live cell at its
    /// current place, in order; then steps every cell with fresh draws, keeps
    /// the survivors in order, and appends a random batch of new cells.
    pub fn draw_loop(&mut self) -> (draws: Vec<Draw>)
        requires
            old(self).inv(),
        ensures
            draws@ == frame_draws(old(self)@),
            final(self).inv(),
            exists|ds: Seq<StepDraws>, spawns: Seq<SpawnDraws>, draw: nat|
                #![trigger frame_next(old(self)@, ds, spawns), batch_of(old(self)@.columns, draw)]
                ds.len() == old(self)@.cells.len() && spawns.len() == batch_of(old(self)@.columns, draw)
                    && final(self)@ == frame_next(old(self)@, ds, spawns),
    {
        let ghost w = self@;
        let ds = random_steps(self.cells.len());
        let draw: usize = rand::random::<usize>();
        let spawns = random_spawns(batch_size(self.columns, draw));
        assert(self.cells@.len() == w.cells.len());
        let draws = self.frame(&ds, &spawns);
        assert(batch_of(w.columns, draw as nat) == spawns@.len());
        draws
    }

    /// Replaces the live cells with a random batch of new cells.
    pub fn populate(&mut self)
        requires
            old(self).inv(),
        ensures
            final(self).inv(),
            exists|spawns: Seq<SpawnDraws>, draw: nat|
                #![trigger spawned_batch(spawns, old(self)@), batch_of(old(self)@.columns, draw)]
                spawns.len() == batch_of(old(self)@.columns, draw) && final(self)@ == (WindowView {
                    cells: spawned_batch(spawns, old(self)@),
                    ..old(self)@
                }),
    {
        let v = self.generate_cells();
        self.cells = v;
        proof {
            assert forall|j: int| 0 <= j < self@.cells.len() implies in_grid(
                #[trigger] self@.cells[j],
                self@.columns,
                self@.rows,
            ) by {
                assert(self@.cells[j] == v@[j]@);
            }
        }
    }

    /// Number of columns of the grid.
    pub fn columns(&self) -> (r: u16)
        ensures
            r == self@.columns,
    {
        self.columns
    }

    /// Number of rows of the grid.
    pub fn rows(&self) -> (r: u16)
        ensures
            r == self@.rows,
    {
        self.rows
    }

    /// The characters that cells may show.
    pub fn corpus(&self) -> (r: &Vec<char>)
        ensures
            r@ == self@.corpus,
    {
        &self.corpus
    }

    /// The live cells, in drawing order.
    pub fn cells(&self) -> (r: &Vec<Cell>)
        ensures
            r@.map_values(|c: Cell| c@) == self@.cells,
    {
        &self.cells
    }
}

/// `n` random step draws.
fn random_steps(n: usize) -> (r: Vec<StepDraws>)
    ensures
        r@.len() == n,
{
    let mut v: Vec<StepDraws> = Vec::new();
    let mut i: usize = 0;
    while i < n
        invariant
            i <= n,
            v@.len() == i,
        decreases n - i,
    {
        v.push(random_step_draws());
        i += 1;
    }
    v
}

/// A batch of `n` random spawn draws.
fn random_spawns(n: usize) -> (r: Vec<SpawnDraws>)
    ensures
        r@.len() == n,
{
    let mut v: Vec<SpawnDraws> = Vec::new();
    let mut i: usize = 0;
    while i < n
        invariant
            i <= n,
            v@.len() == i,
        decreases n - i,
    {
        v.push(random_spawn_draws());
        i += 1;
    }
    v
}

} // verus!
