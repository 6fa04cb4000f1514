use vstd::prelude::*;
use crate::framework::{Key, RunController, RunMode};
use crate::random::random_range;

verus! {

/// Arc offsets are fractions of the column height in units of 1e-4.
pub const OFFSET_SCALE: i64 = 10_000;

/// Smallest arc offset drawn (a quarter of the height).
pub const OFFSET_START: i64 = 2_500;

/// Arc offsets drawn stay below this (three quarters of the height).
pub const OFFSET_END: i64 = 7_500;

/// Largest window side the layout accepts, in pixels.
pub const MAX_SIZE: u64 = 1_000_000;

/// The two colours the columns alternate between.
#[derive(PartialEq, Eq, Structural, Clone, Copy, Debug)]
pub enum UnitColor {
    Black,
    Accent,
}

/// Colour of column `idx`: black on even columns, the accent on odd ones.
pub open spec fn color_of(idx: int) -> UnitColor {
    if idx % 2 == 0 {
        UnitColor::Black
    } else {
        UnitColor::Accent
    }
}

/// One column: where its arc sits, as a fraction of the height, and its colour.
#[derive(Clone, Copy, Debug)]
pub struct Unit {
    pub arc_offset: i64,
    pub color: UnitColor,
}

/// A point in pixels, the window's lower left corner at the origin.
#[derive(PartialEq, Eq, Structural, Clone, Copy, Debug)]
pub struct Point {
    pub x: i64,
    pub y: i64,
}

/// The stroke of one column: a line from `top` to `arc_start`, a quadratic curve through
/// `ctrl` to `arc_end`, and a line on to `bottom`.
#[derive(PartialEq, Eq, Structural, Clone, Copy, Debug)]
pub struct ArcPath {
    pub top: Point,
    pub arc_start: Point,
    pub ctrl: Point,
    pub arc_end: Point,
    pub bottom: Point,
}

/// Window side, column spacing and border of the arc sketch, all in pixels.
#[derive(PartialEq, Eq, Structural, Clone, Copy, Debug)]
pub struct Layout {
    pub size: u64,
    pub unit_size: u64,
    pub border_size: u64,
}

/// Whether a unit's offset lies in the range offsets are drawn from.
pub open spec fn offset_in_range(offset: int) -> bool {
    OFFSET_START <= offset < OFFSET_END
}

impl Unit {
    /// Column `idx` with its arc at `arc_offset`.
    pub fn with_offset(idx: usize, arc_offset: i64) -> (r: Unit)
        ensures
            r.arc_offset == arc_offset,
            r.color == color_of(idx as int),
    {
        let color = if idx % 2 == 0 {
            UnitColor::Black
        } else {
            UnitColor::Accent
        };
        Unit { arc_offset, color }
    }

    /// Column `idx` with a freshly drawn arc offset.
    pub fn new(idx: usize) -> (r: Unit)
        ensures
            offset_in_range(r.arc_offset as int),
            r.color == color_of(idx as int),
    {
        let arc_offset = random_range(OFFSET_START, OFFSET_END);
        Unit::with_offset(idx, arc_offset)
    }
}

impl Layout {
    /// Sides even (so every column centre is a whole pixel), spacing positive, borders
    /// inside the window, nothing larger than `MAX_SIZE`.
    pub open spec fn wf(&self) -> bool {
        &&& 0 < self.unit_size
        &&& self.unit_size % 2 == 0
        &&& self.border_size % 2 == 0
        &&& 2 * self.border_size <= self.size
        &&& self.size <= MAX_SIZE
        &&& self.unit_size <= MAX_SIZE
    }

    /// How many columns fit between the borders.
    pub open spec fn spec_column_count(&self) -> int {
        (self.size - 2 * self.border_size) as int / self.unit_size as int + 1
    }

    /// Horizontal centre of column `i`.
    pub open spec fn spec_column_x(&self, i: int) -> int {
        self.unit_size * i + self.unit_size / 2 + self.border_size / 2
    }

    /// Height of the arc of an offset `offset` above the bottom border's line.
    pub open spec fn spec_arc_y(&self, offset: int) -> int {
        (self.size - 2 * self.border_size) as int * offset / OFFSET_SCALE as int
    }

    /// The stroke of column `i` with arc offset `offset`.
    pub open spec fn spec_path(&self, i: int, offset: int) -> ArcPath {
        let x = self.spec_column_x(i);
        let arc_y = self.spec_arc_y(offset);
        let half = self.unit_size / 2;
        ArcPath {
            top: Point { x: x as i64, y: self.border_size as i64 },
            arc_start: Point { x: x as i64, y: (arc_y - half) as i64 },
            ctrl: Point { x: (x + self.unit_size * 100 / 133 - 10) as i64, y: arc_y as i64 },
            arc_end: Point { x: x as i64, y: (arc_y + half) as i64 },
            bottom: Point { x: x as i64, y: (self.size - self.border_size) as i64 },
        }
    }

    /// A layout, when the sizes make one.
    pub fn new(size: u64, unit_size: u64, border_size: u64) -> (r: Option<Layout>)
        ensures
            r.is_some() == (Layout { size, unit_size, border_size }).wf(),
            r.is_some() ==> r.unwrap() == (Layout { size, unit_size, border_size }),
    {
        if 0 < unit_size && unit_size % 2 == 0 && border_size % 2 == 0 && size <= MAX_SIZE && unit_size <= MAX_SIZE
            && border_size <= size / 2 {
            Some(Layout { size, unit_size, border_size })
        } else {
            None
        }
    }

    /// The small window: 512 pixels, columns every 70, a border of 20.
    pub fn small() -> (r: Layout)
        ensures
            r.wf(),
            r.size == 512 && r.unit_size == 70 && r.border_size == 20,
    {
        Layout { size: 512, unit_size: 70, border_size: 20 }
    }

    /// The large window: everything of the small one twice as big.
    pub fn large() -> (r: Layout)
        ensures
            r.wf(),
            r.size == 1024 && r.unit_size == 140 && r.border_size == 40,
    {
        Layout { size: 1024, unit_size: 140, border_size: 40 }
    }

    /// How many columns fit between the borders.
    pub fn column_count(&self) -> (r: usize)
        requires
            self.wf(),
        ensures
            r == self.spec_column_count(),
    {
        ((self.size - 2 * self.border_size) / self.unit_size + 1) as usize
    }

    /// Horizontal centre of column `i`.
    pub fn column_x(&self, i: u64) -> (r: u64)
        requires
            self.wf(),
            i < self.spec_column_count(),
        ensures
            r == self.spec_column_x(i as int),
            r <= self.size + self.unit_size,
    {
        proof {
            let span = (self.size - 2 * self.border_size) as int;
            let u = self.unit_size as int;
            assert(i <= span / u);
            assert(u * i <= u * (span / u)) by (nonlinear_arith)
                requires i <= span / u, u > 0;
            assert(u * (span / u) <= span) by (nonlinear_arith)
                requires u > 0, span >= 0;
        }
        self.unit_size * i + self.unit_size / 2 + self.border_size / 2
    }

    /// The stroke of column `idx` for `unit`.
    pub fn unit_path(&self, idx: u64, unit: &Unit) -> (r: ArcPath)
        requires
            self.wf(),
            idx < self.spec_column_count(),
            0 <= unit.arc_offset <= OFFSET_SCALE,
        ensures
            r == self.spec_path(idx as int, unit.arc_offset as int),
    {
        let x = self.column_x(idx) as i64;
        let span = (self.size - 2 * self.border_size) as i64;
        proof {
            let s = span as int;
            let o = unit.arc_offset as int;
            assert(0 <= s * o <= s * 10_000) by (nonlinear_arith)
                requires 0 <= s <= 1_000_000, 0 <= o <= 10_000;
            assert((s * o) / 10_000 <= s) by (nonlinear_arith)
                requires 0 <= s * o <= s * 10_000;
        }
        let arc_y = span * unit.arc_offset / OFFSET_SCALE;
        let half = (self.unit_size / 2) as i64;
        let ctrl_shift = (self.unit_size * 100 / 133) as i64 - 10;
        ArcPath {
            top: Point { x, y: self.border_size as i64 },
            arc_start: Point { x, y: arc_y - half },
            ctrl: Point { x: x + ctrl_shift, y: arc_y },
            arc_end: Point { x, y: arc_y + half },
            bottom: Point { x, y: (self.size - self.border_size) as i64 },
        }
    }
}

/// Columns as the layout places them: one per column, colours alternating, offsets in range.
pub open spec fn units_fill(layout: Layout, units: Seq<Unit>) -> bool {
    &&& units.len() == layout.spec_column_count()
    &&& forall|i: int| 0 <= i < units.len() ==> units[i].color == color_of(i)
    &&& forall|i: int| 0 <= i < units.len() ==> offset_in_range(#[trigger] units[i].arc_offset as int)
}

/// One freshly drawn unit for each column of `layout`.
pub fn initialize_units(layout: &Layout) -> (r: Vec<Unit>)
    requires
        layout.wf(),
    ensures
        units_fill(*layout, r@),
{
    let n = layout.column_count();
    let mut units: Vec<Unit> = Vec::with_capacity(n);
    let mut idx: usize = 0;
    while idx < n
        invariant
            n == layout.spec_column_count(),
            idx <= n,
            units@.len() == idx,
            forall|i: int| 0 <= i < idx ==> units@[i].color == color_of(i),
            forall|i: int| 0 <= i < idx ==> offset_in_range(#[trigger] units@[i].arc_offset as int),
        decreases n - idx,
    {
        units.push(Unit::new(idx));
        idx = idx + 1;
    }
    units
}

/// State of the arc sketch: its controller, layout and columns.
pub struct Model {
    pub control: RunController,
    pub layout: Layout,
    pub units: Vec<Unit>,
}

impl Model {
    /// Layout well formed and the columns filling it.
    pub open spec fn wf(&self) -> bool {
        self.layout.wf() && units_fill(self.layout, self.units@)
    }

    /// A sketch over `layout` with freshly drawn columns; it does not record.
    pub fn new(run_mode: RunMode, label: String, layout: Layout) -> (r: Model)
        requires
            layout.wf(),
        ensures
            r.wf(),
            r.layout == layout,
            r.control.run_mode == run_mode,
            r.control.label == label,
            !r.control.save_frame,
            !r.control.recording,
    {
        let units = initialize_units(&layout);
        Model { control: RunController::new(run_mode, label, false, 0), layout, units }
    }

    /// The stroke of every column, in column order.
    pub fn paths(&self) -> (r: Vec<ArcPath>)
        requires
            self.wf(),
        ensures
            r@.len() == self.units@.len(),
            forall|i: int| 0 <= i < r@.len() ==> #[trigger] r@[i] == self.layout.spec_path(i, self.units@[i].arc_offset as int),
    {
        let mut out: Vec<ArcPath> = Vec::new();
        let mut idx: usize = 0;
        while idx < self.units.len()
            invariant
                self.wf(),
                idx <= self.units@.len(),
                out@.len() == idx,
                forall|i: int| 0 <= i < idx ==> #[trigger] out@[i] == self.layout.spec_path(i, self.units@[i].arc_offset as int),
            decreases self.units@.len() - idx,
        {
            let unit = &self.units[idx];
            assert(offset_in_range(self.units@[idx as int].arc_offset as int));
            out.push(self.layout.unit_path(idx as u64, unit));
            idx = idx + 1;
        }
        out
    }

    /// A released key: this sketch adds none of its own to the common ones.
    pub fn key_released(&mut self, key: Key)
        ensures
            final(self).control.save_frame == (old(self).control.save_frame || key == Key::S),
            final(self).control.run_mode == (if key == Key::M {
                old(self).control.run_mode.flipped()
            } else {
                old(self).control.run_mode
            }),
            final(self).control.label == old(self).control.label,
            final(self).control.recording == old(self).control.recording,
            final(self).control.record_limit_secs == old(self).control.record_limit_secs,
            final(self).layout == old(self).layout,
            final(self).units == old(self).units,
    {
        self.control.key_released(key);
    }
}

} // verus!
