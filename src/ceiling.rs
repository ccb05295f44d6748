//! PVC ceiling layout: rows of 0.2 m panels cut from 3, 4, 5 and 6 m stock,
//! with splices where a row takes more than one piece.

use vstd::prelude::*;
use crate::quantity::{ceil_div, MAX_UNITS};
use crate::room::{parse_rooms, parse_rooms_spec, rooms_wf, sides, sides_spec, Direction, Room, RoomText, RoomsError, MAX_ROOMS};

verus! {

/// Width of a panel, in units (0.2 m).
pub const PANEL_WIDTH: u64 = 2_000;

/// Splice consumed by each joint in a row, in units (0.2 m).
pub const SPLICE_PER_JOINT: u64 = 2_000;

/// Length of one splice bar, in units (6 m).
pub const SPLICE_BAR: u64 = 60_000;

/// Longest stock length, in units (6 m).
pub const STOCK_MAX: u64 = 60_000;

/// Most pieces of one size that one room can take.
pub const ROOM_PIECES_MAX: u64 = 17_000_000_000;

/// Panel pieces by stock length: 3, 4, 5 and 6 m.
#[derive(Clone, Copy, Debug, PartialEq, Eq, Structural)]
pub struct PanelCounts {
    pub three: u64,
    pub four: u64,
    pub five: u64,
    pub six: u64,
}

pub type Tally = (int, int, int, int);

impl PanelCounts {
    pub open spec fn tally(self) -> Tally {
        (self.three as int, self.four as int, self.five as int, self.six as int)
    }

    pub fn zero() -> (r: PanelCounts)
        ensures
            r.tally() == (0int, 0int, 0int, 0int),
    {
        PanelCounts { three: 0, four: 0, five: 0, six: 0 }
    }
}

/// The stock piece cut next where `rem` units of a row are left: the longest
/// stock length that fits, or the shortest where none fits.
pub open spec fn stock_piece(rem: int) -> int {
    if rem >= 60_000 {
        60_000
    } else if rem >= 50_000 {
        50_000
    } else if rem >= 40_000 {
        40_000
    } else {
        30_000
    }
}

pub open spec fn add_piece(t: Tally, piece: int) -> Tally {
    if piece == 60_000 {
        (t.0, t.1, t.2, t.3 + 1)
    } else if piece == 50_000 {
        (t.0, t.1, t.2 + 1, t.3)
    } else if piece == 40_000 {
        (t.0, t.1 + 1, t.2, t.3)
    } else {
        (t.0 + 1, t.1, t.2, t.3)
    }
}

pub open spec fn tally_add(a: Tally, b: Tally) -> Tally {
    (a.0 + b.0, a.1 + b.1, a.2 + b.2, a.3 + b.3)
}

pub open spec fn tally_scale(a: Tally, k: int) -> Tally {
    (a.0 * k, a.1 * k, a.2 * k, a.3 * k)
}

pub open spec fn tally_pieces(t: Tally) -> int {
    t.0 + t.1 + t.2 + t.3
}

/// Total stock length of a tally, in units.
pub open spec fn tally_length(t: Tally) -> int {
    30_000 * t.0 + 40_000 * t.1 + 50_000 * t.2 + 60_000 * t.3
}

/// The pieces that cover a row of `rem` units, cut greedily.
pub open spec fn row_layout(rem: int) -> Tally
    decreases rem + 30_000,
{
    if rem <= 0 {
        (0, 0, 0, 0)
    } else {
        let piece = if rem >= 60_000 {
            60_000
        } else if rem >= 50_000 {
            50_000
        } else if rem >= 40_000 {
            40_000
        } else {
            30_000
        };
        add_piece(row_layout(rem - piece), piece)
    }
}

/// Joints in a row of `t`: one fewer than its pieces.
pub open spec fn row_joints(t: Tally) -> int {
    if tally_pieces(t) > 1 {
        tally_pieces(t) - 1
    } else {
        0
    }
}

/// A greedy row covers its length, overshoots it by less than the shortest
/// stock length, and holds only pieces of at least that length.
pub proof fn lemma_row_layout(rem: int)
    ensures
        row_layout(rem).0 >= 0 && row_layout(rem).1 >= 0 && row_layout(rem).2 >= 0
            && row_layout(rem).3 >= 0,
        rem <= 0 ==> row_layout(rem) == (0int, 0int, 0int, 0int),
        rem > 0 ==> rem <= tally_length(row_layout(rem)) < rem + 30_000,
        30_000 * tally_pieces(row_layout(rem)) <= tally_length(row_layout(rem)),
    decreases rem + 30_000,
{
    if rem > 0 {
        let piece = stock_piece(rem);
        assert(piece >= 30_000);
        lemma_row_layout(rem - piece);
    }
}

/// Cuts one row of `len` units greedily.
fn pack_row(len: u64) -> (r: PanelCounts)
    requires
        len <= MAX_UNITS,
    ensures
        r.tally() == row_layout(len as int),
{
    let mut rem: i64 = len as i64;
    let mut c = PanelCounts::zero();
    while rem > 0
        invariant
            rem <= len <= MAX_UNITS,
            rem > -30_000,
            tally_add(c.tally(), row_layout(rem as int)) == row_layout(len as int),
            tally_length(c.tally()) == len - rem,
            c.three >= 0 && c.four >= 0 && c.five >= 0 && c.six >= 0,
        decreases rem + 30_000,
    {
        proof {
            lemma_row_layout(rem - stock_piece(rem as int));
        }
        if rem >= 60_000 {
            c.six = c.six + 1;
            rem = rem - 60_000;
        } else if rem >= 50_000 {
            c.five = c.five + 1;
            rem = rem - 50_000;
        } else if rem >= 40_000 {
            c.four = c.four + 1;
            rem = rem - 40_000;
        } else {
            c.three = c.three + 1;
            rem = rem - 30_000;
        }
    }
    proof {
        lemma_row_layout(rem as int);
    }
    c
}

/// The layout of one room.
#[derive(Clone, Copy, Debug, PartialEq, Eq, Structural)]
pub struct CeilingRoom {
    /// Rows of panels across the room.
    pub rows: u64,
    /// Pieces over all rows, by stock length.
    pub panels: PanelCounts,
    /// Joints over all rows.
    pub joints: u64,
    /// Splice needed, in units.
    pub splice: u64,
    /// Perimeter, which is the finishing trim, in units.
    pub perimeter: u64,
    /// Area, in square units.
    pub area: u128,
}

/// `r` is the layout of `room` with panels along the side that `dir` picks.
pub open spec fn ceiling_room_spec(room: Room, dir: Direction, r: CeilingRoom) -> bool {
    let (install, across) = sides_spec(room, dir);
    let row = row_layout(install as int);
    &&& r.rows == ceil_div(across as int, PANEL_WIDTH as int)
    &&& r.panels.tally() == tally_scale(row, r.rows as int)
    &&& r.joints == r.rows * row_joints(row)
    &&& r.splice == SPLICE_PER_JOINT * r.joints
    &&& r.perimeter == 2 * (room.width.units + room.length.units)
    &&& r.area == room.area_spec()
}

/// What one room can hold at most.
pub open spec fn ceiling_room_bounded(r: CeilingRoom) -> bool {
    &&& r.panels.three <= ROOM_PIECES_MAX
    &&& r.panels.four <= ROOM_PIECES_MAX
    &&& r.panels.five <= ROOM_PIECES_MAX
    &&& r.panels.six <= ROOM_PIECES_MAX
    &&& r.splice <= SPLICE_PER_JOINT * ROOM_PIECES_MAX
    &&& r.perimeter <= 4 * MAX_UNITS
    &&& r.area <= MAX_UNITS * MAX_UNITS
}

/// Lays out the panels of one room.
pub fn layout_room(room: Room, dir: Direction) -> (r: CeilingRoom)
    requires
        room.wf(),
    ensures
        ceiling_room_spec(room, dir, r),
        ceiling_room_bounded(r),
{
    let (install, across) = sides(room, dir);
    let rows = (across + PANEL_WIDTH - 1) / PANEL_WIDTH;
    let row = pack_row(install);
    proof {
        lemma_row_layout(install as int);
        let t = row.tally();
        assert(rows <= 500_000);
        assert(tally_pieces(t) <= 33_334);
        assert(rows * t.0 <= 500_000 * 33_334) by (nonlinear_arith)
            requires rows <= 500_000, 0 <= t.0 <= 33_334;
        assert(rows * t.1 <= 500_000 * 33_334) by (nonlinear_arith)
            requires rows <= 500_000, 0 <= t.1 <= 33_334;
        assert(rows * t.2 <= 500_000 * 33_334) by (nonlinear_arith)
            requires rows <= 500_000, 0 <= t.2 <= 33_334;
        assert(rows * t.3 <= 500_000 * 33_334) by (nonlinear_arith)
            requires rows <= 500_000, 0 <= t.3 <= 33_334;
        assert(rows * row_joints(t) <= 500_000 * 33_334) by (nonlinear_arith)
            requires rows <= 500_000, 0 <= row_joints(t) <= 33_334;
        assert(room.width.units * room.length.units <= MAX_UNITS * MAX_UNITS) by (nonlinear_arith)
            requires room.width.units <= MAX_UNITS, room.length.units <= MAX_UNITS;
    }
    let per_row = row.three + row.four + row.five + row.six;
    let row_joints = if per_row > 1 { per_row - 1 } else { 0 };
    let panels = PanelCounts {
        three: rows * row.three,
        four: rows * row.four,
        five: rows * row.five,
        six: rows * row.six,
    };
    let joints = rows * row_joints;
    CeilingRoom {
        rows,
        panels,
        joints,
        splice: SPLICE_PER_JOINT * joints,
        perimeter: 2 * (room.width.units + room.length.units),
        area: room.area(),
    }
}

/// Pieces of all rooms, by stock length.
pub open spec fn total_panels(s: Seq<CeilingRoom>) -> Tally
    decreases s.len(),
{
    if s.len() == 0 {
        (0, 0, 0, 0)
    } else {
        tally_add(total_panels(s.drop_last()), s.last().panels.tally())
    }
}

pub open spec fn total_splice(s: Seq<CeilingRoom>) -> int
    decreases s.len(),
{
    if s.len() == 0 {
        0
    } else {
        total_splice(s.drop_last()) + s.last().splice
    }
}

pub open spec fn total_perimeter(s: Seq<CeilingRoom>) -> int
    decreases s.len(),
{
    if s.len() == 0 {
        0
    } else {
        total_perimeter(s.drop_last()) + s.last().perimeter
    }
}

pub open spec fn total_area(s: Seq<CeilingRoom>) -> int
    decreases s.len(),
{
    if s.len() == 0 {
        0
    } else {
        total_area(s.drop_last()) + s.last().area
    }
}

/// The ceiling estimate of a list of rooms.
#[derive(Clone, Debug)]
pub struct CeilingReport {
    pub rooms: Vec<CeilingRoom>,
    /// Pieces over all rooms, by stock length.
    pub panels: PanelCounts,
    /// Splice over all rooms, in units.
    pub splice: u64,
    /// Splice bars of 6 m that cover `splice`.
    pub splice_bars: u64,
    /// Finishing trim over all rooms, in units.
    pub trim: u64,
    /// Area over all rooms, in square units.
    pub area: u128,
}

/// Estimates panels, splice and trim for the rooms, with panels along the
/// side that `dir` picks in every room.
pub fn estimate_ceiling(rooms: &Vec<Room>, dir: Direction) -> (r: CeilingReport)
    requires
        rooms_wf(rooms@),
    ensures
        r.rooms@.len() == rooms@.len(),
        forall|i: int| 0 <= i < rooms@.len() ==> ceiling_room_spec(rooms@[i], dir, #[trigger] r.rooms@[i]),
        r.panels.tally() == total_panels(r.rooms@),
        r.splice == total_splice(r.rooms@),
        r.splice_bars == ceil_div(r.splice as int, SPLICE_BAR as int),
        r.trim == total_perimeter(r.rooms@),
        r.area == total_area(r.rooms@),
{
    let mut out: Vec<CeilingRoom> = Vec::new();
    let mut panels = PanelCounts::zero();
    let mut splice: u64 = 0;
    let mut trim: u64 = 0;
    let mut area: u128 = 0;
    let mut i: usize = 0;
    while i < rooms.len()
        invariant
            rooms_wf(rooms@),
            i <= rooms@.len(),
            out@.len() == i,
            forall|j: int| 0 <= j < i ==> ceiling_room_spec(rooms@[j], dir, #[trigger] out@[j]),
            panels.tally() == total_panels(out@),
            splice == total_splice(out@),
            trim == total_perimeter(out@),
            area == total_area(out@),
            panels.three <= i * 17_000_000_000,
            panels.four <= i * 17_000_000_000,
            panels.five <= i * 17_000_000_000,
            panels.six <= i * 17_000_000_000,
            splice <= i * 34_000_000_000_000,
            trim <= i * 4_000_000_000,
            area <= i * 1_000_000_000_000_000_000,
        decreases rooms@.len() - i,
    {
        let room = layout_room(rooms[i], dir);
        proof {
            assert(rooms@[i as int].wf());
            assert(i + 1 <= 10_000);
        }
        panels = PanelCounts {
            three: panels.three + room.panels.three,
            four: panels.four + room.panels.four,
            five: panels.five + room.panels.five,
            six: panels.six + room.panels.six,
        };
        splice = splice + room.splice;
        trim = trim + room.perimeter;
        area = area + room.area;
        let ghost before = out@;
        out.push(room);
        proof {
            assert(out@.drop_last() == before);
        }
        i = i + 1;
    }
    let splice_bars = (splice + SPLICE_BAR - 1) / SPLICE_BAR;
    CeilingReport { rooms: out, panels, splice, splice_bars, trim, area }
}

/// A ceiling as typed: its rooms and the one direction of all panels.
#[derive(Clone, Debug)]
pub struct CeilingText {
    pub rooms: Vec<RoomText>,
    pub direction: Direction,
}

impl CeilingText {
    /// A fresh form: one blank room, panels along the longer side.
    pub fn new() -> (r: CeilingText)
        ensures
            r.rooms@.len() == 1,
            r.rooms@[0].width@.len() == 0,
            r.rooms@[0].length@.len() == 0,
            r.direction == Direction::LongSide,
    {
        let mut rooms: Vec<RoomText> = Vec::new();
        rooms.push(RoomText::empty());
        CeilingText { rooms, direction: Direction::LongSide }
    }
}

/// Reads the rooms and lays out their ceilings. A room with a side that is
/// no quantity aborts the whole estimate and is named in the error.
pub fn estimate_ceiling_text(rooms: &Vec<RoomText>, dir: Direction) -> (r: Result<CeilingReport, RoomsError>)
    ensures
        rooms@.len() > MAX_ROOMS ==> r == Err::<CeilingReport, RoomsError>(RoomsError::TooMany),
        rooms@.len() <= MAX_ROOMS ==> match parse_rooms_spec(rooms@) {
            Err(e) => r == Err::<CeilingReport, RoomsError>(e),
            Ok(v) => r matches Ok(rep) && rep.rooms@.len() == v.len()
                && (forall|i: int| 0 <= i < v.len() ==> ceiling_room_spec(v[i], dir, #[trigger] rep.rooms@[i]))
                && rep.panels.tally() == total_panels(rep.rooms@)
                && rep.splice == total_splice(rep.rooms@)
                && rep.splice_bars == ceil_div(rep.splice as int, SPLICE_BAR as int)
                && rep.trim == total_perimeter(rep.rooms@)
                && rep.area == total_area(rep.rooms@),
        },
{
    let parsed = parse_rooms(rooms)?;
    Ok(estimate_ceiling(&parsed, dir))
}

/// In every room and in either direction, the pieces of each row reach the
/// full installation side, and pass it by no more than the longest stock
/// length.
pub proof fn lemma_rows_cover_installation_side(room: Room, dir: Direction)
    requires
        room.wf(),
    ensures
        ({
            let install = sides_spec(room, dir).0 as int;
            let row = row_layout(install);
            install <= tally_length(row) <= install + STOCK_MAX
        }),
{
    let install = sides_spec(room, dir).0 as int;
    lemma_row_layout(install);
}

} // verus!
