//! Roof slabs of trellis beams with ceramic fillers, or of beams with foam
//! blocks: beams per room, grouped by length, and filler elements.

use vstd::prelude::*;
use std::collections::BTreeMap;
use crate::quantity::{ceil_div, MAX_UNITS, SQUARE_UNITS};
use crate::room::{parse_rooms, parse_rooms_spec, rooms_wf, sides, sides_spec, Direction, Room, RoomText, RoomsError, MAX_ROOMS};

verus! {

broadcast use vstd::laws_cmp::group_laws_cmp, vstd::std_specs::btree::group_btree_axioms;

/// The kind of slab.
#[derive(Clone, Copy, Debug, PartialEq, Eq, Structural)]
pub enum SlabKind {
    /// Trellis beams with ceramic fillers.
    Trellis,
    /// Beams with foam blocks.
    Foam,
}

/// Step that beam lengths are rounded up to, in units (0.2 m).
pub const LENGTH_STEP: u64 = 2_000;

/// Spacing of trellis beams, in units (0.37 m).
pub const TRELLIS_MODULE: u64 = 3_700;

/// Spacing of beams with foam blocks, in units (0.42 m).
pub const FOAM_MODULE: u64 = 4_200;

/// Ceramic fillers per square meter of trellis slab.
pub const TRELLIS_FILLERS_PER_M2: u128 = 13;

/// Length of a foam block, in units (0.5 m).
pub const FOAM_BLOCK_LENGTH: u128 = 5_000;

/// Most fillers that one room can take.
pub const ROOM_ELEMENTS_MAX: u64 = 200_000_000_000;

/// Most beams that one room can take.
pub const ROOM_BEAMS_MAX: u64 = 300_000;

pub open spec fn module_of(kind: SlabKind) -> int {
    match kind {
        SlabKind::Trellis => TRELLIS_MODULE as int,
        SlabKind::Foam => FOAM_MODULE as int,
    }
}

/// A room of a slab, with the direction its beams run in.
#[derive(Clone, Copy, Debug, PartialEq, Eq, Structural)]
pub struct SlabRoom {
    pub room: Room,
    pub direction: Direction,
}

/// The slab of one room.
#[derive(Clone, Copy, Debug, PartialEq, Eq, Structural)]
pub struct SlabRoomEstimate {
    /// Side across the beams, rounded up to whole beam spacings, in units.
    pub adjusted_width: u64,
    /// Beam length: the side along the beams rounded up to 0.2 m, in units.
    pub adjusted_length: u64,
    pub beams: u64,
    /// Ceramic fillers or foam blocks.
    pub elements: u64,
    /// Area of the room as measured, in square units.
    pub area: u128,
}

/// `length` rounded up to a multiple of `step`.
pub open spec fn round_up(length: int, step: int) -> int {
    ceil_div(length, step) * step
}

/// Fillers for a slab of `beams` beams of `adjusted_length` units over a
/// width of `adjusted_width` units.
pub open spec fn elements_spec(kind: SlabKind, adjusted_width: int, adjusted_length: int, beams: int) -> int {
    match kind {
        SlabKind::Trellis => ceil_div(
            adjusted_width * adjusted_length * TRELLIS_FILLERS_PER_M2,
            SQUARE_UNITS as int,
        ),
        SlabKind::Foam => ceil_div(beams * adjusted_length, FOAM_BLOCK_LENGTH as int),
    }
}

/// The slab of one room: beams run along the side that the room's
/// direction picks and are spaced across the other.
pub open spec fn slab_room_spec(kind: SlabKind, r: SlabRoom) -> SlabRoomEstimate {
    let (install, across) = sides_spec(r.room, r.direction);
    let adjusted_length = round_up(install as int, LENGTH_STEP as int);
    let beams = ceil_div(across as int, module_of(kind));
    let adjusted_width = beams * module_of(kind);
    SlabRoomEstimate {
        adjusted_width: adjusted_width as u64,
        adjusted_length: adjusted_length as u64,
        beams: beams as u64,
        elements: elements_spec(kind, adjusted_width, adjusted_length, beams) as u64,
        area: r.room.area_spec() as u128,
    }
}

/// Rounds `length` up to a multiple of `step`.
pub fn round_up_to_step(length: u64, step: u64) -> (r: u64)
    requires
        length <= MAX_UNITS,
        1 <= step <= 10_000,
    ensures
        r == round_up(length as int, step as int),
        length <= r < length + step,
{
    let n = (length + step - 1) / step;
    proof {
        let (a, s, k) = (length as int, step as int, n as int);
        assert(a <= k * s < a + s) by (nonlinear_arith)
            requires k == (a + s - 1) / s, s >= 1, a >= 0;
    }
    n * step
}

/// Beams that span `across` units at `module` spacing, and the width they
/// cover.
pub fn beams_for(across: u64, module: u64) -> (r: (u64, u64))
    requires
        across <= MAX_UNITS,
        3_700 <= module <= 10_000,
    ensures
        r.0 == ceil_div(across as int, module as int),
        r.1 == r.0 * module,
        r.0 <= ROOM_BEAMS_MAX,
        across <= r.1 < across + module,
{
    let n = (across + module - 1) / module;
    proof {
        let (a, s, k) = (across as int, module as int, n as int);
        assert(a <= k * s < a + s) by (nonlinear_arith)
            requires k == (a + s - 1) / s, s >= 1, a >= 0;
        assert(k <= 300_000) by (nonlinear_arith)
            requires k == (a + s - 1) / s, s >= 3_700, 0 <= a <= 1_000_000_000;
    }
    (n, n * module)
}

/// Ceramic fillers for a trellis slab: 13 to the square meter, rounded up.
pub fn trellis_fillers(adjusted_width: u64, adjusted_length: u64) -> (r: u64)
    requires
        adjusted_width <= 1_000_010_000,
        adjusted_length <= 1_000_010_000,
    ensures
        r == elements_spec(SlabKind::Trellis, adjusted_width as int, adjusted_length as int, 0),
        r <= ROOM_ELEMENTS_MAX,
{
    let w = adjusted_width as u128;
    let l = adjusted_length as u128;
    proof {
        assert(w * l <= 1_000_010_000 * 1_000_010_000) by (nonlinear_arith)
            requires w <= 1_000_010_000, l <= 1_000_010_000;
    }
    let n = w * l * TRELLIS_FILLERS_PER_M2;
    let r = (n + SQUARE_UNITS - 1) / SQUARE_UNITS;
    r as u64
}

/// Foam blocks for a slab: each beam takes blocks of 0.5 m along its
/// length, rounded up over all beams.
pub fn foam_blocks(beams: u64, adjusted_length: u64) -> (r: u64)
    requires
        beams <= ROOM_BEAMS_MAX,
        adjusted_length <= 1_000_010_000,
    ensures
        r == elements_spec(SlabKind::Foam, 0, adjusted_length as int, beams as int),
        r <= ROOM_ELEMENTS_MAX,
{
    let b = beams as u128;
    let l = adjusted_length as u128;
    proof {
        assert(b * l <= 300_000 * 1_000_010_000) by (nonlinear_arith)
            requires b <= 300_000, l <= 1_000_010_000;
    }
    let r = (b * l + FOAM_BLOCK_LENGTH - 1) / FOAM_BLOCK_LENGTH;
    r as u64
}

/// Estimates the slab of one room.
pub fn estimate_slab_room(kind: SlabKind, r: SlabRoom) -> (e: SlabRoomEstimate)
    requires
        r.room.wf(),
    ensures
        e == slab_room_spec(kind, r),
        e.beams <= ROOM_BEAMS_MAX,
        e.elements <= ROOM_ELEMENTS_MAX,
        e.area <= 1_000_000_000_000_000_000,
{
    let (install, across) = sides(r.room, r.direction);
    let module = match kind {
        SlabKind::Trellis => TRELLIS_MODULE,
        SlabKind::Foam => FOAM_MODULE,
    };
    let adjusted_length = round_up_to_step(install, LENGTH_STEP);
    let (beams, adjusted_width) = beams_for(across, module);
    let elements = match kind {
        SlabKind::Trellis => trellis_fillers(adjusted_width, adjusted_length),
        SlabKind::Foam => foam_blocks(beams, adjusted_length),
    };
    SlabRoomEstimate { adjusted_width, adjusted_length, beams, elements, area: r.room.area() }
}

/// Beams over all rooms, by beam length.
pub open spec fn beam_totals(s: Seq<SlabRoomEstimate>) -> Map<u64, u64>
    decreases s.len(),
{
    if s.len() == 0 {
        Map::empty()
    } else {
        let m = beam_totals(s.drop_last());
        let k = s.last().adjusted_length;
        let before = if m.contains_key(k) { m[k] as int } else { 0 };
        m.insert(k, (before + s.last().beams) as u64)
    }
}

pub open spec fn total_area(s: Seq<SlabRoomEstimate>) -> int
    decreases s.len(),
{
    if s.len() == 0 {
        0
    } else {
        total_area(s.drop_last()) + s.last().area
    }
}

pub open spec fn total_elements(s: Seq<SlabRoomEstimate>) -> int
    decreases s.len(),
{
    if s.len() == 0 {
        0
    } else {
        total_elements(s.drop_last()) + s.last().elements
    }
}

/// The slab estimate of a list of rooms.
#[derive(Clone, Debug)]
pub struct SlabReport {
    pub kind: SlabKind,
    pub rooms: Vec<SlabRoomEstimate>,
    /// Beams to buy, by beam length in units.
    pub beams_by_length: BTreeMap<u64, u64>,
    /// Area of all rooms as measured, in square units.
    pub area: u128,
    /// Fillers or foam blocks over all rooms.
    pub elements: u64,
}

pub open spec fn slab_rooms_wf(s: Seq<SlabRoom>) -> bool {
    s.len() <= MAX_ROOMS && forall|i: int| 0 <= i < s.len() ==> #[trigger] s[i].room.wf()
}

/// Estimates the slab of each room and adds them up; beams of equal length
/// from different rooms are bought together.
pub fn estimate_slab(kind: SlabKind, rooms: &Vec<SlabRoom>) -> (r: SlabReport)
    requires
        slab_rooms_wf(rooms@),
    ensures
        r.kind == kind,
        r.rooms@ == rooms@.map_values(|x: SlabRoom| slab_room_spec(kind, x)),
        r.beams_by_length@ == beam_totals(r.rooms@),
        r.area == total_area(r.rooms@),
        r.elements == total_elements(r.rooms@),
{
    let mut out: Vec<SlabRoomEstimate> = Vec::new();
    let mut beams: BTreeMap<u64, u64> = BTreeMap::new();
    let mut area: u128 = 0;
    let mut elements: u64 = 0;
    let mut i: usize = 0;
    while i < rooms.len()
        invariant
            slab_rooms_wf(rooms@),
            i <= rooms@.len(),
            out@ == rooms@.subrange(0, i as int).map_values(|x: SlabRoom| slab_room_spec(kind, x)),
            beams@ == beam_totals(out@),
            forall|k: u64| #[trigger] beams@.contains_key(k) ==> beams@[k] <= i * 300_000,
            area == total_area(out@),
            area <= i * 1_000_000_000_000_000_000,
            elements == total_elements(out@),
            elements <= i * 200_000_000_000,
        decreases rooms@.len() - i,
    {
        proof {
            assert(rooms@[i as int].room.wf());
        }
        let e = estimate_slab_room(kind, rooms[i]);
        let before = match beams.get(&e.adjusted_length) {
            Some(n) => *n,
            None => 0,
        };
        beams.insert(e.adjusted_length, before + e.beams);
        area = area + e.area;
        elements = elements + e.elements;
        let ghost old_out = out@;
        out.push(e);
        proof {
            assert(out@.drop_last() == old_out);
            assert(rooms@.subrange(0, i + 1).map_values(|x: SlabRoom| slab_room_spec(kind, x))
                == old_out.push(e));
        }
        i = i + 1;
    }
    proof {
        assert(rooms@.subrange(0, i as int) == rooms@);
    }
    SlabReport { kind, rooms: out, beams_by_length: beams, area, elements }
}

/// A slab as typed: its kind, and each room with the direction of its
/// beams.
#[derive(Clone, Debug)]
pub struct SlabText {
    pub kind: SlabKind,
    pub rooms: Vec<RoomText>,
    pub directions: Vec<Direction>,
}

impl SlabText {
    /// A fresh form: a trellis slab with one blank room, beams along its
    /// shorter side.
    pub fn new() -> (r: SlabText)
        ensures
            r.kind == SlabKind::Trellis,
            r.rooms@.len() == 1,
            r.rooms@[0].width@.len() == 0,
            r.rooms@[0].length@.len() == 0,
            r.directions@ == seq![Direction::ShortSide],
    {
        let mut rooms: Vec<RoomText> = Vec::new();
        rooms.push(RoomText::empty());
        let mut directions: Vec<Direction> = Vec::new();
        directions.push(Direction::ShortSide);
        SlabText { kind: SlabKind::Trellis, rooms, directions }
    }
}

/// The slab rooms read from text, each with its direction.
pub open spec fn slab_text_spec(
    kind: SlabKind,
    rooms: Seq<RoomText>,
    directions: Seq<Direction>,
) -> Result<Seq<SlabRoom>, RoomsError> {
    if rooms.len() > MAX_ROOMS {
        Err(RoomsError::TooMany)
    } else {
        match parse_rooms_spec(rooms) {
            Err(e) => Err(e),
            Ok(v) => Ok(Seq::new(v.len(), |i: int| SlabRoom { room: v[i], direction: directions[i] })),
        }
    }
}

/// Reads the rooms of a slab and estimates it. A room with a side that is
/// no quantity aborts the whole estimate and is named in the error.
pub fn estimate_slab_text(kind: SlabKind, rooms: &Vec<RoomText>, directions: &Vec<Direction>) -> (r: Result<SlabReport, RoomsError>)
    requires
        rooms@.len() == directions@.len(),
    ensures
        match slab_text_spec(kind, rooms@, directions@) {
            Err(e) => r == Err::<SlabReport, RoomsError>(e),
            Ok(v) => r matches Ok(rep) && rep.kind == kind
                && rep.rooms@ == v.map_values(|x: SlabRoom| slab_room_spec(kind, x))
                && rep.beams_by_length@ == beam_totals(rep.rooms@)
                && rep.area == total_area(rep.rooms@)
                && rep.elements == total_elements(rep.rooms@),
        },
{
    let parsed = parse_rooms(rooms)?;
    let mut v: Vec<SlabRoom> = Vec::new();
    let mut i: usize = 0;
    while i < parsed.len()
        invariant
            parsed@.len() == rooms@.len() == directions@.len(),
            rooms_wf(parsed@),
            i <= parsed@.len(),
            v@ == Seq::new(i as nat, |j: int| SlabRoom { room: parsed@[j], direction: directions@[j] }),
        decreases parsed@.len() - i,
    {
        v.push(SlabRoom { room: parsed[i], direction: directions[i] });
        i = i + 1;
    }
    proof {
        assert(rooms_wf(parsed@));
        assert forall|j: int| 0 <= j < v@.len() implies #[trigger] v@[j].room.wf() by {
            assert(parsed@[j].wf());
        }
    }
    Ok(estimate_slab(kind, &v))
}

/// Swapping the width and the length of a room changes neither its beams
/// nor its fillers, whichever direction the beams run in: each direction
/// picks its side by length, not by name.
pub proof fn lemma_slab_swap_symmetric(kind: SlabKind, room: Room, dir: Direction)
    requires
        room.wf(),
    ensures
        ({
            let swapped = Room { width: room.length, length: room.width };
            slab_room_spec(kind, SlabRoom { room, direction: dir }) == slab_room_spec(
                kind,
                SlabRoom { room: swapped, direction: dir },
            )
        }),
{
    let swapped = Room { width: room.length, length: room.width };
    assert(room.area_spec() == swapped.area_spec()) by (nonlinear_arith)
        requires room.area_spec() == room.width.units * room.length.units,
            swapped.area_spec() == room.length.units * room.width.units;
}

} // verus!
