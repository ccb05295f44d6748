//! Rectangular rooms, how their sides are read, and how they are parsed
//! from text.

use vstd::prelude::*;
use crate::quantity::{lemma_parse_quantity_wf, parse_quantity, parse_quantity_spec, FieldError, Qty};

verus! {

/// Most rooms that one estimate takes.
pub const MAX_ROOMS: usize = 10_000;

/// A rectangular room, its sides in meters.
#[derive(Clone, Copy, Debug, PartialEq, Eq, Structural)]
pub struct Room {
    pub width: Qty,
    pub length: Qty,
}

impl Room {
    pub open spec fn wf(self) -> bool {
        self.width.wf() && self.length.wf()
    }

    /// Area in square units (0.0001 m squared).
    pub open spec fn area_spec(self) -> int {
        self.width.units * self.length.units
    }

    pub fn area(&self) -> (r: u128)
        requires
            self.wf(),
        ensures
            r == self.area_spec(),
            r <= 1_000_000_000_000_000_000,
    {
        proof {
            assert(self.width.units * self.length.units <= 1_000_000_000 * 1_000_000_000)
                by (nonlinear_arith)
                requires self.width.units <= 1_000_000_000, self.length.units <= 1_000_000_000;
        }
        self.width.units as u128 * self.length.units as u128
    }
}

/// Whether work runs along the longer or along the shorter side of a room.
#[derive(Clone, Copy, Debug, PartialEq, Eq, Structural)]
pub enum Direction {
    LongSide,
    ShortSide,
}

/// The side that work runs along, and the side across it, in units.
pub open spec fn sides_spec(room: Room, dir: Direction) -> (u64, u64) {
    let w = room.width.units;
    let l = room.length.units;
    match dir {
        Direction::LongSide => if w >= l { (w, l) } else { (l, w) },
        Direction::ShortSide => if w <= l { (w, l) } else { (l, w) },
    }
}

/// The installation side and the perpendicular side of a room.
pub fn sides(room: Room, dir: Direction) -> (r: (u64, u64))
    ensures
        r == sides_spec(room, dir),
{
    let w = room.width.units;
    let l = room.length.units;
    match dir {
        Direction::LongSide => if w >= l { (w, l) } else { (l, w) },
        Direction::ShortSide => if w <= l { (w, l) } else { (l, w) },
    }
}

/// A room as typed: its two sides as text.
#[derive(Clone, Debug)]
pub struct RoomText {
    pub width: String,
    pub length: String,
}

impl RoomText {
    /// A room with both sides still blank.
    pub fn empty() -> (r: RoomText)
        ensures
            r.width@.len() == 0,
            r.length@.len() == 0,
    {
        RoomText { width: String::new(), length: String::new() }
    }
}

/// Which side of a room a field gives.
#[derive(Clone, Copy, Debug, PartialEq, Eq, Structural)]
pub enum Side {
    Width,
    Length,
}

/// Why a list of rooms could not be read.
#[derive(Clone, Copy, Debug, PartialEq, Eq, Structural)]
pub enum RoomsError {
    /// The room at `index` (from zero) has a side that is no quantity.
    Field { index: usize, side: Side, error: FieldError },
    /// More than `MAX_ROOMS` rooms.
    TooMany,
}

/// The rooms read from their texts, or the first field that fails.
pub open spec fn parse_rooms_spec(s: Seq<RoomText>) -> Result<Seq<Room>, RoomsError>
    decreases s.len(),
{
    if s.len() == 0 {
        Ok(Seq::empty())
    } else {
        let last = s.len() - 1;
        match parse_rooms_spec(s.drop_last()) {
            Err(e) => Err(e),
            Ok(v) => match parse_quantity_spec(s[last].width@) {
                Err(e) => Err(RoomsError::Field { index: last as usize, side: Side::Width, error: e }),
                Ok(w) => match parse_quantity_spec(s[last].length@) {
                    Err(e) => Err(RoomsError::Field { index: last as usize, side: Side::Length, error: e }),
                    Ok(l) => Ok(v.push(Room { width: w, length: l })),
                },
            },
        }
    }
}

/// Every room well formed, and no more than `MAX_ROOMS` of them.
pub open spec fn rooms_wf(rooms: Seq<Room>) -> bool {
    rooms.len() <= MAX_ROOMS && forall|i: int| 0 <= i < rooms.len() ==> #[trigger] rooms[i].wf()
}

proof fn lemma_parse_rooms_len(s: Seq<RoomText>)
    ensures
        parse_rooms_spec(s) matches Ok(v) ==> v.len() == s.len() && forall|i: int|
            0 <= i < v.len() ==> #[trigger] v[i].wf(),
    decreases s.len(),
{
    if s.len() > 0 {
        lemma_parse_rooms_len(s.drop_last());
        let last = s.len() - 1;
        lemma_parse_quantity_wf(s[last].width@);
        lemma_parse_quantity_wf(s[last].length@);
        if let Ok(v) = parse_rooms_spec(s) {
            if let Ok(p) = parse_rooms_spec(s.drop_last()) {
                assert forall|i: int| 0 <= i < v.len() implies #[trigger] v[i].wf() by {
                    if i < p.len() {
                        assert(v[i] == p[i]);
                    }
                }
            }
        }
    }
}

/// Reads a list of rooms. The first room with a side that is no quantity
/// aborts the whole list; more than `MAX_ROOMS` rooms are refused.
pub fn parse_rooms(raw: &Vec<RoomText>) -> (r: Result<Vec<Room>, RoomsError>)
    ensures
        raw@.len() > MAX_ROOMS ==> r == Err::<Vec<Room>, RoomsError>(RoomsError::TooMany),
        raw@.len() <= MAX_ROOMS ==> match r {
            Ok(v) => parse_rooms_spec(raw@) == Ok::<Seq<Room>, RoomsError>(v@),
            Err(e) => parse_rooms_spec(raw@) == Err::<Seq<Room>, RoomsError>(e),
        },
        r matches Ok(v) ==> rooms_wf(v@) && v@.len() == raw@.len(),
{
    if raw.len() > MAX_ROOMS {
        return Err(RoomsError::TooMany);
    }
    let mut out: Vec<Room> = Vec::new();
    let mut i: usize = 0;
    while i < raw.len()
        invariant
            i <= raw@.len() <= MAX_ROOMS,
            parse_rooms_spec(raw@.subrange(0, i as int)) == Ok::<Seq<Room>, RoomsError>(out@),
        decreases raw@.len() - i,
    {
        proof {
            assert(raw@.subrange(0, i + 1).drop_last() == raw@.subrange(0, i as int));
        }
        let w = match parse_quantity(raw[i].width.as_str()) {
            Ok(q) => q,
            Err(e) => {
                proof {
                    lemma_parse_prefix_error(raw@, i as int);
                }
                return Err(RoomsError::Field { index: i, side: Side::Width, error: e });
            },
        };
        let l = match parse_quantity(raw[i].length.as_str()) {
            Ok(q) => q,
            Err(e) => {
                proof {
                    lemma_parse_prefix_error(raw@, i as int);
                }
                return Err(RoomsError::Field { index: i, side: Side::Length, error: e });
            },
        };
        out.push(Room { width: w, length: l });
        i = i + 1;
    }
    proof {
        assert(raw@.subrange(0, raw@.len() as int) == raw@);
        lemma_parse_rooms_len(raw@);
    }
    Ok(out)
}

/// An error in a prefix is the error of the whole list.
proof fn lemma_parse_prefix_error(s: Seq<RoomText>, i: int)
    requires
        0 <= i < s.len(),
        parse_rooms_spec(s.subrange(0, i + 1)) is Err,
    ensures
        parse_rooms_spec(s) == parse_rooms_spec(s.subrange(0, i + 1)),
    decreases s.len() - i,
{
    if i + 1 == s.len() {
        assert(s.subrange(0, i + 1) == s);
    } else {
        assert(s.drop_last().subrange(0, i + 1) == s.subrange(0, i + 1));
        lemma_parse_prefix_error(s.drop_last(), i);
    }
}

} // verus!
