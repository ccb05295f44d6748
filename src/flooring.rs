//! Flooring boxes, mortar and grout over the area of a set of rooms, and
//! the choice of which of the three to compute.

use vstd::prelude::*;
use crate::quantity::{ceil_div, parse_quantity, parse_quantity_spec, FieldError, Qty, MAX_UNITS, SQUARE_UNITS, UNITS};
use crate::room::{parse_rooms, parse_rooms_spec, rooms_wf, Room, RoomText, RoomsError, MAX_ROOMS};
use crate::selection::Selection;
use crate::settings::{ApplicationMethod, Settings};

verus! {

/// Mass units in one kilogram, for a mass that is an area times a
/// factor per square meter.
pub const MASS_UNITS: u128 = 1_000_000_000_000;

/// Kilograms in one bag of mortar.
pub const MORTAR_BAG_KG: u128 = 20;

/// Sum of the areas of the rooms, in square units.
pub open spec fn rooms_area(s: Seq<Room>) -> int
    decreases s.len(),
{
    if s.len() == 0 {
        0
    } else {
        rooms_area(s.drop_last()) + s.last().area_spec()
    }
}

/// Most area that `MAX_ROOMS` rooms can have, in square units.
pub const MAX_AREA: u128 = 10_000_000_000_000_000_000_000;

/// Sums the areas of the rooms.
pub fn total_area(rooms: &Vec<Room>) -> (r: u128)
    requires
        rooms_wf(rooms@),
    ensures
        r == rooms_area(rooms@),
        r <= MAX_AREA,
{
    let mut a: u128 = 0;
    let mut i: usize = 0;
    while i < rooms.len()
        invariant
            rooms_wf(rooms@),
            i <= rooms@.len(),
            a == rooms_area(rooms@.subrange(0, i as int)),
            a <= i * 1_000_000_000_000_000_000,
        decreases rooms@.len() - i,
    {
        proof {
            assert(rooms@[i as int].wf());
            assert(rooms@.subrange(0, i + 1).drop_last() == rooms@.subrange(0, i as int));
        }
        a = a + rooms[i].area();
        i = i + 1;
    }
    proof {
        assert(rooms@.subrange(0, i as int) == rooms@);
    }
    a
}

/// Flooring boxes for an area.
#[derive(Clone, Copy, Debug, PartialEq, Eq, Structural)]
pub struct BoxEstimate {
    /// Boxes to buy.
    pub boxes: u128,
    /// Area that the boxes cover, in square units.
    pub covered: u128,
    /// What is left over, in square units.
    pub surplus: u128,
}

pub open spec fn box_estimate_spec(area: int, box_area: Qty) -> BoxEstimate {
    let per_box = box_area.units * UNITS;
    let boxes = ceil_div(area, per_box);
    BoxEstimate {
        boxes: boxes as u128,
        covered: (boxes * per_box) as u128,
        surplus: (boxes * per_box - area) as u128,
    }
}

/// Boxes of `box_area` square meters (box_area nonzero) that cover an area
/// of `area` square units, and the surplus.
pub fn box_estimate(area: u128, box_area: Qty) -> (r: BoxEstimate)
    requires
        area <= MAX_AREA,
        box_area.wf(),
        box_area.units > 0,
    ensures
        r == box_estimate_spec(area as int, box_area),
        r.boxes == ceil_div(area as int, box_area.units * UNITS),
        r.covered == r.boxes * (box_area.units * UNITS),
        r.surplus == r.covered - area,
{
    let per_box = box_area.units as u128 * UNITS as u128;
    let boxes = (area + per_box - 1) / per_box;
    proof {
        let (a, p, b) = (area as int, per_box as int, boxes as int);
        assert(b * p <= a + p) by (nonlinear_arith)
            requires b == (a + p - 1) / p, p > 0, a >= 0;
        assert(b * p >= a) by (nonlinear_arith)
            requires b == (a + p - 1) / p, p > 0, a >= 0;
    }
    let covered = boxes * per_box;
    BoxEstimate { boxes, covered, surplus: covered - area }
}

/// Mortar for an area.
#[derive(Clone, Copy, Debug, PartialEq, Eq, Structural)]
pub struct MortarEstimate {
    /// Mass of mortar, in mass units (`MASS_UNITS` to the kilogram).
    pub mass: u128,
    /// Bags of 20 kg.
    pub bags: u128,
}

pub open spec fn mortar_estimate_spec(area: int, factor: Qty) -> MortarEstimate {
    let mass = area * factor.units;
    MortarEstimate {
        mass: mass as u128,
        bags: ceil_div(mass, MORTAR_BAG_KG * MASS_UNITS) as u128,
    }
}

/// Mortar at `factor` kilograms per square meter over `area` square units.
pub fn mortar_estimate(area: u128, factor: Qty) -> (r: MortarEstimate)
    requires
        area <= MAX_AREA,
        factor.wf(),
    ensures
        r == mortar_estimate_spec(area as int, factor),
        r.mass == area * factor.units,
        r.bags == ceil_div(r.mass as int, MORTAR_BAG_KG * MASS_UNITS),
{
    proof {
        assert(area * factor.units <= MAX_AREA * MAX_UNITS) by (nonlinear_arith)
            requires area <= MAX_AREA, factor.units <= MAX_UNITS;
    }
    let mass = area * factor.units as u128;
    let per_bag = MORTAR_BAG_KG * MASS_UNITS;
    MortarEstimate { mass, bags: (mass + per_bag - 1) / per_bag }
}

/// The tile and joint that grout is computed for. Tile sides, thickness and
/// joint are in millimeters.
#[derive(Clone, Copy, Debug, PartialEq, Eq, Structural)]
pub struct Tile {
    pub width: Qty,
    pub length: Qty,
    pub thickness: Qty,
    pub joint: Qty,
    pub coefficient: Qty,
}

impl Tile {
    pub open spec fn wf(self) -> bool {
        self.width.wf() && self.length.wf() && self.thickness.wf() && self.joint.wf()
            && self.coefficient.wf()
    }

    /// `(width + length) * thickness * joint * coefficient`, in units to the
    /// fourth power.
    pub open spec fn grout_numerator(self) -> int {
        (self.width.units + self.length.units) * self.thickness.units * self.joint.units
            * self.coefficient.units
    }

    /// `width * length`, in square units.
    pub open spec fn grout_denominator(self) -> int {
        self.width.units * self.length.units
    }
}

/// Grout for an area.
#[derive(Clone, Copy, Debug, PartialEq, Eq, Structural)]
pub struct GroutEstimate {
    /// Kilograms per square meter: `per_m2_num / per_m2_den`.
    pub per_m2_num: u128,
    pub per_m2_den: u128,
    /// Kilograms to buy, with 5% for waste, rounded up.
    pub total: u128,
}

/// Waste allowance on grout: 105 / 100.
pub const GROUT_WASTE_NUM: u128 = 105;

pub const GROUT_WASTE_DEN: u128 = 100;

/// The exact grout mass with waste, before rounding, is
/// `grout_total_num / grout_total_den` kilograms.
pub open spec fn grout_total_num(tile: Tile, area: int) -> int {
    tile.grout_numerator() * GROUT_WASTE_NUM * area
}

pub open spec fn grout_total_den(tile: Tile) -> int {
    tile.grout_denominator() * SQUARE_UNITS * SQUARE_UNITS * GROUT_WASTE_DEN
}

pub open spec fn grout_estimate_spec(tile: Tile, area: int) -> GroutEstimate {
    GroutEstimate {
        per_m2_num: tile.grout_numerator() as u128,
        per_m2_den: (tile.grout_denominator() * SQUARE_UNITS) as u128,
        total: ceil_div(grout_total_num(tile, area), grout_total_den(tile)) as u128,
    }
}

/// Grout per square meter `((w + l) * t * j * c) / (w * l)` and in total
/// over `area` square units, with 5% waste, rounded up. `None` where the
/// exact product `grout_total_num` passes 128 bits.
pub fn grout_estimate(area: u128, tile: Tile) -> (r: Option<GroutEstimate>)
    requires
        area <= MAX_AREA,
        tile.wf(),
        tile.width.units > 0,
        tile.length.units > 0,
    ensures
        r is None <==> grout_total_num(tile, area as int) > u128::MAX,
        r matches Some(g) ==> g == grout_estimate_spec(tile, area as int),
{
    let w = tile.width.units as u128;
    let l = tile.length.units as u128;
    let t = tile.thickness.units as u128;
    let j = tile.joint.units as u128;
    let c = tile.coefficient.units as u128;
    proof {
        assert((w + l) * t <= 2_000_000_000 * 1_000_000_000) by (nonlinear_arith)
            requires w + l <= 2_000_000_000, t <= 1_000_000_000;
        assert((w + l) * t * j <= 2_000_000_000 * 1_000_000_000 * 1_000_000_000) by (nonlinear_arith)
            requires (w + l) * t <= 2_000_000_000 * 1_000_000_000, j <= 1_000_000_000;
        assert((w + l) * t * j * c <= 2_000_000_000 * 1_000_000_000 * 1_000_000_000
            * 1_000_000_000) by (nonlinear_arith)
            requires (w + l) * t * j <= 2_000_000_000 * 1_000_000_000 * 1_000_000_000,
                c <= 1_000_000_000;
        assert(w * l <= 1_000_000_000 * 1_000_000_000) by (nonlinear_arith)
            requires w <= 1_000_000_000, l <= 1_000_000_000;
        assert(w * l >= 1) by (nonlinear_arith)
            requires w >= 1, l >= 1;
    }
    let num = (w + l) * t * j * c;
    let den = w * l;
    let waste = num * GROUT_WASTE_NUM;
    match waste.checked_mul(area) {
        None => None,
        Some(total_num) => {
            proof {
                assert(den * 1_000_000_000_000_000_000 <= 1_000_000_000_000_000_000
                    * 1_000_000_000_000_000_000) by (nonlinear_arith)
                    requires den <= 1_000_000_000_000_000_000;
            }
            let total_den = den * (SQUARE_UNITS * SQUARE_UNITS * GROUT_WASTE_DEN);
            proof {
                assert(total_num / total_den <= total_num) by (nonlinear_arith)
                    requires total_den >= 1;
                assert(total_num / total_den < u128::MAX) by (nonlinear_arith)
                    requires total_den >= 2;
            }
            let total = total_num / total_den + if total_num % total_den == 0 { 0 } else { 1 };
            proof {
                let a = total_num as int;
                let b = total_den as int;
                assert(total == (a + b - 1) / b) by (nonlinear_arith)
                    requires b > 0, a >= 0,
                        total == a / b + if a % b == 0 { 0int } else { 1int };
            }
            Some(GroutEstimate { per_m2_num: num, per_m2_den: den * SQUARE_UNITS, total })
        },
    }
}

/// A flooring estimate as typed.
#[derive(Clone, Debug)]
pub struct FlooringText {
    pub rooms: Vec<RoomText>,
    pub selection: Selection,
    /// Area of one box, in square meters.
    pub box_area: String,
    pub method: ApplicationMethod,
    /// Mortar in kilograms per square meter.
    pub mortar_factor: String,
    /// Tile sides, thickness and joint, in millimeters.
    pub tile_width: String,
    pub tile_length: String,
    pub tile_thickness: String,
    pub joint_spacing: String,
    pub grout_coefficient: String,
}

impl FlooringText {
    /// A fresh form: one empty room, flooring chosen, single-sided mortar,
    /// tiles 3 mm thick with 2 mm joints, and factors from the settings.
    pub fn with_settings(settings: &Settings) -> (r: FlooringText)
        ensures
            r.rooms@.len() == 1,
            r.rooms@[0].width@.len() == 0,
            r.rooms@[0].length@.len() == 0,
            r.selection == Selection::Flooring,
            r.box_area@.len() == 0,
            r.method == ApplicationMethod::SingleSided,
            r.mortar_factor@ == crate::settings::or_default(
                settings.single_sided_factor@,
                "5.0"@,
            ),
            r.tile_width@.len() == 0,
            r.tile_length@.len() == 0,
            r.tile_thickness@ == "3"@,
            r.joint_spacing@ == "2"@,
            r.grout_coefficient@ == crate::settings::or_default(
                settings.grout_coefficient@,
                "1.58"@,
            ),
    {
        let mut rooms: Vec<RoomText> = Vec::new();
        rooms.push(RoomText::empty());
        FlooringText {
            rooms,
            selection: Selection::Flooring,
            box_area: String::new(),
            method: ApplicationMethod::SingleSided,
            mortar_factor: settings.mortar_factor(ApplicationMethod::SingleSided),
            tile_width: String::new(),
            tile_length: String::new(),
            tile_thickness: String::from_str("3"),
            joint_spacing: String::from_str("2"),
            grout_coefficient: settings.grout_coefficient_or_default(),
        }
    }
}

/// A field of the flooring form.
#[derive(Clone, Copy, Debug, PartialEq, Eq, Structural)]
pub enum FlooringField {
    BoxArea,
    MortarFactor,
    TileWidth,
    TileLength,
    TileThickness,
    JointSpacing,
    GroutCoefficient,
}

/// Why a flooring estimate failed.
#[derive(Clone, Copy, Debug, PartialEq, Eq, Structural)]
pub enum FlooringError {
    Rooms(RoomsError),
    Field { field: FlooringField, error: FieldError },
    /// A box of zero area.
    ZeroBoxArea,
    /// A tile with a side of zero.
    ZeroTileSide,
    /// The grout total passes the range of the computation.
    GroutOutOfRange,
}

/// A flooring estimate: the area of all rooms, and each part that was asked
/// for.
#[derive(Clone, Copy, Debug, PartialEq, Eq, Structural)]
pub struct FlooringReport {
    /// Area of all rooms, in square units.
    pub area: u128,
    pub boxes: Option<BoxEstimate>,
    pub mortar: Option<MortarEstimate>,
    pub grout: Option<GroutEstimate>,
}

pub open spec fn field_spec(s: Seq<char>, f: FlooringField) -> Result<Qty, FlooringError> {
    match parse_quantity_spec(s) {
        Ok(q) => Ok(q),
        Err(e) => Err(FlooringError::Field { field: f, error: e }),
    }
}

pub open spec fn boxes_part(t: FlooringText, area: int) -> Result<Option<BoxEstimate>, FlooringError> {
    if !t.selection.flags().0 {
        Ok(None)
    } else {
        match field_spec(t.box_area@, FlooringField::BoxArea) {
            Err(e) => Err(e),
            Ok(q) => if q.units == 0 {
                Err(FlooringError::ZeroBoxArea)
            } else {
                Ok(Some(box_estimate_spec(area, q)))
            },
        }
    }
}

pub open spec fn mortar_part(t: FlooringText, area: int) -> Result<Option<MortarEstimate>, FlooringError> {
    if !t.selection.flags().1 {
        Ok(None)
    } else {
        match field_spec(t.mortar_factor@, FlooringField::MortarFactor) {
            Err(e) => Err(e),
            Ok(q) => Ok(Some(mortar_estimate_spec(area, q))),
        }
    }
}

/// The tile of the form, or the first of its fields that fails.
pub open spec fn tile_spec(t: FlooringText) -> Result<Tile, FlooringError> {
    match field_spec(t.tile_width@, FlooringField::TileWidth) {
        Err(e) => Err(e),
        Ok(w) => match field_spec(t.tile_length@, FlooringField::TileLength) {
            Err(e) => Err(e),
            Ok(l) => match field_spec(t.tile_thickness@, FlooringField::TileThickness) {
                Err(e) => Err(e),
                Ok(th) => match field_spec(t.joint_spacing@, FlooringField::JointSpacing) {
                    Err(e) => Err(e),
                    Ok(j) => match field_spec(t.grout_coefficient@, FlooringField::GroutCoefficient) {
                        Err(e) => Err(e),
                        Ok(c) => Ok(Tile { width: w, length: l, thickness: th, joint: j, coefficient: c }),
                    },
                },
            },
        },
    }
}

pub open spec fn grout_part(t: FlooringText, area: int) -> Result<Option<GroutEstimate>, FlooringError> {
    if !t.selection.flags().2 {
        Ok(None)
    } else {
        match tile_spec(t) {
            Err(e) => Err(e),
            Ok(tile) => if tile.width.units == 0 || tile.length.units == 0 {
                Err(FlooringError::ZeroTileSide)
            } else if grout_total_num(tile, area) > u128::MAX {
                Err(FlooringError::GroutOutOfRange)
            } else {
                Ok(Some(grout_estimate_spec(tile, area)))
            },
        }
    }
}

/// The outcome of a flooring estimate on a form.
pub open spec fn flooring_text_spec(t: FlooringText) -> Result<FlooringReport, FlooringError> {
    if t.rooms@.len() > MAX_ROOMS {
        Err(FlooringError::Rooms(RoomsError::TooMany))
    } else {
        match parse_rooms_spec(t.rooms@) {
            Err(e) => Err(FlooringError::Rooms(e)),
            Ok(rooms) => {
                let area = rooms_area(rooms);
                match boxes_part(t, area) {
                    Err(e) => Err(e),
                    Ok(b) => match mortar_part(t, area) {
                        Err(e) => Err(e),
                        Ok(m) => match grout_part(t, area) {
                            Err(e) => Err(e),
                            Ok(g) => Ok(FlooringReport { area: area as u128, boxes: b, mortar: m, grout: g }),
                        },
                    },
                }
            },
        }
    }
}

fn parse_field(s: &String, f: FlooringField) -> (r: Result<Qty, FlooringError>)
    ensures
        r == field_spec(s@, f),
        r matches Ok(q) ==> q.wf(),
{
    match parse_quantity(s.as_str()) {
        Ok(q) => Ok(q),
        Err(e) => Err(FlooringError::Field { field: f, error: e }),
    }
}

fn parse_tile(t: &FlooringText) -> (r: Result<Tile, FlooringError>)
    ensures
        r == tile_spec(*t),
        r matches Ok(tile) ==> tile.wf(),
{
    let w = parse_field(&t.tile_width, FlooringField::TileWidth)?;
    let l = parse_field(&t.tile_length, FlooringField::TileLength)?;
    let th = parse_field(&t.tile_thickness, FlooringField::TileThickness)?;
    let j = parse_field(&t.joint_spacing, FlooringField::JointSpacing)?;
    let c = parse_field(&t.grout_coefficient, FlooringField::GroutCoefficient)?;
    Ok(Tile { width: w, length: l, thickness: th, joint: j, coefficient: c })
}

/// Estimates what the form asks for. Rooms are read first; then, for each
/// chosen part in the order flooring, mortar, grout, its own fields. The
/// first field that fails ends the estimate with no partial result.
pub fn estimate_flooring(t: &FlooringText) -> (r: Result<FlooringReport, FlooringError>)
    ensures
        r == flooring_text_spec(*t),
{
    let rooms = match parse_rooms(&t.rooms) {
        Ok(v) => v,
        Err(e) => return Err(FlooringError::Rooms(e)),
    };
    let area = total_area(&rooms);
    let boxes = if t.selection.flooring() {
        let q = parse_field(&t.box_area, FlooringField::BoxArea)?;
        if q.units == 0 {
            return Err(FlooringError::ZeroBoxArea);
        }
        Some(box_estimate(area, q))
    } else {
        None
    };
    let mortar = if t.selection.mortar() {
        let q = parse_field(&t.mortar_factor, FlooringField::MortarFactor)?;
        Some(mortar_estimate(area, q))
    } else {
        None
    };
    let grout = if t.selection.grout() {
        let tile = parse_tile(t)?;
        if tile.width.units == 0 || tile.length.units == 0 {
            return Err(FlooringError::ZeroTileSide);
        }
        match grout_estimate(area, tile) {
            Some(g) => Some(g),
            None => return Err(FlooringError::GroutOutOfRange),
        }
    } else {
        None
    };
    Ok(FlooringReport { area, boxes, mortar, grout })
}

} // verus!
