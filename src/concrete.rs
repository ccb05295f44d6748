//! Concrete mix: from a volume and a cement:sand:stone ratio to the three
//! components, or from known amounts of the components to the volume; then
//! to bags and rounded volumes. Volumes are exact fractions of a cubic meter.

use vstd::prelude::*;
use vstd::arithmetic::div_mod::{lemma_div_denominator, lemma_div_multiples_vanish};
use crate::quantity::{ceil_div, parse_quantity, parse_quantity_spec, FieldError, Qty, MAX_UNITS, UNITS};

verus! {

/// Kilograms of sand or stone in a cubic meter.
pub const AGGREGATE_KG_PER_M3: u128 = 1_450;

/// Kilograms in a bag of sand or stone.
pub const AGGREGATE_BAG_KG: u128 = 20;

/// Kilograms in a bag of cement.
pub const CEMENT_BAG_KG: u128 = 50;

/// A cement:sand:stone ratio.
#[derive(Clone, Copy, Debug, PartialEq, Eq, Structural)]
pub struct Ratio {
    pub cement: Qty,
    pub sand: Qty,
    pub stone: Qty,
}

impl Ratio {
    /// Every part in range and above zero.
    pub open spec fn wf(self) -> bool {
        &&& self.cement.wf() && self.sand.wf() && self.stone.wf()
        &&& self.cement.units > 0 && self.sand.units > 0 && self.stone.units > 0
    }

    pub open spec fn sum(self) -> int {
        self.cement.units + self.sand.units + self.stone.units
    }
}

/// The volumes of a mix: each is that many `den`-ths of a cubic meter.
#[derive(Clone, Copy, Debug, PartialEq, Eq, Structural)]
pub struct MixVolumes {
    pub total: u128,
    pub cement: u128,
    pub sand: u128,
    pub stone: u128,
    pub den: u128,
}

impl MixVolumes {
    /// Small enough for the report's arithmetic, with a positive denominator.
    pub open spec fn wf(self) -> bool {
        &&& 1 <= self.den <= 100_000_000_000_000
        &&& self.cement <= 1_000_000_000_000_000_000
        &&& self.sand <= 1_000_000_000_000_000_000
        &&& self.stone <= 1_000_000_000_000_000_000
        &&& self.total <= 3_000_000_000_000_000_000
    }
}

pub open spec fn by_volume_spec(volume: Qty, ratio: Ratio) -> MixVolumes {
    MixVolumes {
        total: (volume.units * ratio.sum()) as u128,
        cement: (volume.units * ratio.cement.units) as u128,
        sand: (volume.units * ratio.sand.units) as u128,
        stone: (volume.units * ratio.stone.units) as u128,
        den: (ratio.sum() * UNITS) as u128,
    }
}

/// Splits `volume` cubic meters by the ratio: each component is
/// `volume * part / (sum of parts)`.
pub fn by_volume(volume: Qty, ratio: Ratio) -> (r: MixVolumes)
    requires
        volume.wf(),
        ratio.wf(),
    ensures
        r == by_volume_spec(volume, ratio),
        r.wf(),
{
    let v = volume.units as u128;
    let c = ratio.cement.units as u128;
    let s = ratio.sand.units as u128;
    let p = ratio.stone.units as u128;
    proof {
        assert(v * c <= 1_000_000_000 * 1_000_000_000) by (nonlinear_arith)
            requires v <= 1_000_000_000, c <= 1_000_000_000;
        assert(v * s <= 1_000_000_000 * 1_000_000_000) by (nonlinear_arith)
            requires v <= 1_000_000_000, s <= 1_000_000_000;
        assert(v * p <= 1_000_000_000 * 1_000_000_000) by (nonlinear_arith)
            requires v <= 1_000_000_000, p <= 1_000_000_000;
        assert(v * (c + s + p) == v * c + v * s + v * p) by (nonlinear_arith);
        assert((c + s + p) * 10_000 <= 30_000_000_000_000) by (nonlinear_arith)
            requires c + s + p <= 3_000_000_000;
    }
    MixVolumes {
        total: v * (c + s + p),
        cement: v * c,
        sand: v * s,
        stone: v * p,
        den: (c + s + p) * UNITS as u128,
    }
}

/// An amount of sand or stone: cubic meters, or bags of 20 kg.
#[derive(Clone, Copy, Debug, PartialEq, Eq, Structural)]
pub enum Amount {
    Volume(Qty),
    Bags(Qty),
}

impl Amount {
    pub open spec fn wf(self) -> bool {
        match self {
            Amount::Volume(q) => q.wf(),
            Amount::Bags(q) => q.wf(),
        }
    }
}

/// Denominator of the volumes of a mix given by amounts.
pub const AMOUNT_DEN: u128 = 14_500_000;

/// An amount in `AMOUNT_DEN`-ths of a cubic meter: bags weigh 20 kg and a
/// cubic meter 1450 kg.
pub open spec fn amount_volume(a: Amount) -> int {
    match a {
        Amount::Volume(q) => q.units * AGGREGATE_KG_PER_M3,
        Amount::Bags(q) => q.units * AGGREGATE_BAG_KG,
    }
}

fn amount_to_volume(a: Amount) -> (r: u128)
    requires
        a.wf(),
    ensures
        r == amount_volume(a),
        r <= 1_450_000_000_000,
{
    match a {
        Amount::Volume(q) => q.units as u128 * AGGREGATE_KG_PER_M3,
        Amount::Bags(q) => q.units as u128 * AGGREGATE_BAG_KG,
    }
}

pub open spec fn by_quantity_spec(cement: Qty, sand: Amount, stone: Amount) -> MixVolumes {
    let c = cement.units * AGGREGATE_KG_PER_M3;
    MixVolumes {
        total: (c + amount_volume(sand) + amount_volume(stone)) as u128,
        cement: c as u128,
        sand: amount_volume(sand) as u128,
        stone: amount_volume(stone) as u128,
        den: AMOUNT_DEN,
    }
}

/// The mix of known amounts: `cement` cubic meters of cement with the sand
/// and stone; its volume is the sum of the three.
pub fn by_quantity(cement: Qty, sand: Amount, stone: Amount) -> (r: MixVolumes)
    requires
        cement.wf(),
        sand.wf(),
        stone.wf(),
    ensures
        r == by_quantity_spec(cement, sand, stone),
        r.wf(),
{
    let c = cement.units as u128 * AGGREGATE_KG_PER_M3;
    let s = amount_to_volume(sand);
    let p = amount_to_volume(stone);
    MixVolumes { total: c + s + p, cement: c, sand: s, stone: p, den: AMOUNT_DEN }
}

/// What to buy for a mix.
#[derive(Clone, Copy, Debug, PartialEq, Eq, Structural)]
pub struct ConcreteReport {
    pub volumes: MixVolumes,
    /// Bags of 50 kg of cement.
    pub cement_bags: u128,
    /// Sand in half cubic meters, rounded up.
    pub sand_half_m3: u128,
    /// Bags of 20 kg of sand.
    pub sand_bags: u128,
    /// Stone in half cubic meters, rounded up.
    pub stone_half_m3: u128,
    /// Bags of 20 kg of stone.
    pub stone_bags: u128,
}

pub open spec fn report_spec(m: MixVolumes) -> ConcreteReport {
    ConcreteReport {
        volumes: m,
        cement_bags: ceil_div(m.cement * AGGREGATE_KG_PER_M3, m.den * CEMENT_BAG_KG) as u128,
        sand_half_m3: ceil_div(m.sand * 2, m.den as int) as u128,
        sand_bags: ceil_div(m.sand * AGGREGATE_KG_PER_M3, m.den * AGGREGATE_BAG_KG) as u128,
        stone_half_m3: ceil_div(m.stone * 2, m.den as int) as u128,
        stone_bags: ceil_div(m.stone * AGGREGATE_KG_PER_M3, m.den * AGGREGATE_BAG_KG) as u128,
    }
}

fn ceil_div_exec(a: u128, b: u128) -> (r: u128)
    requires
        1 <= b <= 100_000_000_000_000_000_000,
        a <= 10_000_000_000_000_000_000_000,
    ensures
        r == ceil_div(a as int, b as int),
{
    (a + b - 1) / b
}

/// Bags and rounded volumes for a mix. The ratio that the mix realizes is
/// `1 : sand / cement : stone / cement`.
pub fn mix_report(m: MixVolumes) -> (r: ConcreteReport)
    requires
        m.wf(),
    ensures
        r == report_spec(m),
{
    ConcreteReport {
        volumes: m,
        cement_bags: ceil_div_exec(m.cement * AGGREGATE_KG_PER_M3, m.den * CEMENT_BAG_KG),
        sand_half_m3: ceil_div_exec(m.sand * 2, m.den),
        sand_bags: ceil_div_exec(m.sand * AGGREGATE_KG_PER_M3, m.den * AGGREGATE_BAG_KG),
        stone_half_m3: ceil_div_exec(m.stone * 2, m.den),
        stone_bags: ceil_div_exec(m.stone * AGGREGATE_KG_PER_M3, m.den * AGGREGATE_BAG_KG),
    }
}

/// Splitting a volume by any ratio gives components that add up to exactly
/// that volume.
pub proof fn lemma_by_volume_sums_to_volume(volume: Qty, ratio: Ratio)
    requires
        volume.wf(),
        ratio.wf(),
    ensures
        ({
            let m = by_volume_spec(volume, ratio);
            &&& m.cement + m.sand + m.stone == m.total
            &&& m.total * UNITS == volume.units * m.den
        }),
{
    let v = volume.units as int;
    let (c, s, p) = (ratio.cement.units as int, ratio.sand.units as int, ratio.stone.units as int);
    assert(v * c <= 1_000_000_000 * 1_000_000_000) by (nonlinear_arith)
        requires 0 <= v <= 1_000_000_000, 0 <= c <= 1_000_000_000;
    assert(v * s <= 1_000_000_000 * 1_000_000_000) by (nonlinear_arith)
        requires 0 <= v <= 1_000_000_000, 0 <= s <= 1_000_000_000;
    assert(v * p <= 1_000_000_000 * 1_000_000_000) by (nonlinear_arith)
        requires 0 <= v <= 1_000_000_000, 0 <= p <= 1_000_000_000;
    assert(v * c >= 0 && v * s >= 0 && v * p >= 0) by (nonlinear_arith)
        requires v >= 0, c >= 0, s >= 0, p >= 0;
    assert(v * (c + s + p) == v * c + v * s + v * p) by (nonlinear_arith);
    assert(v * (c + s + p) * 10_000 == v * ((c + s + p) * 10_000)) by (nonlinear_arith);
}

/// The default ratio, 1:2:2.
pub open spec fn default_ratio() -> Ratio {
    Ratio { cement: Qty { units: 10_000 }, sand: Qty { units: 20_000 }, stone: Qty { units: 20_000 } }
}

/// A component of a mix read to the unit (0.0001 m³), rounded down.
pub open spec fn read_to_unit(part: int, den: int) -> int {
    part * UNITS / den
}

/// Splitting a volume 1:2:2, reading each component to the unit (rounded
/// down), and mixing those amounts again gives back the volume less at most
/// three units; exactly the volume where it splits into whole units.
pub proof fn lemma_split_and_mix_round_trip(volume: Qty)
    requires
        volume.wf(),
    ensures
        ({
            let v = volume.units as int;
            let m = by_volume_spec(volume, default_ratio());
            let back = by_quantity_spec(
                Qty { units: read_to_unit(m.cement as int, m.den as int) as u64 },
                Amount::Volume(Qty { units: read_to_unit(m.sand as int, m.den as int) as u64 }),
                Amount::Volume(Qty { units: read_to_unit(m.stone as int, m.den as int) as u64 }),
            );
            &&& back.total * UNITS <= v * back.den < back.total * UNITS + 3 * back.den
            &&& v % 5 == 0 ==> back.total * UNITS == v * back.den
        }),
{
    let v = volume.units as int;
    let m = by_volume_spec(volume, default_ratio());
    assert(m.den == 500_000_000);
    assert(m.cement == v * 10_000);
    assert(m.sand == v * 20_000);
    assert(m.stone == v * 20_000);
    lemma_div_denominator(v * 100_000_000, 100_000_000, 5);
    lemma_div_multiples_vanish(v, 100_000_000);
    lemma_div_denominator(2 * v * 100_000_000, 100_000_000, 5);
    lemma_div_multiples_vanish(2 * v, 100_000_000);
    assert(v * 100_000_000 == 100_000_000 * v);
    assert(2 * v * 100_000_000 == 100_000_000 * (2 * v));
    assert(read_to_unit(m.cement as int, m.den as int) == v / 5);
    assert(read_to_unit(m.sand as int, m.den as int) == 2 * v / 5);
    let c = v / 5;
    let s = 2 * v / 5;
    assert(c + s + s <= v < c + s + s + 3);
    assert(v % 5 == 0 ==> c + s + s == v);
}

/// Where a form's ratio part is left out or unreadable, its default stands.
pub open spec fn ratio_part_spec(s: Seq<char>, default_units: u64) -> Qty {
    match parse_quantity_spec(s) {
        Ok(q) => q,
        Err(_) => Qty { units: default_units },
    }
}

/// How a concrete form is read.
#[derive(Clone, Copy, Debug, PartialEq, Eq, Structural)]
pub enum ConcreteMode {
    ByVolume,
    ByQuantity,
}

/// A concrete form as typed.
#[derive(Clone, Debug)]
pub struct ConcreteText {
    pub mode: ConcreteMode,
    /// Volume of concrete, in cubic meters.
    pub volume: String,
    /// Cement, in cubic meters.
    pub cement: String,
    /// Sand in cubic meters, or else in bags.
    pub sand_m3: String,
    pub sand_bags: String,
    /// Stone in cubic meters, or else in bags.
    pub stone_m3: String,
    pub stone_bags: String,
    /// The ratio, cement:sand:stone.
    pub ratio_cement: String,
    pub ratio_sand: String,
    pub ratio_stone: String,
}

impl ConcreteText {
    /// A fresh form: by volume, ratio 1:2:2, every amount empty.
    pub fn new() -> (r: ConcreteText)
        ensures
            r.mode == ConcreteMode::ByVolume,
            r.volume@.len() == 0,
            r.cement@.len() == 0,
            r.sand_m3@.len() == 0,
            r.sand_bags@.len() == 0,
            r.stone_m3@.len() == 0,
            r.stone_bags@.len() == 0,
            r.ratio_cement@ == "1"@,
            r.ratio_sand@ == "2"@,
            r.ratio_stone@ == "2"@,
    {
        ConcreteText {
            mode: ConcreteMode::ByVolume,
            volume: String::new(),
            cement: String::new(),
            sand_m3: String::new(),
            sand_bags: String::new(),
            stone_m3: String::new(),
            stone_bags: String::new(),
            ratio_cement: String::from_str("1"),
            ratio_sand: String::from_str("2"),
            ratio_stone: String::from_str("2"),
        }
    }
}

/// A field of the concrete form.
#[derive(Clone, Copy, Debug, PartialEq, Eq, Structural)]
pub enum ConcreteField {
    Volume,
    Cement,
    SandVolume,
    SandBags,
    StoneVolume,
    StoneBags,
}

/// Why a concrete estimate failed.
#[derive(Clone, Copy, Debug, PartialEq, Eq, Structural)]
pub enum ConcreteError {
    Field { field: ConcreteField, error: FieldError },
    /// Neither a volume nor bags of sand.
    MissingSand,
    /// Neither a volume nor bags of stone.
    MissingStone,
    /// A part of the ratio is zero.
    ZeroRatioPart,
    /// No cement, so no ratio to report.
    ZeroCement,
}

pub open spec fn concrete_field_spec(s: Seq<char>, f: ConcreteField) -> Result<Qty, ConcreteError> {
    match parse_quantity_spec(s) {
        Ok(q) => Ok(q),
        Err(e) => Err(ConcreteError::Field { field: f, error: e }),
    }
}

/// An amount: the volume where one is typed, else the bags, else `missing`.
pub open spec fn amount_spec(
    m3: Seq<char>,
    bags: Seq<char>,
    m3_field: ConcreteField,
    bags_field: ConcreteField,
    missing: ConcreteError,
) -> Result<Amount, ConcreteError> {
    if m3.len() > 0 {
        match concrete_field_spec(m3, m3_field) {
            Ok(q) => Ok(Amount::Volume(q)),
            Err(e) => Err(e),
        }
    } else if bags.len() > 0 {
        match concrete_field_spec(bags, bags_field) {
            Ok(q) => Ok(Amount::Bags(q)),
            Err(e) => Err(e),
        }
    } else {
        Err(missing)
    }
}

pub open spec fn form_ratio_spec(t: ConcreteText) -> Ratio {
    Ratio {
        cement: ratio_part_spec(t.ratio_cement@, 10_000),
        sand: ratio_part_spec(t.ratio_sand@, 20_000),
        stone: ratio_part_spec(t.ratio_stone@, 20_000),
    }
}

/// The mix that a form describes.
pub open spec fn mix_spec(t: ConcreteText) -> Result<MixVolumes, ConcreteError> {
    match t.mode {
        ConcreteMode::ByVolume => match concrete_field_spec(t.volume@, ConcreteField::Volume) {
            Err(e) => Err(e),
            Ok(v) => {
                let ratio = form_ratio_spec(t);
                if ratio.cement.units == 0 || ratio.sand.units == 0 || ratio.stone.units == 0 {
                    Err(ConcreteError::ZeroRatioPart)
                } else {
                    Ok(by_volume_spec(v, ratio))
                }
            },
        },
        ConcreteMode::ByQuantity => match concrete_field_spec(t.cement@, ConcreteField::Cement) {
            Err(e) => Err(e),
            Ok(c) => match amount_spec(
                t.sand_m3@,
                t.sand_bags@,
                ConcreteField::SandVolume,
                ConcreteField::SandBags,
                ConcreteError::MissingSand,
            ) {
                Err(e) => Err(e),
                Ok(s) => match amount_spec(
                    t.stone_m3@,
                    t.stone_bags@,
                    ConcreteField::StoneVolume,
                    ConcreteField::StoneBags,
                    ConcreteError::MissingStone,
                ) {
                    Err(e) => Err(e),
                    Ok(p) => Ok(by_quantity_spec(c, s, p)),
                },
            },
        },
    }
}

/// The outcome of a concrete estimate on a form.
pub open spec fn concrete_text_spec(t: ConcreteText) -> Result<ConcreteReport, ConcreteError> {
    match mix_spec(t) {
        Err(e) => Err(e),
        Ok(m) => if m.cement == 0 {
            Err(ConcreteError::ZeroCement)
        } else {
            Ok(report_spec(m))
        },
    }
}

fn concrete_field(s: &String, f: ConcreteField) -> (r: Result<Qty, ConcreteError>)
    ensures
        r == concrete_field_spec(s@, f),
        r matches Ok(q) ==> q.wf(),
{
    match parse_quantity(s.as_str()) {
        Ok(q) => Ok(q),
        Err(e) => Err(ConcreteError::Field { field: f, error: e }),
    }
}

fn ratio_part(s: &String, default_units: u64) -> (r: Qty)
    requires
        default_units <= MAX_UNITS,
    ensures
        r == ratio_part_spec(s@, default_units),
        r.wf(),
{
    match parse_quantity(s.as_str()) {
        Ok(q) => q,
        Err(_) => Qty { units: default_units },
    }
}

fn read_amount(
    m3: &String,
    bags: &String,
    m3_field: ConcreteField,
    bags_field: ConcreteField,
    missing: ConcreteError,
) -> (r: Result<Amount, ConcreteError>)
    ensures
        r == amount_spec(m3@, bags@, m3_field, bags_field, missing),
        r matches Ok(a) ==> a.wf(),
{
    if m3.as_str().unicode_len() > 0 {
        let q = concrete_field(m3, m3_field)?;
        Ok(Amount::Volume(q))
    } else if bags.as_str().unicode_len() > 0 {
        let q = concrete_field(bags, bags_field)?;
        Ok(Amount::Bags(q))
    } else {
        Err(missing)
    }
}

fn read_mix(t: &ConcreteText) -> (r: Result<MixVolumes, ConcreteError>)
    ensures
        r == mix_spec(*t),
        r matches Ok(m) ==> m.wf(),
{
    match t.mode {
        ConcreteMode::ByVolume => {
            let v = concrete_field(&t.volume, ConcreteField::Volume)?;
            let ratio = Ratio {
                cement: ratio_part(&t.ratio_cement, 10_000),
                sand: ratio_part(&t.ratio_sand, 20_000),
                stone: ratio_part(&t.ratio_stone, 20_000),
            };
            if ratio.cement.units == 0 || ratio.sand.units == 0 || ratio.stone.units == 0 {
                return Err(ConcreteError::ZeroRatioPart);
            }
            Ok(by_volume(v, ratio))
        },
        ConcreteMode::ByQuantity => {
            let c = concrete_field(&t.cement, ConcreteField::Cement)?;
            let s = read_amount(
                &t.sand_m3,
                &t.sand_bags,
                ConcreteField::SandVolume,
                ConcreteField::SandBags,
                ConcreteError::MissingSand,
            )?;
            let p = read_amount(
                &t.stone_m3,
                &t.stone_bags,
                ConcreteField::StoneVolume,
                ConcreteField::StoneBags,
                ConcreteError::MissingStone,
            )?;
            Ok(by_quantity(c, s, p))
        },
    }
}

/// Reads a concrete form and reports what to buy. A mix without cement is
/// refused, since the ratio it realizes is reported against the cement.
pub fn estimate_concrete(t: &ConcreteText) -> (r: Result<ConcreteReport, ConcreteError>)
    ensures
        r == concrete_text_spec(*t),
{
    let m = read_mix(t)?;
    if m.cement == 0 {
        return Err(ConcreteError::ZeroCement);
    }
    Ok(mix_report(m))
}

} // verus!
