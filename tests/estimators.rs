use calculadora_construcao::ceiling::{estimate_ceiling, estimate_ceiling_text, layout_room};
use calculadora_construcao::concrete::{
    by_quantity, by_volume, estimate_concrete, mix_report, Amount, ConcreteError, ConcreteField,
    ConcreteMode, ConcreteText, Ratio,
};
use calculadora_construcao::decimal::{normalize_separator, parse_decimal, DecimalValue};
use calculadora_construcao::flooring::{
    box_estimate, estimate_flooring, grout_estimate, mortar_estimate, total_area, FlooringError,
    FlooringField, FlooringText, Tile,
};
use calculadora_construcao::quantity::{parse_quantity, FieldError, Qty};
use calculadora_construcao::room::{parse_rooms, Direction, Room, RoomText, RoomsError, Side};
use calculadora_construcao::selection::{Material, Selection};
use calculadora_construcao::settings::{ApplicationMethod, Settings};
use calculadora_construcao::slab::{estimate_slab, estimate_slab_text, SlabKind, SlabRoom};

fn q(units: u64) -> Qty {
    Qty { units }
}

fn room(w: u64, l: u64) -> Room {
    Room { width: q(w), length: q(l) }
}

fn text_room(w: &str, l: &str) -> RoomText {
    RoomText { width: w.to_string(), length: l.to_string() }
}

#[test]
fn decimal_accepts_comma_and_point() {
    assert_eq!(parse_decimal("1,5"), Ok(DecimalValue { mantissa: 15, scale: 1 }));
    assert_eq!(parse_decimal("1.5"), Ok(DecimalValue { mantissa: 15, scale: 1 }));
    assert_eq!(parse_decimal("-2.25"), Ok(DecimalValue { mantissa: -225, scale: 2 }));
    assert!(parse_decimal("").is_err());
    assert!(parse_decimal("abc").is_err());
    assert_eq!(normalize_separator("3,45"), "3.45");
}

#[test]
fn quantity_parsing_and_its_errors() {
    assert_eq!(parse_quantity("2,5"), Ok(q(25_000)));
    assert_eq!(parse_quantity("0.1234"), Ok(q(1_234)));
    assert_eq!(parse_quantity("0.12340"), Ok(q(1_234)));
    assert_eq!(parse_quantity("100000"), Ok(q(1_000_000_000)));
    assert_eq!(parse_quantity("0"), Ok(q(0)));
    assert_eq!(parse_quantity("x"), Err(FieldError::Invalid));
    assert_eq!(parse_quantity(""), Err(FieldError::Invalid));
    assert_eq!(parse_quantity("-1"), Err(FieldError::Negative));
    assert_eq!(parse_quantity("0.12345"), Err(FieldError::TooPrecise));
    assert_eq!(parse_quantity("100000.0001"), Err(FieldError::TooLarge));
}

#[test]
fn rooms_abort_on_first_bad_field() {
    let raw = vec![text_room("3", "4"), text_room("2,5", "abc"), text_room("x", "1")];
    assert_eq!(
        parse_rooms(&raw),
        Err(RoomsError::Field { index: 1, side: Side::Length, error: FieldError::Invalid })
    );
    let ok = vec![text_room("3", "4"), text_room("2,5", "1")];
    assert_eq!(parse_rooms(&ok), Ok(vec![room(30_000, 40_000), room(25_000, 10_000)]));
    let many: Vec<RoomText> = (0..10_001).map(|_| text_room("1", "1")).collect();
    assert_eq!(parse_rooms(&many), Err(RoomsError::TooMany));
}

fn flooring_form(selection: Selection) -> FlooringText {
    let mut t = FlooringText::with_settings(&Settings::empty());
    t.rooms = vec![text_room("3,9", "6")];
    t.selection = selection;
    t
}

#[test]
fn flooring_scenario_boxes_and_surplus() {
    let mut t = flooring_form(Selection::Flooring);
    t.box_area = "2.0".to_string();
    let r = estimate_flooring(&t).unwrap();
    assert_eq!(r.area, 2_340_000_000);
    let b = r.boxes.unwrap();
    assert_eq!(b.boxes, 12);
    assert_eq!(b.covered, 2_400_000_000);
    assert_eq!(b.surplus, 60_000_000);
    assert!(r.mortar.is_none());
    assert!(r.grout.is_none());
}

#[test]
fn box_estimate_exact_fit_has_no_surplus() {
    let b = box_estimate(400_000_000, q(20_000));
    assert_eq!(b.boxes, 2);
    assert_eq!(b.surplus, 0);
    let none = box_estimate(0, q(20_000));
    assert_eq!(none.boxes, 0);
}

#[test]
fn grout_formula_scenario() {
    let tile = Tile {
        width: q(6_000_000),
        length: q(6_000_000),
        thickness: q(80_000),
        joint: q(20_000),
        coefficient: q(15_800),
    };
    let area = 1_000_000_000u128;
    let g = grout_estimate(area, tile).unwrap();
    // (600 + 600) * 8 * 2 * 1.58 / (600 * 600) = 30336 / 360000 kg per square meter.
    assert_eq!(g.per_m2_num * 360_000, g.per_m2_den * 30_336);
    // 0.0842666... * 10 * 1.05 = 0.8848 kg, rounded up.
    assert_eq!(g.total, 1);
}

#[test]
fn grout_through_the_form() {
    let mut t = flooring_form(Selection::FlooringGrout);
    t.rooms = vec![text_room("2,5", "4")];
    t.box_area = "2".to_string();
    t.tile_width = "600".to_string();
    t.tile_length = "600".to_string();
    t.tile_thickness = "8".to_string();
    t.joint_spacing = "2".to_string();
    let r = estimate_flooring(&t).unwrap();
    assert_eq!(r.grout.unwrap().total, 1);
    assert_eq!(r.boxes.unwrap().boxes, 5);
    t.tile_width = "0".to_string();
    assert_eq!(estimate_flooring(&t), Err(FlooringError::ZeroTileSide));
    t.tile_width = "6x".to_string();
    assert_eq!(
        estimate_flooring(&t),
        Err(FlooringError::Field { field: FlooringField::TileWidth, error: FieldError::Invalid })
    );
}

#[test]
fn grout_out_of_range() {
    let big = q(1_000_000_000);
    let tile = Tile { width: big, length: big, thickness: big, joint: big, coefficient: big };
    assert_eq!(grout_estimate(1_000_000_000, tile), None);
}

#[test]
fn mortar_mass_and_bags() {
    let m = mortar_estimate(1_000_000_000, q(50_000));
    assert_eq!(m.mass, 50 * 1_000_000_000_000);
    assert_eq!(m.bags, 3);
    let mut t = flooring_form(Selection::FlooringMortar);
    t.box_area = "2".to_string();
    t.mortar_factor = "abc".to_string();
    assert_eq!(
        estimate_flooring(&t),
        Err(FlooringError::Field { field: FlooringField::MortarFactor, error: FieldError::Invalid })
    );
}

#[test]
fn flooring_errors_only_for_requested_parts() {
    let mut t = flooring_form(Selection::Flooring);
    t.box_area = "0".to_string();
    assert_eq!(estimate_flooring(&t), Err(FlooringError::ZeroBoxArea));
    t.box_area = "".to_string();
    assert_eq!(
        estimate_flooring(&t),
        Err(FlooringError::Field { field: FlooringField::BoxArea, error: FieldError::Invalid })
    );
    let mut m = flooring_form(Selection::Mortar);
    m.box_area = "not used".to_string();
    let r = estimate_flooring(&m).unwrap();
    assert!(r.boxes.is_none());
    assert_eq!(r.mortar.unwrap().bags, 6);
    let mut bad_room = flooring_form(Selection::Flooring);
    bad_room.rooms = vec![text_room("3", ""), text_room("2", "2")];
    assert_eq!(
        estimate_flooring(&bad_room),
        Err(FlooringError::Rooms(RoomsError::Field {
            index: 0,
            side: Side::Length,
            error: FieldError::Invalid
        }))
    );
}

#[test]
fn total_area_sums_measured_rooms() {
    assert_eq!(total_area(&vec![room(30_000, 40_000), room(0, 50_000)]), 1_200_000_000);
    assert_eq!(total_area(&vec![]), 0);
}

#[test]
fn settings_defaults_and_saving() {
    let mut s = Settings::empty();
    assert_eq!(s.mortar_factor(ApplicationMethod::SingleSided), "5.0");
    assert_eq!(s.mortar_factor(ApplicationMethod::DoubleSided), "7.0");
    assert_eq!(s.grout_coefficient_or_default(), "1.58");
    s.save_mortar_factor(ApplicationMethod::DoubleSided, &"8.5".to_string());
    s.save_grout_coefficient(&"1.6".to_string());
    assert_eq!(s.mortar_factor(ApplicationMethod::DoubleSided), "8.5");
    assert_eq!(s.mortar_factor(ApplicationMethod::SingleSided), "5.0");
    let t = FlooringText::with_settings(&s);
    assert_eq!(t.grout_coefficient, "1.6");
    assert_eq!(t.mortar_factor, "5.0");
    assert_eq!(t.tile_thickness, "3");
    assert_eq!(t.joint_spacing, "2");
}

#[test]
fn selection_toggles() {
    let s = Selection::Flooring;
    assert_eq!(s.toggle(Material::Flooring), Selection::Flooring);
    assert_eq!(s.toggle(Material::Mortar), Selection::FlooringMortar);
    assert_eq!(Selection::FlooringMortar.toggle(Material::Grout), Selection::FlooringGrout);
    assert_eq!(Selection::FlooringGrout.toggle(Material::Mortar), Selection::FlooringMortar);
    assert_eq!(Selection::Mortar.toggle(Material::Mortar), Selection::Flooring);
    assert_eq!(Selection::Grout.toggle(Material::Mortar), Selection::Mortar);
}

#[test]
fn selection_stays_valid_over_any_clicks() {
    let ms = [Material::Flooring, Material::Mortar, Material::Grout];
    let mut s = Selection::Flooring;
    let mut seed: u32 = 7;
    for _ in 0..200 {
        seed = seed.wrapping_mul(1_103_515_245).wrapping_add(12_345);
        s = s.toggle(ms[(seed >> 16) as usize % 3]);
        let n = s.flooring() as u8 + s.mortar() as u8 + s.grout() as u8;
        assert!(n == 1 || n == 2);
        assert!(!(s.mortar() && s.grout()));
    }
}

#[test]
fn slab_trellis_short_and_long_side() {
    let rooms = vec![
        SlabRoom { room: room(30_000, 40_000), direction: Direction::ShortSide },
        SlabRoom { room: room(30_000, 40_000), direction: Direction::LongSide },
    ];
    let r = estimate_slab(SlabKind::Trellis, &rooms);
    let a = r.rooms[0];
    assert_eq!(a.adjusted_length, 30_000);
    assert_eq!(a.beams, 11);
    assert_eq!(a.adjusted_width, 40_700);
    assert_eq!(a.elements, 159);
    let b = r.rooms[1];
    assert_eq!(b.adjusted_length, 40_000);
    assert_eq!(b.beams, 9);
    assert_eq!(b.adjusted_width, 33_300);
    assert_eq!(b.elements, 174);
    assert_eq!(r.area, 2_400_000_000);
    assert_eq!(r.elements, 333);
    assert_eq!(r.beams_by_length.get(&30_000), Some(&11));
    assert_eq!(r.beams_by_length.get(&40_000), Some(&9));
}

#[test]
fn slab_foam_and_beams_grouped_by_length() {
    let rooms = vec![
        SlabRoom { room: room(30_000, 40_000), direction: Direction::ShortSide },
        SlabRoom { room: room(29_500, 20_000), direction: Direction::LongSide },
    ];
    let r = estimate_slab(SlabKind::Foam, &rooms);
    assert_eq!(r.rooms[0].beams, 10);
    assert_eq!(r.rooms[0].adjusted_width, 42_000);
    assert_eq!(r.rooms[0].elements, 60);
    assert_eq!(r.rooms[1].adjusted_length, 30_000);
    assert_eq!(r.rooms[1].beams, 5);
    assert_eq!(r.beams_by_length.len(), 1);
    assert_eq!(r.beams_by_length.get(&30_000), Some(&15));
    // Area is measured, not adjusted.
    assert_eq!(r.area, 1_200_000_000 + 590_000_000);
}

#[test]
fn slab_swapping_sides_changes_nothing() {
    for dir in [Direction::LongSide, Direction::ShortSide] {
        for kind in [SlabKind::Trellis, SlabKind::Foam] {
            let a = estimate_slab(kind, &vec![SlabRoom { room: room(31_000, 57_300), direction: dir }]);
            let b = estimate_slab(kind, &vec![SlabRoom { room: room(57_300, 31_000), direction: dir }]);
            assert_eq!(a.rooms, b.rooms);
        }
    }
}

#[test]
fn slab_text_names_the_bad_room() {
    let raw = vec![text_room("3", "4"), text_room("3", "4,4,4")];
    let dirs = vec![Direction::ShortSide, Direction::LongSide];
    assert_eq!(
        estimate_slab_text(SlabKind::Trellis, &raw, &dirs).unwrap_err(),
        RoomsError::Field { index: 1, side: Side::Length, error: FieldError::Invalid }
    );
    let ok = vec![text_room("3", "4")];
    let r = estimate_slab_text(SlabKind::Trellis, &ok, &vec![Direction::ShortSide]).unwrap();
    assert_eq!(r.elements, 159);
}

#[test]
fn ceiling_single_piece_rows() {
    let c = layout_room(room(30_000, 40_000), Direction::LongSide);
    assert_eq!(c.rows, 15);
    assert_eq!(c.panels.four, 15);
    assert_eq!(c.panels.three + c.panels.five + c.panels.six, 0);
    assert_eq!(c.joints, 0);
    assert_eq!(c.splice, 0);
    assert_eq!(c.perimeter, 140_000);
    assert_eq!(c.area, 1_200_000_000);
}

#[test]
fn ceiling_rows_with_splices() {
    let r = estimate_ceiling(&vec![room(25_000, 75_000)], Direction::LongSide);
    let c = r.rooms[0];
    assert_eq!(c.rows, 13);
    assert_eq!(c.panels.six, 13);
    assert_eq!(c.panels.three, 13);
    assert_eq!(c.joints, 13);
    assert_eq!(c.splice, 26_000);
    assert_eq!(r.splice_bars, 1);
    assert_eq!(r.trim, 200_000);
    let short = layout_room(room(25_000, 75_000), Direction::ShortSide);
    assert_eq!(short.rows, 38);
    assert_eq!(short.panels.three, 38);
    assert_eq!(short.joints, 0);
}

#[test]
fn ceiling_rows_cover_the_side() {
    for len in [1u64, 29_999, 30_000, 45_000, 75_000, 119_999, 123_456, 1_000_000] {
        let c = layout_room(room(len, 2_000), Direction::LongSide);
        let covered = 30_000 * c.panels.three + 40_000 * c.panels.four + 50_000 * c.panels.five
            + 60_000 * c.panels.six;
        let side = len.max(2_000);
        let row = covered / c.rows;
        assert!(row >= side);
        assert!(row <= side + 60_000);
    }
}

#[test]
fn ceiling_totals_and_degenerate_room() {
    let r = estimate_ceiling(&vec![room(0, 50_000), room(25_000, 75_000), room(25_000, 75_000)], Direction::LongSide);
    assert_eq!(r.rooms[0].rows, 0);
    assert_eq!(r.rooms[0].panels.three + r.rooms[0].panels.six, 0);
    assert_eq!(r.panels.six, 26);
    assert_eq!(r.splice, 52_000);
    assert_eq!(r.splice_bars, 1);
    assert_eq!(r.trim, 100_000 + 400_000);
    let t = estimate_ceiling_text(&vec![text_room("2.5", "7,5")], Direction::LongSide).unwrap();
    assert_eq!(t.rooms[0], r.rooms[1]);
    assert!(estimate_ceiling_text(&vec![text_room("a", "1")], Direction::LongSide).is_err());
}

fn default_ratio() -> Ratio {
    Ratio { cement: q(10_000), sand: q(20_000), stone: q(20_000) }
}

#[test]
fn concrete_by_volume() {
    let m = by_volume(q(10_000), default_ratio());
    assert_eq!(m.cement * 5, m.den);
    assert_eq!(m.sand * 5, m.den * 2);
    assert_eq!(m.cement + m.sand + m.stone, m.total);
    assert_eq!(m.total, m.den);
    let r = mix_report(m);
    assert_eq!(r.cement_bags, 6);
    assert_eq!(r.sand_half_m3, 1);
    assert_eq!(r.sand_bags, 29);
    assert_eq!(r.stone_bags, 29);
}

#[test]
fn concrete_by_volume_sums_exactly_with_uneven_ratio() {
    let ratio = Ratio { cement: q(10_000), sand: q(10_000), stone: q(10_000) };
    let m = by_volume(q(12_345), ratio);
    assert_eq!(m.cement + m.sand + m.stone, m.total);
    assert_eq!(m.total * 10_000, 12_345 * m.den);
}

#[test]
fn concrete_by_quantity_round_trip() {
    let m = by_quantity(q(2_000), Amount::Volume(q(4_000)), Amount::Bags(q(290_000)));
    assert_eq!(m.total, m.den);
    let back = by_volume(q(10_000), default_ratio());
    let again = by_quantity(
        q((back.cement * 10_000 / back.den) as u64),
        Amount::Volume(q((back.sand * 10_000 / back.den) as u64)),
        Amount::Volume(q((back.stone * 10_000 / back.den) as u64)),
    );
    assert_eq!(again.total * 10_000, 10_000 * again.den);
}

fn concrete_form() -> ConcreteText {
    ConcreteText::new()
}

#[test]
fn concrete_form_by_volume() {
    let mut t = concrete_form();
    t.volume = "1".to_string();
    let r = estimate_concrete(&t).unwrap();
    assert_eq!(r.cement_bags, 6);
    t.ratio_sand = "x".to_string();
    assert_eq!(estimate_concrete(&t).unwrap(), r);
    t.ratio_sand = "0".to_string();
    assert_eq!(estimate_concrete(&t), Err(ConcreteError::ZeroRatioPart));
    t.ratio_sand = "2".to_string();
    t.volume = "0".to_string();
    assert_eq!(estimate_concrete(&t), Err(ConcreteError::ZeroCement));
    t.volume = "".to_string();
    assert_eq!(
        estimate_concrete(&t),
        Err(ConcreteError::Field { field: ConcreteField::Volume, error: FieldError::Invalid })
    );
}

#[test]
fn concrete_form_by_quantity() {
    let mut t = concrete_form();
    t.mode = ConcreteMode::ByQuantity;
    t.cement = "0,2".to_string();
    t.sand_m3 = "0.4".to_string();
    t.stone_bags = "29".to_string();
    let r = estimate_concrete(&t).unwrap();
    assert_eq!(r.volumes.total, r.volumes.den);
    assert_eq!(r.cement_bags, 6);
    assert_eq!(r.stone_bags, 29);
    t.stone_bags = "".to_string();
    assert_eq!(estimate_concrete(&t), Err(ConcreteError::MissingStone));
    t.stone_m3 = "0.4".to_string();
    t.sand_m3 = "".to_string();
    assert_eq!(estimate_concrete(&t), Err(ConcreteError::MissingSand));
    t.sand_bags = "b".to_string();
    assert_eq!(
        estimate_concrete(&t),
        Err(ConcreteError::Field { field: ConcreteField::SandBags, error: FieldError::Invalid })
    );
}
