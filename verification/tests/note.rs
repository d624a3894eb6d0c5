use sticky_notes::note::{
    Geometry, Real, DEFAULT_HEIGHT_BITS, DEFAULT_WIDTH_BITS, DEFAULT_Z_INDEX,
};

fn coord(value: f64) -> Real {
    Real { bits: value.to_bits() }
}

#[test]
fn default_geometry_values() {
    assert_eq!(f64::from_bits(DEFAULT_WIDTH_BITS), 200.0);
    assert_eq!(f64::from_bits(DEFAULT_HEIGHT_BITS), 150.0);
    assert_eq!(DEFAULT_Z_INDEX, 0);
}

#[test]
fn fill_uses_the_defaults_for_what_is_missing() {
    let g = Geometry::fill(coord(1.0), coord(2.0), None, None, None);
    assert_eq!(
        g,
        Geometry {
            x: coord(1.0),
            y: coord(2.0),
            width: coord(200.0),
            height: coord(150.0),
            z_index: 0
        }
    );
}

#[test]
fn fill_keeps_what_is_given() {
    let g = Geometry::fill(coord(-7.25), coord(0.0), Some(coord(1.0)), Some(coord(0.5)), Some(9));
    assert_eq!(
        g,
        Geometry {
            x: coord(-7.25),
            y: coord(0.0),
            width: coord(1.0),
            height: coord(0.5),
            z_index: 9
        }
    );
    let g = Geometry::fill(coord(0.0), coord(0.0), Some(coord(0.0)), None, Some(i64::MIN));
    assert_eq!(f64::from_bits(g.width.bits), 0.0);
    assert_eq!(f64::from_bits(g.height.bits), 150.0);
    assert_eq!(g.z_index, i64::MIN);
}

#[test]
fn bits_carry_every_number() {
    for value in [0.0, -0.0, 1.5, f64::MAX, f64::MIN_POSITIVE, f64::INFINITY] {
        assert_eq!(f64::from_bits(coord(value).bits), value);
    }
    assert!(f64::from_bits(coord(f64::NAN).bits).is_nan());
}
