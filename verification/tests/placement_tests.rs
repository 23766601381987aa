use quake_globe::placement::{normalize_angle_md, placement_cardinal, quarter_cos_md, quarter_sin_md, SpherePoint};

#[test]
fn equator_prime_meridian_faces_z() {
    let p = placement_cardinal(0, 0);
    assert_eq!(p, SpherePoint { x: 0, y: 0, z: 1 });
}

#[test]
fn equator_east_faces_x() {
    let p = placement_cardinal(0, 90_000);
    assert_eq!(p, SpherePoint { x: 1, y: 0, z: 0 });
}

#[test]
fn equator_west_faces_negative_x() {
    let p = placement_cardinal(0, -90_000);
    assert_eq!(p, SpherePoint { x: -1, y: 0, z: 0 });
}

#[test]
fn antimeridian_faces_negative_z() {
    let p = placement_cardinal(0, 180_000);
    assert_eq!(p, SpherePoint { x: 0, y: 0, z: -1 });
}

#[test]
fn north_pole_collapses() {
    for lon_md in [-360_000, -90_000, 0, 90_000, 180_000, 270_000, 360_000, 450_000] {
        let p = placement_cardinal(90_000, lon_md);
        assert_eq!(p, SpherePoint { x: 0, y: 1, z: 0 });
    }
}

#[test]
fn south_pole_collapses() {
    for lon_md in [-360_000, -90_000, 0, 90_000, 180_000, 270_000, 360_000, 450_000] {
        let p = placement_cardinal(-90_000, lon_md);
        assert_eq!(p, SpherePoint { x: 0, y: -1, z: 0 });
    }
}

#[test]
fn full_turn_is_periodic() {
    for lat_md in [-90_000, 0, 90_000] {
        for lon_md in [-180_000, -90_000, 0, 90_000, 180_000] {
            let p = placement_cardinal(lat_md, lon_md);
            let q = placement_cardinal(lat_md, lon_md + 360_000);
            assert_eq!(p, q);
        }
    }
}

#[test]
fn lattice_placements_have_unit_magnitude() {
    for lat_md in [-90_000, 0, 90_000, 180_000, 270_000] {
        for lon_md in [-270_000, -180_000, -90_000, 0, 90_000, 180_000, 270_000] {
            let p = placement_cardinal(lat_md, lon_md);
            assert_eq!(p.x * p.x + p.y * p.y + p.z * p.z, 1);
        }
    }
}

#[test]
fn normalize_angle_canonical_range() {
    assert_eq!(normalize_angle_md(0), 0);
    assert_eq!(normalize_angle_md(-90_000), 270_000);
    assert_eq!(normalize_angle_md(360_000), 0);
    assert_eq!(normalize_angle_md(450_000), 90_000);
    assert_eq!(normalize_angle_md(-360_001), 359_999);
    assert_eq!(normalize_angle_md(i64::MIN), 304_192);
}

#[test]
fn quarter_trig_matches_float_trig() {
    for a_md in [-270_000i64, -180_000, -90_000, 0, 90_000, 180_000, 270_000, 360_000] {
        let a_deg = a_md as f32 / 1000.0;
        assert!((quarter_sin_md(a_md) as f32 - a_deg.to_radians().sin()).abs() < 1e-5);
        assert!((quarter_cos_md(a_md) as f32 - a_deg.to_radians().cos()).abs() < 1e-5);
    }
}

#[test]
fn lattice_placement_matches_float_placement() {
    for lat_md in [-90_000i64, 0, 90_000] {
        for lon_md in [-180_000i64, -90_000, 0, 90_000, 180_000] {
            let p = placement_cardinal(lat_md, lon_md);
            let lat = (lat_md as f32 / 1000.0).to_radians();
            let lon = (lon_md as f32 / 1000.0).to_radians();
            let x = lat.cos() * lon.sin();
            let y = lat.sin();
            let z = lat.cos() * lon.cos();
            assert!((p.x as f32 - x).abs() < 1e-5);
            assert!((p.y as f32 - y).abs() < 1e-5);
            assert!((p.z as f32 - z).abs() < 1e-5);
        }
    }
}
