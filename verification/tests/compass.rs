use led_compass::Measurement;
use led_compass::calibration::{
    calc_calibration, calibrated_measurement, default_calibration, try_calibrated_measurement,
};
use led_compass::glyphs::{glyph_for, Glyph};
use led_compass::heading::{classify, Sector, ANGLE_PI, ANGLE_PI_8};

const UP: Glyph = [
    [0, 0, 1, 0, 0],
    [0, 1, 1, 1, 0],
    [1, 0, 1, 0, 1],
    [0, 0, 1, 0, 0],
    [0, 0, 1, 0, 0],
];

const DOWN: Glyph = [
    [0, 0, 1, 0, 0],
    [0, 0, 1, 0, 0],
    [1, 0, 1, 0, 1],
    [0, 1, 1, 1, 0],
    [0, 0, 1, 0, 0],
];

const LEFT: Glyph = [
    [0, 0, 1, 0, 0],
    [0, 1, 0, 0, 0],
    [1, 1, 1, 1, 1],
    [0, 1, 0, 0, 0],
    [0, 0, 1, 0, 0],
];

const RIGHT: Glyph = [
    [0, 0, 1, 0, 0],
    [0, 0, 0, 1, 0],
    [1, 1, 1, 1, 1],
    [0, 0, 0, 1, 0],
    [0, 0, 1, 0, 0],
];

const UP_LEFT: Glyph = [
    [1, 1, 1, 1, 0],
    [1, 1, 0, 0, 0],
    [1, 0, 1, 0, 0],
    [1, 0, 0, 1, 0],
    [0, 0, 0, 0, 1],
];

const UP_RIGHT: Glyph = [
    [0, 1, 1, 1, 1],
    [0, 0, 0, 1, 1],
    [0, 0, 1, 0, 1],
    [0, 1, 0, 0, 1],
    [1, 0, 0, 0, 0],
];

const DOWN_LEFT: Glyph = [
    [0, 0, 0, 0, 1],
    [1, 0, 0, 1, 0],
    [1, 0, 1, 0, 0],
    [1, 1, 0, 0, 0],
    [1, 1, 1, 1, 0],
];

const DOWN_RIGHT: Glyph = [
    [1, 0, 0, 0, 0],
    [0, 1, 0, 0, 1],
    [0, 0, 1, 0, 1],
    [0, 0, 0, 1, 1],
    [0, 1, 1, 1, 1],
];

fn angle_units(theta: f32) -> i32 {
    libm::roundf(theta * (ANGLE_PI as f32 / core::f32::consts::PI)) as i32
}

fn sector_of_vector(x: i32, y: i32) -> Sector {
    classify(angle_units(libm::atan2f(y as f32, x as f32)))
}

/// An interval-based reference classification, written independently of the
/// guard cascade the library uses.
fn reference_sector(theta: i32) -> Sector {
    if theta > 7 * ANGLE_PI_8 || theta < -7 * ANGLE_PI_8 {
        Sector::West
    } else if theta > 5 * ANGLE_PI_8 {
        Sector::NorthWest
    } else if theta > 3 * ANGLE_PI_8 {
        Sector::North
    } else if theta > ANGLE_PI_8 {
        Sector::NorthEast
    } else if theta >= -ANGLE_PI_8 {
        Sector::East
    } else if theta >= -3 * ANGLE_PI_8 {
        Sector::SouthEast
    } else if theta >= -5 * ANGLE_PI_8 {
        Sector::South
    } else {
        Sector::SouthWest
    }
}

#[test]
fn classify_is_total_over_the_angle_range() {
    let mut theta = -ANGLE_PI + 1;
    while theta <= ANGLE_PI {
        assert_eq!(classify(theta), reference_sector(theta), "theta = {theta}");
        theta += 1;
    }
}

#[test]
fn classify_boundaries_fall_through_strict_guards() {
    assert_eq!(classify(7 * ANGLE_PI_8), Sector::NorthWest);
    assert_eq!(classify(-7 * ANGLE_PI_8), Sector::SouthWest);
    assert_eq!(classify(5 * ANGLE_PI_8), Sector::North);
    assert_eq!(classify(-5 * ANGLE_PI_8), Sector::South);
    assert_eq!(classify(3 * ANGLE_PI_8), Sector::NorthEast);
    assert_eq!(classify(-3 * ANGLE_PI_8), Sector::SouthEast);
    assert_eq!(classify(ANGLE_PI_8), Sector::East);
    assert_eq!(classify(-ANGLE_PI_8), Sector::East);
    assert_eq!(classify(7 * ANGLE_PI_8 + 1), Sector::West);
    assert_eq!(classify(-7 * ANGLE_PI_8 - 1), Sector::West);
}

#[test]
fn classify_and_glyph_for_are_deterministic() {
    for theta in [-ANGLE_PI + 1, -12345, 0, 4096, 57344, ANGLE_PI] {
        assert_eq!(classify(theta), classify(theta));
    }
    for s in [Sector::North, Sector::East, Sector::SouthWest, Sector::NorthWest] {
        assert_eq!(glyph_for(s), glyph_for(s));
    }
}

#[test]
fn glyphs_match_the_fixed_bitmaps() {
    assert_eq!(glyph_for(Sector::North), UP);
    assert_eq!(glyph_for(Sector::South), DOWN);
    assert_eq!(glyph_for(Sector::East), LEFT);
    assert_eq!(glyph_for(Sector::West), RIGHT);
    assert_eq!(glyph_for(Sector::NorthEast), UP_LEFT);
    assert_eq!(glyph_for(Sector::NorthWest), UP_RIGHT);
    assert_eq!(glyph_for(Sector::SouthEast), DOWN_LEFT);
    assert_eq!(glyph_for(Sector::SouthWest), DOWN_RIGHT);
}

#[test]
fn glyphs_are_pairwise_distinct() {
    let sectors = [
        Sector::North,
        Sector::NorthEast,
        Sector::East,
        Sector::SouthEast,
        Sector::South,
        Sector::SouthWest,
        Sector::West,
        Sector::NorthWest,
    ];
    for i in 0..sectors.len() {
        for j in 0..sectors.len() {
            if i != j {
                assert_ne!(glyph_for(sectors[i]), glyph_for(sectors[j]));
            }
        }
    }
}

#[test]
fn scenario_east_shows_left_arrow() {
    let sector = sector_of_vector(1000, 0);
    assert_eq!(sector, Sector::East);
    assert_eq!(glyph_for(sector), LEFT);
}

#[test]
fn scenario_north_shows_up_arrow() {
    let sector = sector_of_vector(0, 1000);
    assert_eq!(sector, Sector::North);
    assert_eq!(glyph_for(sector), UP);
}

#[test]
fn scenario_west_shows_right_arrow() {
    let sector = sector_of_vector(-1000, 0);
    assert_eq!(sector, Sector::West);
    assert_eq!(glyph_for(sector), RIGHT);
}

#[test]
fn scenario_south_shows_down_arrow() {
    let sector = sector_of_vector(0, -1000);
    assert_eq!(sector, Sector::South);
    assert_eq!(glyph_for(sector), DOWN);
}

#[test]
fn calibration_subtracts_center_and_rescales() {
    let c = calc_calibration(&vec![
        Measurement { x: 5, y: -24, z: 27 },
        Measurement { x: 15, y: -16, z: 33 },
    ])
    .unwrap();
    assert_eq!(c.center, Measurement { x: 10, y: -20, z: 30 });
    assert_eq!(c.scale, Measurement { x: 5, y: 4, z: 3 });
    assert_eq!(c.radius, 4);
    let cm = calibrated_measurement(Measurement { x: 25, y: -40, z: 30 }, &c);
    assert_eq!(cm, Measurement { x: 12, y: -20, z: 0 });
    // division truncates toward zero, as the machine's `/` does
    let cm2 = calibrated_measurement(Measurement { x: 7, y: -20, z: 30 }, &c);
    assert_eq!(cm2.x, -2);
}

#[test]
fn on_sphere_axis_samples_have_radius_magnitude() {
    let c = default_calibration();
    let raws = [
        Measurement { x: c.center.x + c.scale.x, y: c.center.y, z: c.center.z },
        Measurement { x: c.center.x - c.scale.x, y: c.center.y, z: c.center.z },
        Measurement { x: c.center.x, y: c.center.y + c.scale.y, z: c.center.z },
        Measurement { x: c.center.x, y: c.center.y - c.scale.y, z: c.center.z },
        Measurement { x: c.center.x, y: c.center.y, z: c.center.z + c.scale.z },
        Measurement { x: c.center.x, y: c.center.y, z: c.center.z - c.scale.z },
    ];
    for raw in raws {
        let cm = calibrated_measurement(raw, &c);
        let sq = (cm.x as i64) * (cm.x as i64) + (cm.y as i64) * (cm.y as i64)
            + (cm.z as i64) * (cm.z as i64);
        assert_eq!(sq, (c.radius as i64) * (c.radius as i64));
    }
}

#[test]
fn on_sphere_diagonal_sample_is_near_radius_magnitude() {
    let c = default_calibration();
    // a synthetic sample on the calibration ellipsoid along the unit
    // direction (0.6, 0.8, 0)
    let raw = Measurement {
        x: c.center.x + libm::roundf(c.scale.x as f32 * 0.6) as i32,
        y: c.center.y + libm::roundf(c.scale.y as f32 * 0.8) as i32,
        z: c.center.z,
    };
    let cm = calibrated_measurement(raw, &c);
    let magnitude = libm::sqrtf(
        (cm.x as f32) * (cm.x as f32) + (cm.y as f32) * (cm.y as f32) + (cm.z as f32) * (cm.z
            as f32),
    );
    let relative = (magnitude - c.radius as f32).abs() / c.radius as f32;
    assert!(relative < 0.01, "relative error {relative}");
}

#[test]
fn calc_calibration_rejects_empty_and_flat_sweeps() {
    assert_eq!(calc_calibration(&vec![]), None);
    // no spread at all
    assert_eq!(calc_calibration(&vec![Measurement { x: 1, y: 2, z: 3 }]), None);
    // spread on two axes only
    assert_eq!(
        calc_calibration(&vec![
            Measurement { x: 0, y: 0, z: 5 },
            Measurement { x: 9, y: 8, z: 5 },
        ]),
        None
    );
}

#[test]
fn calc_calibration_centers_round_toward_zero() {
    let c = calc_calibration(&vec![
        Measurement { x: -5, y: 1, z: 1 },
        Measurement { x: 2, y: 5, z: 9 },
    ])
    .unwrap();
    assert_eq!(c.center, Measurement { x: -1, y: 3, z: 5 });
    assert_eq!(c.scale, Measurement { x: 3, y: 2, z: 4 });
    assert_eq!(c.radius, 3);
}

#[test]
fn try_calibration_reports_out_of_range_results() {
    let c = calc_calibration(&vec![
        Measurement { x: 0, y: 0, z: 0 },
        Measurement { x: 2, y: 2, z: 2 },
    ])
    .unwrap();
    assert_eq!(c.scale, Measurement { x: 1, y: 1, z: 1 });
    assert_eq!(c.radius, 1);
    let fine = try_calibrated_measurement(Measurement { x: 100, y: 1, z: 1 }, &c);
    assert_eq!(fine, Some(Measurement { x: 99, y: 0, z: 0 }));
    // radius / scale blows a far-off raw value past the sensor width
    let big = calc_calibration(&vec![
        Measurement { x: 0, y: 0, z: 0 },
        Measurement { x: 2, y: 2_000_000_000, z: 2_000_000_000 },
    ])
    .unwrap();
    assert_eq!(big.scale.x, 1);
    let r = try_calibrated_measurement(Measurement { x: i32::MAX, y: 0, z: 0 }, &big);
    assert_eq!(r, None);
}

#[test]
fn full_pipeline_from_raw_sample_to_glyph() {
    let c = default_calibration();
    // a raw sample displaced from the centre along +y only: heading pi/2
    let raw = Measurement { x: c.center.x, y: c.center.y + c.scale.y, z: c.center.z };
    let data = try_calibrated_measurement(raw, &c).unwrap();
    assert_eq!(data, Measurement { x: 0, y: c.radius, z: 0 });
    let theta = libm::atan2f(data.y as f32, data.x as f32);
    let sector = classify(angle_units(theta));
    assert_eq!(sector, Sector::North);
    assert_eq!(glyph_for(sector), UP);
}
