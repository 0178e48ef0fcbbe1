//! Tests of the tank geometry and the level derivation: the clamping
//! bounds and the documented end-to-end figures.

use tank_monitor::tank::{compute, CuboidTank};

#[test]
fn volume() {
    // One by two by three metres is six thousand litres.
    let tank = CuboidTank::new(1000, 2000, 3000);
    assert_eq!(tank.volume(), 6_000_000);
}

#[test]
fn geometry_getters() {
    let tank = CuboidTank::new(2980, 1480, 1500);
    assert_eq!(tank.length(), 2980);
    assert_eq!(tank.width(), 1480);
    assert_eq!(tank.height(), 1500);
}

#[test]
fn reading_at_offset_means_full() {
    let tank = CuboidTank::new(2980, 1480, 1500);
    let snap = compute(40, &tank, 40);
    assert_eq!(snap.filled_height_mm, 1500);
    assert_eq!(snap.percent_hundredths, 10000);
    assert_eq!(snap.volume_ml, tank.volume());
}

#[test]
fn reading_at_offset_plus_height_means_empty() {
    let tank = CuboidTank::new(2980, 1480, 1500);
    let snap = compute(40 + 1500, &tank, 40);
    assert_eq!(snap.filled_height_mm, 0);
    assert_eq!(snap.percent_hundredths, 0);
    assert_eq!(snap.volume_ml, 0);
}

#[test]
fn readings_beyond_the_bounds_clamp_to_them() {
    let tank = CuboidTank::new(2980, 1480, 1500);
    let below = compute(0, &tank, 40);
    assert_eq!(below.filled_height_mm, 1500);
    assert_eq!(below.percent_hundredths, 10000);
    let above = compute(40 + 1500 + 777, &tank, 40);
    assert_eq!(above.filled_height_mm, 0);
    assert_eq!(above.percent_hundredths, 0);
}

#[test]
fn documented_end_to_end_figures() {
    // Geometry 298 x 148 x 150 cm, offset 4 cm, raw median distance
    // 54 cm: adjusted 50 cm, filled height 100 cm, volume 4410.4
    // litres, fill grade 66.67 percent.
    let tank = CuboidTank::new(2980, 1480, 1500);
    let snap = compute(540, &tank, 40);
    assert_eq!(snap.filled_height_mm, 1000);
    assert_eq!(snap.volume_ml, 4_410_400);
    assert_eq!(snap.percent_hundredths, 6667);
    assert_eq!(snap.volume(), 4_410_400);
    assert_eq!(snap.percentage(), 6667);
}

#[test]
fn half_full_is_exactly_fifty_percent() {
    let tank = CuboidTank::new(1000, 1000, 1000);
    let snap = compute(500, &tank, 0);
    assert_eq!(snap.filled_height_mm, 500);
    assert_eq!(snap.percent_hundredths, 5000);
    assert_eq!(snap.volume_ml, 500_000_000 / 1000);
}
