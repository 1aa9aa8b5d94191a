use noise_map_builder::CylinderCell;
use noise_map_builder::CylinderMapBuilder;
use noise_map_builder::NoiseMapBuilder;
use noise_map_builder::PlaneCell;
use noise_map_builder::PlaneMapBuilder;
use noise_map_builder::ProgressCallbackConfig;
use noise_map_builder::SphereCell;
use noise_map_builder::SphereMapBuilder;

fn zero_plane(_q: PlaneCell) -> u64 {
    0
}

fn zero_cylinder(_q: CylinderCell) -> u64 {
    0
}

fn zero_sphere(_q: SphereCell) -> u64 {
    0
}

#[test]
fn plane_defaults() {
    let b = PlaneMapBuilder::new(zero_plane);
    assert_eq!(b.x_bounds(), ((-1.0f64).to_bits(), 1.0f64.to_bits()));
    assert_eq!(b.y_bounds(), ((-1.0f64).to_bits(), 1.0f64.to_bits()));
    assert_eq!(b.size(), (100, 100));
}

#[test]
fn cylinder_defaults() {
    let b = CylinderMapBuilder::new(zero_cylinder);
    assert_eq!(b.angle_bounds(), ((-90.0f64).to_bits(), 90.0f64.to_bits()));
    assert_eq!(b.height_bounds(), ((-1.0f64).to_bits(), 1.0f64.to_bits()));
    assert_eq!(b.size(), (100, 100));
}

#[test]
fn sphere_defaults() {
    let b = SphereMapBuilder::new(zero_sphere);
    assert_eq!(b.latitude_bounds(), ((-1.0f64).to_bits(), 1.0f64.to_bits()));
    assert_eq!(b.longitude_bounds(), ((-1.0f64).to_bits(), 1.0f64.to_bits()));
    assert_eq!(b.size(), (100, 100));
}

#[test]
fn cylinder_swapped_angle_bounds_are_reordered() {
    let b = CylinderMapBuilder::new(zero_cylinder).set_angle_bounds(
        10.0f64.to_bits(),
        (-10.0f64).to_bits(),
    );
    assert_eq!(b.angle_bounds(), ((-10.0f64).to_bits(), 10.0f64.to_bits()));
}

#[test]
fn cylinder_ordered_angle_bounds_are_kept() {
    let b = CylinderMapBuilder::new(zero_cylinder).set_angle_bounds(
        (-45.0f64).to_bits(),
        45.0f64.to_bits(),
    );
    assert_eq!(b.angle_bounds(), ((-45.0f64).to_bits(), 45.0f64.to_bits()));
}

#[test]
fn cylinder_swapped_height_bounds_are_reordered() {
    let b = CylinderMapBuilder::new(zero_cylinder).set_height_bounds(
        2.5f64.to_bits(),
        (-0.5f64).to_bits(),
    );
    assert_eq!(b.height_bounds(), ((-0.5f64).to_bits(), 2.5f64.to_bits()));
}

#[test]
fn cylinder_equal_bounds_survive_reordering() {
    let b = CylinderMapBuilder::new(zero_cylinder).set_height_bounds(
        0.7f64.to_bits(),
        0.7f64.to_bits(),
    );
    assert_eq!(b.height_bounds(), (0.7f64.to_bits(), 0.7f64.to_bits()));
}

#[test]
fn sphere_swapped_latitude_bounds_stay_verbatim() {
    let b = SphereMapBuilder::new(zero_sphere).set_latitude_bounds(
        10.0f64.to_bits(),
        (-10.0f64).to_bits(),
    );
    assert_eq!(b.latitude_bounds(), (10.0f64.to_bits(), (-10.0f64).to_bits()));
}

#[test]
fn sphere_swapped_longitude_bounds_stay_verbatim() {
    let b = SphereMapBuilder::new(zero_sphere).set_longitude_bounds(
        90.0f64.to_bits(),
        (-90.0f64).to_bits(),
    );
    assert_eq!(b.longitude_bounds(), (90.0f64.to_bits(), (-90.0f64).to_bits()));
}

#[test]
fn sphere_set_bounds_sets_both_pairs() {
    let b = SphereMapBuilder::new(zero_sphere).set_bounds(
        1.0f64.to_bits(),
        2.0f64.to_bits(),
        3.0f64.to_bits(),
        4.0f64.to_bits(),
    );
    assert_eq!(b.latitude_bounds(), (1.0f64.to_bits(), 2.0f64.to_bits()));
    assert_eq!(b.longitude_bounds(), (3.0f64.to_bits(), 4.0f64.to_bits()));
}

#[test]
fn plane_bounds_stay_verbatim() {
    let b = PlaneMapBuilder::new(zero_plane)
        .set_x_bounds(5.0f64.to_bits(), (-5.0f64).to_bits())
        .set_y_bounds(3.0f64.to_bits(), (-3.0f64).to_bits());
    assert_eq!(b.x_bounds(), (5.0f64.to_bits(), (-5.0f64).to_bits()));
    assert_eq!(b.y_bounds(), (3.0f64.to_bits(), (-3.0f64).to_bits()));
}

#[test]
fn set_size_is_recorded_verbatim() {
    let b = PlaneMapBuilder::new(zero_plane).set_size(7, 0);
    assert_eq!(b.size(), (7, 0));
    let c = CylinderMapBuilder::new(zero_cylinder).set_size(0, 0);
    assert_eq!(c.size(), (0, 0));
    let s = SphereMapBuilder::new(zero_sphere).set_size(3, 9);
    assert_eq!(s.size(), (3, 9));
}

#[test]
fn granularity_above_ten_collapses_to_digit_count_plus_one() {
    let cfg = ProgressCallbackConfig::new(37, |_t: usize, _d: usize| {});
    assert_eq!(cfg.granularity(), 2);
    let cfg = ProgressCallbackConfig::new(11, |_t: usize, _d: usize| {});
    assert_eq!(cfg.granularity(), 2);
    let cfg = ProgressCallbackConfig::new(99, |_t: usize, _d: usize| {});
    assert_eq!(cfg.granularity(), 2);
    let cfg = ProgressCallbackConfig::new(100, |_t: usize, _d: usize| {});
    assert_eq!(cfg.granularity(), 3);
    let cfg = ProgressCallbackConfig::new(255, |_t: usize, _d: usize| {});
    assert_eq!(cfg.granularity(), 3);
}

#[test]
fn granularity_up_to_ten_is_stored_unchanged() {
    let cfg = ProgressCallbackConfig::new(7, |_t: usize, _d: usize| {});
    assert_eq!(cfg.granularity(), 7);
    let cfg = ProgressCallbackConfig::new(1, |_t: usize, _d: usize| {});
    assert_eq!(cfg.granularity(), 1);
    let cfg = ProgressCallbackConfig::new(10, |_t: usize, _d: usize| {});
    assert_eq!(cfg.granularity(), 10);
}
