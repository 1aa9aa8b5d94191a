use std::cell::RefCell;

use noise_map_builder::CylinderCell;
use noise_map_builder::CylinderMapBuilder;
use noise_map_builder::NoiseMapBuilder;
use noise_map_builder::SphereCell;
use noise_map_builder::SphereMapBuilder;

/// The sphere per-cell kernel: linear mapping of the cell onto the
/// latitude/longitude region, then projection onto the unit sphere.
fn sphere_value<F: Fn([f64; 3]) -> f64>(source: &F, q: SphereCell) -> u64 {
    let lat_lower = f64::from_bits(q.lat_lower_bits);
    let lat_upper = f64::from_bits(q.lat_upper_bits);
    let lon_lower = f64::from_bits(q.lon_lower_bits);
    let lon_upper = f64::from_bits(q.lon_upper_bits);
    let lon_extent = lon_upper - lon_lower;
    let lat_extent = lat_upper - lat_lower;
    let x_step = lon_extent / q.width as f64;
    let y_step = lat_extent / q.height as f64;
    let current_lat = lat_lower + y_step * q.y as f64;
    let current_lon = lon_lower + x_step * q.x as f64;
    let point = lat_lon_to_xyz(current_lat, current_lon);
    source(point).to_bits()
}

fn lat_lon_to_xyz(lat: f64, lon: f64) -> [f64; 3] {
    let r = lat.to_radians().cos();
    let x = r * lon.to_radians().cos();
    let y = lat.to_radians().sin();
    let z = r * lon.to_radians().sin();
    [x, y, z]
}

/// The cylinder per-cell kernel: linear mapping of the cell onto the
/// angle/height region, then projection onto the unit cylinder.
fn cylinder_value<F: Fn([f64; 3]) -> f64>(source: &F, q: CylinderCell) -> u64 {
    let angle_lower = f64::from_bits(q.angle_lower_bits);
    let angle_upper = f64::from_bits(q.angle_upper_bits);
    let height_lower = f64::from_bits(q.height_lower_bits);
    let height_upper = f64::from_bits(q.height_upper_bits);
    let angle_extent = angle_upper - angle_lower;
    let height_extent = height_upper - height_lower;
    let x_step = angle_extent / q.width as f64;
    let y_step = height_extent / q.height as f64;
    let current_height = height_lower + y_step * q.y as f64;
    let current_angle = angle_lower + x_step * q.x as f64;
    let point_x = current_angle.to_radians().cos();
    let point_z = current_angle.to_radians().sin();
    source([point_x, current_height, point_z]).to_bits()
}

/// Builds a one-cell sphere map whose lower bounds are the wanted
/// latitude and longitude, and returns the sampled surface point.
fn sphere_sample_point(lat: f64, lon: f64) -> [f64; 3] {
    let seen: RefCell<Vec<[f64; 3]>> = RefCell::new(Vec::new());
    let b = SphereMapBuilder::new(|q: SphereCell| {
        sphere_value(
            &|p: [f64; 3]| {
                seen.borrow_mut().push(p);
                0.0
            },
            q,
        )
    })
    .set_bounds(
        lat.to_bits(),
        (lat + 1.0).to_bits(),
        lon.to_bits(),
        (lon + 1.0).to_bits(),
    )
    .set_size(1, 1);
    let _ = b.build();
    let points = seen.borrow();
    assert_eq!(points.len(), 1);
    points[0]
}

/// Builds a one-cell cylinder map whose lower bounds are the wanted
/// angle and height, and returns the sampled surface point.
fn cylinder_sample_point(angle: f64, height: f64) -> [f64; 3] {
    let seen: RefCell<Vec<[f64; 3]>> = RefCell::new(Vec::new());
    let b = CylinderMapBuilder::new(|q: CylinderCell| {
        cylinder_value(
            &|p: [f64; 3]| {
                seen.borrow_mut().push(p);
                0.0
            },
            q,
        )
    })
    .set_angle_bounds(angle.to_bits(), (angle + 1.0).to_bits())
    .set_height_bounds(height.to_bits(), (height + 1.0).to_bits())
    .set_size(1, 1);
    let _ = b.build();
    let points = seen.borrow();
    assert_eq!(points.len(), 1);
    points[0]
}

fn close(a: f64, b: f64) -> bool {
    (a - b).abs() < 1e-12
}

#[test]
fn sphere_origin_maps_to_the_x_axis() {
    let p = sphere_sample_point(0.0, 0.0);
    assert!(close(p[0], 1.0), "{p:?}");
    assert!(close(p[1], 0.0), "{p:?}");
    assert!(close(p[2], 0.0), "{p:?}");
}

#[test]
fn sphere_north_pole_maps_to_the_y_axis() {
    let p = sphere_sample_point(90.0, 0.0);
    assert!(close(p[0], 0.0), "{p:?}");
    assert!(close(p[1], 1.0), "{p:?}");
    assert!(close(p[2], 0.0), "{p:?}");
}

#[test]
fn cylinder_angle_zero_maps_to_the_x_axis() {
    let p = cylinder_sample_point(0.0, 0.7);
    assert!(close(p[0], 1.0), "{p:?}");
    assert!(close(p[1], 0.7), "{p:?}");
    assert!(close(p[2], 0.0), "{p:?}");
}

#[test]
fn cylinder_angle_ninety_maps_to_the_z_axis() {
    let p = cylinder_sample_point(90.0, -0.25);
    assert!(close(p[0], 0.0), "{p:?}");
    assert!(close(p[1], -0.25), "{p:?}");
    assert!(close(p[2], 1.0), "{p:?}");
}
