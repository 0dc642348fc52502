use birdnest::geofence::Geofence;
use birdnest::model::{DroneObservation, Point};

fn drone(serial: &str, position: Option<(i64, i64)>) -> DroneObservation {
    DroneObservation {
        serial_number: serial.to_string(),
        model: "HRP-DRP 1 S".to_string(),
        manufacturer: "ProDröne Ltd".to_string(),
        mac: "6f:d5:1c:7c:39:9e".to_string(),
        ipv4: "181.162.192.250".to_string(),
        ipv6: "a5d6:40a8:e452:0e23:33a1:d7c5:5ed9:acc5".to_string(),
        firmware: "6.1.2".to_string(),
        position: position.map(|(x, y)| Point { x, y }),
        altitude: Some(4000),
    }
}

fn nest_fence(radius: u64) -> Geofence {
    Geofence::new(Point { x: 250000, y: 250000 }, radius)
}

#[test]
fn drone_at_half_radius_violates() {
    let g = nest_fence(100000);
    assert!(g.is_violation(&drone("SN-A", Some((300000, 250000)))));
}

#[test]
fn drone_beyond_radius_is_clear() {
    let g = nest_fence(100000);
    assert!(!g.is_violation(&drone("SN-B", Some((400000, 250000)))));
}

#[test]
fn scenario_two_drones_one_violator() {
    let g = nest_fence(100000);
    let drones = vec![drone("SN-A", Some((300000, 250000))), drone("SN-B", Some((400000, 250000)))];
    assert_eq!(g.find_drone_violations(&drones), vec!["SN-A".to_string()]);
}

#[test]
fn boundary_distance_is_included() {
    let g = nest_fence(100000);
    // a 3-4-5 triangle: distance exactly 100000
    let drones = vec![drone("EDGE", Some((250000 + 60000, 250000 - 80000)))];
    assert_eq!(g.find_drone_violations(&drones), vec!["EDGE".to_string()]);
}

#[test]
fn just_outside_boundary_is_excluded() {
    let g = nest_fence(100000);
    let drones = vec![drone("OUT", Some((250000 + 60000, 250000 - 80001)))];
    assert!(g.find_drone_violations(&drones).is_empty());
}

#[test]
fn repeated_serial_is_reported_once() {
    let g = nest_fence(100000);
    let drones = vec![
        drone("SN-A", Some((250000, 250000))),
        drone("SN-C", Some((251000, 249000))),
        drone("SN-A", Some((260000, 250000))),
    ];
    assert_eq!(g.find_drone_violations(&drones), vec!["SN-A".to_string(), "SN-C".to_string()]);
}

#[test]
fn repeated_serial_first_outside_then_inside() {
    let g = nest_fence(100000);
    let drones = vec![drone("SN-A", Some((0, 0))), drone("SN-A", Some((250001, 250000)))];
    assert_eq!(g.find_drone_violations(&drones), vec!["SN-A".to_string()]);
}

#[test]
fn drone_at_nest_violates_with_zero_radius() {
    let g = nest_fence(0);
    let drones = vec![drone("ZERO", Some((250000, 250000)))];
    assert_eq!(g.find_drone_violations(&drones), vec!["ZERO".to_string()]);
    assert!(!g.is_violation(&drone("NEAR", Some((250001, 250000)))));
}

#[test]
fn drone_at_nest_violates_with_any_radius() {
    for radius in [0u64, 1, 100, 100000, u64::MAX] {
        let g = nest_fence(radius);
        assert_eq!(g.find_drone_violations(&vec![drone("AT", Some((250000, 250000)))]), vec!["AT".to_string()]);
    }
}

#[test]
fn unknown_position_is_never_a_violation() {
    let g = nest_fence(u64::MAX);
    assert!(!g.is_violation(&drone("NAN", None)));
    assert!(g.find_drone_violations(&vec![drone("NAN", None)]).is_empty());
}

#[test]
fn empty_snapshot_has_no_violators() {
    let g = nest_fence(100000);
    assert!(g.find_drone_violations(&vec![]).is_empty());
}

#[test]
fn negative_coordinates_are_measured() {
    let g = Geofence::new(Point { x: -10, y: -10 }, 5);
    assert!(g.is_violation(&drone("N1", Some((-13, -14)))));
    assert!(!g.is_violation(&drone("N2", Some((-13, -15)))));
}

#[test]
fn extreme_coordinates_do_not_overflow() {
    let g = Geofence::new(Point { x: i64::MIN, y: i64::MIN }, u64::MAX);
    assert!(!g.is_violation(&drone("FAR", Some((i64::MAX, i64::MAX)))));
    assert!(g.is_violation(&drone("EDGE", Some((i64::MAX, i64::MIN)))));
    let g2 = Geofence::new(Point { x: 0, y: 0 }, u64::MAX);
    // distance about 1.41 * 2^63, under 2^64 - 1
    assert!(g2.is_violation(&drone("DIAG", Some((i64::MAX, i64::MAX)))));
    let g3 = Geofence::new(Point { x: 0, y: 0 }, 1u64 << 63);
    assert!(!g3.is_violation(&drone("DIAG", Some((i64::MAX, i64::MAX)))));
    assert!(g2.is_violation(&drone("AXIS", Some((i64::MIN, 0)))));
}
