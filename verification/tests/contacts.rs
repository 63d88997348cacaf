//! Tests of the contact tracker: sensors, overlap draining, derived
//! booleans, climbing detection and sensor shapes.

use dungeon_rogue::Climber;
use dungeon_rogue::player::ColliderShape;
use dungeon_rogue::player::GroundDetection;
use dungeon_rogue::player::GroundSensor;
use dungeon_rogue::player::OverlapEvent;
use dungeon_rogue::player::SideDetector;
use dungeon_rogue::player::SideSensor;
use dungeon_rogue::player::detect_climb_event;
use dungeon_rogue::player::ground_detection;
use dungeon_rogue::player::ground_sensor_shape;
use dungeon_rogue::player::side_sensor_shape;
use dungeon_rogue::player::wall_detection;

const SENSOR: u64 = 100;
const OWNER: u64 = 1;

/// A started overlap raises the derived boolean, the matching stopped
/// overlap lowers it, and with two concurrent contacts removing one
/// leaves it raised.
#[test]
fn contact_boolean_correctness() {
    let mut sensor = GroundSensor::new(SENSOR, OWNER);
    let mut detection = GroundDetection { on_ground: false };

    let changed = ground_detection(&mut sensor, &mut detection, &vec![OverlapEvent::Started(
        SENSOR, 7,
    )]);
    assert!(changed);
    assert!(detection.on_ground);

    let changed = ground_detection(&mut sensor, &mut detection, &vec![OverlapEvent::Stopped(
        SENSOR, 7,
    )]);
    assert!(changed);
    assert!(!detection.on_ground);

    // Two concurrent contacts; removing one keeps the boolean raised.
    ground_detection(&mut sensor, &mut detection, &vec![
        OverlapEvent::Started(SENSOR, 7),
        OverlapEvent::Started(8, SENSOR),
    ]);
    assert!(detection.on_ground);
    let changed = ground_detection(&mut sensor, &mut detection, &vec![OverlapEvent::Stopped(
        SENSOR, 7,
    )]);
    assert!(!changed);
    assert!(detection.on_ground);
}

/// Events that do not name the sensor leave it alone, and a second
/// started overlap with the same body is not counted twice.
#[test]
fn unrelated_and_repeated_events() {
    let mut sensor = GroundSensor::new(SENSOR, OWNER);
    let mut detection = GroundDetection { on_ground: false };
    ground_detection(&mut sensor, &mut detection, &vec![
        OverlapEvent::Started(5, 6),
        OverlapEvent::Stopped(6, 5),
    ]);
    assert!(!detection.on_ground);

    ground_detection(&mut sensor, &mut detection, &vec![
        OverlapEvent::Started(SENSOR, 7),
        OverlapEvent::Started(SENSOR, 7),
        OverlapEvent::Stopped(SENSOR, 7),
    ]);
    assert!(!detection.on_ground);
}

/// The unchanged boolean is not rewritten, so no spurious change
/// notifications go out.
#[test]
fn no_write_without_change() {
    let mut sensor = GroundSensor::new(SENSOR, OWNER);
    let mut detection = GroundDetection { on_ground: false };
    let changed = ground_detection(&mut sensor, &mut detection, &Vec::new());
    assert!(!changed);
}

/// The side sensor tracks wall contacts the same way.
#[test]
fn wall_detection_tracks_contacts() {
    let mut sensor = SideSensor::new(SENSOR, OWNER);
    let mut detector = SideDetector { on_side: false };
    let changed = wall_detection(&mut sensor, &mut detector, &vec![OverlapEvent::Started(
        42, SENSOR,
    )]);
    assert!(changed);
    assert!(detector.on_side);
    wall_detection(&mut sensor, &mut detector, &vec![OverlapEvent::Stopped(42, SENSOR)]);
    assert!(!detector.on_side);
}

/// Climbable overlaps join and leave the climber's element set; the
/// climbing flag itself is untouched.
#[test]
fn climb_detection_tracks_elements() {
    let mut climber = Climber::new();
    detect_climb_event(&mut climber, true, 30);
    detect_climb_event(&mut climber, true, 31);
    assert_eq!(climber.intersaction_elements.len(), 2);
    assert!(!climber.climbing);
    detect_climb_event(&mut climber, false, 30);
    assert_eq!(climber.intersaction_elements, vec![31]);
}

/// Sensor shapes derive from a rectangular owner; anything else is a
/// shape mismatch, reported instead of computed wrongly.
#[test]
fn sensor_shapes_and_mismatch() {
    let owner = ColliderShape::Rectangle { half_width: 10, half_height: 20 };
    let ground = ground_sensor_shape(&owner).unwrap();
    assert_eq!(
        (ground.half_width, ground.half_height, ground.offset_x, ground.offset_y),
        (8, 2, 0, -20)
    );
    let side = side_sensor_shape(&owner).unwrap();
    assert_eq!((side.half_width, side.half_height, side.offset_x, side.offset_y), (14, 17, 0, 0));

    assert!(ground_sensor_shape(&ColliderShape::Other).is_err());
    assert!(side_sensor_shape(&ColliderShape::Other).is_err());
}
