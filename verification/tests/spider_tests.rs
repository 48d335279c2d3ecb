use spider::Spider;
use spider::leg::Leg;
use spider::leg::Point3D;
use spider::leg::Position;
use spider::servo::Servo;

#[test]
fn test_spider_mounts_four_legs() {
    let s = Spider::new();
    assert_eq!(s.legs.len(), 4);
    assert_eq!(s.legs[0], Leg::new(Position::FrontRight));
    assert_eq!(s.legs[1], Leg::new(Position::FrontLeft));
    assert_eq!(s.legs[2], Leg::new(Position::BackRight));
    assert_eq!(s.legs[3], Leg::new(Position::BackLeft));
    for leg in s.legs.iter() {
        assert_eq!(leg.toe_pt, Point3D { x: 0, y: 0, z: 0 });
        assert_eq!(leg.hip_pt.z, 81000);
    }
}

#[test]
fn test_spider_servo_calibration() {
    let s = Spider::new();
    assert_eq!(s.servos.len(), 12);
    assert_eq!(
        s.servos[0],
        Servo { min_micros: 1500, max_micros: 2500, zero_degrees: 1700, reversed: false }
    );
    assert_eq!(
        s.servos[3],
        Servo { min_micros: 700, max_micros: 1700, zero_degrees: -400, reversed: false }
    );
    assert_eq!(
        s.servos[8],
        Servo { min_micros: 1500, max_micros: 2500, zero_degrees: 3100, reversed: true }
    );
    assert_eq!(
        s.servos[11],
        Servo { min_micros: 1100, max_micros: 2200, zero_degrees: 600, reversed: false }
    );
    for servo in s.servos.iter() {
        assert!(servo.min_micros <= servo.max_micros);
    }
}
