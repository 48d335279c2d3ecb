use spider::leg::HIP_OFFSET_UM;
use spider::leg::Leg;
use spider::leg::Point3D;
use spider::leg::Position;
use spider::leg::TIBIA_LEN_UM;

#[test]
fn test_hip_anchors_by_corner() {
    let fr = Leg::new(Position::FrontRight);
    assert_eq!(fr.hip_pt, Point3D { x: -43487, y: -43487, z: 81000 });
    assert_eq!(fr.toe_pt, Point3D { x: 0, y: 0, z: 0 });

    let fl = Leg::new(Position::FrontLeft);
    assert_eq!(fl.hip_pt, Point3D { x: HIP_OFFSET_UM, y: -HIP_OFFSET_UM, z: TIBIA_LEN_UM });

    let br = Leg::new(Position::BackRight);
    assert_eq!(br.hip_pt, Point3D { x: -HIP_OFFSET_UM, y: HIP_OFFSET_UM, z: TIBIA_LEN_UM });

    let bl = Leg::new(Position::BackLeft);
    assert_eq!(bl.hip_pt, Point3D { x: HIP_OFFSET_UM, y: HIP_OFFSET_UM, z: TIBIA_LEN_UM });
}

#[test]
fn test_set_toe_point() {
    let mut leg = Leg::new(Position::FrontRight);
    leg.set_toe_point(10_000, 20_000, -30_000);
    assert_eq!(leg.toe_pt, Point3D { x: 10_000, y: 20_000, z: -30_000 });
    assert_eq!(leg.hip_pt, Point3D { x: -43487, y: -43487, z: 81000 });
    leg.set_toe_point(-1, -2, -3);
    assert_eq!(leg.toe_pt, Point3D { x: -1, y: -2, z: -3 });
}

#[test]
fn test_move_toe_point_accumulates() {
    let mut leg = Leg::new(Position::BackLeft);
    leg.move_toe_point(1_000, 1_000, 1_000);
    assert_eq!(leg.toe_pt, Point3D { x: 1_000, y: 1_000, z: 1_000 });
    leg.move_toe_point(-2_500, 0, 4_000);
    assert_eq!(leg.toe_pt, Point3D { x: -1_500, y: 1_000, z: 5_000 });
    assert_eq!(leg.hip_pt, Point3D { x: HIP_OFFSET_UM, y: HIP_OFFSET_UM, z: TIBIA_LEN_UM });
}

#[test]
fn test_move_equals_set_of_sum() {
    let mut moved = Leg::new(Position::FrontLeft);
    moved.set_toe_point(12_345, -6_789, 555);
    moved.move_toe_point(-45, 6_789, -1_555);

    let mut set_directly = Leg::new(Position::FrontLeft);
    set_directly.set_toe_point(12_345 - 45, -6_789 + 6_789, 555 - 1_555);

    assert_eq!(moved, set_directly);
}
