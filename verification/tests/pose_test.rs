use reach_me_if_you_can::robot::pose::RobotPose;

#[test]
fn new_pose_puts_every_joint_at_base() {
    let pose = RobotPose::new((3, 4), 4);
    assert_eq!(pose.joint_count(), 4);
    assert_eq!(pose.joint_positions, vec![(3, 4); 4]);
    assert_eq!(pose.end_effector(), (3, 4));
}

#[test]
fn from_positions_ends_at_last_position() {
    let pose = RobotPose::from_positions(vec![(0, 0), (10, 0), (10, 5)]);
    assert_eq!(pose.end_effector(), (10, 5));
    assert_eq!(pose.joint_position(0), Some((0, 0)));
    assert_eq!(pose.joint_position(3), None);
}

#[test]
fn moving_last_joint_moves_end_effector() {
    let mut pose = RobotPose::from_positions(vec![(0, 0), (10, 0), (20, 0)]);
    assert!(pose.set_joint_position(1, (7, 7)));
    assert_eq!(pose.end_effector(), (20, 0));
    assert!(pose.set_joint_position(2, (9, 9)));
    assert_eq!(pose.end_effector(), (9, 9));
    assert_eq!(pose.joint_positions, vec![(0, 0), (7, 7), (9, 9)]);
    assert!(!pose.set_joint_position(3, (1, 1)));
    assert_eq!(pose.joint_positions, vec![(0, 0), (7, 7), (9, 9)]);
}

#[test]
fn set_positions_requires_matching_count() {
    let mut pose = RobotPose::from_positions(vec![(0, 0), (1, 1)]);
    assert!(!pose.set_positions(&[(5, 5)]));
    assert_eq!(pose.end_effector(), (1, 1));
    assert!(pose.set_positions(&[(2, 2), (3, 3)]));
    assert_eq!(pose.joint_positions, vec![(2, 2), (3, 3)]);
    assert_eq!(pose.end_effector(), (3, 3));
}

#[test]
fn set_end_effector_moves_last_joint() {
    let mut pose = RobotPose::from_positions(vec![(0, 0), (1, 1)]);
    pose.set_end_effector((8, 8));
    assert_eq!(pose.joint_positions, vec![(0, 0), (8, 8)]);
    assert_eq!(pose.end_effector(), (8, 8));
}

#[test]
fn reset_returns_every_joint_to_base() {
    let mut pose = RobotPose::from_positions(vec![(0, 0), (1, 1), (2, 2)]);
    pose.reset((6, 6));
    assert_eq!(pose.joint_positions, vec![(6, 6); 3]);
    assert_eq!(pose.end_effector(), (6, 6));
}
