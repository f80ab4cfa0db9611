use reach_me_if_you_can::gui::panel::{clamp_joint_count, MAX_JOINT_COUNT, MIN_JOINT_COUNT};
use reach_me_if_you_can::gui::widgets::{
    dropdown_state, slider_dragging, stepper_value, DropdownItemState, DropdownResult,
};
use reach_me_if_you_can::kinematics::damped_ls::JacobianDLS;
use reach_me_if_you_can::kinematics::inverse::{SolverKind, SOLVER_COUNT};
use reach_me_if_you_can::kinematics::pseudoinverse::{
    JacobianPseudoInverse, JacobianPseudoInverseUndamped,
};
use reach_me_if_you_can::kinematics::transpose::JacobianTranspose;

fn item(hovered: bool, enabled: bool) -> DropdownItemState {
    DropdownItemState { hovered, enabled }
}

#[test]
fn joint_count_is_clamped_to_panel_range() {
    assert_eq!(clamp_joint_count(0), MIN_JOINT_COUNT);
    assert_eq!(clamp_joint_count(3), 3);
    assert_eq!(clamp_joint_count(9), MAX_JOINT_COUNT);
    assert_eq!(MIN_JOINT_COUNT, 2);
    assert_eq!(MAX_JOINT_COUNT, 5);
}

#[test]
fn stepper_moves_by_one_within_range() {
    assert_eq!(stepper_value(3, 2, 5, true, true, false), 2);
    assert_eq!(stepper_value(2, 2, 5, true, true, false), 2);
    assert_eq!(stepper_value(3, 2, 5, true, false, true), 4);
    assert_eq!(stepper_value(5, 2, 5, true, false, true), 5);
    assert_eq!(stepper_value(3, 2, 5, false, true, true), 3);
    assert_eq!(stepper_value(2, 2, 5, true, true, true), 3);
}

#[test]
fn slider_drag_starts_on_press_and_ends_on_release() {
    assert!(slider_dragging(false, true, true, false));
    assert!(!slider_dragging(false, true, false, false));
    assert!(slider_dragging(true, false, false, false));
    assert!(!slider_dragging(true, false, false, true));
    assert!(!slider_dragging(false, true, true, true));
}

#[test]
fn dropdown_button_toggles_list() {
    let items = vec![item(false, true), item(false, true)];
    let result = dropdown_state(1, false, true, true, &items, true);
    assert_eq!(result, DropdownResult { selected_index: 1, open: true });
    let result = dropdown_state(1, true, true, true, &items, true);
    assert_eq!(result, DropdownResult { selected_index: 1, open: false });
}

#[test]
fn dropdown_selects_hovered_enabled_item_and_closes() {
    let items = vec![item(false, true), item(false, true), item(true, true), item(false, true)];
    let result = dropdown_state(1, true, true, false, &items, true);
    assert_eq!(result, DropdownResult { selected_index: 2, open: false });
}

#[test]
fn dropdown_ignores_disabled_item() {
    let items = vec![item(false, true), item(true, false)];
    let result = dropdown_state(0, true, true, false, &items, true);
    assert_eq!(result, DropdownResult { selected_index: 0, open: true });
}

#[test]
fn dropdown_closes_on_click_outside() {
    let items = vec![item(false, true), item(false, true)];
    let result = dropdown_state(0, true, true, false, &items, false);
    assert_eq!(result, DropdownResult { selected_index: 0, open: false });
    let result = dropdown_state(0, true, false, false, &items, false);
    assert_eq!(result, DropdownResult { selected_index: 0, open: true });
}

#[test]
fn solver_kinds_follow_panel_order() {
    assert_eq!(SolverKind::from_index(0), SolverKind::Transpose);
    assert_eq!(SolverKind::from_index(1), SolverKind::PseudoInverse);
    assert_eq!(SolverKind::from_index(2), SolverKind::PseudoInverseUndamped);
    assert_eq!(SolverKind::from_index(3), SolverKind::DampedLeastSquares);
    assert_eq!(SolverKind::from_index(17), SolverKind::DampedLeastSquares);
    assert_eq!(SOLVER_COUNT, 4);
    let mut index = 0;
    while index < SOLVER_COUNT {
        assert_eq!(SolverKind::from_index(index).index(), index);
        index += 1;
    }
}

#[test]
fn solver_types_are_plain_values() {
    assert_eq!(JacobianDLS, JacobianDLS);
    assert_eq!(JacobianTranspose, JacobianTranspose);
    assert_eq!(JacobianPseudoInverse, JacobianPseudoInverse);
    assert_eq!(JacobianPseudoInverseUndamped, JacobianPseudoInverseUndamped);
}
