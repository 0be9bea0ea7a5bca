use odr_mesh::lanes::{inner_lane_positions, lane_side_sign, mark_normal_sign, OdrLaneLink};

fn inner_offset(ids: &Vec<i32>, widths: &[f64], lane_id: i32) -> f64 {
    let sum: f64 = inner_lane_positions(ids, lane_id).iter().map(|&p| widths[p]).sum();
    if lane_id < 0 {
        -sum
    } else {
        sum
    }
}

#[test]
fn test_calculate_inner_offset_with_descending_lane_ids() {
    let left_ids = vec![4, 3, 2, 1];
    let left_widths = [4.0, 3.0, 2.0, 1.0];
    let right_ids = vec![-1, -2, -3, -4];
    let right_widths = [1.0, 2.0, 3.0, 4.0];

    assert!((inner_offset(&left_ids, &left_widths, 1) - 0.0).abs() < 1e-6);
    assert!((inner_offset(&left_ids, &left_widths, 2) - 1.0).abs() < 1e-6);
    assert!((inner_offset(&left_ids, &left_widths, 3) - 3.0).abs() < 1e-6);
    assert!((inner_offset(&left_ids, &left_widths, 4) - 6.0).abs() < 1e-6);

    assert!((inner_offset(&right_ids, &right_widths, -1) - 0.0).abs() < 1e-6);
    assert!((inner_offset(&right_ids, &right_widths, -2) + 1.0).abs() < 1e-6);
    assert!((inner_offset(&right_ids, &right_widths, -3) + 3.0).abs() < 1e-6);
    assert!((inner_offset(&right_ids, &right_widths, -4) + 6.0).abs() < 1e-6);
}

#[test]
fn inner_positions_follow_list_order() {
    assert_eq!(inner_lane_positions(&vec![4, 3, 2, 1], 3), vec![2, 3]);
    assert_eq!(inner_lane_positions(&vec![1, 2, 3, 4], 3), vec![0, 1]);
    assert_eq!(inner_lane_positions(&vec![-1, -2, -3], -3), vec![0, 1]);
}

#[test]
fn inner_positions_of_innermost_and_centre_lane_are_empty() {
    assert!(inner_lane_positions(&vec![1, 2, 3], 1).is_empty());
    assert!(inner_lane_positions(&vec![1, 2, 3], 0).is_empty());
    assert!(inner_lane_positions(&vec![], 3).is_empty());
}

#[test]
fn inner_positions_ignore_lanes_of_the_other_side() {
    assert_eq!(inner_lane_positions(&vec![-1, 1, -2, 2], 3), vec![1, 3]);
    assert_eq!(inner_lane_positions(&vec![-1, 1, -2, 2], -3), vec![0, 2]);
}

#[test]
fn inner_offset_is_independent_of_lane_order() {
    let a_ids = vec![1, 2, 3, 4];
    let a_widths = [1.0, 2.0, 3.0, 4.0];
    let b_ids = vec![3, 1, 4, 2];
    let b_widths = [3.0, 1.0, 4.0, 2.0];
    for id in 1..=4 {
        assert_eq!(
            inner_offset(&a_ids, &a_widths, id),
            inner_offset(&b_ids, &b_widths, id)
        );
    }
}

#[test]
fn lane_signs() {
    assert_eq!(lane_side_sign(2), 1);
    assert_eq!(lane_side_sign(-2), -1);
    assert_eq!(lane_side_sign(0), 0);
    assert_eq!(mark_normal_sign(2), 1);
    assert_eq!(mark_normal_sign(0), 1);
    assert_eq!(mark_normal_sign(-1), -1);
}

#[test]
fn lane_link_connections() {
    let none = OdrLaneLink::new(None, None);
    assert!(!none.has_predecessor());
    assert!(!none.has_successor());
    assert!(!none.is_connected());
    let pred = OdrLaneLink::new(Some(-1), None);
    assert!(pred.has_predecessor());
    assert!(!pred.has_successor());
    assert!(pred.is_connected());
    let succ = OdrLaneLink::new(None, Some(2));
    assert!(succ.has_successor());
    assert!(succ.is_connected());
}
