use odr_mesh::lanes::lane_strip_indices;
use odr_mesh::strip::{append_shifted_indices, generate_strip_indices};

#[test]
fn lane_builder_test_generate_indices() {
    // three samples give two quads, four triangles, twelve indices
    let indices = generate_strip_indices(3);
    assert_eq!(indices.len(), 12);
    assert_eq!(&indices[0..6], &[0, 1, 2, 1, 3, 2]);
}

#[test]
fn road_mark_builder_test_generate_indices() {
    let indices = generate_strip_indices(3);
    assert_eq!(indices.len(), 12);
    assert_eq!(&indices[0..6], &[0, 1, 2, 1, 3, 2]);
}

#[test]
fn strip_second_quad_is_shifted_by_two() {
    let indices = generate_strip_indices(3);
    assert_eq!(&indices[6..12], &[2, 3, 4, 3, 5, 4]);
}

#[test]
fn strip_of_one_sample_is_empty() {
    assert!(generate_strip_indices(1).is_empty());
}

#[test]
fn strip_of_two_lane_section_has_120_indices() {
    // a 20 m section sampled every metre: 21 samples, 42 vertices
    let n = 21;
    let indices = generate_strip_indices(n);
    assert_eq!(indices.len(), 120);
    assert!(indices.iter().all(|&i| (i as usize) < 2 * n));
    assert_eq!(*indices.iter().max().unwrap(), 41);
}

#[test]
fn strip_of_largest_size_stays_in_range() {
    let n = 32768;
    let indices = generate_strip_indices(n);
    assert_eq!(indices.len(), 6 * (n - 1));
    assert_eq!(*indices.iter().max().unwrap(), u16::MAX);
}

#[test]
fn centre_lane_has_no_strip() {
    assert!(lane_strip_indices(0, 21).is_empty());
    assert_eq!(lane_strip_indices(1, 21).len(), 120);
    assert_eq!(lane_strip_indices(-1, 21), generate_strip_indices(21));
}

#[test]
fn merged_indices_are_offset_by_vertex_count() {
    let mut indices = generate_strip_indices(2);
    let other = generate_strip_indices(2);
    append_shifted_indices(&mut indices, &other, 4);
    assert_eq!(indices, vec![0, 1, 2, 1, 3, 2, 4, 5, 6, 5, 7, 6]);
}
