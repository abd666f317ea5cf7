use uncertain_numerics::{diagonal_positions, upper_triangle_pairs};

#[test]
fn upper_triangle_pairs_are_listed_in_row_major_order() {
    assert_eq!(upper_triangle_pairs(0), Vec::<(usize, usize)>::new());
    assert_eq!(upper_triangle_pairs(1), Vec::<(usize, usize)>::new());
    assert_eq!(upper_triangle_pairs(3), vec![(0, 1), (0, 2), (1, 2)]);
    assert_eq!(upper_triangle_pairs(4).len(), 6);
}

#[test]
fn diagonal_positions_of_a_row_major_matrix() {
    assert_eq!(diagonal_positions(0), Vec::<usize>::new());
    assert_eq!(diagonal_positions(3), vec![0, 4, 8]);
    assert_eq!(diagonal_positions(2), vec![0, 3]);
}
