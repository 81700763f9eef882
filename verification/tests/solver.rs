use sem::solver::{
    check_inputs, free_points, grid_idx, mask_bytes, stencil, Cell, Coupling, Mask, SolverError,
};

fn fixed_mask(n_r: usize, n_z: usize) -> Mask {
    let mut mask = Mask::new(n_r, n_z);
    mask.fix_outer_boundary();
    mask
}

#[test]
fn solve_valid_inputs_returns_ok() {
    let mask = fixed_mask(5, 5);
    assert!(check_inputs(5, 5, &mask).is_ok());
}

#[test]
fn solve_dimension_mismatch() {
    let result = check_inputs(5, 5, &Mask::new(4, 5));
    assert!(matches!(result, Err(SolverError::DimensionMismatch { .. })));
    assert_eq!(result, Err(SolverError::DimensionMismatch { grid: (5, 5), mask: (4, 5) }));
}

#[test]
fn solve_grid_too_small_r() {
    let result = check_inputs(2, 5, &Mask::new(2, 5));
    assert!(matches!(result, Err(SolverError::GridTooSmall { .. })));
    assert_eq!(result, Err(SolverError::GridTooSmall { n_r: 2, n_z: 5 }));
}

#[test]
fn solve_grid_too_small_z() {
    let result = check_inputs(5, 2, &Mask::new(5, 2));
    assert!(matches!(result, Err(SolverError::GridTooSmall { .. })));
    assert_eq!(result, Err(SolverError::GridTooSmall { n_r: 5, n_z: 2 }));
}

#[test]
fn solve_boundary_not_fixed_on_bottom() {
    let mut mask = fixed_mask(5, 5);
    // Free one cell on the bottom row.
    let i = mask.idx(2, 0);
    mask.data[i] = Cell::Free;
    let result = check_inputs(5, 5, &mask);
    assert!(matches!(result, Err(SolverError::InvalidOuterBoundary { i_z: 0, .. })));
    assert_eq!(result, Err(SolverError::InvalidOuterBoundary { i_r: 2, i_z: 0 }));
}

#[test]
fn solve_boundary_not_fixed_on_top() {
    let mut mask = fixed_mask(5, 5);
    // Free one cell on the top row.
    mask.data[grid_idx(5, 2, 4)] = Cell::Free;
    let result = check_inputs(5, 5, &mask);
    assert!(matches!(result, Err(SolverError::InvalidOuterBoundary { i_z: 4, .. })));
    assert_eq!(result, Err(SolverError::InvalidOuterBoundary { i_r: 2, i_z: 4 }));
}

#[test]
fn solve_boundary_not_fixed_on_outer_radius() {
    let mut mask = fixed_mask(5, 5);
    // Free one interior-z cell on the outer radial column.
    mask.data[grid_idx(5, 4, 2)] = Cell::Free;
    let result = check_inputs(5, 5, &mask);
    assert!(matches!(result, Err(SolverError::InvalidOuterBoundary { i_r: 4, .. })));
    assert_eq!(result, Err(SolverError::InvalidOuterBoundary { i_r: 4, i_z: 2 }));
}

#[test]
fn fixing_the_boundary_leaves_the_interior_and_axis_free() {
    let mask = fixed_mask(4, 3);
    let expected = [
        1, 1, 1, 1, //
        0, 0, 0, 1, //
        1, 1, 1, 1,
    ];
    assert_eq!(mask_bytes(&mask), expected.to_vec());
}

#[test]
fn free_points_are_numbered_in_order() {
    let mask = fixed_mask(4, 3);
    let (index, points) = free_points(&mask);
    assert_eq!(points, vec![4, 5, 6]);
    assert_eq!(index[4], Some(0));
    assert_eq!(index[6], Some(2));
    assert_eq!(index[7], None);
    assert_eq!(index.len(), 12);
}

#[test]
fn stencils_weight_the_neighbours() {
    // On the axis: −6/8 for the point, 1/2 beside it, 1/8 above and below.
    let axis = stencil(5, 5, 0, 2);
    assert_eq!((axis.denominator, axis.centre), (8, 6));
    assert_eq!(
        axis.neighbours,
        vec![
            Coupling { neighbour: 11, weight: 4 },
            Coupling { neighbour: 15, weight: 1 },
            Coupling { neighbour: 5, weight: 1 },
        ]
    );
    // Off the axis at i_r = 2: −4·2, then 2.5, 1.5, 2 and 2, all over 2.
    let inner = stencil(5, 5, 2, 2);
    assert_eq!((inner.denominator, inner.centre), (2, 16));
    assert_eq!(
        inner.neighbours,
        vec![
            Coupling { neighbour: 13, weight: 5 },
            Coupling { neighbour: 11, weight: 3 },
            Coupling { neighbour: 17, weight: 4 },
            Coupling { neighbour: 7, weight: 4 },
        ]
    );
    let sum: u64 = inner.neighbours.iter().map(|c| c.weight).sum();
    assert_eq!(sum, inner.centre);
}
