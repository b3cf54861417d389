use glpk_api::convert::{
    copy_integers, copy_variables, to_borrowed_objective, to_glpk_polyhedron,
    to_many_borrowed_objectives,
};
use glpk_api::matrix::{compress_columns, group_by_row};
use glpk_api::models::{
    ApiIntegerSparseMatrix, ApiShape, ApiVariable, Objective, SparseLEIntegerPolyhedron,
};
use glpk_api::solver::constraint_rows;

fn matrix(
    rows: Vec<i32>,
    cols: Vec<i32>,
    vals: Vec<i32>,
    nrows: usize,
    ncols: usize,
) -> ApiIntegerSparseMatrix {
    ApiIntegerSparseMatrix { rows, cols, vals, shape: ApiShape { nrows, ncols } }
}

fn triangle() -> ApiIntegerSparseMatrix {
    matrix(vec![0, 0, 1, 1, 2, 2], vec![0, 1, 0, 2, 1, 2], vec![1, 1, 1, 1, 1, 1], 3, 3)
}

#[test]
fn rows_are_grouped_in_storage_order() {
    let groups = group_by_row(&triangle());
    assert_eq!(groups, vec![vec![(0, 1), (1, 1)], vec![(0, 1), (2, 1)], vec![(1, 1), (2, 1)]]);
}

#[test]
fn grouping_keeps_rows_without_entries() {
    let m = matrix(vec![2, 0], vec![1, 0], vec![5, -7], 4, 2);
    let groups = group_by_row(&m);
    assert_eq!(groups, vec![vec![(0, -7)], vec![], vec![(1, 5)], vec![]]);
}

#[test]
fn grouping_drops_entries_outside_the_shape() {
    let m = matrix(vec![0, -1, 0, 2, 1], vec![0, 0, -3, 0, 2], vec![1, 2, 3, 4, 5], 2, 2);
    let groups = group_by_row(&m);
    assert_eq!(groups, vec![vec![(0, 1)], vec![]]);
}

#[test]
fn grouping_keeps_repeated_positions_side_by_side() {
    let m = matrix(vec![0, 0, 0], vec![1, 1, 0], vec![2, 3, 4], 1, 2);
    let groups = group_by_row(&m);
    assert_eq!(groups, vec![vec![(1, 2), (1, 3), (0, 4)]]);
}

#[test]
fn columns_and_values_beyond_the_rows_are_no_entries() {
    let m = matrix(vec![0], vec![1, 0, 0], vec![5, 6], 1, 2);
    assert_eq!(group_by_row(&m), vec![vec![(1, 5)]]);
    let csc = compress_columns(&m, 2);
    assert_eq!(csc.col_start, vec![0, 0, 1]);
    assert_eq!(csc.col_index, vec![0]);
    assert_eq!(csc.col_value, vec![5]);
}

#[test]
fn grouping_an_empty_matrix() {
    let m = matrix(vec![], vec![], vec![], 2, 3);
    assert_eq!(group_by_row(&m), vec![vec![], vec![]]);
    let none = matrix(vec![], vec![], vec![], 0, 0);
    assert!(group_by_row(&none).is_empty());
}

#[test]
fn columns_are_compressed_column_by_column() {
    let csc = compress_columns(&triangle(), 3);
    assert_eq!(csc.col_start, vec![0, 2, 4, 6]);
    assert_eq!(csc.col_index, vec![0, 1, 0, 2, 1, 2]);
    assert_eq!(csc.col_value, vec![1, 1, 1, 1, 1, 1]);
}

#[test]
fn compression_of_an_unsorted_matrix() {
    let m = matrix(vec![1, 0, 1, 0], vec![2, 0, 0, 2], vec![7, 8, 9, 10], 2, 3);
    let csc = compress_columns(&m, 3);
    assert_eq!(csc.col_start, vec![0, 2, 2, 4]);
    assert_eq!(csc.col_index, vec![0, 1, 1, 0]);
    assert_eq!(csc.col_value, vec![8, 9, 7, 10]);
}

#[test]
fn compression_drops_columns_out_of_range_and_keeps_all_rows() {
    let m = matrix(vec![5, 0, -1, 0], vec![0, 3, 1, -1], vec![1, 2, 3, 4], 1, 2);
    let csc = compress_columns(&m, 2);
    assert_eq!(csc.col_start, vec![0, 1, 2]);
    assert_eq!(csc.col_index, vec![5, -1]);
    assert_eq!(csc.col_value, vec![1, 3]);
}

#[test]
fn compression_without_columns_or_entries() {
    let csc = compress_columns(&triangle(), 0);
    assert_eq!(csc.col_start, vec![0]);
    assert!(csc.col_index.is_empty() && csc.col_value.is_empty());
    let empty = compress_columns(&matrix(vec![], vec![], vec![], 0, 2), 2);
    assert_eq!(empty.col_start, vec![0, 0, 0]);
    assert!(empty.col_index.is_empty());
}

#[test]
fn regrouping_leaves_the_matrix_as_it_was() {
    let m = triangle();
    let before = m.clone();
    let _ = group_by_row(&m);
    let _ = compress_columns(&m, 3);
    assert_eq!(m, before);
}

#[test]
fn constraints_come_from_rows_with_entries_only() {
    let polyhedron = SparseLEIntegerPolyhedron {
        a: matrix(vec![2, 0, 2], vec![1, 0, 0], vec![5, -7, 1], 4, 2),
        b: vec![10, 20, 30],
        variables: vec![
            ApiVariable { id: "x".to_string(), bound: (0, 1) },
            ApiVariable { id: "y".to_string(), bound: (0, 1) },
        ],
    };
    let rows = constraint_rows(&polyhedron);
    assert_eq!(rows.len(), 2);
    assert_eq!((rows[0].index, rows[0].terms.clone(), rows[0].rhs), (0, vec![(0, -7)], 10));
    assert_eq!((rows[1].index, rows[1].terms.clone(), rows[1].rhs), (2, vec![(1, 5), (0, 1)], 30));
}

#[test]
fn a_row_beyond_b_gets_the_right_hand_side_zero() {
    let polyhedron = SparseLEIntegerPolyhedron {
        a: matrix(vec![1], vec![0], vec![3], 2, 1),
        b: vec![9],
        variables: vec![ApiVariable { id: "x".to_string(), bound: (0, 1) }],
    };
    let rows = constraint_rows(&polyhedron);
    assert_eq!(rows.len(), 1);
    assert_eq!((rows[0].index, rows[0].rhs), (1, 0));
}

#[test]
fn the_engine_shape_bounds_each_row_from_zero_to_b() {
    let polyhedron = SparseLEIntegerPolyhedron {
        a: triangle(),
        b: vec![1, -4, 7],
        variables: vec![
            ApiVariable { id: "x1".to_string(), bound: (0, 1) },
            ApiVariable { id: "x2".to_string(), bound: (-2, 5) },
            ApiVariable { id: "x3".to_string(), bound: (3, 3) },
        ],
    };
    let g = to_glpk_polyhedron(&polyhedron);
    assert_eq!(g.a.rows, polyhedron.a.rows);
    assert_eq!(g.a.cols, polyhedron.a.cols);
    assert_eq!(g.a.vals, polyhedron.a.vals);
    assert_eq!(g.b, vec![(0, 1), (0, -4), (0, 7)]);
    assert_eq!(g.variables, polyhedron.variables);
    assert!(!g.double_bound);
}

#[test]
fn copies_are_equal_to_their_sources() {
    assert_eq!(copy_integers(&vec![3, -1, 0]), vec![3, -1, 0]);
    assert!(copy_integers(&vec![]).is_empty());
    let variables = vec![ApiVariable { id: "a".to_string(), bound: (1, 2) }];
    assert_eq!(copy_variables(&variables), variables);
}

#[test]
fn borrowed_objectives_keep_entries_and_order() {
    let first = Objective { entries: vec![("x".to_string(), 1.0), ("y".to_string(), 2.5)] };
    let second: Objective<f64> = Objective { entries: vec![] };
    assert_eq!(to_borrowed_objective(&first), vec![("x", 1.0), ("y", 2.5)]);
    let objectives = vec![first, second];
    let many = to_many_borrowed_objectives(&objectives);
    assert_eq!(many, vec![vec![("x", 1.0), ("y", 2.5)], vec![]]);
}
