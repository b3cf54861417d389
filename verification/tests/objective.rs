use glpk_api::models::Objective;
use glpk_api::objective::{objective_value, EXACT_LIMIT};

fn objective(entries: &[(&str, i64)]) -> Objective<i64> {
    Objective { entries: entries.iter().map(|(id, c)| (id.to_string(), *c)).collect() }
}

fn point(entries: &[(&str, i32)]) -> Vec<(String, i32)> {
    entries.iter().map(|(id, v)| (id.to_string(), *v)).collect()
}

#[test]
fn the_value_is_the_sum_of_coefficient_times_value() {
    let target = objective(&[("x", 1), ("y", 2)]);
    assert_eq!(objective_value(&target, &point(&[("x", 0), ("y", 33)])), Some(66));
    assert_eq!(objective_value(&target, &point(&[("x", 50), ("y", 0)])), Some(50));
    assert_eq!(objective_value(&target, &point(&[("x", -3), ("y", 4)])), Some(5));
}

#[test]
fn the_zero_objective_is_worth_zero_everywhere() {
    let nothing = objective(&[]);
    let zeros = objective(&[("x", 0), ("y", 0)]);
    for values in [[0, 0], [1, 1], [100, -7], [i32::MAX, i32::MIN]] {
        let at = point(&[("x", values[0]), ("y", values[1])]);
        assert_eq!(objective_value(&nothing, &at), Some(0));
        assert_eq!(objective_value(&zeros, &at), Some(0));
    }
    assert_eq!(objective_value(&nothing, &point(&[])), Some(0));
}

#[test]
fn variables_that_the_objective_does_not_mention_add_nothing() {
    let target = objective(&[("x3", 1)]);
    assert_eq!(objective_value(&target, &point(&[("x1", 1), ("x2", 1), ("x3", 1)])), Some(1));
    assert_eq!(objective_value(&target, &point(&[("x1", 1), ("x2", 1)])), Some(0));
    let beyond = objective(&[("x3", 1), ("x9", 1000)]);
    assert_eq!(objective_value(&beyond, &point(&[("x3", 2)])), Some(2));
}

#[test]
fn a_variable_named_twice_counts_once_with_its_last_value() {
    let target = objective(&[("x", 10)]);
    assert_eq!(objective_value(&target, &point(&[("x", 1), ("y", 5), ("x", 3)])), Some(30));
}

#[test]
fn of_two_coefficients_for_one_variable_the_last_counts() {
    let target = objective(&[("x", 10), ("x", -1)]);
    assert_eq!(objective_value(&target, &point(&[("x", 4)])), Some(-4));
}

#[test]
fn the_value_is_cut_down_to_32_bits() {
    let target = objective(&[("x", 3)]);
    assert_eq!(objective_value(&target, &point(&[("x", i32::MAX)])), Some(i32::MAX));
    assert_eq!(objective_value(&target, &point(&[("x", i32::MIN)])), Some(i32::MIN));
    let exact = objective(&[("x", 1)]);
    assert_eq!(objective_value(&exact, &point(&[("x", i32::MAX)])), Some(i32::MAX));
    assert_eq!(objective_value(&exact, &point(&[("x", i32::MIN)])), Some(i32::MIN));
}

#[test]
fn no_value_is_given_from_two_to_the_53_on() {
    assert_eq!(EXACT_LIMIT, 1i128 << 53);
    let at = point(&[("x", 1), ("y", 1)]);
    let under = objective(&[("x", (1i64 << 53) - 1)]);
    assert_eq!(objective_value(&under, &at), Some(i32::MAX));
    let reached = objective(&[("x", 1i64 << 53)]);
    assert_eq!(objective_value(&reached, &at), None);
    let together = objective(&[("x", 1i64 << 52), ("y", -(1i64 << 52))]);
    assert_eq!(objective_value(&together, &at), None);
    let extreme = objective(&[("x", i64::MIN)]);
    assert_eq!(objective_value(&extreme, &point(&[("x", i32::MIN)])), None);
}

#[test]
fn the_value_agrees_with_double_precision() {
    let target = objective(&[("a", 7), ("b", -13), ("c", 1 << 20)]);
    let at = point(&[("a", 1000), ("b", 2000), ("c", -3)]);
    let in_floating_point: f64 = [(7.0, 1000.0), (-13.0, 2000.0), (1048576.0, -3.0)]
        .iter()
        .map(|(c, v): &(f64, f64)| c * v)
        .sum();
    assert_eq!(objective_value(&target, &at), Some(in_floating_point.round() as i32));
}
