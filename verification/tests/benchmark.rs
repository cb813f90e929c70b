use ndarray::Array2;
use rust_wasm_compute::bench::{
    benchmark_size, benchmark_sizes, completion_message, effective_iterations,
    ones_matrix_product_sum,
};
use rust_wasm_compute::decimal::u64_string;

#[test]
fn requested_iterations_are_kept() {
    assert_eq!(effective_iterations(Some(5)), 5);
    assert_eq!(effective_iterations(Some(0)), 0);
}

#[test]
fn missing_iterations_default_to_one_thousand() {
    assert_eq!(effective_iterations(None), 1000);
}

#[test]
fn sizes_cycle_from_100_to_149() {
    assert_eq!(benchmark_size(0), 100);
    assert_eq!(benchmark_size(49), 149);
    assert_eq!(benchmark_size(50), 100);
    assert_eq!(benchmark_size(137), 137);
}

#[test]
fn plan_has_one_size_per_iteration_in_order() {
    let sizes = benchmark_sizes(120);
    assert_eq!(sizes.len(), 120);
    for (i, s) in sizes.iter().enumerate() {
        assert_eq!(*s, 100 + i % 50);
    }
}

#[test]
fn empty_plan_for_zero_iterations() {
    assert_eq!(benchmark_sizes(0).len(), 0);
}

#[test]
fn ones_product_sum_is_the_cube_of_the_size() {
    assert_eq!(ones_matrix_product_sum(1), 1);
    assert_eq!(ones_matrix_product_sum(3), 27);
    assert_eq!(ones_matrix_product_sum(100), 1_000_000);
    assert_eq!(ones_matrix_product_sum(149), 3_307_949);
}

#[test]
fn ones_product_sum_matches_the_matrix_kernel() {
    for size in [1usize, 3, 10, 17] {
        let a = Array2::<f64>::ones((size, size));
        let b = Array2::<f64>::ones((size, size));
        let kernel_sum = a.dot(&b).sum();
        assert_eq!(kernel_sum, ones_matrix_product_sum(size) as f64);
    }
}

#[test]
fn completion_message_names_the_iteration_count() {
    assert_eq!(completion_message(5), "Completed 5 iterations");
    assert_eq!(completion_message(1000), "Completed 1000 iterations");
    assert_eq!(completion_message(0), "Completed 0 iterations");
}

#[test]
fn decimal_rendering_of_u64() {
    assert_eq!(u64_string(0), "0");
    assert_eq!(u64_string(7), "7");
    assert_eq!(u64_string(10), "10");
    assert_eq!(u64_string(12345), "12345");
    assert_eq!(u64_string(u64::MAX), "18446744073709551615");
}
