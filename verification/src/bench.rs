//! The benchmark plan: how many iterations run, which matrix size each
//! iteration uses, the exact value the all-ones matrix kernel produces, and
//! the completion message of the response.

use vstd::prelude::*;
use crate::decimal::{append_u64, dec_str};
use vstd::string::StringExecFns;

verus! {

/// The iteration count actually run: the requested one, or 1000 when the
/// request did not give one.
pub fn effective_iterations(requested: Option<u32>) -> (r: u32)
    ensures
        r == (match requested {
            Some(n) => n,
            None => 1000u32,
        }),
{
    match requested {
        Some(n) => n,
        None => 1000,
    }
}

/// The matrix size used by iteration `i` of the benchmark.
pub open spec fn spec_benchmark_size(i: nat) -> nat {
    100 + i % 50
}

/// The matrix size used by iteration `i`: 100 plus the iteration index
/// modulo 50, so sizes cycle through 100..=149.
pub fn benchmark_size(i: u32) -> (r: usize)
    ensures
        r == spec_benchmark_size(i as nat),
{
    100 + (i % 50) as usize
}

/// The whole benchmark plan: the matrix size of every iteration, in the
/// order the iterations run.
pub fn benchmark_sizes(iterations: u32) -> (r: Vec<usize>)
    ensures
        r@.len() == iterations,
        forall|j: int| 0 <= j < iterations ==> r@[j] == spec_benchmark_size(j as nat),
{
    let mut sizes: Vec<usize> = Vec::new();
    let mut i: u32 = 0;
    while i < iterations
        invariant
            i <= iterations,
            sizes@.len() == i,
            forall|j: int| 0 <= j < i ==> sizes@[j] == spec_benchmark_size(j as nat),
        decreases iterations - i,
    {
        sizes.push(benchmark_size(i));
        i = i + 1;
    }
    sizes
}

/// The sum of all entries of the product of two `size`×`size` all-ones
/// matrices: every product entry equals `size`, and there are `size`²
/// entries, so the sum is `size`³. This is the exact value the benchmark
/// kernel computes for each iteration.
pub fn ones_matrix_product_sum(size: usize) -> (r: u64)
    requires
        size <= 2642245,
    ensures
        r == size * size * size,
{
    proof {
        assert(size * size <= 2642245 * 2642245 && (size * size) * size <= 2642245 * 2642245
            * 2642245) by (nonlinear_arith)
            requires
                size <= 2642245,
        ;
    }
    let s = size as u64;
    s * s * s
}

/// The `result` string of the benchmark response for the given iteration
/// count.
pub fn completion_message(iterations: u32) -> (r: String)
    ensures
        r@ == "Completed "@ + dec_str(iterations as nat) + " iterations"@,
{
    let mut out = "Completed ".to_owned();
    append_u64(&mut out, iterations as u64);
    let r = out.concat(" iterations");
    proof {
        assert(r@ =~= "Completed "@ + dec_str(iterations as nat) + " iterations"@);
    }
    r
}

} // verus!
