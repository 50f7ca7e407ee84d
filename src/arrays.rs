//! Fixed-size arrays: a list of primes and the transpose of a 3 by 3 matrix.
use vstd::prelude::*;

verus! {

/// The first ten primes, in increasing order.
pub fn primes() -> (r: [i32; 10])
    ensures
        r@ == seq![2i32, 3, 5, 7, 11, 13, 17, 19, 23, 29],
{
    [2, 3, 5, 7, 11, 13, 17, 19, 23, 29]
}

/// Whether no number from 2 up to `n - 1` divides `n`.
pub fn has_no_proper_divisor(n: i32) -> (r: bool)
    ensures
        r == (forall|d: int| 2 <= d < n ==> #[trigger] (n as int % d) != 0),
{
    let mut d: i32 = 2;
    while d < n
        invariant
            2 <= d,
            n >= 2 ==> d <= n,
            forall|k: int| 2 <= k < d ==> #[trigger] (n as int % k) != 0,
        decreases n - d,
    {
        if n % d == 0 {
            assert(n as int % d as int == 0);
            return false;
        }
        d = d + 1;
    }
    true
}

/// The transpose of `matrix`: row `i` of the result is column `i` of the
/// input.
pub fn transpose(matrix: [[i32; 3]; 3]) -> (r: [[i32; 3]; 3])
    ensures
        forall|i: int, j: int| 0 <= i < 3 && 0 <= j < 3 ==> #[trigger] r@[i]@[j] == matrix@[j]@[i],
{
    let mut transpose_matrix: [[i32; 3]; 3] = [[0; 3]; 3];
    for row in 0..3
        invariant
            forall|i: int, j: int|
                0 <= i < row && 0 <= j < 3 ==> #[trigger] transpose_matrix@[i]@[j] == matrix@[j]@[i],
    {
        let mut line: [i32; 3] = [0; 3];
        for col in 0..3
            invariant
                row < 3,
                forall|j: int| 0 <= j < col ==> #[trigger] line@[j] == matrix@[j]@[row as int],
        {
            line[col] = matrix[col][row];
        }
        transpose_matrix[row] = line;
    }
    transpose_matrix
}

} // verus!
