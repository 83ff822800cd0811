//! Row-major index bookkeeping shared by the minor and cofactor
//! constructions of the square matrix types.

use vstd::prelude::*;
use crate::fpbits::{NEG_ONE_BITS, ONE_BITS};

verus! {

/// The flat index, in an `n` x `n` row-major matrix, of the `k`-th entry (in
/// row-major order of the reduced matrix) that survives deleting one row and
/// one column. The deleted cell is keyed as `i + j*n`: the minor at key
/// `(i, j)` deletes row `j` and column `i`, and the `k`-th survivor sits at
/// the `k / (n-1)`-th remaining row and the `k % (n-1)`-th remaining column.
pub open spec fn minor_index(n: int, i: int, j: int, k: int) -> int {
    let r = k / (n - 1);
    let c = k % (n - 1);
    let row = if r < j {
        r
    } else {
        r + 1
    };
    let col = if c < i {
        c
    } else {
        c + 1
    };
    row * n + col
}

/// The scalar `(-1)^(i+1+j+1)` that signs the (`i`, `j`) minor determinant
/// in a cofactor matrix: `1.0` when `i + j` is even, `-1.0` when it is odd.
pub open spec fn cof_sign(i: int, j: int) -> u32 {
    if (i + j) % 2 == 0 {
        ONE_BITS
    } else {
        NEG_ONE_BITS
    }
}

} // verus!
