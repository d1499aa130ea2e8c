//! The triangle mesh on which a warped picture is drawn.

use vstd::prelude::*;

verus! {

/// The vertex that one corner of the two triangles of cell `(i, j)` names, in
/// a mesh of `n` by `n` cells whose rows hold `n + 1` vertices.
pub open spec fn cell_corner(n: int, i: int, j: int, corner: int) -> int {
    let a = j * (n + 1) + i;
    if corner == 0 {
        a
    } else if corner == 1 || corner == 3 {
        a + 1
    } else if corner == 2 || corner == 5 {
        a + (n + 1)
    } else {
        a + (n + 1) + 1
    }
}

/// The `k`th index: six to a cell, cells row by row.
pub open spec fn mesh_index(n: int, k: int) -> int {
    cell_corner(n, (k / 6) % n, (k / 6) / n, k % 6)
}

/// The vertex indices of a mesh of `n` by `n` cells.
pub fn mesh_indices(n: u32) -> (indices: Vec<u32>)
    requires
        (n + 1) * (n + 1) <= u32::MAX,
        6 * n * n <= usize::MAX,
    ensures
        indices@.len() == 6 * n * n,
        forall|k: int|
            0 <= k < indices@.len() ==> #[trigger] indices@[k] == mesh_index(n as int, k),
{
    let mut indices: Vec<u32> = Vec::new();
    assert(n + 1 <= (n + 1) * (n + 1)) by (nonlinear_arith);
    let row: u32 = n + 1;
    let mut j: u32 = 0;
    while j < n
        invariant
            j <= n,
            row == n + 1,
            (n + 1) * (n + 1) <= u32::MAX,
            indices@.len() == 6 * (j * n),
            forall|k: int|
                0 <= k < indices@.len() ==> #[trigger] indices@[k] == mesh_index(n as int, k),
        decreases n - j,
    {
        let mut i: u32 = 0;
        while i < n
            invariant
                i <= n,
                j < n,
                row == n + 1,
                (n + 1) * (n + 1) <= u32::MAX,
                indices@.len() == 6 * (j * n + i),
                forall|k: int|
                    0 <= k < indices@.len() ==> #[trigger] indices@[k] == mesh_index(n as int, k),
            decreases n - i,
        {
            proof {
                assert((j + 2) * (n + 1) <= (n + 1) * (n + 1)) by (nonlinear_arith)
                    requires
                        j + 2 <= n + 1,
                        n >= 0,
                ;
                assert((j + 2) * (n + 1) == j * (n + 1) + 2 * (n + 1)) by (nonlinear_arith);
                assert(j * row == j * (n + 1)) by (nonlinear_arith)
                    requires
                        row == n + 1,
                ;
            }
            let a: u32 = j * row + i;
            let b: u32 = a + 1;
            let c: u32 = a + row;
            let d: u32 = c + 1;
            let ghost before = indices@;
            indices.push(a);
            indices.push(b);
            indices.push(c);
            indices.push(b);
            indices.push(d);
            indices.push(c);
            proof {
                let cell = j * n + i;
                assert(cell / (n as int) == j && cell % (n as int) == i) by {
                    vstd::arithmetic::div_mod::lemma_fundamental_div_mod_converse(
                        cell,
                        n as int,
                        j as int,
                        i as int,
                    );
                }
                assert forall|k: int| 0 <= k < indices@.len() implies #[trigger] indices@[k]
                    == mesh_index(n as int, k) by {
                    if k < before.len() {
                        assert(indices@[k] == before[k]);
                    } else {
                        assert(k / 6 == cell);
                    }
                }
            }
            i = i + 1;
        }
        assert((j + 1) * n == j * n + n) by (nonlinear_arith);
        j = j + 1;
    }
    assert(6 * (n * n) == 6 * n * n) by (nonlinear_arith);
    indices
}

/// Every index of the mesh names one of its vertices.
pub proof fn law_mesh_indices_in_range(n: int, k: int)
    requires
        0 <= k < 6 * n * n,
        n > 0,
    ensures
        0 <= mesh_index(n, k) < (n + 1) * (n + 1),
{
    let cell = k / 6;
    let i = cell % n;
    let j = cell / n;
    assert(cell < n * n) by (nonlinear_arith)
        requires
            k < 6 * n * n,
            cell == k / 6,
    ;
    vstd::arithmetic::div_mod::lemma_fundamental_div_mod(cell, n);
    assert(0 <= j < n) by (nonlinear_arith)
        requires
            0 <= cell < n * n,
            cell == n * j + i,
            0 <= i < n,
    ;
    assert(0 <= j * (n + 1) && (j + 2) * (n + 1) <= (n + 1) * (n + 1)) by (nonlinear_arith)
        requires
            0 <= j < n,
    ;
    assert((j + 2) * (n + 1) == j * (n + 1) + 2 * (n + 1)) by (nonlinear_arith);
}

} // verus!
