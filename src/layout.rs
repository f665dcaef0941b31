use vstd::arithmetic::div_mod::lemma_fundamental_div_mod_converse;
use vstd::prelude::*;

verus! {

/// Position, in the column-major storage of an `n` by `n` matrix, of the
/// entry at `row` and `col`: consecutive positions run down a column.
pub open spec fn column_major_index(n: int, row: int, col: int) -> int {
    col * n + row
}

/// For position `i` of the column-major storage of an `n` by `n` matrix, the
/// position that holds the same entry when the matrix is written row by row.
pub open spec fn row_major_position(n: int, i: int) -> int {
    (i % n) * n + i / n
}

/// The column-major storage of the `n` by `n` matrix whose entries are given
/// row by row in `rows`.
pub open spec fn column_major_of<T>(n: int, rows: Seq<T>) -> Seq<T> {
    Seq::new((n * n) as nat, |i: int| rows[row_major_position(n, i)])
}

/// Storing a matrix column by column keeps every entry in its place: the
/// entry at `row` and `col` of the column-major storage is the one given at
/// that row and column.
pub proof fn lemma_column_major_entry<T>(n: int, rows: Seq<T>, row: int, col: int)
    requires
        0 <= row < n,
        0 <= col < n,
        rows.len() == n * n,
    ensures
        0 <= column_major_index(n, row, col) < n * n,
        column_major_of(n, rows)[column_major_index(n, row, col)] == rows[row * n + col],
{
    let i = column_major_index(n, row, col);
    assert(0 <= col * n + row < n * n) by (nonlinear_arith)
        requires
            0 <= row < n,
            0 <= col < n,
    ;
    lemma_fundamental_div_mod_converse(i, n, col, row);
}

} // verus!
