use vstd::prelude::*;

verus! {

/// The rows of a matrix, each as a sequence of its entries.
pub open spec fn rows_of(m: Seq<Vec<i32>>) -> Seq<Seq<i32>> {
    m.map_values(|row: Vec<i32>| row@)
}

/// Every row has as many entries as there are rows.
pub open spec fn is_square(m: Seq<Seq<i32>>) -> bool {
    forall|i: int| 0 <= i < m.len() ==> #[trigger] m[i].len() == m.len()
}

/// The matrix turned a quarter turn clockwise: the entry at row `i` and
/// column `j` is the input's entry at row `n - 1 - j` and column `i`.
pub open spec fn rotated(m: Seq<Seq<i32>>) -> Seq<Seq<i32>> {
    Seq::new(m.len(), |i: int| Seq::new(m.len(), |j: int| m[m.len() - 1 - j][i]))
}

/// Turns a square matrix a quarter turn clockwise, into a new matrix.
pub fn rotate(m: &Vec<Vec<i32>>) -> (r: Vec<Vec<i32>>)
    requires
        is_square(rows_of(m@)),
    ensures
        rows_of(r@) == rotated(rows_of(m@)),
{
    let n = m.len();
    let ghost src = rows_of(m@);
    let mut result: Vec<Vec<i32>> = Vec::with_capacity(n);
    let mut linha: usize = 0;
    while linha < n
        invariant
            n == m@.len(),
            src == rows_of(m@),
            is_square(src),
            linha <= n,
            result@.len() == linha,
            forall|i: int| 0 <= i < linha ==> #[trigger] result@[i]@ == rotated(src)[i],
        decreases n - linha,
    {
        let mut row: Vec<i32> = Vec::with_capacity(n);
        let mut coluna: usize = 0;
        while coluna < n
            invariant
                n == m@.len(),
                src == rows_of(m@),
                is_square(src),
                linha < n,
                coluna <= n,
                row@.len() == coluna,
                forall|j: int| 0 <= j < coluna ==> #[trigger] row@[j] == src[n - 1 - j][linha as int],
            decreases n - coluna,
        {
            assert(m@[n - 1 - coluna]@ == src[n - 1 - coluna]);
            row.push(m[n - 1 - coluna][linha]);
            coluna += 1;
        }
        assert(row@ =~= rotated(src)[linha as int]);
        result.push(row);
        linha += 1;
    }
    assert(rows_of(result@) =~= rotated(src));
    result
}

/// A quarter turn keeps a matrix square.
pub proof fn lemma_rotated_is_square(m: Seq<Seq<i32>>)
    requires
        is_square(m),
    ensures
        is_square(rotated(m)),
        rotated(m).len() == m.len(),
{
}

/// Four quarter turns bring a square matrix back to itself.
pub proof fn lemma_four_rotations_identity(m: Seq<Seq<i32>>)
    requires
        is_square(m),
    ensures
        rotated(rotated(rotated(rotated(m)))) == m,
{
    let n = m.len();
    let r1 = rotated(m);
    let r2 = rotated(r1);
    let r3 = rotated(r2);
    let r4 = rotated(r3);
    lemma_rotated_is_square(m);
    lemma_rotated_is_square(r1);
    lemma_rotated_is_square(r2);
    lemma_rotated_is_square(r3);
    assert forall|i: int, j: int| 0 <= i < n && 0 <= j < n implies r4[i][j] == m[i][j] by {
        assert(r4[i][j] == r3[n - 1 - j][i]);
        assert(r3[n - 1 - j][i] == r2[n - 1 - i][n - 1 - j]);
        assert(r2[n - 1 - i][n - 1 - j] == r1[j][n - 1 - i]);
        assert(r1[j][n - 1 - i] == m[i][j]);
    }
    assert forall|i: int| 0 <= i < n implies #[trigger] r4[i] =~= m[i] by {}
    assert(r4 =~= m);
}

} // verus!
