use vstd::prelude::*;

verus! {

/// `pair` is the position `(row, column)` of an entry strictly above the
/// diagonal of a `dimension` by `dimension` matrix.
pub open spec fn is_upper_pair(dimension: int, pair: (usize, usize)) -> bool {
    pair.0 < pair.1 && pair.1 < dimension
}

/// `first` comes before `second` in row-major order.
pub open spec fn row_major_before(first: (usize, usize), second: (usize, usize)) -> bool {
    first.0 < second.0 || (first.0 == second.0 && first.1 < second.1)
}

/// Return the positions strictly above the diagonal of a square matrix of the
/// given dimension, each exactly once, in row-major order.
///
/// Symmetry of a row-major matrix is checked by comparing the entry at each of
/// these positions with its mirror below the diagonal, in this order.
pub fn upper_triangle_pairs(dimension: usize) -> (pairs: Vec<(usize, usize)>)
    ensures
        forall|i: int| 0 <= i < pairs@.len() ==> is_upper_pair(dimension as int, #[trigger] pairs@[i]),
        forall|pair: (usize, usize)| is_upper_pair(dimension as int, pair) ==> pairs@.contains(pair),
        forall|i: int, j: int|
            0 <= i < j < pairs@.len() ==> row_major_before(#[trigger] pairs@[i], #[trigger] pairs@[j]),
{
    let mut pairs: Vec<(usize, usize)> = Vec::new();
    let mut row: usize = 0;
    while row < dimension
        invariant
            row <= dimension,
            forall|i: int| 0 <= i < pairs@.len() ==> is_upper_pair(dimension as int, #[trigger] pairs@[i]),
            forall|i: int| 0 <= i < pairs@.len() ==> (#[trigger] pairs@[i]).0 < row,
            forall|pair: (usize, usize)|
                is_upper_pair(dimension as int, pair) && pair.0 < row ==> pairs@.contains(pair),
            forall|i: int, j: int|
                0 <= i < j < pairs@.len() ==> row_major_before(#[trigger] pairs@[i], #[trigger] pairs@[j]),
        decreases dimension - row,
    {
        let mut column: usize = row + 1;
        while column < dimension
            invariant
                row < dimension,
                row < column <= dimension,
                forall|i: int| 0 <= i < pairs@.len() ==> is_upper_pair(dimension as int, #[trigger] pairs@[i]),
                forall|i: int| 0 <= i < pairs@.len() ==> row_major_before(#[trigger] pairs@[i], (row, column)),
                forall|pair: (usize, usize)|
                    is_upper_pair(dimension as int, pair) && (pair.0 < row || (pair.0 == row && pair.1 < column))
                        ==> pairs@.contains(pair),
                forall|i: int, j: int|
                    0 <= i < j < pairs@.len() ==> row_major_before(#[trigger] pairs@[i], #[trigger] pairs@[j]),
            decreases dimension - column,
        {
            let ghost before = pairs@;
            pairs.push((row, column));
            proof {
                assert forall|pair: (usize, usize)|
                    is_upper_pair(dimension as int, pair) && (pair.0 < row || (pair.0 == row && pair.1
                        < column + 1)) implies pairs@.contains(pair) by {
                    if pair == (row, column) {
                        assert(pairs@[before.len() as int] == pair);
                    } else {
                        assert(before.contains(pair));
                        let k = choose|k: int| 0 <= k < before.len() && before[k] == pair;
                        assert(pairs@[k] == pair);
                    }
                }
            }
            column = column + 1;
        }
        row = row + 1;
    }
    pairs
}

/// Return the row-major positions of the diagonal of a square matrix of the
/// given dimension: position `i` holds `i * dimension + i`.
pub fn diagonal_positions(dimension: usize) -> (positions: Vec<usize>)
    requires
        dimension * dimension <= usize::MAX,
    ensures
        positions@.len() == dimension,
        forall|i: int| 0 <= i < dimension ==> #[trigger] positions@[i] == i * dimension + i,
{
    let mut positions: Vec<usize> = Vec::new();
    let mut index: usize = 0;
    while index < dimension
        invariant
            index <= dimension,
            dimension * dimension <= usize::MAX,
            positions@.len() == index,
            forall|i: int| 0 <= i < index ==> #[trigger] positions@[i] == i * dimension + i,
        decreases dimension - index,
    {
        proof {
            assert(index * dimension + index < dimension * dimension) by (nonlinear_arith)
                requires
                    index < dimension,
            ;
        }
        let position: usize = index * dimension + index;
        positions.push(position);
        index = index + 1;
    }
    positions
}

} // verus!
