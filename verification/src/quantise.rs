use vstd::prelude::*;
use crate::network::DoTranspose;

verus! {

/// Where the weight of row `i` and column `j` stands in a block laid out with
/// the stride `stride`: feature by feature where the block is transposed, row
/// by row where it is not.
pub open spec fn block_index(flip: DoTranspose, stride: int, i: int, j: int) -> int {
    match flip {
        DoTranspose::Yes => j * stride + i,
        DoTranspose::No => i * stride + j,
    }
}

/// Whether the place `m` of a buffer is that of a weight of the block that
/// begins at `offset`.
pub open spec fn addressed<T>(
    weights: Seq<Vec<T>>,
    offset: int,
    stride: int,
    flip: DoTranspose,
    m: int,
) -> bool {
    exists|i: int, j: int|
        0 <= i < weights.len() && 0 <= j < weights[i]@.len() && m == offset + #[trigger] block_index(
            flip,
            stride,
            i,
            j,
        )
}

/// Whether no two weights of a block share a place: there are no more rows
/// than the stride where the block is transposed, and no row is longer than
/// the stride where it is not.
pub open spec fn apart<T>(weights: Seq<Vec<T>>, stride: int, flip: DoTranspose) -> bool {
    match flip {
        DoTranspose::Yes => weights.len() <= stride,
        DoTranspose::No => forall|i: int|
            0 <= i < weights.len() ==> (#[trigger] weights[i])@.len() <= stride,
    }
}

/// Cells laid out in runs of `inner` keep their order: a cell of an earlier
/// run, or an earlier cell of the same run, has the lesser place.
pub proof fn lemma_run_order(inner: int, a: int, b: int, a2: int, b2: int)
    by (nonlinear_arith)
    requires
        0 <= b < inner,
        0 <= b2 <= inner,
        0 <= a,
        a < a2 || (a == a2 && b < b2),
    ensures
        0 <= a * inner + b < a2 * inner + b2,
{
}

/// Two cells laid out in runs of `stride` have two places.
pub proof fn lemma_cells_apart(stride: int, a: int, b: int, a2: int, b2: int)
    requires
        0 <= b < stride,
        0 <= b2 < stride,
        0 <= a,
        0 <= a2,
        a != a2 || b != b2,
    ensures
        a * stride + b != a2 * stride + b2,
{
    if a < a2 || (a == a2 && b < b2) {
        lemma_run_order(stride, a, b, a2, b2);
    } else {
        lemma_run_order(stride, a2, b2, a, b);
    }
}

/// The places of a block lie at and behind its offset.
pub proof fn lemma_addressed_behind<T>(
    weights: Seq<Vec<T>>,
    offset: int,
    stride: int,
    flip: DoTranspose,
    m: int,
)
    requires
        addressed(weights, offset, stride, flip, m),
        0 <= stride,
    ensures
        offset <= m,
{
    let (i, j) = choose|i: int, j: int|
        0 <= i < weights.len() && 0 <= j < weights[i]@.len() && m == offset + #[trigger] block_index(
            flip,
            stride,
            i,
            j,
        );
    assert(0 <= i * stride && 0 <= j * stride) by (nonlinear_arith)
        requires
            0 <= i,
            0 <= j,
            0 <= stride,
    ;
}

/// Writes the fixed-point value of each weight, at the scale `k`, to its
/// place in the block of `buffer` that begins at `offset`: the weight of row
/// `i` and column `j` to `j * stride + i` behind the offset where the block
/// is transposed, to `i * stride + j` where it is not. Every place must lie in
/// the buffer, and no two weights may share one.
pub fn quantise_neurons<T: Copy, Q: Fn(T, i32) -> i16>(
    weights: &[Vec<T>],
    buffer: &mut Vec<i16>,
    offset: usize,
    stride: usize,
    k: i32,
    flip: DoTranspose,
    quantise: &Q,
)
    requires
        forall|i: int, j: int|
            0 <= i < weights@.len() && 0 <= j < weights@[i]@.len() ==> offset
                + #[trigger] block_index(flip, stride as int, i, j) < old(buffer)@.len(),
        apart(weights@, stride as int, flip),
        forall|v: T, s: i32| quantise.requires((v, s)),
    ensures
        final(buffer)@.len() == old(buffer)@.len(),
        forall|i: int, j: int|
            0 <= i < weights@.len() && 0 <= j < weights@[i]@.len() ==> quantise.ensures(
                (weights@[i]@[j], k),
                final(buffer)@[offset + #[trigger] block_index(flip, stride as int, i, j)],
            ),
        forall|m: int|
            0 <= m < old(buffer)@.len() && !addressed(
                weights@,
                offset as int,
                stride as int,
                flip,
                m,
            ) ==> final(buffer)@[m] == old(buffer)@[m],
{
    let ghost before = buffer@;
    assert(before.len() == buffer.len());
    let mut i: usize = 0;
    while i < weights.len()
        invariant
            i <= weights@.len(),
            before.len() <= usize::MAX,
            forall|i2: int, j2: int|
                0 <= i2 < weights@.len() && 0 <= j2 < weights@[i2]@.len() ==> offset
                    + #[trigger] block_index(flip, stride as int, i2, j2) < before.len(),
            apart(weights@, stride as int, flip),
            forall|v: T, s: i32| quantise.requires((v, s)),
            buffer@.len() == before.len(),
            forall|i2: int, j2: int|
                0 <= i2 < i && 0 <= j2 < weights@[i2]@.len() ==> quantise.ensures(
                    (weights@[i2]@[j2], k),
                    buffer@[offset + #[trigger] block_index(flip, stride as int, i2, j2)],
                ),
            forall|m: int|
                0 <= m < before.len() && !addressed(
                    weights@,
                    offset as int,
                    stride as int,
                    flip,
                    m,
                ) ==> buffer@[m] == before[m],
        decreases weights@.len() - i,
    {
        let row = &weights[i];
        let mut j: usize = 0;
        while j < row.len()
            invariant
                i < weights@.len(),
                before.len() <= usize::MAX,
                row@ == weights@[i as int]@,
                j <= row@.len(),
                forall|i2: int, j2: int|
                    0 <= i2 < weights@.len() && 0 <= j2 < weights@[i2]@.len() ==> offset
                        + #[trigger] block_index(flip, stride as int, i2, j2) < before.len(),
                apart(weights@, stride as int, flip),
                forall|v: T, s: i32| quantise.requires((v, s)),
                buffer@.len() == before.len(),
                forall|i2: int, j2: int|
                    ((0 <= i2 < i && 0 <= j2 < weights@[i2]@.len()) || (i2 == i && 0 <= j2 < j))
                        ==> quantise.ensures(
                        (weights@[i2]@[j2], k),
                        buffer@[offset + #[trigger] block_index(flip, stride as int, i2, j2)],
                    ),
                forall|m: int|
                    0 <= m < before.len() && !addressed(
                        weights@,
                        offset as int,
                        stride as int,
                        flip,
                        m,
                    ) ==> buffer@[m] == before[m],
            decreases row@.len() - j,
        {
            let ghost at = offset + block_index(flip, stride as int, i as int, j as int);
            assert(at < before.len());
            assert(0 <= j * stride && 0 <= i * stride) by (nonlinear_arith);
            let index = match flip {
                DoTranspose::Yes => offset + (j * stride + i),
                DoTranspose::No => offset + (i * stride + j),
            };
            let ghost earlier = buffer@;
            let value = quantise(row[j], k);
            buffer.set(index, value);
            proof {
                assert(addressed(weights@, offset as int, stride as int, flip, at));
                assert forall|i2: int, j2: int|
                    ((0 <= i2 < i && 0 <= j2 < weights@[i2]@.len()) || (i2 == i && 0 <= j2 < j
                        + 1)) implies quantise.ensures(
                    (weights@[i2]@[j2], k),
                    buffer@[offset + #[trigger] block_index(flip, stride as int, i2, j2)],
                ) by {
                    if i2 != i || j2 != j {
                        match flip {
                            DoTranspose::Yes => {
                                lemma_cells_apart(stride as int, j2, i2, j as int, i as int);
                            },
                            DoTranspose::No => {
                                lemma_cells_apart(stride as int, i2, j2, i as int, j as int);
                            },
                        }
                        assert(buffer@[offset + block_index(flip, stride as int, i2, j2)]
                            == earlier[offset + block_index(flip, stride as int, i2, j2)]);
                    }
                }
            }
            j += 1;
        }
        i += 1;
    }
}

/// `after` is `before` with the fixed-point value of each bias in the place
/// of the bias, what `quantise` can give for it at the scale `k`, and with
/// the entries behind the biases as they were.
pub open spec fn biases_filled<T, Q: Fn(T, i32) -> i16>(
    biases: Seq<T>,
    k: i32,
    quantise: Q,
    before: Seq<i16>,
    after: Seq<i16>,
) -> bool {
    &&& after.len() == before.len()
    &&& forall|i: int|
        0 <= i < biases.len() ==> quantise.ensures((#[trigger] biases[i], k), after[i])
    &&& forall|m: int| biases.len() <= m < before.len() ==> after[m] == before[m]
}

/// Writes the fixed-point value of each bias, at the scale `k`, to the place
/// of the bias in `buffer`, which must have room for them.
pub fn quantise_biases<T: Copy, Q: Fn(T, i32) -> i16>(
    biases: &[T],
    buffer: &mut Vec<i16>,
    k: i32,
    quantise: &Q,
)
    requires
        biases@.len() <= old(buffer)@.len(),
        forall|v: T, s: i32| quantise.requires((v, s)),
    ensures
        biases_filled(biases@, k, *quantise, old(buffer)@, final(buffer)@),
{
    let ghost before = buffer@;
    let mut i: usize = 0;
    while i < biases.len()
        invariant
            i <= biases@.len() <= before.len(),
            forall|v: T, s: i32| quantise.requires((v, s)),
            buffer@.len() == before.len(),
            forall|x: int| 0 <= x < i ==> quantise.ensures((#[trigger] biases@[x], k), buffer@[x]),
            forall|m: int| i <= m < before.len() ==> buffer@[m] == before[m],
        decreases biases@.len() - i,
    {
        let value = quantise(biases[i], k);
        buffer.set(i, value);
        i += 1;
    }
}

/// Writes the fixed-point value of each entry of a piece-square table, at the
/// scale `k`, to the place of the entry in `buffer`, which must have room for
/// them.
pub fn quantise_psqt<T: Copy, Q: Fn(T, i32) -> i16>(
    psqt: &[T],
    buffer: &mut Vec<i16>,
    k: i32,
    quantise: &Q,
)
    requires
        psqt@.len() <= old(buffer)@.len(),
        forall|v: T, s: i32| quantise.requires((v, s)),
    ensures
        biases_filled(psqt@, k, *quantise, old(buffer)@, final(buffer)@),
{
    quantise_biases(psqt, buffer, k, quantise);
}

} // verus!
