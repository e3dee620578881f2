use vstd::prelude::*;
use crate::network::INPUT_SIZE;
use crate::quantise::lemma_run_order;

verus! {

/// The row at which bucket `bucket` of neuron `neuron` stands once the buckets
/// are stacked as further neurons.
pub open spec fn stacked_row(neurons: int, bucket: int, neuron: int) -> int {
    bucket * neurons + neuron
}

/// One bucket of a perspective row with the factoriser's row added to it,
/// feature by feature.
fn merge_row<T: Copy, A: Fn(T, T) -> T>(
    perspective: &Vec<T>,
    factoriser: &Vec<T>,
    bucket: usize,
    plus: &A,
) -> (row: Vec<T>)
    requires
        factoriser.len() == INPUT_SIZE,
        (bucket + 1) * INPUT_SIZE <= perspective.len(),
        forall|a: T, b: T| plus.requires((a, b)),
    ensures
        row@.len() == INPUT_SIZE,
        forall|f: int|
            0 <= f < INPUT_SIZE ==> plus.ensures(
                (perspective@[bucket * INPUT_SIZE + f], factoriser@[f]),
                #[trigger] row@[f],
            ),
{
    let mut row: Vec<T> = Vec::new();
    let mut f: usize = 0;
    while f < INPUT_SIZE
        invariant
            f <= INPUT_SIZE,
            factoriser.len() == INPUT_SIZE,
            (bucket + 1) * INPUT_SIZE <= perspective.len(),
            forall|a: T, b: T| plus.requires((a, b)),
            row@.len() == f,
            forall|x: int|
                0 <= x < f ==> plus.ensures(
                    (perspective@[bucket * INPUT_SIZE + x], factoriser@[x]),
                    #[trigger] row@[x],
                ),
        decreases INPUT_SIZE - f,
    {
        let total = plus(perspective[bucket * INPUT_SIZE + f], factoriser[f]);
        row.push(total);
        f += 1;
    }
    row
}

/// The perspective weights with the factoriser folded into every bucket, the
/// buckets stacked as further neurons: row `bucket * neurons + neuron` holds
/// the features of that bucket of that neuron.
pub fn merge_weights<T: Copy, A: Fn(T, T) -> T>(
    perspective: &Vec<Vec<T>>,
    factoriser: &Vec<Vec<T>>,
    buckets: usize,
    plus: &A,
) -> (merged: Vec<Vec<T>>)
    requires
        perspective.len() == factoriser.len(),
        forall|n: int|
            0 <= n < perspective.len() ==> (#[trigger] perspective@[n])@.len() == INPUT_SIZE
                * buckets,
        forall|n: int| 0 <= n < factoriser.len() ==> (#[trigger] factoriser@[n])@.len() == INPUT_SIZE,
        forall|a: T, b: T| plus.requires((a, b)),
    ensures
        merged@.len() == buckets * perspective.len(),
        forall|r: int| 0 <= r < merged@.len() ==> (#[trigger] merged@[r])@.len() == INPUT_SIZE,
        forall|b: int, n: int, f: int|
            0 <= b < buckets && 0 <= n < perspective.len() && 0 <= f < INPUT_SIZE ==> plus.ensures(
                (perspective@[n]@[b * INPUT_SIZE + f], factoriser@[n]@[f]),
                #[trigger] merged@[stacked_row(perspective.len() as int, b, n)]@[f],
            ),
{
    let neurons = perspective.len();
    let mut merged: Vec<Vec<T>> = Vec::new();
    let mut b: usize = 0;
    while b < buckets
        invariant
            b <= buckets,
            neurons == perspective.len(),
            perspective.len() == factoriser.len(),
            forall|n: int|
                0 <= n < perspective.len() ==> (#[trigger] perspective@[n])@.len() == INPUT_SIZE
                    * buckets,
            forall|n: int|
                0 <= n < factoriser.len() ==> (#[trigger] factoriser@[n])@.len() == INPUT_SIZE,
            forall|a: T, b: T| plus.requires((a, b)),
            merged@.len() == b * neurons,
            forall|r: int| 0 <= r < merged@.len() ==> (#[trigger] merged@[r])@.len() == INPUT_SIZE,
            forall|b2: int, n: int, f: int|
                0 <= b2 < b && 0 <= n < neurons && 0 <= f < INPUT_SIZE ==> plus.ensures(
                    (perspective@[n]@[b2 * INPUT_SIZE + f], factoriser@[n]@[f]),
                    #[trigger] merged@[stacked_row(neurons as int, b2, n)]@[f],
                ),
        decreases buckets - b,
    {
        let mut n: usize = 0;
        while n < neurons
            invariant
                b < buckets,
                n <= neurons,
                neurons == perspective.len(),
                perspective.len() == factoriser.len(),
                forall|n: int|
                    0 <= n < perspective.len() ==> (#[trigger] perspective@[n])@.len()
                        == INPUT_SIZE * buckets,
                forall|n: int|
                    0 <= n < factoriser.len() ==> (#[trigger] factoriser@[n])@.len() == INPUT_SIZE,
                forall|a: T, b: T| plus.requires((a, b)),
                merged@.len() == b * neurons + n,
                forall|r: int|
                    0 <= r < merged@.len() ==> (#[trigger] merged@[r])@.len() == INPUT_SIZE,
                forall|b2: int, n2: int, f: int|
                    ((0 <= b2 < b && 0 <= n2 < neurons) || (b2 == b && 0 <= n2 < n)) && 0 <= f
                        < INPUT_SIZE ==> plus.ensures(
                        (perspective@[n2]@[b2 * INPUT_SIZE + f], factoriser@[n2]@[f]),
                        #[trigger] merged@[stacked_row(neurons as int, b2, n2)]@[f],
                    ),
            decreases neurons - n,
        {
            let ghost earlier = merged@;
            assert(perspective@[n as int]@.len() == INPUT_SIZE * buckets);
            let row = merge_row(&perspective[n], &factoriser[n], b, plus);
            merged.push(row);
            proof {
                assert forall|b2: int, n2: int, f: int|
                    ((0 <= b2 < b && 0 <= n2 < neurons) || (b2 == b && 0 <= n2 < n + 1)) && 0 <= f
                        < INPUT_SIZE implies plus.ensures(
                    (perspective@[n2]@[b2 * INPUT_SIZE + f], factoriser@[n2]@[f]),
                    #[trigger] merged@[stacked_row(neurons as int, b2, n2)]@[f],
                ) by {
                    if b2 == b && n2 == n {
                    } else {
                        lemma_run_order(neurons as int, b2, n2, b as int, n as int);
                        assert(merged@[stacked_row(neurons as int, b2, n2)] == earlier[stacked_row(
                            neurons as int,
                            b2,
                            n2,
                        )]);
                    }
                }
            }
            n += 1;
        }
        proof {
            assert(b * neurons + neurons == (b + 1) * neurons) by (nonlinear_arith);
        }
        b += 1;
    }
    merged
}

/// The perspective biases with the factoriser's biases added to them, entry
/// by entry.
pub fn merge_biases<T: Copy, A: Fn(T, T) -> T>(
    perspective: &Vec<T>,
    factoriser: &Vec<T>,
    plus: &A,
) -> (merged: Vec<T>)
    requires
        perspective.len() == factoriser.len(),
        forall|a: T, b: T| plus.requires((a, b)),
    ensures
        merged@.len() == perspective.len(),
        forall|i: int|
            0 <= i < perspective.len() ==> plus.ensures(
                (perspective@[i], factoriser@[i]),
                #[trigger] merged@[i],
            ),
{
    let mut merged: Vec<T> = Vec::new();
    let mut i: usize = 0;
    while i < perspective.len()
        invariant
            i <= perspective.len(),
            perspective.len() == factoriser.len(),
            forall|a: T, b: T| plus.requires((a, b)),
            merged@.len() == i,
            forall|x: int|
                0 <= x < i ==> plus.ensures(
                    (perspective@[x], factoriser@[x]),
                    #[trigger] merged@[x],
                ),
        decreases perspective.len() - i,
    {
        let total = plus(perspective[i], factoriser[i]);
        merged.push(total);
        i += 1;
    }
    merged
}

} // verus!
