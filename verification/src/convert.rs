use vstd::prelude::*;
use vstd::slice::slice_subrange;
use crate::error::ConvertError;
use crate::merge::merge_biases;
use crate::merge::merge_weights;
use crate::merge::stacked_row;
use crate::network::lemma_first_row_unlike;
use crate::network::lemma_grid;
use crate::network::Buffers;
use crate::network::DoTranspose;
use crate::network::QuantisedMergedNetwork;
use crate::network::RawNetwork;
use crate::network::Tensors;
use crate::network::INPUT_SIZE;
use crate::quantise::addressed;
use crate::quantise::block_index;
use crate::quantise::lemma_addressed_behind;
use crate::quantise::lemma_run_order;
use crate::quantise::quantise_biases;
use crate::quantise::quantise_neurons;
use crate::quantise::quantise_psqt;

verus! {

/// Where the weight of one feature of one neuron in one bucket stands among the
/// feature weights: bucket after bucket, within a bucket feature after
/// feature, within a feature neuron after neuron.
pub open spec fn feature_index(neurons: int, bucket: int, neuron: int, feature: int) -> int {
    bucket * (neurons * INPUT_SIZE) + feature * neurons + neuron
}

/// `out` is what `quantise` can give at the scale `qa` for the weight of
/// `feature` of `neuron` in `bucket`: for the perspective weight with the
/// factoriser's weight added by `plus` where a factoriser is merged, and for
/// the weight in the stacked row where none is.
pub open spec fn is_feature_weight<T, A: Fn(T, T) -> T, Q: Fn(T, i32) -> i16>(
    raw: Tensors<T>,
    qa: i32,
    plus: A,
    quantise: Q,
    bucket: int,
    neuron: int,
    feature: int,
    out: i16,
) -> bool {
    if raw.merges() {
        exists|sum: T|
            #[trigger] plus.ensures(
                (
                    raw.perspective_weight[neuron][bucket * INPUT_SIZE + feature],
                    raw.factoriser_weight->0[neuron][feature],
                ),
                sum,
            ) && quantise.ensures((sum, qa), out)
    } else {
        quantise.ensures(
            (raw.perspective_weight[stacked_row(raw.neurons(), bucket, neuron)][feature], qa),
            out,
        )
    }
}

/// `out` is what `quantise` can give at the scale `qa` for the bias of
/// `neuron`, with the factoriser's bias added by `plus` where a factoriser is
/// merged.
pub open spec fn is_feature_bias<T, A: Fn(T, T) -> T, Q: Fn(T, i32) -> i16>(
    raw: Tensors<T>,
    qa: i32,
    plus: A,
    quantise: Q,
    neuron: int,
    out: i16,
) -> bool {
    if raw.merges() {
        exists|sum: T|
            #[trigger] plus.ensures(
                (raw.perspective_bias[neuron], raw.factoriser_bias->0[neuron]),
                sum,
            ) && quantise.ensures((sum, qa), out)
    } else {
        quantise.ensures((raw.perspective_bias[neuron], qa), out)
    }
}

/// `net` is `raw` in fixed point: every entry of every buffer is what
/// `quantise` can give for the number it stands for, at the scale of its
/// buffer, and stands where the layout puts it.
pub open spec fn quantised<T, A: Fn(T, T) -> T, Q: Fn(T, i32) -> i16>(
    raw: Tensors<T>,
    qa: i32,
    qb: i32,
    plus: A,
    quantise: Q,
    net: Buffers,
) -> bool {
    let n = raw.neurons();
    let b = raw.buckets();
    let scale = (qa * qb) as i32;
    &&& net.hidden_size == n
    &&& net.has_buckets == (b > 1)
    &&& net.feature_weights.len() == b * (n * INPUT_SIZE)
    &&& forall|bucket: int, neuron: int, feature: int|
        0 <= bucket < b && 0 <= neuron < n && 0 <= feature < INPUT_SIZE ==> is_feature_weight(
            raw,
            qa,
            plus,
            quantise,
            bucket,
            neuron,
            feature,
            net.feature_weights[#[trigger] feature_index(n, bucket, neuron, feature)],
        )
    &&& net.feature_bias.len() == n
    &&& forall|neuron: int|
        0 <= neuron < n ==> is_feature_bias(
            raw,
            qa,
            plus,
            quantise,
            neuron,
            #[trigger] net.feature_bias[neuron],
        )
    &&& net.output_weights.len() == 2 * n
    &&& forall|j: int|
        0 <= j < 2 * n ==> quantise.ensures(
            (raw.output_weight[0][j], qb),
            #[trigger] net.output_weights[j],
        )
    &&& net.output_bias.len() == 1
    &&& quantise.ensures((raw.output_bias[0], scale), net.output_bias[0])
    &&& match raw.psqt_weight {
        Some(p) => net.psqt_weights is Some && net.psqt_weights->0.len() == INPUT_SIZE
            && forall|i: int|
            0 <= i < INPUT_SIZE ==> quantise.ensures(
                (p[0][i], scale),
                #[trigger] net.psqt_weights->0[i],
            ),
        None => net.psqt_weights is None,
    }
}

/// What a conversion owes for a network and two scales: the network in fixed
/// point, with twice as many output weights as neurons, exactly where the
/// network has no fault, and else the first fault.
pub open spec fn converted<T, A: Fn(T, T) -> T, Q: Fn(T, i32) -> i16>(
    raw: Tensors<T>,
    qa: i32,
    qb: i32,
    plus: A,
    quantise: Q,
    r: Result<Buffers, ConvertError>,
) -> bool {
    match r {
        Ok(net) => raw.fault(qa, qb) is None && quantised(raw, qa, qb, plus, quantise, net)
            && net.output_weights.len() == 2 * net.hidden_size,
        Err(e) => raw.fault(qa, qb) == Some(e),
    }
}

/// The result of a conversion with the network as its model.
pub open spec fn outcome(r: Result<QuantisedMergedNetwork, ConvertError>) -> Result<
    Buffers,
    ConvertError,
> {
    match r {
        Ok(net) => Ok(net@),
        Err(e) => Err(e),
    }
}

impl<T> Tensors<T> {
    /// The shapes that a network must have to be converted, said at once:
    /// one output row over twice the neurons, one output bias, one perspective
    /// bias for each neuron, at least one bucket, perspective rows of every
    /// bucket's features beside factoriser rows of one bucket's where a
    /// factoriser is merged, stacked rows of one bucket's features where none
    /// is, and a first row of one bucket's length in the piece-square table.
    pub open spec fn well_shaped(&self) -> bool {
        let n = self.neurons();
        let b = self.buckets();
        let pw = self.perspective_weight;
        &&& self.output_weight.len() == 1
        &&& self.out_size() == 2 * n
        &&& self.output_bias.len() == 1
        &&& self.perspective_bias.len() == n
        &&& b >= 1
        &&& self.factoriser_weight is Some ==> pw.len() > 0 && self.factoriser_weight->0.len() > 0
            && self.factoriser_weight->0[0].len() > 0
        &&& if self.merges() {
            let fw = self.factoriser_weight->0;
            &&& pw.len() == n
            &&& self.factoriser_bias->0.len() == n
            &&& forall|i: int| 0 <= i < n ==> (#[trigger] pw[i]).len() == INPUT_SIZE * b
            &&& forall|i: int| 0 <= i < n ==> (#[trigger] fw[i]).len() == INPUT_SIZE
        } else {
            &&& pw.len() == n * b
            &&& forall|i: int| 0 <= i < pw.len() ==> (#[trigger] pw[i]).len() == INPUT_SIZE
        }
        &&& match self.psqt_weight {
            Some(p) => p.len() > 0 && p[0].len() == INPUT_SIZE,
            None => true,
        }
    }

    /// A network is without fault exactly where it is well shaped and the
    /// product of the scales fits the scale's type.
    pub proof fn lemma_fault_free(&self, qa: i32, qb: i32)
        ensures
            self.fault(qa, qb) is None <==> self.well_shaped() && i32::MIN <= qa * qb <= i32::MAX,
    {
        let pw = self.perspective_weight;
        lemma_first_row_unlike(pw, INPUT_SIZE as int, 0);
        lemma_first_row_unlike(pw, INPUT_SIZE * self.buckets(), 0);
        if self.factoriser_weight is Some {
            lemma_first_row_unlike(self.factoriser_weight->0, INPUT_SIZE as int, 0);
        }
        if self.fault(qa, qb) is None {
            if !self.merges() && self.factoriser_weight is Some {
                assert(self.buckets() >= 1) by (nonlinear_arith)
                    requires
                        self.neurons() >= 0,
                        self.neurons() * self.buckets() > 0,
                ;
            }
            assert(self.well_shaped());
        }
        if self.well_shaped() && i32::MIN <= qa * qb <= i32::MAX {
            assert(self.output_fault() is None);
            assert(self.bucket_fault() is None);
            assert(self.fault(qa, qb) is None);
        }
    }
}

/// A buffer of `len` zeros.
fn blank(len: usize) -> (buffer: Vec<i16>)
    ensures
        buffer@.len() == len,
        forall|m: int| 0 <= m < len ==> buffer@[m] == 0,
{
    let mut buffer: Vec<i16> = Vec::new();
    while buffer.len() < len
        invariant
            buffer@.len() <= len,
            forall|m: int| 0 <= m < buffer@.len() ==> buffer@[m] == 0,
        decreases len - buffer@.len(),
    {
        buffer.push(0i16);
    }
    buffer
}

/// A buffer of zeros for `rows` rows of `width` entries.
fn blank_rows(rows: usize, width: usize) -> (buffer: Vec<i16>)
    ensures
        buffer@.len() == rows * width,
        forall|m: int| 0 <= m < buffer@.len() ==> buffer@[m] == 0,
{
    let mut buffer: Vec<i16> = Vec::new();
    let mut row: usize = 0;
    while row < rows
        invariant
            row <= rows,
            buffer@.len() == row * width,
            forall|m: int| 0 <= m < buffer@.len() ==> buffer@[m] == 0,
        decreases rows - row,
    {
        let mut column: usize = 0;
        while column < width
            invariant
                column <= width,
                buffer@.len() == row * width + column,
                forall|m: int| 0 <= m < buffer@.len() ==> buffer@[m] == 0,
            decreases width - column,
        {
            buffer.push(0i16);
            column += 1;
        }
        proof {
            assert(row * width + width == (row + 1) * width) by (nonlinear_arith);
        }
        row += 1;
    }
    buffer
}

/// The fixed-point values of `buckets * neurons` stacked rows of features,
/// bucket after bucket, each bucket feature by feature.
fn quantise_buckets<T: Copy, Q: Fn(T, i32) -> i16>(
    rows: &Vec<Vec<T>>,
    neurons: usize,
    buckets: usize,
    k: i32,
    quantise: &Q,
) -> (buffer: Vec<i16>)
    requires
        rows.len() == buckets * neurons,
        forall|r: int| 0 <= r < rows.len() ==> (#[trigger] rows@[r])@.len() == INPUT_SIZE,
        forall|v: T, s: i32| quantise.requires((v, s)),
    ensures
        buffer@.len() == buckets * (neurons * INPUT_SIZE),
        forall|b: int, n: int, f: int|
            0 <= b < buckets && 0 <= n < neurons && 0 <= f < INPUT_SIZE ==> quantise.ensures(
                (rows@[stacked_row(neurons as int, b, n)]@[f], k),
                buffer@[#[trigger] feature_index(neurons as int, b, n, f)],
            ),
{
    let mut buffer = blank_rows(rows.len(), INPUT_SIZE);
    let total = buffer.len();
    proof {
        assert(buckets * neurons * INPUT_SIZE == buckets * (neurons * INPUT_SIZE))
            by (nonlinear_arith);
    }
    let mut bucket: usize = 0;
    let mut first: usize = 0;
    let mut offset: usize = 0;
    while bucket < buckets
        invariant
            bucket <= buckets,
            first == bucket * neurons,
            offset == bucket * (neurons * INPUT_SIZE),
            rows.len() == buckets * neurons,
            forall|r: int| 0 <= r < rows.len() ==> (#[trigger] rows@[r])@.len() == INPUT_SIZE,
            forall|v: T, s: i32| quantise.requires((v, s)),
            buffer@.len() == total == buckets * (neurons * INPUT_SIZE),
            forall|b: int, n: int, f: int|
                0 <= b < bucket && 0 <= n < neurons && 0 <= f < INPUT_SIZE ==> quantise.ensures(
                    (rows@[stacked_row(neurons as int, b, n)]@[f], k),
                    buffer@[#[trigger] feature_index(neurons as int, b, n, f)],
                ),
        decreases buckets - bucket,
    {
        let ghost earlier = buffer@;
        let ghost size = neurons * INPUT_SIZE;
        proof {
            assert((bucket + 1) * neurons <= buckets * neurons && (bucket + 1) * size <= buckets
                * size) by (nonlinear_arith)
                requires
                    bucket + 1 <= buckets,
                    neurons >= 0,
                    size >= 0,
            ;
            assert((bucket + 1) * neurons == bucket * neurons + neurons && (bucket + 1) * size
                == bucket * size + size) by (nonlinear_arith);
        }
        let block = slice_subrange(rows.as_slice(), first, first + neurons);
        proof {
            assert forall|n: int, f: int| 0 <= n < block@.len() && 0 <= f < block@[n]@.len() implies
                offset + #[trigger] block_index(DoTranspose::Yes, neurons as int, n, f)
                < buffer@.len() by {
                assert(block@[n] == rows@[first + n]);
                lemma_run_order(neurons as int, f, n, INPUT_SIZE as int, 0);
            }
        }
        quantise_neurons(block, &mut buffer, offset, neurons, k, DoTranspose::Yes, quantise);
        proof {
            assert forall|b: int, n: int, f: int|
                0 <= b < bucket + 1 && 0 <= n < neurons && 0 <= f < INPUT_SIZE
                    implies quantise.ensures(
                (rows@[stacked_row(neurons as int, b, n)]@[f], k),
                buffer@[#[trigger] feature_index(neurons as int, b, n, f)],
            ) by {
                let at = feature_index(neurons as int, b, n, f);
                lemma_run_order(neurons as int, f, n, INPUT_SIZE as int, 0);
                if b == bucket {
                    assert(block@[n] == rows@[first + n]);
                    assert(at == offset + block_index(DoTranspose::Yes, neurons as int, n, f));
                } else {
                    assert(b * size + size <= bucket * size) by (nonlinear_arith)
                        requires
                            b + 1 <= bucket,
                            size >= 0,
                    ;
                    if addressed(block@, offset as int, neurons as int, DoTranspose::Yes, at) {
                        lemma_addressed_behind(
                            block@,
                            offset as int,
                            neurons as int,
                            DoTranspose::Yes,
                            at,
                        );
                    }
                    assert(buffer@[at] == earlier[at]);
                }
            }
        }
        first += neurons;
        offset += neurons * INPUT_SIZE;
        bucket += 1;
    }
    buffer
}

/// Converts the tensors of a network to fixed point.
///
/// `plus` adds two numbers and `quantise` brings a number to fixed point at a
/// scale; the feature weights and biases are quantised at `qa`, the output
/// weights at `qb`, the output bias and the piece-square table at `qa * qb`.
/// The network is converted exactly where it has no fault, and else the
/// first fault is returned.
pub fn from_weights<T: Copy, A: Fn(T, T) -> T, Q: Fn(T, i32) -> i16>(
    raw: &RawNetwork<T>,
    qa: i32,
    qb: i32,
    plus: A,
    quantise: Q,
) -> (r: Result<QuantisedMergedNetwork, ConvertError>)
    requires
        forall|a: T, b: T| plus.requires((a, b)),
        forall|v: T, s: i32| quantise.requires((v, s)),
    ensures
        converted(raw@, qa, qb, plus, quantise, outcome(r)),
{
    let shape = match raw.shape(qa, qb) {
        Ok(shape) => shape,
        Err(e) => { return Err(e); },
    };
    proof {
        raw@.lemma_fault_free(qa, qb);
        lemma_grid(raw.perspective_weight@);
        lemma_grid(raw.output_weight@);
        if raw.factoriser_weight is Some {
            lemma_grid(raw.factoriser_weight->0@);
        }
        if raw.psqt_weight is Some {
            lemma_grid(raw.psqt_weight->0@);
        }
    }
    let neurons = shape.neurons;
    let buckets = shape.buckets;
    let scale = qa * qb;
    let (feature_weights, feature_bias) = match (&raw.factoriser_weight, &raw.factoriser_bias) {
        (Some(fw), Some(fb)) => {
            let merged = merge_weights(&raw.perspective_weight, fw, buckets, &plus);
            let bias = merge_biases(&raw.perspective_bias, fb, &plus);
            let weights = quantise_buckets(&merged, neurons, buckets, qa, &quantise);
            let mut biases = blank(neurons);
            quantise_biases(bias.as_slice(), &mut biases, qa, &quantise);
            proof {
                assert forall|bucket: int, neuron: int, feature: int|
                    0 <= bucket < buckets && 0 <= neuron < neurons && 0 <= feature
                        < INPUT_SIZE implies is_feature_weight(
                    raw@,
                    qa,
                    plus,
                    quantise,
                    bucket,
                    neuron,
                    feature,
                    weights@[#[trigger] feature_index(neurons as int, bucket, neuron, feature)],
                ) by {
                    let sum = merged@[stacked_row(neurons as int, bucket, neuron)]@[feature];
                    assert(plus.ensures(
                        (
                            raw.perspective_weight@[neuron]@[bucket * INPUT_SIZE + feature],
                            fw@[neuron]@[feature],
                        ),
                        sum,
                    ));
                }
                assert forall|neuron: int| 0 <= neuron < neurons implies is_feature_bias(
                    raw@,
                    qa,
                    plus,
                    quantise,
                    neuron,
                    #[trigger] biases@[neuron],
                ) by {
                    assert(plus.ensures(
                        (raw.perspective_bias@[neuron], fb@[neuron]),
                        bias@[neuron],
                    ));
                    assert(quantise.ensures((bias@[neuron], qa), biases@[neuron]));
                }
            }
            (weights, biases)
        },
        _ => {
            assert(raw.perspective_weight@.len() == neurons * buckets);
            assert(neurons * buckets == buckets * neurons) by (nonlinear_arith);
            let weights = quantise_buckets(
                &raw.perspective_weight,
                neurons,
                buckets,
                qa,
                &quantise,
            );
            let mut biases = blank(neurons);
            quantise_biases(raw.perspective_bias.as_slice(), &mut biases, qa, &quantise);
            proof {
                assert forall|bucket: int, neuron: int, feature: int|
                    0 <= bucket < buckets && 0 <= neuron < neurons && 0 <= feature
                        < INPUT_SIZE implies is_feature_weight(
                    raw@,
                    qa,
                    plus,
                    quantise,
                    bucket,
                    neuron,
                    feature,
                    weights@[#[trigger] feature_index(neurons as int, bucket, neuron, feature)],
                ) by {
                    lemma_run_order(
                        neurons as int,
                        bucket,
                        neuron,
                        buckets as int,
                        0,
                    );
                }
                assert forall|neuron: int| 0 <= neuron < neurons implies is_feature_bias(
                    raw@,
                    qa,
                    plus,
                    quantise,
                    neuron,
                    #[trigger] biases@[neuron],
                ) by {
                    assert(quantise.ensures((raw.perspective_bias@[neuron], qa), biases@[neuron]));
                }
            }
            (weights, biases)
        },
    };
    let mut output_weights = blank(shape.out_size);
    proof {
        assert forall|i: int, j: int|
            0 <= i < raw.output_weight@.len() && 0 <= j < raw.output_weight@[i]@.len() implies 0
                + #[trigger] block_index(DoTranspose::No, shape.out_size as int, i, j)
                < output_weights@.len() by {
            assert(i == 0);
        }
    }
    quantise_neurons(
        raw.output_weight.as_slice(),
        &mut output_weights,
        0,
        shape.out_size,
        qb,
        DoTranspose::No,
        &quantise,
    );
    let mut output_bias = blank(1);
    quantise_biases(raw.output_bias.as_slice(), &mut output_bias, scale, &quantise);
    let psqt_weights = match &raw.psqt_weight {
        Some(psqt) => {
            let mut table = blank(INPUT_SIZE);
            quantise_psqt(psqt[0].as_slice(), &mut table, scale, &quantise);
            proof {
                assert forall|i: int| 0 <= i < INPUT_SIZE implies quantise.ensures(
                    (psqt@[0]@[i], scale),
                    #[trigger] table@[i],
                ) by {
                    assert(quantise.ensures((psqt@[0]@[i], scale), table@[i]));
                }
            }
            Some(table)
        },
        None => None,
    };
    proof {
        assert forall|j: int| 0 <= j < 2 * neurons implies quantise.ensures(
            (raw.output_weight@[0]@[j], qb),
            #[trigger] output_weights@[j],
        ) by {
            assert(block_index(DoTranspose::No, shape.out_size as int, 0, j) == j);
        }
        assert(quantise.ensures((raw.output_bias@[0], scale), output_bias@[0]));
    }
    Ok(
        QuantisedMergedNetwork {
            feature_weights,
            feature_bias,
            output_weights,
            output_bias,
            psqt_weights,
            has_buckets: buckets > 1,
            hidden_size: neurons,
        },
    )
}

} // verus!
