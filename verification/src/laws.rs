use vstd::prelude::*;
use vstd::arithmetic::div_mod::lemma_fundamental_div_mod;
use vstd::arithmetic::div_mod::lemma_mod_pos_bound;
use crate::cli::Cli;
use crate::convert::converted;
use crate::convert::feature_index;
use crate::convert::quantised;
use crate::error::ConvertError;
use crate::layout::padding;
use crate::layout::zeros;
use crate::network::Buffers;
use crate::network::Tensors;
use crate::network::INPUT_SIZE;
use crate::quantise::biases_filled;
use crate::run::ran;
use crate::run::Rendered;

verus! {

/// `quantise` can give no value but `fixed`: it is a function of the number
/// and the scale.
pub open spec fn fixes<T, Q: Fn(T, i32) -> i16>(quantise: Q, fixed: spec_fn(T, i32) -> i16) -> bool {
    forall|v: T, k: i32, out: i16| #[trigger] quantise.ensures((v, k), out) ==> out == fixed(v, k)
}

/// `plus` can give no sum but `sum`, and `quantise` no value but `fixed`: the
/// two are functions of their arguments.
pub open spec fn settled<T, A: Fn(T, T) -> T, Q: Fn(T, i32) -> i16>(
    plus: A,
    quantise: Q,
    sum: spec_fn(T, T) -> T,
    fixed: spec_fn(T, i32) -> i16,
) -> bool {
    &&& forall|a: T, b: T, s: T| #[trigger] plus.ensures((a, b), s) ==> s == sum(a, b)
    &&& fixes(quantise, fixed)
}

/// Every place among the feature weights is the place of one feature of one
/// neuron in one bucket, which is returned as bucket, neuron and feature.
pub proof fn lemma_feature_cell(neurons: int, buckets: int, k: int) -> (cell: (int, int, int))
    requires
        0 <= k < buckets * (neurons * INPUT_SIZE),
        0 <= neurons,
    ensures
        0 <= cell.0 < buckets,
        0 <= cell.1 < neurons,
        0 <= cell.2 < INPUT_SIZE,
        feature_index(neurons, cell.0, cell.1, cell.2) == k,
{
    let size = neurons * INPUT_SIZE;
    assert(neurons > 0 && size > 0) by (nonlinear_arith)
        requires
            0 <= k < buckets * (neurons * INPUT_SIZE),
            0 <= neurons,
            size == neurons * INPUT_SIZE,
    ;
    let bucket = k / size;
    let within = k % size;
    lemma_fundamental_div_mod(k, size);
    lemma_mod_pos_bound(k, size);
    assert(0 <= bucket < buckets) by (nonlinear_arith)
        requires
            k == size * bucket + within,
            0 <= within < size,
            0 <= k < buckets * size,
    ;
    let feature = within / neurons;
    let neuron = within % neurons;
    lemma_fundamental_div_mod(within, neurons);
    lemma_mod_pos_bound(within, neurons);
    assert(0 <= feature < INPUT_SIZE) by (nonlinear_arith)
        requires
            within == neurons * feature + neuron,
            0 <= neuron < neurons,
            0 <= within < neurons * INPUT_SIZE,
    ;
    assert(bucket * size + feature * neurons + neuron == k) by (nonlinear_arith)
        requires
            k == size * bucket + within,
            within == neurons * feature + neuron,
    ;
    (bucket, neuron, feature)
}

/// The shape invariant: a network is converted only where its output layer
/// takes twice as many inputs as there are neurons, and one whose first
/// output row is of another length is refused for that, with both numbers,
/// whatever else is wrong with it.
pub proof fn lemma_shape_invariant<T>(raw: Tensors<T>, qa: i32, qb: i32)
    ensures
        raw.fault(qa, qb) is None ==> raw.out_size() == 2 * raw.neurons(),
        raw.output_weight.len() > 0 && raw.out_size() != 2 * raw.neurons() ==> raw.fault(qa, qb)
            == Some(
            ConvertError::ShapeMismatch {
                neurons: raw.neurons() as usize,
                out_size: raw.out_size() as usize,
            },
        ),
{
}

/// A network with a first output row of another length than twice the
/// neurons is never converted: the result is the error that states both
/// numbers.
pub proof fn lemma_mismatch_is_refused<T, A: Fn(T, T) -> T, Q: Fn(T, i32) -> i16>(
    raw: Tensors<T>,
    qa: i32,
    qb: i32,
    plus: A,
    quantise: Q,
    r: Result<Buffers, ConvertError>,
)
    requires
        converted(raw, qa, qb, plus, quantise, r),
        raw.output_weight.len() > 0,
        raw.out_size() != 2 * raw.neurons(),
    ensures
        r == Err::<Buffers, ConvertError>(
            ConvertError::ShapeMismatch {
                neurons: raw.neurons() as usize,
                out_size: raw.out_size() as usize,
            },
        ),
{
}

/// A well-shaped network is converted, where the product of the scales fits
/// the scale's type, and the buffers have the lengths of its shape: as many
/// feature weights as neurons times features times buckets, a feature bias
/// for each neuron, twice as many output weights as neurons, one output
/// bias, and a piece-square table of one bucket's length where the network
/// has one.
pub proof fn lemma_well_shaped_is_converted<T, A: Fn(T, T) -> T, Q: Fn(T, i32) -> i16>(
    raw: Tensors<T>,
    qa: i32,
    qb: i32,
    plus: A,
    quantise: Q,
    r: Result<Buffers, ConvertError>,
)
    requires
        converted(raw, qa, qb, plus, quantise, r),
        raw.well_shaped(),
        i32::MIN <= qa * qb <= i32::MAX,
    ensures
        r is Ok,
        r->Ok_0.hidden_size == raw.neurons(),
        r->Ok_0.has_buckets == (raw.buckets() > 1),
        r->Ok_0.feature_weights.len() == raw.neurons() * INPUT_SIZE * raw.buckets(),
        r->Ok_0.feature_bias.len() == raw.neurons(),
        r->Ok_0.output_weights.len() == 2 * raw.neurons(),
        r->Ok_0.output_bias.len() == 1,
        match raw.psqt_weight {
            Some(_) => r->Ok_0.psqt_weights is Some && r->Ok_0.psqt_weights->0.len() == INPUT_SIZE,
            None => r->Ok_0.psqt_weights is None,
        },
{
    raw.lemma_fault_free(qa, qb);
    let n = raw.neurons();
    let b = raw.buckets();
    assert(b * (n * INPUT_SIZE) == n * INPUT_SIZE * b) by (nonlinear_arith);
}

/// Where a factoriser is merged and the two operations are functions, a
/// well-shaped network is converted, and the feature weight of a feature of
/// a neuron in a bucket is the fixed-point value, at the first scale, of the
/// perspective weight of that bucket's feature plus the factoriser's weight
/// of the feature.
pub proof fn lemma_factoriser_merge<T, A: Fn(T, T) -> T, Q: Fn(T, i32) -> i16>(
    raw: Tensors<T>,
    qa: i32,
    qb: i32,
    plus: A,
    quantise: Q,
    sum: spec_fn(T, T) -> T,
    fixed: spec_fn(T, i32) -> i16,
    r: Result<Buffers, ConvertError>,
    bucket: int,
    neuron: int,
    feature: int,
)
    requires
        converted(raw, qa, qb, plus, quantise, r),
        raw.well_shaped(),
        raw.merges(),
        i32::MIN <= qa * qb <= i32::MAX,
        settled(plus, quantise, sum, fixed),
        0 <= bucket < raw.buckets(),
        0 <= neuron < raw.neurons(),
        0 <= feature < INPUT_SIZE,
    ensures
        r is Ok,
        r->Ok_0.has_buckets == (raw.buckets() > 1),
        r->Ok_0.feature_weights[feature_index(raw.neurons(), bucket, neuron, feature)] == fixed(
            sum(
                raw.perspective_weight[neuron][bucket * INPUT_SIZE + feature],
                raw.factoriser_weight->0[neuron][feature],
            ),
            qa,
        ),
{
    raw.lemma_fault_free(qa, qb);
}

/// Where `quantise` is a function, equal biases at equal scales give equal
/// entries at their places, whatever the two buffers held before.
pub proof fn lemma_equal_biases_equal_entries<T, Q: Fn(T, i32) -> i16>(
    quantise: Q,
    fixed: spec_fn(T, i32) -> i16,
    k: i32,
    one: Seq<T>,
    before_one: Seq<i16>,
    after_one: Seq<i16>,
    i: int,
    other: Seq<T>,
    before_other: Seq<i16>,
    after_other: Seq<i16>,
    j: int,
)
    requires
        fixes(quantise, fixed),
        biases_filled(one, k, quantise, before_one, after_one),
        biases_filled(other, k, quantise, before_other, after_other),
        0 <= i < one.len(),
        0 <= j < other.len(),
        one[i] == other[j],
    ensures
        after_one[i] == after_other[j],
        after_one[i] == fixed(one[i], k),
{
}

/// Where the two operations are functions, a network has one fixed-point
/// form: two that are quantised from it with the same scales are equal.
pub proof fn lemma_quantised_once<T, A: Fn(T, T) -> T, Q: Fn(T, i32) -> i16>(
    raw: Tensors<T>,
    qa: i32,
    qb: i32,
    plus: A,
    quantise: Q,
    sum: spec_fn(T, T) -> T,
    fixed: spec_fn(T, i32) -> i16,
    one: Buffers,
    other: Buffers,
)
    requires
        quantised(raw, qa, qb, plus, quantise, one),
        quantised(raw, qa, qb, plus, quantise, other),
        settled(plus, quantise, sum, fixed),
    ensures
        one == other,
{
    let n = raw.neurons();
    let b = raw.buckets();
    assert forall|k: int| 0 <= k < one.feature_weights.len() implies one.feature_weights[k]
        == other.feature_weights[k] by {
        let cell = lemma_feature_cell(n, b, k);
        assert(feature_index(n, cell.0, cell.1, cell.2) == k);
    }
    assert(one.feature_weights =~= other.feature_weights);
    assert(one.feature_bias =~= other.feature_bias);
    assert(one.output_weights =~= other.output_weights);
    assert(one.output_bias =~= other.output_bias);
    if raw.psqt_weight is Some {
        assert(one.psqt_weights->0 =~= other.psqt_weights->0);
    }
}

/// Determinism: where the two operations are functions, the result of a
/// conversion depends on nothing but the network and the scales. Two results
/// are the same error, or networks with the same buffers and fields.
pub proof fn lemma_conversion_is_a_function<T, A: Fn(T, T) -> T, Q: Fn(T, i32) -> i16>(
    raw: Tensors<T>,
    qa: i32,
    qb: i32,
    plus: A,
    quantise: Q,
    sum: spec_fn(T, T) -> T,
    fixed: spec_fn(T, i32) -> i16,
    one: Result<Buffers, ConvertError>,
    other: Result<Buffers, ConvertError>,
)
    requires
        converted(raw, qa, qb, plus, quantise, one),
        converted(raw, qa, qb, plus, quantise, other),
        settled(plus, quantise, sum, fixed),
    ensures
        one == other,
{
    if one is Ok && other is Ok {
        lemma_quantised_once(raw, qa, qb, plus, quantise, sum, fixed, one->Ok_0, other->Ok_0);
    }
}

/// Idempotence: where the two operations are functions, two runs on the same
/// settings and the same network both fail, and then with the same error, or
/// both succeed, and then with the same bytes in the unified file and in each
/// file of the split layout.
pub proof fn lemma_idempotent<T, A: Fn(T, T) -> T, Q: Fn(T, i32) -> i16>(
    cli: &Cli,
    raw: Tensors<T>,
    plus: A,
    quantise: Q,
    sum: spec_fn(T, T) -> T,
    fixed: spec_fn(T, i32) -> i16,
    first: Result<Rendered, ConvertError>,
    second: Result<Rendered, ConvertError>,
)
    requires
        ran(cli, raw, plus, quantise, first),
        ran(cli, raw, plus, quantise, second),
        settled(plus, quantise, sum, fixed),
    ensures
        first is Ok <==> second is Ok,
        first is Err ==> first->Err_0 == second->Err_0,
        first is Ok ==> same_bytes(first->Ok_0, second->Ok_0),
{
    if cli.fault() is None && raw.fault(cli.qa, cli.qb) is None {
        let one = choose|net: Buffers|
            #[trigger] quantised(raw, cli.qa, cli.qb, plus, quantise, net) && match first {
                Ok(out) => cli.render_fault(net) is None && cli.renders(net, &out),
                Err(e) => cli.render_fault(net) == Some(e),
            };
        let other = choose|net: Buffers|
            #[trigger] quantised(raw, cli.qa, cli.qb, plus, quantise, net) && match second {
                Ok(out) => cli.render_fault(net) is None && cli.renders(net, &out),
                Err(e) => cli.render_fault(net) == Some(e),
            };
        lemma_quantised_once(raw, cli.qa, cli.qb, plus, quantise, sum, fixed, one, other);
    }
}

/// A unified file without header is the buffers and their padding, with
/// nothing in front, however many neurons the network has. With sound
/// settings and a sound network, a run that is to write such a file can fail
/// on nothing but an output weight that does not fit a byte, and on that only
/// where the weights are narrowed.
pub proof fn lemma_file_without_header<T, A: Fn(T, T) -> T, Q: Fn(T, i32) -> i16>(
    cli: &Cli,
    raw: Tensors<T>,
    plus: A,
    quantise: Q,
    r: Result<Rendered, ConvertError>,
)
    requires
        ran(cli, raw, plus, quantise, r),
        cli.fault() is None,
        raw.fault(cli.qa, cli.qb) is None,
        cli.output is Some,
        cli.no_header,
    ensures
        match r {
            Ok(out) => out.unified is Some && exists|net: Buffers|
                #[trigger] quantised(raw, cli.qa, cli.qb, plus, quantise, net) && out.unified->0@
                    == net.payload(cli.big_out) + zeros(
                    padding(net.payload(cli.big_out).len() as int),
                ),
            Err(e) => !cli.big_out && e is RangeOverflow,
        },
{
    match r {
        Ok(out) => {
            let net = choose|net: Buffers|
                #[trigger] quantised(raw, cli.qa, cli.qb, plus, quantise, net) && cli.render_fault(
                    net,
                ) is None && cli.renders(net, &out);
            let bytes = net.payload(cli.big_out);
            assert(Seq::<u8>::empty() + bytes =~= bytes);
        },
        Err(e) => {},
    }
}

/// Two outputs hold the same files with the same bytes.
pub open spec fn same_bytes(first: Rendered, second: Rendered) -> bool {
    &&& first.unified is Some <==> second.unified is Some
    &&& first.unified is Some ==> first.unified->0@ == second.unified->0@
    &&& first.payload_len == second.payload_len
    &&& first.split is Some <==> second.split is Some
    &&& first.split is Some ==> {
        let a = first.split->0;
        let b = second.split->0;
        &&& a.feature_weights@ == b.feature_weights@
        &&& a.feature_bias@ == b.feature_bias@
        &&& a.output_weights@ == b.output_weights@
        &&& a.output_bias@ == b.output_bias@
        &&& a.psqt_weights is Some <==> b.psqt_weights is Some
        &&& a.psqt_weights is Some ==> a.psqt_weights->0@ == b.psqt_weights->0@
    }
}

} // verus!
