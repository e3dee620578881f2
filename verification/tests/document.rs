use nnue_convert::convert::from_weights;
use nnue_convert::error::Tensor;
use nnue_convert::keys::Naming;
use nnue_convert::keys::SchemaError;
use nnue_convert::layout::dump;
use nnue_convert::layout::to_bytes;
use nnue_convert::network::RawNetwork;
use serde_json::Value;

fn plus(a: f64, b: f64) -> f64 {
    a + b
}

fn quantise(v: f64, k: i32) -> i16 {
    (v * f64::from(k)) as i16
}

fn weight(row: usize, column: usize) -> f64 {
    let n = (row * 131 + column * 37 + 11) % 1999;
    (n as f64 - 999.0) / 1000.0
}

fn row_text(row: usize, columns: usize) -> String {
    let cells: Vec<String> = (0..columns).map(|c| format!("{}", weight(row, c))).collect();
    format!("[{}]", cells.join(","))
}

fn matrix_text(rows: usize, columns: usize, salt: usize) -> String {
    let lines: Vec<String> = (0..rows).map(|r| row_text(r + salt, columns)).collect();
    format!("[{}]", lines.join(","))
}

fn document(feature: &str, neurons: usize) -> String {
    format!(
        "{{\"{feature}.weight\": {}, \"{feature}.bias\": {}, \"out.weight\": {}, \"out.bias\": [0.5]}}",
        matrix_text(neurons, 768, 0),
        row_text(500, neurons),
        matrix_text(1, 2 * neurons, 700),
    )
}

fn object(json: &str) -> serde_json::Map<String, Value> {
    match serde_json::from_str(json).unwrap() {
        Value::Object(object) => object,
        _ => panic!("not an object"),
    }
}

fn matrix(object: &serde_json::Map<String, Value>, key: &str) -> Vec<Vec<f64>> {
    serde_json::from_value(object[key].clone()).unwrap()
}

fn vector(object: &serde_json::Map<String, Value>, key: &str) -> Vec<f64> {
    serde_json::from_value(object[key].clone()).unwrap()
}

fn load(json: &str, naming: &Naming) -> Result<RawNetwork<f64>, SchemaError> {
    let object = object(json);
    let keys: Vec<String> = object.keys().cloned().collect();
    let found = naming.resolve(&keys)?;
    Ok(RawNetwork {
        perspective_weight: matrix(&object, &keys[found.perspective_weight]),
        perspective_bias: vector(&object, &keys[found.perspective_bias]),
        factoriser_weight: found.factoriser_weight.map(|i| matrix(&object, &keys[i])),
        factoriser_bias: found.factoriser_bias.map(|i| vector(&object, &keys[i])),
        psqt_weight: found.psqt_weight.map(|i| matrix(&object, &keys[i])),
        output_weight: matrix(&object, &keys[found.output_weight]),
        output_bias: vector(&object, &keys[found.output_bias]),
    })
}

#[test]
fn document_with_full_names_is_converted() {
    let raw = load(&document("perspective", 4), &Naming::Rich).unwrap();
    let net = from_weights(&raw, 255, 64, plus, quantise).unwrap();
    assert_eq!(net.feature_weights.len(), 768 * 4);
    assert_eq!(net.feature_bias.len(), 4);
    assert_eq!(net.output_weights.len(), 8);
    assert_eq!(net.output_bias, vec![8160]);
    for n in 0..4 {
        for f in 0..768 {
            assert_eq!(net.feature_weights[f * 4 + n], quantise(weight(n, f), 255));
        }
        assert_eq!(net.feature_bias[n], quantise(weight(500, n), 255));
    }
    for j in 0..8 {
        assert_eq!(net.output_weights[j], quantise(weight(700, j), 64));
    }
}

#[test]
fn document_with_short_names_gives_the_same_network() {
    let full = load(&document("perspective", 3), &Naming::Rich).unwrap();
    let short = load(&document("ft", 3), &Naming::Rich).unwrap();
    assert_eq!(
        from_weights(&full, 255, 64, plus, quantise).unwrap(),
        from_weights(&short, 255, 64, plus, quantise).unwrap()
    );
}

#[test]
fn document_is_read_strictly_under_the_names_given() {
    let json = document("l1", 2);
    let strict = Naming::Strict { feature: String::from("l1"), output: String::from("out") };
    let raw = load(&json, &strict).unwrap();
    assert_eq!(raw.perspective_weight.len(), 2);
    assert_eq!(raw.perspective_weight[1][767], weight(1, 767));
    assert_eq!(raw.output_bias, vec![0.5]);
    assert_eq!(
        load(&json, &Naming::Rich).err(),
        Some(SchemaError::Missing {
            tensor: Tensor::PerspectiveWeight,
            key: String::from("perspective.weight"),
            suggestion: Some(String::from("l1.weight")),
        })
    );
}

#[test]
fn unified_file_of_a_document_is_its_four_buffers() {
    let raw = load(&document("ft", 256), &Naming::Rich).unwrap();
    let net = from_weights(&raw, 255, 64, plus, quantise).unwrap();
    let feature_weights = to_bytes(&net.feature_weights);
    let feature_bias = to_bytes(&net.feature_bias);
    let output_weights = to_bytes(&net.output_weights);
    let output_bias = to_bytes(&net.output_bias);
    assert_eq!(feature_weights.len(), 393_216);
    assert_eq!(feature_bias.len(), 512);
    assert_eq!(output_weights.len(), 1024);
    assert_eq!(output_bias.len(), 2);
    let concat = [feature_weights, feature_bias, output_weights, output_bias].concat();
    let unified = dump(
        None,
        &net.feature_weights,
        &net.feature_bias,
        &net.output_weights,
        &net.output_bias,
        None,
        true,
    )
    .unwrap();
    assert_eq!(&unified[..concat.len()], &concat[..]);
    assert!(unified[concat.len()..].iter().all(|b| *b == 0));
    assert_eq!(unified.len() % 64, 0);
}

#[test]
fn suggestion_comes_from_the_first_key_of_the_document() {
    let json = "{\"zz.weight\": [[1.0]], \"aa.bias\": [1.0], \"out.weight\": [[1.0, 2.0]], \"out.bias\": [0.5]}";
    let keys: Vec<String> = object(json).keys().cloned().collect();
    assert_eq!(keys, vec!["zz.weight", "aa.bias", "out.weight", "out.bias"]);
    assert_eq!(
        load(json, &Naming::Rich).err(),
        Some(SchemaError::Missing {
            tensor: Tensor::PerspectiveWeight,
            key: String::from("perspective.weight"),
            suggestion: Some(String::from("zz.weight")),
        })
    );
}
