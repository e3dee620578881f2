use std::path::PathBuf;

use nnue_convert::cli::Cli;
use nnue_convert::convert::from_weights;
use nnue_convert::error::ConvertError;
use nnue_convert::keys::Naming;
use nnue_convert::layout::to_bytes;
use nnue_convert::network::RawNetwork;
use nnue_convert::network::INPUT_SIZE;
use nnue_convert::run::render;
use nnue_convert::run::run;

fn plus(a: f64, b: f64) -> f64 {
    a + b
}

fn quantise(v: f64, k: i32) -> i16 {
    (v * f64::from(k)) as i16
}

fn weight(row: usize, column: usize) -> f64 {
    let n = (row * 31 + column * 17 + 5) % 201;
    (n as f64 - 100.0) / 128.0
}

fn network(neurons: usize) -> RawNetwork<f64> {
    RawNetwork {
        perspective_weight: (0..neurons)
            .map(|r| (0..INPUT_SIZE).map(|c| weight(r, c)).collect())
            .collect(),
        perspective_bias: (0..neurons).map(|n| weight(n, 1)).collect(),
        factoriser_weight: None,
        factoriser_bias: None,
        psqt_weight: None,
        output_weight: vec![(0..2 * neurons).map(|c| weight(9, c)).collect()],
        output_bias: vec![0.125],
    }
}

fn settings() -> Cli {
    Cli {
        input: Some(PathBuf::from("net.json")),
        output: Some(PathBuf::from("net.bin")),
        split: None,
        qa: 255,
        qb: 64,
        big_out: false,
        no_header: false,
        name: Some(String::from("test")),
        strict: false,
        ft_name: String::from("perspective"),
        out_name: String::from("out"),
    }
}

#[test]
fn settings_with_input_output_and_name_are_fine() {
    assert_eq!(settings().check(), Ok(()));
}

#[test]
fn input_is_needed() {
    let mut cli = settings();
    cli.input = None;
    cli.output = None;
    assert_eq!(cli.check(), Err(ConvertError::NoInput));
}

#[test]
fn one_output_is_needed() {
    let mut cli = settings();
    cli.output = None;
    assert_eq!(cli.check(), Err(ConvertError::NoOutput));
    cli.split = Some(PathBuf::from("out"));
    assert_eq!(cli.check(), Ok(()));
}

#[test]
fn header_needs_a_name() {
    let mut cli = settings();
    cli.name = None;
    assert_eq!(cli.check(), Err(ConvertError::NoName));
    cli.no_header = true;
    assert_eq!(cli.check(), Ok(()));
}

#[test]
fn split_layout_alone_needs_no_name() {
    let mut cli = settings();
    cli.name = None;
    cli.output = None;
    cli.split = Some(PathBuf::from("out"));
    assert_eq!(cli.check(), Ok(()));
}

#[test]
fn name_longer_than_the_field_is_refused() {
    let mut cli = settings();
    cli.name = Some("n".repeat(48));
    assert_eq!(cli.check(), Ok(()));
    cli.name = Some("n".repeat(49));
    assert_eq!(cli.check(), Err(ConvertError::NameTooLong { len: 49 }));
    cli.no_header = true;
    assert_eq!(cli.check(), Err(ConvertError::NameTooLong { len: 49 }));
}

#[test]
fn unified_file_without_header_is_the_four_buffers() {
    let raw = network(256);
    let net = from_weights(&raw, 255, 64, plus, quantise).unwrap();
    let mut cli = settings();
    cli.no_header = true;
    cli.big_out = true;
    let out = run(&cli, &raw, plus, quantise).unwrap();
    assert_eq!(out.split, None);
    let bytes = out.unified.unwrap();
    let feature_weights = to_bytes(&net.feature_weights);
    let feature_bias = to_bytes(&net.feature_bias);
    let output_weights = to_bytes(&net.output_weights);
    let output_bias = to_bytes(&net.output_bias);
    assert_eq!(feature_weights.len(), 393_216);
    assert_eq!(feature_bias.len(), 512);
    assert_eq!(output_weights.len(), 1024);
    assert_eq!(output_bias.len(), 2);
    let concat = [feature_weights, feature_bias, output_weights, output_bias].concat();
    assert_eq!(&bytes[..concat.len()], &concat[..]);
    assert_eq!(bytes.len(), 394_816);
    assert!(bytes[concat.len()..].iter().all(|b| *b == 0));
}

#[test]
fn unified_file_with_header_begins_with_the_record() {
    let raw = network(2);
    let out = run(&settings(), &raw, plus, quantise).unwrap();
    let bytes = out.unified.unwrap();
    let mut record = vec![0x43, 0x42, 0x4e, 0x46, 1, 0, 0, 0, 0, 1, 0, 2, 0, 1, 1, 4];
    record.extend_from_slice(b"test");
    record.resize(64, 0);
    assert_eq!(&bytes[..64], &record[..]);
    // 2 * 768 weights and 2 biases of two bytes, 4 narrow output weights, one bias
    let unpadded = 2 * 768 * 2 + 2 * 2 + 4 + 2;
    assert_eq!(bytes.len(), 64 + unpadded + (64 - unpadded % 64) % 64);
}

#[test]
fn both_layouts_can_be_asked_for() {
    let raw = network(2);
    let net = from_weights(&raw, 255, 64, plus, quantise).unwrap();
    let mut cli = settings();
    cli.split = Some(PathBuf::from("out"));
    cli.big_out = true;
    let out = run(&cli, &raw, plus, quantise).unwrap();
    assert!(out.unified.is_some());
    let files = out.split.unwrap();
    assert_eq!(files.feature_weights, to_bytes(&net.feature_weights));
    assert_eq!(files.feature_bias, to_bytes(&net.feature_bias));
    assert_eq!(files.output_weights, to_bytes(&net.output_weights));
    assert_eq!(files.output_bias, to_bytes(&net.output_bias));
    assert_eq!(files.psqt_weights, None);
}

#[test]
fn converting_twice_gives_the_same_bytes() {
    let raw = network(3);
    let mut cli = settings();
    cli.split = Some(PathBuf::from("out"));
    let first = run(&cli, &raw, plus, quantise).unwrap();
    let second = run(&cli, &raw, plus, quantise).unwrap();
    assert_eq!(first, second);
}

#[test]
fn settings_are_checked_before_the_network() {
    let mut raw = network(2);
    raw.output_weight = vec![vec![0.0; 3]];
    let mut cli = settings();
    cli.name = None;
    assert_eq!(run(&cli, &raw, plus, quantise), Err(ConvertError::NoName));
    assert_eq!(
        run(&settings(), &raw, plus, quantise),
        Err(ConvertError::ShapeMismatch { neurons: 2, out_size: 3 })
    );
}

#[test]
fn scales_are_taken_from_the_settings() {
    let mut raw = network(1);
    raw.output_weight = vec![vec![1.0, -1.0]];
    let mut cli = settings();
    cli.no_header = true;
    cli.qb = 100;
    let bytes = run(&cli, &raw, plus, quantise).unwrap().unified.unwrap();
    let at = 768 * 2 + 2;
    assert_eq!(&bytes[at..at + 2], &[100, 0x9c]);
}

#[test]
fn output_weight_at_the_edge_of_a_byte_is_narrowed() {
    let mut raw = network(1);
    raw.output_weight = vec![vec![127.0 / 64.0, -2.0]];
    let mut cli = settings();
    cli.no_header = true;
    let bytes = run(&cli, &raw, plus, quantise).unwrap().unified.unwrap();
    let at = 768 * 2 + 2;
    assert_eq!(&bytes[at..at + 2], &[127, 0x80]);
}

#[test]
fn output_weight_past_the_edge_of_a_byte_is_a_range_overflow() {
    let mut raw = network(1);
    raw.output_weight = vec![vec![0.0, 2.0]];
    assert_eq!(
        run(&settings(), &raw, plus, quantise),
        Err(ConvertError::RangeOverflow { index: 1, value: 128 })
    );
    raw.output_weight = vec![vec![-129.0 / 64.0, 2.0]];
    assert_eq!(
        run(&settings(), &raw, plus, quantise),
        Err(ConvertError::RangeOverflow { index: 0, value: -129 })
    );
    let mut cli = settings();
    cli.big_out = true;
    assert!(run(&cli, &raw, plus, quantise).is_ok());
}

#[test]
fn more_neurons_than_the_header_counts_are_refused() {
    let raw = RawNetwork {
        perspective_weight: vec![vec![0.0f64; INPUT_SIZE]; 1],
        perspective_bias: vec![0.0],
        factoriser_weight: None,
        factoriser_bias: None,
        psqt_weight: None,
        output_weight: vec![vec![0.0; 2]],
        output_bias: vec![0.0],
    };
    let mut net = from_weights(&raw, 255, 64, plus, quantise).unwrap();
    net.hidden_size = 65536;
    assert_eq!(
        render(&settings(), &net),
        Err(ConvertError::HiddenSizeOverflow { hidden_size: 65536 })
    );
    net.hidden_size = 65535;
    assert!(render(&settings(), &net).is_ok());
}

#[test]
fn render_checks_the_settings_first() {
    let raw = network(1);
    let net = from_weights(&raw, 255, 64, plus, quantise).unwrap();
    let mut cli = settings();
    cli.input = None;
    assert_eq!(render(&cli, &net), Err(ConvertError::NoInput));
}

#[test]
fn naming_follows_the_settings() {
    let mut cli = settings();
    assert_eq!(cli.naming(), Naming::Rich);
    cli.strict = true;
    cli.ft_name = String::from("l1");
    cli.out_name = String::from("l2");
    assert_eq!(
        cli.naming(),
        Naming::Strict { feature: String::from("l1"), output: String::from("l2") }
    );
}

#[test]
fn file_without_header_takes_any_number_of_neurons() {
    let raw = network(1);
    let mut net = from_weights(&raw, 255, 64, plus, quantise).unwrap();
    net.hidden_size = 65536;
    let mut cli = settings();
    cli.no_header = true;
    let out = render(&cli, &net).unwrap();
    let bytes = out.unified.unwrap();
    let buffers = [
        to_bytes(&net.feature_weights),
        to_bytes(&net.feature_bias),
        vec![net.output_weights[0] as u8, net.output_weights[1] as u8],
        to_bytes(&net.output_bias),
    ]
    .concat();
    assert_eq!(&bytes[..buffers.len()], &buffers[..]);
    assert_eq!(bytes.len(), buffers.len() + (64 - buffers.len() % 64) % 64);
    assert!(bytes[buffers.len()..].iter().all(|b| *b == 0));
    cli.name = None;
    assert!(render(&cli, &net).is_ok());
}

#[test]
fn split_layout_alone_takes_any_number_of_neurons() {
    let raw = network(1);
    let mut net = from_weights(&raw, 255, 64, plus, quantise).unwrap();
    net.hidden_size = 65536;
    let mut cli = settings();
    cli.output = None;
    cli.split = Some(PathBuf::from("out"));
    let out = render(&cli, &net).unwrap();
    assert_eq!(out.unified, None);
    assert_eq!(out.split.unwrap().feature_bias, to_bytes(&net.feature_bias));
}

#[test]
fn header_is_left_out_where_it_is_not_wanted() {
    let raw = network(1);
    let mut cli = settings();
    let with = run(&cli, &raw, plus, quantise).unwrap().unified.unwrap();
    cli.no_header = true;
    let without = run(&cli, &raw, plus, quantise).unwrap().unified.unwrap();
    assert_eq!(with.len(), without.len() + 64);
    assert_eq!(&with[64..], &without[..]);
}

#[test]
fn buffers_are_counted_without_header_and_padding() {
    let raw = network(2);
    let mut cli = settings();
    let out = run(&cli, &raw, plus, quantise).unwrap();
    let unpadded = 2 * 768 * 2 + 2 * 2 + 4 + 2;
    assert_eq!(out.payload_len, Some(unpadded));
    assert_eq!(out.unified.unwrap().len(), 64 + unpadded + (64 - unpadded % 64) % 64);
    cli.no_header = true;
    cli.big_out = true;
    let out = run(&cli, &raw, plus, quantise).unwrap();
    assert_eq!(out.payload_len, Some(unpadded + 4));
    cli.output = None;
    cli.split = Some(PathBuf::from("out"));
    let out = run(&cli, &raw, plus, quantise).unwrap();
    assert_eq!(out.payload_len, None);
}
