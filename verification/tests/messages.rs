use nnue_convert::error::ConvertError;
use nnue_convert::error::Tensor;
use nnue_convert::keys::SchemaError;
use nnue_convert::text::write_decimal;
use nnue_convert::text::write_signed;

fn decimal(n: u64) -> String {
    let mut text = String::new();
    write_decimal(&mut text, n);
    text
}

fn signed(x: i64) -> String {
    let mut text = String::new();
    write_signed(&mut text, x);
    text
}

#[test]
fn numbers_are_written_in_decimal() {
    assert_eq!(decimal(0), "0");
    assert_eq!(decimal(7), "7");
    assert_eq!(decimal(10), "10");
    assert_eq!(decimal(768), "768");
    assert_eq!(decimal(1_000_000), "1000000");
    assert_eq!(decimal(u64::MAX), "18446744073709551615");
    for n in 0u64..2000 {
        assert_eq!(decimal(n), n.to_string());
    }
}

#[test]
fn number_is_written_behind_the_text() {
    let mut text = String::from("n = ");
    write_decimal(&mut text, 42);
    assert_eq!(text, "n = 42");
    write_signed(&mut text, -1);
    assert_eq!(text, "n = 42-1");
}

#[test]
fn negative_numbers_have_their_sign() {
    assert_eq!(signed(0), "0");
    assert_eq!(signed(-1), "-1");
    assert_eq!(signed(-129), "-129");
    assert_eq!(signed(128), "128");
    assert_eq!(signed(i64::MIN), "-9223372036854775808");
    assert_eq!(signed(i64::MAX), "9223372036854775807");
    for x in -1500i64..1500 {
        assert_eq!(signed(x), x.to_string());
    }
}

#[test]
fn shape_mismatch_states_both_numbers() {
    assert_eq!(
        ConvertError::ShapeMismatch { neurons: 256, out_size: 500 }.message(),
        "there are 256 neurons, but out.weight has 500 inputs (should be twice as many)"
    );
}

#[test]
fn shape_errors_name_the_tensor() {
    assert_eq!(
        ConvertError::Rows { tensor: Tensor::PerspectiveBias, expected: 256, found: 255 }
            .message(),
        "perspective.bias has length 255, expected 256"
    );
    assert_eq!(
        ConvertError::Columns { tensor: Tensor::FactoriserWeight, row: 3, expected: 768, found: 0 }
            .message(),
        "row 3 of factoriser.weight has length 0, expected 768"
    );
    assert_eq!(
        ConvertError::Empty { tensor: Tensor::PsqtWeight }.message(),
        "psqt.weight is empty, or its first row is"
    );
    assert_eq!(
        ConvertError::StackedRows { neurons: 4, buckets: 2, found: 7 }.message(),
        "perspective.weight has 7 rows, expected 4 neurons times 2 buckets"
    );
}

#[test]
fn overflows_state_the_values() {
    assert_eq!(
        ConvertError::ScaleOverflow { qa: 65536, qb: -65536 }.message(),
        "the product of the scales 65536 and -65536 does not fit 32 bits"
    );
    assert_eq!(
        ConvertError::RangeOverflow { index: 17, value: -129 }.message(),
        "output weight 17 is -129, which does not fit 8 bits"
    );
    assert_eq!(
        ConvertError::HiddenSizeOverflow { hidden_size: 65536 }.message(),
        "65536 neurons are more than the header can count"
    );
}

#[test]
fn settings_errors_say_what_to_do() {
    assert_eq!(ConvertError::NoInput.message(), "No input file specified.");
    assert_eq!(
        ConvertError::NoOutput.message(),
        "No output path specified, try --output <PATH>"
    );
    assert_eq!(
        ConvertError::NoName.message(),
        "No network name specified for CBNF header, try --name <NAME>"
    );
    assert_eq!(
        ConvertError::NameTooLong { len: 50 }.message(),
        "Network name too long: 50 bytes, must be 48 bytes or less."
    );
}

#[test]
fn schema_errors_name_the_keys() {
    assert_eq!(
        SchemaError::Missing {
            tensor: Tensor::PerspectiveWeight,
            key: String::from("perspective.weight"),
            suggestion: Some(String::from("l1.weight")),
        }
        .message(),
        "missing field `perspective.weight`, did you mean `l1.weight`?"
    );
    assert_eq!(
        SchemaError::Missing {
            tensor: Tensor::OutputBias,
            key: String::from("out.bias"),
            suggestion: None,
        }
        .message(),
        "missing field `out.bias`"
    );
    assert_eq!(
        SchemaError::Duplicate { tensor: Tensor::FactoriserBias }.message(),
        "duplicate field `factoriser.bias`"
    );
    assert_eq!(
        SchemaError::KeyCount { expected: 4, found: 6 }.message(),
        "expected 4 keys, found 6"
    );
}
