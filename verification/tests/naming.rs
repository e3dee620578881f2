use nnue_convert::error::Tensor;
use nnue_convert::keys::locate;
use nnue_convert::keys::suggest;
use nnue_convert::keys::Located;
use nnue_convert::keys::Naming;
use nnue_convert::keys::SchemaError;

fn keys(names: &[&str]) -> Vec<String> {
    names.iter().map(|n| String::from(*n)).collect()
}

fn strict(feature: &str, output: &str) -> Naming {
    Naming::Strict { feature: String::from(feature), output: String::from(output) }
}

#[test]
fn full_names_are_found() {
    let doc = keys(&["out.bias", "out.weight", "perspective.bias", "perspective.weight"]);
    assert_eq!(
        Naming::Rich.resolve(&doc),
        Ok(Located {
            perspective_weight: 3,
            perspective_bias: 2,
            factoriser_weight: None,
            factoriser_bias: None,
            psqt_weight: None,
            output_weight: 1,
            output_bias: 0,
        })
    );
}

#[test]
fn short_names_are_found() {
    let doc = keys(&["ft.weight", "ft.bias", "fft.weight", "fft.bias", "out.weight", "out.bias"]);
    assert_eq!(
        Naming::Rich.resolve(&doc),
        Ok(Located {
            perspective_weight: 0,
            perspective_bias: 1,
            factoriser_weight: Some(2),
            factoriser_bias: Some(3),
            psqt_weight: None,
            output_weight: 4,
            output_bias: 5,
        })
    );
}

#[test]
fn full_and_short_names_may_be_mixed() {
    let doc = keys(&[
        "perspective.weight",
        "ft.bias",
        "factoriser.weight",
        "fft.bias",
        "psqt.weight",
        "out.weight",
        "out.bias",
    ]);
    assert_eq!(
        Naming::Rich.resolve(&doc),
        Ok(Located {
            perspective_weight: 0,
            perspective_bias: 1,
            factoriser_weight: Some(2),
            factoriser_bias: Some(3),
            psqt_weight: Some(4),
            output_weight: 5,
            output_bias: 6,
        })
    );
}

#[test]
fn other_keys_are_passed_over() {
    let doc = keys(&["epoch", "ft.weight", "ft.bias", "loss", "out.weight", "out.bias"]);
    let found = Naming::Rich.resolve(&doc).unwrap();
    assert_eq!(found.perspective_weight, 1);
    assert_eq!(found.output_bias, 5);
}

#[test]
fn missing_tensor_is_named_with_a_suggestion() {
    let doc = keys(&["l1.weight", "l1.bias", "out.weight", "out.bias"]);
    assert_eq!(
        Naming::Rich.resolve(&doc),
        Err(SchemaError::Missing {
            tensor: Tensor::PerspectiveWeight,
            key: String::from("perspective.weight"),
            suggestion: Some(String::from("l1.weight")),
        })
    );
    let doc = keys(&["ft.weight", "l1.bias", "out.weight", "out.bias"]);
    assert_eq!(
        Naming::Rich.resolve(&doc),
        Err(SchemaError::Missing {
            tensor: Tensor::PerspectiveBias,
            key: String::from("perspective.bias"),
            suggestion: Some(String::from("ft.bias")),
        })
    );
    let doc = keys(&["ft.weight", "ft.bias", "out.weight"]);
    assert_eq!(
        Naming::Rich.resolve(&doc),
        Err(SchemaError::Missing {
            tensor: Tensor::OutputBias,
            key: String::from("out.bias"),
            suggestion: Some(String::from("ft.bias")),
        })
    );
    let doc = keys(&["ft.weight", "ft.bias", "out.bias"]);
    assert_eq!(
        Naming::Rich.resolve(&doc),
        Err(SchemaError::Missing {
            tensor: Tensor::OutputWeight,
            key: String::from("out.weight"),
            suggestion: Some(String::from("ft.weight")),
        })
    );
}

#[test]
fn empty_document_has_nothing_to_suggest() {
    assert_eq!(
        Naming::Rich.resolve(&keys(&[])),
        Err(SchemaError::Missing {
            tensor: Tensor::PerspectiveWeight,
            key: String::from("perspective.weight"),
            suggestion: None,
        })
    );
}

#[test]
fn tensor_under_both_names_is_a_duplicate() {
    let doc = keys(&["ft.weight", "perspective.weight", "ft.bias", "out.weight", "out.bias"]);
    assert_eq!(
        Naming::Rich.resolve(&doc),
        Err(SchemaError::Duplicate { tensor: Tensor::PerspectiveWeight })
    );
    let doc = keys(&[
        "ft.weight",
        "ft.bias",
        "factoriser.bias",
        "fft.bias",
        "out.weight",
        "out.bias",
    ]);
    assert_eq!(
        Naming::Rich.resolve(&doc),
        Err(SchemaError::Duplicate { tensor: Tensor::FactoriserBias })
    );
}

#[test]
fn strict_naming_takes_the_four_keys() {
    let doc = keys(&["l1.weight", "l1.bias", "l2.weight", "l2.bias"]);
    assert_eq!(
        strict("l1", "l2").resolve(&doc),
        Ok(Located {
            perspective_weight: 0,
            perspective_bias: 1,
            factoriser_weight: None,
            factoriser_bias: None,
            psqt_weight: None,
            output_weight: 2,
            output_bias: 3,
        })
    );
}

#[test]
fn strict_naming_counts_the_keys() {
    let doc = keys(&["ft.weight", "ft.bias", "out.weight", "out.bias", "psqt.weight"]);
    assert_eq!(
        strict("ft", "out").resolve(&doc),
        Err(SchemaError::KeyCount { expected: 4, found: 5 })
    );
    let doc = keys(&["ft.weight", "ft.bias", "out.weight"]);
    assert_eq!(
        strict("ft", "out").resolve(&doc),
        Err(SchemaError::KeyCount { expected: 4, found: 3 })
    );
}

#[test]
fn strict_naming_knows_no_short_names() {
    let doc = keys(&["ft.weight", "ft.bias", "out.weight", "out.bias"]);
    assert_eq!(
        strict("perspective", "out").resolve(&doc),
        Err(SchemaError::Missing {
            tensor: Tensor::PerspectiveWeight,
            key: String::from("perspective.weight"),
            suggestion: Some(String::from("ft.weight")),
        })
    );
    assert!(strict("ft", "out").resolve(&doc).is_ok());
}

#[test]
fn strict_naming_names_the_missing_key_of_the_layer_asked_for() {
    let doc = keys(&["a.weight", "a.bias", "b.weight", "c.bias"]);
    assert_eq!(
        strict("a", "b").resolve(&doc),
        Err(SchemaError::Missing {
            tensor: Tensor::OutputBias,
            key: String::from("b.bias"),
            suggestion: Some(String::from("a.bias")),
        })
    );
}

#[test]
fn seek_finds_one_tensor() {
    let doc = keys(&["ft.weight", "psqt.weight"]);
    assert_eq!(Naming::Rich.seek(&doc, Tensor::PerspectiveWeight), Ok(Some(0)));
    assert_eq!(Naming::Rich.seek(&doc, Tensor::PsqtWeight), Ok(Some(1)));
    assert_eq!(Naming::Rich.seek(&doc, Tensor::FactoriserWeight), Ok(None));
    assert_eq!(strict("ft", "out").seek(&doc, Tensor::PsqtWeight), Ok(None));
}

#[test]
fn locate_gives_the_first_place() {
    let doc = keys(&["a", "b", "a", "c"]);
    assert_eq!(locate(&doc, &String::from("a")), Some(0));
    assert_eq!(locate(&doc, &String::from("c")), Some(3));
    assert_eq!(locate(&doc, &String::from("d")), None);
    assert_eq!(locate(&keys(&[]), &String::from("a")), None);
}

#[test]
fn suggestion_is_the_part_before_the_first_dot() {
    assert_eq!(suggest("l1.weight", ".bias"), "l1.bias");
    assert_eq!(suggest("a.b.c", ".weight"), "a.weight");
    assert_eq!(suggest("nodot", ".weight"), "nodot.weight");
    assert_eq!(suggest(".weight", ".bias"), ".bias");
    assert_eq!(suggest("", ".bias"), ".bias");
    assert_eq!(suggest("é1.weight", ".bias"), "é1.bias");
}

#[test]
fn tensors_have_their_names() {
    assert_eq!(Tensor::PerspectiveWeight.key(), "perspective.weight");
    assert_eq!(Tensor::PerspectiveBias.key(), "perspective.bias");
    assert_eq!(Tensor::FactoriserWeight.key(), "factoriser.weight");
    assert_eq!(Tensor::FactoriserBias.key(), "factoriser.bias");
    assert_eq!(Tensor::PsqtWeight.key(), "psqt.weight");
    assert_eq!(Tensor::OutputWeight.key(), "out.weight");
    assert_eq!(Tensor::OutputBias.key(), "out.bias");
    assert_eq!(Tensor::PerspectiveBias.short_layer(), Some("ft"));
    assert_eq!(Tensor::FactoriserWeight.short_layer(), Some("fft"));
    assert_eq!(Tensor::OutputWeight.short_layer(), None);
    assert_eq!(Tensor::PsqtWeight.short_layer(), None);
}
