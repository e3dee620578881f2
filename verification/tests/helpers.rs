use nnue_convert::network::DoTranspose;
use nnue_convert::quantise::quantise_biases;
use nnue_convert::quantise::quantise_neurons;
use nnue_convert::quantise::quantise_psqt;

fn quantise(v: f64, k: i32) -> i16 {
    (v * f64::from(k)) as i16
}

fn block() -> Vec<Vec<f64>> {
    vec![vec![1.9, 2.9], vec![-3.9, 4.0]]
}

#[test]
fn transposed_block_is_written_feature_by_feature() {
    let mut buffer = vec![0i16; 4];
    quantise_neurons(&block(), &mut buffer, 0, 2, 1, DoTranspose::Yes, &quantise);
    assert_eq!(buffer, vec![1, -3, 2, 4]);
}

#[test]
fn plain_block_is_written_row_by_row() {
    let mut buffer = vec![0i16; 4];
    quantise_neurons(&block(), &mut buffer, 0, 2, 1, DoTranspose::No, &quantise);
    assert_eq!(buffer, vec![1, 2, -3, 4]);
}

#[test]
fn block_keeps_the_length_and_the_entries_it_does_not_address() {
    let mut buffer = vec![7i16; 9];
    quantise_neurons(&block(), &mut buffer, 0, 3, 1, DoTranspose::Yes, &quantise);
    // weight (i, j) stands at j * 3 + i
    assert_eq!(buffer, vec![1, -3, 7, 2, 4, 7, 7, 7, 7]);
    let mut buffer = vec![7i16; 9];
    quantise_neurons(&block(), &mut buffer, 0, 3, 1, DoTranspose::No, &quantise);
    // weight (i, j) stands at i * 3 + j
    assert_eq!(buffer, vec![1, 2, 7, -3, 4, 7, 7, 7, 7]);
}

#[test]
fn block_begins_at_its_offset() {
    let mut buffer = vec![7i16; 8];
    quantise_neurons(&block(), &mut buffer, 3, 2, 1, DoTranspose::Yes, &quantise);
    assert_eq!(buffer, vec![7, 7, 7, 1, -3, 2, 4, 7]);
    quantise_neurons(&block()[1..], &mut buffer, 0, 1, 10, DoTranspose::Yes, &quantise);
    assert_eq!(buffer, vec![-39, 40, 7, 1, -3, 2, 4, 7]);
}

#[test]
fn rows_of_a_block_may_differ_in_length() {
    let weights = vec![vec![1.0], vec![], vec![2.0, 3.0, 4.0]];
    let mut buffer = vec![0i16; 9];
    quantise_neurons(&weights, &mut buffer, 0, 3, 2, DoTranspose::No, &quantise);
    assert_eq!(buffer, vec![2, 0, 0, 0, 0, 0, 4, 6, 8]);
    let mut buffer = vec![0i16; 9];
    quantise_neurons(&weights, &mut buffer, 0, 3, 2, DoTranspose::Yes, &quantise);
    assert_eq!(buffer, vec![2, 0, 4, 0, 0, 6, 0, 0, 8]);
}

#[test]
fn empty_block_changes_nothing() {
    let mut buffer = vec![5i16; 3];
    quantise_neurons(&Vec::<Vec<f64>>::new(), &mut buffer, 0, 0, 255, DoTranspose::Yes, &quantise);
    assert_eq!(buffer, vec![5, 5, 5]);
}

#[test]
fn biases_are_written_in_their_places() {
    let mut buffer = vec![7i16; 5];
    quantise_biases(&[0.5, -0.5, 0.999, -0.999, 0.0], &mut buffer, 255, &quantise);
    assert_eq!(buffer, vec![127, -127, 254, -254, 0]);
}

#[test]
fn biases_keep_the_length_and_the_entries_behind_them() {
    let mut buffer = vec![7i16; 5];
    quantise_biases(&[1.0, -1.0], &mut buffer, 64, &quantise);
    assert_eq!(buffer, vec![64, -64, 7, 7, 7]);
    quantise_biases(&[], &mut buffer, 64, &quantise);
    assert_eq!(buffer, vec![64, -64, 7, 7, 7]);
}

#[test]
fn equal_biases_give_equal_entries() {
    let mut one = vec![1i16; 3];
    let mut other = vec![2i16; 4];
    quantise_biases(&[0.25, 0.75], &mut one, 255, &quantise);
    quantise_biases(&[0.1, 0.9, 0.25], &mut other, 255, &quantise);
    assert_eq!(one[0], other[2]);
    assert_eq!(one[0], 63);
}

#[test]
fn piece_square_table_is_written_in_its_places() {
    let mut buffer = vec![0i16; 4];
    quantise_psqt(&[0.001, -0.001, 1.0], &mut buffer, 255 * 64, &quantise);
    assert_eq!(buffer, vec![16, -16, 16320, 0]);
}
