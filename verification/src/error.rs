use vstd::prelude::*;

verus! {

/// The tensors of a network, named by the part each plays.
#[derive(Clone, Copy, Debug, PartialEq, Eq, Structural)]
pub enum Tensor {
    PerspectiveWeight,
    PerspectiveBias,
    FactoriserWeight,
    FactoriserBias,
    PsqtWeight,
    OutputWeight,
    OutputBias,
}

/// Why a network could not be converted.
#[derive(Clone, Copy, Debug, PartialEq, Eq, Structural)]
pub enum ConvertError {
    /// The output layer does not take twice as many inputs as there are neurons.
    ShapeMismatch { neurons: usize, out_size: usize },
    /// A tensor does not hold the number of rows (for a vector: of entries) that the
    /// rest of the network asks for.
    Rows { tensor: Tensor, expected: usize, found: usize },
    /// One row of a tensor has the wrong length.
    Columns { tensor: Tensor, row: usize, expected: usize, found: usize },
    /// A tensor that has to give a size has no first row, or an empty one.
    Empty { tensor: Tensor },
    /// The perspective weights of a network that is not merged are not the
    /// `neurons * buckets` stacked rows.
    StackedRows { neurons: usize, buckets: usize, found: usize },
    /// The product of the two scales does not fit the scale's type.
    ScaleOverflow { qa: i32, qb: i32 },
    /// An output weight does not fit eight bits.
    RangeOverflow { index: usize, value: i16 },
    /// No input was named.
    NoInput,
    /// No output was named.
    NoOutput,
    /// A header was asked for and no name for the network was given.
    NoName,
    /// The name of the network is longer, in bytes, than the header has room for.
    NameTooLong { len: usize },
    /// The number of neurons does not fit the field that a header has for it.
    HiddenSizeOverflow { hidden_size: usize },
}

} // verus!
