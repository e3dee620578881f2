use vstd::prelude::*;
use crate::error::ConvertError;
use crate::error::Tensor;

verus! {

/// The number of input features of one bucket.
pub const INPUT_SIZE: usize = 768;

/// The tensors of a trained network as they were read, over any type of number.
pub struct RawNetwork<T> {
    pub perspective_weight: Vec<Vec<T>>,
    pub perspective_bias: Vec<T>,
    pub factoriser_weight: Option<Vec<Vec<T>>>,
    pub factoriser_bias: Option<Vec<T>>,
    pub psqt_weight: Option<Vec<Vec<T>>>,
    pub output_weight: Vec<Vec<T>>,
    pub output_bias: Vec<T>,
}

/// A network in fixed point, each buffer in the order in which it is written out.
#[derive(Clone, Debug, PartialEq, Eq)]
pub struct QuantisedMergedNetwork {
    pub feature_weights: Vec<i16>,
    pub feature_bias: Vec<i16>,
    pub output_weights: Vec<i16>,
    pub output_bias: Vec<i16>,
    pub psqt_weights: Option<Vec<i16>>,
    pub has_buckets: bool,
    pub hidden_size: usize,
}

/// The tensors of a network as sequences: the model of a `RawNetwork`.
pub struct Tensors<T> {
    pub perspective_weight: Seq<Seq<T>>,
    pub perspective_bias: Seq<T>,
    pub factoriser_weight: Option<Seq<Seq<T>>>,
    pub factoriser_bias: Option<Seq<T>>,
    pub psqt_weight: Option<Seq<Seq<T>>>,
    pub output_weight: Seq<Seq<T>>,
    pub output_bias: Seq<T>,
}

/// The buffers of a network in fixed point as sequences: the model of a
/// `QuantisedMergedNetwork`.
pub struct Buffers {
    pub feature_weights: Seq<i16>,
    pub feature_bias: Seq<i16>,
    pub output_weights: Seq<i16>,
    pub output_bias: Seq<i16>,
    pub psqt_weights: Option<Seq<i16>>,
    pub has_buckets: bool,
    pub hidden_size: int,
}

/// The rows of a matrix as sequences.
pub open spec fn grid<T>(rows: Seq<Vec<T>>) -> Seq<Seq<T>> {
    Seq::new(rows.len(), |i: int| rows[i]@)
}

/// The rows of the model of a matrix are the views of the matrix's rows.
pub proof fn lemma_grid<T>(rows: Seq<Vec<T>>)
    ensures
        grid(rows).len() == rows.len(),
        forall|i: int| 0 <= i < rows.len() ==> (#[trigger] rows[i])@ == grid(rows)[i],
{
}

impl<T> View for RawNetwork<T> {
    type V = Tensors<T>;

    open spec fn view(&self) -> Tensors<T> {
        Tensors {
            perspective_weight: grid(self.perspective_weight@),
            perspective_bias: self.perspective_bias@,
            factoriser_weight: match self.factoriser_weight {
                Some(rows) => Some(grid(rows@)),
                None => None,
            },
            factoriser_bias: match self.factoriser_bias {
                Some(bias) => Some(bias@),
                None => None,
            },
            psqt_weight: match self.psqt_weight {
                Some(rows) => Some(grid(rows@)),
                None => None,
            },
            output_weight: grid(self.output_weight@),
            output_bias: self.output_bias@,
        }
    }
}

impl View for QuantisedMergedNetwork {
    type V = Buffers;

    open spec fn view(&self) -> Buffers {
        Buffers {
            feature_weights: self.feature_weights@,
            feature_bias: self.feature_bias@,
            output_weights: self.output_weights@,
            output_bias: self.output_bias@,
            psqt_weights: match self.psqt_weights {
                Some(table) => Some(table@),
                None => None,
            },
            has_buckets: self.has_buckets,
            hidden_size: self.hidden_size as int,
        }
    }
}

/// The sizes on which the tensors of a network agree.
#[derive(Clone, Copy, Debug, PartialEq, Eq, Structural)]
pub struct Shape {
    pub neurons: usize,
    pub buckets: usize,
    pub out_size: usize,
}

/// Whether a block of rows is written feature by feature or row by row.
#[derive(Clone, Copy, Debug, PartialEq, Eq, Structural)]
pub enum DoTranspose {
    Yes,
    No,
}

/// The least index from `from` on of a row that is not `width` long; the number
/// of rows where there is none.
pub open spec fn first_row_unlike<T>(rows: Seq<Seq<T>>, width: int, from: int) -> int
    decreases rows.len() - from,
{
    if from < 0 || from >= rows.len() {
        rows.len() as int
    } else if rows[from].len() != width {
        from
    } else {
        first_row_unlike(rows, width, from + 1)
    }
}

/// A row from `from` on that is not `width` long is found first at
/// `first_row_unlike`: the rows before it are `width` long, and it is not.
pub proof fn lemma_first_row_unlike<T>(rows: Seq<Seq<T>>, width: int, from: int)
    requires
        0 <= from <= rows.len(),
    ensures
        from <= first_row_unlike(rows, width, from) <= rows.len(),
        forall|i: int|
            from <= i < first_row_unlike(rows, width, from) ==> (#[trigger] rows[i]).len()
                == width,
        first_row_unlike(rows, width, from) < rows.len() ==> rows[first_row_unlike(
            rows,
            width,
            from,
        )].len() != width,
    decreases rows.len() - from,
{
    if from < rows.len() && rows[from].len() == width {
        lemma_first_row_unlike(rows, width, from + 1);
    }
}

/// The index of the first row that is not `width` long, or the number of rows.
pub fn first_unlike<T>(rows: &Vec<Vec<T>>, width: usize) -> (r: usize)
    ensures
        r == first_row_unlike(grid(rows@), width as int, 0),
{
    let mut i: usize = 0;
    while i < rows.len()
        invariant
            i <= rows@.len(),
            first_row_unlike(grid(rows@), width as int, 0) == first_row_unlike(
                grid(rows@),
                width as int,
                i as int,
            ),
        decreases rows@.len() - i,
    {
        if rows[i].len() != width {
            return i;
        }
        i += 1;
    }
    i
}

impl<T> Tensors<T> {
    /// The number of neurons: the factoriser's rows where there is one, else
    /// the perspective layer's.
    pub open spec fn neurons(&self) -> int {
        match self.factoriser_weight {
            Some(f) => f.len() as int,
            None => self.perspective_weight.len() as int,
        }
    }

    /// The number of inputs of the output layer.
    pub open spec fn out_size(&self) -> int {
        self.output_weight[0].len() as int
    }

    /// How often a factoriser row fits into a perspective row; 1 without a
    /// factoriser.
    pub open spec fn buckets(&self) -> int {
        match self.factoriser_weight {
            Some(f) => self.perspective_weight[0].len() as int / f[0].len() as int,
            None => 1,
        }
    }

    /// Whether a factoriser is there to be merged: its weights and its bias.
    pub open spec fn merges(&self) -> bool {
        self.factoriser_weight is Some && self.factoriser_bias is Some
    }

    /// What is wrong with the output layer's weights. Where there is a first
    /// row, its length is held against the number of neurons before the rows
    /// are counted.
    pub open spec fn output_fault(&self) -> Option<ConvertError> {
        if self.output_weight.len() == 0 {
            Some(ConvertError::Rows { tensor: Tensor::OutputWeight, expected: 1, found: 0 })
        } else if self.out_size() != 2 * self.neurons() {
            Some(
                ConvertError::ShapeMismatch {
                    neurons: self.neurons() as usize,
                    out_size: self.out_size() as usize,
                },
            )
        } else if self.output_weight.len() != 1 {
            Some(
                ConvertError::Rows {
                    tensor: Tensor::OutputWeight,
                    expected: 1,
                    found: self.output_weight.len() as usize,
                },
            )
        } else {
            None
        }
    }

    /// What keeps the number of buckets from being derived.
    pub open spec fn bucket_fault(&self) -> Option<ConvertError> {
        match self.factoriser_weight {
            Some(f) => if self.perspective_weight.len() == 0 {
                Some(ConvertError::Empty { tensor: Tensor::PerspectiveWeight })
            } else if f.len() == 0 || f[0].len() == 0 {
                Some(ConvertError::Empty { tensor: Tensor::FactoriserWeight })
            } else {
                None
            },
            None => None,
        }
    }

    /// What is wrong with the weights of a network whose factoriser is merged.
    pub open spec fn merged_fault(&self) -> Option<ConvertError>
        recommends
            self.merges(),
    {
        let pw = self.perspective_weight;
        let fw = self.factoriser_weight->0;
        let fb = self.factoriser_bias->0;
        let wide = INPUT_SIZE * self.buckets();
        let frow = first_row_unlike(fw, INPUT_SIZE as int, 0);
        let prow = first_row_unlike(pw, wide, 0);
        if pw.len() != fw.len() {
            Some(
                ConvertError::Rows {
                    tensor: Tensor::PerspectiveWeight,
                    expected: fw.len() as usize,
                    found: pw.len() as usize,
                },
            )
        } else if fb.len() != self.perspective_bias.len() {
            Some(
                ConvertError::Rows {
                    tensor: Tensor::FactoriserBias,
                    expected: self.perspective_bias.len() as usize,
                    found: fb.len() as usize,
                },
            )
        } else if frow < fw.len() {
            Some(
                ConvertError::Columns {
                    tensor: Tensor::FactoriserWeight,
                    row: frow as usize,
                    expected: INPUT_SIZE,
                    found: fw[frow].len() as usize,
                },
            )
        } else if self.buckets() == 0 {
            Some(
                ConvertError::Columns {
                    tensor: Tensor::PerspectiveWeight,
                    row: 0,
                    expected: INPUT_SIZE,
                    found: pw[0].len() as usize,
                },
            )
        } else if prow < pw.len() {
            Some(
                ConvertError::Columns {
                    tensor: Tensor::PerspectiveWeight,
                    row: prow as usize,
                    expected: wide as usize,
                    found: pw[prow].len() as usize,
                },
            )
        } else {
            None
        }
    }

    /// What is wrong with the weights of a network in which nothing is merged.
    pub open spec fn stacked_fault(&self) -> Option<ConvertError>
        recommends
            !self.merges(),
    {
        let pw = self.perspective_weight;
        let prow = first_row_unlike(pw, INPUT_SIZE as int, 0);
        if pw.len() != self.neurons() * self.buckets() {
            Some(
                ConvertError::StackedRows {
                    neurons: self.neurons() as usize,
                    buckets: self.buckets() as usize,
                    found: pw.len() as usize,
                },
            )
        } else if prow < pw.len() {
            Some(
                ConvertError::Columns {
                    tensor: Tensor::PerspectiveWeight,
                    row: prow as usize,
                    expected: INPUT_SIZE,
                    found: pw[prow].len() as usize,
                },
            )
        } else {
            None
        }
    }

    /// What is wrong with the biases, the piece-square table or the scales.
    pub open spec fn rest_fault(&self, qa: i32, qb: i32) -> Option<ConvertError> {
        if self.perspective_bias.len() != self.neurons() {
            Some(
                ConvertError::Rows {
                    tensor: Tensor::PerspectiveBias,
                    expected: self.neurons() as usize,
                    found: self.perspective_bias.len() as usize,
                },
            )
        } else if self.psqt_weight is Some && self.psqt_weight->0.len() == 0 {
            Some(ConvertError::Empty { tensor: Tensor::PsqtWeight })
        } else if self.psqt_weight is Some && self.psqt_weight->0[0].len() != INPUT_SIZE {
            Some(
                ConvertError::Columns {
                    tensor: Tensor::PsqtWeight,
                    row: 0,
                    expected: INPUT_SIZE,
                    found: self.psqt_weight->0[0].len() as usize,
                },
            )
        } else if self.output_bias.len() != 1 {
            Some(
                ConvertError::Rows {
                    tensor: Tensor::OutputBias,
                    expected: 1,
                    found: self.output_bias.len() as usize,
                },
            )
        } else if !(i32::MIN <= qa * qb <= i32::MAX) {
            Some(ConvertError::ScaleOverflow { qa, qb })
        } else {
            None
        }
    }

    /// The first reason, in the order of the checks, for which the network
    /// cannot be converted with these scales; `None` where it can.
    pub open spec fn fault(&self, qa: i32, qb: i32) -> Option<ConvertError> {
        if self.output_fault() is Some {
            self.output_fault()
        } else if self.bucket_fault() is Some {
            self.bucket_fault()
        } else if self.merges() && self.merged_fault() is Some {
            self.merged_fault()
        } else if !self.merges() && self.stacked_fault() is Some {
            self.stacked_fault()
        } else {
            self.rest_fault(qa, qb)
        }
    }
}

impl<T> RawNetwork<T> {
    /// Checks the output layer against the number of neurons, which it returns.
    fn check_output(&self) -> (r: Result<usize, ConvertError>)
        ensures
            match r {
                Ok(n) => self@.output_fault() is None && n == self@.neurons(),
                Err(e) => self@.output_fault() == Some(e),
            },
    {
        let neurons = match &self.factoriser_weight {
            Some(f) => f.len(),
            None => self.perspective_weight.len(),
        };
        let rows = self.output_weight.len();
        if rows == 0 {
            return Err(ConvertError::Rows { tensor: Tensor::OutputWeight, expected: 1, found: 0 });
        }
        let out_size = self.output_weight[0].len();
        if out_size % 2 != 0 || out_size / 2 != neurons {
            return Err(ConvertError::ShapeMismatch { neurons, out_size });
        }
        if rows != 1 {
            return Err(
                ConvertError::Rows { tensor: Tensor::OutputWeight, expected: 1, found: rows },
            );
        }
        Ok(neurons)
    }

    /// Derives the number of buckets.
    fn check_buckets(&self) -> (r: Result<usize, ConvertError>)
        ensures
            match r {
                Ok(b) => self@.bucket_fault() is None && b == self@.buckets(),
                Err(e) => self@.bucket_fault() == Some(e),
            },
    {
        match &self.factoriser_weight {
            Some(f) => {
                if self.perspective_weight.len() == 0 {
                    return Err(ConvertError::Empty { tensor: Tensor::PerspectiveWeight });
                }
                if f.len() == 0 || f[0].len() == 0 {
                    return Err(ConvertError::Empty { tensor: Tensor::FactoriserWeight });
                }
                Ok(self.perspective_weight[0].len() / f[0].len())
            },
            None => Ok(1),
        }
    }

    /// Checks the weights of a network whose factoriser is merged.
    fn check_merged(&self, fw: &Vec<Vec<T>>, fb: &Vec<T>, buckets: usize) -> (r: Result<
        (),
        ConvertError,
    >)
        requires
            self.factoriser_weight == Some(*fw),
            self.factoriser_bias == Some(*fb),
            self@.bucket_fault() is None,
            buckets == self@.buckets(),
        ensures
            match r {
                Ok(_) => self@.merged_fault() is None,
                Err(e) => self@.merged_fault() == Some(e),
            },
    {
        let pw = &self.perspective_weight;
        if pw.len() != fw.len() {
            return Err(
                ConvertError::Rows {
                    tensor: Tensor::PerspectiveWeight,
                    expected: fw.len(),
                    found: pw.len(),
                },
            );
        }
        if fb.len() != self.perspective_bias.len() {
            return Err(
                ConvertError::Rows {
                    tensor: Tensor::FactoriserBias,
                    expected: self.perspective_bias.len(),
                    found: fb.len(),
                },
            );
        }
        let frow = first_unlike(fw, INPUT_SIZE);
        proof {
            lemma_first_row_unlike(grid(fw@), INPUT_SIZE as int, 0);
        }
        if frow < fw.len() {
            return Err(
                ConvertError::Columns {
                    tensor: Tensor::FactoriserWeight,
                    row: frow,
                    expected: INPUT_SIZE,
                    found: fw[frow].len(),
                },
            );
        }
        let first = pw[0].len();
        if buckets == 0 {
            return Err(
                ConvertError::Columns {
                    tensor: Tensor::PerspectiveWeight,
                    row: 0,
                    expected: INPUT_SIZE,
                    found: first,
                },
            );
        }
        assert(INPUT_SIZE * buckets <= first) by {
            assert(buckets == first / INPUT_SIZE);
        }
        let wide = INPUT_SIZE * buckets;
        let prow = first_unlike(pw, wide);
        if prow < pw.len() {
            return Err(
                ConvertError::Columns {
                    tensor: Tensor::PerspectiveWeight,
                    row: prow,
                    expected: wide,
                    found: pw[prow].len(),
                },
            );
        }
        Ok(())
    }

    /// Checks the weights of a network in which nothing is merged.
    fn check_stacked(&self, neurons: usize, buckets: usize) -> (r: Result<(), ConvertError>)
        requires
            neurons == self@.neurons(),
            buckets == self@.buckets(),
        ensures
            match r {
                Ok(_) => self@.stacked_fault() is None,
                Err(e) => self@.stacked_fault() == Some(e),
            },
    {
        let pw = &self.perspective_weight;
        if neurons.checked_mul(buckets) != Some(pw.len()) {
            return Err(ConvertError::StackedRows { neurons, buckets, found: pw.len() });
        }
        let prow = first_unlike(pw, INPUT_SIZE);
        if prow < pw.len() {
            return Err(
                ConvertError::Columns {
                    tensor: Tensor::PerspectiveWeight,
                    row: prow,
                    expected: INPUT_SIZE,
                    found: pw[prow].len(),
                },
            );
        }
        Ok(())
    }

    /// Checks the biases, the piece-square table and the scales.
    fn check_rest(&self, neurons: usize, qa: i32, qb: i32) -> (r: Result<(), ConvertError>)
        requires
            neurons == self@.neurons(),
        ensures
            match r {
                Ok(_) => self@.rest_fault(qa, qb) is None,
                Err(e) => self@.rest_fault(qa, qb) == Some(e),
            },
    {
        if self.perspective_bias.len() != neurons {
            return Err(
                ConvertError::Rows {
                    tensor: Tensor::PerspectiveBias,
                    expected: neurons,
                    found: self.perspective_bias.len(),
                },
            );
        }
        match &self.psqt_weight {
            Some(p) => {
                if p.len() == 0 {
                    return Err(ConvertError::Empty { tensor: Tensor::PsqtWeight });
                }
                if p[0].len() != INPUT_SIZE {
                    return Err(
                        ConvertError::Columns {
                            tensor: Tensor::PsqtWeight,
                            row: 0,
                            expected: INPUT_SIZE,
                            found: p[0].len(),
                        },
                    );
                }
            },
            None => {},
        }
        if self.output_bias.len() != 1 {
            return Err(
                ConvertError::Rows {
                    tensor: Tensor::OutputBias,
                    expected: 1,
                    found: self.output_bias.len(),
                },
            );
        }
        if qa.checked_mul(qb).is_none() {
            return Err(ConvertError::ScaleOverflow { qa, qb });
        }
        Ok(())
    }

    /// Derives the sizes of the network and checks every tensor against them.
    /// Gives the sizes where the network can be converted with the scales
    /// `qa` and `qb`, and else the first fault in the order of the checks.
    pub fn shape(&self, qa: i32, qb: i32) -> (r: Result<Shape, ConvertError>)
        ensures
            match r {
                Ok(s) => self@.fault(qa, qb) is None && s.neurons == self@.neurons() && s.buckets
                    == self@.buckets() && s.out_size == self@.out_size() && s.out_size == 2
                    * s.neurons,
                Err(e) => self@.fault(qa, qb) == Some(e),
            },
    {
        let neurons = match self.check_output() {
            Ok(n) => n,
            Err(e) => { return Err(e); },
        };
        let buckets = match self.check_buckets() {
            Ok(b) => b,
            Err(e) => { return Err(e); },
        };
        let checked = match (&self.factoriser_weight, &self.factoriser_bias) {
            (Some(fw), Some(fb)) => self.check_merged(fw, fb, buckets),
            _ => self.check_stacked(neurons, buckets),
        };
        match checked {
            Ok(_) => {},
            Err(e) => { return Err(e); },
        }
        match self.check_rest(neurons, qa, qb) {
            Ok(_) => {},
            Err(e) => { return Err(e); },
        }
        Ok(Shape { neurons, buckets, out_size: self.output_weight[0].len() })
    }
}

} // verus!
