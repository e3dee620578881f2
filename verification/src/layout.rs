use vstd::prelude::*;
use crate::error::ConvertError;
use crate::header::record;
use crate::header::Header;

verus! {

/// A sixteen-bit value read as unsigned, in two's complement.
pub open spec fn unsigned(x: i16) -> int {
    if x < 0 {
        x + 0x1_0000
    } else {
        x as int
    }
}

/// The buffer's bytes, each entry as two bytes with the low byte first.
pub open spec fn le_bytes(shorts: Seq<i16>) -> Seq<u8> {
    Seq::new(
        2 * shorts.len(),
        |k: int|
            if k % 2 == 0 {
                (unsigned(shorts[k / 2]) % 256) as u8
            } else {
                (unsigned(shorts[k / 2]) / 256) as u8
            },
    )
}

/// Whether a value can be written as one signed byte.
pub open spec fn fits_byte(x: i16) -> bool {
    -128 <= x <= 127
}

/// The least index from `from` on of an entry that does not fit a signed byte;
/// the number of entries where every one fits.
pub open spec fn first_wide(shorts: Seq<i16>, from: int) -> int
    decreases shorts.len() - from,
{
    if from < 0 || from >= shorts.len() {
        shorts.len() as int
    } else if !fits_byte(shorts[from]) {
        from
    } else {
        first_wide(shorts, from + 1)
    }
}

/// The buffer's entries as one signed byte each, in two's complement.
pub open spec fn narrowed(shorts: Seq<i16>) -> Seq<u8> {
    Seq::new(
        shorts.len(),
        |k: int|
            if shorts[k] < 0 {
                (shorts[k] + 256) as u8
            } else {
                shorts[k] as u8
            },
    )
}

/// The entries before `first_wide` fit a signed byte, and the entry there does
/// not.
pub proof fn lemma_first_wide(shorts: Seq<i16>, from: int)
    requires
        0 <= from <= shorts.len(),
    ensures
        from <= first_wide(shorts, from) <= shorts.len(),
        forall|i: int| from <= i < first_wide(shorts, from) ==> fits_byte(#[trigger] shorts[i]),
        first_wide(shorts, from) < shorts.len() ==> !fits_byte(shorts[first_wide(shorts, from)]),
    decreases shorts.len() - from,
{
    if from < shorts.len() && fits_byte(shorts[from]) {
        lemma_first_wide(shorts, from + 1);
    }
}

/// Narrowing succeeds exactly on buffers whose every entry lies between -128
/// and 127, both included.
pub proof fn lemma_narrow_boundary(shorts: Seq<i16>)
    ensures
        first_wide(shorts, 0) == shorts.len() <==> forall|i: int|
            0 <= i < shorts.len() ==> -128 <= #[trigger] shorts[i] <= 127,
{
    lemma_first_wide(shorts, 0);
}

/// The bytes of a buffer in little-endian order, whatever the host's order is.
pub fn to_bytes(shorts: &[i16]) -> (bytes: Vec<u8>)
    ensures
        bytes@ == le_bytes(shorts@),
{
    let mut bytes: Vec<u8> = Vec::new();
    let mut i: usize = 0;
    while i < shorts.len()
        invariant
            i <= shorts@.len(),
            bytes@.len() == 2 * i,
            forall|k: int| 0 <= k < 2 * i ==> bytes@[k] == le_bytes(shorts@)[k],
        decreases shorts@.len() - i,
    {
        let x: i16 = shorts[i];
        let wide: i32 = if x < 0 {
            x as i32 + 0x1_0000
        } else {
            x as i32
        };
        bytes.push((wide % 256) as u8);
        bytes.push((wide / 256) as u8);
        i += 1;
    }
    assert(bytes@ =~= le_bytes(shorts@));
    bytes
}

/// The output weights as one signed byte each, where every one of them fits;
/// else the first that does not, with its index.
pub fn narrow(shorts: &[i16]) -> (r: Result<Vec<u8>, ConvertError>)
    ensures
        match r {
            Ok(bytes) => first_wide(shorts@, 0) == shorts@.len() && bytes@ == narrowed(shorts@),
            Err(e) => first_wide(shorts@, 0) < shorts@.len() && e == (ConvertError::RangeOverflow {
                index: first_wide(shorts@, 0) as usize,
                value: shorts@[first_wide(shorts@, 0)],
            }),
        },
{
    let mut bytes: Vec<u8> = Vec::new();
    let mut i: usize = 0;
    while i < shorts.len()
        invariant
            i <= shorts@.len(),
            first_wide(shorts@, 0) == first_wide(shorts@, i as int),
            bytes@.len() == i,
            forall|k: int| 0 <= k < i ==> bytes@[k] == narrowed(shorts@)[k],
        decreases shorts@.len() - i,
    {
        let x: i16 = shorts[i];
        if x < -128 || x > 127 {
            return Err(ConvertError::RangeOverflow { index: i, value: x });
        }
        let byte: u8 = if x < 0 {
            (x + 256) as u8
        } else {
            x as u8
        };
        bytes.push(byte);
        i += 1;
    }
    assert(bytes@ =~= narrowed(shorts@));
    Ok(bytes)
}

/// The bytes of the output weights: two each where they are kept wide, one
/// each where they are narrowed.
pub open spec fn output_bytes(weights: Seq<i16>, big_out: bool) -> Seq<u8> {
    if big_out {
        le_bytes(weights)
    } else {
        narrowed(weights)
    }
}

/// The bytes of the piece-square table, none where there is no table.
pub open spec fn psqt_bytes(psqt: Option<Seq<i16>>) -> Seq<u8> {
    match psqt {
        Some(table) => le_bytes(table),
        None => Seq::empty(),
    }
}

/// The buffers one after the other: feature weights, feature bias, output
/// weights, piece-square table, output bias.
pub open spec fn payload(
    feature_weights: Seq<i16>,
    feature_bias: Seq<i16>,
    output_weights: Seq<i16>,
    output_bias: Seq<i16>,
    psqt_weights: Option<Seq<i16>>,
    big_out: bool,
) -> Seq<u8> {
    le_bytes(feature_weights) + le_bytes(feature_bias) + output_bytes(output_weights, big_out)
        + psqt_bytes(psqt_weights) + le_bytes(output_bias)
}

/// The buffers take two bytes for each entry, but one for each output weight
/// that is narrowed.
pub proof fn lemma_payload_len(
    feature_weights: Seq<i16>,
    feature_bias: Seq<i16>,
    output_weights: Seq<i16>,
    output_bias: Seq<i16>,
    psqt_weights: Option<Seq<i16>>,
    big_out: bool,
)
    ensures
        payload(
            feature_weights,
            feature_bias,
            output_weights,
            output_bias,
            psqt_weights,
            big_out,
        ).len() == 2 * feature_weights.len() + 2 * feature_bias.len() + (if big_out {
            2 * output_weights.len()
        } else {
            output_weights.len()
        }) + (match psqt_weights {
            Some(table) => 2 * table.len(),
            None => 0,
        }) + 2 * output_bias.len(),
{
}

/// The number of bytes that bring a length to the next multiple of 64.
pub open spec fn padding(len: int) -> int {
    (64 - len % 64) % 64
}

/// `n` zero bytes.
pub open spec fn zeros(n: int) -> Seq<u8> {
    Seq::new(n as nat, |k: int| 0u8)
}

/// The header's bytes, none where there is no header.
pub open spec fn header_bytes(header: Option<&Header>) -> Seq<u8> {
    match header {
        Some(h) => h.layout(),
        None => Seq::empty(),
    }
}

/// The unified file: the header, the buffers, and zero bytes that bring the
/// buffers, without the header, to a multiple of 64 bytes.
pub open spec fn unified(header: Seq<u8>, payload: Seq<u8>) -> Seq<u8> {
    header + payload + zeros(padding(payload.len() as int))
}

/// The padding law: the padding is shorter than 64 bytes and brings the
/// buffers to the next multiple of 64, none is added to buffers that are
/// already there, the header and the buffers stand unchanged before it, and
/// every byte after them is zero.
pub proof fn lemma_padding_law(header: Seq<u8>, payload: Seq<u8>)
    ensures
        0 <= padding(payload.len() as int) < 64,
        (payload.len() + padding(payload.len() as int)) % 64 == 0,
        payload.len() % 64 == 0 ==> padding(payload.len() as int) == 0,
        unified(header, payload).len() == header.len() + payload.len() + padding(
            payload.len() as int,
        ),
        header.len() % 64 == 0 ==> unified(header, payload).len() % 64 == 0,
        unified(header, payload).subrange(0, header.len() as int) == header,
        unified(header, payload).subrange(
            header.len() as int,
            (header.len() + payload.len()) as int,
        ) == payload,
        forall|k: int|
            header.len() + payload.len() <= k < unified(header, payload).len() ==> unified(
                header,
                payload,
            )[k] == 0,
{
    let whole = unified(header, payload);
    assert(whole.subrange(0, header.len() as int) =~= header);
    assert(whole.subrange(header.len() as int, (header.len() + payload.len()) as int) =~= payload);
}

/// The buffers' bytes one after the other: see `payload`.
fn gather(
    feature_weights: &[i16],
    feature_bias: &[i16],
    output_weights: &[i16],
    output_bias: &[i16],
    psqt_weights: Option<&[i16]>,
    big_out: bool,
) -> (r: Result<Vec<u8>, ConvertError>)
    ensures
        match r {
            Ok(bytes) => (big_out || first_wide(output_weights@, 0) == output_weights@.len())
                && bytes@ == payload(
                feature_weights@,
                feature_bias@,
                output_weights@,
                output_bias@,
                match psqt_weights {
                    Some(table) => Some(table@),
                    None => None,
                },
                big_out,
            ),
            Err(e) => !big_out && first_wide(output_weights@, 0) < output_weights@.len() && e == (
            ConvertError::RangeOverflow {
                index: first_wide(output_weights@, 0) as usize,
                value: output_weights@[first_wide(output_weights@, 0)],
            }),
        },
{
    let mut weights = if big_out {
        to_bytes(output_weights)
    } else {
        match narrow(output_weights) {
            Ok(bytes) => bytes,
            Err(e) => { return Err(e); },
        }
    };
    let mut out = to_bytes(feature_weights);
    let mut piece = to_bytes(feature_bias);
    out.append(&mut piece);
    out.append(&mut weights);
    match psqt_weights {
        Some(table) => {
            piece = to_bytes(table);
            out.append(&mut piece);
        },
        None => {
            assert(out@ + Seq::<u8>::empty() =~= out@);
        },
    }
    piece = to_bytes(output_bias);
    out.append(&mut piece);
    Ok(out)
}

/// The zero bytes that follow buffers of `len` bytes.
fn tail(len: usize) -> (bytes: Vec<u8>)
    ensures
        bytes@ == zeros(padding(len as int)),
{
    let mut bytes: Vec<u8> = Vec::new();
    let remainder = len % 64;
    if remainder != 0 {
        while bytes.len() < 64 - remainder
            invariant
                0 < remainder < 64,
                bytes@.len() <= 64 - remainder,
                bytes@ =~= zeros(bytes@.len() as int),
            decreases 64 - remainder - bytes@.len(),
        {
            bytes.push(0u8);
        }
    }
    assert(bytes@ =~= zeros(padding(len as int)));
    bytes
}

/// The bytes of the unified file for these buffers, see `unified`, and the
/// number of them that are the buffers': those without header and padding.
/// Output weights are narrowed to one byte unless `big_out`, which fails on
/// the first that does not fit.
pub fn dump_counted(
    header: Option<&Header>,
    feature_weights: &[i16],
    feature_bias: &[i16],
    output_weights: &[i16],
    output_bias: &[i16],
    psqt_weights: Option<&[i16]>,
    big_out: bool,
) -> (r: Result<(Vec<u8>, usize), ConvertError>)
    ensures
        match r {
            Ok((bytes, count)) => (big_out || first_wide(output_weights@, 0)
                == output_weights@.len()) && bytes@ == unified(
                header_bytes(header),
                payload(
                    feature_weights@,
                    feature_bias@,
                    output_weights@,
                    output_bias@,
                    match psqt_weights {
                        Some(table) => Some(table@),
                        None => None,
                    },
                    big_out,
                ),
            ) && count == payload(
                feature_weights@,
                feature_bias@,
                output_weights@,
                output_bias@,
                match psqt_weights {
                    Some(table) => Some(table@),
                    None => None,
                },
                big_out,
            ).len(),
            Err(e) => !big_out && first_wide(output_weights@, 0) < output_weights@.len() && e == (
            ConvertError::RangeOverflow {
                index: first_wide(output_weights@, 0) as usize,
                value: output_weights@[first_wide(output_weights@, 0)],
            }),
        },
{
    let mut buffers = match gather(
        feature_weights,
        feature_bias,
        output_weights,
        output_bias,
        psqt_weights,
        big_out,
    ) {
        Ok(bytes) => bytes,
        Err(e) => { return Err(e); },
    };
    let count = buffers.len();
    let mut zeros = tail(count);
    let mut out: Vec<u8> = match header {
        Some(h) => record(h),
        None => Vec::new(),
    };
    out.append(&mut buffers);
    out.append(&mut zeros);
    Ok((out, count))
}

/// The bytes of the unified file for these buffers: see `unified`. Output
/// weights are narrowed to one byte unless `big_out`, which fails on the
/// first that does not fit.
pub fn dump(
    header: Option<&Header>,
    feature_weights: &[i16],
    feature_bias: &[i16],
    output_weights: &[i16],
    output_bias: &[i16],
    psqt_weights: Option<&[i16]>,
    big_out: bool,
) -> (r: Result<Vec<u8>, ConvertError>)
    ensures
        match r {
            Ok(bytes) => (big_out || first_wide(output_weights@, 0) == output_weights@.len())
                && bytes@ == unified(
                header_bytes(header),
                payload(
                    feature_weights@,
                    feature_bias@,
                    output_weights@,
                    output_bias@,
                    match psqt_weights {
                        Some(table) => Some(table@),
                        None => None,
                    },
                    big_out,
                ),
            ),
            Err(e) => !big_out && first_wide(output_weights@, 0) < output_weights@.len() && e == (
            ConvertError::RangeOverflow {
                index: first_wide(output_weights@, 0) as usize,
                value: output_weights@[first_wide(output_weights@, 0)],
            }),
        },
{
    match dump_counted(
        header,
        feature_weights,
        feature_bias,
        output_weights,
        output_bias,
        psqt_weights,
        big_out,
    ) {
        Ok((bytes, _)) => Ok(bytes),
        Err(e) => Err(e),
    }
}

/// The name of the file of each buffer in the split layout.
pub const FEATURE_WEIGHTS_FILE: &'static str = "feature_weights.bin";

pub const FEATURE_BIAS_FILE: &'static str = "feature_bias.bin";

pub const OUTPUT_WEIGHTS_FILE: &'static str = "output_weights.bin";

pub const OUTPUT_BIAS_FILE: &'static str = "output_bias.bin";

pub const PSQT_WEIGHTS_FILE: &'static str = "psqt_weights.bin";

/// The contents of the files of the split layout, one for each buffer.
#[derive(Clone, Debug, PartialEq, Eq)]
pub struct SplitFiles {
    pub feature_weights: Vec<u8>,
    pub feature_bias: Vec<u8>,
    pub output_weights: Vec<u8>,
    pub output_bias: Vec<u8>,
    pub psqt_weights: Option<Vec<u8>>,
}

impl SplitFiles {
    /// Each file holds the bytes of its buffer, and the file of the
    /// piece-square table is there exactly where the table is.
    pub open spec fn holds(
        &self,
        feature_weights: Seq<i16>,
        feature_bias: Seq<i16>,
        output_weights: Seq<i16>,
        output_bias: Seq<i16>,
        psqt_weights: Option<Seq<i16>>,
        big_out: bool,
    ) -> bool {
        &&& self.feature_weights@ == le_bytes(feature_weights)
        &&& self.feature_bias@ == le_bytes(feature_bias)
        &&& self.output_weights@ == output_bytes(output_weights, big_out)
        &&& self.output_bias@ == le_bytes(output_bias)
        &&& match psqt_weights {
            Some(table) => self.psqt_weights is Some && self.psqt_weights->0@ == le_bytes(table),
            None => self.psqt_weights is None,
        }
    }
}

/// The bytes of each buffer by itself, without header or padding. Output
/// weights are narrowed to one byte unless `big_out`, which fails on the
/// first that does not fit.
pub fn split(
    feature_weights: &[i16],
    feature_bias: &[i16],
    output_weights: &[i16],
    output_bias: &[i16],
    psqt_weights: Option<&[i16]>,
    big_out: bool,
) -> (r: Result<SplitFiles, ConvertError>)
    ensures
        match r {
            Ok(files) => (big_out || first_wide(output_weights@, 0) == output_weights@.len())
                && files.holds(
                feature_weights@,
                feature_bias@,
                output_weights@,
                output_bias@,
                match psqt_weights {
                    Some(table) => Some(table@),
                    None => None,
                },
                big_out,
            ),
            Err(e) => !big_out && first_wide(output_weights@, 0) < output_weights@.len() && e == (
            ConvertError::RangeOverflow {
                index: first_wide(output_weights@, 0) as usize,
                value: output_weights@[first_wide(output_weights@, 0)],
            }),
        },
{
    let weights = if big_out {
        to_bytes(output_weights)
    } else {
        match narrow(output_weights) {
            Ok(bytes) => bytes,
            Err(e) => { return Err(e); },
        }
    };
    Ok(
        SplitFiles {
            feature_weights: to_bytes(feature_weights),
            feature_bias: to_bytes(feature_bias),
            output_weights: weights,
            output_bias: to_bytes(output_bias),
            psqt_weights: match psqt_weights {
                Some(table) => Some(to_bytes(table)),
                None => None,
            },
        },
    )
}

} // verus!
