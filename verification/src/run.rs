use vstd::prelude::*;
use vstd::string::StringSliceAdditionalSpecFns;
use crate::cli::Cli;
use crate::convert::from_weights;
use crate::convert::quantised;
use crate::error::ConvertError;
use crate::header::lemma_record_of;
use crate::header::record_of;
use crate::header::Header;
use crate::layout::dump_counted;
use crate::layout::first_wide;
use crate::layout::payload;
use crate::layout::split;
use crate::layout::unified;
use crate::layout::SplitFiles;
use crate::network::Buffers;
use crate::network::QuantisedMergedNetwork;
use crate::network::RawNetwork;
use crate::network::Tensors;

verus! {

/// What is to be written: the unified file where one was asked for, and the
/// files of the split layout where a directory was.
#[derive(Clone, Debug, PartialEq, Eq)]
pub struct Rendered {
    /// The bytes of the unified file.
    pub unified: Option<Vec<u8>>,
    /// How many bytes of the unified file are the buffers': those without
    /// header and padding.
    pub payload_len: Option<usize>,
    /// The bytes of each file of the split layout.
    pub split: Option<SplitFiles>,
}

impl Buffers {
    /// The network's buffers one after the other.
    pub open spec fn payload(&self, big_out: bool) -> Seq<u8> {
        payload(
            self.feature_weights,
            self.feature_bias,
            self.output_weights,
            self.output_bias,
            self.psqt_weights,
            big_out,
        )
    }
}

impl Cli {
    /// The first thing that keeps the network from being written as asked:
    /// a fault in what was asked for, more neurons than a header that is to
    /// be written can count, or an output weight too wide to be narrowed.
    pub open spec fn render_fault(&self, net: Buffers) -> Option<ConvertError> {
        let weights = net.output_weights;
        if self.fault() is Some {
            self.fault()
        } else if self.wants_header() && net.hidden_size > u16::MAX {
            Some(ConvertError::HiddenSizeOverflow { hidden_size: net.hidden_size as usize })
        } else if !self.big_out && first_wide(weights, 0) < weights.len() {
            Some(
                ConvertError::RangeOverflow {
                    index: first_wide(weights, 0) as usize,
                    value: weights[first_wide(weights, 0)],
                },
            )
        } else {
            None
        }
    }

    /// The bytes of the unified file of a network: the header where one is
    /// wanted, the buffers and the padding.
    pub open spec fn unified_file(&self, net: Buffers) -> Seq<u8> {
        unified(
            if self.wants_header() {
                record_of(net.has_buckets, net.hidden_size, self.name_bytes())
            } else {
                Seq::empty()
            },
            net.payload(self.big_out),
        )
    }

    /// `out` holds what was asked for, and nothing else.
    pub open spec fn renders(&self, net: Buffers, out: &Rendered) -> bool {
        &&& out.unified is Some <==> self.output is Some
        &&& out.unified is Some ==> out.unified->0@ == self.unified_file(net)
        &&& out.payload_len is Some <==> self.output is Some
        &&& out.payload_len is Some ==> out.payload_len->0 == net.payload(self.big_out).len()
        &&& out.split is Some <==> self.split is Some
        &&& out.split is Some ==> out.split->0.holds(
            net.feature_weights,
            net.feature_bias,
            net.output_weights,
            net.output_bias,
            net.psqt_weights,
            self.big_out,
        )
    }
}

/// Lays a quantised network out as the settings ask: as the unified file,
/// as the files of the split layout, or as both. A header is built only
/// where the unified file is to begin with one.
pub fn render(cli: &Cli, net: &QuantisedMergedNetwork) -> (r: Result<Rendered, ConvertError>)
    ensures
        match r {
            Ok(out) => cli.render_fault(net@) is None && cli.renders(net@, &out),
            Err(e) => cli.render_fault(net@) == Some(e),
        },
{
    match cli.check() {
        Ok(_) => {},
        Err(e) => { return Err(e); },
    }
    let no_name = String::new();
    let name: &str = match &cli.name {
        Some(name) => name.as_str(),
        None => no_name.as_str(),
    };
    assert(name.spec_bytes() == cli.name_bytes());
    let header = if cli.output.is_some() && !cli.no_header {
        let header = match Header::new(net.has_buckets, net.hidden_size, name) {
            Ok(header) => header,
            Err(e) => { return Err(e); },
        };
        proof {
            lemma_record_of(header, net.has_buckets, net.hidden_size as int, cli.name_bytes());
        }
        Some(header)
    } else {
        None
    };
    let psqt: Option<&[i16]> = match &net.psqt_weights {
        Some(table) => Some(table.as_slice()),
        None => None,
    };
    let (unified, payload_len) = if cli.output.is_some() {
        let (bytes, count) = match dump_counted(
            match &header {
                Some(header) => Some(header),
                None => None,
            },
            net.feature_weights.as_slice(),
            net.feature_bias.as_slice(),
            net.output_weights.as_slice(),
            net.output_bias.as_slice(),
            psqt,
            cli.big_out,
        ) {
            Ok(counted) => counted,
            Err(e) => { return Err(e); },
        };
        (Some(bytes), Some(count))
    } else {
        (None, None)
    };
    let files = if cli.split.is_some() {
        let files = match split(
            net.feature_weights.as_slice(),
            net.feature_bias.as_slice(),
            net.output_weights.as_slice(),
            net.output_bias.as_slice(),
            psqt,
            cli.big_out,
        ) {
            Ok(files) => files,
            Err(e) => { return Err(e); },
        };
        Some(files)
    } else {
        None
    };
    Ok(Rendered { unified, payload_len, split: files })
}

/// What a run owes for settings and a network. A fault in the settings comes
/// first, then a fault in the network; past those, the result is what
/// `render` owes for a network in fixed point that the two operations can
/// give: what was asked for, or the first thing that keeps it from being
/// written.
pub open spec fn ran<T, A: Fn(T, T) -> T, Q: Fn(T, i32) -> i16>(
    cli: &Cli,
    raw: Tensors<T>,
    plus: A,
    quantise: Q,
    r: Result<Rendered, ConvertError>,
) -> bool {
    match r {
        Ok(out) => cli.fault() is None && raw.fault(cli.qa, cli.qb) is None && exists|
            net: Buffers,
        |
            #[trigger] quantised(raw, cli.qa, cli.qb, plus, quantise, net) && cli.render_fault(net)
                is None && cli.renders(net, &out),
        Err(e) => if cli.fault() is Some {
            cli.fault() == Some(e)
        } else if raw.fault(cli.qa, cli.qb) is Some {
            raw.fault(cli.qa, cli.qb) == Some(e)
        } else {
            exists|net: Buffers|
                #[trigger] quantised(raw, cli.qa, cli.qb, plus, quantise, net) && cli.render_fault(
                    net,
                ) == Some(e)
        },
    }
}

/// Converts a network and lays it out as the settings ask.
///
/// What was asked for is checked first, then the network's shape; `plus`
/// and `quantise` are as in `from_weights`, with the scales of the settings.
/// What is returned for the quantised network is what `render` returns.
pub fn run<T: Copy, A: Fn(T, T) -> T, Q: Fn(T, i32) -> i16>(
    cli: &Cli,
    raw: &RawNetwork<T>,
    plus: A,
    quantise: Q,
) -> (r: Result<Rendered, ConvertError>)
    requires
        forall|a: T, b: T| plus.requires((a, b)),
        forall|v: T, s: i32| quantise.requires((v, s)),
    ensures
        ran(cli, raw@, plus, quantise, r),
{
    match cli.check() {
        Ok(_) => {},
        Err(e) => { return Err(e); },
    }
    let net = match from_weights(raw, cli.qa, cli.qb, plus, quantise) {
        Ok(net) => net,
        Err(e) => { return Err(e); },
    };
    render(cli, &net)
}

} // verus!
