use vstd::prelude::*;
use vstd::string::StringSliceAdditionalSpecFns;
use crate::error::ConvertError;

verus! {

/// The number of bytes that the header has for the network's name.
pub const NET_NAME_MAXLEN: usize = 48;

/// The number of bytes of a header.
pub const HEADER_LEN: usize = 64;

/// The architecture tag of a network with king buckets.
pub const HALF_KA: u8 = 0x00;

/// The architecture tag of a network without buckets.
pub const PERSPECTIVE: u8 = 0x01;

/// The fields of the record that goes before the buffers of a network.
#[derive(Clone, Copy, Debug, PartialEq, Eq)]
pub struct Header {
    pub magic: [u8; 4],
    pub version: u16,
    pub flags: u16,
    pub padding: u8,
    pub arch: u8,
    pub activation: u8,
    pub hidden_size: u16,
    pub input_buckets: u8,
    pub output_buckets: u8,
    pub name_len: u8,
    pub name: [u8; 48],
}

/// The two bytes of a value, the low byte first.
pub open spec fn le16(x: u16) -> Seq<u8> {
    seq![(x % 256) as u8, (x / 256) as u8]
}

/// The letters C, B, N, F.
pub open spec fn magic() -> Seq<u8> {
    seq![0x43u8, 0x42u8, 0x4eu8, 0x46u8]
}

/// `name` followed by zero bytes up to the length of the name field.
pub open spec fn padded_name(name: Seq<u8>) -> Seq<u8> {
    Seq::new(
        NET_NAME_MAXLEN as nat,
        |k: int|
            if k < name.len() {
                name[k]
            } else {
                0u8
            },
    )
}

/// The bytes of the header of a network of `hidden_size` neurons, with or
/// without buckets, whose name has the bytes `name`.
pub open spec fn record_of(has_buckets: bool, hidden_size: int, name: Seq<u8>) -> Seq<u8> {
    magic() + le16(1) + le16(0) + seq![
        0u8,
        if has_buckets {
            HALF_KA
        } else {
            PERSPECTIVE
        },
        0u8,
    ] + le16(hidden_size as u16) + seq![
        if has_buckets {
            64u8
        } else {
            1u8
        },
        1u8,
        name.len() as u8,
    ] + padded_name(name)
}

impl Header {
    /// The record's bytes: the fields in their order, without gaps, those of
    /// two bytes with the low byte first.
    pub open spec fn layout(&self) -> Seq<u8> {
        self.magic@ + le16(self.version) + le16(self.flags) + seq![
            self.padding,
            self.arch,
            self.activation,
        ] + le16(self.hidden_size) + seq![self.input_buckets, self.output_buckets, self.name_len]
            + self.name@
    }

    /// The header is the one of a network of `hidden_size` neurons, with or
    /// without buckets, whose name has the bytes `name`.
    pub open spec fn describes(&self, has_buckets: bool, hidden_size: int, name: Seq<u8>) -> bool {
        &&& self.magic@ == magic()
        &&& self.version == 1
        &&& self.flags == 0
        &&& self.padding == 0
        &&& self.arch == if has_buckets {
            HALF_KA
        } else {
            PERSPECTIVE
        }
        &&& self.activation == 0
        &&& self.hidden_size == hidden_size
        &&& self.input_buckets == if has_buckets {
            64u8
        } else {
            1u8
        }
        &&& self.output_buckets == 1
        &&& self.name_len == name.len()
        &&& self.name@ == padded_name(name)
    }

    /// The header of a network. The name may take up to 48 bytes and the
    /// number of neurons must fit sixteen bits; the name is looked at first.
    pub fn new(has_buckets: bool, hidden_size: usize, name: &str) -> (r: Result<
        Header,
        ConvertError,
    >)
        ensures
            match r {
                Ok(header) => name.spec_bytes().len() <= NET_NAME_MAXLEN && hidden_size
                    <= u16::MAX && header.describes(
                    has_buckets,
                    hidden_size as int,
                    name.spec_bytes(),
                ),
                Err(e) => if name.spec_bytes().len() > NET_NAME_MAXLEN {
                    e == (ConvertError::NameTooLong { len: name.spec_bytes().len() as usize })
                } else {
                    hidden_size > u16::MAX && e == (ConvertError::HiddenSizeOverflow {
                        hidden_size,
                    })
                },
            },
    {
        let bytes = name.as_bytes();
        if bytes.len() > NET_NAME_MAXLEN {
            return Err(ConvertError::NameTooLong { len: bytes.len() });
        }
        if hidden_size > 0xffff {
            return Err(ConvertError::HiddenSizeOverflow { hidden_size });
        }
        let mut field: [u8; 48] = [0u8; 48];
        let mut i: usize = 0;
        while i < bytes.len()
            invariant
                i <= bytes@.len() <= NET_NAME_MAXLEN,
                forall|k: int| 0 <= k < i ==> field@[k] == bytes@[k],
                forall|k: int| i <= k < NET_NAME_MAXLEN ==> field@[k] == 0u8,
            decreases bytes@.len() - i,
        {
            field[i] = bytes[i];
            i += 1;
        }
        assert(field@ =~= padded_name(bytes@));
        let magic: [u8; 4] = [0x43, 0x42, 0x4e, 0x46];
        assert(magic@ =~= self::magic());
        Ok(
            Header {
                magic,
                version: 1,
                flags: 0,
                padding: 0,
                arch: if has_buckets {
                    HALF_KA
                } else {
                    PERSPECTIVE
                },
                activation: 0,
                hidden_size: hidden_size as u16,
                input_buckets: if has_buckets {
                    64
                } else {
                    1
                },
                output_buckets: 1,
                name_len: bytes.len() as u8,
                name: field,
            },
        )
    }
}

/// The header as the bytes of a `cbnf_rs::CBNFHeader`, by its `as_bytes`.
/// That record is packed, so its bytes are its fields in their order without
/// gaps; the fields of two bytes are handed over in little-endian form, so
/// that their low byte comes first on every host.
#[verifier::external_body]
pub(crate) fn record(header: &Header) -> (bytes: Vec<u8>)
    ensures
        bytes@ == header.layout(),
{
    let record = cbnf_rs::CBNFHeader {
        magic: header.magic, version: header.version.to_le(), flags: header.flags.to_le(),
        padding: header.padding, arch: header.arch, activation: header.activation,
        hidden_size: header.hidden_size.to_le(), input_buckets: header.input_buckets,
        output_buckets: header.output_buckets, name_len: header.name_len, name: header.name,
    };
    record.as_bytes().to_vec()
}

/// The bytes of a header are settled by the network that it describes.
pub proof fn lemma_record_of(header: Header, has_buckets: bool, hidden_size: int, name: Seq<u8>)
    requires
        header.describes(has_buckets, hidden_size, name),
        0 <= hidden_size <= u16::MAX,
        name.len() <= NET_NAME_MAXLEN,
    ensures
        header.layout() == record_of(has_buckets, hidden_size, name),
{
}

/// A header takes 64 bytes.
pub proof fn lemma_header_len(header: Header)
    ensures
        header.layout().len() == HEADER_LEN,
{
}

} // verus!
