use vstd::prelude::*;
use vstd::string::StringSliceAdditionalSpecFns;
use vstd::utf8::encode_utf8;
use crate::error::ConvertError;
use crate::keys::Naming;
use crate::header::NET_NAME_MAXLEN;

verus! {

/// `std::path::PathBuf`, of which nothing is said: a path is only carried.
#[verifier::external_type_specification]
#[verifier::external_body]
pub struct ExPathBuf(std::path::PathBuf);

/// What the command line asks for.
#[derive(Clone, Debug, PartialEq, Eq)]
pub struct Cli {
    /// The file of the network's tensors.
    pub input: Option<std::path::PathBuf>,
    /// Output path for the network binary.
    pub output: Option<std::path::PathBuf>,
    /// Output directory for one file per buffer.
    pub split: Option<std::path::PathBuf>,
    /// The first quantisation parameter.
    pub qa: i32,
    /// The second quantisation parameter.
    pub qb: i32,
    /// Whether to output the output weights as i16 instead of i8.
    pub big_out: bool,
    /// Whether to omit the binary header.
    pub no_header: bool,
    /// Name of the network.
    pub name: Option<String>,
    /// Whether the document must hold the four tensors of the two layers and
    /// nothing else.
    pub strict: bool,
    /// The name of the feature layer in a document read strictly.
    pub ft_name: String,
    /// The name of the output layer in a document read strictly.
    pub out_name: String,
}

impl Cli {
    /// The bytes of the network's name; none where no name was given.
    pub open spec fn name_bytes(&self) -> Seq<u8> {
        match self.name {
            Some(name) => encode_utf8(name@),
            None => Seq::empty(),
        }
    }

    /// Whether the unified file is to begin with a header.
    pub open spec fn wants_header(&self) -> bool {
        self.output is Some && !self.no_header
    }

    /// The first thing that is wrong with what was asked for; `None` where
    /// nothing is.
    pub open spec fn fault(&self) -> Option<ConvertError> {
        if self.input is None {
            Some(ConvertError::NoInput)
        } else if self.output is None && self.split is None {
            Some(ConvertError::NoOutput)
        } else if self.name is None && self.wants_header() {
            Some(ConvertError::NoName)
        } else if self.name_bytes().len() > NET_NAME_MAXLEN {
            Some(ConvertError::NameTooLong { len: self.name_bytes().len() as usize })
        } else {
            None
        }
    }

    /// How the document is to name its tensors.
    pub open spec fn naming_of(&self) -> Naming {
        if self.strict {
            Naming::Strict { feature: self.ft_name, output: self.out_name }
        } else {
            Naming::Rich
        }
    }

    /// How the document is to name its tensors: strictly, by the two layer
    /// names, where that was asked for.
    pub fn naming(&self) -> (r: Naming)
        ensures
            r == self.naming_of(),
    {
        if self.strict {
            Naming::Strict { feature: self.ft_name.clone(), output: self.out_name.clone() }
        } else {
            Naming::Rich
        }
    }

    /// Checks that an input and an output are named, that a header has a name
    /// to hold, and that the name fits the header.
    pub fn check(&self) -> (r: Result<(), ConvertError>)
        ensures
            match r {
                Ok(_) => self.fault() is None,
                Err(e) => self.fault() == Some(e),
            },
    {
        if self.input.is_none() {
            return Err(ConvertError::NoInput);
        }
        if self.output.is_none() && self.split.is_none() {
            return Err(ConvertError::NoOutput);
        }
        match &self.name {
            Some(name) => {
                let len = name.as_str().as_bytes().len();
                if len > NET_NAME_MAXLEN {
                    return Err(ConvertError::NameTooLong { len });
                }
            },
            None => {
                if self.output.is_some() && !self.no_header {
                    return Err(ConvertError::NoName);
                }
            },
        }
        Ok(())
    }
}

} // verus!
