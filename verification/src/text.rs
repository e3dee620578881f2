use vstd::prelude::*;
use vstd::string::StringExecFns;
use crate::error::ConvertError;
use crate::error::Tensor;
use crate::keys::SchemaError;
use crate::keys::SchemaFault;

verus! {

/// A digit as a text of one character.
pub open spec fn digit(d: int) -> Seq<char> {
    if d == 0 {
        "0"@
    } else if d == 1 {
        "1"@
    } else if d == 2 {
        "2"@
    } else if d == 3 {
        "3"@
    } else if d == 4 {
        "4"@
    } else if d == 5 {
        "5"@
    } else if d == 6 {
        "6"@
    } else if d == 7 {
        "7"@
    } else if d == 8 {
        "8"@
    } else {
        "9"@
    }
}

/// A number written in decimal digits.
pub open spec fn decimal(n: nat) -> Seq<char>
    decreases n,
{
    if n < 10 {
        digit(n as int)
    } else {
        decimal(n / 10) + digit(n as int % 10)
    }
}

/// A number written in decimal digits, behind a minus sign where it is
/// negative.
pub open spec fn signed(x: int) -> Seq<char> {
    if x < 0 {
        "-"@ + decimal((-x) as nat)
    } else {
        decimal(x as nat)
    }
}

/// The text of a digit.
fn digit_text(d: u64) -> (r: &'static str)
    requires
        d < 10,
    ensures
        r@ == digit(d as int),
{
    if d == 0 {
        "0"
    } else if d == 1 {
        "1"
    } else if d == 2 {
        "2"
    } else if d == 3 {
        "3"
    } else if d == 4 {
        "4"
    } else if d == 5 {
        "5"
    } else if d == 6 {
        "6"
    } else if d == 7 {
        "7"
    } else if d == 8 {
        "8"
    } else {
        "9"
    }
}

/// Writes a number behind a text, in decimal digits.
pub fn write_decimal(text: &mut String, n: u64)
    ensures
        final(text)@ == old(text)@ + decimal(n as nat),
    decreases n,
{
    if n >= 10 {
        write_decimal(text, n / 10);
    }
    text.append(digit_text(n % 10));
    assert(text@ =~= old(text)@ + decimal(n as nat));
}

/// Writes a number behind a text, with its sign where it is negative.
pub fn write_signed(text: &mut String, x: i64)
    ensures
        final(text)@ == old(text)@ + signed(x as int),
{
    if x < 0 {
        text.append("-");
        let size: u64 = if x == i64::MIN {
            0x8000_0000_0000_0000
        } else {
            (-x) as u64
        };
        write_decimal(text, size);
        assert(text@ =~= old(text)@ + signed(x as int));
    } else {
        write_decimal(text, x as u64);
    }
}

impl Tensor {
    /// The tensor's full name: that of its layer with the ending of its kind.
    pub fn key(self) -> (r: String)
        ensures
            r@ == self.stem() + self.suffix(),
    {
        String::from_str(self.layer()).concat(self.ending())
    }
}

impl ConvertError {
    /// The error in words, with the numbers that it carries.
    pub open spec fn text(self) -> Seq<char> {
        match self {
            ConvertError::ShapeMismatch { neurons, out_size } => "there are "@ + decimal(
                neurons as nat,
            ) + " neurons, but out.weight has "@ + decimal(out_size as nat)
                + " inputs (should be twice as many)"@,
            ConvertError::Rows { tensor, expected, found } => tensor.stem() + tensor.suffix()
                + " has length "@ + decimal(found as nat) + ", expected "@ + decimal(
                expected as nat,
            ),
            ConvertError::Columns { tensor, row, expected, found } => "row "@ + decimal(
                row as nat,
            ) + " of "@ + tensor.stem() + tensor.suffix() + " has length "@ + decimal(
                found as nat,
            ) + ", expected "@ + decimal(expected as nat),
            ConvertError::Empty { tensor } => tensor.stem() + tensor.suffix()
                + " is empty, or its first row is"@,
            ConvertError::StackedRows { neurons, buckets, found } => "perspective.weight has "@
                + decimal(found as nat) + " rows, expected "@ + decimal(neurons as nat)
                + " neurons times "@ + decimal(buckets as nat) + " buckets"@,
            ConvertError::ScaleOverflow { qa, qb } => "the product of the scales "@ + signed(
                qa as int,
            ) + " and "@ + signed(qb as int) + " does not fit 32 bits"@,
            ConvertError::RangeOverflow { index, value } => "output weight "@ + decimal(
                index as nat,
            ) + " is "@ + signed(value as int) + ", which does not fit 8 bits"@,
            ConvertError::NoInput => "No input file specified."@,
            ConvertError::NoOutput => "No output path specified, try --output <PATH>"@,
            ConvertError::NoName => "No network name specified for CBNF header, try --name <NAME>"@,
            ConvertError::NameTooLong { len } => "Network name too long: "@ + decimal(len as nat)
                + " bytes, must be 48 bytes or less."@,
            ConvertError::HiddenSizeOverflow { hidden_size } => decimal(hidden_size as nat)
                + " neurons are more than the header can count"@,
        }
    }

    /// The error in words, with the numbers that it carries.
    pub fn message(&self) -> (r: String)
        ensures
            r@ == self.text(),
    {
        let mut text = String::new();
        match *self {
            ConvertError::ShapeMismatch { neurons, out_size } => {
                text.append("there are ");
                write_decimal(&mut text, neurons as u64);
                text.append(" neurons, but out.weight has ");
                write_decimal(&mut text, out_size as u64);
                text.append(" inputs (should be twice as many)");
            },
            ConvertError::Rows { tensor, expected, found } => {
                text.append(tensor.layer());
                text.append(tensor.ending());
                text.append(" has length ");
                write_decimal(&mut text, found as u64);
                text.append(", expected ");
                write_decimal(&mut text, expected as u64);
            },
            ConvertError::Columns { tensor, row, expected, found } => {
                text.append("row ");
                write_decimal(&mut text, row as u64);
                text.append(" of ");
                text.append(tensor.layer());
                text.append(tensor.ending());
                text.append(" has length ");
                write_decimal(&mut text, found as u64);
                text.append(", expected ");
                write_decimal(&mut text, expected as u64);
            },
            ConvertError::Empty { tensor } => {
                text.append(tensor.layer());
                text.append(tensor.ending());
                text.append(" is empty, or its first row is");
            },
            ConvertError::StackedRows { neurons, buckets, found } => {
                text.append("perspective.weight has ");
                write_decimal(&mut text, found as u64);
                text.append(" rows, expected ");
                write_decimal(&mut text, neurons as u64);
                text.append(" neurons times ");
                write_decimal(&mut text, buckets as u64);
                text.append(" buckets");
            },
            ConvertError::ScaleOverflow { qa, qb } => {
                text.append("the product of the scales ");
                write_signed(&mut text, qa as i64);
                text.append(" and ");
                write_signed(&mut text, qb as i64);
                text.append(" does not fit 32 bits");
            },
            ConvertError::RangeOverflow { index, value } => {
                text.append("output weight ");
                write_decimal(&mut text, index as u64);
                text.append(" is ");
                write_signed(&mut text, value as i64);
                text.append(", which does not fit 8 bits");
            },
            ConvertError::NoInput => {
                text.append("No input file specified.");
            },
            ConvertError::NoOutput => {
                text.append("No output path specified, try --output <PATH>");
            },
            ConvertError::NoName => {
                text.append("No network name specified for CBNF header, try --name <NAME>");
            },
            ConvertError::NameTooLong { len } => {
                text.append("Network name too long: ");
                write_decimal(&mut text, len as u64);
                text.append(" bytes, must be 48 bytes or less.");
            },
            ConvertError::HiddenSizeOverflow { hidden_size } => {
                write_decimal(&mut text, hidden_size as u64);
                text.append(" neurons are more than the header can count");
            },
        }
        assert(text@ =~= self.text());
        text
    }
}

impl SchemaFault {
    /// The error in words, with the keys that it carries.
    pub open spec fn text(self) -> Seq<char> {
        match self {
            SchemaFault::Missing { tensor, key, suggestion } => "missing field `"@ + key + match suggestion {
                Some(other) => "`, did you mean `"@ + other + "`?"@,
                None => "`"@,
            },
            SchemaFault::Duplicate { tensor } => "duplicate field `"@ + tensor.stem()
                + tensor.suffix() + "`"@,
            SchemaFault::KeyCount { expected, found } => "expected "@ + decimal(expected as nat)
                + " keys, found "@ + decimal(found as nat),
        }
    }
}

impl SchemaError {
    /// The error in words, with the keys that it carries.
    pub fn message(&self) -> (r: String)
        ensures
            r@ == self@.text(),
    {
        let mut text = String::new();
        match self {
            SchemaError::Missing { tensor, key, suggestion } => {
                text.append("missing field `");
                text.append(key.as_str());
                match suggestion {
                    Some(other) => {
                        text.append("`, did you mean `");
                        text.append(other.as_str());
                        text.append("`?");
                    },
                    None => {
                        text.append("`");
                    },
                }
            },
            SchemaError::Duplicate { tensor } => {
                text.append("duplicate field `");
                text.append(tensor.layer());
                text.append(tensor.ending());
                text.append("`");
            },
            SchemaError::KeyCount { expected, found } => {
                text.append("expected ");
                write_decimal(&mut text, *expected as u64);
                text.append(" keys, found ");
                write_decimal(&mut text, *found as u64);
            },
        }
        assert(text@ =~= self@.text());
        text
    }
}

} // verus!
