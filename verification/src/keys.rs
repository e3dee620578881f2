use vstd::prelude::*;
use vstd::string::StrSliceExecFns;
use vstd::string::StringExecFns;
use crate::error::Tensor;

verus! {

/// How a document names its tensors.
#[derive(Clone, Debug, PartialEq, Eq)]
pub enum Naming {
    /// Each tensor under its full name or its short one; the factoriser and
    /// the piece-square table may be missing, and other keys are passed over.
    Rich,
    /// Four keys and no other: weight and bias of the feature layer and of the
    /// output layer, under the names given.
    Strict { feature: String, output: String },
}

/// Where among a document's keys each tensor is found.
#[derive(Clone, Copy, Debug, PartialEq, Eq)]
pub struct Located {
    pub perspective_weight: usize,
    pub perspective_bias: usize,
    pub factoriser_weight: Option<usize>,
    pub factoriser_bias: Option<usize>,
    pub psqt_weight: Option<usize>,
    pub output_weight: usize,
    pub output_bias: usize,
}

/// Why a document's keys are not those of a network.
#[derive(Clone, Debug, PartialEq, Eq)]
pub enum SchemaError {
    /// A tensor that must be there is under none of its names, of which `key`
    /// is the first. The key that the document may hold in its place is
    /// suggested: the first key's part
    /// before its first dot, with the ending of the name that was looked for.
    Missing { tensor: Tensor, key: String, suggestion: Option<String> },
    /// A tensor is there under both of its names.
    Duplicate { tensor: Tensor },
    /// The document does not hold the number of keys that the naming asks for.
    KeyCount { expected: usize, found: usize },
}

/// A schema error with its text as a sequence of characters.
pub enum SchemaFault {
    Missing { tensor: Tensor, key: Seq<char>, suggestion: Option<Seq<char>> },
    Duplicate { tensor: Tensor },
    KeyCount { expected: usize, found: usize },
}

impl View for SchemaError {
    type V = SchemaFault;

    open spec fn view(&self) -> SchemaFault {
        match *self {
            SchemaError::Missing { tensor, key, suggestion } => SchemaFault::Missing {
                tensor,
                key: key@,
                suggestion: match suggestion {
                    Some(text) => Some(text@),
                    None => None,
                },
            },
            SchemaError::Duplicate { tensor } => SchemaFault::Duplicate { tensor },
            SchemaError::KeyCount { expected, found } => SchemaFault::KeyCount { expected, found },
        }
    }
}

/// The keys as sequences of characters.
pub open spec fn names(keys: Seq<String>) -> Seq<Seq<char>> {
    Seq::new(keys.len(), |i: int| keys[i]@)
}

/// The part of a key before its first dot; the whole key where it has none.
pub open spec fn head(key: Seq<char>) -> Seq<char> {
    match key.index_of_first('.') {
        Some(i) => key.subrange(0, i),
        None => key,
    }
}

/// The key suggested in place of a missing one that ends in `suffix`.
pub open spec fn suggested(names: Seq<Seq<char>>, suffix: Seq<char>) -> Option<Seq<char>> {
    if names.len() == 0 {
        None
    } else {
        Some(head(names[0]) + suffix)
    }
}

impl Tensor {
    /// The layer's full name.
    pub open spec fn stem(self) -> Seq<char> {
        match self {
            Tensor::PerspectiveWeight | Tensor::PerspectiveBias => "perspective"@,
            Tensor::FactoriserWeight | Tensor::FactoriserBias => "factoriser"@,
            Tensor::PsqtWeight => "psqt"@,
            Tensor::OutputWeight | Tensor::OutputBias => "out"@,
        }
    }

    /// The layer's short name, where it has one.
    pub open spec fn short_stem(self) -> Option<Seq<char>> {
        match self {
            Tensor::PerspectiveWeight | Tensor::PerspectiveBias => Some("ft"@),
            Tensor::FactoriserWeight | Tensor::FactoriserBias => Some("fft"@),
            _ => None,
        }
    }

    /// The ending of the tensor's keys.
    pub open spec fn suffix(self) -> Seq<char> {
        match self {
            Tensor::PerspectiveBias | Tensor::FactoriserBias | Tensor::OutputBias => ".bias"@,
            _ => ".weight"@,
        }
    }

    /// Whether a network cannot do without the tensor.
    pub open spec fn required(self) -> bool {
        match self {
            Tensor::FactoriserWeight | Tensor::FactoriserBias | Tensor::PsqtWeight => false,
            _ => true,
        }
    }

    /// The layer's full name.
    pub fn layer(self) -> (r: &'static str)
        ensures
            r@ == self.stem(),
    {
        match self {
            Tensor::PerspectiveWeight | Tensor::PerspectiveBias => "perspective",
            Tensor::FactoriserWeight | Tensor::FactoriserBias => "factoriser",
            Tensor::PsqtWeight => "psqt",
            Tensor::OutputWeight | Tensor::OutputBias => "out",
        }
    }

    /// The layer's short name, where it has one.
    pub fn short_layer(self) -> (r: Option<&'static str>)
        ensures
            match r {
                Some(text) => self.short_stem() == Some(text@),
                None => self.short_stem() is None,
            },
    {
        match self {
            Tensor::PerspectiveWeight | Tensor::PerspectiveBias => Some("ft"),
            Tensor::FactoriserWeight | Tensor::FactoriserBias => Some("fft"),
            _ => None,
        }
    }

    /// The ending of the tensor's keys.
    pub fn ending(self) -> (r: &'static str)
        ensures
            r@ == self.suffix(),
    {
        match self {
            Tensor::PerspectiveBias | Tensor::FactoriserBias | Tensor::OutputBias => ".bias",
            _ => ".weight",
        }
    }
}

impl Naming {
    /// The first name under which the tensor is looked for; `None` where the
    /// naming has no such tensor.
    pub open spec fn long_name(&self, tensor: Tensor) -> Option<Seq<char>> {
        match *self {
            Naming::Rich => Some(tensor.stem() + tensor.suffix()),
            Naming::Strict { feature, output } => match tensor {
                Tensor::PerspectiveWeight | Tensor::PerspectiveBias => Some(
                    feature@ + tensor.suffix(),
                ),
                Tensor::OutputWeight | Tensor::OutputBias => Some(output@ + tensor.suffix()),
                _ => None,
            },
        }
    }

    /// The second name under which the tensor is looked for, where there is
    /// one.
    pub open spec fn short_name(&self, tensor: Tensor) -> Option<Seq<char>> {
        match *self {
            Naming::Rich => match tensor.short_stem() {
                Some(stem) => Some(stem + tensor.suffix()),
                None => None,
            },
            Naming::Strict { .. } => None,
        }
    }

    /// Where the tensor is found under its first name.
    pub open spec fn long_place(&self, names: Seq<Seq<char>>, tensor: Tensor) -> Option<int> {
        match self.long_name(tensor) {
            Some(name) => names.index_of_first(name),
            None => None,
        }
    }

    /// Where the tensor is found under its second name.
    pub open spec fn short_place(&self, names: Seq<Seq<char>>, tensor: Tensor) -> Option<int> {
        match self.short_name(tensor) {
            Some(name) => names.index_of_first(name),
            None => None,
        }
    }

    /// Where the tensor is found: under its first name, else under its second.
    pub open spec fn place(&self, names: Seq<Seq<char>>, tensor: Tensor) -> Option<int> {
        if self.long_place(names, tensor) is Some {
            self.long_place(names, tensor)
        } else {
            self.short_place(names, tensor)
        }
    }

    /// Whether the tensor is there under both of its names.
    pub open spec fn doubled(&self, names: Seq<Seq<char>>, tensor: Tensor) -> bool {
        self.long_place(names, tensor) is Some && self.short_place(names, tensor) is Some
    }

    /// Whether a tensor that must be there is under none of its names.
    pub open spec fn lacks(&self, names: Seq<Seq<char>>, tensor: Tensor) -> bool {
        tensor.required() && self.place(names, tensor) is None
    }

    /// The fault of one tensor: that it is doubled, or that it is lacking.
    pub open spec fn tensor_fault(&self, names: Seq<Seq<char>>, tensor: Tensor) -> Option<
        SchemaFault,
    > {
        if self.doubled(names, tensor) {
            Some(SchemaFault::Duplicate { tensor })
        } else if self.lacks(names, tensor) {
            Some(
                SchemaFault::Missing {
                    tensor,
                    key: self.long_name(tensor)->0,
                    suggestion: suggested(names, tensor.suffix()),
                },
            )
        } else {
            None
        }
    }

    /// What is wrong with the number of keys.
    pub open spec fn count_fault(&self, names: Seq<Seq<char>>) -> Option<SchemaFault> {
        match *self {
            Naming::Rich => None,
            Naming::Strict { .. } => if names.len() != 4 {
                Some(SchemaFault::KeyCount { expected: 4, found: names.len() as usize })
            } else {
                None
            },
        }
    }

    /// The first fault of the keys: in their number, else in the first tensor
    /// that has one, the tensors taken in the order of `tensors`.
    pub open spec fn fault(&self, names: Seq<Seq<char>>) -> Option<SchemaFault> {
        if self.count_fault(names) is Some {
            self.count_fault(names)
        } else {
            self.fault_from(names, 0)
        }
    }

    /// The fault of the first tensor from the `from`-th on that has one.
    pub open spec fn fault_from(&self, names: Seq<Seq<char>>, from: int) -> Option<SchemaFault>
        decreases tensors().len() - from,
    {
        if from < 0 || from >= tensors().len() {
            None
        } else if self.tensor_fault(names, tensors()[from]) is Some {
            self.tensor_fault(names, tensors()[from])
        } else {
            self.fault_from(names, from + 1)
        }
    }
}

/// The tensors in the order in which a network lists them.
pub open spec fn tensors() -> Seq<Tensor> {
    seq![
        Tensor::PerspectiveWeight,
        Tensor::PerspectiveBias,
        Tensor::FactoriserWeight,
        Tensor::FactoriserBias,
        Tensor::PsqtWeight,
        Tensor::OutputWeight,
        Tensor::OutputBias,
    ]
}

impl Located {
    /// The place of a tensor.
    pub open spec fn of(&self, tensor: Tensor) -> Option<int> {
        match tensor {
            Tensor::PerspectiveWeight => Some(self.perspective_weight as int),
            Tensor::PerspectiveBias => Some(self.perspective_bias as int),
            Tensor::FactoriserWeight => match self.factoriser_weight {
                Some(i) => Some(i as int),
                None => None,
            },
            Tensor::FactoriserBias => match self.factoriser_bias {
                Some(i) => Some(i as int),
                None => None,
            },
            Tensor::PsqtWeight => match self.psqt_weight {
                Some(i) => Some(i as int),
                None => None,
            },
            Tensor::OutputWeight => Some(self.output_weight as int),
            Tensor::OutputBias => Some(self.output_bias as int),
        }
    }
}

/// The index of the first key that is `name`.
pub fn locate(keys: &Vec<String>, name: &String) -> (r: Option<usize>)
    ensures
        match r {
            Some(i) => names(keys@).index_of_first(name@) == Some(i as int),
            None => names(keys@).index_of_first(name@) is None,
        },
{
    let mut i: usize = 0;
    while i < keys.len()
        invariant
            i <= keys@.len(),
            forall|j: int| 0 <= j < i ==> names(keys@)[j] != name@,
        decreases keys@.len() - i,
    {
        if keys[i] == *name {
            proof {
                names(keys@).index_of_first_ensures(name@);
                assert(names(keys@)[i as int] == name@);
            }
            return Some(i);
        }
        i += 1;
    }
    proof {
        names(keys@).index_of_first_ensures(name@);
    }
    None
}

/// The part of a key before its first dot, with `suffix` behind it.
pub fn suggest(key: &str, suffix: &str) -> (r: String)
    ensures
        r@ == head(key@) + suffix@,
{
    let len = key.unicode_len();
    let mut i: usize = 0;
    while i < len && key.get_char(i) != '.'
        invariant
            i <= len,
            len == key@.len(),
            forall|j: int| 0 <= j < i ==> key@[j] != '.',
        decreases len - i,
    {
        i += 1;
    }
    proof {
        key@.index_of_first_ensures('.');
        if i < len {
            assert(key@[i as int] == '.');
        } else {
            assert(key@.subrange(0, len as int) =~= key@);
        }
    }
    String::from_str(key.substring_char(0, i)).concat(suffix)
}

impl Naming {
    /// The first name under which the tensor is looked for.
    fn long_key(&self, tensor: Tensor) -> (r: Option<String>)
        ensures
            match r {
                Some(name) => self.long_name(tensor) == Some(name@),
                None => self.long_name(tensor) is None,
            },
    {
        match self {
            Naming::Rich => Some(String::from_str(tensor.layer()).concat(tensor.ending())),
            Naming::Strict { feature, output } => match tensor {
                Tensor::PerspectiveWeight | Tensor::PerspectiveBias => Some(
                    feature.clone().concat(tensor.ending()),
                ),
                Tensor::OutputWeight | Tensor::OutputBias => Some(
                    output.clone().concat(tensor.ending()),
                ),
                _ => None,
            },
        }
    }

    /// The second name under which the tensor is looked for.
    fn short_key(&self, tensor: Tensor) -> (r: Option<String>)
        ensures
            match r {
                Some(name) => self.short_name(tensor) == Some(name@),
                None => self.short_name(tensor) is None,
            },
    {
        match self {
            Naming::Rich => match tensor.short_layer() {
                Some(layer) => Some(String::from_str(layer).concat(tensor.ending())),
                None => None,
            },
            Naming::Strict { .. } => None,
        }
    }

    /// Looks for one tensor among the keys: where it is, if it is there, or
    /// what is wrong about it.
    pub fn seek(&self, keys: &Vec<String>, tensor: Tensor) -> (r: Result<
        Option<usize>,
        SchemaError,
    >)
        ensures
            match r {
                Ok(Some(i)) => self.tensor_fault(names(keys@), tensor) is None && self.place(
                    names(keys@),
                    tensor,
                ) == Some(i as int),
                Ok(None) => self.tensor_fault(names(keys@), tensor) is None && self.place(
                    names(keys@),
                    tensor,
                ) is None,
                Err(e) => self.tensor_fault(names(keys@), tensor) == Some(e@),
            },
    {
        let key = match self.long_key(tensor) {
            Some(name) => name,
            None => { return Ok(None); },
        };
        let long = locate(keys, &key);
        let short = match self.short_key(tensor) {
            Some(name) => locate(keys, &name),
            None => None,
        };
        let place = match (long, short) {
            (Some(_), Some(_)) => { return Err(SchemaError::Duplicate { tensor }); },
            (Some(i), None) => Some(i),
            (None, other) => other,
        };
        let required = match tensor {
            Tensor::FactoriserWeight | Tensor::FactoriserBias | Tensor::PsqtWeight => false,
            _ => true,
        };
        if required && place.is_none() {
            let suggestion = if keys.len() == 0 {
                None
            } else {
                Some(suggest(keys[0].as_str(), tensor.ending()))
            };
            return Err(SchemaError::Missing { tensor, key, suggestion });
        }
        Ok(place)
    }

    /// Looks for a tensor that must be there.
    fn need(&self, keys: &Vec<String>, tensor: Tensor) -> (r: Result<usize, SchemaError>)
        requires
            tensor.required(),
        ensures
            match r {
                Ok(i) => self.tensor_fault(names(keys@), tensor) is None && self.place(
                    names(keys@),
                    tensor,
                ) == Some(i as int),
                Err(e) => self.tensor_fault(names(keys@), tensor) == Some(e@),
            },
    {
        match self.seek(keys, tensor) {
            Ok(Some(i)) => Ok(i),
            Ok(None) => vstd::pervasive::unreached(),
            Err(e) => Err(e),
        }
    }

    /// Finds every tensor among the keys of a document. Gives the place of
    /// each where the keys are those of a network under this naming, and
    /// else the first fault.
    pub fn resolve(&self, keys: &Vec<String>) -> (r: Result<Located, SchemaError>)
        ensures
            match r {
                Ok(found) => self.fault(names(keys@)) is None && forall|tensor: Tensor|
                    found.of(tensor) == self.place(names(keys@), tensor),
                Err(e) => self.fault(names(keys@)) == Some(e@),
            },
    {
        proof {
            reveal_with_fuel(Naming::fault_from, 8);
        }
        match self {
            Naming::Rich => {},
            Naming::Strict { .. } => {
                if keys.len() != 4 {
                    return Err(SchemaError::KeyCount { expected: 4, found: keys.len() });
                }
            },
        }
        let perspective_weight = match self.need(keys, Tensor::PerspectiveWeight) {
            Ok(i) => i,
            Err(e) => { return Err(e); },
        };
        let perspective_bias = match self.need(keys, Tensor::PerspectiveBias) {
            Ok(i) => i,
            Err(e) => { return Err(e); },
        };
        let factoriser_weight = match self.seek(keys, Tensor::FactoriserWeight) {
            Ok(place) => place,
            Err(e) => { return Err(e); },
        };
        let factoriser_bias = match self.seek(keys, Tensor::FactoriserBias) {
            Ok(place) => place,
            Err(e) => { return Err(e); },
        };
        let psqt_weight = match self.seek(keys, Tensor::PsqtWeight) {
            Ok(place) => place,
            Err(e) => { return Err(e); },
        };
        let output_weight = match self.need(keys, Tensor::OutputWeight) {
            Ok(i) => i,
            Err(e) => { return Err(e); },
        };
        let output_bias = match self.need(keys, Tensor::OutputBias) {
            Ok(i) => i,
            Err(e) => { return Err(e); },
        };
        Ok(
            Located {
                perspective_weight,
                perspective_bias,
                factoriser_weight,
                factoriser_bias,
                psqt_weight,
                output_weight,
                output_bias,
            },
        )
    }
}

} // verus!
