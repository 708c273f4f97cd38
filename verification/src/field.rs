//! Decoded bit fields, the trees they form, and the errors of decoding.

use crate::bits::{bit_range, get_bits, lemma_bit_range_bound, lemma_shifted_range_is_bit_range};
use vstd::arithmetic::power2::pow2;
use vstd::prelude::*;

verus! {

/// Why a register value could not be decoded. Each variant carries the
/// value of the field that was refused.
#[derive(Clone, Copy, Debug, PartialEq, Eq, Structural)]
pub enum DecodeError {
    /// A reserved field was not 0.
    InvalidRes0 { res0: u64 },
    /// The exception class is not a defined one.
    InvalidEc { ec: u64 },
    /// The data or instruction fault status code is not a defined one.
    InvalidFsc { fsc: u64 },
    /// The synchronous error type is not a defined one.
    InvalidSet { set: u64 },
    /// The addressing mode is not a defined one.
    InvalidAm { am: u64 },
}

/// Information about a particular field.
#[derive(Debug, Eq, PartialEq)]
pub struct FieldInfo {
    /// The short name of the field, e.g. "ISS".
    pub name: &'static str,
    /// The index of the lowest bit of the field.
    pub start: usize,
    /// The number of bits in the field.
    pub width: usize,
    /// The value of the field.
    pub value: u64,
    /// More information about the field and subfields, if available.
    pub decoded: Option<Decoded>,
}

/// Information about the decoding of a field (or the entire register value).
#[derive(Debug, Eq, PartialEq)]
pub struct Decoded {
    /// A description explaining the field value, if available.
    pub description: Option<String>,
    /// Any sub-fields.
    pub fields: Vec<FieldInfo>,
}

/// The mathematical content of a `FieldInfo`.
pub struct FieldModel {
    /// The characters of the name.
    pub name: Seq<char>,
    /// The index of the lowest bit.
    pub start: nat,
    /// The number of bits.
    pub width: nat,
    /// The value of the field.
    pub value: u64,
    /// What is attached to the field, if anything.
    pub decoded: Option<DecodedModel>,
}

/// The mathematical content of a `Decoded`.
pub struct DecodedModel {
    /// The characters of the description, if there is one.
    pub description: Option<Seq<char>>,
    /// The sub-fields in order.
    pub fields: Seq<FieldModel>,
}

/// What a `FieldInfo` holds, with its strings as sequences of characters
/// and all that is attached to it taken the same way.
pub open spec fn field_model(field: FieldInfo) -> FieldModel
    decreases field,
{
    FieldModel {
        name: field.name@,
        start: field.start as nat,
        width: field.width as nat,
        value: field.value,
        decoded: match field.decoded {
            Some(decoded) => Some(decoded_model(decoded)),
            None => None,
        },
    }
}

/// What a `Decoded` holds: its description as a sequence of characters and
/// the content of each of its sub-fields in order.
pub open spec fn decoded_model(decoded: Decoded) -> DecodedModel
    decreases decoded,
{
    DecodedModel {
        description: match decoded.description {
            Some(text) => Some(text@),
            None => None,
        },
        fields: Seq::new(
            decoded.fields@.len(),
            |i: int|
                if 0 <= i < decoded.fields@.len() {
                    field_model(decoded.fields@[i])
                } else {
                    arbitrary()
                },
        ),
    }
}

impl FieldModel {
    /// The field `[start, end)` of `register` under the given name, with
    /// nothing said about its meaning yet.
    pub open spec fn extract(register: u64, name: Seq<char>, start: nat, end: nat) -> FieldModel {
        FieldModel {
            name,
            start,
            width: (end - start) as nat,
            value: bit_range(register, start, end),
            decoded: None,
        }
    }

    /// The single bit `bit` of `register` under the given name.
    pub open spec fn extract_bit(register: u64, name: Seq<char>, bit: nat) -> FieldModel {
        FieldModel::extract(register, name, bit, bit + 1)
    }

    /// The field is a range of at least one bit within a parent of
    /// `parent_width` bits that holds `parent`, its value is what the parent
    /// holds in that range and so lies below `2^width`, and each of its
    /// sub-fields is such a range within the field itself.
    pub open spec fn fits(self, parent: u64, parent_width: nat) -> bool
        decreases self,
    {
        &&& 1 <= self.width
        &&& self.start + self.width <= parent_width
        &&& self.value == bit_range(parent, self.start, self.start + self.width)
        &&& (self.value as nat) < pow2(self.width)
        &&& match self.decoded {
            Some(decoded) => forall|i: int|
                0 <= i < decoded.fields.len() ==> (#[trigger] decoded.fields[i]).fits(
                    self.value,
                    self.width,
                ),
            None => true,
        }
    }

    /// The same field with `decoded` attached in place of what it had.
    pub open spec fn with_decoded(self, decoded: DecodedModel) -> FieldModel {
        FieldModel { decoded: Some(decoded), ..self }
    }

    /// The same field with a description and no sub-fields attached.
    pub open spec fn with_description(self, description: Seq<char>) -> FieldModel {
        self.with_decoded(DecodedModel::described(description))
    }
}

impl DecodedModel {
    /// A description alone, without sub-fields.
    pub open spec fn described(description: Seq<char>) -> DecodedModel {
        DecodedModel { description: Some(description), fields: Seq::empty() }
    }
}

impl View for FieldInfo {
    type V = FieldModel;

    open spec fn view(&self) -> FieldModel {
        field_model(*self)
    }
}

impl View for Decoded {
    type V = DecodedModel;

    open spec fn view(&self) -> DecodedModel {
        decoded_model(*self)
    }
}

impl FieldInfo {
    /// Extracts the bits `[start, end)` of `register` as a field called `name`.
    pub fn get(register: u64, name: &'static str, start: usize, end: usize) -> (field: Self)
        requires
            start < end <= 64,
        ensures
            field@ == FieldModel::extract(register, name@, start as nat, end as nat),
            field@.fits(register, 64),
            field.name == name,
            field.start == start,
            field.width == end - start,
            field.value == bit_range(register, start as nat, end as nat),
            field.decoded is None,
    {
        let value: u64 = get_bits(register, start, end);
        proof {
            lemma_shifted_range_is_bit_range(register, start as u64, end as u64);
            lemma_bit_range_bound(register, start as nat, end as nat);
        }
        Self { name, start, width: end - start, value, decoded: None }
    }

    /// Extracts the single bit `bit` of `register` as a field called `name`.
    pub fn get_bit(register: u64, name: &'static str, bit: usize) -> (field: Self)
        requires
            bit < 64,
        ensures
            field@ == FieldModel::extract_bit(register, name@, bit as nat),
            field@.fits(register, 64),
            field.name == name,
            field.start == bit,
            field.width == 1,
            field.value == bit_range(register, bit as nat, bit as nat + 1),
            field.decoded is None,
    {
        Self::get(register, name, bit, bit + 1)
    }

    /// Attaches `decoded` to the field, in place of what it had.
    pub fn with_decoded(self, decoded: Decoded) -> (field: Self)
        ensures
            field == (FieldInfo { decoded: Some(decoded), ..self }),
            field@ == self@.with_decoded(decoded@),
    {
        Self { decoded: Some(decoded), ..self }
    }

    /// Attaches a description without sub-fields to the field.
    pub fn with_description(self, description: String) -> (field: Self)
        ensures
            field@ == self@.with_description(description@),
            field.name == self.name,
            field.start == self.start,
            field.width == self.width,
            field.value == self.value,
    {
        let decoded = Decoded { description: Some(description), fields: Vec::new() };
        assert(decoded@.fields =~= Seq::empty());
        self.with_decoded(decoded)
    }

    /// Reads a field of width 1 as a truth value.
    pub fn as_bit(&self) -> (bit: bool)
        requires
            self.width == 1,
        ensures
            bit == (self.value == 1),
    {
        self.value == 1
    }

    /// Describes a field of width 1 by what `describer` says of its bit.
    pub fn describe_bit<F>(self, describer: F) -> (field: Self) where
        F: FnOnce(bool) -> &'static str,

        requires
            self.width == 1,
            call_requires(describer, (self.value == 1,)),
        ensures
            exists|text: &'static str|
                call_ensures(describer, (self.value == 1,), text) && field@
                    == self@.with_description(text@),
            field.name == self.name,
            field.start == self.start,
            field.width == self.width,
            field.value == self.value,
    {
        let bit = self.as_bit();
        let text = describer(bit);
        let description = text.to_string();
        self.with_description(description)
    }

    /// Describes the field by what `describer` says of its value, or fails
    /// with the error that `describer` gives for it.
    pub fn describe<F>(self, describer: F) -> (result: Result<Self, DecodeError>) where
        F: FnOnce(u64) -> Result<&'static str, DecodeError>,

        requires
            call_requires(describer, (self.value,)),
        ensures
            match result {
                Ok(field) => {
                    &&& exists|text: &'static str|
                        call_ensures(describer, (self.value,), Ok(text)) && field@
                            == self@.with_description(text@)
                    &&& field.name == self.name
                    &&& field.start == self.start
                    &&& field.width == self.width
                    &&& field.value == self.value
                },
                Err(error) => call_ensures(describer, (self.value,), Err(error)),
            },
    {
        match describer(self.value) {
            Ok(text) => {
                let description = text.to_string();
                Ok(self.with_description(description))
            },
            Err(error) => Err(error),
        }
    }

    /// Accepts a reserved field only if it is 0.
    pub fn check_res0(self) -> (result: Result<Self, DecodeError>)
        ensures
            result == if self.value == 0 {
                Ok::<Self, DecodeError>(self)
            } else {
                Err(DecodeError::InvalidRes0 { res0: self.value })
            },
    {
        if self.value != 0 {
            Err(DecodeError::InvalidRes0 { res0: self.value })
        } else {
            Ok(self)
        }
    }
}

impl Decoded {
    /// Copies the description and every sub-field.
    fn duplicate(&self) -> (copy: Self)
        ensures
            copy@ == self@,
        decreases *self,
    {
        let description = match &self.description {
            Some(text) => Some(text.clone()),
            None => None,
        };
        let mut fields: Vec<FieldInfo> = Vec::new();
        let mut i: usize = 0;
        while i < self.fields.len()
            invariant
                i <= self.fields.len(),
                fields.len() == i,
                forall|j: int| 0 <= j < i ==> (#[trigger] fields[j])@ == self.fields[j]@,
            decreases self.fields.len() - i,
        {
            fields.push(self.fields[i].duplicate());
            i = i + 1;
        }
        let copy = Decoded { description, fields };
        assert(copy@.fields =~= self@.fields);
        copy
    }
}

impl FieldInfo {
    /// Copies the field with all that is attached to it.
    fn duplicate(&self) -> (copy: Self)
        ensures
            copy@ == self@,
        decreases *self,
    {
        let decoded = match &self.decoded {
            Some(decoded) => Some(decoded.duplicate()),
            None => None,
        };
        FieldInfo {
            name: self.name,
            start: self.start,
            width: self.width,
            value: self.value,
            decoded,
        }
    }
}

impl Clone for Decoded {
    fn clone(&self) -> (copy: Self)
        ensures
            copy@ == self@,
    {
        self.duplicate()
    }
}

impl Clone for FieldInfo {
    fn clone(&self) -> (copy: Self)
        ensures
            copy@ == self@,
    {
        self.duplicate()
    }
}

} // verus!
