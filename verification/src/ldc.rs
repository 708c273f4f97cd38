//! The syndrome of a trapped LDC or STC access.

use crate::bits::bit_range;
use crate::common::{cv_text, describe_cv, outcome};
use crate::field::{DecodeError, Decoded, DecodedModel, FieldInfo, FieldModel};
use vstd::prelude::*;

verus! {

/// What the Offset bit says of the immediate.
pub open spec fn offset_text(offset: bool) -> Seq<char> {
    if offset {
        "Add offset"@
    } else {
        "Subtract offset"@
    }
}

/// What the Direction bit says of the trapped instruction.
pub open spec fn ldc_direction_text(direction: bool) -> Seq<char> {
    if direction {
        "Read from memory (LDC)"@
    } else {
        "Write to memory (STC)"@
    }
}

/// The addressing mode that an AM value stands for, if it is a defined one.
pub open spec fn am_text(am: u64) -> Option<Seq<char>> {
    match am {
        0 => Some("Immediate unindexed"@),
        1 => Some("Immediate post-indexed"@),
        2 => Some("Immediate offset"@),
        3 => Some("Immediate pre-indexed"@),
        4 => Some("Reserved for trapped STR or T32 LDC"@),
        6 => Some("Reserved for trapped STC"@),
        _ => None,
    }
}

/// Describes the Offset bit.
pub fn describe_offset(offset: bool) -> (text: &'static str)
    ensures
        text@ == offset_text(offset),
{
    if offset {
        "Add offset"
    } else {
        "Subtract offset"
    }
}

/// Describes the Direction bit of an LDC or STC access.
pub fn describe_ldc_direction(direction: bool) -> (text: &'static str)
    ensures
        text@ == ldc_direction_text(direction),
{
    if direction {
        "Read from memory (LDC)"
    } else {
        "Write to memory (STC)"
    }
}

/// Describes an AM value, or refuses it as undefined.
pub fn describe_am(am: u64) -> (result: Result<&'static str, DecodeError>)
    ensures
        match result {
            Ok(text) => am_text(am) == Some(text@),
            Err(error) => am_text(am) is None && error == (DecodeError::InvalidAm { am }),
        },
{
    match am {
        0 => Ok("Immediate unindexed"),
        1 => Ok("Immediate post-indexed"),
        2 => Ok("Immediate offset"),
        3 => Ok("Immediate pre-indexed"),
        4 => Ok("Reserved for trapped STR or T32 LDC"),
        6 => Ok("Reserved for trapped STC"),
        _ => Err(DecodeError::InvalidAm { am }),
    }
}

/// The first rule that an LDC or STC syndrome breaks, going from the highest
/// field down: the reserved bits 10 and 11, then AM.
pub open spec fn ldc_violation(iss: u64) -> Option<DecodeError> {
    let res0 = bit_range(iss, 10, 12);
    let am = bit_range(iss, 1, 4);
    if res0 != 0 {
        Some(DecodeError::InvalidRes0 { res0 })
    } else if am_text(am) is None {
        Some(DecodeError::InvalidAm { am })
    } else {
        None
    }
}

/// The fields of an LDC or STC syndrome that breaks no rule.
pub open spec fn ldc_fields(iss: u64) -> Seq<FieldModel> {
    seq![
        FieldModel::extract_bit(iss, "CV"@, 24).with_description(
            cv_text(bit_range(iss, 24, 25) == 1),
        ),
        FieldModel::extract(iss, "COND"@, 20, 24),
        FieldModel::extract(iss, "imm8"@, 12, 20),
        FieldModel::extract(iss, "RES0"@, 10, 12),
        FieldModel::extract(iss, "Rn"@, 5, 10),
        FieldModel::extract_bit(iss, "Offset"@, 4).with_description(
            offset_text(bit_range(iss, 4, 5) == 1),
        ),
        FieldModel::extract(iss, "AM"@, 1, 4).with_description(am_text(bit_range(iss, 1, 4))->0),
        FieldModel::extract_bit(iss, "Direction"@, 0).with_description(
            ldc_direction_text(bit_range(iss, 0, 1) == 1),
        ),
    ]
}

/// What decoding an LDC or STC syndrome gives.
pub open spec fn ldc_model(iss: u64) -> Result<DecodedModel, DecodeError> {
    match ldc_violation(iss) {
        Some(error) => Err(error),
        None => Ok(DecodedModel { description: None, fields: ldc_fields(iss) }),
    }
}

/// Decodes the syndrome of a trapped LDC or STC access.
pub fn decode_iss_ldc(iss: u64) -> (result: Result<Decoded, DecodeError>)
    ensures
        outcome(result) == ldc_model(iss),
{
    let cv = FieldInfo::get_bit(iss, "CV", 24).describe_bit(describe_cv);
    let cond = FieldInfo::get(iss, "COND", 20, 24);
    let imm8 = FieldInfo::get(iss, "imm8", 12, 20);
    let res0 = FieldInfo::get(iss, "RES0", 10, 12).check_res0()?;
    let rn = FieldInfo::get(iss, "Rn", 5, 10);
    let offset = FieldInfo::get_bit(iss, "Offset", 4).describe_bit(describe_offset);
    let am = FieldInfo::get(iss, "AM", 1, 4).describe(describe_am)?;
    let direction = FieldInfo::get_bit(iss, "Direction", 0).describe_bit(describe_ldc_direction);
    let decoded = Decoded {
        description: None,
        fields: vec![cv, cond, imm8, res0, rn, offset, am, direction],
    };
    assert(decoded@.fields =~= ldc_fields(iss));
    Ok(decoded)
}

} // verus!
