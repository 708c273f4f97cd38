//! The syndrome of a trapped MCR, MRC, MCRR or MRRC access.

use crate::bits::bit_range;
use crate::common::{cv_text, describe_cv, outcome};
use crate::field::{DecodeError, Decoded, DecodedModel, FieldInfo, FieldModel};
use vstd::prelude::*;

verus! {

/// What the Direction bit says of a trapped single-register transfer.
pub open spec fn mcr_direction_text(direction: bool) -> Seq<char> {
    if direction {
        "Read from system register (MRC or VMRS)"@
    } else {
        "Write to system register (MCR)"@
    }
}

/// What the Direction bit says of a trapped double-register transfer.
pub open spec fn mcrr_direction_text(direction: bool) -> Seq<char> {
    if direction {
        "Read from system register (MRRC)"@
    } else {
        "Write to system register (MCRR)"@
    }
}

/// Describes the Direction bit of an MCR or MRC access.
pub fn describe_mcr_direction(direction: bool) -> (text: &'static str)
    ensures
        text@ == mcr_direction_text(direction),
{
    if direction {
        "Read from system register (MRC or VMRS)"
    } else {
        "Write to system register (MCR)"
    }
}

/// Describes the Direction bit of an MCRR or MRRC access.
pub fn describe_mcrr_direction(direction: bool) -> (text: &'static str)
    ensures
        text@ == mcrr_direction_text(direction),
{
    if direction {
        "Read from system register (MRRC)"
    } else {
        "Write to system register (MCRR)"
    }
}

/// The fields of an MCR or MRC syndrome. The layout has no reserved bit and
/// no field with undefined values: every syndrome decodes.
pub open spec fn mcr_fields(iss: u64) -> Seq<FieldModel> {
    seq![
        FieldModel::extract_bit(iss, "CV"@, 24).with_description(
            cv_text(bit_range(iss, 24, 25) == 1),
        ),
        FieldModel::extract(iss, "COND"@, 20, 24),
        FieldModel::extract(iss, "Opc2"@, 17, 20),
        FieldModel::extract(iss, "Opc1"@, 14, 17),
        FieldModel::extract(iss, "CRn"@, 10, 14),
        FieldModel::extract(iss, "Rt"@, 5, 10),
        FieldModel::extract(iss, "CRm"@, 1, 5),
        FieldModel::extract_bit(iss, "Direction"@, 0).with_description(
            mcr_direction_text(bit_range(iss, 0, 1) == 1),
        ),
    ]
}

/// What decoding an MCR or MRC syndrome gives.
pub open spec fn mcr_model(iss: u64) -> Result<DecodedModel, DecodeError> {
    Ok(DecodedModel { description: None, fields: mcr_fields(iss) })
}

/// The rule that an MCRR or MRRC syndrome can break: the reserved bit 15.
pub open spec fn mcrr_violation(iss: u64) -> Option<DecodeError> {
    let res0 = bit_range(iss, 15, 16);
    if res0 != 0 {
        Some(DecodeError::InvalidRes0 { res0 })
    } else {
        None
    }
}

/// The fields of an MCRR or MRRC syndrome that breaks no rule.
pub open spec fn mcrr_fields(iss: u64) -> Seq<FieldModel> {
    seq![
        FieldModel::extract_bit(iss, "CV"@, 24).with_description(
            cv_text(bit_range(iss, 24, 25) == 1),
        ),
        FieldModel::extract(iss, "COND"@, 20, 24),
        FieldModel::extract(iss, "Opc1"@, 16, 20),
        FieldModel::extract_bit(iss, "RES0"@, 15),
        FieldModel::extract(iss, "Rt2"@, 10, 15),
        FieldModel::extract(iss, "Rt"@, 5, 10),
        FieldModel::extract(iss, "CRm"@, 1, 5),
        FieldModel::extract_bit(iss, "Direction"@, 0).with_description(
            mcrr_direction_text(bit_range(iss, 0, 1) == 1),
        ),
    ]
}

/// What decoding an MCRR or MRRC syndrome gives.
pub open spec fn mcrr_model(iss: u64) -> Result<DecodedModel, DecodeError> {
    match mcrr_violation(iss) {
        Some(error) => Err(error),
        None => Ok(DecodedModel { description: None, fields: mcrr_fields(iss) }),
    }
}

/// Decodes the syndrome of a trapped MCR or MRC access.
pub fn decode_iss_mcr(iss: u64) -> (result: Result<Decoded, DecodeError>)
    ensures
        outcome(result) == mcr_model(iss),
{
    let cv = FieldInfo::get_bit(iss, "CV", 24).describe_bit(describe_cv);
    let cond = FieldInfo::get(iss, "COND", 20, 24);
    let opc2 = FieldInfo::get(iss, "Opc2", 17, 20);
    let opc1 = FieldInfo::get(iss, "Opc1", 14, 17);
    let crn = FieldInfo::get(iss, "CRn", 10, 14);
    let rt = FieldInfo::get(iss, "Rt", 5, 10);
    let crm = FieldInfo::get(iss, "CRm", 1, 5);
    let direction = FieldInfo::get_bit(iss, "Direction", 0).describe_bit(describe_mcr_direction);
    let decoded = Decoded {
        description: None,
        fields: vec![cv, cond, opc2, opc1, crn, rt, crm, direction],
    };
    assert(decoded@.fields =~= mcr_fields(iss));
    Ok(decoded)
}

/// Decodes the syndrome of a trapped MCRR or MRRC access.
pub fn decode_iss_mcrr(iss: u64) -> (result: Result<Decoded, DecodeError>)
    ensures
        outcome(result) == mcrr_model(iss),
{
    let cv = FieldInfo::get_bit(iss, "CV", 24).describe_bit(describe_cv);
    let cond = FieldInfo::get(iss, "COND", 20, 24);
    let opc1 = FieldInfo::get(iss, "Opc1", 16, 20);
    let res0 = FieldInfo::get_bit(iss, "RES0", 15).check_res0()?;
    let rt2 = FieldInfo::get(iss, "Rt2", 10, 15);
    let rt = FieldInfo::get(iss, "Rt", 5, 10);
    let crm = FieldInfo::get(iss, "CRm", 1, 5);
    let direction = FieldInfo::get_bit(iss, "Direction", 0).describe_bit(describe_mcrr_direction);
    let decoded = Decoded {
        description: None,
        fields: vec![cv, cond, opc1, res0, rt2, rt, crm, direction],
    };
    assert(decoded@.fields =~= mcrr_fields(iss));
    Ok(decoded)
}

} // verus!
