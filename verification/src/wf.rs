//! The syndrome of a trapped WFI, WFE, WFIT or WFET instruction.

use crate::bits::{bit_range, lemma_bit_range_bound};
use crate::common::{cv_text, describe_cv, outcome};
use crate::field::{DecodeError, Decoded, DecodedModel, FieldInfo, FieldModel};
use vstd::arithmetic::power2::lemma2_to64;
use vstd::prelude::*;

verus! {

/// What the RV bit says of the RN field beside it.
pub open spec fn rv_text(rv: bool) -> Seq<char> {
    if rv {
        "RN is valid"@
    } else {
        "RN is not valid"@
    }
}

/// The instruction that a TI value stands for. TI has two bits; larger
/// values name no instruction.
pub open spec fn ti_text(ti: u64) -> Option<Seq<char>> {
    match ti {
        0 => Some("WFI trapped"@),
        1 => Some("WFE trapped"@),
        2 => Some("WFIT trapped"@),
        3 => Some("WFET trapped"@),
        _ => None,
    }
}

/// Describes the RV bit.
pub fn describe_rv(rv: bool) -> (text: &'static str)
    ensures
        text@ == rv_text(rv),
{
    if rv {
        "RN is valid"
    } else {
        "RN is not valid"
    }
}

/// Describes a two-bit TI value.
pub fn describe_ti(ti: u64) -> (result: Result<&'static str, DecodeError>)
    requires
        ti < 4,
    ensures
        result is Ok,
        ti_text(ti) == Some(result->Ok_0@),
{
    Ok(
        match ti {
            0 => "WFI trapped",
            1 => "WFE trapped",
            2 => "WFIT trapped",
            _ => "WFET trapped",
        },
    )
}

/// The first rule that a WF* syndrome breaks, going from the highest field
/// down: the reserved bits 10 to 19, then the reserved bits 3 and 4.
pub open spec fn wf_violation(iss: u64) -> Option<DecodeError> {
    let upper = bit_range(iss, 10, 20);
    let lower = bit_range(iss, 3, 5);
    if upper != 0 {
        Some(DecodeError::InvalidRes0 { res0: upper })
    } else if lower != 0 {
        Some(DecodeError::InvalidRes0 { res0: lower })
    } else {
        None
    }
}

/// The fields of a WF* syndrome that breaks no rule.
pub open spec fn wf_fields(iss: u64) -> Seq<FieldModel> {
    seq![
        FieldModel::extract_bit(iss, "CV"@, 24).with_description(
            cv_text(bit_range(iss, 24, 25) == 1),
        ),
        FieldModel::extract(iss, "COND"@, 20, 24),
        FieldModel::extract(iss, "RES0"@, 10, 20),
        FieldModel::extract(iss, "RN"@, 5, 10),
        FieldModel::extract(iss, "RES0"@, 3, 5),
        FieldModel::extract_bit(iss, "RV"@, 2).with_description(
            rv_text(bit_range(iss, 2, 3) == 1),
        ),
        FieldModel::extract(iss, "TI"@, 0, 2).with_description(ti_text(bit_range(iss, 0, 2))->0),
    ]
}

/// What decoding a WF* syndrome gives.
pub open spec fn wf_model(iss: u64) -> Result<DecodedModel, DecodeError> {
    match wf_violation(iss) {
        Some(error) => Err(error),
        None => Ok(DecodedModel { description: None, fields: wf_fields(iss) }),
    }
}

/// Decodes the syndrome of a trapped WF* instruction.
pub fn decode_iss_wf(iss: u64) -> (result: Result<Decoded, DecodeError>)
    ensures
        outcome(result) == wf_model(iss),
{
    let cv = FieldInfo::get_bit(iss, "CV", 24).describe_bit(describe_cv);
    let cond = FieldInfo::get(iss, "COND", 20, 24);
    let res0a = FieldInfo::get(iss, "RES0", 10, 20).check_res0()?;
    let rn = FieldInfo::get(iss, "RN", 5, 10);
    let res0b = FieldInfo::get(iss, "RES0", 3, 5).check_res0()?;
    let rv = FieldInfo::get_bit(iss, "RV", 2).describe_bit(describe_rv);
    let ti = FieldInfo::get(iss, "TI", 0, 2);
    proof {
        lemma_bit_range_bound(iss, 0, 2);
        lemma2_to64();
    }
    let ti = ti.describe(describe_ti)?;
    let decoded = Decoded { description: None, fields: vec![cv, cond, res0a, rn, res0b, rv, ti] };
    assert(decoded@.fields =~= wf_fields(iss));
    Ok(decoded)
}

} // verus!
