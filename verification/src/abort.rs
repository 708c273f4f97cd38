//! The syndrome of instruction aborts and data aborts.

use crate::bits::{bit_range, lemma_bit_range_bound};
use crate::common::outcome;
use crate::field::{DecodeError, Decoded, DecodedModel, FieldInfo, FieldModel};
use vstd::arithmetic::power2::lemma2_to64;
use vstd::prelude::*;

verus! {

/// What the ISV bit of a data abort says.
pub open spec fn isv_text(isv: bool) -> Seq<char> {
    if isv {
        "Valid instruction syndrome"@
    } else {
        "No valid instruction syndrome"@
    }
}

/// The access size that a SAS value stands for. SAS has two bits; larger
/// values have no size.
pub open spec fn sas_text(sas: u64) -> Option<Seq<char>> {
    match sas {
        0 => Some("byte"@),
        1 => Some("halfword"@),
        2 => Some("word"@),
        3 => Some("doubleword"@),
        _ => None,
    }
}

/// What the SF bit says of the register that was accessed.
pub open spec fn sf_text(sf: bool) -> Seq<char> {
    if sf {
        "64-bit wide register"@
    } else {
        "32-bit wide register"@
    }
}

/// What the AR bit says of the instruction that faulted.
pub open spec fn ar_text(ar: bool) -> Seq<char> {
    if ar {
        "Acquire/release semantics"@
    } else {
        "No acquire/release semantics"@
    }
}

/// What the FnV bit says of the fault address register.
pub open spec fn fnv_text(fnv: bool) -> Seq<char> {
    if fnv {
        "FAR is not valid, it holds an unknown value"@
    } else {
        "FAR is valid"@
    }
}

/// What the WnR bit says of the access that faulted.
pub open spec fn wnr_text(wnr: bool) -> Seq<char> {
    if wnr {
        "Abort caused by writing to memory"@
    } else {
        "Abort caused by reading from memory"@
    }
}

/// The synchronous error type that a SET value stands for, if it is a
/// defined one.
pub open spec fn set_text(set: u64) -> Option<Seq<char>> {
    match set {
        0 => Some("Recoverable state (UER)"@),
        2 => Some("Uncontainable (UC)"@),
        3 => Some("Restartable state (UEO)"@),
        _ => None,
    }
}

/// The fault that a data or instruction fault status code stands for, if it
/// is a defined one.
pub open spec fn fsc_text(fsc: u64) -> Option<Seq<char>> {
    match fsc {
        0 => Some(
            "Address size fault, level 0 of translation or translation table base register."@,
        ),
        1 => Some("Address size fault, level 1."@),
        2 => Some("Address size fault, level 2."@),
        3 => Some("Address size fault, level 3."@),
        4 => Some("Translation fault, level 0."@),
        5 => Some("Translation fault, level 1."@),
        6 => Some("Translation fault, level 2."@),
        7 => Some("Translation fault, level 3."@),
        8 => Some("Access flag fault, level 0."@),
        9 => Some("Access flag fault, level 1."@),
        10 => Some("Access flag fault, level 2."@),
        11 => Some("Access flag fault, level 3."@),
        12 => Some("Permission fault, level 0."@),
        13 => Some("Permission fault, level 1."@),
        14 => Some("Permission fault, level 2."@),
        15 => Some("Permission fault, level 3."@),
        16 => Some(
            "Synchronous External abort, not on translation table walk or hardware update of translation table."@,
        ),
        17 => Some("Synchronous Tag Check Fault."@),
        19 => Some(
            "Synchronous External abort on translation table walk or hardware update of translation table, level -1."@,
        ),
        20 => Some(
            "Synchronous External abort on translation table walk or hardware update of translation table, level 0."@,
        ),
        21 => Some(
            "Synchronous External abort on translation table walk or hardware update of translation table, level 1."@,
        ),
        22 => Some(
            "Synchronous External abort on translation table walk or hardware update of translation table, level 2."@,
        ),
        23 => Some(
            "Synchronous External abort on translation table walk or hardware update of translation table, level 3."@,
        ),
        24 => Some(
            "Synchronous parity or ECC error on memory access, not on translation table walk."@,
        ),
        27 => Some(
            "Synchronous parity or ECC error on memory access on translation table walk or hardware update of translation table, level -1."@,
        ),
        28 => Some(
            "Synchronous parity or ECC error on memory access on translation table walk or hardware update of translation table, level 0."@,
        ),
        29 => Some(
            "Synchronous parity or ECC error on memory access on translation table walk or hardware update of translation table, level 1."@,
        ),
        30 => Some(
            "Synchronous parity or ECC error on memory access on translation table walk or hardware update of translation table, level 2."@,
        ),
        31 => Some(
            "Synchronous parity or ECC error on memory access on translation table walk or hardware update of translation table, level 3."@,
        ),
        33 => Some("Alignment fault."@),
        41 => Some("Address size fault, level -1."@),
        43 => Some("Translation fault, level -1."@),
        48 => Some("TLB conflict abort."@),
        49 => Some("Unsupported atomic hardware update fault."@),
        52 => Some("IMPLEMENTATION DEFINED fault (Lockdown)."@),
        53 => Some("IMPLEMENTATION DEFINED fault (Unsupported Exclusive or Atomic access)."@),
        _ => None,
    }
}

/// Describes the ISV bit.
pub fn describe_isv(isv: bool) -> (text: &'static str)
    ensures
        text@ == isv_text(isv),
{
    if isv {
        "Valid instruction syndrome"
    } else {
        "No valid instruction syndrome"
    }
}

/// Describes the SF bit.
pub fn describe_sf(sf: bool) -> (text: &'static str)
    ensures
        text@ == sf_text(sf),
{
    if sf {
        "64-bit wide register"
    } else {
        "32-bit wide register"
    }
}

/// Describes the AR bit.
pub fn describe_ar(ar: bool) -> (text: &'static str)
    ensures
        text@ == ar_text(ar),
{
    if ar {
        "Acquire/release semantics"
    } else {
        "No acquire/release semantics"
    }
}

/// Describes the FnV bit.
pub fn describe_fnv(fnv: bool) -> (text: &'static str)
    ensures
        text@ == fnv_text(fnv),
{
    if fnv {
        "FAR is not valid, it holds an unknown value"
    } else {
        "FAR is valid"
    }
}

/// Describes the WnR bit.
pub fn describe_wnr(wnr: bool) -> (text: &'static str)
    ensures
        text@ == wnr_text(wnr),
{
    if wnr {
        "Abort caused by writing to memory"
    } else {
        "Abort caused by reading from memory"
    }
}

/// Describes a two-bit SAS value.
pub fn describe_sas(sas: u64) -> (result: Result<&'static str, DecodeError>)
    requires
        sas < 4,
    ensures
        result is Ok,
        sas_text(sas) == Some(result->Ok_0@),
{
    Ok(
        match sas {
            0 => "byte",
            1 => "halfword",
            2 => "word",
            _ => "doubleword",
        },
    )
}

/// Describes a SET value, or refuses it as undefined.
pub fn describe_set(set: u64) -> (result: Result<&'static str, DecodeError>)
    ensures
        match result {
            Ok(text) => set_text(set) == Some(text@),
            Err(error) => set_text(set) is None && error == (DecodeError::InvalidSet { set }),
        },
{
    match set {
        0 => Ok("Recoverable state (UER)"),
        2 => Ok("Uncontainable (UC)"),
        3 => Ok("Restartable state (UEO)"),
        _ => Err(DecodeError::InvalidSet { set }),
    }
}

/// Describes a fault status code, or refuses it as undefined.
pub fn describe_fsc(fsc: u64) -> (result: Result<&'static str, DecodeError>)
    ensures
        match result {
            Ok(text) => fsc_text(fsc) == Some(text@),
            Err(error) => fsc_text(fsc) is None && error == (DecodeError::InvalidFsc { fsc }),
        },
{
    match fsc {
        0 => Ok("Address size fault, level 0 of translation or translation table base register."),
        1 => Ok("Address size fault, level 1."),
        2 => Ok("Address size fault, level 2."),
        3 => Ok("Address size fault, level 3."),
        4 => Ok("Translation fault, level 0."),
        5 => Ok("Translation fault, level 1."),
        6 => Ok("Translation fault, level 2."),
        7 => Ok("Translation fault, level 3."),
        8 => Ok("Access flag fault, level 0."),
        9 => Ok("Access flag fault, level 1."),
        10 => Ok("Access flag fault, level 2."),
        11 => Ok("Access flag fault, level 3."),
        12 => Ok("Permission fault, level 0."),
        13 => Ok("Permission fault, level 1."),
        14 => Ok("Permission fault, level 2."),
        15 => Ok("Permission fault, level 3."),
        16 => Ok(
            "Synchronous External abort, not on translation table walk or hardware update of translation table.",
        ),
        17 => Ok("Synchronous Tag Check Fault."),
        19 => Ok(
            "Synchronous External abort on translation table walk or hardware update of translation table, level -1.",
        ),
        20 => Ok(
            "Synchronous External abort on translation table walk or hardware update of translation table, level 0.",
        ),
        21 => Ok(
            "Synchronous External abort on translation table walk or hardware update of translation table, level 1.",
        ),
        22 => Ok(
            "Synchronous External abort on translation table walk or hardware update of translation table, level 2.",
        ),
        23 => Ok(
            "Synchronous External abort on translation table walk or hardware update of translation table, level 3.",
        ),
        24 => Ok(
            "Synchronous parity or ECC error on memory access, not on translation table walk.",
        ),
        27 => Ok(
            "Synchronous parity or ECC error on memory access on translation table walk or hardware update of translation table, level -1.",
        ),
        28 => Ok(
            "Synchronous parity or ECC error on memory access on translation table walk or hardware update of translation table, level 0.",
        ),
        29 => Ok(
            "Synchronous parity or ECC error on memory access on translation table walk or hardware update of translation table, level 1.",
        ),
        30 => Ok(
            "Synchronous parity or ECC error on memory access on translation table walk or hardware update of translation table, level 2.",
        ),
        31 => Ok(
            "Synchronous parity or ECC error on memory access on translation table walk or hardware update of translation table, level 3.",
        ),
        33 => Ok("Alignment fault."),
        41 => Ok("Address size fault, level -1."),
        43 => Ok("Translation fault, level -1."),
        48 => Ok("TLB conflict abort."),
        49 => Ok("Unsupported atomic hardware update fault."),
        52 => Ok("IMPLEMENTATION DEFINED fault (Lockdown)."),
        53 => Ok("IMPLEMENTATION DEFINED fault (Unsupported Exclusive or Atomic access)."),
        _ => Err(DecodeError::InvalidFsc { fsc }),
    }
}

/// The first rule that an instruction abort syndrome breaks, going from the
/// highest field down: the reserved bits 13 to 24, SET, the reserved bit 8,
/// the reserved bit 6, IFSC.
pub open spec fn instruction_abort_violation(iss: u64) -> Option<DecodeError> {
    let high = bit_range(iss, 13, 25);
    let set = bit_range(iss, 11, 13);
    let bit8 = bit_range(iss, 8, 9);
    let bit6 = bit_range(iss, 6, 7);
    let ifsc = bit_range(iss, 0, 6);
    if high != 0 {
        Some(DecodeError::InvalidRes0 { res0: high })
    } else if set_text(set) is None {
        Some(DecodeError::InvalidSet { set })
    } else if bit8 != 0 {
        Some(DecodeError::InvalidRes0 { res0: bit8 })
    } else if bit6 != 0 {
        Some(DecodeError::InvalidRes0 { res0: bit6 })
    } else if fsc_text(ifsc) is None {
        Some(DecodeError::InvalidFsc { fsc: ifsc })
    } else {
        None
    }
}

/// The fields of an instruction abort syndrome that breaks no rule.
pub open spec fn instruction_abort_fields(iss: u64) -> Seq<FieldModel> {
    seq![
        FieldModel::extract(iss, "RES0"@, 13, 25),
        FieldModel::extract(iss, "SET"@, 11, 13).with_description(
            set_text(bit_range(iss, 11, 13))->0,
        ),
        FieldModel::extract_bit(iss, "FnV"@, 10).with_description(
            fnv_text(bit_range(iss, 10, 11) == 1),
        ),
        FieldModel::extract_bit(iss, "EA"@, 9),
        FieldModel::extract_bit(iss, "RES0"@, 8),
        FieldModel::extract_bit(iss, "S1PTW"@, 7),
        FieldModel::extract_bit(iss, "RES0"@, 6),
        FieldModel::extract(iss, "IFSC"@, 0, 6).with_description(fsc_text(bit_range(iss, 0, 6))->0),
    ]
}

/// What decoding an instruction abort syndrome gives.
pub open spec fn instruction_abort_model(iss: u64) -> Result<DecodedModel, DecodeError> {
    match instruction_abort_violation(iss) {
        Some(error) => Err(error),
        None => Ok(DecodedModel { description: None, fields: instruction_abort_fields(iss) }),
    }
}

/// Decodes the syndrome of an instruction abort.
pub fn decode_iss_instruction_abort(iss: u64) -> (result: Result<Decoded, DecodeError>)
    ensures
        outcome(result) == instruction_abort_model(iss),
{
    let res0a = FieldInfo::get(iss, "RES0", 13, 25).check_res0()?;
    let set = FieldInfo::get(iss, "SET", 11, 13).describe(describe_set)?;
    let fnv = FieldInfo::get_bit(iss, "FnV", 10).describe_bit(describe_fnv);
    let ea = FieldInfo::get_bit(iss, "EA", 9);
    let res0b = FieldInfo::get_bit(iss, "RES0", 8).check_res0()?;
    let s1ptw = FieldInfo::get_bit(iss, "S1PTW", 7);
    let res0c = FieldInfo::get_bit(iss, "RES0", 6).check_res0()?;
    let ifsc = FieldInfo::get(iss, "IFSC", 0, 6).describe(describe_fsc)?;
    let decoded = Decoded {
        description: None,
        fields: vec![res0a, set, fnv, ea, res0b, s1ptw, res0c, ifsc],
    };
    assert(decoded@.fields =~= instruction_abort_fields(iss));
    Ok(decoded)
}

/// The first rule that a data abort syndrome breaks, going from the highest
/// field down: without a valid instruction syndrome the reserved bits 14 to
/// 23, then in either case SET and DFSC.
pub open spec fn data_abort_violation(iss: u64) -> Option<DecodeError> {
    let isv = bit_range(iss, 24, 25) == 1;
    let middle = bit_range(iss, 14, 24);
    let set = bit_range(iss, 11, 13);
    let dfsc = bit_range(iss, 0, 6);
    if !isv && middle != 0 {
        Some(DecodeError::InvalidRes0 { res0: middle })
    } else if set_text(set) is None {
        Some(DecodeError::InvalidSet { set })
    } else if fsc_text(dfsc) is None {
        Some(DecodeError::InvalidFsc { fsc: dfsc })
    } else {
        None
    }
}

/// Bits 14 to 23 of a data abort syndrome: the instruction syndrome where
/// ISV says that it is valid, one reserved field where it is not.
pub open spec fn data_abort_syndrome_fields(iss: u64) -> Seq<FieldModel> {
    if bit_range(iss, 24, 25) == 1 {
        seq![
            FieldModel::extract(iss, "SAS"@, 22, 24).with_description(
                sas_text(bit_range(iss, 22, 24))->0,
            ),
            FieldModel::extract_bit(iss, "SSE"@, 21),
            FieldModel::extract(iss, "SRT"@, 16, 21),
            FieldModel::extract_bit(iss, "SF"@, 15).with_description(
                sf_text(bit_range(iss, 15, 16) == 1),
            ),
            FieldModel::extract_bit(iss, "AR"@, 14).with_description(
                ar_text(bit_range(iss, 14, 15) == 1),
            ),
        ]
    } else {
        seq![FieldModel::extract(iss, "RES0"@, 14, 24)]
    }
}

/// Bits 0 to 13 of a data abort syndrome, which do not depend on ISV.
pub open spec fn data_abort_common_fields(iss: u64) -> Seq<FieldModel> {
    seq![
        FieldModel::extract_bit(iss, "VNCR"@, 13),
        FieldModel::extract(iss, "SET"@, 11, 13).with_description(
            set_text(bit_range(iss, 11, 13))->0,
        ),
        FieldModel::extract_bit(iss, "FnV"@, 10).with_description(
            fnv_text(bit_range(iss, 10, 11) == 1),
        ),
        FieldModel::extract_bit(iss, "EA"@, 9),
        FieldModel::extract_bit(iss, "CM"@, 8),
        FieldModel::extract_bit(iss, "S1PTW"@, 7),
        FieldModel::extract_bit(iss, "WnR"@, 6).with_description(
            wnr_text(bit_range(iss, 6, 7) == 1),
        ),
        FieldModel::extract(iss, "DFSC"@, 0, 6).with_description(fsc_text(bit_range(iss, 0, 6))->0),
    ]
}

/// The fields of a data abort syndrome that breaks no rule: ISV, what it
/// selects for bits 14 to 23, and the fields below.
pub open spec fn data_abort_fields(iss: u64) -> Seq<FieldModel> {
    seq![
        FieldModel::extract_bit(iss, "ISV"@, 24).with_description(
            isv_text(bit_range(iss, 24, 25) == 1),
        ),
    ] + data_abort_syndrome_fields(iss) + data_abort_common_fields(iss)
}

/// What decoding a data abort syndrome gives.
pub open spec fn data_abort_model(iss: u64) -> Result<DecodedModel, DecodeError> {
    match data_abort_violation(iss) {
        Some(error) => Err(error),
        None => Ok(DecodedModel { description: None, fields: data_abort_fields(iss) }),
    }
}

/// Decodes the syndrome of a data abort.
pub fn decode_iss_data_abort(iss: u64) -> (result: Result<Decoded, DecodeError>)
    ensures
        outcome(result) == data_abort_model(iss),
{
    let isv = FieldInfo::get_bit(iss, "ISV", 24).describe_bit(describe_isv);
    let valid = isv.as_bit();
    let mut fields: Vec<FieldInfo> = vec![isv];
    if valid {
        let sas = FieldInfo::get(iss, "SAS", 22, 24);
        proof {
            lemma_bit_range_bound(iss, 22, 24);
            lemma2_to64();
        }
        let sas = sas.describe(describe_sas)?;
        let sse = FieldInfo::get_bit(iss, "SSE", 21);
        let srt = FieldInfo::get(iss, "SRT", 16, 21);
        let sf = FieldInfo::get_bit(iss, "SF", 15).describe_bit(describe_sf);
        let ar = FieldInfo::get_bit(iss, "AR", 14).describe_bit(describe_ar);
        fields.push(sas);
        fields.push(sse);
        fields.push(srt);
        fields.push(sf);
        fields.push(ar);
    } else {
        let res0 = FieldInfo::get(iss, "RES0", 14, 24).check_res0()?;
        fields.push(res0);
    }
    let vncr = FieldInfo::get_bit(iss, "VNCR", 13);
    let set = FieldInfo::get(iss, "SET", 11, 13).describe(describe_set)?;
    let fnv = FieldInfo::get_bit(iss, "FnV", 10).describe_bit(describe_fnv);
    let ea = FieldInfo::get_bit(iss, "EA", 9);
    let cm = FieldInfo::get_bit(iss, "CM", 8);
    let s1ptw = FieldInfo::get_bit(iss, "S1PTW", 7);
    let wnr = FieldInfo::get_bit(iss, "WnR", 6).describe_bit(describe_wnr);
    let dfsc = FieldInfo::get(iss, "DFSC", 0, 6).describe(describe_fsc)?;
    fields.push(vncr);
    fields.push(set);
    fields.push(fnv);
    fields.push(ea);
    fields.push(cm);
    fields.push(s1ptw);
    fields.push(wnr);
    fields.push(dfsc);
    let decoded = Decoded { description: None, fields };
    assert(decoded@.fields =~= data_abort_fields(iss));
    Ok(decoded)
}

} // verus!
