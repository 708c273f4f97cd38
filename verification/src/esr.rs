//! The register as a whole: its five fields and the exception classes.

use crate::abort::{
    data_abort_model, decode_iss_data_abort, decode_iss_instruction_abort,
    instruction_abort_model,
};
use crate::bits::bit_range;
use crate::common::outcome;
use crate::field::{DecodeError, Decoded, DecodedModel, FieldInfo, FieldModel};
use crate::ldc::{decode_iss_ldc, ldc_model};
use crate::mcr::{decode_iss_mcr, decode_iss_mcrr, mcr_model, mcrr_model};
use crate::wf::{decode_iss_wf, wf_model};
use vstd::prelude::*;

verus! {

/// How the ISS field of an exception class is laid out.
#[derive(Clone, Copy, Debug, PartialEq, Eq, Structural)]
pub enum Syndrome {
    /// No layout is known: the field is reported as it is.
    Undecoded,
    /// The whole field is reserved and has to be 0.
    Res0,
    /// A trapped WF* instruction.
    Wf,
    /// A trapped MCR or MRC access.
    Mcr,
    /// A trapped MCRR or MRRC access.
    Mcrr,
    /// A trapped LDC or STC access.
    Ldc,
    /// An instruction abort.
    InstructionAbort,
    /// A data abort.
    DataAbort,
}

/// The description of the exception class with code `ec`, if `ec` is a
/// defined class.
pub open spec fn class_text(ec: u64) -> Option<Seq<char>> {
    match ec {
        0b000000 => Some("Unknown reason"@),
        0b000001 => Some("Wrapped WF* instruction execution"@),
        0b000011 => Some("Trapped MCR or MRC access with coproc=0b1111"@),
        0b000100 => Some("Trapped MCRR or MRRC access with coproc=0b1111"@),
        0b000101 => Some("Trapped MCR or MRC access with coproc=0b1110"@),
        0b000110 => Some("Trapped LDC or STC access"@),
        0b000111 => Some("Trapped access to SVE, Advanced SIMD or floating point"@),
        0b001010 => Some("Trapped execution of an LD64B, ST64B, ST64BV, or ST64BV0 instruction"@),
        0b001100 => Some("Trapped MRRC access with (coproc==0b1110)"@),
        0b001101 => Some("Branch Target Exception"@),
        0b001110 => Some("Illegal Execution state"@),
        0b010001 => Some("SVC instruction execution in AArch32 state"@),
        0b010101 => Some("SVC instruction execution in AArch64 state"@),
        0b011000 => Some("Trapped MSR, MRS or System instruction execution in AArch64 state"@),
        0b011001 => Some("Access to SVE functionality trapped as a result of CPACR_EL1.ZEN, CPTR_EL2.ZEN, CPTR_EL2.TZ, or CPTR_EL3.EZ"@),
        0b011100 => Some("Exception from a Pointer Authentication instruction authentication failure"@),
        0b100000 => Some("Instruction Abort from a lower Exception level"@),
        0b100001 => Some("Instruction Abort taken without a change in Exception level"@),
        0b100010 => Some("PC alignment fault exception"@),
        0b100100 => Some("Data Abort from a lower Exception level"@),
        0b100101 => Some("Data Abort taken without a change in Exception level"@),
        0b100110 => Some("SP alignment fault exception"@),
        0b101000 => Some("Trapped floating-point exception taken from AArch32 state"@),
        0b101100 => Some("Trapped floating-point exception taken from AArch64 state"@),
        0b101111 => Some("SError interrupt"@),
        0b110000 => Some("Breakpoint exception from a lower Exception level"@),
        0b110001 => Some("Breakpoint exception taken without a change in Exception level"@),
        0b110010 => Some("Software Step exception from a lower Exception level"@),
        0b110011 => Some("Software Step exception taken without a change in Exception level"@),
        0b110100 => Some("Watchpoint exception from a lower Exception level"@),
        0b110101 => Some("Watchpoint exception taken without a change in Exception level"@),
        0b111000 => Some("BKPT instruction execution in AArch32 state"@),
        0b111100 => Some("BRK instruction execution in AArch64 state"@),
        _ => None,
    }
}

/// The layout of the ISS field under the exception class with code `ec`.
pub open spec fn class_syndrome(ec: u64) -> Syndrome {
    match ec {
        0b000000 | 0b001110 | 0b011001 | 0b100010 | 0b100110 => Syndrome::Res0,
        0b000001 => Syndrome::Wf,
        0b000011 | 0b000101 => Syndrome::Mcr,
        0b000100 => Syndrome::Mcrr,
        0b000110 => Syndrome::Ldc,
        0b100000 | 0b100001 => Syndrome::InstructionAbort,
        0b100100 | 0b100101 => Syndrome::DataAbort,
        _ => Syndrome::Undecoded,
    }
}

/// What the IL bit says of the trapped instruction.
pub open spec fn il_text(il: bool) -> Seq<char> {
    if il {
        "32-bit instruction trapped"@
    } else {
        "16-bit instruction trapped"@
    }
}

/// What decoding an ISS field that is reserved as a whole gives.
pub open spec fn iss_res0_model(iss: u64) -> Result<DecodedModel, DecodeError> {
    if iss == 0 {
        Ok(DecodedModel::described("ISS is RES0"@))
    } else {
        Err(DecodeError::InvalidRes0 { res0: iss })
    }
}

/// What decoding the ISS value `iss` under a layout gives: nothing where no
/// layout is known, and else the tree or the error of that layout.
pub open spec fn syndrome_model(syndrome: Syndrome, iss: u64) -> Result<
    Option<DecodedModel>,
    DecodeError,
> {
    let decoded = match syndrome {
        Syndrome::Undecoded => None,
        Syndrome::Res0 => Some(iss_res0_model(iss)),
        Syndrome::Wf => Some(wf_model(iss)),
        Syndrome::Mcr => Some(mcr_model(iss)),
        Syndrome::Mcrr => Some(mcrr_model(iss)),
        Syndrome::Ldc => Some(ldc_model(iss)),
        Syndrome::InstructionAbort => Some(instruction_abort_model(iss)),
        Syndrome::DataAbort => Some(data_abort_model(iss)),
    };
    match decoded {
        None => Ok(None),
        Some(Ok(tree)) => Ok(Some(tree)),
        Some(Err(error)) => Err(error),
    }
}

/// The five fields of a register value whose exception class has the
/// description `class` and whose ISS field decoded to `iss_decoded`.
pub open spec fn esr_fields(esr: u64, class: Seq<char>, iss_decoded: Option<DecodedModel>) -> Seq<
    FieldModel,
> {
    seq![
        FieldModel::extract(esr, "RES0"@, 37, 64),
        FieldModel::extract(esr, "ISS2"@, 32, 37),
        FieldModel::extract(esr, "EC"@, 26, 32).with_description(class),
        FieldModel::extract_bit(esr, "IL"@, 25).with_description(
            il_text(bit_range(esr, 25, 26) == 1),
        ),
        FieldModel { decoded: iss_decoded, ..FieldModel::extract(esr, "ISS"@, 0, 25) },
    ]
}

/// What decoding the register value `esr` gives. The reserved bits 37 to 63
/// are judged first, then the exception class in bits 26 to 31, then the
/// ISS field in bits 0 to 24 under the layout of that class.
pub open spec fn esr_model(esr: u64) -> Result<DecodedModel, DecodeError> {
    let res0 = bit_range(esr, 37, 64);
    let ec = bit_range(esr, 26, 32);
    let iss = bit_range(esr, 0, 25);
    if res0 != 0 {
        Err(DecodeError::InvalidRes0 { res0 })
    } else {
        match class_text(ec) {
            None => Err(DecodeError::InvalidEc { ec }),
            Some(class) => match syndrome_model(class_syndrome(ec), iss) {
                Err(error) => Err(error),
                Ok(iss_decoded) => Ok(
                    DecodedModel {
                        description: Some(class),
                        fields: esr_fields(esr, class, iss_decoded),
                    },
                ),
            },
        }
    }
}

/// Describes the IL bit.
pub fn describe_il(il: bool) -> (text: &'static str)
    ensures
        text@ == il_text(il),
{
    if il {
        "32-bit instruction trapped"
    } else {
        "16-bit instruction trapped"
    }
}

/// Looks up the exception class with code `ec`: its description and the
/// layout of its ISS field, or the error for an undefined class.
pub fn exception_class(ec: u64) -> (result: Result<(&'static str, Syndrome), DecodeError>)
    ensures
        match result {
            Ok((text, syndrome)) => class_text(ec) == Some(text@) && syndrome == class_syndrome(
                ec,
            ),
            Err(error) => class_text(ec) is None && error == (DecodeError::InvalidEc { ec }),
        },
{
    match ec {
        0b000000 => Ok(("Unknown reason", Syndrome::Res0)),
        0b000001 => Ok(("Wrapped WF* instruction execution", Syndrome::Wf)),
        0b000011 => Ok(("Trapped MCR or MRC access with coproc=0b1111", Syndrome::Mcr)),
        0b000100 => Ok(("Trapped MCRR or MRRC access with coproc=0b1111", Syndrome::Mcrr)),
        0b000101 => Ok(("Trapped MCR or MRC access with coproc=0b1110", Syndrome::Mcr)),
        0b000110 => Ok(("Trapped LDC or STC access", Syndrome::Ldc)),
        0b000111 => Ok(("Trapped access to SVE, Advanced SIMD or floating point", Syndrome::Undecoded)),
        0b001010 => Ok(("Trapped execution of an LD64B, ST64B, ST64BV, or ST64BV0 instruction", Syndrome::Undecoded)),
        0b001100 => Ok(("Trapped MRRC access with (coproc==0b1110)", Syndrome::Undecoded)),
        0b001101 => Ok(("Branch Target Exception", Syndrome::Undecoded)),
        0b001110 => Ok(("Illegal Execution state", Syndrome::Res0)),
        0b010001 => Ok(("SVC instruction execution in AArch32 state", Syndrome::Undecoded)),
        0b010101 => Ok(("SVC instruction execution in AArch64 state", Syndrome::Undecoded)),
        0b011000 => Ok(("Trapped MSR, MRS or System instruction execution in AArch64 state", Syndrome::Undecoded)),
        0b011001 => Ok(("Access to SVE functionality trapped as a result of CPACR_EL1.ZEN, CPTR_EL2.ZEN, CPTR_EL2.TZ, or CPTR_EL3.EZ", Syndrome::Res0)),
        0b011100 => Ok(("Exception from a Pointer Authentication instruction authentication failure", Syndrome::Undecoded)),
        0b100000 => Ok(("Instruction Abort from a lower Exception level", Syndrome::InstructionAbort)),
        0b100001 => Ok(("Instruction Abort taken without a change in Exception level", Syndrome::InstructionAbort)),
        0b100010 => Ok(("PC alignment fault exception", Syndrome::Res0)),
        0b100100 => Ok(("Data Abort from a lower Exception level", Syndrome::DataAbort)),
        0b100101 => Ok(("Data Abort taken without a change in Exception level", Syndrome::DataAbort)),
        0b100110 => Ok(("SP alignment fault exception", Syndrome::Res0)),
        0b101000 => Ok(("Trapped floating-point exception taken from AArch32 state", Syndrome::Undecoded)),
        0b101100 => Ok(("Trapped floating-point exception taken from AArch64 state", Syndrome::Undecoded)),
        0b101111 => Ok(("SError interrupt", Syndrome::Undecoded)),
        0b110000 => Ok(("Breakpoint exception from a lower Exception level", Syndrome::Undecoded)),
        0b110001 => Ok(("Breakpoint exception taken without a change in Exception level", Syndrome::Undecoded)),
        0b110010 => Ok(("Software Step exception from a lower Exception level", Syndrome::Undecoded)),
        0b110011 => Ok(("Software Step exception taken without a change in Exception level", Syndrome::Undecoded)),
        0b110100 => Ok(("Watchpoint exception from a lower Exception level", Syndrome::Undecoded)),
        0b110101 => Ok(("Watchpoint exception taken without a change in Exception level", Syndrome::Undecoded)),
        0b111000 => Ok(("BKPT instruction execution in AArch32 state", Syndrome::Undecoded)),
        0b111100 => Ok(("BRK instruction execution in AArch64 state", Syndrome::Undecoded)),
        _ => Err(DecodeError::InvalidEc { ec }),
    }
}

/// Decodes an ISS field that is reserved as a whole.
pub fn decode_iss_res0(iss: u64) -> (result: Result<Decoded, DecodeError>)
    ensures
        outcome(result) == iss_res0_model(iss),
{
    if iss == 0 {
        let decoded = Decoded { description: Some("ISS is RES0".to_string()), fields: Vec::new() };
        assert(decoded@.fields =~= Seq::empty());
        Ok(decoded)
    } else {
        Err(DecodeError::InvalidRes0 { res0: iss })
    }
}

/// Decodes the ISS value `iss` under the given layout.
pub fn decode_iss(syndrome: Syndrome, iss: u64) -> (result: Result<Option<Decoded>, DecodeError>)
    ensures
        match result {
            Ok(Some(decoded)) => syndrome_model(syndrome, iss) == Ok::<_, DecodeError>(
                Some(decoded@),
            ),
            Ok(None) => syndrome_model(syndrome, iss) == Ok::<Option<DecodedModel>, DecodeError>(
                None,
            ),
            Err(error) => syndrome_model(syndrome, iss) == Err::<Option<DecodedModel>, _>(error),
        },
{
    let decoded = match syndrome {
        Syndrome::Undecoded => {
            return Ok(None);
        },
        Syndrome::Res0 => decode_iss_res0(iss),
        Syndrome::Wf => decode_iss_wf(iss),
        Syndrome::Mcr => decode_iss_mcr(iss),
        Syndrome::Mcrr => decode_iss_mcrr(iss),
        Syndrome::Ldc => decode_iss_ldc(iss),
        Syndrome::InstructionAbort => decode_iss_instruction_abort(iss),
        Syndrome::DataAbort => decode_iss_data_abort(iss),
    };
    match decoded {
        Ok(tree) => Ok(Some(tree)),
        Err(error) => Err(error),
    }
}

/// Decodes the given Exception Syndrome Register value, or returns an error
/// if it is not valid.
pub fn decode(esr: u64) -> (result: Result<Decoded, DecodeError>)
    ensures
        outcome(result) == esr_model(esr),
{
    let res0 = FieldInfo::get(esr, "RES0", 37, 64).check_res0()?;
    let iss2 = FieldInfo::get(esr, "ISS2", 32, 37);
    let ec = FieldInfo::get(esr, "EC", 26, 32);
    let il = FieldInfo::get_bit(esr, "IL", 25).describe_bit(describe_il);
    let iss = FieldInfo::get(esr, "ISS", 0, 25);
    let (class, syndrome) = exception_class(ec.value)?;
    let iss_decoded = decode_iss(syndrome, iss.value)?;
    let ghost iss_tree = syndrome_model(syndrome, iss.value)->Ok_0;
    let iss = FieldInfo { decoded: iss_decoded, ..iss };
    let ec = ec.with_description(class.to_string());
    let decoded = Decoded {
        description: Some(class.to_string()),
        fields: vec![res0, iss2, ec, il, iss],
    };
    assert(decoded@.fields =~= esr_fields(esr, class@, iss_tree));
    Ok(decoded)
}

} // verus!
