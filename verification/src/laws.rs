//! What holds of every register value.

use crate::abort::{
    data_abort_common_fields, data_abort_fields, data_abort_syndrome_fields,
    instruction_abort_fields,
};
use crate::bits::{bit_range, lemma_bit_range_bound};
use crate::common::outcome;
use crate::esr::{
    class_syndrome, class_text, decode, esr_fields, esr_model, syndrome_model, Syndrome,
};
use crate::field::{DecodeError, Decoded, FieldModel};
use crate::ldc::ldc_fields;
use crate::mcr::{mcr_fields, mcrr_fields};
use crate::number::{digit_value, digits_value, number_value};
use crate::text::{digit_char, digit_count, digits, value_text};
use crate::wf::wf_fields;
use vstd::prelude::*;

verus! {

/// Decoding is a function of the register value: whatever two calls of
/// `decode` on the same value return has the same content.
pub proof fn law_decode_deterministic(
    esr: u64,
    first: Result<Decoded, DecodeError>,
    second: Result<Decoded, DecodeError>,
)
    requires
        call_ensures(decode, (esr,), first),
        call_ensures(decode, (esr,), second),
    ensures
        outcome(first) == outcome(second),
{
}

/// A register value whose bits 37 to 63 are not all 0 is refused with the
/// reserved-field error that carries those bits, whatever the other bits are.
pub proof fn law_reserved_bits_refused(esr: u64, result: Result<Decoded, DecodeError>)
    requires
        call_ensures(decode, (esr,), result),
        bit_range(esr, 37, 64) != 0,
    ensures
        result == Err::<Decoded, _>(DecodeError::InvalidRes0 { res0: bit_range(esr, 37, 64) }),
{
}

/// A register value whose reserved bits are 0 and whose bits 26 to 31 are
/// not the code of a defined exception class is refused with the
/// exception-class error that carries those bits. (With reserved bits that
/// are not 0 it is refused for those.)
pub proof fn law_undefined_class_refused(esr: u64, result: Result<Decoded, DecodeError>)
    requires
        call_ensures(decode, (esr,), result),
        bit_range(esr, 37, 64) == 0,
        class_text(bit_range(esr, 26, 32)) is None,
    ensures
        result == Err::<Decoded, _>(DecodeError::InvalidEc { ec: bit_range(esr, 26, 32) }),
{
}

/// A field cut out of a parent fits into that parent, described or not.
proof fn lemma_extract_fits(parent: u64, name: Seq<char>, start: nat, end: nat, width: nat)
    requires
        start < end <= width,
    ensures
        FieldModel::extract(parent, name, start, end).fits(parent, width),
        forall|text: Seq<char>|
            (#[trigger] FieldModel::extract(parent, name, start, end).with_description(text)).fits(
                parent,
                width,
            ),
{
    lemma_bit_range_bound(parent, start, end);
    let field = FieldModel::extract(parent, name, start, end);
    assert forall|text: Seq<char>|
        (#[trigger] field.with_description(text)).fits(parent, width) by {
        assert(field.with_description(text).decoded->0.fields.len() == 0);
    }
}

/// Every field of the list fits into a parent of `width` bits that holds
/// `parent`.
pub open spec fn all_fit(fields: Seq<FieldModel>, parent: u64, width: nat) -> bool {
    forall|i: int| 0 <= i < fields.len() ==> (#[trigger] fields[i]).fits(parent, width)
}

proof fn lemma_instruction_abort_fits(iss: u64)
    ensures
        all_fit(instruction_abort_fields(iss), iss, 25),
{
    lemma_extract_fits(iss, "RES0"@, 13, 25, 25);
    lemma_extract_fits(iss, "SET"@, 11, 13, 25);
    lemma_extract_fits(iss, "FnV"@, 10, 11, 25);
    lemma_extract_fits(iss, "EA"@, 9, 10, 25);
    lemma_extract_fits(iss, "RES0"@, 8, 9, 25);
    lemma_extract_fits(iss, "S1PTW"@, 7, 8, 25);
    lemma_extract_fits(iss, "RES0"@, 6, 7, 25);
    lemma_extract_fits(iss, "IFSC"@, 0, 6, 25);
}

proof fn lemma_data_abort_fits(iss: u64)
    ensures
        all_fit(data_abort_fields(iss), iss, 25),
{
    lemma_extract_fits(iss, "ISV"@, 24, 25, 25);
    lemma_extract_fits(iss, "SAS"@, 22, 24, 25);
    lemma_extract_fits(iss, "SSE"@, 21, 22, 25);
    lemma_extract_fits(iss, "SRT"@, 16, 21, 25);
    lemma_extract_fits(iss, "SF"@, 15, 16, 25);
    lemma_extract_fits(iss, "AR"@, 14, 15, 25);
    lemma_extract_fits(iss, "RES0"@, 14, 24, 25);
    lemma_extract_fits(iss, "VNCR"@, 13, 14, 25);
    lemma_extract_fits(iss, "SET"@, 11, 13, 25);
    lemma_extract_fits(iss, "FnV"@, 10, 11, 25);
    lemma_extract_fits(iss, "EA"@, 9, 10, 25);
    lemma_extract_fits(iss, "CM"@, 8, 9, 25);
    lemma_extract_fits(iss, "S1PTW"@, 7, 8, 25);
    lemma_extract_fits(iss, "WnR"@, 6, 7, 25);
    lemma_extract_fits(iss, "DFSC"@, 0, 6, 25);
    assert(all_fit(data_abort_syndrome_fields(iss), iss, 25));
    assert(all_fit(data_abort_common_fields(iss), iss, 25));
}

proof fn lemma_ldc_fits(iss: u64)
    ensures
        all_fit(ldc_fields(iss), iss, 25),
{
    lemma_extract_fits(iss, "CV"@, 24, 25, 25);
    lemma_extract_fits(iss, "COND"@, 20, 24, 25);
    lemma_extract_fits(iss, "imm8"@, 12, 20, 25);
    lemma_extract_fits(iss, "RES0"@, 10, 12, 25);
    lemma_extract_fits(iss, "Rn"@, 5, 10, 25);
    lemma_extract_fits(iss, "Offset"@, 4, 5, 25);
    lemma_extract_fits(iss, "AM"@, 1, 4, 25);
    lemma_extract_fits(iss, "Direction"@, 0, 1, 25);
}

proof fn lemma_mcr_fits(iss: u64)
    ensures
        all_fit(mcr_fields(iss), iss, 25),
        all_fit(mcrr_fields(iss), iss, 25),
{
    lemma_extract_fits(iss, "CV"@, 24, 25, 25);
    lemma_extract_fits(iss, "COND"@, 20, 24, 25);
    lemma_extract_fits(iss, "Opc2"@, 17, 20, 25);
    lemma_extract_fits(iss, "Opc1"@, 14, 17, 25);
    lemma_extract_fits(iss, "CRn"@, 10, 14, 25);
    lemma_extract_fits(iss, "Opc1"@, 16, 20, 25);
    lemma_extract_fits(iss, "RES0"@, 15, 16, 25);
    lemma_extract_fits(iss, "Rt2"@, 10, 15, 25);
    lemma_extract_fits(iss, "Rt"@, 5, 10, 25);
    lemma_extract_fits(iss, "CRm"@, 1, 5, 25);
    lemma_extract_fits(iss, "Direction"@, 0, 1, 25);
}

proof fn lemma_wf_fits(iss: u64)
    ensures
        all_fit(wf_fields(iss), iss, 25),
{
    lemma_extract_fits(iss, "CV"@, 24, 25, 25);
    lemma_extract_fits(iss, "COND"@, 20, 24, 25);
    lemma_extract_fits(iss, "RES0"@, 10, 20, 25);
    lemma_extract_fits(iss, "RN"@, 5, 10, 25);
    lemma_extract_fits(iss, "RES0"@, 3, 5, 25);
    lemma_extract_fits(iss, "RV"@, 2, 3, 25);
    lemma_extract_fits(iss, "TI"@, 0, 2, 25);
}

/// Whatever a layout makes of an ISS value lies within its 25 bits.
proof fn lemma_syndrome_fits(syndrome: Syndrome, iss: u64)
    ensures
        match syndrome_model(syndrome, iss) {
            Ok(Some(decoded)) => all_fit(decoded.fields, iss, 25),
            _ => true,
        },
{
    lemma_instruction_abort_fits(iss);
    lemma_data_abort_fits(iss);
    lemma_ldc_fits(iss);
    lemma_mcr_fits(iss);
    lemma_wf_fits(iss);
}

/// In every tree that `decode` gives, each of the five fields is a range of
/// the register value, each sub-field of ISS is a range of the ISS value,
/// and each field's value lies below 2 to the power of its width.
pub proof fn law_fields_within_width(esr: u64, decoded: Decoded)
    requires
        call_ensures(decode, (esr,), Ok(decoded)),
    ensures
        all_fit(decoded@.fields, esr, 64),
{
    lemma_model_fields_within_width(esr);
}

/// The same of the model of decoding.
proof fn lemma_model_fields_within_width(esr: u64)
    ensures
        match esr_model(esr) {
            Ok(decoded) => all_fit(decoded.fields, esr, 64),
            Err(_) => true,
        },
{
    if let Ok(decoded) = esr_model(esr) {
        let ec = bit_range(esr, 26, 32);
        let iss = bit_range(esr, 0, 25);
        let class = class_text(ec)->0;
        let iss_decoded = syndrome_model(class_syndrome(ec), iss)->Ok_0;
        lemma_extract_fits(esr, "RES0"@, 37, 64, 64);
        lemma_extract_fits(esr, "ISS2"@, 32, 37, 64);
        lemma_extract_fits(esr, "EC"@, 26, 32, 64);
        lemma_extract_fits(esr, "IL"@, 25, 26, 64);
        lemma_extract_fits(esr, "ISS"@, 0, 25, 64);
        lemma_syndrome_fits(class_syndrome(ec), iss);
        assert(decoded.fields == esr_fields(esr, class, iss_decoded));
    }
}

/// The fields of the list lie side by side from bit `width` down to bit 0:
/// the first ends at `width`, each next one ends where the one before it
/// starts, and the last starts at 0.
pub open spec fn tiles(fields: Seq<FieldModel>, width: nat) -> bool {
    &&& fields.len() > 0
    &&& fields[0].start + fields[0].width == width
    &&& forall|i: int|
        0 < i < fields.len() ==> (#[trigger] fields[i]).start + fields[i].width == fields[i
            - 1].start
    &&& fields[fields.len() - 1].start == 0
}

/// Whatever fields a layout makes of an ISS value cover its 25 bits, each
/// bit once.
proof fn lemma_syndrome_tiles(syndrome: Syndrome, iss: u64)
    ensures
        match syndrome_model(syndrome, iss) {
            Ok(Some(decoded)) => decoded.fields.len() == 0 || tiles(decoded.fields, 25),
            _ => true,
        },
{
    match syndrome_model(syndrome, iss) {
        Ok(Some(decoded)) => {
            if syndrome == Syndrome::DataAbort {
                assert(decoded.fields == data_abort_fields(iss));
                let middle = data_abort_syndrome_fields(iss);
                let low = data_abort_common_fields(iss);
                assert(low.len() == 8);
                if bit_range(iss, 24, 25) == 1 {
                    assert(middle.len() == 5);
                } else {
                    assert(middle.len() == 1);
                }
                assert(tiles(decoded.fields, 25));
            }
        },
        _ => {},
    }
}

/// In every tree that `decode` gives, the five fields cover the 64 bits of
/// the register, each bit once, and the sub-fields of ISS, where it has
/// any, cover its 25 bits in the same way.
pub proof fn law_fields_cover_the_register(esr: u64, decoded: Decoded)
    requires
        call_ensures(decode, (esr,), Ok(decoded)),
    ensures
        decoded@.fields.len() == 5,
        tiles(decoded@.fields, 64),
        match decoded@.fields[4].decoded {
            Some(iss) => iss.fields.len() == 0 || tiles(iss.fields, 25),
            None => true,
        },
{
    let ec = bit_range(esr, 26, 32);
    let iss = bit_range(esr, 0, 25);
    lemma_syndrome_tiles(class_syndrome(ec), iss);
}

/// Every digit that is written can be read: the character of a digit below
/// a base up to 16 stands for that digit in that base, and is no sign.
proof fn lemma_digit_reads_back(digit: nat, base: nat)
    requires
        digit < base <= 16,
    ensures
        digit_value(digit_char(digit), base) == Some(digit),
        digit_char(digit) != '+',
{
}

/// A run of digits is as long as the count asked for.
proof fn lemma_digits_len(value: nat, base: nat, count: nat)
    requires
        base >= 2,
    ensures
        digits(value, base, count).len() == count,
    decreases count,
{
    if count > 0 {
        lemma_digits_len(value / base, base, (count - 1) as nat);
    }
}

/// Written with at least as many digits as it takes, a number reads back
/// as itself.
proof fn lemma_digits_read_back(value: nat, base: nat, count: nat)
    requires
        2 <= base <= 16,
        count >= digit_count(value, base),
    ensures
        digits_value(digits(value, base, count), base) == Some(value),
    decreases count,
{
    let front = digits(value / base, base, (count - 1) as nat);
    let last = digit_char(value % base);
    assert(value % base < base && value == (value / base) * base + value % base) by {
        vstd::arithmetic::div_mod::lemma_fundamental_div_mod(value as int, base as int);
        vstd::arithmetic::div_mod::lemma_mod_bound(value as int, base as int);
        assert((value / base) * base == base * (value / base)) by (nonlinear_arith);
    }
    lemma_digit_reads_back(value % base, base);
    lemma_digits_len(value / base, base, (count - 1) as nat);
    assert(front.push(last).drop_last() =~= front);
    if count == 1 {
        assert(value / base == 0) by (nonlinear_arith)
            requires
                value < base,
        ;
    } else {
        if value < base {
            assert(value / base == 0) by (nonlinear_arith)
                requires
                    value < base,
            ;
        }
        lemma_digits_read_back(value / base, base, (count - 1) as nat);
    }
}

/// What `value_string` writes for a single bit is the word for that bit, and
/// what it writes for a field of any other width is a number that
/// `parse_number` reads back as the field's value.
pub proof fn law_value_text_reads_back(value: u64, width: nat)
    ensures
        width == 1 ==> value_text(value, width) == if value == 1 {
            "true"@
        } else {
            "false"@
        },
        width != 1 ==> number_value(value_text(value, width)) == Some(value),
{
    if width != 1 {
        reveal_strlit("0x");
        let least = (width + 3) / 4;
        let taken = digit_count(value as nat, 16);
        let count = if least > taken {
            least
        } else {
            taken
        };
        let run = digits(value as nat, 16, count);
        let text = value_text(value, width);
        lemma_digits_len(value as nat, 16, count);
        lemma_digits_read_back(value as nat, 16, count);
        assert(text == "0x"@ + run);
        assert(text.subrange(2, text.len() as int) =~= run);
        lemma_first_digit_no_sign(value as nat, 16, count);
    }
}

/// No run of digits begins with a sign.
proof fn lemma_first_digit_no_sign(value: nat, base: nat, count: nat)
    requires
        2 <= base <= 16,
        count >= 1,
    ensures
        digits(value, base, count)[0] != '+',
    decreases count,
{
    let front = digits(value / base, base, (count - 1) as nat);
    lemma_digits_len(value / base, base, (count - 1) as nat);
    assert(value % base < base) by {
        vstd::arithmetic::div_mod::lemma_mod_bound(value as int, base as int);
    }
    lemma_digit_reads_back(value % base, base);
    if count > 1 {
        lemma_first_digit_no_sign(value / base, base, (count - 1) as nat);
    }
}

} // verus!
