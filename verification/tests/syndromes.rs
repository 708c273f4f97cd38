use aarch64_esr_decoder::abort::{decode_iss_data_abort, decode_iss_instruction_abort};
use aarch64_esr_decoder::esr::{decode_iss, decode_iss_res0, exception_class, Syndrome};
use aarch64_esr_decoder::ldc::decode_iss_ldc;
use aarch64_esr_decoder::mcr::{decode_iss_mcr, decode_iss_mcrr};
use aarch64_esr_decoder::wf::decode_iss_wf;
use aarch64_esr_decoder::{decode, DecodeError, Decoded, FieldInfo};

fn plain(name: &'static str, start: usize, width: usize, value: u64) -> FieldInfo {
    FieldInfo { name, start, width, value, decoded: None }
}

fn described(
    name: &'static str,
    start: usize,
    width: usize,
    value: u64,
    description: &str,
) -> FieldInfo {
    FieldInfo {
        name,
        start,
        width,
        value,
        decoded: Some(Decoded { description: Some(description.to_string()), fields: vec![] }),
    }
}

fn tree(fields: Vec<FieldInfo>) -> Decoded {
    Decoded { description: None, fields }
}

fn esr_with(ec: u64, iss: u64) -> u64 {
    (ec << 26) | (1 << 25) | iss
}

#[test]
fn wf_fields_in_order() {
    let iss: u64 = (1 << 24) | (0xe << 20) | (5 << 5) | (1 << 2) | 2;
    assert_eq!(
        decode_iss_wf(iss),
        Ok(tree(vec![
            described("CV", 24, 1, 1, "COND is valid"),
            plain("COND", 20, 4, 0xe),
            plain("RES0", 10, 10, 0),
            plain("RN", 5, 5, 5),
            plain("RES0", 3, 2, 0),
            described("RV", 2, 1, 1, "RN is valid"),
            described("TI", 0, 2, 2, "WFIT trapped"),
        ]))
    );
}

#[test]
fn wf_names_each_instruction() {
    let expected = ["WFI trapped", "WFE trapped", "WFIT trapped", "WFET trapped"];
    let mut ti: u64 = 0;
    while ti < 4 {
        let decoded = decode_iss_wf(ti).unwrap();
        assert_eq!(decoded.fields[6], described("TI", 0, 2, ti, expected[ti as usize]));
        assert_eq!(decoded.fields[5], described("RV", 2, 1, 0, "RN is not valid"));
        assert_eq!(decoded.fields[0], described("CV", 24, 1, 0, "COND is not valid"));
        ti += 1;
    }
}

#[test]
fn wf_rejects_reserved_bits() {
    assert_eq!(decode_iss_wf(1 << 10), Err(DecodeError::InvalidRes0 { res0: 1 }));
    assert_eq!(decode_iss_wf(1 << 19), Err(DecodeError::InvalidRes0 { res0: 0x200 }));
    assert_eq!(decode_iss_wf(1 << 3), Err(DecodeError::InvalidRes0 { res0: 1 }));
    assert_eq!(decode_iss_wf(3 << 3), Err(DecodeError::InvalidRes0 { res0: 3 }));
    // The higher reserved field is judged first.
    assert_eq!(decode_iss_wf((2 << 10) | (1 << 4)), Err(DecodeError::InvalidRes0 { res0: 2 }));
}

#[test]
fn wf_through_decode() {
    let decoded = decode(esr_with(0b000001, 1)).unwrap();
    assert_eq!(decoded.description, Some("Wrapped WF* instruction execution".to_string()));
    assert_eq!(decoded.fields[4].decoded, Some(decode_iss_wf(1).unwrap()));
    assert_eq!(
        decode(esr_with(0b000001, 1 << 12)).unwrap_err(),
        DecodeError::InvalidRes0 { res0: 4 }
    );
}

#[test]
fn mcr_fields_in_order() {
    let iss: u64 = (0x3 << 20) | (0b101 << 17) | (0b010 << 14) | (0xc << 10) | (17 << 5) | (0x9 << 1)
        | 1;
    assert_eq!(
        decode_iss_mcr(iss),
        Ok(tree(vec![
            described("CV", 24, 1, 0, "COND is not valid"),
            plain("COND", 20, 4, 3),
            plain("Opc2", 17, 3, 0b101),
            plain("Opc1", 14, 3, 0b010),
            plain("CRn", 10, 4, 0xc),
            plain("Rt", 5, 5, 17),
            plain("CRm", 1, 4, 9),
            described("Direction", 0, 1, 1, "Read from system register (MRC or VMRS)"),
        ]))
    );
}

#[test]
fn mcr_accepts_every_bit() {
    let decoded = decode_iss_mcr(0x1ff_ffff).unwrap();
    assert_eq!(decoded.fields.len(), 8);
    assert_eq!(decoded.fields[1], plain("COND", 20, 4, 0xf));
    assert_eq!(decoded.fields[5], plain("Rt", 5, 5, 31));
    let zero = decode_iss_mcr(0).unwrap();
    assert_eq!(zero.fields[7], described("Direction", 0, 1, 0, "Write to system register (MCR)"));
}

#[test]
fn mcr_through_decode() {
    let first = decode(esr_with(0b000011, 0x1ff_ffff)).unwrap();
    assert_eq!(
        first.description,
        Some("Trapped MCR or MRC access with coproc=0b1111".to_string())
    );
    assert_eq!(first.fields[4].decoded, Some(decode_iss_mcr(0x1ff_ffff).unwrap()));
    let second = decode(esr_with(0b000101, 0x1ff_ffff)).unwrap();
    assert_eq!(
        second.description,
        Some("Trapped MCR or MRC access with coproc=0b1110".to_string())
    );
    assert_eq!(second.fields[4].decoded, first.fields[4].decoded);
}

#[test]
fn mcrr_fields_in_order() {
    let iss: u64 = (1 << 24) | (0x7 << 20) | (0xa << 16) | (30 << 10) | (2 << 5) | (0x5 << 1);
    assert_eq!(
        decode_iss_mcrr(iss),
        Ok(tree(vec![
            described("CV", 24, 1, 1, "COND is valid"),
            plain("COND", 20, 4, 7),
            plain("Opc1", 16, 4, 0xa),
            plain("RES0", 15, 1, 0),
            plain("Rt2", 10, 5, 30),
            plain("Rt", 5, 5, 2),
            plain("CRm", 1, 4, 5),
            described("Direction", 0, 1, 0, "Write to system register (MCRR)"),
        ]))
    );
    let read = decode_iss_mcrr(1).unwrap();
    assert_eq!(read.fields[7], described("Direction", 0, 1, 1, "Read from system register (MRRC)"));
}

#[test]
fn mcrr_rejects_reserved_bit() {
    assert_eq!(decode_iss_mcrr(1 << 15), Err(DecodeError::InvalidRes0 { res0: 1 }));
    assert_eq!(
        decode(esr_with(0b000100, 1 << 15)).unwrap_err(),
        DecodeError::InvalidRes0 { res0: 1 }
    );
    assert!(decode(esr_with(0b000100, 0x1ff_7fff)).is_ok());
}

#[test]
fn ldc_fields_in_order() {
    let iss: u64 = (1 << 24) | (0xe << 20) | (0xab << 12) | (13 << 5) | (1 << 4) | (0b011 << 1) | 1;
    assert_eq!(
        decode_iss_ldc(iss),
        Ok(tree(vec![
            described("CV", 24, 1, 1, "COND is valid"),
            plain("COND", 20, 4, 0xe),
            plain("imm8", 12, 8, 0xab),
            plain("RES0", 10, 2, 0),
            plain("Rn", 5, 5, 13),
            described("Offset", 4, 1, 1, "Add offset"),
            described("AM", 1, 3, 3, "Immediate pre-indexed"),
            described("Direction", 0, 1, 1, "Read from memory (LDC)"),
        ]))
    );
    let zero = decode_iss_ldc(0).unwrap();
    assert_eq!(zero.fields[5], described("Offset", 4, 1, 0, "Subtract offset"));
    assert_eq!(zero.fields[6], described("AM", 1, 3, 0, "Immediate unindexed"));
    assert_eq!(zero.fields[7], described("Direction", 0, 1, 0, "Write to memory (STC)"));
}

#[test]
fn ldc_addressing_modes() {
    let expected = [
        Some("Immediate unindexed"),
        Some("Immediate post-indexed"),
        Some("Immediate offset"),
        Some("Immediate pre-indexed"),
        Some("Reserved for trapped STR or T32 LDC"),
        None,
        Some("Reserved for trapped STC"),
        None,
    ];
    let mut am: u64 = 0;
    while am < 8 {
        match expected[am as usize] {
            Some(text) => {
                let decoded = decode_iss_ldc(am << 1).unwrap();
                assert_eq!(decoded.fields[6], described("AM", 1, 3, am, text));
            }
            None => assert_eq!(decode_iss_ldc(am << 1), Err(DecodeError::InvalidAm { am })),
        }
        am += 1;
    }
}

#[test]
fn ldc_rejects_reserved_bits_first() {
    assert_eq!(decode_iss_ldc(1 << 10), Err(DecodeError::InvalidRes0 { res0: 1 }));
    assert_eq!(decode_iss_ldc(3 << 10), Err(DecodeError::InvalidRes0 { res0: 3 }));
    assert_eq!(decode_iss_ldc((2 << 10) | (5 << 1)), Err(DecodeError::InvalidRes0 { res0: 2 }));
    assert_eq!(
        decode(esr_with(0b000110, 7 << 1)).unwrap_err(),
        DecodeError::InvalidAm { am: 7 }
    );
}

#[test]
fn instruction_abort_rejects_each_reserved_field() {
    assert_eq!(
        decode_iss_instruction_abort(1 << 24),
        Err(DecodeError::InvalidRes0 { res0: 0x800 })
    );
    assert_eq!(decode_iss_instruction_abort(1 << 13), Err(DecodeError::InvalidRes0 { res0: 1 }));
    assert_eq!(decode_iss_instruction_abort(1 << 8), Err(DecodeError::InvalidRes0 { res0: 1 }));
    assert_eq!(decode_iss_instruction_abort(1 << 6), Err(DecodeError::InvalidRes0 { res0: 1 }));
}

#[test]
fn instruction_abort_judges_fields_from_the_top() {
    // SET = 1 is undefined, bit 8 is reserved, IFSC = 18 is undefined.
    let iss: u64 = (1 << 11) | (1 << 8) | 18;
    assert_eq!(decode_iss_instruction_abort(iss), Err(DecodeError::InvalidSet { set: 1 }));
    assert_eq!(
        decode_iss_instruction_abort((1 << 8) | 18),
        Err(DecodeError::InvalidRes0 { res0: 1 })
    );
    assert_eq!(decode_iss_instruction_abort(18), Err(DecodeError::InvalidFsc { fsc: 18 }));
    assert_eq!(
        decode_iss_instruction_abort((1 << 14) | iss),
        Err(DecodeError::InvalidRes0 { res0: 2 })
    );
}

#[test]
fn data_abort_rejects_syndrome_bits_without_isv() {
    assert_eq!(decode_iss_data_abort(1 << 14), Err(DecodeError::InvalidRes0 { res0: 1 }));
    assert_eq!(decode_iss_data_abort(1 << 23), Err(DecodeError::InvalidRes0 { res0: 0x200 }));
    assert!(decode_iss_data_abort((1 << 24) | (1 << 14)).is_ok());
    assert!(decode_iss_data_abort((1 << 24) | (0x3ff << 14)).is_ok());
}

#[test]
fn data_abort_access_sizes() {
    let expected = ["byte", "halfword", "word", "doubleword"];
    let mut sas: u64 = 0;
    while sas < 4 {
        let decoded = decode_iss_data_abort((1 << 24) | (sas << 22)).unwrap();
        assert_eq!(decoded.fields.len(), 14);
        assert_eq!(decoded.fields[1], described("SAS", 22, 2, sas, expected[sas as usize]));
        sas += 1;
    }
}

#[test]
fn data_abort_flags_when_set() {
    let iss: u64 = (1 << 24) | (1 << 21) | (1 << 15) | (1 << 14) | (1 << 10) | (1 << 9) | (1 << 8)
        | (1 << 7);
    let decoded = decode_iss_data_abort(iss).unwrap();
    assert_eq!(decoded.fields[2], plain("SSE", 21, 1, 1));
    assert_eq!(decoded.fields[4], described("SF", 15, 1, 1, "64-bit wide register"));
    assert_eq!(decoded.fields[5], described("AR", 14, 1, 1, "Acquire/release semantics"));
    assert_eq!(
        decoded.fields[8],
        described("FnV", 10, 1, 1, "FAR is not valid, it holds an unknown value")
    );
    assert_eq!(decoded.fields[9], plain("EA", 9, 1, 1));
    assert_eq!(decoded.fields[10], plain("CM", 8, 1, 1));
    assert_eq!(decoded.fields[11], plain("S1PTW", 7, 1, 1));
    assert_eq!(
        decoded.fields[12],
        described("WnR", 6, 1, 0, "Abort caused by reading from memory")
    );
}

#[test]
fn data_abort_synchronous_error_types() {
    assert_eq!(decode_iss_data_abort(1 << 11), Err(DecodeError::InvalidSet { set: 1 }));
    let expected = [(0u64, "Recoverable state (UER)"), (2, "Uncontainable (UC)"), (
        3,
        "Restartable state (UEO)",
    )];
    for (set, text) in expected {
        let decoded = decode_iss_data_abort(set << 11).unwrap();
        assert_eq!(decoded.fields[3], described("SET", 11, 2, set, text));
    }
}

#[test]
fn fault_status_codes() {
    let undefined: [u64; 26] = [
        18, 25, 26, 32, 34, 35, 36, 37, 38, 39, 40, 42, 44, 45, 46, 47, 50, 51, 54, 55, 56, 57, 58,
        59, 60, 61,
    ];
    let mut fsc: u64 = 0;
    while fsc < 64 {
        let data = decode_iss_data_abort(fsc);
        let instruction = decode_iss_instruction_abort(fsc);
        if undefined.contains(&fsc) || fsc == 62 || fsc == 63 {
            assert_eq!(data, Err(DecodeError::InvalidFsc { fsc }));
            assert_eq!(instruction, Err(DecodeError::InvalidFsc { fsc }));
        } else {
            let data = data.unwrap();
            let instruction = instruction.unwrap();
            let dfsc = &data.fields[data.fields.len() - 1];
            let ifsc = &instruction.fields[instruction.fields.len() - 1];
            assert_eq!((dfsc.name, dfsc.value, dfsc.width), ("DFSC", fsc, 6));
            assert_eq!((ifsc.name, ifsc.value, ifsc.width), ("IFSC", fsc, 6));
            assert_eq!(dfsc.decoded, ifsc.decoded);
            assert!(dfsc.decoded.as_ref().unwrap().description.is_some());
        }
        fsc += 1;
    }
}

#[test]
fn fault_status_descriptions() {
    let cases = [
        (
            0u64,
            "Address size fault, level 0 of translation or translation table base register.",
        ),
        (7, "Translation fault, level 3."),
        (9, "Access flag fault, level 1."),
        (15, "Permission fault, level 3."),
        (17, "Synchronous Tag Check Fault."),
        (33, "Alignment fault."),
        (43, "Translation fault, level -1."),
        (48, "TLB conflict abort."),
        (53, "IMPLEMENTATION DEFINED fault (Unsupported Exclusive or Atomic access)."),
    ];
    for (fsc, text) in cases {
        let decoded = decode_iss_instruction_abort(fsc).unwrap();
        assert_eq!(decoded.fields[7], described("IFSC", 0, 6, fsc, text));
    }
}

#[test]
fn reserved_syndrome() {
    assert_eq!(
        decode_iss_res0(0),
        Ok(Decoded { description: Some("ISS is RES0".to_string()), fields: vec![] })
    );
    assert_eq!(decode_iss_res0(1), Err(DecodeError::InvalidRes0 { res0: 1 }));
    assert_eq!(decode_iss_res0(0x1ff_ffff), Err(DecodeError::InvalidRes0 { res0: 0x1ff_ffff }));
}

#[test]
fn reserved_syndrome_classes() {
    for ec in [0b000000u64, 0b001110, 0b011001, 0b100010, 0b100110] {
        assert_eq!(exception_class(ec).unwrap().1, Syndrome::Res0);
        let decoded = decode(ec << 26).unwrap();
        assert_eq!(decoded.fields[4].decoded, Some(decode_iss_res0(0).unwrap()));
        assert_eq!(
            decode((ec << 26) | 0x40).unwrap_err(),
            DecodeError::InvalidRes0 { res0: 0x40 }
        );
    }
}

#[test]
fn undecoded_syndrome_classes() {
    let classes = [
        (0b000111u64, "Trapped access to SVE, Advanced SIMD or floating point"),
        (0b001010, "Trapped execution of an LD64B, ST64B, ST64BV, or ST64BV0 instruction"),
        (0b001100, "Trapped MRRC access with (coproc==0b1110)"),
        (0b001101, "Branch Target Exception"),
        (0b010001, "SVC instruction execution in AArch32 state"),
        (0b010101, "SVC instruction execution in AArch64 state"),
        (0b011000, "Trapped MSR, MRS or System instruction execution in AArch64 state"),
        (0b011100, "Exception from a Pointer Authentication instruction authentication failure"),
        (0b101000, "Trapped floating-point exception taken from AArch32 state"),
        (0b101100, "Trapped floating-point exception taken from AArch64 state"),
        (0b101111, "SError interrupt"),
        (0b110000, "Breakpoint exception from a lower Exception level"),
        (0b110001, "Breakpoint exception taken without a change in Exception level"),
        (0b110010, "Software Step exception from a lower Exception level"),
        (0b110011, "Software Step exception taken without a change in Exception level"),
        (0b110100, "Watchpoint exception from a lower Exception level"),
        (0b110101, "Watchpoint exception taken without a change in Exception level"),
        (0b111000, "BKPT instruction execution in AArch32 state"),
        (0b111100, "BRK instruction execution in AArch64 state"),
    ];
    for (ec, text) in classes {
        assert_eq!(exception_class(ec), Ok((text, Syndrome::Undecoded)));
        assert_eq!(decode_iss(Syndrome::Undecoded, 0x1ff_ffff), Ok(None));
        let decoded = decode(esr_with(ec, 0x1ab_cdef)).unwrap();
        assert_eq!(decoded.description, Some(text.to_string()));
        assert_eq!(decoded.fields[2], described("EC", 26, 6, ec, text));
        assert_eq!(decoded.fields[4], plain("ISS", 0, 25, 0x1ab_cdef));
    }
}

#[test]
fn decoded_syndrome_classes() {
    let classes = [
        (0b000000u64, "Unknown reason", Syndrome::Res0),
        (0b000001, "Wrapped WF* instruction execution", Syndrome::Wf),
        (0b000011, "Trapped MCR or MRC access with coproc=0b1111", Syndrome::Mcr),
        (0b000100, "Trapped MCRR or MRRC access with coproc=0b1111", Syndrome::Mcrr),
        (0b000101, "Trapped MCR or MRC access with coproc=0b1110", Syndrome::Mcr),
        (0b000110, "Trapped LDC or STC access", Syndrome::Ldc),
        (0b001110, "Illegal Execution state", Syndrome::Res0),
        (
            0b011001,
            "Access to SVE functionality trapped as a result of CPACR_EL1.ZEN, CPTR_EL2.ZEN, \
             CPTR_EL2.TZ, or CPTR_EL3.EZ",
            Syndrome::Res0,
        ),
        (0b100000, "Instruction Abort from a lower Exception level", Syndrome::InstructionAbort),
        (
            0b100001,
            "Instruction Abort taken without a change in Exception level",
            Syndrome::InstructionAbort,
        ),
        (0b100010, "PC alignment fault exception", Syndrome::Res0),
        (0b100100, "Data Abort from a lower Exception level", Syndrome::DataAbort),
        (
            0b100101,
            "Data Abort taken without a change in Exception level",
            Syndrome::DataAbort,
        ),
        (0b100110, "SP alignment fault exception", Syndrome::Res0),
    ];
    for (ec, text, syndrome) in classes {
        assert_eq!(exception_class(ec), Ok((text, syndrome)));
        let decoded = decode(ec << 26).unwrap();
        assert_eq!(decoded.description, Some(text.to_string()));
        assert_eq!(decoded.fields[4].decoded, decode_iss(syndrome, 0).unwrap());
        assert!(decoded.fields[4].decoded.is_some());
    }
}

#[test]
fn undefined_classes() {
    let undefined: [u64; 31] = [
        0b000010, 0b001000, 0b001001, 0b001011, 0b001111, 0b010000, 0b010010, 0b010011, 0b010100,
        0b010110, 0b010111, 0b011010, 0b011011, 0b011101, 0b011110, 0b011111, 0b100011, 0b100111,
        0b101001, 0b101010, 0b101011, 0b101101, 0b101110, 0b110110, 0b110111, 0b111001, 0b111010,
        0b111011, 0b111101, 0b111110, 0b111111,
    ];
    let mut defined: usize = 0;
    let mut ec: u64 = 0;
    while ec < 64 {
        if undefined.contains(&ec) {
            assert_eq!(exception_class(ec), Err(DecodeError::InvalidEc { ec }));
            assert_eq!(decode(esr_with(ec, 0)).unwrap_err(), DecodeError::InvalidEc { ec });
        } else {
            assert!(exception_class(ec).is_ok());
            defined += 1;
        }
        ec += 1;
    }
    assert_eq!(defined, 33);
    assert_eq!(exception_class(64), Err(DecodeError::InvalidEc { ec: 64 }));
}

#[test]
fn instruction_abort_through_both_classes() {
    let lower = decode(esr_with(0b100000, 0x1e10)).unwrap();
    let same = decode(esr_with(0b100001, 0x1e10)).unwrap();
    assert_eq!(lower.fields[4], same.fields[4]);
    assert_eq!(
        same.description,
        Some("Instruction Abort taken without a change in Exception level".to_string())
    );
    assert_eq!(lower.fields[4].decoded, Some(decode_iss_instruction_abort(0x1e10).unwrap()));
}

#[test]
fn data_abort_through_both_classes() {
    let lower = decode(esr_with(0b100100, 0x50)).unwrap();
    let same = decode(esr_with(0b100101, 0x50)).unwrap();
    assert_eq!(lower.fields[4], same.fields[4]);
    assert_eq!(lower.description, Some("Data Abort from a lower Exception level".to_string()));
    assert_eq!(lower.fields[4].decoded, Some(decode_iss_data_abort(0x50).unwrap()));
    assert_eq!(
        decode(esr_with(0b100100, 1 << 11)).unwrap_err(),
        DecodeError::InvalidSet { set: 1 }
    );
    assert_eq!(
        decode(esr_with(0b100101, 0x3f)).unwrap_err(),
        DecodeError::InvalidFsc { fsc: 0x3f }
    );
}
