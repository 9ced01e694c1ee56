use generic_linkme::disasm::extract_function_pointers;
use generic_linkme::disasm::is_branch;
use generic_linkme::disasm::push_immediates;
use generic_linkme::disasm::scan;
use generic_linkme::disasm::DecodedInsn;
use generic_linkme::disasm::Operand;
use generic_linkme::disasm::ScanError;

fn jmp_to(at: u64, target: u64) -> Vec<u8> {
    let rel = target.wrapping_sub(at.wrapping_add(5)) as i64;
    let rel = i32::try_from(rel).unwrap();
    let mut code = vec![0xe9];
    code.extend_from_slice(&rel.to_le_bytes());
    code
}

fn call_to(at: u64, target: u64) -> Vec<u8> {
    let rel = target.wrapping_sub(at.wrapping_add(5)) as i64;
    let rel = i32::try_from(rel).unwrap();
    let mut code = vec![0xe8];
    code.extend_from_slice(&rel.to_le_bytes());
    code
}

fn insn(mnemonic: Option<&str>, operands: Option<Vec<Operand>>) -> DecodedInsn {
    DecodedInsn { mnemonic: mnemonic.map(|name| name.to_string()), operands }
}

#[test]
fn scan_collects_the_immediates_of_calls_and_jumps() {
    let insns = vec![
        insn(Some("push"), Some(vec![Operand::Register])),
        insn(Some("jmp"), Some(vec![Operand::Immediate(0x2000)])),
        insn(Some("mov"), Some(vec![Operand::Register, Operand::Immediate(0x9999)])),
        insn(Some("call"), Some(vec![Operand::Immediate(0x1000)])),
        insn(Some("je"), Some(vec![Operand::Immediate(0x7777)])),
        insn(Some("jmp"), Some(vec![Operand::Memory])),
        insn(Some("call"), Some(vec![Operand::Immediate(3), Operand::Register, Operand::Immediate(4)])),
        insn(None, Some(vec![Operand::Immediate(0x5555)])),
        insn(Some("jmp"), Some(Vec::new())),
    ];
    assert_eq!(scan(&insns), Some(vec![0x2000, 0x1000, 3, 4]));
}

#[test]
fn scan_of_nothing() {
    assert_eq!(scan(&Vec::new()), Some(Vec::new()));
}

#[test]
fn scan_fails_on_a_branch_without_operands() {
    let insns = vec![
        insn(Some("jmp"), Some(vec![Operand::Immediate(0x2000)])),
        insn(Some("call"), None),
        insn(Some("jmp"), Some(vec![Operand::Immediate(0x3000)])),
    ];
    assert_eq!(scan(&insns), None);
    assert_eq!(scan(&vec![insn(Some("jmp"), None)]), None);
}

#[test]
fn scan_needs_no_operands_of_other_instructions() {
    let insns = vec![
        insn(Some("nop"), None),
        insn(None, None),
        insn(Some("jmp"), Some(vec![Operand::Immediate(0x2000)])),
        insn(Some("ret"), None),
    ];
    assert_eq!(scan(&insns), Some(vec![0x2000]));
}

#[test]
fn scan_of_trampolines_has_one_entry_each() {
    for k in 0..50i64 {
        let insns: Vec<DecodedInsn> = (0..k)
            .map(|i| {
                let name = if i % 2 == 0 { "jmp" } else { "call" };
                insn(Some(name), Some(vec![Operand::Immediate(0x1000 + i)]))
            })
            .collect();
        let expected: Vec<u64> = (0..k).map(|i| 0x1000 + i as u64).collect();
        assert_eq!(scan(&insns), Some(expected));
    }
}

#[test]
fn scan_keeps_stream_order_across_a_seam() {
    let front = vec![
        insn(Some("jmp"), Some(vec![Operand::Immediate(1)])),
        insn(Some("nop"), None),
        insn(Some("jmp"), Some(vec![Operand::Immediate(2)])),
    ];
    let back = vec![insn(Some("call"), Some(vec![Operand::Immediate(3)]))];
    let mut whole = front.clone();
    whole.extend(back.clone());
    let mut expected = scan(&front).unwrap();
    expected.extend(scan(&back).unwrap());
    assert_eq!(scan(&whole), Some(expected));
}

#[test]
fn is_branch_names() {
    assert!(is_branch("call"));
    assert!(is_branch("jmp"));
    assert!(!is_branch("je"));
    assert!(!is_branch("jmpq"));
    assert!(!is_branch("callq"));
    assert!(!is_branch("ljmp"));
    assert!(!is_branch("CALL"));
    assert!(!is_branch(""));
    assert!(!is_branch("ret"));
}

#[test]
fn push_immediates_keeps_immediates_in_order() {
    let operands = vec![
        Operand::Register,
        Operand::Immediate(0x1000),
        Operand::Memory,
        Operand::Immediate(7),
        Operand::Invalid,
        Operand::Foreign,
    ];
    let mut targets = vec![1u64];
    push_immediates(&operands, &mut targets);
    assert_eq!(targets, vec![1, 0x1000, 7]);
}

#[test]
fn push_immediates_reads_the_bits_unsigned() {
    let operands = vec![Operand::Immediate(-1), Operand::Immediate(i64::MIN), Operand::Immediate(0)];
    let mut targets = Vec::new();
    push_immediates(&operands, &mut targets);
    assert_eq!(targets, vec![u64::MAX, 1u64 << 63, 0]);
}

#[test]
fn push_immediates_without_operands() {
    let mut targets = vec![5u64, 6];
    push_immediates(&Vec::new(), &mut targets);
    assert_eq!(targets, vec![5, 6]);
}

#[test]
fn empty_region_has_no_entries() {
    assert_eq!(extract_function_pointers(&[], 0x1000), Ok(Vec::new()));
}

#[test]
fn one_jump() {
    let code = jmp_to(0x40_0000, 0x40_1234);
    assert_eq!(extract_function_pointers(&code, 0x40_0000), Ok(vec![0x40_1234]));
}

#[test]
fn one_call() {
    let code = call_to(0x40_0000, 0x3f_0000);
    assert_eq!(extract_function_pointers(&code, 0x40_0000), Ok(vec![0x3f_0000]));
}

#[test]
fn targets_depend_on_the_load_address() {
    let code = jmp_to(0x1000, 0x2000);
    assert_eq!(extract_function_pointers(&code, 0x1000), Ok(vec![0x2000]));
    assert_eq!(extract_function_pointers(&code, 0x5000), Ok(vec![0x6000]));
}

#[test]
fn entries_come_out_in_stream_order() {
    let base = 0x7000_0000u64;
    let targets = [0x7000_4000u64, 0x7000_1000, 0x7000_3000, 0x7000_2000];
    let mut code = Vec::new();
    for target in targets {
        let at = base + code.len() as u64;
        code.extend(jmp_to(at, target));
    }
    assert_eq!(extract_function_pointers(&code, base), Ok(targets.to_vec()));
}

#[test]
fn other_instructions_contribute_nothing() {
    let base = 0x1000u64;
    let mut code = vec![0x90, 0x55, 0x48, 0x89, 0xe5];
    let at = base + code.len() as u64;
    code.extend(call_to(at, 0x9000));
    code.extend([0x5d, 0xc3]);
    assert_eq!(extract_function_pointers(&code, base), Ok(vec![0x9000]));
}

#[test]
fn conditional_jumps_are_no_trampolines() {
    let code = [0x74, 0x10, 0x75, 0x10, 0x0f, 0x84, 0x00, 0x01, 0x00, 0x00];
    assert_eq!(extract_function_pointers(&code, 0x1000), Ok(Vec::new()));
}

#[test]
fn indirect_jumps_have_no_immediate() {
    let code = [0xff, 0xe0, 0xff, 0xd0, 0xff, 0x25, 0x00, 0x10, 0x00, 0x00];
    assert_eq!(extract_function_pointers(&code, 0x1000), Ok(Vec::new()));
}

#[test]
fn short_jump() {
    let code = [0xeb, 0x10];
    assert_eq!(extract_function_pointers(&code, 0x1000), Ok(vec![0x1012]));
}

#[test]
fn jump_below_address_zero_wraps() {
    let code = [0xe9, 0xf6, 0xff, 0xff, 0xff];
    assert_eq!(extract_function_pointers(&code, 0), Ok(vec![u64::MAX - 4]));
}

#[test]
fn decoding_stops_at_bytes_that_are_no_instruction() {
    let base = 0x1000u64;
    let mut code = jmp_to(base, 0x2000);
    code.push(0x06);
    let at = base + code.len() as u64;
    code.extend(jmp_to(at, 0x3000));
    assert_eq!(extract_function_pointers(&code, base), Ok(vec![0x2000]));
}

#[test]
fn truncated_trampoline_is_dropped() {
    let base = 0x1000u64;
    let mut code = jmp_to(base, 0x2000);
    code.extend([0xe9, 0x00, 0x00]);
    assert_eq!(extract_function_pointers(&code, base), Ok(vec![0x2000]));
}

#[test]
fn scan_is_repeatable() {
    let base = 0x1000u64;
    let mut code = jmp_to(base, 0x2000);
    code.extend(call_to(base + 5, 0x3000));
    let first = extract_function_pointers(&code, base);
    let second = extract_function_pointers(&code, base);
    assert_eq!(first, second);
    assert_eq!(first, Ok(vec![0x2000, 0x3000]));
}

#[test]
fn scan_error_messages() {
    assert_eq!(ScanError::Engine.message(), "Failed to create Capstone object");
    assert_eq!(ScanError::Disassemble.message(), "Failed to disassemble");
    assert_eq!(ScanError::Detail.message(), "Failed to get insn detail");
}
