use xhype::decode::decode_mem_insn;
use xhype::decode::X86Decode;

// Decoding the same instruction bytes twice, each time from the default
// state, yields the same decode in every field.
#[test]
fn decode_idempotent_test() {
    let insn = [0x66u8, 0x44, 0x8b, 0x04, 0x25]; // operand-size + REX.R + mov r,m
    let d1 = decode_mem_insn(&insn).unwrap();
    let d2 = decode_mem_insn(&insn).unwrap();
    assert_eq!(
        (d1.prefix_sz, d1.opcode_sz, d1.modrm_sib_sz, d1.imm_sz, d1.operand_bytes, d1.address_bytes, d1.is_store),
        (d2.prefix_sz, d2.opcode_sz, d2.modrm_sib_sz, d2.imm_sz, d2.operand_bytes, d2.address_bytes, d2.is_store)
    );
    assert_eq!(d1, d2);
}

#[test]
fn decode_mov_store_test() {
    // mov [rax], ecx: opcode 0x89, modrm 0x08.
    let d = decode_mem_insn(&[0x89, 0x08]).unwrap();
    assert_eq!(d.prefix_sz, 0);
    assert_eq!(d.opcode_sz, 1);
    assert_eq!(d.operand_bytes, 4);
    assert!(d.is_store);
    assert_eq!(d.modrm_sib_sz, 1);
}

#[test]
fn decode_rex_load_test() {
    // mov rcx, [rax] with REX.W.
    let d = decode_mem_insn(&[0x48, 0x8b, 0x08]).unwrap();
    assert_eq!(d.prefix_sz, 1);
    assert_eq!(d.operand_bytes, 8);
    assert!(!d.is_store);
}

#[test]
fn decode_movzx_test() {
    // movzx ecx, byte [rax]: 0f b6 /r.
    let d = decode_mem_insn(&[0x0f, 0xb6, 0x08]).unwrap();
    assert_eq!(d.opcode_sz, 2);
    assert_eq!(d.operand_bytes, 1);
    assert!(!d.is_store);
    // movzx ecx, word [rax]: 0f b7 /r.
    let w = decode_mem_insn(&[0x0f, 0xb7, 0x08]).unwrap();
    assert_eq!(w.operand_bytes, 2);
}

#[test]
fn decode_operand_size_prefix_test() {
    // 0x66 shrinks a 32-bit operand to 16 bits.
    let d = decode_mem_insn(&[0x66, 0x89, 0x08]).unwrap();
    assert_eq!(d.prefix_sz, 1);
    assert_eq!(d.operand_bytes, 2);
    // But REX.W wins over 0x66.
    let w = decode_mem_insn(&[0x66, 0x48, 0x89, 0x08]).unwrap();
    assert_eq!(w.operand_bytes, 8);
}

#[test]
fn decode_rejects_unknown_test() {
    assert!(decode_mem_insn(&[0x0f, 0x05]).is_err()); // syscall
    assert!(decode_mem_insn(&[0xcc]).is_err()); // int3
    assert!(decode_mem_insn(&[0x89]).is_err()); // truncated before modrm
}

#[test]
fn decode_default_state_test() {
    let d = X86Decode::default();
    assert_eq!(d.opcode_sz, 1);
    assert_eq!(d.operand_bytes, 4);
    assert_eq!(d.address_bytes, 8);
    assert!(d.has_modrm);
    assert!(!d.is_store);
}
