//! The x86 instruction decoder for MMIO emulation: exactly the MOV and
//! MOVZX forms a guest uses to touch device memory, with the 0x66, 0x67
//! and REX prefixes.
//!
//! Decoding is a pure function of the instruction bytes: the same bytes
//! always produce the same decode.

use vstd::prelude::*;

use crate::err::Error;

verus! {

/// The decode of one instruction: prefix, opcode, modrm/sib and
/// immediate sizes, operand and address widths, and the REX bits.
#[derive(Debug, Clone, Copy, PartialEq, Eq, Structural)]
pub struct X86Decode {
    pub prefix_sz: u8,
    pub opcode_sz: u8,
    pub modrm_sib_sz: u8,
    pub imm_sz: u8,
    pub operand_bytes: u8,
    pub address_bytes: u8,
    pub has_modrm: bool,
    pub is_store: bool,
    pub rex_r: bool,
    pub rex_x: bool,
    pub rex_b: bool,
}

/// The decoder's starting state: one opcode byte, 32-bit operands,
/// 64-bit addressing, a modrm byte expected.
pub open spec fn spec_decode_default() -> X86Decode {
    X86Decode {
        prefix_sz: 0,
        opcode_sz: 1,
        modrm_sib_sz: 0,
        imm_sz: 0,
        operand_bytes: 4,
        address_bytes: 8,
        has_modrm: true,
        is_store: false,
        rex_r: false,
        rex_x: false,
        rex_b: false,
    }
}

impl Default for X86Decode {
    fn default() -> (r: X86Decode)
        ensures
            r == spec_decode_default(),
    {
        X86Decode {
            prefix_sz: 0,
            opcode_sz: 1,
            modrm_sib_sz: 0,
            imm_sz: 0,
            operand_bytes: 4,
            address_bytes: 8,
            has_modrm: true,
            is_store: false,
            rex_r: false,
            rex_x: false,
            rex_b: false,
        }
    }
}

/// Whether a byte is one of the prefixes the decoder understands.
pub open spec fn spec_is_prefix(b: u8) -> bool {
    b == 0x66 || b == 0x67 || b & 0xf0 == 0x40
}

/// The decoder state after consuming one prefix byte.
pub open spec fn spec_apply_prefix(d: X86Decode, b: u8) -> X86Decode {
    if b == 0x66 {
        if d.operand_bytes == 4 {
            X86Decode { operand_bytes: 2, ..d }
        } else {
            d
        }
    } else if b == 0x67 {
        X86Decode { address_bytes: 4, ..d }
    } else {
        X86Decode {
            operand_bytes: if b & 8 != 0 {
                8
            } else {
                d.operand_bytes
            },
            rex_r: if b & 4 != 0 {
                true
            } else {
                d.rex_r
            },
            rex_x: if b & 2 != 0 {
                true
            } else {
                d.rex_x
            },
            rex_b: if b & 1 != 0 {
                true
            } else {
                d.rex_b
            },
            ..d
        }
    }
}

/// The decoder state after the prefix scan starting at byte `i`.
pub open spec fn spec_scan_prefix(s: Seq<u8>, i: int, d: X86Decode) -> X86Decode
    decreases s.len() - i,
{
    if i < 0 || i >= s.len() || !spec_is_prefix(s[i]) {
        X86Decode { prefix_sz: i as u8, ..d }
    } else {
        spec_scan_prefix(s, i + 1, spec_apply_prefix(d, s[i]))
    }
}

/// Consumes the instruction's prefix bytes, updating operand and address
/// widths and the REX bits, and records how many there were.
pub fn decode_prefix(insn: &[u8], decode: &mut X86Decode)
    requires
        insn@.len() <= 15,
        old(decode).prefix_sz == 0,
    ensures
        *final(decode) == spec_scan_prefix(insn@, 0, *old(decode)),
{
    let mut i: usize = 0;
    loop
        invariant
            i <= insn@.len(),
            insn@.len() <= 15,
            spec_scan_prefix(insn@, 0, *old(decode)) == spec_scan_prefix(
                insn@,
                i as int,
                *decode,
            ),
        ensures
            i <= insn@.len(),
            (i == insn@.len() || !spec_is_prefix(insn@[i as int])),
            spec_scan_prefix(insn@, 0, *old(decode)) == (X86Decode {
                prefix_sz: i as u8,
                ..*decode
            }),
        decreases insn@.len() - i,
    {
        if i >= insn.len() {
            break ;
        }
        let byte = insn[i];
        if byte == 0x66 {
            if decode.operand_bytes == 4 {
                decode.operand_bytes = 2;
            }
        } else if byte == 0x67 {
            decode.address_bytes = 4;
        } else if byte & 0xf0 == 0x40 {
            if byte & 0x08 != 0 {
                decode.operand_bytes = 8;
            }
            if byte & 0x04 != 0 {
                decode.rex_r = true;
            }
            if byte & 0x02 != 0 {
                decode.rex_x = true;
            }
            if byte & 0x01 != 0 {
                decode.rex_b = true;
            }
        } else {
            break ;
        }
        i = i + 1;
    }
    decode.prefix_sz = i as u8;
}

/// The modrm byte of a decoded instruction, if its offset lies inside
/// the bytes.
pub fn get_modrm(insn: &[u8], decode: &X86Decode) -> (r: Result<u8, Error>)
    ensures
        ({
            let off = decode.prefix_sz + decode.opcode_sz;
            if decode.has_modrm && off < insn@.len() {
                r == Ok::<u8, Error>(insn@[off as int])
            } else {
                r is Err
            }
        }),
{
    if !decode.has_modrm {
        return Err(Error::Program("no modrm".to_owned()));
    }
    let off = decode.prefix_sz as usize + decode.opcode_sz as usize;
    if off >= insn.len() {
        return Err(Error::Program("instruction truncated before its modrm byte".to_owned()));
    }
    Ok(insn[off])
}

/// The register field of the modrm byte, widened by REX.R.
pub fn modrm_get_reg(insn: &[u8], decode: &X86Decode) -> (r: Result<u8, Error>)
    ensures
        ({
            let off = decode.prefix_sz + decode.opcode_sz;
            if decode.has_modrm && off < insn@.len() {
                r == Ok::<u8, Error>(spec_modrm_reg(insn@[off as int], *decode))
            } else {
                r is Err
            }
        }),
{
    let modrm = match get_modrm(insn, decode) {
        Ok(m) => m,
        Err(e) => {
            return Err(e);
        },
    };
    let reg = (modrm >> 3) & 7;
    proof {
        assert((modrm >> 3) & 7 < 8) by (bit_vector);
    }
    if decode.address_bytes == 2 {
        Ok(reg)
    } else {
        if decode.rex_r {
            Ok(reg + 8)
        } else {
            Ok(reg)
        }
    }
}

/// The register number `modrm_get_reg` returns.
pub open spec fn spec_modrm_reg(modrm: u8, d: X86Decode) -> u8 {
    let reg = (modrm >> 3) & 7;
    if d.address_bytes == 2 {
        reg
    } else if d.rex_r {
        (reg + 8) as u8
    } else {
        reg
    }
}

/// Bytes of modrm plus displacement for 16-bit addressing.
pub fn modrm_sib_bytes_16(mod_: u8, rm: u8) -> (r: u8)
    ensures
        r == spec_modrm_sib_bytes_16(mod_, rm),
{
    if mod_ == 0 && rm == 6 {
        3
    } else if mod_ == 0 {
        1
    } else if mod_ == 1 && rm == 4 {
        3
    } else if mod_ == 1 {
        2
    } else if mod_ == 2 {
        3
    } else {
        1
    }
}

pub open spec fn spec_modrm_sib_bytes_16(mod_: u8, rm: u8) -> u8 {
    if mod_ == 0 && rm == 6 {
        3
    } else if mod_ == 0 {
        1
    } else if mod_ == 1 && rm == 4 {
        3
    } else if mod_ == 1 {
        2
    } else if mod_ == 2 {
        3
    } else {
        1
    }
}

/// Bytes of modrm plus sib plus displacement for 32/64-bit addressing.
pub fn modrm_sib_bytes_32(mod_: u8, rm: u8) -> (r: u8)
    ensures
        r == spec_modrm_sib_bytes_32(mod_, rm),
{
    if mod_ == 0 && rm == 4 {
        2
    } else if mod_ == 0 && rm == 5 {
        5
    } else if mod_ == 0 {
        1
    } else if mod_ == 1 && rm == 4 {
        3
    } else if mod_ == 1 {
        2
    } else if mod_ == 2 && rm == 4 {
        6
    } else if mod_ == 2 {
        5
    } else {
        1
    }
}

pub open spec fn spec_modrm_sib_bytes_32(mod_: u8, rm: u8) -> u8 {
    if mod_ == 0 && rm == 4 {
        2
    } else if mod_ == 0 && rm == 5 {
        5
    } else if mod_ == 0 {
        1
    } else if mod_ == 1 && rm == 4 {
        3
    } else if mod_ == 1 {
        2
    } else if mod_ == 2 && rm == 4 {
        6
    } else if mod_ == 2 {
        5
    } else {
        1
    }
}

/// The modrm/sib/displacement byte count for the decoded addressing
/// width.
pub fn modrm_sib_bytes(insn: &[u8], decode: &X86Decode) -> (r: Result<u8, Error>)
    ensures
        ({
            let off = decode.prefix_sz + decode.opcode_sz;
            if decode.has_modrm && off < insn@.len() {
                r == Ok::<u8, Error>(
                    spec_modrm_sib_len(insn@[off as int], decode.address_bytes),
                )
            } else {
                r is Err
            }
        }),
{
    let modrm = match get_modrm(insn, decode) {
        Ok(m) => m,
        Err(e) => {
            return Err(e);
        },
    };
    let mod_ = modrm >> 6;
    let rm = modrm & 0x7;
    if decode.address_bytes == 2 {
        Ok(modrm_sib_bytes_16(mod_, rm))
    } else {
        Ok(modrm_sib_bytes_32(mod_, rm))
    }
}

pub open spec fn spec_modrm_sib_len(modrm: u8, address_bytes: u8) -> u8 {
    if address_bytes == 2 {
        spec_modrm_sib_bytes_16(modrm >> 6, modrm & 7)
    } else {
        spec_modrm_sib_bytes_32(modrm >> 6, modrm & 7)
    }
}

/// The full decode of the opcode at `d.prefix_sz`, given the state the
/// prefix scan produced, or nothing for an instruction outside the
/// decoder's MOV/MOVZX subset or truncated bytes.
pub open spec fn spec_decode_opcode(s: Seq<u8>, d: X86Decode) -> Option<X86Decode> {
    let p = d.prefix_sz as int;
    if p >= s.len() {
        Option::None
    } else {
        let op = s[p];
        let m = p + d.opcode_sz;
        let d1 = if op == 0x80 {
            if d.has_modrm && m < s.len() && (spec_modrm_reg(s[m], d) & 7 == 0 || spec_modrm_reg(
                s[m],
                d,
            ) & 7 == 7) {
                Option::Some(X86Decode { imm_sz: 1, operand_bytes: 1, ..d })
            } else {
                Option::None
            }
        } else if op == 0x81 {
            if d.has_modrm && m < s.len() && (spec_modrm_reg(s[m], d) & 7 == 0 || spec_modrm_reg(
                s[m],
                d,
            ) & 7 == 7) {
                Option::Some(
                    X86Decode {
                        imm_sz: if d.address_bytes == 2 {
                            2
                        } else {
                            4
                        },
                        ..d
                    },
                )
            } else {
                Option::None
            }
        } else if op == 0x3a {
            Option::Some(X86Decode { operand_bytes: 1, ..d })
        } else if op == 0x88 || op == 0x8a {
            Option::Some(X86Decode { operand_bytes: 1, is_store: op & 2 == 0, ..d })
        } else if op == 0x89 || op == 0x8b {
            Option::Some(X86Decode { is_store: op & 2 == 0, ..d })
        } else if op == 0x0f {
            if p + 1 < s.len() && s[p + 1] == 0xb7 {
                Option::Some(X86Decode { opcode_sz: 2, operand_bytes: 2, ..d })
            } else if p + 1 < s.len() && s[p + 1] == 0xb6 {
                Option::Some(X86Decode { opcode_sz: 2, operand_bytes: 1, ..d })
            } else {
                Option::None
            }
        } else {
            Option::None
        };
        match d1 {
            Option::None => Option::None,
            Option::Some(d2) => {
                let off = d2.prefix_sz + d2.opcode_sz;
                if d2.has_modrm && off < s.len() {
                    Option::Some(
                        X86Decode {
                            modrm_sib_sz: spec_modrm_sib_len(s[off as int], d2.address_bytes),
                            ..d2
                        },
                    )
                } else {
                    Option::None
                }
            },
        }
    }
}

/// The lower-case hex digit of a nibble.
fn hex_nibble_str(d: u8) -> &'static str {
    let n = d & 0xf;
    if n == 0 {
        "0"
    } else if n == 1 {
        "1"
    } else if n == 2 {
        "2"
    } else if n == 3 {
        "3"
    } else if n == 4 {
        "4"
    } else if n == 5 {
        "5"
    } else if n == 6 {
        "6"
    } else if n == 7 {
        "7"
    } else if n == 8 {
        "8"
    } else if n == 9 {
        "9"
    } else if n == 10 {
        "a"
    } else if n == 11 {
        "b"
    } else if n == 12 {
        "c"
    } else if n == 13 {
        "d"
    } else if n == 14 {
        "e"
    } else {
        "f"
    }
}

/// The rejection carries the opcode bytes, for diagnostics.
fn unknown_opcode_error(op: u8, ext: Option<u8>) -> Error {
    let mut msg = String::new();
    msg.append("unknown opcode 0x");
    msg.append(hex_nibble_str(op >> 4));
    msg.append(hex_nibble_str(op));
    match ext {
        Some(b) => {
            msg.append(" 0x");
            msg.append(hex_nibble_str(b >> 4));
            msg.append(hex_nibble_str(b));
        },
        None => {},
    }
    Error::Program(msg)
}

/// Decodes the opcode and its modrm/sib bytes, rejecting instructions
/// outside the MOV/MOVZX subset.
pub fn decode_opcode(insn: &[u8], decode: &mut X86Decode) -> (r: Result<(), Error>)
    ensures
        match spec_decode_opcode(insn@, *old(decode)) {
            Option::Some(d) => r is Ok && *final(decode) == d,
            Option::None => r is Err,
        },
{
    let p = decode.prefix_sz as usize;
    if p >= insn.len() {
        return Err(Error::Program("instruction truncated at its opcode".to_owned()));
    }
    let op = insn[p];
    if op == 0x80 {
        let reg = match modrm_get_reg(insn, decode) {
            Ok(g) => g,
            Err(e) => {
                return Err(e);
            },
        };
        if reg & 7 == 0 || reg & 7 == 7 {
            decode.imm_sz = 1;
            decode.operand_bytes = 1;
        } else {
            return Err(unknown_opcode_error(op, None));
        }
    } else if op == 0x81 {
        let reg = match modrm_get_reg(insn, decode) {
            Ok(g) => g,
            Err(e) => {
                return Err(e);
            },
        };
        if reg & 7 == 0 || reg & 7 == 7 {
            decode.imm_sz = if decode.address_bytes == 2 {
                2
            } else {
                4
            };
        } else {
            return Err(unknown_opcode_error(op, None));
        }
    } else if op == 0x3a {
        decode.operand_bytes = 1;
    } else if op == 0x88 || op == 0x8a {
        decode.operand_bytes = 1;
        decode.is_store = op & 2 == 0;
    } else if op == 0x89 || op == 0x8b {
        decode.is_store = op & 2 == 0;
    } else if op == 0x0f {
        if p + 1 < insn.len() && insn[p + 1] == 0xb7 {
            decode.opcode_sz = 2;
            decode.operand_bytes = 2;
        } else if p + 1 < insn.len() && insn[p + 1] == 0xb6 {
            decode.opcode_sz = 2;
            decode.operand_bytes = 1;
        } else if p + 1 < insn.len() {
            return Err(unknown_opcode_error(op, Some(insn[p + 1])));
        } else {
            return Err(unknown_opcode_error(op, None));
        }
    } else {
        return Err(unknown_opcode_error(op, None));
    }
    match modrm_sib_bytes(insn, decode) {
        Ok(n) => {
            decode.modrm_sib_sz = n;
            Ok(())
        },
        Err(e) => Err(e),
    }
}

/// Decodes a memory-access instruction from scratch: the default state,
/// the prefix scan, then the opcode.  The result is a pure function of
/// the instruction bytes.
pub fn decode_mem_insn(insn: &[u8]) -> (r: Result<X86Decode, Error>)
    requires
        insn@.len() <= 15,
    ensures
        match spec_decode_mem_insn(insn@) {
            Option::Some(d) => r == Ok::<X86Decode, Error>(d),
            Option::None => r is Err,
        },
{
    let mut decode = X86Decode::default();
    decode_prefix(insn, &mut decode);
    match decode_opcode(insn, &mut decode) {
        Ok(()) => Ok(decode),
        Err(e) => Err(e),
    }
}

/// The decode of an instruction's bytes, from the default state.
pub open spec fn spec_decode_mem_insn(s: Seq<u8>) -> Option<X86Decode> {
    spec_decode_opcode(s, spec_scan_prefix(s, 0, spec_decode_default()))
}

/// Decoding is idempotent: two decodes of the same instruction bytes,
/// each starting from the default state, agree on every field of the
/// result -- the prefix, opcode, modrm/sib and immediate sizes, the
/// operand and address widths, and the direction of the access.
pub proof fn lemma_decode_deterministic(s: Seq<u8>, d1: X86Decode, d2: X86Decode)
    requires
        spec_decode_mem_insn(s) == Option::Some(d1),
        spec_decode_mem_insn(s) == Option::Some(d2),
    ensures
        d1 == d2,
        d1.prefix_sz == d2.prefix_sz && d1.opcode_sz == d2.opcode_sz && d1.modrm_sib_sz
            == d2.modrm_sib_sz && d1.imm_sz == d2.imm_sz && d1.operand_bytes == d2.operand_bytes
            && d1.address_bytes == d2.address_bytes && d1.is_store == d2.is_store,
{
}

} // verus!
