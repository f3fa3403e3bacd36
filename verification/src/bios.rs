//! The BIOS tables the guest discovers at boot: an RSDP pointing at an
//! XSDT, which lists a FADT (with a tiny DSDT) and a MADT carrying one
//! local-APIC, one I/O-APIC and one x2APIC entry per core.
//!
//! Every table carries a one-byte checksum chosen so that the byte sum
//! over the table's length is zero modulo 256; `setup_bios_tables`
//! guarantees that for each table it emits.

use vstd::arithmetic::div_mod::lemma_fundamental_div_mod;
use vstd::arithmetic::div_mod::lemma_mod_multiples_vanish;
use vstd::prelude::*;

use crate::mach::le32_at;
use crate::mach::le64_at;
use crate::mach::MachVMBlock;
use crate::x86::APIC_GPA;
use crate::x86::IO_APIC_BASE;

verus! {

/// Byte size of the RSDP structure.
pub const ACPI_RSDP_SIZE: usize = 36;

/// Byte size of the common ACPI table header.
pub const ACPI_TABLE_HEADER_SIZE: usize = 36;

/// Byte size of the FADT.
pub const ACPI_FADT_SIZE: usize = 276;

/// Byte size of the MADT's fixed part.
pub const ACPI_MADT_SIZE: usize = 44;

/// Byte size of a MADT local-APIC subtable.
pub const ACPI_MADT_LOCAL_APIC_SIZE: usize = 8;

/// Byte size of a MADT I/O-APIC subtable.
pub const ACPI_MADT_IO_APIC_SIZE: usize = 12;

/// Byte size of a MADT local-x2APIC subtable.
pub const ACPI_MADT_LOCAL_X2APIC_SIZE: usize = 16;

/// Byte size of the embedded DSDT blob.
pub const ACPI_DSDT_SIZE: usize = 36;

/// Offset of the v1 checksum inside the RSDP.
pub const ACPI_RSDP_CHECKSUM_OFFSET: usize = 8;

/// Length covered by the v1 RSDP checksum.
pub const ACPI_RSDP_CHECKSUM_LENGTH: usize = 20;

/// Offset of the extended checksum inside the RSDP.
pub const ACPI_RSDP_XCHECKSUM_OFFSET: usize = 32;

/// Length covered by the extended RSDP checksum.
pub const ACPI_RSDP_XCHECKSUM_LENGTH: usize = 36;

/// Offset of the checksum byte inside the common table header.
pub const ACPI_TABLE_HEADER_CHECKSUM_OFFSET: usize = 9;

/// The sum of the bytes of `s`, as an unbounded integer.
pub open spec fn sum_bytes(s: Seq<u8>) -> int
    decreases s.len(),
{
    if s.len() == 0 {
        0
    } else {
        sum_bytes(s.drop_last()) + s.last()
    }
}

proof fn lemma_sum_bytes_take_step(s: Seq<u8>, i: int)
    requires
        0 <= i < s.len(),
    ensures
        sum_bytes(s.take(i + 1)) == sum_bytes(s.take(i)) + s[i],
{
    assert(s.take(i + 1).drop_last() =~= s.take(i));
    assert(s.take(i + 1).last() == s[i]);
}

proof fn lemma_sum_bytes_update(s: Seq<u8>, i: int, v: u8)
    requires
        0 <= i < s.len(),
    ensures
        sum_bytes(s.update(i, v)) == sum_bytes(s) - s[i] + v,
    decreases s.len(),
{
    if s.len() == 0 {
    } else if i == s.len() - 1 {
        assert(s.update(i, v).drop_last() =~= s.drop_last());
    } else {
        assert(s.update(i, v).drop_last() =~= s.drop_last().update(i, v));
        lemma_sum_bytes_update(s.drop_last(), i, v);
    }
}

/// The byte sum of `data`, modulo 256.
pub fn acpi_tb_checksum(data: &[u8]) -> (r: u8)
    ensures
        r as int == sum_bytes(data@) % 256,
{
    let mut acc: u8 = 0;
    let mut i: usize = 0;
    while i < data.len()
        invariant
            i <= data@.len(),
            acc as int == sum_bytes(data@.take(i as int)) % 256,
        decreases data@.len() - i,
    {
        let sum: u16 = acc as u16 + data[i] as u16;
        proof {
            let pre = sum_bytes(data@.take(i as int));
            lemma_sum_bytes_take_step(data@, i as int);
            lemma_fundamental_div_mod(pre, 256);
            lemma_mod_multiples_vanish(pre / 256, acc as int + data@[i as int], 256);
        }
        acc = (sum % 256) as u8;
        i = i + 1;
    }
    proof {
        assert(data@.take(data@.len() as int) =~= data@);
    }
    acc
}

/// The byte that makes the sum over `data` plus this byte vanish mod 256.
pub fn gencsum(data: &[u8]) -> (r: u8)
    ensures
        (sum_bytes(data@) + r as int) % 256 == 0,
{
    let s = acpi_tb_checksum(data);
    let r: u8 = if s == 0 {
        0
    } else {
        255 - s + 1
    };
    proof {
        lemma_fundamental_div_mod(sum_bytes(data@), 256);
        if s == 0 {
            lemma_mod_multiples_vanish(sum_bytes(data@) / 256, 0, 256);
        } else {
            lemma_mod_multiples_vanish(sum_bytes(data@) / 256 + 1, 0, 256);
        }
    }
    r
}

/// Computes the checksum over `[table_off, table_off + table_len)` of
/// `mem` and stores it at relative offset `ck_rel`, which must currently
/// hold zero; afterwards the byte sum over the table vanishes mod 256.
fn checksum_fix(mem: &mut MachVMBlock, table_off: usize, table_len: usize, ck_rel: usize)
    requires
        table_off + table_len <= old(mem)@.len(),
        ck_rel < table_len,
        old(mem)@[table_off + ck_rel] == 0,
    ensures
        final(mem).start == old(mem).start,
        final(mem)@.len() == old(mem)@.len(),
        forall|i: int|
            0 <= i < old(mem)@.len() && i != table_off + ck_rel ==> final(mem)@[i] == old(mem)@[i],
        sum_bytes(final(mem)@.subrange(table_off as int, table_off + table_len)) % 256 == 0,
    {
    let n0: usize = mem.size();
    let region = mem.read_bytes(table_off, table_len);
    let cs = gencsum(region.as_slice());
    mem.write_u8(cs, table_off, ck_rel);
    proof {
        let pre = old(mem)@.subrange(table_off as int, table_off + table_len);
        let post = final(mem)@.subrange(table_off as int, table_off + table_len);
        assert(post =~= pre.update(ck_rel as int, cs));
        lemma_sum_bytes_update(pre, ck_rel as int, cs);
    }
}

/// The common header every ACPI table starts with.
pub struct AcpiTableHeader {
    pub signature: [u8; 4],
    pub length: u32,
    pub revision: u8,
    pub checksum: u8,
    pub oem_id: [u8; 6],
    pub oem_table_id: [u8; 8],
    pub oem_revision: u32,
    pub asl_compiler_id: [u8; 4],
    pub asl_compiler_revision: u32,
}

impl AcpiTableHeader {
    /// The default header: ACPI revision 2, this hypervisor's OEM
    /// identifiers, a zero checksum, and signature and length left for the
    /// caller to fill in.
    pub fn new() -> (r: AcpiTableHeader)
        ensures
            r.revision == 2,
            r.checksum == 0,
            r.oem_revision == 0,
            r.asl_compiler_revision == 0,
    {
        AcpiTableHeader {
            signature: [0u8, 0u8, 0u8, 0u8],
            length: 0,
            revision: 2,
            checksum: 0,
            oem_id: [0x41u8, 0x4bu8, 0x41u8, 0x52u8, 0x4fu8, 0x53u8],
            oem_table_id: [0x41u8, 0x4cu8, 0x50u8, 0x48u8, 0x41u8, 0x42u8, 0x45u8, 0x54u8],
            oem_revision: 0,
            asl_compiler_id: [0x52u8, 0x4fu8, 0x4eu8, 0x20u8],
            asl_compiler_revision: 0,
        }
    }
}

/// Writes the 36 header bytes of `h` at `offset`, leaving the rest of the
/// region untouched.
fn write_acpi_header(mem: &mut MachVMBlock, offset: usize, h: &AcpiTableHeader)
    requires
        offset + 36 <= old(mem)@.len(),
    ensures
        final(mem).start == old(mem).start,
        final(mem)@.len() == old(mem)@.len(),
        forall|i: int|
            0 <= i < old(mem)@.len() && !(offset <= i < offset + 36) ==> final(mem)@[i] == old(mem)@[i],
        final(mem)@[offset + 0] == h.signature@[0],
        final(mem)@[offset + 1] == h.signature@[1],
        final(mem)@[offset + 2] == h.signature@[2],
        final(mem)@[offset + 3] == h.signature@[3],
        le32_at(final(mem)@, offset + 4) == h.length,
        final(mem)@[offset + 8] == h.revision,
        final(mem)@[offset + 9] == h.checksum,
    {
    let n0: usize = mem.size();
    mem.write_u8(h.signature[0], offset, 0);
    mem.write_u8(h.signature[1], offset, 1);
    mem.write_u8(h.signature[2], offset, 2);
    mem.write_u8(h.signature[3], offset, 3);
    mem.write_u32(h.length, offset + 4, 0);
    mem.write_u8(h.revision, offset, 8);
    mem.write_u8(h.checksum, offset, 9);
    mem.write_u8(h.oem_id[0], offset, 10);
    mem.write_u8(h.oem_id[1], offset, 11);
    mem.write_u8(h.oem_id[2], offset, 12);
    mem.write_u8(h.oem_id[3], offset, 13);
    mem.write_u8(h.oem_id[4], offset, 14);
    mem.write_u8(h.oem_id[5], offset, 15);
    mem.write_u8(h.oem_table_id[0], offset, 16);
    mem.write_u8(h.oem_table_id[1], offset, 17);
    mem.write_u8(h.oem_table_id[2], offset, 18);
    mem.write_u8(h.oem_table_id[3], offset, 19);
    mem.write_u8(h.oem_table_id[4], offset, 20);
    mem.write_u8(h.oem_table_id[5], offset, 21);
    mem.write_u8(h.oem_table_id[6], offset, 22);
    mem.write_u8(h.oem_table_id[7], offset, 23);
    mem.write_u32(h.oem_revision, offset + 24, 0);
    mem.write_u8(h.asl_compiler_id[0], offset, 28);
    mem.write_u8(h.asl_compiler_id[1], offset, 29);
    mem.write_u8(h.asl_compiler_id[2], offset, 30);
    mem.write_u8(h.asl_compiler_id[3], offset, 31);
    mem.write_u32(h.asl_compiler_revision, offset + 32, 0);
}

/// Fills `[offset, offset + len)` of `mem` with zero bytes.
fn zero_range(mem: &mut MachVMBlock, offset: usize, len: usize)
    requires
        offset + len <= old(mem)@.len(),
    ensures
        final(mem).start == old(mem).start,
        final(mem)@.len() == old(mem)@.len(),
        forall|i: int|
            0 <= i < old(mem)@.len() && !(offset <= i < offset + len) ==> final(mem)@[i] == old(mem)@[i],
        forall|i: int| offset <= i < offset + len ==> final(mem)@[i] == 0,
    {
    let mut i: usize = 0;
    while i < len
        invariant
            i <= len,
            offset + len <= mem@.len(),
            mem.start == old(mem).start,
            mem@.len() == old(mem)@.len(),
            forall|j: int|
                0 <= j < old(mem)@.len() && !(offset <= j < offset + len) ==> mem@[j] == old(mem)@[j],
            forall|j: int| offset <= j < offset + i ==> mem@[j] == 0,
        decreases len - i,
    {
        mem.write_u8(0, offset, i);
        i = i + 1;
    }
}

/// Writes the RSDP at `offset`: signature "RSD PTR ", revision 2, the
/// XSDT address, and both checksums.
fn write_rsdp(mem: &mut MachVMBlock, offset: usize, xsdt_addr: u64)
    requires
        offset + 36 <= old(mem)@.len(),
    ensures
        final(mem).start == old(mem).start,
        final(mem)@.len() == old(mem)@.len(),
        forall|i: int|
            0 <= i < old(mem)@.len() && !(offset <= i < offset + 36) ==> final(mem)@[i] == old(mem)@[i],
        sum_bytes(final(mem)@.subrange(offset as int, offset + 20)) % 256 == 0,
        sum_bytes(final(mem)@.subrange(offset as int, offset + 36)) % 256 == 0,
        final(mem)@[offset + 0] == 0x52 && final(mem)@[offset + 1] == 0x53 && final(mem)@[offset
            + 2] == 0x44 && final(mem)@[offset + 3] == 0x20 && final(mem)@[offset + 4] == 0x50
            && final(mem)@[offset + 5] == 0x54 && final(mem)@[offset + 6] == 0x52 && final(mem)@[offset + 7] == 0x20,
        final(mem)@[offset + 15] == 2,
        le64_at(final(mem)@, offset + 24) == xsdt_addr,
    {
    let n0: usize = mem.size();
    zero_range(mem, offset, 36);
    mem.write_u8(0x52, offset, 0);
    mem.write_u8(0x53, offset, 1);
    mem.write_u8(0x44, offset, 2);
    mem.write_u8(0x20, offset, 3);
    mem.write_u8(0x50, offset, 4);
    mem.write_u8(0x54, offset, 5);
    mem.write_u8(0x52, offset, 6);
    mem.write_u8(0x20, offset, 7);
    mem.write_u8(2, offset, 15);
    mem.write_u32(36, offset + 20, 0);
    mem.write_u64(xsdt_addr, offset + 24, 0);
    let ghost filled = mem@;
    checksum_fix(mem, offset, 20, ACPI_RSDP_CHECKSUM_OFFSET);
    let ghost mid = mem@;
    checksum_fix(mem, offset, 36, ACPI_RSDP_XCHECKSUM_OFFSET);
    proof {
        assert(final(mem)@.subrange(offset as int, offset + 20) =~= mid.subrange(
            offset as int,
            offset + 20,
        ));
        assert(le64_at(final(mem)@, offset + 24) == le64_at(filled, offset + 24));
    }
}

/// Writes an ACPI table that consists of a header, a run of zero bytes,
/// and up to two 64-bit pointer slots, then fixes its checksum.  This
/// shape covers both the XSDT and the FADT.
fn write_header_table(
    mem: &mut MachVMBlock,
    offset: usize,
    sig: [u8; 4],
    len: usize,
    slot_a: usize,
    val_a: u64,
    slot_b: usize,
    val_b: u64,
)
    requires
        offset + len <= old(mem)@.len(),
        36 <= len <= 0xffffffff,
        36 <= slot_a,
        slot_a + 8 <= len,
        36 <= slot_b,
        slot_b + 8 <= len,
        slot_a == slot_b || slot_a + 8 <= slot_b,
    ensures
        final(mem).start == old(mem).start,
        final(mem)@.len() == old(mem)@.len(),
        forall|i: int|
            0 <= i < old(mem)@.len() && !(offset <= i < offset + len) ==> final(mem)@[i] == old(mem)@[i],
        sum_bytes(final(mem)@.subrange(offset as int, offset + len)) % 256 == 0,
        final(mem)@[offset + 0] == sig@[0] && final(mem)@[offset + 1] == sig@[1] && final(mem)@[offset + 2] == sig@[2] && final(mem)@[offset + 3] == sig@[3],
        le32_at(final(mem)@, offset + 4) == len,
        le64_at(final(mem)@, offset + slot_b) == val_b,
        slot_a + 8 <= slot_b ==> le64_at(final(mem)@, offset + slot_a) == val_a,
    {
    let n0: usize = mem.size();
    zero_range(mem, offset, len);
    let mut header = AcpiTableHeader::new();
    header.signature = sig;
    header.length = len as u32;
    write_acpi_header(mem, offset, &header);
    mem.write_u64(val_a, offset + slot_a, 0);
    mem.write_u64(val_b, offset + slot_b, 0);
    let ghost filled = mem@;
    checksum_fix(mem, offset, len, ACPI_TABLE_HEADER_CHECKSUM_OFFSET);
    proof {
        assert(le32_at(final(mem)@, offset + 4) == le32_at(filled, offset + 4));
        assert(le64_at(final(mem)@, offset + slot_b) == le64_at(filled, offset + slot_b));
        if slot_a + 8 <= slot_b {
            assert(le64_at(final(mem)@, offset + slot_a) == le64_at(filled, offset + slot_a));
        }
    }
}

/// Writes the fixed 36-byte DSDT blob at `offset`; the blob carries its
/// own checksum.
fn write_dsdt(mem: &mut MachVMBlock, offset: usize)
    requires
        offset + 36 <= old(mem)@.len(),
    ensures
        final(mem).start == old(mem).start,
        final(mem)@.len() == old(mem)@.len(),
        forall|i: int|
            0 <= i < old(mem)@.len() && !(offset <= i < offset + 36) ==> final(mem)@[i] == old(mem)@[i],
    {
    let dsdt_bytes: Vec<u8> = vec![
        0x44u8, 0x53u8, 0x44u8, 0x54u8, 0x24u8, 0x00u8, 0x00u8, 0x00u8,
        0x02u8, 0xf3u8, 0x4du8, 0x49u8, 0x4bu8, 0x45u8, 0x00u8, 0x00u8,
        0x44u8, 0x53u8, 0x44u8, 0x54u8, 0x54u8, 0x42u8, 0x4cu8, 0x00u8,
        0x00u8, 0x00u8, 0x00u8, 0x00u8, 0x49u8, 0x4eu8, 0x54u8, 0x4cu8,
        0x14u8, 0x02u8, 0x14u8, 0x20u8,
    ];
    mem.write_bytes(offset, dsdt_bytes.as_slice());
}

/// Local-APIC subtable `i` of a MADT whose subtables start at `base`:
/// type 0, length 8, processor id and APIC id `i`, enabled.
pub open spec fn madt_lapic_ok(s: Seq<u8>, base: int, i: int) -> bool {
    &&& s[base + 8 * i] == 0
    &&& s[base + 8 * i + 1] == 8
    &&& s[base + 8 * i + 2] == i
    &&& s[base + 8 * i + 3] == i
    &&& le32_at(s, base + 8 * i + 4) == 1
}

/// Local-x2APIC subtable `i` at `base`: type 9, length 16, APIC id and
/// UID `i`, enabled.
pub open spec fn madt_x2apic_ok(s: Seq<u8>, base: int, i: int) -> bool {
    &&& s[base + 16 * i] == 9
    &&& s[base + 16 * i + 1] == 16
    &&& le32_at(s, base + 16 * i + 4) == i
    &&& le32_at(s, base + 16 * i + 8) == 1
    &&& le32_at(s, base + 16 * i + 12) == i
}

/// Writes the MADT at `offset` for `cores` processors: the fixed part,
/// one local-APIC subtable per core, one I/O-APIC subtable, and one
/// x2APIC subtable per core, then fixes the checksum over the whole
/// table, which is `56 + 24 * cores` bytes long.
#[verifier::rlimit(100)]
#[verifier::spinoff_prover]
fn write_madt(mem: &mut MachVMBlock, offset: usize, cores: usize)
    requires
        1 <= cores <= 255,
        offset + 56 + 24 * cores <= old(mem)@.len(),
    ensures
        final(mem).start == old(mem).start,
        final(mem)@.len() == old(mem)@.len(),
        forall|i: int|
            0 <= i < old(mem)@.len() && !(offset <= i < offset + 56 + 24 * cores) ==> final(mem)@[i] == old(mem)@[i],
        sum_bytes(final(mem)@.subrange(offset as int, offset + 56 + 24 * cores)) % 256 == 0,
        final(mem)@[offset + 0] == 0x41 && final(mem)@[offset + 1] == 0x50 && final(mem)@[offset
            + 2] == 0x49 && final(mem)@[offset + 3] == 0x43,
        le32_at(final(mem)@, offset + 4) == 56 + 24 * cores,
        le32_at(final(mem)@, offset + 36) == APIC_GPA,
        forall|i: int| 0 <= i < cores ==> #[trigger] madt_lapic_ok(final(mem)@, offset + 44, i),
        final(mem)@[offset + 44 + 8 * cores] == 1,
        final(mem)@[offset + 44 + 8 * cores + 1] == 12,
        le32_at(final(mem)@, offset + 44 + 8 * cores + 4) == IO_APIC_BASE,
        forall|i: int|
            0 <= i < cores ==> #[trigger] madt_x2apic_ok(final(mem)@, offset + 56 + 8 * cores, i),
    {
    let n0: usize = mem.size();
    let madt_len = 56 + 24 * cores;
    let lapic_offset = offset + 44;
    let io_apic_offset = lapic_offset + 8 * cores;
    let x2_offset = io_apic_offset + 12;

    zero_range(mem, offset, madt_len);
    let mut header = AcpiTableHeader::new();
    header.signature = [0x41u8, 0x50u8, 0x49u8, 0x43u8];
    header.length = madt_len as u32;
    write_acpi_header(mem, offset, &header);
    mem.write_u32(APIC_GPA as u32, offset + 36, 0);
    mem.write_u32(0, offset + 40, 0);

    let ghost before_lapics = mem@;
    let mut i: usize = 0;
    while i < cores
        invariant
            i <= cores,
            cores <= 255,
            lapic_offset == offset + 44,
            offset + 56 + 24 * cores <= mem@.len(),
            mem.start == old(mem).start,
            mem@.len() == n0,
            mem@.len() == before_lapics.len(),
            forall|j: int|
                0 <= j < mem@.len() && !(lapic_offset <= j < lapic_offset + 8 * i) ==> mem@[j]
                    == before_lapics[j],
            forall|j: int| 0 <= j < i ==> #[trigger] madt_lapic_ok(mem@, lapic_offset as int, j),
        decreases cores - i,
    {
        let e = lapic_offset + 8 * i;
        let ghost pre_entry = mem@;
        mem.write_u8(0, e, 0);
        mem.write_u8(8, e, 1);
        mem.write_u8(i as u8, e, 2);
        mem.write_u8(i as u8, e, 3);
        mem.write_u32(1, e + 4, 0);
        proof {
            assert forall|j: int|
                0 <= j < i + 1 implies #[trigger] madt_lapic_ok(mem@, lapic_offset as int, j) by {
                if j < i {
                    assert(madt_lapic_ok(pre_entry, lapic_offset as int, j));
                    assert(le32_at(mem@, lapic_offset + 8 * j + 4) == le32_at(
                        pre_entry,
                        lapic_offset + 8 * j + 4,
                    ));
                }
            }
        }
        i = i + 1;
    }

    let ghost after_lapics = mem@;
    mem.write_u8(1, io_apic_offset, 0);
    mem.write_u8(12, io_apic_offset, 1);
    mem.write_u32(IO_APIC_BASE as u32, io_apic_offset + 4, 0);
    mem.write_u32(0, io_apic_offset + 8, 0);

    let ghost before_x2 = mem@;
    let mut k: usize = 0;
    while k < cores
        invariant
            k <= cores,
            cores <= 255,
            x2_offset == offset + 56 + 8 * cores,
            offset + 56 + 24 * cores <= mem@.len(),
            mem.start == old(mem).start,
            mem@.len() == n0,
            mem@.len() == before_x2.len(),
            forall|j: int|
                0 <= j < mem@.len() && !(x2_offset <= j < x2_offset + 16 * k) ==> mem@[j]
                    == before_x2[j],
            forall|j: int| 0 <= j < k ==> #[trigger] madt_x2apic_ok(mem@, x2_offset as int, j),
        decreases cores - k,
    {
        let e = x2_offset + 16 * k;
        let ghost pre_entry = mem@;
        mem.write_u8(9, e, 0);
        mem.write_u8(16, e, 1);
        mem.write_u32(k as u32, e + 4, 0);
        mem.write_u32(1, e + 8, 0);
        mem.write_u32(k as u32, e + 12, 0);
        proof {
            assert forall|j: int|
                0 <= j < k + 1 implies #[trigger] madt_x2apic_ok(mem@, x2_offset as int, j) by {
                if j < k {
                    assert(madt_x2apic_ok(pre_entry, x2_offset as int, j));
                    assert(le32_at(mem@, x2_offset + 16 * j + 4) == le32_at(
                        pre_entry,
                        x2_offset + 16 * j + 4,
                    ));
                    assert(le32_at(mem@, x2_offset + 16 * j + 8) == le32_at(
                        pre_entry,
                        x2_offset + 16 * j + 8,
                    ));
                    assert(le32_at(mem@, x2_offset + 16 * j + 12) == le32_at(
                        pre_entry,
                        x2_offset + 16 * j + 12,
                    ));
                }
            }
        }
        k = k + 1;
    }

    proof {
        assert(before_lapics[offset + 9] == 0);
        assert(before_x2[offset + 9] == 0);
        assert(mem@[offset + 9] == 0);
        assert forall|x: int|
            0 <= x < old(mem)@.len() && !(offset <= x < offset + 56 + 24 * cores) implies mem@[x]
            == old(mem)@[x] by {
            assert(mem@[x] == before_x2[x]);
            assert(before_x2[x] == before_lapics[x]);
            assert(before_lapics[x] == old(mem)@[x]);
        }
    }
    let ghost filled = mem@;
    checksum_fix(mem, offset, madt_len, ACPI_TABLE_HEADER_CHECKSUM_OFFSET);
    proof {
        // The header and address fields survive both subtable loops.
        assert forall|x: int| offset <= x < offset + 44 implies filled[x] == before_lapics[x] by {
            assert(filled[x] == before_x2[x]);
            assert(before_x2[x] == after_lapics[x]);
            assert(after_lapics[x] == before_lapics[x]);
        }
        assert(le32_at(filled, offset + 4) == le32_at(before_lapics, offset + 4));
        assert(le32_at(filled, offset + 36) == le32_at(before_lapics, offset + 36));
        assert(le32_at(final(mem)@, offset + 4) == le32_at(filled, offset + 4));
        assert(le32_at(final(mem)@, offset + 36) == le32_at(filled, offset + 36));
        // The local-APIC subtables survive the I/O-APIC stores and the
        // second loop.
        assert forall|x: int|
            lapic_offset <= x < lapic_offset + 8 * cores implies filled[x] == after_lapics[x] by {
            assert(filled[x] == before_x2[x]);
            assert(before_x2[x] == after_lapics[x]);
        }
        assert forall|i: int|
            0 <= i < cores implies #[trigger] madt_lapic_ok(final(mem)@, offset + 44, i) by {
            assert(madt_lapic_ok(after_lapics, lapic_offset as int, i));
            assert(le32_at(filled, lapic_offset + 8 * i + 4) == le32_at(
                after_lapics,
                lapic_offset + 8 * i + 4,
            ));
            assert(madt_lapic_ok(filled, lapic_offset as int, i));
            assert(le32_at(final(mem)@, lapic_offset + 8 * i + 4) == le32_at(
                filled,
                lapic_offset + 8 * i + 4,
            ));
        }
        // The I/O-APIC subtable survives the second loop.
        assert forall|x: int|
            io_apic_offset <= x < io_apic_offset + 12 implies filled[x] == before_x2[x] by {}
        assert(le32_at(filled, io_apic_offset + 4) == le32_at(before_x2, io_apic_offset + 4));
        assert(le32_at(final(mem)@, io_apic_offset + 4) == le32_at(filled, io_apic_offset + 4));
        // The x2APIC subtables are the last thing written before the
        // checksum.
        assert forall|i: int|
            0 <= i < cores implies #[trigger] madt_x2apic_ok(final(mem)@, offset + 56 + 8
            * cores, i) by {
            assert(madt_x2apic_ok(filled, x2_offset as int, i));
            assert(le32_at(final(mem)@, x2_offset + 16 * i + 4) == le32_at(
                filled,
                x2_offset + 16 * i + 4,
            ));
            assert(le32_at(final(mem)@, x2_offset + 16 * i + 8) == le32_at(
                filled,
                x2_offset + 16 * i + 8,
            ));
            assert(le32_at(final(mem)@, x2_offset + 16 * i + 12) == le32_at(
                filled,
                x2_offset + 16 * i + 12,
            ));
        }
    }
}


/// Emits the BIOS tables for `cores` processors at offset `start` of the
/// low-memory region and returns the page-rounded number of bytes used.
///
/// The layout is contiguous: the RSDP at `start`, the XSDT at
/// `start + 36`, the FADT at `start + 144`, the DSDT at `start + 420`,
/// and the MADT at `start + 456`.  After the call the byte sum, modulo
/// 256, over each emitted table -- the RSDP under both of its checksums,
/// the XSDT, the FADT and the MADT -- is zero, and nothing outside
/// `[start, start + 512 + 24 * cores)` has changed.
#[verifier::rlimit(100)]
#[verifier::spinoff_prover]
pub fn setup_bios_tables(cores: u32, start: usize, low_mem: &mut MachVMBlock) -> (r: usize)
    requires
        1 <= cores <= 255,
        start + 512 + 24 * (cores as int) <= old(low_mem)@.len(),
    ensures
        final(low_mem).start == old(low_mem).start,
        final(low_mem)@.len() == old(low_mem)@.len(),
        forall|i: int|
            0 <= i < old(low_mem)@.len() && !(start <= i < start + 512 + 24 * (cores as int))
                ==> final(low_mem)@[i] == old(low_mem)@[i],
        r % 4096 == 0,
        512 + 24 * (cores as int) <= r < 512 + 24 * (cores as int) + 4096,
        sum_bytes(final(low_mem)@.subrange(start as int, start + 20)) % 256 == 0,
        sum_bytes(final(low_mem)@.subrange(start as int, start + 36)) % 256 == 0,
        sum_bytes(final(low_mem)@.subrange(start + 36, start + 144)) % 256 == 0,
        sum_bytes(final(low_mem)@.subrange(start + 144, start + 420)) % 256 == 0,
        sum_bytes(
            final(low_mem)@.subrange(start + 456, start + 512 + 24 * (cores as int)),
        ) % 256 == 0,
        final(low_mem)@[start + 0] == 0x52 && final(low_mem)@[start + 1] == 0x53 && final(low_mem)@[start + 2] == 0x44 && final(low_mem)@[start + 3] == 0x20 && final(low_mem)@[start + 4]
            == 0x50 && final(low_mem)@[start + 5] == 0x54 && final(low_mem)@[start + 6] == 0x52
            && final(low_mem)@[start + 7] == 0x20,
        le64_at(final(low_mem)@, start + 24) == start + 36,
        final(low_mem)@[start + 36] == 0x58 && final(low_mem)@[start + 37] == 0x53 && final(low_mem)@[start + 38] == 0x44 && final(low_mem)@[start + 39] == 0x54,
        le64_at(final(low_mem)@, start + 72) == start + 144,
        le64_at(final(low_mem)@, start + 96) == start + 456,
        final(low_mem)@[start + 144] == 0x46 && final(low_mem)@[start + 145] == 0x41 && final(low_mem)@[start + 146] == 0x43 && final(low_mem)@[start + 147] == 0x50,
        le64_at(final(low_mem)@, start + 284) == start + 420,
        final(low_mem)@[start + 456] == 0x41 && final(low_mem)@[start + 457] == 0x50 && final(low_mem)@[start + 458] == 0x49 && final(low_mem)@[start + 459] == 0x43,
        le32_at(final(low_mem)@, start + 460) == 56 + 24 * (cores as int),
        le32_at(final(low_mem)@, start + 492) == APIC_GPA,
        forall|i: int|
            0 <= i < cores ==> #[trigger] madt_lapic_ok(final(low_mem)@, start + 500, i),
        final(low_mem)@[start + 500 + 8 * (cores as int)] == 1,
        le32_at(final(low_mem)@, start + 500 + 8 * (cores as int) + 4) == IO_APIC_BASE,
        forall|i: int|
            0 <= i < cores ==> #[trigger] madt_x2apic_ok(
                final(low_mem)@,
                start + 512 + 8 * (cores as int),
                i,
            ),
    {
    let n0: usize = low_mem.size();
    let cores_sz = cores as usize;
    let xsdt_offset = start + 36;
    let fadt_offset = start + 144;
    let dsdt_offset = start + 420;
    let madt_offset = start + 456;
    let total_size = 512 + 24 * cores_sz;

    write_rsdp(low_mem, start, xsdt_offset as u64);
    let ghost after_rsdp = low_mem@;
    // XSDT: header plus nine 64-bit slots; slot 0 names the FADT and
    // slot 3 the MADT.
    write_header_table(
        low_mem,
        xsdt_offset,
        [0x58u8, 0x53u8, 0x44u8, 0x54u8],
        108,
        36,
        fadt_offset as u64,
        60,
        madt_offset as u64,
    );
    let ghost after_xsdt = low_mem@;
    // FADT: header plus the 64-bit DSDT pointer at offset 140.
    write_header_table(
        low_mem,
        fadt_offset,
        [0x46u8, 0x41u8, 0x43u8, 0x50u8],
        276,
        140,
        dsdt_offset as u64,
        140,
        dsdt_offset as u64,
    );
    let ghost after_fadt = low_mem@;
    write_dsdt(low_mem, dsdt_offset);
    write_madt(low_mem, madt_offset, cores_sz);
    proof {
        assert(final(low_mem)@.subrange(start as int, start + 20) =~= after_rsdp.subrange(
            start as int,
            start + 20,
        ));
        assert(final(low_mem)@.subrange(start as int, start + 36) =~= after_rsdp.subrange(
            start as int,
            start + 36,
        ));
        assert(final(low_mem)@.subrange(start + 36, start + 144) =~= after_xsdt.subrange(
            start + 36,
            start + 144,
        ));
        assert(final(low_mem)@.subrange(start + 144, start + 420) =~= after_fadt.subrange(
            start + 144,
            start + 420,
        ));
        assert(le64_at(final(low_mem)@, start + 24) == le64_at(after_rsdp, start + 24));
        assert(le64_at(final(low_mem)@, start + 72) == le64_at(after_xsdt, start + 72));
        assert(le64_at(final(low_mem)@, start + 96) == le64_at(after_xsdt, start + 96));
        assert(le64_at(final(low_mem)@, start + 284) == le64_at(after_fadt, start + 284));
    }
    crate::utils::round_up_4k(total_size)
}

} // verus!
