use xhype::bios::acpi_tb_checksum;
use xhype::bios::gencsum;
use xhype::bios::setup_bios_tables;
use xhype::bios::ACPI_DSDT_SIZE;
use xhype::bios::ACPI_FADT_SIZE;
use xhype::bios::ACPI_MADT_IO_APIC_SIZE;
use xhype::bios::ACPI_MADT_LOCAL_APIC_SIZE;
use xhype::bios::ACPI_MADT_LOCAL_X2APIC_SIZE;
use xhype::bios::ACPI_MADT_SIZE;
use xhype::bios::ACPI_RSDP_SIZE;
use xhype::bios::ACPI_TABLE_HEADER_SIZE;
use xhype::mach::MachVMBlock;

#[test]
fn bios_bois_table_struct_test() {
    assert_eq!(ACPI_RSDP_SIZE, 36);
    assert_eq!(ACPI_TABLE_HEADER_SIZE, 36);
    assert_eq!(ACPI_FADT_SIZE, 276);
    assert_eq!(ACPI_MADT_SIZE, 44);
    assert_eq!(ACPI_MADT_LOCAL_APIC_SIZE, 8);
    assert_eq!(ACPI_MADT_IO_APIC_SIZE, 12);
    assert_eq!(ACPI_MADT_LOCAL_X2APIC_SIZE, 16);
}

#[test]
fn loader_bois_table_struct_test() {
    assert_eq!(ACPI_RSDP_SIZE, 36);
    assert_eq!(ACPI_TABLE_HEADER_SIZE, 36);
    assert_eq!(ACPI_FADT_SIZE, 276);
    assert_eq!(ACPI_MADT_SIZE, 44);
    assert_eq!(ACPI_MADT_LOCAL_APIC_SIZE, 8);
    assert_eq!(ACPI_MADT_IO_APIC_SIZE, 12);
    assert_eq!(ACPI_MADT_LOCAL_X2APIC_SIZE, 16);
    assert_eq!(ACPI_DSDT_SIZE, 36);
}

// Reading each ACPI table right after emission yields a byte sum of zero
// modulo 256 over the table's length.
#[test]
fn bios_checksum_roundtrip_test() {
    let mut low_mem = MachVMBlock::new(1 << 20).unwrap();
    let start = 0xe0000;
    let used = setup_bios_tables(1, start, &mut low_mem);
    assert_eq!(used, 4096);
    // RSDP, both checksums.
    let rsdp20 = low_mem.read_bytes(start, 20);
    assert_eq!(acpi_tb_checksum(&rsdp20), 0);
    let rsdp36 = low_mem.read_bytes(start, 36);
    assert_eq!(acpi_tb_checksum(&rsdp36), 0);
    // XSDT: header plus nine 64-bit slots.
    let xsdt = low_mem.read_bytes(start + 36, 108);
    assert_eq!(acpi_tb_checksum(&xsdt), 0);
    // FADT.
    let fadt = low_mem.read_bytes(start + 144, 276);
    assert_eq!(acpi_tb_checksum(&fadt), 0);
    // DSDT: the blob carries its own checksum.
    let dsdt = low_mem.read_bytes(start + 420, 36);
    assert_eq!(acpi_tb_checksum(&dsdt), 0);
    // MADT with one core: 44 + 8 + 12 + 16 bytes.
    let madt = low_mem.read_bytes(start + 456, 80);
    assert_eq!(acpi_tb_checksum(&madt), 0);
    // Signatures land where the XSDT points.
    assert_eq!(low_mem.read_bytes(start, 8), b"RSD PTR ".to_vec());
    assert_eq!(low_mem.read_bytes(start + 36, 4), b"XSDT".to_vec());
    assert_eq!(low_mem.read_bytes(start + 144, 4), b"FACP".to_vec());
    assert_eq!(low_mem.read_bytes(start + 456, 4), b"APIC".to_vec());
}

#[test]
fn gencsum_balances_test() {
    let data = vec![1u8, 2, 3, 250, 251, 252];
    let fix = gencsum(&data);
    let mut patched = data.clone();
    patched.push(fix);
    assert_eq!(acpi_tb_checksum(&patched), 0);
}
