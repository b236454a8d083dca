use acpi_sdt::signature::signature_32;
use acpi_sdt::types::bgrt::{BGRT_SIGNATURE, BGRT_SIZE};
use acpi_sdt::{AcpiHeadeds, EfiAcpiBootGraphicsResourceTable, EfiAcpiSdtHeader};

fn bgrt_bytes(address: u64, x: u32, y: u32) -> Vec<u8> {
    let mut bytes = Vec::new();
    bytes.extend_from_slice(b"BGRT");
    bytes.extend_from_slice(&56u32.to_le_bytes());
    bytes.push(1); // revision
    bytes.push(0x3c); // checksum
    bytes.extend_from_slice(b"INTEL ");
    bytes.extend_from_slice(b"EDK2    ");
    bytes.extend_from_slice(&2u32.to_le_bytes());
    bytes.extend_from_slice(&0x2020_2020u32.to_le_bytes());
    bytes.extend_from_slice(&0x0100_0013u32.to_le_bytes());
    bytes.extend_from_slice(&1u16.to_le_bytes()); // version
    bytes.push(1); // status
    bytes.push(0); // image type
    bytes.extend_from_slice(&address.to_le_bytes());
    bytes.extend_from_slice(&x.to_le_bytes());
    bytes.extend_from_slice(&y.to_le_bytes());
    bytes
}

#[test]
fn bgrt_accessor_passthrough() {
    let bytes = bgrt_bytes(0x1000_0000, 100, 200);
    let table = EfiAcpiBootGraphicsResourceTable::decode(&bytes).unwrap();
    assert_eq!(table.address(), 0x1000_0000);
    assert_eq!(table.offset(), (100, 200));
}

#[test]
fn bgrt_accessors_apply_no_transformation() {
    let table = EfiAcpiBootGraphicsResourceTable::decode(&bgrt_bytes(u64::MAX, u32::MAX, 0)).unwrap();
    assert_eq!(table.address(), u64::MAX);
    assert_eq!(table.offset(), (u32::MAX, 0));
    let table = EfiAcpiBootGraphicsResourceTable::decode(&bgrt_bytes(0, 0, u32::MAX)).unwrap();
    assert_eq!(table.address(), 0);
    assert_eq!(table.offset(), (0, u32::MAX));
}

#[test]
fn bgrt_decodes_every_field() {
    let bytes = bgrt_bytes(0x0123_4567_89ab_cdef, 0x0a0b_0c0d, 0x0102_0304);
    assert_eq!(bytes.len(), 56);
    let table = EfiAcpiBootGraphicsResourceTable::decode(&bytes).unwrap();
    assert_eq!(
        table,
        EfiAcpiBootGraphicsResourceTable {
            header: EfiAcpiSdtHeader {
                signature: 0x5452_4742,
                lenght: 56,
                revision: 1,
                checksum: 0x3c,
                oem_id: *b"INTEL ",
                oem_table_id: *b"EDK2    ",
                oem_revision: 2,
                creator_id: 0x2020_2020,
                creator_revision: 0x0100_0013,
            },
            version: 1,
            status: 1,
            image_type: 0,
            image_address: 0x0123_4567_89ab_cdef,
            image_offset_x: 0x0a0b_0c0d,
            image_offset_y: 0x0102_0304,
        }
    );
}

#[test]
fn bgrt_header_is_the_leading_header() {
    let bytes = bgrt_bytes(0x1000_0000, 100, 200);
    let table = EfiAcpiBootGraphicsResourceTable::decode(&bytes).unwrap();
    assert_eq!(Some(table.get_header()), EfiAcpiSdtHeader::decode(&bytes));
    assert_eq!(table.get_header().signature(), BGRT_SIGNATURE);
    assert_eq!(table.get_header().char8_signature(), ['B', 'G', 'R', 'T']);
}

#[test]
fn bgrt_needs_56_bytes() {
    assert_eq!(BGRT_SIZE, 56);
    assert_eq!(<EfiAcpiBootGraphicsResourceTable as AcpiHeadeds>::SIZE, 56);
    let bytes = bgrt_bytes(0x1000_0000, 100, 200);
    assert_eq!(EfiAcpiBootGraphicsResourceTable::decode(&bytes[..55]), None);
    assert_eq!(EfiAcpiBootGraphicsResourceTable::decode(&bytes[..36]), None);
    assert!(EfiAcpiBootGraphicsResourceTable::decode(&bytes[..56]).is_some());
}

#[test]
fn bgrt_signature_is_its_packed_tag() {
    assert_eq!(BGRT_SIGNATURE, signature_32('B', 'G', 'R', 'T'));
    assert_eq!(<EfiAcpiBootGraphicsResourceTable as AcpiHeadeds>::ACPI_TYPE, BGRT_SIGNATURE);
    assert_eq!(BGRT_SIGNATURE, 0x5452_4742);
}

#[test]
fn bgrt_render_lists_header_and_fields() {
    let table = EfiAcpiBootGraphicsResourceTable::decode(&bgrt_bytes(0x1000_0000, 100, 200)).unwrap();
    let expected = "  [BGRT] Header:   Table (signature (0x54524742): ['B', 'G', 'R', 'T'])\n  \
                    Lenght: 56\n  \
                    Revision: 1\n  \
                    Checksum: 60\n  \
                    OEM ID: ['I', 'N', 'T', 'E', 'L', ' ']\n  \
                    OEM Table ID: ['E', 'D', 'K', '2', ' ', ' ', ' ', ' ']\n  \
                    OEM Revision: 0x2\n  \
                    Creator ID: 0x20202020\n  \
                    Creator revision: 0x1000013\n\n  \
                    [BGRT] Version ID: 1\n  \
                    [BGRT] Image Type: 0\n  \
                    [BGRT] Image Address: 0x10000000\n  \
                    [BGRT] Image OffsetX: 100\n  \
                    [BGRT] Image OffsetY: 200\n";
    assert_eq!(table.render(), expected);
    assert_eq!(table.render(), format!("  [BGRT] Header: {}\n  [BGRT] Version ID: 1\n  [BGRT] Image Type: 0\n  [BGRT] Image Address: 0x10000000\n  [BGRT] Image OffsetX: 100\n  [BGRT] Image OffsetY: 200\n", table.header.render()));
}
