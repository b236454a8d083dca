//! The header that every ACPI System Description Table starts with.

use crate::efi::latin1_char;
use crate::layout::{le_u32, read_u32_le};
use crate::layout::lemma_le_u32_value;
use crate::signature::{
    lemma_signature_32_value, lemma_signature_round_trip, signature_byte_at, signature_chars,
    spec_signature_32,
};
use crate::AcpiHeadeds;
use vstd::prelude::*;

verus! {

/// The number of bytes that an SDT header occupies.
pub const SDT_HEADER_SIZE: usize = 36;

/// The common SDT header: a flat 36-byte record, held here field by field.
///
/// No field is validated: the length and the checksum are whatever the
/// firmware published.
#[derive(Clone, Copy, Debug, PartialEq, Eq)]
pub struct EfiAcpiSdtHeader {
    /// The table's four-character tag, packed first character lowest.
    pub signature: u32,
    /// The length of the whole table in bytes, header included.
    pub lenght: u32,
    pub revision: u8,
    pub checksum: u8,
    pub oem_id: [u8; 6],
    pub oem_table_id: [u8; 8],
    pub oem_revision: u32,
    pub creator_id: u32,
    pub creator_revision: u32,
}

/// The six bytes of `bytes` that start at offset `at`.
pub open spec fn bytes_6(bytes: Seq<u8>, at: int) -> [u8; 6] {
    [bytes[at], bytes[at + 1], bytes[at + 2], bytes[at + 3], bytes[at + 4], bytes[at + 5]]
}

/// The eight bytes of `bytes` that start at offset `at`.
pub open spec fn bytes_8(bytes: Seq<u8>, at: int) -> [u8; 8] {
    [
        bytes[at],
        bytes[at + 1],
        bytes[at + 2],
        bytes[at + 3],
        bytes[at + 4],
        bytes[at + 5],
        bytes[at + 6],
        bytes[at + 7],
    ]
}

/// The header that the first 36 bytes of `bytes` hold.
pub open spec fn sdt_header_at(bytes: Seq<u8>) -> EfiAcpiSdtHeader
    recommends
        bytes.len() >= SDT_HEADER_SIZE,
{
    EfiAcpiSdtHeader {
        signature: le_u32(bytes, 0),
        lenght: le_u32(bytes, 4),
        revision: bytes[8],
        checksum: bytes[9],
        oem_id: bytes_6(bytes, 10),
        oem_table_id: bytes_8(bytes, 16),
        oem_revision: le_u32(bytes, 24),
        creator_id: le_u32(bytes, 28),
        creator_revision: le_u32(bytes, 32),
    }
}

/// Reads the header at the start of `bytes`, which holds at least 36 bytes.
pub fn read_sdt_header(bytes: &[u8]) -> (header: EfiAcpiSdtHeader)
    requires
        bytes.len() >= SDT_HEADER_SIZE,
    ensures
        header == sdt_header_at(bytes@),
{
    let oem_id: [u8; 6] = [bytes[10], bytes[11], bytes[12], bytes[13], bytes[14], bytes[15]];
    let oem_table_id: [u8; 8] = [
        bytes[16],
        bytes[17],
        bytes[18],
        bytes[19],
        bytes[20],
        bytes[21],
        bytes[22],
        bytes[23],
    ];
    assert(oem_id@ =~= bytes_6(bytes@, 10)@);
    assert(oem_table_id@ =~= bytes_8(bytes@, 16)@);
    EfiAcpiSdtHeader {
        signature: read_u32_le(bytes, 0),
        lenght: read_u32_le(bytes, 4),
        revision: bytes[8],
        checksum: bytes[9],
        oem_id,
        oem_table_id,
        oem_revision: read_u32_le(bytes, 24),
        creator_id: read_u32_le(bytes, 28),
        creator_revision: read_u32_le(bytes, 32),
    }
}

/// The text that renders a header for diagnostics, given the header and the
/// four characters of its signature. It is what `format!` makes of them.
pub uninterp spec fn header_text(header: EfiAcpiSdtHeader, tag: Seq<char>) -> Seq<char>;

/// Renders a header with `format!`, one field per line. The two OEM
/// identifiers are shown as arrays of `uefi::Char8`, as the tag `tag` is
/// shown as an array of characters.
///
/// Trusted: formatting depends on the arguments alone, so the text is the
/// one that `header_text` names for them. Nothing else is claimed of it.
#[verifier::external_body]
fn format_header(header: &EfiAcpiSdtHeader, tag: &[char; 4]) -> (text: String)
    ensures
        text@ == header_text(*header, tag@),
{
    format!(
        "  Table (signature (0x{:x}): {:?})\n  Lenght: {}\n  Revision: {}\n  Checksum: {}\n  OEM ID: {:?}\n  OEM Table ID: {:?}\n  OEM Revision: 0x{:x}\n  Creator ID: 0x{:x}\n  Creator revision: 0x{:x}\n",
        header.signature,
        tag,
        header.lenght,
        header.revision,
        header.checksum,
        header.oem_id.map(uefi::Char8::from),
        header.oem_table_id.map(uefi::Char8::from),
        header.oem_revision,
        header.creator_id,
        header.creator_revision,
    )
}

impl EfiAcpiSdtHeader {
    /// The packed four-character tag.
    pub fn signature(&self) -> (sig: u32)
        ensures
            sig == self.signature,
    {
        self.signature
    }

    /// The tag as four characters in reading order. For diagnostics only:
    /// signatures are compared as integers.
    pub fn char8_signature(&self) -> (chars: [char; 4])
        ensures
            chars@ == signature_chars(self.signature),
    {
        let sig = self.signature;
        let chars: [char; 4] = [
            latin1_char(signature_byte_at(sig, 0)),
            latin1_char(signature_byte_at(sig, 1)),
            latin1_char(signature_byte_at(sig, 2)),
            latin1_char(signature_byte_at(sig, 3)),
        ];
        assert(chars@ =~= signature_chars(sig));
        chars
    }

    /// The length of the whole table in bytes, as the firmware states it.
    pub fn lenght(&self) -> (length: u32)
        ensures
            length == self.lenght,
    {
        self.lenght
    }

    pub fn oem_revision(&self) -> (revision: u32)
        ensures
            revision == self.oem_revision,
    {
        self.oem_revision
    }

    pub fn creator_id(&self) -> (id: u32)
        ensures
            id == self.creator_id,
    {
        self.creator_id
    }

    pub fn creator_revision(&self) -> (revision: u32)
        ensures
            revision == self.creator_revision,
    {
        self.creator_revision
    }

    /// A text dump of all fields, one per line, for diagnostics.
    pub fn render(&self) -> (text: String)
        ensures
            text@ == header_text(*self, signature_chars(self.signature)),
    {
        let tag = self.char8_signature();
        format_header(self, &tag)
    }
}

/// What the bare header fixes as a table type: its size is that of a header,
/// and its signature is 0.
pub proof fn lemma_header_constants()
    ensures
        EfiAcpiSdtHeader::SIZE == SDT_HEADER_SIZE,
        EfiAcpiSdtHeader::ACPI_TYPE == 0,
{
}

/// The signature of a decoded header packs the first four bytes of the
/// region, first byte lowest, and reads back as those four bytes.
pub proof fn lemma_signature_of_bytes(bytes: Seq<u8>)
    ensures
        sdt_header_at(bytes).signature == spec_signature_32(
            bytes[0] as char,
            bytes[1] as char,
            bytes[2] as char,
            bytes[3] as char,
        ),
        signature_chars(sdt_header_at(bytes).signature) == seq![
            bytes[0] as char,
            bytes[1] as char,
            bytes[2] as char,
            bytes[3] as char,
        ],
{
    let a = bytes[0] as char;
    let b = bytes[1] as char;
    let c = bytes[2] as char;
    let d = bytes[3] as char;
    lemma_le_u32_value(bytes, 0);
    lemma_signature_32_value(a, b, c, d);
    lemma_signature_round_trip(a, b, c, d);
}

/// A bare header is a table of its own, with the signature 0.
impl AcpiHeadeds for EfiAcpiSdtHeader {
    const SIZE: usize = SDT_HEADER_SIZE;

    open spec fn decoded(bytes: Seq<u8>) -> Self {
        sdt_header_at(bytes)
    }

    open spec fn spec_header(&self) -> EfiAcpiSdtHeader {
        *self
    }

    fn decode(bytes: &[u8]) -> (table: Option<Self>)
        ensures
            table == if bytes@.len() >= SDT_HEADER_SIZE {
                Some(sdt_header_at(bytes@))
            } else {
                None
            },
    {
        if bytes.len() >= SDT_HEADER_SIZE {
            Some(read_sdt_header(bytes))
        } else {
            None
        }
    }

    fn get_header(&self) -> (header: EfiAcpiSdtHeader) {
        *self
    }

    proof fn lemma_header_first(bytes: Seq<u8>) {
    }
}

} // verus!
