//! The Boot Graphics Resource Table, which points at the boot splash image.

use crate::acpi_sdt_hdr::{header_text, read_sdt_header, sdt_header_at, EfiAcpiSdtHeader};
use crate::layout::{le_u16, le_u32, le_u64, read_u16_le, read_u32_le, read_u64_le};
use crate::signature::{lemma_signature_32_value, signature_chars, spec_signature_32};
use crate::AcpiHeadeds;
use vstd::prelude::*;

verus! {

/// The signature of the table: the tag "BGRT", packed first character lowest.
pub const BGRT_SIGNATURE: u32 = 0x5452_4742;

/// The number of bytes that the table occupies.
pub const BGRT_SIZE: usize = 56;

/// "BGRT" Boot Graphics Resource Table: the common header followed by the
/// description of the boot image.
#[derive(Clone, Copy, Debug, PartialEq, Eq)]
pub struct EfiAcpiBootGraphicsResourceTable {
    pub header: EfiAcpiSdtHeader,
    pub version: u16,
    pub status: u8,
    pub image_type: u8,
    /// The memory address of the image, as the firmware published it.
    pub image_address: u64,
    /// The horizontal placement of the image on the screen, in pixels.
    pub image_offset_x: u32,
    /// The vertical placement of the image on the screen, in pixels.
    pub image_offset_y: u32,
}

/// The table that the first 56 bytes of `bytes` hold.
pub open spec fn bgrt_at(bytes: Seq<u8>) -> EfiAcpiBootGraphicsResourceTable
    recommends
        bytes.len() >= BGRT_SIZE,
{
    EfiAcpiBootGraphicsResourceTable {
        header: sdt_header_at(bytes),
        version: le_u16(bytes, 36),
        status: bytes[38],
        image_type: bytes[39],
        image_address: le_u64(bytes, 40),
        image_offset_x: le_u32(bytes, 48),
        image_offset_y: le_u32(bytes, 52),
    }
}

/// The text that renders a table for diagnostics, given the text of its
/// header and the table. It is what `format!` makes of them.
pub uninterp spec fn bgrt_text(header: Seq<char>, table: EfiAcpiBootGraphicsResourceTable) -> Seq<
    char,
>;

/// Renders a table with `format!`, one field per line after the text of the
/// header.
///
/// Trusted: formatting depends on the arguments alone, so the text is the
/// one that `bgrt_text` names for them. Nothing else is claimed of it.
#[verifier::external_body]
fn format_bgrt(header: &str, table: &EfiAcpiBootGraphicsResourceTable) -> (text: String)
    ensures
        text@ == bgrt_text(header@, *table),
{
    format!(
        "  [BGRT] Header: {}\n  [BGRT] Version ID: {}\n  [BGRT] Image Type: {}\n  [BGRT] Image Address: 0x{:x}\n  [BGRT] Image OffsetX: {}\n  [BGRT] Image OffsetY: {}\n",
        header,
        table.version,
        table.image_type,
        table.image_address,
        table.image_offset_x,
        table.image_offset_y,
    )
}

impl EfiAcpiBootGraphicsResourceTable {
    /// The memory address of the boot image. It is passed through as found:
    /// nothing says that the address is mapped.
    pub fn address(&self) -> (address: u64)
        ensures
            address == self.image_address,
    {
        self.image_address
    }

    /// The (x, y) placement of the image on the screen, passed through as
    /// found. These are coordinates, not the image's dimensions.
    pub fn offset(&self) -> (offset: (u32, u32))
        ensures
            offset == (self.image_offset_x, self.image_offset_y),
    {
        (self.image_offset_x, self.image_offset_y)
    }

    /// A text dump of the table, the header first, one field per line, each
    /// line of the table's own marked with its tag.
    pub fn render(&self) -> (text: String)
        ensures
            text@ == bgrt_text(
                header_text(self.header, signature_chars(self.header.signature)),
                *self,
            ),
    {
        let header = self.header.render();
        format_bgrt(header.as_str(), self)
    }
}

impl AcpiHeadeds for EfiAcpiBootGraphicsResourceTable {
    const ACPI_TYPE: u32 = BGRT_SIGNATURE;

    const SIZE: usize = BGRT_SIZE;

    open spec fn decoded(bytes: Seq<u8>) -> Self {
        bgrt_at(bytes)
    }

    open spec fn spec_header(&self) -> EfiAcpiSdtHeader {
        self.header
    }

    fn decode(bytes: &[u8]) -> (table: Option<Self>)
        ensures
            table == if bytes@.len() >= BGRT_SIZE {
                Some(bgrt_at(bytes@))
            } else {
                None
            },
    {
        if bytes.len() >= BGRT_SIZE {
            Some(
                EfiAcpiBootGraphicsResourceTable {
                    header: read_sdt_header(bytes),
                    version: read_u16_le(bytes, 36),
                    status: bytes[38],
                    image_type: bytes[39],
                    image_address: read_u64_le(bytes, 40),
                    image_offset_x: read_u32_le(bytes, 48),
                    image_offset_y: read_u32_le(bytes, 52),
                },
            )
        } else {
            None
        }
    }

    fn get_header(&self) -> (header: EfiAcpiSdtHeader) {
        self.header
    }

    proof fn lemma_header_first(bytes: Seq<u8>) {
    }
}

/// What the table type fixes: its signature is the tag "BGRT", packed first
/// character lowest, and a table occupies 56 bytes.
pub proof fn lemma_bgrt_constants()
    ensures
        BGRT_SIGNATURE == spec_signature_32('B', 'G', 'R', 'T'),
        EfiAcpiBootGraphicsResourceTable::ACPI_TYPE == BGRT_SIGNATURE,
        EfiAcpiBootGraphicsResourceTable::SIZE == BGRT_SIZE,
{
    lemma_signature_32_value('B', 'G', 'R', 'T');
}

} // verus!
