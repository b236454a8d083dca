//! Locating and decoding ACPI System Description Tables.
//!
//! The crate models the fixed layout of an SDT header and of the Boot
//! Graphics Resource Table, decodes both from little-endian byte regions, and
//! decides, answer by answer, which table an enumeration of the firmware's
//! tables yields for a requested signature.

use vstd::prelude::*;

pub mod acpi_sdt_hdr;
pub mod efi;
pub mod layout;
pub mod locate;
pub mod protocol;
pub mod signature;
pub mod types;

pub use crate::acpi_sdt_hdr::EfiAcpiSdtHeader;
pub use crate::protocol::{AcpiSdt, EfiAcpiDataType, EfiAcpiTableVersion};
pub use crate::types::bgrt::EfiAcpiBootGraphicsResourceTable;

verus! {

/// A table type that starts with the common SDT header.
///
/// An implementation fixes the signature that identifies its tables, the
/// number of bytes that one table occupies, and how those bytes decode. The
/// values of the two constants are private to the implementing module: each
/// implementation states them in a lemma beside it.
pub trait AcpiHeadeds: Sized {
    /// The signature that identifies tables of this type, packed like
    /// `EfiAcpiSdtHeader::signature`.
    const ACPI_TYPE: u32 = 0u32;

    /// The number of bytes that a table of this type occupies.
    const SIZE: usize;

    /// The table that the first `SIZE` bytes of `bytes` hold.
    spec fn decoded(bytes: Seq<u8>) -> Self;

    /// The header embedded in the table.
    spec fn spec_header(&self) -> EfiAcpiSdtHeader;

    /// Decodes the table at the start of `bytes`. A region shorter than the
    /// table holds none.
    fn decode(bytes: &[u8]) -> (table: Option<Self>)
        ensures
            table == if bytes@.len() >= Self::SIZE {
                Some(Self::decoded(bytes@))
            } else {
                None
            },
    ;

    /// Returns the embedded header by value.
    fn get_header(&self) -> (header: EfiAcpiSdtHeader)
        ensures
            header == self.spec_header(),
    ;

    /// The header is the table's first field: a table is at least as long as
    /// a header, and its header is what the first 36 bytes of the region hold.
    proof fn lemma_header_first(bytes: Seq<u8>)
        requires
            bytes.len() >= Self::SIZE,
        ensures
            Self::SIZE >= acpi_sdt_hdr::SDT_HEADER_SIZE,
            Self::decoded(bytes).spec_header() == acpi_sdt_hdr::sdt_header_at(bytes),
    ;
}

} // verus!
