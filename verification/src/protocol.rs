//! The ACPI SDT protocol as the library sees it: the version bitmap and the
//! table enumeration, held in memory.

use crate::efi::status_is_success;
use crate::locate::{
    calls_made, decides_at, decision_index, ends_in_failure, fits, fits_until_decided,
    lemma_decision_index_from, located, passes_over, EnumerationCursor, LocateReport, LocateStep,
    LocateError, TableReply,
};
use crate::AcpiHeadeds;
use vstd::prelude::*;

verus! {

/// EfiAcpiTableVersion defines the supported versions of ACPI. Each version
/// stands for one bit of a bitmap.
#[derive(Clone, Copy, Debug, PartialEq, Eq)]
pub enum EfiAcpiTableVersion {
    VersionNone,
    Version1,
    Version2,
    Version3,
    Version4,
    Version5,
}

/// The bit that a version stands for: bit 0 for `VersionNone`, bit `n` for version
/// `n`.
pub open spec fn version_bits(version: EfiAcpiTableVersion) -> u32 {
    match version {
        EfiAcpiTableVersion::VersionNone => 1,
        EfiAcpiTableVersion::Version1 => 2,
        EfiAcpiTableVersion::Version2 => 4,
        EfiAcpiTableVersion::Version3 => 8,
        EfiAcpiTableVersion::Version4 => 16,
        EfiAcpiTableVersion::Version5 => 32,
    }
}

/// The version that stands for exactly the bit `bits`, if there is one.
pub open spec fn version_of_bits(bits: u32) -> Option<EfiAcpiTableVersion> {
    if bits == 1 {
        Some(EfiAcpiTableVersion::VersionNone)
    } else if bits == 2 {
        Some(EfiAcpiTableVersion::Version1)
    } else if bits == 4 {
        Some(EfiAcpiTableVersion::Version2)
    } else if bits == 8 {
        Some(EfiAcpiTableVersion::Version3)
    } else if bits == 16 {
        Some(EfiAcpiTableVersion::Version4)
    } else if bits == 32 {
        Some(EfiAcpiTableVersion::Version5)
    } else {
        None
    }
}

impl EfiAcpiTableVersion {
    /// The bit that the version stands for.
    pub fn bits(self) -> (bits: u32)
        ensures
            bits == version_bits(self),
    {
        match self {
            EfiAcpiTableVersion::VersionNone => 1,
            EfiAcpiTableVersion::Version1 => 2,
            EfiAcpiTableVersion::Version2 => 4,
            EfiAcpiTableVersion::Version3 => 8,
            EfiAcpiTableVersion::Version4 => 16,
            EfiAcpiTableVersion::Version5 => 32,
        }
    }

    /// The version that stands for exactly the bit `bits`, if there is one.
    pub fn from_bits(bits: u32) -> (version: Option<EfiAcpiTableVersion>)
        ensures
            version == version_of_bits(bits),
            match version {
                Some(v) => version_bits(v) == bits,
                None => forall|v: EfiAcpiTableVersion| version_bits(v) != bits,
            },
    {
        if bits == 1 {
            Some(EfiAcpiTableVersion::VersionNone)
        } else if bits == 2 {
            Some(EfiAcpiTableVersion::Version1)
        } else if bits == 4 {
            Some(EfiAcpiTableVersion::Version2)
        } else if bits == 8 {
            Some(EfiAcpiTableVersion::Version3)
        } else if bits == 16 {
            Some(EfiAcpiTableVersion::Version4)
        } else if bits == 32 {
            Some(EfiAcpiTableVersion::Version5)
        } else {
            None
        }
    }
}

/// EfiAcpiDataType defines the different types of data that an option of an
/// ACPI object can hold.
#[derive(Clone, Copy, Debug, PartialEq, Eq)]
pub enum EfiAcpiDataType {
    /// The object does not support the specified option.
    DataNone,
    /// The option is an ACPI opcode.
    Option,
    /// The option is an ACPI name string.
    NameString,
    /// The option is an ACPI opcode whose contents can be manipulated.
    Op,
    /// The option is an unsigned integer.
    Unit,
    /// The option is a string.
    String,
    /// The opcode has child data.
    Child,
}

/// The number that the firmware uses for a data type.
pub open spec fn data_type_code(data_type: EfiAcpiDataType) -> u32 {
    match data_type {
        EfiAcpiDataType::DataNone => 0,
        EfiAcpiDataType::Option => 1,
        EfiAcpiDataType::NameString => 2,
        EfiAcpiDataType::Op => 3,
        EfiAcpiDataType::Unit => 4,
        EfiAcpiDataType::String => 5,
        EfiAcpiDataType::Child => 6,
    }
}

/// The data type that the firmware numbers `code`, if there is one.
pub open spec fn data_type_of_code(code: u32) -> Option<EfiAcpiDataType> {
    if code == 0 {
        Some(EfiAcpiDataType::DataNone)
    } else if code == 1 {
        Some(EfiAcpiDataType::Option)
    } else if code == 2 {
        Some(EfiAcpiDataType::NameString)
    } else if code == 3 {
        Some(EfiAcpiDataType::Op)
    } else if code == 4 {
        Some(EfiAcpiDataType::Unit)
    } else if code == 5 {
        Some(EfiAcpiDataType::String)
    } else if code == 6 {
        Some(EfiAcpiDataType::Child)
    } else {
        None
    }
}

impl EfiAcpiDataType {
    /// The number that the firmware uses for the data type.
    pub fn code(self) -> (code: u32)
        ensures
            code == data_type_code(self),
    {
        match self {
            EfiAcpiDataType::DataNone => 0,
            EfiAcpiDataType::Option => 1,
            EfiAcpiDataType::NameString => 2,
            EfiAcpiDataType::Op => 3,
            EfiAcpiDataType::Unit => 4,
            EfiAcpiDataType::String => 5,
            EfiAcpiDataType::Child => 6,
        }
    }

    /// The data type that the firmware numbers `code`, if there is one.
    pub fn from_code(code: u32) -> (data_type: Option<EfiAcpiDataType>)
        ensures
            data_type == data_type_of_code(code),
            match data_type {
                Some(t) => data_type_code(t) == code,
                None => forall|t: EfiAcpiDataType| data_type_code(t) != code,
            },
    {
        if code == 0 {
            Some(EfiAcpiDataType::DataNone)
        } else if code == 1 {
            Some(EfiAcpiDataType::Option)
        } else if code == 2 {
            Some(EfiAcpiDataType::NameString)
        } else if code == 3 {
            Some(EfiAcpiDataType::Op)
        } else if code == 4 {
            Some(EfiAcpiDataType::Unit)
        } else if code == 5 {
            Some(EfiAcpiDataType::String)
        } else if code == 6 {
            Some(EfiAcpiDataType::Child)
        } else {
            None
        }
    }
}

/// An ACPI SDT protocol instance held in memory: the bitmap of the ACPI
/// versions it supports, and the answers that its table enumeration gives,
/// the answer to the query at index `i` at position `i`.
///
/// The enumeration comes to an end: its last answer is a failure. A search
/// therefore always meets an answer that decides it.
pub struct AcpiSdt {
    acpi_version: u32,
    replies: Vec<TableReply>,
}

impl AcpiSdt {
    #[verifier::type_invariant]
    spec fn comes_to_an_end(self) -> bool {
        ends_in_failure(self.replies@)
    }

    /// The answers of the enumeration, by index.
    pub closed spec fn answers(self) -> Seq<TableReply> {
        self.replies@
    }

    /// The version bitmap.
    pub closed spec fn spec_version(self) -> u32 {
        self.acpi_version
    }

    /// Makes an instance from a version bitmap and the answers of an
    /// enumeration. There is none where the enumeration does not end in a
    /// failure.
    pub fn new(acpi_version: u32, replies: Vec<TableReply>) -> (sdt: Option<AcpiSdt>)
        ensures
            match sdt {
                Some(sdt) => {
                    &&& ends_in_failure(replies@)
                    &&& sdt.answers() == replies@
                    &&& sdt.spec_version() == acpi_version
                },
                None => !ends_in_failure(replies@),
            },
    {
        let count = replies.len();
        if count > 0 && !status_is_success(replies[count - 1].status) {
            Some(AcpiSdt { acpi_version, replies })
        } else {
            None
        }
    }

    /// A bit map containing all the ACPI versions supported by this protocol.
    pub fn version(&self) -> (version: u32)
        ensures
            version == self.spec_version(),
    {
        self.acpi_version
    }

    /// The answer of the enumeration to the query at `index`. Past its last
    /// answer, which is a failure, the enumeration has none.
    pub fn get_acpi_table(&self, index: usize) -> (reply: Option<&TableReply>)
        ensures
            ends_in_failure(self.answers()),
            match reply {
                Some(reply) => index < self.answers().len() && *reply == self.answers()[index as int],
                None => index >= self.answers().len(),
            },
    {
        proof {
            use_type_invariant(self);
        }
        if index < self.replies.len() {
            Some(&self.replies[index])
        } else {
            None
        }
    }

    /// Whether every table of the enumeration is long enough to be decoded
    /// as a `T`.
    pub fn holds_tables_of<T: AcpiHeadeds>(&self) -> (all_fit: bool)
        ensures
            all_fit == forall|i: int|
                0 <= i < self.answers().len() ==> fits::<T>(#[trigger] self.answers()[i]),
            all_fit ==> fits_until_decided::<T>(self.answers()),
    {
        let mut index: usize = 0;
        while index < self.replies.len()
            invariant
                index <= self.replies.len(),
                forall|i: int| 0 <= i < index ==> fits::<T>(#[trigger] self.replies@[i]),
            decreases self.replies.len() - index,
        {
            let reply = &self.replies[index];
            if status_is_success(reply.status) && reply.bytes.len() < T::SIZE {
                assert(!fits::<T>(self.answers()[index as int]));
                return false;
            }
            index += 1;
        }
        true
    }

    /// Searches the enumeration for the first table with the signature of
    /// `T` and counts the queries that the search makes.
    ///
    /// The search queries index 0, 1, 2 and so on, and ends with the first
    /// answer that is a failure or carries the signature: a failure gives
    /// `EnumerationFailed` with its status, a table with the signature gives
    /// that table, decoded. The answers that the search consults must hold a
    /// whole `T` where they carry a table.
    pub fn locate_counting_calls<T: AcpiHeadeds>(&self) -> (report: LocateReport<T>)
        requires
            fits_until_decided::<T>(self.answers()),
        ensures
            decides_at::<T>(self.answers(), report.calls - 1),
            report.calls == calls_made::<T>(self.answers()),
            report.result == located::<T>(self.answers()),
    {
        proof {
            use_type_invariant(self);
        }
        let mut cursor = EnumerationCursor::new();
        loop
            invariant
                ends_in_failure(self.replies@),
                fits_until_decided::<T>(self.replies@),
                cursor.index < self.replies.len(),
                forall|j: int| 0 <= j < cursor.index ==> passes_over::<T>(#[trigger] self.replies@[j]),
                decision_index::<T>(self.replies@, 0) == decision_index::<T>(
                    self.replies@,
                    cursor.index as int,
                ),
            decreases self.replies.len() - cursor.index,
        {
            proof {
                lemma_decision_index_from::<T>(self.replies@, cursor.index as int);
            }
            let reply = &self.replies[cursor.index];
            let calls = cursor.index + 1;
            match cursor.step::<T>(reply) {
                LocateStep::Query(next) => {
                    cursor = next;
                },
                LocateStep::Found(table) => {
                    return LocateReport { result: Ok(table), calls };
                },
                LocateStep::Failed(error) => {
                    return LocateReport { result: Err(error), calls };
                },
            }
        }
    }

    /// This function searches the enumeration for an ACPI table with the
    /// signature of `T`: the first such table wins, and a failure of the
    /// enumeration before it ends the search with `EnumerationFailed`.
    pub fn locate_table_by_signature<T: AcpiHeadeds>(&self) -> (result: Result<T, LocateError>)
        requires
            fits_until_decided::<T>(self.answers()),
        ensures
            result == located::<T>(self.answers()),
    {
        self.locate_counting_calls::<T>().result
    }
}

} // verus!
