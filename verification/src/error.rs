//! Error type shared by the container reader, the table decoders and the
//! facade, plus the table tags the library knows about.

use vstd::prelude::*;

verus! {

/// The tag of the `head` table, packed big-endian into a `u32`.
pub const TAG_HEAD: u32 = 0x68656164;

/// The tag of the `hhea` table.
pub const TAG_HHEA: u32 = 0x68686561;

/// The tag of the `maxp` table (the glyph-count source).
pub const TAG_MAXP: u32 = 0x6D617870;

/// The tag of the `name` table.
pub const TAG_NAME: u32 = 0x6E616D65;

/// The tag of the `OS/2` table.
pub const TAG_OS2: u32 = 0x4F532F32;

/// The tag of the `post` table.
pub const TAG_POST: u32 = 0x706F7374;

/// The tag of the `fvar` table; its presence marks a variable font.
pub const TAG_FVAR: u32 = 0x66766172;

/// Every way an analysis can fail.  Soft conditions (an undecodable name
/// record, a missing optional table) are absorbed by the decoders and never
/// surface here.  A tag argument names the offending table, packed big-endian
/// into a `u32`.
#[derive(Debug, Clone, Copy, PartialEq, Eq, Structural)]
pub enum AnalysisError {
    /// The buffer is no SFNT container: shorter than 12 bytes, an unknown
    /// version tag, a zero or overlong table directory, an entry pointing
    /// outside the buffer, a duplicated tag, or a collection face index that
    /// is out of range.
    MalformedContainer,
    /// A table that the analysis cannot do without is absent.
    MandatoryTableMissing(u32),
    /// `head.unitsPerEm` lies outside `[16, 16384]`.
    InvalidUnitsPerEm,
    /// In strict mode only: a table's bytes do not sum to its directory
    /// checksum.
    ChecksumMismatch(u32),
    /// A table is present but too short for the fields read from it.
    TableTooShort(u32),
}

} // verus!
