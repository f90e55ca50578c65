//! Per-table decoders for `head`, `hhea`, `maxp`, `OS/2` and `post`.
//!
//! Every decoder works on the window `[off, off + len)` of the buffer that
//! the table directory assigned to its table, and its result is stated over
//! the bytes of that window alone: a read past the declared length is
//! impossible by construction and a window too short for a field yields
//! `TableTooShort` instead.  All multi-byte fields are big-endian.

use vstd::prelude::*;

use crate::error::AnalysisError;
use crate::error::TAG_HEAD;
use crate::error::TAG_HHEA;
use crate::error::TAG_MAXP;
use crate::error::TAG_OS2;
use crate::error::TAG_POST;
use crate::reader::be16;
use crate::reader::be_i16;
use crate::reader::read_i16;
use crate::reader::read_u16;

verus! {

/// The bytes of one table, as the window `[off, off + len)` of the buffer.
pub open spec fn window(s: Seq<u8>, off: int, len: int) -> Seq<u8> {
    s.subrange(off, off + len)
}

/// Reads the unsigned 16-bit field at `pos` of the table window.
pub fn read_u16_in(data: &Vec<u8>, off: usize, len: usize, pos: usize) -> (r: u16)
    requires
        off + len <= data.len(),
        pos + 2 <= len,
    ensures
        r == be16(window(data@, off as int, len as int), pos as int),
{
    proof {
        let t = window(data@, off as int, len as int);
        assert(t[pos as int] == data@[off as int + pos as int]);
        assert(t[pos as int + 1] == data@[off as int + pos as int + 1]);
    }
    read_u16(data, off + pos)
}

/// Reads the signed 16-bit field at `pos` of the table window.
pub fn read_i16_in(data: &Vec<u8>, off: usize, len: usize, pos: usize) -> (r: i16)
    requires
        off + len <= data.len(),
        pos + 2 <= len,
    ensures
        r == be_i16(window(data@, off as int, len as int), pos as int),
{
    proof {
        let t = window(data@, off as int, len as int);
        assert(t[pos as int] == data@[off as int + pos as int]);
        assert(t[pos as int + 1] == data@[off as int + pos as int + 1]);
    }
    read_i16(data, off + pos)
}

/// The fields of `head` that the analysis keeps.
#[derive(Debug, Clone, Copy, PartialEq, Eq, Structural)]
pub struct HeadTable {
    pub units_per_em: u16,
    pub x_min: i16,
    pub y_min: i16,
    pub x_max: i16,
    pub y_max: i16,
    pub mac_style: u16,
    pub index_to_loc_format: i16,
}

/// The vertical metrics of `hhea`.
#[derive(Debug, Clone, Copy, PartialEq, Eq, Structural)]
pub struct HheaTable {
    pub ascender: i16,
    pub descender: i16,
    pub line_gap: i16,
}

/// The glyph count of `maxp`.
#[derive(Debug, Clone, Copy, PartialEq, Eq, Structural)]
pub struct MaxpTable {
    pub num_glyphs: u16,
}

/// An underline or strikeout line: its vertical position and thickness.
#[derive(Debug, Clone, Copy, PartialEq, Eq, Structural)]
pub struct LineMetrics {
    pub position: i16,
    pub thickness: i16,
}

/// Subscript or superscript lettering: em size and offset of the small box.
#[derive(Debug, Clone, Copy, PartialEq, Eq, Structural)]
pub struct ScriptMetrics {
    pub x_size: i16,
    pub y_size: i16,
    pub x_offset: i16,
    pub y_offset: i16,
}

/// The fields of `OS/2` that the analysis keeps.  `x_height` is only
/// present from table version 2 on.
#[derive(Debug, Clone, Copy, PartialEq, Eq, Structural)]
pub struct Os2Table {
    pub version: u16,
    pub weight_class: u16,
    pub width_class: u16,
    pub fs_type: u16,
    pub subscript: ScriptMetrics,
    pub superscript: ScriptMetrics,
    pub strikeout: LineMetrics,
    pub fs_selection: u16,
    pub x_height: Option<i16>,
}

/// The underline metrics of `post`.
#[derive(Debug, Clone, Copy, PartialEq, Eq, Structural)]
pub struct PostTable {
    pub underline_position: i16,
    pub underline_thickness: i16,
}

/// What `decode_head` returns on a table with bytes `t`: too short under 54
/// bytes, `InvalidUnitsPerEm` outside `[16, 16384]`, the fields otherwise.
pub open spec fn spec_decode_head(t: Seq<u8>) -> Result<HeadTable, AnalysisError> {
    if t.len() < 54 {
        Err(AnalysisError::TableTooShort(TAG_HEAD))
    } else if !(16 <= be16(t, 18) <= 16384) {
        Err(AnalysisError::InvalidUnitsPerEm)
    } else {
        Ok(
            HeadTable {
                units_per_em: be16(t, 18) as u16,
                x_min: be_i16(t, 36) as i16,
                y_min: be_i16(t, 38) as i16,
                x_max: be_i16(t, 40) as i16,
                y_max: be_i16(t, 42) as i16,
                mac_style: be16(t, 44) as u16,
                index_to_loc_format: be_i16(t, 50) as i16,
            },
        )
    }
}

/// What `decode_hhea` returns: the three metrics, read up to byte 10.
pub open spec fn spec_decode_hhea(t: Seq<u8>) -> Result<HheaTable, AnalysisError> {
    if t.len() < 10 {
        Err(AnalysisError::TableTooShort(TAG_HHEA))
    } else {
        Ok(
            HheaTable {
                ascender: be_i16(t, 4) as i16,
                descender: be_i16(t, 6) as i16,
                line_gap: be_i16(t, 8) as i16,
            },
        )
    }
}

/// What `decode_maxp` returns: the glyph count at byte 4.
pub open spec fn spec_decode_maxp(t: Seq<u8>) -> Result<MaxpTable, AnalysisError> {
    if t.len() < 6 {
        Err(AnalysisError::TableTooShort(TAG_MAXP))
    } else {
        Ok(MaxpTable { num_glyphs: be16(t, 4) as u16 })
    }
}

/// What `decode_os2` returns.  64 bytes cover every field read up to
/// `fsSelection`; a version-2-or-later table must also reach `sxHeight` at
/// bytes 86..88, which older versions do not carry.
pub open spec fn spec_decode_os2(t: Seq<u8>) -> Result<Os2Table, AnalysisError> {
    if t.len() < 64 {
        Err(AnalysisError::TableTooShort(TAG_OS2))
    } else if be16(t, 0) >= 2 && t.len() < 88 {
        Err(AnalysisError::TableTooShort(TAG_OS2))
    } else {
        Ok(
            Os2Table {
                version: be16(t, 0) as u16,
                weight_class: be16(t, 4) as u16,
                width_class: be16(t, 6) as u16,
                fs_type: be16(t, 8) as u16,
                subscript: ScriptMetrics {
                    x_size: be_i16(t, 10) as i16,
                    y_size: be_i16(t, 12) as i16,
                    x_offset: be_i16(t, 14) as i16,
                    y_offset: be_i16(t, 16) as i16,
                },
                superscript: ScriptMetrics {
                    x_size: be_i16(t, 18) as i16,
                    y_size: be_i16(t, 20) as i16,
                    x_offset: be_i16(t, 22) as i16,
                    y_offset: be_i16(t, 24) as i16,
                },
                strikeout: LineMetrics {
                    position: be_i16(t, 28) as i16,
                    thickness: be_i16(t, 26) as i16,
                },
                fs_selection: be16(t, 62) as u16,
                x_height: if be16(t, 0) >= 2 {
                    Some(be_i16(t, 86) as i16)
                } else {
                    None
                },
            },
        )
    }
}

/// What `decode_post` returns: the underline fields at bytes 8..12.
pub open spec fn spec_decode_post(t: Seq<u8>) -> Result<PostTable, AnalysisError> {
    if t.len() < 12 {
        Err(AnalysisError::TableTooShort(TAG_POST))
    } else {
        Ok(
            PostTable {
                underline_position: be_i16(t, 8) as i16,
                underline_thickness: be_i16(t, 10) as i16,
            },
        )
    }
}

/// Decodes the `head` table from its window of the buffer.
pub fn decode_head(data: &Vec<u8>, off: usize, len: usize) -> (r: Result<HeadTable, AnalysisError>)
    requires
        off + len <= data.len(),
    ensures
        r == spec_decode_head(window(data@, off as int, len as int)),
{
    if len < 54 {
        return Err(AnalysisError::TableTooShort(TAG_HEAD));
    }
    let units_per_em = read_u16_in(data, off, len, 18);
    if units_per_em < 16 || units_per_em > 16384 {
        return Err(AnalysisError::InvalidUnitsPerEm);
    }
    Ok(
        HeadTable {
            units_per_em,
            x_min: read_i16_in(data, off, len, 36),
            y_min: read_i16_in(data, off, len, 38),
            x_max: read_i16_in(data, off, len, 40),
            y_max: read_i16_in(data, off, len, 42),
            mac_style: read_u16_in(data, off, len, 44),
            index_to_loc_format: read_i16_in(data, off, len, 50),
        },
    )
}

/// Decodes the `hhea` table from its window of the buffer.
pub fn decode_hhea(data: &Vec<u8>, off: usize, len: usize) -> (r: Result<HheaTable, AnalysisError>)
    requires
        off + len <= data.len(),
    ensures
        r == spec_decode_hhea(window(data@, off as int, len as int)),
{
    if len < 10 {
        return Err(AnalysisError::TableTooShort(TAG_HHEA));
    }
    Ok(
        HheaTable {
            ascender: read_i16_in(data, off, len, 4),
            descender: read_i16_in(data, off, len, 6),
            line_gap: read_i16_in(data, off, len, 8),
        },
    )
}

/// Decodes the `maxp` table from its window of the buffer.
pub fn decode_maxp(data: &Vec<u8>, off: usize, len: usize) -> (r: Result<MaxpTable, AnalysisError>)
    requires
        off + len <= data.len(),
    ensures
        r == spec_decode_maxp(window(data@, off as int, len as int)),
{
    if len < 6 {
        return Err(AnalysisError::TableTooShort(TAG_MAXP));
    }
    Ok(MaxpTable { num_glyphs: read_u16_in(data, off, len, 4) })
}

/// Decodes the `OS/2` table from its window of the buffer.
pub fn decode_os2(data: &Vec<u8>, off: usize, len: usize) -> (r: Result<Os2Table, AnalysisError>)
    requires
        off + len <= data.len(),
    ensures
        r == spec_decode_os2(window(data@, off as int, len as int)),
{
    if len < 64 {
        return Err(AnalysisError::TableTooShort(TAG_OS2));
    }
    let version = read_u16_in(data, off, len, 0);
    if version >= 2 && len < 88 {
        return Err(AnalysisError::TableTooShort(TAG_OS2));
    }
    let x_height = if version >= 2 {
        Some(read_i16_in(data, off, len, 86))
    } else {
        None
    };
    Ok(
        Os2Table {
            version,
            weight_class: read_u16_in(data, off, len, 4),
            width_class: read_u16_in(data, off, len, 6),
            fs_type: read_u16_in(data, off, len, 8),
            subscript: ScriptMetrics {
                x_size: read_i16_in(data, off, len, 10),
                y_size: read_i16_in(data, off, len, 12),
                x_offset: read_i16_in(data, off, len, 14),
                y_offset: read_i16_in(data, off, len, 16),
            },
            superscript: ScriptMetrics {
                x_size: read_i16_in(data, off, len, 18),
                y_size: read_i16_in(data, off, len, 20),
                x_offset: read_i16_in(data, off, len, 22),
                y_offset: read_i16_in(data, off, len, 24),
            },
            strikeout: LineMetrics {
                position: read_i16_in(data, off, len, 28),
                thickness: read_i16_in(data, off, len, 26),
            },
            fs_selection: read_u16_in(data, off, len, 62),
            x_height,
        },
    )
}

/// Decodes the `post` table from its window of the buffer.
pub fn decode_post(data: &Vec<u8>, off: usize, len: usize) -> (r: Result<PostTable, AnalysisError>)
    requires
        off + len <= data.len(),
    ensures
        r == spec_decode_post(window(data@, off as int, len as int)),
{
    if len < 12 {
        return Err(AnalysisError::TableTooShort(TAG_POST));
    }
    Ok(
        PostTable {
            underline_position: read_i16_in(data, off, len, 8),
            underline_thickness: read_i16_in(data, off, len, 10),
        },
    )
}

/// Decoders read only their table's own bytes: two buffers that agree on the
/// window `[off, off + len)` decode to identical results, whatever stands in
/// the adjacent tables; and a window too short for a field makes them fail
/// rather than read on.
pub proof fn lemma_decoders_confined(b1: Seq<u8>, b2: Seq<u8>, off: int, len: int)
    requires
        0 <= off,
        0 <= len,
        off + len <= b1.len(),
        off + len <= b2.len(),
        window(b1, off, len) == window(b2, off, len),
    ensures
        spec_decode_head(window(b1, off, len)) == spec_decode_head(window(b2, off, len)),
        spec_decode_hhea(window(b1, off, len)) == spec_decode_hhea(window(b2, off, len)),
        spec_decode_maxp(window(b1, off, len)) == spec_decode_maxp(window(b2, off, len)),
        spec_decode_os2(window(b1, off, len)) == spec_decode_os2(window(b2, off, len)),
        spec_decode_post(window(b1, off, len)) == spec_decode_post(window(b2, off, len)),
{
}

/// unitsPerEm boundary: on a `head` table long enough to read, decoding
/// succeeds exactly when unitsPerEm lies in `[16, 16384]`; outside that
/// range the error is `InvalidUnitsPerEm`, and on success the field is
/// carried over unchanged.
pub proof fn lemma_units_per_em_boundary(t: Seq<u8>)
    requires
        t.len() >= 54,
    ensures
        (spec_decode_head(t) is Ok) <==> (16 <= be16(t, 18) <= 16384),
        spec_decode_head(t) matches Ok(h) ==> h.units_per_em == be16(t, 18),
        !(16 <= be16(t, 18) <= 16384) ==> spec_decode_head(t) == Err::<
            HeadTable,
            AnalysisError,
        >(AnalysisError::InvalidUnitsPerEm),
{
}

} // verus!
