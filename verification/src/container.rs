//! Container reader: locates the SFNT table directory (plain font or
//! TrueType collection), validates it, and exposes table lookups by tag.
//!
//! `spec_container_ok` says exactly which buffers are accepted and
//! `spec_tables` what directory they yield; `RawFont::parse` is proved to
//! return `Ok` on exactly those buffers, and `MalformedContainer` otherwise.

use vstd::prelude::*;

use crate::error::AnalysisError;
use crate::error::TAG_HEAD;
use crate::reader::be16;
use crate::reader::be32;
use crate::reader::read_u16;
use crate::reader::read_u32;

verus! {

/// The version tag of a plain TrueType-flavored font.
pub const SFNT_TRUETYPE: u32 = 0x00010000;

/// The version tag `'OTTO'` of a CFF-flavored OpenType font.
pub const SFNT_OTTO: u32 = 0x4F54544F;

/// The version tag `'ttcf'` of a TrueType collection.
pub const SFNT_TTCF: u32 = 0x74746366;

/// One 16-byte entry of the table directory.
#[derive(Debug, Clone, Copy, PartialEq, Eq, Structural)]
pub struct TableRecord {
    /// Four ASCII-ish bytes, packed big-endian.
    pub tag: u32,
    /// The directory's checksum claim, verified only in strict mode.
    pub checksum: u32,
    /// Start of the table, from the beginning of the whole buffer.
    pub offset: u32,
    /// Length of the table in bytes.
    pub length: u32,
}

/// Version tags under which a table directory follows at once.
pub open spec fn spec_is_sfnt_version(v: int) -> bool {
    v == SFNT_TRUETYPE || v == SFNT_OTTO
}

/// Where the table directory of face `idx` starts, if the header is sound:
/// at 0 for a plain font (only face 0 exists), behind the collection header
/// for `'ttcf'`.
pub open spec fn spec_base(s: Seq<u8>, idx: int) -> Option<int> {
    if s.len() < 12 {
        None
    } else {
        let v = be32(s, 0);
        if spec_is_sfnt_version(v) {
            if idx == 0 {
                Some(0)
            } else {
                None
            }
        } else if v == SFNT_TTCF {
            let n = be32(s, 8);
            if 0 <= idx < n && 12 + 4 * idx + 4 <= s.len() {
                let off = be32(s, 12 + 4 * idx);
                if off + 12 <= s.len() && spec_is_sfnt_version(be32(s, off)) {
                    Some(off)
                } else {
                    None
                }
            } else {
                None
            }
        } else {
            None
        }
    }
}

/// The `numTables` field of the directory at `base`.
pub open spec fn spec_num_tables(s: Seq<u8>, base: int) -> int {
    be16(s, base + 4)
}

/// The `i`-th directory entry of the directory at `base`.
pub open spec fn spec_entry(s: Seq<u8>, base: int, i: int) -> TableRecord {
    TableRecord {
        tag: be32(s, base + 12 + 16 * i) as u32,
        checksum: be32(s, base + 12 + 16 * i + 4) as u32,
        offset: be32(s, base + 12 + 16 * i + 8) as u32,
        length: be32(s, base + 12 + 16 * i + 12) as u32,
    }
}

/// The first `n` directory entries of the directory at `base`.
pub open spec fn spec_entries(s: Seq<u8>, base: int, n: int) -> Seq<TableRecord> {
    Seq::new(n as nat, |i: int| spec_entry(s, base, i))
}

/// A table must lie inside the buffer and clear of the 12-byte header.
pub open spec fn entry_in_bounds(e: TableRecord, total: int) -> bool {
    &&& e.offset >= 12
    &&& e.offset + e.length <= total
}

/// No two entries may carry the same tag.
pub open spec fn tags_distinct(ts: Seq<TableRecord>) -> bool {
    forall|i: int, j: int| 0 <= i < j < ts.len() ==> ts[i].tag != ts[j].tag
}

/// The directory at `base` is sound: at least one table, the directory
/// itself inside the buffer, every entry in bounds, and all tags distinct.
pub open spec fn spec_dir_ok(s: Seq<u8>, base: int) -> bool {
    let n = spec_num_tables(s, base);
    &&& n > 0
    &&& base + 12 + 16 * n <= s.len()
    &&& forall|i: int| 0 <= i < n ==> entry_in_bounds(#[trigger] spec_entry(s, base, i), s.len() as int)
    &&& tags_distinct(spec_entries(s, base, n))
}

/// The whole acceptance condition of the container reader.
pub open spec fn spec_container_ok(s: Seq<u8>, idx: int) -> bool {
    &&& spec_base(s, idx) is Some
    &&& spec_dir_ok(s, spec_base(s, idx)->Some_0)
}

/// The table directory an accepted buffer yields.
pub open spec fn spec_tables(s: Seq<u8>, idx: int) -> Seq<TableRecord> {
    let base = spec_base(s, idx)->Some_0;
    spec_entries(s, base, spec_num_tables(s, base))
}

/// First directory entry with tag `tag`, scanning from position `i`.
pub open spec fn spec_find_from(ts: Seq<TableRecord>, tag: u32, i: int) -> Option<TableRecord>
    decreases ts.len() - i,
{
    if i < 0 || i >= ts.len() {
        None
    } else if ts[i].tag == tag {
        Some(ts[i])
    } else {
        spec_find_from(ts, tag, i + 1)
    }
}

/// First directory entry with tag `tag`; with distinct tags, the only one.
pub open spec fn spec_find(ts: Seq<TableRecord>, tag: u32) -> Option<TableRecord> {
    spec_find_from(ts, tag, 0)
}

/// Byte `p` of the zero-padded table at `[off, off + len)`, with the
/// `checkSumAdjustment` field of `head` (table bytes 8..12) read as zero.
pub open spec fn spec_cksum_byte(s: Seq<u8>, off: int, len: int, skip_adjust: bool, p: int) -> int {
    if p < len {
        if skip_adjust && 8 <= p < 12 {
            0
        } else {
            s[off + p] as int
        }
    } else {
        0
    }
}

/// Sum, modulo 2^32, of the first `n` big-endian 32-bit words of the
/// zero-padded table.
pub open spec fn spec_cksum_words(s: Seq<u8>, off: int, len: int, skip: bool, n: int) -> int
    decreases n,
{
    if n <= 0 {
        0
    } else {
        let p = 4 * (n - 1);
        let w = 0x1000000 * spec_cksum_byte(s, off, len, skip, p) + 0x10000 * spec_cksum_byte(
            s,
            off,
            len,
            skip,
            p + 1,
        ) + 0x100 * spec_cksum_byte(s, off, len, skip, p + 2) + spec_cksum_byte(
            s,
            off,
            len,
            skip,
            p + 3,
        );
        (spec_cksum_words(s, off, len, skip, n - 1) + w) % 0x100000000
    }
}

/// The checksum of one table, as the SFNT format defines it: the sum of its
/// big-endian 32-bit words, zero-padded to a multiple of four bytes, with
/// `head`'s own `checkSumAdjustment` left out.
pub open spec fn spec_table_checksum(s: Seq<u8>, e: TableRecord) -> int {
    spec_cksum_words(
        s,
        e.offset as int,
        e.length as int,
        e.tag == TAG_HEAD,
        ((e.length as int) + 3) / 4,
    )
}

/// Whether the table's bytes sum to the directory's checksum claim.
pub open spec fn spec_cksum_entry_ok(s: Seq<u8>, e: TableRecord) -> bool {
    spec_table_checksum(s, e) == e.checksum
}

/// The tag of the first entry, scanning from `i`, whose checksum fails.
pub open spec fn spec_first_bad_cksum_from(s: Seq<u8>, ts: Seq<TableRecord>, i: int) -> Option<u32>
    decreases ts.len() - i,
{
    if i < 0 || i >= ts.len() {
        None
    } else if !spec_cksum_entry_ok(s, ts[i]) {
        Some(ts[i].tag)
    } else {
        spec_first_bad_cksum_from(s, ts, i + 1)
    }
}

/// The tag of the first table whose checksum fails, if any does.
pub open spec fn spec_first_bad_cksum(s: Seq<u8>, ts: Seq<TableRecord>) -> Option<u32> {
    spec_first_bad_cksum_from(s, ts, 0)
}

/// Reads byte `p` of the zero-padded table, `head`'s adjustment as zero.
fn cksum_byte(data: &Vec<u8>, off: usize, len: usize, skip: bool, p: usize) -> (r: u8)
    requires
        off + len <= data.len(),
    ensures
        r == spec_cksum_byte(data@, off as int, len as int, skip, p as int),
{
    if p < len {
        if skip && 8 <= p && p < 12 {
            0
        } else {
            data[off + p]
        }
    } else {
        0
    }
}

/// Computes one table's checksum by the format's summing rule.
pub fn table_checksum(data: &Vec<u8>, e: TableRecord) -> (r: u32)
    requires
        entry_in_bounds(e, data.len() as int),
    ensures
        r == spec_table_checksum(data@, e),
{
    let off = e.offset as usize;
    let len = e.length as usize;
    let skip = e.tag == TAG_HEAD;
    let n_words = (len / 4) + (if len % 4 != 0 {
        1
    } else {
        0
    });
    proof {
        assert(n_words as int == ((len as int) + 3) / 4) by (nonlinear_arith)
            requires
                n_words as int == (len as int) / 4 + (if (len as int) % 4 != 0 {
                    1int
                } else {
                    0int
                }),
                len >= 0,
        {
        }
    }
    let mut acc: u32 = 0;
    let mut w: usize = 0;
    while w < n_words
        invariant
            off + len <= data.len(),
            off == e.offset as int,
            len == e.length as int,
            skip == (e.tag == TAG_HEAD),
            n_words as int == ((len as int) + 3) / 4,
            w <= n_words,
            n_words <= len,
            acc == spec_cksum_words(data@, off as int, len as int, skip, w as int),
        decreases n_words - w,
    {
        let p = 4 * w;
        let b0 = cksum_byte(data, off, len, skip, p);
        let b1 = cksum_byte(data, off, len, skip, p + 1);
        let b2 = cksum_byte(data, off, len, skip, p + 2);
        let b3 = cksum_byte(data, off, len, skip, p + 3);
        let word: u32 = 0x1000000 * (b0 as u32) + 0x10000 * (b1 as u32) + 0x100 * (b2 as u32) + (
        b3 as u32);
        acc = (((acc as u64) + (word as u64)) % 0x100000000) as u32;
        w += 1;
    }
    acc
}

/// A found entry is a member of the directory, so a well-formed font's
/// lookup result is in bounds.
pub proof fn lemma_find_is_member(ts: Seq<TableRecord>, tag: u32, i: int)
    requires
        0 <= i <= ts.len(),
    ensures
        spec_find_from(ts, tag, i) matches Some(e) ==> exists|j: int|
            i <= j < ts.len() && ts[j] == e,
    decreases ts.len() - i,
{
    if i < ts.len() {
        if ts[i].tag == tag {
            assert(ts[i] == spec_find_from(ts, tag, i)->Some_0);
        } else {
            lemma_find_is_member(ts, tag, i + 1);
        }
    }
}

/// An immutable byte buffer together with its parsed table directory.
pub struct RawFont {
    /// The whole input buffer; tables are ranges into it, never copies.
    pub data: Vec<u8>,
    /// The validated table directory.
    pub tables: Vec<TableRecord>,
}

impl RawFont {
    /// Every table range lies within the buffer and tags are distinct; what
    /// `parse` establishes and every reader of the font relies on.
    pub open spec fn wf(self) -> bool {
        &&& forall|i: int|
            0 <= i < self.tables@.len() ==> entry_in_bounds(
                #[trigger] self.tables@[i],
                self.data@.len() as int,
            )
        &&& tags_distinct(self.tables@)
    }

    /// Parses the container: locates the directory of face `face_index`,
    /// reads and validates every entry.  Pure over the input buffer:
    /// accepts exactly the buffers `spec_container_ok` admits and returns
    /// exactly their directory; everything else is `MalformedContainer`.
    /// The advisory `searchRange`, `entrySelector` and `rangeShift` header
    /// fields are not checked: they duplicate `numTables` and bind nothing.
    #[verifier::rlimit(50)]
    pub fn parse(data: Vec<u8>, face_index: usize) -> (r: Result<RawFont, AnalysisError>)
        ensures
            spec_container_ok(data@, face_index as int) ==> (r matches Ok(f) && f.data@ == data@
                && f.tables@ == spec_tables(data@, face_index as int) && f.wf()),
            !spec_container_ok(data@, face_index as int) ==> r == Err::<RawFont, AnalysisError>(
                AnalysisError::MalformedContainer,
            ),
    {
        let n_bytes = data.len();
        if n_bytes < 12 {
            return Err(AnalysisError::MalformedContainer);
        }
        let ver = read_u32(&data, 0);
        let base: usize;
        if ver == SFNT_TRUETYPE || ver == SFNT_OTTO {
            if face_index != 0 {
                return Err(AnalysisError::MalformedContainer);
            }
            base = 0;
        } else if ver == SFNT_TTCF {
            let n_fonts = read_u32(&data, 8);
            if !((face_index as u64) < (n_fonts as u64)) {
                return Err(AnalysisError::MalformedContainer);
            }
            if 12 + 4 * (face_index as u64) + 4 > (n_bytes as u64) {
                return Err(AnalysisError::MalformedContainer);
            }
            let off = read_u32(&data, 12 + 4 * face_index);
            if (off as u64) + 12 > (n_bytes as u64) {
                return Err(AnalysisError::MalformedContainer);
            }
            let sub_ver = read_u32(&data, off as usize);
            if !(sub_ver == SFNT_TRUETYPE || sub_ver == SFNT_OTTO) {
                return Err(AnalysisError::MalformedContainer);
            }
            base = off as usize;
        } else {
            return Err(AnalysisError::MalformedContainer);
        }
        assert(spec_base(data@, face_index as int) == Some(base as int));

        let n_tables = read_u16(&data, base + 4) as usize;
        if n_tables == 0 {
            return Err(AnalysisError::MalformedContainer);
        }
        if (base as u64) + 12 + 16 * (n_tables as u64) > (n_bytes as u64) {
            return Err(AnalysisError::MalformedContainer);
        }

        let ghost s = data@;
        let ghost gbase = base as int;
        let ghost gn = n_tables as int;
        let mut tables: Vec<TableRecord> = Vec::new();
        let mut i: usize = 0;
        while i < n_tables
            invariant
                n_bytes == s.len(),
                n_bytes == data.len(),
                s == data@,
                gbase == base as int,
                spec_base(s, face_index as int) == Some(gbase),
                gn == n_tables as int,
                gn == spec_num_tables(s, gbase),
                0 < gn < 0x10000,
                gbase + 12 + 16 * gn <= s.len(),
                i <= n_tables,
                tables@.len() == i as int,
                forall|k: int| 0 <= k < i as int ==> tables@[k] == spec_entry(s, gbase, k),
                forall|k: int|
                    0 <= k < i as int ==> entry_in_bounds(#[trigger] tables@[k], s.len() as int),
                forall|k1: int, k2: int|
                    0 <= k1 < k2 < i as int ==> tables@[k1].tag != tables@[k2].tag,
            decreases n_tables - i,
        {
            proof {
                assert(16 * (i as int) + 16 <= 16 * gn) by (nonlinear_arith)
                    requires
                        (i as int) < gn,
                {
                }
            }
            let rec_off = base + 12 + 16 * i;
            assert(rec_off + 16 <= n_bytes);
            let tag = read_u32(&data, rec_off);
            let checksum = read_u32(&data, rec_off + 4);
            let offset = read_u32(&data, rec_off + 8);
            let length = read_u32(&data, rec_off + 12);
            let e = TableRecord { tag, checksum, offset, length };
            assert(e == spec_entry(s, gbase, i as int));
            if offset < 12 || (offset as u64) + (length as u64) > (n_bytes as u64) {
                assert(!entry_in_bounds(spec_entry(s, gbase, i as int), s.len() as int));
                assert(!spec_dir_ok(s, gbase));
                return Err(AnalysisError::MalformedContainer);
            }
            let mut j: usize = 0;
            while j < i
                invariant
                    j <= i,
                    i < n_tables,
                    s == data@,
                    gbase == base as int,
                    spec_base(s, face_index as int) == Some(gbase),
                    gn == n_tables as int,
                    gn == spec_num_tables(s, gbase),
                    tables@.len() == i as int,
                    forall|k: int| 0 <= k < i as int ==> tables@[k] == spec_entry(s, gbase, k),
                    tag == spec_entry(s, gbase, i as int).tag,
                    forall|k: int| 0 <= k < j as int ==> #[trigger] tables@[k].tag != tag,
                decreases i - j,
            {
                if tables[j].tag == tag {
                    proof {
                        let ents = spec_entries(s, gbase, gn);
                        assert(ents[j as int] == spec_entry(s, gbase, j as int));
                        assert(ents[i as int] == spec_entry(s, gbase, i as int));
                        assert(ents[j as int].tag == ents[i as int].tag);
                        assert(!tags_distinct(ents));
                    }
                    return Err(AnalysisError::MalformedContainer);
                }
                j += 1;
            }
            tables.push(e);
            i += 1;
        }
        proof {
            assert forall|k: int| 0 <= k < gn implies entry_in_bounds(
                #[trigger] spec_entry(s, gbase, k),
                s.len() as int,
            ) by {
                assert(tables@[k] == spec_entry(s, gbase, k));
            }
            assert(spec_entries(s, gbase, gn) =~= tables@);
            assert(spec_dir_ok(s, gbase));
            assert(spec_container_ok(s, face_index as int));
        }
        Ok(RawFont { data, tables })
    }

    /// Verifies every table's directory checksum (strict mode).  The result
    /// names the first table, in directory order, whose bytes do not sum to
    /// the directory's claim.
    pub fn check_checksums(&self) -> (r: Result<(), AnalysisError>)
        requires
            self.wf(),
        ensures
            r == match spec_first_bad_cksum(self.data@, self.tables@) {
                None => Ok::<(), AnalysisError>(()),
                Some(t) => Err::<(), AnalysisError>(AnalysisError::ChecksumMismatch(t)),
            },
    {
        let n = self.tables.len();
        let ghost ts = self.tables@;
        let mut i: usize = 0;
        while i < n
            invariant
                self.wf(),
                n == ts.len(),
                ts == self.tables@,
                i <= n,
                spec_first_bad_cksum(self.data@, ts) == spec_first_bad_cksum_from(
                    self.data@,
                    ts,
                    i as int,
                ),
            decreases n - i,
        {
            let e = self.tables[i];
            let sum = table_checksum(&self.data, e);
            if sum != e.checksum {
                return Err(AnalysisError::ChecksumMismatch(e.tag));
            }
            i += 1;
        }
        Ok(())
    }

    /// Looks a table up by tag; `None` exactly when the directory has no
    /// entry with that tag.
    pub fn find_table(&self, tag: u32) -> (r: Option<TableRecord>)
        ensures
            r == spec_find(self.tables@, tag),
    {
        let n = self.tables.len();
        let ghost ts = self.tables@;
        let mut i: usize = 0;
        while i < n
            invariant
                n == ts.len(),
                ts == self.tables@,
                i <= n,
                spec_find(ts, tag) == spec_find_from(ts, tag, i as int),
            decreases n - i,
        {
            if self.tables[i].tag == tag {
                return Some(self.tables[i]);
            }
            i += 1;
        }
        None
    }
}

} // verus!
