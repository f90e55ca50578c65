//! Font facade: runs the whole pipeline over one byte buffer and aggregates
//! the decoded tables into a single `FontInfo` snapshot.
//!
//! `spec_analyze` is the mathematical model of the whole analysis: a total
//! function from the input bytes (and face index and strictness) to either a
//! `FontInfoModel` or the exact error.  `analyze_font` is proved to return
//! precisely that, so analysing the same buffer twice yields equal values.

use vstd::prelude::*;

use crate::buckets::WeightBucket;
use crate::buckets::WidthBucket;
use crate::buckets::spec_weight_bucket;
use crate::buckets::spec_width_bucket;
use crate::buckets::weight_bucket;
use crate::buckets::width_bucket;
use crate::container::RawFont;
use crate::container::TableRecord;
use crate::container::lemma_find_is_member;
use crate::container::spec_container_ok;
use crate::container::spec_find;
use crate::container::spec_first_bad_cksum;
use crate::container::spec_tables;
use crate::error::AnalysisError;
use crate::error::TAG_FVAR;
use crate::error::TAG_HEAD;
use crate::error::TAG_HHEA;
use crate::error::TAG_MAXP;
use crate::error::TAG_NAME;
use crate::error::TAG_OS2;
use crate::error::TAG_POST;
use crate::name::NameRecord;
use crate::name::family_names;
use crate::name::parse_name_table;
use crate::name::postscript_name;
use crate::name::spec_family_names;
use crate::name::spec_parse_name;
use crate::name::spec_ps_name;
use crate::tables::HeadTable;
use crate::tables::HheaTable;
use crate::tables::LineMetrics;
use crate::tables::MaxpTable;
use crate::tables::Os2Table;
use crate::tables::PostTable;
use crate::tables::ScriptMetrics;
use crate::tables::decode_head;
use crate::tables::decode_hhea;
use crate::tables::decode_maxp;
use crate::tables::decode_os2;
use crate::tables::decode_post;
use crate::tables::spec_decode_head;
use crate::tables::spec_decode_hhea;
use crate::tables::spec_decode_maxp;
use crate::tables::spec_decode_os2;
use crate::tables::spec_decode_post;
use crate::tables::window;

verus! {

/// The global bounding box, from `head`'s declared limits.
#[derive(Debug, Clone, Copy, PartialEq, Eq, Structural)]
pub struct Rect {
    pub x_min: i16,
    pub y_min: i16,
    pub x_max: i16,
    pub y_max: i16,
}

/// Embedding permission, from the licensing bits of `OS/2.fsType`.
#[derive(Debug, Clone, Copy, PartialEq, Eq, Structural)]
pub enum Permissions {
    Installable,
    Restricted,
    PreviewAndPrint,
    Editable,
}

/// The aggregated metadata snapshot of one font.  Fields that depend on an
/// optional table are optional themselves, so absent and zero stay apart.
#[derive(Debug, Clone, PartialEq)]
pub struct FontInfo {
    pub family_names: Vec<String>,
    pub post_script_name: Option<String>,
    pub units_per_em: u16,
    pub ascender: i16,
    pub descender: i16,
    pub line_gap: i16,
    pub global_bounding_box: Rect,
    pub number_of_glyphs: u16,
    pub underline_metrics: Option<LineMetrics>,
    pub x_height: Option<i16>,
    pub weight: Option<WeightBucket>,
    pub width: Option<WidthBucket>,
    pub is_regular: bool,
    pub is_italic: bool,
    pub is_bold: bool,
    pub is_oblique: bool,
    pub strikeout_metrics: Option<LineMetrics>,
    pub subscript_metrics: Option<ScriptMetrics>,
    pub superscript_metrics: Option<ScriptMetrics>,
    pub permissions: Option<Permissions>,
    pub is_variable: bool,
}

/// The mathematical shape of a `FontInfo`: names as character sequences,
/// everything else as the plain values themselves.
pub struct FontInfoModel {
    pub family_names: Seq<Seq<char>>,
    pub post_script_name: Option<Seq<char>>,
    pub units_per_em: u16,
    pub ascender: i16,
    pub descender: i16,
    pub line_gap: i16,
    pub global_bounding_box: Rect,
    pub number_of_glyphs: u16,
    pub underline_metrics: Option<LineMetrics>,
    pub x_height: Option<i16>,
    pub weight: Option<WeightBucket>,
    pub width: Option<WidthBucket>,
    pub is_regular: bool,
    pub is_italic: bool,
    pub is_bold: bool,
    pub is_oblique: bool,
    pub strikeout_metrics: Option<LineMetrics>,
    pub subscript_metrics: Option<ScriptMetrics>,
    pub superscript_metrics: Option<ScriptMetrics>,
    pub permissions: Option<Permissions>,
    pub is_variable: bool,
}

impl View for FontInfo {
    type V = FontInfoModel;

    open spec fn view(&self) -> FontInfoModel {
        FontInfoModel {
            family_names: self.family_names.deep_view(),
            post_script_name: self.post_script_name.deep_view(),
            units_per_em: self.units_per_em,
            ascender: self.ascender,
            descender: self.descender,
            line_gap: self.line_gap,
            global_bounding_box: self.global_bounding_box,
            number_of_glyphs: self.number_of_glyphs,
            underline_metrics: self.underline_metrics,
            x_height: self.x_height,
            weight: self.weight,
            width: self.width,
            is_regular: self.is_regular,
            is_italic: self.is_italic,
            is_bold: self.is_bold,
            is_oblique: self.is_oblique,
            strikeout_metrics: self.strikeout_metrics,
            subscript_metrics: self.subscript_metrics,
            superscript_metrics: self.superscript_metrics,
            permissions: self.permissions,
            is_variable: self.is_variable,
        }
    }
}

/// The bytes of one table, as its window of the whole buffer.
pub open spec fn table_window(s: Seq<u8>, e: TableRecord) -> Seq<u8> {
    window(s, e.offset as int, e.length as int)
}

/// The four style flags (regular, italic, bold, oblique).  With `OS/2`
/// present its `fsSelection` bits decide all four and `head.macStyle` is
/// ignored; without it, `macStyle` gives bold and italic, oblique is false,
/// and regular falls back to neither-bold-nor-italic.
pub open spec fn spec_style_flags(mac_style: u16, os2: Option<Os2Table>) -> (bool, bool, bool, bool) {
    match os2 {
        Some(t) => {
            let fs = t.fs_selection;
            ((fs & 0x0040) != 0, (fs & 0x0001) != 0, (fs & 0x0020) != 0, (fs & 0x0200) != 0)
        },
        None => {
            let bold = (mac_style & 0x0001) != 0;
            let italic = (mac_style & 0x0002) != 0;
            (!bold && !italic, italic, bold, false)
        },
    }
}

/// The embedding permission the licensing bits of `fsType` name, `None`
/// for an unrecognized combination.
pub open spec fn spec_permissions(fs_type: u16) -> Option<Permissions> {
    let bits = fs_type & 0x000F;
    if bits == 0 {
        Some(Permissions::Installable)
    } else if bits == 2 {
        Some(Permissions::Restricted)
    } else if bits == 4 {
        Some(Permissions::PreviewAndPrint)
    } else if bits == 8 {
        Some(Permissions::Editable)
    } else {
        None
    }
}

/// Assembles the snapshot from the decoded tables.  Every `OS/2`-derived
/// field of an `OS/2`-less font is absent, not defaulted.
pub open spec fn spec_build_info(
    name_t: Seq<u8>,
    recs: Seq<NameRecord>,
    head: HeadTable,
    hhea: HheaTable,
    maxp: MaxpTable,
    os2: Option<Os2Table>,
    post: Option<PostTable>,
    has_fvar: bool,
) -> FontInfoModel {
    let flags = spec_style_flags(head.mac_style, os2);
    FontInfoModel {
        family_names: spec_family_names(name_t, recs),
        post_script_name: spec_ps_name(name_t, recs),
        units_per_em: head.units_per_em,
        ascender: hhea.ascender,
        descender: hhea.descender,
        line_gap: hhea.line_gap,
        global_bounding_box: Rect {
            x_min: head.x_min,
            y_min: head.y_min,
            x_max: head.x_max,
            y_max: head.y_max,
        },
        number_of_glyphs: maxp.num_glyphs,
        underline_metrics: match post {
            Some(p) => Some(
                LineMetrics { position: p.underline_position, thickness: p.underline_thickness },
            ),
            None => None,
        },
        x_height: match os2 {
            Some(t) => t.x_height,
            None => None,
        },
        weight: match os2 {
            Some(t) => Some(spec_weight_bucket(t.weight_class)),
            None => None,
        },
        width: match os2 {
            Some(t) => Some(spec_width_bucket(t.width_class)),
            None => None,
        },
        is_regular: flags.0,
        is_italic: flags.1,
        is_bold: flags.2,
        is_oblique: flags.3,
        strikeout_metrics: match os2 {
            Some(t) => Some(t.strikeout),
            None => None,
        },
        subscript_metrics: match os2 {
            Some(t) => Some(t.subscript),
            None => None,
        },
        superscript_metrics: match os2 {
            Some(t) => Some(t.superscript),
            None => None,
        },
        permissions: match os2 {
            Some(t) => spec_permissions(t.fs_type),
            None => None,
        },
        is_variable: has_fvar,
    }
}

/// The whole analysis as a function of the input bytes: container, strict
/// checksums if asked, the mandatory `head`, `hhea`, `maxp` and `name`
/// tables, the optional `OS/2` and `post`, and `fvar` presence.  Errors
/// surface exactly as the stage that found them reports.
pub open spec fn spec_analyze(s: Seq<u8>, idx: int, strict: bool) -> Result<
    FontInfoModel,
    AnalysisError,
> {
    if !spec_container_ok(s, idx) {
        Err(AnalysisError::MalformedContainer)
    } else {
        let ts = spec_tables(s, idx);
        if strict && spec_first_bad_cksum(s, ts) is Some {
            Err(AnalysisError::ChecksumMismatch(spec_first_bad_cksum(s, ts)->Some_0))
        } else {
            match spec_find(ts, TAG_HEAD) {
                None => Err(AnalysisError::MandatoryTableMissing(TAG_HEAD)),
                Some(eh) => match spec_decode_head(table_window(s, eh)) {
                    Err(e) => Err(e),
                    Ok(head) => match spec_find(ts, TAG_HHEA) {
                        None => Err(AnalysisError::MandatoryTableMissing(TAG_HHEA)),
                        Some(ea) => match spec_decode_hhea(table_window(s, ea)) {
                            Err(e) => Err(e),
                            Ok(hhea) => match spec_find(ts, TAG_MAXP) {
                                None => Err(AnalysisError::MandatoryTableMissing(TAG_MAXP)),
                                Some(em) => match spec_decode_maxp(table_window(s, em)) {
                                    Err(e) => Err(e),
                                    Ok(maxp) => match spec_find(ts, TAG_NAME) {
                                        None => Err(AnalysisError::MandatoryTableMissing(TAG_NAME)),
                                        Some(en) => match spec_parse_name(table_window(s, en)) {
                                            Err(e) => Err(e),
                                            Ok(recs) => match (match spec_find(ts, TAG_OS2) {
                                                None => Ok(None),
                                                Some(e2) => match spec_decode_os2(
                                                    table_window(s, e2),
                                                ) {
                                                    Err(er) => Err(er),
                                                    Ok(t2) => Ok(Some(t2)),
                                                },
                                            }) {
                                                Err(e) => Err(e),
                                                Ok(os2) => match (match spec_find(ts, TAG_POST) {
                                                    None => Ok(None),
                                                    Some(ep) => match spec_decode_post(
                                                        table_window(s, ep),
                                                    ) {
                                                        Err(er) => Err(er),
                                                        Ok(tp) => Ok(Some(tp)),
                                                    },
                                                }) {
                                                    Err(e) => Err(e),
                                                    Ok(post) => Ok(
                                                        spec_build_info(
                                                            table_window(s, en),
                                                            recs,
                                                            head,
                                                            hhea,
                                                            maxp,
                                                            os2,
                                                            post,
                                                            spec_find(ts, TAG_FVAR) is Some,
                                                        ),
                                                    ),
                                                },
                                            },
                                        },
                                    },
                                },
                            },
                        },
                    },
                },
            }
        }
    }
}

/// Computes the four style flags.
pub fn style_flags(mac_style: u16, os2: &Option<Os2Table>) -> (r: (bool, bool, bool, bool))
    ensures
        r == spec_style_flags(mac_style, *os2),
{
    match os2 {
        Some(t) => {
            let fs = t.fs_selection;
            ((fs & 0x0040) != 0, (fs & 0x0001) != 0, (fs & 0x0020) != 0, (fs & 0x0200) != 0)
        },
        None => {
            let bold = (mac_style & 0x0001) != 0;
            let italic = (mac_style & 0x0002) != 0;
            (!bold && !italic, italic, bold, false)
        },
    }
}

/// Decodes the licensing bits of `fsType`.
pub fn permissions_of(fs_type: u16) -> (r: Option<Permissions>)
    ensures
        r == spec_permissions(fs_type),
{
    let bits = fs_type & 0x000F;
    if bits == 0 {
        Some(Permissions::Installable)
    } else if bits == 2 {
        Some(Permissions::Restricted)
    } else if bits == 4 {
        Some(Permissions::PreviewAndPrint)
    } else if bits == 8 {
        Some(Permissions::Editable)
    } else {
        None
    }
}

/// Analyzes one font: parses the container, decodes the tables, resolves
/// the names, and returns the aggregated snapshot — exactly the value and
/// the errors that `spec_analyze` assigns to these bytes.
#[verifier::rlimit(100)]
pub fn analyze_font(data: Vec<u8>, face_index: usize, strict: bool) -> (r: Result<
    FontInfo,
    AnalysisError,
>)
    ensures
        match r {
            Ok(info) => spec_analyze(data@, face_index as int, strict) == Ok::<
                FontInfoModel,
                AnalysisError,
            >(info@),
            Err(e) => spec_analyze(data@, face_index as int, strict) == Err::<
                FontInfoModel,
                AnalysisError,
            >(e),
        },
{
    let ghost s = data@;
    let ghost idx = face_index as int;
    let font = match RawFont::parse(data, face_index) {
        Ok(f) => f,
        Err(e) => { return Err(e) },
    };
    let ghost ts = spec_tables(s, idx);
    if strict {
        match font.check_checksums() {
            Ok(_) => {},
            Err(e) => { return Err(e) },
        }
    }
    let eh = match font.find_table(TAG_HEAD) {
        Some(e) => e,
        None => { return Err(AnalysisError::MandatoryTableMissing(TAG_HEAD)) },
    };
    proof {
        lemma_find_is_member(ts, TAG_HEAD, 0);
    }
    let head = match decode_head(&font.data, eh.offset as usize, eh.length as usize) {
        Ok(h) => h,
        Err(e) => { return Err(e) },
    };
    let ea = match font.find_table(TAG_HHEA) {
        Some(e) => e,
        None => { return Err(AnalysisError::MandatoryTableMissing(TAG_HHEA)) },
    };
    proof {
        lemma_find_is_member(ts, TAG_HHEA, 0);
    }
    let hhea = match decode_hhea(&font.data, ea.offset as usize, ea.length as usize) {
        Ok(h) => h,
        Err(e) => { return Err(e) },
    };
    let em = match font.find_table(TAG_MAXP) {
        Some(e) => e,
        None => { return Err(AnalysisError::MandatoryTableMissing(TAG_MAXP)) },
    };
    proof {
        lemma_find_is_member(ts, TAG_MAXP, 0);
    }
    let maxp = match decode_maxp(&font.data, em.offset as usize, em.length as usize) {
        Ok(h) => h,
        Err(e) => { return Err(e) },
    };
    let en = match font.find_table(TAG_NAME) {
        Some(e) => e,
        None => { return Err(AnalysisError::MandatoryTableMissing(TAG_NAME)) },
    };
    proof {
        lemma_find_is_member(ts, TAG_NAME, 0);
    }
    let name_off = en.offset as usize;
    let name_len = en.length as usize;
    let recs = match parse_name_table(&font.data, name_off, name_len) {
        Ok(v) => v,
        Err(e) => { return Err(e) },
    };
    let fam = family_names(&font.data, name_off, name_len, &recs);
    let ps = postscript_name(&font.data, name_off, name_len, &recs);
    let os2 = match font.find_table(TAG_OS2) {
        None => None,
        Some(e2) => {
            proof {
                lemma_find_is_member(ts, TAG_OS2, 0);
            }
            match decode_os2(&font.data, e2.offset as usize, e2.length as usize) {
                Ok(t) => Some(t),
                Err(er) => { return Err(er) },
            }
        },
    };
    let post = match font.find_table(TAG_POST) {
        None => None,
        Some(ep) => {
            proof {
                lemma_find_is_member(ts, TAG_POST, 0);
            }
            match decode_post(&font.data, ep.offset as usize, ep.length as usize) {
                Ok(t) => Some(t),
                Err(er) => { return Err(er) },
            }
        },
    };
    let is_variable = font.find_table(TAG_FVAR).is_some();
    let flags = style_flags(head.mac_style, &os2);
    let info = FontInfo {
        family_names: fam,
        post_script_name: ps,
        units_per_em: head.units_per_em,
        ascender: hhea.ascender,
        descender: hhea.descender,
        line_gap: hhea.line_gap,
        global_bounding_box: Rect {
            x_min: head.x_min,
            y_min: head.y_min,
            x_max: head.x_max,
            y_max: head.y_max,
        },
        number_of_glyphs: maxp.num_glyphs,
        underline_metrics: match post {
            Some(p) => Some(
                LineMetrics { position: p.underline_position, thickness: p.underline_thickness },
            ),
            None => None,
        },
        x_height: match os2 {
            Some(t) => t.x_height,
            None => None,
        },
        weight: match os2 {
            Some(t) => Some(weight_bucket(t.weight_class)),
            None => None,
        },
        width: match os2 {
            Some(t) => Some(width_bucket(t.width_class)),
            None => None,
        },
        is_regular: flags.0,
        is_italic: flags.1,
        is_bold: flags.2,
        is_oblique: flags.3,
        strikeout_metrics: match os2 {
            Some(t) => Some(t.strikeout),
            None => None,
        },
        subscript_metrics: match os2 {
            Some(t) => Some(t.subscript),
            None => None,
        },
        superscript_metrics: match os2 {
            Some(t) => Some(t.superscript),
            None => None,
        },
        permissions: match os2 {
            Some(t) => permissions_of(t.fs_type),
            None => None,
        },
        is_variable,
    };
    Ok(info)
}

/// The analysis is a function of the bytes alone: equal buffers, face index
/// and strictness yield equal results, so parsing the same buffer twice
/// gives bit-identical snapshots.
pub proof fn lemma_analyze_deterministic(b1: Seq<u8>, b2: Seq<u8>, idx: int, strict: bool)
    requires
        b1 == b2,
    ensures
        spec_analyze(b1, idx, strict) == spec_analyze(b2, idx, strict),
{
}

/// Totality on short input: any buffer under 12 bytes fails with
/// `MalformedContainer` — and, every function here being verified, without
/// a panic or an out-of-bounds read.
pub proof fn lemma_short_buffer_malformed(s: Seq<u8>, idx: int, strict: bool)
    requires
        s.len() < 12,
    ensures
        spec_analyze(s, idx, strict) == Err::<FontInfoModel, AnalysisError>(
            AnalysisError::MalformedContainer,
        ),
{
}

/// Style precedence: when `OS/2` is present, `fsSelection` alone decides
/// all four flags — two fonts differing only in `head.macStyle` resolve
/// identically, and each flag is the stated `fsSelection` bit.
pub proof fn lemma_style_precedence(m1: u16, m2: u16, t: Os2Table)
    ensures
        spec_style_flags(m1, Some(t)) == spec_style_flags(m2, Some(t)),
        spec_style_flags(m1, Some(t)).0 == ((t.fs_selection & 0x0040) != 0),
        spec_style_flags(m1, Some(t)).1 == ((t.fs_selection & 0x0001) != 0),
        spec_style_flags(m1, Some(t)).2 == ((t.fs_selection & 0x0020) != 0),
        spec_style_flags(m1, Some(t)).3 == ((t.fs_selection & 0x0200) != 0),
{
}

/// A font without `OS/2` still succeeds, with the dependent fields absent
/// rather than defaulted: no weight or width bucket, no oblique flag.
pub proof fn lemma_missing_os2_absent(
    name_t: Seq<u8>,
    recs: Seq<NameRecord>,
    head: HeadTable,
    hhea: HheaTable,
    maxp: MaxpTable,
    post: Option<PostTable>,
    has_fvar: bool,
)
    ensures
        ({
            let m = spec_build_info(name_t, recs, head, hhea, maxp, None, post, has_fvar);
            &&& m.weight is None
            &&& m.width is None
            &&& m.x_height is None
            &&& m.permissions is None
            &&& !m.is_oblique
        }),
{
}

} // verus!
