//! Name table resolver: parses the record directory of the `name` table,
//! decodes string bytes (UTF-16BE for Windows/Unicode platforms, MacRoman
//! for classic Macintosh records), and extracts the family-name list and the
//! PostScript name.
//!
//! A record whose declared string bounds fall outside the table, or whose
//! bytes do not decode, is dropped; one bad record never fails the table.

use vstd::prelude::*;
use vstd::string::StringExecFns;

use crate::error::AnalysisError;
use crate::error::TAG_NAME;
use crate::reader::be16;
use crate::tables::read_u16_in;
use crate::tables::window;

verus! {

/// Relies on `char::from_u32` of std: `Some` exactly on Unicode scalar
/// values (below the surrogate range, or between it and 0x10FFFF), and then
/// the `char` with that code.
pub assume_specification[ char::from_u32 ](u: u32) -> (r: Option<char>)
    ensures
        (u < 0xD800 || (0xE000 <= u && u <= 0x10FFFF)) ==> r == Some(u as char),
        !(u < 0xD800 || (0xE000 <= u && u <= 0x10FFFF)) ==> r is None,
;

/// Relies on `String::push` of std: appends the given char at the end.
pub assume_specification[ String::push ](s: &mut String, c: char)
    ensures
        final (s)@ == old(s)@.push(c),
;

/// One entry of the `name` table's record directory.  The string bytes are
/// kept as a range into the table, not copied: `str_start` counts from the
/// table's first byte.
#[derive(Debug, Clone, Copy, PartialEq, Eq, Structural)]
pub struct NameRecord {
    pub platform_id: u16,
    pub encoding_id: u16,
    pub language_id: u16,
    pub name_id: u16,
    /// Start of the string bytes, from the beginning of the name table.
    pub str_start: usize,
    /// Length of the string bytes.
    pub str_len: usize,
}

/// The table's format field: 0 and 1 carry the record directory.
pub open spec fn spec_name_format(t: Seq<u8>) -> int {
    be16(t, 0)
}

/// The record count of the table.
pub open spec fn spec_name_count(t: Seq<u8>) -> int {
    be16(t, 2)
}

/// Start of the string storage, from the beginning of the table.
pub open spec fn spec_storage_offset(t: Seq<u8>) -> int {
    be16(t, 4)
}

/// The `i`-th 12-byte record, its string range resolved against the
/// storage offset.
pub open spec fn spec_record_at(t: Seq<u8>, i: int) -> NameRecord {
    let rb = 6 + 12 * i;
    NameRecord {
        platform_id: be16(t, rb) as u16,
        encoding_id: be16(t, rb + 2) as u16,
        language_id: be16(t, rb + 4) as u16,
        name_id: be16(t, rb + 6) as u16,
        str_start: (spec_storage_offset(t) + be16(t, rb + 10)) as usize,
        str_len: be16(t, rb + 8) as usize,
    }
}

/// A record is kept only if its declared string bytes lie inside the table.
pub open spec fn spec_record_fits(t: Seq<u8>, i: int) -> bool {
    let r = spec_record_at(t, i);
    r.str_start + r.str_len <= t.len()
}

/// The records among the first `n` whose string bounds fit, in directory
/// order.
pub open spec fn spec_records_upto(t: Seq<u8>, n: int) -> Seq<NameRecord>
    decreases n,
{
    if n <= 0 {
        Seq::empty()
    } else if spec_record_fits(t, n - 1) {
        spec_records_upto(t, n - 1).push(spec_record_at(t, n - 1))
    } else {
        spec_records_upto(t, n - 1)
    }
}

/// What the resolver yields on a `name` table with bytes `t`: too short for
/// its header or its record directory is an error; an unknown format reads
/// as no records; otherwise the in-bounds records in directory order.
/// The language-tag records a format-1 table appends after the directory
/// feed nothing surfaced here, so they are left unread.
pub open spec fn spec_parse_name(t: Seq<u8>) -> Result<Seq<NameRecord>, AnalysisError> {
    if t.len() < 6 {
        Err(AnalysisError::TableTooShort(TAG_NAME))
    } else if spec_name_format(t) != 0 && spec_name_format(t) != 1 {
        Ok(Seq::empty())
    } else if 6 + 12 * spec_name_count(t) > t.len() {
        Err(AnalysisError::TableTooShort(TAG_NAME))
    } else {
        Ok(spec_records_upto(t, spec_name_count(t)))
    }
}

/// Parses the record directory of the `name` table at `[off, off + len)`.
/// Every returned record's string range fits inside the table.
#[verifier::rlimit(50)]
pub fn parse_name_table(data: &Vec<u8>, off: usize, len: usize) -> (r: Result<
    Vec<NameRecord>,
    AnalysisError,
>)
    requires
        off + len <= data.len(),
    ensures
        match (r, spec_parse_name(window(data@, off as int, len as int))) {
            (Ok(v), Ok(s)) => v@ == s && (forall|k: int|
                0 <= k < v@.len() ==> (#[trigger] v@[k]).str_start + v@[k].str_len <= len),
            (Err(e1), Err(e2)) => e1 == e2,
            _ => false,
        },
{
    let ghost t = window(data@, off as int, len as int);
    if len < 6 {
        return Err(AnalysisError::TableTooShort(TAG_NAME));
    }
    let format = read_u16_in(data, off, len, 0);
    if format != 0 && format != 1 {
        return Ok(Vec::new());
    }
    let count = read_u16_in(data, off, len, 2) as usize;
    let storage = read_u16_in(data, off, len, 4) as usize;
    if 6 + 12 * count > len {
        return Err(AnalysisError::TableTooShort(TAG_NAME));
    }
    let mut recs: Vec<NameRecord> = Vec::new();
    let mut i: usize = 0;
    while i < count
        invariant
            off + len <= data.len(),
            t == window(data@, off as int, len as int),
            count == spec_name_count(t),
            storage == spec_storage_offset(t),
            6 + 12 * count <= len,
            i <= count,
            recs@ == spec_records_upto(t, i as int),
            forall|k: int|
                0 <= k < recs@.len() ==> (#[trigger] recs@[k]).str_start + recs@[k].str_len <= len,
        decreases count - i,
    {
        let rb = 6 + 12 * i;
        let rec = NameRecord {
            platform_id: read_u16_in(data, off, len, rb),
            encoding_id: read_u16_in(data, off, len, rb + 2),
            language_id: read_u16_in(data, off, len, rb + 4),
            name_id: read_u16_in(data, off, len, rb + 6),
            str_start: storage + (read_u16_in(data, off, len, rb + 10) as usize),
            str_len: read_u16_in(data, off, len, rb + 8) as usize,
        };
        assert(rec == spec_record_at(t, i as int));
        if rec.str_start + rec.str_len <= len {
            recs.push(rec);
        }
        i += 1;
    }
    Ok(recs)
}

/// What a byte sequence holds as UTF-16BE, if it is well formed: `None` on
/// an odd length, an unpaired surrogate, or a low surrogate out of place.
pub open spec fn spec_utf16_decode(b: Seq<u8>) -> Option<Seq<char>>
    decreases b.len(),
{
    if b.len() == 0 {
        Some(Seq::empty())
    } else if b.len() == 1 {
        None
    } else {
        let u = be16(b, 0);
        if 0xD800 <= u < 0xDC00 {
            if b.len() < 4 {
                None
            } else {
                let u2 = be16(b, 2);
                if 0xDC00 <= u2 < 0xE000 {
                    let c = 0x10000 + 0x400 * (u - 0xD800) + (u2 - 0xDC00);
                    match spec_utf16_decode(b.skip(4)) {
                        Some(rest) => Some(seq![(c as u32) as char] + rest),
                        None => None,
                    }
                } else {
                    None
                }
            }
        } else if 0xDC00 <= u < 0xE000 {
            None
        } else {
            match spec_utf16_decode(b.skip(2)) {
                Some(rest) => Some(seq![(u as u32) as char] + rest),
                None => None,
            }
        }
    }
}

/// Decodes the UTF-16BE bytes at `[start, start + len)`, `None` exactly
/// when they are not well formed.
#[verifier::rlimit(50)]
pub fn utf16be_decode(data: &Vec<u8>, start: usize, len: usize) -> (r: Option<String>)
    requires
        start + len <= data.len(),
    ensures
        match (r, spec_utf16_decode(window(data@, start as int, len as int))) {
            (Some(s), Some(cs)) => s@ == cs,
            (None, None) => true,
            _ => false,
        },
{
    let ghost whole = window(data@, start as int, len as int);
    let mut out = String::new();
    let mut pos: usize = 0;
    proof {
        assert(whole.skip(0) =~= whole);
        if spec_utf16_decode(whole) is Some {
            assert(Seq::<char>::empty() + spec_utf16_decode(whole)->Some_0 =~= spec_utf16_decode(
                whole,
            )->Some_0);
        }
    }
    while pos < len
        invariant
            start + len <= data.len(),
            whole == window(data@, start as int, len as int),
            pos <= len,
            spec_utf16_decode(whole) == match spec_utf16_decode(whole.skip(pos as int)) {
                Some(rest) => Some(out@ + rest),
                None => None::<Seq<char>>,
            },
        decreases len - pos,
    {
        let ghost rem = whole.skip(pos as int);
        let rem_len = len - pos;
        if rem_len == 1 {
            assert(spec_utf16_decode(rem) is None);
            return None;
        }
        let u = read_u16_in(data, start, len, pos);
        proof {
            assert(rem[0] == whole[pos as int]);
            assert(rem[1] == whole[pos as int + 1]);
            assert(be16(rem, 0) == be16(whole, pos as int));
        }
        if 0xD800 <= u && u < 0xDC00 {
            if rem_len < 4 {
                assert(spec_utf16_decode(rem) is None);
                return None;
            }
            let u2 = read_u16_in(data, start, len, pos + 2);
            proof {
                assert(rem[2] == whole[pos as int + 2]);
                assert(rem[3] == whole[pos as int + 3]);
                assert(be16(rem, 2) == be16(whole, pos as int + 2));
            }
            if !(0xDC00 <= u2 && u2 < 0xE000) {
                assert(spec_utf16_decode(rem) is None);
                return None;
            }
            let c: u32 = 0x10000 + 0x400 * ((u - 0xD800) as u32) + ((u2 - 0xDC00) as u32);
            let ch = char::from_u32(c).unwrap();
            let ghost prev = out@;
            out.push(ch);
            pos = pos + 4;
            proof {
                assert(whole.skip(pos as int) =~= rem.skip(4));
                if spec_utf16_decode(rem.skip(4)) is Some {
                    let rest = spec_utf16_decode(rem.skip(4))->Some_0;
                    assert(spec_utf16_decode(rem) == Some(seq![ch] + rest));
                    assert(prev + (seq![ch] + rest) =~= out@ + rest);
                } else {
                    assert(spec_utf16_decode(rem) is None);
                }
            }
        } else if 0xDC00 <= u && u < 0xE000 {
            assert(spec_utf16_decode(rem) is None);
            return None;
        } else {
            let ch = char::from_u32(u as u32).unwrap();
            let ghost prev = out@;
            out.push(ch);
            pos = pos + 2;
            proof {
                assert(whole.skip(pos as int) =~= rem.skip(2));
                if spec_utf16_decode(rem.skip(2)) is Some {
                    let rest = spec_utf16_decode(rem.skip(2))->Some_0;
                    assert(spec_utf16_decode(rem) == Some(seq![ch] + rest));
                    assert(prev + (seq![ch] + rest) =~= out@ + rest);
                } else {
                    assert(spec_utf16_decode(rem) is None);
                }
            }
        }
    }
    proof {
        assert(whole.skip(len as int) =~= Seq::<u8>::empty());
        assert(spec_utf16_decode(whole.skip(len as int)) == Some(Seq::<char>::empty()));
        assert(out@ + Seq::<char>::empty() =~= out@);
    }
    Some(out)
}


/// The char a MacRoman byte stands for: ASCII below 0x80, the classic
/// Macintosh repertoire above it.
pub open spec fn spec_mac_roman_char(b: u8) -> char {
    if b < 0x80 {
        b as char
    } else {
        match b {
            0x80 => '\u{00C4}',
            0x81 => '\u{00C5}',
            0x82 => '\u{00C7}',
            0x83 => '\u{00C9}',
            0x84 => '\u{00D1}',
            0x85 => '\u{00D6}',
            0x86 => '\u{00DC}',
            0x87 => '\u{00E1}',
            0x88 => '\u{00E0}',
            0x89 => '\u{00E2}',
            0x8A => '\u{00E4}',
            0x8B => '\u{00E3}',
            0x8C => '\u{00E5}',
            0x8D => '\u{00E7}',
            0x8E => '\u{00E9}',
            0x8F => '\u{00E8}',
            0x90 => '\u{00EA}',
            0x91 => '\u{00EB}',
            0x92 => '\u{00ED}',
            0x93 => '\u{00EC}',
            0x94 => '\u{00EE}',
            0x95 => '\u{00EF}',
            0x96 => '\u{00F1}',
            0x97 => '\u{00F3}',
            0x98 => '\u{00F2}',
            0x99 => '\u{00F4}',
            0x9A => '\u{00F6}',
            0x9B => '\u{00F5}',
            0x9C => '\u{00FA}',
            0x9D => '\u{00F9}',
            0x9E => '\u{00FB}',
            0x9F => '\u{00FC}',
            0xA0 => '\u{2020}',
            0xA1 => '\u{00B0}',
            0xA2 => '\u{00A2}',
            0xA3 => '\u{00A3}',
            0xA4 => '\u{00A7}',
            0xA5 => '\u{2022}',
            0xA6 => '\u{00B6}',
            0xA7 => '\u{00DF}',
            0xA8 => '\u{00AE}',
            0xA9 => '\u{00A9}',
            0xAA => '\u{2122}',
            0xAB => '\u{00B4}',
            0xAC => '\u{00A8}',
            0xAD => '\u{2260}',
            0xAE => '\u{00C6}',
            0xAF => '\u{00D8}',
            0xB0 => '\u{221E}',
            0xB1 => '\u{00B1}',
            0xB2 => '\u{2264}',
            0xB3 => '\u{2265}',
            0xB4 => '\u{00A5}',
            0xB5 => '\u{00B5}',
            0xB6 => '\u{2202}',
            0xB7 => '\u{2211}',
            0xB8 => '\u{220F}',
            0xB9 => '\u{03C0}',
            0xBA => '\u{222B}',
            0xBB => '\u{00AA}',
            0xBC => '\u{00BA}',
            0xBD => '\u{03A9}',
            0xBE => '\u{00E6}',
            0xBF => '\u{00F8}',
            0xC0 => '\u{00BF}',
            0xC1 => '\u{00A1}',
            0xC2 => '\u{00AC}',
            0xC3 => '\u{221A}',
            0xC4 => '\u{0192}',
            0xC5 => '\u{2248}',
            0xC6 => '\u{2206}',
            0xC7 => '\u{00AB}',
            0xC8 => '\u{00BB}',
            0xC9 => '\u{2026}',
            0xCA => '\u{00A0}',
            0xCB => '\u{00C0}',
            0xCC => '\u{00C3}',
            0xCD => '\u{00D5}',
            0xCE => '\u{0152}',
            0xCF => '\u{0153}',
            0xD0 => '\u{2013}',
            0xD1 => '\u{2014}',
            0xD2 => '\u{201C}',
            0xD3 => '\u{201D}',
            0xD4 => '\u{2018}',
            0xD5 => '\u{2019}',
            0xD6 => '\u{00F7}',
            0xD7 => '\u{25CA}',
            0xD8 => '\u{00FF}',
            0xD9 => '\u{0178}',
            0xDA => '\u{2044}',
            0xDB => '\u{20AC}',
            0xDC => '\u{2039}',
            0xDD => '\u{203A}',
            0xDE => '\u{FB01}',
            0xDF => '\u{FB02}',
            0xE0 => '\u{2021}',
            0xE1 => '\u{00B7}',
            0xE2 => '\u{201A}',
            0xE3 => '\u{201E}',
            0xE4 => '\u{2030}',
            0xE5 => '\u{00C2}',
            0xE6 => '\u{00CA}',
            0xE7 => '\u{00C1}',
            0xE8 => '\u{00CB}',
            0xE9 => '\u{00C8}',
            0xEA => '\u{00CD}',
            0xEB => '\u{00CE}',
            0xEC => '\u{00CF}',
            0xED => '\u{00CC}',
            0xEE => '\u{00D3}',
            0xEF => '\u{00D4}',
            0xF0 => '\u{F8FF}',
            0xF1 => '\u{00D2}',
            0xF2 => '\u{00DA}',
            0xF3 => '\u{00DB}',
            0xF4 => '\u{00D9}',
            0xF5 => '\u{0131}',
            0xF6 => '\u{02C6}',
            0xF7 => '\u{02DC}',
            0xF8 => '\u{00AF}',
            0xF9 => '\u{02D8}',
            0xFA => '\u{02D9}',
            0xFB => '\u{02DA}',
            0xFC => '\u{00B8}',
            0xFD => '\u{02DD}',
            0xFE => '\u{02DB}',
            0xFF => '\u{02C7}',
            _ => '\u{FFFD}',
        }
    }
}

/// MacRoman decoding is total: every byte stands for one char.
pub open spec fn spec_mac_roman_decode(b: Seq<u8>) -> Seq<char> {
    Seq::new(b.len(), |i: int| spec_mac_roman_char(b[i]))
}

/// Maps one MacRoman byte to its char.
#[verifier::rlimit(50)]
pub fn mac_roman_char(b: u8) -> (c: char)
    ensures
        c == spec_mac_roman_char(b),
{
    if b < 0x80 {
        b as char
    } else {
        match b {
            0x80 => '\u{00C4}',
            0x81 => '\u{00C5}',
            0x82 => '\u{00C7}',
            0x83 => '\u{00C9}',
            0x84 => '\u{00D1}',
            0x85 => '\u{00D6}',
            0x86 => '\u{00DC}',
            0x87 => '\u{00E1}',
            0x88 => '\u{00E0}',
            0x89 => '\u{00E2}',
            0x8A => '\u{00E4}',
            0x8B => '\u{00E3}',
            0x8C => '\u{00E5}',
            0x8D => '\u{00E7}',
            0x8E => '\u{00E9}',
            0x8F => '\u{00E8}',
            0x90 => '\u{00EA}',
            0x91 => '\u{00EB}',
            0x92 => '\u{00ED}',
            0x93 => '\u{00EC}',
            0x94 => '\u{00EE}',
            0x95 => '\u{00EF}',
            0x96 => '\u{00F1}',
            0x97 => '\u{00F3}',
            0x98 => '\u{00F2}',
            0x99 => '\u{00F4}',
            0x9A => '\u{00F6}',
            0x9B => '\u{00F5}',
            0x9C => '\u{00FA}',
            0x9D => '\u{00F9}',
            0x9E => '\u{00FB}',
            0x9F => '\u{00FC}',
            0xA0 => '\u{2020}',
            0xA1 => '\u{00B0}',
            0xA2 => '\u{00A2}',
            0xA3 => '\u{00A3}',
            0xA4 => '\u{00A7}',
            0xA5 => '\u{2022}',
            0xA6 => '\u{00B6}',
            0xA7 => '\u{00DF}',
            0xA8 => '\u{00AE}',
            0xA9 => '\u{00A9}',
            0xAA => '\u{2122}',
            0xAB => '\u{00B4}',
            0xAC => '\u{00A8}',
            0xAD => '\u{2260}',
            0xAE => '\u{00C6}',
            0xAF => '\u{00D8}',
            0xB0 => '\u{221E}',
            0xB1 => '\u{00B1}',
            0xB2 => '\u{2264}',
            0xB3 => '\u{2265}',
            0xB4 => '\u{00A5}',
            0xB5 => '\u{00B5}',
            0xB6 => '\u{2202}',
            0xB7 => '\u{2211}',
            0xB8 => '\u{220F}',
            0xB9 => '\u{03C0}',
            0xBA => '\u{222B}',
            0xBB => '\u{00AA}',
            0xBC => '\u{00BA}',
            0xBD => '\u{03A9}',
            0xBE => '\u{00E6}',
            0xBF => '\u{00F8}',
            0xC0 => '\u{00BF}',
            0xC1 => '\u{00A1}',
            0xC2 => '\u{00AC}',
            0xC3 => '\u{221A}',
            0xC4 => '\u{0192}',
            0xC5 => '\u{2248}',
            0xC6 => '\u{2206}',
            0xC7 => '\u{00AB}',
            0xC8 => '\u{00BB}',
            0xC9 => '\u{2026}',
            0xCA => '\u{00A0}',
            0xCB => '\u{00C0}',
            0xCC => '\u{00C3}',
            0xCD => '\u{00D5}',
            0xCE => '\u{0152}',
            0xCF => '\u{0153}',
            0xD0 => '\u{2013}',
            0xD1 => '\u{2014}',
            0xD2 => '\u{201C}',
            0xD3 => '\u{201D}',
            0xD4 => '\u{2018}',
            0xD5 => '\u{2019}',
            0xD6 => '\u{00F7}',
            0xD7 => '\u{25CA}',
            0xD8 => '\u{00FF}',
            0xD9 => '\u{0178}',
            0xDA => '\u{2044}',
            0xDB => '\u{20AC}',
            0xDC => '\u{2039}',
            0xDD => '\u{203A}',
            0xDE => '\u{FB01}',
            0xDF => '\u{FB02}',
            0xE0 => '\u{2021}',
            0xE1 => '\u{00B7}',
            0xE2 => '\u{201A}',
            0xE3 => '\u{201E}',
            0xE4 => '\u{2030}',
            0xE5 => '\u{00C2}',
            0xE6 => '\u{00CA}',
            0xE7 => '\u{00C1}',
            0xE8 => '\u{00CB}',
            0xE9 => '\u{00C8}',
            0xEA => '\u{00CD}',
            0xEB => '\u{00CE}',
            0xEC => '\u{00CF}',
            0xED => '\u{00CC}',
            0xEE => '\u{00D3}',
            0xEF => '\u{00D4}',
            0xF0 => '\u{F8FF}',
            0xF1 => '\u{00D2}',
            0xF2 => '\u{00DA}',
            0xF3 => '\u{00DB}',
            0xF4 => '\u{00D9}',
            0xF5 => '\u{0131}',
            0xF6 => '\u{02C6}',
            0xF7 => '\u{02DC}',
            0xF8 => '\u{00AF}',
            0xF9 => '\u{02D8}',
            0xFA => '\u{02D9}',
            0xFB => '\u{02DA}',
            0xFC => '\u{00B8}',
            0xFD => '\u{02DD}',
            0xFE => '\u{02DB}',
            0xFF => '\u{02C7}',
            _ => '\u{FFFD}',
        }
    }
}

/// Decodes the MacRoman bytes at `[start, start + len)`.
pub fn mac_roman_decode(data: &Vec<u8>, start: usize, len: usize) -> (r: String)
    requires
        start + len <= data.len(),
    ensures
        r@ == spec_mac_roman_decode(window(data@, start as int, len as int)),
{
    let ghost whole = window(data@, start as int, len as int);
    let mut out = String::new();
    let mut pos: usize = 0;
    while pos < len
        invariant
            start + len <= data.len(),
            whole == window(data@, start as int, len as int),
            pos <= len,
            out@.len() == pos,
            forall|k: int| 0 <= k < pos as int ==> out@[k] == spec_mac_roman_char(whole[k]),
        decreases len - pos,
    {
        let b = data[start + pos];
        assert(b == whole[pos as int]);
        let c = mac_roman_char(b);
        out.push(c);
        pos += 1;
    }
    proof {
        assert(out@ =~= spec_mac_roman_decode(whole));
    }
    out
}


/// The (primary language, region) pair a record's language ID names: the
/// Windows LCID registry for platform 3, the Macintosh language codes for
/// platform 1.  A compact table of the registries' common entries; an ID
/// outside it, or another platform, reads ("Unknown", "").
pub open spec fn spec_language_names(platform_id: u16, language_id: u16) -> (Seq<char>, Seq<
    char,
>) {
    if platform_id == 3 {
        match language_id {
            0x0401 => ("Arabic"@, "Saudi Arabia"@),
            0x0404 => ("Chinese"@, "Taiwan"@),
            0x0407 => ("German"@, "Germany"@),
            0x0408 => ("Greek"@, "Greece"@),
            0x0409 => ("English"@, "United States"@),
            0x040A => ("Spanish"@, "Spain"@),
            0x040B => ("Finnish"@, "Finland"@),
            0x040C => ("French"@, "France"@),
            0x040D => ("Hebrew"@, "Israel"@),
            0x040E => ("Hungarian"@, "Hungary"@),
            0x0410 => ("Italian"@, "Italy"@),
            0x0411 => ("Japanese"@, "Japan"@),
            0x0412 => ("Korean"@, "Korea"@),
            0x0413 => ("Dutch"@, "Netherlands"@),
            0x0414 => ("Norwegian"@, "Norway"@),
            0x0415 => ("Polish"@, "Poland"@),
            0x0416 => ("Portuguese"@, "Brazil"@),
            0x0418 => ("Romanian"@, "Romania"@),
            0x0419 => ("Russian"@, "Russia"@),
            0x041A => ("Croatian"@, "Croatia"@),
            0x041B => ("Slovak"@, "Slovakia"@),
            0x041D => ("Swedish"@, "Sweden"@),
            0x041E => ("Thai"@, "Thailand"@),
            0x041F => ("Turkish"@, "Turkey"@),
            0x0421 => ("Indonesian"@, "Indonesia"@),
            0x0422 => ("Ukrainian"@, "Ukraine"@),
            0x0424 => ("Slovenian"@, "Slovenia"@),
            0x0425 => ("Estonian"@, "Estonia"@),
            0x0426 => ("Latvian"@, "Latvia"@),
            0x0427 => ("Lithuanian"@, "Lithuania"@),
            0x042A => ("Vietnamese"@, "Vietnam"@),
            0x0439 => ("Hindi"@, "India"@),
            0x0804 => ("Chinese"@, "People's Republic of China"@),
            0x0809 => ("English"@, "United Kingdom"@),
            0x080A => ("Spanish"@, "Mexico"@),
            0x0816 => ("Portuguese"@, "Portugal"@),
            0x0C04 => ("Chinese"@, "Hong Kong"@),
            0x0C09 => ("English"@, "Australia"@),
            0x0C0A => ("Spanish"@, "Spain"@),
            0x0C0C => ("French"@, "Canada"@),
            0x1009 => ("English"@, "Canada"@),
            0x1409 => ("English"@, "New Zealand"@),
            _ => ("Unknown"@, ""@),
        }
    } else if platform_id == 1 {
        match language_id {
            0 => ("English"@, "United States"@),
            1 => ("French"@, "France"@),
            2 => ("German"@, "Germany"@),
            3 => ("Italian"@, "Italy"@),
            4 => ("Dutch"@, "Netherlands"@),
            5 => ("Swedish"@, "Sweden"@),
            6 => ("Spanish"@, "Spain"@),
            7 => ("Danish"@, "Denmark"@),
            8 => ("Portuguese"@, "Portugal"@),
            9 => ("Norwegian"@, "Norway"@),
            10 => ("Hebrew"@, "Israel"@),
            11 => ("Japanese"@, "Japan"@),
            12 => ("Arabic"@, "Saudi Arabia"@),
            13 => ("Finnish"@, "Finland"@),
            14 => ("Greek"@, "Greece"@),
            17 => ("Turkish"@, "Turkey"@),
            19 => ("Chinese"@, "Taiwan"@),
            21 => ("Hindi"@, "India"@),
            22 => ("Thai"@, "Thailand"@),
            23 => ("Korean"@, "Korea"@),
            32 => ("Russian"@, "Russia"@),
            33 => ("Chinese"@, "People's Republic of China"@),
            _ => ("Unknown"@, ""@),
        }
    } else {
        ("Unknown"@, ""@)
    }
}

/// Looks a record's language ID up in the registry for its platform.
#[verifier::rlimit(50)]
pub fn language_names(platform_id: u16, language_id: u16) -> (r: (&'static str, &'static str))
    ensures
        r.0@ == spec_language_names(platform_id, language_id).0,
        r.1@ == spec_language_names(platform_id, language_id).1,
{
    if platform_id == 3 {
        match language_id {
            0x0401 => ("Arabic", "Saudi Arabia"),
            0x0404 => ("Chinese", "Taiwan"),
            0x0407 => ("German", "Germany"),
            0x0408 => ("Greek", "Greece"),
            0x0409 => ("English", "United States"),
            0x040A => ("Spanish", "Spain"),
            0x040B => ("Finnish", "Finland"),
            0x040C => ("French", "France"),
            0x040D => ("Hebrew", "Israel"),
            0x040E => ("Hungarian", "Hungary"),
            0x0410 => ("Italian", "Italy"),
            0x0411 => ("Japanese", "Japan"),
            0x0412 => ("Korean", "Korea"),
            0x0413 => ("Dutch", "Netherlands"),
            0x0414 => ("Norwegian", "Norway"),
            0x0415 => ("Polish", "Poland"),
            0x0416 => ("Portuguese", "Brazil"),
            0x0418 => ("Romanian", "Romania"),
            0x0419 => ("Russian", "Russia"),
            0x041A => ("Croatian", "Croatia"),
            0x041B => ("Slovak", "Slovakia"),
            0x041D => ("Swedish", "Sweden"),
            0x041E => ("Thai", "Thailand"),
            0x041F => ("Turkish", "Turkey"),
            0x0421 => ("Indonesian", "Indonesia"),
            0x0422 => ("Ukrainian", "Ukraine"),
            0x0424 => ("Slovenian", "Slovenia"),
            0x0425 => ("Estonian", "Estonia"),
            0x0426 => ("Latvian", "Latvia"),
            0x0427 => ("Lithuanian", "Lithuania"),
            0x042A => ("Vietnamese", "Vietnam"),
            0x0439 => ("Hindi", "India"),
            0x0804 => ("Chinese", "People's Republic of China"),
            0x0809 => ("English", "United Kingdom"),
            0x080A => ("Spanish", "Mexico"),
            0x0816 => ("Portuguese", "Portugal"),
            0x0C04 => ("Chinese", "Hong Kong"),
            0x0C09 => ("English", "Australia"),
            0x0C0A => ("Spanish", "Spain"),
            0x0C0C => ("French", "Canada"),
            0x1009 => ("English", "Canada"),
            0x1409 => ("English", "New Zealand"),
            _ => ("Unknown", ""),
        }
    } else if platform_id == 1 {
        match language_id {
            0 => ("English", "United States"),
            1 => ("French", "France"),
            2 => ("German", "Germany"),
            3 => ("Italian", "Italy"),
            4 => ("Dutch", "Netherlands"),
            5 => ("Swedish", "Sweden"),
            6 => ("Spanish", "Spain"),
            7 => ("Danish", "Denmark"),
            8 => ("Portuguese", "Portugal"),
            9 => ("Norwegian", "Norway"),
            10 => ("Hebrew", "Israel"),
            11 => ("Japanese", "Japan"),
            12 => ("Arabic", "Saudi Arabia"),
            13 => ("Finnish", "Finland"),
            14 => ("Greek", "Greece"),
            17 => ("Turkish", "Turkey"),
            19 => ("Chinese", "Taiwan"),
            21 => ("Hindi", "India"),
            22 => ("Thai", "Thailand"),
            23 => ("Korean", "Korea"),
            32 => ("Russian", "Russia"),
            33 => ("Chinese", "People's Republic of China"),
            _ => ("Unknown", ""),
        }
    } else {
        ("Unknown", "")
    }
}

/// A record whose platform and encoding promise Unicode text: the Unicode
/// platform, or Windows with a symbol, BMP or full-repertoire encoding.
pub open spec fn spec_is_unicode_record(r: NameRecord) -> bool {
    r.platform_id == 0 || (r.platform_id == 3 && (r.encoding_id == 0 || r.encoding_id == 1
        || r.encoding_id == 10))
}

/// Whether the record's platform and encoding promise Unicode text.
pub fn is_unicode_record(r: &NameRecord) -> (b: bool)
    ensures
        b == spec_is_unicode_record(*r),
{
    r.platform_id == 0 || (r.platform_id == 3 && (r.encoding_id == 0 || r.encoding_id == 1
        || r.encoding_id == 10))
}

/// The decoding policy for one record's string bytes: Windows and Unicode
/// platforms read UTF-16BE; Macintosh Roman reads MacRoman; anything else
/// is tried as UTF-16BE when its byte length is even and skipped when odd.
pub open spec fn spec_decode_record(t: Seq<u8>, r: NameRecord) -> Option<Seq<char>>
    recommends
        r.str_start + r.str_len <= t.len(),
{
    let b = t.subrange(r.str_start as int, r.str_start as int + r.str_len as int);
    if r.platform_id == 3 || r.platform_id == 0 {
        spec_utf16_decode(b)
    } else if r.platform_id == 1 && r.encoding_id == 0 {
        Some(spec_mac_roman_decode(b))
    } else if r.str_len % 2 == 0 {
        spec_utf16_decode(b)
    } else {
        None
    }
}

/// Decodes one record's string bytes by the platform policy; `None` is a
/// soft failure that drops the record alone.
pub fn decode_record(data: &Vec<u8>, off: usize, len: usize, r: NameRecord) -> (out: Option<
    String,
>)
    requires
        off + len <= data.len(),
        r.str_start + r.str_len <= len,
    ensures
        match (out, spec_decode_record(window(data@, off as int, len as int), r)) {
            (Some(s), Some(cs)) => s@ == cs,
            (None, None) => true,
            _ => false,
        },
{
    proof {
        assert(window(data@, off as int, len as int).subrange(
            r.str_start as int,
            r.str_start as int + r.str_len as int,
        ) =~= window(data@, off as int + r.str_start as int, r.str_len as int));
    }
    if r.platform_id == 3 || r.platform_id == 0 {
        utf16be_decode(data, off + r.str_start, r.str_len)
    } else if r.platform_id == 1 && r.encoding_id == 0 {
        Some(mac_roman_decode(data, off + r.str_start, r.str_len))
    } else if r.str_len % 2 == 0 {
        utf16be_decode(data, off + r.str_start, r.str_len)
    } else {
        None
    }
}

/// The formatted family-name entry one record yields, if its bytes decode:
/// the text, then the language and region in parentheses.
pub open spec fn spec_family_entry(t: Seq<u8>, r: NameRecord) -> Option<Seq<char>> {
    match spec_decode_record(t, r) {
        Some(text) => Some(
            text + " ("@ + spec_language_names(r.platform_id, r.language_id).0 + ", "@
                + spec_language_names(r.platform_id, r.language_id).1 + ")"@,
        ),
        None => None,
    }
}

/// The family-name entries of the first `n` records, in directory order:
/// full-name records (name ID 4) on a Unicode-capable platform whose bytes
/// decode.
pub open spec fn spec_family_upto(t: Seq<u8>, recs: Seq<NameRecord>, n: int) -> Seq<Seq<char>>
    decreases n,
{
    if n <= 0 {
        Seq::empty()
    } else {
        let prev = spec_family_upto(t, recs, n - 1);
        let r = recs[n - 1];
        if r.name_id == 4 && spec_is_unicode_record(r) {
            match spec_family_entry(t, r) {
                Some(e) => prev.push(e),
                None => prev,
            }
        } else {
            prev
        }
    }
}

/// The whole family-name list of a record directory.
pub open spec fn spec_family_names(t: Seq<u8>, recs: Seq<NameRecord>) -> Seq<Seq<char>> {
    spec_family_upto(t, recs, recs.len() as int)
}

/// The PostScript name, scanning from record `i`: the first name-ID-6
/// record on a Unicode-capable platform decides, decoded or dropped.
pub open spec fn spec_ps_name_from(t: Seq<u8>, recs: Seq<NameRecord>, i: int) -> Option<Seq<
    char,
>>
    decreases recs.len() - i,
{
    if i < 0 || i >= recs.len() {
        None
    } else if recs[i].name_id == 6 && spec_is_unicode_record(recs[i]) {
        spec_decode_record(t, recs[i])
    } else {
        spec_ps_name_from(t, recs, i + 1)
    }
}

/// The PostScript name of a record directory, if any record carries one.
pub open spec fn spec_ps_name(t: Seq<u8>, recs: Seq<NameRecord>) -> Option<Seq<char>> {
    spec_ps_name_from(t, recs, 0)
}

/// Collects the formatted family names: every full-name record on a
/// Unicode-capable platform, decoded and tagged with its language and
/// region, in directory order, without deduplication.
pub fn family_names(data: &Vec<u8>, off: usize, len: usize, recs: &Vec<NameRecord>) -> (out: Vec<
    String,
>)
    requires
        off + len <= data.len(),
        forall|k: int|
            0 <= k < recs@.len() ==> (#[trigger] recs@[k]).str_start + recs@[k].str_len <= len,
    ensures
        out.deep_view() == spec_family_names(window(data@, off as int, len as int), recs@),
{
    let ghost t = window(data@, off as int, len as int);
    let mut out: Vec<String> = Vec::new();
    proof {
        assert(out.deep_view() =~= spec_family_upto(t, recs@, 0));
    }
    let n = recs.len();
    let mut i: usize = 0;
    while i < n
        invariant
            off + len <= data.len(),
            t == window(data@, off as int, len as int),
            n == recs@.len(),
            forall|k: int|
                0 <= k < recs@.len() ==> (#[trigger] recs@[k]).str_start + recs@[k].str_len
                    <= len,
            i <= n,
            out.deep_view() == spec_family_upto(t, recs@, i as int),
        decreases n - i,
    {
        let r = recs[i];
        if r.name_id == 4 && is_unicode_record(&r) {
            let (lang, region) = language_names(r.platform_id, r.language_id);
            match decode_record(data, off, len, r) {
                Some(text) => {
                    let mut e = text;
                    e.append(" (");
                    e.append(lang);
                    e.append(", ");
                    e.append(region);
                    e.append(")");
                    let ghost prev = out.deep_view();
                    out.push(e);
                    proof {
                        assert(out.deep_view() =~= prev.push(e@));
                    }
                },
                None => {},
            }
        }
        i += 1;
    }
    out
}

/// Finds the PostScript name: the first name-ID-6 record on a
/// Unicode-capable platform, in directory order, decides alone.
pub fn postscript_name(data: &Vec<u8>, off: usize, len: usize, recs: &Vec<NameRecord>) -> (out:
    Option<String>)
    requires
        off + len <= data.len(),
        forall|k: int|
            0 <= k < recs@.len() ==> (#[trigger] recs@[k]).str_start + recs@[k].str_len <= len,
    ensures
        match (out, spec_ps_name(window(data@, off as int, len as int), recs@)) {
            (Some(s), Some(cs)) => s@ == cs,
            (None, None) => true,
            _ => false,
        },
{
    let ghost t = window(data@, off as int, len as int);
    let n = recs.len();
    let mut i: usize = 0;
    while i < n
        invariant
            off + len <= data.len(),
            t == window(data@, off as int, len as int),
            n == recs@.len(),
            forall|k: int|
                0 <= k < recs@.len() ==> (#[trigger] recs@[k]).str_start + recs@[k].str_len
                    <= len,
            i <= n,
            spec_ps_name(t, recs@) == spec_ps_name_from(t, recs@, i as int),
        decreases n - i,
    {
        let r = recs[i];
        if r.name_id == 6 && is_unicode_record(&r) {
            return decode_record(data, off, len, r);
        }
        i += 1;
    }
    None
}


/// The resolver too reads only the name table's own bytes: two buffers that
/// agree on the window `[off, off + len)` yield the same records, the same
/// family-name list and the same PostScript name.
pub proof fn lemma_resolver_confined(b1: Seq<u8>, b2: Seq<u8>, off: int, len: int)
    requires
        0 <= off,
        0 <= len,
        off + len <= b1.len(),
        off + len <= b2.len(),
        window(b1, off, len) == window(b2, off, len),
    ensures
        spec_parse_name(window(b1, off, len)) == spec_parse_name(window(b2, off, len)),
        forall|recs: Seq<NameRecord>|
            spec_family_names(window(b1, off, len), recs) == spec_family_names(
                window(b2, off, len),
                recs,
            ),
        forall|recs: Seq<NameRecord>|
            spec_ps_name(window(b1, off, len), recs) == spec_ps_name(window(b2, off, len), recs),
{
}

} // verus!
