use fontmeta::buckets::{weight_bucket, width_bucket, WeightBucket, WidthBucket};
use fontmeta::container::{table_checksum, RawFont, TableRecord};
use fontmeta::error::AnalysisError;
use fontmeta::facade::{analyze_font, FontInfo, Permissions};
use fontmeta::name::{decode_record, NameRecord};

fn checksum(content: &[u8]) -> u32 {
    let mut acc: u32 = 0;
    let mut i = 0;
    while i < content.len() {
        let mut word: u32 = 0;
        for j in 0..4 {
            let b = if i + j < content.len() { content[i + j] } else { 0 };
            word = (word << 8) | b as u32;
        }
        acc = acc.wrapping_add(word);
        i += 4;
    }
    acc
}

/// Builds an SFNT block whose directory offsets assume the block starts at
/// `base` within the final buffer.
fn build_sfnt(version: u32, tables: &[([u8; 4], Vec<u8>)], base: u32) -> Vec<u8> {
    let n = tables.len() as u16;
    let mut out = Vec::new();
    out.extend_from_slice(&version.to_be_bytes());
    out.extend_from_slice(&n.to_be_bytes());
    out.extend_from_slice(&[0u8; 6]);
    let mut offset = base + 12 + 16 * n as u32;
    let mut dir = Vec::new();
    let mut body = Vec::new();
    for (tag, content) in tables {
        dir.extend_from_slice(tag);
        dir.extend_from_slice(&checksum(content).to_be_bytes());
        dir.extend_from_slice(&offset.to_be_bytes());
        dir.extend_from_slice(&(content.len() as u32).to_be_bytes());
        body.extend_from_slice(content);
        let padded = (content.len() + 3) / 4 * 4;
        for _ in content.len()..padded {
            body.push(0);
        }
        offset += padded as u32;
    }
    out.extend(dir);
    out.extend(body);
    out
}

fn push_u16(v: &mut Vec<u8>, x: u16) {
    v.extend_from_slice(&x.to_be_bytes());
}

fn push_i16(v: &mut Vec<u8>, x: i16) {
    v.extend_from_slice(&x.to_be_bytes());
}

fn push_u32(v: &mut Vec<u8>, x: u32) {
    v.extend_from_slice(&x.to_be_bytes());
}

fn head_table(upem: u16, mac_style: u16, bbox: (i16, i16, i16, i16)) -> Vec<u8> {
    let mut t = Vec::new();
    push_u32(&mut t, 0x00010000); // version
    push_u32(&mut t, 0); // fontRevision
    push_u32(&mut t, 0); // checkSumAdjustment
    push_u32(&mut t, 0x5F0F3CF5); // magic
    push_u16(&mut t, 0); // flags
    push_u16(&mut t, upem);
    t.extend_from_slice(&[0u8; 16]); // created + modified
    push_i16(&mut t, bbox.0);
    push_i16(&mut t, bbox.1);
    push_i16(&mut t, bbox.2);
    push_i16(&mut t, bbox.3);
    push_u16(&mut t, mac_style);
    push_u16(&mut t, 0); // lowestRecPPEM
    push_i16(&mut t, 2); // fontDirectionHint
    push_i16(&mut t, 0); // indexToLocFormat
    push_i16(&mut t, 0); // glyphDataFormat
    assert_eq!(t.len(), 54);
    t
}

fn hhea_table(ascender: i16, descender: i16, line_gap: i16) -> Vec<u8> {
    let mut t = Vec::new();
    push_u32(&mut t, 0x00010000);
    push_i16(&mut t, ascender);
    push_i16(&mut t, descender);
    push_i16(&mut t, line_gap);
    while t.len() < 36 {
        t.push(0);
    }
    t
}

fn maxp_table(num_glyphs: u16) -> Vec<u8> {
    let mut t = Vec::new();
    push_u32(&mut t, 0x00010000);
    push_u16(&mut t, num_glyphs);
    t
}

#[allow(clippy::too_many_arguments)]
fn os2_table_v2(
    weight: u16,
    width: u16,
    fs_type: u16,
    subscript: (i16, i16, i16, i16),
    superscript: (i16, i16, i16, i16),
    strikeout_size: i16,
    strikeout_pos: i16,
    fs_selection: u16,
    x_height: i16,
) -> Vec<u8> {
    let mut t = Vec::new();
    push_u16(&mut t, 2); // version
    push_i16(&mut t, 0); // xAvgCharWidth
    push_u16(&mut t, weight);
    push_u16(&mut t, width);
    push_u16(&mut t, fs_type);
    push_i16(&mut t, subscript.0);
    push_i16(&mut t, subscript.1);
    push_i16(&mut t, subscript.2);
    push_i16(&mut t, subscript.3);
    push_i16(&mut t, superscript.0);
    push_i16(&mut t, superscript.1);
    push_i16(&mut t, superscript.2);
    push_i16(&mut t, superscript.3);
    push_i16(&mut t, strikeout_size);
    push_i16(&mut t, strikeout_pos);
    push_i16(&mut t, 0); // sFamilyClass
    t.extend_from_slice(&[0u8; 10]); // panose
    t.extend_from_slice(&[0u8; 16]); // ulUnicodeRange
    t.extend_from_slice(&[0u8; 4]); // achVendID
    push_u16(&mut t, fs_selection);
    push_u16(&mut t, 0); // usFirstCharIndex
    push_u16(&mut t, 0); // usLastCharIndex
    push_i16(&mut t, 0); // sTypoAscender
    push_i16(&mut t, 0); // sTypoDescender
    push_i16(&mut t, 0); // sTypoLineGap
    push_u16(&mut t, 0); // usWinAscent
    push_u16(&mut t, 0); // usWinDescent
    t.extend_from_slice(&[0u8; 8]); // ulCodePageRange
    push_i16(&mut t, x_height);
    push_i16(&mut t, 0); // sCapHeight
    push_u16(&mut t, 0); // usDefaultChar
    push_u16(&mut t, 0); // usBreakChar
    push_u16(&mut t, 0); // usMaxContext
    assert_eq!(t.len(), 96);
    t
}

fn post_table(underline_pos: i16, underline_thick: i16) -> Vec<u8> {
    let mut t = Vec::new();
    push_u32(&mut t, 0x00030000);
    push_u32(&mut t, 0); // italicAngle
    push_i16(&mut t, underline_pos);
    push_i16(&mut t, underline_thick);
    while t.len() < 32 {
        t.push(0);
    }
    t
}

fn utf16be(s: &str) -> Vec<u8> {
    let mut out = Vec::new();
    for u in s.encode_utf16() {
        out.extend_from_slice(&u.to_be_bytes());
    }
    out
}

/// records: (platformID, encodingID, languageID, nameID, string bytes)
fn name_table(records: &[(u16, u16, u16, u16, Vec<u8>)]) -> Vec<u8> {
    let mut t = Vec::new();
    push_u16(&mut t, 0); // format
    push_u16(&mut t, records.len() as u16);
    let string_offset = 6 + 12 * records.len() as u16;
    push_u16(&mut t, string_offset);
    let mut storage = Vec::new();
    for (p, e, l, n, bytes) in records {
        push_u16(&mut t, *p);
        push_u16(&mut t, *e);
        push_u16(&mut t, *l);
        push_u16(&mut t, *n);
        push_u16(&mut t, bytes.len() as u16);
        push_u16(&mut t, storage.len() as u16);
        storage.extend_from_slice(bytes);
    }
    t.extend(storage);
    t
}

fn standard_tables(names: &str, num_glyphs: u16) -> Vec<([u8; 4], Vec<u8>)> {
    let (full, korean, ps) = match names {
        "ttf" => ("VITRO CORE TTF", "비트로 코어 TTF", "VITRO-CORE-TTF"),
        _ => ("VITRO CORE OTF", "비트로 코어 OTF", "VITRO-CORE-OTF"),
    };
    vec![
        (*b"head", head_table(1000, 0, (-26, -468, 10077, 976))),
        (*b"hhea", hhea_table(976, -353, 0)),
        (*b"maxp", maxp_table(num_glyphs)),
        (
            *b"OS/2",
            os2_table_v2(
                900,
                5,
                0,
                (700, 650, 0, 140),
                (700, 650, 0, 477),
                50,
                250,
                0x0040,
                540,
            ),
        ),
        (*b"post", post_table(-190, 55)),
        (
            *b"name",
            name_table(&[
                (3, 1, 0x0409, 4, utf16be(full)),
                (3, 1, 0x0412, 4, utf16be(korean)),
                (3, 1, 0x0409, 6, utf16be(ps)),
            ]),
        ),
    ]
}

fn analyze_ok(data: Vec<u8>) -> FontInfo {
    analyze_font(data, 0, false).expect("analysis should succeed")
}

#[test]
fn test_ttf_font_analysis() {
    let data = build_sfnt(0x00010000, &standard_tables("ttf", 3694), 0);
    let info = analyze_ok(data);

    assert_eq!(
        info.family_names,
        vec![
            "VITRO CORE TTF (English, United States)".to_string(),
            "비트로 코어 TTF (Korean, Korea)".to_string()
        ]
    );
    assert_eq!(info.post_script_name, Some("VITRO-CORE-TTF".to_string()));
    assert_eq!(info.units_per_em, 1000);
    assert_eq!(info.ascender, 976);
    assert_eq!(info.descender, -353);
    assert_eq!(info.line_gap, 0);
    assert_eq!(info.number_of_glyphs, 3694);
    assert_eq!(info.x_height, Some(540));
    assert_eq!(info.is_regular, true);
    assert_eq!(info.is_italic, false);
    assert_eq!(info.is_bold, false);
    assert_eq!(info.is_oblique, false);
    assert_eq!(info.is_variable, false);

    assert_eq!(info.global_bounding_box.x_min, -26);
    assert_eq!(info.global_bounding_box.y_min, -468);
    assert_eq!(info.global_bounding_box.x_max, 10077);
    assert_eq!(info.global_bounding_box.y_max, 976);

    if let Some(ul) = info.underline_metrics {
        assert_eq!(ul.position, -190);
        assert_eq!(ul.thickness, 55);
    } else {
        panic!("Underline metrics should be Some");
    }

    assert_eq!(info.weight, Some(WeightBucket::Black));
    assert_eq!(info.width, Some(WidthBucket::Normal));

    if let Some(st) = info.strikeout_metrics {
        assert_eq!(st.position, 250);
        assert_eq!(st.thickness, 50);
    } else {
        panic!("Strikeout metrics should be Some");
    }

    if let Some(sub) = info.subscript_metrics {
        assert_eq!(sub.x_size, 700);
        assert_eq!(sub.y_size, 650);
        assert_eq!(sub.x_offset, 0);
        assert_eq!(sub.y_offset, 140);
    } else {
        panic!("Subscript metrics should be Some");
    }

    if let Some(sup) = info.superscript_metrics {
        assert_eq!(sup.x_size, 700);
        assert_eq!(sup.y_size, 650);
        assert_eq!(sup.x_offset, 0);
        assert_eq!(sup.y_offset, 477);
    } else {
        panic!("Superscript metrics should be Some");
    }

    assert_eq!(info.permissions, Some(Permissions::Installable));
}

#[test]
fn test_otf_font_analysis() {
    let data = build_sfnt(0x4F54544F, &standard_tables("otf", 3692), 0);
    let info = analyze_ok(data);

    assert_eq!(
        info.family_names,
        vec![
            "VITRO CORE OTF (English, United States)".to_string(),
            "비트로 코어 OTF (Korean, Korea)".to_string()
        ]
    );
    assert_eq!(info.post_script_name, Some("VITRO-CORE-OTF".to_string()));
    assert_eq!(info.units_per_em, 1000);
    assert_eq!(info.ascender, 976);
    assert_eq!(info.descender, -353);
    assert_eq!(info.line_gap, 0);
    assert_eq!(info.number_of_glyphs, 3692);
    assert_eq!(info.x_height, Some(540));
    assert_eq!(info.is_regular, true);
    assert_eq!(info.is_italic, false);
    assert_eq!(info.is_bold, false);
    assert_eq!(info.is_oblique, false);
    assert_eq!(info.is_variable, false);
}

#[test]
fn analysis_is_idempotent() {
    let data = build_sfnt(0x00010000, &standard_tables("ttf", 3694), 0);
    let a = analyze_font(data.clone(), 0, false).unwrap();
    let b = analyze_font(data, 0, false).unwrap();
    assert_eq!(a, b);
}

#[test]
fn short_buffers_are_malformed() {
    for n in 0..12 {
        let data = vec![0u8; n];
        assert_eq!(
            analyze_font(data, 0, false),
            Err(AnalysisError::MalformedContainer)
        );
    }
}

#[test]
fn unknown_version_is_malformed() {
    let data = build_sfnt(0xDEADBEEF, &standard_tables("ttf", 10), 0);
    assert_eq!(
        analyze_font(data, 0, false),
        Err(AnalysisError::MalformedContainer)
    );
}

#[test]
fn zero_tables_is_malformed() {
    let data = build_sfnt(0x00010000, &[], 0);
    assert_eq!(
        analyze_font(data, 0, false),
        Err(AnalysisError::MalformedContainer)
    );
}

#[test]
fn entry_past_buffer_is_malformed() {
    let mut data = build_sfnt(0x00010000, &standard_tables("ttf", 10), 0);
    // Enlarge the length of the first directory entry far past the buffer.
    let len_pos = 12 + 12;
    data[len_pos..len_pos + 4].copy_from_slice(&0xFFFF_FF00u32.to_be_bytes());
    assert_eq!(
        analyze_font(data, 0, false),
        Err(AnalysisError::MalformedContainer)
    );
}

#[test]
fn duplicate_tags_are_malformed() {
    let tables = vec![
        (*b"head", head_table(1000, 0, (0, 0, 0, 0))),
        (*b"head", head_table(1000, 0, (0, 0, 0, 0))),
    ];
    let data = build_sfnt(0x00010000, &tables, 0);
    assert_eq!(
        analyze_font(data, 0, false),
        Err(AnalysisError::MalformedContainer)
    );
}

#[test]
fn collection_wrapper_selects_first_face() {
    let block = build_sfnt(0x00010000, &standard_tables("ttf", 77), 16);
    let mut data = Vec::new();
    data.extend_from_slice(b"ttcf");
    data.extend_from_slice(&0x00010000u32.to_be_bytes());
    data.extend_from_slice(&1u32.to_be_bytes()); // numFonts
    data.extend_from_slice(&16u32.to_be_bytes()); // offset of face 0
    data.extend(block);
    let info = analyze_font(data.clone(), 0, false).unwrap();
    assert_eq!(info.number_of_glyphs, 77);
    // A face index out of range is malformed.
    assert_eq!(
        analyze_font(data, 1, false),
        Err(AnalysisError::MalformedContainer)
    );
}

#[test]
fn missing_mandatory_table_is_fatal() {
    let tables: Vec<([u8; 4], Vec<u8>)> = standard_tables("ttf", 10)
        .into_iter()
        .filter(|(tag, _)| tag != b"hhea")
        .collect();
    let data = build_sfnt(0x00010000, &tables, 0);
    assert_eq!(
        analyze_font(data, 0, false),
        Err(AnalysisError::MandatoryTableMissing(0x68686561))
    );
}

#[test]
fn units_per_em_boundaries() {
    for (upem, ok) in [(15u16, false), (16, true), (16384, true), (16385, false)] {
        let mut tables = standard_tables("ttf", 10);
        tables[0] = (*b"head", head_table(upem, 0, (0, 0, 0, 0)));
        let data = build_sfnt(0x00010000, &tables, 0);
        let r = analyze_font(data, 0, false);
        if ok {
            assert_eq!(r.unwrap().units_per_em, upem);
        } else {
            assert_eq!(r, Err(AnalysisError::InvalidUnitsPerEm));
        }
    }
}

#[test]
fn truncated_head_is_too_short() {
    let mut tables = standard_tables("ttf", 10);
    tables[0] = (*b"head", head_table(1000, 0, (0, 0, 0, 0))[..10].to_vec());
    let data = build_sfnt(0x00010000, &tables, 0);
    assert_eq!(
        analyze_font(data, 0, false),
        Err(AnalysisError::TableTooShort(0x68656164))
    );
}

#[test]
fn strict_mode_checks_checksums() {
    let data = build_sfnt(0x00010000, &standard_tables("ttf", 3694), 0);
    // All checksums were computed by the builder: strict mode passes.
    assert!(analyze_font(data.clone(), 0, true).is_ok());
    // Corrupt the stored checksum of the first entry ('OS/2' sorts nowhere:
    // entries stay in insertion order, so entry 0 is 'head').
    let mut bad = data.clone();
    let ck_pos = 12 + 4;
    bad[ck_pos] ^= 0xFF;
    assert_eq!(
        analyze_font(bad, 0, true),
        Err(AnalysisError::ChecksumMismatch(0x68656164))
    );
    // Non-strict mode does not look at checksums.
    let mut lax = data;
    let ck_pos = 12 + 4;
    lax[ck_pos] ^= 0xFF;
    assert!(analyze_font(lax, 0, false).is_ok());
}

#[test]
fn missing_os2_leaves_fields_absent() {
    let tables: Vec<([u8; 4], Vec<u8>)> = standard_tables("ttf", 10)
        .into_iter()
        .filter(|(tag, _)| tag != b"OS/2")
        .collect();
    let data = build_sfnt(0x00010000, &tables, 0);
    let info = analyze_ok(data);
    assert_eq!(info.weight, None);
    assert_eq!(info.width, None);
    assert_eq!(info.x_height, None);
    assert_eq!(info.permissions, None);
    assert_eq!(info.is_oblique, false);
    // post is still present, so the underline metrics survive.
    assert!(info.underline_metrics.is_some());
    // Without fsSelection the macStyle-derived regular fallback applies.
    assert_eq!(info.is_regular, true);
}

#[test]
fn fs_selection_wins_over_mac_style() {
    // head.macStyle says bold, OS/2.fsSelection says italic only.
    let mut tables = standard_tables("ttf", 10);
    tables[0] = (*b"head", head_table(1000, 0x0001, (0, 0, 0, 0)));
    tables[3] = (
        *b"OS/2",
        os2_table_v2(400, 5, 0, (0, 0, 0, 0), (0, 0, 0, 0), 0, 0, 0x0001, 0),
    );
    let data = build_sfnt(0x00010000, &tables, 0);
    let info = analyze_ok(data);
    assert_eq!(info.is_italic, true);
    assert_eq!(info.is_bold, false);
    assert_eq!(info.is_regular, false);
}

#[test]
fn mac_style_applies_without_os2() {
    let mut tables: Vec<([u8; 4], Vec<u8>)> = standard_tables("ttf", 10)
        .into_iter()
        .filter(|(tag, _)| tag != b"OS/2")
        .collect();
    tables[0] = (*b"head", head_table(1000, 0x0003, (0, 0, 0, 0)));
    let data = build_sfnt(0x00010000, &tables, 0);
    let info = analyze_ok(data);
    assert_eq!(info.is_bold, true);
    assert_eq!(info.is_italic, true);
    assert_eq!(info.is_regular, false);
}

#[test]
fn fvar_presence_marks_variable() {
    let mut tables = standard_tables("ttf", 10);
    tables.push((*b"fvar", vec![0, 0, 0, 0]));
    let data = build_sfnt(0x00010000, &tables, 0);
    let info = analyze_ok(data);
    assert_eq!(info.is_variable, true);
}

#[test]
fn weight_buckets_map_to_nearest() {
    assert_eq!(weight_bucket(900), WeightBucket::Black);
    assert_eq!(weight_bucket(1), WeightBucket::Thin);
    assert_eq!(weight_bucket(100), WeightBucket::Thin);
    assert_eq!(weight_bucket(150), WeightBucket::Thin); // tie goes down
    assert_eq!(weight_bucket(151), WeightBucket::ExtraLight);
    assert_eq!(weight_bucket(250), WeightBucket::ExtraLight); // tie goes down
    assert_eq!(weight_bucket(450), WeightBucket::Normal); // tie goes down
    assert_eq!(weight_bucket(700), WeightBucket::Bold);
    assert_eq!(weight_bucket(1000), WeightBucket::Black);
}

#[test]
fn width_buckets_clamp_to_scale() {
    assert_eq!(width_bucket(0), WidthBucket::UltraCondensed);
    assert_eq!(width_bucket(1), WidthBucket::UltraCondensed);
    assert_eq!(width_bucket(3), WidthBucket::Condensed);
    assert_eq!(width_bucket(5), WidthBucket::Normal);
    assert_eq!(width_bucket(9), WidthBucket::UltraExpanded);
    assert_eq!(width_bucket(12), WidthBucket::UltraExpanded);
}

#[test]
fn undecodable_name_records_are_dropped() {
    // Record 0: odd byte length on a Windows platform — dropped.
    // Record 1: unpaired high surrogate — dropped.
    // Record 2: sound record — kept.
    let mut odd = utf16be("BAD");
    odd.pop();
    let lone_surrogate = vec![0xD8, 0x3D];
    let records = vec![
        (3u16, 1u16, 0x0409u16, 4u16, odd),
        (3, 1, 0x0409, 4, lone_surrogate),
        (3, 1, 0x0409, 4, utf16be("GOOD")),
    ];
    let mut tables = standard_tables("ttf", 10);
    tables[5] = (*b"name", name_table(&records));
    let data = build_sfnt(0x00010000, &tables, 0);
    let info = analyze_ok(data);
    assert_eq!(
        info.family_names,
        vec!["GOOD (English, United States)".to_string()]
    );
    assert_eq!(info.post_script_name, None);
}

#[test]
fn surrogate_pairs_decode() {
    let records = vec![(3u16, 1u16, 0x0409u16, 4u16, utf16be("A😀B"))];
    let mut tables = standard_tables("ttf", 10);
    tables[5] = (*b"name", name_table(&records));
    let data = build_sfnt(0x00010000, &tables, 0);
    let info = analyze_ok(data);
    assert_eq!(
        info.family_names,
        vec!["A😀B (English, United States)".to_string()]
    );
}

#[test]
fn record_with_bounds_outside_table_is_dropped() {
    let mut table = name_table(&[(3, 1, 0x0409, 4, utf16be("XY"))]);
    // Point the record's string length far past the table's end.
    let len_pos = 6 + 8;
    table[len_pos..len_pos + 2].copy_from_slice(&0xFFFCu16.to_be_bytes());
    let mut tables = standard_tables("ttf", 10);
    tables[5] = (*b"name", table);
    let data = build_sfnt(0x00010000, &tables, 0);
    let info = analyze_ok(data);
    assert_eq!(info.family_names, Vec::<String>::new());
}

#[test]
fn mac_roman_records_decode() {
    // 0x8E is é in MacRoman; platform 1 encoding 0 language 0 (English).
    let table = name_table(&[(1, 0, 0, 4, vec![0x43, 0x61, 0x66, 0x8E])]);
    let data_vec = table.clone();
    let rec = NameRecord {
        platform_id: 1,
        encoding_id: 0,
        language_id: 0,
        name_id: 4,
        str_start: 18,
        str_len: 4,
    };
    let decoded = decode_record(&data_vec, 0, data_vec.len(), rec);
    assert_eq!(decoded, Some("Café".to_string()));
}

#[test]
fn postscript_name_takes_first_unicode_record() {
    let records = vec![
        (1u16, 0u16, 0u16, 6u16, b"mac-first".to_vec()), // not Unicode-capable
        (3, 1, 0x0409, 6, utf16be("Win-PS")),
        (3, 1, 0x0409, 6, utf16be("Win-PS-Later")),
    ];
    let mut tables = standard_tables("ttf", 10);
    tables[5] = (*b"name", name_table(&records));
    let data = build_sfnt(0x00010000, &tables, 0);
    let info = analyze_ok(data);
    assert_eq!(info.post_script_name, Some("Win-PS".to_string()));
}

#[test]
fn table_checksum_sums_padded_words() {
    // 5 content bytes behind a 12-byte header: one full word and one padded.
    let mut data = vec![0u8; 12];
    data.extend_from_slice(&[0, 0, 0, 1, 2]);
    let rec = TableRecord {
        tag: 0x74657374,
        checksum: 0,
        offset: 12,
        length: 5,
    };
    assert_eq!(table_checksum(&data, rec), 0x02000001);
}

#[test]
fn find_table_reports_absent_tags() {
    let data = build_sfnt(0x00010000, &standard_tables("ttf", 10), 0);
    let font = RawFont::parse(data, 0).unwrap();
    assert!(font.find_table(0x68656164).is_some());
    assert!(font.find_table(0x66766172).is_none());
}
