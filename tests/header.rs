use nu_plugin_unreal_engine::{
    convert_asset_header_to_value, decode_asset_header, decode_outer, encode_outer,
    from_uasset_header, name_reference_serializable, GenericValue, HeaderError, NameReference,
    ObjectImportOuter,
};

struct Fixture {
    file_version: i32,
    legacy_version: i32,
    package_flags: u32,
    names: Vec<&'static str>,
    // class_package, class_name, outer, object_name: (index, number) pairs and the outer index
    imports: Vec<((u32, u32), (u32, u32), i32, (u32, u32))>,
    searchable_names_offset: i32,
    texture_allocations: i32,
    world_tile_info_data_offset: i32,
}

fn minimal() -> Fixture {
    Fixture {
        file_version: 214,
        legacy_version: -6,
        package_flags: 0x8000_0000,
        names: vec!["Core", "Object"],
        imports: vec![((0, 0), (1, 0), -1, (1, 0))],
        searchable_names_offset: 0,
        texture_allocations: 0,
        world_tile_info_data_offset: 0,
    }
}

fn put_i32(b: &mut Vec<u8>, v: i32) {
    b.extend_from_slice(&v.to_le_bytes());
}

fn put_u32(b: &mut Vec<u8>, v: u32) {
    b.extend_from_slice(&v.to_le_bytes());
}

fn put_str(b: &mut Vec<u8>, s: &str) {
    put_i32(b, s.len() as i32 + 1);
    b.extend_from_slice(s.as_bytes());
    b.push(0);
}

fn patch(b: &mut Vec<u8>, at: usize, v: i32) {
    b[at..at + 4].copy_from_slice(&v.to_le_bytes());
}

fn put_engine_version(b: &mut Vec<u8>) {
    b.extend_from_slice(&4u16.to_le_bytes());
    b.extend_from_slice(&27u16.to_le_bytes());
    b.extend_from_slice(&2u16.to_le_bytes());
    put_u32(b, 123);
    put_str(b, "++UE4+Release-4.27");
}

fn build(f: &Fixture) -> Vec<u8> {
    let v = f.file_version;
    let mut b = Vec::new();
    put_u32(&mut b, 0x9E2A_83C1);
    put_i32(&mut b, f.legacy_version);
    put_i32(&mut b, 864);
    put_i32(&mut b, v);
    put_i32(&mut b, 0);
    put_i32(&mut b, 0);
    put_i32(&mut b, 1234);
    put_str(&mut b, "/Game/Test");
    put_u32(&mut b, f.package_flags);
    let names_at = b.len();
    put_i32(&mut b, f.names.len() as i32);
    put_i32(&mut b, 0);
    if v >= 459 {
        put_i32(&mut b, 5);
        put_i32(&mut b, 6);
    }
    let exports_at = b.len();
    put_i32(&mut b, 0);
    put_i32(&mut b, 0);
    let imports_at = b.len();
    put_i32(&mut b, f.imports.len() as i32);
    put_i32(&mut b, 0);
    put_i32(&mut b, 77);
    if v >= 384 {
        put_i32(&mut b, 3);
        put_i32(&mut b, 4);
    }
    if v >= 510 {
        put_i32(&mut b, f.searchable_names_offset);
    }
    put_i32(&mut b, 88);
    b.extend_from_slice(&[0u8; 16]);
    put_i32(&mut b, 0);
    if v >= 336 {
        put_engine_version(&mut b);
    } else {
        put_u32(&mut b, 123);
    }
    if v >= 444 {
        put_engine_version(&mut b);
    }
    put_u32(&mut b, 0);
    put_i32(&mut b, 0);
    put_u32(&mut b, 0xABCD);
    put_i32(&mut b, 0);
    if f.legacy_version > -7 {
        put_i32(&mut b, f.texture_allocations);
    }
    put_i32(&mut b, 99);
    b.extend_from_slice(&1000i64.to_le_bytes());
    if v >= 224 {
        put_i32(&mut b, f.world_tile_info_data_offset);
    }
    if v >= 326 {
        put_i32(&mut b, 1);
        put_i32(&mut b, 7);
    } else if v >= 278 {
        put_i32(&mut b, 7);
    }
    if v >= 507 {
        put_i32(&mut b, 2);
        put_i32(&mut b, 55);
    }
    let names_offset = b.len() as i32;
    patch(&mut b, names_at + 4, names_offset);
    for n in &f.names {
        put_str(&mut b, n);
        if v >= 504 {
            put_u32(&mut b, 0);
        }
    }
    let exports_offset = b.len() as i32;
    patch(&mut b, exports_at + 4, exports_offset);
    let imports_offset = b.len() as i32;
    patch(&mut b, imports_at + 4, imports_offset);
    for (cp, cn, outer, on) in &f.imports {
        put_u32(&mut b, cp.0);
        put_u32(&mut b, cp.1);
        put_u32(&mut b, cn.0);
        put_u32(&mut b, cn.1);
        put_i32(&mut b, *outer);
        put_u32(&mut b, on.0);
        put_u32(&mut b, on.1);
    }
    b
}

fn field<'a>(v: &'a GenericValue, key: &str) -> &'a GenericValue {
    match v {
        GenericValue::Record(fields) => {
            &fields.iter().find(|(k, _)| k == key).expect("missing key").1
        }
        _ => panic!("not a record: {:?}", v),
    }
}

fn item(v: &GenericValue, i: usize) -> &GenericValue {
    match v {
        GenericValue::List(items) => &items[i],
        _ => panic!("not a list: {:?}", v),
    }
}

fn int_of(v: &GenericValue) -> i64 {
    match v {
        GenericValue::Int(i) => *i,
        _ => panic!("not an integer: {:?}", v),
    }
}

fn text(v: &GenericValue) -> &str {
    match v {
        GenericValue::Str(s) => s,
        _ => panic!("not a string: {:?}", v),
    }
}

#[test]
fn outer_round_trip_at_boundaries() {
    for n in [0, 1, -1, 2, -2, i32::MAX, i32::MIN + 1, i32::MIN] {
        assert_eq!(encode_outer(decode_outer(n)), n as i64);
    }
}

#[test]
fn outer_decoding_variants() {
    assert_eq!(decode_outer(0), ObjectImportOuter::Root);
    assert_eq!(decode_outer(-1), ObjectImportOuter::Import { import_index: 0 });
    assert_eq!(decode_outer(1), ObjectImportOuter::Export { export_index: 0 });
    assert_eq!(decode_outer(i32::MIN), ObjectImportOuter::Import { import_index: 2_147_483_647 });
    assert_eq!(decode_outer(i32::MAX), ObjectImportOuter::Export { export_index: 2_147_483_646 });
    assert_eq!(encode_outer(ObjectImportOuter::Import { import_index: 4 }), -5);
    assert_eq!(encode_outer(ObjectImportOuter::Export { export_index: 4 }), 5);
    assert_eq!(encode_outer(ObjectImportOuter::Root), 0);
}

#[test]
fn end_to_end_minimal_header() {
    let bytes = build(&minimal());
    let header = decode_asset_header(&bytes).expect("decodes");
    assert_eq!(header.names, vec!["Core".to_string(), "Object".to_string()]);
    assert_eq!(header.imports.len(), 1);
    assert_eq!(header.imports[0].outer, ObjectImportOuter::Import { import_index: 0 });
    assert_eq!(header.imports[0].object_name, NameReference { index: 1, number: None });
    assert_eq!(header.folder_name, "/Game/Test");

    let raw = from_uasset_header(&bytes, false).expect("projects");
    let import = item(field(&raw, "imports"), 0);
    assert_eq!(int_of(field(import, "outer_index")), -1);
    let object_name = field(import, "object_name");
    assert_eq!(int_of(field(object_name, "index")), 1);
    assert!(matches!(field(object_name, "number"), GenericValue::Nothing));

    let resolved = from_uasset_header(&bytes, true).expect("projects");
    let import = item(field(&resolved, "imports"), 0);
    assert_eq!(text(field(import, "object_name")), "Object");
    assert_eq!(text(field(import, "class_package")), "Core");
    assert_eq!(int_of(field(import, "outer_index")), -1);
}

#[test]
fn header_scalars_are_projected() {
    let bytes = build(&minimal());
    let v = from_uasset_header(&bytes, false).expect("projects");
    assert_eq!(int_of(field(&v, "total_header_size")), 1234);
    assert_eq!(text(field(&v, "folder_name")), "/Game/Test");
    assert_eq!(int_of(field(&v, "package_flags")), 0x8000_0000);
    assert_eq!(int_of(field(&v, "depends_offset")), 77);
    assert_eq!(int_of(field(&v, "thumbnail_table_offset")), 88);
    assert_eq!(int_of(field(&v, "package_source")), 0xABCD);
    assert_eq!(int_of(field(&v, "asset_registry_data_offset")), 99);
    assert_eq!(int_of(field(&v, "bulk_data_start_offset")), 1000);
    assert_eq!(int_of(field(&v, "export_count")), 0);
    // The export table is empty and the import table follows it at the end of the buffer.
    assert_eq!(int_of(field(&v, "export_offset")), bytes.len() as i64 - 28);
    assert_eq!(int_of(field(&v, "preload_dependency_count")), -1);
    assert_eq!(int_of(field(&v, "names_referenced_from_export_data_count")), 2);
    assert_eq!(int_of(field(&v, "payload_toc_offset")), -1);
    let archive = field(&v, "archive");
    assert_eq!(int_of(field(archive, "file_version")), 214);
    assert_eq!(int_of(field(archive, "legacy_version")), -6);
    assert!(matches!(field(archive, "file_version_ue5"), GenericValue::Nothing));
    assert!(matches!(field(archive, "with_editoronly_data"), GenericValue::Bool(false)));
    let engine = field(&v, "engine_version");
    assert_eq!(int_of(field(engine, "major")), 4);
    assert_eq!(int_of(field(engine, "changelist")), 123);
    let names = field(&v, "names");
    assert_eq!(text(item(names, 0)), "Core");
    assert_eq!(text(item(names, 1)), "Object");
    match &v {
        GenericValue::Record(fields) => assert_eq!(fields.len(), 33),
        _ => panic!("not a record"),
    }
}

#[test]
fn name_index_is_preserved_without_replacement() {
    let mut f = minimal();
    f.imports = vec![((1, 0), (0, 3), 2, (1, 7))];
    let bytes = build(&f);
    let header = decode_asset_header(&bytes).expect("decodes");
    assert_eq!(header.imports[0].class_package, NameReference { index: 1, number: None });
    assert_eq!(header.imports[0].class_name, NameReference { index: 0, number: Some(3) });
    assert_eq!(header.imports[0].outer, ObjectImportOuter::Export { export_index: 1 });
    let v = convert_asset_header_to_value(&header, false).expect("projects");
    let import = item(field(&v, "imports"), 0);
    assert_eq!(int_of(field(field(import, "class_package"), "index")), 1);
    assert_eq!(int_of(field(field(import, "class_name"), "index")), 0);
    assert_eq!(int_of(field(field(import, "class_name"), "number")), 3);
    assert_eq!(int_of(field(field(import, "object_name"), "number")), 7);
    assert_eq!(int_of(field(import, "outer_index")), 2);
}

#[test]
fn resolution_yields_the_named_string() {
    let names = vec!["Core".to_string(), "Object".to_string()];
    let r = name_reference_serializable(NameReference { index: 1, number: Some(4) }, true, &names);
    match r {
        Ok(GenericValue::Str(s)) => assert_eq!(s, "Object"),
        other => panic!("unexpected {:?}", other),
    }
    let r = name_reference_serializable(NameReference { index: 2, number: None }, true, &names);
    assert!(matches!(r, Err(HeaderError::NameIndexOutOfRange { index: 2 })));
    let r = name_reference_serializable(NameReference { index: 2, number: None }, false, &names);
    assert!(r.is_ok());
}

#[test]
fn resolution_of_a_dangling_index_fails() {
    let mut f = minimal();
    f.imports = vec![((0, 0), (1, 0), 0, (5, 0))];
    let bytes = build(&f);
    assert!(from_uasset_header(&bytes, false).is_ok());
    assert!(matches!(
        from_uasset_header(&bytes, true),
        Err(HeaderError::NameIndexOutOfRange { index: 5 })
    ));
}

#[test]
fn gated_fields_absent_in_old_files() {
    let bytes = build(&minimal());
    let v = from_uasset_header(&bytes, false).expect("projects");
    assert!(matches!(field(&v, "searchable_names_offset"), GenericValue::Nothing));
    assert!(matches!(field(&v, "localization_id"), GenericValue::Nothing));
    assert!(matches!(field(&v, "world_tile_info_data_offset"), GenericValue::Nothing));
    assert!(matches!(field(&v, "data_resource_offset"), GenericValue::Nothing));
    assert_eq!(int_of(field(&v, "texture_allocations")), 0);
}

#[test]
fn gated_fields_present_in_newer_files_even_when_zero() {
    let mut f = minimal();
    f.file_version = 510;
    f.legacy_version = -7;
    f.searchable_names_offset = 0;
    f.world_tile_info_data_offset = 42;
    let bytes = build(&f);
    let v = from_uasset_header(&bytes, false).expect("projects");
    assert_eq!(int_of(field(&v, "searchable_names_offset")), 0);
    assert_eq!(int_of(field(&v, "world_tile_info_data_offset")), 42);
    assert!(matches!(field(&v, "texture_allocations"), GenericValue::Nothing));
    assert!(matches!(field(&v, "localization_id"), GenericValue::Nothing));
    assert_eq!(int_of(field(&v, "gatherable_text_data_count")), 5);
    assert_eq!(int_of(field(&v, "soft_package_references_offset")), 4);
    assert_eq!(int_of(field(&v, "preload_dependency_offset")), 55);
    match field(&v, "chunk_ids") {
        GenericValue::List(ids) => {
            assert_eq!(ids.len(), 1);
            assert_eq!(int_of(&ids[0]), 7);
        }
        other => panic!("unexpected {:?}", other),
    }
    let engine = field(&v, "compatible_with_engine_version");
    assert_eq!(int_of(field(engine, "minor")), 27);
    assert_eq!(text(field(engine, "branch_name")), "++UE4+Release-4.27");
    let header = decode_asset_header(&bytes).expect("decodes");
    assert_eq!(header.searchable_names_offset, Some(0));
    assert_eq!(header.texture_allocations, None);
}

#[test]
fn truncated_buffers_fail_with_unexpected_eof() {
    let bytes = build(&minimal());
    // The package name's length prefix sits at 28..32 and its text at 32..43. The name
    // table starts at `o`: "Core" (prefix o..o+4, text o+4..o+9) and "Object" (prefix
    // o+9..o+13, text o+13..o+20); the import table follows it.
    let o = i32::from_le_bytes([bytes[51], bytes[52], bytes[53], bytes[54]]) as usize;
    assert_eq!(o + 20 + 28, bytes.len());
    for cut in 0..bytes.len() {
        let r = decode_asset_header(&bytes[..cut]).map(|_| ());
        // Where the cut leaves less room than two names need, the name count fails first.
        let in_text = (32..43).contains(&cut)
            || (o + 8..o + 9).contains(&cut)
            || (o + 13..o + 20).contains(&cut);
        let expected = if in_text { HeaderError::Malformed } else { HeaderError::UnexpectedEof };
        assert_eq!(r, Err(expected), "cut at {}", cut);
    }
    assert!(decode_asset_header(&bytes).is_ok());
}

#[test]
fn negative_counts_are_malformed() {
    let mut bytes = build(&minimal());
    patch(&mut bytes, 47, -1);
    assert_eq!(decode_asset_header(&bytes).map(|_| ()), Err(HeaderError::Malformed));
    let mut bytes = build(&minimal());
    patch(&mut bytes, 20, -1);
    assert_eq!(decode_asset_header(&bytes).map(|_| ()), Err(HeaderError::Malformed));
}

#[test]
fn oversized_counts_run_out_of_bytes() {
    let mut bytes = build(&minimal());
    patch(&mut bytes, 47, i32::MAX);
    assert_eq!(decode_asset_header(&bytes).map(|_| ()), Err(HeaderError::UnexpectedEof));
    let mut bytes = build(&minimal());
    patch(&mut bytes, 20, 1000);
    assert_eq!(decode_asset_header(&bytes).map(|_| ()), Err(HeaderError::UnexpectedEof));
}

#[test]
fn string_lengths_beyond_the_buffer_are_malformed() {
    let mut bytes = build(&minimal());
    patch(&mut bytes, 28, i32::MIN);
    assert_eq!(decode_asset_header(&bytes).map(|_| ()), Err(HeaderError::Malformed));
    let mut bytes = build(&minimal());
    patch(&mut bytes, 28, 100_000);
    assert_eq!(decode_asset_header(&bytes).map(|_| ()), Err(HeaderError::Malformed));
    let mut bytes = build(&minimal());
    patch(&mut bytes, 28, -100_000);
    assert_eq!(decode_asset_header(&bytes).map(|_| ()), Err(HeaderError::Malformed));
}

#[test]
fn wrong_magic_is_malformed() {
    let mut bytes = build(&minimal());
    bytes[0] ^= 0xFF;
    assert!(matches!(decode_asset_header(&bytes), Err(HeaderError::Malformed)));
}

#[test]
fn unknown_versions_are_unsupported() {
    let mut f = minimal();
    f.legacy_version = -3;
    assert!(matches!(decode_asset_header(&build(&f)), Err(HeaderError::UnsupportedVersion)));
    let mut f = minimal();
    f.file_version = 100;
    assert!(matches!(decode_asset_header(&build(&f)), Err(HeaderError::UnsupportedVersion)));
}

#[test]
fn empty_input_is_eof() {
    assert!(matches!(from_uasset_header(&[], false), Err(HeaderError::UnexpectedEof)));
}

#[test]
fn error_messages_name_the_problem() {
    assert_eq!(
        HeaderError::NameIndexOutOfRange { index: 42 }.message(),
        "name index out of range: 42"
    );
    assert_eq!(HeaderError::Malformed.message(), "malformed package header");
    assert_eq!(
        HeaderError::UnexpectedEof.message(),
        "unexpected end of data in the package header"
    );
}

#[test]
fn gated_offsets_present_when_zero() {
    let mut f = minimal();
    f.file_version = 510;
    f.legacy_version = -7;
    f.world_tile_info_data_offset = 0;
    let bytes = build(&f);
    let v = from_uasset_header(&bytes, false).expect("projects");
    assert_eq!(int_of(field(&v, "world_tile_info_data_offset")), 0);
    assert!(matches!(field(&v, "data_resource_offset"), GenericValue::Nothing));
    let header = decode_asset_header(&bytes).expect("decodes");
    assert_eq!(header.world_tile_info_data_offset, Some(0));
}

#[test]
fn projection_columns_in_order() {
    let bytes = build(&minimal());
    let v = from_uasset_header(&bytes, true).expect("projects");
    let keys: Vec<&str> = match &v {
        GenericValue::Record(fields) => fields.iter().map(|(k, _)| k.as_str()).collect(),
        _ => panic!("not a record"),
    };
    assert_eq!(
        keys,
        vec![
            "archive", "total_header_size", "folder_name", "package_flags", "names",
            "soft_object_paths_count", "soft_object_paths_offset", "localization_id",
            "gatherable_text_data_count", "gatherable_text_data_offset", "export_count",
            "export_offset", "imports", "depends_offset", "soft_package_references_count",
            "soft_package_references_offset", "searchable_names_offset", "thumbnail_table_offset",
            "engine_version", "compatible_with_engine_version", "compression_flags",
            "package_source", "additional_packages_to_cook", "texture_allocations",
            "asset_registry_data_offset", "bulk_data_start_offset", "world_tile_info_data_offset",
            "chunk_ids", "preload_dependency_count", "preload_dependency_offset",
            "names_referenced_from_export_data_count", "payload_toc_offset", "data_resource_offset",
        ]
    );
    let import_keys: Vec<&str> = match item(field(&v, "imports"), 0) {
        GenericValue::Record(fields) => fields.iter().map(|(k, _)| k.as_str()).collect(),
        _ => panic!("not a record"),
    };
    assert_eq!(
        import_keys,
        vec!["class_package", "class_name", "outer_index", "object_name", "package_name", "import_optional"]
    );
}
