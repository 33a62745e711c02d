use vstd::prelude::*;

use crate::header::{ArchiveInfo, PackageHeader, EngineVersionInfo, HeaderError, ImportEntry, NameReference};
use crate::layout::{
    check_layout, le_i32, lemma_truncation, layout_spec, string_cut_at, LayoutState,
};
use crate::outer::ObjectImportOuter;

verus! {

/// The decoder's view of a package: a header parsed from an in-memory buffer.
pub type ParsedPackage = uasset::AssetHeader<std::io::Cursor<Vec<u8>>>;

#[verifier::external_type_specification]
#[verifier::external_body]
#[verifier::reject_recursive_types(R)]
pub struct ExUassetHeader<R>(uasset::AssetHeader<R>);

#[verifier::external_type_specification]
#[verifier::external_body]
pub struct ExUassetError(uasset::Error);

#[verifier::external_type_specification]
#[verifier::external_body]
#[verifier::reject_recursive_types(T)]
pub struct ExCursor<T>(std::io::Cursor<T>);

/// The file version at which packages gained a searchable-names offset.
pub const SEARCHABLE_NAMES_VERSION: i32 = 510;

/// The file version at which packages gained a localization id.
pub const LOCALIZATION_ID_VERSION: i32 = 516;

/// The file version at which packages gained a world-tile-info offset.
pub const WORLD_TILE_INFO_VERSION: i32 = 224;

/// The UE5 file version at which packages gained a data-resource offset.
pub const DATA_RESOURCES_VERSION_UE5: i32 = 1009;

/// The last legacy version that still carries the texture-allocations marker; legacy
/// versions count down, so every later file has a smaller one.
pub const LAST_TEXTURE_ALLOCATIONS_LEGACY_VERSION: i32 = -6;

/// The fields of a parsed package, as plain values.
pub uninterp spec fn uasset_summary(p: ParsedPackage) -> PackageHeader;

/// What the package parser makes of a buffer: the header's fields, or `None` where it fails.
pub uninterp spec fn uasset_decode(bytes: Seq<u8>) -> Option<PackageHeader>;

/// The optional fields that the package parser fills are present exactly when the versions
/// read before them say that the format has them.
pub open spec fn parser_gated(h: PackageHeader) -> bool {
    let a = h.archive;
    &&& -8 <= a.legacy_version <= -5
    &&& (a.file_version_ue5 is Some ==> a.legacy_version <= -8)
    &&& (h.searchable_names_offset is Some <==> a.file_version >= SEARCHABLE_NAMES_VERSION)
    &&& (h.localization_id is Some <==> a.file_version >= LOCALIZATION_ID_VERSION
        && a.with_editoronly_data)
    &&& (h.texture_allocations is Some <==> a.legacy_version
        >= LAST_TEXTURE_ALLOCATIONS_LEGACY_VERSION)
}

/// Each optional field is present exactly when the versions read before it say that the
/// format has it.
pub open spec fn version_gated(h: PackageHeader) -> bool {
    let a = h.archive;
    &&& parser_gated(h)
    &&& (h.world_tile_info_data_offset is Some <==> a.file_version >= WORLD_TILE_INFO_VERSION)
    &&& (h.data_resource_offset is Some <==> a.file_version_ue5 is Some
        && a.file_version_ue5->Some_0 >= DATA_RESOURCES_VERSION_UE5)
}

/// The parser's fields, with the offsets that the layout walk read in place of the ones
/// that the parser drops or does not keep.
pub open spec fn with_walk(h: PackageHeader, st: LayoutState) -> PackageHeader {
    PackageHeader {
        export_offset: st.export_offset,
        world_tile_info_data_offset: st.world_tile_info_data_offset,
        data_resource_offset: st.data_resource_offset,
        ..h
    }
}

/// Relies on uasset::AssetHeader::new: parses a little-endian package summary from the
/// buffer, reading each versioned field only when the file's versions include it
/// (`serialized_with`). It reads the legacy version at offset 4, the file version at 12
/// and, for a legacy version of -8 or below, the UE5 version at 16 (absent when 0). The
/// parser reserves memory for each table and string from the count or length that the buffer declares, and steps over skipped tables one element at
/// a time; `layout_spec` walks the same fields in the same order and holds that every
/// count is non-negative with its elements inside the buffer, and every string length is
/// not `i32::MIN` and its text inside the buffer. On such a buffer the reservations are
/// bounded by a few times the buffer's size and every loop by its length.
#[verifier::external_body]
fn parse_package(bytes: &[u8]) -> (r: Result<ParsedPackage, uasset::Error>)
    requires
        layout_spec(bytes@) is Ok,
    ensures
        r is Ok <==> uasset_decode(bytes@) is Some,
        r is Ok ==> uasset_summary(r->Ok_0) == uasset_decode(bytes@)->Some_0,
        r is Ok ==> parser_gated(uasset_summary(r->Ok_0)),
        r is Ok ==> uasset_summary(r->Ok_0).archive.legacy_version == le_i32(bytes@, 4),
        r is Ok ==> uasset_summary(r->Ok_0).archive.file_version == le_i32(bytes@, 12),
        r is Ok ==> uasset_summary(r->Ok_0).archive.file_version_ue5 == (if le_i32(bytes@, 4) <= -8
            && le_i32(bytes@, 16) != 0 {
            Some(le_i32(bytes@, 16) as i32)
        } else {
            None
        }),
{
    uasset::AssetHeader::new(std::io::Cursor::new(bytes.to_vec()))
}

/// Relies on uasset::Archive's public fields, with the versions as their integer values.
#[verifier::external_body]
fn summary_archive(p: &ParsedPackage) -> (r: ArchiveInfo)
    ensures
        r == uasset_summary(*p).archive,
{
    ArchiveInfo {
        file_version: p.archive.file_version as i32,
        file_version_ue5: p.archive.file_version_ue5.map(|v| v as i32),
        file_licensee_version: p.archive.file_licensee_version,
        legacy_version: p.archive.legacy_version,
        with_editoronly_data: p.archive.with_editoronly_data,
    }
}

/// Relies on the engine-version fields of uasset::AssetHeader (saved-with version).
#[verifier::external_body]
fn summary_engine_version(p: &ParsedPackage) -> (r: EngineVersionInfo)
    ensures
        r.major == uasset_summary(*p).engine_version.major,
        r.minor == uasset_summary(*p).engine_version.minor,
        r.patch == uasset_summary(*p).engine_version.patch,
        r.changelist == uasset_summary(*p).engine_version.changelist,
        r.is_licensee_version == uasset_summary(*p).engine_version.is_licensee_version,
        r.branch_name@ == uasset_summary(*p).engine_version.branch_name@,
{
    let v = &p.engine_version;
    EngineVersionInfo {
        major: v.major,
        minor: v.minor,
        patch: v.patch,
        changelist: v.changelist,
        is_licensee_version: v.is_licensee_version,
        branch_name: v.branch_name.clone(),
    }
}

/// Relies on the engine-version fields of uasset::AssetHeader (compatible-with version).
#[verifier::external_body]
fn summary_compatible_engine_version(p: &ParsedPackage) -> (r: EngineVersionInfo)
    ensures
        r.major == uasset_summary(*p).compatible_with_engine_version.major,
        r.minor == uasset_summary(*p).compatible_with_engine_version.minor,
        r.patch == uasset_summary(*p).compatible_with_engine_version.patch,
        r.changelist == uasset_summary(*p).compatible_with_engine_version.changelist,
        r.is_licensee_version == uasset_summary(*p).compatible_with_engine_version.is_licensee_version,
        r.branch_name@ == uasset_summary(*p).compatible_with_engine_version.branch_name@,
{
    let v = &p.compatible_with_engine_version;
    EngineVersionInfo {
        major: v.major,
        minor: v.minor,
        patch: v.patch,
        changelist: v.changelist,
        is_licensee_version: v.is_licensee_version,
        branch_name: v.branch_name.clone(),
    }
}

/// Relies on the string and list fields of uasset::AssetHeader: the package name, the
/// name table, the localization id, the packages to cook and the chunk ids.
#[verifier::external_body]
fn summary_tables(p: &ParsedPackage) -> (r: (String, Vec<String>, Option<String>, Vec<String>, Vec<i32>))
    ensures
        r.0@ == uasset_summary(*p).folder_name@,
        r.1@ == uasset_summary(*p).names@,
        r.2 is Some <==> uasset_summary(*p).localization_id is Some,
        r.2 is Some ==> r.2->Some_0@ == uasset_summary(*p).localization_id->Some_0@,
        r.3@ == uasset_summary(*p).additional_packages_to_cook@,
        r.4@ == uasset_summary(*p).chunk_ids@,
{
    (
        p.package_name.clone(),
        p.names.clone(),
        p.localization_id.clone(),
        p.additional_packages_to_cook.clone(),
        p.chunk_ids.clone(),
    )
}

/// Relies on the 32-bit count and offset fields of uasset::AssetHeader.
#[verifier::external_body]
fn summary_counts(p: &ParsedPackage) -> (r: (i32, i32, i32, i32, i32, i32, i32, i32))
    ensures
        r.0 == uasset_summary(*p).total_header_size,
        r.1 == uasset_summary(*p).soft_object_paths_count,
        r.2 == uasset_summary(*p).soft_object_paths_offset,
        r.3 == uasset_summary(*p).gatherable_text_data_count,
        r.4 == uasset_summary(*p).gatherable_text_data_offset,
        r.5 == uasset_summary(*p).depends_offset,
        r.6 == uasset_summary(*p).soft_package_references_count,
        r.7 == uasset_summary(*p).soft_package_references_offset,
{
    (
        p.total_header_size,
        p.soft_object_paths_count,
        p.soft_object_paths_offset,
        p.gatherable_text_data_count,
        p.gatherable_text_data_offset,
        p.depends_offset,
        p.soft_package_references_count,
        p.soft_package_references_offset,
    )
}

/// Relies on the remaining 32-bit fields of uasset::AssetHeader.
#[verifier::external_body]
fn summary_later_counts(p: &ParsedPackage) -> (r: (i32, i32, i32, i32, i32, u32, u32, u32))
    ensures
        r.0 == uasset_summary(*p).thumbnail_table_offset,
        r.1 == uasset_summary(*p).asset_registry_data_offset,
        r.2 == uasset_summary(*p).preload_dependency_count,
        r.3 == uasset_summary(*p).preload_dependency_offset,
        r.4 == uasset_summary(*p).names_referenced_from_export_data_count,
        r.5 == uasset_summary(*p).package_flags,
        r.6 == uasset_summary(*p).compression_flags,
        r.7 == uasset_summary(*p).package_source,
{
    (
        p.thumbnail_table_offset,
        p.asset_registry_data_offset,
        p.preload_dependency_count,
        p.preload_dependency_offset,
        p.names_referenced_from_export_data_count,
        p.package_flags,
        p.compression_flags,
        p.package_source,
    )
}

/// Relies on the 64-bit offsets, the optional offsets and the export table (whose length
/// was read as a 32-bit count) of
/// uasset::AssetHeader.
#[verifier::external_body]
fn summary_optionals(p: &ParsedPackage) -> (r: (i64, i64, Option<i32>, Option<i32>, u32))
    ensures
        r.0 == uasset_summary(*p).bulk_data_start_offset,
        r.1 == uasset_summary(*p).payload_toc_offset,
        r.2 == uasset_summary(*p).searchable_names_offset,
        r.3 == uasset_summary(*p).texture_allocations,
        r.4 == uasset_summary(*p).export_count,
{
    (
        p.bulk_data_start_offset,
        p.payload_toc_offset,
        p.searchable_names_offset,
        p.texture_allocations,
        p.exports.len() as u32,
    )
}

/// Relies on the length of uasset::AssetHeader's import table.
#[verifier::external_body]
fn summary_import_count(p: &ParsedPackage) -> (r: usize)
    ensures
        r == uasset_summary(*p).imports.len(),
{
    p.imports.len()
}

/// Relies on uasset::ObjectImport::outer: where the owner of an import lives. The indices
/// come from a signed 32-bit field, so they fit in 32 bits.
#[verifier::external_body]
fn summary_import_outer(p: &ParsedPackage, i: usize) -> (r: ObjectImportOuter)
    requires
        i < uasset_summary(*p).imports.len(),
    ensures
        r == uasset_summary(*p).imports[i as int].outer,
{
    match p.imports[i].outer() {
        uasset::ObjectReference::None => ObjectImportOuter::Root,
        uasset::ObjectReference::Import { import_index } => ObjectImportOuter::Import { import_index: import_index as u32 },
        uasset::ObjectReference::Export { export_index } => ObjectImportOuter::Export { export_index: export_index as u32 },
    }
}

/// Relies on the public fields of uasset::ObjectImport, each name reference given as its
/// index and its non-zero number.
#[verifier::external_body]
fn summary_import_names(p: &ParsedPackage, i: usize) -> (r: (NameReference, NameReference, NameReference, Option<NameReference>, bool))
    requires
        i < uasset_summary(*p).imports.len(),
    ensures
        r.0 == uasset_summary(*p).imports[i as int].class_package,
        r.1 == uasset_summary(*p).imports[i as int].class_name,
        r.2 == uasset_summary(*p).imports[i as int].object_name,
        r.3 == uasset_summary(*p).imports[i as int].package_name,
        r.4 == uasset_summary(*p).imports[i as int].import_optional,
{
    let e = &p.imports[i];
    let n = |r: uasset::NameReference| NameReference { index: r.index, number: r.number.map(|k| k.get()) };
    (n(e.class_package), n(e.class_name), n(e.object_name), e.package_name.map(n), e.import_optional)
}

/// `a` and `b` hold the same values, strings and lists compared by their contents.
pub open spec fn same_header(a: PackageHeader, b: PackageHeader) -> bool {
    &&& a.archive == b.archive
    &&& a.total_header_size == b.total_header_size
    &&& a.folder_name@ == b.folder_name@
    &&& a.package_flags == b.package_flags
    &&& a.names@ == b.names@
    &&& a.soft_object_paths_count == b.soft_object_paths_count
    &&& a.soft_object_paths_offset == b.soft_object_paths_offset
    &&& (a.localization_id is Some <==> b.localization_id is Some)
    &&& (a.localization_id is Some ==> a.localization_id->Some_0@ == b.localization_id->Some_0@)
    &&& a.gatherable_text_data_count == b.gatherable_text_data_count
    &&& a.gatherable_text_data_offset == b.gatherable_text_data_offset
    &&& a.export_count == b.export_count
    &&& a.export_offset == b.export_offset
    &&& a.imports@ == b.imports@
    &&& a.depends_offset == b.depends_offset
    &&& a.soft_package_references_count == b.soft_package_references_count
    &&& a.soft_package_references_offset == b.soft_package_references_offset
    &&& a.searchable_names_offset == b.searchable_names_offset
    &&& a.thumbnail_table_offset == b.thumbnail_table_offset
    &&& same_engine_version(a.engine_version, b.engine_version)
    &&& same_engine_version(a.compatible_with_engine_version, b.compatible_with_engine_version)
    &&& a.compression_flags == b.compression_flags
    &&& a.package_source == b.package_source
    &&& a.additional_packages_to_cook@ == b.additional_packages_to_cook@
    &&& a.texture_allocations == b.texture_allocations
    &&& a.asset_registry_data_offset == b.asset_registry_data_offset
    &&& a.bulk_data_start_offset == b.bulk_data_start_offset
    &&& a.world_tile_info_data_offset == b.world_tile_info_data_offset
    &&& a.chunk_ids@ == b.chunk_ids@
    &&& a.preload_dependency_count == b.preload_dependency_count
    &&& a.preload_dependency_offset == b.preload_dependency_offset
    &&& a.names_referenced_from_export_data_count == b.names_referenced_from_export_data_count
    &&& a.payload_toc_offset == b.payload_toc_offset
    &&& a.data_resource_offset == b.data_resource_offset
}

/// `a` and `b` are the same engine version.
pub open spec fn same_engine_version(a: EngineVersionInfo, b: EngineVersionInfo) -> bool {
    &&& a.major == b.major
    &&& a.minor == b.minor
    &&& a.patch == b.patch
    &&& a.changelist == b.changelist
    &&& a.is_licensee_version == b.is_licensee_version
    &&& a.branch_name@ == b.branch_name@
}

fn header_from_package(p: &ParsedPackage, st: LayoutState) -> (r: PackageHeader)
    ensures
        same_header(r, with_walk(uasset_summary(*p), st)),
{
    let ghost s = uasset_summary(*p);
    let count = summary_import_count(p);
    let mut imports: Vec<ImportEntry> = Vec::new();
    let mut i: usize = 0;
    while i < count
        invariant
            s == uasset_summary(*p),
            count == s.imports.len(),
            i <= count,
            imports@ == s.imports@.subrange(0, i as int),
        decreases count - i,
    {
        let outer = summary_import_outer(p, i);
        let (class_package, class_name, object_name, package_name, import_optional) =
            summary_import_names(p, i);
        imports.push(
            ImportEntry { class_package, class_name, outer, object_name, package_name, import_optional },
        );
        assert(imports@ =~= s.imports@.subrange(0, i + 1));
        i = i + 1;
    }
    assert(imports@ =~= s.imports@);
    let (folder_name, names, localization_id, additional_packages_to_cook, chunk_ids) =
        summary_tables(p);
    let (total_header_size, soft_object_paths_count, soft_object_paths_offset,
        gatherable_text_data_count, gatherable_text_data_offset, depends_offset,
        soft_package_references_count, soft_package_references_offset) = summary_counts(p);
    let (thumbnail_table_offset, asset_registry_data_offset, preload_dependency_count,
        preload_dependency_offset, names_referenced_from_export_data_count, package_flags,
        compression_flags, package_source) = summary_later_counts(p);
    let (bulk_data_start_offset, payload_toc_offset, searchable_names_offset, texture_allocations,
        export_count) = summary_optionals(p);
    PackageHeader {
        archive: summary_archive(p),
        total_header_size,
        folder_name,
        package_flags,
        names,
        soft_object_paths_count,
        soft_object_paths_offset,
        localization_id,
        gatherable_text_data_count,
        gatherable_text_data_offset,
        export_count,
        export_offset: st.export_offset,
        imports,
        depends_offset,
        soft_package_references_count,
        soft_package_references_offset,
        searchable_names_offset,
        thumbnail_table_offset,
        engine_version: summary_engine_version(p),
        compatible_with_engine_version: summary_compatible_engine_version(p),
        compression_flags,
        package_source,
        additional_packages_to_cook,
        texture_allocations,
        asset_registry_data_offset,
        bulk_data_start_offset,
        world_tile_info_data_offset: st.world_tile_info_data_offset,
        chunk_ids,
        preload_dependency_count,
        preload_dependency_offset,
        names_referenced_from_export_data_count,
        payload_toc_offset,
        data_resource_offset: st.data_resource_offset,
    }
}

/// What decoding `bytes` gives: nothing when the layout walk or the package parser fails,
/// else the parser's fields with the offsets that the walk read.
pub open spec fn decoded(bytes: Seq<u8>) -> Option<PackageHeader> {
    match (layout_spec(bytes), uasset_decode(bytes)) {
        (Ok(st), Some(h)) => Some(with_walk(h, st)),
        _ => None,
    }
}

/// Why decoding `bytes` fails: the layout walk's finding, or else text that the parser
/// could not read (its strings are not valid UTF-8 or UTF-16).
pub open spec fn decode_error(bytes: Seq<u8>) -> HeaderError {
    match layout_spec(bytes) {
        Err(e) => e,
        Ok(_) => HeaderError::Malformed,
    }
}

/// Decodes the package summary at the front of `bytes`. The buffer's layout is checked
/// first (see `layout_spec`): a field past its end is `UnexpectedEof`, a string running
/// past its end or a negative count is `Malformed`, an unknown version is
/// `UnsupportedVersion`. Only a buffer that passes is handed to the package parser.
pub fn decode_asset_header(bytes: &[u8]) -> (r: Result<PackageHeader, HeaderError>)
    ensures
        r is Ok <==> decoded(bytes@) is Some,
        r is Ok ==> same_header(r->Ok_0, decoded(bytes@)->Some_0),
        r is Ok ==> version_gated(r->Ok_0),
        r is Err ==> r->Err_0 == decode_error(bytes@),
        bytes@.len() < 8 ==> r == Err::<PackageHeader, HeaderError>(HeaderError::UnexpectedEof),
{
    let st = match check_layout(bytes) {
        Ok(st) => st,
        Err(e) => return Err(e),
    };
    match parse_package(bytes) {
        Ok(p) => Ok(header_from_package(&p, st)),
        Err(_) => Err(HeaderError::Malformed),
    }
}

/// A buffer cut anywhere before the end of the last field of a well-laid-out summary,
/// its name, export and import tables included, does not decode: it
/// fails with `UnexpectedEof`, or with `Malformed` only where the cut falls inside the
/// text of a string (after its length prefix).
pub proof fn lemma_truncated_decode_fails(b: Seq<u8>, m: int)
    requires
        0 <= m <= b.len(),
        layout_spec(b) is Ok,
        m < layout_spec(b)->Ok_0.extent,
    ensures
        decoded(b.subrange(0, m)) is None,
        decode_error(b.subrange(0, m)) == HeaderError::UnexpectedEof || (decode_error(
            b.subrange(0, m),
        ) == HeaderError::Malformed && exists|p: int| #[trigger] string_cut_at(b, m, p)),
{
    lemma_truncation(b, m);
}

} // verus!
