use vstd::prelude::*;

use crate::commands::{digits, digits_of};
use crate::outer::ObjectImportOuter;
use crate::uproject::concat_text;

verus! {

/// A reference into a package's name table.
#[derive(Clone, Copy, Debug, PartialEq, Eq, Structural)]
pub struct NameReference {
    /// Position in the name table.
    pub index: u32,
    /// The stored instance suffix (one greater than the printed suffix), absent when the
    /// name has none.
    pub number: Option<u32>,
}

/// A version of the engine, as recorded twice in a header.
#[derive(Clone, Debug)]
pub struct EngineVersionInfo {
    pub major: u16,
    pub minor: u16,
    pub patch: u16,
    pub changelist: u32,
    pub is_licensee_version: bool,
    pub branch_name: String,
}

/// The serialization versions read at the front of a header.
#[derive(Clone, Copy, Debug, PartialEq, Eq, Structural)]
pub struct ArchiveInfo {
    pub file_version: i32,
    /// Present only in files written by UE5-era engines.
    pub file_version_ue5: Option<i32>,
    pub file_licensee_version: i32,
    pub legacy_version: i32,
    pub with_editoronly_data: bool,
}

/// One entry of the import table: an object defined in another package.
#[derive(Clone, Copy, Debug, PartialEq, Eq, Structural)]
pub struct ImportEntry {
    pub class_package: NameReference,
    pub class_name: NameReference,
    pub outer: ObjectImportOuter,
    pub object_name: NameReference,
    pub package_name: Option<NameReference>,
    pub import_optional: bool,
}

/// The decoded summary block at the front of a package file.
#[derive(Clone, Debug)]
pub struct PackageHeader {
    pub archive: ArchiveInfo,
    pub total_header_size: i32,
    pub folder_name: String,
    pub package_flags: u32,
    /// The name table; a `NameReference`'s index is a position in it.
    pub names: Vec<String>,
    pub soft_object_paths_count: i32,
    pub soft_object_paths_offset: i32,
    pub localization_id: Option<String>,
    pub gatherable_text_data_count: i32,
    pub gatherable_text_data_offset: i32,
    pub export_count: u32,
    /// Where the export table starts in the file.
    pub export_offset: i32,
    pub imports: Vec<ImportEntry>,
    pub depends_offset: i32,
    pub soft_package_references_count: i32,
    pub soft_package_references_offset: i32,
    pub searchable_names_offset: Option<i32>,
    pub thumbnail_table_offset: i32,
    pub engine_version: EngineVersionInfo,
    pub compatible_with_engine_version: EngineVersionInfo,
    pub compression_flags: u32,
    pub package_source: u32,
    pub additional_packages_to_cook: Vec<String>,
    pub texture_allocations: Option<i32>,
    pub asset_registry_data_offset: i32,
    pub bulk_data_start_offset: i64,
    pub world_tile_info_data_offset: Option<i32>,
    pub chunk_ids: Vec<i32>,
    pub preload_dependency_count: i32,
    pub preload_dependency_offset: i32,
    pub names_referenced_from_export_data_count: i32,
    pub payload_toc_offset: i64,
    pub data_resource_offset: Option<i32>,
}

/// Why a header could not be decoded or projected.
#[derive(Clone, Copy, Debug, PartialEq, Eq, Structural)]
pub enum HeaderError {
    /// The buffer ends before a field that the format requires.
    UnexpectedEof,
    /// A length or offset is inconsistent with the buffer, or the data is not a package.
    Malformed,
    /// The file's version is not one that the decoder knows.
    UnsupportedVersion,
    /// A name reference points past the end of the name table.
    NameIndexOutOfRange { index: u32 },
}

/// The human-readable text of an error.
pub open spec fn error_message(e: HeaderError) -> Seq<char> {
    match e {
        HeaderError::UnexpectedEof => "unexpected end of data in the package header"@,
        HeaderError::Malformed => "malformed package header"@,
        HeaderError::UnsupportedVersion => "unsupported package version"@,
        HeaderError::NameIndexOutOfRange { index } => "name index out of range: "@ + digits_of(index as nat),
    }
}

impl HeaderError {
    /// A human-readable description of this error, to report beside its kind.
    pub fn message(&self) -> (r: String)
        ensures
            r@ == error_message(*self),
    {
        match self {
            HeaderError::UnexpectedEof => "unexpected end of data in the package header".to_owned(),
            HeaderError::Malformed => "malformed package header".to_owned(),
            HeaderError::UnsupportedVersion => "unsupported package version".to_owned(),
            HeaderError::NameIndexOutOfRange { index } => {
                let text = digits(*index as u64);
                concat_text("name index out of range: ", text.as_str())
            },
        }
    }
}

/// The name table as a sequence of character sequences.
pub open spec fn names_view(names: Seq<String>) -> Seq<Seq<char>> {
    names.map_values(|s: String| s@)
}

} // verus!
