//! Decoding and projection of Unreal Engine package headers, and the argument and path
//! logic of the commands that drive an engine installation.

mod commands;
mod decode;
mod header;
mod layout;
mod outer;
mod paths;
mod projection;
mod uproject;
mod value;

pub use commands::{
    decimal_string, same_text, FromUAsset, StartOptions, UEBuild, UEGenerateProjectFiles,
    UERegisterEngine, UERunUAT, UEStart, UESwitchVersion, UEUpdateFileAssociations,
    UnrealEnginePlugin, UE,
};
pub use decode::decode_asset_header;
pub use header::{
    ArchiveInfo, EngineVersionInfo, HeaderError, ImportEntry, NameReference, PackageHeader,
};
pub use outer::{decode_outer, encode_outer, ObjectImportOuter};
pub use paths::{
    get_existing_path, get_uat_path, get_ubt_path, get_unreal_editor_path, get_unreal_scripts_path,
    get_unreal_version_selector_path, join_path, unreal_version_selector_candidates,
};
pub use projection::{
    convert_asset_header_to_value, from_uasset_header, name_reference_serializable,
};
pub use uproject::{
    concat_text, detect_ide, engine_path_from_capture, engine_path_from_site_package,
    engine_path_from_sln, find_uproject, get_unreal_engine_path, has_suffix,
    project_relative_path, sibling_path, uproject_from_arg_or_current_dir, uproject_record,
    ProjectFiles, UProject, CONTENT_END_PATH, IDE, PIP_INSTALL_SITE_PACKAGE, SLN_ENGINE_PATTERN,
};
pub use value::GenericValue;
