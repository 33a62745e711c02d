use vstd::prelude::*;

use crate::header::{
    names_view, ArchiveInfo, PackageHeader, EngineVersionInfo, HeaderError, ImportEntry,
    NameReference,
};
use crate::decode::{
    decode_asset_header, decode_error, decoded, same_header, version_gated,
    DATA_RESOURCES_VERSION_UE5, LAST_TEXTURE_ALLOCATIONS_LEGACY_VERSION, LOCALIZATION_ID_VERSION,
    SEARCHABLE_NAMES_VERSION, WORLD_TILE_INFO_VERSION,
};
use crate::outer::{encode_outer, outer_index_of};
use crate::value::{
    lemma_list_view, lemma_record_view, list_items, record_fields, GenericValue, ValueModel,
};

verus! {

broadcast use vstd::std_specs::vec::group_vec_axioms;

/// An optional integer: absent stays absent.
pub open spec fn opt_int_model(o: Option<i32>) -> ValueModel {
    match o {
        Some(x) => ValueModel::Int(x as int),
        None => ValueModel::Nothing,
    }
}

/// An optional string: absent stays absent.
pub open spec fn opt_str_model(o: Option<String>) -> ValueModel {
    match o {
        Some(s) => ValueModel::Str(s@),
        None => ValueModel::Nothing,
    }
}

/// A list of strings.
pub open spec fn str_list_model(v: Seq<String>) -> ValueModel {
    ValueModel::List(v.map_values(|s: String| ValueModel::Str(s@)))
}

/// A list of integers.
pub open spec fn int_list_model(v: Seq<i32>) -> ValueModel {
    ValueModel::List(v.map_values(|x: i32| ValueModel::Int(x as int)))
}

/// A name reference: the named string when resolving, else its index and number.
pub open spec fn name_ref_model(n: NameReference, resolve: bool, names: Seq<Seq<char>>) -> ValueModel {
    if resolve {
        ValueModel::Str(names[n.index as int])
    } else {
        ValueModel::Record(
            seq![
                ("index"@, ValueModel::Int(n.index as int)),
                ("number"@, match n.number {
                    Some(k) => ValueModel::Int(k as int),
                    None => ValueModel::Nothing,
                }),
            ],
        )
    }
}

/// An optional name reference.
pub open spec fn opt_name_ref_model(
    n: Option<NameReference>,
    resolve: bool,
    names: Seq<Seq<char>>,
) -> ValueModel {
    match n {
        Some(n) => name_ref_model(n, resolve, names),
        None => ValueModel::Nothing,
    }
}

/// One import entry, with its outer written back in the signed on-disk form.
pub open spec fn import_model(i: ImportEntry, resolve: bool, names: Seq<Seq<char>>) -> ValueModel {
    ValueModel::Record(
        seq![
            ("class_package"@, name_ref_model(i.class_package, resolve, names)),
            ("class_name"@, name_ref_model(i.class_name, resolve, names)),
            ("outer_index"@, ValueModel::Int(outer_index_of(i.outer))),
            ("object_name"@, name_ref_model(i.object_name, resolve, names)),
            ("package_name"@, opt_name_ref_model(i.package_name, resolve, names)),
            ("import_optional"@, ValueModel::Bool(i.import_optional)),
        ],
    )
}

/// The import table.
pub open spec fn imports_model(v: Seq<ImportEntry>, resolve: bool, names: Seq<Seq<char>>) -> ValueModel {
    ValueModel::List(v.map_values(|i: ImportEntry| import_model(i, resolve, names)))
}

/// The serialization versions.
pub open spec fn archive_model(a: ArchiveInfo) -> ValueModel {
    ValueModel::Record(
        seq![
            ("file_version"@, ValueModel::Int(a.file_version as int)),
            ("file_version_ue5"@, opt_int_model(a.file_version_ue5)),
            ("file_licensee_version"@, ValueModel::Int(a.file_licensee_version as int)),
            ("legacy_version"@, ValueModel::Int(a.legacy_version as int)),
            ("with_editoronly_data"@, ValueModel::Bool(a.with_editoronly_data)),
        ],
    )
}

/// An engine version.
pub open spec fn engine_version_model(e: EngineVersionInfo) -> ValueModel {
    ValueModel::Record(
        seq![
            ("major"@, ValueModel::Int(e.major as int)),
            ("minor"@, ValueModel::Int(e.minor as int)),
            ("patch"@, ValueModel::Int(e.patch as int)),
            ("changelist"@, ValueModel::Int(e.changelist as int)),
            ("is_licensee_version"@, ValueModel::Bool(e.is_licensee_version)),
            ("branch_name"@, ValueModel::Str(e.branch_name@)),
        ],
    )
}

/// The whole header, field by field, in a fixed key order.
pub open spec fn header_model(h: PackageHeader, resolve: bool) -> ValueModel {
    let names = names_view(h.names@);
    ValueModel::Record(
        seq![
            ("archive"@, archive_model(h.archive)),
            ("total_header_size"@, ValueModel::Int(h.total_header_size as int)),
            ("folder_name"@, ValueModel::Str(h.folder_name@)),
            ("package_flags"@, ValueModel::Int(h.package_flags as int)),
            ("names"@, str_list_model(h.names@)),
            ("soft_object_paths_count"@, ValueModel::Int(h.soft_object_paths_count as int)),
            ("soft_object_paths_offset"@, ValueModel::Int(h.soft_object_paths_offset as int)),
            ("localization_id"@, opt_str_model(h.localization_id)),
            ("gatherable_text_data_count"@, ValueModel::Int(h.gatherable_text_data_count as int)),
            ("gatherable_text_data_offset"@, ValueModel::Int(h.gatherable_text_data_offset as int)),
            ("export_count"@, ValueModel::Int(h.export_count as int)),
            ("export_offset"@, ValueModel::Int(h.export_offset as int)),
            ("imports"@, imports_model(h.imports@, resolve, names)),
            ("depends_offset"@, ValueModel::Int(h.depends_offset as int)),
            ("soft_package_references_count"@, ValueModel::Int(h.soft_package_references_count as int)),
            ("soft_package_references_offset"@, ValueModel::Int(h.soft_package_references_offset as int)),
            ("searchable_names_offset"@, opt_int_model(h.searchable_names_offset)),
            ("thumbnail_table_offset"@, ValueModel::Int(h.thumbnail_table_offset as int)),
            ("engine_version"@, engine_version_model(h.engine_version)),
            ("compatible_with_engine_version"@, engine_version_model(h.compatible_with_engine_version)),
            ("compression_flags"@, ValueModel::Int(h.compression_flags as int)),
            ("package_source"@, ValueModel::Int(h.package_source as int)),
            ("additional_packages_to_cook"@, str_list_model(h.additional_packages_to_cook@)),
            ("texture_allocations"@, opt_int_model(h.texture_allocations)),
            ("asset_registry_data_offset"@, ValueModel::Int(h.asset_registry_data_offset as int)),
            ("bulk_data_start_offset"@, ValueModel::Int(h.bulk_data_start_offset as int)),
            ("world_tile_info_data_offset"@, opt_int_model(h.world_tile_info_data_offset)),
            ("chunk_ids"@, int_list_model(h.chunk_ids@)),
            ("preload_dependency_count"@, ValueModel::Int(h.preload_dependency_count as int)),
            ("preload_dependency_offset"@, ValueModel::Int(h.preload_dependency_offset as int)),
            ("names_referenced_from_export_data_count"@, ValueModel::Int(h.names_referenced_from_export_data_count as int)),
            ("payload_toc_offset"@, ValueModel::Int(h.payload_toc_offset as int)),
            ("data_resource_offset"@, opt_int_model(h.data_resource_offset)),
        ],
    )
}

/// Every name reference of an import entry lies inside a name table of `count` names.
pub open spec fn import_in_range(i: ImportEntry, count: int) -> bool {
    &&& (i.class_package.index as int) < count
    &&& (i.class_name.index as int) < count
    &&& (i.object_name.index as int) < count
    &&& (i.package_name matches Some(n) ==> (n.index as int) < count)
}

/// Every name reference of the header's import table can be resolved.
pub open spec fn names_resolvable(h: PackageHeader) -> bool {
    forall|j: int| 0 <= j < h.imports.len() ==> import_in_range(#[trigger] h.imports[j], h.names.len() as int)
}

/// `index` is out of range for the header's names and some import refers to it.
pub open spec fn is_dangling_index(h: PackageHeader, index: u32) -> bool {
    &&& index >= h.names.len()
    &&& exists|j: int| 0 <= j < h.imports.len() && {
        let i = #[trigger] h.imports[j];
        ||| i.class_package.index == index
        ||| i.class_name.index == index
        ||| i.object_name.index == index
        ||| (i.package_name is Some && i.package_name->Some_0.index == index)
    }
}

fn entry(key: &str, value: GenericValue) -> (r: (String, GenericValue))
    ensures
        r.0@ == key@,
        r.1 == value,
{
    (key.to_owned(), value)
}

fn int_value(x: i64) -> (r: GenericValue)
    ensures
        r@ == ValueModel::Int(x as int),
{
    GenericValue::Int(x)
}

fn str_value(s: &String) -> (r: GenericValue)
    ensures
        r@ == ValueModel::Str(s@),
{
    GenericValue::Str(s.clone())
}

fn opt_int_value(o: Option<i32>) -> (r: GenericValue)
    ensures
        r@ == opt_int_model(o),
{
    match o {
        Some(x) => GenericValue::Int(x as i64),
        None => GenericValue::Nothing,
    }
}

fn str_list_value(v: &Vec<String>) -> (r: GenericValue)
    ensures
        r@ == str_list_model(v@),
{
    let mut out: Vec<GenericValue> = Vec::new();
    let mut i: usize = 0;
    while i < v.len()
        invariant
            i <= v.len(),
            out.len() == i,
            forall|j: int| 0 <= j < i ==> (#[trigger] out[j])@ == ValueModel::Str(v[j]@),
        decreases v.len() - i,
    {
        out.push(str_value(&v[i]));
        i = i + 1;
    }
    let r = GenericValue::List(out);
    assert(r@ == str_list_model(v@)) by {
        if let ValueModel::List(s) = r@ {
            assert(s =~= v@.map_values(|s: String| ValueModel::Str(s@)));
        }
    }
    r
}

fn int_list_value(v: &Vec<i32>) -> (r: GenericValue)
    ensures
        r@ == int_list_model(v@),
{
    let mut out: Vec<GenericValue> = Vec::new();
    let mut i: usize = 0;
    while i < v.len()
        invariant
            i <= v.len(),
            out.len() == i,
            forall|j: int| 0 <= j < i ==> (#[trigger] out[j])@ == ValueModel::Int(v[j] as int),
        decreases v.len() - i,
    {
        out.push(int_value(v[i] as i64));
        i = i + 1;
    }
    let r = GenericValue::List(out);
    assert(r@ == int_list_model(v@)) by {
        if let ValueModel::List(s) = r@ {
            assert(s =~= v@.map_values(|x: i32| ValueModel::Int(x as int)));
        }
    }
    r
}

/// Projects one name reference: to the string it names when `replace_names` holds, else
/// to a record of its index and number. Resolving an index outside `names` is an error.
pub fn name_reference_serializable(
    name_reference: NameReference,
    replace_names: bool,
    names: &Vec<String>,
) -> (r: Result<GenericValue, HeaderError>)
    ensures
        r is Err <==> replace_names && name_reference.index >= names.len(),
        r is Err ==> r == Err::<GenericValue, HeaderError>(
            HeaderError::NameIndexOutOfRange { index: name_reference.index },
        ),
        r is Ok ==> r->Ok_0@ == name_ref_model(name_reference, replace_names, names_view(names@)),
{
    if replace_names {
        if name_reference.index as usize >= names.len() {
            return Err(HeaderError::NameIndexOutOfRange { index: name_reference.index });
        }
        let r = str_value(&names[name_reference.index as usize]);
        Ok(r)
    } else {
        let number = match name_reference.number {
            Some(k) => GenericValue::Int(k as i64),
            None => GenericValue::Nothing,
        };
        let fields = vec![entry("index", int_value(name_reference.index as i64)), entry("number", number)];
        proof {
            lemma_record_view(fields);
            assert(fields@.map_values(|e: (String, GenericValue)| (e.0@, e.1@)) =~= seq![
                ("index"@, ValueModel::Int(name_reference.index as int)),
                ("number"@, match name_reference.number {
                    Some(k) => ValueModel::Int(k as int),
                    None => ValueModel::Nothing,
                }),
            ]);
        }
        Ok(GenericValue::Record(fields))
    }
}

fn opt_name_value(
    n: Option<NameReference>,
    replace_names: bool,
    names: &Vec<String>,
) -> (r: Result<GenericValue, HeaderError>)
    ensures
        r is Err <==> replace_names && n is Some && n->Some_0.index >= names.len(),
        r is Err ==> r == Err::<GenericValue, HeaderError>(
            HeaderError::NameIndexOutOfRange { index: n->Some_0.index },
        ),
        r is Ok ==> r->Ok_0@ == opt_name_ref_model(n, replace_names, names_view(names@)),
{
    match n {
        Some(n) => name_reference_serializable(n, replace_names, names),
        None => Ok(GenericValue::Nothing),
    }
}

/// The error of a failed projection: a dangling index of this import entry.
pub open spec fn dangling_in_import(i: ImportEntry, count: int, e: HeaderError) -> bool {
    &&& e matches HeaderError::NameIndexOutOfRange { index }
    &&& (index as int) >= count
    &&& {
        ||| i.class_package.index == e->index
        ||| i.class_name.index == e->index
        ||| i.object_name.index == e->index
        ||| (i.package_name is Some && i.package_name->Some_0.index == e->index)
    }
}

fn import_value(
    i: &ImportEntry,
    replace_names: bool,
    names: &Vec<String>,
) -> (r: Result<GenericValue, HeaderError>)
    ensures
        r is Err <==> replace_names && !import_in_range(*i, names.len() as int),
        r is Err ==> dangling_in_import(*i, names.len() as int, r->Err_0),
        r is Ok ==> r->Ok_0@ == import_model(*i, replace_names, names_view(names@)),
{
    let class_package = match name_reference_serializable(i.class_package, replace_names, names) {
        Ok(v) => v,
        Err(e) => return Err(e),
    };
    let class_name = match name_reference_serializable(i.class_name, replace_names, names) {
        Ok(v) => v,
        Err(e) => return Err(e),
    };
    let object_name = match name_reference_serializable(i.object_name, replace_names, names) {
        Ok(v) => v,
        Err(e) => return Err(e),
    };
    let package_name = match opt_name_value(i.package_name, replace_names, names) {
        Ok(v) => v,
        Err(e) => return Err(e),
    };
    let fields = vec![
        entry("class_package", class_package),
        entry("class_name", class_name),
        entry("outer_index", int_value(encode_outer(i.outer))),
        entry("object_name", object_name),
        entry("package_name", package_name),
        entry("import_optional", GenericValue::Bool(i.import_optional)),
    ];
    proof {
        let names_v = names_view(names@);
        lemma_record_view(fields);
        assert(fields@.map_values(|e: (String, GenericValue)| (e.0@, e.1@)) =~= seq![
            ("class_package"@, name_ref_model(i.class_package, replace_names, names_v)),
            ("class_name"@, name_ref_model(i.class_name, replace_names, names_v)),
            ("outer_index"@, ValueModel::Int(outer_index_of(i.outer))),
            ("object_name"@, name_ref_model(i.object_name, replace_names, names_v)),
            ("package_name"@, opt_name_ref_model(i.package_name, replace_names, names_v)),
            ("import_optional"@, ValueModel::Bool(i.import_optional)),
        ]);
    }
    Ok(GenericValue::Record(fields))
}

fn imports_value(
    imports: &Vec<ImportEntry>,
    replace_names: bool,
    names: &Vec<String>,
) -> (r: Result<GenericValue, HeaderError>)
    ensures
        r is Err <==> replace_names && exists|j: int|
            0 <= j < imports.len() && !import_in_range(#[trigger] imports[j], names.len() as int),
        r is Err ==> exists|j: int|
            0 <= j < imports.len() && dangling_in_import(
                #[trigger] imports[j],
                names.len() as int,
                r->Err_0,
            ),
        r is Ok ==> r->Ok_0@ == imports_model(imports@, replace_names, names_view(names@)),
{
    let ghost names_v = names_view(names@);
    let mut out: Vec<GenericValue> = Vec::new();
    let mut k: usize = 0;
    while k < imports.len()
        invariant
            k <= imports.len(),
            out.len() == k,
            names_v == names_view(names@),
            forall|j: int| 0 <= j < k ==> (#[trigger] out[j])@ == import_model(imports[j], replace_names, names_v),
            replace_names ==> forall|j: int| 0 <= j < k ==> import_in_range(#[trigger] imports[j], names.len() as int),
        decreases imports.len() - k,
    {
        let res = import_value(&imports[k], replace_names, names);
        let v = match res {
            Ok(v) => v,
            Err(e) => {
                assert(dangling_in_import(imports[k as int], names.len() as int, e));
                return Err(e);
            },
        };
        out.push(v);
        k = k + 1;
    }
    proof {
        lemma_list_view(out);
        assert(out@.map_values(|e: GenericValue| e@) =~= imports@.map_values(
            |i: ImportEntry| import_model(i, replace_names, names_v),
        ));
    }
    Ok(GenericValue::List(out))
}

fn archive_value(a: &ArchiveInfo) -> (r: GenericValue)
    ensures
        r@ == archive_model(*a),
{
    let fields = vec![
        entry("file_version", int_value(a.file_version as i64)),
        entry("file_version_ue5", opt_int_value(a.file_version_ue5)),
        entry("file_licensee_version", int_value(a.file_licensee_version as i64)),
        entry("legacy_version", int_value(a.legacy_version as i64)),
        entry("with_editoronly_data", GenericValue::Bool(a.with_editoronly_data)),
    ];
    proof {
        lemma_record_view(fields);
        assert(fields@.map_values(|e: (String, GenericValue)| (e.0@, e.1@)) =~= seq![
            ("file_version"@, ValueModel::Int(a.file_version as int)),
            ("file_version_ue5"@, opt_int_model(a.file_version_ue5)),
            ("file_licensee_version"@, ValueModel::Int(a.file_licensee_version as int)),
            ("legacy_version"@, ValueModel::Int(a.legacy_version as int)),
            ("with_editoronly_data"@, ValueModel::Bool(a.with_editoronly_data)),
        ]);
    }
    GenericValue::Record(fields)
}

fn engine_version_value(e: &EngineVersionInfo) -> (r: GenericValue)
    ensures
        r@ == engine_version_model(*e),
{
    let fields = vec![
        entry("major", int_value(e.major as i64)),
        entry("minor", int_value(e.minor as i64)),
        entry("patch", int_value(e.patch as i64)),
        entry("changelist", int_value(e.changelist as i64)),
        entry("is_licensee_version", GenericValue::Bool(e.is_licensee_version)),
        entry("branch_name", str_value(&e.branch_name)),
    ];
    proof {
        lemma_record_view(fields);
        assert(fields@.map_values(|x: (String, GenericValue)| (x.0@, x.1@)) =~= seq![
            ("major"@, ValueModel::Int(e.major as int)),
            ("minor"@, ValueModel::Int(e.minor as int)),
            ("patch"@, ValueModel::Int(e.patch as int)),
            ("changelist"@, ValueModel::Int(e.changelist as int)),
            ("is_licensee_version"@, ValueModel::Bool(e.is_licensee_version)),
            ("branch_name"@, ValueModel::Str(e.branch_name@)),
        ]);
    }
    GenericValue::Record(fields)
}

/// Projects a decoded header to a generic record with one key per header field, in a
/// fixed order. With `replace_names`, every name reference becomes the string it names,
/// and a reference outside the name table makes the projection fail.
pub fn convert_asset_header_to_value(
    header: &PackageHeader,
    replace_names: bool,
) -> (r: Result<GenericValue, HeaderError>)
    ensures
        r is Err <==> replace_names && !names_resolvable(*header),
        r is Err ==> (r->Err_0 matches HeaderError::NameIndexOutOfRange { index }
            && is_dangling_index(*header, index)),
        r is Ok ==> r->Ok_0@ == header_model(*header, replace_names),
{
    let imports = match imports_value(&header.imports, replace_names, &header.names) {
        Ok(v) => v,
        Err(e) => {
            proof {
                let j = choose|j: int|
                    0 <= j < header.imports.len() && dangling_in_import(
                        #[trigger] header.imports[j],
                        header.names.len() as int,
                        e,
                    );
                assert(header.imports@[j] == header.imports[j]);
            }
            return Err(e);
        },
    };
    let localization_id = match &header.localization_id {
        Some(s) => str_value(s),
        None => GenericValue::Nothing,
    };
    let fields = vec![
        entry("archive", archive_value(&header.archive)),
        entry("total_header_size", int_value(header.total_header_size as i64)),
        entry("folder_name", str_value(&header.folder_name)),
        entry("package_flags", int_value(header.package_flags as i64)),
        entry("names", str_list_value(&header.names)),
        entry("soft_object_paths_count", int_value(header.soft_object_paths_count as i64)),
        entry("soft_object_paths_offset", int_value(header.soft_object_paths_offset as i64)),
        entry("localization_id", localization_id),
        entry("gatherable_text_data_count", int_value(header.gatherable_text_data_count as i64)),
        entry("gatherable_text_data_offset", int_value(header.gatherable_text_data_offset as i64)),
        entry("export_count", int_value(header.export_count as i64)),
        entry("export_offset", int_value(header.export_offset as i64)),
        entry("imports", imports),
        entry("depends_offset", int_value(header.depends_offset as i64)),
        entry("soft_package_references_count", int_value(header.soft_package_references_count as i64)),
        entry("soft_package_references_offset", int_value(header.soft_package_references_offset as i64)),
        entry("searchable_names_offset", opt_int_value(header.searchable_names_offset)),
        entry("thumbnail_table_offset", int_value(header.thumbnail_table_offset as i64)),
        entry("engine_version", engine_version_value(&header.engine_version)),
        entry("compatible_with_engine_version", engine_version_value(&header.compatible_with_engine_version)),
        entry("compression_flags", int_value(header.compression_flags as i64)),
        entry("package_source", int_value(header.package_source as i64)),
        entry("additional_packages_to_cook", str_list_value(&header.additional_packages_to_cook)),
        entry("texture_allocations", opt_int_value(header.texture_allocations)),
        entry("asset_registry_data_offset", int_value(header.asset_registry_data_offset as i64)),
        entry("bulk_data_start_offset", int_value(header.bulk_data_start_offset)),
        entry("world_tile_info_data_offset", opt_int_value(header.world_tile_info_data_offset)),
        entry("chunk_ids", int_list_value(&header.chunk_ids)),
        entry("preload_dependency_count", int_value(header.preload_dependency_count as i64)),
        entry("preload_dependency_offset", int_value(header.preload_dependency_offset as i64)),
        entry("names_referenced_from_export_data_count", int_value(header.names_referenced_from_export_data_count as i64)),
        entry("payload_toc_offset", int_value(header.payload_toc_offset)),
        entry("data_resource_offset", opt_int_value(header.data_resource_offset)),
    ];
    proof {
        lemma_record_view(fields);
        if let ValueModel::Record(s) = header_model(*header, replace_names) {
            assert(fields@.map_values(|x: (String, GenericValue)| (x.0@, x.1@)) =~= s);
        }
    }
    Ok(GenericValue::Record(fields))
}

/// Headers with the same contents project to the same value and resolve alike.
pub proof fn lemma_same_header_projects_alike(a: PackageHeader, b: PackageHeader, resolve: bool)
    requires
        same_header(a, b),
    ensures
        header_model(a, resolve) == header_model(b, resolve),
        names_resolvable(a) == names_resolvable(b),
{
    assert(engine_version_model(a.engine_version) == engine_version_model(b.engine_version));
    assert(engine_version_model(a.compatible_with_engine_version) == engine_version_model(
        b.compatible_with_engine_version,
    ));
    assert(opt_str_model(a.localization_id) == opt_str_model(b.localization_id));
    assert(a.names.len() == b.names.len()) by {
        assert(a.names@.len() == b.names@.len());
    }
    assert(a.imports.len() == b.imports.len()) by {
        assert(a.imports@.len() == b.imports@.len());
    }
    if names_resolvable(a) {
        assert forall|j: int| 0 <= j < b.imports.len() implies import_in_range(
            #[trigger] b.imports[j],
            b.names.len() as int,
        ) by {
            assert(a.imports[j] == a.imports@[j]);
            assert(b.imports[j] == b.imports@[j]);
            assert(import_in_range(a.imports[j], a.names.len() as int));
        }
    }
    if names_resolvable(b) {
        assert forall|j: int| 0 <= j < a.imports.len() implies import_in_range(
            #[trigger] a.imports[j],
            a.names.len() as int,
        ) by {
            assert(a.imports[j] == a.imports@[j]);
            assert(b.imports[j] == b.imports@[j]);
            assert(import_in_range(b.imports[j], b.names.len() as int));
        }
    }
}

/// Decodes the package summary at the front of `bytes` and projects it to a generic record;
/// `replace_names` selects how name references are shown.
pub fn from_uasset_header(bytes: &[u8], replace_names: bool) -> (r: Result<GenericValue, HeaderError>)
    ensures
        r is Ok <==> decoded(bytes@) is Some && (replace_names ==> names_resolvable(
            decoded(bytes@)->Some_0,
        )),
        r is Ok ==> r->Ok_0@ == header_model(decoded(bytes@)->Some_0, replace_names),
        r is Err && decoded(bytes@) is Some ==> (r->Err_0 matches HeaderError::NameIndexOutOfRange { index }
            && is_dangling_index(decoded(bytes@)->Some_0, index)),
        r is Err && decoded(bytes@) is None ==> r->Err_0 == decode_error(bytes@),
        bytes@.len() < 8 ==> r == Err::<GenericValue, HeaderError>(HeaderError::UnexpectedEof),
{
    let header = match decode_asset_header(bytes) {
        Ok(h) => h,
        Err(e) => return Err(e),
    };
    proof {
        lemma_same_header_projects_alike(header, decoded(bytes@)->Some_0, replace_names);
    }
    let r = convert_asset_header_to_value(&header, replace_names);
    proof {
        let d = decoded(bytes@)->Some_0;
        if let Err(HeaderError::NameIndexOutOfRange { index }) = r {
            let j = choose|j: int| 0 <= j < header.imports.len() && {
                let i = #[trigger] header.imports[j];
                ||| i.class_package.index == index
                ||| i.class_name.index == index
                ||| i.object_name.index == index
                ||| (i.package_name is Some && i.package_name->Some_0.index == index)
            };
            assert(header.imports[j] == header.imports@[j]);
            assert(d.imports[j] == d.imports@[j]);
            assert(header.names@.len() == d.names@.len());
            assert(is_dangling_index(d, index));
        }
    }
    r
}

/// The projected record of the `j`-th import of `h`.
pub open spec fn projected_import(h: PackageHeader, resolve: bool, j: int) -> Seq<(Seq<char>, ValueModel)> {
    record_fields(list_items(record_fields(header_model(h, resolve))[12].1)[j])
}

/// Without name replacement, every name reference of an import is shown with the very
/// index that the decoded entry holds.
pub proof fn lemma_name_index_preserved(h: PackageHeader, j: int)
    requires
        0 <= j < h.imports.len(),
    ensures
        record_fields(header_model(h, false))[12].0 == "imports"@,
        record_fields(projected_import(h, false, j)[0].1)[0] == ("index"@, ValueModel::Int(
            h.imports[j].class_package.index as int,
        )),
        record_fields(projected_import(h, false, j)[1].1)[0] == ("index"@, ValueModel::Int(
            h.imports[j].class_name.index as int,
        )),
        record_fields(projected_import(h, false, j)[3].1)[0] == ("index"@, ValueModel::Int(
            h.imports[j].object_name.index as int,
        )),
        h.imports[j].package_name is Some ==> record_fields(projected_import(h, false, j)[4].1)[0]
            == ("index"@, ValueModel::Int(h.imports[j].package_name->Some_0.index as int)),
{
    assert(h.imports@.map_values(|i: ImportEntry| import_model(i, false, names_view(h.names@)))[j]
        == import_model(h.imports@[j], false, names_view(h.names@)));
}

/// With name replacement, every name reference of an import is shown as exactly the string
/// at its index in the name table.
pub proof fn lemma_names_resolved(h: PackageHeader, j: int)
    requires
        0 <= j < h.imports.len(),
        names_resolvable(h),
    ensures
        projected_import(h, true, j)[0].1 == ValueModel::Str(
            h.names[h.imports[j].class_package.index as int]@,
        ),
        projected_import(h, true, j)[1].1 == ValueModel::Str(
            h.names[h.imports[j].class_name.index as int]@,
        ),
        projected_import(h, true, j)[3].1 == ValueModel::Str(
            h.names[h.imports[j].object_name.index as int]@,
        ),
        h.imports[j].package_name is Some ==> projected_import(h, true, j)[4].1 == ValueModel::Str(
            h.names[h.imports[j].package_name->Some_0.index as int]@,
        ),
{
    assert(h.imports@.map_values(|i: ImportEntry| import_model(i, true, names_view(h.names@)))[j]
        == import_model(h.imports@[j], true, names_view(h.names@)));
    assert(import_in_range(h.imports[j], h.names.len() as int));
}

/// Each optional field is projected as absent when the file's versions predate it, and as a
/// value (zero included) when they include it.
pub proof fn lemma_version_gating(h: PackageHeader, resolve: bool)
    requires
        version_gated(h),
    ensures
        ({
            let f = record_fields(header_model(h, resolve));
            let a = h.archive;
            &&& f[16].0 == "searchable_names_offset"@
            &&& (a.file_version < SEARCHABLE_NAMES_VERSION ==> f[16].1 == ValueModel::Nothing)
            &&& (a.file_version >= SEARCHABLE_NAMES_VERSION ==> f[16].1 is Int)
            &&& f[7].0 == "localization_id"@
            &&& (a.file_version < LOCALIZATION_ID_VERSION ==> f[7].1 == ValueModel::Nothing)
            &&& (a.file_version >= LOCALIZATION_ID_VERSION && a.with_editoronly_data ==> f[7].1 is Str)
            &&& f[23].0 == "texture_allocations"@
            &&& (a.legacy_version < LAST_TEXTURE_ALLOCATIONS_LEGACY_VERSION ==> f[23].1
                == ValueModel::Nothing)
            &&& (a.legacy_version >= LAST_TEXTURE_ALLOCATIONS_LEGACY_VERSION ==> f[23].1 is Int)
            &&& f[26].0 == "world_tile_info_data_offset"@
            &&& (a.file_version < WORLD_TILE_INFO_VERSION ==> f[26].1 == ValueModel::Nothing)
            &&& (a.file_version >= WORLD_TILE_INFO_VERSION ==> f[26].1 is Int)
            &&& f[32].0 == "data_resource_offset"@
            &&& (a.file_version_ue5 is None ==> f[32].1 == ValueModel::Nothing)
            &&& (a.file_version_ue5 matches Some(v) && v < DATA_RESOURCES_VERSION_UE5 ==> f[32].1
                == ValueModel::Nothing)
            &&& (a.file_version_ue5 matches Some(v) && v >= DATA_RESOURCES_VERSION_UE5 ==> f[32].1 is Int)
            &&& f[0].0 == "archive"@
            &&& (a.legacy_version > -8 ==> record_fields(f[0].1)[1].1 == ValueModel::Nothing)
        }),
{
}

} // verus!
