use vstd::prelude::*;

use crate::header::HeaderError;

verus! {

/// Where a walk over the summary's layout stands, and the versions it has read so far.
#[derive(Clone, Copy, Debug, PartialEq, Eq, Structural)]
pub struct LayoutState {
    /// The byte offset of the next field.
    pub pos: usize,
    /// The end of the furthest field read so far, tables stored elsewhere included.
    pub extent: usize,
    pub file_version: i32,
    /// The UE5 file version, 0 when the file has none.
    pub file_version_ue5: i32,
    pub legacy_version: i32,
    pub with_editoronly_data: bool,
    /// Where the export table starts, once read.
    pub export_offset: i32,
    /// The world-tile-info offset, once read; absent where the file predates it.
    pub world_tile_info_data_offset: Option<i32>,
    /// The data-resource offset, once read; absent where the file predates it.
    pub data_resource_offset: Option<i32>,
}

/// The magic number that opens every package file.
pub const PACKAGE_FILE_MAGIC: u32 = 0x9E2A83C1;

/// The oldest and newest file versions that the decoder knows.
pub const OLDEST_FILE_VERSION: i32 = 214;
pub const NEWEST_FILE_VERSION: i32 = 522;

/// The oldest and newest UE5 file versions that the decoder knows.
pub const OLDEST_FILE_VERSION_UE5: i32 = 1000;
pub const NEWEST_FILE_VERSION_UE5: i32 = 1013;

/// The unsigned little-endian 32-bit integer at `p`.
pub open spec fn le_u32(b: Seq<u8>, p: int) -> int {
    b[p] as int + 256 * (b[p + 1] as int) + 65536 * (b[p + 2] as int) + 16777216 * (b[p + 3] as int)
}

/// The signed little-endian 32-bit integer at `p`.
pub open spec fn le_i32(b: Seq<u8>, p: int) -> int {
    if le_u32(b, p) >= 0x8000_0000 {
        le_u32(b, p) - 0x1_0000_0000
    } else {
        le_u32(b, p)
    }
}

/// `a` carries the versions of `b`.
pub open spec fn same_versions(a: LayoutState, b: LayoutState) -> bool {
    &&& a.file_version == b.file_version
    &&& a.file_version_ue5 == b.file_version_ue5
    &&& a.legacy_version == b.legacy_version
}

/// The state moved `n` bytes on.
pub open spec fn at(st: LayoutState, p: int) -> LayoutState {
    LayoutState { pos: p as usize, extent: if p > st.extent { p as usize } else { st.extent }, ..st }
}

/// Passes over `n` bytes that must all be in the buffer.
pub open spec fn skip_spec(b: Seq<u8>, st: LayoutState, n: int) -> Result<LayoutState, HeaderError> {
    if st.pos + n <= b.len() {
        Ok(at(st, st.pos + n))
    } else {
        Err(HeaderError::UnexpectedEof)
    }
}

/// Passes over `n` bytes when `present` holds.
pub open spec fn skip_if_spec(b: Seq<u8>, st: LayoutState, present: bool, n: int) -> Result<LayoutState, HeaderError> {
    if present {
        skip_spec(b, st, n)
    } else {
        Ok(st)
    }
}

/// The bytes that a string of declared length `l` takes after its prefix: `l` one-byte
/// characters, or `-l` two-byte ones when `l` is negative (the terminator included).
pub open spec fn string_body_len(l: int) -> int {
    if l >= 0 {
        l
    } else {
        -2 * l
    }
}

/// Passes over a length-prefixed string. A body that runs past the buffer, or the length
/// `i32::MIN` (whose magnitude has no 32-bit value), is malformed.
pub open spec fn string_spec(b: Seq<u8>, st: LayoutState) -> Result<LayoutState, HeaderError> {
    if st.pos + 4 > b.len() {
        Err(HeaderError::UnexpectedEof)
    } else {
        let l = le_i32(b, st.pos as int);
        if l == i32::MIN as int || st.pos + 4 + string_body_len(l) > b.len() {
            Err(HeaderError::Malformed)
        } else {
            Ok(at(st, st.pos + 4 + string_body_len(l)))
        }
    }
}

/// One element made of `lead` bytes, a string and `trail` bytes.
pub open spec fn element_spec(b: Seq<u8>, st: LayoutState, lead: int, trail: int) -> Result<LayoutState, HeaderError> {
    and_then(
        and_then(skip_spec(b, st, lead), |s: LayoutState| string_spec(b, s)),
        |s: LayoutState| skip_spec(b, s, trail),
    )
}

/// Passes over `k` elements of `lead` bytes, a string and `trail` bytes.
pub open spec fn strings_spec(b: Seq<u8>, st: LayoutState, k: nat, lead: int, trail: int) -> Result<LayoutState, HeaderError>
    decreases k,
{
    if k == 0 {
        Ok(st)
    } else {
        match element_spec(b, st, lead, trail) {
            Ok(s) => strings_spec(b, s, (k - 1) as nat, lead, trail),
            Err(e) => Err(e),
        }
    }
}

/// Reads a count of elements that take at least `min_size` bytes each: a negative count is
/// malformed, one whose elements cannot fit in the rest of the buffer runs out of bytes.
/// Gives the count and the state after it.
pub open spec fn count_spec(b: Seq<u8>, st: LayoutState, min_size: int) -> Result<(LayoutState, nat), HeaderError> {
    if st.pos + 4 > b.len() {
        Err(HeaderError::UnexpectedEof)
    } else {
        let c = le_i32(b, st.pos as int);
        if c < 0 {
            Err(HeaderError::Malformed)
        } else if c * min_size > b.len() - (st.pos + 4) {
            Err(HeaderError::UnexpectedEof)
        } else {
            Ok((at(st, st.pos + 4), c as nat))
        }
    }
}

/// An array of fixed-size elements written in place: its count, then its elements.
pub open spec fn fixed_array_spec(b: Seq<u8>, st: LayoutState, size: int) -> Result<LayoutState, HeaderError> {
    match count_spec(b, st, size) {
        Ok((s, c)) => Ok(at(s, s.pos + c * size)),
        Err(e) => Err(e),
    }
}

/// An array written in place whose elements are `lead` bytes and a string.
pub open spec fn string_array_spec(b: Seq<u8>, st: LayoutState, lead: int) -> Result<LayoutState, HeaderError> {
    match count_spec(b, st, 4 + lead) {
        Ok((s, c)) => strings_spec(b, s, c, lead, 0),
        Err(e) => Err(e),
    }
}

/// Reads the count and offset of a table stored elsewhere in the buffer, and checks the
/// table: `strings` tables hold strings each followed by `extra` bytes, others hold
/// elements of `size` bytes. The walk goes on after the count and offset.
pub open spec fn table_spec(b: Seq<u8>, st: LayoutState, strings: bool, size: int, extra: int) -> Result<LayoutState, HeaderError> {
    if st.pos + 8 > b.len() {
        Err(HeaderError::UnexpectedEof)
    } else {
        let c = le_i32(b, st.pos as int);
        let o = le_i32(b, st.pos as int + 4);
        let min_size = if strings { 4 + extra } else { size };
        if c < 0 || o < 0 {
            Err(HeaderError::Malformed)
        } else if o > b.len() || c * min_size > b.len() - o {
            Err(HeaderError::UnexpectedEof)
        } else {
            let body = if strings {
                strings_spec(b, at(st, o), c as nat, 0, extra)
            } else {
                Ok(at(st, o + c * size))
            };
            match body {
                Ok(t) => Ok(at(LayoutState { extent: t.extent, ..st }, st.pos + 8)),
                Err(e) => Err(e),
            }
        }
    }
}

/// Chains two steps of the walk.
pub open spec fn and_then(r: Result<LayoutState, HeaderError>, f: spec_fn(LayoutState) -> Result<LayoutState, HeaderError>) -> Result<LayoutState, HeaderError> {
    match r {
        Ok(s) => f(s),
        Err(e) => Err(e),
    }
}

/// The fixed fields at the front: magic number and versions. An unknown legacy, file or
/// UE5 version, or a file without versions, is unsupported; a wrong magic number is
/// malformed.
pub open spec fn archive_spec(b: Seq<u8>) -> Result<LayoutState, HeaderError> {
    if b.len() < 8 {
        Err(HeaderError::UnexpectedEof)
    } else if le_u32(b, 0) != PACKAGE_FILE_MAGIC as int {
        Err(HeaderError::Malformed)
    } else {
        let legacy = le_i32(b, 4);
        let ue5_present = legacy <= -8;
        let size: int = if ue5_present { 24 } else { 20 };
        if !(-8 <= legacy <= -5) {
            Err(HeaderError::UnsupportedVersion)
        } else if b.len() < size {
            Err(HeaderError::UnexpectedEof)
        } else {
            let fv = le_i32(b, 12);
            let ue5 = if ue5_present { le_i32(b, 16) } else { 0 };
            if fv < OLDEST_FILE_VERSION || fv > NEWEST_FILE_VERSION {
                Err(HeaderError::UnsupportedVersion)
            } else if ue5 != 0 && (ue5 < OLDEST_FILE_VERSION_UE5 || ue5 > NEWEST_FILE_VERSION_UE5) {
                Err(HeaderError::UnsupportedVersion)
            } else {
                Ok(LayoutState {
                    pos: size as usize,
                    extent: size as usize,
                    file_version: fv as i32,
                    file_version_ue5: ue5 as i32,
                    legacy_version: legacy as i32,
                    with_editoronly_data: false,
                    export_offset: 0,
                    world_tile_info_data_offset: None,
                    data_resource_offset: None,
                })
            }
        }
    }
}

/// The custom-version table, whose shape depends on the legacy version.
pub open spec fn custom_versions_spec(b: Seq<u8>, st: LayoutState) -> Result<LayoutState, HeaderError> {
    if st.legacy_version < -5 {
        fixed_array_spec(b, st, 20)
    } else {
        string_array_spec(b, st, 20)
    }
}

/// Header size, package name and package flags; the flags say whether editor-only data
/// is present (their top bit is clear).
pub open spec fn package_spec(b: Seq<u8>, st: LayoutState) -> Result<LayoutState, HeaderError> {
    match skip_spec(b, st, 4) {
        Ok(s) => match string_spec(b, s) {
            Ok(s2) => if s2.pos + 4 > b.len() {
                Err(HeaderError::UnexpectedEof)
            } else {
                Ok(LayoutState {
                    with_editoronly_data: le_i32(b, s2.pos as int) >= 0,
                    ..at(s2, s2.pos + 4)
                })
            },
            Err(e) => Err(e),
        },
        Err(e) => Err(e),
    }
}

/// The size of one export entry for the versions in `st`.
pub open spec fn export_size(st: LayoutState) -> int {
    let fv = st.file_version;
    let ue5 = st.file_version_ue5;
    40 + (if fv >= 508 { 4int } else { 0 }) + (if fv >= 511 { 16int } else { 8 })
        + (if ue5 >= 1005 { 0int } else { 16 }) + (if ue5 >= 1006 { 4int } else { 0 })
        + (if fv >= 365 { 4int } else { 0 }) + (if fv >= 485 { 4int } else { 0 })
        + (if ue5 >= 1003 { 4int } else { 0 }) + (if fv >= 507 { 20int } else { 0 })
        + (if ue5 >= 1010 { 16int } else { 0 })
}

/// The size of one import entry for the versions in `st`.
pub open spec fn import_size(st: LayoutState) -> int {
    28 + (if st.file_version >= 520 && st.with_editoronly_data { 8int } else { 0 })
        + (if st.file_version_ue5 >= 1003 { 4int } else { 0 })
}

/// Name table, soft object paths, localization id, gatherable text, exports and imports.
pub open spec fn tables_spec(b: Seq<u8>, st: LayoutState) -> Result<LayoutState, HeaderError> {
    let fv = st.file_version;
    let r = table_spec(b, st, true, 0, if fv >= 504 { 4 } else { 0 });
    let r = and_then(r, |s: LayoutState| skip_if_spec(b, s, s.file_version_ue5 >= 1008, 8));
    let r = and_then(r, |s: LayoutState| if fv >= 516 && s.with_editoronly_data {
        string_spec(b, s)
    } else {
        Ok(s)
    });
    let r = and_then(r, |s: LayoutState| skip_if_spec(b, s, fv >= 459, 8));
    let r = and_then(r, |s: LayoutState| export_table_spec(b, s));
    and_then(r, |s: LayoutState| table_spec(b, s, false, import_size(s), 0))
}

/// The export table, whose offset the walk keeps.
pub open spec fn export_table_spec(b: Seq<u8>, st: LayoutState) -> Result<LayoutState, HeaderError> {
    match table_spec(b, st, false, export_size(st), 0) {
        Ok(t) => Ok(LayoutState { export_offset: le_i32(b, st.pos + 4) as i32, ..t }),
        Err(e) => Err(e),
    }
}

/// The world-tile-info offset, there from file version 224 on; the walk keeps it.
pub open spec fn world_tile_spec(b: Seq<u8>, st: LayoutState) -> Result<LayoutState, HeaderError> {
    if st.file_version >= 224 {
        if st.pos + 4 > b.len() {
            Err(HeaderError::UnexpectedEof)
        } else {
            Ok(LayoutState {
                world_tile_info_data_offset: Some(le_i32(b, st.pos as int) as i32),
                ..at(st, st.pos + 4)
            })
        }
    } else {
        Ok(LayoutState { world_tile_info_data_offset: None, ..st })
    }
}

/// The data-resource offset, there from UE5 file version 1009 on; the walk keeps it.
pub open spec fn data_resource_spec(b: Seq<u8>, st: LayoutState) -> Result<LayoutState, HeaderError> {
    if st.file_version_ue5 >= 1009 {
        if st.pos + 4 > b.len() {
            Err(HeaderError::UnexpectedEof)
        } else {
            Ok(LayoutState {
                data_resource_offset: Some(le_i32(b, st.pos as int) as i32),
                ..at(st, st.pos + 4)
            })
        }
    } else {
        Ok(LayoutState { data_resource_offset: None, ..st })
    }
}

/// From the depends offset up to the generations table.
pub open spec fn offsets_spec(b: Seq<u8>, st: LayoutState) -> Result<LayoutState, HeaderError> {
    let fv = st.file_version;
    let owner = fv >= 518 && st.with_editoronly_data;
    let n = 4 + (if fv >= 384 { 8int } else { 0 }) + (if fv >= 510 { 4int } else { 0 }) + 4 + 16
        + (if owner { 16int } else { 0 }) + (if owner && fv < 520 { 16int } else { 0 });
    and_then(skip_spec(b, st, n), |s: LayoutState| fixed_array_spec(b, s, 8))
}

/// One engine version: three 16-bit parts, a changelist and a branch name.
pub open spec fn engine_version_spec(b: Seq<u8>, st: LayoutState) -> Result<LayoutState, HeaderError> {
    and_then(skip_spec(b, st, 10), |s: LayoutState| string_spec(b, s))
}

/// Engine versions, compression, packages to cook and the trailing offsets.
pub open spec fn tail_spec(b: Seq<u8>, st: LayoutState) -> Result<LayoutState, HeaderError> {
    let fv = st.file_version;
    let ue5 = st.file_version_ue5;
    let r = tail_head_spec(b, st);
    let r = and_then(r, |s: LayoutState| skip_spec(
        b,
        s,
        (if s.legacy_version > -7 { 4int } else { 0 }) + 12,
    ));
    let r = and_then(r, |s: LayoutState| world_tile_spec(b, s));
    let r = and_then(r, |s: LayoutState| if fv >= 326 {
        fixed_array_spec(b, s, 4)
    } else {
        skip_if_spec(b, s, fv >= 278, 4)
    });
    let r = and_then(r, |s: LayoutState| skip_spec(
        b,
        s,
        (if fv >= 507 { 8int } else { 0 }) + (if ue5 >= 1001 { 4int } else { 0 })
            + (if ue5 >= 1002 { 8int } else { 0 }),
    ));
    and_then(r, |s: LayoutState| data_resource_spec(b, s))
}

/// The walk over the whole summary, in the order in which the package parser reads it.
/// It succeeds when every field that the parser reads lies inside the buffer, every count
/// is non-negative and its elements fit in the buffer, and every string lies inside the
/// buffer; otherwise it names the first failure.
pub open spec fn layout_spec(b: Seq<u8>) -> Result<LayoutState, HeaderError> {
    let r = archive_spec(b);
    let r = and_then(r, |s: LayoutState| custom_versions_spec(b, s));
    let r = and_then(r, |s: LayoutState| package_spec(b, s));
    let r = and_then(r, |s: LayoutState| tables_spec(b, s));
    let r = and_then(r, |s: LayoutState| offsets_spec(b, s));
    and_then(r, |s: LayoutState| tail_spec(b, s))
}

fn moved(st: LayoutState, pos: usize) -> (r: LayoutState)
    ensures
        r == at(st, pos as int),
{
    LayoutState {
        pos,
        extent: if pos > st.extent { pos } else { st.extent },
        file_version: st.file_version,
        file_version_ue5: st.file_version_ue5,
        legacy_version: st.legacy_version,
        with_editoronly_data: st.with_editoronly_data,
        export_offset: st.export_offset,
        world_tile_info_data_offset: st.world_tile_info_data_offset,
        data_resource_offset: st.data_resource_offset,
    }
}

fn read_u32(b: &[u8], p: usize) -> (r: u32)
    requires
        p + 4 <= b@.len(),
    ensures
        r as int == le_u32(b@, p as int),
{
    b[p] as u32 + 256 * (b[p + 1] as u32) + 65536 * (b[p + 2] as u32) + 16777216 * (b[p + 3] as u32)
}

fn read_i32(b: &[u8], p: usize) -> (r: i32)
    requires
        p + 4 <= b@.len(),
    ensures
        r as int == le_i32(b@, p as int),
{
    let u = read_u32(b, p);
    if u >= 0x8000_0000 {
        (u as i64 - 0x1_0000_0000i64) as i32
    } else {
        u as i32
    }
}

fn skip(b: &[u8], st: LayoutState, n: u64) -> (r: Result<LayoutState, HeaderError>)
    requires
        st.pos <= b@.len(),
    ensures
        r == skip_spec(b@, st, n as int),
        r is Ok ==> r->Ok_0.pos <= b@.len(),
        r is Ok ==> same_versions(r->Ok_0, st),
{
    if n <= (b.len() - st.pos) as u64 {
        Ok(moved(st, st.pos + n as usize))
    } else {
        Err(HeaderError::UnexpectedEof)
    }
}

fn skip_if(b: &[u8], st: LayoutState, present: bool, n: u64) -> (r: Result<LayoutState, HeaderError>)
    requires
        st.pos <= b@.len(),
    ensures
        r == skip_if_spec(b@, st, present, n as int),
        r is Ok ==> r->Ok_0.pos <= b@.len(),
        r is Ok ==> same_versions(r->Ok_0, st),
{
    if present {
        skip(b, st, n)
    } else {
        Ok(st)
    }
}

fn string(b: &[u8], st: LayoutState) -> (r: Result<LayoutState, HeaderError>)
    requires
        st.pos <= b@.len(),
    ensures
        r == string_spec(b@, st),
        r is Ok ==> r->Ok_0.pos <= b@.len(),
        r is Ok ==> same_versions(r->Ok_0, st),
{
    if b.len() - st.pos < 4 {
        return Err(HeaderError::UnexpectedEof);
    }
    let l = read_i32(b, st.pos);
    if l == i32::MIN {
        return Err(HeaderError::Malformed);
    }
    let n: u64 = if l >= 0 { l as u64 } else { (-(l as i64) * 2) as u64 };
    if n > (b.len() - st.pos - 4) as u64 {
        Err(HeaderError::Malformed)
    } else {
        Ok(moved(st, st.pos + 4 + n as usize))
    }
}

fn element(b: &[u8], st: LayoutState, lead: u64, trail: u64) -> (r: Result<LayoutState, HeaderError>)
    requires
        st.pos <= b@.len(),
    ensures
        r == element_spec(b@, st, lead as int, trail as int),
        r is Ok ==> r->Ok_0.pos <= b@.len(),
        r is Ok ==> same_versions(r->Ok_0, st),
{
    let s = match skip(b, st, lead) {
        Ok(s) => s,
        Err(e) => return Err(e),
    };
    let s = match string(b, s) {
        Ok(s) => s,
        Err(e) => return Err(e),
    };
    skip(b, s, trail)
}

fn strings(b: &[u8], st: LayoutState, k: u64, lead: u64, trail: u64) -> (r: Result<LayoutState, HeaderError>)
    requires
        st.pos <= b@.len(),
    ensures
        r == strings_spec(b@, st, k as nat, lead as int, trail as int),
        r is Ok ==> r->Ok_0.pos <= b@.len(),
        r is Ok ==> same_versions(r->Ok_0, st),
{
    let mut cur = st;
    let mut i: u64 = 0;
    while i < k
        invariant
            cur.pos <= b@.len(),
            same_versions(cur, st),
            i <= k,
            strings_spec(b@, st, k as nat, lead as int, trail as int) == strings_spec(
                b@,
                cur,
                (k - i) as nat,
                lead as int,
                trail as int,
            ),
        decreases k - i,
    {
        match element(b, cur, lead, trail) {
            Ok(s) => cur = s,
            Err(e) => return Err(e),
        }
        i = i + 1;
    }
    Ok(cur)
}

fn count(b: &[u8], st: LayoutState, min_size: u64) -> (r: Result<(LayoutState, u64), HeaderError>)
    requires
        st.pos <= b@.len(),
        min_size <= 1000,
    ensures
        r is Ok <==> count_spec(b@, st, min_size as int) is Ok,
        r is Err ==> r->Err_0 == count_spec(b@, st, min_size as int)->Err_0,
        r is Ok ==> r->Ok_0.0 == count_spec(b@, st, min_size as int)->Ok_0.0
            && r->Ok_0.1 as int == count_spec(b@, st, min_size as int)->Ok_0.1,
        r is Ok ==> r->Ok_0.0.pos as int + r->Ok_0.1 * min_size <= b@.len(),
        r is Ok ==> r->Ok_0.1 < 0x8000_0000,
{
    if b.len() - st.pos < 4 {
        return Err(HeaderError::UnexpectedEof);
    }
    let c = read_i32(b, st.pos);
    if c < 0 {
        return Err(HeaderError::Malformed);
    }
    let c = c as u64;
    assert(c * min_size <= 0x8000_0000 * 1000) by (nonlinear_arith)
        requires
            c < 0x8000_0000,
            min_size <= 1000,
    ;
    if c * min_size > (b.len() - st.pos - 4) as u64 {
        Err(HeaderError::UnexpectedEof)
    } else {
        Ok((moved(st, st.pos + 4), c))
    }
}

fn fixed_array(b: &[u8], st: LayoutState, size: u64) -> (r: Result<LayoutState, HeaderError>)
    requires
        st.pos <= b@.len(),
        size <= 1000,
    ensures
        r == fixed_array_spec(b@, st, size as int),
        r is Ok ==> r->Ok_0.pos <= b@.len(),
        r is Ok ==> same_versions(r->Ok_0, st),
{
    let res = count(b, st, size);
    match res {
        Ok(p) => {
            let s = p.0;
            let c = p.1;
            assert(c * size <= 0x8000_0000 * 1000) by (nonlinear_arith)
                requires
                    c < 0x8000_0000,
                    size <= 1000,
            ;
            let n = c * size;
            assert(s.pos as int + n as int <= b@.len());
            let len = b.len();
            assert(n as int <= len as int);
            let n = n as usize;
            Ok(moved(s, s.pos + n))
        },
        Err(e) => Err(e),
    }
}

fn string_array(b: &[u8], st: LayoutState, lead: u64) -> (r: Result<LayoutState, HeaderError>)
    requires
        st.pos <= b@.len(),
        lead <= 100,
    ensures
        r == string_array_spec(b@, st, lead as int),
        r is Ok ==> r->Ok_0.pos <= b@.len(),
        r is Ok ==> same_versions(r->Ok_0, st),
{
    match count(b, st, 4 + lead) {
        Ok((s, c)) => strings(b, s, c, lead, 0),
        Err(e) => Err(e),
    }
}

fn table(b: &[u8], st: LayoutState, strings_table: bool, size: u64, extra: u64) -> (r: Result<LayoutState, HeaderError>)
    requires
        st.pos <= b@.len(),
        size <= 1000,
        extra <= 100,
    ensures
        r == table_spec(b@, st, strings_table, size as int, extra as int),
        r is Ok ==> r->Ok_0.pos <= b@.len(),
        r is Ok ==> same_versions(r->Ok_0, st),
{
    if b.len() - st.pos < 8 {
        return Err(HeaderError::UnexpectedEof);
    }
    let c = read_i32(b, st.pos);
    let o = read_i32(b, st.pos + 4);
    let min_size: u64 = if strings_table { 4 + extra } else { size };
    if c < 0 || o < 0 {
        return Err(HeaderError::Malformed);
    }
    let c = c as u64;
    let o = o as u64;
    assert(c * min_size <= 0x8000_0000 * 1100) by (nonlinear_arith)
        requires
            c < 0x8000_0000,
            min_size <= 1100,
    ;
    if o > b.len() as u64 || c * min_size > b.len() as u64 - o {
        return Err(HeaderError::UnexpectedEof);
    }
    let t = if strings_table {
        match strings(b, moved(st, o as usize), c, 0, extra) {
            Ok(t) => t,
            Err(e) => return Err(e),
        }
    } else {
        let n = c * min_size;
        let len = b.len();
        assert(o as int + n as int <= len as int);
        moved(st, (o + n) as usize)
    };
    Ok(moved(LayoutState { extent: t.extent, ..st }, st.pos + 8))
}

fn archive(b: &[u8]) -> (r: Result<LayoutState, HeaderError>)
    ensures
        r == archive_spec(b@),
        r is Ok ==> r->Ok_0.pos <= b@.len(),
{
    if b.len() < 8 {
        return Err(HeaderError::UnexpectedEof);
    }
    if read_u32(b, 0) != PACKAGE_FILE_MAGIC {
        return Err(HeaderError::Malformed);
    }
    let legacy = read_i32(b, 4);
    let ue5_present = legacy <= -8;
    let size: usize = if ue5_present { 24 } else { 20 };
    if !(-8 <= legacy && legacy <= -5) {
        return Err(HeaderError::UnsupportedVersion);
    }
    if b.len() < size {
        return Err(HeaderError::UnexpectedEof);
    }
    let fv = read_i32(b, 12);
    let ue5 = if ue5_present { read_i32(b, 16) } else { 0 };
    if fv < OLDEST_FILE_VERSION || fv > NEWEST_FILE_VERSION {
        return Err(HeaderError::UnsupportedVersion);
    }
    if ue5 != 0 && (ue5 < OLDEST_FILE_VERSION_UE5 || ue5 > NEWEST_FILE_VERSION_UE5) {
        return Err(HeaderError::UnsupportedVersion);
    }
    Ok(LayoutState {
        pos: size,
        extent: size,
        file_version: fv,
        file_version_ue5: ue5,
        legacy_version: legacy,
        with_editoronly_data: false,
        export_offset: 0,
        world_tile_info_data_offset: None,
        data_resource_offset: None,
    })
}

fn custom_versions(b: &[u8], st: LayoutState) -> (r: Result<LayoutState, HeaderError>)
    requires
        st.pos <= b@.len(),
    ensures
        r == custom_versions_spec(b@, st),
        r is Ok ==> r->Ok_0.pos <= b@.len(),
        r is Ok ==> same_versions(r->Ok_0, st),
{
    if st.legacy_version < -5 {
        fixed_array(b, st, 20)
    } else {
        string_array(b, st, 20)
    }
}

fn package(b: &[u8], st: LayoutState) -> (r: Result<LayoutState, HeaderError>)
    requires
        st.pos <= b@.len(),
    ensures
        r == package_spec(b@, st),
        r is Ok ==> r->Ok_0.pos <= b@.len(),
        r is Ok ==> same_versions(r->Ok_0, st),
{
    let s = match skip(b, st, 4) {
        Ok(s) => s,
        Err(e) => return Err(e),
    };
    let s2 = match string(b, s) {
        Ok(s2) => s2,
        Err(e) => return Err(e),
    };
    if b.len() - s2.pos < 4 {
        return Err(HeaderError::UnexpectedEof);
    }
    let flags = read_i32(b, s2.pos);
    Ok(LayoutState { with_editoronly_data: flags >= 0, ..moved(s2, s2.pos + 4) })
}

fn export_entry_size(st: LayoutState) -> (r: u64)
    ensures
        r as int == export_size(st),
        r <= 1000,
{
    let fv = st.file_version;
    let ue5 = st.file_version_ue5;
    40 + (if fv >= 508 { 4 } else { 0 }) + (if fv >= 511 { 16 } else { 8 })
        + (if ue5 >= 1005 { 0 } else { 16 }) + (if ue5 >= 1006 { 4 } else { 0 })
        + (if fv >= 365 { 4 } else { 0 }) + (if fv >= 485 { 4 } else { 0 })
        + (if ue5 >= 1003 { 4 } else { 0 }) + (if fv >= 507 { 20 } else { 0 })
        + (if ue5 >= 1010 { 16 } else { 0 })
}

fn import_entry_size(st: LayoutState) -> (r: u64)
    ensures
        r as int == import_size(st),
        r <= 1000,
{
    28 + (if st.file_version >= 520 && st.with_editoronly_data { 8 } else { 0 })
        + (if st.file_version_ue5 >= 1003 { 4 } else { 0 })
}

fn export_table(b: &[u8], st: LayoutState) -> (r: Result<LayoutState, HeaderError>)
    requires
        st.pos <= b@.len(),
    ensures
        r == export_table_spec(b@, st),
        r is Ok ==> r->Ok_0.pos <= b@.len(),
        r is Ok ==> same_versions(r->Ok_0, st),
{
    if b.len() - st.pos < 8 {
        return Err(HeaderError::UnexpectedEof);
    }
    match table(b, st, false, export_entry_size(st), 0) {
        Ok(t) => {
            let o = read_i32(b, st.pos + 4);
            Ok(LayoutState { export_offset: o, ..t })
        },
        Err(e) => Err(e),
    }
}

fn world_tile(b: &[u8], st: LayoutState) -> (r: Result<LayoutState, HeaderError>)
    requires
        st.pos <= b@.len(),
    ensures
        r == world_tile_spec(b@, st),
        r is Ok ==> r->Ok_0.pos <= b@.len(),
        r is Ok ==> same_versions(r->Ok_0, st),
{
    if st.file_version >= 224 {
        if b.len() - st.pos < 4 {
            return Err(HeaderError::UnexpectedEof);
        }
        let v = read_i32(b, st.pos);
        Ok(LayoutState { world_tile_info_data_offset: Some(v), ..moved(st, st.pos + 4) })
    } else {
        Ok(LayoutState { world_tile_info_data_offset: None, ..st })
    }
}

fn data_resource(b: &[u8], st: LayoutState) -> (r: Result<LayoutState, HeaderError>)
    requires
        st.pos <= b@.len(),
    ensures
        r == data_resource_spec(b@, st),
        r is Ok ==> r->Ok_0.pos <= b@.len(),
        r is Ok ==> same_versions(r->Ok_0, st),
{
    if st.file_version_ue5 >= 1009 {
        if b.len() - st.pos < 4 {
            return Err(HeaderError::UnexpectedEof);
        }
        let v = read_i32(b, st.pos);
        Ok(LayoutState { data_resource_offset: Some(v), ..moved(st, st.pos + 4) })
    } else {
        Ok(LayoutState { data_resource_offset: None, ..st })
    }
}

fn tables(b: &[u8], st: LayoutState) -> (r: Result<LayoutState, HeaderError>)
    requires
        st.pos <= b@.len(),
    ensures
        r == tables_spec(b@, st),
        r is Ok ==> r->Ok_0.pos <= b@.len(),
        r is Ok ==> same_versions(r->Ok_0, st),
{
    let fv = st.file_version;
    let s = match table(b, st, true, 0, if fv >= 504 { 4 } else { 0 }) {
        Ok(s) => s,
        Err(e) => return Err(e),
    };
    let s = match skip_if(b, s, s.file_version_ue5 >= 1008, 8) {
        Ok(s) => s,
        Err(e) => return Err(e),
    };
    let s = if fv >= 516 && s.with_editoronly_data {
        match string(b, s) {
            Ok(s) => s,
            Err(e) => return Err(e),
        }
    } else {
        s
    };
    let s = match skip_if(b, s, fv >= 459, 8) {
        Ok(s) => s,
        Err(e) => return Err(e),
    };
    let s = match export_table(b, s) {
        Ok(s) => s,
        Err(e) => return Err(e),
    };
    table(b, s, false, import_entry_size(s), 0)
}

fn offsets(b: &[u8], st: LayoutState) -> (r: Result<LayoutState, HeaderError>)
    requires
        st.pos <= b@.len(),
    ensures
        r == offsets_spec(b@, st),
        r is Ok ==> r->Ok_0.pos <= b@.len(),
        r is Ok ==> same_versions(r->Ok_0, st),
{
    let fv = st.file_version;
    let owner = fv >= 518 && st.with_editoronly_data;
    let n: u64 = 4 + (if fv >= 384 { 8 } else { 0 }) + (if fv >= 510 { 4 } else { 0 }) + 4 + 16
        + (if owner { 16 } else { 0 }) + (if owner && fv < 520 { 16 } else { 0 });
    let s = match skip(b, st, n) {
        Ok(s) => s,
        Err(e) => return Err(e),
    };
    fixed_array(b, s, 8)
}

fn engine_version(b: &[u8], st: LayoutState) -> (r: Result<LayoutState, HeaderError>)
    requires
        st.pos <= b@.len(),
    ensures
        r == engine_version_spec(b@, st),
        r is Ok ==> r->Ok_0.pos <= b@.len(),
        r is Ok ==> same_versions(r->Ok_0, st),
{
    let s = match skip(b, st, 10) {
        Ok(s) => s,
        Err(e) => return Err(e),
    };
    string(b, s)
}

#[verifier::rlimit(60)]
fn tail(b: &[u8], st: LayoutState) -> (r: Result<LayoutState, HeaderError>)
    requires
        st.pos <= b@.len(),
    ensures
        r == tail_spec(b@, st),
        r is Ok ==> r->Ok_0.pos <= b@.len(),
        r is Ok ==> same_versions(r->Ok_0, st),
        r is Ok ==> (r->Ok_0.world_tile_info_data_offset is Some <==> st.file_version >= 224),
        r is Ok ==> (r->Ok_0.data_resource_offset is Some <==> st.file_version_ue5 >= 1009),
{
    let fv = st.file_version;
    let ue5 = st.file_version_ue5;
    let s = if fv >= 336 { engine_version(b, st) } else { skip(b, st, 4) };
    let s = match s {
        Ok(s) => s,
        Err(e) => return Err(e),
    };
    let s = if fv >= 444 {
        match engine_version(b, s) {
            Ok(s) => s,
            Err(e) => return Err(e),
        }
    } else {
        s
    };
    let s = match skip(b, s, 4) {
        Ok(s) => s,
        Err(e) => return Err(e),
    };
    let s = match fixed_array(b, s, 16) {
        Ok(s) => s,
        Err(e) => return Err(e),
    };
    let s = match skip(b, s, 4) {
        Ok(s) => s,
        Err(e) => return Err(e),
    };
    let s = match string_array(b, s, 0) {
        Ok(s) => s,
        Err(e) => return Err(e),
    };
    let n: u64 = (if s.legacy_version > -7 { 4 } else { 0 }) + 12;
    let s = match skip(b, s, n) {
        Ok(s) => s,
        Err(e) => return Err(e),
    };
    let s = match world_tile(b, s) {
        Ok(s) => s,
        Err(e) => return Err(e),
    };
    let s = if fv >= 326 { fixed_array(b, s, 4) } else { skip_if(b, s, fv >= 278, 4) };
    let s = match s {
        Ok(s) => s,
        Err(e) => return Err(e),
    };
    let n: u64 = (if fv >= 507 { 8 } else { 0 }) + (if ue5 >= 1001 { 4 } else { 0 })
        + (if ue5 >= 1002 { 8 } else { 0 });
    let s = match skip(b, s, n) {
        Ok(s) => s,
        Err(e) => return Err(e),
    };
    data_resource(b, s)
}

/// Walks the summary's layout as the package parser reads it (see `layout_spec`), and
/// names the first field that is missing or inconsistent with the buffer.
pub fn check_layout(b: &[u8]) -> (r: Result<LayoutState, HeaderError>)
    ensures
        r == layout_spec(b@),
        r is Ok ==> r->Ok_0.file_version == le_i32(b@, 12),
        r is Ok ==> r->Ok_0.legacy_version == le_i32(b@, 4),
        r is Ok ==> r->Ok_0.file_version_ue5 == (if le_i32(b@, 4) <= -8 { le_i32(b@, 16) } else { 0 }),
        r is Ok ==> (r->Ok_0.world_tile_info_data_offset is Some <==> r->Ok_0.file_version >= 224),
        r is Ok ==> (r->Ok_0.data_resource_offset is Some <==> r->Ok_0.file_version_ue5 >= 1009),
        r is Ok ==> -8 <= r->Ok_0.legacy_version <= -5,
{
    let s = match archive(b) {
        Ok(s) => s,
        Err(e) => return Err(e),
    };
    let s = match custom_versions(b, s) {
        Ok(s) => s,
        Err(e) => return Err(e),
    };
    let s = match package(b, s) {
        Ok(s) => s,
        Err(e) => return Err(e),
    };
    let s = match tables(b, s) {
        Ok(s) => s,
        Err(e) => return Err(e),
    };
    let s = match offsets(b, s) {
        Ok(s) => s,
        Err(e) => return Err(e),
    };
    tail(b, s)
}

/// The cut at `m` falls inside the text of a string whose length prefix starts at `p`.
pub open spec fn string_cut_at(b: Seq<u8>, m: int, p: int) -> bool {
    0 <= p && p + 4 <= m < p + 4 + string_body_len(le_i32(b, p))
}

/// `cut` is what a step gives on `b` cut to its first `m` bytes where `whole` is what it
/// gives on all of `b`: the same, or a failure for running out of bytes, or `Malformed`
/// where the cut falls inside the text of a string.
pub open spec fn cut_result<T>(cut: Result<T, HeaderError>, whole: Result<T, HeaderError>, b: Seq<u8>, m: int) -> bool {
    ||| cut == whole
    ||| cut == Err::<T, HeaderError>(HeaderError::UnexpectedEof)
    ||| (cut == Err::<T, HeaderError>(HeaderError::Malformed) && exists|p: int| #[trigger] string_cut_at(b, m, p))
}

/// A step's successful result lies inside the buffer.
pub open spec fn inside(b: Seq<u8>, r: Result<LayoutState, HeaderError>) -> bool {
    r is Ok ==> r->Ok_0.pos <= b.len() && r->Ok_0.extent <= b.len()
}

proof fn lemma_skip(b: Seq<u8>, m: int, st: LayoutState, n: int)
    requires
        0 <= m <= b.len(),
        n >= 0,
    ensures
        cut_result(skip_spec(b.subrange(0, m), st, n), skip_spec(b, st, n), b, m),
        st.extent <= b.len() ==> inside(b, skip_spec(b, st, n)),
{
}

proof fn lemma_string(b: Seq<u8>, m: int, st: LayoutState)
    requires
        0 <= m <= b.len(),
    ensures
        cut_result(string_spec(b.subrange(0, m), st), string_spec(b, st), b, m),
        st.extent <= b.len() ==> inside(b, string_spec(b, st)),
{
    let b2 = b.subrange(0, m);
    if st.pos + 4 <= m {
        let p = st.pos as int;
        assert(b2[p] == b[p] && b2[p + 1] == b[p + 1] && b2[p + 2] == b[p + 2] && b2[p + 3] == b[p + 3]);
        assert(le_i32(b2, p) == le_i32(b, p));
        if string_spec(b2, st) != string_spec(b, st) && string_spec(b2, st) is Err
            && string_spec(b2, st)->Err_0 == HeaderError::Malformed {
            assert(string_cut_at(b, m, p));
        }
    }
}

proof fn lemma_element(b: Seq<u8>, m: int, st: LayoutState, lead: int, trail: int)
    requires
        0 <= m <= b.len(),
        lead >= 0,
        trail >= 0,
    ensures
        cut_result(element_spec(b.subrange(0, m), st, lead, trail), element_spec(b, st, lead, trail), b, m),
        st.extent <= b.len() ==> inside(b, element_spec(b, st, lead, trail)),
{
    let b2 = b.subrange(0, m);
    lemma_skip(b, m, st, lead);
    if let Ok(s) = skip_spec(b, st, lead) {
        lemma_string(b, m, s);
        if let Ok(s2) = string_spec(b, s) {
            lemma_skip(b, m, s2, trail);
        }
    }
}

proof fn lemma_strings(b: Seq<u8>, m: int, st: LayoutState, k: nat, lead: int, trail: int)
    requires
        0 <= m <= b.len(),
        lead >= 0,
        trail >= 0,
    ensures
        cut_result(strings_spec(b.subrange(0, m), st, k, lead, trail), strings_spec(b, st, k, lead, trail), b, m),
        st.pos <= b.len() && st.extent <= b.len() ==> inside(b, strings_spec(b, st, k, lead, trail)),
    decreases k,
{
    if k > 0 {
        lemma_element(b, m, st, lead, trail);
        if let Ok(s) = element_spec(b, st, lead, trail) {
            lemma_strings(b, m, s, (k - 1) as nat, lead, trail);
        }
    }
}

proof fn lemma_count(b: Seq<u8>, m: int, st: LayoutState, min_size: int)
    requires
        0 <= m <= b.len(),
        min_size >= 0,
    ensures
        cut_result(count_spec(b.subrange(0, m), st, min_size), count_spec(b, st, min_size), b, m),
        count_spec(b, st, min_size) is Ok ==> ({
            let (s, c) = count_spec(b, st, min_size)->Ok_0;
            s.pos + c * min_size <= b.len()
        }),
{
    let b2 = b.subrange(0, m);
    if st.pos + 4 <= m {
        let p = st.pos as int;
        assert(b2[p] == b[p] && b2[p + 1] == b[p + 1] && b2[p + 2] == b[p + 2] && b2[p + 3] == b[p + 3]);
        assert(le_i32(b2, p) == le_i32(b, p));
        let c = le_i32(b, p);
        if c >= 0 && c * min_size > b2.len() - (st.pos + 4) && c * min_size <= b.len() - (st.pos + 4) {
        }
    }
}

proof fn lemma_fixed_array(b: Seq<u8>, m: int, st: LayoutState, size: int)
    requires
        0 <= m <= b.len(),
        size >= 0,
    ensures
        cut_result(fixed_array_spec(b.subrange(0, m), st, size), fixed_array_spec(b, st, size), b, m),
        st.extent <= b.len() ==> inside(b, fixed_array_spec(b, st, size)),
{
    lemma_count(b, m, st, size);
}

proof fn lemma_string_array(b: Seq<u8>, m: int, st: LayoutState, lead: int)
    requires
        0 <= m <= b.len(),
        lead >= 0,
    ensures
        cut_result(string_array_spec(b.subrange(0, m), st, lead), string_array_spec(b, st, lead), b, m),
        st.extent <= b.len() ==> inside(b, string_array_spec(b, st, lead)),
{
    lemma_count(b, m, st, 4 + lead);
    if let Ok((s, c)) = count_spec(b, st, 4 + lead) {
        lemma_strings(b, m, s, c, lead, 0);
    }
}

proof fn lemma_table(b: Seq<u8>, m: int, st: LayoutState, strings: bool, size: int, extra: int)
    requires
        0 <= m <= b.len(),
        size >= 0,
        extra >= 0,
    ensures
        cut_result(table_spec(b.subrange(0, m), st, strings, size, extra), table_spec(b, st, strings, size, extra), b, m),
        st.extent <= b.len() ==> inside(b, table_spec(b, st, strings, size, extra)),
{
    let b2 = b.subrange(0, m);
    if st.pos + 8 <= m {
        let p = st.pos as int;
        assert(b2[p] == b[p] && b2[p + 1] == b[p + 1] && b2[p + 2] == b[p + 2] && b2[p + 3] == b[p + 3]);
        assert(b2[p + 4] == b[p + 4] && b2[p + 5] == b[p + 5] && b2[p + 6] == b[p + 6] && b2[p + 7] == b[p + 7]);
        assert(le_i32(b2, p) == le_i32(b, p));
        assert(le_i32(b2, p + 4) == le_i32(b, p + 4));
        let o = le_i32(b, p + 4);
        if strings && 0 <= o <= m {
            lemma_strings(b, m, at(st, o), le_i32(b, p) as nat, 0, extra);
        }
    }
    if st.pos + 8 <= b.len() {
        let o = le_i32(b, st.pos + 4);
        if strings && 0 <= o <= b.len() {
            lemma_strings(b, m, at(st, o), le_i32(b, st.pos as int) as nat, 0, extra);
        }
    }
}

proof fn lemma_archive(b: Seq<u8>, m: int)
    requires
        0 <= m <= b.len(),
    ensures
        cut_result(archive_spec(b.subrange(0, m)), archive_spec(b), b, m),
        inside(b, archive_spec(b)),
{
    let b2 = b.subrange(0, m);
    if m >= 8 {
        assert forall|p: int| 0 <= p < m implies b2[p] == b[p] by {}
        assert(le_u32(b2, 0) == le_u32(b, 0));
        assert(le_i32(b2, 4) == le_i32(b, 4));
        if m >= 20 {
            assert(le_i32(b2, 12) == le_i32(b, 12));
            assert(le_i32(b2, 16) == le_i32(b, 16));
        }
    }
}

proof fn lemma_custom_versions(b: Seq<u8>, m: int, st: LayoutState)
    requires
        0 <= m <= b.len(),
    ensures
        cut_result(custom_versions_spec(b.subrange(0, m), st), custom_versions_spec(b, st), b, m),
        st.extent <= b.len() ==> inside(b, custom_versions_spec(b, st)),
{
    lemma_fixed_array(b, m, st, 20);
    lemma_string_array(b, m, st, 20);
}

proof fn lemma_package(b: Seq<u8>, m: int, st: LayoutState)
    requires
        0 <= m <= b.len(),
    ensures
        cut_result(package_spec(b.subrange(0, m), st), package_spec(b, st), b, m),
        st.extent <= b.len() ==> inside(b, package_spec(b, st)),
{
    let b2 = b.subrange(0, m);
    lemma_skip(b, m, st, 4);
    if let Ok(s) = skip_spec(b, st, 4) {
        lemma_string(b, m, s);
        if let Ok(s2) = string_spec(b, s) {
            if s2.pos + 4 <= m {
                let p = s2.pos as int;
                assert(b2[p] == b[p] && b2[p + 1] == b[p + 1] && b2[p + 2] == b[p + 2] && b2[p + 3] == b[p + 3]);
                assert(le_i32(b2, p) == le_i32(b, p));
            }
        }
    }
}

#[verifier::rlimit(60)]
proof fn lemma_tables(b: Seq<u8>, m: int, st: LayoutState)
    requires
        0 <= m <= b.len(),
    ensures
        cut_result(tables_spec(b.subrange(0, m), st), tables_spec(b, st), b, m),
        st.extent <= b.len() ==> inside(b, tables_spec(b, st)),
{
    let fv = st.file_version;
    lemma_table(b, m, st, true, 0, if fv >= 504 { 4 } else { 0 });
    if let Ok(s1) = table_spec(b, st, true, 0, if fv >= 504 { 4 } else { 0 }) {
        lemma_skip(b, m, s1, 8);
        if let Ok(s2) = skip_if_spec(b, s1, s1.file_version_ue5 >= 1008, 8) {
            lemma_string(b, m, s2);
            let r3 = if fv >= 516 && s2.with_editoronly_data { string_spec(b, s2) } else { Ok(s2) };
            if let Ok(s3) = r3 {
                lemma_skip(b, m, s3, 8);
                if let Ok(s4) = skip_if_spec(b, s3, fv >= 459, 8) {
                    lemma_export_table(b, m, s4);
                    if let Ok(s5) = export_table_spec(b, s4) {
                        lemma_table(b, m, s5, false, import_size(s5), 0);
                    }
                }
            }
        }
    }
}

proof fn lemma_offsets(b: Seq<u8>, m: int, st: LayoutState)
    requires
        0 <= m <= b.len(),
    ensures
        cut_result(offsets_spec(b.subrange(0, m), st), offsets_spec(b, st), b, m),
        st.extent <= b.len() ==> inside(b, offsets_spec(b, st)),
{
    let fv = st.file_version;
    let owner = fv >= 518 && st.with_editoronly_data;
    let n = 4 + (if fv >= 384 { 8int } else { 0 }) + (if fv >= 510 { 4int } else { 0 }) + 4 + 16
        + (if owner { 16int } else { 0 }) + (if owner && fv < 520 { 16int } else { 0 });
    lemma_skip(b, m, st, n);
    if let Ok(s) = skip_spec(b, st, n) {
        lemma_fixed_array(b, m, s, 8);
    }
}

proof fn lemma_engine_version(b: Seq<u8>, m: int, st: LayoutState)
    requires
        0 <= m <= b.len(),
    ensures
        cut_result(engine_version_spec(b.subrange(0, m), st), engine_version_spec(b, st), b, m),
        st.extent <= b.len() ==> inside(b, engine_version_spec(b, st)),
{
    lemma_skip(b, m, st, 10);
    if let Ok(s) = skip_spec(b, st, 10) {
        lemma_string(b, m, s);
    }
}

proof fn lemma_read(b: Seq<u8>, m: int, p: int)
    requires
        0 <= m <= b.len(),
        0 <= p,
        p + 4 <= m,
    ensures
        le_i32(b.subrange(0, m), p) == le_i32(b, p),
{
    let b2 = b.subrange(0, m);
    assert(b2[p] == b[p] && b2[p + 1] == b[p + 1] && b2[p + 2] == b[p + 2] && b2[p + 3] == b[p + 3]);
}

proof fn lemma_export_table(b: Seq<u8>, m: int, st: LayoutState)
    requires
        0 <= m <= b.len(),
    ensures
        cut_result(export_table_spec(b.subrange(0, m), st), export_table_spec(b, st), b, m),
        st.extent <= b.len() ==> inside(b, export_table_spec(b, st)),
{
    lemma_table(b, m, st, false, export_size(st), 0);
    if st.pos + 8 <= m {
        lemma_read(b, m, st.pos + 4);
    }
}

proof fn lemma_world_tile(b: Seq<u8>, m: int, st: LayoutState)
    requires
        0 <= m <= b.len(),
    ensures
        cut_result(world_tile_spec(b.subrange(0, m), st), world_tile_spec(b, st), b, m),
        st.pos <= b.len() && st.extent <= b.len() ==> inside(b, world_tile_spec(b, st)),
{
    if st.pos + 4 <= m {
        lemma_read(b, m, st.pos as int);
    }
}

proof fn lemma_data_resource(b: Seq<u8>, m: int, st: LayoutState)
    requires
        0 <= m <= b.len(),
    ensures
        cut_result(data_resource_spec(b.subrange(0, m), st), data_resource_spec(b, st), b, m),
        st.pos <= b.len() && st.extent <= b.len() ==> inside(b, data_resource_spec(b, st)),
{
    if st.pos + 4 <= m {
        lemma_read(b, m, st.pos as int);
    }
}

/// The steps of the tail up to the packages to cook.
pub open spec fn tail_head_spec(b: Seq<u8>, st: LayoutState) -> Result<LayoutState, HeaderError> {
    let fv = st.file_version;
    let r = if fv >= 336 { engine_version_spec(b, st) } else { skip_spec(b, st, 4) };
    let r = and_then(r, |s: LayoutState| if fv >= 444 { engine_version_spec(b, s) } else { Ok(s) });
    let r = and_then(r, |s: LayoutState| skip_spec(b, s, 4));
    let r = and_then(r, |s: LayoutState| fixed_array_spec(b, s, 16));
    let r = and_then(r, |s: LayoutState| skip_spec(b, s, 4));
    and_then(r, |s: LayoutState| string_array_spec(b, s, 0))
}

#[verifier::rlimit(60)]
proof fn lemma_tail_head(b: Seq<u8>, m: int, st: LayoutState)
    requires
        0 <= m <= b.len(),
    ensures
        cut_result(tail_head_spec(b.subrange(0, m), st), tail_head_spec(b, st), b, m),
        st.extent <= b.len() ==> inside(b, tail_head_spec(b, st)),
{
    let fv = st.file_version;
    lemma_engine_version(b, m, st);
    lemma_skip(b, m, st, 4);
    let r1 = if fv >= 336 { engine_version_spec(b, st) } else { skip_spec(b, st, 4) };
    if let Ok(s1) = r1 {
        lemma_engine_version(b, m, s1);
        let r2 = if fv >= 444 { engine_version_spec(b, s1) } else { Ok(s1) };
        if let Ok(s2) = r2 {
            lemma_skip(b, m, s2, 4);
            if let Ok(s3) = skip_spec(b, s2, 4) {
                lemma_fixed_array(b, m, s3, 16);
                if let Ok(s4) = fixed_array_spec(b, s3, 16) {
                    lemma_skip(b, m, s4, 4);
                    if let Ok(s5) = skip_spec(b, s4, 4) {
                        lemma_string_array(b, m, s5, 0);
                    }
                }
            }
        }
    }
}

#[verifier::rlimit(60)]
proof fn lemma_tail(b: Seq<u8>, m: int, st: LayoutState)
    requires
        0 <= m <= b.len(),
    ensures
        cut_result(tail_spec(b.subrange(0, m), st), tail_spec(b, st), b, m),
        st.extent <= b.len() ==> inside(b, tail_spec(b, st)),
{
    let fv = st.file_version;
    let ue5 = st.file_version_ue5;
    let b2 = b.subrange(0, m);
    lemma_tail_head(b, m, st);
    if let Ok(s6) = tail_head_spec(b, st) {
        let n = (if s6.legacy_version > -7 { 4int } else { 0 }) + 12;
        lemma_skip(b, m, s6, n);
        if let Ok(s7) = skip_spec(b, s6, n) {
            lemma_world_tile(b, m, s7);
            if let Ok(s8) = world_tile_spec(b, s7) {
                lemma_fixed_array(b, m, s8, 4);
                lemma_skip(b, m, s8, 4);
                let r9 = if fv >= 326 { fixed_array_spec(b, s8, 4) } else { skip_if_spec(b, s8, fv >= 278, 4) };
                if let Ok(s9) = r9 {
                    let n2 = (if fv >= 507 { 8int } else { 0 }) + (if ue5 >= 1001 { 4int } else { 0 })
                        + (if ue5 >= 1002 { 8int } else { 0 });
                    lemma_skip(b, m, s9, n2);
                    if let Ok(s10) = skip_spec(b, s9, n2) {
                        lemma_data_resource(b, m, s10);
                    }
                }
            }
        }
    }
}

/// Cutting a buffer short never changes a successful walk into another one; it fails with
/// `UnexpectedEof`, or with `Malformed` only where the cut falls inside a string's text. A
/// buffer cut before the end of the furthest field that the walk of the whole buffer reads,
/// tables stored elsewhere included, fails in one of those two ways.
#[verifier::rlimit(60)]
pub proof fn lemma_truncation(b: Seq<u8>, m: int)
    requires
        0 <= m <= b.len(),
    ensures
        cut_result(layout_spec(b.subrange(0, m)), layout_spec(b), b, m),
        layout_spec(b) is Ok && m < layout_spec(b)->Ok_0.extent ==> (layout_spec(b.subrange(0, m))
            == Err::<LayoutState, HeaderError>(HeaderError::UnexpectedEof) || (layout_spec(
            b.subrange(0, m),
        ) == Err::<LayoutState, HeaderError>(HeaderError::Malformed) && exists|p: int|
            #[trigger] string_cut_at(b, m, p))),
{
    let b2 = b.subrange(0, m);
    lemma_archive(b, m);
    lemma_archive(b2, m);
    if let Ok(s1) = archive_spec(b) {
        lemma_custom_versions(b, m, s1);
        lemma_custom_versions(b2, m, s1);
        if let Ok(s2) = custom_versions_spec(b, s1) {
            lemma_package(b, m, s2);
            lemma_package(b2, m, s2);
            if let Ok(s3) = package_spec(b, s2) {
                lemma_tables(b, m, s3);
                lemma_tables(b2, m, s3);
                if let Ok(s4) = tables_spec(b, s3) {
                    lemma_offsets(b, m, s4);
                    lemma_offsets(b2, m, s4);
                    if let Ok(s5) = offsets_spec(b, s4) {
                        lemma_tail(b, m, s5);
                        lemma_tail(b2, m, s5);
                    }
                }
            }
        }
    }
}

} // verus!
