use vstd::prelude::*;

verus! {

/// Where the owner ("outer") of an imported object lives.
#[derive(Clone, Copy, Debug, PartialEq, Eq, Structural)]
pub enum ObjectImportOuter {
    /// The import is top-level in its package.
    Root,
    /// The outer is another entry of the same import table.
    Import { import_index: u32 },
    /// The outer is an entry of this package's own export table.
    Export { export_index: u32 },
}

/// The variant that the signed on-disk index `n` stands for.
pub open spec fn outer_from_index(n: int) -> ObjectImportOuter {
    if n == 0 {
        ObjectImportOuter::Root
    } else if n < 0 {
        ObjectImportOuter::Import { import_index: (-n - 1) as u32 }
    } else {
        ObjectImportOuter::Export { export_index: (n - 1) as u32 }
    }
}

/// The signed on-disk index of an outer.
pub open spec fn outer_index_of(o: ObjectImportOuter) -> int {
    match o {
        ObjectImportOuter::Root => 0,
        ObjectImportOuter::Import { import_index } => -(import_index as int) - 1,
        ObjectImportOuter::Export { export_index } => export_index as int + 1,
    }
}

/// Decodes the signed on-disk index of an outer.
pub fn decode_outer(n: i32) -> (r: ObjectImportOuter)
    ensures
        r == outer_from_index(n as int),
        n == 0 ==> r == ObjectImportOuter::Root,
        n < 0 ==> r == (ObjectImportOuter::Import { import_index: (-(n as int) - 1) as u32 }),
        n > 0 ==> r == (ObjectImportOuter::Export { export_index: (n as int - 1) as u32 }),
{
    if n == 0 {
        ObjectImportOuter::Root
    } else if n < 0 {
        let m: i64 = -(n as i64) - 1;
        ObjectImportOuter::Import { import_index: m as u32 }
    } else {
        ObjectImportOuter::Export { export_index: (n - 1) as u32 }
    }
}

/// Re-encodes an outer to its signed on-disk index.
pub fn encode_outer(o: ObjectImportOuter) -> (r: i64)
    ensures
        r == outer_index_of(o),
{
    match o {
        ObjectImportOuter::Root => 0,
        ObjectImportOuter::Import { import_index } => -(import_index as i64) - 1,
        ObjectImportOuter::Export { export_index } => export_index as i64 + 1,
    }
}

/// Encoding the decoded form of any signed 32-bit index gives the index back.
pub proof fn lemma_outer_round_trip(n: i32)
    ensures
        outer_index_of(outer_from_index(n as int)) == n as int,
{
}

} // verus!
