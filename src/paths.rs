use vstd::prelude::*;
use vstd::string::StringExecFns;

verus! {

/// `base` with the path `rel` appended, a `/` between them unless `base` is empty or already
/// ends in one; an absolute `rel` replaces `base`.
pub open spec fn joined(base: Seq<char>, rel: Seq<char>) -> Seq<char> {
    if rel.len() > 0 && rel[0] == '/' {
        rel
    } else if base.len() == 0 || base.last() == '/' {
        base + rel
    } else {
        base + seq!['/'] + rel
    }
}

/// Appends the path `rel` to `base`.
pub fn join_path(base: &str, rel: &str) -> (r: String)
    ensures
        r@ == joined(base@, rel@),
{
    proof {
        reveal_strlit("/");
    }
    if rel.unicode_len() > 0 && rel.get_char(0) == '/' {
        return rel.to_owned();
    }
    let n = base.unicode_len();
    let mut r = base.to_owned();
    if n != 0 && base.get_char(n - 1) != '/' {
        r.append("/");
    }
    r.append(rel);
    r
}

/// The editor's command-line executable inside an engine installation.
pub fn get_unreal_editor_path(unreal_engine_path: &str) -> (r: String)
    ensures
        r@ == joined(unreal_engine_path@, "Engine/Binaries/Win64/UnrealEditor-Cmd.exe"@),
{
    join_path(unreal_engine_path, "Engine/Binaries/Win64/UnrealEditor-Cmd.exe")
}

/// The directory of the engine's batch scripts.
pub fn get_unreal_scripts_path(unreal_engine_path: &str) -> (r: String)
    ensures
        r@ == joined(unreal_engine_path@, "Engine/Build/BatchFiles"@),
{
    join_path(unreal_engine_path, "Engine/Build/BatchFiles")
}

/// The build tool's script (`Build.bat`).
pub fn get_ubt_path(unreal_engine_path: &str) -> (r: String)
    ensures
        r@ == joined(joined(unreal_engine_path@, "Engine/Build/BatchFiles"@), "Build.bat"@),
{
    let scripts = get_unreal_scripts_path(unreal_engine_path);
    join_path(scripts.as_str(), "Build.bat")
}

/// The automation tool's script (`RunUAT.bat`).
pub fn get_uat_path(unreal_engine_path: &str) -> (r: String)
    ensures
        r@ == joined(joined(unreal_engine_path@, "Engine/Build/BatchFiles"@), "RunUAT.bat"@),
{
    let scripts = get_unreal_scripts_path(unreal_engine_path);
    join_path(scripts.as_str(), "RunUAT.bat")
}

/// Position `i` is flagged as existing.
pub open spec fn flagged(exists: Seq<bool>, i: int) -> bool {
    0 <= i < exists.len() && exists[i]
}

/// Picks the first of `known_paths` whose flag in `exists` is set (a missing flag counts as
/// unset), or fails with `error_message`.
pub fn get_existing_path(
    known_paths: &Vec<String>,
    exists: &Vec<bool>,
    error_message: &str,
) -> (r: Result<String, String>)
    ensures
        r is Ok <==> exists|i: int| 0 <= i < known_paths.len() && flagged(exists@, i),
        r is Ok ==> exists|i: int|
            0 <= i < known_paths.len() && flagged(exists@, i) && r->Ok_0@ == known_paths[i]@
                && forall|k: int| 0 <= k < i ==> !flagged(exists@, k),
        r is Err ==> r->Err_0@ == error_message@,
{
    let mut i: usize = 0;
    while i < known_paths.len()
        invariant
            i <= known_paths.len(),
            forall|k: int| 0 <= k < i ==> !flagged(exists@, k),
        decreases known_paths.len() - i,
    {
        if i < exists.len() && exists[i] {
            let r = known_paths[i].clone();
            assert(flagged(exists@, i as int));
            return Ok(r);
        }
        i = i + 1;
    }
    Err(error_message.to_owned())
}

/// Where the version selector is looked for, in order.
pub fn unreal_version_selector_candidates(is_windows: bool) -> (r: Vec<String>)
    ensures
        is_windows ==> r@.map_values(|s: String| s@) == seq![
            "UnrealVersionSelector.exe"@,
            "C:/Program Files (x86)/Epic Games/Launcher/Engine/Binaries/Win64/UnrealVersionSelector.exe"@,
            "C:/Program Files/Epic Games/Launcher/Engine/Binaries/Win64/UnrealVersionSelector.exe"@,
        ],
        !is_windows ==> r@.map_values(|s: String| s@) == seq!["UnrealVersionSelector"@],
{
    let r = if is_windows {
        vec![
            "UnrealVersionSelector.exe".to_owned(),
            "C:/Program Files (x86)/Epic Games/Launcher/Engine/Binaries/Win64/UnrealVersionSelector.exe".to_owned(),
            "C:/Program Files/Epic Games/Launcher/Engine/Binaries/Win64/UnrealVersionSelector.exe".to_owned(),
        ]
    } else {
        vec!["UnrealVersionSelector".to_owned()]
    };
    assert(r@.map_values(|s: String| s@) =~= if is_windows {
        seq![
            "UnrealVersionSelector.exe"@,
            "C:/Program Files (x86)/Epic Games/Launcher/Engine/Binaries/Win64/UnrealVersionSelector.exe"@,
            "C:/Program Files/Epic Games/Launcher/Engine/Binaries/Win64/UnrealVersionSelector.exe"@,
        ]
    } else {
        seq!["UnrealVersionSelector"@]
    });
    r
}

/// The version selector's path: the first candidate (see
/// `unreal_version_selector_candidates`) flagged in `exists`, or a "not found" message.
pub fn get_unreal_version_selector_path(is_windows: bool, exists: &Vec<bool>) -> (r: Result<String, String>)
    ensures
        ({
            let c = if is_windows { 3int } else { 1int };
            &&& r is Ok <==> exists|i: int| 0 <= i < c && flagged(exists@, i)
            &&& r is Ok ==> exists|i: int|
                0 <= i < c && flagged(exists@, i) && r->Ok_0@ == candidate_path(is_windows, i)
                    && forall|k: int| 0 <= k < i ==> !flagged(exists@, k)
            &&& r is Err ==> r->Err_0@ == (if is_windows {
                "UnrealVersionSelector.exe not found"@
            } else {
                "UnrealVersionSelector not found"@
            })
        }),
{
    let candidates = unreal_version_selector_candidates(is_windows);
    proof {
        assert forall|i: int| 0 <= i < candidates.len() implies candidates[i]@ == candidate_path(
            is_windows,
            i,
        ) by {
            assert(candidates@.map_values(|s: String| s@)[i] == candidates[i]@);
        }
        assert(candidates.len() == if is_windows { 3int } else { 1int }) by {
            assert(candidates@.map_values(|s: String| s@).len() == candidates.len());
        }
    }
    let r = if is_windows {
        get_existing_path(&candidates, exists, "UnrealVersionSelector.exe not found")
    } else {
        get_existing_path(&candidates, exists, "UnrealVersionSelector not found")
    };
    proof {
        if r is Ok {
            let i = choose|i: int|
                0 <= i < candidates.len() && flagged(exists@, i) && r->Ok_0@ == candidates[i]@
                    && forall|k: int| 0 <= k < i ==> !flagged(exists@, k);
            assert(r->Ok_0@ == candidate_path(is_windows, i));
        }
    }
    r
}

/// The `i`-th place where the version selector is looked for.
pub open spec fn candidate_path(is_windows: bool, i: int) -> Seq<char> {
    if is_windows {
        seq![
            "UnrealVersionSelector.exe"@,
            "C:/Program Files (x86)/Epic Games/Launcher/Engine/Binaries/Win64/UnrealVersionSelector.exe"@,
            "C:/Program Files/Epic Games/Launcher/Engine/Binaries/Win64/UnrealVersionSelector.exe"@,
        ][i]
    } else {
        seq!["UnrealVersionSelector"@][i]
    }
}

/// The position of the last `c` in `s`, or -1.
pub open spec fn last_index_of(s: Seq<char>, c: char) -> int
    decreases s.len(),
{
    if s.len() == 0 {
        -1
    } else if s.last() == c {
        s.len() - 1
    } else {
        last_index_of(s.drop_last(), c)
    }
}

proof fn lemma_last_index_of(s: Seq<char>, c: char)
    ensures
        -1 <= last_index_of(s, c) < s.len(),
        last_index_of(s, c) >= 0 ==> s[last_index_of(s, c)] == c,
        forall|k: int| last_index_of(s, c) < k < s.len() ==> s[k] != c,
    decreases s.len(),
{
    if s.len() > 0 && s.last() != c {
        lemma_last_index_of(s.drop_last(), c);
        assert forall|k: int| last_index_of(s, c) < k < s.len() implies s[k] != c by {
            if k < s.len() - 1 {
                assert(s.drop_last()[k] == s[k]);
            }
        }
    }
}

/// Finds the last `c` in `s`.
pub fn find_last(s: &str, c: char) -> (r: Option<usize>)
    ensures
        r is None ==> last_index_of(s@, c) == -1,
        r is Some ==> r->Some_0 == last_index_of(s@, c),
{
    proof {
        lemma_last_index_of(s@, c);
    }
    let mut i: usize = s.unicode_len();
    while i > 0
        invariant
            i <= s@.len(),
            forall|k: int| i <= k < s@.len() ==> s@[k] != c,
            -1 <= last_index_of(s@, c) < s@.len(),
            last_index_of(s@, c) >= 0 ==> s@[last_index_of(s@, c)] == c,
            forall|k: int| last_index_of(s@, c) < k < s@.len() ==> s@[k] != c,
        decreases i,
    {
        if s.get_char(i - 1) == c {
            return Some(i - 1);
        }
        i = i - 1;
    }
    None
}

/// The last component of a path.
pub open spec fn file_name_of(path: Seq<char>) -> Seq<char> {
    path.subrange(last_index_of(path, '/') + 1, path.len() as int)
}

/// All of a path but its last component (empty for a bare file name).
pub open spec fn parent_of(path: Seq<char>) -> Seq<char> {
    let k = last_index_of(path, '/');
    if k < 0 {
        Seq::empty()
    } else {
        path.subrange(0, k)
    }
}

/// A file name without its extension: up to its last `.`, unless that `.` starts it.
pub open spec fn stem_of(name: Seq<char>) -> Seq<char> {
    let k = last_index_of(name, '.');
    if k <= 0 {
        name
    } else {
        name.subrange(0, k)
    }
}

/// The directory part of `path`.
pub fn parent_path(path: &str) -> (r: String)
    ensures
        r@ == parent_of(path@),
{
    proof {
        lemma_last_index_of(path@, '/');
    }
    match find_last(path, '/') {
        None => String::new(),
        Some(k) => path.substring_char(0, k).to_owned(),
    }
}

/// The last component of `path` without its extension.
pub fn file_stem(path: &str) -> (r: String)
    ensures
        r@ == stem_of(file_name_of(path@)),
{
    proof {
        lemma_last_index_of(path@, '/');
    }
    let n = path.unicode_len();
    let start = match find_last(path, '/') {
        None => 0,
        Some(k) => k + 1,
    };
    let name = path.substring_char(start, n);
    proof {
        lemma_last_index_of(name@, '.');
    }
    match find_last(name, '.') {
        Some(k) if k > 0 => name.substring_char(0, k).to_owned(),
        _ => name.to_owned(),
    }
}

} // verus!
