use vstd::prelude::*;
use vstd::string::StringExecFns;

use crate::paths::{file_name_of, file_stem, join_path, joined, parent_of, parent_path, stem_of};
use crate::value::{lemma_record_view, GenericValue, ValueModel};

verus! {

/// The IDE that a project's files point to.
#[derive(Clone, Copy, Debug, PartialEq, Eq, Structural)]
pub enum IDE {
    Unknown,
    VisualStudio,
    VisualStudioCode,
    Rider,
}

/// The display name of an IDE.
pub open spec fn ide_name(ide: IDE) -> Seq<char> {
    match ide {
        IDE::Unknown => "Unknown"@,
        IDE::VisualStudio => "VisualStudio"@,
        IDE::VisualStudioCode => "VisualStudioCode"@,
        IDE::Rider => "Rider"@,
    }
}

impl IDE {
    /// The display name of this IDE.
    pub fn to_string(&self) -> (r: String)
        ensures
            r@ == ide_name(*self),
    {
        match self {
            IDE::Unknown => "Unknown".to_owned(),
            IDE::VisualStudio => "VisualStudio".to_owned(),
            IDE::VisualStudioCode => "VisualStudioCode".to_owned(),
            IDE::Rider => "Rider".to_owned(),
        }
    }
}

/// Picks the IDE from the files next to a project: a solution means Visual Studio, or
/// Rider when an `.idea` folder is there too; else a code workspace means Visual Studio Code.
pub fn detect_ide(sln_exists: bool, idea_exists: bool, code_workspace_exists: bool) -> (r: IDE)
    ensures
        r == (if sln_exists {
            if idea_exists { IDE::Rider } else { IDE::VisualStudio }
        } else if code_workspace_exists {
            IDE::VisualStudioCode
        } else {
            IDE::Unknown
        }),
{
    if sln_exists {
        if idea_exists {
            IDE::Rider
        } else {
            IDE::VisualStudio
        }
    } else if code_workspace_exists {
        IDE::VisualStudioCode
    } else {
        IDE::Unknown
    }
}

/// `a` followed by `b`.
pub fn concat_text(a: &str, b: &str) -> (r: String)
    ensures
        r@ == a@ + b@,
{
    let mut r = a.to_owned();
    r.append(b);
    r
}

/// Whether `s` ends with `suffix`.
pub fn has_suffix(s: &str, suffix: &str) -> (r: bool)
    ensures
        r == (suffix@.len() <= s@.len() && s@.subrange(s@.len() - suffix@.len(), s@.len() as int)
            == suffix@),
{
    let n = s.unicode_len();
    let m = suffix.unicode_len();
    if m > n {
        return false;
    }
    let mut i: usize = 0;
    while i < m
        invariant
            n == s@.len(),
            m == suffix@.len(),
            m <= n,
            i <= m,
            forall|k: int| 0 <= k < i ==> s@[n - m + k] == suffix@[k],
        decreases m - i,
    {
        if s.get_char(n - m + i) != suffix.get_char(i) {
            assert(s@.subrange(n - m, n as int)[i as int] != suffix@[i as int]);
            return false;
        }
        i = i + 1;
    }
    assert(s@.subrange(n - m, n as int) =~= suffix@);
    true
}

/// `name` is a project file's name.
pub open spec fn is_uproject_name(name: Seq<char>) -> bool {
    name.len() >= ".uproject"@.len() && name.subrange(name.len() - ".uproject"@.len(), name.len() as int)
        == ".uproject"@
}

/// `r` is the outcome of looking for a project file among `entries` of `current_dir`: the
/// first entry whose name ends with `.uproject`, joined to the directory, or an error that
/// names the directory.
pub open spec fn uproject_search(current_dir: Seq<char>, entries: Seq<String>, r: Result<String, String>) -> bool {
    &&& r is Ok <==> exists|i: int| 0 <= i < entries.len() && is_uproject_name(#[trigger] entries[i]@)
    &&& r is Ok ==> exists|i: int|
        0 <= i < entries.len() && is_uproject_name(#[trigger] entries[i]@) && r->Ok_0@ == joined(
            current_dir,
            entries[i]@,
        ) && forall|k: int| 0 <= k < i ==> !is_uproject_name(#[trigger] entries[k]@)
    &&& r is Err ==> r->Err_0@ == "Failed to find .uproject file in current directory: "@
        + current_dir
}

/// The project file among the entries of `current_dir`: the first whose name ends with
/// `.uproject`, joined to the directory.
pub fn find_uproject(current_dir: &str, entries: &Vec<String>) -> (r: Result<String, String>)
    ensures
        uproject_search(current_dir@, entries@, r),
{
    let mut i: usize = 0;
    while i < entries.len()
        invariant
            i <= entries.len(),
            forall|k: int| 0 <= k < i ==> !is_uproject_name(#[trigger] entries@[k]@),
        decreases entries.len() - i,
    {
        if has_suffix(entries[i].as_str(), ".uproject") {
            let r = join_path(current_dir, entries[i].as_str());
            assert(is_uproject_name(entries@[i as int]@));
            return Ok(r);
        }
        i = i + 1;
    }
    Err(concat_text("Failed to find .uproject file in current directory: ", current_dir))
}

/// The project given as an argument, or else the one found among the entries of the
/// current directory.
pub fn uproject_from_arg_or_current_dir(
    uproject_path: &Option<String>,
    current_dir: &str,
    entries: &Vec<String>,
) -> (r: Result<String, String>)
    ensures
        uproject_path is Some ==> r is Ok && r->Ok_0@ == uproject_path->Some_0@,
        uproject_path is None ==> uproject_search(current_dir@, entries@, r),
{
    match uproject_path {
        Some(p) => Ok(p.clone()),
        None => find_uproject(current_dir, entries),
    }
}

/// The solution line that names the build tool's project, whose first group is the engine
/// directory relative to the solution.
pub const SLN_ENGINE_PATTERN: &'static str = r#"Project.+"UnrealBuildTool", *\"(.+)Engine[\\/]Source[\\/]Programs[\\/]UnrealBuildTool[\\/]UnrealBuildTool.csproj\", .+"#;

/// The Python site-packages file, relative to the project directory, that names the engine.
pub const PIP_INSTALL_SITE_PACKAGE: &'static str = "Intermediate/PipInstall/Lib/site-packages/plugin_site_package.pth";

/// What follows the engine directory in the site-packages file.
pub const CONTENT_END_PATH: &'static str = "Engine/Plugins/Runtime/USDCore/Content/Python/Lib/Win64/site-packages";

/// The text of the first group in each successive match of `pattern` in `text`, absent
/// where that group did not take part; `None` when `pattern` is not a valid expression.
pub uninterp spec fn group_captures_of(pattern: Seq<char>, text: Seq<char>) -> Option<Seq<Option<Seq<char>>>>;

/// The texts of a list of optional strings.
pub open spec fn opt_texts(v: Seq<Option<String>>) -> Seq<Option<Seq<char>>> {
    v.map_values(|o: Option<String>| match o {
        Some(s) => Some(s@),
        None => None,
    })
}

/// The first present entry of `s` from position `i` on.
pub open spec fn first_present_from(s: Seq<Option<Seq<char>>>, i: int) -> Option<Seq<char>>
    decreases s.len() - i,
{
    if i < 0 || i >= s.len() {
        None
    } else if s[i] is Some {
        s[i]
    } else {
        first_present_from(s, i + 1)
    }
}

/// The text of the first group in the first match of `pattern` in `text` where that group
/// took part; `None` also when `pattern` is not a valid expression.
pub open spec fn first_capture_of(pattern: Seq<char>, text: Seq<char>) -> Option<Seq<char>> {
    match group_captures_of(pattern, text) {
        Some(s) => first_present_from(s, 0),
        None => None,
    }
}

/// Relies on regex::Regex::new, Regex::captures_iter and Captures::get: group 1 of every
/// match, in order.
#[verifier::external_body]
fn group_captures(pattern: &str, text: &str) -> (r: Option<Vec<Option<String>>>)
    ensures
        r is Some <==> group_captures_of(pattern@, text@) is Some,
        r is Some ==> opt_texts(r->Some_0@) == group_captures_of(pattern@, text@)->Some_0,
{
    let re = regex::Regex::new(pattern).ok()?;
    let found = re.captures_iter(text).map(|c| c.get(1).map(|m| m.as_str().to_string())).collect();
    Some(found)
}

/// The first group's text in the first match of `pattern` in `text` where it took part.
fn first_capture(pattern: &str, text: &str) -> (r: Option<String>)
    ensures
        r is Some <==> first_capture_of(pattern@, text@) is Some,
        r is Some ==> r->Some_0@ == first_capture_of(pattern@, text@)->Some_0,
{
    let all = match group_captures(pattern, text) {
        Some(all) => all,
        None => return None,
    };
    let ghost s = opt_texts(all@);
    let mut i: usize = 0;
    while i < all.len()
        invariant
            s == opt_texts(all@),
            s == group_captures_of(pattern@, text@)->Some_0,
            group_captures_of(pattern@, text@) is Some,
            i <= all.len(),
            first_present_from(s, 0) == first_present_from(s, i as int),
        decreases all.len() - i,
    {
        if let Some(c) = &all[i] {
            assert(s[i as int] == Some(c@));
            return Some(c.clone());
        }
        assert(s[i as int] is None);
        i = i + 1;
    }
    None
}

/// The engine directory given the solution's captured relative path: joined to the project
/// directory, or an error that names the solution when nothing was captured.
pub fn engine_path_from_capture(
    project_dir: &str,
    sln_path: &str,
    capture: &Option<String>,
) -> (r: Result<String, String>)
    ensures
        r is Ok <==> capture is Some,
        r is Ok ==> r->Ok_0@ == joined(project_dir@, capture->Some_0@),
        r is Err ==> r->Err_0@ == "Failed to find Engine path in "@ + sln_path@,
{
    match capture {
        Some(c) => Ok(join_path(project_dir, c.as_str())),
        None => Err(concat_text("Failed to find Engine path in ", sln_path)),
    }
}

/// The engine directory named by a solution file's `content`.
pub fn engine_path_from_sln(project_dir: &str, sln_path: &str, content: &str) -> (r: Result<String, String>)
    ensures
        r is Ok <==> first_capture_of(SLN_ENGINE_PATTERN@, content@) is Some,
        r is Ok ==> r->Ok_0@ == joined(
            project_dir@,
            first_capture_of(SLN_ENGINE_PATTERN@, content@)->Some_0,
        ),
        r is Err ==> r->Err_0@ == "Failed to find Engine path in "@ + sln_path@,
{
    let capture = first_capture(SLN_ENGINE_PATTERN, content);
    engine_path_from_capture(project_dir, sln_path, &capture)
}

/// `m` occurs in `s` at position `i`.
pub open spec fn occurs_at(s: Seq<char>, m: Seq<char>, i: int) -> bool {
    0 <= i && i + m.len() <= s.len() && s.subrange(i, i + m.len()) == m
}

fn chars_of(s: &str) -> (r: Vec<char>)
    ensures
        r@ == s@,
{
    let n = s.unicode_len();
    let mut r: Vec<char> = Vec::new();
    let mut i: usize = 0;
    while i < n
        invariant
            n == s@.len(),
            i <= n,
            r@ == s@.subrange(0, i as int),
        decreases n - i,
    {
        r.push(s.get_char(i));
        assert(r@ =~= s@.subrange(0, i + 1));
        i = i + 1;
    }
    assert(r@ =~= s@);
    r
}

fn matches_at(s: &Vec<char>, m: &Vec<char>, p: usize) -> (r: bool)
    ensures
        r == occurs_at(s@, m@, p as int),
{
    if m.len() > s.len() || p > s.len() - m.len() {
        return false;
    }
    let mut k: usize = 0;
    while k < m.len()
        invariant
            p + m.len() <= s.len(),
            k <= m.len(),
            forall|j: int| 0 <= j < k ==> s@[p + j] == m@[j],
        decreases m.len() - k,
    {
        if s[p + k] != m[k] {
            assert(s@.subrange(p as int, p + m.len())[k as int] != m@[k as int]);
            return false;
        }
        k = k + 1;
    }
    assert(s@.subrange(p as int, p + m.len()) =~= m@);
    true
}

/// The engine directory named by the site-packages file's `content`: the text before the
/// one place where `CONTENT_END_PATH` occurs. Content with no such place, or more than one,
/// names none.
pub fn engine_path_from_site_package(content: &str) -> (r: Result<String, String>)
    ensures
        r is Ok <==> exists|i: int| occurs_at(content@, CONTENT_END_PATH@, i) && forall|j: int|
            #[trigger] occurs_at(content@, CONTENT_END_PATH@, j) ==> j == i,
        r is Ok ==> exists|i: int| occurs_at(content@, CONTENT_END_PATH@, i)
            && r->Ok_0@ == content@.subrange(0, i),
        r is Err ==> r->Err_0@ == "Failed to find Engine path in "@ + PIP_INSTALL_SITE_PACKAGE@,
{
    let s = chars_of(content);
    let m = chars_of(CONTENT_END_PATH);
    let mut first: Option<usize> = None;
    let mut p: usize = 0;
    while p < s.len()
        invariant
            s@ == content@,
            m@ == CONTENT_END_PATH@,
            p <= s.len(),
            first is None ==> forall|q: int| 0 <= q < p ==> !occurs_at(s@, m@, q),
            first is Some ==> first->Some_0 < p && occurs_at(s@, m@, first->Some_0 as int),
            first is Some ==> forall|q: int|
                0 <= q < p && #[trigger] occurs_at(s@, m@, q) ==> q == first->Some_0,
        decreases s.len() - p,
    {
        if matches_at(&s, &m, p) {
            if first.is_some() {
                return Err(concat_text("Failed to find Engine path in ", PIP_INSTALL_SITE_PACKAGE));
            }
            first = Some(p);
        }
        p = p + 1;
    }
    proof {
        reveal_strlit("Engine/Plugins/Runtime/USDCore/Content/Python/Lib/Win64/site-packages");
        assert(m@.len() > 0);
    }
    match first {
        Some(f) => Ok(content.substring_char(0, f).to_owned()),
        None => Err(concat_text("Failed to find Engine path in ", PIP_INSTALL_SITE_PACKAGE)),
    }
}

/// A project: its file, its name, its IDE and, where it could be found, its engine.
pub struct UProject {
    pub uproject_path: String,
    pub name: String,
    pub ide: IDE,
    pub unreal_engine_path: Option<String>,
}

/// What the file system says about a project's surroundings.
pub struct ProjectFiles {
    /// The project file exists.
    pub uproject_exists: bool,
    /// `<name>.sln` exists next to the project file.
    pub sln_exists: bool,
    /// `.idea` exists next to the project file.
    pub idea_exists: bool,
    /// `<name>.code-workspace` exists next to the project file.
    pub code_workspace_exists: bool,
    /// The solution's text, where it was read.
    pub sln_content: Option<String>,
    /// The site-packages file's text (see `PIP_INSTALL_SITE_PACKAGE`), where it was read.
    pub site_package_content: Option<String>,
}

/// The file `<stem><suffix>` next to the project file.
pub open spec fn sibling_of(uproject_path: Seq<char>, suffix: Seq<char>) -> Seq<char> {
    joined(parent_of(uproject_path), stem_of(file_name_of(uproject_path)) + suffix)
}

/// The file named like the project, with `suffix` in place of `.uproject`, next to it.
pub fn sibling_path(uproject_path: &str, suffix: &str) -> (r: String)
    ensures
        r@ == sibling_of(uproject_path@, suffix@),
{
    let dir = parent_path(uproject_path);
    let stem = file_stem(uproject_path);
    let file = concat_text(stem.as_str(), suffix);
    join_path(dir.as_str(), file.as_str())
}

/// The path `rel` inside the project's directory.
pub fn project_relative_path(uproject_path: &str, rel: &str) -> (r: String)
    ensures
        r@ == joined(parent_of(uproject_path@), rel@),
{
    let dir = parent_path(uproject_path);
    join_path(dir.as_str(), rel)
}

/// The engine directory of a project: from its solution where that was read, else from its
/// site-packages file where that was read, else unknown.
pub fn get_unreal_engine_path(
    uproject_path: &str,
    sln_content: &Option<String>,
    site_package_content: &Option<String>,
) -> (r: Result<Option<String>, String>)
    ensures
        sln_content is Some ==> ({
            let cap = first_capture_of(SLN_ENGINE_PATTERN@, sln_content->Some_0@);
            &&& (r is Ok <==> cap is Some)
            &&& (r is Ok ==> r->Ok_0 is Some && r->Ok_0->Some_0@ == joined(
                parent_of(uproject_path@),
                cap->Some_0,
            ))
            &&& (r is Err ==> r->Err_0@ == "Failed to find Engine path in "@ + sibling_of(
                uproject_path@,
                ".sln"@,
            ))
        }),
        sln_content is None && site_package_content is Some ==> ({
            let c = site_package_content->Some_0@;
            &&& (r is Ok <==> exists|i: int| occurs_at(c, CONTENT_END_PATH@, i) && forall|j: int|
                #[trigger] occurs_at(c, CONTENT_END_PATH@, j) ==> j == i)
            &&& (r is Ok ==> r->Ok_0 is Some && exists|i: int| occurs_at(c, CONTENT_END_PATH@, i)
                && r->Ok_0->Some_0@ == c.subrange(0, i))
            &&& (r is Err ==> r->Err_0@ == "Failed to find Engine path in "@
                + PIP_INSTALL_SITE_PACKAGE@)
        }),
        sln_content is None && site_package_content is None ==> r == Ok::<Option<String>, String>(None),
{
    match sln_content {
        Some(content) => {
            let dir = parent_path(uproject_path);
            let sln_path = sibling_path(uproject_path, ".sln");
            match engine_path_from_sln(dir.as_str(), sln_path.as_str(), content.as_str()) {
                Ok(p) => Ok(Some(p)),
                Err(e) => Err(e),
            }
        },
        None => match site_package_content {
            Some(content) => match engine_path_from_site_package(content.as_str()) {
                Ok(p) => Ok(Some(p)),
                Err(e) => Err(e),
            },
            None => Ok(None),
        },
    }
}

impl UProject {
    /// Describes the project at `uproject_path` from what the file system says about it.
    pub fn from_path(uproject_path: &str, files: &ProjectFiles) -> (r: Result<UProject, String>)
        ensures
            !files.uproject_exists ==> r is Err && r->Err_0@
                == "Failed to find .uproject file in current directory: "@ + uproject_path@,
            files.uproject_exists ==> (r is Ok <==> get_unreal_engine_path_ok(uproject_path@, files)),
            r is Ok ==> ({
                let u = r->Ok_0;
                &&& u.uproject_path@ == uproject_path@
                &&& u.name@ == stem_of(file_name_of(uproject_path@))
                &&& u.ide == (if files.sln_exists {
                    if files.idea_exists { IDE::Rider } else { IDE::VisualStudio }
                } else if files.code_workspace_exists {
                    IDE::VisualStudioCode
                } else {
                    IDE::Unknown
                })
                &&& (files.sln_content is None && files.site_package_content is None
                    ==> u.unreal_engine_path is None)
                &&& (files.sln_content is Some ==> u.unreal_engine_path is Some
                    && u.unreal_engine_path->Some_0@ == joined(
                        parent_of(uproject_path@),
                        first_capture_of(SLN_ENGINE_PATTERN@, files.sln_content->Some_0@)->Some_0,
                    ))
                &&& (files.sln_content is None && files.site_package_content is Some
                    ==> u.unreal_engine_path is Some && exists|i: int|
                    occurs_at(files.site_package_content->Some_0@, CONTENT_END_PATH@, i)
                        && u.unreal_engine_path->Some_0@
                        == files.site_package_content->Some_0@.subrange(0, i))
            }),
            files.uproject_exists && r is Err ==> r->Err_0@ == "Failed to find Engine path in "@ + (
            if files.sln_content is Some {
                sibling_of(uproject_path@, ".sln"@)
            } else {
                PIP_INSTALL_SITE_PACKAGE@
            }),
    {
        if !files.uproject_exists {
            return Err(concat_text("Failed to find .uproject file in current directory: ", uproject_path));
        }
        let name = file_stem(uproject_path);
        let ide = detect_ide(files.sln_exists, files.idea_exists, files.code_workspace_exists);
        let unreal_engine_path = match get_unreal_engine_path(
            uproject_path,
            &files.sln_content,
            &files.site_package_content,
        ) {
            Ok(p) => p,
            Err(e) => return Err(e),
        };
        Ok(UProject { uproject_path: uproject_path.to_owned(), name, ide, unreal_engine_path })
    }

    /// The engine directory, or an error where it is unknown.
    pub fn get_unreal_engine_path_str(&self) -> (r: Result<&String, String>)
        ensures
            self.unreal_engine_path is Some ==> r is Ok && *r->Ok_0 == self.unreal_engine_path->Some_0,
            self.unreal_engine_path is None ==> r is Err && r->Err_0@ == "Unreal Engine path not found"@,
    {
        match &self.unreal_engine_path {
            Some(path) => Ok(path),
            None => Err("Unreal Engine path not found".to_owned()),
        }
    }
}

/// The engine directory can be told (or is simply unknown) from what was read.
pub open spec fn get_unreal_engine_path_ok(uproject_path: Seq<char>, files: &ProjectFiles) -> bool {
    match files.sln_content {
        Some(c) => first_capture_of(SLN_ENGINE_PATTERN@, c@) is Some,
        None => match files.site_package_content {
            Some(c) => exists|i: int| occurs_at(c@, CONTENT_END_PATH@, i) && forall|j: int|
                #[trigger] occurs_at(c@, CONTENT_END_PATH@, j) ==> j == i,
            None => true,
        },
    }
}

/// The record that describes a project: its path, name and IDE, and its engine where known.
pub open spec fn uproject_model(u: &UProject) -> ValueModel {
    let base = seq![
        ("uproject_path"@, ValueModel::Str(u.uproject_path@)),
        ("name"@, ValueModel::Str(u.name@)),
        ("ide"@, ValueModel::Str(ide_name(u.ide))),
    ];
    ValueModel::Record(
        match u.unreal_engine_path {
            Some(p) => base.push(("unreal_engine_path"@, ValueModel::Str(p@))),
            None => base,
        },
    )
}

/// Describes a project as a record.
pub fn uproject_record(u: &UProject) -> (r: GenericValue)
    ensures
        r@ == uproject_model(u),
{
    let mut fields = vec![
        ("uproject_path".to_owned(), GenericValue::Str(u.uproject_path.clone())),
        ("name".to_owned(), GenericValue::Str(u.name.clone())),
        ("ide".to_owned(), GenericValue::Str(u.ide.to_string())),
    ];
    if let Some(p) = &u.unreal_engine_path {
        fields.push(("unreal_engine_path".to_owned(), GenericValue::Str(p.clone())));
    }
    proof {
        lemma_record_view(fields);
        if let ValueModel::Record(s) = uproject_model(u) {
            assert(fields@.map_values(|x: (String, GenericValue)| (x.0@, x.1@)) =~= s);
        }
    }
    GenericValue::Record(fields)
}

} // verus!
