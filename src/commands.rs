use vstd::prelude::*;
use vstd::string::StringExecFns;

verus! {

/// The character of a decimal digit.
pub open spec fn digit_char(d: nat) -> char {
    if d == 0 { '0' }
    else if d == 1 { '1' }
    else if d == 2 { '2' }
    else if d == 3 { '3' }
    else if d == 4 { '4' }
    else if d == 5 { '5' }
    else if d == 6 { '6' }
    else if d == 7 { '7' }
    else if d == 8 { '8' }
    else { '9' }
}

/// The decimal digits of `m`, most significant first, without leading zeros.
pub open spec fn digits_of(m: nat) -> Seq<char>
    decreases m,
{
    if m < 10 {
        seq![digit_char(m)]
    } else {
        digits_of(m / 10).push(digit_char(m % 10))
    }
}

/// The decimal text of `n`, with a leading `-` when it is negative.
pub open spec fn decimal_of(n: int) -> Seq<char> {
    if n < 0 {
        seq!['-'] + digits_of((-n) as nat)
    } else {
        digits_of(n as nat)
    }
}

fn digit_str(d: u64) -> (r: &'static str)
    requires
        d < 10,
    ensures
        r@ == seq![digit_char(d as nat)],
{
    proof {
        reveal_strlit("0");
        reveal_strlit("1");
        reveal_strlit("2");
        reveal_strlit("3");
        reveal_strlit("4");
        reveal_strlit("5");
        reveal_strlit("6");
        reveal_strlit("7");
        reveal_strlit("8");
        reveal_strlit("9");
    }
    if d == 0 { "0" }
    else if d == 1 { "1" }
    else if d == 2 { "2" }
    else if d == 3 { "3" }
    else if d == 4 { "4" }
    else if d == 5 { "5" }
    else if d == 6 { "6" }
    else if d == 7 { "7" }
    else if d == 8 { "8" }
    else { "9" }
}

pub(crate) fn digits(m: u64) -> (r: String)
    ensures
        r@ == digits_of(m as nat),
    decreases m,
{
    if m < 10 {
        digit_str(m).to_owned()
    } else {
        let mut s = digits(m / 10);
        s.append(digit_str(m % 10));
        s
    }
}

/// Writes `n` in decimal.
pub fn decimal_string(n: i32) -> (r: String)
    ensures
        r@ == decimal_of(n as int),
{
    if n < 0 {
        proof {
            reveal_strlit("-");
        }
        let mut s = "-".to_owned();
        let m: i64 = -(n as i64);
        let d = digits(m as u64);
        s.append(d.as_str());
        s
    } else {
        digits(n as u64)
    }
}

/// The texts of a list of strings.
pub open spec fn texts(v: Seq<String>) -> Seq<Seq<char>> {
    v.map_values(|s: String| s@)
}

fn push_text(v: &mut Vec<String>, s: &str)
    ensures
        texts(final(v)@) == texts(old(v)@).push(s@),
{
    v.push(s.to_owned());
    assert(texts(v@) =~= texts(old(v)@).push(s@));
}

fn push_texts(v: &mut Vec<String>, extra: &Vec<String>)
    ensures
        texts(final(v)@) == texts(old(v)@) + texts(extra@),
{
    let mut i: usize = 0;
    while i < extra.len()
        invariant
            i <= extra.len(),
            texts(v@) == texts(old(v)@) + texts(extra@.subrange(0, i as int)),
        decreases extra.len() - i,
    {
        push_text(v, extra[i].as_str());
        assert(texts(extra@.subrange(0, i + 1)) =~= texts(extra@.subrange(0, i as int)).push(
            extra[i as int]@,
        ));
        i = i + 1;
    }
    assert(extra@.subrange(0, i as int) =~= extra@);
}

/// Whether two strings hold the same characters.
pub fn same_text(a: &str, b: &str) -> (r: bool)
    ensures
        r == (a@ == b@),
{
    let n = a.unicode_len();
    if n != b.unicode_len() {
        return false;
    }
    let mut i: usize = 0;
    while i < n
        invariant
            n == a@.len() == b@.len(),
            i <= n,
            forall|k: int| 0 <= k < i ==> a@[k] == b@[k],
        decreases n - i,
    {
        if a.get_char(i) != b.get_char(i) {
            return false;
        }
        i = i + 1;
    }
    assert(a@ =~= b@);
    true
}

/// `args` followed by `s` when `b` holds.
pub open spec fn push_if(args: Seq<Seq<char>>, b: bool, s: Seq<char>) -> Seq<Seq<char>> {
    if b {
        args.push(s)
    } else {
        args
    }
}

/// The switches with which the editor, a game or a server is started.
pub struct StartOptions {
    /// The level to open instead of the project's default.
    pub level: Option<String>,
    pub editor: bool,
    pub game: bool,
    pub server: bool,
    pub windowed: bool,
    /// The port of the server to connect to.
    pub port: Option<i32>,
    pub nosteam: bool,
    pub log: bool,
    pub stdout: bool,
    /// Arguments handed on unchanged, after all others.
    pub extra: Vec<String>,
}

/// The arguments of the editor executable for `uproject_path` and the options `o`.
pub open spec fn start_arguments_of(uproject_path: Seq<char>, o: StartOptions) -> Seq<Seq<char>> {
    let a = seq![uproject_path];
    let a = match o.level {
        Some(l) => a.push(l@),
        None => a,
    };
    let a = push_if(a, o.editor, "-editor"@);
    let a = push_if(a, o.game, "-game"@);
    let a = push_if(a, o.server, "-server"@);
    let a = push_if(a, o.windowed, "-windowed"@);
    let a = match o.port {
        Some(p) => a.push("-port"@).push(decimal_of(p as int)),
        None => a,
    };
    let a = push_if(a, o.nosteam, "-nosteam"@);
    let a = push_if(a, o.log, "-log"@);
    let a = push_if(a, o.stdout, "-stdout"@);
    a + texts(o.extra@)
}

/// Starts a project in the editor, as a game or as a server.
pub struct UEStart;

impl UEStart {
    pub fn name(&self) -> (r: &'static str)
        ensures
            r@ == "ue start"@,
    {
        "ue start"
    }

    pub fn description(&self) -> (r: &'static str)
        ensures
            r@ == "Start an Unreal Engine project in the editor, game or server"@,
    {
        "Start an Unreal Engine project in the editor, game or server"
    }

    /// The editor executable's arguments: the project, the level, one switch per option
    /// in a fixed order, then the extra arguments.
    pub fn arguments(&self, uproject_path: &str, options: &StartOptions) -> (r: Vec<String>)
        ensures
            texts(r@) == start_arguments_of(uproject_path@, *options),
    {
        let mut out: Vec<String> = Vec::new();
        push_text(&mut out, uproject_path);
        assert(texts(out@) =~= seq![uproject_path@]);
        if let Some(level) = &options.level {
            push_text(&mut out, level.as_str());
        }
        if options.editor {
            push_text(&mut out, "-editor");
        }
        if options.game {
            push_text(&mut out, "-game");
        }
        if options.server {
            push_text(&mut out, "-server");
        }
        if options.windowed {
            push_text(&mut out, "-windowed");
        }
        if let Some(port) = options.port {
            push_text(&mut out, "-port");
            let p = decimal_string(port);
            push_text(&mut out, p.as_str());
        }
        if options.nosteam {
            push_text(&mut out, "-nosteam");
        }
        if options.log {
            push_text(&mut out, "-log");
        }
        if options.stdout {
            push_text(&mut out, "-stdout");
        }
        push_texts(&mut out, &options.extra);
        out
    }
}

/// Compiles a project with the build tool.
pub struct UEBuild;

impl UEBuild {
    pub fn name(&self) -> (r: &'static str)
        ensures
            r@ == "ue build"@,
    {
        "ue build"
    }

    pub fn description(&self) -> (r: &'static str)
        ensures
            r@ == "Compile an Unreal Engine project with UnrealBuildTool"@,
    {
        "Compile an Unreal Engine project with UnrealBuildTool"
    }

    /// The build script's arguments: `-uproject=`, the project, then the extra arguments.
    pub fn arguments(&self, uproject_path: &str, extra: &Vec<String>) -> (r: Vec<String>)
        ensures
            texts(r@) == seq!["-uproject="@, uproject_path@] + texts(extra@),
    {
        let mut out: Vec<String> = Vec::new();
        push_text(&mut out, "-uproject=");
        push_text(&mut out, uproject_path);
        assert(texts(out@) =~= seq!["-uproject="@, uproject_path@]);
        push_texts(&mut out, extra);
        out
    }
}

/// Runs a command of the automation tool on a project.
pub struct UERunUAT;

impl UERunUAT {
    pub fn name(&self) -> (r: &'static str)
        ensures
            r@ == "ue RunUAT"@,
    {
        "ue RunUAT"
    }

    pub fn description(&self) -> (r: &'static str)
        ensures
            r@ == "Use RunUAT on an Unreal Engine project"@,
    {
        "Use RunUAT on an Unreal Engine project"
    }

    /// The automation script's arguments: the command, then `-uproject=` and the project
    /// unless the command is `-List`, then the extra arguments.
    pub fn arguments(&self, command_name: &str, uproject_path: &str, extra: &Vec<String>) -> (r: Vec<String>)
        ensures
            texts(r@) == (if command_name@ == "-List"@ {
                seq![command_name@]
            } else {
                seq![command_name@, "-uproject="@, uproject_path@]
            }) + texts(extra@),
    {
        let mut out: Vec<String> = Vec::new();
        push_text(&mut out, command_name);
        assert(texts(out@) =~= seq![command_name@]);
        if !same_text(command_name, "-List") {
            push_text(&mut out, "-uproject=");
            push_text(&mut out, uproject_path);
            assert(texts(out@) =~= seq![command_name@, "-uproject="@, uproject_path@]);
        }
        push_texts(&mut out, extra);
        out
    }
}

/// Switches the engine version of a project.
pub struct UESwitchVersion;

impl UESwitchVersion {
    pub fn name(&self) -> (r: &'static str)
        ensures
            r@ == "ue switch-version"@,
    {
        "ue switch-version"
    }

    pub fn description(&self) -> (r: &'static str)
        ensures
            r@ == "Switch the Unreal Engine version of the project and generate project files"@,
    {
        "Switch the Unreal Engine version of the project and generate project files"
    }

    /// The version selector's arguments: without a version it opens its dialog, with one
    /// it switches silently.
    pub fn arguments(&self, uproject_path: &str, version: &Option<String>) -> (r: Vec<String>)
        ensures
            version is None ==> texts(r@) == seq!["/switchversion"@, uproject_path@],
            version is Some ==> texts(r@) == seq![
                "/switchversionsilent"@,
                uproject_path@,
                version->Some_0@,
            ],
    {
        let mut out: Vec<String> = Vec::new();
        match version {
            None => {
                push_text(&mut out, "/switchversion");
                push_text(&mut out, uproject_path);
                assert(texts(out@) =~= seq!["/switchversion"@, uproject_path@]);
            },
            Some(v) => {
                push_text(&mut out, "/switchversionsilent");
                push_text(&mut out, uproject_path);
                push_text(&mut out, v.as_str());
                assert(texts(out@) =~= seq!["/switchversionsilent"@, uproject_path@, v@]);
            },
        }
        out
    }
}

/// Generates the IDE project files of a project.
pub struct UEGenerateProjectFiles;

impl UEGenerateProjectFiles {
    pub fn name(&self) -> (r: &'static str)
        ensures
            r@ == "ue generate-project"@,
    {
        "ue generate-project"
    }

    pub fn description(&self) -> (r: &'static str)
        ensures
            r@ == "Generate Visual Studio project files for the project"@,
    {
        "Generate Visual Studio project files for the project"
    }

    /// The version selector's arguments: `/projectfiles` and the project.
    pub fn arguments(&self, uproject_path: &str) -> (r: Vec<String>)
        ensures
            texts(r@) == seq!["/projectfiles"@, uproject_path@],
    {
        let mut out: Vec<String> = Vec::new();
        push_text(&mut out, "/projectfiles");
        push_text(&mut out, uproject_path);
        assert(texts(out@) =~= seq!["/projectfiles"@, uproject_path@]);
        out
    }
}

/// Registers the engine of the current folder with the launcher.
pub struct UERegisterEngine;

impl UERegisterEngine {
    pub fn name(&self) -> (r: &'static str)
        ensures
            r@ == "ue register-engine"@,
    {
        "ue register-engine"
    }

    pub fn description(&self) -> (r: &'static str)
        ensures
            r@ == "Register the engine in the current folder to Epic Games Launcher"@,
    {
        "Register the engine in the current folder to Epic Games Launcher"
    }
}

/// Updates the launcher's file associations.
pub struct UEUpdateFileAssociations;

impl UEUpdateFileAssociations {
    pub fn name(&self) -> (r: &'static str)
        ensures
            r@ == "ue update-file-associations"@,
    {
        "ue update-file-associations"
    }

    pub fn description(&self) -> (r: &'static str)
        ensures
            r@ == "Update file associations of Epic Games Launcher. Requires admin privileges."@,
    {
        "Update file associations of Epic Games Launcher. Requires admin privileges."
    }

    /// The version selector's arguments: `/fileassociations`.
    pub fn arguments(&self) -> (r: Vec<String>)
        ensures
            texts(r@) == seq!["/fileassociations"@],
    {
        let mut out: Vec<String> = Vec::new();
        push_text(&mut out, "/fileassociations");
        assert(texts(out@) =~= seq!["/fileassociations"@]);
        out
    }
}

/// Decodes a package header and returns it as a record.
pub struct FromUAsset;

impl FromUAsset {
    pub fn name(&self) -> (r: &'static str)
        ensures
            r@ == "from uasset"@,
    {
        "from uasset"
    }

    pub fn description(&self) -> (r: &'static str)
        ensures
            r@ == "Open a uasset file and return its header as a record"@,
    {
        "Open a uasset file and return its header as a record"
    }
}

/// Describes a project.
pub struct UE;

impl UE {
    pub fn name(&self) -> (r: &'static str)
        ensures
            r@ == "ue"@,
    {
        "ue"
    }

    pub fn description(&self) -> (r: &'static str)
        ensures
            r@ == "Get informations about an Unreal Engine project"@,
    {
        "Get informations about an Unreal Engine project"
    }
}

/// The plugin that offers all of these commands.
pub struct UnrealEnginePlugin;

} // verus!
