use nu_plugin_unreal_engine::{
    decimal_string, detect_ide, engine_path_from_capture, engine_path_from_site_package,
    engine_path_from_sln, find_uproject, get_existing_path, get_uat_path, get_ubt_path,
    get_unreal_editor_path, get_unreal_engine_path, get_unreal_scripts_path,
    get_unreal_version_selector_path, join_path, project_relative_path, sibling_path,
    uproject_from_arg_or_current_dir, uproject_record, GenericValue, ProjectFiles, StartOptions,
    UEBuild, UEGenerateProjectFiles, UERunUAT, UEStart, UESwitchVersion,
    UEUpdateFileAssociations, UProject, FromUAsset, IDE,
};

fn strings(v: &[&str]) -> Vec<String> {
    v.iter().map(|s| s.to_string()).collect()
}

#[test]
fn engine_tool_paths() {
    assert_eq!(get_unreal_editor_path("/ue"), "/ue/Engine/Binaries/Win64/UnrealEditor-Cmd.exe");
    assert_eq!(get_unreal_scripts_path("/ue/"), "/ue/Engine/Build/BatchFiles");
    assert_eq!(get_ubt_path("C:/UE_5.4"), "C:/UE_5.4/Engine/Build/BatchFiles/Build.bat");
    assert_eq!(get_uat_path("ue"), "ue/Engine/Build/BatchFiles/RunUAT.bat");
    assert_eq!(join_path("", "a"), "a");
    assert_eq!(join_path("base", "/abs"), "/abs");
}

#[test]
fn existing_path_is_the_first_flagged() {
    let known = strings(&["a", "b", "c"]);
    assert_eq!(get_existing_path(&known, &vec![false, true, true], "none"), Ok("b".to_string()));
    assert_eq!(get_existing_path(&known, &vec![false], "none"), Err("none".to_string()));
    assert_eq!(
        get_unreal_version_selector_path(true, &vec![false, false, true]),
        Ok("C:/Program Files/Epic Games/Launcher/Engine/Binaries/Win64/UnrealVersionSelector.exe".to_string())
    );
    assert_eq!(
        get_unreal_version_selector_path(false, &vec![false]),
        Err("UnrealVersionSelector not found".to_string())
    );
    assert_eq!(
        get_unreal_version_selector_path(false, &vec![true]),
        Ok("UnrealVersionSelector".to_string())
    );
}

#[test]
fn decimal_text() {
    assert_eq!(decimal_string(0), "0");
    assert_eq!(decimal_string(7777), "7777");
    assert_eq!(decimal_string(-42), "-42");
    assert_eq!(decimal_string(i32::MIN), "-2147483648");
    assert_eq!(decimal_string(i32::MAX), "2147483647");
}

#[test]
fn start_arguments_in_order() {
    let options = StartOptions {
        level: Some("Lobby".to_string()),
        editor: false,
        game: true,
        server: false,
        windowed: true,
        port: Some(7777),
        nosteam: false,
        log: true,
        stdout: false,
        extra: strings(&["-ResX=800"]),
    };
    assert_eq!(
        UEStart.arguments("Game.uproject", &options),
        strings(&["Game.uproject", "Lobby", "-game", "-windowed", "-port", "7777", "-log", "-ResX=800"])
    );
    let plain = StartOptions {
        level: None,
        editor: false,
        game: false,
        server: true,
        windowed: false,
        port: None,
        nosteam: true,
        log: false,
        stdout: true,
        extra: vec![],
    };
    assert_eq!(
        UEStart.arguments("G.uproject", &plain),
        strings(&["G.uproject", "-server", "-nosteam", "-stdout"])
    );
    assert_eq!(UEStart.name(), "ue start");
}

#[test]
fn tool_arguments() {
    assert_eq!(
        UEBuild.arguments("G.uproject", &strings(&["Win64"])),
        strings(&["-uproject=", "G.uproject", "Win64"])
    );
    assert_eq!(
        UERunUAT.arguments("BuildCookRun", "G.uproject", &strings(&["-cook"])),
        strings(&["BuildCookRun", "-uproject=", "G.uproject", "-cook"])
    );
    assert_eq!(UERunUAT.arguments("-List", "G.uproject", &vec![]), strings(&["-List"]));
    assert_eq!(
        UESwitchVersion.arguments("G.uproject", &None),
        strings(&["/switchversion", "G.uproject"])
    );
    assert_eq!(
        UESwitchVersion.arguments("G.uproject", &Some("5.5".to_string())),
        strings(&["/switchversionsilent", "G.uproject", "5.5"])
    );
    assert_eq!(
        UEGenerateProjectFiles.arguments("G.uproject"),
        strings(&["/projectfiles", "G.uproject"])
    );
    assert_eq!(UEUpdateFileAssociations.arguments(), strings(&["/fileassociations"]));
    assert_eq!(FromUAsset.name(), "from uasset");
}

#[test]
fn ide_detection_and_names() {
    assert_eq!(detect_ide(true, true, true), IDE::Rider);
    assert_eq!(detect_ide(true, false, true), IDE::VisualStudio);
    assert_eq!(detect_ide(false, true, true), IDE::VisualStudioCode);
    assert_eq!(detect_ide(false, false, false), IDE::Unknown);
    assert_eq!(IDE::VisualStudioCode.to_string(), "VisualStudioCode");
    assert_eq!(IDE::Unknown.to_string(), "Unknown");
}

#[test]
fn project_file_lookup() {
    let entries = strings(&["Content", "Game.sln", "Game.uproject", "Other.uproject"]);
    assert_eq!(find_uproject("/p", &entries), Ok("/p/Game.uproject".to_string()));
    assert_eq!(
        find_uproject("/p", &strings(&["a.txt"])),
        Err("Failed to find .uproject file in current directory: /p".to_string())
    );
    assert_eq!(
        uproject_from_arg_or_current_dir(&Some("x/Y.uproject".to_string()), "/p", &vec![]),
        Ok("x/Y.uproject".to_string())
    );
    assert_eq!(
        uproject_from_arg_or_current_dir(&None, "/p", &entries),
        Ok("/p/Game.uproject".to_string())
    );
    assert_eq!(sibling_path("/p/Game.uproject", ".sln"), "/p/Game.sln");
    assert_eq!(sibling_path("Game.uproject", ".code-workspace"), "Game.code-workspace");
    assert_eq!(project_relative_path("/p/Game.uproject", ".idea"), "/p/.idea");
}

#[test]
fn engine_path_from_solution() {
    let sln = "Microsoft Visual Studio Solution File\nProject(\"{2150E333}\") = \"UnrealBuildTool\", \"../UE_5.4/Engine/Source/Programs/UnrealBuildTool/UnrealBuildTool.csproj\", \"{ABC}\"\nEndProject\n";
    assert_eq!(engine_path_from_sln("/p", "/p/G.sln", sln), Ok("/p/../UE_5.4/".to_string()));
    assert_eq!(
        engine_path_from_sln("/p", "/p/G.sln", "nothing here"),
        Err("Failed to find Engine path in /p/G.sln".to_string())
    );
    assert_eq!(
        engine_path_from_capture("/p", "s", &Some("e/".to_string())),
        Ok("/p/e/".to_string())
    );
}

#[test]
fn engine_path_from_site_packages() {
    let content = "C:/UE_5.4/Engine/Plugins/Runtime/USDCore/Content/Python/Lib/Win64/site-packages\n";
    assert_eq!(engine_path_from_site_package(content), Ok("C:/UE_5.4/".to_string()));
    assert!(engine_path_from_site_package("unrelated").is_err());
    let twice = format!("{}{}", content, content);
    assert!(engine_path_from_site_package(&twice).is_err());
}

#[test]
fn project_description() {
    let files = ProjectFiles {
        uproject_exists: true,
        sln_exists: false,
        idea_exists: false,
        code_workspace_exists: true,
        sln_content: None,
        site_package_content: Some(
            "/ue/Engine/Plugins/Runtime/USDCore/Content/Python/Lib/Win64/site-packages".to_string(),
        ),
    };
    let u = UProject::from_path("/p/Game.uproject", &files).expect("describes");
    assert_eq!(u.name, "Game");
    assert_eq!(u.ide, IDE::VisualStudioCode);
    assert_eq!(u.unreal_engine_path, Some("/ue/".to_string()));
    assert_eq!(u.get_unreal_engine_path_str(), Ok(&"/ue/".to_string()));
    match uproject_record(&u) {
        GenericValue::Record(fields) => {
            assert_eq!(fields.len(), 4);
            assert_eq!(fields[3].0, "unreal_engine_path");
        }
        other => panic!("unexpected {:?}", other),
    }
    let missing = ProjectFiles { uproject_exists: false, ..files };
    assert!(UProject::from_path("/p/Game.uproject", &missing).is_err());
    assert_eq!(get_unreal_engine_path("/p/G.uproject", &None, &None), Ok(None));
}
