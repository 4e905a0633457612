use std::path::PathBuf;

use codex_pulse::executable::{
    editor_folders, extension_binaries, first_probe, homebrew_executables, is_codex_extension,
    listed_paths, missing_executable_message, newest_candidate, next_probe, where_candidates,
    which_candidate, Platform, Probe,
};

#[test]
fn newest_candidate_takes_the_last_of_the_newest() {
    assert_eq!(newest_candidate(Vec::new()), None);
    let candidates = vec![
        (PathBuf::from("a"), 5),
        (PathBuf::from("b"), 9),
        (PathBuf::from("c"), 9),
        (PathBuf::from("d"), -1),
    ];
    assert_eq!(newest_candidate(candidates), Some(PathBuf::from("c")));
}

#[test]
fn extension_directories() {
    assert!(is_codex_extension("openai.chatgpt-1.2.3-win32-x64"));
    assert!(!is_codex_extension("openai.chatgpt"));
    assert!(!is_codex_extension("ms-python.python-2024"));
    assert_eq!(extension_binaries(Platform::Windows), vec!["bin/windows-x86_64/codex.exe"]);
    assert_eq!(
        extension_binaries(Platform::MacOs),
        vec!["bin/macos-aarch64/codex", "bin/macos-x86_64/codex"]
    );
    assert_eq!(
        extension_binaries(Platform::Other),
        vec!["bin/linux-x86_64/codex", "bin/linux-aarch64/codex"]
    );
}

#[test]
fn command_output_lines() {
    assert_eq!(
        listed_paths("  /usr/bin/codex \r\n\n\t/opt/codex\n"),
        vec!["/usr/bin/codex", "/opt/codex"]
    );
    assert_eq!(listed_paths(""), Vec::<String>::new());
    assert_eq!(listed_paths("\u{3000}x\u{a0}"), vec!["x"]);
    assert_eq!(which_candidate("\n  /usr/local/bin/codex\n/other\n"), Some("/usr/local/bin/codex".to_string()));
    assert_eq!(which_candidate(" \n"), None);
    assert_eq!(
        where_candidates(
            "C:\\Users\\me\\AppData\\Local\\Microsoft\\WindowsApps\\codex.exe\r\nC:\\tools\\codex.exe\r\n"
        ),
        vec!["C:\\tools\\codex.exe"]
    );
}

#[test]
fn missing_executable_messages() {
    assert_eq!(
        missing_executable_message(Platform::Windows),
        "Codex 실행 파일을 찾지 못했습니다. Codex CLI를 설치하거나 CODEX_EXECUTABLE 환경 변수에 codex.exe 경로를 지정해 주세요."
    );
    assert_eq!(
        missing_executable_message(Platform::Other),
        "Codex 실행 파일을 찾지 못했습니다. Codex CLI를 설치하거나 CODEX_EXECUTABLE 환경 변수에 codex 경로를 지정해 주세요."
    );
}

fn probes(platform: Platform) -> Vec<Probe> {
    let mut visited = Vec::new();
    let mut probe = Some(first_probe());
    while let Some(current) = probe {
        visited.push(current);
        probe = next_probe(platform, current);
    }
    visited
}

#[test]
fn search_order_per_platform() {
    assert_eq!(
        probes(Platform::Windows),
        vec![Probe::Override, Probe::DesktopBuilds, Probe::EditorExtensions, Probe::PathLookup]
    );
    assert_eq!(
        probes(Platform::MacOs),
        vec![Probe::Override, Probe::EditorExtensions, Probe::HomebrewPaths, Probe::PathLookup]
    );
    assert_eq!(probes(Platform::Other), vec![Probe::Override, Probe::PathLookup]);
}

#[test]
fn unsearched_places_lead_nowhere() {
    assert_eq!(next_probe(Platform::Other, Probe::DesktopBuilds), None);
    assert_eq!(next_probe(Platform::Windows, Probe::HomebrewPaths), None);
    assert_eq!(next_probe(Platform::MacOs, Probe::DesktopBuilds), None);
    assert_eq!(next_probe(Platform::MacOs, Probe::PathLookup), None);
}

#[test]
fn editor_and_homebrew_locations() {
    assert_eq!(editor_folders(Platform::Windows), vec![".windsurf", ".vscode"]);
    assert_eq!(
        editor_folders(Platform::MacOs),
        vec![".vscode", ".vscode-insiders", ".windsurf"]
    );
    assert!(editor_folders(Platform::Other).is_empty());
    assert_eq!(
        homebrew_executables(),
        vec!["/opt/homebrew/bin/codex", "/usr/local/bin/codex"]
    );
}
