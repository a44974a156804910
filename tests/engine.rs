use cask::engine::{
    asset_name, compile_args, create_runtime_args, detect_platform, download_url,
    engine_file_name, install_args, is_engine_entry, Engine, EngineError, EngineStep, HostArch,
    HostOs, PlatformError, UV_VERSION,
};

#[test]
fn platform_linux_x86_64() {
    assert_eq!(
        detect_platform(HostOs::Linux, HostArch::X86_64),
        Ok(("unknown-linux-gnu", "x86_64", "tar.gz"))
    );
}

#[test]
fn platform_macos_aarch64() {
    assert_eq!(
        detect_platform(HostOs::MacOs, HostArch::Aarch64),
        Ok(("apple-darwin", "aarch64", "tar.gz"))
    );
}

#[test]
fn platform_windows_uses_zip() {
    assert_eq!(
        detect_platform(HostOs::Windows, HostArch::X86_64),
        Ok(("pc-windows-msvc", "x86_64", "zip"))
    );
}

#[test]
fn platform_unsupported() {
    assert_eq!(detect_platform(HostOs::Other, HostArch::X86_64), Err(PlatformError::UnsupportedOs));
    assert_eq!(detect_platform(HostOs::Other, HostArch::Other), Err(PlatformError::UnsupportedOs));
    assert_eq!(detect_platform(HostOs::Linux, HostArch::Other), Err(PlatformError::UnsupportedArch));
}

#[test]
fn asset_and_url() {
    let asset = asset_name("unknown-linux-gnu", "x86_64", "tar.gz");
    assert_eq!(asset, "uv-x86_64-unknown-linux-gnu.tar.gz");
    assert_eq!(
        download_url(UV_VERSION, &asset),
        "https://github.com/astral-sh/uv/releases/download/0.9.28/uv-x86_64-unknown-linux-gnu.tar.gz"
    );
}

#[test]
fn engine_entries() {
    assert!(is_engine_entry(b"uv", false));
    assert!(is_engine_entry(b"uv", true));
    assert!(is_engine_entry(b"uv.exe", true));
    assert!(!is_engine_entry(b"uv.exe", false));
    assert!(!is_engine_entry(b"uvx", false));
    assert!(!is_engine_entry(b"LICENSE", true));
    assert!(!is_engine_entry(b"", true));
}

#[test]
fn engine_names() {
    assert_eq!(engine_file_name(HostOs::Windows), "uv.exe");
    assert_eq!(engine_file_name(HostOs::Linux), "uv");
}

#[test]
fn engine_arguments() {
    assert_eq!(create_runtime_args("3.11"), vec!["venv", ".venv", "--python", "3.11"]);
    assert_eq!(install_args("/tmp/reqs.txt"), vec!["pip", "install", "-r", "/tmp/reqs.txt"]);
    assert_eq!(
        compile_args("cask.tmp", "cask.lock", "3.10"),
        vec!["pip", "compile", "cask.tmp", "-o", "cask.lock", "--python", "3.10"]
    );
}

#[test]
fn present_engine_is_trusted() {
    match Engine::locate("/home/u/.cask/bin/uv".to_string(), true) {
        EngineStep::Ready(e) => assert_eq!(e.path, "/home/u/.cask/bin/uv"),
        EngineStep::Bootstrap => panic!("expected the present engine"),
    }
    assert!(matches!(Engine::locate("x".to_string(), false), EngineStep::Bootstrap));
}

#[test]
fn missing_engine_after_extraction() {
    assert!(matches!(
        Engine::confirm("x".to_string(), false),
        Err(EngineError::MissingAfterExtraction)
    ));
    assert_eq!(Engine::confirm("y".to_string(), true).map(|e| e.path), Ok("y".to_string()));
}
