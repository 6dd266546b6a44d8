use starter_tauri_app::artifact::{node_artifact, shasums_url, ArchiveKind, NODE_VERSION};
use starter_tauri_app::checksum::{checksums_match, resolve_expected_sha256, ArchiveHasher};
use starter_tauri_app::error::RuntimeError;
use starter_tauri_app::greet;
use starter_tauri_app::pid::{format_pid, kill_succeeded, parse_pid};
use starter_tauri_app::status::{version_from_output, DownloadProgress, NodeRuntimeStatus, DEFAULT_SERVER_PORT};
use starter_tauri_app::text::{decimal_string, str_eq};

#[test]
fn greet_names_the_caller() {
    assert_eq!(greet("World"), "Hello, World! You've been greeted from Rust!");
    assert_eq!(greet(""), "Hello, ! You've been greeted from Rust!");
}

#[test]
fn shasums_url_points_into_the_distribution() {
    assert_eq!(shasums_url(), "https://nodejs.org/dist/v20.18.1/SHASUMS256.txt");
    assert_eq!(NODE_VERSION, "v20.18.1");
}

#[test]
fn artifact_for_linux_x64() {
    let a = node_artifact("linux", "x86_64").ok().unwrap();
    assert_eq!(a.filename, "node-v20.18.1-linux-x64.tar.xz");
    assert_eq!(a.node_bin_relpath, "node-v20.18.1-linux-x64/bin/node");
    assert_eq!(a.platform_tag, "linux-x64");
    assert_eq!(a.kind, ArchiveKind::TarXz);
    assert_eq!(a.archive_url(), "https://nodejs.org/dist/v20.18.1/node-v20.18.1-linux-x64.tar.xz");
}

#[test]
fn artifact_for_each_supported_platform() {
    let cases = [
        ("macos", "aarch64", "darwin-arm64", ArchiveKind::TarGz, ".tar.gz", "/bin/node"),
        ("macos", "x86_64", "darwin-x64", ArchiveKind::TarGz, ".tar.gz", "/bin/node"),
        ("linux", "aarch64", "linux-arm64", ArchiveKind::TarXz, ".tar.xz", "/bin/node"),
        ("windows", "x86_64", "win-x64", ArchiveKind::Zip, ".zip", "/node.exe"),
        ("windows", "aarch64", "win-arm64", ArchiveKind::Zip, ".zip", "/node.exe"),
    ];
    for (os, arch, tag, kind, ext, bin) in cases {
        let a = node_artifact(os, arch).ok().unwrap();
        let dir = format!("node-v20.18.1-{}", tag);
        assert_eq!(a.platform_tag, tag);
        assert_eq!(a.kind, kind);
        assert_eq!(a.filename, format!("{}{}", dir, ext));
        assert_eq!(a.node_bin_relpath, format!("{}{}", dir, bin));
    }
}

#[test]
fn artifact_for_unsupported_platform() {
    match node_artifact("freebsd", "x86_64") {
        Err(e) => {
            assert!(matches!(e, RuntimeError::UnsupportedPlatform { .. }));
            assert_eq!(e.message(), "unsupported platform: os=freebsd arch=x86_64");
        }
        Ok(_) => panic!("freebsd has no distribution"),
    }
    assert!(node_artifact("linux", "riscv64").is_err());
    assert!(node_artifact("Linux", "x86_64").is_err());
}

const SHASUMS: &str = "\
aaaa1111  node-v20.18.1-darwin-arm64.tar.gz\r\n\
\r\n\
bbbb2222  node-v20.18.1-linux-x64.tar.xz\r\n\
cccc3333 node-v20.18.1-win-x64.zip\n\
  dddd4444    node-v20.18.1-win-arm64.zip   \n\
eeee5555  node-v20.18.1-linux-x64.tar.xz\n";

#[test]
fn checksum_found_for_listed_archive() {
    assert_eq!(resolve_expected_sha256(SHASUMS, "node-v20.18.1-linux-x64.tar.xz").ok().unwrap(), "bbbb2222");
    assert_eq!(resolve_expected_sha256(SHASUMS, "node-v20.18.1-darwin-arm64.tar.gz").ok().unwrap(), "aaaa1111");
    // Split at the first two spaces; the rest is trimmed.
    assert_eq!(resolve_expected_sha256(SHASUMS, "node-v20.18.1-win-arm64.zip").ok().unwrap(), "dddd4444");
}

#[test]
fn checksum_missing_is_an_error() {
    // A single space does not separate checksum and name.
    let e = resolve_expected_sha256(SHASUMS, "node-v20.18.1-win-x64.zip").err().unwrap();
    assert_eq!(e.message(), "sha256 not found in SHASUMS256.txt for node-v20.18.1-win-x64.zip");
    assert!(resolve_expected_sha256("", "a").is_err());
    assert!(resolve_expected_sha256("\n\n", "a").is_err());
    assert_eq!(resolve_expected_sha256("x  a", "a").ok().unwrap(), "x");
}

#[test]
fn sha256_of_known_inputs() {
    let h = ArchiveHasher::new();
    assert_eq!(h.finish_hex(), "e3b0c44298fc1c149afbf4c8996fb92427ae41e4649b934ca495991b7852b855");
    let mut h = ArchiveHasher::new();
    h.update(b"abc");
    assert_eq!(h.finish_hex(), "ba7816bf8f01cfea414140de5dae2223b00361a396177a9cb410ff61f20015ad");
    let mut h = ArchiveHasher::new();
    h.update(b"a");
    h.update(b"");
    h.update(b"bc");
    assert_eq!(h.finish_hex(), "ba7816bf8f01cfea414140de5dae2223b00361a396177a9cb410ff61f20015ad");
}

#[test]
fn checksum_comparison_ignores_case() {
    assert!(checksums_match("ABCdef01", "abcDEF01"));
    assert!(checksums_match("", ""));
    assert!(!checksums_match("abc", "abd"));
    assert!(!checksums_match("abc", "abc "));
}

#[test]
fn pid_file_round_trip() {
    for pid in [0u32, 7, 10, 4242, u32::MAX] {
        assert_eq!(parse_pid(&format_pid(pid)), Some(pid));
    }
    assert_eq!(format_pid(4242), "4242");
    assert_eq!(format_pid(0), "0");
}

#[test]
fn pid_file_contents_are_parsed_like_u32() {
    assert_eq!(parse_pid(" 42\n"), Some(42));
    assert_eq!(parse_pid("+7"), Some(7));
    assert_eq!(parse_pid("007"), Some(7));
    assert_eq!(parse_pid("4294967295"), Some(u32::MAX));
    assert_eq!(parse_pid("4294967296"), None);
    assert_eq!(parse_pid("99999999999999999999"), None);
    assert_eq!(parse_pid("-1"), None);
    assert_eq!(parse_pid("+"), None);
    assert_eq!(parse_pid(""), None);
    assert_eq!(parse_pid("12a"), None);
    assert_eq!(parse_pid("1 2"), None);
    assert_eq!(parse_pid("\u{3000}5\u{a0}"), Some(5));
}

#[test]
fn kill_counts_missing_process_as_done() {
    assert!(kill_succeeded(0, None, 3));
    assert!(kill_succeeded(-1, Some(3), 3));
    assert!(!kill_succeeded(-1, Some(1), 3));
    assert!(!kill_succeeded(-1, None, 3));
}

#[test]
fn version_output_is_trimmed() {
    assert_eq!(version_from_output(true, "v20.18.1\n"), Some("v20.18.1".to_string()));
    assert_eq!(version_from_output(true, "  \n"), None);
    assert_eq!(version_from_output(false, "v20.18.1\n"), None);
}

#[test]
fn status_of_missing_runtime_has_no_path() {
    let s = NodeRuntimeStatus::from_probe(false, "/x/node".to_string(), Some("v1".to_string()), false);
    assert!(!s.installed);
    assert_eq!(s.node_path, None);
    assert_eq!(s.version, None);
    assert_eq!(s.server_port, DEFAULT_SERVER_PORT);
    let s = NodeRuntimeStatus::from_probe(true, "/x/node".to_string(), Some("v1".to_string()), true);
    assert_eq!(s.node_path, Some("/x/node".to_string()));
    assert_eq!(s.version, Some("v1".to_string()));
    assert!(s.server_running);
    assert_eq!(s.server_port, 3179);
}

#[test]
fn progress_counts_bytes() {
    let mut p = DownloadProgress::start(Some(10));
    p.advance(4);
    p.advance(0);
    p.advance(6);
    assert_eq!(p, DownloadProgress { downloaded: 10, total: Some(10) });
}

#[test]
fn error_messages() {
    let cases: Vec<(RuntimeError, &str)> = vec![
        (RuntimeError::ChecksumMismatch { expected: "ab".to_string(), actual: "cd".to_string() },
            "node archive sha256 mismatch: expected ab, got cd"),
        (RuntimeError::NodeBinaryMissing { path: "/p/node".to_string() },
            "node binary not found after extract: /p/node"),
        (RuntimeError::NotInstalled, "node runtime not installed"),
        (RuntimeError::PortInUse { port: 3179 }, "port 3179 is already in use"),
        (RuntimeError::Io { message: "disk full".to_string() }, "disk full"),
        (RuntimeError::Other { message: "timeout".to_string() }, "timeout"),
    ];
    for (e, m) in cases {
        assert_eq!(e.message(), m);
    }
}

#[test]
fn decimal_and_equality_helpers() {
    assert_eq!(decimal_string(0), "0");
    assert_eq!(decimal_string(1234567890), "1234567890");
    assert_eq!(decimal_string(u64::MAX), u64::MAX.to_string());
    assert!(str_eq("héllo", "héllo"));
    assert!(!str_eq("a", "ab"));
}
