use bun_docs_mcp::extension::{
    ArchiveKind, Architecture, Asset, BunDocsMcpExtension, EntryKind, Os, ARCHIVE_LINUX_ARM64,
    ARCHIVE_LINUX_X64, ARCHIVE_MACOS_ARM64, ARCHIVE_MACOS_X64, ARCHIVE_WINDOWS_ARM64,
    ARCHIVE_WINDOWS_X64, CONTEXT_SERVER_ID, PROXY_DIR, PROXY_REPO,
};

fn windows_paths() -> bool {
    std::path::MAIN_SEPARATOR == '\\'
}

#[test]
fn test_platform_archive_names() {
    let expected_archives = vec![
        ARCHIVE_LINUX_X64,
        ARCHIVE_LINUX_ARM64,
        ARCHIVE_MACOS_X64,
        ARCHIVE_MACOS_ARM64,
        ARCHIVE_WINDOWS_X64,
        ARCHIVE_WINDOWS_ARM64,
    ];

    for archive in expected_archives {
        assert!(
            archive.contains("bun-docs-mcp-proxy-"),
            "Archive name should start with bun-docs-mcp-proxy-"
        );
        assert!(
            archive.ends_with(".tar.gz") || archive.ends_with(".zip"),
            "Archive should have valid extension"
        );
    }
}

#[test]
fn test_binary_names() {
    let expected_unix = "bun-docs-mcp-proxy";
    let expected_windows = "bun-docs-mcp-proxy.exe";

    assert!(!expected_unix.is_empty());
    assert!(!expected_windows.is_empty());
    assert!(expected_windows.ends_with(".exe"));

    assert_eq!(BunDocsMcpExtension::binary_name_for(Os::Linux), expected_unix);
    assert_eq!(BunDocsMcpExtension::binary_name_for(Os::Mac), expected_unix);
    assert_eq!(BunDocsMcpExtension::binary_name_for(Os::Windows), expected_windows);
}

#[test]
fn test_version_dir_construction() {
    let work_dir = if windows_paths() { "C:\\test\\work" } else { "/test/work" };

    let version_dir = BunDocsMcpExtension::get_version_dir(work_dir, "0.1.2");
    let path_str = version_dir.as_str();
    assert!(path_str.contains("bun-docs-mcp-proxy"));
    assert!(path_str.contains("v0.1.2"));

    let version_dir = BunDocsMcpExtension::get_version_dir(work_dir, "v0.1.3");
    let path_str = version_dir.as_str();
    assert!(path_str.contains("bun-docs-mcp-proxy"));
    assert!(path_str.contains("v0.1.3"));

    if windows_paths() {
        assert!(path_str.contains("C:\\test\\work\\bun-docs-mcp-proxy\\v"));
    } else {
        assert!(path_str.contains("/test/work/bun-docs-mcp-proxy/v"));
    }
}

#[test]
fn test_binary_path_construction_with_version() {
    let work_dir = if windows_paths() { "C:\\test\\work" } else { "/test/work" };
    let version = "0.1.2";
    let binary_name = "bun-docs-mcp-proxy";

    let version_dir = BunDocsMcpExtension::get_version_dir(work_dir, version);
    let path = std::path::Path::new(&version_dir).join(binary_name);
    let path_str = path.to_str().unwrap();

    assert!(path_str.contains("test"));
    assert!(path_str.contains("work"));
    assert!(path_str.contains("bun-docs-mcp-proxy"));
    assert!(path_str.contains("v0.1.2"));

    if windows_paths() {
        assert_eq!(
            path_str,
            "C:\\test\\work\\bun-docs-mcp-proxy\\v0.1.2\\bun-docs-mcp-proxy"
        );
    } else {
        assert_eq!(
            path_str,
            "/test/work/bun-docs-mcp-proxy/v0.1.2/bun-docs-mcp-proxy"
        );
    }
}

#[test]
fn test_unsupported_platform_error() {
    let expected_prefix = "Unsupported platform:";
    let expected_suffix = "please file an issue";

    assert!(!expected_prefix.is_empty());
    assert!(!expected_suffix.is_empty());

    let err = BunDocsMcpExtension::archive_name_for(Os::Linux, Architecture::X86).unwrap_err();
    assert!(err.starts_with(expected_prefix));
    assert!(err.contains(expected_suffix));
    assert_eq!(
        err,
        "Unsupported platform: Os::Linux Architecture::X86 - please file an issue at https://github.com/kjanat/bun-docs-mcp-zed/issues"
    );
}

#[test]
fn test_context_server_id_constant() {
    assert_eq!(CONTEXT_SERVER_ID, "bun-docs-mcp");
}

#[test]
fn test_constants_defined() {
    assert_eq!(CONTEXT_SERVER_ID, "bun-docs-mcp");
    assert_eq!(PROXY_DIR, "bun-docs-mcp-proxy");
    assert_eq!(PROXY_REPO, "kjanat/bun-docs-mcp-proxy");

    let archives = vec![ARCHIVE_LINUX_X64, ARCHIVE_MACOS_ARM64, ARCHIVE_WINDOWS_X64];
    for archive in archives {
        assert!(archive.contains("bun-docs-mcp-proxy-"));
        assert!(archive.ends_with(".tar.gz") || archive.ends_with(".zip"));
    }
}

#[test]
fn test_version_normalization() {
    let version1 = "v0.1.2";
    let version2 = "0.1.2";

    let normalized1 = BunDocsMcpExtension::normalize_version(version1);
    let normalized2 = BunDocsMcpExtension::normalize_version(version2);

    assert_eq!(normalized1, normalized2);
    assert_eq!(normalized1, "0.1.2");
}

#[test]
fn normalization_strips_every_leading_v() {
    assert_eq!(BunDocsMcpExtension::normalize_version("vv1.0.0"), "1.0.0");
    assert_eq!(BunDocsMcpExtension::normalize_version(""), "");
    assert_eq!(BunDocsMcpExtension::normalize_version("1.0.v"), "1.0.v");
}

#[test]
fn archive_for_each_supported_platform() {
    let cases = [
        (Os::Linux, Architecture::X8664, ARCHIVE_LINUX_X64),
        (Os::Linux, Architecture::Aarch64, ARCHIVE_LINUX_ARM64),
        (Os::Mac, Architecture::X8664, ARCHIVE_MACOS_X64),
        (Os::Mac, Architecture::Aarch64, ARCHIVE_MACOS_ARM64),
        (Os::Windows, Architecture::X8664, ARCHIVE_WINDOWS_X64),
        (Os::Windows, Architecture::Aarch64, ARCHIVE_WINDOWS_ARM64),
    ];
    for (os, arch, expected) in cases {
        assert_eq!(BunDocsMcpExtension::archive_name_for(os, arch), Ok(expected));
    }
    let err = BunDocsMcpExtension::archive_name_for(Os::Windows, Architecture::X86).unwrap_err();
    assert!(err.contains("Os::Windows Architecture::X86"));
}

#[test]
fn version_tag_adds_a_missing_v() {
    assert_eq!(BunDocsMcpExtension::version_tag("0.1.2"), "v0.1.2");
    assert_eq!(BunDocsMcpExtension::version_tag("v0.1.2"), "v0.1.2");
    assert_eq!(BunDocsMcpExtension::version_tag(""), "v");
}

#[test]
fn extract_path_is_relative_to_work_dir() {
    assert_eq!(
        BunDocsMcpExtension::extract_path("0.1.2"),
        "bun-docs-mcp-proxy/v0.1.2"
    );
    assert_eq!(
        BunDocsMcpExtension::extract_path("v0.2.0"),
        "bun-docs-mcp-proxy/v0.2.0"
    );
}

#[test]
fn archive_kind_by_extension() {
    assert_eq!(BunDocsMcpExtension::archive_kind(ARCHIVE_WINDOWS_X64), ArchiveKind::Zip);
    assert_eq!(BunDocsMcpExtension::archive_kind(ARCHIVE_LINUX_X64), ArchiveKind::GzipTar);
    assert_eq!(BunDocsMcpExtension::archive_kind("proxy.bin"), ArchiveKind::Uncompressed);
    assert_eq!(BunDocsMcpExtension::archive_kind("zip"), ArchiveKind::Uncompressed);
}

#[test]
fn cleanup_keeps_only_the_current_version() {
    let keep = "0.1.3";
    assert!(BunDocsMcpExtension::removed_by_cleanup(EntryKind::Directory, Some("v0.1.2"), keep));
    assert!(!BunDocsMcpExtension::removed_by_cleanup(EntryKind::Directory, Some("v0.1.3"), keep));
    assert!(!BunDocsMcpExtension::removed_by_cleanup(EntryKind::Directory, Some("v0.1.3"), "v0.1.3"));
    assert!(!BunDocsMcpExtension::removed_by_cleanup(EntryKind::Directory, Some("cache"), keep));
    assert!(!BunDocsMcpExtension::removed_by_cleanup(EntryKind::Directory, None, keep));
    assert!(BunDocsMcpExtension::removed_by_cleanup(EntryKind::File, Some("bun-docs-mcp-proxy"), keep));
    assert!(!BunDocsMcpExtension::removed_by_cleanup(EntryKind::Other, Some("v0.1.0"), keep));
}

fn asset(name: &str, url: &str) -> Asset {
    Asset { name: name.to_string(), download_url: url.to_string() }
}

#[test]
fn find_asset_picks_the_first_match() {
    let assets = vec![
        asset("checksums.txt", "https://x/c"),
        asset(ARCHIVE_LINUX_X64, "https://x/1"),
        asset(ARCHIVE_LINUX_X64, "https://x/2"),
    ];
    assert_eq!(BunDocsMcpExtension::find_asset(&assets, ARCHIVE_LINUX_X64), Some(1));
    assert_eq!(BunDocsMcpExtension::find_asset(&assets, ARCHIVE_MACOS_X64), None);
    assert_eq!(BunDocsMcpExtension::find_asset(&Vec::new(), ARCHIVE_MACOS_X64), None);
}

#[test]
fn install_plan_for_a_release() {
    let assets = vec![
        asset(ARCHIVE_WINDOWS_X64, "https://x/win.zip"),
        asset(ARCHIVE_LINUX_X64, "https://x/linux.tar.gz"),
    ];
    let plan = BunDocsMcpExtension::plan_install(
        "/test/work",
        "v0.1.4",
        &assets,
        Os::Linux,
        Architecture::X8664,
    );
    assert_eq!(plan.version, "0.1.4");
    assert_eq!(plan.extract_path, "bun-docs-mcp-proxy/v0.1.4");
    assert!(plan.executable_bit);
    if !windows_paths() {
        assert_eq!(plan.version_dir, "/test/work/bun-docs-mcp-proxy/v0.1.4");
        assert_eq!(
            plan.binary_path,
            "/test/work/bun-docs-mcp-proxy/v0.1.4/bun-docs-mcp-proxy"
        );
    }
    let download = plan.download.unwrap();
    assert_eq!(download.archive_name, ARCHIVE_LINUX_X64);
    assert_eq!(download.url, "https://x/linux.tar.gz");
    assert_eq!(download.kind, ArchiveKind::GzipTar);

    let plan = BunDocsMcpExtension::plan_install(
        "/test/work",
        "0.1.4",
        &assets,
        Os::Windows,
        Architecture::X8664,
    );
    assert!(!plan.executable_bit);
    assert!(plan.binary_path.ends_with("bun-docs-mcp-proxy.exe"));
    let download = plan.download.unwrap();
    assert_eq!(download.url, "https://x/win.zip");
    assert_eq!(download.kind, ArchiveKind::Zip);
}

#[test]
fn install_plan_without_the_hosts_archive() {
    let assets = vec![asset(ARCHIVE_LINUX_X64, "https://x/linux.tar.gz")];
    let plan = BunDocsMcpExtension::plan_install(
        "/w",
        "v0.2.0",
        &assets,
        Os::Mac,
        Architecture::Aarch64,
    );
    assert_eq!(
        plan.download.err().unwrap(),
        "No bun-docs-mcp-proxy-macos-aarch64.tar.gz asset found in release v0.2.0 for kjanat/bun-docs-mcp-proxy"
    );
    let plan = BunDocsMcpExtension::plan_install("/w", "v0.2.0", &assets, Os::Mac, Architecture::X86);
    assert!(plan.download.err().unwrap().starts_with("Unsupported platform: Os::Mac Architecture::X86"));
}

#[test]
fn serves_only_its_own_context_server() {
    assert!(BunDocsMcpExtension::serves("bun-docs-mcp"));
    assert!(!BunDocsMcpExtension::serves("bun-docs-mcp-other"));
    assert!(!BunDocsMcpExtension::serves(""));
}

#[test]
fn session_cache_follows_checks_and_versions() {
    let mut ext = BunDocsMcpExtension::new();
    assert_eq!(ext.session_binary(), None);
    assert_eq!(ext.binary_of_version("0.1.2"), None);

    ext.record_binary("/w/bun-docs-mcp-proxy/v0.1.2/bun-docs-mcp-proxy".to_string(), "0.1.2");
    assert_eq!(ext.session_binary(), None);
    assert_eq!(
        ext.binary_of_version("v0.1.2").as_deref(),
        Some("/w/bun-docs-mcp-proxy/v0.1.2/bun-docs-mcp-proxy")
    );
    assert_eq!(ext.binary_of_version("0.1.3"), None);

    ext.mark_checked();
    assert_eq!(
        ext.session_binary().as_deref(),
        Some("/w/bun-docs-mcp-proxy/v0.1.2/bun-docs-mcp-proxy")
    );
}
