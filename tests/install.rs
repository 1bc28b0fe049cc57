use bun_docs_mcp::extension::{
    Architecture, ArchiveKind, Asset, BunDocsMcpExtension, Os, ARCHIVE_LINUX_X64,
    ARCHIVE_MACOS_ARM64,
};
use bun_docs_mcp::install::{HostReply, Install, InstallRequest, InstallStage, Release};

fn release(version: &str) -> Release {
    Release {
        version: version.to_string(),
        assets: vec![Asset {
            name: ARCHIVE_LINUX_X64.to_string(),
            download_url: "https://x/linux.tar.gz".to_string(),
        }],
    }
}

/// Answers each request from the given host facts; returns the outcome and
/// the requests made.
struct FakeHost {
    existing: Vec<String>,
    release: Result<Release, String>,
    download_fails: bool,
    unpacks: bool,
}

impl FakeHost {
    fn run(
        &mut self,
        ext: &mut BunDocsMcpExtension,
        os: Os,
        arch: Architecture,
    ) -> (Result<String, String>, Vec<String>) {
        let mut log = Vec::new();
        let (mut install, mut request) = Install::start(ext, os, arch);
        loop {
            log.push(format!("{:?}", request));
            let reply = match request {
                InstallRequest::Done(outcome) => return (outcome, log),
                InstallRequest::Exists(p) => HostReply::Exists(self.existing.contains(&p)),
                InstallRequest::WorkDir => HostReply::WorkDir(Ok("/w".to_string())),
                InstallRequest::LatestRelease => HostReply::Release(
                    self.release
                        .as_ref()
                        .map(|r| release(&r.version))
                        .map_err(|e| e.clone()),
                ),
                InstallRequest::IsFile(_) => HostReply::IsFile(Ok(true)),
                InstallRequest::CreateDir(_) => HostReply::Created(Ok(())),
                InstallRequest::Download { kind, .. } => {
                    assert_eq!(kind, ArchiveKind::GzipTar);
                    if self.download_fails {
                        HostReply::Downloaded(Err("offline".to_string()))
                    } else {
                        if self.unpacks {
                            self.existing
                                .push("/w/bun-docs-mcp-proxy/v0.1.4/bun-docs-mcp-proxy".to_string());
                        }
                        HostReply::Downloaded(Ok(()))
                    }
                }
                InstallRequest::MakeExecutable(_) => HostReply::MadeExecutable(Ok(())),
                InstallRequest::Cleanup { .. } => HostReply::CleanedUp,
            };
            assert!(install.expects(&reply));
            let next = install.advance(ext, reply);
            install = next.0;
            request = next.1;
        }
    }
}

fn host(existing: &[&str]) -> FakeHost {
    FakeHost {
        existing: existing.iter().map(|s| s.to_string()).collect(),
        release: Ok(release("v0.1.4")),
        download_fails: false,
        unpacks: true,
    }
}

#[test]
fn fresh_install_downloads_and_records() {
    if std::path::MAIN_SEPARATOR != '/' {
        return;
    }
    let mut ext = BunDocsMcpExtension::new();
    let (outcome, log) = host(&[]).run(&mut ext, Os::Linux, Architecture::X8664);
    assert_eq!(
        outcome,
        Ok("/w/bun-docs-mcp-proxy/v0.1.4/bun-docs-mcp-proxy".to_string())
    );
    assert!(log.iter().any(|r| r.starts_with("Download")));
    assert!(log.iter().any(|r| r.starts_with("MakeExecutable")));
    assert!(ext.update_checked_this_session);
    assert_eq!(ext.current_version.as_deref(), Some("0.1.4"));

    let (again, log) = host(&["/w/bun-docs-mcp-proxy/v0.1.4/bun-docs-mcp-proxy"]).run(
        &mut ext,
        Os::Linux,
        Architecture::X8664,
    );
    assert_eq!(again, outcome);
    assert_eq!(log.len(), 2);
}

#[test]
fn binary_on_disk_is_reused_without_download() {
    if std::path::MAIN_SEPARATOR != '/' {
        return;
    }
    let mut ext = BunDocsMcpExtension::new();
    let (outcome, log) = host(&["/w/bun-docs-mcp-proxy/v0.1.4/bun-docs-mcp-proxy"]).run(
        &mut ext,
        Os::Linux,
        Architecture::X8664,
    );
    assert_eq!(
        outcome,
        Ok("/w/bun-docs-mcp-proxy/v0.1.4/bun-docs-mcp-proxy".to_string())
    );
    assert!(!log.iter().any(|r| r.starts_with("Download")));
    assert!(log.iter().any(|r| r.starts_with("Cleanup")));
}

#[test]
fn failures_are_reported_with_their_cause() {
    let mut ext = BunDocsMcpExtension::new();
    let mut h = host(&[]);
    h.release = Err("rate limited".to_string());
    let (outcome, _) = h.run(&mut ext, Os::Linux, Architecture::X8664);
    assert_eq!(
        outcome,
        Err("Failed to get latest release from kjanat/bun-docs-mcp-proxy: rate limited".to_string())
    );
    assert!(!ext.update_checked_this_session);

    let mut h = host(&[]);
    h.download_fails = true;
    let (outcome, _) = h.run(&mut ext, Os::Linux, Architecture::X8664);
    assert_eq!(
        outcome,
        Err(format!("Failed to download {} from https://x/linux.tar.gz: offline", ARCHIVE_LINUX_X64))
    );

    let mut h = host(&[]);
    h.unpacks = false;
    let (outcome, _) = h.run(&mut ext, Os::Linux, Architecture::X8664);
    assert!(outcome
        .unwrap_err()
        .starts_with("Binary not found at expected path after extraction: "));
}

#[test]
fn missing_archive_stops_before_download() {
    let mut ext = BunDocsMcpExtension::new();
    let (outcome, log) = host(&[]).run(&mut ext, Os::Mac, Architecture::Aarch64);
    assert_eq!(
        outcome,
        Err(format!(
            "No {} asset found in release v0.1.4 for kjanat/bun-docs-mcp-proxy",
            ARCHIVE_MACOS_ARM64
        ))
    );
    assert!(!log.iter().any(|r| r.starts_with("Download")));
}

#[test]
fn replies_must_fit_the_request() {
    let ext = BunDocsMcpExtension::new();
    let (install, request) = Install::start(&ext, Os::Linux, Architecture::X8664);
    assert!(matches!(request, InstallRequest::WorkDir));
    assert!(matches!(install.stage, InstallStage::LocateWorkDir));
    assert!(install.expects(&HostReply::WorkDir(Ok("/w".to_string()))));
    assert!(!install.expects(&HostReply::Exists(true)));
    assert!(!install.expects(&HostReply::CleanedUp));
}
