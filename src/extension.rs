//! The editor extension's own rules: which release archive and binary fit a
//! platform, where each version of the binary lives, what a cleanup removes,
//! and when a binary found earlier in the session may be used again.
//!
//! Downloads, the file system and the editor's host calls (the host's
//! platform among them) stay with the caller, which hands in what they gave.

use vstd::prelude::*;
use vstd::string::*;

use crate::text::{
    ends_with, starts_with_char, str_ends_with, str_eq, str_starts_with_char, str_strip_leading,
    strip_leading,
};

verus! {

/// Identifier of the context server, as the extension's `extension.toml` declares it.
pub const CONTEXT_SERVER_ID: &'static str = "bun-docs-mcp";

/// Directory, under the work directory, that holds every version of the binary.
pub const PROXY_DIR: &'static str = "bun-docs-mcp-proxy";

/// Repository whose releases carry the binary.
pub const PROXY_REPO: &'static str = "kjanat/bun-docs-mcp-proxy";

pub const ARCHIVE_LINUX_X64: &'static str = "bun-docs-mcp-proxy-linux-x86_64.tar.gz";

pub const ARCHIVE_LINUX_ARM64: &'static str = "bun-docs-mcp-proxy-linux-aarch64.tar.gz";

pub const ARCHIVE_MACOS_X64: &'static str = "bun-docs-mcp-proxy-macos-x86_64.tar.gz";

pub const ARCHIVE_MACOS_ARM64: &'static str = "bun-docs-mcp-proxy-macos-aarch64.tar.gz";

pub const ARCHIVE_WINDOWS_X64: &'static str = "bun-docs-mcp-proxy-windows-x86_64.zip";

pub const ARCHIVE_WINDOWS_ARM64: &'static str = "bun-docs-mcp-proxy-windows-aarch64.zip";

/// The binary's file name on Linux and macOS.
pub const BINARY_NAME_UNIX: &'static str = "bun-docs-mcp-proxy";

/// The binary's file name on Windows.
pub const BINARY_NAME_WINDOWS: &'static str = "bun-docs-mcp-proxy.exe";

/// Where the message for an unsupported platform sends its reader.
pub const ISSUES_URL: &'static str = "https://github.com/kjanat/bun-docs-mcp-zed/issues";

/// The host's operating system, as the editor reports it.
#[derive(PartialEq, Eq, Structural, Clone, Copy, Debug)]
pub enum Os {
    Mac,
    Linux,
    Windows,
}

/// The host's processor architecture, as the editor reports it.
#[derive(PartialEq, Eq, Structural, Clone, Copy, Debug)]
pub enum Architecture {
    Aarch64,
    X86,
    X8664,
}

/// The text of `os` in the editor's debug form.
pub open spec fn os_label(os: Os) -> Seq<char> {
    match os {
        Os::Mac => "Os::Mac"@,
        Os::Linux => "Os::Linux"@,
        Os::Windows => "Os::Windows"@,
    }
}

/// The text of `arch` in the editor's debug form.
pub open spec fn arch_label(arch: Architecture) -> Seq<char> {
    match arch {
        Architecture::Aarch64 => "Architecture::Aarch64"@,
        Architecture::X86 => "Architecture::X86"@,
        Architecture::X8664 => "Architecture::X8664"@,
    }
}

/// The release archive built for a platform; none for 32-bit x86.
pub open spec fn archive_of(os: Os, arch: Architecture) -> Option<Seq<char>> {
    match (os, arch) {
        (Os::Linux, Architecture::X8664) => Some(ARCHIVE_LINUX_X64@),
        (Os::Linux, Architecture::Aarch64) => Some(ARCHIVE_LINUX_ARM64@),
        (Os::Mac, Architecture::X8664) => Some(ARCHIVE_MACOS_X64@),
        (Os::Mac, Architecture::Aarch64) => Some(ARCHIVE_MACOS_ARM64@),
        (Os::Windows, Architecture::X8664) => Some(ARCHIVE_WINDOWS_X64@),
        (Os::Windows, Architecture::Aarch64) => Some(ARCHIVE_WINDOWS_ARM64@),
        _ => None,
    }
}

/// The message for a platform that has no archive.
pub open spec fn unsupported_text(os: Os, arch: Architecture) -> Seq<char> {
    "Unsupported platform: "@ + os_label(os) + " "@ + arch_label(arch)
        + " - please file an issue at "@ + ISSUES_URL@
}

/// `r` is what the archive lookup answers for a platform.
pub open spec fn archive_answer(r: Result<&'static str, String>, os: Os, arch: Architecture) -> bool {
    match archive_of(os, arch) {
        Some(a) => r matches Ok(name) && name@ == a,
        None => r matches Err(m) && m@ == unsupported_text(os, arch),
    }
}

/// The binary's file name on `os`.
pub open spec fn binary_name_of(os: Os) -> Seq<char> {
    if os == Os::Windows {
        BINARY_NAME_WINDOWS@
    } else {
        BINARY_NAME_UNIX@
    }
}

/// A version as its directory is named: with a leading `v`.
pub open spec fn version_tag(version: Seq<char>) -> Seq<char> {
    if starts_with_char(version, 'v') {
        version
    } else {
        seq!['v'] + version
    }
}

/// A version as releases are compared: without its leading `v`s.
pub open spec fn bare_version(version: Seq<char>) -> Seq<char> {
    strip_leading(version, 'v')
}

/// The text of the path that `std::path::Path::join` makes of `base` and
/// `part` on the target the crate is built for.
pub uninterp spec fn path_joined(base: Seq<char>, part: Seq<char>) -> Seq<char>;

/// Relies on `std::path::Path::join`: `part` added to `base` as one more
/// path component, with the platform's separator.
#[verifier::external_body]
fn join_path(base: &str, part: &str) -> (r: String)
    ensures
        r@ == path_joined(base@, part@),
{
    std::path::Path::new(base).join(part).to_string_lossy().into_owned()
}

/// How a release archive is unpacked.
#[derive(PartialEq, Eq, Structural, Clone, Copy, Debug)]
pub enum ArchiveKind {
    Zip,
    GzipTar,
    Uncompressed,
}

pub open spec fn archive_kind_of(name: Seq<char>) -> ArchiveKind {
    if ends_with(name, ".zip"@) {
        ArchiveKind::Zip
    } else if ends_with(name, ".tar.gz"@) {
        ArchiveKind::GzipTar
    } else {
        ArchiveKind::Uncompressed
    }
}

/// What an entry of the version directory is.
#[derive(PartialEq, Eq, Structural, Clone, Copy, Debug)]
pub enum EntryKind {
    Directory,
    File,
    Other,
}

/// Whether a cleanup removes an entry: every plain file (a binary from before
/// versions had directories), and every version directory but the kept one.
pub open spec fn removed_by_cleanup(kind: EntryKind, name: Option<Seq<char>>, keep_version: Seq<char>) -> bool {
    match kind {
        EntryKind::File => true,
        EntryKind::Directory => match name {
            Some(n) => starts_with_char(n, 'v') && n != version_tag(keep_version),
            None => false,
        },
        EntryKind::Other => false,
    }
}

/// One downloadable file of a release.
#[derive(Debug)]
pub struct Asset {
    pub name: String,
    pub download_url: String,
}

/// The index of the first asset named `wanted`, if any.
pub open spec fn first_asset_named(assets: Seq<Asset>, wanted: Seq<char>) -> Option<usize> {
    if exists|i: int| 0 <= i < assets.len() && #[trigger] assets[i].name@ == wanted {
        let i = choose|i: int|
            0 <= i < assets.len() && #[trigger] assets[i].name@ == wanted && forall|j: int|
                0 <= j < i ==> assets[j].name@ != wanted;
        Some(i as usize)
    } else {
        None
    }
}

/// The archive to fetch for the host.
#[derive(Debug)]
pub struct Download {
    pub archive_name: String,
    pub url: String,
    pub kind: ArchiveKind,
}

/// Everything that installing one release's binary is computed from.
#[derive(Debug)]
pub struct InstallPlan {
    /// The release's version without leading `v`s.
    pub version: String,
    /// The directory that holds this version.
    pub version_dir: String,
    /// Where the binary stands once unpacked.
    pub binary_path: String,
    /// Where the archive is unpacked, relative to the work directory.
    pub extract_path: String,
    /// Whether the binary must be made executable once unpacked.
    pub executable_bit: bool,
    /// The archive to fetch, or why there is none.
    pub download: Result<Download, String>,
}

/// The message for a release that lacks the host's archive.
pub open spec fn missing_asset_text(archive: Seq<char>, release_version: Seq<char>) -> Seq<char> {
    "No "@ + archive + " asset found in release "@ + release_version + " for "@ + PROXY_REPO@
}

/// `p` is the plan for installing release `release_version` with `assets`
/// on `work_dir`, for a host with `os` and `arch`.
pub open spec fn plan_matches(
    p: InstallPlan,
    work_dir: Seq<char>,
    release_version: Seq<char>,
    assets: Seq<Asset>,
    os: Os,
    arch: Architecture,
) -> bool {
    let version = bare_version(release_version);
    let dir = path_joined(path_joined(work_dir, PROXY_DIR@), version_tag(version));
    &&& p.version@ == version
    &&& p.version_dir@ == dir
    &&& p.binary_path@ == path_joined(dir, binary_name_of(os))
    &&& p.extract_path@ == PROXY_DIR@ + "/"@ + version_tag(version)
    &&& p.executable_bit == (os != Os::Windows)
    &&& match archive_of(os, arch) {
        None => p.download matches Err(m) && m@ == unsupported_text(os, arch),
        Some(a) => match first_asset_named(assets, a) {
            Some(i) => p.download matches Ok(d) && d.archive_name@ == a && d.url
                == assets[i as int].download_url && d.kind == archive_kind_of(a),
            None => p.download matches Err(m) && m@ == missing_asset_text(a, release_version),
        },
    }
}

/// What the extension remembers of the binary during one editor session.
#[derive(Debug)]
pub struct BunDocsMcpExtension {
    pub cached_binary_path: Option<String>,
    pub current_version: Option<String>,
    /// Whether the releases were consulted in this session.
    pub update_checked_this_session: bool,
}

/// The binary settled on earlier in the session, once the releases were consulted.
pub open spec fn session_binary(ext: BunDocsMcpExtension) -> Option<String> {
    if ext.update_checked_this_session {
        ext.cached_binary_path
    } else {
        None
    }
}

/// The known binary, where its version is `latest_version` once leading `v`s
/// are set aside on both sides.
pub open spec fn version_binary(ext: BunDocsMcpExtension, latest_version: Seq<char>) -> Option<String> {
    match (ext.cached_binary_path, ext.current_version) {
        (Some(p), Some(v)) => if bare_version(v@) == bare_version(latest_version) {
            Some(p)
        } else {
            None
        },
        _ => None,
    }
}

impl BunDocsMcpExtension {
    /// A session that knows of no binary yet.
    pub fn new() -> (r: Self)
        ensures
            r.cached_binary_path is None,
            r.current_version is None,
            !r.update_checked_this_session,
    {
        BunDocsMcpExtension {
            cached_binary_path: None,
            current_version: None,
            update_checked_this_session: false,
        }
    }

    /// The release archive for a platform, or the message that it has none.
    pub fn archive_name_for(os: Os, arch: Architecture) -> (r: Result<&'static str, String>)
        ensures
            archive_answer(r, os, arch),
    {
        match (os, arch) {
            (Os::Linux, Architecture::X8664) => Ok(ARCHIVE_LINUX_X64),
            (Os::Linux, Architecture::Aarch64) => Ok(ARCHIVE_LINUX_ARM64),
            (Os::Mac, Architecture::X8664) => Ok(ARCHIVE_MACOS_X64),
            (Os::Mac, Architecture::Aarch64) => Ok(ARCHIVE_MACOS_ARM64),
            (Os::Windows, Architecture::X8664) => Ok(ARCHIVE_WINDOWS_X64),
            (Os::Windows, Architecture::Aarch64) => Ok(ARCHIVE_WINDOWS_ARM64),
            _ => {
                let mut m = String::from_str("Unsupported platform: ");
                m.append(Self::os_text(os));
                m.append(" ");
                m.append(Self::arch_text(arch));
                m.append(" - please file an issue at ");
                m.append(ISSUES_URL);
                Err(m)
            },
        }
    }

    fn os_text(os: Os) -> (r: &'static str)
        ensures
            r@ == os_label(os),
    {
        match os {
            Os::Mac => "Os::Mac",
            Os::Linux => "Os::Linux",
            Os::Windows => "Os::Windows",
        }
    }

    fn arch_text(arch: Architecture) -> (r: &'static str)
        ensures
            r@ == arch_label(arch),
    {
        match arch {
            Architecture::Aarch64 => "Architecture::Aarch64",
            Architecture::X86 => "Architecture::X86",
            Architecture::X8664 => "Architecture::X8664",
        }
    }

    /// The binary's file name on `os`.
    pub fn binary_name_for(os: Os) -> (r: &'static str)
        ensures
            r@ == binary_name_of(os),
    {
        if os == Os::Windows {
            BINARY_NAME_WINDOWS
        } else {
            BINARY_NAME_UNIX
        }
    }

    /// `version` with a leading `v`, added where it has none.
    pub fn version_tag(version: &str) -> (r: String)
        ensures
            r@ == version_tag(version@),
    {
        if str_starts_with_char(version, 'v') {
            String::from_str(version)
        } else {
            let mut t = String::from_str("v");
            t.append(version);
            proof {
                reveal_strlit("v");
            }
            t
        }
    }

    /// The directory of one version of the binary: the version's tag under
    /// the proxy directory under `work_dir`.
    pub fn get_version_dir(work_dir: &str, version: &str) -> (r: String)
        ensures
            r@ == path_joined(path_joined(work_dir@, PROXY_DIR@), version_tag(version@)),
    {
        let base = join_path(work_dir, PROXY_DIR);
        let tag = Self::version_tag(version);
        join_path(base.as_str(), tag.as_str())
    }

    /// Where, relative to the work directory, one version's archive is unpacked.
    pub fn extract_path(version: &str) -> (r: String)
        ensures
            r@ == PROXY_DIR@ + "/"@ + version_tag(version@),
    {
        let mut p = String::from_str(PROXY_DIR);
        p.append("/");
        let tag = Self::version_tag(version);
        p.append(tag.as_str());
        p
    }

    /// `version` without its leading `v`s.
    pub fn normalize_version(version: &str) -> (r: &str)
        ensures
            r@ == bare_version(version@),
    {
        str_strip_leading(version, 'v')
    }

    /// How the archive named `name` is unpacked.
    pub fn archive_kind(name: &str) -> (r: ArchiveKind)
        ensures
            r == archive_kind_of(name@),
    {
        if str_ends_with(name, ".zip") {
            ArchiveKind::Zip
        } else if str_ends_with(name, ".tar.gz") {
            ArchiveKind::GzipTar
        } else {
            ArchiveKind::Uncompressed
        }
    }

    /// Whether a cleanup that keeps `keep_version` removes an entry of the
    /// proxy directory; `name` is `None` where the entry's name is not text.
    pub fn removed_by_cleanup(kind: EntryKind, name: Option<&str>, keep_version: &str) -> (r: bool)
        ensures
            r == removed_by_cleanup(
                kind,
                match name {
                    Some(n) => Some(n@),
                    None => None,
                },
                keep_version@,
            ),
    {
        match kind {
            EntryKind::File => true,
            EntryKind::Directory => match name {
                Some(n) => {
                    let keep = Self::version_tag(keep_version);
                    str_starts_with_char(n, 'v') && !str_eq(n, keep.as_str())
                },
                None => false,
            },
            EntryKind::Other => false,
        }
    }

    /// The index of the first asset named `wanted`.
    pub fn find_asset(assets: &Vec<Asset>, wanted: &str) -> (r: Option<usize>)
        ensures
            r == first_asset_named(assets@, wanted@),
            r matches Some(i) ==> i < assets@.len() && assets@[i as int].name@ == wanted@,
    {
        let mut i: usize = 0;
        while i < assets.len()
            invariant
                i <= assets@.len(),
                forall|j: int| 0 <= j < i ==> assets@[j].name@ != wanted@,
            decreases assets@.len() - i,
        {
            if str_eq(assets[i].name.as_str(), wanted) {
                return Some(i);
            }
            i += 1;
        }
        None
    }

    /// What installing the binary of release `release_version` on `work_dir`
    /// takes, for a host with `os` and `arch` and a release with `assets`.
    pub fn plan_install(
        work_dir: &str,
        release_version: &str,
        assets: &Vec<Asset>,
        os: Os,
        arch: Architecture,
    ) -> (r: InstallPlan)
        ensures
            plan_matches(r, work_dir@, release_version@, assets@, os, arch),
    {
        let version = Self::normalize_version(release_version);
        let version_dir = Self::get_version_dir(work_dir, version);
        let binary_path = join_path(version_dir.as_str(), Self::binary_name_for(os));
        let extract_path = Self::extract_path(version);
        let download = match Self::archive_name_for(os, arch) {
            Err(m) => Err(m),
            Ok(archive) => match Self::find_asset(assets, archive) {
                Some(i) => Ok(
                    Download {
                        archive_name: String::from_str(archive),
                        url: assets[i].download_url.clone(),
                        kind: Self::archive_kind(archive),
                    },
                ),
                None => {
                    let mut m = String::from_str("No ");
                    m.append(archive);
                    m.append(" asset found in release ");
                    m.append(release_version);
                    m.append(" for ");
                    m.append(PROXY_REPO);
                    Err(m)
                },
            },
        };
        InstallPlan {
            version: String::from_str(version),
            version_dir,
            binary_path,
            extract_path,
            executable_bit: os != Os::Windows,
            download,
        }
    }

    /// Whether `id` names this extension's context server.
    pub fn serves(id: &str) -> (r: bool)
        ensures
            r == (id@ == CONTEXT_SERVER_ID@),
    {
        str_eq(id, CONTEXT_SERVER_ID)
    }

    /// The binary that an earlier check in this session settled on, if any;
    /// it may be used again only while it still exists.
    pub fn session_binary(&self) -> (r: Option<String>)
        ensures
            r == session_binary(*self),
    {
        if self.update_checked_this_session {
            self.cached_binary_path.clone()
        } else {
            None
        }
    }

    /// Records that the releases were consulted in this session.
    pub fn mark_checked(&mut self)
        ensures
            final(self).update_checked_this_session,
            final(self).cached_binary_path == old(self).cached_binary_path,
            final(self).current_version == old(self).current_version,
    {
        self.update_checked_this_session = true;
    }

    /// The known binary, where it is of the release `latest_version`
    /// (compared without leading `v`s); it may be used only while it exists.
    pub fn binary_of_version(&self, latest_version: &str) -> (r: Option<String>)
        ensures
            r == version_binary(*self, latest_version@),
    {
        match (&self.cached_binary_path, &self.current_version) {
            (Some(p), Some(v)) => {
                let current = Self::normalize_version(v.as_str());
                let latest = Self::normalize_version(latest_version);
                if str_eq(current, latest) {
                    Some(p.clone())
                } else {
                    None
                }
            },
            _ => None,
        }
    }

    /// Records the binary now in use and its version.
    pub fn record_binary(&mut self, path: String, version: &str)
        ensures
            final(self).cached_binary_path == Some(path),
            final(self).current_version matches Some(v) && v@ == version@,
            final(self).update_checked_this_session == old(self).update_checked_this_session,
    {
        self.cached_binary_path = Some(path);
        self.current_version = Some(String::from_str(version));
    }
}

} // verus!
