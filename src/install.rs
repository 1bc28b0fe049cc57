//! Finding or installing the relay binary, as a conversation with the host.
//!
//! Each step names one thing the host must do or tell (does a path exist,
//! what is the latest release, download this archive); the host's reply
//! decides the next step, until the binary's path, or why there is none.

use vstd::prelude::*;
use vstd::string::*;

use crate::extension::{
    plan_matches, session_binary, version_binary, ArchiveKind, Architecture, Asset,
    BunDocsMcpExtension, InstallPlan, Os, PROXY_REPO,
};

verus! {

/// A release as the host reports it.
#[derive(Debug)]
pub struct Release {
    pub version: String,
    pub assets: Vec<Asset>,
}

/// What the host is asked to do or tell next.
#[derive(Debug)]
pub enum InstallRequest {
    /// Whether anything stands at this path.
    Exists(String),
    /// The work directory.
    WorkDir,
    /// The latest release of the binary's repository.
    LatestRelease,
    /// Whether what stands at this path is a plain file.
    IsFile(String),
    /// Create this directory and its parents.
    CreateDir(String),
    /// Download an archive and unpack it, relative to the work directory.
    Download { url: String, extract_path: String, kind: ArchiveKind },
    /// Make this file executable.
    MakeExecutable(String),
    /// Remove from the work directory what a cleanup that keeps this version removes.
    Cleanup { work_dir: String, keep_version: String },
    /// Nothing more: the binary's path, or why there is none.
    Done(Result<String, String>),
}

/// The host's reply to a request.
#[derive(Debug)]
pub enum HostReply {
    Exists(bool),
    WorkDir(Result<String, String>),
    Release(Result<Release, String>),
    IsFile(Result<bool, String>),
    Created(Result<(), String>),
    Downloaded(Result<(), String>),
    MadeExecutable(Result<(), String>),
    CleanedUp,
}

/// Where the conversation stands: which reply it waits for, and what it has
/// learnt so far.
#[derive(Debug)]
pub enum InstallStage {
    /// Waits to hear whether the binary found earlier in the session still exists.
    CheckSessionBinary { path: String },
    /// Waits for the work directory.
    LocateWorkDir,
    /// Waits for the latest release.
    FetchRelease { work_dir: String },
    /// Waits to hear whether the known binary of the latest version still exists.
    CheckVersionBinary { work_dir: String, release: Release, path: String },
    /// Waits to hear whether the latest version's binary is on disk already.
    CheckInstalled { work_dir: String, plan: InstallPlan },
    /// Waits to hear whether what stands at the binary's path is a file.
    CheckIsFile { work_dir: String, plan: InstallPlan },
    /// Waits for the version directory to be created.
    CreateDir { work_dir: String, plan: InstallPlan },
    /// Waits for the archive to be downloaded and unpacked.
    Download { work_dir: String, plan: InstallPlan, archive_name: String, url: String },
    /// Waits to hear whether unpacking gave the binary.
    CheckExtracted { work_dir: String, plan: InstallPlan },
    /// Waits for the binary to be made executable.
    MakeExecutable { work_dir: String, plan: InstallPlan },
    /// Waits for the other versions to be removed.
    CleanUp { plan: InstallPlan },
    /// The conversation is over.
    Finished,
}

/// One conversation about the binary, for a host with `os` and `arch`.
#[derive(Debug)]
pub struct Install {
    pub stage: InstallStage,
    pub os: Os,
    pub arch: Architecture,
}

/// Whether the conversation, at `stage`, waits for a reply of the kind of `reply`.
pub open spec fn awaits(stage: InstallStage, reply: HostReply) -> bool {
    match stage {
        InstallStage::CheckSessionBinary { .. } => reply is Exists,
        InstallStage::LocateWorkDir => reply is WorkDir,
        InstallStage::FetchRelease { .. } => reply is Release,
        InstallStage::CheckVersionBinary { .. } => reply is Exists,
        InstallStage::CheckInstalled { .. } => reply is Exists,
        InstallStage::CheckIsFile { .. } => reply is IsFile,
        InstallStage::CreateDir { .. } => reply is Created,
        InstallStage::Download { .. } => reply is Downloaded,
        InstallStage::CheckExtracted { .. } => reply is Exists,
        InstallStage::MakeExecutable { .. } => reply is MadeExecutable,
        InstallStage::CleanUp { .. } => reply is CleanedUp,
        InstallStage::Finished => false,
    }
}

pub open spec fn work_dir_error(e: Seq<char>) -> Seq<char> {
    "Failed to get work directory: "@ + e
}

pub open spec fn release_error(e: Seq<char>) -> Seq<char> {
    "Failed to get latest release from "@ + PROXY_REPO@ + ": "@ + e
}

pub open spec fn metadata_error(e: Seq<char>) -> Seq<char> {
    "Failed to check binary metadata: "@ + e
}

pub open spec fn create_dir_error(e: Seq<char>) -> Seq<char> {
    "Failed to create version directory: "@ + e
}

pub open spec fn download_error(archive: Seq<char>, url: Seq<char>, e: Seq<char>) -> Seq<char> {
    "Failed to download "@ + archive + " from "@ + url + ": "@ + e
}

pub open spec fn not_extracted_error(path: Seq<char>) -> Seq<char> {
    "Binary not found at expected path after extraction: "@ + path
}

pub open spec fn chmod_error(path: Seq<char>, e: Seq<char>) -> Seq<char> {
    "Failed to make "@ + path + " executable: "@ + e
}

/// The conversation ends with the error `text`, and the session is unchanged.
pub open spec fn fails_with(
    ext0: BunDocsMcpExtension,
    new: InstallStage,
    ext1: BunDocsMcpExtension,
    req: InstallRequest,
    text: Seq<char>,
) -> bool {
    &&& new is Finished
    &&& ext1 == ext0
    &&& req matches InstallRequest::Done(Err(m)) && m@ == text
}

/// The conversation plans the install of `release` and asks whether its
/// binary is on disk already.
pub open spec fn plans(
    work_dir: String,
    release: Release,
    os: Os,
    arch: Architecture,
    new: InstallStage,
    req: InstallRequest,
) -> bool {
    new matches InstallStage::CheckInstalled { work_dir: w, plan } && w == work_dir
        && plan_matches(plan, work_dir@, release.version@, release.assets@, os, arch) && req
        == InstallRequest::Exists(plan.binary_path)
}

/// The conversation asks for the other versions to be removed.
pub open spec fn cleans_up(
    work_dir: String,
    plan: InstallPlan,
    new: InstallStage,
    req: InstallRequest,
) -> bool {
    new == (InstallStage::CleanUp { plan }) && req == (InstallRequest::Cleanup {
        work_dir,
        keep_version: plan.version,
    })
}

/// From `stage`, with session `ext0`, the reply `reply` leads to `new`, to
/// session `ext1`, and to the request `req`.
pub open spec fn advances(
    stage: InstallStage,
    os: Os,
    arch: Architecture,
    ext0: BunDocsMcpExtension,
    reply: HostReply,
    new: InstallStage,
    ext1: BunDocsMcpExtension,
    req: InstallRequest,
) -> bool {
    match stage {
        InstallStage::CheckSessionBinary { path } => ext1 == ext0 && if reply
            == HostReply::Exists(true) {
            new is Finished && req == InstallRequest::Done(Ok(path))
        } else {
            new is LocateWorkDir && req is WorkDir
        },
        InstallStage::LocateWorkDir => match reply {
            HostReply::WorkDir(Ok(w)) => ext1 == ext0 && new == (InstallStage::FetchRelease {
                work_dir: w,
            }) && req is LatestRelease,
            HostReply::WorkDir(Err(e)) => fails_with(ext0, new, ext1, req, work_dir_error(e@)),
            _ => false,
        },
        InstallStage::FetchRelease { work_dir } => match reply {
            HostReply::Release(Ok(release)) => {
                &&& ext1.update_checked_this_session
                &&& ext1.cached_binary_path == ext0.cached_binary_path
                &&& ext1.current_version == ext0.current_version
                &&& match version_binary(ext0, release.version@) {
                    Some(p) => new == (InstallStage::CheckVersionBinary {
                        work_dir,
                        release,
                        path: p,
                    }) && req == InstallRequest::Exists(p),
                    None => plans(work_dir, release, os, arch, new, req),
                }
            },
            HostReply::Release(Err(e)) => fails_with(ext0, new, ext1, req, release_error(e@)),
            _ => false,
        },
        InstallStage::CheckVersionBinary { work_dir, release, path } => ext1 == ext0 && if reply
            == HostReply::Exists(true) {
            new is Finished && req == InstallRequest::Done(Ok(path))
        } else {
            plans(work_dir, release, os, arch, new, req)
        },
        InstallStage::CheckInstalled { work_dir, plan } => ext1 == ext0 && if reply
            == HostReply::Exists(true) {
            new == (InstallStage::CheckIsFile { work_dir, plan }) && req == InstallRequest::IsFile(
                plan.binary_path,
            )
        } else {
            new == (InstallStage::CreateDir { work_dir, plan }) && req
                == InstallRequest::CreateDir(plan.version_dir)
        },
        InstallStage::CheckIsFile { work_dir, plan } => match reply {
            HostReply::IsFile(Ok(true)) => ext1 == ext0 && cleans_up(work_dir, plan, new, req),
            HostReply::IsFile(Ok(false)) => ext1 == ext0 && new == (InstallStage::CreateDir {
                work_dir,
                plan,
            }) && req == InstallRequest::CreateDir(plan.version_dir),
            HostReply::IsFile(Err(e)) => fails_with(ext0, new, ext1, req, metadata_error(e@)),
            _ => false,
        },
        InstallStage::CreateDir { work_dir, plan } => match reply {
            HostReply::Created(Ok(_)) => ext1 == ext0 && match plan.download {
                Ok(d) => new == (InstallStage::Download {
                    work_dir,
                    plan,
                    archive_name: d.archive_name,
                    url: d.url,
                }) && req == (InstallRequest::Download {
                    url: d.url,
                    extract_path: plan.extract_path,
                    kind: d.kind,
                }),
                Err(m) => new is Finished && req == InstallRequest::Done(Err(m)),
            },
            HostReply::Created(Err(e)) => fails_with(ext0, new, ext1, req, create_dir_error(e@)),
            _ => false,
        },
        InstallStage::Download { work_dir, plan, archive_name, url } => match reply {
            HostReply::Downloaded(Ok(_)) => ext1 == ext0 && new == (InstallStage::CheckExtracted {
                work_dir,
                plan,
            }) && req == InstallRequest::Exists(plan.binary_path),
            HostReply::Downloaded(Err(e)) => fails_with(
                ext0,
                new,
                ext1,
                req,
                download_error(archive_name@, url@, e@),
            ),
            _ => false,
        },
        InstallStage::CheckExtracted { work_dir, plan } => if reply == HostReply::Exists(true) {
            ext1 == ext0 && if plan.executable_bit {
                new == (InstallStage::MakeExecutable { work_dir, plan }) && req
                    == InstallRequest::MakeExecutable(plan.binary_path)
            } else {
                cleans_up(work_dir, plan, new, req)
            }
        } else {
            fails_with(ext0, new, ext1, req, not_extracted_error(plan.binary_path@))
        },
        InstallStage::MakeExecutable { work_dir, plan } => match reply {
            HostReply::MadeExecutable(Ok(_)) => ext1 == ext0 && cleans_up(work_dir, plan, new, req),
            HostReply::MadeExecutable(Err(e)) => fails_with(
                ext0,
                new,
                ext1,
                req,
                chmod_error(plan.binary_path@, e@),
            ),
            _ => false,
        },
        InstallStage::CleanUp { plan } => {
            &&& new is Finished
            &&& ext1.cached_binary_path == Some(plan.binary_path)
            &&& ext1.current_version matches Some(v) && v@ == plan.version@
            &&& ext1.update_checked_this_session == ext0.update_checked_this_session
            &&& req == InstallRequest::Done(Ok(plan.binary_path))
        },
        InstallStage::Finished => false,
    }
}

impl Install {
    /// Opens the conversation: first ask after the binary found earlier in
    /// the session, if there is one; else ask for the work directory.
    pub fn start(ext: &BunDocsMcpExtension, os: Os, arch: Architecture) -> (r: (Install, InstallRequest))
        ensures
            r.0.os == os,
            r.0.arch == arch,
            match session_binary(*ext) {
                Some(p) => r.0.stage == (InstallStage::CheckSessionBinary { path: p }) && r.1
                    == InstallRequest::Exists(p),
                None => r.0.stage is LocateWorkDir && r.1 is WorkDir,
            },
    {
        match ext.session_binary() {
            Some(p) => (
                Install { stage: InstallStage::CheckSessionBinary { path: p.clone() }, os, arch },
                InstallRequest::Exists(p),
            ),
            None => (Install { stage: InstallStage::LocateWorkDir, os, arch }, InstallRequest::WorkDir),
        }
    }

    /// Whether the conversation waits for a reply of the kind of `reply`.
    pub fn expects(&self, reply: &HostReply) -> (r: bool)
        ensures
            r == awaits(self.stage, *reply),
    {
        match (&self.stage, reply) {
            (InstallStage::CheckSessionBinary { .. }, HostReply::Exists(_)) => true,
            (InstallStage::LocateWorkDir, HostReply::WorkDir(_)) => true,
            (InstallStage::FetchRelease { .. }, HostReply::Release(_)) => true,
            (InstallStage::CheckVersionBinary { .. }, HostReply::Exists(_)) => true,
            (InstallStage::CheckInstalled { .. }, HostReply::Exists(_)) => true,
            (InstallStage::CheckIsFile { .. }, HostReply::IsFile(_)) => true,
            (InstallStage::CreateDir { .. }, HostReply::Created(_)) => true,
            (InstallStage::Download { .. }, HostReply::Downloaded(_)) => true,
            (InstallStage::CheckExtracted { .. }, HostReply::Exists(_)) => true,
            (InstallStage::MakeExecutable { .. }, HostReply::MadeExecutable(_)) => true,
            (InstallStage::CleanUp { .. }, HostReply::CleanedUp) => true,
            _ => false,
        }
    }

    fn plan_for(work_dir: String, release: Release, os: Os, arch: Architecture) -> (r: (
        InstallStage,
        InstallRequest,
    ))
        ensures
            plans(work_dir, release, os, arch, r.0, r.1),
    {
        let plan = BunDocsMcpExtension::plan_install(
            work_dir.as_str(),
            release.version.as_str(),
            &release.assets,
            os,
            arch,
        );
        let path = plan.binary_path.clone();
        (InstallStage::CheckInstalled { work_dir, plan }, InstallRequest::Exists(path))
    }

    fn clean_up(work_dir: String, plan: InstallPlan) -> (r: (InstallStage, InstallRequest))
        ensures
            cleans_up(work_dir, plan, r.0, r.1),
    {
        let keep_version = plan.version.clone();
        (InstallStage::CleanUp { plan }, InstallRequest::Cleanup { work_dir, keep_version })
    }

    fn fail(prefix: &str, detail: &str) -> (r: (InstallStage, InstallRequest))
        ensures
            r.0 is Finished,
            r.1 matches InstallRequest::Done(Err(m)) && m@ == prefix@ + detail@,
    {
        let mut m = String::from_str(prefix);
        m.append(detail);
        (InstallStage::Finished, InstallRequest::Done(Err(m)))
    }

    /// Takes the host's reply to the last request: the conversation moves on,
    /// the session learns what it must keep, and the next request comes back.
    pub fn advance(self, ext: &mut BunDocsMcpExtension, reply: HostReply) -> (r: (
        Install,
        InstallRequest,
    ))
        requires
            awaits(self.stage, reply),
        ensures
            r.0.os == self.os,
            r.0.arch == self.arch,
            advances(self.stage, self.os, self.arch, *old(ext), reply, r.0.stage, *final(ext), r.1),
    {
        let os = self.os;
        let arch = self.arch;
        let (stage, request) = match (self.stage, reply) {
            (InstallStage::CheckSessionBinary { path }, HostReply::Exists(found)) => {
                if found {
                    (InstallStage::Finished, InstallRequest::Done(Ok(path)))
                } else {
                    (InstallStage::LocateWorkDir, InstallRequest::WorkDir)
                }
            },
            (InstallStage::LocateWorkDir, HostReply::WorkDir(Ok(w))) => (
                InstallStage::FetchRelease { work_dir: w },
                InstallRequest::LatestRelease,
            ),
            (InstallStage::LocateWorkDir, HostReply::WorkDir(Err(e))) => Self::fail(
                "Failed to get work directory: ",
                e.as_str(),
            ),
            (InstallStage::FetchRelease { work_dir }, HostReply::Release(Ok(release))) => {
                ext.mark_checked();
                match ext.binary_of_version(release.version.as_str()) {
                    Some(p) => (
                        InstallStage::CheckVersionBinary { work_dir, release, path: p.clone() },
                        InstallRequest::Exists(p),
                    ),
                    None => Self::plan_for(work_dir, release, os, arch),
                }
            },
            (InstallStage::FetchRelease { .. }, HostReply::Release(Err(e))) => {
                let mut m = String::from_str("Failed to get latest release from ");
                m.append(PROXY_REPO);
                m.append(": ");
                m.append(e.as_str());
                (InstallStage::Finished, InstallRequest::Done(Err(m)))
            },
            (
                InstallStage::CheckVersionBinary { work_dir, release, path },
                HostReply::Exists(found),
            ) => {
                if found {
                    (InstallStage::Finished, InstallRequest::Done(Ok(path)))
                } else {
                    Self::plan_for(work_dir, release, os, arch)
                }
            },
            (InstallStage::CheckInstalled { work_dir, plan }, HostReply::Exists(found)) => {
                if found {
                    let path = plan.binary_path.clone();
                    (InstallStage::CheckIsFile { work_dir, plan }, InstallRequest::IsFile(path))
                } else {
                    let dir = plan.version_dir.clone();
                    (InstallStage::CreateDir { work_dir, plan }, InstallRequest::CreateDir(dir))
                }
            },
            (InstallStage::CheckIsFile { work_dir, plan }, HostReply::IsFile(Ok(is_file))) => {
                if is_file {
                    Self::clean_up(work_dir, plan)
                } else {
                    let dir = plan.version_dir.clone();
                    (InstallStage::CreateDir { work_dir, plan }, InstallRequest::CreateDir(dir))
                }
            },
            (InstallStage::CheckIsFile { .. }, HostReply::IsFile(Err(e))) => Self::fail(
                "Failed to check binary metadata: ",
                e.as_str(),
            ),
            (InstallStage::CreateDir { work_dir, plan }, HostReply::Created(Ok(_))) => {
                match &plan.download {
                    Ok(d) => {
                        let archive_name = d.archive_name.clone();
                        let url = d.url.clone();
                        let request = InstallRequest::Download {
                            url: d.url.clone(),
                            extract_path: plan.extract_path.clone(),
                            kind: d.kind,
                        };
                        (InstallStage::Download { work_dir, plan, archive_name, url }, request)
                    },
                    Err(m) => (InstallStage::Finished, InstallRequest::Done(Err(m.clone()))),
                }
            },
            (InstallStage::CreateDir { .. }, HostReply::Created(Err(e))) => Self::fail(
                "Failed to create version directory: ",
                e.as_str(),
            ),
            (InstallStage::Download { work_dir, plan, .. }, HostReply::Downloaded(Ok(_))) => {
                let path = plan.binary_path.clone();
                (InstallStage::CheckExtracted { work_dir, plan }, InstallRequest::Exists(path))
            },
            (
                InstallStage::Download { archive_name, url, .. },
                HostReply::Downloaded(Err(e)),
            ) => {
                let mut m = String::from_str("Failed to download ");
                m.append(archive_name.as_str());
                m.append(" from ");
                m.append(url.as_str());
                m.append(": ");
                m.append(e.as_str());
                (InstallStage::Finished, InstallRequest::Done(Err(m)))
            },
            (InstallStage::CheckExtracted { work_dir, plan }, HostReply::Exists(found)) => {
                if !found {
                    Self::fail(
                        "Binary not found at expected path after extraction: ",
                        plan.binary_path.as_str(),
                    )
                } else if plan.executable_bit {
                    let path = plan.binary_path.clone();
                    (
                        InstallStage::MakeExecutable { work_dir, plan },
                        InstallRequest::MakeExecutable(path),
                    )
                } else {
                    Self::clean_up(work_dir, plan)
                }
            },
            (
                InstallStage::MakeExecutable { work_dir, plan },
                HostReply::MadeExecutable(Ok(_)),
            ) => Self::clean_up(work_dir, plan),
            (InstallStage::MakeExecutable { plan, .. }, HostReply::MadeExecutable(Err(e))) => {
                let mut m = String::from_str("Failed to make ");
                m.append(plan.binary_path.as_str());
                m.append(" executable: ");
                m.append(e.as_str());
                (InstallStage::Finished, InstallRequest::Done(Err(m)))
            },
            (InstallStage::CleanUp { plan }, HostReply::CleanedUp) => {
                let path = plan.binary_path.clone();
                ext.record_binary(plan.binary_path, plan.version.as_str());
                (InstallStage::Finished, InstallRequest::Done(Ok(path)))
            },
            (_, _) => {
                proof {
                    assert(false);
                }
                (InstallStage::Finished, InstallRequest::Done(Ok(String::new())))
            },
        };
        (Install { stage, os, arch }, request)
    }
}

} // verus!
