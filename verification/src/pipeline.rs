use vstd::prelude::*;

use crate::decide::should_update;
use crate::errors::InstallError;
use crate::fetch::{
    archive_format, download_url, metadata_url, spec_archive_format, spec_download_url,
    spec_metadata_url, ArchiveFormat,
};
use crate::launch::{
    build_args, join_path, launch_args_ok, server_executable, spec_join_path,
    spec_server_executable,
};
use crate::ledger::read_ledger;
use crate::platform::{arch_from, os_from, resolve_arch, resolve_os, Arch, Os, Platform};
use crate::release::ReleaseInfo;
use crate::version::{semver_ok, semver_precedes, SemVer};

verus! {

/// The configuration the host hands in with the initialization event.
#[derive(Debug, PartialEq)]
pub struct Settings {
    /// A user-supplied server location; a non-empty one bypasses the whole
    /// fetch-and-install pipeline.
    pub server_path: Option<String>,
    /// Extra server arguments appended after the fixed base arguments.
    pub server_args: Vec<String>,
}

/// What the environment answered when queried; `None` stands for a query
/// that failed.
#[derive(Debug, PartialEq)]
pub struct EnvInfo {
    /// The raw processor architecture string.
    pub arch: Option<String>,
    /// The raw operating-system string.
    pub os: Option<String>,
    /// The working-directory locator the installation unpacks into.
    pub dir: Option<String>,
}

/// What the pipeline carries from step to step once the platform is
/// resolved.
#[derive(Debug, PartialEq)]
pub struct Ctx {
    pub platform: Platform,
    /// The working-directory locator.
    pub dir: String,
    /// The finished argument list for the launch descriptor.
    pub args: Vec<String>,
}

/// Where one installation run stands. Each run walks from `Idle` to `Done`
/// or stops in `Failed`.
#[derive(Debug, PartialEq)]
pub enum Phase {
    Idle,
    AwaitingMetadata { ctx: Ctx },
    AwaitingLedger { ctx: Ctx, tag: String },
    AwaitingLedgerInit { ctx: Ctx, tag: String },
    AwaitingArchive { ctx: Ctx, tag: String },
    AwaitingExtract { ctx: Ctx, tag: String },
    AwaitingLedgerSave { ctx: Ctx },
    Done,
    Failed { error: InstallError },
}

/// How the release metadata request ended.
#[derive(Debug, PartialEq)]
pub enum FetchOutcome {
    Fetched { release: ReleaseInfo },
    FetchFailed,
    DecodeFailed,
}

/// How unpacking the downloaded archive ended.
#[derive(Clone, Copy, Debug, PartialEq, Eq, Structural)]
pub enum ExtractOutcome {
    Unpacked,
    OpenFailed,
    UnpackFailed,
}

/// What the host reports back to the pipeline.
#[derive(Debug, PartialEq)]
pub enum Event {
    /// The initialization request arrived, with its settings and the
    /// environment answers.
    Begin { settings: Settings, env: EnvInfo },
    /// The release metadata request ended.
    Metadata { outcome: FetchOutcome },
    /// The ledger was looked up: whether the working directory exists, and
    /// the marker text if the marker file exists.
    LedgerLoaded { dir_exists: bool, marker: Option<String> },
    /// Creating the working directory and the initial marker ended.
    LedgerInitialized { ok: bool },
    /// The archive request came back with this status code.
    ArchiveFetched { status: u16 },
    /// Unpacking the archive ended.
    ArchiveExtracted { extraction: ExtractOutcome },
    /// Writing the observed tag to the marker file ended.
    LedgerSaved { ok: bool },
}

/// What the host must do next.
#[derive(Debug, PartialEq)]
pub enum Action {
    /// Start the language server at `path` with `args`; the run is over.
    StartServer { path: String, args: Vec<String> },
    /// Request the release metadata from `url`.
    FetchMetadata { url: String },
    /// Look the working directory and the marker file up.
    LoadLedger,
    /// Create the working directory and write `text` to the marker file.
    InitializeLedger { text: String },
    /// Download the archive at `url` and keep its bytes; it is in `format`.
    Download { url: String, format: ArchiveFormat },
    /// Unpack the downloaded bytes, read as `format`, into the working
    /// directory.
    ExtractArchive { format: ArchiveFormat },
    /// Write `text` to the marker file.
    SaveLedger { text: String },
    /// The run failed; nothing more happens beyond logging the error.
    Report { error: InstallError },
}

/// Which events a phase can take.
pub open spec fn accepts(phase: Phase, event: Event) -> bool {
    match (phase, event) {
        (Phase::Idle, Event::Begin { .. }) => true,
        (Phase::AwaitingMetadata { .. }, Event::Metadata { .. }) => true,
        (Phase::AwaitingLedger { .. }, Event::LedgerLoaded { .. }) => true,
        (Phase::AwaitingLedgerInit { .. }, Event::LedgerInitialized { .. }) => true,
        (Phase::AwaitingArchive { .. }, Event::ArchiveFetched { .. }) => true,
        (Phase::AwaitingExtract { .. }, Event::ArchiveExtracted { .. }) => true,
        (Phase::AwaitingLedgerSave { .. }, Event::LedgerSaved { .. }) => true,
        _ => false,
    }
}

/// The step ended the run with `e`: the phase is terminal and the action
/// reports the error.
pub open spec fn failed_with(r: (Phase, Action), e: InstallError) -> bool {
    r.0 == (Phase::Failed { error: e }) && r.1 == (Action::Report { error: e })
}

/// The architecture the environment answer resolves to, if any.
pub open spec fn env_arch(env: EnvInfo) -> Option<Arch> {
    match env.arch {
        Some(s) => arch_from(s@),
        None => None,
    }
}

/// The operating system the environment answer resolves to, if any.
pub open spec fn env_os(env: EnvInfo) -> Option<Os> {
    match env.os {
        Some(s) => os_from(s@),
        None => None,
    }
}

/// The step answered the override path: the run is over and the server
/// starts at the user-supplied location, handed on verbatim.
pub open spec fn override_ok(path: Seq<char>, settings: Settings, r: (Phase, Action)) -> bool {
    &&& r.0 is Done
    &&& r.1 matches Action::StartServer { path: p, args } && p@ == path && launch_args_ok(
        args@,
        settings.server_args@,
    )
}

/// The step entered the pipeline: the platform resolved, or the run failed
/// on the exact unsupported piece; on success the metadata request is next.
pub open spec fn proceed_ok(settings: Settings, env: EnvInfo, r: (Phase, Action)) -> bool {
    match env_arch(env) {
        None => failed_with(r, InstallError::UnsupportedArchitecture),
        Some(a) => match env_os(env) {
            None => failed_with(r, InstallError::UnsupportedPlatform),
            Some(o) => match env.dir {
                None => failed_with(r, InstallError::FilesystemFailed),
                Some(dir) => {
                    &&& r.0 matches Phase::AwaitingMetadata { ctx } && ctx.platform == (Platform {
                        arch: a,
                        os: o,
                    }) && ctx.dir == dir && launch_args_ok(ctx.args@, settings.server_args@)
                    &&& r.1 matches Action::FetchMetadata { url } && url@ == spec_metadata_url()
                },
            },
        },
    }
}

/// The step requested the archive for `tag` on the platform of `ctx`.
pub open spec fn download_ok(ctx: Ctx, tag: String, r: (Phase, Action)) -> bool {
    &&& r.0 matches Phase::AwaitingArchive { ctx: c, tag: t } && c == ctx && t == tag
    &&& r.1 matches Action::Download { url, format } && url@ == spec_download_url(
        tag@,
        ctx.platform,
    ) && format == spec_archive_format(ctx.platform.os)
}

/// The step requested the ledger write of the observed `tag`.
pub open spec fn save_ok(ctx: Ctx, tag: String, r: (Phase, Action)) -> bool {
    &&& r.0 matches Phase::AwaitingLedgerSave { ctx: c } && c == ctx
    &&& r.1 matches Action::SaveLedger { text } && text == tag
}

/// The update decision on an existing working directory: a remote tag that
/// is no semantic version is fatal; otherwise the archive is fetched exactly
/// when the installed version sorts strictly above the tag, and the ledger
/// is rewritten either way.
pub open spec fn decide_ok(ctx: Ctx, tag: String, installed: Seq<char>, r: (Phase, Action)) -> bool {
    if !semver_ok(tag@) {
        failed_with(r, InstallError::MetadataDecodeFailed)
    } else if semver_precedes(tag@, installed) {
        download_ok(ctx, tag, r)
    } else {
        save_ok(ctx, tag, r)
    }
}

/// What `step` returns, arm by arm of the state machine.
pub open spec fn step_ok(phase: Phase, event: Event, r: (Phase, Action)) -> bool {
    match (phase, event) {
        (Phase::Idle, Event::Begin { settings, env }) => match settings.server_path {
            Some(p) => {
                if p@.len() > 0 {
                    override_ok(p@, settings, r)
                } else {
                    proceed_ok(settings, env, r)
                }
            },
            None => proceed_ok(settings, env, r),
        },
        (Phase::AwaitingMetadata { ctx }, Event::Metadata { outcome }) => match outcome {
            FetchOutcome::Fetched { release } => {
                &&& r.0 matches Phase::AwaitingLedger { ctx: c, tag } && c == ctx && tag
                    == release.tag_name
                &&& r.1 is LoadLedger
            },
            FetchOutcome::FetchFailed => failed_with(r, InstallError::MetadataFetchFailed),
            FetchOutcome::DecodeFailed => failed_with(r, InstallError::MetadataDecodeFailed),
        },
        (Phase::AwaitingLedger { ctx, tag }, Event::LedgerLoaded { dir_exists, marker }) => {
            if !dir_exists {
                &&& r.0 matches Phase::AwaitingLedgerInit { ctx: c, tag: t } && c == ctx && t
                    == tag
                &&& r.1 matches Action::InitializeLedger { text } && text@ == "0.0.0"@
            } else {
                match marker {
                    Some(m) => {
                        if semver_ok(m@) {
                            decide_ok(ctx, tag, m@, r)
                        } else {
                            failed_with(r, InstallError::LedgerParseFailed)
                        }
                    },
                    None => decide_ok(ctx, tag, "0.0.0"@, r),
                }
            }
        },
        (Phase::AwaitingLedgerInit { ctx, tag }, Event::LedgerInitialized { ok }) => {
            if ok {
                download_ok(ctx, tag, r)
            } else {
                failed_with(r, InstallError::FilesystemFailed)
            }
        },
        (Phase::AwaitingArchive { ctx, tag }, Event::ArchiveFetched { status }) => {
            if status == 200 {
                &&& r.0 matches Phase::AwaitingExtract { ctx: c, tag: t } && c == ctx && t == tag
                &&& r.1 matches Action::ExtractArchive { format } && format == spec_archive_format(
                    ctx.platform.os,
                )
            } else {
                failed_with(r, InstallError::DownloadFailed(status))
            }
        },
        (Phase::AwaitingExtract { ctx, tag }, Event::ArchiveExtracted { extraction }) => match extraction {
            ExtractOutcome::Unpacked => save_ok(ctx, tag, r),
            ExtractOutcome::OpenFailed => failed_with(r, InstallError::ArchiveOpenFailed),
            ExtractOutcome::UnpackFailed => failed_with(r, InstallError::ArchiveExtractFailed),
        },
        (Phase::AwaitingLedgerSave { ctx }, Event::LedgerSaved { ok }) => {
            if ok {
                &&& r.0 is Done
                &&& r.1 matches Action::StartServer { path, args } && path@ == spec_join_path(
                    ctx.dir@,
                    spec_server_executable(ctx.platform.os),
                ) && args == ctx.args
            } else {
                failed_with(r, InstallError::FilesystemFailed)
            }
        },
        _ => true,
    }
}

/// End the run with `e`.
fn fail(e: InstallError) -> (r: (Phase, Action))
    ensures
        failed_with(r, e),
{
    (Phase::Failed { error: e }, Action::Report { error: e })
}

/// Take the initialization event: answer the override path at once, or
/// resolve the platform and ask for the release metadata.
fn begin_step(settings: Settings, env: EnvInfo) -> (r: (Phase, Action))
    ensures
        step_ok(Phase::Idle, Event::Begin { settings, env }, r),
{
    let Settings { server_path, mut server_args } = settings;
    let args = build_args(&mut server_args);
    match server_path {
        Some(p) => {
            if !p.as_str().is_empty() {
                (Phase::Done, Action::StartServer { path: p, args })
            } else {
                begin_proceed(env, args)
            }
        },
        None => begin_proceed(env, args),
    }
}

/// Resolve the platform and the working directory, and ask for the release
/// metadata.
fn begin_proceed(env: EnvInfo, args: Vec<String>) -> (r: (Phase, Action))
    ensures
        match env_arch(env) {
            None => failed_with(r, InstallError::UnsupportedArchitecture),
            Some(a) => match env_os(env) {
                None => failed_with(r, InstallError::UnsupportedPlatform),
                Some(o) => match env.dir {
                    None => failed_with(r, InstallError::FilesystemFailed),
                    Some(dir) => r.0 == (Phase::AwaitingMetadata {
                        ctx: Ctx { platform: Platform { arch: a, os: o }, dir, args },
                    }) && (r.1 matches Action::FetchMetadata { url } && url@
                        == spec_metadata_url()),
                },
            },
        },
{
    let arch_raw: Option<&str> = match &env.arch {
        Some(s) => Some(s.as_str()),
        None => None,
    };
    let arch = match resolve_arch(arch_raw) {
        Ok(a) => a,
        Err(e) => {
            return fail(e);
        },
    };
    let os_raw: Option<&str> = match &env.os {
        Some(s) => Some(s.as_str()),
        None => None,
    };
    let os = match resolve_os(os_raw) {
        Ok(o) => o,
        Err(e) => {
            return fail(e);
        },
    };
    let dir = match env.dir {
        Some(d) => d,
        None => {
            return fail(InstallError::FilesystemFailed);
        },
    };
    let ctx = Ctx { platform: Platform { arch, os }, dir, args };
    (Phase::AwaitingMetadata { ctx }, Action::FetchMetadata { url: metadata_url() })
}

/// Take the ledger answer: a missing directory goes to the initialization
/// step, an existing one to the update decision.
fn ledger_step(ctx: Ctx, tag: String, dir_exists: bool, marker: Option<String>) -> (r: (
    Phase,
    Action,
))
    ensures
        step_ok(
            Phase::AwaitingLedger { ctx, tag },
            Event::LedgerLoaded { dir_exists, marker },
            r,
        ),
{
    if !dir_exists {
        (
            Phase::AwaitingLedgerInit { ctx, tag },
            Action::InitializeLedger { text: "0.0.0".to_owned() },
        )
    } else {
        let marker_ref: Option<&str> = match &marker {
            Some(m) => Some(m.as_str()),
            None => None,
        };
        let ledger = match read_ledger(true, marker_ref) {
            Ok(l) => l,
            Err(e) => {
                return fail(e);
            },
        };
        let remote = match SemVer::parse(tag.as_str()) {
            Some(v) => v,
            None => {
                return fail(InstallError::MetadataDecodeFailed);
            },
        };
        if should_update(&ledger.installed, &remote, ledger.fresh_dir) {
            request_download(ctx, tag)
        } else {
            (Phase::AwaitingLedgerSave { ctx }, Action::SaveLedger { text: tag })
        }
    }
}

/// Ask for the archive of `tag` on the platform of `ctx`.
fn request_download(ctx: Ctx, tag: String) -> (r: (Phase, Action))
    ensures
        download_ok(ctx, tag, r),
{
    let url = download_url(tag.as_str(), ctx.platform);
    let format = archive_format(ctx.platform.os);
    (Phase::AwaitingArchive { ctx, tag }, Action::Download { url, format })
}

/// One step of the installation run: take the event the host reports, move
/// to the next phase and say what to do there. A non-empty user-supplied
/// server path ends the run at once with that path handed on verbatim, so
/// no network request is ever asked for on that path.
pub fn step(phase: Phase, event: Event) -> (r: (Phase, Action))
    requires
        accepts(phase, event),
    ensures
        step_ok(phase, event, r),
{
    match (phase, event) {
        (Phase::Idle, Event::Begin { settings, env }) => begin_step(settings, env),
        (Phase::AwaitingMetadata { ctx }, Event::Metadata { outcome }) => match outcome {
            FetchOutcome::Fetched { release } => (
                Phase::AwaitingLedger { ctx, tag: release.tag_name },
                Action::LoadLedger,
            ),
            FetchOutcome::FetchFailed => fail(InstallError::MetadataFetchFailed),
            FetchOutcome::DecodeFailed => fail(InstallError::MetadataDecodeFailed),
        },
        (Phase::AwaitingLedger { ctx, tag }, Event::LedgerLoaded { dir_exists, marker }) => {
            ledger_step(ctx, tag, dir_exists, marker)
        },
        (Phase::AwaitingLedgerInit { ctx, tag }, Event::LedgerInitialized { ok }) => {
            if ok {
                request_download(ctx, tag)
            } else {
                fail(InstallError::FilesystemFailed)
            }
        },
        (Phase::AwaitingArchive { ctx, tag }, Event::ArchiveFetched { status }) => {
            if status == 200 {
                let format = archive_format(ctx.platform.os);
                (Phase::AwaitingExtract { ctx, tag }, Action::ExtractArchive { format })
            } else {
                fail(InstallError::DownloadFailed(status))
            }
        },
        (Phase::AwaitingExtract { ctx, tag }, Event::ArchiveExtracted { extraction }) => {
            match extraction {
                ExtractOutcome::Unpacked => (
                    Phase::AwaitingLedgerSave { ctx },
                    Action::SaveLedger { text: tag },
                ),
                ExtractOutcome::OpenFailed => fail(InstallError::ArchiveOpenFailed),
                ExtractOutcome::UnpackFailed => fail(InstallError::ArchiveExtractFailed),
            }
        },
        (Phase::AwaitingLedgerSave { ctx }, Event::LedgerSaved { ok }) => {
            if ok {
                let path = join_path(ctx.dir.as_str(), server_executable(ctx.platform.os).as_str());
                (Phase::Done, Action::StartServer { path, args: ctx.args })
            } else {
                fail(InstallError::FilesystemFailed)
            }
        },
        _ => {
            proof {
                assert(false);
            }
            (Phase::Done, Action::LoadLedger)
        },
    }
}

} // verus!
