//! A tagged GitHub release: its install path and the steps that fetch
//! and install its binary.
use crate::config::directories;
use crate::error::{
    asset_not_found_error, directories_unavailable_error, download_error,
    github_not_installed_error, Error, ErrorView,
};
use crate::release::github_release_config::{
    AssetFilter, AssetFilterView, GithubReleaseConfig, GithubReleaseConfigView,
};
use crate::release::github_req_client::{release_by_tag_url, release_by_tag_url_of};
use crate::text::{chars_of, lowercase_of, replace_char, replaced, string_of, to_lowercase};
use vstd::prelude::*;
use vstd::string::StringExecFns;

verus! {

/// One downloadable file of a release, as the provider lists it.
#[derive(Debug)]
pub struct GithubAsset {
    pub name: String,
    pub browser_download_url: String,
}

pub struct GithubAssetView {
    pub name: Seq<char>,
    pub browser_download_url: Seq<char>,
}

impl View for GithubAsset {
    type V = GithubAssetView;

    open spec fn view(&self) -> GithubAssetView {
        GithubAssetView { name: self.name@, browser_download_url: self.browser_download_url@ }
    }
}

/// The views of a list of assets, in order.
pub open spec fn asset_views(assets: Seq<GithubAsset>) -> Seq<GithubAssetView> {
    assets.map_values(|asset: GithubAsset| asset@)
}

/// The first asset from index `from` on whose name `filter` accepts.
pub open spec fn first_accepted_from(
    assets: Seq<GithubAssetView>,
    filter: AssetFilterView,
    from: int,
) -> Option<GithubAssetView>
    decreases assets.len() - from,
{
    if from < 0 || from >= assets.len() {
        None
    } else if filter.accepts(assets[from].name) {
        Some(assets[from])
    } else {
        first_accepted_from(assets, filter, from + 1)
    }
}

/// The asset to install: the first one whose name `filter` accepts.
pub open spec fn selected_asset(
    assets: Seq<GithubAssetView>,
    filter: AssetFilterView,
) -> Option<GithubAssetView> {
    first_accepted_from(assets, filter, 0)
}

/// The index of the asset to install: the first one whose name
/// `filter` accepts.
pub fn select_asset(assets: &Vec<GithubAsset>, filter: &AssetFilter) -> (r: Option<usize>)
    ensures
        match r {
            Some(i) => i < assets.len() && selected_asset(asset_views(assets@), filter@) == Some(
                assets[i as int]@,
            ) && filter@.accepts(assets[i as int]@.name) && forall|j: int|
                0 <= j < i ==> !filter@.accepts(#[trigger] assets[j]@.name),
            None => selected_asset(asset_views(assets@), filter@) is None && forall|j: int|
                0 <= j < assets.len() ==> !filter@.accepts(#[trigger] assets[j]@.name),
        },
{
    let mut i: usize = 0;
    while i < assets.len()
        invariant
            i <= assets.len(),
            selected_asset(asset_views(assets@), filter@) == first_accepted_from(
                asset_views(assets@),
                filter@,
                i as int,
            ),
            forall|j: int| 0 <= j < i ==> !filter@.accepts(#[trigger] assets[j]@.name),
        decreases assets.len() - i,
    {
        assert(asset_views(assets@)[i as int] == assets[i as int]@);
        if filter.accepts(assets[i].name.as_str()) {
            return Some(i);
        }
        i += 1;
    }
    None
}

#[derive(Debug)]
pub struct GithubRelease {
    pub config: GithubReleaseConfig,
    pub tag: String,
}

pub struct GithubReleaseView {
    pub config: GithubReleaseConfigView,
    pub tag: Seq<char>,
}

impl View for GithubRelease {
    type V = GithubReleaseView;

    open spec fn view(&self) -> GithubReleaseView {
        GithubReleaseView { config: self.config@, tag: self.tag@ }
    }
}

impl Clone for GithubRelease {
    fn clone(&self) -> (r: Self)
        ensures
            r@ == self@,
    {
        GithubRelease { config: self.config.clone(), tag: self.tag.clone() }
    }
}

/// A name made fit for a file name: every slash a hyphen, then
/// lowercased.
pub open spec fn slug_of(name: Seq<char>) -> Seq<char> {
    lowercase_of(replaced(name, '/', '-'))
}

/// A name made fit for a file name: every slash a hyphen, then
/// lowercased.
pub fn slug(name: &str) -> (r: String)
    ensures
        r@ == slug_of(name@),
{
    let hyphenated = string_of(&replace_char(&chars_of(name), '/', '-'));
    to_lowercase(hyphenated.as_str())
}

impl GithubReleaseView {
    /// The directory that holds the binaries of this repository.
    pub open spec fn bin_dir(self, data_dir: Seq<char>) -> Seq<char> {
        data_dir + "/engines/"@ + slug_of(self.config.repo)
    }

    /// Where the binary of this release is installed.
    pub open spec fn bin_path(self, data_dir: Seq<char>) -> Seq<char> {
        self.bin_dir(data_dir) + "/"@ + slug_of(self.config.repo + "-"@ + self.tag)
            + ".AppImage"@
    }

    /// Where the binary is written while it is being fetched.
    pub open spec fn download_path(self, data_dir: Seq<char>) -> Seq<char> {
        self.bin_path(data_dir) + ".partial"@
    }
}

impl GithubRelease {
    /// The directory below `data_dir` that holds the binaries of this
    /// repository.
    pub fn bin_dir(&self, data_dir: &str) -> (r: String)
        ensures
            r@ == self@.bin_dir(data_dir@),
    {
        let mut dir = String::from_str(data_dir);
        dir.append("/engines/");
        dir.append(slug(self.config.repo.as_str()).as_str());
        dir
    }

    /// Where below `data_dir` the binary of this release is installed.
    /// Depends on nothing but the repository, the tag and `data_dir`.
    pub fn resolve_path(&self, data_dir: &str) -> (r: String)
        ensures
            r@ == self@.bin_path(data_dir@),
    {
        let mut name = String::from_str(self.config.repo.as_str());
        name.append("-");
        name.append(self.tag.as_str());
        let mut path = self.bin_dir(data_dir);
        path.append("/");
        path.append(slug(name.as_str()).as_str());
        path.append(".AppImage");
        path
    }

    /// Where the binary of this release is installed below the data
    /// directory of the application.
    pub fn bin_path(&self) -> (r: Result<String, Error>)
        ensures
            match r {
                Ok(path) => exists|data_dir: Seq<char>| path@ == self@.bin_path(data_dir),
                Err(e) => e@ == directories_unavailable_error(),
            },
    {
        match directories() {
            Ok(dirs) => Ok(self.resolve_path(dirs.data_dir.as_str())),
            Err(e) => Err(e),
        }
    }

    /// The install path below `data_dir` where the binary `exists`
    /// there, and an error where it does not.
    pub fn bin_path_if_downloaded(&self, data_dir: &str, exists: bool) -> (r: Result<
        String,
        Error,
    >)
        ensures
            exists ==> (r matches Ok(path) && path@ == self@.bin_path(data_dir@)),
            !exists ==> (r matches Err(e) && e@ == github_not_installed_error(
                self@.config.repo,
                self@.tag,
            )),
    {
        if exists {
            Ok(self.resolve_path(data_dir))
        } else {
            Err(Error::github_not_installed(self.config.repo.as_str(), self.tag.as_str()))
        }
    }
}

/// How far a download has come.
#[derive(Clone, Copy, Debug, PartialEq, Eq, Structural)]
pub enum DownloadPhase {
    /// Asking whether the binary is already installed.
    CheckingCache,
    /// Creating the directory that will hold the binary.
    CreatingDirs,
    /// Asking the provider for the assets of the release.
    QueryingRelease,
    /// Asking for the chosen asset and creating the partial file.
    RequestingAsset,
    /// Writing the body of the asset to the partial file.
    Receiving,
    /// Closing the partial file and making it executable.
    SettingPermissions,
    /// Moving the partial file to the install path.
    Renaming,
    /// The binary stands at the install path.
    Installed,
    /// The download was given up.
    Failed,
}

/// Byte progress to report, in megabytes.
#[derive(Clone, Copy, Debug, PartialEq, Eq, Structural)]
pub struct ProgressReport {
    pub megabytes_done: u64,
    pub megabytes_total: u64,
}

/// What is to be done next for a download.
#[derive(Clone, Copy, Debug, PartialEq, Eq, Structural)]
pub enum DownloadAction {
    /// Find out whether `bin_path` exists.
    CheckInstalled,
    /// Create `bin_dir` and its parents.
    CreateDirs,
    /// Ask the provider for `release_url` and read the asset list.
    QueryRelease,
    /// Ask for `asset_url` and create the file `download_path`.
    RequestAsset,
    /// Read the next chunk of the body.
    ReadChunk,
    /// Append the chunk to `download_path`, report progress where a
    /// report is given, and read the next chunk.
    WriteChunk { report: Option<ProgressReport> },
    /// Close `download_path` and give it the mode `EXECUTABLE_MODE`.
    SetExecutable,
    /// Rename `download_path` to `bin_path`.
    Rename,
    /// Nothing: the download has ended, see [`Download::outcome`].
    Finish,
}

impl DownloadAction {
    /// Whether the action talks to the network.
    pub open spec fn is_network(self) -> bool {
        self is QueryRelease || self is RequestAsset || self is ReadChunk || self is WriteChunk
    }
}

/// What happened to the last action of a download.
#[derive(Debug)]
pub enum DownloadEvent {
    /// `CheckInstalled` found that the install path exists, or not.
    Existence(bool),
    /// `CreateDirs` is done.
    DirsCreated,
    /// `QueryRelease` was answered with these assets.
    Assets(Vec<GithubAsset>),
    /// `RequestAsset` is done: the response announces this many bytes,
    /// where it says, and the clock shows `now` milliseconds.
    ResponseStarted { content_length: Option<u64>, now: u64 },
    /// A chunk of `len` bytes arrived when the clock showed `now`
    /// milliseconds.
    Chunk { len: u64, now: u64 },
    /// The body has ended.
    EndOfBody,
    /// `SetExecutable` is done.
    PermissionsSet,
    /// `Rename` is done.
    Renamed,
    /// The last action failed for this reason.
    Failed(String),
}

pub enum DownloadEventView {
    Existence(bool),
    DirsCreated,
    Assets(Seq<GithubAssetView>),
    ResponseStarted { content_length: Option<u64>, now: u64 },
    Chunk { len: u64, now: u64 },
    EndOfBody,
    PermissionsSet,
    Renamed,
    Failed(Seq<char>),
}

impl View for DownloadEvent {
    type V = DownloadEventView;

    open spec fn view(&self) -> DownloadEventView {
        match self {
            DownloadEvent::Existence(exists) => DownloadEventView::Existence(*exists),
            DownloadEvent::DirsCreated => DownloadEventView::DirsCreated,
            DownloadEvent::Assets(assets) => DownloadEventView::Assets(asset_views(assets@)),
            DownloadEvent::ResponseStarted { content_length, now } => {
                DownloadEventView::ResponseStarted { content_length: *content_length, now: *now }
            },
            DownloadEvent::Chunk { len, now } => DownloadEventView::Chunk { len: *len, now: *now },
            DownloadEvent::EndOfBody => DownloadEventView::EndOfBody,
            DownloadEvent::PermissionsSet => DownloadEventView::PermissionsSet,
            DownloadEvent::Renamed => DownloadEventView::Renamed,
            DownloadEvent::Failed(reason) => DownloadEventView::Failed(reason@),
        }
    }
}

/// The permission bits of an installed binary.
pub const EXECUTABLE_MODE: u32 = 0o755;

/// The least time between two progress reports, in milliseconds.
pub const REPORT_INTERVAL_MS: u64 = 1000;

/// The number of bytes that a progress report counts as one.
pub const BYTES_PER_MEGABYTE: u64 = 1_000_000;

/// The installation of one release: what is fixed from the start, and
/// how far it has come.
#[derive(Debug)]
pub struct Download {
    pub release: GithubRelease,
    /// Where the binary will stand.
    pub bin_path: String,
    /// The directory of `bin_path`.
    pub bin_dir: String,
    /// Where the body is written until it is complete.
    pub download_path: String,
    /// Where the provider lists the assets of the release.
    pub release_url: String,
    pub phase: DownloadPhase,
    /// The address of the chosen asset, once it is chosen.
    pub asset_url: Option<String>,
    /// The bytes received so far.
    pub byte_count: u64,
    /// The bytes that the response announced, 0 where it did not say.
    pub content_length: u64,
    /// When progress was last reported, in milliseconds.
    pub last_logged_at: u64,
    /// Why the download failed, once it has.
    pub error: Option<Error>,
}

pub struct DownloadView {
    pub release: GithubReleaseView,
    pub bin_path: Seq<char>,
    pub bin_dir: Seq<char>,
    pub download_path: Seq<char>,
    pub release_url: Seq<char>,
    pub phase: DownloadPhase,
    pub asset_url: Option<Seq<char>>,
    pub byte_count: u64,
    pub content_length: u64,
    pub last_logged_at: u64,
    pub error: Option<ErrorView>,
}

impl View for Download {
    type V = DownloadView;

    open spec fn view(&self) -> DownloadView {
        DownloadView {
            release: self.release@,
            bin_path: self.bin_path@,
            bin_dir: self.bin_dir@,
            download_path: self.download_path@,
            release_url: self.release_url@,
            phase: self.phase,
            asset_url: match self.asset_url {
                Some(url) => Some(url@),
                None => None,
            },
            byte_count: self.byte_count,
            content_length: self.content_length,
            last_logged_at: self.last_logged_at,
            error: match self.error {
                Some(e) => Some(e@),
                None => None,
            },
        }
    }
}

/// `count` more bytes on top of `sum`, stopping at the largest count
/// that can be held.
pub open spec fn add_bytes(sum: u64, count: u64) -> u64 {
    if sum + count > u64::MAX {
        u64::MAX
    } else {
        (sum + count) as u64
    }
}

/// Whether progress is reported at `now`: more than the report
/// interval has passed since the last report.
pub open spec fn report_due(last_logged_at: u64, now: u64) -> bool {
    last_logged_at + REPORT_INTERVAL_MS < now
}

impl DownloadView {
    /// The download of `release` below `data_dir` before anything was
    /// done, and its first action: with `no_cache` the fetch begins at
    /// once, without it the install path is looked at first.
    pub open spec fn begin(release: GithubReleaseView, data_dir: Seq<char>, no_cache: bool) -> (
        DownloadView,
        DownloadAction,
    ) {
        let download = DownloadView {
            release,
            bin_path: release.bin_path(data_dir),
            bin_dir: release.bin_dir(data_dir),
            download_path: release.download_path(data_dir),
            release_url: release_by_tag_url_of(release.config.repo, release.tag),
            phase: if no_cache {
                DownloadPhase::CreatingDirs
            } else {
                DownloadPhase::CheckingCache
            },
            asset_url: None,
            byte_count: 0,
            content_length: 0,
            last_logged_at: 0,
            error: None,
        };
        (
            download,
            if no_cache {
                DownloadAction::CreateDirs
            } else {
                DownloadAction::CheckInstalled
            },
        )
    }

    /// Whether the download has ended.
    pub open spec fn is_over(self) -> bool {
        self.phase is Installed || self.phase is Failed
    }

    /// This download in another phase.
    pub open spec fn at(self, phase: DownloadPhase) -> DownloadView {
        DownloadView { phase, ..self }
    }

    /// This download given up for the reason `error`.
    pub open spec fn failed(self, error: ErrorView) -> (DownloadView, DownloadAction) {
        (
            DownloadView { phase: DownloadPhase::Failed, error: Some(error), ..self },
            DownloadAction::Finish,
        )
    }

    /// The download after `event`, and the next action. An ended
    /// download stays as it is. A failure of the last action, or an
    /// event that does not answer it, ends the download with an error.
    pub open spec fn step(self, event: DownloadEventView) -> (DownloadView, DownloadAction) {
        if self.is_over() {
            (self, DownloadAction::Finish)
        } else {
            match (self.phase, event) {
                (_, DownloadEventView::Failed(reason)) => self.failed(download_error(reason)),
                (DownloadPhase::CheckingCache, DownloadEventView::Existence(exists)) => {
                    if exists {
                        (self.at(DownloadPhase::Installed), DownloadAction::Finish)
                    } else {
                        (self.at(DownloadPhase::CreatingDirs), DownloadAction::CreateDirs)
                    }
                },
                (DownloadPhase::CreatingDirs, DownloadEventView::DirsCreated) => {
                    (self.at(DownloadPhase::QueryingRelease), DownloadAction::QueryRelease)
                },
                (DownloadPhase::QueryingRelease, DownloadEventView::Assets(assets)) => {
                    match selected_asset(assets, self.release.config.asset_filter) {
                        Some(asset) => (
                            DownloadView {
                                phase: DownloadPhase::RequestingAsset,
                                asset_url: Some(asset.browser_download_url),
                                ..self
                            },
                            DownloadAction::RequestAsset,
                        ),
                        None => self.failed(
                            asset_not_found_error(self.release.config.repo, self.release.tag),
                        ),
                    }
                },
                (
                    DownloadPhase::RequestingAsset,
                    DownloadEventView::ResponseStarted { content_length, now },
                ) => (
                    DownloadView {
                        phase: DownloadPhase::Receiving,
                        byte_count: 0,
                        content_length: match content_length {
                            Some(len) => len,
                            None => 0,
                        },
                        last_logged_at: now,
                        ..self
                    },
                    DownloadAction::ReadChunk,
                ),
                (DownloadPhase::Receiving, DownloadEventView::Chunk { len, now }) => {
                    let byte_count = add_bytes(self.byte_count, len);
                    if report_due(self.last_logged_at, now) {
                        (
                            DownloadView { byte_count, last_logged_at: now, ..self },
                            DownloadAction::WriteChunk {
                                report: Some(
                                    ProgressReport {
                                        megabytes_done: byte_count / BYTES_PER_MEGABYTE,
                                        megabytes_total: self.content_length / BYTES_PER_MEGABYTE,
                                    },
                                ),
                            },
                        )
                    } else {
                        (
                            DownloadView { byte_count, ..self },
                            DownloadAction::WriteChunk { report: None },
                        )
                    }
                },
                (DownloadPhase::Receiving, DownloadEventView::EndOfBody) => {
                    (self.at(DownloadPhase::SettingPermissions), DownloadAction::SetExecutable)
                },
                (DownloadPhase::SettingPermissions, DownloadEventView::PermissionsSet) => {
                    (self.at(DownloadPhase::Renaming), DownloadAction::Rename)
                },
                (DownloadPhase::Renaming, DownloadEventView::Renamed) => {
                    (self.at(DownloadPhase::Installed), DownloadAction::Finish)
                },
                _ => self.failed(download_error("Unexpected event"@)),
            }
        }
    }

    /// How the download ended, once it has: with the install path, or
    /// with the error that stopped it.
    pub open spec fn outcome(self) -> Option<Result<Seq<char>, ErrorView>> {
        match self.phase {
            DownloadPhase::Installed => Some(Ok(self.bin_path)),
            DownloadPhase::Failed => match self.error {
                Some(e) => Some(Err(e)),
                None => Some(Err(download_error("Unexpected event"@))),
            },
            _ => None,
        }
    }
}

impl GithubRelease {
    /// Begins the installation of this release below `data_dir`. With
    /// `no_cache` the binary is fetched whether or not it is there;
    /// without it the first action looks at the install path, and the
    /// fetch begins only where nothing is found.
    pub fn download(&self, data_dir: &str, no_cache: bool) -> (r: (Download, DownloadAction))
        ensures
            r.0@ == DownloadView::begin(self@, data_dir@, no_cache).0,
            r.1 == DownloadView::begin(self@, data_dir@, no_cache).1,
    {
        let bin_path = self.resolve_path(data_dir);
        let mut download_path = bin_path.clone();
        download_path.append(".partial");
        let download = Download {
            release: self.clone(),
            bin_path,
            bin_dir: self.bin_dir(data_dir),
            download_path,
            release_url: release_by_tag_url(self.config.repo.as_str(), self.tag.as_str()),
            phase: if no_cache {
                DownloadPhase::CreatingDirs
            } else {
                DownloadPhase::CheckingCache
            },
            asset_url: None,
            byte_count: 0,
            content_length: 0,
            last_logged_at: 0,
            error: None,
        };
        let action = if no_cache {
            DownloadAction::CreateDirs
        } else {
            DownloadAction::CheckInstalled
        };
        (download, action)
    }
}

impl Download {
    fn fail(self, error: Error) -> (r: (Download, DownloadAction))
        ensures
            r.0@ == self@.failed(error@).0,
            r.1 == self@.failed(error@).1,
    {
        let mut next = self;
        next.phase = DownloadPhase::Failed;
        next.error = Some(error);
        (next, DownloadAction::Finish)
    }

    fn advance(self, phase: DownloadPhase, action: DownloadAction) -> (r: (
        Download,
        DownloadAction,
    ))
        ensures
            r.0@ == self@.at(phase),
            r.1 == action,
    {
        let mut next = self;
        next.phase = phase;
        (next, action)
    }

    /// Whether the download has ended.
    pub fn is_over(&self) -> (r: bool)
        ensures
            r == self@.is_over(),
    {
        match self.phase {
            DownloadPhase::Installed => true,
            DownloadPhase::Failed => true,
            _ => false,
        }
    }

    /// Takes the download one step on: `event` says what came of the
    /// last action, the result is the download after it and the next
    /// action.
    pub fn step(self, event: DownloadEvent) -> (r: (Download, DownloadAction))
        ensures
            r.0@ == self@.step(event@).0,
            r.1 == self@.step(event@).1,
    {
        if self.is_over() {
            return (self, DownloadAction::Finish);
        }
        match event {
            DownloadEvent::Failed(reason) => self.fail(Error::download(reason)),
            DownloadEvent::Existence(exists) => match self.phase {
                DownloadPhase::CheckingCache => if exists {
                    self.advance(DownloadPhase::Installed, DownloadAction::Finish)
                } else {
                    self.advance(DownloadPhase::CreatingDirs, DownloadAction::CreateDirs)
                },
                _ => self.fail(Error::download(String::from_str("Unexpected event"))),
            },
            DownloadEvent::DirsCreated => match self.phase {
                DownloadPhase::CreatingDirs => self.advance(
                    DownloadPhase::QueryingRelease,
                    DownloadAction::QueryRelease,
                ),
                _ => self.fail(Error::download(String::from_str("Unexpected event"))),
            },
            DownloadEvent::Assets(assets) => match self.phase {
                DownloadPhase::QueryingRelease => {
                    match select_asset(&assets, &self.release.config.asset_filter) {
                        Some(i) => {
                            let mut next = self;
                            next.phase = DownloadPhase::RequestingAsset;
                            next.asset_url = Some(assets[i].browser_download_url.clone());
                            (next, DownloadAction::RequestAsset)
                        },
                        None => {
                            let error = Error::asset_not_found(
                                self.release.config.repo.as_str(),
                                self.release.tag.as_str(),
                            );
                            self.fail(error)
                        },
                    }
                },
                _ => self.fail(Error::download(String::from_str("Unexpected event"))),
            },
            DownloadEvent::ResponseStarted { content_length, now } => match self.phase {
                DownloadPhase::RequestingAsset => {
                    let mut next = self;
                    next.phase = DownloadPhase::Receiving;
                    next.byte_count = 0;
                    next.content_length = match content_length {
                        Some(len) => len,
                        None => 0,
                    };
                    next.last_logged_at = now;
                    (next, DownloadAction::ReadChunk)
                },
                _ => self.fail(Error::download(String::from_str("Unexpected event"))),
            },
            DownloadEvent::Chunk { len, now } => match self.phase {
                DownloadPhase::Receiving => {
                    let mut next = self;
                    next.byte_count = next.byte_count.saturating_add(len);
                    let due = now > next.last_logged_at && now - next.last_logged_at
                        > REPORT_INTERVAL_MS;
                    if due {
                        next.last_logged_at = now;
                        let report = ProgressReport {
                            megabytes_done: next.byte_count / BYTES_PER_MEGABYTE,
                            megabytes_total: next.content_length / BYTES_PER_MEGABYTE,
                        };
                        (next, DownloadAction::WriteChunk { report: Some(report) })
                    } else {
                        (next, DownloadAction::WriteChunk { report: None })
                    }
                },
                _ => self.fail(Error::download(String::from_str("Unexpected event"))),
            },
            DownloadEvent::EndOfBody => match self.phase {
                DownloadPhase::Receiving => self.advance(
                    DownloadPhase::SettingPermissions,
                    DownloadAction::SetExecutable,
                ),
                _ => self.fail(Error::download(String::from_str("Unexpected event"))),
            },
            DownloadEvent::PermissionsSet => match self.phase {
                DownloadPhase::SettingPermissions => self.advance(
                    DownloadPhase::Renaming,
                    DownloadAction::Rename,
                ),
                _ => self.fail(Error::download(String::from_str("Unexpected event"))),
            },
            DownloadEvent::Renamed => match self.phase {
                DownloadPhase::Renaming => self.advance(
                    DownloadPhase::Installed,
                    DownloadAction::Finish,
                ),
                _ => self.fail(Error::download(String::from_str("Unexpected event"))),
            },
        }
    }

    /// How the download ended, once it has: with the install path, or
    /// with the error that stopped it.
    pub fn outcome(&self) -> (r: Option<Result<String, Error>>)
        ensures
            match self@.outcome() {
                Some(Ok(path)) => r matches Some(Ok(found)) && found@ == path,
                Some(Err(error)) => r matches Some(Err(found)) && found@ == error,
                None => r is None,
            },
    {
        match self.phase {
            DownloadPhase::Installed => Some(Ok(self.bin_path.clone())),
            DownloadPhase::Failed => match &self.error {
                Some(e) => Some(Err(e.duplicate())),
                None => Some(Err(Error::download(String::from_str("Unexpected event")))),
            },
            _ => None,
        }
    }
}

/// The install path is a function of the repository, the tag and the
/// data directory, and of nothing else.
pub proof fn lemma_bin_path_depends_on_repo_and_tag(
    one: GithubReleaseView,
    other: GithubReleaseView,
    data_dir: Seq<char>,
)
    requires
        one.config.repo == other.config.repo,
        one.tag == other.tag,
    ensures
        one.bin_path(data_dir) == other.bin_path(data_dir),
        one.bin_dir(data_dir) == other.bin_dir(data_dir),
{
}

/// Without `no_cache`, a download whose install path exists ends at
/// once with that path: neither its first action nor any later one
/// talks to the network.
pub proof fn lemma_cached_download_needs_no_network(
    release: GithubReleaseView,
    data_dir: Seq<char>,
    later: DownloadEventView,
)
    ensures
        ({
            let begun = DownloadView::begin(release, data_dir, false);
            let found = begun.0.step(DownloadEventView::Existence(true));
            &&& begun.1 == DownloadAction::CheckInstalled
            &&& !begun.1.is_network()
            &&& found.1 == DownloadAction::Finish
            &&& found.0.outcome() == Some(
                Ok::<Seq<char>, ErrorView>(release.bin_path(data_dir)),
            )
            &&& found.0.step(later) == (found.0, DownloadAction::Finish)
        }),
{
}

/// With `no_cache`, a download never asks whether the binary is there:
/// it creates the directory, queries the provider, and answers a report
/// on the install path with an error rather than with a cached path.
pub proof fn lemma_forced_download_always_fetches(
    release: GithubReleaseView,
    data_dir: Seq<char>,
    exists: bool,
)
    ensures
        ({
            let begun = DownloadView::begin(release, data_dir, true);
            &&& begun.1 == DownloadAction::CreateDirs
            &&& begun.0.step(DownloadEventView::DirsCreated).1 == DownloadAction::QueryRelease
            &&& begun.0.step(DownloadEventView::Existence(exists)).0.outcome() is Some
            &&& begun.0.step(DownloadEventView::Existence(exists)).0.outcome()->0 is Err
        }),
{
}

/// Nothing is moved to the install path before the whole body has
/// been written and the file made executable; and what a download
/// writes, it writes beside the install path, never at it.
pub proof fn lemma_install_is_atomic(download: DownloadView, event: DownloadEventView)
    ensures
        download.step(event).1 is Rename ==> download.phase is SettingPermissions && event
            is PermissionsSet,
        download.step(event).1 is SetExecutable ==> download.phase is Receiving && event
            is EndOfBody,
        download.step(event).0.phase is Installed ==> download.phase is Installed || (
        download.phase is Renaming && event is Renamed) || (download.phase is CheckingCache
            && event == DownloadEventView::Existence(true)),
        download.step(event).0.bin_path == download.bin_path,
        download.step(event).0.download_path == download.download_path,
        download.step(event).0.bin_dir == download.bin_dir,
        download.step(event).0.release == download.release,
{
}

/// The partial file and the installed binary are two different paths.
pub proof fn lemma_download_path_differs(release: GithubReleaseView, data_dir: Seq<char>)
    ensures
        release.download_path(data_dir) != release.bin_path(data_dir),
{
    reveal_strlit(".partial");
    assert(release.download_path(data_dir).len() == release.bin_path(data_dir).len() + 8);
}

/// Progress is reported at most once per interval: a report is due
/// only when more than the interval has passed since the last one, and
/// the time of the last report then moves to now.
pub proof fn lemma_reports_are_spaced(download: DownloadView, len: u64, now: u64)
    requires
        download.phase is Receiving,
    ensures
        ({
            let next = download.step(DownloadEventView::Chunk { len, now });
            &&& next.1 is WriteChunk
            &&& next.1->report is Some <==> now > download.last_logged_at + REPORT_INTERVAL_MS
            &&& next.1->report is Some ==> next.0.last_logged_at == now
            &&& next.1->report is None ==> next.0.last_logged_at == download.last_logged_at
            &&& next.0.byte_count == add_bytes(download.byte_count, len)
        }),
{
}

} // verus!
