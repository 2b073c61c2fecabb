//! Releases of engine binaries: where one is found, where it is
//! installed, and how it is fetched.
use crate::engine::{belt_engine, slic3r};
use crate::error::{
    github_not_installed_error, local_not_installed_error, manual_install_required_error, Error,
    ErrorView,
};
use crate::execution_context::{
    item_views, output_item, progress_item, Command, CommandView, ExecutionContext, Output,
};
use crate::release::github_release::{Download, DownloadAction, DownloadView};
use crate::release::github_req_client::{ApiRequest, ApiRequestView};
use vstd::prelude::*;

pub mod github_release;
pub mod github_release_config;
pub mod github_req_client;
pub mod local_release;

pub use self::github_release::{GithubRelease, GithubReleaseView};
pub use self::github_release_config::{
    AssetFilter, AssetFilterView, GithubReleaseConfig, GithubReleaseConfigView,
};
pub use self::local_release::{
    LocalRelease, LocalReleaseConfig, LocalReleaseConfigView, LocalReleaseView,
};

verus! {

/// One installable instance of an engine binary.
#[derive(Debug)]
pub enum Release {
    Github(GithubRelease),
    Local(LocalRelease),
}

pub enum ReleaseView {
    Github(GithubReleaseView),
    Local(LocalReleaseView),
}

impl View for Release {
    type V = ReleaseView;

    open spec fn view(&self) -> ReleaseView {
        match self {
            Release::Github(release) => ReleaseView::Github(release@),
            Release::Local(release) => ReleaseView::Local(release@),
        }
    }
}

/// How the latest release of an engine is learnt.
#[derive(Debug)]
pub enum LatestRelease {
    /// It is this one.
    Known(Release),
    /// The provider has to be asked; its answer names the release under
    /// `html_url`.
    Query(ApiRequest),
}

pub enum LatestReleaseView {
    Known(ReleaseView),
    Query(ApiRequestView),
}

impl View for LatestRelease {
    type V = LatestReleaseView;

    open spec fn view(&self) -> LatestReleaseView {
        match self {
            LatestRelease::Known(release) => LatestReleaseView::Known(release@),
            LatestRelease::Query(request) => LatestReleaseView::Query(request@),
        }
    }
}

/// A release strategy: the URLs it recognises and its latest release.
pub trait ReleaseConfig {
    /// The release that `url` names, where it names one.
    spec fn parse_spec(&self, url: Seq<char>) -> Option<ReleaseView>;

    /// The error that reports that `url` names no release.
    spec fn parse_error(&self, url: Seq<char>) -> ErrorView;

    /// The release that `url` names. Succeeds only where the whole of
    /// `url` is a release URL of this strategy.
    fn parse(&self, url: &str) -> (r: Result<Release, Error>)
        ensures
            match self.parse_spec(url@) {
                Some(release) => r matches Ok(found) && found@ == release,
                None => r matches Err(e) && e@ == self.parse_error(url@),
            },
    ;

    spec fn latest_release_spec(&self) -> LatestReleaseView;

    /// The latest release, or the question to put to the provider.
    fn latest_release(&self) -> (r: LatestRelease)
        ensures
            r@ == self.latest_release_spec(),
    ;
}

/// The release strategy of an engine: one of the two kinds there are.
#[derive(Debug)]
pub enum ReleaseStrategy {
    Github(GithubReleaseConfig),
    Local(LocalReleaseConfig),
}

pub enum ReleaseStrategyView {
    Github(GithubReleaseConfigView),
    Local(LocalReleaseConfigView),
}

impl View for ReleaseStrategy {
    type V = ReleaseStrategyView;

    open spec fn view(&self) -> ReleaseStrategyView {
        match self {
            ReleaseStrategy::Github(config) => ReleaseStrategyView::Github(config@),
            ReleaseStrategy::Local(config) => ReleaseStrategyView::Local(config@),
        }
    }
}

impl ReleaseStrategyView {
    /// The release that `url` names, where it names one.
    pub open spec fn parse(self, url: Seq<char>) -> Option<ReleaseView> {
        match self {
            ReleaseStrategyView::Github(config) => match config.parse(url) {
                Some(release) => Some(ReleaseView::Github(release)),
                None => None,
            },
            ReleaseStrategyView::Local(config) => if config.release_url == url {
                Some(ReleaseView::Local(LocalReleaseView { config }))
            } else {
                None
            },
        }
    }
}

impl ReleaseConfig for ReleaseStrategy {
    open spec fn parse_spec(&self, url: Seq<char>) -> Option<ReleaseView> {
        self@.parse(url)
    }

    open spec fn parse_error(&self, url: Seq<char>) -> ErrorView {
        match self {
            ReleaseStrategy::Github(config) => config.parse_error(url),
            ReleaseStrategy::Local(config) => config.parse_error(url),
        }
    }

    fn parse(&self, url: &str) -> (r: Result<Release, Error>) {
        match self {
            ReleaseStrategy::Github(config) => config.parse(url),
            ReleaseStrategy::Local(config) => config.parse(url),
        }
    }

    open spec fn latest_release_spec(&self) -> LatestReleaseView {
        match self {
            ReleaseStrategy::Github(config) => config.latest_release_spec(),
            ReleaseStrategy::Local(config) => config.latest_release_spec(),
        }
    }

    fn latest_release(&self) -> (r: LatestRelease) {
        match self {
            ReleaseStrategy::Github(config) => config.latest_release(),
            ReleaseStrategy::Local(config) => config.latest_release(),
        }
    }
}

impl Release {
    /// Begins the installation of this release below `data_dir`. A
    /// local release cannot be downloaded; for a GitHub release the
    /// result is the download and the first thing to do for it.
    pub fn download(&self, data_dir: &str, no_cache: bool) -> (r: Result<
        (Download, DownloadAction),
        Error,
    >)
        ensures
            match self@ {
                ReleaseView::Github(release) => r matches Ok(begun) && begun.0@
                    == DownloadView::begin(release, data_dir@, no_cache).0 && begun.1
                    == DownloadView::begin(release, data_dir@, no_cache).1,
                ReleaseView::Local(_) => r matches Err(e) && e@ == manual_install_required_error(),
            },
    {
        match self {
            Release::Github(github_release) => Ok(github_release.download(data_dir, no_cache)),
            Release::Local(_) => Err(Error::manual_install_required()),
        }
    }
}

impl ReleaseView {
    /// The subprocess that slices `src_path` with this release, whose
    /// binary stands below `data_dir` where it is a GitHub release.
    pub open spec fn command(
        self,
        data_dir: Seq<char>,
        src_path: Seq<char>,
        config_path: Seq<char>,
        gcode_path: Seq<char>,
    ) -> CommandView {
        match self {
            ReleaseView::Github(release) => slic3r::command_spec(
                release.bin_path(data_dir),
                config_path,
                gcode_path,
                src_path,
            ),
            ReleaseView::Local(release) => belt_engine::command_spec(
                release.config.bin_path,
                config_path,
                gcode_path,
                src_path,
            ),
        }
    }

    /// The error that says that the binary of this release is absent.
    pub open spec fn not_installed_error(self) -> ErrorView {
        match self {
            ReleaseView::Github(release) => github_not_installed_error(
                release.config.repo,
                release.tag,
            ),
            ReleaseView::Local(_) => local_not_installed_error(),
        }
    }
}

/// The progress stream of one run, from first item to last. There is
/// one item, and it ends the stream: the error that kept the engine
/// from being invoked, or else what the engine's exit amounts to.
pub open spec fn stream_of(run: Result<Output, Error>) -> Seq<Result<u32, ErrorView>> {
    seq![
        match run {
            Ok(output) => output_item(output),
            Err(e) => Err(e@),
        },
    ]
}

impl Release {
    /// The subprocess that turns `src_path` into `gcode_path` with this
    /// release and the profile `config_path`, where the binary of the
    /// release is `installed`; the error that the progress stream
    /// yields in its place where it is not. `data_dir` is where GitHub
    /// releases are installed.
    pub fn generate_gcode(
        self,
        src_path: String,
        config_path: String,
        gcode_path: String,
        data_dir: &str,
        installed: bool,
    ) -> (r: Result<Command, Error>)
        ensures
            installed ==> (r matches Ok(command) && command@ == self@.command(
                data_dir@,
                src_path@,
                config_path@,
                gcode_path@,
            )),
            !installed ==> (r matches Err(e) && e@ == self@.not_installed_error()),
    {
        match self {
            Release::Github(release) => slic3r::generate_gcode(
                &ExecutionContext { release, src_path, config_path, gcode_path },
                data_dir,
                installed,
            ),
            Release::Local(release) => belt_engine::generate_gcode(
                &ExecutionContext { release, src_path, config_path, gcode_path },
                installed,
            ),
        }
    }

    /// The items of the progress stream of one run, in order: `run` is
    /// how the engine ended, or the error that kept it from being
    /// invoked.
    pub fn progress_stream(run: Result<Output, Error>) -> (items: Vec<Result<u32, Error>>)
        ensures
            item_views(items@) == stream_of(run),
    {
        let item = match run {
            Ok(output) => progress_item(output),
            Err(e) => Err(e),
        };
        let mut items: Vec<Result<u32, Error>> = Vec::new();
        items.push(item);
        assert(item_views(items@) =~= stream_of(run));
        items
    }
}

} // verus!
