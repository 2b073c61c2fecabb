//! The catalog of slicing engines.
use crate::error::{
    download_error, engine_not_found_error, invalid_github_url_error, manual_install_error,
    unknown_engine_error, Error, ErrorView,
};
use crate::execution_context::string_views;
use crate::release::github_release::{Download, DownloadAction, DownloadView};
use crate::release::github_req_client::ApiRequest;
use crate::release::{
    LatestRelease, LatestReleaseView, LocalRelease, LocalReleaseView, Release, ReleaseConfig,
    ReleaseStrategy, ReleaseStrategyView, ReleaseView,
};
use crate::text::same_text;
use vstd::prelude::*;
use vstd::string::StringExecFns;

pub mod belt_engine;
pub mod slic3r;

verus! {

/// True for each axis about which the rotation direction should be
/// visually reversed.
#[derive(Clone, Copy, Debug, PartialEq, Eq, Structural)]
pub struct InvertRotation {
    pub x: bool,
    pub y: bool,
    pub z: bool,
}

impl Default for InvertRotation {
    fn default() -> (r: InvertRotation)
        ensures
            r == (InvertRotation { x: false, y: false, z: false }),
    {
        InvertRotation { x: false, y: false, z: false }
    }
}

/// A transform that scales each axis by a whole factor.
#[derive(Clone, Copy, Debug, PartialEq, Eq, Structural)]
pub struct AxisScale {
    pub x: i8,
    pub y: i8,
    pub z: i8,
}

impl AxisScale {
    /// The entry in row `i`, column `j` of the 4×4 matrix of this
    /// transform: the factors on the diagonal, then 1, and 0 elsewhere.
    pub open spec fn entry(self, i: int, j: int) -> i8 {
        if i != j {
            0
        } else if i == 0 {
            self.x
        } else if i == 1 {
            self.y
        } else if i == 2 {
            self.z
        } else {
            1
        }
    }

    /// The 4×4 matrix of this transform, row by row.
    pub fn rows(&self) -> (m: Vec<Vec<i8>>)
        ensures
            m@.len() == 4,
            forall|i: int| 0 <= i < 4 ==> (#[trigger] m@[i])@.len() == 4,
            forall|i: int, j: int| 0 <= i < 4 && 0 <= j < 4 ==> m@[i]@[j] == self.entry(i, j),
    {
        let mut m: Vec<Vec<i8>> = Vec::new();
        m.push(vec![self.x, 0, 0, 0]);
        m.push(vec![0, self.y, 0, 0]);
        m.push(vec![0, 0, self.z, 0]);
        m.push(vec![0, 0, 0, 1]);
        m
    }
}

/// A slicer or other engine that converts various file formats into
/// GCode.
#[derive(Debug)]
pub struct Engine {
    pub id: String,
    pub name: String,
    /// Engine-specific transform to be applied before any
    /// model-specific transforms when exporting a mesh for slicing.
    pub transform_mat4: AxisScale,
    /// True if the engine allows parts to be positioned on the bed of
    /// the machine.
    pub allows_positioning: bool,
    /// True for each axis about which the rotation direction should be
    /// visually reversed.
    pub invert_rotation: InvertRotation,
    /// The file formats accepted by the engine.
    pub accepted_file_formats: Vec<String>,
    /// The Github releases page (if applicable).
    pub release_url: Option<String>,
    pub home_page: String,
    pub release_config: ReleaseStrategy,
}

pub struct EngineView {
    pub id: Seq<char>,
    pub name: Seq<char>,
    pub transform_mat4: AxisScale,
    pub allows_positioning: bool,
    pub invert_rotation: InvertRotation,
    pub accepted_file_formats: Seq<Seq<char>>,
    pub release_url: Option<Seq<char>>,
    pub home_page: Seq<char>,
    pub release_config: ReleaseStrategyView,
}

impl View for Engine {
    type V = EngineView;

    open spec fn view(&self) -> EngineView {
        EngineView {
            id: self.id@,
            name: self.name@,
            transform_mat4: self.transform_mat4,
            allows_positioning: self.allows_positioning,
            invert_rotation: self.invert_rotation,
            accepted_file_formats: string_views(self.accepted_file_formats@),
            release_url: match self.release_url {
                Some(url) => Some(url@),
                None => None,
            },
            home_page: self.home_page@,
            release_config: self.release_config@,
        }
    }
}

impl Engine {
    /// The 4×4 matrix of the engine's transform, row by row.
    pub fn transform_mat4(&self) -> (m: Vec<Vec<i8>>)
        ensures
            m@.len() == 4,
            forall|i: int| 0 <= i < 4 ==> (#[trigger] m@[i])@.len() == 4,
            forall|i: int, j: int|
                0 <= i < 4 && 0 <= j < 4 ==> m@[i]@[j] == self.transform_mat4.entry(i, j),
    {
        self.transform_mat4.rows()
    }
}

/// The views of a list of engines, in order.
pub open spec fn engine_views(engines: Seq<Engine>) -> Seq<EngineView> {
    engines.map_values(|engine: Engine| engine@)
}

/// The release that the first engine from index `from` on makes of
/// `locator`, where one does.
pub open spec fn release_from(engines: Seq<EngineView>, locator: Seq<char>, from: int) -> Option<
    ReleaseView,
>
    decreases engines.len() - from,
{
    if from < 0 || from >= engines.len() {
        None
    } else {
        match engines[from].release_config.parse(locator) {
            Some(release) => Some(release),
            None => release_from(engines, locator, from + 1),
        }
    }
}

/// The release that `locator` names: what the first engine of the
/// catalog that recognises it makes of it.
pub open spec fn release_of(engines: Seq<EngineView>, locator: Seq<char>) -> Option<ReleaseView> {
    release_from(engines, locator, 0)
}

/// The whole catalog, in order of registration: the belt engine, whose
/// binary stands at `belt_engine_bin` (or at `beltengine` where none is
/// given), then the engines of the Slic3r family.
pub fn engines(belt_engine_bin: Option<String>) -> (r: Vec<Engine>)
    ensures
        engine_views(r@) == seq![belt_engine::engine_spec(belt_engine_bin)] + slic3r::engines_spec(),
{
    let mut all: Vec<Engine> = Vec::new();
    all.push(belt_engine::engine(belt_engine_bin));
    let mut family = slic3r::engines();
    let ghost first = all@;
    let ghost rest = family@;
    all.append(&mut family);
    assert(engine_views(first + rest) =~= engine_views(first) + engine_views(rest));
    assert(engine_views(first) =~= seq![belt_engine::engine_spec(belt_engine_bin)]);
    all
}

/// The release that `locator` names: every engine of the catalog is
/// tried in order and the first success is returned. Fails where no
/// engine recognises the locator.
pub fn find_release(engines: &Vec<Engine>, locator: &str) -> (r: Result<Release, Error>)
    ensures
        match release_of(engine_views(engines@), locator@) {
            Some(release) => r matches Ok(found) && found@ == release,
            None => r matches Err(e) && e@ == engine_not_found_error(locator@),
        },
{
    let mut i: usize = 0;
    while i < engines.len()
        invariant
            i <= engines.len(),
            release_of(engine_views(engines@), locator@) == release_from(
                engine_views(engines@),
                locator@,
                i as int,
            ),
        decreases engines.len() - i,
    {
        assert(engine_views(engines@)[i as int] == engines[i as int]@);
        match engines[i].release_config.parse(locator) {
            Ok(release) => {
                return Ok(release);
            },
            Err(_) => {},
        }
        i += 1;
    }
    Err(Error::engine_not_found(locator))
}

/// The first engine of the catalog whose id is `id`.
pub fn find_engine<'a>(engines: &'a Vec<Engine>, id: &str) -> (r: Option<&'a Engine>)
    ensures
        match r {
            Some(engine) => exists|i: int|
                0 <= i < engines.len() && engines[i] == *engine && engine.id@ == id@ && forall|
                    j: int,
                |
                    0 <= j < i ==> (#[trigger] engines[j]).id@ != id@,
            None => forall|j: int| 0 <= j < engines.len() ==> (#[trigger] engines[j]).id@ != id@,
        },
{
    let mut i: usize = 0;
    while i < engines.len()
        invariant
            i <= engines.len(),
            forall|j: int| 0 <= j < i ==> (#[trigger] engines[j]).id@ != id@,
        decreases engines.len() - i,
    {
        if same_text(engines[i].id.as_str(), id) {
            return Some(&engines[i]);
        }
        i += 1;
    }
    None
}

/// The query that lists the catalog.
#[derive(Clone, Copy, Debug, Default)]
pub struct EnginesQuery;

impl EnginesQuery {
    /// Every engine of the catalog, in order of registration.
    pub fn engines<'a>(&self, engines: &'a Vec<Engine>) -> (r: Vec<&'a Engine>)
        ensures
            r@.len() == engines@.len(),
            forall|i: int| 0 <= i < r@.len() ==> *r@[i] == engines@[i],
    {
        let mut listed: Vec<&'a Engine> = Vec::new();
        let mut i: usize = 0;
        while i < engines.len()
            invariant
                i <= engines.len(),
                listed@.len() == i,
                forall|j: int| 0 <= j < i ==> *listed@[j] == engines@[j],
            decreases engines.len() - i,
        {
            listed.push(&engines[i]);
            i += 1;
        }
        listed
    }
}

/// The lines that list the first `count` engines, one id to a line.
pub open spec fn listed_ids(engines: Seq<EngineView>, count: int) -> Seq<char>
    decreases count,
{
    if count <= 0 {
        Seq::empty()
    } else if count == 1 {
        "  - "@ + engines[0].id
    } else {
        listed_ids(engines, count - 1) + "\n"@ + "  - "@ + engines[count - 1].id
    }
}

/// The text that tells a user which engines there are: a heading, an
/// empty line, and the ids of the catalog, one to a line.
pub fn print_engines(engines: &Vec<Engine>) -> (r: String)
    ensures
        r@ == "Available Slicing Engines:\n\n"@ + listed_ids(
            engine_views(engines@),
            engines@.len() as int,
        ),
{
    let mut text = String::from_str("Available Slicing Engines:\n\n");
    let mut i: usize = 0;
    proof {
        assert(text@ + Seq::<char>::empty() =~= text@);
    }
    while i < engines.len()
        invariant
            i <= engines.len(),
            text@ == "Available Slicing Engines:\n\n"@ + listed_ids(
                engine_views(engines@),
                i as int,
            ),
        decreases engines.len() - i,
    {
        let ghost before = text@;
        if i > 0 {
            text.append("\n");
        }
        text.append("  - ");
        text.append(engines[i].id.as_str());
        proof {
            let views = engine_views(engines@);
            assert(views[i as int].id == engines[i as int].id@);
            let head = "Available Slicing Engines:\n\n"@;
            if i > 0 {
                assert(text@ =~= head + (listed_ids(views, i as int) + "\n"@ + "  - "@
                    + views[i as int].id));
            } else {
                assert(listed_ids(views, 0) =~= Seq::<char>::empty());
                assert(text@ =~= head + ("  - "@ + views[0].id));
            }
        }
        i += 1;
    }
    text
}

/// How an installation goes on.
#[derive(Debug)]
pub enum Install {
    /// The provider has to be asked for the latest release; its answer
    /// goes to [`install_latest`].
    QueryLatest(ApiRequest),
    /// The release is known: this download has begun, with this first
    /// action.
    Download(Download, DownloadAction),
}

/// What [`install`] makes of the release that was asked for: a local
/// release is refused, a GitHub release is downloaded below `data_dir`.
pub open spec fn install_of(
    engine_id: Seq<char>,
    release: ReleaseView,
    data_dir: Seq<char>,
    force: bool,
) -> Result<(DownloadView, DownloadAction), ErrorView> {
    match release {
        ReleaseView::Github(github_release) => Ok(
            DownloadView::begin(github_release, data_dir, force),
        ),
        ReleaseView::Local(_) => Err(manual_install_error(engine_id)),
    }
}

/// The latest release of a strategy once the provider has answered
/// with `html_url`: for releases on GitHub the one that this address
/// names, for a local release the release itself.
pub open spec fn latest_of(strategy: ReleaseStrategyView, html_url: Option<&str>) -> Result<
    ReleaseView,
    ErrorView,
> {
    match strategy {
        ReleaseStrategyView::Github(config) => match html_url {
            Some(url) => match config.parse(url@) {
                Some(release) => Ok(ReleaseView::Github(release)),
                None => Err(invalid_github_url_error(url@)),
            },
            None => Err(download_error("Missing html_url in JSON"@)),
        },
        ReleaseStrategyView::Local(config) => Ok(ReleaseView::Local(LocalReleaseView { config })),
    }
}

/// Begins the download of `release` for the engine `engine_id`, or
/// refuses where the release is a local one.
pub fn install_release(engine_id: &str, release: Release, data_dir: &str, force: bool) -> (r: Result<
    (Download, DownloadAction),
    Error,
>)
    ensures
        match install_of(engine_id@, release@, data_dir@, force) {
            Ok(begun) => r matches Ok(found) && found.0@ == begun.0 && found.1 == begun.1,
            Err(error) => r matches Err(e) && e@ == error,
        },
{
    match release {
        Release::Github(github_release) => Ok(github_release.download(data_dir, force)),
        Release::Local(_) => Err(Error::manual_install(engine_id)),
    }
}

/// Goes on with an installation that had to ask for the latest
/// release of the engine `engine_id`: `html_url` is the address that
/// the provider's answer gives for it, if it gives one. Begins the
/// download of the release that this address names. Fails where the
/// catalog has no such engine, where the answer gives no address or one
/// that is none of the engine's releases, and where the engine has no
/// release but a local one.
pub fn install_latest(
    engines: &Vec<Engine>,
    engine_id: &str,
    html_url: Option<&str>,
    data_dir: &str,
    force: bool,
) -> (r: Result<(Download, DownloadAction), Error>)
    ensures
        (forall|j: int| 0 <= j < engines.len() ==> (#[trigger] engines[j]).id@ != engine_id@) ==> (
        r matches Err(e) && e@ == unknown_engine_error(engine_id@)),
        (exists|j: int| 0 <= j < engines.len() && (#[trigger] engines[j]).id@ == engine_id@)
            ==> exists|i: int|
            0 <= i < engines.len() && (#[trigger] engines[i]).id@ == engine_id@ && (forall|j: int|
                0 <= j < i ==> (#[trigger] engines[j]).id@ != engine_id@) && match latest_of(
                engines[i].release_config@,
                html_url,
            ) {
                Ok(release) => match install_of(engine_id@, release, data_dir@, force) {
                    Ok(begun) => r matches Ok(found) && found.0@ == begun.0 && found.1 == begun.1,
                    Err(error) => r matches Err(e) && e@ == error,
                },
                Err(error) => r matches Err(e) && e@ == error,
            },
{
    let engine = match find_engine(engines, engine_id) {
        Some(engine) => engine,
        None => {
            return Err(Error::unknown_engine(engine_id));
        },
    };
    let release = match &engine.release_config {
        ReleaseStrategy::Github(config) => match config.latest_release_from(html_url) {
            Ok(release) => release,
            Err(e) => {
                return Err(e);
            },
        },
        ReleaseStrategy::Local(config) => Release::Local(LocalRelease { config: config.clone() }),
    };
    install_release(engine_id, release, data_dir, force)
}

/// Begins the installation of the engine `engine_id` below `data_dir`:
/// of the release that `release_url` names or, where none is given, of
/// the latest. Fails where the catalog has no such engine, where the
/// URL is none of its releases, and where the release is a local one.
/// With `force` the binary is fetched even where it is installed.
pub fn install(
    engines: &Vec<Engine>,
    engine_id: &str,
    release_url: Option<&str>,
    data_dir: &str,
    force: bool,
) -> (r: Result<Install, Error>)
    ensures
        (forall|j: int| 0 <= j < engines.len() ==> (#[trigger] engines[j]).id@ != engine_id@) ==> (
        r matches Err(e) && e@ == unknown_engine_error(engine_id@)),
        (exists|j: int| 0 <= j < engines.len() && (#[trigger] engines[j]).id@ == engine_id@)
            ==> exists|i: int|
            0 <= i < engines.len() && (#[trigger] engines[i]).id@ == engine_id@ && (forall|j: int|
                0 <= j < i ==> (#[trigger] engines[j]).id@ != engine_id@) && match release_url {
                Some(url) => match engines[i].release_config.parse_spec(url@) {
                    Some(release) => match install_of(engine_id@, release, data_dir@, force) {
                        Ok(begun) => r matches Ok(Install::Download(download, action))
                            && download@ == begun.0 && action == begun.1,
                        Err(error) => r matches Err(e) && e@ == error,
                    },
                    None => r matches Err(e) && e@ == engines[i].release_config.parse_error(url@),
                },
                None => match engines[i].release_config.latest_release_spec() {
                    LatestReleaseView::Known(release) => match install_of(
                        engine_id@,
                        release,
                        data_dir@,
                        force,
                    ) {
                        Ok(begun) => r matches Ok(Install::Download(download, action))
                            && download@ == begun.0 && action == begun.1,
                        Err(error) => r matches Err(e) && e@ == error,
                    },
                    LatestReleaseView::Query(request) => r matches Ok(Install::QueryLatest(found))
                        && found@ == request,
                },
            },
{
    let engine = match find_engine(engines, engine_id) {
        Some(engine) => engine,
        None => {
            return Err(Error::unknown_engine(engine_id));
        },
    };
    let release = match release_url {
        Some(url) => match engine.release_config.parse(url) {
            Ok(release) => release,
            Err(e) => {
                return Err(e);
            },
        },
        None => match engine.release_config.latest_release() {
            LatestRelease::Known(release) => release,
            LatestRelease::Query(request) => {
                return Ok(Install::QueryLatest(request));
            },
        },
    };
    match install_release(engine_id, release, data_dir, force) {
        Ok(begun) => Ok(Install::Download(begun.0, begun.1)),
        Err(e) => Err(e),
    }
}

} // verus!
