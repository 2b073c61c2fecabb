//! Slic3r and the slicers that derive from it. All of them are fetched
//! from GitHub releases and take the same arguments.
use crate::engine::{AxisScale, Engine, EngineView, InvertRotation};
use crate::error::Error;
use crate::execution_context::{string_views, Command, CommandView, ExecutionContext};
use crate::release::{
    AssetFilter, AssetFilterView, GithubRelease, GithubReleaseConfig, GithubReleaseConfigView,
    ReleaseStrategy, ReleaseStrategyView,
};
use vstd::prelude::*;
use vstd::string::StringExecFns;

verus! {

/// The file formats that every engine of the family accepts.
pub open spec fn formats_spec() -> Seq<Seq<char>> {
    seq![".stl"@, ".obj"@, ".amf"@, ".3mf"@]
}

/// An engine of the family: it keeps the axes as they are, lets parts
/// be positioned, and installs the x64 AppImage of a GitHub release of
/// `repo`, which is the asset whose name holds `infix`.
pub open spec fn family_engine_spec(
    id: Seq<char>,
    name: Seq<char>,
    repo: Seq<char>,
    infix: Seq<char>,
) -> EngineView {
    EngineView {
        id,
        name,
        transform_mat4: AxisScale { x: 1, y: 1, z: 1 },
        allows_positioning: true,
        invert_rotation: InvertRotation { x: false, y: false, z: false },
        accepted_file_formats: formats_spec(),
        release_url: Some("https://github.com/"@ + repo + "/releases"@),
        home_page: "https://github.com/"@ + repo,
        release_config: ReleaseStrategyView::Github(
            GithubReleaseConfigView {
                repo,
                asset_filter: AssetFilterView { infix, suffix: ".AppImage"@ },
            },
        ),
    }
}

/// The engines of the family, in order of registration.
pub open spec fn engines_spec() -> Seq<EngineView> {
    seq![
        family_engine_spec("slic3r"@, "Slic3r"@, "slic3r/Slic3r"@, "-x86_64"@),
        family_engine_spec("prusa_slicer"@, "Prusa Slicer"@, "prusa3d/PrusaSlicer"@, "-x64-GTK3"@),
        family_engine_spec(
            "super_slicer"@,
            "Super Slicer"@,
            "supermerill/SuperSlicer"@,
            "-ubuntu_18.04-"@,
        ),
    ]
}

fn family_engine(id: &str, name: &str, repo: &str, infix: &str) -> (r: Engine)
    ensures
        r@ == family_engine_spec(id@, name@, repo@, infix@),
{
    let mut formats: Vec<String> = Vec::new();
    formats.push(String::from_str(".stl"));
    formats.push(String::from_str(".obj"));
    formats.push(String::from_str(".amf"));
    formats.push(String::from_str(".3mf"));
    assert(string_views(formats@) =~= formats_spec());
    let mut home_page = String::from_str("https://github.com/");
    home_page.append(repo);
    let mut release_url = home_page.clone();
    release_url.append("/releases");
    Engine {
        id: String::from_str(id),
        name: String::from_str(name),
        transform_mat4: AxisScale { x: 1, y: 1, z: 1 },
        allows_positioning: true,
        invert_rotation: InvertRotation::default(),
        accepted_file_formats: formats,
        release_url: Some(release_url),
        home_page,
        release_config: ReleaseStrategy::Github(
            GithubReleaseConfig {
                repo: String::from_str(repo),
                asset_filter: AssetFilter {
                    infix: String::from_str(infix),
                    suffix: String::from_str(".AppImage"),
                },
            },
        ),
    }
}

/// The engines of the family, in order of registration: Slic3r, Prusa
/// Slicer and Super Slicer.
pub fn engines() -> (r: Vec<Engine>)
    ensures
        crate::engine::engine_views(r@) == engines_spec(),
{
    let mut all: Vec<Engine> = Vec::new();
    all.push(family_engine("slic3r", "Slic3r", "slic3r/Slic3r", "-x86_64"));
    all.push(family_engine("prusa_slicer", "Prusa Slicer", "prusa3d/PrusaSlicer", "-x64-GTK3"));
    all.push(
        family_engine("super_slicer", "Super Slicer", "supermerill/SuperSlicer", "-ubuntu_18.04-"),
    );
    assert(crate::engine::engine_views(all@) =~= engines_spec());
    all
}

/// The subprocess that slices `src_path` with the binary at
/// `bin_path`: the binary runs under the account of the slicing
/// worker, loads the profile, names the output and slices the model.
pub open spec fn command_spec(
    bin_path: Seq<char>,
    config_path: Seq<char>,
    gcode_path: Seq<char>,
    src_path: Seq<char>,
) -> CommandView {
    CommandView {
        program: "su"@,
        args: seq![
            "-"@,
            "slicing-worker"@,
            "-c"@,
            bin_path,
            "--load"@,
            config_path,
            "--output"@,
            gcode_path,
            "--slice"@,
            src_path,
        ],
    }
}

/// The subprocess that slices `src_path` with the binary at
/// `bin_path`.
pub fn command(bin_path: &str, config_path: &str, gcode_path: &str, src_path: &str) -> (r: Command)
    ensures
        r@ == command_spec(bin_path@, config_path@, gcode_path@, src_path@),
{
    let mut args: Vec<String> = Vec::new();
    args.push(String::from_str("-"));
    args.push(String::from_str("slicing-worker"));
    args.push(String::from_str("-c"));
    args.push(String::from_str(bin_path));
    args.push(String::from_str("--load"));
    args.push(String::from_str(config_path));
    args.push(String::from_str("--output"));
    args.push(String::from_str(gcode_path));
    args.push(String::from_str("--slice"));
    args.push(String::from_str(src_path));
    assert(string_views(args@) =~= command_spec(
        bin_path@,
        config_path@,
        gcode_path@,
        src_path@,
    ).args);
    Command { program: String::from_str("su"), args }
}

/// The subprocess that carries out `exec_ctx`, where the binary of its
/// release is `installed` below `data_dir`; an error where it is not.
pub fn generate_gcode(
    exec_ctx: &ExecutionContext<GithubRelease>,
    data_dir: &str,
    installed: bool,
) -> (r: Result<Command, Error>)
    ensures
        installed ==> (r matches Ok(found) && found@ == command_spec(
            exec_ctx.release@.bin_path(data_dir@),
            exec_ctx.config_path@,
            exec_ctx.gcode_path@,
            exec_ctx.src_path@,
        )),
        !installed ==> (r matches Err(e) && e@ == crate::error::github_not_installed_error(
            exec_ctx.release@.config.repo,
            exec_ctx.release@.tag,
        )),
{
    match exec_ctx.release.bin_path_if_downloaded(data_dir, installed) {
        Ok(bin_path) => Ok(
            command(
                bin_path.as_str(),
                exec_ctx.config_path.as_str(),
                exec_ctx.gcode_path.as_str(),
                exec_ctx.src_path.as_str(),
            ),
        ),
        Err(e) => Err(e),
    }
}

} // verus!
