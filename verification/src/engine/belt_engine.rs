//! The belt engine, which is installed by hand.
use crate::engine::{AxisScale, Engine, EngineView, InvertRotation};
use crate::error::Error;
use crate::execution_context::{string_views, Command, CommandView, ExecutionContext};
use crate::release::{
    LocalRelease, LocalReleaseConfig, LocalReleaseConfigView, ReleaseStrategy,
    ReleaseStrategyView,
};
use vstd::prelude::*;
use vstd::string::StringExecFns;

verus! {

/// The home page of the engine, which is also its one locator.
pub const BELT_ENGINE_URL: &'static str = "https://github.com/Autodrop3d/BeltEngine";

/// Where the binary is looked for where nothing else is configured.
pub const DEFAULT_BIN_PATH: &'static str = "beltengine";

/// The path of the binary: the configured one, or the default.
pub open spec fn bin_path_spec(configured: Option<String>) -> Seq<char> {
    match configured {
        Some(path) => path@,
        None => DEFAULT_BIN_PATH@,
    }
}

/// The belt engine: it mirrors the Y axis, places parts itself, turns
/// about Z the other way, and has no release but the local one.
pub open spec fn engine_spec(configured: Option<String>) -> EngineView {
    EngineView {
        id: "belt_engine"@,
        name: "Belt Engine"@,
        transform_mat4: AxisScale { x: 1, y: -1i8, z: 1 },
        allows_positioning: false,
        invert_rotation: InvertRotation { x: false, y: false, z: true },
        accepted_file_formats: seq![".stl"@, ".obj"@],
        release_url: None,
        home_page: BELT_ENGINE_URL@,
        release_config: ReleaseStrategyView::Local(
            LocalReleaseConfigView {
                release_url: BELT_ENGINE_URL@,
                bin_path: bin_path_spec(configured),
            },
        ),
    }
}

/// The belt engine, with its binary at `bin_path` or, where none is
/// given, at the default path.
pub fn engine(bin_path: Option<String>) -> (r: Engine)
    ensures
        r@ == engine_spec(bin_path),
{
    let mut formats: Vec<String> = Vec::new();
    formats.push(String::from_str(".stl"));
    formats.push(String::from_str(".obj"));
    assert(string_views(formats@) =~= seq![".stl"@, ".obj"@]);
    Engine {
        id: String::from_str("belt_engine"),
        name: String::from_str("Belt Engine"),
        transform_mat4: AxisScale { x: 1, y: -1, z: 1 },
        allows_positioning: false,
        invert_rotation: InvertRotation { x: false, y: false, z: true },
        accepted_file_formats: formats,
        release_url: None,
        home_page: String::from_str(BELT_ENGINE_URL),
        release_config: ReleaseStrategy::Local(
            LocalReleaseConfig {
                bin_path: match bin_path {
                    Some(path) => path,
                    None => String::from_str(DEFAULT_BIN_PATH),
                },
                release_url: String::from_str(BELT_ENGINE_URL),
            },
        ),
    }
}

/// The subprocess that slices `src_path` with the binary at
/// `bin_path`: the binary runs under the account of the slicing
/// worker, with the profile, the output and the model as arguments.
pub open spec fn command_spec(
    bin_path: Seq<char>,
    config_path: Seq<char>,
    gcode_path: Seq<char>,
    src_path: Seq<char>,
) -> CommandView {
    CommandView {
        program: "su"@,
        args: seq![
            "-"@,
            "slicing-worker"@,
            "-c"@,
            bin_path,
            "-c"@,
            config_path,
            "-o"@,
            gcode_path,
            src_path,
        ],
    }
}

/// The subprocess that slices `src_path` with the binary at
/// `bin_path`.
pub fn command(bin_path: &str, config_path: &str, gcode_path: &str, src_path: &str) -> (r: Command)
    ensures
        r@ == command_spec(bin_path@, config_path@, gcode_path@, src_path@),
{
    let mut args: Vec<String> = Vec::new();
    args.push(String::from_str("-"));
    args.push(String::from_str("slicing-worker"));
    args.push(String::from_str("-c"));
    args.push(String::from_str(bin_path));
    args.push(String::from_str("-c"));
    args.push(String::from_str(config_path));
    args.push(String::from_str("-o"));
    args.push(String::from_str(gcode_path));
    args.push(String::from_str(src_path));
    assert(string_views(args@) =~= command_spec(
        bin_path@,
        config_path@,
        gcode_path@,
        src_path@,
    ).args);
    Command { program: String::from_str("su"), args }
}

/// The subprocess that carries out `exec_ctx`, where the binary of its
/// release is `installed`; an error where it is not.
pub fn generate_gcode(exec_ctx: &ExecutionContext<LocalRelease>, installed: bool) -> (r: Result<
    Command,
    Error,
>)
    ensures
        installed ==> (r matches Ok(found) && found@ == command_spec(
            exec_ctx.release@.config.bin_path,
            exec_ctx.config_path@,
            exec_ctx.gcode_path@,
            exec_ctx.src_path@,
        )),
        !installed ==> (r matches Err(e) && e@ == crate::error::local_not_installed_error()),
{
    match exec_ctx.release.bin_path_if_downloaded(installed) {
        Ok(bin_path) => Ok(
            command(
                bin_path.as_str(),
                exec_ctx.config_path.as_str(),
                exec_ctx.gcode_path.as_str(),
                exec_ctx.src_path.as_str(),
            ),
        ),
        Err(e) => Err(e),
    }
}

} // verus!
