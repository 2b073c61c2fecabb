//! The parameters handed to an engine's invocation strategy, and what
//! passes between the library and the subprocess that runs the engine.
use crate::error::{spawn_error, subprocess_error, Error, ErrorView};
use vstd::prelude::*;

verus! {

/// One slicing request as an engine sees it: the release to run and
/// the paths of the model, the profile and the toolpath to write.
#[derive(Debug)]
pub struct ExecutionContext<R> {
    pub release: R,
    pub src_path: String,
    pub config_path: String,
    pub gcode_path: String,
}

/// A subprocess to spawn: the program and its arguments, in order.
#[derive(Debug)]
pub struct Command {
    pub program: String,
    pub args: Vec<String>,
}

pub struct CommandView {
    pub program: Seq<char>,
    pub args: Seq<Seq<char>>,
}

/// The views of a list of strings, in order.
pub open spec fn string_views(strings: Seq<String>) -> Seq<Seq<char>> {
    strings.map_values(|s: String| s@)
}

impl View for Command {
    type V = CommandView;

    open spec fn view(&self) -> CommandView {
        CommandView { program: self.program@, args: string_views(self.args@) }
    }
}

/// How a subprocess ended.
#[derive(Debug)]
pub enum Output {
    /// It could not be spawned.
    SpawnFailed,
    /// It ran and exited; `success` says whether with exit code 0.
    Exited { success: bool, stderr: String },
}

/// The progress of a finished job: one hundred percent. Progress is
/// counted in hundredths of a percent.
pub const PERCENT_DONE: u32 = 10_000;

/// The mathematical value of one item of a progress stream: how far
/// the job has come, or why it stopped.
pub open spec fn item_view(item: Result<u32, Error>) -> Result<u32, ErrorView> {
    match item {
        Ok(percent) => Ok(percent),
        Err(e) => Err(e@),
    }
}

/// The mathematical value of a progress stream.
pub open spec fn item_views(items: Seq<Result<u32, Error>>) -> Seq<Result<u32, ErrorView>> {
    items.map_values(|item: Result<u32, Error>| item_view(item))
}

/// The one item that an engine's run leaves in its progress stream:
/// one hundred percent after exit code 0, the captured error text after
/// any other, and a fixed error where the engine was never spawned.
pub open spec fn output_item(output: Output) -> Result<u32, ErrorView> {
    match output {
        Output::SpawnFailed => Err(spawn_error()),
        Output::Exited { success, stderr } => if success {
            Ok(PERCENT_DONE)
        } else {
            Err(subprocess_error(stderr@))
        },
    }
}

/// The item that the progress stream yields once the engine has ended.
pub fn progress_item(output: Output) -> (r: Result<u32, Error>)
    ensures
        item_view(r) == output_item(output),
{
    match output {
        Output::SpawnFailed => Err(Error::spawn_failed()),
        Output::Exited { success, stderr } => if success {
            Ok(PERCENT_DONE)
        } else {
            Err(Error::subprocess(stderr))
        },
    }
}

} // verus!
