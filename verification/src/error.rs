//! Error kinds of the job and release engine, each with the message
//! that a failed job reports.
use vstd::prelude::*;
use vstd::string::StringExecFns;

verus! {

/// What went wrong.
#[derive(Clone, Copy, Debug, PartialEq, Eq, Structural)]
pub enum ErrorKind {
    /// No job with the given id is in the registry.
    JobNotFound,
    /// The locator matched no engine of the catalog.
    EngineNotFound,
    /// The locator is not a release URL of the strategy that was asked.
    ReleaseParseError,
    /// The engine binary is absent from its install path.
    NotInstalled,
    /// No asset of the release satisfies the engine's selection rule.
    AssetNotFound,
    /// The network or the filesystem failed during a fetch.
    DownloadError,
    /// The engine could not be spawned or exited with a failure.
    SubprocessError,
    /// A download was asked of a release that only exists locally.
    ManualInstallRequired,
    /// The platform offers no application directories.
    DirectoriesUnavailable,
    /// The job queue no longer has a consumer.
    QueueClosed,
    /// The job is not in the state that the step starts from.
    InvalidTransition,
    /// A client key could not be made or is already there.
    KeyError,
    /// The caller did not show that it may use the server.
    Unauthorized,
    /// A file could not be read.
    IoError,
}

/// An error: its kind and the message shown to the user.
#[derive(Debug)]
pub struct Error {
    pub kind: ErrorKind,
    pub message: String,
}

/// The mathematical value of an [`Error`].
pub struct ErrorView {
    pub kind: ErrorKind,
    pub message: Seq<char>,
}

impl View for Error {
    type V = ErrorView;

    open spec fn view(&self) -> ErrorView {
        ErrorView { kind: self.kind, message: self.message@ }
    }
}

/// A string literal in quotes with its special characters escaped, as
/// the `Debug` formatting of `str` writes it.
pub uninterp spec fn debug_quoted_of(s: Seq<char>) -> Seq<char>;

/// Formats `s` with `{:?}`. The result is a function of `s` alone; the
/// contract names it `debug_quoted_of` and claims nothing more.
#[verifier::external_body]
pub(crate) fn debug_quoted(s: &str) -> (r: String)
    ensures
        r@ == debug_quoted_of(s@),
{
    format!("{:?}", s)
}

/// No job of that id is in the registry.
pub open spec fn job_not_found_error() -> ErrorView {
    ErrorView { kind: ErrorKind::JobNotFound, message: "Unable to find job"@ }
}

/// No job of that id is known to the API.
pub open spec fn job_unknown_error() -> ErrorView {
    ErrorView { kind: ErrorKind::JobNotFound, message: "Job not found"@ }
}

/// The toolpath of a job could not be read.
pub open spec fn gcode_unreadable_error() -> ErrorView {
    ErrorView { kind: ErrorKind::IoError, message: "Error reading GCode file"@ }
}

/// The catalog has no engine of the id `id`.
pub open spec fn unknown_engine_error(id: Seq<char>) -> ErrorView {
    ErrorView { kind: ErrorKind::EngineNotFound, message: "Unknown engine: "@ + id }
}

/// The engine `id` has no release that could be fetched.
pub open spec fn manual_install_error(id: Seq<char>) -> ErrorView {
    ErrorView {
        kind: ErrorKind::ManualInstallRequired,
        message: id + " must be manually installed"@,
    }
}

/// No engine of the catalog recognises `locator`.
pub open spec fn engine_not_found_error(locator: Seq<char>) -> ErrorView {
    ErrorView {
        kind: ErrorKind::EngineNotFound,
        message: "Engine not found for release url: "@ + debug_quoted_of(locator),
    }
}

/// `url` is not the address of a tagged release of the repository.
pub open spec fn invalid_github_url_error(url: Seq<char>) -> ErrorView {
    ErrorView { kind: ErrorKind::ReleaseParseError, message: "Invalid Github release URL: "@ + url }
}

/// The URL is not the one that stands for the local engine.
pub open spec fn invalid_local_url_error() -> ErrorView {
    ErrorView {
        kind: ErrorKind::ReleaseParseError,
        message: "Incorrect release URL for locally installed engine"@,
    }
}

/// The binary of the release `tag` of `repo` is absent.
pub open spec fn github_not_installed_error(repo: Seq<char>, tag: Seq<char>) -> ErrorView {
    ErrorView {
        kind: ErrorKind::NotInstalled,
        message: repo + " "@ + tag + " is not installed"@,
    }
}

/// The binary of a local engine is absent: nothing can fetch it, so
/// the message says what is to be done.
pub open spec fn local_not_installed_error() -> ErrorView {
    ErrorView { kind: ErrorKind::NotInstalled, message: "Engine must be manually installed"@ }
}

/// The release `tag` of `repo` has no asset that fits.
pub open spec fn asset_not_found_error(repo: Seq<char>, tag: Seq<char>) -> ErrorView {
    ErrorView {
        kind: ErrorKind::AssetNotFound,
        message: "Binary not found in Github release assets for "@ + repo + " version "@ + tag,
    }
}

/// The network or the file system failed for the reason `message`.
pub open spec fn download_error(message: Seq<char>) -> ErrorView {
    ErrorView { kind: ErrorKind::DownloadError, message }
}

/// The engine exited with a failure and left `stderr` on its standard
/// error.
pub open spec fn subprocess_error(stderr: Seq<char>) -> ErrorView {
    ErrorView { kind: ErrorKind::SubprocessError, message: stderr }
}

/// The engine could not be spawned.
pub open spec fn spawn_error() -> ErrorView {
    ErrorView { kind: ErrorKind::SubprocessError, message: "Slicer error"@ }
}

/// A local release was asked to download itself.
pub open spec fn manual_install_required_error() -> ErrorView {
    ErrorView {
        kind: ErrorKind::ManualInstallRequired,
        message: "Engine must be manually installed"@,
    }
}

/// The platform names no directories for the application.
pub open spec fn directories_unavailable_error() -> ErrorView {
    ErrorView {
        kind: ErrorKind::DirectoriesUnavailable,
        message: "Unable to get application directories, is this OS supported?"@,
    }
}

/// The queue took no job id, for want of a consumer.
pub open spec fn queue_closed_error() -> ErrorView {
    ErrorView { kind: ErrorKind::QueueClosed, message: "channel closed"@ }
}

/// The job was to be started and does not wait.
pub open spec fn not_waiting_error() -> ErrorView {
    ErrorView { kind: ErrorKind::InvalidTransition, message: "Job is not waiting"@ }
}

/// The job was to go on or to end and is not started.
pub open spec fn not_started_error() -> ErrorView {
    ErrorView { kind: ErrorKind::InvalidTransition, message: "Job is not running"@ }
}

/// An error of the kind `KeyError` with this message.
pub open spec fn key_error(message: Seq<char>) -> ErrorView {
    ErrorView { kind: ErrorKind::KeyError, message }
}

/// An error of the kind `Unauthorized` with this message.
pub open spec fn unauthorized_error(message: Seq<char>) -> ErrorView {
    ErrorView { kind: ErrorKind::Unauthorized, message }
}

impl Error {
    /// See [`key_error`].
    pub fn key(message: &str) -> (e: Error)
        ensures
            e@ == key_error(message@),
    {
        Error { kind: ErrorKind::KeyError, message: String::from_str(message) }
    }

    /// See [`unauthorized_error`].
    pub fn unauthorized(message: &str) -> (e: Error)
        ensures
            e@ == unauthorized_error(message@),
    {
        Error { kind: ErrorKind::Unauthorized, message: String::from_str(message) }
    }

    /// See [`not_waiting_error`].
    pub fn not_waiting() -> (e: Error)
        ensures
            e@ == not_waiting_error(),
    {
        Error { kind: ErrorKind::InvalidTransition, message: String::from_str("Job is not waiting") }
    }

    /// See [`not_started_error`].
    pub fn not_started() -> (e: Error)
        ensures
            e@ == not_started_error(),
    {
        Error { kind: ErrorKind::InvalidTransition, message: String::from_str("Job is not running") }
    }

    /// See [`job_not_found_error`].
    pub fn job_not_found() -> (e: Error)
        ensures
            e@ == job_not_found_error(),
    {
        Error { kind: ErrorKind::JobNotFound, message: String::from_str("Unable to find job") }
    }

    /// See [`job_unknown_error`].
    pub fn job_unknown() -> (e: Error)
        ensures
            e@ == job_unknown_error(),
    {
        Error { kind: ErrorKind::JobNotFound, message: String::from_str("Job not found") }
    }

    /// See [`gcode_unreadable_error`].
    pub fn gcode_unreadable() -> (e: Error)
        ensures
            e@ == gcode_unreadable_error(),
    {
        Error { kind: ErrorKind::IoError, message: String::from_str("Error reading GCode file") }
    }

    /// See [`unknown_engine_error`].
    pub fn unknown_engine(id: &str) -> (e: Error)
        ensures
            e@ == unknown_engine_error(id@),
    {
        let mut message = String::from_str("Unknown engine: ");
        message.append(id);
        Error { kind: ErrorKind::EngineNotFound, message }
    }

    /// See [`manual_install_error`].
    pub fn manual_install(id: &str) -> (e: Error)
        ensures
            e@ == manual_install_error(id@),
    {
        let mut message = String::from_str(id);
        message.append(" must be manually installed");
        Error { kind: ErrorKind::ManualInstallRequired, message }
    }

    /// See [`engine_not_found_error`].
    pub fn engine_not_found(locator: &str) -> (e: Error)
        ensures
            e@ == engine_not_found_error(locator@),
    {
        let mut message = String::from_str("Engine not found for release url: ");
        let quoted = debug_quoted(locator);
        message.append(quoted.as_str());
        Error { kind: ErrorKind::EngineNotFound, message }
    }

    /// See [`invalid_github_url_error`].
    pub fn invalid_github_url(url: &str) -> (e: Error)
        ensures
            e@ == invalid_github_url_error(url@),
    {
        let mut message = String::from_str("Invalid Github release URL: ");
        message.append(url);
        Error { kind: ErrorKind::ReleaseParseError, message }
    }

    /// See [`invalid_local_url_error`].
    pub fn invalid_local_url() -> (e: Error)
        ensures
            e@ == invalid_local_url_error(),
    {
        Error {
            kind: ErrorKind::ReleaseParseError,
            message: String::from_str("Incorrect release URL for locally installed engine"),
        }
    }

    /// See [`github_not_installed_error`].
    pub fn github_not_installed(repo: &str, tag: &str) -> (e: Error)
        ensures
            e@ == github_not_installed_error(repo@, tag@),
    {
        let mut message = String::from_str(repo);
        message.append(" ");
        message.append(tag);
        message.append(" is not installed");
        Error { kind: ErrorKind::NotInstalled, message }
    }

    /// See [`local_not_installed_error`].
    pub fn local_not_installed() -> (e: Error)
        ensures
            e@ == local_not_installed_error(),
    {
        Error {
            kind: ErrorKind::NotInstalled,
            message: String::from_str("Engine must be manually installed"),
        }
    }

    /// See [`asset_not_found_error`].
    pub fn asset_not_found(repo: &str, tag: &str) -> (e: Error)
        ensures
            e@ == asset_not_found_error(repo@, tag@),
    {
        let mut message = String::from_str("Binary not found in Github release assets for ");
        message.append(repo);
        message.append(" version ");
        message.append(tag);
        Error { kind: ErrorKind::AssetNotFound, message }
    }

    /// See [`download_error`].
    pub fn download(message: String) -> (e: Error)
        ensures
            e@ == download_error(message@),
    {
        Error { kind: ErrorKind::DownloadError, message }
    }

    /// See [`subprocess_error`].
    pub fn subprocess(stderr: String) -> (e: Error)
        ensures
            e@ == subprocess_error(stderr@),
    {
        Error { kind: ErrorKind::SubprocessError, message: stderr }
    }

    /// See [`spawn_error`].
    pub fn spawn_failed() -> (e: Error)
        ensures
            e@ == spawn_error(),
    {
        Error { kind: ErrorKind::SubprocessError, message: String::from_str("Slicer error") }
    }

    /// See [`manual_install_required_error`].
    pub fn manual_install_required() -> (e: Error)
        ensures
            e@ == manual_install_required_error(),
    {
        Error {
            kind: ErrorKind::ManualInstallRequired,
            message: String::from_str("Engine must be manually installed"),
        }
    }

    /// See [`directories_unavailable_error`].
    pub fn directories_unavailable() -> (e: Error)
        ensures
            e@ == directories_unavailable_error(),
    {
        Error {
            kind: ErrorKind::DirectoriesUnavailable,
            message: String::from_str(
                "Unable to get application directories, is this OS supported?",
            ),
        }
    }

    /// See [`queue_closed_error`].
    pub fn queue_closed() -> (e: Error)
        ensures
            e@ == queue_closed_error(),
    {
        Error { kind: ErrorKind::QueueClosed, message: String::from_str("channel closed") }
    }

    /// A copy of this error.
    pub fn duplicate(&self) -> (e: Error)
        ensures
            e@ == self@,
    {
        Error { kind: self.kind, message: self.message.clone() }
    }
}

/// An error on its way to an HTTP caller.
#[derive(Debug)]
pub struct AppError {
    pub error: Error,
}

pub type AppResult<T> = Result<T, AppError>;

impl View for AppError {
    type V = ErrorView;

    open spec fn view(&self) -> ErrorView {
        self.error@
    }
}

/// The status code of every error response.
pub const INTERNAL_SERVER_ERROR: u16 = 500;

impl AppError {
    /// The status code and body of the response that reports this error.
    pub fn into_response(self) -> (r: (u16, String))
        ensures
            r.0 == INTERNAL_SERVER_ERROR,
            r.1@ == "Something went wrong: "@ + self@.message,
    {
        let mut body = String::from_str("Something went wrong: ");
        body.append(self.error.message.as_str());
        (INTERNAL_SERVER_ERROR, body)
    }
}

impl From<Error> for AppError {
    fn from(err: Error) -> (r: AppError)
    {
        AppError { error: err }
    }
}

impl vstd::std_specs::convert::FromSpecImpl<Error> for AppError {
    open spec fn obeys_from_spec() -> bool {
        true
    }

    open spec fn from_spec(err: Error) -> AppError {
        AppError { error: err }
    }
}

} // verus!
