//! What a download request can end in, and how the downloader's result maps
//! onto it.
use vstd::prelude::*;

verus! {

/// Text shown when the downloader finished successfully.
pub const SUCCESS_MESSAGE: &'static str = "Validations passed we should youtube download.";

/// Text shown when the URL is not recognized.
pub const INVALID_URL_MESSAGE: &'static str = "Invalid YouTube URL";

/// Text shown when a directory is required and none was chosen.
pub const NO_DIRECTORY_MESSAGE: &'static str = "No directory chosen";

/// Text put before the reason when the downloader could not be started.
pub const LAUNCH_FAILURE_PREFIX: &'static str = "Failed to execute downloader: ";

/// The reasons a request can fail.
#[derive(Debug, Clone)]
pub enum DownloadError {
    /// The URL does not have a recognized shape.
    InvalidUrl,
    /// A directory is required and none has been chosen.
    NoDirectoryChosen,
    /// The downloader could not be started; holds the launch error's text.
    LaunchFailure(String),
    /// The downloader ran and exited with a non-zero code; holds its error output.
    ExecutionFailure(String),
}

/// The terminal result of one request.
#[derive(Debug, Clone)]
pub enum DownloadOutcome {
    /// The downloader exited with code zero; holds the confirmation text.
    Success(String),
    /// The request failed.
    Failure(DownloadError),
}

/// What running the downloader gave back.
#[derive(Debug, Clone)]
pub enum ProcessResult {
    /// The process ran to its end with this exit code and error output.
    Exited { code: i32, stderr: String },
    /// The process could not be started; holds the launch error's text.
    LaunchFailed(String),
}

/// The text shown to the user for an error.
pub open spec fn error_text(e: DownloadError) -> Seq<char> {
    match e {
        DownloadError::InvalidUrl => INVALID_URL_MESSAGE@,
        DownloadError::NoDirectoryChosen => NO_DIRECTORY_MESSAGE@,
        DownloadError::LaunchFailure(reason) => LAUNCH_FAILURE_PREFIX@ + reason@,
        DownloadError::ExecutionFailure(stderr) => stderr@,
    }
}

/// The text shown to the user for an outcome.
pub open spec fn outcome_text(o: DownloadOutcome) -> Seq<char> {
    match o {
        DownloadOutcome::Success(m) => m@,
        DownloadOutcome::Failure(e) => error_text(e),
    }
}

/// `o` is the outcome owed for the downloader's result `res`: success with the
/// fixed confirmation on exit code zero, the error output on any other code,
/// and a launch failure when the process did not start.
pub open spec fn is_outcome_of(res: ProcessResult, o: DownloadOutcome) -> bool {
    match res {
        ProcessResult::Exited { code, stderr } => if code == 0 {
            o is Success && o->Success_0@ == SUCCESS_MESSAGE@
        } else {
            o == DownloadOutcome::Failure(DownloadError::ExecutionFailure(stderr))
        },
        ProcessResult::LaunchFailed(reason) => o == DownloadOutcome::Failure(
            DownloadError::LaunchFailure(reason),
        ),
    }
}

/// The text shown to the user once the downloader's result `res` is known.
pub open spec fn result_text(res: ProcessResult) -> Seq<char> {
    match res {
        ProcessResult::Exited { code, stderr } => if code == 0 {
            SUCCESS_MESSAGE@
        } else {
            stderr@
        },
        ProcessResult::LaunchFailed(reason) => LAUNCH_FAILURE_PREFIX@ + reason@,
    }
}

impl DownloadError {
    /// The text shown to the user for this error.
    pub fn message(&self) -> (r: String)
        ensures
            r@ == error_text(*self),
    {
        match self {
            DownloadError::InvalidUrl => String::from_str(INVALID_URL_MESSAGE),
            DownloadError::NoDirectoryChosen => String::from_str(NO_DIRECTORY_MESSAGE),
            DownloadError::LaunchFailure(reason) => {
                let mut m = String::from_str(LAUNCH_FAILURE_PREFIX);
                m.append(reason.as_str());
                m
            },
            DownloadError::ExecutionFailure(stderr) => stderr.clone(),
        }
    }
}

impl DownloadOutcome {
    /// The text shown to the user for this outcome.
    pub fn message(&self) -> (r: String)
        ensures
            r@ == outcome_text(*self),
    {
        match self {
            DownloadOutcome::Success(m) => m.clone(),
            DownloadOutcome::Failure(e) => e.message(),
        }
    }

    /// Whether the request succeeded.
    pub fn is_success(&self) -> (r: bool)
        ensures
            r == (*self is Success),
    {
        match self {
            DownloadOutcome::Success(_) => true,
            DownloadOutcome::Failure(_) => false,
        }
    }
}

/// Maps the downloader's result to the outcome of the request.
pub fn outcome_of(res: ProcessResult) -> (r: DownloadOutcome)
    ensures
        is_outcome_of(res, r),
        outcome_text(r) == result_text(res),
{
    match res {
        ProcessResult::Exited { code, stderr } => {
            if code == 0 {
                DownloadOutcome::Success(String::from_str(SUCCESS_MESSAGE))
            } else {
                DownloadOutcome::Failure(DownloadError::ExecutionFailure(stderr))
            }
        },
        ProcessResult::LaunchFailed(reason) => DownloadOutcome::Failure(
            DownloadError::LaunchFailure(reason),
        ),
    }
}

} // verus!
