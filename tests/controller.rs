use youtube_downloader::controller::{Action, Controller, Message};
use youtube_downloader::outcome::{
    outcome_of, DownloadError, DownloadOutcome, ProcessResult, LAUNCH_FAILURE_PREFIX,
    SUCCESS_MESSAGE,
};
use youtube_downloader::request::{post_processing_args, DownloadRequest, USER_AGENT};

/// Stands in for the external downloader: records each request and answers
/// with a fixed result.
struct FakeDownloader {
    calls: Vec<(String, Option<String>)>,
    answer: fn() -> ProcessResult,
}

impl FakeDownloader {
    fn new(answer: fn() -> ProcessResult) -> FakeDownloader {
        FakeDownloader { calls: Vec::new(), answer }
    }

    fn run(&mut self, req: &DownloadRequest) -> ProcessResult {
        self.calls.push((req.url.clone(), req.directory.clone()));
        (self.answer)()
    }
}

fn exit_ok() -> ProcessResult {
    ProcessResult::Exited { code: 0, stderr: String::new() }
}

fn exit_unreachable() -> ProcessResult {
    ProcessResult::Exited { code: 1, stderr: "network unreachable".to_string() }
}

fn spawn_error() -> ProcessResult {
    ProcessResult::LaunchFailed("No such file or directory (os error 2)".to_string())
}

/// Dispatches and, when a request comes out, runs it on the fake and
/// completes it.
fn dispatch_and_run(c: &mut Controller, fake: &mut FakeDownloader) -> Result<DownloadOutcome, DownloadError> {
    let req = c.dispatch()?;
    let res = fake.run(&req);
    Ok(c.complete(res))
}

fn with_url(url: &str, require_directory: bool) -> Controller {
    let mut c = Controller::new(require_directory);
    c.set_url(url.to_string());
    c
}

#[test]
fn new_controller_is_empty() {
    let c = Controller::new(true);
    assert_eq!(c.url, "");
    assert_eq!(c.directory, None);
    assert_eq!(c.message, "");
    assert!(c.require_directory);
}

#[test]
fn invalid_url_never_invokes_downloader() {
    let mut c = with_url("https://vimeo.com/123", false);
    let mut fake = FakeDownloader::new(exit_ok);
    let r = dispatch_and_run(&mut c, &mut fake);
    assert!(matches!(r, Err(DownloadError::InvalidUrl)));
    assert_eq!(fake.calls.len(), 0);
    assert_eq!(c.message, "Invalid YouTube URL");
}

#[test]
fn invalid_url_wins_over_missing_directory() {
    let mut c = with_url("youtube.com/", true);
    let mut fake = FakeDownloader::new(exit_ok);
    let r = dispatch_and_run(&mut c, &mut fake);
    assert!(matches!(r, Err(DownloadError::InvalidUrl)));
    assert_eq!(fake.calls.len(), 0);
}

#[test]
fn missing_directory_never_invokes_downloader() {
    let mut c = with_url("https://youtu.be/abc", true);
    let mut fake = FakeDownloader::new(exit_ok);
    let r = dispatch_and_run(&mut c, &mut fake);
    assert!(matches!(r, Err(DownloadError::NoDirectoryChosen)));
    assert_eq!(fake.calls.len(), 0);
    assert_eq!(c.message, "No directory chosen");
}

#[test]
fn directory_not_needed_when_not_required() {
    let mut c = with_url("https://youtu.be/abc", false);
    let mut fake = FakeDownloader::new(exit_ok);
    let r = dispatch_and_run(&mut c, &mut fake);
    assert!(matches!(r, Ok(DownloadOutcome::Success(_))));
    assert_eq!(fake.calls, vec![("https://youtu.be/abc".to_string(), None)]);
}

#[test]
fn exit_zero_gives_success() {
    let mut c = with_url("https://www.youtube.com/watch?v=1", true);
    c.set_directory(Some("/music".to_string()));
    let mut fake = FakeDownloader::new(exit_ok);
    let r = dispatch_and_run(&mut c, &mut fake).unwrap();
    match r {
        DownloadOutcome::Success(m) => assert_eq!(m, SUCCESS_MESSAGE),
        DownloadOutcome::Failure(_) => panic!("expected success"),
    }
    assert_eq!(c.message, "Validations passed we should youtube download.");
    assert_eq!(
        fake.calls,
        vec![("https://www.youtube.com/watch?v=1".to_string(), Some("/music".to_string()))]
    );
}

#[test]
fn exit_code_failure_reports_error_output() {
    let mut c = with_url("youtu.be/abc", false);
    let mut fake = FakeDownloader::new(exit_unreachable);
    let r = dispatch_and_run(&mut c, &mut fake).unwrap();
    assert!(!r.is_success());
    assert!(r.message().contains("network unreachable"));
    assert!(matches!(r, DownloadOutcome::Failure(DownloadError::ExecutionFailure(_))));
    assert_eq!(c.message, "network unreachable");
}

#[test]
fn launch_failure_is_distinct_from_exit_failure() {
    let mut c = with_url("youtu.be/abc", false);
    let mut fake = FakeDownloader::new(spawn_error);
    let r = dispatch_and_run(&mut c, &mut fake).unwrap();
    assert!(matches!(r, DownloadOutcome::Failure(DownloadError::LaunchFailure(_))));
    assert_eq!(c.message, "Failed to execute downloader: No such file or directory (os error 2)");
    assert!(c.message.starts_with(LAUNCH_FAILURE_PREFIX));
    let other = outcome_of(exit_unreachable()).message();
    assert!(!other.starts_with(LAUNCH_FAILURE_PREFIX));
}

#[test]
fn non_zero_exit_codes_all_fail() {
    for code in [1, 2, -1, 255, i32::MIN, i32::MAX] {
        let o = outcome_of(ProcessResult::Exited { code, stderr: "boom".to_string() });
        assert!(!o.is_success());
        assert_eq!(o.message(), "boom");
    }
}

#[test]
fn second_set_url_wins() {
    let mut c = Controller::new(false);
    c.set_url("youtu.be/first".to_string());
    c.set_url("youtu.be/second".to_string());
    assert_eq!(c.url, "youtu.be/second");
    let req = c.dispatch().ok().unwrap();
    assert_eq!(req.url, "youtu.be/second");
}

#[test]
fn no_selection_keeps_directory() {
    let mut c = Controller::new(true);
    c.set_directory(Some("/a".to_string()));
    c.set_directory(None);
    assert_eq!(c.directory, Some("/a".to_string()));
    c.set_directory(Some("/b".to_string()));
    assert_eq!(c.directory, Some("/b".to_string()));
}

#[test]
fn picker_error_is_shown_verbatim() {
    let mut c = Controller::new(true);
    c.report_picker_error("dialog backend unavailable".to_string());
    assert_eq!(c.message, "dialog backend unavailable");
}

#[test]
fn concurrent_dispatches_keep_own_parameters() {
    let mut c = with_url("youtu.be/first", true);
    c.set_directory(Some("/one".to_string()));
    let first = c.dispatch().ok().unwrap();
    c.set_url("https://music.youtube.com/watch?v=2".to_string());
    c.set_directory(Some("/two".to_string()));
    let second = c.dispatch().ok().unwrap();

    let mut fake = FakeDownloader::new(exit_ok);
    let r2 = fake.run(&second);
    let r1 = fake.run(&first);
    assert_eq!(
        fake.calls,
        vec![
            ("https://music.youtube.com/watch?v=2".to_string(), Some("/two".to_string())),
            ("youtu.be/first".to_string(), Some("/one".to_string())),
        ]
    );
    c.complete(r2);
    let fail = FakeDownloader::new(exit_unreachable).run(&first);
    c.complete(r1);
    assert_eq!(c.message, "Validations passed we should youtube download.");
    c.complete(fail);
    assert_eq!(c.message, "network unreachable");
    assert_eq!(c.url, "https://music.youtube.com/watch?v=2");
    assert_eq!(c.directory, Some("/two".to_string()));
}

#[test]
fn update_routes_messages() {
    let mut c = Controller::new(true);
    assert!(matches!(c.update(Message::UrlChanged("youtu.be/x".to_string())), Action::Idle));
    assert!(matches!(c.update(Message::Download), Action::Idle));
    assert_eq!(c.message, "No directory chosen");
    assert!(matches!(c.update(Message::DirectoryChosen(Some("/d".to_string()))), Action::Idle));
    let req = match c.update(Message::Download) {
        Action::RunDownloader(req) => req,
        Action::Idle => panic!("expected a request"),
    };
    assert_eq!(req.url, "youtu.be/x");
    assert_eq!(req.directory, Some("/d".to_string()));
    let done = Message::DownloadComplete(ProcessResult::Exited { code: 0, stderr: String::new() });
    assert!(matches!(c.update(done), Action::Idle));
    assert_eq!(c.message, "Validations passed we should youtube download.");
    c.update(Message::DirectoryPickerFailed("no portal".to_string()));
    assert_eq!(c.message, "no portal");
    c.update(Message::UrlChanged("bad".to_string()));
    c.update(Message::Download);
    assert_eq!(c.message, "Invalid YouTube URL");
}

#[test]
fn destination_defaults_to_current_directory() {
    let with_dir = DownloadRequest { url: "youtu.be/x".to_string(), directory: Some("/m".to_string()) };
    assert_eq!(with_dir.destination(), "/m");
    let without = DownloadRequest { url: "youtu.be/x".to_string(), directory: None };
    assert_eq!(without.destination(), ".");
}

#[test]
fn post_processing_flags_are_fixed() {
    assert_eq!(
        post_processing_args(),
        vec![
            "--extract-audio", "--audio-format", "m4a", "--audio-quality", "0",
            "--embed-thumbnail", "--add-metadata", "--download-archive", "archive.txt",
            "--no-overwrites", "--ignore-errors", "--write-thumbnail",
        ]
    );
}

#[test]
fn prompts_for_directory_only_for_valid_urls() {
    let mut c = with_url("https://youtu.be/abc", true);
    assert!(c.prompts_for_directory());
    c.set_url("https://vimeo.com/1".to_string());
    assert!(!c.prompts_for_directory());
    let c2 = with_url("https://youtu.be/abc", false);
    assert!(!c2.prompts_for_directory());
}

#[test]
fn downloader_args_carry_request_and_flags() {
    let req = DownloadRequest { url: "youtu.be/x".to_string(), directory: Some("/m".to_string()) };
    let mut expected: Vec<String> = vec!["-f", "bestaudio/best", "--user-agent", USER_AGENT, "-o", "%(title)s.%(ext)s"]
        .into_iter()
        .map(String::from)
        .collect();
    expected.extend(post_processing_args());
    for a in ["-P", "/m", "--no-simulate", "--no-progress", "youtu.be/x"] {
        expected.push(a.to_string());
    }
    assert_eq!(req.downloader_args(), expected);
    let here = DownloadRequest { url: "youtu.be/y".to_string(), directory: None };
    let args = here.downloader_args();
    assert_eq!(args[args.len() - 5], "-P");
    assert_eq!(args[args.len() - 4], ".");
    assert_eq!(args[args.len() - 1], "youtu.be/y");
}
