//! The download controller: the state the view renders, and the handling of
//! the user's intents (edit the URL, choose a directory, download) and of the
//! downloader's results.
//!
//! The controller never runs the downloader itself. Dispatching yields a
//! [`DownloadRequest`] that holds its own copy of the URL and directory; the
//! caller runs it and hands the result back through [`Controller::complete`].
use vstd::prelude::*;
use crate::outcome::{
    DownloadError, DownloadOutcome, ProcessResult, error_text, is_outcome_of, outcome_of,
    result_text,
};
use crate::request::{DownloadRequest, RequestModel, clone_opt, opt_text};
use crate::url::{is_valid_youtube_url, is_youtube_url};

verus! {

/// The state shown by the view.
#[derive(Debug, Clone)]
pub struct Controller {
    /// The URL as last edited.
    pub url: String,
    /// The directory chosen last, if any.
    pub directory: Option<String>,
    /// The text of the latest failure or outcome.
    pub message: String,
    /// Whether a download needs a chosen directory.
    pub require_directory: bool,
}

/// The controller's state as text.
pub struct ControllerModel {
    pub url: Seq<char>,
    pub directory: Option<Seq<char>>,
    pub message: Seq<char>,
    pub require_directory: bool,
}

impl ControllerModel {
    /// The state after the URL is replaced by `url`.
    pub open spec fn with_url(self, url: Seq<char>) -> ControllerModel {
        ControllerModel { url, ..self }
    }

    /// The state after the directory picker returned `d`: a selection replaces
    /// the directory, no selection leaves it as it was.
    pub open spec fn with_directory(self, d: Option<Seq<char>>) -> ControllerModel {
        match d {
            Some(_) => ControllerModel { directory: d, ..self },
            None => self,
        }
    }

    /// The state after `message` is shown.
    pub open spec fn with_message(self, message: Seq<char>) -> ControllerModel {
        ControllerModel { message, ..self }
    }
}

impl View for Controller {
    type V = ControllerModel;

    open spec fn view(&self) -> ControllerModel {
        ControllerModel {
            url: self.url@,
            directory: opt_text(self.directory),
            message: self.message@,
            require_directory: self.require_directory,
        }
    }
}

/// What dispatching from state `m` gives: an invalid URL is refused first,
/// then a missing directory where one is required; otherwise a request with
/// the current URL and directory.
pub open spec fn dispatch_spec(m: ControllerModel) -> Result<RequestModel, DownloadError> {
    if !is_youtube_url(m.url) {
        Err(DownloadError::InvalidUrl)
    } else if m.require_directory && m.directory is None {
        Err(DownloadError::NoDirectoryChosen)
    } else {
        Ok(RequestModel { url: m.url, directory: m.directory })
    }
}

/// The state after dispatching from `m`: a refusal is shown, a request leaves
/// the state as it was.
pub open spec fn after_dispatch(m: ControllerModel) -> ControllerModel {
    match dispatch_spec(m) {
        Ok(_) => m,
        Err(e) => m.with_message(error_text(e)),
    }
}

/// An intent from the view, or a result coming back from the downloader.
#[derive(Debug, Clone)]
pub enum Message {
    /// The URL text was edited.
    UrlChanged(String),
    /// The directory picker returned: a path, or no selection.
    DirectoryChosen(Option<String>),
    /// The directory picker failed; holds its error text.
    DirectoryPickerFailed(String),
    /// The user asked for a download.
    Download,
    /// A dispatched request's downloader run ended.
    DownloadComplete(ProcessResult),
}

/// What the caller is to do after an update.
#[derive(Debug, Clone)]
pub enum Action {
    /// Nothing.
    Idle,
    /// Run the downloader for this request and report back with
    /// [`Message::DownloadComplete`].
    RunDownloader(DownloadRequest),
}

/// `a` is the action owed, and `after` the state reached, when `msg` is
/// handled in state `m`.
pub open spec fn update_spec(m: ControllerModel, msg: Message, a: Action, after: ControllerModel) -> bool {
    match msg {
        Message::UrlChanged(u) => a is Idle && after == m.with_url(u@),
        Message::DirectoryChosen(d) => a is Idle && after == m.with_directory(opt_text(d)),
        Message::DirectoryPickerFailed(reason) => a is Idle && after == m.with_message(reason@),
        Message::Download => after == after_dispatch(m) && match dispatch_spec(m) {
            Ok(req) => a is RunDownloader && a->RunDownloader_0@ == req,
            Err(_) => a is Idle,
        },
        Message::DownloadComplete(res) => a is Idle && after == m.with_message(result_text(res)),
    }
}

impl Controller {
    /// A controller with an empty URL, no directory and no message.
    pub fn new(require_directory: bool) -> (r: Controller)
        ensures
            r@ == (ControllerModel {
                url: Seq::empty(),
                directory: None,
                message: Seq::empty(),
                require_directory,
            }),
    {
        Controller {
            url: String::new(),
            directory: None,
            message: String::new(),
            require_directory,
        }
    }

    /// Replaces the URL. Nothing is validated until dispatch.
    pub fn set_url(&mut self, url: String)
        ensures
            final(self)@ == old(self)@.with_url(url@),
    {
        self.url = url;
    }

    /// Takes what the directory picker returned: a selection replaces the
    /// directory, no selection keeps the previous one.
    pub fn set_directory(&mut self, directory: Option<String>)
        ensures
            final(self)@ == old(self)@.with_directory(opt_text(directory)),
    {
        if directory.is_some() {
            self.directory = directory;
        }
    }

    /// Whether a download request should first ask the user for a
    /// directory: one is required and the URL would pass validation.
    pub fn prompts_for_directory(&self) -> (r: bool)
        ensures
            r == (self.require_directory && is_youtube_url(self.url@)),
    {
        self.require_directory && is_valid_youtube_url(self.url.as_str())
    }

    /// Shows the directory picker's error text as it is.
    pub fn report_picker_error(&mut self, reason: String)
        ensures
            final(self)@ == old(self)@.with_message(reason@),
    {
        self.message = reason;
    }

    /// Validates the current state and, when it allows a download, returns
    /// the request to run, with its own copy of the URL and directory.
    /// A refusal is stored as the message and nothing is to be run.
    pub fn dispatch(&mut self) -> (r: Result<DownloadRequest, DownloadError>)
        ensures
            match r {
                Ok(req) => dispatch_spec(old(self)@) == Ok::<RequestModel, DownloadError>(req@),
                Err(e) => dispatch_spec(old(self)@) == Err::<RequestModel, DownloadError>(e),
            },
            final(self)@ == after_dispatch(old(self)@),
    {
        if !is_valid_youtube_url(self.url.as_str()) {
            self.message = DownloadError::InvalidUrl.message();
            return Err(DownloadError::InvalidUrl);
        }
        if self.require_directory && self.directory.is_none() {
            self.message = DownloadError::NoDirectoryChosen.message();
            return Err(DownloadError::NoDirectoryChosen);
        }
        Ok(DownloadRequest { url: self.url.clone(), directory: clone_opt(&self.directory) })
    }

    /// Takes the downloader's result for a dispatched request, stores the
    /// outcome's text as the message and returns the outcome.
    pub fn complete(&mut self, res: ProcessResult) -> (r: DownloadOutcome)
        ensures
            is_outcome_of(res, r),
            final(self)@ == old(self)@.with_message(result_text(res)),
    {
        let o = outcome_of(res);
        self.message = o.message();
        o
    }

    /// Handles one message and says what the caller is to do next.
    pub fn update(&mut self, msg: Message) -> (r: Action)
        ensures
            update_spec(old(self)@, msg, r, final(self)@),
    {
        match msg {
            Message::UrlChanged(u) => {
                self.set_url(u);
                Action::Idle
            },
            Message::DirectoryChosen(d) => {
                self.set_directory(d);
                Action::Idle
            },
            Message::DirectoryPickerFailed(reason) => {
                self.report_picker_error(reason);
                Action::Idle
            },
            Message::Download => match self.dispatch() {
                Ok(req) => Action::RunDownloader(req),
                Err(_) => Action::Idle,
            },
            Message::DownloadComplete(res) => {
                self.complete(res);
                Action::Idle
            },
        }
    }
}

/// Setting the URL twice keeps only the second value: the first leaves no
/// trace in the state.
pub proof fn lemma_set_url_last_write_wins(m: ControllerModel, first: Seq<char>, second: Seq<char>)
    ensures
        m.with_url(first).with_url(second) == m.with_url(second),
        m.with_url(first).with_url(second).url == second,
{
}

/// Two dispatches in flight each carry the parameters of the state they
/// were made from: after a first request is issued, editing the URL and
/// choosing a directory change only what the second request carries, and the
/// first request's result, whenever it arrives, changes neither.
pub proof fn lemma_dispatches_keep_own_parameters(
    m: ControllerModel,
    url: Seq<char>,
    dir: Option<Seq<char>>,
    first_result: ProcessResult,
)
    requires
        dispatch_spec(m) is Ok,
    ensures
        dispatch_spec(m) == Ok::<RequestModel, DownloadError>(
            RequestModel { url: m.url, directory: m.directory },
        ),
        ({
            let m2 = after_dispatch(m).with_url(url).with_directory(dir);
            &&& dispatch_spec(m2) is Ok ==> dispatch_spec(m2)->Ok_0 == (RequestModel {
                url,
                directory: if dir is Some { dir } else { m.directory },
            })
            &&& after_dispatch(m2).with_message(result_text(first_result)).url == url
            &&& after_dispatch(m2).with_message(result_text(first_result)).directory
                == m2.directory
        }),
{
}

/// The same law through the intent handler: download, edit the URL, download
/// again. Where both downloads are run, the first runs with the URL and
/// directory it was dispatched with and the second with the edited URL, the
/// first still in flight.
pub proof fn lemma_update_dispatches_keep_own_parameters(
    m: ControllerModel,
    url: String,
    a1: Action,
    m1: ControllerModel,
    a2: Action,
    m2: ControllerModel,
    a3: Action,
    m3: ControllerModel,
)
    requires
        update_spec(m, Message::Download, a1, m1),
        update_spec(m1, Message::UrlChanged(url), a2, m2),
        update_spec(m2, Message::Download, a3, m3),
        a1 is RunDownloader,
        a3 is RunDownloader,
    ensures
        a1->RunDownloader_0@ == (RequestModel { url: m.url, directory: m.directory }),
        a3->RunDownloader_0@ == (RequestModel { url: url@, directory: m.directory }),
{
}

} // verus!
