//! A request handed to the external downloader, and the fixed options it runs with.
use vstd::prelude::*;

verus! {

/// Directory the downloader writes to when none was chosen.
pub const CURRENT_DIRECTORY: &'static str = ".";

/// The downloader program, looked up on the search path.
pub const DOWNLOADER_PROGRAM: &'static str = "yt-dlp";

/// Format selector: the best audio-only stream, else the best stream.
pub const DOWNLOAD_FORMAT: &'static str = "bestaudio/best";

/// User agent the downloader presents to the host.
pub const USER_AGENT: &'static str =
    "Mozilla/5.0 (Windows NT 10.0; Win64; x64) AppleWebKit/537.36 (KHTML, like Gecko) Chrome/58.0.3029.110 Safari/537.3";

/// File name template: the video's title and the container's extension.
pub const OUTPUT_TEMPLATE: &'static str = "%(title)s.%(ext)s";

/// The post-processing flags passed with every download: audio-only
/// extraction to m4a at the best quality, thumbnail and metadata embedding,
/// archive-based deduplication, no overwriting, and going on past errors
/// on single items.
pub open spec fn post_processing_flags() -> Seq<Seq<char>> {
    seq![
        "--extract-audio"@,
        "--audio-format"@,
        "m4a"@,
        "--audio-quality"@,
        "0"@,
        "--embed-thumbnail"@,
        "--add-metadata"@,
        "--download-archive"@,
        "archive.txt"@,
        "--no-overwrites"@,
        "--ignore-errors"@,
        "--write-thumbnail"@,
    ]
}

/// The text of each string of `v`, in order.
pub open spec fn texts(v: Seq<String>) -> Seq<Seq<char>> {
    v.map_values(|s: String| s@)
}

/// The text of an optional string.
pub open spec fn opt_text(o: Option<String>) -> Option<Seq<char>> {
    match o {
        Some(s) => Some(s@),
        None => None,
    }
}

/// Copies an optional string.
pub(crate) fn clone_opt(o: &Option<String>) -> (r: Option<String>)
    ensures
        opt_text(r) == opt_text(*o),
{
    match o {
        Some(s) => Some(s.clone()),
        None => None,
    }
}

/// The parameters of one run of the downloader.
#[derive(Debug, Clone)]
pub struct DownloadRequest {
    /// The video's URL.
    pub url: String,
    /// The directory to write to, if one was chosen.
    pub directory: Option<String>,
}

/// A request as text.
pub struct RequestModel {
    pub url: Seq<char>,
    pub directory: Option<Seq<char>>,
}

impl View for DownloadRequest {
    type V = RequestModel;

    open spec fn view(&self) -> RequestModel {
        RequestModel { url: self.url@, directory: opt_text(self.directory) }
    }
}

/// The directory a request writes to.
pub open spec fn destination_of(r: RequestModel) -> Seq<char> {
    match r.directory {
        Some(d) => d,
        None => CURRENT_DIRECTORY@,
    }
}

/// Everything the downloader is given for request `r`, in order: format, user
/// agent and file name template, the post-processing flags, the destination
/// directory, the switches that make it download quietly, and last the URL.
pub open spec fn download_args(r: RequestModel) -> Seq<Seq<char>> {
    seq!["-f"@, DOWNLOAD_FORMAT@, "--user-agent"@, USER_AGENT@, "-o"@, OUTPUT_TEMPLATE@]
        + post_processing_flags() + seq![
        "-P"@,
        destination_of(r),
        "--no-simulate"@,
        "--no-progress"@,
        r.url,
    ]
}

impl DownloadRequest {
    /// The arguments to run the downloader with for this request.
    pub fn downloader_args(&self) -> (r: Vec<String>)
        ensures
            texts(r@) == download_args(self@),
    {
        let mut r: Vec<String> = Vec::new();
        r.push(String::from_str("-f"));
        r.push(String::from_str(DOWNLOAD_FORMAT));
        r.push(String::from_str("--user-agent"));
        r.push(String::from_str(USER_AGENT));
        r.push(String::from_str("-o"));
        r.push(String::from_str(OUTPUT_TEMPLATE));
        let ghost head = r@;
        let flags = post_processing_args();
        let mut i: usize = 0;
        while i < flags.len()
            invariant
                i <= flags@.len(),
                texts(flags@) == post_processing_flags(),
                r@ == head + flags@.subrange(0, i as int),
            decreases flags.len() - i,
        {
            r.push(flags[i].clone());
            i = i + 1;
            assert(r@ =~= head + flags@.subrange(0, i as int));
        }
        assert(flags@.subrange(0, flags@.len() as int) =~= flags@);
        assert(texts(r@) =~= texts(head) + texts(flags@));
        r.push(String::from_str("-P"));
        r.push(self.destination());
        r.push(String::from_str("--no-simulate"));
        r.push(String::from_str("--no-progress"));
        r.push(self.url.clone());
        assert(texts(r@) =~= download_args(self@));
        r
    }


    /// The directory to write to: the chosen one, else the current directory.
    pub fn destination(&self) -> (r: String)
        ensures
            r@ == destination_of(self@),
    {
        match &self.directory {
            Some(d) => d.clone(),
            None => String::from_str(CURRENT_DIRECTORY),
        }
    }
}

/// The post-processing flags, one argument each.
pub fn post_processing_args() -> (r: Vec<String>)
    ensures
        texts(r@) == post_processing_flags(),
{
    let mut r: Vec<String> = Vec::new();
    r.push(String::from_str("--extract-audio"));
    r.push(String::from_str("--audio-format"));
    r.push(String::from_str("m4a"));
    r.push(String::from_str("--audio-quality"));
    r.push(String::from_str("0"));
    r.push(String::from_str("--embed-thumbnail"));
    r.push(String::from_str("--add-metadata"));
    r.push(String::from_str("--download-archive"));
    r.push(String::from_str("archive.txt"));
    r.push(String::from_str("--no-overwrites"));
    r.push(String::from_str("--ignore-errors"));
    r.push(String::from_str("--write-thumbnail"));
    assert(texts(r@) =~= post_processing_flags());
    r
}

} // verus!
