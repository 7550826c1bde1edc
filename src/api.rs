//! The requests the cleanup makes of the server, and how their answers are
//! judged. Sending them is left to the caller.

use vstd::prelude::*;
use vstd::string::*;

use crate::decimal::{bool_text, int_text, push_bool, push_int};

verus! {

/// The root of the server's REST interface, after the base URL.
pub const API_ROOT: &'static str = "/api/v3/";

/// Path and fixed parameters of the queue listing, up to the API key.
pub const QUEUE_PARAMS: &'static str = "queue?page=1&pageSize=1000&apikey=";

/// Path of a queue entry, up to its identifier.
pub const QUEUE_ENTRY: &'static str = "queue/";

/// Fixed parameters of a queue-entry deletion, up to the redownload flag:
/// keep the download in the client, blocklist the release, leave its category.
pub const DELETE_PARAMS: &'static str =
    "?removeFromClient=false&blocklist=true&changeCategory=false&skipRedownload=";

/// The API key parameter after other parameters.
pub const KEY_AFTER: &'static str = "&apikey=";

/// The API key parameter as the only parameter.
pub const KEY_ONLY: &'static str = "?apikey=";

/// Where the server is and how requests to it are made.
pub struct Api {
    source_url: String,
    api_key: String,
    radarr: bool,
    skip_redownload: bool,
}

/// The value of an [`Api`].
pub struct ApiView {
    pub source_url: Seq<char>,
    pub api_key: Seq<char>,
    pub radarr: bool,
    pub skip_redownload: bool,
}

impl View for Api {
    type V = ApiView;

    closed spec fn view(&self) -> ApiView {
        ApiView {
            source_url: self.source_url@,
            api_key: self.api_key@,
            radarr: self.radarr,
            skip_redownload: self.skip_redownload,
        }
    }
}

/// An HTTP method the cleanup uses.
#[derive(PartialEq, Eq, Structural, Clone, Copy, Debug)]
pub enum Method {
    Get,
    Delete,
}

/// What a failed deletion tried to remove.
#[derive(PartialEq, Eq, Structural, Clone, Copy, Debug)]
pub enum Target {
    QueueEntry,
    MediaFile,
}

/// Why a request of the cleanup failed. A status of `None` means that no
/// response came back.
#[derive(PartialEq, Eq, Structural, Clone, Copy, Debug)]
pub enum ApiError {
    /// The queue listing could not be fetched.
    FetchFailed { status: Option<u16> },
    /// A response body did not have the expected shape.
    DecodeFailed { record: Option<i64> },
    /// The media item of a record could not be fetched.
    LookupFailed { record_id: i64, media_id: i64, status: Option<u16> },
    /// A queue entry or a media file could not be deleted.
    DeleteFailed { which: Target, record_id: i64, status: Option<u16> },
    /// The media item of a record has no file to delete.
    NoFileForRecord { record_id: i64, media_id: i64 },
}

/// An HTTP request to send.
pub struct Request {
    pub method: Method,
    pub url: String,
}

/// The `Accept` header of a request: JSON for reads, anything for deletions.
pub open spec fn accept_of(m: Method) -> Seq<char> {
    match m {
        Method::Get => "application/json"@,
        Method::Delete => "*/*"@,
    }
}

/// Whether an HTTP status code is in the success range.
pub open spec fn success_status(status: u16) -> bool {
    200 <= status <= 299
}

/// The path segment of a media item: a movie or an episode.
pub open spec fn media_segment(radarr: bool) -> Seq<char> {
    if radarr {
        "movie"@
    } else {
        "episode"@
    }
}

/// The path segment of a media file: a movie file or an episode file.
pub open spec fn file_segment(radarr: bool) -> Seq<char> {
    if radarr {
        "moviefile"@
    } else {
        "episodefile"@
    }
}

/// The URL of the queue listing.
pub open spec fn queue_url(a: ApiView) -> Seq<char> {
    a.source_url + API_ROOT@ + QUEUE_PARAMS@ + a.api_key
}

/// The URL that deletes the queue entry `id`.
pub open spec fn delete_queue_url(a: ApiView, id: i64) -> Seq<char> {
    a.source_url + API_ROOT@ + QUEUE_ENTRY@ + int_text(id as int) + DELETE_PARAMS@ + bool_text(
        a.skip_redownload,
    ) + KEY_AFTER@ + a.api_key
}

/// The URL of the media item `media_id`.
pub open spec fn media_url(a: ApiView, media_id: i64) -> Seq<char> {
    a.source_url + API_ROOT@ + media_segment(a.radarr) + "/"@ + int_text(media_id as int)
        + KEY_ONLY@ + a.api_key
}

/// The URL that deletes the media file `file_id`.
pub open spec fn file_url(a: ApiView, file_id: i64) -> Seq<char> {
    a.source_url + API_ROOT@ + file_segment(a.radarr) + "/"@ + int_text(file_id as int)
        + KEY_ONLY@ + a.api_key
}

/// Whether an HTTP status code is in the success range.
pub fn is_success(status: u16) -> (r: bool)
    ensures
        r == success_status(status),
{
    200 <= status && status <= 299
}

impl Request {
    /// The `Accept` header to send with this request.
    pub fn accept(&self) -> (r: &'static str)
        ensures
            r@ == accept_of(self.method),
    {
        match self.method {
            Method::Get => "application/json",
            Method::Delete => "*/*",
        }
    }
}

impl Api {
    pub fn new(source_url: String, api_key: String, radarr: bool, skip_redownload: bool) -> (r:
        Api)
        ensures
            r@ == (ApiView { source_url: source_url@, api_key: api_key@, radarr, skip_redownload }),
    {
        Api { source_url, api_key, radarr, skip_redownload }
    }

    /// Whether the Radarr-like family is addressed.
    pub fn is_radarr(&self) -> (r: bool)
        ensures
            r == self@.radarr,
    {
        self.radarr
    }

    /// The request that fetches the queue listing.
    pub fn queue_request(&self) -> (r: Request)
        ensures
            r.method == Method::Get,
            r.url@ == queue_url(self@),
    {
        let mut url = self.source_url.clone();
        url.append(API_ROOT);
        url.append(QUEUE_PARAMS);
        url.append(self.api_key.as_str());
        Request { method: Method::Get, url }
    }

    /// The request that deletes the queue entry `id`, blocklisting its
    /// release.
    pub fn delete_queue_request(&self, id: i64) -> (r: Request)
        ensures
            r.method == Method::Delete,
            r.url@ == delete_queue_url(self@, id),
    {
        let mut url = self.source_url.clone();
        url.append(API_ROOT);
        url.append(QUEUE_ENTRY);
        push_int(&mut url, id);
        url.append(DELETE_PARAMS);
        push_bool(&mut url, self.skip_redownload);
        url.append(KEY_AFTER);
        url.append(self.api_key.as_str());
        Request { method: Method::Delete, url }
    }

    /// The request that fetches the media item `media_id`.
    pub fn media_request(&self, media_id: i64) -> (r: Request)
        ensures
            r.method == Method::Get,
            r.url@ == media_url(self@, media_id),
    {
        let mut url = self.source_url.clone();
        url.append(API_ROOT);
        if self.radarr {
            url.append("movie");
        } else {
            url.append("episode");
        }
        url.append("/");
        push_int(&mut url, media_id);
        url.append(KEY_ONLY);
        url.append(self.api_key.as_str());
        Request { method: Method::Get, url }
    }

    /// The request that deletes the media file `file_id`.
    pub fn delete_file_request(&self, file_id: i64) -> (r: Request)
        ensures
            r.method == Method::Delete,
            r.url@ == file_url(self@, file_id),
    {
        let mut url = self.source_url.clone();
        url.append(API_ROOT);
        if self.radarr {
            url.append("moviefile");
        } else {
            url.append("episodefile");
        }
        url.append("/");
        push_int(&mut url, file_id);
        url.append(KEY_ONLY);
        url.append(self.api_key.as_str());
        Request { method: Method::Delete, url }
    }
}

} // verus!
