//! Acquisition of a model: from a reference to a model, to the name of a file
//! that holds it.
//!
//! A local reference is taken as it is. A remote one is downloaded, and the
//! transfer itself (the request, the file, the copying) is the caller's work:
//! this module decides what is to be done next and what each outcome means.

use vstd::prelude::*;
use vstd::string::*;
use crate::text::texts;

verus! {

/// Where a model is to be had from.
#[derive(Clone, Debug, PartialEq, Eq)]
pub enum ModelReference {
    /// A path on this machine.
    Local(String),
    /// A URL to download from.
    Remote(String),
}

/// The model of a [`ModelReference`].
pub ghost enum ModelReferenceView {
    Local(Seq<char>),
    Remote(Seq<char>),
}

impl View for ModelReference {
    type V = ModelReferenceView;

    open spec fn view(&self) -> ModelReferenceView {
        match *self {
            ModelReference::Local(path) => ModelReferenceView::Local(path@),
            ModelReference::Remote(url) => ModelReferenceView::Remote(url@),
        }
    }
}

/// Why a model could not be acquired.
#[derive(Clone, Debug, PartialEq, Eq)]
pub enum AcquireError {
    /// The text is not a URL.
    InvalidUrl,
    /// The URL of the response has no last path segment to name the file by.
    NoFilenameInUrl,
    /// The transfer failed, for the cause given. A file that it had begun
    /// may have been left behind, cut short.
    DownloadFailed(String),
}

/// The model of an [`AcquireError`].
pub ghost enum AcquireErrorView {
    InvalidUrl,
    NoFilenameInUrl,
    DownloadFailed(Seq<char>),
}

impl View for AcquireError {
    type V = AcquireErrorView;

    open spec fn view(&self) -> AcquireErrorView {
        match *self {
            AcquireError::InvalidUrl => AcquireErrorView::InvalidUrl,
            AcquireError::NoFilenameInUrl => AcquireErrorView::NoFilenameInUrl,
            AcquireError::DownloadFailed(cause) => AcquireErrorView::DownloadFailed(cause@),
        }
    }
}

/// `url::ParseError`, the reason that `url::Url::parse` gives for a text that
/// is no URL. Nothing is claimed of it; it is only passed on.
#[verifier::external_type_specification]
#[verifier::external_body]
pub struct ExUrlParseError(url::ParseError);

/// What `url::Url::parse` followed by `url::Url::path_segments` gives for a
/// text: `None` where the text is not an absolute URL; `Some(None)` where it
/// is one that has no path segments (it cannot be a base); else the segments
/// of its path, in order.
pub uninterp spec fn url_path_segments(text: Seq<char>) -> Option<Option<Seq<Seq<char>>>>;

/// The model of what [`parse_path_segments`] returns.
pub open spec fn segments_view(r: Result<Option<Vec<String>>, url::ParseError>) -> Option<
    Option<Seq<Seq<char>>>,
> {
    match r {
        Ok(Some(segments)) => Some(Some(texts(segments@))),
        Ok(None) => Some(None),
        Err(_) => None,
    }
}

/// Calls `url::Url::parse` on `text` and, where that gives a URL,
/// `url::Url::path_segments` on it, collecting the segments. The contract
/// only gives the outcome its name: both are functions of the text alone.
#[verifier::external_body]
fn parse_path_segments(text: &str) -> (r: Result<Option<Vec<String>>, url::ParseError>)
    ensures
        segments_view(r) == url_path_segments(text@),
{
    url::Url::parse(text).map(
        |parsed| parsed.path_segments().map(|segments| segments.map(String::from).collect()),
    )
}

/// The file name that a list of path segments gives: the last segment, unless
/// there is none or it is empty.
pub open spec fn filename_from(segments: Option<Seq<Seq<char>>>) -> Result<
    Seq<char>,
    AcquireErrorView,
> {
    match segments {
        Some(s) if s.len() > 0 && s.last().len() > 0 => Ok(s.last()),
        _ => Err(AcquireErrorView::NoFilenameInUrl),
    }
}

/// The file name that a URL gives, from what [`url_path_segments`] is on it.
pub open spec fn filename_of(outcome: Option<Option<Seq<Seq<char>>>>) -> Result<
    Seq<char>,
    AcquireErrorView,
> {
    match outcome {
        None => Err(AcquireErrorView::InvalidUrl),
        Some(segments) => filename_from(segments),
    }
}

/// The model of a file name or the error in its place.
pub open spec fn named(r: Result<String, AcquireError>) -> Result<Seq<char>, AcquireErrorView> {
    match r {
        Ok(name) => Ok(name@),
        Err(e) => Err(e@),
    }
}

/// Picks the file name out of the path segments of a URL: the last one. A URL
/// without segments, and one whose last segment is empty (no path, or a path
/// that ends in a slash), names no file.
pub fn filename_from_segments(segments: Option<Vec<String>>) -> (r: Result<String, AcquireError>)
    ensures
        named(r) == filename_from(
            match segments {
                Some(s) => Some(texts(s@)),
                None => None,
            },
        ),
{
    match segments {
        Some(s) => {
            let n: usize = s.len();
            if n == 0 {
                return Err(AcquireError::NoFilenameInUrl);
            }
            let last = &s[n - 1];
            if last.as_str().is_empty() {
                Err(AcquireError::NoFilenameInUrl)
            } else {
                Ok(last.clone())
            }
        },
        None => Err(AcquireError::NoFilenameInUrl),
    }
}

/// The name of the file to keep a download in, from the URL that the
/// response came from.
pub fn filename_from_url(url: &str) -> (r: Result<String, AcquireError>)
    ensures
        named(r) == filename_of(url_path_segments(url@)),
{
    match parse_path_segments(url) {
        Ok(segments) => filename_from_segments(segments),
        Err(_) => Err(AcquireError::InvalidUrl),
    }
}

/// Whether a text is a URL that a request can be made to.
pub fn is_url(text: &str) -> (r: bool)
    ensures
        r == url_path_segments(text@).is_some(),
{
    parse_path_segments(text).is_ok()
}

/// How far the acquisition of a model has come. While it is `Fetching` or
/// `Storing`, the caller has work to do and reports back with a
/// [`Transfer`]; `Acquired` and `Failed` are final.
#[derive(Clone, Debug, PartialEq, Eq)]
pub enum Acquisition {
    /// A GET request to `url` is to be made, following redirects.
    Fetching { url: String },
    /// The body of the response is to be written to a file of this name,
    /// replacing one that is there.
    Storing { filename: String },
    /// The model is in the file of this path.
    Acquired(String),
    /// There is no model, for this reason.
    Failed(AcquireError),
}

/// The model of an [`Acquisition`].
pub ghost enum AcquisitionView {
    Fetching { url: Seq<char> },
    Storing { filename: Seq<char> },
    Acquired(Seq<char>),
    Failed(AcquireErrorView),
}

impl View for Acquisition {
    type V = AcquisitionView;

    open spec fn view(&self) -> AcquisitionView {
        match *self {
            Acquisition::Fetching { url } => AcquisitionView::Fetching { url: url@ },
            Acquisition::Storing { filename } => AcquisitionView::Storing { filename: filename@ },
            Acquisition::Acquired(path) => AcquisitionView::Acquired(path@),
            Acquisition::Failed(e) => AcquisitionView::Failed(e@),
        }
    }
}

/// What the caller reports of the work that an [`Acquisition`] asked for.
#[derive(Clone, Debug, PartialEq, Eq)]
pub enum Transfer {
    /// The server answered with success; `final_url` is the URL that the
    /// response came from, after redirects.
    Responded { final_url: String },
    /// The request failed: no connection, or a status that is no success.
    RequestFailed { cause: String },
    /// The whole body is in the file.
    Stored,
    /// The file could not be made, or the body not read or written in full.
    StoreFailed { cause: String },
}

/// The model of a [`Transfer`].
pub ghost enum TransferView {
    Responded { final_url: Seq<char> },
    RequestFailed { cause: Seq<char> },
    Stored,
    StoreFailed { cause: Seq<char> },
}

impl View for Transfer {
    type V = TransferView;

    open spec fn view(&self) -> TransferView {
        match *self {
            Transfer::Responded { final_url } => TransferView::Responded { final_url: final_url@ },
            Transfer::RequestFailed { cause } => TransferView::RequestFailed { cause: cause@ },
            Transfer::Stored => TransferView::Stored,
            Transfer::StoreFailed { cause } => TransferView::StoreFailed { cause: cause@ },
        }
    }
}

impl AcquisitionView {
    /// Where the acquisition of `source` begins: a local path is the result
    /// as it stands; a remote text must be a URL, and is then to be fetched.
    pub open spec fn begun(source: ModelReferenceView) -> AcquisitionView {
        match source {
            ModelReferenceView::Local(path) => AcquisitionView::Acquired(path),
            ModelReferenceView::Remote(url) => {
                if url_path_segments(url).is_some() {
                    AcquisitionView::Fetching { url }
                } else {
                    AcquisitionView::Failed(AcquireErrorView::InvalidUrl)
                }
            },
        }
    }

    /// Where the acquisition stands after `event`. A failure of the request
    /// or of the storing ends it, with no second attempt. A report that does
    /// not answer what was asked for changes nothing.
    pub open spec fn next(self, event: TransferView) -> AcquisitionView {
        match (self, event) {
            (AcquisitionView::Fetching { .. }, TransferView::Responded { final_url }) => {
                match filename_of(url_path_segments(final_url)) {
                    Ok(filename) => AcquisitionView::Storing { filename },
                    Err(e) => AcquisitionView::Failed(e),
                }
            },
            (AcquisitionView::Fetching { .. }, TransferView::RequestFailed { cause }) => {
                AcquisitionView::Failed(AcquireErrorView::DownloadFailed(cause))
            },
            (AcquisitionView::Storing { filename }, TransferView::Stored) => {
                AcquisitionView::Acquired(filename)
            },
            (AcquisitionView::Storing { .. }, TransferView::StoreFailed { cause }) => {
                AcquisitionView::Failed(AcquireErrorView::DownloadFailed(cause))
            },
            _ => self,
        }
    }

    /// No work is left: the model is acquired, or it will not be.
    pub open spec fn is_final(self) -> bool {
        self is Acquired || self is Failed
    }
}

/// Begins the acquisition of a model. A local path is accepted as it is,
/// whether or not a file is there. A remote text that is no URL fails at once.
pub fn acquire(source: ModelReference) -> (r: Acquisition)
    ensures
        r@ == AcquisitionView::begun(source@),
{
    match source {
        ModelReference::Local(path) => Acquisition::Acquired(path),
        ModelReference::Remote(url) => {
            if is_url(url.as_str()) {
                Acquisition::Fetching { url }
            } else {
                Acquisition::Failed(AcquireError::InvalidUrl)
            }
        },
    }
}

impl Acquisition {
    /// Takes the report of the work that was asked for, and says what is
    /// next.
    pub fn advance(self, event: Transfer) -> (r: Acquisition)
        ensures
            r@ == self@.next(event@),
    {
        match (self, event) {
            (Acquisition::Fetching { .. }, Transfer::Responded { final_url }) => {
                match filename_from_url(final_url.as_str()) {
                    Ok(filename) => Acquisition::Storing { filename },
                    Err(e) => Acquisition::Failed(e),
                }
            },
            (Acquisition::Fetching { .. }, Transfer::RequestFailed { cause }) => {
                Acquisition::Failed(AcquireError::DownloadFailed(cause))
            },
            (Acquisition::Storing { filename }, Transfer::Stored) => Acquisition::Acquired(
                filename,
            ),
            (Acquisition::Storing { .. }, Transfer::StoreFailed { cause }) => {
                Acquisition::Failed(AcquireError::DownloadFailed(cause))
            },
            (state, _) => state,
        }
    }

    /// The result, once the acquisition is over: the path of the model, or
    /// the reason why there is none.
    pub fn outcome(self) -> (r: Option<Result<String, AcquireError>>)
        ensures
            match self@ {
                AcquisitionView::Acquired(path) => r is Some && named(r.unwrap()) == Ok::<
                    Seq<char>,
                    AcquireErrorView,
                >(path),
                AcquisitionView::Failed(e) => r is Some && named(r.unwrap()) == Err::<
                    Seq<char>,
                    AcquireErrorView,
                >(e),
                _ => r is None,
            },
    {
        match self {
            Acquisition::Acquired(path) => Some(Ok(path)),
            Acquisition::Failed(e) => Some(Err(e)),
            _ => None,
        }
    }
}

/// An acquisition that is over stays as it is, whatever is reported.
pub proof fn lemma_final_stays(state: AcquisitionView, event: TransferView)
    requires
        state.is_final(),
    ensures
        state.next(event) == state,
{
}

/// A file is only ever asked for under a name that the URL of a response
/// gave: the last, non-empty segment of its path.
pub proof fn lemma_storing_has_filename(state: AcquisitionView, event: TransferView)
    requires
        !(state is Storing),
        state.next(event) is Storing,
    ensures
        state is Fetching,
        event is Responded,
        filename_of(url_path_segments(event->final_url)) == Ok::<Seq<char>, AcquireErrorView>(
            state.next(event)->filename,
        ),
        state.next(event)->filename.len() > 0,
{
}

/// A model is only ever acquired as the local path that was given, or as the
/// file that was stored.
pub proof fn lemma_acquired_is_stored(state: AcquisitionView, event: TransferView)
    requires
        !(state is Acquired),
        state.next(event) is Acquired,
    ensures
        state is Storing,
        event is Stored,
        state.next(event)->Acquired_0 == state->filename,
{
}

} // verus!
