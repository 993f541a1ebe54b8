//! The download pipeline as a state machine. Whatever goes wrong, the
//! caller learns only that nothing was found.

use vstd::prelude::*;
use vstd::string::*;

use crate::clock::now_millis;
use crate::error::ErrorKind;
use crate::record::{
    find_retrievable, first_retrievable, views, FileRecord, FileRecordView, TOKEN_MAX, TOKEN_MIN,
};
use crate::upload::text_of;
use crate::utils::{check_token, token_ok};

verus! {

/// What a download request carries.
#[derive(Debug, PartialEq, Eq)]
pub struct DownloadRequest {
    /// The identifier of the file: its storage name.
    pub id: String,
    /// The share token, if one is presented.
    pub token: Option<String>,
}

/// A download request as a mathematical value.
pub struct DownloadRequestView {
    pub id: Seq<char>,
    pub token: Option<Seq<char>>,
}

impl View for DownloadRequest {
    type V = DownloadRequestView;

    open spec fn view(&self) -> DownloadRequestView {
        DownloadRequestView { id: self.id@, token: text_of(self.token) }
    }
}

/// What a successful download answers, besides the bytes of the blob.
#[derive(Debug, PartialEq, Eq)]
pub struct DownloadResponse {
    /// The name under which the file was uploaded.
    pub file_name: String,
    /// The value of the content-disposition header.
    pub content_disposition: String,
}

/// A successful download's answer as a mathematical value.
pub struct DownloadResponseView {
    pub file_name: Seq<char>,
    pub content_disposition: Seq<char>,
}

impl View for DownloadResponse {
    type V = DownloadResponseView;

    open spec fn view(&self) -> DownloadResponseView {
        DownloadResponseView {
            file_name: self.file_name@,
            content_disposition: self.content_disposition@,
        }
    }
}

/// Where a download stands.
#[derive(Debug, PartialEq, Eq)]
pub enum DownloadState {
    /// Nothing has been looked at.
    Start,
    /// The token is well formed; the records of the blob are being fetched.
    AwaitingRecords { id: String, token: String },
    /// A record may be served; its blob is being opened.
    AwaitingBlob { file_name: String },
    /// The answer has been given.
    Done,
}

/// Where a download stands, as a mathematical value.
pub enum DownloadStateView {
    Start,
    AwaitingRecords { id: Seq<char>, token: Seq<char> },
    AwaitingBlob { file_name: Seq<char> },
    Done,
}

impl View for DownloadState {
    type V = DownloadStateView;

    open spec fn view(&self) -> DownloadStateView {
        match *self {
            DownloadState::Start => DownloadStateView::Start,
            DownloadState::AwaitingRecords { id, token } => DownloadStateView::AwaitingRecords {
                id: id@,
                token: token@,
            },
            DownloadState::AwaitingBlob { file_name } => DownloadStateView::AwaitingBlob {
                file_name: file_name@,
            },
            DownloadState::Done => DownloadStateView::Done,
        }
    }
}

/// What the surroundings report to a download.
#[derive(Debug, PartialEq, Eq)]
pub enum DownloadEvent {
    /// A request has arrived.
    Request(DownloadRequest),
    /// The metadata store has handed over the records kept under the storage
    /// name asked for, or has failed (`None`).
    Records(Option<Vec<FileRecord>>),
    /// The blob has been opened for reading (`true`), or is missing or could
    /// not be opened.
    BlobOpened(bool),
}

/// What the surroundings report, as a mathematical value.
pub enum DownloadEventView {
    Request(DownloadRequestView),
    Records(Option<Seq<FileRecordView>>),
    BlobOpened(bool),
}

impl View for DownloadEvent {
    type V = DownloadEventView;

    open spec fn view(&self) -> DownloadEventView {
        match *self {
            DownloadEvent::Request(request) => DownloadEventView::Request(request@),
            DownloadEvent::Records(reply) => DownloadEventView::Records(
                match reply {
                    Some(records) => Some(views(records@)),
                    None => None,
                },
            ),
            DownloadEvent::BlobOpened(opened) => DownloadEventView::BlobOpened(opened),
        }
    }
}

/// What a download asks of its surroundings.
#[derive(Debug, PartialEq, Eq)]
pub enum DownloadAction {
    /// Fetch the records kept under this storage name.
    FindRecords { storage_name: String },
    /// Open the blob of this name for reading.
    OpenBlob { storage_name: String },
    /// Answer the request; a successful answer is followed by the bytes of
    /// the blob that was opened.
    Respond(Result<DownloadResponse, ErrorKind>),
}

/// What a download asks of its surroundings, as a mathematical value.
pub enum DownloadActionView {
    FindRecords { storage_name: Seq<char> },
    OpenBlob { storage_name: Seq<char> },
    Respond(Result<DownloadResponseView, ErrorKind>),
}

impl View for DownloadAction {
    type V = DownloadActionView;

    open spec fn view(&self) -> DownloadActionView {
        match *self {
            DownloadAction::FindRecords { storage_name } => DownloadActionView::FindRecords {
                storage_name: storage_name@,
            },
            DownloadAction::OpenBlob { storage_name } => DownloadActionView::OpenBlob {
                storage_name: storage_name@,
            },
            DownloadAction::Respond(answer) => DownloadActionView::Respond(
                match answer {
                    Ok(response) => Ok(response@),
                    Err(kind) => Err(kind),
                },
            ),
        }
    }
}

/// The value of the content-disposition header that offers a download under
/// `file_name`.
pub open spec fn content_disposition(file_name: Seq<char>) -> Seq<char> {
    "attachment; filename=\""@ + file_name + "\""@
}

/// The step that ends a download by finding nothing.
pub open spec fn not_found() -> (DownloadStateView, DownloadActionView) {
    (DownloadStateView::Done, DownloadActionView::Respond(Err(ErrorKind::NotFound)))
}

/// The token that a request presents; none counts as the empty one.
pub open spec fn presented_token(token: Option<Seq<char>>) -> Seq<char> {
    match token {
        Some(token) => token,
        None => Seq::empty(),
    }
}

/// The first step: a malformed token finds nothing; for a well-formed one
/// the records of the blob are fetched.
pub open spec fn on_download_request(request: DownloadRequestView) -> (
    DownloadStateView,
    DownloadActionView,
) {
    let token = presented_token(request.token);
    if token_ok(token, TOKEN_MIN as int, TOKEN_MAX as int) {
        (
            DownloadStateView::AwaitingRecords { id: request.id, token },
            DownloadActionView::FindRecords { storage_name: request.id },
        )
    } else {
        not_found()
    }
}

/// The step after the metadata store has answered: its failure finds
/// nothing, and so do records of which none may be served; otherwise the
/// blob is opened for the first record that may be served.
pub open spec fn on_records(
    id: Seq<char>,
    token: Seq<char>,
    reply: Option<Seq<FileRecordView>>,
    now: i64,
) -> (DownloadStateView, DownloadActionView) {
    match reply {
        None => not_found(),
        Some(records) => match first_retrievable(records, id, token, now) {
            None => not_found(),
            Some(at) => (
                DownloadStateView::AwaitingBlob { file_name: records[at].name },
                DownloadActionView::OpenBlob { storage_name: id },
            ),
        },
    }
}

/// The step after the blob has been opened: a blob that is missing or
/// cannot be opened finds nothing; otherwise the file is served under the
/// name it was uploaded with.
pub open spec fn on_blob_opened(file_name: Seq<char>, opened: bool) -> (
    DownloadStateView,
    DownloadActionView,
) {
    if opened {
        (
            DownloadStateView::Done,
            DownloadActionView::Respond(
                Ok(
                    DownloadResponseView {
                        file_name,
                        content_disposition: content_disposition(file_name),
                    },
                ),
            ),
        )
    } else {
        not_found()
    }
}

/// One step of a download at the time `now`: from where it stands and what
/// the surroundings report to where it stands next and what it asks of
/// them. An event that the state does not await finds nothing.
pub open spec fn download_transition(
    state: DownloadStateView,
    event: DownloadEventView,
    now: i64,
) -> (DownloadStateView, DownloadActionView) {
    match (state, event) {
        (DownloadStateView::Start, DownloadEventView::Request(request)) => on_download_request(
            request,
        ),
        (
            DownloadStateView::AwaitingRecords { id, token },
            DownloadEventView::Records(reply),
        ) => on_records(id, token, reply, now),
        (
            DownloadStateView::AwaitingBlob { file_name },
            DownloadEventView::BlobOpened(opened),
        ) => on_blob_opened(file_name, opened),
        _ => not_found(),
    }
}

fn nothing_found() -> (next: (DownloadState, DownloadAction))
    ensures
        (next.0@, next.1@) == not_found(),
{
    (DownloadState::Done, DownloadAction::Respond(Err(ErrorKind::NotFound)))
}

/// The value of the content-disposition header that offers a download under
/// `file_name`.
pub fn content_disposition_for(file_name: &str) -> (value: String)
    ensures
        value@ == content_disposition(file_name@),
{
    let mut value = String::from_str("attachment; filename=\"");
    value.append(file_name);
    value.append("\"");
    value
}

/// One step of a download at the time `now`.
pub fn download_next(state: DownloadState, event: DownloadEvent, now: i64) -> (next: (
    DownloadState,
    DownloadAction,
))
    ensures
        (next.0@, next.1@) == download_transition(state@, event@, now),
{
    match state {
        DownloadState::Start => match event {
            DownloadEvent::Request(request) => {
                let token = match request.token {
                    Some(token) => token,
                    None => String::new(),
                };
                if check_token(token.as_str(), TOKEN_MIN, TOKEN_MAX) {
                    let storage_name = request.id.clone();
                    (
                        DownloadState::AwaitingRecords { id: request.id, token },
                        DownloadAction::FindRecords { storage_name },
                    )
                } else {
                    nothing_found()
                }
            },
            _ => nothing_found(),
        },
        DownloadState::AwaitingRecords { id, token } => match event {
            DownloadEvent::Records(reply) => match reply {
                None => nothing_found(),
                Some(records) => match find_retrievable(&records, &id, &token, now) {
                    None => nothing_found(),
                    Some(at) => {
                        let file_name = records[at].name.clone();
                        (
                            DownloadState::AwaitingBlob { file_name },
                            DownloadAction::OpenBlob { storage_name: id },
                        )
                    },
                },
            },
            _ => nothing_found(),
        },
        DownloadState::AwaitingBlob { file_name } => match event {
            DownloadEvent::BlobOpened(opened) => if opened {
                let content_disposition = content_disposition_for(file_name.as_str());
                (
                    DownloadState::Done,
                    DownloadAction::Respond(
                        Ok(DownloadResponse { file_name, content_disposition }),
                    ),
                )
            } else {
                nothing_found()
            },
            _ => nothing_found(),
        },
        DownloadState::Done => nothing_found(),
    }
}

/// One step of a download: the clock is read, and the step is taken at
/// that time.
pub fn download_step(state: DownloadState, event: DownloadEvent) -> (next: (
    DownloadState,
    DownloadAction,
))
    ensures
        exists|now: i64| (next.0@, next.1@) == #[trigger] download_transition(state@, event@, now),
{
    let now = now_millis();
    download_next(state, event, now)
}

} // verus!
