//! The upload pipeline as a state machine: each step takes what the
//! surroundings report and decides what they do next.

use vstd::prelude::*;

use crate::clock::{expiry, expiry_for, now_millis, MAX_LIFETIME_MS};
use crate::decimal::{parse_i64, parsed_i64};
use crate::error::ErrorKind;
use crate::record::{file_name_ok, FileRecord, FileRecordView, FILE_NAME_MAX, TOKEN_MAX, TOKEN_MIN};
use crate::utils::{
    check_token, check_uuid, ramdom_string, random_salt, storage_name, storage_name_for, token_ok,
    uuid_ok,
};

verus! {

/// The length of the tokens that the service issues itself.
pub const ISSUED_TOKEN_LEN: usize = 12;

/// The bytes of one megabyte.
pub const MEGABYTE: i64 = 1_048_576;

/// The text of an optional string.
pub open spec fn text_of(text: Option<String>) -> Option<Seq<char>> {
    match text {
        Some(s) => Some(s@),
        None => None,
    }
}

/// What is fixed when the service starts.
#[derive(Clone, Copy, Debug, PartialEq, Eq)]
pub struct UploadConfig {
    /// The largest declared size, in bytes, that an upload may have.
    pub max_content_length: i64,
}

impl UploadConfig {
    /// The configuration for a cap of `megabytes` megabytes.
    pub fn with_megabytes(megabytes: u32) -> (config: UploadConfig)
        ensures
            config.max_content_length == megabytes * MEGABYTE,
    {
        UploadConfig { max_content_length: (megabytes as i64) * MEGABYTE }
    }
}

/// What an upload request carries besides its body.
#[derive(Debug, PartialEq, Eq)]
pub struct UploadRequest {
    /// The identity header, if there is one.
    pub identity: Option<String>,
    /// The declared length of the body, as the header gives it.
    pub content_length: Option<String>,
    /// The token that the caller would like the file to have.
    pub token: Option<String>,
    /// The lifetime that the caller asks for, in milliseconds.
    pub live: Option<i64>,
}

/// An upload request as a mathematical value.
pub struct UploadRequestView {
    pub identity: Option<Seq<char>>,
    pub content_length: Option<Seq<char>>,
    pub token: Option<Seq<char>>,
    pub live: Option<i64>,
}

impl View for UploadRequest {
    type V = UploadRequestView;

    open spec fn view(&self) -> UploadRequestView {
        UploadRequestView {
            identity: text_of(self.identity),
            content_length: text_of(self.content_length),
            token: text_of(self.token),
            live: self.live,
        }
    }
}

/// What a successful upload answers.
#[derive(Debug, PartialEq, Eq)]
pub struct UploadResponse {
    /// The share token of the file.
    pub token: String,
    /// The identifier of the file: its storage name.
    pub id: String,
}

/// A successful upload's answer as a mathematical value.
pub struct UploadResponseView {
    pub token: Seq<char>,
    pub id: Seq<char>,
}

impl View for UploadResponse {
    type V = UploadResponseView;

    open spec fn view(&self) -> UploadResponseView {
        UploadResponseView { token: self.token@, id: self.id@ }
    }
}

/// What a step may need that no request determines: a freshly issued token,
/// a salt and the time.
#[derive(Debug, PartialEq, Eq)]
pub struct Draws {
    /// A freshly issued token.
    pub token: String,
    /// A freshly drawn salt.
    pub salt: u64,
    /// The time, in milliseconds since the epoch.
    pub now: i64,
}

/// The draws of a step as a mathematical value.
pub struct DrawsView {
    pub token: Seq<char>,
    pub salt: u64,
    pub now: i64,
}

impl View for Draws {
    type V = DrawsView;

    open spec fn view(&self) -> DrawsView {
        DrawsView { token: self.token@, salt: self.salt, now: self.now }
    }
}

impl DrawsView {
    /// The draws that a step may be given: a token that the service could
    /// have issued, and a time to which a lifetime can be added.
    pub open spec fn usable(self) -> bool {
        &&& token_ok(self.token, ISSUED_TOKEN_LEN as int, ISSUED_TOKEN_LEN as int)
        &&& self.now + MAX_LIFETIME_MS <= i64::MAX
    }
}

/// How the writing of a blob ended.
#[derive(Clone, Copy, Debug, PartialEq, Eq, Structural)]
pub enum BlobWrite {
    /// The blob was created and holds all the bytes of the file part.
    Stored,
    /// The blob could not be created; nothing was written.
    NotCreated,
    /// The blob was created, but the stream broke before its end.
    Broken,
}

/// Where an upload stands.
#[derive(Debug, PartialEq, Eq)]
pub enum UploadState {
    /// Nothing has been looked at.
    Start,
    /// The identity is well formed; the identity store is being asked.
    AwaitingUser {
        owner: String,
        declared_length: Option<String>,
        wanted_token: Option<String>,
        wanted_live: Option<i64>,
    },
    /// The request is admitted; the file part is being read.
    AwaitingPart { owner: String, token: String, created_at: i64, dead_at: Option<i64> },
    /// The blob of `record` is being written.
    AwaitingBlob { record: FileRecord },
    /// The blob is written; `record` is being inserted.
    AwaitingInsert { record: FileRecord },
    /// The upload has failed with `error`; its blob is being removed.
    AwaitingRemoval { error: ErrorKind },
    /// The answer has been given.
    Done,
}

/// Where an upload stands, as a mathematical value.
pub enum UploadStateView {
    Start,
    AwaitingUser {
        owner: Seq<char>,
        declared_length: Option<Seq<char>>,
        wanted_token: Option<Seq<char>>,
        wanted_live: Option<i64>,
    },
    AwaitingPart { owner: Seq<char>, token: Seq<char>, created_at: i64, dead_at: Option<i64> },
    AwaitingBlob { record: FileRecordView },
    AwaitingInsert { record: FileRecordView },
    AwaitingRemoval { error: ErrorKind },
    Done,
}

impl View for UploadState {
    type V = UploadStateView;

    open spec fn view(&self) -> UploadStateView {
        match *self {
            UploadState::Start => UploadStateView::Start,
            UploadState::AwaitingUser {
                owner,
                declared_length,
                wanted_token,
                wanted_live,
            } => UploadStateView::AwaitingUser {
                owner: owner@,
                declared_length: text_of(declared_length),
                wanted_token: text_of(wanted_token),
                wanted_live,
            },
            UploadState::AwaitingPart {
                owner,
                token,
                created_at,
                dead_at,
            } => UploadStateView::AwaitingPart {
                owner: owner@,
                token: token@,
                created_at,
                dead_at,
            },
            UploadState::AwaitingBlob { record } => UploadStateView::AwaitingBlob {
                record: record@,
            },
            UploadState::AwaitingInsert { record } => UploadStateView::AwaitingInsert {
                record: record@,
            },
            UploadState::AwaitingRemoval { error } => UploadStateView::AwaitingRemoval { error },
            UploadState::Done => UploadStateView::Done,
        }
    }
}

/// What the surroundings report to an upload.
#[derive(Debug, PartialEq, Eq)]
pub enum UploadEvent {
    /// A request has arrived.
    Request(UploadRequest),
    /// The identity store has counted the enabled users with the identifier
    /// asked for, or has failed (`None`).
    UserCount(Option<i64>),
    /// The first part of the body has been read and declares this file name
    /// (empty where it declares none), or there is no part to read (`None`).
    FilePart(Option<String>),
    /// The writing of the blob has ended.
    BlobWritten(BlobWrite),
    /// The metadata store has inserted the record (`true`) or failed.
    RecordInserted(bool),
    /// The removal of the blob has been tried.
    BlobRemoved,
}

/// What the surroundings report, as a mathematical value.
pub enum UploadEventView {
    Request(UploadRequestView),
    UserCount(Option<i64>),
    FilePart(Option<Seq<char>>),
    BlobWritten(BlobWrite),
    RecordInserted(bool),
    BlobRemoved,
}

impl View for UploadEvent {
    type V = UploadEventView;

    open spec fn view(&self) -> UploadEventView {
        match *self {
            UploadEvent::Request(request) => UploadEventView::Request(request@),
            UploadEvent::UserCount(count) => UploadEventView::UserCount(count),
            UploadEvent::FilePart(name) => UploadEventView::FilePart(text_of(name)),
            UploadEvent::BlobWritten(outcome) => UploadEventView::BlobWritten(outcome),
            UploadEvent::RecordInserted(ok) => UploadEventView::RecordInserted(ok),
            UploadEvent::BlobRemoved => UploadEventView::BlobRemoved,
        }
    }
}

/// What an upload asks of its surroundings.
#[derive(Debug, PartialEq, Eq)]
pub enum UploadAction {
    /// Count the enabled users that have this identifier.
    CountEnabledUsers { identifier: String },
    /// Read the first part of the body.
    ReadFilePart,
    /// Create a new blob of this name and stream the file part into it.
    WriteBlob { storage_name: String },
    /// Insert this record into the metadata store.
    InsertRecord { record: FileRecord },
    /// Remove the blob of this name; a failure to do so is of no account.
    RemoveBlob { storage_name: String },
    /// Answer the request.
    Respond(Result<UploadResponse, ErrorKind>),
}

/// What an upload asks of its surroundings, as a mathematical value.
pub enum UploadActionView {
    CountEnabledUsers { identifier: Seq<char> },
    ReadFilePart,
    WriteBlob { storage_name: Seq<char> },
    InsertRecord { record: FileRecordView },
    RemoveBlob { storage_name: Seq<char> },
    Respond(Result<UploadResponseView, ErrorKind>),
}

impl View for UploadAction {
    type V = UploadActionView;

    open spec fn view(&self) -> UploadActionView {
        match *self {
            UploadAction::CountEnabledUsers { identifier } => UploadActionView::CountEnabledUsers {
                identifier: identifier@,
            },
            UploadAction::ReadFilePart => UploadActionView::ReadFilePart,
            UploadAction::WriteBlob { storage_name } => UploadActionView::WriteBlob {
                storage_name: storage_name@,
            },
            UploadAction::InsertRecord { record } => UploadActionView::InsertRecord {
                record: record@,
            },
            UploadAction::RemoveBlob { storage_name } => UploadActionView::RemoveBlob {
                storage_name: storage_name@,
            },
            UploadAction::Respond(answer) => UploadActionView::Respond(
                match answer {
                    Ok(response) => Ok(response@),
                    Err(kind) => Err(kind),
                },
            ),
        }
    }
}

/// The step that ends an upload by refusing it.
pub open spec fn refuse(kind: ErrorKind) -> (UploadStateView, UploadActionView) {
    (UploadStateView::Done, UploadActionView::Respond(Err(kind)))
}

/// What the declared length of the body says of the request: nothing where
/// none is declared; a bad request where the declaration writes no integer
/// of 64 bits; too large a payload where it writes more than `cap`.
pub open spec fn content_length_verdict(declared: Option<Seq<char>>, cap: i64) -> Result<
    (),
    ErrorKind,
> {
    match declared {
        None => Ok(()),
        Some(text) => match parsed_i64(text) {
            None => Err(ErrorKind::BadRequest),
            Some(length) => if length > cap {
                Err(ErrorKind::PayloadTooLarge)
            } else {
                Ok(())
            },
        },
    }
}

/// The token of an upload: the one that the caller wants where it is well
/// formed, and the freshly issued one otherwise.
pub open spec fn resolved_token(wanted: Option<Seq<char>>, fresh: Seq<char>) -> Seq<char> {
    match wanted {
        Some(token) => if token_ok(token, TOKEN_MIN as int, TOKEN_MAX as int) {
            token
        } else {
            fresh
        },
        None => fresh,
    }
}

/// The first step: no identity is unauthorized, a malformed one forbidden,
/// and a well-formed one is looked up before anything else is read.
pub open spec fn on_request(request: UploadRequestView) -> (UploadStateView, UploadActionView) {
    match request.identity {
        None => refuse(ErrorKind::Unauthorized),
        Some(identifier) => if uuid_ok(identifier) {
            (
                UploadStateView::AwaitingUser {
                    owner: identifier,
                    declared_length: request.content_length,
                    wanted_token: request.token,
                    wanted_live: request.live,
                },
                UploadActionView::CountEnabledUsers { identifier },
            )
        } else {
            refuse(ErrorKind::Forbidden)
        },
    }
}

/// The step after the identity store has answered: its failure is an
/// internal error, no enabled user is forbidden; then the declared length is
/// judged, and the token, the creation time and the expiry are fixed.
pub open spec fn on_user_count(
    config: UploadConfig,
    owner: Seq<char>,
    declared_length: Option<Seq<char>>,
    wanted_token: Option<Seq<char>>,
    wanted_live: Option<i64>,
    reply: Option<i64>,
    draws: DrawsView,
) -> (UploadStateView, UploadActionView) {
    match reply {
        None => refuse(ErrorKind::InternalError),
        Some(count) => if count <= 0 {
            refuse(ErrorKind::Forbidden)
        } else {
            match content_length_verdict(declared_length, config.max_content_length) {
                Err(kind) => refuse(kind),
                Ok(_) => (
                    UploadStateView::AwaitingPart {
                        owner,
                        token: resolved_token(wanted_token, draws.token),
                        created_at: draws.now,
                        dead_at: expiry(draws.now, wanted_live),
                    },
                    UploadActionView::ReadFilePart,
                ),
            }
        },
    }
}

/// The step after the file part has been read: no part, or one with an
/// empty or overlong file name, is a bad request; otherwise the record is
/// made up, with its storage name derived under the salt, and the blob is
/// written first.
pub open spec fn on_file_part(
    owner: Seq<char>,
    token: Seq<char>,
    created_at: i64,
    dead_at: Option<i64>,
    part: Option<Seq<char>>,
    draws: DrawsView,
) -> (UploadStateView, UploadActionView) {
    match part {
        None => refuse(ErrorKind::BadRequest),
        Some(name) => if file_name_ok(name) {
            let record = FileRecordView {
                name,
                token,
                owner,
                storage_name: storage_name(name, draws.salt),
                created_at,
                dead_at,
                available: true,
            };
            (
                UploadStateView::AwaitingBlob { record },
                UploadActionView::WriteBlob { storage_name: record.storage_name },
            )
        } else {
            refuse(ErrorKind::BadRequest)
        },
    }
}

/// The step after the blob has been written: a blob that could not be
/// created is an internal error; a broken stream is a bad request, answered
/// once the partial blob has been removed; a stored blob is followed by the
/// insertion of its record.
pub open spec fn on_blob_written(record: FileRecordView, outcome: BlobWrite) -> (
    UploadStateView,
    UploadActionView,
) {
    match outcome {
        BlobWrite::Stored => (
            UploadStateView::AwaitingInsert { record },
            UploadActionView::InsertRecord { record },
        ),
        BlobWrite::NotCreated => refuse(ErrorKind::InternalError),
        BlobWrite::Broken => (
            UploadStateView::AwaitingRemoval { error: ErrorKind::BadRequest },
            UploadActionView::RemoveBlob { storage_name: record.storage_name },
        ),
    }
}

/// The step after the insertion of the record: where it succeeded the upload
/// has succeeded; where it failed the upload is an internal error, answered
/// once the blob has been removed.
pub open spec fn on_record_inserted(record: FileRecordView, inserted: bool) -> (
    UploadStateView,
    UploadActionView,
) {
    if inserted {
        (
            UploadStateView::Done,
            UploadActionView::Respond(
                Ok(UploadResponseView { token: record.token, id: record.storage_name }),
            ),
        )
    } else {
        (
            UploadStateView::AwaitingRemoval { error: ErrorKind::InternalError },
            UploadActionView::RemoveBlob { storage_name: record.storage_name },
        )
    }
}

/// One step of an upload: from where it stands and what the surroundings
/// report to where it stands next and what it asks of them. An event that
/// the state does not await ends the upload with an internal error.
pub open spec fn upload_transition(
    config: UploadConfig,
    state: UploadStateView,
    event: UploadEventView,
    draws: DrawsView,
) -> (UploadStateView, UploadActionView) {
    match (state, event) {
        (UploadStateView::Start, UploadEventView::Request(request)) => on_request(request),
        (
            UploadStateView::AwaitingUser { owner, declared_length, wanted_token, wanted_live },
            UploadEventView::UserCount(reply),
        ) => on_user_count(
            config,
            owner,
            declared_length,
            wanted_token,
            wanted_live,
            reply,
            draws,
        ),
        (
            UploadStateView::AwaitingPart { owner, token, created_at, dead_at },
            UploadEventView::FilePart(part),
        ) => on_file_part(owner, token, created_at, dead_at, part, draws),
        (
            UploadStateView::AwaitingBlob { record },
            UploadEventView::BlobWritten(outcome),
        ) => on_blob_written(record, outcome),
        (
            UploadStateView::AwaitingInsert { record },
            UploadEventView::RecordInserted(inserted),
        ) => on_record_inserted(record, inserted),
        (UploadStateView::AwaitingRemoval { error }, UploadEventView::BlobRemoved) => refuse(error),
        _ => refuse(ErrorKind::InternalError),
    }
}

fn refused(kind: ErrorKind) -> (next: (UploadState, UploadAction))
    ensures
        (next.0@, next.1@) == refuse(kind),
{
    (UploadState::Done, UploadAction::Respond(Err(kind)))
}

/// Judges the declared length of the body against the cap.
pub fn check_content_length(declared: &Option<String>, cap: i64) -> (verdict: Result<(), ErrorKind>)
    ensures
        verdict == content_length_verdict(text_of(*declared), cap),
{
    match declared {
        None => Ok(()),
        Some(text) => match parse_i64(text.as_str()) {
            None => Err(ErrorKind::BadRequest),
            Some(length) => if length > cap {
                Err(ErrorKind::PayloadTooLarge)
            } else {
                Ok(())
            },
        },
    }
}

/// The token of an upload, given the one that the caller wants and a freshly
/// issued one.
pub fn resolve_token_with(wanted: Option<String>, fresh: String) -> (token: String)
    ensures
        token@ == resolved_token(text_of(wanted), fresh@),
{
    match wanted {
        Some(token) => if check_token(token.as_str(), TOKEN_MIN, TOKEN_MAX) {
            token
        } else {
            fresh
        },
        None => fresh,
    }
}

/// Whether an upload may carry this file name.
pub fn check_file_name(name: &str) -> (ok: bool)
    ensures
        ok == file_name_ok(name@),
{
    let length = name.as_bytes().len();
    1 <= length && length <= FILE_NAME_MAX
}

/// One step of an upload under given draws.
pub fn upload_next(
    config: &UploadConfig,
    state: UploadState,
    event: UploadEvent,
    draws: Draws,
) -> (next: (UploadState, UploadAction))
    requires
        draws.now + MAX_LIFETIME_MS <= i64::MAX,
    ensures
        (next.0@, next.1@) == upload_transition(*config, state@, event@, draws@),
{
    match state {
        UploadState::Start => match event {
            UploadEvent::Request(request) => match request.identity {
                None => refused(ErrorKind::Unauthorized),
                Some(identifier) => if check_uuid(identifier.as_str()) {
                    let owner = identifier.clone();
                    (
                        UploadState::AwaitingUser {
                            owner,
                            declared_length: request.content_length,
                            wanted_token: request.token,
                            wanted_live: request.live,
                        },
                        UploadAction::CountEnabledUsers { identifier },
                    )
                } else {
                    refused(ErrorKind::Forbidden)
                },
            },
            _ => refused(ErrorKind::InternalError),
        },
        UploadState::AwaitingUser {
            owner,
            declared_length,
            wanted_token,
            wanted_live,
        } => match event {
            UploadEvent::UserCount(reply) => match reply {
                None => refused(ErrorKind::InternalError),
                Some(count) => if count <= 0 {
                    refused(ErrorKind::Forbidden)
                } else {
                    match check_content_length(&declared_length, config.max_content_length) {
                        Err(kind) => refused(kind),
                        Ok(_) => (
                            UploadState::AwaitingPart {
                                owner,
                                token: resolve_token_with(wanted_token, draws.token),
                                created_at: draws.now,
                                dead_at: expiry_for(draws.now, wanted_live),
                            },
                            UploadAction::ReadFilePart,
                        ),
                    }
                },
            },
            _ => refused(ErrorKind::InternalError),
        },
        UploadState::AwaitingPart { owner, token, created_at, dead_at } => match event {
            UploadEvent::FilePart(part) => match part {
                None => refused(ErrorKind::BadRequest),
                Some(name) => if check_file_name(name.as_str()) {
                    let storage_name = storage_name_for(name.as_str(), draws.salt);
                    let wanted = storage_name.clone();
                    let record = FileRecord {
                        name,
                        token,
                        owner,
                        storage_name,
                        created_at,
                        dead_at,
                        available: true,
                    };
                    (
                        UploadState::AwaitingBlob { record },
                        UploadAction::WriteBlob { storage_name: wanted },
                    )
                } else {
                    refused(ErrorKind::BadRequest)
                },
            },
            _ => refused(ErrorKind::InternalError),
        },
        UploadState::AwaitingBlob { record } => match event {
            UploadEvent::BlobWritten(outcome) => match outcome {
                BlobWrite::Stored => {
                    let kept = record.clone();
                    (
                        UploadState::AwaitingInsert { record: kept },
                        UploadAction::InsertRecord { record },
                    )
                },
                BlobWrite::NotCreated => refused(ErrorKind::InternalError),
                BlobWrite::Broken => (
                    UploadState::AwaitingRemoval { error: ErrorKind::BadRequest },
                    UploadAction::RemoveBlob { storage_name: record.storage_name },
                ),
            },
            _ => refused(ErrorKind::InternalError),
        },
        UploadState::AwaitingInsert { record } => match event {
            UploadEvent::RecordInserted(inserted) => if inserted {
                (
                    UploadState::Done,
                    UploadAction::Respond(
                        Ok(UploadResponse { token: record.token, id: record.storage_name }),
                    ),
                )
            } else {
                (
                    UploadState::AwaitingRemoval { error: ErrorKind::InternalError },
                    UploadAction::RemoveBlob { storage_name: record.storage_name },
                )
            },
            _ => refused(ErrorKind::InternalError),
        },
        UploadState::AwaitingRemoval { error } => match event {
            UploadEvent::BlobRemoved => refused(error),
            _ => refused(ErrorKind::InternalError),
        },
        UploadState::Done => refused(ErrorKind::InternalError),
    }
}

/// One step of an upload: the token that may be needed is issued, the salt
/// drawn and the clock read, and the step is taken under them.
pub fn upload_step(config: &UploadConfig, state: UploadState, event: UploadEvent) -> (next: (
    UploadState,
    UploadAction,
))
    ensures
        exists|draws: DrawsView|
            draws.usable() && (next.0@, next.1@) == #[trigger] upload_transition(
                *config,
                state@,
                event@,
                draws,
            ),
{
    let draws = Draws {
        token: ramdom_string(ISSUED_TOKEN_LEN),
        salt: random_salt(),
        now: now_millis(),
    };
    let ghost used = draws@;
    let next = upload_next(config, state, event, draws);
    assert((next.0@, next.1@) == upload_transition(*config, state@, event@, used));
    next
}

} // verus!
