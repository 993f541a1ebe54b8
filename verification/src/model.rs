//! A model of the stores and of the surroundings that act on them, and the
//! two pipelines run against it from the request to the answer.

use vstd::prelude::*;

use crate::download::{
    download_transition, DownloadActionView, DownloadEventView, DownloadRequestView,
    DownloadResponseView, DownloadStateView,
};
use crate::error::ErrorKind;
use crate::record::FileRecordView;
use crate::upload::{
    upload_transition, BlobWrite, DrawsView, UploadActionView, UploadConfig, UploadEventView,
    UploadRequestView, UploadResponseView, UploadStateView,
};

verus! {

/// A user as the identity store keeps it.
pub struct User {
    pub identifier: Seq<char>,
    pub enabled: bool,
}

/// What the identity store, the metadata store and the storage root hold.
pub struct World {
    /// The users, enabled or not.
    pub users: Seq<User>,
    /// The file records, oldest first.
    pub records: Seq<FileRecordView>,
    /// The blobs under the storage root, by name.
    pub blobs: Map<Seq<char>, Seq<u8>>,
}

/// Whether `user` is enabled and has this identifier.
pub open spec fn is_enabled(user: User, identifier: Seq<char>) -> bool {
    user.enabled && user.identifier == identifier
}

/// How many of `users` are enabled and have this identifier.
pub open spec fn enabled_count(users: Seq<User>, identifier: Seq<char>) -> nat
    decreases users.len(),
{
    if users.len() == 0 {
        0
    } else {
        let before = enabled_count(users.drop_last(), identifier);
        if is_enabled(users.last(), identifier) {
            before + 1
        } else {
            before
        }
    }
}

/// The count that the identity store reports for `count` users: the count
/// itself, as far as 64 bits can hold it.
pub open spec fn reported_count(count: nat) -> i64 {
    if count > i64::MAX {
        i64::MAX
    } else {
        count as i64
    }
}

/// Those of `records` that are kept under the storage name `name`, in order.
pub open spec fn records_named(records: Seq<FileRecordView>, name: Seq<char>) -> Seq<
    FileRecordView,
> {
    records.filter(|r: FileRecordView| r.storage_name == name)
}

impl World {
    /// Whether an enabled user has this identifier.
    pub open spec fn knows(self, identifier: Seq<char>) -> bool {
        exists|i: int| 0 <= i < self.users.len() && #[trigger] is_enabled(self.users[i], identifier)
    }

    /// What the upload pipeline keeps up: every record has its blob, and no
    /// two records share a storage name.
    pub open spec fn consistent(self) -> bool {
        &&& forall|i: int|
            0 <= i < self.records.len() ==> self.blobs.dom().contains(
                (#[trigger] self.records[i]).storage_name,
            )
        &&& forall|i: int, j: int|
            0 <= i < j < self.records.len() ==> (#[trigger] self.records[i]).storage_name != (
            #[trigger] self.records[j]).storage_name
    }

    /// Whether `other` holds all that `self` holds: the same users, the
    /// records of `self` first and unchanged, and every blob of `self` with
    /// the same bytes.
    pub open spec fn kept_in(self, other: World) -> bool {
        &&& other.users == self.users
        &&& self.records.len() <= other.records.len()
        &&& forall|i: int| 0 <= i < self.records.len() ==> other.records[i] == self.records[i]
        &&& forall|name: Seq<char>| #[trigger]
            self.blobs.dom().contains(name) ==> other.blobs.dom().contains(name)
                && other.blobs[name] == self.blobs[name]
    }
}

/// The file part of an upload's body.
pub struct FilePart {
    /// The file name that the part declares; empty where it declares none.
    pub name: Seq<char>,
    /// The bytes of the file.
    pub content: Seq<u8>,
}

/// How the surroundings fare during one upload.
pub struct UploadWeather {
    /// The identity store answers.
    pub identity_store_up: bool,
    /// The file part of the body, if it can be read.
    pub part: Option<FilePart>,
    /// Nothing but a blob of the same name keeps a blob from being created.
    pub storage_writable: bool,
    /// The number of bytes after which the client's stream breaks; `None`
    /// where it does not break.
    pub stream_breaks_after: Option<nat>,
    /// The metadata store inserts the record.
    pub insert_succeeds: bool,
    /// A blob that is to be removed is removed.
    pub removal_succeeds: bool,
}

impl UploadWeather {
    /// The bytes of the file part; none where there is no part.
    pub open spec fn content(self) -> Seq<u8> {
        match self.part {
            Some(part) => part.content,
            None => Seq::empty(),
        }
    }

    /// Nothing fails and there is a file part to read.
    pub open spec fn fair(self) -> bool {
        &&& self.identity_store_up
        &&& self.part is Some
        &&& self.storage_writable
        &&& self.stream_breaks_after is None
        &&& self.insert_succeeds
    }
}

/// What the surroundings make of the world when they do what an upload asks,
/// and what they report. A blob is created only under a name that no blob
/// has yet; a stream that breaks leaves the bytes that arrived. An answer
/// asks nothing of them: what stands here for it is never looked at.
pub open spec fn upload_surroundings(
    world: World,
    action: UploadActionView,
    weather: UploadWeather,
) -> (World, UploadEventView) {
    match action {
        UploadActionView::CountEnabledUsers { identifier } => (
            world,
            UploadEventView::UserCount(
                if weather.identity_store_up {
                    Some(reported_count(enabled_count(world.users, identifier)))
                } else {
                    None
                },
            ),
        ),
        UploadActionView::ReadFilePart => (
            world,
            UploadEventView::FilePart(
                match weather.part {
                    Some(part) => Some(part.name),
                    None => None,
                },
            ),
        ),
        UploadActionView::WriteBlob { storage_name } => {
            if world.blobs.dom().contains(storage_name) || !weather.storage_writable {
                (world, UploadEventView::BlobWritten(BlobWrite::NotCreated))
            } else {
                match weather.stream_breaks_after {
                    None => (
                        World {
                            blobs: world.blobs.insert(storage_name, weather.content()),
                            ..world
                        },
                        UploadEventView::BlobWritten(BlobWrite::Stored),
                    ),
                    Some(arrived) => (
                        World {
                            blobs: world.blobs.insert(
                                storage_name,
                                weather.content().take(arrived as int),
                            ),
                            ..world
                        },
                        UploadEventView::BlobWritten(BlobWrite::Broken),
                    ),
                }
            }
        },
        UploadActionView::InsertRecord { record } => {
            if weather.insert_succeeds {
                (
                    World { records: world.records.push(record), ..world },
                    UploadEventView::RecordInserted(true),
                )
            } else {
                (world, UploadEventView::RecordInserted(false))
            }
        },
        UploadActionView::RemoveBlob { storage_name } => {
            if weather.removal_succeeds {
                (
                    World { blobs: world.blobs.remove(storage_name), ..world },
                    UploadEventView::BlobRemoved,
                )
            } else {
                (world, UploadEventView::BlobRemoved)
            }
        },
        UploadActionView::Respond(_) => (world, UploadEventView::BlobRemoved),
    }
}

/// How an upload ended: what the stores hold after it, and its answer.
pub struct UploadEnd {
    pub world: World,
    pub answer: Result<UploadResponseView, ErrorKind>,
}

/// An upload from `state` on, of at most `steps` further requests to the
/// surroundings: each step's request is done by the surroundings, and what
/// they report is the next step's event, until the upload answers.
pub open spec fn upload_from(
    config: UploadConfig,
    world: World,
    state: UploadStateView,
    event: UploadEventView,
    weather: UploadWeather,
    draws: DrawsView,
    steps: nat,
) -> UploadEnd
    decreases steps,
{
    let (next, action) = upload_transition(config, state, event, draws);
    match action {
        UploadActionView::Respond(answer) => UploadEnd { world, answer },
        _ => if steps == 0 {
            UploadEnd { world, answer: Err(ErrorKind::InternalError) }
        } else {
            let (after, report) = upload_surroundings(world, action, weather);
            upload_from(config, after, next, report, weather, draws, (steps - 1) as nat)
        },
    }
}

/// The number of requests that an upload makes of its surroundings at most.
pub open spec fn upload_steps() -> nat {
    5
}

/// One whole upload of `request` against `world`.
pub open spec fn upload_run(
    config: UploadConfig,
    world: World,
    request: UploadRequestView,
    weather: UploadWeather,
    draws: DrawsView,
) -> UploadEnd {
    upload_from(
        config,
        world,
        UploadStateView::Start,
        UploadEventView::Request(request),
        weather,
        draws,
        upload_steps(),
    )
}

/// How the surroundings fare during one download.
pub struct DownloadWeather {
    /// The metadata store answers.
    pub metadata_store_up: bool,
    /// A blob that exists can be opened.
    pub storage_readable: bool,
}

/// What a download delivers: its answer, and the bytes that follow it.
pub struct Delivery {
    pub response: DownloadResponseView,
    pub content: Seq<u8>,
}

/// What the surroundings report when they do what a download asks, and the
/// bytes of the blob that they have opened, if any. An answer asks nothing
/// of them: what stands here for it is never looked at.
pub open spec fn download_surroundings(
    world: World,
    action: DownloadActionView,
    weather: DownloadWeather,
    opened: Option<Seq<u8>>,
) -> (DownloadEventView, Option<Seq<u8>>) {
    match action {
        DownloadActionView::FindRecords { storage_name } => (
            DownloadEventView::Records(
                if weather.metadata_store_up {
                    Some(records_named(world.records, storage_name))
                } else {
                    None
                },
            ),
            opened,
        ),
        DownloadActionView::OpenBlob { storage_name } => {
            if world.blobs.dom().contains(storage_name) && weather.storage_readable {
                (DownloadEventView::BlobOpened(true), Some(world.blobs[storage_name]))
            } else {
                (DownloadEventView::BlobOpened(false), opened)
            }
        },
        DownloadActionView::Respond(_) => (DownloadEventView::BlobOpened(false), opened),
    }
}

/// A download from `state` on, of at most `steps` further requests to the
/// surroundings. A successful answer delivers the bytes of the blob that
/// was opened.
pub open spec fn download_from(
    world: World,
    state: DownloadStateView,
    event: DownloadEventView,
    weather: DownloadWeather,
    now: i64,
    opened: Option<Seq<u8>>,
    steps: nat,
) -> Result<Delivery, ErrorKind>
    decreases steps,
{
    let (next, action) = download_transition(state, event, now);
    match action {
        DownloadActionView::Respond(answer) => match answer {
            Ok(response) => match opened {
                Some(content) => Ok(Delivery { response, content }),
                None => Err(ErrorKind::NotFound),
            },
            Err(kind) => Err(kind),
        },
        _ => if steps == 0 {
            Err(ErrorKind::NotFound)
        } else {
            let (report, opened_now) = download_surroundings(world, action, weather, opened);
            download_from(world, next, report, weather, now, opened_now, (steps - 1) as nat)
        },
    }
}

/// The number of requests that a download makes of its surroundings at most.
pub open spec fn download_steps() -> nat {
    2
}

/// One whole download against `world` at the time `now`.
pub open spec fn download_run(
    world: World,
    request: DownloadRequestView,
    weather: DownloadWeather,
    now: i64,
) -> Result<Delivery, ErrorKind> {
    download_from(
        world,
        DownloadStateView::Start,
        DownloadEventView::Request(request),
        weather,
        now,
        None,
        download_steps(),
    )
}

} // verus!
