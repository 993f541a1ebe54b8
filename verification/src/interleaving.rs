//! Two uploads in flight at once: their steps interleave in any order, and
//! each step's request is done by the surroundings before the next step of
//! either upload is taken.

use vstd::prelude::*;

use crate::clock::expiry;
use crate::download::{content_disposition, DownloadRequestView, DownloadResponseView};
use crate::error::ErrorKind;
use crate::guarantees::{law_download_serves_the_record, record_of};
use crate::model::{
    download_run, upload_from, upload_run, upload_steps, upload_surroundings, Delivery,
    DownloadWeather, UploadWeather, World,
};
use crate::upload::{
    resolved_token, upload_transition, BlobWrite, DrawsView, UploadActionView, UploadConfig,
    UploadEventView, UploadRequestView, UploadResponseView, UploadStateView,
};

verus! {

/// An upload: its request, how the surroundings fare for it, and its draws.
pub struct Upload {
    pub request: UploadRequestView,
    pub weather: UploadWeather,
    pub draws: DrawsView,
}

/// How far an upload has come: where it stands, what the surroundings have
/// reported last, and its answer once it has given one.
pub struct Progress {
    pub state: UploadStateView,
    pub event: UploadEventView,
    pub answer: Option<Result<UploadResponseView, ErrorKind>>,
}

/// An upload of which nothing has happened yet but the arrival of its
/// request.
pub open spec fn begun(upload: Upload) -> Progress {
    Progress {
        state: UploadStateView::Start,
        event: UploadEventView::Request(upload.request),
        answer: None,
    }
}

/// One step of an upload in flight: the upload decides, and the surroundings
/// do at once what it asks. An upload that has answered stays as it is.
pub open spec fn advance(
    config: UploadConfig,
    world: World,
    upload: Upload,
    progress: Progress,
) -> (World, Progress) {
    if progress.answer is Some {
        (world, progress)
    } else {
        let (next, action) = upload_transition(
            config,
            progress.state,
            progress.event,
            upload.draws,
        );
        match action {
            UploadActionView::Respond(answer) => (
                world,
                Progress { state: next, event: progress.event, answer: Some(answer) },
            ),
            _ => {
                let (after, report) = upload_surroundings(world, action, upload.weather);
                (after, Progress { state: next, event: report, answer: None })
            },
        }
    }
}

/// Where the stores and two uploads stand.
pub struct Flights {
    pub world: World,
    pub first: Progress,
    pub second: Progress,
}

/// Two uploads taking steps in the order of `schedule`: `true` lets the
/// first one take a step, `false` the second.
pub open spec fn interleaved(
    config: UploadConfig,
    first: Upload,
    second: Upload,
    flights: Flights,
    schedule: Seq<bool>,
) -> Flights
    decreases schedule.len(),
{
    if schedule.len() == 0 {
        flights
    } else {
        let next = if schedule[0] {
            let (world, progress) = advance(config, flights.world, first, flights.first);
            Flights { world, first: progress, ..flights }
        } else {
            let (world, progress) = advance(config, flights.world, second, flights.second);
            Flights { world, second: progress, ..flights }
        };
        interleaved(config, first, second, next, schedule.drop_first())
    }
}

/// No record is kept under this storage name.
pub open spec fn unrecorded(world: World, name: Seq<char>) -> bool {
    forall|i: int|
        0 <= i < world.records.len() ==> (#[trigger] world.records[i]).storage_name != name
}

/// The stores hold the record and the blob of this upload.
pub open spec fn stored(world: World, upload: Upload) -> bool {
    &&& upload.weather.part matches Some(part)
    &&& world.blobs.dom().contains(record_of(upload.request, part, upload.draws).storage_name)
    &&& world.blobs[record_of(upload.request, part, upload.draws).storage_name] == part.content
    &&& exists|i: int|
        0 <= i < world.records.len() && #[trigger] world.records[i] == record_of(
            upload.request,
            part,
            upload.draws,
        )
}

/// The name of the blob that the upload has created and that has no record
/// yet, if it stands so.
pub open spec fn pending_blob(progress: Progress) -> Option<Seq<char>> {
    if progress.answer is Some {
        None
    } else {
        match (progress.state, progress.event) {
            (
                UploadStateView::AwaitingBlob { record },
                UploadEventView::BlobWritten(BlobWrite::Stored),
            ) => Some(record.storage_name),
            (
                UploadStateView::AwaitingBlob { record },
                UploadEventView::BlobWritten(BlobWrite::Broken),
            ) => Some(record.storage_name),
            (
                UploadStateView::AwaitingInsert { record },
                UploadEventView::RecordInserted(false),
            ) => Some(record.storage_name),
            _ => None,
        }
    }
}

/// Whether the upload has had its record inserted.
pub open spec fn committed(progress: Progress) -> bool {
    match progress.answer {
        Some(Ok(_)) => true,
        Some(Err(_)) => false,
        None => progress.state is AwaitingInsert && progress.event
            == UploadEventView::RecordInserted(true),
    }
}

/// What holds of one upload in flight, whatever the other one does: it
/// stands where its own steps can have brought it; a blob that it has
/// created and not yet recorded exists and has no record; and once its
/// record is inserted the stores hold its record and its blob, and its
/// answer, if given, names them.
pub open spec fn on_course(world: World, upload: Upload, progress: Progress) -> bool {
    let request = upload.request;
    let draws = upload.draws;
    match progress.answer {
        Some(Ok(response)) => {
            &&& stored(world, upload)
            &&& response.id == record_of(request, upload.weather.part->Some_0, draws).storage_name
            &&& response.token == record_of(request, upload.weather.part->Some_0, draws).token
        },
        Some(Err(_)) => true,
        None => match (progress.state, progress.event) {
            (UploadStateView::Start, UploadEventView::Request(arrived)) => arrived == request,
            (
                UploadStateView::AwaitingUser { owner, declared_length, wanted_token, wanted_live },
                UploadEventView::UserCount(_),
            ) => {
                &&& request.identity == Some(owner)
                &&& request.content_length == declared_length
                &&& request.token == wanted_token
                &&& request.live == wanted_live
            },
            (
                UploadStateView::AwaitingPart { owner, token, created_at, dead_at },
                UploadEventView::FilePart(name),
            ) => {
                &&& request.identity == Some(owner)
                &&& token == resolved_token(request.token, draws.token)
                &&& created_at == draws.now
                &&& dead_at == expiry(draws.now, request.live)
                &&& name == match upload.weather.part {
                    Some(part) => Some(part.name),
                    None => None,
                }
            },
            (UploadStateView::AwaitingBlob { record }, UploadEventView::BlobWritten(outcome)) => {
                &&& upload.weather.part matches Some(part)
                &&& record == record_of(request, part, draws)
                &&& outcome == BlobWrite::Stored ==> world.blobs.dom().contains(record.storage_name)
                    && world.blobs[record.storage_name] == part.content
                &&& outcome != BlobWrite::NotCreated ==> world.blobs.dom().contains(
                    record.storage_name,
                ) && unrecorded(world, record.storage_name)
            },
            (
                UploadStateView::AwaitingInsert { record },
                UploadEventView::RecordInserted(inserted),
            ) => {
                &&& upload.weather.part matches Some(part)
                &&& record == record_of(request, part, draws)
                &&& if inserted {
                    stored(world, upload)
                } else {
                    world.blobs.dom().contains(record.storage_name) && unrecorded(
                        world,
                        record.storage_name,
                    )
                }
            },
            (UploadStateView::AwaitingRemoval { error }, UploadEventView::BlobRemoved) => true,
            _ => false,
        },
    }
}

/// The storage name of the upload's record; the empty name where the upload
/// has no file part.
pub open spec fn name_of(upload: Upload) -> Seq<char> {
    match upload.weather.part {
        Some(part) => record_of(upload.request, part, upload.draws).storage_name,
        None => Seq::empty(),
    }
}

/// What holds of the stores and of two uploads in flight after any number of
/// steps: the stores are consistent, each upload is on course, and the two
/// do not share a storage name once each of them has created its blob.
pub open spec fn in_order(first: Upload, second: Upload, flights: Flights) -> bool {
    &&& flights.world.consistent()
    &&& on_course(flights.world, first, flights.first)
    &&& on_course(flights.world, second, flights.second)
    &&& (pending_blob(flights.first) is Some || committed(flights.first)) && (pending_blob(
        flights.second,
    ) is Some || committed(flights.second)) ==> name_of(first) != name_of(second)
}

/// A step of the first of two uploads keeps the stores and both uploads in
/// order.
pub proof fn lemma_step_keeps_order(
    config: UploadConfig,
    first: Upload,
    second: Upload,
    flights: Flights,
)
    requires
        in_order(first, second, flights),
    ensures
        in_order(
            first,
            second,
            Flights {
                world: advance(config, flights.world, first, flights.first).0,
                first: advance(config, flights.world, first, flights.first).1,
                second: flights.second,
            },
        ),
{
    let world = flights.world;
    let (after, progress) = advance(config, world, first, flights.first);
    if flights.first.answer is None {
        let (next, action) = upload_transition(
            config,
            flights.first.state,
            flights.first.event,
            first.draws,
        );
        match action {
            UploadActionView::InsertRecord { record } => {
                if first.weather.insert_succeeds {
                    let at = world.records.len() as int;
                    assert(after.records[at] == record);
                    assert forall|i: int| 0 <= i < world.records.len() implies after.records[i]
                        == world.records[i] by {}
                    if stored(world, second) {
                        let part = second.weather.part->Some_0;
                        let kept = choose|i: int|
                            0 <= i < world.records.len() && #[trigger] world.records[i]
                                == record_of(second.request, part, second.draws);
                        assert(after.records[kept] == world.records[kept]);
                    }
                }
            },
            UploadActionView::RemoveBlob { storage_name } => {
                if stored(world, second) {
                    let part = second.weather.part->Some_0;
                    let kept = choose|i: int|
                        0 <= i < world.records.len() && #[trigger] world.records[i] == record_of(
                            second.request,
                            part,
                            second.draws,
                        );
                    assert(world.records[kept].storage_name != storage_name);
                }
            },
            _ => {},
        }
    }
}

/// Whatever the order of their steps, two uploads that begin on consistent
/// stores are in order after every step.
pub proof fn lemma_interleaving_keeps_order(
    config: UploadConfig,
    first: Upload,
    second: Upload,
    flights: Flights,
    schedule: Seq<bool>,
)
    requires
        in_order(first, second, flights),
    ensures
        in_order(first, second, interleaved(config, first, second, flights, schedule)),
    decreases schedule.len(),
{
    if schedule.len() > 0 {
        let next = if schedule[0] {
            lemma_step_keeps_order(config, first, second, flights);
            let (world, progress) = advance(config, flights.world, first, flights.first);
            Flights { world, first: progress, ..flights }
        } else {
            let turned = Flights {
                world: flights.world,
                first: flights.second,
                second: flights.first,
            };
            lemma_step_keeps_order(config, second, first, turned);
            let (world, progress) = advance(config, flights.world, second, flights.second);
            Flights { world, second: progress, ..flights }
        };
        lemma_interleaving_keeps_order(config, first, second, next, schedule.drop_first());
    }
}

/// Two uploads that run at once on consistent stores, their steps
/// interleaved in any order, and that both succeed get two distinct storage
/// names, whatever the file names, the users and the salts; the stores are
/// consistent afterwards; and both files can then be downloaded, each with
/// its own identifier and token and each with its own bytes and file name.
pub proof fn law_concurrent_uploads_stay_apart(
    config: UploadConfig,
    world: World,
    first: Upload,
    second: Upload,
    schedule: Seq<bool>,
    downloading: DownloadWeather,
    now: i64,
)
    requires
        world.consistent(),
        first.draws.usable(),
        second.draws.usable(),
        ({
            let end = interleaved(
                config,
                first,
                second,
                Flights { world, first: begun(first), second: begun(second) },
                schedule,
            );
            end.first.answer matches Some(Ok(_)) && end.second.answer matches Some(Ok(_))
        }),
        expiry(first.draws.now, first.request.live) matches Some(dead_at) ==> now < dead_at,
        expiry(second.draws.now, second.request.live) matches Some(dead_at) ==> now < dead_at,
        downloading.metadata_store_up,
        downloading.storage_readable,
    ensures
        ({
            let end = interleaved(
                config,
                first,
                second,
                Flights { world, first: begun(first), second: begun(second) },
                schedule,
            );
            let one = end.first.answer->Some_0->Ok_0;
            let two = end.second.answer->Some_0->Ok_0;
            &&& end.world.consistent()
            &&& one.id != two.id
            &&& download_run(
                end.world,
                DownloadRequestView { id: one.id, token: Some(one.token) },
                downloading,
                now,
            ) == Ok::<Delivery, ErrorKind>(
                Delivery {
                    response: DownloadResponseView {
                        file_name: first.weather.part->Some_0.name,
                        content_disposition: content_disposition(first.weather.part->Some_0.name),
                    },
                    content: first.weather.part->Some_0.content,
                },
            )
            &&& download_run(
                end.world,
                DownloadRequestView { id: two.id, token: Some(two.token) },
                downloading,
                now,
            ) == Ok::<Delivery, ErrorKind>(
                Delivery {
                    response: DownloadResponseView {
                        file_name: second.weather.part->Some_0.name,
                        content_disposition: content_disposition(second.weather.part->Some_0.name),
                    },
                    content: second.weather.part->Some_0.content,
                },
            )
        }),
{
    let start = Flights { world, first: begun(first), second: begun(second) };
    let end = interleaved(config, first, second, start, schedule);
    lemma_interleaving_keeps_order(config, first, second, start, schedule);
    lemma_stored_is_served(end.world, first, downloading, now);
    lemma_stored_is_served(end.world, second, downloading, now);
}

/// An upload whose record and blob the consistent stores hold is served to
/// whoever presents its identifier and token, until it expires.
proof fn lemma_stored_is_served(
    world: World,
    upload: Upload,
    downloading: DownloadWeather,
    now: i64,
)
    requires
        world.consistent(),
        stored(world, upload),
        upload.draws.usable(),
        expiry(upload.draws.now, upload.request.live) matches Some(dead_at) ==> now < dead_at,
        downloading.metadata_store_up,
        downloading.storage_readable,
    ensures
        ({
            let part = upload.weather.part->Some_0;
            let record = record_of(upload.request, part, upload.draws);
            download_run(
                world,
                DownloadRequestView { id: record.storage_name, token: Some(record.token) },
                downloading,
                now,
            ) == Ok::<Delivery, ErrorKind>(
                Delivery {
                    response: DownloadResponseView {
                        file_name: part.name,
                        content_disposition: content_disposition(part.name),
                    },
                    content: part.content,
                },
            )
        }),
{
    let part = upload.weather.part->Some_0;
    let record = record_of(upload.request, part, upload.draws);
    let at = choose|i: int| 0 <= i < world.records.len() && #[trigger] world.records[i] == record;
    law_download_serves_the_record(world, at, downloading, now);
}

/// The number of requests that an upload in this state can still make of
/// its surroundings before it answers.
pub open spec fn requests_left(state: UploadStateView) -> nat {
    match state {
        UploadStateView::Start => 5,
        UploadStateView::AwaitingUser { .. } => 4,
        UploadStateView::AwaitingPart { .. } => 3,
        UploadStateView::AwaitingBlob { .. } => 2,
        UploadStateView::AwaitingInsert { .. } => 1,
        UploadStateView::AwaitingRemoval { .. } => 0,
        UploadStateView::Done => 0,
    }
}

/// An upload that has answered is not changed by further steps of its own.
proof fn lemma_answered_stays(
    config: UploadConfig,
    first: Upload,
    second: Upload,
    flights: Flights,
    schedule: Seq<bool>,
)
    requires
        flights.first.answer is Some,
        forall|i: int| 0 <= i < schedule.len() ==> schedule[i],
    ensures
        interleaved(config, first, second, flights, schedule) == flights,
    decreases schedule.len(),
{
    if schedule.len() > 0 {
        lemma_answered_stays(config, first, second, flights, schedule.drop_first());
    }
}

/// An upload that takes one step more than it can still make requests,
/// while the other one rests, answers, and ends as the whole upload from
/// there on does.
proof fn lemma_alone_from(
    config: UploadConfig,
    first: Upload,
    second: Upload,
    flights: Flights,
    steps: nat,
)
    requires
        flights.first.answer is None,
        requests_left(flights.first.state) <= steps,
    ensures
        ({
            let end = interleaved(
                config,
                first,
                second,
                flights,
                Seq::new(steps + 1, |i: int| true),
            );
            let run = upload_from(
                config,
                flights.world,
                flights.first.state,
                flights.first.event,
                first.weather,
                first.draws,
                steps,
            );
            &&& end.second == flights.second
            &&& end.first.answer == Some(run.answer)
            &&& end.world == run.world
        }),
    decreases steps,
{
    let schedule = Seq::new(steps + 1, |i: int| true);
    let (world, progress) = advance(config, flights.world, first, flights.first);
    let next = Flights { world, first: progress, ..flights };
    assert(schedule.drop_first() =~= Seq::new(steps, |i: int| true));
    if progress.answer is Some {
        lemma_answered_stays(config, first, second, next, schedule.drop_first());
    } else {
        lemma_alone_from(config, first, second, next, (steps - 1) as nat);
    }
}

/// An upload that takes all its steps while the other one rests is a whole
/// upload on its own: it answers what the whole upload answers and leaves
/// the stores as the whole upload leaves them.
pub proof fn law_upload_alone_is_a_run(
    config: UploadConfig,
    world: World,
    first: Upload,
    second: Upload,
)
    ensures
        ({
            let end = interleaved(
                config,
                first,
                second,
                Flights { world, first: begun(first), second: begun(second) },
                Seq::new(upload_steps() + 1, |i: int| true),
            );
            let run = upload_run(config, world, first.request, first.weather, first.draws);
            &&& end.first.answer == Some(run.answer)
            &&& end.world == run.world
            &&& end.second == begun(second)
        }),
{
    let start = Flights { world, first: begun(first), second: begun(second) };
    lemma_alone_from(config, first, second, start, upload_steps());
}

} // verus!
