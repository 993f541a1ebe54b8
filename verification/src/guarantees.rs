//! What the pipelines guarantee when they are run against the model of
//! their surroundings.

use vstd::prelude::*;

use crate::clock::expiry;
use crate::decimal::parsed_i64;
use crate::download::{
    content_disposition, presented_token, DownloadRequestView, DownloadResponseView,
};
use crate::error::ErrorKind;
use crate::model::{
    download_from, download_run, enabled_count, is_enabled, records_named, upload_from, upload_run,
    Delivery, DownloadWeather, FilePart, UploadWeather, World,
};
use crate::record::{
    file_name_ok, first_retrievable, lemma_first_retrievable, FileRecordView, TOKEN_MAX, TOKEN_MIN,
};
use crate::upload::{
    content_length_verdict, resolved_token, upload_transition, DrawsView, UploadActionView,
    UploadConfig, UploadEventView, UploadRequestView, UploadResponseView, UploadStateView,
};
use crate::utils::{lemma_storage_name_shape, storage_name, token_ok, uuid_ok};

verus! {

/// The identity store counts at least one enabled user under an identifier
/// exactly where the world knows it.
pub proof fn lemma_count_tells_known(world: World, identifier: Seq<char>)
    ensures
        enabled_count(world.users, identifier) > 0 <==> world.knows(identifier),
    decreases world.users.len(),
{
    let users = world.users;
    if users.len() > 0 {
        let front = World { users: users.drop_last(), ..world };
        lemma_count_tells_known(front, identifier);
        if front.knows(identifier) {
            let i = choose|i: int|
                0 <= i < front.users.len() && #[trigger] is_enabled(front.users[i], identifier);
            assert(is_enabled(users[i], identifier));
        }
        if is_enabled(users.last(), identifier) {
            assert(is_enabled(users[users.len() - 1], identifier));
        }
        if world.knows(identifier) && !is_enabled(users.last(), identifier) {
            let i = choose|i: int|
                0 <= i < users.len() && #[trigger] is_enabled(users[i], identifier);
            assert(is_enabled(front.users[i], identifier));
        }
    }
}

/// The record that an upload of `part` makes up for `request` under `draws`.
pub open spec fn record_of(
    request: UploadRequestView,
    part: FilePart,
    draws: DrawsView,
) -> FileRecordView {
    FileRecordView {
        name: part.name,
        token: resolved_token(request.token, draws.token),
        owner: request.identity.unwrap(),
        storage_name: storage_name(part.name, draws.salt),
        created_at: draws.now,
        dead_at: expiry(draws.now, request.live),
        available: true,
    }
}

/// Why the request is refused before its body is read, if it is: for want of
/// an identity, for an identity that is malformed or that no enabled user
/// has, for an identity store that fails, or for its declared length.
pub open spec fn refused_on_entry(
    config: UploadConfig,
    world: World,
    request: UploadRequestView,
    weather: UploadWeather,
) -> Option<ErrorKind> {
    match request.identity {
        None => Some(ErrorKind::Unauthorized),
        Some(identifier) => if !uuid_ok(identifier) {
            Some(ErrorKind::Forbidden)
        } else if !weather.identity_store_up {
            Some(ErrorKind::InternalError)
        } else if !world.knows(identifier) {
            Some(ErrorKind::Forbidden)
        } else {
            match content_length_verdict(request.content_length, config.max_content_length) {
                Err(kind) => Some(kind),
                Ok(_) => None,
            }
        },
    }
}

/// Why the upload fails, if it does: on entry; for want of a file part
/// with a usable name; because its blob cannot be created, the storage name
/// being taken or the storage root not writable; because the stream breaks;
/// or because the record cannot be inserted.
pub open spec fn upload_failure(
    config: UploadConfig,
    world: World,
    request: UploadRequestView,
    weather: UploadWeather,
    draws: DrawsView,
) -> Option<ErrorKind> {
    match refused_on_entry(config, world, request, weather) {
        Some(kind) => Some(kind),
        None => match weather.part {
            None => Some(ErrorKind::BadRequest),
            Some(part) => if !file_name_ok(part.name) {
                Some(ErrorKind::BadRequest)
            } else if world.blobs.dom().contains(storage_name(part.name, draws.salt))
                || !weather.storage_writable {
                Some(ErrorKind::InternalError)
            } else if weather.stream_breaks_after is Some {
                Some(ErrorKind::BadRequest)
            } else if !weather.insert_succeeds {
                Some(ErrorKind::InternalError)
            } else {
                None
            },
        },
    }
}

/// Whether the upload creates its blob: it is admitted on entry, has a
/// file part with a usable name, and the blob can be created.
pub open spec fn blob_created(
    config: UploadConfig,
    world: World,
    request: UploadRequestView,
    weather: UploadWeather,
    draws: DrawsView,
) -> bool {
    &&& refused_on_entry(config, world, request, weather) is None
    &&& weather.part matches Some(part)
    &&& file_name_ok(part.name)
    &&& !world.blobs.dom().contains(storage_name(part.name, draws.salt))
    &&& weather.storage_writable
}

/// What the stores hold after the upload. A successful upload adds its blob
/// and its record. A failed one adds no record, and leaves a blob behind
/// only where it had created one and the removal fails: the bytes that
/// arrived before the stream broke, or all of them.
pub open spec fn world_after_upload(
    config: UploadConfig,
    world: World,
    request: UploadRequestView,
    weather: UploadWeather,
    draws: DrawsView,
) -> World {
    if !blob_created(config, world, request, weather, draws) {
        world
    } else {
        let part = weather.part.unwrap();
        let record = record_of(request, part, draws);
        match upload_failure(config, world, request, weather, draws) {
            None => World {
                users: world.users,
                records: world.records.push(record),
                blobs: world.blobs.insert(record.storage_name, part.content),
            },
            Some(_) => if weather.removal_succeeds {
                world
            } else {
                World {
                    blobs: world.blobs.insert(
                        record.storage_name,
                        match weather.stream_breaks_after {
                            Some(arrived) => part.content.take(arrived as int),
                            None => part.content,
                        },
                    ),
                    ..world
                }
            },
        }
    }
}

/// What the upload answers: its failure, or the token and the storage name
/// of the record that it has made up.
pub open spec fn upload_answer(
    config: UploadConfig,
    world: World,
    request: UploadRequestView,
    weather: UploadWeather,
    draws: DrawsView,
) -> Result<UploadResponseView, ErrorKind> {
    match upload_failure(config, world, request, weather, draws) {
        Some(kind) => Err(kind),
        None => {
            let record = record_of(request, weather.part.unwrap(), draws);
            Ok(UploadResponseView { token: record.token, id: record.storage_name })
        },
    }
}

/// A whole upload ends as `upload_answer` and `world_after_upload` say: it
/// answers with its failure or with the token and name of its record, and
/// the stores then hold what they held, and the blob and record of a
/// successful upload besides.
pub proof fn law_upload_run(
    config: UploadConfig,
    world: World,
    request: UploadRequestView,
    weather: UploadWeather,
    draws: DrawsView,
)
    ensures
        upload_run(config, world, request, weather, draws).answer == upload_answer(
            config,
            world,
            request,
            weather,
            draws,
        ),
        upload_run(config, world, request, weather, draws).world == world_after_upload(
            config,
            world,
            request,
            weather,
            draws,
        ),
{
    reveal_with_fuel(upload_from, 6);
    if request.identity is Some {
        lemma_count_tells_known(world, request.identity.unwrap());
    }
    let end = upload_run(config, world, request, weather, draws);
    let after = world_after_upload(config, world, request, weather, draws);
    assert(end.world.blobs =~= after.blobs);
    assert(end.world.records =~= after.records);
}

/// Nothing of the body is read before the request is admitted: a step asks
/// for the file part only after the identity store has counted an enabled
/// user under the identity, and only where the declared length is allowed.
pub proof fn law_body_is_read_after_admission(
    config: UploadConfig,
    state: UploadStateView,
    event: UploadEventView,
    draws: DrawsView,
)
    requires
        upload_transition(config, state, event, draws).1 == UploadActionView::ReadFilePart,
    ensures
        state matches UploadStateView::AwaitingUser { owner, declared_length, .. }
            && event matches UploadEventView::UserCount(Some(count)) && count > 0
            && content_length_verdict(declared_length, config.max_content_length) is Ok,
{
}

/// An upload that presents no identity is unauthorized, and leaves the
/// stores as they were.
pub proof fn law_no_identity_is_unauthorized(
    config: UploadConfig,
    world: World,
    request: UploadRequestView,
    weather: UploadWeather,
    draws: DrawsView,
)
    requires
        request.identity is None,
    ensures
        upload_run(config, world, request, weather, draws).answer == Err::<
            UploadResponseView,
            ErrorKind,
        >(ErrorKind::Unauthorized),
        upload_run(config, world, request, weather, draws).world == world,
{
}

/// An upload under a well-formed identity that no enabled user has is
/// forbidden, as is one under a malformed identity; either leaves the
/// stores as they were.
pub proof fn law_unknown_identity_is_forbidden(
    config: UploadConfig,
    world: World,
    request: UploadRequestView,
    weather: UploadWeather,
    draws: DrawsView,
)
    requires
        request.identity matches Some(identifier) && (!uuid_ok(identifier) || (
        weather.identity_store_up && !world.knows(identifier))),
    ensures
        upload_run(config, world, request, weather, draws).answer == Err::<
            UploadResponseView,
            ErrorKind,
        >(ErrorKind::Forbidden),
        upload_run(config, world, request, weather, draws).world == world,
{
    law_upload_run(config, world, request, weather, draws);
}

/// An upload that declares more bytes than the cap, by a user who may
/// upload, is refused as too large; no blob and no record is created.
pub proof fn law_oversized_upload_is_refused(
    config: UploadConfig,
    world: World,
    request: UploadRequestView,
    weather: UploadWeather,
    draws: DrawsView,
)
    requires
        request.identity matches Some(identifier) && uuid_ok(identifier) && world.knows(identifier),
        weather.identity_store_up,
        request.content_length matches Some(text) && parsed_i64(text) matches Some(length) && length
            > config.max_content_length,
    ensures
        upload_run(config, world, request, weather, draws).answer == Err::<
            UploadResponseView,
            ErrorKind,
        >(ErrorKind::PayloadTooLarge),
        upload_run(config, world, request, weather, draws).world == world,
{
    law_upload_run(config, world, request, weather, draws);
}

/// A token that the caller wants but that is malformed counts for nothing:
/// the upload ends as it would have ended had the caller wanted none, and
/// where it succeeds its token is the freshly issued one.
pub proof fn law_malformed_token_is_replaced(
    config: UploadConfig,
    world: World,
    request: UploadRequestView,
    weather: UploadWeather,
    draws: DrawsView,
)
    requires
        request.token matches Some(token) && !token_ok(token, TOKEN_MIN as int, TOKEN_MAX as int),
    ensures
        upload_run(config, world, request, weather, draws) == upload_run(
            config,
            world,
            UploadRequestView { token: None, ..request },
            weather,
            draws,
        ),
        upload_run(config, world, request, weather, draws).answer matches Ok(response)
            ==> response.token == draws.token,
{
    let without = UploadRequestView { token: None, ..request };
    law_upload_run(config, world, request, weather, draws);
    law_upload_run(config, world, without, weather, draws);
    assert(world_after_upload(config, world, request, weather, draws).records
        =~= world_after_upload(config, world, without, weather, draws).records);
}

/// An upload succeeds where it is owed: the request is admitted on entry,
/// nothing fails around it, its file part declares a usable file name, and
/// no blob has the storage name drawn for it. It then answers with the
/// token and the storage name of its record.
pub proof fn law_upload_succeeds_in_fair_weather(
    config: UploadConfig,
    world: World,
    request: UploadRequestView,
    weather: UploadWeather,
    draws: DrawsView,
)
    requires
        refused_on_entry(config, world, request, weather) is None,
        weather.fair(),
        weather.part matches Some(part) && file_name_ok(part.name) && !world.blobs.dom().contains(
            storage_name(part.name, draws.salt),
        ),
    ensures
        upload_run(config, world, request, weather, draws).answer == Ok::<
            UploadResponseView,
            ErrorKind,
        >(
            UploadResponseView {
                token: resolved_token(request.token, draws.token),
                id: storage_name(weather.part->Some_0.name, draws.salt),
            },
        ),
{
    law_upload_run(config, world, request, weather, draws);
}

/// A failed upload creates no record; and it leaves no blob behind either,
/// provided that the removal it asks for succeeds.
pub proof fn law_failed_upload_leaves_nothing(
    config: UploadConfig,
    world: World,
    request: UploadRequestView,
    weather: UploadWeather,
    draws: DrawsView,
)
    requires
        upload_run(config, world, request, weather, draws).answer is Err,
    ensures
        upload_run(config, world, request, weather, draws).world.records == world.records,
        weather.removal_succeeds ==> upload_run(config, world, request, weather, draws).world
            == world,
{
    law_upload_run(config, world, request, weather, draws);
}

/// Where the insertion of the record fails after the blob was written in
/// full, the upload is an internal error and its blob does not stay: once
/// the removal has succeeded no blob has the storage name, and the stores
/// are as they were.
pub proof fn law_failed_insert_removes_the_blob(
    config: UploadConfig,
    world: World,
    request: UploadRequestView,
    weather: UploadWeather,
    draws: DrawsView,
)
    requires
        blob_created(config, world, request, weather, draws),
        weather.stream_breaks_after is None,
        !weather.insert_succeeds,
        weather.removal_succeeds,
    ensures
        upload_run(config, world, request, weather, draws).answer == Err::<
            UploadResponseView,
            ErrorKind,
        >(ErrorKind::InternalError),
        !upload_run(config, world, request, weather, draws).world.blobs.dom().contains(
            storage_name(weather.part->Some_0.name, draws.salt),
        ),
        upload_run(config, world, request, weather, draws).world == world,
{
    law_upload_run(config, world, request, weather, draws);
}

/// Where the client's stream breaks, the upload is a bad request and the
/// bytes that arrived do not stay, once the removal has succeeded.
pub proof fn law_broken_stream_removes_the_blob(
    config: UploadConfig,
    world: World,
    request: UploadRequestView,
    weather: UploadWeather,
    draws: DrawsView,
)
    requires
        blob_created(config, world, request, weather, draws),
        weather.stream_breaks_after is Some,
        weather.removal_succeeds,
    ensures
        upload_run(config, world, request, weather, draws).answer == Err::<
            UploadResponseView,
            ErrorKind,
        >(ErrorKind::BadRequest),
        upload_run(config, world, request, weather, draws).world == world,
{
    law_upload_run(config, world, request, weather, draws);
}

/// Whatever an upload does, the stores hold afterwards all that they held:
/// no user, record or blob is lost or changed.
pub proof fn law_upload_keeps_what_is_stored(
    config: UploadConfig,
    world: World,
    request: UploadRequestView,
    weather: UploadWeather,
    draws: DrawsView,
)
    ensures
        world.kept_in(upload_run(config, world, request, weather, draws).world),
{
    law_upload_run(config, world, request, weather, draws);
}

/// Uploads keep the stores consistent: afterwards every record still has
/// its blob, and no two records share a storage name.
pub proof fn law_upload_keeps_consistency(
    config: UploadConfig,
    world: World,
    request: UploadRequestView,
    weather: UploadWeather,
    draws: DrawsView,
)
    requires
        world.consistent(),
    ensures
        upload_run(config, world, request, weather, draws).world.consistent(),
{
    law_upload_run(config, world, request, weather, draws);
}

/// The record of a successful upload is the last of the records and is well
/// formed, and its blob holds the bytes of the file part.
pub proof fn law_upload_stores_the_file(
    config: UploadConfig,
    world: World,
    request: UploadRequestView,
    weather: UploadWeather,
    draws: DrawsView,
)
    requires
        draws.usable(),
        upload_run(config, world, request, weather, draws).answer is Ok,
    ensures
        ({
            let end = upload_run(config, world, request, weather, draws);
            let response = end.answer->Ok_0;
            let part = weather.part->Some_0;
            let record = record_of(request, part, draws);
            &&& weather.part is Some
            &&& end.world.records == world.records.push(record)
            &&& record.well_formed()
            &&& record.token == response.token
            &&& record.storage_name == response.id
            &&& !world.blobs.dom().contains(response.id)
            &&& end.world.blobs == world.blobs.insert(response.id, part.content)
        }),
{
    law_upload_run(config, world, request, weather, draws);
    let part = weather.part->Some_0;
    lemma_storage_name_shape(part.name, draws.salt);
}

/// A download ends in a delivery or in finding nothing, whatever the stores
/// hold and however the surroundings fare: no other failure reaches the
/// caller.
pub proof fn law_download_fails_only_by_finding_nothing(
    world: World,
    request: DownloadRequestView,
    weather: DownloadWeather,
    now: i64,
)
    ensures
        download_run(world, request, weather, now) matches Err(kind) ==> kind
            == ErrorKind::NotFound,
{
    reveal_with_fuel(download_from, 3);
}

/// In consistent stores a download delivers exactly where the token is well
/// formed, both stores do their part, and a record of the stores may be
/// served for the identifier and the token at that time. It then delivers
/// the bytes of that record's blob under the name that the file was
/// uploaded with, which is also the name in the content disposition.
pub proof fn law_download_run(
    world: World,
    request: DownloadRequestView,
    weather: DownloadWeather,
    now: i64,
)
    requires
        world.consistent(),
    ensures
        ({
            let token = presented_token(request.token);
            match download_run(world, request, weather, now) {
                Ok(delivery) => {
                    &&& token_ok(token, TOKEN_MIN as int, TOKEN_MAX as int)
                    &&& weather.metadata_store_up
                    &&& weather.storage_readable
                    &&& exists|i: int|
                        0 <= i < world.records.len() && (#[trigger] world.records[i]).retrievable(
                            request.id,
                            token,
                            now,
                        ) && delivery.response.file_name == world.records[i].name
                    &&& delivery.response.content_disposition == content_disposition(
                        delivery.response.file_name,
                    )
                    &&& world.blobs.dom().contains(request.id)
                    &&& delivery.content == world.blobs[request.id]
                },
                Err(kind) => {
                    &&& kind == ErrorKind::NotFound
                    &&& !token_ok(token, TOKEN_MIN as int, TOKEN_MAX as int)
                        || !weather.metadata_store_up || !weather.storage_readable || forall|i: int|
                        0 <= i < world.records.len() ==> !(#[trigger] world.records[i]).retrievable(
                            request.id,
                            token,
                            now,
                        )
                },
            }
        }),
{
    reveal_with_fuel(download_from, 3);
    let token = presented_token(request.token);
    let named = records_named(world.records, request.id);
    let kept = |r: FileRecordView| r.storage_name == request.id;
    lemma_first_retrievable(named, request.id, token, now);
    match first_retrievable(named, request.id, token, now) {
        Some(at) => {
            assert(named.contains(named[at]));
            world.records.lemma_filter_contains_rev(kept, named[at]);
            let i = choose|i: int| 0 <= i < world.records.len() && world.records[i] == named[at];
            assert(world.records[i].retrievable(request.id, token, now));
        },
        None => {
            assert forall|i: int| 0 <= i < world.records.len() implies !(
            #[trigger] world.records[i]).retrievable(request.id, token, now) by {
                if world.records[i].retrievable(request.id, token, now) {
                    world.records.lemma_filter_contains(kept, i);
                    let k = choose|k: int| 0 <= k < named.len() && named[k] == world.records[i];
                    assert(named[k].retrievable(request.id, token, now));
                }
            }
        },
    }
}

/// A record of consistent stores that is available and has not expired is
/// served to whoever names its blob and presents its token, while both
/// stores do their part: the bytes of its blob are delivered under the name
/// that the file was uploaded with.
pub proof fn law_download_serves_the_record(
    world: World,
    at: int,
    weather: DownloadWeather,
    now: i64,
)
    requires
        world.consistent(),
        0 <= at < world.records.len(),
        world.records[at].available,
        !world.records[at].expired(now),
        token_ok(world.records[at].token, TOKEN_MIN as int, TOKEN_MAX as int),
        weather.metadata_store_up,
        weather.storage_readable,
    ensures
        download_run(
            world,
            DownloadRequestView {
                id: world.records[at].storage_name,
                token: Some(world.records[at].token),
            },
            weather,
            now,
        ) == Ok::<Delivery, ErrorKind>(
            Delivery {
                response: DownloadResponseView {
                    file_name: world.records[at].name,
                    content_disposition: content_disposition(world.records[at].name),
                },
                content: world.blobs[world.records[at].storage_name],
            },
        ),
{
    let record = world.records[at];
    let request = DownloadRequestView { id: record.storage_name, token: Some(record.token) };
    law_download_run(world, request, weather, now);
    assert(record.retrievable(request.id, record.token, now));
    let delivery = download_run(world, request, weather, now)->Ok_0;
    let i = choose|i: int|
        0 <= i < world.records.len() && (#[trigger] world.records[i]).retrievable(
            request.id,
            record.token,
            now,
        ) && delivery.response.file_name == world.records[i].name;
    assert(i == at);
}

/// Whoever names the blob of a record of consistent stores but presents
/// another token than the record's finds nothing.
pub proof fn law_other_token_finds_nothing(
    world: World,
    at: int,
    token: Option<Seq<char>>,
    weather: DownloadWeather,
    now: i64,
)
    requires
        world.consistent(),
        0 <= at < world.records.len(),
        presented_token(token) != world.records[at].token,
    ensures
        download_run(
            world,
            DownloadRequestView { id: world.records[at].storage_name, token },
            weather,
            now,
        ) == Err::<Delivery, ErrorKind>(ErrorKind::NotFound),
{
    let request = DownloadRequestView { id: world.records[at].storage_name, token };
    law_download_run(world, request, weather, now);
    if download_run(world, request, weather, now) is Ok {
        let delivery = download_run(world, request, weather, now)->Ok_0;
        let i = choose|i: int|
            0 <= i < world.records.len() && (#[trigger] world.records[i]).retrievable(
                request.id,
                presented_token(token),
                now,
            ) && delivery.response.file_name == world.records[i].name;
        assert(i == at);
    }
}

/// A record of consistent stores that has expired, or that is not
/// available, is served to nobody, whatever token is presented.
pub proof fn law_expired_record_finds_nothing(
    world: World,
    at: int,
    token: Option<Seq<char>>,
    weather: DownloadWeather,
    now: i64,
)
    requires
        world.consistent(),
        0 <= at < world.records.len(),
        world.records[at].expired(now) || !world.records[at].available,
    ensures
        download_run(
            world,
            DownloadRequestView { id: world.records[at].storage_name, token },
            weather,
            now,
        ) == Err::<Delivery, ErrorKind>(ErrorKind::NotFound),
{
    let request = DownloadRequestView { id: world.records[at].storage_name, token };
    law_download_run(world, request, weather, now);
    if download_run(world, request, weather, now) is Ok {
        let delivery = download_run(world, request, weather, now)->Ok_0;
        let i = choose|i: int|
            0 <= i < world.records.len() && (#[trigger] world.records[i]).retrievable(
                request.id,
                presented_token(token),
                now,
            ) && delivery.response.file_name == world.records[i].name;
        assert(i == at);
    }
}

/// What was uploaded can be downloaded: after a successful upload into
/// consistent stores, whoever presents the identifier and the token that the
/// upload answered is delivered the very bytes of the file part, under the
/// file name that the part declared, for as long as the file has not
/// expired and both stores do their part.
pub proof fn law_download_returns_the_upload(
    config: UploadConfig,
    world: World,
    request: UploadRequestView,
    uploading: UploadWeather,
    draws: DrawsView,
    downloading: DownloadWeather,
    now: i64,
)
    requires
        world.consistent(),
        draws.usable(),
        upload_run(config, world, request, uploading, draws).answer is Ok,
        expiry(draws.now, request.live) matches Some(dead_at) ==> now < dead_at,
        downloading.metadata_store_up,
        downloading.storage_readable,
    ensures
        ({
            let end = upload_run(config, world, request, uploading, draws);
            let response = end.answer->Ok_0;
            let part = uploading.part->Some_0;
            download_run(
                end.world,
                DownloadRequestView { id: response.id, token: Some(response.token) },
                downloading,
                now,
            ) == Ok::<Delivery, ErrorKind>(
                Delivery {
                    response: DownloadResponseView {
                        file_name: part.name,
                        content_disposition: content_disposition(part.name),
                    },
                    content: part.content,
                },
            )
        }),
{
    let end = upload_run(config, world, request, uploading, draws);
    law_upload_stores_the_file(config, world, request, uploading, draws);
    law_upload_keeps_consistency(config, world, request, uploading, draws);
    law_download_serves_the_record(end.world, world.records.len() as int, downloading, now);
}

/// After a successful upload into consistent stores, whoever presents the
/// identifier that the upload answered with any other token than the one it
/// answered finds nothing.
pub proof fn law_upload_is_closed_to_other_tokens(
    config: UploadConfig,
    world: World,
    request: UploadRequestView,
    uploading: UploadWeather,
    draws: DrawsView,
    token: Option<Seq<char>>,
    downloading: DownloadWeather,
    now: i64,
)
    requires
        world.consistent(),
        draws.usable(),
        upload_run(config, world, request, uploading, draws).answer matches Ok(response)
            && presented_token(token) != response.token,
    ensures
        ({
            let end = upload_run(config, world, request, uploading, draws);
            download_run(
                end.world,
                DownloadRequestView { id: end.answer->Ok_0.id, token },
                downloading,
                now,
            ) == Err::<Delivery, ErrorKind>(ErrorKind::NotFound)
        }),
{
    let end = upload_run(config, world, request, uploading, draws);
    law_upload_stores_the_file(config, world, request, uploading, draws);
    law_upload_keeps_consistency(config, world, request, uploading, draws);
    law_other_token_finds_nothing(end.world, world.records.len() as int, token, downloading, now);
}

/// After a successful upload into consistent stores with a lifetime, nobody
/// is served the file once it has expired, not even with the right token.
pub proof fn law_upload_expires(
    config: UploadConfig,
    world: World,
    request: UploadRequestView,
    uploading: UploadWeather,
    draws: DrawsView,
    token: Option<Seq<char>>,
    downloading: DownloadWeather,
    now: i64,
)
    requires
        world.consistent(),
        draws.usable(),
        upload_run(config, world, request, uploading, draws).answer is Ok,
        expiry(draws.now, request.live) matches Some(dead_at) && dead_at <= now,
    ensures
        ({
            let end = upload_run(config, world, request, uploading, draws);
            download_run(
                end.world,
                DownloadRequestView { id: end.answer->Ok_0.id, token },
                downloading,
                now,
            ) == Err::<Delivery, ErrorKind>(ErrorKind::NotFound)
        }),
{
    let end = upload_run(config, world, request, uploading, draws);
    law_upload_stores_the_file(config, world, request, uploading, draws);
    law_upload_keeps_consistency(config, world, request, uploading, draws);
    let at = world.records.len() as int;
    law_expired_record_finds_nothing(end.world, at, token, downloading, now);
}

/// Two successful uploads, one after the other into consistent stores, get
/// two distinct storage names, whatever the file names, the users and the
/// salts; and both files can then be downloaded, each with its own
/// identifier and token and each with its own bytes and file name.
pub proof fn law_two_uploads_stay_apart(
    config: UploadConfig,
    world: World,
    first: UploadRequestView,
    first_weather: UploadWeather,
    first_draws: DrawsView,
    second: UploadRequestView,
    second_weather: UploadWeather,
    second_draws: DrawsView,
    downloading: DownloadWeather,
    now: i64,
)
    requires
        world.consistent(),
        first_draws.usable(),
        second_draws.usable(),
        upload_run(config, world, first, first_weather, first_draws).answer is Ok,
        upload_run(
            config,
            upload_run(config, world, first, first_weather, first_draws).world,
            second,
            second_weather,
            second_draws,
        ).answer is Ok,
        expiry(first_draws.now, first.live) matches Some(dead_at) ==> now < dead_at,
        expiry(second_draws.now, second.live) matches Some(dead_at) ==> now < dead_at,
        downloading.metadata_store_up,
        downloading.storage_readable,
    ensures
        ({
            let between = upload_run(config, world, first, first_weather, first_draws);
            let end = upload_run(config, between.world, second, second_weather, second_draws);
            let one = between.answer->Ok_0;
            let two = end.answer->Ok_0;
            &&& one.id != two.id
            &&& download_run(
                end.world,
                DownloadRequestView { id: one.id, token: Some(one.token) },
                downloading,
                now,
            ) == Ok::<Delivery, ErrorKind>(
                Delivery {
                    response: DownloadResponseView {
                        file_name: first_weather.part->Some_0.name,
                        content_disposition: content_disposition(first_weather.part->Some_0.name),
                    },
                    content: first_weather.part->Some_0.content,
                },
            )
            &&& download_run(
                end.world,
                DownloadRequestView { id: two.id, token: Some(two.token) },
                downloading,
                now,
            ) == Ok::<Delivery, ErrorKind>(
                Delivery {
                    response: DownloadResponseView {
                        file_name: second_weather.part->Some_0.name,
                        content_disposition: content_disposition(second_weather.part->Some_0.name),
                    },
                    content: second_weather.part->Some_0.content,
                },
            )
        }),
{
    let between = upload_run(config, world, first, first_weather, first_draws);
    let end = upload_run(config, between.world, second, second_weather, second_draws);
    law_upload_stores_the_file(config, world, first, first_weather, first_draws);
    law_upload_keeps_consistency(config, world, first, first_weather, first_draws);
    law_upload_stores_the_file(config, between.world, second, second_weather, second_draws);
    law_upload_keeps_consistency(config, between.world, second, second_weather, second_draws);
    law_download_returns_the_upload(
        config,
        between.world,
        second,
        second_weather,
        second_draws,
        downloading,
        now,
    );
    let at = world.records.len() as int;
    assert(end.world.records[at] == between.world.records[at]);
    assert(between.world.blobs.dom().contains(between.answer->Ok_0.id));
    law_download_serves_the_record(end.world, at, downloading, now);
}

} // verus!
