use std::collections::HashMap;

use simplefileshare::download::{
    download_next, DownloadAction, DownloadEvent, DownloadRequest, DownloadState,
};
use simplefileshare::error::ErrorKind;
use simplefileshare::record::FileRecord;
use simplefileshare::upload::{
    upload_next, upload_step, BlobWrite, Draws, UploadAction, UploadConfig, UploadEvent,
    UploadRequest, UploadResponse, UploadState,
};
use simplefileshare::utils::check_token;

const ALICE: &str = "123e4567-e89b-12d3-a456-426614174000";
const BOB: &str = "00000000-0000-4000-8000-00000000000b";
const CAROL: &str = "00000000-0000-4000-8000-00000000000c";

/// Stores kept in memory, with switches for what may go wrong.
struct Stores {
    users: Vec<(String, bool)>,
    records: Vec<FileRecord>,
    blobs: HashMap<String, Vec<u8>>,
    identity_store_up: bool,
    stream_breaks_after: Option<usize>,
    insert_succeeds: bool,
    removal_succeeds: bool,
    metadata_store_up: bool,
}

fn stores() -> Stores {
    Stores {
        users: vec![(ALICE.to_string(), true), (BOB.to_string(), true), (CAROL.to_string(), false)],
        records: Vec::new(),
        blobs: HashMap::new(),
        identity_store_up: true,
        stream_breaks_after: None,
        insert_succeeds: true,
        removal_succeeds: true,
        metadata_store_up: true,
    }
}

fn request(identity: Option<&str>, token: Option<&str>, live: Option<i64>) -> UploadRequest {
    UploadRequest {
        identity: identity.map(|s| s.to_string()),
        content_length: None,
        token: token.map(|s| s.to_string()),
        live,
    }
}

fn report(stores: &mut Stores, action: UploadAction, part: Option<(&str, &[u8])>) -> UploadEvent {
    match action {
        UploadAction::CountEnabledUsers { identifier } => {
            if stores.identity_store_up {
                let count = stores.users.iter().filter(|(id, on)| *on && *id == identifier).count();
                UploadEvent::UserCount(Some(count as i64))
            } else {
                UploadEvent::UserCount(None)
            }
        }
        UploadAction::ReadFilePart => UploadEvent::FilePart(part.map(|(name, _)| name.to_string())),
        UploadAction::WriteBlob { storage_name } => {
            let bytes = part.map(|(_, bytes)| bytes).unwrap_or(&[]);
            if stores.blobs.contains_key(&storage_name) {
                UploadEvent::BlobWritten(BlobWrite::NotCreated)
            } else if let Some(arrived) = stores.stream_breaks_after {
                stores.blobs.insert(storage_name, bytes[..arrived.min(bytes.len())].to_vec());
                UploadEvent::BlobWritten(BlobWrite::Broken)
            } else {
                stores.blobs.insert(storage_name, bytes.to_vec());
                UploadEvent::BlobWritten(BlobWrite::Stored)
            }
        }
        UploadAction::InsertRecord { record } => {
            if stores.insert_succeeds {
                stores.records.push(record);
            }
            UploadEvent::RecordInserted(stores.insert_succeeds)
        }
        UploadAction::RemoveBlob { storage_name } => {
            if stores.removal_succeeds {
                stores.blobs.remove(&storage_name);
            }
            UploadEvent::BlobRemoved
        }
        UploadAction::Respond(_) => unreachable!(),
    }
}

fn upload(
    stores: &mut Stores,
    asked: UploadRequest,
    part: Option<(&str, &[u8])>,
) -> Result<UploadResponse, ErrorKind> {
    let config = UploadConfig::with_megabytes(1);
    let mut step = upload_step(&config, UploadState::Start, UploadEvent::Request(asked));
    loop {
        let (state, action) = step;
        if let UploadAction::Respond(answer) = action {
            assert_eq!(state, UploadState::Done);
            return answer;
        }
        let event = report(stores, action, part);
        step = upload_step(&config, state, event);
    }
}

fn upload_with(
    stores: &mut Stores,
    asked: UploadRequest,
    part: Option<(&str, &[u8])>,
    salt: u64,
    now: i64,
) -> Result<UploadResponse, ErrorKind> {
    let config = UploadConfig::with_megabytes(1);
    let draws = || Draws { token: "FreshToken12".to_string(), salt, now };
    let mut step = upload_next(&config, UploadState::Start, UploadEvent::Request(asked), draws());
    loop {
        let (state, action) = step;
        if let UploadAction::Respond(answer) = action {
            return answer;
        }
        let event = report(stores, action, part);
        step = upload_next(&config, state, event, draws());
    }
}

fn download(
    stores: &Stores,
    id: &str,
    token: Option<&str>,
    now: i64,
) -> Result<(String, String, Vec<u8>), ErrorKind> {
    let asked = DownloadRequest { id: id.to_string(), token: token.map(|s| s.to_string()) };
    let mut opened: Option<Vec<u8>> = None;
    let mut step = download_next(DownloadState::Start, DownloadEvent::Request(asked), now);
    loop {
        let (state, action) = step;
        let event = match action {
            DownloadAction::Respond(answer) => {
                return answer.map(|r| (r.file_name, r.content_disposition, opened.unwrap()));
            }
            DownloadAction::FindRecords { storage_name } => {
                if stores.metadata_store_up {
                    let found: Vec<FileRecord> = stores
                        .records
                        .iter()
                        .filter(|r| r.storage_name == storage_name)
                        .cloned()
                        .collect();
                    DownloadEvent::Records(Some(found))
                } else {
                    DownloadEvent::Records(None)
                }
            }
            DownloadAction::OpenBlob { storage_name } => {
                opened = stores.blobs.get(&storage_name).cloned();
                DownloadEvent::BlobOpened(opened.is_some())
            }
        };
        step = download_next(state, event, now);
    }
}

#[test]
fn what_was_uploaded_is_downloaded() {
    let mut stores = stores();
    let bytes = b"hello, world\n\x00\xff";
    let answer = upload(&mut stores, request(Some(ALICE), None, None), Some(("a.txt", bytes))).unwrap();
    let (name, disposition, content) = download(&stores, &answer.id, Some(&answer.token), 0).unwrap();
    assert_eq!(name, "a.txt");
    assert_eq!(disposition, "attachment; filename=\"a.txt\"");
    assert_eq!(content, bytes);
    assert_ne!(answer.id, "a.txt");
}

#[test]
fn an_upload_leaves_one_record_and_one_blob() {
    let mut stores = stores();
    let answer =
        upload_with(&mut stores, request(Some(ALICE), Some("abc123"), Some(1_000)), Some(("a.txt", b"x")), 9, 50)
            .unwrap();
    let id = format!("{:x}", xxhash_rust::xxh3::xxh3_128_with_seed(b"a.txt", 9));
    assert_eq!(answer, UploadResponse { token: "abc123".to_string(), id: id.clone() });
    assert_eq!(
        stores.records,
        vec![FileRecord {
            name: "a.txt".to_string(),
            token: "abc123".to_string(),
            owner: ALICE.to_string(),
            storage_name: id.clone(),
            created_at: 50,
            dead_at: Some(1_050),
            available: true,
        }]
    );
    assert_eq!(stores.blobs.len(), 1);
    assert_eq!(stores.blobs[&id], b"x");
}

#[test]
fn another_token_finds_nothing() {
    let mut stores = stores();
    let answer =
        upload(&mut stores, request(Some(ALICE), Some("abc123"), None), Some(("a.txt", b"x"))).unwrap();
    assert_eq!(answer.token, "abc123");
    for token in [Some("abc124"), Some("ABC123"), Some("abc1234"), Some("abc12"), Some(""), None] {
        assert_eq!(download(&stores, &answer.id, token, 0), Err(ErrorKind::NotFound));
    }
    assert!(download(&stores, &answer.id, Some("abc123"), 0).is_ok());
}

#[test]
fn another_identifier_finds_nothing() {
    let mut stores = stores();
    let answer =
        upload(&mut stores, request(Some(ALICE), Some("abc123"), None), Some(("a.txt", b"x"))).unwrap();
    assert_eq!(download(&stores, "a.txt", Some("abc123"), 0), Err(ErrorKind::NotFound));
    assert_eq!(download(&stores, "", Some("abc123"), 0), Err(ErrorKind::NotFound));
    let other = format!("{}0", answer.id);
    assert_eq!(download(&stores, &other, Some("abc123"), 0), Err(ErrorKind::NotFound));
}

#[test]
fn an_upload_without_identity_is_unauthorized() {
    let mut stores = stores();
    assert_eq!(
        upload(&mut stores, request(None, None, None), Some(("a.txt", b"x"))),
        Err(ErrorKind::Unauthorized)
    );
    assert!(stores.records.is_empty() && stores.blobs.is_empty());
}

#[test]
fn an_upload_by_an_unknown_or_disabled_user_is_forbidden() {
    let mut stores = stores();
    let unknown = "99999999-9999-4999-8999-999999999999";
    for identity in [unknown, CAROL, "not-an-identifier"] {
        assert_eq!(
            upload(&mut stores, request(Some(identity), None, None), Some(("a.txt", b"x"))),
            Err(ErrorKind::Forbidden)
        );
    }
    assert!(stores.records.is_empty() && stores.blobs.is_empty());
}

#[test]
fn an_upload_during_an_identity_store_failure_is_an_internal_error() {
    let mut stores = stores();
    stores.identity_store_up = false;
    assert_eq!(
        upload(&mut stores, request(Some(ALICE), None, None), Some(("a.txt", b"x"))),
        Err(ErrorKind::InternalError)
    );
}

#[test]
fn an_upload_above_the_cap_creates_nothing() {
    let mut stores = stores();
    let mut asked = request(Some(ALICE), None, None);
    asked.content_length = Some("1048577".to_string());
    assert_eq!(upload(&mut stores, asked, Some(("a.txt", b"x"))), Err(ErrorKind::PayloadTooLarge));
    assert!(stores.records.is_empty() && stores.blobs.is_empty());
    let mut asked = request(Some(ALICE), None, None);
    asked.content_length = Some("1048576".to_string());
    assert!(upload(&mut stores, asked, Some(("a.txt", b"x"))).is_ok());
}

#[test]
fn an_unknown_user_above_the_cap_is_forbidden_first() {
    let mut stores = stores();
    let mut asked = request(Some(CAROL), None, None);
    asked.content_length = Some("1048577".to_string());
    assert_eq!(upload(&mut stores, asked, Some(("a.txt", b"x"))), Err(ErrorKind::Forbidden));
}

#[test]
fn a_token_of_length_5_or_33_or_with_other_characters_is_replaced() {
    for wanted in ["abc12", "ABCdef0123456789ABCdef0123456789x", "abc_123"] {
        let mut stores = stores();
        let answer =
            upload(&mut stores, request(Some(ALICE), Some(wanted), None), Some(("a.txt", b"x"))).unwrap();
        assert_ne!(answer.token, wanted);
        assert_eq!(answer.token.len(), 12);
        assert!(check_token(&answer.token, 6, 32));
        assert!(download(&stores, &answer.id, Some(&answer.token), 0).is_ok());
    }
}

#[test]
fn two_uploads_of_one_file_name_stay_apart() {
    let mut stores = stores();
    let one = upload(&mut stores, request(Some(ALICE), None, None), Some(("a.txt", b"first"))).unwrap();
    let two = upload(&mut stores, request(Some(BOB), None, None), Some(("a.txt", b"second"))).unwrap();
    let three = upload(&mut stores, request(Some(ALICE), None, None), Some(("a.txt", b"third"))).unwrap();
    assert_ne!(one.id, two.id);
    assert_ne!(one.id, three.id);
    assert_ne!(two.id, three.id);
    assert_eq!(download(&stores, &one.id, Some(&one.token), 0).unwrap().2, b"first");
    assert_eq!(download(&stores, &two.id, Some(&two.token), 0).unwrap().2, b"second");
    assert_eq!(download(&stores, &three.id, Some(&three.token), 0).unwrap().2, b"third");
    assert_eq!(download(&stores, &one.id, Some(&two.token), 0), Err(ErrorKind::NotFound));
}

#[test]
fn a_storage_name_that_is_taken_is_never_overwritten() {
    let mut stores = stores();
    let one =
        upload_with(&mut stores, request(Some(ALICE), None, None), Some(("a.txt", b"first")), 3, 0).unwrap();
    let two = upload_with(&mut stores, request(Some(BOB), None, None), Some(("a.txt", b"second")), 3, 0);
    assert_eq!(two, Err(ErrorKind::InternalError));
    assert_eq!(stores.records.len(), 1);
    assert_eq!(download(&stores, &one.id, Some(&one.token), 0).unwrap().2, b"first");
}

#[test]
fn a_failed_insert_leaves_no_blob() {
    let mut stores = stores();
    stores.insert_succeeds = false;
    assert_eq!(
        upload(&mut stores, request(Some(ALICE), None, None), Some(("a.txt", b"x"))),
        Err(ErrorKind::InternalError)
    );
    assert!(stores.blobs.is_empty());
    assert!(stores.records.is_empty());
}

#[test]
fn a_failed_removal_does_not_change_the_answer() {
    let mut stores = stores();
    stores.insert_succeeds = false;
    stores.removal_succeeds = false;
    assert_eq!(
        upload(&mut stores, request(Some(ALICE), None, None), Some(("a.txt", b"x"))),
        Err(ErrorKind::InternalError)
    );
    assert_eq!(stores.blobs.len(), 1);
    assert!(stores.records.is_empty());
}

#[test]
fn a_broken_stream_leaves_no_blob_and_is_a_bad_request() {
    let mut stores = stores();
    stores.stream_breaks_after = Some(3);
    assert_eq!(
        upload(&mut stores, request(Some(ALICE), None, None), Some(("a.txt", b"truncated"))),
        Err(ErrorKind::BadRequest)
    );
    assert!(stores.blobs.is_empty());
    assert!(stores.records.is_empty());
}

#[test]
fn an_upload_without_file_part_is_a_bad_request() {
    let mut stores = stores();
    assert_eq!(upload(&mut stores, request(Some(ALICE), None, None), None), Err(ErrorKind::BadRequest));
    assert_eq!(
        upload(&mut stores, request(Some(ALICE), None, None), Some(("", b"x"))),
        Err(ErrorKind::BadRequest)
    );
    let long = "n".repeat(256);
    assert_eq!(
        upload(&mut stores, request(Some(ALICE), None, None), Some((&long, b"x"))),
        Err(ErrorKind::BadRequest)
    );
    assert!(stores.blobs.is_empty());
}

#[test]
fn an_expired_file_finds_nothing_even_with_its_token() {
    let mut stores = stores();
    let answer = upload_with(
        &mut stores,
        request(Some(ALICE), Some("abc123"), Some(1_000)),
        Some(("a.txt", b"x")),
        1,
        5_000,
    )
    .unwrap();
    assert!(download(&stores, &answer.id, Some("abc123"), 5_999).is_ok());
    assert_eq!(download(&stores, &answer.id, Some("abc123"), 6_000), Err(ErrorKind::NotFound));
    assert_eq!(download(&stores, &answer.id, Some("abc123"), 6_001), Err(ErrorKind::NotFound));
}

#[test]
fn a_file_without_lifetime_never_expires() {
    let mut stores = stores();
    for live in [None, Some(0), Some(-1), Some(315_360_000_000)] {
        let answer =
            upload(&mut stores, request(Some(ALICE), Some("abc123"), live), Some(("a.txt", b"x"))).unwrap();
        assert!(download(&stores, &answer.id, Some("abc123"), i64::MAX).is_ok());
    }
}

#[test]
fn a_withdrawn_file_finds_nothing() {
    let mut stores = stores();
    let answer =
        upload(&mut stores, request(Some(ALICE), Some("abc123"), None), Some(("a.txt", b"x"))).unwrap();
    stores.records[0].available = false;
    assert_eq!(download(&stores, &answer.id, Some("abc123"), 0), Err(ErrorKind::NotFound));
}

#[test]
fn a_download_during_a_metadata_store_failure_finds_nothing() {
    let mut stores = stores();
    let answer =
        upload(&mut stores, request(Some(ALICE), Some("abc123"), None), Some(("a.txt", b"x"))).unwrap();
    stores.metadata_store_up = false;
    assert_eq!(download(&stores, &answer.id, Some("abc123"), 0), Err(ErrorKind::NotFound));
}

#[test]
fn a_record_without_blob_finds_nothing() {
    let mut stores = stores();
    let answer =
        upload(&mut stores, request(Some(ALICE), Some("abc123"), None), Some(("a.txt", b"x"))).unwrap();
    stores.blobs.clear();
    assert_eq!(download(&stores, &answer.id, Some("abc123"), 0), Err(ErrorKind::NotFound));
}

fn in_turns(
    stores: &mut Stores,
    salts: (u64, u64),
) -> (Result<UploadResponse, ErrorKind>, Result<UploadResponse, ErrorKind>) {
    let config = UploadConfig::with_megabytes(1);
    let draws = |salt: u64| Draws { token: "FreshToken12".to_string(), salt, now: 0 };
    let first_part: Option<(&str, &[u8])> = Some(("a.txt", b"first"));
    let second_part: Option<(&str, &[u8])> = Some(("a.txt", b"second"));
    let mut first = upload_next(
        &config,
        UploadState::Start,
        UploadEvent::Request(request(Some(ALICE), None, None)),
        draws(salts.0),
    );
    let mut second = upload_next(
        &config,
        UploadState::Start,
        UploadEvent::Request(request(Some(BOB), None, None)),
        draws(salts.1),
    );
    let mut answers = (None, None);
    while answers.0.is_none() || answers.1.is_none() {
        if answers.0.is_none() {
            let (state, action) = first;
            if let UploadAction::Respond(answer) = action {
                answers.0 = Some(answer);
                first = (UploadState::Done, UploadAction::ReadFilePart);
            } else {
                let event = report(stores, action, first_part);
                first = upload_next(&config, state, event, draws(salts.0));
            }
        }
        if answers.1.is_none() {
            let (state, action) = second;
            if let UploadAction::Respond(answer) = action {
                answers.1 = Some(answer);
                second = (UploadState::Done, UploadAction::ReadFilePart);
            } else {
                let event = report(stores, action, second_part);
                second = upload_next(&config, state, event, draws(salts.1));
            }
        }
    }
    (answers.0.unwrap(), answers.1.unwrap())
}

#[test]
fn two_uploads_in_flight_at_once_stay_apart() {
    let mut stores = stores();
    let (one, two) = in_turns(&mut stores, (1, 2));
    let (one, two) = (one.unwrap(), two.unwrap());
    assert_ne!(one.id, two.id);
    assert_eq!(download(&stores, &one.id, Some(&one.token), 0).unwrap().2, b"first");
    assert_eq!(download(&stores, &two.id, Some(&two.token), 0).unwrap().2, b"second");
    assert_eq!(stores.records.len(), 2);
    assert_eq!(stores.blobs.len(), 2);
}

#[test]
fn two_uploads_in_flight_never_share_a_blob() {
    let mut stores = stores();
    let (one, two) = in_turns(&mut stores, (5, 5));
    let one = one.unwrap();
    assert_eq!(two, Err(ErrorKind::InternalError));
    assert_eq!(download(&stores, &one.id, Some(&one.token), 0).unwrap().2, b"first");
    assert_eq!(stores.records.len(), 1);
    assert_eq!(stores.blobs.len(), 1);
}
