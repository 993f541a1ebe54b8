//! File records: what the metadata store keeps of an upload, and the rule by
//! which a record may be served.

use vstd::prelude::*;
use vstd::utf8::encode_utf8;

use crate::clock::MAX_LIFETIME_MS;
use crate::utils::{is_storage_name, token_ok, uuid_ok};

verus! {

/// The shortest share token.
pub const TOKEN_MIN: usize = 6;

/// The longest share token.
pub const TOKEN_MAX: usize = 32;

/// The longest file name, in bytes.
pub const FILE_NAME_MAX: usize = 255;

/// A file name that an upload may carry: 1 to 255 bytes of UTF-8.
pub open spec fn file_name_ok(name: Seq<char>) -> bool {
    1 <= encode_utf8(name).len() <= FILE_NAME_MAX
}

/// The metadata of one uploaded file.
#[derive(Debug, PartialEq, Eq)]
pub struct FileRecord {
    /// The name under which the file was uploaded.
    pub name: String,
    /// The share token.
    pub token: String,
    /// The identifier of the user who uploaded it.
    pub owner: String,
    /// The name of the blob under the storage root.
    pub storage_name: String,
    /// Creation time, in milliseconds since the epoch.
    pub created_at: i64,
    /// Expiry time, in milliseconds since the epoch; `None` never expires.
    pub dead_at: Option<i64>,
    /// Cleared when the file is withdrawn.
    pub available: bool,
}

/// A file record as a mathematical value.
pub struct FileRecordView {
    pub name: Seq<char>,
    pub token: Seq<char>,
    pub owner: Seq<char>,
    pub storage_name: Seq<char>,
    pub created_at: i64,
    pub dead_at: Option<i64>,
    pub available: bool,
}

impl View for FileRecord {
    type V = FileRecordView;

    open spec fn view(&self) -> FileRecordView {
        FileRecordView {
            name: self.name@,
            token: self.token@,
            owner: self.owner@,
            storage_name: self.storage_name@,
            created_at: self.created_at,
            dead_at: self.dead_at,
            available: self.available,
        }
    }
}

impl Clone for FileRecord {
    fn clone(&self) -> (copy: Self)
        ensures
            copy@ == self@,
    {
        FileRecord {
            name: self.name.clone(),
            token: self.token.clone(),
            owner: self.owner.clone(),
            storage_name: self.storage_name.clone(),
            created_at: self.created_at,
            dead_at: self.dead_at,
            available: self.available,
        }
    }
}

impl FileRecordView {
    /// What holds of every record that an upload creates: a usable file
    /// name, a well-formed token, owner and storage name, and an expiry, if
    /// any, that lies after the creation by less than ten years.
    pub open spec fn well_formed(self) -> bool {
        &&& file_name_ok(self.name)
        &&& token_ok(self.token, TOKEN_MIN as int, TOKEN_MAX as int)
        &&& uuid_ok(self.owner)
        &&& is_storage_name(self.storage_name)
        &&& self.dead_at matches Some(at) ==> self.created_at < at < self.created_at
            + MAX_LIFETIME_MS
    }

    /// Whether the record has expired by `now`.
    pub open spec fn expired(self, now: i64) -> bool {
        self.dead_at matches Some(at) && at <= now
    }

    /// Whether the record may be served at `now` to a caller who names the
    /// blob `id` and presents `token`: the storage name and the token match
    /// exactly, the file is available, and it has not expired.
    pub open spec fn retrievable(self, id: Seq<char>, token: Seq<char>, now: i64) -> bool {
        &&& self.storage_name == id
        &&& self.token == token
        &&& self.available
        &&& !self.expired(now)
    }
}

/// The records of `records` as mathematical values, in order.
pub open spec fn views(records: Seq<FileRecord>) -> Seq<FileRecordView> {
    records.map_values(|r: FileRecord| r@)
}

/// The place of the first record of `records` that may be served for `id`
/// and `token` at `now`, if there is one.
pub open spec fn first_retrievable(
    records: Seq<FileRecordView>,
    id: Seq<char>,
    token: Seq<char>,
    now: i64,
) -> Option<int>
    decreases records.len(),
{
    if records.len() == 0 {
        None
    } else {
        match first_retrievable(records.drop_last(), id, token, now) {
            Some(at) => Some(at),
            None => if records.last().retrievable(id, token, now) {
                Some(records.len() - 1)
            } else {
                None
            },
        }
    }
}

/// `first_retrievable` finds a record that may be served and that no such
/// record precedes; it finds none only where there is none.
pub proof fn lemma_first_retrievable(
    records: Seq<FileRecordView>,
    id: Seq<char>,
    token: Seq<char>,
    now: i64,
)
    ensures
        match first_retrievable(records, id, token, now) {
            Some(at) => {
                &&& 0 <= at < records.len()
                &&& records[at].retrievable(id, token, now)
                &&& forall|j: int|
                    0 <= j < at ==> !(#[trigger] records[j]).retrievable(id, token, now)
            },
            None => forall|j: int|
                0 <= j < records.len() ==> !(#[trigger] records[j]).retrievable(id, token, now),
        },
    decreases records.len(),
{
    if records.len() > 0 {
        let front = records.drop_last();
        lemma_first_retrievable(front, id, token, now);
        assert forall|j: int| 0 <= j < front.len() implies front[j] == records[j] by {}
    }
}

impl FileRecord {
    /// Whether the record may be served at `now` to a caller who names the
    /// blob `id` and presents `token`.
    pub fn is_retrievable(&self, id: &String, token: &String, now: i64) -> (ok: bool)
        ensures
            ok == self@.retrievable(id@, token@, now),
    {
        let live = match self.dead_at {
            Some(at) => at > now,
            None => true,
        };
        self.storage_name == *id && self.token == *token && self.available && live
    }
}

/// The place of the first record of `records` that may be served for `id`
/// and `token` at `now`.
pub fn find_retrievable(records: &Vec<FileRecord>, id: &String, token: &String, now: i64) -> (found:
    Option<usize>)
    ensures
        found matches Some(at) ==> at < records@.len(),
        match found {
            Some(at) => Some(at as int),
            None => None,
        } == first_retrievable(views(records@), id@, token@, now),
{
    let mut i: usize = 0;
    while i < records.len()
        invariant
            i <= records@.len(),
            first_retrievable(views(records@).take(i as int), id@, token@, now) is None,
        decreases records@.len() - i,
    {
        proof {
            let all = views(records@);
            assert(all.take(i + 1).drop_last() =~= all.take(i as int));
            assert(all.take(i + 1).last() == records@[i as int]@);
        }
        if records[i].is_retrievable(id, token, now) {
            proof {
                lemma_found_in_prefix(views(records@), i + 1, id@, token@, now);
            }
            return Some(i);
        }
        i += 1;
    }
    assert(views(records@).take(i as int) =~= views(records@));
    None
}

/// What is found among the first `k` records is found among all of them.
proof fn lemma_found_in_prefix(
    records: Seq<FileRecordView>,
    k: int,
    id: Seq<char>,
    token: Seq<char>,
    now: i64,
)
    requires
        0 <= k <= records.len(),
        first_retrievable(records.take(k), id, token, now) is Some,
    ensures
        first_retrievable(records, id, token, now) == first_retrievable(
            records.take(k),
            id,
            token,
            now,
        ),
    decreases records.len(),
{
    if k == records.len() {
        assert(records.take(k) =~= records);
    } else {
        assert(records.drop_last().take(k) =~= records.take(k));
        lemma_found_in_prefix(records.drop_last(), k, id, token, now);
    }
}

} // verus!
