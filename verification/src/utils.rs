//! Share tokens, user identifiers and storage names.

use vstd::prelude::*;
use vstd::string::*;
use vstd::utf8::encode_utf8;

use crate::hex::{is_lower_hex, lemma_lower_hex_u128, lower_hex, to_lower_hex};

verus! {

/// An ASCII letter or digit.
pub open spec fn is_alphanumeric(c: char) -> bool {
    ||| '0' <= c <= '9'
    ||| 'a' <= c <= 'z'
    ||| 'A' <= c <= 'Z'
}

/// Every character of `s` is an ASCII letter or digit.
pub open spec fn all_alphanumeric(s: Seq<char>) -> bool {
    forall|i: int| 0 <= i < s.len() ==> is_alphanumeric(#[trigger] s[i])
}

/// The format policy of share tokens: between `min_len` and `max_len`
/// characters, each an ASCII letter or digit.
pub open spec fn token_ok(s: Seq<char>, min_len: int, max_len: int) -> bool {
    &&& min_len <= s.len() <= max_len
    &&& all_alphanumeric(s)
}

fn byte_is_alphanumeric(b: u8) -> (ok: bool)
    ensures
        ok == is_alphanumeric(b as char),
{
    (b >= 48 && b <= 57) || (b >= 97 && b <= 122) || (b >= 65 && b <= 90)
}

/// Whether `s` is a well-formed share token of `min_len` to `max_len`
/// characters.
pub fn check_token(s: &str, min_len: usize, max_len: usize) -> (ok: bool)
    ensures
        ok == token_ok(s@, min_len as int, max_len as int),
{
    if !s.is_ascii() {
        return false;
    }
    let bytes = s.as_bytes();
    proof {
        is_ascii_spec_bytes(s);
    }
    let n = bytes.len();
    if n < min_len || n > max_len {
        return false;
    }
    let mut i: usize = 0;
    while i < n
        invariant
            i <= n,
            n == s@.len(),
            n == bytes@.len(),
            is_ascii(s),
            forall|j: int| 0 <= j < n ==> bytes@[j] == s@[j] as u8,
            forall|j: int| 0 <= j < i ==> is_alphanumeric(#[trigger] s@[j]),
        decreases n - i,
    {
        if !byte_is_alphanumeric(bytes[i]) {
            return false;
        }
        i += 1;
    }
    true
}

/// The alphabet that fresh tokens are drawn from: the 62 ASCII letters and
/// digits.
pub open spec fn alphabet() -> Seq<char> {
    "abcdefghijklmnopqrstuvwxyzABCDEFGHIJKLMNOPQRSTUVWXYZ0123456789"@
}

/// The alphabet has 62 characters, all of them ASCII letters or digits.
pub proof fn lemma_alphabet()
    ensures
        alphabet().len() == 62,
        all_alphanumeric(alphabet()),
{
    reveal_strlit("abcdefghijklmnopqrstuvwxyzABCDEFGHIJKLMNOPQRSTUVWXYZ0123456789");
}

/// The one-character piece of the alphabet at `index`.
pub fn alphabet_piece(index: usize) -> (piece: &'static str)
    requires
        index < 62,
    ensures
        piece@ == seq![alphabet()[index as int]],
{
    let letters = "abcdefghijklmnopqrstuvwxyzABCDEFGHIJKLMNOPQRSTUVWXYZ0123456789";
    proof {
        lemma_alphabet();
    }
    letters.substring_ascii(index, index + 1)
}

/// An index below `bound`, drawn by `rand::Rng::gen_range` from the generator
/// that `rand::thread_rng` keeps for the calling thread. Nothing is claimed of
/// the draw but the range that `gen_range` documents for `0..bound`; an empty
/// range, on which it panics, is left out.
#[verifier::external_body]
fn random_below(bound: usize) -> (index: usize)
    requires
        bound > 0,
    ensures
        index < bound,
{
    rand::Rng::gen_range(&mut rand::thread_rng(), 0..bound)
}

/// A fresh token of `len` characters, each drawn from the alphabet.
pub fn ramdom_string(len: usize) -> (token: String)
    ensures
        token@.len() == len,
        all_alphanumeric(token@),
        token_ok(token@, len as int, len as int),
{
    let mut token = String::new();
    let mut i: usize = 0;
    while i < len
        invariant
            i <= len,
            token@.len() == i,
            all_alphanumeric(token@),
        decreases len - i,
    {
        let pick = random_below(62);
        let piece = alphabet_piece(pick);
        proof {
            lemma_alphabet();
        }
        token.append(piece);
        i += 1;
    }
    token
}

/// A hexadecimal digit of either case.
pub open spec fn is_hex_digit(c: char) -> bool {
    ||| '0' <= c <= '9'
    ||| 'a' <= c <= 'f'
    ||| 'A' <= c <= 'F'
}

/// The four places of a canonical identifier that hold a hyphen.
pub open spec fn is_hyphen_position(i: int) -> bool {
    i == 8 || i == 13 || i == 18 || i == 23
}

/// What the canonical identifier format asks of the character at place `i`.
pub open spec fn uuid_char_ok(i: int, c: char) -> bool {
    if is_hyphen_position(i) {
        c == '-'
    } else {
        is_hex_digit(c)
    }
}

/// The canonical format of user identifiers: 36 characters, hexadecimal
/// digits in groups of 8, 4, 4, 4 and 12 with a hyphen between the groups.
pub open spec fn uuid_ok(s: Seq<char>) -> bool {
    &&& s.len() == 36
    &&& forall|i: int| 0 <= i < 36 ==> uuid_char_ok(i, #[trigger] s[i])
}

fn byte_fits_uuid(i: usize, b: u8) -> (ok: bool)
    ensures
        ok == uuid_char_ok(i as int, b as char),
{
    if i == 8 || i == 13 || i == 18 || i == 23 {
        b == 45
    } else {
        (b >= 48 && b <= 57) || (b >= 97 && b <= 102) || (b >= 65 && b <= 70)
    }
}

/// Whether `uuid` is a user identifier in the canonical format.
pub fn check_uuid(uuid: &str) -> (ok: bool)
    ensures
        ok == uuid_ok(uuid@),
{
    if !uuid.is_ascii() {
        assert(!uuid_ok(uuid@)) by {
            if uuid_ok(uuid@) {
                assert forall|i: int| 0 <= i < uuid@.len() implies '\0' <= #[trigger] uuid@[i]
                    <= '\u{7f}' by {
                    assert(uuid_char_ok(i, uuid@[i]));
                }
            }
        }
        return false;
    }
    let bytes = uuid.as_bytes();
    proof {
        is_ascii_spec_bytes(uuid);
    }
    if bytes.len() != 36 {
        return false;
    }
    let mut i: usize = 0;
    while i < 36
        invariant
            i <= 36,
            uuid@.len() == 36,
            bytes@.len() == 36,
            is_ascii(uuid),
            forall|j: int| 0 <= j < 36 ==> bytes@[j] == uuid@[j] as u8,
            forall|j: int| 0 <= j < i ==> uuid_char_ok(j, #[trigger] uuid@[j]),
        decreases 36 - i,
    {
        if !byte_fits_uuid(i, bytes[i]) {
            return false;
        }
        i += 1;
    }
    true
}

/// The 128-bit XXH3 digest of `input` under `seed`.
pub uninterp spec fn xxh3_128_digest(input: Seq<u8>, seed: u64) -> u128;

/// `xxhash_rust::xxh3::xxh3_128_with_seed` is taken to be a function of its
/// two arguments alone, and its result is given the name `xxh3_128_digest`;
/// nothing is claimed of the digest's value.
pub assume_specification[ xxhash_rust::xxh3::xxh3_128_with_seed ](
    input: &[u8],
    seed: u64,
) -> (digest: u128)
    ensures
        digest == xxh3_128_digest(input@, seed),
;

/// A salt drawn by `rand::Rng::gen` from the generator that
/// `rand::thread_rng` keeps for the calling thread. Nothing is claimed of it.
#[verifier::external_body]
pub(crate) fn random_salt() -> u64 {
    rand::Rng::gen::<u64>(&mut rand::thread_rng())
}

/// The shape of a storage name: 1 to 32 lowercase hexadecimal digits.
pub open spec fn is_storage_name(s: Seq<char>) -> bool {
    &&& 1 <= s.len() <= 32
    &&& forall|i: int| 0 <= i < s.len() ==> is_lower_hex(#[trigger] s[i])
}

/// The storage name of a file uploaded as `file_name` when the salt drawn for
/// it is `salt`: the salted digest of the name's UTF-8 bytes in lowercase
/// hexadecimal.
pub open spec fn storage_name(file_name: Seq<char>, salt: u64) -> Seq<char> {
    lower_hex(xxh3_128_digest(encode_utf8(file_name), salt) as nat)
}

/// Whatever the name and the salt, a storage name has the shape of one.
pub proof fn lemma_storage_name_shape(file_name: Seq<char>, salt: u64)
    ensures
        is_storage_name(storage_name(file_name, salt)),
{
    lemma_lower_hex_u128(xxh3_128_digest(encode_utf8(file_name), salt));
}

/// The storage name of `file_name` under a given `salt`.
pub fn storage_name_for(file_name: &str, salt: u64) -> (name: String)
    ensures
        name@ == storage_name(file_name@, salt),
{
    let digest = xxhash_rust::xxh3::xxh3_128_with_seed(file_name.as_bytes(), salt);
    to_lower_hex(digest)
}

/// A storage name for a file uploaded as `s`, under a freshly drawn salt.
pub fn hashed_filename(s: &str) -> (name: String)
    ensures
        exists|salt: u64| name@ == storage_name(s@, salt),
        is_storage_name(name@),
{
    let salt = random_salt();
    let name = storage_name_for(s, salt);
    proof {
        lemma_storage_name_shape(s@, salt);
    }
    name
}

} // verus!
