//! Password hashing for stored users: Argon2id under a fresh random salt,
//! written as a PHC string, which names the algorithm, its version, its
//! parameters and the salt beside the digest. Such a string is all that a
//! later check of a password against it needs.

use argon2::password_hash::rand_core::OsRng;
use argon2::password_hash::{PasswordHasher, SaltString};
use argon2::Argon2;
use vstd::prelude::*;

verus! {

/// The error type of the hashing library.
#[verifier::external_type_specification]
#[verifier::external_body]
pub struct ExPasswordHashError(argon2::password_hash::Error);

/// The password could not be hashed.
#[derive(Clone, Copy, Debug, PartialEq, Eq, Structural)]
pub struct HashFailure {}

/// What Argon2id (version 19, 19456 KiB of memory, 2 passes, 1 lane, 32
/// bytes of output) gives for the password `password` under the salt `salt`:
/// the digest in base64 without padding, or nothing where the hashing
/// library refuses the salt or the password.
pub uninterp spec fn argon2id_digest(password: Seq<char>, salt: Seq<char>) -> Option<Seq<char>>;

/// What every hash of this module begins with: the algorithm, its version and
/// its parameters, each after a `$`, and the `$` before the salt.
pub open spec fn phc_header() -> Seq<char> {
    "$argon2id$v=19$m=19456,t=2,p=1$"@
}

/// Whether `c` may stand in a salt: a letter or a digit of ASCII, or one of
/// `/`, `+`, `.` and `-`.
pub open spec fn is_salt_char(c: char) -> bool {
    ||| 'a' <= c <= 'z'
    ||| 'A' <= c <= 'Z'
    ||| '0' <= c <= '9'
    ||| c == '/'
    ||| c == '+'
    ||| c == '.'
    ||| c == '-'
}

/// Whether `salt` has the form of a salt: 4 to 64 characters, each of which
/// may stand in a salt.
pub open spec fn is_salt(salt: Seq<char>) -> bool {
    &&& 4 <= salt.len() <= 64
    &&& forall|i: int| 0 <= i < salt.len() ==> is_salt_char(#[trigger] salt[i])
}

/// Whether `c` is a character of base64: a letter or a digit of ASCII, `+`
/// or `/`.
pub open spec fn is_base64_char(c: char) -> bool {
    ||| 'a' <= c <= 'z'
    ||| 'A' <= c <= 'Z'
    ||| '0' <= c <= '9'
    ||| c == '+'
    ||| c == '/'
}

/// Whether `salt` has the form of a salt that is drawn afresh, which is the
/// base64, without padding, of 16 bytes: 22 characters of base64, the last
/// of which stands for two bits, so is one of `A`, `Q`, `g` and `w`.
pub open spec fn is_fresh_salt(salt: Seq<char>) -> bool {
    &&& salt.len() == 22
    &&& forall|i: int| 0 <= i < salt.len() ==> is_base64_char(#[trigger] salt[i])
    &&& salt[21] == 'A' || salt[21] == 'Q' || salt[21] == 'g' || salt[21] == 'w'
}

/// The most characters of a password for which a hash is owed. A character
/// takes at most 4 bytes, and the hashing library takes passwords of less
/// than 2^32 bytes.
pub open spec fn max_password_len() -> int {
    0x3fff_ffff
}

/// The PHC string that holds the salt `salt` and the digest `digest`: the
/// header, the salt, a `$` and the digest.
pub open spec fn phc_text(salt: Seq<char>, digest: Seq<char>) -> Seq<char> {
    phc_header() + salt + seq!['$'] + digest
}

/// The PHC string for `password` under `salt`, or nothing where the hashing
/// library gives no digest.
pub open spec fn phc_string(password: Seq<char>, salt: Seq<char>) -> Option<Seq<char>> {
    match argon2id_digest(password, salt) {
        Some(digest) => Some(phc_text(salt, digest)),
        None => None,
    }
}

/// Whether `hash` is the PHC string for `password` under some salt.
pub open spec fn is_hash_of(hash: Seq<char>, password: Seq<char>) -> bool {
    exists|salt: Seq<char>| is_salt(salt) && #[trigger] phc_string(password, salt) == Some(hash)
}

/// The outcome of a hashing as the model sees it: the hash, or nothing.
pub open spec fn hash_text(outcome: Result<String, HashFailure>) -> Option<Seq<char>> {
    match outcome {
        Ok(hash) => Some(hash@),
        Err(_) => None,
    }
}

/// Calls `SaltString::generate` of the crate password-hash on the system's
/// random number generator. Trusted: the result is the base64, without
/// padding, of 16 random bytes, so it has the form of a salt that is drawn
/// afresh. Nothing is claimed of which. The outside call panics where the
/// system gives no random bytes.
#[verifier::external_body]
fn fresh_salt() -> (salt: String)
    ensures
        is_fresh_salt(salt@),
{
    SaltString::generate(&mut OsRng).as_str().to_owned()
}

/// Calls `hash_password` of the crate argon2 on `Argon2::default()` and
/// writes the result out as a string. Trusted: whether the call succeeds and
/// what digest it gives depend on `password` and `salt` alone; it succeeds
/// only for a `salt` that has the form of a salt, and the string is then the
/// header, `salt` as given, a `$` and the digest; it succeeds for every
/// `salt` that has the form of one drawn afresh and every `password` of at
/// most 0x3fff_ffff characters, which are less than 2^32 bytes.
#[verifier::external_body]
fn argon2id(password: &str, salt: &str) -> (r: Result<String, argon2::password_hash::Error>)
    ensures
        match r {
            Ok(hash) => {
                &&& is_salt(salt@)
                &&& argon2id_digest(password@, salt@) matches Some(digest)
                &&& hash@ == phc_header() + salt@ + seq!['$'] + digest
            },
            Err(_) => argon2id_digest(password@, salt@) is None,
        },
        is_fresh_salt(salt@) && password@.len() <= max_password_len() ==> r is Ok,
{
    let salt = SaltString::from_b64(salt)?;
    let hash = Argon2::default().hash_password(password.as_bytes(), &salt)?;
    Ok(hash.to_string())
}

/// What a hashing returns, given what the hashing library returned: its
/// string, or [`HashFailure`] whatever its error.
pub fn hashed(outcome: Result<String, argon2::password_hash::Error>) -> (r: Result<
    String,
    HashFailure,
>)
    ensures
        match outcome {
            Ok(hash) => r == Ok::<String, HashFailure>(hash),
            Err(_) => r == Err::<String, HashFailure>(HashFailure {}),
        },
{
    match outcome {
        Ok(hash) => Ok(hash),
        Err(_) => Err(HashFailure {}),
    }
}

/// Hashes `password` under `salt`: the result is the PHC string for
/// `password` under `salt`, and a failure where the hashing library gives
/// none. It gives one only for a `salt` that has the form of a salt, and it
/// gives one for every `salt` that has the form of one drawn afresh and
/// every `password` of at most 0x3fff_ffff characters.
pub fn hash_with_salt(password: &str, salt: &str) -> (r: Result<String, HashFailure>)
    ensures
        hash_text(r) == phc_string(password@, salt@),
        r is Ok ==> is_salt(salt@),
        is_fresh_salt(salt@) && password@.len() <= max_password_len() ==> r is Ok,
{
    hashed(argon2id(password, salt))
}

/// Hashes `password` under a salt that is drawn afresh on every call: the
/// result is what [`hash_with_salt`] gives for `password` under some salt
/// that has the form of one drawn afresh. It is a hash for every `password`
/// of at most 0x3fff_ffff characters.
pub fn hash_password(password: &str) -> (r: Result<String, HashFailure>)
    ensures
        exists|salt: Seq<char>|
            is_fresh_salt(salt) && hash_text(r) == #[trigger] phc_string(password@, salt),
        r matches Ok(hash) ==> is_hash_of(hash@, password@),
        password@.len() <= max_password_len() ==> r is Ok,
{
    let salt = fresh_salt();
    hash_with_salt(password, salt.as_str())
}

/// No character that may stand in a salt is the `$` that parts the fields
/// of a PHC string.
pub proof fn lemma_salt_holds_no_separator(salt: Seq<char>, at: int)
    requires
        is_salt(salt),
        0 <= at < salt.len(),
    ensures
        salt[at] != '$',
{
    assert(is_salt_char(salt[at]));
}

/// The hash of a password under a salt is not the password, for every
/// password that does not itself begin with the header, that salt and a
/// `$`, as its hash does.
pub proof fn lemma_hash_is_not_the_password(password: Seq<char>, salt: Seq<char>)
    requires
        !(phc_header() + salt + seq!['$']).is_prefix_of(password),
    ensures
        phc_string(password, salt) != Some(password),
{
    if let Some(digest) = argon2id_digest(password, salt) {
        let hash = phc_text(salt, digest);
        let front = phc_header() + salt + seq!['$'];
        assert(hash.subrange(0, front.len() as int) =~= front);
    }
}

/// Two PHC strings that hold two salts differ, whatever their digests.
pub proof fn lemma_salts_tell_texts_apart(
    first: Seq<char>,
    second: Seq<char>,
    first_digest: Seq<char>,
    second_digest: Seq<char>,
)
    requires
        is_salt(first),
        is_salt(second),
        first != second,
    ensures
        phc_text(first, first_digest) != phc_text(second, second_digest),
{
    let a = phc_text(first, first_digest);
    let b = phc_text(second, second_digest);
    let n = phc_header().len() as int;
    if a == b {
        if first.len() == second.len() {
            assert forall|i: int| 0 <= i < first.len() implies first[i] == second[i] by {
                assert(a[n + i] == first[i]);
                assert(b[n + i] == second[i]);
            }
            assert(first =~= second);
        } else if first.len() < second.len() {
            let at = first.len() as int;
            assert(a[n + at] == '$');
            assert(b[n + at] == second[at]);
            lemma_salt_holds_no_separator(second, at);
        } else {
            let at = second.len() as int;
            assert(b[n + at] == '$');
            assert(a[n + at] == first[at]);
            lemma_salt_holds_no_separator(first, at);
        }
    }
}

/// One password that is hashed under two salts has two hashes.
pub proof fn lemma_salts_tell_hashes_apart(password: Seq<char>, first: Seq<char>, second: Seq<char>)
    requires
        is_salt(first),
        is_salt(second),
        first != second,
        phc_string(password, first) is Some,
        phc_string(password, second) is Some,
    ensures
        phc_string(password, first) != phc_string(password, second),
{
    lemma_salts_tell_texts_apart(
        first,
        second,
        argon2id_digest(password, first)->Some_0,
        argon2id_digest(password, second)->Some_0,
    );
}

} // verus!
