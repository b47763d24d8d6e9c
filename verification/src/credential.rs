//! The credential hasher: a password goes in, a self-describing hash record
//! comes out, and a later login is checked against that record alone.
//!
//! The hashing itself is Argon2 from the `argon2` crate. What this module
//! assumes of that crate is gathered in the three wrappers below; everything
//! else is proved from their contracts.

use vstd::prelude::*;
use vstd::utf8::is_ascii_chars;
use crate::error::Error;
use argon2::Argon2;
use argon2::password_hash::PasswordHash;
use argon2::password_hash::SaltString;

verus! {

/// The record that `PasswordHash::generate`, with Argon2 in its default
/// parameters, writes for a password under a salt given as B64 text; `None`
/// where the salt is refused or the algorithm reports an error.
pub uninterp spec fn phc_derived(password: Seq<char>, salt: Seq<char>) -> Option<Seq<char>>;

/// Whether `PasswordHash::new` parses `record` as a PHC string.
pub uninterp spec fn phc_well_formed(record: Seq<char>) -> bool;

/// Whether `PasswordHash::verify_password`, with Argon2 as the only algorithm
/// on offer, accepts `password` for the parsed `record`.
pub uninterp spec fn phc_accepts(record: Seq<char>, password: Seq<char>) -> bool;

/// A password that Argon2 can take. Its limit is 2^32 - 1 bytes, and a
/// character is four bytes at most.
pub open spec fn within_limit(password: Seq<char>) -> bool {
    password.len() <= 0x3fff_ffff
}

/// A salt under which every password within the limit gets its record.
pub open spec fn usable_salt(salt: Seq<char>) -> bool {
    forall|password: Seq<char>|
        within_limit(password) ==> (#[trigger] phc_derived(password, salt)) is Some
}

/// A decimal digit.
pub open spec fn is_digit(c: char) -> bool {
    '0' <= c && c <= '9'
}

/// Nine decimal digits in a row from `start` on.
pub open spec fn nine_digits_at(record: Seq<char>, start: int) -> bool {
    &&& 0 <= start
    &&& start + 9 <= record.len()
    &&& forall|k: int| start <= k < start + 9 ==> is_digit(#[trigger] record[k])
}

/// The lanes parameter begins at `at`: the text there is `p=`, at the start
/// of the record or behind a `$` or a `,`.
pub open spec fn lanes_at(record: Seq<char>, at: int) -> bool {
    &&& 0 <= at
    &&& at + 1 < record.len()
    &&& record[at] == 'p'
    &&& record[at + 1] == '='
    &&& (at == 0 || record[at - 1] == '$' || record[at - 1] == ',')
}

/// A record that may be handed to the verification: plain ASCII, and no lanes
/// parameter of nine digits or more.
///
/// Argon2 allows at most 2^24 - 1 lanes, a number of eight digits, so no
/// record that it could verify is left out. What is left out is every record
/// whose lanes, taken times eight, would not fit in 32 bits: the outside code
/// forms that product before it checks the range.
pub open spec fn in_bounds(record: Seq<char>) -> bool {
    &&& is_ascii_chars(record)
    &&& forall|at: int| #[trigger] lanes_at(record, at) ==> !nine_digits_at(record, at + 2)
}

/// A hash record that is in bounds, parses and accepts the password.
pub open spec fn verifies(record: Seq<char>, password: Seq<char>) -> bool {
    in_bounds(record) && phc_well_formed(record) && phc_accepts(record, password)
}

/// What checking a password against a hash record comes to: an error for a
/// record that is out of bounds or does not parse, else whether the record
/// accepts the password.
pub open spec fn verify_spec(password: Seq<char>, record: Seq<char>) -> Result<bool, Error> {
    if in_bounds(record) && phc_well_formed(record) {
        Ok(phc_accepts(record, password))
    } else {
        Err(Error::InvalidHashFormat)
    }
}

/// What hashing a password under a given salt comes to: the derived record,
/// or `HashingFailure` where there is none.
pub open spec fn hash_spec(password: Seq<char>, salt: Seq<char>) -> Result<Seq<char>, Error> {
    match phc_derived(password, salt) {
        Some(record) => Ok(record),
        None => Err(Error::HashingFailure),
    }
}

/// A hashing result with its record taken by its view.
pub open spec fn record_view(r: Result<String, Error>) -> Result<Seq<char>, Error> {
    match r {
        Ok(record) => Ok(record@),
        Err(e) => Err(e),
    }
}

/// `SaltString::generate` on the thread's random number generator: sixteen
/// fresh random bytes, written as B64 text.
///
/// Assumed: the salt is usable. Its text is the B64 of sixteen bytes, which
/// the derivation takes and decodes to those sixteen bytes; with the default
/// parameters the algorithm then has one error left, a password of more than
/// 2^32 - 1 bytes.
#[verifier::external_body]
fn fresh_salt() -> (salt: String)
    ensures
        usable_salt(salt@),
{
    SaltString::generate(rand::thread_rng()).as_str().to_string()
}

/// `SaltString::from_b64` on the salt's text, then `PasswordHash::generate`
/// with Argon2 in its default parameters, and the hash written out as a PHC
/// string.
///
/// Assumed: the result is the named record, a function of password and salt
/// alone. A record that comes out is in bounds (plain ASCII, one lane),
/// parses again and accepts the password it was made from. This is the round
/// trip that the documentation of `argon2` shows: verification reads
/// algorithm, version, parameters and salt back from the record, hashes the
/// password again and compares the two outputs.
#[verifier::external_body]
fn derive_record(password: &str, salt: &str) -> (derived: Option<String>)
    ensures
        derived is Some == phc_derived(password@, salt@) is Some,
        derived matches Some(record) ==> phc_derived(password@, salt@) == Some(record@),
        derived matches Some(record) ==> verifies(record@, password@),
{
    let salt = match SaltString::from_b64(salt) {
        Ok(salt) => salt,
        Err(_) => return None,
    };
    match PasswordHash::generate(Argon2::default(), password, &salt) {
        Ok(hash) => Some(hash.to_string()),
        Err(_) => None,
    }
}

/// `PasswordHash::new` on the record and, where it parses,
/// `PasswordHash::verify_password` with Argon2 as the only algorithm on offer.
///
/// The first fails exactly on a string that is no PHC string. The second
/// returns `Ok` when the password hashes to the record's output under the
/// record's own parameters and salt, and its one error in every other case; the
/// comparison of the two outputs is constant-time inside the crate.
///
/// A record that is out of bounds is kept away: on a lanes parameter of 2^29
/// or more the outside code overflows while it rebuilds the parameters. The
/// costs in memory and passes are taken as the record gives them.
#[verifier::external_body]
fn check_record(record: &str, password: &str) -> (checked: Option<bool>)
    requires
        in_bounds(record@),
    ensures
        checked.is_some() == phc_well_formed(record@),
        checked matches Some(accepted) ==> accepted == phc_accepts(record@, password@),
{
    match PasswordHash::new(record) {
        Ok(hash) => Some(hash.verify_password(&[&Argon2::default()], password).is_ok()),
        Err(_) => None,
    }
}

/// Whether nine decimal digits stand in a row from `start` on, in a record of
/// `n` characters.
fn nine_digits(record: &str, n: usize, start: usize) -> (yes: bool)
    requires
        is_ascii_chars(record@),
        n == record@.len(),
        start <= n,
    ensures
        yes == nine_digits_at(record@, start as int),
{
    if n - start < 9 {
        return false;
    }
    let mut k: usize = 0;
    while k < 9
        invariant
            k <= 9,
            is_ascii_chars(record@),
            n == record@.len(),
            start + 9 <= n,
            forall|j: int| start <= j < start + k ==> is_digit(#[trigger] record@[j]),
        decreases 9 - k,
    {
        let c = record.get_ascii(start + k);
        if c < 48 || c > 57 {
            assert(!is_digit(record@[start + k]));
            return false;
        }
        k += 1;
    }
    true
}

/// Whether the lanes parameter begins at `at`, in a record of `n` characters.
fn lanes_begin(record: &str, n: usize, at: usize) -> (yes: bool)
    requires
        is_ascii_chars(record@),
        n == record@.len(),
        at < n,
    ensures
        yes == lanes_at(record@, at as int),
{
    if n - at < 2 {
        return false;
    }
    if record.get_ascii(at) != 112 || record.get_ascii(at + 1) != 61 {
        return false;
    }
    if at == 0 {
        return true;
    }
    let before = record.get_ascii(at - 1);
    before == 36 || before == 44
}

/// Whether a hash record may be handed to the verification: whether it is
/// plain ASCII and names no lanes parameter of nine digits or more.
pub fn record_in_bounds(record: &str) -> (ok: bool)
    ensures
        ok == in_bounds(record@),
{
    if !record.is_ascii() {
        return false;
    }
    let n = record.unicode_len();
    let mut at: usize = 0;
    while at < n
        invariant
            at <= n,
            n == record@.len(),
            is_ascii_chars(record@),
            forall|j: int|
                0 <= j < at && #[trigger] lanes_at(record@, j) ==> !nine_digits_at(record@, j + 2),
        decreases n - at,
    {
        if lanes_begin(record, n, at) {
            if nine_digits(record, n, at + 2) {
                return false;
            }
        }
        at += 1;
    }
    true
}

/// The result of hashing as this library reports it: the record, or
/// `HashingFailure` whatever the algorithm's own error was.
pub fn hash_outcome(derived: Option<String>) -> (r: Result<String, Error>)
    ensures
        derived matches Some(record) ==> r == Ok::<String, Error>(record),
        derived is None ==> r == Err::<String, Error>(Error::HashingFailure),
{
    match derived {
        Some(record) => Ok(record),
        None => Err(Error::HashingFailure),
    }
}

/// The result of a check as this library reports it: whether the record
/// accepted the password, or `InvalidHashFormat` for a record that did not
/// parse. A password that is not accepted is no error.
pub fn verify_outcome(checked: Option<bool>) -> (r: Result<bool, Error>)
    ensures
        checked matches Some(accepted) ==> r == Ok::<bool, Error>(accepted),
        checked is None ==> r == Err::<bool, Error>(Error::InvalidHashFormat),
{
    match checked {
        Some(accepted) => Ok(accepted),
        None => Err(Error::InvalidHashFormat),
    }
}

/// Hashes a password under a given salt, and returns the self-describing hash
/// record. The record depends on the password and the salt alone: the same
/// two give the same record, whenever and wherever they are hashed.
pub fn hash_with_salt(password: String, salt: String) -> (r: Result<String, Error>)
    ensures
        record_view(r) == hash_spec(password@, salt@),
        r matches Ok(record) ==> verify_spec(password@, record@) == Ok::<bool, Error>(true),
{
    hash_outcome(derive_record(password.as_str(), salt.as_str()))
}

/// Hashes a password under a salt drawn for this call, and returns the
/// self-describing hash record.
///
/// A password within the limit always gets its record. The record is the one
/// derived from the password under some usable salt, and it verifies the
/// password. The only error is `HashingFailure`. The plaintext is dropped on
/// return.
pub fn hash_password(password: String) -> (r: Result<String, Error>)
    ensures
        within_limit(password@) ==> r is Ok,
        r matches Ok(record) ==> exists|salt: Seq<char>|
            usable_salt(salt) && #[trigger] phc_derived(password@, salt) == Some(record@),
        r matches Ok(record) ==> verify_spec(password@, record@) == Ok::<bool, Error>(true),
        r matches Err(e) ==> e == Error::HashingFailure,
{
    let salt = fresh_salt();
    hash_with_salt(password, salt)
}

/// Checks a password against a stored hash record, under the parameters and
/// the salt that the record itself carries. A record that is out of bounds is
/// refused like one that does not parse, and is not handed on.
pub fn verify_password(password: String, password_hash: String) -> (r: Result<bool, Error>)
    ensures
        r == verify_spec(password@, password_hash@),
{
    if record_in_bounds(password_hash.as_str()) {
        verify_outcome(check_record(password_hash.as_str(), password.as_str()))
    } else {
        Err(Error::InvalidHashFormat)
    }
}

} // verus!
