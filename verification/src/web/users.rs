//! Decisions of the user endpoints: passwords and avatars.

use super::error::{user_error, Error, ErrorKind};
use super::response::{BAD_REQUEST, NOT_FOUND, OK};
use vstd::prelude::*;
use vstd::string::StringExecFns;

verus! {

/// The work factor that new password hashes are made with.
pub const HASH_COST: u32 = 12;

/// The number of avatars to choose from; they are numbered from one.
pub const AVATARS: i32 = 20;

/// What `bcrypt::verify` returns for a password and a stored hash: whether
/// they match, or `None` where the hash cannot be read.
pub uninterp spec fn bcrypt_verdict(password: Seq<char>, hash: Seq<char>) -> Option<bool>;

/// `bcrypt::verify` on a password and a stored hash. The outcome depends on
/// the two texts alone; the crate's error is given as `None`.
#[verifier::external_body]
fn bcrypt_verify(password: &str, hash: &str) -> (verdict: Option<bool>)
    ensures
        verdict == bcrypt_verdict(password@, hash@),
{
    match bcrypt::verify(password, hash) {
        Ok(matches) => Some(matches),
        Err(_) => None,
    }
}

/// `bcrypt::hash` on a password with the given cost; the crate's error is
/// given as `None`. The salt is random, so the hash itself is not named.
/// Whatever the salt, `bcrypt::verify` accepts the password for the hash: it
/// hashes the password again with the cost and the salt that it reads from
/// the hash, and compares.
#[verifier::external_body]
fn bcrypt_hash(password: &str, cost: u32) -> (hash: Option<String>)
    ensures
        hash matches Some(text) ==> bcrypt_verdict(password@, text@) == Some(true),
{
    match bcrypt::hash(password, cost) {
        Ok(hash) => Some(hash),
        Err(_) => None,
    }
}

/// `rand::random_range` on the half-open range from `low` to `high`: some
/// number of that range. An empty range makes it panic and is left out.
#[verifier::external_body]
fn random_between(low: i32, high: i32) -> (n: i32)
    requires
        low < high,
    ensures
        low <= n < high,
{
    rand::random_range(low..high)
}

/// What a request to change a password comes to.
#[derive(Debug, PartialEq, Eq)]
pub enum PasswordChange {
    /// No such user: 404.
    NotFound,
    /// The stored hash could not be read: 400, as a user error.
    Unreadable,
    /// The old password is not the user's: 400.
    Mismatch,
    /// The old password is the user's: the new one is to be stored.
    Update,
}

/// What a request to change a password comes to, given whether the user
/// exists and what the check of the old password against the stored hash
/// gave.
pub fn password_change(user_found: bool, verdict: Option<bool>) -> (change: PasswordChange)
    ensures
        change == if !user_found {
            PasswordChange::NotFound
        } else {
            match verdict {
                None => PasswordChange::Unreadable,
                Some(false) => PasswordChange::Mismatch,
                Some(true) => PasswordChange::Update,
            }
        },
{
    if !user_found {
        PasswordChange::NotFound
    } else {
        match verdict {
            None => PasswordChange::Unreadable,
            Some(false) => PasswordChange::Mismatch,
            Some(true) => PasswordChange::Update,
        }
    }
}

/// Checks the old password of a user that was found against the stored hash
/// and says what the request comes to.
pub fn check_old_password(old_password: &str, stored_hash: &str) -> (change: PasswordChange)
    ensures
        change == match bcrypt_verdict(old_password@, stored_hash@) {
            None => PasswordChange::Unreadable,
            Some(false) => PasswordChange::Mismatch,
            Some(true) => PasswordChange::Update,
        },
{
    password_change(true, bcrypt_verify(old_password, stored_hash))
}

impl PasswordChange {
    /// The status of the response, once an update has been stored.
    pub fn status(&self) -> (code: u16)
        ensures
            code == match *self {
                PasswordChange::NotFound => NOT_FOUND,
                PasswordChange::Unreadable => BAD_REQUEST,
                PasswordChange::Mismatch => BAD_REQUEST,
                PasswordChange::Update => OK,
            },
    {
        match self {
            PasswordChange::NotFound => NOT_FOUND,
            PasswordChange::Unreadable => BAD_REQUEST,
            PasswordChange::Mismatch => BAD_REQUEST,
            PasswordChange::Update => OK,
        }
    }
}

/// What `encode_password` says of an encoded password: a failure is a user
/// error with the given message.
pub open spec fn encoded_or(outcome: Result<String, Error>, message: Seq<char>) -> bool {
    outcome matches Err(error) ==> (error.spec_kind() matches ErrorKind::UserError(text)
        && text@ == message)
}

/// Files the outcome of hashing a password: the hash, or a user error with
/// `message`.
pub fn file_hash(hashed: Option<String>, message: &str) -> (outcome: Result<String, Error>)
    ensures
        match hashed {
            Some(hash) => outcome matches Ok(kept) && kept == hash,
            None => outcome.is_err() && encoded_or(outcome, message@),
        },
{
    match hashed {
        Some(hash) => Ok(hash),
        None => Err(user_error(message)),
    }
}

/// Hashes a password for storage. The hash is one that the password is
/// accepted for when it is checked again; a failure to hash is a user error
/// with `message`.
pub fn encode_password(password: &str, message: &str) -> (outcome: Result<String, Error>)
    ensures
        encoded_or(outcome, message@),
        outcome matches Ok(hash) ==> bcrypt_verdict(password@, hash@) == Some(true),
{
    file_hash(bcrypt_hash(password, HASH_COST), message)
}

/// The decimal digit `d` as text.
pub open spec fn digit_text(d: nat) -> Seq<char> {
    if d == 0 {
        "0"@
    } else if d == 1 {
        "1"@
    } else if d == 2 {
        "2"@
    } else if d == 3 {
        "3"@
    } else if d == 4 {
        "4"@
    } else if d == 5 {
        "5"@
    } else if d == 6 {
        "6"@
    } else if d == 7 {
        "7"@
    } else if d == 8 {
        "8"@
    } else {
        "9"@
    }
}

/// The number `n` in decimal.
pub open spec fn decimal(n: nat) -> Seq<char>
    decreases n,
{
    if n < 10 {
        digit_text(n)
    } else {
        decimal(n / 10) + digit_text(n % 10)
    }
}

/// The address of avatar number `n`.
pub open spec fn avatar_path(n: nat) -> Seq<char> {
    "/api/images/avatars/"@ + decimal(n) + ".png"@
}

fn digit(d: u32) -> (text: &'static str)
    requires
        d < 10,
    ensures
        text@ == digit_text(d as nat),
{
    match d {
        0 => "0",
        1 => "1",
        2 => "2",
        3 => "3",
        4 => "4",
        5 => "5",
        6 => "6",
        7 => "7",
        8 => "8",
        _ => "9",
    }
}

/// The number `n` in decimal.
pub fn to_decimal(n: u32) -> (text: String)
    ensures
        text@ == decimal(n as nat),
    decreases n,
{
    if n < 10 {
        String::from_str(digit(n))
    } else {
        to_decimal(n / 10).concat(digit(n % 10))
    }
}

/// The address of avatar number `n`.
pub fn avatar_url(n: u32) -> (url: String)
    ensures
        url@ == avatar_path(n as nat),
{
    String::from_str("/api/images/avatars/").concat(to_decimal(n).as_str()).concat(".png")
}

/// The address of an avatar picked at random among those there are.
pub fn random_avatar_url() -> (url: String)
    ensures
        exists|n: nat| 1 <= n <= AVATARS && url@ == avatar_path(n),
{
    let n = random_between(1, AVATARS + 1);
    let url = avatar_url(n as u32);
    proof {
        assert(1 <= (n as nat) <= AVATARS && url@ == avatar_path(n as nat));
    }
    url
}

} // verus!
