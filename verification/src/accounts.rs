//! User and authentication-token records, the hexadecimal identifiers
//! they are keyed by, and the clock reading they are stamped with.

use vstd::prelude::*;

use rand::Rng;

use crate::text::string_from_chars;

verus! {

/// How long an authentication token stays valid, in seconds: thirty
/// days.
pub const TOKEN_LIFETIME_SECS: u64 = 30 * 24 * 60 * 60;

/// A registered user.
#[derive(Debug, Clone, PartialEq, Eq)]
pub struct User {
    pub id: String,
    pub name: String,
    pub email: Option<String>,
    pub avatar_url: Option<String>,
    pub slack_id: String,
    pub created_at: u64,
}

/// An authentication token tied to one user, valid for a fixed
/// lifetime from its creation.
#[derive(Debug, Clone, PartialEq, Eq)]
pub struct AuthToken {
    pub token: String,
    pub user_id: String,
    pub created_at: u64,
    pub expires_at: u64,
}

/// The character for one hexadecimal digit value, lower case.
pub open spec fn hex_digit_char(d: int) -> char {
    if d == 0 {
        '0'
    } else if d == 1 {
        '1'
    } else if d == 2 {
        '2'
    } else if d == 3 {
        '3'
    } else if d == 4 {
        '4'
    } else if d == 5 {
        '5'
    } else if d == 6 {
        '6'
    } else if d == 7 {
        '7'
    } else if d == 8 {
        '8'
    } else if d == 9 {
        '9'
    } else if d == 10 {
        'a'
    } else if d == 11 {
        'b'
    } else if d == 12 {
        'c'
    } else if d == 13 {
        'd'
    } else if d == 14 {
        'e'
    } else {
        'f'
    }
}

/// A lower-case hexadecimal digit.
pub open spec fn is_hex_char(c: char) -> bool {
    ('0' <= c && c <= '9') || ('a' <= c && c <= 'f')
}

/// The hexadecimal rendering of a byte sequence: two digits for each
/// byte, high digit first.
pub open spec fn hex_of_bytes(bs: Seq<u8>) -> Seq<char>
    decreases bs.len(),
{
    if bs.len() == 0 {
        Seq::empty()
    } else {
        hex_of_bytes(bs.drop_last()).push(hex_digit_char(bs.last() as int / 16)).push(
            hex_digit_char(bs.last() as int % 16),
        )
    }
}

/// The hexadecimal rendering of `n` bytes has `2 * n` digits, each a
/// lower-case hexadecimal digit.
pub proof fn lemma_hex_of_bytes_shape(bs: Seq<u8>)
    ensures
        hex_of_bytes(bs).len() == 2 * bs.len(),
        forall|i: int| 0 <= i < hex_of_bytes(bs).len() ==> is_hex_char(#[trigger] hex_of_bytes(bs)[i]),
    decreases bs.len(),
{
    if bs.len() > 0 {
        lemma_hex_of_bytes_shape(bs.drop_last());
        assert(is_hex_char(hex_digit_char(bs.last() as int / 16)));
        assert(is_hex_char(hex_digit_char(bs.last() as int % 16)));
    }
}

fn hex_digit(d: u8) -> (r: char)
    requires
        d < 16,
    ensures
        r == hex_digit_char(d as int),
{
    match d {
        0 => '0',
        1 => '1',
        2 => '2',
        3 => '3',
        4 => '4',
        5 => '5',
        6 => '6',
        7 => '7',
        8 => '8',
        9 => '9',
        10 => 'a',
        11 => 'b',
        12 => 'c',
        13 => 'd',
        14 => 'e',
        _ => 'f',
    }
}

/// Renders a byte sequence in lower-case hexadecimal, two digits for
/// each byte.
pub fn hex_string(bytes: &Vec<u8>) -> (r: String)
    ensures
        r@ == hex_of_bytes(bytes@),
{
    let mut out: Vec<char> = Vec::new();
    let mut i: usize = 0;
    while i < bytes.len()
        invariant
            i <= bytes.len(),
            out@ == hex_of_bytes(bytes@.take(i as int)),
        decreases bytes.len() - i,
    {
        let b = bytes[i];
        proof {
            assert(bytes@.take(i + 1).drop_last() =~= bytes@.take(i as int));
            assert(bytes@.take(i + 1).last() == bytes@[i as int]);
        }
        out.push(hex_digit(b / 16));
        out.push(hex_digit(b % 16));
        i += 1;
    }
    proof {
        assert(bytes@.take(bytes@.len() as int) =~= bytes@);
    }
    string_from_chars(out)
}

/// Relies on `rand::Rng::gen` on the thread-local generator: sixteen
/// bytes drawn at random; nothing is promised of their values.
#[verifier::external_body]
fn random_bytes() -> (r: Vec<u8>)
    ensures
        r@.len() == 16,
{
    let bytes: [u8; 16] = rand::thread_rng().gen();
    bytes.to_vec()
}

/// Relies on `std::time::SystemTime::now` and `duration_since`: the
/// seconds since the Unix epoch by the system clock, or zero when the
/// clock reads earlier than the epoch. The value depends on the moment
/// of the call, so nothing is promised of it.
#[verifier::external_body]
fn system_clock_seconds() -> u64 {
    std::time::SystemTime::now().duration_since(std::time::UNIX_EPOCH).unwrap_or_default().as_secs()
}

/// Reads the clock: the seconds since the Unix epoch, or zero when the
/// clock reads earlier than the epoch. The value depends on the moment
/// of the call, so callers take it as an argument wherever a contract
/// speaks of it.
pub fn get_current_time() -> u64 {
    system_clock_seconds()
}

/// Draws a fresh identifier: the lower-case hexadecimal rendering of
/// sixteen random bytes, so thirty-two hexadecimal digits.
pub fn generate_id() -> (r: String)
    ensures
        r@.len() == 32,
        forall|i: int| 0 <= i < r@.len() ==> is_hex_char(r@[i]),
{
    let bytes = random_bytes();
    let r = hex_string(&bytes);
    proof {
        lemma_hex_of_bytes_shape(bytes@);
    }
    r
}

/// When a token created at `created_at` expires: one lifetime later,
/// held at the end of the representable range rather than wrapping.
pub open spec fn spec_expiry(created_at: u64) -> u64 {
    if created_at + TOKEN_LIFETIME_SECS <= u64::MAX {
        (created_at + TOKEN_LIFETIME_SECS) as u64
    } else {
        u64::MAX
    }
}

/// Builds the record of a newly registered user: the given fields, a
/// fresh thirty-two digit identifier, and the given creation time.
pub fn create_user(
    name: String,
    email: Option<String>,
    avatar_url: Option<String>,
    slack_id: String,
    created_at: u64,
) -> (u: User)
    ensures
        u.name == name,
        u.email == email,
        u.avatar_url == avatar_url,
        u.slack_id == slack_id,
        u.created_at == created_at,
        u.id@.len() == 32,
        forall|i: int| 0 <= i < u.id@.len() ==> is_hex_char(u.id@[i]),
{
    let id = generate_id();
    User { id, name, email, avatar_url, slack_id, created_at }
}

/// Builds an authentication token for a user, or nothing when the user
/// is not known: a fresh thirty-two digit token, created now and
/// expiring one lifetime later.
pub fn create_auth_token(user_exists: bool, user_id: String, now: u64) -> (r: Option<AuthToken>)
    ensures
        !user_exists ==> r is None,
        user_exists ==> (r matches Some(t) && {
            &&& t.user_id == user_id
            &&& t.created_at == now
            &&& t.expires_at == spec_expiry(now)
            &&& t.token@.len() == 32
            &&& forall|i: int| 0 <= i < t.token@.len() ==> is_hex_char(t.token@[i])
        }),
{
    if !user_exists {
        return None;
    }
    let token = generate_id();
    let expires_at = if now <= u64::MAX - TOKEN_LIFETIME_SECS {
        now + TOKEN_LIFETIME_SECS
    } else {
        u64::MAX
    };
    Some(AuthToken { token, user_id, created_at: now, expires_at })
}

} // verus!
