use crate::utils::auth::{jwt_claims, read_token};
use crate::utils::constants::TOKEN_TTL_SECONDS;
use vstd::prelude::*;

verus! {

/// What the key of every revoked token starts with.
pub const BANNED_TOKEN_KEY_PREFIX: &'static str = "banned_token";

/// The key under which `token` is held revoked.
pub fn get_key(token: &str) -> (key: String)
    ensures
        key@ == BANNED_TOKEN_KEY_PREFIX@ + token@,
{
    String::from_str(BANNED_TOKEN_KEY_PREFIX).concat(token)
}

/// For how many seconds an entry made at `now` is kept, for a token that
/// runs out at `exp`, or for one that says nothing of it: the time the
/// token has left, and where it has none, the full life of a token.
pub open spec fn revocation_ttl_model(exp: Option<usize>, now: i64) -> int {
    match exp {
        Some(exp) => if exp > now {
            if exp - now <= u64::MAX {
                exp - now
            } else {
                u64::MAX as int
            }
        } else {
            TOKEN_TTL_SECONDS as int
        },
        None => TOKEN_TTL_SECONDS as int,
    }
}

/// For how many seconds an entry made at `now` is kept. The entry never
/// leaves the ledger before the token it names has run out.
pub fn revocation_ttl(exp: Option<usize>, now: i64) -> (ttl: u64)
    ensures
        ttl == revocation_ttl_model(exp, now),
        ttl > 0,
        exp matches Some(exp) ==> (now >= 0 ==> now + ttl >= exp),
{
    match exp {
        Some(exp) => {
            let exp: u64 = exp as u64;
            if now < 0 {
                let back: u64 = if now == i64::MIN {
                    0x8000_0000_0000_0000
                } else {
                    (-now) as u64
                };
                match exp.checked_add(back) {
                    Some(left) => left,
                    None => u64::MAX,
                }
            } else if exp > now as u64 {
                exp - now as u64
            } else {
                TOKEN_TTL_SECONDS as u64
            }
        },
        None => TOKEN_TTL_SECONDS as u64,
    }
}

/// The second at which `token` runs out, as the token itself tells it
/// to whoever holds the secret; `None` for a token that is not one of
/// ours.
pub open spec fn token_expiry(secret: Seq<char>, token: Seq<char>) -> Option<usize> {
    match jwt_claims(secret, token) {
        Some((_, exp)) => if exp <= usize::MAX {
            Some(exp as usize)
        } else {
            None
        },
        None => None,
    }
}

/// What to write to revoke `token` at the second `now`: the key, and the
/// seconds after which the entry may go. A token that is not one of ours
/// is revoked all the same, for the full life of a token. An entry for a
/// token that can be good at all outlives it.
pub fn ban_command(token: &str, secret: &str, now: i64) -> (command: (String, u64))
    ensures
        command.0@ == BANNED_TOKEN_KEY_PREFIX@ + token@,
        command.1 == revocation_ttl_model(token_expiry(secret@, token@), now),
        command.1 > 0,
        jwt_claims(secret@, token@) matches Some(claims) ==> (claims.1 <= usize::MAX && now >= 0
            ==> now + command.1 >= claims.1),
{
    let exp = match read_token(token, secret) {
        Some(claims) => Some(claims.exp),
        None => None,
    };
    let ttl: u64 = revocation_ttl(exp, now);
    (get_key(token), ttl)
}

/// Whether the answer to the question how many entries a key has says
/// that the token is revoked. No answer means that it is not known to be.
pub fn is_banned(count: Option<u32>) -> (banned: bool)
    ensures
        banned == (count matches Some(n) && n > 0),
{
    match count {
        Some(n) => n > 0,
        None => false,
    }
}

} // verus!
