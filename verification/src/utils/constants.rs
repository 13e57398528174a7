use vstd::prelude::*;

verus! {

/// The name of the cookie that carries the token.
pub const JWT_COOKIE_NAME: &'static str = "jwt";

/// How long a token lasts, and a challenge too, in seconds: ten minutes.
pub const TOKEN_TTL_SECONDS: i64 = 600;

/// Where the key-value backend is looked for when nothing else is said.
pub const DEFAULT_REDIS_HOSTNAME: &'static str = "127.0.0.1";

} // verus!
