//! The bot's command-line options, and the client for the store they name.

use vstd::prelude::*;

verus! {

/// The store used when no address is given.
pub open spec fn default_redis_url() -> Seq<char> {
    "redis://127.0.0.1"@
}

/// Command-line options of the bot.
pub struct Opts {
    /// Bot token, required to start the bot.
    pub token: String,
    /// Application id, required to start the bot.
    pub application_id: u64,
    /// Address of the store.
    pub redis_url: Option<String>,
}

impl Opts {
    /// The address of the store: the one given, or `redis://127.0.0.1`.
    pub fn store_url(&self) -> (url: String)
        ensures
            url@ == match self.redis_url {
                Some(u) => u@,
                None => default_redis_url(),
            },
    {
        match &self.redis_url {
            Some(u) => u.clone(),
            None => String::from_str("redis://127.0.0.1"),
        }
    }
}

#[verifier::external_type_specification]
#[verifier::external_body]
pub struct ExRedisClient(redis::Client);

#[verifier::external_type_specification]
#[verifier::external_body]
pub struct ExRedisError(redis::RedisError);

/// Whether `redis::Client::open` accepts the address `url`, that is, can
/// read connection details (scheme, host or path, database number,
/// credentials) out of it.
pub uninterp spec fn redis_accepts_url(url: Seq<char>) -> bool;

/// Calls `redis::Client::open` on the address, which only reads the URL
/// and opens no connection. The contract names its verdict and states one
/// fact from the source: the default address `redis://127.0.0.1` (scheme
/// `redis`, a host, no path, no credentials) is accepted. What else is
/// accepted is left to the name.
#[verifier::external_body]
fn open_store_client(url: String) -> (client: Result<redis::Client, redis::RedisError>)
    ensures
        (client is Ok) <==> redis_accepts_url(url@),
        url@ == default_redis_url() ==> client is Ok,
{
    redis::Client::open(url)
}

/// Why no client for the store could be made.
pub enum StoreAddressError {
    /// The store refused the address; its own error says why.
    Rejected(redis::RedisError),
}

/// A client for the store at `url`, which opens no connection yet; an
/// address the store does not accept is refused.
pub fn store_client(url: String) -> (client: Result<redis::Client, StoreAddressError>)
    ensures
        (client is Ok) <==> redis_accepts_url(url@),
        url@ == default_redis_url() ==> client is Ok,
{
    match open_store_client(url) {
        Ok(c) => Ok(c),
        Err(e) => Err(StoreAddressError::Rejected(e)),
    }
}

} // verus!
