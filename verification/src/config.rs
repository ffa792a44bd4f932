//! The configuration surface, loaded once at process start: queue store
//! and broker connections, the queue name, the dispatcher's idle interval,
//! and the topic prefix.

use vstd::prelude::*;

use crate::numerals::{dec_seq, push_dec};
use vstd::string::StringExecFns;

verus! {

/// Connection settings of the queue store.
#[derive(Clone)]
pub struct Redis {
    pub host: String,
    pub port: u16,
    pub username: Option<String>,
    pub password: String,
    pub select: Option<u16>,
}

/// The connection URL of a [`Redis`] value: user (or `default`), password,
/// host, port and database index (or 0) in the `redis://` scheme.
pub open spec fn spec_redis_url(r: &Redis) -> Seq<char> {
    "redis://"@ + (match r.username {
        Some(ref u) => u@,
        None => "default"@,
    }) + ":"@ + r.password@ + "@"@ + r.host@ + ":"@ + dec_seq(r.port as nat) + "/"@ + dec_seq(
        (match r.select {
            Some(d) => d,
            None => 0u16,
        }) as nat,
    )
}

impl Redis {
    /// The queue store connection URL.
    pub fn connection_url(&self) -> (r: String)
        ensures
            r@ == spec_redis_url(self),
    {
        let mut out = String::from_str("redis://");
        match &self.username {
            Some(u) => out.append(u.as_str()),
            None => out.append("default"),
        }
        out.append(":");
        out.append(self.password.as_str());
        out.append("@");
        out.append(self.host.as_str());
        out.append(":");
        push_dec(&mut out, self.port as u64);
        out.append("/");
        let select: u16 = match self.select {
            Some(d) => d,
            None => 0,
        };
        push_dec(&mut out, select as u64);
        out
    }
}

/// Connection settings of the notification broker.
#[derive(Clone)]
pub struct Mqtt {
    pub url: String,
    pub client: Option<String>,
    pub username: String,
    pub password: String,
    pub tls: bool,
}

/// Connection settings of the relational database.
#[derive(Clone)]
pub struct Database {
    pub host: String,
    pub username: String,
    pub password: String,
    pub database: String,
}

/// The database connection string of a [`Database`] value, in the
/// `mysql://` scheme.
pub open spec fn spec_connection_string(d: &Database) -> Seq<char> {
    "mysql://"@ + d.username@ + ":"@ + d.password@ + "@"@ + d.host@ + "/"@ + d.database@
}

impl Database {
    /// The database connection string.
    pub fn connection_string(&self) -> (r: String)
        ensures
            r@ == spec_connection_string(self),
    {
        let mut out = String::from_str("mysql://");
        out.append(self.username.as_str());
        out.append(":");
        out.append(self.password.as_str());
        out.append("@");
        out.append(self.host.as_str());
        out.append("/");
        out.append(self.database.as_str());
        out
    }
}

/// Everything the process reads from its configuration file at start; there
/// is no hot-reload.
#[derive(Clone)]
pub struct Config {
    pub database: Database,
    pub redis: Redis,
    pub mqtt: Mqtt,
    /// The fixed name of the queue store's job list.
    pub queue: String,
    /// The dispatcher's idle wait between empty polls, in milliseconds.
    pub poll_interval_ms: u64,
    /// The prefix of every job's publish/subscribe topic; may be empty.
    pub topic_prefix: String,
}

} // verus!
