//! The settings of the logger that ships JSON log records to a Redis list.
use vstd::prelude::*;

verus! {

/// Collects the settings of a Redis logger.
#[derive(Debug)]
pub struct Builder {
    pub redis_host: String,
    pub redis_port: u32,
    pub redis_key: String,
    pub app_name: String,
    /// The `@source_host` of each record; the machine's host name where unset.
    pub hostname: Option<String>,
    /// How long records stay in the list; forever where unset.
    pub ttl_seconds: Option<u64>,
    pub connection_pool_size: u32,
}

/// Whether `b` and `c` hold the same settings.
pub open spec fn same_settings(b: Builder, c: Builder) -> bool {
    &&& b.redis_host@ == c.redis_host@
    &&& b.redis_port == c.redis_port
    &&& b.redis_key@ == c.redis_key@
    &&& b.app_name@ == c.app_name@
    &&& b.hostname == c.hostname
    &&& b.ttl_seconds == c.ttl_seconds
    &&& b.connection_pool_size == c.connection_pool_size
}

impl Builder {
    /// Settings for application `app_name`: Redis on `localhost:6379`, an
    /// empty key, no time to live and a pool of ten connections.
    pub fn new(app_name: &str) -> (r: Builder)
        ensures
            r.app_name@ == app_name@,
            r.redis_host@ == "localhost"@,
            r.redis_port == 6379,
            r.redis_key@ == Seq::<char>::empty(),
            r.hostname is None,
            r.ttl_seconds is None,
            r.connection_pool_size == 10,
    {
        Builder {
            redis_host: "localhost".to_owned(),
            redis_port: 6379,
            redis_key: String::new(),
            app_name: app_name.to_owned(),
            hostname: None,
            ttl_seconds: None,
            connection_pool_size: 10,
        }
    }

    /// Sets the host, port and list key at once.
    pub fn redis(self, host: String, port: u32, key: String) -> (r: Builder)
        ensures
            same_settings(r, Builder { redis_host: host, redis_port: port, redis_key: key, ..self }),
    {
        Builder { redis_host: host, redis_port: port, redis_key: key, ..self }
    }

    /// Sets the key of the list that records are added to.
    pub fn redis_key(self, key: &str) -> (r: Builder)
        ensures
            r.redis_key@ == key@,
            same_settings(r, Builder { redis_key: r.redis_key, ..self }),
    {
        Builder { redis_key: key.to_owned(), ..self }
    }

    /// Sets the Redis host.
    pub fn redis_host(self, host: &str) -> (r: Builder)
        ensures
            r.redis_host@ == host@,
            same_settings(r, Builder { redis_host: r.redis_host, ..self }),
    {
        Builder { redis_host: host.to_owned(), ..self }
    }

    /// Sets the Redis port.
    pub fn redis_port(self, val: u32) -> (r: Builder)
        ensures
            same_settings(r, Builder { redis_port: val, ..self }),
    {
        Builder { redis_port: val, ..self }
    }

    /// Sets how many seconds records stay in the list.
    pub fn ttl(self, seconds: u64) -> (r: Builder)
        ensures
            same_settings(r, Builder { ttl_seconds: Some(seconds), ..self }),
    {
        Builder { ttl_seconds: Some(seconds), ..self }
    }

    /// Sets the `@source_host` of each record.
    pub fn source_host(self, host: &str) -> (r: Builder)
        ensures
            r.hostname matches Some(h) && h@ == host@,
            same_settings(r, Builder { hostname: r.hostname, ..self }),
    {
        Builder { hostname: Some(host.to_owned()), ..self }
    }
}

} // verus!
