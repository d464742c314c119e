//! The checked store: the clients that a configuration describes, and an
//! open connection that is only handed out once a capability check over it
//! has passed, with the handles that share it.

use vstd::prelude::*;
use crate::capability::{stage_ok, CapabilityCheck, Stage};
use crate::catalog::catalog;
use crate::error::CaptchaError;

verus! {

#[verifier::external_type_specification]
#[verifier::external_body]
pub struct ExClient(redis::Client);

#[verifier::external_type_specification]
#[verifier::external_body]
pub struct ExClusterClient(redis::cluster::ClusterClient);

#[verifier::external_type_specification]
#[verifier::external_body]
pub struct ExMultiplexedConnection(redis::aio::MultiplexedConnection);

#[verifier::external_type_specification]
#[verifier::external_body]
#[verifier::reject_recursive_types(C)]
pub struct ExClusterConnection<C>(redis::cluster_async::ClusterConnection<C>);

/// Whether the Redis client accepts a connection URL.
pub uninterp spec fn url_accepted(url: Seq<char>) -> bool;

/// Whether the Redis cluster client accepts a list of node URLs.
pub uninterp spec fn nodes_accepted(nodes: Seq<Seq<char>>) -> bool;

/// Relies on redis::Client::open: it parses the URL into connection details,
/// without connecting, and fails on a URL that it does not accept.
#[verifier::external_body]
fn open_client(url: &str) -> (r: Result<redis::Client, redis::RedisError>)
    ensures
        r is Ok <==> url_accepted(url@),
{
    redis::Client::open(url)
}

/// Relies on redis::cluster::ClusterClient::new: it parses the node URLs,
/// without connecting, and fails on an empty list or on nodes that it does
/// not accept.
#[verifier::external_body]
fn open_cluster(nodes: &Vec<String>) -> (r: Result<redis::cluster::ClusterClient, redis::RedisError>)
    ensures
        r is Ok <==> nodes_accepted(nodes@.map_values(|s: String| s@)),
        nodes@.len() == 0 ==> r is Err,
{
    redis::cluster::ClusterClient::new(nodes.clone())
}

/// Relies on the derived Clone of redis::aio::MultiplexedConnection: the
/// copy is a handle on the same connection, as an `Arc` clone is.
#[verifier::external_body]
fn share_multiplexed(c: &redis::aio::MultiplexedConnection) -> (r: redis::aio::MultiplexedConnection)
    ensures
        r == *c,
{
    c.clone()
}

/// Relies on the derived Clone of redis::cluster_async::ClusterConnection:
/// the copy is a handle on the same connection, as an `Arc` clone is.
#[verifier::external_body]
fn share_cluster(c: &redis::cluster_async::ClusterConnection) -> (r:
    redis::cluster_async::ClusterConnection)
    ensures
        r == *c,
{
    c.clone()
}

/// Where the store is: one instance, or the initial nodes of a cluster.
#[derive(Debug, Clone)]
pub enum RedisConfig {
    Single(String),
    Cluster(Vec<String>),
}

/// The Redis client accepts the configuration.
pub open spec fn config_accepted(config: RedisConfig) -> bool {
    match config {
        RedisConfig::Single(url) => url_accepted(url@),
        RedisConfig::Cluster(nodes) => nodes_accepted(nodes@.map_values(|s: String| s@)),
    }
}

/// The client of a store, after its configuration.
pub enum Pool {
    Single(redis::Client),
    Cluster(redis::cluster::ClusterClient),
}

impl Pool {
    /// A client for the store that the configuration describes.
    pub fn open(config: &RedisConfig) -> (r: Result<Pool, CaptchaError>)
        ensures
            r is Ok <==> config_accepted(*config),
            r matches Ok(p) ==> (p is Single <==> config is Single),
            r is Err ==> r matches Err(CaptchaError::StoreError(_)),
    {
        match config {
            RedisConfig::Single(url) => match open_client(url.as_str()) {
                Ok(c) => Ok(Pool::Single(c)),
                Err(e) => Err(CaptchaError::StoreError(e)),
            },
            RedisConfig::Cluster(nodes) => match open_cluster(nodes) {
                Ok(c) => Ok(Pool::Cluster(c)),
                Err(e) => Err(CaptchaError::StoreError(e)),
            },
        }
    }

}

/// An open connection to the store, shared by every handle leased from the
/// checked store; the connection keeps each command's request and reply
/// together.
pub enum Link {
    Single(redis::aio::MultiplexedConnection),
    Cluster(redis::cluster_async::ClusterConnection),
}

impl Link {
    /// Another handle on the same connection.
    pub fn share(&self) -> (r: Link)
        ensures
            r == *self,
    {
        match self {
            Link::Single(c) => Link::Single(share_multiplexed(c)),
            Link::Cluster(c) => Link::Cluster(share_cluster(c)),
        }
    }
}

/// Redis instance with the mCaptcha cache module loaded.
pub struct MCaptchaRedis {
    link: Link,
}

/// Connection to a Redis instance with the mCaptcha cache module loaded.
/// Handles come only from [`MCaptchaRedis::get_client`], so each one sends
/// over a connection whose capability check has passed.
pub struct MCaptchaRedisConnection {
    link: Link,
}

impl MCaptchaRedisConnection {
    /// The connection that the handle sends over.
    pub closed spec fn link(&self) -> Link {
        self.link
    }

    /// The connection that commands are sent over.
    pub fn client(&self) -> (r: &Link)
        ensures
            *r == self.link(),
    {
        &self.link
    }
}

impl MCaptchaRedis {
    /// The connection that handles share.
    pub closed spec fn link(&self) -> Link {
        self.link
    }

    /// The checked instance, once the capability check that ran over `link`
    /// has finished; its failure, if it failed.
    pub fn from_checked(link: Link, check: &CapabilityCheck) -> (r: Result<
        MCaptchaRedis,
        CaptchaError,
    >)
        requires
            check.stage() is Passed || check.stage() is NotLoaded || check.stage() is CommandMissing,
            stage_ok(check.stage()),
        ensures
            r is Ok <==> check.stage() is Passed,
            r matches Ok(m) ==> m.link() == link,
            check.stage() is NotLoaded ==> r matches Err(CaptchaError::ExtensionNotLoaded),
            check.stage() matches Stage::CommandMissing(i) ==> (r matches Err(
                CaptchaError::ExtensionCommandMissing(name),
            ) && name@ == catalog()[i as int]),
    {
        match check.outcome() {
            Some(Ok(())) => Ok(MCaptchaRedis { link }),
            Some(Err(e)) => Err(e),
            None => Err(CaptchaError::ExtensionNotLoaded),
        }
    }

    /// Get connection to a Redis instance with the mCaptcha cache module
    /// loaded: a handle on the same connection, without a new one.
    pub fn get_client(&self) -> (r: MCaptchaRedisConnection)
        ensures
            r.link() == self.link(),
    {
        MCaptchaRedisConnection { link: self.link.share() }
    }
}

} // verus!
