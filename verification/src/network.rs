//! The decisions of the network client: which user agent a request carries,
//! and whether a proxy that claims to lead through Tor has shown that it
//! does. Sending the requests is left to the caller.

use vstd::prelude::*;
use crate::errors::{NetworkError, NetworkErrorKind};
use crate::text::{contains, occurs_in};
use crate::names_view;

verus! {

/// How the body of a response is to be read.
#[derive(Debug, Clone, Copy, PartialEq, Eq)]
pub enum SourceType {
    String,
    Json,
}

/// What has to happen before the client may be used.
#[derive(Debug, Clone, Copy, PartialEq, Eq)]
pub enum ProxyCheck {
    /// Nothing: there is no proxy, or it does not claim to lead through Tor.
    NotNeeded,
    /// The Tor check has to be fetched through the proxy and its answer
    /// examined.
    ProbeRequired,
}

/// The mark in the answer of the Tor check that tells a Tor connection.
pub open spec fn tor_marker() -> Seq<char> {
    "\"IsTor\":true"@
}

/// A random index below `bound`, drawn with `fastrand::usize`. Nothing is
/// known of the index but its range.
#[verifier::external_body]
pub(crate) fn random_below(bound: usize) -> (index: usize)
    requires
        bound > 0,
    ensures
        index < bound,
{
    fastrand::usize(..bound)
}

/// The user agents among which requests rotate.
#[derive(Debug)]
pub struct NetworkHandler {
    user_agents: Vec<String>,
}

impl NetworkHandler {
    /// The pool of user agents.
    pub closed spec fn pool(self) -> Seq<Seq<char>> {
        names_view(self.user_agents@)
    }

    /// A client that rotates among the given user agents.
    pub fn new(user_agents: Vec<String>) -> (handler: NetworkHandler)
        ensures
            handler.pool() == names_view(user_agents@),
    {
        NetworkHandler { user_agents }
    }

    /// The address of the Tor check.
    pub fn tor_check_url() -> (url: String)
        ensures
            url@ == "https://check.torproject.org/api/ip"@,
    {
        "https://check.torproject.org/api/ip".to_owned()
    }

    /// Whether the client has to be checked before use: only where a proxy
    /// is configured and said to lead through Tor.
    pub fn proxy_check(proxy_url: Option<&str>, is_tor: Option<bool>) -> (check: ProxyCheck)
        ensures
            check is ProbeRequired == (proxy_url is Some && is_tor == Some(true)),
    {
        match proxy_url {
            Some(_) => match is_tor {
                Some(true) => ProxyCheck::ProbeRequired,
                _ => ProxyCheck::NotNeeded,
            },
            None => ProxyCheck::NotNeeded,
        }
    }

    /// Whether the answer of the Tor check tells a Tor connection.
    pub fn check_tor(body: &str) -> (is_tor: bool)
        ensures
            is_tor == occurs_in(tor_marker(), body@),
    {
        contains(body, "\"IsTor\":true")
    }

    /// Examines the answer of the Tor check that was fetched through the
    /// proxy: without the mark of a Tor connection the proxy is refused.
    pub fn verify_proxy(proxy_url: &str, body: &str) -> (r: Result<(), NetworkError>)
        ensures
            r is Ok == occurs_in(tor_marker(), body@),
            r is Err ==> r->Err_0@ == NetworkErrorKind::ProxyError(proxy_url@),
    {
        if NetworkHandler::check_tor(body) {
            Ok(())
        } else {
            Err(NetworkError::ProxyError(proxy_url.to_owned()))
        }
    }

    /// The user agent at `index` of the pool.
    pub fn user_agent_at(&self, index: usize) -> (agent: &String)
        requires
            index < self.pool().len(),
        ensures
            agent@ == self.pool()[index as int],
    {
        &self.user_agents[index]
    }

    /// The user agent for the next request: one of the pool, drawn at
    /// random, or `None` where the pool is empty.
    pub fn pick_user_agent(&self) -> (agent: Option<&String>)
        ensures
            agent is Some == (self.pool().len() > 0),
            agent is Some ==> self.pool().contains(agent->0@),
    {
        if self.user_agents.len() == 0 {
            None
        } else {
            let index = random_below(self.user_agents.len());
            let agent = self.user_agent_at(index);
            assert(self.pool()[index as int] == agent@);
            Some(agent)
        }
    }
}

} // verus!
