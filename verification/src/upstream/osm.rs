//! Conditional requests to the upstream tile servers, spread over them in turn.

use vstd::prelude::*;
use vstd::string::StringExecFns;
use std::sync::atomic::{AtomicUsize, Ordering};
use std::sync::Arc;
use std::time::Duration;
use reqwest::Client;
use crate::config::Config;
use crate::error::AppError;
use crate::text::{slice_text_of, text_of};
use crate::types::{path_text, TileData, TileKey};

verus! {

/// reqwest's `Client`, as a value to hold and hand on.
#[verifier::external_type_specification]
#[verifier::external_body]
pub struct ExClient(Client);

/// reqwest's `Error`, as a value to hold and hand on.
#[verifier::external_type_specification]
#[verifier::external_body]
pub struct ExTransportError(reqwest::Error);

/// How many idle connections the pool keeps for one host.
pub const POOL_MAX_IDLE_PER_HOST: usize = 10;

/// After how many seconds an idle connection leaves the pool.
pub const POOL_IDLE_TIMEOUT_SECS: u64 = 90;

/// What a fetch brought back.
#[derive(Debug)]
pub enum FetchResult {
    /// A payload, with the validator upstream sent along.
    Data(TileData),
    /// Upstream confirmed the validator that the request carried.
    NotModified,
}

/// What an upstream status asks the fetcher to do with the response.
#[derive(Debug, Clone, Copy, PartialEq, Eq, Structural)]
pub enum Reply {
    /// `200`: take the `ETag` header and the body.
    Payload,
    /// `304`: the cached payload is current.
    NotModified,
}

/// A request to send upstream.
#[derive(Debug, PartialEq, Eq)]
pub struct UpstreamRequest {
    pub url: String,
    /// The value of the `If-None-Match` header, where the request is conditional.
    pub if_none_match: Option<String>,
}

/// The hosts that serve tiles, in the order in which requests go round them.
pub open spec fn upstream_hosts() -> Seq<Seq<char>> {
    seq![
        "a.tile.openstreetmap.org"@,
        "b.tile.openstreetmap.org"@,
        "c.tile.openstreetmap.org"@,
    ]
}

/// The address of the tile `(z, x, y)` on `host`.
pub open spec fn url_text(host: Seq<char>, z: u8, x: u32, y: u32) -> Seq<char> {
    "https://"@ + host + seq!['/'] + path_text(z, x, y, seq!['p', 'n', 'g'])
}

/// What upstream's answer with `status` means.
pub open spec fn classified(status: u16) -> Result<Reply, AppError> {
    if status == 200 {
        Ok(Reply::Payload)
    } else if status == 304 {
        Ok(Reply::NotModified)
    } else if status == 404 {
        Err(AppError::NotFound)
    } else {
        Err(AppError::UpstreamStatus(status))
    }
}

/// What a client was built with: its user agent, the total timeout of a
/// request in seconds, how many idle connections it keeps for one host, and
/// after how many seconds an idle connection leaves the pool.
pub uninterp spec fn client_settings(client: Client) -> (Seq<char>, u64, usize, u64);

/// The settings of the client that serves `config`: the configured user
/// agent and timeout, and the bounds of the idle pool.
pub open spec fn settings_for(config: Config) -> (Seq<char>, u64, usize, u64) {
    (
        config.user_agent@,
        config.upstream_timeout_secs,
        POOL_MAX_IDLE_PER_HOST,
        POOL_IDLE_TIMEOUT_SECS,
    )
}

/// The builder of reqwest's `Client`: sets the user agent, the total
/// timeout of a request and the two bounds of the idle pool, then builds.
/// Whether it succeeds is the builder's own matter; a client that it gives
/// was built with the four settings handed in.
#[verifier::external_body]
fn build_client(
    user_agent: &str,
    timeout_secs: u64,
    pool_max_idle_per_host: usize,
    pool_idle_timeout_secs: u64,
) -> (built: Result<Client, reqwest::Error>)
    ensures
        built matches Ok(client) ==> client_settings(client) == (
            user_agent@,
            timeout_secs,
            pool_max_idle_per_host,
            pool_idle_timeout_secs,
        ),
{
    Client::builder()
        .user_agent(user_agent)
        .timeout(Duration::from_secs(timeout_secs))
        .pool_max_idle_per_host(pool_max_idle_per_host)
        .pool_idle_timeout(Duration::from_secs(pool_idle_timeout_secs))
        .build()
}

/// The text that reqwest's `Error` displays as.
#[verifier::external_body]
fn describe(error: &reqwest::Error) -> String {
    format!("{}", error)
}

/// Fetches tiles from the upstream servers.
pub struct OsmFetcher {
    client: Client,
    servers: Vec<&'static str>,
    current_server: Arc<AtomicUsize>,
}

impl OsmFetcher {
    #[verifier::type_invariant]
    spec fn has_servers(self) -> bool {
        self.servers@.len() > 0
    }

    /// The hosts that this fetcher goes round.
    pub closed spec fn hosts(&self) -> Seq<Seq<char>> {
        self.servers@.map_values(|host: &'static str| host@)
    }

    /// The HTTP client that this fetcher sends with.
    pub closed spec fn http_client(&self) -> Client {
        self.client
    }

    /// The host whose turn it is at `turn`: the hosts are taken in order, round and round.
    pub open spec fn host_at(&self, turn: usize) -> Seq<char> {
        self.hosts()[turn as int % self.hosts().len() as int]
    }

    /// Makes a fetcher for the upstream hosts that sends with `client`.
    pub fn with_client(client: Client) -> (fetcher: Self)
        ensures
            fetcher.hosts() == upstream_hosts(),
            fetcher.http_client() == client,
    {
        let servers = vec![
            "a.tile.openstreetmap.org",
            "b.tile.openstreetmap.org",
            "c.tile.openstreetmap.org",
        ];
        let fetcher = OsmFetcher { client, servers, current_server: Arc::new(AtomicUsize::new(0)) };
        fetcher
    }

    /// Makes a fetcher for the upstream hosts, with an HTTP client that is
    /// built with the settings that `config` asks for: its user agent, its
    /// timeout, and the bounds of the idle pool. Fails with `Upstream` where
    /// the client cannot be built.
    pub fn new(config: &Config) -> (r: Result<Self, AppError>)
        ensures
            r matches Ok(fetcher) ==> fetcher.hosts() == upstream_hosts(),
            r matches Ok(fetcher) ==> client_settings(fetcher.http_client()) == settings_for(
                *config,
            ),
            r matches Err(e) ==> e is Upstream,
    {
        match build_client(
            config.user_agent.as_str(),
            config.upstream_timeout_secs,
            POOL_MAX_IDLE_PER_HOST,
            POOL_IDLE_TIMEOUT_SECS,
        ) {
            Ok(client) => Ok(OsmFetcher::with_client(client)),
            Err(e) => Err(AppError::Upstream(describe(&e))),
        }
    }

    /// The HTTP client to send requests with.
    pub fn client(&self) -> (client: &Client)
        ensures
            *client == self.http_client(),
    {
        &self.client
    }

    /// Takes the next turn of the counter that all requests share.
    fn next_turn(&self) -> usize {
        self.current_server.fetch_add(1, Ordering::Relaxed)
    }

    /// The host whose turn it is at `turn`.
    pub fn server_at(&self, turn: usize) -> (host: &'static str)
        ensures
            host@ == self.host_at(turn),
            self.hosts().contains(host@),
    {
        proof {
            use_type_invariant(self);
        }
        self.servers[turn % self.servers.len()]
    }

    /// The request that asks the host of `turn` for `key`: a `GET` of the
    /// tile's address on that host, conditional on `etag` where one is given.
    pub fn request_at(&self, turn: usize, key: &TileKey, etag: Option<&str>) -> (request:
        UpstreamRequest)
        ensures
            request.url@ == url_text(self.host_at(turn), key.z, key.x, key.y),
            text_of(request.if_none_match) == slice_text_of(etag),
    {
        let server = self.server_at(turn);
        let url = String::from_str("https://").concat(server).concat("/").concat(
            key.to_path().as_str(),
        );
        proof {
            reveal_strlit("/");
        }
        let if_none_match = match etag {
            Some(validator) => Some(String::from_str(validator)),
            None => None,
        };
        UpstreamRequest { url, if_none_match }
    }

    /// The request that asks upstream for `key`, on the host whose turn it
    /// is: each call takes the next turn, so the requests go round the hosts.
    pub fn request(&self, key: &TileKey, etag: Option<&str>) -> (request: UpstreamRequest)
        ensures
            exists|turn: usize| #[trigger]
                url_text(self.host_at(turn), key.z, key.x, key.y) == request.url@,
            text_of(request.if_none_match) == slice_text_of(etag),
    {
        let turn = self.next_turn();
        self.request_at(turn, key, etag)
    }

    /// Reads upstream's status: `200` brings a payload, `304` confirms the
    /// validator, `404` means that there is no such tile, and any other
    /// status is a failure that carries the status.
    pub fn classify(status: u16) -> (r: Result<Reply, AppError>)
        ensures
            r == classified(status),
    {
        if status == 200 {
            Ok(Reply::Payload)
        } else if status == 304 {
            Ok(Reply::NotModified)
        } else if status == 404 {
            Err(AppError::NotFound)
        } else {
            Err(AppError::UpstreamStatus(status))
        }
    }
}

/// Round robin is fair: of as many turns in a row as there are hosts, one
/// falls to each host.
pub proof fn lemma_turns_reach_every_host(hosts: int, first: int, host: int)
    requires
        0 <= host < hosts,
        0 <= first,
    ensures
        exists|k: int| 0 <= k < hosts && #[trigger] ((first + k) % hosts) == host,
{
    let k = if host >= first % hosts {
        host - first % hosts
    } else {
        host - first % hosts + hosts
    };
    assert((first + k) % hosts == host) by (nonlinear_arith)
        requires
            0 <= host < hosts,
            0 <= first,
            k == if host >= first % hosts {
                host - first % hosts
            } else {
                host - first % hosts + hosts
            },
    ;
}

} // verus!
