//! Releases, download progress and the decisions of a dictionary download.

use vstd::prelude::*;

use crate::pair::Dictionary;
use crate::{dictionary_url, dictionary_url_view, DEFAULT_VERSION};

verus! {

/// The user agent that the downloader sends.
pub const USER_AGENT: &'static str = "wikdict-rs/0.1.0";

/// A WikDict release, named as in the download addresses.
#[derive(Debug, Clone, Copy, PartialEq, Eq)]
pub struct WikDictVersion(&'static str);

impl View for WikDictVersion {
    type V = Seq<char>;

    closed spec fn view(&self) -> Seq<char> {
        self.0@
    }
}

impl WikDictVersion {
    /// The release that this library describes.
    pub fn latest() -> (v: WikDictVersion)
        ensures
            v@ == DEFAULT_VERSION@,
    {
        WikDictVersion(DEFAULT_VERSION)
    }

    /// A release named `value`.
    pub fn new(value: &'static str) -> (v: WikDictVersion)
        ensures
            v@ == value@,
    {
        WikDictVersion(value)
    }

    /// The name of the release.
    pub fn as_str(self) -> (s: &'static str)
        ensures
            s@ == self@,
    {
        self.0
    }
}

/// How much of a dictionary has arrived: the bytes received so far and,
/// when the server announced it, the total size.
#[derive(Debug, Clone, Copy, PartialEq, Eq, Structural)]
pub struct DownloadProgress {
    pub downloaded: u64,
    pub total: Option<u64>,
}

impl Default for DownloadProgress {
    fn default() -> (p: Self)
        ensures
            p.downloaded == 0,
            p.total is None,
    {
        DownloadProgress { downloaded: 0, total: None }
    }
}

/// The `reqwest::Client` that performs the requests.
#[verifier::external_type_specification]
#[verifier::external_body]
pub struct ExClient(reqwest::Client);

/// The builder of a `reqwest::Client`.
#[verifier::external_type_specification]
#[verifier::external_body]
pub struct ExClientBuilder(reqwest::ClientBuilder);

/// The error of a `reqwest` request or client.
#[verifier::external_type_specification]
#[verifier::external_body]
pub struct ExReqwestError(reqwest::Error);

/// `Clone for reqwest::Client`: another handle on the same client (reqwest
/// keeps the client behind a reference count). Nothing is stated of it.
pub assume_specification[ <reqwest::Client as Clone>::clone ](client: &reqwest::Client) -> reqwest::Client;

/// A `reqwest::ClientBuilder`, with the `User-Agent` it has been set to
/// send (none yet, for reqwest's defaults).
pub struct HttpClientBuilder {
    builder: reqwest::ClientBuilder,
    user_agent: Ghost<Option<Seq<char>>>,
}

impl HttpClientBuilder {
    /// The `User-Agent` that the built client will send.
    pub closed spec fn user_agent_view(&self) -> Option<Seq<char>> {
        self.user_agent@
    }
}

/// A `reqwest::Client`, with the `User-Agent` its requests carry.
#[derive(Clone)]
pub struct HttpClient {
    client: reqwest::Client,
    user_agent: Ghost<Option<Seq<char>>>,
}

/// `reqwest::Client::builder`: a builder with reqwest's defaults, which set
/// no `User-Agent` header.
#[verifier::external_body]
fn client_builder() -> (b: HttpClientBuilder)
    ensures
        b.user_agent_view() is None,
{
    HttpClientBuilder { builder: reqwest::Client::builder(), user_agent: Ghost(None) }
}

/// `reqwest::ClientBuilder::user_agent`: the builder, set to send `agent`
/// as the `User-Agent` header.
#[verifier::external_body]
fn with_user_agent(b: HttpClientBuilder, agent: &'static str) -> (r: HttpClientBuilder)
    ensures
        r.user_agent_view() == Some(agent@),
{
    HttpClientBuilder { builder: b.builder.user_agent(agent), user_agent: Ghost(Some(agent@)) }
}

/// `reqwest::ClientBuilder::build`: the client, which sends the headers
/// that the builder was given, or the error that building it met. Whether
/// it succeeds depends on the system (TLS set-up, proxy settings), so that
/// is not stated.
#[verifier::external_body]
fn build_client(b: HttpClientBuilder) -> (r: Result<HttpClient, reqwest::Error>)
    ensures
        r matches Ok(c) ==> c.user_agent_view() == b.user_agent_view(),
{
    match b.builder.build() {
        Ok(client) => Ok(HttpClient { client, user_agent: b.user_agent }),
        Err(e) => Err(e),
    }
}

impl HttpClient {
    /// The `User-Agent` that the client's requests carry.
    pub closed spec fn user_agent_view(&self) -> Option<Seq<char>> {
        self.user_agent@
    }

    /// The client that performs the requests.
    pub closed spec fn client_view(&self) -> reqwest::Client {
        self.client
    }

    /// A client that identifies itself by `user_agent`. Whether it can be
    /// built depends on the system.
    pub fn new(user_agent: &'static str) -> (res: Result<HttpClient, reqwest::Error>)
        ensures
            res matches Ok(c) ==> c.user_agent_view() == Some(user_agent@),
    {
        build_client(with_user_agent(client_builder(), user_agent))
    }

    /// The client that performs the requests.
    pub fn client(&self) -> (c: &reqwest::Client)
        ensures
            *c == self.client_view(),
    {
        &self.client
    }
}

/// Downloads WikDict dictionaries of one release.
#[derive(Clone)]
pub struct WikDictDownloader {
    client: HttpClient,
    version: WikDictVersion,
}

impl WikDictDownloader {
    /// The release that the downloader fetches.
    pub closed spec fn version_view(&self) -> Seq<char> {
        self.version@
    }

    /// The client through which the downloader sends its requests.
    pub closed spec fn client_view(&self) -> reqwest::Client {
        self.client.client_view()
    }

    /// The `User-Agent` that the downloader's requests carry.
    pub closed spec fn user_agent_view(&self) -> Option<Seq<char>> {
        self.client.user_agent_view()
    }

    /// A downloader for the release `version` from the outcome of building
    /// its client: with that client when it was built, else the error that
    /// building it met.
    pub fn from_built_client(
        built: Result<HttpClient, reqwest::Error>,
        version: WikDictVersion,
    ) -> (res: Result<WikDictDownloader, reqwest::Error>)
        ensures
            built matches Ok(c) ==> (res matches Ok(d) && d.client_view() == c.client_view()
                && d.user_agent_view() == c.user_agent_view() && d.version_view() == version@),
            built matches Err(e) ==> res matches Err(f) && f == e,
    {
        match built {
            Ok(client) => Ok(WikDictDownloader { client, version }),
            Err(e) => Err(e),
        }
    }

    /// A downloader for the latest release, with a client that identifies
    /// itself by `USER_AGENT`. Whether the client can be built depends on
    /// the system (TLS set-up, proxy settings).
    pub fn new() -> (res: Result<WikDictDownloader, reqwest::Error>)
        ensures
            res matches Ok(d) ==> d.version_view() == DEFAULT_VERSION@ && d.user_agent_view()
                == Some(USER_AGENT@),
    {
        WikDictDownloader::from_built_client(HttpClient::new(USER_AGENT), WikDictVersion::latest())
    }

    /// A downloader for the release `version`, with a client built as
    /// `new` builds it.
    pub fn with_version(version: WikDictVersion) -> (res: Result<WikDictDownloader, reqwest::Error>)
        ensures
            res matches Ok(d) ==> d.version_view() == version@ && d.user_agent_view() == Some(
                USER_AGENT@,
            ),
    {
        match WikDictDownloader::new() {
            Ok(d) => Ok(WikDictDownloader { client: d.client, version }),
            Err(e) => Err(e),
        }
    }

    /// The release that the downloader fetches.
    pub fn version(&self) -> (v: WikDictVersion)
        ensures
            v@ == self.version_view(),
    {
        self.version
    }

    /// The client that performs the requests.
    pub fn client(&self) -> (c: &reqwest::Client)
        ensures
            *c == self.client_view(),
    {
        self.client.client()
    }

    /// The address from which the downloader fetches `dictionary`.
    pub fn url(&self, dictionary: Dictionary) -> (url: String)
        ensures
            url@ == dictionary_url_view(self.version_view(), dictionary),
    {
        dictionary_url(self.version.as_str(), dictionary)
    }
}

/// The extension of the file into which a download is written before it
/// replaces the destination: the destination's extension followed by
/// `.part`, or `part` when the destination has none (or one that is not
/// UTF-8).
pub open spec fn partial_extension_view(extension: Option<Seq<char>>) -> Seq<char> {
    match extension {
        Some(x) => x + seq!['.', 'p', 'a', 'r', 't'],
        None => seq!['p', 'a', 'r', 't'],
    }
}

/// Returns the extension of the partial download file; see
/// `partial_extension_view`.
pub fn partial_extension(extension: Option<&str>) -> (ext: String)
    ensures
        ext@ == partial_extension_view(match extension {
            Some(x) => Some(x@),
            None => None,
        }),
{
    match extension {
        Some(x) => {
            let mut ext = x.to_owned();
            let suffix = ".part";
            proof {
                reveal_strlit(".part");
            }
            ext.append(suffix);
            ext
        },
        None => {
            proof {
                reveal_strlit("part");
            }
            "part".to_owned()
        },
    }
}

/// Where a download stands.
#[derive(Debug, Clone, Copy, PartialEq, Eq, Structural)]
pub enum DownloadState {
    /// The request was sent; no response has arrived.
    AwaitingResponse,
    /// The body is arriving.
    Receiving { progress: DownloadProgress },
    /// The download ended, with the file in place or with an error.
    Finished,
}

/// What happened during a download.
#[derive(Debug, Clone, Copy, PartialEq, Eq, Structural)]
pub enum DownloadEvent {
    /// The server answered with `status`, announcing `content_length` bytes.
    Responded { status: u16, content_length: Option<u64> },
    /// A chunk of `len` bytes of the body arrived.
    ChunkReceived { len: u64 },
    /// The body ended.
    BodyEnded,
}

/// What the download has to do next.
#[derive(Debug, Clone, Copy, PartialEq, Eq, Structural)]
pub enum DownloadAction {
    /// Give up: the release has no such dictionary.
    ReportNotFound,
    /// Fail on any other error status, else create the partial file and
    /// read the body.
    CheckStatusAndReceive,
    /// Append the chunk to the partial file, then report `progress`.
    WriteChunk { progress: DownloadProgress },
    /// Flush the partial file and move it over the destination.
    Complete,
}

/// The HTTP status of a missing resource.
pub const NOT_FOUND: u16 = 404;

/// Whether an event can happen in a state: the response comes first, the
/// chunks and the end of the body after it, and the bytes received never
/// exceed what a `u64` counts.
pub open spec fn event_fits(state: DownloadState, event: DownloadEvent) -> bool {
    match (state, event) {
        (DownloadState::AwaitingResponse, DownloadEvent::Responded { .. }) => true,
        (DownloadState::Receiving { progress }, DownloadEvent::ChunkReceived { len }) => progress.downloaded
            + len <= u64::MAX,
        (DownloadState::Receiving { .. }, DownloadEvent::BodyEnded) => true,
        _ => false,
    }
}

/// The next state and action of a download.
pub open spec fn download_step_view(state: DownloadState, event: DownloadEvent) -> (
    DownloadState,
    DownloadAction,
) {
    match (state, event) {
        (DownloadState::Receiving { progress }, DownloadEvent::ChunkReceived { len }) => {
            let p = DownloadProgress {
                downloaded: (progress.downloaded + len) as u64,
                total: progress.total,
            };
            (DownloadState::Receiving { progress: p }, DownloadAction::WriteChunk { progress: p })
        },
        (DownloadState::Receiving { .. }, DownloadEvent::BodyEnded) => (
            DownloadState::Finished,
            DownloadAction::Complete,
        ),
        (_, DownloadEvent::Responded { status, content_length }) => if status == NOT_FOUND {
            (DownloadState::Finished, DownloadAction::ReportNotFound)
        } else {
            (
                DownloadState::Receiving {
                    progress: DownloadProgress { downloaded: 0, total: content_length },
                },
                DownloadAction::CheckStatusAndReceive,
            )
        },
        _ => (DownloadState::Finished, DownloadAction::Complete),
    }
}

/// Decides the next state and action of a download; see
/// `download_step_view`.
pub fn download_step(state: DownloadState, event: DownloadEvent) -> (r: (DownloadState, DownloadAction))
    requires
        event_fits(state, event),
    ensures
        r == download_step_view(state, event),
{
    match event {
        DownloadEvent::Responded { status, content_length } => {
            if status == NOT_FOUND {
                (DownloadState::Finished, DownloadAction::ReportNotFound)
            } else {
                (
                    DownloadState::Receiving {
                        progress: DownloadProgress { downloaded: 0, total: content_length },
                    },
                    DownloadAction::CheckStatusAndReceive,
                )
            }
        },
        DownloadEvent::ChunkReceived { len } => match state {
            DownloadState::Receiving { progress } => {
                let p = DownloadProgress {
                    downloaded: progress.downloaded + len,
                    total: progress.total,
                };
                (DownloadState::Receiving { progress: p }, DownloadAction::WriteChunk { progress: p })
            },
            _ => (DownloadState::Finished, DownloadAction::Complete),
        },
        DownloadEvent::BodyEnded => (DownloadState::Finished, DownloadAction::Complete),
    }
}


/// The state after a run of events, each taken by `download_step_view`.
pub open spec fn download_run(state: DownloadState, events: Seq<DownloadEvent>) -> DownloadState
    decreases events.len(),
{
    if events.len() == 0 {
        state
    } else {
        download_run(download_step_view(state, events[0]).0, events.drop_first())
    }
}

/// The total length of a run of chunks.
pub open spec fn chunk_total(lens: Seq<u64>) -> int
    decreases lens.len(),
{
    if lens.len() == 0 {
        0
    } else {
        lens[0] + chunk_total(lens.drop_first())
    }
}

/// The chunk events of some chunk lengths, in order.
pub open spec fn chunk_events(lens: Seq<u64>) -> Seq<DownloadEvent> {
    lens.map_values(|len: u64| DownloadEvent::ChunkReceived { len })
}

/// While the body arrives, the bytes received grow by the length of each
/// chunk and the announced total stays as it was.
pub proof fn lemma_chunks_accumulate(progress: DownloadProgress, lens: Seq<u64>)
    requires
        progress.downloaded + chunk_total(lens) <= u64::MAX,
    ensures
        download_run((DownloadState::Receiving { progress }), chunk_events(lens)) == (
        DownloadState::Receiving {
            progress: DownloadProgress {
                downloaded: (progress.downloaded + chunk_total(lens)) as u64,
                total: progress.total,
            },
        }),
    decreases lens.len(),
{
    if lens.len() > 0 {
        let p = DownloadProgress {
            downloaded: (progress.downloaded + lens[0]) as u64,
            total: progress.total,
        };
        lemma_chunk_total_nonneg(lens.drop_first());
        assert(chunk_events(lens).drop_first() =~= chunk_events(lens.drop_first()));
        lemma_chunks_accumulate(p, lens.drop_first());
    } else {
        assert(chunk_events(lens) =~= Seq::<DownloadEvent>::empty());
    }
}

proof fn lemma_chunk_total_nonneg(lens: Seq<u64>)
    ensures
        chunk_total(lens) >= 0,
    decreases lens.len(),
{
    if lens.len() > 0 {
        lemma_chunk_total_nonneg(lens.drop_first());
    }
}

} // verus!
