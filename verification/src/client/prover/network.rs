use vstd::prelude::*;

use crate::client::prover::ClientWitness;
use crate::error::DenseZKError;
use crate::prover::local::ZKProof;
use crate::rel1cs::types::PublicInputs;

verus! {

/// Where the remote prover network lives and how hard to try reaching it.
#[derive(Debug)]
pub struct ProverNetworkConfig {
    pub base_url: String,
    pub max_concurrency: u32,
    pub timeout_secs: u64,
    pub retry_count: u32,
    pub retry_backoff_ms: u64,
}

impl ProverNetworkConfig {
    /// The documented defaults: a local server, 4 concurrent requests,
    /// 30 s timeout, 3 attempts, 100 ms linear backoff.
    pub open spec fn is_default(&self) -> bool {
        &&& self.base_url@ == "http://localhost:8080"@
        &&& self.max_concurrency == 4
        &&& self.timeout_secs == 30
        &&& self.retry_count == 3
        &&& self.retry_backoff_ms == 100
    }
}

impl Default for ProverNetworkConfig {
    fn default() -> (c: Self)
        ensures
            c.is_default(),
    {
        ProverNetworkConfig {
            base_url: String::from_str("http://localhost:8080"),
            max_concurrency: 4,
            timeout_secs: 30,
            retry_count: 3,
            retry_backoff_ms: 100,
        }
    }
}

impl Clone for ProverNetworkConfig {
    fn clone(&self) -> (c: Self)
        ensures
            c == *self,
    {
        ProverNetworkConfig {
            base_url: self.base_url.clone(),
            max_concurrency: self.max_concurrency,
            timeout_secs: self.timeout_secs,
            retry_count: self.retry_count,
            retry_backoff_ms: self.retry_backoff_ms,
        }
    }
}

/// The body of a proving request sent to the network.
#[derive(Debug)]
pub struct ProveRequest {
    pub sender_id: u64,
    pub receiver_id: u64,
    pub weight: u64,
    pub graph_root: String,
    pub threshold: u64,
}

impl ProveRequest {
    /// The request that asks the network to prove `witness` against
    /// `public_inputs`.
    pub fn new(witness: ClientWitness, public_inputs: PublicInputs) -> (r: ProveRequest)
        ensures
            r.sender_id == witness.edge.sender_id,
            r.receiver_id == witness.edge.receiver_id,
            r.weight == witness.edge.weight,
            r.graph_root == public_inputs.graph_root,
            r.threshold == public_inputs.threshold,
    {
        ProveRequest {
            sender_id: witness.edge.sender_id,
            receiver_id: witness.edge.receiver_id,
            weight: witness.edge.weight,
            graph_root: public_inputs.graph_root,
            threshold: public_inputs.threshold,
        }
    }
}

impl Clone for ProveRequest {
    fn clone(&self) -> (r: Self)
        ensures
            r == *self,
    {
        ProveRequest {
            sender_id: self.sender_id,
            receiver_id: self.receiver_id,
            weight: self.weight,
            graph_root: self.graph_root.clone(),
            threshold: self.threshold,
        }
    }
}

/// The body of a successful answer of the network.
#[derive(Debug)]
pub struct ProveResponse {
    pub proof_bytes: Vec<u8>,
    pub root_commitment: String,
}

impl ProveResponse {
    /// The proof that the answer carries.
    pub fn into_proof(self) -> (p: ZKProof)
        ensures
            p.proof_bytes@ == self.proof_bytes@,
            p.root_commitment == self.root_commitment,
    {
        ZKProof { proof_bytes: self.proof_bytes, root_commitment: self.root_commitment }
    }
}

/// The body of a refusal of the network.
#[derive(Debug)]
pub struct ErrorResponse {
    pub error: String,
}

/// What came back from one proving request.
#[derive(Debug)]
pub enum ProveReply {
    /// No answer: the client could not be built, or sending failed; the
    /// transport's error text.
    Unsent(String),
    /// A non-success status, with the refusal body when it could be read.
    Refused(Option<ErrorResponse>),
    /// A success status whose body could not be read; the decoder's text.
    Unreadable(String),
    /// A success status with its decoded body.
    Delivered(ProveResponse),
}

/// The text used when a refusal carries no readable reason.
pub open spec fn unknown_error_text() -> Seq<char> {
    "Unknown error"@
}

/// Turns what came back from the network into the request's result: every
/// failure becomes a `NetworkError` carrying its reason ("Unknown error" for
/// an unreadable refusal), and a decoded answer becomes the proof.
pub fn reply_outcome(reply: ProveReply) -> (r: Result<ZKProof, DenseZKError>)
    ensures
        r is Ok <==> reply is Delivered,
        reply matches ProveReply::Delivered(resp) ==> r matches Ok(p) && p.proof_bytes@
            == resp.proof_bytes@ && p.root_commitment == resp.root_commitment,
        reply matches ProveReply::Unsent(m) ==> r == Err::<ZKProof, _>(DenseZKError::NetworkError(m)),
        reply matches ProveReply::Unreadable(m) ==> r == Err::<ZKProof, _>(
            DenseZKError::NetworkError(m),
        ),
        reply matches ProveReply::Refused(Some(body)) ==> r == Err::<ZKProof, _>(
            DenseZKError::NetworkError(body.error),
        ),
        reply matches ProveReply::Refused(None) ==> r matches Err(DenseZKError::NetworkError(m))
            && m@ == unknown_error_text(),
{
    match reply {
        ProveReply::Unsent(m) => Err(DenseZKError::NetworkError(m)),
        ProveReply::Refused(Some(body)) => Err(DenseZKError::NetworkError(body.error)),
        ProveReply::Refused(None) => Err(DenseZKError::NetworkError(String::from_str("Unknown error"))),
        ProveReply::Unreadable(m) => Err(DenseZKError::NetworkError(m)),
        ProveReply::Delivered(resp) => Ok(resp.into_proof()),
    }
}

/// The proving endpoint of a server: its base URL followed by `/prove`.
pub fn prove_endpoint(base_url: &str) -> (url: String)
    ensures
        url@ == base_url@ + "/prove"@,
{
    let mut url = String::from_str(base_url);
    url.append("/prove");
    url
}

/// Client for a remote prover network that proves one request at a time
/// per calling thread.
pub struct ProverNetworkClientSync {
    config: ProverNetworkConfig,
}

impl ProverNetworkClientSync {
    /// The configuration the client was built with.
    pub closed spec fn spec_config(&self) -> ProverNetworkConfig {
        self.config
    }

    /// A client for `config`; building one cannot fail.
    pub fn new(config: ProverNetworkConfig) -> (r: Result<Self, DenseZKError>)
        ensures
            r is Ok,
            r matches Ok(c) ==> c.spec_config() == config,
    {
        Ok(ProverNetworkClientSync { config })
    }

    /// A client for the default configuration.
    pub fn with_defaults() -> (r: Result<Self, DenseZKError>)
        ensures
            r is Ok,
            r matches Ok(c) ==> c.spec_config().is_default(),
    {
        Self::new(ProverNetworkConfig::default())
    }

    pub fn config(&self) -> (c: &ProverNetworkConfig)
        ensures
            *c == self.spec_config(),
    {
        &self.config
    }
}

impl Clone for ProverNetworkClientSync {
    fn clone(&self) -> (c: Self)
        ensures
            c.spec_config() == self.spec_config(),
    {
        ProverNetworkClientSync { config: self.config.clone() }
    }
}

#[verifier::external_type_specification]
#[verifier::external_body]
pub struct ExHttpClient(reqwest::Client);

#[verifier::external_type_specification]
#[verifier::external_body]
pub struct ExHttpError(reqwest::Error);

#[verifier::external_type_specification]
#[verifier::external_body]
pub struct ExSemaphore(tokio::sync::Semaphore);

/// The request timeout, in seconds, that an HTTP client was configured with.
pub uninterp spec fn client_timeout_secs(c: reqwest::Client) -> u64;

/// The number of permits a semaphore was created with.
pub uninterp spec fn semaphore_made_with(s: tokio::sync::Semaphore) -> nat;

/// Calls `reqwest::Client::builder()`, sets `timeout` to
/// `Duration::from_secs(timeout_secs)` and calls `build`. Claimed: the
/// client is built, and it carries that timeout. With the features this
/// crate enables (no TLS backend, no HTTP/3, no alternative resolver),
/// `ClientBuilder::build` fails only when a setter recorded an error in the
/// builder's configuration, and `timeout` records none.
#[verifier::external_body]
fn build_http_client(timeout_secs: u64) -> (r: Result<reqwest::Client, reqwest::Error>)
    ensures
        r is Ok,
        r matches Ok(c) ==> client_timeout_secs(c) == timeout_secs,
{
    reqwest::Client::builder().timeout(std::time::Duration::from_secs(timeout_secs)).build()
}

/// Calls `reqwest::Client::clone` (derived; it clones the `Arc` of the
/// shared client state). Claimed: the handle shares the original's
/// configuration, its timeout among it.
#[verifier::external_body]
fn clone_http_client(client: &reqwest::Client) -> (r: reqwest::Client)
    ensures
        client_timeout_secs(r) == client_timeout_secs(*client),
{
    client.clone()
}

/// Renders a `reqwest::Error` with its `Display` impl. Nothing is claimed
/// of the text, which depends on the error's inner state.
#[verifier::external_body]
fn http_error_text(e: &reqwest::Error) -> (r: String) {
    e.to_string()
}

/// Calls `tokio::sync::Semaphore::new(permits)`. It panics above
/// `Semaphore::MAX_PERMITS`, which is `usize::MAX >> 3`; the `requires` keeps
/// to that bound. Claimed: the semaphore was created with `permits`
/// permits, shared with no other semaphore.
#[verifier::external_body]
fn new_semaphore(permits: usize) -> (r: tokio::sync::Semaphore)
    requires
        permits <= usize::MAX / 8,
    ensures
        semaphore_made_with(r) == permits,
{
    tokio::sync::Semaphore::new(permits)
}

/// Client for a remote prover network on the tokio runtime; a semaphore
/// with `max_concurrency` permits bounds the requests in flight.
pub struct ProverNetworkClientAsync {
    config: ProverNetworkConfig,
    client: reqwest::Client,
    semaphore: tokio::sync::Semaphore,
}

impl ProverNetworkClientAsync {
    /// The semaphore of a client can be rebuilt with `max_concurrency` permits.
    #[verifier::type_invariant]
    spec fn permits_fit(self) -> bool {
        self.config.max_concurrency <= usize::MAX / 8
    }

    /// The configuration the client was built with.
    pub closed spec fn spec_config(&self) -> ProverNetworkConfig {
        self.config
    }

    /// A client for `config`: an HTTP client with its timeout and a
    /// semaphore with `max_concurrency` permits. It fails, with the HTTP
    /// library's text as a `NetworkError`, exactly when the HTTP client
    /// cannot be built, which the HTTP library's build here never refuses.
    pub fn new(config: ProverNetworkConfig) -> (r: Result<Self, DenseZKError>)
        requires
            config.max_concurrency <= usize::MAX / 8,
        ensures
            r is Ok,
            r matches Ok(c) ==> c.spec_config() == config,
            r matches Ok(c) ==> client_timeout_secs(c.spec_http_client()) == config.timeout_secs,
            r matches Ok(c) ==> semaphore_made_with(c.spec_permits()) == config.max_concurrency,
            r matches Err(e) ==> e is NetworkError,
    {
        let client = match build_http_client(config.timeout_secs) {
            Ok(c) => c,
            Err(e) => {
                return Err(DenseZKError::NetworkError(http_error_text(&e)));
            },
        };
        let semaphore = new_semaphore(config.max_concurrency as usize);
        Ok(ProverNetworkClientAsync { config, client, semaphore })
    }

    /// A client for the default configuration.
    pub fn with_defaults() -> (r: Result<Self, DenseZKError>)
        ensures
            r is Ok,
            r matches Ok(c) ==> c.spec_config().is_default(),
            r matches Ok(c) ==> client_timeout_secs(c.spec_http_client()) == 30,
            r matches Ok(c) ==> semaphore_made_with(c.spec_permits()) == 4,
            r matches Err(e) ==> e is NetworkError,
    {
        Self::new(ProverNetworkConfig::default())
    }

    pub fn config(&self) -> (c: &ProverNetworkConfig)
        ensures
            *c == self.spec_config(),
    {
        &self.config
    }

    /// The HTTP client of the client.
    pub closed spec fn spec_http_client(&self) -> reqwest::Client {
        self.client
    }

    /// The semaphore of the client.
    pub closed spec fn spec_permits(&self) -> tokio::sync::Semaphore {
        self.semaphore
    }

    /// The HTTP client that requests go through.
    pub fn http_client(&self) -> (c: &reqwest::Client)
        ensures
            *c == self.spec_http_client(),
    {
        &self.client
    }

    /// The semaphore that bounds the requests in flight.
    pub fn permits(&self) -> (s: &tokio::sync::Semaphore)
        ensures
            *s == self.spec_permits(),
    {
        &self.semaphore
    }
}

impl Clone for ProverNetworkClientAsync {
    /// A client with the same configuration and connection pool, and a
    /// semaphore of its own with `max_concurrency` permits.
    fn clone(&self) -> (c: Self)
        ensures
            c.spec_config() == self.spec_config(),
            client_timeout_secs(c.spec_http_client()) == client_timeout_secs(
                self.spec_http_client(),
            ),
            semaphore_made_with(c.spec_permits()) == self.spec_config().max_concurrency,
    {
        proof {
            use_type_invariant(self);
        }
        ProverNetworkClientAsync {
            config: self.config.clone(),
            client: clone_http_client(&self.client),
            semaphore: new_semaphore(self.config.max_concurrency as usize),
        }
    }
}

} // verus!
