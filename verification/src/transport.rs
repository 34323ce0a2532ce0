//! The transport client of a call: a base client and the middleware that the
//! request asks for, laid around it in a fixed order.

use crate::error::HttpError;
use crate::request::Request;
use http_cache_reqwest::MokaManager;
use reqwest::redirect::Policy;
use reqwest::Client;
use reqwest_middleware::ClientWithMiddleware;
use vstd::prelude::*;

verus! {

/// `reqwest::Client`, the base client.
#[verifier::external_type_specification]
#[verifier::external_body]
pub struct ExClient(Client);

/// `reqwest::ClientBuilder`, a base client in the making.
#[verifier::external_type_specification]
#[verifier::external_body]
pub struct ExBaseBuilder(reqwest::ClientBuilder);

/// `reqwest::redirect::Policy`, what a base client does on a redirect.
#[verifier::external_type_specification]
#[verifier::external_body]
pub struct ExPolicy(Policy);

/// `reqwest_middleware::ClientBuilder`, a base client with a stack of
/// middleware in the making.
#[verifier::external_type_specification]
#[verifier::external_body]
pub struct ExMiddlewareBuilder(reqwest_middleware::ClientBuilder);

/// `reqwest_middleware::ClientWithMiddleware`, a base client within its
/// middleware.
#[verifier::external_type_specification]
#[verifier::external_body]
pub struct ExClientWithMiddleware(ClientWithMiddleware);

/// `http_cache_reqwest::MokaManager`, a handle on an in-memory cache store.
#[verifier::external_type_specification]
#[verifier::external_body]
pub struct ExMokaManager(MokaManager);

/// Whether the client that the builder makes follows redirects.
pub uninterp spec fn builder_follows(builder: reqwest::ClientBuilder) -> bool;

/// Whether a redirect policy follows any redirect.
pub uninterp spec fn policy_follows(policy: Policy) -> bool;

/// Whether a base client follows redirects.
pub uninterp spec fn client_follows(client: Client) -> bool;

/// The base client that a stack of middleware is laid around.
pub uninterp spec fn stack_base(builder: reqwest_middleware::ClientBuilder) -> Client;

/// The middleware of a stack in the making, in the order of laying.
pub uninterp spec fn stack_layers(builder: reqwest_middleware::ClientBuilder) -> Seq<Layer>;

/// The number of request initialisers of a stack in the making.
pub uninterp spec fn stack_inits(builder: reqwest_middleware::ClientBuilder) -> nat;

/// The store of the cache that was laid last on a stack in the making, where
/// a cache was laid on it.
pub uninterp spec fn stack_store(builder: reqwest_middleware::ClientBuilder) -> Option<
    MokaManager,
>;

/// The base client within the middleware.
pub uninterp spec fn sender_base(client: ClientWithMiddleware) -> Client;

/// The middleware around the base client, in the order of laying.
pub uninterp spec fn sender_layers(client: ClientWithMiddleware) -> Seq<Layer>;

/// The number of request initialisers that a client runs on a new request.
pub uninterp spec fn sender_inits(client: ClientWithMiddleware) -> nat;

/// The store of the cache of a client, where it has a cache.
pub uninterp spec fn sender_store(client: ClientWithMiddleware) -> Option<MokaManager>;

/// `Client::builder` starts a client with the defaults of reqwest, among
/// them the default redirect policy, which follows up to ten redirects.
pub assume_specification[ Client::builder ]() -> (r: reqwest::ClientBuilder)
    ensures
        builder_follows(r),
;

/// `Policy::none` is the redirect policy that follows no redirect.
pub assume_specification[ Policy::none ]() -> (r: Policy)
    ensures
        !policy_follows(r),
;

/// `ClientBuilder::redirect` sets the redirect policy of the client.
pub assume_specification[ reqwest::ClientBuilder::redirect ](
    builder: reqwest::ClientBuilder,
    policy: Policy,
) -> (r: reqwest::ClientBuilder)
    ensures
        builder_follows(r) == policy_follows(policy),
;

/// `ClientBuilder::build` makes the client with the redirect policy of the
/// builder, or fails where its backends cannot be set up on this machine.
pub assume_specification[ reqwest::ClientBuilder::build ](builder: reqwest::ClientBuilder) -> (r:
    Result<Client, reqwest::Error>)
    ensures
        r matches Ok(client) ==> client_follows(client) == builder_follows(builder),
;

/// `reqwest_middleware::ClientBuilder::new` starts an empty stack of
/// middleware around a client, with no request initialiser.
pub assume_specification[ reqwest_middleware::ClientBuilder::new ](client: Client) -> (r:
    reqwest_middleware::ClientBuilder)
    ensures
        stack_base(r) == client,
        stack_layers(r) == Seq::<Layer>::empty(),
        stack_inits(r) == 0,
        stack_store(r) is None,
;

/// `reqwest_middleware::ClientBuilder::build` closes the stack: the client
/// holds what the builder held.
pub assume_specification[ reqwest_middleware::ClientBuilder::build ](
    builder: reqwest_middleware::ClientBuilder,
) -> (r: ClientWithMiddleware)
    ensures
        sender_base(r) == stack_base(builder),
        sender_layers(r) == stack_layers(builder),
        sender_inits(r) == stack_inits(builder),
        sender_store(r) == stack_store(builder),
;

/// How the response cache treats an entry that it holds.
#[derive(Clone, Copy, Debug, PartialEq, Eq, Structural)]
pub enum CacheMode {
    /// By the rules of HTTP caching.
    Default,
    /// As usable whatever its freshness.
    ForceCache,
}

/// One layer of middleware around the base client.
#[derive(Clone, Copy, Debug, PartialEq, Eq, Structural)]
pub enum Layer {
    /// Retry of transient failures with exponential backoff, at most this
    /// many times.
    Retry(u32),
    /// The response cache, in this mode.
    Cache(CacheMode),
}

/// Lays retry middleware on the stack: `ClientBuilder::with` on a
/// `RetryTransientMiddleware` whose policy is the default
/// `ExponentialBackoff` built with `build_with_max_retries`.
#[verifier::external_body]
fn with_retry(builder: reqwest_middleware::ClientBuilder, max_retries: u32) -> (r:
    reqwest_middleware::ClientBuilder)
    ensures
        stack_base(r) == stack_base(builder),
        stack_layers(r) == stack_layers(builder).push(Layer::Retry(max_retries)),
        stack_inits(r) == stack_inits(builder),
        stack_store(r) == stack_store(builder),
{
    let policy = reqwest_retry::policies::ExponentialBackoff::builder().build_with_max_retries(
        max_retries,
    );
    builder.with(reqwest_retry::RetryTransientMiddleware::new_with_policy(policy))
}

/// Lays the response cache on the stack: `ClientBuilder::with` on a `Cache`
/// of this mode over this store, with the default options.
#[verifier::external_body]
fn with_cache(builder: reqwest_middleware::ClientBuilder, mode: CacheMode, manager: MokaManager)
    -> (r: reqwest_middleware::ClientBuilder)
    ensures
        stack_base(r) == stack_base(builder),
        stack_layers(r) == stack_layers(builder).push(Layer::Cache(mode)),
        stack_inits(r) == stack_inits(builder),
        stack_store(r) == Some(manager),
{
    let mode = match mode {
        CacheMode::Default => http_cache_reqwest::CacheMode::Default,
        CacheMode::ForceCache => http_cache_reqwest::CacheMode::ForceCache,
    };
    let options = http_cache_reqwest::HttpCacheOptions::default();
    builder.with(http_cache_reqwest::Cache(http_cache_reqwest::HttpCache { mode, manager, options }))
}

/// The most entries that the store behind a manager was made to hold, where
/// it was made with a bound. A store keeps the bound it was made with.
pub uninterp spec fn store_limit(manager: MokaManager) -> Option<u64>;

/// `MokaManager::default` makes a new in-memory store of its own, which it
/// builds with `Cache::new(42)`: a store made to hold up to 42 entries.
#[verifier::external_body]
fn new_manager() -> (r: MokaManager)
    ensures
        store_limit(r) == Some(42u64),
{
    MokaManager::default()
}

/// `MokaManager::clone` gives a second handle on the same store.
#[verifier::external_body]
fn share_manager(manager: &MokaManager) -> (r: MokaManager)
    ensures
        r == *manager,
{
    manager.clone()
}

/// The store of the response cache. Clients built over one store share what
/// it holds; it lives as long as its owner keeps it.
pub struct CacheStore {
    manager: MokaManager,
}

impl CacheStore {
    /// The handle on the store.
    pub closed spec fn manager(self) -> MokaManager {
        self.manager
    }

    /// The most entries that the store was made to hold, where it was made
    /// with a bound.
    pub open spec fn limit(self) -> Option<u64> {
        store_limit(self.manager())
    }

    /// A new store of its own, bounded in size: it is made to hold up to 42
    /// responses.
    pub fn new() -> (r: CacheStore)
        ensures
            r.limit() == Some(42u64),
    {
        CacheStore { manager: new_manager() }
    }
}

/// Whether the client of a request follows redirects: always, unless the
/// request sets `enable_redirect` to `false`.
pub open spec fn follows_redirects(data: Request) -> bool {
    data.enable_redirect != Some(false)
}

/// The mode of the response cache of a request that asks for one.
pub open spec fn cache_mode(data: Request) -> CacheMode {
    if data.force_cache == Some(true) {
        CacheMode::ForceCache
    } else {
        CacheMode::Default
    }
}

/// The middleware of a request, in the order in which it is laid around the
/// base client: retry where `max_retry_attempts` is set, then the cache where
/// `cache` is `true`.
pub open spec fn middleware_layers(data: Request) -> Seq<Layer> {
    let retry = match data.max_retry_attempts {
        Some(n) => seq![Layer::Retry(n)],
        None => Seq::<Layer>::empty(),
    };
    let cache = if data.cache == Some(true) {
        seq![Layer::Cache(cache_mode(data))]
    } else {
        Seq::<Layer>::empty()
    };
    retry + cache
}

/// The store that the cache of a request is laid over: the given one, where
/// the request asks for a cache at all.
pub open spec fn cache_store(data: Request, store: CacheStore) -> Option<MokaManager> {
    if data.cache == Some(true) {
        Some(store.manager())
    } else {
        None
    }
}

/// A base client, with the record of whether it follows redirects.
pub struct BaseClient {
    client: Client,
    follows: bool,
}

impl BaseClient {
    #[verifier::type_invariant]
    spec fn well_formed(self) -> bool {
        self.follows == client_follows(self.client)
    }

    /// The client itself.
    pub closed spec fn client(self) -> Client {
        self.client
    }

    /// Whether the client follows redirects.
    pub fn redirects_followed(&self) -> (r: bool)
        ensures
            r == client_follows(self.client()),
    {
        proof {
            use_type_invariant(self);
        }
        self.follows
    }
}

/// A client ready to make requests, with the record of how it was made.
pub struct Transport {
    client: ClientWithMiddleware,
    follows_redirects: bool,
    layers: Vec<Layer>,
}

impl Transport {
    #[verifier::type_invariant]
    spec fn well_formed(self) -> bool {
        &&& self.follows_redirects == client_follows(sender_base(self.client))
        &&& self.layers@ == sender_layers(self.client)
        &&& sender_inits(self.client) == 0
    }

    /// The client itself.
    pub closed spec fn sender(self) -> ClientWithMiddleware {
        self.client
    }

    /// Whether the base client follows redirects.
    pub open spec fn follows(self) -> bool {
        client_follows(sender_base(self.sender()))
    }

    /// The middleware around the base client, in the order of laying.
    pub open spec fn layers(self) -> Seq<Layer> {
        sender_layers(self.sender())
    }

    /// The store of the cache of the client, where it has a cache.
    pub open spec fn store(self) -> Option<MokaManager> {
        sender_store(self.sender())
    }

    /// Whether the transport is the one that the request describes: a client
    /// that follows redirects as the request says, within the middleware
    /// that the request asks for, its cache laid over the given store.
    pub open spec fn is_for(self, data: Request, store: CacheStore) -> bool {
        &&& self.follows() == follows_redirects(data)
        &&& self.layers() == middleware_layers(data)
        &&& self.store() == cache_store(data, store)
    }

    /// Whether the base client follows redirects.
    pub fn redirects_followed(&self) -> (r: bool)
        ensures
            r == self.follows(),
    {
        proof {
            use_type_invariant(self);
        }
        self.follows_redirects
    }

    /// The middleware around the base client, in the order of laying.
    pub fn layer_list(&self) -> (r: &Vec<Layer>)
        ensures
            r@ == self.layers(),
    {
        proof {
            use_type_invariant(self);
        }
        &self.layers
    }

    /// The client itself, which runs no request initialiser.
    pub fn client(&self) -> (r: &ClientWithMiddleware)
        ensures
            *r == self.sender(),
            sender_inits(*r) == 0,
    {
        proof {
            use_type_invariant(self);
        }
        &self.client
    }
}

/// Whether the client of a request is to follow redirects.
pub fn wants_redirects(data: &Request) -> (r: bool)
    ensures
        r == follows_redirects(*data),
{
    if let Some(false) = data.enable_redirect {
        false
    } else {
        true
    }
}

/// The base client, not yet built: the default client, with redirects
/// switched off where they are not to be followed.
fn base_client(follows: bool) -> (r: reqwest::ClientBuilder)
    ensures
        builder_follows(r) == follows,
{
    let builder = Client::builder();
    if follows {
        builder
    } else {
        builder.redirect(Policy::none())
    }
}

/// Builds the base client that follows redirects or does not, as asked.
/// Whether it can be built is for the machine to say.
pub fn build_base(follows: bool) -> (r: Result<BaseClient, reqwest::Error>)
    ensures
        r matches Ok(base) ==> client_follows(base.client()) == follows,
{
    match base_client(follows).build() {
        Ok(client) => Ok(BaseClient { client, follows }),
        Err(e) => Err(e),
    }
}

/// Lays the middleware of a request around a base client: retry where the
/// request sets `max_retry_attempts`, then the cache over the store where it
/// sets `cache` to `true`.
pub fn lay_middleware(data: &Request, base: BaseClient, store: &CacheStore) -> (r: Transport)
    ensures
        sender_base(r.sender()) == base.client(),
        r.layers() == middleware_layers(*data),
        r.store() == cache_store(*data, *store),
{
    let follows = base.redirects_followed();
    let mut builder = reqwest_middleware::ClientBuilder::new(base.client);
    let mut layers: Vec<Layer> = Vec::new();
    if let Some(retry) = data.max_retry_attempts {
        builder = with_retry(builder, retry);
        layers.push(Layer::Retry(retry));
    }
    if let Some(true) = data.cache {
        let mode = if let Some(true) = data.force_cache {
            CacheMode::ForceCache
        } else {
            CacheMode::Default
        };
        builder = with_cache(builder, mode, share_manager(&store.manager));
        layers.push(Layer::Cache(mode));
    }
    assert(layers@ =~= middleware_layers(*data));
    assert(stack_layers(builder) =~= middleware_layers(*data));
    Transport { client: builder.build(), follows_redirects: follows, layers }
}

/// Turns the outcome of building a base client into the transport of the
/// request or into the failure of the call.
pub fn finish_client(data: &Request, built: Result<BaseClient, reqwest::Error>, store: &CacheStore)
    -> (r: Result<Transport, HttpError>)
    ensures
        match built {
            Ok(base) => r matches Ok(t) && sender_base(t.sender()) == base.client() && t.layers()
                == middleware_layers(*data) && t.store() == cache_store(*data, *store),
            Err(e) => r == Err::<Transport, HttpError>(HttpError::TransportConstruction(e)),
        },
{
    match built {
        Ok(base) => Ok(lay_middleware(data, base, store)),
        Err(e) => Err(HttpError::TransportConstruction(e)),
    }
}

/// Builds the transport of a request over a cache store. Whether the base
/// client can be built is for the machine to say; where it can, the transport
/// is the one that the request describes.
pub fn build_client(data: &Request, store: &CacheStore) -> (r: Result<Transport, HttpError>)
    ensures
        r matches Ok(t) ==> t.is_for(*data, *store),
        r matches Err(e) ==> e is TransportConstruction,
{
    finish_client(data, build_base(wants_redirects(data)), store)
}

} // verus!
