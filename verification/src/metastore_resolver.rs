//! Resolution of metastore URIs: a registry of factories, one per scheme,
//! and the dispatch of a URI to the factory registered for its scheme.

use std::sync::Arc;
use vstd::hash_map::StringHashMap;
use vstd::prelude::*;
use vstd::string::StrSliceExecFns;
use vstd::string::StringExecFns;
use crate::text::to_chars;

verus! {

/// A metastore: the capability that a factory builds and that the registry
/// hands on untouched. Nothing here looks inside it.
pub trait Metastore: Send + Sync + 'static {

}

/// Why a factory could not open a metastore. Only its text is known here.
#[derive(Debug)]
pub struct MetastoreError {
    pub message: String,
}

/// What a factory returns: a shared metastore, or the reason why none could
/// be opened.
pub type MetastoreResult = Result<Arc<dyn Metastore>, MetastoreError>;

/// Why a URI could not be resolved.
#[derive(Debug)]
pub enum MetastoreResolverError {
    /// The URI names no scheme: it holds no `://`. The text says so.
    InvalidUri(String),
    /// No factory is registered for the scheme of the URI, which is given.
    ProtocolUnsupported(String),
    /// The factory of the scheme failed; its error is kept as it came.
    FailedToOpenMetastore(MetastoreError),
}

/// A metastore factory builds a metastore from a URI of its own scheme.
pub trait MetastoreFactory: Send + Sync + 'static {
    /// The scheme that this factory serves. It never changes.
    ///
    /// A verified factory states its scheme here; the body given is the
    /// unknown value that stands for the scheme of a factory that does not.
    open spec fn scheme(&self) -> Seq<char> {
        arbitrary()
    }

    /// Whether `resolve` may return `outcome` for `uri`. A factory may reach
    /// out to a backend, so two calls on one URI need not agree: this
    /// relation holds of every outcome that a call can have.
    ///
    /// A factory that promises nothing of its outcomes keeps the body given,
    /// which admits them all.
    open spec fn yields(&self, uri: Seq<char>, outcome: MetastoreResult) -> bool {
        true
    }

    /// Returns the scheme that this factory serves.
    fn protocol(&self) -> (name: String)
        ensures
            name@ == self.scheme(),
    ;

    /// Given a URI, opens the metastore that it names.
    fn resolve(&self, uri: &str) -> (outcome: MetastoreResult)
        ensures
            self.yields(uri@, outcome),
    ;
}

/// What parts the scheme of a URI from the rest.
pub open spec fn separator() -> Seq<char> {
    seq![':', '/', '/']
}

/// The separator stands in `uri` at the place `at`.
pub open spec fn separator_at(uri: Seq<char>, at: int) -> bool {
    &&& 0 <= at
    &&& at + 3 <= uri.len()
    &&& uri[at] == ':'
    &&& uri[at + 1] == '/'
    &&& uri[at + 2] == '/'
}

/// The separator stands in `uri` at the place `at`, and nowhere before.
pub open spec fn is_first_separator(uri: Seq<char>, at: int) -> bool {
    &&& separator_at(uri, at)
    &&& forall|earlier: int| 0 <= earlier < at ==> !separator_at(uri, earlier)
}

/// The scheme of a URI: all that precedes its first `://`. A URI without
/// `://` has none.
pub open spec fn scheme_of(uri: Seq<char>) -> Option<Seq<char>> {
    if exists|at: int| separator_at(uri, at) {
        Some(uri.subrange(0, choose|at: int| is_first_separator(uri, at)))
    } else {
        None
    }
}

/// The first separator of a URI stands at one place only, and what precedes
/// it is the scheme.
pub proof fn lemma_first_separator_gives_scheme(uri: Seq<char>, at: int)
    requires
        is_first_separator(uri, at),
    ensures
        scheme_of(uri) == Some(uri.subrange(0, at)),
{
    assert(separator_at(uri, at));
    let chosen = choose|at: int| is_first_separator(uri, at);
    assert(is_first_separator(uri, chosen));
    if chosen < at {
        assert(!separator_at(uri, chosen));
    } else if at < chosen {
        assert(!separator_at(uri, at));
    }
}

/// A URI that holds the separator holds a first one.
pub proof fn lemma_some_separator_has_a_first(uri: Seq<char>, at: int)
    requires
        separator_at(uri, at),
    ensures
        exists|first: int| is_first_separator(uri, first) && first <= at,
    decreases at,
{
    if exists|earlier: int| 0 <= earlier < at && separator_at(uri, earlier) {
        let earlier = choose|earlier: int| 0 <= earlier < at && separator_at(uri, earlier);
        lemma_some_separator_has_a_first(uri, earlier);
    } else {
        assert(is_first_separator(uri, at));
    }
}

/// A URI has a scheme exactly when it holds the separator, and then it is
/// its scheme, the separator and a rest, with no separator that begins
/// inside the scheme.
pub proof fn lemma_scheme_parts(uri: Seq<char>)
    ensures
        scheme_of(uri) is None <==> forall|at: int| !separator_at(uri, at),
        scheme_of(uri) matches Some(scheme) ==> {
            &&& is_first_separator(uri, scheme.len() as int)
            &&& uri == scheme + separator() + uri.subrange(
                scheme.len() as int + 3,
                uri.len() as int,
            )
        },
{
    if exists|at: int| separator_at(uri, at) {
        let at = choose|at: int| separator_at(uri, at);
        lemma_some_separator_has_a_first(uri, at);
        let first = choose|first: int| is_first_separator(uri, first);
        let scheme = uri.subrange(0, first);
        assert(uri =~= scheme + separator() + uri.subrange(first + 3, uri.len() as int));
    }
}

/// A URI that is a scheme, the separator and a rest has that scheme,
/// provided that the separator does not begin earlier.
pub proof fn lemma_scheme_of_joined(scheme: Seq<char>, rest: Seq<char>)
    requires
        forall|earlier: int|
            0 <= earlier < scheme.len() ==> !separator_at(scheme + separator() + rest, earlier),
    ensures
        scheme_of(scheme + separator() + rest) == Some(scheme),
{
    let uri = scheme + separator() + rest;
    let at = scheme.len() as int;
    assert(uri[at] == separator()[0]);
    assert(uri[at + 1] == separator()[1]);
    assert(uri[at + 2] == separator()[2]);
    lemma_first_separator_gives_scheme(uri, at);
    assert(uri.subrange(0, at) =~= scheme);
}

/// Finds the scheme of a URI.
pub fn extract_protocol(uri: &str) -> (protocol: Option<String>)
    ensures
        match protocol {
            Some(name) => scheme_of(uri@) == Some(name@),
            None => scheme_of(uri@) is None,
        },
{
    let chars = to_chars(uri);
    let len = chars.len();
    if len < 3 {
        return None;
    }
    let mut at: usize = 0;
    while at <= len - 3
        invariant
            chars@ == uri@,
            len == chars@.len(),
            len >= 3,
            forall|earlier: int| 0 <= earlier < at ==> !separator_at(chars@, earlier),
        decreases len - at,
    {
        if chars[at] == ':' && chars[at + 1] == '/' && chars[at + 2] == '/' {
            proof {
                lemma_first_separator_gives_scheme(chars@, at as int);
            }
            return Some(String::from_str(uri.substring_char(0, at)));
        }
        at = at + 1;
    }
    assert(forall|at: int| !separator_at(uri@, at));
    None
}

/// The text of the error for a URI that names no scheme.
pub open spec fn invalid_uri_detail(uri: Seq<char>) -> Seq<char> {
    "Protocol not found in metastore uri: "@ + uri
}

/// `result` rejects the URI for having no scheme, with the text that says so.
pub open spec fn is_invalid_uri(
    result: Result<Arc<dyn Metastore>, MetastoreResolverError>,
    uri: Seq<char>,
) -> bool {
    result matches Err(MetastoreResolverError::InvalidUri(detail)) && detail@
        == invalid_uri_detail(uri)
}

/// `result` rejects the URI for its scheme, which it names.
pub open spec fn is_unsupported(
    result: Result<Arc<dyn Metastore>, MetastoreResolverError>,
    scheme: Seq<char>,
) -> bool {
    result matches Err(MetastoreResolverError::ProtocolUnsupported(name)) && name@ == scheme
}

/// What the registry returns for what a factory returned: the metastore as it
/// came, or the factory's error, kept whole, as the cause of the failure.
pub open spec fn opened<M>(outcome: Result<M, MetastoreError>) -> Result<
    M,
    MetastoreResolverError,
> {
    match outcome {
        Ok(metastore) => Ok(metastore),
        Err(cause) => Err(MetastoreResolverError::FailedToOpenMetastore(cause)),
    }
}

/// `result` is what the registry returns for some outcome that `factory` can
/// have on `uri`.
pub open spec fn is_delegated<F: MetastoreFactory>(
    result: Result<Arc<dyn Metastore>, MetastoreResolverError>,
    factory: F,
    uri: Seq<char>,
) -> bool {
    exists|outcome: MetastoreResult| #[trigger]
        factory.yields(uri, outcome) && result == opened(outcome)
}

/// What the registry may return for a URI.
///
/// A URI without a scheme is rejected as invalid, and one whose scheme has
/// no factory as unsupported: both are decided by the URI and the registered
/// schemes alone. Any other URI goes to the factory of its scheme, and to no
/// other, and the result is what that factory returned.
pub open spec fn resolves_to<F: MetastoreFactory>(
    registry: Map<Seq<char>, F>,
    uri: Seq<char>,
    result: Result<Arc<dyn Metastore>, MetastoreResolverError>,
) -> bool {
    match scheme_of(uri) {
        None => is_invalid_uri(result, uri),
        Some(scheme) => if registry.contains_key(scheme) {
            is_delegated(result, registry[scheme], uri)
        } else {
            is_unsupported(result, scheme)
        },
    }
}

/// The registry after `factory` was registered: it serves its scheme, in
/// place of any factory that served it before, and nothing else changed.
pub open spec fn registered<F: MetastoreFactory>(registry: Map<Seq<char>, F>, factory: F) -> Map<
    Seq<char>,
    F,
> {
    registry.insert(factory.scheme(), factory)
}

/// Every factory of the registry stands under its own scheme.
pub open spec fn keyed_by_scheme<F: MetastoreFactory>(registry: Map<Seq<char>, F>) -> bool {
    forall|scheme: Seq<char>|
        registry.contains_key(scheme) ==> (#[trigger] registry[scheme]).scheme() == scheme
}

/// Turns what a factory returned into what the registry returns.
pub fn conclude<M>(outcome: Result<M, MetastoreError>) -> (result: Result<
    M,
    MetastoreResolverError,
>)
    ensures
        result == opened(outcome),
{
    match outcome {
        Ok(metastore) => Ok(metastore),
        Err(cause) => Err(MetastoreResolverError::FailedToOpenMetastore(cause)),
    }
}

/// Resolves a URI by dispatching it to the factory registered for its
/// scheme.
#[verifier::reject_recursive_types(F)]
pub struct MetastoreUriResolver<F: MetastoreFactory> {
    per_protocol_resolver: StringHashMap<F>,
}

impl<F: MetastoreFactory> View for MetastoreUriResolver<F> {
    type V = Map<Seq<char>, F>;

    /// The registered factories, by scheme.
    closed spec fn view(&self) -> Map<Seq<char>, F> {
        self.per_protocol_resolver@
    }
}

impl<F: MetastoreFactory> Default for MetastoreUriResolver<F> {
    /// A registry without any factory.
    fn default() -> (resolver: MetastoreUriResolver<F>)
        ensures
            resolver@ == Map::<Seq<char>, F>::empty(),
    {
        MetastoreUriResolver { per_protocol_resolver: StringHashMap::new() }
    }
}

impl<F: MetastoreFactory> MetastoreUriResolver<F> {
    /// What holds of every registry: each factory stands under its scheme.
    #[verifier::type_invariant]
    spec fn well_formed(&self) -> bool {
        keyed_by_scheme(self.per_protocol_resolver@)
    }

    /// Registers a factory.
    ///
    /// If a factory was registered for the same scheme before, it is
    /// discarded and replaced with the new one.
    pub fn register(&mut self, resolver: F)
        ensures
            final(self)@ == registered(old(self)@, resolver),
            keyed_by_scheme(final(self)@),
    {
        proof {
            use_type_invariant(&*self);
        }
        let name = resolver.protocol();
        let mut factories = StringHashMap::new();
        std::mem::swap(&mut self.per_protocol_resolver, &mut factories);
        factories.insert(name, resolver);
        self.per_protocol_resolver = factories;
    }

    /// Decides where a URI goes, without calling any factory: to the factory
    /// that is returned, or nowhere, for the reason that is returned.
    pub fn select(&self, uri: &str) -> (choice: Result<&F, MetastoreResolverError>)
        ensures
            keyed_by_scheme(self@),
            match choice {
                Ok(factory) => {
                    &&& scheme_of(uri@) is Some
                    &&& self@.contains_key(scheme_of(uri@)->0)
                    &&& *factory == self@[scheme_of(uri@)->0]
                    &&& factory.scheme() == scheme_of(uri@)->0
                },
                Err(error) => {
                    &&& !(scheme_of(uri@) is Some && self@.contains_key(scheme_of(uri@)->0))
                    &&& resolves_to(self@, uri@, Err(error))
                },
            },
    {
        proof {
            use_type_invariant(self);
        }
        match extract_protocol(uri) {
            None => {
                let mut detail = String::from_str("Protocol not found in metastore uri: ");
                detail.append(uri);
                Err(MetastoreResolverError::InvalidUri(detail))
            },
            Some(protocol) => {
                match self.per_protocol_resolver.get(protocol.as_str()) {
                    Some(factory) => Ok(factory),
                    None => Err(MetastoreResolverError::ProtocolUnsupported(protocol)),
                }
            },
        }
    }

    /// Resolves the given URI.
    ///
    /// The factory of the URI's scheme is called once, and no other; a URI
    /// that is rejected reaches no factory at all.
    pub fn resolve(&self, uri: &str) -> (result: Result<
        Arc<dyn Metastore>,
        MetastoreResolverError,
    >)
        ensures
            keyed_by_scheme(self@),
            resolves_to(self@, uri@, result),
            scheme_of(uri@) is None ==> is_invalid_uri(result, uri@),
            scheme_of(uri@) is Some && !self@.contains_key(scheme_of(uri@)->0) ==> is_unsupported(
                result,
                scheme_of(uri@)->0,
            ),
            scheme_of(uri@) is Some && self@.contains_key(scheme_of(uri@)->0) ==> is_delegated(
                result,
                self@[scheme_of(uri@)->0],
                uri@,
            ),
    {
        match self.select(uri) {
            Ok(factory) => {
                let outcome = factory.resolve(uri);
                conclude(outcome)
            },
            Err(error) => Err(error),
        }
    }
}

/// A URI whose scheme is that of a registered factory goes to that factory:
/// what the registry may return for it is what it returns for an outcome of
/// that factory, whatever else is registered.
pub proof fn lemma_resolution_follows_scheme<F: MetastoreFactory>(
    registry: Map<Seq<char>, F>,
    factory: F,
    uri: Seq<char>,
    result: Result<Arc<dyn Metastore>, MetastoreResolverError>,
)
    requires
        registry.contains_key(factory.scheme()),
        registry[factory.scheme()] == factory,
        scheme_of(uri) == Some(factory.scheme()),
    ensures
        resolves_to(registry, uri, result) <==> is_delegated(result, factory, uri),
        resolves_to(registry, uri, result) ==> !is_invalid_uri(result, uri) && !is_unsupported(
            result,
            factory.scheme(),
        ),
{
}

/// A URI without `://` is rejected as invalid whatever is registered, and a
/// URI whose scheme is not registered is rejected as unsupported, with its
/// scheme: no outcome of any factory enters into either result.
pub proof fn lemma_rejections_need_no_factory<F: MetastoreFactory>(
    registry: Map<Seq<char>, F>,
    uri: Seq<char>,
    result: Result<Arc<dyn Metastore>, MetastoreResolverError>,
)
    requires
        resolves_to(registry, uri, result),
    ensures
        (forall|at: int| !separator_at(uri, at)) ==> is_invalid_uri(result, uri),
        scheme_of(uri) is Some && !registry.contains_key(scheme_of(uri)->0) ==> is_unsupported(
            result,
            scheme_of(uri)->0,
        ),
{
    lemma_scheme_parts(uri);
}

/// Registering keeps every factory under its own scheme.
pub proof fn lemma_registered_stays_keyed<F: MetastoreFactory>(
    registry: Map<Seq<char>, F>,
    factory: F,
)
    requires
        keyed_by_scheme(registry),
    ensures
        keyed_by_scheme(registered(registry, factory)),
        registered(registry, factory).contains_key(factory.scheme()),
        registered(registry, factory)[factory.scheme()] == factory,
{
}

/// The last registration for a scheme wins: after `first` and then `second`
/// were registered for one scheme, the registry is as if `first` had never
/// been, and a URI of that scheme goes to `second` alone.
pub proof fn lemma_last_registration_wins<F: MetastoreFactory>(
    registry: Map<Seq<char>, F>,
    first: F,
    second: F,
    uri: Seq<char>,
    result: Result<Arc<dyn Metastore>, MetastoreResolverError>,
)
    requires
        first.scheme() == second.scheme(),
    ensures
        registered(registered(registry, first), second) == registered(registry, second),
        scheme_of(uri) == Some(second.scheme()) ==> (resolves_to(
            registered(registered(registry, first), second),
            uri,
            result,
        ) <==> is_delegated(result, second, uri)),
{
    assert(registered(registered(registry, first), second) =~= registered(registry, second));
}

/// Registering a factory leaves the URIs of every other scheme where they
/// were.
pub proof fn lemma_registration_is_local<F: MetastoreFactory>(
    registry: Map<Seq<char>, F>,
    factory: F,
    uri: Seq<char>,
    result: Result<Arc<dyn Metastore>, MetastoreResolverError>,
)
    requires
        scheme_of(uri) != Some(factory.scheme()),
    ensures
        resolves_to(registered(registry, factory), uri, result) <==> resolves_to(
            registry,
            uri,
            result,
        ),
{
}

} // verus!
