//! Extractor configuration: payload size limit, content-type acceptance
//! predicate, optional custom error handler, and the per-route resolution
//! of those settings across configuration levels.

use vstd::prelude::*;
use crate::error::Error;

verus! {

/// The media type a request declares for its body.
#[derive(Clone, Copy, Debug, PartialEq, Eq, Structural)]
pub enum MediaType {
    ApplicationJson,
    ApplicationFormUrlEncoded,
    TextPlain,
    Other,
}

/// The request data a custom error handler may consult.
pub struct RequestContext {
    pub path: String,
}

/// An HTTP response: status code, body media type and body text.
pub struct Response {
    pub status: u16,
    pub content_type: MediaType,
    pub body: String,
}

/// A content-type acceptance predicate, supplied per configuration and
/// implemented by the caller; consulted before anything else happens to a
/// request body.
pub trait MediaTypePredicate {
    fn accepts(&self, media: &MediaType) -> bool;
}

/// A custom error-to-response mapper, implemented by the caller.  When one
/// is installed, the default JSON renderer is bypassed entirely and the
/// handler receives the fully populated error plus request context.
pub trait ErrorHandler {
    fn handle(&self, error: Error, ctx: &RequestContext) -> Response;
}

/// A simple content-type predicate: accept exactly one media type.
pub struct AcceptExactly {
    pub media: MediaType,
}

impl MediaTypePredicate for AcceptExactly {
    fn accepts(&self, media: &MediaType) -> bool {
        *media == self.media
    }
}

/// The default payload size limit, in bytes, used when no configuration
/// level overrides it.
pub const DEFAULT_SIZE_LIMIT: usize = 2097152;

/// Immutable per-route or per-application extractor settings, constructed
/// once at registration time and shared read-only across requests.
pub struct ExtractorConfig<P, H> {
    /// Largest accepted body, in bytes.
    pub size_limit: usize,
    /// Accepts or rejects the declared media type; `None` means the
    /// default policy: exactly the extractor's own media type is accepted.
    pub content_type_predicate: Option<P>,
    /// Custom error renderer; `None` means the default JSON renderer.
    pub error_handler: Option<H>,
}

impl<P, H> ExtractorConfig<P, H> {
    /// The documented defaults: the default size limit, the default
    /// content-type policy, and no custom error handler.
    pub fn new() -> (r: Self)
        ensures
            r.size_limit == DEFAULT_SIZE_LIMIT,
            r.content_type_predicate is None,
            r.error_handler is None,
    {
        ExtractorConfig {
            size_limit: DEFAULT_SIZE_LIMIT,
            content_type_predicate: None,
            error_handler: None,
        }
    }
}

/// One level of configuration (route-scoped or application-scoped): each
/// field is either set here or left to fall through to the next level.
pub struct ConfigOverrides<P, H> {
    pub size_limit: Option<usize>,
    pub content_type_predicate: Option<P>,
    pub error_handler: Option<H>,
}

impl<P, H> ConfigOverrides<P, H> {
    /// A level that sets nothing: every field falls through.
    pub fn unset() -> (r: Self)
        ensures
            r.size_limit is None,
            r.content_type_predicate is None,
            r.error_handler is None,
    {
        ConfigOverrides { size_limit: None, content_type_predicate: None, error_handler: None }
    }
}

/// Which size limit one route resolves to: the route's own if set, else
/// the application's, else the built-in default.
pub open spec fn spec_pick_limit(route: Option<usize>, app: Option<usize>, dflt: usize) -> usize {
    if route is Some {
        route->0
    } else if app is Some {
        app->0
    } else {
        dflt
    }
}

/// Which optional capability one route resolves to, by the same
/// most-specific-wins precedence.
pub open spec fn spec_pick<A>(route: Option<A>, app: Option<A>, dflt: Option<A>) -> Option<A> {
    if route is Some {
        route
    } else if app is Some {
        app
    } else {
        dflt
    }
}

/// Resolve the configuration for one route: a setting attached to the
/// route overrides one attached to the application, which overrides the
/// built-in defaults — each field independently, with no merging beyond
/// "unset falls through to the next level".
pub fn resolve_config<P, H>(
    route: ConfigOverrides<P, H>,
    app: ConfigOverrides<P, H>,
    defaults: ExtractorConfig<P, H>,
) -> (r: ExtractorConfig<P, H>)
    ensures
        r.size_limit == spec_pick_limit(route.size_limit, app.size_limit, defaults.size_limit),
        r.content_type_predicate == spec_pick(
            route.content_type_predicate,
            app.content_type_predicate,
            defaults.content_type_predicate,
        ),
        r.error_handler == spec_pick(route.error_handler, app.error_handler, defaults.error_handler),
{
    let size_limit = match (route.size_limit, app.size_limit) {
        (Some(l), _) => l,
        (None, Some(l)) => l,
        (None, None) => defaults.size_limit,
    };
    let content_type_predicate = match (route.content_type_predicate, app.content_type_predicate) {
        (Some(p), _) => Some(p),
        (None, Some(p)) => Some(p),
        (None, None) => defaults.content_type_predicate,
    };
    let error_handler = match (route.error_handler, app.error_handler) {
        (Some(h), _) => Some(h),
        (None, Some(h)) => Some(h),
        (None, None) => defaults.error_handler,
    };
    ExtractorConfig { size_limit, content_type_predicate, error_handler }
}

} // verus!
