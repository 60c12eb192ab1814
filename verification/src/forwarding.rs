//! The forwarding headers a proxied request keeps or gains, so that the
//! control panel behind the service sees the address the client used, and
//! the OpenAPI document's type.
use vstd::prelude::*;

verus! {

/// The service's OpenAPI document; its content is generated from the
/// routes' annotations.
#[derive(Clone, Copy, Debug)]
pub struct ApiDoc;

/// The headers added to a request: `x-forwarded-host` (a copy of `host`)
/// and `x-forwarded-proto`, each only when the request has none.
#[derive(Debug)]
pub struct ForwardedHeaders {
    pub forwarded_host: Option<String>,
    pub forwarded_proto: Option<&'static str>,
}

/// Works out the forwarding headers to add: the request's `host` as
/// `x-forwarded-host` when that header is missing, and its scheme ("https"
/// for HTTPS, "http" otherwise) as `x-forwarded-proto` when that is missing.
pub fn forwarded_headers(
    scheme_is_https: bool,
    host: Option<String>,
    has_forwarded_host: bool,
    has_forwarded_proto: bool,
) -> (r: ForwardedHeaders)
    ensures
        r.forwarded_host == (if has_forwarded_host {
            None
        } else {
            host
        }),
        match r.forwarded_proto {
            None => has_forwarded_proto,
            Some(p) => !has_forwarded_proto && p@ == if scheme_is_https {
                "https"@
            } else {
                "http"@
            },
        },
{
    let proto: &'static str = if scheme_is_https {
        "https"
    } else {
        "http"
    };
    ForwardedHeaders {
        forwarded_host: if has_forwarded_host {
            None
        } else {
            host
        },
        forwarded_proto: if has_forwarded_proto {
            None
        } else {
            Some(proto)
        },
    }
}

} // verus!
