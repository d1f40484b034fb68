//! Mathematical model of a builder: which fields hold a value, and what the
//! finished descriptor looks like once the required field is present.

use vstd::prelude::*;

verus! {

/// Abstract state of a builder: the URL (required in every variant) and the
/// HTTP method (optional in the single-required-field variants, required in
/// the two-marker typestate variant). `None` means the field was never set.
pub struct BuilderState {
    pub url: Option<Seq<char>>,
    pub method: Option<Seq<char>>,
}

/// Abstract value of a finished client descriptor.
pub struct ClientView {
    pub url: Seq<char>,
    pub method: Seq<char>,
}

/// Name of the one required field of the runtime-checked builders, as it is
/// reported when a build is attempted without it.
pub open spec fn url_field() -> Seq<char> {
    "url"@
}

/// Method a descriptor carries when no method was ever supplied.
pub open spec fn default_method() -> Seq<char> {
    "GET"@
}

/// State of a freshly created builder: nothing set.
pub open spec fn empty_state() -> BuilderState {
    BuilderState { url: None, method: None }
}

/// State after supplying a URL: only the URL coordinate changes.
pub open spec fn with_url(s: BuilderState, v: Seq<char>) -> BuilderState {
    BuilderState { url: Some(v), method: s.method }
}

/// State after supplying a method: only the method coordinate changes.
pub open spec fn with_method(s: BuilderState, v: Seq<char>) -> BuilderState {
    BuilderState { url: s.url, method: Some(v) }
}

/// A build succeeds exactly when the required URL is present.
pub open spec fn can_finalize(s: BuilderState) -> bool {
    s.url is Some
}

/// The descriptor a successful build produces: the URL as supplied, and the
/// last method supplied, or the default when none ever was.
pub open spec fn finalized(s: BuilderState) -> ClientView
    recommends
        can_finalize(s),
{
    ClientView {
        url: s.url->0,
        method: if s.method is Some {
            s.method->0
        } else {
            default_method()
        },
    }
}

} // verus!
