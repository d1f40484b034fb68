//! Single-typestate builder: whether the required URL has been supplied is
//! part of the builder's type. `build` is only defined for builders of type
//! `KeycloakClientBuilderWithTypeState<Url>`, so a build without a URL is not
//! expressible and needs no runtime check: "missing required field" is not a
//! reachable state here, and `build` always succeeds.

use vstd::prelude::*;

use crate::descriptor::{build_result_matches, BuildError, KeycloakClient};
use crate::markers::{FieldState, NoUrl, Url};
use crate::state::{empty_state, with_method, with_url, BuilderState};

verus! {

/// Builder whose URL coordinate lives in the type parameter: `NoUrl` until a
/// URL is supplied, `Url` afterwards. The optional method stays a runtime
/// field, since nothing ever depends on its presence.
pub struct KeycloakClientBuilderWithTypeState<U> {
    url: U,
    method: Option<String>,
}

impl<U: FieldState> View for KeycloakClientBuilderWithTypeState<U> {
    type V = BuilderState;

    closed spec fn view(&self) -> BuilderState {
        BuilderState {
            url: self.url.state_view(),
            method: match self.method {
                Some(m) => Some(m@),
                None => None,
            },
        }
    }
}

impl<U: FieldState> Clone for KeycloakClientBuilderWithTypeState<U> {
    /// An independent duplicate holding the same fields; mutating one never
    /// affects the other.
    fn clone(&self) -> (r: Self)
        ensures
            r@ == self@,
    {
        KeycloakClientBuilderWithTypeState {
            url: self.url.duplicate(),
            method: match &self.method {
                Some(m) => Some(m.clone()),
                None => None,
            },
        }
    }
}

impl KeycloakClientBuilderWithTypeState<NoUrl> {
    /// A builder with every field unset; only this state is constructible
    /// from nothing.
    pub fn new() -> (r: Self)
        ensures
            r@ == empty_state(),
    {
        KeycloakClientBuilderWithTypeState { url: NoUrl, method: None }
    }
}

impl KeycloakClientBuilderWithTypeState<Url> {
    /// Consume the builder and produce a descriptor. Reachable only once the
    /// URL is set, so it always succeeds; the method falls back to `"GET"`
    /// when none was set.
    pub fn build(self) -> (r: Result<KeycloakClient, BuildError>)
        ensures
            build_result_matches(self@, r),
            r is Ok,
    {
        let method = match self.method {
            Some(m) => m,
            None => "GET".to_owned(),
        };
        Ok(KeycloakClient { url: self.url.0, method })
    }
}

impl<U: FieldState> KeycloakClientBuilderWithTypeState<U> {
    /// Record a URL, overwriting any earlier one; the method is untouched.
    /// The result's type records that the URL is now set.
    pub fn url(self, url: &str) -> (r: KeycloakClientBuilderWithTypeState<Url>)
        ensures
            r@ == with_url(self@, url@),
    {
        KeycloakClientBuilderWithTypeState { url: Url(url.to_owned()), method: self.method }
    }

    /// Record a method, overwriting any earlier one; the URL is untouched.
    pub fn method(self, method: &str) -> (r: Self)
        ensures
            r@ == with_method(self@, method@),
    {
        KeycloakClientBuilderWithTypeState { url: self.url, method: Some(method.to_owned()) }
    }
}

} // verus!
