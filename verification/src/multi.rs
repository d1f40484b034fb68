//! Two-marker typestate builder: both the URL and the method are required,
//! and each field's presence is tracked by its own type parameter. Setting
//! one field transitions only its own coordinate, so the states scale as one
//! marker per field rather than one type per combination. `build` is only
//! defined once both coordinates are set, so it always succeeds.

use vstd::prelude::*;

use crate::descriptor::{build_result_matches, BuildError, KeycloakClient};
use crate::markers::{FieldState, Method, NoMethod, NoUrl, Url};
use crate::state::{empty_state, with_method, with_url, BuilderState};

verus! {

/// Builder with one typestate coordinate per required field: `U` is `NoUrl`
/// or `Url`, `M` is `NoMethod` or `Method`.
pub struct KeycloakClientBuilderWithTypestates<U, M> {
    url: U,
    method: M,
}

impl<U: FieldState, M: FieldState> View for KeycloakClientBuilderWithTypestates<U, M> {
    type V = BuilderState;

    closed spec fn view(&self) -> BuilderState {
        BuilderState { url: self.url.state_view(), method: self.method.state_view() }
    }
}

impl<U: FieldState, M: FieldState> Clone for KeycloakClientBuilderWithTypestates<U, M> {
    /// An independent duplicate holding the same fields; mutating one never
    /// affects the other.
    fn clone(&self) -> (r: Self)
        ensures
            r@ == self@,
    {
        KeycloakClientBuilderWithTypestates {
            url: self.url.duplicate(),
            method: self.method.duplicate(),
        }
    }
}

impl KeycloakClientBuilderWithTypestates<NoUrl, NoMethod> {
    /// A builder with every field unset; only this state is constructible
    /// from nothing.
    pub fn new() -> (r: Self)
        ensures
            r@ == empty_state(),
    {
        KeycloakClientBuilderWithTypestates { url: NoUrl, method: NoMethod }
    }
}

impl KeycloakClientBuilderWithTypestates<Url, Method> {
    /// Consume the builder and produce a descriptor. Reachable only once
    /// both fields are set, so it always succeeds with exactly the values
    /// supplied.
    pub fn build(self) -> (r: Result<KeycloakClient, BuildError>)
        ensures
            build_result_matches(self@, r),
            r is Ok,
    {
        Ok(KeycloakClient { url: self.url.0, method: self.method.0 })
    }
}

impl<U: FieldState, M: FieldState> KeycloakClientBuilderWithTypestates<U, M> {
    /// Record a URL, overwriting any earlier one. Only the URL coordinate of
    /// the typestate changes; the method coordinate keeps its marker and
    /// value.
    pub fn url(self, url: &str) -> (r: KeycloakClientBuilderWithTypestates<Url, M>)
        ensures
            r@ == with_url(self@, url@),
    {
        KeycloakClientBuilderWithTypestates { url: Url(url.to_owned()), method: self.method }
    }

    /// Record a method, overwriting any earlier one. Only the method
    /// coordinate of the typestate changes; the URL coordinate keeps its
    /// marker and value.
    pub fn method(self, method: &str) -> (r: KeycloakClientBuilderWithTypestates<U, Method>)
        ensures
            r@ == with_method(self@, method@),
    {
        KeycloakClientBuilderWithTypestates { url: self.url, method: Method(method.to_owned()) }
    }
}

} // verus!
