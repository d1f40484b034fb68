//! Consuming builder: every setter takes the builder by value and returns a
//! new one, so a chain reads naturally and a superseded builder cannot be
//! used again. Branching one chain into two continuations goes through
//! `clone`, which yields an independent duplicate. As in the non-consuming
//! builder, the required URL is only checked when `build` is called.

use vstd::prelude::*;

use crate::descriptor::{build_result_matches, BuildError, KeycloakClient};
use crate::state::{empty_state, with_method, with_url, BuilderState};

verus! {

/// Builder whose setters consume `self`; only the URL is required to build.
pub struct KeycloakClientBuilderConsumer {
    url: Option<String>,
    method: Option<String>,
}

impl View for KeycloakClientBuilderConsumer {
    type V = BuilderState;

    closed spec fn view(&self) -> BuilderState {
        BuilderState {
            url: match self.url {
                Some(u) => Some(u@),
                None => None,
            },
            method: match self.method {
                Some(m) => Some(m@),
                None => None,
            },
        }
    }
}

impl Clone for KeycloakClientBuilderConsumer {
    /// An independent duplicate holding the same fields; mutating one never
    /// affects the other.
    fn clone(&self) -> (r: Self)
        ensures
            r@ == self@,
    {
        KeycloakClientBuilderConsumer {
            url: match &self.url {
                Some(u) => Some(u.clone()),
                None => None,
            },
            method: match &self.method {
                Some(m) => Some(m.clone()),
                None => None,
            },
        }
    }
}

impl KeycloakClientBuilderConsumer {
    /// A builder with every field unset.
    pub fn new() -> (r: Self)
        ensures
            r@ == empty_state(),
    {
        KeycloakClientBuilderConsumer { url: None, method: None }
    }

    /// Record a URL, overwriting any earlier one; the method is untouched.
    pub fn url(self, url: &str) -> (r: Self)
        ensures
            r@ == with_url(self@, url@),
    {
        KeycloakClientBuilderConsumer { url: Some(url.to_owned()), method: self.method }
    }

    /// Record a method, overwriting any earlier one; the URL is untouched.
    pub fn method(self, method: &str) -> (r: Self)
        ensures
            r@ == with_method(self@, method@),
    {
        KeycloakClientBuilderConsumer { url: self.url, method: Some(method.to_owned()) }
    }

    /// Consume the builder and produce a descriptor. Succeeds exactly when a
    /// URL was set; the method falls back to `"GET"` when none was set.
    /// Fails naming the missing `url` field.
    pub fn build(self) -> (r: Result<KeycloakClient, BuildError>)
        ensures
            build_result_matches(self@, r),
    {
        match self.url {
            None => Err(BuildError::MissingRequiredField("url".to_owned())),
            Some(url) => {
                let method = match self.method {
                    Some(m) => m,
                    None => "GET".to_owned(),
                };
                Ok(KeycloakClient { url, method })
            },
        }
    }
}

} // verus!
