//! Non-consuming builder: setters mutate the builder in place, so one builder
//! can produce several descriptors by varying a field between builds. The
//! price is that the required URL is only checked when `build` is called.
//!
//! Concurrent use of one builder from several threads is unsupported: this is
//! a single-threaded value type with no synchronization.

use vstd::prelude::*;

use crate::descriptor::{build_result_matches, BuildError, KeycloakClient};
use crate::state::{empty_state, with_method, with_url, BuilderState};

verus! {

/// Builder whose setters take `&mut self`, for straightforward local use.
/// Both fields start unset; only the URL is required to build.
pub struct KeycloakClientBuilder {
    pub url: Option<String>,
    pub method: Option<String>,
}

impl View for KeycloakClientBuilder {
    type V = BuilderState;

    open spec fn view(&self) -> BuilderState {
        BuilderState {
            url: match self.url {
                Some(u) => Some(u@),
                None => None,
            },
            method: match self.method {
                Some(m) => Some(m@),
                None => None,
            },
        }
    }
}

impl KeycloakClientBuilder {
    /// A builder with every field unset.
    pub fn new() -> (r: Self)
        ensures
            r@ == empty_state(),
    {
        KeycloakClientBuilder { url: None, method: None }
    }

    /// Record a URL, overwriting any earlier one; the method is untouched.
    pub fn url(&mut self, url: &str)
        ensures
            final(self)@ == with_url(old(self)@, url@),
    {
        self.url = Some(url.to_owned());
    }

    /// Record a method, overwriting any earlier one; the URL is untouched.
    pub fn method(&mut self, method: &str)
        ensures
            final(self)@ == with_method(old(self)@, method@),
    {
        self.method = Some(method.to_owned());
    }

    /// Produce a descriptor from the recorded fields, leaving the builder
    /// usable. Succeeds exactly when a URL was set; the method falls back to
    /// `"GET"` when none was set. Fails naming the missing `url` field.
    pub fn build(&self) -> (r: Result<KeycloakClient, BuildError>)
        ensures
            build_result_matches(self@, r),
    {
        match &self.url {
            None => Err(BuildError::MissingRequiredField("url".to_owned())),
            Some(url) => {
                let method = match &self.method {
                    Some(m) => m.clone(),
                    None => "GET".to_owned(),
                };
                Ok(KeycloakClient { url: url.clone(), method })
            },
        }
    }
}

} // verus!
