//! The finished client descriptor and the one error a runtime-checked build
//! can produce.

use vstd::prelude::*;

use crate::state::{can_finalize, finalized, url_field, BuilderState, ClientView};

verus! {

/// Immutable record a successful build produces: a URL and an HTTP method.
/// It is a pure value with no further lifecycle.
#[derive(Debug)]
pub struct KeycloakClient {
    pub url: String,
    pub method: String,
}

impl View for KeycloakClient {
    type V = ClientView;

    open spec fn view(&self) -> ClientView {
        ClientView { url: self.url@, method: self.method@ }
    }
}

/// The only error kind in the system: a build was attempted while a required
/// field, named by the payload, was still unset. It is always recoverable by
/// the caller: set the field and retry.
#[derive(Debug, PartialEq, Eq)]
pub enum BuildError {
    MissingRequiredField(String),
}

/// What a build returns, as a relation between the builder's state and the
/// outcome: success exactly when the required URL is present, and then the
/// finished descriptor; otherwise the error naming the missing URL field.
pub open spec fn build_result_matches(s: BuilderState, r: Result<KeycloakClient, BuildError>) -> bool {
    match r {
        Ok(c) => can_finalize(s) && c@ == finalized(s),
        Err(e) => !can_finalize(s) && (e matches BuildError::MissingRequiredField(f) && f@
            == url_field()),
    }
}

} // verus!
