//! Typestate markers. A builder that encodes required-field presence in its
//! type carries, for each required field, either an "unset" marker or a "set"
//! marker holding the value. `FieldState` gives every marker a common
//! abstract reading, so the typestate builders share the one builder model.

use vstd::prelude::*;

verus! {

/// Abstract reading of a typestate marker: the value it holds, if any.
/// `duplicate` yields an independent copy with the same reading.
pub trait FieldState: Sized {
    spec fn state_view(&self) -> Option<Seq<char>>;

    fn duplicate(&self) -> (r: Self)
        ensures
            r.state_view() == self.state_view(),
    ;
}

/// Marker: the URL has not been supplied yet.
pub struct NoUrl;

/// Marker: the URL has been supplied, and this is it.
pub struct Url(pub String);

/// Marker: the method has not been supplied yet.
pub struct NoMethod;

/// Marker: the method has been supplied, and this is it.
pub struct Method(pub String);

impl FieldState for NoUrl {
    open spec fn state_view(&self) -> Option<Seq<char>> {
        None
    }

    fn duplicate(&self) -> (r: Self) {
        NoUrl
    }
}

impl FieldState for Url {
    open spec fn state_view(&self) -> Option<Seq<char>> {
        Some(self.0@)
    }

    fn duplicate(&self) -> (r: Self) {
        Url(self.0.clone())
    }
}

impl FieldState for NoMethod {
    open spec fn state_view(&self) -> Option<Seq<char>> {
        None
    }

    fn duplicate(&self) -> (r: Self) {
        NoMethod
    }
}

impl FieldState for Method {
    open spec fn state_view(&self) -> Option<Seq<char>> {
        Some(self.0@)
    }

    fn duplicate(&self) -> (r: Self) {
        Method(self.0.clone())
    }
}

} // verus!
