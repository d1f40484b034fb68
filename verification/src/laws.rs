//! Laws of the builder model. Every builder variant states its contract over
//! the same `BuilderState` transitions (`with_url`, `with_method`) and the
//! same finalization relation, so these laws apply to all of them at once.
//! `BuilderOp` and `apply_ops` let a law quantify over whole call sequences.

use vstd::prelude::*;

use crate::state::{
    can_finalize, default_method, empty_state, finalized, with_method, with_url, BuilderState,
};

verus! {

/// One builder operation: supplying a URL or supplying a method.
pub enum BuilderOp {
    SetUrl(Seq<char>),
    SetMethod(Seq<char>),
}

/// The state transition a single operation performs.
pub open spec fn apply_op(s: BuilderState, op: BuilderOp) -> BuilderState {
    match op {
        BuilderOp::SetUrl(v) => with_url(s, v),
        BuilderOp::SetMethod(v) => with_method(s, v),
    }
}

/// The state after performing a sequence of operations, in order.
pub open spec fn apply_ops(s: BuilderState, ops: Seq<BuilderOp>) -> BuilderState
    decreases ops.len(),
{
    if ops.len() == 0 {
        s
    } else {
        apply_op(apply_ops(s, ops.drop_last()), ops.last())
    }
}

/// Completeness is required: no sequence of method-only operations starting
/// from a builder without a URL ever reaches a finalizable state, so a
/// runtime-checked build after such a sequence fails naming the `url` field,
/// and the typestate builders never leave the `NoUrl` coordinate. In
/// particular this holds starting from `empty_state()`.
pub proof fn lemma_optional_only_never_finalizes(s: BuilderState, ops: Seq<BuilderOp>)
    requires
        s.url is None,
        forall|i: int| 0 <= i < ops.len() ==> ops[i] is SetMethod,
    ensures
        apply_ops(s, ops).url is None,
        !can_finalize(apply_ops(s, ops)),
    decreases ops.len(),
{
    if ops.len() > 0 {
        lemma_optional_only_never_finalizes(s, ops.drop_last());
    }
}

/// Monotonic satisfaction: once a field has been set, no later operation can
/// revert it to unset — operations only overwrite.
pub proof fn lemma_set_fields_stay_set(s: BuilderState, ops: Seq<BuilderOp>)
    ensures
        s.url is Some ==> apply_ops(s, ops).url is Some,
        s.method is Some ==> apply_ops(s, ops).method is Some,
    decreases ops.len(),
{
    if ops.len() > 0 {
        lemma_set_fields_stay_set(s, ops.drop_last());
    }
}

/// Default method: finalizing a builder whose URL is set and whose method was
/// never set yields a descriptor whose method is `"GET"`.
pub proof fn lemma_default_method(s: BuilderState)
    requires
        s.url is Some,
        s.method is None,
    ensures
        finalized(s).method == default_method(),
        finalized(s).url == s.url->0,
{
}

/// Last write wins: setting the method twice is the same as setting it once
/// to the second value, and a descriptor finalized afterwards carries that
/// second value. The same holds for the URL.
pub proof fn lemma_last_write_wins(s: BuilderState, v1: Seq<char>, v2: Seq<char>)
    ensures
        with_method(with_method(s, v1), v2) == with_method(s, v2),
        with_url(with_url(s, v1), v2) == with_url(s, v2),
        finalized(with_method(with_url(s, v1), v2)).method == v2,
{
}

/// Independence: setting one required field leaves the other field's state —
/// set or unset, and its value — unchanged, and the two setters commute, so
/// the order of calls does not matter.
pub proof fn lemma_field_independence(s: BuilderState, u: Seq<char>, m: Seq<char>)
    ensures
        with_url(s, u).method == s.method,
        with_method(s, m).url == s.url,
        with_url(with_method(s, m), u) == with_method(with_url(s, u), m),
{
}

/// Duplication isolation: applying an operation to a duplicate of a builder
/// changes only that operation's own coordinate relative to the original,
/// and the original's state is the value it was duplicated at. Together with
/// `clone`, which yields a duplicate with the original's state, setting a
/// field on a duplicate never affects the original.
pub proof fn lemma_duplicate_isolation(s: BuilderState, d: BuilderState, op: BuilderOp)
    requires
        d == s,
    ensures
        op is SetUrl ==> apply_op(d, op).method == s.method,
        op is SetMethod ==> apply_op(d, op).url == s.url,
{
}

} // verus!
