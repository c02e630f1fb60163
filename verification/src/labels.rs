//! The label values under which series are filed.
//!
//! A facade is fixed to one scope, internal traffic or external traffic, and
//! writes it as the first label value of every series it asks for: `"true"`
//! for internal, `"false"` for external. A counter series carries the status
//! of the event as its second value.

use vstd::prelude::*;

verus! {

/// The value of the `scope` label: `"true"` for internal traffic, `"false"`
/// for external traffic.
pub open spec fn scope_value(internal: bool) -> Seq<char> {
    if internal {
        "true"@
    } else {
        "false"@
    }
}

/// The label values of the one gauge series of a scope.
pub open spec fn gauge_labels(internal: bool) -> Seq<Seq<char>> {
    seq![scope_value(internal)]
}

/// The label values of the counter series of a scope and a status.
pub open spec fn status_labels(internal: bool, status: Seq<char>) -> Seq<Seq<char>> {
    seq![scope_value(internal), status]
}

/// The statuses whose series exist from the moment a facade is built.
pub open spec fn is_seeded(status: Seq<char>) -> bool {
    status == "success"@ || status == "error"@
}

/// The label values of the counter series that a facade of this scope
/// touches in each counter family when it is built.
pub open spec fn seeded_labels(internal: bool) -> Set<Seq<Seq<char>>> {
    set![status_labels(internal, "success"@), status_labels(internal, "error"@)]
}

/// The two scopes are written differently.
pub proof fn lemma_scope_values_differ()
    ensures
        scope_value(true) != scope_value(false),
{
    reveal_strlit("true");
    reveal_strlit("false");
    assert(scope_value(true).len() != scope_value(false).len());
}

/// Label values tell series apart: two requests for a counter series give
/// the same label values only if they agree in scope and in status, and two
/// requests for a gauge series only if they agree in scope.
pub proof fn lemma_labels_tell_series_apart(
    internal: bool,
    status: Seq<char>,
    other_internal: bool,
    other_status: Seq<char>,
)
    ensures
        status_labels(internal, status) == status_labels(other_internal, other_status) <==> (
        internal == other_internal && status == other_status),
        gauge_labels(internal) == gauge_labels(other_internal) <==> internal == other_internal,
{
    lemma_scope_values_differ();
    let one = status_labels(internal, status);
    let other = status_labels(other_internal, other_status);
    if one == other {
        assert(one[0] == other[0]);
        assert(one[1] == other[1]);
    }
    if gauge_labels(internal) == gauge_labels(other_internal) {
        assert(gauge_labels(internal)[0] == gauge_labels(other_internal)[0]);
    }
}

/// Facades of different scope never name the same series: whatever statuses
/// the two are asked for, the label values differ, and so do those of the
/// two gauge series.
pub proof fn lemma_scopes_never_share_labels(status: Seq<char>, other_status: Seq<char>)
    ensures
        status_labels(true, status) != status_labels(false, other_status),
        gauge_labels(true) != gauge_labels(false),
{
    lemma_labels_tell_series_apart(true, status, false, other_status);
}

/// Label values still tell series apart when they are written one after
/// another with nothing between them, which is the text that prometheus
/// hashes to file a series: the joined texts of two requests are equal only
/// if the requests agree in scope and in status.
pub proof fn lemma_joined_labels_tell_series_apart(
    internal: bool,
    status: Seq<char>,
    other_internal: bool,
    other_status: Seq<char>,
)
    ensures
        scope_value(internal) + status == scope_value(other_internal) + other_status <==> (
        internal == other_internal && status == other_status),
{
    reveal_strlit("true");
    reveal_strlit("false");
    let one = scope_value(internal) + status;
    let other = scope_value(other_internal) + other_status;
    if one == other {
        assert(one[0] == other[0]);
        assert(internal == other_internal);
        let shared: int = scope_value(internal).len() as int;
        assert(status =~= one.skip(shared));
        assert(other_status =~= other.skip(shared));
    }
}

/// The series that exist from the start are those of the seeded statuses
/// and of the facade's own scope, and no others: a request has the label
/// values of a seeded series exactly if it is made in that scope with the
/// status `"success"` or `"error"`.
pub proof fn lemma_seeded_labels_exact(internal: bool, other_internal: bool, status: Seq<char>)
    ensures
        seeded_labels(internal).contains(status_labels(other_internal, status)) <==> (
        internal == other_internal && is_seeded(status)),
{
    lemma_labels_tell_series_apart(other_internal, status, internal, "success"@);
    lemma_labels_tell_series_apart(other_internal, status, internal, "error"@);
}

/// A scope has two seeded series in each counter family: `"success"` and
/// `"error"` are different statuses.
pub proof fn lemma_seeded_labels_are_two(internal: bool)
    ensures
        seeded_labels(internal).finite(),
        seeded_labels(internal).len() == 2,
{
    reveal_strlit("success");
    reveal_strlit("error");
    assert("success"@.len() != "error"@.len());
    lemma_labels_tell_series_apart(internal, "success"@, internal, "error"@);
}

} // verus!
