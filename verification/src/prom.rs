//! The boundary to the `prometheus` crate.
//!
//! What this module says of prometheus is believed, not proved: the types
//! stand for prometheus's own, the spec functions without a body name what
//! prometheus keeps or hands out, and each executable function makes a
//! single call, under a contract that was read off prometheus's source. The
//! rest of the crate is verified against these contracts.
//!
//! Families and series are shared handles. A family's name and label names
//! are fixed when it is made, and so is the series that it files under a
//! tuple of label values; the number that a series holds changes under every
//! holder's hands and is named nowhere in this crate.

use vstd::prelude::*;

verus! {

/// prometheus's `Registry`, carried through as an opaque value.
#[verifier::external_type_specification]
#[verifier::external_body]
pub struct ExRegistry(prometheus::Registry);

/// prometheus's `Error`, carried through as an opaque value.
#[verifier::external_type_specification]
#[verifier::external_body]
pub struct ExError(prometheus::Error);

/// A family of counters: prometheus's `IntCounterVec`.
///
/// The builder type in the alias behind `IntCounterVec` has no public path,
/// so the handle is kept in a struct whose body the verifier does not read.
#[derive(Debug)]
#[verifier::external_body]
pub struct CounterFamily {
    inner: prometheus::IntCounterVec,
}

/// A family of gauges: prometheus's `IntGaugeVec`, kept as `CounterFamily` is.
#[derive(Debug)]
#[verifier::external_body]
pub struct GaugeFamily {
    inner: prometheus::IntGaugeVec,
}

/// One counter series. `handle` is prometheus's `IntCounter`: callers
/// increment and read it directly.
///
/// prometheus bounds the type behind `IntCounter` by a trait of its own,
/// which the verifier does not know, so the handle is kept as a family's is.
#[derive(Debug)]
#[verifier::external_body]
pub struct CounterSeries {
    pub handle: prometheus::IntCounter,
}

/// One gauge series. `handle` is prometheus's `IntGauge`: callers move it up
/// and down and read it directly. It is kept as a counter series is.
#[derive(Debug)]
#[verifier::external_body]
pub struct GaugeSeries {
    pub handle: prometheus::IntGauge,
}

/// The fully qualified name in the descriptor of a counter family.
pub uninterp spec fn counter_family_name(family: CounterFamily) -> Seq<char>;

/// The variable label names in the descriptor of a counter family, in order.
pub uninterp spec fn counter_family_labels(family: CounterFamily) -> Seq<Seq<char>>;

/// The series that a counter family hands out for a tuple of label values.
/// A family keeps every series that it has made, and nothing in this crate
/// takes one out, so the series for a tuple is the same at every call.
pub uninterp spec fn counter_series(family: CounterFamily, values: Seq<Seq<char>>) -> CounterSeries;

/// The fully qualified name in the descriptor of a gauge family.
pub uninterp spec fn gauge_family_name(family: GaugeFamily) -> Seq<char>;

/// The variable label names in the descriptor of a gauge family, in order.
pub uninterp spec fn gauge_family_labels(family: GaugeFamily) -> Seq<Seq<char>>;

/// The series that a gauge family hands out for a tuple of label values,
/// the same at every call as for a counter family.
pub uninterp spec fn gauge_series(family: GaugeFamily, values: Seq<Seq<char>>) -> GaugeSeries;

/// The texts of a list of string slices.
pub open spec fn texts(items: Seq<&str>) -> Seq<Seq<char>> {
    items.map_values(|item: &str| item@)
}

/// An ASCII letter.
pub open spec fn is_letter(c: char) -> bool {
    ('a' <= c && c <= 'z') || ('A' <= c && c <= 'Z')
}

/// An ASCII digit.
pub open spec fn is_digit(c: char) -> bool {
    '0' <= c && c <= '9'
}

/// A character that may open a label name.
pub open spec fn opens_label_name(c: char) -> bool {
    is_letter(c) || c == '_'
}

/// A character that may open a metric name.
pub open spec fn opens_metric_name(c: char) -> bool {
    opens_label_name(c) || c == ':'
}

/// The label names that prometheus accepts: `[a-zA-Z_][a-zA-Z0-9_]*`.
pub open spec fn valid_label_name(name: Seq<char>) -> bool {
    &&& name.len() > 0
    &&& opens_label_name(name[0])
    &&& forall|i: int|
        0 < i < name.len() ==> opens_label_name(#[trigger] name[i]) || is_digit(name[i])
}

/// The metric names that prometheus accepts: `[a-zA-Z_:][a-zA-Z0-9_:]*`.
pub open spec fn valid_metric_name(name: Seq<char>) -> bool {
    &&& name.len() > 0
    &&& opens_metric_name(name[0])
    &&& forall|i: int|
        0 < i < name.len() ==> opens_metric_name(#[trigger] name[i]) || is_digit(name[i])
}

/// The family definitions that prometheus accepts when no namespace,
/// subsystem or constant label is set: a help text that is not empty, a valid
/// metric name, and valid label names of which no two are equal.
pub open spec fn accepted_definition(
    name: Seq<char>,
    help: Seq<char>,
    labels: Seq<Seq<char>>,
) -> bool {
    &&& help.len() > 0
    &&& valid_metric_name(name)
    &&& forall|i: int| 0 <= i < labels.len() ==> valid_label_name(#[trigger] labels[i])
    &&& forall|i: int, j: int| 0 <= i < j < labels.len() ==> labels[i] != labels[j]
}

/// Calls `IntCounterVec::new` on `Opts::new(name, help)` and `labels`.
///
/// Claimed of it: it succeeds exactly on the definitions that
/// `accepted_definition` describes, which are the checks that prometheus
/// makes when it builds the descriptor; and the family that it makes carries
/// `name` as its fully qualified name and `labels` as its label names.
#[verifier::external_body]
pub(crate) fn new_counter_family(name: &str, help: &str, labels: &[&str]) -> (made: Result<
    CounterFamily,
    prometheus::Error,
>)
    ensures
        made is Ok <==> accepted_definition(name@, help@, texts(labels@)),
        made matches Ok(family) ==> {
            &&& counter_family_name(family) == name@
            &&& counter_family_labels(family) == texts(labels@)
        },
{
    let inner = prometheus::IntCounterVec::new(prometheus::Opts::new(name, help), labels)?;
    Ok(CounterFamily { inner })
}

/// Calls `IntGaugeVec::new` on `Opts::new(name, help)` and `labels`.
///
/// Claimed of it: what is claimed of `new_counter_family`, for a gauge family.
#[verifier::external_body]
pub(crate) fn new_gauge_family(name: &str, help: &str, labels: &[&str]) -> (made: Result<
    GaugeFamily,
    prometheus::Error,
>)
    ensures
        made is Ok <==> accepted_definition(name@, help@, texts(labels@)),
        made matches Ok(family) ==> {
            &&& gauge_family_name(family) == name@
            &&& gauge_family_labels(family) == texts(labels@)
        },
{
    let inner = prometheus::IntGaugeVec::new(prometheus::Opts::new(name, help), labels)?;
    Ok(GaugeFamily { inner })
}

/// Calls `Registry::register` on a boxed handle to the family.
///
/// Nothing is claimed of the outcome: whether the registry takes the family
/// depends on what was registered before.
#[verifier::external_body]
pub(crate) fn register_counter_family(
    registry: &prometheus::Registry,
    family: &CounterFamily,
) -> (outcome: Result<(), prometheus::Error>) {
    registry.register(Box::new(family.inner.clone()))
}

/// Calls `Registry::register` on a boxed handle to the family.
///
/// Nothing is claimed of the outcome: whether the registry takes the family
/// depends on what was registered before.
#[verifier::external_body]
pub(crate) fn register_gauge_family(
    registry: &prometheus::Registry,
    family: &GaugeFamily,
) -> (outcome: Result<(), prometheus::Error>) {
    registry.register(Box::new(family.inner.clone()))
}

/// Calls `IntCounterVec::with_label_values`, which panics unless it is given
/// one value for each label name of the family.
///
/// Claimed of it: the handle that comes back is the family's series for
/// these values. prometheus makes the series on the first call and hands
/// out the same one on every later call with the same values.
#[verifier::external_body]
pub(crate) fn counter_with_label_values(family: &CounterFamily, values: &[&str]) -> (series:
    CounterSeries)
    requires
        values@.len() == counter_family_labels(*family).len(),
    ensures
        series == counter_series(*family, texts(values@)),
{
    CounterSeries { handle: family.inner.with_label_values(values) }
}

/// Calls `IntGaugeVec::with_label_values`, which panics unless it is given
/// one value for each label name of the family.
///
/// Claimed of it: what is claimed of `counter_with_label_values`, for a gauge
/// family.
#[verifier::external_body]
pub(crate) fn gauge_with_label_values(family: &GaugeFamily, values: &[&str]) -> (series:
    GaugeSeries)
    requires
        values@.len() == gauge_family_labels(*family).len(),
    ensures
        series == gauge_series(*family, texts(values@)),
{
    GaugeSeries { handle: family.inner.with_label_values(values) }
}

/// Calls `IntCounterVec::clone`.
///
/// Claimed of it: the clone is a second handle to the same family, with the
/// same descriptor and the same series.
#[verifier::external_body]
pub(crate) fn share_counter_family(family: &CounterFamily) -> (shared: CounterFamily)
    ensures
        shared == *family,
{
    CounterFamily { inner: family.inner.clone() }
}

/// Calls `IntGaugeVec::clone`.
///
/// Claimed of it: the clone is a second handle to the same family, with the
/// same descriptor and the same series.
#[verifier::external_body]
pub(crate) fn share_gauge_family(family: &GaugeFamily) -> (shared: GaugeFamily)
    ensures
        shared == *family,
{
    GaugeFamily { inner: family.inner.clone() }
}

} // verus!
