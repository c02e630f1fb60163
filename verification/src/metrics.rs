//! The family bindings and the scoped facade.
//!
//! `MetricsConfig::register_into` makes the four families and registers them,
//! once, at startup. A `Metrics` wraps the bindings with one fixed scope and
//! derives the series for that scope on demand; building it touches every
//! series that is expected, so that each is exported at zero before the
//! first event.

use vstd::prelude::*;
use vstd::pervasive::unreached;
use crate::family::Family;
use crate::labels::{gauge_labels, scope_value, status_labels};
use crate::prom::{
    counter_family_labels, counter_family_name, counter_series, counter_with_label_values,
    gauge_family_labels, gauge_family_name, gauge_series, gauge_with_label_values,
    new_counter_family, new_gauge_family, register_counter_family, register_gauge_family,
    share_counter_family, share_gauge_family, texts, CounterFamily, CounterSeries, GaugeFamily,
    GaugeSeries,
};

verus! {

/// The registry refused a family. `cause` is the registry's own error.
#[derive(Debug)]
pub struct RegisterError {
    pub family: Family,
    pub cause: prometheus::Error,
}

impl RegisterError {
    /// What the registry's answer to registering `family` amounts to: nothing
    /// to report when it took the family, else its error under the family's
    /// name.
    pub fn from_outcome(family: Family, outcome: Result<(), prometheus::Error>) -> (settled:
        Result<(), RegisterError>)
        ensures
            outcome is Ok ==> settled is Ok,
            outcome matches Err(cause) ==> settled == Err::<(), RegisterError>(
                RegisterError { family, cause },
            ),
    {
        match outcome {
            Ok(()) => Ok(()),
            Err(cause) => Err(RegisterError { family, cause }),
        }
    }
}

/// Handles to the four registered families.
#[derive(Debug)]
pub struct MetricsConfig {
    active_connections: GaugeFamily,
    connection_status: CounterFamily,
    message_status: CounterFamily,
    query_status: CounterFamily,
}

/// Makes the gauge family and registers it.
fn bind_gauge(registry: &prometheus::Registry) -> (bound: Result<GaugeFamily, RegisterError>)
    ensures
        bound matches Ok(made) ==> {
            &&& gauge_family_name(made) == Family::ActiveConnections.name_text()
            &&& gauge_family_labels(made) == Family::ActiveConnections.label_names()
        },
        bound matches Err(refused) ==> refused.family == Family::ActiveConnections,
{
    let family = Family::ActiveConnections;
    let labels = ["scope"];
    proof {
        family.lemma_definition_accepted();
        assert(texts(labels@) =~= family.label_names());
    }
    let made = match new_gauge_family(family.name(), family.help(), labels.as_slice()) {
        Ok(made) => made,
        Err(_) => unreached(),
    };
    match RegisterError::from_outcome(family, register_gauge_family(registry, &made)) {
        Ok(()) => Ok(made),
        Err(refused) => Err(refused),
    }
}

/// Makes a counter family and registers it.
fn bind_counter(registry: &prometheus::Registry, family: Family) -> (bound: Result<
    CounterFamily,
    RegisterError,
>)
    requires
        !family.is_gauge(),
    ensures
        bound matches Ok(made) ==> {
            &&& counter_family_name(made) == family.name_text()
            &&& counter_family_labels(made) == family.label_names()
        },
        bound matches Err(refused) ==> refused.family == family,
{
    let labels = ["scope", "status"];
    proof {
        family.lemma_definition_accepted();
        assert(texts(labels@) =~= family.label_names());
    }
    let made = match new_counter_family(family.name(), family.help(), labels.as_slice()) {
        Ok(made) => made,
        Err(_) => unreached(),
    };
    match RegisterError::from_outcome(family, register_counter_family(registry, &made)) {
        Ok(()) => Ok(made),
        Err(refused) => Err(refused),
    }
}

impl MetricsConfig {
    /// The family behind `mz_active_connections`.
    pub closed spec fn active_connections_family(self) -> GaugeFamily {
        self.active_connections
    }

    /// The family behind `mz_connection_status`.
    pub closed spec fn connection_status_family(self) -> CounterFamily {
        self.connection_status
    }

    /// The family behind `mz_message_status`.
    pub closed spec fn message_status_family(self) -> CounterFamily {
        self.message_status
    }

    /// The family behind `mz_query_status`.
    pub closed spec fn query_status_family(self) -> CounterFamily {
        self.query_status
    }

    /// Each of the four handles is the family it is named after, with that
    /// family's name and label names.
    pub open spec fn declared(self) -> bool {
        &&& gauge_family_name(self.active_connections_family())
            == Family::ActiveConnections.name_text()
        &&& gauge_family_labels(self.active_connections_family())
            == Family::ActiveConnections.label_names()
        &&& counter_family_name(self.connection_status_family())
            == Family::ConnectionStatus.name_text()
        &&& counter_family_labels(self.connection_status_family())
            == Family::ConnectionStatus.label_names()
        &&& counter_family_name(self.message_status_family())
            == Family::MessageStatus.name_text()
        &&& counter_family_labels(self.message_status_family())
            == Family::MessageStatus.label_names()
        &&& counter_family_name(self.query_status_family()) == Family::QueryStatus.name_text()
        &&& counter_family_labels(self.query_status_family()) == Family::QueryStatus.label_names()
    }

    #[verifier::type_invariant]
    spec fn well_formed(self) -> bool {
        self.declared()
    }

    /// Makes the four families and registers each into `registry`, in the
    /// order gauge, connection, message, query.
    ///
    /// The registry decides whether it takes a family: it refuses a name that
    /// is already taken. The first refusal ends the call with the family and
    /// the registry's error; the families before it stay registered. A
    /// process should not start on such an error.
    pub fn register_into(registry: &prometheus::Registry) -> (bound: Result<Self, RegisterError>)
        ensures
            bound matches Ok(config) ==> config.declared(),
    {
        let active_connections = match bind_gauge(registry) {
            Ok(made) => made,
            Err(refused) => { return Err(refused); },
        };
        let connection_status = match bind_counter(registry, Family::ConnectionStatus) {
            Ok(made) => made,
            Err(refused) => { return Err(refused); },
        };
        let message_status = match bind_counter(registry, Family::MessageStatus) {
            Ok(made) => made,
            Err(refused) => { return Err(refused); },
        };
        let query_status = match bind_counter(registry, Family::QueryStatus) {
            Ok(made) => made,
            Err(refused) => { return Err(refused); },
        };
        Ok(MetricsConfig { active_connections, connection_status, message_status, query_status })
    }
}

impl Clone for MetricsConfig {
    /// A second bundle of handles to the same four families.
    fn clone(&self) -> (shared: Self)
        ensures
            shared == *self,
    {
        proof {
            use_type_invariant(self);
        }
        MetricsConfig {
            active_connections: share_gauge_family(&self.active_connections),
            connection_status: share_counter_family(&self.connection_status),
            message_status: share_counter_family(&self.message_status),
            query_status: share_counter_family(&self.query_status),
        }
    }
}

/// The series that a facade touches when it is built: the gauge series of
/// its scope, and in each counter family the series of its scope for the
/// statuses `"success"` and `"error"`.
#[derive(Debug)]
pub struct SeededSeries {
    pub active_connections: GaugeSeries,
    pub connection_success: CounterSeries,
    pub connection_error: CounterSeries,
    pub message_success: CounterSeries,
    pub message_error: CounterSeries,
    pub query_success: CounterSeries,
    pub query_error: CounterSeries,
}

/// The families, scoped to internal traffic or to external traffic.
#[derive(Debug)]
pub struct Metrics {
    inner: MetricsConfig,
    internal: bool,
}

impl Metrics {
    /// The bindings that the facade derives its series from.
    pub closed spec fn bindings(self) -> MetricsConfig {
        self.inner
    }

    /// Whether the facade counts internal traffic.
    pub closed spec fn is_internal(self) -> bool {
        self.internal
    }

    /// The gauge series of the facade's scope.
    pub open spec fn active_connections_series(self) -> GaugeSeries {
        gauge_series(
            self.bindings().active_connections_family(),
            gauge_labels(self.is_internal()),
        )
    }

    /// The connection counter of the facade's scope for a status.
    pub open spec fn connection_status_series(self, status: Seq<char>) -> CounterSeries {
        counter_series(
            self.bindings().connection_status_family(),
            status_labels(self.is_internal(), status),
        )
    }

    /// The message counter of the facade's scope for a status.
    pub open spec fn message_status_series(self, status: Seq<char>) -> CounterSeries {
        counter_series(
            self.bindings().message_status_family(),
            status_labels(self.is_internal(), status),
        )
    }

    /// The query counter of the facade's scope for a status.
    pub open spec fn query_status_series(self, status: Seq<char>) -> CounterSeries {
        counter_series(
            self.bindings().query_status_family(),
            status_labels(self.is_internal(), status),
        )
    }

    /// Same bindings, same scope and same status give the same series:
    /// whoever asks, and however often, the series is one.
    pub proof fn lemma_same_request_same_series(self, other: Metrics, status: Seq<char>)
        requires
            self.bindings() == other.bindings(),
            self.is_internal() == other.is_internal(),
        ensures
            self.active_connections_series() == other.active_connections_series(),
            self.connection_status_series(status) == other.connection_status_series(status),
            self.message_status_series(status) == other.message_status_series(status),
            self.query_status_series(status) == other.query_status_series(status),
    {
    }

    /// Wraps the bindings with a scope, and touches every series that is
    /// expected for it (see `seed`), so that each is exported from now on.
    /// The touch happens inside the shared families and leaves no trace in
    /// the facade.
    pub fn new(inner: MetricsConfig, internal: bool) -> (metrics: Self)
        ensures
            metrics.bindings() == inner,
            metrics.is_internal() == internal,
    {
        let metrics = Metrics { inner, internal };
        let _ = metrics.seed();
        metrics
    }

    /// Touches the series that are expected for the facade's scope, so that
    /// each exists, and hands them out. A series that was touched before is
    /// left as it is.
    pub fn seed(&self) -> (seeded: SeededSeries)
        ensures
            seeded.active_connections == self.active_connections_series(),
            seeded.connection_success == self.connection_status_series("success"@),
            seeded.connection_error == self.connection_status_series("error"@),
            seeded.message_success == self.message_status_series("success"@),
            seeded.message_error == self.message_status_series("error"@),
            seeded.query_success == self.query_status_series("success"@),
            seeded.query_error == self.query_status_series("error"@),
    {
        SeededSeries {
            active_connections: self.active_connections(),
            connection_success: self.connection_status("success"),
            connection_error: self.connection_status("error"),
            message_success: self.message_status("success"),
            message_error: self.message_status("error"),
            query_success: self.query_status("success"),
            query_error: self.query_status("error"),
        }
    }

    /// The series that counts the open connections of the facade's scope.
    pub fn active_connections(&self) -> (series: GaugeSeries)
        ensures
            series == self.active_connections_series(),
    {
        proof {
            use_type_invariant(&self.inner);
        }
        let values = [self.internal_label()];
        assert(texts(values@) =~= gauge_labels(self.is_internal()));
        gauge_with_label_values(&self.inner.active_connections, values.as_slice())
    }

    /// The series that counts the connection attempts of the facade's scope
    /// that ended in `status`.
    pub fn connection_status(&self, status: &str) -> (series: CounterSeries)
        ensures
            series == self.connection_status_series(status@),
    {
        proof {
            use_type_invariant(&self.inner);
        }
        let values = [self.internal_label(), status];
        assert(texts(values@) =~= status_labels(self.is_internal(), status@));
        counter_with_label_values(&self.inner.connection_status, values.as_slice())
    }

    /// The series that counts the protocol messages of the facade's scope
    /// that ended in `status`.
    pub fn message_status(&self, status: &str) -> (series: CounterSeries)
        ensures
            series == self.message_status_series(status@),
    {
        proof {
            use_type_invariant(&self.inner);
        }
        let values = [self.internal_label(), status];
        assert(texts(values@) =~= status_labels(self.is_internal(), status@));
        counter_with_label_values(&self.inner.message_status, values.as_slice())
    }

    /// The series that counts the queries of the facade's scope that ended
    /// in `status`.
    pub fn query_status(&self, status: &str) -> (series: CounterSeries)
        ensures
            series == self.query_status_series(status@),
    {
        proof {
            use_type_invariant(&self.inner);
        }
        let values = [self.internal_label(), status];
        assert(texts(values@) =~= status_labels(self.is_internal(), status@));
        counter_with_label_values(&self.inner.query_status, values.as_slice())
    }

    /// The value of the `scope` label for the facade's scope.
    pub fn internal_label(&self) -> (label: &'static str)
        ensures
            label@ == scope_value(self.is_internal()),
    {
        if self.internal {
            "true"
        } else {
            "false"
        }
    }
}

impl Clone for Metrics {
    /// A second facade over the same families, with the same scope.
    fn clone(&self) -> (shared: Self)
        ensures
            shared == *self,
    {
        Metrics { inner: self.inner.clone(), internal: self.internal }
    }
}

} // verus!
