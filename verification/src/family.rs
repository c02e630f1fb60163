//! The four metric families that the service exposes: their names, their
//! label names and their help texts. Dashboards and alerts key on the names
//! and the label names, letter for letter.

use vstd::prelude::*;
use crate::prom::{accepted_definition, valid_label_name, valid_metric_name};

verus! {

/// One of the families. `ActiveConnections` is a gauge, the others are
/// counters.
#[derive(Clone, Copy, Debug, PartialEq, Eq, Structural)]
pub enum Family {
    ActiveConnections,
    ConnectionStatus,
    MessageStatus,
    QueryStatus,
}

impl Family {
    /// Whether the family's series move both ways.
    pub open spec fn is_gauge(self) -> bool {
        self == Family::ActiveConnections
    }

    /// The name under which the family is exposed.
    pub open spec fn name_text(self) -> Seq<char> {
        match self {
            Family::ActiveConnections => "mz_active_connections"@,
            Family::ConnectionStatus => "mz_connection_status"@,
            Family::MessageStatus => "mz_message_status"@,
            Family::QueryStatus => "mz_query_status"@,
        }
    }

    /// What the family's series count.
    pub open spec fn help_text(self) -> Seq<char> {
        match self {
            Family::ActiveConnections => "current open-connection count"@,
            Family::ConnectionStatus => "cumulative count of connection attempts by outcome"@,
            Family::MessageStatus => "cumulative count of protocol messages by outcome"@,
            Family::QueryStatus => "cumulative count of queries by outcome"@,
        }
    }

    /// The family's label names, in the order in which values are given:
    /// `scope` alone for the gauge, `scope` and `status` for a counter.
    pub open spec fn label_names(self) -> Seq<Seq<char>> {
        if self.is_gauge() {
            seq!["scope"@]
        } else {
            seq!["scope"@, "status"@]
        }
    }

    /// The name under which the family is exposed.
    pub fn name(self) -> (name: &'static str)
        ensures
            name@ == self.name_text(),
    {
        match self {
            Family::ActiveConnections => "mz_active_connections",
            Family::ConnectionStatus => "mz_connection_status",
            Family::MessageStatus => "mz_message_status",
            Family::QueryStatus => "mz_query_status",
        }
    }

    /// What the family's series count.
    pub fn help(self) -> (help: &'static str)
        ensures
            help@ == self.help_text(),
    {
        match self {
            Family::ActiveConnections => "current open-connection count",
            Family::ConnectionStatus => "cumulative count of connection attempts by outcome",
            Family::MessageStatus => "cumulative count of protocol messages by outcome",
            Family::QueryStatus => "cumulative count of queries by outcome",
        }
    }

    /// A family is known by its name: no two families share one, so a
    /// registry that holds none of the four names can take all four.
    pub proof fn lemma_names_differ(self, other: Family)
        ensures
            self.name_text() == other.name_text() <==> self == other,
    {
        reveal_strlit("mz_active_connections");
        reveal_strlit("mz_connection_status");
        reveal_strlit("mz_message_status");
        reveal_strlit("mz_query_status");
        if self != other {
            assert(self.name_text().len() != other.name_text().len());
        }
    }

    /// Every family is a definition that prometheus accepts: its help text is
    /// not empty, its name is a valid metric name, and its label names are
    /// valid and differ from each other.
    pub proof fn lemma_definition_accepted(self)
        ensures
            accepted_definition(self.name_text(), self.help_text(), self.label_names()),
    {
        reveal_strlit("mz_active_connections");
        reveal_strlit("mz_connection_status");
        reveal_strlit("mz_message_status");
        reveal_strlit("mz_query_status");
        reveal_strlit("current open-connection count");
        reveal_strlit("cumulative count of connection attempts by outcome");
        reveal_strlit("cumulative count of protocol messages by outcome");
        reveal_strlit("cumulative count of queries by outcome");
        reveal_strlit("scope");
        reveal_strlit("status");
        assert(valid_label_name("scope"@));
        assert(valid_label_name("status"@));
        assert(valid_metric_name(self.name_text()));
    }
}

} // verus!
