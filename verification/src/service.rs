//! The state a service binding keeps of itself: the agent it runs as and
//! the connection id it reports.

use vstd::prelude::*;
use crate::naming::AgentName;

verus! {

/// The connection id of a service: the id of the connection it opened to a
/// remote endpoint, or `u64::MAX` for a service that opened none (a server,
/// for which the id is not used).
pub open spec fn conn_id_for(connection: Option<u64>) -> u64 {
    match connection {
        Some(c) => c,
        None => u64::MAX,
    }
}

/// What a service is, abstractly: its agent and its connection id.
pub struct ServiceView {
    pub agent: AgentName,
    pub conn_id: u64,
}

/// A running service binding, as far as its own state goes.
pub struct PyService {
    agent: AgentName,
    conn_id: u64,
}

impl View for PyService {
    type V = ServiceView;

    closed spec fn view(&self) -> ServiceView {
        ServiceView { agent: self.agent, conn_id: self.conn_id }
    }
}

/// The connection id for the outcome of connecting: the connection's id, or
/// `u64::MAX` where no client configuration was given and nothing connected.
pub fn resolve_conn_id(connection: Option<u64>) -> (r: u64)
    ensures
        r == conn_id_for(connection),
        connection is None ==> r == u64::MAX,
        connection matches Some(c) ==> r == c,
{
    match connection {
        Some(c) => c,
        None => u64::MAX,
    }
}

impl PyService {
    /// The service of `agent`, with the connection it opened, if any.
    pub fn new(agent: AgentName, connection: Option<u64>) -> (s: Self)
        ensures
            s@ == (ServiceView { agent, conn_id: conn_id_for(connection) }),
            s@.agent == agent,
            connection is None ==> s@.conn_id == u64::MAX,
            connection matches Some(c) ==> s@.conn_id == c,
    {
        PyService { agent, conn_id: resolve_conn_id(connection) }
    }

    /// The id of the agent this service runs as.
    pub fn id(&self) -> (r: u64)
        ensures
            r == self@.agent.id,
    {
        self.agent.id
    }

    /// The id of the connection this service opened (`u64::MAX` for a server).
    pub fn conn_id(&self) -> (r: u64)
        ensures
            r == self@.conn_id,
    {
        self.conn_id
    }
}

/// Law: a service that opened no connection (a server) has connection id
/// `u64::MAX`; one that opened a connection has that connection's id.
pub proof fn law_service_getters(agent: AgentName, connection: Option<u64>)
    ensures
        conn_id_for(None) == u64::MAX,
        forall|c: u64| #[trigger] conn_id_for(Some(c)) == c,
        (ServiceView { agent, conn_id: conn_id_for(connection) }).agent.id == agent.id,
{
}

} // verus!
