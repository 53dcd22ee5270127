//! Agent names. An agent type is named by three strings (organization,
//! namespace, type); SLIM addresses it by the hashes of those strings, and an
//! agent by its type's hashes and a numeric id.

use vstd::prelude::*;
use slim_datapath::messages::encoder::{calculate_hash, Agent, AgentType};

verus! {

/// The class of an agent: the hashes of its organization, namespace and
/// agent type.
#[derive(Clone, Copy, Debug, PartialEq, Eq, Structural)]
pub struct AgentClass {
    pub organization: u64,
    pub namespace: u64,
    pub agent_type: u64,
}

/// A fully qualified agent: its class and its id within the class.
#[derive(Clone, Copy, Debug, PartialEq, Eq, Structural)]
pub struct AgentName {
    pub class: AgentClass,
    pub id: u64,
}

/// An agent type as the caller names it, by its three strings.
#[derive(Clone, Debug, PartialEq, Eq)]
pub struct PyAgentType {
    pub organization: String,
    pub namespace: String,
    pub agent_type: String,
}

/// The hash that SLIM gives a string (`calculate_hash` of `slim_datapath`,
/// a `DefaultHasher` over the string).
pub uninterp spec fn str_hash(s: Seq<char>) -> u64;

/// The class named by three strings: each component is the hash of its string.
pub open spec fn class_of_strings(organization: Seq<char>, namespace: Seq<char>, agent_type: Seq<char>) -> AgentClass {
    AgentClass {
        organization: str_hash(organization),
        namespace: str_hash(namespace),
        agent_type: str_hash(agent_type),
    }
}

/// The class that a `PyAgentType` names.
pub open spec fn class_of_type(name: PyAgentType) -> AgentClass {
    class_of_strings(name.organization@, name.namespace@, name.agent_type@)
}

/// Calls `slim_datapath::messages::encoder::calculate_hash` on a string.
/// Trusted: the result is `str_hash` of the string, a function of the
/// string alone.
#[verifier::external_body]
pub(crate) fn hash_str(s: &str) -> (r: u64)
    ensures
        r == str_hash(s@),
{
    calculate_hash(s)
}

/// Calls `AgentType::from_strings` and reads back its three components.
/// Trusted: as its source shows, each component is `calculate_hash` of the
/// corresponding string.
#[verifier::external_body]
fn agent_type_from_strings(organization: &str, namespace: &str, agent_type: &str) -> (r: AgentClass)
    ensures
        r.organization == str_hash(organization@),
        r.namespace == str_hash(namespace@),
        r.agent_type == str_hash(agent_type@),
{
    let t = AgentType::from_strings(organization, namespace, agent_type);
    AgentClass {
        organization: t.organization(),
        namespace: t.namespace(),
        agent_type: t.agent_type(),
    }
}

/// Calls `Agent::from_strings` and reads back its class and id.
/// Trusted: as its source shows, the agent's type is
/// `AgentType::from_strings` of the three strings and its id is `agent_id`.
#[verifier::external_body]
pub(crate) fn agent_from_strings(
    organization: &str,
    namespace: &str,
    agent_type: &str,
    agent_id: u64,
) -> (r: AgentName)
    ensures
        r.class.organization == str_hash(organization@),
        r.class.namespace == str_hash(namespace@),
        r.class.agent_type == str_hash(agent_type@),
        r.id == agent_id,
{
    let a = Agent::from_strings(organization, namespace, agent_type, agent_id);
    AgentName {
        class: AgentClass {
            organization: a.agent_type().organization(),
            namespace: a.agent_type().namespace(),
            agent_type: a.agent_type().agent_type(),
        },
        id: a.agent_id(),
    }
}

impl PyAgentType {
    /// The class this agent type names: the hashes of its three strings.
    pub fn class(&self) -> (r: AgentClass)
        ensures
            r == class_of_type(*self),
            r.organization == str_hash(self.organization@),
            r.namespace == str_hash(self.namespace@),
            r.agent_type == str_hash(self.agent_type@),
    {
        agent_type_from_strings(
            self.organization.as_str(),
            self.namespace.as_str(),
            self.agent_type.as_str(),
        )
    }
}

/// Law: the class an agent type names is, component by component, the hash
/// of its full organization, namespace and agent-type strings.
pub proof fn law_class_of_type(name: PyAgentType)
    ensures
        class_of_type(name).organization == str_hash(name.organization@),
        class_of_type(name).namespace == str_hash(name.namespace@),
        class_of_type(name).agent_type == str_hash(name.agent_type@),
        forall|o: Seq<char>, n: Seq<char>, t: Seq<char>|
            #![trigger class_of_strings(o, n, t)]
            class_of_strings(o, n, t).organization == str_hash(o) && class_of_strings(
                o,
                n,
                t,
            ).namespace == str_hash(n) && class_of_strings(o, n, t).agent_type == str_hash(t),
{
}

/// Law: a class depends on each of its strings alone. Two names that share
/// an organization share its hash, and so on; a name whose organization and
/// namespace are the same string has equal organization and namespace hashes.
pub proof fn law_class_componentwise(o1: Seq<char>, n1: Seq<char>, t1: Seq<char>, o2: Seq<char>, n2: Seq<char>, t2: Seq<char>)
    ensures
        o1 == o2 ==> class_of_strings(o1, n1, t1).organization == class_of_strings(o2, n2, t2).organization,
        n1 == n2 ==> class_of_strings(o1, n1, t1).namespace == class_of_strings(o2, n2, t2).namespace,
        t1 == t2 ==> class_of_strings(o1, n1, t1).agent_type == class_of_strings(o2, n2, t2).agent_type,
        o1 == n1 ==> class_of_strings(o1, n1, t1).organization == class_of_strings(o1, n1, t1).namespace,
{
}

} // verus!
