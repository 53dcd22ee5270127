//! Where a published message goes: to the agent class named by the caller,
//! or, for a reply, back to the agent and connection the session's last
//! message came from.

use vstd::prelude::*;
use vstd::string::*;
use crate::error::ServiceError;
use crate::naming::{class_of_type, str_hash, AgentClass, AgentName, PyAgentType};

verus! {

/// The routing flags of a message header: how many receivers it fans out
/// to, and which connections it must come from or go to.
#[derive(Clone, Copy, Debug, PartialEq, Eq, Structural)]
pub struct HeaderFlags {
    pub fanout: u32,
    pub recv_from: Option<u64>,
    pub forward_to: Option<u64>,
    pub incoming_conn: Option<u64>,
    pub error: Option<bool>,
}

/// The destination of a publication and the header flags it is sent with.
#[derive(Clone, Copy, Debug, PartialEq, Eq, Structural)]
pub struct PublishRoute {
    pub class: AgentClass,
    pub id: Option<u64>,
    pub flags: HeaderFlags,
}

/// The header flags of a publication: the fanout, and the connection to
/// forward it on, if any.
pub open spec fn publish_flags(fanout: u32, forward_to: Option<u64>) -> HeaderFlags {
    HeaderFlags { fanout, recv_from: None, forward_to, incoming_conn: None, error: None }
}

/// Law: the flags of a publication carry exactly the given fanout and
/// forwarding connection, and nothing else.
pub proof fn law_publish_flags(fanout: u32, forward_to: Option<u64>)
    ensures
        publish_flags(fanout, forward_to).fanout == fanout,
        publish_flags(fanout, forward_to).forward_to == forward_to,
        publish_flags(fanout, forward_to).recv_from is None,
        publish_flags(fanout, forward_to).incoming_conn is None,
        publish_flags(fanout, forward_to).error is None,
{
}

/// The route of a publication.
/// - With a destination type `name`, the message goes to its class and to
///   the instance `id` (any instance when `None`), on no fixed connection.
/// - Without one, it is a reply: it goes to the agent that sent the session's
///   last message (`message_source`), on the connection that message came in
///   on (`input_connection`); `id` is not used.
/// - Without a destination and without a source, there is nobody to send to.
pub fn publish_route(
    fanout: u32,
    name: Option<PyAgentType>,
    id: Option<u64>,
    message_source: Option<AgentName>,
    input_connection: Option<u64>,
) -> (r: Result<PublishRoute, ServiceError>)
    ensures
        // Every publication carries the caller's fanout unchanged, and no
        // receive-side or error flag.
        r matches Ok(route) ==> (route.flags.fanout == fanout && route.flags.recv_from is None
            && route.flags.incoming_conn is None && route.flags.error is None),
        // A named destination: its full strings' hashes, the caller's id, no
        // fixed connection.
        name matches Some(n) ==> (r matches Ok(route) && route.class.organization == str_hash(
            n.organization@,
        ) && route.class.namespace == str_hash(n.namespace@) && route.class.agent_type
            == str_hash(n.agent_type@) && route.id == id && route.flags.forward_to is None),
        // A reply: back to the source agent, on exactly the connection its
        // message came in on.
        (name is None && message_source is Some) ==> (r matches Ok(route) && route.class
            == message_source->0.class && route.id == Some(message_source->0.id)
            && route.flags.forward_to == input_connection),
        (r is Err) <==> (name is None && message_source is None),
        match name {
            Some(n) => r == Ok::<PublishRoute, ServiceError>(
                PublishRoute { class: class_of_type(n), id, flags: publish_flags(fanout, None) },
            ),
            None => match message_source {
                Some(source) => r == Ok::<PublishRoute, ServiceError>(
                    PublishRoute {
                        class: source.class,
                        id: Some(source.id),
                        flags: publish_flags(fanout, input_connection),
                    },
                ),
                None => r matches Err(ServiceError::ConfigError(m)) && m@
                    == "no agent specified"@,
            },
        },
{
    let (class, agent_id, conn_out) = match name {
        Some(n) => (n.class(), id, None),
        None => match message_source {
            Some(source) => (source.class, Some(source.id), input_connection),
            None => {
                return Err(ServiceError::ConfigError("no agent specified".to_owned()));
            },
        },
    };
    let flags = HeaderFlags {
        fanout,
        recv_from: None,
        forward_to: conn_out,
        incoming_conn: None,
        error: None,
    };
    Ok(PublishRoute { class, id: agent_id, flags })
}

} // verus!
