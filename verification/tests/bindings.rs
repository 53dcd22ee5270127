use slim_bindings::error::ServiceError;
use slim_bindings::identity::{agent_with_nonce, decimal_string, identity_with_nonce, service_agent};
use slim_bindings::naming::{AgentClass, AgentName, PyAgentType};
use slim_datapath::messages::encoder::{calculate_hash, AgentType};
use slim_bindings::publish::{publish_route, HeaderFlags, PublishRoute};
use slim_bindings::receive::{receive_outcome, MessageContent, ReceivedMessage};
use slim_bindings::service::{resolve_conn_id, PyService};

fn class(o: u64, n: u64, t: u64) -> AgentClass {
    AgentClass { organization: o, namespace: n, agent_type: t }
}

#[test]
fn decimal_string_renders_like_display() {
    assert_eq!(decimal_string(0), "0");
    assert_eq!(decimal_string(7), "7");
    assert_eq!(decimal_string(10), "10");
    assert_eq!(decimal_string(4096), "4096");
    assert_eq!(decimal_string(u32::MAX), "4294967295");
    for n in [1u32, 9, 99, 100, 12345, 1_000_000_007] {
        assert_eq!(decimal_string(n), n.to_string());
    }
}

#[test]
fn identity_is_token_dash_nonce() {
    assert_eq!(identity_with_nonce("tok", 42), "tok-42");
    assert_eq!(identity_with_nonce("", 0), "-0");
    assert_eq!(identity_with_nonce("a-b", 4294967295), "a-b-4294967295");
}

#[test]
fn identities_with_different_nonces_differ() {
    assert_ne!(identity_with_nonce("t", 1), identity_with_nonce("t", 11));
    assert_ne!(identity_with_nonce("t", 0), identity_with_nonce("t", 10));
    assert_eq!(identity_with_nonce("t", 5), identity_with_nonce("t", 5));
}

fn py_type(o: &str, n: &str, t: &str) -> PyAgentType {
    PyAgentType {
        organization: o.to_string(),
        namespace: n.to_string(),
        agent_type: t.to_string(),
    }
}

fn slim_class(o: &str, n: &str, t: &str) -> AgentClass {
    let t = AgentType::from_strings(o, n, t);
    class(t.organization(), t.namespace(), t.agent_type())
}

#[test]
fn class_is_the_hash_of_each_string() {
    let c = py_type("Cisco", "Default", "Agent_ONE").class();
    assert_eq!(c, slim_class("Cisco", "Default", "Agent_ONE"));
    assert_eq!(c.organization, calculate_hash("Cisco"));
    assert_eq!(c.namespace, calculate_hash("Default"));
    assert_eq!(c.agent_type, calculate_hash("Agent_ONE"));
    assert_eq!(c, py_type("Cisco", "Default", "Agent_ONE").class());
    assert_ne!(c, py_type("not_Cisco", "not_Default", "not_Agent_ONE").class());
}

#[test]
fn equal_strings_give_equal_components() {
    let c = py_type("Cisco", "Cisco", "Agent_ONE").class();
    assert_eq!(c.organization, c.namespace);
    let d = py_type("Cisco", "Other", "Agent_TWO").class();
    assert_eq!(c.organization, d.organization);
}

#[test]
fn agent_id_is_hash_of_identity() {
    let a = agent_with_nonce("org", "ns", "type", "tok", 42);
    assert_eq!(a.id, calculate_hash("tok-42"));
    assert_eq!(a.class, slim_class("org", "ns", "type"));
    let b = agent_with_nonce("org", "ns", "type", "tok", 43);
    assert_ne!(a.id, b.id);
}

#[test]
fn service_agent_with_token_uses_a_nonce() {
    let a = service_agent("org", "ns", "type", Ok("tok".to_string())).unwrap();
    assert_eq!(a.class, slim_class("org", "ns", "type"));
    let b = service_agent("org", "ns", "type", Ok("tok".to_string())).unwrap();
    assert_eq!(a.class, b.class);
}

#[test]
fn service_agent_without_token_is_config_error() {
    match service_agent("org", "ns", "type", Err("boom".to_string())) {
        Err(ServiceError::ConfigError(m)) => {
            assert_eq!(m, "Failed to get token from provider: boom")
        }
        other => panic!("unexpected {:?}", other),
    }
}

#[test]
fn server_conn_id_is_max() {
    assert_eq!(resolve_conn_id(None), u64::MAX);
    assert_eq!(resolve_conn_id(Some(3)), 3);
}

#[test]
fn service_getters_return_creation_values() {
    let agent = AgentName { class: class(1, 2, 3), id: 77 };
    let server = PyService::new(agent, None);
    assert_eq!(server.id(), 77);
    assert_eq!(server.conn_id(), u64::MAX);
    let client = PyService::new(agent, Some(5));
    assert_eq!(client.id(), 77);
    assert_eq!(client.conn_id(), 5);
}

#[test]
fn publish_by_name_uses_name_and_id() {
    let source = AgentName { class: class(9, 9, 9), id: 1 };
    let r = publish_route(2, Some(py_type("a", "b", "c")), Some(4), Some(source), Some(8)).unwrap();
    assert_eq!(
        r,
        PublishRoute {
            class: slim_class("a", "b", "c"),
            id: Some(4),
            flags: HeaderFlags {
                fanout: 2,
                recv_from: None,
                forward_to: None,
                incoming_conn: None,
                error: None
            },
        }
    );
    let any = publish_route(1, Some(py_type("a", "b", "c")), None, None, None).unwrap();
    assert_eq!(any.id, None);
    assert_eq!(any.flags.forward_to, None);
}

#[test]
fn publish_reply_goes_back_to_source_connection() {
    let source = AgentName { class: class(5, 6, 7), id: 11 };
    let r = publish_route(1, None, Some(99), Some(source), Some(8)).unwrap();
    assert_eq!(r.class, class(5, 6, 7));
    assert_eq!(r.id, Some(11));
    assert_eq!(r.flags.fanout, 1);
    assert_eq!(r.flags.forward_to, Some(8));
    assert_eq!(r.flags.recv_from, None);
    assert_eq!(r.flags.incoming_conn, None);
    assert_eq!(r.flags.error, None);
}

#[test]
fn publish_without_destination_is_config_error() {
    match publish_route(1, None, Some(3), None, Some(8)) {
        Err(ServiceError::ConfigError(m)) => assert_eq!(m, "no agent specified"),
        other => panic!("unexpected {:?}", other),
    }
}

#[test]
fn receive_publication_gives_payload() {
    let msg = ReceivedMessage { info: 17u32, content: MessageContent::Publish(vec![1, 2, 3]) };
    assert_eq!(receive_outcome(Some(Ok(msg))).unwrap(), (17u32, vec![1, 2, 3]));
}

#[test]
fn receive_errors() {
    let closed: Option<Result<ReceivedMessage<u32>, String>> = None;
    assert_eq!(
        receive_outcome(closed).unwrap_err(),
        ServiceError::ReceiveError("no message received".to_string())
    );
    let failed: Option<Result<ReceivedMessage<u32>, String>> = Some(Err("session gone".to_string()));
    assert_eq!(
        receive_outcome(failed).unwrap_err(),
        ServiceError::ReceiveError("session gone".to_string())
    );
    let other = ReceivedMessage { info: 1u32, content: MessageContent::Other };
    assert_eq!(
        receive_outcome(Some(Ok(other))).unwrap_err(),
        ServiceError::ReceiveError("receive publish message type".to_string())
    );
    let missing = ReceivedMessage { info: 1u32, content: MessageContent::Missing };
    assert_eq!(
        receive_outcome(Some(Ok(missing))).unwrap_err(),
        ServiceError::ReceiveError("no message received".to_string())
    );
}
