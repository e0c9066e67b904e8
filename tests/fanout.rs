use rddm_realtime::envelope::WebSocketMessage;
use rddm_realtime::pump::{on_inbound, InboundAction, InboundFrame};
use rddm_realtime::registry::ConnectionManager;
use tokio::sync::broadcast::error::TryRecvError;
use tokio::sync::broadcast::Receiver;

fn element_update(id: &str, project: &str) -> WebSocketMessage {
    WebSocketMessage::ElementUpdate {
        id: id.to_string(),
        project_id: project.to_string(),
        payload: serde_json::from_str("{\"x\":1}").unwrap(),
        timestamp: "2024-01-01T00:00:00Z".to_string(),
        user_id: "u1".to_string(),
    }
}

fn element_delete(id: &str, project: &str) -> WebSocketMessage {
    WebSocketMessage::ElementDelete {
        id: id.to_string(),
        project_id: project.to_string(),
        timestamp: "2024-01-01T00:00:00Z".to_string(),
        user_id: "system".to_string(),
    }
}

fn id_of(m: &WebSocketMessage) -> String {
    match m {
        WebSocketMessage::ElementUpdate { id, .. } => id.clone(),
        WebSocketMessage::ElementDelete { id, .. } => id.clone(),
        WebSocketMessage::RelationshipUpdate { id, .. } => id.clone(),
        WebSocketMessage::RelationshipDelete { id, .. } => id.clone(),
        WebSocketMessage::ViewUpdate { view_type, .. } => view_type.clone(),
    }
}

fn next_id(rx: &mut Receiver<WebSocketMessage>) -> String {
    id_of(&rx.try_recv().unwrap())
}

#[test]
fn lookups_converge_on_one_topic() {
    let mut m = ConnectionManager::new();
    assert_eq!(m.topic_id("p"), None);
    let a = m.get_or_create_channel("p");
    let first = m.topic_id("p");
    assert!(first.is_some());
    let b = m.get_or_create_channel("q");
    let c = m.get_or_create_channel("p");
    assert!(a.same_channel(&c));
    assert!(!a.same_channel(&b));
    let _rx = m.subscribe("p").unwrap();
    assert_eq!(m.topic_id("p"), first);
    assert_ne!(m.topic_id("q"), first);
    assert_eq!(m.subscriber_count("p"), 1);
}

#[test]
fn published_message_reaches_every_subscriber_in_order() {
    let mut m = ConnectionManager::new();
    let mut a = m.subscribe("p").unwrap();
    let mut b = m.subscribe("p").unwrap();
    assert!(m.publish("p", element_update("e1", "p")));
    assert!(m.publish("p", element_delete("e2", "p")));
    assert_eq!(next_id(&mut a), "e1");
    assert_eq!(next_id(&mut a), "e2");
    assert_eq!(next_id(&mut b), "e1");
    assert_eq!(next_id(&mut b), "e2");
    assert!(matches!(a.try_recv(), Err(TryRecvError::Empty)));
}

#[test]
fn last_release_evicts_and_resubscribe_sees_no_replay() {
    let mut m = ConnectionManager::new();
    let rx1 = m.subscribe("p").unwrap();
    let rx2 = m.subscribe("p").unwrap();
    let old_id = m.topic_id("p");
    let old_channel = m.get_or_create_channel("p");
    m.publish("p", element_update("e1", "p"));
    drop(rx1);
    assert!(!m.release("p"));
    assert_eq!(m.subscriber_count("p"), 1);
    drop(rx2);
    assert!(m.release("p"));
    assert_eq!(m.topic_id("p"), None);
    let mut fresh = m.subscribe("p").unwrap();
    assert_ne!(m.topic_id("p"), old_id);
    assert!(!m.get_or_create_channel("p").same_channel(&old_channel));
    assert!(matches!(fresh.try_recv(), Err(TryRecvError::Empty)));
    m.publish("p", element_update("e2", "p"));
    assert_eq!(next_id(&mut fresh), "e2");
}

#[test]
fn slow_subscriber_sees_a_gap_and_publisher_is_not_held() {
    let mut m = ConnectionManager::new();
    let mut slow = m.subscribe("p").unwrap();
    let mut fast = m.subscribe("p").unwrap();
    for i in 0..130 {
        assert!(m.publish("p", element_update(&format!("e{}", i), "p")));
        assert_eq!(next_id(&mut fast), format!("e{}", i));
    }
    // the buffer holds 128 messages (100 rounded up to a power of two)
    assert!(matches!(slow.try_recv(), Err(TryRecvError::Lagged(2))));
    assert_eq!(next_id(&mut slow), "e2");
}

#[test]
fn release_of_unknown_project_changes_nothing() {
    let mut m = ConnectionManager::new();
    assert!(!m.release("nobody"));
    assert_eq!(m.topic_id("nobody"), None);
}

#[test]
fn remove_channel_only_evicts_topics_without_subscribers() {
    let mut m = ConnectionManager::new();
    let _tx = m.get_or_create_channel("idle");
    let mut rx = m.subscribe("busy").unwrap();
    assert!(m.remove_channel("idle"));
    assert!(!m.remove_channel("busy"));
    assert!(!m.remove_channel("absent"));
    assert_eq!(m.topic_id("idle"), None);
    assert!(m.topic_id("busy").is_some());
    assert_eq!(m.subscriber_count("busy"), 1);
    assert!(m.publish("busy", element_update("e1", "busy")));
    assert_eq!(next_id(&mut rx), "e1");
}

#[test]
fn sender_handle_publishes_to_subscribers() {
    let mut m = ConnectionManager::new();
    let tx = m.get_or_create_channel("p");
    let mut rx = m.subscribe("p").unwrap();
    let again = m.get_or_create_channel("p");
    assert!(again.same_channel(&tx));
    tx.send(element_update("e9", "p")).unwrap();
    assert_eq!(next_id(&mut rx), "e9");
}

#[test]
fn end_to_end_two_clients_one_project() {
    let mut m = ConnectionManager::new();
    let mut a = m.subscribe("p1").unwrap();
    let mut b = m.subscribe("p1").unwrap();
    let mut c = m.subscribe("p2").unwrap();
    let action = on_inbound(InboundFrame::Parsed(element_update("e1", "p1")));
    let msg = match action {
        InboundAction::Publish(msg) => msg,
        _ => panic!("a well-formed frame is published"),
    };
    assert!(m.publish("p1", msg));
    for rx in [&mut a, &mut b] {
        match rx.try_recv().unwrap() {
            WebSocketMessage::ElementUpdate { id, project_id, payload, timestamp, user_id } => {
                assert_eq!(id, "e1");
                assert_eq!(project_id, "p1");
                assert_eq!(payload, serde_json::from_str::<serde_json::Value>("{\"x\":1}").unwrap());
                assert_eq!(timestamp, "2024-01-01T00:00:00Z");
                assert_eq!(user_id, "u1");
            }
            _ => panic!("wrong kind of message"),
        }
    }
    assert!(matches!(c.try_recv(), Err(TryRecvError::Empty)));
}

#[test]
fn publish_without_subscribers_creates_no_topic() {
    let m = ConnectionManager::new();
    assert!(!m.publish("p3", element_delete("e1", "p3")));
    assert_eq!(m.topic_id("p3"), None);
}

#[test]
fn message_reports_its_project() {
    let v = WebSocketMessage::ViewUpdate {
        project_id: "p7".to_string(),
        view_type: "floor".to_string(),
        payload: serde_json::Value::Null,
        timestamp: "t".to_string(),
        user_id: "u".to_string(),
    };
    assert_eq!(v.project_id(), "p7");
    assert_eq!(element_delete("e", "p8").project_id(), "p8");
}
