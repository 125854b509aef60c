use cover_control::mqtt_constants::MqttPayloads;
use cover_control::mqtt_constants::MqttTopics;
use cover_control::mqtt_events::MqttEventHandler;
use cover_control::mqtt_events::OpenState;
use cover_control::mqtt_events::StateEnum;
use cover_control::transport::RecordingClient;

#[test]
fn test_process_message_close() {
    let mut event_handler = MqttEventHandler::new(RecordingClient::new());
    event_handler.process_message("some_topic", "some_payload".as_bytes());
    let published = &event_handler.client.publishes;
    // the command publication only happens for recognized events
    assert_eq!(published.len(), 1);
    assert_eq!(published[0].topic, MqttTopics::cover_state());
    assert_eq!(published[0].payload, MqttPayloads::state_close().as_bytes());
}

#[test]
fn test_initialize() {
    let mut event_handler = MqttEventHandler::new(RecordingClient::new());
    event_handler.initialize().unwrap();

    // Verify that the handler subscribed to the correct topics
    let subscribed = &event_handler.client.subscribes;
    assert_eq!(subscribed.len(), 1);
    assert_eq!(
        subscribed[0].topics,
        vec![
            MqttTopics::switch_open_state().to_string(),
            MqttTopics::switch_close_state().to_string(),
            MqttTopics::cover_state().to_string(),
        ]
    );
    assert_eq!(subscribed[0].qos, vec![1, 1, 1]);

    // Verify that the handler published the "online" message
    let published = &event_handler.client.publishes;
    assert_eq!(published.len(), 1);
    assert_eq!(published[0].topic, MqttTopics::cover_availability());
    assert_eq!(published[0].payload, MqttPayloads::availability_online().as_bytes());
}

#[test]
fn test_finalize() {
    let mut event_handler = MqttEventHandler::new(RecordingClient::new());
    event_handler.finalize().unwrap();

    // Verify that the offline message was published
    let published = &event_handler.client.publishes;
    assert_eq!(published.len(), 1);
    assert_eq!(published[0].topic, MqttTopics::cover_availability());
    assert_eq!(published[0].payload, MqttPayloads::availability_offline().as_bytes());
}

#[test]
fn test_close_state_process_message_behavior() {
    let mut event_handler = MqttEventHandler::new(RecordingClient::new());

    // 1. Send the open command: the open switch must be actuated
    event_handler.process_message(MqttTopics::cover_command(), MqttPayloads::command_open().as_bytes());
    {
        let published = &event_handler.client.publishes;
        assert_eq!(published[0].topic, MqttTopics::switch_open_command());
        assert_eq!(published[0].payload, MqttPayloads::switch_on().as_bytes());
        assert_eq!(published[1].topic, MqttTopics::cover_state());
        assert_eq!(published[1].payload, MqttPayloads::state_close().as_bytes());
    }

    // 2. The open switch echoes: transition to the opening transit
    event_handler.process_message(MqttTopics::switch_open_state(), MqttPayloads::switch_on().as_bytes());
    {
        let published = &event_handler.client.publishes;
        assert_eq!(published[2].topic, MqttTopics::cover_state());
        assert_eq!(published[2].payload, MqttPayloads::state_opening().as_bytes());
    }
    match event_handler.state {
        StateEnum::Opening(_) => {}
        _ => panic!("State should be OpeningState"),
    }
}

#[test]
fn test_open_state_process_message_behavior() {
    let mut event_handler = MqttEventHandler::new(RecordingClient::new());
    // Start from the open position
    event_handler.change_state(StateEnum::Open(OpenState));
    event_handler.publish_state();

    // 1. Send the close command: the close switch must be actuated
    event_handler.process_message(MqttTopics::cover_command(), MqttPayloads::command_close().as_bytes());
    {
        let published = &event_handler.client.publishes;
        assert_eq!(published[0].topic, MqttTopics::cover_state());
        assert_eq!(published[0].payload, MqttPayloads::state_open().as_bytes());
        assert_eq!(published[1].topic, MqttTopics::switch_close_command());
        assert_eq!(published[1].payload, MqttPayloads::switch_on().as_bytes());
        assert_eq!(published[2].topic, MqttTopics::cover_state());
        assert_eq!(published[2].payload, MqttPayloads::state_open().as_bytes());
    }

    // 2. The close switch echoes: transition to the closing transit
    event_handler.process_message(MqttTopics::switch_close_state(), MqttPayloads::switch_on().as_bytes());
    {
        let published = &event_handler.client.publishes;
        assert_eq!(published[3].topic, MqttTopics::cover_state());
        assert_eq!(published[3].payload, MqttPayloads::state_closing().as_bytes());
    }
    match event_handler.state {
        StateEnum::Closing(_) => {}
        _ => panic!("State should be ClosingState"),
    }
}
