use cover_control::mqtt_constants::MqttPayloads;
use cover_control::mqtt_constants::MqttTopics;
use cover_control::mqtt_events::CloseState;
use cover_control::mqtt_events::ClosingState;
use cover_control::mqtt_events::MqttEventHandler;
use cover_control::mqtt_events::OpenState;
use cover_control::mqtt_events::OpeningState;
use cover_control::mqtt_events::StateEnum;
use cover_control::mqtt_events::TimerAction;
use cover_control::mqtt_events::DEFAULT_TIMER_DURATION_MS;
use cover_control::transport::RecordingClient;

fn fresh_handler() -> MqttEventHandler<RecordingClient> {
    MqttEventHandler::new(RecordingClient::new())
}

fn cover_state_reports(handler: &MqttEventHandler<RecordingClient>) -> Vec<String> {
    handler
        .client
        .publishes
        .iter()
        .filter(|record| record.topic == MqttTopics::cover_state())
        .map(|record| String::from_utf8(record.payload.clone()).unwrap())
        .collect()
}

#[test]
fn unmatched_events_only_republish_current_state() {
    let starts = [
        (StateEnum::Open(OpenState), MqttPayloads::state_open()),
        (StateEnum::Opening(OpeningState), MqttPayloads::state_opening()),
        (StateEnum::Closing(ClosingState), MqttPayloads::state_closing()),
    ];
    for (start, report) in starts {
        let mut handler = fresh_handler();
        handler.change_state(start);
        // a known topic with a payload no rule of this state names
        let action =
            handler.process_message(MqttTopics::cover_command(), MqttPayloads::switch_off().as_bytes());
        assert_eq!(action, TimerAction::Unchanged);
        assert_eq!(handler.state, start);
        assert_eq!(handler.client.publishes.len(), 1);
        assert_eq!(handler.client.publishes[0].topic, MqttTopics::cover_state());
        assert_eq!(handler.client.publishes[0].payload, report.as_bytes());
    }
}

#[test]
fn full_opening_run_reports_opening_then_open() {
    let mut handler = fresh_handler();
    let first = handler.process_message(
        MqttTopics::cover_command(),
        MqttPayloads::command_open().as_bytes(),
    );
    assert_eq!(first, TimerAction::Unchanged);
    assert!(matches!(handler.state, StateEnum::Close(_)));

    let second = handler.process_message(
        MqttTopics::switch_open_state(),
        MqttPayloads::switch_on().as_bytes(),
    );
    assert_eq!(second, TimerAction::Restart);
    assert!(matches!(handler.state, StateEnum::Opening(_)));

    let third = handler.process_message(
        MqttTopics::timer_topic(),
        MqttPayloads::timer_expires().as_bytes(),
    );
    assert_eq!(third, TimerAction::Unchanged);
    assert!(matches!(handler.state, StateEnum::Open(_)));

    assert_eq!(cover_state_reports(&handler), vec!["close", "opening", "open", "open"]);
}

#[test]
fn full_closing_run_reports_closing_then_close() {
    let mut handler = fresh_handler();
    handler.change_state(StateEnum::Open(OpenState));

    let first = handler.process_message(
        MqttTopics::cover_command(),
        MqttPayloads::command_close().as_bytes(),
    );
    assert_eq!(first, TimerAction::Unchanged);
    assert!(matches!(handler.state, StateEnum::Open(_)));
    assert_eq!(handler.client.publishes[0].topic, MqttTopics::switch_close_command());
    assert_eq!(handler.client.publishes[0].payload, MqttPayloads::switch_on().as_bytes());

    let second = handler.process_message(
        MqttTopics::switch_close_state(),
        MqttPayloads::switch_on().as_bytes(),
    );
    assert_eq!(second, TimerAction::Restart);
    assert!(matches!(handler.state, StateEnum::Closing(_)));

    let third = handler.process_message(
        MqttTopics::timer_topic(),
        MqttPayloads::timer_expires().as_bytes(),
    );
    assert_eq!(third, TimerAction::Unchanged);
    assert!(matches!(handler.state, StateEnum::Close(_)));

    assert_eq!(cover_state_reports(&handler), vec!["open", "closing", "close", "close"]);
}

#[test]
fn reversal_in_opening_restarts_timer_and_commits_closing() {
    let mut handler = fresh_handler();
    let entered = handler.process_message(
        MqttTopics::switch_open_state(),
        MqttPayloads::switch_on().as_bytes(),
    );
    assert_eq!(entered, TimerAction::Restart);
    assert!(matches!(handler.state, StateEnum::Opening(_)));

    // the reversal cancels the superseded timer before arming the new one
    let reversed = handler.process_message(
        MqttTopics::switch_close_state(),
        MqttPayloads::switch_on().as_bytes(),
    );
    assert_eq!(reversed, TimerAction::Restart);
    assert!(matches!(handler.state, StateEnum::Closing(_)));

    // an event of no rule of Closing does not override the committed state
    let stray = handler.process_message(
        MqttTopics::switch_close_state(),
        MqttPayloads::switch_off().as_bytes(),
    );
    assert_eq!(stray, TimerAction::Unchanged);
    assert!(matches!(handler.state, StateEnum::Closing(_)));
}

#[test]
fn late_timer_expiry_in_terminal_state_is_benign() {
    let starts = [
        (StateEnum::Open(OpenState), MqttPayloads::state_open()),
        (StateEnum::Close(CloseState), MqttPayloads::state_close()),
    ];
    for (start, report) in starts {
        let mut handler = fresh_handler();
        handler.change_state(start);
        let action = handler.process_message(
            MqttTopics::timer_topic(),
            MqttPayloads::timer_expires().as_bytes(),
        );
        assert_eq!(action, TimerAction::Unchanged);
        assert_eq!(handler.state, start);
        assert_eq!(handler.client.publishes.len(), 1);
        assert_eq!(handler.client.publishes[0].payload, report.as_bytes());
    }
}

#[test]
fn stop_during_opening_reasserts_switch_and_keeps_state() {
    let mut handler = fresh_handler();
    handler.change_state(StateEnum::Opening(OpeningState));
    for _ in 0..2 {
        let action = handler.process_message(
            MqttTopics::cover_command(),
            MqttPayloads::command_stop().as_bytes(),
        );
        assert_eq!(action, TimerAction::Unchanged);
        assert!(matches!(handler.state, StateEnum::Opening(_)));
    }
    let published = &handler.client.publishes;
    assert_eq!(published.len(), 4);
    for pair in published.chunks(2) {
        assert_eq!(pair[0].topic, MqttTopics::switch_open_command());
        assert_eq!(pair[0].payload, MqttPayloads::switch_on().as_bytes());
        assert_eq!(pair[1].topic, MqttTopics::cover_state());
        assert_eq!(pair[1].payload, MqttPayloads::state_opening().as_bytes());
    }
}

#[test]
fn stop_during_closing_reasserts_switch_and_keeps_state() {
    let mut handler = fresh_handler();
    handler.change_state(StateEnum::Closing(ClosingState));
    let action = handler.process_message(
        MqttTopics::cover_command(),
        MqttPayloads::command_stop().as_bytes(),
    );
    assert_eq!(action, TimerAction::Unchanged);
    assert!(matches!(handler.state, StateEnum::Closing(_)));
    let published = &handler.client.publishes;
    assert_eq!(published.len(), 2);
    assert_eq!(published[0].topic, MqttTopics::switch_close_command());
    assert_eq!(published[0].payload, MqttPayloads::switch_on().as_bytes());
    assert_eq!(published[1].topic, MqttTopics::cover_state());
    assert_eq!(published[1].payload, MqttPayloads::state_closing().as_bytes());
}

#[test]
fn initialize_then_finalize_records_exactly_the_lifecycle_messages() {
    let mut handler = fresh_handler();
    handler.initialize().unwrap();
    // dispatch activity in between — commands, echoes, a timer expiry, and
    // garbage — must not disturb the lifecycle record
    handler.process_message(MqttTopics::cover_command(), MqttPayloads::command_open().as_bytes());
    handler.process_message(MqttTopics::switch_open_state(), MqttPayloads::switch_on().as_bytes());
    handler.process_message(MqttTopics::cover_command(), MqttPayloads::command_stop().as_bytes());
    handler.process_message(MqttTopics::timer_topic(), MqttPayloads::timer_expires().as_bytes());
    handler.process_message("some_topic", "some_payload".as_bytes());
    handler.finalize().unwrap();

    let subscribed = &handler.client.subscribes;
    assert_eq!(subscribed.len(), 1);
    assert_eq!(
        subscribed[0].topics,
        vec![
            MqttTopics::switch_open_state().to_string(),
            MqttTopics::switch_close_state().to_string(),
            MqttTopics::cover_state().to_string(),
        ]
    );

    let availability: Vec<String> = handler
        .client
        .publishes
        .iter()
        .filter(|record| record.topic == MqttTopics::cover_availability())
        .map(|record| String::from_utf8(record.payload.clone()).unwrap())
        .collect();
    assert_eq!(availability, vec!["online", "offline"]);
}

#[test]
fn initialize_stops_after_refused_subscription() {
    let mut client = RecordingClient::new();
    client.accept_subscribe = false;
    let mut handler = MqttEventHandler::new(client);
    assert!(handler.initialize().is_err());
    // the subscription attempt is on record, the online marker never went out
    assert_eq!(handler.client.subscribes.len(), 1);
    assert_eq!(handler.client.publishes.len(), 0);
}

#[test]
fn initialize_surfaces_refused_online_marker() {
    let mut client = RecordingClient::new();
    client.accept_publish = false;
    let mut handler = MqttEventHandler::new(client);
    assert!(handler.initialize().is_err());
    assert_eq!(handler.client.subscribes.len(), 1);
    assert_eq!(handler.client.publishes.len(), 1);
}

#[test]
fn finalize_surfaces_refused_offline_marker() {
    let mut client = RecordingClient::new();
    client.accept_publish = false;
    let mut handler = MqttEventHandler::new(client);
    assert!(handler.finalize().is_err());
    assert_eq!(handler.client.publishes.len(), 1);
    assert_eq!(handler.client.publishes[0].payload, MqttPayloads::availability_offline().as_bytes());
}

#[test]
fn state_commits_even_when_publishes_fail() {
    let mut client = RecordingClient::new();
    client.accept_publish = false;
    let mut handler = MqttEventHandler::new(client);
    let action = handler.process_message(
        MqttTopics::switch_open_state(),
        MqttPayloads::switch_on().as_bytes(),
    );
    assert_eq!(action, TimerAction::Restart);
    assert!(matches!(handler.state, StateEnum::Opening(_)));
}

#[test]
fn confirmation_echo_cancels_timer_without_leaving_transit() {
    let mut handler = fresh_handler();
    handler.change_state(StateEnum::Opening(OpeningState));
    let action = handler.process_message(
        MqttTopics::switch_open_state(),
        MqttPayloads::switch_on().as_bytes(),
    );
    assert_eq!(action, TimerAction::Cancel);
    assert!(matches!(handler.state, StateEnum::Opening(_)));

    let mut handler = fresh_handler();
    handler.change_state(StateEnum::Closing(ClosingState));
    let action = handler.process_message(
        MqttTopics::switch_close_state(),
        MqttPayloads::switch_on().as_bytes(),
    );
    assert_eq!(action, TimerAction::Cancel);
    assert!(matches!(handler.state, StateEnum::Closing(_)));
}

#[test]
fn timer_duration_defaults_and_follows_the_setter() {
    let mut handler = fresh_handler();
    assert_eq!(handler.timer_duration, DEFAULT_TIMER_DURATION_MS);
    assert_eq!(handler.timer_duration, 90000);
    handler.set_timer_duration(150);
    assert_eq!(handler.timer_duration, 150);
}

#[test]
fn empty_payload_and_empty_topic_are_no_ops() {
    let mut handler = fresh_handler();
    handler.process_message("", &[]);
    handler.process_message(MqttTopics::cover_command(), &[]);
    handler.process_message("", MqttPayloads::command_open().as_bytes());
    assert!(matches!(handler.state, StateEnum::Close(_)));
    assert_eq!(cover_state_reports(&handler), vec!["close", "close", "close"]);
}
