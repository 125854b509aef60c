//! Controller for a remotely actuated two-position cover (a motorized shade or
//! gate) driven through two switch actuators over a publish/subscribe bus.
//!
//! The controller is a four-state machine (`Open`, `Close`, `Opening`,
//! `Closing`) that interprets inbound `(topic, payload)` events, emits switch
//! commands, republishes the derived cover state after every event, and asks
//! its caller to arm or cancel a bounded completion timer so a transit never
//! sticks. All transition logic is verified; the transport and the timer
//! tasks stand behind narrow interfaces.

pub mod mqtt_constants;
pub mod mqtt_events;
pub mod transport;

pub use mqtt_constants::MqttPayloads;
pub use mqtt_constants::MqttTopics;
pub use mqtt_events::MqttEventHandler;
pub use mqtt_events::StateEnum;
pub use mqtt_events::TimerAction;
pub use transport::Client;
pub use transport::RecordingClient;
pub use transport::TransportError;
