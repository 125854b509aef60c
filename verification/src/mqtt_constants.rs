//! The closed catalogue of topics and payload literals the controller speaks.
//!
//! Every name exists twice: a `spec` function giving the literal's view, for
//! contracts, and an executable getter returning the literal itself, tied to
//! the spec function by its `ensures`.

use vstd::prelude::*;

verus! {

/// The topic names, including the reserved internal timer topic.
pub struct MqttTopics;

/// The payload literals: commands, state reports, switch commands,
/// availability markers and the reserved timer literal.
pub struct MqttPayloads;

impl MqttTopics {
    /// Availability (online/offline) marker topic of the cover.
    pub open spec fn spec_cover_availability() -> Seq<char> {
        "cover/availability"@
    }

    /// Derived-state report topic of the cover.
    pub open spec fn spec_cover_state() -> Seq<char> {
        "cover/state"@
    }

    /// Inbound command topic of the cover.
    pub open spec fn spec_cover_command() -> Seq<char> {
        "cover/command"@
    }

    /// Actuation echo topic of the open switch.
    pub open spec fn spec_switch_open_state() -> Seq<char> {
        "switch/open/state"@
    }

    /// Command topic of the open switch.
    pub open spec fn spec_switch_open_command() -> Seq<char> {
        "switch/open/command"@
    }

    /// Actuation echo topic of the close switch.
    pub open spec fn spec_switch_close_state() -> Seq<char> {
        "switch/close/state"@
    }

    /// Command topic of the close switch.
    pub open spec fn spec_switch_close_command() -> Seq<char> {
        "switch/close/command"@
    }

    /// Reserved topic under which completion-timer expiry is injected as a
    /// synthetic event; never exposed on the wire.
    pub open spec fn spec_timer_topic() -> Seq<char> {
        "timer/cover"@
    }

    pub fn cover_availability() -> (r: &'static str)
        ensures
            r@ == Self::spec_cover_availability(),
    {
        "cover/availability"
    }

    pub fn cover_state() -> (r: &'static str)
        ensures
            r@ == Self::spec_cover_state(),
    {
        "cover/state"
    }

    pub fn cover_command() -> (r: &'static str)
        ensures
            r@ == Self::spec_cover_command(),
    {
        "cover/command"
    }

    pub fn switch_open_state() -> (r: &'static str)
        ensures
            r@ == Self::spec_switch_open_state(),
    {
        "switch/open/state"
    }

    pub fn switch_open_command() -> (r: &'static str)
        ensures
            r@ == Self::spec_switch_open_command(),
    {
        "switch/open/command"
    }

    pub fn switch_close_state() -> (r: &'static str)
        ensures
            r@ == Self::spec_switch_close_state(),
    {
        "switch/close/state"
    }

    pub fn switch_close_command() -> (r: &'static str)
        ensures
            r@ == Self::spec_switch_close_command(),
    {
        "switch/close/command"
    }

    pub fn timer_topic() -> (r: &'static str)
        ensures
            r@ == Self::spec_timer_topic(),
    {
        "timer/cover"
    }
}

impl MqttPayloads {
    /// Command payload asking the cover to open.
    pub open spec fn spec_command_open() -> Seq<char> {
        "open"@
    }

    /// Command payload asking the cover to stop.
    pub open spec fn spec_command_stop() -> Seq<char> {
        "stop"@
    }

    /// Command payload asking the cover to close.
    pub open spec fn spec_command_close() -> Seq<char> {
        "close"@
    }

    /// State report payload for a closed cover.
    pub open spec fn spec_state_close() -> Seq<char> {
        "close"@
    }

    /// State report payload for a cover in opening transit.
    pub open spec fn spec_state_opening() -> Seq<char> {
        "opening"@
    }

    /// State report payload for an open cover.
    pub open spec fn spec_state_open() -> Seq<char> {
        "open"@
    }

    /// State report payload for a cover in closing transit.
    pub open spec fn spec_state_closing() -> Seq<char> {
        "closing"@
    }

    /// Switch command payload turning an actuator on.
    pub open spec fn spec_switch_on() -> Seq<char> {
        "on"@
    }

    /// Switch command payload turning an actuator off.
    pub open spec fn spec_switch_off() -> Seq<char> {
        "off"@
    }

    /// Availability payload marking the controller online.
    pub open spec fn spec_availability_online() -> Seq<char> {
        "online"@
    }

    /// Availability payload marking the controller offline.
    pub open spec fn spec_availability_offline() -> Seq<char> {
        "offline"@
    }

    /// Payload of the synthetic completion-timer expiry event.
    pub open spec fn spec_timer_expires() -> Seq<char> {
        "expires"@
    }

    pub fn command_open() -> (r: &'static str)
        ensures
            r@ == Self::spec_command_open(),
    {
        "open"
    }

    pub fn command_stop() -> (r: &'static str)
        ensures
            r@ == Self::spec_command_stop(),
    {
        "stop"
    }

    pub fn command_close() -> (r: &'static str)
        ensures
            r@ == Self::spec_command_close(),
    {
        "close"
    }

    pub fn state_close() -> (r: &'static str)
        ensures
            r@ == Self::spec_state_close(),
    {
        "close"
    }

    pub fn state_opening() -> (r: &'static str)
        ensures
            r@ == Self::spec_state_opening(),
    {
        "opening"
    }

    pub fn state_open() -> (r: &'static str)
        ensures
            r@ == Self::spec_state_open(),
    {
        "open"
    }

    pub fn state_closing() -> (r: &'static str)
        ensures
            r@ == Self::spec_state_closing(),
    {
        "closing"
    }

    pub fn switch_on() -> (r: &'static str)
        ensures
            r@ == Self::spec_switch_on(),
    {
        "on"
    }

    pub fn switch_off() -> (r: &'static str)
        ensures
            r@ == Self::spec_switch_off(),
    {
        "off"
    }

    pub fn availability_online() -> (r: &'static str)
        ensures
            r@ == Self::spec_availability_online(),
    {
        "online"
    }

    pub fn availability_offline() -> (r: &'static str)
        ensures
            r@ == Self::spec_availability_offline(),
    {
        "offline"
    }

    pub fn timer_expires() -> (r: &'static str)
        ensures
            r@ == Self::spec_timer_expires(),
    {
        "expires"
    }
}

} // verus!
