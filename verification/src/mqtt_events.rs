//! The state-machine engine of the cover controller.
//!
//! The cover is driven indirectly: switch actuators echo their activation but
//! give no position feedback, so the engine infers transit (`Opening`,
//! `Closing`) from those echoes and bounds it with a cancellable completion
//! timer. Every inbound `(topic, payload)` event — transport-delivered or the
//! synthetic timer-expiry event — goes through one total transition table,
//! given here as the spec function [`spec_transition`]; unrecognized events
//! fall through to its default row and change nothing.
//!
//! The engine itself never sleeps or spawns: each dispatch returns a
//! [`TimerAction`] telling the surrounding event loop what to do with the
//! completion timer, and that loop re-injects expiry as an ordinary event
//! under the reserved timer topic.

use vstd::prelude::*;

use crate::mqtt_constants::MqttPayloads;
use crate::mqtt_constants::MqttTopics;
use crate::transport::Client;
use crate::transport::MessageView;
use crate::transport::SubscribeView;
use crate::transport::TransportError;
use vstd::utf8::encode_utf8;
use vstd::utf8::encode_utf8_decode_utf8;

verus! {

/// Default bound on a transit, in milliseconds, used until a caller injects
/// its own with [`MqttEventHandler::set_timer_duration`].
pub const DEFAULT_TIMER_DURATION_MS: u64 = 90000;

/// Marker for the terminal open position.
#[derive(Clone, Copy, Debug, PartialEq, Eq, Structural)]
pub struct OpenState;

/// Marker for the terminal closed position.
#[derive(Clone, Copy, Debug, PartialEq, Eq, Structural)]
pub struct CloseState;

/// Marker for the opening transit.
#[derive(Clone, Copy, Debug, PartialEq, Eq, Structural)]
pub struct OpeningState;

/// Marker for the closing transit.
#[derive(Clone, Copy, Debug, PartialEq, Eq, Structural)]
pub struct ClosingState;

/// The four positions the controller can report. Exactly one is current at
/// any instant.
#[derive(Clone, Copy, Debug, PartialEq, Eq, Structural)]
pub enum StateEnum {
    Open(OpenState),
    Close(CloseState),
    Opening(OpeningState),
    Closing(ClosingState),
}

/// What one dispatch asks the event loop to do with the completion timer.
///
/// At most one timer is active per handler. `Restart` stands for "cancel any
/// pending timer, then arm a fresh one for the configured duration"; arming
/// never happens without the cancellation, so a superseded timer is always
/// canceled before its replacement exists. On expiry the armed timer injects
/// the reserved `(timer topic, expires)` event back into dispatch.
#[derive(Clone, Copy, Debug, PartialEq, Eq, Structural)]
pub enum TimerAction {
    /// Leave any pending timer as it is.
    Unchanged,
    /// Cancel any pending timer and arm no new one.
    Cancel,
    /// Cancel any pending timer and arm a fresh one.
    Restart,
}

/// The outcome one state computes for one event: the state to commit, at
/// most one switch or report command to emit before the unconditional
/// state republication, and the timer instruction.
#[derive(Clone, Copy)]
pub struct Step {
    pub next: StateEnum,
    pub command: Option<(&'static str, &'static str)>,
    pub timer: TimerAction,
}

/// Spec-level counterpart of [`Step`].
pub struct Transition {
    pub next: StateEnum,
    pub emit: Option<MessageView>,
    pub timer: TimerAction,
}

/// Does `(topic, payload)` spell the event with topic `t` and textual
/// payload `p`? Payloads arrive as bytes, so `p` is compared in its UTF-8
/// encoding.
pub open spec fn is_event(topic: Seq<char>, payload: Seq<u8>, t: Seq<char>, p: Seq<char>) -> bool {
    topic == t && payload == encode_utf8(p)
}

/// A command publication at quality-of-service 1, the level every outbound
/// message of the controller uses.
pub open spec fn command_message(topic: Seq<char>, payload: Seq<char>) -> MessageView {
    MessageView { topic: topic, payload: encode_utf8(payload), qos: 1 }
}

/// The payload under which a state is reported on the cover-state topic.
pub open spec fn state_payload(s: StateEnum) -> Seq<char> {
    match s {
        StateEnum::Open(_) => MqttPayloads::spec_state_open(),
        StateEnum::Close(_) => MqttPayloads::spec_state_close(),
        StateEnum::Opening(_) => MqttPayloads::spec_state_opening(),
        StateEnum::Closing(_) => MqttPayloads::spec_state_closing(),
    }
}

/// The derived-state report published unconditionally after every dispatch.
pub open spec fn state_report(s: StateEnum) -> MessageView {
    command_message(MqttTopics::spec_cover_state(), state_payload(s))
}

/// Transition table of the closed position.
pub open spec fn spec_close_transition(topic: Seq<char>, payload: Seq<u8>) -> Transition {
    if is_event(
        topic,
        payload,
        MqttTopics::spec_cover_command(),
        MqttPayloads::spec_command_open(),
    ) {
        Transition {
            next: StateEnum::Close(CloseState),
            emit: Some(
                command_message(
                    MqttTopics::spec_switch_open_command(),
                    MqttPayloads::spec_switch_on(),
                ),
            ),
            timer: TimerAction::Unchanged,
        }
    } else if is_event(
        topic,
        payload,
        MqttTopics::spec_switch_open_state(),
        MqttPayloads::spec_switch_on(),
    ) {
        Transition {
            next: StateEnum::Opening(OpeningState),
            emit: None,
            timer: TimerAction::Restart,
        }
    } else {
        Transition {
            next: StateEnum::Close(CloseState),
            emit: None,
            timer: TimerAction::Unchanged,
        }
    }
}

/// Transition table of the open position.
pub open spec fn spec_open_transition(topic: Seq<char>, payload: Seq<u8>) -> Transition {
    if is_event(
        topic,
        payload,
        MqttTopics::spec_cover_command(),
        MqttPayloads::spec_command_close(),
    ) {
        Transition {
            next: StateEnum::Open(OpenState),
            emit: Some(
                command_message(
                    MqttTopics::spec_switch_close_command(),
                    MqttPayloads::spec_switch_on(),
                ),
            ),
            timer: TimerAction::Unchanged,
        }
    } else if is_event(
        topic,
        payload,
        MqttTopics::spec_switch_close_state(),
        MqttPayloads::spec_switch_on(),
    ) {
        Transition {
            next: StateEnum::Closing(ClosingState),
            emit: None,
            timer: TimerAction::Restart,
        }
    } else {
        Transition { next: StateEnum::Open(OpenState), emit: None, timer: TimerAction::Unchanged }
    }
}

/// Transition table of the opening transit.
pub open spec fn spec_opening_transition(topic: Seq<char>, payload: Seq<u8>) -> Transition {
    if is_event(
        topic,
        payload,
        MqttTopics::spec_timer_topic(),
        MqttPayloads::spec_timer_expires(),
    ) {
        Transition {
            next: StateEnum::Open(OpenState),
            emit: Some(
                command_message(MqttTopics::spec_cover_state(), MqttPayloads::spec_state_open()),
            ),
            timer: TimerAction::Unchanged,
        }
    } else if is_event(
        topic,
        payload,
        MqttTopics::spec_switch_open_state(),
        MqttPayloads::spec_switch_on(),
    ) {
        Transition {
            next: StateEnum::Opening(OpeningState),
            emit: None,
            timer: TimerAction::Cancel,
        }
    } else if is_event(
        topic,
        payload,
        MqttTopics::spec_switch_close_state(),
        MqttPayloads::spec_switch_on(),
    ) {
        Transition {
            next: StateEnum::Closing(ClosingState),
            emit: None,
            timer: TimerAction::Restart,
        }
    } else if is_event(
        topic,
        payload,
        MqttTopics::spec_cover_command(),
        MqttPayloads::spec_command_stop(),
    ) {
        Transition {
            next: StateEnum::Opening(OpeningState),
            emit: Some(
                command_message(
                    MqttTopics::spec_switch_open_command(),
                    MqttPayloads::spec_switch_on(),
                ),
            ),
            timer: TimerAction::Unchanged,
        }
    } else {
        Transition {
            next: StateEnum::Opening(OpeningState),
            emit: None,
            timer: TimerAction::Unchanged,
        }
    }
}

/// Transition table of the closing transit.
pub open spec fn spec_closing_transition(topic: Seq<char>, payload: Seq<u8>) -> Transition {
    if is_event(
        topic,
        payload,
        MqttTopics::spec_timer_topic(),
        MqttPayloads::spec_timer_expires(),
    ) {
        Transition {
            next: StateEnum::Close(CloseState),
            emit: Some(
                command_message(MqttTopics::spec_cover_state(), MqttPayloads::spec_state_close()),
            ),
            timer: TimerAction::Unchanged,
        }
    } else if is_event(
        topic,
        payload,
        MqttTopics::spec_switch_close_state(),
        MqttPayloads::spec_switch_on(),
    ) {
        Transition {
            next: StateEnum::Closing(ClosingState),
            emit: None,
            timer: TimerAction::Cancel,
        }
    } else if is_event(
        topic,
        payload,
        MqttTopics::spec_switch_open_state(),
        MqttPayloads::spec_switch_on(),
    ) {
        Transition {
            next: StateEnum::Opening(OpeningState),
            emit: None,
            timer: TimerAction::Restart,
        }
    } else if is_event(
        topic,
        payload,
        MqttTopics::spec_cover_command(),
        MqttPayloads::spec_command_stop(),
    ) {
        Transition {
            next: StateEnum::Closing(ClosingState),
            emit: Some(
                command_message(
                    MqttTopics::spec_switch_close_command(),
                    MqttPayloads::spec_switch_on(),
                ),
            ),
            timer: TimerAction::Unchanged,
        }
    } else {
        Transition {
            next: StateEnum::Closing(ClosingState),
            emit: None,
            timer: TimerAction::Unchanged,
        }
    }
}

/// The total transition table: what any state does with any event.
pub open spec fn spec_transition(s: StateEnum, topic: Seq<char>, payload: Seq<u8>) -> Transition {
    match s {
        StateEnum::Open(_) => spec_open_transition(topic, payload),
        StateEnum::Close(_) => spec_close_transition(topic, payload),
        StateEnum::Opening(_) => spec_opening_transition(topic, payload),
        StateEnum::Closing(_) => spec_closing_transition(topic, payload),
    }
}

/// Does some row of the transition table (other than the default row) name
/// `(topic, payload)` in state `s`?
pub open spec fn spec_event_matches(s: StateEnum, topic: Seq<char>, payload: Seq<u8>) -> bool {
    match s {
        StateEnum::Open(_) => is_event(
            topic,
            payload,
            MqttTopics::spec_cover_command(),
            MqttPayloads::spec_command_close(),
        ) || is_event(
            topic,
            payload,
            MqttTopics::spec_switch_close_state(),
            MqttPayloads::spec_switch_on(),
        ),
        StateEnum::Close(_) => is_event(
            topic,
            payload,
            MqttTopics::spec_cover_command(),
            MqttPayloads::spec_command_open(),
        ) || is_event(
            topic,
            payload,
            MqttTopics::spec_switch_open_state(),
            MqttPayloads::spec_switch_on(),
        ),
        StateEnum::Opening(_) => is_event(
            topic,
            payload,
            MqttTopics::spec_timer_topic(),
            MqttPayloads::spec_timer_expires(),
        ) || is_event(
            topic,
            payload,
            MqttTopics::spec_switch_open_state(),
            MqttPayloads::spec_switch_on(),
        ) || is_event(
            topic,
            payload,
            MqttTopics::spec_switch_close_state(),
            MqttPayloads::spec_switch_on(),
        ) || is_event(
            topic,
            payload,
            MqttTopics::spec_cover_command(),
            MqttPayloads::spec_command_stop(),
        ),
        StateEnum::Closing(_) => is_event(
            topic,
            payload,
            MqttTopics::spec_timer_topic(),
            MqttPayloads::spec_timer_expires(),
        ) || is_event(
            topic,
            payload,
            MqttTopics::spec_switch_close_state(),
            MqttPayloads::spec_switch_on(),
        ) || is_event(
            topic,
            payload,
            MqttTopics::spec_switch_open_state(),
            MqttPayloads::spec_switch_on(),
        ) || is_event(
            topic,
            payload,
            MqttTopics::spec_cover_command(),
            MqttPayloads::spec_command_stop(),
        ),
    }
}

/// Everything one dispatch publishes, in order: the transition's own emission
/// if it has one, then the unconditional report of the committed state.
pub open spec fn spec_dispatch_publishes(s: StateEnum, topic: Seq<char>, payload: Seq<u8>) -> Seq<
    MessageView,
> {
    let tr = spec_transition(s, topic, payload);
    match tr.emit {
        Some(m) => seq![m, state_report(tr.next)],
        None => seq![state_report(tr.next)],
    }
}

/// The spec image of the command an executable [`Step`] carries.
pub open spec fn command_view(c: Option<(&str, &str)>) -> Option<MessageView> {
    match c {
        Some(tp) => Some(command_message(tp.0@, tp.1@)),
        None => None,
    }
}

/// Does the executable step say exactly what the transition table says?
pub open spec fn step_refines(step: Step, tr: Transition) -> bool {
    &&& step.next == tr.next
    &&& command_view(step.command) == tr.emit
    &&& step.timer == tr.timer
}

/// The four inbound topics are pairwise distinct (their lengths already
/// differ), so at most one row of any state's transition table can match an
/// event.
proof fn lemma_inbound_topics_distinct()
    ensures
        MqttTopics::spec_timer_topic() != MqttTopics::spec_cover_command(),
        MqttTopics::spec_timer_topic() != MqttTopics::spec_switch_open_state(),
        MqttTopics::spec_timer_topic() != MqttTopics::spec_switch_close_state(),
        MqttTopics::spec_cover_command() != MqttTopics::spec_switch_open_state(),
        MqttTopics::spec_cover_command() != MqttTopics::spec_switch_close_state(),
        MqttTopics::spec_switch_open_state() != MqttTopics::spec_switch_close_state(),
{
    reveal_strlit("timer/cover");
    reveal_strlit("cover/command");
    reveal_strlit("switch/open/state");
    reveal_strlit("switch/close/state");
    assert(MqttTopics::spec_timer_topic().len() == 11);
    assert(MqttTopics::spec_cover_command().len() == 13);
    assert(MqttTopics::spec_switch_open_state().len() == 17);
    assert(MqttTopics::spec_switch_close_state().len() == 18);
}

/// Bytewise equality of two slices.
fn bytes_eq(a: &[u8], b: &[u8]) -> (r: bool)
    ensures
        r == (a@ == b@),
{
    if a.len() != b.len() {
        return false;
    }
    let n: usize = a.len();
    let mut i: usize = 0;
    while i < n
        invariant
            n == a@.len(),
            n == b@.len(),
            i <= n,
            forall|j: int| 0 <= j < i ==> a@[j] == b@[j],
        decreases n - i,
    {
        if a[i] != b[i] {
            return false;
        }
        i = i + 1;
    }
    proof {
        assert(a@ =~= b@);
    }
    true
}

/// Equality of two strings, decided on their UTF-8 bytes.
fn str_eq(a: &str, b: &str) -> (r: bool)
    ensures
        r == (a@ == b@),
{
    let r = bytes_eq(a.as_bytes(), b.as_bytes());
    proof {
        if r {
            encode_utf8_decode_utf8(a@);
            encode_utf8_decode_utf8(b@);
        }
    }
    r
}

impl CloseState {
    /// Response of the closed position: an open command actuates the open
    /// switch, and the open switch's echo starts the opening transit.
    pub fn process_message(&self, topic: &str, payload: &[u8]) -> (step: Step)
        ensures
            step_refines(step, spec_transition(StateEnum::Close(CloseState), topic@, payload@)),
    {
        if str_eq(topic, MqttTopics::cover_command()) && bytes_eq(
            payload,
            MqttPayloads::command_open().as_bytes(),
        ) {
            return Step {
                next: StateEnum::Close(CloseState),
                command: Some((MqttTopics::switch_open_command(), MqttPayloads::switch_on())),
                timer: TimerAction::Unchanged,
            };
        }
        if str_eq(topic, MqttTopics::switch_open_state()) && bytes_eq(
            payload,
            MqttPayloads::switch_on().as_bytes(),
        ) {
            return Step {
                next: StateEnum::Opening(OpeningState),
                command: None,
                timer: TimerAction::Restart,
            };
        }
        Step { next: StateEnum::Close(CloseState), command: None, timer: TimerAction::Unchanged }
    }
}

impl OpenState {
    /// Response of the open position: a close command actuates the close
    /// switch, and the close switch's echo starts the closing transit.
    pub fn process_message(&self, topic: &str, payload: &[u8]) -> (step: Step)
        ensures
            step_refines(step, spec_transition(StateEnum::Open(OpenState), topic@, payload@)),
    {
        if str_eq(topic, MqttTopics::cover_command()) && bytes_eq(
            payload,
            MqttPayloads::command_close().as_bytes(),
        ) {
            return Step {
                next: StateEnum::Open(OpenState),
                command: Some((MqttTopics::switch_close_command(), MqttPayloads::switch_on())),
                timer: TimerAction::Unchanged,
            };
        }
        if str_eq(topic, MqttTopics::switch_close_state()) && bytes_eq(
            payload,
            MqttPayloads::switch_on().as_bytes(),
        ) {
            return Step {
                next: StateEnum::Closing(ClosingState),
                command: None,
                timer: TimerAction::Restart,
            };
        }
        Step { next: StateEnum::Open(OpenState), command: None, timer: TimerAction::Unchanged }
    }
}

impl OpeningState {
    /// Response of the opening transit: expiry completes it, the open echo
    /// confirms it and stops the timer, the close echo reverses it, and a
    /// stop command re-asserts the open switch.
    pub fn process_message(&self, topic: &str, payload: &[u8]) -> (step: Step)
        ensures
            step_refines(
                step,
                spec_transition(StateEnum::Opening(OpeningState), topic@, payload@),
            ),
    {
        if str_eq(topic, MqttTopics::timer_topic()) && bytes_eq(
            payload,
            MqttPayloads::timer_expires().as_bytes(),
        ) {
            return Step {
                next: StateEnum::Open(OpenState),
                command: Some((MqttTopics::cover_state(), MqttPayloads::state_open())),
                timer: TimerAction::Unchanged,
            };
        }
        if str_eq(topic, MqttTopics::switch_open_state()) && bytes_eq(
            payload,
            MqttPayloads::switch_on().as_bytes(),
        ) {
            return Step {
                next: StateEnum::Opening(OpeningState),
                command: None,
                timer: TimerAction::Cancel,
            };
        }
        if str_eq(topic, MqttTopics::switch_close_state()) && bytes_eq(
            payload,
            MqttPayloads::switch_on().as_bytes(),
        ) {
            return Step {
                next: StateEnum::Closing(ClosingState),
                command: None,
                timer: TimerAction::Restart,
            };
        }
        if str_eq(topic, MqttTopics::cover_command()) && bytes_eq(
            payload,
            MqttPayloads::command_stop().as_bytes(),
        ) {
            return Step {
                next: StateEnum::Opening(OpeningState),
                command: Some((MqttTopics::switch_open_command(), MqttPayloads::switch_on())),
                timer: TimerAction::Unchanged,
            };
        }
        Step {
            next: StateEnum::Opening(OpeningState),
            command: None,
            timer: TimerAction::Unchanged,
        }
    }
}

impl ClosingState {
    /// Response of the closing transit: expiry completes it, the close echo
    /// confirms it and stops the timer, the open echo reverses it, and a
    /// stop command re-asserts the close switch.
    pub fn process_message(&self, topic: &str, payload: &[u8]) -> (step: Step)
        ensures
            step_refines(
                step,
                spec_transition(StateEnum::Closing(ClosingState), topic@, payload@),
            ),
    {
        if str_eq(topic, MqttTopics::timer_topic()) && bytes_eq(
            payload,
            MqttPayloads::timer_expires().as_bytes(),
        ) {
            return Step {
                next: StateEnum::Close(CloseState),
                command: Some((MqttTopics::cover_state(), MqttPayloads::state_close())),
                timer: TimerAction::Unchanged,
            };
        }
        if str_eq(topic, MqttTopics::switch_close_state()) && bytes_eq(
            payload,
            MqttPayloads::switch_on().as_bytes(),
        ) {
            return Step {
                next: StateEnum::Closing(ClosingState),
                command: None,
                timer: TimerAction::Cancel,
            };
        }
        if str_eq(topic, MqttTopics::switch_open_state()) && bytes_eq(
            payload,
            MqttPayloads::switch_on().as_bytes(),
        ) {
            return Step {
                next: StateEnum::Opening(OpeningState),
                command: None,
                timer: TimerAction::Restart,
            };
        }
        if str_eq(topic, MqttTopics::cover_command()) && bytes_eq(
            payload,
            MqttPayloads::command_stop().as_bytes(),
        ) {
            return Step {
                next: StateEnum::Closing(ClosingState),
                command: Some((MqttTopics::switch_close_command(), MqttPayloads::switch_on())),
                timer: TimerAction::Unchanged,
            };
        }
        Step {
            next: StateEnum::Closing(ClosingState),
            command: None,
            timer: TimerAction::Unchanged,
        }
    }
}

impl StateEnum {
    /// The total transition function, dispatched on the current state.
    pub fn process_message(&self, topic: &str, payload: &[u8]) -> (step: Step)
        ensures
            step_refines(step, spec_transition(*self, topic@, payload@)),
    {
        match self {
            StateEnum::Open(state) => state.process_message(topic, payload),
            StateEnum::Close(state) => state.process_message(topic, payload),
            StateEnum::Opening(state) => state.process_message(topic, payload),
            StateEnum::Closing(state) => state.process_message(topic, payload),
        }
    }
}

/// In every state, an event no transition rule names is a no-op: the state
/// is kept, no command is emitted, the timer is left alone, and a dispatch
/// of that event publishes the current derived state exactly once.
pub proof fn lemma_unmatched_event_is_noop(s: StateEnum, topic: Seq<char>, payload: Seq<u8>)
    requires
        !spec_event_matches(s, topic, payload),
    ensures
        spec_transition(s, topic, payload).next == s,
        spec_transition(s, topic, payload).emit is None,
        spec_transition(s, topic, payload).timer == TimerAction::Unchanged,
        spec_dispatch_publishes(s, topic, payload) =~= seq![state_report(s)],
{
}

/// A stop command during transit re-emits the transit's own switch command
/// and never changes the state or touches the timer, however often it is
/// issued.
pub proof fn lemma_stop_command_is_idempotent(s: StateEnum)
    requires
        s is Opening || s is Closing,
    ensures
        spec_transition(
            s,
            MqttTopics::spec_cover_command(),
            encode_utf8(MqttPayloads::spec_command_stop()),
        ).next == s,
        spec_transition(
            s,
            MqttTopics::spec_cover_command(),
            encode_utf8(MqttPayloads::spec_command_stop()),
        ).timer == TimerAction::Unchanged,
        s is Opening ==> spec_transition(
            s,
            MqttTopics::spec_cover_command(),
            encode_utf8(MqttPayloads::spec_command_stop()),
        ).emit == Some(
            command_message(
                MqttTopics::spec_switch_open_command(),
                MqttPayloads::spec_switch_on(),
            ),
        ),
        s is Closing ==> spec_transition(
            s,
            MqttTopics::spec_cover_command(),
            encode_utf8(MqttPayloads::spec_command_stop()),
        ).emit == Some(
            command_message(
                MqttTopics::spec_switch_close_command(),
                MqttPayloads::spec_switch_on(),
            ),
        ),
{
    lemma_inbound_topics_distinct();
}

/// A reversal during the opening transit goes directly to the closing
/// transit, and its timer instruction cancels the superseded timer before a
/// fresh one is armed; the symmetric reversal holds for the closing transit.
pub proof fn lemma_reversal_restarts_timer(s: StateEnum)
    requires
        s is Opening || s is Closing,
    ensures
        s is Opening ==> spec_transition(
            s,
            MqttTopics::spec_switch_close_state(),
            encode_utf8(MqttPayloads::spec_switch_on()),
        ) == (Transition {
            next: StateEnum::Closing(ClosingState),
            emit: None,
            timer: TimerAction::Restart,
        }),
        s is Closing ==> spec_transition(
            s,
            MqttTopics::spec_switch_open_state(),
            encode_utf8(MqttPayloads::spec_switch_on()),
        ) == (Transition {
            next: StateEnum::Opening(OpeningState),
            emit: None,
            timer: TimerAction::Restart,
        }),
{
    lemma_inbound_topics_distinct();
}

/// A completion timer that fires late — after its transit already ended in a
/// terminal state — is benign: the expiry event matches no rule of `Open` or
/// `Close`, so the state is kept and only the heartbeat republication goes
/// out.
pub proof fn lemma_late_timer_expiry_is_benign(s: StateEnum)
    requires
        s is Open || s is Close,
    ensures
        spec_transition(
            s,
            MqttTopics::spec_timer_topic(),
            encode_utf8(MqttPayloads::spec_timer_expires()),
        ).next == s,
        spec_transition(
            s,
            MqttTopics::spec_timer_topic(),
            encode_utf8(MqttPayloads::spec_timer_expires()),
        ).emit is None,
        spec_transition(
            s,
            MqttTopics::spec_timer_topic(),
            encode_utf8(MqttPayloads::spec_timer_expires()),
        ).timer == TimerAction::Unchanged,
{
    lemma_inbound_topics_distinct();
}

/// No dispatch ever publishes on the availability topic, in any state and
/// for any event; together with the dispatch contract, which keeps the
/// subscription log unchanged, the markers of `initialize` and `finalize`
/// are the only availability traffic of the controller, whatever events
/// arrive in between.
pub proof fn lemma_dispatch_never_publishes_availability(
    s: StateEnum,
    topic: Seq<char>,
    payload: Seq<u8>,
)
    ensures
        forall|i: int|
            0 <= i < spec_dispatch_publishes(s, topic, payload).len()
                ==> #[trigger] spec_dispatch_publishes(s, topic, payload)[i].topic
                != MqttTopics::spec_cover_availability(),
{
    reveal_strlit("cover/availability");
    reveal_strlit("cover/state");
    reveal_strlit("switch/open/command");
    reveal_strlit("switch/close/command");
    assert(MqttTopics::spec_cover_availability().len() == 18);
    assert(MqttTopics::spec_cover_state().len() == 11);
    assert(MqttTopics::spec_switch_open_command().len() == 19);
    assert(MqttTopics::spec_switch_close_command().len() == 20);
}

/// The subscription the controller opens on initialization: the two switch
/// echo topics and its own state topic, each at quality-of-service 1.
pub open spec fn initial_subscription() -> SubscribeView {
    SubscribeView {
        topics: seq![
            MqttTopics::spec_switch_open_state(),
            MqttTopics::spec_switch_close_state(),
            MqttTopics::spec_cover_state(),
        ],
        qos: seq![1u8, 1u8, 1u8],
    }
}

/// The availability marker published on initialization.
pub open spec fn online_report() -> MessageView {
    command_message(
        MqttTopics::spec_cover_availability(),
        MqttPayloads::spec_availability_online(),
    )
}

/// The availability marker published on teardown.
pub open spec fn offline_report() -> MessageView {
    command_message(
        MqttTopics::spec_cover_availability(),
        MqttPayloads::spec_availability_offline(),
    )
}

/// The handler owning one cover: its current state, its transport, and the
/// duration the event loop arms completion timers with.
pub struct MqttEventHandler<C: Client> {
    pub client: C,
    pub state: StateEnum,
    pub timer_duration: u64,
}

impl<C: Client> MqttEventHandler<C> {
    /// A fresh handler over `client`, reporting `Close` until events say
    /// otherwise — a deliberate default, not derived from any feedback —
    /// with the default transit bound.
    pub fn new(client: C) -> (h: MqttEventHandler<C>)
        ensures
            h.state == StateEnum::Close(CloseState),
            h.client == client,
            h.timer_duration == DEFAULT_TIMER_DURATION_MS,
    {
        MqttEventHandler {
            client,
            state: StateEnum::Close(CloseState),
            timer_duration: DEFAULT_TIMER_DURATION_MS,
        }
    }

    /// Force the current state, without publications or timer changes.
    pub fn change_state(&mut self, new_state: StateEnum)
        ensures
            final(self).state == new_state,
            final(self).client == old(self).client,
            final(self).timer_duration == old(self).timer_duration,
    {
        self.state = new_state;
    }

    /// Set the transit bound, in milliseconds, for timers armed after this
    /// call.
    pub fn set_timer_duration(&mut self, duration_ms: u64)
        ensures
            final(self).timer_duration == duration_ms,
            final(self).state == old(self).state,
            final(self).client == old(self).client,
    {
        self.timer_duration = duration_ms;
    }

    /// Subscribe to the three inbound echo topics, then publish the online
    /// availability marker. A refused subscription aborts initialization
    /// before the marker is attempted; either failure is surfaced to the
    /// caller, and the subscription request is on record either way.
    pub fn initialize(&mut self) -> (r: Result<(), TransportError>)
        ensures
            final(self).state == old(self).state,
            final(self).timer_duration == old(self).timer_duration,
            final(self).client.subscribed() == old(self).client.subscribed().push(
                initial_subscription(),
            ),
            r is Ok <==> old(self).client.accepts_subscribe() && old(
                self,
            ).client.accepts_publish(),
            old(self).client.accepts_subscribe() ==> final(self).client.published() == old(
                self,
            ).client.published().push(online_report()),
            !old(self).client.accepts_subscribe() ==> final(self).client.published() == old(
                self,
            ).client.published(),
            final(self).client.accepts_publish() == old(self).client.accepts_publish(),
            final(self).client.accepts_subscribe() == old(self).client.accepts_subscribe(),
    {
        let mut topics: Vec<&str> = Vec::new();
        topics.push(MqttTopics::switch_open_state());
        topics.push(MqttTopics::switch_close_state());
        topics.push(MqttTopics::cover_state());
        let mut qos: Vec<u8> = Vec::new();
        qos.push(1);
        qos.push(1);
        qos.push(1);
        let topics_slice: &[&str] = topics.as_slice();
        let qos_slice: &[u8] = qos.as_slice();
        proof {
            assert(topics_slice.deep_view() =~= initial_subscription().topics);
            assert(qos_slice@ =~= initial_subscription().qos);
        }
        let sub = self.client.subscribe_many(topics_slice, qos_slice);
        if sub.is_err() {
            return Err(TransportError);
        }
        self.client.publish(
            MqttTopics::cover_availability(),
            MqttPayloads::availability_online().as_bytes(),
            1,
        )
    }

    /// Dispatch one inbound event: compute the transition, emit its command
    /// if it has one, commit the next state, republish the derived state
    /// unconditionally, and hand back the timer instruction. Publish
    /// failures are ignored; the commit happens regardless.
    pub fn process_message(&mut self, topic: &str, payload: &[u8]) -> (timer: TimerAction)
        ensures
            final(self).state == spec_transition(old(self).state, topic@, payload@).next,
            timer == spec_transition(old(self).state, topic@, payload@).timer,
            final(self).client.published() == old(self).client.published()
                + spec_dispatch_publishes(old(self).state, topic@, payload@),
            final(self).client.subscribed() == old(self).client.subscribed(),
            final(self).client.accepts_publish() == old(self).client.accepts_publish(),
            final(self).client.accepts_subscribe() == old(self).client.accepts_subscribe(),
            final(self).timer_duration == old(self).timer_duration,
    {
        let step = self.state.process_message(topic, payload);
        if let Some(cmd) = step.command {
            let _ = self.client.publish(cmd.0, cmd.1.as_bytes(), 1);
        }
        self.state = step.next;
        self.publish_state();
        proof {
            assert(self.client.published() =~= old(self).client.published()
                + spec_dispatch_publishes(old(self).state, topic@, payload@));
        }
        step.timer
    }

    /// Report the current state on the cover-state topic. Dispatch calls
    /// this after every event, changed state or not; consumers read it as a
    /// heartbeat.
    pub fn publish_state(&mut self)
        ensures
            final(self).state == old(self).state,
            final(self).timer_duration == old(self).timer_duration,
            final(self).client.published() == old(self).client.published().push(
                state_report(old(self).state),
            ),
            final(self).client.subscribed() == old(self).client.subscribed(),
            final(self).client.accepts_publish() == old(self).client.accepts_publish(),
            final(self).client.accepts_subscribe() == old(self).client.accepts_subscribe(),
    {
        let payload: &str = match self.state {
            StateEnum::Open(_) => MqttPayloads::state_open(),
            StateEnum::Close(_) => MqttPayloads::state_close(),
            StateEnum::Opening(_) => MqttPayloads::state_opening(),
            StateEnum::Closing(_) => MqttPayloads::state_closing(),
        };
        let _ = self.client.publish(MqttTopics::cover_state(), payload.as_bytes(), 1);
    }

    /// Publish the offline availability marker; the request is on record
    /// whether or not the transport confirms it, and a refusal is surfaced,
    /// not retried.
    pub fn finalize(&mut self) -> (r: Result<(), TransportError>)
        ensures
            final(self).state == old(self).state,
            final(self).timer_duration == old(self).timer_duration,
            final(self).client.published() == old(self).client.published().push(
                offline_report(),
            ),
            final(self).client.subscribed() == old(self).client.subscribed(),
            r is Ok <==> old(self).client.accepts_publish(),
            final(self).client.accepts_publish() == old(self).client.accepts_publish(),
            final(self).client.accepts_subscribe() == old(self).client.accepts_subscribe(),
    {
        self.client.publish(
            MqttTopics::cover_availability(),
            MqttPayloads::availability_offline().as_bytes(),
            1,
        )
    }
}

} // verus!
