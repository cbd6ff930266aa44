//! The log-stream listener's supervisory state machine.
//!
//! The listener owns the subscription lifecycle: connect and subscribe,
//! consume the stream, and reconnect on any failure after a fixed delay.
//! The loop never terminates on its own.  Each received notification is
//! filtered by a program mention, classified, and — on a creation signal
//! — resolved into a token record.  The connection, the stream, and the
//! delay itself live outside the library; the machine here decides every
//! transition.

use vstd::prelude::*;
use crate::classifier::{some_line_contains, any_line_contains};
use crate::config::Config;
use crate::processor::Processor;

verus! {

/// Where the subscription lifecycle stands.
#[derive(Clone, Copy, Debug, PartialEq, Eq, Structural)]
pub enum ListenerState {
    /// No live subscription; the next step is a connection attempt.
    Disconnected,
    /// Connected and subscribed; no notification consumed yet.
    Subscribed,
    /// Consuming the notification stream.
    Streaming,
}

/// What the outside world reports to the supervisory loop.
#[derive(Clone, Copy, Debug, PartialEq, Eq, Structural)]
pub enum ListenerEvent {
    /// Connecting and subscribing succeeded.
    SubscribeOk,
    /// Connecting or subscribing failed.
    SubscribeFailed,
    /// One notification arrived.
    MessageReceived,
    /// The stream failed.
    StreamError,
    /// The stream ended without an error.
    StreamEnded,
}

/// The supervisory transition: subscription failures and stream errors
/// return to `Disconnected` with a delay before the next attempt; a
/// stream that ends without error reconnects at once; received messages
/// keep streaming.
pub open spec fn spec_listener_step(s: ListenerState, e: ListenerEvent) -> ListenerState {
    match e {
        ListenerEvent::SubscribeOk => ListenerState::Subscribed,
        ListenerEvent::SubscribeFailed => ListenerState::Disconnected,
        ListenerEvent::MessageReceived => ListenerState::Streaming,
        ListenerEvent::StreamError => ListenerState::Disconnected,
        ListenerEvent::StreamEnded => ListenerState::Disconnected,
    }
}

/// Whether the loop pauses for the fixed delay before its next
/// connection attempt: exactly after a failure.
pub open spec fn spec_listener_delays(e: ListenerEvent) -> bool {
    e is SubscribeFailed || e is StreamError
}

/// The launch-platform listener: configuration, the processor that takes
/// its discoveries, and the supervisory state.
#[derive(Clone, Debug)]
pub struct PumpFunListener {
    pub config: Config,
    pub processor: Processor,
    pub state: ListenerState,
}

impl PumpFunListener {
    /// A listener that has not yet connected.
    pub fn new(config: Config, processor: Processor) -> (l: PumpFunListener)
        ensures
            l.config == config,
            l.processor == processor,
            l.state == ListenerState::Disconnected,
    {
        PumpFunListener { config, processor, state: ListenerState::Disconnected }
    }

    /// Feeds one lifecycle event to the supervisory machine; the result
    /// says whether to pause for the fixed delay before reconnecting.
    pub fn on_event(&mut self, e: ListenerEvent) -> (delay: bool)
        ensures
            final(self).state == spec_listener_step(old(self).state, e),
            final(self).config == old(self).config,
            final(self).processor == old(self).processor,
            delay == spec_listener_delays(e),
    {
        let next = match e {
            ListenerEvent::SubscribeOk => ListenerState::Subscribed,
            ListenerEvent::SubscribeFailed => ListenerState::Disconnected,
            ListenerEvent::MessageReceived => ListenerState::Streaming,
            ListenerEvent::StreamError => ListenerState::Disconnected,
            ListenerEvent::StreamEnded => ListenerState::Disconnected,
        };
        self.state = next;
        match e {
            ListenerEvent::SubscribeFailed => true,
            ListenerEvent::StreamError => true,
            _ => false,
        }
    }
}

/// Does the notification mention the program of interest?  Notifications
/// whose log lines never name it are skipped before classification.
pub fn mentions_program(logs: &Vec<String>, program_id: &str) -> (r: bool)
    ensures
        r == some_line_contains(logs@, program_id@),
{
    any_line_contains(logs, program_id)
}

/// Law: every failure — of the subscription or of the stream — returns
/// the machine to `Disconnected` with the reconnect delay, from any
/// state: the listener self-heals and never wedges.
pub proof fn lemma_failures_reconnect(s: ListenerState, e: ListenerEvent)
    requires
        e is SubscribeFailed || e is StreamError,
    ensures
        spec_listener_step(s, e) == ListenerState::Disconnected,
        spec_listener_delays(e),
{
}

} // verus!
