//! The relay between a request and a pack subprocess, as decisions: what is
//! done with each piece that arrives on either side. The relay holds no
//! bytes; every piece is passed on at once or not at all.

use vstd::prelude::*;

verus! {

/// What happened on one side of the relay.
#[derive(Clone, Copy, Debug, PartialEq, Eq, Structural)]
pub enum RelayEvent {
    /// A piece of the request body arrived.
    BodyChunk,
    /// The request body is complete.
    BodyEnd,
    /// The request body broke off: the client is gone.
    BodyFailed,
    /// The subprocess takes no more input.
    InputClosed,
    /// The subprocess wrote a piece.
    OutputChunk,
    /// The subprocess closed its output.
    OutputEnd,
    /// Reading from the subprocess failed.
    OutputFailed,
}

/// What the server does about it.
#[derive(Clone, Copy, Debug, PartialEq, Eq, Structural)]
pub enum RelayAction {
    /// Write the piece to the subprocess.
    WriteInput,
    /// Close the input of the subprocess.
    CloseInput,
    /// Send the piece to the client.
    SendOutput,
    /// End the response.
    Finish,
    /// Kill the subprocess and end the response where it stands.
    Kill,
    /// Nothing; a piece that came with the event is dropped.
    Nothing,
}

/// The state of one relay.
#[derive(Clone, Copy, Debug, PartialEq, Eq, Structural)]
pub struct Relay {
    /// The request body is still passed on to the subprocess.
    pub input_open: bool,
    /// The relay is over.
    pub done: bool,
}

/// The state after an event.
pub open spec fn state_after(s: Relay, e: RelayEvent) -> Relay {
    if s.done {
        s
    } else {
        match e {
            RelayEvent::BodyChunk => s,
            RelayEvent::BodyEnd => Relay { input_open: false, done: false },
            RelayEvent::InputClosed => Relay { input_open: false, done: false },
            RelayEvent::OutputChunk => s,
            RelayEvent::BodyFailed => Relay { input_open: false, done: true },
            RelayEvent::OutputEnd => Relay { input_open: false, done: true },
            RelayEvent::OutputFailed => Relay { input_open: false, done: true },
        }
    }
}

/// The action on an event.
pub open spec fn action_on(s: Relay, e: RelayEvent) -> RelayAction {
    if s.done {
        RelayAction::Nothing
    } else {
        match e {
            RelayEvent::BodyChunk => if s.input_open {
                RelayAction::WriteInput
            } else {
                RelayAction::Nothing
            },
            RelayEvent::BodyEnd => if s.input_open {
                RelayAction::CloseInput
            } else {
                RelayAction::Nothing
            },
            RelayEvent::InputClosed => RelayAction::Nothing,
            RelayEvent::OutputChunk => RelayAction::SendOutput,
            RelayEvent::BodyFailed => RelayAction::Kill,
            RelayEvent::OutputEnd => RelayAction::Finish,
            RelayEvent::OutputFailed => RelayAction::Kill,
        }
    }
}

/// The state after a run of events.
pub open spec fn state_after_all(s: Relay, events: Seq<RelayEvent>) -> Relay
    decreases events.len(),
{
    if events.len() == 0 {
        s
    } else {
        state_after(state_after_all(s, events.drop_last()), events.last())
    }
}

/// The number of pieces sent to the client over a run of events.
pub open spec fn sent(s: Relay, events: Seq<RelayEvent>) -> nat
    decreases events.len(),
{
    if events.len() == 0 {
        0
    } else {
        let before = sent(s, events.drop_last());
        if action_on(state_after_all(s, events.drop_last()), events.last())
            == RelayAction::SendOutput {
            before + 1
        } else {
            before
        }
    }
}

/// The number of pieces that the subprocess wrote over a run of events.
pub open spec fn written(events: Seq<RelayEvent>) -> nat
    decreases events.len(),
{
    if events.len() == 0 {
        0
    } else if events.last() == RelayEvent::OutputChunk {
        written(events.drop_last()) + 1
    } else {
        written(events.drop_last())
    }
}

impl Relay {
    /// A relay at its start. Where the request body is not passed on, the
    /// input counts as closed from the start.
    pub fn start(relays_request_body: bool) -> (r: Relay)
        ensures
            r == (Relay { input_open: relays_request_body, done: false }),
    {
        Relay { input_open: relays_request_body, done: false }
    }

    /// Whether the relay still waits for the request body.
    pub fn wants_body(&self) -> (r: bool)
        ensures
            r == (!self.done && self.input_open),
    {
        !self.done && self.input_open
    }

    /// Whether the relay is over.
    pub fn finished(&self) -> (r: bool)
        ensures
            r == self.done,
    {
        self.done
    }

    /// Takes one event and says what to do about it.
    pub fn step(&mut self, event: RelayEvent) -> (action: RelayAction)
        ensures
            action == action_on(*old(self), event),
            *final(self) == state_after(*old(self), event),
    {
        if self.done {
            return RelayAction::Nothing;
        }
        match event {
            RelayEvent::BodyChunk => {
                if self.input_open {
                    RelayAction::WriteInput
                } else {
                    RelayAction::Nothing
                }
            },
            RelayEvent::BodyEnd => {
                let open = self.input_open;
                self.input_open = false;
                if open {
                    RelayAction::CloseInput
                } else {
                    RelayAction::Nothing
                }
            },
            RelayEvent::InputClosed => {
                self.input_open = false;
                RelayAction::Nothing
            },
            RelayEvent::OutputChunk => RelayAction::SendOutput,
            RelayEvent::BodyFailed => {
                self.input_open = false;
                self.done = true;
                RelayAction::Kill
            },
            RelayEvent::OutputEnd => {
                self.input_open = false;
                self.done = true;
                RelayAction::Finish
            },
            RelayEvent::OutputFailed => {
                self.input_open = false;
                self.done = true;
                RelayAction::Kill
            },
        }
    }
}

/// A relay that is over stays over, and nothing more is done.
pub proof fn lemma_done_is_final(s: Relay, e: RelayEvent)
    requires
        s.done,
    ensures
        state_after(s, e) == s,
        action_on(s, e) == RelayAction::Nothing,
{
}

/// An input that is closed stays closed, and nothing is written to it.
pub proof fn lemma_closed_input_stays_closed(s: Relay, e: RelayEvent)
    requires
        !s.input_open,
    ensures
        !state_after(s, e).input_open,
        action_on(s, e) != RelayAction::WriteInput,
        action_on(s, e) != RelayAction::CloseInput,
{
}

/// When the client goes away or the subprocess breaks, a running relay
/// kills the subprocess and is over.
pub proof fn lemma_failure_ends_the_relay(s: Relay, e: RelayEvent)
    requires
        !s.done,
        e == RelayEvent::BodyFailed || e == RelayEvent::OutputFailed,
    ensures
        action_on(s, e) == RelayAction::Kill,
        state_after(s, e).done,
{
}

/// While a relay runs, every piece that the subprocess wrote has been sent
/// to the client, once: whatever happens on the side of the request, no
/// piece is held back, left out or sent again.
pub proof fn lemma_running_relay_sends_all(s: Relay, events: Seq<RelayEvent>)
    requires
        !s.done,
        !state_after_all(s, events).done,
    ensures
        sent(s, events) == written(events),
    decreases events.len(),
{
    if events.len() > 0 {
        let before = state_after_all(s, events.drop_last());
        if before.done {
            lemma_done_is_final(before, events.last());
        }
        lemma_running_relay_sends_all(s, events.drop_last());
    }
}

/// However a relay ends, what was sent to the client is a leading part of
/// what the subprocess wrote.
pub proof fn lemma_sent_never_exceeds_written(s: Relay, events: Seq<RelayEvent>)
    ensures
        sent(s, events) <= written(events),
    decreases events.len(),
{
    if events.len() > 0 {
        lemma_sent_never_exceeds_written(s, events.drop_last());
    }
}

} // verus!
