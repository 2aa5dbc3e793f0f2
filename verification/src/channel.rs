//! The command side: the actuator command, send failures, and the
//! lifecycle of the channel that wraps the publish primitive.

use vstd::prelude::*;

verus! {

/// An immutable textual instruction for the actuator, wrapped for the
/// transport. Constructed by the loop only when a verdict is anomalous and
/// handed to the channel by value.
#[derive(Clone, PartialEq, Eq, Debug)]
pub struct Command {
    /// The payload handed to the transport.
    pub payload: String,
}

/// Why a send failed; carries the transport's message. Never silently
/// swallowed: the loop records it in the cycle's outcome.
#[derive(Clone, PartialEq, Eq, Debug)]
pub struct SendError {
    /// Human-readable cause from the transport.
    pub cause: String,
}

/// Lifecycle state of the command channel. Setup is a one-time ordered
/// sequence; once ready, every send — successful or failed — leaves the
/// channel ready, because each send is an independent attempt. A setup
/// failure is fatal for the process, so `Failed` is absorbing.
#[derive(Clone, Copy, PartialEq, Eq, Structural, Debug)]
pub enum ChannelState {
    /// No transport resources acquired yet.
    Uninitialized,
    /// Setup completed; sends may be attempted.
    Ready,
    /// Setup failed; the channel is unusable for good.
    Failed,
}

/// What happens to a channel.
#[derive(Clone, Copy, PartialEq, Eq, Structural, Debug)]
pub enum ChannelEvent {
    /// The whole setup sequence succeeded.
    SetupSucceeded,
    /// Some step of the setup sequence failed.
    SetupFailed,
    /// A send was attempted, whether it succeeded or not.
    SendAttempted,
}

impl ChannelState {
    /// The lifecycle transition, as a mathematical function.
    pub open spec fn spec_step(self, ev: ChannelEvent) -> ChannelState {
        match self {
            ChannelState::Uninitialized => match ev {
                ChannelEvent::SetupSucceeded => ChannelState::Ready,
                ChannelEvent::SetupFailed => ChannelState::Failed,
                ChannelEvent::SendAttempted => ChannelState::Uninitialized,
            },
            ChannelState::Ready => ChannelState::Ready,
            ChannelState::Failed => ChannelState::Failed,
        }
    }

    /// Sends may be attempted only on a ready channel.
    pub open spec fn can_send(self) -> bool {
        self is Ready
    }

    /// Applies one lifecycle event.
    pub fn step(self, ev: ChannelEvent) -> (s: ChannelState)
        ensures
            s == self.spec_step(ev),
    {
        match self {
            ChannelState::Uninitialized => match ev {
                ChannelEvent::SetupSucceeded => ChannelState::Ready,
                ChannelEvent::SetupFailed => ChannelState::Failed,
                ChannelEvent::SendAttempted => ChannelState::Uninitialized,
            },
            ChannelState::Ready => ChannelState::Ready,
            ChannelState::Failed => ChannelState::Failed,
        }
    }

    /// Decides whether the channel is ready to send.
    pub fn is_ready(self) -> (r: bool)
        ensures
            r == self.can_send(),
    {
        matches!(self, ChannelState::Ready)
    }

    /// A failed send does not break the channel: once ready, a channel
    /// stays ready under any sequence of send attempts.
    pub proof fn lemma_ready_is_stable(self, ev: ChannelEvent)
        requires
            self is Ready,
        ensures
            self.spec_step(ev) is Ready,
    {
    }

    /// A setup failure is fatal: no event ever leaves the failed state.
    pub proof fn lemma_failed_is_absorbing(self, ev: ChannelEvent)
        requires
            self is Failed,
        ensures
            self.spec_step(ev) is Failed,
    {
    }
}

} // verus!
