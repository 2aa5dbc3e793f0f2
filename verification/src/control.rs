//! The control loop: per-cycle decisions, outcome classification, the
//! cancellation discipline, and a verified runner over a recorded
//! environment.
//!
//! Each cycle samples, evaluates, and — exactly when the verdict is
//! anomalous — dispatches one stop command. An acquisition failure skips
//! the cycle; a send failure is recorded in the cycle's outcome; neither
//! stops the loop. Cancellation is honored only at the inter-cycle wait,
//! so a cycle in progress always runs to completion.

use vstd::prelude::*;
use vstd::string::StringExecFns;
use crate::detector::AnomalyDetector;
use crate::reading::Reading;
use crate::sensor::AcquisitionError;
use crate::channel::Command;
use crate::channel::SendError;

verus! {

/// The default inter-cycle period, in milliseconds: five seconds.
pub const DEFAULT_PERIOD_MS: u64 = 5000;

/// The per-iteration result, kept for observability only.
#[derive(Clone, PartialEq, Eq, Debug)]
pub enum CycleOutcome {
    /// No command was dispatched: the reading was normal, or acquisition
    /// failed and the cycle was skipped.
    Normal,
    /// An anomaly was detected and the stop command reached the transport.
    AnomalySentOk,
    /// An anomaly was detected but the send failed; the failure is
    /// reported here and the loop carries on.
    AnomalySendFailed(SendError),
}

/// Whether the loop may start another cycle.
#[derive(Clone, Copy, PartialEq, Eq, Structural, Debug)]
pub enum LoopState {
    /// The loop runs until a cancellation request is observed at a wait.
    Running,
    /// A cancellation request was observed; no further cycle starts.
    Stopped,
}

/// Everything the environment contributes to one cycle: what the sensor
/// returned, what the transport answered (consulted only in a cycle that
/// dispatches a command), and whether cancellation was requested during
/// that cycle's inter-cycle wait.
#[derive(PartialEq, Eq, Debug)]
pub struct CycleInput {
    /// The acquisition backend's answer for this cycle.
    pub sample: Result<Reading, AcquisitionError>,
    /// The transport's answer, had a send been attempted this cycle.
    pub send_result: Result<(), SendError>,
    /// Whether a cancellation request arrives during this cycle's wait.
    pub cancel_during_wait: bool,
}

/// The periodic monitoring-and-control loop. It owns its detector
/// configuration, its period, the stop payload, and the error policy
/// around the publish step; the transport and the timer belong to the
/// caller, who performs each decided action and hands the result back.
pub struct ControlLoop {
    /// The anomaly policy applied to every sampled reading.
    pub detector: AnomalyDetector,
    /// The inter-cycle period, in milliseconds.
    pub period_ms: u64,
    /// The payload of the command dispatched on an anomalous verdict.
    pub stop_payload: String,
    /// Whether another cycle may start.
    pub state: LoopState,
}

impl ControlLoop {
    /// Whether a cycle with this sample dispatches a command: acquisition
    /// succeeded and the verdict on the reading is anomalous.
    pub open spec fn spec_sends(self, sample: Result<Reading, AcquisitionError>) -> bool {
        sample matches Ok(r) && self.detector.spec_verdict(r)
    }

    /// The outcome of one cycle, given the environment's contribution.
    pub open spec fn spec_outcome(self, inp: CycleInput) -> CycleOutcome {
        if self.spec_sends(inp.sample) {
            match inp.send_result {
                Ok(_) => CycleOutcome::AnomalySentOk,
                Err(e) => CycleOutcome::AnomalySendFailed(e),
            }
        } else {
            CycleOutcome::Normal
        }
    }

    /// The outcomes of running the loop against a recorded environment:
    /// one outcome per cycle, up to and through the first cycle whose wait
    /// observes a cancellation request. The cancelled cycle still runs to
    /// completion; the cycles after it never start.
    pub open spec fn spec_trace(self, inputs: Seq<CycleInput>) -> Seq<CycleOutcome>
        decreases inputs.len(),
    {
        if inputs.len() == 0 {
            Seq::empty()
        } else if inputs[0].cancel_during_wait {
            seq![self.spec_outcome(inputs[0])]
        } else {
            seq![self.spec_outcome(inputs[0])] + self.spec_trace(inputs.skip(1))
        }
    }

    /// Whether some wait in the recorded environment requests cancellation.
    pub open spec fn spec_cancelled(inputs: Seq<CycleInput>) -> bool {
        exists|i: int| 0 <= i < inputs.len() && inputs[i].cancel_during_wait
    }

    /// Builds a running loop with the given threshold bit pattern and
    /// period, and the standard stop payload.
    pub fn new(threshold: u32, period_ms: u64) -> (l: ControlLoop)
        ensures
            l.detector.threshold == threshold,
            l.period_ms == period_ms,
            l.stop_payload@ == "STOP"@,
            l.state is Running,
    {
        ControlLoop {
            detector: AnomalyDetector::new(threshold),
            period_ms,
            stop_payload: String::from_str("STOP"),
            state: LoopState::Running,
        }
    }

    /// The decision half of a cycle: evaluates the sample and returns the
    /// command to dispatch exactly when acquisition succeeded and the
    /// verdict is anomalous — so a failed acquisition, like a normal
    /// reading, dispatches nothing.
    pub fn begin_cycle(&self, sample: &Result<Reading, AcquisitionError>) -> (cmd: Option<Command>)
        ensures
            cmd is Some <==> self.spec_sends(*sample),
            cmd matches Some(c) ==> c.payload@ == self.stop_payload@,
    {
        match sample {
            Ok(r) => {
                if self.detector.evaluate(r) {
                    Some(Command { payload: self.stop_payload.clone() })
                } else {
                    None
                }
            },
            Err(_) => None,
        }
    }

    /// The classification half of a cycle: `attempt` is the transport's
    /// answer where a command was dispatched, and `None` where none was.
    /// A send failure becomes an observable outcome, never a crash.
    pub fn end_cycle(&self, attempt: Option<Result<(), SendError>>) -> (out: CycleOutcome)
        ensures
            out == Self::spec_classify(attempt),
    {
        match attempt {
            None => CycleOutcome::Normal,
            Some(Ok(_)) => CycleOutcome::AnomalySentOk,
            Some(Err(e)) => CycleOutcome::AnomalySendFailed(e),
        }
    }

    /// What `end_cycle` returns for each possible attempt.
    pub open spec fn spec_classify(attempt: Option<Result<(), SendError>>) -> CycleOutcome {
        match attempt {
            None => CycleOutcome::Normal,
            Some(Ok(_)) => CycleOutcome::AnomalySentOk,
            Some(Err(e)) => CycleOutcome::AnomalySendFailed(e),
        }
    }

    /// The suspension point: cancellation is honored here and only here,
    /// after the cycle in progress has run to completion. Nothing else
    /// about the loop changes.
    pub fn after_wait(&mut self, cancel_requested: bool)
        ensures
            final(self).state == (if cancel_requested {
                LoopState::Stopped
            } else {
                old(self).state
            }),
            final(self).detector == old(self).detector,
            final(self).period_ms == old(self).period_ms,
            final(self).stop_payload == old(self).stop_payload,
    {
        if cancel_requested {
            self.state = LoopState::Stopped;
        }
    }

    /// Decides whether another cycle may start.
    pub fn should_continue(&self) -> (r: bool)
        ensures
            r == (self.state is Running),
    {
        matches!(self.state, LoopState::Running)
    }

    /// Runs the control policy against a recorded environment, one element
    /// per cycle, and returns the outcome of every cycle that ran. The
    /// trace stops exactly at the first cancelled wait, and the loop is
    /// stopped afterwards exactly when some processed wait was cancelled.
    pub fn run_recorded(&mut self, env: Vec<CycleInput>) -> (outcomes: Vec<CycleOutcome>)
        requires
            old(self).state is Running,
        ensures
            outcomes@ == old(self).spec_trace(env@),
            final(self).detector == old(self).detector,
            final(self).period_ms == old(self).period_ms,
            final(self).stop_payload == old(self).stop_payload,
            final(self).state is Stopped <==> Self::spec_cancelled(env@),
    {
        let ghost orig = *self;
        let ghost full = env@;
        let mut env = env;
        let mut outcomes: Vec<CycleOutcome> = Vec::new();
        let mut cancelled: bool = false;
        while env.len() > 0 && !cancelled
            invariant
                self.detector == orig.detector,
                self.period_ms == orig.period_ms,
                self.stop_payload == orig.stop_payload,
                self.state == (if cancelled {
                    LoopState::Stopped
                } else {
                    LoopState::Running
                }),
                cancelled ==> outcomes@ == orig.spec_trace(full),
                !cancelled ==> orig.spec_trace(full) == outcomes@ + orig.spec_trace(env@),
                cancelled ==> Self::spec_cancelled(full),
                !cancelled ==> (Self::spec_cancelled(full) <==> Self::spec_cancelled(env@)),
            decreases env.len(),
        {
            let ghost env_before = env@;
            let ghost outcomes_before = outcomes@;
            let inp = env.remove(0);
            proof {
                assert(env@ =~= env_before.skip(1));
                lemma_cancelled_unfold(env_before);
            }
            let cmd = self.begin_cycle(&inp.sample);
            let cancel_requested = inp.cancel_during_wait;
            let attempt: Option<Result<(), SendError>> = match cmd {
                Some(_) => Some(inp.send_result),
                None => None,
            };
            let out = self.end_cycle(attempt);
            proof {
                assert(out == orig.spec_outcome(inp));
            }
            outcomes.push(out);
            self.after_wait(cancel_requested);
            if cancel_requested {
                cancelled = true;
            }
            proof {
                assert(outcomes@ =~= outcomes_before + seq![out]);
                if inp.cancel_during_wait {
                    assert(orig.spec_trace(env_before) =~= seq![orig.spec_outcome(inp)]);
                } else {
                    assert(orig.spec_trace(env_before) =~= seq![orig.spec_outcome(inp)]
                        + orig.spec_trace(env@));
                    assert(outcomes_before + orig.spec_trace(env_before) =~= outcomes@
                        + orig.spec_trace(env@));
                }
            }
        }
        outcomes
    }

    /// A cycle produces an outcome other than `Normal` exactly when it
    /// dispatched a command.
    pub proof fn lemma_outcome_reflects_send(self, inp: CycleInput)
        ensures
            self.spec_sends(inp.sample) <==> !(self.spec_outcome(inp) is Normal),
    {
    }

    /// A failed acquisition dispatches nothing, classifies the cycle as
    /// `Normal`, and does not shorten the run: the following cycles
    /// produce exactly the trace they would on their own.
    pub proof fn lemma_acquisition_failure_skips_cycle(
        self,
        inp: CycleInput,
        rest: Seq<CycleInput>,
    )
        requires
            inp.sample is Err,
            !inp.cancel_during_wait,
        ensures
            !self.spec_sends(inp.sample),
            self.spec_outcome(inp) is Normal,
            self.spec_trace(seq![inp] + rest) == seq![CycleOutcome::Normal] + self.spec_trace(rest),
    {
        lemma_cons_unfold(inp, rest);
        assert(self.spec_trace(seq![inp] + rest) =~= seq![CycleOutcome::Normal]
            + self.spec_trace(rest));
    }

    /// A failed send is recorded in the cycle's outcome and is not fatal:
    /// the following cycles produce exactly the trace they would on their
    /// own.
    pub proof fn lemma_send_failure_not_fatal(self, inp: CycleInput, rest: Seq<CycleInput>)
        requires
            inp.send_result is Err,
            !inp.cancel_during_wait,
        ensures
            self.spec_sends(inp.sample) ==> self.spec_outcome(inp)
                == CycleOutcome::AnomalySendFailed(inp.send_result->Err_0),
            self.spec_trace(seq![inp] + rest) == seq![self.spec_outcome(inp)]
                + self.spec_trace(rest),
    {
        lemma_cons_unfold(inp, rest);
        assert(self.spec_trace(seq![inp] + rest) =~= seq![self.spec_outcome(inp)]
            + self.spec_trace(rest));
    }

    /// Cancellation observed at a wait ends the run after that complete
    /// cycle: its outcome is still produced, and no later cycle starts.
    pub proof fn lemma_cancellation_ends_run(self, inp: CycleInput, rest: Seq<CycleInput>)
        requires
            inp.cancel_during_wait,
        ensures
            self.spec_trace(seq![inp] + rest) == seq![self.spec_outcome(inp)],
    {
        lemma_cons_unfold(inp, rest);
        assert(self.spec_trace(seq![inp] + rest) =~= seq![self.spec_outcome(inp)]);
    }

    /// Each entry of a run's trace is the outcome of its own cycle. With
    /// `lemma_outcome_reflects_send`, a command is dispatched in exactly
    /// the cycles of a run whose sample is anomalous: one send per such
    /// cycle, none elsewhere.
    pub proof fn lemma_trace_entrywise(self, inputs: Seq<CycleInput>, i: int)
        requires
            0 <= i < self.spec_trace(inputs).len(),
        ensures
            i < inputs.len(),
            self.spec_trace(inputs)[i] == self.spec_outcome(inputs[i]),
        decreases inputs.len(),
    {
        if i > 0 {
            self.lemma_trace_entrywise(inputs.skip(1), i - 1);
        }
    }

    /// Without cancellation, every recorded cycle runs: acquisition and
    /// send failures never shorten the run.
    pub proof fn lemma_all_cycles_run(self, inputs: Seq<CycleInput>)
        requires
            !Self::spec_cancelled(inputs),
        ensures
            self.spec_trace(inputs).len() == inputs.len(),
        decreases inputs.len(),
    {
        if inputs.len() > 0 {
            assert(!inputs[0].cancel_during_wait);
            lemma_cancelled_unfold(inputs);
            self.lemma_all_cycles_run(inputs.skip(1));
        }
    }
}

/// A non-empty environment requests cancellation exactly when its first
/// wait does, or some later one does.
proof fn lemma_cancelled_unfold(inputs: Seq<CycleInput>)
    requires
        inputs.len() > 0,
    ensures
        ControlLoop::spec_cancelled(inputs) <==> (inputs[0].cancel_during_wait
            || ControlLoop::spec_cancelled(inputs.skip(1))),
{
    if ControlLoop::spec_cancelled(inputs.skip(1)) {
        let i = choose|i: int|
            0 <= i < inputs.skip(1).len() && inputs.skip(1)[i].cancel_during_wait;
        assert(inputs[i + 1].cancel_during_wait);
    }
    if ControlLoop::spec_cancelled(inputs) && !inputs[0].cancel_during_wait {
        let i = choose|i: int| 0 <= i < inputs.len() && inputs[i].cancel_during_wait;
        assert(inputs.skip(1)[i - 1].cancel_during_wait);
    }
}

/// Unfolds one step of the trace at the front of an environment.
proof fn lemma_cons_unfold(inp: CycleInput, rest: Seq<CycleInput>)
    ensures
        (seq![inp] + rest)[0] == inp,
        (seq![inp] + rest).skip(1) =~= rest,
        (seq![inp] + rest).len() == 1 + rest.len(),
{
}

} // verus!
