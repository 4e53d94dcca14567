//! Assembling the peer network, and the one-shot gate before it starts.
//!
//! The network is built in a fixed order so that every request/response
//! protocol is registered before the worker exists, and the worker's loop is
//! spawned behind a gate: it connects to no peer until the start trigger that
//! assembly hands back has been fired.

use vstd::prelude::*;
use crate::sequence::{
    all_succeeded, lemma_done_iff_every_step_succeeded, lemma_ended_is_final, position_after_all,
    StageOutcome,
};

verus! {

/// The steps of assembling the network in the order they run, and the two
/// ways it ends.
#[derive(Clone, Copy, Debug, PartialEq, Eq, Structural)]
pub enum AssemblyStep {
    /// Derive the protocol identifier from the chain configuration.
    DeriveProtocolId,
    /// Create the stand-in for a transaction pool, which relays nothing.
    CreateTransactionStandIn,
    /// Register the handler for block requests.
    RegisterBlockRequests,
    /// Register the handler for state requests.
    RegisterStateRequests,
    /// Register the handler for light-client requests.
    RegisterLightClientRequests,
    /// Construct the network worker with the default announcement validator.
    BuildWorker,
    /// Take a shareable handle to the worker's service.
    ShareHandle,
    /// Spawn the driving loop behind the start gate.
    SpawnGatedLoop,
    /// The handle and the start trigger are handed to the caller.
    Assembled,
    /// A step failed; nothing was spawned and no trigger exists.
    Failed,
}

/// Number of steps that do work.
pub const STEP_COUNT: usize = 8;

impl AssemblyStep {
    /// Index of a step in the assembly order; `Assembled` comes after the last
    /// working step and `Failed` after that.
    pub open spec fn position(self) -> nat {
        match self {
            AssemblyStep::DeriveProtocolId => 0,
            AssemblyStep::CreateTransactionStandIn => 1,
            AssemblyStep::RegisterBlockRequests => 2,
            AssemblyStep::RegisterStateRequests => 3,
            AssemblyStep::RegisterLightClientRequests => 4,
            AssemblyStep::BuildWorker => 5,
            AssemblyStep::ShareHandle => 6,
            AssemblyStep::SpawnGatedLoop => 7,
            AssemblyStep::Assembled => 8,
            AssemblyStep::Failed => 9,
        }
    }

    /// Whether assembly has ended, well or badly.
    pub open spec fn is_terminal(self) -> bool {
        self is Assembled || self is Failed
    }

    /// Whether the step registers a request/response protocol.
    pub open spec fn registers_protocol(self) -> bool {
        self is RegisterBlockRequests || self is RegisterStateRequests
            || self is RegisterLightClientRequests
    }

    /// The step that follows a successful one; terminal steps stay.
    pub open spec fn successor(self) -> AssemblyStep {
        match self {
            AssemblyStep::DeriveProtocolId => AssemblyStep::CreateTransactionStandIn,
            AssemblyStep::CreateTransactionStandIn => AssemblyStep::RegisterBlockRequests,
            AssemblyStep::RegisterBlockRequests => AssemblyStep::RegisterStateRequests,
            AssemblyStep::RegisterStateRequests => AssemblyStep::RegisterLightClientRequests,
            AssemblyStep::RegisterLightClientRequests => AssemblyStep::BuildWorker,
            AssemblyStep::BuildWorker => AssemblyStep::ShareHandle,
            AssemblyStep::ShareHandle => AssemblyStep::SpawnGatedLoop,
            AssemblyStep::SpawnGatedLoop => AssemblyStep::Assembled,
            AssemblyStep::Assembled => AssemblyStep::Assembled,
            AssemblyStep::Failed => AssemblyStep::Failed,
        }
    }

    /// The step reached from `self` when its work ended with `outcome`.
    pub open spec fn after(self, outcome: StageOutcome) -> AssemblyStep {
        if self.is_terminal() {
            self
        } else if outcome is Failed {
            AssemblyStep::Failed
        } else {
            self.successor()
        }
    }

    /// The step reached from `self` after a whole series of outcomes.
    pub open spec fn after_all(self, outcomes: Seq<StageOutcome>) -> AssemblyStep
        decreases outcomes.len(),
    {
        if outcomes.len() == 0 {
            self
        } else {
            self.after(outcomes[0]).after_all(outcomes.drop_first())
        }
    }

    /// Where assembly begins.
    pub fn first() -> (step: AssemblyStep)
        ensures
            step == AssemblyStep::DeriveProtocolId,
    {
        AssemblyStep::DeriveProtocolId
    }

    /// Whether nothing is left to run.
    pub fn finished(&self) -> (done: bool)
        ensures
            done == self.is_terminal(),
    {
        match self {
            AssemblyStep::Assembled | AssemblyStep::Failed => true,
            _ => false,
        }
    }

    /// Decides what runs after the current step ended with `outcome`.
    ///
    /// A failure ends assembly at once, so that no loop is spawned and no
    /// start trigger is handed out; a success moves on by one step.
    pub fn advance(self, outcome: StageOutcome) -> (next: AssemblyStep)
        ensures
            next == self.after(outcome),
    {
        match self {
            AssemblyStep::Assembled => AssemblyStep::Assembled,
            AssemblyStep::Failed => AssemblyStep::Failed,
            _ => match outcome {
                StageOutcome::Failed => AssemblyStep::Failed,
                StageOutcome::Succeeded => match self {
                    AssemblyStep::DeriveProtocolId => AssemblyStep::CreateTransactionStandIn,
                    AssemblyStep::CreateTransactionStandIn => AssemblyStep::RegisterBlockRequests,
                    AssemblyStep::RegisterBlockRequests => AssemblyStep::RegisterStateRequests,
                    AssemblyStep::RegisterStateRequests => {
                        AssemblyStep::RegisterLightClientRequests
                    },
                    AssemblyStep::RegisterLightClientRequests => AssemblyStep::BuildWorker,
                    AssemblyStep::BuildWorker => AssemblyStep::ShareHandle,
                    AssemblyStep::ShareHandle => AssemblyStep::SpawnGatedLoop,
                    AssemblyStep::SpawnGatedLoop => AssemblyStep::Assembled,
                    AssemblyStep::Assembled => AssemblyStep::Assembled,
                    AssemblyStep::Failed => AssemblyStep::Failed,
                },
            },
        }
    }
}

/// A step and the position it stands for move in step.
pub proof fn lemma_after_follows_positions(step: AssemblyStep, outcomes: Seq<StageOutcome>)
    ensures
        step.after_all(outcomes).position() == position_after_all(
            step.position(),
            STEP_COUNT as nat,
            outcomes,
        ),
    decreases outcomes.len(),
{
    if outcomes.len() > 0 {
        lemma_after_follows_positions(step.after(outcomes[0]), outcomes.drop_first());
    }
}

/// Once assembly has ended, further reports change nothing.
pub proof fn lemma_terminal_is_final(step: AssemblyStep, outcomes: Seq<StageOutcome>)
    requires
        step.is_terminal(),
    ensures
        step.after_all(outcomes) == step,
{
    lemma_after_follows_positions(step, outcomes);
    lemma_ended_is_final(step.position(), STEP_COUNT as nat, outcomes);
}

/// The caller gets the network handle and the start trigger exactly when all
/// eight steps reported success.
pub proof fn lemma_assembled_iff_every_step_succeeded(outcomes: Seq<StageOutcome>)
    ensures
        (AssemblyStep::DeriveProtocolId.after_all(outcomes) is Assembled) <==> (outcomes.len()
            >= STEP_COUNT && all_succeeded(outcomes, STEP_COUNT as nat)),
{
    lemma_after_follows_positions(AssemblyStep::DeriveProtocolId, outcomes);
    lemma_done_iff_every_step_succeeded(STEP_COUNT as nat, outcomes);
}

/// Every protocol is registered before the worker is built, and the worker
/// is built before its loop is spawned.
pub proof fn lemma_registration_comes_first(step: AssemblyStep)
    requires
        step.registers_protocol(),
    ensures
        step.position() < AssemblyStep::BuildWorker.position(),
        AssemblyStep::BuildWorker.position() < AssemblyStep::SpawnGatedLoop.position(),
{
}

/// The one-shot gate between the start trigger and the spawned loop.
#[derive(Clone, Copy, Debug, PartialEq, Eq, Structural)]
pub enum StartGate {
    /// The trigger exists and has not been used.
    Armed,
    /// The trigger was fired: the network may start.
    Fired,
    /// The trigger was dropped unused: the network never starts.
    Dropped,
}

/// What happened to the start trigger.
#[derive(Clone, Copy, Debug, PartialEq, Eq, Structural)]
pub enum GateSignal {
    Fire,
    Drop,
}

/// What the spawned task does once the start gate has resolved.
#[derive(Clone, Copy, Debug, PartialEq, Eq, Structural)]
pub enum GateDecision {
    /// Enter the driving loop.
    RunLoop,
    /// Warn that the trigger was dropped, and end without ever serving the
    /// network.
    WarnNeverStarted,
}

impl StartGate {
    /// The state after `signal`: only the first signal counts.
    pub open spec fn after(self, signal: GateSignal) -> StartGate {
        match self {
            StartGate::Armed => match signal {
                GateSignal::Fire => StartGate::Fired,
                GateSignal::Drop => StartGate::Dropped,
            },
            _ => self,
        }
    }

    /// The state after a series of signals.
    pub open spec fn after_all(self, signals: Seq<GateSignal>) -> StartGate
        decreases signals.len(),
    {
        if signals.len() == 0 {
            self
        } else {
            self.after(signals[0]).after_all(signals.drop_first())
        }
    }

    /// What the spawned task does; nothing while the trigger is unused.
    pub open spec fn decided(self) -> Option<GateDecision> {
        match self {
            StartGate::Armed => None,
            StartGate::Fired => Some(GateDecision::RunLoop),
            StartGate::Dropped => Some(GateDecision::WarnNeverStarted),
        }
    }

    /// A fresh gate, made together with its trigger.
    pub fn arm() -> (gate: StartGate)
        ensures
            gate == StartGate::Armed,
    {
        StartGate::Armed
    }

    /// Records what happened to the trigger. A gate that has resolved keeps
    /// its state: it cannot be fired twice, nor fired after it was dropped.
    pub fn signal(self, signal: GateSignal) -> (gate: StartGate)
        ensures
            gate == self.after(signal),
    {
        match self {
            StartGate::Armed => match signal {
                GateSignal::Fire => StartGate::Fired,
                GateSignal::Drop => StartGate::Dropped,
            },
            StartGate::Fired => StartGate::Fired,
            StartGate::Dropped => StartGate::Dropped,
        }
    }

    /// What the spawned task is to do now.
    pub fn decision(&self) -> (decision: Option<GateDecision>)
        ensures
            decision == self.decided(),
    {
        match self {
            StartGate::Armed => None,
            StartGate::Fired => Some(GateDecision::RunLoop),
            StartGate::Dropped => Some(GateDecision::WarnNeverStarted),
        }
    }
}

/// Of all the signals a gate receives, the first alone decides: the loop
/// runs exactly when that one was `Fire`.
pub proof fn lemma_first_signal_decides(signals: Seq<GateSignal>)
    requires
        signals.len() > 0,
    ensures
        StartGate::Armed.after_all(signals) == StartGate::Armed.after(signals[0]),
        StartGate::Armed.after_all(signals).decided() == Some(GateDecision::RunLoop)
            <==> signals[0] is Fire,
{
    lemma_resolved_gate_keeps_state(StartGate::Armed.after(signals[0]), signals.drop_first());
}

/// A gate that has resolved stays as it is.
pub proof fn lemma_resolved_gate_keeps_state(gate: StartGate, signals: Seq<GateSignal>)
    requires
        !(gate is Armed),
    ensures
        gate.after_all(signals) == gate,
    decreases signals.len(),
{
    if signals.len() > 0 {
        lemma_resolved_gate_keeps_state(gate, signals.drop_first());
    }
}

} // verus!
