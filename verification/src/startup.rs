//! Bringing the node up: the order of the stages, and what a failed stage means.
//!
//! The embedding program performs each stage (remote calls, task spawning,
//! opening the database) and reports how it ended. This module decides what
//! runs next. The deferred network start is released last, and only when
//! every earlier stage succeeded.

use vstd::prelude::*;
use crate::primitives::BlockHash;
use crate::sequence::{
    all_succeeded, lemma_done_iff_every_step_succeeded, lemma_ended_is_final, position_after_all,
    StageOutcome,
};

verus! {

/// The stages of startup in the order they run, and the two ways it ends.
#[derive(Clone, Copy, Debug, PartialEq, Eq, Structural)]
pub enum StartupStage {
    /// Ask the remote for its listen addresses and add them as boot nodes.
    FetchBootNodes,
    /// Create the task manager.
    BuildTaskManager,
    /// Ask the remote for the hash of block zero.
    FetchGenesisHash,
    /// Add the peer sets of the validation and collation protocols.
    ConfigurePeerSets,
    /// Register the request/response protocols.
    RegisterRequestProtocols,
    /// Assemble the peer network; yields the handle and the start trigger.
    BuildNetwork,
    /// Start the authority discovery worker.
    BuildAuthorityDiscovery,
    /// Open the parachains database.
    OpenDatabase,
    /// Spawn the overseer and its subsystems.
    SpawnOverseer,
    /// Release the deferred network start.
    StartNetwork,
    /// Every stage succeeded; the node is handed to the caller.
    Running,
    /// A stage failed; nothing after it ran and the network never started.
    Aborted,
}

/// Number of stages that do work.
pub const STAGE_COUNT: usize = 10;

impl StartupStage {
    /// Index of a stage in the startup order; `Running` comes after the last
    /// working stage and `Aborted` after that.
    pub open spec fn position(self) -> nat {
        match self {
            StartupStage::FetchBootNodes => 0,
            StartupStage::BuildTaskManager => 1,
            StartupStage::FetchGenesisHash => 2,
            StartupStage::ConfigurePeerSets => 3,
            StartupStage::RegisterRequestProtocols => 4,
            StartupStage::BuildNetwork => 5,
            StartupStage::BuildAuthorityDiscovery => 6,
            StartupStage::OpenDatabase => 7,
            StartupStage::SpawnOverseer => 8,
            StartupStage::StartNetwork => 9,
            StartupStage::Running => 10,
            StartupStage::Aborted => 11,
        }
    }

    /// Whether startup has ended, well or badly.
    pub open spec fn is_terminal(self) -> bool {
        self is Running || self is Aborted
    }

    /// The stage that follows a successful one; terminal stages stay.
    pub open spec fn successor(self) -> StartupStage {
        match self {
            StartupStage::FetchBootNodes => StartupStage::BuildTaskManager,
            StartupStage::BuildTaskManager => StartupStage::FetchGenesisHash,
            StartupStage::FetchGenesisHash => StartupStage::ConfigurePeerSets,
            StartupStage::ConfigurePeerSets => StartupStage::RegisterRequestProtocols,
            StartupStage::RegisterRequestProtocols => StartupStage::BuildNetwork,
            StartupStage::BuildNetwork => StartupStage::BuildAuthorityDiscovery,
            StartupStage::BuildAuthorityDiscovery => StartupStage::OpenDatabase,
            StartupStage::OpenDatabase => StartupStage::SpawnOverseer,
            StartupStage::SpawnOverseer => StartupStage::StartNetwork,
            StartupStage::StartNetwork => StartupStage::Running,
            StartupStage::Running => StartupStage::Running,
            StartupStage::Aborted => StartupStage::Aborted,
        }
    }

    /// The stage reached from `self` when its work ended with `outcome`.
    pub open spec fn after(self, outcome: StageOutcome) -> StartupStage {
        if self.is_terminal() {
            self
        } else if outcome is Failed {
            StartupStage::Aborted
        } else {
            self.successor()
        }
    }

    /// The stage reached from `self` after a whole series of outcomes.
    pub open spec fn after_all(self, outcomes: Seq<StageOutcome>) -> StartupStage
        decreases outcomes.len(),
    {
        if outcomes.len() == 0 {
            self
        } else {
            self.after(outcomes[0]).after_all(outcomes.drop_first())
        }
    }

    /// Where startup begins.
    pub fn first() -> (stage: StartupStage)
        ensures
            stage == StartupStage::FetchBootNodes,
            stage.position() == 0,
    {
        StartupStage::FetchBootNodes
    }

    /// Whether nothing is left to run.
    pub fn finished(&self) -> (done: bool)
        ensures
            done == self.is_terminal(),
    {
        match self {
            StartupStage::Running | StartupStage::Aborted => true,
            _ => false,
        }
    }

    /// Decides what runs after the current stage ended with `outcome`.
    ///
    /// A failure aborts startup whatever the stage; a success moves on by one.
    /// Once startup has ended nothing changes any more.
    pub fn advance(self, outcome: StageOutcome) -> (next: StartupStage)
        ensures
            next == self.after(outcome),
    {
        match self {
            StartupStage::Running => StartupStage::Running,
            StartupStage::Aborted => StartupStage::Aborted,
            _ => match outcome {
                StageOutcome::Failed => StartupStage::Aborted,
                StageOutcome::Succeeded => match self {
                    StartupStage::FetchBootNodes => StartupStage::BuildTaskManager,
                    StartupStage::BuildTaskManager => StartupStage::FetchGenesisHash,
                    StartupStage::FetchGenesisHash => StartupStage::ConfigurePeerSets,
                    StartupStage::ConfigurePeerSets => StartupStage::RegisterRequestProtocols,
                    StartupStage::RegisterRequestProtocols => StartupStage::BuildNetwork,
                    StartupStage::BuildNetwork => StartupStage::BuildAuthorityDiscovery,
                    StartupStage::BuildAuthorityDiscovery => StartupStage::OpenDatabase,
                    StartupStage::OpenDatabase => StartupStage::SpawnOverseer,
                    StartupStage::SpawnOverseer => StartupStage::StartNetwork,
                    StartupStage::StartNetwork => StartupStage::Running,
                    StartupStage::Running => StartupStage::Running,
                    StartupStage::Aborted => StartupStage::Aborted,
                },
            },
        }
    }
}

/// A stage and the position it stands for move in step.
pub proof fn lemma_after_follows_positions(stage: StartupStage, outcomes: Seq<StageOutcome>)
    ensures
        stage.after_all(outcomes).position() == position_after_all(
            stage.position(),
            STAGE_COUNT as nat,
            outcomes,
        ),
    decreases outcomes.len(),
{
    if outcomes.len() > 0 {
        lemma_after_follows_positions(stage.after(outcomes[0]), outcomes.drop_first());
    }
}

/// Once startup has ended, further reports change nothing.
pub proof fn lemma_terminal_is_final(stage: StartupStage, outcomes: Seq<StageOutcome>)
    requires
        stage.is_terminal(),
    ensures
        stage.after_all(outcomes) == stage,
{
    lemma_after_follows_positions(stage, outcomes);
    lemma_ended_is_final(stage.position(), STAGE_COUNT as nat, outcomes);
}

/// The node reaches `Running`, and with it the release of the deferred
/// network start, exactly when all ten working stages reported success. In
/// every other case a stage is still pending or startup was aborted.
pub proof fn lemma_network_starts_only_after_every_stage(outcomes: Seq<StageOutcome>)
    ensures
        (StartupStage::FetchBootNodes.after_all(outcomes) is Running) <==> (outcomes.len()
            >= STAGE_COUNT && all_succeeded(outcomes, STAGE_COUNT as nat)),
{
    lemma_after_follows_positions(StartupStage::FetchBootNodes, outcomes);
    lemma_done_iff_every_step_succeeded(STAGE_COUNT as nat, outcomes);
}

/// The genesis hash that startup goes on with: the one the remote gave, or
/// the all-zero hash when the remote knows none.
pub fn genesis_or_default(reply: Option<BlockHash>) -> (hash: BlockHash)
    ensures
        match reply {
            Some(h) => hash == h,
            None => hash.is_zero(),
        },
{
    match reply {
        Some(h) => h,
        None => BlockHash::zero(),
    }
}

/// The request/response protocols of the collator, one receiver each.
#[derive(Clone, Copy, Debug, PartialEq, Eq, Structural)]
pub enum RequestProtocol {
    CollationFetching,
    AvailableDataFetching,
    PoVFetching,
    ChunkFetching,
}

/// The order in which the four receivers are created and their protocol
/// configurations are appended to the network configuration.
pub open spec fn request_protocol_order() -> Seq<RequestProtocol> {
    seq![
        RequestProtocol::CollationFetching,
        RequestProtocol::AvailableDataFetching,
        RequestProtocol::PoVFetching,
        RequestProtocol::ChunkFetching,
    ]
}

/// Appends the four request/response protocols to those already registered,
/// in their fixed order, leaving the earlier entries as they were.
pub fn register_request_protocols(registered: &mut Vec<RequestProtocol>)
    ensures
        final(registered)@ == old(registered)@ + request_protocol_order(),
{
    registered.push(RequestProtocol::CollationFetching);
    registered.push(RequestProtocol::AvailableDataFetching);
    registered.push(RequestProtocol::PoVFetching);
    registered.push(RequestProtocol::ChunkFetching);
}

} // verus!
