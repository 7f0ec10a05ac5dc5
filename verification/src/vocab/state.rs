//! Finite state machines: the group node, the epoch transition and the
//! sub-protocol activation machines, with their transition validators.

use vstd::prelude::*;

verus! {

/// Group node FSM.
#[derive(Copy, Clone, Debug, PartialEq, Eq, Structural, Hash)]
pub enum NodeState {
    /// Initial state, before any transport is opened.
    Idle,
    /// QUIC / TLS handshake in progress.
    Connecting,
    /// MLS Welcome / ratchet tree exchange in progress.
    EstablishingGroup,
    /// Normal operating state.
    Active,
    /// An epoch mismatch was raised; digest-based resync is in progress.
    Resyncing,
    /// Fatal error; the node MUST NOT transmit application data.
    Failed,
    /// The node performed a graceful shutdown.
    Closed,
}

/// The allowed edges of the node FSM.
pub open spec fn node_edge(from: NodeState, to: NodeState) -> bool {
    ||| to == NodeState::Closed
    ||| (from == NodeState::Idle && (to == NodeState::Connecting || to == NodeState::Failed))
    ||| (from == NodeState::Connecting && (to == NodeState::EstablishingGroup || to
        == NodeState::Failed))
    ||| (from == NodeState::EstablishingGroup && (to == NodeState::Active || to
        == NodeState::Failed))
    ||| (from == NodeState::Active && (to == NodeState::Resyncing || to == NodeState::Failed))
    ||| (from == NodeState::Resyncing && (to == NodeState::Active || to == NodeState::Failed))
}

impl NodeState {
    /// Returns `true` if the transition `self -> next` is allowed.
    pub fn can_transition_to(self, next: NodeState) -> (r: bool)
        ensures
            r == node_edge(self, next),
    {
        match (self, next) {
            (_, NodeState::Closed) => true,
            (NodeState::Idle, NodeState::Connecting) => true,
            (NodeState::Idle, NodeState::Failed) => true,
            (NodeState::Connecting, NodeState::EstablishingGroup) => true,
            (NodeState::Connecting, NodeState::Failed) => true,
            (NodeState::EstablishingGroup, NodeState::Active) => true,
            (NodeState::EstablishingGroup, NodeState::Failed) => true,
            (NodeState::Active, NodeState::Resyncing) => true,
            (NodeState::Active, NodeState::Failed) => true,
            (NodeState::Resyncing, NodeState::Active) => true,
            (NodeState::Resyncing, NodeState::Failed) => true,
            _ => false,
        }
    }

    /// Upper-case display name of the state.
    pub fn name(self) -> (r: &'static str)
        ensures
            r@ == node_state_name(self),
    {
        match self {
            NodeState::Idle => "IDLE",
            NodeState::Connecting => "CONNECTING",
            NodeState::EstablishingGroup => "ESTABLISHING_GROUP",
            NodeState::Active => "ACTIVE",
            NodeState::Resyncing => "RESYNCING",
            NodeState::Failed => "FAILED",
            NodeState::Closed => "CLOSED",
        }
    }
}

/// Display name of each node state.
pub open spec fn node_state_name(s: NodeState) -> Seq<char> {
    match s {
        NodeState::Idle => "IDLE"@,
        NodeState::Connecting => "CONNECTING"@,
        NodeState::EstablishingGroup => "ESTABLISHING_GROUP"@,
        NodeState::Active => "ACTIVE"@,
        NodeState::Resyncing => "RESYNCING"@,
        NodeState::Failed => "FAILED"@,
        NodeState::Closed => "CLOSED"@,
    }
}

/// Every node state may be closed gracefully, and no state other than
/// `Closed` is reachable from `Closed`.
pub proof fn lemma_closed_is_terminal(s: NodeState, t: NodeState)
    ensures
        node_edge(s, NodeState::Closed),
        node_edge(NodeState::Closed, t) <==> t == NodeState::Closed,
{
}

/// Epoch transition FSM.
#[derive(Copy, Clone, Debug, PartialEq, Eq, Structural, Hash)]
pub enum TransitionState {
    /// No pending commit.
    TIdle,
    /// `PREPARE_TRANSITION` was issued or received.
    TPrepared,
    /// MLS commit was processed and the local ratchet was applied.
    TCommitProcessed,
    /// Every member acknowledged with `READY_FOR_TRANSITION`.
    TReady,
    /// `EXECUTE_TRANSITION` has been applied; epoch was advanced.
    TExecuted,
    /// Transition was aborted (`ABORT_TRANSITION` or timeout).
    TAborted,
}

/// The allowed edges of the transition FSM.
pub open spec fn transition_edge(from: TransitionState, to: TransitionState) -> bool {
    ||| (from == TransitionState::TIdle && to == TransitionState::TPrepared)
    ||| (from == TransitionState::TPrepared && (to == TransitionState::TCommitProcessed || to
        == TransitionState::TAborted))
    ||| (from == TransitionState::TCommitProcessed && (to == TransitionState::TReady || to
        == TransitionState::TAborted))
    ||| (from == TransitionState::TReady && (to == TransitionState::TExecuted || to
        == TransitionState::TAborted))
    ||| (from == TransitionState::TExecuted && to == TransitionState::TIdle)
    ||| (from == TransitionState::TAborted && to == TransitionState::TIdle)
}

impl TransitionState {
    /// Returns `true` if the transition `self -> next` is allowed.
    pub fn can_transition_to(self, next: TransitionState) -> (r: bool)
        ensures
            r == transition_edge(self, next),
    {
        match (self, next) {
            (TransitionState::TIdle, TransitionState::TPrepared) => true,
            (TransitionState::TPrepared, TransitionState::TCommitProcessed) => true,
            (TransitionState::TPrepared, TransitionState::TAborted) => true,
            (TransitionState::TCommitProcessed, TransitionState::TReady) => true,
            (TransitionState::TCommitProcessed, TransitionState::TAborted) => true,
            (TransitionState::TReady, TransitionState::TExecuted) => true,
            (TransitionState::TReady, TransitionState::TAborted) => true,
            (TransitionState::TExecuted, TransitionState::TIdle) => true,
            (TransitionState::TAborted, TransitionState::TIdle) => true,
            _ => false,
        }
    }
}

/// No state of the transition FSM has an edge to itself.
pub proof fn lemma_transition_fsm_irreflexive(s: TransitionState)
    ensures
        !transition_edge(s, s),
{
}

/// Sub-protocol activation FSM.
#[derive(Copy, Clone, Debug, PartialEq, Eq, Structural, Hash)]
pub enum SubprotocolState {
    /// Sub-protocol is disabled.
    Disabled,
    /// Capability negotiation is in progress (`CAPABILITIES_ADVERTISE`).
    Negotiating,
    /// Sub-protocol is active.
    Enabled,
    /// Sub-protocol is active in degraded mode (e.g. lost FEC).
    Degraded,
    /// Sub-protocol is temporarily suspended (`MUTE` / `STREAM_STOP`).
    Suspended,
}

} // verus!
