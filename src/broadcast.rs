use vstd::prelude::*;

verus! {

/// The pause between two submissions of the same transaction, in milliseconds.
pub const RETRY_DELAY_MS: u64 = 100;

/// How a submission of a signed transaction failed.
#[derive(Clone, Copy, Debug, PartialEq, Eq, Structural)]
pub enum RpcTransactionErrorKind {
    /// The request did not reach the node or its answer did not come back.
    TransportError,
    /// The node did not see the transaction executed in time.
    TimeoutError,
    /// The node has not observed the transaction yet.
    UnknownTransaction,
    /// The server failed internally while handling the request.
    ServerInternalError,
    /// The transaction is malformed, badly signed, or conflicts on its nonce.
    InvalidTransaction,
    /// The node does not track the shard of the transaction.
    DoesNotTrackShard,
    /// The transaction was routed to another node.
    RequestRouted,
    /// The handler failed internally on this transaction.
    HandlerInternalError,
    /// The server refused the request itself.
    RequestValidationError,
    /// Any other refusal by the server.
    NonContextualError,
}

/// The failures after which submitting the same transaction again is safe and useful.
pub open spec fn is_recoverable_spec(k: RpcTransactionErrorKind) -> bool {
    match k {
        RpcTransactionErrorKind::TransportError => true,
        RpcTransactionErrorKind::TimeoutError => true,
        RpcTransactionErrorKind::UnknownTransaction => true,
        RpcTransactionErrorKind::ServerInternalError => true,
        _ => false,
    }
}

impl RpcTransactionErrorKind {
    pub fn is_recoverable(&self) -> (r: bool)
        ensures
            r == is_recoverable_spec(*self),
    {
        match self {
            RpcTransactionErrorKind::TransportError => true,
            RpcTransactionErrorKind::TimeoutError => true,
            RpcTransactionErrorKind::UnknownTransaction => true,
            RpcTransactionErrorKind::ServerInternalError => true,
            _ => false,
        }
    }
}

/// The state of a broadcast.
#[derive(Clone, Copy, Debug, PartialEq, Eq, Structural)]
pub enum BroadcastState {
    Submitting,
    Retrying,
    Confirmed,
    Fatal(RpcTransactionErrorKind),
}

/// What happened since the state was entered.
#[derive(Clone, Copy, Debug, PartialEq, Eq, Structural)]
pub enum BroadcastEvent {
    /// The submission returned an execution result.
    Succeeded,
    /// The submission failed.
    Failed(RpcTransactionErrorKind),
    /// The pause before the next submission is over.
    DelayElapsed,
}

/// What the caller has to do in a state.
#[derive(Clone, Copy, Debug, PartialEq, Eq, Structural)]
pub enum BroadcastAction {
    /// Submit the signed transaction.
    Submit,
    /// Wait this many milliseconds.
    Sleep(u64),
    /// Show the execution result; the broadcast is over.
    ReportOutcome,
    /// Surface this error; the broadcast is over.
    ReportError(RpcTransactionErrorKind),
}

pub open spec fn next_state_spec(s: BroadcastState, e: BroadcastEvent) -> BroadcastState {
    match (s, e) {
        (BroadcastState::Submitting, BroadcastEvent::Succeeded) => BroadcastState::Confirmed,
        (BroadcastState::Submitting, BroadcastEvent::Failed(k)) => if is_recoverable_spec(k) {
            BroadcastState::Retrying
        } else {
            BroadcastState::Fatal(k)
        },
        (BroadcastState::Retrying, BroadcastEvent::DelayElapsed) => BroadcastState::Submitting,
        _ => s,
    }
}

pub open spec fn action_spec(s: BroadcastState) -> BroadcastAction {
    match s {
        BroadcastState::Submitting => BroadcastAction::Submit,
        BroadcastState::Retrying => BroadcastAction::Sleep(RETRY_DELAY_MS),
        BroadcastState::Confirmed => BroadcastAction::ReportOutcome,
        BroadcastState::Fatal(k) => BroadcastAction::ReportError(k),
    }
}

pub open spec fn is_terminal_spec(s: BroadcastState) -> bool {
    s is Confirmed || s is Fatal
}

impl BroadcastState {
    /// The state after an event. An event that does not belong to the state
    /// (a result while waiting, anything after the end) leaves it unchanged.
    pub fn next(self, event: BroadcastEvent) -> (r: BroadcastState)
        ensures
            r == next_state_spec(self, event),
    {
        match (self, event) {
            (BroadcastState::Submitting, BroadcastEvent::Succeeded) => BroadcastState::Confirmed,
            (BroadcastState::Submitting, BroadcastEvent::Failed(k)) => {
                if k.is_recoverable() {
                    BroadcastState::Retrying
                } else {
                    BroadcastState::Fatal(k)
                }
            },
            (BroadcastState::Retrying, BroadcastEvent::DelayElapsed) => BroadcastState::Submitting,
            _ => self,
        }
    }

    /// What the caller does in this state.
    pub fn action(&self) -> (r: BroadcastAction)
        ensures
            r == action_spec(*self),
    {
        match self {
            BroadcastState::Submitting => BroadcastAction::Submit,
            BroadcastState::Retrying => BroadcastAction::Sleep(RETRY_DELAY_MS),
            BroadcastState::Confirmed => BroadcastAction::ReportOutcome,
            BroadcastState::Fatal(k) => BroadcastAction::ReportError(*k),
        }
    }

    /// Whether the broadcast is over.
    pub fn is_terminal(&self) -> (r: bool)
        ensures
            r == is_terminal_spec(*self),
    {
        match self {
            BroadcastState::Confirmed => true,
            BroadcastState::Fatal(_) => true,
            _ => false,
        }
    }
}

/// A fatal failure never leads to a retry, and a recoverable one never ends
/// the broadcast with an error.
pub proof fn lemma_failure_classes_kept_apart(k: RpcTransactionErrorKind)
    ensures
        !is_recoverable_spec(k) ==> next_state_spec(
            BroadcastState::Submitting,
            BroadcastEvent::Failed(k),
        ) == BroadcastState::Fatal(k),
        !is_recoverable_spec(k) ==> next_state_spec(
            BroadcastState::Submitting,
            BroadcastEvent::Failed(k),
        ) != BroadcastState::Retrying,
        is_recoverable_spec(k) ==> next_state_spec(
            BroadcastState::Submitting,
            BroadcastEvent::Failed(k),
        ) == BroadcastState::Retrying,
        is_recoverable_spec(k) ==> !(next_state_spec(
            BroadcastState::Submitting,
            BroadcastEvent::Failed(k),
        ) is Fatal),
{
}

/// The terminal states are never left.
pub proof fn lemma_terminal_states_absorb(s: BroadcastState, e: BroadcastEvent)
    requires
        is_terminal_spec(s),
    ensures
        next_state_spec(s, e) == s,
{
}

} // verus!
