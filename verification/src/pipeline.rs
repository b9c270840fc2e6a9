//! The request pipeline: one query moves through admission, connection
//! provisioning, execution, projection and assembly, strictly in that order.
//! The decisions live in a pure step function from state and event to next
//! state and commanded action; the surrounding process performs the actions
//! (opening the session, running the query, sending the reply) and hands the
//! resulting events back. The admission filter runs strictly before any
//! connection is commanded, so a refused query costs the backend nothing.

use vstd::prelude::*;
use crate::admission::{screen_query, query_allowed};
use crate::envelope::{
    assemble, assembled, Reply, ReplyModel, StageOutcome, StageOutcomeModel, StatusClass,
    EnvelopeModel,
};
use crate::projection::{RawRow, RawColumnModel, rows_model};

verus! {

/// Where one request stands in the pipeline.
#[derive(Debug, Clone, PartialEq)]
pub enum GateState {
    /// No request has arrived yet.
    AwaitingRequest,
    /// The query was admitted; a connection was commanded and is awaited.
    Connecting { query: String },
    /// The connection is live; the query was commanded and its outcome is
    /// awaited.
    Executing,
    /// The reply has been commanded; nothing more will be done.
    Finished,
}

/// The mathematical value of a `GateState`.
pub enum GateStateModel {
    AwaitingRequest,
    Connecting(Seq<char>),
    Executing,
    Finished,
}

impl View for GateState {
    type V = GateStateModel;

    open spec fn view(&self) -> GateStateModel {
        match self {
            GateState::AwaitingRequest => GateStateModel::AwaitingRequest,
            GateState::Connecting { query } => GateStateModel::Connecting(query@),
            GateState::Executing => GateStateModel::Executing,
            GateState::Finished => GateStateModel::Finished,
        }
    }
}

/// What the surrounding process reports to the pipeline.
#[derive(Debug, Clone, PartialEq)]
pub enum GateEvent {
    /// A request arrived with this query text.
    Arrived { query: String },
    /// The commanded connection is live.
    Connected,
    /// The commanded connection could not be established.
    ConnectFailed,
    /// The commanded query ran and returned these raw rows.
    RowsReturned { rows: Vec<RawRow> },
    /// The backend rejected or failed the commanded query.
    QueryFailed { diagnostic: String },
}

/// The mathematical value of a `GateEvent`.
pub enum GateEventModel {
    Arrived(Seq<char>),
    Connected,
    ConnectFailed,
    RowsReturned(Seq<Seq<RawColumnModel>>),
    QueryFailed(Seq<char>),
}

impl View for GateEvent {
    type V = GateEventModel;

    open spec fn view(&self) -> GateEventModel {
        match self {
            GateEvent::Arrived { query } => GateEventModel::Arrived(query@),
            GateEvent::Connected => GateEventModel::Connected,
            GateEvent::ConnectFailed => GateEventModel::ConnectFailed,
            GateEvent::RowsReturned { rows } => GateEventModel::RowsReturned(rows_model(rows@)),
            GateEvent::QueryFailed { diagnostic } => GateEventModel::QueryFailed(diagnostic@),
        }
    }
}

/// What the pipeline commands the surrounding process to do next.
#[derive(Debug, Clone, PartialEq)]
pub enum GateAction {
    /// Provision a backend connection for this request.
    OpenConnection,
    /// Run this admitted query text on the live connection.
    RunQuery { query: String },
    /// Send this reply to the caller; the request is over.
    Respond { reply: Reply },
}

/// The mathematical value of a `GateAction`.
pub enum GateActionModel {
    OpenConnection,
    RunQuery(Seq<char>),
    Respond(ReplyModel),
}

impl View for GateAction {
    type V = GateActionModel;

    open spec fn view(&self) -> GateActionModel {
        match self {
            GateAction::OpenConnection => GateActionModel::OpenConnection,
            GateAction::RunQuery { query } => GateActionModel::RunQuery(query@),
            GateAction::Respond { reply } => GateActionModel::Respond(reply@),
        }
    }
}

/// The mathematical value of an optional commanded action.
pub open spec fn action_model(a: Option<GateAction>) -> Option<GateActionModel> {
    match a {
        Some(act) => Some(act@),
        None => None,
    }
}

/// The pipeline's transition relation. An arriving query is screened first:
/// a refused one is answered at once, an allowed one commands a connection.
/// A live connection commands the query; the query's outcome, or the failed
/// connection, is assembled into the one reply. An event that does not
/// belong to the state changes nothing and commands nothing.
pub open spec fn step_model(s: GateStateModel, e: GateEventModel) -> (GateStateModel, Option<
    GateActionModel,
>) {
    match (s, e) {
        (GateStateModel::AwaitingRequest, GateEventModel::Arrived(q)) => if query_allowed(q) {
            (GateStateModel::Connecting(q), Some(GateActionModel::OpenConnection))
        } else {
            (
                GateStateModel::Finished,
                Some(GateActionModel::Respond(assembled(StageOutcomeModel::Rejected))),
            )
        },
        (GateStateModel::Connecting(q), GateEventModel::Connected) => (
            GateStateModel::Executing,
            Some(GateActionModel::RunQuery(q)),
        ),
        (GateStateModel::Connecting(_), GateEventModel::ConnectFailed) => (
            GateStateModel::Finished,
            Some(GateActionModel::Respond(assembled(StageOutcomeModel::ConnectionFailed))),
        ),
        (GateStateModel::Executing, GateEventModel::RowsReturned(rows)) => (
            GateStateModel::Finished,
            Some(GateActionModel::Respond(assembled(StageOutcomeModel::Executed(rows)))),
        ),
        (GateStateModel::Executing, GateEventModel::QueryFailed(d)) => (
            GateStateModel::Finished,
            Some(GateActionModel::Respond(assembled(StageOutcomeModel::ExecutionFailed(d)))),
        ),
        (s, _) => (s, None),
    }
}

/// Take one pipeline step: from the current state and the reported event to
/// the next state and the commanded action, exactly as the transition
/// relation says.
pub fn step(state: GateState, event: GateEvent) -> (r: (GateState, Option<GateAction>))
    ensures
        r.0@ == step_model(state@, event@).0,
        action_model(r.1) == step_model(state@, event@).1,
{
    match (state, event) {
        (GateState::AwaitingRequest, GateEvent::Arrived { query }) => {
            if screen_query(query.as_str()) {
                (GateState::Connecting { query }, Some(GateAction::OpenConnection))
            } else {
                (
                    GateState::Finished,
                    Some(GateAction::Respond { reply: assemble(StageOutcome::Rejected) }),
                )
            }
        },
        (GateState::Connecting { query }, GateEvent::Connected) => (
            GateState::Executing,
            Some(GateAction::RunQuery { query }),
        ),
        (GateState::Connecting { query: _ }, GateEvent::ConnectFailed) => (
            GateState::Finished,
            Some(GateAction::Respond { reply: assemble(StageOutcome::ConnectionFailed) }),
        ),
        (GateState::Executing, GateEvent::RowsReturned { rows }) => (
            GateState::Finished,
            Some(GateAction::Respond { reply: assemble(StageOutcome::Executed { rows }) }),
        ),
        (GateState::Executing, GateEvent::QueryFailed { diagnostic }) => (
            GateState::Finished,
            Some(GateAction::Respond { reply: assemble(StageOutcome::ExecutionFailed { diagnostic }) }),
        ),
        (s, _) => (s, None),
    }
}

/// What the backend would do with this request: stay unreachable, refuse
/// the query with a diagnostic, or return rows.
pub enum BackendModel {
    Unreachable,
    Refuses(Seq<char>),
    Returns(Seq<Seq<RawColumnModel>>),
}

/// The event that provisioning a connection against this backend reports.
pub open spec fn connect_event(b: BackendModel) -> GateEventModel {
    match b {
        BackendModel::Unreachable => GateEventModel::ConnectFailed,
        _ => GateEventModel::Connected,
    }
}

/// The event that running the query against this backend reports.
pub open spec fn execute_event(b: BackendModel) -> GateEventModel {
    match b {
        BackendModel::Unreachable => GateEventModel::ConnectFailed,
        BackendModel::Refuses(d) => GateEventModel::QueryFailed(d),
        BackendModel::Returns(rows) => GateEventModel::RowsReturned(rows),
    }
}

/// The stage outcome that one request against this backend reaches: the
/// filter decides first, and only then does the backend matter.
pub open spec fn gate_outcome(q: Seq<char>, b: BackendModel) -> StageOutcomeModel {
    if !query_allowed(q) {
        StageOutcomeModel::Rejected
    } else {
        match b {
            BackendModel::Unreachable => StageOutcomeModel::ConnectionFailed,
            BackendModel::Refuses(d) => StageOutcomeModel::ExecutionFailed(d),
            BackendModel::Returns(rows) => StageOutcomeModel::Executed(rows),
        }
    }
}

/// The one reply a request against this backend receives.
pub open spec fn gate_reply(q: Seq<char>, b: BackendModel) -> ReplyModel {
    assembled(gate_outcome(q, b))
}

/// The reply a commanded action carries, if it is a reply at all.
pub open spec fn sent_reply(a: Option<GateActionModel>) -> Option<ReplyModel> {
    match a {
        Some(GateActionModel::Respond(r)) => Some(r),
        _ => None,
    }
}

/// One whole run of the pipeline: the request arrives, and the process
/// reports the backend's behaviour at each commanded step until a reply is
/// commanded.
pub open spec fn run_model(q: Seq<char>, b: BackendModel) -> Option<ReplyModel> {
    let (s1, a1) = step_model(GateStateModel::AwaitingRequest, GateEventModel::Arrived(q));
    if s1 is Finished {
        sent_reply(a1)
    } else {
        let (s2, a2) = step_model(s1, connect_event(b));
        if s2 is Finished {
            sent_reply(a2)
        } else {
            let (s3, a3) = step_model(s2, execute_event(b));
            sent_reply(a3)
        }
    }
}

/// A refusal keeps the backend untouched: the only transition that commands
/// a connection to be opened is an arriving query that the filter allows.
pub proof fn lemma_refused_query_opens_no_connection(s: GateStateModel, e: GateEventModel)
    ensures
        step_model(s, e).1 == Some(GateActionModel::OpenConnection) ==> ({
            &&& s is AwaitingRequest
            &&& e matches GateEventModel::Arrived(q) && query_allowed(q)
        }),
{
}

/// A refused query is answered in the very transition that refuses it, with
/// the rejection message and a client-side status, and the pipeline is done.
pub proof fn lemma_refused_query_is_answered(q: Seq<char>)
    requires
        !query_allowed(q),
    ensures
        step_model(GateStateModel::AwaitingRequest, GateEventModel::Arrived(q)) == (
        GateStateModel::Finished,
        Some(GateActionModel::Respond(assembled(StageOutcomeModel::Rejected))),
        ),
{
}

/// A finished pipeline is inert: no event moves it and no further action,
/// in particular no connection, is ever commanded.
pub proof fn lemma_finished_is_inert(e: GateEventModel)
    ensures
        step_model(GateStateModel::Finished, e) == (
        GateStateModel::Finished,
        Option::<GateActionModel>::None,
        ),
{
}

/// Every run commands exactly one reply, whatever the query and whatever
/// the backend does, and it is the assembled reply for that pair.
pub proof fn lemma_run_yields_assembled_reply(q: Seq<char>, b: BackendModel)
    ensures
        run_model(q, b) == Some(gate_reply(q, b)),
{
}

/// Repeating an allowed query is independent of the first run: the pipeline
/// keeps no state across runs, so the same query against the same backend
/// behaviour is answered with the same reply, and a backend that returns
/// rows makes every such run a success.
pub proof fn lemma_repeated_query_succeeds_again(q: Seq<char>, b: BackendModel)
    requires
        query_allowed(q),
        b is Returns,
    ensures
        ({
            let first = run_model(q, b);
            let again = run_model(q, b);
            &&& first == again
            &&& first == Some(gate_reply(q, b))
            &&& gate_reply(q, b).status == StatusClass::Success
            &&& gate_reply(q, b).envelope is Rows
        }),
{
}

} // verus!
