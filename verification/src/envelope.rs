//! The reply assembler: a pure mapping from the outcome of the pipeline
//! stages to a reply envelope and a transport status classification. Every
//! request produces exactly one reply, whichever stage decided it.

use vstd::prelude::*;
use crate::projection::{
    RawRow, RawColumnModel, ProjectedRow, FieldModel, project_rows, projected_rows, rows_model,
    projected_model,
};

verus! {

/// The transport status classification of a reply.
#[derive(Debug, Clone, Copy, PartialEq, Eq, Structural)]
pub enum StatusClass {
    /// The query ran; the reply carries its rows.
    Success,
    /// The caller's request was refused or the backend rejected the query.
    ClientError,
    /// The backend could not be reached; the fault is not the caller's.
    ServerError,
}

/// The reply envelope: the projected rows of a successful query, or one
/// error message.
#[derive(Debug, Clone, PartialEq)]
pub enum Envelope {
    Rows { rows: Vec<ProjectedRow> },
    Fault { message: String },
}

/// The mathematical value of an `Envelope`.
pub enum EnvelopeModel {
    Rows(Seq<Seq<FieldModel>>),
    Fault(Seq<char>),
}

impl View for Envelope {
    type V = EnvelopeModel;

    open spec fn view(&self) -> EnvelopeModel {
        match self {
            Envelope::Rows { rows } => EnvelopeModel::Rows(projected_model(rows@)),
            Envelope::Fault { message } => EnvelopeModel::Fault(message@),
        }
    }
}

/// One reply: the envelope and its status classification.
#[derive(Debug, Clone, PartialEq)]
pub struct Reply {
    pub envelope: Envelope,
    pub status: StatusClass,
}

/// The mathematical value of a `Reply`.
pub struct ReplyModel {
    pub envelope: EnvelopeModel,
    pub status: StatusClass,
}

impl View for Reply {
    type V = ReplyModel;

    open spec fn view(&self) -> ReplyModel {
        ReplyModel { envelope: self.envelope@, status: self.status }
    }
}

/// What the pipeline stages handed to the assembler: a refused query, a
/// failed connection, a backend diagnostic, or the raw rows of a run query.
#[derive(Debug, Clone, PartialEq)]
pub enum StageOutcome {
    Rejected,
    ConnectionFailed,
    ExecutionFailed { diagnostic: String },
    Executed { rows: Vec<RawRow> },
}

/// The mathematical value of a `StageOutcome`.
pub enum StageOutcomeModel {
    Rejected,
    ConnectionFailed,
    ExecutionFailed(Seq<char>),
    Executed(Seq<Seq<RawColumnModel>>),
}

impl View for StageOutcome {
    type V = StageOutcomeModel;

    open spec fn view(&self) -> StageOutcomeModel {
        match self {
            StageOutcome::Rejected => StageOutcomeModel::Rejected,
            StageOutcome::ConnectionFailed => StageOutcomeModel::ConnectionFailed,
            StageOutcome::ExecutionFailed { diagnostic } => StageOutcomeModel::ExecutionFailed(
                diagnostic@,
            ),
            StageOutcome::Executed { rows } => StageOutcomeModel::Executed(rows_model(rows@)),
        }
    }
}

/// The message sent for a query the admission filter refuses.
pub open spec fn rejection_text() -> Seq<char> {
    "Only SELECT queries are allowed."@
}

/// The message sent when no backend connection could be provisioned. It
/// names no credential and no connection detail.
pub open spec fn unavailable_text() -> Seq<char> {
    "Failed to connect to the database."@
}

/// The assembly policy: a refused query and a backend diagnostic are the
/// caller's fault; an unreachable backend is the server's; rows are
/// projected and wrapped as a success.
pub open spec fn assembled(o: StageOutcomeModel) -> ReplyModel {
    match o {
        StageOutcomeModel::Rejected => ReplyModel {
            envelope: EnvelopeModel::Fault(rejection_text()),
            status: StatusClass::ClientError,
        },
        StageOutcomeModel::ConnectionFailed => ReplyModel {
            envelope: EnvelopeModel::Fault(unavailable_text()),
            status: StatusClass::ServerError,
        },
        StageOutcomeModel::ExecutionFailed(diagnostic) => ReplyModel {
            envelope: EnvelopeModel::Fault(diagnostic),
            status: StatusClass::ClientError,
        },
        StageOutcomeModel::Executed(rows) => ReplyModel {
            envelope: EnvelopeModel::Rows(projected_rows(rows)),
            status: StatusClass::Success,
        },
    }
}

/// Assemble the one reply for a stage outcome. A pure mapping with no side
/// effect and no retry: projection never fails, so an executed query always
/// becomes a success envelope.
pub fn assemble(outcome: StageOutcome) -> (r: Reply)
    ensures
        r@ == assembled(outcome@),
{
    match outcome {
        StageOutcome::Rejected => Reply {
            envelope: Envelope::Fault {
                message: String::from_str("Only SELECT queries are allowed."),
            },
            status: StatusClass::ClientError,
        },
        StageOutcome::ConnectionFailed => Reply {
            envelope: Envelope::Fault {
                message: String::from_str("Failed to connect to the database."),
            },
            status: StatusClass::ServerError,
        },
        StageOutcome::ExecutionFailed { diagnostic } => Reply {
            envelope: Envelope::Fault { message: diagnostic },
            status: StatusClass::ClientError,
        },
        StageOutcome::Executed { rows } => Reply {
            envelope: Envelope::Rows { rows: project_rows(&rows) },
            status: StatusClass::Success,
        },
    }
}

} // verus!
