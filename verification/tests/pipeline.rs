use query_gateway::envelope::{assemble, Envelope, Reply, StageOutcome, StatusClass};
use query_gateway::pipeline::{step, GateAction, GateEvent, GateState};
use query_gateway::projection::{FieldValue, RawColumn, RawRow, RawValue};

fn arrive(query: &str) -> (GateState, Option<GateAction>) {
    step(GateState::AwaitingRequest, GateEvent::Arrived { query: String::from(query) })
}

fn one_cell_row(name: &str, value: RawValue) -> RawRow {
    RawRow { columns: vec![RawColumn { name: String::from(name), value }] }
}

/// Drives one whole request against a backend that returns the given rows.
fn run_with_rows(query: &str, rows: Vec<RawRow>) -> Reply {
    let (s1, a1) = arrive(query);
    match a1 {
        Some(GateAction::OpenConnection) => {}
        other => panic!("expected a connection command, got {:?}", other),
    }
    let (s2, a2) = step(s1, GateEvent::Connected);
    match a2 {
        Some(GateAction::RunQuery { query: q }) => assert_eq!(q, query),
        other => panic!("expected a query command, got {:?}", other),
    }
    let (_s3, a3) = step(s2, GateEvent::RowsReturned { rows });
    match a3 {
        Some(GateAction::Respond { reply }) => reply,
        other => panic!("expected a reply command, got {:?}", other),
    }
}

#[test]
fn one_row_one_column_succeeds() {
    let rows = vec![one_cell_row("col", RawValue::Text(String::from("1")))];
    let reply = run_with_rows("SELECT 1", rows);
    assert_eq!(reply.status, StatusClass::Success);
    match reply.envelope {
        Envelope::Rows { rows } => {
            assert_eq!(rows.len(), 1);
            assert_eq!(rows[0].fields.len(), 1);
            assert_eq!(rows[0].fields[0].name, "col");
            assert_eq!(rows[0].fields[0].value, FieldValue::Text(String::from("1")));
        }
        Envelope::Fault { message } => panic!("unexpected fault: {}", message),
    }
}

#[test]
fn refused_query_is_answered_without_connection() {
    let (state, action) = arrive("DELETE FROM t");
    assert_eq!(state, GateState::Finished);
    match action {
        Some(GateAction::Respond { reply }) => {
            assert_eq!(reply.status, StatusClass::ClientError);
            match reply.envelope {
                Envelope::Fault { message } => {
                    assert_eq!(message, "Only SELECT queries are allowed.");
                }
                Envelope::Rows { .. } => panic!("a refused query must not carry rows"),
            }
        }
        other => panic!("a refused query must be answered at once, got {:?}", other),
    }
}

#[test]
fn finished_pipeline_commands_nothing() {
    let (state, action) = step(GateState::Finished, GateEvent::Connected);
    assert_eq!(state, GateState::Finished);
    assert!(action.is_none());
}

#[test]
fn backend_diagnostic_is_passed_through() {
    let (s1, _) = arrive("SELECT * FROM nonexistent_table");
    let (s2, _) = step(s1, GateEvent::Connected);
    let diagnostic = String::from("relation \"nonexistent_table\" does not exist");
    let (_s3, a3) = step(s2, GateEvent::QueryFailed { diagnostic: diagnostic.clone() });
    match a3 {
        Some(GateAction::Respond { reply }) => {
            assert_eq!(reply.status, StatusClass::ClientError);
            assert_eq!(reply.envelope, Envelope::Fault { message: diagnostic });
        }
        other => panic!("expected a reply command, got {:?}", other),
    }
}

#[test]
fn connection_failure_is_a_server_error() {
    let (s1, _) = arrive("SELECT 1");
    let (state, action) = step(s1, GateEvent::ConnectFailed);
    assert_eq!(state, GateState::Finished);
    match action {
        Some(GateAction::Respond { reply }) => {
            assert_eq!(reply.status, StatusClass::ServerError);
            assert_eq!(
                reply.envelope,
                Envelope::Fault { message: String::from("Failed to connect to the database.") }
            );
        }
        other => panic!("expected a reply command, got {:?}", other),
    }
}

#[test]
fn unexpected_event_changes_nothing() {
    let (s1, _) = arrive("SELECT 1");
    let rows = vec![one_cell_row("col", RawValue::Null)];
    let (state, action) = step(s1.clone(), GateEvent::RowsReturned { rows });
    assert_eq!(state, s1);
    assert!(action.is_none());
}

#[test]
fn same_query_twice_succeeds_twice() {
    let rows = || vec![one_cell_row("col", RawValue::Text(String::from("1")))];
    let first = run_with_rows("SELECT 1", rows());
    let second = run_with_rows("SELECT 1", rows());
    assert_eq!(first, second);
    assert_eq!(first.status, StatusClass::Success);
    assert_eq!(second.status, StatusClass::Success);
}

#[test]
fn assembler_wraps_rows_as_success() {
    let rows = vec![one_cell_row("n", RawValue::Uncoercible)];
    let reply = assemble(StageOutcome::Executed { rows });
    assert_eq!(reply.status, StatusClass::Success);
    match reply.envelope {
        Envelope::Rows { rows } => {
            assert_eq!(rows.len(), 1);
            assert_eq!(rows[0].fields[0].name, "n");
            assert_eq!(rows[0].fields[0].value, FieldValue::Null);
        }
        Envelope::Fault { message } => panic!("unexpected fault: {}", message),
    }
}

#[test]
fn assembler_keeps_rejection_message() {
    let reply = assemble(StageOutcome::Rejected);
    assert_eq!(reply.status, StatusClass::ClientError);
    assert_eq!(
        reply.envelope,
        Envelope::Fault { message: String::from("Only SELECT queries are allowed.") }
    );
}

#[test]
fn assembler_keeps_unavailable_message() {
    let reply = assemble(StageOutcome::ConnectionFailed);
    assert_eq!(reply.status, StatusClass::ServerError);
    assert_eq!(
        reply.envelope,
        Envelope::Fault { message: String::from("Failed to connect to the database.") }
    );
}

#[test]
fn assembler_passes_diagnostic_through() {
    let reply = assemble(StageOutcome::ExecutionFailed {
        diagnostic: String::from("syntax error at or near \"FORM\""),
    });
    assert_eq!(reply.status, StatusClass::ClientError);
    assert_eq!(
        reply.envelope,
        Envelope::Fault { message: String::from("syntax error at or near \"FORM\"") }
    );
}
