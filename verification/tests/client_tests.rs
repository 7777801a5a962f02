use flight_sql_client::config::ClientConfig;
use flight_sql_client::connect::{ConnectAction, ConnectEvent, ConnectPhase, Connector};
use flight_sql_client::errors::ClientError;
use flight_sql_client::results::{
    affected_row_count, check_drained, Column, ColumnData, ResultBatch, ResultDescriptor,
    TicketEndpoint,
};
use flight_sql_client::sanitize::filter_message;
use flight_sql_client::session::{PreparedStatement, Session};

fn plain_config() -> ClientConfig {
    ClientConfig {
        host: "127.0.0.1".to_string(),
        port: 8360,
        username: "admin".to_string(),
        password: "public".to_string(),
        tls_cert: None,
    }
}

fn tls_config() -> ClientConfig {
    ClientConfig {
        host: "127.0.0.1".to_string(),
        port: 8360,
        username: "admin".to_string(),
        password: "public".to_string(),
        tls_cert: Some("/no/such/cert.pem".to_string()),
    }
}

#[test]
fn plaintext_scheme_without_certificate() {
    let config = plain_config();
    assert_eq!(config.scheme(), "http");
    assert_eq!(config.endpoint_uri(), "http://127.0.0.1:8360");
}

#[test]
fn secure_scheme_with_certificate() {
    let config = tls_config();
    assert_eq!(config.scheme(), "https");
    assert_eq!(config.endpoint_uri(), "https://127.0.0.1:8360");
}

#[test]
fn endpoint_uri_renders_any_port() {
    let mut config = plain_config();
    config.port = 0;
    assert_eq!(config.endpoint_uri(), "http://127.0.0.1:0");
    config.port = u32::MAX;
    assert_eq!(config.endpoint_uri(), "http://127.0.0.1:4294967295");
    config.host = "db.example".to_string();
    config.port = 443;
    assert_eq!(config.endpoint_uri(), "http://db.example:443");
}

#[test]
fn start_without_certificate_builds_endpoint_at_once() {
    let (conn, action) = Connector::start(plain_config());
    assert!(matches!(conn.phase, ConnectPhase::AwaitingEndpoint));
    assert!(matches!(action, ConnectAction::BuildPlainEndpoint));
}

#[test]
fn bad_certificate_fails_with_file_error_before_network() {
    let (mut conn, action) = Connector::start(tls_config());
    // the first action is the local file read, not a network action
    assert!(matches!(action, ConnectAction::ReadCertificate));
    let next = conn.step(ConnectEvent::CertificateUnreadable(
        "no such file".to_string(),
    ));
    // the attempt is over: no further action, so no network I/O ever ran
    assert!(next.is_none());
    match conn.phase {
        ConnectPhase::Failed(ClientError::FileError(m)) => assert_eq!(m, "no such file"),
        _ => panic!("expected a FileError"),
    }
}

#[test]
fn full_plaintext_connect_walkthrough() {
    let (mut conn, action) = Connector::start(plain_config());
    assert!(matches!(action, ConnectAction::BuildPlainEndpoint));
    let action = conn.step(ConnectEvent::EndpointBuilt);
    assert!(matches!(action, Some(ConnectAction::OpenChannel)));
    let action = conn.step(ConnectEvent::ChannelOpened);
    assert!(matches!(action, Some(ConnectAction::Handshake)));
    let action = conn.step(ConnectEvent::HandshakeAccepted);
    assert!(action.is_none());
    assert!(matches!(conn.phase, ConnectPhase::Connected));
}

#[test]
fn rejected_handshake_reports_sanitized_message() {
    let (mut conn, _) = Connector::start(plain_config());
    conn.step(ConnectEvent::EndpointBuilt);
    conn.step(ConnectEvent::ChannelOpened);
    let raw = "status: Unauthenticated, message: \"wrong password at src/dbserver/src/auth.rs:9\"";
    let action = conn.step(ConnectEvent::HandshakeRejected(raw.to_string()));
    assert!(action.is_none());
    match conn.phase {
        ConnectPhase::Failed(ClientError::HandshakeError(m)) => {
            assert_eq!(m, "wrong password");
            assert_eq!(m, filter_message(raw));
        }
        _ => panic!("expected a HandshakeError"),
    }
}

#[test]
fn refused_channel_is_a_connection_error() {
    let (mut conn, _) = Connector::start(plain_config());
    conn.step(ConnectEvent::EndpointBuilt);
    conn.step(ConnectEvent::ChannelRefused("timed out".to_string()));
    assert!(matches!(
        conn.phase,
        ConnectPhase::Failed(ClientError::ConnectionError(_))
    ));
}

#[test]
fn rejected_tls_endpoint_is_a_tls_config_error() {
    let (mut conn, _) = Connector::start(tls_config());
    conn.step(ConnectEvent::CertificateRead("pem".to_string()));
    conn.step(ConnectEvent::EndpointRejected("bad pem".to_string()));
    assert!(matches!(
        conn.phase,
        ConnectPhase::Failed(ClientError::TlsConfigError(_))
    ));
}

#[test]
fn first_ticket_of_single_endpoint() {
    let desc = ResultDescriptor {
        endpoints: vec![TicketEndpoint {
            ticket: Some(vec![1, 2, 3]),
        }],
    };
    assert_eq!(desc.first_ticket().unwrap(), &vec![1u8, 2, 3]);
}

#[test]
fn missing_endpoint_is_an_execution_error() {
    let desc = ResultDescriptor { endpoints: vec![] };
    match desc.first_ticket() {
        Err(ClientError::ExecutionError(m)) => assert_eq!(m, "No endpoint in flight info"),
        _ => panic!("expected an ExecutionError"),
    }
}

#[test]
fn missing_ticket_is_an_execution_error() {
    let desc = ResultDescriptor {
        endpoints: vec![TicketEndpoint { ticket: None }],
    };
    match desc.first_ticket() {
        Err(ClientError::ExecutionError(m)) => assert_eq!(m, "No ticket in endpoint"),
        _ => panic!("expected an ExecutionError"),
    }
}

#[test]
fn zero_batches_always_fail_with_empty_result_error() {
    let drained: Vec<ResultBatch> = vec![];
    match check_drained(drained) {
        Err(ClientError::EmptyResultError) => {}
        _ => panic!("expected an EmptyResultError"),
    }
    // regardless of statement kind: the same holds for any element type
    let other: Vec<u32> = vec![];
    assert!(matches!(
        check_drained(other),
        Err(ClientError::EmptyResultError)
    ));
}

#[test]
fn nonempty_batches_pass_through_in_order() {
    let batches = vec![10u32, 20, 30];
    assert_eq!(check_drained(batches).unwrap(), vec![10u32, 20, 30]);
}

#[test]
fn ddl_returns_one_batch_with_zero_affected_rows() {
    // what a successful `CREATE DATABASE x` yields: exactly one batch whose
    // single value is the affected-row count, zero for DDL
    let batches = vec![ResultBatch {
        columns: vec![Column {
            name: "affected_rows".to_string(),
            data: ColumnData::Int64(vec![0]),
        }],
    }];
    let batches = check_drained(batches).unwrap();
    assert_eq!(batches.len(), 1);
    assert_eq!(affected_row_count(&batches), Some(0));
}

#[test]
fn insert_reports_its_affected_row_count() {
    let batches = vec![ResultBatch {
        columns: vec![Column {
            name: "affected_rows".to_string(),
            data: ColumnData::Int64(vec![5]),
        }],
    }];
    assert_eq!(affected_row_count(&batches), Some(5));
}

#[test]
fn affected_row_count_needs_an_integer_column() {
    let batches = vec![ResultBatch {
        columns: vec![Column {
            name: "ts".to_string(),
            data: ColumnData::Other(5),
        }],
    }];
    assert_eq!(affected_row_count(&batches), None);
    let empty: Vec<ResultBatch> = vec![];
    assert_eq!(affected_row_count(&empty), None);
}

#[test]
fn column_row_counts() {
    assert_eq!(ColumnData::Int64(vec![1, 2, 3]).rows(), 3);
    assert_eq!(ColumnData::Int32(vec![7]).rows(), 1);
    assert_eq!(ColumnData::Other(4).rows(), 4);
}

#[test]
fn error_messages_carry_their_text() {
    assert_eq!(
        ClientError::FileError("unreadable".to_string()).message(),
        "unreadable"
    );
    assert_eq!(ClientError::EmptyResultError.message(), "");
}

#[test]
fn session_records_default_database() {
    let mut session = Session::new();
    assert!(session.database.is_none());
    session.use_database("rust");
    assert_eq!(session.database.as_deref(), Some("rust"));
}

#[test]
fn prepared_statement_lifecycle() {
    let mut stmt = PreparedStatement::new();
    assert!(!stmt.may_execute());
    stmt.bind();
    assert!(stmt.may_execute());
    stmt.record_execution();
    stmt.bind();
    assert!(stmt.may_execute());
    assert!(!stmt.is_closed());
    stmt.close();
    assert!(stmt.is_closed());
    assert!(!stmt.may_execute());
}
