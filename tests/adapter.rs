use cueball_postgres_connection::config::PostgresConnectionConfig;
use cueball_postgres_connection::connection::PostgresConnection;
use cueball_postgres_connection::factory::{Backend, ConnectionFactory};

fn empty_config() -> PostgresConnectionConfig {
    PostgresConnectionConfig {
        user: None,
        password: None,
        host: None,
        port: None,
        database: None,
        application_name: None,
    }
}

fn text(s: &str) -> Option<String> {
    Some(s.to_string())
}

#[test]
fn render_all_fields() {
    let config = PostgresConnectionConfig {
        user: text("alice"),
        password: text("SECRET-REDACTED"),
        host: text("db.example"),
        port: Some(5433),
        database: text("orders"),
        application_name: text("billing"),
    };
    assert_eq!(
        config.to_url(),
        "postgresql://alice@db.example:5433/orders?application_name=billing"
    );
}

#[test]
fn render_all_absent_uses_localhost() {
    assert_eq!(empty_config().to_url(), "postgresql://localhost");
}

#[test]
fn render_omits_password() {
    let mut config = empty_config();
    config.password = text("hunter2");
    config.user = text("bob");
    let url = config.to_url();
    assert_eq!(url, "postgresql://bob@localhost");
    assert!(!url.contains("hunter2"));
}

#[test]
fn render_empty_texts_drop_separators() {
    let config = PostgresConnectionConfig {
        user: text(""),
        password: None,
        host: text("h"),
        port: None,
        database: text(""),
        application_name: text(""),
    };
    assert_eq!(config.to_url(), "postgresql://h");
}

#[test]
fn render_each_field_alone() {
    let mut c = empty_config();
    c.user = text("u");
    assert_eq!(c.to_url(), "postgresql://u@localhost");

    let mut c = empty_config();
    c.port = Some(7);
    assert_eq!(c.to_url(), "postgresql://localhost:7");

    let mut c = empty_config();
    c.database = text("d");
    assert_eq!(c.to_url(), "postgresql://localhost/d");

    let mut c = empty_config();
    c.application_name = text("a");
    assert_eq!(c.to_url(), "postgresql://localhost?application_name=a");
}

#[test]
fn render_port_edges() {
    let mut c = empty_config();
    c.port = Some(0);
    assert_eq!(c.to_url(), "postgresql://localhost:0");
    c.port = Some(10);
    assert_eq!(c.to_url(), "postgresql://localhost:10");
    c.port = Some(65535);
    assert_eq!(c.to_url(), "postgresql://localhost:65535");
}

#[test]
fn host_default_only_when_absent() {
    let mut c = empty_config();
    assert_eq!(c.to_url(), "postgresql://localhost");
    c.host = text("10.1.2.3");
    assert_eq!(c.to_url(), "postgresql://10.1.2.3");
    c.host = text("");
    assert_eq!(c.to_url(), "postgresql://");
}

#[test]
fn string_from_config_matches_to_url() {
    let mut c = empty_config();
    c.user = text("carol");
    c.port = Some(6432);
    let expected = c.to_url();
    assert_eq!(String::from(c), expected);
    assert_eq!(expected, "postgresql://carol@localhost:6432");
}

#[test]
fn factory_fills_backend_for_alice() {
    let mut c = empty_config();
    c.user = text("alice");
    c.database = text("orders");
    let mut factory = PostgresConnection::connection_creator(c);
    let conn = factory.build(&Backend::new("10.0.0.5".to_string(), 5432));
    assert_eq!(conn.url(), "postgresql://alice@10.0.0.5:5432/orders");
}

#[test]
fn factory_fills_backend_for_empty_config() {
    let mut factory = ConnectionFactory::new(empty_config());
    let conn = factory.build(&Backend::new("127.0.0.1".to_string(), 5432));
    assert_eq!(conn.url(), "postgresql://127.0.0.1:5432");
}

#[test]
fn factory_builds_do_not_leak() {
    let mut c = empty_config();
    c.user = text("u");
    c.application_name = text("app");
    let mut factory = PostgresConnection::connection_creator(c);
    let first = factory.build(&Backend::new("A".to_string(), 1));
    let second = factory.build(&Backend::new("B".to_string(), 2));
    assert_eq!(first.url(), "postgresql://u@A:1?application_name=app");
    assert_eq!(second.url(), "postgresql://u@B:2?application_name=app");
    let template = factory.config();
    assert_eq!(template.host.as_deref(), Some("B"));
    assert_eq!(template.port, Some(2));
    assert_eq!(template.user.as_deref(), Some("u"));
    assert_eq!(template.application_name.as_deref(), Some("app"));
    assert_eq!(template.database, None);
}

#[test]
fn fresh_adapter_is_disconnected() {
    let mut factory = ConnectionFactory::new(empty_config());
    let mut conn = factory.build(&Backend::new("127.0.0.1".to_string(), 5432));
    assert!(!conn.is_connected());
    assert!(conn.as_client().is_none());
    assert!(conn.as_client_mut().is_none());
}

#[test]
fn close_is_idempotent() {
    let mut conn = PostgresConnection::new("postgresql://localhost".to_string());
    assert!(conn.close().is_ok());
    assert!(!conn.is_connected());
    assert!(conn.as_client().is_none());
    assert!(conn.close().is_ok());
    assert!(!conn.is_connected());
    assert!(conn.as_client().is_none());
    assert_eq!(conn.url(), "postgresql://localhost");
}

#[test]
fn connect_refused_leaves_adapter_disconnected() {
    let mut c = empty_config();
    c.user = text("alice");
    let mut factory = ConnectionFactory::new(c);
    let mut conn = factory.build(&Backend::new("127.0.0.1".to_string(), 1));
    let url_before = conn.url().to_string();
    let result = conn.connect();
    assert!(result.is_err());
    assert!(!conn.is_connected());
    assert!(conn.as_client().is_none());
    assert_eq!(conn.url(), url_before);
}

#[test]
fn connect_malformed_url_fails() {
    let mut conn = PostgresConnection::new("postgresql://alice@localhost:notaport".to_string());
    assert!(conn.connect().is_err());
    assert!(!conn.is_connected());
    assert!(conn.as_client().is_none());
}
