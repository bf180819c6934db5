use ucp_client::client::{Header, Method, Request, UcpClient};
use ucp_client::{UcpConfig, UcpError};

fn config(base_url: &str, api_key: Option<&str>) -> UcpConfig {
    UcpConfig {
        base_url: base_url.to_string(),
        api_key: api_key.map(|key| key.to_string()),
        timeout_secs: 30,
        max_retries: 3,
    }
}

fn client(base_url: &str) -> UcpClient {
    UcpClient::new(config(base_url, None)).unwrap()
}

fn header(name: &str, value: &str) -> Header {
    Header { name: name.to_string(), value: value.to_string() }
}

fn invalid_key() -> UcpError {
    UcpError::ConfigError("Invalid API key format".to_string())
}

#[test]
fn default_config() {
    let config = UcpConfig::default();
    assert_eq!(config.base_url, "http://localhost:3001");
    assert_eq!(config.api_key, None);
    assert_eq!(config.timeout_secs, 30);
    assert_eq!(config.max_retries, 3);
}

#[test]
fn client_keeps_its_config() {
    let built = UcpClient::new(config("http://example.test", Some("secret"))).unwrap();
    assert_eq!(built.config().base_url, "http://example.test");
    assert_eq!(built.config().api_key, Some("secret".to_string()));
    assert_eq!(built.config().timeout_secs, 30);
    assert_eq!(built.config().max_retries, 3);
}

#[test]
fn client_without_credential_sends_the_content_type() {
    let built = UcpClient::new(UcpConfig::default()).unwrap();
    assert_eq!(built.default_headers(), vec![header("content-type", "application/json")]);
}

#[test]
fn client_with_credential_sends_it_as_bearer() {
    let built = UcpClient::new(config("http://example.test", Some("secret"))).unwrap();
    assert_eq!(
        built.default_headers(),
        vec![
            header("content-type", "application/json"),
            header("authorization", "Bearer secret"),
        ]
    );
}

#[test]
fn credential_with_a_line_break_is_refused() {
    assert_eq!(UcpClient::new(config("http://example.test", Some("bad\nkey"))).err(), Some(invalid_key()));
    assert_eq!(UcpClient::new(config("http://example.test", Some("bad\rkey"))).err(), Some(invalid_key()));
}

#[test]
fn credential_with_a_control_character_is_refused() {
    assert_eq!(UcpClient::new(config("http://example.test", Some("\u{0}"))).err(), Some(invalid_key()));
    assert_eq!(UcpClient::new(config("http://example.test", Some("a\u{1f}b"))).err(), Some(invalid_key()));
    assert_eq!(UcpClient::new(config("http://example.test", Some("a\u{7f}b"))).err(), Some(invalid_key()));
}

#[test]
fn credential_with_tab_space_or_wide_characters_is_taken() {
    assert!(UcpClient::new(config("http://example.test", Some("a\tb c"))).is_ok());
    assert!(UcpClient::new(config("http://example.test", Some("cl\u{e9}"))).is_ok());
    assert!(UcpClient::new(config("http://example.test", Some(""))).is_ok());
    assert!(UcpClient::new(config("http://example.test", Some("~"))).is_ok());
}

#[test]
fn user_agent() {
    assert_eq!(UcpClient::user_agent(), "RAFT/0.1.0");
}

#[test]
fn store_memory_request() {
    assert_eq!(
        client("http://localhost:3001").store_memory(),
        Request {
            method: Method::Post,
            url: "http://localhost:3001/api/v1/memory".to_string(),
            json_body: true,
            headers: Vec::new(),
        }
    );
}

#[test]
fn get_memory_request() {
    assert_eq!(
        client("http://localhost:3001").get_memory("test_project", "mem_123"),
        Request {
            method: Method::Get,
            url: "http://localhost:3001/api/v1/memory/test_project/mem_123".to_string(),
            json_body: false,
            headers: Vec::new(),
        }
    );
}

#[test]
fn search_memories_request() {
    assert_eq!(
        client("http://localhost:3001").search_memories(),
        Request {
            method: Method::Post,
            url: "http://localhost:3001/api/v1/search".to_string(),
            json_body: true,
            headers: Vec::new(),
        }
    );
}

#[test]
fn search_memories_stream_request() {
    assert_eq!(
        client("http://localhost:3001").search_memories_stream(),
        Request {
            method: Method::Post,
            url: "http://localhost:3001/api/v1/search/stream".to_string(),
            json_body: true,
            headers: vec![header("Accept", "application/x-ndjson")],
        }
    );
}

#[test]
fn delete_memory_request() {
    assert_eq!(
        client("http://localhost:3001").delete_memory("test_project", "mem_123"),
        Request {
            method: Method::Delete,
            url: "http://localhost:3001/api/v1/memory/test_project/mem_123".to_string(),
            json_body: false,
            headers: Vec::new(),
        }
    );
}

#[test]
fn list_projects_request() {
    assert_eq!(
        client("http://localhost:3001").list_projects(),
        Request {
            method: Method::Get,
            url: "http://localhost:3001/api/v1/projects".to_string(),
            json_body: false,
            headers: Vec::new(),
        }
    );
}

#[test]
fn get_stats_request() {
    assert_eq!(
        client("http://localhost:3001").get_stats("test_project"),
        Request {
            method: Method::Get,
            url: "http://localhost:3001/api/v1/stats/test_project".to_string(),
            json_body: false,
            headers: Vec::new(),
        }
    );
}

#[test]
fn health_check_request() {
    assert_eq!(
        client("http://localhost:3001").health_check(),
        Request {
            method: Method::Get,
            url: "http://localhost:3001/api/v1/health".to_string(),
            json_body: false,
            headers: Vec::new(),
        }
    );
}

#[test]
fn names_are_put_into_the_url_as_they_are() {
    assert_eq!(
        client("http://h").get_memory("a b", "c/d").url,
        "http://h/api/v1/memory/a b/c/d"
    );
    assert_eq!(client("").get_stats("").url, "/api/v1/stats/");
}
