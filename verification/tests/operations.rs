use ucp_client::response::{handle_response, parsed, NextStep};
use ucp_client::{HttpStatus, Method, UcpClient, UcpConfig, UcpError};

const SERVER: &str = "http://127.0.0.1:1234";

fn client() -> UcpClient {
    let config = UcpConfig { base_url: SERVER.to_string(), ..Default::default() };
    UcpClient::new(config).unwrap()
}

fn answer(status: u16, body: &str) -> Result<serde_json::Value, UcpError> {
    let status = HttpStatus::from_u16(status).unwrap();
    assert_eq!(handle_response(&status), NextStep::ReadAnswer);
    parsed(serde_json::from_str::<serde_json::Value>(body).map_err(|error| error.to_string()))
}

#[test]
fn test_store_memory() {
    let request = client().store_memory();
    assert_eq!(request.method, Method::Post);
    assert_eq!(request.url, format!("{}{}", SERVER, "/api/v1/memory"));
    assert!(request.json_body);

    let body = "{\"id\":\"mem_123\",\"content\":\"Test memory content\",\"score\":null,\
                \"metadata\":{},\"tags\":[\"test\"],\"timestamp\":1234567890}";
    let response = answer(200, body).unwrap();
    assert_eq!(response["id"], "mem_123");
    assert_eq!(response["content"], "Test memory content");
}

#[test]
fn test_search_memories() {
    let request = client().search_memories();
    assert_eq!(request.method, Method::Post);
    assert_eq!(request.url, format!("{}{}", SERVER, "/api/v1/search"));
    assert!(request.json_body);

    let body = "{\"results\":[{\"id\":\"mem_123\",\"content\":\"Test memory content\",\
                \"score\":0.95,\"metadata\":{},\"tags\":[\"test\"],\"timestamp\":1234567890}],\
                \"total\":1,\"took\":15}";
    let response = answer(200, body).unwrap();
    let results = response["results"].as_array().unwrap();
    assert_eq!(results.len(), 1);
    assert_eq!(results[0]["id"], "mem_123");
    assert_eq!(results[0]["score"].as_f64(), Some(0.95));
}

#[test]
fn test_health_check() {
    let request = client().health_check();
    assert_eq!(request.method, Method::Get);
    assert_eq!(request.url, format!("{}{}", SERVER, "/api/v1/health"));
    assert!(!request.json_body);

    let body = "{\"status\":\"healthy\",\"version\":\"1.0.0\",\"uptime\":3600,\
                \"memory_usage\":{\"heap\":1024000,\"rss\":2048000}}";
    let health = answer(200, body).unwrap();
    assert_eq!(health["status"], "healthy");
    assert_eq!(health["version"], "1.0.0");
    assert_eq!(health["uptime"], 3600);
}

#[test]
fn answer_that_is_not_json_is_a_json_error() {
    let status = HttpStatus::from_u16(200).unwrap();
    assert_eq!(handle_response(&status), NextStep::ReadAnswer);
    let outcome =
        parsed(serde_json::from_str::<serde_json::Value>("<html>").map_err(|error| error.to_string()));
    assert_eq!(
        outcome,
        Err(UcpError::JsonError("expected value at line 1 column 1".to_string()))
    );
}
