use std::cell::RefCell;
use std::sync::Arc;

use arrow_array::{Int32Array, RecordBatch};
use arrow_ipc::writer::StreamWriter;
use arrow_schema::{DataType, Field, Schema};

use lancedb_remote::db::ARROW_STREAM_CONTENT_TYPE;
use lancedb_remote::{
    Error, HttpRequest, HttpResponse, ListTablesResponse, Method, RemoteDatabase, Transport,
};

/// Answers every request with the handler's response and keeps what was sent.
struct MockTransport<F: Fn(&HttpRequest) -> HttpResponse> {
    handler: F,
    sent: RefCell<Vec<HttpRequest>>,
}

impl<F: Fn(&HttpRequest) -> HttpResponse> Transport for MockTransport<F> {
    fn send(&self, request: &HttpRequest) -> Result<HttpResponse, String> {
        self.sent.borrow_mut().push(request.clone());
        Ok((self.handler)(request))
    }

    fn decode_listing(&self, body: &str) -> Result<ListTablesResponse, String> {
        let value: serde_json::Value = serde_json::from_str(body).map_err(|e| e.to_string())?;
        let tables = value
            .get("tables")
            .and_then(|t| t.as_array())
            .ok_or_else(|| "missing field `tables`".to_string())?
            .iter()
            .map(|t| t.as_str().map(str::to_string).ok_or_else(|| "not a string".to_string()))
            .collect::<Result<Vec<String>, String>>()?;
        let page_token = value.get("page_token").and_then(|t| t.as_str()).map(str::to_string);
        Ok(ListTablesResponse { tables, page_token })
    }
}

/// Never reaches the service.
struct FailingTransport;

impl Transport for FailingTransport {
    fn send(&self, _request: &HttpRequest) -> Result<HttpResponse, String> {
        Err("connection refused".to_string())
    }

    fn decode_listing(&self, _body: &str) -> Result<ListTablesResponse, String> {
        Err("nothing to decode".to_string())
    }
}

fn new_with_handler<F: Fn(&HttpRequest) -> HttpResponse>(
    handler: F,
) -> RemoteDatabase<MockTransport<F>> {
    let transport = MockTransport { handler, sent: RefCell::new(Vec::new()) };
    RemoteDatabase::try_new("db://dev", "api-key", "us-east-1", None, transport).unwrap()
}

fn response(status: u16, body: &str) -> HttpResponse {
    HttpResponse { status, body: body.to_string() }
}

fn has_header(request: &HttpRequest, name: &str, value: &str) -> bool {
    request.headers.iter().any(|(n, v)| n == name && v == value)
}

fn sample_payload() -> Vec<u8> {
    let schema = Arc::new(Schema::new(vec![Field::new("a", DataType::Int32, false)]));
    let data =
        RecordBatch::try_new(schema.clone(), vec![Arc::new(Int32Array::from(vec![1, 2, 3]))])
            .unwrap();
    let mut writer = StreamWriter::try_new(Vec::new(), &schema).unwrap();
    writer.write(&data).unwrap();
    writer.finish().unwrap();
    writer.into_inner().unwrap()
}

fn empty_payload() -> Vec<u8> {
    let schema = Schema::new(vec![Field::new("a", DataType::Int32, false)]);
    let mut writer = StreamWriter::try_new(Vec::new(), &schema).unwrap();
    writer.finish().unwrap();
    writer.into_inner().unwrap()
}

#[test]
fn test_table_names() {
    let db = new_with_handler(|request| {
        assert_eq!(request.method, Method::Get);
        assert_eq!(request.path, "/v1/table/");
        assert!(request.query.is_empty());
        response(200, r#"{"tables": ["table1", "table2"]}"#)
    });
    let names = db.table_names(None, None).unwrap();
    assert_eq!(names, vec!["table1", "table2"]);
}

#[test]
fn test_table_names_pagination() {
    let db = new_with_handler(|request| {
        assert_eq!(request.method, Method::Get);
        assert_eq!(request.path, "/v1/table/");
        assert!(request.query.iter().any(|(k, v)| k == "limit" && v == "2"));
        assert!(request.query.iter().any(|(k, v)| k == "page_token" && v == "table2"));
        response(200, r#"{"tables": ["table3", "table4"], "page_token": "token"}"#)
    });
    let names = db.table_names(Some(2), Some("table2".to_string())).unwrap();
    assert_eq!(names, vec!["table3", "table4"]);
}

#[test]
fn test_open_table() {
    let db = new_with_handler(|request| {
        assert_eq!(request.method, Method::Get);
        assert_eq!(request.path, "/v1/table/table1/describe/");
        assert!(request.query.is_empty());
        response(200, r#"{"table": "table1"}"#)
    });
    let table = db.open_table("table1", None).unwrap();
    assert_eq!(table.name(), "table1");

    // Storage options should be ignored.
    let options = vec![("key".to_string(), "value".to_string())];
    let table = db.open_table("table1", Some(options)).unwrap();
    assert_eq!(table.name(), "table1");
    let sent = db.transport.sent.borrow();
    assert_eq!(sent.len(), 2);
    assert_eq!(sent[0].path, sent[1].path);
    assert_eq!(sent[0].query, sent[1].query);
    assert_eq!(sent[0].headers, sent[1].headers);
    assert_eq!(sent[0].body, sent[1].body);
}

#[test]
fn test_open_table_not_found() {
    let db = new_with_handler(|_| response(404, "table not found"));
    let result = db.open_table("table1", None);
    assert!(result.is_err());
    assert!(matches!(result, Err(Error::TableNotFound { .. })));
}

#[test]
fn test_create_table() {
    let db = new_with_handler(|request| {
        assert_eq!(request.method, Method::Post);
        assert_eq!(request.path, "/v1/table/table1/create/");
        assert!(has_header(request, "content-type", ARROW_STREAM_CONTENT_TYPE));
        response(200, "")
    });
    let table = db.create_table("table1", sample_payload()).unwrap();
    assert_eq!(table.name(), "table1");
}

#[test]
fn test_create_table_already_exists() {
    let db = new_with_handler(|_| response(400, "table table1 already exists"));
    let result = db.create_table("table1", sample_payload());
    assert!(result.is_err());
    assert!(matches!(result, Err(Error::TableAlreadyExists { name }) if name == "table1"));
}

#[test]
fn test_create_table_empty() {
    let db = new_with_handler(|request| {
        assert_eq!(request.method, Method::Post);
        assert_eq!(request.path, "/v1/table/table1/create/");
        assert!(has_header(request, "content-type", ARROW_STREAM_CONTENT_TYPE));
        response(200, "")
    });
    db.create_table("table1", empty_payload()).unwrap();
}

#[test]
fn test_drop_table() {
    let db = new_with_handler(|request| {
        assert_eq!(request.method, Method::Post);
        assert_eq!(request.path, "/v1/table/table1/drop/");
        assert!(request.query.is_empty());
        assert!(request.body.is_none());
        response(200, "")
    });
    db.drop_table("table1").unwrap();
    // The service answers 200 even when the table does not exist.
}

#[test]
fn drop_database_is_not_supported_and_sends_nothing() {
    let db = new_with_handler(|_| response(200, ""));
    let expected = Error::NotSupported {
        message: "Dropping databases is not supported in the remote API".to_string(),
    };
    assert_eq!(db.drop_db().unwrap_err(), expected);
    assert_eq!(db.drop_db().unwrap_err(), expected);
    assert!(db.transport.sent.borrow().is_empty());
}

#[test]
fn create_table_other_bad_request_is_invalid_input() {
    let db = new_with_handler(|_| response(400, "bad schema"));
    let result = db.create_table("table1", sample_payload());
    assert_eq!(result.unwrap_err(), Error::InvalidInput { message: "bad schema".to_string() });
}

#[test]
fn create_table_sends_payload_and_headers() {
    let db = new_with_handler(|_| response(201, ""));
    let payload = sample_payload();
    db.create_table("t", payload.clone()).unwrap();
    let sent = db.transport.sent.borrow();
    assert_eq!(sent[0].body, Some(payload));
    assert!(has_header(&sent[0], "x-request-id", "na"));
    assert!(has_header(&sent[0], "x-api-key", "api-key"));
    assert!(has_header(&sent[0], "x-lancedb-database", "dev"));
    assert_eq!(sent[0].host, "https://dev.us-east-1.api.lancedb.com");
}

#[test]
fn create_table_server_error_is_service_error() {
    let db = new_with_handler(|_| response(500, "boom"));
    let result = db.create_table("t", empty_payload());
    assert_eq!(result.unwrap_err(), Error::Service { status: 500, body: "boom".to_string() });
}

#[test]
fn open_table_server_error_is_service_error() {
    let db = new_with_handler(|_| response(503, "unavailable"));
    let result = db.open_table("t", None);
    assert_eq!(
        result.unwrap_err(),
        Error::Service { status: 503, body: "unavailable".to_string() }
    );
}

#[test]
fn drop_table_not_found_is_service_error() {
    let db = new_with_handler(|_| response(404, "missing"));
    let result = db.drop_table("t");
    assert_eq!(result.unwrap_err(), Error::Service { status: 404, body: "missing".to_string() });
}

#[test]
fn status_boundaries() {
    let db = new_with_handler(|_| response(200, ""));
    let c = &db.client;
    assert!(c.check_response(Ok(response(299, "x"))).is_ok());
    assert!(c.check_response(Ok(response(200, "x"))).is_ok());
    assert!(c.check_response(Ok(response(300, "x"))).is_err());
    assert!(c.check_response(Ok(response(199, "x"))).is_err());
    assert!(c.check_response(Ok(response(0, "x"))).is_err());
    assert_eq!(c.check_response(Ok(response(204, "body"))).unwrap(), "body");
}

#[test]
fn table_names_malformed_body_is_decode_error() {
    let db = new_with_handler(|_| response(200, "not json"));
    assert!(matches!(db.table_names(None, None), Err(Error::Decode { .. })));
}

#[test]
fn table_names_keeps_server_order_and_duplicates() {
    let db = new_with_handler(|_| response(200, r#"{"tables": ["b", "a", "b"]}"#));
    assert_eq!(db.table_names(None, None).unwrap(), vec!["b", "a", "b"]);
}

#[test]
fn transport_failure_is_reported() {
    let db =
        RemoteDatabase::try_new("db://dev", "k", "us-east-1", None, FailingTransport).unwrap();
    let expected = Error::Transport { message: "connection refused".to_string() };
    assert_eq!(db.table_names(None, None).unwrap_err(), expected);
    assert_eq!(db.open_table("t", None).unwrap_err(), expected);
    assert_eq!(db.drop_table("t").unwrap_err(), expected);
}

#[test]
fn listing_request_query_order() {
    let db = new_with_handler(|_| response(200, ""));
    let req = db.table_names_request(Some(4294967295), Some("x".to_string()));
    assert_eq!(
        req.query,
        vec![
            ("limit".to_string(), "4294967295".to_string()),
            ("page_token".to_string(), "x".to_string())
        ]
    );
    let req = db.table_names_request(Some(0), None);
    assert_eq!(req.query, vec![("limit".to_string(), "0".to_string())]);
}
