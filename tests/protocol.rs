use scix_client::catalog::TOOL_CATALOG;
use scix_client::client::handle_response;
use scix_client::mcp::{handle_line, tool_reply, Step};
use scix_client::tools::{
    documents_confirmation, library_confirmation, DocumentRequest, LibraryRequest, ToolRequest,
};
use scix_client::{ExportFormat, SciXError, SortDirection};

fn reply(step: Step) -> String {
    match step {
        Step::Reply(t) => t,
        other => panic!("expected a reply, got {:?}", other),
    }
}

#[test]
fn status_outcomes_are_classified() {
    assert!(matches!(handle_response(404, String::new(), None), Err(SciXError::NotFound(_))));
    assert!(matches!(handle_response(401, String::new(), None), Err(SciXError::AuthRequired)));
    assert!(matches!(
        handle_response(429, String::new(), Some("7")),
        Err(SciXError::RateLimited { retry_after: Some(7) })
    ));
    assert!(matches!(
        handle_response(429, String::new(), Some("soon")),
        Err(SciXError::RateLimited { retry_after: None })
    ));
    match handle_response(500, "oops".to_string(), None) {
        Err(SciXError::Api { status, message }) => {
            assert_eq!(status, 500);
            assert_eq!(message, "oops");
        }
        other => panic!("unexpected {:?}", other),
    }
    assert_eq!(handle_response(204, "body".to_string(), None).unwrap(), "body");
    assert!(matches!(handle_response(300, String::new(), None), Err(SciXError::Api { status: 300, .. })));
}

#[test]
fn error_messages() {
    assert_eq!(
        SciXError::RateLimited { retry_after: Some(7) }.message(),
        "Rate limited, retry after Some(7s)"
    );
    assert_eq!(
        SciXError::Api { status: 500, message: "oops".to_string() }.message(),
        "API error (HTTP 500): oops"
    );
    assert_eq!(SciXError::NotFound("x".to_string()).message(), "Not found: x");
}

#[test]
fn undecodable_line_gets_parse_error_and_loop_goes_on() {
    let t = reply(handle_line("this is not json"));
    assert_eq!(t, r#"{"error":{"code":-32700,"message":"Parse error"},"id":null,"jsonrpc":"2.0"}"#);
    let next = reply(handle_line(r#"{"id":2,"method":"initialize"}"#));
    assert!(next.starts_with(r#"{"id":2,"jsonrpc":"2.0","result":{"capabilities""#));
}

#[test]
fn unknown_tool_is_a_content_failure() {
    let t = reply(handle_line(
        r#"{"id":"a","method":"tools/call","params":{"name":"scix_nope","arguments":{}}}"#,
    ));
    assert_eq!(
        t,
        r#"{"id":"a","jsonrpc":"2.0","result":{"content":[{"text":"Error: Invalid query: Unknown tool: scix_nope","type":"text"}],"isError":true}}"#
    );
}

#[test]
fn missing_required_argument_makes_no_call() {
    let step = handle_line(r#"{"id":5,"method":"tools/call","params":{"name":"scix_search","arguments":{}}}"#);
    assert!(!matches!(step, Step::Invoke { .. }));
    let t = reply(step);
    assert!(t.contains("'query' parameter required"));
    assert!(t.contains(r#""isError":true"#));
}

#[test]
fn catalog_listing_is_stable() {
    let a = reply(handle_line(r#"{"id":1,"method":"tools/list"}"#));
    let b = reply(handle_line(r#"{"id":1,"method":"tools/list"}"#));
    assert_eq!(a, b);
    assert!(a.contains(TOOL_CATALOG));
    assert!(a.contains("\"name\":\"scix_search\""));
}

#[test]
fn notifications_get_no_response() {
    assert!(matches!(handle_line(r#"{"method":"notifications/initialized"}"#), Step::Ignore));
    assert!(matches!(handle_line(r#"{"method":"notifications/cancelled"}"#), Step::Ignore));
}

#[test]
fn unknown_method_and_resource() {
    let t = reply(handle_line(r#"{"id":true,"method":"frobnicate"}"#));
    assert_eq!(
        t,
        r#"{"error":{"code":-32601,"message":"Method not found: frobnicate"},"id":true,"jsonrpc":"2.0"}"#
    );
    let t = reply(handle_line(r#"{"id":[1],"method":"resources/read","params":{"uri":"scix://nope"}}"#));
    assert_eq!(
        t,
        r#"{"error":{"code":-32602,"message":"Unknown resource: scix://nope"},"id":null,"jsonrpc":"2.0"}"#
    );
}

#[test]
fn resources_are_served() {
    let t = reply(handle_line(r#"{"id":3,"method":"resources/list"}"#));
    assert!(t.contains("scix://fields") && t.contains("scix://syntax"));
    let t = reply(handle_line(r#"{"id":4,"method":"resources/read","params":{"uri":"scix://syntax"}}"#));
    assert!(t.contains("SciX Query Syntax Guide"));
    assert!(t.ends_with(r#""uri":"scix://syntax"}]}}"#));
}

#[test]
fn search_call_is_read_into_a_request() {
    let step = handle_line(
        r#"{"id":9,"method":"tools/call","params":{"name":"scix_search","arguments":{"query":"star","rows":4294967301,"sort":"citation_count asc"}}}"#,
    );
    match step {
        Step::Invoke { id, request: ToolRequest::Search { query, fields, sort, rows, start } } => {
            assert_eq!(id, "9");
            assert_eq!(query, "star");
            assert_eq!(rows, 5);
            assert_eq!(start, 0);
            let s = sort.unwrap();
            assert_eq!(s.field, "citation_count");
            assert_eq!(s.direction, SortDirection::Asc);
            assert!(fields.starts_with("bibcode,title"));
        }
        other => panic!("unexpected {:?}", other),
    }
}

#[test]
fn export_format_is_read_loosely() {
    let step = handle_line(
        r#"{"id":1,"method":"tools/call","params":{"name":"scix_export","arguments":{"bibcodes":["a",3,"b"],"format":"RIS"}}}"#,
    );
    match step {
        Step::Invoke { request: ToolRequest::Export { bibcodes, format }, .. } => {
            assert_eq!(bibcodes, vec!["a".to_string(), "b".to_string()]);
            assert_eq!(format, ExportFormat::Ris);
        }
        other => panic!("unexpected {:?}", other),
    }
}

#[test]
fn library_actions_are_checked() {
    let t = reply(handle_line(
        r#"{"id":1,"method":"tools/call","params":{"name":"scix_library","arguments":{"action":"transfer","id":"L"}}}"#,
    ));
    assert!(t.contains("'email' required for transfer"));
    let t = reply(handle_line(
        r#"{"id":1,"method":"tools/call","params":{"name":"scix_library","arguments":{"action":"burn"}}}"#,
    ));
    assert!(t.contains("Unknown library action: burn"));
    match handle_line(
        r#"{"id":1,"method":"tools/call","params":{"name":"scix_library","arguments":{"action":"create","name":"N"}}}"#,
    ) {
        Step::Invoke { request: ToolRequest::Library(LibraryRequest::Create { name, description, public }), .. } => {
            assert_eq!(name, "N");
            assert_eq!(description, "");
            assert!(!public);
        }
        other => panic!("unexpected {:?}", other),
    }
    let t = reply(handle_line(
        r#"{"id":1,"method":"tools/call","params":{"name":"scix_library_documents","arguments":{"action":"add"}}}"#,
    ));
    assert!(t.contains("'library_id' required"));
    match handle_line(
        r#"{"id":1,"method":"tools/call","params":{"name":"scix_library_documents","arguments":{"action":"union","library_id":"L","libraries":["M"]}}}"#,
    ) {
        Step::Invoke { request: ToolRequest::LibraryDocuments { library_id, action: DocumentRequest::Operation { action, libraries } }, .. } => {
            assert_eq!(library_id, "L");
            assert_eq!(action, "union");
            assert_eq!(libraries, Some(vec!["M".to_string()]));
        }
        other => panic!("unexpected {:?}", other),
    }
}

#[test]
fn tool_outcomes_are_framed() {
    let ok: Result<String, SciXError> = Ok("say \"hi\"\n".to_string());
    assert_eq!(
        tool_reply("7", &ok),
        r#"{"id":7,"jsonrpc":"2.0","result":{"content":[{"text":"say \"hi\"\n","type":"text"}]}}"#
    );
    let err: Result<String, SciXError> = Err(SciXError::AuthRequired);
    let t = tool_reply("null", &err);
    assert!(t.contains("Error: Authentication required"));
    assert!(t.ends_with(r#""isError":true}}"#));
}

#[test]
fn confirmations_of_actions() {
    let t = LibraryRequest::Transfer { id: "L".to_string(), email: "a@b".to_string() };
    assert_eq!(library_confirmation(&t).unwrap(), "Library L transferred to a@b");
    assert!(library_confirmation(&LibraryRequest::List).is_none());
    let add = DocumentRequest::Add { bibcodes: vec!["x".to_string(), "y".to_string()] };
    assert_eq!(documents_confirmation(&add, 0).unwrap(), "Added 2 documents");
    let q = DocumentRequest::AddByQuery { query: "star".to_string(), rows: None };
    assert_eq!(documents_confirmation(&q, 17).unwrap(), "Added 17 documents by query");
}
