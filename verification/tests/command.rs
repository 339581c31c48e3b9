use catalog_client::command::{
    code_hosting_entries, parse_body, Command, MalformedInput, Operation, Shown, CODE_HOSTING, LOGS,
    PUBLISHERS, SOFTWARE,
};
use catalog_client::paginator::Listing;
use catalog_client::transport::{Method, Request};
use serde_json::Value;

fn json(text: &str) -> Value {
    serde_json::from_str(text).unwrap()
}

fn call(command: Command) -> (Request, Shown) {
    match command.plan("tok") {
        Ok(Operation::Call(request, shown)) => (request, shown),
        other => panic!("expected a call, got {:?}", other),
    }
}

fn list(command: Command) -> (Listing, Shown) {
    match command.plan("tok") {
        Ok(Operation::List(listing, shown)) => (listing, shown),
        other => panic!("expected a listing, got {:?}", other),
    }
}

#[test]
fn resource_names() {
    assert_eq!(PUBLISHERS, "publishers");
    assert_eq!(SOFTWARE, "software");
    assert_eq!(LOGS, "logs");
    assert_eq!(CODE_HOSTING, "codeHosting");
}

#[test]
fn create_publisher_posts_the_body() {
    let data = r#"{"description":"Comune","codeHosting":[{"url":"https://example.org"}]}"#;
    let (request, shown) = call(Command::CreatePublisher { data: data.to_string() });
    assert_eq!(request.method, Method::Post);
    assert_eq!(request.url, "https://api.developers.italia.it/v1/publishers");
    assert_eq!(request.body, Some(json(data)));
    assert_eq!(request.headers[0].value, "Bearer tok");
    assert_eq!(shown, Shown::Json);
}

#[test]
fn create_software_posts_the_body() {
    let data = r#"{"url":"https://example.org/repo.git"}"#;
    let (request, shown) = call(Command::CreateSoftware { data: data.to_string() });
    assert_eq!(request.method, Method::Post);
    assert_eq!(request.url, "https://api.developers.italia.it/v1/software");
    assert_eq!(request.body, Some(json(data)));
    assert_eq!(shown, Shown::Json);
}

#[test]
fn update_software_patches_the_record() {
    let command = Command::UpdateSoftware {
        software_id: "abc-1".to_string(),
        data: r#"{"active":false}"#.to_string(),
    };
    let (request, shown) = call(command);
    assert_eq!(request.method, Method::Patch);
    assert_eq!(request.url, "https://api.developers.italia.it/v1/software/abc-1");
    assert_eq!(request.body, Some(json(r#"{"active":false}"#)));
    assert_eq!(shown, Shown::Json);
}

#[test]
fn malformed_body_is_refused_before_any_request() {
    let commands = vec![
        Command::CreatePublisher { data: "{not json".to_string() },
        Command::CreateSoftware { data: "".to_string() },
        Command::UpdateSoftware { software_id: "x".to_string(), data: "{} {}".to_string() },
    ];
    for command in commands {
        assert!(command.plan("tok").is_err());
    }
}

#[test]
fn parse_body_reads_json_text() {
    assert_eq!(parse_body(r#" {"a": [1, "two", null]} "#).unwrap(), json(r#"{"a":[1,"two",null]}"#));
    assert_eq!(parse_body("17").unwrap(), json("17"));
}

#[test]
fn parse_body_says_why_it_refuses() {
    let refusal = parse_body(r#"{"a":}"#).unwrap_err();
    assert!(refusal.reason.is_syntax());
    let refusal = parse_body(r#"{"a":1"#).unwrap_err();
    assert!(refusal.reason.is_eof());
}

#[test]
fn show_software_gets_the_record() {
    let (request, shown) = call(Command::ShowSoftware { software_id: "s1".to_string() });
    assert_eq!(request.method, Method::Get);
    assert_eq!(request.url, "https://api.developers.italia.it/v1/software/s1");
    assert!(request.body.is_none());
    assert_eq!(shown, Shown::Software);
}

#[test]
fn show_publisher_gets_the_record() {
    let (request, shown) = call(Command::ShowPublisher { publisher_id: "pub-7".to_string() });
    assert_eq!(request.method, Method::Get);
    assert_eq!(request.url, "https://api.developers.italia.it/v1/publishers/pub-7");
    assert!(request.body.is_none());
    assert_eq!(shown, Shown::Publisher);
}

#[test]
fn list_software_starts_a_listing() {
    let (listing, shown) = list(Command::ListSoftware);
    assert_eq!(listing.request().url, "https://api.developers.italia.it/v1/software?all=true");
    assert_eq!(listing.request().headers[0].value, "Bearer tok");
    assert!(listing.items.is_empty());
    assert_eq!(shown, Shown::Software);
}

#[test]
fn list_publishers_shows_publishers_or_their_code_hosting() {
    let (listing, shown) = list(Command::ListPublishers { code_hostings: false });
    assert_eq!(listing.request().url, "https://api.developers.italia.it/v1/publishers?all=true");
    assert_eq!(shown, Shown::Publisher);
    let (listing, shown) = list(Command::ListPublishers { code_hostings: true });
    assert_eq!(listing.request().url, "https://api.developers.italia.it/v1/publishers?all=true");
    assert_eq!(shown, Shown::CodeHosting);
}

#[test]
fn logs_are_listed_in_detail() {
    let (listing, shown) = list(Command::Logs);
    assert_eq!(listing.request().url, "https://api.developers.italia.it/v1/logs?all=true");
    assert_eq!(shown, Shown::Detail);
}

#[test]
fn code_hosting_entries_are_the_elements_of_the_member() {
    let publisher = json(
        r#"{"id":"p","codeHosting":[{"url":"https://a.example"},{"url":"https://b.example","group":true}]}"#,
    );
    assert_eq!(
        code_hosting_entries(&publisher),
        vec![json(r#"{"url":"https://a.example"}"#), json(r#"{"url":"https://b.example","group":true}"#)]
    );
}

#[test]
fn code_hosting_entries_are_none_without_an_array() {
    assert!(code_hosting_entries(&json(r#"{"id":"p"}"#)).is_empty());
    assert!(code_hosting_entries(&json(r#"{"codeHosting":null}"#)).is_empty());
    assert!(code_hosting_entries(&json(r#"{"codeHosting":{"url":"x"}}"#)).is_empty());
    assert!(code_hosting_entries(&json(r#"{"codeHosting":[]}"#)).is_empty());
    assert!(code_hosting_entries(&json(r#"["codeHosting"]"#)).is_empty());
}

#[test]
fn malformed_input_from_a_json_error_keeps_the_reason() {
    let reason = serde_json::from_str::<Value>("[1,").unwrap_err();
    let column = reason.column();
    let refusal = MalformedInput::from(reason);
    assert!(refusal.reason.is_eof());
    assert_eq!(refusal.reason.column(), column);
}
