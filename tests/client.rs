use ferinth::calls::ReportItemType;
use ferinth::error::ClientError;
use ferinth::ident::{check_id_slug, check_id_slugs};
use ferinth::path::{build_path, render_query};
use ferinth::query::{encode_query, encode_value, Filter, FilterValue};
use ferinth::request::{Ferinth, Method, API_URL_BASE};
use ferinth::response::{api_error, complete, interpret_response};

fn strings(items: &[&str]) -> Vec<String> {
    items.iter().map(|s| s.to_string()).collect()
}

fn pairs(items: &[(&str, &str)]) -> Vec<(String, String)> {
    items.iter().map(|(a, b)| (a.to_string(), b.to_string())).collect()
}

#[test]
fn accepts_ids_and_slugs() {
    assert_eq!(check_id_slug("TEZXhE2U"), Ok(()));
    assert_eq!(check_id_slug("sodium"), Ok(()));
    assert_eq!(check_id_slug("my-mod_1.2"), Ok(()));
    assert_eq!(check_id_slug("A"), Ok(()));
    assert_eq!(check_id_slug(&"a".repeat(64)), Ok(()));
}

#[test]
fn rejects_bad_identifiers() {
    for bad in ["", "a/b", "a b", "é", "x?y", "a#", "%41"] {
        assert_eq!(
            check_id_slug(bad),
            Err(ClientError::InvalidIdentifier(bad.to_string())),
            "{bad:?}"
        );
    }
    let long = "a".repeat(65);
    assert_eq!(check_id_slug(&long), Err(ClientError::InvalidIdentifier(long.clone())));
}

#[test]
fn batch_check_reports_first_invalid() {
    assert_eq!(check_id_slugs(&strings(&["A", "B"])), Ok(()));
    assert_eq!(check_id_slugs(&strings(&[])), Ok(()));
    assert_eq!(
        check_id_slugs(&strings(&["ok", "b/ad", "wo rse"])),
        Err(ClientError::InvalidIdentifier("b/ad".to_string()))
    );
}

#[test]
fn path_keeps_segments_in_order() {
    assert_eq!(
        build_path(API_URL_BASE, &strings(&["user", "TEZXhE2U", "projects"])).unwrap(),
        "https://api.modrinth.com/v2/user/TEZXhE2U/projects"
    );
    assert_eq!(
        build_path("https://example.com/api", &strings(&["b", "a"])).unwrap(),
        "https://example.com/api/b/a"
    );
}

#[test]
fn path_escapes_slash_inside_segment() {
    let url = build_path(API_URL_BASE, &strings(&["project", "a/b", "version"])).unwrap();
    assert_eq!(url, "https://api.modrinth.com/v2/project/a%2Fb/version");
    let path = url.strip_prefix("https://api.modrinth.com/v2/").unwrap();
    assert_eq!(path.split('/').count(), 3);
    let url = build_path(API_URL_BASE, &strings(&["x y", "50%", "q?"])).unwrap();
    assert_eq!(url, "https://api.modrinth.com/v2/x%20y/50%25/q%3F");
}

#[test]
fn path_refuses_non_base_endpoint() {
    assert_eq!(build_path("not a url", &strings(&["user"])), None);
    assert_eq!(build_path("mailto:someone@example.com", &strings(&["user"])), None);
}

#[test]
fn query_keeps_only_present_filters() {
    let filters = vec![
        Filter { name: "loaders".to_string(), value: Some(FilterValue::List(strings(&["forge"]))) },
        Filter { name: "game_versions".to_string(), value: None },
        Filter { name: "featured".to_string(), value: Some(FilterValue::Flag(true)) },
        Filter { name: "kind".to_string(), value: Some(FilterValue::Text("mod".to_string())) },
    ];
    let first = encode_query(&filters).unwrap();
    assert_eq!(
        first,
        pairs(&[("loaders", "[\"forge\"]"), ("featured", "true"), ("kind", "mod")])
    );
    let second = encode_query(&filters).unwrap();
    assert_eq!(first, second);
    assert_eq!(render_query(&first), render_query(&second));
}

#[test]
fn query_of_no_filters_is_empty() {
    let filters = vec![Filter { name: "featured".to_string(), value: None }];
    assert_eq!(encode_query(&filters).unwrap(), Vec::<(String, String)>::new());
    assert_eq!(render_query(&Vec::new()), "");
}

#[test]
fn filter_values_are_compact_json() {
    assert_eq!(encode_value(&FilterValue::Flag(false)).unwrap(), "false");
    assert_eq!(
        encode_value(&FilterValue::List(strings(&["1.20.1", "1.19"]))).unwrap(),
        "[\"1.20.1\",\"1.19\"]"
    );
    assert_eq!(encode_value(&FilterValue::List(Vec::new())).unwrap(), "[]");
    assert_eq!(
        encode_value(&FilterValue::List(strings(&["say \"hi\""]))).unwrap(),
        "[\"say \\\"hi\\\"\"]"
    );
}

#[test]
fn query_is_form_encoded() {
    assert_eq!(
        render_query(&pairs(&[("loaders", "[\"forge\"]"), ("q", "a b&c")])),
        "?loaders=%5B%22forge%22%5D&q=a+b%26c"
    );
    assert_eq!(render_query(&pairs(&[("plain", "A-z_0.9*")])), "?plain=A-z_0.9*");
}

#[test]
fn get_user_request() {
    let client = Ferinth::default();
    let request = client.get_user("TEZXhE2U").unwrap();
    assert_eq!(request.method, Method::Get);
    assert_eq!(request.url, "https://api.modrinth.com/v2/user/TEZXhE2U");
    assert_eq!(request.headers, pairs(&[("user-agent", "ferinth")]));
    assert_eq!(request.body, None);
}

#[test]
fn get_user_scenario_decodes_role() {
    let client = Ferinth::with_endpoint("http://127.0.0.1:8080", "stub-test", None);
    let request = client.get_user("TEZXhE2U").unwrap();
    assert_eq!(request.url, "http://127.0.0.1:8080/user/TEZXhE2U");
    let body = complete(Ok((200, "{\"id\":\"TEZXhE2U\",\"role\":\"developer\"}".to_string())))
        .unwrap();
    let value: serde_json::Value = serde_json::from_str(&body).unwrap();
    assert_eq!(value.get("role").and_then(|r| r.as_str()), Some("developer"));
    assert_eq!(value.get("id").and_then(|r| r.as_str()), Some("TEZXhE2U"));
}

#[test]
fn invalid_user_id_is_refused_before_any_request() {
    let client = Ferinth::default();
    assert_eq!(
        client.get_user("bad id").unwrap_err(),
        ClientError::InvalidIdentifier("bad id".to_string())
    );
    assert_eq!(
        client.list_projects("").unwrap_err(),
        ClientError::InvalidIdentifier(String::new())
    );
}

#[test]
fn user_subcollection_requests() {
    let client = Ferinth::default();
    assert_eq!(
        client.list_projects("TEZXhE2U").unwrap().url,
        "https://api.modrinth.com/v2/user/TEZXhE2U/projects"
    );
    assert_eq!(
        client.get_notifications("TEZXhE2U").unwrap().url,
        "https://api.modrinth.com/v2/user/TEZXhE2U/notifications"
    );
    assert_eq!(
        client.followed_projects("TEZXhE2U").unwrap().url,
        "https://api.modrinth.com/v2/user/TEZXhE2U/follows"
    );
    assert_eq!(client.get_current_user().unwrap().url, "https://api.modrinth.com/v2/user");
}

#[test]
fn batch_lookup_sends_ids_as_json_array() {
    let client = Ferinth::default();
    let request = client.get_multiple_users(&strings(&["A", "B"])).unwrap();
    assert_eq!(request.method, Method::Get);
    assert_eq!(request.url, "https://api.modrinth.com/v2/users?ids=%5B%22A%22%2C%22B%22%5D");
    let request = client.get_multiple_versions(&strings(&["sxWTUZpD", "mgPpe4NY"])).unwrap();
    assert_eq!(
        request.url,
        "https://api.modrinth.com/v2/versions?ids=%5B%22sxWTUZpD%22%2C%22mgPpe4NY%22%5D"
    );
}

#[test]
fn batch_lookup_reply_holds_requested_ids() {
    let body = complete(Ok((200, "[{\"id\":\"B\"},{\"id\":\"A\"}]".to_string()))).unwrap();
    let value: serde_json::Value = serde_json::from_str(&body).unwrap();
    let mut ids: Vec<&str> = value
        .as_array()
        .unwrap()
        .iter()
        .map(|v| v.get("id").unwrap().as_str().unwrap())
        .collect();
    ids.sort();
    assert_eq!(ids, vec!["A", "B"]);
}

#[test]
fn batch_lookup_fails_on_first_invalid_id() {
    let client = Ferinth::default();
    assert_eq!(
        client.get_multiple_versions(&strings(&["good", "ba/d", "b d"])).unwrap_err(),
        ClientError::InvalidIdentifier("ba/d".to_string())
    );
}

#[test]
fn list_versions_filtered_scenario() {
    let client = Ferinth::default();
    let request = client
        .list_versions_filtered("AANobbMI", Some(strings(&["forge"])), None, None)
        .unwrap();
    assert_eq!(
        request.url,
        "https://api.modrinth.com/v2/project/AANobbMI/version?loaders=%5B%22forge%22%5D"
    );
    assert!(request.url.contains("loaders=%5B%22forge%22%5D"));
    let body = complete(Ok((200, "[]".to_string()))).unwrap();
    let value: serde_json::Value = serde_json::from_str(&body).unwrap();
    assert!(value.as_array().unwrap().is_empty());
}

#[test]
fn list_versions_with_all_filters() {
    let client = Ferinth::default();
    let request = client
        .list_versions_filtered(
            "sodium",
            Some(strings(&["fabric"])),
            Some(strings(&["1.20.1"])),
            Some(false),
        )
        .unwrap();
    assert_eq!(
        request.url,
        "https://api.modrinth.com/v2/project/sodium/version?loaders=%5B%22fabric%22%5D&game_versions=%5B%221.20.1%22%5D&featured=false"
    );
    assert_eq!(
        client.list_versions_filtered("sodium", None, None, None).unwrap().url,
        "https://api.modrinth.com/v2/project/sodium/version"
    );
    assert_eq!(
        client.list_versions("AANobbMI").unwrap().url,
        "https://api.modrinth.com/v2/project/AANobbMI/version"
    );
    assert_eq!(
        client.get_version("xuWxRZPd").unwrap().url,
        "https://api.modrinth.com/v2/version/xuWxRZPd"
    );
}

#[test]
fn report_is_posted_as_json_with_token() {
    let client = Ferinth::new("app", Some("1.0"), Some("me@example.com"), Some("SECRET-REDACTED"));
    assert_eq!(client.user_agent, "app/1.0 (me@example.com)");
    let request = client
        .submit_report(
            "spam".to_string(),
            "XXXXXXXX".to_string(),
            ReportItemType::User,
            "He said \"hi\"".to_string(),
        )
        .unwrap();
    assert_eq!(request.method, Method::Post);
    assert_eq!(request.url, "https://api.modrinth.com/v2/report");
    assert_eq!(
        request.body.as_deref(),
        Some("{\"report_type\":\"spam\",\"item_id\":\"XXXXXXXX\",\"item_type\":\"user\",\"body\":\"He said \\\"hi\\\"\"}")
    );
    assert_eq!(
        request.headers,
        pairs(&[
            ("user-agent", "app/1.0 (me@example.com)"),
            ("authorization", "SECRET-REDACTED"),
            ("content-type", "application/json"),
        ])
    );
}

#[test]
fn report_with_invalid_item_is_refused() {
    let client = Ferinth::default();
    assert_eq!(
        client
            .submit_report("spam".into(), "no/pe".into(), ReportItemType::Project, "x".into())
            .unwrap_err(),
        ClientError::InvalidIdentifier("no/pe".to_string())
    );
}

#[test]
fn invalid_endpoint_is_reported() {
    let client = Ferinth::with_endpoint("nowhere", "t", None);
    assert_eq!(
        client.get_user("abc").unwrap_err(),
        ClientError::InvalidEndpoint("nowhere".to_string())
    );
}

#[test]
fn success_reply_hands_body_on() {
    assert_eq!(interpret_response(200, "{\"id\":\"x\"}".to_string()), Ok("{\"id\":\"x\"}".to_string()));
    assert_eq!(interpret_response(204, String::new()), Ok(String::new()));
    let body = interpret_response(200, "{\"unexpected\":1".to_string()).unwrap();
    assert!(serde_json::from_str::<serde_json::Value>(&body).is_err());
}

#[test]
fn not_found_reply_gives_description() {
    let body = "{\"error\":\"not_found\",\"description\":\"the requested route does not exist\"}";
    assert_eq!(
        interpret_response(404, body.to_string()),
        Err(ClientError::ApiError {
            status: 404,
            reason: "the requested route does not exist".to_string()
        })
    );
}

#[test]
fn unstructured_error_reply_keeps_raw_body() {
    assert_eq!(
        interpret_response(502, "Bad Gateway".to_string()),
        Err(ClientError::ApiError { status: 502, reason: "Bad Gateway".to_string() })
    );
    assert_eq!(
        interpret_response(199, "{\"error\":\"x\"}".to_string()),
        Err(ClientError::ApiError { status: 199, reason: "{\"error\":\"x\"}".to_string() })
    );
    assert_eq!(
        api_error(401, "raw".to_string(), None),
        ClientError::ApiError { status: 401, reason: "raw".to_string() }
    );
}

#[test]
fn transport_failure_is_surfaced() {
    assert_eq!(
        complete(Err("connection refused".to_string())),
        Err(ClientError::TransportError("connection refused".to_string()))
    );
}
