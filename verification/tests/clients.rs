//! Credential resolution, response validation, request construction, and
//! end-to-end scenarios against mock responses.

use jora::config::Config;
use jora::config::resolve;
use jora::error::ApiError;
use jora::http_util::HttpResponse;
use jora::http_util::Method;
use jora::http_util::validate;
use jora::jira::SearchRequest;
use jora::jira::filter_request;
use jora::jira::filter_response;
use jora::jira::search_body;
use jora::jira::search_request;
use jora::jira::search_response;
use jora::pocket::retrieve_request;
use jora::pocket::retrieve_response;
use jora::sparql::RdfTerm;
use jora::sparql::SparqlContext;

fn config_of(pairs: Vec<(&str, &str)>) -> Config {
    Config {
        entries: pairs.into_iter().map(|(k, v)| (String::from(k), String::from(v))).collect(),
    }
}

fn ok_response(body: &str) -> HttpResponse {
    HttpResponse { status: 200, body: String::from(body) }
}

#[test]
fn resolve_succeeds_iff_both_keys_set() {
    let full = config_of(vec![("JIRA_USERNAME", "u"), ("JIRA_PASSWORD", "p")]);
    let creds = resolve(&full, "JIRA").unwrap();
    assert_eq!("u", creds.username);
    assert_eq!("p", creds.password);

    let no_password = config_of(vec![("JIRA_USERNAME", "u")]);
    match resolve(&no_password, "JIRA") {
        Err(ApiError::MissingCredentials { missing }) => {
            assert_eq!(vec![String::from("JIRA_PASSWORD")], missing);
        },
        other => panic!("expected MissingCredentials, got {:?}", other),
    }

    let no_username = config_of(vec![("JIRA_PASSWORD", "p")]);
    match resolve(&no_username, "JIRA") {
        Err(ApiError::MissingCredentials { missing }) => {
            assert_eq!(vec![String::from("JIRA_USERNAME")], missing);
        },
        other => panic!("expected MissingCredentials, got {:?}", other),
    }

    let empty = config_of(vec![]);
    match resolve(&empty, "JIRA") {
        Err(ApiError::MissingCredentials { missing }) => {
            assert_eq!(
                vec![String::from("JIRA_USERNAME"), String::from("JIRA_PASSWORD")],
                missing
            );
        },
        other => panic!("expected MissingCredentials, got {:?}", other),
    }
}

#[test]
fn validate_accepts_only_200() {
    let ok = validate(ok_response("fine")).unwrap();
    assert_eq!(200, ok.status);
    assert_eq!("fine", ok.body);

    let failed = HttpResponse { status: 404, body: String::from("not here") };
    match validate(failed) {
        Err(ApiError::RequestFailed { status, body }) => {
            assert_eq!(404, status);
            assert_eq!("not here", body);
        },
        other => panic!("expected RequestFailed, got {:?}", other),
    }
}

#[test]
fn for_jql_uses_defaults() {
    let req = SearchRequest::for_jql(String::from("project = BS"));
    assert_eq!("project = BS", req.jql);
    assert_eq!(0, req.start_at);
    assert_eq!(100, req.max_results);
    assert_eq!(
        vec![String::from("status"), String::from("summary"), String::from("*all")],
        req.fields
    );
}

#[test]
fn search_body_renders_exactly() {
    let req = SearchRequest::for_jql(String::from("project = BS"));
    assert_eq!(
        "{\"jql\":\"project = BS\",\"startAt\":0,\"maxResults\":100,\
         \"fields\":[\"status\",\"summary\",\"*all\"]}",
        search_body(&req)
    );
}

#[test]
fn search_body_escapes_query_text() {
    let req = SearchRequest {
        jql: String::from("summary ~ \"a\\b\nc\""),
        start_at: 7,
        max_results: 4294967295,
        fields: vec![String::from("summary")],
    };
    assert_eq!(
        "{\"jql\":\"summary ~ \\\"a\\\\b\\nc\\\"\",\"startAt\":7,\
         \"maxResults\":4294967295,\"fields\":[\"summary\"]}",
        search_body(&req)
    );
}

#[test]
fn jira_requests_carry_auth_and_urls() {
    let cfg = config_of(vec![("JIRA_USERNAME", "u"), ("JIRA_PASSWORD", "p")]);
    let base = "https://localhost/jira/rest/api/2";
    let get = filter_request(&cfg, base, "10300").unwrap();
    assert!(matches!(get.method, Method::Get));
    assert_eq!("https://localhost/jira/rest/api/2/filter/10300", get.url);
    assert!(get.body.is_none());
    let auth = get.auth.unwrap();
    assert_eq!("u", auth.username);
    assert_eq!("p", auth.password);

    let post = search_request(&cfg, base, &SearchRequest::for_jql(String::from("x"))).unwrap();
    assert!(matches!(post.method, Method::Post));
    assert_eq!("https://localhost/jira/rest/api/2/search", post.url);
    assert_eq!(
        vec![(String::from("Content-Type"), String::from("application/json"))],
        post.headers
    );
    assert!(post.body.is_some());

    let bare = config_of(vec![]);
    assert!(filter_request(&bare, base, "10300").is_err());
}

#[test]
fn search_returns_two_issues_one_without_duedate() {
    let cfg = config_of(vec![("JIRA_USERNAME", "u"), ("JIRA_PASSWORD", "p")]);
    let base = "https://localhost/jira/rest/api/2";
    assert!(search_request(&cfg, base, &SearchRequest::for_jql(String::from("due <= now()")))
        .is_ok());
    let body = "{\"issues\":[\
        {\"id\":\"1\",\"self\":\"https://localhost/jira/rest/api/2/issue/1\",\"key\":\"BS-1\",\
         \"fields\":{\"summary\":\"first\",\"status\":{\"id\":\"3\",\"name\":\"Open\"},\
         \"created\":\"2019-01-02T03:04:05+00:00\",\"duedate\":\"2019-02-03\"}},\
        {\"id\":\"2\",\"self\":\"https://localhost/jira/rest/api/2/issue/2\",\"key\":\"BS-2\",\
         \"fields\":{\"summary\":\"second\",\"status\":{\"id\":\"1\",\"name\":\"New\"},\
         \"created\":\"2019-01-03T00:00:00+00:00\"}}]}";
    let issues = search_response(ok_response(body)).unwrap();
    assert_eq!(2, issues.len());
    assert_eq!("BS-1", issues[0].key);
    let due = issues[0].fields.due_date.unwrap();
    assert_eq!((2019, 2, 3), (due.year, due.month, due.day));
    assert_eq!("BS-2", issues[1].key);
    assert!(issues[1].fields.due_date.is_none());
}

#[test]
fn search_response_fails_whole_batch_on_one_bad_record() {
    let body = "{\"issues\":[\
        {\"id\":\"1\",\"self\":\"u\",\"key\":\"BS-1\",\
         \"fields\":{\"summary\":\"first\",\"status\":{\"id\":\"3\",\"name\":\"Open\"},\
         \"created\":\"2019-01-02T03:04:05+00:00\"}},\
        {\"id\":\"2\",\"self\":\"u\",\"key\":\"BS-2\",\"fields\":{\"summary\":\"second\",\
         \"status\":{\"id\":\"1\",\"name\":\"New\"},\"created\":\"never\"}}]}";
    match search_response(ok_response(body)) {
        Err(ApiError::MalformedIssue { field }) => assert_eq!("created", field),
        other => panic!("expected MalformedIssue, got {:?}", other),
    }
}

#[test]
fn search_response_surfaces_non_200_with_body() {
    let resp = HttpResponse { status: 500, body: String::from("boom") };
    match search_response(resp) {
        Err(ApiError::RequestFailed { status, body }) => {
            assert_eq!(500, status);
            assert_eq!("boom", body);
        },
        other => panic!("expected RequestFailed, got {:?}", other),
    }
}

#[test]
fn search_response_rejects_unparseable_body() {
    match search_response(ok_response("{not json")) {
        Err(ApiError::MalformedIssue { field }) => assert_eq!("body", field),
        other => panic!("expected MalformedIssue, got {:?}", other),
    }
}

#[test]
fn sparql_query_yields_one_iri_binding() {
    let cfg = config_of(vec![("STARDOG_USERNAME", "admin"), ("STARDOG_PASSWORD", "s")]);
    let ctx = SparqlContext { endpoint: String::from("https://localhost/stardog/jora"), reasoning: false };
    let req = ctx.query_request(&cfg, "select * where { ?s ?p ?o }").unwrap();
    assert!(matches!(req.method, Method::Get));
    assert_eq!("https://localhost/stardog/jora/query", req.url);
    assert_eq!(
        vec![(String::from("Accept"), String::from("application/sparql-results+json"))],
        req.headers
    );
    assert_eq!(
        vec![
            (String::from("query"), String::from("select * where { ?s ?p ?o }")),
            (String::from("reasoning"), String::from("false")),
        ],
        req.query
    );

    let body = "{\"head\":{\"vars\":[\"p\"]},\"results\":{\"bindings\":[\
        {\"p\":{\"type\":\"uri\",\"value\":\"http://example/X\"}}]}}";
    let result = ctx.query_response(ok_response(body)).unwrap();
    assert_eq!(1, result.results.bindings.len());
    let only = &result.results.bindings[0];
    assert!(only.contains_key("p"));
    assert_eq!(
        &RdfTerm::Iri { value: String::from("http://example/X") },
        only.get("p").unwrap()
    );
}

#[test]
fn sparql_reasoning_flag_and_order_are_kept() {
    let cfg = config_of(vec![("STARDOG_USERNAME", "admin"), ("STARDOG_PASSWORD", "s")]);
    let ctx = SparqlContext { endpoint: String::from("https://localhost/stardog/jora"), reasoning: true };
    let req = ctx.query_request(&cfg, "select * where { ?s ?p ?o } order by ?p").unwrap();
    assert_eq!(String::from("true"), req.query[1].1);

    let body = "{\"head\":{\"vars\":[\"p\"]},\"results\":{\"bindings\":[\
        {\"p\":{\"type\":\"uri\",\"value\":\"http://jbalint/javap#java.lang.Object\"}},\
        {\"p\":{\"type\":\"uri\",\"value\":\"http://jbalint/javap#java.util.Date\"}}]}}";
    let result = ctx.query_response(ok_response(body)).unwrap();
    let solutions = &result.results.bindings;
    assert_eq!(2, solutions.len());
    assert_eq!(
        &RdfTerm::Iri { value: String::from("http://jbalint/javap#java.lang.Object") },
        solutions[0].get("p").unwrap()
    );
    assert_eq!(
        &RdfTerm::Iri { value: String::from("http://jbalint/javap#java.util.Date") },
        solutions[1].get("p").unwrap()
    );
}

#[test]
fn sparql_literal_without_datatype_fails() {
    let cfg = config_of(vec![("STARDOG_USERNAME", "admin"), ("STARDOG_PASSWORD", "s")]);
    let ctx = SparqlContext { endpoint: String::from("https://localhost/stardog/jora"), reasoning: false };
    assert!(ctx.query_request(&cfg, "select * where { ?s ?p ?o }").is_ok());
    let body = "{\"head\":{\"vars\":[\"p\"]},\"results\":{\"bindings\":[\
        {\"p\":{\"type\":\"literal\",\"value\":\"42\"}}]}}";
    match ctx.query_response(ok_response(body)) {
        Err(ApiError::MalformedTerm { what }) => assert_eq!("datatype", what),
        other => panic!("expected MalformedTerm, got {:?}", other),
    }
}

#[test]
fn get_filter_twice_returns_structurally_equal_filters() {
    let body = "{\"id\":\"10300\",\"self\":\"https://localhost/jira/rest/api/2/filter/10300\",\
        \"name\":\"Overdue\",\"jql\":\"due <= now() and resolution is empty\"}";
    let first = filter_response(ok_response(body)).unwrap();
    let second = filter_response(ok_response(body)).unwrap();
    assert_eq!(first, second);
    assert_eq!("10300", first.id);
    assert_eq!("due <= now() and resolution is empty", first.query);
}

#[test]
fn pocket_request_and_listing_decode() {
    let req = retrieve_request(
        "https://getpocket.com/v3/get",
        "ck",
        "at",
        2,
        "complete",
    );
    assert!(matches!(req.method, Method::Post));
    assert_eq!("https://getpocket.com/v3/get", req.url);
    assert_eq!(
        "{\"consumer_key\":\"ck\",\"access_token\":\"at\",\"count\":2,\
         \"detailType\":\"complete\"}",
        req.body.unwrap()
    );
    assert!(req.auth.is_none());

    let body = "{\"status\":1,\"complete\":1,\"list\":{\
        \"229279689\":{\"item_id\":\"229279689\",\"resolved_id\":\"229279689\",\
        \"given_url\":\"http://example/article\",\"given_title\":\"An article\",\
        \"time_added\":\"1418886531\",\"time_updated\":\"1418886531\",\
        \"resolved_url\":\"http://example/article\",\"resolved_title\":\"An article\",\
        \"excerpt\":\"A short excerpt.\"}}}";
    let items = retrieve_response(ok_response(body)).unwrap();
    assert_eq!(1, items.len());
    assert_eq!("229279689", items[0].0);
    assert_eq!("An article", items[0].1.given_title);
}

#[test]
fn pocket_listing_fails_on_malformed_record() {
    let body = "{\"status\":1,\"complete\":1,\"list\":{\
        \"1\":{\"item_id\":\"1\"}}}";
    match retrieve_response(ok_response(body)) {
        Err(ApiError::MalformedItem { field }) => assert_eq!("resolved_id", field),
        other => panic!("expected MalformedItem, got {:?}", other),
    }
}

#[test]
fn sparql_empty_bindings_decode_to_empty_result() {
    let cfg = config_of(vec![("STARDOG_USERNAME", "admin"), ("STARDOG_PASSWORD", "s")]);
    let ctx = SparqlContext { endpoint: String::from("https://localhost/stardog/jora"), reasoning: false };
    let body = "{\"head\":{\"vars\":[]},\"results\":{\"bindings\":[]}}";
    let result = ctx.query_response(ok_response(body)).unwrap();
    assert_eq!(0, result.results.bindings.len());
}

#[test]
fn search_with_no_issues_returns_empty_batch() {
    let issues = search_response(ok_response("{\"issues\":[]}")).unwrap();
    assert!(issues.is_empty());
}

#[test]
fn solution_lookup_takes_first_match() {
    let solution = jora::sparql::Solution {
        entries: vec![
            (String::from("p"), RdfTerm::Iri { value: String::from("a") }),
            (String::from("p"), RdfTerm::Iri { value: String::from("b") }),
        ],
    };
    assert_eq!(&RdfTerm::Iri { value: String::from("a") }, solution.get("p").unwrap());
    assert!(solution.get("q").is_none());
}

#[test]
fn search_body_escapes_tab_and_carriage_return() {
    let req = SearchRequest {
        jql: String::from("a\tb\rc"),
        start_at: 0,
        max_results: 1,
        fields: vec![],
    };
    assert_eq!(
        "{\"jql\":\"a\\tb\\rc\",\"startAt\":0,\"maxResults\":1,\"fields\":[]}",
        search_body(&req)
    );
}
