//! Issue-tracker client: filters, search requests, and decoding of issue
//! records. Authentication uses HTTP basic auth with credentials resolved
//! under the `JIRA` prefix.

use vstd::prelude::*;
use vstd::string::*;
use chrono::Datelike;
use chrono::Timelike;
use crate::error::ApiError;
use crate::error::ErrorView;
use crate::json::JsonValue;
use crate::json::get_field;
use crate::json::get_text;
use crate::json::prepend_decoded;
use crate::strutil::str_eq;
use crate::strutil::push_quoted;
use crate::strutil::push_string_list;
use crate::strutil::push_u32_digits;
use crate::strutil::spec_quoted;
use crate::strutil::spec_string_list;
use crate::strutil::spec_udigits;
use crate::config::Config;
use crate::config::cfg_get;
use crate::config::password_key;
use crate::config::resolve;
use crate::config::spec_missing_keys;
use crate::config::username_key;
use crate::http_util::HttpRequest;
use crate::http_util::HttpResponse;
use crate::http_util::Method;
use crate::http_util::validate;
use crate::json::json_of;
use crate::json::parse_json;

verus! {

/// The configuration-store prefix naming the issue-tracker service.
pub const JIRA_SERVICE_PREFIX: &'static str = "JIRA";

/// The fixed filter holding the overdue-issue query.
pub const FILTER_ID_OVERDUE_ISSUES: &'static str = "10300";

/// A second stored filter ("due in next 2 weeks"); defined, but not wired
/// to any composed operation.
pub const FILTER_ID_DUE_IN_NEXT_2_WEEKS: &'static str = "10107";

/// The page size used when a search request does not override it.
pub const DEFAULT_MAX_RESULTS: u32 = 100;

/// A timestamp with a fixed offset from UTC, as the issue tracker reports
/// creation times. Plain calendar and clock fields; no arithmetic is done
/// on them here.
#[derive(Debug, Clone, Copy, PartialEq, Eq, Structural)]
pub struct Timestamp {
    pub year: i32,
    pub month: u32,
    pub day: u32,
    pub hour: u32,
    pub minute: u32,
    pub second: u32,
    /// Offset of the local time from UTC, in seconds east.
    pub tz_offset_seconds: i32,
}

/// A calendar date, as the issue tracker reports due dates.
#[derive(Debug, Clone, Copy, PartialEq, Eq, Structural)]
pub struct DateYmd {
    pub year: i32,
    pub month: u32,
    pub day: u32,
}

/// What `chrono` parses the given RFC 3339 text into; `None` where the
/// text is not a valid timestamp.
pub uninterp spec fn timestamp_of(s: Seq<char>) -> Option<Timestamp>;

/// Relies on `chrono::DateTime::parse_from_rfc3339`: the result is a
/// function of the text alone, and its fields are copied out one for one.
#[verifier::external_body]
pub fn parse_timestamp(s: &str) -> (r: Option<Timestamp>)
    ensures
        r == timestamp_of(s@),
{
    match chrono::DateTime::parse_from_rfc3339(s) {
        Ok(dt) => Some(
            Timestamp {
                year: dt.year(),
                month: dt.month(),
                day: dt.day(),
                hour: dt.hour(),
                minute: dt.minute(),
                second: dt.second(),
                tz_offset_seconds: dt.offset().local_minus_utc(),
            },
        ),
        Err(_) => None,
    }
}

/// What `chrono` parses the given ISO 8601 calendar date into; `None`
/// where the text is not a valid date.
pub uninterp spec fn date_of(s: Seq<char>) -> Option<DateYmd>;

/// Relies on `chrono::NaiveDate`'s `FromStr`: the result is a function of
/// the text alone, and its fields are copied out one for one.
#[verifier::external_body]
pub fn parse_date(s: &str) -> (r: Option<DateYmd>)
    ensures
        r == date_of(s@),
{
    match s.parse::<chrono::NaiveDate>() {
        Ok(d) => Some(DateYmd { year: d.year(), month: d.month(), day: d.day() }),
        Err(_) => None,
    }
}

/// The workflow state of an issue.
#[derive(Debug)]
pub struct Status {
    pub id: String,
    pub name: String,
}

/// The decoded fields of one issue: its summary, its workflow state, the
/// mandatory creation timestamp, and the optional due date, whose absence
/// is valid.
#[derive(Debug)]
pub struct IssueFields {
    pub summary: String,
    pub status: Status,
    pub created: Timestamp,
    pub due_date: Option<DateYmd>,
}

/// One decoded issue record.
#[derive(Debug)]
pub struct Issue {
    pub id: String,
    pub url: String,
    pub key: String,
    pub fields: IssueFields,
}

/// A stored filter, fetched by id and read only to extract its query
/// string.
#[derive(Debug)]
pub struct Filter {
    pub id: String,
    pub url: String,
    pub name: String,
    pub query: String,
}

impl PartialEq for Filter {
    fn eq(&self, other: &Filter) -> (r: bool) {
        str_eq(self.id.as_str(), other.id.as_str()) && str_eq(
            self.url.as_str(),
            other.url.as_str(),
        ) && str_eq(self.name.as_str(), other.name.as_str()) && str_eq(
            self.query.as_str(),
            other.query.as_str(),
        )
    }
}

impl vstd::std_specs::cmp::PartialEqSpecImpl for Filter {
    open spec fn obeys_eq_spec() -> bool {
        true
    }

    open spec fn eq_spec(&self, other: &Filter) -> bool {
        self.id@ == other.id@ && self.url@ == other.url@ && self.name@ == other.name@
            && self.query@ == other.query@
    }
}

/// Decodes a stored filter: the `id`, `self`, `name` and `jql` fields must
/// all be present as strings. The error payload names the missing field.
pub open spec fn spec_decode_filter(v: JsonValue) -> Result<Filter, Seq<char>> {
    match get_text(v, "id"@) {
        Some(id) => match get_text(v, "self"@) {
            Some(url) => match get_text(v, "name"@) {
                Some(name) => match get_text(v, "jql"@) {
                    Some(q) => Ok(Filter { id, url, name, query: q }),
                    None => Err("jql"@),
                },
                None => Err("name"@),
            },
            None => Err("self"@),
        },
        None => Err("id"@),
    }
}

/// Decodes a stored filter, per [`spec_decode_filter`].
pub fn decode_filter(v: &JsonValue) -> (r: Result<Filter, ApiError>)
    ensures
        match spec_decode_filter(*v) {
            Ok(f) => r == Ok::<Filter, ApiError>(f),
            Err(w) => r matches Err(e) && e@ == (ErrorView::MalformedIssue { field: w }),
        },
{
    let id = match v.text_field("id") {
        Some(s) => s,
        None => {
            return Err(ApiError::MalformedIssue { field: String::from_str("id") });
        },
    };
    let url = match v.text_field("self") {
        Some(s) => s,
        None => {
            return Err(ApiError::MalformedIssue { field: String::from_str("self") });
        },
    };
    let name = match v.text_field("name") {
        Some(s) => s,
        None => {
            return Err(ApiError::MalformedIssue { field: String::from_str("name") });
        },
    };
    let q = match v.text_field("jql") {
        Some(s) => s,
        None => {
            return Err(ApiError::MalformedIssue { field: String::from_str("jql") });
        },
    };
    Ok(Filter { id: id.clone(), url: url.clone(), name: name.clone(), query: q.clone() })
}

/// Decodes a workflow state object: `id` and `name` must be present as
/// strings.
pub open spec fn spec_decode_status(v: JsonValue) -> Result<Status, Seq<char>> {
    match get_text(v, "id"@) {
        Some(id) => match get_text(v, "name"@) {
            Some(name) => Ok(Status { id, name }),
            None => Err("status.name"@),
        },
        None => Err("status.id"@),
    }
}

/// Decodes the `fields` object of an issue: `summary`, a `status` object
/// and a parseable `created` timestamp are mandatory; `duedate` may be
/// absent or null, and its absence is not an error.
pub open spec fn spec_decode_issue_fields(v: JsonValue) -> Result<IssueFields, Seq<char>> {
    match get_text(v, "summary"@) {
        None => Err("summary"@),
        Some(summary) => match get_field(v, "status"@) {
            None => Err("status"@),
            Some(sv) => match spec_decode_status(sv) {
                Err(w) => Err(w),
                Ok(status) => match get_text(v, "created"@) {
                    None => Err("created"@),
                    Some(cs) => match timestamp_of(cs@) {
                        None => Err("created"@),
                        Some(created) => match get_field(v, "duedate"@) {
                            None => Ok(
                                IssueFields { summary, status, created, due_date: None },
                            ),
                            Some(JsonValue::Null) => Ok(
                                IssueFields { summary, status, created, due_date: None },
                            ),
                            Some(JsonValue::Text(ds)) => match date_of(ds@) {
                                Some(d) => Ok(
                                    IssueFields { summary, status, created, due_date: Some(d) },
                                ),
                                None => Err("duedate"@),
                            },
                            Some(_) => Err("duedate"@),
                        },
                    },
                },
            },
        },
    }
}

/// Decodes the `fields` object of an issue, per
/// [`spec_decode_issue_fields`].
pub fn decode_issue_fields(v: &JsonValue) -> (r: Result<IssueFields, ApiError>)
    ensures
        match spec_decode_issue_fields(*v) {
            Ok(f) => r == Ok::<IssueFields, ApiError>(f),
            Err(w) => r matches Err(e) && e@ == (ErrorView::MalformedIssue { field: w }),
        },
{
    let summary = match v.text_field("summary") {
        Some(s) => s,
        None => {
            return Err(ApiError::MalformedIssue { field: String::from_str("summary") });
        },
    };
    let sv = match v.field("status") {
        Some(sv) => sv,
        None => {
            return Err(ApiError::MalformedIssue { field: String::from_str("status") });
        },
    };
    let status_id = match sv.text_field("id") {
        Some(s) => s,
        None => {
            return Err(ApiError::MalformedIssue { field: String::from_str("status.id") });
        },
    };
    let status_name = match sv.text_field("name") {
        Some(s) => s,
        None => {
            return Err(ApiError::MalformedIssue { field: String::from_str("status.name") });
        },
    };
    let cs = match v.text_field("created") {
        Some(s) => s,
        None => {
            return Err(ApiError::MalformedIssue { field: String::from_str("created") });
        },
    };
    let created = match parse_timestamp(cs.as_str()) {
        Some(t) => t,
        None => {
            return Err(ApiError::MalformedIssue { field: String::from_str("created") });
        },
    };
    let due_date = match v.field("duedate") {
        None => None,
        Some(JsonValue::Null) => None,
        Some(JsonValue::Text(ds)) => match parse_date(ds.as_str()) {
            Some(d) => Some(d),
            None => {
                return Err(ApiError::MalformedIssue { field: String::from_str("duedate") });
            },
        },
        Some(_) => {
            return Err(ApiError::MalformedIssue { field: String::from_str("duedate") });
        },
    };
    Ok(
        IssueFields {
            summary: summary.clone(),
            status: Status { id: status_id.clone(), name: status_name.clone() },
            created,
            due_date,
        },
    )
}

/// Decodes one issue record: `id`, `self` and `key` must be strings, and
/// `fields` a well-formed fields object.
pub open spec fn spec_decode_issue(v: JsonValue) -> Result<Issue, Seq<char>> {
    match get_text(v, "id"@) {
        None => Err("id"@),
        Some(id) => match get_text(v, "self"@) {
            None => Err("self"@),
            Some(url) => match get_text(v, "key"@) {
                None => Err("key"@),
                Some(key) => match get_field(v, "fields"@) {
                    None => Err("fields"@),
                    Some(fv) => match spec_decode_issue_fields(fv) {
                        Ok(fields) => Ok(Issue { id, url, key, fields }),
                        Err(w) => Err(w),
                    },
                },
            },
        },
    }
}

/// Decodes one issue record, per [`spec_decode_issue`].
pub fn decode_issue(v: &JsonValue) -> (r: Result<Issue, ApiError>)
    ensures
        match spec_decode_issue(*v) {
            Ok(t) => r == Ok::<Issue, ApiError>(t),
            Err(w) => r matches Err(e) && e@ == (ErrorView::MalformedIssue { field: w }),
        },
{
    let id = match v.text_field("id") {
        Some(s) => s,
        None => {
            return Err(ApiError::MalformedIssue { field: String::from_str("id") });
        },
    };
    let url = match v.text_field("self") {
        Some(s) => s,
        None => {
            return Err(ApiError::MalformedIssue { field: String::from_str("self") });
        },
    };
    let key = match v.text_field("key") {
        Some(s) => s,
        None => {
            return Err(ApiError::MalformedIssue { field: String::from_str("key") });
        },
    };
    let fv = match v.field("fields") {
        Some(fv) => fv,
        None => {
            return Err(ApiError::MalformedIssue { field: String::from_str("fields") });
        },
    };
    let fields = match decode_issue_fields(fv) {
        Ok(f) => f,
        Err(e) => {
            return Err(e);
        },
    };
    Ok(Issue { id: id.clone(), url: url.clone(), key: key.clone(), fields })
}

/// Decodes the issue records in order; the first malformed record fails
/// the whole batch, so no partial batch is ever returned.
pub open spec fn spec_decode_issues(vs: Seq<JsonValue>) -> Result<Seq<Issue>, Seq<char>>
    decreases vs.len(),
{
    if vs.len() == 0 {
        Ok(Seq::empty())
    } else {
        match spec_decode_issue(vs[0]) {
            Ok(t) => prepend_decoded(seq![t], spec_decode_issues(vs.skip(1))),
            Err(w) => Err(w),
        }
    }
}

/// Decodes a search response document: `issues` must be an array of issue
/// records.
pub open spec fn spec_decode_issue_response(v: JsonValue) -> Result<Seq<Issue>, Seq<char>> {
    match get_field(v, "issues"@) {
        Some(JsonValue::Arr(arr)) => spec_decode_issues(arr@),
        _ => Err("issues"@),
    }
}

/// Decodes a search response document, per [`spec_decode_issue_response`].
#[verifier::loop_isolation(false)]
pub fn decode_issue_response(v: &JsonValue) -> (r: Result<Vec<Issue>, ApiError>)
    ensures
        match spec_decode_issue_response(*v) {
            Ok(issues) => r matches Ok(got) && got@ == issues,
            Err(w) => r matches Err(e) && e@ == (ErrorView::MalformedIssue { field: w }),
        },
{
    let arr = match v.field("issues") {
        Some(JsonValue::Arr(arr)) => arr,
        _ => {
            return Err(ApiError::MalformedIssue { field: String::from_str("issues") });
        },
    };
    proof {
        assert(spec_decode_issue_response(*v) == spec_decode_issues(arr@));
    }
    let n = arr.len();
    let mut acc: Vec<Issue> = Vec::new();
    let mut i: usize = 0;
    proof {
        assert(arr@.skip(0) =~= arr@);
        match spec_decode_issues(arr@) {
            Ok(issues) => {
                assert(Seq::<Issue>::empty() + issues =~= issues);
            },
            Err(_) => {},
        }
    }
    while i < n
        invariant
            i <= n,
            spec_decode_issues(arr@) == prepend_decoded(
                acc@,
                spec_decode_issues(arr@.skip(i as int)),
            ),
        decreases n - i,
    {
        proof {
            assert(arr@.skip(i as int).len() > 0);
            assert(arr@.skip(i as int)[0] == arr@[i as int]);
            assert(arr@.skip(i as int).skip(1) =~= arr@.skip(i + 1));
        }
        let issue = match decode_issue(&arr[i]) {
            Ok(t) => t,
            Err(e) => {
                return Err(e);
            },
        };
        let ghost acc_before = acc@;
        acc.push(issue);
        proof {
            let rest = spec_decode_issues(arr@.skip(i + 1));
            if rest is Ok {
                assert(acc_before + (seq![acc@.last()] + rest->Ok_0) =~= acc@ + rest->Ok_0);
            }
        }
        i = i + 1;
    }
    proof {
        assert(arr@.skip(n as int) =~= Seq::<JsonValue>::empty());
        assert(acc@ + Seq::<Issue>::empty() =~= acc@);
    }
    Ok(acc)
}

/// An issue-search request: the query text and one bounded page of
/// results.
#[derive(Debug)]
pub struct SearchRequest {
    pub jql: String,
    pub start_at: u32,
    pub max_results: u32,
    pub fields: Vec<String>,
}

impl SearchRequest {
    /// A fresh request for the given query text: first page, default page
    /// size, and the fixed field list.
    pub fn for_jql(jql: String) -> (r: SearchRequest)
        ensures
            r.jql == jql,
            r.start_at == 0,
            r.max_results == DEFAULT_MAX_RESULTS,
            r.fields.deep_view() == seq!["status"@, "summary"@, "*all"@],
    {
        let mut fields: Vec<String> = Vec::new();
        fields.push(String::from_str("status"));
        fields.push(String::from_str("summary"));
        fields.push(String::from_str("*all"));
        proof {
            assert(fields.deep_view() =~= seq!["status"@, "summary"@, "*all"@]);
        }
        SearchRequest { jql, start_at: 0, max_results: DEFAULT_MAX_RESULTS, fields }
    }
}

/// The JSON body of an issue-search request.
pub open spec fn spec_search_body(
    jql: Seq<char>,
    start_at: u32,
    max_results: u32,
    fields: Seq<Seq<char>>,
) -> Seq<char> {
    "{\"jql\":"@ + spec_quoted(jql) + ",\"startAt\":"@ + spec_udigits(start_at as nat)
        + ",\"maxResults\":"@ + spec_udigits(max_results as nat) + ",\"fields\":["@
        + spec_string_list(fields) + "]}"@
}

/// Renders the JSON body of `req`, per [`spec_search_body`].
pub fn search_body(req: &SearchRequest) -> (r: String)
    ensures
        r@ == spec_search_body(req.jql@, req.start_at, req.max_results, req.fields.deep_view()),
{
    let mut out = String::from_str("{\"jql\":");
    push_quoted(req.jql.as_str(), &mut out);
    out.append(",\"startAt\":");
    push_u32_digits(req.start_at, &mut out);
    out.append(",\"maxResults\":");
    push_u32_digits(req.max_results, &mut out);
    out.append(",\"fields\":[");
    push_string_list(&req.fields, &mut out);
    out.append("]}");
    out
}

/// Builds the GET request fetching the stored filter with the given id:
/// credentials for the issue-tracker service attached as basic auth, no
/// body.
pub fn filter_request(cfg: &Config, base_url: &str, id: &str) -> (r: Result<
    HttpRequest,
    ApiError,
>)
    ensures
        r is Ok <==> (cfg_get(cfg@, username_key(JIRA_SERVICE_PREFIX@)) is Some && cfg_get(
            cfg@,
            password_key(JIRA_SERVICE_PREFIX@),
        ) is Some),
        r matches Err(e) ==> e@ == (ErrorView::MissingCredentials {
            missing: spec_missing_keys(cfg@, JIRA_SERVICE_PREFIX@),
        }),
        r matches Ok(req) ==> {
            &&& req.method == Method::Get
            &&& req.url@ == base_url@ + "/filter/"@ + id@
            &&& req.headers@.len() == 0
            &&& req.query@.len() == 0
            &&& req.body is None
            &&& req.auth matches Some(c) && Some(c.username@) == cfg_get(
                cfg@,
                username_key(JIRA_SERVICE_PREFIX@),
            ) && Some(c.password@) == cfg_get(cfg@, password_key(JIRA_SERVICE_PREFIX@))
        },
{
    let creds = match resolve(cfg, JIRA_SERVICE_PREFIX) {
        Ok(c) => c,
        Err(e) => {
            return Err(e);
        },
    };
    let url = String::from_str(base_url).concat("/filter/").concat(id);
    Ok(
        HttpRequest {
            method: Method::Get,
            url,
            headers: Vec::new(),
            query: Vec::new(),
            body: None,
            auth: Some(creds),
        },
    )
}

/// Builds the POST request performing an issue search: credentials for the
/// issue-tracker service attached as basic auth, a JSON content type, and
/// the rendered search request as the body.
pub fn search_request(cfg: &Config, base_url: &str, req: &SearchRequest) -> (r: Result<
    HttpRequest,
    ApiError,
>)
    ensures
        r is Ok <==> (cfg_get(cfg@, username_key(JIRA_SERVICE_PREFIX@)) is Some && cfg_get(
            cfg@,
            password_key(JIRA_SERVICE_PREFIX@),
        ) is Some),
        r matches Err(e) ==> e@ == (ErrorView::MissingCredentials {
            missing: spec_missing_keys(cfg@, JIRA_SERVICE_PREFIX@),
        }),
        r matches Ok(hr) ==> {
            &&& hr.method == Method::Post
            &&& hr.url@ == base_url@ + "/search"@
            &&& hr.headers@.len() == 1
            &&& hr.headers@[0].0@ == "Content-Type"@
            &&& hr.headers@[0].1@ == "application/json"@
            &&& hr.query@.len() == 0
            &&& hr.body matches Some(b) && b@ == spec_search_body(
                req.jql@,
                req.start_at,
                req.max_results,
                req.fields.deep_view(),
            )
            &&& hr.auth matches Some(c) && Some(c.username@) == cfg_get(
                cfg@,
                username_key(JIRA_SERVICE_PREFIX@),
            ) && Some(c.password@) == cfg_get(cfg@, password_key(JIRA_SERVICE_PREFIX@))
        },
{
    let creds = match resolve(cfg, JIRA_SERVICE_PREFIX) {
        Ok(c) => c,
        Err(e) => {
            return Err(e);
        },
    };
    let url = String::from_str(base_url).concat("/search");
    let mut headers: Vec<(String, String)> = Vec::new();
    headers.push((String::from_str("Content-Type"), String::from_str("application/json")));
    let body = search_body(req);
    Ok(
        HttpRequest {
            method: Method::Post,
            url,
            headers,
            query: Vec::new(),
            body: Some(body),
            auth: Some(creds),
        },
    )
}

/// Builds the request fetching the fixed overdue filter.
pub fn overdue_filter_request(cfg: &Config, base_url: &str) -> (r: Result<HttpRequest, ApiError>)
    ensures
        r is Ok <==> (cfg_get(cfg@, username_key(JIRA_SERVICE_PREFIX@)) is Some && cfg_get(
            cfg@,
            password_key(JIRA_SERVICE_PREFIX@),
        ) is Some),
        r matches Err(e) ==> e@ == (ErrorView::MissingCredentials {
            missing: spec_missing_keys(cfg@, JIRA_SERVICE_PREFIX@),
        }),
        r matches Ok(req) ==> req.method == Method::Get && req.url@ == base_url@ + "/filter/"@
            + FILTER_ID_OVERDUE_ISSUES@ && req.body is None,
{
    filter_request(cfg, base_url, FILTER_ID_OVERDUE_ISSUES)
}

/// Wraps a fetched filter's query string into a fresh search request with
/// default pagination.
pub fn search_request_for_filter(filter: &Filter) -> (r: SearchRequest)
    ensures
        r.jql@ == filter.query@,
        r.start_at == 0,
        r.max_results == DEFAULT_MAX_RESULTS,
        r.fields.deep_view() == seq!["status"@, "summary"@, "*all"@],
{
    SearchRequest::for_jql(filter.query.clone())
}

/// What the filter-fetch operation returns once the transport has handed
/// back a response with the given status and body text.
pub open spec fn spec_filter_outcome(status: u16, body: Seq<char>) -> Result<Filter, ErrorView> {
    if status != 200 {
        Err(ErrorView::RequestFailed { status, body })
    } else {
        match json_of(body) {
            Some(v) => match spec_decode_filter(v) {
                Ok(f) => Ok(f),
                Err(w) => Err(ErrorView::MalformedIssue { field: w }),
            },
            None => Err(ErrorView::MalformedIssue { field: "body"@ }),
        }
    }
}

/// Validates and decodes the response of a filter fetch, per
/// [`spec_filter_outcome`].
pub fn filter_response(resp: HttpResponse) -> (r: Result<Filter, ApiError>)
    ensures
        match spec_filter_outcome(resp.status, resp.body@) {
            Ok(f) => r == Ok::<Filter, ApiError>(f),
            Err(ev) => r matches Err(e) && e@ == ev,
        },
{
    let ok = match validate(resp) {
        Ok(ok) => ok,
        Err(e) => {
            return Err(e);
        },
    };
    let parsed = match parse_json(ok.body.as_str()) {
        Some(v) => v,
        None => {
            return Err(ApiError::MalformedIssue { field: String::from_str("body") });
        },
    };
    decode_filter(&parsed)
}

/// What the search operation returns once the transport has handed back a
/// response with the given status and body text.
pub open spec fn spec_search_outcome(status: u16, body: Seq<char>) -> Result<
    Seq<Issue>,
    ErrorView,
> {
    if status != 200 {
        Err(ErrorView::RequestFailed { status, body })
    } else {
        match json_of(body) {
            Some(v) => match spec_decode_issue_response(v) {
                Ok(issues) => Ok(issues),
                Err(w) => Err(ErrorView::MalformedIssue { field: w }),
            },
            None => Err(ErrorView::MalformedIssue { field: "body"@ }),
        }
    }
}

/// Validates and decodes the response of an issue search, per
/// [`spec_search_outcome`]: only status 200 is accepted, the body must
/// parse as JSON, and every record must decode; no partial batch is
/// returned.
pub fn search_response(resp: HttpResponse) -> (r: Result<Vec<Issue>, ApiError>)
    ensures
        match spec_search_outcome(resp.status, resp.body@) {
            Ok(issues) => r matches Ok(got) && got@ == issues,
            Err(ev) => r matches Err(e) && e@ == ev,
        },
{
    let ok = match validate(resp) {
        Ok(ok) => ok,
        Err(e) => {
            return Err(e);
        },
    };
    let parsed = match parse_json(ok.body.as_str()) {
        Some(v) => v,
        None => {
            return Err(ApiError::MalformedIssue { field: String::from_str("body") });
        },
    };
    decode_issue_response(&parsed)
}

/// Fetching a filter twice against an unchanged backend returns
/// structurally equal filters: the outcome is a function of the response's
/// status and body text alone.
pub proof fn lemma_get_filter_idempotent(r1: HttpResponse, r2: HttpResponse)
    requires
        r1.status == r2.status,
        r1.body@ == r2.body@,
    ensures
        spec_filter_outcome(r1.status, r1.body@) == spec_filter_outcome(r2.status, r2.body@),
{
}

} // verus!
