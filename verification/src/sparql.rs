//! Graph-query client: typed term decoding per the SPARQL results JSON
//! shape, and the request/response halves of the query operation.

use vstd::prelude::*;
use vstd::string::*;
use crate::config::Config;
use crate::config::cfg_get;
use crate::config::password_key;
use crate::config::spec_missing_keys;
use crate::config::username_key;
use crate::error::ApiError;
use crate::error::ErrorView;
use crate::http_util::HttpRequest;
use crate::http_util::HttpResponse;
use crate::http_util::Method;
use crate::http_util::validate;
use crate::json::JsonValue;
use crate::json::get_field;
use crate::json::get_text;
use crate::json::json_of;
use crate::json::prepend_decoded;
use crate::json::parse_json;
use crate::strutil::str_eq;

verus! {

/// The configuration-store prefix naming the graph-query service.
pub const SPARQL_SERVICE_PREFIX: &'static str = "STARDOG";

/// Mathematical view of an [`RdfTerm`]: the same variants over character
/// sequences.
pub enum RdfTermView {
    Iri { value: Seq<char> },
    Literal { value: Seq<char>, datatype: Seq<char> },
    Bnode { value: Seq<char> },
}

/// One typed graph term: a named resource, a literal with a datatype, or
/// an anonymous node. Equality is structural and variant-sensitive.
#[derive(Debug)]
pub enum RdfTerm {
    Iri { value: String },
    Literal { value: String, datatype: String },
    Bnode { value: String },
}

impl View for RdfTerm {
    type V = RdfTermView;

    open spec fn view(&self) -> RdfTermView {
        match self {
            RdfTerm::Iri { value } => RdfTermView::Iri { value: value@ },
            RdfTerm::Literal { value, datatype } => RdfTermView::Literal {
                value: value@,
                datatype: datatype@,
            },
            RdfTerm::Bnode { value } => RdfTermView::Bnode { value: value@ },
        }
    }
}

impl DeepView for RdfTerm {
    type V = RdfTermView;

    open spec fn deep_view(&self) -> RdfTermView {
        self@
    }
}

impl PartialEq for RdfTerm {
    fn eq(&self, other: &RdfTerm) -> (r: bool) {
        match (self, other) {
            (RdfTerm::Iri { value: a }, RdfTerm::Iri { value: b }) => str_eq(
                a.as_str(),
                b.as_str(),
            ),
            (
                RdfTerm::Literal { value: a, datatype: c },
                RdfTerm::Literal { value: b, datatype: d },
            ) => str_eq(a.as_str(), b.as_str()) && str_eq(c.as_str(), d.as_str()),
            (RdfTerm::Bnode { value: a }, RdfTerm::Bnode { value: b }) => str_eq(
                a.as_str(),
                b.as_str(),
            ),
            _ => false,
        }
    }
}

impl vstd::std_specs::cmp::PartialEqSpecImpl for RdfTerm {
    open spec fn obeys_eq_spec() -> bool {
        true
    }

    open spec fn eq_spec(&self, other: &RdfTerm) -> bool {
        self@ == other@
    }
}

/// One result row: variable names bound to terms, looked up first-match.
#[derive(Debug)]
pub struct Solution {
    pub entries: Vec<(String, RdfTerm)>,
}

/// The binding of `key` in a row's entries, if any.
pub open spec fn sol_get(entries: Seq<(String, RdfTerm)>, key: Seq<char>) -> Option<RdfTerm>
    decreases entries.len(),
{
    if entries.len() == 0 {
        None
    } else if entries[0].0@ == key {
        Some(entries[0].1)
    } else {
        sol_get(entries.skip(1), key)
    }
}

proof fn lemma_sol_get_found(entries: Seq<(String, RdfTerm)>, key: Seq<char>, i: int)
    requires
        0 <= i < entries.len(),
        forall|j: int| 0 <= j < i ==> entries[j].0@ != key,
        entries[i].0@ == key,
    ensures
        sol_get(entries, key) == Some(entries[i].1),
    decreases i,
{
    if i > 0 {
        lemma_sol_get_found(entries.skip(1), key, i - 1);
    }
}

proof fn lemma_sol_get_none(entries: Seq<(String, RdfTerm)>, key: Seq<char>)
    requires
        forall|j: int| 0 <= j < entries.len() ==> entries[j].0@ != key,
    ensures
        sol_get(entries, key) is None,
    decreases entries.len(),
{
    if entries.len() > 0 {
        lemma_sol_get_none(entries.skip(1), key);
    }
}

impl Solution {
    /// The term bound to `name`, matching [`sol_get`].
    #[verifier::loop_isolation(false)]
    pub fn get<'a>(&'a self, name: &str) -> (r: Option<&'a RdfTerm>)
        ensures
            match r {
                Some(t) => sol_get(self.entries@, name@) == Some(*t),
                None => sol_get(self.entries@, name@) is None,
            },
    {
        let n = self.entries.len();
        let mut i: usize = 0;
        while i < n
            invariant
                i <= n,
                forall|j: int| 0 <= j < i ==> self.entries@[j].0@ != name@,
            decreases n - i,
        {
            if str_eq(self.entries[i].0.as_str(), name) {
                proof {
                    lemma_sol_get_found(self.entries@, name@, i as int);
                }
                return Some(&self.entries[i].1);
            }
            i = i + 1;
        }
        proof {
            lemma_sol_get_none(self.entries@, name@);
        }
        None
    }

    /// Whether `name` is bound in this row.
    pub fn contains_key(&self, name: &str) -> (r: bool)
        ensures
            r == (sol_get(self.entries@, name@) is Some),
    {
        match self.get(name) {
            Some(_) => true,
            None => false,
        }
    }
}

/// The rows of a result set, in server-returned order.
#[derive(Debug)]
pub struct Bindings {
    pub bindings: Vec<Solution>,
}

/// A decoded query result set.
#[derive(Debug)]
pub struct SelectResult {
    pub results: Bindings,
}

/// Decodes one term object: the `type` discriminant selects the variant,
/// whose required fields must be present as strings. The error payload
/// names the offending discriminant or field.
pub open spec fn spec_decode_term(v: JsonValue) -> Result<RdfTerm, Seq<char>> {
    match get_text(v, "type"@) {
        Some(t) => if t@ == "uri"@ {
            match get_text(v, "value"@) {
                Some(s) => Ok(RdfTerm::Iri { value: s }),
                None => Err("value"@),
            }
        } else if t@ == "literal"@ {
            match (get_text(v, "value"@), get_text(v, "datatype"@)) {
                (Some(s), Some(d)) => Ok(RdfTerm::Literal { value: s, datatype: d }),
                (None, _) => Err("value"@),
                (_, None) => Err("datatype"@),
            }
        } else if t@ == "bnode"@ {
            match get_text(v, "value"@) {
                Some(s) => Ok(RdfTerm::Bnode { value: s }),
                None => Err("value"@),
            }
        } else {
            Err(t@)
        },
        None => Err("type"@),
    }
}

/// Decodes a JSON value into a typed graph term, per [`spec_decode_term`]:
/// an unrecognized discriminant, or a missing required field, is a
/// `MalformedTerm` error and never a default variant.
pub fn decode_term(v: &JsonValue) -> (r: Result<RdfTerm, ApiError>)
    ensures
        match spec_decode_term(*v) {
            Ok(t) => r == Ok::<RdfTerm, ApiError>(t),
            Err(w) => r matches Err(e) && e@ == (ErrorView::MalformedTerm { what: w }),
        },
{
    let t = match v.text_field("type") {
        Some(t) => t,
        None => {
            return Err(ApiError::MalformedTerm { what: String::from_str("type") });
        },
    };
    if str_eq(t.as_str(), "uri") {
        match v.text_field("value") {
            Some(s) => Ok(RdfTerm::Iri { value: s.clone() }),
            None => Err(ApiError::MalformedTerm { what: String::from_str("value") }),
        }
    } else if str_eq(t.as_str(), "literal") {
        let value = match v.text_field("value") {
            Some(s) => s,
            None => {
                return Err(ApiError::MalformedTerm { what: String::from_str("value") });
            },
        };
        match v.text_field("datatype") {
            Some(d) => Ok(RdfTerm::Literal { value: value.clone(), datatype: d.clone() }),
            None => Err(ApiError::MalformedTerm { what: String::from_str("datatype") }),
        }
    } else if str_eq(t.as_str(), "bnode") {
        match v.text_field("value") {
            Some(s) => Ok(RdfTerm::Bnode { value: s.clone() }),
            None => Err(ApiError::MalformedTerm { what: String::from_str("value") }),
        }
    } else {
        Err(ApiError::MalformedTerm { what: t.clone() })
    }
}

/// An unrecognized discriminant always fails, with the discriminant itself
/// as the error payload: no input with an unknown `type` decodes to a term.
pub proof fn lemma_unknown_discriminant_fails(v: JsonValue, t: String)
    requires
        get_text(v, "type"@) == Some(t),
        t@ != "uri"@,
        t@ != "literal"@,
        t@ != "bnode"@,
    ensures
        spec_decode_term(v) == Err::<RdfTerm, Seq<char>>(t@),
{
}

/// A term object whose `value` field is set decodes, for the "uri" and
/// "bnode" discriminants, to the matching variant carrying that value
/// unchanged; with discriminant "literal" it decodes only together with a
/// `datatype` field, and fails without one.
pub proof fn lemma_term_round_trip(v: JsonValue, t: String, s: String)
    requires
        get_text(v, "type"@) == Some(t),
        get_text(v, "value"@) == Some(s),
    ensures
        t@ == "uri"@ ==> spec_decode_term(v) == Ok::<RdfTerm, Seq<char>>(
            RdfTerm::Iri { value: s },
        ),
        t@ == "bnode"@ ==> spec_decode_term(v) == Ok::<RdfTerm, Seq<char>>(
            RdfTerm::Bnode { value: s },
        ),
        t@ == "literal"@ ==> spec_decode_term(v) == match get_text(v, "datatype"@) {
            Some(d) => Ok::<RdfTerm, Seq<char>>(RdfTerm::Literal { value: s, datatype: d }),
            None => Err::<RdfTerm, Seq<char>>("datatype"@),
        },
{
    reveal_strlit("uri");
    reveal_strlit("literal");
    reveal_strlit("bnode");
    assert("uri"@.len() == 3);
    assert("literal"@.len() == 7);
    assert("bnode"@.len() == 5);
}

/// Decodes a row's entries in order; the first malformed term fails the
/// whole row.
pub open spec fn spec_decode_entries(entries: Seq<(String, JsonValue)>) -> Result<
    Seq<(String, RdfTerm)>,
    Seq<char>,
> decreases entries.len(),
{
    if entries.len() == 0 {
        Ok(Seq::empty())
    } else {
        match spec_decode_term(entries[0].1) {
            Ok(t) => prepend_decoded(
                seq![(entries[0].0, t)],
                spec_decode_entries(entries.skip(1)),
            ),
            Err(w) => Err(w),
        }
    }
}

/// Decodes one binding object into a row; anything but an object fails.
pub open spec fn spec_decode_solution(v: JsonValue) -> Result<Seq<(String, RdfTerm)>, Seq<char>> {
    match v {
        JsonValue::Obj(entries) => spec_decode_entries(entries@),
        _ => Err("binding"@),
    }
}

/// Decodes the rows in order; the first malformed row fails the whole
/// result, so no partial result is ever returned.
pub open spec fn spec_decode_solutions(vs: Seq<JsonValue>) -> Result<
    Seq<Seq<(String, RdfTerm)>>,
    Seq<char>,
> decreases vs.len(),
{
    if vs.len() == 0 {
        Ok(Seq::empty())
    } else {
        match spec_decode_solution(vs[0]) {
            Ok(sol) => prepend_decoded(seq![sol], spec_decode_solutions(vs.skip(1))),
            Err(w) => Err(w),
        }
    }
}

/// Decodes a whole response document: `results.bindings` must be an array
/// of binding objects.
pub open spec fn spec_decode_select(v: JsonValue) -> Result<
    Seq<Seq<(String, RdfTerm)>>,
    Seq<char>,
> {
    match get_field(v, "results"@) {
        Some(res) => match get_field(res, "bindings"@) {
            Some(JsonValue::Arr(arr)) => spec_decode_solutions(arr@),
            _ => Err("bindings"@),
        },
        None => Err("results"@),
    }
}

/// Decodes one binding object, per [`spec_decode_solution`].
#[verifier::loop_isolation(false)]
pub fn decode_solution(v: &JsonValue) -> (r: Result<Solution, ApiError>)
    ensures
        match spec_decode_solution(*v) {
            Ok(sol) => r matches Ok(s) && s.entries@ == sol,
            Err(w) => r matches Err(e) && e@ == (ErrorView::MalformedTerm { what: w }),
        },
{
    let entries = match v {
        JsonValue::Obj(entries) => entries,
        _ => {
            return Err(ApiError::MalformedTerm { what: String::from_str("binding") });
        },
    };
    let n = entries.len();
    let mut acc: Vec<(String, RdfTerm)> = Vec::new();
    let mut i: usize = 0;
    proof {
        assert(entries@.skip(0) =~= entries@);
        match spec_decode_entries(entries@) {
            Ok(sol) => {
                assert(Seq::<(String, RdfTerm)>::empty() + sol =~= sol);
            },
            Err(_) => {},
        }
    }
    while i < n
        invariant
            i <= n,
            spec_decode_entries(entries@) == prepend_decoded(
                acc@,
                spec_decode_entries(entries@.skip(i as int)),
            ),
        decreases n - i,
    {
        proof {
            assert(entries@.skip(i as int).len() > 0);
            assert(entries@.skip(i as int)[0] == entries@[i as int]);
            assert(entries@.skip(i as int).skip(1) =~= entries@.skip(i + 1));
        }
        let term = match decode_term(&entries[i].1) {
            Ok(t) => t,
            Err(e) => {
                return Err(e);
            },
        };
        let ghost acc_before = acc@;
        acc.push((entries[i].0.clone(), term));
        proof {
            let rest = spec_decode_entries(entries@.skip(i + 1));
            if rest is Ok {
                assert(acc_before + (seq![(entries@[i as int].0, term)] + rest->Ok_0) =~= acc@
                    + rest->Ok_0);
            }
        }
        i = i + 1;
    }
    proof {
        assert(entries@.skip(n as int) =~= Seq::<(String, JsonValue)>::empty());
        assert(acc@ + Seq::<(String, RdfTerm)>::empty() =~= acc@);
    }
    Ok(Solution { entries: acc })
}

/// Decodes a whole response document, per [`spec_decode_select`].
#[verifier::loop_isolation(false)]
pub fn decode_select(v: &JsonValue) -> (r: Result<SelectResult, ApiError>)
    ensures
        match spec_decode_select(*v) {
            Ok(sols) => r matches Ok(sr) && sr.results.bindings@.len() == sols.len() && (forall|
                k: int,
            |
                0 <= k < sols.len() ==> (#[trigger] sr.results.bindings@[k]).entries@ == sols[k]),
            Err(w) => r matches Err(e) && e@ == (ErrorView::MalformedTerm { what: w }),
        },
{
    let res = match v.field("results") {
        Some(res) => res,
        None => {
            proof {
                assert(spec_decode_select(*v) == Err::<Seq<Seq<(String, RdfTerm)>>, Seq<char>>(
                    "results"@,
                ));
            }
            return Err(ApiError::MalformedTerm { what: String::from_str("results") });
        },
    };
    let arr = match res.field("bindings") {
        Some(JsonValue::Arr(arr)) => arr,
        _ => {
            proof {
                assert(spec_decode_select(*v) == Err::<Seq<Seq<(String, RdfTerm)>>, Seq<char>>(
                    "bindings"@,
                ));
            }
            return Err(ApiError::MalformedTerm { what: String::from_str("bindings") });
        },
    };
    proof {
        assert(get_field(*res, "bindings"@) == Some(JsonValue::Arr(*arr)));
        assert(spec_decode_select(*v) == spec_decode_solutions(arr@));
    }
    let n = arr.len();
    let mut acc: Vec<Solution> = Vec::new();
    let mut i: usize = 0;
    proof {
        assert(arr@.skip(0) =~= arr@);
        assert(acc@.map_values(|s: Solution| s.entries@) =~= Seq::<Seq<(String, RdfTerm)>>::empty());
        match spec_decode_solutions(arr@) {
            Ok(sols) => {
                assert(Seq::<Seq<(String, RdfTerm)>>::empty() + sols =~= sols);
            },
            Err(_) => {},
        }
    }
    while i < n
        invariant
            i <= n,
            acc@.len() == i,
            spec_decode_solutions(arr@) == prepend_decoded(
                acc@.map_values(|s: Solution| s.entries@),
                spec_decode_solutions(arr@.skip(i as int)),
            ),
        decreases n - i,
    {
        proof {
            assert(arr@.skip(i as int).len() > 0);
            assert(arr@.skip(i as int)[0] == arr@[i as int]);
            assert(arr@.skip(i as int).skip(1) =~= arr@.skip(i + 1));
        }
        let sol = match decode_solution(&arr[i]) {
            Ok(s) => s,
            Err(e) => {
                proof {
                    assert(spec_decode_solutions(arr@.skip(i as int)) is Err);
                    assert(spec_decode_select(*v) is Err);
                }
                return Err(e);
            },
        };
        let ghost acc_before = acc@;
        acc.push(sol);
        proof {
            assert(acc@.map_values(|s: Solution| s.entries@) =~= acc_before.map_values(
                |s: Solution| s.entries@,
            ).push(sol.entries@));
            let rest = spec_decode_solutions(arr@.skip(i + 1));
            if rest is Ok {
                assert(acc_before.map_values(|s: Solution| s.entries@) + (seq![sol.entries@]
                    + rest->Ok_0) =~= acc@.map_values(|s: Solution| s.entries@) + rest->Ok_0);
            }
        }
        i = i + 1;
    }
    proof {
        assert(arr@.skip(n as int) =~= Seq::<JsonValue>::empty());
        let accmap = acc@.map_values(|s: Solution| s.entries@);
        match spec_decode_solutions(arr@) {
            Ok(sols) => {
                assert(accmap + Seq::<Seq<(String, RdfTerm)>>::empty() =~= accmap);
                assert(sols == accmap);
            },
            Err(_) => {},
        }
    }
    Ok(SelectResult { results: Bindings { bindings: acc } })
}

/// What the query operation returns once the transport has handed back a
/// response with the given status and body text.
pub open spec fn spec_select_outcome(status: u16, body: Seq<char>) -> Result<
    Seq<Seq<(String, RdfTerm)>>,
    ErrorView,
> {
    if status != 200 {
        Err(ErrorView::RequestFailed { status, body })
    } else {
        match json_of(body) {
            Some(v) => match spec_decode_select(v) {
                Ok(sols) => Ok(sols),
                Err(w) => Err(ErrorView::MalformedTerm { what: w }),
            },
            None => Err(ErrorView::MalformedTerm { what: "body"@ }),
        }
    }
}

/// Context used to interact with one graph-query endpoint: immutable
/// configuration, no shared mutable state.
#[derive(Debug)]
pub struct SparqlContext {
    /// Endpoint URL including the database name, but not the trailing
    /// `/query`.
    pub endpoint: String,
    /// Whether the endpoint is asked to apply reasoning.
    pub reasoning: bool,
}

impl SparqlContext {
    /// Builds the GET request of the query operation: credentials for the
    /// graph-query service attached as basic auth, the query text and the
    /// reasoning flag as query-string parameters, and an accept header
    /// asking for the SPARQL results JSON media type.
    pub fn query_request(&self, cfg: &Config, sparql_query: &str) -> (r: Result<
        HttpRequest,
        ApiError,
    >)
        ensures
            r is Ok <==> (cfg_get(cfg@, username_key(SPARQL_SERVICE_PREFIX@)) is Some && cfg_get(
                cfg@,
                password_key(SPARQL_SERVICE_PREFIX@),
            ) is Some),
            r matches Err(e) ==> e@ == (ErrorView::MissingCredentials {
                missing: spec_missing_keys(cfg@, SPARQL_SERVICE_PREFIX@),
            }),
            r matches Ok(req) ==> {
                &&& req.method == Method::Get
                &&& req.url@ == self.endpoint@ + "/query"@
                &&& req.headers@.len() == 1
                &&& req.headers@[0].0@ == "Accept"@
                &&& req.headers@[0].1@ == "application/sparql-results+json"@
                &&& req.query@.len() == 2
                &&& req.query@[0].0@ == "query"@
                &&& req.query@[0].1@ == sparql_query@
                &&& req.query@[1].0@ == "reasoning"@
                &&& req.query@[1].1@ == (if self.reasoning {
                    "true"@
                } else {
                    "false"@
                })
                &&& req.body is None
                &&& req.auth matches Some(c) && Some(c.username@) == cfg_get(
                    cfg@,
                    username_key(SPARQL_SERVICE_PREFIX@),
                ) && Some(c.password@) == cfg_get(cfg@, password_key(SPARQL_SERVICE_PREFIX@))
            },
    {
        let creds = match crate::config::resolve(cfg, SPARQL_SERVICE_PREFIX) {
            Ok(c) => c,
            Err(e) => {
                return Err(e);
            },
        };
        let url = self.endpoint.clone().concat("/query");
        let mut headers: Vec<(String, String)> = Vec::new();
        headers.push(
            (String::from_str("Accept"), String::from_str("application/sparql-results+json")),
        );
        let mut query: Vec<(String, String)> = Vec::new();
        query.push((String::from_str("query"), String::from_str(sparql_query)));
        let reasoning = if self.reasoning {
            String::from_str("true")
        } else {
            String::from_str("false")
        };
        query.push((String::from_str("reasoning"), reasoning));
        Ok(
            HttpRequest {
                method: Method::Get,
                url,
                headers,
                query,
                body: None,
                auth: Some(creds),
            },
        )
    }

    /// Validates and decodes the response of the query operation, per
    /// [`spec_select_outcome`]: only status 200 is accepted, the body must
    /// parse as JSON, and every binding must decode; no partial result is
    /// returned.
    pub fn query_response(&self, resp: HttpResponse) -> (r: Result<SelectResult, ApiError>)
        ensures
            match spec_select_outcome(resp.status, resp.body@) {
                Ok(sols) => r matches Ok(sr) && sr.results.bindings@.len() == sols.len() && (forall|
                    k: int,
                |
                    0 <= k < sols.len() ==> (#[trigger] sr.results.bindings@[k]).entries@
                        == sols[k]),
                Err(ev) => r matches Err(e) && e@ == ev,
            },
    {
        let ok = match validate(resp) {
            Ok(ok) => ok,
            Err(e) => {
                return Err(e);
            },
        };
        let parsed = match parse_json(ok.body.as_str()) {
            Some(v) => v,
            None => {
                return Err(ApiError::MalformedTerm { what: String::from_str("body") });
            },
        };
        decode_select(&parsed)
    }
}

} // verus!
