//! Bookmark-retrieval client: request construction with caller-supplied
//! consumer key and access token, and decoding of the saved-item listing.

use vstd::prelude::*;
use vstd::string::*;
use crate::error::ApiError;
use crate::error::ErrorView;
use crate::http_util::HttpRequest;
use crate::http_util::HttpResponse;
use crate::http_util::Method;
use crate::http_util::validate;
use crate::json::JsonValue;
use crate::json::get_field;
use crate::json::get_text;
use crate::json::json_of;
use crate::json::parse_json;
use crate::json::prepend_decoded;
use crate::strutil::push_quoted;
use crate::strutil::push_u32_digits;
use crate::strutil::spec_quoted;
use crate::strutil::spec_udigits;

verus! {

/// One saved bookmark record.
#[derive(Debug)]
pub struct SavedItem {
    pub item_id: String,
    pub resolved_id: String,
    pub given_url: String,
    pub given_title: String,
    pub time_added: String,
    pub time_updated: String,
    pub resolved_url: String,
    pub resolved_title: String,
    pub excerpt: String,
}

/// The JSON body of a retrieve request: the caller-supplied consumer key
/// and access token, the record count, and the detail level.
pub open spec fn spec_retrieve_body(
    consumer_key: Seq<char>,
    access_token: Seq<char>,
    count: u32,
    detail_type: Seq<char>,
) -> Seq<char> {
    "{\"consumer_key\":"@ + spec_quoted(consumer_key) + ",\"access_token\":"@ + spec_quoted(
        access_token,
    ) + ",\"count\":"@ + spec_udigits(count as nat) + ",\"detailType\":"@ + spec_quoted(
        detail_type,
    ) + "}"@
}

/// Builds the POST request retrieving saved items. The consumer key and
/// access token are request parameters, not resolved from configuration.
pub fn retrieve_request(
    url: &str,
    consumer_key: &str,
    access_token: &str,
    count: u32,
    detail_type: &str,
) -> (r: HttpRequest)
    ensures
        r.method == Method::Post,
        r.url@ == url@,
        r.headers@.len() == 1,
        r.headers@[0].0@ == "Content-Type"@,
        r.headers@[0].1@ == "application/json"@,
        r.query@.len() == 0,
        r.body matches Some(b) && b@ == spec_retrieve_body(
            consumer_key@,
            access_token@,
            count,
            detail_type@,
        ),
        r.auth is None,
{
    let mut headers: Vec<(String, String)> = Vec::new();
    headers.push((String::from_str("Content-Type"), String::from_str("application/json")));
    let mut body = String::from_str("{\"consumer_key\":");
    push_quoted(consumer_key, &mut body);
    body.append(",\"access_token\":");
    push_quoted(access_token, &mut body);
    body.append(",\"count\":");
    push_u32_digits(count, &mut body);
    body.append(",\"detailType\":");
    push_quoted(detail_type, &mut body);
    body.append("}");
    HttpRequest {
        method: Method::Post,
        url: String::from_str(url),
        headers,
        query: Vec::new(),
        body: Some(body),
        auth: None,
    }
}

/// Decodes one saved-item record: every field must be present as a
/// string. The error payload names the first missing field.
pub open spec fn spec_decode_item(v: JsonValue) -> Result<SavedItem, Seq<char>> {
    match get_text(v, "item_id"@) {
        None => Err("item_id"@),
        Some(item_id) => match get_text(v, "resolved_id"@) {
            None => Err("resolved_id"@),
            Some(resolved_id) => match get_text(v, "given_url"@) {
                None => Err("given_url"@),
                Some(given_url) => match get_text(v, "given_title"@) {
                    None => Err("given_title"@),
                    Some(given_title) => match get_text(v, "time_added"@) {
                        None => Err("time_added"@),
                        Some(time_added) => match get_text(v, "time_updated"@) {
                            None => Err("time_updated"@),
                            Some(time_updated) => match get_text(v, "resolved_url"@) {
                                None => Err("resolved_url"@),
                                Some(resolved_url) => match get_text(v, "resolved_title"@) {
                                    None => Err("resolved_title"@),
                                    Some(resolved_title) => match get_text(v, "excerpt"@) {
                                        None => Err("excerpt"@),
                                        Some(excerpt) => Ok(
                                            SavedItem {
                                                item_id,
                                                resolved_id,
                                                given_url,
                                                given_title,
                                                time_added,
                                                time_updated,
                                                resolved_url,
                                                resolved_title,
                                                excerpt,
                                            },
                                        ),
                                    },
                                },
                            },
                        },
                    },
                },
            },
        },
    }
}

/// Decodes one saved-item record, per [`spec_decode_item`].
pub fn decode_item(v: &JsonValue) -> (r: Result<SavedItem, ApiError>)
    ensures
        match spec_decode_item(*v) {
            Ok(t) => r == Ok::<SavedItem, ApiError>(t),
            Err(w) => r matches Err(e) && e@ == (ErrorView::MalformedItem { field: w }),
        },
{
    let item_id = match v.text_field("item_id") {
        Some(s) => s,
        None => {
            return Err(ApiError::MalformedItem { field: String::from_str("item_id") });
        },
    };
    let resolved_id = match v.text_field("resolved_id") {
        Some(s) => s,
        None => {
            return Err(ApiError::MalformedItem { field: String::from_str("resolved_id") });
        },
    };
    let given_url = match v.text_field("given_url") {
        Some(s) => s,
        None => {
            return Err(ApiError::MalformedItem { field: String::from_str("given_url") });
        },
    };
    let given_title = match v.text_field("given_title") {
        Some(s) => s,
        None => {
            return Err(ApiError::MalformedItem { field: String::from_str("given_title") });
        },
    };
    let time_added = match v.text_field("time_added") {
        Some(s) => s,
        None => {
            return Err(ApiError::MalformedItem { field: String::from_str("time_added") });
        },
    };
    let time_updated = match v.text_field("time_updated") {
        Some(s) => s,
        None => {
            return Err(ApiError::MalformedItem { field: String::from_str("time_updated") });
        },
    };
    let resolved_url = match v.text_field("resolved_url") {
        Some(s) => s,
        None => {
            return Err(ApiError::MalformedItem { field: String::from_str("resolved_url") });
        },
    };
    let resolved_title = match v.text_field("resolved_title") {
        Some(s) => s,
        None => {
            return Err(ApiError::MalformedItem { field: String::from_str("resolved_title") });
        },
    };
    let excerpt = match v.text_field("excerpt") {
        Some(s) => s,
        None => {
            return Err(ApiError::MalformedItem { field: String::from_str("excerpt") });
        },
    };
    Ok(
        SavedItem {
            item_id: item_id.clone(),
            resolved_id: resolved_id.clone(),
            given_url: given_url.clone(),
            given_title: given_title.clone(),
            time_added: time_added.clone(),
            time_updated: time_updated.clone(),
            resolved_url: resolved_url.clone(),
            resolved_title: resolved_title.clone(),
            excerpt: excerpt.clone(),
        },
    )
}

/// Decodes the entries of the `list` object in order, keeping each entry's
/// key; the first malformed record fails the whole listing.
pub open spec fn spec_decode_listing(entries: Seq<(String, JsonValue)>) -> Result<
    Seq<(String, SavedItem)>,
    Seq<char>,
> decreases entries.len(),
{
    if entries.len() == 0 {
        Ok(Seq::empty())
    } else {
        match spec_decode_item(entries[0].1) {
            Ok(t) => prepend_decoded(
                seq![(entries[0].0, t)],
                spec_decode_listing(entries.skip(1)),
            ),
            Err(w) => Err(w),
        }
    }
}

/// Decodes a retrieve response document: `list` must be an object mapping
/// item ids to saved-item records.
pub open spec fn spec_decode_retrieve(v: JsonValue) -> Result<Seq<(String, SavedItem)>, Seq<char>> {
    match get_field(v, "list"@) {
        Some(JsonValue::Obj(entries)) => spec_decode_listing(entries@),
        _ => Err("list"@),
    }
}

/// Decodes a retrieve response document, per [`spec_decode_retrieve`]:
/// the mapping of item id to saved item, in document order.
#[verifier::loop_isolation(false)]
pub fn decode_retrieve(v: &JsonValue) -> (r: Result<Vec<(String, SavedItem)>, ApiError>)
    ensures
        match spec_decode_retrieve(*v) {
            Ok(items) => r matches Ok(got) && got@ == items,
            Err(w) => r matches Err(e) && e@ == (ErrorView::MalformedItem { field: w }),
        },
{
    let entries = match v.field("list") {
        Some(JsonValue::Obj(entries)) => entries,
        _ => {
            return Err(ApiError::MalformedItem { field: String::from_str("list") });
        },
    };
    proof {
        assert(spec_decode_retrieve(*v) == spec_decode_listing(entries@));
    }
    let n = entries.len();
    let mut acc: Vec<(String, SavedItem)> = Vec::new();
    let mut i: usize = 0;
    proof {
        assert(entries@.skip(0) =~= entries@);
        match spec_decode_listing(entries@) {
            Ok(items) => {
                assert(Seq::<(String, SavedItem)>::empty() + items =~= items);
            },
            Err(_) => {},
        }
    }
    while i < n
        invariant
            i <= n,
            spec_decode_listing(entries@) == prepend_decoded(
                acc@,
                spec_decode_listing(entries@.skip(i as int)),
            ),
        decreases n - i,
    {
        proof {
            assert(entries@.skip(i as int).len() > 0);
            assert(entries@.skip(i as int)[0] == entries@[i as int]);
            assert(entries@.skip(i as int).skip(1) =~= entries@.skip(i + 1));
        }
        let item = match decode_item(&entries[i].1) {
            Ok(t) => t,
            Err(e) => {
                return Err(e);
            },
        };
        let ghost acc_before = acc@;
        acc.push((entries[i].0.clone(), item));
        proof {
            let rest = spec_decode_listing(entries@.skip(i + 1));
            if rest is Ok {
                assert(acc_before + (seq![(entries@[i as int].0, item)] + rest->Ok_0) =~= acc@
                    + rest->Ok_0);
            }
        }
        i = i + 1;
    }
    proof {
        assert(entries@.skip(n as int) =~= Seq::<(String, JsonValue)>::empty());
        assert(acc@ + Seq::<(String, SavedItem)>::empty() =~= acc@);
    }
    Ok(acc)
}

/// What the retrieve operation returns once the transport has handed back
/// a response with the given status and body text.
pub open spec fn spec_retrieve_outcome(status: u16, body: Seq<char>) -> Result<
    Seq<(String, SavedItem)>,
    ErrorView,
> {
    if status != 200 {
        Err(ErrorView::RequestFailed { status, body })
    } else {
        match json_of(body) {
            Some(v) => match spec_decode_retrieve(v) {
                Ok(items) => Ok(items),
                Err(w) => Err(ErrorView::MalformedItem { field: w }),
            },
            None => Err(ErrorView::MalformedItem { field: "body"@ }),
        }
    }
}

/// Validates and decodes the response of a retrieve call, per
/// [`spec_retrieve_outcome`].
pub fn retrieve_response(resp: HttpResponse) -> (r: Result<Vec<(String, SavedItem)>, ApiError>)
    ensures
        match spec_retrieve_outcome(resp.status, resp.body@) {
            Ok(items) => r matches Ok(got) && got@ == items,
            Err(ev) => r matches Err(e) && e@ == ev,
        },
{
    let ok = match validate(resp) {
        Ok(ok) => ok,
        Err(e) => {
            return Err(e);
        },
    };
    let parsed = match parse_json(ok.body.as_str()) {
        Some(v) => v,
        None => {
            return Err(ApiError::MalformedItem { field: String::from_str("body") });
        },
    };
    decode_retrieve(&parsed)
}

} // verus!
