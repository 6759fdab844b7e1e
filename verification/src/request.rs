//! Building the outgoing request: a GET URL with a query string when no
//! liquidity changes are simulated, a POST JSON body otherwise.

use vstd::prelude::*;
use crate::encode::{
    bool_str, bool_text, dec_digits, dec_int, json_string, push_i64_decimal, push_json_string,
    push_u64_decimal,
};
use crate::models::{FindRouterParams, FloatText, PreSwapLpChangeParams};

verus! {

/// The fixed base URL used when the caller supplies no endpoint.
pub open spec fn default_endpoint_text() -> Seq<char> {
    "https://api-sui.cetus.zone/router_v2"@
}

/// The protocol/client-version marker appended to every GET query.
pub open spec fn version_marker_text() -> Seq<char> {
    "&v=1000327"@
}

/// A query-string or JSON field for an optional number: the key followed
/// by the decimal rendering when present, nothing at all when absent.
pub open spec fn opt_num_field(key: Seq<char>, v: Option<u32>) -> Seq<char> {
    match v {
        Some(x) => key + dec_digits(x as nat),
        None => Seq::empty(),
    }
}

/// A field for an optional raw text value: the key followed by the text
/// when present, nothing at all when absent.
pub open spec fn opt_text_field(key: Seq<char>, v: Option<String>) -> Seq<char> {
    match v {
        Some(s) => key + s@,
        None => Seq::empty(),
    }
}

/// A field for an optional float rendering, spliced in raw — its shape
/// keeps both the query string and the JSON body well-formed: the key
/// followed by the rendering when present, nothing at all when absent.
pub open spec fn opt_float_field(key: Seq<char>, v: Option<FloatText>) -> Seq<char> {
    match v {
        Some(t) => key + t@,
        None => Seq::empty(),
    }
}

/// A JSON field for an optional string value: the key followed by the
/// escaped and quoted text when present, nothing at all when absent.
pub open spec fn opt_json_text_field(key: Seq<char>, v: Option<String>) -> Seq<char> {
    match v {
        Some(s) => key + json_string(s@),
        None => Seq::empty(),
    }
}

/// The items joined with a single comma between each pair, in order.
pub open spec fn comma_joined(items: Seq<String>) -> Seq<char>
    decreases items.len(),
{
    if items.len() == 0 {
        Seq::empty()
    } else if items.len() == 1 {
        items[0]@
    } else {
        comma_joined(items.drop_last()) + seq![','] + items.last()@
    }
}

/// The provider allow-list in the GET query: present only when the list
/// itself is present and non-empty.
pub open spec fn providers_query_field(v: Option<Vec<String>>) -> Seq<char> {
    match v {
        Some(ps) => if ps@.len() == 0 {
            Seq::empty()
        } else {
            "&providers="@ + comma_joined(ps@)
        },
        None => Seq::empty(),
    }
}

/// The provider allow-list in the POST body: the comma-joined list as one
/// JSON string, present only when the list is present and non-empty, the
/// same presence rule as the GET query.
pub open spec fn providers_json_field(v: Option<Vec<String>>) -> Seq<char> {
    match v {
        Some(ps) => if ps@.len() == 0 {
            Seq::empty()
        } else {
            ",\"providers\":"@ + json_string(comma_joined(ps@))
        },
        None => Seq::empty(),
    }
}

/// One liquidity change as a JSON object with the wire key names.
pub open spec fn lp_change_json(c: PreSwapLpChangeParams) -> Seq<char> {
    "{\"pool\":"@ + json_string(c.pool_id@) + ",\"tick_lower\":"@ + dec_int(c.tick_lower as int)
        + ",\"tick_upper\":"@ + dec_int(c.tick_upper as int) + ",\"delta_liquidity\":"@ + dec_int(
        c.delta_liquidity as int,
    ) + "}"@
}

/// The liquidity changes as the elements of a JSON array, in order.
pub open spec fn lp_changes_json(cs: Seq<PreSwapLpChangeParams>) -> Seq<char>
    decreases cs.len(),
{
    if cs.len() == 0 {
        Seq::empty()
    } else if cs.len() == 1 {
        lp_change_json(cs[0])
    } else {
        lp_changes_json(cs.drop_last()) + seq![','] + lp_change_json(cs.last())
    }
}

/// The liquidity-change array field of the POST body, present whenever
/// the list is present.
pub open spec fn lp_changes_field(v: Option<Vec<PreSwapLpChangeParams>>) -> Seq<char> {
    match v {
        Some(cs) => ",\"liquidity_changes\":["@ + lp_changes_json(cs@) + "]"@,
        None => Seq::empty(),
    }
}

/// The full GET URL for a query: endpoint, path, the required fields,
/// each optional field only when present, and the version marker last.
pub open spec fn get_url_of(endpoint: Seq<char>, p: FindRouterParams) -> Seq<char> {
    endpoint + "/find_routes?from="@ + p.from@ + "&target="@ + p.target@ + "&amount="@ + p.amount@
        + "&by_amount_in="@ + bool_text(p.by_amount_in) + opt_num_field("&depth="@, p.depth)
        + opt_text_field("&split_algorithm="@, p.split_algorithm) + opt_float_field(
        "&split_factor="@,
        p.split_factor,
    ) + opt_num_field("&split_count="@, p.split_count) + providers_query_field(p.providers)
        + version_marker_text()
}

/// The URL a POST request is sent to.
pub open spec fn post_url_of(endpoint: Seq<char>) -> Seq<char> {
    endpoint + "/find_routes"@
}

/// The full POST JSON body for a query: the required fields with the
/// amount as a quoted decimal string, each optional field only when
/// present, and the liquidity-change array when present.
pub open spec fn post_body_of(p: FindRouterParams) -> Seq<char> {
    "{\"from\":"@ + json_string(p.from@) + ",\"target\":"@ + json_string(p.target@)
        + ",\"amount\":"@ + json_string(p.amount@) + ",\"by_amount_in\":"@ + bool_text(
        p.by_amount_in,
    ) + opt_num_field(",\"depth\":"@, p.depth) + opt_json_text_field(
        ",\"split_algorithm\":"@,
        p.split_algorithm,
    ) + opt_float_field(",\"split_factor\":"@, p.split_factor) + opt_num_field(
        ",\"split_count\":"@,
        p.split_count,
    ) + providers_json_field(p.providers) + lp_changes_field(p.liquidity_changes) + "}"@
}

/// Whether a query must be sent as a POST: exactly when the
/// liquidity-change list is present and non-empty.
pub open spec fn wants_post(p: FindRouterParams) -> bool {
    match p.liquidity_changes {
        Some(cs) => cs@.len() > 0,
        None => false,
    }
}

/// The request to send for one query: a GET URL, or a POST URL with its
/// JSON body.
#[derive(Debug, Clone, PartialEq)]
pub enum RouterRequest {
    /// A GET of the URL, with all fields in the query string.
    Get { url: String },
    /// A POST of the JSON body to the URL.
    Post { url: String, body: String },
}

/// The amount stands in the POST body as a quoted decimal string,
/// verbatim: JSON escaping changes no digit, so the quoted text is the
/// amount's own rendering, never a native numeric literal.
pub proof fn lemma_amount_json_verbatim(a: crate::models::Amount)
    requires
        a.wf(),
    ensures
        json_string(a@) == seq!['"'] + a@ + seq!['"'],
{
    crate::encode::lemma_json_escape_digits(a@);
}

/// Completes a shortened asset identifier to its full form. Completion is
/// a pass-through: the identifier is returned unchanged.
pub fn completion_coin(coin: &str) -> (r: String)
    ensures
        r@ == coin@,
{
    coin.to_owned()
}

/// The endpoint a client will use: the caller's override when one was
/// given, the fixed default base URL otherwise.
pub fn resolve_endpoint(endpoint: Option<String>) -> (r: String)
    ensures
        match endpoint {
            Some(e) => r@ == e@,
            None => r@ == default_endpoint_text(),
        },
{
    match endpoint {
        Some(e) => e,
        None => "https://api-sui.cetus.zone/router_v2".to_owned(),
    }
}

/// Appends the items joined with commas.
fn push_comma_joined(s: &mut String, items: &Vec<String>)
    ensures
        final(s)@ == old(s)@ + comma_joined(items@),
{
    let mut i: usize = 0;
    while i < items.len()
        invariant
            i <= items@.len(),
            s@ == old(s)@ + comma_joined(items@.take(i as int)),
        decreases items@.len() - i,
    {
        if i > 0 {
            s.append(",");
        }
        s.append(items[i].as_str());
        proof {
            reveal_strlit(",");
            assert(items@.take(i as int + 1).drop_last() =~= items@.take(i as int));
            assert(s@ =~= old(s)@ + comma_joined(items@.take(i as int + 1)));
        }
        i = i + 1;
    }
    proof {
        assert(items@.take(items@.len() as int) =~= items@);
    }
}

/// Appends an optional numeric field: the key and the decimal rendering
/// when present, nothing when absent.
fn push_opt_num_field(s: &mut String, key: &str, v: Option<u32>)
    ensures
        final(s)@ == old(s)@ + opt_num_field(key@, v),
{
    if let Some(x) = v {
        s.append(key);
        push_u64_decimal(s, x as u64);
        proof {
            assert(s@ =~= old(s)@ + opt_num_field(key@, v));
        }
    } else {
        proof {
            assert(s@ =~= old(s)@ + opt_num_field(key@, v));
        }
    }
}

/// Appends an optional raw text field: the key and the text when present,
/// nothing when absent.
fn push_opt_text_field(s: &mut String, key: &str, v: &Option<String>)
    ensures
        final(s)@ == old(s)@ + opt_text_field(key@, *v),
{
    if let Some(t) = v {
        s.append(key);
        s.append(t.as_str());
        proof {
            assert(s@ =~= old(s)@ + opt_text_field(key@, *v));
        }
    } else {
        proof {
            assert(s@ =~= old(s)@ + opt_text_field(key@, *v));
        }
    }
}

/// Appends an optional float field: the key and the rendering when
/// present, nothing when absent.
fn push_opt_float_field(s: &mut String, key: &str, v: &Option<FloatText>)
    ensures
        final(s)@ == old(s)@ + opt_float_field(key@, *v),
{
    if let Some(t) = v {
        s.append(key);
        s.append(t.as_text());
        proof {
            assert(s@ =~= old(s)@ + opt_float_field(key@, *v));
        }
    } else {
        proof {
            assert(s@ =~= old(s)@ + opt_float_field(key@, *v));
        }
    }
}

/// Appends an optional JSON string field: the key and the escaped,
/// quoted text when present, nothing when absent.
fn push_opt_json_text_field(s: &mut String, key: &str, v: &Option<String>)
    ensures
        final(s)@ == old(s)@ + opt_json_text_field(key@, *v),
{
    if let Some(t) = v {
        s.append(key);
        push_json_string(s, t.as_str());
        proof {
            assert(s@ =~= old(s)@ + opt_json_text_field(key@, *v));
        }
    } else {
        proof {
            assert(s@ =~= old(s)@ + opt_json_text_field(key@, *v));
        }
    }
}

/// Appends the provider field of the GET query: only a present,
/// non-empty list produces it.
fn push_providers_query(s: &mut String, v: &Option<Vec<String>>)
    ensures
        final(s)@ == old(s)@ + providers_query_field(*v),
{
    if let Some(ps) = v {
        if ps.len() > 0 {
            s.append("&providers=");
            push_comma_joined(s, ps);
        }
    }
    proof {
        assert(s@ =~= old(s)@ + providers_query_field(*v));
    }
}

/// Appends the provider field of the POST body: only a present,
/// non-empty list produces one comma-joined JSON string.
fn push_providers_json(s: &mut String, v: &Option<Vec<String>>)
    ensures
        final(s)@ == old(s)@ + providers_json_field(*v),
{
    if let Some(ps) = v {
        if ps.len() > 0 {
            s.append(",\"providers\":");
            let mut joined = String::new();
            push_comma_joined(&mut joined, ps);
            push_json_string(s, joined.as_str());
        }
    }
    proof {
        assert(s@ =~= old(s)@ + providers_json_field(*v));
    }
}

/// Builds the GET URL for a query against the given endpoint.
pub fn build_get_url(endpoint: &str, params: &FindRouterParams) -> (r: String)
    ensures
        r@ == get_url_of(endpoint@, *params),
{
    let from_coin = completion_coin(params.from.as_str());
    let target_coin = completion_coin(params.target.as_str());
    let mut url = endpoint.to_owned();
    url.append("/find_routes?from=");
    url.append(from_coin.as_str());
    url.append("&target=");
    url.append(target_coin.as_str());
    url.append("&amount=");
    url.append(params.amount.as_decimal());
    url.append("&by_amount_in=");
    url.append(bool_str(params.by_amount_in));
    push_opt_num_field(&mut url, "&depth=", params.depth);
    push_opt_text_field(&mut url, "&split_algorithm=", &params.split_algorithm);
    push_opt_float_field(&mut url, "&split_factor=", &params.split_factor);
    push_opt_num_field(&mut url, "&split_count=", params.split_count);
    push_providers_query(&mut url, &params.providers);
    url.append("&v=1000327");
    proof {
        assert(url@ =~= get_url_of(endpoint@, *params));
    }
    url
}

/// Appends one liquidity change as a JSON object.
fn push_lp_change(s: &mut String, c: &PreSwapLpChangeParams)
    ensures
        final(s)@ == old(s)@ + lp_change_json(*c),
{
    s.append("{\"pool\":");
    push_json_string(s, c.pool_id.as_str());
    s.append(",\"tick_lower\":");
    push_i64_decimal(s, c.tick_lower as i64);
    s.append(",\"tick_upper\":");
    push_i64_decimal(s, c.tick_upper as i64);
    s.append(",\"delta_liquidity\":");
    push_i64_decimal(s, c.delta_liquidity);
    s.append("}");
    proof {
        assert(s@ =~= old(s)@ + lp_change_json(*c));
    }
}

/// Appends the liquidity-change array field of the POST body: a present
/// list produces the array, in order.
fn push_lp_changes_field(s: &mut String, v: &Option<Vec<PreSwapLpChangeParams>>)
    ensures
        final(s)@ == old(s)@ + lp_changes_field(*v),
{
    if let Some(cs) = v {
        s.append(",\"liquidity_changes\":[");
        let ghost opened: Seq<char> = s@;
        let mut i: usize = 0;
        while i < cs.len()
            invariant
                i <= cs@.len(),
                s@ == opened + lp_changes_json(cs@.take(i as int)),
            decreases cs@.len() - i,
        {
            if i > 0 {
                s.append(",");
            }
            push_lp_change(s, &cs[i]);
            proof {
                reveal_strlit(",");
                assert(cs@.take(i as int + 1).drop_last() =~= cs@.take(i as int));
                assert(s@ =~= opened + lp_changes_json(cs@.take(i as int + 1)));
            }
            i = i + 1;
        }
        proof {
            assert(cs@.take(cs@.len() as int) =~= cs@);
        }
        s.append("]");
    }
    proof {
        assert(s@ =~= old(s)@ + lp_changes_field(*v));
    }
}

/// Builds the POST JSON body for a query.
pub fn build_post_body(params: &FindRouterParams) -> (r: String)
    ensures
        r@ == post_body_of(*params),
{
    let from_coin = completion_coin(params.from.as_str());
    let target_coin = completion_coin(params.target.as_str());
    let mut body = String::new();
    body.append("{\"from\":");
    push_json_string(&mut body, from_coin.as_str());
    body.append(",\"target\":");
    push_json_string(&mut body, target_coin.as_str());
    body.append(",\"amount\":");
    push_json_string(&mut body, params.amount.as_decimal());
    body.append(",\"by_amount_in\":");
    body.append(bool_str(params.by_amount_in));
    push_opt_num_field(&mut body, ",\"depth\":", params.depth);
    push_opt_json_text_field(&mut body, ",\"split_algorithm\":", &params.split_algorithm);
    push_opt_float_field(&mut body, ",\"split_factor\":", &params.split_factor);
    push_opt_num_field(&mut body, ",\"split_count\":", params.split_count);
    push_providers_json(&mut body, &params.providers);
    push_lp_changes_field(&mut body, &params.liquidity_changes);
    body.append("}");
    proof {
        assert(body@ =~= post_body_of(*params));
    }
    body
}

/// Builds the request for one query: a POST with the JSON body exactly
/// when the liquidity-change list is present and non-empty, a GET with
/// the query-string URL otherwise.
pub fn build_find_routers_request(endpoint: &str, params: &FindRouterParams) -> (r: RouterRequest)
    ensures
        wants_post(*params) ==> (r matches RouterRequest::Post { url, body } && url@ == post_url_of(
            endpoint@,
        ) && body@ == post_body_of(*params)),
        !wants_post(*params) ==> (r matches RouterRequest::Get { url } && url@ == get_url_of(
            endpoint@,
            *params,
        )),
{
    let is_post = match &params.liquidity_changes {
        Some(cs) => cs.len() > 0,
        None => false,
    };
    if is_post {
        let mut url = endpoint.to_owned();
        url.append("/find_routes");
        let body = build_post_body(params);
        RouterRequest::Post { url, body }
    } else {
        RouterRequest::Get { url: build_get_url(endpoint, params) }
    }
}

} // verus!
