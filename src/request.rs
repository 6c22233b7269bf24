use vstd::prelude::*;

use crate::headers::{merge_spec, unique_names, upsert, HeaderStore};
use crate::method::{method_of, parse_method, upper_of, HttpMethod, RequestError};
use crate::resolve::{pairs_view, resolve, resolve_path_params};
use crate::response::{content_type_value, ContentType};
use crate::text::{chars_of, string_of};

verus! {

/// The JSON text of an object holding the given string members.
pub uninterp spec fn json_object_text(pairs: Seq<(Seq<char>, Seq<char>)>) -> Seq<char>;

/// Relies on `serde_json::to_string`: a map of strings to strings is written as one
/// JSON object with a string member for each key. The names are distinct, so the map
/// holds every pair.
#[verifier::external_body]
fn json_object(pairs: &Vec<(String, String)>) -> (r: String)
    requires
        unique_names(pairs_view(pairs@)),
    ensures
        r@ == json_object_text(pairs_view(pairs@)),
{
    let m: std::collections::BTreeMap<&str, &str> = pairs.iter().map(
        |p| (p.0.as_str(), p.1.as_str()),
    ).collect();
    serde_json::to_string(&m).unwrap_or_default()
}

/// One `name=value` member of a form text.
pub open spec fn form_member(p: (Seq<char>, Seq<char>)) -> Seq<char> {
    p.0 + seq!['='] + p.1
}

/// The members `name=value` joined by `&`, values written as they are.
pub open spec fn form_text(ps: Seq<(Seq<char>, Seq<char>)>) -> Seq<char>
    decreases ps.len(),
{
    if ps.len() == 0 {
        Seq::empty()
    } else if ps.len() == 1 {
        form_member(ps[0])
    } else {
        form_text(ps.drop_last()) + seq!['&'] + form_member(ps.last())
    }
}

fn append_str(out: &mut Vec<char>, s: &str)
    ensures
        final(out)@ == old(out)@ + s@,
{
    let cs = chars_of(s);
    let ghost start = out@;
    let mut i: usize = 0;
    while i < cs.len()
        invariant
            i <= cs.len(),
            out@ == start + cs@.subrange(0, i as int),
        decreases cs.len() - i,
    {
        out.push(cs[i]);
        i = i + 1;
        assert(out@ =~= start + cs@.subrange(0, i as int));
    }
    assert(cs@.subrange(0, i as int) =~= cs@);
}

/// The body text of a form: `name=value` members joined by `&`, nothing escaped.
pub fn form_body(pairs: &Vec<(String, String)>) -> (r: String)
    ensures
        r@ == form_text(pairs_view(pairs@)),
{
    let ghost ps = pairs_view(pairs@);
    let mut out: Vec<char> = Vec::new();
    let mut i: usize = 0;
    while i < pairs.len()
        invariant
            i <= pairs.len(),
            ps == pairs_view(pairs@),
            out@ == form_text(ps.subrange(0, i as int)),
        decreases pairs.len() - i,
    {
        let ghost before = out@;
        if i > 0 {
            out.push('&');
        }
        append_str(&mut out, pairs[i].0.as_str());
        out.push('=');
        append_str(&mut out, pairs[i].1.as_str());
        proof {
            let pre = ps.subrange(0, i + 1);
            assert(pre.drop_last() =~= ps.subrange(0, i as int));
            assert(pre.last() == ps[i as int]);
            if i == 0 {
                assert(out@ =~= form_member(ps[0]));
            } else {
                assert(out@ =~= before + seq!['&'] + form_member(ps[i as int]));
            }
        }
        i = i + 1;
    }
    assert(ps.subrange(0, i as int) =~= ps);
    string_of(&out)
}

/// What a request carries once planned: method, resolved URL, header fields,
/// query parameters and body.
pub struct RequestPlan {
    pub method: HttpMethod,
    pub url: String,
    pub headers: HeaderStore,
    pub query: Vec<(String, String)>,
    pub body: Option<String>,
}

/// The view of a planned request.
pub struct PlanView {
    pub method: HttpMethod,
    pub url: Seq<char>,
    pub headers: Seq<(Seq<char>, Seq<char>)>,
    pub query: Seq<(Seq<char>, Seq<char>)>,
    pub body: Option<Seq<char>>,
}

/// The view of an optional text.
pub open spec fn text_view(o: Option<String>) -> Option<Seq<char>> {
    match o {
        Some(s) => Some(s@),
        None => None,
    }
}

/// The view of an optional list of parameters.
pub open spec fn opt_pairs(o: Option<Vec<(String, String)>>) -> Option<
    Seq<(Seq<char>, Seq<char>)>,
> {
    match o {
        Some(v) => Some(pairs_view(v@)),
        None => None,
    }
}

/// An absent list, or a list in which no name appears twice.
pub open spec fn opt_unique(o: Option<Seq<(Seq<char>, Seq<char>)>>) -> bool {
    match o {
        Some(s) => unique_names(s),
        None => true,
    }
}

/// An absent list read as the empty one.
pub open spec fn or_empty(o: Option<Seq<(Seq<char>, Seq<char>)>>) -> Seq<(Seq<char>, Seq<char>)> {
    match o {
        Some(s) => s,
        None => Seq::empty(),
    }
}

impl RequestPlan {
    pub open spec fn view(&self) -> PlanView {
        PlanView {
            method: self.method,
            url: self.url@,
            headers: self.headers.view(),
            query: pairs_view(self.query@),
            body: text_view(self.body),
        }
    }
}

/// The header fields of a request: the defaults, then the extra fields set over
/// them, then the `Content-Type` of the body; `None` when an extra field is invalid.
pub open spec fn request_headers(
    defaults: Seq<(Seq<char>, Seq<char>)>,
    extra: Seq<(Seq<char>, Seq<char>)>,
    ct: ContentType,
) -> Option<Seq<(Seq<char>, Seq<char>)>> {
    match merge_spec(defaults, extra) {
        Some(h) => Some(upsert(h, "content-type"@, content_type_value(ct))),
        None => None,
    }
}

/// The body of a request: none for GET; otherwise the body parameters, if any,
/// as a JSON object or as a form text.
pub open spec fn request_body(
    m: HttpMethod,
    body: Option<Seq<(Seq<char>, Seq<char>)>>,
    ct: ContentType,
) -> Option<Seq<char>> {
    if m == HttpMethod::GET {
        None
    } else {
        match body {
            Some(b) => Some(
                match ct {
                    ContentType::JSON => json_object_text(b),
                    ContentType::TEXT => form_text(b),
                },
            ),
            None => None,
        }
    }
}

/// The request that a call makes; `None` when the method is not supported or an
/// extra header field is invalid. The template is resolved against the path
/// parameters; for GET the parameters left over become the query, for other
/// methods no query is sent.
pub open spec fn request_plan(
    defaults: Seq<(Seq<char>, Seq<char>)>,
    method: Seq<char>,
    template: Seq<char>,
    extra: Option<Seq<(Seq<char>, Seq<char>)>>,
    body: Option<Seq<(Seq<char>, Seq<char>)>>,
    params: Option<Seq<(Seq<char>, Seq<char>)>>,
    ct: ContentType,
) -> Option<PlanView> {
    match method_of(method) {
        None => None,
        Some(m) => match request_headers(defaults, or_empty(extra), ct) {
            None => None,
            Some(h) => {
                let (url, left) = resolve(template, or_empty(params));
                Some(
                    PlanView {
                        method: m,
                        url,
                        headers: h,
                        query: if m == HttpMethod::GET {
                            left
                        } else {
                            Seq::empty()
                        },
                        body: request_body(m, body, ct),
                    },
                )
            },
        },
    }
}

/// Where parameters go: a GET sends the parameters whose placeholder was not found
/// in the template as query parameters and sends no body; a call of any other method
/// with body parameters and the JSON content type sends the JSON object of those
/// parameters as its body and no query parameters.
pub proof fn lemma_parameter_placement(
    defaults: Seq<(Seq<char>, Seq<char>)>,
    method: Seq<char>,
    template: Seq<char>,
    extra: Option<Seq<(Seq<char>, Seq<char>)>>,
    body: Option<Seq<(Seq<char>, Seq<char>)>>,
    params: Option<Seq<(Seq<char>, Seq<char>)>>,
    ct: ContentType,
)
    requires
        request_plan(defaults, method, template, extra, body, params, ct) is Some,
    ensures
        ({
            let p = request_plan(defaults, method, template, extra, body, params, ct)->0;
            &&& method_of(method) == Some(HttpMethod::GET) ==> p.query == resolve(
                template,
                or_empty(params),
            ).1 && p.body is None
            &&& (method_of(method) != Some(HttpMethod::GET) && body is Some && ct
                == ContentType::JSON) ==> p.body == Some(json_object_text(body->0))
                && p.query.len() == 0
        }),
{
}

/// Method names with the same upper-case form make the same request, so "get",
/// "GET" and "Get" all make the same GET.
pub proof fn lemma_method_case_same_request(
    defaults: Seq<(Seq<char>, Seq<char>)>,
    a: Seq<char>,
    b: Seq<char>,
    template: Seq<char>,
    extra: Option<Seq<(Seq<char>, Seq<char>)>>,
    body: Option<Seq<(Seq<char>, Seq<char>)>>,
    params: Option<Seq<(Seq<char>, Seq<char>)>>,
    ct: ContentType,
)
    requires
        upper_of(a) == upper_of(b),
    ensures
        request_plan(defaults, a, template, extra, body, params, ct) == request_plan(
            defaults,
            b,
            template,
            extra,
            body,
            params,
            ct,
        ),
{
}

fn headers_for(defaults: &HeaderStore, extra: &Option<Vec<(String, String)>>) -> (r: Result<
    HeaderStore,
    RequestError,
>)
    ensures
        match merge_spec(defaults.view(), or_empty(opt_pairs(*extra))) {
            Some(s) => r matches Ok(h) && h.view() == s,
            None => r matches Err(RequestError::InvalidHeader(_)),
        },
{
    match extra {
        Some(e) => defaults.merged(e),
        None => {
            let h = defaults.copy();
            proof {
                reveal_with_fuel(merge_spec, 1);
            }
            Ok(h)
        },
    }
}

/// Plans a call: checks the method (case aside), merges the header fields, sets the
/// `Content-Type`, resolves the URL template and places the parameters in the
/// query or the body. An unsupported method is refused before anything else.
pub fn plan_request(
    defaults: &HeaderStore,
    method: &str,
    template: &str,
    extra_headers: &Option<Vec<(String, String)>>,
    body_params: &Option<Vec<(String, String)>>,
    path_params: &Option<Vec<(String, String)>>,
    content_type: ContentType,
) -> (r: Result<RequestPlan, RequestError>)
    requires
        opt_unique(opt_pairs(*body_params)),
        opt_unique(opt_pairs(*path_params)),
    ensures
        match request_plan(
            defaults.view(),
            method@,
            template@,
            opt_pairs(*extra_headers),
            opt_pairs(*body_params),
            opt_pairs(*path_params),
            content_type,
        ) {
            Some(v) => r matches Ok(p) && p.view() == v,
            None => r is Err,
        },
        method_of(method@) is None ==> (r matches Err(RequestError::UnsupportedMethod(n)) && n@
            == method@),
        method_of(method@) is Some && request_headers(
            defaults.view(),
            or_empty(opt_pairs(*extra_headers)),
            content_type,
        ) is None ==> r matches Err(RequestError::InvalidHeader(_)),
{
    let m = match parse_method(method) {
        Ok(m) => m,
        Err(e) => return Err(e),
    };
    let mut headers = match headers_for(defaults, extra_headers) {
        Ok(h) => h,
        Err(e) => return Err(e),
    };
    headers.set_content_type(content_type);
    let empty: Vec<(String, String)> = Vec::new();
    let params = match path_params {
        Some(p) => p,
        None => &empty,
    };
    assert(pairs_view(empty@) =~= Seq::<(Seq<char>, Seq<char>)>::empty());
    let (url, left) = resolve_path_params(template, params);
    let query = if m == HttpMethod::GET {
        left
    } else {
        Vec::new()
    };
    let body = if m == HttpMethod::GET {
        None
    } else {
        match body_params {
            Some(b) => match content_type {
                ContentType::JSON => Some(json_object(b)),
                ContentType::TEXT => Some(form_body(b)),
            },
            None => None,
        }
    };
    let plan = RequestPlan { method: m, url, headers, query, body };
    assert(pairs_view(plan.query@) =~= (if m == HttpMethod::GET {
        resolve(template@, or_empty(opt_pairs(*path_params))).1
    } else {
        Seq::empty()
    }));
    Ok(plan)
}

/// Plans a plain GET: the URL as given, the default fields with the extra ones set
/// over them, no query parameters and no body.
pub fn plan_get(defaults: &HeaderStore, url: &str, extra_headers: &Option<Vec<(String, String)>>) -> (r:
    Result<RequestPlan, RequestError>)
    ensures
        match merge_spec(defaults.view(), or_empty(opt_pairs(*extra_headers))) {
            Some(h) => r matches Ok(p) && p.view() == (PlanView {
                method: HttpMethod::GET,
                url: url@,
                headers: h,
                query: Seq::empty(),
                body: None,
            }),
            None => r matches Err(RequestError::InvalidHeader(_)),
        },
{
    let headers = match headers_for(defaults, extra_headers) {
        Ok(h) => h,
        Err(e) => return Err(e),
    };
    let plan = RequestPlan {
        method: HttpMethod::GET,
        url: url.to_owned(),
        headers,
        query: Vec::new(),
        body: None,
    };
    assert(pairs_view(plan.query@) =~= Seq::<(Seq<char>, Seq<char>)>::empty());
    Ok(plan)
}

/// Plans a POST of a body already written out: the URL as given, the default fields
/// with the extra ones set over them and the `Content-Type`, no query parameters.
pub fn plan_post(
    defaults: &HeaderStore,
    url: &str,
    extra_headers: &Option<Vec<(String, String)>>,
    body: &str,
    content_type: ContentType,
) -> (r: Result<RequestPlan, RequestError>)
    ensures
        match request_headers(defaults.view(), or_empty(opt_pairs(*extra_headers)), content_type) {
            Some(h) => r matches Ok(p) && p.view() == (PlanView {
                method: HttpMethod::POST,
                url: url@,
                headers: h,
                query: Seq::empty(),
                body: Some(body@),
            }),
            None => r matches Err(RequestError::InvalidHeader(_)),
        },
{
    let mut headers = match headers_for(defaults, extra_headers) {
        Ok(h) => h,
        Err(e) => return Err(e),
    };
    headers.set_content_type(content_type);
    let plan = RequestPlan {
        method: HttpMethod::POST,
        url: url.to_owned(),
        headers,
        query: Vec::new(),
        body: Some(body.to_owned()),
    };
    assert(pairs_view(plan.query@) =~= Seq::<(Seq<char>, Seq<char>)>::empty());
    Ok(plan)
}

} // verus!
