use vstd::prelude::*;

use reqwest::{Client, ClientBuilder};

use crate::headers::{set_spec, HeaderStore};
use crate::method::RequestError;
use crate::request::{plan_get, plan_post, plan_request, RequestPlan};
use crate::resolve::pairs_view;
use crate::response::ContentType;
use crate::tls::{
    classify_overrides, expected_tls, last_value, overrides_view, tls_connector, LocalTls, TlsModel,
    DANGER_ACCEPT_INVALID_CERTS, DANGER_ACCEPT_INVALID_HOSTNAMES,
};

verus! {

#[verifier::external_type_specification]
#[verifier::external_body]
pub struct ExClient(Client);

#[verifier::external_type_specification]
#[verifier::external_body]
pub struct ExClientBuilder(ClientBuilder);

#[verifier::external_type_specification]
#[verifier::external_body]
pub struct ExReqwestError(reqwest::Error);

/// The user agent a client announces unless it is set otherwise.
pub const DEFAULT_USER_AGENT: &'static str = "Mozilla/5.0 (compatible; BachueTech/1.0)";

/// The header fields a new client starts with: its user agent.
pub open spec fn initial_headers() -> Seq<(Seq<char>, Seq<char>)> {
    seq![("user-agent"@, DEFAULT_USER_AGENT@)]
}

/// A transport builder, with what it has been given.
pub struct ClientSetup {
    builder: ClientBuilder,
    model: Ghost<ClientConfig>,
}

impl ClientSetup {
    /// What the builder has been given.
    pub closed spec fn model(&self) -> ClientConfig {
        self.model@
    }
}

/// Relies on `reqwest::Client::builder`: no cookie store, the hickory resolver on
/// (the `hickory-dns` feature is enabled), connection logging off, the default TLS.
#[verifier::external_body]
fn client_builder() -> (r: ClientSetup)
    ensures
        r.model() == (ClientConfig { cookies: false, hickory_dns: true, verbose: false, tls: None }),
{
    ClientSetup {
        builder: Client::builder(),
        model: Ghost(ClientConfig { cookies: false, hickory_dns: true, verbose: false, tls: None }),
    }
}

/// Relies on `reqwest::ClientBuilder::use_native_tls`: the native TLS backend is used;
/// nothing else changes.
#[verifier::external_body]
fn use_native_tls(s: ClientSetup) -> (r: ClientSetup)
    ensures
        r.model() == s.model(),
{
    ClientSetup { builder: s.builder.use_native_tls(), model: s.model }
}

/// Relies on `reqwest::ClientBuilder::use_preconfigured_tls`: the given native TLS
/// connector is used for every connection.
#[verifier::external_body]
fn use_preconfigured_tls(s: ClientSetup, tls: LocalTls) -> (r: ClientSetup)
    ensures
        r.model() == (ClientConfig { tls: Some(tls.model()), ..s.model() }),
{
    let m = tls.ghost_model();
    ClientSetup {
        builder: s.builder.use_preconfigured_tls(tls.into_connector()),
        model: Ghost(ClientConfig { tls: Some(m@), ..s.model@ }),
    }
}

/// Relies on `reqwest::ClientBuilder::cookie_store`: with `true` a fresh cookie jar
/// keeps the cookies of responses for later requests; with `false` none is kept.
#[verifier::external_body]
fn cookie_store(s: ClientSetup, enable: bool) -> (r: ClientSetup)
    ensures
        r.model() == (ClientConfig { cookies: enable, ..s.model() }),
{
    ClientSetup {
        builder: s.builder.cookie_store(enable),
        model: Ghost(ClientConfig { cookies: enable, ..s.model@ }),
    }
}

/// Relies on `reqwest::ClientBuilder::connection_verbose`: connection events are
/// logged or not.
#[verifier::external_body]
fn connection_verbose(s: ClientSetup, verbose: bool) -> (r: ClientSetup)
    ensures
        r.model() == (ClientConfig { verbose, ..s.model() }),
{
    ClientSetup {
        builder: s.builder.connection_verbose(verbose),
        model: Ghost(ClientConfig { verbose, ..s.model@ }),
    }
}

/// Relies on `reqwest::ClientBuilder::hickory_dns`: names are resolved by the
/// hickory resolver when enabled, by the system otherwise.
#[verifier::external_body]
fn hickory_dns(s: ClientSetup, enable: bool) -> (r: ClientSetup)
    ensures
        r.model() == (ClientConfig { hickory_dns: enable, ..s.model() }),
{
    ClientSetup {
        builder: s.builder.hickory_dns(enable),
        model: Ghost(ClientConfig { hickory_dns: enable, ..s.model@ }),
    }
}

/// Relies on `reqwest::ClientBuilder::build`: fails when the TLS backend cannot be
/// initialised or the resolver cannot load the system configuration.
#[verifier::external_body]
fn build_client(s: ClientSetup) -> Result<Client, reqwest::Error> {
    s.builder.build()
}

/// A transport builder given the cookie, resolver and logging settings, and the
/// native TLS connector when there is one.
pub fn configured_client(use_hickory_dns: bool, use_cookies: bool, tls: Option<LocalTls>) -> (r:
    ClientSetup)
    ensures
        r.model() == (ClientConfig {
            cookies: use_cookies,
            hickory_dns: use_hickory_dns,
            verbose: true,
            tls: match tls {
                Some(t) => Some(t.model()),
                None => None,
            },
        }),
{
    let mut s = client_builder();
    match tls {
        Some(local) => {
            s = use_native_tls(s);
            s = use_preconfigured_tls(s, local);
        },
        None => {},
    }
    s = cookie_store(s, use_cookies);
    s = connection_verbose(s, true);
    s = hickory_dns(s, use_hickory_dns);
    s
}

/// Relies on the `Display` of `reqwest::Error`: its message.
#[verifier::external_body]
fn error_message(e: &reqwest::Error) -> String {
    e.to_string()
}

/// What the transport's builder was given: a cookie jar or none, the hickory
/// resolver or the system's, verbose connection logging, and the native TLS
/// connector it uses, if one was built.
pub struct ClientConfig {
    pub cookies: bool,
    pub hickory_dns: bool,
    pub verbose: bool,
    pub tls: Option<TlsModel>,
}

/// The view of an optional list of overrides, an absent list read as empty.
pub open spec fn danger_view(d: Option<Vec<(String, bool)>>) -> Seq<(Seq<char>, bool)> {
    match d {
        Some(v) => overrides_view(v@),
        None => Seq::empty(),
    }
}

/// The TLS setup a client is built with from these PEM files and overrides.
pub open spec fn client_tls(pems: Seq<Vec<u8>>, d: Option<Vec<(String, bool)>>) -> TlsModel {
    expected_tls(
        pems,
        last_value(danger_view(d), DANGER_ACCEPT_INVALID_HOSTNAMES@),
        last_value(danger_view(d), DANGER_ACCEPT_INVALID_CERTS@),
    )
}

/// A client: the transport it sends with and the header fields it sends by default.
pub struct HttpClient {
    client: Client,
    headers: HeaderStore,
    config: Ghost<ClientConfig>,
}

impl HttpClient {
    /// The header fields sent by default.
    pub closed spec fn default_headers(&self) -> Seq<(Seq<char>, Seq<char>)> {
        self.headers.view()
    }

    /// What the transport's builder was given.
    pub closed spec fn config(&self) -> ClientConfig {
        self.config@
    }

    /// Builds a client. `use_hickory_dns` selects the hickory resolver, `use_cookies`
    /// a cookie jar; `local_pems` are the PEM files to trust besides the system's
    /// anchors (a file that does not parse is skipped), and `danger_accept_invalid` the
    /// validation overrides (names not recognised are ignored). The client starts with
    /// its user agent as only field. Only the transport's own build can fail.
    pub fn new(
        use_hickory_dns: bool,
        use_cookies: bool,
        danger_accept_invalid: Option<Vec<(String, bool)>>,
        local_pems: Vec<Vec<u8>>,
    ) -> (r: Result<HttpClient, RequestError>)
        ensures
            r matches Ok(c) ==> c.default_headers() == initial_headers() && c.config().cookies
                == use_cookies && c.config().hickory_dns == use_hickory_dns
                && c.config().verbose && (c.config().tls matches Some(m) ==> m == client_tls(
                local_pems@,
                danger_accept_invalid,
            )) && (local_pems@.len() == 0 && last_value(
                danger_view(danger_accept_invalid),
                DANGER_ACCEPT_INVALID_HOSTNAMES@,
            ) is None && last_value(
                danger_view(danger_accept_invalid),
                DANGER_ACCEPT_INVALID_CERTS@,
            ) is None ==> c.config().tls is None),
            r matches Err(e) ==> e is ClientBuild,
    {
        let empty: Vec<(String, bool)> = Vec::new();
        let overrides = match &danger_accept_invalid {
            Some(list) => classify_overrides(list),
            None => classify_overrides(&empty),
        };
        assert(overrides_view(empty@) =~= Seq::<(Seq<char>, bool)>::empty());
        let tls = tls_connector(&local_pems, &overrides);
        let setup = configured_client(use_hickory_dns, use_cookies, tls);
        let ghost config = setup.model();
        let client = match build_client(setup) {
            Ok(c) => c,
            Err(e) => return Err(RequestError::ClientBuild(error_message(&e))),
        };
        let mut headers = HeaderStore::new();
        headers.put(String::from_str("user-agent"), String::from_str(DEFAULT_USER_AGENT));
        proof {
            reveal_with_fuel(crate::headers::upsert, 1);
        }
        assert(headers.view() =~= initial_headers());
        Ok(
            HttpClient {
                client,
                headers,
                config: Ghost(config),
            },
        )
    }

    /// Sets a default header field, replacing an earlier value of the same name
    /// (names compared in lower case); an invalid name or value is refused and the
    /// fields stay as they were.
    pub fn set_header(&mut self, header_name: &str, header_value: &str) -> (r: Result<
        (),
        RequestError,
    >)
        ensures
            match set_spec(old(self).default_headers(), header_name@, header_value@) {
                Some(s) => r is Ok && final(self).default_headers() == s,
                None => r matches Err(RequestError::InvalidHeader(n)) && n@ == header_name@
                    && final(self).default_headers() == old(self).default_headers(),
            },
    {
        self.headers.set_header(header_name, header_value)
    }

    /// The default header fields, names in lower case.
    pub fn get_default_headers(&self) -> (r: Vec<(String, String)>)
        ensures
            pairs_view(r@) == self.default_headers(),
    {
        self.headers.to_vec()
    }

    /// The transport that sends the requests.
    pub fn transport(&self) -> &Client {
        &self.client
    }

    /// Plans a call of any supported method; see `plan_request`.
    pub fn plan(
        &self,
        request_method: &str,
        url_with_ep_path: &str,
        extra_headers: &Option<Vec<(String, String)>>,
        body_params: &Option<Vec<(String, String)>>,
        path_params: &Option<Vec<(String, String)>>,
        content_type: ContentType,
    ) -> (r: Result<RequestPlan, RequestError>)
        requires
            crate::request::opt_unique(crate::request::opt_pairs(*body_params)),
            crate::request::opt_unique(crate::request::opt_pairs(*path_params)),
        ensures
            match crate::request::request_plan(
                self.default_headers(),
                request_method@,
                url_with_ep_path@,
                crate::request::opt_pairs(*extra_headers),
                crate::request::opt_pairs(*body_params),
                crate::request::opt_pairs(*path_params),
                content_type,
            ) {
                Some(v) => r matches Ok(p) && p.view() == v,
                None => r is Err,
            },
            crate::method::method_of(request_method@) is None ==> (r matches Err(
                RequestError::UnsupportedMethod(n),
            ) && n@ == request_method@),
            crate::method::method_of(request_method@) is Some && crate::request::request_headers(
                self.default_headers(),
                crate::request::or_empty(crate::request::opt_pairs(*extra_headers)),
                content_type,
            ) is None ==> r matches Err(RequestError::InvalidHeader(_)),
    {
        plan_request(
            &self.headers,
            request_method,
            url_with_ep_path,
            extra_headers,
            body_params,
            path_params,
            content_type,
        )
    }

    /// Plans a plain GET; see `plan_get`.
    pub fn plan_get(&self, url: &str, extra_headers: &Option<Vec<(String, String)>>) -> (r:
        Result<RequestPlan, RequestError>)
        ensures
            match crate::headers::merge_spec(
                self.default_headers(),
                crate::request::or_empty(crate::request::opt_pairs(*extra_headers)),
            ) {
                Some(h) => r matches Ok(p) && p.view() == (crate::request::PlanView {
                    method: crate::method::HttpMethod::GET,
                    url: url@,
                    headers: h,
                    query: Seq::empty(),
                    body: None,
                }),
                None => r matches Err(RequestError::InvalidHeader(_)),
            },
    {
        plan_get(&self.headers, url, extra_headers)
    }

    /// Plans a POST of a body already written out; see `plan_post`.
    pub fn plan_post(
        &self,
        url: &str,
        extra_headers: &Option<Vec<(String, String)>>,
        body_request: &str,
        content_type: ContentType,
    ) -> (r: Result<RequestPlan, RequestError>)
        ensures
            match crate::request::request_headers(
                self.default_headers(),
                crate::request::or_empty(crate::request::opt_pairs(*extra_headers)),
                content_type,
            ) {
                Some(h) => r matches Ok(p) && p.view() == (crate::request::PlanView {
                    method: crate::method::HttpMethod::POST,
                    url: url@,
                    headers: h,
                    query: Seq::empty(),
                    body: Some(body_request@),
                }),
                None => r matches Err(RequestError::InvalidHeader(_)),
            },
    {
        plan_post(&self.headers, url, extra_headers, body_request, content_type)
    }
}

} // verus!
