//! An HTTP client whose request planning and response reading are verified.
//!
//! A call is planned from plain values: the method name is checked, the URL template
//! is resolved against path parameters, header fields are merged over the client's
//! defaults, and the remaining parameters become a query or a body. Reading a
//! response is a state machine fed with the outcome of each read, for the whole body
//! at once or one piece per call, with a bounded number of tolerated read failures.

pub mod client;
pub mod extract;
pub mod headers;
pub mod method;
pub mod request;
pub mod resolve;
pub mod response;
pub mod stream;
pub mod text;
pub mod tls;

pub use client::{ClientConfig, HttpClient};
pub use extract::{BodyExtractor, BodyMode, ExtractStep, READ_ERROR_CEILING};
pub use headers::HeaderStore;
pub use method::{method_from_upper, parse_method, HttpMethod, RequestError};
pub use request::{form_body, plan_get, plan_post, plan_request, RequestPlan};
pub use resolve::resolve_path_params;
pub use response::{ChunkRead, ContentType, HttpResponse};
pub use stream::HttpStreamResponse;
pub use tls::{
    classify_overrides, LocalTls, TlsModel, TlsOverrides, DANGER_ACCEPT_INVALID_CERTS, DANGER_ACCEPT_INVALID_HOSTNAMES};
