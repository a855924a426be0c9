use vstd::prelude::*;
use vstd::utf8::encode_utf8;

use crate::error::RequestError;
use crate::header_list::{
    canonical_name, entries_of, header_insert, holds, insert_values, lemma_last_write_wins, names_unique, HeaderEntry,
    HeaderField,
};
use crate::json::json_text;
use crate::target::{absolute_uri, parse_absolute_uri, UriParts, UriView};

verus! {

#[verifier::external_type_specification]
#[verifier::external_body]
pub struct ExMethod(http::Method);

#[verifier::external_type_specification]
#[verifier::external_body]
#[verifier::reject_recursive_types(C)]
#[verifier::reject_recursive_types(B)]
pub struct ExClient<C, B>(hyper::Client<C, B>);

#[verifier::external_type_specification]
#[verifier::external_body]
#[verifier::reject_recursive_types(T)]
pub struct ExHttpsConnector<T>(hyper_tls::HttpsConnector<T>);

#[verifier::external_type_specification]
#[verifier::external_body]
#[verifier::reject_recursive_types(R)]
pub struct ExHttpConnector<R>(hyper::client::HttpConnector<R>);

#[verifier::external_type_specification]
#[verifier::external_body]
pub struct ExGaiResolver(hyper::client::connect::dns::GaiResolver);

#[verifier::external_type_specification]
#[verifier::external_body]
pub struct ExBody(hyper::Body);

/// The shared transport: a pooled HTTP client that speaks TLS. Clones share
/// one pool of connections.
pub type HttpClient = hyper::Client<hyper_tls::HttpsConnector<hyper::client::HttpConnector>>;

/// Relies on `hyper::Client::builder().build` over `hyper_tls::HttpsConnector::new`:
/// a client with the default TLS configuration. The connector panics where the
/// platform's TLS backend cannot be set up; that is the one fatal condition of
/// this library, met once at start-up.
#[verifier::external_body]
fn new_https_client() -> (r: HttpClient) {
    hyper::Client::builder().build(hyper_tls::HttpsConnector::new())
}

/// Relies on `Clone` for `hyper::Client`: a second handle to the same pool.
#[verifier::external_body]
fn share_client(c: &HttpClient) -> (r: HttpClient) {
    c.clone()
}

/// Relies on `headers::ContentType::json()` and its `Header` impl: the typed
/// header encodes as the one value `application/json` under `content-type`.
#[verifier::external_body]
fn json_content_type() -> (r: HeaderField)
    ensures
        r@ == json_content_type_entry(),
{
    let h = headers::ContentType::json();
    let mut values: Vec<http::HeaderValue> = Vec::new();
    headers::Header::encode(&h, &mut values);
    HeaderField {
        name: <headers::ContentType as headers::Header>::name().as_str().to_string(),
        values: values.iter().map(|v| v.as_bytes().to_vec()).collect(),
    }
}

/// The name of the content-type header.
pub open spec fn content_type_name() -> Seq<char> {
    "content-type"@
}

/// The JSON media type, as header bytes.
pub open spec fn json_media_type() -> Seq<u8> {
    encode_utf8("application/json"@)
}

pub open spec fn json_content_type_entry() -> HeaderEntry {
    (content_type_name(), seq![json_media_type()])
}

/// A request as a mathematical value.
pub struct RequestView {
    /// `None` until a method is set; a request sent without one uses GET.
    pub method: Option<http::Method>,
    pub target: UriView,
    pub headers: Seq<HeaderEntry>,
    pub body: Seq<u8>,
}

/// The target of a fresh request: none set yet.
pub open spec fn unset_target() -> UriView {
    UriView { scheme: None, authority: None, path_and_query: None }
}

/// A request in the making, with the client that will send it.
///
/// Every setter takes the builder by value and hands back the next one, and
/// the terminal operations consume it, so no state of a builder is ever
/// reached twice.
#[derive(Debug)]
pub struct RequestBuilder {
    http_client: HttpClient,
    method: Option<http::Method>,
    target: UriParts,
    headers: Vec<HeaderField>,
    body: Vec<u8>,
}

impl View for RequestBuilder {
    type V = RequestView;

    closed spec fn view(&self) -> RequestView {
        RequestView {
            method: self.method,
            target: self.target@,
            headers: entries_of(self.headers@),
            body: self.body@,
        }
    }
}

/// Makes a client and hands out builders that share it.
pub trait HttpClientExt: Sized {
    /// A new client with the default TLS configuration.
    fn create() -> Self;

    /// A fresh builder on this client: no method, no target, no headers, an
    /// empty body.
    fn build_request(&self) -> (r: RequestBuilder)
        ensures
            r.wf(),
            r@.method is None,
            r@.target == unset_target(),
            r@.headers == Seq::<HeaderEntry>::empty(),
            r@.body == Seq::<u8>::empty(),
    ;
}

impl HttpClientExt for HttpClient {
    fn create() -> Self {
        new_https_client()
    }

    fn build_request(&self) -> (r: RequestBuilder) {
        let r = RequestBuilder {
            http_client: share_client(self),
            method: None,
            target: UriParts { scheme: None, authority: None, path_and_query: None },
            headers: Vec::new(),
            body: Vec::new(),
        };
        assert(entries_of(r.headers@) =~= Seq::<HeaderEntry>::empty());
        r
    }
}

impl RequestBuilder {
    /// The builder's invariant: no header name occurs twice.
    pub open spec fn wf(&self) -> bool {
        names_unique(self@.headers)
    }

    /// The client that will send the request.
    pub closed spec fn client(&self) -> HttpClient {
        self.http_client
    }

    /// The method, where one is set.
    pub fn method_ref(&self) -> (r: Option<&http::Method>)
        ensures
            r == match self@.method {
                Some(m) => Some(&m),
                None => None::<&http::Method>,
            },
    {
        match &self.method {
            Some(m) => Some(m),
            None => None,
        }
    }

    /// The target.
    pub fn target(&self) -> (r: &UriParts)
        ensures
            r@ == self@.target,
    {
        &self.target
    }

    /// The headers, in order of insertion.
    pub fn headers(&self) -> (r: &Vec<HeaderField>)
        ensures
            entries_of(r@) == self@.headers,
    {
        &self.headers
    }

    /// The body.
    pub fn body(&self) -> (r: &Vec<u8>)
        ensures
            r@ == self@.body,
    {
        &self.body
    }

    /// Takes the builder apart, for sending: the client, then the method,
    /// target, headers and body of the request.
    pub fn into_parts(self) -> (r: (HttpClient, Option<http::Method>, UriParts, Vec<HeaderField>, Vec<u8>))
        ensures
            r.0 == self.client(),
            r.1 == self@.method,
            r.2@ == self@.target,
            entries_of(r.3@) == self@.headers,
            r.4@ == self@.body,
    {
        (self.http_client, self.method, self.target, self.headers, self.body)
    }

    /// Sets the method.
    pub fn method(self, method: http::Method) -> (r: Self)
        requires
            self.wf(),
        ensures
            r.wf(),
            r.client() == self.client(),
            r@ == (RequestView { method: Some(method), ..self@ }),
    {
        let mut r = self;
        r.method = Some(method);
        r
    }

    /// Inserts the encoded values of one header under its canonical name: they
    /// replace the values of a header of that name, else come last.
    pub fn insert_header(self, name: String, values: Vec<Vec<u8>>) -> (r: Self)
        requires
            self.wf(),
            canonical_name(name@),
        ensures
            r.wf(),
            r.client() == self.client(),
            r@ == (RequestView { headers: header_insert(self@.headers, name@, values.deep_view()), ..self@ }),
    {
        let mut r = self;
        insert_values(&mut r.headers, name, values);
        r
    }

    /// Sets the target to the absolute URI `uri`; fails with `InvalidUri`,
    /// leaving nothing changed, where `uri` is not one.
    pub fn uri(self, uri: &str) -> (r: Result<Self, RequestError>)
        requires
            self.wf(),
        ensures
            match r {
                Ok(b) => b.wf() && b.client() == self.client() && absolute_uri(uri@) == Some(b@.target)
                    && b@ == (RequestView { target: b@.target, ..self@ }),
                Err(e) => e == RequestError::InvalidUri && absolute_uri(uri@) is None,
            },
    {
        match parse_absolute_uri(uri) {
            Some(t) => {
                let mut r = self;
                r.target = t;
                Ok(r)
            },
            None => Err(RequestError::InvalidUri),
        }
    }

    /// Makes `text` the body and declares it JSON: the content-type header is
    /// set to the JSON media type, whatever it held.
    pub fn json_body_text(self, text: String) -> (r: Self)
        requires
            self.wf(),
        ensures
            r.wf(),
            r.client() == self.client(),
            r@ == (RequestView {
                headers: header_insert(self@.headers, content_type_name(), seq![json_media_type()]),
                body: encode_utf8(text@),
                ..self@
            }),
            holds(r@.headers, content_type_name(), seq![json_media_type()]),
    {
        proof {
            lemma_last_write_wins(self@.headers, content_type_name(), seq![], seq![json_media_type()]);
        }
        let mut r = self;
        r.body = vstd::slice::slice_to_vec(text.as_str().as_bytes());
        let ct = json_content_type();
        insert_values(&mut r.headers, ct.name, ct.values);
        r
    }

    /// Encodes `body` as JSON and makes it the body, with the JSON content
    /// type. The encoding is done first, and on a `serde_json::Value` it
    /// always succeeds; were it to fail, the error would be
    /// `SerializationError` with no part of the builder touched.
    pub fn body_json(self, body: &serde_json::Value) -> (r: Result<Self, RequestError>)
        requires
            self.wf(),
        ensures
            r is Ok,
            match r {
                Ok(b) => b.wf() && b.client() == self.client() && (exists|t: Seq<char>| #[trigger] encode_utf8(t) == b@.body)
                    && holds(b@.headers, content_type_name(), seq![json_media_type()])
                    && b@ == (RequestView {
                        headers: header_insert(self@.headers, content_type_name(), seq![json_media_type()]),
                        body: b@.body,
                        ..self@
                    }),
                Err(e) => e == RequestError::SerializationError,
            },
    {
        match json_text(body) {
            Ok(text) => {
                let ghost t = text@;
                let r = self.json_body_text(text);
                assert(encode_utf8(t) == r@.body);
                Ok(r)
            },
            Err(_) => Err(RequestError::SerializationError),
        }
    }
}

} // verus!
