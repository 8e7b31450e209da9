//! HTTP requests and responses as plain values: the builder the providers fill
//! in, the status check on answers, and the choices the default client makes.
use vstd::prelude::*;
use crate::error::{ErrorV, SocialiteError};
use crate::form::pairs_view;
use crate::json::{Json, JsonV, json_text, parse_json, spec_json_parse};
use vstd::utf8::encode_utf8;
use crate::text::{owned, str_eq, u64_to_string, decimal, cat};

verus! {

/// The request handed to an HTTP client.
#[derive(Debug, PartialEq)]
pub struct HttpRequest {
    pub method: String,
    pub url: String,
    pub headers: Vec<(String, String)>,
    pub form: Vec<(String, String)>,
    pub json: Option<Json>,
    pub basic_auth: Option<(String, Option<String>)>,
    pub bearer_auth: Option<String>,
}

/// The value of a request.
pub struct RequestV {
    pub method: Seq<char>,
    pub url: Seq<char>,
    pub headers: Seq<(Seq<char>, Seq<char>)>,
    pub form: Seq<(Seq<char>, Seq<char>)>,
    pub json: Option<JsonV>,
    pub basic_auth: Option<(Seq<char>, Option<Seq<char>>)>,
    pub bearer_auth: Option<Seq<char>>,
}

pub open spec fn opt_json_view(o: Option<Json>) -> Option<JsonV> {
    match o {
        Some(j) => Some(j.deep()),
        None => None,
    }
}

pub open spec fn basic_view(o: Option<(String, Option<String>)>) -> Option<(Seq<char>, Option<Seq<char>>)> {
    match o {
        Some(p) => Some((p.0@, crate::text::opt_view(p.1))),
        None => None,
    }
}

impl View for HttpRequest {
    type V = RequestV;

    open spec fn view(&self) -> RequestV {
        RequestV {
            method: self.method@,
            url: self.url@,
            headers: pairs_view(self.headers@),
            form: pairs_view(self.form@),
            json: opt_json_view(self.json),
            basic_auth: basic_view(self.basic_auth),
            bearer_auth: crate::text::opt_view(self.bearer_auth),
        }
    }
}

/// A request with the given method and URL and nothing else.
pub open spec fn plain_request(method: Seq<char>, url: Seq<char>) -> RequestV {
    RequestV {
        method,
        url,
        headers: Seq::empty(),
        form: Seq::empty(),
        json: None,
        basic_auth: None,
        bearer_auth: None,
    }
}

/// The response returned by an HTTP client.
#[derive(Debug, PartialEq)]
pub struct HttpResponse {
    pub status: u16,
    pub body: Json,
}

/// A fluent builder for HTTP requests.
pub struct RequestBuilder {
    req: HttpRequest,
}

impl View for RequestBuilder {
    type V = RequestV;

    closed spec fn view(&self) -> RequestV {
        self.req@
    }
}

impl RequestBuilder {
    pub fn new(method: String, url: String) -> (b: Self)
        ensures
            b@ == plain_request(method@, url@),
    {
        let b = RequestBuilder {
            req: HttpRequest {
                method,
                url,
                headers: Vec::new(),
                form: Vec::new(),
                json: None,
                basic_auth: None,
                bearer_auth: None,
            },
        };
        assert(b@.headers =~= Seq::<(Seq<char>, Seq<char>)>::empty());
        assert(b@.form =~= Seq::<(Seq<char>, Seq<char>)>::empty());
        b
    }

    /// A `GET` request to `url`.
    pub fn get(url: &str) -> (b: Self)
        ensures
            b@ == plain_request("GET"@, url@),
    {
        RequestBuilder::new(owned("GET"), owned(url))
    }

    /// A `POST` request to `url`.
    pub fn post(url: &str) -> (b: Self)
        ensures
            b@ == plain_request("POST"@, url@),
    {
        RequestBuilder::new(owned("POST"), owned(url))
    }

    /// Adds the header `key: value`.
    pub fn header(self, key: &str, value: &str) -> (b: Self)
        ensures
            b@ == (RequestV { headers: self@.headers.push((key@, value@)), ..self@ }),
    {
        let mut b = self;
        b.req.headers.push((owned(key), owned(value)));
        assert(b@.headers =~= self@.headers.push((key@, value@)));
        b
    }

    pub fn bearer_auth(self, token: &str) -> (b: Self)
        ensures
            b@ == (RequestV { bearer_auth: Some(token@), ..self@ }),
    {
        let mut b = self;
        b.req.bearer_auth = Some(owned(token));
        b
    }

    pub fn basic_auth(self, username: &str, password: Option<&str>) -> (b: Self)
        ensures
            b@ == (RequestV {
                basic_auth: Some(
                    (
                        username@,
                        match password {
                            Some(p) => Some(p@),
                            None => None,
                        },
                    ),
                ),
                ..self@
            }),
    {
        let mut b = self;
        let pass = match password {
            Some(p) => Some(owned(p)),
            None => None,
        };
        b.req.basic_auth = Some((owned(username), pass));
        b
    }

    /// Sets the JSON body.
    pub fn json(self, value: Json) -> (b: Self)
        ensures
            b@ == (RequestV { json: Some(value.deep()), ..self@ }),
    {
        let mut b = self;
        b.req.json = Some(value);
        b
    }

    /// Appends the form fields `form`, in order.
    pub fn form(self, form: &[(&str, &str)]) -> (b: Self)
        ensures
            b@ == (RequestV {
                form: self@.form + form@.map_values(|p: (&str, &str)| (p.0@, p.1@)),
                ..self@
            }),
    {
        let mut b = self;
        let ghost start = b@.form;
        let mut i: usize = 0;
        while i < form.len()
            invariant
                i <= form@.len(),
                b@ == (RequestV { form: b@.form, ..self@ }),
                b@.form == start + form@.take(i as int).map_values(|p: (&str, &str)| (p.0@, p.1@)),
                start == self@.form,
            decreases form@.len() - i,
        {
            let (k, v) = form[i];
            let ghost before = b.req.form@;
            b.req.form.push((owned(k), owned(v)));
            assert(pairs_view(b.req.form@) =~= pairs_view(before).push((k@, v@)));
            assert(form@.take(i + 1).map_values(|p: (&str, &str)| (p.0@, p.1@)) =~= form@.take(
                i as int,
            ).map_values(|p: (&str, &str)| (p.0@, p.1@)).push((k@, v@)));
            i = i + 1;
            assert(b@.form =~= start + form@.take(i as int).map_values(|p: (&str, &str)| (p.0@, p.1@)));
        }
        assert(form@.take(form@.len() as int) =~= form@);
        b
    }

    /// The request as built.
    pub fn build(self) -> (r: HttpRequest)
        ensures
            r@ == self@,
    {
        self.req
    }
}

/// The error reported for an answer whose status is 400 or more: the code is
/// the body's `error` string, else `HTTP_<status>`; the message is the body's
/// `error_description`, else its `message`, else the whole body as JSON text
/// (for an object), the body itself (for a string), or `Unknown error`.
pub open spec fn status_error(status: u16, body: JsonV) -> ErrorV {
    let default_code = "HTTP_"@ + decimal(status as nat);
    match body {
        JsonV::Object(_) => {
            let code = match body.get("error"@).as_str() {
                Some(e) => e,
                None => default_code,
            };
            let message = match body.get("error_description"@).as_str() {
                Some(d) => d,
                None => match body.get("message"@).as_str() {
                    Some(m) => m,
                    None => json_text(body),
                },
            };
            ErrorV::ProviderApiError { code, message }
        },
        JsonV::Str(s) => ErrorV::ProviderApiError { code: default_code, message: s },
        _ => ErrorV::ProviderApiError { code: default_code, message: "Unknown error"@ },
    }
}

/// A refused answer's error: from a JSON object, the code is its `error` (else `HTTP_` and the
/// status) and the message its `error_description`, else its `message`; a text answer is the
/// message itself, under the code `HTTP_` and the status.
pub proof fn lemma_status_error(status: u16, body: JsonV, c: Seq<char>, d: Seq<char>)
    ensures
        body is Object && body.get("error"@) == JsonV::Str(c) ==> (status_error(status, body)
            matches ErrorV::ProviderApiError { code, .. } && code == c),
        body is Object && !(body.get("error"@) is Str) ==> (status_error(status, body)
            matches ErrorV::ProviderApiError { code, .. } && code == "HTTP_"@ + decimal(status as nat)),
        body is Object && body.get("error_description"@) == JsonV::Str(d) ==> (status_error(status, body)
            matches ErrorV::ProviderApiError { message, .. } && message == d),
        body is Object && !(body.get("error_description"@) is Str) && body.get("message"@) == JsonV::Str(d)
            ==> (status_error(status, body) matches ErrorV::ProviderApiError { message, .. } && message == d),
        body == JsonV::Str(d) ==> status_error(status, body) == (ErrorV::ProviderApiError {
            code: "HTTP_"@ + decimal(status as nat),
            message: d,
        }),
{
}

/// The outcome of checking a response's status.
pub open spec fn checked(status: u16, body: JsonV) -> Result<JsonV, ErrorV> {
    if status >= 400 {
        Err(status_error(status, body))
    } else {
        Ok(body)
    }
}

/// A response on its way to the caller.
pub struct ResponseWrapper {
    res: HttpResponse,
}

impl ResponseWrapper {
    pub fn new(res: HttpResponse) -> (w: Self)
        ensures
            w.status() == res.status,
            w.body() == res.body.deep(),
    {
        ResponseWrapper { res }
    }

    pub closed spec fn status(&self) -> u16 {
        self.res.status
    }

    pub closed spec fn body(&self) -> JsonV {
        self.res.body.deep()
    }

    /// Turns an answer with status 400 or more into a [`SocialiteError::ProviderApiError`].
    pub fn error_for_status(self) -> (r: Result<Self, SocialiteError>)
        ensures
            match r {
                Ok(w) => self.status() < 400 && w.status() == self.status() && w.body() == self.body(),
                Err(e) => self.status() >= 400 && e@ == status_error(self.status(), self.body()),
            },
    {
        if self.res.status >= 400 {
            let status = self.res.status;
            let default_code = cat("HTTP_", u64_to_string(status as u64).as_str());
            let body = &self.res.body;
            if body.is_object() {
                let code = match body.member_str("error") {
                    Some(e) => owned(e),
                    None => default_code,
                };
                let message = match body.member_str("error_description") {
                    Some(d) => owned(d),
                    None => match body.member_str("message") {
                        Some(m) => owned(m),
                        None => body.to_json_string(),
                    },
                };
                Err(SocialiteError::ProviderApiError { code, message })
            } else {
                let message = match body.as_str() {
                    Some(s) => owned(s),
                    None => owned("Unknown error"),
                };
                Err(SocialiteError::ProviderApiError { code: default_code, message })
            }
        } else {
            Ok(self)
        }
    }

    /// The body of the answer.
    pub fn json(self) -> (j: Json)
        ensures
            j.deep() == self.body(),
    {
        self.res.body
    }
}

/// The two methods the default client sends with.
#[derive(Debug, Clone, Copy, PartialEq, Eq)]
pub enum HttpMethod {
    Get,
    Post,
}

/// The method the default client uses for a request's method name: `POST` for
/// `POST`, and `GET` for anything else.
pub fn method_of(method: &str) -> (m: HttpMethod)
    ensures
        m == (if method@ == "POST"@ {
            HttpMethod::Post
        } else {
            HttpMethod::Get
        }),
{
    if str_eq(method, "POST") {
        HttpMethod::Post
    } else {
        HttpMethod::Get
    }
}

/// Which body the default client sends.
#[derive(Debug, Clone, Copy, PartialEq, Eq)]
pub enum BodyKind {
    Form,
    Json,
    Empty,
}

/// The form fields when there are any, else the JSON body when there is one.
pub fn body_kind(req: &HttpRequest) -> (k: BodyKind)
    ensures
        k == (if req@.form.len() > 0 {
            BodyKind::Form
        } else if req@.json is Some {
            BodyKind::Json
        } else {
            BodyKind::Empty
        }),
{
    if req.form.len() > 0 {
        BodyKind::Form
    } else if req.json.is_some() {
        BodyKind::Json
    } else {
        BodyKind::Empty
    }
}

/// The body of an answer: the JSON document its text holds, else the text
/// itself as a JSON string.
pub fn response_body(text: String) -> (j: Json)
    ensures
        j.deep() == match spec_json_parse(encode_utf8(text@)) {
            Ok(v) => v,
            Err(_) => JsonV::Str(text@),
        },
{
    match parse_json(text.as_str().as_bytes()) {
        Ok(j) => j,
        Err(_) => Json::Str(text),
    }
}

} // verus!
