//! The client: immutable connection settings, request planning, and
//! response interpretation.
//!
//! Planning decides endpoint, verb, parameters and body from the query
//! alone; sending the planned request and reading the response are left to
//! the transport around this library, which hands the status and decoded
//! body back to [`interpret_response`].

use vstd::prelude::*;
use vstd::string::StringExecFns;

use crate::error::Error;
use crate::query::write_query::{line_text, pairs_view, push_pair};
use crate::query::{Query, QueryTypes};
use crate::text::{contains_substr, text_contains};

verus! {

#[verifier::external_type_specification]
#[verifier::external_body]
pub struct ExUrl(url::Url);

#[verifier::external_type_specification]
#[verifier::external_body]
pub struct ExParseError(url::ParseError);

/// Whether URL parsing accepts `base`. Parsing is a function of the text
/// alone; the pairs handed alongside are appended only to an accepted URL
/// and cannot make it fail.
pub uninterp spec fn url_parse_ok(base: Seq<char>) -> bool;

/// Relies on url::Url::parse_with_params: parses the base URL and appends
/// the pairs, percent-encoded, to its query string. It fails exactly when
/// parsing the base text fails; the URL value is carried opaquely from
/// here on.
#[verifier::external_body]
fn parse_url_with_params(base: &str, params: &Vec<(String, String)>) -> (r: Result<
    url::Url,
    url::ParseError,
>)
    ensures
        (r is Ok) == url_parse_ok(base@),
{
    url::Url::parse_with_params(base, params.iter().map(|p| (p.0.as_str(), p.1.as_str())))
}

/// Relies on url::Url::query_pairs_mut and form_urlencoded::Serializer::
/// append_pair: appends one more percent-encoded pair to the URL's query
/// string.
#[verifier::external_body]
fn append_url_pair(u: &mut url::Url, key: &str, value: &str) {
    u.query_pairs_mut().append_pair(key, value);
}

/// Relies on the Display impl of url::ParseError: a short description of
/// why the URL could not be parsed.
#[verifier::external_body]
fn parse_error_text(e: &url::ParseError) -> String {
    format!("{}", e)
}

/// A username and password attached to every request of a client.
#[derive(Debug)]
pub struct InfluxDbAuthentication {
    pub username: String,
    pub password: String,
}

/// Immutable connection settings: where the database is, which database to
/// address, and optional credentials. Safe to reuse across any number of
/// independent dispatches.
#[derive(Debug)]
pub struct InfluxDbClient {
    pub url: String,
    pub database: String,
    pub auth: Option<InfluxDbAuthentication>,
}

/// The HTTP verb a planned request uses.
#[derive(PartialEq, Eq, Structural, Debug, Clone, Copy)]
pub enum Method {
    Get,
    Post,
}

/// A fully planned request: everything the transport needs to send it.
/// The endpoint text and the ordered parameter pairs are carried as plain
/// values, pinned exactly by the planner's contract; `url` is their
/// percent-encoded form, carried opaquely for the transport's convenience.
pub struct PreparedRequest {
    pub method: Method,
    pub endpoint: String,
    pub parameters: Vec<(String, String)>,
    pub url: url::Url,
    pub body: Option<String>,
}

/// The verb a read query is dispatched with: GET when its text holds the
/// literal substring "SELECT" or "SHOW", POST otherwise. A case-sensitive
/// content heuristic, not a parser.
pub open spec fn read_method_spec(text: Seq<char>) -> Method {
    if text_contains(text, "SELECT"@) || text_contains(text, "SHOW"@) {
        Method::Get
    } else {
        Method::Post
    }
}

/// The marker whose presence in a response body signals an embedded error.
pub open spec fn error_marker() -> Seq<char> {
    "\"error\""@
}

impl InfluxDbClient {
    /// Creates a client for the database `database` served at `url`, without
    /// authentication.
    pub fn new(url: &str, database: &str) -> (r: Self)
        ensures
            r.url@ == url@,
            r.database@ == database@,
            r.auth is None,
    {
        InfluxDbClient { url: url.to_owned(), database: database.to_owned(), auth: None }
    }

    /// Returns the client with the given credentials attached.
    pub fn with_auth(self, username: &str, password: &str) -> (r: Self)
        ensures
            r.url == self.url,
            r.database == self.database,
            r.auth matches Some(a) && a.username@ == username@ && a.password@ == password@,
    {
        InfluxDbClient {
            url: self.url,
            database: self.database,
            auth: Some(
                InfluxDbAuthentication {
                    username: username.to_owned(),
                    password: password.to_owned(),
                },
            ),
        }
    }

    /// The name of the database the client addresses.
    pub fn database_name(&self) -> (r: &str)
        ensures
            r@ == self.database@,
    {
        self.database.as_str()
    }

    /// The URL of the installation the client addresses.
    pub fn database_url(&self) -> (r: &str)
        ensures
            r@ == self.url@,
    {
        self.url.as_str()
    }

    /// The base parameters every request carries: the database name, and the
    /// credentials when authentication is configured.
    pub open spec fn params_spec(&self) -> Seq<(Seq<char>, Seq<char>)> {
        match self.auth {
            None => seq![("db"@, self.database@)],
            Some(a) => seq![("db"@, self.database@), ("u"@, a.username@), ("p"@, a.password@)],
        }
    }

    /// Assembles the base parameters of a request.
    pub fn parameters(&self) -> (r: Vec<(String, String)>)
        ensures
            pairs_view(r@) == self.params_spec(),
    {
        let mut vec: Vec<(String, String)> = Vec::new();
        push_pair(&mut vec, "db".to_owned(), self.database.clone());
        match &self.auth {
            Some(auth) => {
                push_pair(&mut vec, "u".to_owned(), auth.username.clone());
                push_pair(&mut vec, "p".to_owned(), auth.password.clone());
            },
            None => {},
        }
        proof {
            assert(pairs_view(vec@) =~= self.params_spec());
        }
        vec
    }

    /// Plans the request for a query: builds the query (failing before any
    /// I/O on a structurally invalid one), assembles URL and parameters,
    /// and picks the verb. Reads target `/query` and carry their text as a
    /// `q` parameter; writes target `/write`, always POST, carrying the
    /// precision as a parameter and the rendered line as the body. Past
    /// the build, planning fails exactly when the base URL text is
    /// malformed, and then with `UrlConstructionError`.
    pub fn prepare<'a>(&self, q: QueryTypes<'a>) -> (r: Result<PreparedRequest, Error>)
        ensures
            match q {
                QueryTypes::Read(rq) => {
                    &&& ((r is Ok) <==> url_parse_ok(self.url@ + "/query"@))
                    &&& (r matches Ok(p) ==> {
                        &&& p.method == read_method_spec(rq@)
                        &&& p.endpoint@ == self.url@ + "/query"@
                        &&& pairs_view(p.parameters@) == self.params_spec().push(("q"@, rq@))
                        &&& p.body is None
                    })
                    &&& (r matches Err(e) ==> e matches Error::UrlConstructionError { .. })
                },
                QueryTypes::Write(wq) => {
                    &&& (wq@.fields.len() == 0 ==> (r matches Err(e)
                        && e matches Error::InvalidQueryError { .. }))
                    &&& (wq@.fields.len() > 0 ==> ((r is Ok) <==> url_parse_ok(
                        self.url@ + "/write"@,
                    )))
                    &&& (r matches Ok(p) ==> {
                        &&& p.method == Method::Post
                        &&& p.endpoint@ == self.url@ + "/write"@
                        &&& pairs_view(p.parameters@) == self.params_spec().push(
                            ("precision"@, wq@.timestamp.precision_spec()),
                        )
                        &&& (p.body matches Some(b) && b@ == line_text(wq@))
                    })
                    &&& (r matches Err(e) ==> (e matches Error::InvalidQueryError { .. }
                        && wq@.fields.len() == 0) || e matches Error::UrlConstructionError { .. })
                },
            },
    {
        match q {
            QueryTypes::Read(rq) => {
                let vq = match rq.build() {
                    Ok(v) => v,
                    Err(e) => {
                        // A read query always builds; this arm is provably dead.
                        proof {
                            assert(false);
                        }
                        return Err(e);
                    },
                };
                let read_query = vq.get();
                let mut params = self.parameters();
                let base = self.url.clone().concat("/query");
                let mut u = match parse_url_with_params(base.as_str(), &params) {
                    Ok(u) => u,
                    Err(e) => {
                        let msg = parse_error_text(&e);
                        return Err(Error::UrlConstructionError { error: msg });
                    },
                };
                append_url_pair(&mut u, "q", read_query.as_str());
                let method = if contains_substr(read_query.as_str(), "SELECT")
                    || contains_substr(read_query.as_str(), "SHOW") {
                    Method::Get
                } else {
                    Method::Post
                };
                push_pair(&mut params, "q".to_owned(), read_query);
                Ok(PreparedRequest { method, endpoint: base, parameters: params, url: u, body: None })
            },
            QueryTypes::Write(wq) => {
                let vq = match wq.build() {
                    Ok(v) => v,
                    Err(e) => {
                        return Err(e);
                    },
                };
                let mut params = self.parameters();
                let base = self.url.clone().concat("/write");
                let mut u = match parse_url_with_params(base.as_str(), &params) {
                    Ok(u) => u,
                    Err(e) => {
                        let msg = parse_error_text(&e);
                        return Err(Error::UrlConstructionError { error: msg });
                    },
                };
                let precision = wq.get_precision();
                append_url_pair(&mut u, "precision", precision.as_str());
                push_pair(&mut params, "precision".to_owned(), precision);
                Ok(
                    PreparedRequest {
                        method: Method::Post,
                        endpoint: base,
                        parameters: params,
                        url: u,
                        body: Some(vq.get()),
                    },
                )
            },
        }
    }
}

/// The error for a transport-layer failure to reach the server: the one
/// piece of the taxonomy that arises outside the library, carried here so
/// the mapping itself is part of the stated contract.
pub fn connection_failure(detail: String) -> (r: Error)
    ensures
        r matches Error::ConnectionError { error } && error@ == detail@,
{
    Error::ConnectionError { error: detail }
}

/// Interprets a response: the status decides the authorization errors, an
/// undecodable body is a deserialization failure, a body holding the error
/// marker is a database error wrapping the full text, and anything else is
/// success carrying the body unchanged.
pub fn interpret_response(status: u16, body: Option<String>) -> (r: Result<String, Error>)
    ensures
        status == 401 ==> r == Err::<String, Error>(Error::AuthorizationError),
        status == 403 ==> r == Err::<String, Error>(Error::AuthenticationError),
        status != 401 && status != 403 ==> match body {
            None => (r matches Err(e) && e matches Error::DeserializationError { .. }),
            Some(s) => {
                &&& text_contains(s@, error_marker()) ==> (r matches Err(e) && e matches Error::DatabaseError { error }
                    && error@ == "influxdb error: \""@ + s@ + "\""@)
                &&& !text_contains(s@, error_marker()) ==> (r matches Ok(t) && t == s)
            },
        },
{
    if status == 401 {
        return Err(Error::AuthorizationError);
    }
    if status == 403 {
        return Err(Error::AuthenticationError);
    }
    match body {
        None => Err(
            Error::DeserializationError {
                error: "response could not be converted to UTF-8".to_owned(),
            },
        ),
        Some(s) => {
            if contains_substr(s.as_str(), "\"error\"") {
                let mut msg = String::from_str("influxdb error: \"");
                msg.append(s.as_str());
                msg.append("\"");
                proof {
                    assert(msg@ =~= "influxdb error: \""@ + s@ + "\""@);
                }
                Err(Error::DatabaseError { error: msg })
            } else {
                Ok(s)
            }
        },
    }
}

/// Interprets a ping response from its two expected headers: both present
/// is success; a missing header is a protocol violation of the remote
/// service rather than an assumed impossibility.
pub fn interpret_ping(build: Option<String>, version: Option<String>) -> (r: Result<
    (String, String),
    Error,
>)
    ensures
        build matches Some(b) ==> version matches Some(v) ==> r == Ok::<(String, String), Error>(
            (b, v),
        ),
        build is None || version is None ==> (r matches Err(e) && e matches Error::ProtocolError {
            ..
        }),
{
    match (build, version) {
        (Some(b), Some(v)) => Ok((b, v)),
        _ => Err(Error::ProtocolError { error: "missing expected response header".to_owned() }),
    }
}

} // verus!
