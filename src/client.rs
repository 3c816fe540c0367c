use vstd::prelude::*;

use crate::error::{Error, ErrorKind};
use crate::validate::{ensure_not_empty, is_blank, is_empty_argument};

verus! {

/// The HTTP methods the registry's module resources use.
#[derive(Clone, Copy, Debug, PartialEq, Eq, Structural)]
pub enum Method {
    Get,
    Put,
    Delete,
}

/// One call to the registry, ready for a transport to send.
///
/// `if_match_any` asks for the unconditional-match precondition (`If-Match: *`);
/// when it is false no conditional header is sent at all.
#[derive(Clone, Debug, PartialEq, Eq)]
pub struct ApiRequest<T> {
    pub method: Method,
    pub path: String,
    pub url: String,
    pub body: Option<T>,
    pub if_match_any: bool,
}

/// The generic REST client: a base URL and the API version sent with every call.
#[derive(Debug)]
pub struct Client {
    api_version: String,
    host_name: String,
}

/// The URL of `path` on `host` at API version `version`.
pub open spec fn url_of(host: Seq<char>, path: Seq<char>, version: Seq<char>) -> Seq<char> {
    host + path + "?api-version="@ + version
}

/// Whether `code` is a success status (2xx).
pub open spec fn is_success(code: u16) -> bool {
    200 <= code && code < 300
}

/// The error for a failed status: the registry's own message where it gave one.
pub open spec fn status_error(code: u16, message: Option<String>) -> Error {
    match message {
        Some(m) => Error { kind: ErrorKind::Service(code, m) },
        None => Error { kind: ErrorKind::Status(code) },
    }
}

impl Client {
    pub closed spec fn api_version_view(&self) -> Seq<char> {
        self.api_version@
    }

    pub closed spec fn host_name_view(&self) -> Seq<char> {
        self.host_name@
    }

    /// The API version is never blank.
    #[verifier::type_invariant]
    spec fn inv(&self) -> bool {
        !is_blank(self.api_version@)
    }

    /// A client for the registry at `host_name` speaking `api_version`; a blank
    /// API version is refused.
    pub fn new(api_version: &str, host_name: &str) -> (r: Result<Client, Error>)
        ensures
            is_blank(api_version@) <==> r is Err,
            r is Err ==> is_empty_argument(r->Err_0, "api_version"@),
            r is Ok ==> r->Ok_0.api_version_view() == api_version@
                && r->Ok_0.host_name_view() == host_name@,
    {
        let v = ensure_not_empty("api_version", api_version)?;
        Ok(Client { api_version: String::from_str(v), host_name: String::from_str(host_name) })
    }

    pub fn api_version(&self) -> (r: &str)
        ensures
            r@ == self.api_version_view(),
            !is_blank(r@),
    {
        proof {
            use_type_invariant(self);
        }
        self.api_version.as_str()
    }

    pub fn host_name(&self) -> (r: &str)
        ensures
            r@ == self.host_name_view(),
    {
        self.host_name.as_str()
    }

    /// The full URL of `path`: the base URL, the path, then the API version.
    pub fn url_for(&self, path: &str) -> (r: String)
        ensures
            r@ == url_of(self.host_name_view(), path@, self.api_version_view()),
    {
        let mut u = self.host_name.clone();
        u.append(path);
        u.append("?api-version=");
        u.append(self.api_version.as_str());
        u
    }

    /// Builds one call: `method` on `path`, with `body` to be sent as JSON, and
    /// the unconditional-match header exactly when `add_if_match` holds.
    pub fn request<T>(&self, method: Method, path: &str, body: Option<T>, add_if_match: bool) -> (r:
        ApiRequest<T>)
        ensures
            r.method == method,
            r.path@ == path@,
            r.url@ == url_of(self.host_name_view(), path@, self.api_version_view()),
            r.body == body,
            r.if_match_any == add_if_match,
    {
        ApiRequest {
            method,
            path: String::from_str(path),
            url: self.url_for(path),
            body,
            if_match_any: add_if_match,
        }
    }

    /// Whether `code` is a success status (2xx).
    pub fn is_success_status(code: u16) -> (r: bool)
        ensures
            r == is_success(code),
    {
        200 <= code && code < 300
    }

    /// What a reply's body decodes to: nothing where the body was empty, else
    /// the value decoded, or the decoding error.
    pub fn body_outcome<T>(empty: bool, decoded: Result<T, Error>) -> (r: Result<Option<T>, Error>)
        ensures
            empty ==> r == Ok::<Option<T>, Error>(None),
            !empty && decoded is Ok ==> r == Ok::<Option<T>, Error>(Some(decoded->Ok_0)),
            !empty && decoded is Err ==> r == Err::<Option<T>, Error>(decoded->Err_0),
    {
        if empty {
            Ok(None)
        } else {
            match decoded {
                Ok(v) => Ok(Some(v)),
                Err(e) => Err(e),
            }
        }
    }

    /// The outcome of a call whose status was `code`. On success it is what
    /// decoding the body gave (`None` for no body); otherwise it is the status
    /// error, with the registry's error message where one came.
    pub fn reply<T>(code: u16, decoded: Result<Option<T>, Error>, message: Option<String>) -> (r:
        Result<Option<T>, Error>)
        ensures
            is_success(code) ==> r == decoded,
            !is_success(code) ==> r == Err::<Option<T>, Error>(status_error(code, message)),
    {
        if Client::is_success_status(code) {
            decoded
        } else {
            match message {
                Some(m) => Err(Error::new(ErrorKind::Service(code, m))),
                None => Err(Error::new(ErrorKind::Status(code))),
            }
        }
    }
}

} // verus!
