//! The transport client: where requests go and how they are authenticated.
use vstd::prelude::*;
use crate::error::{Error, ErrorView};
use crate::wire::{is_success_code, pairs_view, status_is_success, HttpRequest, HttpResponse, Method};

verus! {

/// `k` is where the first path segment of `s` ends: at the first `/`, or at
/// the end of `s` when there is none.
pub open spec fn segment_end(s: Seq<char>, k: int) -> bool {
    &&& 0 <= k <= s.len()
    &&& k < s.len() ==> s[k] == '/'
    &&& forall|j: int| 0 <= j < k ==> s[j] != '/'
}

/// What follows the `db://` scheme of a database URI.
pub open spec fn after_scheme(uri: Seq<char>) -> Seq<char> {
    uri.subrange(5, uri.len() as int)
}

/// A database URI: the `db://` scheme followed by a non-empty database name.
pub open spec fn is_db_uri(uri: Seq<char>) -> bool {
    &&& uri.len() > 5
    &&& uri.subrange(0, 5) == "db://"@
    &&& uri[5] != '/'
}

/// `uri` starts with the `db://` scheme of a remote database.
pub open spec fn has_db_scheme(uri: Seq<char>) -> bool {
    uri.len() >= 5 && uri.subrange(0, 5) == "db://"@
}

/// Whether `uri` starts with `db://`.
pub fn starts_with_db_scheme(uri: &str) -> (r: bool)
    ensures
        r == has_db_scheme(uri@),
{
    proof {
        reveal_strlit("db://");
    }
    let len = uri.unicode_len();
    len >= 5 && String::from_str(uri.substring_char(0, 5)) == String::from_str("db://")
}

/// The error for a URI that does not name a remote database.
pub open spec fn invalid_uri_error(uri: Seq<char>) -> ErrorView {
    ErrorView::InvalidInput { message: "invalid database URI (expected db://<name>): "@ + uri }
}

/// The service host of a database in a region, when no host is given.
pub open spec fn default_host(db_name: Seq<char>, region: Seq<char>) -> Seq<char> {
    "https://"@ + db_name + "."@ + region + ".api.lancedb.com"@
}

/// The headers that authenticate every request of a client.
pub open spec fn base_headers(api_key: Seq<char>, db_name: Seq<char>) -> Seq<(Seq<char>, Seq<char>)> {
    seq![("x-api-key"@, api_key), ("x-lancedb-database"@, db_name)]
}

/// `c` is the client for database URI `uri`, with the given credential,
/// region and optional host.
pub open spec fn is_client_for(
    c: RestfulClient,
    uri: Seq<char>,
    api_key: Seq<char>,
    region: Seq<char>,
    host_override: Option<String>,
) -> bool {
    &&& exists|k: int| segment_end(after_scheme(uri), k) && c.db_name@ == after_scheme(uri).take(k)
    &&& c.api_key@ == api_key
    &&& c.host@ == match host_override {
        Some(h) => h@,
        None => default_host(c.db_name@, region),
    }
}

/// The outcome of sending a request, as the generic check classifies it:
/// the body of a success response, or an error.
pub open spec fn checked(outcome: Result<HttpResponse, String>) -> Result<String, Error> {
    match outcome {
        Err(message) => Err(Error::Transport { message }),
        Ok(resp) => if is_success_code(resp.status) {
            Ok(resp.body)
        } else {
            Err(Error::Service { status: resp.status, body: resp.body })
        },
    }
}

/// Host, credential and database of a remote service. Never changed by a
/// request.
#[derive(Debug)]
pub struct RestfulClient {
    pub host: String,
    pub api_key: String,
    pub db_name: String,
}

impl RestfulClient {
    /// A client for the database that `uri` (`db://<name>`) names.
    /// The host is `host_override` when given, else the region's default host.
    pub fn try_new(uri: &str, api_key: &str, region: &str, host_override: Option<String>) -> (r:
        Result<RestfulClient, Error>)
        ensures
            r is Ok <==> is_db_uri(uri@),
            r matches Err(e) ==> e@ == invalid_uri_error(uri@),
            r matches Ok(c) ==> is_client_for(c, uri@, api_key@, region@, host_override),
    {
        let len = uri.unicode_len();
        if !starts_with_db_scheme(uri) || len == 5 || uri.get_char(5) == '/' {
            let mut message = String::from_str("invalid database URI (expected db://<name>): ");
            message.append(uri);
            return Err(Error::InvalidInput { message });
        }
        let mut i: usize = 5;
        while i < len && uri.get_char(i) != '/'
            invariant
                len == uri@.len(),
                5 <= i <= len,
                forall|j: int| 5 <= j < i ==> uri@[j] != '/',
            decreases len - i,
        {
            i = i + 1;
        }
        let db_name = String::from_str(uri.substring_char(5, i));
        proof {
            let rest = after_scheme(uri@);
            let k = i - 5;
            assert(segment_end(rest, k));
            assert(db_name@ =~= rest.take(k));
        }
        let host = match host_override {
            Some(h) => h,
            None => {
                let mut h = String::from_str("https://");
                h.append(db_name.as_str());
                h.append(".");
                h.append(region);
                h.append(".api.lancedb.com");
                h
            },
        };
        Ok(RestfulClient { host, api_key: String::from_str(api_key), db_name })
    }

    /// The host that requests are sent to.
    pub fn host(&self) -> (r: &str)
        ensures
            r@ == self.host@,
    {
        self.host.as_str()
    }

    /// A copy of this client, equal field by field.
    pub fn share(&self) -> (r: RestfulClient)
        ensures
            r == *self,
    {
        RestfulClient {
            host: self.host.clone(),
            api_key: self.api_key.clone(),
            db_name: self.db_name.clone(),
        }
    }

    fn request(&self, method: Method, path: &str) -> (r: HttpRequest)
        ensures
            r.method == method,
            r.host@ == self.host@,
            r.path@ == path@,
            r.query@.len() == 0,
            pairs_view(r.headers@) == base_headers(self.api_key@, self.db_name@),
            r.body is None,
    {
        let mut headers: Vec<(String, String)> = Vec::new();
        headers.push((String::from_str("x-api-key"), self.api_key.clone()));
        headers.push((String::from_str("x-lancedb-database"), self.db_name.clone()));
        assert(pairs_view(headers@) =~= base_headers(self.api_key@, self.db_name@));
        HttpRequest {
            method,
            host: self.host.clone(),
            path: String::from_str(path),
            query: Vec::new(),
            headers,
            body: None,
        }
    }

    /// A GET request to `path`, with the client's headers and nothing else.
    pub fn get(&self, path: &str) -> (r: HttpRequest)
        ensures
            r.method == Method::Get,
            r.host@ == self.host@,
            r.path@ == path@,
            r.query@.len() == 0,
            pairs_view(r.headers@) == base_headers(self.api_key@, self.db_name@),
            r.body is None,
    {
        self.request(Method::Get, path)
    }

    /// A POST request to `path`, with the client's headers and nothing else.
    pub fn post(&self, path: &str) -> (r: HttpRequest)
        ensures
            r.method == Method::Post,
            r.host@ == self.host@,
            r.path@ == path@,
            r.query@.len() == 0,
            pairs_view(r.headers@) == base_headers(self.api_key@, self.db_name@),
            r.body is None,
    {
        self.request(Method::Post, path)
    }

    /// The body of a success response; a transport failure or a non-success
    /// status becomes the matching error.
    pub fn check_response(&self, outcome: Result<HttpResponse, String>) -> (r: Result<String, Error>)
        ensures
            r == checked(outcome),
    {
        match outcome {
            Err(message) => Err(Error::Transport { message }),
            Ok(resp) => if status_is_success(resp.status) {
                Ok(resp.body)
            } else {
                Err(Error::Service { status: resp.status, body: resp.body })
            },
        }
    }
}

} // verus!
