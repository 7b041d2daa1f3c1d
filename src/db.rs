//! Table operations against a remote service: list, create, open and drop.
//!
//! Each operation is built from three verified steps: the request it sends
//! (`*_request`), the [`Transport`] that carries it, and the classification of
//! what came back (`finish_*`).
use vstd::prelude::*;
use crate::client::{base_headers, checked, invalid_uri_error, is_client_for, is_db_uri, RestfulClient};
use crate::error::{Error, ErrorView};
use crate::wire::{
    contains_text, decimal, decimal_string, occurs_in, pairs_view, HttpRequest, HttpResponse,
    Method, STATUS_BAD_REQUEST, STATUS_NOT_FOUND,
};

verus! {

/// Content type of the binary stream that a create request uploads.
pub const ARROW_STREAM_CONTENT_TYPE: &'static str = "application/vnd.apache.arrow.stream";

/// Carries requests to the service and decodes listing bodies.
///
/// Nothing is assumed of what an implementation returns: every operation
/// states what holds of each outcome.
pub trait Transport {
    /// Sends `request`; `Err` holds a description of a failure below HTTP.
    fn send(&self, request: &HttpRequest) -> Result<HttpResponse, String>;

    /// Decodes a listing body (`{"tables": [...], "page_token": ...}`).
    fn decode_listing(&self, body: &str) -> Result<ListTablesResponse, String>;
}

/// One page of a table listing.
#[derive(Debug, Clone)]
pub struct ListTablesResponse {
    /// Table names, in the order the service gave them.
    pub tables: Vec<String>,
    /// Where the next page begins; absent on the last page.
    pub page_token: Option<String>,
}

/// A handle on one table of a remote database.
#[derive(Debug)]
pub struct RemoteTable {
    pub client: RestfulClient,
    pub name: String,
}

impl RemoteTable {
    /// The table's name.
    pub fn name(&self) -> (r: &str)
        ensures
            r@ == self.name@,
    {
        self.name.as_str()
    }
}

/// Path of the listing endpoint.
pub open spec fn list_path() -> Seq<char> {
    "/v1/table/"@
}

/// Path of a per-table endpoint, such as `/v1/table/<name>/drop/`.
pub open spec fn table_path(name: Seq<char>, action: Seq<char>) -> Seq<char> {
    "/v1/table/"@ + name + "/"@ + action + "/"@
}

/// The query of a listing request: `limit`, then `page_token`, each when set.
pub open spec fn listing_query(limit: Option<u32>, start_after: Option<String>) -> Seq<
    (Seq<char>, Seq<char>),
> {
    let l = match limit {
        Some(n) => seq![("limit"@, decimal(n as nat))],
        None => Seq::empty(),
    };
    let p = match start_after {
        Some(s) => seq![("page_token"@, s@)],
        None => Seq::empty(),
    };
    l + p
}

/// The headers that a create request adds to the client's own.
pub open spec fn create_headers() -> Seq<(Seq<char>, Seq<char>)> {
    seq![("content-type"@, ARROW_STREAM_CONTENT_TYPE@), ("x-request-id"@, "na"@)]
}

/// The error of a create request that the service answered with 400: the
/// body reports a name that is taken, or else the body is the message.
pub open spec fn bad_create(name: Seq<char>, body: String, e: Error) -> bool {
    if occurs_in("already exists"@, body@) {
        e matches Error::TableAlreadyExists { name: n } && n@ == name
    } else {
        e == Error::InvalidInput { message: body }
    }
}

/// A table handle on `client` named `name`.
pub open spec fn is_handle(t: RemoteTable, client: RestfulClient, name: Seq<char>) -> bool {
    t.client == client && t.name@ == name
}

/// `r` is how a listing classifies: the transport outcome `outcome`, then,
/// for a success, the decoded body `decoded`.
pub open spec fn listing_classified(
    outcome: Result<HttpResponse, String>,
    decoded: Result<ListTablesResponse, String>,
    r: Result<Vec<String>, Error>,
) -> bool {
    match checked(outcome) {
        Err(e) => r == Err::<Vec<String>, Error>(e),
        Ok(_) => match decoded {
            Ok(l) => r == Ok::<Vec<String>, Error>(l.tables),
            Err(message) => r == Err::<Vec<String>, Error>(Error::Decode { message }),
        },
    }
}

/// `r` is how the answer `outcome` to a create request for table `name`
/// classifies: 400 is an existing name or invalid input, any other failure
/// is the generic one, success is a handle.
pub open spec fn create_classified(
    client: RestfulClient,
    name: Seq<char>,
    outcome: Result<HttpResponse, String>,
    r: Result<RemoteTable, Error>,
) -> bool {
    match outcome {
        Ok(resp) if resp.status == 400 => r matches Err(e) && bad_create(name, resp.body, e),
        _ => match checked(outcome) {
            Ok(_) => r matches Ok(t) && is_handle(t, client, name),
            Err(e) => r == Err::<RemoteTable, Error>(e),
        },
    }
}

/// `r` is how the answer `outcome` to an open request for table `name`
/// classifies: 404 is an unknown table, any other failure is the generic
/// one, success is a handle.
pub open spec fn open_classified(
    client: RestfulClient,
    name: Seq<char>,
    outcome: Result<HttpResponse, String>,
    r: Result<RemoteTable, Error>,
) -> bool {
    match outcome {
        Ok(resp) if resp.status == 404 => r matches Err(Error::TableNotFound { name: n }) && n@
            == name,
        _ => match checked(outcome) {
            Ok(_) => r matches Ok(t) && is_handle(t, client, name),
            Err(e) => r == Err::<RemoteTable, Error>(e),
        },
    }
}

/// `r` is how the answer `outcome` to a drop request classifies: any
/// success, whether or not the table existed, is `Ok`.
pub open spec fn drop_classified(outcome: Result<HttpResponse, String>, r: Result<(), Error>) -> bool {
    match checked(outcome) {
        Ok(_) => r is Ok,
        Err(e) => r == Err::<(), Error>(e),
    }
}

/// The error of every request to drop a whole database.
pub open spec fn drop_db_error() -> ErrorView {
    ErrorView::NotSupported { message: "Dropping databases is not supported in the remote API"@ }
}

/// A database on a remote service, reached through transport `T`.
pub struct RemoteDatabase<T: Transport> {
    pub client: RestfulClient,
    pub transport: T,
}

impl<T: Transport> RemoteDatabase<T> {
    /// A database for `uri` (`db://<name>`), sending through `transport`.
    pub fn try_new(
        uri: &str,
        api_key: &str,
        region: &str,
        host_override: Option<String>,
        transport: T,
    ) -> (r: Result<Self, Error>)
        ensures
            r is Ok <==> is_db_uri(uri@),
            r matches Err(e) ==> e@ == invalid_uri_error(uri@),
            r matches Ok(d) ==> is_client_for(d.client, uri@, api_key@, region@, host_override)
                && d.transport == transport,
    {
        let client = RestfulClient::try_new(uri, api_key, region, host_override)?;
        Ok(RemoteDatabase { client, transport })
    }

    /// `RemoteDatabase(host=<host>)`.
    pub fn display(&self) -> (r: String)
        ensures
            r@ == "RemoteDatabase(host="@ + self.client.host@ + ")"@,
    {
        let mut s = String::from_str("RemoteDatabase(host=");
        s.append(self.client.host.as_str());
        s.append(")");
        s
    }

    /// The request for one page of the table listing.
    pub fn table_names_request(&self, limit: Option<u32>, start_after: Option<String>) -> (r:
        HttpRequest)
        ensures
            r.method == Method::Get,
            r.host@ == self.client.host@,
            r.path@ == list_path(),
            pairs_view(r.query@) == listing_query(limit, start_after),
            pairs_view(r.headers@) == base_headers(self.client.api_key@, self.client.db_name@),
            r.body is None,
    {
        let ghost sa = start_after;
        let mut req = self.client.get("/v1/table/");
        if let Some(n) = limit {
            req.query.push((String::from_str("limit"), decimal_string(n)));
        }
        let ghost q1 = req.query@;
        if let Some(s) = start_after {
            req.query.push((String::from_str("page_token"), s));
        }
        proof {
            let l = match limit {
                Some(n) => seq![("limit"@, decimal(n as nat))],
                None => Seq::<(Seq<char>, Seq<char>)>::empty(),
            };
            assert(pairs_view(q1) =~= l);
            assert(pairs_view(req.query@) =~= listing_query(limit, sa));
        }
        req
    }

    /// The table names of a decoded listing page, as given; a body that did
    /// not decode is a decode error.
    pub fn finish_table_names(&self, decoded: Result<ListTablesResponse, String>) -> (r: Result<
        Vec<String>,
        Error,
    >)
        ensures
            match decoded {
                Ok(l) => r == Ok::<Vec<String>, Error>(l.tables),
                Err(message) => r == Err::<Vec<String>, Error>(Error::Decode { message }),
            },
    {
        match decoded {
            Ok(l) => Ok(l.tables),
            Err(message) => Err(Error::Decode { message }),
        }
    }

    /// Lists one page of table names, starting after `start_after` and
    /// holding at most `limit` names when they are set.
    pub fn table_names(&self, limit: Option<u32>, start_after: Option<String>) -> (r: Result<
        Vec<String>,
        Error,
    >)
        ensures
            exists|outcome, decoded| #[trigger] listing_classified(outcome, decoded, r),
    {
        let req = self.table_names_request(limit, start_after);
        let outcome = self.transport.send(&req);
        let ghost o = outcome;
        let body = match self.client.check_response(outcome) {
            Ok(body) => body,
            Err(e) => {
                let r = Err(e);
                assert(listing_classified(o, arbitrary(), r));
                return r;
            },
        };
        let decoded = self.transport.decode_listing(body.as_str());
        let ghost d = decoded;
        let r = self.finish_table_names(decoded);
        assert(listing_classified(o, d, r));
        r
    }

    /// The request that creates table `name` from the stream `payload`.
    pub fn create_table_request(&self, name: &str, payload: Vec<u8>) -> (r: HttpRequest)
        ensures
            r.method == Method::Post,
            r.host@ == self.client.host@,
            r.path@ == table_path(name@, "create"@),
            r.query@.len() == 0,
            pairs_view(r.headers@) == base_headers(self.client.api_key@, self.client.db_name@)
                + create_headers(),
            r.body == Some(payload),
    {
        let path = per_table_path(name, "create");
        let mut req = self.client.post(path.as_str());
        let ghost h0 = req.headers@;
        req.headers.push((String::from_str("content-type"), String::from_str(ARROW_STREAM_CONTENT_TYPE)));
        req.headers.push((String::from_str("x-request-id"), String::from_str("na")));
        assert(pairs_view(req.headers@) =~= pairs_view(h0) + create_headers());
        req.body = Some(payload);
        req
    }

    /// Classifies the answer to a create request for table `name`.
    pub fn finish_create_table(&self, name: &str, outcome: Result<HttpResponse, String>) -> (r:
        Result<RemoteTable, Error>)
        ensures
            create_classified(self.client, name@, outcome, r),
    {
        if let Ok(resp) = &outcome {
            if resp.status == STATUS_BAD_REQUEST {
                let body = resp.body.clone();
                if contains_text(body.as_str(), "already exists") {
                    return Err(Error::TableAlreadyExists { name: String::from_str(name) });
                } else {
                    return Err(Error::InvalidInput { message: body });
                }
            }
        }
        let _ = self.client.check_response(outcome)?;
        Ok(RemoteTable { client: self.client.share(), name: String::from_str(name) })
    }

    /// Creates table `name` from the stream `payload`, which holds the
    /// table's schema and its batches, if any.
    pub fn create_table(&self, name: &str, payload: Vec<u8>) -> (r: Result<RemoteTable, Error>)
        ensures
            exists|outcome| #[trigger] create_classified(self.client, name@, outcome, r),
    {
        let req = self.create_table_request(name, payload);
        let outcome = self.transport.send(&req);
        let ghost o = outcome;
        let r = self.finish_create_table(name, outcome);
        assert(create_classified(self.client, name@, o, r));
        r
    }

    /// The request that confirms table `name` exists. Storage options have
    /// no effect on a remote service and do not enter the request.
    pub fn open_table_request(&self, name: &str, _storage_options: Option<Vec<(String, String)>>) -> (r:
        HttpRequest)
        ensures
            r.method == Method::Get,
            r.host@ == self.client.host@,
            r.path@ == table_path(name@, "describe"@),
            r.query@.len() == 0,
            pairs_view(r.headers@) == base_headers(self.client.api_key@, self.client.db_name@),
            r.body is None,
    {
        let path = per_table_path(name, "describe");
        self.client.get(path.as_str())
    }

    /// Classifies the answer to an open request for table `name`.
    pub fn finish_open_table(&self, name: &str, outcome: Result<HttpResponse, String>) -> (r:
        Result<RemoteTable, Error>)
        ensures
            open_classified(self.client, name@, outcome, r),
    {
        if let Ok(resp) = &outcome {
            if resp.status == STATUS_NOT_FOUND {
                return Err(Error::TableNotFound { name: String::from_str(name) });
            }
        }
        let _ = self.client.check_response(outcome)?;
        Ok(RemoteTable { client: self.client.share(), name: String::from_str(name) })
    }

    /// Opens table `name` after confirming that the service knows it.
    pub fn open_table(&self, name: &str, storage_options: Option<Vec<(String, String)>>) -> (r:
        Result<RemoteTable, Error>)
        ensures
            exists|outcome| #[trigger] open_classified(self.client, name@, outcome, r),
    {
        let req = self.open_table_request(name, storage_options);
        let outcome = self.transport.send(&req);
        let ghost o = outcome;
        let r = self.finish_open_table(name, outcome);
        assert(open_classified(self.client, name@, o, r));
        r
    }

    /// The request that drops table `name`: no query and no body.
    pub fn drop_table_request(&self, name: &str) -> (r: HttpRequest)
        ensures
            r.method == Method::Post,
            r.host@ == self.client.host@,
            r.path@ == table_path(name@, "drop"@),
            r.query@.len() == 0,
            pairs_view(r.headers@) == base_headers(self.client.api_key@, self.client.db_name@),
            r.body is None,
    {
        let path = per_table_path(name, "drop");
        self.client.post(path.as_str())
    }

    /// Classifies the answer to a drop request. Success does not mean the
    /// table existed.
    pub fn finish_drop_table(&self, outcome: Result<HttpResponse, String>) -> (r: Result<(), Error>)
        ensures
            drop_classified(outcome, r),
    {
        let _ = self.client.check_response(outcome)?;
        Ok(())
    }

    /// Drops table `name`.
    pub fn drop_table(&self, name: &str) -> (r: Result<(), Error>)
        ensures
            exists|outcome| #[trigger] drop_classified(outcome, r),
    {
        let req = self.drop_table_request(name);
        let outcome = self.transport.send(&req);
        let ghost o = outcome;
        let r = self.finish_drop_table(outcome);
        assert(drop_classified(o, r));
        r
    }

    /// Dropping a whole database is not offered remotely: always fails, and
    /// sends nothing.
    pub fn drop_db(&self) -> (r: Result<(), Error>)
        ensures
            r matches Err(e) && e@ == drop_db_error(),
    {
        Err(
            Error::NotSupported {
                message: String::from_str("Dropping databases is not supported in the remote API"),
            },
        )
    }
}

/// Dropping a database is idempotent: any two results that `drop_db` may
/// return are the same error.
pub proof fn drop_db_idempotent(r1: Result<(), Error>, r2: Result<(), Error>)
    requires
        r1 matches Err(e) && e@ == drop_db_error(),
        r2 matches Err(e) && e@ == drop_db_error(),
    ensures
        r1 matches Err(e1) && r2 matches Err(e2) && e1@ == e2@,
{
}

/// `/v1/table/<name>/<action>/`.
fn per_table_path(name: &str, action: &str) -> (r: String)
    ensures
        r@ == table_path(name@, action@),
{
    let mut p = String::from_str("/v1/table/");
    p.append(name);
    p.append("/");
    p.append(action);
    p.append("/");
    p
}

} // verus!
