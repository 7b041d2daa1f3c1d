//! A connection whose backend is chosen by the scheme of its URI: a remote
//! database for `db://` URIs, a local dataset engine for any other.
use vstd::prelude::*;
use crate::client::{has_db_scheme, invalid_uri_error, is_client_for, is_db_uri, starts_with_db_scheme};
use crate::db::{listing_classified, RemoteDatabase, Transport};
use crate::error::Error;

verus! {

/// A connection to a local dataset engine, which lives outside this library.
///
/// Nothing is assumed of what an implementation returns.
pub trait LocalEngine: Sized {
    /// Opens the local database at `uri`.
    fn open(uri: &str) -> Result<Self, Error>;

    /// The names of the local database's tables.
    fn table_names(&self) -> Result<Vec<String>, Error>;
}

/// The two implementations of a connection.
pub enum Backend<T: Transport, L: LocalEngine> {
    Remote(RemoteDatabase<T>),
    Local(L),
}

/// `r` is the connection that opening a local engine produced, with the
/// outcome `opened`: its engine, or its error unchanged.
pub open spec fn wraps_local<T: Transport, L: LocalEngine>(
    opened: Result<L, Error>,
    r: Result<BlockingConnection<T, L>, Error>,
) -> bool {
    match opened {
        Ok(l) => r matches Ok(c) && c.inner == Backend::<T, L>::Local(l),
        Err(e) => r == Err::<BlockingConnection<T, L>, Error>(e),
    }
}

/// A connection whose operations each run to completion before returning.
pub struct BlockingConnection<T: Transport, L: LocalEngine> {
    pub inner: Backend<T, L>,
}

impl<T: Transport, L: LocalEngine> BlockingConnection<T, L> {
    /// Connects to what `dataset_uri` names: the remote database of a
    /// `db://<name>` URI, sending through `transport`, or else the local
    /// database that engine `L` opens.
    pub fn create(dataset_uri: &str, api_key: &str, region: &str, transport: T) -> (r: Result<
        Self,
        Error,
    >)
        ensures
            has_db_scheme(dataset_uri@) ==> {
                &&& r is Ok <==> is_db_uri(dataset_uri@)
                &&& r matches Err(e) ==> e@ == invalid_uri_error(dataset_uri@)
                &&& r matches Ok(c) ==> c.inner matches Backend::Remote(d) && is_client_for(
                    d.client,
                    dataset_uri@,
                    api_key@,
                    region@,
                    None,
                ) && d.transport == transport
            },
            !has_db_scheme(dataset_uri@) ==> exists|opened| #[trigger] wraps_local(opened, r),
    {
        if !starts_with_db_scheme(dataset_uri) {
            let opened = L::open(dataset_uri);
            let ghost o = opened;
            let r = match opened {
                Ok(l) => Ok(BlockingConnection { inner: Backend::Local(l) }),
                Err(e) => Err(e),
            };
            assert(wraps_local(o, r));
            return r;
        }
        let db = RemoteDatabase::try_new(dataset_uri, api_key, region, None, transport)?;
        Ok(BlockingConnection { inner: Backend::Remote(db) })
    }

    /// The names of the database's tables, in the order the backend gives
    /// them.
    pub fn table_names(&self) -> (r: Result<Vec<String>, Error>)
        ensures
            self.inner is Remote ==> exists|outcome, decoded| #[trigger] listing_classified(
                outcome,
                decoded,
                r,
            ),
    {
        match &self.inner {
            Backend::Remote(db) => db.table_names(None, None),
            Backend::Local(l) => l.table_names(),
        }
    }
}

} // verus!
