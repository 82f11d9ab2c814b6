//! The data a pooled-connection manager needs: where to connect, which
//! database to hand out, and the client options to apply.

use vstd::prelude::*;
use crate::common::{ReadPreference, WriteConcern};
use crate::connstring::ConnectionString;

verus! {

/// Options applied to each client the manager creates.
#[derive(Debug, PartialEq)]
pub struct ClientOptions {
    pub read_preference: Option<ReadPreference>,
    pub write_concern: Option<WriteConcern>,
    pub pool_size: Option<usize>,
}

/// A connection manager for a pooling layer: it creates a client per
/// connection string and hands out one named database on it.
#[derive(Debug, PartialEq)]
pub struct MongoConnectionManager {
    pub conn_str: ConnectionString,
    pub db_name: String,
    pub client_options: Option<ClientOptions>,
}

impl MongoConnectionManager {
    /// A manager from its connection string, database name and options.
    pub fn new(
        connection_str: ConnectionString,
        db_name: String,
        client_options: Option<ClientOptions>,
    ) -> (r: MongoConnectionManager)
        ensures
            r == (MongoConnectionManager { conn_str: connection_str, db_name, client_options }),
    {
        MongoConnectionManager { conn_str: connection_str, db_name, client_options }
    }
}

} // verus!
