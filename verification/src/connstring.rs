//! Connection targets: hosts and parsed connection strings.

use vstd::prelude::*;

verus! {

/// One server address.
#[derive(Debug, Clone, PartialEq)]
pub struct Host {
    pub host_name: String,
    pub port: u16,
}

impl Host {
    /// A host from its name and port.
    pub fn new(host_name: String, port: u16) -> (r: Host)
        ensures
            r.host_name@ == host_name@,
            r.port == port,
    {
        Host { host_name, port }
    }
}

/// A parsed connection string: the hosts to try, and the credentials and
/// default database it carried, when it carried any.
#[derive(Debug, Clone, PartialEq)]
pub struct ConnectionString {
    pub hosts: Vec<Host>,
    pub user: Option<String>,
    pub password: Option<String>,
    pub database: Option<String>,
}

impl ConnectionString {
    /// A connection string for one host, with no credentials.
    pub fn new(host_name: String, port: u16) -> (r: ConnectionString)
        ensures
            r.hosts@.len() == 1,
            r.hosts@[0].host_name@ == host_name@,
            r.hosts@[0].port == port,
            r.user is None,
            r.password is None,
            r.database is None,
    {
        let mut hosts: Vec<Host> = Vec::new();
        hosts.push(Host::new(host_name, port));
        ConnectionString { hosts, user: None, password: None, database: None }
    }
}

} // verus!
