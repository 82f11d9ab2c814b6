//! The state of a bounded connection pool: how many sockets may exist, which
//! idle ones wait for reuse, and the generation counter that invalidates
//! sockets checked out before a reset.
//!
//! The sockets themselves live with the embedding application; the pool
//! state tracks them by plain identifiers and makes every decision — reuse,
//! connect, wait, return or discard — so those decisions are verified.

use vstd::prelude::*;
use vstd::string::StringExecFns;
use crate::error::Error;

verus! {

/// How many concurrent connections a pool allows by default.
pub const DEFAULT_POOL_SIZE: usize = 5;

/// Configuration of TLS for pooled connections.
#[derive(Debug, Clone, PartialEq)]
pub struct SslConfig {
    /// Path to the file listing trusted certificate authorities.
    pub ca_file: String,
    /// Path to the file holding the client certificate.
    pub certificate_file: String,
    /// Path to the file holding the client private key.
    pub key_file: String,
}

impl SslConfig {
    /// A configuration from its paths.
    pub fn new(ca_file: String, certificate_file: String, key_file: String) -> (r: SslConfig)
        ensures
            r.ca_file@ == ca_file@,
            r.certificate_file@ == certificate_file@,
            r.key_file@ == key_file@,
    {
        SslConfig { ca_file, certificate_file, key_file }
    }
}

/// What a caller asking for a socket should do next.
#[derive(Debug, Clone, Copy, PartialEq, Eq, Structural)]
pub enum AcquireDecision {
    /// Use this idle socket; it was checked out under this generation.
    Reuse(u64, usize),
    /// Open a new connection and register it; the pool reserved room.
    Connect(usize),
    /// The pool is full and nothing is idle: wait for a return.
    Wait,
}

/// The bookkeeping of one pool: its bound, how many sockets exist, the idle
/// ones by identifier, and the current generation.
#[derive(Debug, PartialEq)]
pub struct Pool {
    /// The maximum number of concurrent connections.
    pub size: usize,
    /// How many connections currently exist, idle or checked out.
    pub len: usize,
    /// The idle sockets, newest last.
    pub sockets: Vec<u64>,
    /// The generation: bumped on every reset, so sockets checked out before
    /// a reset are discarded rather than reused.
    pub iteration: usize,
}

impl Pool {
    /// An empty pool bounded by `size`.
    pub fn with_size(size: usize) -> (r: Pool)
        ensures
            r.size == size,
            r.len == 0,
            r.sockets@ == Seq::<u64>::empty(),
            r.iteration == 0,
    {
        Pool { size, len: 0, sockets: Vec::new(), iteration: 0 }
    }

    /// An empty pool with the default bound.
    pub fn new() -> (r: Pool)
        ensures
            r.size == DEFAULT_POOL_SIZE,
            r.len == 0,
            r.sockets@ == Seq::<u64>::empty(),
            r.iteration == 0,
    {
        Pool::with_size(DEFAULT_POOL_SIZE)
    }

    /// Change the bound; a bound of zero is rejected and changes nothing.
    pub fn set_size(&mut self, size: usize) -> (r: Result<(), Error>)
        ensures
            match r {
                Ok(()) => size >= 1 && *final(self) == (Pool { size, ..*old(self) }),
                Err(e) => size < 1 && e is ArgumentError && *final(self) == *old(self),
            },
    {
        if size < 1 {
            Err(Error::ArgumentError(
                String::from_str("The connection pool size must be greater than zero."),
            ))
        } else {
            self.size = size;
            Ok(())
        }
    }

    /// Reset the pool: drop every idle socket, forget every count, and move
    /// to the next generation, so sockets still checked out are not reused.
    pub fn clear(&mut self)
        requires
            old(self).iteration < usize::MAX,
        ensures
            final(self).size == old(self).size,
            final(self).len == 0,
            final(self).sockets@ == Seq::<u64>::empty(),
            final(self).iteration == old(self).iteration + 1,
    {
        self.iteration = self.iteration + 1;
        self.sockets = Vec::new();
        self.len = 0;
    }

    /// Decide how to satisfy a request for a socket: reuse the newest idle
    /// one, reserve room for a new connection while the bound allows it, and
    /// otherwise wait. A pool bounded by zero refuses outright.
    pub fn acquire(&mut self) -> (r: Result<AcquireDecision, Error>)
        ensures
            old(self).size == 0 ==> (r matches Err(e) && e is OperationError) && *final(self)
                == *old(self),
            old(self).size > 0 && old(self).sockets@.len() > 0 ==> r == Ok::<_, Error>(
                AcquireDecision::Reuse(old(self).sockets@.last(), old(self).iteration),
            ) && final(self).sockets@ == old(self).sockets@.drop_last() && final(self).size == old(
                self,
            ).size && final(self).len == old(self).len && final(self).iteration == old(
                self,
            ).iteration,
            old(self).size > 0 && old(self).sockets@.len() == 0 && old(self).len < old(self).size
                ==> r == Ok::<_, Error>(AcquireDecision::Connect(old(self).iteration))
                && final(self).sockets@ == old(self).sockets@ && final(self).size == old(self).size
                && final(self).len == old(self).len + 1 && final(self).iteration == old(
                self,
            ).iteration,
            old(self).size > 0 && old(self).sockets@.len() == 0 && old(self).len >= old(self).size
                ==> r == Ok::<_, Error>(AcquireDecision::Wait) && final(self).sockets@ == old(
                self,
            ).sockets@ && final(self).size == old(self).size && final(self).len == old(self).len
                && final(self).iteration == old(self).iteration,
    {
        if self.size == 0 {
            return Err(Error::OperationError(
                String::from_str(
                    "The connection pool does not allow connections; increase the size of the pool.",
                ),
            ));
        }
        match self.sockets.pop() {
            Some(socket) => Ok(AcquireDecision::Reuse(socket, self.iteration)),
            None => {
                if self.len < self.size {
                    self.len = self.len + 1;
                    Ok(AcquireDecision::Connect(self.iteration))
                } else {
                    Ok(AcquireDecision::Wait)
                }
            },
        }
    }

    /// Return a socket checked out under `iteration`: back into the idle set
    /// when the generation still matches; discarded — and no longer counted —
    /// after a reset.
    pub fn release(&mut self, socket: u64, iteration: usize)
        ensures
            iteration == old(self).iteration ==> final(self).sockets@ == old(
                self,
            ).sockets@.push(socket) && final(self).size == old(self).size && final(self).len == old(
                self,
            ).len && final(self).iteration == old(self).iteration,
            iteration != old(self).iteration ==> *final(self) == *old(self),
    {
        if iteration == self.iteration {
            self.sockets.push(socket);
        }
    }
}

} // verus!
