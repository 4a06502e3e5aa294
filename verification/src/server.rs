//! The connection dispatcher: the server's configuration and the application
//! state that hands every accepted connection to the worker pool.

use crate::logging::{level_for, LogLevel};
use crate::response::{resolve_path, resolved_path};
use crate::thread_pool::{PoolModel, ThreadPool};
use vstd::prelude::*;

verus! {

/// An IP address.
#[derive(Clone, Copy, Debug, PartialEq, Eq, Structural)]
pub enum HostAddress {
    /// The four octets of an IPv4 address.
    V4(u8, u8, u8, u8),
    /// The 128 bits of an IPv6 address.
    V6(u128),
}

/// The address and port that the server listens on.
#[derive(Clone, Copy, Debug, PartialEq, Eq, Structural)]
pub struct SocketAddress {
    pub host: HostAddress,
    pub port: u16,
}

/// The configuration: number of pool threads, paths to the root directory
/// and the not-found document, and the like.
pub struct Config {
    /// Controls the port and IP the server is exposed to.
    pub outfacing_ip: SocketAddress,
    /// Controls whether log records of level `Debug` are written.
    pub debug_logs: bool,
    /// Controls the number of workers in the pool.
    pub num_threads_in_pool: usize,
    /// The directory that request paths are resolved under.
    pub root_uri: String,
    /// The path to the document shown when the requested file is not found.
    pub not_found_path: Option<String>,
}

/// The entire state of the server. `C` is the connection handle: a unit of
/// work is one accepted connection waiting to be served.
pub struct App<C> {
    pub client_thread_pool: ThreadPool<C>,
    pub config: Config,
}

impl<C> App<C> {
    /// The pool is consistent and has the configured number of workers.
    pub open spec fn wf(&self) -> bool {
        &&& self.client_thread_pool.wf()
        &&& self.client_thread_pool@.busy.len() == self.config.num_threads_in_pool
    }

    /// Creates the server state for `config`, with a pool of
    /// `config.num_threads_in_pool` idle workers.
    pub fn new(config: Config) -> (app: App<C>)
        requires
            config.num_threads_in_pool > 0,
        ensures
            app.wf(),
            app.config == config,
            app.client_thread_pool@ == PoolModel::<C>::fresh(config.num_threads_in_pool as nat),
    {
        App { client_thread_pool: ThreadPool::new(config.num_threads_in_pool), config }
    }

    /// Hands an accepted connection to the pool and returns at once: the
    /// connection waits in the queue until a worker takes it.
    pub fn handle_connection(&mut self, stream: C)
        requires
            old(self).wf(),
        ensures
            final(self).wf(),
            final(self).config == old(self).config,
            final(self).client_thread_pool@ == old(self).client_thread_pool@.submit(stream),
    {
        self.client_thread_pool.execute(stream);
    }

    /// The level that the log is filtered at.
    pub fn log_level(&self) -> (level: LogLevel)
        ensures
            level == if self.config.debug_logs { LogLevel::Debug } else { LogLevel::Info },
    {
        level_for(self.config.debug_logs)
    }

    /// The file that a request path names under the configured root.
    pub fn requested_file(&self, requested: &str) -> (path: String)
        ensures
            path@ == resolved_path(self.config.root_uri@, requested@),
    {
        resolve_path(self.config.root_uri.as_str(), requested)
    }
}

} // verus!
