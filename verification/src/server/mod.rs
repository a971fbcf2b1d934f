//! The server: its metrics, its event loop, and the face it shows.

pub mod linux_server;
pub mod server_metrics;

use vstd::prelude::*;
use crate::request::Request;
use crate::response::Response;
use crate::server::linux_server::{
    Action, Event, LinuxServer, ServerModel, spec_new, spec_start, spec_step,
};
use crate::server::server_metrics::ServerMetrics;

verus! {

/// An HTTP server for one port.
///
/// The server holds the application's two callbacks and the event loop.
/// It does no I/O and calls no callback itself: `start` and `step` say
/// what is to be done next, and whoever drives the server does it. The
/// request callback is called for `Action::Respond` and the periodic
/// callback for `Action::Periodic`.
pub struct Server<P, Q> {
    pub port: u16,
    /// Answers a request. Called once for each request that was read.
    pub process_request_callback: P,
    /// Called after each wait that found no descriptor ready.
    pub periodic_callback: Q,
    pub server_metrics: ServerMetrics,
    /// The event loop.
    pub linux_server: LinuxServer,
}

impl<P, Q> View for Server<P, Q> {
    type V = ServerModel;

    open spec fn view(&self) -> ServerModel {
        self.linux_server@
    }
}

impl<P: Fn(Request) -> Response, Q: Fn()> Server<P, Q> {
    /// A server for `port` with the two callbacks, not started yet.
    pub fn new(port: u16, process_request_callback: P, periodic_callback: Q) -> (server: Self)
        ensures
            server@ == spec_new(port),
            server.port == port,
            server.process_request_callback == process_request_callback,
            server.periodic_callback == periodic_callback,
            server.server_metrics == (ServerMetrics {
                raw_request_count: 0,
                page_request_count: 0,
            }),
    {
        Server {
            port,
            process_request_callback,
            periodic_callback,
            server_metrics: ServerMetrics::new(),
            linux_server: LinuxServer::new(port),
        }
    }

    /// Starts the server: gives the first action of its event loop.
    pub fn start(&mut self) -> (action: Action)
        ensures
            (final(self)@, action@) == spec_start(old(self)@),
            final(self).port == old(self).port,
            final(self).process_request_callback == old(self).process_request_callback,
            final(self).periodic_callback == old(self).periodic_callback,
            final(self).server_metrics == old(self).server_metrics,
    {
        self.linux_server.start()
    }

    /// One step of the event loop: takes the outcome of the last action
    /// and gives the next action.
    pub fn step(&mut self, event: Event) -> (action: Action)
        ensures
            (final(self)@, action@) == spec_step(old(self)@, event@),
            final(self).port == old(self).port,
            final(self).process_request_callback == old(self).process_request_callback,
            final(self).periodic_callback == old(self).periodic_callback,
            final(self).server_metrics == old(self).server_metrics,
    {
        self.linux_server.step(event)
    }
}

} // verus!
