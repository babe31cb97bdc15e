//! The gRPC server of the example service: the part of building and running
//! it that decides what to listen on and what it reports.

use vstd::prelude::*;

pub mod settings;

use crate::server::settings::{ServerSettings, ServerSettingsView, default_server_settings};
use crate::service_core::ExampleServiceCore;

verus! {

/// A server over a service core, listening on `service_port`.
pub struct ExampleServiceServer<P> {
    core: ExampleServiceCore<P>,
    service_port: u16,
}

/// The abstract value of a server: the persistence layer of its core, and
/// the port it listens on.
pub struct ServerView<P> {
    pub core: P,
    pub service_port: u16,
}

impl<P> View for ExampleServiceServer<P> {
    type V = ServerView<P>;

    closed spec fn view(&self) -> ServerView<P> {
        ServerView { core: self.core@, service_port: self.service_port }
    }
}

impl<P: Clone> Clone for ExampleServiceServer<P> {
    /// A copy of the server, over a clone of its core, listening on the
    /// same port.
    fn clone(&self) -> (s: Self)
        ensures
            s@.service_port == self@.service_port,
            cloned::<P>(self@.core, s@.core),
    {
        ExampleServiceServer { core: self.core.clone(), service_port: self.service_port }
    }
}

impl<P> ExampleServiceServer<P> {
    /// A builder of a server over `core`, with the default settings.
    pub fn builder(core: ExampleServiceCore<P>) -> (b: Builder<P>)
        ensures
            b@ == (ServerBuilderView { settings: default_server_settings(), core: core@ }),
    {
        Builder::new(core)
    }

    /// The port that the server listens on.
    pub fn service_port(&self) -> (port: u16)
        ensures
            port == self@.service_port,
    {
        self.service_port
    }
}

/// Builds an `ExampleServiceServer`.
pub struct Builder<P> {
    settings: ServerSettings,
    core: ExampleServiceCore<P>,
}

/// The abstract value of a server builder: its settings, and the
/// persistence layer of its core.
pub struct ServerBuilderView<P> {
    pub settings: ServerSettingsView,
    pub core: P,
}

impl<P> View for Builder<P> {
    type V = ServerBuilderView<P>;

    closed spec fn view(&self) -> ServerBuilderView<P> {
        ServerBuilderView { settings: self.settings@, core: self.core@ }
    }
}

impl<P> Builder<P> {
    /// A builder over `core`, with the default settings.
    pub fn new(core: ExampleServiceCore<P>) -> (b: Builder<P>)
        ensures
            b@ == (ServerBuilderView { settings: default_server_settings(), core: core@ }),
    {
        Builder { settings: ServerSettings::default(), core }
    }

    /// The same builder with `settings` in place of its settings.
    pub fn with_settings(self, settings: &ServerSettings) -> (b: Builder<P>)
        ensures
            b@ == (ServerBuilderView { settings: settings@, core: self@.core }),
    {
        Builder { settings: settings.clone(), core: self.core }
    }

    /// The same builder, set to listen on a port that the system picks
    /// (port 0); the host stays.
    pub fn with_random_port(self) -> (b: Builder<P>)
        ensures
            b@ == (ServerBuilderView {
                settings: ServerSettingsView { host: self@.settings.host, port: 0 },
                core: self@.core,
            }),
    {
        let mut builder = self;
        builder.settings.service_mut().set_port(0);
        builder
    }

    /// The host and the port that the server is to listen on.
    pub fn listen_address(&self) -> (a: (String, u16))
        ensures
            a.0@ == self@.settings.host,
            a.1 == self@.settings.port,
    {
        (self.settings.host().to_string(), self.settings.service().port())
    }

    /// The server, once a listener is bound on the port `bound_port` (the
    /// port that the system picked, where the settings asked for port 0).
    pub fn build(self, bound_port: u16) -> (server: ExampleServiceServer<P>)
        ensures
            server@ == (ServerView { core: self@.core, service_port: bound_port }),
    {
        ExampleServiceServer { core: self.core, service_port: bound_port }
    }
}

} // verus!
