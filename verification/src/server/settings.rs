//! Settings of the server: the host and the port it listens on.

use vstd::prelude::*;

verus! {

broadcast use vstd::string::to_string_from_display_ensures_for_str;

/// Settings of the service endpoint.
#[derive(Clone, Copy, Debug, PartialEq, Eq, Structural)]
pub struct ServiceSettings {
    port: u16,
}

impl View for ServiceSettings {
    type V = u16;

    /// The port.
    closed spec fn view(&self) -> u16 {
        self.port
    }
}

impl ServiceSettings {
    /// The port to listen on (0: one that the system picks).
    pub fn port(&self) -> (p: u16)
        ensures
            p == self@,
    {
        self.port
    }

    /// Sets the port to listen on.
    pub fn set_port(&mut self, port: u16)
        ensures
            final(self)@ == port,
    {
        self.port = port;
    }
}

/// Settings of the server.
#[derive(Debug)]
pub struct ServerSettings {
    host: String,
    service: ServiceSettings,
}

/// The abstract value of server settings.
pub struct ServerSettingsView {
    pub host: Seq<char>,
    pub port: u16,
}

impl View for ServerSettings {
    type V = ServerSettingsView;

    closed spec fn view(&self) -> ServerSettingsView {
        ServerSettingsView { host: self.host@, port: self.service@ }
    }
}

/// The default settings: every interface, port 50051. These values are this
/// library's own choice (the usual gRPC port); nothing that the service's
/// builders do depends on them.
pub open spec fn default_server_settings() -> ServerSettingsView {
    ServerSettingsView { host: "0.0.0.0"@, port: 50051 }
}

impl Default for ServerSettings {
    fn default() -> (s: ServerSettings)
        ensures
            s@ == default_server_settings(),
    {
        ServerSettings { host: "0.0.0.0".to_string(), service: ServiceSettings { port: 50051 } }
    }
}

impl Clone for ServerSettings {
    fn clone(&self) -> (s: ServerSettings)
        ensures
            s@ == self@,
    {
        ServerSettings { host: self.host.clone(), service: self.service }
    }
}

impl ServerSettings {
    /// Settings that listen on `host`, port `port`.
    pub fn new(host: String, port: u16) -> (s: ServerSettings)
        ensures
            s@ == (ServerSettingsView { host: host@, port }),
    {
        ServerSettings { host, service: ServiceSettings { port } }
    }

    /// The host to listen on.
    pub fn host(&self) -> (h: &str)
        ensures
            h@ == self@.host,
    {
        self.host.as_str()
    }

    /// The settings of the service endpoint.
    pub fn service(&self) -> (s: &ServiceSettings)
        ensures
            s@ == self@.port,
    {
        &self.service
    }

    /// The settings of the service endpoint, to change them.
    pub fn service_mut(&mut self) -> (s: &mut ServiceSettings)
        ensures
            s@ == old(self)@.port,
            final(self)@ == (ServerSettingsView { host: old(self)@.host, port: final(s)@ }),
    {
        &mut self.service
    }
}

} // verus!
