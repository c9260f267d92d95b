use vstd::prelude::*;

verus! {

/// All settings of the proxy: the `[server]` and the `[upstream]` sections.
#[derive(Debug, Clone)]
pub struct Settings {
    /// The `[server]` section.
    pub server: ServerSettings,
    /// The `[upstream]` section.
    pub upstream: UpstreamSettings,
}

/// Settings of the listening side of the proxy.
#[derive(Debug, Clone)]
pub struct ServerSettings {
    /// Address the proxy listens on, such as `0.0.0.0:8080`.
    pub listen_addr: String,
    /// Most connections that are served at the same time.
    pub max_connections: usize,
    /// How long a shutdown waits for open connections, in milliseconds.
    pub shutdown_timeout_ms: u64,
}

/// Settings of the backend that traffic is forwarded to.
#[derive(Debug, Clone)]
pub struct UpstreamSettings {
    /// Address of the backend, such as `echo-server:9000`.
    pub addr: String,
    /// How long a connection to the backend may take to open, in milliseconds.
    pub connect_timeout_ms: u64,
}

} // verus!
