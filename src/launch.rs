use vstd::prelude::*;

use crate::decimal::{decimal, push_decimal};

verus! {

/// Port on which the bridge listens for WebSocket clients when none is given.
pub const DEFAULT_WS_PORT: u16 = 12346;

/// Host to which the bridge forwards when none is given.
pub const DEFAULT_TCP_HOST: &'static str = "127.0.0.1";

/// TCP port to which the bridge forwards when none is given.
pub const DEFAULT_TCP_PORT: u16 = 12345;

/// Where the bridge listens and where it forwards to.
#[derive(Debug, Clone, PartialEq, Eq)]
pub struct LaunchConfig {
    pub ws_port: u16,
    pub tcp_host: String,
    pub tcp_port: u16,
}

/// A port as given, or `default` where it was omitted.
pub open spec fn port_or(p: Option<u16>, default: u16) -> u16 {
    match p {
        Some(v) => v,
        None => default,
    }
}

/// A host as given, or the default host where it was omitted.
pub open spec fn host_or_default(h: Option<String>) -> Seq<char> {
    match h {
        Some(s) => s@,
        None => DEFAULT_TCP_HOST@,
    }
}

/// The views of a list of strings.
pub open spec fn views(v: Seq<String>) -> Seq<Seq<char>> {
    v.map_values(|s: String| s@)
}

/// The bridge's command line: text mode, a WebSocket listener on all
/// interfaces at `ws_port`, and a TCP target at `host:tcp_port`.
pub open spec fn launch_args(ws_port: u16, host: Seq<char>, tcp_port: u16) -> Seq<Seq<char>> {
    seq![
        "--text"@,
        "ws-l:0.0.0.0:"@ + decimal(ws_port as nat),
        "tcp:"@ + host + ":"@ + decimal(tcp_port as nat),
    ]
}

impl LaunchConfig {
    /// Fills in the defaults for whatever was omitted.
    pub fn resolve(ws_port: Option<u16>, tcp_host: Option<String>, tcp_port: Option<u16>) -> (r: Self)
        ensures
            r.ws_port == port_or(ws_port, DEFAULT_WS_PORT),
            r.tcp_host@ == host_or_default(tcp_host),
            r.tcp_port == port_or(tcp_port, DEFAULT_TCP_PORT),
    {
        let ws_port = match ws_port {
            Some(p) => p,
            None => DEFAULT_WS_PORT,
        };
        let tcp_host = match tcp_host {
            Some(h) => h,
            None => String::from_str(DEFAULT_TCP_HOST),
        };
        let tcp_port = match tcp_port {
            Some(p) => p,
            None => DEFAULT_TCP_PORT,
        };
        LaunchConfig { ws_port, tcp_host, tcp_port }
    }

    /// The command line that starts the bridge with this configuration.
    pub fn args(&self) -> (r: Vec<String>)
        ensures
            views(r@) == launch_args(self.ws_port, self.tcp_host@, self.tcp_port),
    {
        let mut listen = String::from_str("ws-l:0.0.0.0:");
        push_decimal(&mut listen, self.ws_port);
        let mut target = String::from_str("tcp:");
        target.append(self.tcp_host.as_str());
        target.append(":");
        push_decimal(&mut target, self.tcp_port);
        let mut r: Vec<String> = Vec::new();
        r.push(String::from_str("--text"));
        r.push(listen);
        r.push(target);
        assert(views(r@) =~= launch_args(self.ws_port, self.tcp_host@, self.tcp_port));
        r
    }
}

} // verus!
