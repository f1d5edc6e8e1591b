//! Where a connection goes: host, port, transport security and the local
//! address to bind to, all as plain values.

use vstd::prelude::*;

verus! {

/// An IP address as the number its bytes spell in network order.
#[derive(Debug, Copy, Clone, PartialEq, Eq, Structural)]
pub enum IpAddress {
    /// An IPv4 address.
    V4(u32),
    /// An IPv6 address.
    V6(u128),
}

/// A resolved socket address: an IP address and a port.
#[derive(Debug, Copy, Clone, PartialEq, Eq, Structural)]
pub struct SocketAddress {
    /// The IP address.
    pub ip: IpAddress,
    /// The port.
    pub port: u16,
}

/// A [`ConnectionInfo`] as a value.
pub struct ConnectionInfoView {
    /// The host name.
    pub host: Seq<char>,
    /// The port.
    pub port: u16,
    /// Whether the connection is wrapped in TLS.
    pub tls: bool,
    /// The local address to bind to before connecting, if any.
    pub net_iface: Option<SocketAddress>,
}

/// Where an endpoint connects to. It does not change once it is built and
/// is cloned for every connection attempt.
#[derive(Debug, Clone)]
pub struct ConnectionInfo {
    host: String,
    port: u16,
    tls: bool,
    net_iface: Option<SocketAddress>,
}

impl View for ConnectionInfo {
    type V = ConnectionInfoView;

    closed spec fn view(&self) -> ConnectionInfoView {
        ConnectionInfoView {
            host: self.host@,
            port: self.port,
            tls: self.tls,
            net_iface: self.net_iface,
        }
    }
}

/// Gives the service the connection details of an endpoint.
pub trait ConnectionInfoProvider {
    /// Where the endpoint connects to.
    fn connection_info(&self) -> &ConnectionInfo;
}

impl ConnectionInfo {
    /// A plain connection to `host` on `port`, bound to no local address.
    pub fn new(host: &str, port: u16) -> (info: ConnectionInfo)
        ensures
            info@ == (ConnectionInfoView { host: host@, port, tls: false, net_iface: None }),
    {
        ConnectionInfo { host: host.to_owned(), port, tls: false, net_iface: None }
    }

    /// The same connection with TLS switched on or off.
    pub fn with_tls(self, tls: bool) -> (info: ConnectionInfo)
        ensures
            info@ == (ConnectionInfoView { tls, ..self@ }),
    {
        ConnectionInfo { host: self.host, port: self.port, tls, net_iface: self.net_iface }
    }

    /// The same connection bound to the local address `net_iface`.
    pub fn with_net_iface(self, net_iface: SocketAddress) -> (info: ConnectionInfo)
        ensures
            info@ == (ConnectionInfoView { net_iface: Some(net_iface), ..self@ }),
    {
        ConnectionInfo {
            host: self.host,
            port: self.port,
            tls: self.tls,
            net_iface: Some(net_iface),
        }
    }

    /// The host name.
    pub fn host(&self) -> (host: &str)
        ensures
            host@ == self@.host,
    {
        self.host.as_str()
    }

    /// The port.
    pub fn port(&self) -> (port: u16)
        ensures
            port == self@.port,
    {
        self.port
    }

    /// Whether the connection is wrapped in TLS.
    pub fn tls(&self) -> (tls: bool)
        ensures
            tls == self@.tls,
    {
        self.tls
    }

    /// The local address to bind to before connecting, if any.
    pub fn net_iface(&self) -> (net_iface: Option<SocketAddress>)
        ensures
            net_iface == self@.net_iface,
    {
        self.net_iface
    }
}

} // verus!
