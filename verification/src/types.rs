use vstd::prelude::*;

verus! {

/// A process ID
pub type Pid = u32;

/// A port
pub type Port = u16;

/// A representation of a port using a specific protocol
#[derive(Debug, Clone, Copy, PartialEq, Eq, Structural)]
pub enum ProtocolPort {
    /// A TCP port
    Tcp(Port),
    /// A UDP port
    Udp(Port),
}

/// A transport protocol
#[derive(Debug, Clone, Copy, PartialEq, Eq, Structural)]
pub enum Protocol {
    /// TCP
    Tcp,
    /// UDP
    Udp,
}

/// An address family
#[derive(Debug, Clone, Copy, PartialEq, Eq, Structural)]
pub enum AddressFamily {
    /// IPv4
    V4,
    /// IPv6
    V6,
}

/// A platform whose socket tables the library reads
#[derive(Debug, Clone, Copy, PartialEq, Eq, Structural)]
pub enum Platform {
    /// Linux, with its tables under `/proc`
    Linux,
    /// Windows, with the tables of its IP helper
    Windows,
    /// macOS, with the output of `lsof`
    MacOs,
}

impl ProtocolPort {
    /// The port `port` under `protocol`.
    pub open spec fn spec_new(protocol: Protocol, port: Port) -> ProtocolPort {
        match protocol {
            Protocol::Tcp => ProtocolPort::Tcp(port),
            Protocol::Udp => ProtocolPort::Udp(port),
        }
    }

    /// The port `port` under `protocol`.
    #[verifier::when_used_as_spec(spec_new)]
    pub fn new(protocol: Protocol, port: Port) -> (tagged: ProtocolPort)
        ensures
            tagged == ProtocolPort::spec_new(protocol, port),
    {
        match protocol {
            Protocol::Tcp => ProtocolPort::Tcp(port),
            Protocol::Udp => ProtocolPort::Udp(port),
        }
    }

    /// The protocol that owns the port.
    pub open spec fn spec_protocol(self) -> Protocol {
        match self {
            ProtocolPort::Tcp(_) => Protocol::Tcp,
            ProtocolPort::Udp(_) => Protocol::Udp,
        }
    }

    /// The protocol that owns the port.
    #[verifier::when_used_as_spec(spec_protocol)]
    pub fn protocol(self) -> (protocol: Protocol)
        ensures
            protocol == self.spec_protocol(),
    {
        match self {
            ProtocolPort::Tcp(_) => Protocol::Tcp,
            ProtocolPort::Udp(_) => Protocol::Udp,
        }
    }

    /// The port number, whichever protocol owns it.
    pub open spec fn spec_port(self) -> Port {
        match self {
            ProtocolPort::Tcp(port) => port,
            ProtocolPort::Udp(port) => port,
        }
    }

    /// The port number, whichever protocol owns it.
    #[verifier::when_used_as_spec(spec_port)]
    pub fn port(self) -> (port: Port)
        ensures
            port == self.spec_port(),
    {
        match self {
            ProtocolPort::Tcp(port) => port,
            ProtocolPort::Udp(port) => port,
        }
    }
}

} // verus!
