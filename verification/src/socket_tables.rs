//! The socket tables of a machine, as each platform hands them out.

use crate::lsof::{lemma_lsof_ports_are_named, lsof_ports, names_port};
use crate::owner_table::{
    has_bound_row, lemma_table_ports_are_bound, row_count, spec_row_layout, spec_table_ports,
};
use crate::proc_net::{
    has_listening_socket, has_udp_socket, lemma_tcp_ports_are_listening,
    lemma_udp_ports_any_state, spec_socket_inodes, spec_tcp_ports, spec_udp_ports, FdTarget,
    TcpEntry, UdpEntry,
};
use crate::types::{AddressFamily, Pid, Platform, Port, Protocol, ProtocolPort};
use vstd::prelude::*;

verus! {

/// What was read from the operating system about the sockets of the machine,
/// in the form that the platform hands it out. A table that the query does
/// not ask for is not looked at and may be left empty.
#[derive(Debug, Clone)]
pub enum SocketTables {
    /// Linux: the file descriptors of the process that the query is about,
    /// and the socket tables of its network namespace
    Linux {
        /// What each file descriptor of the process points at
        fds: Vec<FdTarget>,
        /// The TCP table over IPv4
        tcp: Vec<TcpEntry>,
        /// The TCP table over IPv6
        tcp6: Vec<TcpEntry>,
        /// The UDP table over IPv4
        udp: Vec<UdpEntry>,
        /// The UDP table over IPv6
        udp6: Vec<UdpEntry>,
    },
    /// Windows: the buffers that `GetExtendedTcpTable` and
    /// `GetExtendedUdpTable` filled, with the owning pid in each row
    Windows {
        /// The TCP table over IPv4
        tcp: Vec<u8>,
        /// The TCP table over IPv6
        tcp6: Vec<u8>,
        /// The UDP table over IPv4
        udp: Vec<u8>,
        /// The UDP table over IPv6
        udp6: Vec<u8>,
    },
    /// macOS: what `lsof` printed when run with the arguments that
    /// `lsof_command` gives
    MacOs {
        /// The output for TCP over IPv4
        tcp: Vec<u8>,
        /// The output for TCP over IPv6
        tcp6: Vec<u8>,
        /// The output for UDP over IPv4
        udp: Vec<u8>,
        /// The output for UDP over IPv6
        udp6: Vec<u8>,
    },
}

impl SocketTables {
    /// The platform that the tables come from.
    pub open spec fn spec_platform(&self) -> Platform {
        match self {
            SocketTables::Linux { .. } => Platform::Linux,
            SocketTables::Windows { .. } => Platform::Windows,
            SocketTables::MacOs { .. } => Platform::MacOs,
        }
    }

    /// The platform that the tables come from.
    #[verifier::when_used_as_spec(spec_platform)]
    pub fn platform(&self) -> (platform: Platform)
        ensures
            platform == self.spec_platform(),
    {
        match self {
            SocketTables::Linux { .. } => Platform::Linux,
            SocketTables::Windows { .. } => Platform::Windows,
            SocketTables::MacOs { .. } => Platform::MacOs,
        }
    }
}

/// The ports `ports` as ports of `protocol`.
pub open spec fn tagged(protocol: Protocol, ports: Seq<Port>) -> Seq<ProtocolPort> {
    ports.map_values(|port: Port| ProtocolPort::spec_new(protocol, port))
}

/// Of four tables, the one for `protocol` over `family`.
pub open spec fn table_for<T>(
    protocol: Protocol,
    family: AddressFamily,
    tcp: T,
    tcp6: T,
    udp: T,
    udp6: T,
) -> T {
    match (protocol, family) {
        (Protocol::Tcp, AddressFamily::V4) => tcp,
        (Protocol::Tcp, AddressFamily::V6) => tcp6,
        (Protocol::Udp, AddressFamily::V4) => udp,
        (Protocol::Udp, AddressFamily::V6) => udp6,
    }
}

/// The ports that the table for `protocol` over `family` gives to the
/// process `pid`, in the order of the table. On Linux the process is the one
/// whose descriptors the tables hold.
pub open spec fn socket_ports(
    tables: SocketTables,
    pid: Pid,
    protocol: Protocol,
    family: AddressFamily,
) -> Seq<ProtocolPort> {
    match tables {
        SocketTables::Linux { fds, tcp, tcp6, udp, udp6 } => {
            let inodes = spec_socket_inodes(fds@);
            match (protocol, family) {
                (Protocol::Tcp, AddressFamily::V4) => spec_tcp_ports(tcp@, inodes),
                (Protocol::Tcp, AddressFamily::V6) => spec_tcp_ports(tcp6@, inodes),
                (Protocol::Udp, AddressFamily::V4) => spec_udp_ports(udp@, inodes),
                (Protocol::Udp, AddressFamily::V6) => spec_udp_ports(udp6@, inodes),
            }
        },
        SocketTables::Windows { tcp, tcp6, udp, udp6 } => spec_table_ports(
            table_for(protocol, family, tcp@, tcp6@, udp@, udp6@),
            protocol,
            family,
            pid,
        ),
        SocketTables::MacOs { tcp, tcp6, udp, udp6 } => tagged(
            protocol,
            lsof_ports(table_for(protocol, family, tcp@, tcp6@, udp@, udp6@), pid, family),
        ),
    }
}

/// Whether `tables` show a socket of `protocol` over `family` with the local
/// port `port` that the process `pid` has bound: a TCP socket of the process
/// that listens, or a UDP socket of the process in whatever state.
///
/// On Linux the socket is a row of the table with the inode of a socket
/// among the descriptors of the process. On Windows it is a row of the table
/// that names `pid` as its owner. On macOS it is a name in a record of `pid`
/// in the output of `lsof`, which lists the TCP sockets that listen.
pub open spec fn has_socket(
    tables: SocketTables,
    pid: Pid,
    protocol: Protocol,
    family: AddressFamily,
    port: Port,
) -> bool {
    match tables {
        SocketTables::Linux { fds, tcp, tcp6, udp, udp6 } => {
            let inodes = spec_socket_inodes(fds@);
            match (protocol, family) {
                (Protocol::Tcp, AddressFamily::V4) => has_listening_socket(tcp@, inodes, port),
                (Protocol::Tcp, AddressFamily::V6) => has_listening_socket(tcp6@, inodes, port),
                (Protocol::Udp, AddressFamily::V4) => has_udp_socket(udp@, inodes, port),
                (Protocol::Udp, AddressFamily::V6) => has_udp_socket(udp6@, inodes, port),
            }
        },
        SocketTables::Windows { tcp, tcp6, udp, udp6 } => {
            let table = table_for(protocol, family, tcp@, tcp6@, udp@, udp6@);
            let layout = spec_row_layout(protocol, family);
            has_bound_row(table, layout, pid, port, row_count(table, layout))
        },
        SocketTables::MacOs { tcp, tcp6, udp, udp6 } => names_port(
            table_for(protocol, family, tcp@, tcp6@, udp@, udp6@),
            pid,
            family,
            port,
        ),
    }
}

/// A port is among `ports` tagged with `protocol` where it is of that
/// protocol and its number is among `ports`.
proof fn lemma_tagged_contains(protocol: Protocol, ports: Seq<Port>, port: ProtocolPort)
    ensures
        tagged(protocol, ports).contains(port) <==> port.spec_protocol() == protocol
            && ports.contains(port.spec_port()),
{
    let all = tagged(protocol, ports);
    if all.contains(port) {
        let at = choose|at: int| 0 <= at < all.len() && all[at] == port;
        assert(ports[at] == port.spec_port());
    }
    if port.spec_protocol() == protocol && ports.contains(port.spec_port()) {
        let at = choose|at: int| 0 <= at < ports.len() && ports[at] == port.spec_port();
        assert(all[at] == port);
    }
}

/// The ports that a table gives to a process are those of the sockets that
/// the process has bound, under the protocol of the table: the ports of its
/// listening sockets in a TCP table, and of all its sockets in a UDP table.
pub proof fn lemma_socket_ports_are_bound(
    tables: SocketTables,
    pid: Pid,
    protocol: Protocol,
    family: AddressFamily,
    port: ProtocolPort,
)
    ensures
        socket_ports(tables, pid, protocol, family).contains(port) <==> port.spec_protocol()
            == protocol && has_socket(tables, pid, protocol, family, port.spec_port()),
{
    match tables {
        SocketTables::Linux { fds, tcp, tcp6, udp, udp6 } => {
            let inodes = spec_socket_inodes(fds@);
            lemma_tcp_ports_are_listening(tcp@, inodes, port);
            lemma_tcp_ports_are_listening(tcp6@, inodes, port);
            lemma_udp_ports_any_state(udp@, inodes, port);
            lemma_udp_ports_any_state(udp6@, inodes, port);
        },
        SocketTables::Windows { tcp, tcp6, udp, udp6 } => {
            let table = table_for(protocol, family, tcp@, tcp6@, udp@, udp6@);
            lemma_table_ports_are_bound(table, protocol, family, pid, port);
        },
        SocketTables::MacOs { tcp, tcp6, udp, udp6 } => {
            let output = table_for(protocol, family, tcp@, tcp6@, udp@, udp6@);
            lemma_lsof_ports_are_named(output, pid, family, port.spec_port());
            lemma_tagged_contains(protocol, lsof_ports(output, pid, family), port);
        },
    }
}

} // verus!
