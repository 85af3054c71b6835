use crate::common::{resolve_pid, resolved, unresolved_pid_text, MaybeHasPid};
use crate::error::{ErrorView, ProcCtlError, ProcCtlResult};
use crate::lsof::{find_ports_v4, find_ports_v6};
use crate::owner_table::table_ports;
use crate::proc_net::{socket_inodes, tcp_ports, udp_ports};
use crate::sequences::lemma_concat_contains;
use crate::socket_tables::{
    has_socket, lemma_socket_ports_are_bound, socket_ports, tagged, SocketTables,
};
use crate::types::{AddressFamily, Pid, Platform, Port, Protocol, ProtocolPort};
use vstd::prelude::*;

verus! {

/// Find the ports used by a process
#[derive(Debug, Clone)]
pub struct PortQuery {
    ipv4_addresses: bool,
    ipv6_addresses: bool,
    tcp_addresses: bool,
    udp_addresses: bool,
    process_id: Option<Pid>,
    min_num_ports: Option<usize>,
}

/// A `PortQuery` as a mathematical value.
pub ghost struct PortQueryView {
    /// Whether sockets over IPv4 are asked for
    pub ipv4_addresses: bool,
    /// Whether sockets over IPv6 are asked for
    pub ipv6_addresses: bool,
    /// Whether TCP sockets are asked for
    pub tcp_addresses: bool,
    /// Whether UDP sockets are asked for
    pub udp_addresses: bool,
    /// The process that the query is about, once it is set
    pub process_id: Option<Pid>,
    /// The number of ports below which the query fails, if one is set
    pub min_num_ports: Option<usize>,
}

impl PortQueryView {
    /// Whether the query asks for sockets of `protocol`.
    pub open spec fn wants_protocol(self, protocol: Protocol) -> bool {
        match protocol {
            Protocol::Tcp => self.tcp_addresses,
            Protocol::Udp => self.udp_addresses,
        }
    }

    /// Whether the query asks for sockets over `family`.
    pub open spec fn wants_family(self, family: AddressFamily) -> bool {
        match family {
            AddressFamily::V4 => self.ipv4_addresses,
            AddressFamily::V6 => self.ipv6_addresses,
        }
    }
}

impl View for PortQuery {
    type V = PortQueryView;

    closed spec fn view(&self) -> PortQueryView {
        PortQueryView {
            ipv4_addresses: self.ipv4_addresses,
            ipv6_addresses: self.ipv6_addresses,
            tcp_addresses: self.tcp_addresses,
            udp_addresses: self.udp_addresses,
            process_id: self.process_id,
            min_num_ports: self.min_num_ports,
        }
    }
}

/// Whether `query` has the table for `protocol` over `family` read on
/// `platform`. It does where it asks for both, and on Linux it has the
/// tables over IPv4 read whenever it asks for their protocol.
pub open spec fn reads(
    query: PortQueryView,
    platform: Platform,
    protocol: Protocol,
    family: AddressFamily,
) -> bool {
    query.wants_protocol(protocol) && (query.wants_family(family) || (platform is Linux && family
        == AddressFamily::V4))
}

/// The order in which the tables of `platform` are read, and in which their
/// ports are given.
pub open spec fn spec_table_order(platform: Platform) -> Seq<(Protocol, AddressFamily)> {
    match platform {
        Platform::MacOs => seq![
            (Protocol::Tcp, AddressFamily::V4),
            (Protocol::Udp, AddressFamily::V4),
            (Protocol::Tcp, AddressFamily::V6),
            (Protocol::Udp, AddressFamily::V6),
        ],
        _ => seq![
            (Protocol::Tcp, AddressFamily::V4),
            (Protocol::Tcp, AddressFamily::V6),
            (Protocol::Udp, AddressFamily::V4),
            (Protocol::Udp, AddressFamily::V6),
        ],
    }
}

/// The tables that `query` has read on `platform`, in the order in which
/// they are read.
pub open spec fn spec_tables_to_read(query: PortQueryView, platform: Platform) -> Seq<
    (Protocol, AddressFamily),
> {
    spec_table_order(platform).filter(
        |table: (Protocol, AddressFamily)| reads(query, platform, table.0, table.1),
    )
}

/// `ports` if `wanted`, else nothing.
pub open spec fn only_if(wanted: bool, ports: Seq<ProtocolPort>) -> Seq<ProtocolPort> {
    if wanted {
        ports
    } else {
        Seq::empty()
    }
}

/// The ports that `query` takes for the process `pid` from the table
/// `table` of `tables`: those that the table gives to the process, if the
/// query has the table read.
pub open spec fn read_ports(
    query: PortQueryView,
    pid: Pid,
    tables: SocketTables,
    table: (Protocol, AddressFamily),
) -> Seq<ProtocolPort> {
    only_if(
        reads(query, tables.spec_platform(), table.0, table.1),
        socket_ports(tables, pid, table.0, table.1),
    )
}

/// The ports that `tables` give to the process `pid` under the filters of
/// `query`: those of the four tables, each in the order of its table, in the
/// order in which the platform has its tables read.
pub open spec fn spec_list_ports(query: PortQueryView, pid: Pid, tables: SocketTables) -> Seq<
    ProtocolPort,
> {
    let order = spec_table_order(tables.spec_platform());
    read_ports(query, pid, tables, order[0]) + read_ports(query, pid, tables, order[1])
        + read_ports(query, pid, tables, order[2]) + read_ports(query, pid, tables, order[3])
}

/// A value is in the four parts of a list of ports where it is in one of them.
proof fn lemma_parts_contain(
    first: Seq<ProtocolPort>,
    second: Seq<ProtocolPort>,
    third: Seq<ProtocolPort>,
    fourth: Seq<ProtocolPort>,
    port: ProtocolPort,
)
    ensures
        (first + second + third + fourth).contains(port) <==> first.contains(port)
            || second.contains(port) || third.contains(port) || fourth.contains(port),
{
    lemma_concat_contains(first, second, port);
    lemma_concat_contains(first + second, third, port);
    lemma_concat_contains(first + second + third, fourth, port);
}

/// The ports that a query gives are those of the sockets that the process
/// has bound, as far as the query has their table read: `port` is given if
/// and only if the tables show such a socket of its protocol, with its
/// number, over IPv4 or over IPv6.
pub proof fn lemma_ports_are_bound_sockets(
    query: PortQueryView,
    pid: Pid,
    tables: SocketTables,
    port: ProtocolPort,
)
    ensures
        spec_list_ports(query, pid, tables).contains(port) <==> (reads(
            query,
            tables.spec_platform(),
            port.spec_protocol(),
            AddressFamily::V4,
        ) && has_socket(tables, pid, port.spec_protocol(), AddressFamily::V4, port.spec_port()))
            || (reads(query, tables.spec_platform(), port.spec_protocol(), AddressFamily::V6)
            && has_socket(
            tables,
            pid,
            port.spec_protocol(),
            AddressFamily::V6,
            port.spec_port(),
        )),
{
    let order = spec_table_order(tables.spec_platform());
    assert(!Seq::<ProtocolPort>::empty().contains(port));
    lemma_socket_ports_are_bound(tables, pid, Protocol::Tcp, AddressFamily::V4, port);
    lemma_socket_ports_are_bound(tables, pid, Protocol::Tcp, AddressFamily::V6, port);
    lemma_socket_ports_are_bound(tables, pid, Protocol::Udp, AddressFamily::V4, port);
    lemma_socket_ports_are_bound(tables, pid, Protocol::Udp, AddressFamily::V6, port);
    lemma_parts_contain(
        read_ports(query, pid, tables, order[0]),
        read_ports(query, pid, tables, order[1]),
        read_ports(query, pid, tables, order[2]),
        read_ports(query, pid, tables, order[3]),
        port,
    );
}

/// Every port that a query gives belongs to the process and matches the
/// filters of the query: it is of a protocol that the query asks for, and
/// the tables show a socket of the process with it over an address family
/// that the query asks for.
///
/// On Linux this holds of the queries that ask for IPv4: the tables over
/// IPv4 are read there whatever address family is asked for.
pub proof fn lemma_ports_match_filters(
    query: PortQueryView,
    pid: Pid,
    tables: SocketTables,
    port: ProtocolPort,
)
    requires
        spec_list_ports(query, pid, tables).contains(port),
        tables is Linux ==> query.ipv4_addresses,
    ensures
        query.wants_protocol(port.spec_protocol()),
        (query.wants_family(AddressFamily::V4) && has_socket(
            tables,
            pid,
            port.spec_protocol(),
            AddressFamily::V4,
            port.spec_port(),
        )) || (query.wants_family(AddressFamily::V6) && has_socket(
            tables,
            pid,
            port.spec_protocol(),
            AddressFamily::V6,
            port.spec_port(),
        )),
{
    lemma_ports_are_bound_sockets(query, pid, tables, port);
}

/// A TCP port is given only for a socket of the process that listens: where
/// the tables hold the state of a socket, some row with the port is in the
/// listening state. A UDP port is given for every socket of the process in a
/// table that the query has read, whatever the state of the socket.
pub proof fn lemma_tcp_listens_udp_in_any_state(
    query: PortQueryView,
    pid: Pid,
    tables: SocketTables,
    family: AddressFamily,
    port: Port,
)
    ensures
        spec_list_ports(query, pid, tables).contains(ProtocolPort::Tcp(port)) ==> has_socket(
            tables,
            pid,
            Protocol::Tcp,
            AddressFamily::V4,
            port,
        ) || has_socket(tables, pid, Protocol::Tcp, AddressFamily::V6, port),
        reads(query, tables.spec_platform(), Protocol::Udp, family) && has_socket(
            tables,
            pid,
            Protocol::Udp,
            family,
            port,
        ) ==> spec_list_ports(query, pid, tables).contains(ProtocolPort::Udp(port)),
{
    lemma_ports_are_bound_sockets(query, pid, tables, ProtocolPort::Tcp(port));
    lemma_ports_are_bound_sockets(query, pid, tables, ProtocolPort::Udp(port));
}

/// The tables that a query has read are those of the protocols and address
/// families that it asks for, and on Linux the tables over IPv4 of the
/// protocols that it asks for.
pub proof fn lemma_tables_to_read(
    query: PortQueryView,
    platform: Platform,
    protocol: Protocol,
    family: AddressFamily,
)
    ensures
        spec_tables_to_read(query, platform).contains((protocol, family)) <==> reads(
            query,
            platform,
            protocol,
            family,
        ),
{
    let order = spec_table_order(platform);
    let read = |table: (Protocol, AddressFamily)| reads(query, platform, table.0, table.1);
    let table = (protocol, family);
    let read_tables = order.filter(read);
    if read_tables.contains(table) {
        let at = choose|at: int| 0 <= at < read_tables.len() && read_tables[at] == table;
        order.lemma_filter_pred(read, at);
    }
    if reads(query, platform, protocol, family) {
        let at = choose|at: int| 0 <= at < 4 && order[at] == table;
        assert(order[0] == table || order[1] == table || order[2] == table || order[3] == table);
        order.lemma_filter_contains(read, at);
    }
}

/// What the check of `ports` against the expected number `min_num_ports`
/// gives: the ports, or the error that holds them and the number.
pub open spec fn checked_ports(ports: Seq<ProtocolPort>, min_num_ports: Option<usize>) -> Result<
    Seq<ProtocolPort>,
    ErrorView,
> {
    match min_num_ports {
        Some(expected) if ports.len() < expected => Err(
            ErrorView::TooFewPorts(ports, expected as nat),
        ),
        _ => Ok(ports),
    }
}

/// What `query` gives on `tables`.
pub open spec fn spec_execute(query: PortQueryView, tables: SocketTables) -> Result<
    Seq<ProtocolPort>,
    ErrorView,
> {
    match resolved(query.process_id) {
        Ok(pid) => checked_ports(spec_list_ports(query, pid, tables), query.min_num_ports),
        Err(error) => Err(error),
    }
}

/// The result of a port query as a mathematical value.
pub open spec fn ports_outcome(result: ProcCtlResult<Vec<ProtocolPort>>) -> Result<
    Seq<ProtocolPort>,
    ErrorView,
> {
    match result {
        Ok(ports) => Ok(ports@),
        Err(error) => Err(error@),
    }
}

impl PortQuery {
    /// Create a new query
    pub fn new() -> (query: Self)
        ensures
            query@ == (PortQueryView {
                ipv4_addresses: true,
                ipv6_addresses: true,
                tcp_addresses: true,
                udp_addresses: true,
                process_id: None,
                min_num_ports: None,
            }),
    {
        PortQuery {
            ipv4_addresses: true,
            ipv6_addresses: true,
            tcp_addresses: true,
            udp_addresses: true,
            process_id: None,
            min_num_ports: None,
        }
    }

    /// Only consider IPv4 addresses
    pub fn ip_v4_only(self) -> (query: Self)
        ensures
            query@ == (PortQueryView { ipv4_addresses: true, ipv6_addresses: false, ..self@ }),
    {
        let mut query = self;
        query.ipv4_addresses = true;
        query.ipv6_addresses = false;
        query
    }

    /// Only consider IPv6 addresses
    pub fn ip_v6_only(self) -> (query: Self)
        ensures
            query@ == (PortQueryView { ipv4_addresses: false, ipv6_addresses: true, ..self@ }),
    {
        let mut query = self;
        query.ipv4_addresses = false;
        query.ipv6_addresses = true;
        query
    }

    /// Only consider TCP ports
    pub fn tcp_only(self) -> (query: Self)
        ensures
            query@ == (PortQueryView { tcp_addresses: true, udp_addresses: false, ..self@ }),
    {
        let mut query = self;
        query.tcp_addresses = true;
        query.udp_addresses = false;
        query
    }

    /// Only consider UDP ports
    pub fn udp_only(self) -> (query: Self)
        ensures
            query@ == (PortQueryView { tcp_addresses: false, udp_addresses: true, ..self@ }),
    {
        let mut query = self;
        query.tcp_addresses = false;
        query.udp_addresses = true;
        query
    }

    /// Require at least `num_ports` ports to be bound by the matched process for the query to succeed.
    pub fn expect_min_num_ports(self, num_ports: usize) -> (query: Self)
        ensures
            query@ == (PortQueryView { min_num_ports: Some(num_ports), ..self@ }),
    {
        let mut query = self;
        query.min_num_ports = Some(num_ports);
        query
    }

    /// Set the process ID to match
    ///
    /// The query is usable once the process ID is set.
    pub fn process_id(self, pid: Pid) -> (query: Self)
        ensures
            query@ == (PortQueryView { process_id: Some(pid), ..self@ }),
    {
        let mut query = self;
        query.process_id = Some(pid);
        query
    }

    /// Whether the query asks for sockets over IPv4
    pub fn ipv4_addresses(&self) -> (wanted: bool)
        ensures
            wanted == self@.ipv4_addresses,
    {
        self.ipv4_addresses
    }

    /// Whether the query asks for sockets over IPv6
    pub fn ipv6_addresses(&self) -> (wanted: bool)
        ensures
            wanted == self@.ipv6_addresses,
    {
        self.ipv6_addresses
    }

    /// Whether the query asks for TCP sockets
    pub fn tcp_addresses(&self) -> (wanted: bool)
        ensures
            wanted == self@.tcp_addresses,
    {
        self.tcp_addresses
    }

    /// Whether the query asks for UDP sockets
    pub fn udp_addresses(&self) -> (wanted: bool)
        ensures
            wanted == self@.udp_addresses,
    {
        self.udp_addresses
    }

    /// The number of ports below which the query fails, if one is set
    pub fn min_num_ports(&self) -> (expected: Option<usize>)
        ensures
            expected == self@.min_num_ports,
    {
        self.min_num_ports
    }

    /// Whether the query has the table for `protocol` over `family` read on
    /// `platform`.
    pub fn reads(&self, platform: Platform, protocol: Protocol, family: AddressFamily) -> (read:
        bool)
        ensures
            read == reads(self@, platform, protocol, family),
    {
        let wants_protocol = match protocol {
            Protocol::Tcp => self.tcp_addresses,
            Protocol::Udp => self.udp_addresses,
        };
        let wants_family = match family {
            AddressFamily::V4 => self.ipv4_addresses,
            AddressFamily::V6 => self.ipv6_addresses,
        };
        let reads_anyway = match (platform, family) {
            (Platform::Linux, AddressFamily::V4) => true,
            _ => false,
        };
        wants_protocol && (wants_family || reads_anyway)
    }

    /// The tables to read on `platform` before the query is executed, in the
    /// order in which to read them. A read that fails ends the query with
    /// its error, so no table after it is read.
    pub fn tables_to_read(&self, platform: Platform) -> (tables: Vec<(Protocol, AddressFamily)>)
        ensures
            tables@ == spec_tables_to_read(self@, platform),
    {
        let order = table_order(platform);
        let ghost read = |table: (Protocol, AddressFamily)|
            reads(self@, platform, table.0, table.1);
        let mut tables: Vec<(Protocol, AddressFamily)> = Vec::new();
        let mut i: usize = 0;
        while i < order.len()
            invariant
                i <= order.len(),
                order@ == spec_table_order(platform),
                read == |table: (Protocol, AddressFamily)| reads(self@, platform, table.0, table.1),
                tables@ == order@.take(i as int).filter(read),
            decreases order.len() - i,
        {
            let table = order[i];
            proof {
                assert(order@.take(i + 1) =~= order@.take(i as int).push(table));
                order@.take(i as int).lemma_filter_push(table, read);
            }
            if self.reads(platform, table.0, table.1) {
                tables.push(table);
            }
            i += 1;
        }
        assert(order@.take(i as int) =~= order@);
        tables
    }

    /// Holds `ports` against the number of ports that the query expects:
    /// hands them back if they are enough, and else fails with
    /// `TooFewPorts`, which holds the ports that were found and the number
    /// that was expected.
    pub fn check_min_num_ports(&self, ports: Vec<ProtocolPort>) -> (result: ProcCtlResult<
        Vec<ProtocolPort>,
    >)
        ensures
            ports_outcome(result) == checked_ports(ports@, self@.min_num_ports),
    {
        match self.min_num_ports {
            Some(num) => {
                if ports.len() < num {
                    return Err(ProcCtlError::TooFewPorts(ports, num));
                }
            },
            None => {},
        }
        Ok(ports)
    }

    /// Execute the query on `tables`, which hold what was read from the
    /// operating system for the process that the query is about.
    ///
    /// Fails with a configuration error where no process ID is set, whatever
    /// else the query asks for. Otherwise finds the ports that the tables
    /// give to the process under the filters of the query, and fails with
    /// `TooFewPorts` where they are fewer than the query expects.
    pub fn execute(&self, tables: SocketTables) -> (result: ProcCtlResult<Vec<ProtocolPort>>)
        ensures
            ports_outcome(result) == spec_execute(self@, tables),
            self@.process_id is None ==> ports_outcome(result) == Err::<
                Seq<ProtocolPort>,
                ErrorView,
            >(ErrorView::ConfigurationError(unresolved_pid_text())),
            self@.process_id matches Some(pid) ==> {
                let matched = spec_list_ports(self@, pid, tables);
                match self@.min_num_ports {
                    Some(expected) if matched.len() < expected => ports_outcome(result) == Err::<
                        Seq<ProtocolPort>,
                        ErrorView,
                    >(ErrorView::TooFewPorts(matched, expected as nat)),
                    _ => ports_outcome(result) == Ok::<Seq<ProtocolPort>, ErrorView>(matched),
                }
            },
    {
        let pid = match resolve_pid(self) {
            Ok(pid) => pid,
            Err(error) => {
                return Err(error);
            },
        };
        let ports = list_ports_for_pid(self, pid, tables);
        self.check_min_num_ports(ports)
    }
}

impl MaybeHasPid for PortQuery {
    open spec fn spec_pid(&self) -> Option<Pid> {
        self@.process_id
    }

    fn get_pid(&self) -> (pid: Option<Pid>) {
        self.process_id
    }
}

impl Default for PortQuery {
    fn default() -> (query: Self)
        ensures
            query@ == (PortQueryView {
                ipv4_addresses: true,
                ipv6_addresses: true,
                tcp_addresses: true,
                udp_addresses: true,
                process_id: None,
                min_num_ports: None,
            }),
    {
        PortQuery::new()
    }
}

/// The order in which the tables of `platform` are read.
pub fn table_order(platform: Platform) -> (order: Vec<(Protocol, AddressFamily)>)
    ensures
        order@ == spec_table_order(platform),
{
    let mut order: Vec<(Protocol, AddressFamily)> = Vec::new();
    match platform {
        Platform::MacOs => {
            order.push((Protocol::Tcp, AddressFamily::V4));
            order.push((Protocol::Udp, AddressFamily::V4));
            order.push((Protocol::Tcp, AddressFamily::V6));
            order.push((Protocol::Udp, AddressFamily::V6));
        },
        _ => {
            order.push((Protocol::Tcp, AddressFamily::V4));
            order.push((Protocol::Tcp, AddressFamily::V6));
            order.push((Protocol::Udp, AddressFamily::V4));
            order.push((Protocol::Udp, AddressFamily::V6));
        },
    }
    assert(order@ =~= spec_table_order(platform));
    order
}

/// Appends the ports `found` to `out`, as ports of `protocol`.
fn extend_tagged(out: &mut Vec<ProtocolPort>, protocol: Protocol, found: Vec<Port>)
    ensures
        final(out)@ == old(out)@ + tagged(protocol, found@),
{
    let mut i: usize = 0;
    while i < found.len()
        invariant
            i <= found.len(),
            out@ == old(out)@ + tagged(protocol, found@.take(i as int)),
        decreases found.len() - i,
    {
        out.push(ProtocolPort::new(protocol, found[i]));
        assert(out@ =~= old(out)@ + tagged(protocol, found@.take(i + 1)));
        i += 1;
    }
    assert(found@.take(i as int) =~= found@);
}

/// Finds the ports that `tables` give to the process `pid` under the filters
/// of `query`.
///
/// A TCP socket counts where it belongs to the process and listens; a UDP
/// socket counts where it belongs to the process, whatever its state. On
/// Linux a socket belongs to the process where one of the descriptors in
/// `tables` points at its inode; elsewhere, where its table names `pid` as
/// its owner.
pub fn list_ports_for_pid(query: &PortQuery, pid: Pid, tables: SocketTables) -> (ports: Vec<
    ProtocolPort,
>)
    ensures
        ports@ == spec_list_ports(query@, pid, tables),
{
    let mut out: Vec<ProtocolPort> = Vec::new();
    match tables {
        SocketTables::Linux { fds, tcp, tcp6, udp, udp6 } => {
            let socket_nodes = socket_inodes(&fds);
            if query.tcp_addresses {
                let mut found = tcp_ports(&tcp, &socket_nodes);
                out.append(&mut found);
                if query.ipv6_addresses {
                    let mut found = tcp_ports(&tcp6, &socket_nodes);
                    out.append(&mut found);
                }
            }
            if query.udp_addresses {
                let mut found = udp_ports(&udp, &socket_nodes);
                out.append(&mut found);
                if query.ipv6_addresses {
                    let mut found = udp_ports(&udp6, &socket_nodes);
                    out.append(&mut found);
                }
            }
            assert(out@ =~= spec_list_ports(query@, pid, tables));
        },
        SocketTables::Windows { tcp, tcp6, udp, udp6 } => {
            if query.tcp_addresses {
                if query.ipv4_addresses {
                    let mut found = table_ports(
                        tcp.as_slice(),
                        Protocol::Tcp,
                        AddressFamily::V4,
                        pid,
                    );
                    out.append(&mut found);
                }
                if query.ipv6_addresses {
                    let mut found = table_ports(
                        tcp6.as_slice(),
                        Protocol::Tcp,
                        AddressFamily::V6,
                        pid,
                    );
                    out.append(&mut found);
                }
            }
            if query.udp_addresses {
                if query.ipv4_addresses {
                    let mut found = table_ports(
                        udp.as_slice(),
                        Protocol::Udp,
                        AddressFamily::V4,
                        pid,
                    );
                    out.append(&mut found);
                }
                if query.ipv6_addresses {
                    let mut found = table_ports(
                        udp6.as_slice(),
                        Protocol::Udp,
                        AddressFamily::V6,
                        pid,
                    );
                    out.append(&mut found);
                }
            }
            assert(out@ =~= spec_list_ports(query@, pid, tables));
        },
        SocketTables::MacOs { tcp, tcp6, udp, udp6 } => {
            if query.ipv4_addresses {
                if query.tcp_addresses {
                    extend_tagged(&mut out, Protocol::Tcp, find_ports_v4(tcp, pid));
                }
                if query.udp_addresses {
                    extend_tagged(&mut out, Protocol::Udp, find_ports_v4(udp, pid));
                }
            }
            if query.ipv6_addresses {
                if query.tcp_addresses {
                    extend_tagged(&mut out, Protocol::Tcp, find_ports_v6(tcp6, pid));
                }
                if query.udp_addresses {
                    extend_tagged(&mut out, Protocol::Udp, find_ports_v6(udp6, pid));
                }
            }
            assert(out@ =~= spec_list_ports(query@, pid, tables));
        },
    }
    out
}

} // verus!
