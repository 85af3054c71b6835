//! The socket tables of Linux, as read from `/proc`.
//!
//! The kernel's TCP and UDP tables name no process. Each row holds the inode
//! of its socket, and a process holds a socket where one of its file
//! descriptors points at that inode. So the sockets of a process are found by
//! joining its descriptors with the tables on the inode.

use crate::sequences::lemma_filter_map_holds;
use crate::types::{Port, ProtocolPort};
use std::collections::HashSet;
use vstd::prelude::*;

verus! {

broadcast use vstd::std_specs::hash::group_hash_axioms;

/// What a file descriptor of a process points at
#[derive(Debug, Clone, Copy, PartialEq, Eq, Structural)]
pub enum FdTarget {
    /// A socket, with its inode
    Socket(u64),
    /// A network namespace entry, with its inode
    Net(u64),
    /// A pipe, with its inode
    Pipe(u64),
    /// A file, or anything else that is no socket
    Other,
    /// The descriptor could not be read
    Unreadable,
}

/// The state of a TCP socket
#[derive(Debug, Clone, Copy, PartialEq, Eq, Structural)]
pub enum TcpState {
    Established,
    SynSent,
    SynRecv,
    FinWait1,
    FinWait2,
    TimeWait,
    Close,
    CloseWait,
    LastAck,
    Listen,
    Closing,
    NewSynRecv,
}

/// A row of the TCP table
#[derive(Debug, Clone, Copy, PartialEq, Eq, Structural)]
pub struct TcpEntry {
    /// The port of the local address
    pub local_port: Port,
    /// The state of the socket
    pub state: TcpState,
    /// The inode of the socket
    pub inode: u64,
}

/// The state of a UDP socket
#[derive(Debug, Clone, Copy, PartialEq, Eq, Structural)]
pub enum UdpState {
    Established,
    Close,
}

/// A row of the UDP table
#[derive(Debug, Clone, Copy, PartialEq, Eq, Structural)]
pub struct UdpEntry {
    /// The port of the local address
    pub local_port: Port,
    /// The state of the socket
    pub state: UdpState,
    /// The inode of the socket
    pub inode: u64,
}

/// The inodes of the sockets that the descriptors `fds` point at.
pub open spec fn spec_socket_inodes(fds: Seq<FdTarget>) -> Set<u64> {
    Set::new(|inode: u64| fds.contains(FdTarget::Socket(inode)))
}

/// The port that the TCP row `entry` gives to a process whose sockets have
/// the inodes `inodes`: its local port, if the socket is one of them and
/// listens.
pub open spec fn tcp_entry_port(entry: TcpEntry, inodes: Set<u64>) -> Option<ProtocolPort> {
    if entry.state == TcpState::Listen && inodes.contains(entry.inode) {
        Some(ProtocolPort::Tcp(entry.local_port))
    } else {
        None
    }
}

/// The port that the UDP row `entry` gives to a process whose sockets have
/// the inodes `inodes`: its local port, if the socket is one of them.
pub open spec fn udp_entry_port(entry: UdpEntry, inodes: Set<u64>) -> Option<ProtocolPort> {
    if inodes.contains(entry.inode) {
        Some(ProtocolPort::Udp(entry.local_port))
    } else {
        None
    }
}

/// The ports that the TCP table `entries` gives to a process whose sockets
/// have the inodes `inodes`, in the order of the rows.
pub open spec fn spec_tcp_ports(entries: Seq<TcpEntry>, inodes: Set<u64>) -> Seq<ProtocolPort> {
    entries.filter_map(|entry: TcpEntry| tcp_entry_port(entry, inodes))
}

/// The ports that the UDP table `entries` gives to a process whose sockets
/// have the inodes `inodes`, in the order of the rows.
pub open spec fn spec_udp_ports(entries: Seq<UdpEntry>, inodes: Set<u64>) -> Seq<ProtocolPort> {
    entries.filter_map(|entry: UdpEntry| udp_entry_port(entry, inodes))
}

/// Whether the TCP table `entries` holds a listening socket with the local
/// port `port` whose inode is one of `inodes`.
pub open spec fn has_listening_socket(entries: Seq<TcpEntry>, inodes: Set<u64>, port: Port) -> bool {
    exists|k: int|
        0 <= k < entries.len() && (#[trigger] entries[k]).local_port == port && entries[k].state
            == TcpState::Listen && inodes.contains(entries[k].inode)
}

/// Whether the UDP table `entries` holds a socket with the local port `port`
/// whose inode is one of `inodes`, in whatever state.
pub open spec fn has_udp_socket(entries: Seq<UdpEntry>, inodes: Set<u64>, port: Port) -> bool {
    exists|k: int|
        0 <= k < entries.len() && (#[trigger] entries[k]).local_port == port && inodes.contains(
            entries[k].inode,
        )
}

/// The TCP ports of a process are the local ports of its listening sockets:
/// a port is given if and only if some row of the table holds it, is in the
/// listening state, and has the inode of a socket of the process.
pub proof fn lemma_tcp_ports_are_listening(
    entries: Seq<TcpEntry>,
    inodes: Set<u64>,
    port: ProtocolPort,
)
    ensures
        spec_tcp_ports(entries, inodes).contains(port) <==> port is Tcp && has_listening_socket(
            entries,
            inodes,
            port.spec_port(),
        ),
{
    let select = |entry: TcpEntry| tcp_entry_port(entry, inodes);
    if spec_tcp_ports(entries, inodes).contains(port) {
        entries.lemma_filter_map_contains(select, port);
        let entry = choose|entry: TcpEntry| #[trigger]
            entries.contains(entry) && select(entry) == Some(port);
        let k = choose|k: int| 0 <= k < entries.len() && entries[k] == entry;
        assert(entries[k].local_port == port.spec_port());
    }
    if port is Tcp && has_listening_socket(entries, inodes, port.spec_port()) {
        let k = choose|k: int|
            0 <= k < entries.len() && (#[trigger] entries[k]).local_port == port.spec_port()
                && entries[k].state == TcpState::Listen && inodes.contains(entries[k].inode);
        lemma_filter_map_holds(entries, select, k);
    }
}

/// The UDP ports of a process are the local ports of its sockets, whatever
/// their state: a port is given if and only if some row of the table holds
/// it and has the inode of a socket of the process.
pub proof fn lemma_udp_ports_any_state(entries: Seq<UdpEntry>, inodes: Set<u64>, port: ProtocolPort)
    ensures
        spec_udp_ports(entries, inodes).contains(port) <==> port is Udp && has_udp_socket(
            entries,
            inodes,
            port.spec_port(),
        ),
{
    let select = |entry: UdpEntry| udp_entry_port(entry, inodes);
    if spec_udp_ports(entries, inodes).contains(port) {
        entries.lemma_filter_map_contains(select, port);
        let entry = choose|entry: UdpEntry| #[trigger]
            entries.contains(entry) && select(entry) == Some(port);
        let k = choose|k: int| 0 <= k < entries.len() && entries[k] == entry;
        assert(entries[k].local_port == port.spec_port());
    }
    if port is Udp && has_udp_socket(entries, inodes, port.spec_port()) {
        let k = choose|k: int|
            0 <= k < entries.len() && (#[trigger] entries[k]).local_port == port.spec_port()
                && inodes.contains(entries[k].inode);
        lemma_filter_map_holds(entries, select, k);
    }
}

/// Collects the inodes of the sockets among the descriptors of a process.
/// Descriptors that point elsewhere, or that could not be read, are passed
/// over.
pub fn socket_inodes(fds: &Vec<FdTarget>) -> (inodes: HashSet<u64>)
    ensures
        inodes@ == spec_socket_inodes(fds@),
{
    let mut inodes: HashSet<u64> = HashSet::new();
    let mut i: usize = 0;
    while i < fds.len()
        invariant
            i <= fds.len(),
            inodes@ == spec_socket_inodes(fds@.take(i as int)),
        decreases fds.len() - i,
    {
        let ghost before = fds@.take(i as int);
        let ghost after = fds@.take(i + 1);
        proof {
            assert(after =~= before.push(fds@[i as int]));
            assert forall|inode: u64| after.contains(FdTarget::Socket(inode)) <==> (
            before.contains(FdTarget::Socket(inode)) || fds@[i as int] == FdTarget::Socket(
                inode,
            )) by {
                if before.contains(FdTarget::Socket(inode)) {
                    let j = choose|j: int|
                        0 <= j < before.len() && before[j] == FdTarget::Socket(inode);
                    assert(after[j] == FdTarget::Socket(inode));
                }
                if fds@[i as int] == FdTarget::Socket(inode) {
                    assert(after[i as int] == FdTarget::Socket(inode));
                }
            }
        }
        match fds[i] {
            FdTarget::Socket(inode) => {
                inodes.insert(inode);
                assert(inodes@ =~= spec_socket_inodes(after));
            },
            _ => {
                assert(inodes@ =~= spec_socket_inodes(after));
            },
        }
        i += 1;
    }
    assert(fds@.take(i as int) =~= fds@);
    inodes
}

/// Collects the local ports of the listening sockets in the TCP table
/// `entries` whose inode is in `socket_nodes`.
pub fn tcp_ports(entries: &Vec<TcpEntry>, socket_nodes: &HashSet<u64>) -> (ports: Vec<ProtocolPort>)
    ensures
        ports@ == spec_tcp_ports(entries@, socket_nodes@),
{
    let mut ports: Vec<ProtocolPort> = Vec::new();
    let ghost select = |entry: TcpEntry| tcp_entry_port(entry, socket_nodes@);
    let mut i: usize = 0;
    while i < entries.len()
        invariant
            i <= entries.len(),
            select == |entry: TcpEntry| tcp_entry_port(entry, socket_nodes@),
            ports@ == entries@.take(i as int).filter_map(select),
        decreases entries.len() - i,
    {
        proof {
            entries@.lemma_filter_map_take_succ(select, i as int);
        }
        let entry = entries[i];
        if entry.state == TcpState::Listen && socket_nodes.contains(&entry.inode) {
            ports.push(ProtocolPort::Tcp(entry.local_port));
        }
        i += 1;
    }
    assert(entries@.take(i as int) =~= entries@);
    ports
}

/// Collects the local ports of the sockets in the UDP table `entries` whose
/// inode is in `socket_nodes`, whatever their state.
pub fn udp_ports(entries: &Vec<UdpEntry>, socket_nodes: &HashSet<u64>) -> (ports: Vec<ProtocolPort>)
    ensures
        ports@ == spec_udp_ports(entries@, socket_nodes@),
{
    let mut ports: Vec<ProtocolPort> = Vec::new();
    let ghost select = |entry: UdpEntry| udp_entry_port(entry, socket_nodes@);
    let mut i: usize = 0;
    while i < entries.len()
        invariant
            i <= entries.len(),
            select == |entry: UdpEntry| udp_entry_port(entry, socket_nodes@),
            ports@ == entries@.take(i as int).filter_map(select),
        decreases entries.len() - i,
    {
        proof {
            entries@.lemma_filter_map_take_succ(select, i as int);
        }
        let entry = entries[i];
        if socket_nodes.contains(&entry.inode) {
            ports.push(ProtocolPort::Udp(entry.local_port));
        }
        i += 1;
    }
    assert(entries@.take(i as int) =~= entries@);
    ports
}

} // verus!
