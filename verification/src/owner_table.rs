//! The socket tables that the Windows IP helper hands out, as bytes.
//!
//! `GetExtendedTcpTable` and `GetExtendedUdpTable` fill a buffer with a
//! 32-bit row count followed by rows of one fixed size, each holding the
//! local port and the pid of the process that owns the socket; a TCP row
//! holds the connection state too. All numbers are little-endian.
//!
//! A table is read with its length in hand: of the rows that the count
//! announces, only those that lie in the buffer whole are rows of the table.
//!
//! The call itself is the caller's. It may have to be repeated with a larger
//! buffer; `next_load_step` decides after each call how the load goes on.

use crate::decimal::{decimal_text, write_decimal};
use crate::error::{ErrorView, ProcCtlError};
use crate::types::{AddressFamily, Pid, Port, Protocol, ProtocolPort};
use vstd::arithmetic::div_mod::lemma_fundamental_div_mod;
use vstd::arithmetic::mul::{lemma_mul_inequality, lemma_mul_is_distributive_add_other_way};
use vstd::prelude::*;
use vstd::string::StringExecFns;

verus! {

/// The bytes that the row count takes at the head of a table.
pub const HEADER_SIZE: usize = 4;

/// How often a table is asked for before its load is given up.
pub const LOAD_ATTEMPTS: usize = 3;

/// Where a row of one kind of table holds what the port lookup reads.
#[derive(Debug, Clone, Copy, PartialEq, Eq, Structural)]
pub struct RowLayout {
    /// The bytes that one row takes
    pub size: usize,
    /// Where in the row the local port stands
    pub local_port: usize,
    /// Where in the row the owning pid stands
    pub owning_pid: usize,
    /// Where in the row the connection state stands, in a row that has one
    pub state: Option<usize>,
}

impl RowLayout {
    /// Whether every field lies inside the row.
    pub open spec fn well_formed(self) -> bool {
        &&& self.local_port + 4 <= self.size
        &&& self.owning_pid + 4 <= self.size
        &&& self.state matches Some(state) ==> state + 4 <= self.size
    }
}

/// The layout of the rows of the table for `protocol` over `family`:
/// `MIB_TCPROW_OWNER_PID`, `MIB_TCP6ROW_OWNER_PID`, `MIB_UDPROW_OWNER_PID`
/// or `MIB_UDP6ROW_OWNER_PID`.
pub open spec fn spec_row_layout(protocol: Protocol, family: AddressFamily) -> RowLayout {
    match (protocol, family) {
        (Protocol::Tcp, AddressFamily::V4) => RowLayout {
            size: 24,
            local_port: 8,
            owning_pid: 20,
            state: Some(0usize),
        },
        (Protocol::Tcp, AddressFamily::V6) => RowLayout {
            size: 56,
            local_port: 20,
            owning_pid: 52,
            state: Some(48usize),
        },
        (Protocol::Udp, AddressFamily::V4) => RowLayout {
            size: 12,
            local_port: 4,
            owning_pid: 8,
            state: None,
        },
        (Protocol::Udp, AddressFamily::V6) => RowLayout {
            size: 28,
            local_port: 20,
            owning_pid: 24,
            state: None,
        },
    }
}

/// The layout of the rows of the table for `protocol` over `family`.
#[verifier::when_used_as_spec(spec_row_layout)]
pub fn row_layout(protocol: Protocol, family: AddressFamily) -> (layout: RowLayout)
    ensures
        layout == spec_row_layout(protocol, family),
        layout.well_formed(),
{
    match (protocol, family) {
        (Protocol::Tcp, AddressFamily::V4) => RowLayout {
            size: 24,
            local_port: 8,
            owning_pid: 20,
            state: Some(0usize),
        },
        (Protocol::Tcp, AddressFamily::V6) => RowLayout {
            size: 56,
            local_port: 20,
            owning_pid: 52,
            state: Some(48usize),
        },
        (Protocol::Udp, AddressFamily::V4) => RowLayout {
            size: 12,
            local_port: 4,
            owning_pid: 8,
            state: None,
        },
        (Protocol::Udp, AddressFamily::V6) => RowLayout {
            size: 28,
            local_port: 20,
            owning_pid: 24,
            state: None,
        },
    }
}

/// The 32-bit number that the four bytes of `table` from `at` on write.
pub open spec fn dword_at(table: Seq<u8>, at: int) -> u32 {
    (table[at] + table[at + 1] * 0x100 + table[at + 2] * 0x1_0000 + table[at + 3] * 0x100_0000) as u32
}

/// The number of rows of `table`: what its head announces, as far as the
/// rows lie in the table whole.
pub open spec fn row_count(table: Seq<u8>, layout: RowLayout) -> nat {
    if table.len() < HEADER_SIZE {
        0
    } else {
        let announced = dword_at(table, 0) as nat;
        let whole = ((table.len() - HEADER_SIZE) / (layout.size as int)) as nat;
        if announced <= whole {
            announced
        } else {
            whole
        }
    }
}

/// The number at `offset` in row `row` of `table`.
pub open spec fn row_field(table: Seq<u8>, layout: RowLayout, row: int, offset: int) -> u32 {
    dword_at(table, HEADER_SIZE + row * layout.size + offset)
}

/// The local port of row `row`: the low 16 bits of its port field.
pub open spec fn row_port(table: Seq<u8>, layout: RowLayout, row: int) -> Port {
    (row_field(table, layout, row, layout.local_port as int) % 0x1_0000) as Port
}

/// The pid that owns the socket of row `row`.
pub open spec fn row_owner(table: Seq<u8>, layout: RowLayout, row: int) -> Pid {
    row_field(table, layout, row, layout.owning_pid as int)
}

/// Whether the socket of row `row` is one that a process holds open for
/// others to reach: a TCP socket that listens, or any UDP socket.
pub open spec fn row_is_bound(table: Seq<u8>, layout: RowLayout, row: int) -> bool {
    match layout.state {
        Some(state) => row_field(table, layout, row, state as int) == LISTEN_STATE,
        None => true,
    }
}

/// The connection state of a TCP socket that listens: `MIB_TCP_STATE_LISTEN`.
pub const LISTEN_STATE: u32 = 2;

/// The ports that the first `rows` rows of `table` give to `pid`.
pub open spec fn rows_ports(
    table: Seq<u8>,
    protocol: Protocol,
    layout: RowLayout,
    pid: Pid,
    rows: nat,
) -> Seq<ProtocolPort>
    decreases rows,
{
    if rows == 0 {
        Seq::empty()
    } else {
        let row = rows - 1;
        let before = rows_ports(table, protocol, layout, pid, row as nat);
        if row_owner(table, layout, row) == pid && row_is_bound(table, layout, row) {
            before.push(ProtocolPort::spec_new(protocol, row_port(table, layout, row)))
        } else {
            before
        }
    }
}

/// The ports that the table `table` for `protocol` over `family` gives to
/// `pid`, in the order of its rows.
pub open spec fn spec_table_ports(
    table: Seq<u8>,
    protocol: Protocol,
    family: AddressFamily,
    pid: Pid,
) -> Seq<ProtocolPort> {
    let layout = spec_row_layout(protocol, family);
    rows_ports(table, protocol, layout, pid, row_count(table, layout))
}

/// Whether one of the first `rows` rows of `table` is a socket with the
/// local port `port` that `pid` owns and has bound.
pub open spec fn has_bound_row(
    table: Seq<u8>,
    layout: RowLayout,
    pid: Pid,
    port: Port,
    rows: nat,
) -> bool {
    exists|row: int|
        0 <= row < rows && #[trigger] row_owner(table, layout, row) == pid && row_is_bound(
            table,
            layout,
            row,
        ) && row_port(table, layout, row) == port
}

/// The ports that the first `rows` rows give to `pid` are the local ports of
/// the sockets among them that `pid` owns and has bound, under the protocol
/// of the table.
pub proof fn lemma_rows_ports_are_bound(
    table: Seq<u8>,
    protocol: Protocol,
    layout: RowLayout,
    pid: Pid,
    rows: nat,
    port: ProtocolPort,
)
    ensures
        rows_ports(table, protocol, layout, pid, rows).contains(port) <==> port.spec_protocol()
            == protocol && has_bound_row(table, layout, pid, port.spec_port(), rows),
    decreases rows,
{
    if rows > 0 {
        let row = rows - 1;
        let before = rows_ports(table, protocol, layout, pid, row as nat);
        let all = rows_ports(table, protocol, layout, pid, rows);
        let counts = row_owner(table, layout, row) == pid && row_is_bound(table, layout, row);
        let last = ProtocolPort::spec_new(protocol, row_port(table, layout, row));
        lemma_rows_ports_are_bound(table, protocol, layout, pid, row as nat, port);
        if all.contains(port) {
            let at = choose|at: int| 0 <= at < all.len() && all[at] == port;
            if counts && at == before.len() {
                assert(row_owner(table, layout, row) == pid);
            } else {
                assert(before[at] == port);
                let found = choose|found: int|
                    0 <= found < row && #[trigger] row_owner(table, layout, found) == pid
                        && row_is_bound(table, layout, found) && row_port(table, layout, found)
                        == port.spec_port();
                assert(row_owner(table, layout, found) == pid);
            }
        }
        if port.spec_protocol() == protocol && has_bound_row(
            table,
            layout,
            pid,
            port.spec_port(),
            rows,
        ) {
            let found = choose|found: int|
                0 <= found < rows && #[trigger] row_owner(table, layout, found) == pid
                    && row_is_bound(table, layout, found) && row_port(table, layout, found)
                    == port.spec_port();
            if found == row {
                assert(all[before.len() as int] == port);
            } else {
                assert(row_owner(table, layout, found) == pid);
                let at = choose|at: int| 0 <= at < before.len() && before[at] == port;
                assert(all[at] == port);
            }
        }
    }
}

/// In a TCP table a process is given the ports of its listening sockets and
/// no others; in a UDP table, the ports of all its sockets: a port is given
/// if and only if some row of the table holds it, names `pid` as its owner
/// and, in a TCP table, is in the listening state.
pub proof fn lemma_table_ports_are_bound(
    table: Seq<u8>,
    protocol: Protocol,
    family: AddressFamily,
    pid: Pid,
    port: ProtocolPort,
)
    ensures
        spec_table_ports(table, protocol, family, pid).contains(port) <==> port.spec_protocol()
            == protocol && has_bound_row(
            table,
            spec_row_layout(protocol, family),
            pid,
            port.spec_port(),
            row_count(table, spec_row_layout(protocol, family)),
        ),
{
    let layout = spec_row_layout(protocol, family);
    lemma_rows_ports_are_bound(table, protocol, layout, pid, row_count(table, layout), port);
}

/// The code with which a call says that the buffer was too small:
/// `ERROR_INSUFFICIENT_BUFFER`.
pub const INSUFFICIENT_BUFFER: u32 = 122;

/// The code with which a call says that it filled the buffer: `NO_ERROR`.
pub const SUCCESS: u32 = 0;

/// How the error code `code` is written in an error's text: as the platform
/// bindings print a `WIN32_ERROR`.
pub open spec fn win32_error_text(code: u32) -> Seq<char> {
    "WIN32_ERROR("@ + decimal_text(code as nat) + ")"@
}

/// Reads the 32-bit number in `table[at..at + 4]`.
fn read_dword(table: &[u8], at: usize) -> (number: u32)
    requires
        at + 4 <= table.len(),
    ensures
        number == dword_at(table@, at as int),
{
    let b0 = table[at] as u32;
    let b1 = table[at + 1] as u32;
    let b2 = table[at + 2] as u32;
    let b3 = table[at + 3] as u32;
    b0 + b1 * 0x100 + b2 * 0x1_0000 + b3 * 0x100_0000
}

/// Counts the rows of `table`.
fn count_rows(table: &[u8], layout: RowLayout) -> (rows: usize)
    requires
        layout.size > 0,
    ensures
        rows == row_count(table@, layout),
        rows > 0 ==> HEADER_SIZE + rows * layout.size <= table.len(),
{
    if table.len() < HEADER_SIZE {
        return 0;
    }
    let announced = read_dword(table, 0) as usize;
    let whole = (table.len() - HEADER_SIZE) / layout.size;
    let rows = if announced <= whole {
        announced
    } else {
        whole
    };
    proof {
        let bytes = table.len() - HEADER_SIZE;
        lemma_fundamental_div_mod(bytes, layout.size as int);
        lemma_mul_inequality(rows as int, whole as int, layout.size as int);
        assert(whole * layout.size == layout.size * whole) by (nonlinear_arith);
    }
    rows
}

/// Walks the rows of `table` and collects the ports of the sockets that
/// `pid` owns: of its listening sockets in a TCP table, of all its sockets in
/// a UDP table. Rows that the table's head announces but that do not lie in
/// `table` whole are not read.
pub fn table_ports(table: &[u8], protocol: Protocol, family: AddressFamily, pid: Pid) -> (ports:
    Vec<ProtocolPort>)
    ensures
        ports@ == spec_table_ports(table@, protocol, family, pid),
{
    let layout = row_layout(protocol, family);
    let rows = count_rows(table, layout);
    let mut ports: Vec<ProtocolPort> = Vec::new();
    let mut row: usize = 0;
    let mut start: usize = HEADER_SIZE;
    while row < rows
        invariant
            row <= rows,
            layout.well_formed(),
            layout.size > 0,
            rows > 0 ==> HEADER_SIZE + rows * layout.size <= table.len(),
            start == HEADER_SIZE + row * layout.size,
            ports@ == rows_ports(table@, protocol, layout, pid, row as nat),
        decreases rows - row,
    {
        proof {
            lemma_mul_is_distributive_add_other_way(layout.size as int, row as int, 1);
            lemma_mul_inequality(row + 1, rows as int, layout.size as int);
        }
        let owner = read_dword(table, start + layout.owning_pid);
        let bound = match layout.state {
            Some(state) => read_dword(table, start + state) == LISTEN_STATE,
            None => true,
        };
        if owner == pid && bound {
            let field = read_dword(table, start + layout.local_port);
            let port = (field % 0x1_0000) as Port;
            ports.push(ProtocolPort::new(protocol, port));
        }
        start += layout.size;
        row += 1;
    }
    ports
}

/// How the load of a table goes on after a call.
#[derive(Debug)]
pub enum LoadStep {
    /// The call filled the buffer: it holds the table.
    Loaded,
    /// The buffer was too small: call again with one of `size` bytes.
    Retry {
        /// The size that the call asked for
        size: usize,
    },
    /// The load has failed.
    Failed(ProcCtlError),
}

/// A `LoadStep` as a mathematical value.
pub ghost enum LoadStepView {
    Loaded,
    Retry { size: nat },
    Failed(ErrorView),
}

impl View for LoadStep {
    type V = LoadStepView;

    open spec fn view(&self) -> LoadStepView {
        match self {
            LoadStep::Loaded => LoadStepView::Loaded,
            LoadStep::Retry { size } => LoadStepView::Retry { size: *size as nat },
            LoadStep::Failed(error) => LoadStepView::Failed(error@),
        }
    }
}

/// The text of the error for a table that could not be loaded.
pub open spec fn load_failure_text(protocol: Protocol) -> Seq<char> {
    match protocol {
        Protocol::Tcp => "Failed to get TCP table"@,
        Protocol::Udp => "Failed to get UDP table"@,
    }
}

/// How the load of the table for `protocol` goes on after call number
/// `calls`, which returned the code `code` and asked for `size` bytes.
pub open spec fn spec_next_load_step(
    protocol: Protocol,
    calls: usize,
    code: u32,
    size: u32,
) -> LoadStepView {
    if code == INSUFFICIENT_BUFFER {
        if calls < LOAD_ATTEMPTS {
            LoadStepView::Retry { size: size as nat }
        } else {
            LoadStepView::Failed(ErrorView::ProcessError(load_failure_text(protocol)))
        }
    } else if code != SUCCESS {
        LoadStepView::Failed(
            ErrorView::ProcessError(
                load_failure_text(protocol) + ": "@ + win32_error_text(code),
            ),
        )
    } else {
        LoadStepView::Loaded
    }
}

/// The text of the error for a table that could not be loaded.
fn load_failure(protocol: Protocol) -> (text: String)
    ensures
        text@ == load_failure_text(protocol),
{
    match protocol {
        Protocol::Tcp => "Failed to get TCP table".to_string(),
        Protocol::Udp => "Failed to get UDP table".to_string(),
    }
}

/// Decides how the load of the table for `protocol` goes on after a call of
/// `GetExtendedTcpTable` or `GetExtendedUdpTable`. `calls` counts the calls
/// made for this table, the last one included; `code` is what that call
/// returned and `size` the buffer size that it reported.
///
/// A call that found the buffer too small is repeated with the size that it
/// reported, until `LOAD_ATTEMPTS` calls have been made. Any other failure
/// ends the load at once.
pub fn next_load_step(protocol: Protocol, calls: usize, code: u32, size: u32) -> (step: LoadStep)
    ensures
        step@ == spec_next_load_step(protocol, calls, code, size),
        step is Loaded <==> code == SUCCESS,
        step is Retry <==> code == INSUFFICIENT_BUFFER && calls < LOAD_ATTEMPTS,
{
    if code == INSUFFICIENT_BUFFER {
        if calls < LOAD_ATTEMPTS {
            LoadStep::Retry { size: size as usize }
        } else {
            LoadStep::Failed(ProcCtlError::ProcessError(load_failure(protocol)))
        }
    } else if code != SUCCESS {
        let mut text = load_failure(protocol);
        text.append(": WIN32_ERROR(");
        let number = write_decimal(code);
        text.append(number.as_str());
        text.append(")");
        proof {
            reveal_strlit(": WIN32_ERROR(");
            reveal_strlit(": ");
            reveal_strlit("WIN32_ERROR(");
            assert(": WIN32_ERROR("@ =~= ": "@ + "WIN32_ERROR("@);
            assert(text@ =~= load_failure_text(protocol) + ": "@ + win32_error_text(code));
        }
        LoadStep::Failed(ProcCtlError::ProcessError(text))
    } else {
        LoadStep::Loaded
    }
}

} // verus!
