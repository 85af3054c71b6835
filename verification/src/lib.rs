//! Which ports has a process bound, and which processes has it started?
//!
//! The answers lie in tables of the operating system that each platform
//! hands out in a form of its own: Linux as rows under `/proc` that are
//! joined with the file descriptors of the process on the inode of the
//! socket, Windows as binary tables that name the owning pid in each row,
//! macOS as the field output of `lsof`. This library resolves the tables once
//! they are read. It reads nothing itself: a caller reads the tables, hands
//! them to a query and gets the ports or the processes back, or a typed
//! error.
//!
//! - `port_query` holds `PortQuery`, which finds the ports of a process in a
//!   `SocketTables` value, and the laws on what it finds.
//! - `socket_tables` holds `SocketTables`; `proc_net`, `owner_table` and
//!   `lsof` hold the tables of Linux, Windows and macOS.
//! - `proc_query` holds `ProcQuery`, which finds processes and the children
//!   of a process in a process table.
//! - `retry` decides how a query that failed is tried again.

pub mod common;
pub mod decimal;
pub mod error;
pub mod lsof;
pub mod owner_table;
pub mod port_query;
pub mod proc_net;
pub mod proc_query;
pub mod retry;
pub mod sequences;
pub mod socket_tables;
pub mod types;

pub use crate::error::{ProcCtlError, ProcCtlResult};
pub use crate::port_query::PortQuery;
pub use crate::proc_query::{ProcInfo, ProcQuery};
pub use crate::socket_tables::SocketTables;
pub use crate::types::{AddressFamily, Pid, Platform, Port, Protocol, ProtocolPort};
