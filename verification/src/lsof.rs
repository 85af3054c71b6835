//! Reading the field output of `lsof -F0pn`.
//!
//! The output is a run of fields. A field is a tag byte and a body, ended by
//! a NUL byte; a line terminator may follow the NUL. A field tagged `p` opens
//! the record of one process and holds its pid in decimal. A field tagged `n`
//! names one socket of the record it stands in: `host:port` for IPv4,
//! `[host]:port` for IPv6. Bytes after the last NUL belong to no field.
//!
//! Reading is lenient. Output that does not open with a record gives no
//! ports. A record whose pid is no number owns nothing, and a name that holds
//! no port gives none; neither stops the scan.

use crate::decimal::{decimal, parse_decimal};
use crate::types::{AddressFamily, Pid, Port, Protocol};
use vstd::prelude::*;

verus! {

/// The byte that ends a field.
pub const NUL: u8 = 0;

/// The byte that ends a line.
pub const LINE_END: u8 = 10;

/// The tag `p` of a field that opens a process record.
pub const TAG_PROCESS: u8 = 112;

/// The tag `n` of a field that names a socket.
pub const TAG_NAME: u8 = 110;

/// The byte `:`.
pub const COLON: u8 = 58;

/// The byte `]`.
pub const CLOSE_BRACKET: u8 = 93;

/// The number of bytes from `from` up to the next NUL, or up to the end of
/// `output` where no NUL follows.
pub open spec fn field_len(output: Seq<u8>, from: int) -> nat
    decreases output.len() - from,
{
    if 0 <= from < output.len() && output[from] != NUL {
        1 + field_len(output, from + 1)
    } else {
        0
    }
}

/// Where the next field starts, after a field whose NUL stands at `end`.
pub open spec fn next_field(output: Seq<u8>, end: int) -> int {
    if end + 1 < output.len() && output[end + 1] == LINE_END {
        end + 2
    } else {
        end + 1
    }
}

/// The fields of `output` that start at `from` or later, each without its NUL.
pub open spec fn fields_from(output: Seq<u8>, from: int) -> Seq<Seq<u8>>
    decreases output.len() - from,
{
    let end = from + field_len(output, from);
    if from < 0 || end >= output.len() {
        Seq::empty()
    } else {
        seq![output.subrange(from, end)] + fields_from(output, next_field(output, end))
    }
}

/// The fields of `output`, in order.
pub open spec fn fields(output: Seq<u8>) -> Seq<Seq<u8>> {
    fields_from(output, 0)
}

/// Whether `field` opens a process record.
pub open spec fn is_header(field: Seq<u8>) -> bool {
    field.len() > 0 && field[0] == TAG_PROCESS
}

/// Whether `field` names a socket.
pub open spec fn is_name(field: Seq<u8>) -> bool {
    field.len() > 0 && field[0] == TAG_NAME
}

/// The pid that the record header `field` holds, if its body is a number.
pub open spec fn header_pid(field: Seq<u8>) -> Option<Pid> {
    match decimal(field.skip(1), u32::MAX as nat) {
        Some(pid) => Some(pid as Pid),
        None => None,
    }
}

/// The pid of the record that is open after `fields`: that of the last
/// header among them.
pub open spec fn record_pid(fields: Seq<Seq<u8>>) -> Option<Pid>
    decreases fields.len(),
{
    if fields.len() == 0 {
        None
    } else if is_header(fields.last()) {
        header_pid(fields.last())
    } else {
        record_pid(fields.drop_last())
    }
}

/// The part of a socket name that holds the port: for IPv4 what follows the
/// last `:`, for IPv6 what follows the `]:` that closes the address.
pub open spec fn port_text(name: Seq<u8>, family: AddressFamily) -> Option<Seq<u8>> {
    match family {
        AddressFamily::V4 => match name.index_of_last(COLON) {
            Some(colon) => Some(name.subrange(colon + 1, name.len() as int)),
            None => None,
        },
        AddressFamily::V6 => match name.index_of_first(CLOSE_BRACKET) {
            Some(bracket) => if bracket + 1 < name.len() && name[bracket + 1] == COLON {
                Some(name.subrange(bracket + 2, name.len() as int))
            } else {
                None
            },
            None => None,
        },
    }
}

/// The port that the socket name `name` holds, if it holds one.
pub open spec fn name_port(name: Seq<u8>, family: AddressFamily) -> Option<Port> {
    match port_text(name, family) {
        Some(text) => match decimal(text, u16::MAX as nat) {
            Some(port) => Some(port as Port),
            None => None,
        },
        None => None,
    }
}

/// The port that field `k` of `fields` gives to `pid`: the one it names, if
/// it is a name in a record of `pid`.
pub open spec fn field_port(
    fields: Seq<Seq<u8>>,
    k: int,
    pid: Pid,
    family: AddressFamily,
) -> Option<Port> {
    if is_name(fields[k]) && record_pid(fields.take(k)) == Some(pid) {
        name_port(fields[k].skip(1), family)
    } else {
        None
    }
}

/// The ports that `fields` give to `pid`, in the order of the fields.
pub open spec fn ports_of(fields: Seq<Seq<u8>>, pid: Pid, family: AddressFamily) -> Seq<Port>
    decreases fields.len(),
{
    if fields.len() == 0 {
        Seq::empty()
    } else {
        let before = ports_of(fields.drop_last(), pid, family);
        match field_port(fields, fields.len() - 1, pid, family) {
            Some(port) => before.push(port),
            None => before,
        }
    }
}

/// The ports that `output` lists for `pid`.
pub open spec fn lsof_ports(output: Seq<u8>, pid: Pid, family: AddressFamily) -> Seq<Port> {
    let all = fields(output);
    if all.len() > 0 && is_header(all[0]) {
        ports_of(all, pid, family)
    } else {
        Seq::empty()
    }
}

/// Whether `output` names a socket of `pid` with the port `port`: whether it
/// opens with a record and one of its fields is a name with that port in a
/// record of `pid`.
pub open spec fn names_port(output: Seq<u8>, pid: Pid, family: AddressFamily, port: Port) -> bool {
    let all = fields(output);
    all.len() > 0 && is_header(all[0]) && exists|k: int|
        0 <= k < all.len() && #[trigger] field_port(all, k, pid, family) == Some(port)
}

/// The ports that `fields` give to `pid` are those that its fields give.
pub proof fn lemma_ports_of_fields(
    fields: Seq<Seq<u8>>,
    pid: Pid,
    family: AddressFamily,
    port: Port,
)
    ensures
        ports_of(fields, pid, family).contains(port) <==> exists|k: int|
            0 <= k < fields.len() && #[trigger] field_port(fields, k, pid, family) == Some(port),
    decreases fields.len(),
{
    if fields.len() > 0 {
        let last = fields.len() - 1;
        let front = fields.drop_last();
        let before = ports_of(front, pid, family);
        let all = ports_of(fields, pid, family);
        lemma_ports_of_fields(front, pid, family, port);
        assert forall|k: int| 0 <= k < last implies field_port(front, k, pid, family)
            == field_port(fields, k, pid, family) by {
            assert(front.take(k) =~= fields.take(k));
        }
        if all.contains(port) {
            let at = choose|at: int| 0 <= at < all.len() && all[at] == port;
            if field_port(fields, last, pid, family) is Some && at == before.len() {
                assert(field_port(fields, last, pid, family) == Some(port));
            } else {
                assert(before[at] == port);
                let k = choose|k: int|
                    0 <= k < front.len() && #[trigger] field_port(front, k, pid, family) == Some(
                        port,
                    );
                assert(field_port(fields, k, pid, family) == Some(port));
            }
        }
        if exists|k: int|
            0 <= k < fields.len() && #[trigger] field_port(fields, k, pid, family) == Some(port) {
            let k = choose|k: int|
                0 <= k < fields.len() && #[trigger] field_port(fields, k, pid, family) == Some(
                    port,
                );
            if k == last {
                assert(all[before.len() as int] == port);
            } else {
                assert(field_port(front, k, pid, family) == Some(port));
                let at = choose|at: int| 0 <= at < before.len() && before[at] == port;
                assert(all[at] == port);
            }
        }
    }
}

/// The ports that a scan gives to `pid` are those of the sockets that the
/// output names in the records of `pid`, and no others: no name in the
/// record of another process gives a port.
pub proof fn lemma_lsof_ports_are_named(
    output: Seq<u8>,
    pid: Pid,
    family: AddressFamily,
    port: Port,
)
    ensures
        lsof_ports(output, pid, family).contains(port) <==> names_port(output, pid, family, port),
{
    lemma_ports_of_fields(fields(output), pid, family, port);
}

/// The command that lists the sockets of `protocol` over `family`, one name
/// to a socket, in the fields that `find_ports` reads: the program, then its
/// arguments. Of the TCP sockets it lists those that listen.
pub open spec fn spec_lsof_command(protocol: Protocol, family: AddressFamily) -> Seq<Seq<char>> {
    seq![
        "lsof"@,
        "-a"@,
        match protocol {
            Protocol::Tcp => "-iTCP"@,
            Protocol::Udp => "-iUDP"@,
        },
        match family {
            AddressFamily::V4 => "-i4"@,
            AddressFamily::V6 => "-i6"@,
        },
    ] + match protocol {
        Protocol::Tcp => seq!["-sTCP:LISTEN"@],
        Protocol::Udp => Seq::empty(),
    } + seq!["-nP"@, "-F0pn"@]
}

/// The command to run for the sockets of `protocol` over `family`: the
/// program, then its arguments.
pub fn lsof_command(protocol: Protocol, family: AddressFamily) -> (command: Vec<&'static str>)
    ensures
        command@.map_values(|word: &'static str| word@) == spec_lsof_command(protocol, family),
{
    let mut command: Vec<&'static str> = Vec::new();
    command.push("lsof");
    command.push("-a");
    match protocol {
        Protocol::Tcp => command.push("-iTCP"),
        Protocol::Udp => command.push("-iUDP"),
    }
    match family {
        AddressFamily::V4 => command.push("-i4"),
        AddressFamily::V6 => command.push("-i6"),
    }
    match protocol {
        Protocol::Tcp => command.push("-sTCP:LISTEN"),
        Protocol::Udp => {},
    }
    command.push("-nP");
    command.push("-F0pn");
    assert(command@.map_values(|word: &'static str| word@) =~= spec_lsof_command(
        protocol,
        family,
    ));
    command
}

/// Finds the NUL that ends the field starting at `from`.
fn field_end(output: &[u8], from: usize) -> (end: usize)
    requires
        from <= output.len(),
    ensures
        end == from + field_len(output@, from as int),
        from <= end <= output.len(),
{
    let mut end = from;
    while end < output.len() && output[end] != NUL
        invariant
            from <= end <= output.len(),
            from + field_len(output@, from as int) == end + field_len(output@, end as int),
        decreases output.len() - end,
    {
        end += 1;
    }
    end
}

/// Finds the last `byte` in `bytes[start..end]`.
fn last_index_of(bytes: &[u8], start: usize, end: usize, byte: u8) -> (found: Option<usize>)
    requires
        start <= end <= bytes.len(),
    ensures
        match found {
            Some(at) => start <= at < end && bytes@.subrange(start as int, end as int).index_of_last(
                byte,
            ) == Some(at - start),
            None => bytes@.subrange(start as int, end as int).index_of_last(byte) is None,
        },
{
    let ghost range = bytes@.subrange(start as int, end as int);
    let mut at = end;
    while at > start
        invariant
            start <= at <= end <= bytes.len(),
            range == bytes@.subrange(start as int, end as int),
            forall|j: int| at - start <= j < range.len() ==> range[j] != byte,
        decreases at,
    {
        at -= 1;
        if bytes[at] == byte {
            proof {
                assert(range[at - start] == byte);
                range.index_of_last_ensures(byte);
            }
            return Some(at);
        }
    }
    proof {
        range.index_of_last_ensures(byte);
    }
    None
}

/// Finds the first `byte` in `bytes[start..end]`.
fn first_index_of(bytes: &[u8], start: usize, end: usize, byte: u8) -> (found: Option<usize>)
    requires
        start <= end <= bytes.len(),
    ensures
        match found {
            Some(at) => start <= at < end && bytes@.subrange(
                start as int,
                end as int,
            ).index_of_first(byte) == Some(at - start),
            None => bytes@.subrange(start as int, end as int).index_of_first(byte) is None,
        },
{
    let ghost range = bytes@.subrange(start as int, end as int);
    let mut at = start;
    while at < end
        invariant
            start <= at <= end <= bytes.len(),
            range == bytes@.subrange(start as int, end as int),
            forall|j: int| 0 <= j < at - start ==> range[j] != byte,
        decreases end - at,
    {
        if bytes[at] == byte {
            proof {
                assert(range[at - start] == byte);
                range.index_of_first_ensures(byte);
            }
            return Some(at);
        }
        at += 1;
    }
    proof {
        range.index_of_first_ensures(byte);
    }
    None
}

/// Reads the port out of the socket name in `output[start..end]`.
fn read_name_port(output: &[u8], start: usize, end: usize, family: AddressFamily) -> (port: Option<
    Port,
>)
    requires
        start <= end <= output.len(),
    ensures
        port == name_port(output@.subrange(start as int, end as int), family),
{
    let ghost name = output@.subrange(start as int, end as int);
    let text_start = match family {
        AddressFamily::V4 => match last_index_of(output, start, end, COLON) {
            Some(colon) => colon + 1,
            None => {
                return None;
            },
        },
        AddressFamily::V6 => match first_index_of(output, start, end, CLOSE_BRACKET) {
            Some(bracket) => {
                if bracket + 1 < end && output[bracket + 1] == COLON {
                    bracket + 2
                } else {
                    return None;
                }
            },
            None => {
                return None;
            },
        },
    };
    assert(port_text(name, family) == Some(output@.subrange(text_start as int, end as int))) by {
        assert(name.subrange(text_start - start, name.len() as int) =~= output@.subrange(
            text_start as int,
            end as int,
        ));
    }
    match parse_decimal(output, text_start, end, 65535) {
        Some(port) => Some(port as Port),
        None => None,
    }
}

/// Scans `output` for the ports of the sockets of `find_pid`.
pub fn find_ports(output: &[u8], find_pid: Pid, family: AddressFamily) -> (ports: Vec<Port>)
    ensures
        ports@ == lsof_ports(output@, find_pid, family),
{
    let len = output.len();
    let mut ports: Vec<Port> = Vec::new();
    if len == 0 || output[0] != TAG_PROCESS {
        return ports;
    }
    let mut from: usize = 0;
    let mut record: Option<Pid> = None;
    let mut open = true;
    let ghost mut done: Seq<Seq<u8>> = Seq::empty();
    assert(done + fields_from(output@, 0) =~= fields(output@));
    while open && from < len
        invariant
            from <= len == output.len(),
            fields(output@) == done + fields_from(output@, from as int),
            ports@ == ports_of(done, find_pid, family),
            record == record_pid(done),
            !open ==> fields_from(output@, from as int).len() == 0,
        decreases len - from + if open { 1int } else { 0int },
    {
        let end = field_end(output, from);
        if end >= len {
            open = false;
        } else {
            let ghost field = output@.subrange(from as int, end as int);
            let ghost after = done.push(field);
            let next = if end + 1 < len && output[end + 1] == LINE_END {
                end + 2
            } else {
                end + 1
            };
            proof {
                assert(after.drop_last() =~= done);
                assert(after.take(after.len() - 1) =~= done);
                assert(after + fields_from(output@, next as int) =~= done + fields_from(
                    output@,
                    from as int,
                ));
                if end > from {
                    assert(field.skip(1) =~= output@.subrange(from + 1, end as int));
                }
            }
            if end > from && output[from] == TAG_PROCESS {
                record =
                match parse_decimal(output, from + 1, end, u32::MAX) {
                    Some(pid) => Some(pid),
                    None => None,
                };
            } else if end > from && output[from] == TAG_NAME && same_pid(record, find_pid) {
                match read_name_port(output, from + 1, end, family) {
                    Some(port) => {
                        ports.push(port);
                    },
                    None => {},
                }
            }
            proof {
                done = after;
            }
            from = next;
        }
    }
    proof {
        assert(fields(output@) =~= done);
        let first = field_len(output@, 0);
        if done.len() > 0 {
            assert(fields_from(output@, 0)[0] == output@.subrange(0, first as int));
        }
    }
    ports
}

/// Whether `record` is the record of `pid`.
fn same_pid(record: Option<Pid>, pid: Pid) -> (same: bool)
    ensures
        same == (record == Some(pid)),
{
    match record {
        Some(found) => found == pid,
        None => false,
    }
}

/// Scans the output of `lsof -F0pn` over IPv4 sockets for the ports of the
/// sockets of `find_pid`.
pub fn find_ports_v4(output: Vec<u8>, find_pid: Pid) -> (ports: Vec<u16>)
    ensures
        ports@ == lsof_ports(output@, find_pid, AddressFamily::V4),
{
    find_ports(output.as_slice(), find_pid, AddressFamily::V4)
}

/// Scans the output of `lsof -F0pn` over IPv6 sockets for the ports of the
/// sockets of `find_pid`.
pub fn find_ports_v6(output: Vec<u8>, find_pid: Pid) -> (ports: Vec<u16>)
    ensures
        ports@ == lsof_ports(output@, find_pid, AddressFamily::V6),
{
    find_ports(output.as_slice(), find_pid, AddressFamily::V6)
}

} // verus!
