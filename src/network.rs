use vstd::prelude::*;

use crate::bytes::{fits, le32, read_u32};
use crate::process::ProcessRecord;
use crate::text::{decimal, push_decimal, push_str};

verus! {

/// The transport protocol of a connection.
#[derive(Clone, Copy, Debug, PartialEq, Eq, Structural)]
pub enum Protocol {
    Tcp,
    Udp,
}

impl Protocol {
    /// The protocol's name as tables show it.
    pub fn label(&self) -> (r: &'static str)
        ensures
            r == (match *self {
                Protocol::Tcp => "TCP",
                Protocol::Udp => "UDP",
            }),
    {
        match self {
            Protocol::Tcp => "TCP",
            Protocol::Udp => "UDP",
        }
    }
}

/// The state of a TCP connection.
#[derive(Clone, Copy, Debug, PartialEq, Eq, Structural)]
pub enum TcpState {
    Closed,
    Listen,
    SynSent,
    SynReceived,
    Established,
    FinWait1,
    FinWait2,
    CloseWait,
    Closing,
    LastAck,
    TimeWait,
    DeleteTcb,
    Unknown,
}

/// The state that a TCP table's numeric state code stands for.
pub open spec fn tcp_state_of(code: u32) -> TcpState {
    match code {
        1 => TcpState::Closed,
        2 => TcpState::Listen,
        3 => TcpState::SynSent,
        4 => TcpState::SynReceived,
        5 => TcpState::Established,
        6 => TcpState::FinWait1,
        7 => TcpState::FinWait2,
        8 => TcpState::CloseWait,
        9 => TcpState::Closing,
        10 => TcpState::LastAck,
        11 => TcpState::TimeWait,
        12 => TcpState::DeleteTcb,
        _ => TcpState::Unknown,
    }
}

pub open spec fn tcp_state_label(s: TcpState) -> &'static str {
    match s {
        TcpState::Closed => "CLOSED",
        TcpState::Listen => "LISTEN",
        TcpState::SynSent => "SYN_SENT",
        TcpState::SynReceived => "SYN_RECV",
        TcpState::Established => "ESTABLISHED",
        TcpState::FinWait1 => "FIN_WAIT1",
        TcpState::FinWait2 => "FIN_WAIT2",
        TcpState::CloseWait => "CLOSE_WAIT",
        TcpState::Closing => "CLOSING",
        TcpState::LastAck => "LAST_ACK",
        TcpState::TimeWait => "TIME_WAIT",
        TcpState::DeleteTcb => "DELETE_TCB",
        TcpState::Unknown => "UNKNOWN",
    }
}

impl TcpState {
    /// The state for a numeric state code; codes outside 1..=12 are `Unknown`.
    pub fn from_code(code: u32) -> (r: TcpState)
        ensures
            r == tcp_state_of(code),
    {
        match code {
            1 => TcpState::Closed,
            2 => TcpState::Listen,
            3 => TcpState::SynSent,
            4 => TcpState::SynReceived,
            5 => TcpState::Established,
            6 => TcpState::FinWait1,
            7 => TcpState::FinWait2,
            8 => TcpState::CloseWait,
            9 => TcpState::Closing,
            10 => TcpState::LastAck,
            11 => TcpState::TimeWait,
            12 => TcpState::DeleteTcb,
            _ => TcpState::Unknown,
        }
    }

    /// The state's name as tables show it.
    pub fn label(&self) -> (r: &'static str)
        ensures
            r == tcp_state_label(*self),
    {
        match self {
            TcpState::Closed => "CLOSED",
            TcpState::Listen => "LISTEN",
            TcpState::SynSent => "SYN_SENT",
            TcpState::SynReceived => "SYN_RECV",
            TcpState::Established => "ESTABLISHED",
            TcpState::FinWait1 => "FIN_WAIT1",
            TcpState::FinWait2 => "FIN_WAIT2",
            TcpState::CloseWait => "CLOSE_WAIT",
            TcpState::Closing => "CLOSING",
            TcpState::LastAck => "LAST_ACK",
            TcpState::TimeWait => "TIME_WAIT",
            TcpState::DeleteTcb => "DELETE_TCB",
            TcpState::Unknown => "UNKNOWN",
        }
    }
}

/// One TCP or UDP endpoint and the process that owns it.
#[derive(Clone, Debug)]
pub struct NetworkConnection {
    pub protocol: Protocol,
    pub local_addr: String,
    pub local_port: u16,
    pub remote_addr: String,
    pub remote_port: u16,
    pub state: Option<TcpState>,
    pub pid: u32,
    pub process_name: String,
    pub exe_path: String,
}

/// A connection as plain values, field by field.
pub open spec fn connection_view(c: NetworkConnection) -> (
    Protocol,
    Seq<char>,
    u16,
    Seq<char>,
    u16,
    Option<TcpState>,
    u32,
    Seq<char>,
    Seq<char>,
) {
    (
        c.protocol,
        c.local_addr@,
        c.local_port,
        c.remote_addr@,
        c.remote_port,
        c.state,
        c.pid,
        c.process_name@,
        c.exe_path@,
    )
}

pub open spec fn connections_view(v: Seq<NetworkConnection>) -> Seq<
    (Protocol, Seq<char>, u16, Seq<char>, u16, Option<TcpState>, u32, Seq<char>, Seq<char>),
> {
    v.map_values(|c: NetworkConnection| connection_view(c))
}

/// Dotted-quad text of an IPv4 address held as it lies in memory (first
/// octet in the low byte).
pub open spec fn ip_text(ip: u32) -> Seq<char> {
    decimal((ip % 256) as nat) + "."@ + decimal(((ip / 256) % 256) as nat) + "."@ + decimal(
        ((ip / 65536) % 256) as nat,
    ) + "."@ + decimal((ip / 16777216) as nat)
}

/// Writes an IPv4 address in dotted-quad form.
pub fn ip_to_string(ip: u32) -> (r: String)
    ensures
        r@ == ip_text(ip),
{
    let mut r = String::new();
    push_decimal(&mut r, (ip % 256) as u64);
    push_str(&mut r, ".");
    push_decimal(&mut r, ((ip / 256) % 256) as u64);
    push_str(&mut r, ".");
    push_decimal(&mut r, ((ip / 65536) % 256) as u64);
    push_str(&mut r, ".");
    push_decimal(&mut r, (ip / 16777216) as u64);
    assert(r@ =~= ip_text(ip));
    r
}

/// A port as the tables hold it (network byte order in the low 16 bits)
/// turned into its number.
pub open spec fn port_value(port: u32) -> u16 {
    ((port % 256) * 256 + (port / 256) % 256) as u16
}

/// Swaps the two low bytes of a table port field into a port number.
pub fn port_from_network(port: u32) -> (r: u16)
    ensures
        r == port_value(port),
{
    ((port % 256) * 256 + (port / 256) % 256) as u16
}

/// The index of the last record carrying `pid`, if any.
pub open spec fn last_record(records: Seq<ProcessRecord>, pid: u32) -> Option<int>
    decreases records.len(),
{
    if records.len() == 0 {
        None
    } else if records.last().pid == pid {
        Some(records.len() - 1)
    } else {
        last_record(records.drop_last(), pid)
    }
}

/// The name and path shown for the owner of a connection: those of the
/// process record with its pid, or "PID n" and no path where none has it.
pub open spec fn owner_text(records: Seq<ProcessRecord>, pid: u32) -> (Seq<char>, Seq<char>) {
    match last_record(records, pid) {
        Some(i) => (records[i].name@, records[i].exe_path@),
        None => ("PID "@ + decimal(pid as nat), Seq::empty()),
    }
}

fn owner_of(records: &Vec<ProcessRecord>, pid: u32) -> (r: (String, String))
    ensures
        (r.0@, r.1@) == owner_text(records@, pid),
{
    let mut found: Option<usize> = None;
    let mut i: usize = 0;
    while i < records.len()
        invariant
            i <= records@.len(),
            match found {
                Some(k) => k < i && last_record(records@.subrange(0, i as int), pid) == Some(
                    k as int,
                ),
                None => last_record(records@.subrange(0, i as int), pid) is None,
            },
        decreases records@.len() - i,
    {
        assert(records@.subrange(0, i + 1).drop_last() =~= records@.subrange(0, i as int));
        if records[i].pid == pid {
            found = Some(i);
        }
        i = i + 1;
    }
    assert(records@.subrange(0, records@.len() as int) =~= records@);
    match found {
        Some(k) => (records[k].name.clone(), records[k].exe_path.clone()),
        None => {
            let mut name = String::new();
            push_str(&mut name, "PID ");
            push_decimal(&mut name, pid as u64);
            assert(name@ =~= "PID "@ + decimal(pid as nat));
            (name, String::new())
        },
    }
}

/// The connection that a TCP table row at `off` describes.
pub open spec fn tcp_row(buf: Seq<u8>, off: int, records: Seq<ProcessRecord>) -> (
    Protocol,
    Seq<char>,
    u16,
    Seq<char>,
    u16,
    Option<TcpState>,
    u32,
    Seq<char>,
    Seq<char>,
) {
    let pid = le32(buf, off + 20) as u32;
    (
        Protocol::Tcp,
        ip_text(le32(buf, off + 4) as u32),
        port_value(le32(buf, off + 8) as u32),
        ip_text(le32(buf, off + 12) as u32),
        port_value(le32(buf, off + 16) as u32),
        Some(tcp_state_of(le32(buf, off) as u32)),
        pid,
        owner_text(records, pid).0,
        owner_text(records, pid).1,
    )
}

/// The connection that a UDP table row at `off` describes.
pub open spec fn udp_row(buf: Seq<u8>, off: int, records: Seq<ProcessRecord>) -> (
    Protocol,
    Seq<char>,
    u16,
    Seq<char>,
    u16,
    Option<TcpState>,
    u32,
    Seq<char>,
    Seq<char>,
) {
    let pid = le32(buf, off + 8) as u32;
    (
        Protocol::Udp,
        ip_text(le32(buf, off) as u32),
        port_value(le32(buf, off + 4) as u32),
        Seq::empty(),
        0,
        None,
        pid,
        owner_text(records, pid).0,
        owner_text(records, pid).1,
    )
}

pub open spec fn row_size(tcp: bool) -> int {
    if tcp {
        24
    } else {
        12
    }
}

/// The connections of rows `i..n` of a table whose row `i` starts at `off`;
/// the walk stops at the first row that does not fit in the buffer.
pub open spec fn table_rows(
    buf: Seq<u8>,
    tcp: bool,
    records: Seq<ProcessRecord>,
    off: int,
    i: int,
    n: int,
) -> Seq<(Protocol, Seq<char>, u16, Seq<char>, u16, Option<TcpState>, u32, Seq<char>, Seq<char>)>
    decreases n - i,
{
    if i >= n || off < 0 || off + row_size(tcp) > buf.len() {
        Seq::empty()
    } else {
        let row = if tcp {
            tcp_row(buf, off, records)
        } else {
            udp_row(buf, off, records)
        };
        seq![row] + table_rows(buf, tcp, records, off + row_size(tcp), i + 1, n)
    }
}

/// The connections that a filled connection table lists: a row count, then
/// fixed-size rows.
pub open spec fn table_connections(buf: Seq<u8>, tcp: bool, records: Seq<ProcessRecord>) -> Seq<
    (Protocol, Seq<char>, u16, Seq<char>, u16, Option<TcpState>, u32, Seq<char>, Seq<char>),
> {
    if buf.len() < 4 {
        Seq::empty()
    } else {
        table_rows(buf, tcp, records, 4, 0, le32(buf, 0))
    }
}

fn read_row(buf: &[u8], off: usize, tcp: bool, records: &Vec<ProcessRecord>) -> (r: NetworkConnection)
    requires
        off + row_size(tcp) <= buf@.len(),
    ensures
        connection_view(r) == (if tcp {
            tcp_row(buf@, off as int, records@)
        } else {
            udp_row(buf@, off as int, records@)
        }),
{
    let len: usize = buf.len();
    assert(off + row_size(tcp) <= len);
    if tcp {
        let pid = read_u32(buf, off + 20);
        let (process_name, exe_path) = owner_of(records, pid);
        NetworkConnection {
            protocol: Protocol::Tcp,
            local_addr: ip_to_string(read_u32(buf, off + 4)),
            local_port: port_from_network(read_u32(buf, off + 8)),
            remote_addr: ip_to_string(read_u32(buf, off + 12)),
            remote_port: port_from_network(read_u32(buf, off + 16)),
            state: Some(TcpState::from_code(read_u32(buf, off))),
            pid,
            process_name,
            exe_path,
        }
    } else {
        let pid = read_u32(buf, off + 8);
        let (process_name, exe_path) = owner_of(records, pid);
        NetworkConnection {
            protocol: Protocol::Udp,
            local_addr: ip_to_string(read_u32(buf, off)),
            local_port: port_from_network(read_u32(buf, off + 4)),
            remote_addr: String::new(),
            remote_port: 0,
            state: None,
            pid,
            process_name,
            exe_path,
        }
    }
}

/// Decodes a connection table (`tcp` for the TCP layout, else UDP) and joins
/// each row with the process that owns it.
pub fn parse_connection_table(buf: &[u8], tcp: bool, records: &Vec<ProcessRecord>) -> (r: Vec<
    NetworkConnection,
>)
    ensures
        connections_view(r@) == table_connections(buf@, tcp, records@),
{
    let mut out: Vec<NetworkConnection> = Vec::new();
    let len = buf.len();
    if len < 4 {
        return out;
    }
    let n = read_u32(buf, 0);
    let size: usize = if tcp {
        24
    } else {
        12
    };
    let mut off: usize = 4;
    let mut i: u32 = 0;
    while i < n && fits(len, off, size)
        invariant
            len == buf@.len(),
            size == row_size(tcp),
            connections_view(out@) + table_rows(buf@, tcp, records@, off as int, i as int, n as int)
                == table_rows(buf@, tcp, records@, 4, 0, n as int),
        ensures
            table_rows(buf@, tcp, records@, off as int, i as int, n as int) =~= Seq::<
                (Protocol, Seq<char>, u16, Seq<char>, u16, Option<TcpState>, u32, Seq<char>, Seq<char>),
            >::empty(),
            connections_view(out@) + table_rows(buf@, tcp, records@, off as int, i as int, n as int)
                == table_rows(buf@, tcp, records@, 4, 0, n as int),
        decreases n - i,
    {
        let c = read_row(buf, off, tcp, records);
        let ghost before = connections_view(out@);
        out.push(c);
        assert(connections_view(out@) =~= before + seq![connection_view(c)]);
        off = off + size;
        i = i + 1;
    }
    assert(connections_view(out@) + table_rows(buf@, tcp, records@, off as int, i as int, n as int)
        =~= connections_view(out@));
    out
}

/// All connections: those of the TCP table, then those of the UDP table, each
/// joined with the process records by pid.
pub fn get_network_connections(tcp_table: &[u8], udp_table: &[u8], processes: &Vec<ProcessRecord>) -> (r: Vec<
    NetworkConnection,
>)
    ensures
        connections_view(r@) == table_connections(tcp_table@, true, processes@) + table_connections(
            udp_table@,
            false,
            processes@,
        ),
{
    let mut all = parse_connection_table(tcp_table, true, processes);
    let mut udp = parse_connection_table(udp_table, false, processes);
    let ghost a = all@;
    let ghost b = udp@;
    all.append(&mut udp);
    assert(connections_view(all@) =~= connections_view(a) + connections_view(b));
    all
}

} // verus!
