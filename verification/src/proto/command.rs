//! The command lines a client writes to a SAM bridge.  Each ends with a
//! newline.
use vstd::prelude::*;
use crate::text::{decimal, push_decimal};

verus! {

/// The lowest protocol version offered in `HELLO`.
pub const SAM_VERSION_MIN: &'static str = "3.0";

/// The highest protocol version offered in `HELLO`.
pub const SAM_VERSION_MAX: &'static str = "3.3";

/// The signature type used for generated and created destinations.
pub const DEFAULT_SIGNATURE_TYPE: &'static str = "7";

/// The UDP port on which a SAM bridge takes datagrams.
pub const SAM_UDP_PORT: u16 = 7655;

/// `true` or `false`.
pub open spec fn bool_text(b: bool) -> Seq<char> {
    if b {
        "true"@
    } else {
        "false"@
    }
}

/// Extra options after a space, or nothing when there are none.
pub open spec fn opts_suffix(opts: Seq<char>) -> Seq<char> {
    if opts.len() == 0 {
        Seq::empty()
    } else {
        " "@ + opts
    }
}

fn append_bool(s: &mut String, b: bool)
    ensures
        final(s)@ == old(s)@ + bool_text(b),
{
    if b {
        s.append("true");
    } else {
        s.append("false");
    }
}

fn append_opts(s: &mut String, opts: &str)
    ensures
        final(s)@ == old(s)@ + opts_suffix(opts@),
{
    if !opts.is_empty() {
        s.append(" ");
        s.append(opts);
    } else {
        assert(old(s)@ + opts_suffix(opts@) =~= old(s)@);
    }
}

/// `HELLO VERSION MIN=3.0 MAX=3.3`
pub fn hello() -> (cmd: String)
    ensures
        cmd@ == "HELLO VERSION MIN=3.0 MAX=3.3\n"@,
{
    "HELLO VERSION MIN=3.0 MAX=3.3\n".to_owned()
}

/// `DEST GENERATE SIGNATURE_TYPE={sig_type}`
pub fn dest_generate(sig_type: &str) -> (cmd: String)
    ensures
        cmd@ == "DEST GENERATE SIGNATURE_TYPE="@ + sig_type@ + "\n"@,
{
    let mut s = "DEST GENERATE SIGNATURE_TYPE=".to_owned();
    s.append(sig_type);
    s.append("\n");
    s
}

/// `SESSION CREATE STYLE=STREAM ID={id} DESTINATION={dest} SIGNATURE_TYPE=7 [{opts}]`
pub fn session_create_stream(id: &str, dest: &str, opts: &str) -> (cmd: String)
    ensures
        cmd@ == "SESSION CREATE STYLE=STREAM ID="@ + id@ + " DESTINATION="@ + dest@
            + " SIGNATURE_TYPE=7"@ + opts_suffix(opts@) + "\n"@,
{
    let mut s = "SESSION CREATE STYLE=STREAM ID=".to_owned();
    s.append(id);
    s.append(" DESTINATION=");
    s.append(dest);
    s.append(" SIGNATURE_TYPE=7");
    append_opts(&mut s, opts);
    s.append("\n");
    s
}

/// `SESSION CREATE STYLE=DATAGRAM ID={id} DESTINATION={dest} PORT={udp_port}
/// HOST=127.0.0.1 SIGNATURE_TYPE=7 [{opts}]`
pub fn session_create_datagram(id: &str, dest: &str, udp_port: u16, opts: &str) -> (cmd: String)
    ensures
        cmd@ == "SESSION CREATE STYLE=DATAGRAM ID="@ + id@ + " DESTINATION="@ + dest@
            + " PORT="@ + decimal(udp_port as nat) + " HOST=127.0.0.1 SIGNATURE_TYPE=7"@
            + opts_suffix(opts@) + "\n"@,
{
    let mut s = "SESSION CREATE STYLE=DATAGRAM ID=".to_owned();
    s.append(id);
    s.append(" DESTINATION=");
    s.append(dest);
    s.append(" PORT=");
    push_decimal(&mut s, udp_port as u64);
    s.append(" HOST=127.0.0.1 SIGNATURE_TYPE=7");
    append_opts(&mut s, opts);
    s.append("\n");
    s
}

/// ` PROTOCOL={p}` when a protocol is given.
pub open spec fn protocol_part(protocol: Option<u8>) -> Seq<char> {
    match protocol {
        Some(p) => " PROTOCOL="@ + decimal(p as nat),
        None => Seq::empty(),
    }
}

/// ` HEADER=true` when headers are asked for.
pub open spec fn header_part(header: bool) -> Seq<char> {
    if header {
        " HEADER=true"@
    } else {
        Seq::empty()
    }
}

/// `SESSION CREATE STYLE=RAW ID={id} DESTINATION={dest} PORT={udp_port}
/// HOST=127.0.0.1 SIGNATURE_TYPE=7 [PROTOCOL={protocol}] [HEADER=true] [{opts}]`
pub fn session_create_raw(
    id: &str,
    dest: &str,
    udp_port: u16,
    protocol: Option<u8>,
    header: bool,
    opts: &str,
) -> (cmd: String)
    ensures
        cmd@ == "SESSION CREATE STYLE=RAW ID="@ + id@ + " DESTINATION="@ + dest@ + " PORT="@
            + decimal(udp_port as nat) + " HOST=127.0.0.1 SIGNATURE_TYPE=7"@ + protocol_part(
            protocol,
        ) + header_part(header) + opts_suffix(opts@) + "\n"@,
{
    let mut s = "SESSION CREATE STYLE=RAW ID=".to_owned();
    s.append(id);
    s.append(" DESTINATION=");
    s.append(dest);
    s.append(" PORT=");
    push_decimal(&mut s, udp_port as u64);
    s.append(" HOST=127.0.0.1 SIGNATURE_TYPE=7");
    let ghost before_protocol = s@;
    match protocol {
        Some(p) => {
            s.append(" PROTOCOL=");
            push_decimal(&mut s, p as u64);
        },
        None => {},
    }
    assert(s@ =~= before_protocol + protocol_part(protocol));
    let ghost before_header = s@;
    if header {
        s.append(" HEADER=true");
    }
    assert(s@ =~= before_header + header_part(header));
    append_opts(&mut s, opts);
    s.append("\n");
    s
}

/// `SESSION CREATE STYLE=PRIMARY ID={id} DESTINATION={dest} SIGNATURE_TYPE=7 [{opts}]`
pub fn session_create_primary(id: &str, dest: &str, opts: &str) -> (cmd: String)
    ensures
        cmd@ == "SESSION CREATE STYLE=PRIMARY ID="@ + id@ + " DESTINATION="@ + dest@
            + " SIGNATURE_TYPE=7"@ + opts_suffix(opts@) + "\n"@,
{
    let mut s = "SESSION CREATE STYLE=PRIMARY ID=".to_owned();
    s.append(id);
    s.append(" DESTINATION=");
    s.append(dest);
    s.append(" SIGNATURE_TYPE=7");
    append_opts(&mut s, opts);
    s.append("\n");
    s
}

/// `SESSION ADD STYLE=STREAM ID={id}`
pub fn session_add_stream(id: &str) -> (cmd: String)
    ensures
        cmd@ == "SESSION ADD STYLE=STREAM ID="@ + id@ + "\n"@,
{
    let mut s = "SESSION ADD STYLE=STREAM ID=".to_owned();
    s.append(id);
    s.append("\n");
    s
}

/// `SESSION ADD STYLE=DATAGRAM ID={id} PORT={udp_port}`
pub fn session_add_datagram(id: &str, udp_port: u16) -> (cmd: String)
    ensures
        cmd@ == "SESSION ADD STYLE=DATAGRAM ID="@ + id@ + " PORT="@ + decimal(udp_port as nat)
            + "\n"@,
{
    let mut s = "SESSION ADD STYLE=DATAGRAM ID=".to_owned();
    s.append(id);
    s.append(" PORT=");
    push_decimal(&mut s, udp_port as u64);
    s.append("\n");
    s
}

/// `SESSION ADD STYLE=RAW ID={id} PORT={udp_port}`
pub fn session_add_raw(id: &str, udp_port: u16) -> (cmd: String)
    ensures
        cmd@ == "SESSION ADD STYLE=RAW ID="@ + id@ + " PORT="@ + decimal(udp_port as nat)
            + "\n"@,
{
    let mut s = "SESSION ADD STYLE=RAW ID=".to_owned();
    s.append(id);
    s.append(" PORT=");
    push_decimal(&mut s, udp_port as u64);
    s.append("\n");
    s
}

/// `SESSION REMOVE ID={id}`
pub fn session_remove(id: &str) -> (cmd: String)
    ensures
        cmd@ == "SESSION REMOVE ID="@ + id@ + "\n"@,
{
    let mut s = "SESSION REMOVE ID=".to_owned();
    s.append(id);
    s.append("\n");
    s
}

/// ` {name}={port}` when the port is not zero.
pub open spec fn port_part(name: Seq<char>, port: u16) -> Seq<char> {
    if port != 0 {
        " "@ + name + "="@ + decimal(port as nat)
    } else {
        Seq::empty()
    }
}

/// `STREAM CONNECT ID={id} DESTINATION={dest} SILENT={silent} [FROM_PORT={from}] [TO_PORT={to}]`
pub fn stream_connect(id: &str, dest: &str, silent: bool, from_port: u16, to_port: u16) -> (cmd:
    String)
    ensures
        cmd@ == "STREAM CONNECT ID="@ + id@ + " DESTINATION="@ + dest@ + " SILENT="@ + bool_text(
            silent,
        ) + port_part("FROM_PORT"@, from_port) + port_part("TO_PORT"@, to_port) + "\n"@,
{
    let mut s = "STREAM CONNECT ID=".to_owned();
    s.append(id);
    s.append(" DESTINATION=");
    s.append(dest);
    s.append(" SILENT=");
    append_bool(&mut s, silent);
    let ghost before_from = s@;
    if from_port != 0 {
        s.append(" ");
        s.append("FROM_PORT");
        s.append("=");
        push_decimal(&mut s, from_port as u64);
    }
    assert(s@ =~= before_from + port_part("FROM_PORT"@, from_port));
    let ghost before_to = s@;
    if to_port != 0 {
        s.append(" ");
        s.append("TO_PORT");
        s.append("=");
        push_decimal(&mut s, to_port as u64);
    }
    assert(s@ =~= before_to + port_part("TO_PORT"@, to_port));
    s.append("\n");
    s
}

/// `STREAM ACCEPT ID={id} SILENT={silent}`
pub fn stream_accept(id: &str, silent: bool) -> (cmd: String)
    ensures
        cmd@ == "STREAM ACCEPT ID="@ + id@ + " SILENT="@ + bool_text(silent) + "\n"@,
{
    let mut s = "STREAM ACCEPT ID=".to_owned();
    s.append(id);
    s.append(" SILENT=");
    append_bool(&mut s, silent);
    s.append("\n");
    s
}

/// ` HOST={host}` when a host is given.
pub open spec fn host_part(host: Option<Seq<char>>) -> Seq<char> {
    match host {
        Some(h) => " HOST="@ + h,
        None => Seq::empty(),
    }
}

/// `STREAM FORWARD ID={id} PORT={port} SILENT={silent} [HOST={host}]`
pub fn stream_forward(id: &str, port: u16, host: Option<&str>, silent: bool) -> (cmd: String)
    ensures
        cmd@ == "STREAM FORWARD ID="@ + id@ + " PORT="@ + decimal(port as nat) + " SILENT="@
            + bool_text(silent) + host_part(
            match host {
                Some(h) => Some(h@),
                None => None,
            },
        ) + "\n"@,
{
    let mut s = "STREAM FORWARD ID=".to_owned();
    s.append(id);
    s.append(" PORT=");
    push_decimal(&mut s, port as u64);
    s.append(" SILENT=");
    append_bool(&mut s, silent);
    let ghost before_host = s@;
    match host {
        Some(h) => {
            s.append(" HOST=");
            s.append(h);
        },
        None => {},
    }
    assert(s@ =~= before_host + host_part(
        match host {
            Some(h) => Some(h@),
            None => None,
        },
    ));
    s.append("\n");
    s
}

/// `NAMING LOOKUP NAME={name}`
pub fn naming_lookup(name: &str) -> (cmd: String)
    ensures
        cmd@ == "NAMING LOOKUP NAME="@ + name@ + "\n"@,
{
    let mut s = "NAMING LOOKUP NAME=".to_owned();
    s.append(name);
    s.append("\n");
    s
}

/// `PING{payload}`
pub fn ping(payload: &str) -> (cmd: String)
    ensures
        cmd@ == "PING"@ + payload@ + "\n"@,
{
    let mut s = "PING".to_owned();
    s.append(payload);
    s.append("\n");
    s
}

/// The header of a datagram sent through the bridge: `3.1 {id} {dest}`.
pub fn datagram_header(id: &str, dest: &str) -> (h: String)
    ensures
        h@ == "3.1 "@ + id@ + " "@ + dest@ + "\n"@,
{
    let mut s = "3.1 ".to_owned();
    s.append(id);
    s.append(" ");
    s.append(dest);
    s.append("\n");
    s
}

/// The header of a raw packet sent through the bridge: `3.0 {id} {dest}`.
pub fn raw_header(id: &str, dest: &str) -> (h: String)
    ensures
        h@ == "3.0 "@ + id@ + " "@ + dest@ + "\n"@,
{
    let mut s = "3.0 ".to_owned();
    s.append(id);
    s.append(" ");
    s.append(dest);
    s.append("\n");
    s
}

} // verus!
