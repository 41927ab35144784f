//! Parsing the connection-listing tools' output.
//!
//! Each supported platform has one tool whose tabular text is parsed here
//! into uniform connection records: header lines are skipped, IPv4
//! (`ip:port`), bracketed IPv6 (`[ip]:port`) and wildcard (`*:port`)
//! addresses are tolerated, the owning PID is read out of free text where
//! the tool embeds it, and a PID of zero counts as "no owner known".  A row
//! that fails to parse is skipped; a single malformed line never aborts a
//! scan.  Invoking the tools is the caller's business: these functions see
//! only their text.

use vstd::prelude::*;

use crate::strutil::{
    ci_eq,
    digits_end,
    eq_ignore_case,
    lemma_find_sub_from_props,
    find_char,
    find_from,
    lemma_find_from_props,
    lemma_rfind_from_props,
    parse_u16,
    parse_u16_spec,
    parse_u32,
    parse_u32_spec,
    rfind_char,
    rfind_spec,
    split_lines,
    split_ws,
    str_eq,
    string_of,
    lines_spec,
    ws_tokens,
};

verus! {

/// One connection row, as a tool reported it.
#[derive(Debug, Clone)]
pub struct NetConnection {
    /// `TCP` or `UDP`.
    pub protocol: String,
    /// The local address without the port.
    pub local_addr: String,
    /// The local port, 1 through 65535.
    pub local_port: u16,
    /// The remote peer's address, for established TCP connections.
    pub remote_addr: Option<String>,
    /// The remote peer's port.
    pub remote_port: Option<u16>,
    /// The socket state as the tool printed it.
    pub state: String,
    /// The owning process, where the tool exposed one.
    pub pid: Option<u32>,
}

/// The mathematical content of a [`NetConnection`].
pub struct ConnView {
    pub protocol: Seq<char>,
    pub local_addr: Seq<char>,
    pub local_port: u16,
    pub remote_addr: Option<Seq<char>>,
    pub remote_port: Option<u16>,
    pub state: Seq<char>,
    pub pid: Option<u32>,
}

/// The view of an optional string.
pub open spec fn opt_str_view(o: Option<String>) -> Option<Seq<char>> {
    match o {
        Some(s) => Some(s@),
        None => None,
    }
}

impl View for NetConnection {
    type V = ConnView;

    open spec fn view(&self) -> ConnView {
        ConnView {
            protocol: self.protocol@,
            local_addr: self.local_addr@,
            local_port: self.local_port,
            remote_addr: opt_str_view(self.remote_addr),
            remote_port: self.remote_port,
            state: self.state@,
            pid: self.pid,
        }
    }
}

/// What parsing an `ip:port` or `[ip]:port` address yields: for a bracketed
/// address, the text between the brackets and the port after the colon that
/// follows them; otherwise the text before the last colon and the port
/// after it.  Absent whenever the port part is not a decimal `u16`.
pub open spec fn parse_address_spec(s: Seq<char>) -> Option<(Seq<char>, u16)> {
    if s.len() > 0 && s[0] == '[' {
        match find_from(s, ']', 0) {
            Some(b) => {
                if b + 1 < s.len() && s[b + 1] == ':' {
                    match parse_u16_spec(s.subrange(b + 2, s.len() as int)) {
                        Some(p) => Some((s.subrange(1, b), p)),
                        None => None,
                    }
                } else {
                    None
                }
            },
            None => None,
        }
    } else {
        match rfind_spec(s, ':') {
            Some(i) => match parse_u16_spec(s.subrange(i + 1, s.len() as int)) {
                Some(p) => Some((s.subrange(0, i), p)),
                None => None,
            },
            None => None,
        }
    }
}

/// Parse an address in `ip:port`, `[ip]:port` or `*:port` form.
pub fn parse_address(addr: &str) -> (r: Option<(String, u16)>)
    ensures
        match r {
            Some(t) => parse_address_spec(addr@) == Some((t.0@, t.1)),
            None => parse_address_spec(addr@) is None,
        },
{
    let n = addr.unicode_len();
    if n > 0 && addr.get_char(0) == '[' {
        match find_char(addr, ']') {
            Some(b) => {
                proof {
                    lemma_find_from_props(addr@, ']', 0);
                }
                if b + 1 < n && addr.get_char(b + 1) == ':' {
                    let port_part = addr.substring_char(b + 2, n);
                    match parse_u16(port_part) {
                        Some(p) => {
                            let ip = addr.substring_char(1, b);
                            Some((string_of(ip), p))
                        },
                        None => None,
                    }
                } else {
                    None
                }
            },
            None => None,
        }
    } else {
        match rfind_char(addr, ':') {
            Some(i) => {
                proof {
                    lemma_rfind_from_props(addr@, ':', n as int);
                }
                let port_part = addr.substring_char(i + 1, n);
                match parse_u16(port_part) {
                    Some(p) => {
                        let ip = addr.substring_char(0, i);
                        Some((string_of(ip), p))
                    },
                    None => None,
                }
            },
            None => None,
        }
    }
}

/// Leading `[` runs and trailing `]` runs removed.
pub open spec fn strip_brackets(s: Seq<char>) -> Seq<char> {
    crate::strutil::strip_ends_spec(s, '[', ']')
}

/// What parsing the kernel socket tool's address column yields: the text
/// before the last colon (brackets stripped) and the decimal port after it.
pub open spec fn parse_linux_address_spec(s: Seq<char>) -> Option<(Seq<char>, u16)> {
    match rfind_spec(s, ':') {
        Some(i) => match parse_u16_spec(s.subrange(i + 1, s.len() as int)) {
            Some(p) => Some((strip_brackets(s.subrange(0, i)), p)),
            None => None,
        },
        None => None,
    }
}

/// Parse an address as the kernel socket tool prints it: `*:port`,
/// `0.0.0.0:port`, `[::]:port` or `:::port`.
pub fn parse_linux_address(addr: &str) -> (r: Option<(String, u16)>)
    ensures
        match r {
            Some(t) => parse_linux_address_spec(addr@) == Some((t.0@, t.1)),
            None => parse_linux_address_spec(addr@) is None,
        },
{
    let n = addr.unicode_len();
    match rfind_char(addr, ':') {
        Some(i) => {
            proof {
                lemma_rfind_from_props(addr@, ':', n as int);
            }
            let port_part = addr.substring_char(i + 1, n);
            match parse_u16(port_part) {
                Some(p) => {
                    let ip_part = addr.substring_char(0, i);
                    let ip = crate::strutil::strip_ends(ip_part, '[', ']');
                    Some((string_of(ip), p))
                },
                None => None,
            }
        },
        None => None,
    }
}

/// What extracting the owner PID out of the process column yields: the
/// digit run after the first `pid=`, read as a decimal `u32`.
pub open spec fn extract_pid_spec(s: Seq<char>) -> Option<u32> {
    match crate::strutil::find_sub_from(s, "pid="@, 0) {
        Some(i) => {
            let rest = s.subrange(i + 4, s.len() as int);
            parse_u32_spec(rest.subrange(0, digits_end(rest, 0)))
        },
        None => None,
    }
}

/// Extract the owner PID out of free text of the form
/// `users:(("name",pid=1234,fd=5))`.
pub fn extract_pid_from_ss(users_str: &str) -> (r: Option<u32>)
    ensures
        r == extract_pid_spec(users_str@),
{
    let n = users_str.unicode_len();
    match crate::strutil::find_sub(users_str, "pid=") {
        Some(i) => {
            proof {
                reveal_strlit("pid=");
                lemma_find_sub_from_props(users_str@, "pid="@, 0);
                assert(i + 4 <= n);
            }
            let ghost rest = users_str@.subrange(i + 4, n as int);
            let mut e: usize = i + 4;
            while e < n && crate::strutil::is_ascii_digit(users_str.get_char(e))
                invariant
                    n == users_str@.len(),
                    i + 4 <= e <= n,
                    rest == users_str@.subrange(i + 4, n as int),
                    digits_end(rest, 0) == digits_end(rest, e - (i + 4) as int),
                decreases n - e,
            {
                e = e + 1;
            }
            proof {
                assert(digits_end(rest, e - (i + 4) as int) == e - (i + 4) as int);
                assert(rest.subrange(0, e - (i + 4) as int) =~= users_str@.subrange(
                    i + 4,
                    e as int,
                ));
            }
            let digits = users_str.substring_char(i + 4, e);
            parse_u32(digits)
        },
        None => None,
    }
}

/// What extracting the port out of the file-listing tool's name column
/// yields: the digit run after the last colon, read as a decimal `u16`.
pub open spec fn extract_port_spec(s: Seq<char>) -> Option<u16> {
    match rfind_spec(s, ':') {
        Some(i) => {
            let rest = s.subrange(i + 1, s.len() as int);
            parse_u16_spec(rest.subrange(0, digits_end(rest, 0)))
        },
        None => None,
    }
}

/// Extract the port out of a name column such as `*:3000` or
/// `localhost:3000 (LISTEN)`.
pub fn extract_port_from_lsof(name_part: &str) -> (r: Option<u16>)
    ensures
        r == extract_port_spec(name_part@),
{
    let n = name_part.unicode_len();
    match rfind_char(name_part, ':') {
        Some(i) => {
            proof {
                lemma_rfind_from_props(name_part@, ':', n as int);
            }
            let ghost rest = name_part@.subrange(i + 1, n as int);
            let mut e: usize = i + 1;
            while e < n && crate::strutil::is_ascii_digit(name_part.get_char(e))
                invariant
                    n == name_part@.len(),
                    i + 1 <= e <= n,
                    rest == name_part@.subrange(i + 1, n as int),
                    digits_end(rest, 0) == digits_end(rest, e - (i + 1) as int),
                decreases n - e,
            {
                e = e + 1;
            }
            proof {
                assert(digits_end(rest, e - (i + 1) as int) == e - (i + 1) as int);
                assert(rest.subrange(0, e - (i + 1) as int) =~= name_part@.subrange(
                    i + 1,
                    e as int,
                ));
            }
            let digits = name_part.substring_char(i + 1, e);
            parse_u16(digits)
        },
        None => None,
    }
}

/// A reported owner PID, with zero meaning "no owner known".
pub open spec fn norm_pid(p: Option<u32>) -> Option<u32> {
    match p {
        Some(x) => if x > 0 {
            Some(x)
        } else {
            None
        },
        None => None,
    }
}

/// What one row of the kernel socket tool yields: at least five columns,
/// the address column (fourth for TCP, fifth for UDP) must parse, the port
/// must be nonzero, and the owner PID is read from the last column.
pub open spec fn parse_ss_line_spec(line: Seq<char>, udp: bool) -> Option<ConnView> {
    let parts = ws_tokens(line);
    if parts.len() >= 5 {
        let addr_col = if udp {
            parts[4]
        } else {
            parts[3]
        };
        match parse_linux_address_spec(addr_col) {
            Some(t) => if t.1 >= 1 {
                Some(
                    ConnView {
                        protocol: if udp {
                            "UDP"@
                        } else {
                            "TCP"@
                        },
                        local_addr: t.0,
                        local_port: t.1,
                        remote_addr: None,
                        remote_port: None,
                        state: if udp {
                            "*"@
                        } else {
                            parts[0]
                        },
                        pid: norm_pid(extract_pid_spec(parts[parts.len() - 1])),
                    },
                )
            } else {
                None
            },
            None => None,
        }
    } else {
        None
    }
}

/// Parse one data row of the kernel socket tool.
pub fn parse_ss_line(line: &str, udp: bool) -> (r: Option<NetConnection>)
    ensures
        match r {
            Some(c) => parse_ss_line_spec(line@, udp) == Some(c@),
            None => parse_ss_line_spec(line@, udp) is None,
        },
{
    let parts = split_ws(line);
    if parts.len() >= 5 {
        let addr_col: &String = if udp {
            &parts[4]
        } else {
            &parts[3]
        };
        match parse_linux_address(addr_col.as_str()) {
            Some((ip, port)) => {
                if port >= 1 {
                    let pid_raw = extract_pid_from_ss(parts[parts.len() - 1].as_str());
                    let pid = match pid_raw {
                        Some(x) => if x > 0 {
                            Some(x)
                        } else {
                            None
                        },
                        None => None,
                    };
                    let state = if udp {
                        string_of("*")
                    } else {
                        string_of(parts[0].as_str())
                    };
                    Some(
                        NetConnection {
                            protocol: if udp {
                                string_of("UDP")
                            } else {
                                string_of("TCP")
                            },
                            local_addr: ip,
                            local_port: port,
                            remote_addr: None,
                            remote_port: None,
                            state,
                            pid,
                        },
                    )
                } else {
                    None
                }
            },
            None => None,
        }
    } else {
        None
    }
}

/// The connections in the rows of `ls` from `i` on, parsed best-effort.
pub open spec fn ss_conns_from(ls: Seq<Seq<char>>, udp: bool, i: int) -> Seq<ConnView>
    decreases ls.len() - i,
{
    if i < 0 || i >= ls.len() {
        Seq::empty()
    } else {
        let rest = ss_conns_from(ls, udp, i + 1);
        match parse_ss_line_spec(ls[i], udp) {
            Some(c) => seq![c] + rest,
            None => rest,
        }
    }
}

/// The connections in one run of the kernel socket tool: the header line is
/// skipped, every following row parsed best-effort.
pub open spec fn ss_output_conns(out: Seq<char>, udp: bool) -> Seq<ConnView> {
    ss_conns_from(lines_spec(out), udp, 1)
}

fn parse_ss_run(output: &str, udp: bool) -> (r: Vec<NetConnection>)
    ensures
        r@.map_values(|c: NetConnection| c@) == ss_output_conns(output@, udp),
{
    let lines = split_lines(output);
    let n = lines.len();
    let mut out: Vec<NetConnection> = Vec::new();
    let mut i: usize = 1;
    while i < n
        invariant
            n == lines@.len(),
            lines.deep_view() == lines_spec(output@),
            1 <= i <= n || (n == 0 && i == 1),
            out@.map_values(|c: NetConnection| c@) + ss_conns_from(lines.deep_view(), udp, i as int)
                == ss_output_conns(output@, udp),
        decreases n - i,
    {
        match parse_ss_line(lines[i].as_str(), udp) {
            Some(c) => {
                out.push(c);
                proof {
                    assert(out@.map_values(|c: NetConnection| c@) + ss_conns_from(
                        lines.deep_view(),
                        udp,
                        i as int + 1,
                    ) =~= ss_output_conns(output@, udp));
                }
            },
            None => {},
        }
        i = i + 1;
    }
    proof {
        assert(out@.map_values(|c: NetConnection| c@) =~= ss_output_conns(output@, udp));
    }
    out
}

/// Parse the kernel socket tool's two runs (TCP listeners, then UDP
/// sockets) into connection records.
pub fn parse_ss_output(tcp_output: &str, udp_output: &str) -> (r: Vec<NetConnection>)
    ensures
        r@.map_values(|c: NetConnection| c@) == ss_output_conns(tcp_output@, false)
            + ss_output_conns(udp_output@, true),
{
    let mut out = parse_ss_run(tcp_output, false);
    let mut more = parse_ss_run(udp_output, true);
    out.append(&mut more);
    proof {
        assert(out@.map_values(|c: NetConnection| c@) =~= ss_output_conns(tcp_output@, false)
            + ss_output_conns(udp_output@, true));
    }
    out
}

/// What one row of the connection-listing utility's main run yields: the
/// first column must name TCP or UDP in any case, the second column's
/// address must parse with a nonzero port, only listening TCP rows and UDP
/// rows are kept, the remote address is read for TCP, and the last column
/// holds the owner PID.
pub open spec fn parse_netstat_line_spec(line: Seq<char>) -> Option<ConnView> {
    let parts = ws_tokens(line);
    if parts.len() >= 5 {
        let is_tcp = ci_eq(parts[0], "TCP"@);
        let is_udp = ci_eq(parts[0], "UDP"@);
        if !is_tcp && !is_udp {
            None
        } else {
            match parse_address_spec(parts[1]) {
                Some(t) => if t.1 >= 1 {
                    let state = if is_tcp {
                        parts[3]
                    } else {
                        "LISTENING"@
                    };
                    if state == "LISTENING"@ || is_udp {
                        let rem = if is_tcp {
                            parse_address_spec(parts[2])
                        } else {
                            None
                        };
                        Some(
                            ConnView {
                                protocol: if is_tcp {
                                    "TCP"@
                                } else {
                                    "UDP"@
                                },
                                local_addr: t.0,
                                local_port: t.1,
                                remote_addr: match rem {
                                    Some(rt) => Some(rt.0),
                                    None => None,
                                },
                                remote_port: match rem {
                                    Some(rt) => Some(rt.1),
                                    None => None,
                                },
                                state,
                                pid: norm_pid(parse_u32_spec(parts[parts.len() - 1])),
                            },
                        )
                    } else {
                        None
                    }
                } else {
                    None
                },
                None => None,
            }
        }
    } else {
        None
    }
}

/// Parse one data row of the connection-listing utility's main run.
pub fn parse_netstat_line(line: &str) -> (r: Option<NetConnection>)
    ensures
        match r {
            Some(c) => parse_netstat_line_spec(line@) == Some(c@),
            None => parse_netstat_line_spec(line@) is None,
        },
{
    let parts = split_ws(line);
    if parts.len() >= 5 {
        let is_tcp = eq_ignore_case(parts[0].as_str(), "TCP");
        let is_udp = eq_ignore_case(parts[0].as_str(), "UDP");
        if !is_tcp && !is_udp {
            return None;
        }
        match parse_address(parts[1].as_str()) {
            Some((ip, port)) => {
                if port >= 1 {
                    let state = if is_tcp {
                        string_of(parts[3].as_str())
                    } else {
                        string_of("LISTENING")
                    };
                    if str_eq(state.as_str(), "LISTENING") || is_udp {
                        let (remote_addr, remote_port) = if is_tcp {
                            match parse_address(parts[2].as_str()) {
                                Some((ra, rp)) => (Some(ra), Some(rp)),
                                None => (None, None),
                            }
                        } else {
                            (None, None)
                        };
                        let pid = match parse_u32(parts[parts.len() - 1].as_str()) {
                            Some(x) => if x > 0 {
                                Some(x)
                            } else {
                                None
                            },
                            None => None,
                        };
                        Some(
                            NetConnection {
                                protocol: if is_tcp {
                                    string_of("TCP")
                                } else {
                                    string_of("UDP")
                                },
                                local_addr: ip,
                                local_port: port,
                                remote_addr,
                                remote_port,
                                state,
                                pid,
                            },
                        )
                    } else {
                        None
                    }
                } else {
                    None
                }
            },
            None => None,
        }
    } else {
        None
    }
}

/// What one row of the connection-listing utility's UDP run yields.
pub open spec fn parse_netstat_udp_line_spec(line: Seq<char>) -> Option<ConnView> {
    let parts = ws_tokens(line);
    if parts.len() >= 2 {
        match parse_address_spec(parts[1]) {
            Some(t) => if t.1 >= 1 {
                Some(
                    ConnView {
                        protocol: "UDP"@,
                        local_addr: t.0,
                        local_port: t.1,
                        remote_addr: None,
                        remote_port: None,
                        state: "*"@,
                        pid: norm_pid(parse_u32_spec(parts[parts.len() - 1])),
                    },
                )
            } else {
                None
            },
            None => None,
        }
    } else {
        None
    }
}

/// Parse one data row of the connection-listing utility's UDP run.
pub fn parse_netstat_udp_line(line: &str) -> (r: Option<NetConnection>)
    ensures
        match r {
            Some(c) => parse_netstat_udp_line_spec(line@) == Some(c@),
            None => parse_netstat_udp_line_spec(line@) is None,
        },
{
    let parts = split_ws(line);
    if parts.len() >= 2 {
        match parse_address(parts[1].as_str()) {
            Some((ip, port)) => {
                if port >= 1 {
                    let pid = match parse_u32(parts[parts.len() - 1].as_str()) {
                        Some(x) => if x > 0 {
                            Some(x)
                        } else {
                            None
                        },
                        None => None,
                    };
                    Some(
                        NetConnection {
                            protocol: string_of("UDP"),
                            local_addr: ip,
                            local_port: port,
                            remote_addr: None,
                            remote_port: None,
                            state: string_of("*"),
                            pid,
                        },
                    )
                } else {
                    None
                }
            },
            None => None,
        }
    } else {
        None
    }
}

/// The connections in the main-run rows of `ls` from `i` on.
pub open spec fn netstat_conns_from(ls: Seq<Seq<char>>, i: int) -> Seq<ConnView>
    decreases ls.len() - i,
{
    if i < 0 || i >= ls.len() {
        Seq::empty()
    } else {
        let rest = netstat_conns_from(ls, i + 1);
        match parse_netstat_line_spec(ls[i]) {
            Some(c) => seq![c] + rest,
            None => rest,
        }
    }
}

/// The connections in the UDP-run rows of `ls` from `i` on.
pub open spec fn netstat_udp_conns_from(ls: Seq<Seq<char>>, i: int) -> Seq<ConnView>
    decreases ls.len() - i,
{
    if i < 0 || i >= ls.len() {
        Seq::empty()
    } else {
        let rest = netstat_udp_conns_from(ls, i + 1);
        match parse_netstat_udp_line_spec(ls[i]) {
            Some(c) => seq![c] + rest,
            None => rest,
        }
    }
}

/// The connections in the connection-listing utility's two runs: four
/// header lines skipped in each.
pub open spec fn netstat_output_conns(tcp_out: Seq<char>, udp_out: Seq<char>) -> Seq<ConnView> {
    netstat_conns_from(lines_spec(tcp_out), 4) + netstat_udp_conns_from(lines_spec(udp_out), 4)
}

/// Parse the connection-listing utility's two runs (TCP with states, then
/// UDP) into connection records.
pub fn parse_netstat_output(tcp_output: &str, udp_output: &str) -> (r: Vec<NetConnection>)
    ensures
        r@.map_values(|c: NetConnection| c@) == netstat_output_conns(tcp_output@, udp_output@),
{
    let lines = split_lines(tcp_output);
    let n = lines.len();
    let mut out: Vec<NetConnection> = Vec::new();
    let mut i: usize = 4;
    while i < n
        invariant
            n == lines@.len(),
            lines.deep_view() == lines_spec(tcp_output@),
            4 <= i,
            i <= n || i == 4,
            out@.map_values(|c: NetConnection| c@) + netstat_conns_from(
                lines.deep_view(),
                i as int,
            ) == netstat_conns_from(lines.deep_view(), 4),
        decreases n - i,
    {
        match parse_netstat_line(lines[i].as_str()) {
            Some(c) => {
                out.push(c);
                proof {
                    assert(out@.map_values(|c: NetConnection| c@) + netstat_conns_from(
                        lines.deep_view(),
                        i as int + 1,
                    ) =~= netstat_conns_from(lines.deep_view(), 4));
                }
            },
            None => {},
        }
        i = i + 1;
    }
    let udp_lines = split_lines(udp_output);
    let m = udp_lines.len();
    let mut j: usize = 4;
    while j < m
        invariant
            m == udp_lines@.len(),
            udp_lines.deep_view() == lines_spec(udp_output@),
            lines.deep_view() == lines_spec(tcp_output@),
            4 <= j,
            j <= m || j == 4,
            out@.map_values(|c: NetConnection| c@) + netstat_udp_conns_from(
                udp_lines.deep_view(),
                j as int,
            ) == netstat_conns_from(lines.deep_view(), 4) + netstat_udp_conns_from(
                udp_lines.deep_view(),
                4,
            ),
        decreases m - j,
    {
        match parse_netstat_udp_line(udp_lines[j].as_str()) {
            Some(c) => {
                out.push(c);
                proof {
                    assert(out@.map_values(|c: NetConnection| c@) + netstat_udp_conns_from(
                        udp_lines.deep_view(),
                        j as int + 1,
                    ) =~= netstat_conns_from(lines.deep_view(), 4) + netstat_udp_conns_from(
                        udp_lines.deep_view(),
                        4,
                    ));
                }
            },
            None => {},
        }
        j = j + 1;
    }
    proof {
        assert(out@.map_values(|c: NetConnection| c@) =~= netstat_output_conns(
            tcp_output@,
            udp_output@,
        ));
    }
    out
}

/// What one row of the file-listing tool yields: at least nine columns, a
/// nonzero port read from the name column, and the owner PID from the
/// second column.
pub open spec fn parse_lsof_line_spec(line: Seq<char>, udp: bool) -> Option<ConnView> {
    let parts = ws_tokens(line);
    if parts.len() >= 9 {
        match extract_port_spec(parts[8]) {
            Some(p) => if p >= 1 {
                Some(
                    ConnView {
                        protocol: if udp {
                            "UDP"@
                        } else {
                            "TCP"@
                        },
                        local_addr: "*"@,
                        local_port: p,
                        remote_addr: None,
                        remote_port: None,
                        state: if udp {
                            "*"@
                        } else {
                            "LISTEN"@
                        },
                        pid: norm_pid(parse_u32_spec(parts[1])),
                    },
                )
            } else {
                None
            },
            None => None,
        }
    } else {
        None
    }
}

/// Parse one data row of the file-listing tool.
pub fn parse_lsof_line(line: &str, udp: bool) -> (r: Option<NetConnection>)
    ensures
        match r {
            Some(c) => parse_lsof_line_spec(line@, udp) == Some(c@),
            None => parse_lsof_line_spec(line@, udp) is None,
        },
{
    let parts = split_ws(line);
    if parts.len() >= 9 {
        match extract_port_from_lsof(parts[8].as_str()) {
            Some(p) => {
                if p >= 1 {
                    let pid = match parse_u32(parts[1].as_str()) {
                        Some(x) => if x > 0 {
                            Some(x)
                        } else {
                            None
                        },
                        None => None,
                    };
                    Some(
                        NetConnection {
                            protocol: if udp {
                                string_of("UDP")
                            } else {
                                string_of("TCP")
                            },
                            local_addr: string_of("*"),
                            local_port: p,
                            remote_addr: None,
                            remote_port: None,
                            state: if udp {
                                string_of("*")
                            } else {
                                string_of("LISTEN")
                            },
                            pid,
                        },
                    )
                } else {
                    None
                }
            },
            None => None,
        }
    } else {
        None
    }
}

/// The connections in the file-listing tool's rows of `ls` from `i` on.
pub open spec fn lsof_conns_from(ls: Seq<Seq<char>>, udp: bool, i: int) -> Seq<ConnView>
    decreases ls.len() - i,
{
    if i < 0 || i >= ls.len() {
        Seq::empty()
    } else {
        let rest = lsof_conns_from(ls, udp, i + 1);
        match parse_lsof_line_spec(ls[i], udp) {
            Some(c) => seq![c] + rest,
            None => rest,
        }
    }
}

/// The connections in one run of the file-listing tool: header line
/// skipped.
pub open spec fn lsof_output_conns(out: Seq<char>, udp: bool) -> Seq<ConnView> {
    lsof_conns_from(lines_spec(out), udp, 1)
}

fn parse_lsof_run(output: &str, udp: bool) -> (r: Vec<NetConnection>)
    ensures
        r@.map_values(|c: NetConnection| c@) == lsof_output_conns(output@, udp),
{
    let lines = split_lines(output);
    let n = lines.len();
    let mut out: Vec<NetConnection> = Vec::new();
    let mut i: usize = 1;
    while i < n
        invariant
            n == lines@.len(),
            lines.deep_view() == lines_spec(output@),
            1 <= i,
            i <= n || i == 1,
            out@.map_values(|c: NetConnection| c@) + lsof_conns_from(
                lines.deep_view(),
                udp,
                i as int,
            ) == lsof_output_conns(output@, udp),
        decreases n - i,
    {
        match parse_lsof_line(lines[i].as_str(), udp) {
            Some(c) => {
                out.push(c);
                proof {
                    assert(out@.map_values(|c: NetConnection| c@) + lsof_conns_from(
                        lines.deep_view(),
                        udp,
                        i as int + 1,
                    ) =~= lsof_output_conns(output@, udp));
                }
            },
            None => {},
        }
        i = i + 1;
    }
    proof {
        assert(out@.map_values(|c: NetConnection| c@) =~= lsof_output_conns(output@, udp));
    }
    out
}

/// Parse the file-listing tool's two runs (TCP listeners, then UDP
/// sockets) into connection records.
pub fn parse_lsof_output(tcp_output: &str, udp_output: &str) -> (r: Vec<NetConnection>)
    ensures
        r@.map_values(|c: NetConnection| c@) == lsof_output_conns(tcp_output@, false)
            + lsof_output_conns(udp_output@, true),
{
    let mut out = parse_lsof_run(tcp_output, false);
    let mut more = parse_lsof_run(udp_output, true);
    out.append(&mut more);
    proof {
        assert(out@.map_values(|c: NetConnection| c@) =~= lsof_output_conns(tcp_output@, false)
            + lsof_output_conns(udp_output@, true));
    }
    out
}

} // verus!
