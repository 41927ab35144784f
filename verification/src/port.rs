//! The canonical port-to-process data model.
//!
//! Connection records are merged with a snapshot of the process table into
//! [`PortInfo`] values: enriched with process data, sorted ascending by
//! port, and reduced to one entry per port.  The walks over the process
//! table (one parent hop for enrichment, the bounded ancestor chain, the
//! children scan) are all defined here over a table handed in as plain
//! values; reading the live table is the caller's business.

use vstd::prelude::*;

use crate::net::{opt_str_view, ConnView, NetConnection};
use crate::strutil::dec_str;

verus! {

/// One row of a process-table snapshot.
#[derive(Debug, Clone)]
pub struct ProcessEntry {
    /// Process id.
    pub pid: u32,
    /// Process name.
    pub name: String,
    /// Executable path, if resolvable.
    pub path: Option<String>,
    /// Owning user, if known.
    pub user: Option<String>,
    /// Resident memory in bytes.
    pub memory_bytes: u64,
    /// CPU usage in hundredths of a percent.
    pub cpu_centi_percent: u32,
    /// Process uptime in seconds.
    pub uptime_secs: u64,
    /// Parent process id, if the system exposes one.
    pub parent_pid: Option<u32>,
}

/// The mathematical content of a [`ProcessEntry`].
pub struct ProcessEntryView {
    pub pid: u32,
    pub name: Seq<char>,
    pub path: Option<Seq<char>>,
    pub user: Option<Seq<char>>,
    pub memory_bytes: u64,
    pub cpu_centi_percent: u32,
    pub uptime_secs: u64,
    pub parent_pid: Option<u32>,
}

impl View for ProcessEntry {
    type V = ProcessEntryView;

    open spec fn view(&self) -> ProcessEntryView {
        ProcessEntryView {
            pid: self.pid,
            name: self.name@,
            path: opt_str_view(self.path),
            user: opt_str_view(self.user),
            memory_bytes: self.memory_bytes,
            cpu_centi_percent: self.cpu_centi_percent,
            uptime_secs: self.uptime_secs,
            parent_pid: self.parent_pid,
        }
    }
}

/// A point-in-time snapshot of the process table.
#[derive(Debug, Clone)]
pub struct ProcessTable {
    /// The table rows.
    pub entries: Vec<ProcessEntry>,
}

impl View for ProcessTable {
    type V = Seq<ProcessEntryView>;

    open spec fn view(&self) -> Seq<ProcessEntryView> {
        Seq::new(self.entries@.len(), |i: int| self.entries@[i]@)
    }
}

/// The first table row with the given pid, from `i` on.
pub open spec fn table_find(t: Seq<ProcessEntryView>, pid: u32, i: int) -> Option<
    ProcessEntryView,
>
    decreases t.len() - i,
{
    if i < 0 || i >= t.len() {
        None
    } else if t[i].pid == pid {
        Some(t[i])
    } else {
        table_find(t, pid, i + 1)
    }
}

impl ProcessTable {
    /// An empty snapshot.
    pub fn new() -> (r: ProcessTable)
        ensures
            r@.len() == 0,
    {
        ProcessTable { entries: Vec::new() }
    }

    /// Look a process up by pid.
    pub fn find(&self, pid: u32) -> (r: Option<&ProcessEntry>)
        ensures
            match r {
                Some(e) => table_find(self@, pid, 0) == Some(e@),
                None => table_find(self@, pid, 0) is None,
            },
    {
        let n = self.entries.len();
        let mut i: usize = 0;
        while i < n
            invariant
                n == self.entries@.len(),
                n == self@.len(),
                0 <= i <= n,
                forall|j: int| 0 <= j < n ==> self@[j] == self.entries@[j]@,
                table_find(self@, pid, 0) == table_find(self@, pid, i as int),
            decreases n - i,
        {
            if self.entries[i].pid == pid {
                return Some(&self.entries[i]);
            }
            i = i + 1;
        }
        None
    }
}

/// What process enrichment yields.
#[derive(Debug, Clone)]
pub struct EnrichedProcess {
    /// Process name, `<unknown>` when the process has vanished.
    pub name: String,
    /// Executable path, if resolvable.
    pub path: Option<String>,
    /// Owning user, if known.
    pub user: Option<String>,
    /// Resident memory in bytes.
    pub memory_bytes: u64,
    /// CPU usage in hundredths of a percent.
    pub cpu_centi_percent: u32,
    /// Process uptime in seconds.
    pub uptime_secs: u64,
    /// Immediate parent's pid, when the parent is itself in the table.
    pub parent_pid: Option<u32>,
    /// Immediate parent's name, when the parent is itself in the table.
    pub parent_name: Option<String>,
}

/// The mathematical content of an [`EnrichedProcess`].
pub struct EnrichedProcessView {
    pub name: Seq<char>,
    pub path: Option<Seq<char>>,
    pub user: Option<Seq<char>>,
    pub memory_bytes: u64,
    pub cpu_centi_percent: u32,
    pub uptime_secs: u64,
    pub parent_pid: Option<u32>,
    pub parent_name: Option<Seq<char>>,
}

impl View for EnrichedProcess {
    type V = EnrichedProcessView;

    open spec fn view(&self) -> EnrichedProcessView {
        EnrichedProcessView {
            name: self.name@,
            path: opt_str_view(self.path),
            user: opt_str_view(self.user),
            memory_bytes: self.memory_bytes,
            cpu_centi_percent: self.cpu_centi_percent,
            uptime_secs: self.uptime_secs,
            parent_pid: self.parent_pid,
            parent_name: opt_str_view(self.parent_name),
        }
    }
}

/// What enriching a pid against a table yields: the process's own row data
/// plus one parent-pointer hop, or the `<unknown>` sentinel with zeroed
/// resources when the pid is not in the table.  Enrichment never fails.
pub open spec fn enrich_spec(t: Seq<ProcessEntryView>, pid: u32) -> EnrichedProcessView {
    match table_find(t, pid, 0) {
        Some(e) => {
            let parent = match e.parent_pid {
                Some(pp) => match table_find(t, pp, 0) {
                    Some(pe) => Some((pp, pe.name)),
                    None => None,
                },
                None => None,
            };
            EnrichedProcessView {
                name: e.name,
                path: e.path,
                user: e.user,
                memory_bytes: e.memory_bytes,
                cpu_centi_percent: e.cpu_centi_percent,
                uptime_secs: e.uptime_secs,
                parent_pid: match parent {
                    Some(p) => Some(p.0),
                    None => None,
                },
                parent_name: match parent {
                    Some(p) => Some(p.1),
                    None => None,
                },
            }
        },
        None => EnrichedProcessView {
            name: "<unknown>"@,
            path: None,
            user: None,
            memory_bytes: 0,
            cpu_centi_percent: 0,
            uptime_secs: 0,
            parent_pid: None,
            parent_name: None,
        },
    }
}

/// Enrich a pid against a process-table snapshot.  Never fails: a pid that
/// has vanished between enumeration and enrichment yields the `<unknown>`
/// sentinel.
pub fn enrich(table: &ProcessTable, pid: u32) -> (r: EnrichedProcess)
    ensures
        r@ == enrich_spec(table@, pid),
{
    match table.find(pid) {
        Some(e) => {
            let name = e.name.clone();
            let path = match &e.path {
                Some(p) => Some(p.clone()),
                None => None,
            };
            let user = match &e.user {
                Some(u) => Some(u.clone()),
                None => None,
            };
            let memory_bytes = e.memory_bytes;
            let cpu_centi_percent = e.cpu_centi_percent;
            let uptime_secs = e.uptime_secs;
            let parent_pid_raw = e.parent_pid;
            let (parent_pid, parent_name) = match parent_pid_raw {
                Some(pp) => match table.find(pp) {
                    Some(pe) => (Some(pp), Some(pe.name.clone())),
                    None => (None, None),
                },
                None => (None, None),
            };
            EnrichedProcess {
                name,
                path,
                user,
                memory_bytes,
                cpu_centi_percent,
                uptime_secs,
                parent_pid,
                parent_name,
            }
        },
        None => EnrichedProcess {
            name: crate::strutil::string_of("<unknown>"),
            path: None,
            user: None,
            memory_bytes: 0,
            cpu_centi_percent: 0,
            uptime_secs: 0,
            parent_pid: None,
            parent_name: None,
        },
    }
}

/// A node of the displayed process tree: one process, its children below
/// it, the kill target flagged.
#[derive(Debug)]
pub struct ProcessTreeNode {
    /// Process id.
    pub pid: u32,
    /// Process name.
    pub name: String,
    /// Whether this node is the process the tree was built for.
    pub is_target: bool,
    /// The node's children, in discovery order.
    pub children: Vec<ProcessTreeNode>,
}

/// The parent chain from `pid` upward, each step one parent pointer,
/// bounded by `fuel` entries: corrupted or cyclic parent data cannot make
/// the walk loop.
pub open spec fn chain_spec(t: Seq<ProcessEntryView>, pid: u32, fuel: nat) -> Seq<
    (u32, Seq<char>),
>
    decreases fuel,
{
    if fuel == 0 {
        Seq::empty()
    } else {
        match table_find(t, pid, 0) {
            None => Seq::empty(),
            Some(e) => seq![(pid, e.name)] + (match e.parent_pid {
                Some(pp) => chain_spec(t, pp, (fuel - 1) as nat),
                None => Seq::empty(),
            }),
        }
    }
}

fn process_chain(table: &ProcessTable, pid: u32, fuel: usize) -> (r: Vec<(u32, String)>)
    ensures
        r@.map_values(|p: (u32, String)| (p.0, p.1@)) == chain_spec(table@, pid, fuel as nat),
        r@.len() <= fuel,
    decreases fuel,
{
    let mut out: Vec<(u32, String)> = Vec::new();
    if fuel == 0 {
        proof {
            assert(out@.map_values(|p: (u32, String)| (p.0, p.1@)) =~= chain_spec(
                table@,
                pid,
                fuel as nat,
            ));
        }
        return out;
    }
    match table.find(pid) {
        None => {
            proof {
                assert(out@.map_values(|p: (u32, String)| (p.0, p.1@)) =~= chain_spec(
                    table@,
                    pid,
                    fuel as nat,
                ));
            }
            out
        },
        Some(e) => {
            let name = e.name.clone();
            let parent = e.parent_pid;
            out.push((pid, name));
            match parent {
                Some(pp) => {
                    let mut rest = process_chain(table, pp, fuel - 1);
                    out.append(&mut rest);
                    proof {
                        assert(out@.map_values(|p: (u32, String)| (p.0, p.1@)) =~= chain_spec(
                            table@,
                            pid,
                            fuel as nat,
                        ));
                    }
                    out
                },
                None => {
                    proof {
                        assert(out@.map_values(|p: (u32, String)| (p.0, p.1@)) =~= chain_spec(
                            table@,
                            pid,
                            fuel as nat,
                        ));
                    }
                    out
                },
            }
        },
    }
}

/// The parent chain of `pid`: the target first, then each ancestor in
/// turn.  Walks at most 20 ancestors beyond the target, whatever the
/// parent pointers claim: a cyclic or corrupted chain cannot make this
/// return more, nor loop.
pub fn get_process_tree(table: &ProcessTable, pid: u32) -> (r: Vec<(u32, String)>)
    ensures
        r@.map_values(|p: (u32, String)| (p.0, p.1@)) == chain_spec(table@, pid, 21),
        r@.len() <= 21,
{
    process_chain(table, pid, 21)
}

/// The direct children of `pid` in table order, from row `i` on.
pub open spec fn children_spec(t: Seq<ProcessEntryView>, pid: u32, i: int) -> Seq<
    (u32, Seq<char>),
>
    decreases t.len() - i,
{
    if i < 0 || i >= t.len() {
        Seq::empty()
    } else {
        let rest = children_spec(t, pid, i + 1);
        if t[i].parent_pid == Some(pid) {
            seq![(t[i].pid, t[i].name)] + rest
        } else {
            rest
        }
    }
}

/// The direct children of `pid`: every table row whose parent pointer
/// names it, in table order.
pub fn get_child_processes(table: &ProcessTable, pid: u32) -> (r: Vec<(u32, String)>)
    ensures
        r@.map_values(|p: (u32, String)| (p.0, p.1@)) == children_spec(table@, pid, 0),
{
    let n = table.entries.len();
    let mut out: Vec<(u32, String)> = Vec::new();
    let mut i: usize = 0;
    while i < n
        invariant
            n == table.entries@.len(),
            n == table@.len(),
            0 <= i <= n,
            forall|j: int| 0 <= j < n ==> table@[j] == table.entries@[j]@,
            out@.map_values(|p: (u32, String)| (p.0, p.1@)) + children_spec(
                table@,
                pid,
                i as int,
            ) == children_spec(table@, pid, 0),
        decreases n - i,
    {
        let e = &table.entries[i];
        let matches_parent = match e.parent_pid {
            Some(pp) => pp == pid,
            None => false,
        };
        if matches_parent {
            out.push((e.pid, e.name.clone()));
            proof {
                assert(out@.map_values(|p: (u32, String)| (p.0, p.1@)) + children_spec(
                    table@,
                    pid,
                    i as int + 1,
                ) =~= children_spec(table@, pid, 0));
            }
        }
        i = i + 1;
    }
    proof {
        assert(out@.map_values(|p: (u32, String)| (p.0, p.1@)) =~= children_spec(
            table@,
            pid,
            0,
        ));
    }
    out
}

/// The canonical result for one port: the owning process and its
/// enrichment.  Immutable once constructed; a later snapshot's value for
/// the same port is a distinct value.
#[derive(Debug, Clone)]
pub struct PortInfo {
    /// The listening port.
    pub port: u16,
    /// `TCP` or `UDP`.
    pub protocol: String,
    /// The owning process id.
    pub pid: u32,
    /// The owning process's name.
    pub process_name: String,
    /// The owning process's executable path, if resolvable.
    pub process_path: Option<String>,
    /// The local address, as `addr:port`.
    pub local_address: String,
    /// The remote peer, as `addr:port`, for established TCP connections.
    pub remote_address: Option<String>,
    /// The socket state as the tool reported it.
    pub state: String,
    /// The owning user, if known.
    pub user: Option<String>,
    /// Resident memory in bytes.
    pub memory_bytes: u64,
    /// CPU usage in hundredths of a percent.
    pub cpu_centi_percent: u32,
    /// Process uptime in seconds.
    pub uptime_secs: u64,
    /// Parent process id, if available.
    pub parent_pid: Option<u32>,
    /// Parent process name, if available.
    pub parent_name: Option<String>,
}

/// The mathematical content of a [`PortInfo`].
pub struct PortInfoView {
    pub port: u16,
    pub protocol: Seq<char>,
    pub pid: u32,
    pub process_name: Seq<char>,
    pub process_path: Option<Seq<char>>,
    pub local_address: Seq<char>,
    pub remote_address: Option<Seq<char>>,
    pub state: Seq<char>,
    pub user: Option<Seq<char>>,
    pub memory_bytes: u64,
    pub cpu_centi_percent: u32,
    pub uptime_secs: u64,
    pub parent_pid: Option<u32>,
    pub parent_name: Option<Seq<char>>,
}

impl View for PortInfo {
    type V = PortInfoView;

    open spec fn view(&self) -> PortInfoView {
        PortInfoView {
            port: self.port,
            protocol: self.protocol@,
            pid: self.pid,
            process_name: self.process_name@,
            process_path: opt_str_view(self.process_path),
            local_address: self.local_address@,
            remote_address: opt_str_view(self.remote_address),
            state: self.state@,
            user: opt_str_view(self.user),
            memory_bytes: self.memory_bytes,
            cpu_centi_percent: self.cpu_centi_percent,
            uptime_secs: self.uptime_secs,
            parent_pid: self.parent_pid,
            parent_name: opt_str_view(self.parent_name),
        }
    }
}

/// The [`PortInfo`] built for a connection with owner `pid`: the
/// connection's own data, addresses rendered as `addr:port`, and the
/// enrichment of the owning process.
pub open spec fn make_port_info(c: ConnView, pid: u32, t: Seq<ProcessEntryView>) -> PortInfoView {
    let e = enrich_spec(t, pid);
    PortInfoView {
        port: c.local_port,
        protocol: c.protocol,
        pid,
        process_name: e.name,
        process_path: e.path,
        local_address: c.local_addr + ":"@ + dec_str(c.local_port as int),
        remote_address: match c.remote_addr {
            Some(a) => Some(
                a + ":"@ + dec_str(
                    (match c.remote_port {
                        Some(p) => p,
                        None => 0,
                    }) as int,
                ),
            ),
            None => None,
        },
        state: c.state,
        user: e.user,
        memory_bytes: e.memory_bytes,
        cpu_centi_percent: e.cpu_centi_percent,
        uptime_secs: e.uptime_secs,
        parent_pid: e.parent_pid,
        parent_name: e.parent_name,
    }
}

fn build_port_info(conn: &NetConnection, pid: u32, table: &ProcessTable) -> (r: PortInfo)
    ensures
        r@ == make_port_info(conn@, pid, table@),
{
    let e = enrich(table, pid);
    let mut local_address = conn.local_addr.clone();
    local_address.append(":");
    let port_str = crate::strutil::u64_to_string(conn.local_port as u64);
    local_address.append(port_str.as_str());
    let remote_address = match &conn.remote_addr {
        Some(a) => {
            let mut r = a.clone();
            r.append(":");
            let rp: u16 = match conn.remote_port {
                Some(p) => p,
                None => 0,
            };
            let rp_str = crate::strutil::u64_to_string(rp as u64);
            r.append(rp_str.as_str());
            Some(r)
        },
        None => None,
    };
    PortInfo {
        port: conn.local_port,
        protocol: conn.protocol.clone(),
        pid,
        process_name: e.name,
        process_path: e.path,
        local_address,
        remote_address,
        state: conn.state.clone(),
        user: e.user,
        memory_bytes: e.memory_bytes,
        cpu_centi_percent: e.cpu_centi_percent,
        uptime_secs: e.uptime_secs,
        parent_pid: e.parent_pid,
        parent_name: e.parent_name,
    }
}

/// The enriched results of every connection with a known owner, from
/// connection `i` on; a connection without an owner is dropped, since a
/// port cannot be actioned without one.
pub open spec fn build_conns(conns: Seq<ConnView>, t: Seq<ProcessEntryView>, i: int) -> Seq<
    PortInfoView,
>
    decreases conns.len() - i,
{
    if i < 0 || i >= conns.len() {
        Seq::empty()
    } else {
        let rest = build_conns(conns, t, i + 1);
        match conns[i].pid {
            Some(pid) => seq![make_port_info(conns[i], pid, t)] + rest,
            None => rest,
        }
    }
}

/// Strictly ascending port numbers: sorted, with no duplicates.
pub open spec fn sorted_by_port(s: Seq<PortInfoView>) -> bool {
    forall|i: int, j: int| 0 <= i < j < s.len() ==> s[i].port < s[j].port
}

/// The first index at or after `i` whose port is at least `port`.
pub open spec fn insert_pos(s: Seq<PortInfoView>, port: u16, i: int) -> int
    decreases s.len() - i,
{
    if i < 0 || i >= s.len() {
        s.len() as int
    } else if s[i].port >= port {
        i
    } else {
        insert_pos(s, port, i + 1)
    }
}

pub proof fn lemma_insert_pos_props(s: Seq<PortInfoView>, port: u16, i: int)
    requires
        0 <= i <= s.len(),
    ensures
        i <= insert_pos(s, port, i) <= s.len(),
        forall|k: int| i <= k < insert_pos(s, port, i) ==> s[k].port < port,
        insert_pos(s, port, i) < s.len() ==> s[insert_pos(s, port, i)].port >= port,
    decreases s.len() - i,
{
    if i < s.len() && s[i].port < port {
        lemma_insert_pos_props(s, port, i + 1);
    }
}

/// Insert `x` into a port-sorted sequence, keeping the first-seen entry
/// when its port is already present.
pub open spec fn insert_dedup(s: Seq<PortInfoView>, x: PortInfoView) -> Seq<PortInfoView> {
    let p = insert_pos(s, x.port, 0);
    if p < s.len() && s[p].port == x.port {
        s
    } else {
        s.insert(p, x)
    }
}

pub proof fn lemma_insert_dedup_sorted(s: Seq<PortInfoView>, x: PortInfoView)
    requires
        sorted_by_port(s),
    ensures
        sorted_by_port(insert_dedup(s, x)),
{
    let p = insert_pos(s, x.port, 0);
    lemma_insert_pos_props(s, x.port, 0);
    if p < s.len() && s[p].port == x.port {
    } else {
        let r = s.insert(p, x);
        s.insert_ensures(p, x);
        assert forall|i: int, j: int| 0 <= i < j < r.len() implies r[i].port < r[j].port by {
            if i < p {
                assert(r[i] == s[i]);
            } else if i == p {
                assert(r[i] == x);
            } else {
                assert(r[i] == s[i - 1]);
            }
            if j < p {
                assert(r[j] == s[j]);
            } else if j == p {
                assert(r[j] == x);
            } else {
                assert(r[j] == s[j - 1]);
            }
        }
    }
}

/// Fold the built results into a sorted, per-port-unique sequence: walked
/// in order, so the first-built entry for a port wins.
pub open spec fn dedup_into(
    acc: Seq<PortInfoView>,
    built: Seq<PortInfoView>,
    i: int,
) -> Seq<PortInfoView>
    decreases built.len() - i,
{
    if i < 0 || i >= built.len() {
        acc
    } else {
        dedup_into(insert_dedup(acc, built[i]), built, i + 1)
    }
}

/// What correlation yields: every connection with a known owner enriched
/// into a [`PortInfoView`], sorted ascending by port, one entry per port,
/// first-seen entry winning on a duplicate port.
pub open spec fn correlate_spec(conns: Seq<ConnView>, t: Seq<ProcessEntryView>) -> Seq<
    PortInfoView,
> {
    dedup_into(Seq::empty(), build_conns(conns, t, 0), 0)
}

/// Merge connection records with a process-table snapshot into the
/// canonical per-port results: connections without a known owner are
/// dropped, each other is enriched, and the result is sorted strictly
/// ascending by port with at most one entry per port (the first seen
/// wins).
pub fn correlate(conns: &Vec<NetConnection>, table: &ProcessTable) -> (r: Vec<PortInfo>)
    ensures
        r@.map_values(|p: PortInfo| p@) == correlate_spec(
            conns@.map_values(|c: NetConnection| c@),
            table@,
        ),
        sorted_by_port(r@.map_values(|p: PortInfo| p@)),
{
    let ghost cv = conns@.map_values(|c: NetConnection| c@);
    let n = conns.len();
    let mut built: Vec<PortInfo> = Vec::new();
    let mut i: usize = 0;
    while i < n
        invariant
            n == conns@.len(),
            cv == conns@.map_values(|c: NetConnection| c@),
            0 <= i <= n,
            built@.map_values(|p: PortInfo| p@) + build_conns(cv, table@, i as int)
                == build_conns(cv, table@, 0),
        decreases n - i,
    {
        let pid_opt = conns[i].pid;
        match pid_opt {
            Some(pid) => {
                let info = build_port_info(&conns[i], pid, table);
                built.push(info);
                proof {
                    assert(cv[i as int] == conns@[i as int]@);
                    assert(built@.map_values(|p: PortInfo| p@) + build_conns(
                        cv,
                        table@,
                        i as int + 1,
                    ) =~= build_conns(cv, table@, 0));
                }
            },
            None => {
                proof {
                    assert(cv[i as int] == conns@[i as int]@);
                }
            },
        }
        i = i + 1;
    }
    proof {
        assert(built@.map_values(|p: PortInfo| p@) =~= build_conns(cv, table@, 0));
    }
    let ghost bv = built@.map_values(|p: PortInfo| p@);
    let m = built.len();
    let mut result: Vec<PortInfo> = Vec::new();
    proof {
        assert(result@.map_values(|p: PortInfo| p@) =~= Seq::<PortInfoView>::empty());
    }
    let mut j: usize = 0;
    while j < m
        invariant
            m == built@.len(),
            bv == built@.map_values(|p: PortInfo| p@),
            0 <= j <= m,
            sorted_by_port(result@.map_values(|p: PortInfo| p@)),
            dedup_into(result@.map_values(|p: PortInfo| p@), bv, j as int) == dedup_into(
                Seq::empty(),
                bv,
                0,
            ),
        decreases m - j,
    {
        let ghost rv = result@.map_values(|p: PortInfo| p@);
        let x = built[j].clone_record();
        proof {
            assert(x@ == bv[j as int]);
            lemma_insert_pos_props(rv, x@.port, 0);
        }
        let len = result.len();
        let mut k: usize = 0;
        while k < len && result[k].port < x.port
            invariant
                len == result@.len(),
                rv == result@.map_values(|p: PortInfo| p@),
                0 <= k <= len,
                insert_pos(rv, x@.port, 0) == insert_pos(rv, x@.port, k as int),
            decreases len - k,
        {
            k = k + 1;
        }
        proof {
            assert(insert_pos(rv, x@.port, k as int) == k);
        }
        if k < len && result[k].port == x.port {
            proof {
                assert(insert_dedup(rv, x@) == rv);
            }
        } else {
            proof {
                lemma_insert_dedup_sorted(rv, x@);
            }
            result.insert(k, x);
            proof {
                assert(result@.map_values(|p: PortInfo| p@) =~= rv.insert(k as int, bv[j as int]));
                assert(result@.map_values(|p: PortInfo| p@) == insert_dedup(rv, bv[j as int]));
            }
        }
        j = j + 1;
    }
    proof {
        assert(result@.map_values(|p: PortInfo| p@) == correlate_spec(cv, table@));
    }
    result
}

impl PortInfo {
    /// The process uptime, rendered for humans.
    pub fn uptime_display(&self) -> (r: String)
        ensures
            r@ == crate::display::uptime_text(self.uptime_secs),
    {
        crate::display::format_uptime(self.uptime_secs)
    }

    /// A field-for-field copy.
    pub fn clone_record(&self) -> (r: PortInfo)
        ensures
            r@ == self@,
    {
        PortInfo {
            port: self.port,
            protocol: self.protocol.clone(),
            pid: self.pid,
            process_name: self.process_name.clone(),
            process_path: match &self.process_path {
                Some(p) => Some(p.clone()),
                None => None,
            },
            local_address: self.local_address.clone(),
            remote_address: match &self.remote_address {
                Some(a) => Some(a.clone()),
                None => None,
            },
            state: self.state.clone(),
            user: match &self.user {
                Some(u) => Some(u.clone()),
                None => None,
            },
            memory_bytes: self.memory_bytes,
            cpu_centi_percent: self.cpu_centi_percent,
            uptime_secs: self.uptime_secs,
            parent_pid: self.parent_pid,
            parent_name: match &self.parent_name {
                Some(p) => Some(p.clone()),
                None => None,
            },
        }
    }
}

/// The first entry with the given port, from `i` on.
pub open spec fn find_port_spec(s: Seq<PortInfoView>, port: u16, i: int) -> Option<PortInfoView>
    decreases s.len() - i,
{
    if i < 0 || i >= s.len() {
        None
    } else if s[i].port == port {
        Some(s[i])
    } else {
        find_port_spec(s, port, i + 1)
    }
}

/// The snapshot's entry for one port, if the port is in use in it.
pub fn find_port<'a>(ports: &'a Vec<PortInfo>, port: u16) -> (r: Option<&'a PortInfo>)
    ensures
        match r {
            Some(p) => find_port_spec(ports@.map_values(|q: PortInfo| q@), port, 0) == Some(p@),
            None => find_port_spec(ports@.map_values(|q: PortInfo| q@), port, 0) is None,
        },
{
    let ghost pv = ports@.map_values(|q: PortInfo| q@);
    let n = ports.len();
    let mut i: usize = 0;
    while i < n
        invariant
            n == ports@.len(),
            pv == ports@.map_values(|q: PortInfo| q@),
            0 <= i <= n,
            find_port_spec(pv, port, 0) == find_port_spec(pv, port, i as int),
        decreases n - i,
    {
        if ports[i].port == port {
            proof {
                assert(pv[i as int] == ports@[i as int]@);
            }
            return Some(&ports[i]);
        }
        proof {
            assert(pv[i as int] == ports@[i as int]@);
        }
        i = i + 1;
    }
    None
}

/// In a port-sorted snapshot, looking any listed port up returns exactly
/// the listed entry, field for field: the single-port view and the full
/// listing of one snapshot can never disagree.
pub proof fn lemma_snapshot_lookup_consistent(s: Seq<PortInfoView>, i: int)
    requires
        sorted_by_port(s),
        0 <= i < s.len(),
    ensures
        find_port_spec(s, s[i].port, 0) == Some(s[i]),
{
    lemma_find_port_from(s, i, 0);
}

proof fn lemma_find_port_from(s: Seq<PortInfoView>, i: int, j: int)
    requires
        sorted_by_port(s),
        0 <= j <= i < s.len(),
    ensures
        find_port_spec(s, s[i].port, j) == Some(s[i]),
    decreases i - j,
{
    if j < i {
        assert(s[j].port < s[i].port);
        lemma_find_port_from(s, i, j + 1);
    }
}

} // verus!
