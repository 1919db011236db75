//! Parsing of the socket enumerator's tagged output.
//!
//! The enumerator emits lines, each a single-character field tag followed
//! immediately by the value: `p` (pid, starting a new record context), `c`
//! (process name) and `n` (socket name, `host:port`). Tag values persist as
//! a running context until overwritten; an `n` line emits an entry when a
//! pid and a name are in context and the port parses.

use crate::error::PortsError;
use crate::models::{opt_view, PortEntry, PortEntryView, ProcessInfo, ProcessInfoView, Protocol};
use crate::text::{
    after_last, parse_dec, spec_parse_u16, spec_parse_u32, str_to_chars, subvec, suffix_after_last,
};
use vstd::prelude::*;
use vstd::string::StrSliceExecFns;

verus! {

/// The port of a socket-name field: the digits after the last colon, which
/// skips colons inside a bracketed IPv6 host.
pub open spec fn spec_extract_port(s: Seq<char>) -> Option<u16> {
    spec_parse_u16(after_last(s, ':'))
}

/// Extracts the port number from a socket-name field such as `*:3000`,
/// `127.0.0.1:8080` or `[::1]:9000`.
pub fn extract_port_from_name(name: &str) -> (r: Option<u16>)
    ensures
        r == spec_extract_port(name@),
{
    let v = str_to_chars(name);
    let start = suffix_after_last(&v, ':');
    let seg = subvec(&v, start, v.len());
    match parse_dec(&seg, 65535) {
        Some(x) => Some(x as u16),
        None => None,
    }
}

/// One record emitted by the scanner.
#[verifier::ext_equal]
pub ghost struct ScanItem {
    pub port: u16,
    pub pid: u32,
    pub name: Seq<char>,
}

/// The scan records that a sequence of entries carries.
pub open spec fn items_of(entries: Seq<PortEntry>) -> Seq<ScanItem> {
    entries.map_values(
        |e: PortEntry| ScanItem { port: e.port, pid: e.process.pid, name: e.process.name@ },
    )
}

/// Is a (port, pid) pair already among the items?
pub open spec fn has_port_pid(items: Seq<ScanItem>, port: u16, pid: u32) -> bool {
    exists|k: int| 0 <= k < items.len() && items[k].port == port && items[k].pid == pid
}

/// A port entry exactly as the scanner creates it: TCP, unclassified, with
/// only pid and name filled in.
pub open spec fn fresh_entry_view(it: ScanItem) -> PortEntryView {
    PortEntryView {
        port: it.port,
        protocol: Protocol::Tcp,
        process: ProcessInfoView {
            pid: it.pid,
            name: it.name,
            command: None,
            started_at: None,
            elapsed: None,
            user: None,
        },
        app_type: None,
    }
}

/// Every entry is a freshly scanned one.
pub open spec fn entries_fresh(es: Seq<PortEntry>) -> bool {
    forall|k: int| 0 <= k < es.len() ==> es[k]@ == fresh_entry_view(items_of(es)[k])
}

/// Effect of one line on the scanner state: `p` replaces the pid context
/// (an unparseable pid clears it), `c` replaces the name context, `n` emits
/// an entry when the port parses, both contexts are set and the (port, pid)
/// pair is new; empty lines and unrecognized tags change nothing.
pub open spec fn scan_line(
    line: Seq<char>,
    pid: Option<u32>,
    name: Option<Seq<char>>,
    items: Seq<ScanItem>,
) -> (Option<u32>, Option<Seq<char>>, Seq<ScanItem>) {
    if line.len() == 0 {
        (pid, name, items)
    } else if line[0] == 'p' {
        (spec_parse_u32(line.drop_first()), name, items)
    } else if line[0] == 'c' {
        (pid, Some(line.drop_first()), items)
    } else if line[0] == 'n' {
        (
            pid,
            name,
            match spec_extract_port(line.drop_first()) {
                Some(port) => match (pid, name) {
                    (Some(p), Some(nm)) => if has_port_pid(items, port, p) {
                        items
                    } else {
                        items.push(ScanItem { port, pid: p, name: nm })
                    },
                    _ => items,
                },
                None => items,
            },
        )
    } else {
        (pid, name, items)
    }
}

/// Strips one trailing carriage return, as line splitting does.
pub open spec fn strip_cr(line: Seq<char>) -> Seq<char> {
    if line.len() > 0 && line.last() == '\r' {
        line.drop_last()
    } else {
        line
    }
}

/// The scanner, walking the raw output character by character, carrying the
/// current line, the running pid and name contexts, and the emitted items.
/// A newline applies the current line; a final unterminated line is applied
/// at the end of input.
pub open spec fn scan_from(
    s: Seq<char>,
    i: int,
    cur: Seq<char>,
    pid: Option<u32>,
    name: Option<Seq<char>>,
    items: Seq<ScanItem>,
) -> Seq<ScanItem>
    decreases s.len() - i,
{
    if i < 0 || i >= s.len() {
        if cur.len() == 0 {
            items
        } else {
            scan_line(cur, pid, name, items).2
        }
    } else if s[i] == '\n' {
        let st = scan_line(strip_cr(cur), pid, name, items);
        scan_from(s, i + 1, Seq::empty(), st.0, st.1, st.2)
    } else {
        scan_from(s, i + 1, cur.push(s[i]), pid, name, items)
    }
}

/// The records parsed out of the enumerator's raw output.
pub open spec fn spec_scan(s: Seq<char>) -> Seq<ScanItem> {
    scan_from(s, 0, Seq::empty(), None, None, Seq::empty())
}

/// Is there an entry with this port and pid already?
fn entry_exists(entries: &Vec<PortEntry>, port: u16, pid: u32) -> (r: bool)
    ensures
        r == exists|k: int|
            0 <= k < entries@.len() && entries@[k].port == port && entries@[k].process.pid == pid,
{
    let mut k: usize = 0;
    while k < entries.len()
        invariant
            k <= entries@.len(),
            forall|j: int|
                0 <= j < k ==> !(entries@[j].port == port && entries@[j].process.pid == pid),
        decreases entries@.len() - k,
    {
        if entries[k].port == port && entries[k].process.pid == pid {
            proof {
                assert(entries@[k as int].port == port && entries@[k as int].process.pid == pid);
            }
            return true;
        }
        k = k + 1;
    }
    false
}

/// Applies one line (the characters of `v` in `[ls, le)`) to the scanner
/// state, returning the new pid and name contexts and extending the entries.
fn apply_line(
    s: &str,
    v: &Vec<char>,
    ls: usize,
    le: usize,
    pid: Option<u32>,
    name: Option<String>,
    entries: &mut Vec<PortEntry>,
) -> (r: (Option<u32>, Option<String>))
    requires
        v@ == s@,
        ls <= le <= v@.len(),
        entries_fresh(old(entries)@),
    ensures
        entries_fresh(final(entries)@),
        ({
            let st = scan_line(
                v@.subrange(ls as int, le as int),
                pid,
                opt_view(name),
                items_of(old(entries)@),
            );
            r.0 == st.0 && opt_view(r.1) == st.1 && items_of(final(entries)@) == st.2
        }),
{
    if le == ls {
        return (pid, name);
    }
    let tag = v[ls];
    proof {
        assert(v@.subrange(ls as int, le as int).drop_first() =~= v@.subrange(ls + 1, le as int));
    }
    if tag == 'p' {
        let seg = subvec(v, ls + 1, le);
        let newpid = match parse_dec(&seg, 4294967295) {
            Some(x) => Some(x as u32),
            None => None,
        };
        (newpid, name)
    } else if tag == 'c' {
        let val = s.substring_char(ls + 1, le).to_owned();
        (pid, Some(val))
    } else if tag == 'n' {
        let seg = subvec(v, ls + 1, le);
        let start = suffix_after_last(&seg, ':');
        let pseg = subvec(&seg, start, seg.len());
        let port_opt = match parse_dec(&pseg, 65535) {
            Some(x) => Some(x as u16),
            None => None,
        };
        proof {
            assert(port_opt == spec_extract_port(v@.subrange(ls as int, le as int).drop_first()));
        }
        if let Some(port) = port_opt {
            let have_both = pid.is_some() && name.is_some();
            if have_both {
                let p = match pid {
                    Some(x) => x,
                    None => 0,
                };
                let nm: &String = match &name {
                    Some(x) => x,
                    None => &s.substring_char(0, 0).to_owned(),
                };
                let ghost pre = entries@;
                if !entry_exists(entries, port, p) {
                    let process = ProcessInfo::new(p, nm.clone());
                    let entry = PortEntry::new(port, Protocol::Tcp, process);
                    entries.push(entry);
                    proof {
                        assert(items_of(entries@) =~= items_of(pre).push(
                            ScanItem { port, pid: p, name: nm@ },
                        ));
                        assert forall|k: int| 0 <= k < entries@.len() implies entries@[k]@
                            == fresh_entry_view(items_of(entries@)[k]) by {
                            if k < pre.len() {
                                assert(entries@[k] == pre[k]);
                                assert(items_of(entries@)[k] == items_of(pre)[k]);
                            }
                        }
                    }
                } else {
                    proof {
                        let k = choose|k: int|
                            0 <= k < pre.len() && pre[k].port == port && pre[k].process.pid == p;
                        assert(items_of(pre)[k].port == port && items_of(pre)[k].pid == p);
                        assert(has_port_pid(items_of(pre), port, p));
                    }
                }
            }
        }
        proof {
            let st = scan_line(
                v@.subrange(ls as int, le as int),
                pid,
                opt_view(name),
                items_of(old(entries)@),
            );
            if port_opt is Some && pid is Some && name is Some && !has_port_pid(
                items_of(old(entries)@),
                port_opt->0,
                pid->0,
            ) {
            } else {
                assert(items_of(entries@) == st.2);
            }
        }
        (pid, name)
    } else {
        (pid, name)
    }
}

/// Parses the enumerator's raw output into port entries: a running-context
/// format applied line by line, deduplicated on (port, pid). Never fails.
pub fn parse_lsof_output(output: &str) -> (r: Result<Vec<PortEntry>, PortsError>)
    ensures
        r is Ok,
        r matches Ok(entries) ==> entries_fresh(entries@) && items_of(entries@) == spec_scan(
            output@,
        ),
{
    let v = str_to_chars(output);
    let mut entries: Vec<PortEntry> = Vec::new();
    let mut pid: Option<u32> = None;
    let mut name: Option<String> = None;
    let mut ls: usize = 0;
    let mut i: usize = 0;
    proof {
        assert(items_of(entries@) =~= Seq::<ScanItem>::empty());
        assert(v@.subrange(0, 0) =~= Seq::<char>::empty());
    }
    while i < v.len()
        invariant
            v@ == output@,
            ls <= i <= v@.len(),
            entries_fresh(entries@),
            scan_from(
                v@,
                i as int,
                v@.subrange(ls as int, i as int),
                pid,
                opt_view(name),
                items_of(entries@),
            ) == spec_scan(v@),
        decreases v@.len() - i,
    {
        let c = v[i];
        if c == '\n' {
            let le = if i > ls && v[i - 1] == '\r' {
                i - 1
            } else {
                i
            };
            proof {
                assert(v@.subrange(ls as int, le as int) =~= strip_cr(
                    v@.subrange(ls as int, i as int),
                ));
            }
            let st = apply_line(output, &v, ls, le, pid, name, &mut entries);
            pid = st.0;
            name = st.1;
            ls = i + 1;
            i = i + 1;
            proof {
                assert(v@.subrange(ls as int, i as int) =~= Seq::<char>::empty());
            }
        } else {
            i = i + 1;
            proof {
                assert(v@.subrange(ls as int, i as int) =~= v@.subrange(ls as int, i - 1).push(
                    v@[i - 1],
                ));
            }
        }
    }
    if ls < i {
        let st = apply_line(output, &v, ls, i, pid, name, &mut entries);
        pid = st.0;
        name = st.1;
    }
    Ok(entries)
}

/// No two scan records share a (port, pid) pair.
pub open spec fn items_unique(items: Seq<ScanItem>) -> bool {
    forall|a: int, b: int|
        0 <= a < b < items.len() ==> !(items[a].port == items[b].port && items[a].pid
            == items[b].pid)
}

proof fn lemma_scan_line_unique(
    line: Seq<char>,
    pid: Option<u32>,
    name: Option<Seq<char>>,
    items: Seq<ScanItem>,
)
    requires
        items_unique(items),
    ensures
        items_unique(scan_line(line, pid, name, items).2),
{
    let out = scan_line(line, pid, name, items).2;
    if out.len() == items.len() + 1 {
        let it = out.last();
        assert(!has_port_pid(items, it.port, it.pid));
        assert forall|a: int, b: int|
            0 <= a < b < out.len() implies !(out[a].port == out[b].port && out[a].pid
            == out[b].pid) by {
            if b == items.len() {
                assert(!(items[a].port == it.port && items[a].pid == it.pid));
            }
        }
    }
}

proof fn lemma_scan_from_unique(
    s: Seq<char>,
    i: int,
    cur: Seq<char>,
    pid: Option<u32>,
    name: Option<Seq<char>>,
    items: Seq<ScanItem>,
)
    requires
        items_unique(items),
    ensures
        items_unique(scan_from(s, i, cur, pid, name, items)),
    decreases s.len() - i,
{
    if i < 0 || i >= s.len() {
        if cur.len() != 0 {
            lemma_scan_line_unique(cur, pid, name, items);
        }
    } else if s[i] == '\n' {
        lemma_scan_line_unique(strip_cr(cur), pid, name, items);
        let st = scan_line(strip_cr(cur), pid, name, items);
        lemma_scan_from_unique(s, i + 1, Seq::empty(), st.0, st.1, st.2);
    } else {
        lemma_scan_from_unique(s, i + 1, cur.push(s[i]), pid, name, items);
    }
}

/// The deduplication invariant of the enumerator: whatever the raw output,
/// the records it parses to have pairwise distinct (port, pid) pairs, so
/// the entries `parse_lsof_output` returns do too.
pub proof fn lemma_scan_unique(s: Seq<char>)
    ensures
        items_unique(spec_scan(s)),
{
    lemma_scan_from_unique(s, 0, Seq::empty(), None, None, Seq::empty());
}

/// Entries in non-decreasing port order.
pub open spec fn sorted_by_port(es: Seq<PortEntry>) -> bool {
    forall|i: int, j: int| 0 <= i < j < es.len() ==> es[i].port <= es[j].port
}

/// Sorts the entries by ascending port number, keeping exactly the same
/// collection of entries.
pub fn sort_by_port(entries: &mut Vec<PortEntry>)
    ensures
        final(entries)@.to_multiset() == old(entries)@.to_multiset(),
        sorted_by_port(final(entries)@),
{
    broadcast use vstd::multiset::group_multiset_axioms;
    broadcast use vstd::seq_lib::group_to_multiset_ensures;

    let mut out: Vec<PortEntry> = Vec::new();
    proof {
        assert(out@ =~= Seq::<PortEntry>::empty());
        assert(out@.to_multiset().add(entries@.to_multiset()) =~= entries@.to_multiset());
    }
    while entries.len() > 0
        invariant
            out@.to_multiset().add(entries@.to_multiset()) == old(entries)@.to_multiset(),
            sorted_by_port(out@),
        decreases entries@.len(),
    {
        let ghost pre_out = out@;
        let ghost pre_in = entries@;
        let e = entries.remove(0);
        let mut p: usize = 0;
        while p < out.len() && out[p].port <= e.port
            invariant
                p <= out@.len(),
                out@ == pre_out,
                forall|k: int| 0 <= k < p ==> out@[k].port <= e.port,
            decreases out@.len() - p,
        {
            p = p + 1;
        }
        out.insert(p, e);
        proof {
            assert(pre_in.contains(pre_in[0]));
            vstd::seq_lib::to_multiset_insert(pre_out, p as int, e);
            vstd::seq_lib::to_multiset_remove(pre_in, 0);
            vstd::seq_lib::to_multiset_contains(pre_in, e);
            assert(out@.to_multiset() =~= pre_out.to_multiset().insert(e));
            assert(entries@.to_multiset() =~= pre_in.to_multiset().remove(e));
            assert(out@.to_multiset().add(entries@.to_multiset()) =~= pre_out.to_multiset().add(
                pre_in.to_multiset(),
            ));
            assert forall|a: int, b: int| 0 <= a < b < out@.len() implies out@[a].port
                <= out@[b].port by {
                if a < p && b > p {
                    assert(out@[a] == pre_out[a] && out@[b] == pre_out[b - 1]);
                }
            }
        }
    }
    let ghost leftover = entries@;
    proof {
        assert(leftover =~= Seq::<PortEntry>::empty());
        assert(out@.to_multiset().add(leftover.to_multiset()) =~= out@.to_multiset());
    }
    *entries = out;
}

} // verus!
