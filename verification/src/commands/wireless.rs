// Wireless adb: TCP/IP mode, connecting and disconnecting, and finding the
// device's IP address by a sequence of probes.
use vstd::prelude::*;

use crate::adb::command_builder::{push_str_copy, strs};
use crate::adb::executor::CommandOutput;
use crate::commands::file_transfer::joined;
use crate::text::{chars_of, contains, contains_str, decimal, dv, find, find_chars, first_where, lines, parse_uint, parse_unsigned, split_str, split_str_chars, split_whitespace, starts_with, string_of, text_lines, trim, trimmed, trimmed_chars, u64_to_string, words, starts_with_chars, slice_chars};

verus! {

/// The port asked for, or 5555 when it is not a valid port number.
pub open spec fn port_or_default(port: Seq<char>) -> int {
    match parse_unsigned(port, 65535) {
        Some(p) => p,
        None => 5555,
    }
}

pub fn tcpip_port(port: &str) -> (r: u16)
    ensures
        r == port_or_default(port@),
{
    let c = chars_of(port);
    match parse_uint(&c, 65535) {
        Some(p) => p as u16,
        None => 5555,
    }
}

/// `adb -s <device> tcpip <port>`, without the executable.
pub fn enable_tcpip_args(device_id: &str, port: u16) -> (r: Vec<String>)
    ensures
        strs(r@) == seq!["-s"@, device_id@, "tcpip"@, decimal(port as nat)],
{
    let mut v: Vec<String> = Vec::new();
    push_str_copy(&mut v, "-s");
    push_str_copy(&mut v, device_id);
    push_str_copy(&mut v, "tcpip");
    let p = u64_to_string(port as u64);
    push_str_copy(&mut v, p.as_str());
    v
}

fn concat(a: &str, b: &str) -> (r: String)
    ensures
        r@ == a@ + b@,
{
    let mut s = String::new();
    s.append(a);
    s.append(b);
    s
}

/// The result of switching to TCP/IP mode on `port`.
pub fn enable_tcpip(port: u16, run: Result<CommandOutput, String>) -> (r: Result<String, String>)
    ensures
        match run {
            Err(e) => r matches Err(m) && m@ == "Failed to enable tcpip: "@ + e@,
            Ok(o) => if o.success {
                r matches Ok(m) && m@ == "TCP/IP mode enabled on port "@ + decimal(port as nat)
            } else {
                r matches Err(m) && m@ == "Failed to enable TCP/IP: "@ + o.stderr@
            },
        },
{
    match run {
        Err(e) => Err(concat("Failed to enable tcpip: ", e.as_str())),
        Ok(o) => {
            if o.success {
                let p = u64_to_string(port as u64);
                Ok(concat("TCP/IP mode enabled on port ", p.as_str()))
            } else {
                Err(concat("Failed to enable TCP/IP: ", o.stderr.as_str()))
            }
        },
    }
}

/// `adb connect <ip>:<port>` or `adb disconnect <ip>:<port>`, without the
/// executable.
pub fn address_args(verb: &str, ip: &str, port: &str) -> (r: Vec<String>)
    ensures
        strs(r@) == seq![verb@, ip@ + ":"@ + port@],
{
    let mut v: Vec<String> = Vec::new();
    push_str_copy(&mut v, verb);
    let mut a = String::new();
    a.append(ip);
    a.append(":");
    a.append(port);
    push_str_copy(&mut v, a.as_str());
    v
}

/// The result of `adb connect`: the trimmed report when it says connected,
/// else that report as the error (or a fixed text when it is empty).
pub fn connect_wireless(run: Result<CommandOutput, String>) -> (r: Result<String, String>)
    ensures
        match run {
            Err(e) => r matches Err(m) && m@ == "Connection failed: "@ + e@,
            Ok(o) => if contains(trim(o.stdout@), "connected"@) || contains(trim(o.stdout@), "already connected"@) {
                r matches Ok(m) && m@ == trim(o.stdout@)
            } else if trim(o.stdout@).len() == 0 {
                r matches Err(m) && m@ == "Connection failed - no response"@
            } else {
                r matches Err(m) && m@ == trim(o.stdout@)
            },
        },
{
    match run {
        Err(e) => Err(concat("Connection failed: ", e.as_str())),
        Ok(o) => {
            let result = trimmed(o.stdout.as_str());
            let rc = chars_of(result.as_str());
            if contains_str(&rc, "connected") || contains_str(&rc, "already connected") {
                Ok(result)
            } else if rc.len() == 0 {
                Err("Connection failed - no response".to_string())
            } else {
                Err(result)
            }
        },
    }
}

/// The result of `adb disconnect`: its trimmed report.
pub fn disconnect_wireless(run: Result<CommandOutput, String>) -> (r: Result<String, String>)
    ensures
        match run {
            Err(e) => r matches Err(m) && m@ == "Disconnect failed: "@ + e@,
            Ok(o) => r matches Ok(m) && m@ == trim(o.stdout@),
        },
{
    match run {
        Err(e) => Err(concat("Disconnect failed: ", e.as_str())),
        Ok(o) => Ok(trimmed(o.stdout.as_str())),
    }
}

// ---------------------------------------------------------------------------
// Finding the IP address
// ---------------------------------------------------------------------------

/// The probes tried in turn: the route to the internet (0), the addresses of
/// `wlan0`, `eth0` and `wlan1` (1 to 3), `ifconfig wlan0` (4), and all
/// addresses (5).
pub open spec fn last_probe() -> u8 {
    5
}

pub open spec fn probe_interface(step: u8) -> Seq<char> {
    if step == 1 {
        "wlan0"@
    } else if step == 2 {
        "eth0"@
    } else {
        "wlan1"@
    }
}

/// The command of a probe, without the executable.
pub open spec fn probe_command(device_id: Seq<char>, step: u8) -> Seq<Seq<char>> {
    seq!["-s"@, device_id, "shell"@] + if step == 0 {
        seq!["ip"@, "route"@, "get"@, "8.8.8.8"@]
    } else if step <= 3 {
        seq!["ip"@, "addr"@, "show"@, probe_interface(step)]
    } else if step == 4 {
        seq!["ifconfig"@, "wlan0"@]
    } else {
        seq!["ip"@, "addr"@, "show"@]
    }
}

pub fn probe_args(device_id: &str, step: u8) -> (r: Vec<String>)
    requires
        step <= last_probe(),
    ensures
        strs(r@) == probe_command(device_id@, step),
{
    let mut v: Vec<String> = Vec::new();
    push_str_copy(&mut v, "-s");
    push_str_copy(&mut v, device_id);
    push_str_copy(&mut v, "shell");
    if step == 0 {
        push_str_copy(&mut v, "ip");
        push_str_copy(&mut v, "route");
        push_str_copy(&mut v, "get");
        push_str_copy(&mut v, "8.8.8.8");
    } else if step <= 3 {
        push_str_copy(&mut v, "ip");
        push_str_copy(&mut v, "addr");
        push_str_copy(&mut v, "show");
        push_str_copy(&mut v, if step == 1 { "wlan0" } else if step == 2 { "eth0" } else { "wlan1" });
    } else if step == 4 {
        push_str_copy(&mut v, "ifconfig");
        push_str_copy(&mut v, "wlan0");
    } else {
        push_str_copy(&mut v, "ip");
        push_str_copy(&mut v, "addr");
        push_str_copy(&mut v, "show");
    }
    assert(strs(v@) =~= probe_command(device_id@, step));
    v
}

/// The first word after the first occurrence of `marker`.
pub open spec fn word_after(out: Seq<char>, marker: Seq<char>) -> Option<Seq<char>> {
    match find(out, marker) {
        Some(i) => {
            let ws = words(out.skip(i + marker.len()));
            if ws.len() > 0 {
                Some(ws[0])
            } else {
                None
            }
        },
        None => None,
    }
}

fn word_after_exec(out: &Vec<char>, marker: &str) -> (r: Option<Vec<char>>)
    ensures
        match r {
            Some(v) => word_after(out@, marker@) == Some(v@),
            None => word_after(out@, marker@) is None,
        },
{
    let m = chars_of(marker);
    match find_chars(out, &m) {
        Some(i) => {
            let rest = slice_chars(out, i + m.len(), out.len());
            assert(rest@ =~= out@.skip(i + m.len()));
            let ws = split_whitespace(&rest);
            if ws.len() > 0 {
                assert(dv(ws@)[0] == ws@[0]@);
                Some(slice_chars(&ws[0], 0, ws[0].len()))
            } else {
                None
            }
        },
        None => None,
    }
}

/// The text before the first `/` (the address without its prefix length).
pub open spec fn before_slash(w: Seq<char>) -> Seq<char> {
    let ps = split_str(w, "/"@);
    if ps.len() > 0 {
        ps[0]
    } else {
        w
    }
}

fn before_slash_exec(w: &Vec<char>) -> (r: Vec<char>)
    ensures
        r@ == before_slash(w@),
{
    let slash = chars_of("/");
    proof {
        reveal_strlit("/");
    }
    let ps = split_str_chars(w, &slash);
    if ps.len() > 0 {
        assert(dv(ps@)[0] == ps@[0]@);
        slice_chars(&ps[0], 0, ps[0].len())
    } else {
        slice_chars(w, 0, w.len())
    }
}

/// An `inet` line of one interface: trimmed, it starts with `inet ` and has a
/// second field.
pub open spec fn inet_line(l: Seq<char>) -> bool {
    starts_with(trim(l), "inet "@) && words(l).len() > 1
}

pub open spec fn inet_test() -> spec_fn(Seq<char>) -> bool {
    |l: Seq<char>| inet_line(l)
}

/// A line of the full address list that may name the address: it holds
/// `inet ` (trimmed) and not the loopback address.
pub open spec fn candidate_line(l: Seq<char>) -> bool {
    contains(trim(l), "inet "@) && !contains(l, "127.0.0.1"@)
}

/// `str::replace` with a non-empty pattern: the pieces between occurrences
/// joined by the replacement.
pub open spec fn replace_all(s: Seq<char>, pat: Seq<char>, to: Seq<char>) -> Seq<char> {
    joined(split_str(s, pat), to)
}

/// The address a candidate line names: its first field holding a `.`, with
/// `addr:` removed and the prefix length cut, if it has four dotted parts.
pub open spec fn candidate_ip(l: Seq<char>) -> Option<Seq<char>> {
    if candidate_line(l) {
        match first_where(words(l), crate::text::contains_test("."@), 0) {
            Some(i) => {
                let ip = before_slash(replace_all(words(l)[i], "addr:"@, ""@));
                if split_str(ip, "."@).len() == 4 {
                    Some(ip)
                } else {
                    None
                }
            },
            None => None,
        }
    } else {
        None
    }
}

pub open spec fn candidate_from(ls: Seq<Seq<char>>, i: int) -> Option<Seq<char>>
    decreases ls.len() - i,
{
    if i < 0 || i >= ls.len() {
        None
    } else {
        match candidate_ip(ls[i]) {
            Some(ip) => Some(ip),
            None => candidate_from(ls, i + 1),
        }
    }
}

/// What a probe's output tells of the address.
pub open spec fn probe_result(step: u8, out: Seq<char>) -> Option<Seq<char>> {
    if step == 0 {
        word_after(out, "src "@)
    } else if step <= 3 {
        let ls = lines(out);
        match first_where(ls, inet_test(), 0) {
            Some(i) => Some(before_slash(words(ls[i])[1])),
            None => None,
        }
    } else if step == 4 {
        word_after(out, "addr:"@)
    } else {
        candidate_from(lines(out), 0)
    }
}

fn concat_pieces(ps: &Vec<Vec<char>>) -> (r: Vec<char>)
    ensures
        r@ == joined(dv(ps@), ""@),
{
    let ghost d = dv(ps@);
    let mut out: Vec<char> = Vec::new();
    let mut k: usize = 0;
    proof {
        reveal_strlit("");
    }
    while k < ps.len()
        invariant
            k <= ps.len(),
            d == dv(ps@),
            ""@ == Seq::<char>::empty(),
            out@ == joined(d.take(k as int), ""@),
        decreases ps.len() - k,
    {
        let p = &ps[k];
        let ghost base = out@;
        let mut m: usize = 0;
        while m < p.len()
            invariant
                m <= p.len(),
                out@ == base + p@.take(m as int),
            decreases p.len() - m,
        {
            out.push(p[m]);
            m = m + 1;
            assert(out@ =~= base + p@.take(m as int));
        }
        proof {
            assert(p@.take(p.len() as int) =~= p@);
            let t = d.take(k + 1);
            assert(t.drop_last() =~= d.take(k as int));
            assert(t.last() == p@);
            if k == 0 {
                assert(t =~= seq![p@]);
                assert(out@ =~= p@);
            } else {
                assert(out@ =~= joined(t.drop_last(), ""@) + ""@ + t.last());
            }
        }
        k = k + 1;
    }
    assert(d.take(ps.len() as int) =~= d);
    out
}

fn candidate_ip_exec(l: &Vec<char>) -> (r: Option<Vec<char>>)
    ensures
        match r {
            Some(v) => candidate_ip(l@) == Some(v@),
            None => candidate_ip(l@) is None,
        },
{
    let t = trimmed_chars(l);
    if !(contains_str(&t, "inet ") && !contains_str(l, "127.0.0.1")) {
        return None;
    }
    let ws = split_whitespace(l);
    let test = crate::text::LineTest::Contains(chars_of("."));
    match crate::text::first_line_where(&ws, &test) {
        Some(i) => {
            assert(dv(ws@)[i as int] == ws@[i as int]@);
            let addr = chars_of("addr:");
            proof {
                reveal_strlit("addr:");
            }
            let pieces = split_str_chars(&ws[i], &addr);
            let cleaned = concat_pieces(&pieces);
            let ip = before_slash_exec(&cleaned);
            let dot = chars_of(".");
            proof {
                reveal_strlit(".");
            }
            let parts = split_str_chars(&ip, &dot);
            if parts.len() == 4 {
                Some(ip)
            } else {
                None
            }
        },
        None => None,
    }
}

/// Reads a probe's output.
pub fn probe_ip(step: u8, stdout: &str) -> (r: Option<String>)
    requires
        step <= last_probe(),
    ensures
        match r {
            Some(ip) => probe_result(step, stdout@) == Some(ip@),
            None => probe_result(step, stdout@) is None,
        },
{
    let out = chars_of(stdout);
    if step == 0 {
        match word_after_exec(&out, "src ") {
            Some(w) => Some(string_of(w.as_slice())),
            None => None,
        }
    } else if step <= 3 {
        let ls = text_lines(stdout);
        let ghost d = dv(ls@);
        let mut i: usize = 0;
        while i < ls.len()
            invariant
                i <= ls.len(),
                d == dv(ls@),
                d == lines(stdout@),
                step > 0 && step <= 3,
                first_where(d, inet_test(), 0) == first_where(d, inet_test(), i as int),
            decreases ls.len() - i,
        {
            assert(d[i as int] == ls@[i as int]@);
            let t = trimmed_chars(&ls[i]);
            let ws = split_whitespace(&ls[i]);
            if starts_with_chars(&t, &chars_of("inet ")) && ws.len() > 1 {
                assert(dv(ws@)[1] == ws@[1]@);
                let ip = before_slash_exec(&ws[1]);
                assert(inet_line(d[i as int]));
                assert(first_where(d, inet_test(), i as int) == Some(i as int));
                return Some(string_of(ip.as_slice()));
            }
            i = i + 1;
        }
        None
    } else if step == 4 {
        match word_after_exec(&out, "addr:") {
            Some(w) => Some(string_of(w.as_slice())),
            None => None,
        }
    } else {
        let ls = text_lines(stdout);
        let ghost d = dv(ls@);
        let mut i: usize = 0;
        while i < ls.len()
            invariant
                i <= ls.len(),
                d == dv(ls@),
                d == lines(stdout@),
                step > 4,
                candidate_from(d, 0) == candidate_from(d, i as int),
            decreases ls.len() - i,
        {
            assert(d[i as int] == ls@[i as int]@);
            match candidate_ip_exec(&ls[i]) {
                Some(ip) => {
                    assert(candidate_from(d, i as int) == Some(ip@));
                    return Some(string_of(ip.as_slice()));
                },
                None => {},
            }
            i = i + 1;
        }
        None
    }
}

/// What to do after a probe.
pub enum IpSearch {
    /// The address was found.
    Found(String),
    /// Run this probe next.
    Probe(u8),
    /// No probe named an address.
    GiveUp(String),
}

/// The next move of the address search after probe `step`, given its output
/// (`None` when the command could not run).
pub open spec fn ip_search_next(r: IpSearch, step: u8, stdout: Option<Seq<char>>) -> bool {
    let found = match stdout {
        Some(s) => probe_result(step, s),
        None => None,
    };
    match found {
        Some(ip) => r matches IpSearch::Found(v) && v@ == ip,
        None => if step < last_probe() {
            r matches IpSearch::Probe(n) && n == step + 1
        } else {
            r matches IpSearch::GiveUp(m) && m@ == "Could not determine IP. Ensure WiFi is connected."@
        },
    }
}

pub fn get_device_ip(step: u8, stdout: Option<&str>) -> (r: IpSearch)
    requires
        step <= last_probe(),
    ensures
        ip_search_next(
            r,
            step,
            match stdout {
                Some(s) => Some(s@),
                None => None,
            },
        ),
{
    let found = match stdout {
        Some(s) => probe_ip(step, s),
        None => None,
    };
    match found {
        Some(ip) => IpSearch::Found(ip),
        None => {
            if step < 5 {
                IpSearch::Probe(step + 1)
            } else {
                IpSearch::GiveUp("Could not determine IP. Ensure WiFi is connected.".to_string())
            }
        },
    }
}

} // verus!
