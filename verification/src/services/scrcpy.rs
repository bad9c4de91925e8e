// scrcpy screen mirroring: server configuration, session status, the H.264
// stream splitter, and the control messages sent to the device.
use vstd::prelude::*;

use crate::error::AppError;
use vstd::string::StringSliceAdditionalSpecFns;
use crate::adb::command_builder::{args_of, strs};
use crate::encoding::{base64_standard, be_bytes, encode_base64, push_be};
use crate::text::{decimal, signed_decimal, string_of};

verus! {

/// Where the server jar is pushed on the device.
pub open spec fn server_path() -> Seq<char> {
    "/data/local/tmp/scrcpy-server.jar"@
}

/// Server configuration.
#[derive(Debug, Clone)]
pub struct ScrcpyConfig {
    pub max_size: u32,
    pub bit_rate: u32,
    pub max_fps: u8,
    pub lock_video_orientation: i8,
    pub tunnel_forward: bool,
    pub send_frame_meta: bool,
    pub control: bool,
    pub display_id: u32,
    pub show_touches: bool,
    pub stay_awake: bool,
    pub power_off_on_close: bool,
    pub cleanup: bool,
    pub power_on: bool,
}

impl Default for ScrcpyConfig {
    fn default() -> (r: Self)
        ensures
            r.max_size == 512,
            r.bit_rate == 4_000_000,
            r.max_fps == 30,
            r.lock_video_orientation == -1,
            r.tunnel_forward,
            !r.send_frame_meta,
            r.control,
            r.display_id == 0,
            !r.show_touches,
            r.stay_awake,
            !r.power_off_on_close,
            r.cleanup,
            r.power_on,
    {
        ScrcpyConfig {
            max_size: 512,
            bit_rate: 4_000_000,
            max_fps: 30,
            lock_video_orientation: -1,
            tunnel_forward: true,
            send_frame_meta: false,
            control: true,
            display_id: 0,
            show_touches: false,
            stay_awake: true,
            power_off_on_close: false,
            cleanup: true,
            power_on: true,
        }
    }
}

/// Whether a device is mirrored, and on which port.
#[derive(Debug, Clone)]
pub struct ScrcpyStatus {
    pub running: bool,
    pub device_id: Option<String>,
    pub port: Option<u16>,
    pub codec_info: Option<Vec<u8>>,
}

/// `st` is the status of `device_id` whose session uses `session_port`, if it
/// has one: running exactly when there is a session, with that port, the
/// device named only then, and no codec information.
pub open spec fn status_fields(st: ScrcpyStatus, device_id: Seq<char>, session_port: Option<u16>) -> bool {
    &&& st.running == session_port is Some
    &&& st.port == session_port
    &&& st.codec_info is None
    &&& match session_port {
        Some(_) => st.device_id matches Some(d) && d@ == device_id,
        None => st.device_id is None,
    }
}

/// The status of `device_id` given the video port of its session, if it has one.
pub fn get_status(device_id: &str, session_port: Option<u16>) -> (r: ScrcpyStatus)
    ensures
        status_fields(r, device_id@, session_port),
{
    match session_port {
        Some(port) => ScrcpyStatus {
            running: true,
            device_id: Some(device_id.to_string()),
            port: Some(port),
            codec_info: None,
        },
        None => ScrcpyStatus { running: false, device_id: None, port: None, codec_info: None },
    }
}

/// Frames are streamed as events; reading single frames is not supported.
pub fn read_video_frame(_device_id: &str) -> (r: Result<Vec<u8>, AppError>)
    ensures
        r matches Err(e) && e.is("DEPRECATED"@, "Use event-based streaming"@, None),
{
    Err(AppError::new("DEPRECATED", "Use event-based streaming"))
}

// ---------------------------------------------------------------------------
// H.264 Annex-B stream splitting
// ---------------------------------------------------------------------------

/// A start code (`00 00 01` or `00 00 00 01`) begins at `i`, with at least one
/// byte after the first three.
pub open spec fn start_code_at(d: Seq<u8>, i: int) -> bool {
    &&& 0 <= i
    &&& i + 3 < d.len()
    &&& d[i] == 0
    &&& d[i + 1] == 0
    &&& (d[i + 2] == 1 || (d[i + 2] == 0 && d[i + 3] == 1))
}

/// The first start code at or after `i`.
pub open spec fn find_start_from(d: Seq<u8>, i: int) -> Option<int>
    decreases d.len() - i,
{
    if i < 0 || i + 3 >= d.len() {
        None
    } else if start_code_at(d, i) {
        Some(i)
    } else {
        find_start_from(d, i + 1)
    }
}

pub open spec fn find_start(d: Seq<u8>) -> Option<int> {
    find_start_from(d, 0)
}

/// The length of the start code at the front of `b`.
pub open spec fn prefix_len(b: Seq<u8>) -> int {
    if b.len() > 3 && b[2] == 0 && b[3] == 1 {
        4
    } else {
        3
    }
}

/// What one extraction does to buffer `old`: `(returned unit, buffer after)`.
/// Bytes before the first start code are dropped; a unit runs from that start
/// code to the next one.
pub open spec fn next_nal(old: Seq<u8>) -> (Option<Seq<u8>>, Seq<u8>) {
    match find_start(old) {
        None => (None, old),
        Some(s) => {
            let b = old.skip(s);
            let p = prefix_len(b);
            match find_start(b.skip(p)) {
                None => (None, b),
                Some(o) => (Some(b.take(p + o)), b.skip(p + o)),
            }
        },
    }
}

pub proof fn lemma_find_start_from(d: Seq<u8>, i: int)
    requires
        0 <= i,
    ensures
        find_start_from(d, i) matches Some(k) ==> i <= k && start_code_at(d, k) && forall|j: int|
            i <= j < k ==> !start_code_at(d, j),
        find_start_from(d, i) is None ==> forall|j: int| i <= j ==> !start_code_at(d, j),
    decreases d.len() - i,
{
    if i + 3 >= d.len() {
    } else if !start_code_at(d, i) {
        lemma_find_start_from(d, i + 1);
    }
}

fn find_start_exec(d: &[u8], from: usize) -> (r: Option<usize>)
    requires
        from <= d.len(),
    ensures
        match r {
            Some(k) => find_start_from(d@, from as int) == Some(k as int) && from <= k && k + 3 < d.len(),
            None => find_start_from(d@, from as int) is None,
        },
{
    let mut i = from;
    while d.len() - i > 3
        invariant
            from <= i <= d.len(),
            find_start_from(d@, from as int) == find_start_from(d@, i as int),
        decreases d.len() - i,
    {
        if d[i] == 0 && d[i + 1] == 0 && (d[i + 2] == 1 || (d[i + 2] == 0 && d[i + 3] == 1)) {
            return Some(i);
        }
        i = i + 1;
    }
    None
}

fn copy_range(d: &Vec<u8>, start: usize, end: usize) -> (r: Vec<u8>)
    requires
        start <= end <= d.len(),
    ensures
        r@ == d@.subrange(start as int, end as int),
{
    let mut out: Vec<u8> = Vec::new();
    let mut i = start;
    while i < end
        invariant
            start <= i <= end <= d.len(),
            out@ == d@.subrange(start as int, i as int),
        decreases end - i,
    {
        out.push(d[i]);
        i = i + 1;
        assert(out@ =~= d@.subrange(start as int, i as int));
    }
    out
}

/// Takes the next complete NAL unit (start code included) off the front of the
/// buffer, dropping any bytes before its start code. Returns `None` while no
/// second start code marks where the unit ends.
pub fn extract_next_nal(nal_buffer: &mut Vec<u8>) -> (r: Option<Vec<u8>>)
    ensures
        match r {
            Some(v) => next_nal(old(nal_buffer)@).0 == Some(v@),
            None => next_nal(old(nal_buffer)@).0 is None,
        },
        final(nal_buffer)@ == next_nal(old(nal_buffer)@).1,
{
    let start_idx = match find_start_exec(nal_buffer.as_slice(), 0) {
        Some(idx) => idx,
        None => return None,
    };
    let ghost old_buf = nal_buffer@;
    if start_idx > 0 {
        let rest = copy_range(nal_buffer, start_idx, nal_buffer.len());
        *nal_buffer = rest;
    }
    proof {
        assert(nal_buffer@ =~= old_buf.skip(start_idx as int));
    }
    let prefix_len: usize = if nal_buffer.len() > 3 && nal_buffer[2] == 0 && nal_buffer[3] == 1 {
        4
    } else {
        3
    };
    let tail = copy_range(nal_buffer, prefix_len, nal_buffer.len());
    proof {
        assert(tail@ =~= nal_buffer@.skip(prefix_len as int));
    }
    let offset = match find_start_exec(tail.as_slice(), 0) {
        Some(o) => o,
        None => return None,
    };
    let end_idx = prefix_len + offset;
    let nal_unit = copy_range(nal_buffer, 0, end_idx);
    let remaining = copy_range(nal_buffer, end_idx, nal_buffer.len());
    proof {
        assert(nal_unit@ =~= nal_buffer@.take(end_idx as int));
        assert(remaining@ =~= nal_buffer@.skip(end_idx as int));
    }
    *nal_buffer = remaining;
    Some(nal_unit)
}

/// Extraction loses nothing and invents nothing: the dropped bytes, the unit
/// and what is left are the old buffer, in order. A unit begins with a start
/// code, and no start code begins inside it after its own.
pub proof fn law_extraction_partitions_buffer(old: Seq<u8>)
    ensures
        next_nal(old).0 matches Some(unit) ==> {
            let s = find_start(old)->0;
            let b = unit + next_nal(old).1;
            &&& old == old.take(s) + b
            &&& start_code_at(b, 0)
            &&& start_code_at(b, unit.len() as int)
            &&& forall|j: int| prefix_len(b) <= j < unit.len() ==> !start_code_at(b, j)
        },
        next_nal(old).0 is None ==> old.len() >= next_nal(old).1.len() && old.skip(
            old.len() - next_nal(old).1.len(),
        ) == next_nal(old).1,
{
    lemma_find_start_from(old, 0);
    match find_start(old) {
        None => {
            assert(old.skip(0) =~= old);
        },
        Some(s) => {
            let b = old.skip(s);
            let p = prefix_len(b);
            let t = b.skip(p);
            lemma_find_start_from(t, 0);
            match find_start(t) {
                None => {
                    assert(old.skip(old.len() - b.len()) =~= b);
                },
                Some(o) => {
                    let unit = b.take(p + o);
                    let rest = b.skip(p + o);
                    assert(unit + rest =~= b);
                    assert(old =~= old.take(s) + b);
                    assert(start_code_at(old, s));
                    assert(start_code_at(b, 0));
                    assert(start_code_at(t, o));
                    assert(start_code_at(b, p + o));
                    assert forall|j: int| p <= j < unit.len() implies !start_code_at(b, j) by {
                        assert(!start_code_at(t, j - p));
                        if j + 3 < b.len() {
                            assert(t[j - p] == b[j] && t[j - p + 1] == b[j + 1] && t[j - p + 2]
                                == b[j + 2] && t[j - p + 3] == b[j + 3]);
                        }
                    }
                },
            }
        },
    }
}


// ---------------------------------------------------------------------------
// The streaming state: buffered bytes and the cached stream headers
// ---------------------------------------------------------------------------

pub proof fn lemma_next_nal_shrinks(buf: Seq<u8>)
    ensures
        next_nal(buf).0 is Some ==> next_nal(buf).1.len() < buf.len(),
        next_nal(buf).1.len() <= buf.len(),
{
    lemma_find_start_from(buf, 0);
    match find_start(buf) {
        None => {},
        Some(s) => {
            let b = buf.skip(s);
            lemma_find_start_from(b.skip(prefix_len(b)), 0);
        },
    }
}

/// All complete units of `buf`, in order, and what stays buffered after them.
pub open spec fn drain(buf: Seq<u8>) -> (Seq<Seq<u8>>, Seq<u8>)
    decreases buf.len(),
{
    match next_nal(buf).0 {
        None => (Seq::empty(), next_nal(buf).1),
        Some(u) => {
            proof {
                lemma_next_nal_shrinks(buf);
            }
            let d = drain(next_nal(buf).1);
            (seq![u] + d.0, d.1)
        },
    }
}

proof fn lemma_find_start_extends(d: Seq<u8>, x: Seq<u8>, i: int)
    requires
        0 <= i,
        find_start_from(d, i) is Some,
    ensures
        find_start_from(d + x, i) == find_start_from(d, i),
    decreases d.len() - i,
{
    let e = d + x;
    if start_code_at(d, i) {
        assert(e[i] == d[i] && e[i + 1] == d[i + 1] && e[i + 2] == d[i + 2] && e[i + 3] == d[i + 3]);
    } else {
        assert(i + 3 < d.len());
        assert(e[i] == d[i] && e[i + 1] == d[i + 1] && e[i + 2] == d[i + 2] && e[i + 3] == d[i + 3]);
        lemma_find_start_extends(d, x, i + 1);
    }
}

/// Reading more bytes never changes a split already made: once the buffer
/// starts at a start code and holds a unit, appending bytes leaves that unit
/// and appends the bytes to what remains; when it holds none yet, it is read
/// as if the skipped bytes had never been there.
proof fn lemma_next_nal_extends(buf: Seq<u8>, x: Seq<u8>)
    ensures
        next_nal(buf).0 matches Some(u) ==> next_nal(buf + x) == (Some(u), next_nal(buf).1 + x),
        next_nal(buf).0 is None ==> next_nal(buf + x) == next_nal(next_nal(buf).1 + x),
{
    match find_start(buf) {
        None => {},
        Some(s) => {
            lemma_find_start_from(buf, 0);
            lemma_find_start_extends(buf, x, 0);
            let b = buf.skip(s);
            assert((buf + x).skip(s) =~= b + x);
            let p = prefix_len(b);
            assert(b[0] == buf[s] && b[1] == buf[s + 1] && b[2] == buf[s + 2] && b[3] == buf[s + 3]);
            assert(prefix_len(b + x) == p);
            let t = b.skip(p);
            assert((b + x).skip(p) =~= t + x);
            lemma_find_start_from(b + x, 0);
            assert(start_code_at(b + x, 0));
            assert(find_start(b + x) == Some(0int));
            assert((b + x).skip(0) =~= b + x);
            match find_start(t) {
                None => {
                    assert(next_nal(buf).1 == b);
                },
                Some(o) => {
                    lemma_find_start_from(t, 0);
                    lemma_find_start_extends(t, x, 0);
                    assert((b + x).take(p + o) =~= b.take(p + o));
                    assert((b + x).skip(p + o) =~= b.skip(p + o) + x);
                },
            }
        },
    }
}

/// Chunking does not matter: the units drained from a buffer that grows by
/// `x` are the units drained before, then those drained from what was left
/// with `x` appended; and both leave the same bytes buffered.
pub proof fn law_drain_ignores_chunking(buf: Seq<u8>, x: Seq<u8>)
    ensures
        drain(buf + x).0 == drain(buf).0 + drain(drain(buf).1 + x).0,
        drain(buf + x).1 == drain(drain(buf).1 + x).1,
    decreases buf.len(),
{
    lemma_next_nal_extends(buf, x);
    lemma_next_nal_shrinks(buf);
    match next_nal(buf).0 {
        None => {
            let r = next_nal(buf).1;
            assert(drain(buf) == (Seq::<Seq<u8>>::empty(), r));
            assert(next_nal(buf + x) == next_nal(r + x));
            assert(drain(buf + x) == drain(r + x));
            assert(Seq::<Seq<u8>>::empty() + drain(r + x).0 =~= drain(r + x).0);
        },
        Some(u) => {
            let rest = next_nal(buf).1;
            law_drain_ignores_chunking(rest, x);
            assert(next_nal(buf + x) == (Some(u), rest + x));
            assert(drain(buf + x).0 == seq![u] + drain(rest + x).0);
            assert(drain(buf).0 == seq![u] + drain(rest).0);
            assert(seq![u] + (drain(rest).0 + drain(drain(rest).1 + x).0) =~= (seq![u] + drain(rest).0)
                + drain(drain(rest).1 + x).0);
        },
    }
}

/// The cached headers: last SPS, last PPS, last IDR frame.
pub type HeaderCache = (Option<Seq<u8>>, Option<Seq<u8>>, Option<Seq<u8>>);

pub open spec fn cache_update(c: HeaderCache, u: Seq<u8>) -> HeaderCache {
    match cached_kind(u) {
        Some(CachedUnit::Sps) => (Some(u), c.1, c.2),
        Some(CachedUnit::Pps) => (c.0, Some(u), c.2),
        Some(CachedUnit::Idr) => (c.0, c.1, Some(u)),
        None => c,
    }
}

/// The cache after the units `us` have streamed past, in order.
pub open spec fn cache_all(c: HeaderCache, us: Seq<Seq<u8>>) -> HeaderCache
    decreases us.len(),
{
    if us.len() == 0 {
        c
    } else {
        cache_update(cache_all(c, us.drop_last()), us.last())
    }
}

pub open spec fn opt_bytes(o: Option<Vec<u8>>) -> Option<Seq<u8>> {
    match o {
        Some(v) => Some(v@),
        None => None,
    }
}

/// The cached headers that are present, in the order SPS, PPS, IDR.
pub open spec fn present_headers(c: HeaderCache) -> Seq<Seq<u8>> {
    (if c.0 is Some { seq![c.0->0] } else { Seq::empty() })
        + (if c.1 is Some { seq![c.1->0] } else { Seq::empty() })
        + (if c.2 is Some { seq![c.2->0] } else { Seq::empty() })
}

/// The base64 texts of a sequence of units.
pub open spec fn encoded(us: Seq<Seq<u8>>) -> Seq<Seq<char>> {
    Seq::new(us.len(), |i: int| base64_standard(us[i]))
}

/// What one mirrored device's stream keeps between reads.
pub struct FrameStream {
    pub nal_buffer: Vec<u8>,
    pub last_sps: Option<Vec<u8>>,
    pub last_pps: Option<Vec<u8>>,
    pub last_idr: Option<Vec<u8>>,
}

impl FrameStream {
    pub open spec fn cache(&self) -> HeaderCache {
        (opt_bytes(self.last_sps), opt_bytes(self.last_pps), opt_bytes(self.last_idr))
    }

    pub fn new() -> (r: Self)
        ensures
            r.nal_buffer@.len() == 0,
            r.cache() == (None::<Seq<u8>>, None::<Seq<u8>>, None::<Seq<u8>>),
    {
        FrameStream { nal_buffer: Vec::new(), last_sps: None, last_pps: None, last_idr: None }
    }

    /// Takes in bytes read from the video socket. Every complete unit is
    /// cached if it is a header and handed back base64-encoded, in order; the
    /// rest stays buffered.
    pub fn feed(&mut self, chunk: &[u8]) -> (r: Vec<String>)
        ensures
            final(self).nal_buffer@ == drain(old(self).nal_buffer@ + chunk@).1,
            final(self).cache() == cache_all(old(self).cache(), drain(old(self).nal_buffer@ + chunk@).0),
            strs(r@) == encoded(drain(old(self).nal_buffer@ + chunk@).0),
    {
        let ghost total = old(self).nal_buffer@ + chunk@;
        let ghost c0 = old(self).cache();
        let mut i: usize = 0;
        while i < chunk.len()
            invariant
                i <= chunk.len(),
                self.nal_buffer@ == old(self).nal_buffer@ + chunk@.take(i as int),
                self.cache() == c0,
            decreases chunk.len() - i,
        {
            self.nal_buffer.push(chunk[i]);
            i = i + 1;
            assert(self.nal_buffer@ =~= old(self).nal_buffer@ + chunk@.take(i as int));
        }
        assert(chunk@.take(chunk.len() as int) =~= chunk@);
        let mut out: Vec<String> = Vec::new();
        let ghost mut done: Seq<Seq<u8>> = Seq::empty();
        assert(done + drain(self.nal_buffer@).0 =~= drain(self.nal_buffer@).0);
        loop
            invariant_except_break
                drain(total).0 == done + drain(self.nal_buffer@).0,
                drain(total).1 == drain(self.nal_buffer@).1,
            invariant
                self.cache() == cache_all(c0, done),
                strs(out@) == encoded(done),
            ensures
                drain(total).0 == done,
                drain(total).1 == self.nal_buffer@,
            decreases self.nal_buffer@.len(),
        {
            let ghost before = self.nal_buffer@;
            proof {
                lemma_next_nal_shrinks(before);
            }
            match extract_next_nal(&mut self.nal_buffer) {
                None => {
                    assert(done + Seq::<Seq<u8>>::empty() =~= done);
                    break;
                },
                Some(u) => {
                    let text = encode_base64(u.as_slice());
                    let ghost ob = out@;
                    out.push(text);
                    proof {
                        assert(strs(out@) =~= strs(ob).push(base64_standard(u@)));
                    }
                    let slot = cache_slot(u.as_slice());
                    match slot {
                        Some(CachedUnit::Sps) => {
                            self.last_sps = Some(u);
                        },
                        Some(CachedUnit::Pps) => {
                            self.last_pps = Some(u);
                        },
                        Some(CachedUnit::Idr) => {
                            self.last_idr = Some(u);
                        },
                        None => {},
                    }
                    proof {
                        let nd = done.push(u@);
                        assert(nd.drop_last() =~= done);
                        assert(strs(out@) =~= encoded(nd));
                        assert(nd + drain(self.nal_buffer@).0 =~= done + (seq![u@] + drain(
                            self.nal_buffer@,
                        ).0));
                        done = nd;
                    }
                },
            }
        }
        out
    }

    /// The cached headers, base64-encoded, that bring a newly opened view up
    /// to date: SPS, PPS, then IDR frame, each where one has been seen.
    pub fn sync_payloads(&self) -> (r: Vec<String>)
        ensures
            strs(r@) == encoded(present_headers(self.cache())),
    {
        let mut out: Vec<String> = Vec::new();
        let ghost mut sent: Seq<Seq<u8>> = Seq::empty();
        if let Some(v) = &self.last_sps {
            out.push(encode_base64(v.as_slice()));
            proof { sent = sent.push(v@); }
        }
        assert(sent =~= (if self.cache().0 is Some { seq![self.cache().0->0] } else { Seq::empty() }));
        let ghost s1 = sent;
        if let Some(v) = &self.last_pps {
            out.push(encode_base64(v.as_slice()));
            proof { sent = sent.push(v@); }
        }
        assert(sent =~= s1 + (if self.cache().1 is Some { seq![self.cache().1->0] } else { Seq::empty() }));
        let ghost s2 = sent;
        if let Some(v) = &self.last_idr {
            out.push(encode_base64(v.as_slice()));
            proof { sent = sent.push(v@); }
        }
        assert(sent =~= s2 + (if self.cache().2 is Some { seq![self.cache().2->0] } else { Seq::empty() }));
        assert(sent =~= present_headers(self.cache()));
        assert(strs(out@) =~= encoded(sent));
        out
    }
}

// ---------------------------------------------------------------------------
// Control messages: one type byte, then the big-endian payload
// ---------------------------------------------------------------------------

/// A key event (type 0): action, key code, repeat count 0, meta state.
pub open spec fn key_message(action: u8, keycode: u32, metastate: u32) -> Seq<u8> {
    seq![0u8, action] + be_bytes(keycode as nat, 4) + be_bytes(0, 4) + be_bytes(metastate as nat, 4)
}

/// A text event (type 1): the UTF-8 length as a 32-bit count, then the bytes.
pub open spec fn text_message(text: Seq<u8>) -> Seq<u8> {
    seq![1u8] + be_bytes(text.len(), 4) + text
}

/// A touch event (type 2): action, pointer id 0, position, screen size (each
/// side taken modulo 2^16), full pressure, no action button, no buttons.
pub open spec fn touch_message(action: u8, x: u32, y: u32, width: u32, height: u32) -> Seq<u8> {
    seq![2u8, action] + be_bytes(0, 8) + be_bytes(x as nat, 4) + be_bytes(y as nat, 4) + be_bytes(
        width as nat,
        2,
    ) + be_bytes(height as nat, 2) + be_bytes(65535, 2) + be_bytes(0, 4) + be_bytes(0, 4)
}

/// The two's-complement 32-bit pattern of a signed amount.
pub open spec fn twos_complement(v: int) -> nat {
    (v % 4294967296) as nat
}

/// A scroll event (type 3): position, screen size, horizontal and vertical
/// amounts, no buttons.
pub open spec fn scroll_message(x: u32, y: u32, h_scroll: i32, v_scroll: i32, width: u32, height: u32) -> Seq<u8> {
    seq![3u8] + be_bytes(x as nat, 4) + be_bytes(y as nat, 4) + be_bytes(width as nat, 2) + be_bytes(
        height as nat,
        2,
    ) + be_bytes(twos_complement(h_scroll as int), 4) + be_bytes(twos_complement(v_scroll as int), 4)
        + be_bytes(0, 4)
}

/// A sanitized id has the length of the id and holds neither `.` nor `:`, so
/// it can stand in an event name.
pub proof fn law_sanitized_id_is_event_safe(id: Seq<char>)
    ensures
        sanitized(id).len() == id.len(),
        forall|i: int| 0 <= i < id.len() ==> sanitized(id)[i] != '.' && sanitized(id)[i] != ':',
{
}

/// Control messages have the sizes of the protocol: a touch event is one type
/// byte and 31 bytes of data, a scroll event 1 and 24, a key event 1 and 13,
/// a text event 1 and 4 and the text's bytes.
pub proof fn law_control_message_sizes(
    action: u8,
    x: u32,
    y: u32,
    w: u32,
    h: u32,
    hs: i32,
    vs: i32,
    keycode: u32,
    meta: u32,
    text: Seq<u8>,
)
    ensures
        touch_message(action, x, y, w, h).len() == 32,
        scroll_message(x, y, hs, vs, w, h).len() == 25,
        key_message(action, keycode, meta).len() == 14,
        text_message(text).len() == 5 + text.len(),
{
    crate::encoding::lemma_be_bytes_len(0, 8);
    crate::encoding::lemma_be_bytes_len(x as nat, 4);
    crate::encoding::lemma_be_bytes_len(y as nat, 4);
    crate::encoding::lemma_be_bytes_len(w as nat, 2);
    crate::encoding::lemma_be_bytes_len(h as nat, 2);
    crate::encoding::lemma_be_bytes_len(65535, 2);
    crate::encoding::lemma_be_bytes_len(0, 4);
    crate::encoding::lemma_be_bytes_len(twos_complement(hs as int), 4);
    crate::encoding::lemma_be_bytes_len(twos_complement(vs as int), 4);
    crate::encoding::lemma_be_bytes_len(keycode as nat, 4);
    crate::encoding::lemma_be_bytes_len(meta as nat, 4);
    crate::encoding::lemma_be_bytes_len(text.len(), 4);
}

fn bits_of_i32(v: i32) -> (r: u64)
    ensures
        r == twos_complement(v as int),
{
    if v < 0 {
        (v as i64 + 4294967296i64) as u64
    } else {
        v as u64
    }
}

/// The wire message of a key event.
pub fn key_event_message(action: u8, keycode: u32, metastate: u32) -> (r: Vec<u8>)
    ensures
        r@ == key_message(action, keycode, metastate),
{
    let mut m: Vec<u8> = Vec::new();
    m.push(0u8);
    m.push(action);
    push_be(&mut m, keycode as u64, 4);
    push_be(&mut m, 0, 4);
    push_be(&mut m, metastate as u64, 4);
    assert(m@ =~= key_message(action, keycode, metastate));
    m
}

/// The wire message of a text event.
pub fn text_event_message(text: &str) -> (r: Vec<u8>)
    ensures
        r@ == text_message(text.spec_bytes()),
{
    let bytes = text.as_bytes();
    let mut m: Vec<u8> = Vec::new();
    m.push(1u8);
    push_be(&mut m, bytes.len() as u64, 4);
    let mut i: usize = 0;
    let ghost head = m@;
    while i < bytes.len()
        invariant
            i <= bytes.len(),
            m@ == head + bytes@.take(i as int),
        decreases bytes.len() - i,
    {
        m.push(bytes[i]);
        i = i + 1;
        assert(m@ =~= head + bytes@.take(i as int));
    }
    assert(bytes@.take(bytes.len() as int) =~= bytes@);
    assert(m@ =~= text_message(text.spec_bytes()));
    m
}

/// The wire message of a touch event.
pub fn touch_event_message(action: u8, x: u32, y: u32, width: u32, height: u32) -> (r: Vec<u8>)
    ensures
        r@ == touch_message(action, x, y, width, height),
{
    let mut m: Vec<u8> = Vec::new();
    m.push(2u8);
    m.push(action);
    push_be(&mut m, 0, 8);
    push_be(&mut m, x as u64, 4);
    push_be(&mut m, y as u64, 4);
    push_be(&mut m, width as u64, 2);
    push_be(&mut m, height as u64, 2);
    push_be(&mut m, 65535, 2);
    push_be(&mut m, 0, 4);
    push_be(&mut m, 0, 4);
    assert(m@ =~= touch_message(action, x, y, width, height));
    m
}

/// The wire message of a scroll event.
pub fn scroll_event_message(x: u32, y: u32, h_scroll: i32, v_scroll: i32, width: u32, height: u32) -> (r: Vec<u8>)
    ensures
        r@ == scroll_message(x, y, h_scroll, v_scroll, width, height),
{
    let mut m: Vec<u8> = Vec::new();
    m.push(3u8);
    push_be(&mut m, x as u64, 4);
    push_be(&mut m, y as u64, 4);
    push_be(&mut m, width as u64, 2);
    push_be(&mut m, height as u64, 2);
    push_be(&mut m, bits_of_i32(h_scroll), 4);
    push_be(&mut m, bits_of_i32(v_scroll), 4);
    push_be(&mut m, 0, 4);
    assert(m@ =~= scroll_message(x, y, h_scroll, v_scroll, width, height));
    m
}

// ---------------------------------------------------------------------------
// Stream events and server launch
// ---------------------------------------------------------------------------

/// The NAL unit type of a unit longer than four bytes (the low five bits of the
/// byte after its start code).
pub open spec fn nal_type(nal: Seq<u8>) -> Option<u8> {
    if nal.len() > 4 {
        let b = if nal[2] == 0 && nal[3] == 1 { nal[4] } else { nal[3] };
        Some(b & 0x1f)
    } else {
        None
    }
}

/// Which cached parameter a unit replaces: 7 is a sequence parameter set, 8 a
/// picture parameter set, 5 an IDR frame.
#[derive(PartialEq, Eq, Structural)]
pub enum CachedUnit {
    Sps,
    Pps,
    Idr,
}

pub open spec fn cached_kind(nal: Seq<u8>) -> Option<CachedUnit> {
    match nal_type(nal) {
        Some(t) => if t == 7 {
            Some(CachedUnit::Sps)
        } else if t == 8 {
            Some(CachedUnit::Pps)
        } else if t == 5 {
            Some(CachedUnit::Idr)
        } else {
            None
        },
        None => None,
    }
}

/// The parameter cache slot a streamed unit goes to, if any.
pub fn cache_slot(nal: &[u8]) -> (r: Option<CachedUnit>)
    ensures
        r == cached_kind(nal@),
{
    if nal.len() > 4 {
        let b = if nal[2] == 0 && nal[3] == 1 { nal[4] } else { nal[3] };
        let t = b & 0x1f;
        if t == 7 {
            Some(CachedUnit::Sps)
        } else if t == 8 {
            Some(CachedUnit::Pps)
        } else if t == 5 {
            Some(CachedUnit::Idr)
        } else {
            None
        }
    } else {
        None
    }
}

/// A device id usable in an event name: `.` and `:` become `_`.
pub open spec fn sanitized(id: Seq<char>) -> Seq<char> {
    Seq::new(id.len(), |i: int| if id[i] == '.' || id[i] == ':' { '_' } else { id[i] })
}

pub fn sanitize_device_id(device_id: &str) -> (r: String)
    ensures
        r@ == sanitized(device_id@),
{
    let v = crate::text::chars_of(device_id);
    let mut out: Vec<char> = Vec::new();
    let mut i: usize = 0;
    while i < v.len()
        invariant
            i <= v.len(),
            out@ == sanitized(v@).take(i as int),
        decreases v.len() - i,
    {
        let c = v[i];
        out.push(if c == '.' || c == ':' { '_' } else { c });
        i = i + 1;
        assert(out@ =~= sanitized(v@).take(i as int));
    }
    assert(sanitized(v@).take(v.len() as int) =~= sanitized(v@));
    string_of(out.as_slice())
}

/// The event that carries the frames of a device.
pub fn frame_event_name(device_id: &str) -> (r: String)
    ensures
        r@ == "scrcpy-frame-"@ + sanitized(device_id@),
{
    let mut s = String::new();
    s.append("scrcpy-frame-");
    let id = sanitize_device_id(device_id);
    s.append(id.as_str());
    s
}

/// The private event on which one window receives the cached stream headers.
pub fn sync_event_name(window_label: &str, device_id: &str) -> (r: String)
    ensures
        r@ == "scrcpy-sync-"@ + window_label@ + "-"@ + sanitized(device_id@),
{
    let mut s = String::new();
    s.append("scrcpy-sync-");
    s.append(window_label);
    s.append("-");
    let id = sanitize_device_id(device_id);
    s.append(id.as_str());
    s
}

/// `true` / `false`.
pub open spec fn bool_text(b: bool) -> Seq<char> {
    if b {
        "true"@
    } else {
        "false"@
    }
}

/// The shell command that starts the server (client version 2.7, fixed session
/// id, control on, audio off).
pub open spec fn server_command(c: ScrcpyConfig) -> Seq<char> {
    "CLASSPATH="@ + server_path() + " app_process / com.genymobile.scrcpy.Server 2.7 scid=12345678 log_level=verbose max_size="@
        + decimal(c.max_size as nat) + " max_fps="@ + decimal(c.max_fps as nat)
        + " lock_video_orientation="@ + signed_decimal(c.lock_video_orientation as int)
        + " tunnel_forward="@ + bool_text(c.tunnel_forward) + " send_frame_meta="@ + bool_text(
        c.send_frame_meta,
    ) + " control=true display_id="@ + decimal(c.display_id as nat) + " show_touches="@
        + bool_text(c.show_touches) + " stay_awake="@ + bool_text(c.stay_awake)
        + " power_off_on_close="@ + bool_text(c.power_off_on_close) + " cleanup="@ + bool_text(
        c.cleanup,
    ) + " power_on="@ + bool_text(c.power_on) + " audio=false video=true"@
}

fn append_bool(s: &mut String, b: bool)
    ensures
        final(s)@ == old(s)@ + bool_text(b),
{
    if b {
        s.append("true");
    } else {
        s.append("false");
    }
}

fn append_u64(s: &mut String, n: u64)
    ensures
        final(s)@ == old(s)@ + decimal(n as nat),
{
    let t = crate::text::u64_to_string(n);
    s.append(t.as_str());
}

/// The shell command line that launches the server with this configuration.
pub fn server_command_line(config: &ScrcpyConfig) -> (r: String)
    ensures
        r@ == server_command(*config),
{
    let mut s = String::new();
    s.append("CLASSPATH=");
    s.append("/data/local/tmp/scrcpy-server.jar");
    s.append(" app_process / com.genymobile.scrcpy.Server 2.7 scid=12345678 log_level=verbose max_size=");
    append_u64(&mut s, config.max_size as u64);
    s.append(" max_fps=");
    append_u64(&mut s, config.max_fps as u64);
    s.append(" lock_video_orientation=");
    let o = crate::text::i64_to_string(config.lock_video_orientation as i64);
    s.append(o.as_str());
    s.append(" tunnel_forward=");
    append_bool(&mut s, config.tunnel_forward);
    s.append(" send_frame_meta=");
    append_bool(&mut s, config.send_frame_meta);
    s.append(" control=true display_id=");
    append_u64(&mut s, config.display_id as u64);
    s.append(" show_touches=");
    append_bool(&mut s, config.show_touches);
    s.append(" stay_awake=");
    append_bool(&mut s, config.stay_awake);
    s.append(" power_off_on_close=");
    append_bool(&mut s, config.power_off_on_close);
    s.append(" cleanup=");
    append_bool(&mut s, config.cleanup);
    s.append(" power_on=");
    append_bool(&mut s, config.power_on);
    s.append(" audio=false video=true");
    s
}


// ---------------------------------------------------------------------------
// Server session commands
// ---------------------------------------------------------------------------

/// The local port the video and control sockets are forwarded to.
pub const VIDEO_PORT: u16 = 27183;

/// `adb -s <device> shell pkill -f scrcpy` (one shell word), run before a
/// start, without the executable.
pub fn kill_existing_args(device_id: &str) -> (r: Vec<String>)
    ensures
        strs(r@) == seq!["-s"@, device_id@, "shell"@, "pkill -f scrcpy"@],
{
    let r = args_of(&["-s", device_id, "shell", "pkill -f scrcpy"]);
    assert(strs(r@) =~= seq!["-s"@, device_id@, "shell"@, "pkill -f scrcpy"@]);
    r
}

/// `adb -s <device> push <local jar> /data/local/tmp/scrcpy-server.jar`,
/// without the executable.
pub fn push_server_args(device_id: &str, local_jar: &str) -> (r: Vec<String>)
    ensures
        strs(r@) == seq!["-s"@, device_id@, "push"@, local_jar@, server_path()],
{
    let r = args_of(&["-s", device_id, "push", local_jar, "/data/local/tmp/scrcpy-server.jar"]);
    assert(strs(r@) =~= seq!["-s"@, device_id@, "push"@, local_jar@, server_path()]);
    r
}

/// The error when no server jar was found to push.
pub fn server_not_found() -> (r: AppError)
    ensures
        r.is("SERVER_NOT_FOUND"@, "scrcpy-server.jar not found. Please ensure it exists in src-tauri/resources/"@, None),
{
    AppError::new("SERVER_NOT_FOUND", "scrcpy-server.jar not found. Please ensure it exists in src-tauri/resources/")
}

/// The result of pushing the server jar.
pub fn push_result(run: Result<crate::adb::executor::CommandOutput, String>) -> (r: Result<(), AppError>)
    ensures
        match r {
            Ok(_) => run matches Ok(o) && o.success,
            Err(e) => crate::command_utils::outcome(Err(e), run, "PUSH_FAILED"@, "Failed to push server: "@, "Push failed: "@),
        },
{
    match crate::command_utils::run_outcome(run, "PUSH_FAILED", "Failed to push server: ", "Push failed: ") {
        Ok(_) => Ok(()),
        Err(e) => Err(e),
    }
}

/// `adb -s <device> forward tcp:27183 localabstract:scrcpy_12345678`, without
/// the executable (the socket name matches the fixed session id).
pub fn forward_args(device_id: &str) -> (r: Vec<String>)
    ensures
        strs(r@) == seq!["-s"@, device_id@, "forward"@, "tcp:27183"@, "localabstract:scrcpy_12345678"@],
{
    let r = args_of(&["-s", device_id, "forward", "tcp:27183", "localabstract:scrcpy_12345678"]);
    assert(strs(r@) =~= seq!["-s"@, device_id@, "forward"@, "tcp:27183"@, "localabstract:scrcpy_12345678"@]);
    r
}

/// The result of the port forward.
pub fn forward_result(run: Result<crate::adb::executor::CommandOutput, String>) -> (r: Result<(), AppError>)
    ensures
        match run {
            Err(e) => r matches Err(err) && err.is("FORWARD_FAILED"@, "Failed to forward: "@ + e@, None),
            Ok(o) => if o.success {
                r is Ok
            } else {
                r matches Err(err) && err.is("FORWARD_FAILED"@, "Forward failed"@, None)
            },
        },
{
    match run {
        Err(e) => Err(crate::command_utils::error_with("FORWARD_FAILED", "Failed to forward: ", e.as_str())),
        Ok(o) => {
            if o.success {
                Ok(())
            } else {
                Err(AppError::new("FORWARD_FAILED", "Forward failed"))
            }
        },
    }
}

/// `adb -s <device> shell <server command line>`, without the executable.
pub fn server_shell_args(device_id: &str, config: &ScrcpyConfig) -> (r: Vec<String>)
    ensures
        strs(r@) == seq!["-s"@, device_id@, "shell"@, server_command(*config)],
{
    let line = server_command_line(config);
    let r = args_of(&["-s", device_id, "shell", line.as_str()]);
    assert(strs(r@) =~= seq!["-s"@, device_id@, "shell"@, server_command(*config)]);
    r
}

/// The status of a session that has just started.
pub fn started_status(device_id: &str) -> (r: ScrcpyStatus)
    ensures
        r.running,
        r.device_id matches Some(d) && d@ == device_id@,
        r.port == Some(27183u16),
        r.codec_info is None,
{
    get_status(device_id, Some(VIDEO_PORT))
}

/// The commands that clean up after a session: remove all forwards, then stop
/// any server process, without the executable.
pub fn stop_server(device_id: &str) -> (r: (Vec<String>, Vec<String>))
    ensures
        strs(r.0@) == seq!["-s"@, device_id@, "forward"@, "--remove-all"@],
        strs(r.1@) == seq!["-s"@, device_id@, "shell"@, "pkill"@, "-f"@, "scrcpy"@],
{
    let a = args_of(&["-s", device_id, "forward", "--remove-all"]);
    assert(strs(a@) =~= seq!["-s"@, device_id@, "forward"@, "--remove-all"@]);
    let b = args_of(&["-s", device_id, "shell", "pkill", "-f", "scrcpy"]);
    assert(strs(b@) =~= seq!["-s"@, device_id@, "shell"@, "pkill"@, "-f"@, "scrcpy"@]);
    (a, b)
}

/// The error when a control message could not be written.
pub fn control_write_error(detail: &str) -> (r: AppError)
    ensures
        r.is("CONTROL_WRITE_FAILED"@, detail@, None),
{
    AppError::new("CONTROL_WRITE_FAILED", detail)
}

/// The error when the server process could not be started.
pub fn server_start_error(detail: &str) -> (r: AppError)
    ensures
        r.is("SERVER_START_FAILED"@, "Failed to start: "@ + detail@, None),
{
    crate::command_utils::error_with("SERVER_START_FAILED", "Failed to start: ", detail)
}

/// The two connections to the forwarded port: the video stream first, then
/// the control channel.
#[derive(Debug, Clone, Copy, PartialEq, Eq, Structural)]
pub enum SocketKind {
    Video,
    Control,
}

/// How many times each connection is tried.
pub open spec fn connect_attempts(kind: SocketKind) -> u32 {
    match kind {
        SocketKind::Video => 10,
        SocketKind::Control => 5,
    }
}

/// What follows a connection attempt.
pub enum ConnectStep {
    /// The socket is ready.
    Connected,
    /// Try again after the pause.
    Retry,
    /// Every attempt failed.
    GiveUp(AppError),
}

/// The decision after attempt number `attempt` (counting from 1) to open the
/// `kind` connection: done when it connected, another try while attempts are
/// left, else the connection's error.
pub fn connect_step(kind: SocketKind, attempt: u32, connected: bool) -> (r: ConnectStep)
    ensures
        connected ==> r is Connected,
        !connected && attempt < connect_attempts(kind) ==> r is Retry,
        !connected && attempt >= connect_attempts(kind) ==> match kind {
            SocketKind::Video => r matches ConnectStep::GiveUp(e) && e.is(
                "SOCKET_ERROR"@,
                "Failed to connect video after 10 attempts"@,
                None,
            ),
            SocketKind::Control => r matches ConnectStep::GiveUp(e) && e.is(
                "CONTROL_SOCKET_ERROR"@,
                "Failed to connect control socket"@,
                None,
            ),
        },
{
    let limit: u32 = match kind {
        SocketKind::Video => 10,
        SocketKind::Control => 5,
    };
    if connected {
        ConnectStep::Connected
    } else if attempt < limit {
        ConnectStep::Retry
    } else {
        match kind {
            SocketKind::Video => ConnectStep::GiveUp(
                AppError::new("SOCKET_ERROR", "Failed to connect video after 10 attempts"),
            ),
            SocketKind::Control => ConnectStep::GiveUp(
                AppError::new("CONTROL_SOCKET_ERROR", "Failed to connect control socket"),
            ),
        }
    }
}

/// What came back from one step of starting a session, in the order the steps
/// run: pushing the server jar, forwarding the port, starting the server,
/// then connecting the video and the control socket, each attempt numbered
/// from 1.
pub enum StartEvent {
    /// No server jar was found (`None`), or the push ran with this result.
    Pushed(Option<Result<crate::adb::executor::CommandOutput, String>>),
    /// The port forward ran with this result.
    Forwarded(Result<crate::adb::executor::CommandOutput, String>),
    /// The server process started, or the reason it could not.
    Spawned(Result<(), String>),
    /// Attempt `attempt` to open the video socket, and whether it connected.
    Video { attempt: u32, connected: bool },
    /// Attempt `attempt` to open the control socket, and whether it connected.
    Control { attempt: u32, connected: bool },
}

/// What a start does next.
pub enum StartNext {
    /// Forward the port.
    Forward,
    /// Start the server process.
    Spawn,
    /// Make this attempt at the video socket.
    ConnectVideo(u32),
    /// Make this attempt at the control socket.
    ConnectControl(u32),
    /// The start is over: the new session's status, or why it failed.
    Done(Result<ScrcpyStatus, AppError>),
}

/// The codes a failed start reports.
pub open spec fn start_error_code(code: Seq<char>) -> bool {
    code == "SERVER_NOT_FOUND"@ || code == "PUSH_FAILED"@ || code == "FORWARD_FAILED"@ || code
        == "SERVER_START_FAILED"@ || code == "SOCKET_ERROR"@ || code == "CONTROL_SOCKET_ERROR"@
}

/// The decision `r` after `event` in starting the session of `device_id`.
pub open spec fn start_outcome(device_id: Seq<char>, event: StartEvent, r: StartNext) -> bool {
    match event {
        StartEvent::Pushed(None) => r matches StartNext::Done(Err(e)) && e.is(
            "SERVER_NOT_FOUND"@,
            "scrcpy-server.jar not found. Please ensure it exists in src-tauri/resources/"@,
            None,
        ),
        StartEvent::Pushed(Some(run)) => match run {
            Ok(o) if o.success => r is Forward,
            _ => r matches StartNext::Done(Err(e)) && crate::command_utils::outcome(
                Err(e),
                run,
                "PUSH_FAILED"@,
                "Failed to push server: "@,
                "Push failed: "@,
            ),
        },
        StartEvent::Forwarded(run) => match run {
            Ok(o) if o.success => r is Spawn,
            Ok(_) => r matches StartNext::Done(Err(e)) && e.is("FORWARD_FAILED"@, "Forward failed"@, None),
            Err(d) => r matches StartNext::Done(Err(e)) && e.is(
                "FORWARD_FAILED"@,
                "Failed to forward: "@ + d@,
                None,
            ),
        },
        StartEvent::Spawned(Ok(_)) => r == StartNext::ConnectVideo(1),
        StartEvent::Spawned(Err(d)) => r matches StartNext::Done(Err(e)) && e.is(
            "SERVER_START_FAILED"@,
            "Failed to start: "@ + d@,
            None,
        ),
        StartEvent::Video { attempt, connected } => if connected {
            r == StartNext::ConnectControl(1)
        } else if attempt < connect_attempts(SocketKind::Video) {
            r == StartNext::ConnectVideo((attempt + 1) as u32)
        } else {
            r matches StartNext::Done(Err(e)) && e.is(
                "SOCKET_ERROR"@,
                "Failed to connect video after 10 attempts"@,
                None,
            )
        },
        StartEvent::Control { attempt, connected } => if connected {
            r matches StartNext::Done(Ok(st)) && st.running && st.port == Some(27183u16)
                && st.codec_info is None && (st.device_id matches Some(d) && d@ == device_id)
        } else if attempt < connect_attempts(SocketKind::Control) {
            r == StartNext::ConnectControl((attempt + 1) as u32)
        } else {
            r matches StartNext::Done(Err(e)) && e.is(
                "CONTROL_SOCKET_ERROR"@,
                "Failed to connect control socket"@,
                None,
            )
        },
    }
}

/// The decision after one step of starting the session of `device_id`. A
/// start ends with the running session's status only after the control
/// socket connected; every failure carries one of the start's error codes.
pub fn start_step(device_id: &str, event: StartEvent) -> (r: StartNext)
    ensures
        start_outcome(device_id@, event, r),
        r matches StartNext::Done(Err(e)) ==> start_error_code(e.code@),
        r matches StartNext::Done(Ok(_)) ==> event matches StartEvent::Control { connected: true, .. },
{
    match event {
        StartEvent::Pushed(None) => StartNext::Done(Err(server_not_found())),
        StartEvent::Pushed(Some(run)) => match push_result(run) {
            Ok(_) => StartNext::Forward,
            Err(e) => StartNext::Done(Err(e)),
        },
        StartEvent::Forwarded(run) => match forward_result(run) {
            Ok(_) => StartNext::Spawn,
            Err(e) => StartNext::Done(Err(e)),
        },
        StartEvent::Spawned(Ok(_)) => StartNext::ConnectVideo(1),
        StartEvent::Spawned(Err(d)) => StartNext::Done(Err(server_start_error(d.as_str()))),
        StartEvent::Video { attempt, connected } => match connect_step(SocketKind::Video, attempt, connected) {
            ConnectStep::Connected => StartNext::ConnectControl(1),
            ConnectStep::Retry => StartNext::ConnectVideo(attempt + 1),
            ConnectStep::GiveUp(e) => StartNext::Done(Err(e)),
        },
        StartEvent::Control { attempt, connected } => match connect_step(SocketKind::Control, attempt, connected) {
            ConnectStep::Connected => StartNext::Done(Ok(started_status(device_id))),
            ConnectStep::Retry => StartNext::ConnectControl(attempt + 1),
            ConnectStep::GiveUp(e) => StartNext::Done(Err(e)),
        },
    }
}

/// How a start ends: a start that succeeded returns the status that
/// `get_status` reports for the device's new session on the video port, and
/// only after the control socket connected; a start that failed reports one
/// of the six start error codes.
pub proof fn law_start_outcome(device_id: Seq<char>, event: StartEvent, r: StartNext)
    requires
        start_outcome(device_id, event, r),
    ensures
        r matches StartNext::Done(Ok(st)) ==> status_fields(st, device_id, Some(27183u16)) && (
        event matches StartEvent::Control { connected: true, .. }),
        r matches StartNext::Done(Err(e)) ==> start_error_code(e.code@),
{
}

} // verus!
