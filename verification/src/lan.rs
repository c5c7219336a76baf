//! The LAN sharing protocol: discovery datagrams, the peer list, and the
//! framing of a file transfer (sender side and a receiver state machine).
use vstd::prelude::*;
use vstd::string::StrSliceExecFns;
use vstd::string::StringExecFns;
use vstd::string::StringSliceAdditionalSpecFns;
use vstd::utf8::encode_utf8;
use vstd::utf8::decode_utf8;
use crate::text::utf8_lossy;
use crate::text::lossy_text;
use crate::text::trim;
use crate::text::trimmed_of;
use crate::text::chars_of;
use crate::text::string_of;
use crate::text::is_prefix;
use crate::text::starts_with_chars;
use crate::text::same_text;

verus! {

/// UDP port on which peers answer discovery requests.
pub const LAN_DISCOVER_PORT: u16 = 44444;

/// TCP port on which peers accept file transfers.
pub const LAN_TRANSFER_PORT: u16 = 44445;

/// Longest file name (in bytes) a receiver accepts.
pub const MAX_NAME_LEN: usize = 4096;

/// Largest file (in bytes) a receiver accepts: 2 GiB.
pub const MAX_FILE_SIZE: usize = 2147483648;

// ─── discovery ──────────────────────────────────────────────────────────────

/// The text of a discovery request.
pub open spec fn discover_text() -> Seq<char> {
    "ANVEL_DISCOVER"@
}

/// The prefix of a discovery answer, followed by the host name.
pub open spec fn peer_prefix() -> Seq<char> {
    "ANVEL_PEER:"@
}

/// The datagram broadcast to look for peers.
pub fn discover_request() -> (d: Vec<u8>)
    ensures
        d@ == encode_utf8(discover_text()),
{
    "ANVEL_DISCOVER".as_bytes_vec()
}

/// The answer a peer sends to a discovery request.
pub fn peer_reply(hostname: &str) -> (d: Vec<u8>)
    ensures
        d@ == encode_utf8(peer_prefix() + hostname@),
{
    let mut s = String::from_str("ANVEL_PEER:");
    s.append(hostname);
    s.as_str().as_bytes_vec()
}

/// `s` without its leading and trailing NUL characters.
pub open spec fn strip_nul(s: Seq<char>) -> Seq<char>
    decreases s.len(),
{
    if s.len() > 0 && s[0] == '\0' {
        strip_nul(s.drop_first())
    } else if s.len() > 0 && s[s.len() - 1] == '\0' {
        strip_nul(s.drop_last())
    } else {
        s
    }
}

fn strip_nul_chars(v: &Vec<char>) -> (r: Vec<char>)
    ensures
        r@ == strip_nul(v@),
{
    let mut lo: usize = 0;
    let mut hi: usize = v.len();
    assert(v@.subrange(0, v@.len() as int) =~= v@);
    while lo < hi && v[lo] == '\0'
        invariant
            lo <= hi == v@.len(),
            strip_nul(v@) == strip_nul(v@.subrange(lo as int, hi as int)),
        decreases hi - lo,
    {
        assert(v@.subrange(lo as int, hi as int).drop_first() =~= v@.subrange(lo + 1, hi as int));
        lo = lo + 1;
    }
    while lo < hi && v[hi - 1] == '\0'
        invariant
            lo <= hi <= v@.len(),
            strip_nul(v@) == strip_nul(v@.subrange(lo as int, hi as int)),
            lo < hi ==> v@[lo as int] != '\0',
        decreases hi - lo,
    {
        assert(v@.subrange(lo as int, hi as int).drop_last() =~= v@.subrange(lo as int, hi - 1));
        hi = hi - 1;
    }
    let mut r: Vec<char> = Vec::new();
    let mut i: usize = lo;
    while i < hi
        invariant
            lo <= i <= hi <= v@.len(),
            r@ == v@.subrange(lo as int, i as int),
        decreases hi - i,
    {
        r.push(v[i]);
        i = i + 1;
        assert(r@ =~= v@.subrange(lo as int, i as int));
    }
    r
}

/// Whether a received datagram is a discovery request: its text, with NUL
/// padding removed from both ends, starts with "ANVEL_DISCOVER".
pub fn is_discover_request(datagram: &[u8]) -> (r: bool)
    ensures
        r == is_prefix(discover_text(), strip_nul(lossy_text(datagram@))),
{
    let text = utf8_lossy(datagram);
    let chars = chars_of(text.as_str());
    let stripped = strip_nul_chars(&chars);
    let want = chars_of("ANVEL_DISCOVER");
    starts_with_chars(&stripped, &want)
}

/// The host name in a discovery answer: the trimmed text after
/// "ANVEL_PEER:", or `None` for any other datagram.
pub open spec fn peer_name_of(datagram: Seq<u8>) -> Option<Seq<char>> {
    let text = lossy_text(datagram);
    if is_prefix(peer_prefix(), text) {
        Some(trimmed_of(text.skip(peer_prefix().len() as int)))
    } else {
        None
    }
}

/// Reads the host name out of a discovery answer.
pub fn parse_peer_reply(datagram: &[u8]) -> (r: Option<String>)
    ensures
        r matches Some(n) ==> peer_name_of(datagram@) == Some(n@),
        r is None ==> peer_name_of(datagram@) is None,
{
    let text = utf8_lossy(datagram);
    let chars = chars_of(text.as_str());
    let prefix = chars_of("ANVEL_PEER:");
    if !starts_with_chars(&chars, &prefix) {
        return None;
    }
    let mut rest: Vec<char> = Vec::new();
    let mut i: usize = prefix.len();
    while i < chars.len()
        invariant
            prefix@.len() <= i <= chars@.len(),
            rest@ == chars@.subrange(prefix@.len() as int, i as int),
        decreases chars@.len() - i,
    {
        rest.push(chars[i]);
        i = i + 1;
        assert(rest@ =~= chars@.subrange(prefix@.len() as int, i as int));
    }
    assert(rest@ =~= chars@.skip(prefix@.len() as int));
    let rest_text = string_of(&rest);
    Some(trim(rest_text.as_str()))
}

/// A device that answered a discovery request.
#[derive(Debug)]
pub struct LanPeer {
    /// "host (address)", as the dialog lists it.
    pub display: String,
    /// The address the answer came from, in its textual form.
    pub addr: String,
}

/// "host (address)".
pub open spec fn peer_display_text(name: Seq<char>, addr: Seq<char>) -> Seq<char> {
    name + " ("@ + addr + ")"@
}

/// The peer behind an answer from `addr` naming the host `name`.
pub fn make_peer(name: &str, addr: &str) -> (p: LanPeer)
    ensures
        p.display@ == peer_display_text(name@, addr@),
        p.addr@ == addr@,
{
    let mut display = String::from_str(name);
    display.append(" (");
    display.append(addr);
    display.append(")");
    LanPeer { display, addr: String::from_str(addr) }
}

/// Whether a peer with this address is in the list.
pub open spec fn has_addr(peers: Seq<LanPeer>, addr: Seq<char>) -> bool {
    exists|k: int| 0 <= k < peers.len() && peers[k].addr@ == addr
}

/// The list after meeting `peer`: unchanged if its address is known, else
/// with `peer` appended.
pub open spec fn peer_added(peers: Seq<LanPeer>, peer: LanPeer) -> Seq<LanPeer> {
    if has_addr(peers, peer.addr@) {
        peers
    } else {
        peers.push(peer)
    }
}

/// Adds a peer to the list unless a peer with the same address is in it.
pub fn add_peer(peers: &mut Vec<LanPeer>, peer: LanPeer)
    ensures
        final(peers)@ == peer_added(old(peers)@, peer),
{
    let mut i: usize = 0;
    while i < peers.len()
        invariant
            i <= peers@.len(),
            peers@ == old(peers)@,
            forall|k: int| 0 <= k < i ==> old(peers)@[k].addr@ != peer.addr@,
        decreases peers@.len() - i,
    {
        if same_text(peers[i].addr.as_str(), peer.addr.as_str()) {
            return;
        }
        i = i + 1;
    }
    peers.push(peer);
}

// ─── transfer framing ───────────────────────────────────────────────────────

/// The `width` low bytes of `n`, least significant first.
pub open spec fn le_bytes(n: nat, width: nat) -> Seq<u8>
    decreases width,
{
    if width == 0 {
        seq![]
    } else {
        seq![(n % 256) as u8] + le_bytes(n / 256, (width - 1) as nat)
    }
}

/// The number a little-endian byte sequence stands for.
pub open spec fn le_value(b: Seq<u8>) -> nat
    decreases b.len(),
{
    if b.len() == 0 {
        0
    } else {
        b[0] as nat + 256 * le_value(b.drop_first())
    }
}

/// 256 to the power `w`.
pub open spec fn pow256(w: nat) -> nat
    decreases w,
{
    if w == 0 {
        1
    } else {
        256 * pow256((w - 1) as nat)
    }
}

/// Decoding gives back what encoding was given, when it fits the width.
pub proof fn lemma_le_round_trip(n: nat, width: nat)
    requires
        n < pow256(width),
    ensures
        le_bytes(n, width).len() == width,
        le_value(le_bytes(n, width)) == n,
    decreases width,
{
    if width > 0 {
        assert(n / 256 < pow256((width - 1) as nat)) by (nonlinear_arith)
            requires
                n < 256 * pow256((width - 1) as nat),
        ;
        lemma_le_round_trip(n / 256, (width - 1) as nat);
        let b = le_bytes(n, width);
        assert(b.drop_first() =~= le_bytes(n / 256, (width - 1) as nat));
    } else {
        assert(n == 0);
    }
}

proof fn lemma_pow256_values()
    ensures
        pow256(4) == 0x1_0000_0000,
        pow256(8) == 0x1_0000_0000_0000_0000,
{
    reveal_with_fuel(pow256, 9);
}

fn push_le(out: &mut Vec<u8>, n: u64, width: usize)
    requires
        width <= 8,
    ensures
        final(out)@ == old(out)@ + le_bytes(n as nat, width as nat),
{
    let mut m: u64 = n;
    let mut w: usize = width;
    while w > 0
        invariant
            old(out)@ + le_bytes(n as nat, width as nat) == out@ + le_bytes(m as nat, w as nat),
        decreases w,
    {
        let ghost before = out@;
        out.push((m % 256) as u8);
        proof {
            assert(le_bytes(m as nat, w as nat) =~= seq![(m % 256) as u8] + le_bytes((m / 256) as nat, (w - 1) as nat));
            assert(before + le_bytes(m as nat, w as nat) =~= out@ + le_bytes((m / 256) as nat, (w - 1) as nat));
        }
        m = m / 256;
        w = w - 1;
    }
    assert(out@ + le_bytes(m as nat, 0) =~= out@);
}

fn read_le(b: &[u8]) -> (n: u64)
    requires
        b@.len() <= 8,
    ensures
        n == le_value(b@),
{
    let mut n: u64 = 0;
    let mut i: usize = b.len();
    proof {
        lemma_le_bound(b@);
        lemma_pow256_values();
        assert(b@.skip(b@.len() as int) =~= Seq::<u8>::empty());
    }
    while i > 0
        invariant
            i <= b@.len() <= 8,
            n == le_value(b@.skip(i as int)),
            le_value(b@.skip(i as int)) < pow256((b@.len() - i) as nat),
            pow256(8) == 0x1_0000_0000_0000_0000,
        decreases i,
    {
        proof {
            let s = b@.skip(i - 1);
            assert(s.drop_first() =~= b@.skip(i as int));
            assert(s[0] == b@[i - 1]);
            lemma_le_bound(s);
            lemma_pow256_monotone((b@.len() - i + 1) as nat, 8);
        }
        n = n * 256 + b[i - 1] as u64;
        i = i - 1;
    }
    assert(b@.skip(0) =~= b@);
    n
}

proof fn lemma_le_bound(b: Seq<u8>)
    ensures
        le_value(b) < pow256(b.len()),
    decreases b.len(),
{
    if b.len() > 0 {
        lemma_le_bound(b.drop_first());
        assert(b[0] as nat + 256 * le_value(b.drop_first()) < 256 * pow256(b.drop_first().len())) by (nonlinear_arith)
            requires
                le_value(b.drop_first()) < pow256(b.drop_first().len()),
                b[0] < 256,
        ;
    }
}

proof fn lemma_pow256_monotone(a: nat, b: nat)
    requires
        a <= b,
    ensures
        pow256(a) <= pow256(b),
    decreases b,
{
    if a < b {
        lemma_pow256_monotone(a, (b - 1) as nat);
    }
}

/// The bytes of a transfer: the name's length (4 bytes, little-endian, cut to
/// 32 bits), the name, the data's length (8 bytes, little-endian) and the
/// data.
pub open spec fn frame_bytes(name: Seq<u8>, data: Seq<u8>) -> Seq<u8> {
    le_bytes((name.len() as u32) as nat, 4) + name + le_bytes(data.len(), 8) + data
}

/// The name a file is sent under: the last component of its path, or empty.
pub fn transfer_name(path: &str) -> (n: String)
    ensures
        n@ == (match crate::paths::file_name_of(path@) {
            Some(f) => f,
            None => Seq::<char>::empty(),
        }),
{
    match crate::paths::path_file_name(path) {
        Some(f) => f,
        None => String::new(),
    }
}

/// Frames a file for sending to a peer.
pub fn encode_transfer(name: &str, data: &[u8]) -> (out: Vec<u8>)
    ensures
        out@ == frame_bytes(name.spec_bytes(), data@),
{
    let name_bytes = name.as_bytes();
    let mut out: Vec<u8> = Vec::new();
    let name_len = name_bytes.len() as u32;
    push_le(&mut out, name_len as u64, 4);
    let mut i: usize = 0;
    while i < name_bytes.len()
        invariant
            i <= name_bytes@.len(),
            out@ == le_bytes(name_len as nat, 4) + name_bytes@.take(i as int),
        decreases name_bytes@.len() - i,
    {
        out.push(name_bytes[i]);
        i = i + 1;
        assert(out@ =~= le_bytes(name_len as nat, 4) + name_bytes@.take(i as int));
    }
    assert(name_bytes@.take(name_bytes@.len() as int) =~= name_bytes@);
    push_le(&mut out, data.len() as u64, 8);
    let ghost head = out@;
    let mut j: usize = 0;
    while j < data.len()
        invariant
            j <= data@.len(),
            out@ == head + data@.take(j as int),
        decreases data@.len() - j,
    {
        out.push(data[j]);
        j = j + 1;
        assert(out@ =~= head + data@.take(j as int));
    }
    assert(data@.take(data@.len() as int) =~= data@);
    out
}

/// Where a receiver stands in reading a transfer.
#[derive(Debug)]
pub enum RecvState {
    /// Waiting for the 4-byte name length.
    NameLen,
    /// Waiting for the name's bytes.
    Name { len: usize },
    /// Waiting for the 8-byte data length.
    Size { name: String },
    /// Waiting for the data.
    Data { name: String, size: usize },
    /// The transfer has been read.
    Done { name: String, data: Vec<u8> },
    /// The transfer was refused.
    Failed { reason: String },
}

/// A receiver's state as plain values.
pub enum RecvView {
    NameLen,
    Name { len: nat },
    Size { name: Seq<char> },
    Data { name: Seq<char>, size: nat },
    Done { name: Seq<char>, data: Seq<u8> },
    Failed { reason: Seq<char> },
}

impl View for RecvState {
    type V = RecvView;

    open spec fn view(&self) -> RecvView {
        match self {
            RecvState::NameLen => RecvView::NameLen,
            RecvState::Name { len } => RecvView::Name { len: *len as nat },
            RecvState::Size { name } => RecvView::Size { name: name@ },
            RecvState::Data { name, size } => RecvView::Data { name: name@, size: *size as nat },
            RecvState::Done { name, data } => RecvView::Done { name: name@, data: data@ },
            RecvState::Failed { reason } => RecvView::Failed { reason: reason@ },
        }
    }
}

/// How many bytes a receiver in state `s` reads next (none once finished).
pub open spec fn wanted(s: RecvView) -> nat {
    match s {
        RecvView::NameLen => 4,
        RecvView::Name { len } => len,
        RecvView::Size { .. } => 8,
        RecvView::Data { size, .. } => size,
        _ => 0,
    }
}

/// The state after reading `chunk` (of the wanted length) in state `s`.
pub open spec fn recv_next(s: RecvView, chunk: Seq<u8>) -> RecvView {
    match s {
        RecvView::NameLen => {
            let len = le_value(chunk);
            if len > MAX_NAME_LEN {
                RecvView::Failed { reason: "Malformed packet: name too long"@ }
            } else {
                RecvView::Name { len }
            }
        },
        RecvView::Name { .. } => RecvView::Size { name: lossy_text(chunk) },
        RecvView::Size { name } => {
            let size = (le_value(chunk) as u64) as usize;
            if size > MAX_FILE_SIZE {
                RecvView::Failed { reason: "File too large (>2 GB)"@ }
            } else {
                RecvView::Data { name, size: size as nat }
            }
        },
        RecvView::Data { name, .. } => RecvView::Done { name, data: chunk },
        _ => s,
    }
}

/// A receiver's state before anything is read.
pub fn recv_start() -> (s: RecvState)
    ensures
        s@ == RecvView::NameLen,
{
    RecvState::NameLen
}

impl RecvState {
    /// Whether the transfer has been read or refused.
    pub fn is_finished(&self) -> (r: bool)
        ensures
            r == (self@ is Done || self@ is Failed),
    {
        match self {
            RecvState::Done { .. } => true,
            RecvState::Failed { .. } => true,
            _ => false,
        }
    }

    /// How many bytes to read next.
    pub fn bytes_wanted(&self) -> (n: usize)
        ensures
            n == wanted(self@),
    {
        match self {
            RecvState::NameLen => 4,
            RecvState::Name { len } => *len,
            RecvState::Size { .. } => 8,
            RecvState::Data { size, .. } => *size,
            _ => 0,
        }
    }
}

/// Takes in the bytes a receiver asked for.
pub fn recv_step(state: RecvState, chunk: Vec<u8>) -> (next: RecvState)
    requires
        chunk@.len() == wanted(state@),
    ensures
        next@ == recv_next(state@, chunk@),
{
    match state {
        RecvState::NameLen => {
            let len = read_le(chunk.as_slice());
            if len > MAX_NAME_LEN as u64 {
                RecvState::Failed { reason: String::from_str("Malformed packet: name too long") }
            } else {
                RecvState::Name { len: len as usize }
            }
        },
        RecvState::Name { .. } => RecvState::Size { name: utf8_lossy(chunk.as_slice()) },
        RecvState::Size { name } => {
            let size = read_le(chunk.as_slice()) as usize;
            if size > MAX_FILE_SIZE {
                RecvState::Failed { reason: String::from_str("File too large (>2 GB)") }
            } else {
                RecvState::Data { name, size }
            }
        },
        RecvState::Data { name, .. } => RecvState::Done { name, data: chunk },
        other => other,
    }
}

/// A file a receiver has read, and where it is to be saved.
#[derive(Debug)]
pub struct SavedFile {
    pub name: String,
    pub dest: String,
    pub data: Vec<u8>,
}

/// What a finished receiver gives for saving into `save_dir`: the file's
/// name, its path (the name joined onto the folder, as sent) and its bytes;
/// or the reason the transfer was refused.
pub fn receive_outcome(state: RecvState, save_dir: &str) -> (r: Result<SavedFile, String>)
    requires
        state@ is Done || state@ is Failed,
    ensures
        state@ matches RecvView::Done { name, data } ==> (r matches Ok(f)
            && f.name@ == name && f.dest@ == crate::paths::joined(save_dir@, name) && f.data@ == data),
        state@ matches RecvView::Failed { reason } ==> (r matches Err(e) && e@ == reason),
{
    match state {
        RecvState::Done { name, data } => {
            let dest = crate::paths::path_join(save_dir, name.as_str());
            Ok(SavedFile { name, dest, data })
        },
        RecvState::Failed { reason } => Err(reason),
        _ => Err(String::new()),
    }
}

/// The state after `steps` reads from the front of `bytes`; a read that
/// would need more bytes than are left stops the run.
pub open spec fn run_receiver(s: RecvView, bytes: Seq<u8>, steps: nat) -> RecvView
    decreases steps,
{
    if steps == 0 || wanted(s) > bytes.len() || s is Done || s is Failed {
        s
    } else {
        run_receiver(recv_next(s, bytes.take(wanted(s) as int)), bytes.skip(wanted(s) as int), (steps - 1) as nat)
    }
}

/// What one side sends, the other reads back: a receiver fed the frame of a
/// name and its data, within the limits, ends with that name and data.
pub proof fn law_transfer_round_trip(name: Seq<char>, data: Seq<u8>)
    requires
        encode_utf8(name).len() <= MAX_NAME_LEN,
        data.len() <= MAX_FILE_SIZE,
    ensures
        run_receiver(RecvView::NameLen, frame_bytes(encode_utf8(name), data), 4)
            == (RecvView::Done { name, data }),
{
    let nb = encode_utf8(name);
    let f = frame_bytes(nb, data);
    lemma_pow256_values();
    lemma_le_round_trip(nb.len() as nat, 4);
    lemma_le_round_trip(data.len(), 8);
    let h1 = le_bytes((nb.len() as u32) as nat, 4);
    let h2 = le_bytes(data.len(), 8);
    assert((nb.len() as u32) as nat == nb.len());
    assert(f.take(4) =~= h1);
    let f1 = f.skip(4);
    assert(f1 =~= nb + h2 + data);
    let s1 = RecvView::Name { len: nb.len() };
    assert(recv_next(RecvView::NameLen, f.take(4)) == s1);
    assert(f1.take(nb.len() as int) =~= nb);
    let f2 = f1.skip(nb.len() as int);
    assert(f2 =~= h2 + data);
    vstd::utf8::encode_utf8_decode_utf8(name);
    vstd::utf8::encode_utf8_valid_utf8(name);
    let s2 = RecvView::Size { name: lossy_text(nb) };
    assert(f2.take(8) =~= h2);
    let f3 = f2.skip(8);
    assert(f3 =~= data);
    assert(f3.take(data.len() as int) =~= data);
    assert(lossy_text(nb) == name);
    let s3 = RecvView::Data { name, size: data.len() };
    assert(le_value(h2) == data.len());
    assert(recv_next(s2, f2.take(8)) == s3);
    let done = RecvView::Done { name, data };
    assert(recv_next(s3, f3.take(data.len() as int)) == done);
    assert(run_receiver(done, f3.skip(data.len() as int), 0) == done);
    assert(run_receiver(s3, f3, 1) == done);
    assert(run_receiver(s2, f2, 2) == done);
    assert(run_receiver(s1, f1, 3) == done);
}

} // verus!
