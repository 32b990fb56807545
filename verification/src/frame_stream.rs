//! Frames as a stream: pages of offscreen browsers, encoded and sent to whoever listens on a local
//! port.
//!
//! A frame is copied only where someone listens. The newest frame waits for the encoder, and a newer
//! one takes its place. A connection is named by a token; the caller keeps the connections.

use std::collections::HashSet;

use vstd::prelude::*;
use vstd::string::*;
use vstd::utf8::*;

use crate::engine;
use crate::engine::{Engine, EngineV};
use crate::ops::{ActionV, Actions};
use crate::text;
use crate::work;

verus! {

broadcast use vstd::std_specs::hash::group_hash_axioms;

/// The quality that frames are encoded with.
pub const QUALITY: u8 = 72;

/// How long the encoder waits for a frame before it sends a sign of life: clients give up on a
/// connection that is silent for a minute.
pub const SILENCE_MS: u64 = 20_000;

/// A frame of `w` by `h` pixels, four bytes each: blue, green, red, alpha.
#[derive(Debug)]
pub struct Frame {
    pub id: u32,
    pub w: usize,
    pub h: usize,
    pub bgra: Vec<u8>,
}

/// The model of a [`Frame`].
#[verifier::ext_equal]
pub struct FrameV {
    pub id: u32,
    pub w: nat,
    pub h: nat,
    pub bgra: Seq<u8>,
}

impl View for Frame {
    type V = FrameV;

    open spec fn view(&self) -> FrameV {
        FrameV { id: self.id, w: self.w as nat, h: self.h as nat, bgra: self.bgra@ }
    }
}

impl FrameV {
    /// The pixels are all there.
    pub open spec fn wf(self) -> bool {
        &&& self.bgra.len() == 4 * (self.w * self.h)
        &&& self.bgra.len() <= usize::MAX
    }
}

/// The stream server.
#[derive(Debug)]
pub struct FrameStream {
    /// The port that the server listens on, once it runs.
    pub port: Option<u16>,
    /// The browsers whose frames are streamed.
    pub enabled: HashSet<u32>,
    /// Who listens: browser and connection.
    pub subs: Vec<(u32, u64)>,
    pub next_token: u64,
    /// The frame that waits for the encoder.
    pub latest: Option<Frame>,
}

/// The model of a [`FrameStream`].
#[verifier::ext_equal]
pub struct FrameStreamV {
    pub port: Option<u16>,
    pub enabled: Set<u32>,
    pub subs: Seq<(u32, u64)>,
    pub next_token: u64,
    pub latest: Option<FrameV>,
}

impl View for FrameStream {
    type V = FrameStreamV;

    open spec fn view(&self) -> FrameStreamV {
        FrameStreamV {
            port: self.port,
            enabled: self.enabled@,
            subs: self.subs@,
            next_token: self.next_token,
            latest: match self.latest {
                Some(f) => Some(f@),
                None => None,
            },
        }
    }
}

impl FrameStreamV {
    /// The waiting frame is whole.
    pub open spec fn wf(self) -> bool {
        self.latest matches Some(f) ==> f.wf()
    }
}

/// A server that does not run yet.
pub open spec fn idle_stream() -> FrameStreamV {
    FrameStreamV {
        port: None,
        enabled: Set::empty(),
        subs: Seq::empty(),
        next_token: 0,
        latest: None,
    }
}

impl FrameStream {
    /// A server that does not run yet.
    pub fn new() -> (s: FrameStream)
        ensures
            s@ == idle_stream(),
            s@.wf(),
    {
        FrameStream {
            port: None,
            enabled: HashSet::new(),
            subs: Vec::new(),
            next_token: 0,
            latest: None,
        }
    }
}

// ── who listens ──────────────────────────────────────────────────────────────────────────────

/// The connections that listen to browser `id`.
pub open spec fn listeners(subs: Seq<(u32, u64)>, id: u32) -> Seq<u64>
    decreases subs.len(),
{
    if subs.len() == 0 {
        Seq::empty()
    } else {
        let rest = listeners(subs.drop_last(), id);
        if subs.last().0 == id {
            rest.push(subs.last().1)
        } else {
            rest
        }
    }
}

/// Whether the frames of browser `id` are wanted: they are streamed, and someone listens.
pub open spec fn wanted(s: FrameStreamV, id: u32) -> bool {
    s.enabled.contains(id) && listeners(s.subs, id).len() > 0
}

fn listening(subs: &Vec<(u32, u64)>, id: u32) -> (r: Vec<u64>)
    ensures
        r@ == listeners(subs@, id),
{
    let mut out: Vec<u64> = Vec::new();
    let mut i: usize = 0;
    while i < subs.len()
        invariant
            i <= subs@.len(),
            out@ == listeners(subs@.take(i as int), id),
        decreases subs@.len() - i,
    {
        assert(subs@.take(i + 1).drop_last() =~= subs@.take(i as int));
        assert(subs@.take(i + 1).last() == subs@[i as int]);
        if subs[i].0 == id {
            out.push(subs[i].1);
        }
        i = i + 1;
    }
    assert(subs@.take(subs@.len() as int) =~= subs@);
    out
}

/// Whether the frames of browser `id` are wanted.
pub fn wants(s: &FrameStream, id: u32) -> (r: bool)
    ensures
        r == wanted(s@, id),
{
    if !s.enabled.contains(&id) {
        return false;
    }
    listening(&s.subs, id).len() > 0
}

/// Whether a connection listens to another browser than `id`.
pub open spec fn elsewhere(id: u32) -> spec_fn((u32, u64)) -> bool {
    |b: (u32, u64)| b.0 != id
}

/// The connections in `subs` but for those that listen to browser `id`.
pub open spec fn subs_without(subs: Seq<(u32, u64)>, id: u32) -> Seq<(u32, u64)> {
    subs.filter(elsewhere(id))
}

fn drop_listeners(subs: &mut Vec<(u32, u64)>, id: u32)
    ensures
        final(subs)@ == subs_without(old(subs)@, id),
{
    let ghost before = subs@;
    let ghost keep = elsewhere(id);
    let mut kept: Vec<(u32, u64)> = Vec::new();
    let mut i: usize = 0;
    proof {
        reveal(Seq::filter);
        assert(before.take(0).filter(keep) =~= Seq::empty());
    }
    while i < subs.len()
        invariant
            i <= subs@.len(),
            before == subs@,
            keep == elsewhere(id),
            kept@ == before.take(i as int).filter(keep),
        decreases subs@.len() - i,
    {
        let b = subs[i];
        proof {
            reveal(Seq::filter);
            assert(before.take(i + 1).drop_last() =~= before.take(i as int));
            assert(before.take(i + 1).last() == b);
        }
        if b.0 != id {
            kept.push(b);
        }
        i = i + 1;
    }
    assert(before.take(before.len() as int) =~= before);
    *subs = kept;
}

// ── switching on and off ─────────────────────────────────────────────────────────────────────

/// Whether the server must be started first.
pub fn needs_server(s: &FrameStream) -> (r: bool)
    ensures
        r == (s@.port is None),
{
    s.port.is_none()
}

/// The server listens on port `bound`, where it could be started. Returns whether it is to be run:
/// it is started only once.
pub fn ensure_server(s: &mut FrameStream, bound: Option<u16>) -> (r: bool)
    ensures
        r == (old(s)@.port is None && bound is Some),
        final(s)@ == (FrameStreamV {
            port: if r {
                bound
            } else {
                old(s)@.port
            },
            ..old(s)@
        }),
{
    if s.port.is_some() {
        return false;
    }
    match bound {
        Some(_) => {
            s.port = bound;
            true
        },
        None => false,
    }
}

/// The server after streaming of browser `id` is switched on or off; switched off, nobody listens
/// to it any more.
pub open spec fn switched(s: FrameStreamV, id: u32, on: bool) -> FrameStreamV {
    if on {
        FrameStreamV { enabled: s.enabled.insert(id), ..s }
    } else {
        FrameStreamV {
            enabled: s.enabled.remove(id),
            subs: subs_without(s.subs, id),
            ..s
        }
    }
}

/// The engine after browser `id` is asked for a frame.
pub open spec fn kicked(s: EngineV, id: u32, now: u64) -> EngineV {
    engine::pump_asked(engine::bumped(s, id, now), 0, now)
}

/// What is to be done when a browser is asked for a frame.
pub open spec fn kick_actions(s: EngineV) -> Seq<ActionV> {
    engine::tick_actions(s) + engine::pump_actions(s, 0)
}

/// What switching comes to.
#[derive(Debug)]
pub struct Switched {
    /// The port that the server listens on; 0 where it does not run.
    pub port: u16,
    /// The connections that are to be closed.
    pub closed: Vec<u64>,
    pub acts: Actions,
}

/// Switches streaming of browser `id` on or off. Switched on, the page is painted once more, so
/// that one that stands still is seen.
pub fn enable(s: &mut FrameStream, e: &mut Engine, id: u32, on: bool, now: u64) -> (r: Switched)
    ensures
        final(s)@ == switched(old(s)@, id, on),
        r.port == (match old(s)@.port {
            Some(p) => p,
            None => 0,
        }),
        if on {
            &&& final(e)@ == kicked(old(e)@, id, now)
            &&& r.acts@ == kick_actions(old(e)@)
            &&& r.closed@ == Seq::<u64>::empty()
        } else {
            &&& final(e)@ == old(e)@
            &&& r.acts@ == Seq::<ActionV>::empty()
            &&& r.closed@ == listeners(old(s)@.subs, id)
        },
{
    let port: u16 = match s.port {
        Some(p) => p,
        None => 0,
    };
    if on {
        s.enabled.insert(id);
        let acts = work::kick_paint(e, id, now);
        Switched { port, closed: Vec::new(), acts }
    } else {
        s.enabled.remove(&id);
        let closed = listening(&s.subs, id);
        drop_listeners(&mut s.subs, id);
        Switched { port, closed, acts: Actions::new() }
    }
}

// ── frames in ────────────────────────────────────────────────────────────────────────────────

/// The first `n` rows of an image, `bytes` bytes each, out of memory where they lie `stride` apart.
pub open spec fn rows(base: Seq<u8>, stride: nat, bytes: nat, n: nat) -> Seq<u8>
    decreases n,
{
    if n == 0 {
        Seq::empty()
    } else {
        let at = ((n - 1) as nat) * stride;
        rows(base, stride, bytes, (n - 1) as nat) + base.subrange(at as int, (at + bytes) as int)
    }
}

/// `n` bytes of zero.
pub open spec fn zeros(n: nat) -> Seq<u8> {
    Seq::new(n, |i: int| 0u8)
}

/// An image in memory that is to be read.
#[derive(Debug)]
pub enum Pixels<'a> {
    /// The memory could not be locked.
    Unlocked,
    /// The memory has no address.
    Blank,
    /// Rows, `stride` bytes apart.
    Rows { base: &'a [u8], stride: usize },
}

/// The image in `px`, of `w` by `h` pixels: black where it cannot be read.
pub open spec fn packed(px: Pixels<'_>, w: nat, h: nat) -> Seq<u8> {
    match px {
        Pixels::Rows { base, stride } => if stride >= 4 * w {
            rows(base@, stride as nat, 4 * w, h)
        } else {
            zeros(4 * (w * h))
        },
        _ => zeros(4 * (w * h)),
    }
}

/// The bytes from the start of the first of `n` rows to the end of the last, where the rows have
/// `bytes` bytes each and lie `stride` apart.
pub open spec fn span(stride: nat, bytes: nat, n: nat) -> nat {
    if n == 0 {
        0
    } else {
        ((n - 1) as nat) * stride + bytes
    }
}

/// Whether the rows of an image of `w` by `h` pixels lie in the memory `px`, where they are read.
pub open spec fn readable(px: Pixels<'_>, w: nat, h: nat) -> bool {
    match px {
        Pixels::Rows { base, stride } => stride >= 4 * w ==> base@.len() >= span(
            stride as nat,
            4 * w,
            h,
        ),
        _ => true,
    }
}

fn push_zeros(n: usize) -> (r: Vec<u8>)
    ensures
        r@ == zeros(n as nat),
{
    let mut out: Vec<u8> = Vec::new();
    let mut i: usize = 0;
    while i < n
        invariant
            i <= n,
            out@ == zeros(i as nat),
        decreases n - i,
    {
        out.push(0);
        i = i + 1;
        assert(out@ =~= zeros(i as nat));
    }
    out
}

fn push_rows(base: &[u8], stride: usize, bytes: usize, h: usize) -> (r: Vec<u8>)
    requires
        bytes <= stride,
        base@.len() >= span(stride as nat, bytes as nat, h as nat),
    ensures
        r@ == rows(base@, stride as nat, bytes as nat, h as nat),
{
    let mut out: Vec<u8> = Vec::new();
    let mut y: usize = 0;
    let mut at: usize = 0;
    let len: usize = base.len();
    while y < h
        invariant
            y <= h,
            bytes <= stride,
            len == base@.len(),
            len >= span(stride as nat, bytes as nat, h as nat),
            y < h ==> at == y * stride,
            out@ == rows(base@, stride as nat, bytes as nat, y as nat),
        decreases h - y,
    {
        let ghost before = out@;
        let ghost last = (h - 1) as nat;
        assert(y * stride <= last * stride) by (nonlinear_arith)
            requires
                y <= last,
        ;
        let mut x: usize = 0;
        while x < bytes
            invariant
                x <= bytes,
                len == base@.len(),
                at + bytes <= len,
                out@ == before + base@.subrange(at as int, at + x),
            decreases bytes - x,
        {
            out.push(base[at + x]);
            x = x + 1;
            assert(out@ =~= before + base@.subrange(at as int, at + x));
        }
        y = y + 1;
        if y < h {
            assert(y * stride == (y - 1) * stride + stride) by (nonlinear_arith);
            assert(y * stride <= last * stride) by (nonlinear_arith)
                requires
                    y <= last,
            ;
            at = at + stride;
        }
    }
    out
}

/// Whether a frame of browser `id` of `w` by `h` pixels is to be read: there is one, and it is
/// wanted.
pub open spec fn submittable(s: FrameStreamV, id: u32, has_surface: bool, w: i32, h: i32) -> bool {
    has_surface && w > 0 && h > 0 && wanted(s, id)
}

/// Whether a frame of browser `id` of `w` by `h` pixels is to be read.
pub fn wants_frame(s: &FrameStream, id: u32, has_surface: bool, w: i32, h: i32) -> (r: bool)
    ensures
        r == submittable(s@, id, has_surface, w, h),
{
    has_surface && w > 0 && h > 0 && wants(s, id)
}

/// The server after a frame is handed in: it takes the place of one that still waits. A frame that
/// is not wanted, or that cannot be locked, is not taken.
pub open spec fn submitted(
    s: FrameStreamV,
    id: u32,
    has_surface: bool,
    w: i32,
    h: i32,
    px: Pixels<'_>,
) -> FrameStreamV {
    if submittable(s, id, has_surface, w, h) && !(px is Unlocked) {
        FrameStreamV {
            latest: Some(
                FrameV { id, w: w as nat, h: h as nat, bgra: packed(px, w as nat, h as nat) },
            ),
            ..s
        }
    } else {
        s
    }
}

/// Hands in a frame of browser `id` of `w` by `h` pixels. Returns whether it now waits for the
/// encoder.
pub fn maybe_submit(
    s: &mut FrameStream,
    id: u32,
    has_surface: bool,
    w: i32,
    h: i32,
    px: Pixels<'_>,
) -> (r: bool)
    requires
        submittable(old(s)@, id, has_surface, w, h) && !(px is Unlocked) ==> 4 * (w * h)
            <= usize::MAX && readable(px, w as nat, h as nat),
    ensures
        final(s)@ == submitted(old(s)@, id, has_surface, w, h, px),
        r == (submittable(old(s)@, id, has_surface, w, h) && !(px is Unlocked)),
{
    if !wants_frame(s, id, has_surface, w, h) {
        return false;
    }
    if matches!(px, Pixels::Unlocked) {
        return false;
    }
    let wide: usize = w as usize;
    let high: usize = h as usize;
    proof {
        assert(wide * high <= 4 * (w * h)) by (nonlinear_arith)
            requires
                wide == w,
                high == h,
                w > 0,
                h > 0,
        ;
        assert(4 * wide <= 4 * (w * h)) by (nonlinear_arith)
            requires
                wide == w,
                w > 0,
                h > 0,
        ;
    }
    let bgra: Vec<u8> = match px {
        Pixels::Rows { base, stride } => if stride >= 4 * wide {
            push_rows(base, stride, 4 * wide, high)
        } else {
            push_zeros(4 * (wide * high))
        },
        _ => push_zeros(4 * (wide * high)),
    };
    s.latest = Some(Frame { id, w: wide, h: high, bgra });
    true
}

// ── the encoder ──────────────────────────────────────────────────────────────────────────────

/// What the encoder does next.
#[derive(Debug)]
pub enum Job {
    /// Encode the frame and send it.
    Encode { frame: Frame },
    /// Send everyone a sign of life.
    Heartbeat,
    /// Wait for a frame.
    Wait,
}

/// The next job: the waiting frame; a sign of life where none came for a while.
pub fn next_job(s: &mut FrameStream, timed_out: bool) -> (r: Job)
    ensures
        match r {
            Job::Encode { frame } => {
                &&& !timed_out
                &&& old(s)@.latest == Some(frame@)
                &&& final(s)@ == (FrameStreamV { latest: None, ..old(s)@ })
            },
            Job::Heartbeat => timed_out && final(s)@ == old(s)@,
            Job::Wait => !timed_out && old(s)@.latest is None && final(s)@ == old(s)@,
        },
{
    if timed_out {
        return Job::Heartbeat;
    }
    match s.latest.take() {
        Some(frame) => Job::Encode { frame },
        None => Job::Wait,
    }
}

/// The first `n` pixels of an image as red, green and blue bytes.
pub open spec fn rgb_of(bgra: Seq<u8>, n: nat) -> Seq<u8>
    decreases n,
{
    if n == 0 {
        Seq::empty()
    } else {
        let i = 4 * (n - 1);
        rgb_of(bgra, (n - 1) as nat) + seq![bgra[i + 2], bgra[i + 1], bgra[i]]
    }
}

fn to_rgb(bgra: &Vec<u8>, n: usize) -> (r: Vec<u8>)
    requires
        4 * n <= bgra@.len(),
    ensures
        r@ == rgb_of(bgra@, n as nat),
        r@.len() == 3 * n,
{
    let mut out: Vec<u8> = Vec::new();
    let mut i: usize = 0;
    let len: usize = bgra.len();
    while i < n
        invariant
            i <= n,
            len == bgra@.len(),
            4 * n <= len,
            out@ == rgb_of(bgra@, i as nat),
            out@.len() == 3 * i,
        decreases n - i,
    {
        let ghost before = out@;
        out.push(bgra[4 * i + 2]);
        out.push(bgra[4 * i + 1]);
        out.push(bgra[4 * i]);
        assert(out@ =~= before + seq![
            bgra@[4 * i + 2],
            bgra@[4 * i + 1],
            bgra@[4 * i as int],
        ]);
        i = i + 1;
    }
    out
}

/// What `jpeg_encoder` makes of an image of red, green and blue bytes.
pub uninterp spec fn jpeg_bytes(rgb: Seq<u8>, w: u16, h: u16, quality: u8) -> Seq<u8>;

/// `jpeg_encoder::Encoder::new(..).encode(..)` into memory, for red, green and blue bytes. It succeeds
/// where the image has a size and its bytes are all there; what it then writes depends on its
/// arguments alone and is named [`jpeg_bytes`].
#[verifier::external_body]
fn encode_jpeg(rgb: &Vec<u8>, w: u16, h: u16, quality: u8) -> (r: Option<Vec<u8>>)
    requires
        3 * (w * h) <= usize::MAX,
    ensures
        r is Some == (w > 0 && h > 0 && rgb@.len() >= 3 * (w * h)),
        r matches Some(j) ==> j@ == jpeg_bytes(rgb@, w, h, quality),
{
    let mut out: Vec<u8> = Vec::new();
    let encoder = jpeg_encoder::Encoder::new(&mut out, quality);
    match encoder.encode(rgb, w, h, jpeg_encoder::ColorType::Rgb) {
        Ok(()) => Some(out),
        Err(_) => None,
    }
}

/// Something to send to connections: to each of them, the pieces in order.
#[derive(Debug)]
pub struct Sending {
    pub tokens: Vec<u64>,
    pub head: String,
    pub body: Vec<u8>,
    pub tail: String,
}

/// The head of the part that carries an encoded frame of `len` bytes.
pub open spec fn part_head(len: nat) -> Seq<char> {
    "--sksframe\r\nContent-Type: image/jpeg\r\nContent-Length: "@ + text::decimal(len) + "\r\n\r\n"@
}

/// Whether `r` sends everyone who listens to browser `id` the encoded frame `jpeg`.
pub open spec fn sends_frame(r: Sending, s: FrameStreamV, id: u32, jpeg: Seq<u8>) -> bool {
    &&& r.tokens@ == listeners(s.subs, id)
    &&& r.head@ == part_head(jpeg.len())
    &&& r.body@ == jpeg
    &&& r.tail@ == "\r\n"@
}

/// The part that carries the encoded frame `jpeg` of browser `id`, where it could be encoded.
pub fn frame_part(s: &FrameStream, id: u32, jpeg: Option<Vec<u8>>) -> (r: Option<Sending>)
    ensures
        match jpeg {
            Some(j) => r matches Some(part) && sends_frame(part, s@, id, j@),
            None => r is None,
        },
{
    match jpeg {
        Some(body) => {
            let mut head =
                "--sksframe\r\nContent-Type: image/jpeg\r\nContent-Length: ".to_owned();
            text::push_decimal(&mut head, body.len() as u64);
            head.append("\r\n\r\n");
            Some(
                Sending {
                    tokens: listening(&s.subs, id),
                    head,
                    body,
                    tail: "\r\n".to_owned(),
                },
            )
        },
        None => None,
    }
}

/// The encoded form of `frame`. The encoder takes width and height as 16 bits each, and they are cut
/// to that: a frame that is 65537 pixels wide is encoded as one that is one pixel wide. There is none
/// where nothing is left of one of them.
pub open spec fn encoded(frame: Frame) -> Option<Seq<u8>> {
    let w = frame.w as u16;
    let h = frame.h as u16;
    if w > 0 && h > 0 {
        Some(jpeg_bytes(rgb_of(frame@.bgra, frame@.w * frame@.h), w, h, QUALITY))
    } else {
        None
    }
}

/// Encodes `frame`.
pub fn encode_frame(frame: &Frame) -> (r: Option<Vec<u8>>)
    requires
        frame@.wf(),
    ensures
        match r {
            Some(j) => encoded(*frame) == Some(j@),
            None => encoded(*frame) is None,
        },
        1 <= frame.w <= 65535 && 1 <= frame.h <= 65535 ==> (r matches Some(j) && j@ == jpeg_bytes(
            rgb_of(frame.bgra@, frame.w as nat * frame.h as nat),
            frame.w as u16,
            frame.h as u16,
            QUALITY,
        )),
{
    let ghost n = frame.w as nat * frame.h as nat;
    let w: u16 = frame.w as u16;
    let h: u16 = frame.h as u16;
    proof {
        let (fw, fh) = (frame.w, frame.h);
        assert(fw as u16 <= fw) by (bit_vector);
        assert(fh as u16 <= fh) by (bit_vector);
        assert(w * h <= n) by (nonlinear_arith)
            requires
                w <= frame.w,
                h <= frame.h,
                n == frame.w * frame.h,
        ;
        assert(n <= usize::MAX);
    }
    let rgb = to_rgb(&frame.bgra, frame.w * frame.h);
    encode_jpeg(&rgb, w, h, QUALITY)
}

/// Encodes `frame` for those who listen to it. A frame that is not wanted any more, or that cannot be
/// encoded, is not sent.
pub fn encode_and_fanout(s: &FrameStream, frame: &Frame) -> (r: Option<Sending>)
    requires
        frame@.wf(),
    ensures
        if wanted(s@, frame.id) && encoded(*frame) is Some {
            r matches Some(part) && sends_frame(part, s@, frame.id, encoded(*frame)->0)
        } else {
            r is None
        },
        wanted(s@, frame.id) && 1 <= frame.w <= 65535 && 1 <= frame.h <= 65535 ==> (r matches Some(
            part,
        ) && part.body@ == jpeg_bytes(
            rgb_of(frame.bgra@, frame.w as nat * frame.h as nat),
            frame.w as u16,
            frame.h as u16,
            QUALITY,
        )),
{
    if !wants(s, frame.id) {
        return None;
    }
    frame_part(s, frame.id, encode_frame(frame))
}

/// The connections in `subs`.
pub open spec fn tokens_of(subs: Seq<(u32, u64)>) -> Seq<u64> {
    subs.map_values(|b: (u32, u64)| b.1)
}

/// A part without meaning, for everyone who listens: it keeps the connections open.
pub fn heartbeat_all(s: &FrameStream) -> (r: Sending)
    ensures
        r.tokens@ == tokens_of(s@.subs),
        r.head@
            == "--sksframe\r\nContent-Type: text/plain\r\nContent-Length: 1\r\n\r\n.\r\n"@,
        r.body@ == Seq::<u8>::empty(),
        r.tail@ == ""@,
{
    let mut tokens: Vec<u64> = Vec::new();
    let mut i: usize = 0;
    while i < s.subs.len()
        invariant
            i <= s.subs@.len(),
            tokens@ == tokens_of(s.subs@).take(i as int),
        decreases s.subs@.len() - i,
    {
        tokens.push(s.subs[i].1);
        i = i + 1;
        assert(tokens@ =~= tokens_of(s.subs@).take(i as int));
    }
    assert(tokens@ =~= tokens_of(s.subs@));
    Sending {
        tokens,
        head: "--sksframe\r\nContent-Type: text/plain\r\nContent-Length: 1\r\n\r\n.\r\n".to_owned(),
        body: Vec::new(),
        tail: "".to_owned(),
    }
}

/// The connections in `subs` but for the failed ones.
pub open spec fn alive(subs: Seq<(u32, u64)>, failed: Seq<u64>) -> Seq<(u32, u64)> {
    subs.filter(|b: (u32, u64)| !failed.contains(b.1))
}

fn has_token(list: &Vec<u64>, token: u64) -> (r: bool)
    ensures
        r == list@.contains(token),
{
    let mut i: usize = 0;
    while i < list.len()
        invariant
            i <= list@.len(),
            forall|k: int| 0 <= k < i ==> list@[k] != token,
        decreases list@.len() - i,
    {
        if list[i] == token {
            return true;
        }
        i = i + 1;
    }
    false
}

/// Connections that nothing could be sent to are dropped.
pub fn prune(s: &mut FrameStream, failed: &Vec<u64>)
    ensures
        final(s)@ == (FrameStreamV { subs: alive(old(s)@.subs, failed@), ..old(s)@ }),
{
    let ghost before = s.subs@;
    let ghost keep = |b: (u32, u64)| !failed@.contains(b.1);
    let mut kept: Vec<(u32, u64)> = Vec::new();
    let mut i: usize = 0;
    proof {
        reveal(Seq::filter);
        assert(before.take(0).filter(keep) =~= Seq::empty());
    }
    while i < s.subs.len()
        invariant
            i <= s.subs@.len(),
            before == s.subs@,
            keep == (|b: (u32, u64)| !failed@.contains(b.1)),
            kept@ == before.take(i as int).filter(keep),
        decreases s.subs@.len() - i,
    {
        let b = s.subs[i];
        proof {
            reveal(Seq::filter);
            assert(before.take(i + 1).drop_last() =~= before.take(i as int));
            assert(before.take(i + 1).last() == b);
        }
        if !has_token(failed, b.1) {
            kept.push(b);
        }
        i = i + 1;
    }
    assert(before.take(before.len() as int) =~= before);
    s.subs = kept;
}

// ── connections ──────────────────────────────────────────────────────────────────────────────

/// What a scan of text looks for.
#[derive(Clone, Copy, Debug, PartialEq, Eq, Structural)]
pub enum Class {
    LineEnd,
    Space,
    Solid,
    PathEnd,
}

/// Whether `c` is white space.
pub open spec fn is_space(c: char) -> bool {
    let n = c as u32;
    ||| 0x9 <= n <= 0xd
    ||| n == 0x20
    ||| n == 0x85
    ||| n == 0xa0
    ||| n == 0x1680
    ||| 0x2000 <= n <= 0x200a
    ||| n == 0x2028
    ||| n == 0x2029
    ||| n == 0x202f
    ||| n == 0x205f
    ||| n == 0x3000
}

/// Whether `c` is what a scan looks for.
pub open spec fn in_class(c: char, class: Class) -> bool {
    match class {
        Class::LineEnd => c == '\n',
        Class::Space => is_space(c),
        Class::Solid => !is_space(c),
        Class::PathEnd => c == '.' || c == '?',
    }
}

/// The first place at or after `from` where `s` holds what is looked for, or its end.
pub open spec fn scan(s: Seq<char>, from: int, class: Class) -> int
    decreases s.len() - from,
{
    if from < 0 || from >= s.len() {
        s.len() as int
    } else if in_class(s[from], class) {
        from
    } else {
        scan(s, from + 1, class)
    }
}

fn check_class(c: char, class: Class) -> (r: bool)
    ensures
        r == in_class(c, class),
{
    let n: u32 = c as u32;
    let space: bool = (0x9 <= n && n <= 0xd) || n == 0x20 || n == 0x85 || n == 0xa0 || n == 0x1680
        || (0x2000 <= n && n <= 0x200a) || n == 0x2028 || n == 0x2029 || n == 0x202f || n == 0x205f
        || n == 0x3000;
    match class {
        Class::LineEnd => c == '\n',
        Class::Space => space,
        Class::Solid => !space,
        Class::PathEnd => c == '.' || c == '?',
    }
}

fn scan_from(s: &[char], from: usize, class: Class) -> (r: usize)
    requires
        from <= s@.len(),
    ensures
        r == scan(s@, from as int, class),
        from <= r <= s@.len(),
{
    let mut i: usize = from;
    while i < s.len()
        invariant
            from <= i <= s@.len(),
            scan(s@, from as int, class) == scan(s@, i as int, class),
        decreases s@.len() - i,
    {
        if check_class(s[i], class) {
            return i;
        }
        i = i + 1;
    }
    i
}

/// The first word of the text `s`, if it has one.
pub open spec fn first_word(s: Seq<char>) -> Option<Seq<char>> {
    let start = scan(s, 0, Class::Solid);
    let end = scan(s, start, Class::Space);
    if start < s.len() {
        Some(s.subrange(start, end))
    } else {
        None
    }
}

/// The second word of the text `s`, if it has one.
pub open spec fn second_word(s: Seq<char>) -> Option<Seq<char>> {
    let first = scan(s, 0, Class::Solid);
    let gap = scan(s, first, Class::Space);
    let start = scan(s, gap, Class::Solid);
    let end = scan(s, start, Class::Space);
    if start < s.len() {
        Some(s.subrange(start, end))
    } else {
        None
    }
}

/// The browser that a request's first line asks for: the first word is `GET`, and the second is `/s/`
/// and a number, up to a dot or a question mark.
pub open spec fn requested(head: Seq<char>) -> Option<u32> {
    let line = head.take(scan(head, 0, Class::LineEnd));
    match second_word(line) {
        Some(path) => if first_word(line) == Some("GET"@) && "/s/"@.is_prefix_of(path) {
            let rest = path.skip("/s/"@.len() as int);
            match text::unsigned_named(
                rest.take(scan(rest, 0, Class::PathEnd)),
                u32::MAX as nat,
            ) {
                Some(n) => Some(n as u32),
                None => None,
            }
        } else {
            None
        },
        None => None,
    }
}

fn copy_range(s: &[char], from: usize, to: usize) -> (r: Vec<char>)
    requires
        from <= to <= s@.len(),
    ensures
        r@ == s@.subrange(from as int, to as int),
{
    let mut out: Vec<char> = Vec::new();
    let mut i: usize = from;
    while i < to
        invariant
            from <= i <= to <= s@.len(),
            out@ == s@.subrange(from as int, i as int),
        decreases to - i,
    {
        out.push(s[i]);
        i = i + 1;
        assert(out@ =~= s@.subrange(from as int, i as int));
    }
    out
}

/// The browser that the request `head` asks for.
pub fn requested_id(head: &str) -> (r: Option<u32>)
    ensures
        r == requested(head@),
{
    let all = text::chars_of(head);
    let line_end: usize = scan_from(all.as_slice(), 0, Class::LineEnd);
    let line = copy_range(all.as_slice(), 0, line_end);
    assert(line@ =~= head@.take(scan(head@, 0, Class::LineEnd)));
    let first: usize = scan_from(line.as_slice(), 0, Class::Solid);
    let gap: usize = scan_from(line.as_slice(), first, Class::Space);
    let start: usize = scan_from(line.as_slice(), gap, Class::Solid);
    let end: usize = scan_from(line.as_slice(), start, Class::Space);
    if start >= line.len() {
        return None;
    }
    let method = copy_range(line.as_slice(), first, gap);
    let path = copy_range(line.as_slice(), start, end);
    proof {
        reveal_strlit("GET");
        reveal_strlit("/s/");
    }
    assert("GET"@ =~= seq!['G', 'E', 'T']);
    assert(first_word(line@) == Some(method@));
    if method.len() != 3 || method[0] != 'G' || method[1] != 'E' || method[2] != 'T' {
        assert(method@ != "GET"@);
        return None;
    }
    assert(method@ =~= "GET"@);
    assert("/s/"@ =~= seq!['/', 's', '/']);
    if path.len() < 3 || path[0] != '/' || path[1] != 's' || path[2] != '/' {
        assert(!"/s/"@.is_prefix_of(path@)) by {
            if "/s/"@.is_prefix_of(path@) {
                assert(path@[0] == "/s/"@[0] && path@[1] == "/s/"@[1] && path@[2] == "/s/"@[2]);
            }
        }
        return None;
    }
    assert("/s/"@ =~= path@.take(3));
    let rest = copy_range(path.as_slice(), 3, path.len());
    assert(rest@ =~= path@.skip(3));
    let stop: usize = scan_from(rest.as_slice(), 0, Class::PathEnd);
    let digits = copy_range(rest.as_slice(), 0, stop);
    assert(digits@ =~= rest@.take(stop as int));
    text::parse_u32(digits.as_slice())
}

/// How a request is answered.
#[derive(Debug)]
pub struct Welcome {
    /// The browser to listen to; `None` where the request is refused.
    pub id: Option<u32>,
    pub response: String,
}

/// The answer to a request for browser `id`, or to one that asks for none.
pub open spec fn response_for(id: Option<u32>) -> Seq<char> {
    if id is Some {
        "HTTP/1.1 200 OK\r\nContent-Type: application/octet-stream\r\nAccess-Control-Allow-Origin: *\r\nCache-Control: no-store\r\nConnection: close\r\n\r\n"@
    } else {
        "HTTP/1.1 404 Not Found\r\nConnection: close\r\n\r\n"@
    }
}

/// Reads a request, and answers it.
pub fn accept_client(head: &[u8]) -> (r: Welcome)
    ensures
        r.id == requested(text::lossy_text(head@)),
        r.response@ == response_for(r.id),
        valid_utf8(head@) ==> r.id == requested(decode_utf8(head@)),
{
    let shown = text::lossy(head);
    let id = requested_id(shown.as_str());
    let response = match id {
        Some(_) => "HTTP/1.1 200 OK\r\nContent-Type: application/octet-stream\r\nAccess-Control-Allow-Origin: *\r\nCache-Control: no-store\r\nConnection: close\r\n\r\n",
        None => "HTTP/1.1 404 Not Found\r\nConnection: close\r\n\r\n",
    };
    Welcome { id, response: response.to_owned() }
}

/// A connection listens to browser `id` from here on. Returns its token. The page is painted once
/// more, so that one that stands still is seen.
pub fn subscribe(s: &mut FrameStream, e: &mut Engine, id: u32, now: u64) -> (r: (u64, Actions))
    ensures
        r.0 == old(s)@.next_token,
        final(s)@ == (FrameStreamV {
            subs: old(s)@.subs.push((id, r.0)),
            next_token: old(s)@.next_token.wrapping_add(1),
            ..old(s)@
        }),
        final(e)@ == kicked(old(e)@, id, now),
        r.1@ == kick_actions(old(e)@),
{
    let token: u64 = s.next_token;
    s.next_token = token.wrapping_add(1);
    s.subs.push((id, token));
    let acts = work::kick_paint(e, id, now);
    (token, acts)
}

}
