//! The end-to-end harness: it plays the host. It opens a test page, answers the page's question,
//! sends it input step by step as the page reports each step in its title, and gives a verdict.

use vstd::prelude::*;
use vstd::string::*;
use vstd::utf8::*;

use crate::json;
use crate::json::{Json, JsonV, Members, Num};
use crate::presenter::Platform;
use crate::text;
use crate::text::same;

verus! {

/// The page under test. It reports in its title how far it got.
pub const TEST_PAGE: &'static str = "data:text/html,<title>boot</title><body style=\"background:%23223;color:%23eee;font:20px monospace\">HARNESS<input id=t style=\"position:fixed;left:20px;top:60px;width:220px;height:40px;font-size:20px\"><script>var t=document.getElementById('t');var keyDone=false;t.addEventListener('focus',function(){document.title='CLICK_OK';});window.addEventListener('wheel',function(e){if(document.title.indexOf('CLICK_OK')===0)document.title='WHEEL_OK:'+(e.deltaY>0?'down':'up');});window.addEventListener('keydown',function(e){if(!keyDone&&document.title.indexOf('WHEEL_OK')===0){keyDone=true;document.title='KEY_OK:'+e.keyCode;}});t.addEventListener('input',function(){if(document.title.indexOf('KEY_OK')===0||document.title.indexOf('IME')===0)document.title='IME_OK:'+t.value;});document.title='Q_TYPEOF:'+(typeof window.cefQuery);if(window.cefQuery){window.cefQuery({request:'harness-ping',persistent:false,onSuccess:function(r){document.title='Q_OK:'+r;},onFailure:function(c,m){document.title='Q_FAIL:'+c+':'+m;}});}</script></body>";

/// How long the harness waits for the page.
pub const TIME_LIMIT_MS: u64 = 20_000;

/// How long the page may take for one step before the step's input is sent again.
pub const RESEND_MS: u64 = 700;

/// A run of the harness. Times are in milliseconds.
#[derive(Debug)]
pub struct Harness {
    pub offscreen: bool,
    pub created: bool,
    pub query_seen: bool,
    pub last_title: String,
    /// The step whose input was sent last: 1 click, 2 wheel, 3 key, 4 input method; 0 for none.
    pub phase: u8,
    pub last_input: u64,
    pub started: u64,
}

/// The model of a [`Harness`].
#[verifier::ext_equal]
pub struct HarnessV {
    pub offscreen: bool,
    pub created: bool,
    pub query_seen: bool,
    pub last_title: Seq<char>,
    pub phase: u8,
    pub last_input: u64,
    pub started: u64,
}

impl View for Harness {
    type V = HarnessV;

    open spec fn view(&self) -> HarnessV {
        HarnessV {
            offscreen: self.offscreen,
            created: self.created,
            query_seen: self.query_seen,
            last_title: self.last_title@,
            phase: self.phase,
            last_input: self.last_input,
            started: self.started,
        }
    }
}

impl Harness {
    /// A run that begins now.
    pub fn new(offscreen: bool, now: u64) -> (h: Harness)
        ensures
            h@ == (HarnessV {
                offscreen,
                created: false,
                query_seen: false,
                last_title: ""@,
                phase: 0,
                last_input: now,
                started: now,
            }),
    {
        Harness {
            offscreen,
            created: false,
            query_seen: false,
            last_title: "".to_owned(),
            phase: 0,
            last_input: now,
            started: now,
        }
    }
}

// ── documents ────────────────────────────────────────────────────────────────────────────────

/// The text `s`.
pub open spec fn str_tree(s: Seq<char>) -> JsonV {
    JsonV::Str(s)
}

/// The number `n`.
pub open spec fn num_tree(n: u64) -> JsonV {
    JsonV::Num(Num::Pos(n))
}

/// The configuration that the module is started with.
pub open spec fn config_tree(dist: Seq<char>) -> JsonV {
    JsonV::Obj(map!["name"@ => str_tree("browser-chromium"@), "distDir"@ => str_tree(dist)])
}

/// The configuration that the module is started with.
pub fn config(dist: &str) -> (j: Json)
    ensures
        j@ == config_tree(dist@),
{
    let mut m = Members::new();
    m.put("name", json::text_json("browser-chromium"));
    m.put("distDir", json::text_json(dist));
    m.done()
}

/// The request for the browser with the test page: offscreen at `scale`, or windowed.
pub open spec fn create_tree(scale: Option<Num>) -> JsonV {
    let windowed = map![
        "type"@ => str_tree("create"@),
        "x"@ => num_tree(10),
        "y"@ => num_tree(10),
        "w"@ => num_tree(700),
        "h"@ => num_tree(440),
        "url"@ => str_tree(TEST_PAGE@),
    ];
    match scale {
        Some(n) => JsonV::Obj(
            windowed.insert("mode"@, str_tree("offscreen"@)).insert(
                "scale"@,
                JsonV::Num(json::canonical(n)),
            ),
        ),
        None => JsonV::Obj(windowed),
    }
}

/// The request for the browser with the test page.
pub fn create_request(scale: Option<Num>) -> (j: Json)
    ensures
        j@ == create_tree(scale),
{
    let mut m = Members::new();
    m.put("type", json::text_json("create"));
    m.put("x", json::number_json(10));
    m.put("y", json::number_json(10));
    m.put("w", json::number_json(700));
    m.put("h", json::number_json(440));
    m.put("url", json::text_json(TEST_PAGE));
    if let Some(n) = scale {
        m.put("mode", json::text_json("offscreen"));
        m.put("scale", Json::Num(n));
    }
    m.done()
}

/// The request for the module's counters.
pub fn stats_request() -> (j: Json)
    ensures
        j@ == JsonV::Obj(map!["type"@ => str_tree("stats"@)]),
{
    let mut m = Members::new();
    m.put("type", json::text_json("stats"));
    m.done()
}

/// The answer to the page's question.
pub open spec fn pong_tree(query_id: i64) -> JsonV {
    JsonV::Obj(
        map![
            "type"@ => str_tree("query-reply"@),
            "queryId"@ => JsonV::Num(json::signed_num(query_id)),
            "success"@ => JsonV::Bool(true),
            "response"@ => str_tree("pong"@),
            "keep"@ => JsonV::Bool(false),
        ],
    )
}

fn pong(query_id: i64) -> (j: Json)
    ensures
        j@ == pong_tree(query_id),
{
    let mut m = Members::new();
    m.put("type", json::text_json("query-reply"));
    m.put("queryId", json::signed_json(query_id));
    m.put("success", json::truth_json(true));
    m.put("response", json::text_json("pong"));
    m.put("keep", json::truth_json(false));
    m.done()
}

// ── events ───────────────────────────────────────────────────────────────────────────────────

/// The run after event `t`: a question was seen, or the title changed.
pub open spec fn heard(h: HarnessV, t: JsonV) -> HarnessV {
    match json::as_text(json::member(t, "event"@)) {
        Some(name) => if name == "query"@ {
            HarnessV { query_seen: true, ..h }
        } else if name == "title"@ {
            match json::as_text(json::member(t, "title"@)) {
                Some(title) => HarnessV { last_title: title, ..h },
                None => h,
            }
        } else {
            h
        },
        None => h,
    }
}

/// What is sent in answer to event `t`: a question is answered at once.
pub open spec fn reply_to(t: JsonV) -> Option<JsonV> {
    if json::as_text(json::member(t, "event"@)) == Some("query"@) {
        Some(
            pong_tree(
                match json::as_signed(json::member(t, "queryId"@)) {
                    Some(q) => q,
                    None => -1i64,
                },
            ),
        )
    } else {
        None
    }
}

/// The models of an optional document.
pub open spec fn reply_model(j: Option<Json>) -> Option<JsonV> {
    match j {
        Some(d) => Some(d@),
        None => None,
    }
}

/// The module reports event `j`. Returns what is to be sent in answer.
pub fn hear(h: &mut Harness, j: &Json) -> (r: Option<Json>)
    ensures
        final(h)@ == heard(old(h)@, j@),
        reply_model(r) == reply_to(j@),
{
    match j.text("event") {
        Some(name) => if same(name.as_str(), "query") {
            h.query_seen = true;
            let query_id: i64 = match j.signed("queryId") {
                Some(q) => q,
                None => -1,
            };
            Some(pong(query_id))
        } else if same(name.as_str(), "title") {
            if let Some(title) = j.text("title") {
                h.last_title = title.clone();
            }
            None
        } else {
            None
        },
        None => None,
    }
}

/// The document that the bytes of an event hold, if they hold one.
pub open spec fn event_in(bytes: Seq<u8>) -> Option<JsonV> {
    match json::json_read(encode_utf8(text::lossy_text(bytes))) {
        Ok(t) => Some(t),
        Err(_) => None,
    }
}

/// The module reports an event. Returns what is to be sent in answer.
pub fn host_emit(h: &mut Harness, bytes: &[u8]) -> (r: Option<Json>)
    ensures
        match event_in(bytes@) {
            Some(t) => final(h)@ == heard(old(h)@, t) && reply_model(r) == reply_to(t),
            None => final(h)@ == old(h)@ && r is None,
        },
{
    let shown = text::lossy(bytes);
    let again: Vec<u8> = shown.as_str().as_bytes_vec();
    match json::parse(again.as_slice()) {
        Ok(j) => hear(h, &j),
        Err(_) => None,
    }
}

/// Whether the browser was made, by the reply to the request for it.
pub fn note_created(h: &mut Harness, reply: &Json)
    ensures
        final(h)@ == (HarnessV {
            created: json::as_truth(json::member(reply@, "ok"@)) == Some(true),
            ..old(h)@
        }),
{
    h.created = match reply.truth("ok") {
        Some(ok) => ok,
        None => false,
    };
}

/// The frames shown so far, by the module's counters.
pub open spec fn frames_in(stats: JsonV) -> u64 {
    match json::member(stats, "dbg"@) {
        Some(dbg) => match json::as_unsigned(json::member(dbg, "framesPresented"@)) {
            Some(n) => n,
            None => 0,
        },
        None => 0,
    }
}

/// The frames that count for the run: those shown offscreen so far, by the module's counters. A
/// windowed browser shows its own, which counts as enough.
pub fn frames_shown(h: &Harness, stats: &Json) -> (r: u64)
    ensures
        r == (if h@.offscreen {
            frames_in(stats@)
        } else {
            u64::MAX
        }),
{
    if !h.offscreen {
        return u64::MAX;
    }
    match stats.get("dbg") {
        Some(dbg) => match dbg.unsigned("framesPresented") {
            Some(n) => n,
            None => 0,
        },
        None => 0,
    }
}

// ── input ────────────────────────────────────────────────────────────────────────────────────

/// The request to focus the browser.
pub open spec fn focus_tree() -> JsonV {
    JsonV::Obj(map!["type"@ => str_tree("focus"@), "id"@ => num_tree(1)])
}

/// A mouse request at the page's input field.
pub open spec fn mouse_tree(kind: Seq<char>) -> Map<Seq<char>, JsonV> {
    map![
        "type"@ => str_tree("mouse"@),
        "id"@ => num_tree(1),
        "kind"@ => str_tree(kind),
        "x"@ => num_tree(120),
        "y"@ => num_tree(80),
    ]
}

/// A mouse request with the left button.
pub open spec fn click_tree(kind: Seq<char>) -> JsonV {
    JsonV::Obj(mouse_tree(kind).insert("button"@, num_tree(0)).insert("clicks"@, num_tree(1)))
}

/// The request to turn the wheel.
pub open spec fn wheel_tree() -> JsonV {
    JsonV::Obj(
        map![
            "type"@ => str_tree("wheel"@),
            "id"@ => num_tree(1),
            "x"@ => num_tree(350),
            "y"@ => num_tree(250),
            "dx"@ => num_tree(0),
            "dy"@ => num_tree(120),
        ],
    )
}

/// A key request for the key `A`.
pub open spec fn key_tree(kind: Seq<char>) -> Map<Seq<char>, JsonV> {
    map![
        "type"@ => str_tree("key"@),
        "id"@ => num_tree(1),
        "kind"@ => str_tree(kind),
        "code"@ => num_tree(65),
    ]
}

/// An input method request.
pub open spec fn ime_tree(kind: Seq<char>, text: Seq<char>) -> Map<Seq<char>, JsonV> {
    map![
        "type"@ => str_tree("ime"@),
        "id"@ => num_tree(1),
        "kind"@ => str_tree(kind),
        "text"@ => str_tree(text),
    ]
}

/// The requests of step `phase`, in order.
pub open spec fn inputs(phase: u8) -> Seq<JsonV> {
    if phase == 1 {
        seq![
            focus_tree(),
            JsonV::Obj(mouse_tree("move"@)),
            click_tree("down"@),
            click_tree("up"@),
        ]
    } else if phase == 2 {
        seq![wheel_tree()]
    } else if phase == 3 {
        seq![
            JsonV::Obj(key_tree("down"@)),
            JsonV::Obj(key_tree("char"@).insert("char"@, str_tree("a"@))),
            JsonV::Obj(key_tree("up"@)),
        ]
    } else if phase == 4 {
        seq![
            JsonV::Obj(ime_tree("set"@, "하"@).insert("caret"@, num_tree(1))),
            JsonV::Obj(ime_tree("set"@, "한"@).insert("caret"@, num_tree(1))),
            JsonV::Obj(ime_tree("commit"@, "한글"@)),
        ]
    } else {
        Seq::empty()
    }
}

fn mouse_members(kind: &str) -> (m: Members)
    ensures
        m@ == mouse_tree(kind@),
{
    let mut m = Members::new();
    m.put("type", json::text_json("mouse"));
    m.put("id", json::number_json(1));
    m.put("kind", json::text_json(kind));
    m.put("x", json::number_json(120));
    m.put("y", json::number_json(80));
    m
}

fn click(kind: &str) -> (j: Json)
    ensures
        j@ == click_tree(kind@),
{
    let mut m = mouse_members(kind);
    m.put("button", json::number_json(0));
    m.put("clicks", json::number_json(1));
    m.done()
}

fn key_members(kind: &str) -> (m: Members)
    ensures
        m@ == key_tree(kind@),
{
    let mut m = Members::new();
    m.put("type", json::text_json("key"));
    m.put("id", json::number_json(1));
    m.put("kind", json::text_json(kind));
    m.put("code", json::number_json(65));
    m
}

fn ime_members(kind: &str, words: &str) -> (m: Members)
    ensures
        m@ == ime_tree(kind@, words@),
{
    let mut m = Members::new();
    m.put("type", json::text_json("ime"));
    m.put("id", json::number_json(1));
    m.put("kind", json::text_json(kind));
    m.put("text", json::text_json(words));
    m
}

/// The requests of step `phase`, in order.
pub fn send_input_for_phase(phase: u8) -> (r: Vec<Json>)
    ensures
        json::list_tree(r@) == inputs(phase),
{
    let mut out = json::Items::new();
    if phase == 1 {
        let mut focus = Members::new();
        focus.put("type", json::text_json("focus"));
        focus.put("id", json::number_json(1));
        out.put(focus.done());
        out.put(mouse_members("move").done());
        out.put(click("down"));
        out.put(click("up"));
    } else if phase == 2 {
        let mut wheel = Members::new();
        wheel.put("type", json::text_json("wheel"));
        wheel.put("id", json::number_json(1));
        wheel.put("x", json::number_json(350));
        wheel.put("y", json::number_json(250));
        wheel.put("dx", json::number_json(0));
        wheel.put("dy", json::number_json(120));
        out.put(wheel.done());
    } else if phase == 3 {
        out.put(key_members("down").done());
        let mut typed = key_members("char");
        typed.put("char", json::text_json("a"));
        out.put(typed.done());
        out.put(key_members("up").done());
    } else if phase == 4 {
        let mut first = ime_members("set", "하");
        first.put("caret", json::number_json(1));
        out.put(first.done());
        let mut second = ime_members("set", "한");
        second.put("caret", json::number_json(1));
        out.put(second.done());
        out.put(ime_members("commit", "한글").done());
    }
    assert(out@ =~= inputs(phase));
    out.list
}

// ── the run ──────────────────────────────────────────────────────────────────────────────────

/// The step that the page is ready for, if it is ready for another: it reported the one before.
pub open spec fn step_after(phase: u8, title: Seq<char>, frames: u64) -> Option<u8> {
    if phase == 0 && "Q_OK:"@.is_prefix_of(title) && frames > 0 {
        Some(1)
    } else if phase == 1 && title == "CLICK_OK"@ {
        Some(2)
    } else if phase == 2 && "WHEEL_OK:down"@.is_prefix_of(title) {
        Some(3)
    } else if phase == 3 && ("KEY_OK:65"@.is_prefix_of(title) || title == "IME_OK:a"@) {
        Some(4)
    } else {
        None
    }
}

/// The step that the page is ready for, if it is ready for another.
pub fn next_phase(phase: u8, title: &str, frames: u64) -> (r: Option<u8>)
    ensures
        r == step_after(phase, title@, frames),
{
    if phase == 0 && text::starts_with(title, "Q_OK:") && frames > 0 {
        Some(1)
    } else if phase == 1 && same(title, "CLICK_OK") {
        Some(2)
    } else if phase == 2 && text::starts_with(title, "WHEEL_OK:down") {
        Some(3)
    } else if phase == 3 && (text::starts_with(title, "KEY_OK:65") || same(title, "IME_OK:a")) {
        Some(4)
    } else {
        None
    }
}

/// Time gone by since `then`.
pub open spec fn since(then: u64, now: u64) -> u64 {
    if now >= then {
        (now - then) as u64
    } else {
        0
    }
}

/// The step whose input is to be sent now: the next one; or the same again, where the page has been
/// still for long.
pub open spec fn step_now(h: HarnessV, frames: u64, now: u64) -> Option<u8> {
    if !h.offscreen {
        None
    } else {
        match step_after(h.phase, h.last_title, frames) {
            Some(p) => Some(p),
            None => if h.phase >= 1 && since(h.last_input, now) > RESEND_MS {
                Some(h.phase)
            } else {
                None
            },
        }
    }
}

/// The run after a turn.
pub open spec fn stepped(h: HarnessV, frames: u64, now: u64) -> HarnessV {
    match step_now(h, frames, now) {
        Some(p) => HarnessV { phase: p, last_input: now, ..h },
        None => h,
    }
}

/// Whether the title says that all went well: offscreen, that the letter typed and the text composed
/// behind it have both arrived.
pub open spec fn title_passes(h: HarnessV) -> bool {
    if h.offscreen {
        h.last_title == "IME_OK:a한글"@
    } else {
        "Q_OK:pong"@.is_prefix_of(h.last_title)
    }
}

/// The verdict, once there is one: when all went well, when the page's question failed, or when time
/// is up.
pub open spec fn verdict(h: HarnessV, frames: u64, now: u64) -> Option<bool> {
    let passed = title_passes(h) && frames > 0;
    if since(h.started, now) > TIME_LIMIT_MS || passed || "Q_FAIL:"@.is_prefix_of(h.last_title) {
        Some(h.created && h.query_seen && passed)
    } else {
        None
    }
}

/// A turn of the run.
#[derive(Debug)]
pub struct Turn {
    /// The requests to send.
    pub send: Vec<Json>,
    pub verdict: Option<bool>,
}

/// A turn of the run. `frames` is the count of frames that count.
pub fn about_to_wait(h: &mut Harness, frames: u64, now: u64) -> (r: Turn)
    ensures
        final(h)@ == stepped(old(h)@, frames, now),
        json::list_tree(r.send@) == (match step_now(old(h)@, frames, now) {
            Some(p) => inputs(p),
            None => Seq::empty(),
        }),
        r.verdict == verdict(old(h)@, frames, now),
{
    let mut send: Vec<Json> = Vec::new();
    if h.offscreen {
        match next_phase(h.phase, h.last_title.as_str(), frames) {
            Some(p) => {
                h.phase = p;
                h.last_input = now;
                send = send_input_for_phase(p);
            },
            None => {
                if h.phase >= 1 && now.saturating_sub(h.last_input) > RESEND_MS {
                    h.last_input = now;
                    send = send_input_for_phase(h.phase);
                }
            },
        }
    }
    let title = h.last_title.as_str();
    let title_pass: bool = if h.offscreen {
        same(title, "IME_OK:a한글")
    } else {
        text::starts_with(title, "Q_OK:pong")
    };
    let passed: bool = title_pass && frames > 0;
    let over: bool = now.saturating_sub(h.started) > TIME_LIMIT_MS || passed || text::starts_with(
        title,
        "Q_FAIL:",
    );
    let verdict = if over {
        Some(h.created && h.query_seen && passed)
    } else {
        None
    };
    Turn { send, verdict }
}

/// The time between two turns: elsewhere than on macOS the turns also drive the module's pump.
pub fn poll_ms(platform: Platform) -> (r: u64)
    ensures
        r == (if platform == Platform::MacOs {
            100u64
        } else {
            16u64
        }),
{
    if platform == Platform::MacOs {
        100
    } else {
        16
    }
}

}
