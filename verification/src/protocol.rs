//! The module's doors: requests, notices and start-up, as the host hands them in.

use vstd::prelude::*;
use vstd::string::*;
use vstd::utf8::*;

use crate::command;
use crate::command::{Command, CommandV};
use crate::engine;
use crate::engine::{Due, Engine, EngineV};
use crate::json;
use crate::json::{Items, Json, JsonV, Members, Num};
use crate::ops::{ActionV, Actions, CreateReq, Op};
use crate::text;
use crate::text::same;

verus! {

/// The version of the host interface that this module speaks.
pub const HOST_ABI_VERSION: u32 = 1;

/// What the module says of itself.
#[derive(Clone, Copy, Debug)]
pub struct SoksakSidecarEngineAbi {
    pub abi: u32,
    pub interface: &'static str,
    pub version: &'static str,
}

/// A reply, as bytes.
#[derive(Debug)]
pub struct SoksakBuf {
    pub bytes: Vec<u8>,
}

/// The document `t` as bytes.
pub open spec fn wire(t: JsonV) -> Seq<u8> {
    encode_utf8(json::json_text(t))
}

/// The document `j` as bytes, for the host.
pub fn host_emit_json(j: Json) -> (r: Vec<u8>)
    ensures
        r@ == wire(j@),
{
    json::render(j).as_str().as_bytes_vec()
}

/// What the module says of itself.
pub fn soksak_sidecar_engine_abi() -> (r: SoksakSidecarEngineAbi)
    ensures
        r.abi == HOST_ABI_VERSION,
        r.interface@ == "soksak-spec-sidecar-browser"@,
        r.version@ == "0.0.1"@,
{
    SoksakSidecarEngineAbi {
        abi: HOST_ABI_VERSION,
        interface: "soksak-spec-sidecar-browser",
        version: "0.0.1",
    }
}

// ── replies ──────────────────────────────────────────────────────────────────────────────────

/// The reply to a request that is done.
pub open spec fn ok_tree() -> JsonV {
    JsonV::Obj(map!["ok"@ => JsonV::Bool(true)])
}

/// The reply that carries a number.
pub open spec fn ok_with(key: Seq<char>, n: u64) -> JsonV {
    JsonV::Obj(map!["ok"@ => JsonV::Bool(true), key => JsonV::Num(Num::Pos(n))])
}

/// The reply to a request that was refused.
pub open spec fn error_tree(message: Seq<char>) -> JsonV {
    JsonV::Obj(map!["error"@ => JsonV::Str(message)])
}

/// What the module can do.
pub open spec fn caps_tree() -> JsonV {
    JsonV::Obj(
        map![
            "ok"@ => JsonV::Bool(true),
            "modes"@ => JsonV::Arr(seq![JsonV::Str("windowed"@), JsonV::Str("offscreen"@)]),
            "version"@ => JsonV::Str("0.0.1"@),
        ],
    )
}

/// The ids of the living browsers.
pub open spec fn ids_tree(s: EngineV) -> Seq<JsonV> {
    s.browsers.map_values(|b: (u32, i32)| JsonV::Num(Num::Pos(b.0 as u64)))
}

/// One living browser: id, owner and mode.
pub open spec fn surface_tree(s: EngineV, id: u32) -> JsonV {
    JsonV::Obj(
        map![
            "id"@ => JsonV::Num(Num::Pos(id as u64)),
            "owner"@ => JsonV::Str(engine::owner_of(s, id)),
            "offscreen"@ => JsonV::Bool(s.surfaces.has(id)),
        ],
    )
}

/// The living browsers: id, owner and mode of each.
pub open spec fn surfaces_tree(s: EngineV) -> Seq<JsonV> {
    s.browsers.map_values(|b: (u32, i32)| surface_tree(s, b.0))
}

/// The counters.
pub open spec fn dbg_tree(s: EngineV) -> JsonV {
    JsonV::Obj(
        map![
            "closeEnter"@ => JsonV::Num(Num::Pos(s.dbg.close_enter)),
            "closeApplied"@ => JsonV::Num(Num::Pos(s.dbg.close_applied)),
            "closeBrowser"@ => JsonV::Num(Num::Pos(s.dbg.close_browser)),
            "closeNotFound"@ => JsonV::Num(Num::Pos(s.dbg.close_notfound)),
            "reaped"@ => JsonV::Num(Num::Pos(s.dbg.reaped)),
            "framesPresented"@ => JsonV::Num(Num::Pos(s.surfaces.frames_presented)),
        ],
    )
}

/// The state of the module, for diagnosis.
pub open spec fn stats_tree(s: EngineV) -> JsonV {
    JsonV::Obj(
        map![
            "ok"@ => JsonV::Bool(true),
            "ids"@ => JsonV::Arr(ids_tree(s)),
            "surfaces"@ => JsonV::Arr(surfaces_tree(s)),
            "dbg"@ => dbg_tree(s),
        ],
    )
}

fn ok_json() -> (j: Json)
    ensures
        j@ == ok_tree(),
{
    let mut m = Members::new();
    m.put("ok", json::truth_json(true));
    m.done()
}

fn ok_with_json(key: &str, n: u64) -> (j: Json)
    ensures
        j@ == ok_with(key@, n),
{
    let mut m = Members::new();
    m.put("ok", json::truth_json(true));
    m.put(key, json::number_json(n));
    m.done()
}

fn error_json(message: &str) -> (j: Json)
    ensures
        j@ == error_tree(message@),
{
    let mut m = Members::new();
    m.put("error", json::text_json(message));
    m.done()
}

fn caps_json() -> (j: Json)
    ensures
        j@ == caps_tree(),
{
    let mut modes = Items::new();
    modes.put(json::text_json("windowed"));
    modes.put(json::text_json("offscreen"));
    assert(modes@ =~= seq![JsonV::Str("windowed"@), JsonV::Str("offscreen"@)]);
    let mut m = Members::new();
    m.put("ok", json::truth_json(true));
    m.put("modes", modes.done());
    m.put("version", json::text_json("0.0.1"));
    m.done()
}

fn ids_json(e: &Engine) -> (j: Json)
    ensures
        j@ == JsonV::Arr(ids_tree(e@)),
{
    let ids = engine::browser_ids(e);
    let mut items = Items::new();
    let mut i: usize = 0;
    while i < ids.len()
        invariant
            i <= ids@.len(),
            ids@ == e@.browsers.map_values(|b: (u32, i32)| b.0),
            items@ == ids_tree(e@).take(i as int),
        decreases ids@.len() - i,
    {
        items.put(json::number_json(ids[i] as u64));
        i = i + 1;
        assert(items@ =~= ids_tree(e@).take(i as int));
    }
    assert(items@ =~= ids_tree(e@));
    items.done()
}

fn surfaces_json(e: &Engine) -> (j: Json)
    ensures
        j@ == JsonV::Arr(surfaces_tree(e@)),
{
    let infos = engine::surfaces_info(e);
    let mut items = Items::new();
    let mut i: usize = 0;
    while i < infos.len()
        invariant
            i <= infos@.len(),
            engine::info_matches(e@, infos@),
            items@ == surfaces_tree(e@).take(i as int),
        decreases infos@.len() - i,
    {
        let ghost info = infos@[i as int];
        let mut m = Members::new();
        m.put("id", json::number_json(infos[i].0 as u64));
        m.put("owner", json::text_json(infos[i].1.as_str()));
        m.put("offscreen", json::truth_json(infos[i].2));
        assert(info.0 == e@.browsers[i as int].0);
        items.put(m.done());
        i = i + 1;
        assert(items@ =~= surfaces_tree(e@).take(i as int));
    }
    assert(items@ =~= surfaces_tree(e@));
    items.done()
}

fn stats_json(e: &Engine) -> (j: Json)
    ensures
        j@ == stats_tree(e@),
{
    let mut dbg = Members::new();
    dbg.put("closeEnter", json::number_json(e.dbg.close_enter));
    dbg.put("closeApplied", json::number_json(e.dbg.close_applied));
    dbg.put("closeBrowser", json::number_json(e.dbg.close_browser));
    dbg.put("closeNotFound", json::number_json(e.dbg.close_notfound));
    dbg.put("reaped", json::number_json(e.dbg.reaped));
    dbg.put("framesPresented", json::number_json(e.surfaces.frames_presented));
    let mut m = Members::new();
    m.put("ok", json::truth_json(true));
    m.put("ids", ids_json(e));
    m.put("surfaces", surfaces_json(e));
    m.put("dbg", dbg.done());
    m.done()
}

// ── requests ─────────────────────────────────────────────────────────────────────────────────

/// The state after request `c` is done.
pub open spec fn done(s: EngineV, c: CommandV, now: u64) -> EngineV {
    match c {
        Command::Caps => s,
        Command::Create { nsview, x, y, w, h, url, scale, owner } => {
            let req = CreateReq {
                id: s.next_id,
                nsview,
                x,
                y,
                w,
                h,
                url,
                devtools_of: None,
                screencast: false,
                offscreen_scale: scale,
            };
            engine::create_asked(s, req, owner, now)
        },
        Command::DevtoolsOpen { nsview, x, y, w, h, inspected, screencast, owner } => {
            let req = CreateReq {
                id: s.next_id,
                nsview,
                x,
                y,
                w,
                h,
                url: Seq::empty(),
                devtools_of: Some(inspected),
                screencast,
                offscreen_scale: None,
            };
            engine::create_asked(s, req, owner, now)
        },
        Command::Ask { op } => engine::asked(s, op, now),
        Command::Close { id } => engine::close_asked(s, id, now),
        Command::Eval { id, js } => engine::eval_asked(s, id, js, now),
        Command::QueryReply { query_id, keep, .. } => engine::replied(s, query_id, keep),
        Command::Stats => s,
        Command::PopupMode { as_window } => EngineV { popup_as_window: as_window, ..s },
    }
}

/// The reply to request `c`.
pub open spec fn answer(s: EngineV, c: CommandV) -> JsonV {
    match c {
        Command::Caps => caps_tree(),
        Command::Create { .. } => ok_with("id"@, s.next_id as u64),
        Command::DevtoolsOpen { .. } => ok_with("id"@, s.next_id as u64),
        Command::Eval { .. } => ok_with("evalId"@, s.next_eval_id),
        Command::Stats => stats_tree(s),
        _ => ok_tree(),
    }
}

/// What is to be done for request `c`.
pub open spec fn done_actions(s: EngineV, c: CommandV) -> Seq<ActionV> {
    match c {
        Command::Create { .. } => engine::pump_actions(s, 0),
        Command::DevtoolsOpen { .. } => engine::pump_actions(s, 0),
        Command::Ask { op } => engine::ask_actions(s, op),
        Command::Close { id } => engine::ask_actions(s, Op::Close { id }),
        Command::Eval { id, js } => engine::ask_actions(
            s,
            Op::Eval { id, eval_id: s.next_eval_id, js },
        ),
        Command::QueryReply { query_id, success, response, error_code, keep } => {
            engine::reply_actions(s, query_id, success, response, error_code, keep)
        },
        _ => Seq::empty(),
    }
}

/// Does request `c`, and returns the reply.
pub fn perform(e: &mut Engine, c: Command<String>, now: u64) -> (r: (Json, Actions))
    ensures
        final(e)@ == done(old(e)@, c@, now),
        r.0@ == answer(old(e)@, c@),
        r.1@ == done_actions(old(e)@, c@),
{
    match c {
        Command::Caps => (caps_json(), Actions::new()),
        Command::Create { nsview, x, y, w, h, url, scale, owner } => {
            let (id, acts) = engine::request_create(e, nsview, x, y, w, h, url, scale, owner, now);
            (ok_with_json("id", id as u64), acts)
        },
        Command::DevtoolsOpen { nsview, x, y, w, h, inspected, screencast, owner } => {
            let (id, acts) = engine::request_create_devtools(
                e,
                nsview,
                x,
                y,
                w,
                h,
                inspected,
                screencast,
                owner,
                now,
            );
            (ok_with_json("id", id as u64), acts)
        },
        Command::Ask { op } => {
            let acts = engine::request_op(e, op, now);
            (ok_json(), acts)
        },
        Command::Close { id } => {
            let acts = engine::close(e, id, now);
            (ok_json(), acts)
        },
        Command::Eval { id, js } => {
            let (eval_id, acts) = engine::request_eval(e, id, js, now);
            (ok_with_json("evalId", eval_id), acts)
        },
        Command::QueryReply { query_id, success, response, error_code, keep } => {
            let acts = engine::query_reply(e, query_id, success, response, error_code, keep);
            (ok_json(), acts)
        },
        Command::Stats => (stats_json(e), Actions::new()),
        Command::PopupMode { as_window } => {
            engine::set_popup_window(e, as_window);
            (ok_json(), Actions::new())
        },
    }
}

/// The state after the document `t` is dealt with: one that is refused changes nothing.
pub open spec fn dispatched(s: EngineV, t: JsonV, surface: usize, now: u64) -> EngineV {
    match command::command_in(t, surface) {
        Ok(c) => done(s, c, now),
        Err(_) => s,
    }
}

/// The answer to the document `t`: a reply, or why it was refused.
pub open spec fn dispatch_answer(s: EngineV, t: JsonV, surface: usize) -> Result<JsonV, Seq<char>> {
    match command::command_in(t, surface) {
        Ok(c) => Ok(answer(s, c)),
        Err(m) => Err(m),
    }
}

/// What is to be done for the document `t`: nothing where it is refused.
pub open spec fn dispatch_actions(s: EngineV, t: JsonV, surface: usize) -> Seq<ActionV> {
    match command::command_in(t, surface) {
        Ok(c) => done_actions(s, c),
        Err(_) => Seq::empty(),
    }
}

/// Deals with the document `req`, with the parent handle `surface` (0 where there is none).
pub fn dispatch(e: &mut Engine, req: &Json, surface: usize, now: u64) -> (r: (
    Result<Json, String>,
    Actions,
))
    ensures
        final(e)@ == dispatched(old(e)@, req@, surface, now),
        match r.0 {
            Ok(j) => dispatch_answer(old(e)@, req@, surface) == Ok::<JsonV, Seq<char>>(j@),
            Err(m) => dispatch_answer(old(e)@, req@, surface) == Err::<JsonV, Seq<char>>(m@),
        },
        r.1@ == dispatch_actions(old(e)@, req@, surface),
{
    match command::read_command(req, surface) {
        Ok(c) => {
            let (j, acts) = perform(e, c, now);
            (Ok(j), acts)
        },
        Err(m) => (Err(m), Actions::new()),
    }
}

/// A request as it came in: a document, or why it is none.
pub type Parsed = Result<JsonV, Seq<char>>;

/// The result code of a request: 0 where it was done, -1 where it was refused.
pub open spec fn message_code(s: EngineV, p: Parsed, surface: usize) -> i32 {
    match p {
        Ok(t) => if dispatch_answer(s, t, surface) is Ok {
            0
        } else {
            -1i32
        },
        Err(_) => -1i32,
    }
}

/// The document that answers a request.
pub open spec fn message_reply(s: EngineV, p: Parsed, surface: usize) -> JsonV {
    match p {
        Ok(t) => match dispatch_answer(s, t, surface) {
            Ok(j) => j,
            Err(m) => error_tree(m),
        },
        Err(m) => error_tree("요청 JSON 파싱 실패: "@ + m),
    }
}

/// The state after a request.
pub open spec fn message_state(s: EngineV, p: Parsed, surface: usize, now: u64) -> EngineV {
    match p {
        Ok(t) => dispatched(s, t, surface, now),
        Err(_) => s,
    }
}

/// What is to be done for a request.
pub open spec fn message_actions(s: EngineV, p: Parsed, surface: usize) -> Seq<ActionV> {
    match p {
        Ok(t) => dispatch_actions(s, t, surface),
        Err(_) => Seq::empty(),
    }
}

/// The model of a request as it came in.
pub open spec fn parsed_model(p: Result<Json, String>) -> Parsed {
    match p {
        Ok(j) => Ok(j@),
        Err(m) => Err(m@),
    }
}

/// Answers a request as it came in, with a result code and a document.
pub fn answer_parsed(e: &mut Engine, p: Result<Json, String>, surface: usize, now: u64) -> (r: (
    i32,
    Json,
    Actions,
))
    ensures
        final(e)@ == message_state(old(e)@, parsed_model(p), surface, now),
        r.0 == message_code(old(e)@, parsed_model(p), surface),
        r.1@ == message_reply(old(e)@, parsed_model(p), surface),
        r.2@ == message_actions(old(e)@, parsed_model(p), surface),
{
    match p {
        Ok(req) => {
            let (answered, acts) = dispatch(e, &req, surface, now);
            match answered {
                Ok(j) => (0, j, acts),
                Err(m) => (-1, error_json(m.as_str()), acts),
            }
        },
        Err(m) => (
            -1,
            error_json(text::joined("요청 JSON 파싱 실패: ", m.as_str()).as_str()),
            Actions::new(),
        ),
    }
}

/// Answers a request, with a result code and the bytes of a document.
pub fn soksak_sidecar_engine_message(
    e: &mut Engine,
    req: Option<&[u8]>,
    surface: usize,
    now: u64,
) -> (r: (i32, SoksakBuf, Actions))
    ensures
        match req {
            None => {
                &&& final(e)@ == old(e)@
                &&& r.0 == -1
                &&& r.1.bytes@ == wire(error_tree("빈 요청"@))
                &&& r.2@ == Seq::<ActionV>::empty()
            },
            Some(bytes) => {
                let p = json::json_read(bytes@);
                &&& final(e)@ == message_state(old(e)@, p, surface, now)
                &&& r.0 == message_code(old(e)@, p, surface)
                &&& r.1.bytes@ == wire(message_reply(old(e)@, p, surface))
                &&& r.2@ == message_actions(old(e)@, p, surface)
            },
        },
{
    match req {
        None => (-1, SoksakBuf { bytes: host_emit_json(error_json("빈 요청")) }, Actions::new()),
        Some(bytes) => {
            let parsed = json::parse(bytes);
            let (code, reply, acts) = answer_parsed(e, parsed, surface, now);
            (code, SoksakBuf { bytes: host_emit_json(reply) }, acts)
        },
    }
}

// ── notices ──────────────────────────────────────────────────────────────────────────────────

/// What a notice tells.
#[derive(Clone, Copy, Debug, PartialEq, Eq, Structural)]
pub enum Notice {
    /// Something is shown above the browsers, or no longer.
    Occluded { occluded: bool },
    /// A parent handle is about to go.
    Closing { view: usize },
    /// Nothing that concerns the module.
    Other,
}

/// What the document `t` tells.
pub open spec fn notice_in(t: JsonV) -> Notice {
    match json::as_text(json::member(t, "type"@)) {
        None => Notice::Other,
        Some(ty) => if ty == "surface-occluded"@ {
            Notice::Occluded { occluded: command::truth_in(t, "occluded"@, false) }
        } else if ty == "surface-closing"@ {
            match json::as_unsigned(json::member(t, "view"@)) {
                Some(view) => Notice::Closing { view: view as usize },
                None => Notice::Other,
            }
        } else {
            Notice::Other
        },
    }
}

/// The state after a notice.
pub open spec fn notified(s: EngineV, n: Notice, now: u64) -> EngineV {
    match n {
        Notice::Occluded { occluded } => engine::asked(s, Op::Overlay { active: occluded }, now),
        Notice::Closing { view } => engine::all_closing(
            s,
            engine::children(s.parents, view),
            now,
        ),
        Notice::Other => s,
    }
}

/// What is to be done for a notice.
pub open spec fn notice_actions(s: EngineV, n: Notice) -> Seq<ActionV> {
    match n {
        Notice::Occluded { occluded } => engine::ask_actions(s, Op::Overlay { active: occluded }),
        Notice::Closing { view } => if engine::children(s.parents, view).len() == 0 {
            Seq::empty()
        } else {
            engine::pump_actions(s, 0)
        },
        Notice::Other => Seq::empty(),
    }
}

/// Deals with the notice in the document `j`.
pub fn notice(e: &mut Engine, j: &Json, now: u64) -> (acts: Actions)
    ensures
        final(e)@ == notified(old(e)@, notice_in(j@), now),
        acts@ == notice_actions(old(e)@, notice_in(j@)),
{
    match j.text("type") {
        None => Actions::new(),
        Some(ty) => if same(ty.as_str(), "surface-occluded") {
            let occluded: bool = match j.truth("occluded") {
                Some(b) => b,
                None => false,
            };
            engine::set_overlay(e, occluded, now)
        } else if same(ty.as_str(), "surface-closing") {
            match j.unsigned("view") {
                Some(view) => engine::close_surface(e, view as usize, now),
                None => Actions::new(),
            }
        } else {
            Actions::new()
        },
    }
}

/// Deals with a notice. One that cannot be read is ignored.
pub fn soksak_sidecar_engine_notify(e: &mut Engine, evt: Option<&[u8]>, now: u64) -> (acts: Actions)
    ensures
        match evt {
            None => final(e)@ == old(e)@ && acts@ == Seq::<ActionV>::empty(),
            Some(bytes) => match json::json_read(bytes@) {
                Ok(t) => {
                    &&& final(e)@ == notified(old(e)@, notice_in(t), now)
                    &&& acts@ == notice_actions(old(e)@, notice_in(t))
                },
                Err(_) => final(e)@ == old(e)@ && acts@ == Seq::<ActionV>::empty(),
            },
        },
{
    match evt {
        None => Actions::new(),
        Some(bytes) => match json::parse(bytes) {
            Ok(j) => notice(e, &j, now),
            Err(_) => Actions::new(),
        },
    }
}

// ── start-up ─────────────────────────────────────────────────────────────────────────────────

/// How start-up begins.
#[derive(Debug)]
pub struct Init {
    /// The host's callbacks are to be kept.
    pub take_host: bool,
    /// The directory that the module lives in, or the result code where start-up ends.
    pub dist: Result<String, i32>,
}

/// Whether the host is accepted: 0, or the result code where it is not.
pub open spec fn host_code(host_abi: Option<u32>, has_config: bool) -> i32 {
    match host_abi {
        Some(abi) => if !has_config {
            1
        } else if abi != HOST_ABI_VERSION {
            2
        } else {
            0
        },
        None => 1,
    }
}

/// The directory that the configuration `p` names.
pub open spec fn dist_in(p: Parsed) -> Option<Seq<char>> {
    match p {
        Ok(t) => json::as_text(json::member(t, "distDir"@)),
        Err(_) => None,
    }
}

/// The directory that the configuration `p` names, or the result code where it names none.
pub fn dist_dir(p: Result<Json, String>) -> (r: Result<String, i32>)
    ensures
        match r {
            Ok(dist) => dist_in(parsed_model(p)) == Some(dist@),
            Err(code) => dist_in(parsed_model(p)) is None && code == 3,
        },
{
    match p {
        Ok(cfg) => match cfg.text("distDir") {
            Some(dist) => Ok(dist.clone()),
            None => Err(3),
        },
        Err(_) => Err(3),
    }
}

/// Begins start-up, with the version of the host interface that the host speaks and its
/// configuration.
pub fn soksak_sidecar_engine_init(host_abi: Option<u32>, cfg: Option<&[u8]>) -> (r: Init)
    ensures
        r.take_host == (host_code(host_abi, cfg is Some) == 0),
        match r.dist {
            Ok(dist) => {
                &&& r.take_host
                &&& dist_in(json::json_read(cfg->0@)) == Some(dist@)
            },
            Err(code) => if r.take_host {
                dist_in(json::json_read(cfg->0@)) is None && code == 3
            } else {
                code == host_code(host_abi, cfg is Some)
            },
        },
{
    match cfg {
        Some(bytes) => match host_abi {
            Some(abi) => if abi != HOST_ABI_VERSION {
                Init { take_host: false, dist: Err(2) }
            } else {
                let parsed = json::parse(bytes);
                Init { take_host: true, dist: dist_dir(parsed) }
            },
            None => Init { take_host: false, dist: Err(1) },
        },
        None => Init { take_host: false, dist: Err(1) },
    }
}

/// The result code at the end of start-up.
pub fn init_code(started: bool) -> (r: i32)
    ensures
        r == (if started {
            0i32
        } else {
            4i32
        }),
{
    if started {
        0
    } else {
        4
    }
}

/// A turn of the caller's own loop: what is due is to be run.
pub fn soksak_sidecar_engine_tick(e: &mut Engine, now: u64) -> (r: Due)
    ensures
        r == engine::due_at(old(e)@, now),
        final(e)@ == engine::driven(old(e)@, now),
{
    engine::drive_pump(e, now)
}

}
