//! Requests of the browser protocol: what a JSON document asks for.

use vstd::prelude::*;
use vstd::string::*;

use crate::json;
use crate::json::{Json, JsonV, Num};
use crate::ops::Op;
use crate::presenter;
use crate::text;
use crate::text::same;

verus! {

/// A request.
#[derive(Debug)]
pub enum Command<S> {
    Caps,
    Create {
        nsview: usize,
        x: i32,
        y: i32,
        w: i32,
        h: i32,
        url: S,
        scale: Option<Num>,
        owner: S,
    },
    DevtoolsOpen {
        nsview: usize,
        x: i32,
        y: i32,
        w: i32,
        h: i32,
        inspected: u32,
        screencast: bool,
        owner: S,
    },
    /// An operation on a browser.
    Ask { op: Op<S> },
    Close { id: u32 },
    Eval { id: u32, js: S },
    QueryReply { query_id: i64, success: bool, response: S, error_code: i32, keep: bool },
    Stats,
    PopupMode { as_window: bool },
}

pub type CommandV = Command<Seq<char>>;

impl View for Command<String> {
    type V = CommandV;

    open spec fn view(&self) -> CommandV {
        match *self {
            Command::Caps => Command::Caps,
            Command::Create { nsview, x, y, w, h, url, scale, owner } => Command::Create {
                nsview,
                x,
                y,
                w,
                h,
                url: url@,
                scale,
                owner: owner@,
            },
            Command::DevtoolsOpen { nsview, x, y, w, h, inspected, screencast, owner } => {
                Command::DevtoolsOpen { nsview, x, y, w, h, inspected, screencast, owner: owner@ }
            },
            Command::Ask { op } => Command::Ask { op: op@ },
            Command::Close { id } => Command::Close { id },
            Command::Eval { id, js } => Command::Eval { id, js: js@ },
            Command::QueryReply { query_id, success, response, error_code, keep } => {
                Command::QueryReply { query_id, success, response: response@, error_code, keep }
            },
            Command::Stats => Command::Stats,
            Command::PopupMode { as_window } => Command::PopupMode { as_window },
        }
    }
}

/// What was read: a request, or why there is none.
pub type Read = Result<Command<String>, String>;

pub type ReadV = Result<CommandV, Seq<char>>;

/// The model of what was read.
pub open spec fn outcome(r: Read) -> ReadV {
    match r {
        Ok(c) => Ok(c@),
        Err(m) => Err(m@),
    }
}

// ── members ──────────────────────────────────────────────────────────────────────────────────

/// Member `key` as a 32-bit integer: its low bits, and 0 where there is no integer.
pub open spec fn int_in(t: JsonV, key: Seq<char>) -> i32 {
    match json::as_signed(json::member(t, key)) {
        Some(n) => n as i32,
        None => 0,
    }
}

/// Member `key` as an id: the low bits of an unsigned integer.
pub open spec fn id_in(t: JsonV, key: Seq<char>) -> Option<u32> {
    match json::as_unsigned(json::member(t, key)) {
        Some(n) => Some(n as u32),
        None => None,
    }
}

/// Member `key` as text, or `default` where there is none.
pub open spec fn text_in(t: JsonV, key: Seq<char>, default: Seq<char>) -> Seq<char> {
    match json::as_text(json::member(t, key)) {
        Some(s) => s,
        None => default,
    }
}

/// Member `key` as a truth value, or `default` where there is none.
pub open spec fn truth_in(t: JsonV, key: Seq<char>, default: bool) -> bool {
    match json::as_truth(json::member(t, key)) {
        Some(b) => b,
        None => default,
    }
}

/// Member `kind` as text.
pub open spec fn kind_in(t: JsonV) -> Option<Seq<char>> {
    json::as_text(json::member(t, "kind"@))
}

/// The browser that the request is for.
pub open spec fn target_in(t: JsonV) -> Option<u32> {
    id_in(t, "id"@)
}

fn int_at(j: &Json, key: &str) -> (r: i32)
    ensures
        r == int_in(j@, key@),
{
    match j.signed(key) {
        Some(n) => n as i32,
        None => 0,
    }
}

fn id_at(j: &Json, key: &str) -> (r: Option<u32>)
    ensures
        r == id_in(j@, key@),
{
    match j.unsigned(key) {
        Some(n) => Some(n as u32),
        None => None,
    }
}

fn text_at(j: &Json, key: &str, default: &str) -> (r: String)
    ensures
        r@ == text_in(j@, key@, default@),
{
    match j.text(key) {
        Some(s) => s.clone(),
        None => default.to_owned(),
    }
}

fn truth_at(j: &Json, key: &str, default: bool) -> (r: bool)
    ensures
        r == truth_in(j@, key@, default),
{
    match j.truth(key) {
        Some(b) => b,
        None => default,
    }
}

/// The modifier keys of the request: a negative number counts as none.
pub open spec fn mods_in(t: JsonV) -> u32 {
    let n = int_in(t, "mods"@);
    if n < 0 {
        0
    } else {
        n as u32
    }
}

fn mods_at(j: &Json) -> (r: u32)
    ensures
        r == mods_in(j@),
{
    let n: i32 = int_at(j, "mods");
    if n < 0 {
        0
    } else {
        n as u32
    }
}

/// The mouse button of the request: 0, 1 or 2, whatever lies outside brought to the nearest.
pub open spec fn button_in(t: JsonV) -> u8 {
    let n = int_in(t, "button"@);
    if n < 0 {
        0
    } else if n > 2 {
        2
    } else {
        n as u8
    }
}

fn button_at(j: &Json) -> (r: u8)
    ensures
        r == button_in(j@),
{
    let n: i32 = int_at(j, "button");
    if n < 0 {
        0
    } else if n > 2 {
        2
    } else {
        n as u8
    }
}

// ── creation ─────────────────────────────────────────────────────────────────────────────────

/// The mode of a browser: offscreen at a scale (1 where none is given), or windowed, which is also
/// the mode where none is given.
pub open spec fn mode_in(t: JsonV) -> Result<Option<Num>, Seq<char>> {
    match json::as_text(json::member(t, "mode"@)) {
        Some(m) => if m == "offscreen"@ {
            Ok(
                Some(
                    match json::as_number(json::member(t, "scale"@)) {
                        Some(n) => n,
                        None => Num::Pos(1),
                    },
                ),
            )
        } else if m == "windowed"@ {
            Ok(None)
        } else {
            Err("미지 mode: "@ + m)
        },
        None => Ok(None),
    }
}

fn mode_at(j: &Json) -> (r: Result<Option<Num>, String>)
    ensures
        match r {
            Ok(m) => mode_in(j@) == Ok::<Option<Num>, Seq<char>>(m),
            Err(e) => mode_in(j@) == Err::<Option<Num>, Seq<char>>(e@),
        },
{
    match j.text("mode") {
        Some(m) => if same(m.as_str(), "offscreen") {
            Ok(
                Some(
                    match j.number("scale") {
                        Some(n) => n,
                        None => Num::Pos(1),
                    },
                ),
            )
        } else if same(m.as_str(), "windowed") {
            Ok(None)
        } else {
            Err(text::joined("미지 mode: ", m.as_str()))
        },
        None => Ok(None),
    }
}

/// A request for a browser under the parent handle `surface`.
pub open spec fn create_in(t: JsonV, surface: usize) -> ReadV {
    if surface == 0 {
        Err("surface(부모 뷰) 없음"@)
    } else {
        match mode_in(t) {
            Err(m) => Err(m),
            Ok(scale) => Ok(
                Command::Create {
                    nsview: surface,
                    x: int_in(t, "x"@),
                    y: int_in(t, "y"@),
                    w: presenter::clamped(int_in(t, "w"@)),
                    h: presenter::clamped(int_in(t, "h"@)),
                    url: text_in(t, "url"@, "about:blank"@),
                    scale,
                    owner: text_in(t, "owner"@, ""@),
                },
            ),
        }
    }
}

fn create_at(j: &Json, surface: usize) -> (r: Read)
    ensures
        outcome(r) == create_in(j@, surface),
{
    if surface == 0 {
        return Err("surface(부모 뷰) 없음".to_owned());
    }
    match mode_at(j) {
        Err(m) => Err(m),
        Ok(scale) => Ok(
            Command::Create {
                nsview: surface,
                x: int_at(j, "x"),
                y: int_at(j, "y"),
                w: presenter::at_least_one(int_at(j, "w")),
                h: presenter::at_least_one(int_at(j, "h")),
                url: text_at(j, "url", "about:blank"),
                scale,
                owner: text_at(j, "owner", ""),
            },
        ),
    }
}

/// A request for developer tools under the parent handle `surface`.
pub open spec fn devtools_in(t: JsonV, surface: usize) -> ReadV {
    if surface == 0 {
        Err("surface(부모 뷰) 없음"@)
    } else {
        match id_in(t, "inspectedId"@) {
            None => Err("inspectedId 필요"@),
            Some(inspected) => Ok(
                Command::DevtoolsOpen {
                    nsview: surface,
                    x: int_in(t, "x"@),
                    y: int_in(t, "y"@),
                    w: presenter::clamped(int_in(t, "w"@)),
                    h: presenter::clamped(int_in(t, "h"@)),
                    inspected,
                    screencast: truth_in(t, "screencast"@, false),
                    owner: text_in(t, "owner"@, ""@),
                },
            ),
        }
    }
}

fn devtools_at(j: &Json, surface: usize) -> (r: Read)
    ensures
        outcome(r) == devtools_in(j@, surface),
{
    if surface == 0 {
        return Err("surface(부모 뷰) 없음".to_owned());
    }
    match id_at(j, "inspectedId") {
        None => Err("inspectedId 필요".to_owned()),
        Some(inspected) => Ok(
            Command::DevtoolsOpen {
                nsview: surface,
                x: int_at(j, "x"),
                y: int_at(j, "y"),
                w: presenter::at_least_one(int_at(j, "w")),
                h: presenter::at_least_one(int_at(j, "h")),
                inspected,
                screencast: truth_at(j, "screencast", false),
                owner: text_at(j, "owner", ""),
            },
        ),
    }
}

// ── input ────────────────────────────────────────────────────────────────────────────────────

/// The number of a mouse event kind.
pub open spec fn mouse_kind(k: Option<Seq<char>>) -> Option<u8> {
    match k {
        Some(s) => if s == "move"@ {
            Some(0)
        } else if s == "down"@ {
            Some(1)
        } else if s == "up"@ {
            Some(2)
        } else {
            None
        },
        None => None,
    }
}

/// The number of a key event kind.
pub open spec fn key_kind(k: Option<Seq<char>>) -> Option<u8> {
    match k {
        Some(s) => if s == "down"@ {
            Some(0)
        } else if s == "up"@ {
            Some(1)
        } else if s == "char"@ {
            Some(2)
        } else {
            None
        },
        None => None,
    }
}

/// The number of an input method event kind.
pub open spec fn ime_kind(k: Option<Seq<char>>) -> Option<u8> {
    match k {
        Some(s) => if s == "set"@ {
            Some(0)
        } else if s == "commit"@ {
            Some(1)
        } else if s == "finish"@ {
            Some(2)
        } else if s == "cancel"@ {
            Some(3)
        } else {
            None
        },
        None => None,
    }
}

/// A request with mouse input.
pub open spec fn mouse_in(t: JsonV) -> ReadV {
    match mouse_kind(kind_in(t)) {
        None => Err("미지 mouse kind: "@ + text::debug_option(kind_in(t))),
        Some(kind) => match target_in(t) {
            None => Err("id 필요"@),
            Some(id) => Ok(
                Command::Ask {
                    op: Op::Mouse {
                        id,
                        kind,
                        x: int_in(t, "x"@),
                        y: int_in(t, "y"@),
                        button: button_in(t),
                        clicks: presenter::clamped(int_in(t, "clicks"@)),
                        mods: mods_in(t),
                    },
                },
            ),
        },
    }
}

fn mouse_at(j: &Json) -> (r: Read)
    ensures
        outcome(r) == mouse_in(j@),
{
    let named = j.text("kind");
    let kind: u8 = match named {
        Some(s) => if same(s.as_str(), "move") {
            0
        } else if same(s.as_str(), "down") {
            1
        } else if same(s.as_str(), "up") {
            2
        } else {
            return Err(text::with_debug("미지 mouse kind: ", named));
        },
        None => {
            return Err(text::with_debug("미지 mouse kind: ", named));
        },
    };
    match id_at(j, "id") {
        None => Err("id 필요".to_owned()),
        Some(id) => Ok(
            Command::Ask {
                op: Op::Mouse {
                    id,
                    kind,
                    x: int_at(j, "x"),
                    y: int_at(j, "y"),
                    button: button_at(j),
                    clicks: presenter::at_least_one(int_at(j, "clicks")),
                    mods: mods_at(j),
                },
            },
        ),
    }
}

/// The character of a key request: the first UTF-16 unit of its text, 0 where there is none.
pub open spec fn char_in(t: JsonV) -> u16 {
    match json::as_text(json::member(t, "char"@)) {
        Some(s) => text::utf16_first(s),
        None => 0,
    }
}

fn char_at(j: &Json) -> (r: u16)
    ensures
        r == char_in(j@),
{
    match j.text("char") {
        Some(s) => text::first_unit(s.as_str()),
        None => 0,
    }
}

/// A request with keyboard input.
pub open spec fn key_in(t: JsonV) -> ReadV {
    match key_kind(kind_in(t)) {
        None => Err("미지 key kind: "@ + text::debug_option(kind_in(t))),
        Some(kind) => match target_in(t) {
            None => Err("id 필요"@),
            Some(id) => Ok(
                Command::Ask {
                    op: Op::Key {
                        id,
                        kind,
                        code: int_in(t, "code"@),
                        ch: char_in(t),
                        mods: mods_in(t),
                    },
                },
            ),
        },
    }
}

fn key_at(j: &Json) -> (r: Read)
    ensures
        outcome(r) == key_in(j@),
{
    let named = j.text("kind");
    let kind: u8 = match named {
        Some(s) => if same(s.as_str(), "down") {
            0
        } else if same(s.as_str(), "up") {
            1
        } else if same(s.as_str(), "char") {
            2
        } else {
            return Err(text::with_debug("미지 key kind: ", named));
        },
        None => {
            return Err(text::with_debug("미지 key kind: ", named));
        },
    };
    match id_at(j, "id") {
        None => Err("id 필요".to_owned()),
        Some(id) => Ok(
            Command::Ask {
                op: Op::Key { id, kind, code: int_at(j, "code"), ch: char_at(j), mods: mods_at(j) },
            },
        ),
    }
}

/// The caret of an input method request: the low bits of an unsigned integer, and beyond every text
/// where there is none.
pub open spec fn caret_in(t: JsonV) -> u32 {
    match id_in(t, "caret"@) {
        Some(n) => n,
        None => u32::MAX,
    }
}

/// A request with input method input.
pub open spec fn ime_in(t: JsonV) -> ReadV {
    match ime_kind(kind_in(t)) {
        None => Err("미지 ime kind: "@ + text::debug_option(kind_in(t))),
        Some(kind) => match target_in(t) {
            None => Err("id 필요"@),
            Some(id) => Ok(
                Command::Ask {
                    op: Op::Ime {
                        id,
                        kind,
                        text: text_in(t, "text"@, ""@),
                        caret: caret_in(t),
                    },
                },
            ),
        },
    }
}

fn ime_at(j: &Json) -> (r: Read)
    ensures
        outcome(r) == ime_in(j@),
{
    let named = j.text("kind");
    let kind: u8 = match named {
        Some(s) => if same(s.as_str(), "set") {
            0
        } else if same(s.as_str(), "commit") {
            1
        } else if same(s.as_str(), "finish") {
            2
        } else if same(s.as_str(), "cancel") {
            3
        } else {
            return Err(text::with_debug("미지 ime kind: ", named));
        },
        None => {
            return Err(text::with_debug("미지 ime kind: ", named));
        },
    };
    let caret: u32 = match id_at(j, "caret") {
        Some(n) => n,
        None => u32::MAX,
    };
    match id_at(j, "id") {
        None => Err("id 필요".to_owned()),
        Some(id) => Ok(
            Command::Ask { op: Op::Ime { id, kind, text: text_at(j, "text", ""), caret } },
        ),
    }
}

// ── everything ───────────────────────────────────────────────────────────────────────────────

/// A request to answer a page query.
pub open spec fn reply_in(t: JsonV) -> ReadV {
    match json::as_signed(json::member(t, "queryId"@)) {
        None => Err("queryId 필요"@),
        Some(query_id) => Ok(
            Command::QueryReply {
                query_id,
                success: truth_in(t, "success"@, true),
                response: text_in(t, "response"@, ""@),
                error_code: match json::as_signed(json::member(t, "errorCode"@)) {
                    Some(n) => n as i32,
                    None => -1i32,
                },
                keep: truth_in(t, "keep"@, false),
            },
        ),
    }
}

fn reply_at(j: &Json) -> (r: Read)
    ensures
        outcome(r) == reply_in(j@),
{
    match j.signed("queryId") {
        None => Err("queryId 필요".to_owned()),
        Some(query_id) => {
            let error_code: i32 = match j.signed("errorCode") {
                Some(n) => n as i32,
                None => -1,
            };
            Ok(
                Command::QueryReply {
                    query_id,
                    success: truth_at(j, "success", true),
                    response: text_at(j, "response", ""),
                    error_code,
                    keep: truth_at(j, "keep", false),
                },
            )
        },
    }
}

/// Request `c` on one browser: it must say which.
pub open spec fn if_target(t: JsonV, c: CommandV) -> ReadV {
    if target_in(t) is Some {
        Ok(c)
    } else {
        Err("id 필요"@)
    }
}

/// A request to open an address.
pub open spec fn load_in(t: JsonV) -> ReadV {
    match json::as_text(json::member(t, "url"@)) {
        None => Err("url 필요"@),
        Some(url) => if_target(t, Command::Ask { op: Op::Load { id: target_in(t)->0, url } }),
    }
}

/// A request to run a script.
pub open spec fn eval_in(t: JsonV) -> ReadV {
    match json::as_text(json::member(t, "js"@)) {
        None => Err("js 필요"@),
        Some(js) => if_target(t, Command::Eval { id: target_in(t)->0, js }),
    }
}

/// What the document `t` asks for, with the parent handle `surface` (0 where there is none).
pub open spec fn command_in(t: JsonV, surface: usize) -> ReadV {
    let ty = text_in(t, "type"@, ""@);
    let id = target_in(t)->0;
    if ty == "caps"@ {
        Ok(Command::Caps)
    } else if ty == "create"@ {
        create_in(t, surface)
    } else if ty == "mouse"@ {
        mouse_in(t)
    } else if ty == "wheel"@ {
        let op = Op::Wheel {
            id,
            x: int_in(t, "x"@),
            y: int_in(t, "y"@),
            dx: int_in(t, "dx"@),
            dy: int_in(t, "dy"@),
        };
        if_target(t, Command::Ask { op })
    } else if ty == "key"@ {
        key_in(t)
    } else if ty == "ime"@ {
        ime_in(t)
    } else if ty == "devtools-open"@ {
        devtools_in(t, surface)
    } else if ty == "bounds"@ {
        let op = Op::Bounds {
            id,
            x: int_in(t, "x"@),
            y: int_in(t, "y"@),
            w: presenter::clamped(int_in(t, "w"@)),
            h: presenter::clamped(int_in(t, "h"@)),
        };
        if_target(t, Command::Ask { op })
    } else if ty == "load"@ {
        load_in(t)
    } else if ty == "query-reply"@ {
        reply_in(t)
    } else if ty == "reload"@ {
        let op = Op::Reload { id, ignore_cache: truth_in(t, "ignoreCache"@, false) };
        if_target(t, Command::Ask { op })
    } else if ty == "eval"@ {
        eval_in(t)
    } else if ty == "stop"@ {
        if_target(t, Command::Ask { op: Op::Stop { id } })
    } else if ty == "back"@ {
        if_target(t, Command::Ask { op: Op::Back { id } })
    } else if ty == "forward"@ {
        if_target(t, Command::Ask { op: Op::Forward { id } })
    } else if ty == "hidden"@ {
        let op = Op::Hidden { id, hidden: truth_in(t, "hidden"@, false) };
        if_target(t, Command::Ask { op })
    } else if ty == "focus"@ {
        if_target(t, Command::Ask { op: Op::Focus { id } })
    } else if ty == "close"@ {
        if_target(t, Command::Close { id })
    } else if ty == "stats"@ {
        Ok(Command::Stats)
    } else if ty == "popup-mode"@ {
        Ok(Command::PopupMode { as_window: truth_in(t, "asWindow"@, false) })
    } else {
        Err("미지 요청 type: "@ + ty)
    }
}

/// A request on browser `target`, which it must say.
fn ask(target: Option<u32>, op: Op<String>) -> (r: Read)
    ensures
        outcome(r) == (if target is Some {
            Ok::<CommandV, Seq<char>>(Command::Ask { op: op@ })
        } else {
            Err("id 필요"@)
        }),
{
    match target {
        Some(_) => Ok(Command::Ask { op }),
        None => Err("id 필요".to_owned()),
    }
}

/// Reads what the document `j` asks for, with the parent handle `surface` (0 where there is none).
pub fn read_command(j: &Json, surface: usize) -> (r: Read)
    ensures
        outcome(r) == command_in(j@, surface),
{
    let named = text_at(j, "type", "");
    let ty = named.as_str();
    let target = id_at(j, "id");
    let id: u32 = match target {
        Some(n) => n,
        None => 0,
    };
    if same(ty, "caps") {
        Ok(Command::Caps)
    } else if same(ty, "create") {
        create_at(j, surface)
    } else if same(ty, "mouse") {
        mouse_at(j)
    } else if same(ty, "wheel") {
        ask(
            target,
            Op::Wheel {
                id,
                x: int_at(j, "x"),
                y: int_at(j, "y"),
                dx: int_at(j, "dx"),
                dy: int_at(j, "dy"),
            },
        )
    } else if same(ty, "key") {
        key_at(j)
    } else if same(ty, "ime") {
        ime_at(j)
    } else if same(ty, "devtools-open") {
        devtools_at(j, surface)
    } else if same(ty, "bounds") {
        ask(
            target,
            Op::Bounds {
                id,
                x: int_at(j, "x"),
                y: int_at(j, "y"),
                w: presenter::at_least_one(int_at(j, "w")),
                h: presenter::at_least_one(int_at(j, "h")),
            },
        )
    } else if same(ty, "load") {
        match j.text("url") {
            Some(url) => ask(target, Op::Load { id, url: url.clone() }),
            None => Err("url 필요".to_owned()),
        }
    } else if same(ty, "query-reply") {
        reply_at(j)
    } else if same(ty, "reload") {
        ask(target, Op::Reload { id, ignore_cache: truth_at(j, "ignoreCache", false) })
    } else if same(ty, "eval") {
        match j.text("js") {
            Some(js) => match target {
                Some(id) => Ok(Command::Eval { id, js: js.clone() }),
                None => Err("id 필요".to_owned()),
            },
            None => Err("js 필요".to_owned()),
        }
    } else if same(ty, "stop") {
        ask(target, Op::Stop { id })
    } else if same(ty, "back") {
        ask(target, Op::Back { id })
    } else if same(ty, "forward") {
        ask(target, Op::Forward { id })
    } else if same(ty, "hidden") {
        ask(target, Op::Hidden { id, hidden: truth_at(j, "hidden", false) })
    } else if same(ty, "focus") {
        ask(target, Op::Focus { id })
    } else if same(ty, "close") {
        match target {
            Some(id) => Ok(Command::Close { id }),
            None => Err("id 필요".to_owned()),
        }
    } else if same(ty, "stats") {
        Ok(Command::Stats)
    } else if same(ty, "popup-mode") {
        Ok(Command::PopupMode { as_window: truth_at(j, "asWindow", false) })
    } else {
        Err(text::joined("미지 요청 type: ", ty))
    }
}

}
