//! What the native engine reports: pages, popups, closing, loading, painting.
//!
//! A report names its browser by native identifier, where it names one.

use vstd::prelude::*;
use vstd::string::*;
use vstd::utf8::*;

use crate::engine;
use crate::engine::{Engine, EngineV};
use crate::events;
use crate::json;
use crate::json::{Json, JsonV};
use crate::ops;
use crate::ops::{Action, ActionV, Actions};
use crate::presenter;
use crate::presenter::Platform;
use crate::text;

verus! {

broadcast use vstd::std_specs::hash::group_hash_axioms;

// ── page queries ─────────────────────────────────────────────────────────────────────────────

/// The number of the script whose result a page query carries, if it carries one.
pub open spec fn eval_marker(request: Option<JsonV>) -> Option<u64> {
    match request {
        Some(t) => json::as_unsigned(json::member(t, "__soksakEval"@)),
        None => None,
    }
}

/// The state after page query `query_id`: it waits for an answer, unless it carries a script's
/// result.
pub open spec fn query_asked(s: EngineV, query_id: i64, request: Option<JsonV>) -> EngineV {
    if eval_marker(request) is Some {
        s
    } else {
        EngineV { queries: s.queries.insert(query_id), ..s }
    }
}

/// What is to be done for a page query: a script's result is reported and the query answered at
/// once; any other query goes to the host.
pub open spec fn query_actions(
    s: EngineV,
    cid: Option<i32>,
    query_id: i64,
    request: Seq<char>,
    persistent: bool,
    parsed: Option<JsonV>,
) -> Seq<ActionV> {
    let id = engine::source_id(s, cid);
    match eval_marker(parsed) {
        Some(eval_id) => seq![
            Action::Emit { event: events::eval_result(id, eval_id, parsed->0) },
            Action::AnswerQuery { query_id, response: ""@, release: true },
        ],
        None => ops::told(events::query(id, query_id, request, persistent)),
    }
}

/// A page query; `parsed` is its request as a document, where it is one.
pub fn query_received(
    e: &mut Engine,
    cid: Option<i32>,
    query_id: i64,
    request: String,
    persistent: bool,
    parsed: Option<Json>,
) -> (acts: Actions)
    ensures
        final(e)@ == query_asked(old(e)@, query_id, document_model(parsed)),
        acts@ == query_actions(
            old(e)@,
            cid,
            query_id,
            request@,
            persistent,
            document_model(parsed),
        ),
{
    let id = engine::source_of(e, cid);
    if let Some(doc) = parsed {
        if let Some(eval_id) = doc.unsigned("__soksakEval") {
            let mut acts: Actions = Actions::one(
                Action::Emit { event: events::eval_result_event(id, eval_id, &doc) },
            );
            acts.add(Action::AnswerQuery { query_id, response: "".to_owned(), release: true });
            assert(acts@ =~= query_actions(
                old(e)@,
                cid,
                query_id,
                request@,
                persistent,
                document_model(parsed),
            ));
            return acts;
        }
    }
    e.queries.insert(query_id);
    Actions::one(
        Action::Emit { event: events::query_event(id, query_id, request.as_str(), persistent) },
    )
}

/// The model of an optional document.
pub open spec fn document_model(j: Option<Json>) -> Option<JsonV> {
    match j {
        Some(d) => Some(d@),
        None => None,
    }
}

/// The document that the text `s` holds, if it holds one.
pub open spec fn document_in(s: Seq<char>) -> Option<JsonV> {
    match json::json_read(encode_utf8(s)) {
        Ok(t) => Some(t),
        Err(_) => None,
    }
}

/// A page query.
pub fn on_query_str(
    e: &mut Engine,
    cid: Option<i32>,
    query_id: i64,
    request: String,
    persistent: bool,
) -> (acts: Actions)
    ensures
        final(e)@ == query_asked(old(e)@, query_id, document_in(request@)),
        acts@ == query_actions(
            old(e)@,
            cid,
            query_id,
            request@,
            persistent,
            document_in(request@),
        ),
{
    let bytes: Vec<u8> = request.as_str().as_bytes_vec();
    let parsed = match json::parse(bytes.as_slice()) {
        Ok(j) => Some(j),
        Err(_) => None,
    };
    query_received(e, cid, query_id, request, persistent, parsed)
}

/// What is to be done when page query `query_id` is withdrawn.
pub open spec fn cancel_actions(query_id: i64) -> Seq<ActionV> {
    seq![
        Action::ForgetQuery { query_id },
        Action::Emit { event: events::query_canceled(query_id) },
    ]
}

/// Page query `query_id` was withdrawn: it can be answered no more, and the host learns of it.
pub fn on_query_canceled(e: &mut Engine, query_id: i64) -> (acts: Actions)
    ensures
        final(e)@ == (EngineV { queries: old(e)@.queries.remove(query_id), ..old(e)@ }),
        acts@ == cancel_actions(query_id),
{
    e.queries.remove(&query_id);
    let mut acts: Actions = Actions::one(Action::ForgetQuery { query_id });
    acts.add(Action::Emit { event: events::query_canceled_event(query_id) });
    assert(acts@ =~= cancel_actions(query_id));
    acts
}

// ── popups ───────────────────────────────────────────────────────────────────────────────────

/// Whether a popup at `url` opens as a native window: developer tools always do, others where they
/// are set to.
pub open spec fn popup_native(s: EngineV, url: Seq<char>) -> bool {
    "devtools://"@.is_prefix_of(url) || s.popup_as_window
}

/// What the native engine is answered when a page wants a new window: 0 lets it, 1 refuses.
pub open spec fn popup_code(s: EngineV, url: Seq<char>) -> i32 {
    if popup_native(s, url) {
        0
    } else {
        1
    }
}

/// What is to be done when a page wants a new window: where it is refused, the host gets the address.
pub open spec fn popup_actions(s: EngineV, cid: Option<i32>, url: Seq<char>) -> Seq<ActionV> {
    if popup_native(s, url) {
        Seq::empty()
    } else {
        ops::told(events::popup_url(engine::source_id(s, cid), url))
    }
}

/// A page wants to open `url` in a new window. Returns 0 to let it, or 1 to refuse, where the host
/// is handed the address instead.
pub fn on_before_popup(e: &Engine, cid: Option<i32>, url: String) -> (r: (i32, Actions))
    ensures
        r.0 == popup_code(e@, url@),
        r.1@ == popup_actions(e@, cid, url@),
{
    if text::starts_with(url.as_str(), "devtools://") || e.popup_as_window {
        return (0, Actions::new());
    }
    let src = engine::source_of(e, cid);
    (1, Actions::one(Action::Emit { event: events::popup_url_event(src, url.as_str()) }))
}

// ── closing ──────────────────────────────────────────────────────────────────────────────────

/// Whether the module takes a browser's native view down itself: that of a living windowed one.
pub open spec fn close_is_ours(s: EngineV, cid: Option<i32>) -> bool {
    match engine::source_id(s, cid) {
        Some(id) => !s.surfaces.has(id),
        None => false,
    }
}

/// What is to be done when a browser is about to close: on macOS the host learns that the view goes,
/// and it is taken out.
pub open spec fn do_close_actions(s: EngineV, cid: Option<i32>, view: Option<usize>) -> Seq<ActionV> {
    if close_is_ours(s, cid) && s.platform == Platform::MacOs && view is Some {
        seq![
            Action::Emit { event: events::surface_change("surface-destroyed"@, view->0) },
            Action::RemoveChild { cid: cid->0 },
        ]
    } else {
        Seq::empty()
    }
}

/// What the native engine is answered when a browser is about to close: 1 where the module takes the view
/// down itself, 0 otherwise.
pub open spec fn do_close_code(s: EngineV, cid: Option<i32>) -> i32 {
    if close_is_ours(s, cid) {
        1
    } else {
        0
    }
}

/// A browser is about to close; `view` is its native view, where it has one. Returns 1 where the
/// module takes the view down itself, or 0 where the native engine closes as usual.
pub fn do_close(e: &Engine, cid: Option<i32>, view: Option<usize>) -> (r: (i32, Actions))
    ensures
        r.0 == do_close_code(e@, cid),
        r.1@ == do_close_actions(e@, cid, view),
{
    let c: i32 = match cid {
        Some(c) => c,
        None => {
            return (0, Actions::new());
        },
    };
    let id: u32 = match engine::engine_id_of(e, c) {
        Some(id) => id,
        None => {
            return (0, Actions::new());
        },
    };
    if presenter::is_offscreen(&e.surfaces, id) {
        return (0, Actions::new());
    }
    let mut acts: Actions = Actions::new();
    if e.platform == Platform::MacOs {
        if let Some(v) = view {
            acts.add(Action::Emit { event: events::surface_event("surface-destroyed", v) });
            acts.add(Action::RemoveChild { cid: c });
            assert(acts@ =~= do_close_actions(e@, cid, view));
        }
    }
    (1, acts)
}

/// The state after a browser has closed: it is dropped in the next round of work.
pub open spec fn closed(s: EngineV, cid: Option<i32>, now: u64) -> EngineV {
    match cid {
        Some(c) => engine::pump_asked(EngineV { closing: s.closing.push(c), ..s }, 0, now),
        None => s,
    }
}

/// What is to be done after a browser has closed.
pub open spec fn closed_actions(s: EngineV, cid: Option<i32>) -> Seq<ActionV> {
    if cid is Some {
        engine::pump_actions(s, 0)
    } else {
        Seq::empty()
    }
}

/// A browser has closed.
pub fn on_before_close(e: &mut Engine, cid: Option<i32>, now: u64) -> (acts: Actions)
    ensures
        final(e)@ == closed(old(e)@, cid, now),
        acts@ == closed_actions(old(e)@, cid),
{
    match cid {
        Some(c) => {
            e.closing.push(c);
            engine::schedule_pump(e, 0, now)
        },
        None => Actions::new(),
    }
}

// ── loading ──────────────────────────────────────────────────────────────────────────────────

/// The words for a truth value.
pub open spec fn truth_word(b: bool) -> Seq<char> {
    if b {
        "true"@
    } else {
        "false"@
    }
}

/// The script that sets whether developer tools show the page preview. Where they do, a preview
/// that was folded away gets its usual size again.
pub open spec fn screencast_script(want: bool) -> Seq<char> {
    "(function(){try{localStorage.setItem('screencast-enabled','"@ + truth_word(want) + "');if("@
        + truth_word(want)
        + "){var s=localStorage.getItem('inspector-view.screencast-split-view-state');if(s){var o=JSON.parse(s);if(o&&o.vertical&&!o.vertical.size)localStorage.removeItem('inspector-view.screencast-split-view-state');}}}catch(e){}})();"@
}

fn screencast_text(want: bool) -> (r: String)
    ensures
        r@ == screencast_script(want),
{
    let word = if want {
        "true"
    } else {
        "false"
    };
    let mut out = "(function(){try{localStorage.setItem('screencast-enabled','".to_owned();
    out.append(word);
    out.append("');if(");
    out.append(word);
    out.append(
        "){var s=localStorage.getItem('inspector-view.screencast-split-view-state');if(s){var o=JSON.parse(s);if(o&&o.vertical&&!o.vertical.size)localStorage.removeItem('inspector-view.screencast-split-view-state');}}}catch(e){}})();",
    );
    out
}

/// What is to be done when the developer tools in browser `cid` start to load: their preview
/// setting is put in place before they read it.
pub open spec fn screencast_actions(s: EngineV, cid: i32) -> Seq<ActionV> {
    match engine::id_of(s.browsers, cid) {
        Some(id) => if s.devtools_screencast.contains_key(id) {
            seq![
                Action::ExecuteJs { cid, script: screencast_script(s.devtools_screencast[id]) },
            ]
        } else {
            Seq::empty()
        },
        None => Seq::empty(),
    }
}

/// Puts the preview setting of the developer tools in browser `cid` in place, where it holds any.
pub fn enforce_devtools_screencast(e: &Engine, cid: i32) -> (acts: Actions)
    ensures
        acts@ == screencast_actions(e@, cid),
{
    match engine::engine_id_of(e, cid) {
        Some(id) => match e.devtools_screencast.get(&id) {
            Some(want) => Actions::one(
                Action::ExecuteJs { cid, script: screencast_text(*want) },
            ),
            None => Actions::new(),
        },
        None => Actions::new(),
    }
}

/// What is to be done when a frame starts to load: only a page's main frame counts.
pub open spec fn load_start_actions(s: EngineV, cid: Option<i32>, is_main: bool) -> Seq<ActionV> {
    match cid {
        Some(c) => if is_main {
            screencast_actions(s, c)
        } else {
            Seq::empty()
        },
        None => Seq::empty(),
    }
}

/// A frame starts to load; `is_main` says whether it is the page's main frame.
pub fn on_load_start(e: &Engine, cid: Option<i32>, is_main: bool) -> (acts: Actions)
    ensures
        acts@ == load_start_actions(e@, cid, is_main),
{
    if !is_main {
        return Actions::new();
    }
    match cid {
        Some(c) => enforce_devtools_screencast(e, c),
        None => Actions::new(),
    }
}

/// The state after loading starts or ends: a browser that loads is active, and so is one that just
/// has.
pub open spec fn loading_changed(s: EngineV, cid: Option<i32>, is_loading: i32, now: u64) -> EngineV {
    match cid {
        Some(c) => {
            let t = EngineV {
                loading: if is_loading == 1 {
                    s.loading.insert(c)
                } else {
                    s.loading.remove(c)
                },
                ..s
            };
            match engine::id_of(s.browsers, c) {
                Some(id) => engine::bumped(t, id, now),
                None => t,
            }
        },
        None => s,
    }
}

/// What is to be done when loading starts or ends.
pub open spec fn loading_actions(
    s: EngineV,
    cid: Option<i32>,
    is_loading: i32,
    can_back: i32,
    can_forward: i32,
) -> Seq<ActionV> {
    match cid {
        Some(c) => {
            let id = engine::id_of(s.browsers, c);
            let told = ops::told(
                events::loading(id, is_loading == 1, can_back == 1, can_forward == 1),
            );
            if id is Some {
                told + engine::tick_actions(s)
            } else {
                told
            }
        },
        None => Seq::empty(),
    }
}

/// Loading starts or ends. The numbers are 1 for yes.
pub fn on_loading_state_change(
    e: &mut Engine,
    cid: Option<i32>,
    is_loading: i32,
    can_go_back: i32,
    can_go_forward: i32,
    now: u64,
) -> (acts: Actions)
    ensures
        final(e)@ == loading_changed(old(e)@, cid, is_loading, now),
        acts@ == loading_actions(old(e)@, cid, is_loading, can_go_back, can_go_forward),
{
    let c: i32 = match cid {
        Some(c) => c,
        None => {
            return Actions::new();
        },
    };
    if is_loading == 1 {
        e.loading.insert(c);
    } else {
        e.loading.remove(&c);
    }
    let id = engine::engine_id_of(e, c);
    let mut acts: Actions = Actions::one(
        Action::Emit {
            event: events::loading_event(
                id,
                is_loading == 1,
                can_go_back == 1,
                can_go_forward == 1,
            ),
        },
    );
    if let Some(found) = id {
        acts.extend(engine::bump_id(e, found, now));
    }
    acts
}

// ── what the page shows ──────────────────────────────────────────────────────────────────────

/// What is to be done when an address changes: only that of a page's main frame is told.
pub open spec fn address_actions(s: EngineV, cid: Option<i32>, is_main: bool, url: Seq<char>) -> Seq<
    ActionV,
> {
    if is_main {
        ops::told(events::nav(engine::source_id(s, cid), url))
    } else {
        Seq::empty()
    }
}

/// The address changed, in the page's main frame or in another.
pub fn on_address_change(e: &Engine, cid: Option<i32>, is_main: bool, url: &str) -> (acts: Actions)
    ensures
        acts@ == address_actions(e@, cid, is_main, url@),
{
    if !is_main {
        return Actions::new();
    }
    let id = engine::source_of(e, cid);
    Actions::one(Action::Emit { event: events::nav_event(id, url) })
}

/// What is to be done when the title changes.
pub open spec fn title_actions(s: EngineV, cid: Option<i32>, title: Seq<char>) -> Seq<ActionV> {
    ops::told(events::title(engine::source_id(s, cid), title))
}

/// The title changed.
pub fn on_title_change(e: &Engine, cid: Option<i32>, title: &str) -> (acts: Actions)
    ensures
        acts@ == title_actions(e@, cid, title@),
{
    let id = engine::source_of(e, cid);
    Actions::one(Action::Emit { event: events::title_event(id, title) })
}

/// What is to be done when the page's icons change.
pub open spec fn favicon_actions(s: EngineV, cid: Option<i32>, urls: Seq<Seq<char>>) -> Seq<ActionV> {
    ops::told(events::favicon(engine::source_id(s, cid), urls))
}

/// The page's icons changed.
pub fn on_favicon_urlchange(e: &Engine, cid: Option<i32>, urls: &Vec<String>) -> (acts: Actions)
    ensures
        acts@ == favicon_actions(e@, cid, events::texts(urls@)),
{
    let id = engine::source_of(e, cid);
    Actions::one(Action::Emit { event: events::favicon_event(id, urls) })
}

/// A mouse cursor, by its meaning.
#[derive(Clone, Copy, Debug, PartialEq, Eq, Structural)]
pub enum Cursor {
    Pointer,
    Cross,
    Hand,
    IBeam,
    VerticalText,
    Wait,
    Help,
    EastResize,
    WestResize,
    EastWestResize,
    NorthResize,
    SouthResize,
    NorthSouthResize,
    NorthEastResize,
    SouthWestResize,
    NorthEastSouthWestResize,
    NorthWestResize,
    SouthEastResize,
    NorthWestSouthEastResize,
    ColumnResize,
    RowResize,
    Move,
    Cell,
    ContextMenu,
    Alias,
    Progress,
    Other,
}

/// The CSS name of a cursor.
pub open spec fn cursor_name(c: Cursor) -> Seq<char> {
    match c {
        Cursor::Pointer => "default"@,
        Cursor::Cross => "crosshair"@,
        Cursor::Hand => "pointer"@,
        Cursor::IBeam | Cursor::VerticalText => "text"@,
        Cursor::Wait => "wait"@,
        Cursor::Help => "help"@,
        Cursor::EastResize | Cursor::WestResize | Cursor::EastWestResize => "ew-resize"@,
        Cursor::NorthResize | Cursor::SouthResize | Cursor::NorthSouthResize => "ns-resize"@,
        Cursor::NorthEastResize
        | Cursor::SouthWestResize
        | Cursor::NorthEastSouthWestResize => "nesw-resize"@,
        Cursor::NorthWestResize
        | Cursor::SouthEastResize
        | Cursor::NorthWestSouthEastResize => "nwse-resize"@,
        Cursor::ColumnResize => "col-resize"@,
        Cursor::RowResize => "row-resize"@,
        Cursor::Move => "move"@,
        Cursor::Cell => "cell"@,
        Cursor::ContextMenu => "context-menu"@,
        Cursor::Alias => "alias"@,
        Cursor::Progress => "progress"@,
        Cursor::Other => "default"@,
    }
}

/// The CSS name of a cursor.
pub fn css_cursor(c: Cursor) -> (r: &'static str)
    ensures
        r@ == cursor_name(c),
{
    match c {
        Cursor::Pointer => "default",
        Cursor::Cross => "crosshair",
        Cursor::Hand => "pointer",
        Cursor::IBeam | Cursor::VerticalText => "text",
        Cursor::Wait => "wait",
        Cursor::Help => "help",
        Cursor::EastResize | Cursor::WestResize | Cursor::EastWestResize => "ew-resize",
        Cursor::NorthResize | Cursor::SouthResize | Cursor::NorthSouthResize => "ns-resize",
        Cursor::NorthEastResize
        | Cursor::SouthWestResize
        | Cursor::NorthEastSouthWestResize => "nesw-resize",
        Cursor::NorthWestResize
        | Cursor::SouthEastResize
        | Cursor::NorthWestSouthEastResize => "nwse-resize",
        Cursor::ColumnResize => "col-resize",
        Cursor::RowResize => "row-resize",
        Cursor::Move => "move",
        Cursor::Cell => "cell",
        Cursor::ContextMenu => "context-menu",
        Cursor::Alias => "alias",
        Cursor::Progress => "progress",
        Cursor::Other => "default",
    }
}

/// The offscreen browser that `cid` names, if it names one.
pub open spec fn offscreen_source(s: EngineV, cid: Option<i32>) -> Option<u32> {
    match engine::source_id(s, cid) {
        Some(id) => if s.surfaces.has(id) {
            Some(id)
        } else {
            None
        },
        None => None,
    }
}

/// What the native engine is answered when a cursor changes: 1 where the host shows it, 0 otherwise.
pub open spec fn cursor_code(s: EngineV, cid: Option<i32>) -> i32 {
    if offscreen_source(s, cid) is Some {
        1
    } else {
        0
    }
}

/// What is to be done when a cursor changes.
pub open spec fn cursor_actions(s: EngineV, cid: Option<i32>, cursor: Cursor) -> Seq<ActionV> {
    match offscreen_source(s, cid) {
        Some(id) => ops::told(events::cursor(id, cursor_name(cursor))),
        None => Seq::empty(),
    }
}

/// The cursor changed. An offscreen browser has none of its own: the host shows it (1). Others show
/// it themselves (0).
pub fn on_cursor_change(e: &Engine, cid: Option<i32>, cursor: Cursor) -> (r: (i32, Actions))
    ensures
        r.0 == cursor_code(e@, cid),
        r.1@ == cursor_actions(e@, cid, cursor),
{
    match engine::source_of(e, cid) {
        Some(id) => if presenter::is_offscreen(&e.surfaces, id) {
            (1, Actions::one(Action::Emit { event: events::cursor_event(id, css_cursor(cursor)) }))
        } else {
            (0, Actions::new())
        },
        None => (0, Actions::new()),
    }
}

}
