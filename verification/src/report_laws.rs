//! What the host is told: which event a report gives rise to, of whom, and with what in it.

use vstd::prelude::*;
use vstd::string::*;

use crate::engine;
use crate::engine::{EngineV, ACTIVE_GRACE_MS};
use crate::events;
use crate::handlers;
use crate::handlers::Cursor;
use crate::json::{JsonV, Num};
use crate::op_laws;
use crate::op_laws::names;
use crate::ops::Action;
use crate::presenter::Platform;
use crate::render;

verus! {

/// Document `t` has member `key`, and that is `value`.
pub open spec fn says(t: JsonV, key: Seq<char>, value: JsonV) -> bool {
    t matches JsonV::Obj(m) && m.contains_key(key) && m[key] == value
}

/// Document `t` has member `key`.
pub open spec fn mentions(t: JsonV, key: Seq<char>) -> bool {
    t matches JsonV::Obj(m) && m.contains_key(key)
}

/// No living browser has the native identifier `cid`.
pub open spec fn nobody(s: EngineV, cid: Option<i32>) -> bool {
    cid matches Some(c) ==> forall|i: int| 0 <= i < s.browsers.len() ==> (#[trigger] s.browsers[i]).1
        != c
}

/// Browser `id` is the one with native identifier `cid`.
pub open spec fn reports(s: EngineV, cid: Option<i32>, id: u32) -> bool {
    cid matches Some(c) && names(s.browsers, c, id)
}

/// Event `t` names the browser that reported: its id, and `null` where nobody did.
pub open spec fn laid_to(t: JsonV, s: EngineV, cid: Option<i32>) -> bool {
    &&& nobody(s, cid) ==> says(t, "id"@, JsonV::Null)
    &&& forall|id: u32| #[trigger]
        reports(s, cid, id) ==> says(t, "id"@, JsonV::Num(Num::Pos(id as u64)))
}

proof fn lemma_source(s: EngineV, cid: Option<i32>)
    ensures
        nobody(s, cid) <==> engine::source_id(s, cid) is None,
        forall|id: u32| #[trigger] reports(s, cid, id) <==> engine::source_id(s, cid) == Some(id),
{
    if let Some(c) = cid {
        op_laws::law_reports_are_laid_to_their_browser(s.browsers, c, 0);
        assert forall|id: u32| #[trigger] reports(s, cid, id) <==> engine::source_id(s, cid)
            == Some(id) by {
            op_laws::law_reports_are_laid_to_their_browser(s.browsers, c, id);
        }
    }
}

/// The members of events have names that differ.
proof fn lemma_names()
    ensures
        "event"@.len() == 5 && "event"@[0] == 'e',
        "value"@.len() == 5 && "value"@[0] == 'v',
        "title"@.len() == 5 && "title"@[0] == 't',
        "view"@.len() == 4 && "view"@[0] == 'v',
        "type"@.len() == 4 && "type"@[0] == 't',
        "urls"@.len() == 4 && "urls"@[0] == 'u',
        "url"@.len() == 3,
        "id"@.len() == 2 && "id"@[0] == 'i',
        "ok"@.len() == 2 && "ok"@[0] == 'o',
        "evalId"@.len() == 6,
        "queryId"@.len() == 7 && "queryId"@[0] == 'q',
        "request"@.len() == 7 && "request"@[0] == 'r',
        "loading"@.len() == 7 && "loading"@[0] == 'l',
        "canBack"@.len() == 7 && "canBack"@[0] == 'c',
        "persistent"@.len() == 10 && "persistent"@[0] == 'p',
        "canForward"@.len() == 10 && "canForward"@[0] == 'c',
{
    reveal_strlit("event");
    reveal_strlit("value");
    reveal_strlit("title");
    reveal_strlit("view");
    reveal_strlit("type");
    reveal_strlit("urls");
    reveal_strlit("url");
    reveal_strlit("id");
    reveal_strlit("ok");
    reveal_strlit("evalId");
    reveal_strlit("queryId");
    reveal_strlit("request");
    reveal_strlit("loading");
    reveal_strlit("canBack");
    reveal_strlit("persistent");
    reveal_strlit("canForward");
}

/// Document `t` is the integer `n`.
pub open spec fn integer(t: JsonV, n: int) -> bool {
    match t {
        JsonV::Num(Num::Pos(u)) => u as int == n,
        JsonV::Num(Num::Neg(i)) => i as int == n,
        _ => false,
    }
}

// ── page queries and scripts ─────────────────────────────────────────────────────────────────

/// A script's report is passed on as it is: under the script's number and for the browser that it ran
/// in, as gone well exactly where the report says so, with the value that it reports and with none
/// where it reports none. The page's query is settled at once, and nobody waits.
pub proof fn law_script_report_is_passed_on(
    s: EngineV,
    cid: Option<i32>,
    query_id: i64,
    request: Seq<char>,
    persistent: bool,
    report: JsonV,
    n: u64,
)
    requires
        says(report, "__soksakEval"@, JsonV::Num(Num::Pos(n))),
    ensures
        ({
            let acts = handlers::query_actions(
                s,
                cid,
                query_id,
                request,
                persistent,
                Some(report),
            );
            &&& acts.len() == 2
            &&& acts[0] matches Action::Emit { event } && {
                &&& says(event, "event"@, JsonV::Str("eval-result"@))
                &&& says(event, "evalId"@, JsonV::Num(Num::Pos(n)))
                &&& laid_to(event, s, cid)
                &&& says(event, "ok"@, JsonV::Bool(says(report, "ok"@, JsonV::Bool(true))))
                &&& forall|v: JsonV| #[trigger]
                    says(report, "value"@, v) ==> says(event, "value"@, v)
                &&& !mentions(report, "value"@) ==> says(event, "value"@, JsonV::Null)
            }
            &&& acts[1] matches Action::AnswerQuery { query_id: q, response, release } && q
                == query_id && response.len() == 0 && release
            &&& handlers::query_asked(s, query_id, Some(report)) == s
        }),
{
    lemma_names();
    lemma_source(s, cid);
    reveal_strlit("");
}

/// Any other query of a page goes to the host as it is, and waits for its answer.
pub proof fn law_questions_go_to_the_host(
    s: EngineV,
    cid: Option<i32>,
    query_id: i64,
    request: Seq<char>,
    persistent: bool,
    parsed: Option<JsonV>,
)
    requires
        parsed matches Some(t) ==> forall|n: u64| !
        #[trigger] says(t, "__soksakEval"@, JsonV::Num(Num::Pos(n))),
    ensures
        ({
            let acts = handlers::query_actions(s, cid, query_id, request, persistent, parsed);
            let t = handlers::query_asked(s, query_id, parsed);
            &&& acts.len() == 1
            &&& acts[0] matches Action::Emit { event } && {
                &&& says(event, "event"@, JsonV::Str("query"@))
                &&& exists|q: JsonV| #[trigger] says(event, "queryId"@, q) && integer(q, query_id as int)
                &&& laid_to(event, s, cid)
                &&& says(event, "request"@, JsonV::Str(request))
                &&& says(event, "persistent"@, JsonV::Bool(persistent))
            }
            &&& forall|q: i64| #[trigger]
                t.queries.contains(q) == (s.queries.contains(q) || q == query_id)
            &&& t == (EngineV { queries: t.queries, ..s })
        }),
{
    lemma_names();
    lemma_source(s, cid);
    if let Some(JsonV::Obj(m)) = parsed {
        if m.contains_key("__soksakEval"@) {
            if let JsonV::Num(Num::Pos(n)) = m["__soksakEval"@] {
                assert(says(parsed->0, "__soksakEval"@, JsonV::Num(Num::Pos(n))));
            }
        }
    }
    let event = events::query(engine::source_id(s, cid), query_id, request, persistent);
    assert(says(event, "queryId"@, event->Obj_0["queryId"@]));
}

/// A question that was withdrawn is forgotten, and the host learns which.
pub proof fn law_withdrawn_questions_are_told(query_id: i64)
    ensures
        ({
            let acts = handlers::cancel_actions(query_id);
            &&& acts.len() == 2
            &&& acts[0] matches Action::ForgetQuery { query_id: q } && q == query_id
            &&& acts[1] matches Action::Emit { event } && says(
                event,
                "event"@,
                JsonV::Str("query-canceled"@),
            ) && exists|q: JsonV| #[trigger]
                says(event, "queryId"@, q) && integer(q, query_id as int)
        }),
{
    lemma_names();
    let event = events::query_canceled(query_id);
    assert(says(event, "queryId"@, event->Obj_0["queryId"@]));
}

/// An answer to a page's question is the host's: as a success with its text, or as a failure with
/// its code and text. It is given exactly where the page waits, and lets the page go unless the host
/// keeps it.
pub proof fn law_answers_are_the_hosts(
    s: EngineV,
    query_id: i64,
    success: bool,
    response: Seq<char>,
    error_code: i32,
    keep: bool,
    other: i64,
)
    requires
        other != query_id,
    ensures
        ({
            let acts = engine::reply_actions(s, query_id, success, response, error_code, keep);
            let t = engine::replied(s, query_id, keep);
            &&& acts.len() == if s.queries.contains(query_id) { 1nat } else { 0 }
            &&& s.queries.contains(query_id) && success ==> (acts[0] matches Action::AnswerQuery {
                query_id: q,
                response: text,
                release,
            } && q == query_id && text == response && release == !keep)
            &&& s.queries.contains(query_id) && !success ==> (acts[0] matches Action::FailQuery {
                query_id: q,
                error_code: code,
                response: text,
                release,
            } && q == query_id && code == error_code && text == response && release == !keep)
            &&& t.queries.contains(query_id) == (keep && s.queries.contains(query_id))
            &&& t.queries.contains(other) == s.queries.contains(other)
            &&& t == (EngineV { queries: t.queries, ..s })
        }),
{
}

// ── popups ───────────────────────────────────────────────────────────────────────────────────

/// A new window is native where windows are wanted, and always where it holds developer tools;
/// otherwise the host gets the address, and learns which page wants it.
pub proof fn law_new_windows_go_where_they_belong(s: EngineV, cid: Option<i32>, url: Seq<char>)
    ensures
        s.popup_as_window ==> handlers::popup_native(s, url),
        !s.popup_as_window ==> (handlers::popup_native(s, url) <==> "devtools://"@.is_prefix_of(
            url,
        )),
        handlers::popup_native(s, url) ==> handlers::popup_code(s, url) == 0
            && handlers::popup_actions(s, cid, url).len() == 0,
        !handlers::popup_native(s, url) ==> handlers::popup_code(s, url) == 1 && ({
            let acts = handlers::popup_actions(s, cid, url);
            &&& acts.len() == 1
            &&& acts[0] matches Action::Emit { event } && {
                &&& says(event, "event"@, JsonV::Str("popup-url"@))
                &&& says(event, "url"@, JsonV::Str(url))
                &&& laid_to(event, s, cid)
            }
        }),
{
    lemma_names();
    lemma_source(s, cid);
}

// ── closing ──────────────────────────────────────────────────────────────────────────────────

/// The module takes down the view of a living windowed browser, and of no other. On macOS the host
/// learns which view goes, and then it is taken out.
pub proof fn law_views_are_taken_down(
    s: EngineV,
    cid: Option<i32>,
    id: u32,
    view: Option<usize>,
)
    ensures
        nobody(s, cid) ==> handlers::do_close_code(s, cid) == 0,
        reports(s, cid, id) ==> handlers::do_close_code(s, cid) == (
        if s.surfaces.surfs.contains_key(id) {
            0i32
        } else {
            1i32
        }),
        ({
            let acts = handlers::do_close_actions(s, cid, view);
            if s.platform == Platform::MacOs && view is Some && reports(s, cid, id)
                && !s.surfaces.surfs.contains_key(id) {
                &&& acts.len() == 2
                &&& acts[0] matches Action::Emit { event } && says(
                    event,
                    "event"@,
                    JsonV::Str("surface-destroyed"@),
                ) && says(event, "view"@, JsonV::Num(Num::Pos(view->0 as u64)))
                &&& acts[1] matches Action::RemoveChild { cid: c } && Some(c) == cid
            } else if nobody(s, cid) || reports(s, cid, id) {
                acts.len() == 0
            } else {
                true
            }
        }),
{
    lemma_names();
    lemma_source(s, cid);
}

/// A browser that has closed is noted behind those that have before it, and the pump will run; nothing
/// else happens, and nothing at all where nobody closed.
pub proof fn law_closed_browsers_are_noted(s: EngineV, c: i32, now: u64)
    ensures
        handlers::closed(s, None, now) == s,
        handlers::closed_actions(s, None).len() == 0,
        handlers::closed_actions(s, Some(c)) == engine::pump_actions(s, 0),
        ({
            let t = handlers::closed(s, Some(c), now);
            &&& t.closing.len() == s.closing.len() + 1
            &&& t.closing.last() == c
            &&& forall|i: int| 0 <= i < s.closing.len() ==> #[trigger] t.closing[i] == s.closing[i]
            &&& s.platform == Platform::MacOs ==> t.pump.scheduled
            &&& s.platform != Platform::MacOs ==> t.pump.due is Some && t.pump.due->0 <= now
            &&& t == (EngineV { closing: t.closing, pump: t.pump, ..s })
        }),
{
}

// ── loading ──────────────────────────────────────────────────────────────────────────────────

/// Loading is on record for that native browser alone, from its start to its end. The browser, where
/// it is known, is active for the grace time, at the end as at the start.
pub proof fn law_loading_is_recorded(
    s: EngineV,
    c: i32,
    is_loading: i32,
    now: u64,
    other: i32,
    id: u32,
)
    requires
        other != c,
        now + ACTIVE_GRACE_MS <= u64::MAX,
    ensures
        handlers::loading_changed(s, None, is_loading, now) == s,
        ({
            let t = handlers::loading_changed(s, Some(c), is_loading, now);
            &&& t.loading.contains(c) == (is_loading == 1)
            &&& t.loading.contains(other) == s.loading.contains(other)
            &&& reports(s, Some(c), id) ==> t.active_ids.contains_key(id) && t.active_ids[id] == now
                + ACTIVE_GRACE_MS && (!s.no_tick ==> t.pump.tick_on)
            &&& reports(s, Some(c), id) ==> forall|o: u32|
                o != id ==> #[trigger] t.active_ids.contains_key(o) == s.active_ids.contains_key(
                    o,
                ) && t.active_ids[o] == s.active_ids[o]
            &&& nobody(s, Some(c)) ==> t == (EngineV { loading: t.loading, ..s })
            &&& t == (EngineV {
                loading: t.loading,
                active_ids: t.active_ids,
                pump: t.pump,
                ..s
            })
        }),
{
    lemma_source(s, Some(c));
}

/// The host learns whether a page loads, and whether its history goes back and forward: each as the
/// page reports it.
pub proof fn law_loading_is_told(
    s: EngineV,
    cid: Option<i32>,
    is_loading: i32,
    can_back: i32,
    can_forward: i32,
)
    ensures
        ({
            let acts = handlers::loading_actions(s, cid, is_loading, can_back, can_forward);
            &&& cid is None ==> acts.len() == 0
            &&& cid is Some ==> {
                &&& acts.len() >= 1
                &&& acts[0] matches Action::Emit { event } && {
                    &&& says(event, "event"@, JsonV::Str("loading"@))
                    &&& says(event, "loading"@, JsonV::Bool(is_loading == 1))
                    &&& says(event, "canBack"@, JsonV::Bool(can_back == 1))
                    &&& says(event, "canForward"@, JsonV::Bool(can_forward == 1))
                    &&& laid_to(event, s, cid)
                }
                &&& nobody(s, cid) ==> acts.len() == 1
                &&& !nobody(s, cid) ==> acts.skip(1) == engine::tick_actions(s)
            }
        }),
{
    lemma_names();
    lemma_source(s, cid);
    let acts = handlers::loading_actions(s, cid, is_loading, can_back, can_forward);
    if cid is Some && !nobody(s, cid) {
        assert(acts.skip(1) =~= engine::tick_actions(s));
    }
}

/// Developer tools are told as they start to load whether they show the page preview: as it was asked
/// for when they were opened. Other browsers are told nothing.
pub proof fn law_preview_setting_is_kept(s: EngineV, c: i32, id: u32)
    ensures
        handlers::load_start_actions(s, None, true).len() == 0,
        handlers::load_start_actions(s, Some(c), false).len() == 0,
        ({
            let acts = handlers::load_start_actions(s, Some(c), true);
            &&& nobody(s, Some(c)) ==> acts.len() == 0
            &&& reports(s, Some(c), id) && !s.devtools_screencast.contains_key(id) ==> acts.len()
                == 0
            &&& reports(s, Some(c), id) && s.devtools_screencast.contains_key(id) ==> acts.len()
                == 1 && (acts[0] matches Action::ExecuteJs { cid, script } && cid == c && ({
                let word = if s.devtools_screencast[id] { "true"@ } else { "false"@ };
                let set = "(function(){try{localStorage.setItem('screencast-enabled','"@ + word
                    + "');if("@ + word + "){"@;
                set.is_prefix_of(script)
            }))
        }),
{
    lemma_source(s, Some(c));
    let acts = handlers::load_start_actions(s, Some(c), true);
    if reports(s, Some(c), id) && s.devtools_screencast.contains_key(id) {
        let word = if s.devtools_screencast[id] { "true"@ } else { "false"@ };
        let set = "(function(){try{localStorage.setItem('screencast-enabled','"@ + word + "');if("@
            + word + "){"@;
        let script = acts[0]->ExecuteJs_script;
        let tail = "){var s=localStorage.getItem('inspector-view.screencast-split-view-state');if(s){var o=JSON.parse(s);if(o&&o.vertical&&!o.vertical.size)localStorage.removeItem('inspector-view.screencast-split-view-state');}}}catch(e){}})();"@;
        reveal_strlit(
            "){var s=localStorage.getItem('inspector-view.screencast-split-view-state');if(s){var o=JSON.parse(s);if(o&&o.vertical&&!o.vertical.size)localStorage.removeItem('inspector-view.screencast-split-view-state');}}}catch(e){}})();",
        );
        reveal_strlit("){");
        assert(tail[0] == ')' && tail[1] == '{');
        assert(set =~= script.take(set.len() as int));
    }
}

// ── what the page shows ──────────────────────────────────────────────────────────────────────

/// An address, a title and icons are told as they are, of the browser that shows them. Of the icons
/// the first is the one to use. The address of a frame within a page is not told.
pub proof fn law_pages_are_told_of(
    s: EngineV,
    cid: Option<i32>,
    words: Seq<char>,
    urls: Seq<Seq<char>>,
)
    ensures
        handlers::address_actions(s, cid, false, words).len() == 0,
        ({
            let acts = handlers::address_actions(s, cid, true, words);
            &&& acts.len() == 1
            &&& acts[0] matches Action::Emit { event } && {
                &&& says(event, "event"@, JsonV::Str("nav"@))
                &&& says(event, "url"@, JsonV::Str(words))
                &&& laid_to(event, s, cid)
            }
        }),
        ({
            let acts = handlers::title_actions(s, cid, words);
            &&& acts.len() == 1
            &&& acts[0] matches Action::Emit { event } && {
                &&& says(event, "event"@, JsonV::Str("title"@))
                &&& says(event, "title"@, JsonV::Str(words))
                &&& laid_to(event, s, cid)
            }
        }),
        ({
            let acts = handlers::favicon_actions(s, cid, urls);
            let event = acts[0]->Emit_event;
            &&& acts.len() == 1 && acts[0] is Emit
            &&& says(event, "event"@, JsonV::Str("favicon"@))
            &&& urls.len() > 0 ==> says(event, "url"@, JsonV::Str(urls[0]))
            &&& urls.len() == 0 ==> says(event, "url"@, JsonV::Str(""@))
            &&& event matches JsonV::Obj(m) && m.contains_key("urls"@) && (
            m["urls"@] matches JsonV::Arr(list) && list.len() == urls.len() && forall|i: int|
                0 <= i < urls.len() ==> #[trigger] list[i] == JsonV::Str(urls[i]))
            &&& laid_to(event, s, cid)
        }),
{
    lemma_names();
    lemma_source(s, cid);
}

/// A cursor is told by its name, for the offscreen browser that shows it. Other browsers show it
/// themselves.
pub proof fn law_cursors_are_told(s: EngineV, cid: Option<i32>, id: u32, cursor: Cursor)
    ensures
        nobody(s, cid) || reports(s, cid, id) && !s.surfaces.surfs.contains_key(id)
            ==> handlers::cursor_code(s, cid) == 0 && handlers::cursor_actions(
            s,
            cid,
            cursor,
        ).len() == 0,
        reports(s, cid, id) && s.surfaces.surfs.contains_key(id) ==> handlers::cursor_code(s, cid)
            == 1 && ({
            let acts = handlers::cursor_actions(s, cid, cursor);
            &&& acts.len() == 1
            &&& acts[0] matches Action::Emit { event } && {
                &&& says(event, "event"@, JsonV::Str("cursor"@))
                &&& says(event, "type"@, JsonV::Str(handlers::cursor_name(cursor)))
                &&& says(event, "id"@, JsonV::Num(Num::Pos(id as u64)))
            }
        }),
{
    lemma_names();
    lemma_source(s, cid);
}

/// Cursors that resize along the same line have the same name, and those along different lines have
/// different ones.
pub proof fn law_cursors_along_a_line_agree()
    ensures
        handlers::cursor_name(Cursor::EastResize) == handlers::cursor_name(Cursor::WestResize),
        handlers::cursor_name(Cursor::EastResize) == handlers::cursor_name(Cursor::EastWestResize),
        handlers::cursor_name(Cursor::NorthResize) == handlers::cursor_name(Cursor::SouthResize),
        handlers::cursor_name(Cursor::NorthResize) == handlers::cursor_name(
            Cursor::NorthSouthResize,
        ),
        handlers::cursor_name(Cursor::NorthEastResize) == handlers::cursor_name(
            Cursor::SouthWestResize,
        ),
        handlers::cursor_name(Cursor::NorthEastResize) == handlers::cursor_name(
            Cursor::NorthEastSouthWestResize,
        ),
        handlers::cursor_name(Cursor::NorthWestResize) == handlers::cursor_name(
            Cursor::SouthEastResize,
        ),
        handlers::cursor_name(Cursor::NorthWestResize) == handlers::cursor_name(
            Cursor::NorthWestSouthEastResize,
        ),
        handlers::cursor_name(Cursor::EastResize) != handlers::cursor_name(Cursor::NorthResize),
        handlers::cursor_name(Cursor::NorthEastResize) != handlers::cursor_name(
            Cursor::NorthWestResize,
        ),
{
    reveal_strlit("ew-resize");
    reveal_strlit("ns-resize");
    reveal_strlit("nesw-resize");
    reveal_strlit("nwse-resize");
    assert("ew-resize"@[0] == 'e' && "ns-resize"@[0] == 'n');
    assert("nesw-resize"@[1] == 'e' && "nwse-resize"@[1] == 'w');
}

// ── sizes ────────────────────────────────────────────────────────────────────────────────────

/// A browser draws from the corner on, into the size that it is told, of one by one at least; the screen
/// that it is told of has that size and scale, and is of full colour.
pub proof fn law_view_and_screen_agree(s: EngineV, cid: Option<i32>)
    ensures
        ({
            let v = render::view_of(s, cid);
            let screen = render::screen_of(s, cid);
            &&& v.x == 0 && v.y == 0
            &&& op_laws::length_for(v.w, render::size_of(s, cid).0)
            &&& op_laws::length_for(v.h, render::size_of(s, cid).1)
            &&& screen.rect.x == 0 && screen.rect.y == 0
            &&& (screen.rect.w, screen.rect.h) == render::size_of(s, cid)
            &&& screen.scale == render::scale_bits(s, cid)
            &&& screen.depth == 32 && screen.depth_per_component == 8
        }),
{
}

/// An offscreen browser that asks is told the size and the scale of its own surface. One that is not
/// known yet is the one being made. Anyone else is told one by one, at scale one.
pub proof fn law_browsers_are_told_their_size(s: EngineV, cid: Option<i32>, id: u32)
    ensures
        reports(s, cid, id) && s.surfaces.surfs.contains_key(id) ==> {
            &&& render::size_of(s, cid) == (s.surfaces.surfs[id].log_w, s.surfaces.surfs[id].log_h)
            &&& render::scale_bits(s, cid) == s.surfaces.surfs[id].scale
        },
        nobody(s, cid) || (reports(s, cid, id) && !s.surfaces.surfs.contains_key(id)) ==> {
            &&& s.osr_creating matches Some(c) ==> render::size_of(s, cid) == (c.0, c.1)
                && render::scale_bits(s, cid) == c.2
            &&& s.osr_creating is None ==> render::size_of(s, cid) == (1i32, 1i32)
                && render::scale_bits(s, cid) == 0x3f80_0000
        },
{
    lemma_source(s, cid);
}

}
