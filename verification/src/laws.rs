//! What holds of the engine as a whole.

use vstd::prelude::*;
use vstd::string::*;

use crate::apply;
use crate::apply::Probe;
use crate::command;
use crate::create;
use crate::devtools;
use crate::engine;
use crate::engine::{EngineV, Pump, ACTIVE_GRACE_MS};
use crate::events;
use crate::frame_stream;
use crate::frame_stream::{Class, FrameStreamV, FrameV, Pixels};
use crate::handlers;
use crate::harness;
use crate::harness::HarnessV;
use crate::ids;
use crate::input;
use crate::json;
use crate::json::JsonV;
use crate::ops;
use crate::ops::{Action, ActionV, CreateReqV, Op, OpV};
use crate::presenter;
use crate::presenter::{Frame, Platform, Pool, PresentStep, SurfacesV, Target, POOL};
use crate::protocol;
use crate::render;
use crate::startup;
use crate::text;
use crate::work;

verus! {

// ── closing ──────────────────────────────────────────────────────────────────────────────────

/// Once a browser was asked to close, no operation reaches it any more: nothing is done, and nothing
/// changes but the count of applied closes. A script that was to run is reported as failed.
pub proof fn law_closing_browser_is_left_alone(s: EngineV, op: OpV, probe: Probe, now: u64)
    requires
        op.target() is Some,
        s.close_requested.contains(op.target()->0),
    ensures
        apply::apply_actions(s, op, probe) == (match op {
            Op::Eval { id, eval_id, js } => ops::told(events::eval_failed(id, eval_id)),
            _ => Seq::empty(),
        }),
        apply::applied(s, op, probe, now) == (EngineV {
            dbg: apply::applied(s, op, probe, now).dbg,
            ..s
        }),
        !(op is Close) ==> apply::applied(s, op, probe, now) == s,
{
}

/// A browser that was asked to close stays so through every operation, and closing it once more is
/// no second close.
pub proof fn law_close_request_stands(s: EngineV, op: OpV, probe: Probe, now: u64, id: u32)
    requires
        s.close_requested.contains(id),
    ensures
        apply::applied(s, op, probe, now).close_requested.contains(id),
        op == (Op::<Seq<char>>::Close { id }) ==> apply::applied(s, op, probe, now).dbg.close_browser
            == s.dbg.close_browser,
{
}

/// A browser disappears as soon as closing is applied, before it has gone: it is visible no more,
/// and its surface is hidden.
pub proof fn law_closing_hides_at_once(s: EngineV, id: u32, probe: Probe)
    requires
        !s.close_requested.contains(id),
    ensures
        ({
            let t = apply::close_applied(s, id, probe);
            &&& t.close_requested.contains(id)
            &&& !t.visible.contains(id)
            &&& t.surfaces.has(id) ==> t.surfaces.surfs[id].hidden
        }),
{
}

pub proof fn lemma_filter_keeps<A>(s: Seq<A>, p: spec_fn(A) -> bool)
    ensures
        forall|x: A| s.filter(p).contains(x) <==> s.contains(x) && p(x),
    decreases s.len(),
{
    reveal(Seq::filter);
    if s.len() > 0 {
        let front = s.drop_last();
        lemma_filter_keeps(front, p);
        assert(s =~= front.push(s.last()));
        assert forall|x: A| s.filter(p).contains(x) <==> s.contains(x) && p(x) by {
            assert(s.contains(x) <==> front.contains(x) || x == s.last()) by {
                if s.contains(x) {
                    let i = choose|i: int| 0 <= i < s.len() && s[i] == x;
                    if i < front.len() {
                        assert(front[i] == x);
                    }
                }
                if front.contains(x) {
                    let i = choose|i: int| 0 <= i < front.len() && front[i] == x;
                    assert(s[i] == x);
                }
                if x == s.last() {
                    assert(s[s.len() - 1] == x);
                }
            }
            let kept = front.filter(p);
            if p(s.last()) {
                assert(s.filter(p) == kept.push(s.last()));
                assert(s.filter(p).contains(x) <==> kept.contains(x) || x == s.last()) by {
                    if s.filter(p).contains(x) {
                        let i = choose|i: int| 0 <= i < s.filter(p).len() && s.filter(p)[i] == x;
                        if i < kept.len() {
                            assert(kept[i] == x);
                        }
                    }
                    if kept.contains(x) {
                        let i = choose|i: int| 0 <= i < kept.len() && kept[i] == x;
                        assert(s.filter(p)[i] == x);
                    }
                    if x == s.last() {
                        assert(s.filter(p)[kept.len() as int] == x);
                    }
                }
            }
        }
    }
}

/// Dropping the closed browsers removes exactly those, and keeps nothing of them.
pub proof fn law_reaping_is_exact(s: EngineV, id: u32, cid: i32)
    requires
        s.closing.len() > 0,
    ensures
        ({
            let t = work::reaped(s);
            &&& t.closing.len() == 0
            &&& t.browsers.contains((id, cid)) <==> s.browsers.contains((id, cid))
                && !s.closing.contains(cid)
            &&& s.browsers.contains((id, cid)) && s.closing.contains(cid) ==> work::gone(
                s,
            ).contains(id)
            &&& work::gone(s).contains(id) ==> {
                &&& !t.owners.contains_key(id)
                &&& !t.close_requested.contains(id)
                &&& !t.pressed.contains_key(id)
                &&& !t.surfaces.has(id)
                &&& forall|view: usize| !t.parents.contains((id, view))
            }
        }),
{
    let closed = |b: (u32, i32)| s.closing.contains(b.1);
    let open = |b: (u32, i32)| !s.closing.contains(b.1);
    lemma_filter_keeps(s.browsers, closed);
    lemma_filter_keeps(s.browsers, open);
    let ids = work::gone(s);
    let keep = |p: (u32, usize)| !ids.contains(p.0);
    lemma_filter_keeps(s.parents, keep);
    let out = work::closed_in(s.browsers, s.closing);
    if s.browsers.contains((id, cid)) && s.closing.contains(cid) {
        assert(out.contains((id, cid)));
        let i = choose|i: int| 0 <= i < out.len() && out[i] == (id, cid);
        assert(ids[i] == id);
    }
    assert forall|view: usize| ids.contains(id) implies !work::reaped(s).parents.contains(
        (id, view),
    ) by {
        assert(!keep((id, view)));
    }
}

/// Dropping the closed browsers leaves the others as they were.
pub proof fn law_reaping_spares_the_living(s: EngineV, id: u32)
    requires
        !work::gone(s).contains(id),
    ensures
        ({
            let t = work::reaped(s);
            &&& t.close_requested.contains(id) == s.close_requested.contains(id)
            &&& t.owners.contains_key(id) == s.owners.contains_key(id)
            &&& s.owners.contains_key(id) ==> t.owners[id] == s.owners[id]
            &&& t.surfaces.has(id) == s.surfaces.has(id)
            &&& s.surfaces.has(id) ==> t.surfaces.surfs[id] == s.surfaces.surfs[id]
            &&& input::held_buttons(t.pressed, id) == input::held_buttons(s.pressed, id)
            &&& forall|view: usize|
                t.parents.contains((id, view)) == s.parents.contains((id, view))
            &&& t.visible == s.visible
        }),
{
    let ids = work::gone(s);
    let keep = |p: (u32, usize)| !ids.contains(p.0);
    lemma_filter_keeps(s.parents, keep);
    assert forall|view: usize|
        work::reaped(s).parents.contains((id, view)) == s.parents.contains((id, view)) by {
        assert(keep((id, view)));
    }
}

proof fn lemma_children(parents: Seq<(u32, usize)>, nsview: usize, id: u32)
    ensures
        engine::children(parents, nsview).contains(id) <==> parents.contains((id, nsview)),
    decreases parents.len(),
{
    if parents.len() > 0 {
        let front = parents.drop_last();
        lemma_children(front, nsview, id);
        assert(parents =~= front.push(parents.last()));
        let kept = engine::children(front, nsview);
        let all = engine::children(parents, nsview);
        if parents.contains((id, nsview)) {
            let i = choose|i: int| 0 <= i < parents.len() && parents[i] == (id, nsview);
            if i < front.len() {
                assert(front[i] == (id, nsview));
                let k = choose|k: int| 0 <= k < kept.len() && kept[k] == id;
                assert(all[k] == id);
            } else {
                assert(all[kept.len() as int] == id);
            }
        }
        if all.contains(id) {
            let k = choose|k: int| 0 <= k < all.len() && all[k] == id;
            if k < kept.len() {
                assert(kept[k] == id);
                let i = choose|i: int| 0 <= i < front.len() && front[i] == (id, nsview);
                assert(parents[i] == (id, nsview));
            } else {
                assert(parents[parents.len() - 1] == (id, nsview));
            }
        }
    }
}

/// Before a parent goes, each of its children, and nobody else, is asked to close: in the order in
/// which they were made, behind whatever waits already.
pub proof fn law_every_child_is_closed(s: EngineV, view: usize, now: u64, id: u32)
    ensures
        ({
            let ids = engine::children(s.parents, view);
            let t = engine::all_closing(s, ids, now);
            &&& ids.contains(id) <==> s.parents.contains((id, view))
            &&& t.ops == s.ops + engine::closes(ids)
        }),
{
    lemma_children(s.parents, view, id);
    let ids = engine::children(s.parents, view);
    if ids.len() == 0 {
        assert(s.ops + engine::closes(ids) =~= s.ops);
    }
}

/// The living browsers and their parents are on record in step: the same ids in the same order, each
/// once.
pub open spec fn in_step(s: EngineV) -> bool {
    &&& s.browsers.len() == s.parents.len()
    &&& forall|i: int|
        0 <= i < s.browsers.len() ==> (#[trigger] s.browsers[i]).0 == s.parents[i].0
    &&& forall|i: int, j: int|
        0 <= i < j < s.browsers.len() ==> (#[trigger] s.browsers[i]).0 != (
        #[trigger] s.browsers[j]).0
}

/// Making a browser under an id that is not in use, and dropping closed ones, keeps the records in
/// step.
pub proof fn law_records_stay_in_step(s: EngineV, id: u32, nsview: usize, cid: i32, now: u64)
    requires
        in_step(s),
        forall|i: int| 0 <= i < s.browsers.len() ==> (#[trigger] s.browsers[i]).0 != id,
    ensures
        in_step(create::registered(s, id, nsview, cid, now)),
        in_step(work::reaped(s)),
{
    if s.closing.len() > 0 {
        let closed = |b: (u32, i32)| s.closing.contains(b.1);
        lemma_filter_keeps(s.browsers, closed);
        let out = work::closed_in(s.browsers, s.closing);
        let ids = work::gone(s);
        assert forall|k: int| 0 <= k < s.browsers.len() implies (ids.contains(
            (#[trigger] s.browsers[k]).0,
        ) <==> s.closing.contains(s.browsers[k].1)) by {
            let b = s.browsers[k];
            if s.closing.contains(b.1) {
                assert(s.browsers.contains(b) && closed(b));
                assert(out.contains(b));
                let i = choose|i: int| 0 <= i < out.len() && out[i] == b;
                assert(ids[i] == b.0);
            }
            if ids.contains(b.0) {
                let i = choose|i: int| 0 <= i < ids.len() && ids[i] == b.0;
                assert(out.contains(out[i]));
                assert(s.browsers.contains(out[i]) && closed(out[i]));
                let j = choose|j: int| 0 <= j < s.browsers.len() && s.browsers[j] == out[i];
                assert(s.browsers[j].0 == s.browsers[k].0);
                assert(j == k);
            }
        }
        lemma_filters_in_step(s.browsers, s.parents, s.closing, ids);
    }
}

proof fn lemma_filters_in_step(
    browsers: Seq<(u32, i32)>,
    parents: Seq<(u32, usize)>,
    closing: Seq<i32>,
    ids: Seq<u32>,
)
    requires
        browsers.len() == parents.len(),
        forall|i: int| 0 <= i < browsers.len() ==> (#[trigger] browsers[i]).0 == parents[i].0,
        forall|i: int, j: int|
            0 <= i < j < browsers.len() ==> (#[trigger] browsers[i]).0 != (
            #[trigger] browsers[j]).0,
        forall|k: int|
            0 <= k < browsers.len() ==> (ids.contains((#[trigger] browsers[k]).0)
                <==> closing.contains(browsers[k].1)),
    ensures
        ({
            let b = work::open_in(browsers, closing);
            let p = work::parents_without(parents, ids);
            &&& b.len() == p.len()
            &&& forall|i: int| 0 <= i < b.len() ==> (#[trigger] b[i]).0 == p[i].0
            &&& forall|i: int, j: int|
                0 <= i < j < b.len() ==> (#[trigger] b[i]).0 != (#[trigger] b[j]).0
        }),
    decreases browsers.len(),
{
    reveal(Seq::filter);
    if browsers.len() > 0 {
        let fb = browsers.drop_last();
        let fp = parents.drop_last();
        assert forall|k: int| 0 <= k < fb.len() implies (ids.contains((#[trigger] fb[k]).0)
            <==> closing.contains(fb[k].1)) by {
            assert(fb[k] == browsers[k]);
        }
        lemma_filters_in_step(fb, fp, closing, ids);
        let last = browsers.last();
        assert(last == browsers[browsers.len() - 1]);
        assert(last.0 == parents.last().0);
        let open = |b: (u32, i32)| !closing.contains(b.1);
        lemma_filter_keeps(fb, open);
        let kept = work::open_in(fb, closing);
        assert forall|i: int| 0 <= i < kept.len() implies (#[trigger] kept[i]).0 != last.0 by {
            assert(kept == fb.filter(open));
            assert(fb.filter(open).contains(kept[i]));
            assert(fb.contains(kept[i]));
            let j = choose|j: int| 0 <= j < fb.len() && fb[j] == kept[i];
            assert(browsers[j] == kept[i]);
        }
    }
}

/// The host hears of a view that comes and of the same view when it goes.
pub proof fn law_views_come_and_go(s: EngineV, id: u32, nsview: usize, cid: i32, view: usize, now: u64)
    requires
        s.platform == Platform::MacOs,
        engine::id_of(s.browsers, cid) is None,
        !s.surfaces.has(id),
    ensures
        ({
            let t = create::windowed_made(s, id, nsview, Some(cid), now);
            let came = create::windowed_actions(s, Some(cid), Some(view));
            let goes = handlers::do_close_actions(t, Some(cid), Some(view));
            &&& came.contains(
                Action::Emit { event: events::surface_change("surface-created"@, view) },
            )
            &&& goes.contains(
                Action::Emit { event: events::surface_change("surface-destroyed"@, view) },
            )
            &&& goes.contains(Action::RemoveChild { cid })
        }),
{
    let t = create::windowed_made(s, id, nsview, Some(cid), now);
    lemma_id_of_last(s.browsers, id, cid);
    let came = create::windowed_actions(s, Some(cid), Some(view));
    let goes = handlers::do_close_actions(t, Some(cid), Some(view));
    assert(came[1] == (Action::<Seq<char>, JsonV>::Emit {
        event: events::surface_change("surface-created"@, view),
    }));
    assert(goes[0] == (Action::<Seq<char>, JsonV>::Emit {
        event: events::surface_change("surface-destroyed"@, view),
    }));
    assert(goes[1] == (Action::<Seq<char>, JsonV>::RemoveChild { cid }));
}

proof fn lemma_id_of_last(browsers: Seq<(u32, i32)>, id: u32, cid: i32)
    requires
        engine::id_of(browsers, cid) is None,
    ensures
        engine::id_of(browsers.push((id, cid)), cid) == Some(id),
    decreases browsers.len(),
{
    if browsers.len() > 0 {
        assert(browsers.push((id, cid)).skip(1) =~= browsers.skip(1).push((id, cid)));
        lemma_id_of_last(browsers.skip(1), id, cid);
    } else {
        assert(browsers.push((id, cid))[0] == (id, cid));
    }
}

/// What lies above the browsers hides none of them: it is kept on record, and when it goes the engine
/// is active.
pub proof fn law_overlay_hides_nothing(s: EngineV, active: bool, probe: Probe, now: u64)
    ensures
        ({
            let op = Op::<Seq<char>>::Overlay { active };
            let t = apply::applied(s, op, probe, now);
            &&& t.overlay_active == active
            &&& t.visible == s.visible
            &&& t.surfaces == s.surfaces
            &&& active ==> t == (EngineV { overlay_active: true, ..s })
            &&& active ==> apply::apply_actions(s, op, probe) == Seq::<ActionV>::empty()
            &&& !active ==> apply::apply_actions(s, op, probe) == engine::tick_actions(s)
            &&& !active && now + ACTIVE_GRACE_MS <= u64::MAX ==> engine::active(t, now)
        }),
{
}

// ── activity ─────────────────────────────────────────────────────────────────────────────────

/// An operation makes only the browser that it is for active; closing makes nothing active, and
/// what is for no browser counts for all.
pub proof fn law_activity_stays_with_its_browser(s: EngineV, op: OpV, now: u64, other: u32)
    requires
        op.target() != Some(other),
    ensures
        ({
            let t = engine::asked(s, op, now);
            &&& t.active_ids.contains_key(other) == s.active_ids.contains_key(other)
            &&& s.active_ids.contains_key(other) ==> t.active_ids[other] == s.active_ids[other]
            &&& op is Overlay || t.active_until_ms == s.active_until_ms
            &&& op is Close ==> t.active_ids == s.active_ids
        }),
{
}

/// A page that stands still is not painted because another one moves.
pub proof fn law_still_pages_are_not_painted(
    s: EngineV,
    op: OpV,
    now: u64,
    later: u64,
    other: u32,
    cid: i32,
)
    requires
        op.target() is Some,
        op.target() != Some(other),
        !work::wants_paint(s, other, cid, later),
    ensures
        !work::wants_paint(engine::asked(s, op, now), other, cid, later),
{
    law_activity_stays_with_its_browser(s, op, now, other);
}

/// A browser that something happened to is active for the grace time, and not a moment longer on
/// that account.
pub proof fn law_grace_time(s: EngineV, id: u32, now: u64, later: u64)
    requires
        now + ACTIVE_GRACE_MS <= u64::MAX,
    ensures
        ({
            let t = engine::bumped(s, id, now);
            &&& later < now + ACTIVE_GRACE_MS ==> engine::active(t, later)
            &&& later >= now + ACTIVE_GRACE_MS ==> !engine::live(t.active_ids, later).contains_key(
                id,
            )
        }),
{
    let t = engine::bumped(s, id, now);
    if later < now + ACTIVE_GRACE_MS {
        assert(engine::live(t.active_ids, later).contains_key(id));
        assert(engine::live(t.active_ids, later).dom().contains(id));
    }
}

/// The render tick stops where nothing is visible, or nothing is active: an idle engine does
/// nothing.
pub proof fn law_idle_engine_is_still(s: EngineV, now: u64)
    requires
        s.visible.is_empty() || !engine::active(s, now),
    ensures
        !engine::tick_goes_on(s, now),
        !engine::tick_decided(s, now).pump.tick_on,
        !engine::active(s, now) ==> work::paint_actions(s, now) == Seq::<ActionV>::empty(),
{
}

/// Everything that is painted is offscreen and active: each paint request is that of a browser in the
/// list that wants to be painted.
pub proof fn law_only_active_pages_are_painted(
    s: EngineV,
    list: Seq<(u32, i32)>,
    now: u64,
    act: ActionV,
)
    requires
        work::paints(s, list, now).contains(act),
    ensures
        exists|i: int|
            0 <= i < list.len() && work::wants_paint(s, (#[trigger] list[i]).0, list[i].1, now) && (
            engine::cid_of(s.browsers, list[i].0) matches Some(cid) && act == (Action::<
                Seq<char>,
                JsonV,
            >::Invalidate { cid })),
    decreases list.len(),
{
    if list.len() > 0 {
        let front = list.drop_last();
        let rest = work::paints(s, front, now);
        let all = work::paints(s, list, now);
        let k = choose|k: int| 0 <= k < all.len() && all[k] == act;
        if k < rest.len() {
            assert(rest[k] == act);
            law_only_active_pages_are_painted(s, front, now, act);
            let i = choose|i: int|
                0 <= i < front.len() && work::wants_paint(
                    s,
                    (#[trigger] front[i]).0,
                    front[i].1,
                    now,
                ) && (engine::cid_of(s.browsers, front[i].0) matches Some(cid) && act == (Action::<
                    Seq<char>,
                    JsonV,
                >::Invalidate { cid }));
            assert(list[i] == front[i]);
        } else {
            assert(list.last() == list[list.len() - 1]);
        }
    }
}

/// The browsers that want to be painted, in the order in which they were made.
pub open spec fn painted(s: EngineV, now: u64) -> Seq<(u32, i32)> {
    s.browsers.filter(|b: (u32, i32)| work::wants_paint(s, b.0, b.1, now))
}

/// One paint request for each browser in `list`.
pub open spec fn paint_requests(list: Seq<(u32, i32)>) -> Seq<ActionV> {
    list.map_values(|b: (u32, i32)| Action::Invalidate { cid: b.1 })
}

/// In a round of work every browser that is offscreen and active is painted, once, and no other.
pub proof fn law_active_pages_are_painted_once(s: EngineV, held: Seq<CreateReqV>, now: u64)
    requires
        ids::ids_apart(s, held),
    ensures
        work::paint_actions(s, now) == paint_requests(painted(s, now)),
{
    let t = engine::activity_checked(s, now);
    assert forall|i: int, j: int| 0 <= i < j < s.browsers.len() implies (#[trigger] s.browsers[i]).0
        != (#[trigger] s.browsers[j]).0 by {
        assert(ids::ids(s, held)[i] == s.browsers[i].0);
        assert(ids::ids(s, held)[j] == s.browsers[j].0);
    }
    assert forall|i: int| 0 <= i < s.browsers.len() implies engine::cid_of(
        s.browsers,
        (#[trigger] s.browsers[i]).0,
    ) == Some(s.browsers[i].1) by {
        lemma_cid_of(s.browsers, i);
    }
    lemma_paints(s, t, s.browsers, now);
    if !engine::active(s, now) {
        let all = work::paints(t, s.browsers, now);
        if all.len() > 0 {
            assert(all.contains(all[0]));
            law_only_active_pages_are_painted(t, s.browsers, now, all[0]);
            let i = choose|i: int|
                0 <= i < s.browsers.len() && work::wants_paint(
                    t,
                    (#[trigger] s.browsers[i]).0,
                    s.browsers[i].1,
                    now,
                );
            let live = engine::live(s.active_ids, now);
            assert(live.contains_key(s.browsers[i].0));
            assert(live.dom().contains(s.browsers[i].0));
        }
        assert(all =~= Seq::empty());
    }
}

proof fn lemma_cid_of(browsers: Seq<(u32, i32)>, i: int)
    requires
        0 <= i < browsers.len(),
        forall|a: int, b: int|
            0 <= a < b < browsers.len() ==> (#[trigger] browsers[a]).0 != (
            #[trigger] browsers[b]).0,
    ensures
        engine::cid_of(browsers, browsers[i].0) == Some(browsers[i].1),
    decreases browsers.len(),
{
    if i > 0 {
        let rest = browsers.skip(1);
        assert forall|a: int, b: int| 0 <= a < b < rest.len() implies (#[trigger] rest[a]).0 != (
        #[trigger] rest[b]).0 by {
            assert(rest[a] == browsers[a + 1]);
            assert(rest[b] == browsers[b + 1]);
        }
        assert(browsers[0].0 != browsers[i].0);
        lemma_cid_of(rest, i - 1);
    }
}

proof fn lemma_paints(s: EngineV, t: EngineV, list: Seq<(u32, i32)>, now: u64)
    requires
        t == engine::activity_checked(s, now),
        forall|i: int|
            0 <= i < list.len() ==> engine::cid_of(s.browsers, (#[trigger] list[i]).0) == Some(
                list[i].1,
            ),
    ensures
        work::paints(t, list, now) == paint_requests(
            list.filter(|b: (u32, i32)| work::wants_paint(s, b.0, b.1, now)),
        ),
    decreases list.len(),
{
    reveal(Seq::filter);
    let wants = |b: (u32, i32)| work::wants_paint(s, b.0, b.1, now);
    if list.len() > 0 {
        let front = list.drop_last();
        assert forall|i: int| 0 <= i < front.len() implies engine::cid_of(
            s.browsers,
            (#[trigger] front[i]).0,
        ) == Some(front[i].1) by {
            assert(front[i] == list[i]);
        }
        lemma_paints(s, t, front, now);
        let b = list.last();
        assert(b == list[list.len() - 1]);
        assert(work::wants_paint(t, b.0, b.1, now) == wants(b));
        if wants(b) {
            assert(paint_requests(list.filter(wants)) =~= paint_requests(front.filter(wants)).push(
                Action::Invalidate { cid: b.1 },
            ));
        }
    } else {
        assert(paint_requests(list.filter(wants)) =~= Seq::empty());
    }
}

// ── the pump ─────────────────────────────────────────────────────────────────────────────────

/// On macOS at most one run of the pump waits on the main queue: asking again adds none, until the
/// run has begun.
pub proof fn law_one_run_waits(s: EngineV, first: i64, second: i64, now: u64, later: u64)
    requires
        s.platform == Platform::MacOs,
    ensures
        ({
            let t = engine::pump_asked(s, first, now);
            &&& engine::pump_actions(t, second) == Seq::<ActionV>::empty()
            &&& engine::pump_asked(t, second, later) == t
            &&& engine::pump_actions(
                EngineV { pump: Pump { scheduled: false, ..t.pump }, ..t },
                second,
            ).len() == 1
        }),
{
}

/// Elsewhere the earliest time that was asked for is kept: the pump is never later than asked, and
/// once that time has come it runs, once.
pub proof fn law_pump_is_never_late(s: EngineV, delay_ms: i64, now: u64, later: u64)
    requires
        s.platform != Platform::MacOs,
    ensures
        ({
            let t = engine::pump_asked(s, delay_ms, now);
            &&& t.pump.due is Some
            &&& t.pump.due->0 <= engine::delayed(now, delay_ms)
            &&& s.pump.due is Some ==> t.pump.due->0 <= s.pump.due->0
            &&& later >= engine::delayed(now, delay_ms) ==> {
                &&& engine::due_at(t, later).pump
                &&& !engine::due_at(engine::driven(t, later), later).pump
            }
        }),
{
}

/// Work is not entered twice: while it is under way it is only noted that more is wanted, and when
/// it ends the pump is asked to run once more, so that nothing is lost.
pub proof fn law_no_work_is_lost(s: EngineV, now: u64)
    requires
        s.pump.in_work,
    ensures
        ({
            let again = engine::work_begun(s);
            let t = work::work_ended(again, now);
            &&& again.pump.in_work
            &&& again.pump.redo
            &&& !t.pump.in_work
            &&& !t.pump.redo
            &&& s.platform == Platform::MacOs ==> t.pump.scheduled
            &&& s.platform != Platform::MacOs ==> engine::due_at(t, now).pump
        }),
{
}

/// A round of work takes every step once: each has a place of its own.
pub proof fn law_every_step_has_its_place(step: work::Step)
    ensures
        work::step_at(work::place(step)) == Some(step),
        work::step_at(work::place(step) + 1) is None <==> step is End,
        work::step_at(0) is Some,
        forall|i: int|
            0 <= i < work::round().len() ==> work::place(#[trigger] work::round()[i]) == i,
{
}

/// Browsers are made before operations are applied: one that is made in a round is reached by the
/// operations of the same round.
pub proof fn law_new_browsers_are_reached(
    s: EngineV,
    req: CreateReqV,
    rest: Seq<CreateReqV>,
    cid: i32,
    now: u64,
)
    requires
        ids::ids_apart(s, seq![req] + rest),
        !s.close_requested.contains(req.id),
    ensures
        work::place(work::Step::Create) < work::place(work::Step::Operate),
        apply::reachable(
            create::windowed_made(s, req.id, req.nsview, Some(cid), now),
            req.id,
        ) == Some(cid),
        apply::reachable(
            create::offscreen_made(s, req.id, req.nsview, Some(cid), now),
            req.id,
        ) == Some(cid),
{
    let all = ids::ids(s, seq![req] + rest);
    let at = (s.browsers.len() + s.pending.len()) as int;
    assert(all[at] == req.id);
    assert forall|i: int| 0 <= i < s.browsers.len() implies (#[trigger] s.browsers[i]).0
        != req.id by {
        assert(all[i] == s.browsers[i].0);
    }
    lemma_cid_of_last(s.browsers, req.id, cid);
}

proof fn lemma_cid_of_last(browsers: Seq<(u32, i32)>, id: u32, cid: i32)
    requires
        forall|i: int| 0 <= i < browsers.len() ==> (#[trigger] browsers[i]).0 != id,
    ensures
        engine::cid_of(browsers.push((id, cid)), id) == Some(cid),
    decreases browsers.len(),
{
    if browsers.len() > 0 {
        let rest = browsers.skip(1);
        assert forall|i: int| 0 <= i < rest.len() implies (#[trigger] rest[i]).0 != id by {
            assert(rest[i] == browsers[i + 1]);
        }
        assert(browsers.push((id, cid)).skip(1) =~= rest.push((id, cid)));
        lemma_cid_of_last(rest, id, cid);
        assert(browsers.push((id, cid))[0] == browsers[0]);
    } else {
        assert(browsers.push((id, cid))[0] == (id, cid));
    }
}

// ── making browsers ──────────────────────────────────────────────────────────────────────────

/// Two browsers asked for in turn have different ids, and both wait, in that order.
pub proof fn law_ids_differ(
    s: EngineV,
    a: CreateReqV,
    b: CreateReqV,
    owner_a: Seq<char>,
    owner_b: Seq<char>,
    now: u64,
)
    requires
        a.id == s.next_id,
        b.id == engine::create_asked(s, a, owner_a, now).next_id,
    ensures
        a.id != b.id,
        engine::create_asked(engine::create_asked(s, a, owner_a, now), b, owner_b, now).pending
            == s.pending.push(a).push(b),
{
}

/// An offscreen browser that could not be made leaves no surface behind.
pub proof fn law_failed_creation_is_undone(
    s: EngineV,
    id: u32,
    nsview: usize,
    w: i32,
    h: i32,
    scale: u32,
    view: usize,
    layer: usize,
    now: u64,
)
    requires
        !s.surfaces.has(id),
    ensures
        ({
            let begun = create::offscreen_begun(s, id, nsview, w, h, scale, view, layer);
            let t = create::offscreen_made(begun, id, nsview, None, now);
            &&& t.surfaces.surfs == s.surfaces.surfs
            &&& t.browsers == s.browsers
            &&& t.parents == s.parents
            &&& t.visible == s.visible
            &&& t.osr_creating is None
            &&& nsview != 0 ==> create::offscreen_actions(begun, id, None).len() == 1
        }),
{
    let begun = create::offscreen_begun(s, id, nsview, w, h, scale, view, layer);
    let t = create::offscreen_made(begun, id, nsview, None, now);
    assert(t.surfaces.surfs =~= s.surfaces.surfs);
}

/// Developer tools keep the id that was handed out for them: through the wait for their target they
/// come back as a browser to be made under that id, at the same place.
pub proof fn law_devtools_keep_their_id(
    s: EngineV,
    req: CreateReqV,
    answer: Option<JsonV>,
    now: u64,
)
    requires
        req.devtools_of is Some,
        create::inspected_cid(s, req, true) is Some,
        devtools::wait_index(s.devtools_wait, s.devtools_msg_id) is None,
        devtools::target_id(answer) is Some,
    ensures
        ({
            let asked = create::create_planned(s, req, true);
            let t = devtools::answered(asked, s.devtools_msg_id, 1, answer, now);
            let made = t.pending.last();
            &&& t.pending.len() == s.pending.len() + 1
            &&& made.id == req.id
            &&& made.nsview == req.nsview
            &&& (made.x, made.y, made.w, made.h) == (req.x, req.y, req.w, req.h)
            &&& made.url == devtools::frontend_url(
                s.devtools_port,
                devtools::target_id(answer)->0,
            )
            &&& made.devtools_of is None
            &&& t.devtools_screencast[req.id] == req.screencast
            &&& t.devtools_wait == s.devtools_wait
        }),
{
    let asked = create::create_planned(s, req, true);
    let w = asked.devtools_wait.last();
    lemma_last_wait(s.devtools_wait, w);
    assert(asked.devtools_wait == s.devtools_wait.push(w));
    assert(s.devtools_wait.push(w).remove(s.devtools_wait.len() as int) =~= s.devtools_wait);
}

proof fn lemma_last_wait(waits: Seq<crate::ops::DevtoolsWait>, w: crate::ops::DevtoolsWait)
    requires
        devtools::wait_index(waits, w.msg_id) is None,
    ensures
        devtools::wait_index(waits.push(w), w.msg_id) == Some(waits.len() as int),
    decreases waits.len(),
{
    if waits.len() > 0 {
        assert(waits.push(w).skip(1) =~= waits.skip(1).push(w));
        lemma_last_wait(waits.skip(1), w);
    } else {
        assert(waits.push(w)[0] == w);
    }
}

// ── surfaces ─────────────────────────────────────────────────────────────────────────────────

/// Whatever is done, every surface stays well formed: of at least one by one, with pools that can
/// be used.
pub proof fn law_surfaces_stay_well_formed(s: EngineV, op: OpV, probe: Probe, now: u64)
    requires
        s.surfaces.wf(),
    ensures
        apply::applied(s, op, probe, now).surfaces.wf(),
        work::reaped(s).surfaces.wf(),
        forall|p: Platform, no_tick: bool| (#[trigger] engine::idle_engine(p, no_tick)).surfaces.wf(),
        forall|
            id: u32,
            nsview: usize,
            w: i32,
            h: i32,
            scale: u32,
            view: usize,
            layer: usize,
        | #[trigger]
            create::offscreen_begun(s, id, nsview, w, h, scale, view, layer).surfaces.wf(),
        forall|id: u32, nsview: usize, cid: Option<i32>, at: u64| #[trigger]
            create::offscreen_made(s, id, nsview, cid, at).surfaces.wf(),
        forall|id: u32, nsview: usize, cid: Option<i32>, at: u64| #[trigger]
            create::windowed_made(s, id, nsview, cid, at).surfaces.wf(),
{
}

/// Requests, and reports that are no frames, leave the surfaces as they are.
pub proof fn law_requests_leave_surfaces_alone(s: EngineV, c: command::CommandV, now: u64)
    ensures
        protocol::done(s, c, now).surfaces == s.surfaces,
        forall|n: protocol::Notice| #[trigger] protocol::notified(s, n, now).surfaces == s.surfaces,
        forall|q: i64, doc: Option<JsonV>| #[trigger]
            handlers::query_asked(s, q, doc).surfaces == s.surfaces,
        forall|cid: Option<i32>| #[trigger] handlers::closed(s, cid, now).surfaces == s.surfaces,
        forall|cid: Option<i32>, is_loading: i32| #[trigger]
            handlers::loading_changed(s, cid, is_loading, now).surfaces == s.surfaces,
        forall|msg_id: i32, success: i32, doc: Option<JsonV>| #[trigger]
            devtools::answered(s, msg_id, success, doc, now).surfaces == s.surfaces,
        forall|req: CreateReqV, host: bool| #[trigger]
            create::create_planned(s, req, host).surfaces == s.surfaces,
        engine::activity_checked(s, now).surfaces == s.surfaces,
        engine::tick_decided(s, now).surfaces == s.surfaces,
        engine::work_begun(s).surfaces == s.surfaces,
        work::work_ended(s, now).surfaces == s.surfaces,
        engine::driven(s, now).surfaces == s.surfaces,
        forall|id: u32| #[trigger] frame_stream::kicked(s, id, now).surfaces == s.surfaces,
{
}

/// Popups and frames, too, leave every surface well formed.
pub proof fn law_frames_keep_surfaces_well_formed(s: SurfacesV, id: u32, popup: bool)
    requires
        s.wf(),
    ensures
        presenter::frame_shown(s, id, popup).wf(),
        presenter::popup_shown(s, id, popup).wf(),
        forall|layer: usize| #[trigger] presenter::popup_layered(s, id, layer).wf(),
        forall|rect: Frame| #[trigger] presenter::popup_placed(s, id, rect).wf(),
        forall|slots: [usize; 3], tex: [usize; 3], w: i32, h: i32| #[trigger]
            presenter::pool_replaced(s, id, popup, slots, tex, w, h).wf(),
{
}

/// After a browser is given bounds, it is told the new size when it asks.
pub proof fn law_bounds_are_reported(s: EngineV, id: u32, cid: i32, w: i32, h: i32)
    requires
        engine::id_of(s.browsers, cid) == Some(id),
        s.surfaces.has(id),
        !s.close_requested.contains(id),
    ensures
        render::size_of(apply::bounds_applied(s, id, w, h), Some(cid)) == (
            presenter::clamped(w),
            presenter::clamped(h),
        ),
{
}

/// Every system makes the same decisions about a surface: its scale, its size, whether it is hidden,
/// and the place of its popup do not depend on the system.
pub proof fn law_systems_agree_on_surfaces(
    s: EngineV,
    p: Platform,
    op: OpV,
    probe: Probe,
    now: u64,
    id: u32,
    nsview: usize,
    w: i32,
    h: i32,
    scale: u32,
    view: usize,
    layer: usize,
)
    ensures
        ({
            let t = EngineV { platform: p, ..s };
            let here = create::offscreen_begun(s, id, nsview, w, h, scale, view, layer);
            let there = create::offscreen_begun(t, id, nsview, w, h, scale, view, layer);
            &&& here.surfaces.surfs == there.surfaces.surfs
            &&& here.osr_creating == there.osr_creating
            &&& apply::applied(s, op, probe, now).surfaces == apply::applied(
                t,
                op,
                probe,
                now,
            ).surfaces
            &&& forall|cid: Option<i32>| #[trigger]
                render::size_of(s, cid) == render::size_of(t, cid)
            &&& forall|cid: Option<i32>| #[trigger]
                render::scale_bits(s, cid) == render::scale_bits(t, cid)
        }),
{
}

/// Where frames are not shown yet they are not dropped in silence.
pub proof fn law_frames_elsewhere_are_reported(
    s: SurfacesV,
    p: Platform,
    id: u32,
    has_surface: bool,
    w: i32,
    h: i32,
    gpu: bool,
    popup: bool,
)
    requires
        p != Platform::MacOs,
    ensures
        presenter::present_step(s, p, id, has_surface, w, h, gpu, popup) matches PresentStep::Drop {
            note,
        } && note is Some,
        w > 0 && h > 0 ==> presenter::cpu_note(p, true, w, h) is Some,
{
}

/// The size on record while an offscreen browser is made is at least one by one.
pub open spec fn creating_wf(s: EngineV) -> bool {
    s.osr_creating matches Some(c) ==> c.0 >= 1 && c.1 >= 1
}

/// The size on record is one by one at least from the moment that a browser begins to be made, and
/// whatever happens meanwhile; once the browser is made, or could not be, none is on record.
pub proof fn law_size_on_record_is_usable(
    s: EngineV,
    op: OpV,
    probe: Probe,
    c: command::CommandV,
    now: u64,
    surfaces: SurfacesV,
)
    requires
        creating_wf(s),
    ensures
        forall|p: Platform, no_tick: bool| creating_wf(#[trigger] engine::idle_engine(p, no_tick)),
        forall|
            id: u32,
            nsview: usize,
            w: i32,
            h: i32,
            scale: u32,
            view: usize,
            layer: usize,
        | ({
            let t = #[trigger] create::offscreen_begun(s, id, nsview, w, h, scale, view, layer);
            creating_wf(t) && t.osr_creating is Some
        }),
        forall|id: u32, nsview: usize, cid: Option<i32>, at: u64|
            (#[trigger] create::offscreen_made(s, id, nsview, cid, at)).osr_creating is None,
        forall|id: u32, nsview: usize, cid: Option<i32>, at: u64|
            creating_wf(#[trigger] create::windowed_made(s, id, nsview, cid, at)),
        forall|req: CreateReqV, host: bool|
            creating_wf(#[trigger] create::create_planned(s, req, host)),
        creating_wf(apply::applied(s, op, probe, now)),
        creating_wf(protocol::done(s, c, now)),
        creating_wf(work::reaped(s)),
        creating_wf((EngineV { surfaces, ..s })),
        forall|n: protocol::Notice| creating_wf(#[trigger] protocol::notified(s, n, now)),
        forall|q: i64, doc: Option<JsonV>| creating_wf(#[trigger] handlers::query_asked(s, q, doc)),
        forall|cid: Option<i32>| creating_wf(#[trigger] handlers::closed(s, cid, now)),
        forall|cid: Option<i32>, is_loading: i32|
            creating_wf(#[trigger] handlers::loading_changed(s, cid, is_loading, now)),
        forall|msg_id: i32, success: i32, doc: Option<JsonV>|
            creating_wf(#[trigger] devtools::answered(s, msg_id, success, doc, now)),
        forall|id: u32| creating_wf(#[trigger] frame_stream::kicked(s, id, now)),
        creating_wf(engine::activity_checked(s, now)),
        creating_wf(engine::tick_decided(s, now)),
        creating_wf(engine::tick_rearmed(s, now)),
        creating_wf(engine::work_begun(s)),
        creating_wf(work::work_ended(s, now)),
        creating_wf(engine::driven(s, now)),
{
}

/// A browser is told one and the same size, whichever way it asks.
pub proof fn law_one_size(s: EngineV, cid: Option<i32>)
    requires
        s.surfaces.wf(),
        creating_wf(s),
    ensures
        presenter::clamped(render::size_of(s, cid).0) == render::size_of(s, cid).0,
        presenter::clamped(render::size_of(s, cid).1) == render::size_of(s, cid).1,
{
    if let Some(id) = handlers::offscreen_source(s, cid) {
        assert(s.surfaces.surfs.contains_key(id));
    }
}

/// A hidden surface shows no frame, and a frame of a popup that has closed is dropped.
pub proof fn law_hidden_surfaces_drop_frames(
    s: SurfacesV,
    id: u32,
    has_surface: bool,
    w: i32,
    h: i32,
)
    requires
        s.has(id),
    ensures
        s.surfs[id].hidden ==> presenter::frame_step(s, id, has_surface, w, h, true, false)
            == (PresentStep::Drop { note: None }),
        !s.surfs[id].popup_shown ==> presenter::frame_step(s, id, has_surface, w, h, true, true)
            == (PresentStep::Drop { note: None }),
{
}

/// The buffers of a pool take turns: while more than one was made, a frame never lands in the buffer
/// that is being shown.
pub proof fn law_shown_buffer_is_spared(s: SurfacesV, id: u32, popup: bool, i: int, j: int)
    requires
        s.wf(),
        s.has(id),
        0 <= i < j < POOL,
        presenter::slot_made(presenter::pool_for(s.surfs[id], popup), i),
        presenter::slot_made(presenter::pool_for(s.surfs[id], popup), j),
    ensures
        ({
            let once = presenter::frame_shown(s, id, popup);
            let shown = presenter::turn(presenter::pool_for(s.surfs[id], popup));
            let following = presenter::turn(presenter::pool_for(once.surfs[id], popup));
            shown is Some && following is Some && following != shown
        }),
{
    lemma_turn(presenter::pool_for(s.surfs[id], popup));
    lemma_turn(presenter::pool_for(presenter::frame_shown(s, id, popup).surfs[id], popup));
}

/// Where every buffer was made, each has its turn, and after as many frames as there are buffers the
/// first has its turn again.
pub proof fn law_buffers_take_turns(s: SurfacesV, id: u32, popup: bool)
    requires
        s.wf(),
        s.has(id),
        forall|i: int|
            0 <= i < POOL ==> #[trigger] presenter::slot_made(
                presenter::pool_for(s.surfs[id], popup),
                i,
            ),
    ensures
        ({
            let once = presenter::frame_shown(s, id, popup);
            let twice = presenter::frame_shown(once, id, popup);
            let thrice = presenter::frame_shown(twice, id, popup);
            let turn = |t: SurfacesV| presenter::turn(presenter::pool_for(t.surfs[id], popup));
            &&& turn(s) is Some && turn(once) is Some && turn(twice) is Some
            &&& turn(once) != turn(s)
            &&& turn(twice) != turn(once)
            &&& turn(twice) != turn(s)
            &&& turn(thrice) == turn(s)
            &&& presenter::pool_for(thrice.surfs[id], popup) == presenter::pool_for(
                s.surfs[id],
                popup,
            )
            &&& thrice.frames_presented == s.frames_presented.wrapping_add(3)
        }),
{
    let once = presenter::frame_shown(s, id, popup);
    let twice = presenter::frame_shown(once, id, popup);
    assert(presenter::slot_made(presenter::pool_for(s.surfs[id], popup), 0));
    assert(presenter::slot_made(presenter::pool_for(s.surfs[id], popup), 1));
    assert(presenter::slot_made(presenter::pool_for(s.surfs[id], popup), 2));
    lemma_turn(presenter::pool_for(s.surfs[id], popup));
    lemma_turn(presenter::pool_for(once.surfs[id], popup));
    lemma_turn(presenter::pool_for(twice.surfs[id], popup));
}

/// Surfaces `s` after `n` frames of `id` were shown.
pub open spec fn after_frames(s: SurfacesV, id: u32, popup: bool, n: nat) -> SurfacesV
    decreases n,
{
    if n == 0 {
        s
    } else {
        presenter::frame_shown(after_frames(s, id, popup, (n - 1) as nat), id, popup)
    }
}

/// After its buffers are built anew, and all of them could be made, a surface shows frame after frame
/// of that size in its own buffers, from the first one on and going round: with three buffers the
/// first four frames go to the first, the second, the third and the first. Every frame counts.
pub proof fn law_frames_go_round(
    s: SurfacesV,
    id: u32,
    popup: bool,
    slots: [usize; 3],
    tex: [usize; 3],
    w: i32,
    h: i32,
    n: nat,
)
    requires
        presenter::accepts_frame(s, id, popup),
        w > 0,
        h > 0,
        forall|i: int| 0 <= i < POOL ==> #[trigger] slots[i] != 0 && tex[i] != 0,
    ensures
        ({
            let built = presenter::pool_replaced(s, id, popup, slots, tex, w, h);
            let t = after_frames(built, id, popup, n);
            &&& presenter::frame_step(t, id, true, w, h, true, popup) == (PresentStep::Blit {
                target: Target {
                    layer: presenter::layer_for(s.surfs[id], popup),
                    surface: slots[n as int % POOL as int],
                    texture: tex[n as int % POOL as int],
                },
            })
            &&& t.frames_presented == (s.frames_presented + n) % (u64::MAX + 1)
        }),
{
    lemma_frames_go_round(s, id, popup, slots, tex, w, h, n);
    let pool = Pool { slots, tex, w, h, next: (n as int % POOL as int) as usize };
    assert(slots[0] != 0);
    assert(slots[n as int % POOL as int] != 0);
    assert(presenter::slot_after(pool, 0) == n as int % POOL as int);
    assert(presenter::slot_made(pool, presenter::slot_after(pool, 0)));
}

proof fn lemma_frames_go_round(
    s: SurfacesV,
    id: u32,
    popup: bool,
    slots: [usize; 3],
    tex: [usize; 3],
    w: i32,
    h: i32,
    n: nat,
)
    requires
        s.has(id),
        forall|i: int| 0 <= i < POOL ==> #[trigger] slots[i] != 0 && tex[i] != 0,
    ensures
        ({
            let built = presenter::pool_replaced(s, id, popup, slots, tex, w, h);
            let t = after_frames(built, id, popup, n);
            &&& t.has(id)
            &&& t.surfs[id] == presenter::with_pool(
                s.surfs[id],
                popup,
                (Pool { slots, tex, w, h, next: (n as int % POOL as int) as usize }),
            )
            &&& t.frames_presented == (s.frames_presented + n) % (u64::MAX + 1)
        }),
    decreases n,
{
    if n > 0 {
        let m = (n - 1) as nat;
        lemma_frames_go_round(s, id, popup, slots, tex, w, h, m);
        let pool = Pool { slots, tex, w, h, next: (m as int % POOL as int) as usize };
        assert(slots[m as int % POOL as int] != 0);
        assert(presenter::slot_after(pool, 0) == m as int % POOL as int);
        assert(presenter::turn(pool) == Some(m as int % POOL as int));
        assert((m as int % POOL as int + 1) % POOL as int == n as int % POOL as int);
    }
}

/// A buffer that could not be made never stops the frames: as long as one was made, every frame that
/// is accepted has a whole buffer to go to, and so has the frame after it.
pub proof fn law_missing_buffers_are_skipped(s: SurfacesV, id: u32, popup: bool, good: int)
    requires
        s.wf(),
        presenter::accepts_frame(s, id, popup),
        0 <= good < POOL,
        presenter::slot_made(presenter::pool_for(s.surfs[id], popup), good),
    ensures
        ({
            let t = presenter::frame_shown(s, id, popup);
            &&& presenter::target_step(s, id, popup) matches PresentStep::Blit { target }
                && target.surface != 0 && target.texture != 0
            &&& t.frames_presented == s.frames_presented.wrapping_add(1)
            &&& presenter::target_step(t, id, popup) is Blit
        }),
{
    lemma_turn(presenter::pool_for(s.surfs[id], popup));
    lemma_turn(presenter::pool_for(presenter::frame_shown(s, id, popup).surfs[id], popup));
}

/// Going round passes every slot.
proof fn lemma_turn(pool: Pool)
    requires
        pool.wf(),
    ensures
        forall|i: int|
            0 <= i < POOL && #[trigger] presenter::slot_made(pool, i) ==> presenter::turn(
                pool,
            ) is Some,
        presenter::turn(pool) matches Some(i) ==> 0 <= i < POOL && presenter::slot_made(pool, i),
{
    assert forall|i: int| 0 <= i < POOL && #[trigger] presenter::slot_made(pool, i) implies
        presenter::turn(pool) is Some by {
        assert(i == presenter::slot_after(pool, 0) || i == presenter::slot_after(pool, 1) || i
            == presenter::slot_after(pool, 2));
    }
}

/// View frames and popup frames do not disturb each other's buffers.
pub proof fn law_pools_are_apart(s: SurfacesV, id: u32, popup: bool)
    requires
        s.has(id),
    ensures
        presenter::pool_for(presenter::frame_shown(s, id, popup).surfs[id], !popup)
            == presenter::pool_for(s.surfs[id], !popup),
{
}

// ── input ────────────────────────────────────────────────────────────────────────────────────

/// The flags of keys and of mouse buttons never overlap.
pub proof fn law_flags_are_apart(mods: u32, bits: u8)
    ensures
        input::keyboard_flags(mods) & input::button_flags(bits) == 0,
{
    let a = mods & 1 != 0;
    let b = mods & 2 != 0;
    let c = mods & 4 != 0;
    let d = mods & 8 != 0;
    let p = bits & 1 != 0;
    let q = bits & 2 != 0;
    let r = bits & 4 != 0;
    let k1: u32 = if a { 0x02 } else { 0 };
    let k2: u32 = if b { 0x04 } else { 0 };
    let k3: u32 = if c { 0x08 } else { 0 };
    let k4: u32 = if d { 0x80 } else { 0 };
    let m1: u32 = if p { 0x10 } else { 0 };
    let m2: u32 = if q { 0x20 } else { 0 };
    let m3: u32 = if r { 0x40 } else { 0 };
    assert((k1 | k2 | k3 | k4) & (m1 | m2 | m3) == 0) by (bit_vector)
        requires
            k1 == 0 || k1 == 0x02,
            k2 == 0 || k2 == 0x04,
            k3 == 0 || k3 == 0x08,
            k4 == 0 || k4 == 0x80,
            m1 == 0 || m1 == 0x10,
            m2 == 0 || m2 == 0x20,
            m3 == 0 || m3 == 0x40,
    ;
}

/// A button that goes down is held until it goes up, and what was held before is held after.
pub proof fn law_press_and_release(pressed: Map<u32, u8>, id: u32, button: u8)
    requires
        input::held_buttons(pressed, id) & input::button_bit(button) == 0,
    ensures
        ({
            let down = input::button_set(pressed, id, button, true);
            let up = input::button_set(down, id, button, false);
            &&& input::held_buttons(down, id) & input::button_bit(button) != 0
            &&& input::held_buttons(up, id) == input::held_buttons(pressed, id)
            &&& forall|other: u32|
                other != id ==> input::held_buttons(down, other) == input::held_buttons(
                    pressed,
                    other,
                )
        }),
{
    let held = input::held_buttons(pressed, id);
    let bit = input::button_bit(button);
    assert((held | bit) & bit != 0) by (bit_vector)
        requires
            bit == 1 || bit == 2 || bit == 4,
    ;
    assert((held | bit) & !bit == held) by (bit_vector)
        requires
            held & bit == 0,
    ;
}

/// The caret of a composition never lies beyond its text.
pub proof fn law_caret_stays_in_the_text(
    s: EngineV,
    id: u32,
    text: Seq<char>,
    caret: u32,
    probe: Probe,
)
    requires
        !s.close_requested.contains(id),
        apply::hosted(s, id, probe) is Some,
    ensures
        ({
            let acts = apply::ime_actions(s, id, 0, text, caret, probe);
            &&& acts.len() == 1
            &&& acts[0] matches Action::ImeSet { len, caret: at, .. } && at <= len && (caret <= len
                ==> at == caret)
        }),
{
}

// ── requests ─────────────────────────────────────────────────────────────────────────────────

/// A request that is refused changes nothing, has nothing done, and is answered with the reason.
pub proof fn law_refusal_changes_nothing(s: EngineV, p: protocol::Parsed, surface: usize, now: u64)
    requires
        protocol::message_code(s, p, surface) != 0,
    ensures
        protocol::message_code(s, p, surface) == -1,
        protocol::message_state(s, p, surface, now) == s,
        protocol::message_actions(s, p, surface) == Seq::<ActionV>::empty(),
        exists|why: Seq<char>| #[trigger]
            protocol::error_tree(why) == protocol::message_reply(s, p, surface),
{
    match p {
        Ok(t) => {
            let why = protocol::dispatch_answer(s, t, surface)->Err_0;
            assert(protocol::error_tree(why) == protocol::message_reply(s, p, surface));
        },
        Err(m) => {
            let why = "요청 JSON 파싱 실패: "@ + m;
            assert(protocol::error_tree(why) == protocol::message_reply(s, p, surface));
        },
    }
}

/// A request that is done is answered with `ok`.
pub proof fn law_success_says_ok(s: EngineV, p: protocol::Parsed, surface: usize)
    requires
        protocol::message_code(s, p, surface) == 0,
    ensures
        json::as_truth(json::member(protocol::message_reply(s, p, surface), "ok"@)) == Some(true),
{
    reveal_strlit("ok");
    reveal_strlit("id");
    reveal_strlit("evalId");
    reveal_strlit("modes");
    reveal_strlit("version");
    reveal_strlit("ids");
    reveal_strlit("surfaces");
    reveal_strlit("dbg");
    assert("ok"@.len() == 2 && "ok"@[0] == 'o');
    assert("id"@[0] == 'i');
    assert("evalId"@.len() == 6);
    assert("modes"@.len() == 5);
    assert("version"@.len() == 7);
    assert("ids"@.len() == 3);
    assert("surfaces"@.len() == 8);
    assert("dbg"@.len() == 3);
}

/// Operations wait in the order in which they were asked for.
pub proof fn law_first_come_first_served(s: EngineV, a: OpV, b: OpV, now: u64, later: u64)
    ensures
        engine::asked(engine::asked(s, a, now), b, later).ops == s.ops.push(a).push(b),
{
}

/// A script is run under the number that its caller was told, and its result comes back under that
/// number.
pub proof fn law_scripts_are_told_apart(
    s: EngineV,
    id: u32,
    js: Seq<char>,
    now: u64,
    cid: Option<i32>,
    query_id: i64,
    request: Seq<char>,
    persistent: bool,
    report: JsonV,
)
    requires
        handlers::eval_marker(Some(report)) == Some(s.next_eval_id),
    ensures
        ({
            let c = command::Command::Eval { id, js };
            let t = protocol::done(s, c, now);
            let acts = handlers::query_actions(
                s,
                cid,
                query_id,
                request,
                persistent,
                Some(report),
            );
            &&& protocol::answer(s, c) == protocol::ok_with("evalId"@, s.next_eval_id)
            &&& t.ops.last() == (Op::Eval { id, eval_id: s.next_eval_id, js })
            &&& t.next_eval_id != s.next_eval_id
            &&& acts[0] == (Action::<Seq<char>, JsonV>::Emit {
                event: events::eval_result(
                    engine::source_id(s, cid),
                    s.next_eval_id,
                    report,
                ),
            })
            &&& acts[1] == (Action::<Seq<char>, JsonV>::AnswerQuery {
                query_id,
                response: ""@,
                release: true,
            })
        }),
{
}

/// A page query is answered once, unless its asker wants more: after an answer that does not keep
/// it, another finds nobody waiting.
pub proof fn law_queries_are_answered_once(
    s: EngineV,
    query_id: i64,
    success: bool,
    response: Seq<char>,
    error_code: i32,
)
    requires
        s.queries.contains(query_id),
    ensures
        engine::reply_actions(s, query_id, success, response, error_code, false).len() == 1,
        engine::reply_actions(
            engine::replied(s, query_id, false),
            query_id,
            success,
            response,
            error_code,
            false,
        ) == Seq::<ActionV>::empty(),
        engine::reply_actions(
            engine::replied(s, query_id, true),
            query_id,
            success,
            response,
            error_code,
            true,
        ).len() == 1,
{
}

// ── frame streams ────────────────────────────────────────────────────────────────────────────

/// Where nobody listens, a frame is not even copied.
pub proof fn law_nobody_listens_nothing_is_copied(
    s: FrameStreamV,
    id: u32,
    has_surface: bool,
    w: i32,
    h: i32,
    px: Pixels<'_>,
)
    requires
        frame_stream::listeners(s.subs, id).len() == 0 || !s.enabled.contains(id),
    ensures
        frame_stream::submitted(s, id, has_surface, w, h, px) == s,
{
}

/// The newest frame wins: one that the encoder has not taken yet makes way for the next.
pub proof fn law_newest_frame_wins(
    s: FrameStreamV,
    id: u32,
    w: i32,
    h: i32,
    old_px: Pixels<'_>,
    new_px: Pixels<'_>,
)
    requires
        frame_stream::submittable(s, id, true, w, h),
        !(new_px is Unlocked),
    ensures
        ({
            let first = frame_stream::submitted(s, id, true, w, h, old_px);
            let second = frame_stream::submitted(first, id, true, w, h, new_px);
            second.latest == Some(
                FrameV {
                    id,
                    w: w as nat,
                    h: h as nat,
                    bgra: frame_stream::packed(new_px, w as nat, h as nat),
                },
            )
        }),
{
}

proof fn lemma_span(stride: nat, bytes: nat, n: nat)
    requires
        bytes <= stride,
        n > 0,
    ensures
        frame_stream::span(stride, bytes, (n - 1) as nat) <= (n - 1) * stride,
        frame_stream::span(stride, bytes, (n - 1) as nat) <= frame_stream::span(stride, bytes, n),
{
    let m = (n - 1) as nat;
    if m > 0 {
        assert(m * stride == ((m - 1) as nat) * stride + stride) by (nonlinear_arith)
            requires
                m > 0,
        ;
    } else {
        assert(m * stride == 0) by (nonlinear_arith)
            requires
                m == 0,
        ;
    }
}

pub proof fn lemma_rows_len(base: Seq<u8>, stride: nat, bytes: nat, n: nat)
    requires
        bytes <= stride,
        frame_stream::span(stride, bytes, n) <= base.len(),
    ensures
        frame_stream::rows(base, stride, bytes, n).len() == n * bytes,
    decreases n,
{
    if n > 0 {
        let m = (n - 1) as nat;
        lemma_span(stride, bytes, n);
        assert(n * bytes == m * bytes + bytes) by (nonlinear_arith)
            requires
                n == m + 1,
        ;
        lemma_rows_len(base, stride, bytes, m);
    } else {
        assert(n * bytes == 0) by (nonlinear_arith)
            requires
                n == 0,
        ;
    }
}

/// A frame that waits is whole, whatever memory it was read from.
pub proof fn law_waiting_frames_are_whole(
    s: FrameStreamV,
    id: u32,
    has_surface: bool,
    w: i32,
    h: i32,
    px: Pixels<'_>,
)
    requires
        s.wf(),
        frame_stream::submittable(s, id, has_surface, w, h) && !(px is Unlocked) ==> 4 * (w * h)
            <= usize::MAX && frame_stream::readable(px, w as nat, h as nat),
    ensures
        frame_stream::submitted(s, id, has_surface, w, h, px).wf(),
{
    if frame_stream::submittable(s, id, has_surface, w, h) && !(px is Unlocked) {
        let wide = w as nat;
        let high = h as nat;
        if let Pixels::Rows { base, stride } = px {
            if stride >= 4 * wide {
                lemma_rows_len(base@, stride as nat, 4 * wide, high);
                assert(high * (4 * wide) == 4 * (wide * high)) by (nonlinear_arith);
            }
        }
        assert(wide * high == w * h);
    }
}

/// Every byte of an image lands where it belongs, whatever lies between the rows in memory.
pub proof fn law_pixels_are_kept(
    base: Seq<u8>,
    stride: nat,
    bytes: nat,
    h: nat,
    y: nat,
    x: nat,
)
    requires
        bytes <= stride,
        frame_stream::span(stride, bytes, h) <= base.len(),
        y < h,
        x < bytes,
    ensures
        frame_stream::rows(base, stride, bytes, h)[(y * bytes + x) as int] == base[(y * stride
            + x) as int],
    decreases h,
{
    let m = (h - 1) as nat;
    lemma_span(stride, bytes, h);
    lemma_rows_len(base, stride, bytes, m);
    if y < m {
        assert(y * bytes + bytes <= m * bytes) by (nonlinear_arith)
            requires
                y + 1 <= m,
        ;
        law_pixels_are_kept(base, stride, bytes, m, y, x);
    } else {
        assert(y == m);
    }
}

/// The colours of every pixel reach the encoder unchanged.
pub proof fn law_colours_are_kept(bgra: Seq<u8>, n: nat, i: int)
    requires
        4 * n <= bgra.len(),
        0 <= i < n,
    ensures
        ({
            let rgb = frame_stream::rgb_of(bgra, n);
            &&& rgb.len() == 3 * n
            &&& rgb[3 * i] == bgra[4 * i + 2]
            &&& rgb[3 * i + 1] == bgra[4 * i + 1]
            &&& rgb[3 * i + 2] == bgra[4 * i]
        }),
    decreases n,
{
    let m = (n - 1) as nat;
    lemma_rgb_len(bgra, m);
    if i < m {
        law_colours_are_kept(bgra, m, i);
    }
}

pub proof fn lemma_rgb_len(bgra: Seq<u8>, n: nat)
    ensures
        frame_stream::rgb_of(bgra, n).len() == 3 * n,
    decreases n,
{
    if n > 0 {
        lemma_rgb_len(bgra, (n - 1) as nat);
    }
}

proof fn lemma_listeners(subs: Seq<(u32, u64)>, id: u32, other: u32)
    ensures
        frame_stream::listeners(frame_stream::subs_without(subs, id), other) == (if other == id {
            Seq::<u64>::empty()
        } else {
            frame_stream::listeners(subs, other)
        }),
    decreases subs.len(),
{
    reveal(Seq::filter);
    if subs.len() > 0 {
        let front = subs.drop_last();
        lemma_listeners(front, id, other);
        let kept = frame_stream::subs_without(front, id);
        let all = frame_stream::subs_without(subs, id);
        if subs.last().0 != id {
            assert(all == kept.push(subs.last()));
            assert(all.drop_last() =~= kept);
            assert(all.last() == subs.last());
        }
    }
}

/// Switching a stream off closes its connections and no others.
pub proof fn law_switching_off_closes_its_own(s: FrameStreamV, id: u32, other: u32)
    requires
        other != id,
    ensures
        ({
            let t = frame_stream::switched(s, id, false);
            &&& !frame_stream::wanted(t, id)
            &&& frame_stream::listeners(t.subs, id) == Seq::<u64>::empty()
            &&& frame_stream::listeners(t.subs, other) == frame_stream::listeners(s.subs, other)
            &&& frame_stream::wanted(t, other) == frame_stream::wanted(s, other)
        }),
{
    lemma_listeners(s.subs, id, id);
    lemma_listeners(s.subs, id, other);
}

/// A connection that listens to a stream that is switched on gets its next frame.
pub proof fn law_listening_makes_wanted(s: FrameStreamV, id: u32, token: u64)
    requires
        s.enabled.contains(id),
    ensures
        frame_stream::wanted(FrameStreamV { subs: s.subs.push((id, token)), ..s }, id),
        frame_stream::listeners(s.subs.push((id, token)), id).contains(token),
{
    let subs = s.subs.push((id, token));
    assert(subs.drop_last() =~= s.subs);
    let all = frame_stream::listeners(subs, id);
    assert(all[all.len() - 1] == token);
}

// ── the end-to-end run ───────────────────────────────────────────────────────────────────────

/// A run that passes has shown everything: the browser was made, the page's question arrived, frames
/// were shown, and the page reported its last step; offscreen, that is the typed letter with the
/// composed text behind it.
pub proof fn law_passing_shows_everything(h: HarnessV, frames: u64, now: u64)
    requires
        harness::verdict(h, frames, now) == Some(true),
    ensures
        h.created,
        h.query_seen,
        frames > 0,
        h.offscreen ==> h.last_title == "IME_OK:a한글"@,
        !h.offscreen ==> "Q_OK:pong"@.is_prefix_of(h.last_title),
{
}

// ── numerals ─────────────────────────────────────────────────────────────────────────────────

/// A number that is written in decimal reads back as itself.
pub proof fn law_numerals_read_back(n: nat, max: nat)
    requires
        n <= max,
    ensures
        text::unsigned_named(text::decimal(n), max) == Some(n),
{
    lemma_decimal(n);
}

pub proof fn lemma_decimal(n: nat)
    ensures
        text::all_digits(text::decimal(n)),
        text::digits_value(text::decimal(n)) == n,
        text::decimal(n)[0] != '+',
        text::decimal(n)[0] != '-',
    decreases n,
{
    let s = text::decimal(n);
    if n < 10 {
        assert(s.drop_last() =~= Seq::<char>::empty());
        assert(s.last() as nat == 48 + n);
        assert(text::digits_value(s.drop_last()) == 0);
    } else {
        let front = text::decimal(n / 10);
        lemma_decimal(n / 10);
        assert(s.drop_last() =~= front);
        assert(s.last() as nat == 48 + n % 10);
        assert(s[0] == front[0]);
        assert forall|i: int| 0 <= i < s.len() implies text::is_digit(#[trigger] s[i]) by {
            if i < front.len() {
                assert(s[i] == front[i]);
            }
        }
    }
}

/// A process never takes its own profile directory for a left over one, and knows those of others by
/// their numbers.
pub proof fn law_profiles_are_told_apart(own_pid: u32, other: u32)
    requires
        other <= i32::MAX,
    ensures
        startup::left_over(text::decimal(own_pid as nat), own_pid) is None,
        other != own_pid ==> startup::left_over(text::decimal(other as nat), own_pid) == Some(
            other as i32,
        ),
{
    lemma_decimal(own_pid as nat);
    lemma_decimal(other as nat);
    if other != own_pid && own_pid > i32::MAX {
        assert((own_pid as i32) < 0) by (bit_vector)
            requires
                own_pid > 0x7fff_ffff,
        ;
    }
}

/// Only a stream can be had, and only by a `GET`: everything else is refused.
pub proof fn law_only_streams_are_served(head: Seq<char>)
    requires
        ({
            let line = head.take(frame_stream::scan(head, 0, Class::LineEnd));
            ||| frame_stream::first_word(line) != Some("GET"@)
            ||| frame_stream::second_word(line) is None
            ||| !"/s/"@.is_prefix_of(frame_stream::second_word(line)->0)
        }),
    ensures
        frame_stream::requested(head) is None,
        frame_stream::response_for(frame_stream::requested(head))
            == "HTTP/1.1 404 Not Found\r\nConnection: close\r\n\r\n"@,
{
}

/// The stream of a browser is found under `/s/` and its id, with or without a suffix.
pub proof fn law_streams_are_found_by_id(id: u32, tail: Seq<char>)
    requires
        tail.len() == 0 || tail[0] == ' ' || tail[0] == '.' || tail[0] == '?' || tail[0] == '\n',
    ensures
        frame_stream::requested("GET /s/"@ + text::decimal(id as nat) + tail) == Some(id),
{
    let n = text::decimal(id as nat);
    lemma_decimal(id as nat);
    reveal_strlit("GET /s/");
    reveal_strlit("GET");
    reveal_strlit("/s/");
    let head = "GET /s/"@ + n + tail;
    let stop = frame_stream::scan(head, 0, Class::LineEnd);
    assert("GET /s/"@ =~= seq!['G', 'E', 'T', ' ', '/', 's', '/']);
    assert forall|i: int| 0 <= i < 7 + n.len() implies (#[trigger] head[i]) != '\n' by {
        if i >= 7 {
            assert(head[i] == n[i - 7]);
            assert(text::is_digit(n[i - 7]));
        }
    }
    lemma_scan(head, 0, (7 + n.len()) as int, Class::LineEnd);
    let line = head.take(stop);
    assert forall|i: int| 0 <= i < 7 + n.len() implies #[trigger] line[i] == head[i] by {}
    // The method, the gap behind it, and the path.
    assert(frame_stream::scan(line, 0, Class::Solid) == 0);
    assert(line[0] == 'G' && line[1] == 'E' && line[2] == 'T' && line[3] == ' ' && line[4] == '/');
    lemma_scan(line, 0, 3, Class::Space);
    assert(frame_stream::first_word(line) == Some("GET"@)) by {
        assert(line.subrange(0, 3) =~= "GET"@);
    }
    assert(frame_stream::scan(line, 3, Class::Space) == 3);
    assert(frame_stream::scan(line, 3, Class::Solid) == frame_stream::scan(line, 4, Class::Solid));
    assert(frame_stream::scan(line, 4, Class::Solid) == 4);
    assert forall|i: int| 4 <= i < 7 + n.len() implies !frame_stream::in_class(
        #[trigger] line[i],
        Class::Space,
    ) by {
        if i >= 7 {
            assert(head[i] == n[i - 7]);
            assert(text::is_digit(n[i - 7]));
        }
    }
    lemma_scan(line, 4, (7 + n.len()) as int, Class::Space);
    let end = frame_stream::scan(line, 4, Class::Space);
    let path = line.subrange(4, end);
    assert("/s/"@ =~= path.take(3));
    let rest = path.skip(3);
    assert forall|i: int| 0 <= i < n.len() implies #[trigger] rest[i] == n[i] by {
        assert(rest[i] == line[i + 7]);
        assert(head[i + 7] == n[i]);
    }
    assert forall|i: int| 0 <= i < n.len() implies !frame_stream::in_class(
        #[trigger] rest[i],
        Class::PathEnd,
    ) by {
        assert(text::is_digit(n[i]));
    }
    lemma_scan(rest, 0, n.len() as int, Class::PathEnd);
    let cut = frame_stream::scan(rest, 0, Class::PathEnd);
    assert(cut == n.len()) by {
        if rest.len() > n.len() {
            assert(rest[n.len() as int] == line[(7 + n.len()) as int]);
            assert(head[(7 + n.len()) as int] == tail[0]);
        }
    }
    assert(rest.take(cut) =~= n);
}

/// A scan passes over what it does not look for.
pub proof fn lemma_scan(s: Seq<char>, from: int, to: int, class: Class)
    requires
        0 <= from <= to <= s.len(),
        forall|i: int| from <= i < to ==> !frame_stream::in_class(#[trigger] s[i], class),
    ensures
        frame_stream::scan(s, from, class) == frame_stream::scan(s, to, class),
        to <= frame_stream::scan(s, to, class) <= s.len(),
    decreases s.len() - from,
{
    if from < to {
        lemma_scan(s, from + 1, to, class);
    } else {
        lemma_scan_end(s, to, class);
    }
}

pub proof fn lemma_scan_end(s: Seq<char>, from: int, class: Class)
    requires
        0 <= from <= s.len(),
    ensures
        from <= frame_stream::scan(s, from, class) <= s.len(),
    decreases s.len() - from,
{
    if from < s.len() && !frame_stream::in_class(s[from], class) {
        lemma_scan_end(s, from + 1, class);
    }
}

}
