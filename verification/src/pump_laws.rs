//! What waits and when it is done: the pump, activity, painting and dropping, and how browsers come to
//! be.

use vstd::prelude::*;
use vstd::string::*;

use crate::create;
use crate::create::Plan;
use crate::devtools;
use crate::engine;
use crate::engine::{EngineV, Pump, ACTIVE_GRACE_MS, RENDER_TICK_MS};
use crate::json::JsonV;
use crate::laws;
use crate::op_laws;
use crate::op_laws::{length_for, listed, unlisted};
use crate::ops::{Action, ActionV, CreateReqV, DevtoolsWait, Op, OpV};
use crate::presenter::{Platform, SurfacesV};
use crate::report_laws::says;
use crate::text;
use crate::work;

verus! {

// ── the pump ─────────────────────────────────────────────────────────────────────────────────

/// The moment `delay_ms` after `now`, as far as moments go; a delay below zero is none.
pub open spec fn is_delayed(at: u64, now: u64, delay_ms: i64) -> bool {
    &&& delay_ms <= 0 ==> at == now
    &&& delay_ms > 0 && now + delay_ms <= u64::MAX ==> at == now + delay_ms
    &&& delay_ms > 0 && now + delay_ms > u64::MAX ==> at == u64::MAX
}

/// The pump runs when it was asked to. On macOS it is handed to the main queue with that delay, unless
/// a run waits there. Elsewhere the time is kept, unless an earlier one is. Nothing else changes.
pub proof fn law_pump_runs_when_asked(s: EngineV, delay_ms: i64, now: u64)
    ensures
        ({
            let t = engine::pump_asked(s, delay_ms, now);
            let acts = engine::pump_actions(s, delay_ms);
            &&& s.platform == Platform::MacOs ==> {
                &&& t.pump == (Pump { scheduled: true, ..s.pump })
                &&& acts.len() == if s.pump.scheduled { 0nat } else { 1 }
                &&& !s.pump.scheduled ==> (acts[0] matches Action::DispatchPump { delay_ms: d } && d
                    >= 0 && (delay_ms >= 0 ==> d == delay_ms) && (delay_ms < 0 ==> d == 0))
            }
            &&& s.platform != Platform::MacOs ==> {
                &&& acts.len() == 0
                &&& t.pump == (Pump { due: t.pump.due, ..s.pump })
                &&& t.pump.due matches Some(d) && (match s.pump.due {
                    None => is_delayed(d, now, delay_ms),
                    Some(before) => (d == before || is_delayed(d, now, delay_ms)) && d <= before
                        && exists|at: u64| #[trigger]
                        is_delayed(at, now, delay_ms) && d <= at,
                })
            }
            &&& t == (EngineV { pump: t.pump, ..s })
        }),
{
    assert(is_delayed(engine::delayed(now, delay_ms), now, delay_ms));
}

/// The render tick is started at most once, and not at all where it is switched off. On macOS it is
/// handed to the main queue at once, elsewhere it is due at once.
pub proof fn law_tick_is_started_once(s: EngineV, now: u64)
    ensures
        ({
            let t = engine::tick_started(s, now);
            let acts = engine::tick_actions(s);
            let starts = !s.no_tick && !s.pump.tick_on;
            &&& !starts ==> t == s && acts.len() == 0
            &&& starts ==> t.pump == (Pump {
                tick_on: true,
                tick_due: if s.platform == Platform::MacOs {
                    s.pump.tick_due
                } else {
                    Some(now)
                },
                ..s.pump
            })
            &&& starts && s.platform == Platform::MacOs ==> acts.len() == 1 && (
            acts[0] matches Action::DispatchTick { delay_ms } && delay_ms == 0)
            &&& s.platform != Platform::MacOs ==> acts.len() == 0
            &&& t == (EngineV { pump: t.pump, ..s })
        }),
{
}

/// Where the caller drives the pump, the next tick is due one tick later; on macOS the main queue gets
/// it with that delay, and nothing changes.
pub proof fn law_next_tick_is_a_tick_away(s: EngineV, now: u64)
    ensures
        s.platform == Platform::MacOs ==> engine::tick_rearmed(s, now) == s && (
        engine::rearm_actions(s).len() == 1 && (
        engine::rearm_actions(s)[0] matches Action::DispatchTick { delay_ms } && delay_ms == 16)),
        s.platform != Platform::MacOs ==> engine::rearm_actions(s).len() == 0,
        RENDER_TICK_MS == 16,
        s.platform != Platform::MacOs ==> ({
            let t = engine::tick_rearmed(s, now);
            &&& t.pump.tick_due matches Some(d) && is_delayed(d, now, RENDER_TICK_MS)
            &&& t == (EngineV { pump: Pump { tick_due: t.pump.tick_due, ..s.pump }, ..s })
        }),
{
}

/// What has come due is taken, once: it is due exactly where its time has come, what is not due stays,
/// and nothing else changes.
pub proof fn law_due_is_taken_once(s: EngineV, now: u64)
    ensures
        ({
            let d = engine::due_at(s, now);
            let t = engine::driven(s, now);
            &&& d.pump == (s.pump.due matches Some(at) && at <= now)
            &&& d.tick == (s.pump.tick_due matches Some(at) && at <= now)
            &&& t.pump.due == (if d.pump { None } else { s.pump.due })
            &&& t.pump.tick_due == (if d.tick { None } else { s.pump.tick_due })
            &&& t == (EngineV {
                pump: Pump { due: t.pump.due, tick_due: t.pump.tick_due, ..s.pump },
                ..s
            })
        }),
{
}

/// Work is under way from its beginning to its end. Only where more was wanted meanwhile is the pump
/// asked for another run.
pub proof fn law_work_begins_and_ends(s: EngineV, now: u64)
    ensures
        ({
            let t = engine::work_begun(s);
            &&& t.pump.in_work
            &&& t.pump.redo == (s.pump.redo || s.pump.in_work)
            &&& t == (EngineV {
                pump: Pump { in_work: t.pump.in_work, redo: t.pump.redo, ..s.pump },
                ..s
            })
        }),
        ({
            let t = work::work_ended(s, now);
            &&& !t.pump.in_work && !t.pump.redo
            &&& !s.pump.redo ==> t == (EngineV {
                pump: Pump { in_work: false, redo: false, ..s.pump },
                ..s
            })
            &&& s.pump.redo && s.platform == Platform::MacOs ==> t.pump.scheduled
            &&& s.pump.redo && s.platform != Platform::MacOs ==> t.pump.due is Some && t.pump.due->0
                <= now
            &&& t == (EngineV { pump: t.pump, ..s })
        }),
        ({
            let acts = work::end_actions(s);
            let asks = s.pump.redo && s.platform == Platform::MacOs && !s.pump.scheduled;
            &&& acts.len() == if asks { 1nat } else { 0 }
            &&& asks ==> acts[0] == Action::<Seq<char>, JsonV>::DispatchPump { delay_ms: 0 }
        }),
{
}

// ── activity ─────────────────────────────────────────────────────────────────────────────────

/// Something that happens to a browser makes it active for the grace time, and starts the tick.
pub proof fn law_activity_lasts_the_grace_time(s: EngineV, id: u32, now: u64, other: u32)
    requires
        now + ACTIVE_GRACE_MS <= u64::MAX,
        other != id,
    ensures
        ({
            let t = engine::bumped(s, id, now);
            &&& t.active_ids.contains_key(id) && t.active_ids[id] == now + ACTIVE_GRACE_MS
            &&& t.active_ids.contains_key(other) == s.active_ids.contains_key(other)
            &&& t.active_ids[other] == s.active_ids[other]
            &&& t == (EngineV { active_ids: t.active_ids, pump: t.pump, ..s })
            &&& !s.no_tick ==> t.pump.tick_on
        }),
        ({
            let t = engine::bumped_all(s, now);
            &&& t.active_until_ms == now + ACTIVE_GRACE_MS
            &&& t == (EngineV { active_until_ms: t.active_until_ms, pump: t.pump, ..s })
            &&& !s.no_tick ==> t.pump.tick_on
        }),
{
}

/// The engine is active exactly where a page loads, or a grace time runs: that of all, or that of one.
/// Asking drops grace times that are over, and nothing else.
pub proof fn law_active_is_loading_or_grace(s: EngineV, now: u64, id: u32)
    ensures
        engine::active(s, now) <==> (exists|c: i32| s.loading.contains(c)) || now
            < s.active_until_ms || exists|i: u32| #[trigger]
            s.active_ids.contains_key(i) && s.active_ids[i] > now,
        ({
            let t = engine::activity_checked(s, now);
            &&& t == (EngineV { active_ids: t.active_ids, ..s })
            &&& t.active_ids.contains_key(id) ==> s.active_ids.contains_key(id)
                && t.active_ids[id] == s.active_ids[id]
            &&& s.active_ids.contains_key(id) && s.active_ids[id] > now
                ==> t.active_ids.contains_key(id)
            &&& s.loading.is_empty() && now >= s.active_until_ms && t.active_ids.contains_key(id)
                ==> t.active_ids[id] > now
            &&& !s.loading.is_empty() || now < s.active_until_ms ==> t == s
            &&& engine::active(t, now) == engine::active(s, now)
        }),
{
    let live = engine::live(s.active_ids, now);
    let t = engine::activity_checked(s, now);
    assert(engine::live(live, now) =~= live);
    if !live.is_empty() {
        assert(!(live.dom() =~= Set::<u32>::empty()));
        let i = choose|i: u32| live.dom().contains(i);
        assert(s.active_ids.contains_key(i) && s.active_ids[i] > now);
    }
    if exists|i: u32| #[trigger] s.active_ids.contains_key(i) && s.active_ids[i] > now {
        let i = choose|i: u32| #[trigger] s.active_ids.contains_key(i) && s.active_ids[i] > now;
        assert(live.dom().contains(i));
    }
    if !s.loading.is_empty() {
        assert(!(s.loading =~= Set::<i32>::empty()));
    }
    if exists|c: i32| s.loading.contains(c) {
        let c = choose|c: i32| s.loading.contains(c);
        assert(s.loading.contains(c));
    }
}

/// The tick goes on exactly where something is visible and the engine is active; otherwise it is off
/// and can be started again.
pub proof fn law_tick_goes_on_while_there_is_something_to_see(s: EngineV, now: u64)
    ensures
        engine::tick_goes_on(s, now) <==> !s.visible.is_empty() && engine::active(s, now),
        ({
            let t = engine::tick_decided(s, now);
            &&& t.pump.tick_on == (engine::tick_goes_on(s, now) && s.pump.tick_on)
            &&& t.pump == (Pump { tick_on: t.pump.tick_on, ..s.pump })
            &&& t == (EngineV { active_ids: t.active_ids, pump: t.pump, ..s })
        }),
{
}

// ── asking ───────────────────────────────────────────────────────────────────────────────────

/// An operation that is asked for waits behind all others, and the pump will run at once. It makes the
/// browser that it is for active, and nobody else; an overlay concerns all, and closing nobody.
pub proof fn law_operations_wait_in_line(s: EngineV, op: OpV, now: u64, other: u32)
    requires
        now + ACTIVE_GRACE_MS <= u64::MAX,
        op.target() != Some(other),
    ensures
        ({
            let t = engine::asked(s, op, now);
            &&& t.ops == s.ops.push(op)
            &&& s.platform == Platform::MacOs ==> t.pump.scheduled
            &&& s.platform != Platform::MacOs ==> t.pump.due is Some && t.pump.due->0 <= now
            &&& op is Close ==> t == (EngineV { ops: t.ops, pump: t.pump, ..s }) && t.pump.tick_on
                == s.pump.tick_on
            &&& op is Overlay ==> t.active_until_ms == now + ACTIVE_GRACE_MS && t.active_ids
                == s.active_ids
            &&& !(op is Overlay) ==> t.active_until_ms == s.active_until_ms
            &&& !(op is Overlay) && !(op is Close) ==> t.active_ids.contains_key(op.target()->0)
                && t.active_ids[op.target()->0] == now + ACTIVE_GRACE_MS
            &&& !(op is Close) && !s.no_tick ==> t.pump.tick_on
            &&& t.active_ids.contains_key(other) == s.active_ids.contains_key(other)
            &&& t.active_ids[other] == s.active_ids[other]
            &&& t == (EngineV {
                ops: t.ops,
                active_ids: t.active_ids,
                active_until_ms: t.active_until_ms,
                pump: t.pump,
                ..s
            })
        }),
        ({
            let acts = engine::ask_actions(s, op);
            let ticks = !(op is Close) && !s.no_tick && !s.pump.tick_on;
            &&& s.platform != Platform::MacOs ==> acts.len() == 0
            &&& s.platform == Platform::MacOs ==> {
                &&& acts.len() == (if ticks { 1nat } else { 0 }) + (if s.pump.scheduled {
                    0nat
                } else {
                    1
                })
                &&& ticks ==> acts[0] == Action::<Seq<char>, JsonV>::DispatchTick { delay_ms: 0 }
                &&& !s.pump.scheduled ==> acts.last() == Action::<
                    Seq<char>,
                    JsonV,
                >::DispatchPump { delay_ms: 0 }
            }
        }),
{
}

/// A browser that is asked to close is counted, and its close waits in line; nobody is active on that
/// account.
pub proof fn law_closing_is_asked_for(s: EngineV, id: u32, now: u64)
    ensures
        ({
            let t = engine::close_asked(s, id, now);
            &&& t.ops == s.ops.push(Op::Close { id })
            &&& s.dbg.close_enter < u64::MAX ==> t.dbg.close_enter == s.dbg.close_enter + 1
            &&& t.dbg.close_applied == s.dbg.close_applied && t.dbg.close_browser
                == s.dbg.close_browser && t.dbg.close_notfound == s.dbg.close_notfound
                && t.dbg.reaped == s.dbg.reaped
            &&& t == (EngineV { ops: t.ops, dbg: t.dbg, pump: t.pump, ..s })
            &&& s.platform == Platform::MacOs ==> t.pump.scheduled
            &&& s.platform != Platform::MacOs ==> t.pump.due is Some && t.pump.due->0 <= now
        }),
{
}

/// Scripts are numbered one after the other.
pub proof fn law_scripts_are_numbered(s: EngineV, id: u32, js: Seq<char>, now: u64)
    ensures
        ({
            let t = engine::eval_asked(s, id, js, now);
            &&& t.ops == s.ops.push(Op::Eval { id, eval_id: s.next_eval_id, js })
            &&& s.next_eval_id < u64::MAX ==> t.next_eval_id == s.next_eval_id + 1
            &&& t == (EngineV {
                ops: t.ops,
                next_eval_id: t.next_eval_id,
                active_ids: t.active_ids,
                pump: t.pump,
                ..s
            })
        }),
{
}

/// The children of a parent are told apart from those of others, and come in the order in which they
/// were made: one more child is one more at the end.
pub proof fn law_children_come_in_order(
    parents: Seq<(u32, usize)>,
    view: usize,
    id: u32,
    other: usize,
)
    requires
        other != view,
    ensures
        engine::children(Seq::empty(), view).len() == 0,
        engine::children(parents.push((id, view)), view) == engine::children(parents, view).push(id),
        engine::children(parents.push((id, other)), view) == engine::children(parents, view),
{
    assert(parents.push((id, view)).drop_last() =~= parents);
    assert(parents.push((id, other)).drop_last() =~= parents);
}

/// Before a parent goes, a close for each of its children waits, in order, and the pump will run.
/// Where it has none nothing happens.
pub proof fn law_children_are_closed_in_order(s: EngineV, ids: Seq<u32>, now: u64)
    ensures
        ids.len() == 0 ==> engine::all_closing(s, ids, now) == s,
        ids.len() > 0 ==> ({
            let t = engine::all_closing(s, ids, now);
            &&& t.ops.len() == s.ops.len() + ids.len()
            &&& forall|i: int| 0 <= i < s.ops.len() ==> #[trigger] t.ops[i] == s.ops[i]
            &&& forall|i: int|
                0 <= i < ids.len() ==> t.ops[s.ops.len() + i] == (Op::<Seq<char>>::Close {
                    id: #[trigger] ids[i],
                })
            &&& s.platform == Platform::MacOs ==> t.pump.scheduled
            &&& s.platform != Platform::MacOs ==> t.pump.due is Some && t.pump.due->0 <= now
            &&& t == (EngineV { ops: t.ops, pump: t.pump, ..s })
        }),
{
}

/// A browser that is asked for waits in line under the next id, with its owner on record, and the
/// pump will run.
pub proof fn law_browsers_wait_to_be_made(
    s: EngineV,
    req: CreateReqV,
    owner: Seq<char>,
    now: u64,
    other: u32,
)
    requires
        other != req.id,
    ensures
        ({
            let t = engine::create_asked(s, req, owner, now);
            &&& t.pending == s.pending.push(req)
            &&& s.next_id < u32::MAX ==> t.next_id == s.next_id + 1
            &&& t.owners.contains_key(req.id) && t.owners[req.id] == owner
            &&& engine::owner_of(t, req.id) == owner
            &&& t.owners.contains_key(other) == s.owners.contains_key(other)
            &&& t.owners[other] == s.owners[other]
            &&& s.platform == Platform::MacOs ==> t.pump.scheduled
            &&& s.platform != Platform::MacOs ==> t.pump.due is Some && t.pump.due->0 <= now
            &&& t == (EngineV {
                pending: t.pending,
                next_id: t.next_id,
                owners: t.owners,
                pump: t.pump,
                ..s
            })
        }),
        !s.owners.contains_key(other) ==> engine::owner_of(s, other).len() == 0,
{
}

/// The living browsers are told one by one, in the order in which they were made: each with its owner,
/// which is empty where none is on record, and with its mode.
pub proof fn law_living_browsers_are_told(s: EngineV, r: Seq<(u32, String, bool)>, i: int)
    requires
        engine::info_matches(s, r),
        0 <= i < s.browsers.len(),
    ensures
        r.len() == s.browsers.len(),
        r[i].0 == s.browsers[i].0,
        r[i].2 == s.surfaces.surfs.contains_key(r[i].0),
        s.owners.contains_key(r[i].0) ==> r[i].1@ == s.owners[r[i].0],
        !s.owners.contains_key(r[i].0) ==> r[i].1@.len() == 0,
{
}

// ── making browsers ──────────────────────────────────────────────────────────────────────────

/// A browser is made as it was asked for: under its id and its parent, where it was asked for, of one
/// by one at least, with its address; offscreen exactly where a scale was given, at that scale.
pub proof fn law_browsers_are_planned_as_asked(s: EngineV, req: CreateReqV, host: bool)
    requires
        req.devtools_of is None,
    ensures
        create::create_planned(s, req, host) == s,
        match create::create_plan(s, req, host) {
            Plan::Offscreen { id, nsview, x, y, w, h, scale, url } => {
                &&& req.offscreen_scale == Some(scale)
                &&& id == req.id && nsview == req.nsview && x == req.x && y == req.y && url
                    == req.url
                &&& length_for(w, req.w) && length_for(h, req.h)
            },
            Plan::Windowed { id, nsview, x, y, w, h, url } => {
                &&& req.offscreen_scale is None
                &&& id == req.id && nsview == req.nsview && x == req.x && y == req.y && url
                    == req.url
                &&& length_for(w, req.w) && length_for(h, req.h)
            },
            _ => false,
        },
{
}

/// Developer tools are asked for from the browser that they are to inspect, where that lives and has a
/// host; otherwise they are given up. Those that wait keep everything that they were asked for with,
/// under a message of their own.
pub proof fn law_devtools_are_planned_as_asked(
    s: EngineV,
    req: CreateReqV,
    host: bool,
    cid: i32,
)
    requires
        req.devtools_of is Some,
    ensures
        ({
            let plan = create::create_plan(s, req, host);
            let t = create::create_planned(s, req, host);
            let inspected = req.devtools_of->0;
            &&& !host || unlisted(s.browsers, inspected) ==> plan is Skip && t == s
            &&& host && listed(s.browsers, inspected, cid) ==> {
                &&& plan matches Plan::Devtools { cid: c, msg_id } && c == cid && msg_id
                    == s.devtools_msg_id
                &&& t.devtools_wait.len() == s.devtools_wait.len() + 1
                &&& forall|i: int|
                    0 <= i < s.devtools_wait.len() ==> #[trigger] t.devtools_wait[i]
                        == s.devtools_wait[i]
                &&& t.devtools_wait.last() == (DevtoolsWait {
                    msg_id: s.devtools_msg_id,
                    engine_id: req.id,
                    nsview: req.nsview,
                    x: req.x,
                    y: req.y,
                    w: req.w,
                    h: req.h,
                    screencast: req.screencast,
                })
                &&& t.devtools_msg_id != s.devtools_msg_id
                &&& s.devtools_msg_id < i32::MAX ==> t.devtools_msg_id == s.devtools_msg_id + 1
                &&& t == (EngineV {
                    devtools_wait: t.devtools_wait,
                    devtools_msg_id: t.devtools_msg_id,
                    ..s
                })
            }
        }),
{
    op_laws::law_browsers_are_found_by_id(s.browsers, req.devtools_of->0, cid);
}

/// Nobody waits for a message that could not be sent, and all others wait on.
pub proof fn law_unsent_messages_are_not_waited_for(
    waits: Seq<DevtoolsWait>,
    msg_id: i32,
    w: DevtoolsWait,
)
    ensures
        create::waits_without(waits, msg_id).contains(w) <==> waits.contains(w) && w.msg_id
            != msg_id,
{
    laws::lemma_filter_keeps(waits, |v: DevtoolsWait| v.msg_id != msg_id);
}

/// A scale is used as it was asked for where it is positive and finite; otherwise it is one. What is
/// used is always positive and finite.
pub proof fn law_scales_are_usable(bits: u32)
    ensures
        ({
            let used = create::usable_bits(bits);
            &&& 0 < used < 0x7f80_0000
            &&& 0 < bits < 0x7f80_0000 ==> used == bits
            &&& bits == 0 || bits >= 0x7f80_0000 ==> used == 0x3f80_0000
            &&& create::usable_bits(used) == used
        }),
{
}

/// An offscreen browser begins with its surface in place and with its size and scale on record, both
/// as they were asked for; nothing else changes.
pub proof fn law_offscreen_begins_with_its_surface(
    s: EngineV,
    id: u32,
    nsview: usize,
    w: i32,
    h: i32,
    scale: u32,
    view: usize,
    layer: usize,
)
    requires
        nsview != 0,
    ensures
        ({
            let t = create::offscreen_begun(s, id, nsview, w, h, scale, view, layer);
            let made = t.surfaces.surfs[id];
            &&& t.surfaces.surfs.contains_key(id)
            &&& made.view == view && made.layer == layer
            &&& length_for(made.log_w, w) && length_for(made.log_h, h)
            &&& 0 < scale < 0x7f80_0000 ==> made.scale == scale
            &&& t.osr_creating == Some((made.log_w, made.log_h, made.scale))
            &&& t == (EngineV { surfaces: t.surfaces, osr_creating: t.osr_creating, ..s })
        }),
{
}

/// A browser that was made lives under its id and its native identifier, behind those made before it,
/// with its parent on record; it is visible and active. One that could not be made leaves nothing
/// behind.
pub proof fn law_made_browsers_live(
    s: EngineV,
    id: u32,
    nsview: usize,
    cid: i32,
    now: u64,
    other: u32,
)
    requires
        now + ACTIVE_GRACE_MS <= u64::MAX,
        other != id,
    ensures
        create::windowed_made(s, id, nsview, None, now) == s,
        create::offscreen_made(s, id, nsview, None, now) == (EngineV {
            osr_creating: None,
            surfaces: SurfacesV { surfs: s.surfaces.surfs.remove(id), ..s.surfaces },
            ..s
        }),
        forall|t: EngineV|
            t == create::windowed_made(s, id, nsview, Some(cid), now) || t
                == create::offscreen_made(s, id, nsview, Some(cid), now) ==> {
                &&& #[trigger] t.browsers.len() == s.browsers.len() + 1
                &&& t.browsers == s.browsers.push((id, cid))
                &&& t.parents == s.parents.push((id, nsview))
                &&& t.visible.contains(id)
                &&& t.visible.contains(other) == s.visible.contains(other)
                &&& t.active_ids.contains_key(id) && t.active_ids[id] == now + ACTIVE_GRACE_MS
                &&& t.active_ids.contains_key(other) == s.active_ids.contains_key(other)
                &&& t.active_ids[other] == s.active_ids[other]
                &&& !s.no_tick ==> t.pump.tick_on
                &&& t.surfaces == s.surfaces
                &&& t == (EngineV {
                    browsers: t.browsers,
                    parents: t.parents,
                    visible: t.visible,
                    active_ids: t.active_ids,
                    pump: t.pump,
                    osr_creating: t.osr_creating,
                    ..s
                })
            },
        create::offscreen_made(s, id, nsview, Some(cid), now).osr_creating is None,
        create::windowed_made(s, id, nsview, Some(cid), now).osr_creating == s.osr_creating,
{
}

/// When an offscreen browser could not be made, its surface is given back; when it was, it is told its
/// size once more on Windows, after the tick was started.
pub proof fn law_offscreen_is_settled(s: EngineV, id: u32, cid: i32)
    ensures
        ({
            let failed = create::offscreen_actions(s, id, None);
            &&& failed.len() == if s.surfaces.surfs.contains_key(id) { 1nat } else { 0 }
            &&& s.surfaces.surfs.contains_key(id) ==> (failed[0] matches Action::ReleaseSurface {
                surf,
            } && surf == s.surfaces.surfs[id])
        }),
        ({
            let made = create::offscreen_actions(s, id, Some(cid));
            let resized = Action::<Seq<char>, JsonV>::WasResized { cid };
            &&& made.contains(resized) == (s.platform == Platform::Windows)
            &&& forall|i: int|
                0 <= i < made.len() ==> #[trigger] made[i] == resized || made[i] is DispatchTick
            &&& s.platform == Platform::MacOs && !s.no_tick && !s.pump.tick_on ==> made.len() == 1
                && made[0] is DispatchTick
        }),
{
    let made = create::offscreen_actions(s, id, Some(cid));
    if s.platform == Platform::Windows {
        assert(made[made.len() - 1] == Action::<Seq<char>, JsonV>::WasResized { cid });
    }
}

/// On macOS the view of a windowed browser that was made goes below its siblings, and then the host
/// learns of it; elsewhere, and without a view, neither.
pub proof fn law_new_views_are_placed_and_told(s: EngineV, cid: i32, view: Option<usize>)
    ensures
        create::windowed_actions(s, None, view).len() == 0,
        ({
            let acts = create::windowed_actions(s, Some(cid), view);
            let lowered = Action::<Seq<char>, JsonV>::LowerChild { cid };
            if s.platform == Platform::MacOs && view is Some {
                &&& acts.len() >= 2
                &&& acts[0] == lowered
                &&& acts[1] matches Action::Emit { event } && says(
                    event,
                    "event"@,
                    JsonV::Str("surface-created"@),
                ) && says(event, "view"@, JsonV::Num(crate::json::Num::Pos(view->0 as u64)))
            } else {
                acts == engine::tick_actions(s)
            }
        }),
{
    reveal_strlit("event");
    reveal_strlit("view");
    assert("event"@.len() == 5 && "view"@.len() == 4);
    let acts = create::windowed_actions(s, Some(cid), view);
    if !(s.platform == Platform::MacOs && view is Some) {
        assert(acts =~= engine::tick_actions(s));
    }
}

/// On macOS positions are counted from the other edge: position, height and distance from the top
/// make up the parent's height, and turning a position round twice gives it back. Elsewhere, and
/// where the parent's height is not known, they are the same.
pub proof fn law_positions_are_turned_round(parent_height: Option<i32>, top: i32, h: i32)
    ensures
        parent_height matches Some(height) ==> ({
            let y = create::flipped(Platform::MacOs, parent_height, top, h);
            &&& i32::MIN <= top + h <= i32::MAX && i32::MIN <= height - (top + h) <= i32::MAX
                ==> y + h + top == height && create::flipped(Platform::MacOs, parent_height, y, h)
                == top
        }),
        create::flipped(Platform::Windows, parent_height, top, h) == top,
        create::flipped(Platform::Linux, parent_height, top, h) == top,
        create::flipped(Platform::MacOs, None, top, h) == top,
{
}

// ── developer tools ──────────────────────────────────────────────────────────────────────────

/// `w` is the first entry of `waits` that waits for message `msg_id`, and stands at place `i`.
pub open spec fn waits_at(waits: Seq<DevtoolsWait>, msg_id: i32, i: int) -> bool {
    &&& 0 <= i < waits.len()
    &&& waits[i].msg_id == msg_id
    &&& forall|j: int| 0 <= j < i ==> (#[trigger] waits[j]).msg_id != msg_id
}

proof fn lemma_waits_at(waits: Seq<DevtoolsWait>, msg_id: i32)
    ensures
        devtools::wait_index(waits, msg_id) is None <==> forall|i: int|
            0 <= i < waits.len() ==> (#[trigger] waits[i]).msg_id != msg_id,
        devtools::wait_index(waits, msg_id) matches Some(i) ==> waits_at(waits, msg_id, i),
        forall|i: int| #[trigger]
            waits_at(waits, msg_id, i) ==> devtools::wait_index(waits, msg_id) == Some(i),
    decreases waits.len(),
{
    if waits.len() > 0 {
        let rest = waits.skip(1);
        lemma_waits_at(rest, msg_id);
        assert forall|j: int| 0 <= j < rest.len() implies #[trigger] rest[j] == waits[j + 1] by {}
        if waits[0].msg_id != msg_id {
            assert forall|i: int| #[trigger] waits_at(waits, msg_id, i) implies waits_at(
                rest,
                msg_id,
                i - 1,
            ) by {
                assert forall|j: int| 0 <= j < i - 1 implies (#[trigger] rest[j]).msg_id
                    != msg_id by {
                    assert(rest[j] == waits[j + 1]);
                }
            }
            if let Some(k) = devtools::wait_index(rest, msg_id) {
                assert forall|j: int| 0 <= j < k + 1 implies (#[trigger] waits[j]).msg_id
                    != msg_id by {
                    if j > 0 {
                        assert(waits[j] == rest[j - 1]);
                    }
                }
                assert(waits[k + 1].msg_id == msg_id);
            } else {
                assert forall|i: int| 0 <= i < waits.len() implies (#[trigger] waits[i]).msg_id
                    != msg_id by {
                    if i > 0 {
                        assert(waits[i] == rest[i - 1]);
                    }
                }
            }
        }
    }
}

/// An answer that nobody waits for changes nothing.
pub proof fn law_unexpected_answers_are_ignored(
    s: EngineV,
    msg_id: i32,
    success: i32,
    answer: Option<JsonV>,
    now: u64,
)
    requires
        forall|i: int|
            0 <= i < s.devtools_wait.len() ==> (#[trigger] s.devtools_wait[i]).msg_id != msg_id,
    ensures
        devtools::answered(s, msg_id, success, answer, now) == s,
        devtools::answered_actions(s, msg_id, success, answer).len() == 0,
{
    lemma_waits_at(s.devtools_wait, msg_id);
}

/// The target that an answer names, where it names one.
pub open spec fn names_target(answer: Option<JsonV>, target: Seq<char>) -> bool {
    answer matches Some(t) && exists|info: JsonV| #[trigger]
        says(t, "targetInfo"@, info) && says(info, "targetId"@, JsonV::Str(target))
}

/// An answer that went well opens the developer tools that waited for it: as a browser that waits to
/// be made under their id, in their place, on the page that the debugging server has for the target.
/// They wait for the answer no longer, and what they show is on record.
pub proof fn law_answers_open_devtools(
    s: EngineV,
    msg_id: i32,
    i: int,
    answer: Option<JsonV>,
    target: Seq<char>,
    now: u64,
)
    requires
        waits_at(s.devtools_wait, msg_id, i),
        names_target(answer, target),
    ensures
        ({
            let w = s.devtools_wait[i];
            let t = devtools::answered(s, msg_id, 1, answer, now);
            let port = text::decimal(s.devtools_port as nat);
            &&& t.devtools_wait == s.devtools_wait.remove(i)
            &&& t.pending.len() == s.pending.len() + 1
            &&& forall|k: int| 0 <= k < s.pending.len() ==> #[trigger] t.pending[k] == s.pending[k]
            &&& t.pending.last() == (CreateReqV {
                id: w.engine_id,
                nsview: w.nsview,
                x: w.x,
                y: w.y,
                w: w.w,
                h: w.h,
                url: "http://127.0.0.1:"@ + port + "/devtools/inspector.html?ws=127.0.0.1:"@ + port
                    + "/devtools/page/"@ + target,
                devtools_of: None,
                screencast: false,
                offscreen_scale: None,
            })
            &&& t.devtools_screencast == s.devtools_screencast.insert(w.engine_id, w.screencast)
            &&& s.platform == Platform::MacOs ==> t.pump.scheduled
            &&& s.platform != Platform::MacOs ==> t.pump.due is Some && t.pump.due->0 <= now
            &&& t == (EngineV {
                devtools_wait: t.devtools_wait,
                pending: t.pending,
                devtools_screencast: t.devtools_screencast,
                pump: t.pump,
                ..s
            })
            &&& devtools::answered_actions(s, msg_id, 1, answer) == engine::pump_actions(s, 0)
        }),
{
    lemma_waits_at(s.devtools_wait, msg_id);
    lemma_target(answer, target);
}

proof fn lemma_target(answer: Option<JsonV>, target: Seq<char>)
    ensures
        devtools::target_id(answer) == Some(target) <==> names_target(answer, target),
{
    if let Some(t) = answer {
        if let JsonV::Obj(m) = t {
            if m.contains_key("targetInfo"@) {
                assert(says(t, "targetInfo"@, m["targetInfo"@]));
            }
        }
    }
}

/// An answer that did not go well, or names no target, opens nothing; it is waited for no longer.
pub proof fn law_bad_answers_open_nothing(
    s: EngineV,
    msg_id: i32,
    i: int,
    success: i32,
    answer: Option<JsonV>,
    now: u64,
)
    requires
        waits_at(s.devtools_wait, msg_id, i),
        success != 1 || forall|target: Seq<char>| !#[trigger] names_target(answer, target),
    ensures
        devtools::answered(s, msg_id, success, answer, now) == (EngineV {
            devtools_wait: s.devtools_wait.remove(i),
            ..s
        }),
        devtools::answered_actions(s, msg_id, success, answer).len() == 0,
{
    lemma_waits_at(s.devtools_wait, msg_id);
    if let Some(target) = devtools::target_id(answer) {
        lemma_target(answer, target);
    }
}

// ── painting and dropping ────────────────────────────────────────────────────────────────────

/// A browser is painted exactly where it is offscreen and active itself, or loads, or everything is
/// active.
pub proof fn law_paint_is_wanted(s: EngineV, id: u32, cid: i32, now: u64)
    ensures
        !s.surfaces.surfs.contains_key(id) ==> !work::wants_paint(s, id, cid, now),
        s.surfaces.surfs.contains_key(id) && s.loading.contains(cid) ==> work::wants_paint(
            s,
            id,
            cid,
            now,
        ),
        s.surfaces.surfs.contains_key(id) && now < s.active_until_ms ==> work::wants_paint(
            s,
            id,
            cid,
            now,
        ),
        s.surfaces.surfs.contains_key(id) && s.active_ids.contains_key(id) && s.active_ids[id] > now
            ==> work::wants_paint(s, id, cid, now),
        !s.loading.contains(cid) && now >= s.active_until_ms && !(s.active_ids.contains_key(id)
            && s.active_ids[id] > now) ==> !work::wants_paint(s, id, cid, now),
{
}

/// Each browser that has closed is dropped, in the order in which they were made, and each surface of
/// theirs is given back; nobody else is dropped, and no other surface is given back.
pub proof fn law_closed_browsers_are_dropped(s: EngineV, act: ActionV)
    ensures
        work::reap_actions(s).contains(act) <==> {
            ||| exists|id: u32, cid: i32|
                #![trigger s.browsers.contains((id, cid))]
                s.browsers.contains((id, cid)) && s.closing.contains(cid) && act == (Action::<
                    Seq<char>,
                    JsonV,
                >::DropBrowser { cid })
            ||| exists|id: u32, cid: i32|
                #![trigger s.browsers.contains((id, cid))]
                s.browsers.contains((id, cid)) && s.closing.contains(cid)
                    && s.surfaces.surfs.contains_key(id) && act == (Action::<
                    Seq<char>,
                    JsonV,
                >::ReleaseSurface { surf: s.surfaces.surfs[id] })
        },
{
    let out = work::closed_in(s.browsers, s.closing);
    let ids = work::gone(s);
    let dropped = work::drops(out);
    let released = work::releases(s.surfaces.surfs, ids);
    let all = work::reap_actions(s);
    laws::lemma_filter_keeps(s.browsers, |b: (u32, i32)| s.closing.contains(b.1));
    lemma_releases(s.surfaces.surfs, ids, act);
    if all.contains(act) {
        let k = choose|k: int| 0 <= k < all.len() && all[k] == act;
        if k < dropped.len() {
            assert(out.contains(out[k]));
            assert(s.browsers.contains((out[k].0, out[k].1)));
        } else {
            assert(released[k - dropped.len()] == act);
            assert(released.contains(act));
            let id = choose|id: u32| #[trigger]
                ids.contains(id) && s.surfaces.surfs.contains_key(id) && act == (Action::<
                    Seq<char>,
                    JsonV,
                >::ReleaseSurface { surf: s.surfaces.surfs[id] });
            let i = choose|i: int| 0 <= i < ids.len() && ids[i] == id;
            assert(out.contains(out[i]));
            assert(s.browsers.contains((out[i].0, out[i].1)));
        }
    }
    assert forall|id: u32, cid: i32|
        #![trigger s.browsers.contains((id, cid))]
        s.browsers.contains((id, cid)) && s.closing.contains(cid) && act == (Action::<
            Seq<char>,
            JsonV,
        >::DropBrowser { cid }) implies all.contains(act) by {
        assert(out.contains((id, cid)));
        let i = choose|i: int| 0 <= i < out.len() && out[i] == (id, cid);
        assert(all[i] == act);
    }
    assert forall|id: u32, cid: i32|
        #![trigger s.browsers.contains((id, cid))]
        s.browsers.contains((id, cid)) && s.closing.contains(cid)
            && s.surfaces.surfs.contains_key(id) && act == (Action::<
            Seq<char>,
            JsonV,
        >::ReleaseSurface { surf: s.surfaces.surfs[id] }) implies all.contains(act) by {
        assert(out.contains((id, cid)));
        let i = choose|i: int| 0 <= i < out.len() && out[i] == (id, cid);
        assert(ids[i] == id);
        assert(ids.contains(id));
        let k = choose|k: int| 0 <= k < released.len() && released[k] == act;
        assert(all[dropped.len() + k] == act);
    }
}

proof fn lemma_releases(surfs: Map<u32, crate::presenter::Surf>, ids: Seq<u32>, act: ActionV)
    ensures
        work::releases(surfs, ids).contains(act) <==> exists|id: u32| #[trigger]
            ids.contains(id) && surfs.contains_key(id) && act == (Action::<
                Seq<char>,
                JsonV,
            >::ReleaseSurface { surf: surfs[id] }),
    decreases ids.len(),
{
    if ids.len() > 0 {
        let front = ids.drop_last();
        let last = ids.last();
        let rest = work::releases(surfs, front);
        let all = work::releases(surfs, ids);
        lemma_releases(surfs, front, act);
        if all.contains(act) {
            let k = choose|k: int| 0 <= k < all.len() && all[k] == act;
            if k < rest.len() {
                assert(rest[k] == act);
                let id = choose|id: u32| #[trigger]
                    front.contains(id) && surfs.contains_key(id) && act == (Action::<
                        Seq<char>,
                        JsonV,
                    >::ReleaseSurface { surf: surfs[id] });
                let i = choose|i: int| 0 <= i < front.len() && front[i] == id;
                assert(ids[i] == id);
                assert(ids.contains(id));
            } else {
                assert(ids[ids.len() - 1] == last);
                assert(ids.contains(last));
            }
        }
        if exists|id: u32| #[trigger]
            ids.contains(id) && surfs.contains_key(id) && act == (Action::<
                Seq<char>,
                JsonV,
            >::ReleaseSurface { surf: surfs[id] }) {
            let id = choose|id: u32| #[trigger]
                ids.contains(id) && surfs.contains_key(id) && act == (Action::<
                    Seq<char>,
                    JsonV,
                >::ReleaseSurface { surf: surfs[id] });
            let i = choose|i: int| 0 <= i < ids.len() && ids[i] == id;
            if i < front.len() {
                assert(front[i] == id);
                assert(front.contains(id));
            }
            if front.contains(id) {
                let k = choose|k: int| 0 <= k < rest.len() && rest[k] == act;
                assert(all[k] == act);
            } else {
                assert(all[rest.len() as int] == act);
            }
        }
    } else {
        assert(!work::releases(surfs, ids).contains(act));
    }
}

/// Dropping browsers counts them, forgets them and only them, and touches nothing that does not go by
/// browser.
pub proof fn law_dropping_touches_nothing_else(s: EngineV)
    ensures
        ({
            let t = work::reaped(s);
            &&& s.closing.len() == 0 ==> t == s
            &&& t.dbg.close_enter == s.dbg.close_enter && t.dbg.close_applied == s.dbg.close_applied
                && t.dbg.close_browser == s.dbg.close_browser && t.dbg.close_notfound
                == s.dbg.close_notfound
            &&& s.closing.len() > 0 && s.dbg.reaped + work::gone(s).len() <= u64::MAX
                ==> t.dbg.reaped == s.dbg.reaped + work::gone(s).len()
            &&& t.surfaces.noted == s.surfaces.noted
            &&& t.surfaces.frames_presented == s.surfaces.frames_presented
            &&& t == (EngineV {
                closing: t.closing,
                browsers: t.browsers,
                parents: t.parents,
                dbg: t.dbg,
                close_requested: t.close_requested,
                owners: t.owners,
                surfaces: t.surfaces,
                pressed: t.pressed,
                ..s
            })
        }),
{
}

}
