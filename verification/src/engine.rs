//! The engine's state, what is asked of it, and the pump that gets it done.
//!
//! Requests come on any thread and wait here; they are applied on the main thread, in the pump.
//! The functions decide; what is to be done outside comes back as [`Actions`]. Time is passed in:
//! milliseconds since the engine started.

use std::collections::{HashMap, HashSet};

use vstd::prelude::*;

use crate::input;
use crate::json::Num;
use crate::ops;
use crate::ops::{Action, ActionV, Actions, CreateReq, CreateReqV, DevtoolsWait, Op, OpV};
use crate::presenter;
use crate::presenter::{Platform, Surfaces, SurfacesV};

verus! {

broadcast use vstd::std_specs::hash::group_hash_axioms;

/// The time between two render ticks.
pub const RENDER_TICK_MS: i64 = 16;

/// How long a browser counts as active after something happened to it.
pub const ACTIVE_GRACE_MS: u64 = 1500;

/// How far closing got, counted.
#[derive(Clone, Copy, Debug)]
pub struct Counters {
    pub close_enter: u64,
    pub close_applied: u64,
    pub close_browser: u64,
    pub close_notfound: u64,
    pub reaped: u64,
}

/// The message pump and the render tick. Where the system has no main queue to run them on, the
/// times at which they are due are kept for the caller's own loop.
#[derive(Clone, Copy, Debug)]
pub struct Pump {
    pub scheduled: bool,
    pub in_work: bool,
    pub redo: bool,
    pub tick_on: bool,
    pub due: Option<u64>,
    pub tick_due: Option<u64>,
}

/// The engine.
#[derive(Debug)]
pub struct Engine {
    pub platform: Platform,
    /// The render tick is switched off.
    pub no_tick: bool,
    /// Browsers waiting to be made.
    pub pending: Vec<CreateReq<String>>,
    /// Operations waiting to be applied.
    pub ops: Vec<Op<String>>,
    /// Native identifiers of browsers that have closed and wait to be dropped.
    pub closing: Vec<i32>,
    /// Browsers that were asked to close and have not gone yet.
    pub close_requested: HashSet<u32>,
    pub dbg: Counters,
    pub next_id: u32,
    /// The living browsers: engine id and native identifier.
    pub browsers: Vec<(u32, i32)>,
    /// Who asked for each browser.
    pub owners: HashMap<u32, String>,
    /// The parent handle of each living browser.
    pub parents: Vec<(u32, usize)>,
    pub devtools_port: u32,
    pub devtools_msg_id: i32,
    pub devtools_wait: Vec<DevtoolsWait>,
    /// Developer tools by engine id: whether they show the page preview.
    pub devtools_screencast: HashMap<u32, bool>,
    pub pump: Pump,
    pub visible: HashSet<u32>,
    /// Native identifiers of the browsers that are loading.
    pub loading: HashSet<i32>,
    pub overlay_active: bool,
    /// Until when everything counts as active.
    pub active_until_ms: u64,
    /// Until when each browser counts as active.
    pub active_ids: HashMap<u32, u64>,
    pub next_eval_id: u64,
    /// Links that ask for a new window get one of their own.
    pub popup_as_window: bool,
    /// Page queries that wait for an answer.
    pub queries: HashSet<i64>,
    /// Mouse buttons held over each browser.
    pub pressed: HashMap<u32, u8>,
    /// Size and scale of the offscreen browser being made.
    pub osr_creating: Option<(i32, i32, u32)>,
    pub surfaces: Surfaces,
}

/// The model of an [`Engine`].
#[verifier::ext_equal]
pub struct EngineV {
    pub platform: Platform,
    pub no_tick: bool,
    pub pending: Seq<CreateReqV>,
    pub ops: Seq<OpV>,
    pub closing: Seq<i32>,
    pub close_requested: Set<u32>,
    pub dbg: Counters,
    pub next_id: u32,
    pub browsers: Seq<(u32, i32)>,
    pub owners: Map<u32, Seq<char>>,
    pub parents: Seq<(u32, usize)>,
    pub devtools_port: u32,
    pub devtools_msg_id: i32,
    pub devtools_wait: Seq<DevtoolsWait>,
    pub devtools_screencast: Map<u32, bool>,
    pub pump: Pump,
    pub visible: Set<u32>,
    pub loading: Set<i32>,
    pub overlay_active: bool,
    pub active_until_ms: u64,
    pub active_ids: Map<u32, u64>,
    pub next_eval_id: u64,
    pub popup_as_window: bool,
    pub queries: Set<i64>,
    pub pressed: Map<u32, u8>,
    pub osr_creating: Option<(i32, i32, u32)>,
    pub surfaces: SurfacesV,
}

/// The owners as text.
pub open spec fn owners_model(m: Map<u32, String>) -> Map<u32, Seq<char>> {
    m.map_values(|s: String| s@)
}

impl View for Engine {
    type V = EngineV;

    open spec fn view(&self) -> EngineV {
        EngineV {
            platform: self.platform,
            no_tick: self.no_tick,
            pending: ops::reqs_model(self.pending@),
            ops: ops::ops_model(self.ops@),
            closing: self.closing@,
            close_requested: self.close_requested@,
            dbg: self.dbg,
            next_id: self.next_id,
            browsers: self.browsers@,
            owners: owners_model(self.owners@),
            parents: self.parents@,
            devtools_port: self.devtools_port,
            devtools_msg_id: self.devtools_msg_id,
            devtools_wait: self.devtools_wait@,
            devtools_screencast: self.devtools_screencast@,
            pump: self.pump,
            visible: self.visible@,
            loading: self.loading@,
            overlay_active: self.overlay_active,
            active_until_ms: self.active_until_ms,
            active_ids: self.active_ids@,
            next_eval_id: self.next_eval_id,
            popup_as_window: self.popup_as_window,
            queries: self.queries@,
            pressed: self.pressed@,
            osr_creating: self.osr_creating,
            surfaces: self.surfaces@,
        }
    }
}

/// An engine that nothing was asked of yet.
pub open spec fn idle_engine(platform: Platform, no_tick: bool) -> EngineV {
    EngineV {
        platform,
        no_tick,
        pending: Seq::empty(),
        ops: Seq::empty(),
        closing: Seq::empty(),
        close_requested: Set::empty(),
        dbg: Counters {
            close_enter: 0,
            close_applied: 0,
            close_browser: 0,
            close_notfound: 0,
            reaped: 0,
        },
        next_id: 1,
        browsers: Seq::empty(),
        owners: Map::empty(),
        parents: Seq::empty(),
        devtools_port: 0,
        devtools_msg_id: 1,
        devtools_wait: Seq::empty(),
        devtools_screencast: Map::empty(),
        pump: Pump {
            scheduled: false,
            in_work: false,
            redo: false,
            tick_on: false,
            due: None,
            tick_due: None,
        },
        visible: Set::empty(),
        loading: Set::empty(),
        overlay_active: false,
        active_until_ms: 0,
        active_ids: Map::empty(),
        next_eval_id: 1,
        popup_as_window: false,
        queries: Set::empty(),
        pressed: Map::empty(),
        osr_creating: None,
        surfaces: SurfacesV { surfs: Map::empty(), noted: Set::empty(), frames_presented: 0 },
    }
}

impl Engine {
    /// An engine that nothing was asked of yet.
    pub fn new(platform: Platform, no_tick: bool) -> (e: Engine)
        ensures
            e@ == idle_engine(platform, no_tick),
    {
        let e = Engine {
            platform,
            no_tick,
            pending: Vec::new(),
            ops: Vec::new(),
            closing: Vec::new(),
            close_requested: HashSet::new(),
            dbg: Counters {
                close_enter: 0,
                close_applied: 0,
                close_browser: 0,
                close_notfound: 0,
                reaped: 0,
            },
            next_id: 1,
            browsers: Vec::new(),
            owners: HashMap::new(),
            parents: Vec::new(),
            devtools_port: 0,
            devtools_msg_id: 1,
            devtools_wait: Vec::new(),
            devtools_screencast: HashMap::new(),
            pump: Pump {
                scheduled: false,
                in_work: false,
                redo: false,
                tick_on: false,
                due: None,
                tick_due: None,
            },
            visible: HashSet::new(),
            loading: HashSet::new(),
            overlay_active: false,
            active_until_ms: 0,
            active_ids: HashMap::new(),
            next_eval_id: 1,
            popup_as_window: false,
            queries: HashSet::new(),
            pressed: HashMap::new(),
            osr_creating: None,
            surfaces: Surfaces::new(),
        };
        assert(e@ =~= idle_engine(platform, no_tick));
        e
    }
}

// ── who is who ───────────────────────────────────────────────────────────────────────────────

/// The native identifier of browser `id`: that of the first entry with this id.
pub open spec fn cid_of(browsers: Seq<(u32, i32)>, id: u32) -> Option<i32>
    decreases browsers.len(),
{
    if browsers.len() == 0 {
        None
    } else if browsers[0].0 == id {
        Some(browsers[0].1)
    } else {
        cid_of(browsers.skip(1), id)
    }
}

/// The engine id of the browser with native identifier `cid`: that of the first such entry.
pub open spec fn id_of(browsers: Seq<(u32, i32)>, cid: i32) -> Option<u32>
    decreases browsers.len(),
{
    if browsers.len() == 0 {
        None
    } else if browsers[0].1 == cid {
        Some(browsers[0].0)
    } else {
        id_of(browsers.skip(1), cid)
    }
}

/// The engine id of an optional native identifier.
pub open spec fn source_id(s: EngineV, cid: Option<i32>) -> Option<u32> {
    match cid {
        Some(c) => id_of(s.browsers, c),
        None => None,
    }
}

/// The native identifier of browser `id`, if it lives.
pub fn find_browser(e: &Engine, id: u32) -> (r: Option<i32>)
    ensures
        r == cid_of(e@.browsers, id),
{
    let mut i: usize = 0;
    assert(e.browsers@.skip(0) =~= e.browsers@);
    while i < e.browsers.len()
        invariant
            i <= e.browsers@.len(),
            cid_of(e.browsers@, id) == cid_of(e.browsers@.skip(i as int), id),
        decreases e.browsers@.len() - i,
    {
        if e.browsers[i].0 == id {
            return Some(e.browsers[i].1);
        }
        assert(e.browsers@.skip(i as int).skip(1) =~= e.browsers@.skip(i + 1));
        i = i + 1;
    }
    None
}

/// The engine id of the browser with native identifier `cid`, if it lives.
pub fn engine_id_of(e: &Engine, cid: i32) -> (r: Option<u32>)
    ensures
        r == id_of(e@.browsers, cid),
{
    let mut i: usize = 0;
    assert(e.browsers@.skip(0) =~= e.browsers@);
    while i < e.browsers.len()
        invariant
            i <= e.browsers@.len(),
            id_of(e.browsers@, cid) == id_of(e.browsers@.skip(i as int), cid),
        decreases e.browsers@.len() - i,
    {
        if e.browsers[i].1 == cid {
            return Some(e.browsers[i].0);
        }
        assert(e.browsers@.skip(i as int).skip(1) =~= e.browsers@.skip(i + 1));
        i = i + 1;
    }
    None
}

/// The engine id of an optional native identifier.
pub fn source_of(e: &Engine, cid: Option<i32>) -> (r: Option<u32>)
    ensures
        r == source_id(e@, cid),
{
    match cid {
        Some(c) => engine_id_of(e, c),
        None => None,
    }
}

/// Whether browser `id` was asked to close and has not gone yet.
pub fn close_requested(e: &Engine, id: u32) -> (r: bool)
    ensures
        r == e@.close_requested.contains(id),
{
    e.close_requested.contains(&id)
}

// ── the pump ─────────────────────────────────────────────────────────────────────────────────

/// The earlier of a due time and `at`.
pub open spec fn earlier(due: Option<u64>, at: u64) -> u64 {
    match due {
        Some(d) => if d < at {
            d
        } else {
            at
        },
        None => at,
    }
}

/// `now` plus a delay in milliseconds, a negative delay counting as none.
pub open spec fn delayed(now: u64, delay_ms: i64) -> u64 {
    if delay_ms <= 0 {
        now
    } else if now + delay_ms > u64::MAX {
        u64::MAX
    } else {
        (now + delay_ms) as u64
    }
}

/// The state after the pump is asked to run. On macOS one run waits on the main queue at a time;
/// elsewhere the earliest due time is kept.
pub open spec fn pump_asked(s: EngineV, delay_ms: i64, now: u64) -> EngineV {
    if s.platform == Platform::MacOs {
        EngineV { pump: Pump { scheduled: true, ..s.pump }, ..s }
    } else {
        EngineV {
            pump: Pump { due: Some(earlier(s.pump.due, delayed(now, delay_ms))), ..s.pump },
            ..s
        }
    }
}

/// What is to be done when the pump is asked to run.
pub open spec fn pump_actions(s: EngineV, delay_ms: i64) -> Seq<ActionV> {
    if s.platform == Platform::MacOs && !s.pump.scheduled {
        seq![Action::DispatchPump { delay_ms: if delay_ms <= 0 { 0 } else { delay_ms } }]
    } else {
        Seq::empty()
    }
}

/// Asks for the pump to run, after a delay.
pub fn schedule_pump(e: &mut Engine, delay_ms: i64, now: u64) -> (acts: Actions)
    ensures
        final(e)@ == pump_asked(old(e)@, delay_ms, now),
        acts@ == pump_actions(old(e)@, delay_ms),
{
    if e.platform == Platform::MacOs {
        if e.pump.scheduled {
            return Actions::new();
        }
        e.pump.scheduled = true;
        Actions::one(Action::DispatchPump { delay_ms: if delay_ms <= 0 { 0 } else { delay_ms } })
    } else {
        let at: u64 = if delay_ms <= 0 {
            now
        } else {
            now.saturating_add(delay_ms as u64)
        };
        let due: u64 = match e.pump.due {
            Some(d) => if d < at {
                d
            } else {
                at
            },
            None => at,
        };
        e.pump.due = Some(due);
        Actions::new()
    }
}

/// The state after the render tick is started: it is on, once.
pub open spec fn tick_started(s: EngineV, now: u64) -> EngineV {
    if s.no_tick || s.pump.tick_on {
        s
    } else if s.platform == Platform::MacOs {
        EngineV { pump: Pump { tick_on: true, ..s.pump }, ..s }
    } else {
        EngineV { pump: Pump { tick_on: true, tick_due: Some(now), ..s.pump }, ..s }
    }
}

/// What is to be done when the render tick is started.
pub open spec fn tick_actions(s: EngineV) -> Seq<ActionV> {
    if s.no_tick || s.pump.tick_on || s.platform != Platform::MacOs {
        Seq::empty()
    } else {
        seq![Action::DispatchTick { delay_ms: 0 }]
    }
}

/// Starts the render tick, unless it runs or is switched off.
pub fn start_render_tick(e: &mut Engine, now: u64) -> (acts: Actions)
    ensures
        final(e)@ == tick_started(old(e)@, now),
        acts@ == tick_actions(old(e)@),
{
    if e.no_tick || e.pump.tick_on {
        return Actions::new();
    }
    e.pump.tick_on = true;
    if e.platform == Platform::MacOs {
        Actions::one(Action::DispatchTick { delay_ms: 0 })
    } else {
        e.pump.tick_due = Some(now);
        Actions::new()
    }
}

// ── activity ─────────────────────────────────────────────────────────────────────────────────

/// The state after browser `id` shows activity: it counts as active for the grace time, and the
/// tick runs.
pub open spec fn bumped(s: EngineV, id: u32, now: u64) -> EngineV {
    tick_started(
        EngineV { active_ids: s.active_ids.insert(id, now.wrapping_add(ACTIVE_GRACE_MS)), ..s },
        now,
    )
}

/// The state after activity that belongs to no one browser.
pub open spec fn bumped_all(s: EngineV, now: u64) -> EngineV {
    tick_started(EngineV { active_until_ms: now.wrapping_add(ACTIVE_GRACE_MS), ..s }, now)
}

/// Activity of browser `id`.
pub fn bump_id(e: &mut Engine, id: u32, now: u64) -> (acts: Actions)
    ensures
        final(e)@ == bumped(old(e)@, id, now),
        acts@ == tick_actions(old(e)@),
{
    e.active_ids.insert(id, now.wrapping_add(ACTIVE_GRACE_MS));
    start_render_tick(e, now)
}

/// Activity that belongs to no one browser.
pub fn bump_active(e: &mut Engine, now: u64) -> (acts: Actions)
    ensures
        final(e)@ == bumped_all(old(e)@, now),
        acts@ == tick_actions(old(e)@),
{
    e.active_until_ms = now.wrapping_add(ACTIVE_GRACE_MS);
    start_render_tick(e, now)
}

/// The entries of `m` that are not over at `now`.
pub open spec fn live(m: Map<u32, u64>, now: u64) -> Map<u32, u64> {
    Map::new(|k: u32| m.contains_key(k) && m[k] > now, |k: u32| m[k])
}

/// Whether anything is active at `now`: a browser loads, or a grace time runs.
pub open spec fn active(s: EngineV, now: u64) -> bool {
    !s.loading.is_empty() || now < s.active_until_ms || !live(s.active_ids, now).is_empty()
}

/// The state after asking whether anything is active: where the browsers' own grace times decide,
/// those that are over are dropped.
pub open spec fn activity_checked(s: EngineV, now: u64) -> EngineV {
    if !s.loading.is_empty() || now < s.active_until_ms {
        s
    } else {
        EngineV { active_ids: live(s.active_ids, now), ..s }
    }
}

/// Drops the grace times that are over and returns whether one is left.
pub fn active_ids_nonempty(e: &mut Engine, now: u64) -> (r: bool)
    ensures
        final(e)@ == (EngineV { active_ids: live(old(e)@.active_ids, now), ..old(e)@ }),
        r == !live(old(e)@.active_ids, now).is_empty(),
{
    let ghost before = e.active_ids@;
    let mut kept: HashMap<u32, u64> = HashMap::new();
    let ghost mut seen: Set<u32> = Set::empty();
    assert(kept@ =~= live(before, now).restrict(seen));
    for k in it: e.active_ids.keys()
        invariant
            before == e.active_ids@,
            it.seq().unref().to_set() == before.dom(),
            seen == it.seq().unref().take(it.index() as int).to_set(),
            it.index() == it.seq().len() ==> seen == before.dom(),
            kept@ == live(before, now).restrict(seen),
    {
        if let Some(until) = e.active_ids.get(k) {
            if *until > now {
                kept.insert(*k, *until);
            }
        }
        proof {
            let keys = it.seq().unref();
            let n = it.index() as int;
            assert(keys[n] == *k);
            assert(keys.take(n + 1) =~= keys.take(n).push(*k));
            assert(keys.to_set().contains(*k));
            keys.take(n).lemma_push_to_set_commute(*k);
            seen = seen.insert(*k);
            assert(seen =~= keys.take(n + 1).to_set());
            assert(keys.take(keys.len() as int) =~= keys);
        }
        assert(kept@ =~= live(before, now).restrict(seen));
    }
    assert(kept@ =~= live(before, now));
    e.active_ids = kept;
    !e.active_ids.is_empty()
}

/// Whether anything is active: a browser loads, or a grace time runs.
pub fn is_active(e: &mut Engine, now: u64) -> (r: bool)
    ensures
        final(e)@ == activity_checked(old(e)@, now),
        r == active(old(e)@, now),
{
    if !e.loading.is_empty() || now < e.active_until_ms {
        true
    } else {
        active_ids_nonempty(e, now)
    }
}

/// Browser `id` is shown or hidden.
pub fn note_visible(e: &mut Engine, id: u32, visible: bool)
    ensures
        final(e)@ == (EngineV {
            visible: if visible {
                old(e)@.visible.insert(id)
            } else {
                old(e)@.visible.remove(id)
            },
            ..old(e)@
        }),
{
    if visible {
        e.visible.insert(id);
    } else {
        e.visible.remove(&id);
    }
}

/// Whether the render tick goes on at `now`: something is visible, and something is active.
pub open spec fn tick_goes_on(s: EngineV, now: u64) -> bool {
    !s.visible.is_empty() && active(s, now)
}

/// The state after the render tick decided whether to go on; where it does not, it is off.
pub open spec fn tick_decided(s: EngineV, now: u64) -> EngineV {
    if s.visible.is_empty() {
        EngineV { pump: Pump { tick_on: false, ..s.pump }, ..s }
    } else {
        let t = activity_checked(s, now);
        if active(s, now) {
            t
        } else {
            EngineV { pump: Pump { tick_on: false, ..t.pump }, ..t }
        }
    }
}

/// A render tick: whether to work now and tick again. Without that the tick is off.
pub fn render_tick(e: &mut Engine, now: u64) -> (r: bool)
    ensures
        final(e)@ == tick_decided(old(e)@, now),
        r == tick_goes_on(old(e)@, now),
{
    if e.visible.is_empty() {
        e.pump.tick_on = false;
        return false;
    }
    if !is_active(e, now) {
        e.pump.tick_on = false;
        return false;
    }
    true
}

/// The state after the next render tick is arranged.
pub open spec fn tick_rearmed(s: EngineV, now: u64) -> EngineV {
    if s.platform == Platform::MacOs {
        s
    } else {
        EngineV {
            pump: Pump { tick_due: Some(delayed(now, RENDER_TICK_MS)), ..s.pump },
            ..s
        }
    }
}

/// What is to be done to arrange the next render tick.
pub open spec fn rearm_actions(s: EngineV) -> Seq<ActionV> {
    if s.platform == Platform::MacOs {
        seq![Action::DispatchTick { delay_ms: RENDER_TICK_MS }]
    } else {
        Seq::empty()
    }
}

/// Arranges the next render tick.
pub fn rearm_tick(e: &mut Engine, now: u64) -> (acts: Actions)
    ensures
        final(e)@ == tick_rearmed(old(e)@, now),
        acts@ == rearm_actions(old(e)@),
{
    if e.platform == Platform::MacOs {
        Actions::one(Action::DispatchTick { delay_ms: RENDER_TICK_MS })
    } else {
        e.pump.tick_due = Some(now.saturating_add(RENDER_TICK_MS as u64));
        Actions::new()
    }
}

/// What is due in the caller's own loop.
#[derive(Clone, Copy, Debug, PartialEq, Eq, Structural)]
pub struct Due {
    pub pump: bool,
    pub tick: bool,
}

/// Whether a due time has come.
pub open spec fn has_come(due: Option<u64>, now: u64) -> bool {
    due matches Some(d) && d <= now
}

/// What is due at `now`.
pub open spec fn due_at(s: EngineV, now: u64) -> Due {
    Due { pump: has_come(s.pump.due, now), tick: has_come(s.pump.tick_due, now) }
}

/// The state after what is due at `now` is taken.
pub open spec fn driven(s: EngineV, now: u64) -> EngineV {
    let d = due_at(s, now);
    EngineV {
        pump: Pump {
            due: if d.pump {
                None
            } else {
                s.pump.due
            },
            tick_due: if d.tick {
                None
            } else {
                s.pump.tick_due
            },
            ..s.pump
        },
        ..s
    }
}

/// The pump as driven from the caller's own loop, where the system has no main queue to run it
/// on: what has come due is taken, and is to be run.
pub fn drive_pump(e: &mut Engine, now: u64) -> (r: Due)
    ensures
        r == due_at(old(e)@, now),
        final(e)@ == driven(old(e)@, now),
{
    let pump: bool = match e.pump.due {
        Some(d) => d <= now,
        None => false,
    };
    let tick: bool = match e.pump.tick_due {
        Some(d) => d <= now,
        None => false,
    };
    if pump {
        e.pump.due = None;
    }
    if tick {
        e.pump.tick_due = None;
    }
    Due { pump, tick }
}

/// The pump starts on the main queue: another run may be asked for from here on.
pub fn pump_entry(e: &mut Engine)
    ensures
        final(e)@ == (EngineV { pump: Pump { scheduled: false, ..old(e)@.pump }, ..old(e)@ }),
{
    e.pump.scheduled = false;
}

/// The state after work is begun: where work is under way already, it is only noted that more is
/// wanted.
pub open spec fn work_begun(s: EngineV) -> EngineV {
    if s.pump.in_work {
        EngineV { pump: Pump { redo: true, ..s.pump }, ..s }
    } else {
        EngineV { pump: Pump { in_work: true, ..s.pump }, ..s }
    }
}

/// Begins work, unless work is under way: then it returns `false`, and the work under way will be
/// followed by more.
pub fn begin_work(e: &mut Engine) -> (r: bool)
    ensures
        final(e)@ == work_begun(old(e)@),
        r == !old(e)@.pump.in_work,
{
    if e.pump.in_work {
        e.pump.redo = true;
        return false;
    }
    e.pump.in_work = true;
    true
}

// ── requests ─────────────────────────────────────────────────────────────────────────────────

/// The state after the activity that `op` brings: to its browser, to all for an overlay, to none
/// for closing.
pub open spec fn op_noted(s: EngineV, op: OpV, now: u64) -> EngineV {
    match op {
        Op::Close { .. } => s,
        Op::Overlay { .. } => bumped_all(s, now),
        _ => bumped(s, op.target()->0, now),
    }
}

/// What is to be done for the activity that `op` brings.
pub open spec fn op_noted_actions(s: EngineV, op: OpV) -> Seq<ActionV> {
    match op {
        Op::Close { .. } => Seq::empty(),
        _ => tick_actions(s),
    }
}

/// The state after operation `op` is asked for: it waits in line, and the pump will run.
pub open spec fn asked(s: EngineV, op: OpV, now: u64) -> EngineV {
    let t = op_noted(s, op, now);
    pump_asked(EngineV { ops: t.ops.push(op), ..t }, 0, now)
}

/// What is to be done when operation `op` is asked for.
pub open spec fn ask_actions(s: EngineV, op: OpV) -> Seq<ActionV> {
    op_noted_actions(s, op) + pump_actions(s, 0)
}

/// Asks for operation `op`.
pub fn request_op(e: &mut Engine, op: Op<String>, now: u64) -> (acts: Actions)
    ensures
        final(e)@ == asked(old(e)@, op@, now),
        acts@ == ask_actions(old(e)@, op@),
{
    let mut acts: Actions = match &op {
        Op::Close { .. } => Actions::new(),
        Op::Overlay { .. } => bump_active(e, now),
        _ => match ops::target_of(&op) {
            Some(id) => bump_id(e, id, now),
            None => Actions::new(),
        },
    };
    let ghost waiting = e.ops@;
    e.ops.push(op);
    assert(ops::ops_model(e.ops@) =~= ops::ops_model(waiting).push(op@));
    acts.extend(schedule_pump(e, 0, now));
    acts
}

/// Opens an address in browser `id`.
pub fn load(e: &mut Engine, id: u32, url: String, now: u64) -> (acts: Actions)
    ensures
        final(e)@ == asked(old(e)@, Op::Load { id, url: url@ }, now),
        acts@ == ask_actions(old(e)@, Op::Load { id, url: url@ }),
{
    request_op(e, Op::Load { id, url }, now)
}

/// Loads the page of browser `id` again.
pub fn reload(e: &mut Engine, id: u32, ignore_cache: bool, now: u64) -> (acts: Actions)
    ensures
        final(e)@ == asked(old(e)@, Op::Reload { id, ignore_cache }, now),
        acts@ == ask_actions(old(e)@, Op::Reload { id, ignore_cache }),
{
    request_op(e, Op::Reload { id, ignore_cache }, now)
}

/// Stops loading in browser `id`.
pub fn stop_load(e: &mut Engine, id: u32, now: u64) -> (acts: Actions)
    ensures
        final(e)@ == asked(old(e)@, Op::Stop { id }, now),
        acts@ == ask_actions(old(e)@, Op::Stop { id }),
{
    request_op(e, Op::Stop { id }, now)
}

/// Goes back in the history of browser `id`.
pub fn go_back(e: &mut Engine, id: u32, now: u64) -> (acts: Actions)
    ensures
        final(e)@ == asked(old(e)@, Op::Back { id }, now),
        acts@ == ask_actions(old(e)@, Op::Back { id }),
{
    request_op(e, Op::Back { id }, now)
}

/// Goes forward in the history of browser `id`.
pub fn go_forward(e: &mut Engine, id: u32, now: u64) -> (acts: Actions)
    ensures
        final(e)@ == asked(old(e)@, Op::Forward { id }, now),
        acts@ == ask_actions(old(e)@, Op::Forward { id }),
{
    request_op(e, Op::Forward { id }, now)
}

/// Moves and sizes browser `id`.
pub fn set_bounds(e: &mut Engine, id: u32, x: i32, y: i32, w: i32, h: i32, now: u64) -> (acts:
    Actions)
    ensures
        final(e)@ == asked(old(e)@, Op::Bounds { id, x, y, w, h }, now),
        acts@ == ask_actions(old(e)@, Op::Bounds { id, x, y, w, h }),
{
    request_op(e, Op::Bounds { id, x, y, w, h }, now)
}

/// Hides or shows browser `id`.
pub fn set_hidden(e: &mut Engine, id: u32, hidden: bool, now: u64) -> (acts: Actions)
    ensures
        final(e)@ == asked(old(e)@, Op::Hidden { id, hidden }, now),
        acts@ == ask_actions(old(e)@, Op::Hidden { id, hidden }),
{
    request_op(e, Op::Hidden { id, hidden }, now)
}

/// Gives browser `id` the focus.
pub fn set_focus(e: &mut Engine, id: u32, now: u64) -> (acts: Actions)
    ensures
        final(e)@ == asked(old(e)@, Op::Focus { id }, now),
        acts@ == ask_actions(old(e)@, Op::Focus { id }),
{
    request_op(e, Op::Focus { id }, now)
}

/// The host shows or hides an overlay above the browsers.
pub fn set_overlay(e: &mut Engine, active: bool, now: u64) -> (acts: Actions)
    ensures
        final(e)@ == asked(old(e)@, Op::Overlay { active }, now),
        acts@ == ask_actions(old(e)@, Op::Overlay { active }),
{
    request_op(e, Op::Overlay { active }, now)
}

/// The state after browser `id` is asked to close.
pub open spec fn close_asked(s: EngineV, id: u32, now: u64) -> EngineV {
    asked(
        EngineV {
            dbg: Counters { close_enter: s.dbg.close_enter.wrapping_add(1), ..s.dbg },
            ..s
        },
        Op::Close { id },
        now,
    )
}

/// Closes browser `id`.
pub fn close(e: &mut Engine, id: u32, now: u64) -> (acts: Actions)
    ensures
        final(e)@ == close_asked(old(e)@, id, now),
        acts@ == ask_actions(old(e)@, Op::Close { id }),
{
    e.dbg.close_enter = e.dbg.close_enter.wrapping_add(1);
    request_op(e, Op::Close { id }, now)
}

/// Mouse input for browser `id`.
pub fn mouse(
    e: &mut Engine,
    id: u32,
    kind: u8,
    x: i32,
    y: i32,
    button: u8,
    clicks: i32,
    mods: u32,
    now: u64,
) -> (acts: Actions)
    ensures
        final(e)@ == asked(old(e)@, Op::Mouse { id, kind, x, y, button, clicks, mods }, now),
        acts@ == ask_actions(old(e)@, Op::Mouse { id, kind, x, y, button, clicks, mods }),
{
    request_op(e, Op::Mouse { id, kind, x, y, button, clicks, mods }, now)
}

/// Wheel input for browser `id`.
pub fn wheel(e: &mut Engine, id: u32, x: i32, y: i32, dx: i32, dy: i32, now: u64) -> (acts:
    Actions)
    ensures
        final(e)@ == asked(old(e)@, Op::Wheel { id, x, y, dx, dy }, now),
        acts@ == ask_actions(old(e)@, Op::Wheel { id, x, y, dx, dy }),
{
    request_op(e, Op::Wheel { id, x, y, dx, dy }, now)
}

/// Keyboard input for browser `id`.
pub fn key(e: &mut Engine, id: u32, kind: u8, code: i32, ch: u16, mods: u32, now: u64) -> (acts:
    Actions)
    ensures
        final(e)@ == asked(old(e)@, Op::Key { id, kind, code, ch, mods }, now),
        acts@ == ask_actions(old(e)@, Op::Key { id, kind, code, ch, mods }),
{
    request_op(e, Op::Key { id, kind, code, ch, mods }, now)
}

/// Input method input for browser `id`.
pub fn ime(e: &mut Engine, id: u32, kind: u8, text: String, caret: u32, now: u64) -> (acts: Actions)
    ensures
        final(e)@ == asked(old(e)@, Op::Ime { id, kind, text: text@, caret }, now),
        acts@ == ask_actions(old(e)@, Op::Ime { id, kind, text: text@, caret }),
{
    request_op(e, Op::Ime { id, kind, text, caret }, now)
}

/// The state after a script is asked to run in browser `id`.
pub open spec fn eval_asked(s: EngineV, id: u32, js: Seq<char>, now: u64) -> EngineV {
    asked(
        EngineV { next_eval_id: s.next_eval_id.wrapping_add(1), ..s },
        Op::Eval { id, eval_id: s.next_eval_id, js },
        now,
    )
}

/// Runs a script in browser `id`. Returns the number under which its result will be reported.
pub fn request_eval(e: &mut Engine, id: u32, js: String, now: u64) -> (r: (u64, Actions))
    ensures
        r.0 == old(e)@.next_eval_id,
        final(e)@ == eval_asked(old(e)@, id, js@, now),
        r.1@ == ask_actions(old(e)@, Op::Eval { id, eval_id: r.0, js: js@ }),
{
    let eval_id: u64 = e.next_eval_id;
    e.next_eval_id = e.next_eval_id.wrapping_add(1);
    let acts = request_op(e, Op::Eval { id, eval_id, js }, now);
    (eval_id, acts)
}

/// The children of the parent handle `nsview`, in the order in which they were made.
pub open spec fn children(parents: Seq<(u32, usize)>, nsview: usize) -> Seq<u32>
    decreases parents.len(),
{
    if parents.len() == 0 {
        Seq::empty()
    } else {
        let front = children(parents.drop_last(), nsview);
        if parents.last().1 == nsview {
            front.push(parents.last().0)
        } else {
            front
        }
    }
}

/// The requests to close `ids`, in order.
pub open spec fn closes(ids: Seq<u32>) -> Seq<OpV> {
    ids.map_values(|id: u32| Op::<Seq<char>>::Close { id })
}

/// The state after all of `ids` are asked to close.
pub open spec fn all_closing(s: EngineV, ids: Seq<u32>, now: u64) -> EngineV {
    if ids.len() == 0 {
        s
    } else {
        EngineV { ops: s.ops + closes(ids), ..pump_asked(s, 0, now) }
    }
}

/// The parent handle `nsview` is about to go: every child of it is asked to close.
pub fn close_surface(e: &mut Engine, nsview: usize, now: u64) -> (acts: Actions)
    ensures
        final(e)@ == all_closing(old(e)@, children(old(e)@.parents, nsview), now),
        acts@ == (if children(old(e)@.parents, nsview).len() == 0 {
            Seq::<ActionV>::empty()
        } else {
            pump_actions(old(e)@, 0)
        }),
{
    let mut ids: Vec<u32> = Vec::new();
    let mut i: usize = 0;
    assert(e.parents@.take(0) =~= Seq::empty());
    while i < e.parents.len()
        invariant
            i <= e.parents@.len(),
            *e == *old(e),
            ids@ == children(e.parents@.take(i as int), nsview),
        decreases e.parents@.len() - i,
    {
        assert(e.parents@.take(i + 1).drop_last() =~= e.parents@.take(i as int));
        if e.parents[i].1 == nsview {
            ids.push(e.parents[i].0);
        }
        i = i + 1;
    }
    assert(e.parents@.take(i as int) =~= e.parents@);
    let mut acts: Actions = Actions::new();
    let mut k: usize = 0;
    assert(ids@.take(0) =~= Seq::empty());
    while k < ids.len()
        invariant
            k <= ids@.len(),
            e@ == all_closing(old(e)@, ids@.take(k as int), now),
            acts@ == (if k == 0 {
                Seq::<ActionV>::empty()
            } else {
                pump_actions(old(e)@, 0)
            }),
        decreases ids@.len() - k,
    {
        let ghost before = e@;
        let more = request_op(e, Op::Close { id: ids[k] }, now);
        acts.extend(more);
        proof {
            let done = ids@.take(k as int);
            let then = ids@.take(k + 1);
            assert(then =~= done.push(ids@[k as int]));
            assert(closes(then) =~= closes(done).push(Op::<Seq<char>>::Close { id: ids@[k as int] }));
            if k == 0 {
                assert(before.ops + closes(then) =~= before.ops.push(
                    Op::<Seq<char>>::Close { id: ids@[0] },
                ));
            } else {
                assert(old(e)@.ops + closes(then) =~= (old(e)@.ops + closes(done)).push(
                    Op::<Seq<char>>::Close { id: ids@[k as int] },
                ));
            }
            assert(e@ =~= all_closing(old(e)@, then, now));
        }
        k = k + 1;
    }
    assert(ids@.take(k as int) =~= ids@);
    acts
}

/// The state after a browser is asked for: it has the next id, its owner is on record, and the
/// request waits in line.
pub open spec fn create_asked(s: EngineV, req: CreateReqV, owner: Seq<char>, now: u64) -> EngineV {
    pump_asked(
        EngineV {
            next_id: s.next_id.wrapping_add(1),
            owners: s.owners.insert(req.id, owner),
            pending: s.pending.push(req),
            ..s
        },
        0,
        now,
    )
}

fn request_browser(e: &mut Engine, req: CreateReq<String>, owner: String, now: u64) -> (acts:
    Actions)
    requires
        req.id == old(e)@.next_id,
    ensures
        final(e)@ == create_asked(old(e)@, req@, owner@, now),
        acts@ == pump_actions(old(e)@, 0),
{
    let id: u32 = e.next_id;
    e.next_id = e.next_id.wrapping_add(1);
    let ghost owners = e.owners@;
    e.owners.insert(id, owner);
    assert(owners_model(e.owners@) =~= owners_model(owners).insert(id, owner@));
    let ghost pending = e.pending@;
    e.pending.push(req);
    assert(ops::reqs_model(e.pending@) =~= ops::reqs_model(pending).push(req@));
    schedule_pump(e, 0, now)
}

/// Asks for a browser under the parent handle `nsview`: offscreen at a scale, or windowed. Returns
/// its id.
pub fn request_create(
    e: &mut Engine,
    nsview: usize,
    x: i32,
    y: i32,
    w: i32,
    h: i32,
    url: String,
    offscreen_scale: Option<Num>,
    owner: String,
    now: u64,
) -> (r: (u32, Actions))
    ensures
        r.0 == old(e)@.next_id,
        final(e)@ == create_asked(
            old(e)@,
            CreateReq {
                id: r.0,
                nsview,
                x,
                y,
                w,
                h,
                url: url@,
                devtools_of: None,
                screencast: false,
                offscreen_scale,
            },
            owner@,
            now,
        ),
        r.1@ == pump_actions(old(e)@, 0),
{
    let id: u32 = e.next_id;
    let req = CreateReq {
        id,
        nsview,
        x,
        y,
        w,
        h,
        url,
        devtools_of: None,
        screencast: false,
        offscreen_scale,
    };
    let acts = request_browser(e, req, owner, now);
    (id, acts)
}

/// Asks for developer tools for browser `inspected`. Returns the id of the browser that will hold
/// them.
pub fn request_create_devtools(
    e: &mut Engine,
    nsview: usize,
    x: i32,
    y: i32,
    w: i32,
    h: i32,
    inspected: u32,
    screencast: bool,
    owner: String,
    now: u64,
) -> (r: (u32, Actions))
    ensures
        r.0 == old(e)@.next_id,
        final(e)@ == create_asked(
            old(e)@,
            CreateReq {
                id: r.0,
                nsview,
                x,
                y,
                w,
                h,
                url: Seq::<char>::empty(),
                devtools_of: Some(inspected),
                screencast,
                offscreen_scale: None,
            },
            owner@,
            now,
        ),
        r.1@ == pump_actions(old(e)@, 0),
{
    let id: u32 = e.next_id;
    let req = CreateReq {
        id,
        nsview,
        x,
        y,
        w,
        h,
        url: String::new(),
        devtools_of: Some(inspected),
        screencast,
        offscreen_scale: None,
    };
    let acts = request_browser(e, req, owner, now);
    (id, acts)
}

/// Sets whether links that ask for a new window get one of their own.
pub fn set_popup_window(e: &mut Engine, as_window: bool)
    ensures
        final(e)@ == (EngineV { popup_as_window: as_window, ..old(e)@ }),
{
    e.popup_as_window = as_window;
}

/// What is to be done when page query `query_id` is answered.
pub open spec fn reply_actions(
    s: EngineV,
    query_id: i64,
    success: bool,
    response: Seq<char>,
    error_code: i32,
    keep: bool,
) -> Seq<ActionV> {
    if !s.queries.contains(query_id) {
        Seq::empty()
    } else if success {
        seq![Action::AnswerQuery { query_id, response, release: !keep }]
    } else {
        seq![Action::FailQuery { query_id, error_code, response, release: !keep }]
    }
}

/// The state after page query `query_id` is answered: unless it is kept for more answers, it waits
/// no longer.
pub open spec fn replied(s: EngineV, query_id: i64, keep: bool) -> EngineV {
    if keep {
        s
    } else {
        EngineV { queries: s.queries.remove(query_id), ..s }
    }
}

/// Answers page query `query_id`, if it waits for an answer.
pub fn query_reply(
    e: &mut Engine,
    query_id: i64,
    success: bool,
    response: String,
    error_code: i32,
    keep: bool,
) -> (acts: Actions)
    ensures
        final(e)@ == replied(old(e)@, query_id, keep),
        acts@ == reply_actions(old(e)@, query_id, success, response@, error_code, keep),
{
    let waits: bool = e.queries.contains(&query_id);
    if !keep {
        e.queries.remove(&query_id);
    }
    if !waits {
        Actions::new()
    } else if success {
        Actions::one(Action::AnswerQuery { query_id, response, release: !keep })
    } else {
        Actions::one(Action::FailQuery { query_id, error_code, response, release: !keep })
    }
}

/// The ids of the living browsers.
pub fn browser_ids(e: &Engine) -> (r: Vec<u32>)
    ensures
        r@ == e@.browsers.map_values(|b: (u32, i32)| b.0),
{
    let mut out: Vec<u32> = Vec::new();
    let mut i: usize = 0;
    while i < e.browsers.len()
        invariant
            i <= e.browsers@.len(),
            out@ == e.browsers@.take(i as int).map_values(|b: (u32, i32)| b.0),
        decreases e.browsers@.len() - i,
    {
        out.push(e.browsers[i].0);
        assert(e.browsers@.take(i + 1) =~= e.browsers@.take(i as int).push(e.browsers@[i as int]));
        assert(e.browsers@.take(i + 1).map_values(|b: (u32, i32)| b.0) =~= e.browsers@.take(
            i as int,
        ).map_values(|b: (u32, i32)| b.0).push(e.browsers@[i as int].0));
        i = i + 1;
    }
    assert(e.browsers@.take(i as int) =~= e.browsers@);
    out
}

/// The owner of browser `id`: empty where none is on record.
pub open spec fn owner_of(s: EngineV, id: u32) -> Seq<char> {
    if s.owners.contains_key(id) {
        s.owners[id]
    } else {
        Seq::empty()
    }
}

/// The living browsers with owner and mode: `r[i]` is the `i`-th.
pub open spec fn info_matches(s: EngineV, r: Seq<(u32, String, bool)>) -> bool {
    &&& r.len() == s.browsers.len()
    &&& forall|i: int|
        0 <= i < r.len() ==> {
            &&& (#[trigger] r[i]).0 == s.browsers[i].0
            &&& r[i].1@ == owner_of(s, r[i].0)
            &&& r[i].2 == s.surfaces.has(r[i].0)
        }
}

/// The living browsers: id, owner, and whether offscreen.
pub fn surfaces_info(e: &Engine) -> (r: Vec<(u32, String, bool)>)
    ensures
        info_matches(e@, r@),
{
    let mut out: Vec<(u32, String, bool)> = Vec::new();
    let mut i: usize = 0;
    while i < e.browsers.len()
        invariant
            i <= e.browsers@.len(),
            out@.len() == i,
            forall|j: int|
                0 <= j < i ==> {
                    &&& (#[trigger] out@[j]).0 == e@.browsers[j].0
                    &&& out@[j].1@ == owner_of(e@, out@[j].0)
                    &&& out@[j].2 == e@.surfaces.has(out@[j].0)
                },
        decreases e.browsers@.len() - i,
    {
        let id: u32 = e.browsers[i].0;
        let owner: String = match e.owners.get(&id) {
            Some(o) => o.clone(),
            None => String::new(),
        };
        assert(owner@ == owner_of(e@, id));
        out.push((id, owner, presenter::is_offscreen(&e.surfaces, id)));
        i = i + 1;
    }
    out
}

}
