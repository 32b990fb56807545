//! A round of work: its steps, and what follows the native message loop in it. Offscreen browsers that
//! are active are painted, and browsers that have closed are dropped.

use vstd::prelude::*;

use crate::engine;
use crate::engine::{Counters, Engine, EngineV, Pump};
use crate::ops::{Action, ActionV, Actions};
use crate::presenter;

verus! {

broadcast use vstd::std_specs::hash::group_hash_axioms;

// ── the steps ────────────────────────────────────────────────────────────────────────────────

/// A step of a round of work.
#[derive(Clone, Copy, Debug, PartialEq, Eq, Structural)]
pub enum Step {
    /// Make the browsers that were asked for.
    Create,
    /// Apply the operations that wait.
    Operate,
    /// Run the native message loop.
    Loop,
    /// Paint what is active.
    Paint,
    /// Drop the browsers that have closed.
    Reap,
    /// End the round.
    End,
}

/// The steps of a round of work, in order. Operations find the browsers that were asked for before
/// them, and browsers that close in the native message loop are dropped after it, in the same round.
pub open spec fn round() -> Seq<Step> {
    seq![Step::Create, Step::Operate, Step::Loop, Step::Paint, Step::Reap, Step::End]
}

/// The place of `step` in a round.
pub open spec fn place(step: Step) -> int {
    match step {
        Step::Create => 0,
        Step::Operate => 1,
        Step::Loop => 2,
        Step::Paint => 3,
        Step::Reap => 4,
        Step::End => 5,
    }
}

/// The step at place `i` of a round, if there is one.
pub open spec fn step_at(i: int) -> Option<Step> {
    if 0 <= i < round().len() {
        Some(round()[i])
    } else {
        None
    }
}

/// The step to take after `done`: the first one where none was taken yet, and none where the round is
/// over.
pub fn next_step(done: Option<Step>) -> (r: Option<Step>)
    ensures
        r == (match done {
            None => step_at(0),
            Some(d) => step_at(place(d) + 1),
        }),
{
    match done {
        None => Some(Step::Create),
        Some(Step::Create) => Some(Step::Operate),
        Some(Step::Operate) => Some(Step::Loop),
        Some(Step::Loop) => Some(Step::Paint),
        Some(Step::Paint) => Some(Step::Reap),
        Some(Step::Reap) => Some(Step::End),
        Some(Step::End) => None,
    }
}

// ── painting ─────────────────────────────────────────────────────────────────────────────────

/// Whether the browser with engine id `id` and native identifier `cid` is to be painted: it is
/// offscreen, and it is active itself, or loads, or everything is active.
pub open spec fn wants_paint(s: EngineV, id: u32, cid: i32, now: u64) -> bool {
    &&& s.surfaces.has(id)
    &&& {
        ||| now < s.active_until_ms
        ||| s.active_ids.contains_key(id) && s.active_ids[id] > now
        ||| s.loading.contains(cid)
    }
}

/// The paint requests for the browsers in `list`.
pub open spec fn paints(s: EngineV, list: Seq<(u32, i32)>, now: u64) -> Seq<ActionV>
    decreases list.len(),
{
    if list.len() == 0 {
        Seq::empty()
    } else {
        let rest = paints(s, list.drop_last(), now);
        let b = list.last();
        match engine::cid_of(s.browsers, b.0) {
            Some(cid) => if wants_paint(s, b.0, b.1, now) {
                rest.push(Action::Invalidate { cid })
            } else {
                rest
            },
            None => rest,
        }
    }
}

/// Asks the active offscreen browsers to paint. Offscreen browsers paint only when asked to; one
/// that is not active keeps its last frame.
pub fn invalidate_offscreen(e: &Engine, now: u64) -> (acts: Actions)
    ensures
        acts@ == paints(e@, e@.browsers, now),
{
    let mut acts: Actions = Actions::new();
    let mut i: usize = 0;
    while i < e.browsers.len()
        invariant
            i <= e.browsers@.len(),
            acts@ == paints(e@, e.browsers@.take(i as int), now),
        decreases e.browsers@.len() - i,
    {
        let (id, cid) = e.browsers[i];
        proof {
            assert(e.browsers@.take(i + 1).drop_last() =~= e.browsers@.take(i as int));
            assert(e.browsers@.take(i + 1).last() == (id, cid));
        }
        if presenter::is_offscreen(&e.surfaces, id) {
            let own: bool = match e.active_ids.get(&id) {
                Some(until) => *until > now,
                None => false,
            };
            if now < e.active_until_ms || own || e.loading.contains(&cid) {
                if let Some(found) = engine::find_browser(e, id) {
                    acts.add(Action::Invalidate { cid: found });
                }
            }
        }
        i = i + 1;
    }
    assert(e.browsers@.take(e.browsers@.len() as int) =~= e.browsers@);
    acts
}

/// The paint requests of a round of work: none where nothing is active.
pub open spec fn paint_actions(s: EngineV, now: u64) -> Seq<ActionV> {
    if engine::active(s, now) {
        let t = engine::activity_checked(s, now);
        paints(t, t.browsers, now)
    } else {
        Seq::empty()
    }
}

/// Asks the active offscreen browsers to paint, where anything is active.
pub fn paint_active(e: &mut Engine, now: u64) -> (acts: Actions)
    ensures
        final(e)@ == engine::activity_checked(old(e)@, now),
        acts@ == paint_actions(old(e)@, now),
{
    if engine::is_active(e, now) {
        invalidate_offscreen(e, now)
    } else {
        Actions::new()
    }
}

/// Asks for browser `id` to be painted once more: it is active, and the pump runs.
pub fn kick_paint(e: &mut Engine, id: u32, now: u64) -> (acts: Actions)
    ensures
        final(e)@ == engine::pump_asked(engine::bumped(old(e)@, id, now), 0, now),
        acts@ == engine::tick_actions(old(e)@) + engine::pump_actions(old(e)@, 0),
{
    let mut acts: Actions = engine::bump_id(e, id, now);
    acts.extend(engine::schedule_pump(e, 0, now));
    acts
}

// ── dropping ─────────────────────────────────────────────────────────────────────────────────

/// The entries of `list` whose browser has closed.
pub open spec fn closed_in(list: Seq<(u32, i32)>, closing: Seq<i32>) -> Seq<(u32, i32)> {
    list.filter(|b: (u32, i32)| closing.contains(b.1))
}

/// The entries of `list` whose browser has not closed.
pub open spec fn open_in(list: Seq<(u32, i32)>, closing: Seq<i32>) -> Seq<(u32, i32)> {
    list.filter(|b: (u32, i32)| !closing.contains(b.1))
}

/// The engine ids in `list`.
pub open spec fn ids_in(list: Seq<(u32, i32)>) -> Seq<u32> {
    list.map_values(|b: (u32, i32)| b.0)
}

/// The engine ids of the living browsers that have closed.
pub open spec fn gone(s: EngineV) -> Seq<u32> {
    ids_in(closed_in(s.browsers, s.closing))
}

/// The parents of the browsers not in `ids`.
pub open spec fn parents_without(parents: Seq<(u32, usize)>, ids: Seq<u32>) -> Seq<(u32, usize)> {
    parents.filter(|p: (u32, usize)| !ids.contains(p.0))
}

/// The state after the closed browsers are dropped: nothing is kept of them, and they can be
/// closed no more.
pub open spec fn reaped(s: EngineV) -> EngineV {
    if s.closing.len() == 0 {
        s
    } else {
        let ids = gone(s);
        EngineV {
            closing: Seq::empty(),
            browsers: open_in(s.browsers, s.closing),
            parents: parents_without(s.parents, ids),
            dbg: Counters { reaped: s.dbg.reaped.wrapping_add(ids.len() as u64), ..s.dbg },
            close_requested: s.close_requested.difference(ids.to_set()),
            owners: s.owners.remove_keys(ids.to_set()),
            surfaces: presenter::SurfacesV {
                surfs: s.surfaces.surfs.remove_keys(ids.to_set()),
                ..s.surfaces
            },
            pressed: s.pressed.remove_keys(ids.to_set()),
            ..s
        }
    }
}

/// The drops of the browsers in `list`.
pub open spec fn drops(list: Seq<(u32, i32)>) -> Seq<ActionV> {
    list.map_values(|b: (u32, i32)| Action::DropBrowser { cid: b.1 })
}

/// The releases of the surfaces of browsers `ids`.
pub open spec fn releases(surfs: Map<u32, presenter::Surf>, ids: Seq<u32>) -> Seq<ActionV>
    decreases ids.len(),
{
    if ids.len() == 0 {
        Seq::empty()
    } else {
        let rest = releases(surfs, ids.drop_last());
        let id = ids.last();
        if surfs.contains_key(id) && !ids.drop_last().contains(id) {
            rest.push(Action::ReleaseSurface { surf: surfs[id] })
        } else {
            rest
        }
    }
}

/// What is to be done to drop the closed browsers.
pub open spec fn reap_actions(s: EngineV) -> Seq<ActionV> {
    drops(closed_in(s.browsers, s.closing)) + releases(s.surfaces.surfs, gone(s))
}

fn has_cid(list: &Vec<i32>, cid: i32) -> (r: bool)
    ensures
        r == list@.contains(cid),
{
    let mut i: usize = 0;
    while i < list.len()
        invariant
            i <= list@.len(),
            forall|k: int| 0 <= k < i ==> list@[k] != cid,
        decreases list@.len() - i,
    {
        if list[i] == cid {
            return true;
        }
        i = i + 1;
    }
    false
}

fn has_id(list: &Vec<u32>, id: u32) -> (r: bool)
    ensures
        r == list@.contains(id),
{
    let mut i: usize = 0;
    while i < list.len()
        invariant
            i <= list@.len(),
            forall|k: int| 0 <= k < i ==> list@[k] != id,
        decreases list@.len() - i,
    {
        if list[i] == id {
            return true;
        }
        i = i + 1;
    }
    false
}

/// Takes the closed browsers out of `browsers`, and returns them.
fn split_closed(browsers: &mut Vec<(u32, i32)>, closing: &Vec<i32>) -> (r: Vec<(u32, i32)>)
    ensures
        r@ == closed_in(old(browsers)@, closing@),
        final(browsers)@ == open_in(old(browsers)@, closing@),
{
    let ghost before = browsers@;
    let ghost closed = |b: (u32, i32)| closing@.contains(b.1);
    let ghost open = |b: (u32, i32)| !closing@.contains(b.1);
    let mut out: Vec<(u32, i32)> = Vec::new();
    let mut kept: Vec<(u32, i32)> = Vec::new();
    let mut i: usize = 0;
    proof {
        reveal(Seq::filter);
        assert(before.take(0).filter(closed) =~= Seq::empty());
        assert(before.take(0).filter(open) =~= Seq::empty());
    }
    while i < browsers.len()
        invariant
            i <= browsers@.len(),
            before == browsers@,
            closed == (|b: (u32, i32)| closing@.contains(b.1)),
            open == (|b: (u32, i32)| !closing@.contains(b.1)),
            out@ == before.take(i as int).filter(closed),
            kept@ == before.take(i as int).filter(open),
        decreases browsers@.len() - i,
    {
        let b = browsers[i];
        proof {
            reveal(Seq::filter);
            assert(before.take(i + 1).drop_last() =~= before.take(i as int));
            assert(before.take(i + 1).last() == b);
        }
        if has_cid(closing, b.1) {
            out.push(b);
        } else {
            kept.push(b);
        }
        i = i + 1;
    }
    assert(before.take(before.len() as int) =~= before);
    *browsers = kept;
    out
}

/// Takes the parents of browsers `ids` out.
fn drop_parents(parents: &mut Vec<(u32, usize)>, ids: &Vec<u32>)
    ensures
        final(parents)@ == parents_without(old(parents)@, ids@),
{
    let ghost before = parents@;
    let ghost keep = |p: (u32, usize)| !ids@.contains(p.0);
    let mut kept: Vec<(u32, usize)> = Vec::new();
    let mut i: usize = 0;
    proof {
        reveal(Seq::filter);
        assert(before.take(0).filter(keep) =~= Seq::empty());
    }
    while i < parents.len()
        invariant
            i <= parents@.len(),
            before == parents@,
            keep == (|p: (u32, usize)| !ids@.contains(p.0)),
            kept@ == before.take(i as int).filter(keep),
        decreases parents@.len() - i,
    {
        let p = parents[i];
        proof {
            reveal(Seq::filter);
            assert(before.take(i + 1).drop_last() =~= before.take(i as int));
            assert(before.take(i + 1).last() == p);
        }
        if !has_id(ids, p.0) {
            kept.push(p);
        }
        i = i + 1;
    }
    assert(before.take(before.len() as int) =~= before);
    *parents = kept;
}

/// Drops the browsers that have closed, with all that was kept of them.
pub fn reap_closing(e: &mut Engine) -> (acts: Actions)
    ensures
        final(e)@ == reaped(old(e)@),
        acts@ == (if old(e)@.closing.len() == 0 {
            Seq::<ActionV>::empty()
        } else {
            reap_actions(old(e)@)
        }),
{
    let mut acts: Actions = Actions::new();
    if e.closing.len() == 0 {
        return acts;
    }
    let ghost s = e@;
    let mut closing: Vec<i32> = Vec::new();
    closing.append(&mut e.closing);
    let closed = split_closed(&mut e.browsers, &closing);
    let mut ids: Vec<u32> = Vec::new();
    let mut i: usize = 0;
    while i < closed.len()
        invariant
            i <= closed@.len(),
            acts@ == drops(closed@.take(i as int)),
            ids@ == ids_in(closed@.take(i as int)),
        decreases closed@.len() - i,
    {
        acts.add(Action::DropBrowser { cid: closed[i].1 });
        ids.push(closed[i].0);
        i = i + 1;
        assert(acts@ =~= drops(closed@.take(i as int)));
        assert(ids@ =~= ids_in(closed@.take(i as int)));
    }
    assert(closed@.take(closed@.len() as int) =~= closed@);
    drop_parents(&mut e.parents, &ids);
    e.dbg.reaped = e.dbg.reaped.wrapping_add(ids.len() as u64);
    let ghost head = acts@;
    let mut k: usize = 0;
    assert(ids@.take(0).to_set() =~= Set::empty());
    assert(e.close_requested@ =~= s.close_requested.difference(ids@.take(0).to_set()));
    assert(e@.owners =~= s.owners.remove_keys(ids@.take(0).to_set()));
    assert(e@.surfaces.surfs =~= s.surfaces.surfs.remove_keys(ids@.take(0).to_set()));
    assert(e.pressed@ =~= s.pressed.remove_keys(ids@.take(0).to_set()));
    assert(acts@ =~= head + releases(s.surfaces.surfs, ids@.take(0)));
    while k < ids.len()
        invariant
            k <= ids@.len(),
            ids@ == gone(s),
            e@ == (EngineV {
                close_requested: s.close_requested.difference(ids@.take(k as int).to_set()),
                owners: s.owners.remove_keys(ids@.take(k as int).to_set()),
                surfaces: presenter::SurfacesV {
                    surfs: s.surfaces.surfs.remove_keys(ids@.take(k as int).to_set()),
                    ..s.surfaces
                },
                pressed: s.pressed.remove_keys(ids@.take(k as int).to_set()),
                closing: Seq::empty(),
                browsers: open_in(s.browsers, s.closing),
                parents: parents_without(s.parents, ids@),
                dbg: Counters { reaped: s.dbg.reaped.wrapping_add(ids@.len() as u64), ..s.dbg },
                ..s
            }),
            acts@ == head + releases(s.surfaces.surfs, ids@.take(k as int)),
        decreases ids@.len() - k,
    {
        let id: u32 = ids[k];
        let ghost seen = ids@.take(k as int);
        proof {
            assert(ids@.take(k + 1) =~= seen.push(id));
            assert(ids@.take(k + 1).drop_last() =~= seen);
            seen.lemma_push_to_set_commute(id);
        }
        let ghost owners_before = e.owners@;
        e.close_requested.remove(&id);
        e.owners.remove(&id);
        assert(engine::owners_model(e.owners@) =~= engine::owners_model(owners_before).remove(id));
        if let Some(surf) = presenter::destroy(&mut e.surfaces, id) {
            acts.add(Action::ReleaseSurface { surf });
        }
        e.pressed.remove(&id);
        k = k + 1;
        proof {
            let now_seen = ids@.take(k as int).to_set();
            assert(now_seen =~= seen.to_set().insert(id));
            assert(e.close_requested@ =~= s.close_requested.difference(now_seen));
            assert(e@.owners =~= s.owners.remove_keys(now_seen));
            assert(e@.surfaces.surfs =~= s.surfaces.surfs.remove_keys(now_seen));
            assert(e.pressed@ =~= s.pressed.remove_keys(now_seen));
            assert(acts@ =~= head + releases(s.surfaces.surfs, ids@.take(k as int)));
        }
    }
    assert(ids@.take(ids@.len() as int) =~= ids@);
    acts
}

/// The state after a round of work: where more was wanted meanwhile, the pump runs again.
pub open spec fn work_ended(s: EngineV, now: u64) -> EngineV {
    let t = EngineV { pump: Pump { in_work: false, redo: false, ..s.pump }, ..s };
    if s.pump.redo {
        engine::pump_asked(t, 0, now)
    } else {
        t
    }
}

/// What is to be done at the end of a round of work.
pub open spec fn end_actions(s: EngineV) -> Seq<ActionV> {
    if s.pump.redo {
        engine::pump_actions(s, 0)
    } else {
        Seq::empty()
    }
}

/// Ends a round of work.
pub fn end_work(e: &mut Engine, now: u64) -> (acts: Actions)
    ensures
        final(e)@ == work_ended(old(e)@, now),
        acts@ == end_actions(old(e)@),
{
    e.pump.in_work = false;
    let redo: bool = e.pump.redo;
    e.pump.redo = false;
    if redo {
        engine::schedule_pump(e, 0, now)
    } else {
        Actions::new()
    }
}

}
