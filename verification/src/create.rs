//! Making browsers.

use vstd::prelude::*;

use crate::engine;
use crate::engine::{Engine, EngineV};
use crate::events;
use crate::json::Num;
use crate::ops;
use crate::ops::{Action, ActionV, Actions, CreateReq, CreateReqV, DevtoolsWait};
use crate::presenter;
use crate::presenter::{Note, Platform};

verus! {

broadcast use vstd::std_specs::hash::group_hash_axioms;

/// How a browser is to be made.
#[derive(Debug)]
pub enum Plan<S> {
    /// The browser to inspect is gone: nothing is to be made.
    Skip,
    /// Ask browser `cid` for its target, in message `msg_id`; the developer tools are made when the
    /// answer has come.
    Devtools { cid: i32, msg_id: i32 },
    /// Make an offscreen browser; the scale is as it was asked for.
    Offscreen { id: u32, nsview: usize, x: i32, y: i32, w: i32, h: i32, scale: Num, url: S },
    /// Make a child of the native parent.
    Windowed { id: u32, nsview: usize, x: i32, y: i32, w: i32, h: i32, url: S },
}

pub type PlanV = Plan<Seq<char>>;

impl View for Plan<String> {
    type V = PlanV;

    open spec fn view(&self) -> PlanV {
        match *self {
            Plan::Skip => Plan::Skip,
            Plan::Devtools { cid, msg_id } => Plan::Devtools { cid, msg_id },
            Plan::Offscreen { id, nsview, x, y, w, h, scale, url } => Plan::Offscreen {
                id,
                nsview,
                x,
                y,
                w,
                h,
                scale,
                url: url@,
            },
            Plan::Windowed { id, nsview, x, y, w, h, url } => Plan::Windowed {
                id,
                nsview,
                x,
                y,
                w,
                h,
                url: url@,
            },
        }
    }
}

/// Takes the browsers waiting to be made, in the order in which they were asked for.
pub fn take_pending(e: &mut Engine) -> (r: Vec<CreateReq<String>>)
    ensures
        ops::reqs_model(r@) == old(e)@.pending,
        final(e)@ == (EngineV { pending: Seq::empty(), ..old(e)@ }),
{
    let mut taken: Vec<CreateReq<String>> = Vec::new();
    taken.append(&mut e.pending);
    assert(ops::reqs_model(e.pending@) =~= Seq::empty());
    assert(ops::reqs_model(taken@) =~= old(e)@.pending);
    taken
}

/// The browser to inspect, if it lives and has a host.
pub open spec fn inspected_cid(s: EngineV, req: CreateReqV, host: bool) -> Option<i32> {
    match req.devtools_of {
        Some(inspected) => if host {
            engine::cid_of(s.browsers, inspected)
        } else {
            None
        },
        None => None,
    }
}

/// How the browser asked for by `req` is made. A rectangle is at least one pixel wide and high.
pub open spec fn create_plan(s: EngineV, req: CreateReqV, host: bool) -> PlanV {
    if req.devtools_of is Some {
        match inspected_cid(s, req, host) {
            Some(cid) => Plan::Devtools { cid, msg_id: s.devtools_msg_id },
            None => Plan::Skip,
        }
    } else {
        match req.offscreen_scale {
            Some(scale) => Plan::Offscreen {
                id: req.id,
                nsview: req.nsview,
                x: req.x,
                y: req.y,
                w: presenter::clamped(req.w),
                h: presenter::clamped(req.h),
                scale,
                url: req.url,
            },
            None => Plan::Windowed {
                id: req.id,
                nsview: req.nsview,
                x: req.x,
                y: req.y,
                w: presenter::clamped(req.w),
                h: presenter::clamped(req.h),
                url: req.url,
            },
        }
    }
}

/// The state after the plan is made: developer tools wait for their target.
pub open spec fn create_planned(s: EngineV, req: CreateReqV, host: bool) -> EngineV {
    if inspected_cid(s, req, host) is Some {
        EngineV {
            devtools_msg_id: s.devtools_msg_id.wrapping_add(1),
            devtools_wait: s.devtools_wait.push(
                DevtoolsWait {
                    msg_id: s.devtools_msg_id,
                    engine_id: req.id,
                    nsview: req.nsview,
                    x: req.x,
                    y: req.y,
                    w: req.w,
                    h: req.h,
                    screencast: req.screencast,
                },
            ),
            ..s
        }
    } else {
        s
    }
}

/// Plans how the browser asked for by `req` is made. `host` says whether the browser to inspect,
/// where there is one, has a host.
pub fn plan_create(e: &mut Engine, req: CreateReq<String>, host: bool) -> (r: Plan<String>)
    ensures
        final(e)@ == create_planned(old(e)@, req@, host),
        r@ == create_plan(old(e)@, req@, host),
{
    if let Some(inspected) = req.devtools_of {
        if !host {
            return Plan::Skip;
        }
        return match engine::find_browser(e, inspected) {
            Some(cid) => {
                let msg_id: i32 = e.devtools_msg_id;
                e.devtools_msg_id = msg_id.wrapping_add(1);
                e.devtools_wait.push(
                    DevtoolsWait {
                        msg_id,
                        engine_id: req.id,
                        nsview: req.nsview,
                        x: req.x,
                        y: req.y,
                        w: req.w,
                        h: req.h,
                        screencast: req.screencast,
                    },
                );
                Plan::Devtools { cid, msg_id }
            },
            None => Plan::Skip,
        };
    }
    let w: i32 = presenter::at_least_one(req.w);
    let h: i32 = presenter::at_least_one(req.h);
    match req.offscreen_scale {
        Some(scale) => Plan::Offscreen {
            id: req.id,
            nsview: req.nsview,
            x: req.x,
            y: req.y,
            w,
            h,
            scale,
            url: req.url,
        },
        None => Plan::Windowed {
            id: req.id,
            nsview: req.nsview,
            x: req.x,
            y: req.y,
            w,
            h,
            url: req.url,
        },
    }
}

/// The waiting developer tools but for those that wait for message `msg_id`.
pub open spec fn waits_without(waits: Seq<DevtoolsWait>, msg_id: i32) -> Seq<DevtoolsWait> {
    waits.filter(|w: DevtoolsWait| w.msg_id != msg_id)
}

/// Message `msg_id` was sent, or could not be: then nobody waits for its answer.
pub fn devtools_sent(e: &mut Engine, msg_id: i32, sent: bool)
    ensures
        final(e)@ == (if sent {
            old(e)@
        } else {
            EngineV { devtools_wait: waits_without(old(e)@.devtools_wait, msg_id), ..old(e)@ }
        }),
{
    if sent {
        return;
    }
    let ghost keep = |w: DevtoolsWait| w.msg_id != msg_id;
    let ghost before = e.devtools_wait@;
    let mut kept: Vec<DevtoolsWait> = Vec::new();
    let mut i: usize = 0;
    proof {
        reveal(Seq::filter);
        assert(before.take(0).filter(keep) =~= Seq::empty());
    }
    while i < e.devtools_wait.len()
        invariant
            i <= e.devtools_wait@.len(),
            before == e.devtools_wait@,
            keep == (|w: DevtoolsWait| w.msg_id != msg_id),
            kept@ == before.take(i as int).filter(keep),
        decreases e.devtools_wait@.len() - i,
    {
        let w = e.devtools_wait[i];
        proof {
            reveal(Seq::filter);
            assert(before.take(i + 1).drop_last() =~= before.take(i as int));
            assert(before.take(i + 1).last() == w);
        }
        if w.msg_id != msg_id {
            kept.push(w);
        }
        i = i + 1;
    }
    assert(before.take(before.len() as int) =~= before);
    e.devtools_wait = kept;
}

// ── offscreen ────────────────────────────────────────────────────────────────────────────────

/// The scale of a surface, as the bits of a single precision number: a positive finite one is
/// used, anything else counts as 1.
pub open spec fn usable_bits(bits: u32) -> u32 {
    if 0 < bits < 0x7f80_0000 {
        bits
    } else {
        0x3f80_0000
    }
}

/// The scale that is used for one that was asked for, both as the bits of a single precision
/// number.
pub fn usable_scale(bits: u32) -> (r: u32)
    ensures
        r == usable_bits(bits),
{
    if 0 < bits && bits < 0x7f80_0000 {
        bits
    } else {
        0x3f80_0000
    }
}

/// The state when an offscreen browser begins to be made: its surface is there, and its size and
/// scale are on record until the browser can be told by its identifier.
pub open spec fn offscreen_begun(
    s: EngineV,
    id: u32,
    nsview: usize,
    w: i32,
    h: i32,
    scale: u32,
    view: usize,
    layer: usize,
) -> EngineV {
    let w1 = presenter::clamped(w);
    let h1 = presenter::clamped(h);
    let bits = usable_bits(scale);
    EngineV {
        surfaces: presenter::surface_made(
            s.surfaces,
            s.platform,
            id,
            nsview,
            w1,
            h1,
            bits,
            view,
            layer,
        ),
        osr_creating: Some((w1, h1, bits)),
        ..s
    }
}

/// An offscreen browser begins to be made; `view` and `layer` are the native objects of its
/// surface. Returns what is to be reported.
pub fn begin_offscreen(
    e: &mut Engine,
    id: u32,
    nsview: usize,
    w: i32,
    h: i32,
    scale: u32,
    view: usize,
    layer: usize,
) -> (r: Option<Note>)
    ensures
        final(e)@ == offscreen_begun(old(e)@, id, nsview, w, h, scale, view, layer),
        r == (if nsview != 0 && old(e)@.platform != Platform::MacOs
            && !old(e)@.surfaces.noted.contains((id, Note::SurfacePending)) {
            Some(Note::SurfacePending)
        } else {
            None
        }),
{
    let w1: i32 = presenter::at_least_one(w);
    let h1: i32 = presenter::at_least_one(h);
    let bits: u32 = usable_scale(scale);
    let platform = e.platform;
    let note = presenter::create_surface(
        &mut e.surfaces,
        platform,
        id,
        nsview,
        w1,
        h1,
        bits,
        view,
        layer,
    );
    e.osr_creating = Some((w1, h1, bits));
    note
}

/// The state with browser `id` made: it is on record, visible and active.
pub open spec fn registered(s: EngineV, id: u32, nsview: usize, cid: i32, now: u64) -> EngineV {
    engine::bumped(
        EngineV {
            browsers: s.browsers.push((id, cid)),
            parents: s.parents.push((id, nsview)),
            visible: s.visible.insert(id),
            ..s
        },
        id,
        now,
    )
}

fn register(e: &mut Engine, id: u32, nsview: usize, cid: i32, now: u64) -> (acts: Actions)
    ensures
        final(e)@ == registered(old(e)@, id, nsview, cid, now),
        acts@ == engine::tick_actions(old(e)@),
{
    e.browsers.push((id, cid));
    e.parents.push((id, nsview));
    engine::note_visible(e, id, true);
    engine::bump_id(e, id, now)
}

/// The state after an offscreen browser was made, or could not be: then its surface is gone again.
pub open spec fn offscreen_made(s: EngineV, id: u32, nsview: usize, cid: Option<i32>, now: u64) -> EngineV {
    let t = EngineV { osr_creating: None, ..s };
    match cid {
        Some(c) => registered(t, id, nsview, c, now),
        None => EngineV { surfaces: presenter::destroyed(s.surfaces, id), ..t },
    }
}

/// What is to be done after an offscreen browser was made, or could not be. On Windows the view
/// takes input only once its size was confirmed.
pub open spec fn offscreen_actions(s: EngineV, id: u32, cid: Option<i32>) -> Seq<ActionV> {
    match cid {
        Some(c) => if s.platform == Platform::Windows {
            engine::tick_actions(s).push(Action::WasResized { cid: c })
        } else {
            engine::tick_actions(s)
        },
        None => if s.surfaces.has(id) {
            seq![Action::ReleaseSurface { surf: s.surfaces.surfs[id] }]
        } else {
            Seq::empty()
        },
    }
}

/// An offscreen browser was made, with native identifier `cid`, or could not be made.
pub fn create_offscreen(e: &mut Engine, id: u32, nsview: usize, cid: Option<i32>, now: u64) -> (acts:
    Actions)
    ensures
        final(e)@ == offscreen_made(old(e)@, id, nsview, cid, now),
        acts@ == offscreen_actions(old(e)@, id, cid),
{
    e.osr_creating = None;
    match cid {
        Some(c) => {
            let mut acts: Actions = register(e, id, nsview, c, now);
            if e.platform == Platform::Windows {
                acts.add(Action::WasResized { cid: c });
            }
            acts
        },
        None => {
            let mut acts: Actions = Actions::new();
            if let Some(surf) = presenter::destroy(&mut e.surfaces, id) {
                acts.add(Action::ReleaseSurface { surf });
            }
            assert(acts@ =~= offscreen_actions(old(e)@, id, cid));
            acts
        },
    }
}

// ── windowed ─────────────────────────────────────────────────────────────────────────────────

/// The state after a windowed browser was made, or could not be.
pub open spec fn windowed_made(s: EngineV, id: u32, nsview: usize, cid: Option<i32>, now: u64) -> EngineV {
    match cid {
        Some(c) => registered(s, id, nsview, c, now),
        None => s,
    }
}

/// What is to be done after a windowed browser was made. On macOS its view goes below its
/// siblings, and the host learns of it.
pub open spec fn windowed_actions(s: EngineV, cid: Option<i32>, view: Option<usize>) -> Seq<ActionV> {
    match cid {
        Some(c) => {
            let placed: Seq<ActionV> = match view {
                Some(v) => if s.platform == Platform::MacOs {
                    seq![
                        Action::LowerChild { cid: c },
                        Action::Emit { event: events::surface_change("surface-created"@, v) },
                    ]
                } else {
                    Seq::empty()
                },
                None => Seq::empty(),
            };
            placed + engine::tick_actions(s)
        },
        None => Seq::empty(),
    }
}

/// A windowed browser was made, with native identifier `cid` and child view `view`, or could not
/// be made.
pub fn create_windowed(
    e: &mut Engine,
    id: u32,
    nsview: usize,
    cid: Option<i32>,
    view: Option<usize>,
    now: u64,
) -> (acts: Actions)
    ensures
        final(e)@ == windowed_made(old(e)@, id, nsview, cid, now),
        acts@ == windowed_actions(old(e)@, cid, view),
{
    let mut acts: Actions = Actions::new();
    if let Some(c) = cid {
        if let Some(v) = view {
            if e.platform == Platform::MacOs {
                acts.add(Action::LowerChild { cid: c });
                acts.add(Action::Emit { event: events::surface_event("surface-created", v) });
            }
        }
        acts.extend(register(e, id, nsview, c, now));
    }
    assert(acts@ =~= windowed_actions(old(e)@, cid, view));
    acts
}

// ── coordinates ──────────────────────────────────────────────────────────────────────────────

/// The vertical position of a child of height `h` that is `top` below its parent's upper edge:
/// counted from the parent's lower edge on macOS, where the parent's height is known.
pub open spec fn flipped(platform: Platform, parent_height: Option<i32>, top: i32, h: i32) -> i32 {
    match parent_height {
        Some(height) => if platform == Platform::MacOs {
            height.wrapping_sub(top.wrapping_add(h))
        } else {
            top
        },
        None => top,
    }
}

/// The vertical position of a child in its parent's own coordinates.
pub fn flip_y(platform: Platform, parent_height: Option<i32>, top: i32, h: i32) -> (r: i32)
    ensures
        r == flipped(platform, parent_height, top, h),
{
    match parent_height {
        Some(height) => if platform == Platform::MacOs {
            height.wrapping_sub(top.wrapping_add(h))
        } else {
            top
        },
        None => top,
    }
}

}
