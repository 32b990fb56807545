//! What each operation comes to: which native calls it makes of its numbers, and what it leaves as it
//! was.

use vstd::prelude::*;
use vstd::string::*;

use crate::apply;
use crate::apply::Probe;
use crate::engine;
use crate::engine::{Counters, EngineV, ACTIVE_GRACE_MS};
use crate::input;
use crate::json::{JsonV, Num};
use crate::ops::{Action, ActionV, KeyKind, MouseButton, Op, OpV};
use crate::presenter::{Platform, Surf};
use crate::text;

verus! {

// ── who is meant ─────────────────────────────────────────────────────────────────────────────

/// `cid` stands in the first entry of `list` for browser `id`.
pub open spec fn listed(list: Seq<(u32, i32)>, id: u32, cid: i32) -> bool {
    exists|i: int|
        0 <= i < list.len() && #[trigger] list[i] == (id, cid) && forall|j: int|
            0 <= j < i ==> (#[trigger] list[j]).0 != id
}

/// No entry of `list` is for browser `id`.
pub open spec fn unlisted(list: Seq<(u32, i32)>, id: u32) -> bool {
    forall|i: int| 0 <= i < list.len() ==> (#[trigger] list[i]).0 != id
}

/// Browser `id` lives, under native identifier `cid`, and was not asked to close.
pub open spec fn lives(s: EngineV, id: u32, cid: i32) -> bool {
    listed(s.browsers, id, cid) && !s.close_requested.contains(id)
}

/// A browser is found by its id: the first entry with the id is the one, and nothing is found exactly
/// where there is none.
pub proof fn law_browsers_are_found_by_id(list: Seq<(u32, i32)>, id: u32, cid: i32)
    ensures
        engine::cid_of(list, id) == Some(cid) <==> listed(list, id, cid),
        engine::cid_of(list, id) is None <==> unlisted(list, id),
    decreases list.len(),
{
    if list.len() == 0 {
        assert(!listed(list, id, cid));
    } else {
        let rest = list.skip(1);
        law_browsers_are_found_by_id(rest, id, cid);
        if list[0].0 == id {
            if list[0].1 == cid {
                assert(list[0] == (id, cid));
            }
        } else {
            if listed(rest, id, cid) {
                let i = choose|i: int|
                    0 <= i < rest.len() && #[trigger] rest[i] == (id, cid) && forall|j: int|
                        0 <= j < i ==> (#[trigger] rest[j]).0 != id;
                assert(list[i + 1] == (id, cid));
                assert forall|j: int| 0 <= j < i + 1 implies (#[trigger] list[j]).0 != id by {
                    if j > 0 {
                        assert(list[j] == rest[j - 1]);
                    }
                }
            }
            if listed(list, id, cid) {
                let i = choose|i: int|
                    0 <= i < list.len() && #[trigger] list[i] == (id, cid) && forall|j: int|
                        0 <= j < i ==> (#[trigger] list[j]).0 != id;
                assert(rest[i - 1] == (id, cid));
                assert forall|j: int| 0 <= j < i - 1 implies (#[trigger] rest[j]).0 != id by {
                    assert(rest[j] == list[j + 1]);
                }
            }
            if unlisted(rest, id) {
                assert forall|i: int| 0 <= i < list.len() implies (#[trigger] list[i]).0 != id by {
                    if i > 0 {
                        assert(list[i] == rest[i - 1]);
                    }
                }
            }
            if unlisted(list, id) {
                assert forall|i: int| 0 <= i < rest.len() implies (#[trigger] rest[i]).0 != id by {
                    assert(rest[i] == list[i + 1]);
                }
            }
        }
    }
}

/// The first entry of `list` with native identifier `cid` is that of browser `id`.
pub open spec fn names(list: Seq<(u32, i32)>, cid: i32, id: u32) -> bool {
    exists|i: int|
        0 <= i < list.len() && #[trigger] list[i] == (id, cid) && forall|j: int|
            0 <= j < i ==> (#[trigger] list[j]).1 != cid
}

/// A report is laid to the browser whose native identifier it carries: the first entry with that
/// identifier, and nobody exactly where there is none.
pub proof fn law_reports_are_laid_to_their_browser(list: Seq<(u32, i32)>, cid: i32, id: u32)
    ensures
        engine::id_of(list, cid) == Some(id) <==> names(list, cid, id),
        engine::id_of(list, cid) is None <==> forall|i: int|
            0 <= i < list.len() ==> (#[trigger] list[i]).1 != cid,
    decreases list.len(),
{
    if list.len() == 0 {
        assert(!names(list, cid, id));
    } else {
        let rest = list.skip(1);
        law_reports_are_laid_to_their_browser(rest, cid, id);
        if list[0].1 == cid {
            if list[0].0 == id {
                assert(list[0] == (id, cid));
            }
        } else {
            if names(rest, cid, id) {
                let i = choose|i: int|
                    0 <= i < rest.len() && #[trigger] rest[i] == (id, cid) && forall|j: int|
                        0 <= j < i ==> (#[trigger] rest[j]).1 != cid;
                assert(list[i + 1] == (id, cid));
                assert forall|j: int| 0 <= j < i + 1 implies (#[trigger] list[j]).1 != cid by {
                    if j > 0 {
                        assert(list[j] == rest[j - 1]);
                    }
                }
            }
            if names(list, cid, id) {
                let i = choose|i: int|
                    0 <= i < list.len() && #[trigger] list[i] == (id, cid) && forall|j: int|
                        0 <= j < i ==> (#[trigger] list[j]).1 != cid;
                assert(rest[i - 1] == (id, cid));
                assert forall|j: int| 0 <= j < i - 1 implies (#[trigger] rest[j]).1 != cid by {
                    assert(rest[j] == list[j + 1]);
                }
            }
            if forall|i: int| 0 <= i < rest.len() ==> (#[trigger] rest[i]).1 != cid {
                assert forall|i: int| 0 <= i < list.len() implies (#[trigger] list[i]).1 != cid by {
                    if i > 0 {
                        assert(list[i] == rest[i - 1]);
                    }
                }
            }
            if forall|i: int| 0 <= i < list.len() ==> (#[trigger] list[i]).1 != cid {
                assert forall|i: int| 0 <= i < rest.len() implies (#[trigger] rest[i]).1 != cid by {
                    assert(rest[i] == list[i + 1]);
                }
            }
        }
    }
}

/// Every operation but an overlay is for the browser whose id it carries.
pub proof fn law_operations_name_their_browser(id: u32, op: OpV)
    ensures
        op.target() == Some(id) <==> (match op {
            Op::Overlay { .. } => false,
            Op::Load { id: i, .. } => i == id,
            Op::Reload { id: i, .. } => i == id,
            Op::Stop { id: i } => i == id,
            Op::Back { id: i } => i == id,
            Op::Forward { id: i } => i == id,
            Op::Bounds { id: i, .. } => i == id,
            Op::Hidden { id: i, .. } => i == id,
            Op::Focus { id: i } => i == id,
            Op::Close { id: i } => i == id,
            Op::Mouse { id: i, .. } => i == id,
            Op::Wheel { id: i, .. } => i == id,
            Op::Key { id: i, .. } => i == id,
            Op::Ime { id: i, .. } => i == id,
            Op::Eval { id: i, .. } => i == id,
        }),
        op.target() is None <==> op is Overlay,
{
}

// ── navigation ───────────────────────────────────────────────────────────────────────────────

/// An address is opened in the browser that was named, exactly where that has a main frame.
pub proof fn law_address_is_opened(s: EngineV, id: u32, cid: i32, url: Seq<char>, probe: Probe)
    requires
        lives(s, id, cid),
    ensures
        ({
            let acts = apply::apply_actions(s, Op::Load { id, url }, probe);
            if probe.frame {
                acts.len() == 1 && acts[0] == Action::<Seq<char>, JsonV>::LoadUrl { cid, url }
            } else {
                acts.len() == 0
            }
        }),
{
    law_browsers_are_found_by_id(s.browsers, id, cid);
}

/// Loading again, stopping, and going through the history reach the browser that was named; the
/// history moves exactly where it has somewhere to go in that direction.
pub proof fn law_navigation_reaches_its_browser(
    s: EngineV,
    id: u32,
    cid: i32,
    ignore_cache: bool,
    probe: Probe,
)
    requires
        lives(s, id, cid),
    ensures
        ({
            let again = apply::apply_actions(s, Op::Reload { id, ignore_cache }, probe);
            again.len() == 1 && again[0] == Action::<Seq<char>, JsonV>::Reload { cid, ignore_cache }
        }),
        ({
            let stop = apply::apply_actions(s, Op::Stop { id }, probe);
            stop.len() == 1 && stop[0] == Action::<Seq<char>, JsonV>::StopLoad { cid }
        }),
        ({
            let back = apply::apply_actions(s, Op::Back { id }, probe);
            &&& back.len() == if probe.can_back { 1nat } else { 0 }
            &&& probe.can_back ==> back[0] == Action::<Seq<char>, JsonV>::GoBack { cid }
        }),
        ({
            let forward = apply::apply_actions(s, Op::Forward { id }, probe);
            &&& forward.len() == if probe.can_forward { 1nat } else { 0 }
            &&& probe.can_forward ==> forward[0] == Action::<Seq<char>, JsonV>::GoForward { cid }
        }),
{
    law_browsers_are_found_by_id(s.browsers, id, cid);
}

/// The focus goes to the browser that was named, where it has a host.
pub proof fn law_focus_reaches_its_browser(s: EngineV, id: u32, cid: i32, probe: Probe)
    requires
        lives(s, id, cid),
    ensures
        ({
            let acts = apply::apply_actions(s, Op::Focus { id }, probe);
            &&& acts.len() == if probe.host { 1nat } else { 0 }
            &&& probe.host ==> acts[0] == Action::<Seq<char>, JsonV>::SetFocus { cid }
        }),
{
    law_browsers_are_found_by_id(s.browsers, id, cid);
}

/// Navigation, focus, wheel, keys, composed text and scripts leave the engine's own records alone.
pub proof fn law_passing_on_changes_nothing(s: EngineV, op: OpV, probe: Probe, now: u64)
    requires
        op is Load || op is Reload || op is Stop || op is Back || op is Forward || op is Focus
            || op is Wheel || op is Key || op is Ime || op is Eval,
    ensures
        apply::applied(s, op, probe, now) == s,
{
}

/// Whether an action calls a native browser, or the native view of one.
pub open spec fn calls_browser(act: ActionV) -> bool {
    !(act is Emit) && !(act is DispatchPump) && !(act is DispatchTick) && !(act is HideSurface)
        && !(act is PlaceSurface)
}

/// An operation for a browser that does not live calls no native browser.
pub proof fn law_nobody_else_is_called(s: EngineV, op: OpV, probe: Probe, i: int)
    requires
        op.target() is Some,
        unlisted(s.browsers, op.target()->0),
        0 <= i < apply::apply_actions(s, op, probe).len(),
    ensures
        !calls_browser(apply::apply_actions(s, op, probe)[i]),
{
    law_browsers_are_found_by_id(s.browsers, op.target()->0, 0);
}

/// Where the browser lives, its operation calls it and no other.
pub proof fn law_only_the_named_browser_is_called(
    s: EngineV,
    op: OpV,
    cid: i32,
    probe: Probe,
    i: int,
)
    requires
        op.target() is Some,
        listed(s.browsers, op.target()->0, cid),
        0 <= i < apply::apply_actions(s, op, probe).len(),
    ensures
        called(apply::apply_actions(s, op, probe)[i]) matches Some(c) ==> c == cid,
{
    law_browsers_are_found_by_id(s.browsers, op.target()->0, cid);
}

/// The native browser that an action calls, if it calls one.
pub open spec fn called(act: ActionV) -> Option<i32> {
    match act {
        Action::LoadUrl { cid, .. } => Some(cid),
        Action::Reload { cid, .. } => Some(cid),
        Action::StopLoad { cid } => Some(cid),
        Action::GoBack { cid } => Some(cid),
        Action::GoForward { cid } => Some(cid),
        Action::ExecuteJs { cid, .. } => Some(cid),
        Action::WasResized { cid } => Some(cid),
        Action::WasHidden { cid, .. } => Some(cid),
        Action::Invalidate { cid } => Some(cid),
        Action::SetFocus { cid } => Some(cid),
        Action::CloseBrowser { cid } => Some(cid),
        Action::MouseMove { cid, .. } => Some(cid),
        Action::MouseClick { cid, .. } => Some(cid),
        Action::MouseWheel { cid, .. } => Some(cid),
        Action::Key { cid, .. } => Some(cid),
        Action::ImeSet { cid, .. } => Some(cid),
        Action::ImeCommit { cid, .. } => Some(cid),
        Action::ImeFinish { cid } => Some(cid),
        Action::ImeCancel { cid } => Some(cid),
        Action::PlaceChild { cid, .. } => Some(cid),
        Action::HideChild { cid, .. } => Some(cid),
        Action::LowerChild { cid } => Some(cid),
        Action::RemoveChild { cid } => Some(cid),
        Action::DropBrowser { cid } => Some(cid),
        _ => None,
    }
}

// ── bounds ───────────────────────────────────────────────────────────────────────────────────

/// `out` is a length of one at least that is `asked` wherever that is one.
pub open spec fn length_for(out: i32, asked: i32) -> bool {
    out >= 1 && (asked >= 1 ==> out == asked) && (asked < 1 ==> out == 1)
}

/// An offscreen browser that is given bounds has its surface placed there, remembers the size, and is
/// told last that it has a new one; everything else stays.
pub proof fn law_surface_gets_its_bounds(
    s: EngineV,
    id: u32,
    x: i32,
    y: i32,
    w: i32,
    h: i32,
    probe: Probe,
    now: u64,
)
    requires
        !s.close_requested.contains(id),
        s.surfaces.surfs.contains_key(id),
    ensures
        ({
            let op = Op::<Seq<char>>::Bounds { id, x, y, w, h };
            let acts = apply::apply_actions(s, op, probe);
            let t = apply::applied(s, op, probe, now);
            let before = s.surfaces.surfs[id];
            let after = t.surfaces.surfs[id];
            &&& acts.len() >= 1
            &&& acts[0] matches Action::PlaceSurface { view, x: ax, y: ay, w: aw, h: ah }
                && view == before.view && ax == x && ay == y && length_for(aw, w) && length_for(
                ah,
                h,
            )
            &&& unlisted(s.browsers, id) || !probe.host ==> acts.len() == 1
            &&& forall|cid: i32|
                probe.host && #[trigger] listed(s.browsers, id, cid) ==> acts.len() == 2 && acts[1]
                    == Action::<Seq<char>, JsonV>::WasResized { cid }
            &&& length_for(after.log_w, w) && length_for(after.log_h, h)
            &&& after == (Surf { log_w: after.log_w, log_h: after.log_h, ..before })
            &&& t.surfaces.surfs.dom() == s.surfaces.surfs.dom()
            &&& forall|other: u32|
                other != id && s.surfaces.surfs.contains_key(other)
                    ==> #[trigger] t.surfaces.surfs[other] == s.surfaces.surfs[other]
            &&& t.surfaces.noted == s.surfaces.noted
            &&& t.surfaces.frames_presented == s.surfaces.frames_presented
            &&& t == (EngineV { surfaces: t.surfaces, ..s })
        }),
{
    let op = Op::<Seq<char>>::Bounds { id, x, y, w, h };
    let t = apply::applied(s, op, probe, now);
    assert(t.surfaces.surfs.dom() =~= s.surfaces.surfs.dom());
    assert forall|cid: i32| probe.host && #[trigger] listed(s.browsers, id, cid) implies
        apply::apply_actions(s, op, probe).len() == 2 && apply::apply_actions(s, op, probe)[1]
        == Action::<Seq<char>, JsonV>::WasResized { cid } by {
        law_browsers_are_found_by_id(s.browsers, id, cid);
    }
    law_browsers_are_found_by_id(s.browsers, id, 0);
}

/// A windowed browser that is given bounds is told last that it has a new size; on macOS its view is
/// placed first, elsewhere the host places it. Nothing is kept on record.
pub proof fn law_child_gets_its_bounds(
    s: EngineV,
    id: u32,
    cid: i32,
    x: i32,
    y: i32,
    w: i32,
    h: i32,
    probe: Probe,
    now: u64,
)
    requires
        lives(s, id, cid),
        probe.host,
        !s.surfaces.surfs.contains_key(id),
    ensures
        ({
            let op = Op::<Seq<char>>::Bounds { id, x, y, w, h };
            let acts = apply::apply_actions(s, op, probe);
            &&& apply::applied(s, op, probe, now) == s
            &&& acts.len() == if s.platform == Platform::MacOs { 2nat } else { 1 }
            &&& acts.last() == Action::<Seq<char>, JsonV>::WasResized { cid }
            &&& s.platform == Platform::MacOs ==> (acts[0] matches Action::PlaceChild {
                cid: c,
                x: ax,
                y: ay,
                w: aw,
                h: ah,
            } && c == cid && ax == x && ay == y && length_for(aw, w) && length_for(ah, h))
        }),
{
    law_browsers_are_found_by_id(s.browsers, id, cid);
}

// ── hiding ───────────────────────────────────────────────────────────────────────────────────

/// Hiding and showing is on record for that browser alone: it is visible exactly where it is shown,
/// its surface follows, and only showing it makes it active, for the grace time.
pub proof fn law_visibility_is_recorded(
    s: EngineV,
    id: u32,
    hidden: bool,
    probe: Probe,
    now: u64,
    other: u32,
)
    requires
        !s.close_requested.contains(id),
        other != id,
    ensures
        ({
            let t = apply::applied(s, Op::<Seq<char>>::Hidden { id, hidden }, probe, now);
            &&& t.visible.contains(id) == !hidden
            &&& t.visible.contains(other) == s.visible.contains(other)
            &&& s.surfaces.surfs.contains_key(id) ==> t.surfaces.surfs[id] == (Surf {
                hidden,
                ..s.surfaces.surfs[id]
            })
            &&& t.surfaces.surfs.contains_key(id) == s.surfaces.surfs.contains_key(id)
            &&& t.surfaces.surfs.contains_key(other) == s.surfaces.surfs.contains_key(other)
            &&& t.surfaces.surfs[other] == s.surfaces.surfs[other]
            &&& hidden ==> t == (EngineV { visible: t.visible, surfaces: t.surfaces, ..s })
            &&& !hidden ==> t == (EngineV {
                visible: t.visible,
                surfaces: t.surfaces,
                active_ids: t.active_ids,
                pump: t.pump,
                ..s
            })
            &&& !hidden ==> t.active_ids.contains_key(id) && (now + ACTIVE_GRACE_MS <= u64::MAX
                ==> t.active_ids[id] == now + ACTIVE_GRACE_MS)
            &&& t.active_ids.contains_key(other) == s.active_ids.contains_key(other)
            &&& t.active_ids[other] == s.active_ids[other]
            &&& !hidden && !s.no_tick ==> t.pump.tick_on
        }),
{
}

/// The native browser learns whether it is hidden, and so does what shows it: the surface's view
/// offscreen, the child view on macOS. A surface that is shown is painted anew, last of all.
pub proof fn law_hiding_reaches_the_view(
    s: EngineV,
    id: u32,
    cid: i32,
    hidden: bool,
    probe: Probe,
)
    requires
        lives(s, id, cid),
        probe.host,
    ensures
        ({
            let acts = apply::apply_actions(s, Op::<Seq<char>>::Hidden { id, hidden }, probe);
            let surface = s.surfaces.surfs.contains_key(id);
            let told = Action::<Seq<char>, JsonV>::WasHidden { cid, hidden };
            let painted = Action::<Seq<char>, JsonV>::Invalidate { cid };
            &&& acts.contains(told)
            &&& !acts.contains(Action::<Seq<char>, JsonV>::WasHidden { cid, hidden: !hidden })
            &&& acts.contains(painted) == (surface && !hidden)
            &&& surface && !hidden ==> acts.last() == painted
            &&& surface ==> acts.contains(
                Action::<Seq<char>, JsonV>::HideSurface {
                    view: s.surfaces.surfs[id].view,
                    hidden,
                },
            )
            &&& acts.contains(Action::<Seq<char>, JsonV>::HideChild { cid, hidden }) == (!surface
                && s.platform == Platform::MacOs)
            &&& !acts.contains(Action::<Seq<char>, JsonV>::HideChild { cid, hidden: !hidden })
            &&& acts.contains(Action::<Seq<char>, JsonV>::DispatchTick { delay_ms: 0 }) == (!hidden
                && !s.no_tick && !s.pump.tick_on && s.platform == Platform::MacOs)
        }),
{
    law_browsers_are_found_by_id(s.browsers, id, cid);
    let acts = apply::apply_actions(s, Op::<Seq<char>>::Hidden { id, hidden }, probe);
    let ticks = !hidden && !s.no_tick && !s.pump.tick_on && s.platform == Platform::MacOs;
    let k: int = if ticks { 1 } else { 0 };
    if ticks {
        assert(acts[0] == Action::<Seq<char>, JsonV>::DispatchTick { delay_ms: 0 });
    }
    if s.surfaces.surfs.contains_key(id) {
        assert(acts[k] == Action::<Seq<char>, JsonV>::HideSurface {
            view: s.surfaces.surfs[id].view,
            hidden,
        });
        assert(acts[k + 1] == Action::<Seq<char>, JsonV>::WasHidden { cid, hidden });
        if !hidden {
            assert(acts[k + 2] == Action::<Seq<char>, JsonV>::Invalidate { cid });
        }
    } else {
        assert(acts[k] == Action::<Seq<char>, JsonV>::WasHidden { cid, hidden });
        if s.platform == Platform::MacOs {
            assert(acts[k + 1] == Action::<Seq<char>, JsonV>::HideChild { cid, hidden });
        }
    }
}

// ── closing ──────────────────────────────────────────────────────────────────────────────────

/// The first close of a living browser with a host closes it, on every system and whether or not it
/// has a surface. That comes last: before it the browser was hidden, with its surface and, on macOS,
/// its child view.
pub proof fn law_closing_closes(s: EngineV, id: u32, cid: i32, probe: Probe)
    requires
        lives(s, id, cid),
        probe.host,
    ensures
        ({
            let acts = apply::apply_actions(s, Op::<Seq<char>>::Close { id }, probe);
            let surface = s.surfaces.surfs.contains_key(id);
            &&& acts.len() > 0
            &&& acts.last() == Action::<Seq<char>, JsonV>::CloseBrowser { cid }
            &&& acts[0] == Action::<Seq<char>, JsonV>::WasHidden { cid, hidden: true }
            &&& acts.contains(Action::<Seq<char>, JsonV>::HideChild { cid, hidden: true }) == (
            s.platform == Platform::MacOs)
            &&& surface ==> acts.contains(
                Action::<Seq<char>, JsonV>::HideSurface {
                    view: s.surfaces.surfs[id].view,
                    hidden: true,
                },
            )
            &&& acts.len() == 2 + (if s.platform == Platform::MacOs { 1nat } else { 0 }) + (
            if surface { 1nat } else { 0 })
        }),
{
    law_browsers_are_found_by_id(s.browsers, id, cid);
    let acts = apply::apply_actions(s, Op::<Seq<char>>::Close { id }, probe);
    let k: int = if s.platform == Platform::MacOs { 2 } else { 1 };
    if s.platform == Platform::MacOs {
        assert(acts[1] == Action::<Seq<char>, JsonV>::HideChild { cid, hidden: true });
    }
    if s.surfaces.surfs.contains_key(id) {
        assert(acts[k] == Action::<Seq<char>, JsonV>::HideSurface {
            view: s.surfaces.surfs[id].view,
            hidden: true,
        });
    }
}

/// A browser without a host cannot be closed: only its surface is hidden.
pub proof fn law_closing_without_a_host(s: EngineV, id: u32, probe: Probe)
    requires
        !s.close_requested.contains(id),
        !probe.host || unlisted(s.browsers, id),
    ensures
        ({
            let acts = apply::apply_actions(s, Op::<Seq<char>>::Close { id }, probe);
            let surface = s.surfaces.surfs.contains_key(id);
            &&& acts.len() == if surface { 1nat } else { 0 }
            &&& surface ==> acts[0] == Action::<Seq<char>, JsonV>::HideSurface {
                view: s.surfaces.surfs[id].view,
                hidden: true,
            }
        }),
{
    law_browsers_are_found_by_id(s.browsers, id, 0);
}

/// Closing is on record for that browser alone, with its preview setting forgotten, and is counted:
/// each time that it is applied, and the first time by whether there was anything to close.
pub proof fn law_closing_is_counted(s: EngineV, id: u32, probe: Probe, now: u64, other: u32)
    requires
        !s.close_requested.contains(id),
        other != id,
    ensures
        ({
            let t = apply::applied(s, Op::<Seq<char>>::Close { id }, probe, now);
            let found = probe.host && !unlisted(s.browsers, id);
            &&& t.close_requested.contains(id)
            &&& t.close_requested.contains(other) == s.close_requested.contains(other)
            &&& !t.visible.contains(id)
            &&& t.visible.contains(other) == s.visible.contains(other)
            &&& !t.devtools_screencast.contains_key(id)
            &&& t.devtools_screencast.contains_key(other) == s.devtools_screencast.contains_key(
                other,
            )
            &&& t.devtools_screencast[other] == s.devtools_screencast[other]
            &&& s.surfaces.surfs.contains_key(id) ==> t.surfaces.surfs[id] == (Surf {
                hidden: true,
                ..s.surfaces.surfs[id]
            })
            &&& t.surfaces.surfs.contains_key(id) == s.surfaces.surfs.contains_key(id)
            &&& t.surfaces.surfs.contains_key(other) == s.surfaces.surfs.contains_key(other)
            &&& t.surfaces.surfs[other] == s.surfaces.surfs[other]
            &&& s.dbg.close_applied < u64::MAX ==> t.dbg.close_applied == s.dbg.close_applied + 1
            &&& found && s.dbg.close_browser < u64::MAX ==> t.dbg.close_browser
                == s.dbg.close_browser + 1
            &&& found ==> t.dbg.close_notfound == s.dbg.close_notfound
            &&& !found && s.dbg.close_notfound < u64::MAX ==> t.dbg.close_notfound
                == s.dbg.close_notfound + 1
            &&& !found ==> t.dbg.close_browser == s.dbg.close_browser
            &&& t.dbg.close_enter == s.dbg.close_enter && t.dbg.reaped == s.dbg.reaped
            &&& t == (EngineV {
                close_requested: t.close_requested,
                visible: t.visible,
                devtools_screencast: t.devtools_screencast,
                surfaces: t.surfaces,
                dbg: t.dbg,
                ..s
            })
        }),
{
    law_browsers_are_found_by_id(s.browsers, id, 0);
}

/// A second close is counted as applied, and as nothing else.
pub proof fn law_second_close_only_counts(s: EngineV, id: u32, probe: Probe, now: u64)
    requires
        s.close_requested.contains(id),
    ensures
        ({
            let t = apply::applied(s, Op::<Seq<char>>::Close { id }, probe, now);
            &&& t == (EngineV { dbg: t.dbg, ..s })
            &&& t.dbg == (Counters { close_applied: t.dbg.close_applied, ..s.dbg })
            &&& s.dbg.close_applied < u64::MAX ==> t.dbg.close_applied == s.dbg.close_applied + 1
        }),
{
}

// ── flags ────────────────────────────────────────────────────────────────────────────────────

/// `flags` says of each of the four modifier keys whether `mods` has it: shift, control, alt, meta.
pub open spec fn tells_keys(flags: u32, mods: u32) -> bool {
    &&& (flags & 0x02 != 0) == (mods & 1 != 0)
    &&& (flags & 0x04 != 0) == (mods & 2 != 0)
    &&& (flags & 0x08 != 0) == (mods & 4 != 0)
    &&& (flags & 0x80 != 0) == (mods & 8 != 0)
}

/// `flags` says of each of the three mouse buttons whether it is held: left, middle, right.
pub open spec fn tells_buttons(flags: u32, left: bool, middle: bool, right: bool) -> bool {
    &&& (flags & 0x10 != 0) == left
    &&& (flags & 0x20 != 0) == middle
    &&& (flags & 0x40 != 0) == right
}

/// Whether the button of number `button` (0 left, 1 middle, 2 right) is held over browser `id`.
pub open spec fn held(pressed: Map<u32, u8>, id: u32, button: u8) -> bool {
    pressed.contains_key(id) && (if button == 0 {
        pressed[id] & 1 != 0
    } else if button == 1 {
        pressed[id] & 2 != 0
    } else {
        pressed[id] & 4 != 0
    })
}

proof fn lemma_flags(mods: u32, bits: u8)
    ensures
        tells_keys(input::keyboard_flags(mods), mods),
        input::keyboard_flags(mods) & !0x8eu32 == 0,
        tells_buttons(
            input::button_flags(bits),
            bits & 1 != 0,
            bits & 2 != 0,
            bits & 4 != 0,
        ),
        input::button_flags(bits) & !0x70u32 == 0,
        ({
            let f = input::keyboard_flags(mods) | input::button_flags(bits);
            &&& tells_keys(f, mods)
            &&& tells_buttons(f, bits & 1 != 0, bits & 2 != 0, bits & 4 != 0)
            &&& f & !0xfeu32 == 0
        }),
{
    let k1: u32 = if mods & 1 != 0 { 0x02 } else { 0 };
    let k2: u32 = if mods & 2 != 0 { 0x04 } else { 0 };
    let k3: u32 = if mods & 4 != 0 { 0x08 } else { 0 };
    let k4: u32 = if mods & 8 != 0 { 0x80 } else { 0 };
    let m1: u32 = if bits & 1 != 0 { 0x10 } else { 0 };
    let m2: u32 = if bits & 2 != 0 { 0x20 } else { 0 };
    let m3: u32 = if bits & 4 != 0 { 0x40 } else { 0 };
    let k = k1 | k2 | k3 | k4;
    let m = m1 | m2 | m3;
    assert(input::keyboard_flags(mods) == k);
    assert(input::button_flags(bits) == m);
    let f = k | m;
    assert((k & 0x02 != 0) == (k1 != 0) && (k & 0x04 != 0) == (k2 != 0) && (k & 0x08 != 0) == (k3
        != 0) && (k & 0x80 != 0) == (k4 != 0) && k & !0x8eu32 == 0 && (m & 0x10 != 0) == (m1 != 0)
        && (m & 0x20 != 0) == (m2 != 0) && (m & 0x40 != 0) == (m3 != 0) && m & !0x70u32 == 0 && (f
        & 0x02 != 0) == (k1 != 0) && (f & 0x04 != 0) == (k2 != 0) && (f & 0x08 != 0) == (k3 != 0)
        && (f & 0x80 != 0) == (k4 != 0) && (f & 0x10 != 0) == (m1 != 0) && (f & 0x20 != 0) == (m2
        != 0) && (f & 0x40 != 0) == (m3 != 0) && f & !0xfeu32 == 0) by (bit_vector)
        requires
            k1 == 0 || k1 == 0x02,
            k2 == 0 || k2 == 0x04,
            k3 == 0 || k3 == 0x08,
            k4 == 0 || k4 == 0x80,
            m1 == 0 || m1 == 0x10,
            m2 == 0 || m2 == 0x20,
            m3 == 0 || m3 == 0x40,
            k == k1 | k2 | k3 | k4,
            m == m1 | m2 | m3,
            f == k | m,
    ;
}

proof fn lemma_no_bits()
    ensures
        0u8 & 1 == 0,
        0u8 & 2 == 0,
        0u8 & 4 == 0,
{
    assert(0u8 & 1 == 0 && 0u8 & 2 == 0 && 0u8 & 4 == 0) by (bit_vector);
}

/// The flags of an event say of each modifier key and of each held button whether it is down, and
/// nothing else.
pub proof fn law_flags_say_what_is_down(mods: u32, pressed: Map<u32, u8>, id: u32)
    ensures
        ({
            let f = input::keyboard_flags(mods) | input::button_flags(
                input::held_buttons(pressed, id),
            );
            &&& tells_keys(f, mods)
            &&& tells_buttons(f, held(pressed, id, 0), held(pressed, id, 1), held(pressed, id, 2))
            &&& f & !0xfeu32 == 0
        }),
        ({
            let k = input::keyboard_flags(mods);
            tells_keys(k, mods) && k & !0x8eu32 == 0
        }),
        ({
            let m = input::button_flags(input::held_buttons(pressed, id));
            &&& tells_buttons(m, held(pressed, id, 0), held(pressed, id, 1), held(pressed, id, 2))
            &&& m & !0x70u32 == 0
        }),
{
    lemma_flags(mods, input::held_buttons(pressed, id));
    lemma_no_bits();
}

proof fn lemma_set_bit(bits: u8, button: u8)
    ensures
        ({
            let b = input::button_bit(button);
            let down = bits | b;
            let up = bits & !b;
            &&& (down & 1 != 0) == (bits & 1 != 0 || button == 0)
            &&& (down & 2 != 0) == (bits & 2 != 0 || button == 1)
            &&& (down & 4 != 0) == (bits & 4 != 0 || button >= 2)
            &&& (up & 1 != 0) == (bits & 1 != 0 && button != 0)
            &&& (up & 2 != 0) == (bits & 2 != 0 && button != 1)
            &&& (up & 4 != 0) == (bits & 4 != 0 && button < 2)
        }),
{
    let b = input::button_bit(button);
    assert(((bits | b) & 1 != 0) == (bits & 1 != 0 || b == 1) && ((bits | b) & 2 != 0) == (bits & 2
        != 0 || b == 2) && ((bits | b) & 4 != 0) == (bits & 4 != 0 || b == 4) && ((bits & !b) & 1
        != 0) == (bits & 1 != 0 && b != 1) && ((bits & !b) & 2 != 0) == (bits & 2 != 0 && b != 2)
        && ((bits & !b) & 4 != 0) == (bits & 4 != 0 && b != 4)) by (bit_vector)
        requires
            b == 1 || b == 2 || b == 4,
    ;
}

// ── the mouse ────────────────────────────────────────────────────────────────────────────────

/// A mouse that moves is passed on where it is, with the keys and the buttons that are down.
pub proof fn law_mouse_moves(
    s: EngineV,
    id: u32,
    cid: i32,
    x: i32,
    y: i32,
    button: u8,
    clicks: i32,
    mods: u32,
    probe: Probe,
    now: u64,
)
    requires
        lives(s, id, cid),
        probe.host,
    ensures
        ({
            let op = Op::<Seq<char>>::Mouse { id, kind: 0, x, y, button, clicks, mods };
            let acts = apply::apply_actions(s, op, probe);
            &&& acts.len() == 1
            &&& acts[0] matches Action::MouseMove { cid: c, x: ax, y: ay, modifiers } && c == cid
                && ax == x && ay == y && tells_keys(modifiers, mods) && tells_buttons(
                modifiers,
                held(s.pressed, id, 0),
                held(s.pressed, id, 1),
                held(s.pressed, id, 2),
            ) && modifiers & !0xfeu32 == 0
            &&& apply::applied(s, op, probe, now) == s
        }),
{
    law_browsers_are_found_by_id(s.browsers, id, cid);
    law_flags_say_what_is_down(mods, s.pressed, id);
}

/// A mouse button that goes down or up is passed on as that button, where it is, with the keys that
/// are down and with the button itself counted as held. From then on it is held, or no longer; no
/// other button and no other browser is touched.
pub proof fn law_mouse_clicks(
    s: EngineV,
    id: u32,
    cid: i32,
    up: bool,
    x: i32,
    y: i32,
    button: u8,
    clicks: i32,
    mods: u32,
    probe: Probe,
    now: u64,
)
    requires
        lives(s, id, cid),
        probe.host,
        button <= 2,
    ensures
        ({
            let kind: u8 = if up { 2 } else { 1 };
            let op = Op::<Seq<char>>::Mouse { id, kind, x, y, button, clicks, mods };
            let acts = apply::apply_actions(s, op, probe);
            let t = apply::applied(s, op, probe, now);
            &&& acts.len() == 1
            &&& acts[0] matches Action::MouseClick {
                cid: c,
                x: ax,
                y: ay,
                modifiers,
                button: b,
                up: u,
                clicks: n,
            } && c == cid && ax == x && ay == y && u == up && length_for(n, clicks) && (b
                == MouseButton::Left <==> button == 0) && (b == MouseButton::Middle <==> button
                == 1) && (b == MouseButton::Right <==> button == 2) && tells_keys(modifiers, mods)
                && tells_buttons(
                modifiers,
                held(s.pressed, id, 0) || !up && button == 0,
                held(s.pressed, id, 1) || !up && button == 1,
                held(s.pressed, id, 2) || !up && button == 2,
            ) && modifiers & !0xfeu32 == 0
            &&& t == (EngineV { pressed: t.pressed, ..s })
            &&& held(t.pressed, id, button) == !up
            &&& forall|b: u8|
                b <= 2 && b != button ==> #[trigger] held(t.pressed, id, b) == held(
                    s.pressed,
                    id,
                    b,
                )
            &&& forall|other: u32, b: u8|
                other != id ==> #[trigger] held(t.pressed, other, b) == held(s.pressed, other, b)
        }),
{
    law_browsers_are_found_by_id(s.browsers, id, cid);
    let bits = input::held_buttons(s.pressed, id);
    lemma_set_bit(bits, button);
    lemma_no_bits();
    if up {
        law_flags_say_what_is_down(mods, s.pressed, id);
    } else {
        law_flags_say_what_is_down(mods, input::button_set(s.pressed, id, button, true), id);
    }
}

// ── the wheel ────────────────────────────────────────────────────────────────────────────────

/// The wheel counts the other way round for the native browser, on both axes and in both directions:
/// what it is told and what was asked for cancel out. So turning the wheel the other way reverses the
/// event. It happens where the mouse is, with the buttons that are down.
pub proof fn law_wheel_is_reversed(
    s: EngineV,
    id: u32,
    cid: i32,
    x: i32,
    y: i32,
    dx: i32,
    dy: i32,
    probe: Probe,
)
    requires
        lives(s, id, cid),
        probe.host,
    ensures
        ({
            let acts = apply::apply_actions(s, Op::Wheel { id, x, y, dx, dy }, probe);
            &&& acts.len() == 1
            &&& acts[0] matches Action::MouseWheel {
                cid: c,
                x: ax,
                y: ay,
                modifiers,
                dx: ox,
                dy: oy,
            } && c == cid && ax == x && ay == y && (dx > i32::MIN ==> ox + dx == 0) && (dy
                > i32::MIN ==> oy + dy == 0) && tells_buttons(
                modifiers,
                held(s.pressed, id, 0),
                held(s.pressed, id, 1),
                held(s.pressed, id, 2),
            ) && modifiers & !0x70u32 == 0
        }),
{
    law_browsers_are_found_by_id(s.browsers, id, cid);
    law_flags_say_what_is_down(0, s.pressed, id);
}

// ── keys and composed text ───────────────────────────────────────────────────────────────────

/// A key is passed on as what it is: down, up or a character, with its code, its character and the
/// modifier keys. On Windows the code of a character is the character.
pub proof fn law_key_is_passed_on(
    s: EngineV,
    id: u32,
    cid: i32,
    kind: u8,
    code: i32,
    ch: u16,
    mods: u32,
    probe: Probe,
)
    requires
        lives(s, id, cid),
        probe.host,
        kind <= 2,
    ensures
        ({
            let acts = apply::apply_actions(s, Op::Key { id, kind, code, ch, mods }, probe);
            &&& acts.len() == 1
            &&& acts[0] matches Action::Key { cid: c, kind: k, modifiers, code: oc, ch: och } && c
                == cid && och == ch && (k == KeyKind::RawDown <==> kind == 0) && (k == KeyKind::Up
                <==> kind == 1) && (k == KeyKind::Char <==> kind == 2) && tells_keys(
                modifiers,
                mods,
            ) && modifiers & !0x8eu32 == 0 && (if s.platform == Platform::Windows && kind == 2 {
                oc as int == ch as int
            } else {
                oc == code
            })
        }),
{
    law_browsers_are_found_by_id(s.browsers, id, cid);
    law_flags_say_what_is_down(mods, s.pressed, id);
}

/// Composed text is passed on as it is: shown as a composition that is underlined over its whole
/// length, with the caret where it was asked for or at the end; committed; finished; or given up.
pub proof fn law_composition_is_passed_on(
    s: EngineV,
    id: u32,
    cid: i32,
    text: Seq<char>,
    caret: u32,
    probe: Probe,
)
    requires
        lives(s, id, cid),
        probe.host,
    ensures
        ({
            let set = apply::apply_actions(s, Op::Ime { id, kind: 0, text, caret }, probe);
            &&& set.len() == 1
            &&& set[0] matches Action::ImeSet { cid: c, text: t, len, caret: at } && c == cid && t
                == text && (text::utf16_units(text) <= u32::MAX ==> len == text::utf16_units(text))
                && (caret <= len ==> at == caret) && (caret > len ==> at == len)
        }),
        ({
            let commit = apply::apply_actions(s, Op::Ime { id, kind: 1, text, caret }, probe);
            commit.len() == 1 && commit[0] == Action::<Seq<char>, JsonV>::ImeCommit { cid, text }
        }),
        ({
            let finish = apply::apply_actions(s, Op::Ime { id, kind: 2, text, caret }, probe);
            finish.len() == 1 && finish[0] == Action::<Seq<char>, JsonV>::ImeFinish { cid }
        }),
        ({
            let cancel = apply::apply_actions(s, Op::Ime { id, kind: 3, text, caret }, probe);
            cancel.len() == 1 && cancel[0] == Action::<Seq<char>, JsonV>::ImeCancel { cid }
        }),
{
    law_browsers_are_found_by_id(s.browsers, id, cid);
}

/// Without a host no input reaches a browser, and none is remembered.
pub proof fn law_input_needs_a_host(s: EngineV, op: OpV, probe: Probe, now: u64)
    requires
        op is Mouse || op is Wheel || op is Key || op is Ime || op is Focus,
        !probe.host,
    ensures
        apply::apply_actions(s, op, probe).len() == 0,
        apply::applied(s, op, probe, now) == s,
{
}

// ── scripts ──────────────────────────────────────────────────────────────────────────────────

/// A script runs in the main frame of the browser that was named, whole, inside the wrapper that
/// reports its result under its number.
pub proof fn law_script_runs_whole(
    s: EngineV,
    id: u32,
    cid: i32,
    eval_id: u64,
    js: Seq<char>,
    probe: Probe,
)
    requires
        lives(s, id, cid),
        probe.frame,
    ensures
        ({
            let acts = apply::apply_actions(s, Op::Eval { id, eval_id, js }, probe);
            &&& acts.len() == 1
            &&& acts[0] matches Action::ExecuteJs { cid: c, script } && c == cid && script
                == "(async()=>{let __ok=true,__v;try{__v=await(async()=>{ "@ + js
                + " })();}catch(e){__ok=false;__v=String((e&&e.stack)||e);}let __s;try{__s=JSON.stringify(__v===undefined?null:__v);}catch(_){__s=JSON.stringify(String(__v));}try{window.cefQuery({request:JSON.stringify({__soksakEval:"@
                + text::decimal(eval_id as nat)
                + ",ok:__ok,value:JSON.parse(__s)}),onSuccess:function(){},onFailure:function(){}});}catch(_){}})();"@
        }),
{
    law_browsers_are_found_by_id(s.browsers, id, cid);
}

/// A script that cannot run, because there is no such browser or it has no main frame, is reported
/// once, as failed, under its own number.
pub proof fn law_script_that_cannot_run_fails(
    s: EngineV,
    id: u32,
    eval_id: u64,
    js: Seq<char>,
    probe: Probe,
)
    requires
        !probe.frame || unlisted(s.browsers, id) || s.close_requested.contains(id),
    ensures
        ({
            let acts = apply::apply_actions(s, Op::Eval { id, eval_id, js }, probe);
            &&& acts.len() == 1
            &&& acts[0] matches Action::Emit { event } && event matches JsonV::Obj(m)
                && m.contains_key("ok"@) && m["ok"@] == JsonV::Bool(false) && m.contains_key(
                "id"@,
            ) && m["id"@] == JsonV::Num(Num::Pos(id as u64)) && m.contains_key("evalId"@)
                && m["evalId"@] == JsonV::Num(Num::Pos(eval_id)) && m.contains_key("event"@)
                && m["event"@] == JsonV::Str("eval-result"@) && m.contains_key("value"@)
                && m["value"@] is Str
        }),
{
    law_browsers_are_found_by_id(s.browsers, id, 0);
    reveal_strlit("event");
    reveal_strlit("id");
    reveal_strlit("evalId");
    reveal_strlit("ok");
    reveal_strlit("value");
    assert("event"@.len() == 5 && "event"@[0] == 'e');
    assert("id"@.len() == 2 && "id"@[0] == 'i');
    assert("evalId"@.len() == 6);
    assert("ok"@.len() == 2 && "ok"@[0] == 'o');
    assert("value"@.len() == 5 && "value"@[0] == 'v');
}

}
