//! What becomes of a frame: which buffer it goes to, what is shown of it, and who is sent it.

use vstd::prelude::*;
use vstd::string::*;

use crate::engine::{EngineV, ACTIVE_GRACE_MS};
use crate::frame_stream;
use crate::frame_stream::{Class, Frame, FrameStreamV, Pixels, Sending};
use crate::json::JsonV;
use crate::laws;
use crate::op_laws::length_for;
use crate::ops::Action;
use crate::presenter;
use crate::presenter::{Note, Platform, Pool, PopupStep, PresentStep, Surf, SurfacesV, Target};
use crate::text;

verus! {

// ── sizes ────────────────────────────────────────────────────────────────────────────────────

/// A length that was asked for is used as it is, and one where it is less than that.
pub proof fn law_lengths_are_at_least_one(v: i32)
    ensures
        length_for(presenter::clamped(v), v),
{
}

// ── buffers ──────────────────────────────────────────────────────────────────────────────────

/// Surface `id` takes frames now: it is shown, and a popup frame finds the popup open with its layer.
pub open spec fn takes(s: SurfacesV, id: u32, popup: bool) -> bool {
    &&& s.surfs.contains_key(id)
    &&& !s.surfs[id].hidden
    &&& popup ==> s.surfs[id].popup_shown && s.surfs[id].popup_layer != 0
}

/// The buffers of surface `id` for its view or for its popup.
pub open spec fn buffers(s: SurfacesV, id: u32, popup: bool) -> Pool {
    if popup {
        s.surfs[id].popup_pool
    } else {
        s.surfs[id].pool
    }
}

/// Whether buffer `i` of `pool` is whole: its surface and its texture could be made.
pub open spec fn whole(pool: Pool, i: int) -> bool {
    0 <= i < 3 && pool.slots[i] != 0 && pool.tex[i] != 0
}

/// A frame is copied only to a buffer of exactly its size. Buffers of another width or of another
/// height are given back and made anew, and so are those of which the first could not be made;
/// buffers that fit are not.
pub proof fn law_frames_get_buffers_of_their_size(s: SurfacesV, id: u32, w: i32, h: i32, popup: bool)
    requires
        takes(s, id, popup),
        w > 0,
        h > 0,
    ensures
        ({
            let step = presenter::frame_step(s, id, true, w, h, true, popup);
            let pool = buffers(s, id, popup);
            &&& step is Blit ==> pool.w == w && pool.h == h
            &&& pool.w != w ==> (step matches PresentStep::Rebuild { old } && old == pool)
            &&& pool.h != h ==> (step matches PresentStep::Rebuild { old } && old == pool)
            &&& pool.slots[0] == 0 ==> (step matches PresentStep::Rebuild { old } && old == pool)
            &&& pool.w == w && pool.h == h && pool.slots[0] != 0 ==> !(step is Rebuild)
            &&& presenter::present_step(s, Platform::MacOs, id, true, w, h, true, popup) == step
        }),
{
}

/// A frame is copied to a whole buffer of its surface and shown in the layer that it is for: the view's
/// own or the popup's. The buffer is the first whole one from the next in turn on. It is dropped
/// only where none is whole, and that is reported.
pub proof fn law_frames_go_to_the_next_whole_buffer(
    s: SurfacesV,
    id: u32,
    w: i32,
    h: i32,
    popup: bool,
)
    requires
        s.wf(),
        takes(s, id, popup),
        w > 0,
        h > 0,
        buffers(s, id, popup).w == w,
        buffers(s, id, popup).h == h,
        buffers(s, id, popup).slots[0] != 0,
    ensures
        ({
            let pool = buffers(s, id, popup);
            let n = pool.next as int;
            match presenter::frame_step(s, id, true, w, h, true, popup) {
                PresentStep::Blit { target } => {
                    &&& target.layer == (if popup {
                        s.surfs[id].popup_layer
                    } else {
                        s.surfs[id].layer
                    })
                    &&& {
                        ||| shown_in(pool, n % 3, target)
                        ||| !whole(pool, n % 3) && shown_in(pool, (n + 1) % 3, target)
                        ||| !whole(pool, n % 3) && !whole(pool, (n + 1) % 3) && shown_in(
                            pool,
                            (n + 2) % 3,
                            target,
                        )
                    }
                },
                PresentStep::Drop { note } => {
                    &&& note == Some(Note::PoolFailed)
                    &&& !whole(pool, 0) && !whole(pool, 1) && !whole(pool, 2)
                },
                PresentStep::Rebuild { .. } => false,
            }
        }),
{
    let pool = buffers(s, id, popup);
    let n = pool.next as int;
    assert(s.surfs[id].wf());
    assert(presenter::slot_after(pool, 0) == n % 3);
    assert(presenter::slot_after(pool, 1) == (n + 1) % 3);
    assert(presenter::slot_after(pool, 2) == (n + 2) % 3);
}

/// Whether buffer `i` of `pool` is whole, and is where a frame is copied to.
pub open spec fn shown_in(pool: Pool, i: int, target: Target) -> bool {
    whole(pool, i) && target.surface == pool.slots[i] && target.texture == pool.tex[i]
}

/// Elsewhere than on macOS every frame is dropped with a report of its own: one for frames of a view, and
/// another for frames of a popup.
pub proof fn law_frames_elsewhere_have_their_report(
    s: SurfacesV,
    platform: Platform,
    id: u32,
    has_surface: bool,
    w: i32,
    h: i32,
    gpu: bool,
    popup: bool,
)
    requires
        platform != Platform::MacOs,
    ensures
        presenter::present_step(s, platform, id, has_surface, w, h, gpu, popup) == (
        PresentStep::Drop {
            note: Some(
                if popup {
                    Note::PopupPresentPending
                } else {
                    Note::PresentPending
                },
            ),
        }),
{
}

/// A frame that has nowhere to go is dropped: without a texture or a size, for a surface that is
/// unknown or hidden, for a popup that is closed. Only a missing device is worth a report.
pub proof fn law_frames_without_a_place_are_dropped(
    s: SurfacesV,
    id: u32,
    has_surface: bool,
    w: i32,
    h: i32,
    gpu: bool,
    popup: bool,
)
    requires
        !has_surface || w <= 0 || h <= 0 || !gpu || !takes(s, id, popup),
    ensures
        presenter::present_step(s, Platform::MacOs, id, has_surface, w, h, gpu, popup) == (
        PresentStep::Drop {
            note: if has_surface && w > 0 && h > 0 && !gpu {
                Some(Note::GpuMissing)
            } else {
                None
            },
        }),
{
}

/// Buffers that were made anew fit frames of the size that they were made for, are used from the first
/// on, and change nothing else.
pub proof fn law_new_buffers_fit(
    s: SurfacesV,
    id: u32,
    popup: bool,
    slots: [usize; 3],
    tex: [usize; 3],
    w: i32,
    h: i32,
    other: u32,
)
    requires
        takes(s, id, popup),
        w > 0,
        h > 0,
        slots[0] != 0,
        tex[0] != 0,
        other != id,
    ensures
        ({
            let t = presenter::pool_replaced(s, id, popup, slots, tex, w, h);
            let step = presenter::frame_step(t, id, true, w, h, true, popup);
            &&& step matches PresentStep::Blit { target } && target.surface == slots[0]
                && target.texture == tex[0]
            &&& buffers(t, id, popup).slots == slots && buffers(t, id, popup).tex == tex
            &&& buffers(t, id, popup).w == w && buffers(t, id, popup).h == h
            &&& buffers(t, id, !popup) == buffers(s, id, !popup)
            &&& t.surfs[id] == (Surf {
                pool: t.surfs[id].pool,
                popup_pool: t.surfs[id].popup_pool,
                ..s.surfs[id]
            })
            &&& t.surfs.contains_key(other) == s.surfs.contains_key(other)
            &&& t.surfs[other] == s.surfs[other]
            &&& t.noted == s.noted && t.frames_presented == s.frames_presented
        }),
{
}

/// A frame that was shown counts, is reported as the first where it is, and leaves the turn to the
/// buffer behind the one that it was copied to; nothing else changes.
pub proof fn law_shown_frames_pass_the_turn_on(
    s: SurfacesV,
    id: u32,
    w: i32,
    h: i32,
    popup: bool,
    other: u32,
)
    requires
        s.wf(),
        presenter::frame_step(s, id, true, w, h, true, popup) is Blit,
        other != id,
    ensures
        ({
            let t = presenter::frame_shown(s, id, popup);
            let target = presenter::frame_step(s, id, true, w, h, true, popup)->target;
            let before = buffers(s, id, popup);
            let after = buffers(t, id, popup);
            &&& s.frames_presented < u64::MAX ==> t.frames_presented == s.frames_presented + 1
            &&& t.noted == s.noted.insert(
                (id, if popup { Note::FirstPopupFrame } else { Note::FirstFrame }),
            )
            &&& after == (Pool { next: after.next, ..before })
            &&& after.next < 3
            &&& before.slots[(after.next + 2) % 3] == target.surface
            &&& before.tex[(after.next + 2) % 3] == target.texture
            &&& buffers(t, id, !popup) == buffers(s, id, !popup)
            &&& t.surfs[id] == (Surf {
                pool: t.surfs[id].pool,
                popup_pool: t.surfs[id].popup_pool,
                ..s.surfs[id]
            })
            &&& t.surfs.contains_key(other) == s.surfs.contains_key(other)
            &&& t.surfs[other] == s.surfs[other]
        }),
{
    assert(s.surfs[id].wf());
}

/// What is given back of a set of buffers is what could be made of it: every handle, and no other.
pub proof fn law_buffers_are_given_back(pool: Pool, handle: usize)
    ensures
        presenter::pool_handles(pool, 3).contains(handle) <==> handle != 0 && exists|i: int|
            0 <= i < 3 && (#[trigger] pool.slots[i] == handle || pool.tex[i] == handle),
        presenter::pool_handles(pool, 3).len() == made(pool.slots) + made(pool.tex),
{
    reveal_with_fuel(presenter::pool_handles, 4);
    let none = presenter::pool_handles(pool, 0);
    let one = presenter::pool_handles(pool, 1);
    let two = presenter::pool_handles(pool, 2);
    let all = presenter::pool_handles(pool, 3);
    lemma_slot_handles(pool, 1, handle);
    lemma_slot_handles(pool, 2, handle);
    lemma_slot_handles(pool, 3, handle);
    if handle != 0 && all.contains(handle) {
        assert(pool.slots[0] == handle || pool.tex[0] == handle || pool.slots[1] == handle
            || pool.tex[1] == handle || pool.slots[2] == handle || pool.tex[2] == handle);
    }
}

/// How many of three handles there are.
pub open spec fn made(handles: [usize; 3]) -> nat {
    (if handles[0] != 0 { 1nat } else { 0 }) + (if handles[1] != 0 { 1nat } else { 0 }) + (
    if handles[2] != 0 { 1nat } else { 0 })
}

proof fn lemma_slot_handles(pool: Pool, upto: int, handle: usize)
    requires
        1 <= upto <= 3,
    ensures
        ({
            let before = presenter::pool_handles(pool, upto - 1);
            let all = presenter::pool_handles(pool, upto);
            &&& all.contains(handle) <==> before.contains(handle) || (handle != 0 && (
            pool.slots[upto - 1] == handle || pool.tex[upto - 1] == handle))
            &&& all.len() == before.len() + (if pool.slots[upto - 1] != 0 { 1nat } else { 0 }) + (
            if pool.tex[upto - 1] != 0 { 1nat } else { 0 })
        }),
{
    let i = upto - 1;
    let before = presenter::pool_handles(pool, i);
    let all = presenter::pool_handles(pool, upto);
    let mid = if pool.tex[i] != 0 {
        before.push(pool.tex[i])
    } else {
        before
    };
    lemma_push_contains(before, pool.tex[i], handle);
    lemma_push_contains(mid, pool.slots[i], handle);
}

proof fn lemma_push_contains(list: Seq<usize>, last: usize, x: usize)
    ensures
        list.push(last).contains(x) <==> list.contains(x) || x == last,
{
    let all = list.push(last);
    if list.contains(x) {
        let i = choose|i: int| 0 <= i < list.len() && list[i] == x;
        assert(all[i] == x);
    }
    if x == last {
        assert(all[list.len() as int] == x);
    }
    if all.contains(x) {
        let i = choose|i: int| 0 <= i < all.len() && all[i] == x;
        if i < list.len() {
            assert(list[i] == x);
        }
    }
}

// ── surfaces ─────────────────────────────────────────────────────────────────────────────────

/// A surface is made as it was asked for: of that size and scale, shown, without frames and without a
/// popup. Without a parent nothing is made. The others stay as they are.
pub proof fn law_surfaces_are_made_as_asked(
    s: SurfacesV,
    platform: Platform,
    id: u32,
    parent: usize,
    w: i32,
    h: i32,
    scale: u32,
    view: usize,
    layer: usize,
    other: u32,
)
    requires
        other != id,
    ensures
        ({
            let t = presenter::surface_made(s, platform, id, parent, w, h, scale, view, layer);
            let made = t.surfs[id];
            &&& parent == 0 ==> t == s
            &&& parent != 0 ==> {
                &&& t.surfs.contains_key(id)
                &&& made.view == view && made.layer == layer && made.scale == scale
                &&& length_for(made.log_w, w) && length_for(made.log_h, h)
                &&& !made.hidden && !made.popup_shown && made.popup_layer == 0
                &&& made.pool.w == 0 && made.pool.h == 0 && made.pool.next == 0
                &&& made.popup_pool.w == 0 && made.popup_pool.h == 0 && made.popup_pool.next == 0
                &&& forall|i: int|
                    0 <= i < 3 ==> #[trigger] made.pool.slots[i] == 0 && made.pool.tex[i] == 0
                &&& forall|i: int|
                    0 <= i < 3 ==> #[trigger] made.popup_pool.slots[i] == 0
                        && made.popup_pool.tex[i] == 0
                &&& t.noted == (if platform == Platform::MacOs {
                    s.noted
                } else {
                    s.noted.insert((id, Note::SurfacePending))
                })
            }
            &&& t.surfs.contains_key(other) == s.surfs.contains_key(other)
            &&& t.surfs[other] == s.surfs[other]
            &&& t.frames_presented == s.frames_presented
        }),
{
}

/// A surface that is given up is gone, and no other.
pub proof fn law_only_that_surface_goes(s: SurfacesV, id: u32, other: u32)
    requires
        other != id,
    ensures
        ({
            let t = presenter::destroyed(s, id);
            &&& !t.surfs.contains_key(id)
            &&& t.surfs.contains_key(other) == s.surfs.contains_key(other)
            &&& s.surfs.contains_key(other) ==> t.surfs[other] == s.surfs[other]
            &&& t.noted == s.noted && t.frames_presented == s.frames_presented
        }),
{
}

// ── popups ───────────────────────────────────────────────────────────────────────────────────

/// A popup lies where the page says, counted from the other corner: its lower edge is as far above
/// the surface's lower edge as it should be below its upper one.
pub proof fn law_popup_lies_where_the_page_says(surf: Surf)
    ensures
        ({
            let f = presenter::popup_frame(surf);
            let r = surf.popup_rect;
            &&& f.x == r.x
            &&& length_for(f.w, r.w) && length_for(f.h, r.h)
            &&& i32::MIN <= surf.log_h - r.y <= i32::MAX && i32::MIN <= surf.log_h - r.y - r.h
                <= i32::MAX ==> f.y + r.h + r.y == surf.log_h
        }),
{
}

/// What the page says of its popup is on record: whether it is open, where it lies, and its layer.
/// Each changes that alone.
pub proof fn law_popup_is_recorded(
    s: SurfacesV,
    id: u32,
    show: bool,
    rect: presenter::Frame,
    layer: usize,
    other: u32,
)
    requires
        s.surfs.contains_key(id),
        other != id,
    ensures
        presenter::popup_shown(s, id, show).surfs[id] == (Surf {
            popup_shown: show,
            ..s.surfs[id]
        }),
        presenter::popup_placed(s, id, rect).surfs[id] == (Surf {
            popup_rect: rect,
            ..s.surfs[id]
        }),
        presenter::popup_layered(s, id, layer).surfs[id] == (Surf {
            popup_layer: layer,
            ..s.surfs[id]
        }),
        forall|t: SurfacesV|
            t == presenter::popup_shown(s, id, show) || t == presenter::popup_placed(s, id, rect)
                || t == presenter::popup_layered(s, id, layer) ==> {
                &&& #[trigger] t.surfs.contains_key(other) == s.surfs.contains_key(other)
                &&& t.surfs[other] == s.surfs[other]
                &&& t.surfs.contains_key(id)
                &&& t.noted == s.noted && t.frames_presented == s.frames_presented
            },
{
}

/// On macOS a popup that opens is shown in its layer, which is made first where there is none, below
/// the surface's own and at its scale; one that closes is hidden where it has a layer. Elsewhere, and
/// for a browser without a surface, nothing is to be done.
pub proof fn law_popup_layer_follows_the_popup(s: SurfacesV, platform: Platform, id: u32, show: bool)
    ensures
        ({
            let step = presenter::popup_step(s, platform, id, show);
            let surf = s.surfs[id];
            let concerns = platform == Platform::MacOs && s.surfs.contains_key(id);
            &&& step is MakeLayer <==> concerns && show && surf.popup_layer == 0
            &&& step matches PopupStep::MakeLayer { root, scale } ==> root == surf.layer && scale
                == surf.scale
            &&& step is Show <==> concerns && show && surf.popup_layer != 0
            &&& step matches PopupStep::Show { layer, frame } ==> layer == surf.popup_layer && frame
                == presenter::popup_frame(surf)
            &&& step is Hide <==> concerns && !show && surf.popup_layer != 0
            &&& step matches PopupStep::Hide { layer } ==> layer == surf.popup_layer
        }),
{
}

// ── notes ────────────────────────────────────────────────────────────────────────────────────

/// A frame that comes as pixels in memory is reported: on macOS always, elsewhere where it is one.
pub proof fn law_frames_in_memory_are_reported(platform: Platform, has_buffer: bool, w: i32, h: i32)
    ensures
        presenter::cpu_note(platform, has_buffer, w, h) is None <==> platform != Platform::MacOs
            && (!has_buffer || w <= 0 || h <= 0),
        presenter::cpu_note(Platform::MacOs, has_buffer, w, h) == Some(Note::CpuFrameDropped),
        presenter::cpu_note(platform, has_buffer, w, h) == Some(Note::CpuFrameDropped) ==> platform
            == Platform::MacOs,
{
}

/// What is not done yet on a system is reported with the name of that system in front.
pub proof fn law_notes_name_the_system(platform: Platform, note: Note)
    requires
        note is SurfacePending || note is PresentPending || note is PopupPresentPending
            || note is CpuPresentPending,
    ensures
        platform == Platform::MacOs ==> "macos "@.is_prefix_of(
            presenter::note_words(platform, note),
        ),
        platform == Platform::Windows ==> "windows "@.is_prefix_of(
            presenter::note_words(platform, note),
        ),
        platform == Platform::Linux ==> "linux "@.is_prefix_of(
            presenter::note_words(platform, note),
        ),
{
    let words = presenter::note_words(platform, note);
    assert("macos "@.is_prefix_of(words) || platform != Platform::MacOs) by {
        assert(platform == Platform::MacOs ==> words.take("macos "@.len() as int) =~= "macos "@);
    }
    assert("windows "@.is_prefix_of(words) || platform != Platform::Windows) by {
        assert(platform == Platform::Windows ==> words.take("windows "@.len() as int)
            =~= "windows "@);
    }
    assert("linux "@.is_prefix_of(words) || platform != Platform::Linux) by {
        assert(platform == Platform::Linux ==> words.take("linux "@.len() as int) =~= "linux "@);
    }
}

// ── listeners ────────────────────────────────────────────────────────────────────────────────

/// A connection is sent the frames of a browser exactly where it listens to that browser.
pub proof fn law_listeners_are_those_who_subscribed(subs: Seq<(u32, u64)>, id: u32, token: u64)
    ensures
        frame_stream::listeners(subs, id).contains(token) <==> subs.contains((id, token)),
        frame_stream::listeners(subs, id).len() > 0 <==> exists|i: int|
            0 <= i < subs.len() && (#[trigger] subs[i]).0 == id,
    decreases subs.len(),
{
    if subs.len() > 0 {
        let front = subs.drop_last();
        let rest = frame_stream::listeners(front, id);
        let all = frame_stream::listeners(subs, id);
        law_listeners_are_those_who_subscribed(front, id, token);
        if subs.contains((id, token)) {
            let i = choose|i: int| 0 <= i < subs.len() && subs[i] == (id, token);
            if i < front.len() {
                assert(front[i] == (id, token));
                let k = choose|k: int| 0 <= k < rest.len() && rest[k] == token;
                assert(all[k] == token);
            } else {
                assert(all[rest.len() as int] == token);
            }
        }
        if all.contains(token) {
            let k = choose|k: int| 0 <= k < all.len() && all[k] == token;
            if k < rest.len() {
                assert(rest[k] == token);
                let i = choose|i: int| 0 <= i < front.len() && front[i] == (id, token);
                assert(subs[i] == (id, token));
            } else {
                assert(subs[subs.len() - 1] == (id, token));
            }
        }
        if exists|i: int| 0 <= i < subs.len() && (#[trigger] subs[i]).0 == id {
            let i = choose|i: int| 0 <= i < subs.len() && (#[trigger] subs[i]).0 == id;
            if i < front.len() {
                assert(front[i].0 == id);
            }
        }
        if all.len() > 0 {
            if subs.last().0 == id {
                assert(subs[subs.len() - 1].0 == id);
            } else {
                let i = choose|i: int| 0 <= i < front.len() && (#[trigger] front[i]).0 == id;
                assert(subs[i].0 == id);
            }
        }
    }
}

/// Frames are wanted exactly where the stream is switched on and someone listens.
pub proof fn law_frames_are_wanted_where_someone_listens(s: FrameStreamV, id: u32)
    ensures
        frame_stream::wanted(s, id) <==> s.enabled.contains(id) && exists|i: int|
            0 <= i < s.subs.len() && (#[trigger] s.subs[i]).0 == id,
{
    law_listeners_are_those_who_subscribed(s.subs, id, 0);
}

/// Switching a stream on or off is on record for that browser alone. On, nobody is sent away; off,
/// exactly its listeners are. The frame that waits, the port and the numbering stay.
pub proof fn law_switching_is_for_one_browser(
    s: FrameStreamV,
    id: u32,
    on: bool,
    other: u32,
    sub: (u32, u64),
)
    requires
        other != id,
    ensures
        ({
            let t = frame_stream::switched(s, id, on);
            &&& t.enabled.contains(id) == on
            &&& t.enabled.contains(other) == s.enabled.contains(other)
            &&& on ==> t.subs == s.subs
            &&& !on ==> (t.subs.contains(sub) <==> s.subs.contains(sub) && sub.0 != id)
            &&& t == (FrameStreamV { enabled: t.enabled, subs: t.subs, ..s })
        }),
{
    laws::lemma_filter_keeps(s.subs, frame_stream::elsewhere(id));
}

/// Connections that failed are dropped, all of them and no others.
pub proof fn law_failed_connections_are_dropped(
    subs: Seq<(u32, u64)>,
    failed: Seq<u64>,
    sub: (u32, u64),
)
    ensures
        frame_stream::alive(subs, failed).contains(sub) <==> subs.contains(sub) && !failed.contains(
            sub.1,
        ),
{
    laws::lemma_filter_keeps(subs, |b: (u32, u64)| !failed.contains(b.1));
}

/// A sign of life goes to every connection.
pub proof fn law_everyone_gets_a_sign_of_life(subs: Seq<(u32, u64)>, i: int)
    requires
        0 <= i < subs.len(),
    ensures
        frame_stream::tokens_of(subs).len() == subs.len(),
        frame_stream::tokens_of(subs)[i] == subs[i].1,
{
}

/// A browser that is to be seen is active for the grace time, and the pump will run; no other browser
/// is touched.
pub proof fn law_kicked_browser_is_painted(s: EngineV, id: u32, now: u64, other: u32)
    requires
        now + ACTIVE_GRACE_MS <= u64::MAX,
        other != id,
    ensures
        ({
            let t = frame_stream::kicked(s, id, now);
            &&& t.active_ids.contains_key(id) && t.active_ids[id] == now + ACTIVE_GRACE_MS
            &&& t.active_ids.contains_key(other) == s.active_ids.contains_key(other)
            &&& t.active_ids[other] == s.active_ids[other]
            &&& !s.no_tick ==> t.pump.tick_on
            &&& s.platform == Platform::MacOs ==> t.pump.scheduled
            &&& s.platform != Platform::MacOs ==> t.pump.due is Some && t.pump.due->0 <= now
            &&& t == (EngineV { active_ids: t.active_ids, pump: t.pump, ..s })
        }),
        ({
            let acts = frame_stream::kick_actions(s);
            let ticks = s.platform == Platform::MacOs && !s.no_tick && !s.pump.tick_on;
            let pumps = s.platform == Platform::MacOs && !s.pump.scheduled;
            &&& acts.len() == (if ticks { 1nat } else { 0 }) + (if pumps { 1nat } else { 0 })
            &&& ticks ==> acts[0] == Action::<Seq<char>, JsonV>::DispatchTick { delay_ms: 0 }
            &&& pumps ==> acts.last() == Action::<Seq<char>, JsonV>::DispatchPump { delay_ms: 0 }
        }),
{
}

// ── frames in ────────────────────────────────────────────────────────────────────────────────

/// A frame that is wanted waits for the encoder with its id and its size, and every byte of its rows
/// is where it belongs. One that has no rows to read, or whose rows lie too close, is black.
pub proof fn law_wanted_frames_wait_whole(
    s: FrameStreamV,
    id: u32,
    w: i32,
    h: i32,
    px: Pixels<'_>,
    y: nat,
    x: nat,
)
    requires
        s.enabled.contains(id),
        exists|i: int| 0 <= i < s.subs.len() && (#[trigger] s.subs[i]).0 == id,
        w > 0,
        h > 0,
        !(px is Unlocked),
        px matches Pixels::Rows { base, stride } ==> (stride >= 4 * w ==> base@.len() >= (h - 1)
            * stride + 4 * w),
        y < h,
        x < 4 * w,
    ensures
        ({
            let t = frame_stream::submitted(s, id, true, w, h, px);
            &&& t == (FrameStreamV { latest: t.latest, ..s })
            &&& t.latest matches Some(f) && f.id == id && f.w == w && f.h == h && f.bgra.len() == 4
                * (w * h) && f.bgra[(y * (4 * w) + x) as int] == (match px {
                Pixels::Rows { base, stride } => if stride >= 4 * w {
                    base@[(y * stride + x) as int]
                } else {
                    0u8
                },
                _ => 0u8,
            })
        }),
{
    law_frames_are_wanted_where_someone_listens(s, id);
    let wide = w as nat;
    let high = h as nat;
    let bytes = 4 * wide;
    assert(y * bytes + x < 4 * (w * h)) by (nonlinear_arith)
        requires
            y + 1 <= h,
            x < bytes,
            bytes == 4 * w,
            w > 0,
    ;
    assert(0 <= y * bytes) by (nonlinear_arith);
    assert(wide * high == w * h);
    if let Pixels::Rows { base, stride } = px {
        if stride >= bytes {
            laws::lemma_rows_len(base@, stride as nat, bytes, high);
            assert(high * bytes == 4 * (w * h)) by (nonlinear_arith)
                requires
                    bytes == 4 * wide,
                    wide == w,
                    high == h,
            ;
            laws::law_pixels_are_kept(base@, stride as nat, bytes, high, y, x);
        }
    }
}

/// Rows can be read where they all lie in the memory: the last one up to its last pixel. Rows that lie
/// too close together are not read.
pub proof fn law_rows_lie_in_the_memory(px: Pixels<'_>, w: nat, h: nat)
    requires
        h > 0,
    ensures
        !(px is Rows) ==> frame_stream::readable(px, w, h),
        px matches Pixels::Rows { base, stride } ==> (frame_stream::readable(px, w, h) <==> stride
            < 4 * w || base@.len() >= (h - 1) * stride + 4 * w),
{
}

/// A frame that nobody wants, or whose memory could not be locked, changes nothing.
pub proof fn law_unwanted_frames_are_not_taken(
    s: FrameStreamV,
    id: u32,
    has_surface: bool,
    w: i32,
    h: i32,
    px: Pixels<'_>,
)
    requires
        !has_surface || w <= 0 || h <= 0 || px is Unlocked || !s.enabled.contains(id) || forall|
            i: int,
        |
            0 <= i < s.subs.len() ==> (#[trigger] s.subs[i]).0 != id,
    ensures
        frame_stream::submitted(s, id, has_surface, w, h, px) == s,
{
    law_frames_are_wanted_where_someone_listens(s, id);
}

// ── frames out ───────────────────────────────────────────────────────────────────────────────

/// Whether `rgb` holds the colours of the `n` pixels of `bgra`, each as red, green and blue.
pub open spec fn same_colours(rgb: Seq<u8>, bgra: Seq<u8>, n: nat) -> bool {
    &&& rgb.len() == 3 * n
    &&& forall|i: int| 0 <= i < n ==> #[trigger] same_colour(rgb, bgra, i)
}

/// Whether pixel `i` of `rgb` has the red, green and blue of pixel `i` of `bgra`.
pub open spec fn same_colour(rgb: Seq<u8>, bgra: Seq<u8>, i: int) -> bool {
    &&& rgb[3 * i] == bgra[4 * i + 2]
    &&& rgb[3 * i + 1] == bgra[4 * i + 1]
    &&& rgb[3 * i + 2] == bgra[4 * i]
}

/// A frame is encoded upright: the encoder gets the frame's own width as the width, its own height
/// as the height, and its colours pixel by pixel.
pub proof fn law_frames_are_encoded_upright(frame: Frame)
    requires
        frame@.wf(),
        1 <= frame.w <= 65535,
        1 <= frame.h <= 65535,
    ensures
        exists|rgb: Seq<u8>|
            same_colours(rgb, frame.bgra@, frame.w as nat * frame.h as nat)
                && frame_stream::encoded(frame) == Some(
                #[trigger] frame_stream::jpeg_bytes(rgb, frame.w as u16, frame.h as u16, 72),
            ),
{
    let n = frame.w as nat * frame.h as nat;
    let rgb = frame_stream::rgb_of(frame.bgra@, n);
    laws::lemma_rgb_len(frame.bgra@, n);
    assert forall|i: int| 0 <= i < n implies #[trigger] same_colour(rgb, frame.bgra@, i) by {
        laws::law_colours_are_kept(frame.bgra@, n, i);
    }
    assert(same_colours(rgb, frame.bgra@, n));
    assert(frame_stream::encoded(frame) == Some(
        frame_stream::jpeg_bytes(rgb, frame.w as u16, frame.h as u16, 72),
    ));
}

/// A frame of which nothing is left in 16 bits of width or of height cannot be encoded.
pub proof fn law_frames_without_a_size_are_not_encoded(frame: Frame)
    requires
        frame.w as u16 == 0 || frame.h as u16 == 0,
    ensures
        frame_stream::encoded(frame) is None,
{
}

/// What is sent of an encoded frame is the frame, byte for byte, behind a head that says how long it
/// is and before the end of a line; and it goes to those who listen to that browser.
pub proof fn law_parts_carry_the_frame(
    r: Sending,
    s: FrameStreamV,
    id: u32,
    jpeg: Seq<u8>,
    token: u64,
)
    requires
        frame_stream::sends_frame(r, s, id, jpeg),
    ensures
        r.body@ == jpeg,
        r.tokens@.contains(token) <==> s.subs.contains((id, token)),
        r.head@ == "--sksframe\r\nContent-Type: image/jpeg\r\nContent-Length: "@ + text::decimal(
            jpeg.len(),
        ) + "\r\n\r\n"@,
        r.tail@ == "\r\n"@,
{
    law_listeners_are_those_who_subscribed(s.subs, id, token);
}

// ── requests for a stream ────────────────────────────────────────────────────────────────────

/// No character of `s` is white space.
pub open spec fn solid(s: Seq<char>) -> bool {
    forall|i: int| 0 <= i < s.len() ==> !frame_stream::is_space(#[trigger] s[i])
}

/// Every character of `s` is white space.
pub open spec fn blank(s: Seq<char>) -> bool {
    forall|i: int| 0 <= i < s.len() ==> frame_stream::is_space(#[trigger] s[i])
}

/// White space parts words, however much of it there is, and none of it belongs to them.
pub proof fn law_white_space_parts_words(
    lead: Seq<char>,
    first: Seq<char>,
    gap: Seq<char>,
    second: Seq<char>,
    tail: Seq<char>,
)
    requires
        blank(lead),
        first.len() > 0 && solid(first),
        gap.len() > 0 && blank(gap),
        second.len() > 0 && solid(second),
        tail.len() == 0 || frame_stream::is_space(tail[0]),
    ensures
        ({
            let line = lead + first + gap + second + tail;
            &&& frame_stream::first_word(line) == Some(first)
            &&& frame_stream::second_word(line) == Some(second)
        }),
{
    let line = lead + first + gap + second + tail;
    let a = lead.len() as int;
    let b = a + first.len();
    let c = b + gap.len();
    let d = c + second.len();
    assert forall|i: int| 0 <= i < a implies line[i] == lead[i] by {}
    assert forall|i: int| a <= i < b implies line[i] == first[i - a] by {}
    assert forall|i: int| b <= i < c implies line[i] == gap[i - b] by {}
    assert forall|i: int| c <= i < d implies line[i] == second[i - c] by {}
    laws::lemma_scan(line, 0, a, Class::Solid);
    assert(line[a] == first[0]);
    assert(frame_stream::scan(line, a, Class::Solid) == a);
    laws::lemma_scan(line, a, b, Class::Space);
    assert(line[b] == gap[0]);
    assert(frame_stream::scan(line, b, Class::Space) == b);
    laws::lemma_scan(line, b, c, Class::Solid);
    assert(line[c] == second[0]);
    assert(frame_stream::scan(line, c, Class::Solid) == c);
    laws::lemma_scan(line, c, d, Class::Space);
    if d < line.len() {
        assert(line[d] == tail[0]);
    }
    assert(frame_stream::scan(line, d, Class::Space) == d);
    assert(line.subrange(a, b) =~= first);
    assert(line.subrange(c, d) =~= second);
}

/// Where there is no second word none is found, and no first where everything is white space.
pub proof fn law_missing_words_are_not_found(
    lead: Seq<char>,
    only: Seq<char>,
    tail: Seq<char>,
)
    requires
        blank(lead),
        only.len() > 0 && solid(only),
        blank(tail),
    ensures
        frame_stream::first_word(lead) is None,
        frame_stream::second_word(lead) is None,
        frame_stream::second_word(lead + only + tail) is None,
{
    let none = lead.len() as int;
    laws::lemma_scan(lead, 0, none, Class::Solid);
    laws::lemma_scan_end(lead, none, Class::Space);
    let line = lead + only + tail;
    let a = lead.len() as int;
    let b = a + only.len();
    assert forall|i: int| 0 <= i < a implies line[i] == lead[i] by {}
    assert forall|i: int| a <= i < b implies line[i] == only[i - a] by {}
    assert forall|i: int| b <= i < line.len() implies line[i] == tail[i - b] by {}
    laws::lemma_scan(line, 0, a, Class::Solid);
    assert(line[a] == only[0]);
    assert(frame_stream::scan(line, a, Class::Solid) == a);
    laws::lemma_scan(line, a, b, Class::Space);
    if b < line.len() {
        assert(line[b] == tail[0]);
    }
    assert(frame_stream::scan(line, b, Class::Space) == b);
    laws::lemma_scan(line, b, line.len() as int, Class::Solid);
}

/// A browser is asked for only by a number that is written out in full: digits, after an optional
/// plus sign, between `/s/` and the end of the path, a dot or a question mark.
pub proof fn law_streams_are_asked_for_by_number(head: Seq<char>, id: u32)
    requires
        frame_stream::requested(head) == Some(id),
    ensures
        exists|line: Seq<char>, name: Seq<char>, rest: Seq<char>|
            #![trigger frame_stream::second_word(line), name + rest]
            {
                &&& line.is_prefix_of(head)
                &&& frame_stream::first_word(line) == Some("GET"@)
                &&& frame_stream::second_word(line) == Some("/s/"@ + (name + rest))
                &&& rest.len() == 0 || rest[0] == '.' || rest[0] == '?'
                &&& names_number(name, id as nat)
            },
{
    let line = head.take(frame_stream::scan(head, 0, Class::LineEnd));
    laws::lemma_scan_end(head, 0, Class::LineEnd);
    let path = frame_stream::second_word(line)->0;
    let after = path.skip("/s/"@.len() as int);
    let stop = frame_stream::scan(after, 0, Class::PathEnd);
    laws::lemma_scan_end(after, 0, Class::PathEnd);
    lemma_scan_hit(after, 0, Class::PathEnd);
    let name = after.take(stop);
    let rest = after.skip(stop);
    assert(line.is_prefix_of(head)) by {
        assert(line =~= head.take(line.len() as int));
    }
    assert("/s/"@ =~= path.take("/s/"@.len() as int));
    assert(path =~= "/s/"@ + (name + rest));
    assert(names_number(name, id as nat));
    assert(frame_stream::second_word(line) == Some("/s/"@ + (name + rest)));
}

proof fn lemma_scan_hit(s: Seq<char>, from: int, class: Class)
    requires
        0 <= from <= s.len(),
    ensures
        ({
            let at = frame_stream::scan(s, from, class);
            at < s.len() ==> frame_stream::in_class(s[at], class)
        }),
    decreases s.len() - from,
{
    if from < s.len() && !frame_stream::in_class(s[from], class) {
        lemma_scan_hit(s, from + 1, class);
    }
}

/// `s` writes the number `n`: digits, after an optional plus sign.
pub open spec fn names_number(s: Seq<char>, n: nat) -> bool {
    let digits = if s.len() > 0 && s[0] == '+' {
        s.skip(1)
    } else {
        s
    };
    &&& digits.len() > 0
    &&& forall|i: int| 0 <= i < digits.len() ==> '0' <= #[trigger] digits[i] && digits[i] <= '9'
    &&& text::digits_value(digits) == n
}

/// A request for a stream is welcomed, every other one is turned away.
pub proof fn law_answers_differ(id: Option<u32>)
    ensures
        "HTTP/1.1 200 OK\r\n"@.is_prefix_of(frame_stream::response_for(id)) <==> id is Some,
        "HTTP/1.1 404 Not Found\r\n"@.is_prefix_of(frame_stream::response_for(id)) <==> id is None,
{
    reveal_strlit("HTTP/1.1 200 OK\r\n");
    reveal_strlit("HTTP/1.1 404 Not Found\r\n");
    reveal_strlit(
        "HTTP/1.1 200 OK\r\nContent-Type: application/octet-stream\r\nAccess-Control-Allow-Origin: *\r\nCache-Control: no-store\r\nConnection: close\r\n\r\n",
    );
    reveal_strlit("HTTP/1.1 404 Not Found\r\nConnection: close\r\n\r\n");
    let r = frame_stream::response_for(id);
    let yes = "HTTP/1.1 200 OK\r\n"@;
    let no = "HTTP/1.1 404 Not Found\r\n"@;
    assert(yes[9] == '2' && no[9] == '4');
    if id is Some {
        assert(r.take(yes.len() as int) =~= yes);
        assert(r[9] == '2');
        assert(!no.is_prefix_of(r)) by {
            if no.is_prefix_of(r) {
                assert(r.subrange(0, no.len() as int)[9] == r[9]);
            }
        }
    } else {
        assert(r.take(no.len() as int) =~= no);
        assert(r[9] == '4');
        assert(!yes.is_prefix_of(r)) by {
            if yes.is_prefix_of(r) {
                assert(r.subrange(0, yes.len() as int)[9] == r[9]);
            }
        }
    }
}

}
