//! What an offscreen browser asks and delivers: its size, its screen, its popup widget, its frames.

use vstd::prelude::*;

use crate::engine;
use crate::engine::{Engine, EngineV};
use crate::handlers;
use crate::presenter;
use crate::presenter::{Frame, Note, PopupStep, PresentStep};

verus! {

broadcast use vstd::std_specs::hash::group_hash_axioms;

/// The logical size of the browser that `cid` names: that of its surface, or that of the browser
/// being made, or one by one.
pub open spec fn size_of(s: EngineV, cid: Option<i32>) -> (i32, i32) {
    match handlers::offscreen_source(s, cid) {
        Some(id) => (s.surfaces.surfs[id].log_w, s.surfaces.surfs[id].log_h),
        None => match s.osr_creating {
            Some(c) => (c.0, c.1),
            None => (1, 1),
        },
    }
}

/// The scale of the browser that `cid` names, as the bits of a single precision number.
pub open spec fn scale_bits(s: EngineV, cid: Option<i32>) -> u32 {
    match handlers::offscreen_source(s, cid) {
        Some(id) => s.surfaces.surfs[id].scale,
        None => match s.osr_creating {
            Some(c) => c.2,
            None => 0x3f80_0000,
        },
    }
}

fn find_size(e: &Engine, cid: Option<i32>) -> (r: (i32, i32))
    ensures
        r == size_of(e@, cid),
{
    if let Some(id) = engine::source_of(e, cid) {
        if let Some(size) = presenter::logical_size(&e.surfaces, id) {
            return size;
        }
    }
    match e.osr_creating {
        Some(c) => (c.0, c.1),
        None => (1, 1),
    }
}

/// The rectangle that the browser draws into: at least one by one.
pub open spec fn view_of(s: EngineV, cid: Option<i32>) -> Frame {
    Frame {
        x: 0,
        y: 0,
        w: presenter::clamped(size_of(s, cid).0),
        h: presenter::clamped(size_of(s, cid).1),
    }
}

/// The rectangle that the browser draws into: at least one by one.
pub fn view_rect(e: &Engine, cid: Option<i32>) -> (r: Frame)
    ensures
        r == view_of(e@, cid),
{
    let (w, h) = find_size(e, cid);
    Frame { x: 0, y: 0, w: presenter::at_least_one(w), h: presenter::at_least_one(h) }
}

/// The screen that a browser is told of.
#[derive(Clone, Copy, Debug, PartialEq, Eq, Structural)]
pub struct Screen {
    /// The bits of a single precision number.
    pub scale: u32,
    pub depth: i32,
    pub depth_per_component: i32,
    pub rect: Frame,
}

/// The screen that the browser is told of.
pub open spec fn screen_of(s: EngineV, cid: Option<i32>) -> Screen {
    Screen {
        scale: scale_bits(s, cid),
        depth: 32,
        depth_per_component: 8,
        rect: Frame { x: 0, y: 0, w: size_of(s, cid).0, h: size_of(s, cid).1 },
    }
}

/// The screen that the browser is told of.
pub fn screen_info(e: &Engine, cid: Option<i32>) -> (r: Screen)
    ensures
        r == screen_of(e@, cid),
{
    let known = match engine::source_of(e, cid) {
        Some(id) => presenter::scale_of(&e.surfaces, id),
        None => None,
    };
    let scale: u32 = match known {
        Some(bits) => bits,
        None => match e.osr_creating {
            Some(c) => c.2,
            None => 0x3f80_0000,
        },
    };
    let (w, h) = find_size(e, cid);
    Screen { scale, depth: 32, depth_per_component: 8, rect: Frame { x: 0, y: 0, w, h } }
}

/// The popup widget opens (`show` is not 0) or closes. Returns the browser and what its popup layer
/// needs.
pub fn on_popup_show(e: &mut Engine, cid: Option<i32>, show: i32) -> (r: Option<(u32, PopupStep)>)
    ensures
        match engine::source_id(old(e)@, cid) {
            Some(id) => {
                &&& final(e)@ == (EngineV {
                    surfaces: presenter::popup_shown(old(e)@.surfaces, id, show != 0),
                    ..old(e)@
                })
                &&& r == Some(
                    (
                        id,
                        presenter::popup_step(
                            old(e)@.surfaces,
                            old(e)@.platform,
                            id,
                            show != 0,
                        ),
                    ),
                )
            },
            None => final(e)@ == old(e)@ && r is None,
        },
{
    match engine::source_of(e, cid) {
        Some(id) => {
            let platform = e.platform;
            Some((id, presenter::popup_show(&mut e.surfaces, platform, id, show != 0)))
        },
        None => None,
    }
}

/// The popup widget has a rectangle. Returns its layer, where there is one, and the layer's frame.
pub fn on_popup_size(e: &mut Engine, cid: Option<i32>, rect: Option<Frame>) -> (r: Option<
    (usize, Frame),
>)
    ensures
        match (engine::source_id(old(e)@, cid), rect) {
            (Some(id), Some(f)) => {
                &&& final(e)@ == (EngineV {
                    surfaces: presenter::popup_placed(old(e)@.surfaces, id, f),
                    ..old(e)@
                })
                &&& r == (if old(e)@.surfaces.has(id) && old(e)@.surfaces.surfs[id].popup_layer
                    != 0 {
                    Some(
                        (
                            old(e)@.surfaces.surfs[id].popup_layer,
                            presenter::popup_frame(final(e)@.surfaces.surfs[id]),
                        ),
                    )
                } else {
                    None
                })
            },
            _ => final(e)@ == old(e)@ && r is None,
        },
{
    match engine::source_of(e, cid) {
        Some(id) => match rect {
            Some(f) => presenter::popup_rect(&mut e.surfaces, id, f.x, f.y, f.w, f.h),
            None => None,
        },
        None => None,
    }
}

/// A frame came as a shared texture of `w` by `h` pixels, for the browser's view or for its popup.
/// `has_surface` says whether there is a texture, `gpu` whether there is a device to copy it with.
/// Returns the browser and what is to be done with the frame.
pub fn on_accelerated_paint(
    e: &Engine,
    cid: Option<i32>,
    popup: bool,
    has_surface: bool,
    w: i32,
    h: i32,
    gpu: bool,
) -> (r: Option<(u32, PresentStep)>)
    requires
        e@.surfaces.wf(),
    ensures
        r == (match engine::source_id(e@, cid) {
            Some(id) => Some(
                (
                    id,
                    presenter::present_step(
                        e@.surfaces,
                        e@.platform,
                        id,
                        has_surface,
                        w,
                        h,
                        gpu,
                        popup,
                    ),
                ),
            ),
            None => None,
        }),
{
    match engine::source_of(e, cid) {
        Some(id) => if popup {
            Some((id, presenter::present_popup(&e.surfaces, e.platform, id, has_surface, w, h, gpu)))
        } else {
            Some((id, presenter::present(&e.surfaces, e.platform, id, has_surface, w, h, gpu)))
        },
        None => None,
    }
}

/// A frame came as pixels in memory. Returns the browser and what is to be reported.
pub fn on_paint(
    e: &mut Engine,
    cid: Option<i32>,
    popup: bool,
    has_buffer: bool,
    w: i32,
    h: i32,
) -> (r: Option<(u32, Note)>)
    ensures
        match (engine::source_id(old(e)@, cid), presenter::cpu_note(
            old(e)@.platform,
            has_buffer,
            w,
            h,
        )) {
            (Some(id), Some(note)) => if popup {
                final(e)@ == old(e)@ && r is None
            } else {
                &&& final(e)@ == (EngineV {
                    surfaces: old(e)@.surfaces.reported(id, note),
                    ..old(e)@
                })
                &&& r == (if old(e)@.surfaces.noted.contains((id, note)) {
                    None
                } else {
                    Some((id, note))
                })
            },
            _ => final(e)@ == old(e)@ && r is None,
        },
{
    if popup {
        return None;
    }
    match engine::source_of(e, cid) {
        Some(id) => {
            let platform = e.platform;
            match presenter::present_cpu(&mut e.surfaces, platform, id, has_buffer, w, h) {
                Some(note) => Some((id, note)),
                None => None,
            }
        },
        None => None,
    }
}

}
