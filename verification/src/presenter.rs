//! Offscreen surfaces: what is known of each, and the decisions of the frame path. Native handles
//! are plain integers here; the caller owns the objects behind them.

use std::collections::HashMap;

use vstd::prelude::*;
use vstd::string::*;

use crate::text;

verus! {

broadcast use vstd::std_specs::hash::group_hash_axioms;

/// The system that the engine runs on.
#[derive(Clone, Copy, Debug, PartialEq, Eq, Structural)]
pub enum Platform {
    MacOs,
    Windows,
    Linux,
}

/// Frames in a pool: the compositor may still read the last one while the next is written.
pub const POOL: usize = 3;

/// The frame buffers of one target, of `w` by `h` pixels, used in turn. A slot that could not be
/// made holds 0, and is skipped.
#[derive(Clone, Copy, Debug)]
pub struct Pool {
    pub slots: [usize; 3],
    pub tex: [usize; 3],
    pub w: i32,
    pub h: i32,
    pub next: usize,
}

impl Pool {
    /// The slot to use next exists.
    pub open spec fn wf(self) -> bool {
        self.next < POOL
    }

    /// A pool without buffers.
    pub fn empty() -> (p: Pool)
        ensures
            p == pool_of([0usize, 0, 0], [0usize, 0, 0], 0, 0),
            p.wf(),
    {
        Pool { slots: [0, 0, 0], tex: [0, 0, 0], w: 0, h: 0, next: 0 }
    }
}

/// A pool of the given buffers, none used yet.
pub open spec fn pool_of(slots: [usize; 3], tex: [usize; 3], w: i32, h: i32) -> Pool {
    Pool { slots, tex, w, h, next: 0 }
}

/// A rectangle.
#[derive(Clone, Copy, Debug, PartialEq, Eq, Structural)]
pub struct Frame {
    pub x: i32,
    pub y: i32,
    pub w: i32,
    pub h: i32,
}

/// What is known of one offscreen surface: its native view and layer, the scale (bits of a
/// single-precision number) fixed when it was made, the logical size that the engine is told, and
/// the popup widget drawn above it.
#[derive(Clone, Copy, Debug)]
pub struct Surf {
    pub view: usize,
    pub layer: usize,
    pub scale: u32,
    pub log_w: i32,
    pub log_h: i32,
    pub hidden: bool,
    pub pool: Pool,
    pub popup_layer: usize,
    pub popup_shown: bool,
    pub popup_rect: Frame,
    pub popup_pool: Pool,
}

impl Surf {
    /// The surface reports a size of at least one by one, and both pools are usable.
    pub open spec fn wf(self) -> bool {
        &&& self.log_w >= 1
        &&& self.log_h >= 1
        &&& self.pool.wf()
        &&& self.popup_pool.wf()
    }
}

/// What a surface can have to report; each is reported once per surface.
#[derive(Clone, Copy, Debug, PartialEq, Eq, Structural)]
pub enum Note {
    CpuFrameDropped,
    GpuMissing,
    PoolFailed,
    SourceFailed,
    FirstFrame,
    FirstPopupFrame,
    SurfacePending,
    PresentPending,
    PopupPresentPending,
    CpuPresentPending,
}

/// The offscreen surfaces by engine id, the notes already reported, and the count of frames shown.
#[derive(Debug)]
pub struct Surfaces {
    pub surfs: HashMap<u32, Surf>,
    pub noted: Vec<(u32, Note)>,
    pub frames_presented: u64,
}

/// The model of [`Surfaces`].
#[verifier::ext_equal]
pub struct SurfacesV {
    pub surfs: Map<u32, Surf>,
    pub noted: Set<(u32, Note)>,
    pub frames_presented: u64,
}

impl View for Surfaces {
    type V = SurfacesV;

    open spec fn view(&self) -> SurfacesV {
        SurfacesV {
            surfs: self.surfs@,
            noted: self.noted@.to_set(),
            frames_presented: self.frames_presented,
        }
    }
}

impl SurfacesV {
    /// Every surface is well formed.
    pub open spec fn wf(self) -> bool {
        forall|id: u32| #[trigger] self.surfs.contains_key(id) ==> self.surfs[id].wf()
    }

    /// `id` is an offscreen surface.
    pub open spec fn has(self, id: u32) -> bool {
        self.surfs.contains_key(id)
    }

    /// The same, with surface `id` replaced by `surf`.
    pub open spec fn with(self, id: u32, surf: Surf) -> SurfacesV {
        SurfacesV { surfs: self.surfs.insert(id, surf), ..self }
    }

    /// The same, with `note` of surface `id` reported.
    pub open spec fn reported(self, id: u32, note: Note) -> SurfacesV {
        SurfacesV { noted: self.noted.insert((id, note)), ..self }
    }
}

/// `v`, but not below one.
pub open spec fn clamped(v: i32) -> i32 {
    if v < 1 {
        1
    } else {
        v
    }
}

/// `v`, but not below one.
pub fn at_least_one(v: i32) -> (r: i32)
    ensures
        r == clamped(v),
{
    if v < 1 {
        1
    } else {
        v
    }
}

impl Surfaces {
    /// No surface yet.
    pub fn new() -> (s: Surfaces)
        ensures
            s@ == (SurfacesV {
                surfs: Map::empty(),
                noted: Set::empty(),
                frames_presented: 0,
            }),
            s@.wf(),
    {
        Surfaces { surfs: HashMap::new(), noted: Vec::new(), frames_presented: 0 }
    }
}

/// Whether `id` is an offscreen surface.
pub fn is_offscreen(s: &Surfaces, id: u32) -> (r: bool)
    ensures
        r == s@.has(id),
{
    s.surfs.contains_key(&id)
}

/// The logical size of surface `id`.
pub fn logical_size(s: &Surfaces, id: u32) -> (r: Option<(i32, i32)>)
    ensures
        r == (if s@.has(id) {
            Some((s@.surfs[id].log_w, s@.surfs[id].log_h))
        } else {
            None
        }),
{
    match s.surfs.get(&id) {
        Some(surf) => Some((surf.log_w, surf.log_h)),
        None => None,
    }
}

/// The scale of surface `id`, as bits.
pub fn scale_of(s: &Surfaces, id: u32) -> (r: Option<u32>)
    ensures
        r == (if s@.has(id) {
            Some(s@.surfs[id].scale)
        } else {
            None
        }),
{
    match s.surfs.get(&id) {
        Some(surf) => Some(surf.scale),
        None => None,
    }
}

/// A surface as it is when made: shown, without frames, without a popup.
pub open spec fn fresh_surf(view: usize, layer: usize, w: i32, h: i32, scale: u32) -> Surf {
    Surf {
        view,
        layer,
        scale,
        log_w: clamped(w),
        log_h: clamped(h),
        hidden: false,
        pool: pool_of([0usize, 0, 0], [0usize, 0, 0], 0, 0),
        popup_layer: 0,
        popup_shown: false,
        popup_rect: Frame { x: 0, y: 0, w: 0, h: 0 },
        popup_pool: pool_of([0usize, 0, 0], [0usize, 0, 0], 0, 0),
    }
}

/// Surfaces `s` after surface `id` was made under the parent handle `parent`.
pub open spec fn surface_made(
    s: SurfacesV,
    platform: Platform,
    id: u32,
    parent: usize,
    w: i32,
    h: i32,
    scale: u32,
    view: usize,
    layer: usize,
) -> SurfacesV {
    if parent == 0 {
        s
    } else {
        let made = s.with(id, fresh_surf(view, layer, w, h, scale));
        if platform == Platform::MacOs {
            made
        } else {
            made.reported(id, Note::SurfacePending)
        }
    }
}

/// Registers surface `id` under the parent handle `parent`; without a parent nothing happens.
/// Returns the note to report, if there is a new one.
pub fn create_surface(
    s: &mut Surfaces,
    platform: Platform,
    id: u32,
    parent: usize,
    w: i32,
    h: i32,
    scale: u32,
    view: usize,
    layer: usize,
) -> (r: Option<Note>)
    ensures
        final(s)@ == surface_made(old(s)@, platform, id, parent, w, h, scale, view, layer),
        r == (if parent != 0 && platform != Platform::MacOs && !old(s)@.noted.contains(
            (id, Note::SurfacePending),
        ) {
            Some(Note::SurfacePending)
        } else {
            None
        }),
{
    if parent == 0 {
        return None;
    }
    let surf = Surf {
        view,
        layer,
        scale,
        log_w: at_least_one(w),
        log_h: at_least_one(h),
        hidden: false,
        pool: Pool::empty(),
        popup_layer: 0,
        popup_shown: false,
        popup_rect: Frame { x: 0, y: 0, w: 0, h: 0 },
        popup_pool: Pool::empty(),
    };
    s.surfs.insert(id, surf);
    if platform != Platform::MacOs && log_once(s, id, Note::SurfacePending) {
        Some(Note::SurfacePending)
    } else {
        None
    }
}

/// Surfaces `s` after new bounds for `id`.
pub open spec fn bounds_set(s: SurfacesV, id: u32, w: i32, h: i32) -> SurfacesV {
    if s.has(id) {
        s.with(id, Surf { log_w: clamped(w), log_h: clamped(h), ..s.surfs[id] })
    } else {
        s
    }
}

/// Gives surface `id` the logical size `w` by `h` and returns its native view, whose frame is to
/// follow.
pub fn set_bounds(s: &mut Surfaces, id: u32, w: i32, h: i32) -> (r: Option<usize>)
    ensures
        final(s)@ == bounds_set(old(s)@, id, w, h),
        r == (if old(s)@.has(id) {
            Some(old(s)@.surfs[id].view)
        } else {
            None
        }),
{
    let found: Option<Surf> = match s.surfs.get(&id) {
        Some(surf) => Some(*surf),
        None => None,
    };
    match found {
        Some(surf) => {
            let mut now = surf;
            now.log_w = at_least_one(w);
            now.log_h = at_least_one(h);
            s.surfs.insert(id, now);
            Some(surf.view)
        },
        None => None,
    }
}

/// Surfaces `s` after `id` is hidden or shown.
pub open spec fn hidden_set(s: SurfacesV, id: u32, hidden: bool) -> SurfacesV {
    if s.has(id) {
        s.with(id, Surf { hidden, ..s.surfs[id] })
    } else {
        s
    }
}

/// Records whether surface `id` is hidden and returns its native view, which is to follow.
pub fn set_hidden(s: &mut Surfaces, id: u32, hidden: bool) -> (r: Option<usize>)
    ensures
        final(s)@ == hidden_set(old(s)@, id, hidden),
        r == (if old(s)@.has(id) {
            Some(old(s)@.surfs[id].view)
        } else {
            None
        }),
{
    let found: Option<Surf> = match s.surfs.get(&id) {
        Some(surf) => Some(*surf),
        None => None,
    };
    match found {
        Some(surf) => {
            let mut now = surf;
            now.hidden = hidden;
            s.surfs.insert(id, now);
            Some(surf.view)
        },
        None => None,
    }
}

/// Surfaces `s` without `id`.
pub open spec fn destroyed(s: SurfacesV, id: u32) -> SurfacesV {
    SurfacesV { surfs: s.surfs.remove(id), ..s }
}

/// Forgets surface `id` and hands it back, so that its native objects can be released.
pub fn destroy(s: &mut Surfaces, id: u32) -> (r: Option<Surf>)
    ensures
        final(s)@ == destroyed(old(s)@, id),
        r == (if old(s)@.has(id) {
            Some(old(s)@.surfs[id])
        } else {
            None
        }),
{
    s.surfs.remove(&id)
}

// ── the popup widget ─────────────────────────────────────────────────────────────────────────

/// The frame of the popup layer of `surf`: a layer counts from the bottom left corner, the popup
/// rectangle from the top left.
pub open spec fn popup_frame(surf: Surf) -> Frame {
    Frame {
        x: surf.popup_rect.x,
        y: surf.log_h.wrapping_sub(surf.popup_rect.y).wrapping_sub(surf.popup_rect.h),
        w: clamped(surf.popup_rect.w),
        h: clamped(surf.popup_rect.h),
    }
}

/// The frame of the popup layer of `surf`.
pub fn apply_popup_frame(surf: &Surf) -> (r: Frame)
    ensures
        r == popup_frame(*surf),
{
    Frame {
        x: surf.popup_rect.x,
        y: surf.log_h.wrapping_sub(surf.popup_rect.y).wrapping_sub(surf.popup_rect.h),
        w: at_least_one(surf.popup_rect.w),
        h: at_least_one(surf.popup_rect.h),
    }
}

/// What the popup layer needs after a change.
#[derive(Clone, Copy, Debug, PartialEq, Eq, Structural)]
pub enum PopupStep {
    Nothing,
    /// Make a sublayer of `root` with contents scale `scale`, then report it made.
    MakeLayer { root: usize, scale: u32 },
    /// Give the layer its frame and show it.
    Show { layer: usize, frame: Frame },
    /// Hide the layer and drop its contents.
    Hide { layer: usize },
}

/// Surfaces `s` after the popup of `id` opens or closes.
pub open spec fn popup_shown(s: SurfacesV, id: u32, show: bool) -> SurfacesV {
    if s.has(id) {
        s.with(id, Surf { popup_shown: show, ..s.surfs[id] })
    } else {
        s
    }
}

/// What the popup layer of `id` needs when the popup opens or closes.
pub open spec fn popup_step(s: SurfacesV, platform: Platform, id: u32, show: bool) -> PopupStep {
    if platform != Platform::MacOs || !s.has(id) {
        PopupStep::Nothing
    } else if show {
        if s.surfs[id].popup_layer == 0 {
            PopupStep::MakeLayer { root: s.surfs[id].layer, scale: s.surfs[id].scale }
        } else {
            PopupStep::Show { layer: s.surfs[id].popup_layer, frame: popup_frame(s.surfs[id]) }
        }
    } else if s.surfs[id].popup_layer != 0 {
        PopupStep::Hide { layer: s.surfs[id].popup_layer }
    } else {
        PopupStep::Nothing
    }
}

/// The popup widget of surface `id` opens or closes. The layer is made when first needed.
pub fn popup_show(s: &mut Surfaces, platform: Platform, id: u32, show: bool) -> (r: PopupStep)
    ensures
        final(s)@ == popup_shown(old(s)@, id, show),
        r == popup_step(old(s)@, platform, id, show),
{
    let found: Option<Surf> = match s.surfs.get(&id) {
        Some(surf) => Some(*surf),
        None => None,
    };
    match found {
        Some(surf) => {
            let mut now = surf;
            now.popup_shown = show;
            s.surfs.insert(id, now);
            if platform != Platform::MacOs {
                PopupStep::Nothing
            } else if show {
                if surf.popup_layer == 0 {
                    PopupStep::MakeLayer { root: surf.layer, scale: surf.scale }
                } else {
                    PopupStep::Show { layer: surf.popup_layer, frame: apply_popup_frame(&surf) }
                }
            } else if surf.popup_layer != 0 {
                PopupStep::Hide { layer: surf.popup_layer }
            } else {
                PopupStep::Nothing
            }
        },
        None => PopupStep::Nothing,
    }
}

/// Surfaces `s` after the popup layer of `id` was made.
pub open spec fn popup_layered(s: SurfacesV, id: u32, layer: usize) -> SurfacesV {
    if s.has(id) {
        s.with(id, Surf { popup_layer: layer, ..s.surfs[id] })
    } else {
        s
    }
}

/// The popup layer of surface `id` was made: it is recorded, and is to be given its frame and
/// shown.
pub fn popup_layer_made(s: &mut Surfaces, id: u32, layer: usize) -> (r: PopupStep)
    ensures
        final(s)@ == popup_layered(old(s)@, id, layer),
        r == (if old(s)@.has(id) {
            PopupStep::Show { layer, frame: popup_frame(old(s)@.surfs[id]) }
        } else {
            PopupStep::Nothing
        }),
{
    let found: Option<Surf> = match s.surfs.get(&id) {
        Some(surf) => Some(*surf),
        None => None,
    };
    match found {
        Some(surf) => {
            let mut now = surf;
            now.popup_layer = layer;
            s.surfs.insert(id, now);
            PopupStep::Show { layer, frame: apply_popup_frame(&surf) }
        },
        None => PopupStep::Nothing,
    }
}

/// Surfaces `s` after the popup of `id` gets the rectangle `rect`.
pub open spec fn popup_placed(s: SurfacesV, id: u32, rect: Frame) -> SurfacesV {
    if s.has(id) {
        s.with(id, Surf { popup_rect: rect, ..s.surfs[id] })
    } else {
        s
    }
}

/// Records the rectangle of the popup widget of surface `id` (from the top left corner of the
/// view); where the popup layer exists, returns it with its new frame.
pub fn popup_rect(s: &mut Surfaces, id: u32, x: i32, y: i32, w: i32, h: i32) -> (r: Option<
    (usize, Frame),
>)
    ensures
        final(s)@ == popup_placed(old(s)@, id, (Frame { x, y, w, h })),
        r == (if old(s)@.has(id) && old(s)@.surfs[id].popup_layer != 0 {
            Some((old(s)@.surfs[id].popup_layer, popup_frame(final(s)@.surfs[id])))
        } else {
            None
        }),
{
    let found: Option<Surf> = match s.surfs.get(&id) {
        Some(surf) => Some(*surf),
        None => None,
    };
    match found {
        Some(surf) => {
            let mut now = surf;
            now.popup_rect = Frame { x, y, w, h };
            s.surfs.insert(id, now);
            if now.popup_layer != 0 {
                Some((now.popup_layer, apply_popup_frame(&now)))
            } else {
                None
            }
        },
        None => None,
    }
}

// ── frames ───────────────────────────────────────────────────────────────────────────────────

/// Reports `note` of surface `id`, unless that was done before. Returns whether it is new.
pub fn log_once(s: &mut Surfaces, id: u32, note: Note) -> (r: bool)
    ensures
        final(s)@ == old(s)@.reported(id, note),
        r == !old(s)@.noted.contains((id, note)),
{
    let mut i: usize = 0;
    while i < s.noted.len()
        invariant
            i <= s.noted@.len(),
            forall|j: int| 0 <= j < i ==> s.noted@[j] != (id, note),
            *s == *old(s),
        decreases s.noted@.len() - i,
    {
        if s.noted[i].0 == id && s.noted[i].1 == note {
            assert(s.noted@.contains((id, note)));
            assert(s@.noted.insert((id, note)) =~= s@.noted);
            return false;
        }
        i = i + 1;
    }
    let ghost before = s.noted@;
    s.noted.push((id, note));
    proof {
        before.lemma_push_to_set_commute((id, note));
        assert(s.noted@.to_set() =~= before.to_set().insert((id, note)));
    }
    true
}

/// The handles that a pool owns: of each slot the texture, then the surface, where they exist.
pub open spec fn pool_handles(pool: Pool, upto: int) -> Seq<usize>
    decreases upto,
{
    if upto <= 0 {
        Seq::empty()
    } else {
        let i = upto - 1;
        let before = pool_handles(pool, i);
        let with_tex = if pool.tex[i] != 0 {
            before.push(pool.tex[i])
        } else {
            before
        };
        if pool.slots[i] != 0 {
            with_tex.push(pool.slots[i])
        } else {
            with_tex
        }
    }
}

/// The handles to release when `pool` goes: of each slot the texture, then the surface.
pub fn release_pool(pool: &Pool) -> (r: Vec<usize>)
    ensures
        r@ == pool_handles(*pool, POOL as int),
{
    let mut out: Vec<usize> = Vec::new();
    let mut i: usize = 0;
    while i < POOL
        invariant
            i <= POOL,
            out@ == pool_handles(*pool, i as int),
        decreases POOL - i,
    {
        if pool.tex[i] != 0 {
            out.push(pool.tex[i]);
        }
        if pool.slots[i] != 0 {
            out.push(pool.slots[i]);
        }
        i = i + 1;
    }
    out
}

/// Where a frame is to be copied: the buffer's surface and texture, and the layer that then shows
/// that surface.
#[derive(Clone, Copy, Debug, PartialEq, Eq, Structural)]
pub struct Target {
    pub layer: usize,
    pub surface: usize,
    pub texture: usize,
}

/// What is to be done with a frame.
#[derive(Clone, Copy, Debug)]
pub enum PresentStep {
    /// Drop it; report the note, if there is one and it is new.
    Drop { note: Option<Note> },
    /// The buffers do not fit: release those of `old`, make new ones, report them, and ask for the
    /// target.
    Rebuild { old: Pool },
    /// Copy it to `target` and show that. The graphics device copies; that the copy has the frame's
    /// pixels rests on it and is not stated here.
    Blit { target: Target },
}

/// The pool of `surf` for the view or for the popup.
pub open spec fn pool_for(surf: Surf, popup: bool) -> Pool {
    if popup {
        surf.popup_pool
    } else {
        surf.pool
    }
}

/// The layer of `surf` for the view or for the popup.
pub open spec fn layer_for(surf: Surf, popup: bool) -> usize {
    if popup {
        surf.popup_layer
    } else {
        surf.layer
    }
}

/// `surf` with another pool for the view or for the popup.
pub open spec fn with_pool(surf: Surf, popup: bool, pool: Pool) -> Surf {
    if popup {
        Surf { popup_pool: pool, ..surf }
    } else {
        Surf { pool, ..surf }
    }
}

/// Whether the buffers of `pool` fit a frame of `w` by `h`.
pub open spec fn pool_fits(pool: Pool, w: i32, h: i32) -> bool {
    pool.w == w && pool.h == h && pool.slots[0] != 0
}

/// Whether slot `i` of `pool` was made: it has its surface and its texture.
pub open spec fn slot_made(pool: Pool, i: int) -> bool {
    pool.slots[i] != 0 && pool.tex[i] != 0
}

/// The slot `k` places behind the one to use next, going round.
pub open spec fn slot_after(pool: Pool, k: int) -> int {
    (pool.next + k) % POOL as int
}

/// The slot whose turn it is: the first that was made, from the one to use next on, going round.
pub open spec fn turn(pool: Pool) -> Option<int> {
    if slot_made(pool, slot_after(pool, 0)) {
        Some(slot_after(pool, 0))
    } else if slot_made(pool, slot_after(pool, 1)) {
        Some(slot_after(pool, 1))
    } else if slot_made(pool, slot_after(pool, 2)) {
        Some(slot_after(pool, 2))
    } else {
        None
    }
}

fn find_turn(pool: &Pool) -> (r: Option<usize>)
    requires
        pool.wf(),
    ensures
        match r {
            Some(i) => i < POOL && turn(*pool) == Some(i as int),
            None => turn(*pool) is None,
        },
{
    let mut k: usize = 0;
    while k < POOL
        invariant
            pool.wf(),
            k <= POOL,
            forall|j: int| 0 <= j < k ==> !slot_made(*pool, #[trigger] slot_after(*pool, j)),
        decreases POOL - k,
    {
        let i: usize = (pool.next + k) % POOL;
        assert(i == slot_after(*pool, k as int));
        if pool.slots[i] != 0 && pool.tex[i] != 0 {
            assert(k == 0 || !slot_made(*pool, slot_after(*pool, 0)));
            assert(k <= 1 || !slot_made(*pool, slot_after(*pool, 1)));
            return Some(i);
        }
        k = k + 1;
    }
    assert(!slot_made(*pool, slot_after(*pool, 0)));
    assert(!slot_made(*pool, slot_after(*pool, 1)));
    assert(!slot_made(*pool, slot_after(*pool, 2)));
    None
}

/// The buffer of `surf` whose turn it is; `None` where none could be made.
pub open spec fn next_target(surf: Surf, popup: bool) -> Option<Target> {
    let pool = pool_for(surf, popup);
    match turn(pool) {
        Some(i) => Some(
            Target {
                layer: layer_for(surf, popup),
                surface: pool.slots[i],
                texture: pool.tex[i],
            },
        ),
        None => None,
    }
}

/// Whether a frame for surface `id` has somewhere to go: the surface exists and is not hidden, and
/// a popup frame finds the popup open with its layer made.
pub open spec fn accepts_frame(s: SurfacesV, id: u32, popup: bool) -> bool {
    &&& s.has(id)
    &&& !s.surfs[id].hidden
    &&& popup ==> s.surfs[id].popup_shown && s.surfs[id].popup_layer != 0
}

/// What becomes of a frame once its pool fits.
pub open spec fn target_step(s: SurfacesV, id: u32, popup: bool) -> PresentStep {
    if !accepts_frame(s, id, popup) {
        PresentStep::Drop { note: None }
    } else {
        match next_target(s.surfs[id], popup) {
            Some(target) => PresentStep::Blit { target },
            None => PresentStep::Drop { note: Some(Note::PoolFailed) },
        }
    }
}

/// What becomes of a frame of `w` by `h` pixels for surface `id`.
pub open spec fn frame_step(
    s: SurfacesV,
    id: u32,
    has_surface: bool,
    w: i32,
    h: i32,
    gpu: bool,
    popup: bool,
) -> PresentStep {
    if !has_surface || w <= 0 || h <= 0 {
        PresentStep::Drop { note: None }
    } else if !gpu {
        PresentStep::Drop { note: Some(Note::GpuMissing) }
    } else if !accepts_frame(s, id, popup) {
        PresentStep::Drop { note: None }
    } else if !pool_fits(pool_for(s.surfs[id], popup), w, h) {
        PresentStep::Rebuild { old: pool_for(s.surfs[id], popup) }
    } else {
        target_step(s, id, popup)
    }
}

/// The target for a frame of surface `id`, whose pool fits.
pub fn pool_target(s: &Surfaces, id: u32, popup: bool) -> (r: PresentStep)
    requires
        s@.wf(),
    ensures
        r == target_step(s@, id, popup),
{
    let surf: Surf = match s.surfs.get(&id) {
        Some(surf) => *surf,
        None => {
            return PresentStep::Drop { note: None };
        },
    };
    if surf.hidden {
        return PresentStep::Drop { note: None };
    }
    if popup && (!surf.popup_shown || surf.popup_layer == 0) {
        return PresentStep::Drop { note: None };
    }
    let layer: usize = if popup {
        surf.popup_layer
    } else {
        surf.layer
    };
    let pool: Pool = if popup {
        surf.popup_pool
    } else {
        surf.pool
    };
    match find_turn(&pool) {
        Some(i) => PresentStep::Blit {
            target: Target { layer, surface: pool.slots[i], texture: pool.tex[i] },
        },
        None => PresentStep::Drop { note: Some(Note::PoolFailed) },
    }
}

/// A frame of `coded_w` by `coded_h` pixels arrived for surface `id`: for its view, or for its
/// popup. `has_surface` says whether the engine handed a texture over, `gpu` whether there is a
/// device to copy it with.
pub fn present_target(
    s: &Surfaces,
    id: u32,
    has_surface: bool,
    coded_w: i32,
    coded_h: i32,
    gpu: bool,
    popup: bool,
) -> (r: PresentStep)
    requires
        s@.wf(),
    ensures
        r == frame_step(s@, id, has_surface, coded_w, coded_h, gpu, popup),
{
    if !has_surface || coded_w <= 0 || coded_h <= 0 {
        return PresentStep::Drop { note: None };
    }
    if !gpu {
        return PresentStep::Drop { note: Some(Note::GpuMissing) };
    }
    let surf: Surf = match s.surfs.get(&id) {
        Some(surf) => *surf,
        None => {
            return PresentStep::Drop { note: None };
        },
    };
    if surf.hidden {
        return PresentStep::Drop { note: None };
    }
    if popup && (!surf.popup_shown || surf.popup_layer == 0) {
        return PresentStep::Drop { note: None };
    }
    let pool: Pool = if popup {
        surf.popup_pool
    } else {
        surf.pool
    };
    if !(pool.w == coded_w && pool.h == coded_h && pool.slots[0] != 0) {
        return PresentStep::Rebuild { old: pool };
    }
    pool_target(s, id, popup)
}

/// What becomes of a frame on `platform`: the frame path stands on macOS only.
pub open spec fn present_step(
    s: SurfacesV,
    platform: Platform,
    id: u32,
    has_surface: bool,
    w: i32,
    h: i32,
    gpu: bool,
    popup: bool,
) -> PresentStep {
    if platform == Platform::MacOs {
        frame_step(s, id, has_surface, w, h, gpu, popup)
    } else if popup {
        PresentStep::Drop { note: Some(Note::PopupPresentPending) }
    } else {
        PresentStep::Drop { note: Some(Note::PresentPending) }
    }
}

/// A frame for the view of surface `id`.
pub fn present(
    s: &Surfaces,
    platform: Platform,
    id: u32,
    has_surface: bool,
    w: i32,
    h: i32,
    gpu: bool,
) -> (r: PresentStep)
    requires
        s@.wf(),
    ensures
        r == present_step(s@, platform, id, has_surface, w, h, gpu, false),
{
    if platform == Platform::MacOs {
        present_target(s, id, has_surface, w, h, gpu, false)
    } else {
        PresentStep::Drop { note: Some(Note::PresentPending) }
    }
}

/// A frame for the popup of surface `id`.
pub fn present_popup(
    s: &Surfaces,
    platform: Platform,
    id: u32,
    has_surface: bool,
    w: i32,
    h: i32,
    gpu: bool,
) -> (r: PresentStep)
    requires
        s@.wf(),
    ensures
        r == present_step(s@, platform, id, has_surface, w, h, gpu, true),
{
    if platform == Platform::MacOs {
        present_target(s, id, has_surface, w, h, gpu, true)
    } else {
        PresentStep::Drop { note: Some(Note::PopupPresentPending) }
    }
}

/// Surfaces `s` after the pool of `id` was rebuilt.
pub open spec fn pool_replaced(
    s: SurfacesV,
    id: u32,
    popup: bool,
    slots: [usize; 3],
    tex: [usize; 3],
    w: i32,
    h: i32,
) -> SurfacesV {
    if s.has(id) {
        s.with(id, with_pool(s.surfs[id], popup, pool_of(slots, tex, w, h)))
    } else {
        s
    }
}

/// New buffers were made for surface `id`.
pub fn ensure_pool(
    s: &mut Surfaces,
    id: u32,
    popup: bool,
    slots: [usize; 3],
    tex: [usize; 3],
    w: i32,
    h: i32,
)
    ensures
        final(s)@ == pool_replaced(old(s)@, id, popup, slots, tex, w, h),
{
    let found: Option<Surf> = match s.surfs.get(&id) {
        Some(surf) => Some(*surf),
        None => None,
    };
    if let Some(surf) = found {
        let mut now = surf;
        let pool = Pool { slots, tex, w, h, next: 0 };
        if popup {
            now.popup_pool = pool;
        } else {
            now.pool = pool;
        }
        s.surfs.insert(id, now);
    }
}

/// `pool` after the buffer in slot `i` is shown.
pub open spec fn advanced(pool: Pool, i: int) -> Pool {
    Pool { next: ((i + 1) % POOL as int) as usize, ..pool }
}

/// The note of a first frame.
pub open spec fn first_note(popup: bool) -> Note {
    if popup {
        Note::FirstPopupFrame
    } else {
        Note::FirstFrame
    }
}

/// Surfaces `s` after a frame of `id` was shown in the buffer whose turn it was. Without a buffer no
/// frame can be shown.
pub open spec fn frame_shown(s: SurfacesV, id: u32, popup: bool) -> SurfacesV {
    if s.has(id) {
        let pool = pool_for(s.surfs[id], popup);
        match turn(pool) {
            Some(i) => SurfacesV {
                frames_presented: s.frames_presented.wrapping_add(1),
                ..s.with(id, with_pool(s.surfs[id], popup, advanced(pool, i))).reported(
                    id,
                    first_note(popup),
                )
            },
            None => s,
        }
    } else {
        s
    }
}

/// A frame of surface `id` was copied and shown: the slot behind the one it was copied to is next,
/// and the frame counts. Returns whether it is the surface's first.
pub fn frame_presented(s: &mut Surfaces, id: u32, popup: bool) -> (r: bool)
    requires
        old(s)@.wf(),
    ensures
        final(s)@ == frame_shown(old(s)@, id, popup),
        r == (old(s)@.has(id) && turn(pool_for(old(s)@.surfs[id], popup)) is Some
            && !old(s)@.noted.contains((id, first_note(popup)))),
{
    let found: Option<Surf> = match s.surfs.get(&id) {
        Some(surf) => Some(*surf),
        None => None,
    };
    match found {
        Some(surf) => {
            let pool: Pool = if popup {
                surf.popup_pool
            } else {
                surf.pool
            };
            let slot: usize = match find_turn(&pool) {
                Some(i) => i,
                None => {
                    return false;
                },
            };
            let mut now = surf;
            if popup {
                now.popup_pool.next = (slot + 1) % POOL;
            } else {
                now.pool.next = (slot + 1) % POOL;
            }
            s.surfs.insert(id, now);
            s.frames_presented = s.frames_presented.wrapping_add(1);
            log_once(s, id, if popup { Note::FirstPopupFrame } else { Note::FirstFrame })
        },
        None => false,
    }
}

/// The note of a frame that came as pixels in memory.
pub open spec fn cpu_note(platform: Platform, has_buffer: bool, w: i32, h: i32) -> Option<Note> {
    if platform == Platform::MacOs {
        Some(Note::CpuFrameDropped)
    } else if !has_buffer || w <= 0 || h <= 0 {
        None
    } else {
        Some(Note::CpuPresentPending)
    }
}

/// A frame of surface `id` came as pixels in memory instead of a shared texture. It is dropped,
/// and never silently: returns the note to report, if that is new.
pub fn present_cpu(
    s: &mut Surfaces,
    platform: Platform,
    id: u32,
    has_buffer: bool,
    w: i32,
    h: i32,
) -> (r: Option<Note>)
    ensures
        match cpu_note(platform, has_buffer, w, h) {
            Some(note) => {
                &&& final(s)@ == old(s)@.reported(id, note)
                &&& r == (if old(s)@.noted.contains((id, note)) {
                    None
                } else {
                    Some(note)
                })
            },
            None => final(s)@ == old(s)@ && r is None,
        },
{
    let note = if platform == Platform::MacOs {
        Note::CpuFrameDropped
    } else if !has_buffer || w <= 0 || h <= 0 {
        return None;
    } else {
        Note::CpuPresentPending
    };
    if log_once(s, id, note) {
        Some(note)
    } else {
        None
    }
}

/// The name of the system at the head of a note.
pub open spec fn platform_word(platform: Platform) -> Seq<char> {
    match platform {
        Platform::MacOs => "macos "@,
        Platform::Windows => "windows "@,
        Platform::Linux => "linux "@,
    }
}

/// The wording of `note`: what is not done yet on a system names the system.
pub open spec fn note_words(platform: Platform, note: Note) -> Seq<char> {
    match note {
        Note::CpuFrameDropped => "CPU on_paint 경로 감지 — 공유 텍스처 비활성, 프레임 드랍"@,
        Note::GpuMissing => "Metal 불가 — offscreen 프레임 드랍"@,
        Note::PoolFailed => "IOSurface 풀 구축 실패 — offscreen 프레임 드랍"@,
        Note::SourceFailed => "CEF IOSurface 텍스처 개방 실패"@,
        Note::FirstFrame => "첫 프레임 present (shared-texture → layer)"@,
        Note::FirstPopupFrame => "첫 팝업 프레임 present (shared-texture → sublayer)"@,
        Note::SurfacePending => platform_word(platform)
            + "offscreen child 표면 생성 미구현 (Phase C/D: HWND child + wgpu::Surface)"@,
        Note::PresentPending => platform_word(platform)
            + "present 미구현 (Phase C/D: osr_texture_import → wgpu::Texture → wgpu::Surface)"@,
        Note::PopupPresentPending => platform_word(platform)
            + "팝업 present 미구현 (Phase C/D)"@,
        Note::CpuPresentPending => platform_word(platform)
            + "CPU present 미구현 (Phase C/D: BGRA 버퍼 → wgpu::Texture → surface)"@,
    }
}

/// The wording of `note`.
pub fn note_text(platform: Platform, note: Note) -> (r: String)
    ensures
        r@ == note_words(platform, note),
{
    let word = match platform {
        Platform::MacOs => "macos ",
        Platform::Windows => "windows ",
        Platform::Linux => "linux ",
    };
    match note {
        Note::CpuFrameDropped => {
            "CPU on_paint 경로 감지 — 공유 텍스처 비활성, 프레임 드랍".to_owned()
        },
        Note::GpuMissing => "Metal 불가 — offscreen 프레임 드랍".to_owned(),
        Note::PoolFailed => "IOSurface 풀 구축 실패 — offscreen 프레임 드랍".to_owned(),
        Note::SourceFailed => "CEF IOSurface 텍스처 개방 실패".to_owned(),
        Note::FirstFrame => "첫 프레임 present (shared-texture → layer)".to_owned(),
        Note::FirstPopupFrame => "첫 팝업 프레임 present (shared-texture → sublayer)".to_owned(),
        Note::SurfacePending => text::joined(
            word,
            "offscreen child 표면 생성 미구현 (Phase C/D: HWND child + wgpu::Surface)",
        ),
        Note::PresentPending => text::joined(
            word,
            "present 미구현 (Phase C/D: osr_texture_import → wgpu::Texture → wgpu::Surface)",
        ),
        Note::PopupPresentPending => text::joined(word, "팝업 present 미구현 (Phase C/D)"),
        Note::CpuPresentPending => text::joined(
            word,
            "CPU present 미구현 (Phase C/D: BGRA 버퍼 → wgpu::Texture → surface)",
        ),
    }
}

}
