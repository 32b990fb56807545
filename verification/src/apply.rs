//! Applying what was asked for, on the main thread.

use vstd::prelude::*;
use vstd::string::*;

use crate::engine;
use crate::engine::{Counters, Engine, EngineV};
use crate::events;
use crate::input;
use crate::ops;
use crate::ops::{Action, ActionV, Actions, KeyKind, MouseButton, Op, OpV};
use crate::presenter;
use crate::presenter::Platform;
use crate::text;

verus! {

broadcast use vstd::std_specs::hash::group_hash_axioms;

/// What the native browser that an operation is for reports: whether it has a host and a main
/// frame, and whether its history has somewhere to go.
#[derive(Clone, Copy, Debug, PartialEq, Eq, Structural)]
pub struct Probe {
    pub host: bool,
    pub frame: bool,
    pub can_back: bool,
    pub can_forward: bool,
}

/// The native identifier of browser `id`, if it lives and has a host.
pub open spec fn hosted(s: EngineV, id: u32, probe: Probe) -> Option<i32> {
    if probe.host {
        engine::cid_of(s.browsers, id)
    } else {
        None
    }
}

/// The native identifier of browser `id`, if it lives and was not asked to close.
pub open spec fn reachable(s: EngineV, id: u32) -> Option<i32> {
    if s.close_requested.contains(id) {
        None
    } else {
        engine::cid_of(s.browsers, id)
    }
}

/// The native identifier of browser `id`, if it lives, was not asked to close and has a main frame.
pub open spec fn framed(s: EngineV, id: u32, probe: Probe) -> Option<i32> {
    if probe.frame {
        reachable(s, id)
    } else {
        None
    }
}

fn host_of(e: &Engine, id: u32, probe: Probe) -> (r: Option<i32>)
    ensures
        r == hosted(e@, id, probe),
{
    if probe.host {
        engine::find_browser(e, id)
    } else {
        None
    }
}

fn reach(e: &Engine, id: u32) -> (r: Option<i32>)
    ensures
        r == reachable(e@, id),
{
    if engine::close_requested(e, id) {
        None
    } else {
        engine::find_browser(e, id)
    }
}

fn frame_of(e: &Engine, id: u32, probe: Probe) -> (r: Option<i32>)
    ensures
        r == framed(e@, id, probe),
{
    if probe.frame {
        reach(e, id)
    } else {
        None
    }
}

/// Takes the operations that wait, in the order in which they were asked for.
pub fn take_ops(e: &mut Engine) -> (r: Vec<Op<String>>)
    ensures
        ops::ops_model(r@) == old(e)@.ops,
        final(e)@ == (EngineV { ops: Seq::empty(), ..old(e)@ }),
{
    let mut taken: Vec<Op<String>> = Vec::new();
    taken.append(&mut e.ops);
    assert(ops::ops_model(e.ops@) =~= Seq::empty());
    assert(ops::ops_model(taken@) =~= old(e)@.ops);
    taken
}

// ── bounds ───────────────────────────────────────────────────────────────────────────────────

/// The state after bounds are applied: an offscreen surface, unless it is closing, has a new size.
pub open spec fn bounds_applied(s: EngineV, id: u32, w: i32, h: i32) -> EngineV {
    if s.close_requested.contains(id) || !s.surfaces.has(id) {
        s
    } else {
        EngineV {
            surfaces: presenter::bounds_set(s.surfaces, id, w, presenter::clamped(h)),
            ..s
        }
    }
}

/// What is to be done when bounds are applied.
pub open spec fn bounds_actions(
    s: EngineV,
    id: u32,
    x: i32,
    y: i32,
    w: i32,
    h: i32,
    probe: Probe,
) -> Seq<ActionV> {
    if s.close_requested.contains(id) {
        Seq::empty()
    } else {
        let placed: Seq<ActionV> = if s.surfaces.has(id) {
            seq![
                Action::PlaceSurface {
                    view: s.surfaces.surfs[id].view,
                    x,
                    y,
                    w: presenter::clamped(w),
                    h: presenter::clamped(h),
                },
            ]
        } else {
            Seq::empty()
        };
        match hosted(s, id, probe) {
            Some(cid) => if !s.surfaces.has(id) && s.platform == Platform::MacOs {
                seq![
                    Action::PlaceChild {
                        cid,
                        x,
                        y,
                        w: presenter::clamped(w),
                        h: presenter::clamped(h),
                    },
                    Action::WasResized { cid },
                ]
            } else {
                placed.push(Action::WasResized { cid })
            },
            None => placed,
        }
    }
}

fn apply_bounds(e: &mut Engine, id: u32, x: i32, y: i32, w: i32, h: i32, probe: Probe) -> (acts:
    Actions)
    ensures
        final(e)@ == bounds_applied(old(e)@, id, w, h),
        acts@ == bounds_actions(old(e)@, id, x, y, w, h, probe),
{
    let mut acts: Actions = Actions::new();
    if engine::close_requested(e, id) {
        return acts;
    }
    let wide: i32 = presenter::at_least_one(w);
    let high: i32 = presenter::at_least_one(h);
    let host = host_of(e, id, probe);
    if presenter::is_offscreen(&e.surfaces, id) {
        if let Some(view) = presenter::set_bounds(&mut e.surfaces, id, w, high) {
            acts.add(Action::PlaceSurface { view, x, y, w: wide, h: high });
        }
        if let Some(cid) = host {
            acts.add(Action::WasResized { cid });
        }
    } else if let Some(cid) = host {
        if e.platform == Platform::MacOs {
            acts.add(Action::PlaceChild { cid, x, y, w: wide, h: high });
        }
        acts.add(Action::WasResized { cid });
    }
    assert(acts@ =~= bounds_actions(old(e)@, id, x, y, w, h, probe));
    acts
}

// ── hiding ───────────────────────────────────────────────────────────────────────────────────

/// What is to be done to hide or show the native child view of browser `id`.
pub open spec fn native_hidden_actions(s: EngineV, id: u32, hidden: bool, probe: Probe) -> Seq<
    ActionV,
> {
    match hosted(s, id, probe) {
        Some(cid) => if s.platform == Platform::MacOs {
            seq![Action::WasHidden { cid, hidden }, Action::HideChild { cid, hidden }]
        } else {
            seq![Action::WasHidden { cid, hidden }]
        },
        None => Seq::empty(),
    }
}

/// What is to be done to hide or show the native child view of browser `id`.
pub fn set_native_hidden(e: &Engine, id: u32, hidden: bool, probe: Probe) -> (acts: Actions)
    ensures
        acts@ == native_hidden_actions(e@, id, hidden, probe),
{
    let mut acts: Actions = Actions::new();
    if let Some(cid) = host_of(e, id, probe) {
        acts.add(Action::WasHidden { cid, hidden });
        if e.platform == Platform::MacOs {
            acts.add(Action::HideChild { cid, hidden });
        }
    }
    assert(acts@ =~= native_hidden_actions(e@, id, hidden, probe));
    acts
}

/// The state after visibility is noted: a browser that is shown is active.
pub open spec fn visibility_noted(s: EngineV, id: u32, hidden: bool, now: u64) -> EngineV {
    let t = EngineV {
        visible: if hidden {
            s.visible.remove(id)
        } else {
            s.visible.insert(id)
        },
        ..s
    };
    if hidden {
        t
    } else {
        engine::bumped(t, id, now)
    }
}

/// The state after browser `id` is hidden or shown, unless it is closing.
pub open spec fn hidden_applied(s: EngineV, id: u32, hidden: bool, now: u64) -> EngineV {
    if s.close_requested.contains(id) {
        s
    } else {
        EngineV {
            surfaces: presenter::hidden_set(s.surfaces, id, hidden),
            ..visibility_noted(s, id, hidden, now)
        }
    }
}

/// What is to be done when browser `id` is hidden or shown. A surface that was hidden dropped its
/// frames, so it is painted anew when shown.
pub open spec fn hidden_actions(s: EngineV, id: u32, hidden: bool, probe: Probe) -> Seq<ActionV> {
    if s.close_requested.contains(id) {
        Seq::empty()
    } else {
        let ticked = if hidden {
            Seq::empty()
        } else {
            engine::tick_actions(s)
        };
        let shown: Seq<ActionV> = if s.surfaces.has(id) {
            let moved: Seq<ActionV> = seq![
                Action::HideSurface { view: s.surfaces.surfs[id].view, hidden },
            ];
            match hosted(s, id, probe) {
                Some(cid) => if hidden {
                    moved.push(Action::WasHidden { cid, hidden })
                } else {
                    moved.push(Action::WasHidden { cid, hidden }).push(Action::Invalidate { cid })
                },
                None => moved,
            }
        } else {
            native_hidden_actions(s, id, hidden, probe)
        };
        ticked + shown
    }
}

fn apply_hidden(e: &mut Engine, id: u32, hidden: bool, probe: Probe, now: u64) -> (acts: Actions)
    ensures
        final(e)@ == hidden_applied(old(e)@, id, hidden, now),
        acts@ == hidden_actions(old(e)@, id, hidden, probe),
{
    let mut acts: Actions = Actions::new();
    if engine::close_requested(e, id) {
        return acts;
    }
    engine::note_visible(e, id, !hidden);
    if !hidden {
        acts.extend(engine::bump_id(e, id, now));
    }
    if presenter::is_offscreen(&e.surfaces, id) {
        let host = host_of(e, id, probe);
        if let Some(view) = presenter::set_hidden(&mut e.surfaces, id, hidden) {
            acts.add(Action::HideSurface { view, hidden });
        }
        if let Some(cid) = host {
            acts.add(Action::WasHidden { cid, hidden });
            if !hidden {
                acts.add(Action::Invalidate { cid });
            }
        }
    } else {
        acts.extend(set_native_hidden(e, id, hidden, probe));
    }
    assert(acts@ =~= hidden_actions(old(e)@, id, hidden, probe));
    acts
}

// ── closing ──────────────────────────────────────────────────────────────────────────────────

/// The counters after closing is applied.
pub open spec fn close_counted(s: EngineV, id: u32, probe: Probe) -> Counters {
    let entered = Counters {
        close_applied: s.dbg.close_applied.wrapping_add(1),
        ..s.dbg
    };
    if s.close_requested.contains(id) {
        entered
    } else if hosted(s, id, probe) is Some {
        Counters { close_browser: entered.close_browser.wrapping_add(1), ..entered }
    } else {
        Counters { close_notfound: entered.close_notfound.wrapping_add(1), ..entered }
    }
}

/// The state after closing is applied. The request is on record from here on, which keeps every
/// later operation away from the browser; a second request only counts.
pub open spec fn close_applied(s: EngineV, id: u32, probe: Probe) -> EngineV {
    let counted = EngineV { dbg: close_counted(s, id, probe), ..s };
    if s.close_requested.contains(id) {
        counted
    } else {
        EngineV {
            close_requested: s.close_requested.insert(id),
            visible: s.visible.remove(id),
            devtools_screencast: s.devtools_screencast.remove(id),
            surfaces: presenter::hidden_set(s.surfaces, id, true),
            ..counted
        }
    }
}

/// What is to be done when closing is applied: the browser disappears at once, then is closed.
pub open spec fn close_actions(s: EngineV, id: u32, probe: Probe) -> Seq<ActionV> {
    if s.close_requested.contains(id) {
        Seq::empty()
    } else {
        let hide: Seq<ActionV> = if s.surfaces.has(id) {
            seq![Action::HideSurface { view: s.surfaces.surfs[id].view, hidden: true }]
        } else {
            Seq::empty()
        };
        let gone = native_hidden_actions(s, id, true, probe) + hide;
        match hosted(s, id, probe) {
            Some(cid) => gone.push(Action::CloseBrowser { cid }),
            None => gone,
        }
    }
}

fn apply_close(e: &mut Engine, id: u32, probe: Probe) -> (acts: Actions)
    ensures
        final(e)@ == close_applied(old(e)@, id, probe),
        acts@ == close_actions(old(e)@, id, probe),
{
    e.dbg.close_applied = e.dbg.close_applied.wrapping_add(1);
    if !e.close_requested.insert(id) {
        assert(e.close_requested@ =~= old(e)@.close_requested);
        return Actions::new();
    }
    engine::note_visible(e, id, false);
    e.devtools_screencast.remove(&id);
    let mut acts: Actions = set_native_hidden(e, id, true, probe);
    if let Some(view) = presenter::set_hidden(&mut e.surfaces, id, true) {
        acts.add(Action::HideSurface { view, hidden: true });
    }
    match host_of(e, id, probe) {
        Some(cid) => {
            acts.add(Action::CloseBrowser { cid });
            e.dbg.close_browser = e.dbg.close_browser.wrapping_add(1);
        },
        None => {
            e.dbg.close_notfound = e.dbg.close_notfound.wrapping_add(1);
        },
    }
    assert(acts@ =~= close_actions(old(e)@, id, probe));
    acts
}

// ── input ────────────────────────────────────────────────────────────────────────────────────

/// The mouse button of number `button`.
pub open spec fn button_named(button: u8) -> MouseButton {
    if button == 1 {
        MouseButton::Middle
    } else if button == 2 {
        MouseButton::Right
    } else {
        MouseButton::Left
    }
}

/// The buttons held while a mouse event of kind `kind` is delivered: a press counts already.
pub open spec fn pressed_during(s: EngineV, id: u32, kind: u8, button: u8) -> Map<u32, u8> {
    if kind == 1 {
        input::button_set(s.pressed, id, button, true)
    } else {
        s.pressed
    }
}

/// The state after mouse input is applied: presses and releases are remembered.
pub open spec fn mouse_applied(s: EngineV, id: u32, kind: u8, button: u8, probe: Probe) -> EngineV {
    if s.close_requested.contains(id) || hosted(s, id, probe) is None {
        s
    } else if kind == 1 {
        EngineV { pressed: input::button_set(s.pressed, id, button, true), ..s }
    } else if kind == 2 {
        EngineV { pressed: input::button_set(s.pressed, id, button, false), ..s }
    } else {
        s
    }
}

/// What is to be done when mouse input is applied.
pub open spec fn mouse_actions(
    s: EngineV,
    id: u32,
    kind: u8,
    x: i32,
    y: i32,
    button: u8,
    clicks: i32,
    mods: u32,
    probe: Probe,
) -> Seq<ActionV> {
    if s.close_requested.contains(id) {
        Seq::empty()
    } else {
        match hosted(s, id, probe) {
            None => Seq::empty(),
            Some(cid) => {
                let modifiers = input::keyboard_flags(mods) | input::button_flags(
                    input::held_buttons(pressed_during(s, id, kind, button), id),
                );
                if kind == 0 {
                    seq![Action::MouseMove { cid, x, y, modifiers }]
                } else if kind == 1 || kind == 2 {
                    seq![
                        Action::MouseClick {
                            cid,
                            x,
                            y,
                            modifiers,
                            button: button_named(button),
                            up: kind == 2,
                            clicks: presenter::clamped(clicks),
                        },
                    ]
                } else {
                    Seq::empty()
                }
            },
        }
    }
}

fn apply_mouse(
    e: &mut Engine,
    id: u32,
    kind: u8,
    x: i32,
    y: i32,
    button: u8,
    clicks: i32,
    mods: u32,
    probe: Probe,
) -> (acts: Actions)
    ensures
        final(e)@ == mouse_applied(old(e)@, id, kind, button, probe),
        acts@ == mouse_actions(old(e)@, id, kind, x, y, button, clicks, mods, probe),
{
    if engine::close_requested(e, id) {
        return Actions::new();
    }
    let cid: i32 = match host_of(e, id, probe) {
        Some(cid) => cid,
        None => {
            return Actions::new();
        },
    };
    if kind == 1 {
        input::pressed_set(&mut e.pressed, id, button, true);
    }
    let modifiers: u32 = input::event_flags(mods) | input::pressed_flags(&e.pressed, id);
    if kind == 0 {
        Actions::one(Action::MouseMove { cid, x, y, modifiers })
    } else if kind == 1 || kind == 2 {
        let named = if button == 1 {
            MouseButton::Middle
        } else if button == 2 {
            MouseButton::Right
        } else {
            MouseButton::Left
        };
        if kind == 2 {
            input::pressed_set(&mut e.pressed, id, button, false);
        }
        Actions::one(
            Action::MouseClick {
                cid,
                x,
                y,
                modifiers,
                button: named,
                up: kind == 2,
                clicks: presenter::at_least_one(clicks),
            },
        )
    } else {
        Actions::new()
    }
}

/// What is to be done when wheel input is applied. The protocol counts down and right as positive,
/// the engine the other way round.
pub open spec fn wheel_actions(
    s: EngineV,
    id: u32,
    x: i32,
    y: i32,
    dx: i32,
    dy: i32,
    probe: Probe,
) -> Seq<ActionV> {
    if s.close_requested.contains(id) {
        Seq::empty()
    } else {
        match hosted(s, id, probe) {
            None => Seq::empty(),
            Some(cid) => seq![
                Action::MouseWheel {
                    cid,
                    x,
                    y,
                    modifiers: input::button_flags(input::held_buttons(s.pressed, id)),
                    dx: 0i32.wrapping_sub(dx),
                    dy: 0i32.wrapping_sub(dy),
                },
            ],
        }
    }
}

fn apply_wheel(e: &Engine, id: u32, x: i32, y: i32, dx: i32, dy: i32, probe: Probe) -> (acts:
    Actions)
    ensures
        acts@ == wheel_actions(e@, id, x, y, dx, dy, probe),
{
    if engine::close_requested(e, id) {
        return Actions::new();
    }
    match host_of(e, id, probe) {
        None => Actions::new(),
        Some(cid) => Actions::one(
            Action::MouseWheel {
                cid,
                x,
                y,
                modifiers: input::pressed_flags(&e.pressed, id),
                dx: 0i32.wrapping_sub(dx),
                dy: 0i32.wrapping_sub(dy),
            },
        ),
    }
}

/// The key event kind of number `kind`.
pub open spec fn key_kind(kind: u8) -> KeyKind {
    if kind == 1 {
        KeyKind::Up
    } else if kind == 2 {
        KeyKind::Char
    } else {
        KeyKind::RawDown
    }
}

/// The key code that the engine is handed: on Windows it takes the code of a character event for
/// the character.
pub open spec fn key_code(platform: Platform, kind: u8, code: i32, ch: u16) -> i32 {
    if platform == Platform::Windows && kind == 2 {
        ch as i32
    } else {
        code
    }
}

/// What is to be done when keyboard input is applied.
pub open spec fn key_actions(
    s: EngineV,
    id: u32,
    kind: u8,
    code: i32,
    ch: u16,
    mods: u32,
    probe: Probe,
) -> Seq<ActionV> {
    if s.close_requested.contains(id) {
        Seq::empty()
    } else {
        match hosted(s, id, probe) {
            None => Seq::empty(),
            Some(cid) => seq![
                Action::Key {
                    cid,
                    kind: key_kind(kind),
                    modifiers: input::keyboard_flags(mods),
                    code: key_code(s.platform, kind, code, ch),
                    ch,
                },
            ],
        }
    }
}

fn apply_key(e: &Engine, id: u32, kind: u8, code: i32, ch: u16, mods: u32, probe: Probe) -> (acts:
    Actions)
    ensures
        acts@ == key_actions(e@, id, kind, code, ch, mods, probe),
{
    if engine::close_requested(e, id) {
        return Actions::new();
    }
    match host_of(e, id, probe) {
        None => Actions::new(),
        Some(cid) => Actions::one(
            Action::Key {
                cid,
                kind: if kind == 1 {
                    KeyKind::Up
                } else if kind == 2 {
                    KeyKind::Char
                } else {
                    KeyKind::RawDown
                },
                modifiers: input::event_flags(mods),
                code: if e.platform == Platform::Windows && kind == 2 {
                    ch as i32
                } else {
                    code
                },
                ch,
            },
        ),
    }
}

/// What is to be done when input method input is applied. A composition is underlined over its
/// whole length, in UTF-16 units, and the caret stays within it.
pub open spec fn ime_actions(
    s: EngineV,
    id: u32,
    kind: u8,
    text: Seq<char>,
    caret: u32,
    probe: Probe,
) -> Seq<ActionV> {
    if s.close_requested.contains(id) {
        Seq::empty()
    } else {
        match hosted(s, id, probe) {
            None => Seq::empty(),
            Some(cid) => if kind == 0 {
                let len = (text::utf16_units(text) % 0x1_0000_0000) as u32;
                seq![
                    Action::ImeSet {
                        cid,
                        text,
                        len,
                        caret: if caret < len {
                            caret
                        } else {
                            len
                        },
                    },
                ]
            } else if kind == 1 {
                seq![Action::ImeCommit { cid, text }]
            } else if kind == 2 {
                seq![Action::ImeFinish { cid }]
            } else {
                seq![Action::ImeCancel { cid }]
            },
        }
    }
}

fn apply_ime(e: &Engine, id: u32, kind: u8, text: String, caret: u32, probe: Probe) -> (acts:
    Actions)
    ensures
        acts@ == ime_actions(e@, id, kind, text@, caret, probe),
{
    if engine::close_requested(e, id) {
        return Actions::new();
    }
    match host_of(e, id, probe) {
        None => Actions::new(),
        Some(cid) => if kind == 0 {
            let len: u32 = text::utf16_count(text.as_str());
            Actions::one(
                Action::ImeSet {
                    cid,
                    text,
                    len,
                    caret: if caret < len {
                        caret
                    } else {
                        len
                    },
                },
            )
        } else if kind == 1 {
            Actions::one(Action::ImeCommit { cid, text })
        } else if kind == 2 {
            Actions::one(Action::ImeFinish { cid })
        } else {
            Actions::one(Action::ImeCancel { cid })
        },
    }
}

// ── scripts ──────────────────────────────────────────────────────────────────────────────────

/// The script around a caller's script: it runs it as the body of an asynchronous function, and
/// reports number and result through the page query channel.
pub open spec fn eval_script(eval_id: u64, js: Seq<char>) -> Seq<char> {
    "(async()=>{let __ok=true,__v;try{__v=await(async()=>{ "@ + js
        + " })();}catch(e){__ok=false;__v=String((e&&e.stack)||e);}let __s;try{__s=JSON.stringify(__v===undefined?null:__v);}catch(_){__s=JSON.stringify(String(__v));}try{window.cefQuery({request:JSON.stringify({__soksakEval:"@
        + text::decimal(eval_id as nat)
        + ",ok:__ok,value:JSON.parse(__s)}),onSuccess:function(){},onFailure:function(){}});}catch(_){}})();"@
}

/// The script around a caller's script.
pub fn wrap_script(eval_id: u64, js: &str) -> (r: String)
    ensures
        r@ == eval_script(eval_id, js@),
{
    let mut out = "(async()=>{let __ok=true,__v;try{__v=await(async()=>{ ".to_owned();
    out.append(js);
    out.append(
        " })();}catch(e){__ok=false;__v=String((e&&e.stack)||e);}let __s;try{__s=JSON.stringify(__v===undefined?null:__v);}catch(_){__s=JSON.stringify(String(__v));}try{window.cefQuery({request:JSON.stringify({__soksakEval:",
    );
    text::push_decimal(&mut out, eval_id);
    out.append(
        ",ok:__ok,value:JSON.parse(__s)}),onSuccess:function(){},onFailure:function(){}});}catch(_){}})();",
    );
    out
}

/// What is to be done when a script is to run: it runs, or its failure is reported.
pub open spec fn eval_actions(s: EngineV, id: u32, eval_id: u64, js: Seq<char>, probe: Probe) -> Seq<
    ActionV,
> {
    match framed(s, id, probe) {
        Some(cid) => seq![Action::ExecuteJs { cid, script: eval_script(eval_id, js) }],
        None => ops::told(events::eval_failed(id, eval_id)),
    }
}

fn apply_eval(e: &Engine, id: u32, eval_id: u64, js: String, probe: Probe) -> (acts: Actions)
    ensures
        acts@ == eval_actions(e@, id, eval_id, js@, probe),
{
    match frame_of(e, id, probe) {
        Some(cid) => Actions::one(
            Action::ExecuteJs { cid, script: wrap_script(eval_id, js.as_str()) },
        ),
        None => Actions::one(Action::Emit { event: events::eval_failed_event(id, eval_id) }),
    }
}

// ── all operations ───────────────────────────────────────────────────────────────────────────

/// The state after operation `op` is applied.
pub open spec fn applied(s: EngineV, op: OpV, probe: Probe, now: u64) -> EngineV {
    match op {
        Op::Bounds { id, x, y, w, h } => bounds_applied(s, id, w, h),
        Op::Hidden { id, hidden } => hidden_applied(s, id, hidden, now),
        Op::Close { id } => close_applied(s, id, probe),
        Op::Overlay { active } => {
            let t = EngineV { overlay_active: active, ..s };
            if active {
                t
            } else {
                engine::bumped_all(t, now)
            }
        },
        Op::Mouse { id, kind, x, y, button, clicks, mods } => mouse_applied(
            s,
            id,
            kind,
            button,
            probe,
        ),
        _ => s,
    }
}

/// What is to be done when operation `op` is applied. An operation on a browser that is gone, or that
/// was asked to close, does nothing; only a script that cannot run is reported.
pub open spec fn apply_actions(s: EngineV, op: OpV, probe: Probe) -> Seq<ActionV> {
    match op {
        Op::Load { id, url } => match framed(s, id, probe) {
            Some(cid) => seq![Action::LoadUrl { cid, url }],
            None => Seq::empty(),
        },
        Op::Reload { id, ignore_cache } => match reachable(s, id) {
            Some(cid) => seq![Action::Reload { cid, ignore_cache }],
            None => Seq::empty(),
        },
        Op::Stop { id } => match reachable(s, id) {
            Some(cid) => seq![Action::StopLoad { cid }],
            None => Seq::empty(),
        },
        Op::Back { id } => match reachable(s, id) {
            Some(cid) => if probe.can_back {
                seq![Action::GoBack { cid }]
            } else {
                Seq::empty()
            },
            None => Seq::empty(),
        },
        Op::Forward { id } => match reachable(s, id) {
            Some(cid) => if probe.can_forward {
                seq![Action::GoForward { cid }]
            } else {
                Seq::empty()
            },
            None => Seq::empty(),
        },
        Op::Bounds { id, x, y, w, h } => bounds_actions(s, id, x, y, w, h, probe),
        Op::Hidden { id, hidden } => hidden_actions(s, id, hidden, probe),
        Op::Focus { id } => if s.close_requested.contains(id) {
            Seq::empty()
        } else {
            match hosted(s, id, probe) {
                Some(cid) => seq![Action::SetFocus { cid }],
                None => Seq::empty(),
            }
        },
        Op::Close { id } => close_actions(s, id, probe),
        Op::Overlay { active } => if active {
            Seq::empty()
        } else {
            engine::tick_actions(s)
        },
        Op::Mouse { id, kind, x, y, button, clicks, mods } => mouse_actions(
            s,
            id,
            kind,
            x,
            y,
            button,
            clicks,
            mods,
            probe,
        ),
        Op::Wheel { id, x, y, dx, dy } => wheel_actions(s, id, x, y, dx, dy, probe),
        Op::Key { id, kind, code, ch, mods } => key_actions(s, id, kind, code, ch, mods, probe),
        Op::Ime { id, kind, text, caret } => ime_actions(s, id, kind, text, caret, probe),
        Op::Eval { id, eval_id, js } => eval_actions(s, id, eval_id, js, probe),
    }
}

/// Applies operation `op`. `probe` is what the browser that it is for reports.
pub fn apply_op(e: &mut Engine, op: Op<String>, probe: Probe, now: u64) -> (acts: Actions)
    ensures
        final(e)@ == applied(old(e)@, op@, probe, now),
        acts@ == apply_actions(old(e)@, op@, probe),
{
    match op {
        Op::Load { id, url } => match frame_of(e, id, probe) {
            Some(cid) => Actions::one(Action::LoadUrl { cid, url }),
            None => Actions::new(),
        },
        Op::Reload { id, ignore_cache } => match reach(e, id) {
            Some(cid) => Actions::one(Action::Reload { cid, ignore_cache }),
            None => Actions::new(),
        },
        Op::Stop { id } => match reach(e, id) {
            Some(cid) => Actions::one(Action::StopLoad { cid }),
            None => Actions::new(),
        },
        Op::Back { id } => match reach(e, id) {
            Some(cid) => if probe.can_back {
                Actions::one(Action::GoBack { cid })
            } else {
                Actions::new()
            },
            None => Actions::new(),
        },
        Op::Forward { id } => match reach(e, id) {
            Some(cid) => if probe.can_forward {
                Actions::one(Action::GoForward { cid })
            } else {
                Actions::new()
            },
            None => Actions::new(),
        },
        Op::Bounds { id, x, y, w, h } => apply_bounds(e, id, x, y, w, h, probe),
        Op::Hidden { id, hidden } => apply_hidden(e, id, hidden, probe, now),
        Op::Focus { id } => if engine::close_requested(e, id) {
            Actions::new()
        } else {
            match host_of(e, id, probe) {
                Some(cid) => Actions::one(Action::SetFocus { cid }),
                None => Actions::new(),
            }
        },
        Op::Close { id } => apply_close(e, id, probe),
        Op::Overlay { active } => {
            e.overlay_active = active;
            if active {
                Actions::new()
            } else {
                engine::bump_active(e, now)
            }
        },
        Op::Mouse { id, kind, x, y, button, clicks, mods } => apply_mouse(
            e,
            id,
            kind,
            x,
            y,
            button,
            clicks,
            mods,
            probe,
        ),
        Op::Wheel { id, x, y, dx, dy } => apply_wheel(e, id, x, y, dx, dy, probe),
        Op::Key { id, kind, code, ch, mods } => apply_key(e, id, kind, code, ch, mods, probe),
        Op::Ime { id, kind, text, caret } => apply_ime(e, id, kind, text, caret, probe),
        Op::Eval { id, eval_id, js } => apply_eval(e, id, eval_id, js, probe),
    }
}

}
