use soksak_sidecar_browser_chromium::apply::{apply_op, set_native_hidden, take_ops, wrap_script, Probe};
use soksak_sidecar_browser_chromium::create::{
    begin_offscreen, create_offscreen, create_windowed, devtools_sent, flip_y, plan_create, take_pending,
    usable_scale, Plan,
};
use soksak_sidecar_browser_chromium::devtools::on_dev_tools_method_result;
use soksak_sidecar_browser_chromium::engine::{self, Engine};
use soksak_sidecar_browser_chromium::json::{render, Num};
use soksak_sidecar_browser_chromium::ops::{Act, Action, KeyKind, MouseButton, Op};
use soksak_sidecar_browser_chromium::presenter::{Note, Platform};
use soksak_sidecar_browser_chromium::work::{end_work, kick_paint, paint_active, reap_closing};

const ALL: Probe = Probe { host: true, frame: true, can_back: true, can_forward: true };
const NONE: Probe = Probe { host: false, frame: false, can_back: false, can_forward: false };
const ONE: u32 = 0x3f80_0000;

fn engine(platform: Platform) -> Engine {
    Engine::new(platform, false)
}

/// An engine with windowed browser 1 (native 10).
fn windowed(platform: Platform) -> Engine {
    let mut e = engine(platform);
    create_windowed(&mut e, 1, 99, Some(10), None, 0);
    e
}

/// An engine with offscreen browser 1 (native 10), its view at 500.
fn offscreen(platform: Platform) -> Engine {
    let mut e = engine(platform);
    begin_offscreen(&mut e, 1, 99, 300, 200, ONE, 500, 600);
    create_offscreen(&mut e, 1, 99, Some(10), 0);
    e
}

fn apply(e: &mut Engine, op: Op<String>, probe: Probe) -> Vec<Act> {
    apply_op(e, op, probe, 100).list
}

#[test]
fn operations_are_taken_in_order() {
    let mut e = engine(Platform::MacOs);
    engine::load(&mut e, 1, "a".to_string(), 0);
    engine::reload(&mut e, 2, false, 0);
    engine::stop_load(&mut e, 3, 0);
    let ops = take_ops(&mut e);
    assert!(matches!(ops[0], Op::Load { id: 1, .. }));
    assert!(matches!(ops[1], Op::Reload { id: 2, .. }));
    assert!(matches!(ops[2], Op::Stop { id: 3 }));
    assert!(e.ops.is_empty());
}

#[test]
fn navigation_needs_a_living_browser() {
    let mut e = windowed(Platform::MacOs);
    assert!(matches!(&apply(&mut e, Op::Load { id: 1, url: "u".into() }, ALL)[..], [Action::LoadUrl { cid: 10, url }] if url == "u"));
    assert!(apply(&mut e, Op::Load { id: 1, url: "u".into() }, NONE).is_empty());
    assert!(apply(&mut e, Op::Load { id: 2, url: "u".into() }, ALL).is_empty());
    assert!(matches!(apply(&mut e, Op::Reload { id: 1, ignore_cache: true }, NONE)[..], [Action::Reload { cid: 10, ignore_cache: true }]));
    assert!(apply(&mut e, Op::Reload { id: 2, ignore_cache: true }, ALL).is_empty());
    assert!(matches!(apply(&mut e, Op::Stop { id: 1 }, NONE)[..], [Action::StopLoad { cid: 10 }]));
    assert!(apply(&mut e, Op::Stop { id: 3 }, ALL).is_empty());
    assert!(matches!(apply(&mut e, Op::Back { id: 1 }, ALL)[..], [Action::GoBack { cid: 10 }]));
    assert!(apply(&mut e, Op::Back { id: 1 }, NONE).is_empty());
    assert!(apply(&mut e, Op::Back { id: 3 }, ALL).is_empty());
    assert!(matches!(apply(&mut e, Op::Forward { id: 1 }, ALL)[..], [Action::GoForward { cid: 10 }]));
    assert!(apply(&mut e, Op::Forward { id: 1 }, NONE).is_empty());
    assert!(matches!(apply(&mut e, Op::Focus { id: 1 }, ALL)[..], [Action::SetFocus { cid: 10 }]));
    assert!(apply(&mut e, Op::Focus { id: 1 }, NONE).is_empty());
}

#[test]
fn bounds_move_the_child_view_on_macos_only() {
    let op = || Op::Bounds { id: 1, x: 5, y: 6, w: 0, h: -7 };
    let mut e = windowed(Platform::MacOs);
    assert!(matches!(
        apply(&mut e, op(), ALL)[..],
        [Action::PlaceChild { cid: 10, x: 5, y: 6, w: 1, h: 1 }, Action::WasResized { cid: 10 }]
    ));
    let mut e = windowed(Platform::Linux);
    assert!(matches!(apply(&mut e, op(), ALL)[..], [Action::WasResized { cid: 10 }]));
    assert!(apply(&mut e, op(), NONE).is_empty());
}

#[test]
fn bounds_resize_an_offscreen_surface() {
    let mut e = offscreen(Platform::MacOs);
    let acts = apply(&mut e, Op::Bounds { id: 1, x: 5, y: 6, w: 70, h: 80 }, ALL);
    assert!(matches!(
        acts[..],
        [Action::PlaceSurface { view: 500, x: 5, y: 6, w: 70, h: 80 }, Action::WasResized { cid: 10 }]
    ));
    assert_eq!((e.surfaces.surfs[&1].log_w, e.surfaces.surfs[&1].log_h), (70, 80));
    let acts = apply(&mut e, Op::Bounds { id: 1, x: 0, y: 0, w: 0, h: 0 }, NONE);
    assert!(matches!(acts[..], [Action::PlaceSurface { w: 1, h: 1, .. }]));
}

#[test]
fn showing_an_offscreen_browser_paints_it_anew() {
    let mut e = offscreen(Platform::MacOs);
    e.pump.tick_on = false;
    let acts = apply(&mut e, Op::Hidden { id: 1, hidden: true }, ALL);
    assert!(matches!(acts[..], [Action::HideSurface { view: 500, hidden: true }, Action::WasHidden { cid: 10, hidden: true }]));
    assert!(e.surfaces.surfs[&1].hidden && !e.visible.contains(&1));
    let acts = apply(&mut e, Op::Hidden { id: 1, hidden: false }, ALL);
    assert!(matches!(
        acts[..],
        [
            Action::DispatchTick { delay_ms: 0 },
            Action::HideSurface { view: 500, hidden: false },
            Action::WasHidden { cid: 10, hidden: false },
            Action::Invalidate { cid: 10 }
        ]
    ));
    assert!(!e.surfaces.surfs[&1].hidden && e.visible.contains(&1));
    assert_eq!(e.active_ids.get(&1), Some(&1600));
}

#[test]
fn hiding_a_windowed_browser_hides_its_view() {
    let mut e = windowed(Platform::MacOs);
    let acts = apply(&mut e, Op::Hidden { id: 1, hidden: true }, ALL);
    assert!(matches!(acts[..], [Action::WasHidden { cid: 10, hidden: true }, Action::HideChild { cid: 10, hidden: true }]));
    let e = windowed(Platform::Windows);
    assert!(matches!(set_native_hidden(&e, 1, true, ALL).list[..], [Action::WasHidden { cid: 10, hidden: true }]));
    assert!(set_native_hidden(&e, 1, true, NONE).list.is_empty());
}

#[test]
fn closing_hides_first_and_counts() {
    let mut e = offscreen(Platform::MacOs);
    e.devtools_screencast.insert(1, true);
    let acts = apply(&mut e, Op::Close { id: 1 }, ALL);
    assert!(matches!(
        acts[..],
        [
            Action::WasHidden { cid: 10, hidden: true },
            Action::HideChild { cid: 10, hidden: true },
            Action::HideSurface { view: 500, hidden: true },
            Action::CloseBrowser { cid: 10 }
        ]
    ));
    assert_eq!((e.dbg.close_applied, e.dbg.close_browser, e.dbg.close_notfound), (1, 1, 0));
    assert!(e.devtools_screencast.is_empty());
    assert!(apply(&mut e, Op::Close { id: 1 }, ALL).is_empty());
    assert_eq!((e.dbg.close_applied, e.dbg.close_browser), (2, 1));
    assert!(apply(&mut e, Op::Close { id: 8 }, ALL).is_empty());
    assert_eq!(e.dbg.close_notfound, 1);
}

#[test]
fn a_closing_browser_is_left_alone() {
    let mut e = offscreen(Platform::MacOs);
    apply(&mut e, Op::Close { id: 1 }, ALL);
    let shape = format!("{:?}", e.surfaces.surfs);
    for op in [
        Op::Bounds { id: 1, x: 0, y: 0, w: 9, h: 9 },
        Op::Hidden { id: 1, hidden: false },
        Op::Focus { id: 1 },
        Op::Mouse { id: 1, kind: 1, x: 0, y: 0, button: 0, clicks: 1, mods: 0 },
        Op::Wheel { id: 1, x: 0, y: 0, dx: 1, dy: 1 },
        Op::Key { id: 1, kind: 0, code: 1, ch: 0, mods: 0 },
        Op::Ime { id: 1, kind: 1, text: "x".into(), caret: 0 },
        Op::Load { id: 1, url: "https://x/".into() },
        Op::Reload { id: 1, ignore_cache: false },
        Op::Reload { id: 1, ignore_cache: true },
        Op::Stop { id: 1 },
        Op::Back { id: 1 },
        Op::Forward { id: 1 },
        Op::Close { id: 1 },
    ] {
        assert!(apply(&mut e, op, ALL).is_empty());
    }
    let acts = apply(&mut e, Op::Eval { id: 1, eval_id: 7, js: "1".into() }, ALL);
    assert!(matches!(acts[..], [Action::Emit { .. }]));
    assert_eq!(format!("{:?}", e.surfaces.surfs), shape);
    assert!(e.pressed.is_empty() && !e.visible.contains(&1));
    assert!(e.close_requested.contains(&1));
}

#[test]
fn an_overlay_that_goes_makes_everything_active() {
    let mut e = engine(Platform::MacOs);
    assert!(apply(&mut e, Op::Overlay { active: true }, NONE).is_empty());
    assert!(e.overlay_active);
    assert_eq!(e.active_until_ms, 0);
    let acts = apply(&mut e, Op::Overlay { active: false }, NONE);
    assert!(matches!(acts[..], [Action::DispatchTick { delay_ms: 0 }]));
    assert_eq!(e.active_until_ms, 1600);
}

#[test]
fn mouse_events_carry_keys_and_held_buttons() {
    let mut e = offscreen(Platform::MacOs);
    let mouse = |kind, button, clicks, mods| Op::Mouse { id: 1, kind, x: 3, y: 4, button, clicks, mods };
    assert!(matches!(
        apply(&mut e, mouse(1, 0, 0, 1), ALL)[..],
        [Action::MouseClick { cid: 10, x: 3, y: 4, modifiers: 0x12, button: MouseButton::Left, up: false, clicks: 1 }]
    ));
    assert!(matches!(apply(&mut e, mouse(0, 0, 1, 0), ALL)[..], [Action::MouseMove { cid: 10, x: 3, y: 4, modifiers: 0x10 }]));
    assert!(matches!(
        apply(&mut e, mouse(1, 2, 2, 0), ALL)[..],
        [Action::MouseClick { modifiers: 0x50, button: MouseButton::Right, up: false, clicks: 2, .. }]
    ));
    assert!(matches!(apply(&mut e, Op::Wheel { id: 1, x: 1, y: 2, dx: 3, dy: -4 }, ALL)[..],
        [Action::MouseWheel { cid: 10, x: 1, y: 2, modifiers: 0x50, dx: -3, dy: 4 }]));
    assert!(matches!(
        apply(&mut e, mouse(2, 0, 1, 0), ALL)[..],
        [Action::MouseClick { modifiers: 0x50, button: MouseButton::Left, up: true, .. }]
    ));
    assert!(matches!(
        apply(&mut e, mouse(2, 1, 1, 12), ALL)[..],
        [Action::MouseClick { modifiers: 0xc8, button: MouseButton::Middle, up: true, .. }]
    ));
    assert_eq!(e.pressed.get(&1), Some(&4));
    assert!(apply(&mut e, mouse(9, 0, 1, 0), ALL).is_empty());
    assert!(apply(&mut e, mouse(1, 0, 1, 0), NONE).is_empty());
    assert_eq!(e.pressed.get(&1), Some(&4));
}

#[test]
fn the_smallest_wheel_step_keeps_its_sign() {
    let mut e = offscreen(Platform::MacOs);
    assert!(matches!(
        apply(&mut e, Op::Wheel { id: 1, x: 0, y: 0, dx: i32::MIN, dy: 0 }, ALL)[..],
        [Action::MouseWheel { dx: i32::MIN, dy: 0, .. }]
    ));
}

#[test]
fn a_character_is_its_own_key_code_on_windows() {
    let op = |kind| Op::Key { id: 1, kind, code: 65, ch: 97, mods: 15 };
    let mut e = offscreen(Platform::Windows);
    assert!(matches!(apply(&mut e, op(2), ALL)[..], [Action::Key { cid: 10, kind: KeyKind::Char, modifiers: 0x8e, code: 97, ch: 97 }]));
    assert!(matches!(apply(&mut e, op(0), ALL)[..], [Action::Key { kind: KeyKind::RawDown, code: 65, .. }]));
    let mut e = offscreen(Platform::MacOs);
    assert!(matches!(apply(&mut e, op(2), ALL)[..], [Action::Key { kind: KeyKind::Char, code: 65, .. }]));
    assert!(matches!(apply(&mut e, op(1), ALL)[..], [Action::Key { kind: KeyKind::Up, .. }]));
}

#[test]
fn compositions_are_measured_in_utf16() {
    let mut e = offscreen(Platform::MacOs);
    let ime = |kind, caret| Op::Ime { id: 1, kind, text: "하😀".to_string(), caret };
    assert!(matches!(&apply(&mut e, ime(0, 2), ALL)[..], [Action::ImeSet { cid: 10, text, len: 3, caret: 2 }] if text == "하😀"));
    assert!(matches!(apply(&mut e, ime(0, u32::MAX), ALL)[..], [Action::ImeSet { len: 3, caret: 3, .. }]));
    assert!(matches!(&apply(&mut e, ime(1, 0), ALL)[..], [Action::ImeCommit { cid: 10, text }] if text == "하😀"));
    assert!(matches!(apply(&mut e, ime(2, 0), ALL)[..], [Action::ImeFinish { cid: 10 }]));
    assert!(matches!(apply(&mut e, ime(3, 0), ALL)[..], [Action::ImeCancel { cid: 10 }]));
}

#[test]
fn scripts_run_in_an_asynchronous_body() {
    let mut e = windowed(Platform::MacOs);
    let acts = apply(&mut e, Op::Eval { id: 1, eval_id: 12, js: "return 1".into() }, ALL);
    let [Action::ExecuteJs { cid: 10, script }] = &acts[..] else { panic!("{acts:?}") };
    assert_eq!(
        script,
        "(async()=>{let __ok=true,__v;try{__v=await(async()=>{ return 1 })();}catch(e){__ok=false;__v=String((e&&e.stack)||e);}let __s;try{__s=JSON.stringify(__v===undefined?null:__v);}catch(_){__s=JSON.stringify(String(__v));}try{window.cefQuery({request:JSON.stringify({__soksakEval:12,ok:__ok,value:JSON.parse(__s)}),onSuccess:function(){},onFailure:function(){}});}catch(_){}})();"
    );
    assert_eq!(&wrap_script(12, "return 1"), script);
}

#[test]
fn a_script_without_a_page_fails_loudly() {
    let mut e = engine(Platform::MacOs);
    let mut acts = apply(&mut e, Op::Eval { id: 4, eval_id: 2, js: "1".into() }, NONE);
    let Some(Action::Emit { event }) = acts.pop() else { panic!() };
    assert_eq!(render(event), r#"{"evalId":2,"event":"eval-result","id":4,"ok":false,"value":"브라우저/프레임 없음"}"#);
}

#[test]
fn plans_follow_the_mode() {
    let mut e = engine(Platform::MacOs);
    engine::request_create(&mut e, 9, 1, 2, 0, 4, "u".to_string(), None, String::new(), 0);
    engine::request_create(&mut e, 9, 1, 2, 3, -4, "v".to_string(), Some(Num::Pos(2)), String::new(), 0);
    let mut reqs = take_pending(&mut e);
    assert!(e.pending.is_empty());
    let second = reqs.pop().unwrap();
    let first = reqs.pop().unwrap();
    assert!(matches!(plan_create(&mut e, first, false),
        Plan::Windowed { id: 1, nsview: 9, x: 1, y: 2, w: 1, h: 4, url } if url == "u"));
    assert!(matches!(plan_create(&mut e, second, false),
        Plan::Offscreen { id: 2, nsview: 9, x: 1, y: 2, w: 3, h: 1, scale: Num::Pos(2), url } if url == "v"));
}

#[test]
fn devtools_wait_for_their_target() {
    let mut e = windowed(Platform::MacOs);
    e.devtools_port = 4321;
    e.next_id = 7;
    let (id, _) = engine::request_create_devtools(&mut e, 99, 1, 2, 3, 4, 1, true, "o".to_string(), 0);
    assert_eq!(id, 7);
    let req = take_pending(&mut e).pop().unwrap();
    assert!(matches!(plan_create(&mut e, req, true), Plan::Devtools { cid: 10, msg_id: 1 }));
    assert_eq!(e.devtools_msg_id, 2);
    assert!(on_dev_tools_method_result(&mut e, 5, 1, None, 0).list.is_empty());
    assert_eq!(e.devtools_wait.len(), 1);
    e.pump.scheduled = false;
    let acts = on_dev_tools_method_result(&mut e, 1, 1, Some(br#"{"targetInfo":{"targetId":"T9"}}"#), 0);
    assert!(matches!(acts.list[..], [Action::DispatchPump { delay_ms: 0 }]));
    assert!(e.devtools_wait.is_empty());
    let made = &e.pending[0];
    assert_eq!((made.id, made.nsview, made.x, made.y, made.w, made.h), (7, 99, 1, 2, 3, 4));
    assert_eq!(made.url, "http://127.0.0.1:4321/devtools/inspector.html?ws=127.0.0.1:4321/devtools/page/T9");
    assert!(made.devtools_of.is_none());
    assert_eq!(e.devtools_screencast.get(&7), Some(&true));
}

#[test]
fn devtools_end_where_the_answer_is_no_use() {
    for (success, result) in [
        (0, Some(&br#"{"targetInfo":{"targetId":"T"}}"#[..])),
        (1, None),
        (1, Some(&b"{"[..])),
        (1, Some(&b"{}"[..])),
        (1, Some(&br#"{"targetInfo":{"targetId":5}}"#[..])),
    ] {
        let mut e = windowed(Platform::MacOs);
        engine::request_create_devtools(&mut e, 99, 0, 0, 1, 1, 1, false, String::new(), 0);
        let req = take_pending(&mut e).pop().unwrap();
        plan_create(&mut e, req, true);
        assert!(on_dev_tools_method_result(&mut e, 1, success, result, 0).list.is_empty());
        assert!(e.devtools_wait.is_empty() && e.pending.is_empty());
    }
}

#[test]
fn devtools_for_a_browser_that_is_gone_are_skipped() {
    let mut e = windowed(Platform::MacOs);
    engine::request_create_devtools(&mut e, 99, 0, 0, 1, 1, 1, false, String::new(), 0);
    engine::request_create_devtools(&mut e, 99, 0, 0, 1, 1, 6, false, String::new(), 0);
    let mut reqs = take_pending(&mut e);
    assert!(matches!(plan_create(&mut e, reqs.pop().unwrap(), true), Plan::Skip));
    assert!(matches!(plan_create(&mut e, reqs.pop().unwrap(), false), Plan::Skip));
    assert!(e.devtools_wait.is_empty());
}

#[test]
fn a_message_that_was_not_sent_is_not_waited_for() {
    let mut e = windowed(Platform::MacOs);
    for _ in 0..2 {
        engine::request_create_devtools(&mut e, 99, 0, 0, 1, 1, 1, false, String::new(), 0);
    }
    for req in take_pending(&mut e) {
        plan_create(&mut e, req, true);
    }
    devtools_sent(&mut e, 2, true);
    assert_eq!(e.devtools_wait.len(), 2);
    devtools_sent(&mut e, 1, false);
    assert_eq!(e.devtools_wait.len(), 1);
    assert_eq!(e.devtools_wait[0].msg_id, 2);
}

#[test]
fn only_positive_finite_scales_are_used() {
    assert_eq!(usable_scale(2.0f32.to_bits()), 2.0f32.to_bits());
    assert_eq!(usable_scale(f32::MIN_POSITIVE.to_bits()), f32::MIN_POSITIVE.to_bits());
    assert_eq!(usable_scale(1), 1);
    assert_eq!(usable_scale(f32::MAX.to_bits()), f32::MAX.to_bits());
    for bad in [0.0f32, -0.0, -1.0, f32::INFINITY, f32::NEG_INFINITY, f32::NAN] {
        assert_eq!(usable_scale(bad.to_bits()), 1.0f32.to_bits());
    }
}

#[test]
fn an_offscreen_browser_is_registered() {
    let mut e = engine(Platform::MacOs);
    assert!(begin_offscreen(&mut e, 3, 99, 0, 20, 0, 500, 600).is_none());
    assert_eq!(e.osr_creating, Some((1, 20, ONE)));
    let acts = create_offscreen(&mut e, 3, 99, Some(30), 7);
    assert!(matches!(acts.list[..], [Action::DispatchTick { delay_ms: 0 }]));
    assert_eq!(e.browsers, vec![(3, 30)]);
    assert_eq!(e.parents, vec![(3, 99)]);
    assert!(e.visible.contains(&3));
    assert_eq!(e.active_ids.get(&3), Some(&1507));
    assert!(e.osr_creating.is_none());
}

#[test]
fn an_offscreen_browser_on_windows_confirms_its_size() {
    let mut e = engine(Platform::Windows);
    assert!(matches!(begin_offscreen(&mut e, 3, 99, 1, 1, ONE, 0, 0), Some(Note::SurfacePending)));
    assert!(matches!(create_offscreen(&mut e, 3, 99, Some(30), 7).list[..], [Action::WasResized { cid: 30 }]));
    let mut e = engine(Platform::Linux);
    begin_offscreen(&mut e, 3, 99, 1, 1, ONE, 0, 0);
    assert!(create_offscreen(&mut e, 3, 99, Some(30), 7).list.is_empty());
}

#[test]
fn a_failed_offscreen_browser_leaves_no_surface() {
    let mut e = engine(Platform::MacOs);
    begin_offscreen(&mut e, 3, 99, 10, 10, ONE, 500, 600);
    assert!(e.surfaces.surfs.contains_key(&3));
    let acts = create_offscreen(&mut e, 3, 99, None, 7);
    assert!(matches!(&acts.list[..], [Action::ReleaseSurface { surf }] if surf.view == 500));
    assert!(e.surfaces.surfs.is_empty() && e.browsers.is_empty() && e.parents.is_empty());
    assert!(e.osr_creating.is_none());
    begin_offscreen(&mut e, 4, 0, 10, 10, ONE, 0, 0);
    assert!(create_offscreen(&mut e, 4, 0, None, 7).list.is_empty());
}

#[test]
fn a_windowed_browser_goes_below_its_siblings() {
    let mut e = engine(Platform::MacOs);
    let mut acts = create_windowed(&mut e, 2, 88, Some(20), Some(0xabc), 1).list;
    assert!(matches!(acts[2], Action::DispatchTick { delay_ms: 0 }));
    assert!(matches!(acts[0], Action::LowerChild { cid: 20 }));
    let Action::Emit { event } = acts.remove(1) else { panic!() };
    assert_eq!(render(event), r#"{"event":"surface-created","view":2748}"#);
    assert_eq!((e.browsers[0], e.parents[0]), ((2, 20), (2, 88)));
    assert!(create_windowed(&mut e, 3, 88, None, None, 1).list.is_empty());
    assert_eq!(e.browsers.len(), 1);
    let mut e = engine(Platform::Linux);
    assert!(create_windowed(&mut e, 2, 88, Some(20), Some(5), 1).list.is_empty());
}

#[test]
fn rows_count_from_below_on_macos() {
    assert_eq!(flip_y(Platform::MacOs, Some(600), 10, 100), 490);
    assert_eq!(flip_y(Platform::MacOs, None, 10, 100), 10);
    assert_eq!(flip_y(Platform::Windows, Some(600), 10, 100), 10);
}

#[test]
fn only_active_offscreen_browsers_are_painted() {
    let mut e = engine(Platform::MacOs);
    for id in 1..4u32 {
        begin_offscreen(&mut e, id, 99, 10, 10, ONE, 1, 1);
        create_offscreen(&mut e, id, 99, Some(id as i32 * 10), 0);
    }
    create_windowed(&mut e, 4, 99, Some(40), None, 0);
    e.active_ids.clear();
    e.active_ids.insert(2, 2000);
    e.active_ids.insert(4, 2000);
    e.loading.insert(30);
    assert!(matches!(paint_active(&mut e, 1999).list[..], [Action::Invalidate { cid: 20 }, Action::Invalidate { cid: 30 }]));
    assert!(matches!(paint_active(&mut e, 2000).list[..], [Action::Invalidate { cid: 30 }]));
    e.loading.clear();
    assert!(paint_active(&mut e, 2000).list.is_empty());
    assert!(e.active_ids.is_empty());
    e.active_until_ms = 2001;
    assert_eq!(paint_active(&mut e, 2000).list.len(), 3);
}

#[test]
fn a_kick_makes_active_and_pumps() {
    let mut e = offscreen(Platform::MacOs);
    e.pump.tick_on = false;
    let acts = kick_paint(&mut e, 1, 50);
    assert!(matches!(acts.list[..], [Action::DispatchTick { delay_ms: 0 }, Action::DispatchPump { delay_ms: 0 }]));
    assert_eq!(e.active_ids.get(&1), Some(&1550));
}

#[test]
fn reaping_drops_what_has_closed() {
    let mut e = engine(Platform::MacOs);
    begin_offscreen(&mut e, 1, 99, 10, 10, ONE, 500, 600);
    create_offscreen(&mut e, 1, 99, Some(10), 0);
    create_windowed(&mut e, 2, 99, Some(20), None, 0);
    create_windowed(&mut e, 3, 98, Some(30), None, 0);
    for id in 1..4 {
        e.owners.insert(id, "o".to_string());
        e.close_requested.insert(id);
        e.pressed.insert(id, 1);
    }
    assert!(reap_closing(&mut e).list.is_empty());
    assert_eq!(e.browsers.len(), 3);
    e.closing = vec![30, 77, 10];
    let acts = reap_closing(&mut e).list;
    assert!(matches!(
        &acts[..],
        [Action::DropBrowser { cid: 10 }, Action::DropBrowser { cid: 30 }, Action::ReleaseSurface { surf }] if surf.view == 500
    ));
    assert_eq!(e.browsers, vec![(2, 20)]);
    assert_eq!(e.parents, vec![(2, 99)]);
    assert_eq!(e.dbg.reaped, 2);
    assert!(e.closing.is_empty() && e.surfaces.surfs.is_empty());
    assert_eq!(e.owners.keys().copied().collect::<Vec<u32>>(), vec![2]);
    assert_eq!(e.close_requested.iter().copied().collect::<Vec<u32>>(), vec![2]);
    assert_eq!(e.pressed.keys().copied().collect::<Vec<u32>>(), vec![2]);
}

#[test]
fn work_that_was_asked_for_meanwhile_is_done() {
    let mut e = engine(Platform::MacOs);
    assert!(engine::begin_work(&mut e));
    assert!(!engine::begin_work(&mut e));
    assert!(e.pump.redo);
    assert!(matches!(end_work(&mut e, 0).list[..], [Action::DispatchPump { delay_ms: 0 }]));
    assert!(!e.pump.in_work && !e.pump.redo && e.pump.scheduled);
    engine::pump_entry(&mut e);
    assert!(engine::begin_work(&mut e));
    assert!(end_work(&mut e, 0).list.is_empty());
}

#[test]
fn ids_stay_apart_from_request_to_end() {
    let mut e = engine(Platform::MacOs);
    let (page, _) = engine::request_create(&mut e, 99, 0, 0, 5, 5, "u".into(), None, String::new(), 0);
    for req in take_pending(&mut e) {
        assert!(matches!(plan_create(&mut e, req, false), Plan::Windowed { id: 1, .. }));
        create_windowed(&mut e, 1, 99, Some(10), None, 0);
    }
    let (tools, _) = engine::request_create_devtools(&mut e, 99, 0, 0, 5, 5, page, false, String::new(), 0);
    let (other, _) = engine::request_create(&mut e, 99, 0, 0, 5, 5, "v".into(), None, String::new(), 0);
    assert_eq!((page, tools, other), (1, 2, 3));
    let mut held = take_pending(&mut e);
    let req = held.remove(0);
    let Plan::Devtools { msg_id, .. } = plan_create(&mut e, req, true) else { panic!() };
    on_dev_tools_method_result(&mut e, msg_id, 1, Some(br#"{"targetInfo":{"targetId":"T"}}"#), 0);
    let used: Vec<u32> = e.browsers.iter().map(|b| b.0).chain(e.pending.iter().map(|r| r.id)).chain(held.iter().map(|r| r.id)).collect();
    assert_eq!(used, vec![1, 2, 3]);
    assert!(e.devtools_wait.is_empty() && e.next_id == 4);
}

#[test]
fn a_new_browser_is_reached_in_the_same_round() {
    let mut e = engine(Platform::MacOs);
    create_windowed(&mut e, 1, 99, Some(10), None, 0);
    assert!(matches!(apply(&mut e, Op::Stop { id: 1 }, ALL)[..], [Action::StopLoad { cid: 10 }]));
}

#[test]
fn every_active_page_is_painted_once() {
    let mut e = offscreen(Platform::MacOs);
    begin_offscreen(&mut e, 2, 99, 300, 200, ONE, 501, 601);
    create_offscreen(&mut e, 2, 99, Some(20), 900);
    create_windowed(&mut e, 3, 99, Some(30), None, 900);
    assert!(matches!(paint_active(&mut e, 1000).list[..], [Action::Invalidate { cid: 10 }, Action::Invalidate { cid: 20 }]));
    assert!(matches!(paint_active(&mut e, 1500).list[..], [Action::Invalidate { cid: 20 }]));
    assert!(paint_active(&mut e, 2400).list.is_empty());
}
