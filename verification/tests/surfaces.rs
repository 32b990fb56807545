use soksak_sidecar_browser_chromium::apply::{apply_op, Probe};
use soksak_sidecar_browser_chromium::create::{begin_offscreen, create_offscreen};
use soksak_sidecar_browser_chromium::engine::Engine;
use soksak_sidecar_browser_chromium::ops::Op;
use soksak_sidecar_browser_chromium::presenter::{
    self, Frame, Note, Platform, Pool, PopupStep, PresentStep, Surfaces, Target,
};
use soksak_sidecar_browser_chromium::protocol::soksak_sidecar_engine_message;
use soksak_sidecar_browser_chromium::render::{
    on_accelerated_paint, on_paint, on_popup_show, on_popup_size, screen_info, view_rect,
};

const TWO: u32 = 0x4000_0000;

fn surfaces() -> Surfaces {
    let mut s = Surfaces::new();
    presenter::create_surface(&mut s, Platform::MacOs, 1, 99, 300, 200, TWO, 500, 600);
    s
}

fn engine(platform: Platform) -> Engine {
    let mut e = Engine::new(platform, false);
    begin_offscreen(&mut e, 1, 99, 300, 200, TWO, 500, 600);
    create_offscreen(&mut e, 1, 99, Some(10), 0);
    e
}

#[test]
fn a_surface_knows_size_and_scale() {
    let mut s = surfaces();
    assert!(presenter::is_offscreen(&s, 1) && !presenter::is_offscreen(&s, 2));
    assert_eq!(presenter::logical_size(&s, 1), Some((300, 200)));
    assert_eq!(presenter::logical_size(&s, 2), None);
    assert_eq!(presenter::scale_of(&s, 1), Some(TWO));
    assert_eq!(presenter::set_bounds(&mut s, 1, -4, 50), Some(500));
    assert_eq!(presenter::logical_size(&s, 1), Some((1, 50)));
    assert_eq!(presenter::set_bounds(&mut s, 2, 1, 1), None);
    assert_eq!(presenter::set_hidden(&mut s, 1, true), Some(500));
    assert_eq!(presenter::set_hidden(&mut s, 2, true), None);
    assert_eq!(presenter::destroy(&mut s, 1).map(|f| f.view), Some(500));
    assert!(presenter::destroy(&mut s, 1).is_none());
}

#[test]
fn a_surface_needs_a_parent() {
    let mut s = Surfaces::new();
    assert!(presenter::create_surface(&mut s, Platform::Windows, 1, 0, 3, 3, TWO, 5, 6).is_none());
    assert!(s.surfs.is_empty());
    assert!(matches!(presenter::create_surface(&mut s, Platform::Windows, 1, 9, 3, 3, TWO, 5, 6), Some(Note::SurfacePending)));
    assert!(presenter::create_surface(&mut s, Platform::Windows, 1, 9, 3, 3, TWO, 5, 6).is_none());
}

#[test]
fn the_popup_layer_is_made_when_first_shown() {
    let mut s = surfaces();
    assert!(presenter::popup_rect(&mut s, 1, 10, 20, 30, 40).is_none());
    assert_eq!(presenter::popup_show(&mut s, Platform::MacOs, 1, false), PopupStep::Nothing);
    assert_eq!(presenter::popup_show(&mut s, Platform::MacOs, 1, true), PopupStep::MakeLayer { root: 600, scale: TWO });
    let frame = Frame { x: 10, y: 140, w: 30, h: 40 };
    assert_eq!(presenter::popup_layer_made(&mut s, 1, 700), PopupStep::Show { layer: 700, frame });
    assert_eq!(presenter::popup_show(&mut s, Platform::MacOs, 1, true), PopupStep::Show { layer: 700, frame });
    assert_eq!(presenter::popup_rect(&mut s, 1, 0, 0, 0, -5), Some((700, Frame { x: 0, y: 205, w: 1, h: 1 })));
    assert_eq!(presenter::popup_show(&mut s, Platform::MacOs, 1, false), PopupStep::Hide { layer: 700 });
    assert_eq!(presenter::popup_show(&mut s, Platform::Linux, 1, true), PopupStep::Nothing);
    assert_eq!(presenter::popup_show(&mut s, Platform::MacOs, 2, true), PopupStep::Nothing);
    assert_eq!(presenter::popup_layer_made(&mut s, 2, 1), PopupStep::Nothing);
    assert_eq!(presenter::apply_popup_frame(&s.surfs[&1]), Frame { x: 0, y: 205, w: 1, h: 1 });
}

#[test]
fn frames_are_dropped_where_they_have_nowhere_to_go() {
    let mut s = surfaces();
    let step = |s: &Surfaces, id, has, w, h, gpu, popup| presenter::present_target(s, id, has, w, h, gpu, popup);
    assert!(matches!(step(&s, 1, false, 5, 5, true, false), PresentStep::Drop { note: None }));
    assert!(matches!(step(&s, 1, true, 0, 5, true, false), PresentStep::Drop { note: None }));
    assert!(matches!(step(&s, 1, true, 5, -1, true, false), PresentStep::Drop { note: None }));
    assert!(matches!(step(&s, 1, true, 5, 5, false, false), PresentStep::Drop { note: Some(Note::GpuMissing) }));
    assert!(matches!(step(&s, 2, true, 5, 5, true, false), PresentStep::Drop { note: None }));
    assert!(matches!(step(&s, 1, true, 5, 5, true, true), PresentStep::Drop { note: None }));
    presenter::set_hidden(&mut s, 1, true);
    assert!(matches!(step(&s, 1, true, 5, 5, true, false), PresentStep::Drop { note: None }));
    assert!(matches!(presenter::present(&s, Platform::Linux, 1, true, 5, 5, true), PresentStep::Drop { note: Some(Note::PresentPending) }));
    assert!(matches!(presenter::present_popup(&s, Platform::Windows, 1, true, 5, 5, true), PresentStep::Drop { note: Some(Note::PopupPresentPending) }));
}

#[test]
fn buffers_take_turns() {
    let mut s = surfaces();
    let PresentStep::Rebuild { old } = presenter::present(&s, Platform::MacOs, 1, true, 8, 6, true) else { panic!() };
    assert!(presenter::release_pool(&old).is_empty());
    presenter::ensure_pool(&mut s, 1, false, [11, 12, 13], [21, 22, 23], 8, 6);
    let mut shown = Vec::new();
    for i in 0..4 {
        let PresentStep::Blit { target } = presenter::present(&s, Platform::MacOs, 1, true, 8, 6, true) else { panic!() };
        assert_eq!(target.layer, 600);
        shown.push((target.surface, target.texture));
        assert_eq!(presenter::frame_presented(&mut s, 1, false), i == 0);
    }
    assert_eq!(shown, vec![(11, 21), (12, 22), (13, 23), (11, 21)]);
    assert_eq!(s.frames_presented, 4);
    assert!(matches!(presenter::present(&s, Platform::MacOs, 1, true, 8, 7, true), PresentStep::Rebuild { .. }));
    assert!(!presenter::frame_presented(&mut s, 2, false));
    assert_eq!(s.frames_presented, 4);
}

#[test]
fn a_popup_has_buffers_of_its_own() {
    let mut s = surfaces();
    presenter::ensure_pool(&mut s, 1, false, [11, 12, 13], [21, 22, 23], 8, 6);
    presenter::popup_show(&mut s, Platform::MacOs, 1, true);
    presenter::popup_layer_made(&mut s, 1, 700);
    presenter::ensure_pool(&mut s, 1, true, [31, 32, 33], [41, 42, 43], 4, 4);
    let PresentStep::Blit { target } = presenter::present_popup(&s, Platform::MacOs, 1, true, 4, 4, true) else { panic!() };
    assert_eq!(target, Target { layer: 700, surface: 31, texture: 41 });
    assert!(presenter::frame_presented(&mut s, 1, true));
    assert_eq!(s.surfs[&1].pool.next, 0);
    assert_eq!(s.surfs[&1].popup_pool.next, 1);
}

#[test]
fn a_buffer_that_could_not_be_made_is_skipped() {
    let mut s = surfaces();
    presenter::ensure_pool(&mut s, 1, false, [11, 12, 13], [21, 0, 23], 8, 6);
    let mut shown = Vec::new();
    for _ in 0..4 {
        let PresentStep::Blit { target } = presenter::present(&s, Platform::MacOs, 1, true, 8, 6, true) else { panic!() };
        shown.push((target.surface, target.texture));
        presenter::frame_presented(&mut s, 1, false);
    }
    assert_eq!(shown, vec![(11, 21), (13, 23), (11, 21), (13, 23)]);
    assert_eq!(s.frames_presented, 4);
    presenter::ensure_pool(&mut s, 1, false, [0, 12, 0], [0, 22, 0], 8, 6);
    for _ in 0..2 {
        let PresentStep::Blit { target } = presenter::pool_target(&s, 1, false) else { panic!() };
        assert_eq!((target.surface, target.texture), (12, 22));
        assert!(!presenter::frame_presented(&mut s, 1, false));
        assert_eq!(s.surfs[&1].pool.next, 2);
    }
    assert_eq!(s.frames_presented, 6);
}

#[test]
fn a_frame_without_any_buffer_is_dropped() {
    let mut s = surfaces();
    presenter::ensure_pool(&mut s, 1, false, [11, 0, 13], [0, 0, 0], 8, 6);
    assert!(matches!(presenter::present(&s, Platform::MacOs, 1, true, 8, 6, true), PresentStep::Drop { note: Some(Note::PoolFailed) }));
    assert!(!presenter::frame_presented(&mut s, 1, false));
    assert_eq!((s.frames_presented, s.surfs[&1].pool.next), (0, 0));
    presenter::ensure_pool(&mut s, 1, false, [0, 12, 13], [0, 22, 0], 8, 6);
    let PresentStep::Rebuild { old } = presenter::present(&s, Platform::MacOs, 1, true, 8, 6, true) else { panic!() };
    assert_eq!(presenter::release_pool(&old), vec![22, 12, 13]);
    assert!(presenter::release_pool(&Pool::empty()).is_empty());
}

#[test]
fn frames_in_memory_are_reported_once() {
    let mut s = surfaces();
    assert!(matches!(presenter::present_cpu(&mut s, Platform::MacOs, 1, true, 5, 5), Some(Note::CpuFrameDropped)));
    assert!(presenter::present_cpu(&mut s, Platform::MacOs, 1, true, 5, 5).is_none());
    assert!(matches!(presenter::present_cpu(&mut s, Platform::Linux, 1, true, 5, 5), Some(Note::CpuPresentPending)));
    assert!(presenter::present_cpu(&mut s, Platform::Linux, 2, true, 0, 5).is_none());
    assert!(presenter::present_cpu(&mut s, Platform::Linux, 2, false, 5, 5).is_none());
    assert!(presenter::log_once(&mut s, 3, Note::SourceFailed));
    assert!(!presenter::log_once(&mut s, 3, Note::SourceFailed));
    assert_eq!(presenter::note_text(Platform::MacOs, Note::SourceFailed), "CEF IOSurface 텍스처 개방 실패");
    assert_eq!(presenter::note_text(Platform::Windows, Note::PopupPresentPending), "windows 팝업 present 미구현 (Phase C/D)");
    assert_eq!(presenter::note_text(Platform::Linux, Note::PopupPresentPending), "linux 팝업 present 미구현 (Phase C/D)");
}

#[test]
fn a_browser_is_told_its_size() {
    let mut e = engine(Platform::MacOs);
    assert_eq!(view_rect(&e, Some(10)), Frame { x: 0, y: 0, w: 300, h: 200 });
    let screen = screen_info(&e, Some(10));
    assert_eq!((screen.scale, screen.depth, screen.depth_per_component), (TWO, 32, 8));
    assert_eq!(screen.rect, Frame { x: 0, y: 0, w: 300, h: 200 });
    assert_eq!(view_rect(&e, Some(11)), Frame { x: 0, y: 0, w: 1, h: 1 });
    assert_eq!(screen_info(&e, None).scale, 1.0f32.to_bits());
    begin_offscreen(&mut e, 2, 99, 40, 30, TWO, 501, 601);
    assert_eq!(view_rect(&e, Some(20)), Frame { x: 0, y: 0, w: 40, h: 30 });
    assert_eq!(screen_info(&e, Some(20)).scale, TWO);
    assert_eq!(view_rect(&e, Some(10)), Frame { x: 0, y: 0, w: 300, h: 200 });
}

#[test]
fn a_browser_being_made_is_told_a_usable_size() {
    let mut e = Engine::new(Platform::MacOs, false);
    begin_offscreen(&mut e, 2, 99, 0, -7, TWO, 501, 601);
    assert_eq!(view_rect(&e, Some(20)), Frame { x: 0, y: 0, w: 1, h: 1 });
    create_offscreen(&mut e, 2, 99, None, 0);
    assert!(e.osr_creating.is_none());
}

#[test]
fn new_bounds_are_reported() {
    let mut e = engine(Platform::MacOs);
    let probe = Probe { host: true, frame: true, can_back: false, can_forward: false };
    apply_op(&mut e, Op::Bounds { id: 1, x: 0, y: 0, w: 64, h: 48 }, probe, 0);
    assert_eq!(view_rect(&e, Some(10)), Frame { x: 0, y: 0, w: 64, h: 48 });
}

#[test]
fn popup_and_frames_find_their_surface() {
    let mut e = engine(Platform::MacOs);
    assert_eq!(on_popup_show(&mut e, Some(10), 1), Some((1, PopupStep::MakeLayer { root: 600, scale: TWO })));
    assert!(on_popup_show(&mut e, Some(11), 1).is_none());
    assert!(on_popup_size(&mut e, Some(10), None).is_none());
    assert!(on_popup_size(&mut e, None, Some(Frame { x: 0, y: 0, w: 1, h: 1 })).is_none());
    presenter::popup_layer_made(&mut e.surfaces, 1, 700);
    assert_eq!(on_popup_size(&mut e, Some(10), Some(Frame { x: 1, y: 2, w: 3, h: 4 })), Some((700, Frame { x: 1, y: 194, w: 3, h: 4 })));
    assert!(matches!(on_accelerated_paint(&e, Some(10), false, true, 8, 6, true), Some((1, PresentStep::Rebuild { .. }))));
    assert!(matches!(on_accelerated_paint(&e, Some(10), true, true, 8, 6, true), Some((1, PresentStep::Rebuild { .. }))));
    assert!(on_accelerated_paint(&e, Some(11), false, true, 8, 6, true).is_none());
    assert!(on_paint(&mut e, Some(10), true, true, 8, 6).is_none());
    assert!(matches!(on_paint(&mut e, Some(10), false, true, 8, 6), Some((1, Note::CpuFrameDropped))));
    assert!(on_paint(&mut e, Some(10), false, true, 8, 6).is_none());
    assert!(on_paint(&mut e, None, false, true, 8, 6).is_none());
}

#[test]
fn systems_agree_on_surfaces() {
    let probe = Probe { host: true, frame: true, can_back: false, can_forward: false };
    let decide = |platform| {
        let mut e = engine(platform);
        apply_op(&mut e, Op::Bounds { id: 1, x: 0, y: 0, w: 64, h: 0 }, probe, 0);
        on_popup_show(&mut e, Some(10), 1);
        on_popup_size(&mut e, Some(10), Some(Frame { x: 1, y: 2, w: 3, h: 4 }));
        let screen = screen_info(&e, Some(10));
        let surf = e.surfaces.surfs[&1];
        (view_rect(&e, Some(10)), screen, surf.popup_rect, surf.popup_shown, surf.hidden)
    };
    assert_eq!(decide(Platform::MacOs), decide(Platform::Windows));
    assert_eq!(decide(Platform::MacOs), decide(Platform::Linux));
}

#[test]
fn requests_leave_surfaces_alone() {
    let mut e = engine(Platform::MacOs);
    let before = format!("{:?}", e.surfaces);
    for text in [
        r#"{"type":"bounds","id":1,"w":9,"h":9}"#,
        r#"{"type":"hidden","id":1,"hidden":true}"#,
        r#"{"type":"close","id":1}"#,
        r#"{"type":"create","mode":"offscreen"}"#,
    ] {
        soksak_sidecar_engine_message(&mut e, Some(text.as_bytes()), 99, 0);
    }
    assert_eq!(format!("{:?}", e.surfaces), before);
}
