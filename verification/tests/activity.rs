use soksak_sidecar_browser_chromium::engine::{self, Engine, RENDER_TICK_MS};
use soksak_sidecar_browser_chromium::input;
use soksak_sidecar_browser_chromium::ops::{target_of, Action, Op};
use soksak_sidecar_browser_chromium::presenter::Platform;
use soksak_sidecar_browser_chromium::work::{next_step, Step};

fn engine(platform: Platform) -> Engine {
    Engine::new(platform, false)
}

#[test]
fn one_run_of_the_pump_waits_on_the_main_queue() {
    let mut e = engine(Platform::MacOs);
    assert!(matches!(engine::schedule_pump(&mut e, 30, 0).list[..], [Action::DispatchPump { delay_ms: 30 }]));
    assert!(engine::schedule_pump(&mut e, 0, 0).list.is_empty());
    engine::pump_entry(&mut e);
    assert!(matches!(engine::schedule_pump(&mut e, -5, 0).list[..], [Action::DispatchPump { delay_ms: 0 }]));
}

#[test]
fn elsewhere_the_earliest_time_is_kept() {
    let mut e = engine(Platform::Windows);
    assert!(engine::schedule_pump(&mut e, 50, 100).list.is_empty());
    engine::schedule_pump(&mut e, 10, 100);
    engine::schedule_pump(&mut e, 90, 100);
    assert_eq!(e.pump.due, Some(110));
    assert!(!engine::drive_pump(&mut e, 109).pump);
    assert!(engine::drive_pump(&mut e, 110).pump);
    assert!(!engine::drive_pump(&mut e, 110).pump);
    engine::schedule_pump(&mut e, i64::MAX, u64::MAX);
    assert_eq!(e.pump.due, Some(u64::MAX));
}

#[test]
fn activity_belongs_to_the_browser_it_happened_to() {
    let mut e = engine(Platform::MacOs);
    engine::set_focus(&mut e, 4, 100);
    assert_eq!(e.active_ids.get(&4), Some(&1600));
    assert_eq!(e.active_ids.len(), 1);
    assert_eq!(e.active_until_ms, 0);
    engine::close(&mut e, 5, 200);
    assert_eq!(e.active_ids.len(), 1);
    assert_eq!(e.dbg.close_enter, 1);
    engine::set_overlay(&mut e, true, 300);
    assert_eq!(e.active_ids.len(), 1);
    assert_eq!(e.active_until_ms, 1800);
}

#[test]
fn grace_runs_out() {
    let mut e = engine(Platform::MacOs);
    engine::bump_id(&mut e, 1, 0);
    assert!(engine::is_active(&mut e, 1499));
    assert!(!engine::is_active(&mut e, 1500));
    assert!(e.active_ids.is_empty());
    engine::bump_active(&mut e, 2000);
    assert!(engine::is_active(&mut e, 3499));
    assert!(!engine::is_active(&mut e, 3500));
    e.loading.insert(1);
    assert!(engine::is_active(&mut e, 9999));
}

#[test]
fn the_tick_stops_when_idle() {
    let mut e = engine(Platform::MacOs);
    assert!(matches!(engine::bump_id(&mut e, 1, 0).list[..], [Action::DispatchTick { delay_ms: 0 }]));
    assert!(engine::bump_id(&mut e, 1, 0).list.is_empty());
    assert!(!engine::render_tick(&mut e, 1));
    assert!(!e.pump.tick_on);
    engine::note_visible(&mut e, 1, true);
    engine::bump_id(&mut e, 1, 0);
    assert!(engine::render_tick(&mut e, 1499));
    assert!(matches!(engine::rearm_tick(&mut e, 0).list[..], [Action::DispatchTick { delay_ms: RENDER_TICK_MS }]));
    assert!(e.pump.tick_on);
    assert!(!engine::render_tick(&mut e, 1500));
    assert!(!e.pump.tick_on);
}

#[test]
fn the_tick_can_be_switched_off() {
    let mut e = Engine::new(Platform::MacOs, true);
    assert!(engine::bump_id(&mut e, 1, 0).list.is_empty());
    assert!(!e.pump.tick_on);
}

#[test]
fn elsewhere_the_tick_has_a_due_time() {
    let mut e = engine(Platform::Linux);
    assert!(engine::start_render_tick(&mut e, 40).list.is_empty());
    assert_eq!(e.pump.tick_due, Some(40));
    assert!(engine::drive_pump(&mut e, 40).tick);
    assert!(engine::rearm_tick(&mut e, 40).list.is_empty());
    assert_eq!(e.pump.tick_due, Some(56));
}

#[test]
fn requests_name_their_browser() {
    let mut e = engine(Platform::MacOs);
    engine::go_back(&mut e, 1, 0);
    engine::go_forward(&mut e, 2, 0);
    engine::set_bounds(&mut e, 3, 1, 2, 3, 4, 0);
    engine::set_hidden(&mut e, 4, true, 0);
    engine::mouse(&mut e, 5, 0, 1, 2, 0, 1, 0, 0);
    engine::wheel(&mut e, 6, 1, 2, 3, 4, 0);
    engine::key(&mut e, 7, 0, 65, 0, 0, 0);
    engine::ime(&mut e, 8, 1, "x".to_string(), 0, 0);
    engine::set_overlay(&mut e, true, 0);
    let named: Vec<Option<u32>> = e.ops.iter().map(target_of).collect();
    assert_eq!(named, vec![Some(1), Some(2), Some(3), Some(4), Some(5), Some(6), Some(7), Some(8), None]);
    assert!(matches!(e.ops[8], Op::Overlay { active: true }));
}

#[test]
fn every_child_of_a_parent_is_closed() {
    let mut e = engine(Platform::MacOs);
    e.parents = vec![(1, 7), (2, 8), (3, 7)];
    let acts = engine::close_surface(&mut e, 7, 0);
    assert!(matches!(acts.list[..], [Action::DispatchPump { delay_ms: 0 }]));
    assert!(matches!(e.ops[..], [Op::Close { id: 1 }, Op::Close { id: 3 }]));
    assert!(engine::close_surface(&mut e, 6, 0).list.is_empty());
}

#[test]
fn ids_are_handed_out_in_turn() {
    let mut e = engine(Platform::MacOs);
    e.next_id = u32::MAX;
    let (a, _) = engine::request_create(&mut e, 1, 0, 0, 1, 1, String::new(), None, "x".to_string(), 0);
    let (b, _) = engine::request_create(&mut e, 1, 0, 0, 1, 1, String::new(), None, "y".to_string(), 0);
    assert_eq!((a, b), (u32::MAX, 0));
    assert_eq!(e.pending.iter().map(|r| r.id).collect::<Vec<u32>>(), vec![u32::MAX, 0]);
    assert_eq!(e.owners[&b], "y");
}

#[test]
fn a_round_takes_its_steps_in_order() {
    let mut steps = Vec::new();
    while let Some(step) = next_step(steps.last().copied()) {
        steps.push(step);
    }
    assert_eq!(steps, vec![Step::Create, Step::Operate, Step::Loop, Step::Paint, Step::Reap, Step::End]);
}

#[test]
fn browsers_are_found_both_ways() {
    let mut e = engine(Platform::MacOs);
    e.browsers = vec![(1, 10), (2, 20)];
    assert_eq!(engine::find_browser(&e, 2), Some(20));
    assert_eq!(engine::find_browser(&e, 3), None);
    assert_eq!(engine::engine_id_of(&e, 10), Some(1));
    assert_eq!(engine::engine_id_of(&e, 11), None);
    assert_eq!(engine::source_of(&e, None), None);
    assert_eq!(engine::browser_ids(&e), vec![1, 2]);
    assert_eq!(engine::surfaces_info(&e), vec![(1, String::new(), false), (2, String::new(), false)]);
}

#[test]
fn keys_and_buttons_have_flags_of_their_own() {
    assert_eq!(input::event_flags(0), 0);
    assert_eq!(input::event_flags(1), 1 << 1);
    assert_eq!(input::event_flags(2), 1 << 2);
    assert_eq!(input::event_flags(4), 1 << 3);
    assert_eq!(input::event_flags(8), 1 << 7);
    assert_eq!(input::event_flags(16), 0);
    let mut pressed = std::collections::HashMap::new();
    for (button, bit) in [(0u8, 1u32 << 4), (1, 1 << 5), (2, 1 << 6), (9, 1 << 6)] {
        input::pressed_set(&mut pressed, 1, button, true);
        assert_eq!(input::pressed_flags(&pressed, 1) & input::event_flags(15), 0);
        assert_eq!(input::pressed_flags(&pressed, 1), bit);
        input::pressed_set(&mut pressed, 1, button, false);
        assert_eq!(input::pressed_flags(&pressed, 1), 0);
    }
    assert_eq!(input::pressed_flags(&pressed, 2), 0);
}
