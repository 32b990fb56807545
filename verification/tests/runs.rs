use soksak_sidecar_browser_chromium::engine::Engine;
use soksak_sidecar_browser_chromium::harness::{
    about_to_wait, config, create_request, frames_shown, hear, host_emit, next_phase, note_created, poll_ms,
    send_input_for_phase, stats_request, Harness, TEST_PAGE,
};
use soksak_sidecar_browser_chromium::json::{parse, render, Num};
use soksak_sidecar_browser_chromium::presenter::Platform;
use soksak_sidecar_browser_chromium::protocol::dispatch;
use soksak_sidecar_browser_chromium::startup::{
    initialize, layout, on_before_command_line_processing, remove_profile, stale_candidate,
};

fn title(h: &mut Harness, t: &str) {
    hear(h, &parse(format!("{{\"event\":\"title\",\"title\":\"{t}\"}}").as_bytes()).unwrap());
}

#[test]
fn a_question_is_answered_with_pong() {
    let mut h = Harness::new(true, 0);
    let reply = host_emit(&mut h, br#"{"event":"query","queryId":4}"#).unwrap();
    assert_eq!(render(reply), r#"{"keep":false,"queryId":4,"response":"pong","success":true,"type":"query-reply"}"#);
    assert!(h.query_seen);
    let reply = host_emit(&mut h, br#"{"event":"query"}"#).unwrap();
    assert!(render(reply).contains("\"queryId\":-1"));
    assert!(host_emit(&mut h, br#"{"event":"title","title":"x"}"#).is_none());
    assert_eq!(h.last_title, "x");
    assert!(host_emit(&mut h, b"\xff").is_none());
    assert!(host_emit(&mut h, br#"{"event":"nav"}"#).is_none());
    assert!(host_emit(&mut h, br#"{}"#).is_none());
    assert_eq!(h.last_title, "x");
}

#[test]
fn the_test_page_is_asked_for() {
    let windowed = serde_json::from_str::<serde_json::Value>(&render(create_request(None))).unwrap();
    assert_eq!(windowed.get("url").and_then(|u| u.as_str()), Some(TEST_PAGE));
    assert!(windowed.get("mode").is_none());
    let scale = serde_json::Number::from_f64(2.0).unwrap();
    let off = serde_json::from_str::<serde_json::Value>(&render(create_request(Some(Num::Real(scale))))).unwrap();
    assert_eq!(off.get("mode").and_then(|m| m.as_str()), Some("offscreen"));
    assert_eq!(off.get("scale").and_then(|m| m.as_f64()), Some(2.0));
    assert_eq!(render(stats_request()), r#"{"type":"stats"}"#);
    assert_eq!(render(config("/d")), r#"{"distDir":"/d","name":"browser-chromium"}"#);
    let mut h = Harness::new(true, 0);
    note_created(&mut h, &parse(br#"{"ok":true,"id":1}"#).unwrap());
    assert!(h.created);
    note_created(&mut h, &parse(br#"{"error":"x"}"#).unwrap());
    assert!(!h.created);
}

#[test]
fn every_input_request_is_understood() {
    let mut e = Engine::new(Platform::MacOs, false);
    for phase in 0..6 {
        let docs = send_input_for_phase(phase);
        assert_eq!(docs.len(), [0, 4, 1, 3, 3, 0][phase as usize]);
        for doc in &docs {
            assert!(dispatch(&mut e, doc, 0, 0).0.is_ok());
        }
    }
    assert_eq!(e.ops.len(), 11);
    let wheel = send_input_for_phase(2).pop().unwrap();
    assert_eq!(render(wheel), r#"{"dx":0,"dy":120,"id":1,"type":"wheel","x":350,"y":250}"#);
}

#[test]
fn steps_follow_the_title() {
    assert_eq!(next_phase(0, "Q_OK:pong", 1), Some(1));
    assert_eq!(next_phase(0, "Q_OK:pong", 0), None);
    assert_eq!(next_phase(1, "CLICK_OK", 0), Some(2));
    assert_eq!(next_phase(1, "CLICK_OK!", 0), None);
    assert_eq!(next_phase(2, "WHEEL_OK:down", 0), Some(3));
    assert_eq!(next_phase(2, "WHEEL_OK:up", 0), None);
    assert_eq!(next_phase(3, "KEY_OK:65", 0), Some(4));
    assert_eq!(next_phase(3, "IME_OK:a", 0), Some(4));
    assert_eq!(next_phase(3, "IME_OK:ab", 0), None);
    assert_eq!(next_phase(4, "IME_OK:a", 0), None);
}

#[test]
fn an_offscreen_run_passes_step_by_step() {
    let mut h = Harness::new(true, 0);
    h.created = true;
    h.query_seen = true;
    for (i, t) in ["Q_OK:pong", "CLICK_OK", "WHEEL_OK:down", "KEY_OK:65"].iter().enumerate() {
        title(&mut h, t);
        let turn = about_to_wait(&mut h, 5, 10 * i as u64);
        assert!(turn.verdict.is_none());
        assert!(!turn.send.is_empty());
        assert_eq!(h.phase as usize, i + 1);
    }
    for t in ["IME_OK:한글", "IME_OK:b한글", "IME_OK:a한글!"] {
        title(&mut h, t);
        assert_eq!(about_to_wait(&mut h, 5, 50).verdict, None);
        assert_eq!(about_to_wait(&mut h, 5, 20_001).verdict, Some(false));
    }
    title(&mut h, "IME_OK:a한글");
    assert_eq!(about_to_wait(&mut h, 5, 50).verdict, Some(true));
    assert_eq!(about_to_wait(&mut h, 0, 50).verdict, None);
    h.query_seen = false;
    assert_eq!(about_to_wait(&mut h, 5, 50).verdict, Some(false));
}

#[test]
fn input_is_sent_again_after_a_while() {
    let mut h = Harness::new(true, 0);
    title(&mut h, "Q_OK:pong");
    assert_eq!(about_to_wait(&mut h, 1, 100).send.len(), 4);
    assert!(about_to_wait(&mut h, 1, 800).send.is_empty());
    assert_eq!(about_to_wait(&mut h, 1, 801).send.len(), 4);
    assert_eq!((h.phase, h.last_input), (1, 801));
}

#[test]
fn a_windowed_run_ends_with_the_answer() {
    let mut h = Harness::new(false, 0);
    h.created = true;
    h.query_seen = true;
    let frames = frames_shown(&h, &parse(b"{}").unwrap());
    assert_eq!(frames, u64::MAX);
    title(&mut h, "Q_OK:pong");
    let turn = about_to_wait(&mut h, frames, 10);
    assert_eq!(turn.verdict, Some(true));
    assert!(turn.send.is_empty());
    title(&mut h, "Q_FAIL:1:x");
    assert_eq!(about_to_wait(&mut h, frames, 10).verdict, Some(false));
    title(&mut h, "boot");
    assert_eq!(about_to_wait(&mut h, frames, 20_000).verdict, None);
    assert_eq!(about_to_wait(&mut h, frames, 20_001).verdict, Some(false));
}

#[test]
fn frames_are_counted_offscreen() {
    let h = Harness::new(true, 0);
    assert_eq!(frames_shown(&h, &parse(br#"{"dbg":{"framesPresented":6}}"#).unwrap()), 6);
    assert_eq!(frames_shown(&h, &parse(br#"{"dbg":{}}"#).unwrap()), 0);
    assert_eq!(frames_shown(&h, &parse(b"{}").unwrap()), 0);
    assert_eq!((poll_ms(Platform::MacOs), poll_ms(Platform::Linux), poll_ms(Platform::Windows)), (100, 16, 16));
}

#[test]
fn starting_tells_where_everything_lies() {
    let mut e = Engine::new(Platform::MacOs, false);
    let start = initialize(&mut e, Some(9222), 123);
    assert_eq!((start.no_sandbox, start.external_message_pump, start.remote_debugging_port), (1, 1, 9222));
    assert_eq!(start.cache_name, "123");
    assert_eq!(e.devtools_port, 9222);
    let mac = start.layout;
    assert_eq!(mac.framework_bin.unwrap(), ["Chromium Embedded Framework.framework", "Chromium Embedded Framework"]);
    assert_eq!(mac.framework_dir.unwrap(), ["Chromium Embedded Framework.framework"]);
    assert_eq!(mac.helper, ["soksak-sidecar-browser-chromium Helper.app", "Contents/MacOS/soksak-sidecar-browser-chromium Helper"]);
    assert_eq!(mac.main_bundle.unwrap(), ["soksak-sidecar-browser-chromium Helper.app"]);
    assert_eq!(mac.resources, ["Chromium Embedded Framework.framework", "Resources"]);
    assert!(mac.locales.is_none());
    let win = layout(Platform::Windows);
    assert_eq!(win.helper, ["soksak-sidecar-browser-chromium-helper.exe"]);
    assert!(win.resources.is_empty() && win.framework_bin.is_none() && win.main_bundle.is_none());
    assert_eq!(win.locales.unwrap(), ["locales"]);
    assert_eq!(layout(Platform::Linux).helper, ["soksak-sidecar-browser-chromium-helper"]);
    assert_eq!(initialize(&mut e, None, 1).remote_debugging_port, 0);
}

#[test]
fn only_numbered_directories_of_others_are_left_over() {
    assert_eq!(stale_candidate("77", 5), Some(77));
    assert_eq!(stale_candidate("5", 5), None);
    assert_eq!(stale_candidate("x", 5), None);
    assert_eq!(stale_candidate("-3", 5), Some(-3));
    assert_eq!(stale_candidate("-1", u32::MAX), None);
    assert!(remove_profile("77", 5, false));
    assert!(!remove_profile("77", 5, true));
    assert!(!remove_profile("5", 5, false));
    assert!(!remove_profile("x", 5, false));
}

#[test]
fn the_debugging_server_trusts_its_own_pages() {
    let mut e = Engine::new(Platform::Linux, false);
    let names = |e: &Engine| -> Vec<(String, Option<String>)> {
        on_before_command_line_processing(e).into_iter().map(|s| (s.name, s.value)).collect()
    };
    let plain = vec![("use-mock-keychain".to_string(), None), ("disable-popup-blocking".to_string(), None)];
    assert_eq!(names(&e), plain);
    e.devtools_port = 9222;
    let switches = names(&e);
    assert_eq!(switches[..2], plain[..]);
    assert_eq!(switches[2], ("remote-allow-origins".to_string(), Some("http://127.0.0.1:9222".to_string())));
}
