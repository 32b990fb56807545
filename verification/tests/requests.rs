use soksak_sidecar_browser_chromium::engine::Engine;
use soksak_sidecar_browser_chromium::json::{parse, Num};
use soksak_sidecar_browser_chromium::ops::{Action, Op};
use soksak_sidecar_browser_chromium::presenter::Platform;
use soksak_sidecar_browser_chromium::protocol::{
    dispatch, host_emit_json, soksak_sidecar_engine_abi, soksak_sidecar_engine_init,
    soksak_sidecar_engine_message, soksak_sidecar_engine_notify, soksak_sidecar_engine_tick,
    init_code, HOST_ABI_VERSION,
};

fn engine() -> Engine {
    Engine::new(Platform::MacOs, false)
}

fn value(text: &str) -> serde_json::Value {
    serde_json::from_str(text).unwrap()
}

/// Sends `text` and returns the result code and the reply.
fn send(e: &mut Engine, text: &str, surface: usize) -> (i32, serde_json::Value) {
    let (code, buf, _) = soksak_sidecar_engine_message(e, Some(text.as_bytes()), surface, 5);
    (code, serde_json::from_slice(&buf.bytes).unwrap())
}

fn refused(text: &str, surface: usize, why: &str) {
    let mut e = engine();
    let (code, reply) = send(&mut e, text, surface);
    assert_eq!(code, -1);
    assert_eq!(reply.get("error").and_then(|m| m.as_str()), Some(why));
    assert!(e.ops.is_empty());
    assert!(e.pending.is_empty());
    assert_eq!(e.next_id, 1);
    assert!(!e.pump.scheduled);
}

#[test]
fn caps_tells_modes_and_version() {
    let (code, reply) = send(&mut engine(), r#"{"type":"caps"}"#, 0);
    assert_eq!(code, 0);
    assert_eq!(reply, value(r#"{"ok":true,"modes":["windowed","offscreen"],"version":"0.0.1"}"#));
}

#[test]
fn create_takes_its_defaults() {
    let mut e = engine();
    assert_eq!(send(&mut e, r#"{"type":"create"}"#, 77), (0, value(r#"{"ok":true,"id":1}"#)));
    let r = &e.pending[0];
    assert_eq!((r.id, r.nsview, r.x, r.y, r.w, r.h), (1, 77, 0, 0, 1, 1));
    assert_eq!(r.url, "about:blank");
    assert!(r.offscreen_scale.is_none());
    assert!(r.devtools_of.is_none());
    assert_eq!(e.owners.get(&1).map(|s| s.as_str()), Some(""));
    assert!(e.pump.scheduled);
}

#[test]
fn create_offscreen_takes_scale_and_owner() {
    let mut e = engine();
    let text = r#"{"type":"create","mode":"offscreen","scale":2.5,"owner":"p","x":-3,"y":4,"w":0,"h":9,"url":"u"}"#;
    assert_eq!(send(&mut e, text, 1).0, 0);
    let r = &e.pending[0];
    assert_eq!((r.x, r.y, r.w, r.h), (-3, 4, 1, 9));
    match &r.offscreen_scale {
        Some(Num::Real(n)) => assert_eq!(n.as_f64(), Some(2.5)),
        other => panic!("{other:?}"),
    }
    assert_eq!(e.owners.get(&1).map(|s| s.as_str()), Some("p"));
    send(&mut e, r#"{"type":"create","mode":"offscreen"}"#, 1);
    assert!(matches!(e.pending[1].offscreen_scale, Some(Num::Pos(1))));
    send(&mut e, r#"{"type":"create","mode":"windowed"}"#, 1);
    assert!(e.pending[2].offscreen_scale.is_none());
}

#[test]
fn create_is_refused_without_a_parent_or_with_another_mode() {
    refused(r#"{"type":"create"}"#, 0, "surface(부모 뷰) 없음");
    refused(r#"{"type":"create","mode":"tiled"}"#, 3, "미지 mode: tiled");
}

#[test]
fn devtools_are_asked_for_by_inspected_id() {
    let mut e = engine();
    let text = r#"{"type":"devtools-open","inspectedId":9,"screencast":true,"w":10,"h":20,"owner":"o"}"#;
    assert_eq!(send(&mut e, text, 4), (0, value(r#"{"ok":true,"id":1}"#)));
    let r = &e.pending[0];
    assert_eq!(r.devtools_of, Some(9));
    assert!(r.screencast);
    assert_eq!(r.url, "");
    refused(r#"{"type":"devtools-open"}"#, 4, "inspectedId 필요");
    refused(r#"{"type":"devtools-open","inspectedId":1}"#, 0, "surface(부모 뷰) 없음");
}

#[test]
fn mouse_input_is_read() {
    let mut e = engine();
    let text = r#"{"type":"mouse","id":3,"kind":"down","x":1,"y":2,"button":7,"clicks":0,"mods":-1}"#;
    assert_eq!(send(&mut e, text, 0), (0, value(r#"{"ok":true}"#)));
    assert!(matches!(
        e.ops[0],
        Op::Mouse { id: 3, kind: 1, x: 1, y: 2, button: 2, clicks: 1, mods: 0 }
    ));
    send(&mut e, r#"{"type":"mouse","id":3,"kind":"move","button":-4,"mods":5}"#, 0);
    assert!(matches!(e.ops[1], Op::Mouse { kind: 0, button: 0, mods: 5, .. }));
    send(&mut e, r#"{"type":"mouse","id":3,"kind":"up","button":1}"#, 0);
    assert!(matches!(e.ops[2], Op::Mouse { kind: 2, button: 1, .. }));
}

#[test]
fn the_kind_is_checked_before_the_id() {
    refused(r#"{"type":"mouse","kind":"hop"}"#, 0, "미지 mouse kind: Some(\"hop\")");
    refused(r#"{"type":"mouse"}"#, 0, "미지 mouse kind: None");
    refused(r#"{"type":"mouse","kind":"up"}"#, 0, "id 필요");
    refused(r#"{"type":"key","kind":"x\ny"}"#, 0, "미지 key kind: Some(\"x\\ny\")");
    refused(r#"{"type":"key","kind":"up"}"#, 0, "id 필요");
    refused(r#"{"type":"ime","kind":1}"#, 0, "미지 ime kind: None");
    refused(r#"{"type":"ime","kind":"set"}"#, 0, "id 필요");
}

#[test]
fn key_input_is_read() {
    let mut e = engine();
    send(&mut e, r#"{"type":"key","id":1,"kind":"char","code":65,"char":"ab","mods":3}"#, 0);
    assert!(matches!(e.ops[0], Op::Key { id: 1, kind: 2, code: 65, ch: 97, mods: 3 }));
    send(&mut e, r#"{"type":"key","id":1,"kind":"down"}"#, 0);
    assert!(matches!(e.ops[1], Op::Key { kind: 0, code: 0, ch: 0, mods: 0, .. }));
}

#[test]
fn input_method_input_is_read() {
    let mut e = engine();
    send(&mut e, r#"{"type":"ime","id":1,"kind":"set","text":"하","caret":4294967297}"#, 0);
    match &e.ops[0] {
        Op::Ime { id: 1, kind: 0, text, caret: 1 } => assert_eq!(text, "하"),
        other => panic!("{other:?}"),
    }
    send(&mut e, r#"{"type":"ime","id":1,"kind":"cancel"}"#, 0);
    assert!(matches!(&e.ops[1], Op::Ime { kind: 3, text, caret: u32::MAX, .. } if text.is_empty()));
    send(&mut e, r#"{"type":"ime","id":1,"kind":"commit"}"#, 0);
    assert!(matches!(e.ops[2], Op::Ime { kind: 1, .. }));
    send(&mut e, r#"{"type":"ime","id":1,"kind":"finish"}"#, 0);
    assert!(matches!(e.ops[3], Op::Ime { kind: 2, .. }));
}

#[test]
fn simple_operations_are_read() {
    let mut e = engine();
    for text in [
        r#"{"type":"wheel","id":2,"x":1,"y":2,"dx":3,"dy":-4}"#,
        r#"{"type":"bounds","id":2,"x":1,"y":2,"w":-3,"h":4}"#,
        r#"{"type":"load","id":2,"url":"https://a"}"#,
        r#"{"type":"reload","id":2,"ignoreCache":true}"#,
        r#"{"type":"stop","id":2}"#,
        r#"{"type":"back","id":2}"#,
        r#"{"type":"forward","id":2}"#,
        r#"{"type":"hidden","id":2,"hidden":true}"#,
        r#"{"type":"focus","id":2}"#,
        r#"{"type":"close","id":2}"#,
    ] {
        assert_eq!(send(&mut e, text, 0), (0, value(r#"{"ok":true}"#)));
    }
    assert!(matches!(e.ops[0], Op::Wheel { id: 2, x: 1, y: 2, dx: 3, dy: -4 }));
    assert!(matches!(e.ops[1], Op::Bounds { id: 2, x: 1, y: 2, w: 1, h: 4 }));
    assert!(matches!(&e.ops[2], Op::Load { id: 2, url } if url == "https://a"));
    assert!(matches!(e.ops[3], Op::Reload { id: 2, ignore_cache: true }));
    assert!(matches!(e.ops[4], Op::Stop { id: 2 }));
    assert!(matches!(e.ops[5], Op::Back { id: 2 }));
    assert!(matches!(e.ops[6], Op::Forward { id: 2 }));
    assert!(matches!(e.ops[7], Op::Hidden { id: 2, hidden: true }));
    assert!(matches!(e.ops[8], Op::Focus { id: 2 }));
    assert!(matches!(e.ops[9], Op::Close { id: 2 }));
    assert_eq!(e.dbg.close_enter, 1);
}

#[test]
fn what_is_missing_is_named() {
    for ty in ["wheel", "bounds", "reload", "stop", "back", "forward", "hidden", "focus", "close"] {
        refused(&format!("{{\"type\":\"{ty}\"}}"), 0, "id 필요");
    }
    refused(r#"{"type":"stop","id":-1}"#, 0, "id 필요");
    refused(r#"{"type":"load"}"#, 0, "url 필요");
    refused(r#"{"type":"load","url":"u"}"#, 0, "id 필요");
    refused(r#"{"type":"eval"}"#, 0, "js 필요");
    refused(r#"{"type":"eval","js":"1"}"#, 0, "id 필요");
    refused(r#"{"type":"query-reply"}"#, 0, "queryId 필요");
    refused(r#"{"type":"dance"}"#, 0, "미지 요청 type: dance");
    refused(r#"[]"#, 0, "미지 요청 type: ");
}

#[test]
fn an_id_keeps_its_low_bits() {
    let mut e = engine();
    send(&mut e, r#"{"type":"stop","id":4294967298}"#, 0);
    assert!(matches!(e.ops[0], Op::Stop { id: 2 }));
    send(&mut e, r#"{"type":"wheel","id":1,"dx":4294967297,"dy":2147483648}"#, 0);
    assert!(matches!(e.ops[1], Op::Wheel { dx: 1, dy: i32::MIN, .. }));
}

#[test]
fn scripts_are_numbered() {
    let mut e = engine();
    assert_eq!(send(&mut e, r#"{"type":"eval","id":1,"js":"1+1"}"#, 0), (0, value(r#"{"ok":true,"evalId":1}"#)));
    assert_eq!(send(&mut e, r#"{"type":"eval","id":1,"js":"2"}"#, 0), (0, value(r#"{"ok":true,"evalId":2}"#)));
    assert!(matches!(&e.ops[0], Op::Eval { id: 1, eval_id: 1, js } if js == "1+1"));
    assert!(matches!(e.ops[1], Op::Eval { eval_id: 2, .. }));
}

#[test]
fn queries_are_answered_through_requests() {
    let mut e = engine();
    e.queries.insert(-6);
    let text = r#"{"type":"query-reply","queryId":-6,"response":"r","keep":true}"#;
    let (code, _, acts) = soksak_sidecar_engine_message(&mut e, Some(text.as_bytes()), 0, 0);
    assert_eq!(code, 0);
    assert!(matches!(&acts.list[..], [Action::AnswerQuery { query_id: -6, response, release: false }] if response == "r"));
    let text = r#"{"type":"query-reply","queryId":-6,"success":false}"#;
    let (_, _, acts) = soksak_sidecar_engine_message(&mut e, Some(text.as_bytes()), 0, 0);
    assert!(matches!(
        &acts.list[..],
        [Action::FailQuery { query_id: -6, error_code: -1, response, release: true }] if response.is_empty()
    ));
    let (_, _, acts) = soksak_sidecar_engine_message(&mut e, Some(text.as_bytes()), 0, 0);
    assert!(acts.list.is_empty());
}

#[test]
fn popup_mode_is_set() {
    let mut e = engine();
    send(&mut e, r#"{"type":"popup-mode","asWindow":true}"#, 0);
    assert!(e.popup_as_window);
    send(&mut e, r#"{"type":"popup-mode"}"#, 0);
    assert!(!e.popup_as_window);
}

#[test]
fn stats_lists_browsers_and_counters() {
    let mut e = engine();
    e.browsers.push((4, 40));
    e.browsers.push((5, 50));
    e.owners.insert(5, "me".to_string());
    e.dbg.reaped = 3;
    e.surfaces.frames_presented = 8;
    let (code, reply) = send(&mut e, r#"{"type":"stats"}"#, 0);
    assert_eq!(code, 0);
    assert_eq!(
        reply,
        value(
            r#"{"ok":true,"ids":[4,5],
            "surfaces":[{"id":4,"owner":"","offscreen":false},{"id":5,"owner":"me","offscreen":false}],
            "dbg":{"closeEnter":0,"closeApplied":0,"closeBrowser":0,"closeNotFound":0,"reaped":3,"framesPresented":8}}"#
        )
    );
}

#[test]
fn a_request_that_cannot_be_read_is_refused() {
    let mut e = engine();
    let (code, reply) = send(&mut e, "{nope", 0);
    assert_eq!(code, -1);
    let why = serde_json::from_str::<serde_json::Value>("{nope").unwrap_err().to_string();
    assert_eq!(reply.get("error").and_then(|m| m.as_str()), Some(format!("요청 JSON 파싱 실패: {why}").as_str()));
    let (code, buf, acts) = soksak_sidecar_engine_message(&mut e, None, 0, 0);
    assert_eq!(code, -1);
    assert!(acts.list.is_empty());
    assert_eq!(serde_json::from_slice::<serde_json::Value>(&buf.bytes).unwrap(), value(r#"{"error":"빈 요청"}"#));
}

#[test]
fn dispatch_answers_a_document() {
    let mut e = engine();
    let doc = parse(br#"{"type":"focus","id":1}"#).unwrap();
    let (answer, acts) = dispatch(&mut e, &doc, 0, 0);
    assert_eq!(host_emit_json(answer.unwrap()), b"{\"ok\":true}".to_vec());
    assert!(matches!(
        acts.list[..],
        [Action::DispatchTick { delay_ms: 0 }, Action::DispatchPump { delay_ms: 0 }]
    ));
    let doc = parse(br#"{"type":"focus"}"#).unwrap();
    assert_eq!(dispatch(&mut e, &doc, 0, 0).0.unwrap_err(), "id 필요");
}

#[test]
fn notices_cover_and_close() {
    let mut e = engine();
    e.parents.push((1, 9));
    e.parents.push((2, 8));
    e.parents.push((3, 9));
    soksak_sidecar_engine_notify(&mut e, Some(br#"{"type":"surface-closing","view":9}"#), 0);
    assert!(matches!(e.ops[..], [Op::Close { id: 1 }, Op::Close { id: 3 }]));
    assert_eq!(e.dbg.close_enter, 0);
    soksak_sidecar_engine_notify(&mut e, Some(br#"{"type":"surface-occluded","occluded":true}"#), 10);
    assert!(matches!(e.ops[2], Op::Overlay { active: true }));
    assert_eq!(e.active_until_ms, 1510);
    soksak_sidecar_engine_notify(&mut e, Some(br#"{"type":"surface-occluded"}"#), 10);
    assert!(matches!(e.ops[3], Op::Overlay { active: false }));
    for text in ["{", "{}", r#"{"type":"surface-closing"}"#, r#"{"type":"other"}"#] {
        assert!(soksak_sidecar_engine_notify(&mut e, Some(text.as_bytes()), 0).list.is_empty());
    }
    assert!(soksak_sidecar_engine_notify(&mut e, None, 0).list.is_empty());
    assert_eq!(e.ops.len(), 4);
}

#[test]
fn start_up_checks_host_and_configuration() {
    let abi = soksak_sidecar_engine_abi();
    assert_eq!((abi.abi, abi.interface, abi.version), (1, "soksak-spec-sidecar-browser", "0.0.1"));
    let cfg: &[u8] = br#"{"distDir":"/d"}"#;
    let init = soksak_sidecar_engine_init(None, Some(cfg));
    assert!(!init.take_host);
    assert_eq!(init.dist, Err(1));
    assert_eq!(soksak_sidecar_engine_init(Some(1), None).dist, Err(1));
    let init = soksak_sidecar_engine_init(Some(2), Some(cfg));
    assert!(!init.take_host);
    assert_eq!(init.dist, Err(2));
    let init = soksak_sidecar_engine_init(Some(HOST_ABI_VERSION), Some(b"x"));
    assert!(init.take_host);
    assert_eq!(init.dist, Err(3));
    assert_eq!(soksak_sidecar_engine_init(Some(1), Some(b"{}")).dist, Err(3));
    assert_eq!(soksak_sidecar_engine_init(Some(1), Some(cfg)).dist, Ok("/d".to_string()));
    assert_eq!((init_code(true), init_code(false)), (0, 4));
}

#[test]
fn a_turn_of_the_loop_takes_what_is_due() {
    let mut e = Engine::new(Platform::Linux, false);
    send(&mut e, r#"{"type":"focus","id":1}"#, 0);
    let due = soksak_sidecar_engine_tick(&mut e, 5);
    assert!(due.pump && due.tick);
    let due = soksak_sidecar_engine_tick(&mut e, 5);
    assert!(!due.pump && !due.tick);
}
