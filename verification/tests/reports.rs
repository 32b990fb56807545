use soksak_sidecar_browser_chromium::create::{begin_offscreen, create_offscreen, create_windowed};
use soksak_sidecar_browser_chromium::engine::{query_reply, Engine};
use soksak_sidecar_browser_chromium::handlers::{
    css_cursor, do_close, enforce_devtools_screencast, on_address_change, on_before_close, on_before_popup,
    on_cursor_change, on_favicon_urlchange, on_load_start, on_loading_state_change, on_query_canceled,
    on_query_str, on_title_change, query_received, Cursor,
};
use soksak_sidecar_browser_chromium::json::render;
use soksak_sidecar_browser_chromium::ops::{Act, Action, Actions};
use soksak_sidecar_browser_chromium::presenter::Platform;

/// Browser 1 (native 10) is windowed, browser 2 (native 20) offscreen.
fn engine(platform: Platform) -> Engine {
    let mut e = Engine::new(platform, false);
    create_windowed(&mut e, 1, 99, Some(10), None, 0);
    begin_offscreen(&mut e, 2, 99, 30, 20, 0x3f80_0000, 500, 600);
    create_offscreen(&mut e, 2, 99, Some(20), 0);
    e
}

/// The one event in `acts`.
fn event(acts: Actions) -> String {
    let mut list = acts.list;
    assert_eq!(list.len(), 1);
    match list.pop() {
        Some(Action::Emit { event }) => render(event),
        other => panic!("{other:?}"),
    }
}

fn emitted(act: Act) -> String {
    match act {
        Action::Emit { event } => render(event),
        other => panic!("{other:?}"),
    }
}

#[test]
fn a_page_query_goes_to_the_host() {
    let mut e = engine(Platform::MacOs);
    let acts = on_query_str(&mut e, Some(10), -7, "hello".to_string(), true);
    assert_eq!(event(acts), r#"{"event":"query","id":1,"persistent":true,"queryId":-7,"request":"hello"}"#);
    assert!(e.queries.contains(&-7));
    let acts = on_query_str(&mut e, None, 8, r#"{"__soksakEval":"x"}"#.to_string(), false);
    assert_eq!(event(acts), r#"{"event":"query","id":null,"persistent":false,"queryId":8,"request":"{\"__soksakEval\":\"x\"}"}"#);
}

#[test]
fn a_script_result_is_reported_and_settled() {
    let mut e = engine(Platform::MacOs);
    let request = r#"{"__soksakEval":5,"ok":true,"value":{"a":[1,2.5]}}"#;
    let mut acts = on_query_str(&mut e, Some(20), 3, request.to_string(), false).list;
    assert!(matches!(&acts[1], Action::AnswerQuery { query_id: 3, response, release: true } if response.is_empty()));
    assert_eq!(emitted(acts.remove(0)), r#"{"evalId":5,"event":"eval-result","id":2,"ok":true,"value":{"a":[1,2.5]}}"#);
    assert!(e.queries.is_empty());
    let mut acts = on_query_str(&mut e, None, 4, r#"{"__soksakEval":6}"#.to_string(), false).list;
    assert_eq!(emitted(acts.remove(0)), r#"{"evalId":6,"event":"eval-result","id":null,"ok":false,"value":null}"#);
}

#[test]
fn a_query_without_a_document_goes_to_the_host() {
    let mut e = engine(Platform::MacOs);
    let acts = query_received(&mut e, Some(11), 1, "q".to_string(), false, None);
    assert_eq!(event(acts), r#"{"event":"query","id":null,"persistent":false,"queryId":1,"request":"q"}"#);
}

#[test]
fn a_withdrawn_query_is_not_answered() {
    let mut e = engine(Platform::MacOs);
    on_query_str(&mut e, Some(10), 9, "q".to_string(), false);
    let mut acts = on_query_canceled(&mut e, 9).list;
    assert!(matches!(acts[0], Action::ForgetQuery { query_id: 9 }));
    assert_eq!(emitted(acts.remove(1)), r#"{"event":"query-canceled","queryId":9}"#);
    assert!(query_reply(&mut e, 9, true, "r".to_string(), 0, false).list.is_empty());
}

#[test]
fn a_query_is_answered_once_unless_kept() {
    let mut e = engine(Platform::MacOs);
    on_query_str(&mut e, Some(10), 9, "q".to_string(), true);
    for _ in 0..2 {
        let acts = query_reply(&mut e, 9, true, "r".to_string(), 0, true);
        assert!(matches!(acts.list[..], [Action::AnswerQuery { release: false, .. }]));
    }
    let acts = query_reply(&mut e, 9, false, "r".to_string(), 4, false);
    assert!(matches!(&acts.list[..], [Action::FailQuery { query_id: 9, error_code: 4, response, release: true }] if response == "r"));
    assert!(query_reply(&mut e, 9, true, "r".to_string(), 0, false).list.is_empty());
}

#[test]
fn popups_become_tabs_or_windows() {
    let mut e = engine(Platform::MacOs);
    let (code, acts) = on_before_popup(&e, Some(20), "https://x".to_string());
    assert_eq!(code, 1);
    assert_eq!(event(acts), r#"{"event":"popup-url","id":2,"url":"https://x"}"#);
    let (code, acts) = on_before_popup(&e, Some(20), "devtools://x".to_string());
    assert_eq!((code, acts.list.len()), (0, 0));
    e.popup_as_window = true;
    let (code, acts) = on_before_popup(&e, None, "https://x".to_string());
    assert_eq!((code, acts.list.len()), (0, 0));
    let (code, acts) = on_before_popup(&e, None, "devtools://x".to_string());
    assert_eq!((code, acts.list.len()), (0, 0));
}

#[test]
fn the_view_of_an_embedded_browser_is_taken_down() {
    let e = engine(Platform::MacOs);
    let (code, acts) = do_close(&e, Some(10), Some(64));
    assert_eq!(code, 1);
    let mut list = acts.list;
    assert!(matches!(list[1], Action::RemoveChild { cid: 10 }));
    assert_eq!(emitted(list.remove(0)), r#"{"event":"surface-destroyed","view":64}"#);
    let (code, acts) = do_close(&e, Some(10), None);
    assert_eq!((code, acts.list.len()), (1, 0));
    for cid in [None, Some(77), Some(20)] {
        let (code, acts) = do_close(&e, cid, Some(64));
        assert_eq!((code, acts.list.len()), (0, 0));
    }
    let e = engine(Platform::Linux);
    let (code, acts) = do_close(&e, Some(10), Some(64));
    assert_eq!((code, acts.list.len()), (1, 0));
}

#[test]
fn a_closed_browser_waits_to_be_dropped() {
    let mut e = engine(Platform::MacOs);
    assert!(matches!(on_before_close(&mut e, Some(10), 0).list[..], [Action::DispatchPump { delay_ms: 0 }]));
    assert_eq!(e.closing, vec![10]);
    assert_eq!(e.browsers.len(), 2);
    assert!(on_before_close(&mut e, None, 0).list.is_empty());
}

#[test]
fn developer_tools_get_their_preview_setting() {
    let mut e = engine(Platform::MacOs);
    assert!(on_load_start(&e, Some(10), true).list.is_empty());
    e.devtools_screencast.insert(1, false);
    assert!(on_load_start(&e, Some(10), false).list.is_empty());
    assert!(on_load_start(&e, None, true).list.is_empty());
    assert!(enforce_devtools_screencast(&e, 20).list.is_empty());
    let acts = on_load_start(&e, Some(10), true).list;
    let [Action::ExecuteJs { cid: 10, script }] = &acts[..] else { panic!("{acts:?}") };
    assert_eq!(
        script,
        "(function(){try{localStorage.setItem('screencast-enabled','false');if(false){var s=localStorage.getItem('inspector-view.screencast-split-view-state');if(s){var o=JSON.parse(s);if(o&&o.vertical&&!o.vertical.size)localStorage.removeItem('inspector-view.screencast-split-view-state');}}}catch(e){}})();"
    );
    e.devtools_screencast.insert(1, true);
    let acts = on_load_start(&e, Some(10), true).list;
    assert!(matches!(&acts[..], [Action::ExecuteJs { script, .. }] if script.contains("'true');if(true){")));
}

#[test]
fn loading_is_reported_and_keeps_active() {
    let mut e = engine(Platform::MacOs);
    let acts = on_loading_state_change(&mut e, Some(20), 1, 1, 0, 100);
    assert_eq!(event(acts), r#"{"canBack":true,"canForward":false,"event":"loading","id":2,"loading":true}"#);
    assert!(e.loading.contains(&20));
    assert_eq!(e.active_ids.get(&2), Some(&1600));
    on_loading_state_change(&mut e, Some(20), 0, 0, 0, 200);
    assert!(!e.loading.contains(&20));
    let acts = on_loading_state_change(&mut e, Some(99), 2, 2, 1, 200);
    assert_eq!(event(acts), r#"{"canBack":false,"canForward":true,"event":"loading","id":null,"loading":false}"#);
    assert!(on_loading_state_change(&mut e, None, 1, 1, 1, 0).list.is_empty());
}

#[test]
fn address_title_and_icons_are_reported() {
    let e = engine(Platform::MacOs);
    assert_eq!(event(on_address_change(&e, Some(10), true, "u")), r#"{"event":"nav","id":1,"url":"u"}"#);
    assert!(on_address_change(&e, Some(10), false, "u").list.is_empty());
    assert_eq!(event(on_title_change(&e, Some(99), "t")), r#"{"event":"title","id":null,"title":"t"}"#);
    let urls = vec!["a".to_string(), "b".to_string()];
    assert_eq!(event(on_favicon_urlchange(&e, Some(20), &urls)), r#"{"event":"favicon","id":2,"url":"a","urls":["a","b"]}"#);
    assert_eq!(event(on_favicon_urlchange(&e, Some(20), &vec![])), r#"{"event":"favicon","id":2,"url":"","urls":[]}"#);
}

#[test]
fn the_host_shows_the_cursor_of_an_offscreen_browser() {
    let e = engine(Platform::MacOs);
    let (code, acts) = on_cursor_change(&e, Some(20), Cursor::Hand);
    assert_eq!(code, 1);
    assert_eq!(event(acts), r#"{"event":"cursor","id":2,"type":"pointer"}"#);
    for cid in [Some(10), Some(99), None] {
        let (code, acts) = on_cursor_change(&e, cid, Cursor::Hand);
        assert_eq!((code, acts.list.len()), (0, 0));
    }
}

#[test]
fn cursors_have_css_names() {
    for (cursor, name) in [
        (Cursor::Pointer, "default"),
        (Cursor::Cross, "crosshair"),
        (Cursor::IBeam, "text"),
        (Cursor::VerticalText, "text"),
        (Cursor::Wait, "wait"),
        (Cursor::Help, "help"),
        (Cursor::EastResize, "ew-resize"),
        (Cursor::WestResize, "ew-resize"),
        (Cursor::EastWestResize, "ew-resize"),
        (Cursor::NorthResize, "ns-resize"),
        (Cursor::SouthResize, "ns-resize"),
        (Cursor::NorthSouthResize, "ns-resize"),
        (Cursor::NorthEastResize, "nesw-resize"),
        (Cursor::SouthWestResize, "nesw-resize"),
        (Cursor::NorthEastSouthWestResize, "nesw-resize"),
        (Cursor::NorthWestResize, "nwse-resize"),
        (Cursor::SouthEastResize, "nwse-resize"),
        (Cursor::NorthWestSouthEastResize, "nwse-resize"),
        (Cursor::ColumnResize, "col-resize"),
        (Cursor::RowResize, "row-resize"),
        (Cursor::Move, "move"),
        (Cursor::Cell, "cell"),
        (Cursor::ContextMenu, "context-menu"),
        (Cursor::Alias, "alias"),
        (Cursor::Progress, "progress"),
        (Cursor::Other, "default"),
    ] {
        assert_eq!(css_cursor(cursor), name);
    }
}
