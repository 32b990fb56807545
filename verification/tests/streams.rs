use soksak_sidecar_browser_chromium::engine::Engine;
use soksak_sidecar_browser_chromium::frame_stream::{
    accept_client, enable, encode_and_fanout, ensure_server, frame_part, heartbeat_all, maybe_submit,
    needs_server, next_job, prune, requested_id, subscribe, wants, wants_frame, Frame, FrameStream, Job,
    Pixels,
};
use soksak_sidecar_browser_chromium::ops::Action;
use soksak_sidecar_browser_chromium::presenter::Platform;

/// Browser 1 is streamed, and connections 0 and 1 listen to it; connection 2 listens to browser 5.
fn stream() -> (FrameStream, Engine) {
    let mut s = FrameStream::new();
    let mut e = Engine::new(Platform::MacOs, false);
    enable(&mut s, &mut e, 1, true, 0);
    for id in [1, 1, 5] {
        subscribe(&mut s, &mut e, id, 0);
    }
    (s, e)
}

#[test]
fn the_server_is_started_once() {
    let mut s = FrameStream::new();
    assert!(needs_server(&s));
    assert!(!ensure_server(&mut s, None));
    assert!(ensure_server(&mut s, Some(4000)));
    assert!(!needs_server(&s));
    assert!(!ensure_server(&mut s, Some(4001)));
    assert_eq!(s.port, Some(4000));
}

#[test]
fn switching_on_paints_and_tells_the_port() {
    let mut s = FrameStream::new();
    let mut e = Engine::new(Platform::MacOs, false);
    let r = enable(&mut s, &mut e, 3, true, 10);
    assert_eq!(r.port, 0);
    assert!(matches!(r.acts.list[..], [Action::DispatchTick { .. }, Action::DispatchPump { .. }]));
    assert_eq!(e.active_ids.get(&3), Some(&1510));
    ensure_server(&mut s, Some(4000));
    assert_eq!(enable(&mut s, &mut e, 4, true, 10).port, 4000);
}

#[test]
fn switching_off_closes_its_own_connections() {
    let (mut s, mut e) = stream();
    enable(&mut s, &mut e, 5, true, 0);
    assert!(wants(&s, 1) && wants(&s, 5));
    let r = enable(&mut s, &mut e, 1, false, 0);
    assert_eq!(r.closed, vec![0, 1]);
    assert!(r.acts.list.is_empty());
    assert!(!wants(&s, 1) && wants(&s, 5));
    assert_eq!(s.subs, vec![(5, 2)]);
}

#[test]
fn frames_are_wanted_where_someone_listens() {
    let (s, _) = stream();
    assert!(wants(&s, 1));
    assert!(!wants(&s, 5));
    assert!(!wants(&s, 2));
    assert!(wants_frame(&s, 1, true, 4, 4));
    assert!(!wants_frame(&s, 1, false, 4, 4));
    assert!(!wants_frame(&s, 1, true, 0, 4));
    assert!(!wants_frame(&s, 1, true, 4, -1));
}

#[test]
fn rows_are_packed_together() {
    let (mut s, _) = stream();
    let base: Vec<u8> = (0..24).collect();
    assert!(maybe_submit(&mut s, 1, true, 2, 2, Pixels::Rows { base: &base, stride: 12 }));
    let f = s.latest.as_ref().unwrap();
    assert_eq!((f.id, f.w, f.h), (1, 2, 2));
    assert_eq!(f.bgra, vec![0, 1, 2, 3, 4, 5, 6, 7, 12, 13, 14, 15, 16, 17, 18, 19]);
}

#[test]
fn memory_that_cannot_be_read_is_black() {
    let (mut s, _) = stream();
    assert!(!maybe_submit(&mut s, 1, true, 2, 2, Pixels::Unlocked));
    assert!(s.latest.is_none());
    assert!(maybe_submit(&mut s, 1, true, 1, 2, Pixels::Blank));
    assert_eq!(s.latest.as_ref().unwrap().bgra, vec![0; 8]);
    let base = vec![9u8; 14];
    assert!(maybe_submit(&mut s, 1, true, 2, 2, Pixels::Rows { base: &base, stride: 7 }));
    assert_eq!(s.latest.as_ref().unwrap().bgra, vec![0; 16]);
}

#[test]
fn the_last_row_ends_with_its_pixels() {
    let (mut s, _) = stream();
    let base: Vec<u8> = (0..20).collect();
    assert!(maybe_submit(&mut s, 1, true, 2, 2, Pixels::Rows { base: &base, stride: 12 }));
    assert_eq!(s.latest.as_ref().unwrap().bgra[8..], [12, 13, 14, 15, 16, 17, 18, 19]);
}

#[test]
fn nothing_is_copied_where_nobody_listens() {
    let (mut s, _) = stream();
    assert!(!maybe_submit(&mut s, 9, true, 2, 2, Pixels::Rows { base: &[], stride: 8 }));
    assert!(!maybe_submit(&mut s, 5, true, 1, 1, Pixels::Blank));
    assert!(!maybe_submit(&mut s, 9, true, 1, 1, Pixels::Blank));
    assert!(s.latest.is_none());
}

#[test]
fn the_newest_frame_wins() {
    let (mut s, _) = stream();
    assert!(maybe_submit(&mut s, 1, true, 1, 1, Pixels::Rows { base: &[1, 1, 1, 1], stride: 4 }));
    assert!(maybe_submit(&mut s, 1, true, 1, 1, Pixels::Rows { base: &[2, 2, 2, 2], stride: 4 }));
    match next_job(&mut s, false) {
        Job::Encode { frame } => assert_eq!(frame.bgra, vec![2; 4]),
        other => panic!("{other:?}"),
    }
    assert!(matches!(next_job(&mut s, false), Job::Wait));
}

#[test]
fn silence_calls_for_a_sign_of_life() {
    let (mut s, _) = stream();
    assert!(matches!(next_job(&mut s, true), Job::Heartbeat));
    maybe_submit(&mut s, 1, true, 1, 1, Pixels::Blank);
    assert!(matches!(next_job(&mut s, true), Job::Heartbeat));
    assert!(matches!(next_job(&mut s, false), Job::Encode { .. }));
    let part = heartbeat_all(&s);
    assert_eq!(part.tokens, vec![0, 1, 2]);
    assert_eq!(part.head, "--sksframe\r\nContent-Type: text/plain\r\nContent-Length: 1\r\n\r\n.\r\n");
    assert!(part.body.is_empty() && part.tail.is_empty());
}

#[test]
fn failed_connections_are_dropped() {
    let (mut s, _) = stream();
    prune(&mut s, &vec![1, 7]);
    assert_eq!(s.subs, vec![(1, 0), (5, 2)]);
}

#[test]
fn a_frame_is_encoded_for_its_listeners() {
    let (s, _) = stream();
    let mut bgra = Vec::new();
    for _ in 0..64 {
        bgra.extend_from_slice(&[10, 20, 200, 255]);
    }
    let frame = Frame { id: 1, w: 8, h: 8, bgra };
    let part = encode_and_fanout(&s, &frame).unwrap();
    assert_eq!(part.tokens, vec![0, 1]);
    assert_eq!(&part.body[..2], &[0xff, 0xd8]);
    assert_eq!(&part.body[part.body.len() - 2..], &[0xff, 0xd9]);
    assert_eq!(
        part.head,
        format!("--sksframe\r\nContent-Type: image/jpeg\r\nContent-Length: {}\r\n\r\n", part.body.len())
    );
    assert_eq!(part.tail, "\r\n");
    let mut rgb = Vec::new();
    for _ in 0..64 {
        rgb.extend_from_slice(&[200, 20, 10]);
    }
    let mut expected = Vec::new();
    jpeg_encoder::Encoder::new(&mut expected, 72).encode(&rgb, 8, 8, jpeg_encoder::ColorType::Rgb).unwrap();
    assert_eq!(part.body, expected);
}

#[test]
fn a_frame_that_cannot_be_encoded_is_not_sent() {
    let (s, _) = stream();
    assert!(encode_and_fanout(&s, &Frame { id: 5, w: 1, h: 1, bgra: vec![0; 4] }).is_none());
    assert!(encode_and_fanout(&s, &Frame { id: 1, w: 0, h: 4, bgra: vec![] }).is_none());
    assert!(encode_and_fanout(&s, &Frame { id: 1, w: 65536, h: 1, bgra: vec![0; 4 * 65536] }).is_none());
    let cut = encode_and_fanout(&s, &Frame { id: 1, w: 65537, h: 1, bgra: vec![0; 4 * 65537] }).unwrap();
    let whole = encode_and_fanout(&s, &Frame { id: 1, w: 1, h: 1, bgra: vec![0; 4] }).unwrap();
    assert_eq!(cut.body, whole.body);
    assert!(frame_part(&s, 1, None).is_none());
    assert_eq!(frame_part(&s, 5, Some(vec![7])).unwrap().tokens, vec![2]);
}

#[test]
fn a_request_names_its_browser() {
    assert_eq!(requested_id("GET /s/12 HTTP/1.1\r\nHost: x\r\n\r\n"), Some(12));
    assert_eq!(requested_id("GET /s/12.mjpg?x=1 HTTP/1.1"), Some(12));
    assert_eq!(requested_id("GET /s/+7?t HTTP/1.1"), Some(7));
    assert_eq!(requested_id("  GET\t\u{a0} /s/5 x"), Some(5));
    assert_eq!(requested_id("GET /s/5\n"), Some(5));
    assert_eq!(requested_id("GET\n/s/5"), None);
    assert_eq!(requested_id("GET /t/5 x"), None);
    assert_eq!(requested_id("GET /s/ x"), None);
    assert_eq!(requested_id("GET /s x"), None);
    assert_eq!(requested_id("GET /s/4294967296 x"), None);
    assert_eq!(requested_id("GET /s/4294967295 x"), Some(u32::MAX));
    assert_eq!(requested_id("GET"), None);
    assert_eq!(requested_id("HEAD /s/5 x"), None);
    assert_eq!(requested_id("get /s/5 x"), None);
    assert_eq!(requested_id("GETS /s/5 x"), None);
    assert_eq!(requested_id(""), None);
}

#[test]
fn white_space_is_what_the_standard_library_says() {
    for c in (0..=0x3100u32).filter_map(char::from_u32).filter(|c| *c != '\n') {
        let text = format!("GET{c}/s/3");
        let expected = text.split_whitespace().nth(1).and_then(|p| p.strip_prefix("/s/")).and_then(|r| r.parse().ok());
        assert_eq!(requested_id(&text), expected, "{:?}", c);
    }
}

#[test]
fn a_request_is_welcomed_or_refused() {
    let w = accept_client(b"GET /s/3 HTTP/1.1\r\n\r\n");
    assert_eq!(w.id, Some(3));
    assert_eq!(
        w.response,
        "HTTP/1.1 200 OK\r\nContent-Type: application/octet-stream\r\nAccess-Control-Allow-Origin: *\r\nCache-Control: no-store\r\nConnection: close\r\n\r\n"
    );
    let w = accept_client(b"GET / HTTP/1.1\r\n\r\n");
    assert_eq!(w.id, None);
    assert_eq!(w.response, "HTTP/1.1 404 Not Found\r\nConnection: close\r\n\r\n");
    let w = accept_client(b"POST /s/12 HTTP/1.1\r\n\r\n");
    assert_eq!(w.id, None);
    assert_eq!(w.response, "HTTP/1.1 404 Not Found\r\nConnection: close\r\n\r\n");
    assert_eq!(accept_client(b"GET\xff /s/3 x").id, None);
    assert_eq!(accept_client(b"GET /s/3 \xff").id, Some(3));
    assert_eq!(accept_client(b"GET /s/3\xff x").id, None);
}

#[test]
fn a_connection_gets_a_token_of_its_own() {
    let (mut s, mut e) = stream();
    e.pump.scheduled = false;
    let (token, acts) = subscribe(&mut s, &mut e, 1, 20);
    assert_eq!(token, 3);
    assert!(matches!(acts.list[..], [Action::DispatchPump { .. }]));
    assert_eq!(s.subs.last(), Some(&(1, 3)));
}
