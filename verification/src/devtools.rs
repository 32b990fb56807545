//! Developer tools: a browser of their own, opened on the address that the inspected page's target
//! gives.

use vstd::prelude::*;
use vstd::string::*;

use crate::engine;
use crate::engine::{Engine, EngineV};
use crate::handlers;
use crate::json;
use crate::json::{Json, JsonV};
use crate::ops;
use crate::ops::{ActionV, Actions, CreateReq, CreateReqV, DevtoolsWait};
use crate::text;

verus! {

broadcast use vstd::std_specs::hash::group_hash_axioms;

/// The first of the waiting developer tools that waits for message `msg_id`.
pub open spec fn wait_index(waits: Seq<DevtoolsWait>, msg_id: i32) -> Option<int>
    decreases waits.len(),
{
    if waits.len() == 0 {
        None
    } else if waits[0].msg_id == msg_id {
        Some(0)
    } else {
        match wait_index(waits.skip(1), msg_id) {
            Some(i) => Some(i + 1),
            None => None,
        }
    }
}

fn find_wait(waits: &Vec<DevtoolsWait>, msg_id: i32) -> (r: Option<usize>)
    ensures
        match r {
            Some(i) => i < waits@.len() && wait_index(waits@, msg_id) == Some(i as int),
            None => wait_index(waits@, msg_id) is None,
        },
{
    let mut i: usize = 0;
    assert(waits@.skip(0) =~= waits@);
    while i < waits.len()
        invariant
            i <= waits@.len(),
            wait_index(waits@, msg_id) == (match wait_index(waits@.skip(i as int), msg_id) {
                Some(k) => Some(k + i),
                None => None,
            }),
        decreases waits@.len() - i,
    {
        if waits[i].msg_id == msg_id {
            return Some(i);
        }
        assert(waits@.skip(i as int).skip(1) =~= waits@.skip(i + 1));
        i = i + 1;
    }
    None
}

/// The target that the answer names.
pub open spec fn target_id(answer: Option<JsonV>) -> Option<Seq<char>> {
    match answer {
        Some(t) => match json::member(t, "targetInfo"@) {
            Some(info) => json::as_text(json::member(info, "targetId"@)),
            None => None,
        },
        None => None,
    }
}

/// The address of developer tools for the target `tid`.
pub open spec fn frontend_url(port: u32, tid: Seq<char>) -> Seq<char> {
    "http://127.0.0.1:"@ + text::decimal(port as nat) + "/devtools/inspector.html?ws=127.0.0.1:"@
        + text::decimal(port as nat) + "/devtools/page/"@ + tid
}

fn frontend_text(port: u32, tid: &str) -> (r: String)
    ensures
        r@ == frontend_url(port, tid@),
{
    let mut out = "http://127.0.0.1:".to_owned();
    text::push_decimal(&mut out, port as u64);
    out.append("/devtools/inspector.html?ws=127.0.0.1:");
    text::push_decimal(&mut out, port as u64);
    out.append("/devtools/page/");
    out.append(tid);
    out
}

/// The request for the browser that holds the developer tools that waited as `w`: under the id that
/// was handed out when they were asked for.
pub open spec fn frontend_request(w: DevtoolsWait, url: Seq<char>) -> CreateReqV {
    CreateReq {
        id: w.engine_id,
        nsview: w.nsview,
        x: w.x,
        y: w.y,
        w: w.w,
        h: w.h,
        url,
        devtools_of: None,
        screencast: false,
        offscreen_scale: None,
    }
}

/// The address that the answer leads to, if message `msg_id` was waited for and went well.
pub open spec fn answered_url(s: EngineV, msg_id: i32, success: i32, answer: Option<JsonV>) -> Option<
    Seq<char>,
> {
    if wait_index(s.devtools_wait, msg_id) is Some && success == 1 {
        match target_id(answer) {
            Some(tid) => Some(frontend_url(s.devtools_port, tid)),
            None => None,
        }
    } else {
        None
    }
}

/// The state after an answer to message `msg_id`: it is waited for no longer, and where it names a
/// target, the developer tools wait to be made.
pub open spec fn answered(
    s: EngineV,
    msg_id: i32,
    success: i32,
    answer: Option<JsonV>,
    now: u64,
) -> EngineV {
    match wait_index(s.devtools_wait, msg_id) {
        None => s,
        Some(i) => {
            let w = s.devtools_wait[i];
            let t = EngineV { devtools_wait: s.devtools_wait.remove(i), ..s };
            match answered_url(s, msg_id, success, answer) {
                Some(url) => engine::pump_asked(
                    EngineV {
                        devtools_screencast: t.devtools_screencast.insert(
                            w.engine_id,
                            w.screencast,
                        ),
                        pending: t.pending.push(frontend_request(w, url)),
                        ..t
                    },
                    0,
                    now,
                ),
                None => t,
            }
        },
    }
}

/// What is to be done for an answer to message `msg_id`.
pub open spec fn answered_actions(s: EngineV, msg_id: i32, success: i32, answer: Option<JsonV>) -> Seq<
    ActionV,
> {
    if answered_url(s, msg_id, success, answer) is Some {
        engine::pump_actions(s, 0)
    } else {
        Seq::empty()
    }
}

/// Message `msg_id` was answered; `success` is 1 where it went well, and `answer` is the answer
/// where it is a document.
pub fn answer_received(e: &mut Engine, msg_id: i32, success: i32, answer: Option<Json>, now: u64) -> (
acts: Actions)
    ensures
        final(e)@ == answered(old(e)@, msg_id, success, handlers::document_model(answer), now),
        acts@ == answered_actions(old(e)@, msg_id, success, handlers::document_model(answer)),
{
    let at: usize = match find_wait(&e.devtools_wait, msg_id) {
        Some(i) => i,
        None => {
            return Actions::new();
        },
    };
    let w = e.devtools_wait.remove(at);
    if success != 1 {
        return Actions::new();
    }
    let doc = match answer {
        Some(d) => d,
        None => {
            return Actions::new();
        },
    };
    let tid = match doc.get("targetInfo") {
        Some(info) => match info.text("targetId") {
            Some(t) => t,
            None => {
                return Actions::new();
            },
        },
        None => {
            return Actions::new();
        },
    };
    let url = frontend_text(e.devtools_port, tid.as_str());
    e.devtools_screencast.insert(w.engine_id, w.screencast);
    let req = CreateReq {
        id: w.engine_id,
        nsview: w.nsview,
        x: w.x,
        y: w.y,
        w: w.w,
        h: w.h,
        url,
        devtools_of: None,
        screencast: false,
        offscreen_scale: None,
    };
    let ghost waiting = e.pending@;
    e.pending.push(req);
    assert(ops::reqs_model(e.pending@) =~= ops::reqs_model(waiting).push(req@));
    engine::schedule_pump(e, 0, now)
}

/// The document in the bytes of an answer, if there is one.
pub open spec fn answer_in(result: Option<Seq<u8>>) -> Option<JsonV> {
    match result {
        Some(bytes) => match json::json_read(bytes) {
            Ok(t) => Some(t),
            Err(_) => None,
        },
        None => None,
    }
}

/// The bytes of an optional slice.
pub open spec fn bytes_of(result: Option<&[u8]>) -> Option<Seq<u8>> {
    match result {
        Some(b) => Some(b@),
        None => None,
    }
}

/// Message `message_id` was answered; `success` is 1 where it went well.
pub fn on_dev_tools_method_result(
    e: &mut Engine,
    message_id: i32,
    success: i32,
    result: Option<&[u8]>,
    now: u64,
) -> (acts: Actions)
    ensures
        final(e)@ == answered(old(e)@, message_id, success, answer_in(bytes_of(result)), now),
        acts@ == answered_actions(old(e)@, message_id, success, answer_in(bytes_of(result))),
{
    let answer = match result {
        Some(bytes) => match json::parse(bytes) {
            Ok(j) => Some(j),
            Err(_) => None,
        },
        None => None,
    };
    answer_received(e, message_id, success, answer, now)
}

}
