//! Events for the host.

use vstd::prelude::*;

use crate::json;
use crate::json::{Items, Json, JsonV, Members, Num};

verus! {

/// A script could not run: there is no browser or page to run it.
pub open spec fn eval_failed(id: u32, eval_id: u64) -> JsonV {
    JsonV::Obj(
        map![
            "event"@ => JsonV::Str("eval-result"@),
            "id"@ => JsonV::Num(Num::Pos(id as u64)),
            "evalId"@ => JsonV::Num(Num::Pos(eval_id)),
            "ok"@ => JsonV::Bool(false),
            "value"@ => JsonV::Str("브라우저/프레임 없음"@),
        ],
    )
}

/// A script could not run: there is no browser or page to run it.
pub fn eval_failed_event(id: u32, eval_id: u64) -> (j: Json)
    ensures
        j@ == eval_failed(id, eval_id),
{
    let mut m = Members::new();
    m.put("event", json::text_json("eval-result"));
    m.put("id", json::number_json(id as u64));
    m.put("evalId", json::number_json(eval_id));
    m.put("ok", json::truth_json(false));
    m.put("value", json::text_json("브라우저/프레임 없음"));
    m.done()
}

/// A native child view was made, or is about to go: `name` says which.
pub open spec fn surface_change(name: Seq<char>, view: usize) -> JsonV {
    JsonV::Obj(
        map![
            "event"@ => JsonV::Str(name),
            "view"@ => JsonV::Num(Num::Pos(view as u64)),
        ],
    )
}

/// A native child view was made, or is about to go: `name` says which.
pub fn surface_event(name: &str, view: usize) -> (j: Json)
    ensures
        j@ == surface_change(name@, view),
{
    let mut m = Members::new();
    m.put("event", json::text_json(name));
    m.put("view", json::number_json(view as u64));
    m.done()
}

/// Whether a script that reported `doc` went well.
pub open spec fn reported_ok(doc: JsonV) -> bool {
    match json::as_truth(json::member(doc, "ok"@)) {
        Some(b) => b,
        None => false,
    }
}

/// The value of a script that reported `doc`.
pub open spec fn reported_value(doc: JsonV) -> JsonV {
    match json::member(doc, "value"@) {
        Some(v) => v,
        None => JsonV::Null,
    }
}

/// A script came to an end; `doc` is what it reported.
pub open spec fn eval_result(id: Option<u32>, eval_id: u64, doc: JsonV) -> JsonV {
    JsonV::Obj(
        map![
            "event"@ => JsonV::Str("eval-result"@),
            "id"@ => json::id_tree(id),
            "evalId"@ => JsonV::Num(Num::Pos(eval_id)),
            "ok"@ => JsonV::Bool(reported_ok(doc)),
            "value"@ => reported_value(doc),
        ],
    )
}

/// A script came to an end; `doc` is what it reported.
pub fn eval_result_event(id: Option<u32>, eval_id: u64, doc: &Json) -> (j: Json)
    ensures
        j@ == eval_result(id, eval_id, doc@),
{
    let ok: bool = match doc.truth("ok") {
        Some(b) => b,
        None => false,
    };
    let value = match doc.get("value") {
        Some(v) => v.copy(),
        None => Json::Null,
    };
    let mut m = Members::new();
    m.put("event", json::text_json("eval-result"));
    m.put("id", json::id_json(id));
    m.put("evalId", json::number_json(eval_id));
    m.put("ok", json::truth_json(ok));
    m.put("value", value);
    m.done()
}

/// A page asks the host something.
pub open spec fn query(id: Option<u32>, query_id: i64, request: Seq<char>, persistent: bool) -> JsonV {
    JsonV::Obj(
        map![
            "event"@ => JsonV::Str("query"@),
            "id"@ => json::id_tree(id),
            "queryId"@ => JsonV::Num(json::signed_num(query_id)),
            "request"@ => JsonV::Str(request),
            "persistent"@ => JsonV::Bool(persistent),
        ],
    )
}

/// A page asks the host something.
pub fn query_event(id: Option<u32>, query_id: i64, request: &str, persistent: bool) -> (j: Json)
    ensures
        j@ == query(id, query_id, request@, persistent),
{
    let mut m = Members::new();
    m.put("event", json::text_json("query"));
    m.put("id", json::id_json(id));
    m.put("queryId", json::signed_json(query_id));
    m.put("request", json::text_json(request));
    m.put("persistent", json::truth_json(persistent));
    m.done()
}

/// A page withdrew its question.
pub open spec fn query_canceled(query_id: i64) -> JsonV {
    JsonV::Obj(
        map![
            "event"@ => JsonV::Str("query-canceled"@),
            "queryId"@ => JsonV::Num(json::signed_num(query_id)),
        ],
    )
}

/// A page withdrew its question.
pub fn query_canceled_event(query_id: i64) -> (j: Json)
    ensures
        j@ == query_canceled(query_id),
{
    let mut m = Members::new();
    m.put("event", json::text_json("query-canceled"));
    m.put("queryId", json::signed_json(query_id));
    m.done()
}

/// A page wants an address opened in a new tab.
pub open spec fn popup_url(id: Option<u32>, url: Seq<char>) -> JsonV {
    JsonV::Obj(
        map![
            "event"@ => JsonV::Str("popup-url"@),
            "url"@ => JsonV::Str(url),
            "id"@ => json::id_tree(id),
        ],
    )
}

/// A page wants an address opened in a new tab.
pub fn popup_url_event(id: Option<u32>, url: &str) -> (j: Json)
    ensures
        j@ == popup_url(id, url@),
{
    let mut m = Members::new();
    m.put("event", json::text_json("popup-url"));
    m.put("url", json::text_json(url));
    m.put("id", json::id_json(id));
    m.done()
}

/// Loading starts or ends.
pub open spec fn loading(id: Option<u32>, is_loading: bool, can_back: bool, can_forward: bool) -> JsonV {
    JsonV::Obj(
        map![
            "event"@ => JsonV::Str("loading"@),
            "id"@ => json::id_tree(id),
            "loading"@ => JsonV::Bool(is_loading),
            "canBack"@ => JsonV::Bool(can_back),
            "canForward"@ => JsonV::Bool(can_forward),
        ],
    )
}

/// Loading starts or ends.
pub fn loading_event(id: Option<u32>, is_loading: bool, can_back: bool, can_forward: bool) -> (j: Json)
    ensures
        j@ == loading(id, is_loading, can_back, can_forward),
{
    let mut m = Members::new();
    m.put("event", json::text_json("loading"));
    m.put("id", json::id_json(id));
    m.put("loading", json::truth_json(is_loading));
    m.put("canBack", json::truth_json(can_back));
    m.put("canForward", json::truth_json(can_forward));
    m.done()
}

/// The address changed.
pub open spec fn nav(id: Option<u32>, url: Seq<char>) -> JsonV {
    JsonV::Obj(
        map![
            "event"@ => JsonV::Str("nav"@),
            "id"@ => json::id_tree(id),
            "url"@ => JsonV::Str(url),
        ],
    )
}

/// The address changed.
pub fn nav_event(id: Option<u32>, url: &str) -> (j: Json)
    ensures
        j@ == nav(id, url@),
{
    let mut m = Members::new();
    m.put("event", json::text_json("nav"));
    m.put("id", json::id_json(id));
    m.put("url", json::text_json(url));
    m.done()
}

/// The title changed.
pub open spec fn title(id: Option<u32>, text: Seq<char>) -> JsonV {
    JsonV::Obj(
        map![
            "event"@ => JsonV::Str("title"@),
            "id"@ => json::id_tree(id),
            "title"@ => JsonV::Str(text),
        ],
    )
}

/// The title changed.
pub fn title_event(id: Option<u32>, text: &str) -> (j: Json)
    ensures
        j@ == title(id, text@),
{
    let mut m = Members::new();
    m.put("event", json::text_json("title"));
    m.put("id", json::id_json(id));
    m.put("title", json::text_json(text));
    m.done()
}

/// The cursor changed.
pub open spec fn cursor(id: u32, name: Seq<char>) -> JsonV {
    JsonV::Obj(
        map![
            "event"@ => JsonV::Str("cursor"@),
            "id"@ => JsonV::Num(Num::Pos(id as u64)),
            "type"@ => JsonV::Str(name),
        ],
    )
}

/// The cursor changed.
pub fn cursor_event(id: u32, name: &str) -> (j: Json)
    ensures
        j@ == cursor(id, name@),
{
    let mut m = Members::new();
    m.put("event", json::text_json("cursor"));
    m.put("id", json::number_json(id as u64));
    m.put("type", json::text_json(name));
    m.done()
}

/// The models of texts.
pub open spec fn texts(s: Seq<String>) -> Seq<Seq<char>> {
    s.map_values(|t: String| t@)
}

/// Texts as a list.
pub open spec fn text_list(s: Seq<Seq<char>>) -> JsonV {
    JsonV::Arr(s.map_values(|t: Seq<char>| JsonV::Str(t)))
}

/// The page's icons changed. The first is the one to use.
pub open spec fn favicon(id: Option<u32>, urls: Seq<Seq<char>>) -> JsonV {
    let first = if urls.len() > 0 {
        urls[0]
    } else {
        ""@
    };
    JsonV::Obj(
        map![
            "event"@ => JsonV::Str("favicon"@),
            "id"@ => json::id_tree(id),
            "url"@ => JsonV::Str(first),
            "urls"@ => text_list(urls),
        ],
    )
}

/// The page's icons changed. The first is the one to use.
pub fn favicon_event(id: Option<u32>, urls: &Vec<String>) -> (j: Json)
    ensures
        j@ == favicon(id, texts(urls@)),
{
    let mut list = Items::new();
    let mut i: usize = 0;
    while i < urls.len()
        invariant
            i <= urls@.len(),
            list@ == texts(urls@).map_values(|t: Seq<char>| JsonV::Str(t)).take(i as int),
        decreases urls@.len() - i,
    {
        list.put(json::text_json(urls[i].as_str()));
        i = i + 1;
        assert(list@ =~= texts(urls@).map_values(|t: Seq<char>| JsonV::Str(t)).take(i as int));
    }
    assert(list@ =~= texts(urls@).map_values(|t: Seq<char>| JsonV::Str(t)));
    let first = if urls.len() > 0 {
        json::text_json(urls[0].as_str())
    } else {
        json::text_json("")
    };
    let mut m = Members::new();
    m.put("event", json::text_json("favicon"));
    m.put("id", json::id_json(id));
    m.put("url", first);
    m.put("urls", list.done());
    m.done()
}

}
