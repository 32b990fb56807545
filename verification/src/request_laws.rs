//! What a request asks for: how each member of a document counts, what comes of it, and what is
//! answered.

use vstd::prelude::*;
use vstd::string::*;

use crate::command;
use crate::command::{Command, CommandV, ReadV};
use crate::engine;
use crate::engine::EngineV;
use crate::json;
use crate::json::{JsonV, Num};
use crate::op_laws::length_for;
use crate::ops::{Action, Op, OpV};
use crate::protocol;
use crate::protocol::{Notice, Parsed};
use crate::report_laws::{integer, says};
use crate::text;

verus! {

// ── members ──────────────────────────────────────────────────────────────────────────────────

/// Document `t` has the integer `n` as member `key`.
pub open spec fn states(t: JsonV, key: Seq<char>, n: int) -> bool {
    t matches JsonV::Obj(m) && m.contains_key(key) && integer(m[key], n)
}

/// `v` is what `t` says under `key`: the integer as far as it fits, its low bits where it does not, and
/// 0 where there is none.
pub open spec fn reads_int(v: i32, t: JsonV, key: Seq<char>) -> bool {
    &&& forall|n: int|
        i32::MIN <= n <= i32::MAX && #[trigger] states(t, key, n) ==> v == n
    &&& forall|n: i64| #[trigger] states(t, key, n as int) ==> v as u32 == n as u32
    &&& (forall|n: i64| !#[trigger] states(t, key, n as int)) ==> v == 0
}

/// `v` is the id that `t` gives under `key`: the number as far as it fits, and its low bits where it does
/// not.
pub open spec fn reads_id(v: u32, t: JsonV, key: Seq<char>) -> bool {
    exists|n: u64| #[trigger]
        says(t, key, JsonV::Num(Num::Pos(n))) && v as int == n as int % 0x1_0000_0000
}

/// `t` gives no id under `key`.
pub open spec fn no_id(t: JsonV, key: Seq<char>) -> bool {
    forall|n: u64| !#[trigger] says(t, key, JsonV::Num(Num::Pos(n)))
}

/// `v` is the text that `t` has under `key`, and `default` where it has none.
pub open spec fn reads_text(v: Seq<char>, t: JsonV, key: Seq<char>, default: Seq<char>) -> bool {
    &&& forall|s: Seq<char>| #[trigger] says(t, key, JsonV::Str(s)) ==> v == s
    &&& (forall|s: Seq<char>| !#[trigger] says(t, key, JsonV::Str(s))) ==> v == default
}

/// `v` is the truth value that `t` has under `key`, and `default` where it has none.
pub open spec fn reads_truth(v: bool, t: JsonV, key: Seq<char>, default: bool) -> bool {
    &&& says(t, key, JsonV::Bool(true)) ==> v
    &&& says(t, key, JsonV::Bool(false)) ==> !v
    &&& !says(t, key, JsonV::Bool(true)) && !says(t, key, JsonV::Bool(false)) ==> v == default
}

/// Numbers, ids, texts and truth values are read as the document has them.
pub proof fn law_members_are_read(t: JsonV, key: Seq<char>, words: Seq<char>, b: bool)
    ensures
        reads_int(command::int_in(t, key), t, key),
        command::id_in(t, key) is None <==> no_id(t, key),
        command::id_in(t, key) matches Some(v) ==> reads_id(v, t, key),
        reads_text(command::text_in(t, key, words), t, key, words),
        reads_truth(command::truth_in(t, key, b), t, key, b),
{
    if let JsonV::Obj(m) = t {
        if m.contains_key(key) {
            match m[key] {
                JsonV::Num(Num::Pos(n)) => {
                    assert(says(t, key, JsonV::Num(Num::Pos(n))));
                    assert(n as u32 as u64 == n % 0x1_0000_0000u64) by (bit_vector);
                    if n <= i64::MAX {
                        let i = n as i64;
                        assert(states(t, key, i as int));
                        assert((i as i32) as u32 == i as u32) by (bit_vector);
                    }
                },
                JsonV::Num(Num::Neg(i)) => {
                    assert(states(t, key, i as int));
                    assert((i as i32) as u32 == i as u32) by (bit_vector);
                },
                JsonV::Str(w) => {
                    assert(says(t, key, JsonV::Str(w)));
                },
                _ => {},
            }
        }
    }
}

// ── what is asked for ────────────────────────────────────────────────────────────────────────

/// Document `t` is a request of type `ty`.
pub open spec fn asks(t: JsonV, ty: Seq<char>) -> bool {
    says(t, "type"@, JsonV::Str(ty))
}

/// The types of requests have names that differ.
pub proof fn lemma_types()
    ensures
        "caps"@.len() == 4 && "caps"@[0] == 'c',
        "load"@.len() == 4 && "load"@[0] == 'l',
        "eval"@.len() == 4 && "eval"@[0] == 'e',
        "stop"@.len() == 4 && "stop"@[0] == 's',
        "back"@.len() == 4 && "back"@[0] == 'b',
        "mouse"@.len() == 5 && "mouse"@[0] == 'm',
        "wheel"@.len() == 5 && "wheel"@[0] == 'w',
        "focus"@.len() == 5 && "focus"@[0] == 'f',
        "close"@.len() == 5 && "close"@[0] == 'c',
        "stats"@.len() == 5 && "stats"@[0] == 's',
        "create"@.len() == 6 && "create"@[0] == 'c',
        "bounds"@.len() == 6 && "bounds"@[0] == 'b',
        "reload"@.len() == 6 && "reload"@[0] == 'r',
        "hidden"@.len() == 6 && "hidden"@[0] == 'h',
        "key"@.len() == 3 && "key"@[0] == 'k',
        "ime"@.len() == 3 && "ime"@[0] == 'i',
        "forward"@.len() == 7,
        "popup-mode"@.len() == 10,
        "query-reply"@.len() == 11,
        "devtools-open"@.len() == 13,
{
    reveal_strlit("caps");
    reveal_strlit("load");
    reveal_strlit("eval");
    reveal_strlit("stop");
    reveal_strlit("back");
    reveal_strlit("mouse");
    reveal_strlit("wheel");
    reveal_strlit("focus");
    reveal_strlit("close");
    reveal_strlit("stats");
    reveal_strlit("create");
    reveal_strlit("bounds");
    reveal_strlit("reload");
    reveal_strlit("hidden");
    reveal_strlit("key");
    reveal_strlit("ime");
    reveal_strlit("forward");
    reveal_strlit("popup-mode");
    reveal_strlit("query-reply");
    reveal_strlit("devtools-open");
}

pub proof fn lemma_asks(t: JsonV, ty: Seq<char>)
    requires
        asks(t, ty),
    ensures
        command::text_in(t, "type"@, ""@) == ty,
{
    law_members_are_read(t, "type"@, ""@, false);
}

/// `r` asks for operation `op`.
pub open spec fn asks_for(r: ReadV, op: OpV) -> bool {
    r == Ok::<CommandV, Seq<char>>(Command::Ask { op })
}

/// `r` refuses, for want of an id.
pub open spec fn wants_id(r: ReadV) -> bool {
    r == Err::<CommandV, Seq<char>>("id 필요"@)
}

/// Wheel input is read as it stands: place and turns of both axes.
pub proof fn law_wheel_is_read(t: JsonV, surface: usize)
    requires
        asks(t, "wheel"@),
    ensures
        no_id(t, "id"@) ==> wants_id(command::command_in(t, surface)),
        !no_id(t, "id"@) ==> (command::command_in(t, surface) matches Ok(
            Command::Ask { op: Op::Wheel { id, x, y, dx, dy } },
        ) && reads_id(id, t, "id"@) && reads_int(x, t, "x"@) && reads_int(y, t, "y"@) && reads_int(
            dx,
            t,
            "dx"@,
        ) && reads_int(dy, t, "dy"@)),
{
    lemma_types();
    lemma_asks(t, "wheel"@);
    law_members_are_read(t, "id"@, ""@, false);
    law_members_are_read(t, "x"@, ""@, false);
    law_members_are_read(t, "y"@, ""@, false);
    law_members_are_read(t, "dx"@, ""@, false);
    law_members_are_read(t, "dy"@, ""@, false);
}

/// Bounds are read as they stand, of one by one at least.
pub proof fn law_bounds_are_read(t: JsonV, surface: usize)
    requires
        asks(t, "bounds"@),
    ensures
        no_id(t, "id"@) ==> wants_id(command::command_in(t, surface)),
        !no_id(t, "id"@) ==> (command::command_in(t, surface) matches Ok(
            Command::Ask { op: Op::Bounds { id, x, y, w, h } },
        ) && reads_id(id, t, "id"@) && reads_int(x, t, "x"@) && reads_int(y, t, "y"@)
            && reads_length(w, t, "w"@) && reads_length(h, t, "h"@)),
{
    lemma_types();
    lemma_asks(t, "bounds"@);
    law_members_are_read(t, "id"@, ""@, false);
    law_members_are_read(t, "x"@, ""@, false);
    law_members_are_read(t, "y"@, ""@, false);
    lemma_length(t, "w"@);
    lemma_length(t, "h"@);
}

/// `v` is what `t` says under `key`, as a length of one at least.
pub open spec fn reads_length(v: i32, t: JsonV, key: Seq<char>) -> bool {
    exists|n: i32| #[trigger] reads_int(n, t, key) && length_for(v, n)
}

proof fn lemma_length(t: JsonV, key: Seq<char>)
    ensures
        reads_length(crate::presenter::clamped(command::int_in(t, key)), t, key),
{
    law_members_are_read(t, key, ""@, false);
    let n = command::int_in(t, key);
    assert(reads_int(n, t, key));
}

/// `v` are the modifier keys that `t` gives: none where it gives a negative number, or no number.
pub open spec fn reads_mods(v: u32, t: JsonV) -> bool {
    exists|n: i32| #[trigger]
        reads_int(n, t, "mods"@) && (n >= 0 ==> v as int == n) && (n < 0 ==> v == 0)
}

/// `k` is the kind of event that `t` names, by its place among `first`, `second` and `third`.
pub open spec fn reads_kind(
    k: u8,
    t: JsonV,
    first: Seq<char>,
    second: Seq<char>,
    third: Seq<char>,
) -> bool {
    &&& k <= 2
    &&& says(t, "kind"@, JsonV::Str(first)) <==> k == 0
    &&& says(t, "kind"@, JsonV::Str(second)) <==> k == 1
    &&& says(t, "kind"@, JsonV::Str(third)) <==> k == 2
}

/// `t` names none of three kinds of event.
pub open spec fn no_kind(t: JsonV, first: Seq<char>, second: Seq<char>, third: Seq<char>) -> bool {
    &&& !says(t, "kind"@, JsonV::Str(first))
    &&& !says(t, "kind"@, JsonV::Str(second))
    &&& !says(t, "kind"@, JsonV::Str(third))
}

pub proof fn lemma_kinds()
    ensures
        "move"@.len() == 4 && "move"@[0] == 'm',
        "down"@.len() == 4 && "down"@[0] == 'd',
        "char"@.len() == 4 && "char"@[0] == 'c',
        "up"@.len() == 2,
        "set"@.len() == 3,
        "commit"@.len() == 6 && "commit"@[1] == 'o',
        "finish"@.len() == 6 && "finish"@[1] == 'i',
        "cancel"@.len() == 6 && "cancel"@[1] == 'a',
{
    reveal_strlit("move");
    reveal_strlit("down");
    reveal_strlit("char");
    reveal_strlit("up");
    reveal_strlit("set");
    reveal_strlit("commit");
    reveal_strlit("finish");
    reveal_strlit("cancel");
}

/// Mouse input is read as it stands: whether the mouse moves, or a button goes down or up; where, which
/// button of the three (the nearest where there is no such), which click it is, and the modifier
/// keys. An event of no known kind is refused.
pub proof fn law_mouse_is_read(t: JsonV, surface: usize)
    requires
        asks(t, "mouse"@),
    ensures
        no_kind(t, "move"@, "down"@, "up"@) ==> command::command_in(t, surface) is Err,
        !no_kind(t, "move"@, "down"@, "up"@) && no_id(t, "id"@) ==> wants_id(
            command::command_in(t, surface),
        ),
        !no_kind(t, "move"@, "down"@, "up"@) && !no_id(t, "id"@) ==> (
        command::command_in(t, surface) matches Ok(
            Command::Ask { op: Op::Mouse { id, kind, x, y, button, clicks, mods } },
        ) && reads_id(id, t, "id"@) && reads_kind(kind, t, "move"@, "down"@, "up"@) && reads_int(
            x,
            t,
            "x"@,
        ) && reads_int(y, t, "y"@) && reads_length(clicks, t, "clicks"@) && reads_mods(mods, t)
            && reads_button(button, t)),
{
    lemma_types();
    lemma_kinds();
    lemma_asks(t, "mouse"@);
    law_members_are_read(t, "id"@, ""@, false);
    law_members_are_read(t, "x"@, ""@, false);
    law_members_are_read(t, "y"@, ""@, false);
    law_members_are_read(t, "mods"@, ""@, false);
    law_members_are_read(t, "button"@, ""@, false);
    lemma_length(t, "clicks"@);
    assert(reads_int(command::int_in(t, "mods"@), t, "mods"@));
    assert(reads_int(command::int_in(t, "button"@), t, "button"@));
}

/// `v` is the button that `t` names, or the nearest to it.
pub open spec fn reads_button(v: u8, t: JsonV) -> bool {
    exists|n: i32| #[trigger]
        reads_int(n, t, "button"@) && v <= 2 && (0 <= n <= 2 ==> v as int == n) && (n < 0 ==> v
            == 0) && (n > 2 ==> v == 2)
}

/// Keyboard input is read as it stands: whether a key goes down or up or a character comes, with its
/// code, its character and the modifier keys. An event of no known kind is refused.
pub proof fn law_key_is_read(t: JsonV, surface: usize)
    requires
        asks(t, "key"@),
    ensures
        no_kind(t, "down"@, "up"@, "char"@) ==> command::command_in(t, surface) is Err,
        !no_kind(t, "down"@, "up"@, "char"@) && no_id(t, "id"@) ==> wants_id(
            command::command_in(t, surface),
        ),
        !no_kind(t, "down"@, "up"@, "char"@) && !no_id(t, "id"@) ==> (
        command::command_in(t, surface) matches Ok(
            Command::Ask { op: Op::Key { id, kind, code, ch, mods } },
        ) && reads_id(id, t, "id"@) && reads_kind(kind, t, "down"@, "up"@, "char"@) && reads_int(
            code,
            t,
            "code"@,
        ) && reads_mods(mods, t) && reads_char(ch, t)),
{
    lemma_types();
    lemma_kinds();
    lemma_asks(t, "key"@);
    law_members_are_read(t, "id"@, ""@, false);
    law_members_are_read(t, "code"@, ""@, false);
    law_members_are_read(t, "mods"@, ""@, false);
    assert(reads_int(command::int_in(t, "mods"@), t, "mods"@));
    assert(reads_char(command::char_in(t), t)) by {
        if let JsonV::Obj(m) = t {
            if m.contains_key("char"@) {
                if let JsonV::Str(s) = m["char"@] {
                    assert(says(t, "char"@, JsonV::Str(s)));
                    law_first_unit_is_the_first(s);
                }
            }
        }
    }
}

/// The first UTF-16 unit of a text is that of its first character.
pub proof fn law_first_unit_is_the_first(s: Seq<char>)
    ensures
        is_first_unit(text::utf16_first(s), s),
{
    if s.len() > 0 {
        lemma_char_range(s[0]);
    }
}

proof fn lemma_char_range(c: char)
    ensures
        0 <= c as u32 <= 0x10_ffff,
{
}

/// `v` is the character that `t` gives: the first UTF-16 unit of its text, and 0 where there is none.
pub open spec fn reads_char(v: u16, t: JsonV) -> bool {
    &&& forall|s: Seq<char>| #[trigger]
        says(t, "char"@, JsonV::Str(s)) ==> is_first_unit(v, s)
    &&& (forall|s: Seq<char>| !#[trigger] says(t, "char"@, JsonV::Str(s))) ==> v == 0
}

/// `v` is the first UTF-16 unit of `s`: its first character, or the upper half of one that takes two
/// units; 0 where there is none.
pub open spec fn is_first_unit(v: u16, s: Seq<char>) -> bool {
    &&& s.len() == 0 ==> v == 0
    &&& s.len() > 0 && (s[0] as u32) < 0x1_0000 ==> v as int == s[0] as u32 as int
    &&& s.len() > 0 && s[0] as u32 >= 0x1_0000 ==> 0xd800 <= v <= 0xdbff && 0x400 * (v - 0xd800)
        <= s[0] as u32 - 0x1_0000 < 0x400 * (v - 0xd800) + 0x400
}

/// Composed text is read as it stands: whether it is set, committed, finished or given up, the text,
/// and the caret, which is behind every text where none is given.
pub proof fn law_composition_is_read(t: JsonV, surface: usize)
    requires
        asks(t, "ime"@),
    ensures
        ({
            let known = !no_kind(t, "set"@, "commit"@, "finish"@) || says(
                t,
                "kind"@,
                JsonV::Str("cancel"@),
            );
            &&& !known ==> command::command_in(t, surface) is Err
            &&& known && no_id(t, "id"@) ==> wants_id(command::command_in(t, surface))
            &&& known && !no_id(t, "id"@) ==> (command::command_in(t, surface) matches Ok(
                Command::Ask { op: Op::Ime { id, kind, text, caret } },
            ) && reads_id(id, t, "id"@) && reads_text(text, t, "text"@, ""@) && (no_id(t, "caret"@)
                ==> caret == u32::MAX) && (!no_id(t, "caret"@) ==> reads_id(caret, t, "caret"@))
                && kind <= 3 && (says(t, "kind"@, JsonV::Str("set"@)) <==> kind == 0) && (says(
                t,
                "kind"@,
                JsonV::Str("commit"@),
            ) <==> kind == 1) && (says(t, "kind"@, JsonV::Str("finish"@)) <==> kind == 2) && (says(
                t,
                "kind"@,
                JsonV::Str("cancel"@),
            ) <==> kind == 3))
        }),
{
    lemma_types();
    lemma_kinds();
    lemma_asks(t, "ime"@);
    law_members_are_read(t, "id"@, ""@, false);
    law_members_are_read(t, "caret"@, ""@, false);
    law_members_are_read(t, "text"@, ""@, false);
}

/// Navigation, hiding, focus and closing are read as they stand, each as what it is called.
pub proof fn law_operations_are_read(t: JsonV, surface: usize, ty: Seq<char>)
    requires
        asks(t, ty),
        ty == "reload"@ || ty == "stop"@ || ty == "back"@ || ty == "forward"@ || ty == "hidden"@
            || ty == "focus"@ || ty == "close"@,
    ensures
        no_id(t, "id"@) ==> wants_id(command::command_in(t, surface)),
        !no_id(t, "id"@) ==> (match command::command_in(t, surface) {
            Ok(Command::Ask { op: Op::Reload { id, ignore_cache } }) => ty == "reload"@ && reads_id(
                id,
                t,
                "id"@,
            ) && reads_truth(ignore_cache, t, "ignoreCache"@, false),
            Ok(Command::Ask { op: Op::Stop { id } }) => ty == "stop"@ && reads_id(id, t, "id"@),
            Ok(Command::Ask { op: Op::Back { id } }) => ty == "back"@ && reads_id(id, t, "id"@),
            Ok(Command::Ask { op: Op::Forward { id } }) => ty == "forward"@ && reads_id(
                id,
                t,
                "id"@,
            ),
            Ok(Command::Ask { op: Op::Hidden { id, hidden } }) => ty == "hidden"@ && reads_id(
                id,
                t,
                "id"@,
            ) && reads_truth(hidden, t, "hidden"@, false),
            Ok(Command::Ask { op: Op::Focus { id } }) => ty == "focus"@ && reads_id(id, t, "id"@),
            Ok(Command::Close { id }) => ty == "close"@ && reads_id(id, t, "id"@),
            _ => false,
        }),
{
    lemma_types();
    lemma_asks(t, ty);
    law_members_are_read(t, "id"@, ""@, false);
    law_members_are_read(t, "ignoreCache"@, ""@, false);
    law_members_are_read(t, "hidden"@, ""@, false);
}

/// An address to open and a script to run are read as they stand; without them, or without an id, the
/// request is refused.
pub proof fn law_addresses_and_scripts_are_read(t: JsonV, surface: usize, words: Seq<char>)
    ensures
        asks(t, "load"@) && says(t, "url"@, JsonV::Str(words)) && !no_id(t, "id"@) ==> (
        command::command_in(t, surface) matches Ok(Command::Ask { op: Op::Load { id, url } }) && url
            == words && reads_id(id, t, "id"@)),
        asks(t, "load"@) && (no_id(t, "id"@) || forall|w: Seq<char>| !
        #[trigger] says(t, "url"@, JsonV::Str(w))) ==> command::command_in(t, surface) is Err,
        asks(t, "eval"@) && says(t, "js"@, JsonV::Str(words)) && !no_id(t, "id"@) ==> (
        command::command_in(t, surface) matches Ok(Command::Eval { id, js }) && js == words
            && reads_id(id, t, "id"@)),
        asks(t, "eval"@) && (no_id(t, "id"@) || forall|w: Seq<char>| !
        #[trigger] says(t, "js"@, JsonV::Str(w))) ==> command::command_in(t, surface) is Err,
{
    lemma_types();
    if asks(t, "load"@) {
        lemma_asks(t, "load"@);
    }
    if asks(t, "eval"@) {
        lemma_asks(t, "eval"@);
    }
    law_members_are_read(t, "id"@, ""@, false);
    law_members_are_read(t, "url"@, ""@, false);
    law_members_are_read(t, "js"@, ""@, false);
    if let JsonV::Obj(m) = t {
        if m.contains_key("url"@) {
            if let JsonV::Str(w) = m["url"@] {
                assert(says(t, "url"@, JsonV::Str(w)));
            }
        }
        if m.contains_key("js"@) {
            if let JsonV::Str(w) = m["js"@] {
                assert(says(t, "js"@, JsonV::Str(w)));
            }
        }
    }
}

/// An answer to a page is read as it stands: which question, whether it goes well (it does unless the
/// answer says otherwise), the text, the code of a failure, and whether the page is kept for more.
pub proof fn law_answers_are_read(t: JsonV, surface: usize)
    requires
        asks(t, "query-reply"@),
    ensures
        (forall|n: i64| !#[trigger] states(t, "queryId"@, n as int)) ==> command::command_in(
            t,
            surface,
        ) is Err,
        forall|n: i64| #[trigger]
            states(t, "queryId"@, n as int) ==> (command::command_in(t, surface) matches Ok(
                Command::QueryReply { query_id, success, response, error_code, keep },
            ) && query_id == n && reads_truth(success, t, "success"@, true) && reads_text(
                response,
                t,
                "response"@,
                ""@,
            ) && reads_truth(keep, t, "keep"@, false) && (forall|c: int|
                i32::MIN <= c <= i32::MAX && #[trigger] states(t, "errorCode"@, c) ==> error_code
                    == c) && ((forall|c: i64| !#[trigger] states(t, "errorCode"@, c as int))
                ==> error_code == -1)),
{
    lemma_types();
    lemma_asks(t, "query-reply"@);
    law_members_are_read(t, "success"@, ""@, true);
    law_members_are_read(t, "keep"@, ""@, false);
    law_members_are_read(t, "response"@, ""@, false);
    lemma_signed(t, "queryId"@);
    lemma_signed(t, "errorCode"@);
}

pub proof fn lemma_signed(t: JsonV, key: Seq<char>)
    ensures
        json::as_signed(json::member(t, key)) is None <==> forall|n: i64| !
        #[trigger] states(t, key, n as int),
        forall|n: i64| #[trigger]
            states(t, key, n as int) ==> json::as_signed(json::member(t, key)) == Some(n),
        forall|n: int|
            i64::MIN <= n <= i64::MAX && #[trigger] states(t, key, n) ==> json::as_signed(
                json::member(t, key),
            ) == Some(n as i64),
{
    if let JsonV::Obj(m) = t {
        if m.contains_key(key) {
            match m[key] {
                JsonV::Num(Num::Pos(n)) => {
                    if n <= i64::MAX {
                        assert(states(t, key, (n as i64) as int));
                    }
                },
                JsonV::Num(Num::Neg(i)) => {
                    assert(states(t, key, i as int));
                },
                _ => {},
            }
        }
    }
}

/// A browser is asked for as it stands: under the parent that the request came with, where and how
/// large, with its address and its owner; windowed unless it is offscreen, and then at its scale. A
/// request without a parent, or of an unknown mode, is refused.
pub proof fn law_creation_is_read(t: JsonV, surface: usize)
    requires
        asks(t, "create"@),
    ensures
        surface == 0 ==> command::command_in(t, surface) is Err,
        surface != 0 ==> ({
            let offscreen = says(t, "mode"@, JsonV::Str("offscreen"@));
            let windowed = says(t, "mode"@, JsonV::Str("windowed"@)) || forall|m: Seq<char>| !
            #[trigger] says(t, "mode"@, JsonV::Str(m));
            &&& !offscreen && !windowed ==> command::command_in(t, surface) is Err
            &&& offscreen || windowed ==> (command::command_in(t, surface) matches Ok(
                Command::Create { nsview, x, y, w, h, url, scale, owner },
            ) && nsview == surface && reads_int(x, t, "x"@) && reads_int(y, t, "y"@)
                && reads_length(w, t, "w"@) && reads_length(h, t, "h"@) && reads_text(
                url,
                t,
                "url"@,
                "about:blank"@,
            ) && reads_text(owner, t, "owner"@, ""@) && (scale is Some <==> offscreen) && (
            offscreen ==> (forall|n: Num| #[trigger]
                says(t, "scale"@, JsonV::Num(n)) ==> scale == Some(n)) && ((forall|n: Num| !
            #[trigger] says(t, "scale"@, JsonV::Num(n))) ==> scale == Some(Num::Pos(1)))))
        }),
{
    lemma_types();
    lemma_asks(t, "create"@);
    reveal_strlit("offscreen");
    reveal_strlit("windowed");
    assert("offscreen"@.len() == 9 && "windowed"@.len() == 8);
    law_members_are_read(t, "x"@, ""@, false);
    law_members_are_read(t, "y"@, ""@, false);
    lemma_length(t, "w"@);
    lemma_length(t, "h"@);
    law_members_are_read(t, "url"@, "about:blank"@, false);
    law_members_are_read(t, "owner"@, ""@, false);
    if let JsonV::Obj(m) = t {
        if m.contains_key("mode"@) {
            if let JsonV::Str(w) = m["mode"@] {
                assert(says(t, "mode"@, JsonV::Str(w)));
            }
        }
        if m.contains_key("scale"@) {
            if let JsonV::Num(n) = m["scale"@] {
                assert(says(t, "scale"@, JsonV::Num(n)));
            }
        }
    }
}

/// Developer tools are asked for as it stands: for the browser to inspect, under the parent that the
/// request came with, where and how large, with or without the page preview, and with their owner.
pub proof fn law_devtools_are_read(t: JsonV, surface: usize)
    requires
        asks(t, "devtools-open"@),
    ensures
        surface == 0 || no_id(t, "inspectedId"@) ==> command::command_in(t, surface) is Err,
        surface != 0 && !no_id(t, "inspectedId"@) ==> (command::command_in(t, surface) matches Ok(
            Command::DevtoolsOpen { nsview, x, y, w, h, inspected, screencast, owner },
        ) && nsview == surface && reads_int(x, t, "x"@) && reads_int(y, t, "y"@) && reads_length(
            w,
            t,
            "w"@,
        ) && reads_length(h, t, "h"@) && reads_id(inspected, t, "inspectedId"@) && reads_truth(
            screencast,
            t,
            "screencast"@,
            false,
        ) && reads_text(owner, t, "owner"@, ""@)),
{
    lemma_types();
    lemma_asks(t, "devtools-open"@);
    law_members_are_read(t, "x"@, ""@, false);
    law_members_are_read(t, "y"@, ""@, false);
    lemma_length(t, "w"@);
    lemma_length(t, "h"@);
    law_members_are_read(t, "inspectedId"@, ""@, false);
    law_members_are_read(t, "screencast"@, ""@, false);
    law_members_are_read(t, "owner"@, ""@, false);
}

/// Requests that are for no browser are read as they are called, whatever else they hold.
pub proof fn law_general_requests_are_read(t: JsonV, surface: usize)
    ensures
        asks(t, "caps"@) ==> command::command_in(t, surface) == Ok::<CommandV, Seq<char>>(
            Command::Caps,
        ),
        asks(t, "stats"@) ==> command::command_in(t, surface) == Ok::<CommandV, Seq<char>>(
            Command::Stats,
        ),
        asks(t, "popup-mode"@) ==> (command::command_in(t, surface) matches Ok(
            Command::PopupMode { as_window },
        ) && reads_truth(as_window, t, "asWindow"@, false)),
{
    lemma_types();
    if asks(t, "caps"@) {
        lemma_asks(t, "caps"@);
    }
    if asks(t, "stats"@) {
        lemma_asks(t, "stats"@);
    }
    if asks(t, "popup-mode"@) {
        lemma_asks(t, "popup-mode"@);
    }
    law_members_are_read(t, "asWindow"@, ""@, false);
}

/// What a refusal shows of the text under `key`: the text as `Some`, quoted, or `None`.
pub open spec fn shows(shown: Seq<char>, t: JsonV, key: Seq<char>) -> bool {
    &&& forall|k: Seq<char>| #[trigger]
        says(t, key, JsonV::Str(k)) ==> shown == "Some("@ + text::debug_quoted(k) + ")"@
    &&& (forall|k: Seq<char>| !#[trigger] says(t, key, JsonV::Str(k))) ==> shown == "None"@
}

/// `r` refuses with `head` and what the document shows under `key`.
pub open spec fn refuses_showing(r: ReadV, head: Seq<char>, t: JsonV, key: Seq<char>) -> bool {
    exists|shown: Seq<char>| #[trigger]
        shows(shown, t, key) && r == Err::<CommandV, Seq<char>>(head + shown)
}

/// A refusal says why: which kind of event is not known, which mode, or what is missing.
pub proof fn law_refusals_say_why(t: JsonV, surface: usize, mode: Seq<char>)
    ensures
        asks(t, "mouse"@) && no_kind(t, "move"@, "down"@, "up"@) ==> refuses_showing(
            command::command_in(t, surface),
            "미지 mouse kind: "@,
            t,
            "kind"@,
        ),
        asks(t, "key"@) && no_kind(t, "down"@, "up"@, "char"@) ==> refuses_showing(
            command::command_in(t, surface),
            "미지 key kind: "@,
            t,
            "kind"@,
        ),
        asks(t, "ime"@) && no_kind(t, "set"@, "commit"@, "finish"@) && !says(
            t,
            "kind"@,
            JsonV::Str("cancel"@),
        ) ==> refuses_showing(command::command_in(t, surface), "미지 ime kind: "@, t, "kind"@),
        asks(t, "create"@) && surface != 0 && says(t, "mode"@, JsonV::Str(mode)) && mode
            != "offscreen"@ && mode != "windowed"@ ==> command::command_in(t, surface) == Err::<
            CommandV,
            Seq<char>,
        >("미지 mode: "@ + mode),
        (asks(t, "create"@) || asks(t, "devtools-open"@)) && surface == 0 ==> command::command_in(
            t,
            surface,
        ) == Err::<CommandV, Seq<char>>("surface(부모 뷰) 없음"@),
        asks(t, "devtools-open"@) && surface != 0 && no_id(t, "inspectedId"@)
            ==> command::command_in(t, surface) == Err::<CommandV, Seq<char>>("inspectedId 필요"@),
        asks(t, "load"@) && (forall|w: Seq<char>| !#[trigger] says(t, "url"@, JsonV::Str(w)))
            ==> command::command_in(t, surface) == Err::<CommandV, Seq<char>>("url 필요"@),
        asks(t, "eval"@) && (forall|w: Seq<char>| !#[trigger] says(t, "js"@, JsonV::Str(w)))
            ==> command::command_in(t, surface) == Err::<CommandV, Seq<char>>("js 필요"@),
        asks(t, "query-reply"@) && (forall|n: i64| !#[trigger] states(t, "queryId"@, n as int))
            ==> command::command_in(t, surface) == Err::<CommandV, Seq<char>>("queryId 필요"@),
{
    lemma_types();
    lemma_kinds();
    law_members_are_read(t, "type"@, ""@, false);
    law_members_are_read(t, "inspectedId"@, ""@, false);
    lemma_signed(t, "queryId"@);
    let kind = command::kind_in(t);
    let shown = text::debug_option(kind);
    assert(shows(shown, t, "kind"@)) by {
        if let JsonV::Obj(m) = t {
            if m.contains_key("kind"@) {
                if let JsonV::Str(k) = m["kind"@] {
                    assert(says(t, "kind"@, JsonV::Str(k)));
                }
            }
        }
    }
    if let JsonV::Obj(m) = t {
        if m.contains_key("url"@) {
            if let JsonV::Str(w) = m["url"@] {
                assert(says(t, "url"@, JsonV::Str(w)));
            }
        }
        if m.contains_key("js"@) {
            if let JsonV::Str(w) = m["js"@] {
                assert(says(t, "js"@, JsonV::Str(w)));
            }
        }
    }
}

/// A request of no known type is refused, and told back its type; so is one without a type.
pub proof fn law_unknown_requests_are_refused(t: JsonV, surface: usize, ty: Seq<char>)
    requires
        reads_text(ty, t, "type"@, ""@),
        ty != "caps"@ && ty != "create"@ && ty != "mouse"@ && ty != "wheel"@ && ty != "key"@ && ty
            != "ime"@ && ty != "devtools-open"@ && ty != "bounds"@ && ty != "load"@ && ty
            != "query-reply"@ && ty != "reload"@ && ty != "eval"@ && ty != "stop"@ && ty != "back"@
            && ty != "forward"@ && ty != "hidden"@ && ty != "focus"@ && ty != "close"@ && ty
            != "stats"@ && ty != "popup-mode"@,
    ensures
        command::command_in(t, surface) == Err::<CommandV, Seq<char>>("미지 요청 type: "@ + ty),
{
    law_members_are_read(t, "type"@, ""@, false);
    let read = command::text_in(t, "type"@, ""@);
    if let JsonV::Obj(m) = t {
        if m.contains_key("type"@) {
            if let JsonV::Str(w) = m["type"@] {
                assert(says(t, "type"@, JsonV::Str(w)));
            }
        }
    }
    assert(read == ty);
}

// ── what comes of it ─────────────────────────────────────────────────────────────────────────

/// What was asked for is what waits: an operation as it was read, a browser with everything it was
/// asked for with and under the next id, developer tools likewise.
pub proof fn law_requests_are_done_as_read(s: EngineV, c: CommandV, now: u64)
    ensures
        ({
            let t = protocol::done(s, c, now);
            match c {
                Command::Caps => t == s,
                Command::Stats => t == s,
                Command::Ask { op } => t.ops == s.ops.push(op) && t.pending == s.pending,
                Command::Close { id } => t.ops == s.ops.push(Op::Close { id }) && t.pending
                    == s.pending,
                Command::Eval { id, js } => t.ops == s.ops.push(
                    Op::Eval { id, eval_id: s.next_eval_id, js },
                ) && t.pending == s.pending,
                Command::PopupMode { as_window } => t == (EngineV {
                    popup_as_window: as_window,
                    ..s
                }),
                Command::QueryReply { query_id, keep, .. } => {
                    &&& t == (EngineV { queries: t.queries, ..s })
                    &&& t.queries.contains(query_id) ==> keep
                    &&& keep ==> t == s
                    &&& forall|q: i64|
                        q != query_id ==> #[trigger] t.queries.contains(q) == s.queries.contains(q)
                },
                Command::Create { nsview, x, y, w, h, url, scale, owner } => {
                    let req = t.pending.last();
                    &&& t.pending.len() == s.pending.len() + 1
                    &&& t.pending.drop_last() == s.pending
                    &&& t.ops == s.ops
                    &&& req.id == s.next_id && req.nsview == nsview
                    &&& req.x == x && req.y == y && req.w == w && req.h == h
                    &&& req.url == url && req.offscreen_scale == scale && req.devtools_of is None
                    &&& t.owners.contains_key(req.id) && t.owners[req.id] == owner
                },
                Command::DevtoolsOpen { nsview, x, y, w, h, inspected, screencast, owner } => {
                    let req = t.pending.last();
                    &&& t.pending.len() == s.pending.len() + 1
                    &&& t.pending.drop_last() == s.pending
                    &&& t.ops == s.ops
                    &&& req.id == s.next_id && req.nsview == nsview
                    &&& req.x == x && req.y == y && req.w == w && req.h == h
                    &&& req.devtools_of == Some(inspected) && req.screencast == screencast
                    &&& req.offscreen_scale is None
                    &&& t.owners.contains_key(req.id) && t.owners[req.id] == owner
                },
            }
        }),
{
    let t = protocol::done(s, c, now);
    if c is Create || c is DevtoolsOpen {
        assert(t.pending.drop_last() =~= s.pending);
    }
}

/// What is to be done at once follows from what was asked for: a page is answered, and for anything
/// that waits the pump is asked to run; nothing is done for a question about the module.
pub proof fn law_requests_have_done_what_they_need(s: EngineV, c: CommandV)
    ensures
        ({
            let acts = protocol::done_actions(s, c);
            match c {
                Command::Caps => acts.len() == 0,
                Command::Stats => acts.len() == 0,
                Command::PopupMode { .. } => acts.len() == 0,
                Command::QueryReply { query_id, success, response, error_code, keep } => {
                    if !s.queries.contains(query_id) {
                        acts.len() == 0
                    } else if success {
                        acts.len() == 1 && acts[0] == Action::<Seq<char>, JsonV>::AnswerQuery {
                            query_id,
                            response,
                            release: !keep,
                        }
                    } else {
                        acts.len() == 1 && acts[0] == Action::<Seq<char>, JsonV>::FailQuery {
                            query_id,
                            error_code,
                            response,
                            release: !keep,
                        }
                    }
                },
                _ => acts.contains(
                    Action::<Seq<char>, JsonV>::DispatchPump { delay_ms: 0 },
                ) == (s.platform == crate::presenter::Platform::MacOs && !s.pump.scheduled),
            }
        }),
{
    let acts = protocol::done_actions(s, c);
    if s.platform == crate::presenter::Platform::MacOs && !s.pump.scheduled {
        match c {
            Command::Create { .. } | Command::DevtoolsOpen { .. } | Command::Ask { .. }
            | Command::Close { .. } | Command::Eval { .. } => {
                assert(acts[acts.len() - 1] == Action::<Seq<char>, JsonV>::DispatchPump {
                    delay_ms: 0,
                });
            },
            _ => {},
        }
    }
}

// ── what is answered ─────────────────────────────────────────────────────────────────────────

pub proof fn lemma_reply_names()
    ensures
        "ok"@.len() == 2 && "ok"@[0] == 'o',
        "id"@.len() == 2 && "id"@[0] == 'i',
        "ids"@.len() == 3 && "ids"@[0] == 'i',
        "dbg"@.len() == 3 && "dbg"@[0] == 'd',
        "owner"@.len() == 5 && "owner"@[0] == 'o',
        "modes"@.len() == 5 && "modes"@[0] == 'm',
        "evalId"@.len() == 6 && "evalId"@[0] == 'e',
        "reaped"@.len() == 6 && "reaped"@[0] == 'r',
        "version"@.len() == 7,
        "surfaces"@.len() == 8,
        "offscreen"@.len() == 9,
        "closeEnter"@.len() == 10,
        "closeApplied"@.len() == 12 && "closeApplied"@[5] == 'A',
        "closeBrowser"@.len() == 12 && "closeBrowser"@[5] == 'B',
        "closeNotFound"@.len() == 13,
        "framesPresented"@.len() == 15,
{
    reveal_strlit("ok");
    reveal_strlit("id");
    reveal_strlit("ids");
    reveal_strlit("dbg");
    reveal_strlit("owner");
    reveal_strlit("modes");
    reveal_strlit("evalId");
    reveal_strlit("reaped");
    reveal_strlit("version");
    reveal_strlit("surfaces");
    reveal_strlit("offscreen");
    reveal_strlit("closeEnter");
    reveal_strlit("closeApplied");
    reveal_strlit("closeBrowser");
    reveal_strlit("closeNotFound");
    reveal_strlit("framesPresented");
}

/// Every request that is done is answered with `ok`. One for a browser is told the id that it will
/// have, one for a script the number that its result will come under.
pub proof fn law_answers_tell_the_number(s: EngineV, c: CommandV)
    ensures
        says(protocol::answer(s, c), "ok"@, JsonV::Bool(true)),
        c is Create || c is DevtoolsOpen ==> says(
            protocol::answer(s, c),
            "id"@,
            JsonV::Num(Num::Pos(s.next_id as u64)),
        ),
        c is Eval ==> says(
            protocol::answer(s, c),
            "evalId"@,
            JsonV::Num(Num::Pos(s.next_eval_id)),
        ),
{
    lemma_reply_names();
}

/// The module says which modes it has, and which version it is.
pub proof fn law_module_says_what_it_can(s: EngineV)
    ensures
        ({
            let t = protocol::answer(s, Command::Caps);
            &&& t matches JsonV::Obj(m) && m.contains_key("modes"@) && (m["modes"@] matches
                JsonV::Arr(list) && list.contains(JsonV::Str("windowed"@)) && list.contains(
                JsonV::Str("offscreen"@),
            ) && list.len() == 2)
            &&& says(t, "version"@, JsonV::Str("0.0.1"@))
        }),
{
    lemma_reply_names();
    let list = seq![JsonV::Str("windowed"@), JsonV::Str("offscreen"@)];
    assert(list[0] == JsonV::Str("windowed"@) && list[1] == JsonV::Str("offscreen"@));
}

/// The state is told as it is: every living browser by its id, with its owner and its mode, in the order
/// in which they were made; and each counter under its own name.
pub proof fn law_state_is_told(s: EngineV, i: int)
    requires
        0 <= i < s.browsers.len(),
    ensures
        ({
            let id = s.browsers[i].0;
            protocol::answer(s, Command::Stats) matches JsonV::Obj(m) && {
                &&& m.contains_key("ids"@) && (m["ids"@] matches JsonV::Arr(ids) && ids.len()
                    == s.browsers.len() && ids[i] == JsonV::Num(Num::Pos(id as u64)))
                &&& m.contains_key("surfaces"@) && (m["surfaces"@] matches JsonV::Arr(all)
                    && all.len() == s.browsers.len() && says(
                    all[i],
                    "id"@,
                    JsonV::Num(Num::Pos(id as u64)),
                ) && says(
                    all[i],
                    "owner"@,
                    JsonV::Str(
                        if s.owners.contains_key(id) {
                            s.owners[id]
                        } else {
                            Seq::<char>::empty()
                        },
                    ),
                ) && says(
                    all[i],
                    "offscreen"@,
                    JsonV::Bool(s.surfaces.surfs.contains_key(id)),
                ))
            }
        }),
{
    lemma_reply_names();
}

/// Each counter is told under its own name, whether or not a browser lives.
pub proof fn law_counters_are_told(s: EngineV)
    ensures
        protocol::answer(s, Command::Stats) matches JsonV::Obj(m) && m.contains_key("dbg"@) && {
            let dbg = m["dbg"@];
            &&& says(dbg, "closeEnter"@, JsonV::Num(Num::Pos(s.dbg.close_enter)))
            &&& says(dbg, "closeApplied"@, JsonV::Num(Num::Pos(s.dbg.close_applied)))
            &&& says(dbg, "closeBrowser"@, JsonV::Num(Num::Pos(s.dbg.close_browser)))
            &&& says(dbg, "closeNotFound"@, JsonV::Num(Num::Pos(s.dbg.close_notfound)))
            &&& says(dbg, "reaped"@, JsonV::Num(Num::Pos(s.dbg.reaped)))
            &&& says(
                dbg,
                "framesPresented"@,
                JsonV::Num(Num::Pos(s.surfaces.frames_presented)),
            )
        },
{
    lemma_reply_names();
}

/// A message is done exactly where it is a document that can be read as a request; then it has that
/// request's answer. Otherwise it has the reason, and the reason is the reader's own.
pub proof fn law_messages_are_answered(s: EngineV, p: Parsed, surface: usize, now: u64)
    ensures
        match p {
            Err(m) => {
                &&& protocol::message_code(s, p, surface) == -1
                &&& protocol::message_reply(s, p, surface) matches JsonV::Obj(r)
                    && r.contains_key("error"@) && (r["error"@] matches JsonV::Str(why)
                    && why == "요청 JSON 파싱 실패: "@ + m)
                &&& protocol::message_state(s, p, surface, now) == s
                &&& protocol::message_actions(s, p, surface).len() == 0
            },
            Ok(t) => match command::command_in(t, surface) {
                Err(m) => {
                    &&& protocol::message_code(s, p, surface) == -1
                    &&& says(protocol::message_reply(s, p, surface), "error"@, JsonV::Str(m))
                    &&& protocol::message_state(s, p, surface, now) == s
                    &&& protocol::message_actions(s, p, surface).len() == 0
                },
                Ok(c) => {
                    &&& protocol::message_code(s, p, surface) == 0
                    &&& protocol::message_reply(s, p, surface) == protocol::answer(s, c)
                    &&& protocol::message_state(s, p, surface, now) == protocol::done(s, c, now)
                    &&& protocol::message_actions(s, p, surface) == protocol::done_actions(s, c)
                },
            },
        },
{
}

// ── notices and start-up ─────────────────────────────────────────────────────────────────────

/// A notice is read as it stands: that something lies above the browsers, or no longer; or which parent
/// goes. Anything else does not concern the module.
pub proof fn law_notices_are_read(t: JsonV, view: u64)
    ensures
        asks(t, "surface-occluded"@) ==> (protocol::notice_in(t) matches Notice::Occluded {
            occluded,
        } && reads_truth(occluded, t, "occluded"@, false)),
        asks(t, "surface-closing"@) && says(t, "view"@, JsonV::Num(Num::Pos(view))) && view
            <= usize::MAX ==> protocol::notice_in(t) == (Notice::Closing { view: view as usize }),
        asks(t, "surface-closing"@) && no_id(t, "view"@) ==> protocol::notice_in(t)
            == Notice::Other,
        !asks(t, "surface-occluded"@) && !asks(t, "surface-closing"@) ==> protocol::notice_in(t)
            == Notice::Other,
{
    reveal_strlit("surface-occluded");
    reveal_strlit("surface-closing");
    assert("surface-occluded"@.len() == 16 && "surface-closing"@.len() == 15);
    law_members_are_read(t, "occluded"@, ""@, false);
    if let JsonV::Obj(m) = t {
        if m.contains_key("view"@) {
            if let JsonV::Num(Num::Pos(n)) = m["view"@] {
                assert(says(t, "view"@, JsonV::Num(Num::Pos(n))));
            }
        }
    }
}

/// A notice that something lies above the browsers waits in line like a request; one that a parent goes
/// has every child of that parent closed, and nobody else; any other changes nothing.
pub proof fn law_notices_are_followed(s: EngineV, occluded: bool, view: usize, now: u64)
    ensures
        protocol::notified(s, Notice::Other, now) == s,
        protocol::notice_actions(s, Notice::Other).len() == 0,
        protocol::notice_actions(s, Notice::Occluded { occluded }) == engine::ask_actions(
            s,
            Op::Overlay { active: occluded },
        ),
        ({
            let acts = protocol::notice_actions(s, Notice::Closing { view });
            let t = protocol::notified(s, Notice::Closing { view }, now);
            let asks = t.ops.len() > s.ops.len() && s.platform
                == crate::presenter::Platform::MacOs && !s.pump.scheduled;
            &&& acts.len() == if asks { 1nat } else { 0 }
            &&& asks ==> acts[0] == Action::<Seq<char>, JsonV>::DispatchPump { delay_ms: 0 }
        }),
        protocol::notified(s, Notice::Occluded { occluded }, now).ops == s.ops.push(
            Op::Overlay { active: occluded },
        ),
        ({
            let t = protocol::notified(s, Notice::Closing { view }, now);
            &&& t.ops.len() >= s.ops.len()
            &&& forall|i: int| 0 <= i < s.ops.len() ==> #[trigger] t.ops[i] == s.ops[i]
            &&& forall|i: int| s.ops.len() <= i < t.ops.len() ==> #[trigger] t.ops[i] is Close
            &&& forall|id: u32| #[trigger]
                s.parents.contains((id, view)) ==> exists|i: int|
                    s.ops.len() <= i < t.ops.len() && #[trigger] t.ops[i] == (Op::<
                        Seq<char>,
                    >::Close { id })
            &&& forall|i: int|
                s.ops.len() <= i < t.ops.len() ==> s.parents.contains(
                    ((#[trigger] t.ops[i])->Close_id, view),
                )
        }),
{
    let ids = engine::children(s.parents, view);
    let t = protocol::notified(s, Notice::Closing { view }, now);
    assert forall|id: u32| #[trigger] s.parents.contains((id, view)) implies exists|i: int|
        s.ops.len() <= i < t.ops.len() && #[trigger] t.ops[i] == (Op::<Seq<char>>::Close {
            id,
        }) by {
        crate::laws::law_every_child_is_closed(s, view, now, id);
        let k = choose|k: int| 0 <= k < ids.len() && ids[k] == id;
        assert(t.ops[s.ops.len() + k] == (Op::<Seq<char>>::Close { id }));
    }
    assert forall|i: int| s.ops.len() <= i < t.ops.len() implies s.parents.contains(
        ((#[trigger] t.ops[i])->Close_id, view),
    ) by {
        let id = ids[i - s.ops.len()];
        crate::laws::law_every_child_is_closed(s, view, now, id);
        assert(ids.contains(id));
    }
}

/// A host is taken exactly where it is there, brings a configuration and speaks the same version; the
/// reason is told where it is not. The configuration names the directory, or nothing does.
pub proof fn law_hosts_are_taken(
    host_abi: Option<u32>,
    has_config: bool,
    p: Parsed,
    dist: Seq<char>,
)
    ensures
        protocol::host_code(host_abi, has_config) == 0 <==> host_abi == Some(1u32) && has_config,
        protocol::host_code(host_abi, has_config) == 1 <==> host_abi is None || !has_config,
        protocol::host_code(host_abi, has_config) == 2 <==> has_config && host_abi is Some
            && host_abi != Some(1u32),
        protocol::dist_in(p) == Some(dist) <==> (p matches Ok(t) && says(
            t,
            "distDir"@,
            JsonV::Str(dist),
        )),
{
}

}
