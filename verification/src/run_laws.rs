//! What a run of the harness does, how the module starts, and what numerals and documents stand for.

use vstd::prelude::*;
use vstd::string::*;
use vstd::utf8::*;

use crate::command;
use crate::command::{Command, CommandV};
use crate::devtools;
use crate::engine::EngineV;
use crate::handlers;
use crate::harness;
use crate::harness::{HarnessV, TEST_PAGE};
use crate::json;
use crate::json::{Json, JsonV, Num};
use crate::laws;
use crate::ops::Op;
use crate::presenter::Platform;
use crate::protocol;
use crate::report_laws::{integer, mentions, says};
use crate::request_laws;
use crate::request_laws::asks_for;
use crate::startup;
use crate::text;

verus! {

// ── what the harness sends ───────────────────────────────────────────────────────────────────

proof fn lemma_words()
    ensures
        "type"@.len() == 4 && "type"@[0] == 't' && "type"@[1] == 'y',
        "text"@.len() == 4 && "text"@[0] == 't' && "text"@[1] == 'e',
        "kind"@.len() == 4 && "kind"@[0] == 'k',
        "code"@.len() == 4 && "code"@[0] == 'c' && "code"@[1] == 'o',
        "char"@.len() == 4 && "char"@[0] == 'c' && "char"@[1] == 'h',
        "mods"@.len() == 4 && "mods"@[0] == 'm' && "mods"@[2] == 'd' && "mods"@[3] == 's',
        "mode"@.len() == 4 && "mode"@[0] == 'm' && "mode"@[2] == 'd' && "mode"@[3] == 'e',
        "keep"@.len() == 4 && "keep"@[0] == 'k' && "keep"@[1] == 'e',
        "kind"@[1] == 'i',
        "name"@.len() == 4 && "name"@[0] == 'n',
        "id"@.len() == 2 && "id"@[0] == 'i',
        "dx"@.len() == 2 && "dx"@[0] == 'd' && "dx"@[1] == 'x',
        "dy"@.len() == 2 && "dy"@[0] == 'd' && "dy"@[1] == 'y',
        "x"@.len() == 1 && "x"@[0] == 'x',
        "y"@.len() == 1 && "y"@[0] == 'y',
        "w"@.len() == 1 && "w"@[0] == 'w',
        "h"@.len() == 1 && "h"@[0] == 'h',
        "url"@.len() == 3,
        "caret"@.len() == 5 && "caret"@[0] == 'c',
        "scale"@.len() == 5 && "scale"@[0] == 's',
        "owner"@.len() == 5 && "owner"@[0] == 'o',
        "button"@.len() == 6 && "button"@[0] == 'b',
        "clicks"@.len() == 6 && "clicks"@[0] == 'c',
        "queryId"@.len() == 7 && "queryId"@[0] == 'q',
        "success"@.len() == 7 && "success"@[0] == 's',
        "distDir"@.len() == 7 && "distDir"@[0] == 'd',
        "response"@.len() == 8,
        "errorCode"@.len() == 9,
{
    reveal_strlit("type");
    reveal_strlit("text");
    reveal_strlit("kind");
    reveal_strlit("code");
    reveal_strlit("char");
    reveal_strlit("mods");
    reveal_strlit("mode");
    reveal_strlit("keep");
    reveal_strlit("name");
    reveal_strlit("id");
    reveal_strlit("dx");
    reveal_strlit("dy");
    reveal_strlit("x");
    reveal_strlit("y");
    reveal_strlit("w");
    reveal_strlit("h");
    reveal_strlit("url");
    reveal_strlit("caret");
    reveal_strlit("scale");
    reveal_strlit("owner");
    reveal_strlit("button");
    reveal_strlit("clicks");
    reveal_strlit("queryId");
    reveal_strlit("success");
    reveal_strlit("distDir");
    reveal_strlit("response");
    reveal_strlit("errorCode");
}

/// The configuration that the harness writes names, to the module that reads it, the directory that
/// the harness was given.
pub proof fn law_configuration_is_understood(dist: Seq<char>)
    ensures
        protocol::dist_in(Ok(harness::config_tree(dist))) == Some(dist),
{
    lemma_words();
}

/// The browser that the harness asks for is one with the test page: offscreen at the scale that it was
/// given, and windowed without one.
pub proof fn law_test_page_is_asked_for(scale: Option<Num>, surface: usize)
    requires
        surface != 0,
    ensures
        command::command_in(harness::create_tree(scale), surface) matches Ok(
            Command::Create { nsview, x, y, w, h, url, scale: read, owner },
        ) && nsview == surface && url == TEST_PAGE@ && x == 10 && y == 10 && w == 700 && h == 440
            && owner == ""@ && (scale matches Some(n) ==> read == Some(json::canonical(n))) && (
        scale is None ==> read is None),
{
    lemma_words();
    let t = harness::create_tree(scale);
    assert(says(t, "type"@, JsonV::Str("create"@)));
    request_laws::lemma_types();
    request_laws::lemma_asks(t, "create"@);
    reveal_strlit("offscreen");
    reveal_strlit("windowed");
}

/// The harness answers a page's question, whichever it is, with success and `pong`, once; and that is
/// how the module understands the answer.
pub proof fn law_questions_are_answered(t: JsonV, q: i64, surface: usize)
    requires
        says(t, "event"@, JsonV::Str("query"@)),
        request_laws::states(t, "queryId"@, q as int),
    ensures
        harness::reply_to(t) matches Some(reply) && command::command_in(reply, surface) == Ok::<
            CommandV,
            Seq<char>,
        >(
            Command::QueryReply {
                query_id: q,
                success: true,
                response: "pong"@,
                error_code: -1i32,
                keep: false,
            },
        ),
{
    lemma_words();
    request_laws::lemma_signed(t, "queryId"@);
    let reply = harness::pong_tree(q);
    assert(says(reply, "type"@, JsonV::Str("query-reply"@)));
    request_laws::lemma_types();
    request_laws::lemma_asks(reply, "query-reply"@);
}

/// What the harness hears is on record: that a question came, and the title as the page has it. Nothing
/// else is, and nothing else is answered.
pub proof fn law_reports_are_heard(h: HarnessV, t: JsonV, title: Seq<char>)
    ensures
        says(t, "event"@, JsonV::Str("query"@)) ==> harness::heard(h, t) == (HarnessV {
            query_seen: true,
            ..h
        }),
        says(t, "event"@, JsonV::Str("title"@)) && says(t, "title"@, JsonV::Str(title))
            ==> harness::heard(h, t) == (HarnessV { last_title: title, ..h }),
        !says(t, "event"@, JsonV::Str("query"@)) && !says(t, "event"@, JsonV::Str("title"@))
            ==> harness::heard(h, t) == h,
        harness::reply_to(t) is Some <==> says(t, "event"@, JsonV::Str("query"@)),
{
    reveal_strlit("query");
    reveal_strlit("title");
    assert("query"@[0] == 'q' && "title"@[0] == 't');
}

/// The count of frames that the harness reads is the one that the module tells, and none where it is
/// told none.
pub proof fn law_frames_are_counted_as_told(s: EngineV, t: JsonV, dbg: JsonV)
    ensures
        harness::frames_in(protocol::answer(s, Command::Stats)) == s.surfaces.frames_presented,
        !mentions(t, "dbg"@) ==> harness::frames_in(t) == 0,
        says(t, "dbg"@, dbg) && request_laws::no_id(dbg, "framesPresented"@) ==> harness::frames_in(
            t,
        ) == 0,
{
    request_laws::law_counters_are_told(s);
    request_laws::lemma_reply_names();
    if let JsonV::Obj(m) = dbg {
        if m.contains_key("framesPresented"@) {
            if let JsonV::Num(Num::Pos(n)) = m["framesPresented"@] {
                assert(says(dbg, "framesPresented"@, JsonV::Num(Num::Pos(n))));
            }
        }
    }
}

/// The steps of the harness are what the page waits for: the first focuses the browser and clicks, once
/// and with the left button, at one place; the second turns the wheel down; the third types an `a`; the
/// fourth composes two syllables and commits them. Each is for the one browser, and is understood.
pub proof fn law_steps_are_understood(surface: usize)
    ensures
        harness::inputs(0).len() == 0,
        harness::inputs(1).len() == 4,
        harness::inputs(2).len() == 1,
        harness::inputs(3).len() == 3,
        harness::inputs(4).len() == 3,
        asks_for(command::command_in(harness::inputs(1)[0], surface), Op::Focus { id: 1 }),
        asks_for(command::command_in(harness::inputs(1)[1], surface), mouse(0)),
        asks_for(command::command_in(harness::inputs(1)[2], surface), mouse(1)),
        asks_for(command::command_in(harness::inputs(1)[3], surface), mouse(2)),
        command::command_in(harness::inputs(2)[0], surface) matches Ok(
            Command::Ask { op: Op::Wheel { id, x, y, dx, dy } },
        ) && id == 1 && dx == 0 && dy > 0,
        asks_for(command::command_in(harness::inputs(3)[0], surface), key(0, 0)),
        asks_for(command::command_in(harness::inputs(3)[1], surface), key(2, 97)),
        asks_for(command::command_in(harness::inputs(3)[2], surface), key(1, 0)),
        asks_for(
            command::command_in(harness::inputs(4)[0], surface),
            Op::Ime { id: 1, kind: 0, text: "하"@, caret: 1 },
        ),
        asks_for(
            command::command_in(harness::inputs(4)[1], surface),
            Op::Ime { id: 1, kind: 0, text: "한"@, caret: 1 },
        ),
        asks_for(
            command::command_in(harness::inputs(4)[2], surface),
            Op::Ime { id: 1, kind: 1, text: "한글"@, caret: u32::MAX },
        ),
{
    lemma_words();
    request_laws::lemma_types();
    request_laws::lemma_kinds();
    let focus = harness::inputs(1)[0];
    assert(says(focus, "type"@, JsonV::Str("focus"@)));
    request_laws::lemma_asks(focus, "focus"@);
    lemma_mouse(harness::inputs(1)[1], surface);
    lemma_mouse(harness::inputs(1)[2], surface);
    lemma_mouse(harness::inputs(1)[3], surface);
    let wheel = harness::inputs(2)[0];
    assert(says(wheel, "type"@, JsonV::Str("wheel"@)));
    request_laws::lemma_asks(wheel, "wheel"@);
    reveal_strlit("a");
    assert("a"@[0] == 'a' && "a"@.len() == 1);
    assert(text::utf16_first("a"@) == 97);
    lemma_key(harness::inputs(3)[0], surface);
    lemma_key(harness::inputs(3)[1], surface);
    lemma_key(harness::inputs(3)[2], surface);
    lemma_ime(harness::inputs(4)[0], surface);
    lemma_ime(harness::inputs(4)[1], surface);
    lemma_ime(harness::inputs(4)[2], surface);
}

/// A mouse event of kind `kind` at the page's input field.
pub open spec fn mouse(kind: u8) -> crate::ops::OpV {
    Op::Mouse { id: 1, kind, x: 120, y: 80, button: 0, clicks: 1, mods: 0 }
}

/// An event of kind `kind` of the key `A`, with the character `ch`.
pub open spec fn key(kind: u8, ch: u16) -> crate::ops::OpV {
    Op::Key { id: 1, kind, code: 65, ch, mods: 0 }
}

proof fn lemma_mouse(t: JsonV, surface: usize)
    requires
        says(t, "type"@, JsonV::Str("mouse"@)),
    ensures
        command::command_in(t, surface) == command::mouse_in(t),
{
    request_laws::lemma_types();
    request_laws::lemma_asks(t, "mouse"@);
}

proof fn lemma_key(t: JsonV, surface: usize)
    requires
        says(t, "type"@, JsonV::Str("key"@)),
    ensures
        command::command_in(t, surface) == command::key_in(t),
{
    request_laws::lemma_types();
    request_laws::lemma_asks(t, "key"@);
}

proof fn lemma_ime(t: JsonV, surface: usize)
    requires
        says(t, "type"@, JsonV::Str("ime"@)),
    ensures
        command::command_in(t, surface) == command::ime_in(t),
{
    request_laws::lemma_types();
    request_laws::lemma_asks(t, "ime"@);
}

// ── how the run goes ─────────────────────────────────────────────────────────────────────────

/// Steps come one after the other, each when the page has reported the one before; the first waits for
/// the answer and for a frame.
pub proof fn law_steps_come_in_order(phase: u8, title: Seq<char>, frames: u64)
    ensures
        harness::step_after(phase, title, frames) matches Some(p) ==> p == phase + 1 && p <= 4,
        harness::step_after(0, title, frames) is Some <==> "Q_OK:"@.is_prefix_of(title) && frames
            > 0,
        harness::step_after(1, title, frames) is Some <==> title == "CLICK_OK"@,
        harness::step_after(2, title, frames) is Some <==> "WHEEL_OK:down"@.is_prefix_of(title),
        harness::step_after(3, title, frames) is Some <==> "KEY_OK:65"@.is_prefix_of(title) || title
            == "IME_OK:a"@,
        phase >= 4 ==> harness::step_after(phase, title, frames) is None,
{
}

/// A windowed run sends nothing. An offscreen one sends the next step as soon as the page is ready for
/// it, and sends the last one again where the page has stood still for more than seven tenths of a
/// second; it remembers what it sent and when, and nothing else changes.
pub proof fn law_input_is_sent_in_time(h: HarnessV, frames: u64, now: u64)
    ensures
        ({
            let step = harness::step_now(h, frames, now);
            let next = harness::step_after(h.phase, h.last_title, frames);
            let t = harness::stepped(h, frames, now);
            &&& !h.offscreen ==> step is None
            &&& h.offscreen && next is Some ==> step == next
            &&& h.offscreen && next is None ==> (step is Some <==> h.phase >= 1 && now
                - h.last_input > 700)
            &&& h.offscreen && next is None && step is Some ==> step == Some(h.phase)
            &&& step is None ==> t == h
            &&& step matches Some(p) ==> t == (HarnessV { phase: p, last_input: now, ..h })
        }),
{
}

/// A run is over when all is shown, when the page's question failed, or after more than twenty seconds;
/// never before. It passes exactly where all is shown.
pub proof fn law_runs_end(h: HarnessV, frames: u64, now: u64)
    ensures
        ({
            let shown = frames > 0 && (if h.offscreen {
                h.last_title == "IME_OK:a한글"@
            } else {
                "Q_OK:pong"@.is_prefix_of(h.last_title)
            });
            let v = harness::verdict(h, frames, now);
            &&& v is Some <==> shown || "Q_FAIL:"@.is_prefix_of(h.last_title) || now - h.started
                > 20_000
            &&& v == Some(true) <==> shown && h.created && h.query_seen
        }),
{
}

// ── starting ─────────────────────────────────────────────────────────────────────────────────

/// On macOS everything lies in two bundles: the library and the resources in the framework, the helper
/// in the main bundle. Elsewhere there are none, everything lies beside the module, and the texts
/// have a directory of their own.
pub proof fn law_parts_lie_together(platform: Platform)
    ensures
        ({
            let l = startup::layout_on(platform);
            if platform == Platform::MacOs {
                &&& l.framework_dir matches Some(dir) && dir.len() == 1 && (
                l.framework_bin matches Some(bin) && bin.len() == 2 && bin[0] == dir[0] && bin[0]
                    == bin[1] + ".framework"@) && l.resources.len() == 2 && l.resources[0] == dir[0]
                    && l.resources[1] == "Resources"@
                &&& l.main_bundle matches Some(main) && main.len() == 1 && l.helper.len() == 2
                    && l.helper[0] == main[0] && l.helper[0]
                    == "soksak-sidecar-browser-chromium Helper"@ + ".app"@ && l.helper[1]
                    == "Contents/MacOS/"@ + "soksak-sidecar-browser-chromium Helper"@
                &&& l.locales is None
            } else {
                &&& l.framework_dir is None && l.framework_bin is None && l.main_bundle is None
                &&& l.resources.len() == 0
                &&& l.locales matches Some(dir) && dir.len() == 1 && dir[0] == "locales"@
                &&& l.helper.len() == 1
                &&& platform == Platform::Linux ==> l.helper[0]
                    == "soksak-sidecar-browser-chromium-helper"@
                &&& platform == Platform::Windows ==> l.helper[0]
                    == "soksak-sidecar-browser-chromium-helper"@ + ".exe"@
            }
        }),
{
    let l = startup::layout_on(platform);
    reveal_strlit("Chromium Embedded Framework.framework");
    reveal_strlit("Chromium Embedded Framework");
    reveal_strlit(".framework");
    reveal_strlit("soksak-sidecar-browser-chromium Helper.app");
    reveal_strlit("soksak-sidecar-browser-chromium Helper");
    reveal_strlit(".app");
    reveal_strlit("Contents/MacOS/soksak-sidecar-browser-chromium Helper");
    reveal_strlit("Contents/MacOS/");
    reveal_strlit("soksak-sidecar-browser-chromium-helper");
    reveal_strlit("soksak-sidecar-browser-chromium-helper.exe");
    reveal_strlit(".exe");
    if platform == Platform::MacOs {
        assert("Chromium Embedded Framework.framework"@ =~= "Chromium Embedded Framework"@
            + ".framework"@);
        assert("soksak-sidecar-browser-chromium Helper.app"@
            =~= "soksak-sidecar-browser-chromium Helper"@ + ".app"@);
        assert("Contents/MacOS/soksak-sidecar-browser-chromium Helper"@ =~= "Contents/MacOS/"@
            + "soksak-sidecar-browser-chromium Helper"@);
    }
    if platform == Platform::Windows {
        assert("soksak-sidecar-browser-chromium-helper.exe"@
            =~= "soksak-sidecar-browser-chromium-helper"@ + ".exe"@);
    }
}

/// The debugging server trusts its own pages and no others: where it has a port, they are named by it;
/// where it has none, nobody is. The other switches are always there.
pub proof fn law_debugging_trusts_its_own_pages(port: u32)
    ensures
        ({
            let list = startup::switches_of(port);
            &&& list.len() == if port == 0 { 2nat } else { 3 }
            &&& list[0] == ("use-mock-keychain"@, None::<Seq<char>>)
            &&& list[1] == ("disable-popup-blocking"@, None::<Seq<char>>)
            &&& port != 0 ==> list[2].0 == "remote-allow-origins"@ && list[2].1 == Some(
                "http://127.0.0.1:"@ + text::decimal(port as nat),
            )
        }),
{
}

/// A profile is left over only where its name is the number of another process.
pub proof fn law_profiles_go_by_number(name: Seq<char>, own_pid: u32, pid: i32)
    requires
        startup::left_over(name, own_pid) == Some(pid),
    ensures
        writes(name, pid as int),
        own_pid <= i32::MAX ==> pid != own_pid,
{
    law_signed_numerals_are_read(name, pid as int);
}

// ── numerals ─────────────────────────────────────────────────────────────────────────────────

/// `s` is a run of decimal digits.
pub open spec fn digits(s: Seq<char>) -> bool {
    s.len() > 0 && forall|i: int| 0 <= i < s.len() ==> '0' <= #[trigger] s[i] && s[i] <= '9'
}

/// `s` writes the integer `n`: digits, after an optional sign.
pub open spec fn writes(s: Seq<char>, n: int) -> bool {
    ||| digits(s) && text::digits_value(s) == n
    ||| s.len() > 0 && s[0] == '+' && digits(s.skip(1)) && text::digits_value(s.skip(1)) == n
    ||| s.len() > 0 && s[0] == '-' && digits(s.skip(1)) && text::digits_value(s.skip(1)) == -n
}

/// The value of digits is decimal: one more digit makes ten times as much and itself.
pub proof fn law_digits_are_decimal(s: Seq<char>, c: char)
    requires
        '0' <= c <= '9',
    ensures
        text::digits_value(Seq::empty()) == 0,
        text::digits_value(s.push(c)) == 10 * text::digits_value(s) + (c as int - '0' as int),
{
    assert(s.push(c).drop_last() =~= s);
}

/// A signed numeral is read exactly where it is written out in full and fits.
pub proof fn law_signed_numerals_are_read(s: Seq<char>, n: int)
    ensures
        text::signed_named(s) matches Some(v) ==> writes(s, v as int),
        i32::MIN <= n <= i32::MAX && writes(s, n) ==> text::signed_named(s) == Some(n as i32),
{
    if s.len() > 0 {
        assert(s[0] == '+' || s[0] == '-' ==> !digits(s)) by {
            assert(!('0' <= '+' && '+' <= '9'));
            assert(!('0' <= '-' && '-' <= '9'));
        }
        if s[0] == '+' || s[0] == '-' {
            assert(s[0] == s[0int]);
        }
    }
    assert(text::all_digits(s) == digits(s)) by {
        if digits(s) {
            assert forall|i: int| 0 <= i < s.len() implies text::is_digit(#[trigger] s[i]) by {}
        }
        if text::all_digits(s) {
            assert forall|i: int| 0 <= i < s.len() implies '0' <= #[trigger] s[i] && s[i]
                <= '9' by {
                assert(text::is_digit(s[i]));
            }
        }
    }
    if s.len() > 0 {
        let rest = s.skip(1);
        assert(text::all_digits(rest) == digits(rest)) by {
            if digits(rest) {
                assert forall|i: int| 0 <= i < rest.len() implies text::is_digit(
                    #[trigger] rest[i],
                ) by {}
            }
            if text::all_digits(rest) {
                assert forall|i: int| 0 <= i < rest.len() implies '0' <= #[trigger] rest[i]
                    && rest[i] <= '9' by {
                    assert(text::is_digit(rest[i]));
                }
            }
        }
    }
}

/// A number is written in decimal: in digits, the last one its remainder by ten, and the others its
/// tenth.
pub proof fn law_numbers_are_written_in_decimal(n: nat)
    ensures
        digits(text::decimal(n)),
        text::digits_value(text::decimal(n)) == n,
        text::decimal(n).last() as int == '0' as int + n % 10,
        n < 10 ==> text::decimal(n).len() == 1,
        n >= 10 ==> text::decimal(n).drop_last() == text::decimal(n / 10),
{
    laws::lemma_decimal(n);
    let s = text::decimal(n);
    assert forall|i: int| 0 <= i < s.len() implies '0' <= #[trigger] s[i] && s[i] <= '9' by {
        assert(text::is_digit(s[i]));
    }
    if n >= 10 {
        assert(s.drop_last() =~= text::decimal(n / 10));
    }
}

/// Texts are measured in UTF-16 units: two units for a character beyond the first plane, one for any
/// other, and together what they are one by one.
pub proof fn law_texts_are_measured(a: Seq<char>, b: Seq<char>, c: char)
    ensures
        text::utf16_units(Seq::empty()) == 0,
        text::utf16_units(seq![c]) == if (c as u32) < 0x1_0000 { 1nat } else { 2 },
        text::utf16_units(a + b) == text::utf16_units(a) + text::utf16_units(b),
    decreases b.len(),
{
    assert(seq![c].drop_last() =~= Seq::empty());
    assert(text::utf16_units(seq![c].drop_last()) == 0);
    if b.len() == 0 {
        assert(a + b =~= a);
    } else {
        law_texts_are_measured(a, b.drop_last(), c);
        assert((a + b).drop_last() =~= a + b.drop_last());
        assert((a + b).last() == b.last());
    }
}

// ── documents ────────────────────────────────────────────────────────────────────────────────

/// A number keeps its value in the form that it is compared in.
pub proof fn law_numbers_keep_their_value(n: Num)
    ensures
        n matches Num::Pos(u) ==> json::canonical(n) == Num::Pos(u),
        n matches Num::Neg(i) ==> integer(JsonV::Num(json::canonical(n)), i as int),
        n matches Num::Real(x) ==> {
            &&& json::number_unsigned(x) matches Some(u) ==> json::canonical(n) == Num::Pos(u)
            &&& json::number_unsigned(x) is None ==> (json::number_signed(x) matches Some(i)
                ==> integer(JsonV::Num(json::canonical(n)), i as int))
            &&& json::number_unsigned(x) is None && json::number_signed(x) is None
                ==> json::canonical(n) == n
        },
        forall|i: i64| integer(JsonV::Num(#[trigger] json::signed_num(i)), i as int),
        forall|i: i64| (#[trigger] json::signed_num(i)) is Pos <==> i >= 0,
{
}

/// Bytes stand for the document that is read from them, and for none where none can be read: those of a
/// page's query, of an answer, and of an event alike.
pub proof fn law_bytes_stand_for_their_document(
    words: Seq<char>,
    bytes: Seq<u8>,
    t: JsonV,
    why: Seq<char>,
)
    ensures
        json::json_read(encode_utf8(words)) == Ok::<JsonV, Seq<char>>(t) ==> handlers::document_in(
            words,
        ) == Some(t),
        json::json_read(encode_utf8(words)) == Err::<JsonV, Seq<char>>(why)
            ==> handlers::document_in(words) is None,
        json::json_read(bytes) == Ok::<JsonV, Seq<char>>(t) ==> devtools::answer_in(Some(bytes))
            == Some(t),
        json::json_read(bytes) == Err::<JsonV, Seq<char>>(why) ==> devtools::answer_in(Some(bytes))
            is None,
        devtools::answer_in(None) is None,
        json::json_read(encode_utf8(text::lossy_text(bytes))) == Ok::<JsonV, Seq<char>>(t)
            ==> harness::event_in(bytes) == Some(t),
        json::json_read(encode_utf8(text::lossy_text(bytes))) == Err::<JsonV, Seq<char>>(why)
            ==> harness::event_in(bytes) is None,
{
}

/// In an object a member that comes later counts, and leaves the others as they are.
pub proof fn law_later_members_count(s: Seq<(String, Json)>, last: (String, Json), key: Seq<char>)
    ensures
        ({
            let before = json::members_tree(s);
            let after = json::members_tree(s.push(last));
            &&& after.contains_key(last.0@) && after[last.0@] == json::tree(last.1)
            &&& key != last.0@ ==> after.contains_key(key) == before.contains_key(key)
            &&& key != last.0@ && before.contains_key(key) ==> after[key] == before[key]
        }),
        json::members_tree(Seq::empty()) == Map::<Seq<char>, JsonV>::empty(),
{
    assert(s.push(last).drop_last() =~= s);
}

/// A list keeps its items and their order.
pub proof fn law_lists_keep_their_order(s: Seq<Json>, i: int)
    requires
        0 <= i < s.len(),
    ensures
        json::list_tree(s).len() == s.len(),
        json::list_tree(s)[i] == json::tree(s[i]),
    decreases s.len(),
{
    let front = s.drop_last();
    lemma_list_len(front);
    if i < front.len() {
        law_lists_keep_their_order(front, i);
    }
}

proof fn lemma_list_len(s: Seq<Json>)
    ensures
        json::list_tree(s).len() == s.len(),
    decreases s.len(),
{
    if s.len() > 0 {
        lemma_list_len(s.drop_last());
    }
}

}
