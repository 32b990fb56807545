//! Every browser has an id of its own, from the request for it to its end: while the request waits,
//! while it is carried out, while developer tools wait for their target, and while the browser lives.

use vstd::prelude::*;
use vstd::seq_lib::*;

use crate::apply;
use crate::apply::Probe;
use crate::command;
use crate::create;
use crate::devtools;
use crate::engine;
use crate::engine::{EngineV, Pump};
use crate::frame_stream;
use crate::handlers;
use crate::json::JsonV;
use crate::laws;
use crate::ops::{CreateReqV, DevtoolsWait, OpV};
use crate::presenter::{Platform, SurfacesV};
use crate::protocol;
use crate::work;

verus! {

/// The ids that the requests in `list` are for.
pub open spec fn request_ids(list: Seq<CreateReqV>) -> Seq<u32> {
    list.map_values(|r: CreateReqV| r.id)
}

/// The ids of the developer tools in `list`.
pub open spec fn wait_ids(list: Seq<DevtoolsWait>) -> Seq<u32> {
    list.map_values(|w: DevtoolsWait| w.engine_id)
}

/// All ids in use; `held` are the requests that were taken to be carried out and have not been yet.
pub open spec fn ids(s: EngineV, held: Seq<CreateReqV>) -> Seq<u32> {
    work::ids_in(s.browsers) + request_ids(s.pending) + request_ids(held) + wait_ids(
        s.devtools_wait,
    )
}

/// No id is in use twice, and none is yet to be handed out.
pub open spec fn ids_apart(s: EngineV, held: Seq<CreateReqV>) -> bool {
    &&& ids(s, held).no_duplicates()
    &&& forall|i: int| 0 <= i < ids(s, held).len() ==> (#[trigger] ids(s, held)[i]) < s.next_id
}

/// How often `id` is in use.
spec fn uses(s: EngineV, held: Seq<CreateReqV>, id: u32) -> nat {
    work::ids_in(s.browsers).to_multiset().count(id) + request_ids(s.pending).to_multiset().count(id)
        + request_ids(held).to_multiset().count(id) + wait_ids(s.devtools_wait).to_multiset().count(
        id,
    )
}

proof fn lemma_uses(s: EngineV, held: Seq<CreateReqV>)
    ensures
        ids_apart(s, held) <==> forall|id: u32|
            #![trigger uses(s, held, id)]
            uses(s, held, id) <= 1 && (uses(s, held, id) > 0 ==> id < s.next_id),
{
    broadcast use group_to_multiset_ensures;

    let a = work::ids_in(s.browsers);
    let b = request_ids(s.pending);
    let c = request_ids(held);
    let d = wait_ids(s.devtools_wait);
    let all = ids(s, held);
    lemma_multiset_commutative(a, b);
    lemma_multiset_commutative(a + b, c);
    lemma_multiset_commutative(a + b + c, d);
    assert forall|id: u32| all.to_multiset().count(id) == #[trigger] uses(s, held, id) by {}
    if ids_apart(s, held) {
        all.lemma_multiset_has_no_duplicates();
        assert forall|id: u32| #![trigger uses(s, held, id)]
            uses(s, held, id) <= 1 && (uses(s, held, id) > 0 ==> id < s.next_id) by {
            if uses(s, held, id) > 0 {
                assert(all.to_multiset().contains(id));
                assert(all.contains(id));
                let i = choose|i: int| 0 <= i < all.len() && all[i] == id;
                assert(all[i] < s.next_id);
            }
        }
    }
    if forall|id: u32|
        #![trigger uses(s, held, id)]
        uses(s, held, id) <= 1 && (uses(s, held, id) > 0 ==> id < s.next_id) {
        assert forall|id: u32| all.to_multiset().contains(id) implies all.to_multiset().count(id)
            == 1 by {
            assert(uses(s, held, id) <= 1);
        }
        all.lemma_multiset_has_no_duplicates_conv();
        assert forall|i: int| 0 <= i < all.len() implies (#[trigger] all[i]) < s.next_id by {
            assert(all.contains(all[i]));
            assert(uses(s, held, all[i]) > 0);
        }
    }
}

/// Where no id is used more often than before, and the counter has not moved, ids stay apart.
proof fn lemma_kept(s: EngineV, held: Seq<CreateReqV>, t: EngineV, rest: Seq<CreateReqV>)
    requires
        ids_apart(s, held),
        t.next_id == s.next_id,
        forall|id: u32| #[trigger] uses(t, rest, id) <= uses(s, held, id),
    ensures
        ids_apart(t, rest),
{
    lemma_uses(s, held);
    lemma_uses(t, rest);
    assert forall|id: u32| #![trigger uses(t, rest, id)]
        uses(t, rest, id) <= 1 && (uses(t, rest, id) > 0 ==> id < t.next_id) by {
        assert(uses(s, held, id) <= 1);
    }
}

/// A new engine uses no id.
pub proof fn law_new_engine_uses_no_id(platform: Platform, no_tick: bool)
    ensures
        ids_apart(engine::idle_engine(platform, no_tick), Seq::empty()),
{
}

/// A browser that is asked for gets an id that nothing uses, as long as there is one left.
pub proof fn law_requests_get_new_ids(
    s: EngineV,
    held: Seq<CreateReqV>,
    req: CreateReqV,
    owner: Seq<char>,
    now: u64,
)
    requires
        ids_apart(s, held),
        req.id == s.next_id,
        s.next_id < u32::MAX,
    ensures
        ids_apart(engine::create_asked(s, req, owner, now), held),
        !ids(s, held).contains(req.id),
{
    broadcast use group_to_multiset_ensures;

    let t = engine::create_asked(s, req, owner, now);
    lemma_uses(s, held);
    lemma_uses(t, held);
    assert(request_ids(t.pending) =~= request_ids(s.pending).push(req.id));
    assert forall|id: u32| #![trigger uses(t, held, id)]
        uses(t, held, id) <= 1 && (uses(t, held, id) > 0 ==> id < t.next_id) by {
        assert(uses(s, held, id) <= 1);
        if id == req.id {
            assert(uses(s, held, id) == 0);
        }
    }
}

/// Every request of the protocol keeps the ids apart, as long as there is one left.
pub proof fn law_commands_keep_ids_apart(
    s: EngineV,
    held: Seq<CreateReqV>,
    c: command::CommandV,
    now: u64,
)
    requires
        ids_apart(s, held),
        s.next_id < u32::MAX,
    ensures
        ids_apart(protocol::done(s, c, now), held),
{
    let t = protocol::done(s, c, now);
    if c is Create || c is DevtoolsOpen {
        let req = t.pending.last();
        let owner = match c {
            command::Command::Create { owner, .. } => owner,
            command::Command::DevtoolsOpen { owner, .. } => owner,
            _ => Seq::empty(),
        };
        assert(t == engine::create_asked(s, req, owner, now));
        law_requests_get_new_ids(s, held, req, owner, now);
    } else {
        assert(ids(t, held) == ids(s, held));
    }
}

/// Taking the requests that wait changes no id.
pub proof fn law_taking_requests_keeps_ids_apart(s: EngineV, held: Seq<CreateReqV>)
    requires
        ids_apart(s, held),
    ensures
        ids_apart((EngineV { pending: Seq::empty(), ..s }), held + s.pending),
{
    broadcast use group_to_multiset_ensures;

    let t = EngineV { pending: Seq::empty(), ..s };
    let rest = held + s.pending;
    assert(request_ids(rest) =~= request_ids(held) + request_ids(s.pending));
    lemma_multiset_commutative(request_ids(held), request_ids(s.pending));
    assert(request_ids(t.pending) =~= Seq::empty());
    lemma_kept(s, held, t, rest);
}

proof fn lemma_first(req: CreateReqV, rest: Seq<CreateReqV>, id: u32)
    ensures
        request_ids(seq![req] + rest).to_multiset().count(id) == request_ids(rest).to_multiset().count(
            id,
        ) + if id == req.id {
            1nat
        } else {
            0nat
        },
{
    broadcast use group_to_multiset_ensures;

    let one = Seq::<u32>::empty().push(req.id);
    assert(request_ids(seq![req] + rest) =~= one + request_ids(rest));
    lemma_multiset_commutative(one, request_ids(rest));
}

/// Planning keeps the ids apart: developer tools wait under the id that they were asked for with, or
/// give it up; every other request is still to be carried out.
pub proof fn law_planning_keeps_ids_apart(
    s: EngineV,
    req: CreateReqV,
    rest: Seq<CreateReqV>,
    host: bool,
)
    requires
        ids_apart(s, seq![req] + rest),
    ensures
        req.devtools_of is Some ==> ids_apart(create::create_planned(s, req, host), rest),
        req.devtools_of is None ==> ids_apart(
            create::create_planned(s, req, host),
            seq![req] + rest,
        ),
{
    broadcast use group_to_multiset_ensures;

    let t = create::create_planned(s, req, host);
    if req.devtools_of is Some {
        if create::inspected_cid(s, req, host) is Some {
            assert(wait_ids(t.devtools_wait) =~= wait_ids(s.devtools_wait).push(req.id));
        }
        assert forall|id: u32| #[trigger] uses(t, rest, id) <= uses(s, seq![req] + rest, id) by {
            lemma_first(req, rest, id);
        }
        lemma_kept(s, seq![req] + rest, t, rest);
    }
}

/// Carrying a request out keeps the ids apart: the browser lives under the id that it was asked for
/// with, or the id is given up. The records of browsers and parents stay in step.
pub proof fn law_making_keeps_ids_apart(
    s: EngineV,
    req: CreateReqV,
    rest: Seq<CreateReqV>,
    cid: Option<i32>,
    now: u64,
)
    requires
        ids_apart(s, seq![req] + rest),
    ensures
        ids_apart(create::windowed_made(s, req.id, req.nsview, cid, now), rest),
        ids_apart(create::offscreen_made(s, req.id, req.nsview, cid, now), rest),
        forall|w: i32, h: i32, scale: u32, view: usize, layer: usize|
            ids_apart(
                #[trigger] create::offscreen_begun(
                    s,
                    req.id,
                    req.nsview,
                    w,
                    h,
                    scale,
                    view,
                    layer,
                ),
                seq![req] + rest,
            ),
        laws::in_step(s) ==> laws::in_step(
            create::windowed_made(s, req.id, req.nsview, cid, now),
        ),
        laws::in_step(s) ==> laws::in_step(
            create::offscreen_made(s, req.id, req.nsview, cid, now),
        ),
{
    broadcast use group_to_multiset_ensures;

    let held = seq![req] + rest;
    let t = create::windowed_made(s, req.id, req.nsview, cid, now);
    let u = create::offscreen_made(s, req.id, req.nsview, cid, now);
    if cid is Some {
        assert(work::ids_in(t.browsers) =~= work::ids_in(s.browsers).push(req.id));
        assert(u.browsers == t.browsers);
    }
    assert forall|id: u32| #[trigger] uses(t, rest, id) <= uses(s, held, id) by {
        lemma_first(req, rest, id);
    }
    assert forall|id: u32| #[trigger] uses(u, rest, id) <= uses(s, held, id) by {
        lemma_first(req, rest, id);
    }
    lemma_kept(s, held, t, rest);
    lemma_kept(s, held, u, rest);
    assert forall|w: i32, h: i32, scale: u32, view: usize, layer: usize|
        ids_apart(
            #[trigger] create::offscreen_begun(s, req.id, req.nsview, w, h, scale, view, layer),
            held,
        ) by {
        assert(ids(
            create::offscreen_begun(s, req.id, req.nsview, w, h, scale, view, layer),
            held,
        ) == ids(s, held));
    }
    if laws::in_step(s) {
        assert forall|i: int| 0 <= i < s.browsers.len() implies (#[trigger] s.browsers[i]).0
            != req.id by {
            let all = work::ids_in(s.browsers);
            assert(all[i] == s.browsers[i].0);
            lemma_uses(s, held);
            lemma_first(req, rest, req.id);
            assert(uses(s, held, req.id) <= 1);
            if s.browsers[i].0 == req.id {
                assert(all.contains(req.id));
                assert(all.to_multiset().count(req.id) > 0);
            }
        }
        if let Some(c) = cid {
            laws::law_records_stay_in_step(s, req.id, req.nsview, c, now);
        }
    }
}

proof fn lemma_wait_index(waits: Seq<DevtoolsWait>, msg_id: i32)
    ensures
        devtools::wait_index(waits, msg_id) matches Some(i) ==> 0 <= i < waits.len(),
    decreases waits.len(),
{
    if waits.len() > 0 {
        lemma_wait_index(waits.skip(1), msg_id);
    }
}

/// An answer keeps the ids apart: developer tools wait to be made under the id that they waited with,
/// or give it up.
pub proof fn law_answers_keep_ids_apart(
    s: EngineV,
    held: Seq<CreateReqV>,
    msg_id: i32,
    success: i32,
    answer: Option<JsonV>,
    now: u64,
)
    requires
        ids_apart(s, held),
    ensures
        ids_apart(devtools::answered(s, msg_id, success, answer, now), held),
{
    broadcast use group_to_multiset_ensures;

    let t = devtools::answered(s, msg_id, success, answer, now);
    lemma_wait_index(s.devtools_wait, msg_id);
    if let Some(i) = devtools::wait_index(s.devtools_wait, msg_id) {
        let w = s.devtools_wait[i];
        let before = wait_ids(s.devtools_wait);
        assert(before[i] == w.engine_id);
        assert(before.contains(w.engine_id));
        assert(wait_ids(t.devtools_wait) =~= before.remove(i));
        if devtools::answered_url(s, msg_id, success, answer) is Some {
            assert(request_ids(t.pending) =~= request_ids(s.pending).push(w.engine_id));
        }
        assert forall|id: u32| #[trigger] uses(t, held, id) <= uses(s, held, id) by {
            assert(before.to_multiset().count(w.engine_id) > 0);
        }
        lemma_kept(s, held, t, held);
    }
}

proof fn lemma_filter_count<A>(list: Seq<A>, keep: spec_fn(A) -> bool, key: spec_fn(A) -> u32, id: u32)
    ensures
        list.filter(keep).map_values(key).to_multiset().count(id) <= list.map_values(
            key,
        ).to_multiset().count(id),
    decreases list.len(),
{
    broadcast use group_to_multiset_ensures;

    reveal(Seq::filter);
    if list.len() > 0 {
        let front = list.drop_last();
        lemma_filter_count(front, keep, key, id);
        assert(list.map_values(key) =~= front.map_values(key).push(key(list.last())));
        if keep(list.last()) {
            assert(list.filter(keep).map_values(key) =~= front.filter(keep).map_values(key).push(
                key(list.last()),
            ));
        }
    }
}

/// Dropping what could not be sent, and browsers that have closed, keeps the ids apart.
pub proof fn law_dropping_keeps_ids_apart(s: EngineV, held: Seq<CreateReqV>, msg_id: i32)
    requires
        ids_apart(s, held),
    ensures
        ids_apart(
            (EngineV { devtools_wait: create::waits_without(s.devtools_wait, msg_id), ..s }),
            held,
        ),
        ids_apart(work::reaped(s), held),
{
    let t = EngineV { devtools_wait: create::waits_without(s.devtools_wait, msg_id), ..s };
    assert forall|id: u32| #[trigger] uses(t, held, id) <= uses(s, held, id) by {
        lemma_filter_count(
            s.devtools_wait,
            |w: DevtoolsWait| w.msg_id != msg_id,
            |w: DevtoolsWait| w.engine_id,
            id,
        );
    }
    lemma_kept(s, held, t, held);
    let u = work::reaped(s);
    if s.closing.len() > 0 {
        assert forall|id: u32| #[trigger] uses(u, held, id) <= uses(s, held, id) by {
            lemma_filter_count(
                s.browsers,
                |b: (u32, i32)| !s.closing.contains(b.1),
                |b: (u32, i32)| b.0,
                id,
            );
        }
        lemma_kept(s, held, u, held);
    }
}

/// Whether `s` and `t` use the same ids for the same things.
pub open spec fn same_ids(s: EngineV, t: EngineV) -> bool {
    &&& t.browsers == s.browsers
    &&& t.pending == s.pending
    &&& t.devtools_wait == s.devtools_wait
    &&& t.next_id == s.next_id
}

/// Nothing else touches an id: neither operations and notices, nor what the native engine reports,
/// nor surfaces, page queries, the debugging port and the pump.
pub proof fn law_nothing_else_touches_ids(
    s: EngineV,
    op: OpV,
    probe: Probe,
    now: u64,
    surfaces: SurfacesV,
    queries: Set<i64>,
    devtools_port: u32,
    pump: Pump,
)
    ensures
        same_ids(s, apply::applied(s, op, probe, now)),
        same_ids(s, engine::asked(s, op, now)),
        same_ids(s, (EngineV { ops: Seq::empty(), ..s })),
        forall|n: protocol::Notice| same_ids(s, #[trigger] protocol::notified(s, n, now)),
        forall|q: i64, doc: Option<JsonV>| same_ids(s, #[trigger] handlers::query_asked(s, q, doc)),
        forall|cid: Option<i32>| same_ids(s, #[trigger] handlers::closed(s, cid, now)),
        forall|cid: Option<i32>, is_loading: i32|
            same_ids(s, #[trigger] handlers::loading_changed(s, cid, is_loading, now)),
        forall|id: u32| same_ids(s, #[trigger] frame_stream::kicked(s, id, now)),
        forall|delay_ms: i64| same_ids(s, #[trigger] engine::pump_asked(s, delay_ms, now)),
        same_ids(s, (EngineV { surfaces, queries, devtools_port, pump, ..s })),
        same_ids(s, engine::activity_checked(s, now)),
        same_ids(s, engine::tick_decided(s, now)),
        same_ids(s, engine::tick_rearmed(s, now)),
        same_ids(s, engine::work_begun(s)),
        same_ids(s, work::work_ended(s, now)),
        same_ids(s, engine::driven(s, now)),
        forall|t: EngineV, held: Seq<CreateReqV>|
            #![trigger same_ids(s, t), ids_apart(t, held)]
            same_ids(s, t) && ids_apart(s, held) ==> ids_apart(t, held),
{
    assert forall|t: EngineV, held: Seq<CreateReqV>|
        #![trigger same_ids(s, t), ids_apart(t, held)]
        same_ids(s, t) && ids_apart(s, held) implies ids_apart(t, held) by {
        assert(ids(t, held) == ids(s, held));
    }
}

}
