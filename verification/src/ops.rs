//! What is asked of the engine, and what the engine has its caller do.
//!
//! The types are generic in their text: `String` in the program, `Seq<char>` in its model.

use vstd::prelude::*;

use crate::json::{Json, JsonV, Num};
use crate::presenter::Surf;

verus! {

/// A browser waiting to be made, under the parent handle `nsview` at a rectangle counted from its
/// top left corner.
#[derive(Debug)]
pub struct CreateReq<S> {
    pub id: u32,
    pub nsview: usize,
    pub x: i32,
    pub y: i32,
    pub w: i32,
    pub h: i32,
    pub url: S,
    /// The browser to inspect: this request opens developer tools for it (and has no address yet).
    pub devtools_of: Option<u32>,
    /// Whether the developer tools show the page preview panel.
    pub screencast: bool,
    /// Offscreen mode, with the scale as it was asked for; windowed mode without.
    pub offscreen_scale: Option<Num>,
}

/// A control operation on a browser, waiting to be applied on the main thread.
#[derive(Debug)]
pub enum Op<S> {
    Load { id: u32, url: S },
    Reload { id: u32, ignore_cache: bool },
    Stop { id: u32 },
    Back { id: u32 },
    Forward { id: u32 },
    Bounds { id: u32, x: i32, y: i32, w: i32, h: i32 },
    Hidden { id: u32, hidden: bool },
    Focus { id: u32 },
    Close { id: u32 },
    Overlay { active: bool },
    /// `kind` 0 moves, 1 presses, 2 releases.
    Mouse { id: u32, kind: u8, x: i32, y: i32, button: u8, clicks: i32, mods: u32 },
    Wheel { id: u32, x: i32, y: i32, dx: i32, dy: i32 },
    /// `kind` 0 is down, 1 up, 2 a character.
    Key { id: u32, kind: u8, code: i32, ch: u16, mods: u32 },
    /// `kind` 0 sets the composition, 1 commits, 2 finishes, 3 cancels.
    Ime { id: u32, kind: u8, text: S, caret: u32 },
    Eval { id: u32, eval_id: u64, js: S },
}

/// Developer tools on their way: the request waits for the inspected page's target.
#[derive(Clone, Copy, Debug)]
pub struct DevtoolsWait {
    pub msg_id: i32,
    pub engine_id: u32,
    pub nsview: usize,
    pub x: i32,
    pub y: i32,
    pub w: i32,
    pub h: i32,
    pub screencast: bool,
}

#[derive(Clone, Copy, Debug, PartialEq, Eq, Structural)]
pub enum MouseButton {
    Left,
    Middle,
    Right,
}

#[derive(Clone, Copy, Debug, PartialEq, Eq, Structural)]
pub enum KeyKind {
    RawDown,
    Up,
    Char,
}

/// Something for the caller to do, in the order given. A browser is named by its native
/// identifier `cid`; where it is gone, or has no host or main frame any more, nothing is done.
#[derive(Debug)]
pub enum Action<S, J> {
    /// Run the pump on the main queue, after a delay.
    DispatchPump { delay_ms: i64 },
    /// Run the render tick on the main queue, after a delay.
    DispatchTick { delay_ms: i64 },
    /// Deliver an event to the host.
    Emit { event: J },
    LoadUrl { cid: i32, url: S },
    Reload { cid: i32, ignore_cache: bool },
    StopLoad { cid: i32 },
    GoBack { cid: i32 },
    GoForward { cid: i32 },
    ExecuteJs { cid: i32, script: S },
    WasResized { cid: i32 },
    WasHidden { cid: i32, hidden: bool },
    Invalidate { cid: i32 },
    SetFocus { cid: i32 },
    CloseBrowser { cid: i32 },
    MouseMove { cid: i32, x: i32, y: i32, modifiers: u32 },
    MouseClick {
        cid: i32,
        x: i32,
        y: i32,
        modifiers: u32,
        button: MouseButton,
        up: bool,
        clicks: i32,
    },
    MouseWheel { cid: i32, x: i32, y: i32, modifiers: u32, dx: i32, dy: i32 },
    Key { cid: i32, kind: KeyKind, modifiers: u32, code: i32, ch: u16 },
    /// Compose `text`, underlined over `len` UTF-16 units, with the caret at `caret`.
    ImeSet { cid: i32, text: S, len: u32, caret: u32 },
    ImeCommit { cid: i32, text: S },
    ImeFinish { cid: i32 },
    ImeCancel { cid: i32 },
    /// Give the browser's native child view a frame, counted from the parent's top left corner.
    PlaceChild { cid: i32, x: i32, y: i32, w: i32, h: i32 },
    /// Hide or show the browser's native child view.
    HideChild { cid: i32, hidden: bool },
    /// Move the browser's native child view below its siblings.
    LowerChild { cid: i32 },
    /// Take the browser's native child view out of its parent.
    RemoveChild { cid: i32 },
    /// Give an offscreen surface's view a frame, counted from the parent's top left corner.
    PlaceSurface { view: usize, x: i32, y: i32, w: i32, h: i32 },
    /// Hide or show an offscreen surface's view.
    HideSurface { view: usize, hidden: bool },
    /// Release the native objects of a surface.
    ReleaseSurface { surf: Surf },
    /// Drop a browser that has closed.
    DropBrowser { cid: i32 },
    /// Complete a page query; `release` drops its callback.
    AnswerQuery { query_id: i64, response: S, release: bool },
    FailQuery { query_id: i64, error_code: i32, response: S, release: bool },
    /// Drop the callback of a page query.
    ForgetQuery { query_id: i64 },
}

pub type CreateReqV = CreateReq<Seq<char>>;

pub type OpV = Op<Seq<char>>;

pub type Act = Action<String, Json>;

pub type ActionV = Action<Seq<char>, JsonV>;

impl View for CreateReq<String> {
    type V = CreateReqV;

    open spec fn view(&self) -> CreateReqV {
        CreateReq {
            id: self.id,
            nsview: self.nsview,
            x: self.x,
            y: self.y,
            w: self.w,
            h: self.h,
            url: self.url@,
            devtools_of: self.devtools_of,
            screencast: self.screencast,
            offscreen_scale: self.offscreen_scale,
        }
    }
}

impl View for Op<String> {
    type V = OpV;

    open spec fn view(&self) -> OpV {
        match *self {
            Op::Load { id, url } => Op::Load { id, url: url@ },
            Op::Reload { id, ignore_cache } => Op::Reload { id, ignore_cache },
            Op::Stop { id } => Op::Stop { id },
            Op::Back { id } => Op::Back { id },
            Op::Forward { id } => Op::Forward { id },
            Op::Bounds { id, x, y, w, h } => Op::Bounds { id, x, y, w, h },
            Op::Hidden { id, hidden } => Op::Hidden { id, hidden },
            Op::Focus { id } => Op::Focus { id },
            Op::Close { id } => Op::Close { id },
            Op::Overlay { active } => Op::Overlay { active },
            Op::Mouse { id, kind, x, y, button, clicks, mods } => Op::Mouse {
                id,
                kind,
                x,
                y,
                button,
                clicks,
                mods,
            },
            Op::Wheel { id, x, y, dx, dy } => Op::Wheel { id, x, y, dx, dy },
            Op::Key { id, kind, code, ch, mods } => Op::Key { id, kind, code, ch, mods },
            Op::Ime { id, kind, text, caret } => Op::Ime { id, kind, text: text@, caret },
            Op::Eval { id, eval_id, js } => Op::Eval { id, eval_id, js: js@ },
        }
    }
}

impl<S> Op<S> {
    /// The browser that the operation is for, if it is for one.
    pub open spec fn target(self) -> Option<u32> {
        match self {
            Op::Load { id, .. } => Some(id),
            Op::Reload { id, .. } => Some(id),
            Op::Stop { id } => Some(id),
            Op::Back { id } => Some(id),
            Op::Forward { id } => Some(id),
            Op::Bounds { id, .. } => Some(id),
            Op::Hidden { id, .. } => Some(id),
            Op::Focus { id } => Some(id),
            Op::Close { id } => Some(id),
            Op::Overlay { .. } => None,
            Op::Mouse { id, .. } => Some(id),
            Op::Wheel { id, .. } => Some(id),
            Op::Key { id, .. } => Some(id),
            Op::Ime { id, .. } => Some(id),
            Op::Eval { id, .. } => Some(id),
        }
    }
}

/// The browser that `op` is for, if it is for one: its state decides how the operation applies.
pub fn target_of(op: &Op<String>) -> (r: Option<u32>)
    ensures
        r == op@.target(),
{
    match op {
        Op::Load { id, .. } => Some(*id),
        Op::Reload { id, .. } => Some(*id),
        Op::Stop { id } => Some(*id),
        Op::Back { id } => Some(*id),
        Op::Forward { id } => Some(*id),
        Op::Bounds { id, .. } => Some(*id),
        Op::Hidden { id, .. } => Some(*id),
        Op::Focus { id } => Some(*id),
        Op::Close { id } => Some(*id),
        Op::Overlay { .. } => None,
        Op::Mouse { id, .. } => Some(*id),
        Op::Wheel { id, .. } => Some(*id),
        Op::Key { id, .. } => Some(*id),
        Op::Ime { id, .. } => Some(*id),
        Op::Eval { id, .. } => Some(*id),
    }
}

impl View for Action<String, Json> {
    type V = ActionV;

    open spec fn view(&self) -> ActionV {
        match *self {
            Action::DispatchPump { delay_ms } => Action::DispatchPump { delay_ms },
            Action::DispatchTick { delay_ms } => Action::DispatchTick { delay_ms },
            Action::Emit { event } => Action::Emit { event: event@ },
            Action::LoadUrl { cid, url } => Action::LoadUrl { cid, url: url@ },
            Action::Reload { cid, ignore_cache } => Action::Reload { cid, ignore_cache },
            Action::StopLoad { cid } => Action::StopLoad { cid },
            Action::GoBack { cid } => Action::GoBack { cid },
            Action::GoForward { cid } => Action::GoForward { cid },
            Action::ExecuteJs { cid, script } => Action::ExecuteJs { cid, script: script@ },
            Action::WasResized { cid } => Action::WasResized { cid },
            Action::WasHidden { cid, hidden } => Action::WasHidden { cid, hidden },
            Action::Invalidate { cid } => Action::Invalidate { cid },
            Action::SetFocus { cid } => Action::SetFocus { cid },
            Action::CloseBrowser { cid } => Action::CloseBrowser { cid },
            Action::MouseMove { cid, x, y, modifiers } => Action::MouseMove {
                cid,
                x,
                y,
                modifiers,
            },
            Action::MouseClick { cid, x, y, modifiers, button, up, clicks } => Action::MouseClick {
                cid,
                x,
                y,
                modifiers,
                button,
                up,
                clicks,
            },
            Action::MouseWheel { cid, x, y, modifiers, dx, dy } => Action::MouseWheel {
                cid,
                x,
                y,
                modifiers,
                dx,
                dy,
            },
            Action::Key { cid, kind, modifiers, code, ch } => Action::Key {
                cid,
                kind,
                modifiers,
                code,
                ch,
            },
            Action::ImeSet { cid, text, len, caret } => Action::ImeSet {
                cid,
                text: text@,
                len,
                caret,
            },
            Action::ImeCommit { cid, text } => Action::ImeCommit { cid, text: text@ },
            Action::ImeFinish { cid } => Action::ImeFinish { cid },
            Action::ImeCancel { cid } => Action::ImeCancel { cid },
            Action::PlaceChild { cid, x, y, w, h } => Action::PlaceChild { cid, x, y, w, h },
            Action::HideChild { cid, hidden } => Action::HideChild { cid, hidden },
            Action::LowerChild { cid } => Action::LowerChild { cid },
            Action::RemoveChild { cid } => Action::RemoveChild { cid },
            Action::PlaceSurface { view, x, y, w, h } => Action::PlaceSurface { view, x, y, w, h },
            Action::HideSurface { view, hidden } => Action::HideSurface { view, hidden },
            Action::ReleaseSurface { surf } => Action::ReleaseSurface { surf },
            Action::DropBrowser { cid } => Action::DropBrowser { cid },
            Action::AnswerQuery { query_id, response, release } => Action::AnswerQuery {
                query_id,
                response: response@,
                release,
            },
            Action::FailQuery { query_id, error_code, response, release } => Action::FailQuery {
                query_id,
                error_code,
                response: response@,
                release,
            },
            Action::ForgetQuery { query_id } => Action::ForgetQuery { query_id },
        }
    }
}

/// Actions, in the order in which they are to be done.
#[derive(Debug)]
pub struct Actions {
    pub list: Vec<Act>,
}

/// The models of the actions `s`.
pub open spec fn actions_model(s: Seq<Act>) -> Seq<ActionV> {
    s.map_values(|a: Act| a@)
}

impl View for Actions {
    type V = Seq<ActionV>;

    open spec fn view(&self) -> Seq<ActionV> {
        actions_model(self.list@)
    }
}

impl Actions {
    /// Nothing to do.
    pub fn new() -> (r: Actions)
        ensures
            r@ == Seq::<ActionV>::empty(),
    {
        let r = Actions { list: Vec::new() };
        assert(r@ =~= Seq::<ActionV>::empty());
        r
    }

    /// One thing to do.
    pub fn one(a: Act) -> (r: Actions)
        ensures
            r@ == seq![a@],
    {
        let mut r = Actions::new();
        r.add(a);
        assert(r@ =~= seq![a@]);
        r
    }

    /// Adds `a` at the end.
    pub fn add(&mut self, a: Act)
        ensures
            final(self)@ == old(self)@.push(a@),
    {
        let ghost before = self.list@;
        self.list.push(a);
        assert(self@ =~= actions_model(before).push(a@));
    }

    /// Adds the actions `more` at the end.
    pub fn extend(&mut self, more: Actions)
        ensures
            final(self)@ == old(self)@ + more@,
    {
        let ghost before = self.list@;
        let mut tail = more;
        self.list.append(&mut tail.list);
        assert(self@ =~= actions_model(before) + more@);
    }
}

/// The host is told `event`.
pub open spec fn told(event: JsonV) -> Seq<ActionV> {
    seq![Action::Emit { event }]
}

/// The models of the waiting operations `s`.
pub open spec fn ops_model(s: Seq<Op<String>>) -> Seq<OpV> {
    s.map_values(|o: Op<String>| o@)
}

/// The models of the waiting requests `s`.
pub open spec fn reqs_model(s: Seq<CreateReq<String>>) -> Seq<CreateReqV> {
    s.map_values(|r: CreateReq<String>| r@)
}

}
