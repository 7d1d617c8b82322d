//! The window handler's decisions: how input events are answered, and the
//! steps that acquire an OpenGL context, load its functions and report the
//! driver. The host performs each step and hands back what came of it.

use vstd::prelude::*;

use crate::text::{hex_upper, push_hex_upper};

verus! {

/// The three categories of event the window host delivers.
#[derive(Clone, Copy, Debug, PartialEq, Eq, Structural)]
pub enum EventKind {
    Window,
    Mouse,
    Keyboard,
}

/// Whether the handler consumed an event or leaves it to the host.
#[derive(Clone, Copy, Debug, PartialEq, Eq, Structural)]
pub enum EventStatus {
    Captured,
    Ignored,
}

/// The answer to one event: its status and the one line that logs it.
#[derive(Debug)]
pub struct EventResponse {
    pub status: EventStatus,
    pub log: String,
}

/// A driver string that the setup queries.
#[derive(Clone, Copy, Debug, PartialEq, Eq, Structural)]
pub enum DriverString {
    Version,
    Renderer,
    Vendor,
}

/// How far the OpenGL setup has come.
#[derive(Clone, Copy, Debug, PartialEq, Eq, Structural)]
pub enum GlStage {
    /// Nothing attempted yet.
    Start,
    /// Waiting to learn whether the window has a context.
    Acquiring,
    /// Waiting for the context to be made current.
    MakingCurrent,
    /// Waiting for the function table to be loaded.
    Loading,
    /// Waiting for the error code read after loading.
    CheckingError,
    /// Waiting for a driver string.
    Querying(DriverString),
    /// Setup finished with a usable context.
    Ready,
    /// Setup gave up; no OpenGL call is made from here on.
    Degraded,
}

/// What the host is asked to do next.
#[derive(Clone, Copy, Debug, PartialEq, Eq, Structural)]
pub enum GlAction {
    /// Ask the window for its OpenGL context.
    GetContext,
    /// Make the context current on this thread.
    MakeCurrent,
    /// Resolve the OpenGL function table through the context.
    LoadFunctions,
    /// Read the OpenGL error code.
    CheckError,
    /// Read one driver string.
    QueryString(DriverString),
    /// Nothing more.
    Done,
}

/// What came of the host's last action.
#[derive(Debug)]
pub enum GlEvent {
    /// The setup begins.
    Begin,
    /// Whether the window has an OpenGL context.
    Context(bool),
    /// Whether the context was made current.
    MadeCurrent(bool),
    /// The function table is loaded.
    Loaded,
    /// The OpenGL error code read after loading.
    ErrorCode(u32),
    /// A driver string as it is to be shown, or `None` where the driver gave none.
    Text(Option<String>),
}

/// One step of the setup: the line to log, if any, and the next action.
#[derive(Debug)]
pub struct GlStep {
    pub log: Option<String>,
    pub action: GlAction,
}

/// The value of `GL_NO_ERROR`.
pub const GL_NO_ERROR: u32 = 0;

/// The line that logs an event of `kind` described by `detail`.
pub open spec fn event_line(kind: EventKind, detail: Seq<char>) -> Seq<char> {
    match kind {
        EventKind::Window => "[baseview-wine-test] Window event: "@ + detail,
        EventKind::Mouse => "[baseview-wine-test] Mouse event: "@ + detail,
        EventKind::Keyboard => "[baseview-wine-test] Keyboard event: "@ + detail,
    }
}

/// `s` holds no line break.
pub open spec fn no_line_break(s: Seq<char>) -> bool {
    forall|i: int| 0 <= i < s.len() ==> s[i] != '\n'
}

/// The driver string queried after `d`, if any.
pub open spec fn string_after(d: DriverString) -> Option<DriverString> {
    match d {
        DriverString::Version => Some(DriverString::Renderer),
        DriverString::Renderer => Some(DriverString::Vendor),
        DriverString::Vendor => None,
    }
}

/// The stage that `e` leads to from `s`; an event that `s` does not wait for
/// changes nothing.
pub open spec fn next_stage(s: GlStage, e: GlEvent) -> GlStage {
    match (s, e) {
        (GlStage::Start, GlEvent::Begin) => GlStage::Acquiring,
        (GlStage::Acquiring, GlEvent::Context(found)) => if found {
            GlStage::MakingCurrent
        } else {
            GlStage::Degraded
        },
        (GlStage::MakingCurrent, GlEvent::MadeCurrent(ok)) => if ok {
            GlStage::Loading
        } else {
            GlStage::Degraded
        },
        (GlStage::Loading, GlEvent::Loaded) => GlStage::CheckingError,
        (GlStage::CheckingError, GlEvent::ErrorCode(_)) => GlStage::Querying(DriverString::Version),
        (GlStage::Querying(d), GlEvent::Text(_)) => match string_after(d) {
            Some(n) => GlStage::Querying(n),
            None => GlStage::Ready,
        },
        _ => s,
    }
}

/// What the host is asked to do in stage `s`.
pub open spec fn stage_action(s: GlStage) -> GlAction {
    match s {
        GlStage::Acquiring => GlAction::GetContext,
        GlStage::MakingCurrent => GlAction::MakeCurrent,
        GlStage::Loading => GlAction::LoadFunctions,
        GlStage::CheckingError => GlAction::CheckError,
        GlStage::Querying(d) => GlAction::QueryString(d),
        _ => GlAction::Done,
    }
}

/// The line logged when `e` arrives in stage `s`, if any.
pub open spec fn step_log(s: GlStage, e: GlEvent) -> Option<Seq<char>> {
    match (s, e) {
        (GlStage::Start, GlEvent::Begin) => Some("[baseview-wine-test] Attempting to get GL context..."@),
        (GlStage::Acquiring, GlEvent::Context(found)) => if found {
            Some("[baseview-wine-test] GL context obtained, making it current..."@)
        } else {
            Some("[baseview-wine-test] ERROR: Failed to get GL context!"@)
        },
        (GlStage::MakingCurrent, GlEvent::MadeCurrent(ok)) => if ok {
            Some("[baseview-wine-test] Context made current, loading GL functions..."@)
        } else {
            Some("[baseview-wine-test] ERROR: Failed to make GL context current!"@)
        },
        (GlStage::CheckingError, GlEvent::ErrorCode(code)) => if code == GL_NO_ERROR {
            None
        } else {
            Some("[baseview-wine-test] WARNING: GL error after loading: 0x"@ + hex_upper(code as nat))
        },
        (GlStage::Querying(d), GlEvent::Text(t)) => driver_line(d, t),
        _ => None,
    }
}

/// The line that reports driver string `d`, given as `t`.
pub open spec fn driver_line(d: DriverString, t: Option<String>) -> Option<Seq<char>> {
    match (d, t) {
        (DriverString::Version, Some(v)) => Some("[baseview-wine-test] OpenGL Version: "@ + v@),
        (DriverString::Version, None) => Some("[baseview-wine-test] WARNING: OpenGL VERSION string is null"@),
        (DriverString::Renderer, Some(v)) => Some("[baseview-wine-test] OpenGL Renderer: "@ + v@),
        (DriverString::Renderer, None) => Some("[baseview-wine-test] WARNING: OpenGL RENDERER string is null"@),
        (DriverString::Vendor, Some(v)) => Some("[baseview-wine-test] OpenGL Vendor: "@ + v@),
        (DriverString::Vendor, None) => Some("[baseview-wine-test] WARNING: OpenGL VENDOR string is null"@),
    }
}

/// The view of an optional line.
pub open spec fn line_of(l: Option<String>) -> Option<Seq<char>> {
    match l {
        Some(s) => Some(s@),
        None => None,
    }
}

/// The handler registered with the window host. It holds how far the OpenGL
/// setup has come.
#[derive(Debug)]
pub struct MyWindowHandler {
    pub stage: GlStage,
}

fn prefixed(prefix: &str, rest: &str) -> (r: String)
    ensures
        r@ == prefix@ + rest@,
{
    let mut r = String::from_str(prefix);
    r.append(rest);
    r
}

impl MyWindowHandler {
    /// A handler whose OpenGL setup has not begun.
    pub fn new() -> (h: MyWindowHandler)
        ensures
            h.stage == GlStage::Start,
    {
        MyWindowHandler { stage: GlStage::Start }
    }

    /// Takes what came of the host's last action, moves the setup on, and
    /// says what to log and what the host does next.
    pub fn advance(&mut self, e: GlEvent) -> (r: GlStep)
        ensures
            final(self).stage == next_stage(old(self).stage, e),
            line_of(r.log) == step_log(old(self).stage, e),
            r.action == stage_action(final(self).stage),
    {
        let s = self.stage;
        let (next, log): (GlStage, Option<String>) = match (s, e) {
            (GlStage::Start, GlEvent::Begin) => (
                GlStage::Acquiring,
                Some(String::from_str("[baseview-wine-test] Attempting to get GL context...")),
            ),
            (GlStage::Acquiring, GlEvent::Context(found)) => if found {
                (
                    GlStage::MakingCurrent,
                    Some(String::from_str("[baseview-wine-test] GL context obtained, making it current...")),
                )
            } else {
                (
                    GlStage::Degraded,
                    Some(String::from_str("[baseview-wine-test] ERROR: Failed to get GL context!")),
                )
            },
            (GlStage::MakingCurrent, GlEvent::MadeCurrent(ok)) => if ok {
                (
                    GlStage::Loading,
                    Some(String::from_str("[baseview-wine-test] Context made current, loading GL functions...")),
                )
            } else {
                (
                    GlStage::Degraded,
                    Some(String::from_str("[baseview-wine-test] ERROR: Failed to make GL context current!")),
                )
            },
            (GlStage::Loading, GlEvent::Loaded) => (GlStage::CheckingError, None),
            (GlStage::CheckingError, GlEvent::ErrorCode(code)) => {
                let log = if code == GL_NO_ERROR {
                    None
                } else {
                    let mut l = String::from_str("[baseview-wine-test] WARNING: GL error after loading: 0x");
                    push_hex_upper(&mut l, code as u64);
                    Some(l)
                };
                (GlStage::Querying(DriverString::Version), log)
            },
            (GlStage::Querying(d), GlEvent::Text(text)) => {
                let next = match d {
                    DriverString::Version => GlStage::Querying(DriverString::Renderer),
                    DriverString::Renderer => GlStage::Querying(DriverString::Vendor),
                    DriverString::Vendor => GlStage::Ready,
                };
                let log = match (d, text) {
                    (DriverString::Version, Some(v)) => Some(prefixed("[baseview-wine-test] OpenGL Version: ", v.as_str())),
                    (DriverString::Version, None) => Some(
                        String::from_str("[baseview-wine-test] WARNING: OpenGL VERSION string is null"),
                    ),
                    (DriverString::Renderer, Some(v)) => Some(prefixed("[baseview-wine-test] OpenGL Renderer: ", v.as_str())),
                    (DriverString::Renderer, None) => Some(
                        String::from_str("[baseview-wine-test] WARNING: OpenGL RENDERER string is null"),
                    ),
                    (DriverString::Vendor, Some(v)) => Some(prefixed("[baseview-wine-test] OpenGL Vendor: ", v.as_str())),
                    (DriverString::Vendor, None) => Some(
                        String::from_str("[baseview-wine-test] WARNING: OpenGL VENDOR string is null"),
                    ),
                };
                (next, log)
            },
            _ => (s, None),
        };
        self.stage = next;
        let action = match next {
            GlStage::Acquiring => GlAction::GetContext,
            GlStage::MakingCurrent => GlAction::MakeCurrent,
            GlStage::Loading => GlAction::LoadFunctions,
            GlStage::CheckingError => GlAction::CheckError,
            GlStage::Querying(d) => GlAction::QueryString(d),
            _ => GlAction::Done,
        };
        GlStep { log, action }
    }

    /// Whether the setup finished with a usable context.
    pub fn gl_ready(&self) -> (r: bool)
        ensures
            r == (self.stage == GlStage::Ready),
    {
        self.stage == GlStage::Ready
    }

    /// The per-frame tick: nothing is drawn, the window is only kept open.
    pub fn on_frame(&mut self)
        ensures
            final(self).stage == old(self).stage,
    {
    }

    /// Answers an event of `kind`, described by `detail`: it is logged on
    /// one line and left to the host.
    pub fn on_event(&self, kind: EventKind, detail: &str) -> (r: EventResponse)
        ensures
            r.status == EventStatus::Ignored,
            r.log@ == event_line(kind, detail@),
            no_line_break(detail@) ==> no_line_break(r.log@),
    {
        proof {
            reveal_strlit("[baseview-wine-test] Window event: ");
            reveal_strlit("[baseview-wine-test] Mouse event: ");
            reveal_strlit("[baseview-wine-test] Keyboard event: ");
        }
        let log = match kind {
            EventKind::Window => prefixed("[baseview-wine-test] Window event: ", detail),
            EventKind::Mouse => prefixed("[baseview-wine-test] Mouse event: ", detail),
            EventKind::Keyboard => prefixed("[baseview-wine-test] Keyboard event: ", detail),
        };
        EventResponse { status: EventStatus::Ignored, log }
    }
}

/// Once the setup has given up it stays so: every event leaves it degraded,
/// logs nothing and asks the host for no further OpenGL work.
pub proof fn lemma_degraded_is_final(e: GlEvent)
    ensures
        next_stage(GlStage::Degraded, e) == GlStage::Degraded,
        step_log(GlStage::Degraded, e) is None,
        stage_action(next_stage(GlStage::Degraded, e)) == GlAction::Done,
{
}

} // verus!
