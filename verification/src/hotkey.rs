//! When a press of the global hotkey starts a query of the focused window:
//! only a press of the helper's own hotkey, and never while a query runs.
//! The caller runs the query on its own thread and reports its end here.
use vstd::prelude::*;
use vstd::string::StringExecFns;

use crate::app_state::{AppEvent, AppEventView, HOTKEY_LABEL};
use crate::query::{outcome_view, WindowInfo};

verus! {

/// Whether a query started by the hotkey is still running.
pub struct CaptureGate {
    pub in_progress: bool,
}

/// A hotkey event: the id of the hotkey and whether it was pressed (rather
/// than released).
pub struct HotkeyPress {
    pub id: u32,
    pub pressed: bool,
}

/// What the capture latch hears of: a hotkey event, or the end of the running query.
pub enum GateEvent {
    Hotkey(HotkeyPress),
    QueryFinished,
}

/// Whether an event starts a query, given whether one is running: it must be
/// a press of the helper's hotkey while no query runs.
pub open spec fn starts_capture(in_progress: bool, hotkey_id: u32, id: u32, pressed: bool) -> bool {
    id == hotkey_id && pressed && !in_progress
}

/// Whether a query runs after the event: a press of the helper's hotkey
/// marks one as running, whether it starts it or one already ran.
pub open spec fn in_progress_after(in_progress: bool, hotkey_id: u32, id: u32, pressed: bool) -> bool {
    in_progress || (id == hotkey_id && pressed)
}

/// How many queries a run of hotkey events starts, none of them finishing.
pub open spec fn captures_started(in_progress: bool, hotkey_id: u32, events: Seq<HotkeyPress>) -> nat
    decreases events.len(),
{
    if events.len() == 0 {
        0
    } else {
        let e = events[0];
        (if starts_capture(in_progress, hotkey_id, e.id, e.pressed) {
            1nat
        } else {
            0nat
        }) + captures_started(
            in_progress_after(in_progress, hotkey_id, e.id, e.pressed),
            hotkey_id,
            events.drop_first(),
        )
    }
}

/// The latch's flag and the number of queries running after one event: a
/// start adds a query, an end removes one and clears the flag.
pub open spec fn gate_step(in_progress: bool, running: nat, hotkey_id: u32, event: GateEvent) -> (
    bool,
    nat,
) {
    match event {
        GateEvent::Hotkey(e) => (
            in_progress_after(in_progress, hotkey_id, e.id, e.pressed),
            if starts_capture(in_progress, hotkey_id, e.id, e.pressed) {
                running + 1
            } else {
                running
            },
        ),
        GateEvent::QueryFinished => (false, (if running > 0 {
            running - 1
        } else {
            0
        }) as nat),
    }
}

/// The latch's flag and the number of queries running after a run of events.
pub open spec fn run_gate(
    in_progress: bool,
    running: nat,
    hotkey_id: u32,
    events: Seq<GateEvent>,
) -> (bool, nat)
    decreases events.len(),
{
    if events.len() == 0 {
        (in_progress, running)
    } else {
        let next = gate_step(in_progress, running, hotkey_id, events[0]);
        run_gate(next.0, next.1, hotkey_id, events.drop_first())
    }
}

/// Whether every end in a run of events is that of a running query.
pub open spec fn ends_follow_starts(
    in_progress: bool,
    running: nat,
    hotkey_id: u32,
    events: Seq<GateEvent>,
) -> bool
    decreases events.len(),
{
    if events.len() == 0 {
        true
    } else {
        let next = gate_step(in_progress, running, hotkey_id, events[0]);
        &&& (events[0] matches GateEvent::QueryFinished ==> running > 0)
        &&& ends_follow_starts(next.0, next.1, hotkey_id, events.drop_first())
    }
}

impl CaptureGate {
    /// No query runs.
    pub fn new() -> (g: CaptureGate)
        ensures
            !g.in_progress,
    {
        CaptureGate { in_progress: false }
    }

    /// A hotkey event with the given id arrived; when it starts a query, gives
    /// the event that says so.
    pub fn on_hotkey(&mut self, hotkey_id: u32, id: u32, pressed: bool) -> (start: Option<AppEvent>)
        ensures
            start is Some <==> starts_capture(old(self).in_progress, hotkey_id, id, pressed),
            start matches Some(e) ==> e@ == AppEventView::CaptureStarted,
            final(self).in_progress == in_progress_after(old(self).in_progress, hotkey_id, id, pressed),
    {
        if id != hotkey_id || !pressed {
            return None;
        }
        let was_running = self.in_progress;
        self.in_progress = true;
        if was_running {
            None
        } else {
            Some(AppEvent::CaptureStarted)
        }
    }

    /// The running query finished with `result`: the latch opens again, and
    /// gives the event that carries the result.
    pub fn finish(&mut self, result: Result<WindowInfo, String>) -> (e: AppEvent)
        ensures
            !final(self).in_progress,
            e@ == AppEventView::CaptureFinished(outcome_view(result)),
    {
        self.in_progress = false;
        AppEvent::CaptureFinished(result)
    }
}

/// Only one query runs at a time: however the hotkey is pressed, a run of
/// events in which no query finishes starts at most one query, and none
/// when one was already running.
pub proof fn lemma_one_capture_at_a_time(in_progress: bool, hotkey_id: u32, events: Seq<HotkeyPress>)
    ensures
        captures_started(in_progress, hotkey_id, events) <= 1,
        in_progress ==> captures_started(in_progress, hotkey_id, events) == 0,
    decreases events.len(),
{
    if events.len() > 0 {
        let e = events[0];
        let next = in_progress_after(in_progress, hotkey_id, e.id, e.pressed);
        lemma_one_capture_at_a_time(next, hotkey_id, events.drop_first());
    }
}

/// Never do two queries run at once: from a latch whose flag tells whether
/// its one query runs, after any run of hotkey events and ends of running
/// queries, at most one query runs, and it runs exactly when the flag is set.
pub proof fn lemma_never_two_queries(
    in_progress: bool,
    running: nat,
    hotkey_id: u32,
    events: Seq<GateEvent>,
)
    requires
        running == (if in_progress {
            1nat
        } else {
            0nat
        }),
        ends_follow_starts(in_progress, running, hotkey_id, events),
    ensures
        run_gate(in_progress, running, hotkey_id, events).1 <= 1,
        run_gate(in_progress, running, hotkey_id, events).1 == (if run_gate(
            in_progress,
            running,
            hotkey_id,
            events,
        ).0 {
            1nat
        } else {
            0nat
        }),
    decreases events.len(),
{
    if events.len() > 0 {
        let next = gate_step(in_progress, running, hotkey_id, events[0]);
        lemma_never_two_queries(next.0, next.1, hotkey_id, events.drop_first());
    }
}

/// The message when the hotkey machinery cannot be set up.
pub fn hotkey_init_failed(error: &str) -> (m: String)
    ensures
        m@ == "无法初始化全局热键："@ + error@,
{
    let mut m = "无法初始化全局热键：".to_owned();
    m.append(error);
    m
}

/// The message when the hotkey cannot be registered.
pub fn hotkey_register_failed(error: &str) -> (m: String)
    ensures
        m@ == "无法注册全局热键 "@ + HOTKEY_LABEL@ + "："@ + error@,
{
    let mut m = "无法注册全局热键 ".to_owned();
    m.append(HOTKEY_LABEL);
    m.append("：");
    m.append(error);
    m
}

} // verus!
