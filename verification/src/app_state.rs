//! The state of the helper's window and how each event changes it: the
//! window's commands are decided here and carried out by the caller.
use vstd::prelude::*;
use vstd::string::StringExecFns;

use crate::layout::Rgb;
use crate::query::{outcome_view, WindowInfo, WindowInfoView};
use crate::text::{join, joined, string_views};

verus! {

/// The label of the global hotkey that starts a query.
pub const HOTKEY_LABEL: &'static str = "Ctrl+Alt+I";

/// The helper's name, which is also its window title.
pub const APP_NAME: &'static str = "GlazeWM Window Info";

/// What happens to the helper, from its hotkey, its tray menu or a query.
pub enum AppEvent {
    /// A query of the focused window started.
    CaptureStarted,
    /// A query finished, with the summary or the message to show.
    CaptureFinished(Result<WindowInfo, String>),
    /// The window is to be shown.
    Show,
    /// The helper is to quit.
    Exit,
}

/// The mathematical form of an `AppEvent`.
pub enum AppEventView {
    CaptureStarted,
    CaptureFinished(Result<WindowInfoView, Seq<char>>),
    Show,
    Exit,
}

impl View for AppEvent {
    type V = AppEventView;

    open spec fn view(&self) -> AppEventView {
        match self {
            AppEvent::CaptureStarted => AppEventView::CaptureStarted,
            AppEvent::CaptureFinished(r) => AppEventView::CaptureFinished(outcome_view(*r)),
            AppEvent::Show => AppEventView::Show,
            AppEvent::Exit => AppEventView::Exit,
        }
    }
}

/// What the window is to do after an event.
#[derive(Clone, Copy, Debug, PartialEq, Eq, Structural)]
pub enum WindowCommand {
    /// Nothing.
    Stay,
    /// Restore, show and focus the window.
    Show,
    /// Close the window, which ends the helper.
    Close,
}

/// The window's state.
pub struct AppState {
    /// The last summary that a query produced.
    pub window_info: Option<WindowInfo>,
    /// The status line.
    pub status: String,
    /// Whether the status line reports an error.
    pub status_is_error: bool,
    /// Whether closing the window ends the helper (otherwise it only hides).
    pub allow_exit: bool,
}

/// The mathematical form of an `AppState`.
pub struct AppStateView {
    pub window_info: Option<WindowInfoView>,
    pub status: Seq<char>,
    pub status_is_error: bool,
    pub allow_exit: bool,
}

impl View for AppState {
    type V = AppStateView;

    open spec fn view(&self) -> AppStateView {
        AppStateView {
            window_info: match self.window_info {
                Some(info) => Some(info@),
                None => None,
            },
            status: self.status@,
            status_is_error: self.status_is_error,
            allow_exit: self.allow_exit,
        }
    }
}

/// The status line when the helper started without trouble.
pub open spec fn ready_status() -> Seq<char> {
    "工具已在后台运行。激活目标窗口后按 "@ + HOTKEY_LABEL@ + "。"@
}

/// The status line while a query runs.
pub open spec fn capturing_status() -> Seq<char> {
    "正在读取 GlazeWM 的焦点窗口……"@
}

/// The status line after a query succeeded.
pub open spec fn captured_status() -> Seq<char> {
    "查询完成。可用鼠标选择下方文本并复制。"@
}

/// The status line after the whole response was copied.
pub open spec fn copied_status() -> Seq<char> {
    "完整 JSON 已复制到剪贴板。"@
}

/// The state at start: no summary, closing only hides the window, and the
/// status line either says that the helper is ready or lists, one per line,
/// the errors met while installing the hotkey and the tray icon.
pub open spec fn initial_state(errors: Seq<Seq<char>>) -> AppStateView {
    AppStateView {
        window_info: None,
        status: if errors.len() == 0 {
            ready_status()
        } else {
            joined(errors, "\n"@)
        },
        status_is_error: errors.len() > 0,
        allow_exit: false,
    }
}

/// The state after an event, and what the window is to do.
pub open spec fn next_state(s: AppStateView, e: AppEventView) -> (AppStateView, WindowCommand) {
    match e {
        AppEventView::CaptureStarted => (
            AppStateView { status: capturing_status(), status_is_error: false, ..s },
            WindowCommand::Stay,
        ),
        AppEventView::CaptureFinished(Ok(info)) => (
            AppStateView {
                window_info: Some(info),
                status: captured_status(),
                status_is_error: false,
                ..s
            },
            WindowCommand::Show,
        ),
        AppEventView::CaptureFinished(Err(message)) => (
            AppStateView { status: message, status_is_error: true, ..s },
            WindowCommand::Show,
        ),
        AppEventView::Show => (s, WindowCommand::Show),
        AppEventView::Exit => (AppStateView { allow_exit: true, ..s }, WindowCommand::Close),
    }
}

/// The state after a run of events.
pub open spec fn run_events(s: AppStateView, events: Seq<AppEventView>) -> AppStateView
    decreases events.len(),
{
    if events.len() == 0 {
        s
    } else {
        run_events(next_state(s, events[0]).0, events.drop_first())
    }
}

/// The colour of an error status line.
pub open spec fn error_color() -> Rgb {
    (220, 80, 80)
}

impl AppState {
    /// The state at start, from the errors met while installing the hotkey
    /// and the tray icon; the window is shown at once exactly when there are
    /// some (`status_is_error`).
    pub fn new(initialization_errors: &Vec<String>) -> (s: AppState)
        ensures
            s@ == initial_state(string_views(initialization_errors@)),
    {
        let status_is_error = initialization_errors.len() > 0;
        let status = if status_is_error {
            join(initialization_errors, "\n")
        } else {
            let mut ready = "工具已在后台运行。激活目标窗口后按 ".to_owned();
            ready.append(HOTKEY_LABEL);
            ready.append("。");
            ready
        };
        AppState { window_info: None, status, status_is_error, allow_exit: false }
    }

    /// Applies an event and says what the window is to do.
    pub fn handle_event(&mut self, event: AppEvent) -> (command: WindowCommand)
        ensures
            (final(self)@, command) == next_state(old(self)@, event@),
    {
        match event {
            AppEvent::CaptureStarted => {
                self.status = "正在读取 GlazeWM 的焦点窗口……".to_owned();
                self.status_is_error = false;
                WindowCommand::Stay
            },
            AppEvent::CaptureFinished(Ok(window_info)) => {
                self.window_info = Some(window_info);
                self.status = "查询完成。可用鼠标选择下方文本并复制。".to_owned();
                self.status_is_error = false;
                WindowCommand::Show
            },
            AppEvent::CaptureFinished(Err(error)) => {
                self.status = error;
                self.status_is_error = true;
                WindowCommand::Show
            },
            AppEvent::Show => WindowCommand::Show,
            AppEvent::Exit => {
                self.allow_exit = true;
                WindowCommand::Close
            },
        }
    }

    /// Whether a request to close the window is to be cancelled, the window
    /// being hidden instead: so it is until the helper is told to quit.
    pub fn cancels_close(&self) -> (r: bool)
        ensures
            r == !self.allow_exit,
    {
        !self.allow_exit
    }

    /// The quit button: closing now ends the helper.
    pub fn request_exit(&mut self) -> (command: WindowCommand)
        ensures
            (final(self)@, command) == next_state(old(self)@, AppEventView::Exit),
    {
        self.allow_exit = true;
        WindowCommand::Close
    }

    /// The whole response was copied to the clipboard.
    pub fn json_copied(&mut self)
        ensures
            final(self)@ == (AppStateView {
                status: copied_status(),
                status_is_error: false,
                ..old(self)@
            }),
    {
        self.status = "完整 JSON 已复制到剪贴板。".to_owned();
        self.status_is_error = false;
    }

    /// The colour of the status line: red for an error, otherwise the
    /// ordinary text colour (`None`).
    pub fn status_color(&self) -> (r: Option<Rgb>)
        ensures
            r == (if self.status_is_error {
                Some(error_color())
            } else {
                None
            }),
    {
        if self.status_is_error {
            Some((220, 80, 80))
        } else {
            None
        }
    }
}

/// Once the helper is told to quit it stays so: from a state in which closing
/// ends the helper, every run of events leads to such a state.
pub proof fn lemma_exit_stays_allowed(s: AppStateView, events: Seq<AppEventView>)
    requires
        s.allow_exit,
    ensures
        run_events(s, events).allow_exit,
    decreases events.len(),
{
    if events.len() > 0 {
        lemma_exit_stays_allowed(next_state(s, events[0]).0, events.drop_first());
    }
}

/// A summary once shown is never dropped: from a state that holds one, every
/// run of events leads to a state that holds one.
pub proof fn lemma_summary_kept(s: AppStateView, events: Seq<AppEventView>)
    requires
        s.window_info is Some,
    ensures
        run_events(s, events).window_info is Some,
    decreases events.len(),
{
    if events.len() > 0 {
        lemma_summary_kept(next_state(s, events[0]).0, events.drop_first());
    }
}

/// Every finished query brings the window up, and a failed one changes only
/// the status line, which then reports the error: the last summary stays.
pub proof fn lemma_finished_query_shows_window(
    s: AppStateView,
    outcome: Result<WindowInfoView, Seq<char>>,
)
    ensures
        next_state(s, AppEventView::CaptureFinished(outcome)).1 == WindowCommand::Show,
        outcome is Err ==> {
            let t = next_state(s, AppEventView::CaptureFinished(outcome)).0;
            &&& t.window_info == s.window_info
            &&& t.allow_exit == s.allow_exit
            &&& t.status_is_error
            &&& t.status == outcome->Err_0
        },
{
}

/// After the helper is told to quit, the window closes and a request to close
/// it is no longer turned into hiding it.
pub proof fn lemma_exit_closes(s: AppStateView)
    ensures
        next_state(s, AppEventView::Exit).1 == WindowCommand::Close,
        next_state(s, AppEventView::Exit).0.allow_exit,
{
}

/// Showing the window changes nothing of the state.
pub proof fn lemma_show_keeps_state(s: AppStateView)
    ensures
        next_state(s, AppEventView::Show) == (s, WindowCommand::Show),
{
}

/// A finished query's summary replaces whatever summary was shown before,
/// whatever the state: the window then holds exactly that summary, says that
/// the query is done, shows no error, keeps whether closing quits, and comes up.
pub proof fn lemma_newest_summary_wins(s: AppStateView, info: WindowInfoView)
    ensures
        next_state(s, AppEventView::CaptureFinished(Ok(info))).0.window_info == Some(info),
        next_state(s, AppEventView::CaptureFinished(Ok(info))).0.status
            == "查询完成。可用鼠标选择下方文本并复制。"@,
        !next_state(s, AppEventView::CaptureFinished(Ok(info))).0.status_is_error,
        next_state(s, AppEventView::CaptureFinished(Ok(info))).0.allow_exit == s.allow_exit,
        next_state(s, AppEventView::CaptureFinished(Ok(info))).1 == WindowCommand::Show,
{
}

/// `joined` puts the separator between neighbours: one string is itself, and
/// one more string adds the separator and that string.
pub proof fn lemma_joined_steps(list: Seq<Seq<char>>, x: Seq<char>, sep: Seq<char>)
    ensures
        joined(seq![x], sep) == x,
        list.len() > 0 ==> joined(list.push(x), sep) == joined(list, sep) + sep + x,
{
    assert(list.push(x).drop_last() =~= list);
}

/// The start state reports every setup error: with no error the status says
/// that the helper is ready and is no error; with any error the status is
/// an error and lists the errors one per line, so a single error is the
/// status itself, and two errors are joined by a newline.
pub proof fn lemma_start_reports_errors(errors: Seq<Seq<char>>)
    ensures
        errors.len() == 0 ==> !initial_state(errors).status_is_error && initial_state(errors).status
            == "工具已在后台运行。激活目标窗口后按 "@ + HOTKEY_LABEL@ + "。"@,
        errors.len() > 0 ==> initial_state(errors).status_is_error,
        errors.len() == 1 ==> initial_state(errors).status == errors[0],
        errors.len() == 2 ==> initial_state(errors).status == errors[0] + "\n"@ + errors[1],
        initial_state(errors).window_info is None,
        !initial_state(errors).allow_exit,
{
    if errors.len() == 2 {
        assert(errors.drop_last().len() == 1);
        assert(errors.drop_last()[0] == errors[0]);
        assert(joined(errors.drop_last(), "\n"@) == errors[0]);
        assert(joined(errors, "\n"@) == joined(errors.drop_last(), "\n"@) + "\n"@ + errors.last());
    }
}

} // verus!
