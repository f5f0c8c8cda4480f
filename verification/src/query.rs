//! Turning the output of `glazewm query focused` into the focused window's
//! summary, or into the message shown when that fails.
use vstd::prelude::*;
use vstd::string::StringExecFns;
use vstd::utf8::{decode_utf8, valid_utf8};

use crate::json::{
    as_bool, as_str, json_lookup, json_node_at, json_parse_error, json_pretty, json_pretty_text,
    json_syntax_error, node_bool, node_str, node_view, string_result_view, JsonNode,
    JsonNodeView,
};
use crate::text::{trim, trim_chars};

verus! {

/// What is shown of the focused window.
pub struct WindowInfo {
    pub title: String,
    pub class_name: String,
    pub process_name: String,
    /// The whole response, pretty-printed.
    pub formatted_json: String,
}

/// The mathematical form of a `WindowInfo`.
pub struct WindowInfoView {
    pub title: Seq<char>,
    pub class_name: Seq<char>,
    pub process_name: Seq<char>,
    pub formatted_json: Seq<char>,
}

impl View for WindowInfo {
    type V = WindowInfoView;

    open spec fn view(&self) -> WindowInfoView {
        WindowInfoView {
            title: self.title@,
            class_name: self.class_name@,
            process_name: self.process_name@,
            formatted_json: self.formatted_json@,
        }
    }
}

/// The view of a query's outcome.
pub open spec fn outcome_view(r: Result<WindowInfo, String>) -> Result<WindowInfoView, Seq<char>> {
    match r {
        Ok(info) => Ok(info@),
        Err(e) => Err(e@),
    }
}

/// What the response to `glazewm query focused` says, as far as the summary
/// reads it.
pub struct QueryResponse {
    /// The node at `/success`.
    pub success: Option<JsonNode>,
    /// The node at `/error`.
    pub error: Option<JsonNode>,
    /// The nodes at `/data/focused/title`, `/data/focused/className` and
    /// `/data/focused/processName`.
    pub title: Option<JsonNode>,
    pub class_name: Option<JsonNode>,
    pub process_name: Option<JsonNode>,
    /// The response pretty-printed, or the text of the error that stopped it.
    pub formatted_json: Result<String, String>,
}

/// The mathematical form of a `QueryResponse`.
pub struct QueryResponseView {
    pub success: Option<JsonNodeView>,
    pub error: Option<JsonNodeView>,
    pub title: Option<JsonNodeView>,
    pub class_name: Option<JsonNodeView>,
    pub process_name: Option<JsonNodeView>,
    pub formatted_json: Result<Seq<char>, Seq<char>>,
}

impl View for QueryResponse {
    type V = QueryResponseView;

    open spec fn view(&self) -> QueryResponseView {
        QueryResponseView {
            success: node_view(self.success),
            error: node_view(self.error),
            title: node_view(self.title),
            class_name: node_view(self.class_name),
            process_name: node_view(self.process_name),
            formatted_json: string_result_view(self.formatted_json),
        }
    }
}

/// The text shown for a summary field that the response does not hold as a
/// string.
pub open spec fn missing_field() -> Seq<char> {
    "—"@
}

/// The message for a refused query that names no error of its own.
pub open spec fn unknown_error() -> Seq<char> {
    "GlazeWM 返回了未知错误。"@
}

/// `o`'s string, or `default` when there is none.
pub open spec fn text_or(o: Option<Seq<char>>, default: Seq<char>) -> Seq<char> {
    match o {
        Some(s) => s,
        None => default,
    }
}

/// The outcome of a parsed response: when `success` is `false` the query was
/// refused, with the response's `error` string as the message; otherwise the
/// summary holds the three focused-window strings (or `—` for any that is
/// missing) and the pretty-printed response, unless printing failed.
pub open spec fn response_outcome(r: QueryResponseView) -> Result<WindowInfoView, Seq<char>> {
    if node_bool(r.success) == Some(false) {
        Err(text_or(node_str(r.error), unknown_error()))
    } else {
        match r.formatted_json {
            Err(e) => Err("无法格式化 GlazeWM 返回的 JSON："@ + e),
            Ok(f) => Ok(
                WindowInfoView {
                    title: text_or(node_str(r.title), missing_field()),
                    class_name: text_or(node_str(r.class_name), missing_field()),
                    process_name: text_or(node_str(r.process_name), missing_field()),
                    formatted_json: f,
                },
            ),
        }
    }
}

/// What the crate reads of the response in `bytes`.
pub open spec fn response_of(bytes: Seq<u8>) -> QueryResponseView {
    QueryResponseView {
        success: json_node_at(bytes, "/success"@),
        error: json_node_at(bytes, "/error"@),
        title: json_node_at(bytes, "/data/focused/title"@),
        class_name: json_node_at(bytes, "/data/focused/className"@),
        process_name: json_node_at(bytes, "/data/focused/processName"@),
        formatted_json: json_pretty(bytes),
    }
}

/// The outcome of the response in `bytes`: a message when they are not JSON,
/// and otherwise that of what they say.
pub open spec fn parse_outcome(bytes: Seq<u8>) -> Result<WindowInfoView, Seq<char>> {
    match json_syntax_error(bytes) {
        Some(e) => Err("无法解析 GlazeWM 返回的 JSON："@ + e),
        None => response_outcome(response_of(bytes)),
    }
}

/// `prefix` followed by `detail`.
fn join_text(prefix: &str, detail: &str) -> (s: String)
    ensures
        s@ == prefix@ + detail@,
{
    let mut s = prefix.to_owned();
    s.append(detail);
    s
}

/// A field of the summary: the node's string, or `—`.
fn field_text(n: &Option<JsonNode>) -> (s: String)
    ensures
        s@ == text_or(node_str(node_view(*n)), missing_field()),
{
    match as_str(n) {
        Some(t) => t.to_owned(),
        None => "—".to_owned(),
    }
}

/// The outcome of a parsed response (see `response_outcome`).
pub fn interpret_response(response: QueryResponse) -> (r: Result<WindowInfo, String>)
    ensures
        outcome_view(r) == response_outcome(response@),
{
    if as_bool(&response.success) == Some(false) {
        let message = match as_str(&response.error) {
            Some(m) => m.to_owned(),
            None => "GlazeWM 返回了未知错误。".to_owned(),
        };
        return Err(message);
    }
    let title = field_text(&response.title);
    let class_name = field_text(&response.class_name);
    let process_name = field_text(&response.process_name);
    match response.formatted_json {
        Err(e) => Err(join_text("无法格式化 GlazeWM 返回的 JSON：", e.as_str())),
        Ok(formatted_json) => Ok(WindowInfo { title, class_name, process_name, formatted_json }),
    }
}

/// Reads the summary out of the JSON that `glazewm query focused` printed;
/// it fails only on text that is not JSON and on a response that reports
/// `"success": false`.
pub fn parse_query_output(output: &[u8]) -> (r: Result<WindowInfo, String>)
    ensures
        outcome_view(r) == parse_outcome(output@),
        json_syntax_error(output@) is None && node_bool(json_node_at(output@, "/success"@)) != Some(
            false,
        ) ==> r is Ok,
        r matches Ok(info) ==> {
            &&& json_node_at(output@, "/data/focused/title"@) matches Some(JsonNodeView::Text(t))
                ==> info.title@ == t
            &&& json_node_at(output@, "/data/focused/className"@) matches Some(
                JsonNodeView::Text(t),
            ) ==> info.class_name@ == t
            &&& json_node_at(output@, "/data/focused/processName"@) matches Some(
                JsonNodeView::Text(t),
            ) ==> info.process_name@ == t
            &&& json_pretty(output@) == Ok::<Seq<char>, Seq<char>>(info.formatted_json@)
        },
{
    if let Some(error) = json_parse_error(output) {
        return Err(join_text("无法解析 GlazeWM 返回的 JSON：", error.as_str()));
    }
    let response = QueryResponse {
        success: json_lookup(output, "/success"),
        error: json_lookup(output, "/error"),
        title: json_lookup(output, "/data/focused/title"),
        class_name: json_lookup(output, "/data/focused/className"),
        process_name: json_lookup(output, "/data/focused/processName"),
        formatted_json: json_pretty_text(output),
    };
    interpret_response(response)
}

/// What running `glazewm query focused` gave back.
pub struct QueryCommandOutput {
    /// Whether the command exited successfully.
    pub success: bool,
    /// The command's exit status, as it is displayed.
    pub status: String,
    pub stdout: Vec<u8>,
    pub stderr: Vec<u8>,
}

/// What `String::from_utf8_lossy` makes of `bytes`.
pub uninterp spec fn lossy_utf8(bytes: Seq<u8>) -> Seq<char>;

/// Calls `String::from_utf8_lossy`. Claimed: the result is a function of the
/// bytes alone, named `lossy_utf8`, and is their decoding when they are valid
/// UTF-8 (std documents that such input is returned unchanged). What replaces
/// an invalid sequence is not stated.
#[verifier::external_body]
fn utf8_lossy(bytes: &[u8]) -> (s: String)
    ensures
        s@ == lossy_utf8(bytes@),
        valid_utf8(bytes@) ==> s@ == decode_utf8(bytes@),
{
    String::from_utf8_lossy(bytes).into_owned()
}

/// The message for a command that could not be run.
pub open spec fn run_failed_message(error: Seq<char>) -> Seq<char> {
    "无法运行 `glazewm query focused`："@ + error + "\n请确认 GlazeWM 正在运行并且 CLI 位于 PATH 中。"@
}

/// The message for a command that ran and failed: its trimmed standard error,
/// or its exit status when that is empty.
pub open spec fn command_failed_message(status: Seq<char>, stderr: Seq<u8>) -> Seq<char> {
    let detail = trim_chars(lossy_utf8(stderr));
    if detail.len() == 0 {
        "GlazeWM 查询失败，退出码："@ + status
    } else {
        "GlazeWM 查询失败："@ + detail
    }
}

/// The outcome of a query from what running the command gave back: the
/// message of a command that could not be run or failed, or what its output
/// says.
pub open spec fn query_outcome(run: Result<QueryCommandOutput, String>) -> Result<WindowInfoView, Seq<char>> {
    match run {
        Err(error) => Err(run_failed_message(error@)),
        Ok(output) => if !output.success {
            Err(command_failed_message(output.status@, output.stderr@))
        } else {
            parse_outcome(output.stdout@)
        },
    }
}

/// The focused window's summary, from what running `glazewm query focused`
/// gave back (`Err` holds the text of the error that kept it from running).
pub fn query_focused_window(run: Result<QueryCommandOutput, String>) -> (r: Result<WindowInfo, String>)
    ensures
        outcome_view(r) == query_outcome(run),
{
    match run {
        Err(error) => {
            let message = join_text("无法运行 `glazewm query focused`：", error.as_str());
            Err(join_text(message.as_str(), "\n请确认 GlazeWM 正在运行并且 CLI 位于 PATH 中。"))
        },
        Ok(output) => {
            if !output.success {
                let stderr = utf8_lossy(output.stderr.as_slice());
                let detail = trim(stderr.as_str());
                if detail.is_empty() {
                    Err(join_text("GlazeWM 查询失败，退出码：", output.status.as_str()))
                } else {
                    Err(join_text("GlazeWM 查询失败：", detail))
                }
            } else {
                parse_query_output(output.stdout.as_slice())
            }
        },
    }
}

/// Whether to run the command again from its fallback location: only when it
/// was not found on `PATH` and the fallback file exists.
pub fn use_fallback(not_found: bool, fallback_is_file: bool) -> (r: bool)
    ensures
        r == (not_found && fallback_is_file),
{
    not_found && fallback_is_file
}

/// A summary shows the response's strings exactly as they are: when the
/// response is not a refusal and could be printed, the summary's title, class
/// and process are the strings that the response holds for them, each one
/// whole and unchanged, `—` for any that is missing or not a string, and its
/// text is the printed response. A refusal gives the response's error string
/// as it is, whatever else the response holds.
pub proof fn lemma_summary_shows_response_strings(r: QueryResponseView)
    ensures
        r.success != Some(JsonNodeView::Bool(false)) && r.formatted_json is Ok ==> {
            &&& response_outcome(r) matches Ok(info)
            &&& info.formatted_json == r.formatted_json->Ok_0
            &&& (r.title matches Some(JsonNodeView::Text(t)) ==> info.title == t)
            &&& (!(r.title matches Some(JsonNodeView::Text(_))) ==> info.title == "—"@)
            &&& (r.class_name matches Some(JsonNodeView::Text(t)) ==> info.class_name == t)
            &&& (!(r.class_name matches Some(JsonNodeView::Text(_))) ==> info.class_name == "—"@)
            &&& (r.process_name matches Some(JsonNodeView::Text(t)) ==> info.process_name == t)
            &&& (!(r.process_name matches Some(JsonNodeView::Text(_))) ==> info.process_name
                == "—"@)
        },
        r.success == Some(JsonNodeView::Bool(false)) ==> {
            &&& response_outcome(r) is Err
            &&& (r.error matches Some(JsonNodeView::Text(m)) ==> response_outcome(r) == Err::<
                WindowInfoView,
                Seq<char>,
            >(m))
        },
{
}

} // verus!
