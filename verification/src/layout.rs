//! Highlighting of the pretty-printed response: which lines carry the three
//! summary fields, and the colours they are drawn in.
use vstd::prelude::*;

use crate::text::{
    is_inclusive_line_split, is_white_space, lemma_trim_start_drops_any_indent, split_lines_inclusive, starts_with, string_views, trim_start,
    trim_start_chars,
};

verus! {

/// What a line of the pretty-printed response shows.
#[derive(Clone, Copy, Debug, PartialEq, Eq, Structural)]
pub enum LineRole {
    ProcessName,
    ClassName,
    Title,
    Other,
}

/// The role of a line: a line whose text, after its indentation, starts with
/// the key `"processName":`, `"className":` or `"title":` shows that field;
/// the first of these that matches decides.
pub open spec fn line_role_of(line: Seq<char>) -> LineRole {
    let body = trim_start_chars(line);
    if "\"processName\":"@.is_prefix_of(body) {
        LineRole::ProcessName
    } else if "\"className\":"@.is_prefix_of(body) {
        LineRole::ClassName
    } else if "\"title\":"@.is_prefix_of(body) {
        LineRole::Title
    } else {
        LineRole::Other
    }
}

/// Classifies one line of the pretty-printed response.
pub fn line_role(line: &str) -> (r: LineRole)
    ensures
        r == line_role_of(line@),
{
    let body = trim_start(line);
    if starts_with(body, "\"processName\":") {
        LineRole::ProcessName
    } else if starts_with(body, "\"className\":") {
        LineRole::ClassName
    } else if starts_with(body, "\"title\":") {
        LineRole::Title
    } else {
        LineRole::Other
    }
}

/// The lines of `json`, each with its terminating newline, paired with their
/// roles.
pub fn json_line_roles(json: &str) -> (r: Vec<(String, LineRole)>)
    ensures
        is_inclusive_line_split(json@, r@.map_values(|p: (String, LineRole)| p.0@)),
        forall|i: int| 0 <= i < r@.len() ==> #[trigger] r@[i].1 == line_role_of(r@[i].0@),
{
    let lines = split_lines_inclusive(json);
    let mut out: Vec<(String, LineRole)> = Vec::new();
    let n = lines.len();
    for i in 0..n
        invariant
            n == lines@.len(),
            out@.len() == i,
            forall|j: int| 0 <= j < i ==> #[trigger] out@[j].0@ == lines@[j]@,
            forall|j: int| 0 <= j < i ==> #[trigger] out@[j].1 == line_role_of(out@[j].0@),
    {
        let role = line_role(lines[i].as_str());
        out.push((lines[i].clone(), role));
    }
    assert(out@.map_values(|p: (String, LineRole)| p.0@) =~= string_views(lines@));
    out
}

/// A colour as red, green and blue.
pub type Rgb = (u8, u8, u8);

/// The colour of a line with the given role: each summary field has its own
/// colour, darker on a light background; `None` keeps the ordinary text
/// colour.
pub open spec fn highlight_of(role: LineRole, dark_mode: bool) -> Option<Rgb> {
    match role {
        LineRole::ProcessName => Some(if dark_mode { (120, 210, 140) } else { (25, 125, 55) }),
        LineRole::ClassName => Some(if dark_mode { (110, 180, 255) } else { (25, 90, 180) }),
        LineRole::Title => Some(if dark_mode { (245, 190, 100) } else { (175, 95, 15) }),
        LineRole::Other => None,
    }
}

/// The colour to draw a line with the given role in.
pub fn highlight_color(role: LineRole, dark_mode: bool) -> (r: Option<Rgb>)
    ensures
        r == highlight_of(role, dark_mode),
{
    match role {
        LineRole::ProcessName => Some(if dark_mode { (120, 210, 140) } else { (25, 125, 55) }),
        LineRole::ClassName => Some(if dark_mode { (110, 180, 255) } else { (25, 90, 180) }),
        LineRole::Title => Some(if dark_mode { (245, 190, 100) } else { (175, 95, 15) }),
        LineRole::Other => None,
    }
}

/// A line's role does not depend on its indentation, however deep: any run
/// of whitespace in front of a line leaves its role as it is; and a line that
/// starts with the key `"processName":`, `"className":` or `"title":` shows
/// that field.
pub proof fn lemma_role_ignores_indentation(w: Seq<char>, line: Seq<char>)
    requires
        forall|i: int| 0 <= i < w.len() ==> is_white_space(#[trigger] w[i]),
    ensures
        line_role_of(w + line) == line_role_of(line),
        "\"processName\":"@.is_prefix_of(line) ==> line_role_of(line) == LineRole::ProcessName,
        "\"className\":"@.is_prefix_of(line) ==> line_role_of(line) == LineRole::ClassName,
        "\"title\":"@.is_prefix_of(line) ==> line_role_of(line) == LineRole::Title,
{
    lemma_trim_start_drops_any_indent(w, line);
    reveal_strlit("\"processName\":");
    reveal_strlit("\"className\":");
    reveal_strlit("\"title\":");
    let pn = "\"processName\":"@;
    let cn = "\"className\":"@;
    let tn = "\"title\":"@;
    assert(pn.len() == 14 && pn[0] == '"' && pn[1] == 'p');
    assert(cn.len() == 12 && cn[0] == '"' && cn[1] == 'c');
    assert(tn.len() == 8 && tn[0] == '"' && tn[1] == 't');
    if pn.is_prefix_of(line) || cn.is_prefix_of(line) || tn.is_prefix_of(line) {
        assert(line.len() >= 8);
        if pn.is_prefix_of(line) {
            assert(line[0] == line.subrange(0, pn.len() as int)[0]);
            assert(line[1] == line.subrange(0, pn.len() as int)[1]);
        }
        if cn.is_prefix_of(line) {
            assert(line[0] == line.subrange(0, cn.len() as int)[0]);
            assert(line[1] == line.subrange(0, cn.len() as int)[1]);
        }
        if tn.is_prefix_of(line) {
            assert(line[0] == line.subrange(0, tn.len() as int)[0]);
            assert(line[1] == line.subrange(0, tn.len() as int)[1]);
        }
        assert(line[0] == '"');
        assert(!is_white_space(line[0]));
        assert(trim_start_chars(line) == line);
        if cn.is_prefix_of(line) {
            assert(!pn.is_prefix_of(line)) by {
                if pn.is_prefix_of(line) {
                    assert(line[1] == line.subrange(0, pn.len() as int)[1]);
                }
            }
        }
        if tn.is_prefix_of(line) {
            assert(!pn.is_prefix_of(line)) by {
                if pn.is_prefix_of(line) {
                    assert(line[1] == line.subrange(0, pn.len() as int)[1]);
                }
            }
            assert(!cn.is_prefix_of(line)) by {
                if cn.is_prefix_of(line) {
                    assert(line[1] == line.subrange(0, cn.len() as int)[1]);
                }
            }
        }
    }
}

} // verus!
