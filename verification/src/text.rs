//! Character-level text helpers: whitespace, trimming, prefixes and lines.
use vstd::prelude::*;
use vstd::string::StringExecFns;

verus! {

/// The Unicode `White_Space` property (PropList.txt), which is what
/// `char::is_whitespace` and the `trim` family of `str` test.
pub open spec fn is_white_space(c: char) -> bool {
    let v = c as u32;
    ||| 0x9 <= v <= 0xd
    ||| v == 0x20
    ||| v == 0x85
    ||| v == 0xa0
    ||| v == 0x1680
    ||| 0x2000 <= v <= 0x200a
    ||| v == 0x2028
    ||| v == 0x2029
    ||| v == 0x202f
    ||| v == 0x205f
    ||| v == 0x3000
}

/// Whether `c` is Unicode whitespace.
pub fn is_whitespace(c: char) -> (r: bool)
    ensures
        r == is_white_space(c),
{
    let v = c as u32;
    (0x9 <= v && v <= 0xd) || v == 0x20 || v == 0x85 || v == 0xa0 || v == 0x1680 || (0x2000 <= v
        && v <= 0x200a) || v == 0x2028 || v == 0x2029 || v == 0x202f || v == 0x205f || v == 0x3000
}

} // verus!

verus! {

/// `s` without its leading whitespace.
pub open spec fn trim_start_chars(s: Seq<char>) -> Seq<char>
    decreases s.len(),
{
    if s.len() > 0 && is_white_space(s[0]) {
        trim_start_chars(s.drop_first())
    } else {
        s
    }
}

/// `s` without its trailing whitespace.
pub open spec fn trim_end_chars(s: Seq<char>) -> Seq<char>
    decreases s.len(),
{
    if s.len() > 0 && is_white_space(s.last()) {
        trim_end_chars(s.drop_last())
    } else {
        s
    }
}

/// `s` without leading and trailing whitespace.
pub open spec fn trim_chars(s: Seq<char>) -> Seq<char> {
    trim_end_chars(trim_start_chars(s))
}

proof fn lemma_trim_start_skip(s: Seq<char>, i: int)
    requires
        0 <= i < s.len(),
        is_white_space(s[i]),
    ensures
        trim_start_chars(s.skip(i)) == trim_start_chars(s.skip(i + 1)),
{
    assert(s.skip(i).drop_first() =~= s.skip(i + 1));
}

proof fn lemma_trim_end_take(s: Seq<char>, j: int)
    requires
        0 < j <= s.len(),
        is_white_space(s[j - 1]),
    ensures
        trim_end_chars(s.take(j)) == trim_end_chars(s.take(j - 1)),
{
    assert(s.take(j).drop_last() =~= s.take(j - 1));
}

/// The index of the first character of `s` that is not whitespace, or the
/// length of `s` when there is none.
fn leading_whitespace_end(s: &str) -> (i: usize)
    ensures
        i <= s@.len(),
        trim_start_chars(s@) == s@.skip(i as int),
{
    let len = s.unicode_len();
    let mut i: usize = 0;
    assert(s@.skip(0) =~= s@);
    while i < len
        invariant
            len == s@.len(),
            i <= len,
            trim_start_chars(s@) == trim_start_chars(s@.skip(i as int)),
        decreases len - i,
    {
        let c = s.get_char(i);
        if !is_whitespace(c) {
            return i;
        }
        proof {
            lemma_trim_start_skip(s@, i as int);
        }
        i = i + 1;
    }
    assert(s@.skip(len as int) =~= Seq::<char>::empty());
    i
}

/// `s` with leading whitespace removed, as `str::trim_start` does.
pub fn trim_start(s: &str) -> (r: &str)
    ensures
        r@ == trim_start_chars(s@),
{
    let i = leading_whitespace_end(s);
    let len = s.unicode_len();
    s.substring_char(i, len)
}

/// `s` with leading and trailing whitespace removed, as `str::trim` does.
pub fn trim(s: &str) -> (r: &str)
    ensures
        r@ == trim_chars(s@),
{
    let t = trim_start(s);
    let len = t.unicode_len();
    let mut j: usize = len;
    assert(t@.take(len as int) =~= t@);
    while j > 0
        invariant
            len == t@.len(),
            j <= len,
            trim_end_chars(t@) == trim_end_chars(t@.take(j as int)),
        ensures
            j <= len,
            trim_end_chars(t@) == trim_end_chars(t@.take(j as int)),
            j == 0 || !is_white_space(t@[j - 1]),
        decreases j,
    {
        let c = t.get_char(j - 1);
        if !is_whitespace(c) {
            break;
        }
        proof {
            lemma_trim_end_take(t@, j as int);
        }
        j = j - 1;
    }
    proof {
        if j == 0 {
            assert(t@.take(0) =~= Seq::<char>::empty());
        } else {
            assert(t@.take(j as int).last() == t@[j - 1]);
        }
        assert(t@.take(j as int) =~= t@.subrange(0, j as int));
    }
    t.substring_char(0, j)
}

/// Whether `s` begins with `prefix`, as `str::starts_with` does.
pub fn starts_with(s: &str, prefix: &str) -> (r: bool)
    ensures
        r == prefix@.is_prefix_of(s@),
{
    let n = prefix.unicode_len();
    let len = s.unicode_len();
    if n > len {
        return false;
    }
    let mut i: usize = 0;
    while i < n
        invariant
            n == prefix@.len(),
            len == s@.len(),
            n <= len,
            i <= n,
            forall|k: int| 0 <= k < i ==> prefix@[k] == s@[k],
        decreases n - i,
    {
        if prefix.get_char(i) != s.get_char(i) {
            assert(prefix@[i as int] != s@.subrange(0, n as int)[i as int]);
            return false;
        }
        i = i + 1;
    }
    assert(prefix@ =~= s@.subrange(0, n as int));
    true
}

} // verus!

verus! {

/// The character sequences of a list of strings.
pub open spec fn string_views(v: Seq<String>) -> Seq<Seq<char>> {
    v.map_values(|l: String| l@)
}

/// `lines` cuts `s` after each `'\n'`, keeping the newline at the end of its
/// line, as `str::split_inclusive('\n')` does: joined again they give `s`, no
/// line is empty, every line but the last ends in `'\n'`, and no line holds a
/// `'\n'` before its end.
pub open spec fn is_inclusive_line_split(s: Seq<char>, lines: Seq<Seq<char>>) -> bool {
    &&& lines.flatten() == s
    &&& forall|i: int| 0 <= i < lines.len() ==> #[trigger] lines[i].len() > 0
    &&& forall|i: int| 0 <= i < lines.len() - 1 ==> #[trigger] lines[i].last() == '\n'
    &&& forall|i: int, k: int|
        0 <= i < lines.len() && 0 <= k < lines[i].len() - 1 ==> #[trigger] lines[i][k] != '\n'
}

/// Splits `s` into lines that keep their terminating `'\n'`.
pub fn split_lines_inclusive(s: &str) -> (lines: Vec<String>)
    ensures
        is_inclusive_line_split(s@, string_views(lines@)),
{
    let len = s.unicode_len();
    let mut lines: Vec<String> = Vec::new();
    let mut start: usize = 0;
    let mut i: usize = 0;
    while i < len
        invariant
            len == s@.len(),
            start <= i <= len,
            string_views(lines@).flatten() == s@.take(start as int),
            forall|j: int| 0 <= j < lines@.len() ==> #[trigger] lines@[j]@.len() > 0,
            forall|j: int| 0 <= j < lines@.len() ==> #[trigger] lines@[j]@.last() == '\n',
            forall|j: int, k: int|
                0 <= j < lines@.len() && 0 <= k < lines@[j]@.len() - 1 ==> #[trigger] lines@[j]@[k]
                    != '\n',
            forall|k: int| start <= k < i ==> s@[k] != '\n',
        decreases len - i,
    {
        if s.get_char(i) == '\n' {
            let line = s.substring_char(start, i + 1).to_owned();
            proof {
                let old_views = string_views(lines@);
                old_views.lemma_flatten_push(line@);
                assert(string_views(lines@.push(line)) =~= old_views.push(line@));
                assert(s@.take(start as int) + s@.subrange(start as int, i + 1) =~= s@.take(i + 1));
            }
            lines.push(line);
            start = i + 1;
        }
        i = i + 1;
    }
    if start < len {
        let line = s.substring_char(start, len).to_owned();
        proof {
            let old_views = string_views(lines@);
            old_views.lemma_flatten_push(line@);
            assert(string_views(lines@.push(line)) =~= old_views.push(line@));
            assert(s@.take(start as int) + s@.subrange(start as int, len as int) =~= s@);
        }
        lines.push(line);
    } else {
        assert(s@.take(len as int) =~= s@);
    }
    lines
}

} // verus!

verus! {

/// The strings of `list` with `sep` between each two neighbours.
pub open spec fn joined(list: Seq<Seq<char>>, sep: Seq<char>) -> Seq<char>
    decreases list.len(),
{
    if list.len() == 0 {
        Seq::empty()
    } else if list.len() == 1 {
        list[0]
    } else {
        joined(list.drop_last(), sep) + sep + list.last()
    }
}

/// The strings of `list` with `sep` between each two neighbours, as
/// `join` on a slice of strings does.
pub fn join(list: &Vec<String>, sep: &str) -> (r: String)
    ensures
        r@ == joined(string_views(list@), sep@),
{
    let mut r = String::new();
    let n = list.len();
    let ghost views = string_views(list@);
    for i in 0..n
        invariant
            n == list@.len(),
            views == string_views(list@),
            r@ == joined(views.take(i as int), sep@),
    {
        assert(views.take(i + 1).drop_last() =~= views.take(i as int));
        assert(views.take(i + 1).last() == list@[i as int]@);
        if i != 0 {
            r.append(sep);
        } else {
            assert(views.take(1).len() == 1);
        }
        r.append(list[i].as_str());
        assert(r@ == joined(views.take(i + 1), sep@));
    }
    assert(views.take(n as int) =~= views);
    r
}

} // verus!

verus! {

/// The description of a line split leaves no choice: two splits of the same
/// text into lines that keep their newlines are the same.
pub proof fn lemma_line_split_unique(s: Seq<char>, a: Seq<Seq<char>>, b: Seq<Seq<char>>)
    requires
        is_inclusive_line_split(s, a),
        is_inclusive_line_split(s, b),
    ensures
        a == b,
    decreases a.len(),
{
    if a.len() == 0 || b.len() == 0 {
        if b.len() > 0 {
            assert(b[0].len() > 0);
            assert(b.flatten() == b[0] + b.drop_first().flatten());
        }
        if a.len() > 0 {
            assert(a[0].len() > 0);
            assert(a.flatten() == a[0] + a.drop_first().flatten());
        }
        assert(a =~= b);
    } else {
        let x = a[0];
        let y = b[0];
        assert(a.flatten() == x + a.drop_first().flatten());
        assert(b.flatten() == y + b.drop_first().flatten());
        assert(x.len() > 0 && y.len() > 0);
        assert(forall|k: int| 0 <= k < x.len() ==> s[k] == x[k]);
        assert(forall|k: int| 0 <= k < y.len() ==> s[k] == y[k]);
        if x.len() < y.len() {
            if a.len() > 1 {
                assert(x.last() == '\n');
                assert(y[x.len() - 1] == s[x.len() - 1]);
                assert(y[x.len() - 1] != '\n');
            } else {
                assert(a.drop_first().flatten() =~= Seq::<char>::empty());
                assert(s.len() == x.len());
            }
        } else if y.len() < x.len() {
            if b.len() > 1 {
                assert(y.last() == '\n');
                assert(x[y.len() - 1] == s[y.len() - 1]);
                assert(x[y.len() - 1] != '\n');
            } else {
                assert(b.drop_first().flatten() =~= Seq::<char>::empty());
                assert(s.len() == y.len());
            }
        }
        assert(x.len() == y.len());
        assert(x =~= y);
        let rest = s.skip(x.len() as int);
        assert(a.drop_first().flatten() =~= rest);
        assert(b.drop_first().flatten() =~= rest);
        assert forall|i: int| 0 <= i < a.drop_first().len() - 1 implies #[trigger] a.drop_first()[i].last() == '\n' by {
            assert(a.drop_first()[i] == a[i + 1]);
        }
        assert forall|i: int| 0 <= i < b.drop_first().len() - 1 implies #[trigger] b.drop_first()[i].last() == '\n' by {
            assert(b.drop_first()[i] == b[i + 1]);
        }
        assert forall|i: int| 0 <= i < a.drop_first().len() implies #[trigger] a.drop_first()[i].len() > 0 by {
            assert(a.drop_first()[i] == a[i + 1]);
        }
        assert forall|i: int| 0 <= i < b.drop_first().len() implies #[trigger] b.drop_first()[i].len() > 0 by {
            assert(b.drop_first()[i] == b[i + 1]);
        }
        assert forall|i: int, k: int|
            0 <= i < a.drop_first().len() && 0 <= k < a.drop_first()[i].len() - 1 implies #[trigger] a.drop_first()[i][k] != '\n' by {
            assert(a.drop_first()[i] == a[i + 1]);
        }
        assert forall|i: int, k: int|
            0 <= i < b.drop_first().len() && 0 <= k < b.drop_first()[i].len() - 1 implies #[trigger] b.drop_first()[i][k] != '\n' by {
            assert(b.drop_first()[i] == b[i + 1]);
        }
        lemma_line_split_unique(rest, a.drop_first(), b.drop_first());
        assert(a =~= seq![x] + a.drop_first());
        assert(b =~= seq![y] + b.drop_first());
    }
}

/// Removing leading whitespace forgets however much of it there was: any run
/// of whitespace put in front of `s` is removed with it, and text that does
/// not start with whitespace is left as it is.
pub proof fn lemma_trim_start_drops_any_indent(w: Seq<char>, s: Seq<char>)
    requires
        forall|i: int| 0 <= i < w.len() ==> is_white_space(#[trigger] w[i]),
    ensures
        trim_start_chars(w + s) == trim_start_chars(s),
        s.len() == 0 || !is_white_space(s[0]) ==> trim_start_chars(s) == s,
    decreases w.len(),
{
    if w.len() > 0 {
        assert((w + s)[0] == w[0]);
        assert((w + s).drop_first() =~= w.drop_first() + s);
        lemma_trim_start_drops_any_indent(w.drop_first(), s);
    } else {
        assert(w + s =~= s);
    }
}

} // verus!
