//! Heading-aware outline re-indenter.
//!
//! An outline document encodes heading depth by a run of leading `*`
//! characters.  Body lines are re-indented so that they nest visually under
//! the most recently seen heading: a body line below a heading of level `L`
//! gains `L + 1` leading spaces.  Headings and exactly-empty lines are
//! emitted unchanged.

use vstd::prelude::*;

verus! {

/// A line is a heading when its first character is the `*` marker.  No space
/// needs to follow the marker: `"*text"` counts as a level-1 heading.
pub open spec fn spec_is_heading(s: Seq<char>) -> bool {
    s.len() > 0 && s[0] == '*'
}

/// The number of consecutive `*` characters at the start of a line.
pub open spec fn spec_star_count(s: Seq<char>) -> nat
    decreases s.len(),
{
    if s.len() > 0 && s[0] == '*' {
        1 + spec_star_count(s.skip(1))
    } else {
        0
    }
}

/// A line's leading-star count never exceeds its length.
pub proof fn lemma_star_count_le_len(s: Seq<char>)
    ensures
        spec_star_count(s) <= s.len(),
    decreases s.len(),
{
    if s.len() > 0 && s[0] == '*' {
        lemma_star_count_le_len(s.skip(1));
    }
}

/// If the first `i` characters of `s` are `*` and either the line ends there
/// or the next character is not `*`, the leading-star count is exactly `i`.
proof fn lemma_star_count_exact(s: Seq<char>, i: int)
    requires
        0 <= i <= s.len(),
        forall|j: int| 0 <= j < i ==> s[j] == '*',
        i == s.len() || s[i] != '*',
    ensures
        spec_star_count(s) == i,
    decreases i,
{
    if i == 0 {
        assert(s.len() == 0 || s[0] != '*');
    } else {
        assert(s[0] == '*');
        lemma_star_count_exact(s.skip(1), i - 1);
    }
}

/// Returns the level of the org heading for a line.
///
/// If the line is not an org heading (its first character is not `*`),
/// `None` is returned.
pub fn heading_level(line: &str) -> (r: Option<usize>)
    ensures
        r is Some <==> spec_is_heading(line@),
        r matches Some(l) ==> l == spec_star_count(line@) && l <= line@.len(),
{
    let len = line.unicode_len();
    if len == 0 || line.get_char(0) != '*' {
        None
    } else {
        let mut i: usize = 0;
        while i < len && line.get_char(i) == '*'
            invariant
                len == line@.len(),
                0 <= i <= len,
                forall|j: int| 0 <= j < i ==> line@[j] == '*',
            decreases len - i,
        {
            i = i + 1;
        }
        proof {
            lemma_star_count_exact(line@, i as int);
            lemma_star_count_le_len(line@);
        }
        Some(i)
    }
}

/// The heading level carried across a pass, as a mathematical value.
pub open spec fn opt_level_view(level: Option<usize>) -> Option<nat> {
    match level {
        Some(l) => Some(l as nat),
        None => None,
    }
}

/// The indent width owed to a body line: `level + 1` under a heading of
/// level `level`, and `0` when no heading has been seen yet.
pub open spec fn spec_indent_width(level: Option<nat>) -> nat {
    match level {
        Some(l) => l + 1,
        None => 0,
    }
}

/// A line with `width` spaces prepended; the original content is untouched.
pub open spec fn spec_indent_line(line: Seq<char>, width: nat) -> Seq<char> {
    Seq::new(width, |i: int| ' ') + line
}

/// What one pass emits for `line` when the most recent heading level is
/// `level`: headings and exactly-empty lines are unchanged, every other line
/// gains the indent width owed under `level`.
pub open spec fn spec_emit_line(line: Seq<char>, level: Option<nat>) -> Seq<char> {
    if spec_is_heading(line) {
        line
    } else if line.len() == 0 {
        line
    } else {
        spec_indent_line(line, spec_indent_width(level))
    }
}

/// The heading level carried past `line`: a heading replaces the level with
/// its own, any other line leaves it as it was.
pub open spec fn spec_next_level(line: Seq<char>, level: Option<nat>) -> Option<nat> {
    if spec_is_heading(line) {
        Some(spec_star_count(line))
    } else {
        level
    }
}

/// The heading level in effect just before line `i`: the level of the most
/// recent heading among lines `0 .. i`, or `None` when there is none.
pub open spec fn spec_level_at(lines: Seq<Seq<char>>, i: int) -> Option<nat>
    decreases i,
{
    if i <= 0 {
        None
    } else {
        spec_next_level(lines[i - 1], spec_level_at(lines, i - 1))
    }
}

/// The whole transform: same length and order as the input, each line
/// emitted under the heading level in effect where it stands.
pub open spec fn spec_reindent(lines: Seq<Seq<char>>) -> Seq<Seq<char>> {
    Seq::new(lines.len(), |i: int| spec_emit_line(lines[i], spec_level_at(lines, i)))
}

/// The transform never changes the number of lines, and emits them in input
/// order: the line at index `i` of the output comes from the line at index
/// `i` of the input.
pub proof fn lemma_reindent_preserves_len(lines: Seq<Seq<char>>)
    ensures
        spec_reindent(lines).len() == lines.len(),
        forall|i: int|
            0 <= i < lines.len() ==> #[trigger] spec_reindent(lines)[i] == spec_emit_line(
                lines[i],
                spec_level_at(lines, i),
            ),
{
}

/// A heading line is always emitted unchanged.
pub proof fn lemma_heading_line_unchanged(lines: Seq<Seq<char>>, i: int)
    requires
        0 <= i < lines.len(),
        spec_is_heading(lines[i]),
    ensures
        spec_reindent(lines)[i] == lines[i],
{
}

/// An exactly-empty line is always emitted unchanged (and in particular
/// stays empty).
pub proof fn lemma_blank_line_unchanged(lines: Seq<Seq<char>>, i: int)
    requires
        0 <= i < lines.len(),
        lines[i].len() == 0,
    ensures
        spec_reindent(lines)[i] == lines[i],
        spec_reindent(lines)[i].len() == 0,
{
}

/// While no heading occurs in `lines[0 .. i]`, the carried level stays
/// undefined at `i`.
proof fn lemma_level_none_without_heading(lines: Seq<Seq<char>>, i: int)
    requires
        0 <= i <= lines.len(),
        forall|j: int| 0 <= j < i ==> !spec_is_heading(#[trigger] lines[j]),
    ensures
        spec_level_at(lines, i) is None,
    decreases i,
{
    if i > 0 {
        lemma_level_none_without_heading(lines, i - 1);
    }
}

/// A line with no heading anywhere above it is emitted unchanged, whatever
/// it holds.
pub proof fn lemma_line_before_any_heading_unchanged(lines: Seq<Seq<char>>, i: int)
    requires
        0 <= i < lines.len(),
        forall|j: int| 0 <= j < i ==> !spec_is_heading(#[trigger] lines[j]),
    ensures
        spec_reindent(lines)[i] == lines[i],
{
    lemma_level_none_without_heading(lines, i);
    if !spec_is_heading(lines[i]) && lines[i].len() > 0 {
        assert(spec_indent_line(lines[i], 0) =~= lines[i]);
    }
}

/// The level in effect just after a heading at `h`, with no later heading up
/// to `i`, is the level of that heading.
proof fn lemma_level_after_heading(lines: Seq<Seq<char>>, h: int, i: int)
    requires
        0 <= h < i <= lines.len(),
        spec_is_heading(lines[h]),
        forall|j: int| h < j < i ==> !spec_is_heading(#[trigger] lines[j]),
    ensures
        spec_level_at(lines, i) == Some(spec_star_count(lines[h])),
    decreases i,
{
    if i - 1 > h {
        lemma_level_after_heading(lines, h, i - 1);
    }
}

/// A body line whose nearest heading above stands at `h` with level `L` is
/// emitted as `L + 1` spaces followed by the original line.
pub proof fn lemma_body_line_under_heading(lines: Seq<Seq<char>>, h: int, i: int)
    requires
        0 <= h < i < lines.len(),
        spec_is_heading(lines[h]),
        forall|j: int| h < j < i ==> !spec_is_heading(#[trigger] lines[j]),
        !spec_is_heading(lines[i]),
        lines[i].len() > 0,
    ensures
        spec_reindent(lines)[i] == spec_indent_line(lines[i], spec_star_count(lines[h]) + 1),
{
    lemma_level_after_heading(lines, h, i);
}

/// Returns the indent (number of spaces) owed under an org heading level.
pub fn level_to_indent(level: &Option<usize>) -> (r: usize)
    requires
        *level matches Some(l) ==> l < usize::MAX,
    ensures
        r == spec_indent_width(opt_level_view(*level)),
{
    match level {
        Some(num_asterisk) => *num_asterisk + 1,
        None => 0,
    }
}

/// Returns an indented line given the line and indent (number of spaces).
pub fn indent_line(line: &String, indent: usize) -> (r: String)
    ensures
        r@ == spec_indent_line(line@, indent as nat),
{
    let mut r = String::new();
    let mut i: usize = 0;
    while i < indent
        invariant
            i <= indent,
            r@ == Seq::new(i as nat, |k: int| ' '),
        decreases indent - i,
    {
        crate::strutil::push_char(&mut r, ' ');
        i = i + 1;
        proof {
            assert(r@ =~= Seq::new(i as nat, |k: int| ' '));
        }
    }
    r.append(line.as_str());
    r
}

/// Returns the lines hard-indented to the headings of an org document.
///
/// The result has the same length and order as the input; headings and
/// exactly-empty lines are kept as they are, and every other line gains
/// `L + 1` leading spaces, `L` being the level of the most recent heading
/// above it (none seen: no spaces are added).
pub fn hard_indent_org(lines: &Vec<String>) -> (r: Vec<String>)
    requires
        forall|i: int| 0 <= i < lines@.len() ==> (#[trigger] lines@[i])@.len() < usize::MAX,
    ensures
        r.deep_view() == spec_reindent(lines.deep_view()),
        r@.len() == lines@.len(),
{
    let ghost ldv = lines.deep_view();
    proof {
        assert(forall|j: int| 0 <= j < lines@.len() ==> ldv[j] == (#[trigger] lines@[j])@);
    }
    let n = lines.len();
    let mut result: Vec<String> = Vec::new();
    let mut curr_level: Option<usize> = None;
    let mut idx: usize = 0;
    while idx < n
        invariant
            n == lines@.len(),
            ldv == lines.deep_view(),
            ldv.len() == n,
            forall|j: int| 0 <= j < n ==> ldv[j] == (#[trigger] lines@[j])@,
            forall|j: int| 0 <= j < n ==> (#[trigger] lines@[j])@.len() < usize::MAX,
            idx <= n,
            result@.len() == idx,
            forall|j: int|
                0 <= j < idx ==> (#[trigger] result@[j])@ == spec_emit_line(
                    ldv[j],
                    spec_level_at(ldv, j),
                ),
            opt_level_view(curr_level) == spec_level_at(ldv, idx as int),
            curr_level matches Some(l) ==> l < usize::MAX,
        decreases n - idx,
    {
        let line = &lines[idx];
        match heading_level(line.as_str()) {
            Some(level) => {
                curr_level = Some(level);
                result.push(line.clone());
            },
            None => {
                if line.as_str().is_empty() {
                    result.push(line.clone());
                } else {
                    let indent = level_to_indent(&curr_level);
                    result.push(indent_line(line, indent));
                }
            },
        }
        idx = idx + 1;
    }
    proof {
        assert(result.deep_view() =~= spec_reindent(ldv));
    }
    result
}

/// The `indent` subcommand's decision: with the standard-input mode selected
/// the given lines are re-indented; any other mode is reported as
/// unsupported.
pub fn execute(stdin: bool, lines: &Vec<String>) -> (r: Result<Vec<String>, String>)
    requires
        forall|i: int| 0 <= i < lines@.len() ==> (#[trigger] lines@[i])@.len() < usize::MAX,
    ensures
        stdin ==> (r matches Ok(out) && out.deep_view() == spec_reindent(lines.deep_view())),
        !stdin ==> (r matches Err(e) && e@
            == "File support not implemented. Please use --stdin for now"@),
{
    if stdin {
        let output_lines = hard_indent_org(lines);
        Ok(output_lines)
    } else {
        let errmsg = String::from_str("File support not implemented. Please use --stdin for now");
        Err(errmsg)
    }
}

} // verus!
