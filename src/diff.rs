//! Unified-diff rendering of a change: hunks headed `@@ -a,b +c,d @@`, then the
//! lines of each hunk prefixed by `-`, `+` or a space.

use similar::ChangeTag;
use std::ops::Range;

use vstd::prelude::*;

use crate::text::{decimal, push_decimal};

verus! {

/// Unchanged lines shown around each change.
pub const DIFF_CONTEXT: usize = 5;

/// What a diff line does.
#[derive(Clone, Copy, Debug, PartialEq, Eq, Structural)]
pub enum LineTag {
    Equal,
    Delete,
    Insert,
}

/// One line of a diff, with its line terminator if it had one.
pub struct DiffLine {
    pub tag: LineTag,
    pub text: String,
    /// Whether the line is the last of its text and has no terminator.
    pub missing_newline: bool,
}

/// One operation of a diff: the ranges of old and new lines it covers, and its lines.
pub struct DiffOp {
    pub old_range: Range<usize>,
    pub new_range: Range<usize>,
    pub lines: Vec<DiffLine>,
}

pub struct DiffLineView {
    pub tag: LineTag,
    pub text: Seq<char>,
    pub missing_newline: bool,
}

pub struct DiffOpView {
    pub old_start: usize,
    pub old_end: usize,
    pub new_start: usize,
    pub new_end: usize,
    pub lines: Seq<DiffLineView>,
}

impl View for DiffLine {
    type V = DiffLineView;

    open spec fn view(&self) -> DiffLineView {
        DiffLineView { tag: self.tag, text: self.text@, missing_newline: self.missing_newline }
    }
}

impl View for DiffOp {
    type V = DiffOpView;

    open spec fn view(&self) -> DiffOpView {
        DiffOpView {
            old_start: self.old_range.start,
            old_end: self.old_range.end,
            new_start: self.new_range.start,
            new_end: self.new_range.end,
            lines: self.lines@.map_values(|l: DiffLine| l@),
        }
    }
}

/// The grouped operations as plain values.
pub open spec fn groups_view(groups: Seq<Vec<DiffOp>>) -> Seq<Seq<DiffOpView>> {
    groups.map_values(|g: Vec<DiffOp>| g@.map_values(|op: DiffOp| op@))
}

/// The line diff of `old` into `new`, as hunks of operations with `context` unchanged
/// lines kept around each change.
pub uninterp spec fn line_diff(old: Seq<char>, new: Seq<char>, context: nat) -> Seq<Seq<DiffOpView>>;

/// Relies on similar's TextDiff::from_lines, grouped_ops and iter_changes: the diff
/// of the two texts line by line, in hunks, each operation with its line ranges and
/// its lines; the result depends on the texts and `context` alone.
#[verifier::external_body]
fn grouped_line_diff(old: &str, new: &str, context: usize) -> (r: Vec<Vec<DiffOp>>)
    ensures
        groups_view(r@) == line_diff(old@, new@, context as nat),
{
    let diff = similar::TextDiff::from_lines(old, new);
    let tag = |t| match t {
        ChangeTag::Equal => LineTag::Equal,
        ChangeTag::Delete => LineTag::Delete,
        ChangeTag::Insert => LineTag::Insert,
    };
    diff.grouped_ops(context).iter().map(|g| g.iter().map(|op| DiffOp {
        old_range: op.old_range(),
        new_range: op.new_range(),
        lines: diff.iter_changes(op).map(|c| DiffLine { tag: tag(c.tag()), text: c.value().to_string(), missing_newline: c.missing_newline() }).collect(),
    }).collect()).collect()
}

/// The mark that starts a diff line.
pub open spec fn tag_mark(tag: LineTag) -> Seq<char> {
    match tag {
        LineTag::Delete => "-"@,
        LineTag::Insert => "+"@,
        LineTag::Equal => " "@,
    }
}

/// A rendered diff line: mark, text, and a terminator where the text had none.
pub open spec fn line_text(l: DiffLineView) -> Seq<char> {
    tag_mark(l.tag) + l.text + if l.missing_newline {
        "\n"@
    } else {
        Seq::empty()
    }
}

/// The rendered lines of one operation.
pub open spec fn lines_text(lines: Seq<DiffLineView>) -> Seq<char>
    decreases lines.len(),
{
    if lines.len() == 0 {
        Seq::empty()
    } else {
        lines_text(lines.drop_last()) + line_text(lines.last())
    }
}

/// The rendered lines of a run of operations.
pub open spec fn ops_text(ops: Seq<DiffOpView>) -> Seq<char>
    decreases ops.len(),
{
    if ops.len() == 0 {
        Seq::empty()
    } else {
        ops_text(ops.drop_last()) + lines_text(ops.last().lines)
    }
}

/// The length of a range, zero for a reversed one.
pub open spec fn span(start: usize, end: usize) -> nat {
    if start <= end {
        (end - start) as nat
    } else {
        0
    }
}

/// A hunk header: where the hunk starts in the old and the new text, and how many
/// lines it covers in each.
pub open spec fn hunk_header(first: DiffOpView, last: DiffOpView) -> Seq<char> {
    "@@ -"@ + decimal(first.old_start as nat) + ","@ + decimal(span(first.old_start, last.old_end)) + " +"@
        + decimal(first.new_start as nat) + ","@ + decimal(span(first.new_start, last.new_end)) + " @@\n"@
}

/// A rendered hunk: header and lines (nothing for an empty one).
pub open spec fn hunk_text(ops: Seq<DiffOpView>) -> Seq<char> {
    if ops.len() == 0 {
        Seq::empty()
    } else {
        hunk_header(ops[0], ops.last()) + ops_text(ops)
    }
}

/// A rendered diff: its hunks in order.
pub open spec fn diff_text(groups: Seq<Seq<DiffOpView>>) -> Seq<char>
    decreases groups.len(),
{
    if groups.len() == 0 {
        Seq::empty()
    } else {
        diff_text(groups.drop_last()) + hunk_text(groups.last())
    }
}

fn push_line(out: &mut String, line: &DiffLine)
    ensures
        final(out)@ == old(out)@ + line_text(line@),
{
    match line.tag {
        LineTag::Delete => out.append("-"),
        LineTag::Insert => out.append("+"),
        LineTag::Equal => out.append(" "),
    }
    out.append(line.text.as_str());
    if line.missing_newline {
        out.append("\n");
    }
    assert(final(out)@ =~= old(out)@ + line_text(line@));
}

fn push_op(out: &mut String, op: &DiffOp)
    ensures
        final(out)@ == old(out)@ + lines_text(op@.lines),
{
    let ghost start = out@;
    let mut i: usize = 0;
    while i < op.lines.len()
        invariant
            0 <= i <= op.lines@.len(),
            out@ == start + lines_text(op@.lines.take(i as int)),
        decreases op.lines.len() - i,
    {
        push_line(out, &op.lines[i]);
        proof {
            let lines = op@.lines;
            assert(lines.take(i as int + 1).drop_last() =~= lines.take(i as int));
            assert(out@ =~= start + lines_text(lines.take(i as int + 1)));
        }
        i = i + 1;
    }
    assert(op@.lines.take(i as int) =~= op@.lines);
}

fn push_span(out: &mut String, start: usize, end: usize)
    ensures
        final(out)@ == old(out)@ + decimal(span(start, end)),
{
    if start <= end {
        push_decimal(out, (end - start) as u64);
    } else {
        push_decimal(out, 0);
    }
}

fn push_hunk(out: &mut String, ops: &Vec<DiffOp>)
    ensures
        final(out)@ == old(out)@ + hunk_text(ops@.map_values(|op: DiffOp| op@)),
{
    let ghost views = ops@.map_values(|op: DiffOp| op@);
    let ghost start = out@;
    if ops.len() == 0 {
        assert(out@ =~= start + hunk_text(views));
        return;
    }
    let first = &ops[0];
    let last = &ops[ops.len() - 1];
    out.append("@@ -");
    push_decimal(out, first.old_range.start as u64);
    out.append(",");
    push_span(out, first.old_range.start, last.old_range.end);
    out.append(" +");
    push_decimal(out, first.new_range.start as u64);
    out.append(",");
    push_span(out, first.new_range.start, last.new_range.end);
    out.append(" @@\n");
    let ghost head = out@;
    assert(head =~= start + hunk_header(views[0], views.last()));
    let mut i: usize = 0;
    while i < ops.len()
        invariant
            0 <= i <= ops@.len(),
            views == ops@.map_values(|op: DiffOp| op@),
            out@ == head + ops_text(views.take(i as int)),
        decreases ops.len() - i,
    {
        push_op(out, &ops[i]);
        proof {
            assert(views.take(i as int + 1).drop_last() =~= views.take(i as int));
            assert(out@ =~= head + ops_text(views.take(i as int + 1)));
        }
        i = i + 1;
    }
    assert(views.take(i as int) =~= views);
    assert(out@ =~= start + hunk_text(views));
}

/// Renders grouped diff operations as a unified diff.
pub fn render_diff(groups: &Vec<Vec<DiffOp>>) -> (r: String)
    ensures
        r@ == diff_text(groups_view(groups@)),
{
    let ghost views = groups_view(groups@);
    let mut text = String::new();
    let mut i: usize = 0;
    while i < groups.len()
        invariant
            0 <= i <= groups@.len(),
            views == groups_view(groups@),
            text@ == diff_text(views.take(i as int)),
        decreases groups.len() - i,
    {
        push_hunk(&mut text, &groups[i]);
        proof {
            assert(views.take(i as int + 1).drop_last() =~= views.take(i as int));
            assert(views[i as int] == groups@[i as int]@.map_values(|op: DiffOp| op@));
            assert(text@ =~= diff_text(views.take(i as int + 1)));
        }
        i = i + 1;
    }
    assert(views.take(i as int) =~= views);
    text
}

/// The unified diff of `old` into `new`, with five lines of context.
pub fn get_diff(old: &str, new: &str) -> (r: String)
    ensures
        r@ == diff_text(line_diff(old@, new@, DIFF_CONTEXT as nat)),
{
    let groups = grouped_line_diff(old, new, DIFF_CONTEXT);
    render_diff(&groups)
}

} // verus!
