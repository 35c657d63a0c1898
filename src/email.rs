//! The diff that the mail channel renders: lines of a code block with a kind, the
//! line numbers, and HTML content where changed words are emphasised.

use similar::ChangeTag;
use std::ops::Range;

use vstd::prelude::*;

use crate::diff::{span, LineTag, DIFF_CONTEXT};
use crate::text::{decimal, push_decimal};

verus! {

/// A rendered diff: its lines in order.
pub struct CodeBlock {
    pub lines: Vec<CodeBlockLine>,
}

/// One line of a rendered diff.
pub struct CodeBlockLine {
    /// One of: summary, deletion, addition (empty for an unchanged line).
    pub kind: String,
    pub old_index: Option<usize>,
    pub new_index: Option<usize>,
    pub content: String,
}

pub struct CodeBlockLineView {
    pub kind: Seq<char>,
    pub old_index: Option<usize>,
    pub new_index: Option<usize>,
    pub content: Seq<char>,
}

impl View for CodeBlockLine {
    type V = CodeBlockLineView;

    open spec fn view(&self) -> CodeBlockLineView {
        CodeBlockLineView {
            kind: self.kind@,
            old_index: self.old_index,
            new_index: self.new_index,
            content: self.content@,
        }
    }
}

/// One changed line with inline highlights: its parts, each marked emphasised or not.
pub struct InlineChange {
    pub tag: LineTag,
    pub old_index: Option<usize>,
    pub new_index: Option<usize>,
    pub values: Vec<(bool, String)>,
}

/// One operation of an inline diff: its line ranges and its changed lines.
pub struct InlineOp {
    pub old_range: Range<usize>,
    pub new_range: Range<usize>,
    pub changes: Vec<InlineChange>,
}

pub struct InlineChangeView {
    pub tag: LineTag,
    pub old_index: Option<usize>,
    pub new_index: Option<usize>,
    pub values: Seq<(bool, Seq<char>)>,
}

pub struct InlineOpView {
    pub old_start: usize,
    pub old_end: usize,
    pub new_start: usize,
    pub new_end: usize,
    pub changes: Seq<InlineChangeView>,
}

impl View for InlineChange {
    type V = InlineChangeView;

    open spec fn view(&self) -> InlineChangeView {
        InlineChangeView {
            tag: self.tag,
            old_index: self.old_index,
            new_index: self.new_index,
            values: self.values@.map_values(|v: (bool, String)| (v.0, v.1@)),
        }
    }
}

impl View for InlineOp {
    type V = InlineOpView;

    open spec fn view(&self) -> InlineOpView {
        InlineOpView {
            old_start: self.old_range.start,
            old_end: self.old_range.end,
            new_start: self.new_range.start,
            new_end: self.new_range.end,
            changes: self.changes@.map_values(|c: InlineChange| c@),
        }
    }
}

/// The grouped inline operations as plain values.
pub open spec fn inline_groups_view(groups: Seq<Vec<InlineOp>>) -> Seq<Seq<InlineOpView>> {
    groups.map_values(|g: Vec<InlineOp>| g@.map_values(|op: InlineOp| op@))
}

/// The line diff of `old` into `new` with inline highlights, as hunks of operations
/// with `context` unchanged lines kept around each change.
pub uninterp spec fn inline_diff(old: Seq<char>, new: Seq<char>, context: nat) -> Seq<Seq<InlineOpView>>;

/// Relies on similar's TextDiff::from_lines, grouped_ops and iter_inline_changes_deadline
/// without a deadline: the diff of the two texts line by line, in hunks, each changed
/// line split into emphasised and plain parts. With no deadline the result depends on
/// the texts and `context` alone.
#[verifier::external_body]
fn grouped_inline_diff(old: &str, new: &str, context: usize) -> (r: Vec<Vec<InlineOp>>)
    ensures
        inline_groups_view(r@) == inline_diff(old@, new@, context as nat),
{
    let diff = similar::TextDiff::from_lines(old, new);
    let tag = |t| match t {
        ChangeTag::Equal => LineTag::Equal,
        ChangeTag::Delete => LineTag::Delete,
        ChangeTag::Insert => LineTag::Insert,
    };
    diff.grouped_ops(context).iter().map(|g| g.iter().map(|op| InlineOp {
        old_range: op.old_range(),
        new_range: op.new_range(),
        changes: diff.iter_inline_changes_deadline(op, None).map(|c| InlineChange { tag: tag(c.tag()), old_index: c.old_index(), new_index: c.new_index(),
            values: c.values().iter().map(|(e, v)| (*e, v.to_string())).collect() }).collect(),
    }).collect()).collect()
}

/// `s` with each space written as a non-breaking space entity.
pub open spec fn escape_spaces(s: Seq<char>) -> Seq<char>
    decreases s.len(),
{
    if s.len() == 0 {
        Seq::empty()
    } else {
        escape_spaces(s.drop_last()) + if s.last() == ' ' {
            "&nbsp;"@
        } else {
            seq![s.last()]
        }
    }
}

/// One part of a changed line: escaped, and wrapped in a highlight when emphasised.
pub open spec fn part_text(part: (bool, Seq<char>)) -> Seq<char> {
    if part.0 {
        "<span class=\"emphasized\">"@ + escape_spaces(part.1) + "</span>"@
    } else {
        escape_spaces(part.1)
    }
}

/// The parts of a changed line, rendered in order.
pub open spec fn parts_text(parts: Seq<(bool, Seq<char>)>) -> Seq<char>
    decreases parts.len(),
{
    if parts.len() == 0 {
        Seq::empty()
    } else {
        parts_text(parts.drop_last()) + part_text(parts.last())
    }
}

/// The kind of a code block line for a tag.
pub open spec fn kind_of(tag: LineTag) -> Seq<char> {
    match tag {
        LineTag::Delete => "deletion"@,
        LineTag::Insert => "addition"@,
        LineTag::Equal => ""@,
    }
}

/// The sign that starts a code block line for a tag.
pub open spec fn sign_of(tag: LineTag) -> Seq<char> {
    match tag {
        LineTag::Delete => "-"@,
        LineTag::Insert => "+"@,
        LineTag::Equal => "&nbsp;"@,
    }
}

/// The code block line of a changed line.
pub open spec fn change_line(c: InlineChangeView) -> CodeBlockLineView {
    CodeBlockLineView {
        kind: kind_of(c.tag),
        old_index: c.old_index,
        new_index: c.new_index,
        content: sign_of(c.tag) + parts_text(c.values),
    }
}

/// The summary line that opens a hunk.
pub open spec fn summary_line(first: InlineOpView, last: InlineOpView) -> CodeBlockLineView {
    CodeBlockLineView {
        kind: "summary"@,
        old_index: None,
        new_index: None,
        content: "@@ -"@ + decimal(first.old_start as nat) + ","@ + decimal(span(first.old_start, last.old_end))
            + " +"@ + decimal(first.new_start as nat) + ","@ + decimal(span(first.new_start, last.new_end)) + " @@"@,
    }
}

/// The code block lines of a run of changed lines.
pub open spec fn changes_lines(changes: Seq<InlineChangeView>) -> Seq<CodeBlockLineView> {
    changes.map_values(|c: InlineChangeView| change_line(c))
}

/// The code block lines of a run of operations.
pub open spec fn ops_lines(ops: Seq<InlineOpView>) -> Seq<CodeBlockLineView>
    decreases ops.len(),
{
    if ops.len() == 0 {
        Seq::empty()
    } else {
        ops_lines(ops.drop_last()) + changes_lines(ops.last().changes)
    }
}

/// The code block lines of a hunk: its summary, then its changed lines.
pub open spec fn hunk_lines(ops: Seq<InlineOpView>) -> Seq<CodeBlockLineView> {
    if ops.len() == 0 {
        Seq::empty()
    } else {
        seq![summary_line(ops[0], ops.last())] + ops_lines(ops)
    }
}

/// The code block lines of a whole diff.
pub open spec fn block_lines(groups: Seq<Seq<InlineOpView>>) -> Seq<CodeBlockLineView>
    decreases groups.len(),
{
    if groups.len() == 0 {
        Seq::empty()
    } else {
        block_lines(groups.drop_last()) + hunk_lines(groups.last())
    }
}

/// The lines of a code block as plain values.
pub open spec fn lines_view(lines: Seq<CodeBlockLine>) -> Seq<CodeBlockLineView> {
    lines.map_values(|l: CodeBlockLine| l@)
}

fn push_escaped(out: &mut String, s: &str)
    ensures
        final(out)@ == old(out)@ + escape_spaces(s@),
{
    let ghost start = out@;
    let n = s.unicode_len();
    let mut i: usize = 0;
    while i < n
        invariant
            n == s@.len(),
            0 <= i <= n,
            out@ == start + escape_spaces(s@.take(i as int)),
        decreases n - i,
    {
        let c = s.get_char(i);
        let piece = s.substring_char(i, i + 1);
        if c == ' ' {
            out.append("&nbsp;");
        } else {
            out.append(piece);
        }
        proof {
            assert(s@.take(i as int + 1).drop_last() =~= s@.take(i as int));
            assert(piece@ =~= seq![c]);
            assert(out@ =~= start + escape_spaces(s@.take(i as int + 1)));
        }
        i = i + 1;
    }
    assert(s@.take(i as int) =~= s@);
}

fn change_to_line(c: &InlineChange) -> (r: CodeBlockLine)
    ensures
        r@ == change_line(c@),
{
    let (kind, sign) = match c.tag {
        LineTag::Delete => ("deletion", "-"),
        LineTag::Insert => ("addition", "+"),
        LineTag::Equal => ("", "&nbsp;"),
    };
    let mut content = String::from_str(sign);
    let ghost head = content@;
    let ghost parts = c@.values;
    let mut i: usize = 0;
    while i < c.values.len()
        invariant
            0 <= i <= c.values@.len(),
            parts == c@.values,
            content@ == head + parts_text(parts.take(i as int)),
        decreases c.values.len() - i,
    {
        let (emphasized, value) = &c.values[i];
        if *emphasized {
            content.append("<span class=\"emphasized\">");
            push_escaped(&mut content, value.as_str());
            content.append("</span>");
        } else {
            push_escaped(&mut content, value.as_str());
        }
        proof {
            assert(parts.take(i as int + 1).drop_last() =~= parts.take(i as int));
            assert(content@ =~= head + parts_text(parts.take(i as int + 1)));
        }
        i = i + 1;
    }
    assert(parts.take(i as int) =~= parts);
    CodeBlockLine {
        kind: String::from_str(kind),
        old_index: c.old_index,
        new_index: c.new_index,
        content,
    }
}

fn push_span(out: &mut String, start: usize, end: usize)
    ensures
        final(out)@ == old(out)@ + decimal(span(start, end)),
{
    if start <= end {
        push_decimal(out, (end - start) as u64);
    } else {
        push_decimal(out, 0);
    }
}

fn summary(first: &InlineOp, last: &InlineOp) -> (r: CodeBlockLine)
    ensures
        r@ == summary_line(first@, last@),
{
    let mut content = String::from_str("@@ -");
    push_decimal(&mut content, first.old_range.start as u64);
    content.append(",");
    push_span(&mut content, first.old_range.start, last.old_range.end);
    content.append(" +");
    push_decimal(&mut content, first.new_range.start as u64);
    content.append(",");
    push_span(&mut content, first.new_range.start, last.new_range.end);
    content.append(" @@");
    let r = CodeBlockLine { kind: String::from_str("summary"), old_index: None, new_index: None, content };
    assert(r@.content =~= summary_line(first@, last@).content);
    r
}

fn push_hunk_lines(lines: &mut Vec<CodeBlockLine>, ops: &Vec<InlineOp>)
    ensures
        lines_view(final(lines)@) == lines_view(old(lines)@) + hunk_lines(ops@.map_values(|op: InlineOp| op@)),
{
    let ghost views = ops@.map_values(|op: InlineOp| op@);
    let ghost start = lines_view(lines@);
    if ops.len() == 0 {
        assert(lines_view(lines@) =~= start + hunk_lines(views));
        return;
    }
    lines.push(summary(&ops[0], &ops[ops.len() - 1]));
    let ghost head = lines_view(lines@);
    assert(head =~= start + seq![summary_line(views[0], views.last())]);
    let mut i: usize = 0;
    while i < ops.len()
        invariant
            0 <= i <= ops@.len(),
            views == ops@.map_values(|op: InlineOp| op@),
            lines_view(lines@) == head + ops_lines(views.take(i as int)),
        decreases ops.len() - i,
    {
        let ghost before = lines_view(lines@);
        let op = &ops[i];
        let mut j: usize = 0;
        while j < op.changes.len()
            invariant
                0 <= j <= op.changes@.len(),
                lines_view(lines@) == before + changes_lines(op@.changes.take(j as int)),
            decreases op.changes.len() - j,
        {
            let ghost prev = lines@;
            let line = change_to_line(&op.changes[j]);
            lines.push(line);
            proof {
                assert(op@.changes[j as int] == op.changes@[j as int]@);
                assert(lines_view(lines@) =~= lines_view(prev).push(line@));
                assert(changes_lines(op@.changes.take(j as int + 1)) =~= changes_lines(
                    op@.changes.take(j as int),
                ).push(change_line(op@.changes[j as int])));
                assert(lines_view(lines@) =~= before + changes_lines(op@.changes.take(j as int + 1)));
            }
            j = j + 1;
        }
        proof {
            assert(op@.changes.take(j as int) =~= op@.changes);
            assert(views.take(i as int + 1).drop_last() =~= views.take(i as int));
            assert(views[i as int] == op@);
            assert(lines_view(lines@) =~= head + ops_lines(views.take(i as int + 1)));
        }
        i = i + 1;
    }
    assert(views.take(i as int) =~= views);
    assert(lines_view(lines@) =~= start + hunk_lines(views));
}

/// Renders grouped inline operations as code block lines.
pub fn render_code_block(groups: &Vec<Vec<InlineOp>>) -> (r: CodeBlock)
    ensures
        lines_view(r.lines@) == block_lines(inline_groups_view(groups@)),
{
    let ghost views = inline_groups_view(groups@);
    let mut lines: Vec<CodeBlockLine> = Vec::new();
    let mut i: usize = 0;
    while i < groups.len()
        invariant
            0 <= i <= groups@.len(),
            views == inline_groups_view(groups@),
            lines_view(lines@) == block_lines(views.take(i as int)),
        decreases groups.len() - i,
    {
        push_hunk_lines(&mut lines, &groups[i]);
        proof {
            assert(views.take(i as int + 1).drop_last() =~= views.take(i as int));
            assert(views[i as int] == groups@[i as int]@.map_values(|op: InlineOp| op@));
            assert(lines_view(lines@) =~= block_lines(views.take(i as int + 1)));
        }
        i = i + 1;
    }
    assert(views.take(i as int) =~= views);
    CodeBlock { lines }
}

/// The code block of the change from `old` to `new`, with five lines of context.
pub fn code_block(old: &str, new: &str) -> (r: CodeBlock)
    ensures
        lines_view(r.lines@) == block_lines(inline_diff(old@, new@, DIFF_CONTEXT as nat)),
{
    let groups = grouped_inline_diff(old, new, DIFF_CONTEXT);
    render_code_block(&groups)
}

} // verus!
