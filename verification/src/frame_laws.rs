//! The layout of the frame: where the title, the borders and each content
//! line stand in it, whatever their lengths.
use vstd::prelude::*;

use crate::frame::{border, frame, framed_lines};

verus! {

/// The length that the content lines take in a frame: each line with its
/// line break and its two bars.
pub open spec fn content_len(lines: Seq<Seq<char>>) -> nat
    decreases lines.len(),
{
    if lines.len() == 0 {
        0
    } else {
        content_len(lines.drop_last()) + lines.last().len() + 3
    }
}

/// Where the line break before content line `i` stands in the frame.
pub open spec fn line_start(title: Seq<char>, width: nat, lines: Seq<Seq<char>>, i: int) -> int {
    (2 + title.len() + width + 3 + content_len(lines.take(i))) as int
}

proof fn lemma_framed_len(lines: Seq<Seq<char>>)
    ensures
        framed_lines(lines).len() == content_len(lines),
    decreases lines.len(),
{
    if lines.len() > 0 {
        lemma_framed_len(lines.drop_last());
    }
}

proof fn lemma_framed_prefix(lines: Seq<Seq<char>>, k: int)
    requires
        0 <= k <= lines.len(),
    ensures
        framed_lines(lines.take(k)).len() <= framed_lines(lines).len(),
        framed_lines(lines).subrange(0, framed_lines(lines.take(k)).len() as int) == framed_lines(
            lines.take(k),
        ),
    decreases lines.len(),
{
    if k == lines.len() {
        assert(lines.take(k) =~= lines);
    } else {
        let prev = lines.drop_last();
        assert(prev.take(k) =~= lines.take(k));
        lemma_framed_prefix(prev, k);
        let whole = framed_lines(lines);
        let head = framed_lines(prev);
        assert(whole == head + seq!['\n', '|'] + lines.last() + seq!['|']);
        assert(whole.subrange(0, framed_lines(lines.take(k)).len() as int) =~= head.subrange(
            0,
            framed_lines(lines.take(k)).len() as int,
        ));
    }
}

/// The frame is `"> "`, the title and the top border, then every content
/// line, whole and in order, after a line break and a bar and before a bar,
/// then the bottom border; nothing else.
pub proof fn law_frame_layout(title: Seq<char>, width: nat, lines: Seq<Seq<char>>, i: int)
    requires
        0 <= i < lines.len(),
    ensures
        frame(title, width, lines).len() == 2 + title.len() + 2 * (width + 3) + content_len(lines),
        frame(title, width, lines).subrange(0, (2 + title.len() + width + 3) as int) == seq!['>', ' ']
            + title + border(width),
        frame(title, width, lines).subrange(
            (2 + title.len() + width + 3 + content_len(lines)) as int,
            frame(title, width, lines).len() as int,
        ) == border(width),
        frame(title, width, lines).subrange(
            line_start(title, width, lines, i),
            line_start(title, width, lines, i) + lines[i].len() as int + 3,
        ) == seq!['\n', '|'] + lines[i] + seq!['|'],
{
    let f = frame(title, width, lines);
    let head = seq!['>', ' '] + title + border(width);
    let body = framed_lines(lines);
    lemma_framed_len(lines);
    assert(border(width).len() == width + 3);
    assert(f == head + body + border(width));
    assert(f.subrange(0, head.len() as int) =~= head);
    assert(f.subrange((head.len() + body.len()) as int, f.len() as int) =~= border(width));
    lemma_framed_prefix(lines, i + 1);
    let upto = lines.take(i + 1);
    assert(upto.drop_last() =~= lines.take(i));
    assert(upto.last() == lines[i]);
    lemma_framed_len(lines.take(i));
    let before = framed_lines(lines.take(i));
    assert(framed_lines(upto) == before + seq!['\n', '|'] + lines[i] + seq!['|']);
    let s = (head.len() + before.len()) as int;
    let pre = framed_lines(upto);
    let a = before.len() as int;
    let b = (before.len() + lines[i].len() + 3) as int;
    assert(pre.subrange(a, b) =~= seq!['\n', '|'] + lines[i] + seq!['|']);
    assert(body.subrange(0, pre.len() as int) == pre);
    assert(body.subrange(a, b) =~= body.subrange(0, pre.len() as int).subrange(a, b));
    assert(f.subrange(s, s + lines[i].len() as int + 3) =~= body.subrange(
        before.len() as int,
        (before.len() + lines[i].len() + 3) as int,
    ));
}

} // verus!
