//! The text frame that the window prints: a title line, then the content
//! lines between two borders, each line between two bars.
use vstd::prelude::*;

verus! {

/// `n` dashes.
pub open spec fn dashes(n: nat) -> Seq<char> {
    Seq::new(n, |i: int| '-')
}

/// A border line of a frame `width` cells wide, with the line break before it.
pub open spec fn border(width: nat) -> Seq<char> {
    seq!['\n', '+'] + dashes(width) + seq!['+']
}

/// The content lines, each on a line of its own between two bars.
pub open spec fn framed_lines(lines: Seq<Seq<char>>) -> Seq<char>
    decreases lines.len(),
{
    if lines.len() == 0 {
        Seq::empty()
    } else {
        framed_lines(lines.drop_last()) + seq!['\n', '|'] + lines.last() + seq!['|']
    }
}

/// The whole frame: the title after `"> "`, the top border, the content
/// lines and the bottom border.
pub open spec fn frame(title: Seq<char>, width: nat, lines: Seq<Seq<char>>) -> Seq<char> {
    seq!['>', ' '] + title + border(width) + framed_lines(lines) + border(width)
}

/// The views of a list of strings.
pub open spec fn lines_view(lines: Seq<String>) -> Seq<Seq<char>> {
    lines.map_values(|l: String| l@)
}

/// Appends a border line of `width` dashes to `text`.
fn push_border(text: &mut String, width: usize)
    ensures
        final(text)@ == old(text)@ + border(width as nat),
{
    proof {
        reveal_strlit("\n+");
        reveal_strlit("-");
        reveal_strlit("+");
    }
    text.append("\n+");
    let ghost start = old(text)@ + seq!['\n', '+'];
    assert(text@ =~= start + dashes(0));
    let mut i: usize = 0;
    while i < width
        invariant
            i <= width,
            text@ == start + dashes(i as nat),
            "-"@ == seq!['-'],
        decreases width - i,
    {
        text.append("-");
        assert(start + dashes((i + 1) as nat) =~= start + dashes(i as nat) + seq!['-']);
        i = i + 1;
    }
    text.append("+");
    assert(text@ =~= old(text)@ + border(width as nat));
}

/// Builds the frame for the window title `title`, a content width of
/// `width` cells and the content `lines`.
pub fn compose_frame(title: &str, width: usize, lines: &Vec<String>) -> (text: String)
    ensures
        text@ == frame(title@, width as nat, lines_view(lines@)),
{
    proof {
        reveal_strlit("> ");
        reveal_strlit("\n|");
        reveal_strlit("|");
    }
    let mut text = String::from_str("> ");
    text.append(title);
    push_border(&mut text, width);
    let ghost head = text@;
    let ghost all = lines_view(lines@);
    assert(all.take(0) =~= Seq::<Seq<char>>::empty());
    assert(text@ =~= head + framed_lines(all.take(0)));
    let mut i: usize = 0;
    while i < lines.len()
        invariant
            i <= lines.len(),
            all == lines_view(lines@),
            text@ == head + framed_lines(all.take(i as int)),
            "\n|"@ == seq!['\n', '|'],
            "|"@ == seq!['|'],
        decreases lines.len() - i,
    {
        text.append("\n|");
        text.append(lines[i].as_str());
        text.append("|");
        assert(all.take(i + 1).drop_last() =~= all.take(i as int));
        assert(all.take(i + 1).last() == lines@[i as int]@);
        assert(text@ =~= head + framed_lines(all.take(i + 1)));
        i = i + 1;
    }
    assert(all.take(lines.len() as int) =~= all);
    push_border(&mut text, width);
    assert(text@ =~= frame(title@, width as nat, all));
    text
}

} // verus!
