use vstd::prelude::*;
use crate::text::{strings_view, joined, join_strings, spaces, padded, pad_to};

verus! {

/// A line of a mode's help menu: a key with its other keys and what it does,
/// or a paragraph of text.
#[derive(Debug, Clone, PartialEq, Eq)]
pub enum HelpMenuLine {
    KeyMap(String, Vec<String>, String),
    Paragraph(String),
}

/// The abstract value of a [`HelpMenuLine`].
pub enum HelpLineView {
    KeyMap(Seq<char>, Seq<Seq<char>>, Seq<char>),
    Paragraph(Seq<char>),
}

/// A help line, taken by its texts.
pub open spec fn help_line_view(line: HelpMenuLine) -> HelpLineView {
    match line {
        HelpMenuLine::KeyMap(k, remaps, h) => HelpLineView::KeyMap(k@, strings_view(remaps@), h@),
        HelpMenuLine::Paragraph(p) => HelpLineView::Paragraph(p@),
    }
}

/// Help lines, each taken by its texts.
pub open spec fn help_lines_view(lines: Seq<HelpMenuLine>) -> Seq<HelpLineView> {
    lines.map_values(|l: HelpMenuLine| help_line_view(l))
}

/// The text of a help line: a paragraph is indented with a tab; a key line has
/// the key padded to 15 characters, its other keys joined by `, ` and padded
/// to 25, and the help, separated by ` | `.
pub open spec fn line_view_text(line: HelpLineView) -> Seq<char> {
    match line {
        HelpLineView::Paragraph(p) => seq!['\t'] + p + seq!['\n'],
        HelpLineView::KeyMap(k, remaps, h) => seq![' '] + padded(k, 15) + seq![' ', '|', ' ']
            + padded(joined(remaps, seq![',', ' ']), 25) + seq![' ', '|', ' '] + h
            + seq!['\n'],
    }
}

/// The text of a help line (see [`line_view_text`]).
pub open spec fn help_line_text(line: HelpMenuLine) -> Seq<char> {
    line_view_text(help_line_view(line))
}

/// The text of a help line (see [`help_line_text`]).
pub fn help_line(line: &HelpMenuLine) -> (r: String)
    ensures
        r@ == help_line_text(*line),
{
    proof {
        reveal_strlit("\t");
        reveal_strlit("\n");
        reveal_strlit(" ");
        reveal_strlit(" | ");
        reveal_strlit(", ");
    }
    match line {
        HelpMenuLine::Paragraph(p) => {
            let mut s = String::from_str("\t");
            s.append(p.as_str());
            s.append("\n");
            assert(s@ =~= help_line_text(*line));
            s
        },
        HelpMenuLine::KeyMap(k, remaps, h) => {
            let mut s = String::from_str(" ");
            let kp = pad_to(k.as_str(), 15);
            s.append(kp.as_str());
            s.append(" | ");
            let rs = join_strings(remaps, ", ");
            let rp = pad_to(rs.as_str(), 25);
            s.append(rp.as_str());
            s.append(" | ");
            s.append(h.as_str());
            s.append("\n");
            assert(", "@ =~= seq![',', ' ']);
            assert(" | "@ =~= seq![' ', '|', ' ']);
            assert(s@ =~= help_line_text(*line));
            s
        },
    }
}

/// The header of a mode's section in the help menu.
pub open spec fn section_header() -> Seq<char> {
    seq!['\n', '\n'] + seq![' ', 'k', 'e', 'y'] + spaces(13) + seq!['|', ' ', 'r', 'e', 'm', 'a', 'p', 's']
        + spaces(20) + seq!['|', ' ', 'a', 'c', 't', 'i', 'o', 'n', '\n', ' '] + Seq::new(15, |i: int| '-')
        + seq![' ', '|', ' '] + Seq::new(25, |i: int| '-') + seq![' ', '|', ' '] + Seq::new(6, |i: int| '-')
        + seq!['\n']
}

/// The text of all help lines, one after the other.
pub open spec fn help_lines_text(lines: Seq<HelpLineView>) -> Seq<char>
    decreases lines.len(),
{
    if lines.len() == 0 {
        Seq::empty()
    } else {
        help_lines_text(lines.drop_last()) + line_view_text(lines.last())
    }
}

/// A mode's section of the help menu: `### <name>`, the table header, the
/// lines, and a blank line.
pub open spec fn section_text(name: Seq<char>, lines: Seq<HelpLineView>) -> Seq<char> {
    seq!['#', '#', '#', ' '] + name + section_header() + help_lines_text(lines) + seq!['\n']
}

/// A mode's section of the help menu (see [`section_text`]).
pub fn help_section(name: &str, lines: &Vec<HelpMenuLine>) -> (r: String)
    ensures
        r@ == section_text(name@, help_lines_view(lines@)),
{
    let header = "\n\n key             | remaps                    | action\n --------------- | ------------------------- | ------\n";
    proof {
        reveal_strlit("### ");
        reveal_strlit("\n");
        reveal_strlit("\n\n key             | remaps                    | action\n --------------- | ------------------------- | ------\n");
        assert(header@ =~= section_header());
    }
    let mut body = String::new();
    let mut i: usize = 0;
    while i < lines.len()
        invariant
            i <= lines.len(),
            body@ == help_lines_text(help_lines_view(lines@.take(i as int))),
        decreases lines.len() - i,
    {
        let l = help_line(&lines[i]);
        body.append(l.as_str());
        assert(help_lines_view(lines@.take(i + 1)).drop_last() =~= help_lines_view(lines@.take(i as int)));
        i = i + 1;
    }
    assert(lines@.take(lines.len() as int) =~= lines@);
    let mut s = String::from_str("### ");
    s.append(name);
    s.append(header);
    s.append(body.as_str());
    s.append("\n");
    assert(s@ =~= section_text(name@, help_lines_view(lines@)));
    s
}

} // verus!
