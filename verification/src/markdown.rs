use vstd::prelude::*;

use pulldown_cmark::{Event, Options, Parser, Tag, TagEnd};

use crate::utils::string_from_chars;

verus! {

/// How a piece of text is drawn.
#[derive(Clone, Copy, PartialEq, Eq, Structural, Debug)]
pub enum TextStyle {
    Plain,
    Bold,
    Italic,
    Strikethrough,
}

/// What the Markdown parser reports, as far as the rendering reads it.
#[derive(Debug)]
pub enum MdEvent {
    StartParagraph,
    EndParagraph,
    StartStrong,
    StartEmphasis,
    StartStrikethrough,
    /// The end of bold, italic or struck-through text.
    EndStyle,
    HardBreak,
    SoftBreak,
    /// A horizontal rule.
    Rule,
    Text(String),
    /// Anything else: headings, lists, code, tables and the rest.
    Other,
}

/// The value of an [`MdEvent`]: its text by its characters.
pub enum MdEventView {
    StartParagraph,
    EndParagraph,
    StartStrong,
    StartEmphasis,
    StartStrikethrough,
    EndStyle,
    HardBreak,
    SoftBreak,
    Rule,
    Text(Seq<char>),
    Other,
}

impl View for MdEvent {
    type V = MdEventView;

    open spec fn view(&self) -> MdEventView {
        match self {
            MdEvent::StartParagraph => MdEventView::StartParagraph,
            MdEvent::EndParagraph => MdEventView::EndParagraph,
            MdEvent::StartStrong => MdEventView::StartStrong,
            MdEvent::StartEmphasis => MdEventView::StartEmphasis,
            MdEvent::StartStrikethrough => MdEventView::StartStrikethrough,
            MdEvent::EndStyle => MdEventView::EndStyle,
            MdEvent::HardBreak => MdEventView::HardBreak,
            MdEvent::SoftBreak => MdEventView::SoftBreak,
            MdEvent::Rule => MdEventView::Rule,
            MdEvent::Text(t) => MdEventView::Text(t@),
            MdEvent::Other => MdEventView::Other,
        }
    }
}

/// The events of a list, each by its value.
pub open spec fn events_view(events: Seq<MdEvent>) -> Seq<MdEventView> {
    events.map_values(|e: MdEvent| e@)
}

/// The events pulldown-cmark's parser gives for `source`, with tables and
/// strikethrough enabled.
pub uninterp spec fn markdown_events_of(source: Seq<char>) -> Seq<MdEventView>;

/// pulldown-cmark's `Parser::new_ext` with tables and strikethrough enabled,
/// each of its events told apart by kind. The parser reads nothing but its
/// input and options, so its events are named as a function of the text.
#[verifier::external_body]
fn markdown_events(source: &str) -> (r: Vec<MdEvent>)
    ensures
        events_view(r@) == markdown_events_of(source@),
{
    let mut options = Options::empty();
    options.insert(Options::ENABLE_TABLES | Options::ENABLE_STRIKETHROUGH);
    Parser::new_ext(source, options).map(|event| match event {
        Event::Start(Tag::Paragraph) => MdEvent::StartParagraph,
        Event::Start(Tag::Strong) => MdEvent::StartStrong,
        Event::Start(Tag::Emphasis) => MdEvent::StartEmphasis,
        Event::Start(Tag::Strikethrough) => MdEvent::StartStrikethrough,
        Event::End(TagEnd::Paragraph) => MdEvent::EndParagraph,
        Event::End(TagEnd::Strong | TagEnd::Emphasis | TagEnd::Strikethrough) => MdEvent::EndStyle,
        Event::HardBreak => MdEvent::HardBreak,
        Event::SoftBreak => MdEvent::SoftBreak,
        Event::Rule => MdEvent::Rule,
        Event::Text(text) => MdEvent::Text(text.into_string()),
        _ => MdEvent::Other,
    }).collect()
}

/// A piece of a line: its text and its style.
pub type Piece = (String, TextStyle);

/// A line of pieces, by their characters.
pub open spec fn line_view(line: Seq<Piece>) -> Seq<(Seq<char>, TextStyle)> {
    line.map_values(|p: Piece| (p.0@, p.1))
}

/// Lines of pieces, by their characters.
pub open spec fn lines_view(lines: Seq<Vec<Piece>>) -> Seq<Seq<(Seq<char>, TextStyle)>> {
    lines.map_values(|l: Vec<Piece>| line_view(l@))
}

/// Where the rendering stands after some events: the lines done, the
/// pieces of the line being written, and the style of the next text.
pub struct MdState {
    pub lines: Seq<Seq<(Seq<char>, TextStyle)>>,
    pub current: Seq<(Seq<char>, TextStyle)>,
    pub style: TextStyle,
}

/// A rule `width` cells wide.
pub open spec fn rule_text(width: nat) -> Seq<char> {
    Seq::new(width, |i: int| '-')
}

/// One event: a paragraph opens with an empty line and closes its line with
/// an empty one after it; a hard break does the same, a soft break only
/// closes the line; a rule is a line of its own; text goes on the current
/// line in the current style; bold, italic and strikethrough set the style
/// and their end sets it back to plain.
pub open spec fn md_step(st: MdState, e: MdEventView, width: nat) -> MdState {
    match e {
        MdEventView::StartParagraph => MdState { lines: st.lines.push(Seq::empty()), ..st },
        MdEventView::StartStrong => MdState { style: TextStyle::Bold, ..st },
        MdEventView::StartEmphasis => MdState { style: TextStyle::Italic, ..st },
        MdEventView::StartStrikethrough => MdState { style: TextStyle::Strikethrough, ..st },
        MdEventView::EndStyle => MdState { style: TextStyle::Plain, ..st },
        MdEventView::HardBreak | MdEventView::EndParagraph => MdState {
            lines: st.lines.push(st.current).push(Seq::empty()),
            current: Seq::empty(),
            ..st
        },
        MdEventView::SoftBreak => MdState { lines: st.lines.push(st.current), current: Seq::empty(), ..st },
        MdEventView::Rule => MdState { lines: st.lines.push(seq![(rule_text(width), TextStyle::Plain)]), ..st },
        MdEventView::Text(t) => MdState { current: st.current.push((t, st.style)), ..st },
        MdEventView::Other => st,
    }
}

/// Where the rendering stands after the events, from no lines, an empty
/// line being written and the plain style.
pub open spec fn md_fold(events: Seq<MdEventView>, width: nat) -> MdState
    decreases events.len(),
{
    if events.len() == 0 {
        MdState { lines: Seq::empty(), current: Seq::empty(), style: TextStyle::Plain }
    } else {
        md_step(md_fold(events.drop_last(), width), events.last(), width)
    }
}

/// The lines the events render to: those done, and the line being written
/// when it holds anything.
pub open spec fn md_lines(events: Seq<MdEventView>, width: nat) -> Seq<Seq<(Seq<char>, TextStyle)>> {
    let st = md_fold(events, width);
    if st.current.len() > 0 {
        st.lines.push(st.current)
    } else {
        st.lines
    }
}

/// A rule of `width` dashes.
fn rule(width: u16) -> (r: String)
    ensures
        r@ == rule_text(width as nat),
{
    let mut chars: Vec<char> = Vec::new();
    let mut i: u16 = 0;
    while i < width
        invariant
            i <= width,
            chars@ == rule_text(i as nat),
        decreases width - i,
    {
        chars.push('-');
        i = i + 1;
        proof {
            assert(chars@ =~= rule_text(i as nat));
        }
    }
    string_from_chars(&chars)
}

/// The styled lines that Markdown events render to, `width` cells wide.
pub fn markdown_lines(events: &Vec<MdEvent>, width: u16) -> (r: Vec<Vec<Piece>>)
    ensures
        lines_view(r@) == md_lines(events_view(events@), width as nat),
{
    let ghost all = events_view(events@);
    let mut lines: Vec<Vec<Piece>> = Vec::new();
    let mut current: Vec<Piece> = Vec::new();
    let mut style = TextStyle::Plain;
    let mut i: usize = 0;
    proof {
        assert(all.take(0) =~= Seq::<MdEventView>::empty());
        assert(lines_view(lines@) =~= Seq::empty());
        assert(line_view(current@) =~= Seq::empty());
    }
    while i < events.len()
        invariant
            0 <= i <= events@.len(),
            all == events_view(events@),
            md_fold(all.take(i as int), width as nat) == (MdState {
                lines: lines_view(lines@),
                current: line_view(current@),
                style,
            }),
        decreases events@.len() - i,
    {
        let ghost before = MdState { lines: lines_view(lines@), current: line_view(current@), style };
        let ghost e = all[i as int];
        assert(events@[i as int]@ == e);
        proof {
            assert(all.take(i + 1).drop_last() =~= all.take(i as int));
            assert(all.take(i + 1).last() == e);
        }
        match &events[i] {
            MdEvent::StartParagraph => {
                lines.push(Vec::new());
                proof {
                    assert(line_view(lines@.last()@) =~= Seq::empty());
                    assert(lines_view(lines@) =~= before.lines.push(Seq::empty()));
                }
            },
            MdEvent::StartStrong => {
                style = TextStyle::Bold;
            },
            MdEvent::StartEmphasis => {
                style = TextStyle::Italic;
            },
            MdEvent::StartStrikethrough => {
                style = TextStyle::Strikethrough;
            },
            MdEvent::EndStyle => {
                style = TextStyle::Plain;
            },
            MdEvent::HardBreak | MdEvent::EndParagraph => {
                let done = current;
                current = Vec::new();
                lines.push(done);
                lines.push(Vec::new());
                proof {
                    assert(line_view(lines@.last()@) =~= Seq::empty());
                    assert(lines_view(lines@) =~= before.lines.push(before.current).push(Seq::empty()));
                    assert(line_view(current@) =~= Seq::empty());
                }
            },
            MdEvent::SoftBreak => {
                let done = current;
                current = Vec::new();
                lines.push(done);
                proof {
                    assert(lines_view(lines@) =~= before.lines.push(before.current));
                    assert(line_view(current@) =~= Seq::empty());
                }
            },
            MdEvent::Rule => {
                let mut line: Vec<Piece> = Vec::new();
                line.push((rule(width), TextStyle::Plain));
                proof {
                    assert(line_view(line@) =~= seq![(rule_text(width as nat), TextStyle::Plain)]);
                }
                lines.push(line);
                proof {
                    assert(lines_view(lines@) =~= before.lines.push(
                        seq![(rule_text(width as nat), TextStyle::Plain)],
                    ));
                }
            },
            MdEvent::Text(t) => {
                current.push((t.clone(), style));
                proof {
                    assert(line_view(current@) =~= before.current.push((t@, style)));
                }
            },
            MdEvent::Other => {},
        }
        proof {
            let after = md_step(before, e, width as nat);
            assert(lines_view(lines@) =~= after.lines);
            assert(line_view(current@) =~= after.current);
        }
        i = i + 1;
    }
    proof {
        assert(all.take(i as int) =~= all);
    }
    if current.len() > 0 {
        lines.push(current);
    }
    proof {
        assert(lines_view(lines@) =~= md_lines(all, width as nat));
    }
    lines
}

/// Section content, written in Markdown, as styled lines `width` cells wide.
pub struct Markdown;

impl Markdown {
    /// The styled lines `source` renders to: the parser's events, rendered
    /// by [`markdown_lines`].
    pub fn from_str(source: &str, width: u16) -> (r: Vec<Vec<Piece>>)
        ensures
            lines_view(r@) == md_lines(markdown_events_of(source@), width as nat),
    {
        let events = markdown_events(source);
        markdown_lines(&events, width)
    }
}

} // verus!
