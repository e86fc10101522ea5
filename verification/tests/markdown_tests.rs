use glyph::markdown::{markdown_lines, Markdown, MdEvent, TextStyle};

fn piece(text: &str, style: TextStyle) -> (String, TextStyle) {
    (text.to_string(), style)
}

#[test]
fn events_render_to_styled_lines() {
    let events = vec![
        MdEvent::StartParagraph,
        MdEvent::Text("plain ".to_string()),
        MdEvent::StartStrong,
        MdEvent::Text("bold".to_string()),
        MdEvent::EndStyle,
        MdEvent::SoftBreak,
        MdEvent::StartEmphasis,
        MdEvent::Text("it".to_string()),
        MdEvent::EndStyle,
        MdEvent::HardBreak,
        MdEvent::Other,
        MdEvent::StartStrikethrough,
        MdEvent::Text("gone".to_string()),
        MdEvent::EndStyle,
        MdEvent::EndParagraph,
        MdEvent::Rule,
        MdEvent::Text("tail".to_string()),
    ];
    let lines = markdown_lines(&events, 4);
    assert_eq!(
        lines,
        vec![
            vec![],
            vec![piece("plain ", TextStyle::Plain), piece("bold", TextStyle::Bold)],
            vec![piece("it", TextStyle::Italic)],
            vec![],
            vec![piece("gone", TextStyle::Strikethrough)],
            vec![],
            vec![piece("----", TextStyle::Plain)],
            vec![piece("tail", TextStyle::Plain)],
        ]
    );
}

#[test]
fn no_events_render_no_lines() {
    assert!(markdown_lines(&vec![], 10).is_empty());
    assert_eq!(markdown_lines(&vec![MdEvent::Rule], 0), vec![vec![piece("", TextStyle::Plain)]]);
}

#[test]
fn markdown_text_is_parsed_then_rendered() {
    let lines = Markdown::from_str("a **b**\nc\n\n---", 3);
    assert_eq!(
        lines,
        vec![
            vec![],
            vec![piece("a ", TextStyle::Plain), piece("b", TextStyle::Bold)],
            vec![piece("c", TextStyle::Plain)],
            vec![],
            vec![piece("---", TextStyle::Plain)],
        ]
    );
    assert_eq!(
        Markdown::from_str("~~x~~ *y*", 1),
        vec![vec![], vec![piece("x", TextStyle::Strikethrough), piece(" ", TextStyle::Plain), piece("y", TextStyle::Italic)], vec![]]
    );
}
