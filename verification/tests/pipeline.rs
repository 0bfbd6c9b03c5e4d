use edita::commands::bold::find_bold_ancestor;
use edita::markup::attribute;
use edita::{
    Bold, Command, Editor, EditorBlock, EditorExt, EditorNode, EditorState, Header, HeaderBlock,
    HtmlBlock, Image, MakeBold, Markup, Paragraph, ParagraphBlock, RemoveBold, SourceNode,
    SurfaceEdit, TextNode, TextNodeBlock,
};

fn element(tag: &str, text: &str, children: Vec<SourceNode>) -> SourceNode {
    let html = format!("<{}>{}</{}>", tag.to_lowercase(), text, tag.to_lowercase());
    SourceNode::element(tag, text, &html, children)
}

fn editor() -> Editor<EditorBlock> {
    let mut editor = Editor::new(EditorState::new());
    editor.add_block(EditorBlock::Heading(HeaderBlock));
    editor.add_block(EditorBlock::Paragraph(ParagraphBlock));
    editor.add_block(EditorBlock::Text(TextNodeBlock));
    editor
}

fn surface(body: &str) -> Vec<SourceNode> {
    vec![
        element("H1", "A simple Editor", vec![SourceNode::text("A simple Editor")]),
        element("P", body, vec![SourceNode::text(body)]),
    ]
}

fn document(body: &str) -> Vec<EditorNode> {
    vec![
        EditorNode::Heading(Header::new("A simple Editor".to_string(), 1)),
        EditorNode::Paragraph(Paragraph::new(
            body.to_string(),
            vec![EditorNode::Text(TextNode::new(body.to_string()))],
        )),
    ]
}

#[test]
fn new_state_is_idle_and_asks_for_nothing() {
    let mut state = EditorState::new();
    assert!(!state.is_exporting());
    assert_eq!(state.take_edits(), vec![]);
}

#[test]
fn notify_asks_for_an_export() {
    let mut state = EditorState::new();
    state.notify();
    assert!(state.is_exporting());
    state.settle();
    assert!(!state.is_exporting());
}

#[test]
fn three_notifications_give_one_export() {
    let mut editor = editor();
    editor.state_mut().notify();
    editor.state_mut().notify();
    editor.state_mut().notify();
    assert!(editor.state().is_exporting());
    // the surface as it is when the export runs
    assert_eq!(editor.poll_export(surface("now")), Some(document("now")));
    assert!(!editor.state().is_exporting());
    assert_eq!(editor.poll_export(surface("now")), None);
    assert_eq!(editor.poll_export(surface("later")), None);
}

#[test]
fn nothing_is_exported_before_a_notification() {
    let mut editor = editor();
    assert_eq!(editor.poll_export(surface("first")), None);
    assert!(!editor.state().is_exporting());
}

#[test]
fn each_batch_of_notifications_gives_a_fresh_export() {
    let mut editor = editor();
    editor.state_mut().notify();
    assert_eq!(editor.poll_export(surface("one")), Some(document("one")));
    editor.state_mut().notify();
    editor.state_mut().notify();
    assert_eq!(editor.poll_export(surface("two")), Some(document("two")));
    assert_eq!(editor.poll_export(surface("two")), None);
}

#[test]
fn export_parses_the_top_of_the_surface() {
    let editor = editor();
    assert_eq!(editor.export(surface("body")), document("body"));
    assert_eq!(editor.export(vec![]), vec![]);
}

#[test]
fn exporting_twice_gives_equal_documents() {
    let mut editor = editor();
    let first = editor.export(surface("same"));
    let second = editor.export(surface("same"));
    assert_eq!(first, second);
    // notifications and requests in between change nothing of it
    editor.state_mut().notify();
    editor.command(MakeBold);
    let third = editor.poll_export(surface("same"));
    assert_eq!(third, Some(first));
}

#[test]
fn export_does_not_touch_the_state() {
    let mut editor = editor();
    editor.state_mut().notify();
    editor.command(RemoveBold);
    let _ = editor.export(surface("x"));
    assert!(editor.state().is_exporting());
    assert_eq!(editor.state_mut().take_edits(), vec![SurfaceEdit::UnwrapBold]);
}

#[test]
fn poll_export_keeps_the_requested_edits() {
    let mut editor = editor();
    editor.command(MakeBold);
    editor.state_mut().notify();
    let _ = editor.poll_export(surface("x"));
    assert_eq!(editor.state_mut().take_edits(), vec![SurfaceEdit::WrapBold]);
}

#[test]
fn can_export_tells_when_a_block_cannot_parse() {
    let mut editor = editor();
    assert!(editor.can_export(&surface("x")));
    assert!(editor.can_export(&vec![]));
    editor.set_fallback_block(EditorBlock::Html(HtmlBlock));
    let mut comment = SourceNode::text("c");
    comment.kind = edita::SourceKind::Other;
    assert!(!editor.can_export(&vec![comment]));
    assert!(editor.can_export(&vec![element("DIV", "x", vec![])]));
}

#[test]
fn add_node_asks_for_the_rendering_to_be_appended() {
    let mut state = EditorState::new();
    state.add_node(Bold::new("b".to_string()));
    state.add_node(Image { src: "https://placehold.co/600x400".to_string(), alt: "Placeholder".to_string() });
    let edits = state.take_edits();
    assert_eq!(
        edits,
        vec![
            SurfaceEdit::Append(Markup::element("b", vec![], vec![Markup::text("b")])),
            SurfaceEdit::Append(Markup::element(
                "img",
                vec![
                    attribute("src", "https://placehold.co/600x400"),
                    attribute("alt", "Placeholder")
                ],
                vec![]
            )),
        ]
    );
    assert_eq!(state.take_edits(), vec![]);
}

#[test]
fn heading_command_appends_an_empty_first_level_heading() {
    let mut state = EditorState::new();
    state.execute(HeaderBlock);
    assert_eq!(
        state.take_edits(),
        vec![SurfaceEdit::Append(Markup::element(
            "h1",
            vec![attribute("data-ph", "Heading")],
            vec![Markup::text("")]
        ))]
    );
}

#[test]
fn paragraph_command_appends_an_empty_paragraph() {
    let mut editor = editor();
    editor.command(ParagraphBlock);
    assert_eq!(
        editor.state_mut().take_edits(),
        vec![SurfaceEdit::Append(Markup::element(
            "p",
            vec![attribute("data-ph", "A paragraph goes here")],
            vec![]
        ))]
    );
}

#[test]
fn bold_commands_ask_for_the_selection_to_be_changed() {
    let mut state = EditorState::new();
    MakeBold.execute(&mut state);
    RemoveBold.execute(&mut state);
    state.execute(MakeBold);
    assert_eq!(
        state.take_edits(),
        vec![SurfaceEdit::WrapBold, SurfaceEdit::UnwrapBold, SurfaceEdit::WrapBold]
    );
}

#[test]
fn commands_leave_the_phase_alone() {
    let mut state = EditorState::new();
    state.execute(MakeBold);
    assert!(!state.is_exporting());
    state.notify();
    state.execute(HeaderBlock);
    state.request(SurfaceEdit::UnwrapBold);
    assert!(state.is_exporting());
    let _ = state.take_edits();
    assert!(state.is_exporting());
}

#[test]
fn nearest_bold_ancestor_is_the_first_in_the_chain() {
    let chain = vec![
        SourceNode::text("t"),
        element("I", "t", vec![]),
        element("STRONG", "t", vec![]),
        element("P", "t", vec![]),
        element("B", "t", vec![]),
    ];
    assert_eq!(find_bold_ancestor(&chain), Some(2));
}

#[test]
fn a_bold_node_is_its_own_nearest_bold_ancestor() {
    let chain = vec![element("B", "t", vec![]), element("STRONG", "t", vec![])];
    assert_eq!(find_bold_ancestor(&chain), Some(0));
}

#[test]
fn chain_without_bold_has_no_bold_ancestor() {
    let chain = vec![SourceNode::text("B"), element("P", "t", vec![]), element("b", "t", vec![])];
    assert_eq!(find_bold_ancestor(&chain), None);
    assert_eq!(find_bold_ancestor(&vec![]), None);
}
