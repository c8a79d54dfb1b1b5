use hyprsnap::editor::{DragEnd, Editor};
use hyprsnap::tools::{PaletteColor, ToolKind};

type Ed = Editor<(f64, f64), f64>;

fn editor() -> Ed {
    Editor::new(3.0, 20.0)
}

#[test]
fn new_editor_starts_with_rect_red_and_nothing_drawn() {
    let e = editor();
    assert!(e.annotations.is_empty());
    assert!(e.current.is_none());
    assert_eq!(e.tool, ToolKind::Rect);
    assert_eq!(e.color, PaletteColor::Red);
    assert_eq!(e.stroke_width, 3.0);
    assert_eq!(e.font_size, 20.0);
    assert!(e.text_click_pos.is_none());
}

#[test]
fn rect_drag_adds_one_annotation_and_undo_removes_it() {
    let mut e = editor();
    e.drag_begin((10.0, 20.0));
    assert_eq!(e.current_start(), Some((10.0, 20.0)));
    e.drag_update((40.0, 25.0));
    let action = e.drag_end();
    assert!(matches!(action, DragEnd::Redraw));
    assert_eq!(e.annotations.len(), 1);
    let a = &e.annotations[0];
    assert_eq!(a.kind, ToolKind::Rect);
    assert_eq!(a.start, (10.0, 20.0));
    assert_eq!(a.end, (40.0, 25.0));
    assert_eq!(a.color, PaletteColor::Red);
    assert_eq!(a.stroke_width, 3.0);
    assert_eq!(a.font_size, 20.0);
    assert!(a.text.is_none());
    assert!(e.current.is_none());
    e.undo();
    assert!(e.annotations.is_empty());
}

#[test]
fn drag_without_motion_adds_a_point_annotation() {
    let mut e = editor();
    e.set_tool(ToolKind::Line);
    e.drag_begin((5.0, 5.0));
    e.drag_end();
    assert_eq!(e.annotations.len(), 1);
    assert_eq!(e.annotations[0].kind, ToolKind::Line);
    assert_eq!(e.annotations[0].start, (5.0, 5.0));
    assert_eq!(e.annotations[0].end, (5.0, 5.0));
}

#[test]
fn style_changes_apply_to_later_annotations_only() {
    let mut e = editor();
    e.drag_begin((0.0, 0.0));
    e.drag_end();
    e.set_tool(ToolKind::Arrow);
    e.set_color(PaletteColor::Blue);
    e.set_stroke_width(7.0);
    e.set_font_size(30.0);
    e.drag_begin((1.0, 1.0));
    e.drag_update((2.0, 3.0));
    e.drag_end();
    assert_eq!(e.annotations.len(), 2);
    assert_eq!(e.annotations[0].kind, ToolKind::Rect);
    assert_eq!(e.annotations[0].color, PaletteColor::Red);
    assert_eq!(e.annotations[0].stroke_width, 3.0);
    assert_eq!(e.annotations[1].kind, ToolKind::Arrow);
    assert_eq!(e.annotations[1].color, PaletteColor::Blue);
    assert_eq!(e.annotations[1].stroke_width, 7.0);
    assert_eq!(e.annotations[1].font_size, 30.0);
}

#[test]
fn ocr_drag_requests_recognition_without_annotating() {
    let mut e = editor();
    e.set_tool(ToolKind::Ocr);
    e.drag_begin((3.0, 4.0));
    e.drag_update((50.0, 60.0));
    match e.drag_end() {
        DragEnd::RunOcr { start, end } => {
            assert_eq!(start, (3.0, 4.0));
            assert_eq!(end, (50.0, 60.0));
        }
        _ => panic!("expected an OCR request"),
    }
    assert!(e.annotations.is_empty());
    assert!(e.current.is_none());
    assert!(matches!(e.drag_end(), DragEnd::Nothing));
}

#[test]
fn crop_drag_is_kept_as_an_annotation() {
    let mut e = editor();
    e.set_tool(ToolKind::Crop);
    e.drag_begin((1.0, 2.0));
    e.drag_update((9.0, 8.0));
    assert!(matches!(e.drag_end(), DragEnd::Redraw));
    assert_eq!(e.annotations.len(), 1);
    assert_eq!(e.annotations[0].kind, ToolKind::Crop);
}

#[test]
fn text_click_opens_dialog_and_text_is_added() {
    let mut e = editor();
    e.set_tool(ToolKind::Text);
    e.set_color(PaletteColor::Yellow);
    e.drag_begin((12.0, 34.0));
    assert!(e.current.is_none());
    e.drag_update((99.0, 99.0));
    assert!(e.current.is_none());
    match e.drag_end() {
        DragEnd::OpenTextDialog { pos, color, font_size } => {
            assert_eq!(pos, (12.0, 34.0));
            assert_eq!(color, PaletteColor::Yellow);
            assert_eq!(font_size, 20.0);
            e.add_text_annotation(pos, color, 1.0, font_size, String::from("hello"));
        }
        _ => panic!("expected the text dialog"),
    }
    assert!(e.text_click_pos.is_none());
    assert_eq!(e.annotations.len(), 1);
    let a = &e.annotations[0];
    assert_eq!(a.kind, ToolKind::Text);
    assert_eq!(a.start, (12.0, 34.0));
    assert_eq!(a.end, (12.0, 34.0));
    assert_eq!(a.text.as_deref(), Some("hello"));
    assert_eq!(a.stroke_width, 1.0);
    assert!(matches!(e.drag_end(), DragEnd::Nothing));
}

#[test]
fn empty_text_adds_nothing() {
    let mut e = editor();
    e.add_text_annotation((1.0, 1.0), PaletteColor::White, 1.0, 20.0, String::new());
    assert!(e.annotations.is_empty());
}

#[test]
fn undo_on_empty_editor_does_nothing() {
    let mut e = editor();
    e.undo();
    assert!(e.annotations.is_empty());
}

#[test]
fn undo_removes_most_recent_first() {
    let mut e = editor();
    e.drag_begin((0.0, 0.0));
    e.drag_end();
    e.set_tool(ToolKind::Line);
    e.drag_begin((1.0, 1.0));
    e.drag_end();
    e.undo();
    assert_eq!(e.annotations.len(), 1);
    assert_eq!(e.annotations[0].kind, ToolKind::Rect);
}

#[test]
fn update_without_a_drag_changes_nothing() {
    let mut e = editor();
    assert_eq!(e.current_start(), None);
    e.drag_update((5.0, 5.0));
    assert!(e.current.is_none());
    assert!(matches!(e.drag_end(), DragEnd::Redraw));
    assert!(e.annotations.is_empty());
}

#[test]
fn repeated_ocr_drags_keep_no_selection() {
    let mut e = editor();
    e.drag_begin((0.0, 0.0));
    e.drag_end();
    e.set_tool(ToolKind::Ocr);
    for i in 0..3 {
        let f = i as f64;
        e.drag_begin((f, f));
        e.drag_update((f + 10.0, f + 10.0));
        assert!(matches!(e.drag_end(), DragEnd::RunOcr { .. }));
    }
    assert_eq!(e.annotations.len(), 1);
    assert!(e.annotations.iter().all(|a| a.kind != ToolKind::Ocr));
}

#[test]
fn changing_tool_mid_drag_keeps_the_selection() {
    // The tool that is selected when the drag ends decides what happens.
    let mut e = editor();
    e.set_tool(ToolKind::Ocr);
    e.drag_begin((1.0, 1.0));
    e.set_tool(ToolKind::Rect);
    assert!(matches!(e.drag_end(), DragEnd::Redraw));
    assert_eq!(e.annotations.len(), 1);
    assert_eq!(e.annotations[0].kind, ToolKind::Ocr);
}
