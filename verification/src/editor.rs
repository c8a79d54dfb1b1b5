//! The editing state machine behind the canvas and the toolbar.
//!
//! Pointer and key events come in from the user interface; each method
//! updates the state and tells the caller what to do next (redraw, open
//! the text dialog, run OCR on a region).

use vstd::prelude::*;

use crate::tools::{Annotation, PaletteColor, ToolKind};

verus! {

/// The state of the editor: finished annotations, the one being dragged,
/// the selected tool and style, and where a text click landed.
pub struct Editor<P, W> {
    pub annotations: Vec<Annotation<P, W>>,
    pub current: Option<Annotation<P, W>>,
    pub tool: ToolKind,
    pub color: PaletteColor,
    pub stroke_width: W,
    pub font_size: W,
    pub text_click_pos: Option<P>,
}

/// The mathematical model of an [`Editor`].
pub struct EditorModel<P, W> {
    pub annotations: Seq<Annotation<P, W>>,
    pub current: Option<Annotation<P, W>>,
    pub tool: ToolKind,
    pub color: PaletteColor,
    pub stroke_width: W,
    pub font_size: W,
    pub text_click_pos: Option<P>,
}

/// What the user interface does once a drag has ended.
pub enum DragEnd<P, W> {
    /// Nothing to do.
    Nothing,
    /// Redraw the canvas.
    Redraw,
    /// Ask for the text of a text annotation placed at `pos`.
    OpenTextDialog { pos: P, color: PaletteColor, font_size: W },
    /// Run text recognition on the region between `start` and `end`, then redraw.
    RunOcr { start: P, end: P },
}

impl<P, W> View for Editor<P, W> {
    type V = EditorModel<P, W>;

    open spec fn view(&self) -> EditorModel<P, W> {
        EditorModel {
            annotations: self.annotations@,
            current: self.current,
            tool: self.tool,
            color: self.color,
            stroke_width: self.stroke_width,
            font_size: self.font_size,
            text_click_pos: self.text_click_pos,
        }
    }
}

impl<P, W> EditorModel<P, W> {
    /// The annotation that a drag starting at `pos` begins with.
    pub open spec fn new_shape(self, pos: P) -> Annotation<P, W> {
        Annotation {
            kind: self.tool,
            start: pos,
            end: pos,
            color: self.color,
            stroke_width: self.stroke_width,
            text: None,
            font_size: self.font_size,
        }
    }

    /// A drag begins at `pos`: the text tool remembers the position, every
    /// other tool starts a new annotation there.
    pub open spec fn drag_begin(self, pos: P) -> Self {
        if self.tool == ToolKind::Text {
            EditorModel { text_click_pos: Some(pos), ..self }
        } else {
            EditorModel { current: Some(self.new_shape(pos)), ..self }
        }
    }

    /// The drag moves on to `end`: the annotation being dragged ends there.
    pub open spec fn drag_update(self, end: P) -> Self {
        if self.tool == ToolKind::Text {
            self
        } else {
            match self.current {
                Some(a) => EditorModel { current: Some(Annotation { end, ..a }), ..self },
                None => self,
            }
        }
    }

    /// The state after a drag has ended.
    pub open spec fn drag_end_state(self) -> Self {
        match self.tool {
            ToolKind::Text => EditorModel { text_click_pos: None, ..self },
            ToolKind::Ocr => EditorModel { current: None, ..self },
            _ => match self.current {
                Some(a) => EditorModel {
                    annotations: self.annotations.push(a),
                    current: None,
                    ..self
                },
                None => self,
            },
        }
    }

    /// What the user interface is asked to do after a drag has ended.
    pub open spec fn drag_end_action(self) -> DragEnd<P, W> {
        match self.tool {
            ToolKind::Text => match self.text_click_pos {
                Some(pos) => DragEnd::OpenTextDialog {
                    pos,
                    color: self.color,
                    font_size: self.font_size,
                },
                None => DragEnd::Nothing,
            },
            ToolKind::Ocr => match self.current {
                Some(a) => DragEnd::RunOcr { start: a.start, end: a.end },
                None => DragEnd::Nothing,
            },
            _ => DragEnd::Redraw,
        }
    }

    /// The text annotation that the text dialog adds.
    pub open spec fn text_annotation(
        pos: P,
        color: PaletteColor,
        stroke_width: W,
        font_size: W,
        text: String,
    ) -> Annotation<P, W> {
        Annotation {
            kind: ToolKind::Text,
            start: pos,
            end: pos,
            color,
            stroke_width,
            text: Some(text),
            font_size,
        }
    }

    /// The text dialog confirms `text`: a non-empty text becomes an annotation.
    pub open spec fn add_text(
        self,
        pos: P,
        color: PaletteColor,
        stroke_width: W,
        font_size: W,
        text: String,
    ) -> Self {
        if text@.len() > 0 {
            EditorModel {
                annotations: self.annotations.push(
                    Self::text_annotation(pos, color, stroke_width, font_size, text),
                ),
                ..self
            }
        } else {
            self
        }
    }

    /// Undo removes the most recent annotation, if there is one.
    pub open spec fn undo(self) -> Self {
        if self.annotations.len() > 0 {
            EditorModel { annotations: self.annotations.drop_last(), ..self }
        } else {
            self
        }
    }
}

impl<P: Copy, W: Copy> Editor<P, W> {
    /// A fresh editor: no annotations, the rectangle tool, red, and the
    /// given stroke width and font size.
    pub fn new(stroke_width: W, font_size: W) -> (e: Self)
        ensures
            e@.annotations == Seq::<Annotation<P, W>>::empty(),
            e@.current is None,
            e@.tool == ToolKind::Rect,
            e@.color == PaletteColor::Red,
            e@.stroke_width == stroke_width,
            e@.font_size == font_size,
            e@.text_click_pos is None,
            keeps_no_ocr(e@),
    {
        Editor {
            annotations: Vec::new(),
            current: None,
            tool: ToolKind::Rect,
            color: PaletteColor::Red,
            stroke_width,
            font_size,
            text_click_pos: None,
        }
    }

    /// A drag begins at `pos`.
    pub fn drag_begin(&mut self, pos: P)
        ensures
            final(self)@ == old(self)@.drag_begin(pos),
    {
        match self.tool {
            ToolKind::Text => {
                self.text_click_pos = Some(pos);
            },
            _ => {
                self.current = Some(
                    Annotation {
                        kind: self.tool,
                        start: pos,
                        end: pos,
                        color: self.color,
                        stroke_width: self.stroke_width,
                        text: None,
                        font_size: self.font_size,
                    },
                );
            },
        }
    }

    /// Where the annotation being dragged starts, if one is being dragged.
    pub fn current_start(&self) -> (r: Option<P>)
        ensures
            r == (match self.current {
                Some(a) => Some(a.start),
                None => None::<P>,
            }),
    {
        match &self.current {
            Some(a) => Some(a.start),
            None => None,
        }
    }

    /// The drag has moved; `end` is the pointer's new position.  Returns
    /// whether the canvas is to be redrawn: always, but for the text tool.
    pub fn drag_update(&mut self, end: P) -> (redraw: bool)
        ensures
            final(self)@ == old(self)@.drag_update(end),
            redraw == (old(self).tool != ToolKind::Text),
    {
        match self.tool {
            ToolKind::Text => false,
            _ => {
                match self.current.take() {
                    Some(a) => {
                        self.current = Some(Annotation { end, ..a });
                    },
                    None => {},
                }
                true
            },
        }
    }

    /// The drag has ended; returns what the user interface does next.
    pub fn drag_end(&mut self) -> (action: DragEnd<P, W>)
        ensures
            final(self)@ == old(self)@.drag_end_state(),
            action == old(self)@.drag_end_action(),
    {
        match self.tool {
            ToolKind::Text => match self.text_click_pos.take() {
                Some(pos) => DragEnd::OpenTextDialog {
                    pos,
                    color: self.color,
                    font_size: self.font_size,
                },
                None => DragEnd::Nothing,
            },
            ToolKind::Ocr => match self.current.take() {
                Some(a) => DragEnd::RunOcr { start: a.start, end: a.end },
                None => DragEnd::Nothing,
            },
            _ => {
                match self.current.take() {
                    Some(a) => {
                        self.annotations.push(a);
                    },
                    None => {},
                }
                DragEnd::Redraw
            },
        }
    }

    /// The text dialog has been confirmed with `text` for a text
    /// annotation at `pos`; empty text adds nothing.  Returns whether an
    /// annotation was added.
    pub fn add_text_annotation(
        &mut self,
        pos: P,
        color: PaletteColor,
        stroke_width: W,
        font_size: W,
        text: String,
    ) -> (added: bool)
        ensures
            final(self)@ == old(self)@.add_text(pos, color, stroke_width, font_size, text),
            added == (text@.len() > 0),
    {
        let added = !text.as_str().is_empty();
        if added {
            self.annotations.push(
                Annotation {
                    kind: ToolKind::Text,
                    start: pos,
                    end: pos,
                    color,
                    stroke_width,
                    text: Some(text),
                    font_size,
                },
            );
        }
        added
    }

    /// Removes the most recent annotation, if any.
    pub fn undo(&mut self)
        ensures
            final(self)@ == old(self)@.undo(),
    {
        let _ = self.annotations.pop();
    }

    /// Selects the tool for the following drags.
    pub fn set_tool(&mut self, tool: ToolKind)
        ensures
            final(self)@ == (EditorModel { tool, ..old(self)@ }),
    {
        self.tool = tool;
    }

    /// Selects the colour for the following annotations.
    pub fn set_color(&mut self, color: PaletteColor)
        ensures
            final(self)@ == (EditorModel { color, ..old(self)@ }),
    {
        self.color = color;
    }

    /// Sets the stroke width for the following annotations.
    pub fn set_stroke_width(&mut self, stroke_width: W)
        ensures
            final(self)@ == (EditorModel { stroke_width, ..old(self)@ }),
    {
        self.stroke_width = stroke_width;
    }

    /// Sets the font size for the following text annotations.
    pub fn set_font_size(&mut self, font_size: W)
        ensures
            final(self)@ == (EditorModel { font_size, ..old(self)@ }),
    {
        self.font_size = font_size;
    }
}

/// A drag with a shape tool (any tool but text and OCR) from `from` to `to`
/// adds exactly one annotation of that tool, spanning the drag, in the
/// selected colour and sizes; undo then restores the annotations that were
/// there before the drag.
pub proof fn lemma_shape_drag_then_undo<P, W>(m: EditorModel<P, W>, from: P, to: P)
    requires
        m.tool != ToolKind::Text,
        m.tool != ToolKind::Ocr,
    ensures
        ({
            let dragged = m.drag_begin(from).drag_update(to);
            let after = dragged.drag_end_state();
            &&& dragged.drag_end_action() == DragEnd::<P, W>::Redraw
            &&& after.annotations == m.annotations.push(
                Annotation {
                    kind: m.tool,
                    start: from,
                    end: to,
                    color: m.color,
                    stroke_width: m.stroke_width,
                    text: None,
                    font_size: m.font_size,
                },
            )
            &&& after.current is None
            &&& after.undo().annotations == m.annotations
        }),
{
    let after = m.drag_begin(from).drag_update(to).drag_end_state();
    assert(after.annotations.drop_last() =~= m.annotations);
}

/// A drag with the OCR tool asks for recognition of the dragged region and
/// leaves the annotations as they were.
pub proof fn lemma_ocr_drag_keeps_annotations<P, W>(m: EditorModel<P, W>, from: P, to: P)
    requires
        m.tool == ToolKind::Ocr,
    ensures
        ({
            let dragged = m.drag_begin(from).drag_update(to);
            let after = dragged.drag_end_state();
            &&& dragged.drag_end_action() == DragEnd::<P, W>::RunOcr { start: from, end: to }
            &&& after.annotations == m.annotations
            &&& after.current is None
        }),
{
}

/// With the text tool, a click at `at` opens the text dialog for that
/// position in the selected colour and font size without drawing anything;
/// confirming a non-empty text adds one text annotation there, and an empty
/// text adds nothing.
pub proof fn lemma_text_click_then_entry<P, W>(
    m: EditorModel<P, W>,
    at: P,
    moved_to: P,
    stroke_width: W,
    text: String,
)
    requires
        m.tool == ToolKind::Text,
    ensures
        ({
            let clicked = m.drag_begin(at).drag_update(moved_to);
            let after = clicked.drag_end_state();
            let entered = after.add_text(at, m.color, stroke_width, m.font_size, text);
            &&& clicked.drag_end_action() == DragEnd::<P, W>::OpenTextDialog {
                pos: at,
                color: m.color,
                font_size: m.font_size,
            }
            &&& clicked.current == m.current
            &&& after.annotations == m.annotations
            &&& after.text_click_pos is None
            &&& entered.annotations == if text@.len() > 0 {
                m.annotations.push(
                    Annotation {
                        kind: ToolKind::Text,
                        start: at,
                        end: at,
                        color: m.color,
                        stroke_width,
                        text: Some(text),
                        font_size: m.font_size,
                    },
                )
            } else {
                m.annotations
            }
        }),
{
}

/// No OCR selection is ever kept among the annotations, provided that
/// the tool is only changed between drags.
pub open spec fn keeps_no_ocr<P, W>(m: EditorModel<P, W>) -> bool {
    &&& forall|i: int| 0 <= i < m.annotations.len() ==> m.annotations[i].kind != ToolKind::Ocr
    &&& m.current matches Some(a) ==> a.kind == m.tool
}

/// OCR selections never become annotations: every step of the editor keeps
/// [`keeps_no_ocr`], and so does choosing a tool while no drag is going on.
/// (Changing the tool in the middle of an OCR drag would let the selection
/// be kept, which is why the law needs the tool to stay put during a drag.)
pub proof fn lemma_ocr_selections_never_kept<P, W>(
    m: EditorModel<P, W>,
    pos: P,
    end: P,
    tool: ToolKind,
    color: PaletteColor,
    stroke_width: W,
    font_size: W,
    text: String,
)
    requires
        keeps_no_ocr(m),
    ensures
        keeps_no_ocr(m.drag_begin(pos)),
        keeps_no_ocr(m.drag_update(end)),
        keeps_no_ocr(m.drag_end_state()),
        keeps_no_ocr(m.add_text(pos, color, stroke_width, font_size, text)),
        keeps_no_ocr(m.undo()),
        m.current is None ==> keeps_no_ocr(EditorModel { tool, ..m }),
{
}

/// One pointer motion only moves the end of the annotation being dragged:
/// its kind, start, colour, sizes and text stay as they were, and nothing
/// else in the editor changes.  With the text tool, or when nothing is
/// being dragged, a motion changes nothing at all.
pub proof fn lemma_drag_update_moves_only_the_end<P, W>(m: EditorModel<P, W>, end: P)
    ensures
        m.tool == ToolKind::Text || m.current is None ==> m.drag_update(end) == m,
        m.tool != ToolKind::Text ==> (m.current matches Some(a) ==> {
            let u = m.drag_update(end);
            &&& u.current == Some(
                Annotation {
                    kind: a.kind,
                    start: a.start,
                    end,
                    color: a.color,
                    stroke_width: a.stroke_width,
                    text: a.text,
                    font_size: a.font_size,
                },
            )
            &&& u.annotations == m.annotations
            &&& u.tool == m.tool
            &&& u.color == m.color
            &&& u.stroke_width == m.stroke_width
            &&& u.font_size == m.font_size
            &&& u.text_click_pos == m.text_click_pos
        }),
{
}

/// The editor after the pointer has moved through `ends`, in order.
pub open spec fn drag_moves<P, W>(m: EditorModel<P, W>, ends: Seq<P>) -> EditorModel<P, W>
    decreases ends.len(),
{
    if ends.len() == 0 {
        m
    } else {
        drag_moves(m, ends.drop_last()).drag_update(ends.last())
    }
}

/// However many times the pointer moves during a drag with a shape tool,
/// the annotation being dragged keeps the corner where the drag began and
/// ends where the pointer last was (where it began, if it never moved); on
/// release exactly that annotation is added.
pub proof fn lemma_drag_follows_pointer<P, W>(m: EditorModel<P, W>, from: P, ends: Seq<P>)
    requires
        m.tool != ToolKind::Text,
        m.tool != ToolKind::Ocr,
    ensures
        ({
            let last = if ends.len() == 0 {
                from
            } else {
                ends.last()
            };
            let shape = Annotation {
                kind: m.tool,
                start: from,
                end: last,
                color: m.color,
                stroke_width: m.stroke_width,
                text: None,
                font_size: m.font_size,
            };
            let dragged = drag_moves(m.drag_begin(from), ends);
            &&& dragged.current == Some(shape)
            &&& dragged.annotations == m.annotations
            &&& dragged.drag_end_state().annotations == m.annotations.push(shape)
            &&& dragged.drag_end_state().current is None
        }),
    decreases ends.len(),
{
    if ends.len() > 0 {
        lemma_drag_follows_pointer(m, from, ends.drop_last());
    }
}

/// Confirming a non-empty text adds exactly one annotation at the end of
/// the list: a text annotation at `pos`, in the given colour and sizes,
/// holding that text.  An empty text changes nothing.  Either way nothing
/// but the list changes.
pub proof fn lemma_add_text<P, W>(
    m: EditorModel<P, W>,
    pos: P,
    color: PaletteColor,
    stroke_width: W,
    font_size: W,
    text: String,
)
    ensures
        ({
            let after = m.add_text(pos, color, stroke_width, font_size, text);
            &&& text@.len() > 0 ==> after.annotations == m.annotations.push(
                Annotation {
                    kind: ToolKind::Text,
                    start: pos,
                    end: pos,
                    color,
                    stroke_width,
                    text: Some(text),
                    font_size,
                },
            )
            &&& text@.len() == 0 ==> after == m
            &&& after.current == m.current
            &&& after.tool == m.tool
            &&& after.color == m.color
            &&& after.stroke_width == m.stroke_width
            &&& after.font_size == m.font_size
            &&& after.text_click_pos == m.text_click_pos
        }),
{
}

} // verus!
