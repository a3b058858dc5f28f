//! What a page draws and which widgets it offers, as a list of operations.
//!
//! Painting and registering widgets for focus go into one list, in the order in
//! which they happen. Whoever replays the list paints on a terminal and fills
//! the focus registry.

use crate::ansi::{AnsiLook, AnsiLookView};
use crate::focus::{FocusKind, WidgetId};
use crate::geometry::Rect;
use crate::text::owned;
use vstd::prelude::*;

verus! {

// ---- Styles ----

/// A terminal colour.
#[derive(Clone, Copy, Debug, PartialEq, Eq, Structural)]
pub enum Color {
    Reset,
    Black,
    Red,
    Green,
    Yellow,
    Blue,
    Magenta,
    Cyan,
    Gray,
    DarkGray,
    LightRed,
    LightGreen,
    LightYellow,
    LightBlue,
    LightMagenta,
    LightCyan,
    White,
    Rgb(u8, u8, u8),
    Indexed(u8),
}

/// Colours and modifiers that are laid over what is there. The modifiers are
/// bit sets.
#[derive(Clone, Copy, Debug, PartialEq, Eq, Structural)]
pub struct Style {
    pub fg: Option<Color>,
    pub bg: Option<Color>,
    pub add_modifier: u16,
    pub sub_modifier: u16,
}

/// The bit of the underline modifier.
pub const UNDERLINED: u16 = 8;

/// The style that changes nothing.
pub open spec fn no_style() -> Style {
    Style { fg: None, bg: None, add_modifier: 0, sub_modifier: 0 }
}

/// A foreground colour.
pub open spec fn fg_style(color: Color) -> Style {
    Style { fg: Some(color), ..no_style() }
}

/// A background colour.
pub open spec fn bg_style(color: Color) -> Style {
    Style { bg: Some(color), ..no_style() }
}

/// A foreground and a background colour.
pub open spec fn fg_bg_style(fg: Color, bg: Color) -> Style {
    Style { fg: Some(fg), bg: Some(bg), ..no_style() }
}

/// Yellow for what has the focus, nothing for what has not.
pub open spec fn focus_style(focused: bool) -> Style {
    if focused {
        fg_style(Color::Yellow)
    } else {
        no_style()
    }
}

impl Style {
    /// The style that changes nothing.
    pub fn new() -> (r: Style)
        ensures
            r == no_style(),
    {
        Style { fg: None, bg: None, add_modifier: 0, sub_modifier: 0 }
    }

    /// This style with the foreground colour `color`.
    pub fn fg(self, color: Color) -> (r: Style)
        ensures
            r == (Style { fg: Some(color), ..self }),
    {
        Style {
            fg: Some(color),
            bg: self.bg,
            add_modifier: self.add_modifier,
            sub_modifier: self.sub_modifier,
        }
    }

    /// This style with the background colour `color`.
    pub fn bg(self, color: Color) -> (r: Style)
        ensures
            r == (Style { bg: Some(color), ..self }),
    {
        Style {
            fg: self.fg,
            bg: Some(color),
            add_modifier: self.add_modifier,
            sub_modifier: self.sub_modifier,
        }
    }

    /// Yellow for what has the focus, nothing for what has not.
    pub fn focus(focused: bool) -> (r: Style)
        ensures
            r == focus_style(focused),
    {
        if focused {
            Style::new().fg(Color::Yellow)
        } else {
            Style::new()
        }
    }
}

// ---- Text ----

/// A stretch of text in one style.
#[derive(Debug)]
pub enum TextSpan {
    Styled { content: String, style: Style },
    /// Text in a style that an escape sequence set.
    Ansi { content: String, look: AnsiLook },
    /// The block cursor, on the given background.
    Cursor { bg: Color },
    /// The spinner glyph at `tick`.
    Spinner { tick: u64, style: Style },
}

/// A stretch of text in one style, over texts.
#[verifier::ext_equal]
pub enum SpanView {
    Styled { content: Seq<char>, style: Style },
    Ansi { content: Seq<char>, look: AnsiLookView },
    Cursor { bg: Color },
    Spinner { tick: u64, style: Style },
}

impl View for TextSpan {
    type V = SpanView;

    open spec fn view(&self) -> SpanView {
        match self {
            TextSpan::Styled { content, style } => SpanView::Styled {
                content: content@,
                style: *style,
            },
            TextSpan::Ansi { content, look } => SpanView::Ansi { content: content@, look: look@ },
            TextSpan::Cursor { bg } => SpanView::Cursor { bg: *bg },
            TextSpan::Spinner { tick, style } => SpanView::Spinner { tick: *tick, style: *style },
        }
    }
}

/// A span of unstyled text.
pub open spec fn raw_span(text: Seq<char>) -> SpanView {
    SpanView::Styled { content: text, style: no_style() }
}

/// A span of styled text.
pub open spec fn styled_span(text: Seq<char>, style: Style) -> SpanView {
    SpanView::Styled { content: text, style }
}

/// A span of styled text.
pub fn span(text: &str, style: Style) -> (r: TextSpan)
    ensures
        r@ == styled_span(text@, style),
{
    TextSpan::Styled { content: owned(text), style }
}

/// A line of text.
#[derive(Debug)]
pub struct TextLine {
    pub spans: Vec<TextSpan>,
}

/// The spans in `spans`, over texts.
pub open spec fn span_views(spans: Seq<TextSpan>) -> Seq<SpanView> {
    spans.map_values(|s: TextSpan| s@)
}

impl View for TextLine {
    type V = Seq<SpanView>;

    open spec fn view(&self) -> Seq<SpanView> {
        span_views(self.spans@)
    }
}

impl TextLine {
    /// The empty line.
    pub fn new() -> (r: TextLine)
        ensures
            r@ == Seq::<SpanView>::empty(),
    {
        let r = TextLine { spans: Vec::new() };
        assert(r@ =~= Seq::<SpanView>::empty());
        r
    }

    /// Append a span.
    pub fn push(&mut self, s: TextSpan)
        ensures
            final(self)@ == old(self)@.push(s@),
    {
        self.spans.push(s);
        assert(self@ =~= old(self)@.push(s@));
    }

    /// A line of unstyled text.
    pub fn raw(text: &str) -> (r: TextLine)
        ensures
            r@ == seq![raw_span(text@)],
    {
        TextLine::styled(text, Style::new())
    }

    /// A line of styled text.
    pub fn styled(text: &str, style: Style) -> (r: TextLine)
        ensures
            r@ == seq![styled_span(text@, style)],
    {
        let mut r = TextLine::new();
        r.push(span(text, style));
        assert(r@ =~= seq![styled_span(text@, style)]);
        r
    }
}

/// A line of unstyled text.
pub open spec fn raw_line(text: Seq<char>) -> Seq<SpanView> {
    seq![raw_span(text)]
}

/// The lines in `lines`, over texts.
pub open spec fn line_views(lines: Seq<TextLine>) -> Seq<Seq<SpanView>> {
    lines.map_values(|l: TextLine| l@)
}

/// Lines of text.
#[derive(Debug)]
pub struct TextBlock {
    pub lines: Vec<TextLine>,
}

impl View for TextBlock {
    type V = Seq<Seq<SpanView>>;

    open spec fn view(&self) -> Seq<Seq<SpanView>> {
        line_views(self.lines@)
    }
}

impl TextBlock {
    /// No lines.
    pub fn new() -> (r: TextBlock)
        ensures
            r@ == Seq::<Seq<SpanView>>::empty(),
    {
        let r = TextBlock { lines: Vec::new() };
        assert(r@ =~= Seq::<Seq<SpanView>>::empty());
        r
    }

    /// One line.
    pub fn of(line: TextLine) -> (r: TextBlock)
        ensures
            r@ == seq![line@],
    {
        let mut r = TextBlock::new();
        r.push(line);
        assert(r@ =~= seq![line@]);
        r
    }

    /// Append a line.
    pub fn push(&mut self, line: TextLine)
        ensures
            final(self)@ == old(self)@.push(line@),
    {
        self.lines.push(line);
        assert(self@ =~= old(self)@.push(line@));
    }

    /// Append a line of unstyled text.
    pub fn push_raw(&mut self, text: &str)
        ensures
            final(self)@ == old(self)@.push(raw_line(text@)),
    {
        self.push(TextLine::raw(text));
    }

    /// Append the lines of `other`.
    pub fn append(&mut self, other: TextBlock)
        ensures
            final(self)@ == old(self)@ + other@,
    {
        let mut rest = other.lines;
        self.lines.append(&mut rest);
        assert(self@ =~= old(self)@ + other@);
    }
}

// ---- Operations ----

/// What happens to lines that are wider than their area.
#[derive(Clone, Copy, Debug, PartialEq, Eq, Structural)]
pub enum Wrap {
    /// They are cut off.
    Cut,
    /// They wrap; blanks at the start of a line stay.
    Keep,
    /// They wrap; blanks at the start of a line go.
    Trim,
}

/// The look of a button.
#[derive(Clone, Copy, Debug, PartialEq, Eq, Structural)]
pub enum Look {
    Plain,
    Danger,
}

/// Where the globe is marked.
#[derive(Clone, Copy, Debug, PartialEq, Eq, Structural)]
pub struct Marker {
    pub color: Color,
    pub latitude: crate::daemon::Degrees,
    pub longitude: crate::daemon::Degrees,
}

/// One step in drawing a page and registering its widgets.
#[derive(Debug)]
pub enum Op {
    /// Paint text.
    Text { area: Rect, text: TextBlock, wrap: Wrap, scroll: u16, style: Style },
    /// Paint a border with a title.
    Border { area: Rect, title: String },
    /// Paint `[label]` and register it.
    Button { area: Rect, label: String, id: WidgetId, focused: bool, look: Look },
    /// Paint `[label]` in the given style, with a spinner while `running`, and
    /// register it.
    RunningButton {
        area: Rect,
        label: String,
        id: WidgetId,
        style: Style,
        running: bool,
        tick: u64,
    },
    /// Paint `[label]` in the middle of the row, register it, and end the row.
    CenteredButton { area: Rect, label: String, id: WidgetId, focused: bool, look: Look },
    /// Paint a label and, at the right end, `[button]`; register the button and
    /// end the row.
    LabelButtonRow { area: Rect, label: String, button: String, id: WidgetId, focused: bool },
    /// Paint a vertical scrollbar.
    Scrollbar { area: Rect, total: usize, offset: usize, viewport: usize },
    /// Paint the globe, as the camera sees it, with its mark.
    Globe { area: Rect, marker: Option<Marker> },
    /// Register a widget.
    Register { id: WidgetId, area: Rect, kind: FocusKind },
    /// Register what only the mouse reaches.
    ClickTarget { id: WidgetId, area: Rect },
    /// The next widget starts a new row.
    EndRow,
    /// Paging keys stay inside the rows up to the matching end.
    BeginScrollGroup,
    EndScrollGroup,
}

/// One step in drawing a page and registering its widgets, over texts.
#[verifier::ext_equal]
pub enum OpView {
    Text { area: Rect, text: Seq<Seq<SpanView>>, wrap: Wrap, scroll: u16, style: Style },
    Border { area: Rect, title: Seq<char> },
    Button { area: Rect, label: Seq<char>, id: WidgetId, focused: bool, look: Look },
    RunningButton {
        area: Rect,
        label: Seq<char>,
        id: WidgetId,
        style: Style,
        running: bool,
        tick: u64,
    },
    CenteredButton { area: Rect, label: Seq<char>, id: WidgetId, focused: bool, look: Look },
    LabelButtonRow {
        area: Rect,
        label: Seq<char>,
        button: Seq<char>,
        id: WidgetId,
        focused: bool,
    },
    Scrollbar { area: Rect, total: usize, offset: usize, viewport: usize },
    Globe { area: Rect, marker: Option<Marker> },
    Register { id: WidgetId, area: Rect, kind: FocusKind },
    ClickTarget { id: WidgetId, area: Rect },
    EndRow,
    BeginScrollGroup,
    EndScrollGroup,
}

impl View for Op {
    type V = OpView;

    open spec fn view(&self) -> OpView {
        match self {
            Op::Text { area, text, wrap, scroll, style } => OpView::Text {
                area: *area,
                text: text@,
                wrap: *wrap,
                scroll: *scroll,
                style: *style,
            },
            Op::Border { area, title } => OpView::Border { area: *area, title: title@ },
            Op::Button { area, label, id, focused, look } => OpView::Button {
                area: *area,
                label: label@,
                id: *id,
                focused: *focused,
                look: *look,
            },
            Op::RunningButton { area, label, id, style, running, tick } => OpView::RunningButton {
                area: *area,
                label: label@,
                id: *id,
                style: *style,
                running: *running,
                tick: *tick,
            },
            Op::CenteredButton { area, label, id, focused, look } => OpView::CenteredButton {
                area: *area,
                label: label@,
                id: *id,
                focused: *focused,
                look: *look,
            },
            Op::LabelButtonRow { area, label, button, id, focused } => OpView::LabelButtonRow {
                area: *area,
                label: label@,
                button: button@,
                id: *id,
                focused: *focused,
            },
            Op::Scrollbar { area, total, offset, viewport } => OpView::Scrollbar {
                area: *area,
                total: *total,
                offset: *offset,
                viewport: *viewport,
            },
            Op::Globe { area, marker } => OpView::Globe { area: *area, marker: *marker },
            Op::Register { id, area, kind } => OpView::Register {
                id: *id,
                area: *area,
                kind: *kind,
            },
            Op::ClickTarget { id, area } => OpView::ClickTarget { id: *id, area: *area },
            Op::EndRow => OpView::EndRow,
            Op::BeginScrollGroup => OpView::BeginScrollGroup,
            Op::EndScrollGroup => OpView::EndScrollGroup,
        }
    }
}

/// One unstyled line of text, cut off at the end of its area.
pub open spec fn label_op(area: Rect, text: Seq<char>) -> OpView {
    styled_op(area, text, no_style())
}

/// One line of text in one style, cut off at the end of its area.
pub open spec fn styled_op(area: Rect, text: Seq<char>, style: Style) -> OpView {
    OpView::Text { area, text: seq![raw_line(text)], wrap: Wrap::Cut, scroll: 0, style }
}

/// Lines of text.
pub open spec fn block_op(area: Rect, text: Seq<Seq<SpanView>>, wrap: Wrap) -> OpView {
    OpView::Text { area, text, wrap, scroll: 0, style: no_style() }
}

/// A plain button.
pub open spec fn button_op(
    area: Rect,
    label: Seq<char>,
    id: WidgetId,
    focused: Option<WidgetId>,
) -> OpView {
    OpView::Button { area, label, id, focused: focused == Some(id), look: Look::Plain }
}

/// A button in the middle of its row.
pub open spec fn centered_op(
    area: Rect,
    label: Seq<char>,
    id: WidgetId,
    focused: Option<WidgetId>,
    look: Look,
) -> OpView {
    OpView::CenteredButton { area, label, id, focused: focused == Some(id), look }
}

/// A label with a button at the right end.
pub open spec fn label_button_op(
    area: Rect,
    label: Seq<char>,
    button: Seq<char>,
    id: WidgetId,
    focused: Option<WidgetId>,
) -> OpView {
    OpView::LabelButtonRow { area, label, button, id, focused: focused == Some(id) }
}

/// The widget that an operation registers, if it does.
pub open spec fn widget_in(op: OpView) -> Option<WidgetId> {
    match op {
        OpView::Button { id, .. } => Some(id),
        OpView::RunningButton { id, .. } => Some(id),
        OpView::CenteredButton { id, .. } => Some(id),
        OpView::LabelButtonRow { id, .. } => Some(id),
        OpView::Register { id, .. } => Some(id),
        OpView::ClickTarget { id, .. } => Some(id),
        _ => None,
    }
}

/// A list of operations.
#[derive(Debug)]
pub struct Scene {
    pub ops: Vec<Op>,
}

/// The operations in `ops`, over texts.
pub open spec fn op_views(ops: Seq<Op>) -> Seq<OpView> {
    ops.map_values(|o: Op| o@)
}

impl View for Scene {
    type V = Seq<OpView>;

    open spec fn view(&self) -> Seq<OpView> {
        op_views(self.ops@)
    }
}

/// The operations of `pieces`, one piece after the other.
pub open spec fn joined(pieces: Seq<Seq<OpView>>) -> Seq<OpView>
    decreases pieces.len(),
{
    if pieces.len() == 0 {
        Seq::empty()
    } else {
        joined(pieces.drop_last()) + pieces.last()
    }
}

/// One more piece.
pub(crate) proof fn joined_push(pieces: Seq<Seq<OpView>>, piece: Seq<OpView>)
    ensures
        joined(pieces.push(piece)) == joined(pieces) + piece,
{
    assert(pieces.push(piece).drop_last() =~= pieces);
}

impl Scene {
    /// Nothing.
    pub fn new() -> (r: Scene)
        ensures
            r@ == Seq::<OpView>::empty(),
    {
        let r = Scene { ops: Vec::new() };
        assert(r@ =~= Seq::<OpView>::empty());
        r
    }

    /// Append an operation.
    pub fn push(&mut self, op: Op)
        ensures
            final(self)@ == old(self)@.push(op@),
    {
        self.ops.push(op);
        assert(self@ =~= old(self)@.push(op@));
    }

    /// Append the operations of `other`.
    pub fn append(&mut self, other: Scene)
        ensures
            final(self)@ == old(self)@ + other@,
    {
        let mut rest = other.ops;
        self.ops.append(&mut rest);
        assert(self@ =~= old(self)@ + other@);
    }

    /// Paint one unstyled line of text.
    pub fn label(&mut self, area: Rect, text: &str)
        ensures
            final(self)@ == old(self)@.push(label_op(area, text@)),
    {
        self.styled(area, text, Style::new());
    }

    /// Paint one line of text in one style.
    pub fn styled(&mut self, area: Rect, text: &str, style: Style)
        ensures
            final(self)@ == old(self)@.push(styled_op(area, text@, style)),
    {
        self.push(
            Op::Text {
                area,
                text: TextBlock::of(TextLine::raw(text)),
                wrap: Wrap::Cut,
                scroll: 0,
                style,
            },
        );
    }

    /// Paint lines of text.
    pub fn block(&mut self, area: Rect, text: TextBlock, wrap: Wrap)
        ensures
            final(self)@ == old(self)@.push(block_op(area, text@, wrap)),
    {
        self.push(Op::Text { area, text, wrap, scroll: 0, style: Style::new() });
    }

    /// Paint and register a plain button.
    pub fn button(&mut self, area: Rect, label: &str, id: WidgetId, focused: Option<WidgetId>)
        ensures
            final(self)@ == old(self)@.push(button_op(area, label@, id, focused)),
    {
        let focused = crate::focus::is_focused(focused, id);
        self.push(Op::Button { area, label: owned(label), id, focused, look: Look::Plain });
    }

    /// Paint and register a button in the middle of its row.
    pub fn centered_button(
        &mut self,
        area: Rect,
        label: &str,
        id: WidgetId,
        focused: Option<WidgetId>,
        look: Look,
    )
        ensures
            final(self)@ == old(self)@.push(centered_op(area, label@, id, focused, look)),
    {
        let focused = crate::focus::is_focused(focused, id);
        self.push(Op::CenteredButton { area, label: owned(label), id, focused, look });
    }

    /// Paint a label and register the button at its right end.
    pub fn label_button_row(
        &mut self,
        area: Rect,
        label: &str,
        button: &str,
        id: WidgetId,
        focused: Option<WidgetId>,
    )
        ensures
            final(self)@ == old(self)@.push(
                label_button_op(area, label@, button@, id, focused),
            ),
    {
        let focused = crate::focus::is_focused(focused, id);
        self.push(
            Op::LabelButtonRow { area, label: owned(label), button: owned(button), id, focused },
        );
    }

    /// Register a widget.
    pub fn register(&mut self, id: WidgetId, area: Rect, kind: FocusKind)
        ensures
            final(self)@ == old(self)@.push((OpView::Register { id, area, kind })),
    {
        self.push(Op::Register { id, area, kind });
    }

    /// End the row of widgets.
    pub fn end_row(&mut self)
        ensures
            final(self)@ == old(self)@.push(OpView::EndRow),
    {
        self.push(Op::EndRow);
    }
}

/// A button is drawn with the focus exactly if it has it, and a line that can have
/// the focus is yellow exactly then.
pub proof fn only_the_focused_widget_stands_out(
    area: Rect,
    label: Seq<char>,
    button: Seq<char>,
    id: WidgetId,
    focused: Option<WidgetId>,
    look: Look,
    on: bool,
)
    ensures
        button_op(area, label, id, focused)->Button_focused <==> focused == Some(id),
        centered_op(area, label, id, focused, look)->CenteredButton_focused <==> focused == Some(id),
        label_button_op(area, label, button, id, focused)->LabelButtonRow_focused <==> focused
            == Some(id),
        focus_style(on).fg == Some(Color::Yellow) <==> on,
        !on ==> focus_style(on).fg is None,
{
}

} // verus!
