//! What a frame shows: the help bar, the two panels, and where they go.
//!
//! A [`Screen`] is plain data. The shell turns it into widgets and draws
//! them; nothing here touches the terminal.

use vstd::prelude::*;
use crate::keys::{binding, Action, Side};
use crate::layout::{balanced_layout_is_determined, frame_layout, Area, FrameLayout};

verus! {

/// The foreground colour of a piece of text.
#[derive(Clone, Copy, Debug, PartialEq, Eq, Structural)]
pub enum Tint {
    /// The terminal's own colour.
    Plain,
    Green,
}

/// A run of help text in one style.
#[derive(Clone, Debug, PartialEq, Eq)]
pub struct Segment {
    pub text: String,
    pub tint: Tint,
    pub bold: bool,
}

/// The one-line help bar.
#[derive(Clone, Debug, PartialEq, Eq)]
pub struct HelpBar {
    /// The text, left to right.
    pub segments: Vec<Segment>,
    /// Whether the whole line blinks rapidly.
    pub rapid_blink: bool,
}

/// A bordered, titled, read-only view of one buffer.
#[derive(Clone, Debug, PartialEq, Eq)]
pub struct Panel {
    pub title: String,
    /// The full text of the buffer.
    pub text: String,
    /// Whether wrapped lines lose their leading white space. Long lines wrap
    /// at the panel's edge in either case.
    pub trim: bool,
}

/// One frame.
#[derive(Clone, Debug, PartialEq, Eq)]
pub struct Screen {
    pub layout: FrameLayout,
    pub help: HelpBar,
    pub left: Panel,
    pub right: Panel,
}

/// The mathematical value of a [`Segment`].
pub struct SegmentModel {
    pub text: Seq<char>,
    pub tint: Tint,
    pub bold: bool,
}

/// The mathematical value of a [`HelpBar`].
pub struct HelpBarModel {
    pub segments: Seq<SegmentModel>,
    pub rapid_blink: bool,
}

/// The mathematical value of a [`Screen`].
pub struct ScreenModel {
    pub layout: FrameLayout,
    pub help: HelpBarModel,
    pub left: PanelModel,
    pub right: PanelModel,
}

/// The mathematical value of a [`Panel`].
pub struct PanelModel {
    pub title: Seq<char>,
    pub text: Seq<char>,
    pub trim: bool,
}

impl View for Segment {
    type V = SegmentModel;

    open spec fn view(&self) -> SegmentModel {
        SegmentModel { text: self.text@, tint: self.tint, bold: self.bold }
    }
}

impl View for HelpBar {
    type V = HelpBarModel;

    open spec fn view(&self) -> HelpBarModel {
        HelpBarModel {
            segments: self.segments@.map_values(|segment: Segment| segment@),
            rapid_blink: self.rapid_blink,
        }
    }
}

impl View for Panel {
    type V = PanelModel;

    open spec fn view(&self) -> PanelModel {
        PanelModel { title: self.title@, text: self.text@, trim: self.trim }
    }
}

impl View for Screen {
    type V = ScreenModel;

    open spec fn view(&self) -> ScreenModel {
        ScreenModel {
            layout: self.layout,
            help: self.help@,
            left: self.left@,
            right: self.right@,
        }
    }
}

/// A key name in the help bar: green and bold.
pub open spec fn key_label(text: Seq<char>) -> SegmentModel {
    SegmentModel { text, tint: Tint::Green, bold: true }
}

/// Explanatory text in the help bar.
pub open spec fn plain_label(text: Seq<char>) -> SegmentModel {
    SegmentModel { text, tint: Tint::Plain, bold: false }
}

/// The help bar: each key in brackets, followed by what it does.
pub open spec fn help_bar() -> HelpBarModel {
    HelpBarModel {
        segments: seq![
            key_label("[q]"@),
            plain_label(" Quit - "@),
            key_label("[a]"@),
            plain_label(" edit left - "@),
            key_label("[b]"@),
            plain_label(" edit right - "@),
            key_label("[c]"@),
            plain_label(" clear input - "@),
            key_label("[d]"@),
            plain_label(" diff text"@),
        ],
        rapid_blink: true,
    }
}

/// The title of a buffer's panel.
pub open spec fn panel_title(side: Side) -> Seq<char> {
    match side {
        Side::Left => "Contents (Left)"@,
        Side::Right => "Contents (Right)"@,
    }
}

/// The text shown for a buffer: what was read, or nothing when the buffer
/// could not be read.
pub open spec fn shown(content: Option<Seq<char>>) -> Seq<char> {
    match content {
        Some(text) => text,
        None => Seq::empty(),
    }
}

/// The panel of a buffer: titled by its side, showing its text unchanged,
/// wrapped without trimming.
pub open spec fn panel_of(side: Side, content: Option<Seq<char>>) -> PanelModel {
    PanelModel { title: panel_title(side), text: shown(content), trim: false }
}

/// What was read of a buffer, as a mathematical value.
pub open spec fn content_of(read: Option<String>) -> Option<Seq<char>> {
    match read {
        Some(text) => Some(text@),
        None => None,
    }
}

/// Whether `screen` is a frame of `area` for the two contents: the help bar
/// as it always is, each panel showing its buffer, and the layout a proper
/// frame for the area.
pub open spec fn frames(
    screen: ScreenModel,
    area: Area,
    left: Option<Seq<char>>,
    right: Option<Seq<char>>,
) -> bool {
    &&& screen.help == help_bar()
    &&& screen.left == panel_of(Side::Left, left)
    &&& screen.right == panel_of(Side::Right, right)
    &&& screen.layout.balanced(area)
}

fn key_segment(text: &str) -> (segment: Segment)
    ensures
        segment@ == key_label(text@),
{
    Segment { text: text.to_owned(), tint: Tint::Green, bold: true }
}

fn plain_segment(text: &str) -> (segment: Segment)
    ensures
        segment@ == plain_label(text@),
{
    Segment { text: text.to_owned(), tint: Tint::Plain, bold: false }
}

/// Builds the help bar.
pub fn help_widget() -> (bar: HelpBar)
    ensures
        bar@ == help_bar(),
{
    let segments = vec![
        key_segment("[q]"),
        plain_segment(" Quit - "),
        key_segment("[a]"),
        plain_segment(" edit left - "),
        key_segment("[b]"),
        plain_segment(" edit right - "),
        key_segment("[c]"),
        plain_segment(" clear input - "),
        key_segment("[d]"),
        plain_segment(" diff text"),
    ];
    let bar = HelpBar { segments, rapid_blink: true };
    assert(bar@.segments =~= help_bar().segments);
    bar
}

/// The text to show for a buffer. `read` is what reading the buffer gave,
/// `None` when it could not be read: a buffer that is missing or unreadable
/// shows as empty and is never an error.
pub fn shown_text(read: Option<String>) -> (text: String)
    ensures
        text@ == shown(content_of(read)),
{
    match read {
        Some(text) => text,
        None => String::new(),
    }
}

/// Builds the panel of one buffer from what was read of it.
pub fn panel(side: Side, read: Option<String>) -> (panel: Panel)
    ensures
        panel@ == panel_of(side, content_of(read)),
{
    let title = match side {
        Side::Left => "Contents (Left)",
        Side::Right => "Contents (Right)",
    };
    Panel { title: title.to_owned(), text: shown_text(read), trim: false }
}

/// Composes the frame for a terminal of size `area` from what was read of
/// the two buffers.
///
/// The help bar and the panels are a function of the arguments alone. The
/// layout is a proper frame for the area: the help bar in the top row, the
/// panels side by side below it, equally wide but for an odd column.
pub fn ui(area: Area, left: Option<String>, right: Option<String>) -> (screen: Screen)
    ensures
        frames(screen@, area, content_of(left), content_of(right)),
{
    Screen {
        layout: frame_layout(area),
        help: help_widget(),
        left: panel(Side::Left, left),
        right: panel(Side::Right, right),
    }
}

/// The help bar names every bound key: for each action that has a key, one
/// green, bold label holds that key in brackets, and the plain text that
/// explains it follows directly.
pub proof fn help_names_every_binding(action: Action)
    requires
        action != Action::Ignore,
    ensures
        exists|i: int|
            {
                &&& 0 <= i < help_bar().segments.len() - 1
                &&& #[trigger] help_bar().segments[i] == key_label(
                    seq!['[', binding(action).unwrap(), ']'],
                )
                &&& help_bar().segments[i + 1].tint == Tint::Plain
                &&& !help_bar().segments[i + 1].bold
            },
{
    reveal_strlit("[q]");
    reveal_strlit("[a]");
    reveal_strlit("[b]");
    reveal_strlit("[c]");
    reveal_strlit("[d]");
    let i: int = match action {
        Action::Quit => 0,
        Action::Edit(Side::Left) => 2,
        Action::Edit(Side::Right) => 4,
        Action::Clear => 6,
        _ => 8,
    };
    assert(help_bar().segments[i].text =~= seq!['[', binding(action).unwrap(), ']']);
    assert(help_bar().segments[i + 1].tint == Tint::Plain);
}

/// The help bar is a single line: no piece of it holds a line break.
pub proof fn help_is_one_line(i: int, j: int)
    requires
        0 <= i < help_bar().segments.len(),
        0 <= j < help_bar().segments[i].text.len(),
    ensures
        help_bar().segments[i].text[j] != '\n',
{
    reveal_strlit("[q]");
    reveal_strlit(" Quit - ");
    reveal_strlit("[a]");
    reveal_strlit(" edit left - ");
    reveal_strlit("[b]");
    reveal_strlit(" edit right - ");
    reveal_strlit("[c]");
    reveal_strlit(" clear input - ");
    reveal_strlit("[d]");
    reveal_strlit(" diff text");
}

/// A frame is a function of the two contents and the size of the terminal:
/// on an area with room, two frames for the same inputs are the same frame,
/// layout and all.
pub proof fn frame_is_determined(
    first: ScreenModel,
    second: ScreenModel,
    area: Area,
    left: Option<Seq<char>>,
    right: Option<Seq<char>>,
)
    requires
        frames(first, area, left, right),
        frames(second, area, left, right),
        area.roomy(),
    ensures
        first == second,
{
    balanced_layout_is_determined(first.layout, area);
    balanced_layout_is_determined(second.layout, area);
}

/// A buffer that cannot be read draws the same frame as an empty one.
pub proof fn unreadable_frames_as_empty(screen: ScreenModel, area: Area, other: Option<Seq<char>>)
    ensures
        frames(screen, area, None, other) <==> frames(screen, area, Some(Seq::empty()), other),
        frames(screen, area, other, None) <==> frames(screen, area, other, Some(Seq::empty())),
{
}

/// A panel shows the text that was read in full and unchanged, and shows
/// nothing for a buffer that could not be read or is empty.
pub proof fn panel_shows_what_was_read(side: Side, content: Option<Seq<char>>)
    ensures
        content is Some ==> panel_of(side, content).text == content.unwrap(),
        content is None ==> panel_of(side, content).text.len() == 0,
        panel_of(side, Some(Seq::empty())) == panel_of(side, None),
{
}

} // verus!
