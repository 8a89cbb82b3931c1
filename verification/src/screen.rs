//! What the screen shows for a state of the wizard, as plain text and numbers:
//! the help line, the input box with its cursor, and the lines that explain
//! the active mode. Laying the parts out and drawing them is left to the
//! program.

use crate::mode::{Notice, WizardMode};
use crate::wizard::{InteractionState, WizardState, WizardView};
use vstd::prelude::*;

verus! {

/// A piece of the help line.
#[derive(Clone, Debug, PartialEq, Eq)]
pub struct Span {
    pub text: String,
    /// Whether the piece is shown in bold.
    pub bold: bool,
}

/// The mathematical value of a [`Span`].
pub struct SpanView {
    pub text: Seq<char>,
    pub bold: bool,
}

impl View for Span {
    type V = SpanView;

    open spec fn view(&self) -> SpanView {
        SpanView { text: self.text@, bold: self.bold }
    }
}

/// The values of the pieces `spans`, one for one.
pub open spec fn spans_view(spans: Seq<Span>) -> Seq<SpanView> {
    spans.map_values(|span: Span| span@)
}

/// The characters of the lines `lines`, one for one.
pub open spec fn lines_view(lines: Seq<String>) -> Seq<Seq<char>> {
    lines.map_values(|line: String| line@)
}

/// What the screen shows.
#[derive(Clone, Debug, PartialEq, Eq)]
pub struct Screen {
    /// The pieces of the help line.
    pub help: Vec<Span>,
    /// Whether the help line blinks.
    pub help_blinks: bool,
    /// The text in the input box.
    pub input: String,
    /// Whether the text in the input box is set off by colour.
    pub input_highlighted: bool,
    /// The column and row of the cursor, if it is shown.
    pub cursor: Option<(u16, u16)>,
    /// The lines below the input box.
    pub messages: Vec<String>,
}

/// The mathematical value of a [`Screen`].
pub struct ScreenView {
    pub help: Seq<SpanView>,
    pub help_blinks: bool,
    pub input: Seq<char>,
    pub input_highlighted: bool,
    pub cursor: Option<(u16, u16)>,
    pub messages: Seq<Seq<char>>,
}

impl View for Screen {
    type V = ScreenView;

    open spec fn view(&self) -> ScreenView {
        ScreenView {
            help: spans_view(self.help@),
            help_blinks: self.help_blinks,
            input: self.input@,
            input_highlighted: self.input_highlighted,
            cursor: self.cursor,
            messages: lines_view(self.messages@),
        }
    }
}

/// A piece of the help line in plain type.
pub open spec fn plain(text: Seq<char>) -> SpanView {
    SpanView { text, bold: false }
}

/// A piece of the help line in bold type.
pub open spec fn bold(text: Seq<char>) -> SpanView {
    SpanView { text, bold: true }
}

/// The help line: the keys that lead out of the way keys are read now.
pub open spec fn help_spans(interaction: InteractionState) -> Seq<SpanView> {
    match interaction {
        InteractionState::Normal => seq![
            plain("Press "@),
            bold("q"@),
            plain(" to exit, "@),
            bold("e"@),
            bold(" to start editing."@),
        ],
        InteractionState::Editing => seq![
            plain("Press "@),
            bold("Esc"@),
            plain(" to stop editing, "@),
            bold("Enter"@),
            plain(" to record the message"@),
        ],
    }
}

/// The lines that tell the user what `mode` expects.
pub open spec fn prompt_text(mode: WizardMode) -> Seq<Seq<char>> {
    match mode {
        WizardMode::SelectMode => seq![
            "Please select one of the following modes."@,
            "Enter the number only."@,
            "1. Image Picker"@,
            "2. Re-Size the image"@,
            "3. Grayscale the image"@,
            "4. Blur the image format"@,
        ],
        WizardMode::ImagePicker => seq![
            "Enter the directory of the image you wish to edit"@,
            "Example: /home/user/Pictures/meow.jpg"@,
        ],
        WizardMode::ReSize => seq![
            "Enter the Width and Height of the wanted re-size"@,
            "In the format of WidthxHeight using whole numbers"@,
            "For example 600x777"@,
        ],
        WizardMode::Grayscale => seq!["Press Enter to Confirm (you have no choice right now :) )"@],
        WizardMode::Blur => seq![
            "Choose a Blur intensity"@,
            "must be a floating point of 32bit size"@,
            "for example 1432.12"@,
        ],
    }
}

/// The sentence that tells the user of `notice`.
pub open spec fn notice_text(notice: Notice) -> Seq<char> {
    match notice {
        Notice::NoImageChosen => "No image has been chosen yet, pick one first."@,
        Notice::BadDimensions => "The size must be given as WidthxHeight, for example 600x777."@,
        Notice::BadStrength => "The blur intensity must be a number, for example 1432.12."@,
        Notice::OpenFailed => "The file could not be opened as an image."@,
        Notice::SaveFailed => "The image could not be saved."@,
    }
}

/// `position`, or `u16::MAX` where `position` lies beyond it.
pub open spec fn on_screen(position: int) -> u16 {
    if position <= u16::MAX {
        position as u16
    } else {
        u16::MAX
    }
}

/// The column and row of the cursor in an input box whose frame has its
/// corner in column `left` and row `top`, with `cursor` characters before the
/// cursor: one column and one row for the frame, then one column for each
/// character. The cursor is shown only while editing.
pub open spec fn cursor_place(
    interaction: InteractionState,
    left: u16,
    top: u16,
    cursor: nat,
) -> Option<(u16, u16)> {
    match interaction {
        InteractionState::Normal => None,
        InteractionState::Editing => Some((on_screen(left + cursor + 1), on_screen(top + 1))),
    }
}

/// What the screen shows for `state`, with the corner of the input box in
/// column `left` and row `top`: the help line, which blinks while keys are
/// read as shortcuts; the text being edited, set off by colour while editing;
/// the cursor; and the lines for the active mode, followed by the notice if
/// there is one.
pub open spec fn screen_of(state: WizardView, left: u16, top: u16) -> ScreenView {
    ScreenView {
        help: help_spans(state.interaction),
        help_blinks: state.interaction is Normal,
        input: state.buffer.text,
        input_highlighted: state.interaction is Editing,
        cursor: cursor_place(state.interaction, left, top, state.buffer.cursor),
        messages: match state.notice {
            Some(notice) => prompt_text(state.mode).push(notice_text(notice)),
            None => prompt_text(state.mode),
        },
    }
}

/// A piece of the help line.
fn span(text: &str, bold: bool) -> (span: Span)
    ensures
        span@ == (SpanView { text: text@, bold }),
{
    Span { text: text.to_owned(), bold }
}

/// The pieces of the help line for `interaction`.
pub fn help_line(interaction: InteractionState) -> (spans: Vec<Span>)
    ensures
        spans_view(spans@) == help_spans(interaction),
{
    let mut spans: Vec<Span> = Vec::new();
    match interaction {
        InteractionState::Normal => {
            spans.push(span("Press ", false));
            spans.push(span("q", true));
            spans.push(span(" to exit, ", false));
            spans.push(span("e", true));
            spans.push(span(" to start editing.", true));
        },
        InteractionState::Editing => {
            spans.push(span("Press ", false));
            spans.push(span("Esc", true));
            spans.push(span(" to stop editing, ", false));
            spans.push(span("Enter", true));
            spans.push(span(" to record the message", false));
        },
    }
    assert(spans_view(spans@) =~= help_spans(interaction));
    spans
}

/// The lines that tell the user what `mode` expects.
pub fn prompt_lines(mode: WizardMode) -> (lines: Vec<String>)
    ensures
        lines_view(lines@) == prompt_text(mode),
{
    let mut lines: Vec<String> = Vec::new();
    match mode {
        WizardMode::SelectMode => {
            lines.push("Please select one of the following modes.".to_owned());
            lines.push("Enter the number only.".to_owned());
            lines.push("1. Image Picker".to_owned());
            lines.push("2. Re-Size the image".to_owned());
            lines.push("3. Grayscale the image".to_owned());
            lines.push("4. Blur the image format".to_owned());
        },
        WizardMode::ImagePicker => {
            lines.push("Enter the directory of the image you wish to edit".to_owned());
            lines.push("Example: /home/user/Pictures/meow.jpg".to_owned());
        },
        WizardMode::ReSize => {
            lines.push("Enter the Width and Height of the wanted re-size".to_owned());
            lines.push("In the format of WidthxHeight using whole numbers".to_owned());
            lines.push("For example 600x777".to_owned());
        },
        WizardMode::Grayscale => {
            lines.push("Press Enter to Confirm (you have no choice right now :) )".to_owned());
        },
        WizardMode::Blur => {
            lines.push("Choose a Blur intensity".to_owned());
            lines.push("must be a floating point of 32bit size".to_owned());
            lines.push("for example 1432.12".to_owned());
        },
    }
    assert(lines_view(lines@) =~= prompt_text(mode));
    lines
}

/// The sentence that tells the user of `notice`.
pub fn notice_line(notice: Notice) -> (line: String)
    ensures
        line@ == notice_text(notice),
{
    match notice {
        Notice::NoImageChosen => "No image has been chosen yet, pick one first.".to_owned(),
        Notice::BadDimensions => "The size must be given as WidthxHeight, for example 600x777.".to_owned(),
        Notice::BadStrength => "The blur intensity must be a number, for example 1432.12.".to_owned(),
        Notice::OpenFailed => "The file could not be opened as an image.".to_owned(),
        Notice::SaveFailed => "The image could not be saved.".to_owned(),
    }
}

/// Where the cursor is shown in an input box whose frame has its corner in
/// column `left` and row `top`, with `cursor` characters before the cursor.
pub fn cursor_hint(interaction: InteractionState, left: u16, top: u16, cursor: usize) -> (place:
    Option<(u16, u16)>)
    ensures
        place == cursor_place(interaction, left, top, cursor as nat),
{
    match interaction {
        InteractionState::Normal => None,
        InteractionState::Editing => {
            let room: u16 = u16::MAX - left;
            let column: u16 = if cursor >= room as usize {
                u16::MAX
            } else {
                left + cursor as u16 + 1
            };
            let row: u16 = if top == u16::MAX {
                u16::MAX
            } else {
                top + 1
            };
            Some((column, row))
        },
    }
}

/// What the screen shows for `state`, with the corner of the input box in
/// column `left` and row `top`.
pub fn compose(state: &WizardState, left: u16, top: u16) -> (screen: Screen)
    ensures
        screen@ == screen_of(state@, left, top),
{
    let interaction = state.interaction();
    let mut messages = prompt_lines(state.mode());
    match state.notice() {
        Some(notice) => {
            messages.push(notice_line(notice));
        },
        None => {},
    }
    let (help_blinks, input_highlighted) = match interaction {
        InteractionState::Normal => (true, false),
        InteractionState::Editing => (false, true),
    };
    let screen = Screen {
        help: help_line(interaction),
        help_blinks,
        input: state.buffer().contents(),
        input_highlighted,
        cursor: cursor_hint(interaction, left, top, state.buffer().cursor()),
        messages,
    };
    assert(screen@.messages =~= screen_of(state@, left, top).messages);
    screen
}

} // verus!
