use vstd::prelude::*;
use crate::builders::{CropStage, CropStageView, MergeStage, MergeStageView};
use crate::operation::{direction_options, direction_symbols, Operation};
use crate::session::{Mode, ModeView, Session};
use crate::text::{copy_text, decimal, push_char, push_decimal, push_text};

verus! {

/// The colours in which the status line is drawn.
#[derive(Clone, Copy, Debug, PartialEq, Eq)]
pub enum Emphasis {
    /// Nothing special.
    Normal,
    /// The last key could not be honoured.
    Error,
    /// The line asks for confirmation.
    Question,
}

/// A piece of the status line.
#[derive(Debug, PartialEq, Eq)]
pub struct Segment {
    /// Whether the piece is under the cursor.
    pub highlighted: bool,
    /// What the piece says.
    pub text: String,
}

/// A piece of the status line, as plain values.
#[verifier::ext_equal]
pub struct SegmentView {
    pub highlighted: bool,
    pub text: Seq<char>,
}

impl View for Segment {
    type V = SegmentView;

    open spec fn view(&self) -> SegmentView {
        SegmentView { highlighted: self.highlighted, text: self.text@ }
    }
}

impl DeepView for Segment {
    type V = SegmentView;

    open spec fn deep_view(&self) -> SegmentView {
        self@
    }
}

/// The status line: its pieces from left to right, and its colours.
#[derive(Debug, PartialEq, Eq)]
pub struct StatusLine {
    pub emphasis: Emphasis,
    pub segments: Vec<Segment>,
}

/// The status line, as plain values.
#[verifier::ext_equal]
pub struct StatusLineView {
    pub emphasis: Emphasis,
    pub segments: Seq<SegmentView>,
}

impl View for StatusLine {
    type V = StatusLineView;

    open spec fn view(&self) -> StatusLineView {
        StatusLineView { emphasis: self.emphasis, segments: self.segments.deep_view() }
    }
}

/// A piece that is not under the cursor.
pub open spec fn plain(text: Seq<char>) -> SegmentView {
    SegmentView { highlighted: false, text }
}

/// A strip of options: each symbol, the one at `cursor` highlighted, with a
/// blank behind it.
pub open spec fn strip_of(options: Seq<char>, cursor: int) -> Seq<SegmentView> {
    Seq::new(
        2 * options.len(),
        |k: int|
            if k % 2 == 0 {
                SegmentView { highlighted: k / 2 == cursor, text: seq![options[k / 2]] }
            } else {
                plain(" "@)
            },
    )
}

/// What stands behind a description when it is to be confirmed.
pub open spec fn confirmation_suffix() -> Seq<char> {
    " : Confirm?"@
}

/// The pieces of the status line while a merge is assembled.
pub open spec fn merge_segments(stage: MergeStageView) -> Seq<SegmentView> {
    match stage {
        MergeStageView::OperandA(_) => seq![plain("Merge: ("@)],
        MergeStageView::OperandB(first, _) => seq![
            plain("Merge: ("@ + decimal((first + 1) as nat) + ", "@),
        ],
        MergeStageView::Direction(_, _, selector) => seq![plain("Direction: "@)] + strip_of(
            direction_symbols(),
            selector.cursor,
        ),
        MergeStageView::Confirm(first, second, direction) => seq![
            plain(
                Operation::Merge(first as usize, second as usize, direction).description()
                    + confirmation_suffix(),
            ),
        ],
    }
}

/// The pieces of the status line while a crop is assembled.
pub open spec fn crop_segments(stage: CropStageView) -> Seq<SegmentView> {
    match stage {
        CropStageView::Operand(_) => seq![plain("Merge: ("@)],
        CropStageView::X0(_, digits) => seq![plain("X0: "@ + digits)],
        CropStageView::Y0(_, _, digits) => seq![plain("Y0: "@ + digits)],
        CropStageView::Width(_, _, _, digits) => seq![plain("WIDTH: "@ + digits)],
        CropStageView::Height(_, _, _, _, digits) => seq![plain("HEIGHT: "@ + digits)],
        CropStageView::Confirm(source, x0, y0, width, height) => seq![
            plain(
                Operation::Crop(source as usize, x0, y0, width, height).description()
                    + confirmation_suffix(),
            ),
        ],
    }
}

/// Whether the session waits for a confirmation.
pub open spec fn asks_confirmation(mode: ModeView) -> bool {
    match mode {
        ModeView::Merging(builder) => builder.stage is Confirm,
        ModeView::Cropping(builder) => builder.stage is Confirm,
        _ => false,
    }
}

/// The status line of a session in `mode`, where `flagged` says whether
/// the last key could not be honoured.
pub open spec fn status_of(mode: ModeView, flagged: bool) -> StatusLineView {
    StatusLineView {
        emphasis: if asks_confirmation(mode) {
            Emphasis::Question
        } else if flagged {
            Emphasis::Error
        } else {
            Emphasis::Normal
        },
        segments: match mode {
            ModeView::Idle => Seq::empty(),
            ModeView::Entering(_, entry) => seq![plain("File: "@ + entry.buffer)],
            ModeView::Merging(builder) => merge_segments(builder.stage),
            ModeView::Cropping(builder) => crop_segments(builder.stage),
        },
    }
}

/// The operation under the cursor, while one is being selected.
pub open spec fn selected_of(mode: ModeView) -> Option<int> {
    match mode {
        ModeView::Merging(builder) => match builder.stage {
            MergeStageView::OperandA(selector) => Some(selector.cursor),
            MergeStageView::OperandB(_, selector) => Some(selector.cursor),
            _ => None,
        },
        ModeView::Cropping(builder) => match builder.stage {
            CropStageView::Operand(selector) => Some(selector.cursor),
            _ => None,
        },
        _ => None,
    }
}

/// Whether the cursor of the session is on a candidate of a selection: an
/// operation in the log, or an option in a strip.
pub open spec fn selecting(mode: ModeView) -> bool {
    match mode {
        ModeView::Merging(builder) => !(builder.stage is Confirm),
        ModeView::Cropping(builder) => builder.stage is Operand,
        _ => false,
    }
}

/// The status line of one piece: `prompt` and `text` behind it.
fn prompt_line(prompt: &str, text: &str) -> (segments: Vec<Segment>)
    ensures
        segments.deep_view() == seq![plain(prompt@ + text@)],
{
    let mut line = copy_text(prompt);
    push_text(&mut line, text);
    let mut segments: Vec<Segment> = Vec::new();
    segments.push(Segment { highlighted: false, text: line });
    segments
}

/// The status line of one piece: `prompt`.
fn bare_line(prompt: &str) -> (segments: Vec<Segment>)
    ensures
        segments.deep_view() == seq![plain(prompt@)],
{
    let mut segments: Vec<Segment> = Vec::new();
    segments.push(Segment { highlighted: false, text: copy_text(prompt) });
    segments
}

/// The status line of one piece: the description of `operation`, to be
/// confirmed.
fn confirmation_line(operation: &Operation) -> (segments: Vec<Segment>)
    ensures
        segments.deep_view() == seq![plain(operation.description() + confirmation_suffix())],
{
    let described = operation.describe();
    prompt_line(described.as_str(), " : Confirm?")
}

/// A prompt and a strip of options behind it, the option at `cursor`
/// highlighted.
pub fn option_strip(prompt: &str, options: &Vec<char>, cursor: usize) -> (segments: Vec<Segment>)
    ensures
        segments.deep_view() == seq![plain(prompt@)] + strip_of(options@, cursor as int),
{
    let ghost whole = seq![plain(prompt@)] + strip_of(options@, cursor as int);
    let mut segments: Vec<Segment> = Vec::new();
    segments.push(Segment { highlighted: false, text: copy_text(prompt) });
    let mut i: usize = 0;
    while i < options.len()
        invariant
            i <= options.len(),
            whole == seq![plain(prompt@)] + strip_of(options@, cursor as int),
            segments.len() == 1 + 2 * i,
            forall|k: int| 0 <= k < segments.len() ==> (#[trigger] segments@[k])@ == whole[k],
        decreases options.len() - i,
    {
        let mut symbol = String::new();
        push_char(&mut symbol, options[i]);
        segments.push(Segment { highlighted: i == cursor, text: symbol });
        segments.push(Segment { highlighted: false, text: copy_text(" ") });
        i += 1;
    }
    segments
}

/// The operation under the cursor, while one is being selected.
pub fn selected_operation(session: &Session) -> (selected: Option<usize>)
    ensures
        selected_of(session@.mode) == match selected {
            Some(position) => Some(position as int),
            None => None,
        },
{
    match session.mode() {
        Mode::Merging(builder) => match builder.stage() {
            MergeStage::OperandA(selector) => Some(selector.cursor()),
            MergeStage::OperandB(_, selector) => Some(selector.cursor()),
            _ => None,
        },
        Mode::Cropping(builder) => match builder.stage() {
            CropStage::Operand(selector) => Some(selector.cursor()),
            _ => None,
        },
        _ => None,
    }
}

/// Whether the cursor of the session is on a candidate of a selection. The
/// cursor of the terminal is of no use meanwhile.
pub fn is_selecting(session: &Session) -> (active: bool)
    ensures
        active == selecting(session@.mode),
{
    match session.mode() {
        Mode::Merging(builder) => match builder.stage() {
            MergeStage::Confirm(_, _, _) => false,
            _ => true,
        },
        Mode::Cropping(builder) => match builder.stage() {
            CropStage::Operand(_) => true,
            _ => false,
        },
        _ => false,
    }
}

/// The status line of `session`, where `flagged` says whether the last
/// key could not be honoured.
pub fn status_line(session: &Session, flagged: bool) -> (line: StatusLine)
    requires
        session@.wf(),
    ensures
        line@ == status_of(session@.mode, flagged),
{
    let mut question = false;
    let segments = match session.mode() {
        Mode::Idle => {
            let segments: Vec<Segment> = Vec::new();
            segments
        },
        Mode::Entering(_, entry) => prompt_line("File: ", entry.buffer()),
        Mode::Merging(builder) => match builder.stage() {
            MergeStage::OperandA(_) => bare_line("Merge: ("),
            MergeStage::OperandB(first, _) => {
                let mut number = String::new();
                push_decimal(&mut number, (*first + 1) as u64);
                push_text(&mut number, ", ");
                let segments = prompt_line("Merge: (", number.as_str());
                assert("Merge: ("@ + number@ =~= "Merge: ("@ + decimal((*first + 1) as nat) + ", "@);
                segments
            },
            MergeStage::Direction(_, _, selector) => {
                let options = direction_options();
                option_strip("Direction: ", &options, selector.cursor())
            },
            MergeStage::Confirm(first, second, direction) => {
                question = true;
                confirmation_line(&Operation::Merge(*first, *second, *direction))
            },
        },
        Mode::Cropping(builder) => match builder.stage() {
            CropStage::Operand(_) => bare_line("Merge: ("),
            CropStage::X0(_, entry) => prompt_line("X0: ", entry.digits()),
            CropStage::Y0(_, _, entry) => prompt_line("Y0: ", entry.digits()),
            CropStage::Width(_, _, _, entry) => prompt_line("WIDTH: ", entry.digits()),
            CropStage::Height(_, _, _, _, entry) => prompt_line("HEIGHT: ", entry.digits()),
            CropStage::Confirm(source, x0, y0, width, height) => {
                question = true;
                confirmation_line(&Operation::Crop(*source, *x0, *y0, *width, *height))
            },
        },
    };
    let emphasis = if question {
        Emphasis::Question
    } else if flagged {
        Emphasis::Error
    } else {
        Emphasis::Normal
    };
    StatusLine { emphasis, segments }
}

} // verus!
