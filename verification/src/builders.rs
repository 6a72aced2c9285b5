use vstd::prelude::*;
use crate::keys::{cancels, is_cancel, KEY_ENTER};
use crate::number::{all_digits, number_key, NumberEntry, NumberStep};
use crate::operation::{direction_options, direction_symbols, Direction, Operation};
use crate::selection::{Axis, Selection, Selector, SelectorView};

verus! {

/// How far the assembly of an operation has come after a key.
#[derive(Clone, Copy, Debug, PartialEq, Eq)]
pub enum Progress {
    /// More keys are needed.
    Pending,
    /// More keys are needed, and the last one could not be honoured.
    Flagged,
    /// The assembly was abandoned: nothing is to be recorded.
    Abandoned,
    /// The operation was assembled and confirmed.
    Built(Operation),
}

/// What `key` answers to a request for confirmation: Enter confirms,
/// Escape and `q` decline, any other key answers nothing.
pub open spec fn confirmation_of(key: i32) -> Option<bool> {
    if key == KEY_ENTER {
        Some(true)
    } else if cancels(key) {
        Some(false)
    } else {
        None
    }
}

/// What `key` answers to a request for confirmation.
pub fn get_confirmation(key: i32) -> (answer: Option<bool>)
    ensures
        answer == confirmation_of(key),
{
    if key == KEY_ENTER {
        Some(true)
    } else if is_cancel(key) {
        Some(false)
    } else {
        None
    }
}

/// The signed number with the same 32 bits as `number`: the number
/// itself where it fits, and 2^32 less where it does not.
pub open spec fn signed_of(number: u32) -> i32 {
    if number <= i32::MAX {
        number as i32
    } else {
        (number - 0x1_0000_0000) as i32
    }
}

/// The signed number with the same 32 bits as `number`.
pub fn to_signed(number: u32) -> (signed: i32)
    ensures
        signed == signed_of(number),
{
    if number <= 0x7fff_ffff {
        number as i32
    } else {
        let above: u32 = number - 0x8000_0000;
        (above as i32) + i32::MIN
    }
}

/// The steps of a merge.
pub enum MergeStage {
    /// The first operand is being selected.
    OperandA(Selector),
    /// The second operand is being selected; the first is known.
    OperandB(usize, Selector),
    /// The direction is being selected; both operands are known.
    Direction(usize, usize, Selector),
    /// The merge waits for confirmation.
    Confirm(usize, usize, Direction),
}

/// The steps of a merge, as plain values.
pub enum MergeStageView {
    OperandA(SelectorView),
    OperandB(int, SelectorView),
    Direction(int, int, SelectorView),
    Confirm(int, int, Direction),
}

/// The assembly of a merge: two operands from the log, a direction, and a
/// confirmation.
pub struct MergeBuilder {
    operations: usize,
    stage: MergeStage,
}

/// The state of the assembly of a merge.
pub struct MergeView {
    /// The number of operations to select from.
    pub operations: int,
    /// The step that the assembly is at, with what is known so far.
    pub stage: MergeStageView,
}

impl MergeView {
    /// The assembly as it begins, over a log of `operations` operations.
    pub open spec fn start(operations: int) -> MergeView {
        MergeView { operations, stage: MergeStageView::OperandA(SelectorView::first(operations)) }
    }

    /// The selections are over the log and over the directions, and the
    /// operands that are known are in the log.
    pub open spec fn wf(self) -> bool {
        &&& 0 < self.operations <= usize::MAX
        &&& match self.stage {
            MergeStageView::OperandA(selector) => selector.wf() && selector.count == self.operations,
            MergeStageView::OperandB(first, selector) => selector.wf() && selector.count
                == self.operations && 0 <= first < self.operations,
            MergeStageView::Direction(first, second, selector) => selector.wf() && selector.count
                == direction_symbols().len() && 0 <= first < self.operations && 0 <= second
                < self.operations,
            MergeStageView::Confirm(first, second, _) => 0 <= first < self.operations && 0
                <= second < self.operations,
        }
    }

    /// The state after `key`, and how far the assembly has come.
    pub open spec fn on_key(self, key: i32) -> (MergeView, Progress) {
        match self.stage {
            MergeStageView::OperandA(selector) => {
                let (moved, outcome) = selector.on_key(Axis::Vertical, key);
                match outcome {
                    Selection::Pending => (
                        MergeView { stage: MergeStageView::OperandA(moved), ..self },
                        Progress::Pending,
                    ),
                    Selection::Chosen(first) => (
                        MergeView {
                            stage: MergeStageView::OperandB(
                                first as int,
                                SelectorView::first(self.operations),
                            ),
                            ..self
                        },
                        Progress::Pending,
                    ),
                    Selection::Cancelled => (self, Progress::Abandoned),
                }
            },
            MergeStageView::OperandB(first, selector) => {
                let (moved, outcome) = selector.on_key(Axis::Vertical, key);
                match outcome {
                    Selection::Pending => (
                        MergeView { stage: MergeStageView::OperandB(first, moved), ..self },
                        Progress::Pending,
                    ),
                    Selection::Chosen(second) => (
                        MergeView {
                            stage: MergeStageView::Direction(
                                first,
                                second as int,
                                SelectorView::first(direction_symbols().len() as int),
                            ),
                            ..self
                        },
                        Progress::Pending,
                    ),
                    Selection::Cancelled => (self, Progress::Abandoned),
                }
            },
            MergeStageView::Direction(first, second, selector) => {
                let (moved, outcome) = selector.on_key(Axis::Horizontal, key);
                match outcome {
                    Selection::Pending => (
                        MergeView { stage: MergeStageView::Direction(first, second, moved), ..self },
                        Progress::Pending,
                    ),
                    Selection::Chosen(position) => match Direction::of_symbol(
                        direction_symbols()[position as int],
                    ) {
                        Some(direction) => (
                            MergeView {
                                stage: MergeStageView::Confirm(first, second, direction),
                                ..self
                            },
                            Progress::Pending,
                        ),
                        None => (self, Progress::Abandoned),
                    },
                    Selection::Cancelled => (self, Progress::Abandoned),
                }
            },
            MergeStageView::Confirm(first, second, direction) => match confirmation_of(key) {
                Some(true) => (
                    self,
                    Progress::Built(Operation::Merge(first as usize, second as usize, direction)),
                ),
                Some(false) => (self, Progress::Abandoned),
                None => (self, Progress::Pending),
            },
        }
    }
}

impl View for MergeStage {
    type V = MergeStageView;

    open spec fn view(&self) -> MergeStageView {
        match *self {
            MergeStage::OperandA(selector) => MergeStageView::OperandA(selector@),
            MergeStage::OperandB(first, selector) => MergeStageView::OperandB(
                first as int,
                selector@,
            ),
            MergeStage::Direction(first, second, selector) => MergeStageView::Direction(
                first as int,
                second as int,
                selector@,
            ),
            MergeStage::Confirm(first, second, direction) => MergeStageView::Confirm(
                first as int,
                second as int,
                direction,
            ),
        }
    }
}

impl View for MergeBuilder {
    type V = MergeView;

    closed spec fn view(&self) -> MergeView {
        MergeView { operations: self.operations as int, stage: self.stage@ }
    }
}

impl MergeBuilder {
    /// Begins a merge over a log of `operations` operations. There is none
    /// to begin over an empty log.
    pub fn start(operations: usize) -> (builder: Option<MergeBuilder>)
        ensures
            operations == 0 <==> builder is None,
            builder matches Some(b) ==> b@ == MergeView::start(operations as int) && b@.wf(),
    {
        match Selector::new(operations) {
            Some(selector) => Some(MergeBuilder { operations, stage: MergeStage::OperandA(selector) }),
            None => None,
        }
    }

    /// The step that the assembly is at.
    pub fn stage(&self) -> (stage: &MergeStage)
        ensures
            stage@ == self@.stage,
    {
        &self.stage
    }

    /// Handles one key.
    pub fn on_key(self, key: i32) -> (next: (MergeBuilder, Progress))
        requires
            self@.wf(),
        ensures
            (next.0@, next.1) == self@.on_key(key),
            next.0@.wf(),
    {
        let operations = self.operations;
        match self.stage {
            MergeStage::OperandA(mut selector) => match selector.on_key(Axis::Vertical, key) {
                Selection::Pending => (
                    MergeBuilder { operations, stage: MergeStage::OperandA(selector) },
                    Progress::Pending,
                ),
                Selection::Chosen(first) => (
                    MergeBuilder {
                        operations,
                        stage: MergeStage::OperandB(first, Selector::over(operations)),
                    },
                    Progress::Pending,
                ),
                Selection::Cancelled => (
                    MergeBuilder { operations, stage: MergeStage::OperandA(selector) },
                    Progress::Abandoned,
                ),
            },
            MergeStage::OperandB(first, mut selector) => match selector.on_key(Axis::Vertical, key) {
                Selection::Pending => (
                    MergeBuilder { operations, stage: MergeStage::OperandB(first, selector) },
                    Progress::Pending,
                ),
                Selection::Chosen(second) => (
                    MergeBuilder {
                        operations,
                        stage: MergeStage::Direction(first, second, Selector::over(2)),
                    },
                    Progress::Pending,
                ),
                Selection::Cancelled => (
                    MergeBuilder { operations, stage: MergeStage::OperandB(first, selector) },
                    Progress::Abandoned,
                ),
            },
            MergeStage::Direction(first, second, mut selector) => match selector.on_key(
                Axis::Horizontal,
                key,
            ) {
                Selection::Pending => (
                    MergeBuilder {
                        operations,
                        stage: MergeStage::Direction(first, second, selector),
                    },
                    Progress::Pending,
                ),
                Selection::Chosen(position) => {
                    let options = direction_options();
                    match Direction::from_symbol(options[position]) {
                        Some(direction) => (
                            MergeBuilder {
                                operations,
                                stage: MergeStage::Confirm(first, second, direction),
                            },
                            Progress::Pending,
                        ),
                        None => (
                            MergeBuilder {
                                operations,
                                stage: MergeStage::Direction(first, second, selector),
                            },
                            Progress::Abandoned,
                        ),
                    }
                },
                Selection::Cancelled => (
                    MergeBuilder {
                        operations,
                        stage: MergeStage::Direction(first, second, selector),
                    },
                    Progress::Abandoned,
                ),
            },
            MergeStage::Confirm(first, second, direction) => {
                let progress = match get_confirmation(key) {
                    Some(true) => Progress::Built(Operation::Merge(first, second, direction)),
                    Some(false) => Progress::Abandoned,
                    None => Progress::Pending,
                };
                (
                    MergeBuilder { operations, stage: MergeStage::Confirm(first, second, direction) },
                    progress,
                )
            },
        }
    }
}

/// A merge that was built names two operations of the log it was begun
/// over, so it fits at the end of that log, whatever the files.
pub proof fn lemma_built_merge_fits(builder: MergeView, key: i32, files: int)
    requires
        builder.wf(),
        builder.on_key(key).1 is Built,
    ensures
        builder.on_key(key).1->Built_0 is Merge,
        builder.on_key(key).1->Built_0.fits(builder.operations, files),
{
}

/// The steps of a crop.
pub enum CropStage {
    /// The operand is being selected.
    Operand(Selector),
    /// The left edge is being entered; the operand is known.
    X0(usize, NumberEntry),
    /// The upper edge is being entered.
    Y0(usize, u32, NumberEntry),
    /// The width is being entered.
    Width(usize, u32, u32, NumberEntry),
    /// The height is being entered.
    Height(usize, u32, u32, u32, NumberEntry),
    /// The crop waits for confirmation.
    Confirm(usize, u32, u32, i32, i32),
}

/// The steps of a crop, as plain values.
pub enum CropStageView {
    Operand(SelectorView),
    X0(int, Seq<char>),
    Y0(int, u32, Seq<char>),
    Width(int, u32, u32, Seq<char>),
    Height(int, u32, u32, u32, Seq<char>),
    Confirm(int, u32, u32, i32, i32),
}

/// The assembly of a crop: an operand from the log, four numbers, and a
/// confirmation.
pub struct CropBuilder {
    operations: usize,
    stage: CropStage,
}

/// The state of the assembly of a crop.
pub struct CropView {
    /// The number of operations to select from.
    pub operations: int,
    /// The step that the assembly is at, with what is known so far.
    pub stage: CropStageView,
}

impl CropStageView {
    /// The operand, once it is known.
    pub open spec fn source(self) -> Option<int> {
        match self {
            CropStageView::Operand(_) => None,
            CropStageView::X0(source, _) => Some(source),
            CropStageView::Y0(source, _, _) => Some(source),
            CropStageView::Width(source, _, _, _) => Some(source),
            CropStageView::Height(source, _, _, _, _) => Some(source),
            CropStageView::Confirm(source, _, _, _, _) => Some(source),
        }
    }

    /// The digits of the number that is being entered, if one is.
    pub open spec fn digits(self) -> Option<Seq<char>> {
        match self {
            CropStageView::Operand(_) => None,
            CropStageView::X0(_, digits) => Some(digits),
            CropStageView::Y0(_, _, digits) => Some(digits),
            CropStageView::Width(_, _, _, digits) => Some(digits),
            CropStageView::Height(_, _, _, _, digits) => Some(digits),
            CropStageView::Confirm(_, _, _, _, _) => None,
        }
    }

    /// The same step with other digits entered.
    pub open spec fn with_digits(self, digits: Seq<char>) -> CropStageView {
        match self {
            CropStageView::Operand(selector) => self,
            CropStageView::X0(source, _) => CropStageView::X0(source, digits),
            CropStageView::Y0(source, x0, _) => CropStageView::Y0(source, x0, digits),
            CropStageView::Width(source, x0, y0, _) => CropStageView::Width(source, x0, y0, digits),
            CropStageView::Height(source, x0, y0, width, _) => CropStageView::Height(
                source,
                x0,
                y0,
                width,
                digits,
            ),
            CropStageView::Confirm(_, _, _, _, _) => self,
        }
    }

    /// The step that follows when `number` is entered.
    pub open spec fn with_number(self, number: u32) -> CropStageView {
        match self {
            CropStageView::Operand(selector) => self,
            CropStageView::X0(source, _) => CropStageView::Y0(source, number, Seq::empty()),
            CropStageView::Y0(source, x0, _) => CropStageView::Width(
                source,
                x0,
                number,
                Seq::empty(),
            ),
            CropStageView::Width(source, x0, y0, _) => CropStageView::Height(
                source,
                x0,
                y0,
                number,
                Seq::empty(),
            ),
            CropStageView::Height(source, x0, y0, width, _) => CropStageView::Confirm(
                source,
                x0,
                y0,
                signed_of(width),
                signed_of(number),
            ),
            CropStageView::Confirm(_, _, _, _, _) => self,
        }
    }
}

impl CropView {
    /// The assembly as it begins, over a log of `operations` operations.
    pub open spec fn start(operations: int) -> CropView {
        CropView { operations, stage: CropStageView::Operand(SelectorView::first(operations)) }
    }

    /// The selection is over the log, the operand is in the log once it is
    /// known, and what is entered is made of digits.
    pub open spec fn wf(self) -> bool {
        &&& 0 < self.operations <= usize::MAX
        &&& self.stage matches CropStageView::Operand(selector) ==> selector.wf() && selector.count
            == self.operations
        &&& self.stage.source() matches Some(source) ==> 0 <= source < self.operations
        &&& self.stage.digits() matches Some(digits) ==> all_digits(digits)
    }

    /// The state after `key`, and how far the assembly has come.
    pub open spec fn on_key(self, key: i32) -> (CropView, Progress) {
        match self.stage {
            CropStageView::Operand(selector) => {
                let (moved, outcome) = selector.on_key(Axis::Vertical, key);
                match outcome {
                    Selection::Pending => (
                        CropView { stage: CropStageView::Operand(moved), ..self },
                        Progress::Pending,
                    ),
                    Selection::Chosen(source) => (
                        CropView { stage: CropStageView::X0(source as int, Seq::empty()), ..self },
                        Progress::Pending,
                    ),
                    Selection::Cancelled => (self, Progress::Abandoned),
                }
            },
            CropStageView::Confirm(source, x0, y0, width, height) => match confirmation_of(key) {
                Some(true) => (
                    self,
                    Progress::Built(Operation::Crop(source as usize, x0, y0, width, height)),
                ),
                Some(false) => (self, Progress::Abandoned),
                None => (self, Progress::Pending),
            },
            _ => {
                let (digits, step) = number_key(self.stage.digits().unwrap(), key);
                match step {
                    NumberStep::Editing => (
                        CropView { stage: self.stage.with_digits(digits), ..self },
                        Progress::Pending,
                    ),
                    NumberStep::Flagged => (
                        CropView { stage: self.stage.with_digits(digits), ..self },
                        Progress::Flagged,
                    ),
                    NumberStep::Cancelled => (self, Progress::Abandoned),
                    NumberStep::Entered(number) => (
                        CropView { stage: self.stage.with_number(number), ..self },
                        Progress::Pending,
                    ),
                }
            },
        }
    }
}

impl View for CropStage {
    type V = CropStageView;

    open spec fn view(&self) -> CropStageView {
        match *self {
            CropStage::Operand(selector) => CropStageView::Operand(selector@),
            CropStage::X0(source, entry) => CropStageView::X0(source as int, entry@),
            CropStage::Y0(source, x0, entry) => CropStageView::Y0(source as int, x0, entry@),
            CropStage::Width(source, x0, y0, entry) => CropStageView::Width(
                source as int,
                x0,
                y0,
                entry@,
            ),
            CropStage::Height(source, x0, y0, width, entry) => CropStageView::Height(
                source as int,
                x0,
                y0,
                width,
                entry@,
            ),
            CropStage::Confirm(source, x0, y0, width, height) => CropStageView::Confirm(
                source as int,
                x0,
                y0,
                width,
                height,
            ),
        }
    }
}

impl View for CropBuilder {
    type V = CropView;

    closed spec fn view(&self) -> CropView {
        CropView { operations: self.operations as int, stage: self.stage@ }
    }
}

impl CropBuilder {
    /// Begins a crop over a log of `operations` operations. There is none
    /// to begin over an empty log.
    pub fn start(operations: usize) -> (builder: Option<CropBuilder>)
        ensures
            operations == 0 <==> builder is None,
            builder matches Some(b) ==> b@ == CropView::start(operations as int) && b@.wf(),
    {
        match Selector::new(operations) {
            Some(selector) => Some(CropBuilder { operations, stage: CropStage::Operand(selector) }),
            None => None,
        }
    }

    /// The step that the assembly is at.
    pub fn stage(&self) -> (stage: &CropStage)
        ensures
            stage@ == self@.stage,
    {
        &self.stage
    }

    /// Handles one key.
    pub fn on_key(self, key: i32) -> (next: (CropBuilder, Progress))
        requires
            self@.wf(),
        ensures
            (next.0@, next.1) == self@.on_key(key),
            next.0@.wf(),
    {
        let operations = self.operations;
        let (stage, progress) = match self.stage {
            CropStage::Operand(mut selector) => match selector.on_key(Axis::Vertical, key) {
                Selection::Pending => (CropStage::Operand(selector), Progress::Pending),
                Selection::Chosen(source) => (
                    CropStage::X0(source, NumberEntry::new()),
                    Progress::Pending,
                ),
                Selection::Cancelled => (CropStage::Operand(selector), Progress::Abandoned),
            },
            CropStage::X0(source, mut entry) => match entry.on_key(key) {
                NumberStep::Editing => (CropStage::X0(source, entry), Progress::Pending),
                NumberStep::Flagged => (CropStage::X0(source, entry), Progress::Flagged),
                NumberStep::Cancelled => (CropStage::X0(source, entry), Progress::Abandoned),
                NumberStep::Entered(x0) => (
                    CropStage::Y0(source, x0, NumberEntry::new()),
                    Progress::Pending,
                ),
            },
            CropStage::Y0(source, x0, mut entry) => match entry.on_key(key) {
                NumberStep::Editing => (CropStage::Y0(source, x0, entry), Progress::Pending),
                NumberStep::Flagged => (CropStage::Y0(source, x0, entry), Progress::Flagged),
                NumberStep::Cancelled => (CropStage::Y0(source, x0, entry), Progress::Abandoned),
                NumberStep::Entered(y0) => (
                    CropStage::Width(source, x0, y0, NumberEntry::new()),
                    Progress::Pending,
                ),
            },
            CropStage::Width(source, x0, y0, mut entry) => match entry.on_key(key) {
                NumberStep::Editing => (CropStage::Width(source, x0, y0, entry), Progress::Pending),
                NumberStep::Flagged => (CropStage::Width(source, x0, y0, entry), Progress::Flagged),
                NumberStep::Cancelled => (
                    CropStage::Width(source, x0, y0, entry),
                    Progress::Abandoned,
                ),
                NumberStep::Entered(width) => (
                    CropStage::Height(source, x0, y0, width, NumberEntry::new()),
                    Progress::Pending,
                ),
            },
            CropStage::Height(source, x0, y0, width, mut entry) => match entry.on_key(key) {
                NumberStep::Editing => (
                    CropStage::Height(source, x0, y0, width, entry),
                    Progress::Pending,
                ),
                NumberStep::Flagged => (
                    CropStage::Height(source, x0, y0, width, entry),
                    Progress::Flagged,
                ),
                NumberStep::Cancelled => (
                    CropStage::Height(source, x0, y0, width, entry),
                    Progress::Abandoned,
                ),
                NumberStep::Entered(height) => (
                    CropStage::Confirm(source, x0, y0, to_signed(width), to_signed(height)),
                    Progress::Pending,
                ),
            },
            CropStage::Confirm(source, x0, y0, width, height) => {
                let progress = match get_confirmation(key) {
                    Some(true) => Progress::Built(Operation::Crop(source, x0, y0, width, height)),
                    Some(false) => Progress::Abandoned,
                    None => Progress::Pending,
                };
                (CropStage::Confirm(source, x0, y0, width, height), progress)
            },
        };
        (CropBuilder { operations, stage }, progress)
    }
}

/// A crop that was built names an operation of the log it was begun over,
/// so it fits at the end of that log, whatever the files.
pub proof fn lemma_built_crop_fits(builder: CropView, key: i32, files: int)
    requires
        builder.wf(),
        builder.on_key(key).1 is Built,
    ensures
        builder.on_key(key).1->Built_0 is Crop,
        builder.on_key(key).1->Built_0.fits(builder.operations, files),
{
}

} // verus!
