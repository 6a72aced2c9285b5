use vstd::prelude::*;
use crate::operation::Operation;
use crate::paths::{listed_name, stem_of, OpenedFile};
use crate::registry::{Registry, RegistryView};
use crate::text::{copy_text, decimal, push_decimal, push_text};

verus! {

/// One line of a pane.
#[derive(Debug, PartialEq, Eq)]
pub struct PaneLine {
    /// Whether the line is the one under the cursor.
    pub marked: bool,
    /// What the line says.
    pub text: String,
}

/// One line of a pane, as plain values.
#[verifier::ext_equal]
pub struct PaneLineView {
    pub marked: bool,
    pub text: Seq<char>,
}

impl View for PaneLine {
    type V = PaneLineView;

    open spec fn view(&self) -> PaneLineView {
        PaneLineView { marked: self.marked, text: self.text@ }
    }
}

impl DeepView for PaneLine {
    type V = PaneLineView;

    open spec fn deep_view(&self) -> PaneLineView {
        self@
    }
}

/// A line that is not under the cursor.
pub open spec fn plain_line(text: Seq<char>) -> PaneLineView {
    PaneLineView { marked: false, text }
}

/// The line of the file with the number `number` and the name `name`.
pub open spec fn file_line_text(number: int, name: Seq<char>) -> Seq<char> {
    decimal(number as nat) + ": "@ + name
}

/// What the pane of operations says of an operation, where `name` is the
/// name of the file that it opens or saves to: an `Open` and a `Save` show
/// the file by its name, the others are described in full.
pub open spec fn listing_text(operation: Operation, name: Seq<char>) -> Seq<char> {
    match operation {
        Operation::Open(_) => "Open("@ + name + ")"@,
        Operation::Save(source, _) => "Save("@ + decimal(source as nat) + ": "@ + name + ")"@,
        _ => operation.description(),
    }
}

/// The line of the operation with the number `number`.
pub open spec fn operation_line_text(number: int, operation: Operation, name: Seq<char>) -> Seq<char> {
    decimal(number as nat) + ": "@ + listing_text(operation, name)
}

/// The file that an operation opens or saves to, if it does.
pub open spec fn subject_of(operation: Operation) -> Option<usize> {
    match operation {
        Operation::Open(file) => Some(file),
        Operation::Save(_, file) => Some(file),
        _ => None,
    }
}

/// The name under which the file of an operation is listed; empty for an
/// operation without a file.
pub open spec fn subject_name(operation: Operation, files: Seq<Seq<char>>) -> Seq<char> {
    match subject_of(operation) {
        Some(file) => listed_name(stem_of(files[file as int])),
        None => Seq::empty(),
    }
}

/// The pane of files: a heading, then one line for each file, numbered
/// from 1.
pub open spec fn files_pane_of(files: Seq<Seq<char>>) -> Seq<PaneLineView> {
    Seq::new(
        files.len() + 1,
        |row: int|
            if row == 0 {
                plain_line("Opened files:"@)
            } else {
                plain_line(
                    file_line_text(row, listed_name(stem_of(files[row - 1]))),
                )
            },
    )
}

/// The pane of operations: a heading, then one line for each operation,
/// numbered from 1; the line of the operation at `selected` is marked.
pub open spec fn operations_pane_of(registry: RegistryView, selected: Option<int>) -> Seq<PaneLineView> {
    Seq::new(
        registry.operations.len() + 1,
        |row: int|
            if row == 0 {
                plain_line("Operations:"@)
            } else {
                PaneLineView {
                    marked: selected == Some(row - 1),
                    text: operation_line_text(
                        row,
                        registry.operations[row - 1],
                        subject_name(registry.operations[row - 1], registry.files),
                    ),
                }
            },
    )
}

/// The line of the file with the number `number` and the name `name`, as
/// in `2: holiday`.
pub fn file_line(number: usize, name: &str) -> (text: String)
    ensures
        text@ == file_line_text(number as int, name@),
{
    let mut text = String::new();
    push_decimal(&mut text, number as u64);
    push_text(&mut text, ": ");
    push_text(&mut text, name);
    text
}

/// What the pane of operations says of `operation`, where `name` is the
/// name of the file that it opens or saves to.
pub fn listing(operation: &Operation, name: &str) -> (text: String)
    ensures
        text@ == listing_text(*operation, name@),
{
    match *operation {
        Operation::Open(_) => {
            let mut text = String::new();
            push_text(&mut text, "Open(");
            push_text(&mut text, name);
            push_text(&mut text, ")");
            text
        },
        Operation::Save(source, _) => {
            let mut text = String::new();
            push_text(&mut text, "Save(");
            push_decimal(&mut text, source as u64);
            push_text(&mut text, ": ");
            push_text(&mut text, name);
            push_text(&mut text, ")");
            text
        },
        _ => operation.describe(),
    }
}

/// The line of the operation with the number `number`, as in
/// `3: Merge(0, 1, Hor)`.
pub fn operation_line(number: usize, operation: &Operation, name: &str) -> (text: String)
    ensures
        text@ == operation_line_text(number as int, *operation, name@),
{
    let mut text = String::new();
    push_decimal(&mut text, number as u64);
    push_text(&mut text, ": ");
    let described = listing(operation, name);
    push_text(&mut text, described.as_str());
    text
}

/// The pane of files.
pub fn files_pane(registry: &Registry) -> (lines: Vec<PaneLine>)
    ensures
        lines.deep_view() == files_pane_of(registry@.files),
{
    let files = registry.files();
    let ghost pane = files_pane_of(registry@.files);
    let mut lines: Vec<PaneLine> = Vec::new();
    lines.push(PaneLine { marked: false, text: copy_text("Opened files:") });
    let mut i: usize = 0;
    while i < files.len()
        invariant
            i <= files.len(),
            files.deep_view() == registry@.files,
            pane == files_pane_of(registry@.files),
            lines.len() == i + 1,
            forall|row: int| 0 <= row <= i ==> (#[trigger] lines@[row])@ == pane[row],
        decreases files.len() - i,
    {
        let name = files[i].file_stem();
        let text = file_line(i + 1, name.as_str());
        lines.push(PaneLine { marked: false, text });
        i += 1;
    }
    lines
}

/// The name under which the file of `operation` is listed.
fn subject(operation: &Operation, files: &Vec<OpenedFile>) -> (name: String)
    requires
        subject_of(*operation) matches Some(file) ==> file < files.len(),
    ensures
        name@ == subject_name(*operation, files.deep_view()),
{
    let file = match *operation {
        Operation::Open(file) => Some(file),
        Operation::Save(_, file) => Some(file),
        _ => None,
    };
    match file {
        Some(file) => {
            files[file].file_stem()
        },
        None => String::new(),
    }
}

/// The pane of operations, with the line of the operation at `selected`
/// marked.
pub fn operations_pane(registry: &Registry, selected: Option<usize>) -> (lines: Vec<PaneLine>)
    requires
        registry@.wf(),
    ensures
        lines.deep_view() == operations_pane_of(
            registry@,
            match selected {
                Some(position) => Some(position as int),
                None => None,
            },
        ),
{
    let files = registry.files();
    let operations = registry.operations();
    let ghost chosen: Option<int> = match selected {
        Some(position) => Some(position as int),
        None => None,
    };
    let ghost pane = operations_pane_of(registry@, chosen);
    let mut lines: Vec<PaneLine> = Vec::new();
    lines.push(PaneLine { marked: false, text: copy_text("Operations:") });
    let mut i: usize = 0;
    while i < operations.len()
        invariant
            i <= operations.len(),
            registry@.wf(),
            files.deep_view() == registry@.files,
            operations@ == registry@.operations,
            chosen == match selected {
                Some(position) => Some(position as int),
                None => None,
            },
            pane == operations_pane_of(registry@, chosen),
            lines.len() == i + 1,
            forall|row: int| 0 <= row <= i ==> (#[trigger] lines@[row])@ == pane[row],
        decreases operations.len() - i,
    {
        let operation = &operations[i];
        let name = subject(operation, files);
        let text = operation_line(i + 1, operation, name.as_str());
        let marked = match selected {
            Some(position) => position == i,
            None => false,
        };
        lines.push(PaneLine { marked, text });
        i += 1;
    }
    lines
}

} // verus!
