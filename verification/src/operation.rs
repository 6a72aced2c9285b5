use vstd::prelude::*;
use crate::text::{decimal, push_decimal, push_signed_decimal, push_text, signed_decimal};

verus! {

/// The side on which two images are joined.
#[derive(Clone, Copy, Debug, PartialEq, Eq)]
pub enum Direction {
    /// Side by side.
    Horizontal,
    /// One above the other.
    Vertical,
}

/// One step of the queue: a description of work on image files that is
/// recorded and not carried out.
///
/// Operations and files are named by their position in the log and in the
/// list of files.
#[derive(Clone, Copy, Debug, PartialEq, Eq)]
pub enum Operation {
    /// Reads the file at this position.
    Open(usize),
    /// Writes the result of the operation (first) to the file (second).
    Save(usize, usize),
    /// Joins the results of two operations.
    Merge(usize, usize, Direction),
    /// Cuts a rectangle out of the result of an operation: the operation,
    /// the left and upper edge, the width and the height.
    Crop(usize, u32, u32, i32, i32),
}

impl Direction {
    /// The direction that a symbol stands for.
    pub open spec fn of_symbol(symbol: char) -> Option<Direction> {
        if symbol == 'H' {
            Some(Direction::Horizontal)
        } else if symbol == 'V' {
            Some(Direction::Vertical)
        } else {
            None
        }
    }

    /// The short name of the direction.
    pub open spec fn name(self) -> Seq<char> {
        match self {
            Direction::Horizontal => "Hor"@,
            Direction::Vertical => "Ver"@,
        }
    }

    /// The direction that a symbol stands for: `H` or `V`.
    pub fn from_symbol(symbol: char) -> (direction: Option<Direction>)
        ensures
            direction == Self::of_symbol(symbol),
    {
        if symbol == 'H' {
            Some(Direction::Horizontal)
        } else if symbol == 'V' {
            Some(Direction::Vertical)
        } else {
            None
        }
    }

    /// The short name of the direction: `Hor` or `Ver`.
    pub fn label(&self) -> (text: &'static str)
        ensures
            text@ == self.name(),
    {
        match self {
            Direction::Horizontal => "Hor",
            Direction::Vertical => "Ver",
        }
    }
}

/// The symbols of the directions, in the order in which they are offered.
pub open spec fn direction_symbols() -> Seq<char> {
    seq!['H', 'V']
}

/// The symbols of the directions, in the order in which they are offered.
pub fn direction_options() -> (options: Vec<char>)
    ensures
        options@ == direction_symbols(),
{
    let mut options: Vec<char> = Vec::new();
    options.push('H');
    options.push('V');
    options
}

impl Operation {
    /// Whether the operation may stand at `position` of a log beside
    /// `files` files: it names files that exist, a merge and a crop name
    /// earlier operations, and a save names an operation that is not later
    /// than itself.
    pub open spec fn fits(self, position: int, files: int) -> bool {
        match self {
            Operation::Open(file) => file < files,
            Operation::Save(source, file) => source <= position && file < files,
            Operation::Merge(first, second, _) => first < position && second < position,
            Operation::Crop(source, _, _, _, _) => source < position,
        }
    }

    /// The operation in words, with the numbers in decimal.
    pub open spec fn description(self) -> Seq<char> {
        match self {
            Operation::Open(file) => "Open("@ + decimal(file as nat) + ")"@,
            Operation::Save(source, file) => "Save("@ + decimal(source as nat) + ", "@ + decimal(
                file as nat,
            ) + ")"@,
            Operation::Merge(first, second, direction) => "Merge("@ + decimal(first as nat) + ", "@
                + decimal(second as nat) + ", "@ + direction.name() + ")"@,
            Operation::Crop(source, x0, y0, width, height) => "Crop("@ + decimal(source as nat)
                + ", "@ + decimal(x0 as nat) + ", "@ + decimal(y0 as nat) + ", "@ + signed_decimal(
                width as int,
            ) + ", "@ + signed_decimal(height as int) + ")"@,
        }
    }

    /// Whether the operation may stand at `position` of a log beside
    /// `files` files.
    pub fn check_fits(&self, position: usize, files: usize) -> (fits: bool)
        ensures
            fits == self.fits(position as int, files as int),
    {
        match *self {
            Operation::Open(file) => file < files,
            Operation::Save(source, file) => source <= position && file < files,
            Operation::Merge(first, second, _) => first < position && second < position,
            Operation::Crop(source, _, _, _, _) => source < position,
        }
    }

    /// The operation in words, as in `Merge(0, 1, Hor)`.
    pub fn describe(&self) -> (text: String)
        ensures
            text@ == self.description(),
    {
        let mut text = String::new();
        match *self {
            Operation::Open(file) => {
                push_text(&mut text, "Open(");
                push_decimal(&mut text, file as u64);
                push_text(&mut text, ")");
            },
            Operation::Save(source, file) => {
                push_text(&mut text, "Save(");
                push_decimal(&mut text, source as u64);
                push_text(&mut text, ", ");
                push_decimal(&mut text, file as u64);
                push_text(&mut text, ")");
            },
            Operation::Merge(first, second, direction) => {
                push_text(&mut text, "Merge(");
                push_decimal(&mut text, first as u64);
                push_text(&mut text, ", ");
                push_decimal(&mut text, second as u64);
                push_text(&mut text, ", ");
                push_text(&mut text, direction.label());
                push_text(&mut text, ")");
            },
            Operation::Crop(source, x0, y0, width, height) => {
                push_text(&mut text, "Crop(");
                push_decimal(&mut text, source as u64);
                push_text(&mut text, ", ");
                push_decimal(&mut text, x0 as u64);
                push_text(&mut text, ", ");
                push_decimal(&mut text, y0 as u64);
                push_text(&mut text, ", ");
                push_signed_decimal(&mut text, width as i64);
                push_text(&mut text, ", ");
                push_signed_decimal(&mut text, height as i64);
                push_text(&mut text, ")");
            },
        }
        text
    }
}

} // verus!
