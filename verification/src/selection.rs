use vstd::prelude::*;
use crate::keys::{cancels, is_cancel, KEY_DOWN, KEY_ENTER, KEY_LEFT, KEY_RIGHT, KEY_UP};

verus! {

/// The direction in which the candidates of a selection are laid out, and
/// with it the pair of arrow keys that moves the cursor.
#[derive(Clone, Copy, Debug, PartialEq, Eq)]
pub enum Axis {
    /// A list, one candidate per line: up and down move.
    Vertical,
    /// A strip on one line: left and right move.
    Horizontal,
}

/// What a selection asks of its caller after a key.
#[derive(Clone, Copy, Debug, PartialEq, Eq)]
pub enum Selection {
    /// Go on selecting.
    Pending,
    /// The candidate at this position was chosen.
    Chosen(usize),
    /// The selection was abandoned.
    Cancelled,
}

/// The position after `cursor` among `count` candidates, going round.
pub open spec fn next_position(cursor: int, count: int) -> int {
    if cursor + 1 >= count {
        0
    } else {
        cursor + 1
    }
}

/// The position before `cursor` among `count` candidates, going round.
pub open spec fn previous_position(cursor: int, count: int) -> int {
    if cursor <= 0 {
        count - 1
    } else {
        cursor - 1
    }
}

/// The position reached from `cursor` by `steps` moves forward.
pub open spec fn advanced(cursor: int, count: int, steps: nat) -> int
    decreases steps,
{
    if steps == 0 {
        cursor
    } else {
        next_position(advanced(cursor, count, (steps - 1) as nat), count)
    }
}

/// The position reached from `cursor` by `steps` moves backward.
pub open spec fn retreated(cursor: int, count: int, steps: nat) -> int
    decreases steps,
{
    if steps == 0 {
        cursor
    } else {
        previous_position(retreated(cursor, count, (steps - 1) as nat), count)
    }
}

/// Whether `key` moves the cursor forward on `axis`.
pub open spec fn moves_forward(axis: Axis, key: i32) -> bool {
    match axis {
        Axis::Vertical => key == KEY_DOWN,
        Axis::Horizontal => key == KEY_RIGHT,
    }
}

/// Whether `key` moves the cursor backward on `axis`.
pub open spec fn moves_backward(axis: Axis, key: i32) -> bool {
    match axis {
        Axis::Vertical => key == KEY_UP,
        Axis::Horizontal => key == KEY_LEFT,
    }
}

/// The cursor after `key`, and what the selection asks for.
pub open spec fn selection_key(cursor: int, count: int, axis: Axis, key: i32) -> (int, Selection) {
    if key == KEY_ENTER {
        (cursor, Selection::Chosen(cursor as usize))
    } else if cancels(key) {
        (cursor, Selection::Cancelled)
    } else if moves_backward(axis, key) {
        (previous_position(cursor, count), Selection::Pending)
    } else if moves_forward(axis, key) {
        (next_position(cursor, count), Selection::Pending)
    } else {
        (cursor, Selection::Pending)
    }
}

/// As long as the end of the list is not reached, moving forward adds to
/// the position.
proof fn lemma_advanced_without_wrap(cursor: int, count: int, steps: nat)
    requires
        0 <= cursor,
        cursor + steps < count,
    ensures
        advanced(cursor, count, steps) == cursor + steps,
    decreases steps,
{
    if steps > 0 {
        lemma_advanced_without_wrap(cursor, count, (steps - 1) as nat);
    }
}

/// As long as the start of the list is not reached, moving backward
/// subtracts from the position.
proof fn lemma_retreated_without_wrap(cursor: int, count: int, steps: nat)
    requires
        cursor < count,
        cursor - steps >= 0,
    ensures
        retreated(cursor, count, steps) == cursor - steps,
    decreases steps,
{
    if steps > 0 {
        lemma_retreated_without_wrap(cursor, count, (steps - 1) as nat);
    }
}

/// Moving forward `first + second` times is moving forward `first` times
/// and then `second` times.
proof fn lemma_advanced_in_two(cursor: int, count: int, first: nat, second: nat)
    ensures
        advanced(cursor, count, first + second) == advanced(
            advanced(cursor, count, first),
            count,
            second,
        ),
    decreases second,
{
    if second > 0 {
        lemma_advanced_in_two(cursor, count, first, (second - 1) as nat);
    }
}

/// Moving backward `first + second` times is moving backward `first` times
/// and then `second` times.
proof fn lemma_retreated_in_two(cursor: int, count: int, first: nat, second: nat)
    ensures
        retreated(cursor, count, first + second) == retreated(
            retreated(cursor, count, first),
            count,
            second,
        ),
    decreases second,
{
    if second > 0 {
        lemma_retreated_in_two(cursor, count, first, (second - 1) as nat);
    }
}

/// The cursor goes round: as many moves forward as there are candidates
/// lead back to where it started, and so do as many moves backward.
pub proof fn lemma_cursor_is_cyclic(cursor: int, count: nat)
    requires
        0 <= cursor < count,
    ensures
        advanced(cursor, count as int, count) == cursor,
        retreated(cursor, count as int, count) == cursor,
{
    let n = count as int;
    let to_end = (n - 1 - cursor) as nat;
    let from_start = cursor as nat;
    // forward: up to the last candidate, one move round to the first, then up to the start
    lemma_advanced_without_wrap(cursor, n, to_end);
    lemma_advanced_in_two(cursor, n, to_end, from_start + 1);
    lemma_advanced_in_two(n - 1, n, 1, from_start);
    assert(advanced(n - 1, n, 1) == next_position(advanced(n - 1, n, 0), n));
    lemma_advanced_without_wrap(0, n, from_start);
    // backward: down to the first candidate, one move round to the last, then down to the start
    lemma_retreated_without_wrap(cursor, n, from_start);
    lemma_retreated_in_two(cursor, n, from_start, to_end + 1);
    lemma_retreated_in_two(0, n, 1, to_end);
    assert(retreated(0, n, 1) == previous_position(retreated(0, n, 0), n));
    lemma_retreated_without_wrap(n - 1, n, to_end);
}

/// A move backward undoes a move forward, and a move forward undoes a move
/// backward.
pub proof fn lemma_moves_are_inverse(cursor: int, count: int)
    requires
        0 <= cursor < count,
    ensures
        previous_position(next_position(cursor, count), count) == cursor,
        next_position(previous_position(cursor, count), count) == cursor,
{
}

/// A cursor over a list of candidates that is not empty.
pub struct Selector {
    cursor: usize,
    count: usize,
}

/// The state of a selection.
pub struct SelectorView {
    /// The position of the candidate under the cursor.
    pub cursor: int,
    /// The number of candidates.
    pub count: int,
}

impl SelectorView {
    /// A selection among `count` candidates, with the cursor on the first.
    pub open spec fn first(count: int) -> SelectorView {
        SelectorView { cursor: 0, count }
    }

    /// The cursor is on one of the candidates.
    pub open spec fn wf(self) -> bool {
        0 <= self.cursor < self.count <= usize::MAX
    }

    /// The state after `key`, and what the selection asks for.
    pub open spec fn on_key(self, axis: Axis, key: i32) -> (SelectorView, Selection) {
        let (cursor, outcome) = selection_key(self.cursor, self.count, axis, key);
        (SelectorView { cursor, count: self.count }, outcome)
    }

    /// The state after `key` was pressed `times` times.
    pub open spec fn pressed(self, axis: Axis, key: i32, times: nat) -> SelectorView
        decreases times,
    {
        if times == 0 {
            self
        } else {
            self.pressed(axis, key, (times - 1) as nat).on_key(axis, key).0
        }
    }
}

/// Pressing an arrow key of the axis moves the cursor by as many places as
/// the key is pressed, going round: forward for the one key, backward for
/// the other.
pub proof fn lemma_arrow_key_moves(selector: SelectorView, axis: Axis, key: i32, times: nat)
    requires
        selector.wf(),
        moves_forward(axis, key) || moves_backward(axis, key),
    ensures
        selector.pressed(axis, key, times).count == selector.count,
        moves_forward(axis, key) ==> selector.pressed(axis, key, times).cursor == advanced(
            selector.cursor,
            selector.count,
            times,
        ),
        moves_backward(axis, key) ==> selector.pressed(axis, key, times).cursor == retreated(
            selector.cursor,
            selector.count,
            times,
        ),
    decreases times,
{
    if times > 0 {
        lemma_arrow_key_moves(selector, axis, key, (times - 1) as nat);
    }
}

/// A selection goes round: when an arrow key of the axis is pressed as many
/// times as there are candidates, the cursor is back where it was.
pub proof fn lemma_selection_is_cyclic(selector: SelectorView, axis: Axis, key: i32)
    requires
        selector.wf(),
        moves_forward(axis, key) || moves_backward(axis, key),
    ensures
        selector.pressed(axis, key, selector.count as nat) == selector,
{
    lemma_arrow_key_moves(selector, axis, key, selector.count as nat);
    lemma_cursor_is_cyclic(selector.cursor, selector.count as nat);
}

impl View for Selector {
    type V = SelectorView;

    closed spec fn view(&self) -> SelectorView {
        SelectorView { cursor: self.cursor as int, count: self.count as int }
    }
}

impl Selector {
    /// A selection among `count` candidates, with the cursor on the first.
    /// There is none among no candidates.
    pub fn new(count: usize) -> (selector: Option<Selector>)
        ensures
            count == 0 <==> selector is None,
            selector matches Some(s) ==> s@ == SelectorView::first(count as int) && s@.wf(),
    {
        if count == 0 {
            None
        } else {
            Some(Selector { cursor: 0, count })
        }
    }

    /// A selection among `count` candidates, with the cursor on the first.
    pub(crate) fn over(count: usize) -> (selector: Selector)
        requires
            count > 0,
        ensures
            selector@ == SelectorView::first(count as int),
            selector@.wf(),
    {
        Selector { cursor: 0, count }
    }

    /// The position of the candidate under the cursor.
    pub fn cursor(&self) -> (cursor: usize)
        ensures
            cursor == self@.cursor,
    {
        self.cursor
    }

    /// The number of candidates.
    pub fn count(&self) -> (count: usize)
        ensures
            count == self@.count,
    {
        self.count
    }

    /// Handles one key: Enter chooses the candidate under the cursor,
    /// Escape and `q` abandon the selection, the two arrow keys of `axis`
    /// move the cursor, going round, and all other keys do nothing.
    pub fn on_key(&mut self, axis: Axis, key: i32) -> (outcome: Selection)
        requires
            old(self)@.wf(),
        ensures
            (final(self)@, outcome) == old(self)@.on_key(axis, key),
            final(self)@.wf(),
            outcome matches Selection::Chosen(position) ==> position < old(self)@.count,
    {
        if key == KEY_ENTER {
            return Selection::Chosen(self.cursor);
        }
        if is_cancel(key) {
            return Selection::Cancelled;
        }
        let (backward, forward) = match axis {
            Axis::Vertical => (KEY_UP, KEY_DOWN),
            Axis::Horizontal => (KEY_LEFT, KEY_RIGHT),
        };
        if key == backward {
            self.cursor = if self.cursor == 0 {
                self.count - 1
            } else {
                self.cursor - 1
            };
        } else if key == forward {
            self.cursor = if self.cursor + 1 >= self.count {
                0
            } else {
                self.cursor + 1
            };
        }
        Selection::Pending
    }
}

} // verus!
