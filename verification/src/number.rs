use vstd::prelude::*;
use crate::keys::{cancels, is_cancel, KEY_BACKSPACE, KEY_ENTER};
use crate::text::{decimal, digit_char, pop_char, push_char, to_chars};

verus! {

/// Whether `c` is a decimal digit.
pub open spec fn is_digit(c: char) -> bool {
    '0' <= c <= '9'
}

/// Whether `text` is made of decimal digits only.
pub open spec fn all_digits(text: Seq<char>) -> bool {
    forall|i: int| 0 <= i < text.len() ==> is_digit(#[trigger] text[i])
}

/// The number that a decimal digit stands for.
pub open spec fn digit_value(c: char) -> nat
    recommends
        is_digit(c),
{
    (c as int - '0' as int) as nat
}

/// The number that a row of decimal digits stands for; 0 for the empty row.
pub open spec fn numeral_value(digits: Seq<char>) -> nat
    recommends
        all_digits(digits),
    decreases digits.len(),
{
    if digits.len() == 0 {
        0
    } else {
        numeral_value(digits.drop_last()) * 10 + digit_value(digits.last())
    }
}

/// The 32-bit number that `text` spells: there is one when `text` is a
/// non-empty row of decimal digits whose value fits.
pub open spec fn number_of(text: Seq<char>) -> Option<u32> {
    if text.len() > 0 && all_digits(text) && numeral_value(text) <= u32::MAX {
        Some(numeral_value(text) as u32)
    } else {
        None
    }
}

/// A row of digits is worth at least as much as any beginning of it.
pub proof fn lemma_numeral_grows(digits: Seq<char>, n: int)
    requires
        all_digits(digits),
        0 <= n <= digits.len(),
    ensures
        numeral_value(digits.take(n)) <= numeral_value(digits),
    decreases digits.len() - n,
{
    if n == digits.len() {
        assert(digits.take(n) == digits);
    } else {
        lemma_numeral_grows(digits, n + 1);
        assert(digits.take(n + 1).drop_last() == digits.take(n));
    }
}

/// Writing a number in decimal and reading the numeral gives the number
/// back: what a crop shows for a number is what had to be typed for it.
pub proof fn lemma_numeral_of_decimal(n: nat)
    ensures
        all_digits(decimal(n)),
        decimal(n).len() > 0,
        numeral_value(decimal(n)) == n,
        n <= u32::MAX ==> number_of(decimal(n)) == Some(n as u32),
    decreases n,
{
    if n < 10 {
        assert(decimal(n).drop_last().len() == 0);
        assert(numeral_value(decimal(n).drop_last()) == 0);
    } else {
        lemma_numeral_of_decimal(n / 10);
        let front = decimal(n / 10);
        assert(decimal(n).drop_last() == front);
        assert forall|i: int| 0 <= i < decimal(n).len() implies is_digit(
            #[trigger] decimal(n)[i],
        ) by {
            if i < front.len() {
                assert(decimal(n)[i] == front[i]);
            }
        }
    }
}

/// Reads a 32-bit number in decimal.
///
/// Accepts a non-empty row of decimal digits whose value fits into 32 bits;
/// leading zeros are allowed, signs are not.
pub fn parse_number(text: &str) -> (number: Option<u32>)
    ensures
        number == number_of(text@),
{
    let chars = to_chars(text);
    if chars.len() == 0 {
        return None;
    }
    let mut value: u64 = 0;
    let mut i: usize = 0;
    while i < chars.len()
        invariant
            i <= chars.len(),
            chars@ == text@,
            all_digits(chars@.take(i as int)),
            value == numeral_value(chars@.take(i as int)),
            value <= u32::MAX,
        decreases chars.len() - i,
    {
        let c = chars[i];
        if !(c >= '0' && c <= '9') {
            return None;
        }
        let digit: u64 = (c as u32 - 0x30) as u64;
        let ghost longer = chars@.take(i as int + 1);
        assert(longer.drop_last() == chars@.take(i as int));
        assert forall|j: int| 0 <= j < longer.len() implies is_digit(#[trigger] longer[j]) by {
            if j < i {
                assert(longer[j] == chars@.take(i as int)[j]);
            }
        }
        let next: u64 = value * 10 + digit;
        if next > 0xffff_ffff {
            proof {
                if all_digits(text@) {
                    lemma_numeral_grows(text@, i as int + 1);
                }
            }
            return None;
        }
        value = next;
        i += 1;
    }
    assert(chars@.take(chars.len() as int) == chars@);
    Some(value as u32)
}

/// What a prompt for a number asks of its caller after a key.
#[derive(Clone, Copy, Debug, PartialEq, Eq)]
pub enum NumberStep {
    /// Go on editing.
    Editing,
    /// Go on editing, and show that the last key could not be honoured.
    Flagged,
    /// The prompt was abandoned.
    Cancelled,
    /// The number was entered.
    Entered(u32),
}

/// A prompt for a number of 32 bits, in decimal.
///
/// It takes digits only; Enter accepts what was typed if that is a number
/// that fits.
pub struct NumberEntry {
    digits: String,
}

impl View for NumberEntry {
    type V = Seq<char>;

    closed spec fn view(&self) -> Seq<char> {
        self.digits@
    }
}

/// The digits after `key` was pressed on top of `digits`, and what the
/// prompt asks for.
pub open spec fn number_key(digits: Seq<char>, key: i32) -> (Seq<char>, NumberStep) {
    if key == KEY_ENTER {
        match number_of(digits) {
            Some(number) => (digits, NumberStep::Entered(number)),
            None => (digits, NumberStep::Flagged),
        }
    } else if cancels(key) {
        (digits, NumberStep::Cancelled)
    } else if key == KEY_BACKSPACE {
        if digits.len() == 0 {
            (digits, NumberStep::Editing)
        } else {
            (digits.drop_last(), NumberStep::Editing)
        }
    } else if 0x30 <= key <= 0x39 {
        (digits.push(key as char), NumberStep::Editing)
    } else {
        (digits, NumberStep::Flagged)
    }
}

impl NumberEntry {
    /// An empty prompt.
    pub fn new() -> (entry: NumberEntry)
        ensures
            entry@ == Seq::<char>::empty(),
            all_digits(entry@),
    {
        NumberEntry { digits: String::new() }
    }

    /// The digits entered so far.
    pub fn digits(&self) -> (text: &str)
        ensures
            text@ == self@,
    {
        self.digits.as_str()
    }

    /// Handles one key.
    pub fn on_key(&mut self, key: i32) -> (step: NumberStep)
        requires
            all_digits(old(self)@),
        ensures
            (final(self)@, step) == number_key(old(self)@, key),
            all_digits(final(self)@),
    {
        if key == KEY_ENTER {
            return match parse_number(self.digits.as_str()) {
                Some(number) => NumberStep::Entered(number),
                None => NumberStep::Flagged,
            };
        }
        if is_cancel(key) {
            return NumberStep::Cancelled;
        }
        if key == KEY_BACKSPACE {
            let _ = pop_char(&mut self.digits);
            return NumberStep::Editing;
        }
        if 0x30 <= key && key <= 0x39 {
            let c: char = (key as u8) as char;
            push_char(&mut self.digits, c);
            return NumberStep::Editing;
        }
        NumberStep::Flagged
    }
}

} // verus!
