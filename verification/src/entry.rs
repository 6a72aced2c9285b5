use vstd::prelude::*;
use crate::completion::{
    common_prefix, completable, completion_query, compute_matches, longest_common_prefix,
    matches_of,
};
use crate::keys::{cancels, is_cancel, KEY_BACKSPACE, KEY_ENTER, KEY_TAB};
use crate::selection::{advanced, lemma_cursor_is_cyclic, next_position};
use crate::text::{char_from_code, is_scalar_value, pop_char, push_char};

verus! {

/// What a prompt for text asks of its caller after a key.
#[derive(Clone, Copy, Debug, PartialEq, Eq)]
pub enum EntryStep {
    /// Go on editing.
    Editing,
    /// Go on editing, and show that the last key could not be honoured.
    Flagged,
    /// The prompt was abandoned.
    Cancelled,
    /// The text was submitted and is to be validated.
    Submitted,
    /// The directory of the text is to be listed, and the listing handed to
    /// `on_listing`.
    Listing,
}

/// A prompt for a line of text that completes paths.
///
/// The first request for a completion replaces the text by the longest
/// beginning that all matching paths share; each further one replaces it by
/// the next match in turn. Any other key ends the turn-taking.
pub struct TextEntry {
    buffer: String,
    cycling: bool,
    matches: Vec<String>,
    next: usize,
}

/// The state of a text prompt.
#[verifier::ext_equal]
pub struct TextEntryView {
    /// The text entered so far.
    pub buffer: Seq<char>,
    /// Whether the last key asked for a completion and was answered.
    pub cycling: bool,
    /// The matches that the completions go through; empty when none are
    /// known.
    pub matches: Seq<Seq<char>>,
    /// The position in `matches` of the next completion.
    pub next: nat,
}

impl TextEntryView {
    /// A prompt that holds `buffer` and is not completing.
    pub open spec fn editing(buffer: Seq<char>) -> TextEntryView {
        TextEntryView { buffer, cycling: false, matches: Seq::empty(), next: 0 }
    }

    /// The completions stay inside the matches, and there are none outside
    /// a run of completions.
    pub open spec fn wf(self) -> bool {
        &&& self.matches.len() == 0 ==> self.next == 0
        &&& self.matches.len() > 0 ==> self.next < self.matches.len()
        &&& !self.cycling ==> self.matches.len() == 0
    }

    /// The position after `self.next`, going round.
    pub open spec fn following(self) -> nat {
        next_position(self.next as int, self.matches.len() as int) as nat
    }

    /// The state after `count` requests for a completion in a row.
    pub open spec fn completed(self, count: nat) -> TextEntryView
        decreases count,
    {
        if count == 0 {
            self
        } else {
            self.completed((count - 1) as nat).on_key(KEY_TAB).0
        }
    }

    /// The state after `key`, and what the prompt asks for.
    pub open spec fn on_key(self, key: i32) -> (TextEntryView, EntryStep) {
        if key == KEY_ENTER {
            (Self::editing(self.buffer), EntryStep::Submitted)
        } else if cancels(key) {
            (self, EntryStep::Cancelled)
        } else if key == KEY_TAB {
            if self.cycling {
                if self.matches.len() == 0 {
                    (self, EntryStep::Flagged)
                } else {
                    (
                        TextEntryView {
                            buffer: self.matches[self.next as int],
                            next: self.following(),
                            ..self
                        },
                        EntryStep::Editing,
                    )
                }
            } else if completable(self.buffer) {
                (self, EntryStep::Listing)
            } else {
                (TextEntryView { cycling: true, ..self }, EntryStep::Flagged)
            }
        } else if key == KEY_BACKSPACE {
            if self.buffer.len() == 0 {
                (Self::editing(self.buffer), EntryStep::Editing)
            } else {
                (Self::editing(self.buffer.drop_last()), EntryStep::Editing)
            }
        } else {
            (Self::editing(self.buffer.push(key as char)), EntryStep::Editing)
        }
    }

    /// The state after the first completion of a run, given the listing of
    /// the text's directory, and what the prompt asks for.
    ///
    /// Without a list of matches the run begins and every completion in it
    /// is flagged. With an empty list the completion is flagged and no run
    /// begins. Otherwise the text becomes the longest beginning that the
    /// matches share.
    pub open spec fn on_listing(self, listing: Option<Seq<Option<Seq<char>>>>) -> (
        TextEntryView,
        EntryStep,
    ) {
        match matches_of(self.buffer, listing) {
            None => (
                TextEntryView { cycling: true, matches: Seq::empty(), next: 0, ..self },
                EntryStep::Flagged,
            ),
            Some(found) => if found.len() == 0 {
                (Self::editing(self.buffer), EntryStep::Flagged)
            } else {
                (
                    TextEntryView {
                        buffer: common_prefix(found),
                        cycling: true,
                        matches: found,
                        next: 0,
                    },
                    EntryStep::Editing,
                )
            },
        }
    }
}

impl View for TextEntry {
    type V = TextEntryView;

    closed spec fn view(&self) -> TextEntryView {
        TextEntryView {
            buffer: self.buffer@,
            cycling: self.cycling,
            matches: self.matches.deep_view(),
            next: self.next as nat,
        }
    }
}

impl TextEntry {
    /// A prompt that begins with the text `seed`.
    pub fn new(seed: String) -> (entry: TextEntry)
        ensures
            entry@ == TextEntryView::editing(seed@),
            entry@.wf(),
    {
        TextEntry { buffer: seed, cycling: false, matches: Vec::new(), next: 0 }
    }

    /// The text entered so far.
    pub fn buffer(&self) -> (text: &str)
        ensures
            text@ == self@.buffer,
    {
        self.buffer.as_str()
    }

    /// Forgets the matches: the next completion starts a new run.
    fn stop_cycling(&mut self)
        ensures
            final(self)@ == TextEntryView::editing(old(self)@.buffer),
    {
        self.cycling = false;
        self.matches = Vec::new();
        self.next = 0;
    }

    /// Handles one key.
    ///
    /// The code of a key that is no command has to be that of a character.
    pub fn on_key(&mut self, key: i32) -> (step: EntryStep)
        requires
            old(self)@.wf(),
            is_scalar_value(key as int),
        ensures
            (final(self)@, step) == old(self)@.on_key(key),
            final(self)@.wf(),
    {
        if key == KEY_ENTER {
            self.stop_cycling();
            return EntryStep::Submitted;
        }
        if is_cancel(key) {
            return EntryStep::Cancelled;
        }
        if key == KEY_TAB {
            if self.cycling {
                if self.matches.len() == 0 {
                    return EntryStep::Flagged;
                }
                self.buffer = self.matches[self.next].clone();
                self.next = if self.next + 1 >= self.matches.len() {
                    0
                } else {
                    self.next + 1
                };
                return EntryStep::Editing;
            }
            return match completion_query(self.buffer.as_str()) {
                Some(_) => EntryStep::Listing,
                None => {
                    self.cycling = true;
                    EntryStep::Flagged
                },
            };
        }
        if key == KEY_BACKSPACE {
            let _ = pop_char(&mut self.buffer);
            self.stop_cycling();
            return EntryStep::Editing;
        }
        match char_from_code(key as u32) {
            Some(c) => {
                push_char(&mut self.buffer, c);
                self.stop_cycling();
                EntryStep::Editing
            },
            None => EntryStep::Flagged,
        }
    }

    /// Completes the text for the first time in a run, from the listing of
    /// its directory: the names of the entries, `None` for an entry without
    /// a usable name, or no listing at all where the directory could not be
    /// read.
    pub fn on_listing(&mut self, listing: Option<&Vec<Option<String>>>) -> (step: EntryStep)
        requires
            old(self)@.wf(),
        ensures
            (final(self)@, step) == old(self)@.on_listing(listing.deep_view()),
            final(self)@.wf(),
    {
        match compute_matches(self.buffer.as_str(), listing) {
            None => {
                self.cycling = true;
                self.matches = Vec::new();
                self.next = 0;
                EntryStep::Flagged
            },
            Some(found) => {
                if found.len() == 0 {
                    self.stop_cycling();
                    EntryStep::Flagged
                } else {
                    self.buffer = longest_common_prefix(&found);
                    self.cycling = true;
                    self.matches = found;
                    self.next = 0;
                    EntryStep::Editing
                }
            },
        }
    }
}

/// A key that edits the text ends the run of completions: the matches
/// are forgotten, and the next request for a completion starts over.
pub proof fn lemma_edit_ends_completion(entry: TextEntryView, key: i32)
    requires
        key != KEY_TAB,
        !cancels(key),
    ensures
        !entry.on_key(key).0.cycling,
        entry.on_key(key).0.matches.len() == 0,
        entry.on_key(key).0.next == 0,
{
}

/// In a run of completions, `count` further requests leave the matches as
/// they are, show the match that lies `count - 1` places round from the next
/// one, and move on by `count` places.
pub proof fn lemma_completions_advance(entry: TextEntryView, count: nat)
    requires
        entry.wf(),
        entry.cycling,
        entry.matches.len() > 0,
    ensures
        entry.completed(count).wf(),
        entry.completed(count).cycling,
        entry.completed(count).matches == entry.matches,
        entry.completed(count).next == advanced(
            entry.next as int,
            entry.matches.len() as int,
            count,
        ),
        count > 0 ==> entry.completed(count).buffer == entry.matches[advanced(
            entry.next as int,
            entry.matches.len() as int,
            (count - 1) as nat,
        )],
    decreases count,
{
    if count > 0 {
        lemma_completions_advance(entry, (count - 1) as nat);
    }
}

/// The completions go round: in a run over some matches, as many requests
/// as there are matches lead back to the match that was due first.
pub proof fn lemma_completions_go_round(entry: TextEntryView)
    requires
        entry.wf(),
        entry.cycling,
        entry.matches.len() > 0,
    ensures
        entry.completed(entry.matches.len()).next == entry.next,
        entry.completed(entry.matches.len() + 1).buffer == entry.matches[entry.next as int],
{
    lemma_completions_advance(entry, entry.matches.len());
    lemma_completions_advance(entry, entry.matches.len() + 1);
    lemma_cursor_is_cyclic(entry.next as int, entry.matches.len());
}

} // verus!
