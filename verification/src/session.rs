use vstd::prelude::*;
use crate::builders::{
    lemma_built_crop_fits, lemma_built_merge_fits, CropBuilder, CropView, MergeBuilder, MergeView,
    Progress,
};
use crate::completion::{completion_query, directory_of};
use crate::entry::{EntryStep, TextEntry, TextEntryView};
use crate::keys::{KEY_C, KEY_M, KEY_O, KEY_Q, KEY_S};
use crate::operation::Operation;
use crate::paths::{extension_of, handle_file_opening, path_verdict, PathKind};
use crate::registry::{lemma_with_operation, Registry, RegistryView};
use crate::text::{copy_text, is_scalar_value};

verus! {

/// What a path is asked for.
#[derive(Clone, Copy, Debug, PartialEq, Eq)]
pub enum Purpose {
    /// To read an image: the file has to exist.
    Open,
    /// To write an image: the file need not exist.
    Save,
}

impl Purpose {
    /// Whether the file has to exist already.
    pub open spec fn must_exist(self) -> bool {
        self is Open
    }

    /// Whether the file has to exist already.
    pub fn needs_existing_file(&self) -> (must: bool)
        ensures
            must == self.must_exist(),
    {
        match self {
            Purpose::Open => true,
            Purpose::Save => false,
        }
    }
}

/// What the session is busy with.
pub enum Mode {
    /// Nothing: the next key is a command.
    Idle,
    /// A path is being entered.
    Entering(Purpose, TextEntry),
    /// A merge is being assembled.
    Merging(MergeBuilder),
    /// A crop is being assembled.
    Cropping(CropBuilder),
}

/// What the session is busy with, as plain values.
#[verifier::ext_equal]
pub enum ModeView {
    Idle,
    Entering(Purpose, TextEntryView),
    Merging(MergeView),
    Cropping(CropView),
}

impl View for Mode {
    type V = ModeView;

    open spec fn view(&self) -> ModeView {
        match *self {
            Mode::Idle => ModeView::Idle,
            Mode::Entering(purpose, entry) => ModeView::Entering(purpose, entry@),
            Mode::Merging(builder) => ModeView::Merging(builder@),
            Mode::Cropping(builder) => ModeView::Cropping(builder@),
        }
    }
}

/// What the session asks of its caller before the next event.
#[derive(Debug, PartialEq, Eq)]
pub enum Request {
    /// Draw the screen and hand the next key to `on_key`.
    Key,
    /// The same, and show that the last key could not be honoured.
    FlaggedKey,
    /// End the session.
    Quit,
    /// Find the working directory and hand it to `begin_entry`, with
    /// this purpose.
    WorkingDirectory(Purpose),
    /// List this directory and hand the names of its entries to
    /// `on_listing`.
    Listing(String),
    /// Find what the file system holds at this path and hand it to
    /// `on_probe`.
    Probe(String),
}

/// What the session asks of its caller, as plain values.
#[verifier::ext_equal]
pub enum RequestView {
    Key,
    FlaggedKey,
    Quit,
    WorkingDirectory(Purpose),
    Listing(Seq<char>),
    Probe(Seq<char>),
}

impl View for Request {
    type V = RequestView;

    open spec fn view(&self) -> RequestView {
        match *self {
            Request::Key => RequestView::Key,
            Request::FlaggedKey => RequestView::FlaggedKey,
            Request::Quit => RequestView::Quit,
            Request::WorkingDirectory(purpose) => RequestView::WorkingDirectory(purpose),
            Request::Listing(directory) => RequestView::Listing(directory@),
            Request::Probe(path) => RequestView::Probe(path@),
        }
    }
}

/// An interactive session: the registry, and the prompt that is open, if
/// one is.
///
/// The session decides; its caller draws, reads keys and looks at the file
/// system, and hands each result to the method that the last request named.
pub struct Session {
    registry: Registry,
    mode: Mode,
}

/// The state of a session.
#[verifier::ext_equal]
pub struct SessionView {
    pub registry: RegistryView,
    pub mode: ModeView,
}

impl SessionView {
    /// The session as it begins: nothing recorded, no prompt open.
    pub open spec fn start() -> SessionView {
        SessionView { registry: RegistryView::empty(), mode: ModeView::Idle }
    }

    /// The registry and the open prompt are well formed, and a merge or a
    /// crop is assembled over the log as it is.
    pub open spec fn wf(self) -> bool {
        &&& self.registry.wf()
        &&& match self.mode {
            ModeView::Idle => true,
            ModeView::Entering(_, entry) => entry.wf(),
            ModeView::Merging(builder) => builder.wf() && builder.operations
                == self.registry.operations.len(),
            ModeView::Cropping(builder) => builder.wf() && builder.operations
                == self.registry.operations.len(),
        }
    }

    /// Whether the session can make something of `key`: while a path is
    /// entered, a key has to be the code of a character.
    pub open spec fn takes(self, key: i32) -> bool {
        self.mode is Entering ==> is_scalar_value(key as int)
    }

    /// The session back at rest, with the same registry.
    pub open spec fn idle(self) -> SessionView {
        SessionView { mode: ModeView::Idle, ..self }
    }

    /// The session after the path `path` was accepted for `purpose`: the
    /// file and its operation are recorded and the prompt is closed.
    pub open spec fn accepted(self, purpose: Purpose, path: Seq<char>) -> SessionView {
        SessionView {
            registry: match purpose {
                Purpose::Open => self.registry.with_open(path),
                Purpose::Save => self.registry.with_save(path),
            },
            mode: ModeView::Idle,
        }
    }

    /// The session after the text of the open prompt was submitted and the
    /// file system holds `kind` at it, and what it asks for.
    pub open spec fn judged(self, purpose: Purpose, entry: TextEntryView, kind: PathKind) -> (
        SessionView,
        RequestView,
    ) {
        if path_verdict(purpose.must_exist(), kind, extension_of(entry.buffer)) is Ok {
            (self.accepted(purpose, entry.buffer), RequestView::Key)
        } else {
            (
                SessionView { mode: ModeView::Entering(purpose, entry), ..self },
                RequestView::FlaggedKey,
            )
        }
    }

    /// The session after the assembly of an operation has come to
    /// `progress`, where `busy` is the mode in which it goes on.
    pub open spec fn progressed(self, busy: ModeView, progress: Progress) -> (
        SessionView,
        RequestView,
    ) {
        match progress {
            Progress::Pending => (SessionView { mode: busy, ..self }, RequestView::Key),
            Progress::Flagged => (SessionView { mode: busy, ..self }, RequestView::FlaggedKey),
            Progress::Abandoned => (self.idle(), RequestView::Key),
            Progress::Built(operation) => (
                SessionView {
                    registry: self.registry.with_operation(operation),
                    mode: ModeView::Idle,
                },
                RequestView::Key,
            ),
        }
    }

    /// The session after `key`, and what it asks for.
    pub open spec fn on_key(self, key: i32) -> (SessionView, RequestView) {
        match self.mode {
            ModeView::Idle => {
                if key == KEY_Q {
                    (self, RequestView::Quit)
                } else if key == KEY_O {
                    (self, RequestView::WorkingDirectory(Purpose::Open))
                } else if key == KEY_S {
                    (self, RequestView::WorkingDirectory(Purpose::Save))
                } else if key == KEY_M && self.registry.operations.len() > 0 {
                    (
                        SessionView {
                            mode: ModeView::Merging(
                                MergeView::start(self.registry.operations.len() as int),
                            ),
                            ..self
                        },
                        RequestView::Key,
                    )
                } else if key == KEY_C && self.registry.operations.len() > 0 {
                    (
                        SessionView {
                            mode: ModeView::Cropping(
                                CropView::start(self.registry.operations.len() as int),
                            ),
                            ..self
                        },
                        RequestView::Key,
                    )
                } else {
                    (self, RequestView::Key)
                }
            },
            ModeView::Entering(purpose, entry) => {
                let (edited, step) = entry.on_key(key);
                let busy = SessionView { mode: ModeView::Entering(purpose, edited), ..self };
                match step {
                    EntryStep::Editing => (busy, RequestView::Key),
                    EntryStep::Flagged => (busy, RequestView::FlaggedKey),
                    EntryStep::Cancelled => (self.idle(), RequestView::Key),
                    EntryStep::Listing => (busy, RequestView::Listing(directory_of(edited.buffer))),
                    EntryStep::Submitted => if purpose.must_exist() {
                        (busy, RequestView::Probe(edited.buffer))
                    } else {
                        self.judged(purpose, edited, PathKind::Missing)
                    },
                }
            },
            ModeView::Merging(builder) => {
                let (next, progress) = builder.on_key(key);
                self.progressed(ModeView::Merging(next), progress)
            },
            ModeView::Cropping(builder) => {
                let (next, progress) = builder.on_key(key);
                self.progressed(ModeView::Cropping(next), progress)
            },
        }
    }

    /// The session after a prompt for a path is asked for, with the text
    /// that the prompt begins with. A prompt opens only while the session is
    /// at rest.
    pub open spec fn begin_entry(self, purpose: Purpose, seed: Seq<char>) -> SessionView {
        match self.mode {
            ModeView::Idle => SessionView {
                mode: ModeView::Entering(purpose, TextEntryView::editing(seed)),
                ..self
            },
            _ => self,
        }
    }

    /// The session after the listing of a directory arrives, and what it
    /// asks for. A listing means something only while a path is entered.
    pub open spec fn on_listing(self, listing: Option<Seq<Option<Seq<char>>>>) -> (
        SessionView,
        RequestView,
    ) {
        match self.mode {
            ModeView::Entering(purpose, entry) => {
                let (completed, step) = entry.on_listing(listing);
                (
                    SessionView { mode: ModeView::Entering(purpose, completed), ..self },
                    if step is Flagged {
                        RequestView::FlaggedKey
                    } else {
                        RequestView::Key
                    },
                )
            },
            _ => (self, RequestView::Key),
        }
    }

    /// The session after it is told what the file system holds at the path
    /// that is entered, and what it asks for: the path is judged as it
    /// stands. The answer means something only while a path is entered.
    pub open spec fn on_probe(self, kind: PathKind) -> (SessionView, RequestView) {
        match self.mode {
            ModeView::Entering(purpose, entry) => self.judged(purpose, entry, kind),
            _ => (self, RequestView::Key),
        }
    }
}

impl View for Session {
    type V = SessionView;

    closed spec fn view(&self) -> SessionView {
        SessionView { registry: self.registry@, mode: self.mode@ }
    }
}

impl Session {
    /// A session in which nothing is recorded and no prompt is open.
    pub fn new() -> (session: Session)
        ensures
            session@ == SessionView::start(),
            session@.wf(),
    {
        Session { registry: Registry::new(), mode: Mode::Idle }
    }

    /// The files and the log of operations.
    pub fn registry(&self) -> (registry: &Registry)
        ensures
            registry@ == self@.registry,
    {
        &self.registry
    }

    /// What the session is busy with.
    pub fn mode(&self) -> (mode: &Mode)
        ensures
            mode@ == self@.mode,
    {
        &self.mode
    }

    /// Judges the text of a prompt and records the file if it is accepted.
    fn judge(registry: Registry, purpose: Purpose, entry: TextEntry, kind: PathKind) -> (next: (
        Session,
        Request,
    ))
        requires
            registry@.wf(),
            entry@.wf(),
        ensures
            (next.0@, next.1@) == (SessionView {
                registry: registry@,
                mode: ModeView::Idle,
            }).judged(purpose, entry@, kind),
            next.0@.wf(),
            registry@.grows_to(next.0@.registry),
    {
        let mut registry = registry;
        match handle_file_opening(entry.buffer(), purpose.needs_existing_file(), kind) {
            Ok(file) => {
                match purpose {
                    Purpose::Open => registry.record_open(file),
                    Purpose::Save => registry.record_save(file),
                }
                (Session { registry, mode: Mode::Idle }, Request::Key)
            },
            Err(_) => (
                Session { registry, mode: Mode::Entering(purpose, entry) },
                Request::FlaggedKey,
            ),
        }
    }

    /// Goes on after the assembly of an operation has come to `progress`:
    /// records the operation if one was built.
    fn proceed(registry: Registry, busy: Mode, progress: Progress) -> (next: (Session, Request))
        requires
            registry@.wf(),
            (SessionView { registry: registry@, mode: busy@ }).wf(),
            progress matches Progress::Built(operation) ==> operation.fits(
                registry@.operations.len() as int,
                registry@.files.len() as int,
            ),
        ensures
            (next.0@, next.1@) == (SessionView {
                registry: registry@,
                mode: ModeView::Idle,
            }).progressed(busy@, progress),
            next.0@.wf(),
            registry@.grows_to(next.0@.registry),
    {
        let mut registry = registry;
        match progress {
            Progress::Pending => (Session { registry, mode: busy }, Request::Key),
            Progress::Flagged => (Session { registry, mode: busy }, Request::FlaggedKey),
            Progress::Abandoned => (Session { registry, mode: Mode::Idle }, Request::Key),
            Progress::Built(operation) => {
                proof {
                    lemma_with_operation(registry@, operation);
                }
                let _ = registry.record(operation);
                (Session { registry, mode: Mode::Idle }, Request::Key)
            },
        }
    }

    /// Handles one key.
    ///
    /// At rest, `o` and `s` ask for a path to open and to save to, `m` and
    /// `c` begin a merge and a crop if the log is not empty, and `q` ends
    /// the session. While a prompt is open the key goes to the prompt; the
    /// registry changes only when the prompt completes.
    pub fn on_key(self, key: i32) -> (next: (Session, Request))
        requires
            self@.wf(),
            self@.takes(key),
        ensures
            (next.0@, next.1@) == self@.on_key(key),
            next.0@.wf(),
            self@.registry.grows_to(next.0@.registry),
    {
        let Session { registry, mode } = self;
        match mode {
            Mode::Idle => {
                if key == KEY_Q {
                    (Session { registry, mode: Mode::Idle }, Request::Quit)
                } else if key == KEY_O {
                    (
                        Session { registry, mode: Mode::Idle },
                        Request::WorkingDirectory(Purpose::Open),
                    )
                } else if key == KEY_S {
                    (
                        Session { registry, mode: Mode::Idle },
                        Request::WorkingDirectory(Purpose::Save),
                    )
                } else if key == KEY_M {
                    match MergeBuilder::start(registry.operations().len()) {
                        Some(builder) => (
                            Session { registry, mode: Mode::Merging(builder) },
                            Request::Key,
                        ),
                        None => (Session { registry, mode: Mode::Idle }, Request::Key),
                    }
                } else if key == KEY_C {
                    match CropBuilder::start(registry.operations().len()) {
                        Some(builder) => (
                            Session { registry, mode: Mode::Cropping(builder) },
                            Request::Key,
                        ),
                        None => (Session { registry, mode: Mode::Idle }, Request::Key),
                    }
                } else {
                    (Session { registry, mode: Mode::Idle }, Request::Key)
                }
            },
            Mode::Entering(purpose, mut entry) => {
                match entry.on_key(key) {
                    EntryStep::Editing => (
                        Session { registry, mode: Mode::Entering(purpose, entry) },
                        Request::Key,
                    ),
                    EntryStep::Flagged => (
                        Session { registry, mode: Mode::Entering(purpose, entry) },
                        Request::FlaggedKey,
                    ),
                    EntryStep::Cancelled => (Session { registry, mode: Mode::Idle }, Request::Key),
                    EntryStep::Listing => {
                        let directory = match completion_query(entry.buffer()) {
                            Some(query) => query.directory,
                            None => String::new(),
                        };
                        (
                            Session { registry, mode: Mode::Entering(purpose, entry) },
                            Request::Listing(directory),
                        )
                    },
                    EntryStep::Submitted => {
                        if purpose.needs_existing_file() {
                            let path = copy_text(entry.buffer());
                            (
                                Session { registry, mode: Mode::Entering(purpose, entry) },
                                Request::Probe(path),
                            )
                        } else {
                            Self::judge(registry, purpose, entry, PathKind::Missing)
                        }
                    },
                }
            },
            Mode::Merging(builder) => {
                proof {
                    if builder@.on_key(key).1 is Built {
                        lemma_built_merge_fits(builder@, key, registry@.files.len() as int);
                    }
                }
                let (builder, progress) = builder.on_key(key);
                Self::proceed(registry, Mode::Merging(builder), progress)
            },
            Mode::Cropping(builder) => {
                proof {
                    if builder@.on_key(key).1 is Built {
                        lemma_built_crop_fits(builder@, key, registry@.files.len() as int);
                    }
                }
                let (builder, progress) = builder.on_key(key);
                Self::proceed(registry, Mode::Cropping(builder), progress)
            },
        }
    }

    /// Opens a prompt for a path, beginning with the working directory, or
    /// with nothing where that is not known. Nothing happens unless the
    /// session is at rest.
    pub fn begin_entry(self, purpose: Purpose, working_directory: Option<String>) -> (next: Session)
        requires
            self@.wf(),
        ensures
            next@ == self@.begin_entry(
                purpose,
                match working_directory {
                    Some(directory) => directory@,
                    None => Seq::empty(),
                },
            ),
            next@.wf(),
            next@.registry == self@.registry,
    {
        let Session { registry, mode } = self;
        match mode {
            Mode::Idle => {
                let seed = match working_directory {
                    Some(directory) => directory,
                    None => String::new(),
                };
                Session { registry, mode: Mode::Entering(purpose, TextEntry::new(seed)) }
            },
            busy => Session { registry, mode: busy },
        }
    }

    /// Takes the listing of the directory that was asked for: the names of
    /// its entries, `None` for an entry without a usable name, or no
    /// listing at all where the directory could not be read.
    pub fn on_listing(self, listing: Option<&Vec<Option<String>>>) -> (next: (Session, Request))
        requires
            self@.wf(),
        ensures
            (next.0@, next.1@) == self@.on_listing(listing.deep_view()),
            next.0@.wf(),
            next.0@.registry == self@.registry,
    {
        let Session { registry, mode } = self;
        match mode {
            Mode::Entering(purpose, mut entry) => {
                let request = match entry.on_listing(listing) {
                    EntryStep::Flagged => Request::FlaggedKey,
                    _ => Request::Key,
                };
                (Session { registry, mode: Mode::Entering(purpose, entry) }, request)
            },
            busy => (Session { registry, mode: busy }, Request::Key),
        }
    }

    /// Takes what the file system holds at the path that was submitted, and
    /// judges the path: if it is accepted, the file and its operation are
    /// recorded and the prompt closes; if not, the prompt stays open.
    pub fn on_probe(self, kind: PathKind) -> (next: (Session, Request))
        requires
            self@.wf(),
        ensures
            (next.0@, next.1@) == self@.on_probe(kind),
            next.0@.wf(),
            self@.registry.grows_to(next.0@.registry),
    {
        let Session { registry, mode } = self;
        match mode {
            Mode::Entering(purpose, entry) => Self::judge(registry, purpose, entry, kind),
            busy => (Session { registry, mode: busy }, Request::Key),
        }
    }
}

/// Opening a file records it once: when the path of a prompt that was
/// opened to read a file is accepted, the list of files grows by that path,
/// the log grows by an `Open` that names the new file, and nothing else
/// changes.
pub proof fn lemma_open_records_once(session: SessionView, kind: PathKind)
    requires
        session.wf(),
        session.mode matches ModeView::Entering(purpose, entry) && purpose is Open && path_verdict(
            true,
            kind,
            extension_of(entry.buffer),
        ) is Ok,
    ensures
        ({
            let after = session.on_probe(kind).0.registry;
            let path = session.mode->Entering_1.buffer;
            &&& after.files == session.registry.files.push(path)
            &&& after.operations == session.registry.operations.push(
                Operation::Open(session.registry.files.len() as usize),
            )
            &&& after.files.len() == session.registry.files.len() + 1
            &&& after.operations.len() == session.registry.operations.len() + 1
        }),
        session.on_probe(kind).0.mode is Idle,
{
}

/// Abandoning records nothing: when a key makes a prompt give up (a
/// selection or an entry is cancelled, a confirmation is declined), the
/// session is back at rest with the registry as it was.
pub proof fn lemma_abandoning_records_nothing(session: SessionView, key: i32)
    requires
        session.wf(),
        match session.mode {
            ModeView::Idle => false,
            ModeView::Entering(_, entry) => entry.on_key(key).1 is Cancelled,
            ModeView::Merging(builder) => builder.on_key(key).1 is Abandoned,
            ModeView::Cropping(builder) => builder.on_key(key).1 is Abandoned,
        },
    ensures
        session.on_key(key).0.registry == session.registry,
        session.on_key(key).0.mode is Idle,
        session.on_key(key).1 is Key,
{
}

/// Operations appear whole or not at all: a key changes the registry only
/// by completing a prompt, and then by one operation, which fits.
pub proof fn lemma_key_records_at_most_one(session: SessionView, key: i32)
    requires
        session.wf(),
    ensures
        ({
            let after = session.on_key(key).0;
            ||| after.registry == session.registry
            ||| {
                &&& after.mode is Idle
                &&& after.registry.operations.len() == session.registry.operations.len() + 1
                &&& after.registry.operations.last().fits(
                    session.registry.operations.len() as int,
                    after.registry.files.len() as int,
                )
                &&& session.registry.grows_to(after.registry)
            }
        }),
{
    let after = session.on_key(key).0;
    match session.mode {
        ModeView::Idle => {},
        ModeView::Entering(purpose, entry) => {
            if after.registry != session.registry {
                assert(session.registry.operations =~= after.registry.operations.subrange(
                    0,
                    session.registry.operations.len() as int,
                ));
                assert(session.registry.files =~= after.registry.files.subrange(
                    0,
                    session.registry.files.len() as int,
                ));
            }
        },
        ModeView::Merging(builder) => {
            if builder.on_key(key).1 is Built {
                lemma_built_merge_fits(builder, key, session.registry.files.len() as int);
                lemma_with_operation(session.registry, builder.on_key(key).1->Built_0);
            }
        },
        ModeView::Cropping(builder) => {
            if builder.on_key(key).1 is Built {
                lemma_built_crop_fits(builder, key, session.registry.files.len() as int);
                lemma_with_operation(session.registry, builder.on_key(key).1->Built_0);
            }
        },
    }
}

} // verus!
