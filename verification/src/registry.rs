use vstd::prelude::*;
use crate::operation::Operation;
use crate::paths::OpenedFile;

verus! {

/// The files that were accepted and the log of operations on them.
///
/// Both only grow: an entry keeps its position for good.
pub struct Registry {
    files: Vec<OpenedFile>,
    operations: Vec<Operation>,
}

/// The contents of a registry: the paths of the files and the operations,
/// both in the order in which they were recorded.
#[verifier::ext_equal]
pub struct RegistryView {
    pub files: Seq<Seq<char>>,
    pub operations: Seq<Operation>,
}

impl RegistryView {
    /// The registry in which nothing is recorded.
    pub open spec fn empty() -> RegistryView {
        RegistryView { files: Seq::empty(), operations: Seq::empty() }
    }

    /// Every operation names files and operations that exist: see
    /// `Operation::fits`.
    pub open spec fn wf(self) -> bool {
        forall|i: int|
            0 <= i < self.operations.len() ==> (#[trigger] self.operations[i]).fits(
                i,
                self.files.len() as int,
            )
    }

    /// Whether `later` holds all that `self` holds, at the same positions.
    pub open spec fn grows_to(self, later: RegistryView) -> bool {
        self.files.is_prefix_of(later.files) && self.operations.is_prefix_of(later.operations)
    }

    /// The registry after `operation` is recorded.
    pub open spec fn with_operation(self, operation: Operation) -> RegistryView {
        RegistryView { operations: self.operations.push(operation), ..self }
    }

    /// The registry after a file is opened: the file is added and an `Open`
    /// of it is recorded.
    pub open spec fn with_open(self, path: Seq<char>) -> RegistryView {
        RegistryView {
            files: self.files.push(path),
            operations: self.operations.push(Operation::Open(self.files.len() as usize)),
        }
    }

    /// The registry after a file is named for saving: the file is added and
    /// a `Save` to it is recorded, whose source is the first operation of
    /// the log.
    pub open spec fn with_save(self, path: Seq<char>) -> RegistryView {
        RegistryView {
            files: self.files.push(path),
            operations: self.operations.push(Operation::Save(0, self.files.len() as usize)),
        }
    }
}

/// Recording an operation that fits keeps the registry well formed, and
/// what was recorded before stays where it was.
pub proof fn lemma_with_operation(registry: RegistryView, operation: Operation)
    requires
        registry.wf(),
        operation.fits(registry.operations.len() as int, registry.files.len() as int),
    ensures
        registry.with_operation(operation).wf(),
        registry.grows_to(registry.with_operation(operation)),
{
    let later = registry.with_operation(operation);
    assert forall|i: int| 0 <= i < later.operations.len() implies (#[trigger] later.operations[i]).fits(
        i,
        later.files.len() as int,
    ) by {
        if i < registry.operations.len() {
            assert(later.operations[i] == registry.operations[i]);
        }
    }
}

/// Opening a file and naming a file for saving keep the registry well
/// formed, and what was recorded before stays where it was.
pub proof fn lemma_with_file(registry: RegistryView, path: Seq<char>)
    requires
        registry.wf(),
        registry.files.len() < usize::MAX,
    ensures
        registry.with_open(path).wf(),
        registry.grows_to(registry.with_open(path)),
        registry.with_save(path).wf(),
        registry.grows_to(registry.with_save(path)),
{
    let opened = registry.with_open(path);
    assert forall|i: int| 0 <= i < opened.operations.len() implies (#[trigger] opened.operations[i]).fits(
        i,
        opened.files.len() as int,
    ) by {
        if i < registry.operations.len() {
            assert(opened.operations[i] == registry.operations[i]);
        }
    }
    let saved = registry.with_save(path);
    assert forall|i: int| 0 <= i < saved.operations.len() implies (#[trigger] saved.operations[i]).fits(
        i,
        saved.files.len() as int,
    ) by {
        if i < registry.operations.len() {
            assert(saved.operations[i] == registry.operations[i]);
        }
    }
}

impl View for Registry {
    type V = RegistryView;

    closed spec fn view(&self) -> RegistryView {
        RegistryView { files: self.files.deep_view(), operations: self.operations@ }
    }
}

impl Registry {
    /// A registry in which nothing is recorded.
    pub fn new() -> (registry: Registry)
        ensures
            registry@ == RegistryView::empty(),
            registry@.wf(),
    {
        Registry { files: Vec::new(), operations: Vec::new() }
    }

    /// The files, in the order in which they were accepted.
    pub fn files(&self) -> (files: &Vec<OpenedFile>)
        ensures
            files.deep_view() == self@.files,
    {
        &self.files
    }

    /// The operations, in the order in which they were recorded.
    pub fn operations(&self) -> (operations: &Vec<Operation>)
        ensures
            operations@ == self@.operations,
    {
        &self.operations
    }

    /// Records `operation` at the end of the log if it fits there, and says
    /// whether it did.
    pub fn record(&mut self, operation: Operation) -> (recorded: bool)
        requires
            old(self)@.wf(),
        ensures
            recorded == operation.fits(
                old(self)@.operations.len() as int,
                old(self)@.files.len() as int,
            ),
            recorded ==> final(self)@ == old(self)@.with_operation(operation),
            !recorded ==> final(self)@ == old(self)@,
            final(self)@.wf(),
            old(self)@.grows_to(final(self)@),
    {
        if operation.check_fits(self.operations.len(), self.files.len()) {
            proof {
                lemma_with_operation(self@, operation);
            }
            self.operations.push(operation);
            true
        } else {
            false
        }
    }

    /// Adds `file` to the files and records that it is opened.
    pub fn record_open(&mut self, file: OpenedFile)
        requires
            old(self)@.wf(),
        ensures
            final(self)@ == old(self)@.with_open(file@),
            final(self)@.wf(),
            old(self)@.grows_to(final(self)@),
    {
        let ghost before = self@;
        let ghost path = file@;
        let position: usize = self.files.len();
        self.files.push(file);
        // the new length is a `usize`: the position of the file is one as well
        let _count: usize = self.files.len();
        proof {
            lemma_with_file(before, path);
        }
        self.operations.push(Operation::Open(position));
    }

    /// Adds `file` to the files and records that the first operation of the
    /// log is saved to it.
    pub fn record_save(&mut self, file: OpenedFile)
        requires
            old(self)@.wf(),
        ensures
            final(self)@ == old(self)@.with_save(file@),
            final(self)@.wf(),
            old(self)@.grows_to(final(self)@),
    {
        let ghost before = self@;
        let ghost path = file@;
        let position: usize = self.files.len();
        self.files.push(file);
        // the new length is a `usize`: the position of the file is one as well
        let _count: usize = self.files.len();
        proof {
            lemma_with_file(before, path);
        }
        self.operations.push(Operation::Save(0, position));
    }
}

} // verus!
