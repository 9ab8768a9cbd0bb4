//! Destinations: named sinks that an archive is delivered to.

use vstd::prelude::*;

verus! {

/// Why a local directory destination cannot take an artifact.
#[derive(Debug, Clone)]
pub enum LocalPathEnsureError {
    /// The filesystem reported a failure (its message).
    GenericIOFail(String),
    /// The artifact that was to be handed over does not exist.
    SourceDoesntExist,
    /// The configured path exists but is not a directory.
    NotADir,
}

/// Parameters of a local directory destination.
#[derive(Debug, Clone)]
pub struct LocalPathDestinationSpec {
    pub path: String,
}

/// The variants of destination; one field per variant carries its parameters.
#[derive(Debug, Clone)]
pub enum DestinationType {
    LocalPath(LocalPathDestinationSpec),
}

/// A named destination.
#[derive(Debug, Clone)]
pub struct DestinationSpec {
    pub name: String,
    pub destination_spec: DestinationType,
}

impl LocalPathDestinationSpec {
    /// A copy equal to `self`.
    pub fn duplicate(&self) -> (r: LocalPathDestinationSpec)
        ensures
            r == *self,
    {
        LocalPathDestinationSpec { path: self.path.clone() }
    }
}

impl DestinationSpec {
    /// A copy equal to `self`.
    pub fn duplicate(&self) -> (r: DestinationSpec)
        ensures
            r == *self,
    {
        let destination_spec = match &self.destination_spec {
            DestinationType::LocalPath(l) => DestinationType::LocalPath(l.duplicate()),
        };
        DestinationSpec { name: self.name.clone(), destination_spec }
    }
}

/// A local directory destination.
#[derive(Debug, Clone)]
pub struct LocalPath {
    pub spec: LocalPathDestinationSpec,
}

/// What the filesystem reported for the last step of making a local
/// directory destination usable.
#[derive(Debug)]
pub enum EnsureEvent {
    /// Nothing has been asked yet.
    Begin,
    /// Whether the path exists.
    Probed(bool),
    /// The outcome of creating the directory.
    Created(Result<(), String>),
    /// The outcome of reading the path's metadata: whether it is a directory.
    Inspected(Result<bool, String>),
}

/// The next filesystem step, or the end of the check.
#[derive(Debug)]
pub enum EnsureAction {
    CheckExists(String),
    CreateDir(String),
    ReadMetadata(String),
    Done(Result<(), LocalPathEnsureError>),
}

/// A destination that can take over a finished artifact.
pub trait DestinationTypeImpl {
    /// Whether an artifact that exists (or not) is accepted.
    spec fn accepts(&self, artifact_exists: bool) -> bool;

    /// Why an artifact is refused.
    spec fn refusal(&self, artifact_exists: bool) -> LocalPathEnsureError;

    /// Accepts the artifact when it exists; fails otherwise.
    fn send(&self, artifact_exists: bool) -> (r: Result<bool, LocalPathEnsureError>)
        ensures
            r == if self.accepts(artifact_exists) {
                Ok::<bool, LocalPathEnsureError>(true)
            } else {
                Err(self.refusal(artifact_exists))
            },
    ;
}

impl LocalPath {
    pub fn from_spec(spec: LocalPathDestinationSpec) -> (r: Self)
        ensures
            r.spec == spec,
    {
        LocalPath { spec }
    }

    /// Makes sure the configured directory exists, creating it when it is
    /// absent: the decision after each filesystem step.
    ///
    /// The walk is: check that the path exists; if not, create it; if it does,
    /// read its metadata and fail with `NotADir` unless it is a directory.
    /// A filesystem failure ends the walk with `GenericIOFail`.
    pub fn ensure(&self, event: EnsureEvent) -> (r: EnsureAction)
        ensures
            match event {
                EnsureEvent::Begin => r == EnsureAction::CheckExists(self.spec.path),
                EnsureEvent::Probed(false) => r == EnsureAction::CreateDir(self.spec.path),
                EnsureEvent::Probed(true) => r == EnsureAction::ReadMetadata(self.spec.path),
                EnsureEvent::Created(Ok(())) => r == EnsureAction::Done(Ok(())),
                EnsureEvent::Created(Err(e)) => r == EnsureAction::Done(
                    Err(LocalPathEnsureError::GenericIOFail(e)),
                ),
                EnsureEvent::Inspected(Ok(true)) => r == EnsureAction::Done(Ok(())),
                EnsureEvent::Inspected(Ok(false)) => r == EnsureAction::Done(
                    Err(LocalPathEnsureError::NotADir),
                ),
                EnsureEvent::Inspected(Err(e)) => r == EnsureAction::Done(
                    Err(LocalPathEnsureError::GenericIOFail(e)),
                ),
            },
    {
        match event {
            EnsureEvent::Begin => EnsureAction::CheckExists(self.spec.path.clone()),
            EnsureEvent::Probed(exists) => {
                if exists {
                    EnsureAction::ReadMetadata(self.spec.path.clone())
                } else {
                    EnsureAction::CreateDir(self.spec.path.clone())
                }
            },
            EnsureEvent::Created(Ok(())) => EnsureAction::Done(Ok(())),
            EnsureEvent::Created(Err(e)) => EnsureAction::Done(
                Err(LocalPathEnsureError::GenericIOFail(e)),
            ),
            EnsureEvent::Inspected(Ok(is_dir)) => {
                if is_dir {
                    EnsureAction::Done(Ok(()))
                } else {
                    EnsureAction::Done(Err(LocalPathEnsureError::NotADir))
                }
            },
            EnsureEvent::Inspected(Err(e)) => EnsureAction::Done(
                Err(LocalPathEnsureError::GenericIOFail(e)),
            ),
        }
    }
}

impl DestinationTypeImpl for LocalPath {
    open spec fn accepts(&self, artifact_exists: bool) -> bool {
        artifact_exists
    }

    open spec fn refusal(&self, artifact_exists: bool) -> LocalPathEnsureError {
        LocalPathEnsureError::SourceDoesntExist
    }

    /// The artifact is already in place: accepting it means checking that it
    /// exists.
    fn send(&self, artifact_exists: bool) -> (r: Result<bool, LocalPathEnsureError>) {
        assert(self.accepts(artifact_exists) == artifact_exists);
        assert(self.refusal(artifact_exists) == LocalPathEnsureError::SourceDoesntExist);
        if artifact_exists {
            Ok(true)
        } else {
            Err(LocalPathEnsureError::SourceDoesntExist)
        }
    }
}

/// Destinations indexed by name. When one name is registered twice, the
/// later registration is the one that a lookup finds.
#[derive(Debug, Clone)]
pub struct DestinationMap {
    entries: Vec<DestinationSpec>,
}

/// The entry for `name` among `specs`, when the later one of equal names wins.
pub open spec fn last_named(specs: Seq<DestinationSpec>, name: Seq<char>) -> Option<DestinationSpec>
    decreases specs.len(),
{
    if specs.len() == 0 {
        None
    } else if specs.last().name@ == name {
        Some(specs.last())
    } else {
        last_named(specs.drop_last(), name)
    }
}

impl DestinationMap {
    /// The registrations, oldest first.
    pub closed spec fn view(&self) -> Seq<DestinationSpec> {
        self.entries@
    }

    /// What a lookup by `name` gives.
    pub open spec fn lookup(&self, name: Seq<char>) -> Option<DestinationSpec> {
        last_named(self@, name)
    }

    pub fn new() -> (r: DestinationMap)
        ensures
            forall|n: Seq<char>| #[trigger] r.lookup(n) is None,
    {
        DestinationMap { entries: Vec::new() }
    }

    /// Registers `spec`; it shadows an earlier destination of the same name.
    pub fn insert(&mut self, spec: DestinationSpec)
        ensures
            forall|n: Seq<char>| #[trigger] final(self).lookup(n) == if n == spec.name@ {
                Some(spec)
            } else {
                old(self).lookup(n)
            },
    {
        self.entries.push(spec);
        assert(self@.drop_last() == old(self)@);
    }

    /// The destination named `name`, if one is registered.
    pub fn get(&self, name: &String) -> (r: Option<&DestinationSpec>)
        ensures
            match r {
                Some(d) => self.lookup(name@) == Some(*d),
                None => self.lookup(name@) is None,
            },
    {
        let mut i: usize = self.entries.len();
        assert(self@.take(i as int) == self@);
        while i > 0
            invariant
                i <= self@.len(),
                self@ == self.entries@,
                last_named(self@, name@) == last_named(self@.take(i as int), name@),
            decreases i,
        {
            assert(self@.take(i as int).drop_last() == self@.take(i - 1));
            if string_eq(&self.entries[i - 1].name, name) {
                return Some(&self.entries[i - 1]);
            }
            i = i - 1;
        }
        None
    }

    /// A copy that resolves every name as `self` does.
    pub fn duplicate(&self) -> (r: DestinationMap)
        ensures
            forall|n: Seq<char>| #[trigger] r.lookup(n) == self.lookup(n),
    {
        DestinationMap::from_specs(&self.entries)
    }

    /// Registers every spec of `specs` in order, so that the last of equal
    /// names wins.
    pub fn from_specs(specs: &Vec<DestinationSpec>) -> (r: DestinationMap)
        ensures
            forall|n: Seq<char>| #[trigger] r.lookup(n) == last_named(specs@, n),
    {
        let mut m = DestinationMap::new();
        let mut i: usize = 0;
        assert(specs@.take(0) == Seq::<DestinationSpec>::empty());
        while i < specs.len()
            invariant
                i <= specs@.len(),
                forall|n: Seq<char>| #[trigger] m.lookup(n) == last_named(specs@.take(i as int), n),
            decreases specs@.len() - i,
        {
            m.insert(specs[i].duplicate());
            proof {
                assert(specs@.take(i + 1).drop_last() == specs@.take(i as int));
            }
            i = i + 1;
        }
        assert(specs@.take(specs@.len() as int) == specs@);
        m
    }
}

/// Of destinations that share a name, the one listed last is the one that a
/// lookup by that name resolves to, whatever comes before it.
pub proof fn lemma_last_duplicate_wins(specs: Seq<DestinationSpec>, i: int)
    requires
        0 <= i < specs.len(),
        forall|j: int| i < j < specs.len() ==> #[trigger] specs[j].name@ != specs[i].name@,
    ensures
        last_named(specs, specs[i].name@) == Some(specs[i]),
    decreases specs.len(),
{
    if i < specs.len() - 1 {
        let init = specs.drop_last();
        assert(specs[specs.len() - 1].name@ != specs[i].name@);
        assert(init[i] == specs[i]);
        assert forall|j: int| i < j < init.len() implies #[trigger] init[j].name@ != init[i].name@ by {
            assert(init[j] == specs[j]);
        }
        lemma_last_duplicate_wins(init, i);
    }
}

/// Compares two strings by their characters.
fn string_eq(a: &String, b: &String) -> (r: bool)
    ensures
        r == (a@ == b@),
{
    a.eq(b)
}

} // verus!
