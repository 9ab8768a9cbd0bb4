//! The uniform shape of a job run: a sequence of filesystem steps, each
//! decided by the job from the outcome of the one before.

use vstd::prelude::*;
use crate::destinations::LocalPathEnsureError;
use crate::schema::JobRunError;

verus! {

/// Why writing an archive failed, by stage.
#[derive(Debug)]
pub enum ArchiveWriteError {
    /// The artifact file could not be created.
    Create(String),
    /// Filling the archive failed.
    Append(String),
}

/// The outcome of the last step of a run.
#[derive(Debug)]
pub enum JobEvent {
    /// The run begins.
    Start,
    /// Reading the source's metadata: whether it is a directory.
    SourceInspected(Result<bool, String>),
    /// Making the destination usable.
    DestinationReady(Result<(), LocalPathEnsureError>),
    /// Allocating a temporary artifact file: its path.
    TempFileCreated(Result<String, String>),
    /// Writing the archive to `artifact`.
    ArchiveWritten { artifact: String, result: Result<(), ArchiveWriteError> },
    /// Whether the artifact exists where it was written.
    ArtifactChecked(bool),
}

/// The next step of a run, or its end.
#[derive(Debug)]
pub enum JobAction<E> {
    /// Read the metadata of `src`.
    InspectSource { src: String },
    /// Make the local directory at `path` usable.
    EnsureDestination { path: String },
    /// Allocate a temporary file for the artifact.
    CreateTempFile,
    /// Archive the directory `src`, compressed, into the file `artifact`.
    WriteArchive { src: String, artifact: String },
    /// Check that the file `path` exists.
    CheckArtifact { path: String },
    /// The run is over: whether work was done, or why it failed.
    Finish(Result<bool, JobRunError<E>>),
}

impl<E> JobAction<E> {
    pub open spec fn is_finish(&self) -> bool {
        self is Finish
    }
}

/// A runnable job: the decisions of a run, one step at a time.
pub trait JobTypeImpl<T, E> {
    /// The step that follows `event`.
    spec fn transition(&self, event: JobEvent) -> JobAction<E>;

    /// Decides the step that follows `event`.
    fn run(&self, event: JobEvent) -> (r: JobAction<E>)
        ensures
            r == self.transition(event),
    ;
}

} // verus!
