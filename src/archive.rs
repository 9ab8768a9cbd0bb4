//! Archive jobs: a directory, archived and compressed, delivered to a
//! destination.

use vstd::prelude::*;
use crate::destinations::{
    DestinationMap, DestinationSpec, DestinationType, DestinationTypeImpl, LocalPath,
    LocalPathEnsureError,
};
use crate::job::{ArchiveWriteError, JobAction, JobEvent, JobTypeImpl};
use crate::schema::{JobRunError, JobSpec, JobType};

verus! {

/// The algorithm an archive is compressed with.
#[derive(Debug, Clone, Copy, PartialEq, Eq, Structural)]
pub enum ArchiveJobCompression {
    GZip,
    /// Declared in configurations; runs that ask for it fail with
    /// `UnsupportedCompression`.
    Xz,
}

impl Default for ArchiveJobCompression {
    fn default() -> (r: Self)
        ensures
            r == ArchiveJobCompression::GZip,
    {
        ArchiveJobCompression::GZip
    }
}

/// A specification for an archive job.
#[derive(Debug, Clone)]
pub struct ArchiveJobSpec {
    /// The directory the archive is created from.
    pub src: String,
    /// The algorithm to compress the archive with.
    pub compression: ArchiveJobCompression,
    /// Where to write the archive; a fresh temporary file when absent.
    pub dest: Option<String>,
}

impl ArchiveJobSpec {
    /// A copy equal to `self`.
    pub fn duplicate(&self) -> (r: ArchiveJobSpec)
        ensures
            r == *self,
    {
        let dest = match &self.dest {
            Some(d) => Some(d.clone()),
            None => None,
        };
        ArchiveJobSpec { src: self.src.clone(), compression: self.compression, dest }
    }
}

/// Why an archive run failed, by stage.
#[derive(Debug)]
pub enum ArchiveJobRunError {
    /// The job names a destination that is not configured.
    MissingDestinationError,
    /// The job asks for a compression that is not implemented.
    UnsupportedCompression,
    /// The destination could not be made usable, or refused the artifact.
    DestinationError(LocalPathEnsureError),
    /// A temporary artifact file could not be allocated.
    TempFileCreateError(String),
    /// The source's metadata could not be read.
    FileMetadataError(String),
    /// The artifact file could not be created.
    OpenTempFileError(String),
    /// Filling the archive failed.
    AppendToTarError(String),
}

/// An archive job bound to the destinations it may be delivered to.
pub struct ArchiveJob {
    pub spec: JobSpec,
    pub dests: DestinationMap,
}

/// The directory of a destination.
pub open spec fn destination_dir(d: DestinationSpec) -> String {
    match d.destination_spec {
        DestinationType::LocalPath(l) => l.path,
    }
}

/// A failed run with the given error.
pub open spec fn failed(e: ArchiveJobRunError) -> JobAction<ArchiveJobRunError> {
    JobAction::Finish(Err(JobRunError { error: e }))
}

impl ArchiveJob {
    pub fn init(spec: JobSpec, dests: DestinationMap) -> (r: ArchiveJob)
        ensures
            r.spec == spec,
            r.dests == dests,
    {
        ArchiveJob { spec, dests }
    }

    /// The archive parameters of the job.
    pub open spec fn archive(&self) -> ArchiveJobSpec {
        self.spec.job_spec->ArchiveJob_0
    }

    /// The destination the job resolves to.
    pub open spec fn destination(&self) -> Option<DestinationSpec> {
        self.dests.lookup(self.spec.destination@)
    }

    fn archive_spec(&self) -> (r: &ArchiveJobSpec)
        ensures
            *r == self.archive(),
    {
        match &self.spec.job_spec {
            JobType::ArchiveJob(a) => a,
        }
    }

    fn fail(e: ArchiveJobRunError) -> (r: JobAction<ArchiveJobRunError>)
        ensures
            r == failed(e),
    {
        JobAction::Finish(Err(JobRunError { error: e }))
    }
}

/// What the filesystem answers to each step of one run.
pub struct RunOutcomes {
    pub is_dir: Result<bool, String>,
    pub ensured: Result<(), LocalPathEnsureError>,
    pub temp_file: Result<String, String>,
    pub written: Result<(), ArchiveWriteError>,
    pub artifact_exists: bool,
}

/// The event that performing `a` produces, when the filesystem answers as `o` says.
pub open spec fn answer(a: JobAction<ArchiveJobRunError>, o: RunOutcomes) -> JobEvent {
    match a {
        JobAction::InspectSource { .. } => JobEvent::SourceInspected(o.is_dir),
        JobAction::EnsureDestination { .. } => JobEvent::DestinationReady(o.ensured),
        JobAction::CreateTempFile => JobEvent::TempFileCreated(o.temp_file),
        JobAction::WriteArchive { artifact, .. } => JobEvent::ArchiveWritten {
            artifact,
            result: o.written,
        },
        JobAction::CheckArtifact { .. } => JobEvent::ArtifactChecked(o.artifact_exists),
        JobAction::Finish(_) => JobEvent::Start,
    }
}

impl ArchiveJob {
    /// The steps a run takes from `event` on, at most `fuel` of them.
    pub open spec fn steps(&self, event: JobEvent, o: RunOutcomes, fuel: nat) -> Seq<
        JobAction<ArchiveJobRunError>,
    >
        decreases fuel,
    {
        if fuel == 0 {
            Seq::empty()
        } else {
            let a = self.transition(event);
            if a.is_finish() {
                seq![a]
            } else {
                seq![a] + self.steps(answer(a, o), o, (fuel - 1) as nat)
            }
        }
    }

    /// Every step of a whole run, the last one its end.
    pub open spec fn run_steps(&self, o: RunOutcomes) -> Seq<JobAction<ArchiveJobRunError>> {
        self.steps(JobEvent::Start, o, 6)
    }
}

/// A run whose source is not a directory ends without work once the source
/// has been inspected: it never prepares a destination, allocates a file or
/// writes an archive.
pub proof fn lemma_non_directory_is_noop(job: ArchiveJob, o: RunOutcomes)
    requires
        o.is_dir == Ok::<bool, String>(false),
    ensures
        forall|i: int|
            0 <= i < job.run_steps(o).len() ==> !(#[trigger] job.run_steps(o)[i] is WriteArchive)
                && !(job.run_steps(o)[i] is CreateTempFile) && !(
            job.run_steps(o)[i] is EnsureDestination),
        job.destination() is Some && job.archive().compression == ArchiveJobCompression::GZip
            ==> job.run_steps(o) == seq![
            JobAction::InspectSource { src: job.archive().src },
            JobAction::<ArchiveJobRunError>::Finish(Ok(false)),
        ],
        job.destination() is Some && job.archive().compression == ArchiveJobCompression::Xz
            ==> job.run_steps(o) == seq![failed(ArchiveJobRunError::UnsupportedCompression)],
{
    reveal_with_fuel(ArchiveJob::steps, 3);
    let s = job.run_steps(o);
    assert(s.len() <= 2);
}

/// A run writes its archive only after the destination directory has been
/// made usable: the first steps of a run on a directory are inspecting the
/// source and preparing the destination, and no write comes before them.
pub proof fn lemma_destination_ready_before_write(job: ArchiveJob, o: RunOutcomes)
    requires
        o.is_dir == Ok::<bool, String>(true),
        job.destination() is Some,
        job.archive().compression == ArchiveJobCompression::GZip,
    ensures
        job.run_steps(o).len() >= 2,
        job.run_steps(o)[0] == (JobAction::<ArchiveJobRunError>::InspectSource {
            src: job.archive().src,
        }),
        job.run_steps(o)[1] == (JobAction::<ArchiveJobRunError>::EnsureDestination {
            path: destination_dir(job.destination().unwrap()),
        }),
        forall|j: int|
            0 <= j < job.run_steps(o).len() && #[trigger] job.run_steps(o)[j] is WriteArchive
                ==> j >= 2 && o.ensured is Ok,
{
    reveal_with_fuel(ArchiveJob::steps, 7);
    let s = job.run_steps(o);
    let t = job.steps(JobEvent::DestinationReady(o.ensured), o, 4);
    assert(s == seq![
        JobAction::<ArchiveJobRunError>::InspectSource { src: job.archive().src },
        JobAction::<ArchiveJobRunError>::EnsureDestination {
            path: destination_dir(job.destination().unwrap()),
        },
    ] + t);
    if o.ensured is Err {
        assert(t.len() == 1);
    }
}

/// A run in which every filesystem step succeeds archives the source into
/// the artifact (the job's fixed path, or the temporary file it was given),
/// after preparing the destination, and ends with work done.
pub proof fn lemma_successful_run(job: ArchiveJob, o: RunOutcomes)
    requires
        job.destination() is Some,
        job.archive().compression == ArchiveJobCompression::GZip,
        o.is_dir == Ok::<bool, String>(true),
        o.ensured == Ok::<(), LocalPathEnsureError>(()),
        o.temp_file is Ok,
        o.written == Ok::<(), ArchiveWriteError>(()),
        o.artifact_exists,
    ensures
        ({
            let artifact = match job.archive().dest {
                Some(p) => p,
                None => o.temp_file->Ok_0,
            };
            let steps = job.run_steps(o);
            &&& steps.len() >= 3
            &&& steps[1] == (JobAction::<ArchiveJobRunError>::EnsureDestination {
                path: destination_dir(job.destination().unwrap()),
            })
            &&& steps[steps.len() - 3] == (JobAction::<ArchiveJobRunError>::WriteArchive {
                src: job.archive().src,
                artifact,
            })
            &&& steps[steps.len() - 2] == (JobAction::<ArchiveJobRunError>::CheckArtifact {
                path: artifact,
            })
            &&& steps.last() == JobAction::<ArchiveJobRunError>::Finish(Ok(true))
        }),
{
    reveal_with_fuel(ArchiveJob::steps, 7);
}

impl JobTypeImpl<ArchiveJob, ArchiveJobRunError> for ArchiveJob {
    /// A run: resolve the destination and the compression; read the source's
    /// metadata, and stop without work unless it is a directory; make the
    /// destination directory usable; write the archive to the job's fixed
    /// artifact path or to a fresh temporary file; hand it to the destination.
    /// Any failure ends the run with the error of its stage; an artifact
    /// that was partly written when the failure came is left in place.
    open spec fn transition(&self, event: JobEvent) -> JobAction<ArchiveJobRunError> {
        match event {
            JobEvent::Start => match self.destination() {
                None => failed(ArchiveJobRunError::MissingDestinationError),
                Some(_) => if self.archive().compression == ArchiveJobCompression::Xz {
                    failed(ArchiveJobRunError::UnsupportedCompression)
                } else {
                    JobAction::InspectSource { src: self.archive().src }
                },
            },
            JobEvent::SourceInspected(Err(e)) => failed(ArchiveJobRunError::FileMetadataError(e)),
            JobEvent::SourceInspected(Ok(false)) => JobAction::Finish(Ok(false)),
            JobEvent::SourceInspected(Ok(true)) => match self.destination() {
                None => failed(ArchiveJobRunError::MissingDestinationError),
                Some(d) => JobAction::EnsureDestination { path: destination_dir(d) },
            },
            JobEvent::DestinationReady(Err(e)) => failed(ArchiveJobRunError::DestinationError(e)),
            JobEvent::DestinationReady(Ok(())) => match self.archive().dest {
                Some(p) => JobAction::WriteArchive { src: self.archive().src, artifact: p },
                None => JobAction::CreateTempFile,
            },
            JobEvent::TempFileCreated(Err(e)) => failed(ArchiveJobRunError::TempFileCreateError(e)),
            JobEvent::TempFileCreated(Ok(p)) => JobAction::WriteArchive {
                src: self.archive().src,
                artifact: p,
            },
            JobEvent::ArchiveWritten { artifact, result } => match result {
                Err(ArchiveWriteError::Create(e)) => failed(
                    ArchiveJobRunError::OpenTempFileError(e),
                ),
                Err(ArchiveWriteError::Append(e)) => failed(ArchiveJobRunError::AppendToTarError(e)),
                Ok(()) => JobAction::CheckArtifact { path: artifact },
            },
            JobEvent::ArtifactChecked(exists) => match self.destination() {
                None => failed(ArchiveJobRunError::MissingDestinationError),
                Some(_) => if exists {
                    JobAction::Finish(Ok(true))
                } else {
                    failed(ArchiveJobRunError::DestinationError(LocalPathEnsureError::SourceDoesntExist))
                },
            },
        }
    }

    fn run(&self, event: JobEvent) -> (r: JobAction<ArchiveJobRunError>) {
        let spec = self.archive_spec();
        match event {
            JobEvent::Start => match self.dests.get(&self.spec.destination) {
                None => ArchiveJob::fail(ArchiveJobRunError::MissingDestinationError),
                Some(_) => match spec.compression {
                    ArchiveJobCompression::Xz => ArchiveJob::fail(
                        ArchiveJobRunError::UnsupportedCompression,
                    ),
                    ArchiveJobCompression::GZip => JobAction::InspectSource { src: spec.src.clone() },
                },
            },
            JobEvent::SourceInspected(Err(e)) => ArchiveJob::fail(
                ArchiveJobRunError::FileMetadataError(e),
            ),
            JobEvent::SourceInspected(Ok(is_dir)) => {
                if !is_dir {
                    JobAction::Finish(Ok(false))
                } else {
                    match self.dests.get(&self.spec.destination) {
                        None => ArchiveJob::fail(ArchiveJobRunError::MissingDestinationError),
                        Some(d) => match &d.destination_spec {
                            DestinationType::LocalPath(l) => JobAction::EnsureDestination {
                                path: l.path.clone(),
                            },
                        },
                    }
                }
            },
            JobEvent::DestinationReady(Err(e)) => ArchiveJob::fail(
                ArchiveJobRunError::DestinationError(e),
            ),
            JobEvent::DestinationReady(Ok(())) => match &spec.dest {
                Some(p) => JobAction::WriteArchive { src: spec.src.clone(), artifact: p.clone() },
                None => JobAction::CreateTempFile,
            },
            JobEvent::TempFileCreated(Err(e)) => ArchiveJob::fail(
                ArchiveJobRunError::TempFileCreateError(e),
            ),
            JobEvent::TempFileCreated(Ok(p)) => JobAction::WriteArchive {
                src: spec.src.clone(),
                artifact: p,
            },
            JobEvent::ArchiveWritten { artifact, result } => match result {
                Err(ArchiveWriteError::Create(e)) => ArchiveJob::fail(
                    ArchiveJobRunError::OpenTempFileError(e),
                ),
                Err(ArchiveWriteError::Append(e)) => ArchiveJob::fail(
                    ArchiveJobRunError::AppendToTarError(e),
                ),
                Ok(()) => JobAction::CheckArtifact { path: artifact },
            },
            JobEvent::ArtifactChecked(exists) => match self.dests.get(&self.spec.destination) {
                None => ArchiveJob::fail(ArchiveJobRunError::MissingDestinationError),
                Some(d) => match &d.destination_spec {
                    DestinationType::LocalPath(l) => {
                        let local = LocalPath::from_spec(l.duplicate());
                        match local.send(exists) {
                            Ok(_) => JobAction::Finish(Ok(true)),
                            Err(e) => ArchiveJob::fail(ArchiveJobRunError::DestinationError(e)),
                        }
                    },
                },
            },
        }
    }
}

} // verus!
