//! Putting object files into one static archive, and standing in for an
//! archive that the linker asks for and that has nothing in it.

use vstd::prelude::*;
use crate::error::{failure_of, BuildError, BuildErrorView};

verus! {

/// One run of the archiver: the archive to make or replace, and the object
/// files that go into it, in their order.
#[derive(Debug, Clone, PartialEq, Eq)]
pub struct ArchiveJob {
    pub archive: String,
    pub members: Vec<String>,
}

/// An archive job with its texts as plain sequences of characters.
pub struct ArchiveJobView {
    pub archive: Seq<char>,
    pub members: Seq<Seq<char>>,
}

impl View for ArchiveJob {
    type V = ArchiveJobView;

    open spec fn view(&self) -> ArchiveJobView {
        ArchiveJobView {
            archive: self.archive@,
            members: self.members@.map_values(|member: String| member@),
        }
    }
}

impl ArchiveJobView {
    /// What the archiver is run with: `rs`, which replaces the members and
    /// writes the table of symbols anew, the archive, and the members in
    /// their order.
    pub open spec fn arguments(self) -> Seq<Seq<char>> {
        seq!["rs"@, self.archive] + self.members
    }
}

impl ArchiveJob {
    /// The program that is run.
    pub fn program(&self) -> (program: &'static str)
        ensures
            program@ == "ar"@,
    {
        "ar"
    }

    /// What the archiver is run with.
    pub fn arguments(&self) -> (arguments: Vec<String>)
        ensures
            arguments@.map_values(|argument: String| argument@) == self@.arguments(),
    {
        let mut arguments: Vec<String> = Vec::new();
        arguments.push(String::from_str("rs"));
        arguments.push(self.archive.clone());
        let mut i: usize = 0;
        while i < self.members.len()
            invariant
                i <= self.members.len(),
                arguments@.map_values(|argument: String| argument@) == seq![
                    "rs"@,
                    self.archive@,
                ] + self@.members.take(i as int),
            decreases self.members.len() - i,
        {
            let ghost before = arguments@;
            let member = self.members[i].clone();
            arguments.push(member);
            proof {
                assert(arguments@.map_values(|argument: String| argument@) =~= before.map_values(
                    |argument: String| argument@,
                ).push(member@));
                assert(self@.members.take(i + 1) =~= self@.members.take(i as int).push(
                    self.members[i as int]@,
                ));
            }
            i = i + 1;
        }
        assert(self@.members.take(i as int) =~= self@.members);
        arguments
    }
}

/// Whether the archiver did its work, told from how it ended: it did where
/// it exited with status zero, and only there.
pub open spec fn archiver_succeeded(status: Option<i32>) -> bool {
    status == Some(0i32)
}

/// The failure of the archiver, if how it ended is one.
pub fn check_archiver(status: Option<i32>) -> (outcome: Result<(), BuildError>)
    ensures
        archiver_succeeded(status) ==> outcome is Ok,
        !archiver_succeeded(status) ==> failure_of(outcome) == Some(
            BuildErrorView::ArchiverFailure { status },
        ),
{
    match status {
        Some(0) => Ok(()),
        _ => Err(BuildError::ArchiverFailure { status }),
    }
}

/// The members of an archive job are what the archiver is handed after the
/// archive, one for one and in their order: member `i` is argument `i + 2`.
pub proof fn lemma_arguments_keep_order(job: ArchiveJobView, i: int)
    requires
        0 <= i < job.members.len(),
    ensures
        job.arguments().len() == job.members.len() + 2,
        job.arguments()[0] == "rs"@,
        job.arguments()[1] == job.archive,
        job.arguments()[i + 2] == job.members[i],
        job.arguments().subrange(2, job.arguments().len() as int) == job.members,
{
    assert(job.arguments().subrange(2, job.arguments().len() as int) =~= job.members);
}

/// What became of a placeholder archive.
#[derive(Debug, Clone, Copy, PartialEq, Eq)]
pub enum PlaceholderOutcome {
    /// The archive was there already and was left as it was.
    Reused,
    /// The archive was not there and has been made: somebody has to look at
    /// it and keep it.
    NeedsReview,
}

/// What is to be done about a placeholder archive. The stub is compiled in
/// either case; only where the archive is missing is anything written at the
/// destination.
#[derive(Debug, Clone, PartialEq, Eq)]
pub enum PlaceholderStep {
    /// The stub is compiled, and the archive that is there stays as it is,
    /// byte for byte.
    Compile { stub: String },
    /// The stub is compiled and what comes out is put at the destination.
    CompileAndPlace { stub: String, destination: String },
}

/// A placeholder step with its texts as plain sequences of characters.
pub enum PlaceholderStepView {
    Compile { stub: Seq<char> },
    CompileAndPlace { stub: Seq<char>, destination: Seq<char> },
}

impl View for PlaceholderStep {
    type V = PlaceholderStepView;

    open spec fn view(&self) -> PlaceholderStepView {
        match self {
            PlaceholderStep::Compile { stub } => PlaceholderStepView::Compile { stub: stub@ },
            PlaceholderStep::CompileAndPlace { stub, destination } => {
                PlaceholderStepView::CompileAndPlace { stub: stub@, destination: destination@ }
            },
        }
    }
}

/// An archive without content that stands in for a library that the linker
/// asks for.
#[derive(Debug, Clone, PartialEq, Eq)]
pub struct Placeholder {
    /// The assembly source without content that the archive is made from.
    pub stub: String,
    /// Where the archive is to be.
    pub destination: String,
}

/// Where the placeholder for the library `name` is, in the directory
/// `lib_dir`: `lib`, the name and `.a`, after the directory and a `/`.
pub open spec fn placeholder_path(lib_dir: Seq<char>, name: Seq<char>) -> Seq<char> {
    lib_dir + "/lib"@ + name + ".a"@
}

impl Placeholder {
    /// The placeholder for the library `name` in the directory `lib_dir`,
    /// made from the assembly source `stub`.
    pub fn new(lib_dir: &str, name: &str, stub: &str) -> (placeholder: Placeholder)
        ensures
            placeholder.stub@ == stub@,
            placeholder.destination@ == placeholder_path(lib_dir@, name@),
    {
        let mut destination = String::from_str(lib_dir);
        destination.append("/lib");
        destination.append(name);
        destination.append(".a");
        Placeholder { stub: String::from_str(stub), destination }
    }

    /// What is to be done, given whether the archive is there: the stub is
    /// compiled, and what comes out is put at the destination only where
    /// nothing is there, so that an archive that is there stays byte for
    /// byte.
    pub fn step(&self, present: bool) -> (step: PlaceholderStep)
        ensures
            present ==> step@ == (PlaceholderStepView::Compile { stub: self.stub@ }),
            !present ==> step@ == (PlaceholderStepView::CompileAndPlace {
                stub: self.stub@,
                destination: self.destination@,
            }),
    {
        if present {
            PlaceholderStep::Compile { stub: self.stub.clone() }
        } else {
            PlaceholderStep::CompileAndPlace {
                stub: self.stub.clone(),
                destination: self.destination.clone(),
            }
        }
    }

    /// What became of the archive, given whether it was there before the
    /// step was taken.
    pub fn outcome(&self, existed: bool) -> (outcome: PlaceholderOutcome)
        ensures
            existed ==> outcome == PlaceholderOutcome::Reused,
            !existed ==> outcome == PlaceholderOutcome::NeedsReview,
    {
        if existed {
            PlaceholderOutcome::Reused
        } else {
            PlaceholderOutcome::NeedsReview
        }
    }

    /// Whether the build may go on: it may with an archive that was there,
    /// and ends with one that was only just made.
    pub fn accept(&self, outcome: PlaceholderOutcome) -> (accepted: Result<(), BuildError>)
        ensures
            outcome == PlaceholderOutcome::Reused ==> accepted is Ok,
            outcome == PlaceholderOutcome::NeedsReview ==> failure_of(accepted) == Some(
                BuildErrorView::PlaceholderArtifactDrift { archive: self.destination@ },
            ),
    {
        match outcome {
            PlaceholderOutcome::Reused => Ok(()),
            PlaceholderOutcome::NeedsReview => Err(
                BuildError::PlaceholderArtifactDrift { archive: self.destination.clone() },
            ),
        }
    }
}

} // verus!
