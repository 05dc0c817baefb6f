use vstd::prelude::*;
use crate::error::Error;

verus! {

/// A progress message of one snapshot build, tagged with the file being
/// built and whether it is the newer of the two.
#[derive(Debug, Clone)]
pub struct LoadingMsg<M> {
    pub msg: M,
    pub file: String,
    pub is_newer: bool,
}

/// One snapshot build that a diff request asks for next.
#[derive(Debug, Clone)]
pub struct BuildStep {
    pub file: String,
    pub is_newer: bool,
}

impl BuildStep {
    /// Tags a progress message of this build with its file and side.
    pub fn tag<M>(&self, msg: M) -> (r: LoadingMsg<M>)
        ensures
            r.msg == msg,
            r.file@ == self.file@,
            r.is_newer == self.is_newer,
    {
        LoadingMsg { msg, file: self.file.clone(), is_newer: self.is_newer }
    }
}

/// The two snapshots of a finished request, with the files they came from.
pub struct BuiltPair<S> {
    pub newer: S,
    pub older: S,
    pub older_file: String,
    pub newer_file: String,
}

/// A diff request in progress: the older snapshot is built first, then the
/// newer; the first failure ends the request and discards what was built.
pub enum DiffRequest<S> {
    BuildingOlder { older_file: String, newer_file: String },
    BuildingNewer { older_file: String, newer_file: String, older: S },
    Built { older_file: String, newer_file: String, older: S, newer: S },
    Failed { error: Error },
}

impl<S> DiffRequest<S> {
    /// How far the request has come; a request never moves back.
    pub open spec fn rank(&self) -> nat {
        match self {
            DiffRequest::BuildingOlder { .. } => 0,
            DiffRequest::BuildingNewer { .. } => 1,
            DiffRequest::Built { .. } => 2,
            DiffRequest::Failed { .. } => 2,
        }
    }

    /// The build that the request waits for, as its file and side.
    pub open spec fn pending(&self) -> Option<(Seq<char>, bool)> {
        match self {
            DiffRequest::BuildingOlder { older_file, .. } => Some((older_file@, false)),
            DiffRequest::BuildingNewer { newer_file, .. } => Some((newer_file@, true)),
            _ => None,
        }
    }

    /// The request after the pending build ended with `built`; a failure is
    /// kept as the snapshot library's error.
    pub open spec fn advanced(self, built: Result<S, String>) -> Self {
        match self {
            DiffRequest::BuildingOlder { older_file, newer_file } => match built {
                Ok(older) => DiffRequest::BuildingNewer { older_file, newer_file, older },
                Err(m) => DiffRequest::Failed { error: Error::Diff(m) },
            },
            DiffRequest::BuildingNewer { older_file, newer_file, older } => match built {
                Ok(newer) => DiffRequest::Built { older_file, newer_file, older, newer },
                Err(m) => DiffRequest::Failed { error: Error::Diff(m) },
            },
            _ => self,
        }
    }

    /// What a request whose builds have ended yields.
    pub open spec fn outcome(self) -> Result<BuiltPair<S>, Error> {
        match self {
            DiffRequest::Built { older_file, newer_file, older, newer } => Ok(
                BuiltPair { newer, older, older_file, newer_file },
            ),
            DiffRequest::Failed { error } => Err(error),
            _ => Err(Error::NoDiffValue),
        }
    }

    /// A request for the two files, about to build the older one.
    pub fn new(older_file: String, newer_file: String) -> (r: Self)
        ensures
            r == (DiffRequest::<S>::BuildingOlder { older_file, newer_file }),
            r.pending() == Some((older_file@, false)),
    {
        DiffRequest::BuildingOlder { older_file, newer_file }
    }

    /// The build the request waits for, or `None` once it has ended.
    pub fn next_build(&self) -> (r: Option<BuildStep>)
        ensures
            match r {
                Some(step) => self.pending() == Some((step.file@, step.is_newer)),
                None => self.pending() is None,
            },
    {
        match self {
            DiffRequest::BuildingOlder { older_file, .. } => Some(
                BuildStep { file: older_file.clone(), is_newer: false },
            ),
            DiffRequest::BuildingNewer { newer_file, .. } => Some(
                BuildStep { file: newer_file.clone(), is_newer: true },
            ),
            _ => None,
        }
    }

    /// Records how the pending build ended.
    pub fn advance(self, built: Result<S, String>) -> (r: Self)
        ensures
            r == self.advanced(built),
            r.rank() >= self.rank(),
    {
        match self {
            DiffRequest::BuildingOlder { older_file, newer_file } => match built {
                Ok(older) => DiffRequest::BuildingNewer { older_file, newer_file, older },
                Err(m) => DiffRequest::Failed { error: Error::Diff(m) },
            },
            DiffRequest::BuildingNewer { older_file, newer_file, older } => match built {
                Ok(newer) => DiffRequest::Built { older_file, newer_file, older, newer },
                Err(m) => DiffRequest::Failed { error: Error::Diff(m) },
            },
            other => other,
        }
    }

    /// The two snapshots of a request whose builds have ended, newer first,
    /// or the error that ended it.
    pub fn finish(self) -> (r: Result<BuiltPair<S>, Error>)
        requires
            self.pending() is None,
        ensures
            r == self.outcome(),
    {
        match self {
            DiffRequest::Built { older_file, newer_file, older, newer } => Ok(
                BuiltPair { newer, older, older_file, newer_file },
            ),
            DiffRequest::Failed { error } => Err(error),
            DiffRequest::BuildingOlder { .. } => Err(Error::NoDiffValue),
            DiffRequest::BuildingNewer { .. } => Err(Error::NoDiffValue),
        }
    }
}

/// A run of a request: each state is the one before it, advanced by the
/// build that ended in between.
pub open spec fn is_run<S>(run: Seq<DiffRequest<S>>, builds: Seq<Result<S, String>>) -> bool {
    &&& run.len() == builds.len() + 1
    &&& forall|k: int| 0 <= k < builds.len() ==> #[trigger] run[k + 1] == run[k].advanced(builds[k])
}

/// Advancing a request never moves it back.
pub proof fn lemma_advance_keeps_rank<S>(req: DiffRequest<S>, built: Result<S, String>)
    ensures
        req.advanced(built).rank() >= req.rank(),
{
}

/// Along a run, the rank of a later state is at least that of an earlier one.
pub proof fn lemma_run_rank_grows<S>(
    run: Seq<DiffRequest<S>>,
    builds: Seq<Result<S, String>>,
    i: int,
    j: int,
)
    requires
        is_run(run, builds),
        0 <= i <= j < run.len(),
    ensures
        run[j].rank() >= run[i].rank(),
    decreases j - i,
{
    if i < j {
        lemma_run_rank_grows(run, builds, i, j - 1);
        lemma_advance_keeps_rank(run[j - 1], builds[j - 1]);
        assert(run[(j - 1) + 1] == run[j - 1].advanced(builds[j - 1]));
    }
}

/// Within one request, every progress message of the older build comes
/// before every progress message of the newer build: once the request waits
/// for the newer build, no later state waits for the older one.
pub proof fn lemma_older_events_precede_newer<S>(
    run: Seq<DiffRequest<S>>,
    builds: Seq<Result<S, String>>,
    i: int,
    j: int,
)
    requires
        is_run(run, builds),
        0 <= i <= j < run.len(),
        run[i].pending() is Some,
        run[i].pending().unwrap().1,
    ensures
        run[j].pending() is Some ==> run[j].pending().unwrap().1,
{
    lemma_run_rank_grows(run, builds, i, j);
}

} // verus!
